//! Launch orchestrator: the end-to-end sequence of one automatic launch.
//!
//! An automatic invocation runs guard, locator, resolver, bypass, injection
//! and a stabilization wait in that order, owns the shared [`LaunchState`]
//! the presentation layer polls, and surfaces exactly one terminal error.
//! Failures during setup abort the remaining pipeline but never the cleanup:
//! the guard is released on every exit path, and no failure leaves the hook
//! registration permanently removed or the lock marker held by a dead
//! instance.  A manual invocation (no target given) skips the pipeline
//! entirely and only exposes status and controls.
//!
//! The orchestrator is a state machine over model values; its host performs
//! the matching process and OS work between steps and feeds back what it
//! observed.  [`run_automatic_launch`] composes the steps in pipeline order,
//! so the whole run's outcome is pinned down in one contract.

use vstd::prelude::*;
use vstd::string::*;
use crate::bypass::TriggerWait;
use crate::bypass::TriggerWaitDecision;
use crate::decimal::append_decimal_i32;
use crate::decimal::spec_decimal_i32;
use crate::guard::AcquireOutcome;
use crate::guard::MarkerState;
use crate::guard::ReentrancyGuard;
use crate::guard::release_step;
use crate::hook::HookState;
use crate::locator::ParsedLaunch;
use crate::locator::parse_invocation;
use crate::locator::spec_pass_through;
use crate::locator::spec_target_path;
use crate::progress::LaunchState;
use crate::progress::PROGRESS_FULL;
use crate::progress::evolves;
use crate::resolver::InjectorLocation;
use crate::resolver::InjectorSource;
use crate::resolver::first_existing;
use crate::resolver::resolve_injector;
use crate::runner::InjectionOutcome;

verus! {

/// Progress once the pipeline is entered, in thousandths.
pub const PROGRESS_ACTIVE: u32 = 50;

/// Progress once the bypass is in effect and the injector is about to
/// start.
pub const PROGRESS_INJECTOR_STARTED: u32 = 150;

/// Progress once the injector reported success.
pub const PROGRESS_INJECTED: u32 = 500;

/// How long the stabilization wait lasts, in milliseconds.
pub const STABILIZE_TOTAL_MS: u32 = 3000;

/// How often the stabilization wait wakes to advance progress, in
/// milliseconds.
pub const STABILIZE_TICK_MS: u32 = 50;

/// The launcher's terminal errors, one per launch at most.
#[derive(Clone, Debug)]
pub enum LaunchError {
    /// Another automatic launch's marker is present: an active or crashed
    /// prior launch.  Not retried automatically; the user removes the
    /// marker by hand.
    LockConflict,
    /// Injector resolution failed: no override and no existing well-known
    /// location.  Carries the path resolution fell back to — the canonical
    /// default — so the user sees where the tool was expected.
    InjectorNotFound(String),
    /// The injector could not be spawned or awaited, for the reason the OS
    /// gave.
    InjectorSpawnFailed(String),
    /// The injector exited with this non-zero code.
    InjectorNonZeroExit(i32),
}

/// The text of the resolution-failure error, naming the path resolution
/// fell back to.
pub open spec fn spec_not_found_message(path: Seq<char>) -> Seq<char> {
    "Revive Injector not found at "@ + path
}

/// The user-visible text of each terminal error.
pub open spec fn spec_error_message(e: LaunchError) -> Seq<char> {
    match e {
        LaunchError::LockConflict => "Another launch is already active or a previous one crashed; remove the launch lock marker and try again"@,
        LaunchError::InjectorNotFound(path) => spec_not_found_message(path@),
        LaunchError::InjectorSpawnFailed(reason) => "Failed to run Revive Injector: "@ + reason@,
        LaunchError::InjectorNonZeroExit(code) => "Revive Injector failed with exit code: "@
            + spec_decimal_i32(code as int),
    }
}

impl LaunchError {
    /// Renders the error for the presentation surface.
    pub fn message(&self) -> (r: String)
        ensures
            r@ == spec_error_message(*self),
    {
        match self {
            LaunchError::LockConflict => String::from_str(
                "Another launch is already active or a previous one crashed; remove the launch lock marker and try again",
            ),
            LaunchError::InjectorNotFound(path) => {
                let mut s = String::from_str("Revive Injector not found at ");
                s.append(path.as_str());
                s
            },
            LaunchError::InjectorSpawnFailed(reason) => {
                let mut s = String::from_str("Failed to run Revive Injector: ");
                s.append(reason.as_str());
                s
            },
            LaunchError::InjectorNonZeroExit(code) => {
                let mut s = String::from_str("Revive Injector failed with exit code: ");
                append_decimal_i32(&mut s, *code);
                s
            },
        }
    }
}

/// An invocation with fewer than one argument beyond the program's own name
/// carries no target: a manual run, which only shows status and controls
/// and never acquires the guard or runs the pipeline.
pub fn invocation_is_manual(arg_count: usize) -> (r: bool)
    ensures
        r == (arg_count < 2),
{
    arg_count < 2
}

/// Where the pipeline of one automatic launch stands.
#[derive(PartialEq, Eq, Structural, Clone, Copy, Debug)]
pub enum LaunchPhase {
    /// Nothing has happened yet.
    Ready,
    /// The guard is held; the injector is being resolved.
    Resolving,
    /// The bypass is being put in effect.
    Bypassing,
    /// The injector runs.
    Injecting,
    /// The injector succeeded; the stabilization wait runs.
    Stabilizing,
    /// Normal completion.
    Completed,
    /// The single terminal error is recorded.
    Failed,
}

/// The orchestrator: phase, shared launch record, and this instance's side
/// of the reentrancy guard.
pub struct Orchestrator {
    pub phase: LaunchPhase,
    pub state: LaunchState,
    pub guard: ReentrancyGuard,
}

impl Orchestrator {
    /// Phase, record and progress agree: the record is well-formed, it is
    /// finished exactly in the completed phase, it carries an error exactly
    /// in the failed phase, and progress stands at each phase's milestone.
    pub open spec fn wf(self) -> bool {
        &&& self.state.wf()
        &&& (self.phase == LaunchPhase::Completed <==> self.state.finished)
        &&& (self.phase == LaunchPhase::Failed <==> self.state.error is Some)
        &&& (self.phase == LaunchPhase::Ready ==> self.state.progress == 0
            && !self.guard.owns_marker)
        &&& (self.phase == LaunchPhase::Resolving ==> self.state.progress == PROGRESS_ACTIVE)
        &&& (self.phase == LaunchPhase::Bypassing ==> self.state.progress == PROGRESS_ACTIVE)
        &&& (self.phase == LaunchPhase::Injecting ==> self.state.progress
            == PROGRESS_INJECTOR_STARTED)
        &&& (self.phase == LaunchPhase::Stabilizing ==> PROGRESS_INJECTED <= self.state.progress
            <= PROGRESS_FULL)
    }

    /// A fresh orchestrator: ready, empty record, nothing owned.
    pub fn new() -> (o: Orchestrator)
        ensures
            o.wf(),
            o.phase == LaunchPhase::Ready,
            o.state.progress == 0,
            !o.state.finished,
            o.state.error is None,
            !o.guard.owns_marker,
    {
        Orchestrator {
            phase: LaunchPhase::Ready,
            state: LaunchState::new(),
            guard: ReentrancyGuard::new(),
        }
    }

    /// The very first action of an automatic run: guard acquisition.  A
    /// lock conflict is the run's terminal error, recorded before anything
    /// else was touched; a successful lock enters the pipeline and shows
    /// first progress.
    pub fn begin(&mut self, marker: &mut MarkerState) -> (locked: bool)
        requires
            old(self).wf(),
            old(self).phase == LaunchPhase::Ready,
        ensures
            final(self).wf(),
            evolves(old(self).state, final(self).state),
            locked == !old(marker).present,
            final(marker).present,
            locked ==> final(self).phase == LaunchPhase::Resolving
                && final(self).guard.owns_marker && final(self).state.error is None
                && final(self).state.progress == PROGRESS_ACTIVE,
            !locked ==> final(self).phase == LaunchPhase::Failed
                && !final(self).guard.owns_marker
                && (final(self).state.error matches Some(m) && m@ == spec_error_message(
                LaunchError::LockConflict,
            )) && !final(self).state.finished,
    {
        let r = self.guard.acquire(marker);
        if r == AcquireOutcome::Locked {
            self.state.advance_progress(PROGRESS_ACTIVE);
            self.phase = LaunchPhase::Resolving;
            true
        } else {
            self.state.set_error(LaunchError::LockConflict.message());
            self.phase = LaunchPhase::Failed;
            false
        }
    }

    /// Resolution succeeded: move on to the bypass.
    pub fn note_resolved(&mut self)
        requires
            old(self).wf(),
            old(self).phase == LaunchPhase::Resolving,
        ensures
            final(self).wf(),
            evolves(old(self).state, final(self).state),
            final(self).phase == LaunchPhase::Bypassing,
            final(self).state == old(self).state,
            final(self).guard == old(self).guard,
    {
        self.phase = LaunchPhase::Bypassing;
    }

    /// Resolution failed: the run's terminal error, naming the path
    /// resolution fell back to, with hook and lock state untouched beyond
    /// the held guard, which cleanup still releases.
    pub fn fail_resolution(&mut self, fallback_path: &str)
        requires
            old(self).wf(),
            old(self).phase == LaunchPhase::Resolving,
        ensures
            final(self).wf(),
            evolves(old(self).state, final(self).state),
            final(self).phase == LaunchPhase::Failed,
            final(self).state.error matches Some(m) && m@ == spec_not_found_message(
                fallback_path@,
            ),
            !final(self).state.finished,
            final(self).guard == old(self).guard,
    {
        self.state.set_error(
            LaunchError::InjectorNotFound(String::from_str(fallback_path)).message(),
        );
        self.phase = LaunchPhase::Failed;
    }

    /// The bypass is in effect — or its bounded wait timed out, which is a
    /// logged warning and not an error, a stale hook being the lesser
    /// failure.  Either way the injector starts next.
    pub fn note_bypass_complete(&mut self)
        requires
            old(self).wf(),
            old(self).phase == LaunchPhase::Bypassing,
        ensures
            final(self).wf(),
            evolves(old(self).state, final(self).state),
            final(self).phase == LaunchPhase::Injecting,
            final(self).state.error is None,
            final(self).state.progress == PROGRESS_INJECTOR_STARTED,
            final(self).guard == old(self).guard,
    {
        self.state.advance_progress(PROGRESS_INJECTOR_STARTED);
        self.phase = LaunchPhase::Injecting;
    }

    /// Classifies the injector's outcome.  Success enters the stabilization
    /// wait; both failure shapes are terminal for the launch but leave the
    /// system consistent and re-launchable.
    pub fn note_injection(&mut self, outcome: &InjectionOutcome)
        requires
            old(self).wf(),
            old(self).phase == LaunchPhase::Injecting,
        ensures
            final(self).wf(),
            evolves(old(self).state, final(self).state),
            final(self).guard == old(self).guard,
            outcome is Success ==> final(self).phase == LaunchPhase::Stabilizing
                && final(self).state.error is None
                && final(self).state.progress == PROGRESS_INJECTED,
            (*outcome matches InjectionOutcome::NonZeroExit(c) ==> final(self).phase
                == LaunchPhase::Failed && (final(self).state.error matches Some(m) && m@
                == spec_error_message(LaunchError::InjectorNonZeroExit(c)))),
            (*outcome matches InjectionOutcome::SpawnFailed(reason) ==> final(self).phase
                == LaunchPhase::Failed && (final(self).state.error matches Some(m) && m@
                == spec_error_message(LaunchError::InjectorSpawnFailed(reason)))),
            !final(self).state.finished,
    {
        match outcome {
            InjectionOutcome::Success => {
                self.state.advance_progress(PROGRESS_INJECTED);
                self.phase = LaunchPhase::Stabilizing;
            },
            InjectionOutcome::NonZeroExit(code) => {
                self.state.set_error(LaunchError::InjectorNonZeroExit(*code).message());
                self.phase = LaunchPhase::Failed;
            },
            InjectionOutcome::SpawnFailed(reason) => {
                self.state.set_error(LaunchError::InjectorSpawnFailed(reason.clone()).message());
                self.phase = LaunchPhase::Failed;
            },
        }
    }

    /// One wake of the stabilization wait: progress follows the elapsed
    /// share of the wait, and never moves backwards.
    pub fn stabilize_tick(&mut self, elapsed_ms: u32)
        requires
            old(self).wf(),
            old(self).phase == LaunchPhase::Stabilizing,
        ensures
            final(self).wf(),
            evolves(old(self).state, final(self).state),
            final(self).phase == LaunchPhase::Stabilizing,
            final(self).state.error is None,
            final(self).state.progress == (if spec_stabilize_progress(elapsed_ms) >= old(
                self,
            ).state.progress {
                spec_stabilize_progress(elapsed_ms)
            } else {
                old(self).state.progress
            }),
            final(self).guard == old(self).guard,
    {
        let capped: u32 = if elapsed_ms > STABILIZE_TOTAL_MS {
            STABILIZE_TOTAL_MS
        } else {
            elapsed_ms
        };
        proof {
            assert(capped <= 3000);
            assert((capped as int) * ((PROGRESS_FULL - PROGRESS_INJECTED) as int) <= 1500000)
                by (nonlinear_arith)
                requires
                    capped <= 3000,
            ;
            lemma_stabilize_progress_bounds(elapsed_ms);
        }
        let p = PROGRESS_INJECTED + capped * (PROGRESS_FULL - PROGRESS_INJECTED)
            / STABILIZE_TOTAL_MS;
        if p >= self.state.progress {
            self.state.advance_progress(p);
        }
    }

    /// The stabilization wait is over: progress completes the whole, then
    /// the completion flag is set — in that order, so no reader ever sees a
    /// finished record short of full progress.
    pub fn complete(&mut self)
        requires
            old(self).wf(),
            old(self).phase == LaunchPhase::Stabilizing,
        ensures
            final(self).wf(),
            evolves(old(self).state, final(self).state),
            final(self).phase == LaunchPhase::Completed,
            final(self).state.finished,
            final(self).state.progress == PROGRESS_FULL,
            final(self).state.error is None,
            final(self).guard == old(self).guard,
    {
        self.state.advance_progress(PROGRESS_FULL);
        self.state.mark_finished();
        self.phase = LaunchPhase::Completed;
    }

    /// Unconditional cleanup, run on every exit path: the marker disappears
    /// exactly when this instance created it, and a foreign marker is left
    /// alone.
    pub fn release(&mut self, marker: &mut MarkerState)
        requires
            old(self).wf(),
        ensures
            final(self).wf(),
            release_step(old(self).guard, *old(marker), final(self).guard, *final(marker)),
            final(self).state == old(self).state,
            final(self).phase == old(self).phase,
    {
        self.guard.release(marker);
    }
}

/// The stabilization progress for an elapsed time: the injected milestone
/// plus the elapsed share of the remainder, the whole once the wait's span
/// has passed.
pub open spec fn spec_stabilize_progress(elapsed_ms: u32) -> u32 {
    if elapsed_ms >= STABILIZE_TOTAL_MS {
        PROGRESS_FULL
    } else {
        (PROGRESS_INJECTED + (elapsed_ms as int) * ((PROGRESS_FULL - PROGRESS_INJECTED) as int)
            / (STABILIZE_TOTAL_MS as int)) as u32
    }
}

/// The stabilization progress stays between the injected milestone and the
/// whole.
pub proof fn lemma_stabilize_progress_bounds(elapsed_ms: u32)
    ensures
        PROGRESS_INJECTED <= spec_stabilize_progress(elapsed_ms) <= PROGRESS_FULL,
        elapsed_ms >= STABILIZE_TOTAL_MS ==> spec_stabilize_progress(elapsed_ms) == PROGRESS_FULL,
{
    if elapsed_ms < STABILIZE_TOTAL_MS {
        assert(elapsed_ms * 500 <= 3000 * 500) by (nonlinear_arith)
            requires
                elapsed_ms <= 3000,
        ;
        assert(elapsed_ms * 500 / 3000 <= 500);
    }
}

/// Everything one model run of the pipeline produced.
pub struct LaunchReport {
    /// The locator's parse of the hook-supplied arguments.
    pub parsed: ParsedLaunch,
    /// The resolved injector location, when resolution succeeded.
    pub injector: Option<InjectorLocation>,
    /// Whether the pipeline got as far as running the injector.
    pub injector_invoked: bool,
    /// The shared record as the worker left it.
    pub state: LaunchState,
}

/// One automatic launch, composed in pipeline order over the model of the
/// world the host observed: guard, locator, resolver, bypass wait,
/// injection, stabilization, cleanup.  The host performs each real action
/// between the steps; `service_running_polls` are its successive
/// observations of the helper service's status, and `injection` is the
/// outcome the spawn-and-wait reported.
///
/// The contract pins the whole run down: a present marker yields the lock
/// conflict error with nothing else touched; the hook registration is never
/// written by the launcher; the guard's marker is gone afterwards exactly
/// when this run created it; and the terminal record follows resolution and
/// the injection outcome.
pub fn run_automatic_launch(
    args: &Vec<String>,
    override_path: Option<String>,
    candidates: &Vec<String>,
    exists: &Vec<bool>,
    service_running_polls: &Vec<bool>,
    injection: &InjectionOutcome,
    marker: &mut MarkerState,
    hook: &mut HookState,
) -> (report: LaunchReport)
    requires
        candidates.len() == exists.len(),
        candidates.len() > 0,
    ensures
        report.state.wf(),
        report.parsed.target_path@ == spec_target_path(args.deep_view()),
        report.parsed.pass_through_args.deep_view() == spec_pass_through(args.deep_view()),
        final(hook).present == old(hook).present,
        old(marker).present ==> (report.state.error matches Some(m) && m@ == spec_error_message(
            LaunchError::LockConflict,
        )) && !report.injector_invoked && report.injector is None && final(marker).present
            && !report.state.finished,
        !old(marker).present ==> !final(marker).present,
        !old(marker).present ==> match override_path {
            Some(p) => (report.injector matches Some(loc) && loc.path == p && loc.source
                == InjectorSource::Override) && report.injector_invoked,
            None => match first_existing(exists@) {
                Some(i) => (report.injector matches Some(loc) && loc.path@
                    == candidates.deep_view()[i] && loc.source == InjectorSource::WellKnown(
                    i as usize,
                )) && report.injector_invoked,
                None => report.injector is None && !report.injector_invoked && (
                report.state.error matches Some(m) && m@ == spec_not_found_message(
                    candidates.deep_view()[0],
                )) && !report.state.finished,
            },
        },
        !old(marker).present && report.injector_invoked ==> match *injection {
            InjectionOutcome::Success => report.state.finished && report.state.progress
                == PROGRESS_FULL && report.state.error is None,
            InjectionOutcome::NonZeroExit(c) => (report.state.error matches Some(m) && m@
                == spec_error_message(LaunchError::InjectorNonZeroExit(c)))
                && !report.state.finished,
            InjectionOutcome::SpawnFailed(reason) => (report.state.error matches Some(m) && m@
                == spec_error_message(LaunchError::InjectorSpawnFailed(reason)))
                && !report.state.finished,
        },
{
    let mut orch = Orchestrator::new();
    let parsed = parse_invocation(args);

    // Guard acquisition is the very first action of an automatic run.
    let locked = orch.begin(marker);
    if !locked {
        orch.release(marker);
        return LaunchReport {
            parsed,
            injector: None,
            injector_invoked: false,
            state: orch.state,
        };
    }

    // Resolve the injector.
    let resolved = resolve_injector(override_path, candidates, exists);
    let loc = match resolved {
        None => {
            // Resolution fell back through every location; the error names
            // the canonical default, where the tool was expected first.
            orch.fail_resolution(candidates[0].as_str());
            orch.release(marker);
            return LaunchReport {
                parsed,
                injector: None,
                injector_invoked: false,
                state: orch.state,
            };
        },
        Some(loc) => loc,
    };
    orch.note_resolved();

    // Bounded wait for the bypass to take effect; a timeout only warns and
    // the launch proceeds either way.
    let mut wait = TriggerWait::new();
    let mut i: usize = 0;
    let mut waiting = true;
    while i < service_running_polls.len() && waiting
        invariant
            orch.wf(),
            orch.phase == LaunchPhase::Bypassing,
            i <= service_running_polls.len(),
        decreases service_running_polls.len() - i,
    {
        let d = wait.observe(service_running_polls[i]);
        if d != TriggerWaitDecision::Poll {
            waiting = false;
        }
        i = i + 1;
    }
    orch.note_bypass_complete();

    // The injector ran; classify what the host reported.
    orch.note_injection(injection);
    if let InjectionOutcome::Success = injection {
        let mut elapsed: u32 = 0;
        while elapsed < STABILIZE_TOTAL_MS
            invariant
                orch.wf(),
                orch.phase == LaunchPhase::Stabilizing,
                orch.guard.owns_marker,
            decreases STABILIZE_TOTAL_MS - elapsed,
        {
            elapsed = if elapsed + STABILIZE_TICK_MS > STABILIZE_TOTAL_MS {
                STABILIZE_TOTAL_MS
            } else {
                elapsed + STABILIZE_TICK_MS
            };
            orch.stabilize_tick(elapsed);
        }
        orch.complete();
    }

    // Unconditional cleanup.
    orch.release(marker);
    LaunchReport { parsed, injector: Some(loc), injector_invoked: true, state: orch.state }
}

} // verus!
