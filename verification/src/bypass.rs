//! Hook bypass strategies: starting the target without re-firing the hook.
//!
//! The hook is global: any start of the target, including the one this
//! launcher itself performs, would re-invoke the launcher.  Exactly one of
//! three interchangeable mechanisms neutralizes the hook for the duration of
//! one launch.  They are mutually exclusive tagged alternatives, selected
//! once at startup, not a dispatch hierarchy: each has its own resource and
//! failure shape.  All three leave the hook registration itself in place for
//! future launches, and every session or handle opened for the bypass is
//! released on every exit path.

use vstd::prelude::*;

verus! {

/// The three admissible mechanisms.
#[derive(PartialEq, Eq, Structural, Clone, Copy, Debug)]
pub enum BypassStrategy {
    /// Run the injector under a debug-mode launch and drain its debug
    /// events until its own exit event arrives.
    DebugPassThrough,
    /// Create the target suspended and debug-attached, detach, inject
    /// out-of-band, then resume.
    SuspendedCreate,
    /// Signal the privileged helper to take the hook down for this launch
    /// and restore it once the target is seen running.
    CooperatingHelper,
}

impl BypassStrategy {
    /// The default mechanism: the cooperating helper, the only one that
    /// needs no debug rights in the launcher itself.
    pub fn default_strategy() -> (s: BypassStrategy)
        ensures
            s == BypassStrategy::CooperatingHelper,
    {
        BypassStrategy::CooperatingHelper
    }
}

// ---------------------------------------------------------------------------
// Cooperating-helper trigger: bounded wait for the helper to take effect.
// ---------------------------------------------------------------------------

/// How long to keep polling the helper service for its running state, in
/// milliseconds.
pub const TRIGGER_TIMEOUT_MS: u32 = 5000;

/// How long each poll of the service status sleeps, in milliseconds.
pub const TRIGGER_POLL_INTERVAL_MS: u32 = 100;

/// The extra grace delay after the helper reports running, in milliseconds,
/// against the race in which the OS re-reads the hook between the helper's
/// deletion and the target's creation.
pub const TRIGGER_GRACE_MS: u32 = 200;

/// What one observation of the helper service's status calls for.
#[derive(PartialEq, Eq, Structural, Clone, Copy, Debug)]
pub enum TriggerWaitDecision {
    /// The helper is not running yet and time remains: sleep one interval
    /// and query again.
    Poll,
    /// The helper reports running: sleep the grace delay, then launch.
    GraceThenProceed,
    /// The bound elapsed without the helper running.  A warning, not an
    /// abort: the launch proceeds, a stale hook being the lesser failure.
    ProceedTimedOut,
}

/// The bounded wait after the helper service was signalled to start.  It
/// counts elapsed polling time and never waits past its bound.
pub struct TriggerWait {
    pub elapsed_ms: u32,
}

impl TriggerWait {
    /// A wait that has not yet slept.
    pub fn new() -> (w: TriggerWait)
        ensures
            w.elapsed_ms == 0,
    {
        TriggerWait { elapsed_ms: 0 }
    }

    /// Decides on one status observation.  The caller sleeps one poll
    /// interval on `Poll`, the grace delay on `GraceThenProceed`, and
    /// nothing on `ProceedTimedOut`; on the latter two the pipeline
    /// continues either way.
    pub fn observe(&mut self, service_running: bool) -> (d: TriggerWaitDecision)
        ensures
            d == spec_trigger_decision(old(self).elapsed_ms, service_running),
            d == TriggerWaitDecision::Poll ==> final(self).elapsed_ms == old(self).elapsed_ms
                + TRIGGER_POLL_INTERVAL_MS,
            d != TriggerWaitDecision::Poll ==> final(self).elapsed_ms == old(self).elapsed_ms,
    {
        if service_running {
            TriggerWaitDecision::GraceThenProceed
        } else if self.elapsed_ms >= TRIGGER_TIMEOUT_MS {
            TriggerWaitDecision::ProceedTimedOut
        } else {
            self.elapsed_ms = self.elapsed_ms + TRIGGER_POLL_INTERVAL_MS;
            TriggerWaitDecision::Poll
        }
    }
}

/// The decision for a given elapsed time and observation: a running helper
/// always proceeds after the grace delay; otherwise the wait polls until its
/// bound has elapsed, then proceeds as timed out.
pub open spec fn spec_trigger_decision(elapsed_ms: u32, service_running: bool) -> TriggerWaitDecision {
    if service_running {
        TriggerWaitDecision::GraceThenProceed
    } else if elapsed_ms >= TRIGGER_TIMEOUT_MS {
        TriggerWaitDecision::ProceedTimedOut
    } else {
        TriggerWaitDecision::Poll
    }
}

// ---------------------------------------------------------------------------
// Debug-session pass-through: drain events until the injector's exit.
// ---------------------------------------------------------------------------

/// One debug event, as the OS delivers it to the process that launched the
/// injector in debug mode.
#[derive(PartialEq, Eq, Structural, Clone, Copy, Debug)]
pub enum DebugEvent {
    /// Any event other than a process exit: process or thread creation, a
    /// module load, and so on.  `handles` counts the OS handles its payload
    /// delivered, which must be closed at once, since events keep arriving
    /// indefinitely.
    Incident { pid: u32, handles: u32 },
    /// A process in the debugged tree exited with this code.
    ProcessExit { pid: u32, code: u32 },
}

/// What to do with one delivered event.
#[derive(PartialEq, Eq, Structural, Clone, Copy, Debug)]
pub enum EventDisposition {
    /// Close the payload's handles, acknowledge, and keep draining.
    AcknowledgeAndContinue { handles_to_close: u32 },
    /// The injector's own process exited: its exit code is the outcome
    /// signal.
    Finished { code: u32 },
}

/// The disposition of one event: only the exit of the injector's own
/// process terminates the drain; every other event is acknowledged without
/// interpretation, its incidental handles closed immediately.
pub open spec fn spec_event_disposition(injector_pid: u32, ev: DebugEvent) -> EventDisposition {
    match ev {
        DebugEvent::ProcessExit { pid, code } => if pid == injector_pid {
            EventDisposition::Finished { code }
        } else {
            EventDisposition::AcknowledgeAndContinue { handles_to_close: 0 }
        },
        DebugEvent::Incident { pid, handles } => EventDisposition::AcknowledgeAndContinue {
            handles_to_close: handles,
        },
    }
}

/// Decides what to do with one delivered debug event.
pub fn event_disposition(injector_pid: u32, ev: &DebugEvent) -> (d: EventDisposition)
    ensures
        d == spec_event_disposition(injector_pid, *ev),
{
    match ev {
        DebugEvent::ProcessExit { pid, code } => {
            if *pid == injector_pid {
                EventDisposition::Finished { code: *code }
            } else {
                EventDisposition::AcknowledgeAndContinue { handles_to_close: 0 }
            }
        },
        DebugEvent::Incident { pid: _, handles } => {
            EventDisposition::AcknowledgeAndContinue { handles_to_close: *handles }
        },
    }
}

/// The outcome the drain reads from an event sequence: the code of the
/// first exit event of the injector's own process, none when no such event
/// occurs.
pub open spec fn spec_drain_outcome(injector_pid: u32, events: Seq<DebugEvent>) -> Option<u32>
    decreases events.len(),
{
    if events.len() == 0 {
        None
    } else {
        match spec_event_disposition(injector_pid, events[0]) {
            EventDisposition::Finished { code } => Some(code),
            EventDisposition::AcknowledgeAndContinue { .. } => spec_drain_outcome(
                injector_pid,
                events.drop_first(),
            ),
        }
    }
}

/// Consumes delivered events in order until the injector's own exit event,
/// and returns that event's code.  The real event source is an effectively
/// unbounded stream consumed exactly once per launch; this drains whatever
/// prefix of it the host has collected, and reports `None` when the
/// terminating event has not arrived in it.
pub fn drain_events(injector_pid: u32, events: &Vec<DebugEvent>) -> (r: Option<u32>)
    ensures
        r == spec_drain_outcome(injector_pid, events@),
{
    let mut i: usize = 0;
    proof {
        assert(events@.skip(0) =~= events@);
    }
    while i < events.len()
        invariant
            i <= events.len(),
            spec_drain_outcome(injector_pid, events@) == spec_drain_outcome(
                injector_pid,
                events@.skip(i as int),
            ),
        decreases events.len() - i,
    {
        let d = event_disposition(injector_pid, &events[i]);
        proof {
            assert(events@.skip(i as int)[0] == events@[i as int]);
            assert(events@.skip(i as int).drop_first() =~= events@.skip(i + 1));
        }
        if let EventDisposition::Finished { code } = d {
            return Some(code);
        }
        i = i + 1;
    }
    proof {
        assert(events@.skip(events@.len() as int).len() == 0);
    }
    None
}

// ---------------------------------------------------------------------------
// Suspended-create-and-detach: an ordering protocol, no event loop.
// ---------------------------------------------------------------------------

/// Where a suspended-create launch stands.
#[derive(PartialEq, Eq, Structural, Clone, Copy, Debug)]
pub enum SuspendedLaunchPhase {
    /// The target exists, suspended and debug-attached, so the hook did not
    /// re-fire on it.
    CreatedSuspended,
    /// The debug session is detached; the target is still suspended.
    Detached,
    /// The injector has run against the undebugged, suspended process.
    Injected,
    /// The primary thread runs; the launch is out of this strategy's hands.
    Resumed,
}

/// The suspended-create protocol: the contracts order the steps so that the
/// injector only ever runs against a detached, still-suspended process, and
/// the target only resumes after the injection.  The host performs the OS
/// calls each step stands for.
pub struct SuspendedLaunch {
    pub phase: SuspendedLaunchPhase,
    /// The created process's id, which the injector is pointed at.
    pub pid: u32,
}

impl SuspendedLaunch {
    /// The target was created suspended in a debug-attached state.  Because
    /// the creation is debug-attached, the hook does not re-fire on it, and
    /// the hook registration itself is untouched.
    pub fn created(pid: u32) -> (s: SuspendedLaunch)
        ensures
            s.phase == SuspendedLaunchPhase::CreatedSuspended,
            s.pid == pid,
    {
        SuspendedLaunch { phase: SuspendedLaunchPhase::CreatedSuspended, pid }
    }

    /// Detaches the debug session while keeping the process suspended.
    pub fn detach(&mut self)
        requires
            old(self).phase == SuspendedLaunchPhase::CreatedSuspended,
        ensures
            final(self).phase == SuspendedLaunchPhase::Detached,
            final(self).pid == old(self).pid,
    {
        self.phase = SuspendedLaunchPhase::Detached;
    }

    /// Runs the injector out-of-band against the suspended process id.
    /// Only a detached process may be injected: a still-attached debuggee
    /// would tie the injector to this process's debug session.
    pub fn inject(&mut self)
        requires
            old(self).phase == SuspendedLaunchPhase::Detached,
        ensures
            final(self).phase == SuspendedLaunchPhase::Injected,
            final(self).pid == old(self).pid,
    {
        self.phase = SuspendedLaunchPhase::Injected;
    }

    /// Resumes the primary thread.  Only an injected process may resume, so
    /// the target never runs uninjected.
    pub fn resume(&mut self)
        requires
            old(self).phase == SuspendedLaunchPhase::Injected,
        ensures
            final(self).phase == SuspendedLaunchPhase::Resumed,
            final(self).pid == old(self).pid,
    {
        self.phase = SuspendedLaunchPhase::Resumed;
    }
}
} // verus!
