//! The bypass helper's lifecycle: a privileged background process that owns
//! the hook's on/off cycle independently of the short-lived launcher.
//!
//! Hosted as an OS service, the helper moves through `StartPending`,
//! `Running` and `Stopped`.  On entering `Running` it deletes the hook
//! registration (absence counts as success), then polls the system process
//! list at a fixed interval until either the target executable appears or an
//! external stop arrives.  The asymmetry on the way out is deliberate: when
//! the target appeared, the hook is restored so the next launch is
//! intercepted again; when an administrator stopped the service, the hook is
//! left absent, because that stop means "leave the bypass off".
//!
//! The machine below carries the decisions; its host performs the matching
//! service-status reports, registry writes and sleeps, and feeds back what
//! it observed.

use vstd::prelude::*;
use crate::ascii::seq_eq_ignore_ascii_case;
use crate::ascii::str_eq_ignore_ascii_case;
use crate::hook::HookState;

verus! {

/// The externally observable service state, as the service manager reports
/// it.
#[derive(PartialEq, Eq, Structural, Clone, Copy, Debug)]
pub enum HelperPhase {
    StartPending,
    Running,
    Stopped,
}

/// What one poll of the process list and the stop flag calls for.
#[derive(PartialEq, Eq, Structural, Clone, Copy, Debug)]
pub enum PollDecision {
    /// Neither the target nor a stop was seen: sleep one interval and poll
    /// again.
    Continue,
    /// The target process appeared: restore the hook, then stop.
    RestoreAndStop,
    /// An external stop arrived first: stop and leave the hook absent.
    StopLeaveOff,
}

/// How long to sleep between polls of the process list, in milliseconds.
pub const HELPER_POLL_INTERVAL_MS: u32 = 500;

/// The decision a poll makes.  A pending stop wins over a sighted target, so
/// an administrator's stop always means "leave the bypass off".
pub open spec fn spec_poll_decision(stop_requested: bool, target_running: bool) -> PollDecision {
    if stop_requested {
        PollDecision::StopLeaveOff
    } else if target_running {
        PollDecision::RestoreAndStop
    } else {
        PollDecision::Continue
    }
}

/// The transition of entering the running phase: the hook registration is
/// deleted, whether or not it existed.
pub open spec fn enter_running_step(
    h0: BypassHelper,
    k0: HookState,
    h1: BypassHelper,
    k1: HookState,
) -> bool {
    &&& h0.phase == HelperPhase::StartPending
    &&& h1.phase == HelperPhase::Running
    &&& !k1.present
}

/// The transition of leaving the running phase on a terminal poll decision:
/// the hook is restored exactly when the target was sighted, and the phase
/// becomes `Stopped` unconditionally.
pub open spec fn finish_step(
    h0: BypassHelper,
    d: PollDecision,
    k0: HookState,
    h1: BypassHelper,
    k1: HookState,
) -> bool {
    &&& h0.phase == HelperPhase::Running
    &&& d != PollDecision::Continue
    &&& h1.phase == HelperPhase::Stopped
    &&& (d == PollDecision::RestoreAndStop ==> k1.present)
    &&& (d == PollDecision::StopLeaveOff ==> k1.present == k0.present)
}

/// The helper's state machine.
pub struct BypassHelper {
    pub phase: HelperPhase,
}

impl BypassHelper {
    /// A freshly dispatched service is start-pending.
    pub fn new() -> (h: BypassHelper)
        ensures
            h.phase == HelperPhase::StartPending,
    {
        BypassHelper { phase: HelperPhase::StartPending }
    }

    /// Enters the running phase, deleting the hook registration.  Deletion
    /// is idempotent: an absent hook already counts as deleted.
    pub fn enter_running(&mut self, hook: &mut HookState)
        requires
            old(self).phase == HelperPhase::StartPending,
        ensures
            enter_running_step(*old(self), *old(hook), *final(self), *final(hook)),
    {
        hook.present = false;
        self.phase = HelperPhase::Running;
    }

    /// Decides what one poll observation calls for while running.
    pub fn poll(&self, stop_requested: bool, target_running: bool) -> (d: PollDecision)
        requires
            self.phase == HelperPhase::Running,
        ensures
            d == spec_poll_decision(stop_requested, target_running),
    {
        if stop_requested {
            PollDecision::StopLeaveOff
        } else if target_running {
            PollDecision::RestoreAndStop
        } else {
            PollDecision::Continue
        }
    }

    /// Leaves the running phase on a terminal poll decision.  When the
    /// target was sighted the hook registration is re-created with the
    /// launcher's path as its value; after an external stop it is left as
    /// the running phase had it: absent.  The phase becomes `Stopped`
    /// regardless of the restore's outcome.
    pub fn finish(&mut self, d: PollDecision, hook: &mut HookState)
        requires
            old(self).phase == HelperPhase::Running,
            d != PollDecision::Continue,
        ensures
            finish_step(*old(self), d, *old(hook), *final(self), *final(hook)),
    {
        if d == PollDecision::RestoreAndStop {
            hook.present = true;
        }
        self.phase = HelperPhase::Stopped;
    }
}

/// Once the helper has run and stopped, the hook registration is present
/// exactly when the target process was sighted first: an external stop that
/// arrived before the target leaves the hook absent, a sighted target leaves
/// it restored.  Polls that decide `Continue` touch nothing, so the two
/// transitions alone settle the outcome.
pub proof fn lemma_helper_hook_outcome(
    h0: BypassHelper,
    k0: HookState,
    h1: BypassHelper,
    k1: HookState,
    stop_requested: bool,
    target_running: bool,
    h2: BypassHelper,
    k2: HookState,
)
    requires
        h0.phase == HelperPhase::StartPending,
        enter_running_step(h0, k0, h1, k1),
        stop_requested || target_running,
        finish_step(
            h1,
            spec_poll_decision(stop_requested, target_running),
            k1,
            h2,
            k2,
        ),
    ensures
        h2.phase == HelperPhase::Stopped,
        stop_requested ==> !k2.present,
        !stop_requested && target_running ==> k2.present,
{
}

/// Whether the target executable appears in a snapshot of the system
/// process list, by exact, ASCII-case-insensitive name match.  The host
/// takes the snapshot; the match is decided here.
pub fn process_list_contains(names: &Vec<String>, target: &str) -> (r: bool)
    ensures
        r == exists|i: int|
            0 <= i < names.deep_view().len() && seq_eq_ignore_ascii_case(
                names.deep_view()[i],
                target@,
            ),
{
    let mut i: usize = 0;
    while i < names.len()
        invariant
            i <= names.len(),
            forall|j: int|
                0 <= j < i ==> !seq_eq_ignore_ascii_case(names.deep_view()[j], target@),
        decreases names.len() - i,
    {
        assert(names.deep_view()[i as int] == names@[i as int]@);
        if str_eq_ignore_ascii_case(names[i].as_str(), target) {
            return true;
        }
        i = i + 1;
    }
    false
}

} // verus!
