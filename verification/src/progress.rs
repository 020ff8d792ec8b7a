//! The shared launch record: progress, completion, and the terminal error.
//!
//! One record per launcher run, written only by the worker that drives the
//! pipeline and read concurrently by the presentation loop.  Progress is kept
//! in thousandths of the whole, so the record carries exact integers; the
//! presentation surface divides by [`PROGRESS_FULL`] for display.  The record
//! only ever moves forward: progress never decreases, a set completion flag
//! or error never reverts.  A reader that wakes at an arbitrary point
//! therefore observes some intermediate state of a single forward evolution.

use vstd::prelude::*;

verus! {

/// Progress is measured in thousandths: this value is the completed whole.
pub const PROGRESS_FULL: u32 = 1000;

/// The record the worker writes and the presentation loop polls.
pub struct LaunchState {
    /// How far the launch has come, in thousandths of the whole.
    pub progress: u32,
    /// Set exactly once, on normal completion, after progress reached the
    /// whole.
    pub finished: bool,
    /// The single terminal error of the run, if any.
    pub error: Option<String>,
}

impl LaunchState {
    /// Progress never exceeds the whole, and completion is only reached with
    /// full progress and no error.
    pub open spec fn wf(self) -> bool {
        &&& self.progress <= PROGRESS_FULL
        &&& (self.finished ==> self.progress == PROGRESS_FULL && self.error is None)
    }

    /// A run starts with no progress, unfinished and error-free.
    pub fn new() -> (s: LaunchState)
        ensures
            s.wf(),
            s.progress == 0,
            !s.finished,
            s.error is None,
    {
        LaunchState { progress: 0, finished: false, error: None }
    }

    /// Moves progress forward to `p`.  The worker only ever advances, so the
    /// record stays monotone.
    pub fn advance_progress(&mut self, p: u32)
        requires
            old(self).wf(),
            !old(self).finished,
            old(self).progress <= p <= PROGRESS_FULL,
        ensures
            final(self).wf(),
            evolves(*old(self), *final(self)),
            final(self).progress == p,
            final(self).finished == old(self).finished,
            final(self).error == old(self).error,
    {
        self.progress = p;
    }

    /// Records the run's single terminal error.  Progress stays where it
    /// was, and the run never reaches the finished state afterwards.
    pub fn set_error(&mut self, msg: String)
        requires
            old(self).wf(),
            !old(self).finished,
            old(self).error is None,
        ensures
            final(self).wf(),
            evolves(*old(self), *final(self)),
            final(self).error == Some(msg),
            final(self).progress == old(self).progress,
            !final(self).finished,
    {
        self.error = Some(msg);
    }

    /// Marks normal completion.  Full progress must already have been
    /// reached, so every reader that sees the completion flag also sees the
    /// completed whole.
    pub fn mark_finished(&mut self)
        requires
            old(self).wf(),
            old(self).progress == PROGRESS_FULL,
            old(self).error is None,
        ensures
            final(self).wf(),
            evolves(*old(self), *final(self)),
            final(self).finished,
            final(self).progress == PROGRESS_FULL,
            final(self).error is None,
    {
        self.finished = true;
    }

    /// Whether the presentation loop should request application shutdown on
    /// its own: only an automatic run that completed without error closes
    /// itself, so a terminal error stays readable and a manual run stays
    /// open for its controls.
    pub fn requests_shutdown(&self, is_manual: bool) -> (r: bool)
        ensures
            r == (!is_manual && self.finished && self.error is None),
    {
        !is_manual && self.finished && self.error.is_none()
    }
}

/// The forward evolution of the record: progress does not decrease, a set
/// completion flag stays set, a set error stays exactly what it was.  Every
/// write the worker can make evolves the record in this sense.
pub open spec fn evolves(a: LaunchState, b: LaunchState) -> bool {
    &&& a.progress <= b.progress
    &&& (a.finished ==> b.finished)
    &&& (a.error is Some ==> b.error == a.error)
}

/// Evolution is reflexive and composes: across any sequence of worker
/// writes, progress is non-decreasing and completion and error never
/// revert.
pub proof fn lemma_evolves_transitive(a: LaunchState, b: LaunchState, c: LaunchState)
    ensures
        evolves(a, a),
        evolves(a, b) && evolves(b, c) ==> evolves(a, c),
{
}

/// Across any run — a chain of records in which each write evolves the one
/// before it — progress is non-decreasing between any two points in time,
/// a set completion flag stays set, and a set error stays what it was.  A
/// reader that wakes at two arbitrary points therefore never observes
/// progress moving backwards nor a completion or error reverting.
pub proof fn lemma_evolution_chain(states: Seq<LaunchState>)
    requires
        forall|k: int| 0 <= k < states.len() - 1 ==> evolves(#[trigger] states[k], states[k + 1]),
    ensures
        forall|i: int, j: int|
            0 <= i <= j < states.len() ==> evolves(#[trigger] states[i], #[trigger] states[j]),
    decreases states.len(),
{
    if states.len() > 1 {
        let front = states.drop_last();
        assert(forall|k: int|
            0 <= k < front.len() - 1 ==> evolves(#[trigger] front[k], front[k + 1]));
        lemma_evolution_chain(front);
        let last = states.len() - 1;
        assert forall|i: int, j: int|
            0 <= i <= j < states.len() implies evolves(#[trigger] states[i], #[trigger] states[j]) by {
            if j == last {
                if i < last {
                    assert(front[i] == states[i]);
                    assert(front[last - 1] == states[last - 1]);
                    assert(evolves(front[i], front[last - 1]));
                    assert(evolves(states[last - 1], states[last]));
                }
            } else {
                assert(front[i] == states[i]);
                assert(front[j] == states[j]);
                assert(evolves(front[i], front[j]));
            }
        }
    }
}

} // verus!
