//! Reentrancy guard: a named marker that serializes automatic launches.
//!
//! The marker is a zero-length file at a fixed path whose mere existence
//! means "a launch is already active or a previous one crashed".  The guard
//! works against [`MarkerState`], the model of that externally owned
//! existence bit; the process that drives a launch mirrors every transition
//! onto the filesystem (create the file when `acquire` locks, delete it when
//! `release` removes it).  A blocked acquisition is not retried: it is
//! surfaced to the user, who removes the marker by hand, so that a true
//! relaunch loop is never masked.

use vstd::prelude::*;

verus! {

/// Model of the externally owned marker: whether it exists right now.
/// Another process or a crash can change the real marker at any time, so it
/// is re-read before each automatic launch, never cached across runs.
pub struct MarkerState {
    pub present: bool,
}

/// What one `acquire` attempt found.
#[derive(PartialEq, Eq, Structural, Clone, Copy, Debug)]
pub enum AcquireOutcome {
    /// No marker existed; one was created and this instance owns it.
    Locked,
    /// A marker already existed: an active or crashed prior launch.
    Blocked,
}

/// One launcher instance's side of the guard.  It records whether this
/// instance created the marker, because only the creator may remove it.
pub struct ReentrancyGuard {
    pub owns_marker: bool,
}

impl ReentrancyGuard {
    /// A fresh instance owns nothing.
    pub fn new() -> (g: ReentrancyGuard)
        ensures
            !g.owns_marker,
    {
        ReentrancyGuard { owns_marker: false }
    }

    /// Acquires the guard: locks by creating the marker when none exists,
    /// reports `Blocked` and changes nothing when one does.
    pub fn acquire(&mut self, marker: &mut MarkerState) -> (r: AcquireOutcome)
        ensures
            acquire_step(*old(self), *old(marker), *final(self), *final(marker), r),
    {
        if marker.present {
            AcquireOutcome::Blocked
        } else {
            marker.present = true;
            self.owns_marker = true;
            AcquireOutcome::Locked
        }
    }

    /// Releases the guard.  The marker is removed only by the instance that
    /// created it; a release without ownership leaves a foreign marker in
    /// place.  Release is unconditional on every exit path of an automatic
    /// launch, so a failed launch never leaves its own marker behind.
    pub fn release(&mut self, marker: &mut MarkerState)
        ensures
            release_step(*old(self), *old(marker), *final(self), *final(marker)),
    {
        if self.owns_marker {
            marker.present = false;
            self.owns_marker = false;
        }
    }
}

/// The transition one `acquire` call makes, as a relation between the values
/// before and after it: `Locked` exactly when no marker existed, a marker
/// exists afterwards either way, and ownership is gained exactly by locking.
pub open spec fn acquire_step(
    g0: ReentrancyGuard,
    m0: MarkerState,
    g1: ReentrancyGuard,
    m1: MarkerState,
    r: AcquireOutcome,
) -> bool {
    &&& (r == AcquireOutcome::Locked <==> !m0.present)
    &&& (r == AcquireOutcome::Blocked <==> m0.present)
    &&& m1.present
    &&& g1.owns_marker == (g0.owns_marker || r == AcquireOutcome::Locked)
}

/// The transition one `release` call makes: ownership is given up, and the
/// marker disappears exactly when the releasing instance owned it.
pub open spec fn release_step(
    g0: ReentrancyGuard,
    m0: MarkerState,
    g1: ReentrancyGuard,
    m1: MarkerState,
) -> bool {
    &&& !g1.owns_marker
    &&& (g0.owns_marker ==> !m1.present)
    &&& (!g0.owns_marker ==> m1.present == m0.present)
}

/// Acquiring twice in sequence without an intervening release locks and then
/// blocks; after a release by the owner, a further acquisition locks again.
pub proof fn lemma_guard_reentrancy(
    g0: ReentrancyGuard,
    m0: MarkerState,
    g1: ReentrancyGuard,
    m1: MarkerState,
    r1: AcquireOutcome,
    g2: ReentrancyGuard,
    m2: MarkerState,
    r2: AcquireOutcome,
    g3: ReentrancyGuard,
    m3: MarkerState,
    g4: ReentrancyGuard,
    m4: MarkerState,
    r4: AcquireOutcome,
)
    requires
        !g0.owns_marker,
        !m0.present,
        acquire_step(g0, m0, g1, m1, r1),
        acquire_step(g1, m1, g2, m2, r2),
        release_step(g2, m2, g3, m3),
        acquire_step(g3, m3, g4, m4, r4),
    ensures
        r1 == AcquireOutcome::Locked,
        r2 == AcquireOutcome::Blocked,
        r4 == AcquireOutcome::Locked,
{
}

} // verus!
