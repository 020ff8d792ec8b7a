use condor_revive::guard::AcquireOutcome;
use condor_revive::guard::MarkerState;
use condor_revive::guard::ReentrancyGuard;

#[test]
fn acquire_twice_locks_then_blocks_then_locks_after_release() {
    let mut marker = MarkerState { present: false };
    let mut guard = ReentrancyGuard::new();

    assert_eq!(guard.acquire(&mut marker), AcquireOutcome::Locked);
    assert!(marker.present);

    assert_eq!(guard.acquire(&mut marker), AcquireOutcome::Blocked);
    assert!(marker.present);

    guard.release(&mut marker);
    assert!(!marker.present);

    assert_eq!(guard.acquire(&mut marker), AcquireOutcome::Locked);
    assert!(marker.present);
}

#[test]
fn acquire_blocks_on_foreign_marker_and_release_leaves_it() {
    // A marker left by a crashed or concurrent launch blocks, and a release
    // by a non-owner must not remove it.
    let mut marker = MarkerState { present: true };
    let mut guard = ReentrancyGuard::new();

    assert_eq!(guard.acquire(&mut marker), AcquireOutcome::Blocked);
    assert!(marker.present);

    guard.release(&mut marker);
    assert!(marker.present);
}

#[test]
fn release_removes_only_the_owned_marker() {
    let mut marker = MarkerState { present: false };
    let mut guard = ReentrancyGuard::new();
    assert_eq!(guard.acquire(&mut marker), AcquireOutcome::Locked);
    guard.release(&mut marker);
    assert!(!marker.present);

    // A second release is harmless.
    guard.release(&mut marker);
    assert!(!marker.present);
}
