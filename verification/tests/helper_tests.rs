use condor_revive::helper::process_list_contains;
use condor_revive::helper::BypassHelper;
use condor_revive::helper::HelperPhase;
use condor_revive::helper::PollDecision;
use condor_revive::hook::HookState;

#[test]
fn stop_before_target_leaves_hook_absent() {
    let mut hook = HookState { present: true };
    let mut helper = BypassHelper::new();
    assert_eq!(helper.phase, HelperPhase::StartPending);

    helper.enter_running(&mut hook);
    assert_eq!(helper.phase, HelperPhase::Running);
    assert!(!hook.present);

    // A few uneventful polls change nothing.
    assert_eq!(helper.poll(false, false), PollDecision::Continue);
    assert_eq!(helper.poll(false, false), PollDecision::Continue);
    assert!(!hook.present);

    // The external stop arrives before the target is observed.
    let d = helper.poll(true, false);
    assert_eq!(d, PollDecision::StopLeaveOff);
    helper.finish(d, &mut hook);

    assert_eq!(helper.phase, HelperPhase::Stopped);
    assert!(!hook.present);
}

#[test]
fn target_observed_first_restores_hook() {
    let mut hook = HookState { present: true };
    let mut helper = BypassHelper::new();

    helper.enter_running(&mut hook);
    assert!(!hook.present);

    assert_eq!(helper.poll(false, false), PollDecision::Continue);

    // The target process appears before any stop.
    let d = helper.poll(false, true);
    assert_eq!(d, PollDecision::RestoreAndStop);
    helper.finish(d, &mut hook);

    assert_eq!(helper.phase, HelperPhase::Stopped);
    assert!(hook.present);
}

#[test]
fn stop_wins_when_both_arrive_in_one_poll() {
    let mut hook = HookState { present: true };
    let mut helper = BypassHelper::new();
    helper.enter_running(&mut hook);

    let d = helper.poll(true, true);
    assert_eq!(d, PollDecision::StopLeaveOff);
    helper.finish(d, &mut hook);
    assert!(!hook.present);
}

#[test]
fn entering_running_deletes_an_absent_hook_idempotently() {
    let mut hook = HookState { present: false };
    let mut helper = BypassHelper::new();
    helper.enter_running(&mut hook);
    assert!(!hook.present);
    assert_eq!(helper.phase, HelperPhase::Running);
}

#[test]
fn process_match_is_case_insensitive_and_exact() {
    let names = vec![
        "svchost.exe".to_string(),
        "CONDOR.EXE".to_string(),
        "explorer.exe".to_string(),
    ];
    assert!(process_list_contains(&names, "Condor.exe"));
    assert!(process_list_contains(&names, "condor.exe"));
    assert!(!process_list_contains(&names, "Condor"));
    assert!(!process_list_contains(&names, "Condor.exe2"));

    let empty: Vec<String> = Vec::new();
    assert!(!process_list_contains(&empty, "Condor.exe"));
}
