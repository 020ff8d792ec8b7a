use condor_revive::guard::MarkerState;
use condor_revive::hook::HookState;
use condor_revive::orchestrator::invocation_is_manual;
use condor_revive::orchestrator::run_automatic_launch;
use condor_revive::orchestrator::Orchestrator;
use condor_revive::orchestrator::LaunchError;
use condor_revive::progress::PROGRESS_FULL;
use condor_revive::resolver::well_known_injector_paths;
use condor_revive::resolver::InjectorSource;
use condor_revive::runner::classify_exit_code;
use condor_revive::runner::InjectionOutcome;

fn args(tokens: &[&str]) -> Vec<String> {
    tokens.iter().map(|t| t.to_string()).collect()
}

#[test]
fn manual_mode_is_fewer_than_two_arguments() {
    // The program's own name is the only argument: no target, manual run.
    assert!(invocation_is_manual(0));
    assert!(invocation_is_manual(1));
    assert!(!invocation_is_manual(2));
    assert!(!invocation_is_manual(5));
}

#[test]
fn successful_launch_finishes_clean_and_releases_the_marker() {
    let mut marker = MarkerState { present: false };
    let mut hook = HookState { present: true };
    let candidates = well_known_injector_paths();
    let report = run_automatic_launch(
        &args(&["C:\\Sim\\Condor.exe", "-server", "demo"]),
        None,
        &candidates,
        &vec![true, true, true],
        &vec![false, false, true],
        &InjectionOutcome::Success,
        &mut marker,
        &mut hook,
    );

    assert_eq!(report.parsed.target_path, "C:\\Sim\\Condor.exe");
    assert_eq!(
        report.parsed.pass_through_args,
        vec!["-server".to_string(), "demo".to_string()]
    );
    let loc = report.injector.expect("must resolve");
    assert_eq!(loc.source, InjectorSource::WellKnown(0));
    assert!(report.injector_invoked);
    assert!(report.state.finished);
    assert_eq!(report.state.progress, PROGRESS_FULL);
    assert!(report.state.error.is_none());
    assert!(!marker.present, "the lock marker must be released");
    assert!(hook.present, "the launcher itself never writes the hook");
}

#[test]
fn spaced_path_launch_parses_the_whole_path() {
    let mut marker = MarkerState { present: false };
    let mut hook = HookState { present: true };
    let candidates = well_known_injector_paths();
    let report = run_automatic_launch(
        &args(&["C:\\Program", "Files\\Sim\\Condor.exe"]),
        None,
        &candidates,
        &vec![true, false, false],
        &vec![true],
        &InjectionOutcome::Success,
        &mut marker,
        &mut hook,
    );

    assert_eq!(report.parsed.target_path, "C:\\Program Files\\Sim\\Condor.exe");
    assert!(report.parsed.pass_through_args.is_empty());
    assert!(report.state.finished);
    assert!(!marker.present);
}

#[test]
fn locked_guard_yields_lock_conflict_and_touches_nothing() {
    let mut marker = MarkerState { present: true };
    let mut hook = HookState { present: true };
    let candidates = well_known_injector_paths();
    let report = run_automatic_launch(
        &args(&["C:\\Sim\\Condor.exe"]),
        None,
        &candidates,
        &vec![true, true, true],
        &vec![true],
        &InjectionOutcome::Success,
        &mut marker,
        &mut hook,
    );

    assert_eq!(
        report.state.error.as_deref(),
        Some(LaunchError::LockConflict.message().as_str())
    );
    assert!(!report.injector_invoked, "the injector must not be invoked");
    assert!(report.injector.is_none());
    assert!(!report.state.finished);
    assert!(hook.present, "the hook registration must be untouched");
    assert!(marker.present, "a foreign marker must be left in place");
}

#[test]
fn missing_injector_is_a_terminal_error_with_clean_state() {
    let mut marker = MarkerState { present: false };
    let mut hook = HookState { present: true };
    let candidates = well_known_injector_paths();
    let report = run_automatic_launch(
        &args(&["C:\\Sim\\Condor.exe"]),
        None,
        &candidates,
        &vec![false, false, false],
        &vec![true],
        &InjectionOutcome::Success,
        &mut marker,
        &mut hook,
    );

    assert_eq!(
        report.state.error.as_deref(),
        Some("Revive Injector not found at C:\\Program Files\\Revive\\Revive\\ReviveInjector.exe")
    );
    assert!(report.injector.is_none());
    assert!(!report.injector_invoked);
    assert!(!report.state.finished);
    assert!(!marker.present, "cleanup must still release the marker");
    assert!(hook.present);
}

#[test]
fn override_is_used_verbatim_in_a_full_run() {
    let mut marker = MarkerState { present: false };
    let mut hook = HookState { present: false };
    let candidates = well_known_injector_paths();
    let report = run_automatic_launch(
        &args(&["C:\\Sim\\Condor.exe"]),
        Some("D:\\Elsewhere\\Injector.exe".to_string()),
        &candidates,
        &vec![true, true, true],
        &vec![true],
        &InjectionOutcome::Success,
        &mut marker,
        &mut hook,
    );

    let loc = report.injector.expect("override must resolve");
    assert_eq!(loc.path, "D:\\Elsewhere\\Injector.exe");
    assert_eq!(loc.source, InjectorSource::Override);
    assert!(report.state.finished);
}

#[test]
fn non_zero_exit_is_reported_with_its_code() {
    let mut marker = MarkerState { present: false };
    let mut hook = HookState { present: true };
    let candidates = well_known_injector_paths();
    let report = run_automatic_launch(
        &args(&["C:\\Sim\\Condor.exe"]),
        None,
        &candidates,
        &vec![true, true, true],
        &vec![true],
        &InjectionOutcome::NonZeroExit(3),
        &mut marker,
        &mut hook,
    );

    assert_eq!(
        report.state.error.as_deref(),
        Some("Revive Injector failed with exit code: 3")
    );
    assert!(!report.state.finished);
    assert!(report.injector_invoked);
    assert!(!marker.present);
    assert!(hook.present);
}

#[test]
fn spawn_failure_is_reported_with_the_os_reason() {
    let mut marker = MarkerState { present: false };
    let mut hook = HookState { present: true };
    let candidates = well_known_injector_paths();
    let report = run_automatic_launch(
        &args(&["C:\\Sim\\Condor.exe"]),
        None,
        &candidates,
        &vec![true, true, true],
        &vec![true],
        &InjectionOutcome::SpawnFailed("access is denied".to_string()),
        &mut marker,
        &mut hook,
    );

    assert_eq!(
        report.state.error.as_deref(),
        Some("Failed to run Revive Injector: access is denied")
    );
    assert!(!report.state.finished);
    assert!(!marker.present);
}

#[test]
fn stabilization_ramps_progress_from_injected_to_full() {
    let mut marker = MarkerState { present: false };
    let mut orch = Orchestrator::new();
    assert!(orch.begin(&mut marker));
    assert_eq!(orch.state.progress, 50);
    orch.note_resolved();
    orch.note_bypass_complete();
    assert_eq!(orch.state.progress, 150);
    orch.note_injection(&InjectionOutcome::Success);
    assert_eq!(orch.state.progress, 500);

    // Half the wait: half the remaining span.
    orch.stabilize_tick(1500);
    assert_eq!(orch.state.progress, 750);
    // Progress never moves backwards, even on a stale wake.
    orch.stabilize_tick(600);
    assert_eq!(orch.state.progress, 750);
    // Past the span the ramp caps at the whole.
    orch.stabilize_tick(9999);
    assert_eq!(orch.state.progress, PROGRESS_FULL);

    orch.complete();
    assert!(orch.state.finished);
    orch.release(&mut marker);
    assert!(!marker.present);
}

#[test]
fn exit_codes_classify_by_zero() {
    assert!(matches!(classify_exit_code(0), InjectionOutcome::Success));
    assert!(matches!(
        classify_exit_code(7),
        InjectionOutcome::NonZeroExit(7)
    ));
    assert!(matches!(
        classify_exit_code(-1),
        InjectionOutcome::NonZeroExit(-1)
    ));
}

#[test]
fn not_found_message_names_the_fallback_path() {
    let msg = LaunchError::InjectorNotFound("C:\\Somewhere\\ReviveInjector.exe".to_string())
        .message();
    assert_eq!(
        msg,
        "Revive Injector not found at C:\\Somewhere\\ReviveInjector.exe"
    );
}

#[test]
fn negative_exit_codes_render_with_a_sign() {
    let msg = LaunchError::InjectorNonZeroExit(-1073741819).message();
    assert_eq!(msg, "Revive Injector failed with exit code: -1073741819");
    let msg = LaunchError::InjectorNonZeroExit(i32::MIN).message();
    assert_eq!(msg, "Revive Injector failed with exit code: -2147483648");
    let msg = LaunchError::InjectorNonZeroExit(0).message();
    assert_eq!(msg, "Revive Injector failed with exit code: 0");
}
