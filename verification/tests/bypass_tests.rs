use condor_revive::bypass::drain_events;
use condor_revive::bypass::event_disposition;
use condor_revive::bypass::BypassStrategy;
use condor_revive::bypass::DebugEvent;
use condor_revive::bypass::EventDisposition;
use condor_revive::bypass::SuspendedLaunch;
use condor_revive::bypass::SuspendedLaunchPhase;
use condor_revive::bypass::TriggerWait;
use condor_revive::bypass::TriggerWaitDecision;

#[test]
fn default_strategy_is_the_cooperating_helper() {
    assert_eq!(
        BypassStrategy::default_strategy(),
        BypassStrategy::CooperatingHelper
    );
}

#[test]
fn trigger_wait_proceeds_after_grace_once_service_runs() {
    let mut wait = TriggerWait::new();
    assert_eq!(wait.observe(false), TriggerWaitDecision::Poll);
    assert_eq!(wait.observe(false), TriggerWaitDecision::Poll);
    assert_eq!(wait.observe(true), TriggerWaitDecision::GraceThenProceed);
}

#[test]
fn trigger_wait_times_out_after_its_bound() {
    let mut wait = TriggerWait::new();
    // 5000 ms bound at 100 ms per poll: 50 polls, then the wait gives up
    // and the launch proceeds anyway.
    for _ in 0..50 {
        assert_eq!(wait.observe(false), TriggerWaitDecision::Poll);
    }
    assert_eq!(wait.observe(false), TriggerWaitDecision::ProceedTimedOut);
    // Timing out does not keep the service from being honoured later.
    assert_eq!(wait.observe(true), TriggerWaitDecision::GraceThenProceed);
}

#[test]
fn incidental_events_are_acknowledged_with_their_handles() {
    let d = event_disposition(41, &DebugEvent::Incident { pid: 7, handles: 3 });
    assert_eq!(
        d,
        EventDisposition::AcknowledgeAndContinue { handles_to_close: 3 }
    );

    // A foreign process exit does not end the drain.
    let d = event_disposition(41, &DebugEvent::ProcessExit { pid: 7, code: 9 });
    assert_eq!(
        d,
        EventDisposition::AcknowledgeAndContinue { handles_to_close: 0 }
    );

    // The injector's own exit does, carrying its code.
    let d = event_disposition(41, &DebugEvent::ProcessExit { pid: 41, code: 0 });
    assert_eq!(d, EventDisposition::Finished { code: 0 });
}

#[test]
fn drain_stops_at_the_injectors_first_exit_event() {
    let events = vec![
        DebugEvent::Incident { pid: 41, handles: 2 },
        DebugEvent::ProcessExit { pid: 99, code: 1 },
        DebugEvent::ProcessExit { pid: 41, code: 0 },
        DebugEvent::ProcessExit { pid: 41, code: 7 },
    ];
    assert_eq!(drain_events(41, &events), Some(0));
}

#[test]
fn drain_without_the_injectors_exit_yields_nothing() {
    let events = vec![
        DebugEvent::Incident { pid: 41, handles: 0 },
        DebugEvent::ProcessExit { pid: 99, code: 1 },
    ];
    assert_eq!(drain_events(41, &events), None);
    assert_eq!(drain_events(41, &Vec::new()), None);
}

#[test]
fn suspended_create_runs_its_steps_in_order() {
    let mut launch = SuspendedLaunch::created(1234);
    assert_eq!(launch.phase, SuspendedLaunchPhase::CreatedSuspended);
    assert_eq!(launch.pid, 1234);

    launch.detach();
    assert_eq!(launch.phase, SuspendedLaunchPhase::Detached);

    launch.inject();
    assert_eq!(launch.phase, SuspendedLaunchPhase::Injected);

    launch.resume();
    assert_eq!(launch.phase, SuspendedLaunchPhase::Resumed);
    assert_eq!(launch.pid, 1234);
}
