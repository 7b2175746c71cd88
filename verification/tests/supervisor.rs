use backend_supervisor::supervisor::{
    stop_step, ShutdownConfig, StopAction, StopEvent, StopPlan, StopReport, StopState,
    StopTransition, Supervisor,
};

fn is_nothing<H>(plan: &StopPlan<H>) -> bool {
    matches!(plan, StopPlan::Nothing)
}

#[test]
fn new_supervisor_holds_nothing() {
    let supervisor: Supervisor<u32> = Supervisor::new();
    assert!(!supervisor.is_running());
}

#[test]
fn stop_without_process_is_a_no_op() {
    let mut supervisor: Supervisor<u32> = Supervisor::new();
    assert!(is_nothing(&supervisor.stop()));
    assert!(!supervisor.is_running());
}

#[test]
fn stop_hands_the_process_out_once() {
    let mut supervisor: Supervisor<String> = Supervisor::new();
    assert_eq!(supervisor.install("pid 42".to_string()), None);
    assert!(supervisor.is_running());
    match supervisor.stop() {
        StopPlan::Terminate(handle) => assert_eq!(handle, "pid 42"),
        StopPlan::Nothing => panic!("the process was not handed out"),
    }
    assert!(!supervisor.is_running());
}

#[test]
fn second_stop_is_a_no_op() {
    let mut supervisor: Supervisor<u32> = Supervisor::new();
    supervisor.install(42);
    assert!(!is_nothing(&supervisor.stop()));
    assert!(is_nothing(&supervisor.stop()));
    assert!(is_nothing(&supervisor.stop()));
    assert!(!supervisor.is_running());
}

#[test]
fn install_hands_back_what_it_displaces() {
    let mut supervisor: Supervisor<u32> = Supervisor::new();
    assert_eq!(supervisor.install(1), None);
    assert_eq!(supervisor.install(2), Some(1));
    match supervisor.stop() {
        StopPlan::Terminate(handle) => assert_eq!(handle, 2),
        StopPlan::Nothing => panic!("the process was not handed out"),
    }
}

#[test]
fn supervisor_can_be_started_again_after_stop() {
    let mut supervisor: Supervisor<u32> = Supervisor::new();
    supervisor.install(1);
    supervisor.stop();
    assert_eq!(supervisor.install(2), None);
    assert!(supervisor.is_running());
}

#[test]
fn standard_shutdown_config() {
    assert_eq!(ShutdownConfig::standard(), ShutdownConfig { grace_ms: 2000, poll_ms: 50 });
}

#[test]
fn shutdown_begins_with_the_signal() {
    assert_eq!(
        StopState::begin(),
        StopTransition { state: StopState::Signalling, action: StopAction::SendSignal }
    );
}

#[test]
fn failed_signal_ends_the_shutdown() {
    let config = ShutdownConfig::standard();
    let next = stop_step(&config, StopState::Signalling, StopEvent::SignalFailed);
    assert_eq!(next.state, StopState::Done(StopReport::KillFailed));
    assert_eq!(next.action, StopAction::Finish(StopReport::KillFailed));
}

#[test]
fn sent_signal_leads_to_waiting() {
    let config = ShutdownConfig::standard();
    let next = stop_step(&config, StopState::Signalling, StopEvent::SignalSent);
    assert_eq!(next.state, StopState::Waiting { waited_ms: 0 });
    assert_eq!(next.action, StopAction::CheckExit);
}

#[test]
fn exit_ends_the_shutdown() {
    let config = ShutdownConfig::standard();
    for state in [StopState::Signalling, StopState::Waiting { waited_ms: 150 }] {
        let next = stop_step(&config, state, StopEvent::Exited);
        assert_eq!(next.state, StopState::Done(StopReport::Exited));
        assert_eq!(next.action, StopAction::Finish(StopReport::Exited));
    }
}

#[test]
fn running_process_costs_a_pause_within_grace() {
    let config = ShutdownConfig::standard();
    let next = stop_step(&config, StopState::Waiting { waited_ms: 100 }, StopEvent::StillRunning);
    assert_eq!(next.state, StopState::Waiting { waited_ms: 150 });
    assert_eq!(next.action, StopAction::PauseThenCheck { ms: 50 });
    let next = stop_step(&config, StopState::Waiting { waited_ms: 1950 }, StopEvent::StillRunning);
    assert_eq!(next.state, StopState::Waiting { waited_ms: 2000 });
}

#[test]
fn shutdown_gives_up_after_grace() {
    let config = ShutdownConfig::standard();
    let next = stop_step(&config, StopState::Waiting { waited_ms: 2000 }, StopEvent::StillRunning);
    assert_eq!(next.state, StopState::Done(StopReport::GaveUp));
    assert_eq!(next.action, StopAction::Finish(StopReport::GaveUp));
    let next = stop_step(&config, StopState::Waiting { waited_ms: 1951 }, StopEvent::StillRunning);
    assert_eq!(next.state, StopState::Done(StopReport::GaveUp));
}

#[test]
fn shutdown_with_extreme_numbers_does_not_overflow() {
    let config = ShutdownConfig { grace_ms: u32::MAX, poll_ms: u32::MAX };
    let next = stop_step(&config, StopState::Waiting { waited_ms: 0 }, StopEvent::StillRunning);
    assert_eq!(next.state, StopState::Waiting { waited_ms: u32::MAX });
    let next = stop_step(&config, next.state, StopEvent::StillRunning);
    assert_eq!(next.state, StopState::Done(StopReport::GaveUp));
    let config = ShutdownConfig { grace_ms: 10, poll_ms: 50 };
    let next = stop_step(&config, StopState::Waiting { waited_ms: 0 }, StopEvent::StillRunning);
    assert_eq!(next.state, StopState::Done(StopReport::GaveUp));
}

#[test]
fn finished_shutdown_halts() {
    let config = ShutdownConfig::standard();
    for report in [StopReport::Exited, StopReport::GaveUp, StopReport::KillFailed] {
        for event in [
            StopEvent::SignalSent,
            StopEvent::SignalFailed,
            StopEvent::Exited,
            StopEvent::StillRunning,
        ] {
            let next = stop_step(&config, StopState::Done(report), event);
            assert_eq!(next.state, StopState::Done(report));
            assert_eq!(next.action, StopAction::Halt);
        }
    }
}

#[test]
fn whole_shutdown_pauses_no_longer_than_grace() {
    let config = ShutdownConfig { grace_ms: 1000, poll_ms: 300 };
    let mut state = stop_step(&config, StopState::begin().state, StopEvent::SignalSent).state;
    let mut paused: u64 = 0;
    let mut signals = 0;
    let mut finishes = Vec::new();
    for _ in 0..20 {
        let next = stop_step(&config, state, StopEvent::StillRunning);
        state = next.state;
        match next.action {
            StopAction::PauseThenCheck { ms } => paused += u64::from(ms),
            StopAction::Finish(report) => finishes.push(report),
            StopAction::SendSignal => signals += 1,
            _ => {}
        }
    }
    assert_eq!(paused, 900);
    assert_eq!(signals, 0);
    assert_eq!(finishes, vec![StopReport::GaveUp]);
    assert_eq!(state, StopState::Done(StopReport::GaveUp));
}
