use postgresql_embedded::lifecycle::{
    failure_for, next_probe, next_stop, transition, EngineError, Event, ProbeAction, ServerState,
    StopAction, Supervisor,
};

#[test]
fn create_database_before_start_is_not_running() {
    let mut supervisor = Supervisor::new();
    assert_eq!(supervisor.create_database("db"), Err(EngineError::NotRunning));
    assert_eq!(supervisor.state, ServerState::Uninstalled);
    assert!(supervisor.observe(Event::InstallFinished));
    assert!(supervisor.observe(Event::InitializerFinished { success: true }));
    assert_eq!(supervisor.create_database("db"), Err(EngineError::NotRunning));
    assert_eq!(supervisor.state, ServerState::Initialized);
}

#[test]
fn full_lifecycle_and_restart() {
    let mut supervisor = Supervisor::new();
    let events = [
        Event::InstallFinished,
        Event::InitializerFinished { success: true },
        Event::StartRequested,
        Event::ServerReady,
    ];
    for event in events {
        assert!(supervisor.observe(event));
    }
    assert_eq!(supervisor.state, ServerState::Running);
    assert_eq!(supervisor.create_database("vector-example"), Ok("vector-example".to_string()));
    assert!(supervisor.observe(Event::StopRequested));
    assert_eq!(supervisor.state, ServerState::Stopping);
    assert!(supervisor.observe(Event::ServerExited));
    assert_eq!(supervisor.state, ServerState::Stopped);
    assert_eq!(supervisor.check_running(), Err(EngineError::NotRunning));
    assert!(supervisor.observe(Event::StartRequested));
    assert!(supervisor.observe(Event::ServerReady));
    assert_eq!(supervisor.check_running(), Ok(()));
}

#[test]
fn events_out_of_order_are_refused() {
    let mut supervisor = Supervisor::new();
    assert!(!supervisor.observe(Event::StartRequested));
    assert!(!supervisor.observe(Event::ServerReady));
    assert_eq!(supervisor.state, ServerState::Uninstalled);
    assert_eq!(transition(ServerState::Running, Event::StartRequested), None);
    assert_eq!(transition(ServerState::Stopped, Event::StopRequested), None);
}

#[test]
fn failures_lead_to_failed() {
    assert_eq!(
        transition(ServerState::Installed, Event::InitializerFinished { success: false }),
        Some(ServerState::Failed)
    );
    assert_eq!(transition(ServerState::Starting, Event::StartupTimedOut), Some(ServerState::Failed));
    assert_eq!(transition(ServerState::Starting, Event::PortTaken), Some(ServerState::Failed));
    assert_eq!(transition(ServerState::Running, Event::ServerExited), Some(ServerState::Failed));
    assert_eq!(
        failure_for(Event::InitializerFinished { success: false }),
        EngineError::InitializationFailed
    );
    assert_eq!(failure_for(Event::StartupTimedOut), EngineError::StartupTimeout);
    assert_eq!(failure_for(Event::PortTaken), EngineError::PortInUse);
    assert_eq!(failure_for(Event::ServerExited), EngineError::ProcessExitedUnexpectedly);
}

#[test]
fn readiness_probe_is_bounded() {
    assert_eq!(next_probe(true, 10_000, 5_000), ProbeAction::Ready);
    assert_eq!(next_probe(false, 0, 5_000), ProbeAction::Retry);
    assert_eq!(next_probe(false, 4_999, 5_000), ProbeAction::Retry);
    assert_eq!(next_probe(false, 5_000, 5_000), ProbeAction::GiveUp);
}

#[test]
fn stop_escalates_after_timeout() {
    assert_eq!(next_stop(true, 0, 1_000), StopAction::Stopped);
    assert_eq!(next_stop(false, 999, 1_000), StopAction::Wait);
    assert_eq!(next_stop(false, 1_000, 1_000), StopAction::Terminate);
}
