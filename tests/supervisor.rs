use ajime_agent::error::AgentError;
use ajime_agent::supervisor::{
    join_outcome, launch_plan, run_gate, shutdown_step, ActivityTracker, RunExit, ShutdownManager, ShutdownStep, WorkerKind,
    FORCED_EXIT_CODE,
};

#[test]
fn handles_are_set_once_and_joined_in_order() {
    let mut m: ShutdownManager<&str> = ShutdownManager::new();
    m.with_deployer_worker_handle("deployer").unwrap();
    m.with_token_refresh_worker_handle("token").unwrap();
    m.with_app_state("state").unwrap();
    m.with_relay_worker_handle("relay").unwrap();
    m.with_socket_server_handle("server").unwrap();
    m.with_poller_worker_handle("poller").unwrap();
    assert!(matches!(m.with_poller_worker_handle("again"), Err(AgentError::ShutdownError(_))));
    assert_eq!(m.take_in_join_order(), vec!["token", "poller", "relay", "deployer", "server", "state"]);
    assert!(m.take_in_join_order().is_empty());
    assert!(m.with_mqtt_worker_handle("mqtt").is_ok());
}

#[test]
fn shutdown_deadline_forces_exit() {
    assert_eq!(shutdown_step(0, 30_000, 3), ShutdownStep::JoinNext);
    assert_eq!(shutdown_step(29_999, 30_000, 0), ShutdownStep::Done);
    assert_eq!(shutdown_step(30_000, 30_000, 1), ShutdownStep::ForceExit);
    assert_eq!(shutdown_step(30_000, 30_000, 0), ShutdownStep::ForceExit);
    assert_ne!(FORCED_EXIT_CODE, 0);
}

#[test]
fn join_errors_are_collected() {
    assert!(join_outcome(&vec![]).is_ok());
    assert!(join_outcome(&vec![true, true]).is_ok());
    assert!(matches!(join_outcome(&vec![true, false, true]), Err(AgentError::ShutdownError(_))));
}

#[test]
fn run_gates() {
    let mut t = ActivityTracker::new(1000);
    assert_eq!(t.last_touched(), 1000);
    assert!(!t.idle_expired(1300, 300));
    assert!(t.idle_expired(1301, 300));
    assert!(!t.idle_expired(10, 300));
    t.touch(1301);
    assert!(!t.idle_expired(1301, 300));
    assert_eq!(run_gate(true, true, &t, 0, 5000, 300, 3600), RunExit::ShutdownSignal);
    assert_eq!(run_gate(false, true, &t, 0, 99999, 300, 3600), RunExit::Continue);
    assert_eq!(run_gate(false, false, &t, 0, 1700, 300, 3600), RunExit::IdleTimeout);
    assert_eq!(run_gate(false, false, &t, 0, 1400, 300, 1400), RunExit::MaxRuntime);
    assert_eq!(run_gate(false, false, &t, 0, 1400, 300, 3600), RunExit::Continue);
}

#[test]
fn launch_order_follows_the_plan() {
    assert_eq!(
        launch_plan(true, true, false, true, true),
        vec![WorkerKind::TokenRefresh, WorkerKind::SocketServer, WorkerKind::Poller, WorkerKind::Relay, WorkerKind::Deployer]
    );
    assert_eq!(launch_plan(false, false, false, false, false), vec![WorkerKind::TokenRefresh]);
    assert_eq!(launch_plan(false, false, true, false, true), vec![WorkerKind::TokenRefresh, WorkerKind::Mqtt, WorkerKind::Deployer]);
}
