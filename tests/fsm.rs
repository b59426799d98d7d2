use ajime_agent::fsm::{DeploymentEvent, DeploymentFsm, DeploymentState};

#[test]
fn test_fsm_transitions() {
    let mut fsm = DeploymentFsm::new();
    assert_eq!(fsm.state(), &DeploymentState::Pending);

    fsm.process(DeploymentEvent::Deploy).unwrap();
    assert_eq!(fsm.state(), &DeploymentState::Deploying);

    fsm.process(DeploymentEvent::DeploySuccess).unwrap();
    assert_eq!(fsm.state(), &DeploymentState::Deployed);

    fsm.process(DeploymentEvent::Start).unwrap();
    assert_eq!(fsm.state(), &DeploymentState::Running);

    fsm.process(DeploymentEvent::Pause).unwrap();
    assert_eq!(fsm.state(), &DeploymentState::Paused);

    fsm.process(DeploymentEvent::Resume).unwrap();
    assert_eq!(fsm.state(), &DeploymentState::Running);

    fsm.process(DeploymentEvent::Stop).unwrap();
    assert_eq!(fsm.state(), &DeploymentState::Stopped);
}

#[test]
fn test_fsm_error_handling() {
    let mut fsm = DeploymentFsm::new();

    fsm.process(DeploymentEvent::Deploy).unwrap();
    fsm.process(DeploymentEvent::DeployFailed("test error".to_string())).unwrap();

    assert_eq!(fsm.state(), &DeploymentState::Failed);
    assert_eq!(fsm.error(), Some("test error"));
    assert_eq!(fsm.retry_count(), 1);
}

#[test]
fn test_fsm_initial_state() {
    let fsm = DeploymentFsm::new();
    assert_eq!(fsm.state(), &DeploymentState::Pending);
    assert!(fsm.error().is_none());
    assert_eq!(fsm.retry_count(), 0);
}

#[test]
fn test_fsm_deploy_success_flow() {
    let mut fsm = DeploymentFsm::new();

    fsm.process(DeploymentEvent::Deploy).unwrap();
    assert_eq!(fsm.state(), &DeploymentState::Deploying);

    fsm.process(DeploymentEvent::DeploySuccess).unwrap();
    assert_eq!(fsm.state(), &DeploymentState::Deployed);

    fsm.process(DeploymentEvent::Start).unwrap();
    assert_eq!(fsm.state(), &DeploymentState::Running);
}

#[test]
fn test_fsm_deploy_failure_flow() {
    let mut fsm = DeploymentFsm::new();

    fsm.process(DeploymentEvent::Deploy).unwrap();
    fsm.process(DeploymentEvent::DeployFailed("test error".to_string())).unwrap();

    assert_eq!(fsm.state(), &DeploymentState::Failed);
    assert_eq!(fsm.error(), Some("test error"));
    assert_eq!(fsm.retry_count(), 1);
}

#[test]
fn test_fsm_retry_after_failure() {
    let mut fsm = DeploymentFsm::new();

    fsm.process(DeploymentEvent::Deploy).unwrap();
    fsm.process(DeploymentEvent::DeployFailed("error 1".to_string())).unwrap();
    assert_eq!(fsm.retry_count(), 1);

    fsm.process(DeploymentEvent::Deploy).unwrap();
    fsm.process(DeploymentEvent::DeployFailed("error 2".to_string())).unwrap();
    assert_eq!(fsm.retry_count(), 2);

    assert!(fsm.can_retry(3));
    assert!(!fsm.can_retry(2));
}

#[test]
fn test_fsm_pause_resume() {
    let mut fsm = DeploymentFsm::new();

    fsm.process(DeploymentEvent::Deploy).unwrap();
    fsm.process(DeploymentEvent::DeploySuccess).unwrap();
    fsm.process(DeploymentEvent::Start).unwrap();

    fsm.process(DeploymentEvent::Pause).unwrap();
    assert_eq!(fsm.state(), &DeploymentState::Paused);

    fsm.process(DeploymentEvent::Resume).unwrap();
    assert_eq!(fsm.state(), &DeploymentState::Running);
}

#[test]
fn test_fsm_invalid_transition() {
    let mut fsm = DeploymentFsm::new();

    let result = fsm.process(DeploymentEvent::Start);
    assert!(result.is_err());
}

#[test]
fn fsm_happy_path_keeps_error_empty() {
    let mut fsm = DeploymentFsm::new();
    let events = vec![
        (DeploymentEvent::Deploy, DeploymentState::Deploying),
        (DeploymentEvent::DeploySuccess, DeploymentState::Deployed),
        (DeploymentEvent::Start, DeploymentState::Running),
        (DeploymentEvent::Pause, DeploymentState::Paused),
        (DeploymentEvent::Resume, DeploymentState::Running),
        (DeploymentEvent::Stop, DeploymentState::Stopped),
    ];
    for (event, expected) in events {
        fsm.process(event).unwrap();
        assert_eq!(fsm.state(), &expected);
        assert!(fsm.error().is_none());
    }
}

#[test]
fn fsm_retry_scenario_records_last_error() {
    let mut fsm = DeploymentFsm::new();
    fsm.process(DeploymentEvent::Deploy).unwrap();
    fsm.process(DeploymentEvent::DeployFailed("e1".to_string())).unwrap();
    fsm.process(DeploymentEvent::Deploy).unwrap();
    fsm.process(DeploymentEvent::DeployFailed("e2".to_string())).unwrap();
    assert_eq!(fsm.state(), &DeploymentState::Failed);
    assert_eq!(fsm.error(), Some("e2"));
    assert_eq!(fsm.retry_count(), 2);
    assert!(fsm.can_retry(3));
    assert!(!fsm.can_retry(2));
}

#[test]
fn fsm_rejected_event_leaves_state_unchanged() {
    let mut fsm = DeploymentFsm::new();
    let err = fsm.process(DeploymentEvent::Resume).unwrap_err();
    assert_eq!(err, "Invalid transition: Pending -> Resume");
    assert_eq!(fsm.state(), &DeploymentState::Pending);
    assert_eq!(fsm.retry_count(), 0);
}

#[test]
fn fsm_reset_and_error_paths() {
    let mut fsm = DeploymentFsm::new();
    fsm.process(DeploymentEvent::Deploy).unwrap();
    fsm.process(DeploymentEvent::DeployFailed("boom".to_string())).unwrap();
    fsm.process(DeploymentEvent::Reset).unwrap();
    assert_eq!(fsm.state(), &DeploymentState::Pending);
    assert_eq!(fsm.retry_count(), 0);
    assert!(fsm.error().is_none());

    fsm.process(DeploymentEvent::Deploy).unwrap();
    fsm.process(DeploymentEvent::DeploySuccess).unwrap();
    fsm.process(DeploymentEvent::Start).unwrap();
    fsm.process(DeploymentEvent::Error("crash".to_string())).unwrap();
    assert_eq!(fsm.state(), &DeploymentState::Failed);
    assert_eq!(fsm.error(), Some("crash"));
    assert_eq!(fsm.retry_count(), 0);
    assert!(fsm.can_retry(1));
}

#[test]
fn fsm_complete_returns_to_deployed_and_stopped_restarts() {
    let mut fsm = DeploymentFsm::new();
    fsm.process(DeploymentEvent::Deploy).unwrap();
    fsm.process(DeploymentEvent::DeploySuccess).unwrap();
    fsm.process(DeploymentEvent::Start).unwrap();
    fsm.process(DeploymentEvent::Complete).unwrap();
    assert_eq!(fsm.state(), &DeploymentState::Deployed);
    fsm.process(DeploymentEvent::Start).unwrap();
    fsm.process(DeploymentEvent::Stop).unwrap();
    fsm.process(DeploymentEvent::Start).unwrap();
    assert_eq!(fsm.state(), &DeploymentState::Running);
    assert!(fsm.process(DeploymentEvent::Reset).is_err());
}
