use ajime_agent::topics::{device_command_kind, route_topic, workflow_control_kind, DeviceCommand, TopicRoute, WorkflowControl};
use ajime_agent::topics::Topics;

#[test]
fn test_topic_generation() {
    assert_eq!(Topics::device_command("device-123"), "ajime/device/device-123/command");
    assert_eq!(Topics::workflow_control("workflow-456"), "ajime/workflow/workflow-456/control");
}

#[test]
fn test_topic_parsing() {
    assert_eq!(
        Topics::parse_device_id("ajime/device/device-123/command"),
        Some("device-123".to_string())
    );
    assert_eq!(
        Topics::parse_workflow_id("ajime/workflow/workflow-456/control"),
        Some("workflow-456".to_string())
    );
}

#[test]
fn topic_other_names_and_suffix_checks() {
    assert_eq!(Topics::device_status("d"), "ajime/device/d/status");
    assert_eq!(Topics::device_telemetry("d"), "ajime/device/d/telemetry");
    assert_eq!(Topics::workflow_status("w"), "ajime/workflow/w/status");
    assert!(Topics::is_command_topic("ajime/device/d/command"));
    assert!(!Topics::is_command_topic("command"));
    assert!(Topics::is_control_topic("x/control"));
    assert!(!Topics::is_control_topic("x/controls"));
}

#[test]
fn topic_parsing_edge_cases() {
    assert_eq!(Topics::parse_device_id("ajime/device"), None);
    assert_eq!(Topics::parse_device_id("ajime/device/"), Some(String::new()));
    assert_eq!(Topics::parse_device_id("ajime/device/abc"), Some("abc".to_string()));
    assert_eq!(Topics::parse_device_id("ajime/workflow/abc/x"), None);
    assert_eq!(Topics::parse_workflow_id("other/workflow/abc"), None);
}

#[test]
fn broker_message_routing() {
    assert_eq!(route_topic("ajime/device/d1/command"), TopicRoute::Command);
    assert_eq!(route_topic("ajime/workflow/w7/control"), TopicRoute::Control("w7".to_string()));
    assert_eq!(route_topic("other/w7/control"), TopicRoute::Ignored);
    assert_eq!(route_topic("ajime/device/d1/status"), TopicRoute::Ignored);
    assert_eq!(device_command_kind("sync"), DeviceCommand::Sync);
    assert_eq!(device_command_kind("reboot"), DeviceCommand::Unknown);
    assert_eq!(workflow_control_kind("resume"), WorkflowControl::Resume);
    assert_eq!(workflow_control_kind("START"), WorkflowControl::Unknown);
}
