use ajime_agent::backoff::backoff_delay;
use ajime_agent::relay::{relay_step, RelayAction, RelayEvent};
use ajime_agent::endpoints::{activate_url, deployment_logs_url, deployment_status_url, normalize_base_url, pending_deployments_url, token_refresh_url, workflows_sync_url};
use ajime_agent::relay::{terminal_closed_message, terminal_output_message, terminal_shell};
use ajime_agent::error::AgentError;
use ajime_agent::files::{discovered, probe_ports, sort_listing, FileEntry};
use ajime_agent::relay::{
    command_path, content_result, decode_content, encode_content, expects_response, ok_result,
    parse_command, ping_message, relay_path, relay_scheme, response_envelope, route_name,
    scan_subnet_arg, session_result, terminal_dims, terminal_session_id, RelayCommand,
    SessionRegistry,
};

#[test]
fn relay_url_parts() {
    assert_eq!(relay_scheme("http").unwrap(), "ws");
    assert_eq!(relay_scheme("https").unwrap(), "wss");
    assert!(matches!(relay_scheme("ftp"), Err(AgentError::ConfigError(_))));
    assert_eq!(relay_path("/api/v1/"), "/api/v1/agent-relay/ws");
    assert_eq!(relay_path("/api//"), "/api/agent-relay/ws");
    assert_eq!(relay_path(""), "/agent-relay/ws");
}

#[test]
fn relay_routing() {
    assert_eq!(route_name(Some("command"), Some("file_write")), Some("file_write"));
    assert_eq!(route_name(Some("pong"), Some("file_write")), Some("pong"));
    assert_eq!(route_name(None, Some("file_write")), None);
    assert_eq!(parse_command(Some("file_write")), RelayCommand::FileWrite);
    assert_eq!(parse_command(Some("terminal_create")), RelayCommand::TerminalCreate);
    assert_eq!(parse_command(Some("bogus")), RelayCommand::Unknown);
    assert_eq!(parse_command(None), RelayCommand::Unknown);
    assert!(expects_response(RelayCommand::FileRead));
    assert!(!expects_response(RelayCommand::TerminalInput));
    assert!(!expects_response(RelayCommand::Pong));
    assert_eq!(command_path(RelayCommand::FileList, None), "/");
    assert_eq!(command_path(RelayCommand::FileRead, None), "");
    assert_eq!(command_path(RelayCommand::FileRead, Some("/tmp/x")), "/tmp/x");
    assert_eq!(scan_subnet_arg(None), "192.168.1.0/24");
    assert_eq!(terminal_dims(None, None), (80, 24));
    assert_eq!(terminal_dims(Some(65536 + 100), Some(50)), (100, 50));
    assert_eq!(terminal_session_id(None, "m9"), "m9");
    assert_eq!(terminal_session_id(Some("s1"), "m9"), "s1");
}

#[test]
fn relay_file_write_read_round_trip_values() {
    let bytes = decode_content("aGVsbG8=").unwrap();
    assert_eq!(bytes, b"hello".to_vec());
    assert_eq!(encode_content(&bytes), "aGVsbG8=");
    assert!(matches!(decode_content("***"), Err(AgentError::ValidationError(_))));

    let write_reply = response_envelope("m1", Ok(ok_result()));
    let v: serde_json::Value = serde_json::from_str(&write_reply).unwrap();
    let expected: serde_json::Value = serde_json::from_str(
        "{\"type\":\"response\",\"msg_id\":\"m1\",\"result\":{\"ok\":true},\"error\":null}",
    )
    .unwrap();
    assert_eq!(v, expected);

    let read_reply = response_envelope("m2", Ok(content_result(&encode_content(&bytes))));
    let v: serde_json::Value = serde_json::from_str(&read_reply).unwrap();
    assert_eq!(v["msg_id"], "m2");
    assert_eq!(v["result"]["content"], "aGVsbG8=");
}

#[test]
fn relay_error_envelope_and_messages() {
    let reply = response_envelope("q\"1", Err(AgentError::NotFound("nope".to_string())));
    let v: serde_json::Value = serde_json::from_str(&reply).unwrap();
    assert_eq!(v["msg_id"], "q\"1");
    assert!(v["result"].is_null());
    assert_eq!(v["error"], "Not found: nope");
    let s: serde_json::Value = serde_json::from_str(&session_result("abc")).unwrap();
    assert_eq!(s["session_id"], "abc");
    assert_eq!(ping_message(), "{\"type\":\"ping\"}");
}

#[test]
fn session_registry_keeps_created_sessions_until_closed() {
    let mut reg: SessionRegistry<u32> = SessionRegistry::new();
    assert!(reg.insert("s1".to_string(), 1).is_none());
    assert!(reg.insert("s2".to_string(), 2).is_none());
    assert!(reg.contains("s1"));
    assert!(reg.remove("s2").is_some());
    assert!(reg.contains("s1"));
    assert_eq!(reg.insert("s1".to_string(), 3), Some(1));
    assert_eq!(reg.get("s1"), Some(&3));
    assert_eq!(reg.remove("s1"), Some(3));
    assert!(!reg.contains("s1"));
    assert!(reg.remove("missing").is_none());
    assert!(reg.get("missing").is_none());
}

fn entry(name: &str, is_dir: bool) -> FileEntry {
    FileEntry { name: name.to_string(), path: format!("/d/{}", name), is_dir, size: 0, modified: None }
}

#[test]
fn listing_directories_first_then_by_name() {
    let input = vec![entry("b.txt", false), entry("zdir", true), entry("a.txt", false), entry("adir", true)];
    let names: Vec<String> = sort_listing(input).into_iter().map(|e| e.name).collect();
    assert_eq!(names, vec!["adir", "zdir", "a.txt", "b.txt"]);
}

#[test]
fn listing_order_is_the_same_for_any_read_order() {
    let a = vec![entry("x", false), entry("B", true), entry("a", true), entry("é", false), entry("e", false)];
    let b = vec![entry("e", false), entry("é", false), entry("a", true), entry("x", false), entry("B", true)];
    let na: Vec<String> = sort_listing(a).into_iter().map(|e| e.name).collect();
    let nb: Vec<String> = sort_listing(b).into_iter().map(|e| e.name).collect();
    assert_eq!(na, nb);
    assert_eq!(na, vec!["B", "a", "e", "x", "é"]);
}

#[test]
fn scan_reports_only_hosts_with_open_ports() {
    assert_eq!(probe_ports(), vec![22, 80, 8080]);
    assert!(discovered("10.0.0.1".to_string(), vec![]).is_none());
    let d = discovered("10.0.0.2".to_string(), vec![22, 8080]).unwrap();
    assert!(d.has_agent);
    assert_eq!(d.open_ports, vec![22, 8080]);
    assert!(!discovered("10.0.0.3".to_string(), vec![80]).unwrap().has_agent);
}

#[test]
fn terminal_frames() {
    let out: serde_json::Value = serde_json::from_str(&terminal_output_message("s1", b"hi")).unwrap();
    assert_eq!(out["type"], "terminal_output");
    assert_eq!(out["session_id"], "s1");
    assert_eq!(out["data"], "aGk=");
    let closed: serde_json::Value = serde_json::from_str(&terminal_closed_message("s1")).unwrap();
    assert_eq!(closed["type"], "terminal_closed");
    assert_eq!(closed["session_id"], "s1");
    assert_eq!(terminal_shell(true), "/bin/bash");
    assert_eq!(terminal_shell(false), "/bin/sh");
}

#[test]
fn backend_endpoint_urls() {
    let base = normalize_base_url("https://api.example.com/api/v1//");
    assert_eq!(base, "https://api.example.com/api/v1");
    assert_eq!(activate_url(&base), "https://api.example.com/api/v1/devices/activate");
    assert_eq!(token_refresh_url(&base, "d1"), "https://api.example.com/api/v1/agent/devices/d1/token/refresh");
    assert_eq!(workflows_sync_url(&base, "d1"), "https://api.example.com/api/v1/agent/devices/d1/workflows/sync");
    assert_eq!(pending_deployments_url(&base, "d1"), "https://api.example.com/api/v1/agent/devices/d1/deployments");
    assert_eq!(deployment_status_url(&base, "x"), "https://api.example.com/api/v1/deployments/x/status");
    assert_eq!(deployment_logs_url(&base, "x"), "https://api.example.com/api/v1/deployments/x/logs");
}

#[test]
fn relay_reconnect_decisions() {
    assert_eq!(relay_step(5, RelayEvent::Connected, 9), (0, RelayAction::Serve));
    assert_eq!(relay_step(3, RelayEvent::Shutdown, 9), (3, RelayAction::Close));
    assert_eq!(relay_step(3, RelayEvent::Tick, 9), (3, RelayAction::SendPing));
    assert_eq!(relay_step(3, RelayEvent::Text, 9), (3, RelayAction::Dispatch));
    for ev in [RelayEvent::TokenUnavailable, RelayEvent::ConnectFailed, RelayEvent::Disconnected] {
        assert_eq!(relay_step(3, ev, 77), (4, RelayAction::Retry { delay_ms: backoff_delay(3, 2, 60, 77) }));
    }
    assert_eq!(relay_step(u32::MAX, RelayEvent::ConnectFailed, 1).0, u32::MAX);
    match relay_step(0, RelayEvent::Disconnected, 123).1 {
        RelayAction::Retry { delay_ms } => assert!(delay_ms < 2000),
        other => panic!("unexpected {:?}", other),
    }
}

#[test]
fn envelope_text_and_escaping() {
    assert_eq!(
        response_envelope("m1", Ok(ok_result())),
        "{\"type\":\"response\",\"msg_id\":\"m1\",\"result\":{\"ok\":true},\"error\":null}"
    );
    let e = response_envelope("a\"b\\c\nd\u{1}", Ok(ok_result()));
    assert!(e.contains("\"msg_id\":\"a\\\"b\\\\c\\nd\\u0001\""));
}
