//! Plain data exchanged with the backend, the local diagnostic API and the
//! MQTT broker.

use vstd::prelude::*;

verus! {

/// Answer to a device activation.
#[derive(Debug)]
pub struct DeviceActivationResponse {
    pub device_id: String,
    pub owner_id: String,
    pub token: String,
    pub device_name: String,
}

/// Device sync request body.
#[derive(Debug)]
pub struct DeviceSyncRequest {
    pub agent_version: String,
    pub local_workflow_digests: Vec<String>,
}

/// Device sync answer.
#[derive(Debug)]
pub struct DeviceSyncResponse {
    pub device_id: String,
    pub workflows_to_update: Vec<String>,
    pub workflows_to_remove: Vec<String>,
    pub settings_updated: bool,
}

/// Device settings pushed by the backend.
#[derive(Debug)]
pub struct DeviceSettings {
    pub polling_interval_secs: Option<u64>,
    pub enable_mqtt: Option<bool>,
    pub enable_telemetry: Option<bool>,
    pub log_level: Option<String>,
}

/// Workflows assigned to the device.
#[derive(Debug)]
pub struct WorkflowListResponse {
    pub workflows: Vec<WorkflowSummary>,
    pub total: usize,
}

/// One assigned workflow.
#[derive(Debug)]
pub struct WorkflowSummary {
    pub id: String,
    pub name: String,
    pub status: String,
    pub logic_hash: Option<String>,
    pub updated_at: String,
}

/// Lifecycle status of a workflow.
#[derive(Debug, Clone, Copy, PartialEq, Eq, Structural)]
pub enum WorkflowStatus {
    Draft,
    Active,
    Paused,
    Archived,
}

/// A port of a workflow node.
#[derive(Debug)]
pub struct Port {
    pub id: String,
    pub name: String,
    pub port_type: String,
}

/// An edge between two workflow nodes.
#[derive(Debug)]
pub struct Edge {
    pub id: String,
    pub source: String,
    pub source_handle: Option<String>,
    pub target: String,
    pub target_handle: Option<String>,
}

/// Execution state of a running workflow.
#[derive(Debug, Clone, Copy, PartialEq, Eq, Structural)]
pub enum ExecutionState {
    Idle,
    Running,
    Paused,
    Completed,
    Error,
    Cancelled,
}

/// MQTT broker address.
#[derive(Debug)]
pub struct MqttAddress {
    pub host: String,
    pub port: u16,
    pub use_tls: bool,
    /// PEM CA certificate for the broker; the system store when absent.
    pub ca_cert_path: Option<String>,
}

impl Default for MqttAddress {
    fn default() -> (r: Self)
        ensures
            r.host@.len() == 0,
            r.port == 8883,
            r.use_tls,
            r.ca_cert_path is None,
    {
        MqttAddress { host: String::new(), port: 8883, use_tls: true, ca_cert_path: None }
    }
}

/// A message received from the broker.
#[derive(Debug)]
pub struct MqttMessage {
    pub topic: String,
    pub payload: Vec<u8>,
}

/// Device status published over MQTT.
#[derive(Debug)]
pub struct DeviceStatus {
    pub status: String,
    pub agent_version: String,
    pub uptime_secs: u64,
    pub workflows_deployed: usize,
    pub workflows_running: usize,
}

/// `/health` answer.
#[derive(Debug)]
pub struct HealthResponse {
    pub status: String,
    pub service: String,
    pub version: String,
}

/// `/version` answer.
#[derive(Debug)]
pub struct VersionResponse {
    pub version: String,
    pub git_hash: String,
    pub build_time: String,
}

/// `/device` answer.
#[derive(Debug)]
pub struct DeviceResponse {
    pub id: String,
    pub name: String,
    pub device_type: Option<String>,
    pub status: String,
    pub owner_id: String,
}

/// `/device/sync` request.
#[derive(Debug)]
pub struct SyncRequest {
    pub force: Option<bool>,
}

/// `/device/sync` answer.
#[derive(Debug)]
pub struct SyncResponse {
    pub success: bool,
    pub message: String,
}

/// `/workflows/deployed` answer.
#[derive(Debug)]
pub struct WorkflowsResponse {
    pub workflows: Vec<WorkflowInfo>,
    pub total: usize,
}

/// One deployed workflow.
#[derive(Debug)]
pub struct WorkflowInfo {
    pub id: String,
    pub name: String,
    pub status: String,
}

} // verus!
