//! Request and response bodies of the backend API, as the agent consumes them.

use vstd::prelude::*;

verus! {

/// Activation request.
#[derive(Debug)]
pub struct ActivateDeviceRequest {
    pub activation_token: String,
    pub device_name: String,
    pub device_type: Option<String>,
}

/// Activation answer.
#[derive(Debug)]
pub struct ActivateDeviceResponse {
    pub device_id: String,
    pub owner_id: String,
    pub token: String,
    pub device_name: String,
}

/// Token refresh answer.
#[derive(Debug)]
pub struct TokenRefreshResponse {
    pub token: String,
    pub expires_at: String,
}

/// Connection status of a device.
#[derive(Debug, Clone, Copy, PartialEq, Eq, Structural)]
pub enum DeviceStatus {
    Online,
    Offline,
    Connected,
    Error,
}

/// A workflow as the backend lists it.
#[derive(Debug)]
pub struct WorkflowInfo {
    pub id: String,
    pub name: String,
    pub description: Option<String>,
    pub status: String,
    pub logic_hash: Option<String>,
    pub created_at: String,
    pub updated_at: String,
}

} // verus!
