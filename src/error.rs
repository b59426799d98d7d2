use vstd::prelude::*;
use crate::text::owned;

verus! {

/// Error taxonomy of the agent. Every variant carries a human-readable message.
#[derive(Debug, Clone, PartialEq, Eq)]
pub enum AgentError {
    IoError(String),
    JsonError(String),
    HttpError(String),
    AuthError(String),
    TokenError(String),
    StorageError(String),
    SyncError(String),
    DeployError(String),
    MqttError(String),
    ServerError(String),
    ShutdownError(String),
    DeviceNotActivated(String),
    ConfigError(String),
    HardwareError(String),
    WorkflowError(String),
    ValidationError(String),
    NotFound(String),
    Internal(String),
}

/// The label that introduces each kind of error in its message.
pub open spec fn error_label(e: AgentError) -> Seq<char> {
    match e {
        AgentError::IoError(_) => "IO error: "@,
        AgentError::JsonError(_) => "JSON error: "@,
        AgentError::HttpError(_) => "HTTP error: "@,
        AgentError::AuthError(_) => "Authentication error: "@,
        AgentError::TokenError(_) => "Token error: "@,
        AgentError::StorageError(_) => "Storage error: "@,
        AgentError::SyncError(_) => "Sync error: "@,
        AgentError::DeployError(_) => "Deployment error: "@,
        AgentError::MqttError(_) => "MQTT error: "@,
        AgentError::ServerError(_) => "Server error: "@,
        AgentError::ShutdownError(_) => "Shutdown error: "@,
        AgentError::DeviceNotActivated(_) => "Device not activated: "@,
        AgentError::ConfigError(_) => "Configuration error: "@,
        AgentError::HardwareError(_) => "Hardware error: "@,
        AgentError::WorkflowError(_) => "Workflow error: "@,
        AgentError::ValidationError(_) => "Validation error: "@,
        AgentError::NotFound(_) => "Not found: "@,
        AgentError::Internal(_) => "Internal error: "@,
    }
}

/// The detail text that an error carries.
pub open spec fn error_detail(e: AgentError) -> Seq<char> {
    match e {
        AgentError::IoError(m) => m@,
        AgentError::JsonError(m) => m@,
        AgentError::HttpError(m) => m@,
        AgentError::AuthError(m) => m@,
        AgentError::TokenError(m) => m@,
        AgentError::StorageError(m) => m@,
        AgentError::SyncError(m) => m@,
        AgentError::DeployError(m) => m@,
        AgentError::MqttError(m) => m@,
        AgentError::ServerError(m) => m@,
        AgentError::ShutdownError(m) => m@,
        AgentError::DeviceNotActivated(m) => m@,
        AgentError::ConfigError(m) => m@,
        AgentError::HardwareError(m) => m@,
        AgentError::WorkflowError(m) => m@,
        AgentError::ValidationError(m) => m@,
        AgentError::NotFound(m) => m@,
        AgentError::Internal(m) => m@,
    }
}

impl AgentError {
    /// The human-readable message: the kind's label followed by the detail.
    pub fn to_message(&self) -> (r: String)
        ensures
            r@ == error_label(*self) + error_detail(*self),
    {
        match self {
            AgentError::IoError(m) => owned("IO error: ").concat(m.as_str()),
            AgentError::JsonError(m) => owned("JSON error: ").concat(m.as_str()),
            AgentError::HttpError(m) => owned("HTTP error: ").concat(m.as_str()),
            AgentError::AuthError(m) => owned("Authentication error: ").concat(m.as_str()),
            AgentError::TokenError(m) => owned("Token error: ").concat(m.as_str()),
            AgentError::StorageError(m) => owned("Storage error: ").concat(m.as_str()),
            AgentError::SyncError(m) => owned("Sync error: ").concat(m.as_str()),
            AgentError::DeployError(m) => owned("Deployment error: ").concat(m.as_str()),
            AgentError::MqttError(m) => owned("MQTT error: ").concat(m.as_str()),
            AgentError::ServerError(m) => owned("Server error: ").concat(m.as_str()),
            AgentError::ShutdownError(m) => owned("Shutdown error: ").concat(m.as_str()),
            AgentError::DeviceNotActivated(m) => owned("Device not activated: ").concat(m.as_str()),
            AgentError::ConfigError(m) => owned("Configuration error: ").concat(m.as_str()),
            AgentError::HardwareError(m) => owned("Hardware error: ").concat(m.as_str()),
            AgentError::WorkflowError(m) => owned("Workflow error: ").concat(m.as_str()),
            AgentError::ValidationError(m) => owned("Validation error: ").concat(m.as_str()),
            AgentError::NotFound(m) => owned("Not found: ").concat(m.as_str()),
            AgentError::Internal(m) => owned("Internal error: ").concat(m.as_str()),
        }
    }
}

} // verus!
