//! Bodies of the local diagnostic API.

use vstd::prelude::*;

verus! {

/// Health answer.
#[derive(Debug)]
pub struct HealthResponse {
    pub status: String,
    pub service: String,
    pub version: String,
}

/// Version answer.
#[derive(Debug)]
pub struct VersionResponse {
    pub version: String,
    pub git_hash: String,
    pub build_time: String,
}

/// Device answer.
#[derive(Debug)]
pub struct DeviceResponse {
    pub id: String,
    pub name: String,
    pub device_type: Option<String>,
    pub status: String,
    pub owner_id: String,
}

/// Sync answer.
#[derive(Debug)]
pub struct SyncResponse {
    pub success: bool,
    pub message: String,
}

/// Workflow list answer.
#[derive(Debug)]
pub struct WorkflowListResponse {
    pub workflows: Vec<WorkflowSummary>,
    pub total: usize,
}

/// One workflow in a list.
#[derive(Debug)]
pub struct WorkflowSummary {
    pub id: String,
    pub name: String,
    pub status: String,
}

/// Request to start a workflow.
#[derive(Debug)]
pub struct WorkflowStartRequest {
    pub workflow_id: String,
}

/// Answer to a workflow control request.
#[derive(Debug)]
pub struct WorkflowControlResponse {
    pub success: bool,
    pub workflow_id: String,
    pub status: String,
    pub message: Option<String>,
}

} // verus!
