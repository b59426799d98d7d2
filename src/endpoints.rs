//! URLs of the backend endpoints the agent calls.

use vstd::prelude::*;
use crate::text::{owned, trim_end_slashes, trim_trailing_slashes};

verus! {

/// A backend base URL as requests use it: without trailing slashes.
pub fn normalize_base_url(base_url: &str) -> (r: String)
    ensures
        r@ == trim_trailing_slashes(base_url@),
{
    trim_end_slashes(base_url)
}

/// `<base>/devices/activate`
pub fn activate_url(base: &str) -> (r: String)
    ensures
        r@ == base@ + "/devices/activate"@,
{
    owned(base).concat("/devices/activate")
}

/// `<base>/agent/devices/<id>/token/refresh`
pub fn token_refresh_url(base: &str, device_id: &str) -> (r: String)
    ensures
        r@ == base@ + "/agent/devices/"@ + device_id@ + "/token/refresh"@,
{
    owned(base).concat("/agent/devices/").concat(device_id).concat("/token/refresh")
}

/// `<base>/agent/devices/<id>/workflows/sync`
pub fn workflows_sync_url(base: &str, device_id: &str) -> (r: String)
    ensures
        r@ == base@ + "/agent/devices/"@ + device_id@ + "/workflows/sync"@,
{
    owned(base).concat("/agent/devices/").concat(device_id).concat("/workflows/sync")
}

/// `<base>/agent/devices/<id>/deployments`
pub fn pending_deployments_url(base: &str, device_id: &str) -> (r: String)
    ensures
        r@ == base@ + "/agent/devices/"@ + device_id@ + "/deployments"@,
{
    owned(base).concat("/agent/devices/").concat(device_id).concat("/deployments")
}

/// `<base>/deployments/<id>/status`
pub fn deployment_status_url(base: &str, deployment_id: &str) -> (r: String)
    ensures
        r@ == base@ + "/deployments/"@ + deployment_id@ + "/status"@,
{
    owned(base).concat("/deployments/").concat(deployment_id).concat("/status")
}

/// `<base>/deployments/<id>/logs`
pub fn deployment_logs_url(base: &str, deployment_id: &str) -> (r: String)
    ensures
        r@ == base@ + "/deployments/"@ + deployment_id@ + "/logs"@,
{
    owned(base).concat("/deployments/").concat(deployment_id).concat("/logs")
}

} // verus!
