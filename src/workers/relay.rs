//! Relay worker: keeps the realtime connection to the backend.

use vstd::prelude::*;

verus! {

/// Relay worker options.
#[derive(Debug, Clone, Copy)]
pub struct Options {
    pub reconnect_delay_secs: u64,
    pub heartbeat_interval_secs: u64,
}

impl Default for Options {
    fn default() -> (r: Self)
        ensures
            r.reconnect_delay_secs == 5,
            r.heartbeat_interval_secs == 30,
    {
        Options { reconnect_delay_secs: 5, heartbeat_interval_secs: 30 }
    }
}

} // verus!
