//! Token-refresh worker: periodically refreshes an expiring credential.

use vstd::prelude::*;

verus! {

/// Token-refresh worker options.
#[derive(Debug, Clone, Copy)]
pub struct Options {
    pub check_interval_secs: u64,
    pub refresh_threshold_secs: u64,
}

impl Default for Options {
    fn default() -> (r: Self)
        ensures
            r.check_interval_secs == 3600,
            r.refresh_threshold_secs == 86400,
    {
        Options { check_interval_secs: 3600, refresh_threshold_secs: 86400 }
    }
}

} // verus!
