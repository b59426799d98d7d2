//! Deployer worker: periodically executes pending deployments.

use vstd::prelude::*;

verus! {

/// Deployer worker options.
#[derive(Debug, Clone, Copy)]
pub struct Options {
    pub interval_secs: u64,
}

impl Default for Options {
    fn default() -> (r: Self)
        ensures
            r.interval_secs == 10,
    {
        Options { interval_secs: 10 }
    }
}

} // verus!
