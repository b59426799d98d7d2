//! Poller worker: periodically triggers a workflow sync.

use vstd::prelude::*;

verus! {

/// Poller worker options.
#[derive(Debug, Clone, Copy)]
pub struct Options {
    pub interval_secs: u64,
    pub initial_delay_secs: u64,
}

impl Default for Options {
    fn default() -> (r: Self)
        ensures
            r.interval_secs == 30,
            r.initial_delay_secs == 5,
    {
        Options { interval_secs: 30, initial_delay_secs: 5 }
    }
}

} // verus!
