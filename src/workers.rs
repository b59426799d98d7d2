//! Options of the long-running workers.

pub mod deployer;
pub mod mqtt;
pub mod poller;
pub mod relay;
pub mod token_refresh;
