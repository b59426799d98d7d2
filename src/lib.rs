//! Supervisor core of an edge-device agent: the deployment state machine,
//! the bounded workflow cache and its syncer, backoff policies, the relay
//! command router and the lifecycle bookkeeping, with their contracts.

pub mod error;
pub mod fsm;
pub mod backoff;
pub mod utils;
pub mod text;
pub mod cache;
pub mod syncer;
pub mod topics;
pub mod hardware;
pub mod storage;
pub mod auth;
pub mod supervisor;
pub mod relay;
pub mod endpoints;
pub mod files;
pub mod deploy;
pub mod nodes;
pub mod models;
pub mod api_client;
pub mod api_server;
pub mod options;
pub mod workers;
