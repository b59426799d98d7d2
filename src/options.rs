//! Configuration of the agent and of its workers (durations in seconds).

use vstd::prelude::*;
use crate::fsm::FsmSettings;
use crate::storage::StorageLayout;
use crate::text::owned;

verus! {

/// Lifecycle configuration.
#[derive(Debug)]
pub struct LifecycleOptions {
    /// Runs as a service: only a shutdown signal stops it.
    pub is_persistent: bool,
    pub idle_timeout_secs: u64,
    pub idle_timeout_poll_interval_secs: u64,
    pub max_runtime_secs: u64,
    pub max_shutdown_delay_secs: u64,
}

impl Default for LifecycleOptions {
    fn default() -> (r: Self)
        ensures
            r.is_persistent,
            r.idle_timeout_secs == 300,
            r.idle_timeout_poll_interval_secs == 10,
            r.max_runtime_secs == 3600,
            r.max_shutdown_delay_secs == 30,
    {
        LifecycleOptions {
            is_persistent: true,
            idle_timeout_secs: 300,
            idle_timeout_poll_interval_secs: 10,
            max_runtime_secs: 3600,
            max_shutdown_delay_secs: 30,
        }
    }
}

/// Cache bounds.
#[derive(Debug, Clone, Copy)]
pub struct CacheCapacities {
    pub workflows: u64,
    pub configs: u64,
}

impl Default for CacheCapacities {
    fn default() -> (r: Self)
        ensures
            r.workflows == 100,
            r.configs == 100,
    {
        CacheCapacities { workflows: 100, configs: 100 }
    }
}

/// Storage configuration.
#[derive(Debug)]
pub struct StorageOptions {
    pub layout: StorageLayout,
    pub cache_capacities: CacheCapacities,
}

impl Default for StorageOptions {
    fn default() -> (r: Self)
        ensures
            r.layout.base_dir@ == "/etc/ajime"@,
            r.cache_capacities.workflows == 100,
    {
        StorageOptions { layout: StorageLayout::default(), cache_capacities: CacheCapacities::default() }
    }
}

/// Local HTTP server binding.
#[derive(Debug)]
pub struct ServerOptions {
    pub host: String,
    pub port: u16,
}

impl Default for ServerOptions {
    fn default() -> (r: Self)
        ensures
            r.host@ == "127.0.0.1"@,
            r.port == 8080,
    {
        ServerOptions { host: owned("127.0.0.1"), port: 8080 }
    }
}

/// Configuration of the whole agent.
#[derive(Debug)]
pub struct AppOptions {
    pub lifecycle: LifecycleOptions,
    pub backend_base_url: String,
    pub storage: StorageOptions,
    pub enable_socket_server: bool,
    pub enable_mqtt_worker: bool,
    pub enable_poller: bool,
    pub enable_relay_worker: bool,
    pub enable_deployer: bool,
    pub server: ServerOptions,
    pub mqtt_worker: crate::workers::mqtt::Options,
    pub poller: crate::workers::poller::Options,
    pub token_refresh_worker: crate::workers::token_refresh::Options,
    pub relay_worker: crate::workers::relay::Options,
    pub deployer: crate::workers::deployer::Options,
    pub fsm_settings: FsmSettings,
}

impl Default for AppOptions {
    fn default() -> (r: Self)
        ensures
            r.backend_base_url@ == "https://api.ajime.io/agent/v1"@,
            r.lifecycle.is_persistent,
            r.lifecycle.max_shutdown_delay_secs == 30,
            r.enable_socket_server && r.enable_mqtt_worker && r.enable_poller,
            r.enable_relay_worker && r.enable_deployer,
            r.storage.cache_capacities.workflows == 100,
    {
        AppOptions {
            lifecycle: LifecycleOptions::default(),
            backend_base_url: owned("https://api.ajime.io/agent/v1"),
            storage: StorageOptions::default(),
            enable_socket_server: true,
            enable_mqtt_worker: true,
            enable_poller: true,
            enable_relay_worker: true,
            enable_deployer: true,
            server: ServerOptions::default(),
            mqtt_worker: crate::workers::mqtt::Options::default(),
            poller: crate::workers::poller::Options::default(),
            token_refresh_worker: crate::workers::token_refresh::Options::default(),
            relay_worker: crate::workers::relay::Options::default(),
            deployer: crate::workers::deployer::Options::default(),
            fsm_settings: FsmSettings::default(),
        }
    }
}

} // verus!
