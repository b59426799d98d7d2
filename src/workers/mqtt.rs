//! MQTT worker: status publishing over the broker.

use vstd::prelude::*;
use crate::models::MqttAddress;

verus! {

/// MQTT worker options.
#[derive(Debug)]
pub struct Options {
    pub broker_address: MqttAddress,
    pub reconnect_delay_secs: u64,
    pub max_reconnect_attempts: u32,
    pub status_interval_secs: u64,
}

impl Default for Options {
    fn default() -> (r: Self)
        ensures
            r.broker_address.port == 8883,
            r.reconnect_delay_secs == 5,
            r.max_reconnect_attempts == 10,
            r.status_interval_secs == 60,
    {
        Options {
            broker_address: MqttAddress::default(),
            reconnect_delay_secs: 5,
            max_reconnect_attempts: 10,
            status_interval_secs: 60,
        }
    }
}

} // verus!
