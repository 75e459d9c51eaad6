//! The options of a broker that the sessions and the routing state read.

use vstd::prelude::*;
use crate::types::QoS;

verus! {

/// Which events are handed to the policy hook before they take effect.
#[derive(Debug, Clone, Copy, PartialEq, Eq, Structural)]
pub struct HookConfig {
    pub enable_before_connect: bool,
    pub enable_publish: bool,
    pub enable_subscribe: bool,
    pub enable_unsubscribe: bool,
}

/// The options of a broker.
#[derive(Debug, Clone, Copy, PartialEq, Eq, Structural)]
pub struct Config {
    /// How many outbound publishes of a session may be unacknowledged.
    pub max_inflight_client: u16,
    /// How many inbound QoS 2 publishes of a session may be incomplete.
    pub max_inflight_server: u16,
    /// How many outbound publishes may wait behind those in flight.
    pub max_in_mem_pending_messages: usize,
    /// Seconds after which an unacknowledged publish is sent again.
    pub inflight_timeout: u64,
    /// The largest packet the broker accepts, by encoded length.
    pub max_packet_size_server: u32,
    /// The largest packet the broker sends, unless the client asks for less.
    pub max_packet_size_client: u32,
    pub max_keep_alive: u16,
    pub min_keep_alive: u16,
    pub allow_anonymous: bool,
    pub check_v3_id_length: bool,
    /// The highest quality of service a subscription is granted.
    pub max_allowed_qos: QoS,
    /// Whether a connection may take over a session of the other protocol family.
    pub allow_cross_version_takeover: bool,
    pub hook: HookConfig,
    pub shared_subscription_available: bool,
    pub subscription_id_available: bool,
    pub wildcard_subscription_available: bool,
    pub retain_available: bool,
    /// The highest topic alias a version 5.0 client may use.
    pub topic_alias_max: u16,
}

impl Default for HookConfig {
    /// No event goes to the hook.
    fn default() -> (config: HookConfig)
        ensures
            config == (HookConfig {
                enable_before_connect: false,
                enable_publish: false,
                enable_subscribe: false,
                enable_unsubscribe: false,
            }),
    {
        HookConfig {
            enable_before_connect: false,
            enable_publish: false,
            enable_subscribe: false,
            enable_unsubscribe: false,
        }
    }
}

impl Default for Config {
    /// The options of a broker that nobody configured.
    fn default() -> (config: Config)
        ensures
            config.max_inflight_client == 10,
            config.max_inflight_server == 10,
            config.max_in_mem_pending_messages == 256,
            config.inflight_timeout == 15,
            config.max_packet_size_server == 268435455,
            config.max_packet_size_client == 268435455,
            config.max_allowed_qos == QoS::Level2,
            !config.hook.enable_before_connect,
            !config.hook.enable_publish,
            !config.hook.enable_subscribe,
            !config.hook.enable_unsubscribe,
            config.topic_alias_max == 65535,
            config.retain_available,
            config.allow_anonymous,
            !config.allow_cross_version_takeover,
    {
        Config {
            max_inflight_client: 10,
            max_inflight_server: 10,
            max_in_mem_pending_messages: 256,
            inflight_timeout: 15,
            max_packet_size_server: 268435455,
            max_packet_size_client: 268435455,
            max_keep_alive: 65535,
            min_keep_alive: 10,
            allow_anonymous: true,
            check_v3_id_length: false,
            max_allowed_qos: QoS::Level2,
            allow_cross_version_takeover: false,
            hook: HookConfig::default(),
            shared_subscription_available: true,
            subscription_id_available: true,
            wildcard_subscription_available: true,
            retain_available: true,
            topic_alias_max: 65535,
        }
    }
}

} // verus!
