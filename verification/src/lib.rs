//! The core of an MQTT broker: the state of each connection for protocol
//! versions 3.1, 3.1.1 and 5.0, the state that all connections share
//! (subscriptions, retained messages, the registry of clients), and the
//! decisions around the policy hook. Nothing here reads or writes a
//! socket: the handlers take a session, a packet and the shared state,
//! and leave behind packets to write and deliveries for other sessions.
//! Every function carries a contract. The verifier proves each, but for
//! the few calls into other crates, whose contracts it takes on trust.
//!
//! - [`topic`], [`types`], [`config`], [`fingerprint`]: the values that
//!   everything else is made of.
//! - [`pending`]: the queue of outbound publishes that await an
//!   acknowledgement.
//! - [`route`], [`retain`], [`state`]: the shared state.
//! - [`collections`]: the hash maps of a session.
//! - [`v3`], [`v5`]: the sessions and the packet handlers of each
//!   protocol version.
//! - [`online`]: what the loop of a connection decides.
//! - [`hook`]: the policy hook.
//! - [`laws`]: what holds across operations.

pub mod collections;
pub mod config;
pub mod fingerprint;
pub mod hook;
pub mod laws;
pub mod online;
pub mod pending;
pub mod retain;
pub mod route;
pub mod state;
pub mod topic;
pub mod types;
pub mod v3;
pub mod v5;
