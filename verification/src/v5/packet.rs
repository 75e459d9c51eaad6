//! The packets of protocol version 5.0, as the handlers see them.

use vstd::prelude::*;
use crate::topic::TopicFilter;
use crate::topic::TopicName;
use crate::types::share;
use crate::types::Payload;
use crate::types::Pid;
use crate::types::Protocol;
use crate::types::QosPid;
use crate::types::QoS;
use crate::types::SharedString;
use crate::v5::types::DisconnectReasonCode;
use crate::v5::types::PubackReasonCode;
use crate::v5::types::PubcompReasonCode;
use crate::v5::types::PublishProperties;
use crate::v5::types::PubrecReasonCode;
use crate::v5::types::PubrelReasonCode;
use crate::v5::types::SubscribeReasonCode;
use crate::v5::types::SubscriptionOptions;
use crate::v5::types::UnsubscribeReasonCode;
use crate::v5::types::UserProperty;
use std::sync::Arc;

verus! {

/// The properties of a will.
#[derive(Debug)]
pub struct WillProperties {
    pub delay_interval: Option<u32>,
    pub payload_is_utf8: Option<bool>,
    pub message_expiry_interval: Option<u32>,
    pub content_type: Option<SharedString>,
    pub response_topic: Option<TopicName>,
    pub correlation_data: Option<Payload>,
    pub user_properties: Arc<Vec<UserProperty>>,
}

/// The message that is published when a connection ends abnormally.
#[derive(Debug)]
pub struct LastWill {
    pub qos: QoS,
    pub retain: bool,
    pub topic_name: TopicName,
    pub payload: Payload,
    pub properties: WillProperties,
}

/// The properties of a CONNECT that the session keeps.
#[derive(Debug)]
pub struct ConnectProperties {
    pub session_expiry_interval: Option<u32>,
    pub receive_max: Option<u16>,
    pub max_packet_size: Option<u32>,
    pub topic_alias_max: Option<u16>,
    pub request_response_info: Option<bool>,
    pub request_problem_info: Option<bool>,
    pub user_properties: Vec<UserProperty>,
    pub auth_method: Option<SharedString>,
}

/// CONNECT.
#[derive(Debug)]
pub struct Connect {
    pub protocol: Protocol,
    pub clean_start: bool,
    pub keep_alive: u16,
    pub properties: ConnectProperties,
    pub client_id: SharedString,
    pub last_will: Option<LastWill>,
    pub username: Option<SharedString>,
    pub password: Option<Payload>,
}

/// PUBLISH.
#[derive(Debug)]
pub struct Publish {
    pub dup: bool,
    pub retain: bool,
    pub qos_pid: QosPid,
    pub topic_name: TopicName,
    pub payload: Payload,
    pub properties: PublishProperties,
}

impl Clone for Publish {
    /// The same publish, sharing what it points to.
    fn clone(&self) -> (copy: Publish)
        ensures
            copy == *self,
    {
        Publish {
            dup: self.dup,
            retain: self.retain,
            qos_pid: self.qos_pid,
            topic_name: self.topic_name.clone(),
            payload: share(&self.payload),
            properties: self.properties.clone(),
        }
    }
}

/// PUBACK.
#[derive(Debug, Clone, Copy, PartialEq, Eq, Structural)]
pub struct Puback {
    pub pid: Pid,
    pub reason_code: PubackReasonCode,
}

/// PUBREC.
#[derive(Debug, Clone, Copy, PartialEq, Eq, Structural)]
pub struct Pubrec {
    pub pid: Pid,
    pub reason_code: PubrecReasonCode,
}

/// PUBREL.
#[derive(Debug, Clone, Copy, PartialEq, Eq, Structural)]
pub struct Pubrel {
    pub pid: Pid,
    pub reason_code: PubrelReasonCode,
}

/// PUBCOMP.
#[derive(Debug, Clone, Copy, PartialEq, Eq, Structural)]
pub struct Pubcomp {
    pub pid: Pid,
    pub reason_code: PubcompReasonCode,
}

/// SUBSCRIBE.
#[derive(Debug)]
pub struct Subscribe {
    pub pid: Pid,
    /// The subscription identifier, if the client gave one.
    pub subscription_id: Option<u32>,
    pub topics: Vec<(TopicFilter, SubscriptionOptions)>,
}

/// SUBACK.
#[derive(Debug)]
pub struct Suback {
    pub pid: Pid,
    pub topics: Vec<SubscribeReasonCode>,
}

/// UNSUBSCRIBE.
#[derive(Debug)]
pub struct Unsubscribe {
    pub pid: Pid,
    pub topics: Vec<TopicFilter>,
}

/// UNSUBACK.
#[derive(Debug)]
pub struct Unsuback {
    pub pid: Pid,
    pub topics: Vec<UnsubscribeReasonCode>,
}

/// DISCONNECT.
#[derive(Debug, Clone, Copy, PartialEq, Eq, Structural)]
pub struct Disconnect {
    pub reason_code: DisconnectReasonCode,
    /// The session expiry interval that the client sets on leaving.
    pub session_expiry_interval: Option<u32>,
}

impl Disconnect {
    /// The DISCONNECT with a reason code and nothing else.
    pub fn new(reason_code: DisconnectReasonCode) -> (packet: Disconnect)
        ensures
            packet == (Disconnect { reason_code, session_expiry_interval: None }),
    {
        Disconnect { reason_code, session_expiry_interval: None }
    }
}

/// A packet of protocol version 5.0.
#[derive(Debug)]
pub enum Packet {
    Connect(Connect),
    Publish(Publish),
    Puback(Puback),
    Pubrec(Pubrec),
    Pubrel(Pubrel),
    Pubcomp(Pubcomp),
    Subscribe(Subscribe),
    Suback(Suback),
    Unsubscribe(Unsubscribe),
    Unsuback(Unsuback),
    Pingreq,
    Pingresp,
    Disconnect(Disconnect),
}

} // verus!
