//! The values of protocol version 5.0 that sessions and routing state hold.

use vstd::prelude::*;
use std::sync::Arc;
use crate::topic::TopicName;
use crate::types::share;
use crate::types::share_opt;
use crate::types::Payload;
use crate::types::QoS;
use crate::types::SharedString;

verus! {

/// When retained messages are sent for a subscription.
#[derive(Debug, Clone, Copy, PartialEq, Eq, Structural)]
pub enum RetainHandling {
    SendAtSubscribe,
    SendAtSubscribeIfNotExist,
    DoNotSend,
}

/// The options of one subscription.
#[derive(Debug, Clone, Copy, PartialEq, Eq, Structural)]
pub struct SubscriptionOptions {
    pub max_qos: QoS,
    pub no_local: bool,
    pub retain_as_published: bool,
    pub retain_handling: RetainHandling,
}

impl SubscriptionOptions {
    /// The options of a subscription that names only a quality of service.
    pub fn new(max_qos: QoS) -> (options: SubscriptionOptions)
        ensures
            options == (SubscriptionOptions {
                max_qos,
                no_local: false,
                retain_as_published: true,
                retain_handling: RetainHandling::SendAtSubscribe,
            }),
    {
        SubscriptionOptions {
            max_qos,
            no_local: false,
            retain_as_published: true,
            retain_handling: RetainHandling::SendAtSubscribe,
        }
    }
}

/// A name and a value that a client attached to a packet.
#[derive(Debug)]
pub struct UserProperty {
    pub name: SharedString,
    pub value: SharedString,
}

/// The properties of a publish.
#[derive(Debug)]
pub struct PublishProperties {
    pub payload_is_utf8: Option<bool>,
    pub message_expiry_interval: Option<u32>,
    pub topic_alias: Option<u16>,
    pub response_topic: Option<TopicName>,
    pub correlation_data: Option<Payload>,
    pub user_properties: Arc<Vec<UserProperty>>,
    pub subscription_id: Option<u32>,
    pub content_type: Option<SharedString>,
}

impl Clone for PublishProperties {
    /// The same properties, sharing what they point to.
    fn clone(&self) -> (copy: PublishProperties)
        ensures
            copy == *self,
    {
        PublishProperties {
            payload_is_utf8: self.payload_is_utf8,
            message_expiry_interval: self.message_expiry_interval,
            topic_alias: self.topic_alias,
            response_topic: match &self.response_topic {
                Some(t) => Some(t.clone()),
                None => None,
            },
            correlation_data: share_opt(&self.correlation_data),
            user_properties: share(&self.user_properties),
            subscription_id: self.subscription_id,
            content_type: share_opt(&self.content_type),
        }
    }
}

impl Default for PublishProperties {
    /// No property at all.
    fn default() -> (properties: PublishProperties)
        ensures
            properties.payload_is_utf8 is None,
            properties.message_expiry_interval is None,
            properties.topic_alias is None,
            properties.response_topic is None,
            properties.correlation_data is None,
            properties.user_properties@.len() == 0,
            properties.subscription_id is None,
            properties.content_type is None,
    {
        PublishProperties {
            payload_is_utf8: None,
            message_expiry_interval: None,
            topic_alias: None,
            response_topic: None,
            correlation_data: None,
            user_properties: Arc::new(Vec::new()),
            subscription_id: None,
            content_type: None,
        }
    }
}

/// The reason code of a CONNACK.
#[derive(Debug, Clone, Copy, PartialEq, Eq, Structural)]
pub enum ConnectReasonCode {
    Success,
    UnspecifiedError,
    MalformedPacket,
    ProtocolError,
    ImplementationSpecificError,
    UnsupportedProtocolVersion,
    ClientIdentifierNotValid,
    BadUserNameOrPassword,
    NotAuthorized,
    ServerUnavailable,
    ServerBusy,
    Banned,
    BadAuthMethod,
    TopicNameInvalid,
    PacketTooLarge,
    QuotaExceeded,
    PayloadFormatInvalid,
    RetainNotSupported,
    QoSNotSupported,
    UseAnotherServer,
    ServerMoved,
    ConnectionRateExceeded,
}

/// The reason code of a PUBACK.
#[derive(Debug, Clone, Copy, PartialEq, Eq, Structural)]
pub enum PubackReasonCode {
    Success,
    NoMatchingSubscribers,
    UnspecifiedError,
    ImplementationSpecificError,
    NotAuthorized,
    TopicNameInvalid,
    PacketIdentifierInUse,
    QuotaExceeded,
    PayloadFormatInvalid,
}

/// The reason code of a PUBREC.
#[derive(Debug, Clone, Copy, PartialEq, Eq, Structural)]
pub enum PubrecReasonCode {
    Success,
    NoMatchingSubscribers,
    UnspecifiedError,
    ImplementationSpecificError,
    NotAuthorized,
    TopicNameInvalid,
    PacketIdentifierInUse,
    QuotaExceeded,
    PayloadFormatInvalid,
}

/// The reason code of a PUBREL.
#[derive(Debug, Clone, Copy, PartialEq, Eq, Structural)]
pub enum PubrelReasonCode {
    Success,
    PacketIdentifierNotFound,
}

/// The reason code of a PUBCOMP.
#[derive(Debug, Clone, Copy, PartialEq, Eq, Structural)]
pub enum PubcompReasonCode {
    Success,
    PacketIdentifierNotFound,
}

/// The reason code of one filter in a SUBACK.
#[derive(Debug, Clone, Copy, PartialEq, Eq, Structural)]
pub enum SubscribeReasonCode {
    GrantedQoS0,
    GrantedQoS1,
    GrantedQoS2,
    UnspecifiedError,
    ImplementationSpecificError,
    NotAuthorized,
    TopicFilterInvalid,
    PacketIdentifierInUse,
    QuotaExceeded,
    SharedSubscriptionNotSupported,
    SubscriptionIdentifiersNotSupported,
    WildcardSubscriptionsNotSupported,
}

/// The reason code of one filter in an UNSUBACK.
#[derive(Debug, Clone, Copy, PartialEq, Eq, Structural)]
pub enum UnsubscribeReasonCode {
    Success,
    NoSubscriptionExisted,
    UnspecifiedError,
    ImplementationSpecificError,
    NotAuthorized,
    TopicFilterInvalid,
    PacketIdentifierInUse,
}

/// The reason code of a DISCONNECT.
#[derive(Debug, Clone, Copy, PartialEq, Eq, Structural)]
pub enum DisconnectReasonCode {
    NormalDisconnect,
    DisconnectWithWillMessage,
    UnspecifiedError,
    MalformedPacket,
    ProtocolError,
    ImplementationSpecificError,
    NotAuthorized,
    ServerBusy,
    ServerShuttingDown,
    KeepAliveTimeout,
    SessionTakenOver,
    TopicFilterInvalid,
    TopicNameInvalid,
    ReceiveMaximumExceeded,
    TopicAliasInvalid,
    PacketTooLarge,
    MessageRateTooHigh,
    QuotaExceeded,
    AdministrativeAction,
    PayloadFormatInvalid,
    RetainNotSupported,
    QoSNotSupported,
    UseAnotherServer,
    ServerMoved,
    SharedSubscriptionNotSupported,
    ConnectionRateExceeded,
    MaximumConnectTime,
    SubscriptionIdentifiersNotSupported,
    WildcardSubscriptionsNotSupported,
}

} // verus!
