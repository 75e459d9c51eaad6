//! The packets of protocol versions 3.1 and 3.1.1, as the handlers see
//! them.

use vstd::prelude::*;
use crate::topic::TopicFilter;
use crate::topic::TopicName;
use crate::types::share;
use crate::types::MAX_REMAINING_LEN;
use crate::types::Payload;
use crate::types::Pid;
use crate::types::Protocol;
use crate::types::QoS;
use crate::types::QosPid;
use crate::types::SharedString;

verus! {

/// The message that is published when a connection ends abnormally.
#[derive(Debug)]
pub struct LastWill {
    pub qos: QoS,
    pub retain: bool,
    pub topic_name: TopicName,
    pub message: Payload,
}

/// CONNECT.
#[derive(Debug)]
pub struct Connect {
    pub protocol: Protocol,
    pub clean_session: bool,
    pub keep_alive: u16,
    pub client_id: SharedString,
    pub last_will: Option<LastWill>,
    pub username: Option<SharedString>,
    pub password: Option<Payload>,
}

/// The return code of a CONNACK.
#[derive(Debug, Clone, Copy, PartialEq, Eq, Structural)]
pub enum ConnectReturnCode {
    Accepted,
    UnacceptableProtocolVersion,
    IdentifierRejected,
    ServerUnavailable,
    BadUserNameOrPassword,
    NotAuthorized,
}

/// CONNACK.
#[derive(Debug, Clone, Copy, PartialEq, Eq, Structural)]
pub struct Connack {
    pub session_present: bool,
    pub code: ConnectReturnCode,
}

/// PUBLISH.
#[derive(Debug)]
pub struct Publish {
    pub dup: bool,
    pub retain: bool,
    pub qos_pid: QosPid,
    pub topic_name: TopicName,
    pub payload: Payload,
}

impl Clone for Publish {
    /// The same publish, sharing its topic and payload.
    fn clone(&self) -> (copy: Publish)
        ensures
            copy == *self,
    {
        Publish {
            dup: self.dup,
            retain: self.retain,
            qos_pid: self.qos_pid,
            topic_name: self.topic_name.clone(),
            payload: share(&self.payload),
        }
    }
}

/// SUBSCRIBE.
#[derive(Debug)]
pub struct Subscribe {
    pub pid: Pid,
    pub topics: Vec<(TopicFilter, QoS)>,
}

/// The return code of one filter in a SUBACK.
#[derive(Debug, Clone, Copy, PartialEq, Eq, Structural)]
pub enum SubscribeReturnCode {
    MaxLevel0,
    MaxLevel1,
    MaxLevel2,
    Failure,
}

impl SubscribeReturnCode {
    /// The code that grants a quality of service.
    pub open spec fn granted(qos: QoS) -> SubscribeReturnCode {
        match qos {
            QoS::Level0 => SubscribeReturnCode::MaxLevel0,
            QoS::Level1 => SubscribeReturnCode::MaxLevel1,
            QoS::Level2 => SubscribeReturnCode::MaxLevel2,
        }
    }

    /// The code that grants a quality of service.
    pub fn from_qos(qos: QoS) -> (code: SubscribeReturnCode)
        ensures
            code == Self::granted(qos),
    {
        match qos {
            QoS::Level0 => SubscribeReturnCode::MaxLevel0,
            QoS::Level1 => SubscribeReturnCode::MaxLevel1,
            QoS::Level2 => SubscribeReturnCode::MaxLevel2,
        }
    }
}

/// SUBACK.
#[derive(Debug)]
pub struct Suback {
    pub pid: Pid,
    pub topics: Vec<SubscribeReturnCode>,
}

/// UNSUBSCRIBE.
#[derive(Debug)]
pub struct Unsubscribe {
    pub pid: Pid,
    pub topics: Vec<TopicFilter>,
}

/// A packet of protocol version 3.1 or 3.1.1.
#[derive(Debug)]
pub enum Packet {
    Connect(Connect),
    Connack(Connack),
    Publish(Publish),
    Puback(Pid),
    Pubrec(Pid),
    Pubrel(Pid),
    Pubcomp(Pid),
    Subscribe(Subscribe),
    Suback(Suback),
    Unsubscribe(Unsubscribe),
    Unsuback(Pid),
    Pingreq,
    Pingresp,
    Disconnect,
}

/// The length of a PUBLISH behind its fixed header: the topic with its
/// two length bytes, the packet identifier where the quality of service
/// has one, and the payload.
pub open spec fn publish_remaining_len(qos: QoS, topic_len: int, payload_len: int) -> int {
    2 + topic_len + (if qos == QoS::Level0 {
        0int
    } else {
        2int
    }) + payload_len
}

/// The length of a whole packet whose part behind the fixed header has
/// `remaining` bytes: one byte for the packet type, one to four for the
/// remaining length, and the rest. No packet has more than
/// `MAX_REMAINING_LEN` bytes behind its fixed header.
pub open spec fn total_len(remaining: int) -> Option<int> {
    if remaining < 128 {
        Some(2 + remaining)
    } else if remaining < 16384 {
        Some(3 + remaining)
    } else if remaining < 2097152 {
        Some(4 + remaining)
    } else if remaining <= MAX_REMAINING_LEN {
        Some(5 + remaining)
    } else {
        None
    }
}

/// `mqtt_proto::v3::Packet::encode_len` of a PUBLISH that is made of these
/// parts: the length of the body as `publish_remaining_len` gives it, with
/// the fixed header that `mqtt_proto::total_len` adds, and `None` where
/// that function fails because the body is too long.
#[verifier::external_body]
pub(crate) fn publish_encode_len(retain: bool, qos: QoS, topic_name: &TopicName, payload: &Payload) -> (len:
    Option<usize>)
    ensures
        len is Some <==> total_len(
            publish_remaining_len(qos, topic_name.bytes().len() as int, payload@.len() as int),
        ) is Some,
        len matches Some(n) ==> Some(n as int) == total_len(
            publish_remaining_len(qos, topic_name.bytes().len() as int, payload@.len() as int),
        ),
{
    let qos_pid = match qos {
        QoS::Level0 => mqtt_proto::QosPid::Level0,
        QoS::Level1 => mqtt_proto::QosPid::Level1(mqtt_proto::Pid::default()),
        QoS::Level2 => mqtt_proto::QosPid::Level2(mqtt_proto::Pid::default()),
    };
    let topic_name = mqtt_proto::TopicName::try_from(topic_name.as_str().to_owned()).ok()?;
    let payload = bytes::Bytes::copy_from_slice(payload.as_slice());
    let publish = mqtt_proto::v3::Publish { dup: false, retain, qos_pid, topic_name, payload };
    mqtt_proto::v3::Packet::Publish(publish).encode_len().ok()
}

} // verus!
