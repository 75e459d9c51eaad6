//! The policy hook: what a handler may answer, what it may ask for on
//! connect, and what the broker does with a packet once the handler has
//! spoken.

use vstd::prelude::*;
use std::collections::VecDeque;
use crate::online::queue_packets;
use crate::online::queued;
use crate::online::OnlineSession;
use crate::online::WritePacket;
use crate::state::GlobalState;
use crate::topic::TopicFilter;
use crate::topic::TopicName;
use crate::types::ErrorKind;
use crate::types::Payload;
use crate::types::PeerAddr;
use crate::types::QoS;
use crate::types::QosPid;
use crate::types::SharedString;
use crate::v3;
use crate::v3::packet::ConnectReturnCode;
use crate::v3::session::Session as SessionV3;
use crate::v5;
use crate::v5::session::Session as SessionV5;
use crate::v5::types::ConnectReasonCode;
use crate::v5::types::PubackReasonCode;
use crate::v5::types::PubrecReasonCode;
use crate::v5::types::SubscribeReasonCode;

verus! {

/// What the handling of a hooked packet reports back to the loop of the
/// connection: done, or the connection is to end, with or without an
/// error.
pub type HookResult = Result<(), Option<ErrorKind>>;

/// The answer of a handler to a CONNECT.
#[derive(Debug, Clone, Copy, PartialEq, Eq, Structural)]
pub enum HookConnectCode {
    Success,
    ClientIdentifierNotValid,
    ServerUnavailable,
    BadUserNameOrPassword,
    NotAuthorized,
}

impl HookConnectCode {
    /// The reason code of the version 5.0 CONNACK for this answer.
    pub open spec fn spec_v5_code(self) -> ConnectReasonCode {
        match self {
            Self::Success => ConnectReasonCode::Success,
            Self::ClientIdentifierNotValid => ConnectReasonCode::ClientIdentifierNotValid,
            Self::ServerUnavailable => ConnectReasonCode::ServerUnavailable,
            Self::BadUserNameOrPassword => ConnectReasonCode::BadUserNameOrPassword,
            Self::NotAuthorized => ConnectReasonCode::NotAuthorized,
        }
    }

    /// The return code of the version 3.x CONNACK for this answer.
    pub open spec fn spec_v3_code(self) -> ConnectReturnCode {
        match self {
            Self::Success => ConnectReturnCode::Accepted,
            Self::ClientIdentifierNotValid => ConnectReturnCode::IdentifierRejected,
            Self::ServerUnavailable => ConnectReturnCode::ServerUnavailable,
            Self::BadUserNameOrPassword => ConnectReturnCode::BadUserNameOrPassword,
            Self::NotAuthorized => ConnectReturnCode::NotAuthorized,
        }
    }

    /// The reason code of the version 5.0 CONNACK for this answer.
    #[verifier::when_used_as_spec(spec_v5_code)]
    pub fn to_v5_code(self) -> (code: ConnectReasonCode)
        ensures
            code == self.spec_v5_code(),
    {
        match self {
            Self::Success => ConnectReasonCode::Success,
            Self::ClientIdentifierNotValid => ConnectReasonCode::ClientIdentifierNotValid,
            Self::ServerUnavailable => ConnectReasonCode::ServerUnavailable,
            Self::BadUserNameOrPassword => ConnectReasonCode::BadUserNameOrPassword,
            Self::NotAuthorized => ConnectReasonCode::NotAuthorized,
        }
    }

    /// The return code of the version 3.x CONNACK for this answer.
    #[verifier::when_used_as_spec(spec_v3_code)]
    pub fn to_v3_code(self) -> (code: ConnectReturnCode)
        ensures
            code == self.spec_v3_code(),
    {
        match self {
            Self::Success => ConnectReturnCode::Accepted,
            Self::ClientIdentifierNotValid => ConnectReturnCode::IdentifierRejected,
            Self::ServerUnavailable => ConnectReturnCode::ServerUnavailable,
            Self::BadUserNameOrPassword => ConnectReturnCode::BadUserNameOrPassword,
            Self::NotAuthorized => ConnectReturnCode::NotAuthorized,
        }
    }
}

/// Something a handler asks the broker to do for a client that has just
/// connected.
#[derive(Debug)]
pub enum HookConnectedAction {
    Publish(PublishAction),
    Subscribe(SubscribeAction),
    Unsubscribe(UnsubscribeAction),
}

/// Publish a message.
#[derive(Debug)]
pub struct PublishAction {
    pub retain: bool,
    pub qos: QoS,
    pub topic_name: TopicName,
    pub payload: Payload,
    pub payload_is_utf8: Option<bool>,
    pub message_expiry_interval: Option<u32>,
    pub content_type: Option<SharedString>,
}

/// Subscribe to some topic filters (retained messages are not sent).
#[derive(Debug)]
pub struct SubscribeAction(pub Vec<(TopicFilter, QoS)>);

/// Unsubscribe from some topic filters.
#[derive(Debug)]
pub struct UnsubscribeAction(pub Vec<TopicFilter>);

/// The answer of a handler to a PUBLISH.
#[derive(Debug, Clone, Copy, PartialEq, Eq, Structural)]
pub enum HookPublishCode {
    Success,
    NotAuthorized,
    TopicNameInvalid,
    QuotaExceeded,
}

impl HookPublishCode {
    /// The reason code of the PUBACK for this answer.
    pub open spec fn spec_v5_puback_code(self) -> PubackReasonCode {
        match self {
            Self::Success => PubackReasonCode::Success,
            Self::NotAuthorized => PubackReasonCode::NotAuthorized,
            Self::TopicNameInvalid => PubackReasonCode::TopicNameInvalid,
            Self::QuotaExceeded => PubackReasonCode::QuotaExceeded,
        }
    }

    /// The reason code of the PUBREC for this answer.
    pub open spec fn spec_v5_pubrec_code(self) -> PubrecReasonCode {
        match self {
            Self::Success => PubrecReasonCode::Success,
            Self::NotAuthorized => PubrecReasonCode::NotAuthorized,
            Self::TopicNameInvalid => PubrecReasonCode::TopicNameInvalid,
            Self::QuotaExceeded => PubrecReasonCode::QuotaExceeded,
        }
    }

    /// The reason code of the PUBACK for this answer.
    #[verifier::when_used_as_spec(spec_v5_puback_code)]
    pub fn to_v5_puback_code(self) -> (code: PubackReasonCode)
        ensures
            code == self.spec_v5_puback_code(),
    {
        match self {
            Self::Success => PubackReasonCode::Success,
            Self::NotAuthorized => PubackReasonCode::NotAuthorized,
            Self::TopicNameInvalid => PubackReasonCode::TopicNameInvalid,
            Self::QuotaExceeded => PubackReasonCode::QuotaExceeded,
        }
    }

    /// The reason code of the PUBREC for this answer.
    #[verifier::when_used_as_spec(spec_v5_pubrec_code)]
    pub fn to_v5_pubrec_code(self) -> (code: PubrecReasonCode)
        ensures
            code == self.spec_v5_pubrec_code(),
    {
        match self {
            Self::Success => PubrecReasonCode::Success,
            Self::NotAuthorized => PubrecReasonCode::NotAuthorized,
            Self::TopicNameInvalid => PubrecReasonCode::TopicNameInvalid,
            Self::QuotaExceeded => PubrecReasonCode::QuotaExceeded,
        }
    }
}

/// The session of a connection and the queue of what is to be written to
/// it, lent to the hook for one request. The loop of the connection
/// gives both away when it makes the context and has them again only
/// when it takes the context apart: while the request is open, nothing
/// but the hook can touch them.
pub struct LockedHookContext<S: OnlineSession> {
    session: S,
    write_packets: VecDeque<WritePacket<S::Packet>>,
}

impl<S: OnlineSession> LockedHookContext<S> {
    /// The session in the context.
    pub closed spec fn session(&self) -> S {
        self.session
    }

    /// The queue in the context.
    pub closed spec fn write_packets(&self) -> VecDeque<WritePacket<S::Packet>> {
        self.write_packets
    }

    /// Lends a session and its queue to the hook.
    pub fn new(session: S, write_packets: VecDeque<WritePacket<S::Packet>>) -> (context:
        LockedHookContext<S>)
        ensures
            context.session() == session,
            context.write_packets() == write_packets,
    {
        LockedHookContext { session, write_packets }
    }

    /// The session, to read.
    pub fn session_ref(&self) -> (session: &S)
        ensures
            *session == self.session(),
    {
        &self.session
    }

    /// The session and the queue, to change.
    pub fn get_mut(&mut self) -> (parts: (&mut S, &mut VecDeque<WritePacket<S::Packet>>))
        ensures
            *parts.0 == old(self).session(),
            *parts.1 == old(self).write_packets(),
            final(self).session() == *final(parts.0),
            final(self).write_packets() == *final(parts.1),
    {
        (&mut self.session, &mut self.write_packets)
    }

    /// Ends the loan: the session and the queue as the hook left them.
    pub fn into_inner(self) -> (parts: (S, VecDeque<WritePacket<S::Packet>>))
        ensures
            parts.0 == self.session(),
            parts.1 == self.write_packets(),
    {
        (self.session, self.write_packets)
    }
}

/// The policy handler that a broker is run with. The broker asks it
/// before a CONNECT, a PUBLISH, a SUBSCRIBE or an UNSUBSCRIBE takes
/// effect, and tells it afterwards. It may change the packet that it is
/// asked about. Nothing is known of what an implementation answers.
pub trait Hook {
    fn v5_before_connect(&self, peer: PeerAddr, connect: &v5::packet::Connect) -> HookConnectCode;

    fn v5_after_connect(&self, session: &SessionV5, session_present: bool) -> Vec<HookConnectedAction>;

    fn v5_before_publish(
        &self,
        session: &SessionV5,
        encode_len: usize,
        packet_body: &Vec<u8>,
        publish: &mut v5::packet::Publish,
    ) -> HookPublishCode;

    fn v5_before_subscribe(
        &self,
        session: &SessionV5,
        encode_len: usize,
        packet_body: &Vec<u8>,
        subscribe: &mut v5::packet::Subscribe,
    );

    fn v5_after_subscribe(
        &self,
        session: &SessionV5,
        encode_len: usize,
        packet_body: &Vec<u8>,
        subscribe: &v5::packet::Subscribe,
        codes: Option<Vec<SubscribeReasonCode>>,
    );

    fn v5_before_unsubscribe(
        &self,
        session: &SessionV5,
        encode_len: usize,
        packet_body: &Vec<u8>,
        unsubscribe: &mut v5::packet::Unsubscribe,
    );

    fn v5_after_unsubscribe(
        &self,
        session: &SessionV5,
        encode_len: usize,
        packet_body: &Vec<u8>,
        unsubscribe: &v5::packet::Unsubscribe,
    );

    fn v3_before_connect(&self, peer: PeerAddr, connect: &v3::packet::Connect) -> HookConnectCode;

    fn v3_after_connect(&self, session: &SessionV3, session_present: bool) -> Vec<HookConnectedAction>;

    fn v3_before_publish(
        &self,
        session: &SessionV3,
        encode_len: usize,
        packet_body: &Vec<u8>,
        publish: &mut v3::packet::Publish,
    ) -> HookPublishCode;

    fn v3_before_subscribe(
        &self,
        session: &SessionV3,
        encode_len: usize,
        packet_body: &Vec<u8>,
        subscribe: &mut v3::packet::Subscribe,
    );

    fn v3_after_subscribe(
        &self,
        session: &SessionV3,
        encode_len: usize,
        packet_body: &Vec<u8>,
        subscribe: &v3::packet::Subscribe,
        codes: Option<Vec<v3::packet::SubscribeReturnCode>>,
    );

    fn v3_before_unsubscribe(
        &self,
        session: &SessionV3,
        encode_len: usize,
        packet_body: &Vec<u8>,
        unsubscribe: &mut v3::packet::Unsubscribe,
    );

    fn v3_after_unsubscribe(
        &self,
        session: &SessionV3,
        encode_len: usize,
        packet_body: &Vec<u8>,
        unsubscribe: &v3::packet::Unsubscribe,
    );
}

/// A request to the hook.
#[allow(inconsistent_fields)]
pub enum HookRequest {
    V5BeforeConnect { peer: PeerAddr, connect: v5::packet::Connect },
    V5AfterConnect { context: LockedHookContext<SessionV5>, session_present: bool },
    V5Publish {
        context: LockedHookContext<SessionV5>,
        encode_len: usize,
        packet_body: Vec<u8>,
        publish: v5::packet::Publish,
    },
    V5Subscribe {
        context: LockedHookContext<SessionV5>,
        encode_len: usize,
        packet_body: Vec<u8>,
        subscribe: v5::packet::Subscribe,
    },
    V5Unsubscribe {
        context: LockedHookContext<SessionV5>,
        encode_len: usize,
        packet_body: Vec<u8>,
        unsubscribe: v5::packet::Unsubscribe,
    },
    V3BeforeConnect { peer: PeerAddr, connect: v3::packet::Connect },
    V3AfterConnect { context: LockedHookContext<SessionV3>, session_present: bool },
    V3Publish {
        context: LockedHookContext<SessionV3>,
        encode_len: usize,
        packet_body: Vec<u8>,
        publish: v3::packet::Publish,
    },
    V3Subscribe {
        context: LockedHookContext<SessionV3>,
        encode_len: usize,
        packet_body: Vec<u8>,
        subscribe: v3::packet::Subscribe,
    },
    V3Unsubscribe {
        context: LockedHookContext<SessionV3>,
        encode_len: usize,
        packet_body: Vec<u8>,
        unsubscribe: v3::packet::Unsubscribe,
    },
}

/// What the hook sends back for a request. With it the loan of the
/// session and its queue ends.
pub enum HookResponse {
    /// The answer to a CONNECT.
    Connect(HookConnectCode),
    /// What is to be done for a version 5.0 client that has connected.
    V5Connected(LockedHookContext<SessionV5>, Vec<HookConnectedAction>),
    /// What is to be done for a version 3.x client that has connected.
    V3Connected(LockedHookContext<SessionV3>, Vec<HookConnectedAction>),
    /// A packet of a version 5.0 client was dealt with.
    V5Done(LockedHookContext<SessionV5>, HookResult),
    /// A packet of a version 3.x client was dealt with.
    V3Done(LockedHookContext<SessionV3>, HookResult),
}

/// What a version 5.0 PUBLISH that the handler refused with `code` is
/// answered with: nothing at QoS 0, else the PUBACK or PUBREC with the
/// reason.
pub open spec fn v5_refusal(publish: v5::packet::Publish, code: HookPublishCode) -> Option<
    v5::packet::Packet,
> {
    match publish.qos_pid {
        QosPid::Level0 => None,
        QosPid::Level1(pid) => Some(
            v5::packet::Packet::Puback(
                v5::packet::Puback { pid, reason_code: code.spec_v5_puback_code() },
            ),
        ),
        QosPid::Level2(pid) => Some(
            v5::packet::Packet::Pubrec(
                v5::packet::Pubrec { pid, reason_code: code.spec_v5_pubrec_code() },
            ),
        ),
    }
}

/// The write queue with one more packet, if there is one.
pub open spec fn pushed<P>(w: Seq<WritePacket<P>>, packet: Option<P>) -> Seq<WritePacket<P>> {
    match packet {
        Some(p) => w.push(WritePacket::Packet(p)),
        None => w,
    }
}

/// Whether `s1`, `w1` and `g1` are the session `s0`, the write queue `w0`
/// and the shared state `g0` after a version 5.0 PUBLISH was dealt with
/// that the handler answered with `code`. With `Success` the PUBLISH is
/// handled as the session handles any, and what answers it, be it an
/// acknowledgement or the DISCONNECT that closes the connection, is
/// queued for writing. With any other answer nothing changes but the
/// queue, which gets the acknowledgement with the handler's reason.
pub open spec fn v5_publish_finished(
    s0: SessionV5,
    s1: SessionV5,
    w0: Seq<WritePacket<v5::packet::Packet>>,
    w1: Seq<WritePacket<v5::packet::Packet>>,
    g0: GlobalState,
    g1: GlobalState,
    publish: v5::packet::Publish,
    encode_len: usize,
    code: HookPublishCode,
) -> bool {
    if code == HookPublishCode::Success {
        exists|answer: Result<Option<v5::packet::Packet>, v5::packet::Packet>|
            #[trigger] v5::publish::publish_handled(s0, s1, g0, g1, publish, encode_len, answer) && w1
                == (match answer {
                Ok(reply) => pushed(w0, reply),
                Err(close) => w0.push(WritePacket::Packet(close)),
            })
    } else {
        s1 == s0 && g1 == g0 && w1 == pushed(w0, v5_refusal(publish, code))
    }
}

/// Deals with a version 5.0 PUBLISH after the handler has answered: see
/// [`v5_publish_finished`]. The loop of the connection goes on in any
/// case.
pub fn v5_finish_publish(
    session: &mut SessionV5,
    write_packets: &mut VecDeque<WritePacket<v5::packet::Packet>>,
    publish: v5::packet::Publish,
    encode_len: usize,
    code: HookPublishCode,
    global: &mut GlobalState,
) -> (result: HookResult)
    requires
        old(session).wf(),
        old(global).wf(),
    ensures
        final(session).wf(),
        final(global).wf(),
        result == Ok::<(), Option<ErrorKind>>(()),
        v5_publish_finished(
            *old(session),
            *final(session),
            old(write_packets)@,
            final(write_packets)@,
            *old(global),
            *final(global),
            publish,
            encode_len,
            code,
        ),
{
    match code {
        HookPublishCode::Success => {
            let answer = v5::publish::handle_publish(session, publish, encode_len, global);
            assert(v5::publish::publish_handled(
                *old(session),
                *session,
                *old(global),
                *global,
                publish,
                encode_len,
                answer,
            ));
            match answer {
                Ok(None) => {},
                Ok(Some(packet)) => {
                    write_packets.push_back(WritePacket::Packet(packet));
                },
                Err(close) => {
                    write_packets.push_back(WritePacket::Packet(close));
                },
            }
        },
        _ => {
            match publish.qos_pid {
                QosPid::Level0 => {},
                QosPid::Level1(pid) => {
                    write_packets.push_back(
                        WritePacket::Packet(
                            v5::packet::Packet::Puback(
                                v5::packet::Puback { pid, reason_code: code.to_v5_puback_code() },
                            ),
                        ),
                    );
                },
                QosPid::Level2(pid) => {
                    write_packets.push_back(
                        WritePacket::Packet(
                            v5::packet::Packet::Pubrec(
                                v5::packet::Pubrec { pid, reason_code: code.to_v5_pubrec_code() },
                            ),
                        ),
                    );
                },
            }
        },
    }
    Ok(())
}

/// The reason codes of the SUBACK among `packets`: those of the last
/// SUBACK, or none if there is no SUBACK.
pub open spec fn v5_suback_codes(packets: Seq<v5::packet::Packet>) -> Seq<SubscribeReasonCode>
    decreases packets.len(),
{
    if packets.len() == 0 {
        Seq::<SubscribeReasonCode>::empty()
    } else {
        match packets.last() {
            v5::packet::Packet::Suback(suback) => suback.topics@,
            _ => v5_suback_codes(packets.drop_last()),
        }
    }
}

/// Whether `s1`, `w1` and `g1` are the session `s0`, the write queue `w0`
/// and the shared state `g0` after a version 5.0 SUBSCRIBE was dealt
/// with, and `codes` is what the handler is told afterwards. The
/// SUBSCRIBE is handled as the session handles any. What answers it is
/// queued for writing; the handler is told the reason codes of the
/// SUBACK, or nothing if the connection is closed over the SUBSCRIBE.
pub open spec fn v5_subscribe_finished(
    s0: SessionV5,
    s1: SessionV5,
    w0: Seq<WritePacket<v5::packet::Packet>>,
    w1: Seq<WritePacket<v5::packet::Packet>>,
    g0: GlobalState,
    g1: GlobalState,
    subscribe: v5::packet::Subscribe,
    codes: Option<Vec<SubscribeReasonCode>>,
) -> bool {
    exists|answer: Result<Vec<v5::packet::Packet>, v5::packet::Packet>|
        #[trigger] v5::subscribe::subscribe_handled(s0, s1, g0, g1, subscribe, answer) && (
        match answer {
            Ok(packets) => w1 == queued(w0, packets@) && (match codes {
                Some(c) => c@ == v5_suback_codes(packets@),
                None => false,
            }),
            Err(close) => w1 == w0.push(WritePacket::Packet(close)) && codes is None,
        })
}

/// A copy of a list of reason codes.
fn copy_codes<C: Copy>(codes: &Vec<C>) -> (copy: Vec<C>)
    ensures
        copy@ == codes@,
{
    let mut copy: Vec<C> = Vec::new();
    let mut i: usize = 0;
    while i < codes.len()
        invariant
            i <= codes.len(),
            copy@ == codes@.take(i as int),
        decreases codes.len() - i,
    {
        copy.push(codes[i]);
        assert(codes@.take(i + 1) =~= codes@.take(i as int).push(codes@[i as int]));
        i += 1;
    }
    assert(codes@.take(i as int) =~= codes@);
    copy
}

/// The reason codes of the SUBACK among version 5.0 packets.
fn v5_codes_among(packets: &Vec<v5::packet::Packet>) -> (codes: Vec<SubscribeReasonCode>)
    ensures
        codes@ == v5_suback_codes(packets@),
{
    let mut codes: Vec<SubscribeReasonCode> = Vec::new();
    let mut i: usize = 0;
    while i < packets.len()
        invariant
            i <= packets.len(),
            codes@ == v5_suback_codes(packets@.take(i as int)),
        decreases packets.len() - i,
    {
        proof {
            assert(packets@.take(i + 1).drop_last() =~= packets@.take(i as int));
        }
        match &packets[i] {
            v5::packet::Packet::Suback(suback) => {
                codes = copy_codes(&suback.topics);
            },
            _ => {},
        }
        i += 1;
    }
    assert(packets@.take(i as int) =~= packets@);
    codes
}

/// Deals with a version 5.0 SUBSCRIBE after the handler has seen it: see
/// [`v5_subscribe_finished`]. The result is what the handler is told
/// afterwards.
pub fn v5_finish_subscribe(
    session: &mut SessionV5,
    write_packets: &mut VecDeque<WritePacket<v5::packet::Packet>>,
    subscribe: &v5::packet::Subscribe,
    global: &mut GlobalState,
) -> (codes: Option<Vec<SubscribeReasonCode>>)
    requires
        old(session).wf(),
        old(global).wf(),
    ensures
        final(session).wf(),
        final(global).wf(),
        v5_subscribe_finished(
            *old(session),
            *final(session),
            old(write_packets)@,
            final(write_packets)@,
            *old(global),
            *final(global),
            *subscribe,
            codes,
        ),
{
    let answer = v5::subscribe::handle_subscribe(session, subscribe, global);
    assert(v5::subscribe::subscribe_handled(
        *old(session),
        *session,
        *old(global),
        *global,
        *subscribe,
        answer,
    ));
    match answer {
        Ok(packets) => {
            let codes = v5_codes_among(&packets);
            queue_packets(write_packets, packets);
            Some(codes)
        },
        Err(close) => {
            write_packets.push_back(WritePacket::Packet(close));
            None
        },
    }
}

/// Whether `s1`, `w1` and `g1` are the session `s0`, the write queue `w0`
/// and the shared state `g0` after a version 5.0 UNSUBSCRIBE was dealt
/// with: it is handled as the session handles any, and the UNSUBACK is
/// queued for writing.
pub open spec fn v5_unsubscribe_finished(
    s0: SessionV5,
    s1: SessionV5,
    w0: Seq<WritePacket<v5::packet::Packet>>,
    w1: Seq<WritePacket<v5::packet::Packet>>,
    g0: GlobalState,
    g1: GlobalState,
    unsubscribe: v5::packet::Unsubscribe,
) -> bool {
    exists|answer: v5::packet::Packet|
        #[trigger] v5::subscribe::unsubscribe_handled(s0, s1, g0, g1, unsubscribe, answer) && w1
            == w0.push(WritePacket::Packet(answer))
}

/// Deals with a version 5.0 UNSUBSCRIBE after the handler has seen it:
/// see [`v5_unsubscribe_finished`].
pub fn v5_finish_unsubscribe(
    session: &mut SessionV5,
    write_packets: &mut VecDeque<WritePacket<v5::packet::Packet>>,
    unsubscribe: &v5::packet::Unsubscribe,
    global: &mut GlobalState,
)
    requires
        old(session).wf(),
        old(global).wf(),
    ensures
        final(session).wf(),
        final(global).wf(),
        v5_unsubscribe_finished(
            *old(session),
            *final(session),
            old(write_packets)@,
            final(write_packets)@,
            *old(global),
            *final(global),
            *unsubscribe,
        ),
{
    let answer = v5::subscribe::handle_unsubscribe(session, unsubscribe, global);
    assert(v5::subscribe::unsubscribe_handled(
        *old(session),
        *session,
        *old(global),
        *global,
        *unsubscribe,
        answer,
    ));
    write_packets.push_back(WritePacket::Packet(answer));
}

/// Whether `s1`, `w1` and `g1` are the session `s0`, the write queue `w0`
/// and the shared state `g0` after a version 3.x PUBLISH was dealt with
/// that the handler answered with `code`, with the result `result`. With
/// `Success` the PUBLISH is handled as the session handles any: its
/// answer is queued for writing, and an error ends the connection. With
/// any other answer the PUBLISH is dropped: it is neither routed nor
/// retained nor acknowledged, nothing changes, and the connection stays
/// open.
pub open spec fn v3_publish_finished(
    s0: SessionV3,
    s1: SessionV3,
    w0: Seq<WritePacket<v3::packet::Packet>>,
    w1: Seq<WritePacket<v3::packet::Packet>>,
    g0: GlobalState,
    g1: GlobalState,
    publish: v3::packet::Publish,
    code: HookPublishCode,
    result: HookResult,
) -> bool {
    if code == HookPublishCode::Success {
        exists|answer: Result<Option<v3::packet::Packet>, ErrorKind>|
            #[trigger] v3::publish::publish_handled(s0, s1, g0, g1, publish, answer) && (
            match answer {
                Ok(reply) => w1 == pushed(w0, reply) && result == Ok::<(), Option<ErrorKind>>(()),
                Err(kind) => w1 == w0 && result == Err::<(), _>(Some(kind)),
            })
    } else {
        s1 == s0 && g1 == g0 && w1 == w0 && result == Ok::<(), Option<ErrorKind>>(())
    }
}

/// Deals with a version 3.x PUBLISH after the handler has answered: see
/// [`v3_publish_finished`].
pub fn v3_finish_publish(
    session: &mut SessionV3,
    write_packets: &mut VecDeque<WritePacket<v3::packet::Packet>>,
    publish: v3::packet::Publish,
    code: HookPublishCode,
    global: &mut GlobalState,
) -> (result: HookResult)
    requires
        old(session).wf(),
        old(global).wf(),
    ensures
        final(session).wf(),
        final(global).wf(),
        v3_publish_finished(
            *old(session),
            *final(session),
            old(write_packets)@,
            final(write_packets)@,
            *old(global),
            *final(global),
            publish,
            code,
            result,
        ),
{
    match code {
        HookPublishCode::Success => {
            let answer = v3::publish::handle_publish(session, publish, global);
            assert(v3::publish::publish_handled(
                *old(session),
                *session,
                *old(global),
                *global,
                publish,
                answer,
            ));
            match answer {
                Ok(packet_opt) => {
                    match packet_opt {
                        Some(packet) => {
                            write_packets.push_back(WritePacket::Packet(packet));
                        },
                        None => {},
                    }
                    Ok(())
                },
                Err(kind) => Err(Some(kind)),
            }
        },
        _ => Ok(()),
    }
}

/// The return codes of the SUBACK among `packets`: those of the last
/// SUBACK, or none if there is no SUBACK.
pub open spec fn v3_suback_codes(packets: Seq<v3::packet::Packet>) -> Seq<
    v3::packet::SubscribeReturnCode,
>
    decreases packets.len(),
{
    if packets.len() == 0 {
        Seq::<v3::packet::SubscribeReturnCode>::empty()
    } else {
        match packets.last() {
            v3::packet::Packet::Suback(suback) => suback.topics@,
            _ => v3_suback_codes(packets.drop_last()),
        }
    }
}

/// Whether `s1`, `w1` and `g1` are the session `s0`, the write queue `w0`
/// and the shared state `g0` after a version 3.x SUBSCRIBE was dealt
/// with, `codes` is what the handler is told afterwards and `result`
/// what the loop of the connection is told. The SUBSCRIBE is handled as
/// the session handles any. What answers it is queued for writing, and
/// the handler is told the return codes of the SUBACK. If it fails the
/// handler is told nothing and the connection ends with the error.
pub open spec fn v3_subscribe_finished(
    s0: SessionV3,
    s1: SessionV3,
    w0: Seq<WritePacket<v3::packet::Packet>>,
    w1: Seq<WritePacket<v3::packet::Packet>>,
    g0: GlobalState,
    g1: GlobalState,
    subscribe: v3::packet::Subscribe,
    codes: Option<Vec<v3::packet::SubscribeReturnCode>>,
    result: HookResult,
) -> bool {
    exists|answer: Result<Vec<v3::packet::Packet>, Option<ErrorKind>>|
        #[trigger] v3::subscribe::subscribe_handled(s0, s1, g0, g1, subscribe, answer) && (
        match answer {
            Ok(packets) => w1 == queued(w0, packets@) && result == Ok::<(), Option<ErrorKind>>(())
                && (match codes {
                Some(c) => c@ == v3_suback_codes(packets@),
                None => false,
            }),
            Err(kind) => w1 == w0 && codes is None && result == Err::<(), _>(kind),
        })
}

/// The return codes of the SUBACK among version 3.x packets.
fn v3_codes_among(packets: &Vec<v3::packet::Packet>) -> (codes: Vec<v3::packet::SubscribeReturnCode>)
    ensures
        codes@ == v3_suback_codes(packets@),
{
    let mut codes: Vec<v3::packet::SubscribeReturnCode> = Vec::new();
    let mut i: usize = 0;
    while i < packets.len()
        invariant
            i <= packets.len(),
            codes@ == v3_suback_codes(packets@.take(i as int)),
        decreases packets.len() - i,
    {
        proof {
            assert(packets@.take(i + 1).drop_last() =~= packets@.take(i as int));
        }
        match &packets[i] {
            v3::packet::Packet::Suback(suback) => {
                codes = copy_codes(&suback.topics);
            },
            _ => {},
        }
        i += 1;
    }
    assert(packets@.take(i as int) =~= packets@);
    codes
}

/// Deals with a version 3.x SUBSCRIBE after the handler has seen it: see
/// [`v3_subscribe_finished`]. The result is what the handler is told
/// afterwards, and what the loop of the connection is told.
pub fn v3_finish_subscribe(
    session: &mut SessionV3,
    write_packets: &mut VecDeque<WritePacket<v3::packet::Packet>>,
    subscribe: &v3::packet::Subscribe,
    global: &mut GlobalState,
) -> (finished: (Option<Vec<v3::packet::SubscribeReturnCode>>, HookResult))
    requires
        old(session).wf(),
        old(global).wf(),
    ensures
        final(session).wf(),
        final(global).wf(),
        v3_subscribe_finished(
            *old(session),
            *final(session),
            old(write_packets)@,
            final(write_packets)@,
            *old(global),
            *final(global),
            *subscribe,
            finished.0,
            finished.1,
        ),
{
    let answer = v3::subscribe::handle_subscribe(session, subscribe, global);
    assert(v3::subscribe::subscribe_handled(
        *old(session),
        *session,
        *old(global),
        *global,
        *subscribe,
        answer,
    ));
    match answer {
        Ok(packets) => {
            let codes = v3_codes_among(&packets);
            queue_packets(write_packets, packets);
            (Some(codes), Ok(()))
        },
        Err(kind) => (None, Err(kind)),
    }
}

/// Whether `s1`, `w1` and `g1` are the session `s0`, the write queue `w0`
/// and the shared state `g0` after a version 3.x UNSUBSCRIBE was dealt
/// with: it is handled as the session handles any, and the UNSUBACK is
/// queued for writing.
pub open spec fn v3_unsubscribe_finished(
    s0: SessionV3,
    s1: SessionV3,
    w0: Seq<WritePacket<v3::packet::Packet>>,
    w1: Seq<WritePacket<v3::packet::Packet>>,
    g0: GlobalState,
    g1: GlobalState,
    unsubscribe: v3::packet::Unsubscribe,
) -> bool {
    &&& v3::subscribe::unsubscribe_handled(s0, s1, g0, g1, unsubscribe)
    &&& w1 == w0.push(WritePacket::Packet(v3::packet::Packet::Unsuback(unsubscribe.pid)))
}

/// Deals with a version 3.x UNSUBSCRIBE after the handler has seen it:
/// see [`v3_unsubscribe_finished`].
pub fn v3_finish_unsubscribe(
    session: &mut SessionV3,
    write_packets: &mut VecDeque<WritePacket<v3::packet::Packet>>,
    unsubscribe: &v3::packet::Unsubscribe,
    global: &mut GlobalState,
)
    requires
        old(session).wf(),
        old(global).wf(),
    ensures
        final(session).wf(),
        final(global).wf(),
        v3_unsubscribe_finished(
            *old(session),
            *final(session),
            old(write_packets)@,
            final(write_packets)@,
            *old(global),
            *final(global),
            *unsubscribe,
        ),
{
    let answer = v3::subscribe::handle_unsubscribe(session, unsubscribe, global);
    write_packets.push_back(WritePacket::Packet(answer));
}

/// Whether the session that a request lends to the hook is well formed.
pub open spec fn request_wf(request: HookRequest) -> bool {
    match request {
        HookRequest::V5AfterConnect { context, .. } => context.session().wf(),
        HookRequest::V5Publish { context, .. } => context.session().wf(),
        HookRequest::V5Subscribe { context, .. } => context.session().wf(),
        HookRequest::V5Unsubscribe { context, .. } => context.session().wf(),
        HookRequest::V3AfterConnect { context, .. } => context.session().wf(),
        HookRequest::V3Publish { context, .. } => context.session().wf(),
        HookRequest::V3Subscribe { context, .. } => context.session().wf(),
        HookRequest::V3Unsubscribe { context, .. } => context.session().wf(),
        _ => true,
    }
}

/// What comes back for a version 5.0 PUBLISH: the session and its queue
/// after the PUBLISH was dealt with, for the packet as the handler left
/// it and for the answer that the handler gave. Nothing is known of
/// either, so all that is said is that there are such.
pub open spec fn v5_publish_answered(
    context: LockedHookContext<SessionV5>,
    encode_len: usize,
    back: LockedHookContext<SessionV5>,
    result: HookResult,
    g0: GlobalState,
    g1: GlobalState,
) -> bool {
    &&& result == Ok::<(), Option<ErrorKind>>(())
    &&& back.session().wf()
    &&& exists|changed: v5::packet::Publish, code: HookPublishCode|
        #[trigger] v5_publish_finished(
            context.session(),
            back.session(),
            context.write_packets()@,
            back.write_packets()@,
            g0,
            g1,
            changed,
            encode_len,
            code,
        )
}

/// What comes back for a version 5.0 SUBSCRIBE: the session and its
/// queue after the SUBSCRIBE was dealt with, for the packet as the
/// handler left it.
pub open spec fn v5_subscribe_answered(
    context: LockedHookContext<SessionV5>,
    back: LockedHookContext<SessionV5>,
    result: HookResult,
    g0: GlobalState,
    g1: GlobalState,
) -> bool {
    &&& result == Ok::<(), Option<ErrorKind>>(())
    &&& back.session().wf()
    &&& exists|changed: v5::packet::Subscribe, codes: Option<Vec<SubscribeReasonCode>>|
        #[trigger] v5_subscribe_finished(
            context.session(),
            back.session(),
            context.write_packets()@,
            back.write_packets()@,
            g0,
            g1,
            changed,
            codes,
        )
}

/// What comes back for a version 5.0 UNSUBSCRIBE: the session and its
/// queue after the UNSUBSCRIBE was dealt with, for the packet as the
/// handler left it.
pub open spec fn v5_unsubscribe_answered(
    context: LockedHookContext<SessionV5>,
    back: LockedHookContext<SessionV5>,
    result: HookResult,
    g0: GlobalState,
    g1: GlobalState,
) -> bool {
    &&& result == Ok::<(), Option<ErrorKind>>(())
    &&& back.session().wf()
    &&& exists|changed: v5::packet::Unsubscribe|
        #[trigger] v5_unsubscribe_finished(
            context.session(),
            back.session(),
            context.write_packets()@,
            back.write_packets()@,
            g0,
            g1,
            changed,
        )
}

/// What comes back for a version 3.x PUBLISH: the session and its queue
/// after the PUBLISH was dealt with, for the packet as the handler left
/// it and for the answer that the handler gave.
pub open spec fn v3_publish_answered(
    context: LockedHookContext<SessionV3>,
    back: LockedHookContext<SessionV3>,
    result: HookResult,
    g0: GlobalState,
    g1: GlobalState,
) -> bool {
    &&& back.session().wf()
    &&& exists|changed: v3::packet::Publish, code: HookPublishCode|
        #[trigger] v3_publish_finished(
            context.session(),
            back.session(),
            context.write_packets()@,
            back.write_packets()@,
            g0,
            g1,
            changed,
            code,
            result,
        )
}

/// What comes back for a version 3.x SUBSCRIBE: the session and its
/// queue after the SUBSCRIBE was dealt with, for the packet as the
/// handler left it.
pub open spec fn v3_subscribe_answered(
    context: LockedHookContext<SessionV3>,
    back: LockedHookContext<SessionV3>,
    result: HookResult,
    g0: GlobalState,
    g1: GlobalState,
) -> bool {
    &&& back.session().wf()
    &&& exists|changed: v3::packet::Subscribe, codes: Option<Vec<v3::packet::SubscribeReturnCode>>|
        #[trigger] v3_subscribe_finished(
            context.session(),
            back.session(),
            context.write_packets()@,
            back.write_packets()@,
            g0,
            g1,
            changed,
            codes,
            result,
        )
}

/// What comes back for a version 3.x UNSUBSCRIBE: the session and its
/// queue after the UNSUBSCRIBE was dealt with, for the packet as the
/// handler left it.
pub open spec fn v3_unsubscribe_answered(
    context: LockedHookContext<SessionV3>,
    back: LockedHookContext<SessionV3>,
    result: HookResult,
    g0: GlobalState,
    g1: GlobalState,
) -> bool {
    &&& result == Ok::<(), Option<ErrorKind>>(())
    &&& back.session().wf()
    &&& exists|changed: v3::packet::Unsubscribe|
        #[trigger] v3_unsubscribe_finished(
            context.session(),
            back.session(),
            context.write_packets()@,
            back.write_packets()@,
            g0,
            g1,
            changed,
        )
}

/// Whether `response` and `g1` are what the hook sends back, and the
/// shared state, after `request` was handled in the shared state `g0`.
/// The answer to a CONNECT is the handler's, and so are the actions for
/// a client that has connected; the session and its queue come back
/// untouched. A PUBLISH, SUBSCRIBE or UNSUBSCRIBE comes back dealt with.
pub open spec fn request_handled(
    request: HookRequest,
    response: HookResponse,
    g0: GlobalState,
    g1: GlobalState,
) -> bool {
    match (request, response) {
        (HookRequest::V5BeforeConnect { .. }, HookResponse::Connect(_)) => g1 == g0,
        (HookRequest::V3BeforeConnect { .. }, HookResponse::Connect(_)) => g1 == g0,
        (HookRequest::V5AfterConnect { context, .. }, HookResponse::V5Connected(back, _)) => g1
            == g0 && back == context,
        (HookRequest::V3AfterConnect { context, .. }, HookResponse::V3Connected(back, _)) => g1
            == g0 && back == context,
        (
            HookRequest::V5Publish { context, encode_len, .. },
            HookResponse::V5Done(back, result),
        ) => v5_publish_answered(context, encode_len, back, result, g0, g1),
        (HookRequest::V5Subscribe { context, .. }, HookResponse::V5Done(back, result)) => v5_subscribe_answered(
            context,
            back,
            result,
            g0,
            g1,
        ),
        (
            HookRequest::V5Unsubscribe { context, .. },
            HookResponse::V5Done(back, result),
        ) => v5_unsubscribe_answered(context, back, result, g0, g1),
        (HookRequest::V3Publish { context, .. }, HookResponse::V3Done(back, result)) => v3_publish_answered(
            context,
            back,
            result,
            g0,
            g1,
        ),
        (HookRequest::V3Subscribe { context, .. }, HookResponse::V3Done(back, result)) => v3_subscribe_answered(
            context,
            back,
            result,
            g0,
            g1,
        ),
        (
            HookRequest::V3Unsubscribe { context, .. },
            HookResponse::V3Done(back, result),
        ) => v3_unsubscribe_answered(context, back, result, g0, g1),
        _ => false,
    }
}

/// Handles one request to the hook: asks the handler, deals with the
/// packet as the handler's answer says, tells the handler what came of
/// it, and gives back the session with the response. See
/// [`request_handled`].
pub fn handle_request<H: Hook>(request: HookRequest, handler: &H, global: &mut GlobalState) -> (response:
    HookResponse)
    requires
        request_wf(request),
        old(global).wf(),
    ensures
        final(global).wf(),
        request_handled(request, response, *old(global), *final(global)),
{
    match request {
        HookRequest::V5BeforeConnect { peer, connect } => {
            let code = handler.v5_before_connect(peer, &connect);
            HookResponse::Connect(code)
        },
        HookRequest::V5AfterConnect { context, session_present } => {
            let actions = handler.v5_after_connect(context.session_ref(), session_present);
            HookResponse::V5Connected(context, actions)
        },
        HookRequest::V5Publish { context, encode_len, packet_body, publish } => {
            let ghost lent = context;
            let (mut session, mut write_packets) = context.into_inner();
            let mut publish = publish;
            let code = handler.v5_before_publish(&session, encode_len, &packet_body, &mut publish);
            let ghost changed = publish;
            let result = v5_finish_publish(
                &mut session,
                &mut write_packets,
                publish,
                encode_len,
                code,
                global,
            );
            let back = LockedHookContext::new(session, write_packets);
            assert(v5_publish_finished(
                lent.session(),
                back.session(),
                lent.write_packets()@,
                back.write_packets()@,
                *old(global),
                *global,
                changed,
                encode_len,
                code,
            ));
            assert(v5_publish_answered(lent, encode_len, back, result, *old(global), *global));
            HookResponse::V5Done(back, result)
        },
        HookRequest::V5Subscribe { context, encode_len, packet_body, subscribe } => {
            let ghost lent = context;
            let (mut session, mut write_packets) = context.into_inner();
            let mut subscribe = subscribe;
            handler.v5_before_subscribe(&session, encode_len, &packet_body, &mut subscribe);
            let codes = v5_finish_subscribe(&mut session, &mut write_packets, &subscribe, global);
            let ghost told = codes;
            handler.v5_after_subscribe(&session, encode_len, &packet_body, &subscribe, codes);
            let back = LockedHookContext::new(session, write_packets);
            assert(v5_subscribe_finished(
                lent.session(),
                back.session(),
                lent.write_packets()@,
                back.write_packets()@,
                *old(global),
                *global,
                subscribe,
                told,
            ));
            assert(v5_subscribe_answered(lent, back, Ok(()), *old(global), *global));
            HookResponse::V5Done(back, Ok(()))
        },
        HookRequest::V5Unsubscribe { context, encode_len, packet_body, unsubscribe } => {
            let ghost lent = context;
            let (mut session, mut write_packets) = context.into_inner();
            let mut unsubscribe = unsubscribe;
            handler.v5_before_unsubscribe(&session, encode_len, &packet_body, &mut unsubscribe);
            v5_finish_unsubscribe(&mut session, &mut write_packets, &unsubscribe, global);
            handler.v5_after_unsubscribe(&session, encode_len, &packet_body, &unsubscribe);
            let back = LockedHookContext::new(session, write_packets);
            assert(v5_unsubscribe_finished(
                lent.session(),
                back.session(),
                lent.write_packets()@,
                back.write_packets()@,
                *old(global),
                *global,
                unsubscribe,
            ));
            assert(v5_unsubscribe_answered(lent, back, Ok(()), *old(global), *global));
            HookResponse::V5Done(back, Ok(()))
        },
        HookRequest::V3BeforeConnect { peer, connect } => {
            let code = handler.v3_before_connect(peer, &connect);
            HookResponse::Connect(code)
        },
        HookRequest::V3AfterConnect { context, session_present } => {
            let actions = handler.v3_after_connect(context.session_ref(), session_present);
            HookResponse::V3Connected(context, actions)
        },
        HookRequest::V3Publish { context, encode_len, packet_body, publish } => {
            let ghost lent = context;
            let (mut session, mut write_packets) = context.into_inner();
            let mut publish = publish;
            let code = handler.v3_before_publish(&session, encode_len, &packet_body, &mut publish);
            let ghost changed = publish;
            let result = v3_finish_publish(&mut session, &mut write_packets, publish, code, global);
            let back = LockedHookContext::new(session, write_packets);
            assert(v3_publish_finished(
                lent.session(),
                back.session(),
                lent.write_packets()@,
                back.write_packets()@,
                *old(global),
                *global,
                changed,
                code,
                result,
            ));
            assert(v3_publish_answered(lent, back, result, *old(global), *global));
            HookResponse::V3Done(back, result)
        },
        HookRequest::V3Subscribe { context, encode_len, packet_body, subscribe } => {
            let ghost lent = context;
            let (mut session, mut write_packets) = context.into_inner();
            let mut subscribe = subscribe;
            handler.v3_before_subscribe(&session, encode_len, &packet_body, &mut subscribe);
            let (codes, result) = v3_finish_subscribe(
                &mut session,
                &mut write_packets,
                &subscribe,
                global,
            );
            let ghost told = codes;
            handler.v3_after_subscribe(&session, encode_len, &packet_body, &subscribe, codes);
            let back = LockedHookContext::new(session, write_packets);
            assert(v3_subscribe_finished(
                lent.session(),
                back.session(),
                lent.write_packets()@,
                back.write_packets()@,
                *old(global),
                *global,
                subscribe,
                told,
                result,
            ));
            assert(v3_subscribe_answered(lent, back, result, *old(global), *global));
            HookResponse::V3Done(back, result)
        },
        HookRequest::V3Unsubscribe { context, encode_len, packet_body, unsubscribe } => {
            let ghost lent = context;
            let (mut session, mut write_packets) = context.into_inner();
            let mut unsubscribe = unsubscribe;
            handler.v3_before_unsubscribe(&session, encode_len, &packet_body, &mut unsubscribe);
            v3_finish_unsubscribe(&mut session, &mut write_packets, &unsubscribe, global);
            handler.v3_after_unsubscribe(&session, encode_len, &packet_body, &unsubscribe);
            let back = LockedHookContext::new(session, write_packets);
            assert(v3_unsubscribe_finished(
                lent.session(),
                back.session(),
                lent.write_packets()@,
                back.write_packets()@,
                *old(global),
                *global,
                unsubscribe,
            ));
            assert(v3_unsubscribe_answered(lent, back, Ok(()), *old(global), *global));
            HookResponse::V3Done(back, Ok(()))
        },
    }
}

} // verus!
