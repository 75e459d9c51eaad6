//! The decisions of the loops that drive a version 5.0 session: what to
//! do with each packet, each message from another session and each
//! control message, and how a connection ends.

use vstd::prelude::*;
use std::collections::VecDeque;
use crate::config::Config;
use crate::collections::broadcast_queues;
use crate::collections::drained;
use crate::online::queue_packets;
use crate::online::queued;
use crate::online::WritePacket;
use crate::pending::AckKind;
use crate::pending::AckOutcome;
use crate::route::not_of;
use crate::state::client_absent;
use crate::state::session_ended;
use crate::state::ClientEntry;
use crate::state::ClientReceiver;
use crate::state::ControlMessage;
use crate::state::GlobalState;
use crate::state::NormalMessage;
use crate::types::share;
use crate::types::share_opt;
use crate::types::ClientId;
use crate::types::ErrorKind;
use crate::types::QoS;
use crate::v5::packet::Disconnect;
use crate::v5::packet::LastWill;
use crate::v5::packet::Packet;
use crate::v5::packet::Publish;
use crate::v5::packet::Subscribe;
use crate::v5::packet::Unsubscribe;
use crate::v5::packet::WillProperties;
use crate::v5::publish::expiry_deadline;
use crate::v5::publish::deadline;
use crate::v5::publish::handle_puback;
use crate::v5::publish::handle_pubcomp;
use crate::v5::publish::handle_pubrec;
use crate::v5::publish::handle_pubrel;
use crate::v5::publish::publish_received;
use crate::v5::publish::publish_sent;
use crate::v5::publish::pubrel_code;
use crate::v5::publish::recv_publish;
use crate::v5::publish::send_publish;
use crate::v5::publish::RecvPublish;
use crate::v5::publish::SendPublish;
use crate::v5::session::Session;
use crate::v5::session::SessionState;
use crate::v5::types::DisconnectReasonCode;
use crate::v5::types::PublishProperties;
use crate::v5::types::PubcompReasonCode;

verus! {

/// A packet that the hook must see before it takes effect.
#[derive(Debug)]
pub enum PacketHook {
    Publish { encode_len: usize, packet_body: Vec<u8>, publish: Publish },
    Subscribe { encode_len: usize, packet_body: Vec<u8>, subscribe: Subscribe },
    Unsubscribe { encode_len: usize, packet_body: Vec<u8>, unsubscribe: Unsubscribe },
}

/// Whether a DISCONNECT of the client is a protocol error: it sets a
/// session expiry interval although the session was to end with the
/// connection.
pub open spec fn disconnect_refused(session: Session, packet: Disconnect) -> bool {
    packet.session_expiry_interval matches Some(interval) && interval > 0
        && session.session_expiry_interval == 0
}

/// The session after a DISCONNECT of the client. One that is a protocol
/// error makes the server close the connection. Any other closes it in
/// good order: the session takes the expiry interval that the packet
/// sets, and keeps its will only if the reason asks for that.
pub open spec fn disconnected(session: Session, packet: Disconnect) -> Session {
    if disconnect_refused(session, packet) {
        Session { server_disconnected: true, ..session }
    } else {
        Session {
            client_disconnected: true,
            session_expiry_interval: match packet.session_expiry_interval {
                Some(interval) => interval,
                None => session.session_expiry_interval,
            },
            last_will: if packet.reason_code == DisconnectReasonCode::DisconnectWithWillMessage {
                session.last_will
            } else {
                None
            },
            ..session
        }
    }
}

/// Handles DISCONNECT: see [`disconnected`]. The result is the DISCONNECT
/// that answers a protocol error.
pub fn handle_disconnect(session: &mut Session, packet: Disconnect) -> (close: Option<Packet>)
    ensures
        *final(session) == disconnected(*old(session), packet),
        close == (if disconnect_refused(*old(session), packet) {
            Some(
                Packet::Disconnect(
                    Disconnect {
                        reason_code: DisconnectReasonCode::ProtocolError,
                        session_expiry_interval: None,
                    },
                ),
            )
        } else {
            None
        }),
{
    match packet.session_expiry_interval {
        Some(interval) => {
            if interval > 0 && session.session_expiry_interval == 0 {
                session.server_disconnected = true;
                return Some(
                    Packet::Disconnect(Disconnect::new(DisconnectReasonCode::ProtocolError)),
                );
            }
            session.session_expiry_interval = interval;
        },
        None => {},
    }
    session.client_disconnected = true;
    match packet.reason_code {
        DisconnectReasonCode::DisconnectWithWillMessage => {},
        _ => {
            session.last_will = None;
        },
    }
    None
}

/// The properties of the publish that a will makes.
pub open spec fn will_properties(properties: WillProperties) -> PublishProperties {
    PublishProperties {
        payload_is_utf8: properties.payload_is_utf8,
        message_expiry_interval: properties.message_expiry_interval,
        topic_alias: None,
        response_topic: properties.response_topic,
        correlation_data: properties.correlation_data,
        user_properties: properties.user_properties,
        subscription_id: None,
        content_type: properties.content_type,
    }
}

/// The publish that a will makes at `now`.
pub open spec fn will_publish(will: LastWill, now: u64) -> SendPublish<'static> {
    SendPublish {
        topic_name: &will.topic_name,
        retain: will.retain,
        qos: will.qos,
        payload: &will.payload,
        properties: &will_properties(will.properties),
        encode_len: 0,
        expiry: expiry_deadline(now, will.properties.message_expiry_interval),
    }
}

/// Whether `g1` is the shared state `g0` after the will `will` of the
/// client `client_id` was published at `now`: routed as a publish of the
/// client if there is one, and nothing else.
pub open spec fn will_published(
    g0: GlobalState,
    g1: GlobalState,
    client_id: ClientId,
    will: Option<LastWill>,
    now: u64,
) -> bool {
    match will {
        Some(w) => publish_sent(g0, g1, client_id, will_publish(w, now)),
        None => g1 == g0,
    }
}

/// Publishes the will of the session, if it has one, and takes it from
/// the session.
pub fn handle_will(session: &mut Session, global: &mut GlobalState)
    requires
        old(global).wf(),
    ensures
        final(global).wf(),
        *final(session) == (Session { last_will: None, ..*old(session) }),
        will_published(
            *old(global),
            *final(global),
            old(session).client_id,
            old(session).last_will,
            old(session).last_packet_time,
        ),
{
    match session.last_will.take() {
        Some(will) => {
            let properties = PublishProperties {
                payload_is_utf8: will.properties.payload_is_utf8,
                message_expiry_interval: will.properties.message_expiry_interval,
                topic_alias: None,
                response_topic: match &will.properties.response_topic {
                    Some(t) => Some(t.clone()),
                    None => None,
                },
                correlation_data: share_opt(&will.properties.correlation_data),
                user_properties: share(&will.properties.user_properties),
                subscription_id: None,
                content_type: share_opt(&will.properties.content_type),
            };
            let expiry = deadline(session.last_packet_time, will.properties.message_expiry_interval);
            send_publish(
                session,
                SendPublish {
                    topic_name: &will.topic_name,
                    retain: will.retain,
                    qos: will.qos,
                    payload: &will.payload,
                    properties: &properties,
                    encode_len: 0,
                    expiry,
                },
                global,
            );
        },
        None => {},
    }
}

/// Whether the session has an open connection that neither side has
/// closed.
pub open spec fn is_online(session: Session) -> bool {
    session.connected && !session.spec_disconnected()
}

/// Whether a timer that was set for the connection made at
/// `connected_time` is still meant for the session: the session is
/// offline, and that connection was its last.
pub open spec fn timer_applies(session: Session, connected_time: u64) -> bool {
    !session.connected && session.connected_time == Some(connected_time)
}

/// Whether a control message is a takeover that the session takes up,
/// and the channel that waits for its state: one by a version 5.0
/// connection always, one by a version 3.x connection only where the
/// broker allows a takeover across protocol versions.
pub open spec fn takeover(msg: ControlMessage, config: Config) -> Option<u64> {
    match msg {
        ControlMessage::OnlineV5 { sender } => Some(sender),
        ControlMessage::OnlineV3 { sender } => if config.allow_cross_version_takeover {
            Some(sender)
        } else {
            None
        },
        _ => None,
    }
}

/// What a control message asks of the session: whether its loop is to
/// stop, and the channel that waits for its state if a new connection
/// takes it over. A kick stops the loop unless the connection has been
/// closed already. The expiry of the session stops the loop of an
/// offline session that has not been connected since the timer was set.
pub open spec fn control_result(session: Session, msg: ControlMessage, config: Config) -> (bool, Option<u64>) {
    match msg {
        ControlMessage::OnlineV5 { .. } | ControlMessage::OnlineV3 { .. } => (false, takeover(msg, config)),
        ControlMessage::Kick { .. } => (!session.spec_disconnected(), None),
        ControlMessage::SessionExpired { connected_time } => (
            timer_applies(session, connected_time),
            None,
        ),
        _ => (false, None),
    }
}

/// The reason with which a control message makes the server close an
/// open connection, if it does: the session is taken over, or the client
/// is kicked.
pub open spec fn control_close(session: Session, msg: ControlMessage, config: Config) -> Option<
    DisconnectReasonCode,
> {
    if !is_online(session) {
        None
    } else if takeover(msg, config) is Some {
        Some(DisconnectReasonCode::SessionTakenOver)
    } else if msg is Kick {
        Some(DisconnectReasonCode::AdministrativeAction)
    } else {
        None
    }
}

/// Whether a control message makes the session publish its will: the
/// will delay has passed and the client has not come back.
pub open spec fn control_wills(session: Session, msg: ControlMessage) -> bool {
    msg matches ControlMessage::WillDelayReached { connected_time } && timer_applies(
        session,
        connected_time,
    )
}

/// Whether `s1`, `w1` and `g1` are the session `s0`, the write queue `w0`
/// and the shared state `g0` after the control message `msg`. Where the
/// message makes the server close the connection, the DISCONNECT with
/// the reason is queued for writing and the session counts as
/// disconnected by the server. Where it makes the session publish its
/// will, the will is published and leaves the session. Nothing else
/// changes.
pub open spec fn control_handled(
    s0: Session,
    s1: Session,
    w0: Seq<WritePacket<Packet>>,
    w1: Seq<WritePacket<Packet>>,
    g0: GlobalState,
    g1: GlobalState,
    msg: ControlMessage,
) -> bool {
    match control_close(s0, msg, g0.config) {
        Some(reason_code) => {
            &&& s1 == (Session { server_disconnected: true, ..s0 })
            &&& w1 == w0.push(
                WritePacket::Packet(
                    Packet::Disconnect(Disconnect { reason_code, session_expiry_interval: None }),
                ),
            )
            &&& g1 == g0
        },
        None => if control_wills(s0, msg) {
            &&& s1 == (Session { last_will: None, ..s0 })
            &&& w1 == w0
            &&& will_published(g0, g1, s0.client_id, s0.last_will, s0.last_packet_time)
        } else {
            s1 == s0 && w1 == w0 && g1 == g0
        },
    }
}

/// Handles a control message: see [`control_result`] and
/// [`control_handled`].
pub fn handle_control(
    session: &mut Session,
    msg: ControlMessage,
    write_packets: &mut VecDeque<WritePacket<Packet>>,
    global: &mut GlobalState,
) -> (result: (bool, Option<u64>))
    requires
        old(global).wf(),
    ensures
        final(global).wf(),
        result == control_result(*old(session), msg, old(global).config),
        control_handled(
            *old(session),
            *final(session),
            old(write_packets)@,
            final(write_packets)@,
            *old(global),
            *final(global),
            msg,
        ),
{
    let online = session.connected && !(session.client_disconnected || session.server_disconnected);
    let disconnected = session.client_disconnected || session.server_disconnected;
    let cross_version = global.config.allow_cross_version_takeover;
    match msg {
        ControlMessage::OnlineV5 { sender } => {
            if online {
                session.server_disconnected = true;
                write_packets.push_back(
                    WritePacket::Packet(
                        Packet::Disconnect(Disconnect::new(DisconnectReasonCode::SessionTakenOver)),
                    ),
                );
            }
            (false, Some(sender))
        },
        ControlMessage::OnlineV3 { sender } => {
            if !cross_version {
                return (false, None);
            }
            if online {
                session.server_disconnected = true;
                write_packets.push_back(
                    WritePacket::Packet(
                        Packet::Disconnect(Disconnect::new(DisconnectReasonCode::SessionTakenOver)),
                    ),
                );
            }
            (false, Some(sender))
        },
        ControlMessage::Kick { .. } => {
            if online {
                session.server_disconnected = true;
                write_packets.push_back(
                    WritePacket::Packet(
                        Packet::Disconnect(
                            Disconnect::new(DisconnectReasonCode::AdministrativeAction),
                        ),
                    ),
                );
            }
            (!disconnected, None)
        },
        ControlMessage::SessionExpired { connected_time } => {
            let applies = !session.connected && match session.connected_time {
                Some(t) => t == connected_time,
                None => false,
            };
            (applies, None)
        },
        ControlMessage::WillDelayReached { connected_time } => {
            let applies = !session.connected && match session.connected_time {
                Some(t) => t == connected_time,
                None => false,
            };
            if applies {
                handle_will(session, global);
            }
            (false, None)
        },
    }
}

/// Whether a publish has no property at all.
pub open spec fn no_properties(properties: PublishProperties) -> bool {
    &&& properties.payload_is_utf8 is None
    &&& properties.message_expiry_interval is None
    &&& properties.topic_alias is None
    &&& properties.response_topic is None
    &&& properties.correlation_data is None
    &&& properties.user_properties@.len() == 0
    &&& properties.subscription_id is None
    &&& properties.content_type is None
}

/// Whether `s1` is the session `s0` after it took the message `msg` of
/// the session of `sender`, with the result `delivered`: the publish that
/// the message carries is taken as [`publish_received`] says. A publish
/// of a version 3.x client has no properties and does not expire.
pub open spec fn normal_handled(
    s0: Session,
    s1: Session,
    sender: ClientId,
    msg: NormalMessage,
    delivered: Option<(QoS, Option<Packet>)>,
) -> bool {
    match msg {
        NormalMessage::PublishV5 {
            topic_name,
            qos,
            retain,
            payload,
            subscribe_filter,
            subscribe_qos,
            properties,
            encode_len,
            expiry,
        } => publish_received(
            s0,
            s1,
            sender,
            RecvPublish {
                topic_name: &topic_name,
                qos,
                retain,
                payload: &payload,
                subscribe_filter: &subscribe_filter,
                subscribe_qos,
                properties: &properties,
                encode_len,
                expiry,
            },
            delivered,
        ),
        NormalMessage::PublishV3 {
            topic_name,
            qos,
            retain,
            payload,
            subscribe_filter,
            subscribe_qos,
            encode_len,
        } => exists|properties: PublishProperties|
            no_properties(properties) && #[trigger] publish_received(
                s0,
                s1,
                sender,
                RecvPublish {
                    topic_name: &topic_name,
                    qos,
                    retain,
                    payload: &payload,
                    subscribe_filter: &subscribe_filter,
                    subscribe_qos,
                    properties: &properties,
                    encode_len,
                    expiry: None,
                },
                delivered,
            ),
    }
}

/// Takes a message from the session of `sender` without using it up:
/// see [`normal_handled`].
pub fn take_message(session: &mut Session, sender: ClientId, msg: &NormalMessage) -> (delivered: Option<
    (QoS, Option<Packet>),
>)
    requires
        old(session).wf(),
    ensures
        final(session).wf(),
        normal_handled(*old(session), *final(session), sender, *msg, delivered),
{
    match msg {
        NormalMessage::PublishV5 {
            topic_name,
            qos,
            retain,
            payload,
            subscribe_filter,
            subscribe_qos,
            properties,
            encode_len,
            expiry,
        } => recv_publish(
            session,
            sender,
            RecvPublish {
                topic_name,
                qos: *qos,
                retain: *retain,
                payload,
                subscribe_filter,
                subscribe_qos: *subscribe_qos,
                properties,
                encode_len: *encode_len,
                expiry: *expiry,
            },
        ),
        NormalMessage::PublishV3 {
            topic_name,
            qos,
            retain,
            payload,
            subscribe_filter,
            subscribe_qos,
            encode_len,
        } => {
            let properties = PublishProperties::default();
            let delivered = recv_publish(
                session,
                sender,
                RecvPublish {
                    topic_name,
                    qos: *qos,
                    retain: *retain,
                    payload,
                    subscribe_filter,
                    subscribe_qos: *subscribe_qos,
                    properties: &properties,
                    encode_len: *encode_len,
                    expiry: None,
                },
            );
            assert(no_properties(properties));
            assert(publish_received(
                *old(session),
                *session,
                sender,
                RecvPublish {
                    topic_name: &msg->PublishV3_topic_name,
                    qos: *qos,
                    retain: *retain,
                    payload: &msg->PublishV3_payload,
                    subscribe_filter: &msg->PublishV3_subscribe_filter,
                    subscribe_qos: *subscribe_qos,
                    properties: &properties,
                    encode_len: *encode_len,
                    expiry: None,
                },
                delivered,
            ));
            delivered
        },
    }
}

/// Handles a message from the session of `sender`: see
/// [`normal_handled`].
pub fn handle_normal(session: &mut Session, sender: ClientId, msg: NormalMessage) -> (delivered: Option<
    (QoS, Option<Packet>),
>)
    requires
        old(session).wf(),
    ensures
        final(session).wf(),
        normal_handled(*old(session), *final(session), sender, msg, delivered),
{
    take_message(session, sender, &msg)
}

/// The write queue after the server closed the connection with a
/// reason.
pub open spec fn closing(w: Seq<WritePacket<Packet>>, reason_code: DisconnectReasonCode) -> Seq<
    WritePacket<Packet>,
> {
    w.push(
        WritePacket::Packet(
            Packet::Disconnect(Disconnect { reason_code, session_expiry_interval: None }),
        ),
    )
}

/// Whether `s1`, `w1` and `g1` are the session `s0`, the write queue `w0`
/// and the shared state `g0` after the session handled `packet`, whose
/// encoded length is `encode_len`, with the result `hook`.
///
/// Over a packet longer than the broker accepts, and over a packet that
/// no client may send, the server closes the connection: the DISCONNECT
/// with the reason is queued for writing and the session counts as
/// disconnected by the server. PUBLISH, SUBSCRIBE and UNSUBSCRIBE go to
/// the hook where the options say so, and change nothing yet; otherwise
/// they are handled, and what answers them, be it an acknowledgement or
/// the DISCONNECT that closes the connection, is queued for writing.
/// PUBACK and PUBCOMP complete a delivery. PUBREC is answered with
/// PUBREL, PUBREL with PUBCOMP, PINGREQ with PINGRESP. DISCONNECT is
/// handled as [`disconnected`] says.
pub open spec fn packet_handled(
    s0: Session,
    s1: Session,
    w0: Seq<WritePacket<Packet>>,
    w1: Seq<WritePacket<Packet>>,
    g0: GlobalState,
    g1: GlobalState,
    encode_len: usize,
    packet_body: Vec<u8>,
    packet: Packet,
    hook: Option<PacketHook>,
) -> bool {
    if encode_len > g0.config.max_packet_size_server {
        &&& hook is None
        &&& s1 == (Session { server_disconnected: true, ..s0 })
        &&& w1 == closing(w0, DisconnectReasonCode::PacketTooLarge)
        &&& g1 == g0
    } else {
        match packet {
            Packet::Disconnect(disconnect) => {
                &&& hook is None
                &&& s1 == disconnected(s0, disconnect)
                &&& w1 == (if disconnect_refused(s0, disconnect) {
                    closing(w0, DisconnectReasonCode::ProtocolError)
                } else {
                    w0
                })
                &&& g1 == g0
            },
            Packet::Publish(publish) => if g0.config.hook.enable_publish {
                &&& hook == Some(PacketHook::Publish { encode_len, packet_body, publish })
                &&& s1 == s0
                &&& w1 == w0
                &&& g1 == g0
            } else {
                &&& hook is None
                &&& crate::hook::v5_publish_finished(
                    s0,
                    s1,
                    w0,
                    w1,
                    g0,
                    g1,
                    publish,
                    encode_len,
                    crate::hook::HookPublishCode::Success,
                )
            },
            Packet::Puback(puback) => {
                &&& hook is None
                &&& w1 == w0
                &&& g1 == g0
                &&& s1 == (Session { pending_packets: s1.pending_packets, ..s0 })
                &&& exists|outcome: AckOutcome| #[trigger]
                    crate::pending::acked(
                        s0.pending_packets,
                        s1.pending_packets,
                        puback.pid,
                        AckKind::Puback,
                        s0.last_packet_time,
                        outcome,
                    )
            },
            Packet::Pubrec(pubrec) => {
                &&& hook is None
                &&& g1 == g0
                &&& s1 == (Session { pending_packets: s1.pending_packets, ..s0 })
                &&& exists|outcome: AckOutcome| #[trigger]
                    crate::pending::acked(
                        s0.pending_packets,
                        s1.pending_packets,
                        pubrec.pid,
                        AckKind::Pubrec,
                        s0.last_packet_time,
                        outcome,
                    ) && w1 == w0.push(
                        WritePacket::Packet(
                            Packet::Pubrel(
                                crate::v5::packet::Pubrel {
                                    pid: pubrec.pid,
                                    reason_code: pubrel_code(outcome),
                                },
                            ),
                        ),
                    )
            },
            Packet::Pubrel(pubrel) => {
                &&& hook is None
                &&& g1 == g0
                &&& s1 == (Session { qos2_pids: s1.qos2_pids, ..s0 })
                &&& crate::collections::pid_digests(s1.qos2_pids) == crate::collections::pid_digests(
                    s0.qos2_pids,
                ).remove(pubrel.pid.spec_value())
                &&& w1 == w0.push(
                    WritePacket::Packet(
                        Packet::Pubcomp(
                            crate::v5::packet::Pubcomp {
                                pid: pubrel.pid,
                                reason_code: if crate::collections::pid_digests(
                                    s0.qos2_pids,
                                ).contains_key(pubrel.pid.spec_value()) {
                                    PubcompReasonCode::Success
                                } else {
                                    PubcompReasonCode::PacketIdentifierNotFound
                                },
                            },
                        ),
                    ),
                )
            },
            Packet::Pubcomp(pubcomp) => {
                &&& hook is None
                &&& w1 == w0
                &&& g1 == g0
                &&& s1 == (Session { pending_packets: s1.pending_packets, ..s0 })
                &&& exists|outcome: AckOutcome| #[trigger]
                    crate::pending::acked(
                        s0.pending_packets,
                        s1.pending_packets,
                        pubcomp.pid,
                        AckKind::Pubcomp,
                        s0.last_packet_time,
                        outcome,
                    )
            },
            Packet::Subscribe(subscribe) => if g0.config.hook.enable_subscribe {
                &&& hook == Some(PacketHook::Subscribe { encode_len, packet_body, subscribe })
                &&& s1 == s0
                &&& w1 == w0
                &&& g1 == g0
            } else {
                &&& hook is None
                &&& exists|codes: Option<Vec<crate::v5::types::SubscribeReasonCode>>| #[trigger]
                    crate::hook::v5_subscribe_finished(s0, s1, w0, w1, g0, g1, subscribe, codes)
            },
            Packet::Unsubscribe(unsubscribe) => if g0.config.hook.enable_unsubscribe {
                &&& hook == Some(PacketHook::Unsubscribe { encode_len, packet_body, unsubscribe })
                &&& s1 == s0
                &&& w1 == w0
                &&& g1 == g0
            } else {
                &&& hook is None
                &&& crate::hook::v5_unsubscribe_finished(s0, s1, w0, w1, g0, g1, unsubscribe)
            },
            Packet::Pingreq => {
                &&& hook is None
                &&& s1 == s0
                &&& w1 == w0.push(WritePacket::Packet(Packet::Pingresp))
                &&& g1 == g0
            },
            _ => {
                &&& hook is None
                &&& s1 == (Session { server_disconnected: true, ..s0 })
                &&& w1 == closing(w0, DisconnectReasonCode::ProtocolError)
                &&& g1 == g0
            },
        }
    }
}

/// Closes the connection from the server's side with a reason.
fn close(
    session: &mut Session,
    write_packets: &mut VecDeque<WritePacket<Packet>>,
    reason_code: DisconnectReasonCode,
)
    ensures
        *final(session) == (Session { server_disconnected: true, ..*old(session) }),
        final(write_packets)@ == closing(old(write_packets)@, reason_code),
{
    session.server_disconnected = true;
    write_packets.push_back(WritePacket::Packet(Packet::Disconnect(Disconnect::new(reason_code))));
}

impl Session {
    /// Handles a packet of the client: see [`packet_handled`]. The result
    /// is the packet for the hook, if the hook must see it first.
    pub fn handle_packet(
        &mut self,
        encode_len: usize,
        packet_body: Vec<u8>,
        packet: Packet,
        write_packets: &mut VecDeque<WritePacket<Packet>>,
        global: &mut GlobalState,
    ) -> (hook: Option<PacketHook>)
        requires
            old(self).wf(),
            old(global).wf(),
        ensures
            final(self).wf(),
            final(global).wf(),
            packet_handled(
                *old(self),
                *final(self),
                old(write_packets)@,
                final(write_packets)@,
                *old(global),
                *final(global),
                encode_len,
                packet_body,
                packet,
                hook,
            ),
    {
        if encode_len > global.config.max_packet_size_server as usize {
            close(self, write_packets, DisconnectReasonCode::PacketTooLarge);
            return None;
        }
        match packet {
            Packet::Disconnect(disconnect) => {
                match handle_disconnect(self, disconnect) {
                    Some(reply) => {
                        write_packets.push_back(WritePacket::Packet(reply));
                    },
                    None => {},
                }
            },
            Packet::Publish(publish) => {
                if global.config.hook.enable_publish {
                    return Some(PacketHook::Publish { encode_len, packet_body, publish });
                }
                let _ = crate::hook::v5_finish_publish(
                    self,
                    write_packets,
                    publish,
                    encode_len,
                    crate::hook::HookPublishCode::Success,
                    global,
                );
            },
            Packet::Puback(puback) => {
                let _ = handle_puback(self, puback.pid);
            },
            Packet::Pubrec(pubrec) => {
                let reply = handle_pubrec(self, pubrec.pid);
                write_packets.push_back(WritePacket::Packet(reply));
            },
            Packet::Pubrel(pubrel) => {
                let reply = handle_pubrel(self, pubrel.pid);
                write_packets.push_back(WritePacket::Packet(reply));
            },
            Packet::Pubcomp(pubcomp) => {
                let _ = handle_pubcomp(self, pubcomp.pid);
            },
            Packet::Subscribe(subscribe) => {
                if global.config.hook.enable_subscribe {
                    return Some(PacketHook::Subscribe { encode_len, packet_body, subscribe });
                }
                let codes = crate::hook::v5_finish_subscribe(self, write_packets, &subscribe, global);
                assert(crate::hook::v5_subscribe_finished(
                    *old(self),
                    *self,
                    old(write_packets)@,
                    write_packets@,
                    *old(global),
                    *global,
                    subscribe,
                    codes,
                ));
            },
            Packet::Unsubscribe(unsubscribe) => {
                if global.config.hook.enable_unsubscribe {
                    return Some(PacketHook::Unsubscribe { encode_len, packet_body, unsubscribe });
                }
                crate::hook::v5_finish_unsubscribe(self, write_packets, &unsubscribe, global);
            },
            Packet::Pingreq => {
                write_packets.push_back(WritePacket::Packet(Packet::Pingresp));
            },
            _ => {
                close(self, write_packets, DisconnectReasonCode::ProtocolError);
            },
        }
        None
    }

    /// What follows every packet that was handled: the tick of the
    /// retransmission timer, as [`crate::v5::common::pendings_handled`]
    /// says. What it gives to write is queued for writing.
    pub fn after_handle_packet(&mut self, write_packets: &mut VecDeque<WritePacket<Packet>>)
        requires
            old(self).wf(),
        ensures
            final(self).wf(),
            exists|packets: Seq<Packet>|
                #[trigger] crate::v5::common::pendings_handled(*old(self), *final(self), packets)
                    && final(write_packets)@ == queued(old(write_packets)@, packets),
    {
        let pending_packets = crate::v5::common::after_handle_packet(self);
        let ghost packets = pending_packets@;
        queue_packets(write_packets, pending_packets);
        assert(crate::v5::common::pendings_handled(*old(self), *self, packets));
    }

    /// A tick of the retransmission timer: see
    /// [`crate::v5::common::pendings_handled`].
    pub fn handle_pendings(&mut self) -> (packets: Vec<Packet>)
        requires
            old(self).wf(),
        ensures
            final(self).wf(),
            crate::v5::common::pendings_handled(*old(self), *final(self), packets@),
    {
        crate::v5::common::handle_pendings(self)
    }

    /// Handles a control message: see [`control_result`] and
    /// [`control_handled`].
    pub fn handle_control(
        &mut self,
        msg: ControlMessage,
        write_packets: &mut VecDeque<WritePacket<Packet>>,
        global: &mut GlobalState,
    ) -> (result: (bool, Option<u64>))
        requires
            old(global).wf(),
        ensures
            final(global).wf(),
            result == control_result(*old(self), msg, old(global).config),
            control_handled(
                *old(self),
                *final(self),
                old(write_packets)@,
                final(write_packets)@,
                *old(global),
                *final(global),
                msg,
            ),
    {
        handle_control(self, msg, write_packets, global)
    }

    /// Handles a message from the session of `sender`: see
    /// [`normal_handled`].
    pub fn handle_normal(&mut self, sender: ClientId, msg: NormalMessage) -> (delivered: Option<
        (QoS, Option<Packet>),
    >)
        requires
            old(self).wf(),
        ensures
            final(self).wf(),
            normal_handled(*old(self), *final(self), sender, msg, delivered),
    {
        handle_normal(self, sender, msg)
    }
}

/// How the online phase of a connection ended.
pub struct OnlineExit {
    /// The session and its mailboxes, if the session lives on offline.
    pub offline: Option<(Session, ClientReceiver)>,
    /// What waited in the broadcast queue: every target once, with its
    /// messages, oldest first. The caller hands them to the mailboxes.
    pub broadcast: Vec<(ClientId, Vec<NormalMessage>)>,
    /// After how many seconds the will is to be published, if the session
    /// keeps one for later.
    pub will_delay: Option<u32>,
    /// After how many seconds the session expires, if it lives on.
    pub session_expiry: Option<u32>,
    /// The error with which the connection ends, if it ends with one: that
    /// of the loop, for a session that does not live on.
    pub error: Option<ErrorKind>,
}

/// The delay after which the will of a session that lives on offline is
/// published, if it is not published at once.
pub open spec fn delayed_will(session: Session) -> Option<u32> {
    match session.last_will {
        Some(will) => match will.properties.delay_interval {
            Some(delay) => if delay > 0 && session.session_expiry_interval > 0 {
                Some(delay)
            } else {
                None
            },
            None => None,
        },
        None => None,
    }
}

/// The will that is published when the online phase of the session ends:
/// the will of the session, unless it is kept for later.
pub open spec fn pending_will(session: Session) -> Option<LastWill> {
    if delayed_will(session) is Some {
        None
    } else {
        session.last_will
    }
}

/// Ends the online phase of a connection at `now`, after its loop has
/// stopped with or without an error. A session that was taken over is
/// gone without more ado. Otherwise the will is published, unless the
/// session lives on and the will has a delay: then the will stays in the
/// session and the delay is handed out for a timer. The broadcast queue
/// is handed out. A session whose expiry interval is 0 is removed with
/// its subscriptions, and the error of the loop, if any, is the result.
/// Any other session goes offline and lives on until it expires.
pub fn finish_online(
    session: Session,
    receiver: ClientReceiver,
    taken_over: bool,
    io_error: Option<ErrorKind>,
    now: u64,
    global: &mut GlobalState,
) -> (exit: OnlineExit)
    requires
        session.wf(),
        old(global).wf(),
    ensures
        final(global).wf(),
        taken_over ==> *final(global) == *old(global) && exit.offline is None
            && exit.broadcast@.len() == 0 && exit.will_delay is None && exit.session_expiry is None
            && exit.error is None,
        !taken_over ==> exists|gm: GlobalState|
            {
                &&& #[trigger] will_published(
                    *old(global),
                    gm,
                    session.client_id,
                    pending_will(session),
                    session.last_packet_time,
                )
                &&& final(global).config == gm.config
                &&& final(global).retain_table == gm.retain_table
                &&& final(global).outbox == gm.outbox
                &&& if session.session_expiry_interval == 0 {
                    &&& final(global).route_table@ == gm.route_table@.filter(not_of(session.client_id))
                    &&& client_absent(final(global).clients@, session.client_id)
                    &&& crate::state::client_removed(gm.clients@, final(global).clients@, session.client_id)
                    &&& exit.offline is None
                    &&& drained(broadcast_queues(session.broadcast_packets), exit.broadcast@)
                    &&& exit.will_delay is None
                    &&& exit.session_expiry is None
                    &&& exit.error == io_error
                } else {
                    &&& final(global).route_table == gm.route_table
                    &&& final(global).clients@.len() == gm.clients@.len()
                    &&& forall|i: int|
                        0 <= i < gm.clients@.len() ==> #[trigger] final(global).clients@[i] == (
                        if gm.clients@[i].client_id == session.client_id {
                            ClientEntry { online: false, ..gm.clients@[i] }
                        } else {
                            gm.clients@[i]
                        })
                    &&& drained(broadcast_queues(session.broadcast_packets), exit.broadcast@)
                    &&& exit.will_delay == delayed_will(session)
                    &&& exit.session_expiry == Some(session.session_expiry_interval)
                    &&& exit.error is None
                    &&& match exit.offline {
                        Some((s, r)) => r == receiver && s == (Session {
                            connected: false,
                            connection_closed_time: Some(now),
                            last_will: if delayed_will(session) is Some {
                                session.last_will
                            } else {
                                None
                            },
                            broadcast_packets: s.broadcast_packets,
                            ..session
                        }) && broadcast_queues(s.broadcast_packets) == (Map::<u64, Seq<NormalMessage>>::empty()),
                        None => false,
                    }
                }
            },
{
    let ghost lent = session;
    let mut session = session;
    if taken_over {
        return OnlineExit {
            offline: None,
            broadcast: Vec::new(),
            will_delay: None,
            session_expiry: None,
            error: None,
        };
    }
    let keeps = session.session_expiry_interval > 0;
    let will_delay = match &session.last_will {
        Some(will) => match will.properties.delay_interval {
            Some(delay) => if delay > 0 && keeps {
                Some(delay)
            } else {
                None
            },
            None => None,
        },
        None => None,
    };
    if will_delay.is_none() {
        handle_will(&mut session, global);
    }
    let ghost gm = *global;
    assert(will_published(
        *old(global),
        gm,
        lent.client_id,
        pending_will(lent),
        lent.last_packet_time,
    ));
    let broadcast = session.broadcast_packets.drain();
    if !keeps {
        global.remove_client(session.client_id);
        OnlineExit { offline: None, broadcast, will_delay: None, session_expiry: None, error: io_error }
    } else {
        global.offline_client(session.client_id);
        session.connected = false;
        session.connection_closed_time = Some(now);
        let session_expiry = Some(session.session_expiry_interval);
        OnlineExit {
            offline: Some((session, receiver)),
            broadcast,
            will_delay,
            session_expiry,
            error: None,
        }
    }
}

/// What the loop of an offline session waits for.
#[derive(Debug)]
pub enum OfflineEvent {
    /// A control message came in.
    Control(ControlMessage),
    /// The control mailbox was closed.
    ControlClosed,
    /// A message from the session of `sender` came in.
    Normal { sender: ClientId, msg: NormalMessage },
    /// The normal mailbox was closed.
    NormalClosed,
}

/// What the loop of an offline session does next.
pub enum OfflineStep {
    /// It waits for the next event.
    Continue,
    /// It ends.
    Stop,
    /// It sends the state of the session to the channel `sender` and ends.
    HandOver { sender: u64, state: SessionState },
}

/// One step of the loop of an offline session. A message from another
/// session is taken as [`normal_handled`] says, and the loop goes on. A
/// control message is handled as [`control_handled`] says, with a write
/// queue that is thrown away, as there is no connection: a takeover
/// hands the state of the session over and ends the loop, and the loop
/// ends where [`control_result`] says that it stops. A closed mailbox
/// ends it. Where the loop ends without a takeover the session is over:
/// the broker forgets the client and its subscriptions.
pub fn handle_offline(
    session: &mut Session,
    receiver: ClientReceiver,
    event: OfflineEvent,
    global: &mut GlobalState,
) -> (step: OfflineStep)
    requires
        old(session).wf(),
        old(global).wf(),
    ensures
        final(session).wf(),
        final(global).wf(),
        match event {
            OfflineEvent::Control(msg) => exists|sm: Session, w1: Seq<WritePacket<Packet>>, gm: GlobalState|
                {
                    &&& #[trigger] control_handled(
                        *old(session),
                        sm,
                        Seq::<WritePacket<Packet>>::empty(),
                        w1,
                        *old(global),
                        gm,
                        msg,
                    )
                    &&& match control_result(*old(session), msg, old(global).config) {
                        (_, Some(sender)) => match step {
                            OfflineStep::HandOver { sender: to, state } => to == sender
                                && state.client_id == sm.client_id && state.receiver == receiver
                                && state.pending_packets == sm.pending_packets && state.qos2_pids
                                == sm.qos2_pids && state.subscribes == sm.subscribes
                                && state.broadcast_packets == sm.broadcast_packets
                                && state.server_packet_id == sm.server_packet_id
                                && *final(global) == gm,
                            _ => false,
                        },
                        (true, None) => step is Stop && *final(session) == sm && session_ended(
                            gm,
                            *final(global),
                            sm.client_id,
                        ),
                        (false, None) => step is Continue && *final(session) == sm
                            && *final(global) == gm,
                    }
                },
            OfflineEvent::Normal { sender, msg } => step is Continue && *final(global) == *old(global)
                && exists|delivered: Option<(QoS, Option<Packet>)>| #[trigger]
                normal_handled(*old(session), *final(session), sender, msg, delivered),
            _ => step is Stop && *final(session) == *old(session) && session_ended(
                *old(global),
                *final(global),
                old(session).client_id,
            ),
        },
{
    match event {
        OfflineEvent::Control(msg) => {
            let mut scratch: VecDeque<WritePacket<Packet>> = VecDeque::new();
            let (stop, sender_opt) = handle_control(session, msg, &mut scratch, global);
            let ghost sm = *session;
            let ghost gm = *global;
            assert(control_handled(
                *old(session),
                sm,
                Seq::<WritePacket<Packet>>::empty(),
                scratch@,
                *old(global),
                gm,
                msg,
            ));
            match sender_opt {
                Some(sender) => {
                    let state = session.build_state(receiver);
                    OfflineStep::HandOver { sender, state }
                },
                None => {
                    if stop {
                        global.remove_client(session.client_id);
                        OfflineStep::Stop
                    } else {
                        OfflineStep::Continue
                    }
                },
            }
        },
        OfflineEvent::Normal { sender, msg } => {
            let delivered = handle_normal(session, sender, msg);
            assert(normal_handled(*old(session), *session, sender, msg, delivered));
            OfflineStep::Continue
        },
        OfflineEvent::ControlClosed | OfflineEvent::NormalClosed => {
            global.remove_client(session.client_id);
            OfflineStep::Stop
        },
    }
}

} // verus!
