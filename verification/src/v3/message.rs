//! The decisions of the loops that drive a version 3.x session: what to
//! do with each packet, each message from another session and each
//! control message, and how a connection ends.

use vstd::prelude::*;
use std::collections::VecDeque;
use crate::config::Config;
use crate::hook::HookConnectCode;
use crate::hook::HookConnectedAction;
use crate::hook::HookRequest;
use crate::hook::HookResponse;
use crate::hook::LockedHookContext;
use crate::collections::broadcast_queues;
use crate::collections::drained;
use crate::online::queue_packets;
use crate::online::queued;
use crate::online::WritePacket;
use crate::pending::AckOutcome;
use crate::route::not_of;
use crate::state::client_absent;
use crate::state::session_ended;
use crate::state::ClientEntry;
use crate::state::ClientReceiver;
use crate::state::ControlMessage;
use crate::state::GlobalState;
use crate::state::NormalMessage;
use crate::topic::TopicFilter;
use crate::types::ClientId;
use crate::types::ErrorKind;
use crate::types::Pid;
use crate::types::QoS;
use crate::v3::common::after_handle_packet;
use crate::v3::common::handle_pendings;
use crate::v3::connect::handle_disconnect;
use crate::v3::packet::publish_encode_len;
use crate::v3::packet::publish_remaining_len;
use crate::v3::packet::total_len;
use crate::v3::packet::ConnectReturnCode;
use crate::v3::packet::LastWill;
use crate::v3::packet::Packet;
use crate::v3::packet::Publish;
use crate::v3::packet::Subscribe;
use crate::v3::packet::Unsubscribe;
use crate::v3::publish::handle_puback;
use crate::v3::publish::handle_pubcomp;
use crate::v3::publish::handle_publish;
use crate::v3::publish::handle_pubrec;
use crate::v3::publish::handle_pubrel;
use crate::v3::publish::publish_handled;
use crate::v3::publish::publish_received;
use crate::v3::publish::publish_sent;
use crate::v3::publish::recv_publish;
use crate::v3::publish::send_publish;
use crate::v3::publish::RecvPublish;
use crate::v3::publish::SendPublish;
use crate::v3::session::Session;
use crate::v3::session::SessionState;
use crate::v3::subscribe::handle_subscribe;
use crate::v3::subscribe::handle_unsubscribe;
use crate::v3::subscribe::subscribe_handled;
use crate::v3::subscribe::unsubscribe_handled;

verus! {

#[verifier::external_type_specification]
#[verifier::external_body]
pub struct ExCodecError(mqtt_proto::Error);

/// What `mqtt_proto::Error::is_eof` returns for an error of the codec:
/// whether the error says that the stream ended.
pub uninterp spec fn codec_error_eof(err: mqtt_proto::Error) -> bool;

/// `mqtt_proto::Error::is_eof`, a function of the error alone.
#[verifier::external_body]
fn error_is_eof(err: &mqtt_proto::Error) -> (eof: bool)
    ensures
        eof == codec_error_eof(*err),
{
    err.is_eof()
}

/// A packet that the hook must see before it takes effect.
#[derive(Debug)]
pub enum PacketHook {
    Publish { encode_len: usize, packet_body: Vec<u8>, publish: Publish },
    Subscribe { encode_len: usize, packet_body: Vec<u8>, subscribe: Subscribe },
    Unsubscribe { encode_len: usize, packet_body: Vec<u8>, unsubscribe: Unsubscribe },
}

/// How an error of the codec ends the connection: the end of the stream
/// is an error only if the client did not disconnect first; everything
/// else is invalid data.
pub open spec fn decode_error_result(eof: bool, disconnected: bool) -> Result<(), Option<ErrorKind>> {
    if eof {
        if !disconnected {
            Err(Some(ErrorKind::UnexpectedEof))
        } else {
            Err(None)
        }
    } else {
        Err(Some(ErrorKind::InvalidData))
    }
}

/// How an error of the codec ends the connection, given whether the error
/// is the end of the stream.
pub fn decode_error(eof: bool, disconnected: bool) -> (result: Result<(), Option<ErrorKind>>)
    ensures
        result == decode_error_result(eof, disconnected),
{
    if eof {
        if !disconnected {
            Err(Some(ErrorKind::UnexpectedEof))
        } else {
            Err(None)
        }
    } else {
        Err(Some(ErrorKind::InvalidData))
    }
}

/// Whether `s1`, `w1` and `g1` are the session `s0`, the write queue `w0`
/// and the shared state `g0` after the session handled `packet`, whose
/// encoded length is `encode_len`, with the result `result`.
///
/// A packet longer than the broker accepts fails with `InvalidData`, as
/// does a packet that no client may send. PUBLISH, SUBSCRIBE and
/// UNSUBSCRIBE go to the hook where the options say so, and change
/// nothing yet; otherwise they are handled, and what answers them is
/// queued for writing. PUBACK and PUBCOMP complete a delivery. PUBREC is
/// answered with PUBREL, PUBREL with PUBCOMP, PINGREQ with PINGRESP.
/// DISCONNECT marks the session as disconnected.
pub open spec fn packet_handled(
    s0: Session,
    s1: Session,
    w0: Seq<WritePacket<Packet>>,
    w1: Seq<WritePacket<Packet>>,
    g0: GlobalState,
    g1: GlobalState,
    encode_len: usize,
    packet_body: Vec<u8>,
    packet: Packet,
    result: Result<Option<PacketHook>, Option<ErrorKind>>,
) -> bool {
    if encode_len > g0.config.max_packet_size_server {
        result == Err::<Option<PacketHook>, _>(Some(ErrorKind::InvalidData)) && s1 == s0 && w1 == w0
            && g1 == g0
    } else {
        match packet {
            Packet::Disconnect => {
                &&& result == Ok::<_, Option<ErrorKind>>(None::<PacketHook>)
                &&& s1 == (Session { disconnected: true, ..s0 })
                &&& w1 == w0
                &&& g1 == g0
            },
            Packet::Publish(publish) => if g0.config.hook.enable_publish {
                &&& result == Ok::<_, Option<ErrorKind>>(
                    Some(PacketHook::Publish { encode_len, packet_body, publish }),
                )
                &&& s1 == s0
                &&& w1 == w0
                &&& g1 == g0
            } else {
                exists|answer: Result<Option<Packet>, ErrorKind>|
                    {
                        &&& #[trigger] publish_handled(s0, s1, g0, g1, publish, answer)
                        &&& match answer {
                            Ok(Some(reply)) => result == Ok::<_, Option<ErrorKind>>(
                                None::<PacketHook>,
                            ) && w1 == w0.push(WritePacket::Packet(reply)),
                            Ok(None) => result == Ok::<_, Option<ErrorKind>>(None::<PacketHook>)
                                && w1 == w0,
                            Err(kind) => result == Err::<Option<PacketHook>, _>(Some(kind)) && w1
                                == w0,
                        }
                    }
            },
            Packet::Puback(pid) => {
                &&& result == Ok::<_, Option<ErrorKind>>(None::<PacketHook>)
                &&& w1 == w0
                &&& g1 == g0
                &&& s1 == (Session { pending_packets: s1.pending_packets, ..s0 })
                &&& exists|outcome: AckOutcome| #[trigger]
                    crate::pending::acked(
                        s0.pending_packets,
                        s1.pending_packets,
                        pid,
                        crate::pending::AckKind::Puback,
                        s0.last_packet_time,
                        outcome,
                    )
            },
            Packet::Pubrec(pid) => {
                &&& result == Ok::<_, Option<ErrorKind>>(None::<PacketHook>)
                &&& w1 == w0.push(WritePacket::Packet(Packet::Pubrel(pid)))
                &&& g1 == g0
                &&& s1 == (Session { pending_packets: s1.pending_packets, ..s0 })
                &&& exists|outcome: AckOutcome| #[trigger]
                    crate::pending::acked(
                        s0.pending_packets,
                        s1.pending_packets,
                        pid,
                        crate::pending::AckKind::Pubrec,
                        s0.last_packet_time,
                        outcome,
                    )
            },
            Packet::Pubrel(pid) => {
                &&& g1 == g0
                &&& s1 == (Session { qos2_pids: s1.qos2_pids, ..s0 })
                &&& crate::collections::pid_digests(s1.qos2_pids) == crate::collections::pid_digests(
                    s0.qos2_pids,
                ).remove(pid.spec_value())
                &&& if crate::collections::pid_digests(s0.qos2_pids).contains_key(pid.spec_value()) {
                    result == Ok::<_, Option<ErrorKind>>(None::<PacketHook>) && w1 == w0.push(
                        WritePacket::Packet(Packet::Pubcomp(pid)),
                    )
                } else {
                    result == Err::<Option<PacketHook>, _>(Some(ErrorKind::InvalidData)) && w1 == w0
                }
            },
            Packet::Pubcomp(pid) => {
                &&& result == Ok::<_, Option<ErrorKind>>(None::<PacketHook>)
                &&& w1 == w0
                &&& g1 == g0
                &&& s1 == (Session { pending_packets: s1.pending_packets, ..s0 })
                &&& exists|outcome: AckOutcome| #[trigger]
                    crate::pending::acked(
                        s0.pending_packets,
                        s1.pending_packets,
                        pid,
                        crate::pending::AckKind::Pubcomp,
                        s0.last_packet_time,
                        outcome,
                    )
            },
            Packet::Subscribe(subscribe) => if g0.config.hook.enable_subscribe {
                &&& result == Ok::<_, Option<ErrorKind>>(
                    Some(PacketHook::Subscribe { encode_len, packet_body, subscribe }),
                )
                &&& s1 == s0
                &&& w1 == w0
                &&& g1 == g0
            } else {
                exists|answer: Result<Vec<Packet>, Option<ErrorKind>>|
                    {
                        &&& #[trigger] subscribe_handled(s0, s1, g0, g1, subscribe, answer)
                        &&& match answer {
                            Ok(packets) => result == Ok::<_, Option<ErrorKind>>(None::<PacketHook>)
                                && w1 == queued(w0, packets@),
                            Err(kind) => result == Err::<Option<PacketHook>, _>(kind) && w1 == w0,
                        }
                    }
            },
            Packet::Unsubscribe(unsubscribe) => if g0.config.hook.enable_unsubscribe {
                &&& result == Ok::<_, Option<ErrorKind>>(
                    Some(PacketHook::Unsubscribe { encode_len, packet_body, unsubscribe }),
                )
                &&& s1 == s0
                &&& w1 == w0
                &&& g1 == g0
            } else {
                &&& result == Ok::<_, Option<ErrorKind>>(None::<PacketHook>)
                &&& unsubscribe_handled(s0, s1, g0, g1, unsubscribe)
                &&& w1 == w0.push(WritePacket::Packet(Packet::Unsuback(unsubscribe.pid)))
            },
            Packet::Pingreq => {
                &&& result == Ok::<_, Option<ErrorKind>>(None::<PacketHook>)
                &&& s1 == s0
                &&& w1 == w0.push(WritePacket::Packet(Packet::Pingresp))
                &&& g1 == g0
            },
            _ => result == Err::<Option<PacketHook>, _>(Some(ErrorKind::InvalidData)) && s1 == s0
                && w1 == w0 && g1 == g0,
        }
    }
}

/// What a control message asks of the session: whether its loop is to
/// stop, and the channel that waits for its state if a new connection
/// takes it over. A takeover by a version 5.0 connection is taken up
/// only where the broker allows a takeover across protocol versions. A
/// kick stops the loop unless the client has disconnected already. A
/// timer of version 5.0 means nothing to the session.
pub open spec fn control_result(session: Session, msg: ControlMessage, config: Config) -> (bool, Option<u64>) {
    match msg {
        ControlMessage::OnlineV3 { sender } => (false, Some(sender)),
        ControlMessage::OnlineV5 { sender } => (
            false,
            if config.allow_cross_version_takeover {
                Some(sender)
            } else {
                None
            },
        ),
        ControlMessage::Kick { .. } => (!session.disconnected, None),
        _ => (false, None),
    }
}

/// Handles a control message: see [`control_result`].
pub fn handle_control(session: &mut Session, msg: ControlMessage, config: &Config) -> (result: (
    bool,
    Option<u64>,
))
    ensures
        result == control_result(*old(session), msg, *config),
        *final(session) == *old(session),
{
    match msg {
        ControlMessage::OnlineV3 { sender } => (false, Some(sender)),
        ControlMessage::OnlineV5 { sender } => {
            if config.allow_cross_version_takeover {
                (false, Some(sender))
            } else {
                (false, None)
            }
        },
        ControlMessage::Kick { .. } => (!session.disconnected, None),
        ControlMessage::WillDelayReached { .. } | ControlMessage::SessionExpired { .. } => (false, None),
    }
}

/// The publish that a message from another session carries.
pub open spec fn carried(msg: NormalMessage) -> RecvPublish<'static> {
    match msg {
        NormalMessage::PublishV3 {
            topic_name,
            qos,
            retain,
            payload,
            subscribe_filter,
            subscribe_qos,
            ..
        } => RecvPublish {
            topic_name: &topic_name,
            qos,
            retain,
            payload: &payload,
            subscribe_filter: &subscribe_filter,
            subscribe_qos,
            expiry: None,
        },
        NormalMessage::PublishV5 {
            topic_name,
            qos,
            retain,
            payload,
            subscribe_filter,
            subscribe_qos,
            expiry,
            ..
        } => RecvPublish {
            topic_name: &topic_name,
            qos,
            retain,
            payload: &payload,
            subscribe_filter: &subscribe_filter,
            subscribe_qos,
            expiry,
        },
    }
}

/// Takes a message from the session of `sender` without using it up: the
/// publish that it carries is taken as [`publish_received`] says. Of
/// what a version 5.0 publish has more than a version 3.x one, only the
/// time at which it expires counts: a message that has expired is
/// dropped.
pub fn take_message(session: &mut Session, sender: ClientId, msg: &NormalMessage) -> (delivered: Option<
    (QoS, Option<Packet>),
>)
    requires
        old(session).wf(),
    ensures
        final(session).wf(),
        publish_received(*old(session), *final(session), carried(*msg), delivered),
{
    match msg {
        NormalMessage::PublishV3 {
            topic_name,
            qos,
            retain,
            payload,
            subscribe_filter,
            subscribe_qos,
            ..
        } => recv_publish(
            session,
            RecvPublish {
                topic_name,
                qos: *qos,
                retain: *retain,
                payload,
                subscribe_filter,
                subscribe_qos: *subscribe_qos,
                expiry: None,
            },
        ),
        NormalMessage::PublishV5 {
            topic_name,
            qos,
            retain,
            payload,
            subscribe_filter,
            subscribe_qos,
            expiry,
            ..
        } => recv_publish(
            session,
            RecvPublish {
                topic_name,
                qos: *qos,
                retain: *retain,
                payload,
                subscribe_filter,
                subscribe_qos: *subscribe_qos,
                expiry: *expiry,
            },
        ),
    }
}

/// Handles a message from the session of `sender`: see [`take_message`].
pub fn handle_normal(session: &mut Session, sender: ClientId, msg: NormalMessage) -> (delivered: Option<
    (QoS, Option<Packet>),
>)
    requires
        old(session).wf(),
    ensures
        final(session).wf(),
        publish_received(*old(session), *final(session), carried(msg), delivered),
{
    take_message(session, sender, &msg)
}

/// The publish that a will makes, with the encoded length `encode_len`.
pub open spec fn will_publish(will: LastWill, encode_len: usize) -> SendPublish<'static> {
    SendPublish {
        topic_name: &will.topic_name,
        retain: will.retain,
        qos: will.qos,
        payload: &will.message,
        encode_len,
    }
}

/// The encoded length of the PUBLISH that carries a will, if it can be
/// encoded. The length is that of a PUBLISH without the retain flag.
pub open spec fn will_encode_len(will: LastWill) -> Option<int> {
    total_len(
        publish_remaining_len(will.qos, will.topic_name.bytes().len() as int, will.message@.len() as int),
    )
}

/// Whether `g1` is the shared state `g0` after the will `will` of the
/// client `client_id` was published: routed as a publish of the client
/// if there is one and it can be encoded, and nothing else.
pub open spec fn will_published(
    g0: GlobalState,
    g1: GlobalState,
    client_id: ClientId,
    will: Option<LastWill>,
) -> bool {
    match will {
        Some(w) => match will_encode_len(w) {
            Some(n) => publish_sent(g0, g1, client_id, will_publish(w, n as usize)),
            None => g1 == g0,
        },
        None => g1 == g0,
    }
}

/// Publishes the will of the session, if it has one, and takes it from
/// the session. A will that is too long to encode fails with
/// `InvalidData` and is not published.
pub fn handle_will(session: &mut Session, global: &mut GlobalState) -> (result: Result<(), ErrorKind>)
    requires
        old(global).wf(),
    ensures
        final(global).wf(),
        *final(session) == (Session { last_will: None, ..*old(session) }),
        will_published(*old(global), *final(global), old(session).client_id, old(session).last_will),
        result is Err <==> (old(session).last_will matches Some(w) && will_encode_len(w) is None),
        result matches Err(kind) ==> kind == ErrorKind::InvalidData,
{
    match session.last_will.take() {
        Some(last_will) => {
            let encode_len = match publish_encode_len(
                false,
                last_will.qos,
                &last_will.topic_name,
                &last_will.message,
            ) {
                Some(n) => n,
                None => {
                    return Err(ErrorKind::InvalidData);
                },
            };
            send_publish(
                session,
                SendPublish {
                    topic_name: &last_will.topic_name,
                    retain: last_will.retain,
                    qos: last_will.qos,
                    payload: &last_will.message,
                    encode_len,
                },
                global,
            );
            Ok(())
        },
        None => Ok(()),
    }
}

impl Session {
    /// Says how an error of the codec ends the connection: see
    /// [`decode_error_result`]. Whether the error is the end of the stream
    /// is for the codec to say.
    pub fn handle_decode_error(
        &mut self,
        err: mqtt_proto::Error,
        _write_packets: &mut VecDeque<WritePacket<Packet>>,
    ) -> (result: Result<(), Option<ErrorKind>>)
        ensures
            *final(self) == *old(self),
            *final(_write_packets) == *old(_write_packets),
            result == decode_error_result(codec_error_eof(err), old(self).disconnected),
    {
        let eof = error_is_eof(&err);
        decode_error(eof, self.disconnected)
    }

    /// Handles a packet of the client: see [`packet_handled`].
    pub fn handle_packet(
        &mut self,
        encode_len: usize,
        packet_body: Vec<u8>,
        packet: Packet,
        write_packets: &mut VecDeque<WritePacket<Packet>>,
        global: &mut GlobalState,
    ) -> (result: Result<Option<PacketHook>, Option<ErrorKind>>)
        requires
            old(self).wf(),
            old(global).wf(),
        ensures
            final(self).wf(),
            final(global).wf(),
            packet_handled(
                *old(self),
                *final(self),
                old(write_packets)@,
                final(write_packets)@,
                *old(global),
                *final(global),
                encode_len,
                packet_body,
                packet,
                result,
            ),
    {
        if encode_len > global.config.max_packet_size_server as usize {
            return Err(Some(ErrorKind::InvalidData));
        }
        match packet {
            Packet::Disconnect => {
                handle_disconnect(self);
            },
            Packet::Publish(publish) => {
                if global.config.hook.enable_publish {
                    return Ok(Some(PacketHook::Publish { encode_len, packet_body, publish }));
                }
                let answer = handle_publish(self, publish, global);
                assert(publish_handled(*old(self), *self, *old(global), *global, publish, answer));
                match answer {
                    Ok(Some(reply)) => {
                        write_packets.push_back(WritePacket::Packet(reply));
                    },
                    Ok(None) => {},
                    Err(kind) => {
                        return Err(Some(kind));
                    },
                }
            },
            Packet::Puback(pid) => {
                let _ = handle_puback(self, pid);
            },
            Packet::Pubrec(pid) => {
                let reply = handle_pubrec(self, pid);
                write_packets.push_back(WritePacket::Packet(reply));
            },
            Packet::Pubrel(pid) => {
                match handle_pubrel(self, pid) {
                    Ok(reply) => {
                        write_packets.push_back(WritePacket::Packet(reply));
                    },
                    Err(kind) => {
                        return Err(kind);
                    },
                }
            },
            Packet::Pubcomp(pid) => {
                let _ = handle_pubcomp(self, pid);
            },
            Packet::Subscribe(subscribe) => {
                if global.config.hook.enable_subscribe {
                    return Ok(Some(PacketHook::Subscribe { encode_len, packet_body, subscribe }));
                }
                let answer = handle_subscribe(self, &subscribe, global);
                assert(subscribe_handled(*old(self), *self, *old(global), *global, subscribe, answer));
                match answer {
                    Ok(packets) => {
                        queue_packets(write_packets, packets);
                    },
                    Err(kind) => {
                        return Err(kind);
                    },
                }
            },
            Packet::Unsubscribe(unsubscribe) => {
                if global.config.hook.enable_unsubscribe {
                    return Ok(
                        Some(PacketHook::Unsubscribe { encode_len, packet_body, unsubscribe }),
                    );
                }
                let reply = handle_unsubscribe(self, &unsubscribe, global);
                write_packets.push_back(WritePacket::Packet(reply));
            },
            Packet::Pingreq => {
                write_packets.push_back(WritePacket::Packet(Packet::Pingresp));
            },
            _ => {
                return Err(Some(ErrorKind::InvalidData));
            },
        }
        Ok(None)
    }

    /// What follows every packet that was handled: the tick of the
    /// retransmission timer, as [`crate::v3::common::pendings_handled`]
    /// says. What it gives to write is queued for writing.
    pub fn after_handle_packet(&mut self, write_packets: &mut VecDeque<WritePacket<Packet>>)
        requires
            old(self).wf(),
        ensures
            final(self).wf(),
            exists|packets: Seq<Packet>|
                #[trigger] crate::v3::common::pendings_handled(*old(self), *final(self), packets)
                    && final(write_packets)@ == queued(old(write_packets)@, packets),
    {
        let pending_packets = after_handle_packet(self);
        let ghost packets = pending_packets@;
        queue_packets(write_packets, pending_packets);
        assert(crate::v3::common::pendings_handled(*old(self), *self, packets));
    }

    /// Handles a control message: see [`control_result`].
    pub fn handle_control(&mut self, msg: ControlMessage, global: &GlobalState) -> (result: (
        bool,
        Option<u64>,
    ))
        ensures
            result == control_result(*old(self), msg, global.config),
            *final(self) == *old(self),
    {
        handle_control(self, msg, &global.config)
    }

    /// Handles a message from the session of `sender`: see
    /// [`publish_received`].
    pub fn handle_normal(&mut self, sender: ClientId, msg: NormalMessage, _global: &GlobalState) -> (delivered:
        Option<(QoS, Option<Packet>)>)
        requires
            old(self).wf(),
        ensures
            final(self).wf(),
            publish_received(*old(self), *final(self), carried(msg), delivered),
    {
        handle_normal(self, sender, msg)
    }

    /// A tick of the retransmission timer: see
    /// [`crate::v3::common::pendings_handled`].
    pub fn handle_pendings(&mut self) -> (packets: Vec<Packet>)
        requires
            old(self).wf(),
        ensures
            final(self).wf(),
            crate::v3::common::pendings_handled(*old(self), *final(self), packets@),
    {
        handle_pendings(self)
    }
}

/// How the hook answered a request, as far as the loop of the connection
/// got an answer at all.
#[derive(Debug)]
pub enum HookReply<T> {
    /// The request could not be handed over: no hook service runs.
    NoService,
    /// The hook service took the request and stopped before it answered.
    Stopped,
    /// The answer of the hook service.
    Answer(Result<T, ErrorKind>),
}

/// Whether a CONNECT may go on after the hook was asked: only an answer
/// that accepts lets it. The error that the hook service reports is
/// passed on; everything else that is no acceptance is `InvalidData`.
pub open spec fn before_connect_result(reply: HookReply<HookConnectCode>) -> Result<(), ErrorKind> {
    match reply {
        HookReply::Answer(Ok(code)) => if code.spec_v3_code() == ConnectReturnCode::Accepted {
            Ok(())
        } else {
            Err(ErrorKind::InvalidData)
        },
        HookReply::Answer(Err(kind)) => Err(kind),
        _ => Err(ErrorKind::InvalidData),
    }
}

/// Decides whether a CONNECT may go on after the hook was asked: see
/// [`before_connect_result`].
pub fn before_connect_hook(reply: HookReply<HookConnectCode>) -> (result: Result<(), ErrorKind>)
    ensures
        result == before_connect_result(reply),
{
    let code = match reply {
        HookReply::NoService => {
            return Err(ErrorKind::InvalidData);
        },
        HookReply::Stopped => {
            return Err(ErrorKind::InvalidData);
        },
        HookReply::Answer(Err(kind)) => {
            return Err(kind);
        },
        HookReply::Answer(Ok(code)) => code.to_v3_code(),
    };
    match code {
        ConnectReturnCode::Accepted => Ok(()),
        _ => Err(ErrorKind::InvalidData),
    }
}

/// Whether `s1` and `g1` are the session `s0` and the shared state `g0`
/// after one action that the hook asked for on connect. A publish is
/// routed as a publish of the session. A subscribe is handled as a
/// SUBSCRIBE of the client, but its answer is not written: the client
/// asked for none. An unsubscribe is handled as an UNSUBSCRIBE.
/// `failed` says that the action is a publish too long to encode, which
/// changes nothing.
#[verifier::opaque]
pub open spec fn action_applied(
    s0: Session,
    s1: Session,
    g0: GlobalState,
    g1: GlobalState,
    action: HookConnectedAction,
    failed: bool,
) -> bool {
    match action {
        HookConnectedAction::Publish(publish) => {
            let len = total_len(
                publish_remaining_len(
                    publish.qos,
                    publish.topic_name.bytes().len() as int,
                    publish.payload@.len() as int,
                ),
            );
            &&& s1 == s0
            &&& failed == (len is None)
            &&& match len {
                None => g1 == g0,
                Some(n) => publish_sent(
                    g0,
                    g1,
                    s0.client_id,
                    SendPublish {
                        topic_name: &publish.topic_name,
                        retain: publish.retain,
                        qos: publish.qos,
                        payload: &publish.payload,
                        encode_len: n as usize,
                    },
                ),
            }
        },
        HookConnectedAction::Subscribe(subscribe) => {
            &&& !failed
            &&& exists|packet: Subscribe, answer: Result<Vec<Packet>, Option<ErrorKind>>|
                packet.pid == Pid::spec_default() && packet.topics@ == subscribe.0@
                    && #[trigger] subscribe_handled(s0, s1, g0, g1, packet, answer)
        },
        HookConnectedAction::Unsubscribe(unsubscribe) => {
            &&& !failed
            &&& exists|packet: Unsubscribe|
                packet.pid == Pid::spec_default() && packet.topics@ == unsubscribe.0@
                    && #[trigger] unsubscribe_handled(s0, s1, g0, g1, packet)
        },
    }
}

/// Whether `sessions` and `globals` are the states through which the
/// first `n` of `actions` lead, one after the other, from the session
/// `s0` and the shared state `g0` to `s1` and `g1`.
pub open spec fn actions_traced(
    sessions: Seq<Session>,
    globals: Seq<GlobalState>,
    s0: Session,
    s1: Session,
    g0: GlobalState,
    g1: GlobalState,
    actions: Seq<HookConnectedAction>,
    n: int,
) -> bool {
    &&& 0 <= n <= actions.len()
    &&& sessions.len() == n + 1
    &&& globals.len() == n + 1
    &&& sessions[0] == s0
    &&& globals[0] == g0
    &&& sessions[n] == s1
    &&& globals[n] == g1
    &&& forall|k: int|
        0 <= k < n ==> action_applied(
            #[trigger] sessions[k],
            sessions[k + 1],
            globals[k],
            globals[k + 1],
            actions[k],
            false,
        )
}

/// Whether `s1` and `g1` are the session `s0` and the shared state `g0`
/// after the first `n` of `actions` were applied, one after the other.
pub open spec fn actions_applied(
    s0: Session,
    s1: Session,
    g0: GlobalState,
    g1: GlobalState,
    actions: Seq<HookConnectedAction>,
    n: int,
) -> bool {
    exists|sessions: Seq<Session>, globals: Seq<GlobalState>| #[trigger]
        actions_traced(sessions, globals, s0, s1, g0, g1, actions, n)
}

/// Applies one action that the hook asked for on connect: see
/// [`action_applied`]. The result says whether the action failed.
pub fn apply_action(session: &mut Session, action: &HookConnectedAction, global: &mut GlobalState) -> (failed:
    bool)
    requires
        old(session).wf(),
        old(global).wf(),
    ensures
        final(session).wf(),
        final(global).wf(),
        action_applied(*old(session), *final(session), *old(global), *final(global), *action, failed),
        failed ==> *final(session) == *old(session) && *final(global) == *old(global),
{
    reveal(action_applied);
    match action {
        HookConnectedAction::Publish(publish) => {
            let encode_len = match publish_encode_len(
                publish.retain,
                publish.qos,
                &publish.topic_name,
                &publish.payload,
            ) {
                Some(n) => n,
                None => {
                    return true;
                },
            };
            send_publish(
                session,
                SendPublish {
                    topic_name: &publish.topic_name,
                    retain: publish.retain,
                    qos: publish.qos,
                    payload: &publish.payload,
                    encode_len,
                },
                global,
            );
        },
        HookConnectedAction::Subscribe(subscribe) => {
            let packet = Subscribe { pid: Pid::default(), topics: clone_topics(&subscribe.0) };
            let answer = handle_subscribe(session, &packet, global);
            assert(subscribe_handled(*old(session), *session, *old(global), *global, packet, answer));
        },
        HookConnectedAction::Unsubscribe(unsubscribe) => {
            let packet = Unsubscribe { pid: Pid::default(), topics: clone_filters(&unsubscribe.0) };
            let _ = handle_unsubscribe(session, &packet, global);
            assert(unsubscribe_handled(*old(session), *session, *old(global), *global, packet));
        },
    }
    false
}

/// Whether `s1` and `g1` are the session `s0` and the shared state `g0`
/// after what the hook asked for on connect was applied, in the order of
/// its answer, with the result `result`. Without an answer that holds
/// actions nothing is done: the error that the hook service reports is
/// passed on, and the lack of an answer is `InvalidData`. A publish that
/// is too long to encode ends the work with `InvalidData`; what came
/// before it stays applied.
pub open spec fn connected_actions_applied(
    s0: Session,
    s1: Session,
    g0: GlobalState,
    g1: GlobalState,
    reply: HookReply<Vec<HookConnectedAction>>,
    result: Result<(), ErrorKind>,
) -> bool {
    match reply {
        HookReply::Answer(Ok(actions)) => match result {
            Ok(_) => actions_applied(s0, s1, g0, g1, actions@, actions@.len() as int),
            Err(kind) => kind == ErrorKind::InvalidData && exists|n: int|
                0 <= n < actions@.len() && #[trigger] actions_applied(s0, s1, g0, g1, actions@, n)
                    && action_applied(s1, s1, g1, g1, actions@[n], true),
        },
        HookReply::Answer(Err(kind)) => result == Err::<(), _>(kind) && s1 == s0 && g1 == g0,
        _ => result == Err::<(), _>(ErrorKind::InvalidData) && s1 == s0 && g1 == g0,
    }
}

/// Applies what the hook asked for on connect: see
/// [`connected_actions_applied`].
pub fn after_connect_hook(
    session: &mut Session,
    reply: HookReply<Vec<HookConnectedAction>>,
    global: &mut GlobalState,
) -> (result: Result<(), ErrorKind>)
    requires
        old(session).wf(),
        old(global).wf(),
    ensures
        final(session).wf(),
        final(global).wf(),
        connected_actions_applied(
            *old(session),
            *final(session),
            *old(global),
            *final(global),
            reply,
            result,
        ),
{
    let actions = match reply {
        HookReply::NoService => {
            return Err(ErrorKind::InvalidData);
        },
        HookReply::Stopped => {
            return Err(ErrorKind::InvalidData);
        },
        HookReply::Answer(Err(kind)) => {
            return Err(kind);
        },
        HookReply::Answer(Ok(actions)) => actions,
    };
    let mut i: usize = 0;
    let ghost mut sessions: Seq<Session> = seq![*session];
    let ghost mut globals: Seq<GlobalState> = seq![*global];
    while i < actions.len()
        invariant
            i <= actions.len(),
            reply == HookReply::Answer(Ok::<_, ErrorKind>(actions)),
            session.wf(),
            global.wf(),
            actions_traced(
                sessions,
                globals,
                *old(session),
                *session,
                *old(global),
                *global,
                actions@,
                i as int,
            ),
        decreases actions.len() - i,
    {
        let failed = apply_action(session, &actions[i], global);
        if failed {
            assert(actions_applied(*old(session), *session, *old(global), *global, actions@, i as int));
            assert(action_applied(*session, *session, *global, *global, actions@[i as int], true));
            assert(reply is Answer && reply->Answer_0 is Ok && reply->Answer_0->Ok_0 == actions);
            assert(exists|n: int|
                0 <= n < actions@.len() && #[trigger] actions_applied(
                    *old(session),
                    *session,
                    *old(global),
                    *global,
                    actions@,
                    n,
                ) && action_applied(*session, *session, *global, *global, actions@[n], true));
            assert(connected_actions_applied(
                *old(session),
                *session,
                *old(global),
                *global,
                reply,
                Err::<(), _>(ErrorKind::InvalidData),
            ));
            return Err(ErrorKind::InvalidData);
        }
        proof {
            let before_sessions = sessions;
            let before_globals = globals;
            sessions = sessions.push(*session);
            globals = globals.push(*global);
            assert forall|k: int| 0 <= k < i + 1 implies action_applied(
                #[trigger] sessions[k],
                sessions[k + 1],
                globals[k],
                globals[k + 1],
                actions@[k],
                false,
            ) by {
                if k < i {
                    assert(action_applied(
                        before_sessions[k],
                        before_sessions[k + 1],
                        before_globals[k],
                        before_globals[k + 1],
                        actions@[k],
                        false,
                    ));
                }
            }
        }
        i += 1;
    }
    assert(actions_applied(*old(session), *session, *old(global), *global, actions@, i as int));
    Ok(())
}

/// A copy of a list of filters with the quality of service asked for,
/// sharing the filters.
pub fn clone_topics(topics: &Vec<(TopicFilter, QoS)>) -> (copy: Vec<(TopicFilter, QoS)>)
    ensures
        copy@ == topics@,
{
    let mut copy: Vec<(TopicFilter, QoS)> = Vec::new();
    let mut i: usize = 0;
    while i < topics.len()
        invariant
            i <= topics.len(),
            copy@ == topics@.take(i as int),
        decreases topics.len() - i,
    {
        copy.push((topics[i].0.clone(), topics[i].1));
        assert(topics@.take(i + 1) =~= topics@.take(i as int).push(topics@[i as int]));
        i += 1;
    }
    assert(topics@.take(i as int) =~= topics@);
    copy
}

/// A copy of a list of filters, sharing the filters.
pub fn clone_filters(filters: &Vec<TopicFilter>) -> (copy: Vec<TopicFilter>)
    ensures
        copy@ == filters@,
{
    let mut copy: Vec<TopicFilter> = Vec::new();
    let mut i: usize = 0;
    while i < filters.len()
        invariant
            i <= filters.len(),
            copy@ == filters@.take(i as int),
        decreases filters.len() - i,
    {
        copy.push(filters[i].clone());
        assert(filters@.take(i + 1) =~= filters@.take(i as int).push(filters@[i as int]));
        i += 1;
    }
    assert(filters@.take(i as int) =~= filters@);
    copy
}

/// The request that asks the hook what is to be done for a client that
/// has connected. It lends the session and the write queue of the
/// connection to the hook: what the hook queues there is written to the
/// connection once the loan has ended.
pub fn after_connect_request(
    session: Session,
    write_packets: VecDeque<WritePacket<Packet>>,
    session_present: bool,
) -> (request: HookRequest)
    ensures
        request matches HookRequest::V3AfterConnect { context, session_present: present }
            && context.session() == session && context.write_packets() == write_packets
            && present == session_present,
{
    HookRequest::V3AfterConnect { context: LockedHookContext::new(session, write_packets), session_present }
}

/// Ends the loan that [`after_connect_request`] made, and does what the
/// hook asked for: see [`connected_actions_applied`]. The result is the
/// session, the write queue as the hook left it, and whether the
/// connection may go on. Without an answer that gives the session back
/// there is no result, and nothing changes.
pub fn after_connect_reply(reply: HookReply<HookResponse>, global: &mut GlobalState) -> (back: Option<
    (Session, VecDeque<WritePacket<Packet>>, Result<(), ErrorKind>),
>)
    requires
        old(global).wf(),
        reply matches HookReply::Answer(Ok(HookResponse::V3Connected(context, _)))
            ==> context.session().wf(),
    ensures
        final(global).wf(),
        match reply {
            HookReply::Answer(Ok(HookResponse::V3Connected(context, actions))) => match back {
                Some((s1, w1, result)) => s1.wf() && w1 == context.write_packets()
                    && connected_actions_applied(
                    context.session(),
                    s1,
                    *old(global),
                    *final(global),
                    HookReply::Answer(Ok::<_, ErrorKind>(actions)),
                    result,
                ),
                None => false,
            },
            _ => back is None && *final(global) == *old(global),
        },
{
    match reply {
        HookReply::Answer(Ok(HookResponse::V3Connected(context, actions))) => {
            let (mut session, write_packets) = context.into_inner();
            let result = after_connect_hook(&mut session, HookReply::Answer(Ok(actions)), global);
            Some((session, write_packets, result))
        },
        _ => None,
    }
}

/// The will that is published when the online phase of the session ends:
/// the will of the session, unless the client disconnected.
pub open spec fn pending_will(session: Session) -> Option<LastWill> {
    if session.disconnected {
        None
    } else {
        session.last_will
    }
}

/// How the online phase of a connection ended.
pub struct OnlineExit {
    /// The session and its mailboxes, if the session lives on offline.
    pub offline: Option<(Session, ClientReceiver)>,
    /// What waited in the broadcast queue: every target once, with its
    /// messages, oldest first. The caller hands them to the mailboxes.
    pub broadcast: Vec<(ClientId, Vec<NormalMessage>)>,
    /// The error with which the connection ends, if it ends with one: that
    /// of the loop, for a session that does not live on.
    pub error: Option<ErrorKind>,
}

/// Ends the online phase of a connection, after its loop has stopped with
/// or without an error. A session that was taken over is gone without
/// more ado. Otherwise the will is published unless the client
/// disconnected; a will that cannot be encoded ends everything with
/// `InvalidData`. Then the broadcast queue is handed out, whatever
/// follows. A clean session is removed with its subscriptions, and the
/// error of the loop, if any, is handed on. Any other session goes
/// offline and lives on.
pub fn finish_online(
    session: Session,
    receiver: ClientReceiver,
    taken_over: bool,
    io_error: Option<ErrorKind>,
    global: &mut GlobalState,
) -> (result: Result<OnlineExit, ErrorKind>)
    requires
        session.wf(),
        old(global).wf(),
    ensures
        final(global).wf(),
        taken_over ==> *final(global) == *old(global) && (match result {
            Ok(exit) => exit.offline is None && exit.broadcast@.len() == 0 && exit.error is None,
            Err(_) => false,
        }),
        !taken_over ==> {
            let will_fails = pending_will(session) matches Some(w) && will_encode_len(w) is None;
            &&& will_fails ==> result == Err::<OnlineExit, _>(ErrorKind::InvalidData) && *final(global) == *old(global)
            &&& !will_fails ==> exists|gm: GlobalState|
                {
                    &&& #[trigger] will_published(
                        *old(global),
                        gm,
                        session.client_id,
                        pending_will(session),
                    )
                    &&& final(global).config == gm.config
                    &&& final(global).retain_table == gm.retain_table
                    &&& final(global).outbox == gm.outbox
                    &&& if session.clean_session {
                        &&& final(global).route_table@ == gm.route_table@.filter(
                            not_of(session.client_id),
                        )
                        &&& client_absent(final(global).clients@, session.client_id)
                        &&& crate::state::client_removed(gm.clients@, final(global).clients@, session.client_id)
                        &&& match result {
                            Ok(exit) => exit.offline is None && drained(
                                broadcast_queues(session.broadcast_packets),
                                exit.broadcast@,
                            ) && exit.error == io_error,
                            Err(_) => false,
                        }
                    } else {
                        &&& final(global).route_table == gm.route_table
                        &&& final(global).clients@.len() == gm.clients@.len()
                        &&& forall|i: int|
                            0 <= i < gm.clients@.len() ==> #[trigger] final(global).clients@[i] == (
                            if gm.clients@[i].client_id == session.client_id {
                                ClientEntry { online: false, ..gm.clients@[i] }
                            } else {
                                gm.clients@[i]
                            })
                        &&& match result {
                            Ok(exit) => drained(broadcast_queues(session.broadcast_packets), exit.broadcast@)
                                && exit.error is None && (match exit.offline {
                                Some((s, r)) => r == receiver && s == (Session {
                                    connected: false,
                                    last_will: if session.disconnected {
                                        session.last_will
                                    } else {
                                        None
                                    },
                                    broadcast_packets: s.broadcast_packets,
                                    ..session
                                }) && broadcast_queues(s.broadcast_packets) == (Map::<u64, Seq<NormalMessage>>::empty()),
                                None => false,
                            }),
                            Err(_) => false,
                        }
                    }
                }
        },
{
    let ghost lent = session;
    let mut session = session;
    if taken_over {
        return Ok(OnlineExit { offline: None, broadcast: Vec::new(), error: None });
    }
    if !session.disconnected {
        match handle_will(&mut session, global) {
            Ok(_) => {},
            Err(kind) => {
                return Err(kind);
            },
        }
    }
    let ghost gm = *global;
    assert(will_published(*old(global), gm, lent.client_id, pending_will(lent)));
    let broadcast = session.broadcast_packets.drain();
    if session.clean_session {
        global.remove_client(session.client_id);
        Ok(OnlineExit { offline: None, broadcast, error: io_error })
    } else {
        global.offline_client(session.client_id);
        session.connected = false;
        Ok(OnlineExit { offline: Some((session, receiver)), broadcast, error: None })
    }
}

/// What the loop of an offline session waits for.
#[derive(Debug)]
pub enum OfflineEvent {
    /// A control message came in.
    Control(ControlMessage),
    /// The control mailbox was closed.
    ControlClosed,
    /// A message from the session of `sender` came in.
    Normal { sender: ClientId, msg: NormalMessage },
    /// The normal mailbox was closed.
    NormalClosed,
}

/// What the loop of an offline session does next.
pub enum OfflineStep {
    /// It waits for the next event.
    Continue,
    /// It ends.
    Stop,
    /// It sends the state of the session to the channel `sender` and ends.
    HandOver { sender: u64, state: SessionState },
}

/// One step of the loop of an offline session. A message from another
/// session is taken as [`publish_received`] says, and the loop goes on.
/// A takeover hands the state of the session over and ends the loop; a
/// kick ends it if the client had not disconnected; a closed mailbox
/// ends it. Where the loop ends without a takeover the session is over:
/// the broker forgets the client and its subscriptions.
pub fn handle_offline(
    session: &mut Session,
    receiver: ClientReceiver,
    event: OfflineEvent,
    global: &mut GlobalState,
) -> (step: OfflineStep)
    requires
        old(session).wf(),
        old(global).wf(),
    ensures
        final(session).wf(),
        final(global).wf(),
        match event {
            OfflineEvent::Control(msg) => match control_result(*old(session), msg, old(global).config) {
                (_, Some(sender)) => step matches OfflineStep::HandOver { sender: to, state } && to
                    == sender && state.client_id == old(session).client_id && state.receiver
                    == receiver && state.pending_packets == old(session).pending_packets
                    && state.qos2_pids == old(session).qos2_pids
                    && state.subscribes == old(session).subscribes
                    && state.broadcast_packets == old(session).broadcast_packets
                    && state.server_packet_id == old(session).server_packet_id
                    && *final(global) == *old(global),
                (true, None) => step is Stop && *final(session) == *old(session) && session_ended(
                    *old(global),
                    *final(global),
                    old(session).client_id,
                ),
                (false, None) => step is Continue && *final(session) == *old(session)
                    && *final(global) == *old(global),
            },
            OfflineEvent::Normal { sender, msg } => step is Continue && *final(global) == *old(global)
                && exists|delivered: Option<(QoS, Option<Packet>)>| #[trigger]
                publish_received(*old(session), *final(session), carried(msg), delivered),
            _ => step is Stop && *final(session) == *old(session) && session_ended(
                *old(global),
                *final(global),
                old(session).client_id,
            ),
        },
{
    match event {
        OfflineEvent::Control(msg) => {
            let (stop, sender_opt) = handle_control(session, msg, &global.config);
            match sender_opt {
                Some(sender) => {
                    let state = session.build_state(receiver);
                    OfflineStep::HandOver { sender, state }
                },
                None => {
                    if stop {
                        global.remove_client(session.client_id);
                        OfflineStep::Stop
                    } else {
                        OfflineStep::Continue
                    }
                },
            }
        },
        OfflineEvent::Normal { sender, msg } => {
            let _ = handle_normal(session, sender, msg);
            OfflineStep::Continue
        },
        OfflineEvent::ControlClosed | OfflineEvent::NormalClosed => {
            global.remove_client(session.client_id);
            OfflineStep::Stop
        },
    }
}

} // verus!
