//! What a session does with PUBLISH and with the acknowledgements of the
//! two delivery flows.

use vstd::prelude::*;
use crate::collections::pid_digests;
use crate::collections::pid_digests_get;
use crate::collections::pid_digests_insert;
use crate::collections::pid_digests_len;
use crate::collections::pid_digests_remove;
use crate::collections::subscriptions;
use crate::collections::subscriptions_get;
use crate::fingerprint::fingerprint;
use crate::pending::AckKind;
use crate::pending::AckOutcome;
use crate::pending::AckState;
use crate::pending::PendingPacket;
use crate::retain::inserted;
use crate::retain::removed;
use crate::retain::RetainContent;
use crate::route::matching;
use crate::route::RouteEntry;
use crate::state::Delivery;
use crate::state::GlobalState;
use crate::state::NormalMessage;
use crate::topic::TopicFilter;
use crate::topic::TopicName;
use crate::types::share;
use crate::types::ClientId;
use crate::types::ErrorKind;
use crate::types::Payload;
use crate::types::Pid;
use crate::types::QoS;
use crate::types::QosPid;
use crate::v3::packet::publish_encode_len;
use crate::v3::packet::publish_remaining_len;
use crate::v3::packet::total_len;
use crate::v3::packet::Packet;
use crate::v3::packet::Publish;
use crate::types::lemma_pid_equal;
use crate::v3::session::has_spare;
use crate::v3::session::is_next_free;
use crate::v3::session::lemma_next_differs;
use crate::v3::session::PubPacket;
use crate::v3::session::Session;

verus! {

/// A publish on its way from a session to the subscribers of its topic.
pub struct SendPublish<'a> {
    pub topic_name: &'a TopicName,
    pub retain: bool,
    pub qos: QoS,
    pub payload: &'a Payload,
    pub encode_len: usize,
}

/// A publish that arrived at the session of a subscriber.
pub struct RecvPublish<'a> {
    pub topic_name: &'a TopicName,
    pub qos: QoS,
    pub retain: bool,
    pub payload: &'a Payload,
    pub subscribe_filter: &'a TopicFilter,
    pub subscribe_qos: QoS,
    /// When the message expires, if it does: only a message that a
    /// version 5.0 client published can.
    pub expiry: Option<u64>,
}

/// The delivery that a publish of `sender` makes for one subscription. The
/// retain flag stays only where the subscription asks to see it as
/// published.
pub open spec fn delivery_v3(sender: ClientId, msg: SendPublish) -> spec_fn(RouteEntry) -> Delivery {
    |e: RouteEntry|
        Delivery {
            sender,
            receiver: e.client_id,
            message: NormalMessage::PublishV3 {
                topic_name: *msg.topic_name,
                qos: msg.qos,
                retain: msg.retain && e.data.options.retain_as_published,
                payload: *msg.payload,
                subscribe_filter: e.filter,
                subscribe_qos: e.data.options.max_qos,
                encode_len: msg.encode_len,
            },
        }
}

/// The retained message that a publish of `sender` leaves.
pub open spec fn retain_content_v3(sender: ClientId, msg: SendPublish) -> RetainContent {
    RetainContent {
        topic_name: *msg.topic_name,
        qos: msg.qos,
        payload: *msg.payload,
        properties: None,
        client_id: sender,
        expiry: None,
        encode_len: msg.encode_len,
    }
}

/// What a publish does to the retained messages: nothing unless it has
/// the retain flag and the broker retains at all; with an empty payload
/// it clears the message of its topic; otherwise it becomes that message.
pub open spec fn retain_effect(
    old: Seq<RetainContent>,
    new: Seq<RetainContent>,
    applies: bool,
    content: RetainContent,
) -> bool {
    if !applies {
        new == old
    } else if content.payload@.len() == 0 {
        removed(old, new, content.topic_name@)
    } else {
        inserted(old, new, content)
    }
}

/// Whether `g1` is the shared state `g0` after `sender` routed the publish
/// `msg`: the retained messages are updated, and the outbox has one more
/// delivery for every subscription whose filter matches the topic, in the
/// order of the subscriptions.
pub open spec fn publish_sent(g0: GlobalState, g1: GlobalState, sender: ClientId, msg: SendPublish) -> bool {
    &&& g1.config == g0.config
    &&& g1.clients == g0.clients
    &&& g1.route_table == g0.route_table
    &&& retain_effect(
        g0.retain_table@,
        g1.retain_table@,
        msg.retain && g0.config.retain_available,
        retain_content_v3(sender, msg),
    )
    &&& g1.outbox@ == g0.outbox@ + g0.route_table@.filter(matching(*msg.topic_name)).map_values(
        delivery_v3(sender, msg),
    )
}

/// Routes a publish of `session`: see [`publish_sent`].
pub fn send_publish(session: &Session, msg: SendPublish, global: &mut GlobalState)
    requires
        old(global).wf(),
    ensures
        final(global).wf(),
        publish_sent(*old(global), *final(global), session.client_id, msg),
{
    if msg.retain && global.config.retain_available {
        if msg.payload.len() == 0 {
            let _ = global.retain_table.remove(msg.topic_name);
        } else {
            let _ = global.retain_table.insert(
                RetainContent {
                    topic_name: msg.topic_name.clone(),
                    qos: msg.qos,
                    payload: share(msg.payload),
                    properties: None,
                    client_id: session.client_id,
                    expiry: None,
                    encode_len: msg.encode_len,
                },
            );
        }
    }
    let matches = global.route_table.get_matches(msg.topic_name);
    let ghost make = delivery_v3(session.client_id, msg);
    let ghost before = global.outbox@;
    let mut i: usize = 0;
    assert(global.outbox@ =~= before + matches@.take(0).map_values(make));
    while i < matches.len()
        invariant
            i <= matches.len(),
            make == delivery_v3(session.client_id, msg),
            global.outbox@ == before + matches@.take(i as int).map_values(make),
            global.wf(),
            global.config == old(global).config,
            global.clients == old(global).clients,
            global.route_table == old(global).route_table,
            retain_effect(
                old(global).retain_table@,
                global.retain_table@,
                msg.retain && old(global).config.retain_available,
                retain_content_v3(session.client_id, msg),
            ),
        decreases matches.len() - i,
    {
        let entry = &matches[i];
        global.outbox.push(
            Delivery {
                sender: session.client_id,
                receiver: entry.client_id,
                message: NormalMessage::PublishV3 {
                    topic_name: msg.topic_name.clone(),
                    qos: msg.qos,
                    retain: msg.retain && entry.data.options.retain_as_published,
                    payload: share(msg.payload),
                    subscribe_filter: entry.filter.clone(),
                    subscribe_qos: entry.data.options.max_qos,
                    encode_len: msg.encode_len,
                },
            },
        );
        assert(matches@.take(i + 1).map_values(make) =~= matches@.take(i as int).map_values(
            make,
        ).push(make(matches@[i as int])));
        i += 1;
    }
    assert(matches@.take(i as int) =~= matches@);
}

/// The state in which a publish of the given quality of service enters
/// the queue of unacknowledged packets.
pub open spec fn initial_state(qos: QoS) -> AckState {
    if qos == QoS::Level1 {
        AckState::AwaitingAck
    } else {
        AckState::AwaitingRec
    }
}

/// The quality of service with the packet identifier that it needs.
pub open spec fn with_pid(qos: QoS, pid: Pid) -> QosPid {
    match qos {
        QoS::Level0 => QosPid::Level0,
        QoS::Level1 => QosPid::Level1(pid),
        QoS::Level2 => QosPid::Level2(pid),
    }
}

/// Whether the session takes a publish that reaches it for a
/// subscription: it has the subscription still, the message has not
/// expired, and for a delivery that must be acknowledged its queue has
/// room and a packet identifier is to spare.
pub open spec fn accepts(session: Session, msg: RecvPublish) -> bool {
    &&& subscriptions(session.subscribes).contains_key(msg.subscribe_filter@)
    &&& !(msg.expiry matches Some(deadline) && deadline <= session.last_packet_time)
    &&& (msg.qos.spec_min(msg.subscribe_qos) == QoS::Level0 || (session.pending_packets@.len()
        < session.pending_packets.capacity() && has_spare(
        session.pending_packets@,
        session.server_packet_id.spec_value(),
    )))
}

/// The PUBLISH that delivers a message to the client of `session`.
pub open spec fn delivered_publish(session: Session, msg: RecvPublish) -> Publish {
    Publish {
        dup: false,
        retain: msg.retain,
        qos_pid: with_pid(msg.qos.spec_min(msg.subscribe_qos), session.server_packet_id),
        topic_name: *msg.topic_name,
        payload: *msg.payload,
    }
}

/// The encoded length of a PUBLISH with this quality of service, topic
/// and payload, or 0 for one that is too long to encode.
pub open spec fn publish_len(qos: QoS, topic_name: TopicName, payload: Payload) -> usize {
    match total_len(
        publish_remaining_len(qos, topic_name.bytes().len() as int, payload@.len() as int),
    ) {
        Some(n) => n as usize,
        None => 0,
    }
}

/// Whether a delivery that enters the queue is written to the connection
/// at once: the client is connected, and the window has room.
pub open spec fn transmits(session: Session) -> bool {
    session.connected && !session.disconnected && session.pending_packets@.len()
        < session.pending_packets.spec_max_inflight()
}

/// The entry that a delivery makes in the queue of unacknowledged packets.
pub open spec fn delivered_entry(session: Session, msg: RecvPublish) -> PendingPacket<PubPacket> {
    let qos = msg.qos.spec_min(msg.subscribe_qos);
    PendingPacket {
        pid: session.server_packet_id,
        state: initial_state(qos),
        encode_len: publish_len(qos, *msg.topic_name, *msg.payload),
        expiry: msg.expiry,
        retries: 0,
        dup: false,
        last_sent: if transmits(session) {
            Some(session.last_packet_time)
        } else {
            None
        },
        packet: PubPacket {
            topic_name: *msg.topic_name,
            qos,
            retain: msg.retain,
            payload: *msg.payload,
        },
    }
}

/// Whether `s1` is the session `s0` after it took the publish `msg`, which
/// reached it for one of its subscriptions, with the result `delivered`.
/// The publish is delivered at the lower of the two qualities of service.
/// At QoS 0 the PUBLISH goes out and nothing is kept. At QoS 1 and 2 the
/// publish gets the session's next packet identifier and enters the
/// queue; the PUBLISH goes out at once if the client is connected and the
/// window has room. A publish for a subscription that the session has no
/// more, one that has expired, and one for a full queue are dropped.
pub open spec fn publish_received(
    s0: Session,
    s1: Session,
    msg: RecvPublish,
    delivered: Option<(QoS, Option<Packet>)>,
) -> bool {
    &&& delivered is Some <==> accepts(s0, msg)
    &&& delivered is None ==> s1 == s0
    &&& delivered matches Some((qos, packet)) ==> {
        &&& qos == msg.qos.spec_min(msg.subscribe_qos)
        &&& qos == QoS::Level0 ==> {
            &&& s1 == s0
            &&& packet == Some(Packet::Publish(delivered_publish(s0, msg)))
        }
        &&& qos != QoS::Level0 ==> {
            &&& s1 == (Session {
                pending_packets: s1.pending_packets,
                server_packet_id: s1.server_packet_id,
                ..s0
            })
            &&& s1.pending_packets.spec_max_inflight() == s0.pending_packets.spec_max_inflight()
            &&& s1.pending_packets.spec_max_in_mem_pending()
                == s0.pending_packets.spec_max_in_mem_pending()
            &&& s1.pending_packets.spec_inflight_timeout()
                == s0.pending_packets.spec_inflight_timeout()
            &&& s1.pending_packets@ == s0.pending_packets@.push(delivered_entry(s0, msg))
            &&& is_next_free(
                s0.pending_packets@,
                s0.server_packet_id.spec_value(),
                s1.server_packet_id.spec_value(),
            )
            &&& packet == (if transmits(s0) {
                Some(Packet::Publish(delivered_publish(s0, msg)))
            } else {
                None
            })
        }
    }
}

/// Takes a publish that reached the session for one of its
/// subscriptions: see [`publish_received`].
pub fn recv_publish(session: &mut Session, msg: RecvPublish) -> (delivered: Option<(QoS, Option<Packet>)>)
    requires
        old(session).wf(),
    ensures
        final(session).wf(),
        publish_received(*old(session), *final(session), msg, delivered),
{
    if subscriptions_get(&session.subscribes, &msg.subscribe_filter.shared()).is_none() {
        return None;
    }
    match msg.expiry {
        Some(deadline) => {
            if deadline <= session.last_packet_time {
                return None;
            }
        },
        None => {},
    }
    let qos = msg.qos.min(msg.subscribe_qos);
    match qos {
        QoS::Level0 => {
            let publish = Publish {
                dup: false,
                retain: msg.retain,
                qos_pid: QosPid::Level0,
                topic_name: msg.topic_name.clone(),
                payload: share(msg.payload),
            };
            Some((qos, Some(Packet::Publish(publish))))
        },
        _ => {
            if session.pending_packets.is_full() {
                return None;
            }
            let encode_len = match publish_encode_len(msg.retain, qos, msg.topic_name, msg.payload) {
                Some(n) => n,
                None => 0,
            };
            let state = match qos {
                QoS::Level1 => AckState::AwaitingAck,
                _ => AckState::AwaitingRec,
            };
            let now = session.last_packet_time;
            let pid = session.incr_server_packet_id();
            let handed_out = pid.value();
            proof {
                lemma_next_differs(
                    old(session).pending_packets@,
                    pid.spec_value(),
                    session.server_packet_id.spec_value(),
                );
            }
            if session.server_packet_id.value() == handed_out {
                proof {
                    lemma_pid_equal(session.server_packet_id, pid);
                }
                return None;
            }
            let packet = PubPacket {
                topic_name: msg.topic_name.clone(),
                qos,
                retain: msg.retain,
                payload: share(msg.payload),
            };
            let transmit = session.connected && !session.disconnected;
            let pushed = session.pending_packets.push(
                pid,
                state,
                packet,
                encode_len,
                msg.expiry,
                now,
                transmit,
            );
            let in_flight = match pushed {
                Ok(in_flight) => in_flight,
                Err(_) => false,
            };
            assert(session.pending_packets@ == old(session).pending_packets@.push(
                delivered_entry(*old(session), msg),
            ));
            if in_flight {
                let qos_pid = match qos {
                    QoS::Level1 => QosPid::Level1(pid),
                    _ => QosPid::Level2(pid),
                };
                let publish = Publish {
                    dup: false,
                    retain: msg.retain,
                    qos_pid,
                    topic_name: msg.topic_name.clone(),
                    payload: share(msg.payload),
                };
                Some((qos, Some(Packet::Publish(publish))))
            } else {
                Some((qos, None))
            }
        },
    }
}

/// Why a session refuses a PUBLISH of its client, if it does: the topic
/// is empty; a QoS 0 publish claims to be a repetition; the publish is
/// too long to encode; a QoS 2 publish, whose fingerprint is `digest`,
/// uses the packet identifier of another incomplete publish with another
/// fingerprint; or it is a new QoS 2 publish while as many are
/// incomplete as the broker allows.
pub open spec fn publish_refused(
    session: Session,
    packet: Publish,
    digest: u64,
    max_inflight_server: u16,
) -> bool {
    let digests = pid_digests(session.qos2_pids);
    ||| packet.topic_name@.len() == 0
    ||| (packet.qos_pid is Level0 && packet.dup)
    ||| total_len(
        publish_remaining_len(
            packet.qos_pid.spec_qos(),
            packet.topic_name.bytes().len() as int,
            packet.payload@.len() as int,
        ),
    ) is None
    ||| (packet.qos_pid matches QosPid::Level2(pid) && (if digests.contains_key(pid.spec_value()) {
        digests[pid.spec_value()] != digest
    } else {
        digests.dom().len() >= max_inflight_server
    }))
}

/// Whether a PUBLISH that is not refused repeats a QoS 2 publish that the
/// session has received and not completed: such a one is acknowledged
/// again and not routed again.
pub open spec fn publish_repeats(session: Session, packet: Publish) -> bool {
    packet.qos_pid matches QosPid::Level2(pid) && pid_digests(session.qos2_pids).contains_key(
        pid.spec_value(),
    )
}

/// The acknowledgement that answers a PUBLISH.
pub open spec fn publish_answer(packet: Publish) -> Option<Packet> {
    match packet.qos_pid {
        QosPid::Level0 => None,
        QosPid::Level1(pid) => Some(Packet::Puback(pid)),
        QosPid::Level2(pid) => Some(Packet::Pubrec(pid)),
    }
}

/// The publish of a PUBLISH packet as it is routed.
pub open spec fn routed(packet: Publish) -> SendPublish<'static> {
    SendPublish {
        topic_name: &packet.topic_name,
        retain: packet.retain,
        qos: packet.qos_pid.spec_qos(),
        payload: &packet.payload,
        encode_len: publish_len(packet.qos_pid.spec_qos(), packet.topic_name, packet.payload),
    }
}

/// Whether `s1` and `g1` are the session `s0` and the shared state `g0`
/// after the session handled the PUBLISH `packet` of its client, whose
/// fingerprint is `digest`, with the result `answer`. A refused PUBLISH
/// fails with `InvalidData` and changes nothing. Any other is answered
/// as its quality of service asks: not at all, with PUBACK, or with
/// PUBREC. It is routed, unless it repeats an incomplete QoS 2 publish;
/// a new QoS 2 publish is remembered by its packet identifier and
/// fingerprint until its PUBREL comes.
pub open spec fn publish_handled_with(
    s0: Session,
    s1: Session,
    g0: GlobalState,
    g1: GlobalState,
    packet: Publish,
    digest: u64,
    answer: Result<Option<Packet>, ErrorKind>,
) -> bool {
    &&& g1.config == g0.config
    &&& g1.clients == g0.clients
    &&& g1.route_table == g0.route_table
    &&& answer is Err <==> publish_refused(s0, packet, digest, g0.config.max_inflight_server)
    &&& answer matches Err(kind) ==> kind == ErrorKind::InvalidData && s1 == s0 && g1.retain_table
        == g0.retain_table && g1.outbox == g0.outbox
    &&& answer matches Ok(reply) ==> {
        &&& reply == publish_answer(packet)
        &&& s1 == (Session { qos2_pids: s1.qos2_pids, ..s0 })
        &&& pid_digests(s1.qos2_pids) == (match packet.qos_pid {
            QosPid::Level2(pid) => pid_digests(s0.qos2_pids).insert(pid.spec_value(), digest),
            _ => pid_digests(s0.qos2_pids),
        })
        &&& publish_repeats(s0, packet) ==> g1.retain_table == g0.retain_table && g1.outbox
            == g0.outbox
        &&& !publish_repeats(s0, packet) ==> publish_sent(g0, g1, s0.client_id, routed(packet))
    }
}

/// Whether `s1` and `g1` are the session `s0` and the shared state `g0`
/// after the session handled the PUBLISH `packet` of its client with the
/// result `answer`: see [`publish_handled_with`], for the fingerprint
/// that the publish has in this process.
pub open spec fn publish_handled(
    s0: Session,
    s1: Session,
    g0: GlobalState,
    g1: GlobalState,
    packet: Publish,
    answer: Result<Option<Packet>, ErrorKind>,
) -> bool {
    exists|digest: u64| #[trigger] publish_handled_with(s0, s1, g0, g1, packet, digest, answer)
}

/// Handles a PUBLISH of the session's client: see [`publish_handled`].
pub fn handle_publish(session: &mut Session, packet: Publish, global: &mut GlobalState) -> (answer: Result<
    Option<Packet>,
    ErrorKind,
>)
    requires
        old(session).wf(),
        old(global).wf(),
    ensures
        final(session).wf(),
        final(global).wf(),
        publish_handled(*old(session), *final(session), *old(global), *final(global), packet, answer),
{
    let digest = fingerprint(packet.retain, packet.topic_name.as_bytes(), packet.payload.as_slice());
    let answer = handle_publish_with(session, packet, digest, global);
    assert(publish_handled_with(*old(session), *session, *old(global), *global, packet, digest, answer));
    answer
}

/// Handles a PUBLISH of the session's client whose fingerprint is
/// `digest`: see [`publish_handled_with`].
pub fn handle_publish_with(
    session: &mut Session,
    packet: Publish,
    digest: u64,
    global: &mut GlobalState,
) -> (answer: Result<Option<Packet>, ErrorKind>)
    requires
        old(session).wf(),
        old(global).wf(),
    ensures
        final(session).wf(),
        final(global).wf(),
        publish_handled_with(
            *old(session),
            *final(session),
            *old(global),
            *final(global),
            packet,
            digest,
            answer,
        ),
{
    if packet.topic_name.is_empty() {
        return Err(ErrorKind::InvalidData);
    }
    let qos = packet.qos_pid.qos();
    let encode_len = match publish_encode_len(packet.retain, qos, &packet.topic_name, &packet.payload) {
        Some(n) => n,
        None => {
            return Err(ErrorKind::InvalidData);
        },
    };
    let ghost digests = pid_digests(session.qos2_pids);
    match packet.qos_pid {
        QosPid::Level0 => {
            if packet.dup {
                return Err(ErrorKind::InvalidData);
            }
            send_publish(
                session,
                SendPublish {
                    topic_name: &packet.topic_name,
                    retain: packet.retain,
                    qos,
                    payload: &packet.payload,
                    encode_len,
                },
                global,
            );
            assert(routed(packet).encode_len == encode_len);
            Ok(None)
        },
        QosPid::Level1(pid) => {
            send_publish(
                session,
                SendPublish {
                    topic_name: &packet.topic_name,
                    retain: packet.retain,
                    qos,
                    payload: &packet.payload,
                    encode_len,
                },
                global,
            );
            assert(routed(packet).encode_len == encode_len);
            Ok(Some(Packet::Puback(pid)))
        },
        QosPid::Level2(pid) => {
            match pid_digests_get(&session.qos2_pids, pid.value()) {
                Some(known) => {
                    if known != digest {
                        return Err(ErrorKind::InvalidData);
                    }
                    assert(digests.insert(pid.spec_value(), digest) =~= digests);
                },
                None => {
                    if pid_digests_len(&session.qos2_pids) >= global.config.max_inflight_server as usize {
                        return Err(ErrorKind::InvalidData);
                    }
                    let _ = pid_digests_insert(&mut session.qos2_pids, pid.value(), digest);
                    send_publish(
                        session,
                        SendPublish {
                            topic_name: &packet.topic_name,
                            retain: packet.retain,
                            qos,
                            payload: &packet.payload,
                            encode_len,
                        },
                        global,
                    );
                    assert(routed(packet).encode_len == encode_len);
                },
            }
            Ok(Some(Packet::Pubrec(pid)))
        },
    }
}

/// Handles a PUBACK: the QoS 1 delivery with that packet identifier is
/// complete and leaves the queue. Any other PUBACK changes nothing.
pub fn handle_puback(session: &mut Session, pid: Pid) -> (outcome: AckOutcome)
    requires
        old(session).wf(),
    ensures
        final(session).wf(),
        *final(session) == (Session { pending_packets: final(session).pending_packets, ..*old(session) }),
        crate::pending::acked(
            old(session).pending_packets,
            final(session).pending_packets,
            pid,
            AckKind::Puback,
            old(session).last_packet_time,
            outcome,
        ),
{
    let now = session.last_packet_time;
    session.pending_packets.ack(pid, AckKind::Puback, now)
}

/// Handles a PUBREC: the QoS 2 delivery with that packet identifier moves
/// on to wait for PUBCOMP. PUBREL is the answer in any case.
pub fn handle_pubrec(session: &mut Session, pid: Pid) -> (answer: Packet)
    requires
        old(session).wf(),
    ensures
        final(session).wf(),
        answer == Packet::Pubrel(pid),
        *final(session) == (Session { pending_packets: final(session).pending_packets, ..*old(session) }),
        exists|outcome: AckOutcome| #[trigger]
            crate::pending::acked(
                old(session).pending_packets,
                final(session).pending_packets,
                pid,
                AckKind::Pubrec,
                old(session).last_packet_time,
                outcome,
            ),
{
    let now = session.last_packet_time;
    let _ = session.pending_packets.ack(pid, AckKind::Pubrec, now);
    Packet::Pubrel(pid)
}

/// Handles a PUBREL: the inbound QoS 2 publish with that packet
/// identifier is complete, the session forgets it, and PUBCOMP is the
/// answer. A PUBREL for a publish that the session does not know fails
/// with `InvalidData` and changes nothing.
pub fn handle_pubrel(session: &mut Session, pid: Pid) -> (answer: Result<Packet, Option<ErrorKind>>)
    ensures
        answer is Ok <==> pid_digests(old(session).qos2_pids).contains_key(pid.spec_value()),
        answer matches Ok(packet) ==> packet == Packet::Pubcomp(pid),
        answer matches Err(kind) ==> kind == Some(ErrorKind::InvalidData),
        *final(session) == (Session { qos2_pids: final(session).qos2_pids, ..*old(session) }),
        pid_digests(final(session).qos2_pids) == pid_digests(old(session).qos2_pids).remove(
            pid.spec_value(),
        ),
{
    match pid_digests_remove(&mut session.qos2_pids, pid.value()) {
        Some(_) => Ok(Packet::Pubcomp(pid)),
        None => Err(Some(ErrorKind::InvalidData)),
    }
}

/// Handles a PUBCOMP: the QoS 2 delivery with that packet identifier is
/// complete and leaves the queue. Any other PUBCOMP changes nothing.
pub fn handle_pubcomp(session: &mut Session, pid: Pid) -> (outcome: AckOutcome)
    requires
        old(session).wf(),
    ensures
        final(session).wf(),
        *final(session) == (Session { pending_packets: final(session).pending_packets, ..*old(session) }),
        crate::pending::acked(
            old(session).pending_packets,
            final(session).pending_packets,
            pid,
            AckKind::Pubcomp,
            old(session).last_packet_time,
            outcome,
        ),
{
    let now = session.last_packet_time;
    session.pending_packets.ack(pid, AckKind::Pubcomp, now)
}

} // verus!
