//! What a version 5.0 session does with PUBLISH and with the
//! acknowledgements of the two delivery flows.

use vstd::prelude::*;
use crate::collections::alias_topics;
use crate::collections::alias_topics_get;
use crate::collections::alias_topics_insert;
use crate::collections::pid_digests;
use crate::collections::pid_digests_get;
use crate::collections::pid_digests_insert;
use crate::collections::pid_digests_len;
use crate::collections::pid_digests_remove;
use crate::collections::subscriptions;
use crate::collections::subscriptions_get;
use crate::config::Config;
use crate::fingerprint::fingerprint;
use crate::pending::AckKind;
use crate::pending::AckOutcome;
use crate::pending::AckState;
use crate::pending::PendingPacket;
use crate::retain::RetainContent;
use crate::route::matching;
use crate::route::RouteEntry;
use crate::state::Delivery;
use crate::state::GlobalState;
use crate::state::NormalMessage;
use crate::topic::TopicFilter;
use crate::topic::TopicName;
use crate::types::share;
use crate::types::ClientId;
use crate::types::Payload;
use crate::types::Pid;
use crate::types::QoS;
use crate::types::QosPid;
use crate::v3::publish::initial_state;
use crate::v3::publish::retain_effect;
use crate::v3::publish::with_pid;
use crate::types::lemma_pid_equal;
use crate::v3::session::has_spare;
use crate::v3::session::is_next_free;
use crate::v3::session::lemma_next_differs;
use crate::v5::packet::Disconnect;
use crate::v5::packet::Packet;
use crate::v5::packet::Puback;
use crate::v5::packet::Pubcomp;
use crate::v5::packet::Publish;
use crate::v5::packet::Pubrec;
use crate::v5::packet::Pubrel;
use crate::v5::session::PubPacket;
use crate::v5::session::Session;
use crate::v5::types::DisconnectReasonCode;
use crate::v5::types::PubackReasonCode;
use crate::v5::types::PubcompReasonCode;
use crate::v5::types::PublishProperties;
use crate::v5::types::PubrecReasonCode;
use crate::v5::types::PubrelReasonCode;

verus! {

/// A publish on its way from a session to the subscribers of its topic.
pub struct SendPublish<'a> {
    pub topic_name: &'a TopicName,
    pub retain: bool,
    pub qos: QoS,
    pub payload: &'a Payload,
    pub properties: &'a PublishProperties,
    pub encode_len: usize,
    /// The time at which the message expires, if it does.
    pub expiry: Option<u64>,
}

/// A publish that arrived at the session of a subscriber.
pub struct RecvPublish<'a> {
    pub topic_name: &'a TopicName,
    pub qos: QoS,
    pub retain: bool,
    pub payload: &'a Payload,
    pub subscribe_filter: &'a TopicFilter,
    pub subscribe_qos: QoS,
    pub properties: &'a PublishProperties,
    pub encode_len: usize,
    /// The time at which the message expires, if it does.
    pub expiry: Option<u64>,
}

/// Why a topic alias, or the lack of one, is refused, if it is. Alias 0
/// is invalid, and so is one above `max`. A publish without a topic name
/// needs an alias that the connection has given a topic.
pub open spec fn alias_refused(
    alias: Option<u16>,
    topic_empty: bool,
    aliases: Map<u16, TopicName>,
    max: u16,
) -> Option<DisconnectReasonCode> {
    match alias {
        Some(a) => if a == 0 || a > max {
            Some(DisconnectReasonCode::TopicAliasInvalid)
        } else if topic_empty && !aliases.contains_key(a) {
            Some(DisconnectReasonCode::ProtocolError)
        } else {
            None
        },
        None => if topic_empty {
            Some(DisconnectReasonCode::ProtocolError)
        } else {
            None
        },
    }
}

/// The topic that a publish is for: the one it names, or the one that its
/// alias stands for if it names none.
pub open spec fn resolved_topic(topic_name: TopicName, alias: Option<u16>, aliases: Map<u16, TopicName>) -> TopicName {
    if topic_name@.len() == 0 && alias is Some {
        aliases[alias->0]
    } else {
        topic_name
    }
}

/// The topic aliases after a publish that was taken: an alias that comes
/// with a topic name stands for that topic from then on.
pub open spec fn aliases_after(topic_name: TopicName, alias: Option<u16>, aliases: Map<u16, TopicName>) -> Map<
    u16,
    TopicName,
> {
    if topic_name@.len() != 0 && alias is Some {
        aliases.insert(alias->0, topic_name)
    } else {
        aliases
    }
}

/// Finds the topic that a publish is for, without changing the aliases:
/// see [`alias_refused`] and [`resolved_topic`].
pub fn resolve_topic(session: &Session, topic_name: &TopicName, alias: Option<u16>, max: u16) -> (resolved:
    Result<TopicName, DisconnectReasonCode>)
    ensures
        resolved is Err <==> alias_refused(
            alias,
            topic_name@.len() == 0,
            alias_topics(session.topic_aliases),
            max,
        ) is Some,
        resolved matches Err(code) ==> Some(code) == alias_refused(
            alias,
            topic_name@.len() == 0,
            alias_topics(session.topic_aliases),
            max,
        ),
        resolved matches Ok(topic) ==> topic == resolved_topic(
            *topic_name,
            alias,
            alias_topics(session.topic_aliases),
        ),
{
    match alias {
        Some(a) => {
            if a == 0 || a > max {
                return Err(DisconnectReasonCode::TopicAliasInvalid);
            }
            if topic_name.is_empty() {
                match alias_topics_get(&session.topic_aliases, a) {
                    Some(topic) => Ok(topic),
                    None => Err(DisconnectReasonCode::ProtocolError),
                }
            } else {
                Ok(topic_name.clone())
            }
        },
        None => {
            if topic_name.is_empty() {
                Err(DisconnectReasonCode::ProtocolError)
            } else {
                Ok(topic_name.clone())
            }
        },
    }
}

/// The time at which a message that was published at `now` expires.
pub open spec fn expiry_deadline(now: u64, interval: Option<u32>) -> Option<u64> {
    match interval {
        Some(i) => Some(
            if now + i > u64::MAX {
                u64::MAX
            } else {
                (now + i) as u64
            },
        ),
        None => None,
    }
}

/// The time at which a message that was published at `now` expires.
pub fn deadline(now: u64, interval: Option<u32>) -> (expiry: Option<u64>)
    ensures
        expiry == expiry_deadline(now, interval),
{
    match interval {
        Some(i) => {
            let i: u64 = i as u64;
            if now > u64::MAX - i {
                Some(u64::MAX)
            } else {
                Some(now + i)
            }
        },
        None => None,
    }
}

/// The properties of a publish as they are routed: the topic alias was
/// for the sender's connection only, and the subscription identifier is
/// for each receiver to set.
pub open spec fn routed_properties(properties: PublishProperties) -> PublishProperties {
    PublishProperties { topic_alias: None, subscription_id: None, ..properties }
}

/// The properties of a publish as they are routed.
pub fn route_properties(properties: &PublishProperties) -> (routed: PublishProperties)
    ensures
        routed == routed_properties(*properties),
{
    let mut routed = properties.clone();
    routed.topic_alias = None;
    routed.subscription_id = None;
    routed
}

/// The delivery that a publish of `sender` makes for one subscription. The
/// retain flag stays only where the subscription asks to see it as
/// published.
pub open spec fn delivery_v5(sender: ClientId, msg: SendPublish) -> spec_fn(RouteEntry) -> Delivery {
    |e: RouteEntry|
        Delivery {
            sender,
            receiver: e.client_id,
            message: NormalMessage::PublishV5 {
                topic_name: *msg.topic_name,
                qos: msg.qos,
                retain: msg.retain && e.data.options.retain_as_published,
                payload: *msg.payload,
                subscribe_filter: e.filter,
                subscribe_qos: e.data.options.max_qos,
                properties: routed_properties(*msg.properties),
                encode_len: msg.encode_len,
                expiry: msg.expiry,
            },
        }
}

/// The retained message that a publish of `sender` leaves.
pub open spec fn retain_content_v5(sender: ClientId, msg: SendPublish) -> RetainContent {
    RetainContent {
        topic_name: *msg.topic_name,
        qos: msg.qos,
        payload: *msg.payload,
        properties: Some(routed_properties(*msg.properties)),
        client_id: sender,
        expiry: msg.expiry,
        encode_len: msg.encode_len,
    }
}

/// Whether `g1` is the shared state `g0` after `sender` routed the publish
/// `msg`: the retained messages are updated, and the outbox has one more
/// delivery for every subscription whose filter matches the topic, in the
/// order of the subscriptions.
pub open spec fn publish_sent(g0: GlobalState, g1: GlobalState, sender: ClientId, msg: SendPublish) -> bool {
    &&& g1.config == g0.config
    &&& g1.clients == g0.clients
    &&& g1.route_table == g0.route_table
    &&& retain_effect(
        g0.retain_table@,
        g1.retain_table@,
        msg.retain && g0.config.retain_available,
        retain_content_v5(sender, msg),
    )
    &&& g1.outbox@ == g0.outbox@ + g0.route_table@.filter(matching(*msg.topic_name)).map_values(
        delivery_v5(sender, msg),
    )
}

/// Routes a publish of `session`: see [`publish_sent`].
pub fn send_publish(session: &Session, msg: SendPublish, global: &mut GlobalState)
    requires
        old(global).wf(),
    ensures
        final(global).wf(),
        publish_sent(*old(global), *final(global), session.client_id, msg),
{
    if msg.retain && global.config.retain_available {
        if msg.payload.len() == 0 {
            let _ = global.retain_table.remove(msg.topic_name);
        } else {
            let _ = global.retain_table.insert(
                RetainContent {
                    topic_name: msg.topic_name.clone(),
                    qos: msg.qos,
                    payload: share(msg.payload),
                    properties: Some(route_properties(msg.properties)),
                    client_id: session.client_id,
                    expiry: msg.expiry,
                    encode_len: msg.encode_len,
                },
            );
        }
    }
    let matches = global.route_table.get_matches(msg.topic_name);
    let ghost make = delivery_v5(session.client_id, msg);
    let ghost before = global.outbox@;
    let mut i: usize = 0;
    assert(global.outbox@ =~= before + matches@.take(0).map_values(make));
    while i < matches.len()
        invariant
            i <= matches.len(),
            make == delivery_v5(session.client_id, msg),
            global.outbox@ == before + matches@.take(i as int).map_values(make),
            global.wf(),
            global.config == old(global).config,
            global.clients == old(global).clients,
            global.route_table == old(global).route_table,
            retain_effect(
                old(global).retain_table@,
                global.retain_table@,
                msg.retain && old(global).config.retain_available,
                retain_content_v5(session.client_id, msg),
            ),
        decreases matches.len() - i,
    {
        let entry = &matches[i];
        global.outbox.push(
            Delivery {
                sender: session.client_id,
                receiver: entry.client_id,
                message: NormalMessage::PublishV5 {
                    topic_name: msg.topic_name.clone(),
                    qos: msg.qos,
                    retain: msg.retain && entry.data.options.retain_as_published,
                    payload: share(msg.payload),
                    subscribe_filter: entry.filter.clone(),
                    subscribe_qos: entry.data.options.max_qos,
                    properties: route_properties(msg.properties),
                    encode_len: msg.encode_len,
                    expiry: msg.expiry,
                },
            },
        );
        assert(matches@.take(i + 1).map_values(make) =~= matches@.take(i as int).map_values(
            make,
        ).push(make(matches@[i as int])));
        i += 1;
    }
    assert(matches@.take(i as int) =~= matches@);
}

/// How many seconds a message lives on at `now`, as far as 32 bits can
/// say.
pub open spec fn remaining_interval(expiry: Option<u64>, now: u64) -> Option<u32> {
    match expiry {
        Some(deadline) => Some(
            if deadline - now > u32::MAX {
                u32::MAX
            } else if deadline <= now {
                0u32
            } else {
                (deadline - now) as u32
            },
        ),
        None => None,
    }
}

/// Whether the session takes a publish that reaches it for a
/// subscription. It must have the subscription still. A subscription
/// with the no-local option takes nothing that the session itself
/// published. A message that has expired is dropped, and so is one that
/// is longer than the client accepts.
pub open spec fn accepts(session: Session, sender: ClientId, msg: RecvPublish) -> bool {
    let subs = subscriptions(session.subscribes);
    &&& subs.contains_key(msg.subscribe_filter@)
    &&& !(subs[msg.subscribe_filter@].1.options.no_local && sender == session.client_id)
    &&& !(msg.expiry matches Some(deadline) && deadline <= session.last_packet_time)
    &&& msg.encode_len <= session.max_packet_size
}

/// Whether a publish that the session takes finds the queue full: it
/// must be acknowledged, and the queue has no room for it or no packet
/// identifier is to spare.
pub open spec fn overflows(session: Session, msg: RecvPublish) -> bool {
    msg.qos.spec_min(msg.subscribe_qos) != QoS::Level0 && (session.pending_packets@.len()
        >= session.pending_packets.capacity() || !has_spare(
        session.pending_packets@,
        session.server_packet_id.spec_value(),
    ))
}

/// The properties of the PUBLISH that delivers a message: those that were
/// routed, with the subscription identifier of the session's
/// subscription and with the time that the message has left.
pub open spec fn delivered_properties(session: Session, msg: RecvPublish) -> PublishProperties {
    PublishProperties {
        subscription_id: subscriptions(session.subscribes)[msg.subscribe_filter@].1.id,
        message_expiry_interval: match msg.expiry {
            Some(_) => remaining_interval(msg.expiry, session.last_packet_time),
            None => msg.properties.message_expiry_interval,
        },
        ..*msg.properties
    }
}

/// The PUBLISH that delivers a message to the client of `session`.
pub open spec fn delivered_publish(session: Session, msg: RecvPublish) -> Publish {
    Publish {
        dup: false,
        retain: msg.retain,
        qos_pid: with_pid(msg.qos.spec_min(msg.subscribe_qos), session.server_packet_id),
        topic_name: *msg.topic_name,
        payload: *msg.payload,
        properties: delivered_properties(session, msg),
    }
}

/// Whether a delivery that enters the queue is written to the connection
/// at once: the client is connected, and the window has room.
pub open spec fn transmits(session: Session) -> bool {
    session.connected && !session.spec_disconnected() && session.pending_packets@.len()
        < session.pending_packets.spec_max_inflight()
}

/// The entry that a delivery makes in the queue of unacknowledged packets.
pub open spec fn delivered_entry(session: Session, msg: RecvPublish) -> PendingPacket<PubPacket> {
    let qos = msg.qos.spec_min(msg.subscribe_qos);
    PendingPacket {
        pid: session.server_packet_id,
        state: initial_state(qos),
        encode_len: msg.encode_len,
        expiry: msg.expiry,
        retries: 0,
        dup: false,
        last_sent: if transmits(session) {
            Some(session.last_packet_time)
        } else {
            None
        },
        packet: PubPacket {
            topic_name: *msg.topic_name,
            qos,
            retain: msg.retain,
            payload: *msg.payload,
            properties: delivered_properties(session, msg),
        },
    }
}

/// Whether `s1` is the session `s0` after it took the publish `msg` of
/// `sender`, which reached it for one of its subscriptions, with the
/// result `delivered`. A publish that the session does not accept is
/// dropped. One that finds the queue full is dropped too; if the client
/// is connected, the server closes the connection over it, and the
/// DISCONNECT that says that the quota is exceeded is the result. Any
/// other is delivered at the lower of the two qualities of service. At
/// QoS 0 the PUBLISH goes out and nothing is kept. At QoS 1 and 2 the
/// publish gets the session's next packet identifier and enters the
/// queue; the PUBLISH goes out at once if the client is connected and the
/// window has room.
pub open spec fn publish_received(
    s0: Session,
    s1: Session,
    sender: ClientId,
    msg: RecvPublish,
    delivered: Option<(QoS, Option<Packet>)>,
) -> bool {
    let qos = msg.qos.spec_min(msg.subscribe_qos);
    if !accepts(s0, sender, msg) {
        delivered is None && s1 == s0
    } else if overflows(s0, msg) {
        if s0.connected && !s0.spec_disconnected() {
            &&& s1 == (Session { server_disconnected: true, ..s0 })
            &&& delivered == Some(
                (
                    qos,
                    Some(
                        Packet::Disconnect(
                            Disconnect {
                                reason_code: DisconnectReasonCode::QuotaExceeded,
                                session_expiry_interval: None,
                            },
                        ),
                    ),
                ),
            )
        } else {
            delivered is None && s1 == s0
        }
    } else if qos == QoS::Level0 {
        &&& s1 == s0
        &&& delivered == Some((qos, Some(Packet::Publish(delivered_publish(s0, msg)))))
    } else {
        &&& s1 == (Session {
            pending_packets: s1.pending_packets,
            server_packet_id: s1.server_packet_id,
            ..s0
        })
        &&& s1.pending_packets.spec_max_inflight() == s0.pending_packets.spec_max_inflight()
        &&& s1.pending_packets.spec_max_in_mem_pending()
            == s0.pending_packets.spec_max_in_mem_pending()
        &&& s1.pending_packets.spec_inflight_timeout() == s0.pending_packets.spec_inflight_timeout()
        &&& s1.pending_packets@ == s0.pending_packets@.push(delivered_entry(s0, msg))
        &&& is_next_free(
            s0.pending_packets@,
            s0.server_packet_id.spec_value(),
            s1.server_packet_id.spec_value(),
        )
        &&& delivered == Some(
            (
                qos,
                if transmits(s0) {
                    Some(Packet::Publish(delivered_publish(s0, msg)))
                } else {
                    None
                },
            ),
        )
    }
}

/// Looks at a publish that reached the session for one of its
/// subscriptions: whether the session takes it, as [`accepts`] says, and
/// with which properties it is delivered.
pub fn inspect_delivery(session: &Session, sender: ClientId, msg: &RecvPublish) -> (properties: Option<
    PublishProperties,
>)
    ensures
        properties is Some <==> accepts(*session, sender, *msg),
        properties matches Some(p) ==> p == delivered_properties(*session, *msg),
{
    let data = match subscriptions_get(&session.subscribes, &msg.subscribe_filter.shared()) {
        Some(data) => data,
        None => {
            return None;
        },
    };
    if data.options.no_local && sender == session.client_id {
        return None;
    }
    let now = session.last_packet_time;
    let mut properties = msg.properties.clone();
    properties.subscription_id = data.id;
    match msg.expiry {
        Some(deadline) => {
            if deadline <= now {
                return None;
            }
            let left = deadline - now;
            properties.message_expiry_interval = Some(
                if left > u32::MAX as u64 {
                    u32::MAX
                } else {
                    left as u32
                },
            );
        },
        None => {},
    }
    if msg.encode_len > session.max_packet_size as usize {
        return None;
    }
    Some(properties)
}

/// Puts a delivery that must be acknowledged into the queue, which has
/// room for it, under the packet identifier `pid`, which the session
/// has just handed out. The result is the PUBLISH to write at once, if
/// there is one.
fn enqueue_delivery(
    session: &mut Session,
    msg: &RecvPublish,
    properties: PublishProperties,
    pid: Pid,
    Ghost(before): Ghost<Session>,
) -> (packet: Option<Packet>)
    requires
        before.wf(),
        old(session).wf(),
        *old(session) == (Session { server_packet_id: old(session).server_packet_id, ..before }),
        pid == before.server_packet_id,
        old(session).server_packet_id != pid,
        msg.qos.spec_min(msg.subscribe_qos) != QoS::Level0,
        old(session).pending_packets@.len() < old(session).pending_packets.capacity(),
        properties == delivered_properties(before, *msg),
    ensures
        final(session).wf(),
        *final(session) == (Session { pending_packets: final(session).pending_packets, ..*old(session) }),
        final(session).pending_packets.spec_max_inflight() == old(
            session,
        ).pending_packets.spec_max_inflight(),
        final(session).pending_packets.spec_max_in_mem_pending() == old(
            session,
        ).pending_packets.spec_max_in_mem_pending(),
        final(session).pending_packets.spec_inflight_timeout() == old(
            session,
        ).pending_packets.spec_inflight_timeout(),
        final(session).pending_packets@ == before.pending_packets@.push(delivered_entry(before, *msg)),
        packet == (if transmits(before) {
            Some(Packet::Publish(delivered_publish(before, *msg)))
        } else {
            None
        }),
{
    let qos = msg.qos.min(msg.subscribe_qos);
    let state = match qos {
        QoS::Level1 => AckState::AwaitingAck,
        _ => AckState::AwaitingRec,
    };
    let now = session.last_packet_time;
    let packet = PubPacket {
        topic_name: msg.topic_name.clone(),
        qos,
        retain: msg.retain,
        payload: share(msg.payload),
        properties: properties.clone(),
    };
    let transmit = session.connected && !(session.client_disconnected || session.server_disconnected);
    let pushed = session.pending_packets.push(
        pid,
        state,
        packet,
        msg.encode_len,
        msg.expiry,
        now,
        transmit,
    );
    let in_flight = match pushed {
        Ok(in_flight) => in_flight,
        Err(_) => false,
    };
    if in_flight {
        let qos_pid = match qos {
            QoS::Level1 => QosPid::Level1(pid),
            _ => QosPid::Level2(pid),
        };
        Some(
            Packet::Publish(
                Publish {
                    dup: false,
                    retain: msg.retain,
                    qos_pid,
                    topic_name: msg.topic_name.clone(),
                    payload: share(msg.payload),
                    properties,
                },
            ),
        )
    } else {
        None
    }
}

/// Takes a publish of `sender` that reached the session for one of its
/// subscriptions: see [`publish_received`].
pub fn recv_publish(session: &mut Session, sender: ClientId, msg: RecvPublish) -> (delivered: Option<
    (QoS, Option<Packet>),
>)
    requires
        old(session).wf(),
    ensures
        final(session).wf(),
        publish_received(*old(session), *final(session), sender, msg, delivered),
{
    let properties = match inspect_delivery(session, sender, &msg) {
        Some(properties) => properties,
        None => {
            return None;
        },
    };
    let qos = msg.qos.min(msg.subscribe_qos);
    match qos {
        QoS::Level0 => {
            let publish = Publish {
                dup: false,
                retain: msg.retain,
                qos_pid: QosPid::Level0,
                topic_name: msg.topic_name.clone(),
                payload: share(msg.payload),
                properties,
            };
            Some((qos, Some(Packet::Publish(publish))))
        },
        _ => {
            let mut spare = !session.pending_packets.is_full();
            let pid = session.server_packet_id;
            let handed_out = pid.value();
            if spare {
                let _ = session.incr_server_packet_id();
                proof {
                    lemma_next_differs(
                        old(session).pending_packets@,
                        pid.spec_value(),
                        session.server_packet_id.spec_value(),
                    );
                    lemma_pid_equal(session.server_packet_id, pid);
                }
                spare = session.server_packet_id.value() != handed_out;
            }
            if !spare {
                if session.connected && !(session.client_disconnected || session.server_disconnected) {
                    session.server_disconnected = true;
                    return Some(
                        (
                            qos,
                            Some(
                                Packet::Disconnect(
                                    Disconnect::new(DisconnectReasonCode::QuotaExceeded),
                                ),
                            ),
                        ),
                    );
                }
                return None;
            }
            let packet = enqueue_delivery(session, &msg, properties, pid, Ghost(*old(session)));
            Some((qos, packet))
        },
    }
}

/// The topic that the PUBLISH `packet` of the client of `session` is for.
pub open spec fn publish_topic(session: Session, packet: Publish) -> TopicName {
    resolved_topic(packet.topic_name, packet.properties.topic_alias, alias_topics(session.topic_aliases))
}

/// Whether a PUBLISH uses the packet identifier of an incomplete QoS 2
/// publish of the session.
pub open spec fn publish_known(session: Session, packet: Publish) -> bool {
    packet.qos_pid matches QosPid::Level2(pid) && pid_digests(session.qos2_pids).contains_key(
        pid.spec_value(),
    )
}

/// Whether a PUBLISH, whose fingerprint is `digest`, uses the packet
/// identifier of an incomplete QoS 2 publish of the session that has
/// another fingerprint.
pub open spec fn publish_conflicts(session: Session, packet: Publish, digest: u64) -> bool {
    packet.qos_pid matches QosPid::Level2(pid) && pid_digests(session.qos2_pids).contains_key(
        pid.spec_value(),
    ) && pid_digests(session.qos2_pids)[pid.spec_value()] != digest
}

/// Why the connection is closed over a PUBLISH of its client, if it is:
/// the topic alias is refused; a QoS 0 publish claims to be a
/// repetition; it asks to be retained and the broker retains nothing; or
/// it is a new QoS 2 publish while as many are incomplete as the broker
/// allows.
pub open spec fn publish_refusal(session: Session, packet: Publish, config: Config) -> Option<
    DisconnectReasonCode,
> {
    let alias = alias_refused(
        packet.properties.topic_alias,
        packet.topic_name@.len() == 0,
        alias_topics(session.topic_aliases),
        config.topic_alias_max,
    );
    if alias is Some {
        alias
    } else if packet.qos_pid is Level0 && packet.dup {
        Some(DisconnectReasonCode::ProtocolError)
    } else if packet.retain && !config.retain_available {
        Some(DisconnectReasonCode::RetainNotSupported)
    } else if packet.qos_pid is Level2 && !publish_known(session, packet) && pid_digests(
        session.qos2_pids,
    ).dom().len() >= config.max_inflight_server {
        Some(DisconnectReasonCode::ReceiveMaximumExceeded)
    } else {
        None
    }
}

/// The acknowledgement that answers a PUBLISH which is not refused and
/// whose fingerprint is `digest`.
pub open spec fn publish_answer(session: Session, packet: Publish, digest: u64) -> Option<Packet> {
    match packet.qos_pid {
        QosPid::Level0 => None,
        QosPid::Level1(pid) => Some(
            Packet::Puback(Puback { pid, reason_code: PubackReasonCode::Success }),
        ),
        QosPid::Level2(pid) => Some(
            Packet::Pubrec(
                Pubrec {
                    pid,
                    reason_code: if publish_conflicts(session, packet, digest) {
                        PubrecReasonCode::PacketIdentifierInUse
                    } else {
                        PubrecReasonCode::Success
                    },
                },
            ),
        ),
    }
}

/// The publish of a PUBLISH packet as it is routed.
pub open spec fn routed(session: Session, packet: Publish, encode_len: usize) -> SendPublish<'static> {
    SendPublish {
        topic_name: &publish_topic(session, packet),
        retain: packet.retain,
        qos: packet.qos_pid.spec_qos(),
        payload: &packet.payload,
        properties: &packet.properties,
        encode_len,
        expiry: expiry_deadline(session.last_packet_time, packet.properties.message_expiry_interval),
    }
}

/// Whether `s1` and `g1` are the session `s0` and the shared state `g0`
/// after the session handled the PUBLISH `packet` of its client, whose
/// encoded length is `encode_len` and whose fingerprint is `digest`,
/// with the result `answer`.
///
/// Over a PUBLISH that is refused the connection is closed: the result is
/// the DISCONNECT with the reason, the session counts as disconnected
/// by the server, and nothing else changes. Any other is
/// answered as its quality of service asks: not at all, with PUBACK, or
/// with PUBREC. A QoS 2 publish whose packet identifier the session
/// knows changes nothing: a repetition is acknowledged again, one with
/// another fingerprint is told that the identifier is in use. Any other
/// publish is routed under the topic that it names or that its alias
/// stands for; its alias, if it came with a topic name, stands for that
/// topic from then on; and a QoS 2 publish is remembered by its packet
/// identifier and fingerprint until its PUBREL comes.
pub open spec fn publish_handled_with(
    s0: Session,
    s1: Session,
    g0: GlobalState,
    g1: GlobalState,
    packet: Publish,
    encode_len: usize,
    digest: u64,
    answer: Result<Option<Packet>, Packet>,
) -> bool {
    &&& g1.config == g0.config
    &&& g1.clients == g0.clients
    &&& g1.route_table == g0.route_table
    &&& answer is Err <==> publish_refusal(s0, packet, g0.config) is Some
    &&& answer matches Err(close) ==> {
        &&& close == Packet::Disconnect(
            Disconnect {
                reason_code: publish_refusal(s0, packet, g0.config)->0,
                session_expiry_interval: None,
            },
        )
        &&& s1 == (Session { server_disconnected: true, ..s0 })
        &&& g1.retain_table == g0.retain_table
        &&& g1.outbox == g0.outbox
    }
    &&& answer matches Ok(reply) ==> {
        &&& reply == publish_answer(s0, packet, digest)
        &&& publish_known(s0, packet) ==> s1 == s0 && g1.retain_table == g0.retain_table
            && g1.outbox == g0.outbox
        &&& !publish_known(s0, packet) ==> {
            &&& s1 == (Session { qos2_pids: s1.qos2_pids, topic_aliases: s1.topic_aliases, ..s0 })
            &&& pid_digests(s1.qos2_pids) == (match packet.qos_pid {
                QosPid::Level2(pid) => pid_digests(s0.qos2_pids).insert(pid.spec_value(), digest),
                _ => pid_digests(s0.qos2_pids),
            })
            &&& alias_topics(s1.topic_aliases) == aliases_after(
                packet.topic_name,
                packet.properties.topic_alias,
                alias_topics(s0.topic_aliases),
            )
            &&& publish_sent(g0, g1, s0.client_id, routed(s0, packet, encode_len))
        }
    }
}

/// Whether `s1` and `g1` are the session `s0` and the shared state `g0`
/// after the session handled the PUBLISH `packet` of its client, whose
/// encoded length is `encode_len`, with the result `answer`: see
/// [`publish_handled_with`], for the fingerprint that the publish has in
/// this process.
pub open spec fn publish_handled(
    s0: Session,
    s1: Session,
    g0: GlobalState,
    g1: GlobalState,
    packet: Publish,
    encode_len: usize,
    answer: Result<Option<Packet>, Packet>,
) -> bool {
    exists|digest: u64| #[trigger]
        publish_handled_with(s0, s1, g0, g1, packet, encode_len, digest, answer)
}

/// What a session finds when it looks at a PUBLISH of its client.
#[derive(Debug)]
pub enum PublishVerdict {
    /// The connection is to be closed with this reason.
    Refuse(DisconnectReasonCode),
    /// The packet identifier is that of an incomplete QoS 2 publish;
    /// `conflict` says that the fingerprint is another.
    Known { conflict: bool },
    /// The publish is to be routed under `topic`; `digest` is its
    /// fingerprint.
    Fresh { topic: TopicName, digest: u64 },
}

/// Looks at a PUBLISH of the session's client, whose fingerprint is
/// `digest`, without changing anything: see [`publish_refusal`],
/// [`publish_known`] and [`publish_conflicts`].
pub fn inspect_publish(session: &Session, packet: &Publish, digest: u64, config: &Config) -> (verdict:
    PublishVerdict)
    ensures
        match verdict {
            PublishVerdict::Refuse(code) => publish_refusal(*session, *packet, *config) == Some(code),
            PublishVerdict::Known { conflict } => publish_refusal(*session, *packet, *config) is None
                && publish_known(*session, *packet) && conflict == publish_conflicts(
                *session,
                *packet,
                digest,
            ),
            PublishVerdict::Fresh { topic, digest: found } => publish_refusal(
                *session,
                *packet,
                *config,
            ) is None && !publish_known(*session, *packet) && topic == publish_topic(
                *session,
                *packet,
            ) && found == digest,
        },
{
    let alias = packet.properties.topic_alias;
    let topic = match resolve_topic(session, &packet.topic_name, alias, config.topic_alias_max) {
        Ok(topic) => topic,
        Err(code) => {
            return PublishVerdict::Refuse(code);
        },
    };
    match packet.qos_pid {
        QosPid::Level0 => {
            if packet.dup {
                return PublishVerdict::Refuse(DisconnectReasonCode::ProtocolError);
            }
        },
        _ => {},
    }
    if packet.retain && !config.retain_available {
        return PublishVerdict::Refuse(DisconnectReasonCode::RetainNotSupported);
    }
    match packet.qos_pid {
        QosPid::Level2(pid) => {
            match pid_digests_get(&session.qos2_pids, pid.value()) {
                Some(known) => PublishVerdict::Known { conflict: known != digest },
                None => {
                    if pid_digests_len(&session.qos2_pids) >= config.max_inflight_server as usize {
                        PublishVerdict::Refuse(DisconnectReasonCode::ReceiveMaximumExceeded)
                    } else {
                        PublishVerdict::Fresh { topic, digest }
                    }
                },
            }
        },
        _ => PublishVerdict::Fresh { topic, digest },
    }
}

/// Remembers what a publish that is taken leaves in the session: its
/// fingerprint under its packet identifier if it is a QoS 2 publish, and
/// its topic under its alias if it has both.
pub fn remember_publish(session: &mut Session, packet: &Publish, digest: u64)
    ensures
        *final(session) == (Session {
            qos2_pids: final(session).qos2_pids,
            topic_aliases: final(session).topic_aliases,
            ..*old(session)
        }),
        pid_digests(final(session).qos2_pids) == (match packet.qos_pid {
            QosPid::Level2(pid) => pid_digests(old(session).qos2_pids).insert(pid.spec_value(), digest),
            _ => pid_digests(old(session).qos2_pids),
        }),
        alias_topics(final(session).topic_aliases) == aliases_after(
            packet.topic_name,
            packet.properties.topic_alias,
            alias_topics(old(session).topic_aliases),
        ),
{
    match packet.qos_pid {
        QosPid::Level2(pid) => {
            let _ = pid_digests_insert(&mut session.qos2_pids, pid.value(), digest);
        },
        _ => {},
    }
    match packet.properties.topic_alias {
        Some(a) => {
            if !packet.topic_name.is_empty() {
                alias_topics_insert(&mut session.topic_aliases, a, packet.topic_name.clone());
            }
        },
        None => {},
    }
}

/// The acknowledgement that answers a PUBLISH which is not refused.
pub fn answer_publish(packet: &Publish, conflict: bool) -> (reply: Option<Packet>)
    ensures
        reply == (match packet.qos_pid {
            QosPid::Level0 => None,
            QosPid::Level1(pid) => Some(
                Packet::Puback(Puback { pid, reason_code: PubackReasonCode::Success }),
            ),
            QosPid::Level2(pid) => Some(
                Packet::Pubrec(
                    Pubrec {
                        pid,
                        reason_code: if conflict {
                            PubrecReasonCode::PacketIdentifierInUse
                        } else {
                            PubrecReasonCode::Success
                        },
                    },
                ),
            ),
        }),
{
    match packet.qos_pid {
        QosPid::Level0 => None,
        QosPid::Level1(pid) => Some(
            Packet::Puback(Puback { pid, reason_code: PubackReasonCode::Success }),
        ),
        QosPid::Level2(pid) => {
            let reason_code = if conflict {
                PubrecReasonCode::PacketIdentifierInUse
            } else {
                PubrecReasonCode::Success
            };
            Some(Packet::Pubrec(Pubrec { pid, reason_code }))
        },
    }
}

/// Handles a PUBLISH of the session's client: see [`publish_handled`].
/// The fingerprint is that of the retain flag, of the topic that the
/// publish is for, and of the payload.
pub fn handle_publish(session: &mut Session, packet: Publish, encode_len: usize, global: &mut GlobalState) -> (answer:
    Result<Option<Packet>, Packet>)
    requires
        old(session).wf(),
        old(global).wf(),
    ensures
        final(session).wf(),
        final(global).wf(),
        publish_handled(
            *old(session),
            *final(session),
            *old(global),
            *final(global),
            packet,
            encode_len,
            answer,
        ),
{
    let alias = packet.properties.topic_alias;
    let digest = match resolve_topic(session, &packet.topic_name, alias, global.config.topic_alias_max) {
        Ok(topic) => fingerprint(packet.retain, topic.as_bytes(), packet.payload.as_slice()),
        Err(_) => 0,
    };
    let answer = handle_publish_with(session, packet, encode_len, digest, global);
    assert(publish_handled_with(
        *old(session),
        *session,
        *old(global),
        *global,
        packet,
        encode_len,
        digest,
        answer,
    ));
    answer
}

/// Handles a PUBLISH of the session's client whose fingerprint is
/// `digest`: see [`publish_handled_with`].
pub fn handle_publish_with(
    session: &mut Session,
    packet: Publish,
    encode_len: usize,
    digest: u64,
    global: &mut GlobalState,
) -> (answer: Result<Option<Packet>, Packet>)
    requires
        old(session).wf(),
        old(global).wf(),
    ensures
        final(session).wf(),
        final(global).wf(),
        publish_handled_with(
            *old(session),
            *final(session),
            *old(global),
            *final(global),
            packet,
            encode_len,
            digest,
            answer,
        ),
{
    match inspect_publish(session, &packet, digest, &global.config) {
        PublishVerdict::Refuse(code) => {
            session.server_disconnected = true;
            Err(Packet::Disconnect(Disconnect::new(code)))
        },
        PublishVerdict::Known { conflict } => Ok(answer_publish(&packet, conflict)),
        PublishVerdict::Fresh { topic, digest } => {
            let expiry = deadline(session.last_packet_time, packet.properties.message_expiry_interval);
            remember_publish(session, &packet, digest);
            send_publish(
                session,
                SendPublish {
                    topic_name: &topic,
                    retain: packet.retain,
                    qos: packet.qos_pid.qos(),
                    payload: &packet.payload,
                    properties: &packet.properties,
                    encode_len,
                    expiry,
                },
                global,
            );
            Ok(answer_publish(&packet, false))
        },
    }
}

/// Handles a PUBACK: the QoS 1 delivery with that packet identifier is
/// complete and leaves the queue. Any other PUBACK changes nothing.
pub fn handle_puback(session: &mut Session, pid: Pid) -> (outcome: AckOutcome)
    requires
        old(session).wf(),
    ensures
        final(session).wf(),
        *final(session) == (Session { pending_packets: final(session).pending_packets, ..*old(session) }),
        crate::pending::acked(
            old(session).pending_packets,
            final(session).pending_packets,
            pid,
            AckKind::Puback,
            old(session).last_packet_time,
            outcome,
        ),
{
    let now = session.last_packet_time;
    session.pending_packets.ack(pid, AckKind::Puback, now)
}

/// The reason code of the PUBREL that answers a PUBREC.
pub open spec fn pubrel_code(outcome: AckOutcome) -> PubrelReasonCode {
    match outcome {
        AckOutcome::Advanced => PubrelReasonCode::Success,
        _ => PubrelReasonCode::PacketIdentifierNotFound,
    }
}

/// Handles a PUBREC: the QoS 2 delivery with that packet identifier moves
/// on to wait for PUBCOMP. PUBREL is the answer; it says that the
/// identifier was not found if no delivery waited for this PUBREC.
pub fn handle_pubrec(session: &mut Session, pid: Pid) -> (answer: Packet)
    requires
        old(session).wf(),
    ensures
        final(session).wf(),
        *final(session) == (Session { pending_packets: final(session).pending_packets, ..*old(session) }),
        exists|outcome: AckOutcome| #[trigger]
            crate::pending::acked(
                old(session).pending_packets,
                final(session).pending_packets,
                pid,
                AckKind::Pubrec,
                old(session).last_packet_time,
                outcome,
            ) && answer == Packet::Pubrel(Pubrel { pid, reason_code: pubrel_code(outcome) }),
{
    let now = session.last_packet_time;
    let outcome = session.pending_packets.ack(pid, AckKind::Pubrec, now);
    let reason_code = match outcome {
        AckOutcome::Advanced => PubrelReasonCode::Success,
        _ => PubrelReasonCode::PacketIdentifierNotFound,
    };
    Packet::Pubrel(Pubrel { pid, reason_code })
}

/// Handles a PUBREL: the inbound QoS 2 publish with that packet
/// identifier is complete and the session forgets it. PUBCOMP is the
/// answer; it says that the identifier was not found if the session did
/// not know the publish.
pub fn handle_pubrel(session: &mut Session, pid: Pid) -> (answer: Packet)
    ensures
        answer == Packet::Pubcomp(
            Pubcomp {
                pid,
                reason_code: if pid_digests(old(session).qos2_pids).contains_key(pid.spec_value()) {
                    PubcompReasonCode::Success
                } else {
                    PubcompReasonCode::PacketIdentifierNotFound
                },
            },
        ),
        *final(session) == (Session { qos2_pids: final(session).qos2_pids, ..*old(session) }),
        pid_digests(final(session).qos2_pids) == pid_digests(old(session).qos2_pids).remove(
            pid.spec_value(),
        ),
{
    let reason_code = match pid_digests_remove(&mut session.qos2_pids, pid.value()) {
        Some(_) => PubcompReasonCode::Success,
        None => PubcompReasonCode::PacketIdentifierNotFound,
    };
    Packet::Pubcomp(Pubcomp { pid, reason_code })
}

/// Handles a PUBCOMP: the QoS 2 delivery with that packet identifier is
/// complete and leaves the queue. Any other PUBCOMP changes nothing.
pub fn handle_pubcomp(session: &mut Session, pid: Pid) -> (outcome: AckOutcome)
    requires
        old(session).wf(),
    ensures
        final(session).wf(),
        *final(session) == (Session { pending_packets: final(session).pending_packets, ..*old(session) }),
        crate::pending::acked(
            old(session).pending_packets,
            final(session).pending_packets,
            pid,
            AckKind::Pubcomp,
            old(session).last_packet_time,
            outcome,
        ),
{
    let now = session.last_packet_time;
    session.pending_packets.ack(pid, AckKind::Pubcomp, now)
}

} // verus!
