//! What holds of the broker whatever it is asked to do: laws that relate
//! the contracts of several operations, each proved from those
//! contracts.

use vstd::prelude::*;
use crate::collections::alias_topics;
use crate::collections::pid_digests;
use crate::online::queued;
use crate::online::WritePacket;
use crate::pending::acked;
use crate::pending::pid_absent;
use crate::pending::pids_unique;
use crate::pending::AckKind;
use crate::pending::AckOutcome;
use crate::pending::PendingPackets;
use crate::retain::matched_by;
use crate::retain::topics_unique;
use crate::retain::RetainContent;
use crate::route::matching;
use crate::route::RouteEntry;
use crate::state::ClientRegistry;
use crate::state::Delivery;
use crate::state::GlobalState;
use crate::topic::TopicFilter;
use crate::topic::TopicName;
use crate::types::ClientId;
use crate::types::Pid;
use crate::types::QoS;
use crate::types::QosPid;
use crate::v3;
use crate::v5;
use crate::v5::types::DisconnectReasonCode;
use crate::v5::types::PubrecReasonCode;
use crate::v5::types::SubscriptionOptions;

verus! {

/// Every element that passes a test stands in the filtered sequence, and
/// every element of the filtered sequence stands in the sequence and
/// passes the test.
pub proof fn lemma_filter_members<A>(s: Seq<A>, pred: spec_fn(A) -> bool)
    ensures
        forall|i: int| 0 <= i < s.len() && pred(s[i]) ==> #[trigger] s.filter(pred).contains(s[i]),
        forall|k: int|
            0 <= k < s.filter(pred).len() ==> pred(#[trigger] s.filter(pred)[k]) && s.contains(
                s.filter(pred)[k],
            ),
    decreases s.len(),
{
    reveal(Seq::filter);
    if s.len() > 0 {
        let front = s.drop_last();
        lemma_filter_members(front, pred);
        assert(s.filter(pred) == (if pred(s.last()) {
            front.filter(pred).push(s.last())
        } else {
            front.filter(pred)
        }));
        assert forall|i: int| 0 <= i < s.len() && pred(s[i]) implies #[trigger] s.filter(
            pred,
        ).contains(s[i]) by {
            if i < s.len() - 1 {
                assert(front[i] == s[i]);
                assert(front.filter(pred).contains(front[i]));
                let k = choose|k: int|
                    0 <= k < front.filter(pred).len() && front.filter(pred)[k] == front[i];
                assert(s.filter(pred)[k] == s[i]);
            } else {
                assert(s.filter(pred)[s.filter(pred).len() - 1] == s[i]);
            }
        }
        assert forall|k: int| 0 <= k < s.filter(pred).len() implies pred(
            #[trigger] s.filter(pred)[k],
        ) && s.contains(s.filter(pred)[k]) by {
            if k < front.filter(pred).len() {
                assert(s.filter(pred)[k] == front.filter(pred)[k]);
                assert(front.contains(front.filter(pred)[k]));
                let i = choose|i: int| 0 <= i < front.len() && front[i] == front.filter(pred)[k];
                assert(s[i] == s.filter(pred)[k]);
            } else {
                assert(s.filter(pred)[k] == s.last());
                assert(s[s.len() - 1] == s.last());
            }
        }
    }
}

/// Whether `delivery` is what `make` makes of a subscription in `routes`
/// whose filter matches `topic`.
pub open spec fn made_for_match(
    routes: Seq<RouteEntry>,
    topic: TopicName,
    make: spec_fn(RouteEntry) -> Delivery,
    delivery: Delivery,
) -> bool {
    exists|i: int|
        0 <= i < routes.len() && (#[trigger] routes[i]).filter.spec_matches(&topic) && delivery
            == make(routes[i])
}

/// A publish reaches every subscription whose filter matches its topic,
/// and nothing else: the deliveries that it adds to the outbox are one
/// for each such subscription, in the order of the subscriptions, each
/// addressed to the client of its subscription.
pub proof fn lemma_publish_reaches_every_match(
    g0: GlobalState,
    g1: GlobalState,
    sender: ClientId,
    msg: v3::publish::SendPublish,
)
    requires
        v3::publish::publish_sent(g0, g1, sender, msg),
    ensures
        g1.outbox@.len() == g0.outbox@.len() + g0.route_table@.filter(matching(*msg.topic_name)).len(),
        forall|i: int|
            0 <= i < g0.route_table@.len() && (#[trigger] g0.route_table@[i]).filter.spec_matches(
                msg.topic_name,
            ) ==> exists|k: int|
                g0.outbox@.len() <= k < g1.outbox@.len() && #[trigger] g1.outbox@[k]
                    == v3::publish::delivery_v3(sender, msg)(g0.route_table@[i]),
        forall|k: int|
            g0.outbox@.len() <= k < g1.outbox@.len() ==> made_for_match(
                g0.route_table@,
                *msg.topic_name,
                v3::publish::delivery_v3(sender, msg),
                #[trigger] g1.outbox@[k],
            ),
{
    let all = g0.route_table@;
    let pred = matching(*msg.topic_name);
    let make = v3::publish::delivery_v3(sender, msg);
    let matches = all.filter(pred);
    lemma_filter_members(all, pred);
    assert forall|i: int|
        0 <= i < all.len() && (#[trigger] all[i]).filter.spec_matches(
            msg.topic_name,
        ) implies exists|k: int|
        g0.outbox@.len() <= k < g1.outbox@.len() && #[trigger] g1.outbox@[k] == make(all[i]) by {
        assert(pred(all[i]));
        assert(matches.contains(all[i]));
        let m = choose|m: int| 0 <= m < matches.len() && matches[m] == all[i];
        assert(g1.outbox@[g0.outbox@.len() + m] == make(matches[m]));
    }
    assert forall|k: int| g0.outbox@.len() <= k < g1.outbox@.len() implies made_for_match(
        all,
        *msg.topic_name,
        make,
        #[trigger] g1.outbox@[k],
    ) by {
        let m = k - g0.outbox@.len();
        assert(g1.outbox@[k] == make(matches[m]));
        assert(pred(matches[m]) && all.contains(matches[m]));
        let i = choose|i: int| 0 <= i < all.len() && all[i] == matches[m];
        assert(all[i].filter.spec_matches(msg.topic_name));
    }
}

/// A publish that a session takes for a subscription is delivered at the
/// lower of the quality of service of the publish and that of the
/// subscription.
pub proof fn lemma_delivered_at_lower_qos(
    s0: v3::session::Session,
    s1: v3::session::Session,
    msg: v3::publish::RecvPublish,
    qos: QoS,
    packet: v3::packet::Packet,
)
    requires
        v3::publish::publish_received(s0, s1, msg, Some((qos, Some(packet)))),
    ensures
        qos == msg.qos.spec_min(msg.subscribe_qos),
        qos.level() <= msg.qos.level(),
        qos.level() <= msg.subscribe_qos.level(),
        packet matches v3::packet::Packet::Publish(p) && p.qos_pid.spec_qos() == qos,
{
}

/// A delivery is complete after its final acknowledgement: the publish
/// has left the queue, so that no tick of the timer transmits it again,
/// and a second acknowledgement finds nothing.
pub proof fn lemma_completed_delivery_is_gone<P>(
    before: PendingPackets<P>,
    after: PendingPackets<P>,
    pid: Pid,
    kind: AckKind,
    now: u64,
)
    requires
        pids_unique(before@),
        acked(before, after, pid, kind, now, AckOutcome::Completed),
    ensures
        after@.len() == before@.len() - 1,
        pid_absent(after@, pid),
        pids_unique(after@),
{
    let i = choose|i: int|
        crate::pending::is_first_with_pid(before@, pid, i) && crate::pending::ack_fits(
            before@[i].state,
            kind,
        ) && after@ == #[trigger] before@.remove(i);
    assert forall|j: int| 0 <= j < after@.len() implies (#[trigger] after@[j]).pid != pid by {
        if j < i {
            assert(after@[j] == before@[j]);
        } else {
            assert(after@[j] == before@[j + 1]);
            assert(before@[i].pid != before@[j + 1].pid);
        }
    }
    assert forall|a: int, b: int| 0 <= a < b < after@.len() implies (#[trigger] after@[a]).pid != (
    #[trigger] after@[b]).pid by {
        let a0 = if a < i {
            a
        } else {
            a + 1
        };
        let b0 = if b < i {
            b
        } else {
            b + 1
        };
        assert(after@[a] == before@[a0]);
        assert(after@[b] == before@[b0]);
        assert(before@[a0].pid != before@[b0].pid);
    }
}

/// An identifier has one session at most: two entries of the registry
/// that are online under the same identifier are one and the same.
pub proof fn lemma_one_online_session(registry: ClientRegistry, i: int, j: int)
    requires
        registry.wf(),
        0 <= i < registry@.len(),
        0 <= j < registry@.len(),
        registry@[i].identifier@ == registry@[j].identifier@,
        registry@[i].online,
        registry@[j].online,
    ensures
        i == j,
{
    registry.lemma_one_session_per_identifier(i, j);
}

/// A connection that gives a known identifier makes no second session:
/// the registry has as many entries as before, and the one of the
/// identifier keeps its client id.
pub proof fn lemma_takeover_keeps_one_session(
    before: Seq<crate::state::ClientEntry>,
    after: Seq<crate::state::ClientEntry>,
    i: int,
    protocol: crate::types::Protocol,
)
    requires
        0 <= i < before.len(),
        after == before.update(i, (crate::state::ClientEntry { online: true, protocol, ..before[i] })),
    ensures
        after.len() == before.len(),
        after[i].client_id == before[i].client_id,
        after[i].identifier == before[i].identifier,
        forall|k: int| 0 <= k < before.len() && k != i ==> after[k] == before[k],
{
}

/// The retained messages that a SUBSCRIBE with one filter brings, where
/// the filter is not refused and its retain handling permits it: the
/// session takes one message for each retained message that the filter
/// matches, no message twice and no other, and what that gives to write
/// stands in the answer behind the SUBACK. Nothing of it goes through a
/// mailbox.
pub proof fn lemma_retained_once(
    s0: v5::session::Session,
    s1: v5::session::Session,
    g0: GlobalState,
    g1: GlobalState,
    packet: v5::packet::Subscribe,
    packets: Vec<v5::packet::Packet>,
)
    requires
        g0.retain_table.wf(),
        packet.topics@.len() == 1,
        v5::subscribe::filter_refusal(packet.topics@[0].0, g0.config) is None,
        v5::subscribe::sends_retained(
            packet.topics@[0].1.retain_handling,
            crate::collections::subscriptions(s0.subscribes).contains_key(packet.topics@[0].0@),
        ),
        v5::subscribe::subscribe_handled(s0, s1, g0, g1, packet, Ok(packets)),
    ensures
        v5::subscribe::all_received(
            (v5::session::Session { subscribes: s1.subscribes, ..s0 }),
            s1,
            g0.retain_table@.filter(matched_by(packet.topics@[0].0, s0.last_packet_time)).map_values(
                v5::subscribe::retained_delivery(
                    s0.client_id,
                    packet.topics@[0].0,
                    v5::subscribe::granted_qos(packet.topics@[0].1, g0.config),
                ),
            ),
            packets@.subrange(1, packets@.len() as int),
        ),
        g1.outbox == g0.outbox,
        forall|a: int, b: int|
            0 <= a < b < g0.retain_table@.filter(
                matched_by(packet.topics@[0].0, s0.last_packet_time),
            ).len() ==> (#[trigger] g0.retain_table@.filter(
                matched_by(packet.topics@[0].0, s0.last_packet_time),
            )[a]).topic_name@ != (#[trigger] g0.retain_table@.filter(
                matched_by(packet.topics@[0].0, s0.last_packet_time),
            )[b]).topic_name@,
{
    let topics = packet.topics@;
    let m = crate::collections::subscriptions(s0.subscribes);
    assert(topics.drop_last() =~= Seq::<(TopicFilter, SubscriptionOptions)>::empty());
    assert(topics.last() == topics[0]);
    reveal_with_fuel(v5::subscribe::retained_deliveries, 2);
    reveal_with_fuel(v5::subscribe::subscribed_map, 2);
    let pred = matched_by(topics[0].0, s0.last_packet_time);
    lemma_filter_keeps_topics_apart(g0.retain_table@, pred);
    let made = g0.retain_table@.filter(pred).map_values(
        v5::subscribe::retained_delivery(
            s0.client_id,
            topics[0].0,
            v5::subscribe::granted_qos(topics[0].1, g0.config),
        ),
    );
    assert(v5::subscribe::retained_deliveries(
        m,
        g0.retain_table@,
        topics,
        s0.client_id,
        packet.subscription_id,
        g0.config,
        s0.last_packet_time,
    ) =~= made);
}

/// A SUBSCRIBE with one filter whose retain handling forbids it brings no
/// retained message: the answer is the SUBACK alone, and the session
/// changes in its subscriptions only.
pub proof fn lemma_retained_not_sent(
    s0: v5::session::Session,
    s1: v5::session::Session,
    g0: GlobalState,
    g1: GlobalState,
    packet: v5::packet::Subscribe,
    packets: Vec<v5::packet::Packet>,
)
    requires
        packet.topics@.len() == 1,
        !v5::subscribe::sends_retained(
            packet.topics@[0].1.retain_handling,
            crate::collections::subscriptions(s0.subscribes).contains_key(packet.topics@[0].0@),
        ),
        v5::subscribe::subscribe_handled(s0, s1, g0, g1, packet, Ok(packets)),
    ensures
        packets@.len() == 1,
        s1 == (v5::session::Session { subscribes: s1.subscribes, ..s0 }),
        g1.outbox == g0.outbox,
{
    let topics = packet.topics@;
    let m = crate::collections::subscriptions(s0.subscribes);
    assert(topics.drop_last() =~= Seq::<(TopicFilter, SubscriptionOptions)>::empty());
    assert(topics.last() == topics[0]);
    reveal_with_fuel(v5::subscribe::retained_deliveries, 2);
    reveal_with_fuel(v5::subscribe::subscribed_map, 2);
    let none = v5::subscribe::retained_deliveries(
        m,
        g0.retain_table@,
        topics,
        s0.client_id,
        packet.subscription_id,
        g0.config,
        s0.last_packet_time,
    );
    assert(none =~= Seq::<Delivery>::empty());
    let tail = packets@.subrange(1, packets@.len() as int);
    let sm = v5::session::Session { subscribes: s1.subscribes, ..s0 };
    assert(v5::subscribe::all_received(sm, s1, none, tail));
    let (states, outs) = choose|
        states: Seq<v5::session::Session>,
        outs: Seq<Option<(QoS, Option<v5::packet::Packet>)>>,
    | #[trigger]
        v5::subscribe::received_in_turn(sm, s1, none, states, outs) && tail
            == v5::subscribe::written(outs);
    assert(outs.len() == 0);
    assert(tail.len() == 0);
}

/// Retained messages of which no two have the same topic stay so when
/// some are filtered out.
pub proof fn lemma_filter_keeps_topics_apart(s: Seq<RetainContent>, pred: spec_fn(RetainContent) -> bool)
    requires
        topics_unique(s),
    ensures
        topics_unique(s.filter(pred)),
    decreases s.len(),
{
    reveal(Seq::filter);
    if s.len() > 0 {
        let front = s.drop_last();
        assert(topics_unique(front)) by {
            assert forall|i: int, j: int| 0 <= i < j < front.len() implies (
            #[trigger] front[i]).topic_name@ != (#[trigger] front[j]).topic_name@ by {
                assert(s[i].topic_name@ != s[j].topic_name@);
            }
        }
        lemma_filter_keeps_topics_apart(front, pred);
        lemma_filter_members(front, pred);
        let out = s.filter(pred);
        assert forall|a: int, b: int| 0 <= a < b < out.len() implies (#[trigger] out[a]).topic_name@
            != (#[trigger] out[b]).topic_name@ by {
            if b < front.filter(pred).len() {
                assert(out[a] == front.filter(pred)[a]);
                assert(out[b] == front.filter(pred)[b]);
            } else {
                assert(out[b] == s.last());
                assert(out[a] == front.filter(pred)[a]);
                assert(front.contains(front.filter(pred)[a]));
                let i = choose|i: int| 0 <= i < front.len() && front[i] == front.filter(pred)[a];
                assert(s[i].topic_name@ != s[s.len() - 1].topic_name@);
            }
        }
    }
}

/// What a SUBSCRIBE brings of retained messages is written before
/// anything that reaches the session later: it stands in the answer,
/// which is queued for writing as a whole, and whatever is queued
/// afterwards stands behind it.
pub proof fn lemma_retained_before_live(
    s0: v5::session::Session,
    s1: v5::session::Session,
    g0: GlobalState,
    g1: GlobalState,
    packet: v5::packet::Subscribe,
    packets: Vec<v5::packet::Packet>,
    w0: Seq<WritePacket<v5::packet::Packet>>,
    later: Seq<v5::packet::Packet>,
)
    requires
        v5::subscribe::subscribe_handled(s0, s1, g0, g1, packet, Ok(packets)),
    ensures
        g1.outbox == g0.outbox,
        queued(queued(w0, packets@), later).len() == w0.len() + packets@.len() + later.len(),
        forall|k: int|
            0 <= k < packets@.len() ==> queued(queued(w0, packets@), later)[w0.len() + k]
                == WritePacket::Packet(#[trigger] packets@[k]),
        forall|k: int|
            0 <= k < later.len() ==> queued(queued(w0, packets@), later)[w0.len() + packets@.len() + k]
                == WritePacket::Packet(#[trigger] later[k]),
{
}

/// A QoS 2 publish that the session takes is remembered: the session
/// knows its packet identifier afterwards, with its fingerprint, and has
/// answered with a PUBREC that reports success.
pub proof fn lemma_qos2_received(
    s0: v5::session::Session,
    s1: v5::session::Session,
    g0: GlobalState,
    g1: GlobalState,
    packet: v5::packet::Publish,
    encode_len: usize,
    digest: u64,
    reply: Option<v5::packet::Packet>,
    pid: Pid,
)
    requires
        packet.qos_pid == QosPid::Level2(pid),
        !v5::publish::publish_known(s0, packet),
        v5::publish::publish_handled_with(s0, s1, g0, g1, packet, encode_len, digest, Ok(reply)),
    ensures
        reply == Some(
            v5::packet::Packet::Pubrec(
                v5::packet::Pubrec { pid, reason_code: PubrecReasonCode::Success },
            ),
        ),
        pid_digests(s1.qos2_pids).contains_key(pid.spec_value()),
        pid_digests(s1.qos2_pids)[pid.spec_value()] == digest,
{
}

/// While a QoS 2 publish is incomplete, a publish with its packet
/// identifier is not accepted as a new one: it changes neither the
/// session nor the retained messages nor the outbox. It is answered with
/// a PUBREC, which reports success to a repetition, that is to a publish
/// with the fingerprint that the session remembers, and an identifier
/// in use to anything else.
pub proof fn lemma_qos2_no_redelivery(
    s0: v5::session::Session,
    s1: v5::session::Session,
    g0: GlobalState,
    g1: GlobalState,
    packet: v5::packet::Publish,
    encode_len: usize,
    digest: u64,
    reply: Option<v5::packet::Packet>,
    pid: Pid,
)
    requires
        packet.qos_pid == QosPid::Level2(pid),
        pid_digests(s0.qos2_pids).contains_key(pid.spec_value()),
        v5::publish::publish_handled_with(s0, s1, g0, g1, packet, encode_len, digest, Ok(reply)),
    ensures
        s1 == s0,
        g1.outbox == g0.outbox,
        g1.retain_table == g0.retain_table,
        g1.route_table == g0.route_table,
        reply == Some(
            v5::packet::Packet::Pubrec(
                v5::packet::Pubrec {
                    pid,
                    reason_code: if pid_digests(s0.qos2_pids)[pid.spec_value()] == digest {
                        PubrecReasonCode::Success
                    } else {
                        PubrecReasonCode::PacketIdentifierInUse
                    },
                },
            ),
        ),
{
}

/// The same for protocol versions 3.x: while a QoS 2 publish is
/// incomplete, a publish with its packet identifier is taken only if it
/// has the fingerprint that the session remembers; it is answered with
/// PUBREC again and changes nothing.
pub proof fn lemma_v3_qos2_no_redelivery(
    s0: v3::session::Session,
    s1: v3::session::Session,
    g0: GlobalState,
    g1: GlobalState,
    packet: v3::packet::Publish,
    digest: u64,
    reply: Option<v3::packet::Packet>,
    pid: Pid,
)
    requires
        packet.qos_pid == QosPid::Level2(pid),
        pid_digests(s0.qos2_pids).contains_key(pid.spec_value()),
        v3::publish::publish_handled_with(s0, s1, g0, g1, packet, digest, Ok(reply)),
    ensures
        pid_digests(s1.qos2_pids) == pid_digests(s0.qos2_pids),
        pid_digests(s0.qos2_pids)[pid.spec_value()] == digest,
        g1.outbox == g0.outbox,
        g1.retain_table == g0.retain_table,
        g1.route_table == g0.route_table,
        reply == Some(v3::packet::Packet::Pubrec(pid)),
{
    assert(pid_digests(s0.qos2_pids).insert(pid.spec_value(), digest) =~= pid_digests(s0.qos2_pids));
}

/// A delivery that its client acknowledged is not made again: once the
/// acknowledgement that completes it has come in, no publish of the
/// session waits under its packet identifier, so that no tick of the
/// timer writes it again; and the identifier that the next delivery gets
/// is still one that no publish in the queue uses.
pub proof fn lemma_acknowledged_delivery_is_over(
    s0: v3::session::Session,
    s1: v3::session::Session,
    pid: Pid,
    kind: AckKind,
)
    requires
        s0.wf(),
        s1 == (v3::session::Session { pending_packets: s1.pending_packets, ..s0 }),
        acked(s0.pending_packets, s1.pending_packets, pid, kind, s0.last_packet_time, AckOutcome::Completed),
    ensures
        pid_absent(s1.pending_packets@, pid),
        s1.pending_packets@.len() == s0.pending_packets@.len() - 1,
        s1.wf(),
{
    lemma_completed_delivery_is_gone(s0.pending_packets, s1.pending_packets, pid, kind, s0.last_packet_time);
    let i = choose|i: int|
        crate::pending::is_first_with_pid(s0.pending_packets@, pid, i) && crate::pending::ack_fits(
            s0.pending_packets@[i].state,
            kind,
        ) && s1.pending_packets@ == #[trigger] s0.pending_packets@.remove(i);
    crate::pending::lemma_remove_keeps_pids(s0.pending_packets@, i);
}

/// The packet identifier that a session hands out for a delivery is one
/// that no publish in its queue uses.
pub proof fn lemma_next_identifier_is_free(session: v3::session::Session)
    requires
        session.wf(),
    ensures
        pid_absent(session.pending_packets@, session.server_packet_id),
        !v3::session::value_pending(
            session.pending_packets@,
            session.server_packet_id.spec_value() as int,
        ),
{
    let s = session.pending_packets@;
    assert forall|i: int| 0 <= i < s.len() implies (#[trigger] s[i]).pid.spec_value()
        != session.server_packet_id.spec_value() by {
        crate::types::lemma_pid_equal(s[i].pid, session.server_packet_id);
    }
}

/// The queue of outbound publishes never holds more than may be in
/// flight and may wait in memory together.
pub proof fn lemma_pending_bounded<P>(queue: PendingPackets<P>)
    requires
        queue.wf(),
    ensures
        queue@.len() <= queue.spec_max_inflight() + queue.spec_max_in_mem_pending(),
{
}

/// Topic alias 0 is always refused, and so is an alias above the highest
/// that the broker allows: whatever else a PUBLISH holds, and whatever
/// the session has seen, the connection is closed over it with the
/// reason that the topic alias is invalid.
pub proof fn lemma_alias_out_of_range_refused(
    s0: v5::session::Session,
    s1: v5::session::Session,
    g0: GlobalState,
    g1: GlobalState,
    packet: v5::packet::Publish,
    encode_len: usize,
    answer: Result<Option<v5::packet::Packet>, v5::packet::Packet>,
    alias: u16,
)
    requires
        packet.properties.topic_alias == Some(alias),
        alias == 0 || alias > g0.config.topic_alias_max,
        v5::publish::publish_handled(s0, s1, g0, g1, packet, encode_len, answer),
    ensures
        answer == Err::<Option<v5::packet::Packet>, _>(
            v5::packet::Packet::Disconnect(
                v5::packet::Disconnect {
                    reason_code: DisconnectReasonCode::TopicAliasInvalid,
                    session_expiry_interval: None,
                },
            ),
        ),
        alias_topics(s1.topic_aliases) == alias_topics(s0.topic_aliases),
        g1.outbox == g0.outbox,
        g1.retain_table == g0.retain_table,
{
}

/// Once a PUBLISH with a topic name and an alias was taken, a publish
/// with that alias and no topic name is for the topic of the first.
pub proof fn lemma_alias_stands_for_topic(
    s0: v5::session::Session,
    s1: v5::session::Session,
    g0: GlobalState,
    g1: GlobalState,
    first: v5::packet::Publish,
    encode_len: usize,
    reply: Option<v5::packet::Packet>,
    second: v5::packet::Publish,
    alias: u16,
)
    requires
        first.properties.topic_alias == Some(alias),
        first.topic_name@.len() != 0,
        !v5::publish::publish_known(s0, first),
        v5::publish::publish_handled(s0, s1, g0, g1, first, encode_len, Ok(reply)),
        second.properties.topic_alias == Some(alias),
        second.topic_name@.len() == 0,
    ensures
        v5::publish::publish_topic(s1, second) == first.topic_name,
        v5::publish::alias_refused(
            second.properties.topic_alias,
            true,
            alias_topics(s1.topic_aliases),
            g0.config.topic_alias_max,
        ) is None,
{
}

} // verus!
