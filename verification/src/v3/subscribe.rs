//! What a session does with SUBSCRIBE and UNSUBSCRIBE.

use vstd::prelude::*;
use crate::collections::subscriptions;
use crate::collections::subscriptions_insert;
use crate::collections::subscriptions_remove;
use crate::retain::matched_by;
use crate::retain::RetainContent;
use crate::route::not_among;
use crate::route::subscribed;
use crate::route::RouteEntry;
use crate::state::Delivery;
use crate::state::GlobalState;
use crate::state::NormalMessage;
use crate::topic::topic_filter_check;
use crate::topic::TopicFilter;
use crate::types::share;
use crate::types::ClientId;
use crate::types::ErrorKind;
use crate::types::QoS;
use crate::v3::packet::Packet;
use crate::v3::packet::Suback;
use crate::v3::packet::Subscribe;
use crate::v3::packet::SubscribeReturnCode;
use crate::v3::packet::Unsubscribe;
use crate::v3::message::carried;
use crate::v3::message::take_message;
use crate::v3::publish::publish_received;
use crate::v3::session::Session;
use crate::v5::session::SubscriptionData;
use crate::v5::types::RetainHandling;
use crate::v5::types::SubscriptionOptions;

verus! {

/// Whether a subscription with this filter is refused: protocol versions
/// 3.x have no shared subscriptions.
pub open spec fn filter_refused(filter: TopicFilter) -> bool {
    topic_filter_check(filter@).1 > 0
}

/// What a session keeps of a subscription that was granted `qos`.
pub open spec fn granted_data(qos: QoS) -> SubscriptionData {
    SubscriptionData {
        options: SubscriptionOptions {
            max_qos: qos,
            no_local: false,
            retain_as_published: false,
            retain_handling: RetainHandling::SendAtSubscribe,
        },
        id: None,
    }
}

/// The return code for one filter of a SUBSCRIBE: a failure for a filter
/// that is refused, else the lower of the quality of service asked for and
/// the highest that the broker grants.
pub open spec fn return_code(topic: (TopicFilter, QoS), max_qos: QoS) -> SubscribeReturnCode {
    if filter_refused(topic.0) {
        SubscribeReturnCode::Failure
    } else {
        SubscribeReturnCode::granted(topic.1.spec_min(max_qos))
    }
}

/// The return codes for the filters of a SUBSCRIBE, in their order.
pub open spec fn return_codes(topics: Seq<(TopicFilter, QoS)>, max_qos: QoS) -> Seq<SubscribeReturnCode> {
    topics.map_values(|t: (TopicFilter, QoS)| return_code(t, max_qos))
}

/// The subscriptions of a session after it subscribed with `topics`, one
/// after the other.
pub open spec fn subscribed_map(
    m: Map<Seq<char>, (TopicFilter, SubscriptionData)>,
    topics: Seq<(TopicFilter, QoS)>,
    max_qos: QoS,
) -> Map<Seq<char>, (TopicFilter, SubscriptionData)>
    decreases topics.len(),
{
    if topics.len() == 0 {
        m
    } else {
        let before = subscribed_map(m, topics.drop_last(), max_qos);
        let topic = topics.last();
        if filter_refused(topic.0) {
            before
        } else {
            before.insert(topic.0@, (topic.0, granted_data(topic.1.spec_min(max_qos))))
        }
    }
}

/// The subscriptions of all clients after `client_id` subscribed with
/// `topics`, one after the other.
pub open spec fn subscribed_routes(
    s: Seq<RouteEntry>,
    topics: Seq<(TopicFilter, QoS)>,
    client_id: ClientId,
    max_qos: QoS,
) -> Seq<RouteEntry>
    decreases topics.len(),
{
    if topics.len() == 0 {
        s
    } else {
        let before = subscribed_routes(s, topics.drop_last(), client_id, max_qos);
        let topic = topics.last();
        if filter_refused(topic.0) {
            before
        } else {
            subscribed(
                before,
                RouteEntry {
                    filter: topic.0,
                    client_id,
                    data: granted_data(topic.1.spec_min(max_qos)),
                },
            )
        }
    }
}

/// The delivery of a retained message to a client that subscribed with
/// `filter` and was granted `qos`. It keeps its retain flag.
pub open spec fn retained_delivery(receiver: ClientId, filter: TopicFilter, qos: QoS) -> spec_fn(
    RetainContent,
) -> Delivery {
    |c: RetainContent|
        Delivery {
            sender: c.client_id,
            receiver,
            message: NormalMessage::PublishV3 {
                topic_name: c.topic_name,
                qos: c.qos,
                retain: true,
                payload: c.payload,
                subscribe_filter: filter,
                subscribe_qos: qos,
                encode_len: c.encode_len,
            },
        }
}

/// The deliveries of retained messages that subscribing with `topics`
/// causes: for each filter that is not refused, in the order of the
/// filters, one for every retained message that the filter matches and
/// that has not expired at `now`, in the order of the table.
pub open spec fn retained_deliveries(
    retained: Seq<RetainContent>,
    topics: Seq<(TopicFilter, QoS)>,
    receiver: ClientId,
    max_qos: QoS,
    now: u64,
) -> Seq<Delivery>
    decreases topics.len(),
{
    if topics.len() == 0 {
        Seq::<Delivery>::empty()
    } else {
        let before = retained_deliveries(retained, topics.drop_last(), receiver, max_qos, now);
        let topic = topics.last();
        if filter_refused(topic.0) {
            before
        } else {
            before + retained.filter(matched_by(topic.0, now)).map_values(
                retained_delivery(receiver, topic.0, topic.1.spec_min(max_qos)),
            )
        }
    }
}

/// The views of the filters of an UNSUBSCRIBE, as a set.
pub open spec fn filter_views(filters: Seq<TopicFilter>) -> Set<Seq<char>> {
    Set::new(|k: Seq<char>| exists|i: int| 0 <= i < filters.len() && (#[trigger] filters[i])@ == k)
}

/// The packets that a sequence of deliveries gave to write, in their
/// order: one for each delivery that was taken and goes out at once.
pub open spec fn written(outs: Seq<Option<(QoS, Option<Packet>)>>) -> Seq<Packet>
    decreases outs.len(),
{
    if outs.len() == 0 {
        Seq::<Packet>::empty()
    } else {
        match outs.last() {
            Some((_, Some(packet))) => written(outs.drop_last()).push(packet),
            _ => written(outs.drop_last()),
        }
    }
}

/// Whether `states` and `outs` show how the session `s0` took the
/// publishes of `deliveries` one after the other and became `s1`:
/// `states` holds the session before and after each, `outs` what each
/// gave, as [`publish_received`] says.
pub open spec fn received_in_turn(
    s0: Session,
    s1: Session,
    deliveries: Seq<Delivery>,
    states: Seq<Session>,
    outs: Seq<Option<(QoS, Option<Packet>)>>,
) -> bool {
    &&& states.len() == deliveries.len() + 1
    &&& outs.len() == deliveries.len()
    &&& states[0] == s0
    &&& states[deliveries.len() as int] == s1
    &&& forall|i: int|
        0 <= i < deliveries.len() ==> publish_received(
            states[i],
            states[i + 1],
            carried(deliveries[i].message),
            #[trigger] outs[i],
        )
}

/// Whether `s1` is the session `s0` after it took the publishes of
/// `deliveries` one after the other, and `packets` is what that gave to
/// write.
pub open spec fn all_received(s0: Session, s1: Session, deliveries: Seq<Delivery>, packets: Seq<Packet>) -> bool {
    exists|states: Seq<Session>, outs: Seq<Option<(QoS, Option<Packet>)>>|
        #[trigger] received_in_turn(s0, s1, deliveries, states, outs) && packets == written(outs)
}

/// Whether `s1` and `g1` are the session `s0` and the shared state `g0`
/// after the session handled the SUBSCRIBE `packet` with the result
/// `answer`. One without filters fails with `InvalidData` and changes
/// nothing. Otherwise every filter that is not refused becomes a
/// subscription of the session, in place of one with the same filter.
/// Then the session takes every retained message that such a filter
/// matches, as it takes any publish that reaches it, with the retain
/// flag set and at the lower of the quality of service of the message
/// and that of the subscription. The answer is the SUBACK with one
/// return code per filter, and behind it the PUBLISH of every retained
/// message that goes out at once.
pub open spec fn subscribe_handled(
    s0: Session,
    s1: Session,
    g0: GlobalState,
    g1: GlobalState,
    packet: Subscribe,
    answer: Result<Vec<Packet>, Option<ErrorKind>>,
) -> bool {
    &&& g1.config == g0.config
    &&& g1.clients == g0.clients
    &&& g1.retain_table == g0.retain_table
    &&& g1.outbox == g0.outbox
    &&& answer is Err <==> packet.topics@.len() == 0
    &&& answer matches Err(kind) ==> {
        &&& kind == Some(ErrorKind::InvalidData)
        &&& s1 == s0
        &&& g1.route_table == g0.route_table
    }
    &&& answer matches Ok(packets) ==> {
        &&& packets@.len() >= 1
        &&& packets@[0] matches Packet::Suback(suback) && suback.pid == packet.pid
            && suback.topics@ == return_codes(packet.topics@, g0.config.max_allowed_qos)
        &&& subscriptions(s1.subscribes) == subscribed_map(
            subscriptions(s0.subscribes),
            packet.topics@,
            g0.config.max_allowed_qos,
        )
        &&& g1.route_table@ == subscribed_routes(
            g0.route_table@,
            packet.topics@,
            s0.client_id,
            g0.config.max_allowed_qos,
        )
        &&& all_received(
            (Session { subscribes: s1.subscribes, ..s0 }),
            s1,
            retained_deliveries(
                g0.retain_table@,
                packet.topics@,
                s0.client_id,
                g0.config.max_allowed_qos,
                s0.last_packet_time,
            ),
            packets@.subrange(1, packets@.len() as int),
        )
    }
}

/// Handles a SUBSCRIBE: see [`subscribe_handled`].
pub fn handle_subscribe(session: &mut Session, packet: &Subscribe, global: &mut GlobalState) -> (answer:
    Result<Vec<Packet>, Option<ErrorKind>>)
    requires
        old(session).wf(),
        old(global).wf(),
    ensures
        final(session).wf(),
        final(global).wf(),
        subscribe_handled(*old(session), *final(session), *old(global), *final(global), *packet, answer),
{
    if packet.topics.len() == 0 {
        return Err(Some(ErrorKind::InvalidData));
    }
    let max_qos = global.config.max_allowed_qos;
    let now = session.last_packet_time;
    let client_id = session.client_id;
    let ghost topics = packet.topics@;
    let ghost retained = global.retain_table@;
    let mut found: Vec<Delivery> = Vec::new();
    let mut codes: Vec<SubscribeReturnCode> = Vec::new();
    let mut i: usize = 0;
    assert(topics.take(0) =~= Seq::<(TopicFilter, QoS)>::empty());
    assert(found@ =~= retained_deliveries(
        retained,
        topics.take(0),
        client_id,
        max_qos,
        now,
    ));
    assert(codes@ =~= return_codes(topics.take(0), max_qos));
    while i < packet.topics.len()
        invariant
            i <= packet.topics.len(),
            topics == packet.topics@,
            retained == global.retain_table@,
            session.wf(),
            global.wf(),
            global.config == old(global).config,
            global.clients == old(global).clients,
            global.retain_table == old(global).retain_table,
            max_qos == old(global).config.max_allowed_qos,
            now == old(session).last_packet_time,
            client_id == old(session).client_id,
            global.outbox == old(global).outbox,
            *session == (Session { subscribes: session.subscribes, ..*old(session) }),
            codes@ == return_codes(topics.take(i as int), max_qos),
            subscriptions(session.subscribes) == subscribed_map(
                subscriptions(old(session).subscribes),
                topics.take(i as int),
                max_qos,
            ),
            global.route_table@ == subscribed_routes(
                old(global).route_table@,
                topics.take(i as int),
                client_id,
                max_qos,
            ),
            found@ == retained_deliveries(
                retained,
                topics.take(i as int),
                client_id,
                max_qos,
                now,
            ),
        decreases packet.topics.len() - i,
    {
        let filter = &packet.topics[i].0;
        let qos = packet.topics[i].1;
        proof {
            assert(topics.take(i + 1).drop_last() =~= topics.take(i as int));
            assert(topics.take(i + 1).last() == topics[i as int]);
            assert(return_codes(topics.take(i + 1), max_qos) =~= return_codes(
                topics.take(i as int),
                max_qos,
            ).push(return_code(topics[i as int], max_qos)));
        }
        if filter.is_shared() {
            codes.push(SubscribeReturnCode::Failure);
        } else {
            let granted = qos.min(max_qos);
            let data = SubscriptionData {
                options: SubscriptionOptions {
                    max_qos: granted,
                    no_local: false,
                    retain_as_published: false,
                    retain_handling: RetainHandling::SendAtSubscribe,
                },
                id: None,
            };
            let _ = subscriptions_insert(&mut session.subscribes, filter.shared(), filter.clone(), data);
            let _ = global.route_table.subscribe(filter, client_id, data);
            codes.push(SubscribeReturnCode::from_qos(granted));
            let matches = global.retain_table.get_matches(filter, now);
            let ghost make = retained_delivery(client_id, *filter, granted);
            let ghost base = found@;
            let mut j: usize = 0;
            assert(found@ =~= base + matches@.take(0).map_values(make));
            while j < matches.len()
                invariant
                    j <= matches.len(),
                    make == retained_delivery(client_id, *filter, granted),
                    found@ == base + matches@.take(j as int).map_values(make),
                    global.wf(),
                    global.outbox == old(global).outbox,
                    global.config == old(global).config,
                    global.clients == old(global).clients,
                    global.retain_table == old(global).retain_table,
                    global.route_table@ == subscribed_routes(
                        old(global).route_table@,
                        topics.take(i + 1),
                        client_id,
                        max_qos,
                    ),
                decreases matches.len() - j,
            {
                let content = &matches[j];
                found.push(
                    Delivery {
                        sender: content.client_id,
                        receiver: client_id,
                        message: NormalMessage::PublishV3 {
                            topic_name: content.topic_name.clone(),
                            qos: content.qos,
                            retain: true,
                            payload: share(&content.payload),
                            subscribe_filter: filter.clone(),
                            subscribe_qos: granted,
                            encode_len: content.encode_len,
                        },
                    },
                );
                assert(matches@.take(j + 1).map_values(make) =~= matches@.take(j as int).map_values(
                    make,
                ).push(make(matches@[j as int])));
                j += 1;
            }
            assert(matches@.take(j as int) =~= matches@);
            assert(found@ =~= retained_deliveries(
                retained,
                topics.take(i + 1),
                client_id,
                max_qos,
                now,
            ));
        }
        i += 1;
    }
    assert(topics.take(i as int) =~= topics);
    assert(found@ =~= retained_deliveries(retained, topics, client_id, max_qos, now));
    let mut packets: Vec<Packet> = Vec::new();
    packets.push(Packet::Suback(Suback { pid: packet.pid, topics: codes }));
    let ghost suback = packets@[0];
    let ghost subscribed = *session;
    let ghost mut states: Seq<Session> = seq![subscribed];
    let ghost mut outs: Seq<Option<(QoS, Option<Packet>)>> = Seq::empty();
    let mut k: usize = 0;
    assert(packets@.subrange(1, packets@.len() as int) =~= written(outs));
    while k < found.len()
        invariant
            k <= found.len(),
            session.wf(),
            session.subscribes == subscribed.subscribes,
            packets@.len() >= 1,
            packets@[0] == suback,
            states.len() == k + 1,
            outs.len() == k,
            states[0] == subscribed,
            states[k as int] == *session,
            forall|i: int|
                0 <= i < k ==> publish_received(
                    states[i],
                    states[i + 1],
                    carried(found@[i].message),
                    #[trigger] outs[i],
                ),
            packets@.subrange(1, packets@.len() as int) == written(outs),
        decreases found.len() - k,
    {
        let ghost before = *session;
        let delivered = take_message(session, found[k].sender, &found[k].message);
        assert(publish_received(before, *session, carried(found@[k as int].message), delivered));
        proof {
            let ghost old_outs = outs;
            let ghost old_packets = packets@;
            states = states.push(*session);
            outs = outs.push(delivered);
            assert(outs.drop_last() =~= old_outs);
        }
        let ghost tail = packets@.subrange(1, packets@.len() as int);
        match delivered {
            Some((_, Some(p))) => {
                packets.push(p);
                assert(packets@.subrange(1, packets@.len() as int) =~= tail.push(p));
            },
            _ => {},
        }
        k += 1;
    }
    proof {
        assert(received_in_turn(subscribed, *session, found@, states, outs));
        assert(subscribed == (Session { subscribes: session.subscribes, ..*old(session) }));
    }
    Ok(packets)
}

/// Whether `s1` and `g1` are the session `s0` and the shared state `g0`
/// after the session handled the UNSUBSCRIBE `packet`: the session has
/// no subscription with any of the filters afterwards.
pub open spec fn unsubscribe_handled(
    s0: Session,
    s1: Session,
    g0: GlobalState,
    g1: GlobalState,
    packet: Unsubscribe,
) -> bool {
    &&& g1.config == g0.config
    &&& g1.clients == g0.clients
    &&& g1.retain_table == g0.retain_table
    &&& g1.outbox == g0.outbox
    &&& s1 == (Session { subscribes: s1.subscribes, ..s0 })
    &&& subscriptions(s1.subscribes) == subscriptions(s0.subscribes).remove_keys(
        filter_views(packet.topics@),
    )
    &&& g1.route_table@ == g0.route_table@.filter(not_among(s0.client_id, packet.topics@))
}

/// Handles an UNSUBSCRIBE: see [`unsubscribe_handled`]. UNSUBACK is the
/// answer.
pub fn handle_unsubscribe(session: &mut Session, packet: &Unsubscribe, global: &mut GlobalState) -> (answer:
    Packet)
    requires
        old(session).wf(),
        old(global).wf(),
    ensures
        final(session).wf(),
        final(global).wf(),
        answer == Packet::Unsuback(packet.pid),
        unsubscribe_handled(*old(session), *final(session), *old(global), *final(global), *packet),
{
    let ghost start = subscriptions(session.subscribes);
    let mut i: usize = 0;
    assert(start =~= start.remove_keys(filter_views(packet.topics@.take(0))));
    while i < packet.topics.len()
        invariant
            i <= packet.topics.len(),
            start == subscriptions(old(session).subscribes),
            *session == (Session { subscribes: session.subscribes, ..*old(session) }),
            subscriptions(session.subscribes) == start.remove_keys(
                filter_views(packet.topics@.take(i as int)),
            ),
        decreases packet.topics.len() - i,
    {
        let ghost before = subscriptions(session.subscribes);
        let _ = subscriptions_remove(&mut session.subscribes, &packet.topics[i].shared());
        proof {
            let done = filter_views(packet.topics@.take(i as int));
            let next = filter_views(packet.topics@.take(i + 1));
            let key = packet.topics@[i as int]@;
            assert forall|k: Seq<char>| next.contains(k) <==> (done.contains(k) || k == key) by {
                if next.contains(k) {
                    let m = choose|m: int|
                        0 <= m < packet.topics@.take(i + 1).len() && (
                        #[trigger] packet.topics@.take(i + 1)[m])@ == k;
                    if m < i {
                        assert(packet.topics@.take(i as int)[m]@ == k);
                    }
                }
                if done.contains(k) {
                    let m = choose|m: int|
                        0 <= m < packet.topics@.take(i as int).len() && (
                        #[trigger] packet.topics@.take(i as int)[m])@ == k;
                    assert(packet.topics@.take(i + 1)[m]@ == k);
                }
                if k == key {
                    assert(packet.topics@.take(i + 1)[i as int]@ == k);
                }
            }
            assert(before.remove(key) =~= start.remove_keys(next));
        }
        i += 1;
    }
    assert(packet.topics@.take(i as int) =~= packet.topics@);
    global.route_table.unsubscribe_all(session.client_id, &packet.topics);
    Packet::Unsuback(packet.pid)
}

} // verus!
