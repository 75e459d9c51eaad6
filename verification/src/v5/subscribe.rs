//! What a version 5.0 session does with SUBSCRIBE and UNSUBSCRIBE.

use vstd::prelude::*;
use crate::collections::subscriptions;
use crate::collections::subscriptions_insert;
use crate::collections::subscriptions_remove;
use crate::config::Config;
use crate::retain::matched_by;
use crate::retain::RetainContent;
use crate::route::not_among;
use crate::route::subscribed;
use crate::route::RouteEntry;
use crate::state::Delivery;
use crate::state::GlobalState;
use crate::state::NormalMessage;
use crate::topic::topic_filter_check;
use crate::topic::TopicFilter;
use crate::topic::MATCH_ALL;
use crate::topic::MATCH_ONE;
use crate::types::share;
use crate::types::ClientId;
use crate::types::QoS;
use crate::v3::subscribe::filter_views;
use crate::v5::message::normal_handled;
use crate::v5::message::take_message;
use crate::v5::packet::Disconnect;
use crate::v5::packet::Packet;
use crate::v5::packet::Suback;
use crate::v5::packet::Subscribe;
use crate::v5::packet::Unsuback;
use crate::v5::packet::Unsubscribe;
use crate::v5::session::Session;
use crate::v5::session::SubscriptionData;
use crate::v5::types::DisconnectReasonCode;
use crate::v5::types::RetainHandling;
use crate::v5::types::SubscribeReasonCode;
use crate::v5::types::SubscriptionOptions;
use crate::v5::types::UnsubscribeReasonCode;

verus! {

/// Whether a filter holds a wildcard.
pub open spec fn spec_has_wildcard(bytes: Seq<u8>) -> bool {
    exists|i: int| 0 <= i < bytes.len() && (#[trigger] bytes[i] == MATCH_ONE || bytes[i] == MATCH_ALL)
}

/// Whether a filter holds a wildcard.
pub fn has_wildcard(bytes: &[u8]) -> (found: bool)
    ensures
        found == spec_has_wildcard(bytes@),
{
    let mut i: usize = 0;
    while i < bytes.len()
        invariant
            i <= bytes.len(),
            forall|j: int| 0 <= j < i ==> !(#[trigger] bytes@[j] == MATCH_ONE || bytes@[j] == MATCH_ALL),
        decreases bytes.len() - i,
    {
        if bytes[i] == MATCH_ONE || bytes[i] == MATCH_ALL {
            return true;
        }
        i += 1;
    }
    false
}

/// Why the connection is closed over a SUBSCRIBE, if it is: the packet
/// has no filter; it gives a subscription identifier and the broker
/// takes none; or the identifier is 0.
pub open spec fn subscribe_refusal(packet: Subscribe, config: Config) -> Option<DisconnectReasonCode> {
    if packet.topics@.len() == 0 {
        Some(DisconnectReasonCode::ProtocolError)
    } else if packet.subscription_id is Some && !config.subscription_id_available {
        Some(DisconnectReasonCode::SubscriptionIdentifiersNotSupported)
    } else if packet.subscription_id == Some(0u32) {
        Some(DisconnectReasonCode::ProtocolError)
    } else {
        None
    }
}

/// Why a subscription with this filter is refused, if it is: the filter
/// is a shared one, or holds a wildcard, and the broker does not offer
/// that.
pub open spec fn filter_refusal(filter: TopicFilter, config: Config) -> Option<SubscribeReasonCode> {
    if topic_filter_check(filter@).1 > 0 && !config.shared_subscription_available {
        Some(SubscribeReasonCode::SharedSubscriptionNotSupported)
    } else if spec_has_wildcard(filter.bytes()) && !config.wildcard_subscription_available {
        Some(SubscribeReasonCode::WildcardSubscriptionsNotSupported)
    } else {
        None
    }
}

/// The reason code that grants a quality of service.
pub open spec fn granted_code(qos: QoS) -> SubscribeReasonCode {
    match qos {
        QoS::Level0 => SubscribeReasonCode::GrantedQoS0,
        QoS::Level1 => SubscribeReasonCode::GrantedQoS1,
        QoS::Level2 => SubscribeReasonCode::GrantedQoS2,
    }
}

/// The quality of service that a subscription is granted: the lower of
/// the one asked for and the highest that the broker grants.
pub open spec fn granted_qos(options: SubscriptionOptions, config: Config) -> QoS {
    options.max_qos.spec_min(config.max_allowed_qos)
}

/// What a session keeps of a subscription that was made with `options`.
pub open spec fn granted_data(options: SubscriptionOptions, id: Option<u32>, config: Config) -> SubscriptionData {
    SubscriptionData {
        options: SubscriptionOptions { max_qos: granted_qos(options, config), ..options },
        id,
    }
}

/// The reason code for one filter of a SUBSCRIBE.
pub open spec fn reason_code(topic: (TopicFilter, SubscriptionOptions), config: Config) -> SubscribeReasonCode {
    match filter_refusal(topic.0, config) {
        Some(code) => code,
        None => granted_code(granted_qos(topic.1, config)),
    }
}

/// The reason codes for the filters of a SUBSCRIBE, in their order.
pub open spec fn reason_codes(topics: Seq<(TopicFilter, SubscriptionOptions)>, config: Config) -> Seq<
    SubscribeReasonCode,
> {
    topics.map_values(|t: (TopicFilter, SubscriptionOptions)| reason_code(t, config))
}

/// The subscriptions of a session after it subscribed with `topics`, one
/// after the other.
pub open spec fn subscribed_map(
    m: Map<Seq<char>, (TopicFilter, SubscriptionData)>,
    topics: Seq<(TopicFilter, SubscriptionOptions)>,
    id: Option<u32>,
    config: Config,
) -> Map<Seq<char>, (TopicFilter, SubscriptionData)>
    decreases topics.len(),
{
    if topics.len() == 0 {
        m
    } else {
        let before = subscribed_map(m, topics.drop_last(), id, config);
        let topic = topics.last();
        if filter_refusal(topic.0, config) is Some {
            before
        } else {
            before.insert(topic.0@, (topic.0, granted_data(topic.1, id, config)))
        }
    }
}

/// The subscriptions of all clients after `client_id` subscribed with
/// `topics`, one after the other.
pub open spec fn subscribed_routes(
    s: Seq<RouteEntry>,
    topics: Seq<(TopicFilter, SubscriptionOptions)>,
    client_id: ClientId,
    id: Option<u32>,
    config: Config,
) -> Seq<RouteEntry>
    decreases topics.len(),
{
    if topics.len() == 0 {
        s
    } else {
        let before = subscribed_routes(s, topics.drop_last(), client_id, id, config);
        let topic = topics.last();
        if filter_refusal(topic.0, config) is Some {
            before
        } else {
            subscribed(
                before,
                RouteEntry { filter: topic.0, client_id, data: granted_data(topic.1, id, config) },
            )
        }
    }
}

/// Whether retained messages are sent for a subscription: always, only
/// if the session did not have the subscription, or never.
pub open spec fn sends_retained(handling: RetainHandling, existed: bool) -> bool {
    match handling {
        RetainHandling::SendAtSubscribe => true,
        RetainHandling::SendAtSubscribeIfNotExist => !existed,
        RetainHandling::DoNotSend => false,
    }
}

/// The delivery of a retained message to a client that subscribed with
/// `filter` and was granted `qos`. It keeps its retain flag, and it
/// comes as the message of the protocol version that it was published
/// with.
pub open spec fn retained_delivery(receiver: ClientId, filter: TopicFilter, qos: QoS) -> spec_fn(
    RetainContent,
) -> Delivery {
    |c: RetainContent|
        Delivery {
            sender: c.client_id,
            receiver,
            message: match c.properties {
                Some(properties) => NormalMessage::PublishV5 {
                    topic_name: c.topic_name,
                    qos: c.qos,
                    retain: true,
                    payload: c.payload,
                    subscribe_filter: filter,
                    subscribe_qos: qos,
                    properties,
                    encode_len: c.encode_len,
                    expiry: c.expiry,
                },
                None => NormalMessage::PublishV3 {
                    topic_name: c.topic_name,
                    qos: c.qos,
                    retain: true,
                    payload: c.payload,
                    subscribe_filter: filter,
                    subscribe_qos: qos,
                    encode_len: c.encode_len,
                },
            },
        }
}

/// The deliveries of retained messages that subscribing with `topics`
/// causes: for each filter that is not refused and whose retain handling
/// permits it, in the order of the filters, one for every retained
/// message that the filter matches and that has not expired at `now`, in
/// the order of the table.
pub open spec fn retained_deliveries(
    m: Map<Seq<char>, (TopicFilter, SubscriptionData)>,
    retained: Seq<RetainContent>,
    topics: Seq<(TopicFilter, SubscriptionOptions)>,
    receiver: ClientId,
    id: Option<u32>,
    config: Config,
    now: u64,
) -> Seq<Delivery>
    decreases topics.len(),
{
    if topics.len() == 0 {
        Seq::<Delivery>::empty()
    } else {
        let before = retained_deliveries(m, retained, topics.drop_last(), receiver, id, config, now);
        let had = subscribed_map(m, topics.drop_last(), id, config);
        let topic = topics.last();
        if filter_refusal(topic.0, config) is None && sends_retained(
            topic.1.retain_handling,
            had.contains_key(topic.0@),
        ) {
            before + retained.filter(matched_by(topic.0, now)).map_values(
                retained_delivery(receiver, topic.0, granted_qos(topic.1, config)),
            )
        } else {
            before
        }
    }
}

/// The packets that a sequence of deliveries gave to write, in their
/// order: one for each delivery that gave one.
pub open spec fn written(outs: Seq<Option<(QoS, Option<Packet>)>>) -> Seq<Packet>
    decreases outs.len(),
{
    if outs.len() == 0 {
        Seq::<Packet>::empty()
    } else {
        match outs.last() {
            Some((_, Some(packet))) => written(outs.drop_last()).push(packet),
            _ => written(outs.drop_last()),
        }
    }
}

/// Whether `states` and `outs` show how the session `s0` took the
/// messages of `deliveries` one after the other and became `s1`:
/// `states` holds the session before and after each, `outs` what each
/// gave, as [`normal_handled`] says.
pub open spec fn received_in_turn(
    s0: Session,
    s1: Session,
    deliveries: Seq<Delivery>,
    states: Seq<Session>,
    outs: Seq<Option<(QoS, Option<Packet>)>>,
) -> bool {
    &&& states.len() == deliveries.len() + 1
    &&& outs.len() == deliveries.len()
    &&& states[0] == s0
    &&& states[deliveries.len() as int] == s1
    &&& forall|i: int|
        0 <= i < deliveries.len() ==> normal_handled(
            states[i],
            states[i + 1],
            deliveries[i].sender,
            deliveries[i].message,
            #[trigger] outs[i],
        )
}

/// Whether `s1` is the session `s0` after it took the messages of
/// `deliveries` one after the other, and `packets` is what that gave to
/// write.
pub open spec fn all_received(s0: Session, s1: Session, deliveries: Seq<Delivery>, packets: Seq<Packet>) -> bool {
    exists|states: Seq<Session>, outs: Seq<Option<(QoS, Option<Packet>)>>|
        #[trigger] received_in_turn(s0, s1, deliveries, states, outs) && packets == written(outs)
}

/// Whether `s1` and `g1` are the session `s0` and the shared state `g0`
/// after the session handled the SUBSCRIBE `packet` with the result
/// `answer`. Over a SUBSCRIBE that is refused the connection is closed:
/// the result is the DISCONNECT with the reason, the session counts as
/// disconnected by the server, and nothing else changes.
/// Otherwise every filter that is not refused becomes a subscription of
/// the session, in place of one with the same filter. Then, where the
/// retain handling of a filter permits, the session takes every retained
/// message that the filter matches, as it takes any message that
/// reaches it, with the retain flag set. The answer is the SUBACK with
/// one reason code per filter, and behind it what taking the retained
/// messages gave to write.
pub open spec fn subscribe_handled(
    s0: Session,
    s1: Session,
    g0: GlobalState,
    g1: GlobalState,
    packet: Subscribe,
    answer: Result<Vec<Packet>, Packet>,
) -> bool {
    &&& g1.config == g0.config
    &&& g1.clients == g0.clients
    &&& g1.retain_table == g0.retain_table
    &&& g1.outbox == g0.outbox
    &&& answer is Err <==> subscribe_refusal(packet, g0.config) is Some
    &&& answer matches Err(close) ==> {
        &&& close == Packet::Disconnect(
            Disconnect {
                reason_code: subscribe_refusal(packet, g0.config)->0,
                session_expiry_interval: None,
            },
        )
        &&& s1 == (Session { server_disconnected: true, ..s0 })
        &&& g1.route_table == g0.route_table
    }
    &&& answer matches Ok(packets) ==> {
        &&& packets@.len() >= 1
        &&& packets@[0] matches Packet::Suback(suback) && suback.pid == packet.pid
            && suback.topics@ == reason_codes(packet.topics@, g0.config)
        &&& subscriptions(s1.subscribes) == subscribed_map(
            subscriptions(s0.subscribes),
            packet.topics@,
            packet.subscription_id,
            g0.config,
        )
        &&& g1.route_table@ == subscribed_routes(
            g0.route_table@,
            packet.topics@,
            s0.client_id,
            packet.subscription_id,
            g0.config,
        )
        &&& all_received(
            (Session { subscribes: s1.subscribes, ..s0 }),
            s1,
            retained_deliveries(
                subscriptions(s0.subscribes),
                g0.retain_table@,
                packet.topics@,
                s0.client_id,
                packet.subscription_id,
                g0.config,
                s0.last_packet_time,
            ),
            packets@.subrange(1, packets@.len() as int),
        )
    }
}

/// Puts the deliveries of the retained messages that `filter` matches
/// behind those that were found already.
fn find_retained(
    client_id: ClientId,
    filter: &TopicFilter,
    granted: QoS,
    now: u64,
    global: &GlobalState,
    found: &mut Vec<Delivery>,
)
    requires
        global.wf(),
    ensures
        final(found)@ == old(found)@ + global.retain_table@.filter(matched_by(*filter, now)).map_values(
            retained_delivery(client_id, *filter, granted),
        ),
{
    let matches = global.retain_table.get_matches(filter, now);
    let ghost make = retained_delivery(client_id, *filter, granted);
    let ghost base = found@;
    let mut j: usize = 0;
    assert(found@ =~= base + matches@.take(0).map_values(make));
    while j < matches.len()
        invariant
            j <= matches.len(),
            make == retained_delivery(client_id, *filter, granted),
            found@ == base + matches@.take(j as int).map_values(make),
        decreases matches.len() - j,
    {
        let content = &matches[j];
        let message = match &content.properties {
            Some(properties) => NormalMessage::PublishV5 {
                topic_name: content.topic_name.clone(),
                qos: content.qos,
                retain: true,
                payload: share(&content.payload),
                subscribe_filter: filter.clone(),
                subscribe_qos: granted,
                properties: properties.clone(),
                encode_len: content.encode_len,
                expiry: content.expiry,
            },
            None => NormalMessage::PublishV3 {
                topic_name: content.topic_name.clone(),
                qos: content.qos,
                retain: true,
                payload: share(&content.payload),
                subscribe_filter: filter.clone(),
                subscribe_qos: granted,
                encode_len: content.encode_len,
            },
        };
        found.push(Delivery { sender: content.client_id, receiver: client_id, message });
        assert(matches@.take(j + 1).map_values(make) =~= matches@.take(j as int).map_values(make).push(
            make(matches@[j as int]),
        ));
        j += 1;
    }
    assert(matches@.take(j as int) =~= matches@);
}

/// The reason code for one filter of a SUBSCRIBE.
fn refuse_filter(filter: &TopicFilter, config: &Config) -> (code: Option<SubscribeReasonCode>)
    ensures
        code == filter_refusal(*filter, *config),
{
    if filter.is_shared() && !config.shared_subscription_available {
        Some(SubscribeReasonCode::SharedSubscriptionNotSupported)
    } else if !config.wildcard_subscription_available && has_wildcard(filter.as_bytes()) {
        Some(SubscribeReasonCode::WildcardSubscriptionsNotSupported)
    } else {
        None
    }
}

/// Handles a SUBSCRIBE: see [`subscribe_handled`].
pub fn handle_subscribe(session: &mut Session, packet: &Subscribe, global: &mut GlobalState) -> (answer:
    Result<Vec<Packet>, Packet>)
    requires
        old(session).wf(),
        old(global).wf(),
    ensures
        final(session).wf(),
        final(global).wf(),
        subscribe_handled(*old(session), *final(session), *old(global), *final(global), *packet, answer),
{
    if packet.topics.len() == 0 {
        session.server_disconnected = true;
        return Err(Packet::Disconnect(Disconnect::new(DisconnectReasonCode::ProtocolError)));
    }
    match packet.subscription_id {
        Some(id) => {
            if !global.config.subscription_id_available {
                session.server_disconnected = true;
                return Err(
                    Packet::Disconnect(
                        Disconnect::new(DisconnectReasonCode::SubscriptionIdentifiersNotSupported),
                    ),
                );
            }
            if id == 0 {
                session.server_disconnected = true;
                return Err(Packet::Disconnect(Disconnect::new(DisconnectReasonCode::ProtocolError)));
            }
        },
        None => {},
    }
    let config = global.config;
    let id = packet.subscription_id;
    let now = session.last_packet_time;
    let client_id = session.client_id;
    let ghost topics = packet.topics@;
    let ghost retained = global.retain_table@;
    let mut found: Vec<Delivery> = Vec::new();
    let ghost m = subscriptions(session.subscribes);
    let mut codes: Vec<SubscribeReasonCode> = Vec::new();
    let mut i: usize = 0;
    assert(topics.take(0) =~= Seq::<(TopicFilter, SubscriptionOptions)>::empty());
    assert(found@ =~= retained_deliveries(
        m,
        retained,
        topics.take(0),
        client_id,
        id,
        config,
        now,
    ));
    assert(codes@ =~= reason_codes(topics.take(0), config));
    while i < packet.topics.len()
        invariant
            i <= packet.topics.len(),
            topics == packet.topics@,
            retained == global.retain_table@,
            session.wf(),
            global.wf(),
            global.config == old(global).config,
            global.clients == old(global).clients,
            global.retain_table == old(global).retain_table,
            config == old(global).config,
            id == packet.subscription_id,
            now == old(session).last_packet_time,
            client_id == old(session).client_id,
            global.outbox == old(global).outbox,
            m == subscriptions(old(session).subscribes),
            *session == (Session { subscribes: session.subscribes, ..*old(session) }),
            codes@ == reason_codes(topics.take(i as int), config),
            subscriptions(session.subscribes) == subscribed_map(m, topics.take(i as int), id, config),
            global.route_table@ == subscribed_routes(
                old(global).route_table@,
                topics.take(i as int),
                client_id,
                id,
                config,
            ),
            found@ == retained_deliveries(
                m,
                retained,
                topics.take(i as int),
                client_id,
                id,
                config,
                now,
            ),
        decreases packet.topics.len() - i,
    {
        let filter = &packet.topics[i].0;
        let options = packet.topics[i].1;
        proof {
            assert(topics.take(i + 1).drop_last() =~= topics.take(i as int));
            assert(topics.take(i + 1).last() == topics[i as int]);
            assert(reason_codes(topics.take(i + 1), config) =~= reason_codes(
                topics.take(i as int),
                config,
            ).push(reason_code(topics[i as int], config)));
        }
        match refuse_filter(filter, &config) {
            Some(code) => {
                codes.push(code);
            },
            None => {
                let granted = options.max_qos.min(config.max_allowed_qos);
                let data = SubscriptionData {
                    options: SubscriptionOptions {
                        max_qos: granted,
                        no_local: options.no_local,
                        retain_as_published: options.retain_as_published,
                        retain_handling: options.retain_handling,
                    },
                    id,
                };
                let existed = subscriptions_insert(
                    &mut session.subscribes,
                    filter.shared(),
                    filter.clone(),
                    data,
                );
                let _ = global.route_table.subscribe(filter, client_id, data);
                codes.push(
                    match granted {
                        QoS::Level0 => SubscribeReasonCode::GrantedQoS0,
                        QoS::Level1 => SubscribeReasonCode::GrantedQoS1,
                        QoS::Level2 => SubscribeReasonCode::GrantedQoS2,
                    },
                );
                let send = match options.retain_handling {
                    RetainHandling::SendAtSubscribe => true,
                    RetainHandling::SendAtSubscribeIfNotExist => !existed,
                    RetainHandling::DoNotSend => false,
                };
                if send {
                    find_retained(client_id, filter, granted, now, global, &mut found);
                }
            },
        }
        proof {
            assert(found@ =~= retained_deliveries(
                m,
                retained,
                topics.take(i + 1),
                client_id,
                id,
                config,
                now,
            ));
        }
        i += 1;
    }
    assert(topics.take(i as int) =~= topics);
    assert(found@ =~= retained_deliveries(m, retained, topics, client_id, id, config, now));
    let mut packets: Vec<Packet> = Vec::new();
    packets.push(Packet::Suback(Suback { pid: packet.pid, topics: codes }));
    let ghost suback = packets@[0];
    let ghost subscribed = *session;
    let ghost mut states: Seq<Session> = seq![subscribed];
    let ghost mut outs: Seq<Option<(QoS, Option<Packet>)>> = Seq::empty();
    let mut k: usize = 0;
    assert(packets@.subrange(1, packets@.len() as int) =~= written(outs));
    while k < found.len()
        invariant
            k <= found.len(),
            session.wf(),
            session.subscribes == subscribed.subscribes,
            packets@.len() >= 1,
            packets@[0] == suback,
            states.len() == k + 1,
            outs.len() == k,
            states[0] == subscribed,
            states[k as int] == *session,
            forall|i: int|
                0 <= i < k ==> normal_handled(
                    states[i],
                    states[i + 1],
                    found@[i].sender,
                    found@[i].message,
                    #[trigger] outs[i],
                ),
            packets@.subrange(1, packets@.len() as int) == written(outs),
        decreases found.len() - k,
    {
        let ghost before = *session;
        let delivered = take_message(session, found[k].sender, &found[k].message);
        assert(normal_handled(before, *session, found@[k as int].sender, found@[k as int].message, delivered));
        assert(session.subscribes == before.subscribes) by {
            lemma_keeps_subscriptions(
                before,
                *session,
                found@[k as int].sender,
                found@[k as int].message,
                delivered,
            );
        }
        proof {
            let ghost old_outs = outs;
            states = states.push(*session);
            outs = outs.push(delivered);
            assert(outs.drop_last() =~= old_outs);
        }
        let ghost tail = packets@.subrange(1, packets@.len() as int);
        match delivered {
            Some((_, Some(p))) => {
                packets.push(p);
                assert(packets@.subrange(1, packets@.len() as int) =~= tail.push(p));
            },
            _ => {},
        }
        k += 1;
    }
    proof {
        assert(received_in_turn(subscribed, *session, found@, states, outs));
        assert(subscribed == (Session { subscribes: session.subscribes, ..*old(session) }));
    }
    Ok(packets)
}

/// Taking a message changes no subscription of the session.
pub proof fn lemma_keeps_subscriptions(
    s0: Session,
    s1: Session,
    sender: ClientId,
    msg: NormalMessage,
    delivered: Option<(QoS, Option<Packet>)>,
)
    requires
        normal_handled(s0, s1, sender, msg, delivered),
    ensures
        s1.subscribes == s0.subscribes,
{
}

/// The reason code for one filter of an UNSUBSCRIBE.
pub open spec fn unsubscribe_code(existed: bool) -> UnsubscribeReasonCode {
    if existed {
        UnsubscribeReasonCode::Success
    } else {
        UnsubscribeReasonCode::NoSubscriptionExisted
    }
}

/// The reason codes for the filters of an UNSUBSCRIBE, in their order:
/// each says whether the session had a subscription with the filter
/// when its turn came.
pub open spec fn unsubscribe_codes(
    m: Map<Seq<char>, (TopicFilter, SubscriptionData)>,
    filters: Seq<TopicFilter>,
) -> Seq<UnsubscribeReasonCode>
    decreases filters.len(),
{
    if filters.len() == 0 {
        Seq::<UnsubscribeReasonCode>::empty()
    } else {
        unsubscribe_codes(m, filters.drop_last()).push(
            unsubscribe_code(
                m.remove_keys(filter_views(filters.drop_last())).contains_key(filters.last()@),
            ),
        )
    }
}

/// Whether `s1` and `g1` are the session `s0` and the shared state `g0`
/// after the session handled the UNSUBSCRIBE `packet` with the answer
/// `answer`: the session has no subscription with any of the filters
/// afterwards, and the UNSUBACK says for each filter whether there was
/// one.
pub open spec fn unsubscribe_handled(
    s0: Session,
    s1: Session,
    g0: GlobalState,
    g1: GlobalState,
    packet: Unsubscribe,
    answer: Packet,
) -> bool {
    &&& g1.config == g0.config
    &&& g1.clients == g0.clients
    &&& g1.retain_table == g0.retain_table
    &&& g1.outbox == g0.outbox
    &&& s1 == (Session { subscribes: s1.subscribes, ..s0 })
    &&& subscriptions(s1.subscribes) == subscriptions(s0.subscribes).remove_keys(
        filter_views(packet.topics@),
    )
    &&& g1.route_table@ == g0.route_table@.filter(not_among(s0.client_id, packet.topics@))
    &&& answer matches Packet::Unsuback(unsuback) && unsuback.pid == packet.pid && unsuback.topics@
        == unsubscribe_codes(subscriptions(s0.subscribes), packet.topics@)
}

/// Handles an UNSUBSCRIBE: see [`unsubscribe_handled`].
pub fn handle_unsubscribe(session: &mut Session, packet: &Unsubscribe, global: &mut GlobalState) -> (answer:
    Packet)
    requires
        old(session).wf(),
        old(global).wf(),
    ensures
        final(session).wf(),
        final(global).wf(),
        unsubscribe_handled(*old(session), *final(session), *old(global), *final(global), *packet, answer),
{
    let ghost start = subscriptions(session.subscribes);
    let mut codes: Vec<UnsubscribeReasonCode> = Vec::new();
    let mut i: usize = 0;
    assert(start =~= start.remove_keys(filter_views(packet.topics@.take(0))));
    while i < packet.topics.len()
        invariant
            i <= packet.topics.len(),
            start == subscriptions(old(session).subscribes),
            *session == (Session { subscribes: session.subscribes, ..*old(session) }),
            subscriptions(session.subscribes) == start.remove_keys(
                filter_views(packet.topics@.take(i as int)),
            ),
            codes@ == unsubscribe_codes(start, packet.topics@.take(i as int)),
        decreases packet.topics.len() - i,
    {
        let ghost before = subscriptions(session.subscribes);
        let existed = subscriptions_remove(&mut session.subscribes, &packet.topics[i].shared());
        codes.push(
            if existed {
                UnsubscribeReasonCode::Success
            } else {
                UnsubscribeReasonCode::NoSubscriptionExisted
            },
        );
        proof {
            let done = filter_views(packet.topics@.take(i as int));
            let next = filter_views(packet.topics@.take(i + 1));
            let key = packet.topics@[i as int]@;
            assert(packet.topics@.take(i + 1).drop_last() =~= packet.topics@.take(i as int));
            assert(packet.topics@.take(i + 1).last() == packet.topics@[i as int]);
            assert forall|k: Seq<char>| next.contains(k) <==> (done.contains(k) || k == key) by {
                if next.contains(k) {
                    let m = choose|m: int|
                        0 <= m < packet.topics@.take(i + 1).len() && (
                        #[trigger] packet.topics@.take(i + 1)[m])@ == k;
                    if m < i {
                        assert(packet.topics@.take(i as int)[m]@ == k);
                    }
                }
                if done.contains(k) {
                    let m = choose|m: int|
                        0 <= m < packet.topics@.take(i as int).len() && (
                        #[trigger] packet.topics@.take(i as int)[m])@ == k;
                    assert(packet.topics@.take(i + 1)[m]@ == k);
                }
                if k == key {
                    assert(packet.topics@.take(i + 1)[i as int]@ == k);
                }
            }
            assert(before.remove(key) =~= start.remove_keys(next));
        }
        i += 1;
    }
    assert(packet.topics@.take(i as int) =~= packet.topics@);
    global.route_table.unsubscribe_all(session.client_id, &packet.topics);
    Packet::Unsuback(Unsuback { pid: packet.pid, topics: codes })
}

} // verus!
