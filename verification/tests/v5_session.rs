use std::collections::VecDeque;
use std::sync::Arc;

use akasa_core::config::Config;
use akasa_core::online::OnlineSession;
use akasa_core::online::WritePacket;
use akasa_core::pending::AckOutcome;
use akasa_core::state::AddClientReceipt;
use akasa_core::state::ClientReceiver;
use akasa_core::state::ControlMessage;
use akasa_core::state::Delivery;
use akasa_core::state::GlobalState;
use akasa_core::state::NormalMessage;
use akasa_core::topic::TopicFilter;
use akasa_core::topic::TopicName;
use akasa_core::types::ErrorKind;
use akasa_core::types::IpAddr;
use akasa_core::types::PeerAddr;
use akasa_core::types::Pid;
use akasa_core::types::Protocol;
use akasa_core::types::QoS;
use akasa_core::types::QosPid;
use akasa_core::v5::message::finish_online;
use akasa_core::v5::message::handle_control;
use akasa_core::v5::message::handle_disconnect;
use akasa_core::v5::message::handle_normal;
use akasa_core::v5::message::handle_will;
use akasa_core::v5::message::PacketHook;
use akasa_core::v5::packet::Disconnect;
use akasa_core::v5::packet::LastWill;
use akasa_core::v5::packet::Packet;
use akasa_core::v5::packet::Puback;
use akasa_core::v5::packet::Pubcomp;
use akasa_core::v5::packet::Publish;
use akasa_core::v5::packet::Pubrec;
use akasa_core::v5::packet::Pubrel;
use akasa_core::v5::packet::Subscribe;
use akasa_core::v5::packet::Unsubscribe;
use akasa_core::v5::packet::WillProperties;
use akasa_core::v5::publish::deadline;
use akasa_core::v5::publish::handle_puback;
use akasa_core::v5::publish::handle_pubcomp;
use akasa_core::v5::publish::handle_publish;
use akasa_core::v5::publish::handle_pubrec;
use akasa_core::v5::publish::handle_pubrel;
use akasa_core::v5::publish::resolve_topic;
use akasa_core::v5::session::ScramStage;
use akasa_core::v5::session::Session;
use akasa_core::v5::session::SubscriptionData;
use akasa_core::v5::session::TracedRng;
use akasa_core::v5::subscribe::handle_subscribe;
use akasa_core::v5::subscribe::handle_unsubscribe;
use akasa_core::v5::subscribe::has_wildcard;
use akasa_core::v5::types::DisconnectReasonCode;
use akasa_core::v5::types::PubackReasonCode;
use akasa_core::v5::types::PubcompReasonCode;
use akasa_core::v5::types::PublishProperties;
use akasa_core::v5::types::PubrecReasonCode;
use akasa_core::v5::types::PubrelReasonCode;
use akasa_core::v5::types::RetainHandling;
use akasa_core::v5::types::SubscribeReasonCode;
use akasa_core::v5::types::SubscriptionOptions;
use akasa_core::v5::types::UnsubscribeReasonCode;

fn name(s: &str) -> TopicName {
    TopicName::try_from(s.to_string()).unwrap()
}

fn filter(s: &str) -> TopicFilter {
    TopicFilter::try_from(s.to_string()).unwrap()
}

fn pid(n: u16) -> Pid {
    Pid::try_from(n).unwrap()
}

fn peer() -> PeerAddr {
    PeerAddr { ip: IpAddr::V6(1), port: 8883 }
}

fn connected(global: &mut GlobalState, id: &str) -> Session {
    let mut session = Session::new(&global.config, peer(), 1000);
    match global.add_client(&Arc::new(id.to_string()), Protocol::V500) {
        AddClientReceipt::New { client_id } => session.client_id = client_id,
        AddClientReceipt::Present { client_id, .. } => session.client_id = client_id,
        AddClientReceipt::Rejected => panic!("rejected"),
    }
    session.client_identifier = Arc::new(id.to_string());
    session.connected = true;
    session.connected_time = Some(1000);
    session
}

fn publish(topic: &str, payload: &[u8], qos_pid: QosPid) -> Publish {
    Publish {
        dup: false,
        retain: false,
        qos_pid,
        topic_name: name(topic),
        payload: Arc::new(payload.to_vec()),
        properties: PublishProperties::default(),
    }
}

fn with_alias(mut packet: Publish, alias: u16) -> Publish {
    packet.properties.topic_alias = Some(alias);
    packet
}

fn subscribe_with(
    session: &mut Session,
    global: &mut GlobalState,
    f: &str,
    options: SubscriptionOptions,
    id: Option<u32>,
) -> Vec<SubscribeReasonCode> {
    let packet = Subscribe { pid: pid(1), subscription_id: id, topics: vec![(filter(f), options)] };
    match handle_subscribe(session, &packet, global) {
        Ok(packets) => match &packets[0] {
            Packet::Suback(suback) => suback.topics.clone(),
            _ => panic!("no suback"),
        },
        Err(_) => panic!("refused"),
    }
}

fn subscribe(session: &mut Session, global: &mut GlobalState, f: &str, qos: QoS) {
    subscribe_with(session, global, f, SubscriptionOptions::new(qos), None);
}

fn deliver(global: &mut GlobalState, session: &mut Session) -> Vec<Option<(QoS, Option<Packet>)>> {
    let mut results = Vec::new();
    for Delivery { sender, receiver, message } in global.take_outbox() {
        if receiver == session.client_id {
            results.push(handle_normal(session, sender, message));
        }
    }
    results
}

fn publish_of(packet: &Packet) -> &Publish {
    match packet {
        Packet::Publish(p) => p,
        _ => panic!("no publish"),
    }
}

fn disconnect_code(packet: &Packet) -> DisconnectReasonCode {
    match packet {
        Packet::Disconnect(d) => d.reason_code,
        _ => panic!("no disconnect"),
    }
}

#[test]
fn new_v5_session_follows_the_config() {
    let mut config = Config::default();
    config.max_inflight_client = 7;
    config.max_packet_size_client = 4096;
    let session = Session::new(&config, peer(), 5);
    assert_eq!(session.peer(), peer());
    assert_eq!(session.client_id(), u64::MAX);
    assert_eq!(session.client_identifier().as_str(), "");
    assert!(!session.assigned_client_id());
    assert!(session.username().is_none());
    assert_eq!(session.keep_alive(), 0);
    assert!(session.clean_start());
    assert!(session.last_will().is_none());
    assert_eq!(session.subscribes().len(), 0);
    assert!(session.topic_aliases().get(1).is_none());
    assert_eq!(session.session_expiry_interval(), 0);
    assert_eq!(session.receive_max(), 7);
    assert_eq!(session.max_packet_size(), 4096);
    assert_eq!(session.connected_time(), None);
    assert_eq!(session.last_packet_time(), 5);
    assert_eq!(session.protocol, Protocol::V500);
    assert_eq!(session.scram_stage, ScramStage::Init);
    assert_eq!(session.pending_packets.max_inflight(), 7);
    assert!(!session.disconnected());
    assert!(session.request_problem_info);
    assert!(!session.request_response_info);
    assert_eq!(session.broadcast_packets_max(), 10);
    assert_eq!(session.broadcast_packets_cnt(), 0);
}

#[test]
fn topic_alias() {
    // publish (topic "t/one", alias 1), then (topic "", alias 1): routed as "t/one"
    let mut global = GlobalState::new(Config::default());
    let mut publisher = connected(&mut global, "pub");
    let mut sub = connected(&mut global, "sub");
    subscribe(&mut sub, &mut global, "t/one", QoS::Level0);
    let first = handle_publish(&mut publisher, with_alias(publish("t/one", &[1], QosPid::Level0), 1), 10, &mut global);
    assert!(matches!(first, Ok(None)));
    assert_eq!(publisher.topic_aliases().get(1).unwrap().as_str(), "t/one");
    let second = handle_publish(&mut publisher, with_alias(publish("", &[2], QosPid::Level0), 1), 10, &mut global);
    assert!(matches!(second, Ok(None)));
    assert_eq!(global.outbox.len(), 2);
    let results = deliver(&mut global, &mut sub);
    assert_eq!(results.len(), 2);
    for (n, delivered) in results.iter().enumerate() {
        let p = publish_of(delivered.as_ref().unwrap().1.as_ref().unwrap());
        assert_eq!(p.topic_name.as_str(), "t/one");
        assert_eq!(*p.payload, vec![n as u8 + 1]);
        assert_eq!(p.properties.topic_alias, None);
    }
}

#[test]
fn topic_alias_can_be_remapped_with_a_topic_name() {
    let mut global = GlobalState::new(Config::default());
    let mut publisher = connected(&mut global, "pub");
    handle_publish(&mut publisher, with_alias(publish("a", &[1], QosPid::Level0), 3), 10, &mut global).unwrap();
    handle_publish(&mut publisher, with_alias(publish("b", &[1], QosPid::Level0), 3), 10, &mut global).unwrap();
    assert_eq!(publisher.topic_aliases().get(3).unwrap().as_str(), "b");
    assert_eq!(
        resolve_topic(&publisher, &name(""), Some(3), 10).ok().unwrap().as_str(),
        "b"
    );
    assert_eq!(resolve_topic(&publisher, &name("c"), None, 10).ok().unwrap().as_str(), "c");
}

#[test]
fn topic_alias_zero_and_above_maximum_are_rejected() {
    let mut config = Config::default();
    config.topic_alias_max = 5;
    let mut global = GlobalState::new(config);
    let mut session = connected(&mut global, "pub");
    for alias in [0u16, 6, 65535] {
        let answer = handle_publish(&mut session, with_alias(publish("t", &[1], QosPid::Level1(pid(1))), alias), 10, &mut global);
        assert_eq!(disconnect_code(&answer.err().unwrap()), DisconnectReasonCode::TopicAliasInvalid);
        assert!(session.server_disconnected);
        session.server_disconnected = false;
        assert!(session.topic_aliases().get(alias).is_none());
    }
    assert!(global.outbox.is_empty());
    assert!(handle_publish(&mut session, with_alias(publish("t", &[1], QosPid::Level0), 5), 10, &mut global).is_ok());
    // an alias that stands for nothing, and no topic at all
    let unknown = handle_publish(&mut session, with_alias(publish("", &[1], QosPid::Level0), 4), 10, &mut global);
    assert_eq!(disconnect_code(&unknown.err().unwrap()), DisconnectReasonCode::ProtocolError);
    let none = handle_publish(&mut session, publish("", &[1], QosPid::Level0), 10, &mut global);
    assert_eq!(disconnect_code(&none.err().unwrap()), DisconnectReasonCode::ProtocolError);
    assert_eq!(resolve_topic(&session, &name("x"), Some(0), 5).err(), Some(DisconnectReasonCode::TopicAliasInvalid));
    assert_eq!(resolve_topic(&session, &name("x"), Some(6), 5).err(), Some(DisconnectReasonCode::TopicAliasInvalid));
}

#[test]
fn qos2_idempotent_redelivery() {
    // PUBLISH pid=5 sent twice with the same payload: PUBREC twice, routed once
    let mut global = GlobalState::new(Config::default());
    let mut publisher = connected(&mut global, "pub");
    let mut sub = connected(&mut global, "sub");
    subscribe(&mut sub, &mut global, "t", QoS::Level2);
    let success = Pubrec { pid: pid(5), reason_code: PubrecReasonCode::Success };
    let first = handle_publish(&mut publisher, publish("t", &[1, 2], QosPid::Level2(pid(5))), 10, &mut global);
    assert!(matches!(first, Ok(Some(Packet::Pubrec(p))) if p == success));
    let second = handle_publish(&mut publisher, publish("t", &[1, 2], QosPid::Level2(pid(5))), 10, &mut global);
    assert!(matches!(second, Ok(Some(Packet::Pubrec(p))) if p == success));
    assert_eq!(global.outbox.len(), 1);
    // another payload under the same identifier is told that it is in use
    let other = handle_publish(&mut publisher, publish("t", &[9], QosPid::Level2(pid(5))), 10, &mut global);
    let in_use = Pubrec { pid: pid(5), reason_code: PubrecReasonCode::PacketIdentifierInUse };
    assert!(matches!(other, Ok(Some(Packet::Pubrec(p))) if p == in_use));
    assert_eq!(global.outbox.len(), 1);
    // PUBREL completes; PUBCOMP is sent; the identifier is free again
    let done = Pubcomp { pid: pid(5), reason_code: PubcompReasonCode::Success };
    assert!(matches!(handle_pubrel(&mut publisher, pid(5)), Packet::Pubcomp(p) if p == done));
    let unknown = Pubcomp { pid: pid(5), reason_code: PubcompReasonCode::PacketIdentifierNotFound };
    assert!(matches!(handle_pubrel(&mut publisher, pid(5)), Packet::Pubcomp(p) if p == unknown));
    handle_publish(&mut publisher, publish("t", &[1, 2], QosPid::Level2(pid(5))), 10, &mut global).unwrap();
    assert_eq!(global.outbox.len(), 2);
}

#[test]
fn v5_publish_refusals() {
    let mut config = Config::default();
    config.retain_available = false;
    config.max_inflight_server = 1;
    let mut global = GlobalState::new(config);
    let mut session = connected(&mut global, "pub");
    let mut dup = publish("t", &[1], QosPid::Level0);
    dup.dup = true;
    let answer = handle_publish(&mut session, dup, 10, &mut global);
    assert_eq!(disconnect_code(&answer.err().unwrap()), DisconnectReasonCode::ProtocolError);
    let mut retained = publish("t", &[1], QosPid::Level0);
    retained.retain = true;
    let answer = handle_publish(&mut session, retained, 10, &mut global);
    assert_eq!(disconnect_code(&answer.err().unwrap()), DisconnectReasonCode::RetainNotSupported);
    assert!(handle_publish(&mut session, publish("t", &[1], QosPid::Level2(pid(1))), 10, &mut global).is_ok());
    let answer = handle_publish(&mut session, publish("t", &[1], QosPid::Level2(pid(2))), 10, &mut global);
    assert_eq!(disconnect_code(&answer.err().unwrap()), DisconnectReasonCode::ReceiveMaximumExceeded);
    let ack = handle_publish(&mut session, publish("t", &[1], QosPid::Level1(pid(3))), 10, &mut global);
    let expected = Puback { pid: pid(3), reason_code: PubackReasonCode::Success };
    assert!(matches!(ack, Ok(Some(Packet::Puback(p))) if p == expected));
}

#[test]
fn message_expiry() {
    // expiry 1s, the subscriber's mailbox is blocked for 2s: nothing is received
    let mut global = GlobalState::new(Config::default());
    let mut publisher = connected(&mut global, "pub");
    let mut sub = connected(&mut global, "sub");
    subscribe(&mut sub, &mut global, "t", QoS::Level1);
    let mut packet = publish("t", &[1], QosPid::Level1(pid(1)));
    packet.properties.message_expiry_interval = Some(1);
    publisher.touch(5000);
    handle_publish(&mut publisher, packet, 10, &mut global).unwrap();
    match &global.outbox[0].message {
        NormalMessage::PublishV5 { expiry, .. } => assert_eq!(*expiry, Some(5001)),
        _ => panic!("no v5 publish"),
    }
    sub.touch(5002);
    let results = deliver(&mut global, &mut sub);
    assert_eq!(results.len(), 1);
    assert!(results[0].is_none());
    assert_eq!(sub.pending_packets.len(), 0);
}

#[test]
fn message_expiry_interval_counts_down() {
    let mut global = GlobalState::new(Config::default());
    let mut publisher = connected(&mut global, "pub");
    let mut sub = connected(&mut global, "sub");
    subscribe(&mut sub, &mut global, "t", QoS::Level1);
    let mut packet = publish("t", &[1], QosPid::Level0);
    packet.properties.message_expiry_interval = Some(10);
    publisher.touch(5000);
    handle_publish(&mut publisher, packet, 10, &mut global).unwrap();
    sub.touch(5004);
    let results = deliver(&mut global, &mut sub);
    let p = publish_of(results[0].as_ref().unwrap().1.as_ref().unwrap());
    assert_eq!(p.properties.message_expiry_interval, Some(6));
    assert_eq!(deadline(5000, Some(10)), Some(5010));
    assert_eq!(deadline(u64::MAX - 1, Some(10)), Some(u64::MAX));
    assert_eq!(deadline(5000, None), None);
}

#[test]
fn v5_tick_retransmits_and_reports_abandoned_deliveries() {
    let mut config = Config::default();
    config.inflight_timeout = 10;
    let mut global = GlobalState::new(config);
    let mut publisher = connected(&mut global, "pub");
    let mut sub = connected(&mut global, "sub");
    subscribe(&mut sub, &mut global, "t", QoS::Level2);
    let mut short = publish("t", &[1], QosPid::Level1(pid(1)));
    short.properties.message_expiry_interval = Some(5);
    handle_publish(&mut publisher, short, 10, &mut global).unwrap();
    handle_publish(&mut publisher, publish("t", &[2], QosPid::Level1(pid(2))), 10, &mut global).unwrap();
    handle_publish(&mut publisher, publish("t", &[3], QosPid::Level2(pid(3))), 10, &mut global).unwrap();
    deliver(&mut global, &mut sub);
    assert_eq!(sub.pending_packets.len(), 3);
    assert!(sub.handle_pendings().is_empty());
    handle_pubrec(&mut sub, pid(3));
    sub.touch(1010);
    let mut write: VecDeque<WritePacket<Packet>> = VecDeque::new();
    sub.after_handle_packet(&mut write);
    assert_eq!(sub.abandoned, vec![pid(1)]);
    assert_eq!(sub.pending_packets.len(), 2);
    assert_eq!(write.len(), 2);
    match write.pop_front() {
        Some(WritePacket::Packet(Packet::Publish(p))) => {
            assert!(p.dup);
            assert_eq!(p.qos_pid, QosPid::Level1(pid(2)));
            assert_eq!(*p.payload, vec![2]);
        }
        _ => panic!("no publish"),
    }
    let release = Pubrel { pid: pid(3), reason_code: PubrelReasonCode::Success };
    assert!(matches!(write.pop_front(), Some(WritePacket::Packet(Packet::Pubrel(p))) if p == release));
}

#[test]
fn expired_message_in_queue_is_abandoned() {
    let mut global = GlobalState::new(Config::default());
    let mut publisher = connected(&mut global, "pub");
    let mut sub = connected(&mut global, "sub");
    subscribe(&mut sub, &mut global, "t", QoS::Level1);
    let mut packet = publish("t", &[1], QosPid::Level1(pid(1)));
    packet.properties.message_expiry_interval = Some(3);
    handle_publish(&mut publisher, packet, 10, &mut global).unwrap();
    deliver(&mut global, &mut sub);
    assert_eq!(sub.pending_packets.len(), 1);
    let tick = sub.pending_packets.expire(1003);
    assert_eq!(tick.abandoned, vec![pid(1)]);
    assert_eq!(sub.pending_packets.len(), 0);
}

#[test]
fn subscription_options_shape_the_delivery() {
    let mut global = GlobalState::new(Config::default());
    let mut a = connected(&mut global, "a");
    let mut b = connected(&mut global, "b");
    let mut options = SubscriptionOptions::new(QoS::Level1);
    options.no_local = true;
    options.retain_as_published = false;
    let codes = subscribe_with(&mut a, &mut global, "t", options, Some(42));
    assert_eq!(codes, vec![SubscribeReasonCode::GrantedQoS1]);
    assert_eq!(
        a.subscribes().get(&filter("t")),
        Some(SubscriptionData { options, id: Some(42) })
    );
    let mut packet = publish("t", &[1], QosPid::Level2(pid(1)));
    packet.retain = true;
    handle_publish(&mut a, packet.clone(), 10, &mut global).unwrap();
    // no-local: the session does not get its own publish
    let own = deliver(&mut global, &mut a);
    assert_eq!(own.len(), 1);
    assert!(own[0].is_none());
    packet.qos_pid = QosPid::Level2(pid(2));
    handle_publish(&mut b, packet, 10, &mut global).unwrap();
    let results = deliver(&mut global, &mut a);
    let (qos, delivered) = results[0].as_ref().unwrap();
    assert_eq!(*qos, QoS::Level1);
    let p = publish_of(delivered.as_ref().unwrap());
    assert_eq!(p.properties.subscription_id, Some(42));
    assert!(!p.retain);
    assert_eq!(p.qos_pid, QosPid::Level1(pid(1)));
}

#[test]
fn retain_handling_decides_about_retained_messages() {
    let mut global = GlobalState::new(Config::default());
    let mut publisher = connected(&mut global, "pub");
    let mut packet = publish("t", &[7], QosPid::Level0);
    packet.retain = true;
    handle_publish(&mut publisher, packet, 10, &mut global).unwrap();
    let mut sub = connected(&mut global, "sub");
    let mut ask = |f: &str, handling: RetainHandling, global: &mut GlobalState| {
        let mut options = SubscriptionOptions::new(QoS::Level0);
        options.retain_handling = handling;
        let packet = Subscribe { pid: pid(1), subscription_id: None, topics: vec![(filter(f), options)] };
        handle_subscribe(&mut sub, &packet, global).unwrap()
    };
    let answer = ask("t", RetainHandling::DoNotSend, &mut global);
    assert_eq!(answer.len(), 1);
    assert!(matches!(&answer[0], Packet::Suback(_)));
    let answer = ask("t", RetainHandling::SendAtSubscribeIfNotExist, &mut global);
    assert_eq!(answer.len(), 1);
    let answer = ask("+", RetainHandling::SendAtSubscribeIfNotExist, &mut global);
    assert_eq!(answer.len(), 2);
    let answer = ask("t", RetainHandling::SendAtSubscribe, &mut global);
    assert_eq!(answer.len(), 2);
    assert!(matches!(&answer[0], Packet::Suback(_)));
    let p = publish_of(&answer[1]);
    assert!(p.retain);
    assert_eq!(*p.payload, vec![7]);
    assert_eq!(p.qos_pid, QosPid::Level0);
    assert!(global.outbox.is_empty());
}

#[test]
fn retained_message_longer_than_the_client_accepts_is_not_sent() {
    let mut global = GlobalState::new(Config::default());
    let mut publisher = connected(&mut global, "pub");
    let mut packet = publish("t", &[7], QosPid::Level0);
    packet.retain = true;
    handle_publish(&mut publisher, packet, 40, &mut global).unwrap();
    let mut sub = connected(&mut global, "sub");
    sub.max_packet_size = 39;
    let packet = Subscribe {
        pid: pid(1),
        subscription_id: None,
        topics: vec![(filter("t"), SubscriptionOptions::new(QoS::Level0))],
    };
    assert_eq!(handle_subscribe(&mut sub, &packet, &mut global).unwrap().len(), 1);
    sub.max_packet_size = 40;
    assert_eq!(handle_subscribe(&mut sub, &packet, &mut global).unwrap().len(), 2);
}

#[test]
fn v5_takeover_across_versions_needs_the_option() {
    let mut write: VecDeque<WritePacket<Packet>> = VecDeque::new();
    let mut global = GlobalState::new(Config::default());
    let mut session = connected(&mut global, "s");
    assert_eq!(
        handle_control(&mut session, ControlMessage::OnlineV3 { sender: 1 }, &mut write, &mut global),
        (false, None)
    );
    assert!(write.is_empty());
    let mut config = Config::default();
    config.allow_cross_version_takeover = true;
    let mut global = GlobalState::new(config);
    let mut session = connected(&mut global, "s");
    assert_eq!(
        handle_control(&mut session, ControlMessage::OnlineV3 { sender: 1 }, &mut write, &mut global),
        (false, Some(1))
    );
    match write.pop_front() {
        Some(WritePacket::Packet(Packet::Disconnect(d))) => {
            assert_eq!(d.reason_code, DisconnectReasonCode::SessionTakenOver)
        }
        _ => panic!("no disconnect"),
    }
    let state = session.build_state(ClientReceiver { control: 1, normal: 2 });
    let state = akasa_core::v3::connect::from_v5_state(state);
    assert_eq!(state.client_id, session.client_id);
}

#[test]
fn v5_subscribe_refusals() {
    let mut config = Config::default();
    config.shared_subscription_available = false;
    config.wildcard_subscription_available = false;
    config.subscription_id_available = false;
    config.max_allowed_qos = QoS::Level1;
    let mut global = GlobalState::new(config);
    let mut session = connected(&mut global, "s");
    let packet = Subscribe {
        pid: pid(1),
        subscription_id: None,
        topics: vec![
            (filter("$share/g/t"), SubscriptionOptions::new(QoS::Level0)),
            (filter("a/+"), SubscriptionOptions::new(QoS::Level0)),
            (filter("a/#"), SubscriptionOptions::new(QoS::Level0)),
            (filter("a/b"), SubscriptionOptions::new(QoS::Level2)),
        ],
    };
    let packets = handle_subscribe(&mut session, &packet, &mut global).ok().unwrap();
    match &packets[0] {
        Packet::Suback(suback) => assert_eq!(
            suback.topics,
            vec![
                SubscribeReasonCode::SharedSubscriptionNotSupported,
                SubscribeReasonCode::WildcardSubscriptionsNotSupported,
                SubscribeReasonCode::WildcardSubscriptionsNotSupported,
                SubscribeReasonCode::GrantedQoS1,
            ]
        ),
        _ => panic!("no suback"),
    }
    assert_eq!(global.route_table.len(), 1);
    let with_id = Subscribe { pid: pid(1), subscription_id: Some(3), topics: vec![(filter("x"), SubscriptionOptions::new(QoS::Level0))] };
    let close = handle_subscribe(&mut session, &with_id, &mut global).err().unwrap();
    assert_eq!(disconnect_code(&close), DisconnectReasonCode::SubscriptionIdentifiersNotSupported);
    let empty = Subscribe { pid: pid(1), subscription_id: None, topics: vec![] };
    let close = handle_subscribe(&mut session, &empty, &mut global).err().unwrap();
    assert_eq!(disconnect_code(&close), DisconnectReasonCode::ProtocolError);
    let mut global = GlobalState::new(Config::default());
    let zero = Subscribe { pid: pid(1), subscription_id: Some(0), topics: vec![(filter("x"), SubscriptionOptions::new(QoS::Level0))] };
    let close = handle_subscribe(&mut session, &zero, &mut global).err().unwrap();
    assert_eq!(disconnect_code(&close), DisconnectReasonCode::ProtocolError);
    assert!(has_wildcard(b"a/+"));
    assert!(has_wildcard(b"#"));
    assert!(!has_wildcard(b"a/b"));
}

#[test]
fn v5_unsubscribe_reports_what_existed() {
    let mut global = GlobalState::new(Config::default());
    let mut session = connected(&mut global, "s");
    subscribe(&mut session, &mut global, "a", QoS::Level0);
    subscribe(&mut session, &mut global, "b", QoS::Level0);
    let packet = Unsubscribe { pid: pid(6), topics: vec![filter("a"), filter("x"), filter("a")] };
    match handle_unsubscribe(&mut session, &packet, &mut global) {
        Packet::Unsuback(unsuback) => {
            assert_eq!(unsuback.pid, pid(6));
            assert_eq!(
                unsuback.topics,
                vec![
                    UnsubscribeReasonCode::Success,
                    UnsubscribeReasonCode::NoSubscriptionExisted,
                    UnsubscribeReasonCode::NoSubscriptionExisted,
                ]
            );
        }
        _ => panic!("no unsuback"),
    }
    assert_eq!(session.subscribes().len(), 1);
    assert_eq!(global.route_table.len(), 1);
}

#[test]
fn v5_acknowledgements() {
    let mut global = GlobalState::new(Config::default());
    let mut publisher = connected(&mut global, "pub");
    let mut sub = connected(&mut global, "sub");
    subscribe(&mut sub, &mut global, "t", QoS::Level2);
    handle_publish(&mut publisher, publish("t", &[1], QosPid::Level1(pid(1))), 10, &mut global).unwrap();
    handle_publish(&mut publisher, publish("t", &[2], QosPid::Level2(pid(2))), 10, &mut global).unwrap();
    deliver(&mut global, &mut sub);
    assert_eq!(sub.pending_packets.len(), 2);
    assert_eq!(handle_puback(&mut sub, pid(1)), AckOutcome::Completed);
    let missing = Pubrel { pid: pid(9), reason_code: PubrelReasonCode::PacketIdentifierNotFound };
    assert!(matches!(handle_pubrec(&mut sub, pid(9)), Packet::Pubrel(p) if p == missing));
    let release = Pubrel { pid: pid(2), reason_code: PubrelReasonCode::Success };
    assert!(matches!(handle_pubrec(&mut sub, pid(2)), Packet::Pubrel(p) if p == release));
    assert_eq!(handle_pubcomp(&mut sub, pid(2)), AckOutcome::Completed);
    assert_eq!(handle_pubcomp(&mut sub, pid(2)), AckOutcome::Unknown);
    assert!(sub.pending_packets.is_empty());
}

#[test]
fn v5_full_queue_closes_the_connection() {
    let mut config = Config::default();
    config.max_inflight_client = 1;
    config.max_in_mem_pending_messages = 0;
    let mut global = GlobalState::new(config);
    let mut publisher = connected(&mut global, "pub");
    let mut sub = connected(&mut global, "sub");
    subscribe(&mut sub, &mut global, "t", QoS::Level1);
    for n in 1..=3u16 {
        handle_publish(&mut publisher, publish("t", &[n as u8], QosPid::Level1(pid(n))), 10, &mut global).unwrap();
    }
    handle_publish(&mut publisher, publish("t", &[4], QosPid::Level0), 10, &mut global).unwrap();
    let results = deliver(&mut global, &mut sub);
    assert!(matches!(&results[0], Some((QoS::Level1, Some(Packet::Publish(_))))));
    match &results[1] {
        Some((QoS::Level1, Some(packet))) => {
            assert_eq!(disconnect_code(packet), DisconnectReasonCode::QuotaExceeded)
        }
        _ => panic!("no disconnect"),
    }
    assert!(sub.server_disconnected);
    assert!(results[2].is_none());
    assert!(matches!(&results[3], Some((QoS::Level0, Some(Packet::Publish(_))))));
    assert_eq!(sub.pending_packets.len(), 1);
}

#[test]
fn oversized_delivery_is_dropped() {
    let mut global = GlobalState::new(Config::default());
    let mut publisher = connected(&mut global, "pub");
    let mut sub = connected(&mut global, "sub");
    sub.max_packet_size = 100;
    subscribe(&mut sub, &mut global, "t", QoS::Level0);
    handle_publish(&mut publisher, publish("t", &[1], QosPid::Level0), 101, &mut global).unwrap();
    handle_publish(&mut publisher, publish("t", &[2], QosPid::Level0), 100, &mut global).unwrap();
    let results = deliver(&mut global, &mut sub);
    assert!(results[0].is_none());
    assert!(results[1].is_some());
}

#[test]
fn v3_publish_reaches_v5_subscriber_without_properties() {
    let mut global = GlobalState::new(Config::default());
    let mut sub = connected(&mut global, "sub");
    subscribe(&mut sub, &mut global, "t", QoS::Level1);
    let message = NormalMessage::PublishV3 {
        topic_name: name("t"),
        qos: QoS::Level2,
        retain: false,
        payload: Arc::new(vec![3]),
        subscribe_filter: filter("t"),
        subscribe_qos: QoS::Level1,
        encode_len: 8,
    };
    let (qos, packet) = handle_normal(&mut sub, 99, message).unwrap();
    assert_eq!(qos, QoS::Level1);
    let p = publish_of(packet.as_ref().unwrap());
    assert_eq!(p.properties.message_expiry_interval, None);
    assert_eq!(p.properties.subscription_id, None);
    assert_eq!(*p.payload, vec![3]);
}

#[test]
fn takeover_v5() {
    // "X" connects on conn1, then on conn2: conn1 gets DISCONNECT(SessionTakenOver), no will
    let mut global = GlobalState::new(Config::default());
    let mut watcher = connected(&mut global, "watcher");
    subscribe(&mut watcher, &mut global, "will", QoS::Level0);
    let mut conn1 = connected(&mut global, "X");
    conn1.last_will = Some(LastWill {
        qos: QoS::Level0,
        retain: false,
        topic_name: name("will"),
        payload: Arc::new(vec![1]),
        properties: WillProperties {
            delay_interval: None,
            payload_is_utf8: None,
            message_expiry_interval: None,
            content_type: None,
            response_topic: None,
            correlation_data: None,
            user_properties: Arc::new(vec![]),
        },
    });
    let receipt = global.add_client(&Arc::new("X".to_string()), Protocol::V500);
    assert_eq!(receipt, AddClientReceipt::Present { client_id: conn1.client_id, online: true });
    assert_eq!(global.online_clients_count(), 2);
    let mut write: VecDeque<WritePacket<Packet>> = VecDeque::new();
    let result = handle_control(&mut conn1, ControlMessage::OnlineV5 { sender: 12 }, &mut write, &mut global);
    assert_eq!(result, (false, Some(12)));
    match write.pop_front() {
        Some(WritePacket::Packet(packet)) => {
            assert_eq!(disconnect_code(&packet), DisconnectReasonCode::SessionTakenOver)
        }
        _ => panic!("no disconnect"),
    }
    assert!(conn1.disconnected());
    let state = conn1.build_state(ClientReceiver { control: 1, normal: 2 });
    assert_eq!(state.client_id, conn1.client_id);
    let exit = finish_online(conn1, ClientReceiver { control: 1, normal: 2 }, true, None, 2000, &mut global);
    assert!(exit.offline.is_none());
    assert!(global.outbox.is_empty());
    assert_eq!(global.clients_count(), 2);
}

#[test]
fn v5_control_messages() {
    let mut global = GlobalState::new(Config::default());
    let mut session = connected(&mut global, "s");
    let mut write: VecDeque<WritePacket<Packet>> = VecDeque::new();
    assert_eq!(
        handle_control(&mut session, ControlMessage::OnlineV3 { sender: 1 }, &mut write, &mut global),
        (false, None)
    );
    assert_eq!(
        handle_control(&mut session, ControlMessage::SessionExpired { connected_time: 1000 }, &mut write, &mut global),
        (false, None)
    );
    assert!(write.is_empty());
    let kick = ControlMessage::Kick { reason: Arc::new("bye".to_string()) };
    assert_eq!(session.handle_control(kick, &mut write, &mut global), (true, None));
    match write.pop_front() {
        Some(WritePacket::Packet(packet)) => {
            assert_eq!(disconnect_code(&packet), DisconnectReasonCode::AdministrativeAction)
        }
        _ => panic!("no disconnect"),
    }
    assert!(session.server_disconnected);
    // offline: the timers of the last connection apply, older ones do not
    session.connected = false;
    assert_eq!(
        handle_control(&mut session, ControlMessage::SessionExpired { connected_time: 999 }, &mut write, &mut global),
        (false, None)
    );
    assert_eq!(
        handle_control(&mut session, ControlMessage::SessionExpired { connected_time: 1000 }, &mut write, &mut global),
        (true, None)
    );
}

fn will(delay: Option<u32>) -> LastWill {
    LastWill {
        qos: QoS::Level1,
        retain: false,
        topic_name: name("will"),
        payload: Arc::new(vec![0xee]),
        properties: WillProperties {
            delay_interval: delay,
            payload_is_utf8: Some(false),
            message_expiry_interval: Some(60),
            content_type: None,
            response_topic: None,
            correlation_data: None,
            user_properties: Arc::new(vec![]),
        },
    }
}

#[test]
fn v5_will_is_published_or_delayed() {
    let mut global = GlobalState::new(Config::default());
    let mut watcher = connected(&mut global, "watcher");
    subscribe(&mut watcher, &mut global, "will", QoS::Level1);
    let receiver = ClientReceiver { control: 1, normal: 2 };

    // session ends with the connection: the will goes out at once
    let mut a = connected(&mut global, "a");
    a.last_will = Some(will(Some(30)));
    let exit = finish_online(a, receiver, false, Some(ErrorKind::TimedOut), 2000, &mut global);
    assert!(exit.offline.is_none());
    assert_eq!(exit.error, Some(ErrorKind::TimedOut));
    assert_eq!(exit.will_delay, None);
    assert_eq!(global.outbox.len(), 1);
    match &global.outbox[0].message {
        NormalMessage::PublishV5 { properties, expiry, payload, .. } => {
            assert_eq!(properties.payload_is_utf8, Some(false));
            assert_eq!(*expiry, Some(1060));
            assert_eq!(**payload, vec![0xee]);
        }
        _ => panic!("no v5 publish"),
    }
    global.take_outbox();
    assert_eq!(global.clients_count(), 1);

    // session lives on and the will has a delay: it waits for the timer
    let mut b = connected(&mut global, "b");
    b.session_expiry_interval = 300;
    b.last_will = Some(will(Some(30)));
    let exit = finish_online(b, receiver, false, Some(ErrorKind::Other), 2000, &mut global);
    assert_eq!(exit.error, None);
    assert_eq!(exit.will_delay, Some(30));
    assert_eq!(exit.session_expiry, Some(300));
    assert!(global.outbox.is_empty());
    let (mut offline, _) = exit.offline.unwrap();
    assert!(!offline.connected);
    assert_eq!(offline.connection_closed_time, Some(2000));
    assert!(offline.last_will.is_some());
    let mut write: VecDeque<WritePacket<Packet>> = VecDeque::new();
    handle_control(&mut offline, ControlMessage::WillDelayReached { connected_time: 5 }, &mut write, &mut global);
    assert!(global.outbox.is_empty());
    handle_control(&mut offline, ControlMessage::WillDelayReached { connected_time: 1000 }, &mut write, &mut global);
    assert_eq!(global.outbox.len(), 1);
    assert!(offline.last_will.is_none());
    global.take_outbox();

    // session lives on and the will has no delay: it goes out at once
    let mut c = connected(&mut global, "c");
    c.session_expiry_interval = 300;
    c.last_will = Some(will(None));
    let exit = finish_online(c, receiver, false, None, 2000, &mut global);
    assert_eq!(exit.will_delay, None);
    assert_eq!(global.outbox.len(), 1);
    assert!(exit.offline.unwrap().0.last_will.is_none());
    global.take_outbox();

    let mut d = connected(&mut global, "d");
    handle_will(&mut d, &mut global);
    assert!(global.outbox.is_empty());
}

#[test]
fn v5_disconnect_handling() {
    let mut global = GlobalState::new(Config::default());
    let mut session = connected(&mut global, "s");
    session.last_will = Some(will(None));
    let refused = handle_disconnect(
        &mut session,
        Disconnect { reason_code: DisconnectReasonCode::NormalDisconnect, session_expiry_interval: Some(10) },
    );
    assert_eq!(disconnect_code(&refused.unwrap()), DisconnectReasonCode::ProtocolError);
    assert!(session.server_disconnected);
    assert!(!session.client_disconnected);

    let mut session = connected(&mut global, "t");
    session.session_expiry_interval = 5;
    session.last_will = Some(will(None));
    assert!(handle_disconnect(
        &mut session,
        Disconnect { reason_code: DisconnectReasonCode::DisconnectWithWillMessage, session_expiry_interval: Some(10) },
    )
    .is_none());
    assert!(session.client_disconnected);
    assert_eq!(session.session_expiry_interval(), 10);
    assert!(session.last_will.is_some());
    assert!(handle_disconnect(&mut session, Disconnect::new(DisconnectReasonCode::NormalDisconnect)).is_none());
    assert!(session.last_will.is_none());
    assert_eq!(session.session_expiry_interval(), 10);
}

#[test]
fn v5_handle_packet_dispatches() {
    let mut config = Config::default();
    config.max_packet_size_server = 1000;
    let mut global = GlobalState::new(config);
    let mut session = connected(&mut global, "s");
    let mut write: VecDeque<WritePacket<Packet>> = VecDeque::new();
    assert!(session.handle_packet(2, vec![], Packet::Pingreq, &mut write, &mut global).is_none());
    assert!(matches!(write.pop_front(), Some(WritePacket::Packet(Packet::Pingresp))));
    let sub = Packet::Subscribe(Subscribe {
        pid: pid(2),
        subscription_id: None,
        topics: vec![(filter("t"), SubscriptionOptions::new(QoS::Level1))],
    });
    assert!(session.handle_packet(9, vec![], sub, &mut write, &mut global).is_none());
    assert!(matches!(write.pop_front(), Some(WritePacket::Packet(Packet::Suback(_)))));
    let p = Packet::Publish(publish("t", &[1], QosPid::Level1(pid(3))));
    assert!(session.handle_packet(9, vec![], p, &mut write, &mut global).is_none());
    assert!(matches!(write.pop_front(), Some(WritePacket::Packet(Packet::Puback(_)))));
    let unsub = Packet::Unsubscribe(Unsubscribe { pid: pid(4), topics: vec![filter("t")] });
    assert!(session.handle_packet(9, vec![], unsub, &mut write, &mut global).is_none());
    assert!(matches!(write.pop_front(), Some(WritePacket::Packet(Packet::Unsuback(_)))));
    let rel = Packet::Pubrel(Pubrel { pid: pid(3), reason_code: PubrelReasonCode::Success });
    assert!(session.handle_packet(4, vec![], rel, &mut write, &mut global).is_none());
    assert!(matches!(write.pop_front(), Some(WritePacket::Packet(Packet::Pubcomp(_)))));
    assert!(!session.disconnected());
    // a packet that no client may send closes the connection
    assert!(session.handle_packet(2, vec![], Packet::Pingresp, &mut write, &mut global).is_none());
    match write.pop_front() {
        Some(WritePacket::Packet(packet)) => assert_eq!(disconnect_code(&packet), DisconnectReasonCode::ProtocolError),
        _ => panic!("no disconnect"),
    }
    assert!(session.server_disconnected);
    // so does a packet that is too large
    let mut session = connected(&mut global, "t");
    assert!(session.handle_packet(1001, vec![], Packet::Pingreq, &mut write, &mut global).is_none());
    match write.pop_front() {
        Some(WritePacket::Packet(packet)) => assert_eq!(disconnect_code(&packet), DisconnectReasonCode::PacketTooLarge),
        _ => panic!("no disconnect"),
    }
    // and a refused publish
    let mut session = connected(&mut global, "u");
    let bad = Packet::Publish(with_alias(publish("t", &[1], QosPid::Level0), 0));
    assert!(session.handle_packet(9, vec![], bad, &mut write, &mut global).is_none());
    match write.pop_front() {
        Some(WritePacket::Packet(packet)) => assert_eq!(disconnect_code(&packet), DisconnectReasonCode::TopicAliasInvalid),
        _ => panic!("no disconnect"),
    }
    assert!(session.disconnected());
    let bye = Packet::Disconnect(Disconnect::new(DisconnectReasonCode::NormalDisconnect));
    let mut session = connected(&mut global, "v");
    assert!(session.handle_packet(2, vec![], bye, &mut write, &mut global).is_none());
    assert!(session.client_disconnected);
    assert!(write.is_empty());
}

#[test]
fn v5_handle_packet_hands_packets_to_the_hook_when_enabled() {
    let mut config = Config::default();
    config.hook.enable_publish = true;
    let mut global = GlobalState::new(config);
    let mut session = connected(&mut global, "s");
    let mut write: VecDeque<WritePacket<Packet>> = VecDeque::new();
    let p = Packet::Publish(publish("t", &[1], QosPid::Level1(pid(3))));
    match session.handle_packet(9, vec![5], p, &mut write, &mut global) {
        Some(PacketHook::Publish { encode_len, packet_body, publish }) => {
            assert_eq!(encode_len, 9);
            assert_eq!(packet_body, vec![5]);
            assert_eq!(publish.qos_pid, QosPid::Level1(pid(3)));
        }
        _ => panic!("no hook"),
    }
    assert!(write.is_empty());
}

#[test]
fn traced_rng_records_what_it_gives() {
    let mut rng = TracedRng::new_empty();
    let a = rng.next_u32();
    let b = rng.next_u64();
    let mut buf = vec![0u8; 5];
    rng.fill_bytes(&mut buf);
    let mut more = vec![0u8; 3];
    assert!(rng.try_fill_bytes(&mut more).is_ok());
    assert!(rng.has(1000));
    let data = rng.into_data();
    assert_eq!(data.len(), 4 + 8 + 5 + 3);
    assert_eq!(&data[0..4], &a.to_le_bytes());
    assert_eq!(&data[4..12], &b.to_le_bytes());
    assert_eq!(&data[12..17], &buf[..]);
    assert_eq!(&data[17..20], &more[..]);

    let mut replay = TracedRng::new_from(data);
    assert_eq!(replay.next_u32(), a);
    assert_eq!(replay.next_u64(), b);
    let mut again = vec![0u8; 5];
    replay.fill_bytes(&mut again);
    assert_eq!(again, buf);
    assert!(replay.has(3));
    assert!(!replay.has(4));
    let mut last = vec![0u8; 3];
    assert!(replay.try_fill_bytes(&mut last).is_ok());
    assert_eq!(last, more);
    assert!(!replay.has(1));
    assert!(replay.has(0));
}

#[test]
fn traced_rng_replays_little_endian() {
    let mut replay = TracedRng::new_from(vec![1, 0, 0, 0, 2, 0, 0, 0, 0, 0, 0, 0, 0xaa]);
    assert_eq!(replay.next_u32(), 1);
    assert_eq!(replay.next_u64(), 2);
    let mut one = vec![0u8; 1];
    replay.fill_bytes(&mut one);
    assert_eq!(one, vec![0xaa]);
    let mut fresh = TracedRng::new_empty();
    fresh.next_u64();
    fresh.next_u64();
    assert_eq!(fresh.into_data().len(), 16);
}

#[test]
fn v5_fingerprint_decides_about_a_repeated_identifier() {
    let mut global = GlobalState::new(Config::default());
    let mut publisher = connected(&mut global, "pub");
    let mut sub = connected(&mut global, "sub");
    subscribe(&mut sub, &mut global, "t", QoS::Level2);
    let packet = || publish("t", &[1], QosPid::Level2(pid(5)));
    let success = Pubrec { pid: pid(5), reason_code: PubrecReasonCode::Success };
    let in_use = Pubrec { pid: pid(5), reason_code: PubrecReasonCode::PacketIdentifierInUse };
    let first = akasa_core::v5::publish::handle_publish_with(&mut publisher, packet(), 10, 7, &mut global);
    assert!(matches!(first, Ok(Some(Packet::Pubrec(p))) if p == success));
    assert_eq!(publisher.qos2_pids.get(5), Some(7));
    assert_eq!(global.outbox.len(), 1);
    let again = akasa_core::v5::publish::handle_publish_with(&mut publisher, packet(), 10, 7, &mut global);
    assert!(matches!(again, Ok(Some(Packet::Pubrec(p))) if p == success));
    let other = akasa_core::v5::publish::handle_publish_with(&mut publisher, packet(), 10, 8, &mut global);
    assert!(matches!(other, Ok(Some(Packet::Pubrec(p))) if p == in_use));
    assert_eq!(publisher.qos2_pids.get(5), Some(7));
    assert_eq!(global.outbox.len(), 1);
}
