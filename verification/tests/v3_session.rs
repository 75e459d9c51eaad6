use std::collections::VecDeque;
use std::sync::Arc;

use akasa_core::config::Config;
use akasa_core::hook::HookConnectCode;
use akasa_core::hook::HookConnectedAction;
use akasa_core::hook::PublishAction;
use akasa_core::hook::SubscribeAction;
use akasa_core::hook::UnsubscribeAction;
use akasa_core::online::queue_broadcast;
use akasa_core::online::BroadcastOutcome;
use akasa_core::online::OnlineSession;
use akasa_core::online::WritePacket;
use akasa_core::pending::AckOutcome;
use akasa_core::pending::AckState;
use akasa_core::state::ClientReceiver;
use akasa_core::state::ControlMessage;
use akasa_core::state::Delivery;
use akasa_core::state::GlobalState;
use akasa_core::state::NormalMessage;
use akasa_core::topic::TopicFilter;
use akasa_core::topic::TopicName;
use akasa_core::types::ErrorKind;
use akasa_core::types::IpAddr;
use akasa_core::types::PeerAddr;
use akasa_core::types::Pid;
use akasa_core::types::Protocol;
use akasa_core::types::QoS;
use akasa_core::types::QosPid;
use akasa_core::v3::common::handle_pendings;
use akasa_core::v3::connect::adopt_state;
use akasa_core::v3::connect::handle_connect;
use akasa_core::v3::connect::handle_disconnect;
use akasa_core::v3::connect::Takeover;
use akasa_core::v3::message::after_connect_hook;
use akasa_core::v3::message::before_connect_hook;
use akasa_core::v3::message::decode_error;
use akasa_core::v3::message::finish_online;
use akasa_core::v3::message::handle_control;
use akasa_core::v3::message::handle_normal;
use akasa_core::v3::message::handle_offline;
use akasa_core::v3::message::handle_will;
use akasa_core::v3::message::HookReply;
use akasa_core::v3::message::OfflineEvent;
use akasa_core::v3::message::OfflineStep;
use akasa_core::v3::message::PacketHook;
use akasa_core::v3::packet::Connect;
use akasa_core::v3::packet::ConnectReturnCode;
use akasa_core::v3::packet::LastWill;
use akasa_core::v3::packet::Packet;
use akasa_core::v3::packet::Publish;
use akasa_core::v3::packet::Subscribe;
use akasa_core::v3::packet::SubscribeReturnCode;
use akasa_core::v3::packet::Unsubscribe;
use akasa_core::v3::publish::handle_puback;
use akasa_core::v3::publish::handle_pubcomp;
use akasa_core::v3::publish::handle_publish;
use akasa_core::v3::publish::handle_pubrec;
use akasa_core::v3::publish::handle_pubrel;
use akasa_core::v3::session::PubPacket;
use akasa_core::v3::session::Session;
use akasa_core::v3::subscribe::handle_subscribe;
use akasa_core::v3::subscribe::handle_unsubscribe;

fn name(s: &str) -> TopicName {
    TopicName::try_from(s.to_string()).unwrap()
}

fn filter(s: &str) -> TopicFilter {
    TopicFilter::try_from(s.to_string()).unwrap()
}

fn pid(n: u16) -> Pid {
    Pid::try_from(n).unwrap()
}

fn peer() -> PeerAddr {
    PeerAddr { ip: IpAddr::V4(0x7f000001), port: 1883 }
}

fn connect_packet(id: &str, clean_session: bool) -> Connect {
    Connect {
        protocol: Protocol::V311,
        clean_session,
        keep_alive: 30,
        client_id: Arc::new(id.to_string()),
        last_will: None,
        username: None,
        password: None,
    }
}

fn connected(global: &mut GlobalState, id: &str, clean_session: bool) -> Session {
    let mut session = Session::new(&global.config, peer(), 1000);
    let outcome = handle_connect(
        &mut session,
        connect_packet(id, clean_session),
        &Arc::new("generated".to_string()),
        global,
    );
    assert_eq!(outcome.code, ConnectReturnCode::Accepted);
    session
}

fn publish(topic: &str, payload: &[u8], qos_pid: QosPid, retain: bool) -> Publish {
    Publish { dup: false, retain, qos_pid, topic_name: name(topic), payload: Arc::new(payload.to_vec()) }
}

fn subscribe(session: &mut Session, global: &mut GlobalState, f: &str, qos: QoS) -> Vec<Packet> {
    let packet = Subscribe { pid: pid(1), topics: vec![(filter(f), qos)] };
    handle_subscribe(session, &packet, global).unwrap()
}

fn deliver_all(global: &mut GlobalState, sessions: &mut [&mut Session]) -> Vec<(u64, Option<(QoS, Option<Packet>)>)> {
    let mut results = Vec::new();
    for Delivery { sender, receiver, message } in global.take_outbox() {
        for session in sessions.iter_mut() {
            if session.client_id == receiver {
                results.push((receiver, handle_normal(session, sender, message)));
                break;
            }
        }
    }
    results
}

fn publish_of(packet: &Packet) -> &Publish {
    match packet {
        Packet::Publish(p) => p,
        _ => panic!("no publish"),
    }
}

#[test]
fn new_session_starts_disconnected_and_empty() {
    let config = Config::default();
    let session = Session::new(&config, peer(), 42);
    assert!(!session.connected);
    assert!(!session.disconnected());
    assert_eq!(session.last_packet_time(), 42);
    assert_eq!(session.server_packet_id.value(), 1);
    assert_eq!(session.pending_packets.len(), 0);
    assert_eq!(session.qos2_pids.len(), 0);
    assert_eq!(session.subscribes().len(), 0);
    assert_eq!(session.client_id(), u64::MAX);
    assert_eq!(session.client_identifier().as_str(), "");
    assert!(session.username().is_none());
    assert!(session.clean_session());
    assert!(session.last_will().is_none());
    assert_eq!(session.keep_alive(), 0);
    assert_eq!(session.peer(), peer());
    assert_eq!(session.broadcast_packets_max(), 10);
    assert_eq!(session.broadcast_packets_cnt(), 0);
}

#[test]
fn connect_rejections() {
    let mut global = GlobalState::new(Config::default());
    let fallback = Arc::new("generated".to_string());
    let mut session = Session::new(&global.config, peer(), 0);
    let mut v5 = connect_packet("a", true);
    v5.protocol = Protocol::V500;
    assert_eq!(
        handle_connect(&mut session, v5, &fallback, &mut global).code,
        ConnectReturnCode::UnacceptableProtocolVersion
    );
    assert_eq!(
        handle_connect(&mut session, connect_packet("", false), &fallback, &mut global).code,
        ConnectReturnCode::IdentifierRejected
    );
    assert!(!session.connected);
    assert_eq!(global.clients_count(), 0);

    let mut strict = Config::default();
    strict.allow_anonymous = false;
    strict.check_v3_id_length = true;
    let mut global = GlobalState::new(strict);
    assert_eq!(
        handle_connect(&mut session, connect_packet("a", true), &fallback, &mut global).code,
        ConnectReturnCode::BadUserNameOrPassword
    );
    let mut long = connect_packet("123456789012345678901234", true);
    long.username = Some(Arc::new("user".to_string()));
    assert_eq!(
        handle_connect(&mut session, long, &fallback, &mut global).code,
        ConnectReturnCode::IdentifierRejected
    );
    let mut ok = connect_packet("12345678901234567890123", true);
    ok.username = Some(Arc::new("user".to_string()));
    let outcome = handle_connect(&mut session, ok, &fallback, &mut global);
    assert_eq!(outcome.code, ConnectReturnCode::Accepted);
    assert!(!outcome.session_present);
    assert_eq!(outcome.takeover, None);
    assert_eq!(session.username().unwrap().as_str(), "user");
    assert_eq!(session.keep_alive(), 30);
    assert!(session.connected);
}

#[test]
fn connect_without_identifier_uses_the_fallback() {
    let mut global = GlobalState::new(Config::default());
    let mut session = Session::new(&global.config, peer(), 0);
    let outcome = handle_connect(
        &mut session,
        connect_packet("", true),
        &Arc::new("generated-1".to_string()),
        &mut global,
    );
    assert_eq!(outcome.code, ConnectReturnCode::Accepted);
    assert_eq!(session.client_identifier().as_str(), "generated-1");
    assert_eq!(session.client_id(), 0);
}

#[test]
fn publish_reaches_every_matching_subscriber_at_lower_qos() {
    let mut global = GlobalState::new(Config::default());
    let mut publisher = connected(&mut global, "pub", true);
    let mut one = connected(&mut global, "one", true);
    let mut two = connected(&mut global, "two", true);
    let mut three = connected(&mut global, "three", true);
    subscribe(&mut one, &mut global, "a/+", QoS::Level0);
    subscribe(&mut two, &mut global, "a/b", QoS::Level2);
    subscribe(&mut three, &mut global, "x/y", QoS::Level2);
    global.take_outbox();

    let answer = handle_publish(
        &mut publisher,
        publish("a/b", &[7], QosPid::Level1(pid(11)), false),
        &mut global,
    );
    assert!(matches!(answer, Ok(Some(Packet::Puback(p))) if p == pid(11)));
    assert_eq!(global.outbox.len(), 2);
    assert_eq!(global.outbox[0].receiver, one.client_id);
    assert_eq!(global.outbox[1].receiver, two.client_id);
    assert_eq!(global.outbox[0].sender, publisher.client_id);

    let results = deliver_all(&mut global, &mut [&mut one, &mut two, &mut three]);
    assert_eq!(results.len(), 2);
    let (receiver, delivered) = &results[0];
    assert_eq!(*receiver, one.client_id);
    let (qos, packet) = delivered.as_ref().unwrap();
    assert_eq!(*qos, QoS::Level0);
    let p = publish_of(packet.as_ref().unwrap());
    assert_eq!(p.qos_pid, QosPid::Level0);
    assert_eq!(p.topic_name.as_str(), "a/b");
    assert_eq!(*p.payload, vec![7]);
    assert!(!p.retain);
    let (qos, packet) = results[1].1.as_ref().unwrap();
    assert_eq!(*qos, QoS::Level1);
    let p = publish_of(packet.as_ref().unwrap());
    assert_eq!(p.qos_pid, QosPid::Level1(pid(1)));
    assert_eq!(two.pending_packets.len(), 1);
    assert_eq!(two.server_packet_id.value(), 2);
    assert_eq!(one.pending_packets.len(), 0);
    assert_eq!(three.pending_packets.len(), 0);
}

#[test]
fn qos1_delivery_completes_on_puback() {
    let mut global = GlobalState::new(Config::default());
    let mut publisher = connected(&mut global, "pub", true);
    let mut sub = connected(&mut global, "sub", true);
    subscribe(&mut sub, &mut global, "t", QoS::Level1);
    handle_publish(&mut publisher, publish("t", &[1], QosPid::Level1(pid(5)), false), &mut global).unwrap();
    let results = deliver_all(&mut global, &mut [&mut sub]);
    assert_eq!(results.len(), 1);
    assert_eq!(sub.pending_packets.len(), 1);
    assert_eq!(handle_puback(&mut sub, pid(9)), AckOutcome::Unknown);
    assert_eq!(handle_puback(&mut sub, pid(1)), AckOutcome::Completed);
    assert_eq!(sub.pending_packets.len(), 0);
    assert_eq!(handle_puback(&mut sub, pid(1)), AckOutcome::Unknown);
}

#[test]
fn qos2_outbound_flow() {
    let mut global = GlobalState::new(Config::default());
    let mut publisher = connected(&mut global, "pub", true);
    let mut sub = connected(&mut global, "sub", true);
    subscribe(&mut sub, &mut global, "t", QoS::Level2);
    handle_publish(&mut publisher, publish("t", &[1], QosPid::Level2(pid(5)), false), &mut global).unwrap();
    let results = deliver_all(&mut global, &mut [&mut sub]);
    let (qos, packet) = results[0].1.as_ref().unwrap();
    assert_eq!(*qos, QoS::Level2);
    assert_eq!(publish_of(packet.as_ref().unwrap()).qos_pid, QosPid::Level2(pid(1)));
    assert!(matches!(handle_pubrec(&mut sub, pid(1)), Packet::Pubrel(p) if p == pid(1)));
    assert_eq!(sub.pending_packets.len(), 1);
    assert_eq!(handle_pubcomp(&mut sub, pid(1)), AckOutcome::Completed);
    assert_eq!(sub.pending_packets.len(), 0);
}

#[test]
fn qos2_inbound_flow_is_idempotent() {
    let mut global = GlobalState::new(Config::default());
    let mut publisher = connected(&mut global, "pub", true);
    let mut sub = connected(&mut global, "sub", true);
    subscribe(&mut sub, &mut global, "t", QoS::Level0);
    let first = handle_publish(&mut publisher, publish("t", &[1], QosPid::Level2(pid(5)), false), &mut global);
    assert!(matches!(first, Ok(Some(Packet::Pubrec(p))) if p == pid(5)));
    assert_eq!(global.outbox.len(), 1);
    assert!(publisher.qos2_pids.contains(5));
    let again = handle_publish(&mut publisher, publish("t", &[1], QosPid::Level2(pid(5)), false), &mut global);
    assert!(matches!(again, Ok(Some(Packet::Pubrec(p))) if p == pid(5)));
    assert_eq!(global.outbox.len(), 1);
    let other = handle_publish(&mut publisher, publish("t", &[2], QosPid::Level2(pid(5)), false), &mut global);
    assert_eq!(other.err(), Some(ErrorKind::InvalidData));
    assert_eq!(global.outbox.len(), 1);
    assert!(matches!(handle_pubrel(&mut publisher, pid(5)), Ok(Packet::Pubcomp(p)) if p == pid(5)));
    assert!(!publisher.qos2_pids.contains(5));
    assert_eq!(handle_pubrel(&mut publisher, pid(5)).err(), Some(Some(ErrorKind::InvalidData)));
    let fresh = handle_publish(&mut publisher, publish("t", &[1], QosPid::Level2(pid(5)), false), &mut global);
    assert!(fresh.is_ok());
    assert_eq!(global.outbox.len(), 2);
}

#[test]
fn publish_refusals() {
    let mut config = Config::default();
    config.max_inflight_server = 1;
    let mut global = GlobalState::new(config);
    let mut session = connected(&mut global, "pub", true);
    assert_eq!(
        handle_publish(&mut session, publish("", &[1], QosPid::Level0, false), &mut global).err(),
        Some(ErrorKind::InvalidData)
    );
    let mut dup = publish("t", &[1], QosPid::Level0, false);
    dup.dup = true;
    assert_eq!(handle_publish(&mut session, dup, &mut global).err(), Some(ErrorKind::InvalidData));
    assert!(handle_publish(&mut session, publish("t", &[1], QosPid::Level2(pid(1)), false), &mut global).is_ok());
    assert_eq!(
        handle_publish(&mut session, publish("t", &[1], QosPid::Level2(pid(2)), false), &mut global).err(),
        Some(ErrorKind::InvalidData)
    );
    assert!(handle_publish(&mut session, publish("t", &[1], QosPid::Level0, false), &mut global).unwrap().is_none());
}

#[test]
fn clean_session_v3() {
    // clean session, subscribe, disconnect, reconnect clean: nothing is left
    let mut global = GlobalState::new(Config::default());
    let mut a = connected(&mut global, "A", true);
    let suback = subscribe(&mut a, &mut global, "a/+", QoS::Level1);
    assert!(matches!(&suback[0], Packet::Suback(s) if s.topics == vec![SubscribeReturnCode::MaxLevel1]));
    assert_eq!(global.route_table.len(), 1);
    handle_disconnect(&mut a);
    let receiver = ClientReceiver { control: 1, normal: 2 };
    let exit = finish_online(a, receiver, false, None, &mut global).unwrap();
    assert!(exit.offline.is_none());
    assert_eq!(global.clients_count(), 0);
    assert_eq!(global.route_table.len(), 0);

    let mut again = Session::new(&global.config, peer(), 2000);
    let outcome = handle_connect(
        &mut again,
        connect_packet("A", true),
        &Arc::new("generated".to_string()),
        &mut global,
    );
    assert_eq!(outcome.code, ConnectReturnCode::Accepted);
    assert!(!outcome.session_present);
    assert_eq!(outcome.takeover, None);
    assert_eq!(again.subscribes().len(), 0);
    assert!(again.subscribes().filters().is_empty());
    let mut publisher = connected(&mut global, "pub", true);
    handle_publish(&mut publisher, publish("a/b", &[1], QosPid::Level0, false), &mut global).unwrap();
    assert!(global.outbox.is_empty());
}

#[test]
fn persistent_session_goes_offline_and_is_taken_over() {
    let mut global = GlobalState::new(Config::default());
    let mut a = connected(&mut global, "A", false);
    subscribe(&mut a, &mut global, "t", QoS::Level1);
    let receiver = ClientReceiver { control: 1, normal: 2 };
    let exit = finish_online(a, receiver, false, Some(ErrorKind::UnexpectedEof), &mut global).unwrap();
    let (mut offline, kept) = exit.offline.unwrap();
    assert_eq!(kept, receiver);
    assert!(!offline.connected);
    assert_eq!(global.clients_count(), 1);
    assert_eq!(global.online_clients_count(), 0);
    assert_eq!(global.route_table.len(), 1);

    // a publish while offline is queued
    let mut publisher = connected(&mut global, "pub", true);
    handle_publish(&mut publisher, publish("t", &[9], QosPid::Level1(pid(3)), false), &mut global).unwrap();
    let delivery = global.take_outbox().pop().unwrap();
    let step = handle_offline(
        &mut offline,
        receiver,
        OfflineEvent::Normal { sender: delivery.sender, msg: delivery.message },
        &mut global,
    );
    assert!(matches!(step, OfflineStep::Continue));
    assert_eq!(offline.pending_packets.len(), 1);

    // the client comes back and takes the session over
    let mut back = Session::new(&global.config, peer(), 3000);
    let outcome = handle_connect(
        &mut back,
        connect_packet("A", false),
        &Arc::new("generated".to_string()),
        &mut global,
    );
    assert_eq!(outcome.code, ConnectReturnCode::Accepted);
    assert!(outcome.session_present);
    assert_eq!(outcome.takeover, Some(Takeover { client_id: back.client_id, online: false }));
    let step = handle_offline(&mut offline, receiver, OfflineEvent::Control(ControlMessage::OnlineV3 { sender: 77 }), &mut global);
    let state = match step {
        OfflineStep::HandOver { sender, state } => {
            assert_eq!(sender, 77);
            state
        }
        _ => panic!("no hand over"),
    };
    assert_eq!(offline.pending_packets.len(), 0);
    adopt_state(&mut back, state);
    assert_eq!(back.pending_packets.len(), 1);
    assert!(back.subscribes().contains(&filter("t")));
    assert_eq!(back.server_packet_id.value(), 2);
    let packets = handle_pendings(&mut back);
    assert_eq!(packets.len(), 1);
    let p = publish_of(&packets[0]);
    assert!(!p.dup);
    assert_eq!(p.qos_pid, QosPid::Level1(pid(1)));
    assert_eq!(*p.payload, vec![9]);
}

#[test]
fn retained_clear() {
    let mut global = GlobalState::new(Config::default());
    let mut publisher = connected(&mut global, "pub", true);
    handle_publish(&mut publisher, publish("t", &[0x01], QosPid::Level0, true), &mut global).unwrap();
    assert_eq!(global.retain_table.len(), 1);
    handle_publish(&mut publisher, publish("t", &[], QosPid::Level0, true), &mut global).unwrap();
    assert_eq!(global.retain_table.len(), 0);
    let mut sub = connected(&mut global, "sub", true);
    let packets = subscribe(&mut sub, &mut global, "t", QoS::Level0);
    assert_eq!(packets.len(), 1);
    assert!(global.outbox.is_empty());
}

#[test]
fn retained_message_is_delivered_once_on_subscribe_before_live_publishes() {
    let mut global = GlobalState::new(Config::default());
    let mut publisher = connected(&mut global, "pub", true);
    handle_publish(&mut publisher, publish("t/1", &[1], QosPid::Level1(pid(1)), true), &mut global).unwrap();
    handle_publish(&mut publisher, publish("t/2", &[2], QosPid::Level0, true), &mut global).unwrap();
    handle_publish(&mut publisher, publish("u", &[3], QosPid::Level0, true), &mut global).unwrap();
    let mut sub = connected(&mut global, "sub", true);
    let answer = subscribe(&mut sub, &mut global, "t/+", QoS::Level0);
    assert_eq!(answer.len(), 3);
    assert!(matches!(&answer[0], Packet::Suback(_)));
    let retained: Vec<(Vec<u8>, bool, QosPid)> = answer[1..]
        .iter()
        .map(|packet| {
            let p = publish_of(packet);
            ((*p.payload).clone(), p.retain, p.qos_pid)
        })
        .collect();
    assert_eq!(retained, vec![(vec![1], true, QosPid::Level0), (vec![2], true, QosPid::Level0)]);
    assert!(global.outbox.is_empty());
    handle_publish(&mut publisher, publish("t/1", &[4], QosPid::Level0, false), &mut global).unwrap();
    assert_eq!(global.outbox.len(), 1);
    let results = deliver_all(&mut global, &mut [&mut sub]);
    let payloads: Vec<(Vec<u8>, bool)> = results
        .iter()
        .map(|(_, d)| {
            let p = publish_of(d.as_ref().unwrap().1.as_ref().unwrap());
            ((*p.payload).clone(), p.retain)
        })
        .collect();
    assert_eq!(payloads, vec![(vec![4], false)]);
}

#[test]
fn retained_message_at_qos_1_enters_the_queue_of_the_subscriber() {
    let mut global = GlobalState::new(Config::default());
    let mut publisher = connected(&mut global, "pub", true);
    handle_publish(&mut publisher, publish("t", &[7], QosPid::Level2(pid(1)), true), &mut global).unwrap();
    let mut sub = connected(&mut global, "sub", true);
    let answer = subscribe(&mut sub, &mut global, "t", QoS::Level1);
    assert_eq!(answer.len(), 2);
    let p = publish_of(&answer[1]);
    assert!(p.retain);
    assert_eq!(p.qos_pid, QosPid::Level1(pid(1)));
    assert_eq!(sub.pending_packets.len(), 1);
    assert_eq!(sub.server_packet_id.value(), 2);
}

#[test]
fn expired_message_of_a_v5_client_is_dropped() {
    let mut global = GlobalState::new(Config::default());
    let mut sub = connected(&mut global, "sub", true);
    subscribe(&mut sub, &mut global, "t", QoS::Level1);
    let msg = |expiry: Option<u64>| NormalMessage::PublishV5 {
        topic_name: name("t"),
        qos: QoS::Level1,
        retain: false,
        payload: Arc::new(vec![1]),
        subscribe_filter: filter("t"),
        subscribe_qos: QoS::Level1,
        properties: akasa_core::v5::types::PublishProperties::default(),
        encode_len: 9,
        expiry,
    };
    sub.touch(1002);
    assert!(handle_normal(&mut sub, 9, msg(Some(1001))).is_none());
    assert!(handle_normal(&mut sub, 9, msg(Some(1002))).is_none());
    assert_eq!(sub.pending_packets.len(), 0);
    assert!(handle_normal(&mut sub, 9, msg(Some(1003))).is_some());
    assert_eq!(sub.pending_packets.len(), 1);
    assert_eq!(sub.pending_packets.get(0).unwrap().expiry, Some(1003));
    assert!(handle_normal(&mut sub, 9, msg(None)).is_some());
}

#[test]
fn subscribe_grants_lower_of_asked_and_allowed() {
    let mut config = Config::default();
    config.max_allowed_qos = QoS::Level1;
    let mut global = GlobalState::new(config);
    let mut session = connected(&mut global, "s", true);
    let packet = Subscribe {
        pid: pid(4),
        topics: vec![
            (filter("a"), QoS::Level0),
            (filter("b"), QoS::Level2),
            (filter("$share/g/c"), QoS::Level1),
            (filter("a"), QoS::Level1),
        ],
    };
    let packets = handle_subscribe(&mut session, &packet, &mut global).unwrap();
    match &packets[0] {
        Packet::Suback(suback) => {
            assert_eq!(suback.pid, pid(4));
            assert_eq!(
                suback.topics,
                vec![
                    SubscribeReturnCode::MaxLevel0,
                    SubscribeReturnCode::MaxLevel1,
                    SubscribeReturnCode::Failure,
                    SubscribeReturnCode::MaxLevel1,
                ]
            );
        }
        _ => panic!("no suback"),
    }
    assert_eq!(session.subscribes().len(), 2);
    assert_eq!(session.subscribes().get(&filter("a")).unwrap().options.max_qos, QoS::Level1);
    assert_eq!(global.route_table.len(), 2);
    let empty = Subscribe { pid: pid(5), topics: vec![] };
    assert_eq!(handle_subscribe(&mut session, &empty, &mut global).err(), Some(Some(ErrorKind::InvalidData)));
}

#[test]
fn unsubscribe_removes_subscriptions() {
    let mut global = GlobalState::new(Config::default());
    let mut session = connected(&mut global, "s", true);
    subscribe(&mut session, &mut global, "a", QoS::Level0);
    subscribe(&mut session, &mut global, "b", QoS::Level0);
    let packet = Unsubscribe { pid: pid(8), topics: vec![filter("a"), filter("zzz")] };
    assert!(matches!(handle_unsubscribe(&mut session, &packet, &mut global), Packet::Unsuback(p) if p == pid(8)));
    assert_eq!(session.subscribes().len(), 1);
    assert!(session.subscribes().contains(&filter("b")));
    assert_eq!(global.route_table.len(), 1);
    let mut publisher = connected(&mut global, "pub", true);
    handle_publish(&mut publisher, publish("a", &[1], QosPid::Level0, false), &mut global).unwrap();
    assert!(global.outbox.is_empty());
}

#[test]
fn message_for_dropped_subscription_is_dropped() {
    let mut global = GlobalState::new(Config::default());
    let mut publisher = connected(&mut global, "pub", true);
    let mut sub = connected(&mut global, "sub", true);
    subscribe(&mut sub, &mut global, "t", QoS::Level1);
    handle_publish(&mut publisher, publish("t", &[1], QosPid::Level0, false), &mut global).unwrap();
    let packet = Unsubscribe { pid: pid(8), topics: vec![filter("t")] };
    handle_unsubscribe(&mut sub, &packet, &mut global);
    let results = deliver_all(&mut global, &mut [&mut sub]);
    assert_eq!(results.len(), 1);
    assert!(results[0].1.is_none());
}

#[test]
fn full_pending_queue_drops_acknowledged_deliveries() {
    let mut config = Config::default();
    config.max_inflight_client = 1;
    config.max_in_mem_pending_messages = 1;
    let mut global = GlobalState::new(config);
    let mut publisher = connected(&mut global, "pub", true);
    let mut sub = connected(&mut global, "sub", true);
    subscribe(&mut sub, &mut global, "t", QoS::Level1);
    for n in 1..=3u16 {
        handle_publish(&mut publisher, publish("t", &[n as u8], QosPid::Level1(pid(n)), false), &mut global).unwrap();
    }
    let results = deliver_all(&mut global, &mut [&mut sub]);
    assert!(matches!(&results[0].1, Some((QoS::Level1, Some(_)))));
    assert!(matches!(&results[1].1, Some((QoS::Level1, None))));
    assert!(results[2].1.is_none());
    assert_eq!(sub.pending_packets.len(), 2);
}

#[test]
fn server_packet_id_skips_ids_in_use() {
    let mut config = Config::default();
    config.max_inflight_client = 10;
    let mut global = GlobalState::new(config);
    let mut session = connected(&mut global, "s", true);
    session.server_packet_id = pid(65535);
    assert_eq!(session.incr_server_packet_id(), pid(65535));
    assert_eq!(session.server_packet_id, pid(1));
    let packet = || PubPacket {
        topic_name: name("t"),
        qos: QoS::Level1,
        retain: false,
        payload: Arc::new(vec![]),
    };
    session.pending_packets.push(pid(2), AckState::AwaitingAck, packet(), 0, None, 0, true).unwrap();
    session.pending_packets.push(pid(3), AckState::AwaitingAck, packet(), 0, None, 0, true).unwrap();
    assert_eq!(session.incr_server_packet_id(), pid(1));
    assert_eq!(session.server_packet_id, pid(4));
}

#[test]
fn handle_packet_dispatches() {
    let mut global = GlobalState::new(Config::default());
    let mut session = connected(&mut global, "s", true);
    let mut write: VecDeque<WritePacket<Packet>> = VecDeque::new();
    assert!(matches!(session.handle_packet(2, vec![], Packet::Pingreq, &mut write, &mut global), Ok(None)));
    assert!(matches!(write.pop_front(), Some(WritePacket::Packet(Packet::Pingresp))));
    let sub = Packet::Subscribe(Subscribe { pid: pid(2), topics: vec![(filter("t"), QoS::Level1)] });
    assert!(matches!(session.handle_packet(8, vec![], sub, &mut write, &mut global), Ok(None)));
    assert!(matches!(write.pop_front(), Some(WritePacket::Packet(Packet::Suback(_)))));
    let p = Packet::Publish(publish("t", &[1], QosPid::Level1(pid(3)), false));
    assert!(matches!(session.handle_packet(8, vec![], p, &mut write, &mut global), Ok(None)));
    assert!(matches!(write.pop_front(), Some(WritePacket::Packet(Packet::Puback(x))) if x == pid(3)));
    assert!(matches!(session.handle_packet(4, vec![], Packet::Pubrec(pid(1)), &mut write, &mut global), Ok(None)));
    assert!(matches!(write.pop_front(), Some(WritePacket::Packet(Packet::Pubrel(x))) if x == pid(1)));
    assert!(matches!(
        session.handle_packet(4, vec![], Packet::Pubrel(pid(1)), &mut write, &mut global),
        Err(Some(ErrorKind::InvalidData))
    ));
    let unsub = Packet::Unsubscribe(Unsubscribe { pid: pid(4), topics: vec![filter("t")] });
    assert!(matches!(session.handle_packet(8, vec![], unsub, &mut write, &mut global), Ok(None)));
    assert!(matches!(write.pop_front(), Some(WritePacket::Packet(Packet::Unsuback(x))) if x == pid(4)));
    assert!(matches!(
        session.handle_packet(2, vec![], Packet::Pingresp, &mut write, &mut global),
        Err(Some(ErrorKind::InvalidData))
    ));
    assert!(matches!(
        session.handle_packet(2, vec![], Packet::Connect(connect_packet("x", true)), &mut write, &mut global),
        Err(Some(ErrorKind::InvalidData))
    ));
    assert!(matches!(session.handle_packet(2, vec![], Packet::Disconnect, &mut write, &mut global), Ok(None)));
    assert!(session.disconnected());
    assert!(write.is_empty());
}

#[test]
fn handle_packet_rejects_oversized_packets() {
    let mut config = Config::default();
    config.max_packet_size_server = 100;
    let mut global = GlobalState::new(config);
    let mut session = connected(&mut global, "s", true);
    let mut write: VecDeque<WritePacket<Packet>> = VecDeque::new();
    assert!(matches!(session.handle_packet(100, vec![], Packet::Pingreq, &mut write, &mut global), Ok(None)));
    assert!(matches!(
        session.handle_packet(101, vec![], Packet::Pingreq, &mut write, &mut global),
        Err(Some(ErrorKind::InvalidData))
    ));
    assert_eq!(write.len(), 1);
}

#[test]
fn handle_packet_hands_packets_to_the_hook_when_enabled() {
    let mut config = Config::default();
    config.hook.enable_publish = true;
    config.hook.enable_subscribe = true;
    config.hook.enable_unsubscribe = true;
    let mut global = GlobalState::new(config);
    let mut session = connected(&mut global, "s", true);
    let mut write: VecDeque<WritePacket<Packet>> = VecDeque::new();
    let p = Packet::Publish(publish("t", &[1], QosPid::Level1(pid(3)), false));
    match session.handle_packet(9, vec![1, 2], p, &mut write, &mut global) {
        Ok(Some(PacketHook::Publish { encode_len, packet_body, publish })) => {
            assert_eq!(encode_len, 9);
            assert_eq!(packet_body, vec![1, 2]);
            assert_eq!(publish.topic_name.as_str(), "t");
        }
        _ => panic!("no hook"),
    }
    let sub = Packet::Subscribe(Subscribe { pid: pid(2), topics: vec![(filter("t"), QoS::Level1)] });
    assert!(matches!(
        session.handle_packet(8, vec![], sub, &mut write, &mut global),
        Ok(Some(PacketHook::Subscribe { .. }))
    ));
    let unsub = Packet::Unsubscribe(Unsubscribe { pid: pid(4), topics: vec![filter("t")] });
    assert!(matches!(
        session.handle_packet(8, vec![], unsub, &mut write, &mut global),
        Ok(Some(PacketHook::Unsubscribe { .. }))
    ));
    assert!(write.is_empty());
    assert_eq!(session.subscribes().len(), 0);
    assert!(global.outbox.is_empty());
}

#[test]
fn after_handle_packet_queues_due_transmissions() {
    let mut config = Config::default();
    config.inflight_timeout = 10;
    let mut global = GlobalState::new(config);
    let mut publisher = connected(&mut global, "pub", true);
    let mut sub = connected(&mut global, "sub", true);
    subscribe(&mut sub, &mut global, "t", QoS::Level2);
    handle_publish(&mut publisher, publish("t", &[1], QosPid::Level1(pid(3)), false), &mut global).unwrap();
    handle_publish(&mut publisher, publish("t", &[2], QosPid::Level2(pid(4)), false), &mut global).unwrap();
    deliver_all(&mut global, &mut [&mut sub]);
    let mut write: VecDeque<WritePacket<Packet>> = VecDeque::new();
    sub.after_handle_packet(&mut write);
    assert!(write.is_empty());
    handle_pubrec(&mut sub, pid(2));
    sub.touch(1010);
    sub.after_handle_packet(&mut write);
    assert_eq!(write.len(), 2);
    match write.pop_front() {
        Some(WritePacket::Packet(Packet::Publish(p))) => {
            assert!(p.dup);
            assert_eq!(p.qos_pid, QosPid::Level1(pid(1)));
        }
        _ => panic!("no publish"),
    }
    assert!(matches!(write.pop_front(), Some(WritePacket::Packet(Packet::Pubrel(x))) if x == pid(2)));
    assert!(sub.handle_pendings().is_empty());
    assert!(sub.abandoned.is_empty());
}

#[test]
fn control_messages() {
    let mut global = GlobalState::new(Config::default());
    let mut session = connected(&mut global, "s", true);
    assert_eq!(handle_control(&mut session, ControlMessage::OnlineV3 { sender: 5 }, &global.config), (false, Some(5)));
    assert_eq!(handle_control(&mut session, ControlMessage::OnlineV5 { sender: 5 }, &global.config), (false, None));
    let kick = || ControlMessage::Kick { reason: Arc::new("bye".to_string()) };
    assert_eq!(handle_control(&mut session, kick(), &global.config), (true, None));
    handle_disconnect(&mut session);
    assert_eq!(handle_control(&mut session, kick(), &global.config), (false, None));
    assert_eq!(session.handle_control(ControlMessage::OnlineV3 { sender: 6 }, &global), (false, Some(6)));
    let timer = ControlMessage::WillDelayReached { connected_time: 1 };
    assert_eq!(handle_control(&mut session, timer, &global.config), (false, None));
    let timer = ControlMessage::SessionExpired { connected_time: 1 };
    assert_eq!(handle_control(&mut session, timer, &global.config), (false, None));
}

#[test]
fn takeover_across_versions_needs_the_option() {
    let mut config = Config::default();
    config.allow_cross_version_takeover = true;
    let mut global = GlobalState::new(config);
    let mut session = connected(&mut global, "s", false);
    assert_eq!(handle_control(&mut session, ControlMessage::OnlineV5 { sender: 5 }, &global.config), (false, Some(5)));
    let receiver = ClientReceiver { control: 1, normal: 2 };
    subscribe(&mut session, &mut global, "t", QoS::Level1);
    let step = handle_offline(
        &mut session,
        receiver,
        OfflineEvent::Control(ControlMessage::OnlineV5 { sender: 8 }),
        &mut global,
    );
    let state = match step {
        OfflineStep::HandOver { sender, state } => {
            assert_eq!(sender, 8);
            state
        }
        _ => panic!("no hand over"),
    };
    let state = akasa_core::v5::connect::from_v3_state(state);
    assert_eq!(state.subscribes.len(), 1);
    assert_eq!(state.client_id, session.client_id);
    assert_eq!(global.clients_count(), 1);
}

#[test]
fn offline_loop_steps() {
    let mut global = GlobalState::new(Config::default());
    let mut session = connected(&mut global, "s", false);
    let receiver = ClientReceiver { control: 1, normal: 2 };
    assert!(matches!(handle_offline(&mut session, receiver, OfflineEvent::ControlClosed, &mut global), OfflineStep::Stop));
    assert!(matches!(handle_offline(&mut session, receiver, OfflineEvent::NormalClosed, &mut global), OfflineStep::Stop));
    let kick = ControlMessage::Kick { reason: Arc::new("bye".to_string()) };
    assert!(matches!(handle_offline(&mut session, receiver, OfflineEvent::Control(kick), &mut global), OfflineStep::Stop));
    let ignored = ControlMessage::OnlineV5 { sender: 1 };
    assert!(matches!(handle_offline(&mut session, receiver, OfflineEvent::Control(ignored), &mut global), OfflineStep::Continue));
}

#[test]
fn offline_session_that_ends_is_forgotten() {
    let mut global = GlobalState::new(Config::default());
    let mut session = connected(&mut global, "s", false);
    let mut other = connected(&mut global, "o", false);
    subscribe(&mut session, &mut global, "a", QoS::Level1);
    subscribe(&mut session, &mut global, "b", QoS::Level0);
    subscribe(&mut other, &mut global, "a", QoS::Level0);
    let receiver = ClientReceiver { control: 1, normal: 2 };
    let ignored = ControlMessage::OnlineV5 { sender: 1 };
    assert!(matches!(handle_offline(&mut session, receiver, OfflineEvent::Control(ignored), &mut global), OfflineStep::Continue));
    assert_eq!(global.clients_count(), 2);
    assert_eq!(global.route_table.len(), 3);
    let kick = ControlMessage::Kick { reason: Arc::new("bye".to_string()) };
    assert!(matches!(handle_offline(&mut session, receiver, OfflineEvent::Control(kick), &mut global), OfflineStep::Stop));
    assert_eq!(global.clients_count(), 1);
    assert_eq!(global.route_table.len(), 1);
    assert!(matches!(handle_offline(&mut other, receiver, OfflineEvent::NormalClosed, &mut global), OfflineStep::Stop));
    assert_eq!(global.clients_count(), 0);
    assert_eq!(global.route_table.len(), 0);
}

#[test]
fn will_is_published_on_abnormal_end_only() {
    let mut global = GlobalState::new(Config::default());
    let mut watcher = connected(&mut global, "watcher", true);
    subscribe(&mut watcher, &mut global, "will/#", QoS::Level1);
    let will = || LastWill { qos: QoS::Level1, retain: false, topic_name: name("will/a"), message: Arc::new(vec![0xdd]) };

    let mut a = connected(&mut global, "a", true);
    a.last_will = Some(will());
    let receiver = ClientReceiver { control: 1, normal: 2 };
    let exit = finish_online(a, receiver, false, Some(ErrorKind::UnexpectedEof), &mut global).unwrap();
    assert_eq!(exit.error, Some(ErrorKind::UnexpectedEof));
    assert!(exit.offline.is_none());
    assert_eq!(global.outbox.len(), 1);
    match &global.outbox[0].message {
        NormalMessage::PublishV3 { topic_name, payload, qos, encode_len, .. } => {
            assert_eq!(topic_name.as_str(), "will/a");
            assert_eq!(**payload, vec![0xdd]);
            assert_eq!(*qos, QoS::Level1);
            // 2 header bytes, 2 + 6 topic bytes, 2 pid bytes, 1 payload byte
            assert_eq!(*encode_len, 13);
        }
        _ => panic!("no v3 publish"),
    }
    global.take_outbox();

    let mut b = connected(&mut global, "b", true);
    b.last_will = Some(will());
    handle_disconnect(&mut b);
    assert!(finish_online(b, receiver, false, None, &mut global).is_ok());
    assert!(global.outbox.is_empty());

    let mut c = connected(&mut global, "c", true);
    c.last_will = Some(will());
    let exit = finish_online(c, receiver, true, None, &mut global).unwrap();
    assert!(exit.offline.is_none());
    assert!(global.outbox.is_empty());
    assert_eq!(global.clients_count(), 2);

    let mut d = connected(&mut global, "d", true);
    assert!(handle_will(&mut d, &mut global).is_ok());
    assert!(global.outbox.is_empty());
    d.last_will = Some(will());
    assert!(handle_will(&mut d, &mut global).is_ok());
    assert!(d.last_will.is_none());
    assert_eq!(global.outbox.len(), 1);
}

#[test]
fn finish_online_hands_out_the_broadcast_queue() {
    let mut global = GlobalState::new(Config::default());
    let mut session = connected(&mut global, "s", true);
    let msg = |n: u8| NormalMessage::PublishV3 {
        topic_name: name("t"),
        qos: QoS::Level1,
        retain: false,
        payload: Arc::new(vec![n]),
        subscribe_filter: filter("t"),
        subscribe_qos: QoS::Level1,
        encode_len: 5,
    };
    let max = session.broadcast_packets_max;
    assert!(matches!(
        queue_broadcast(&mut session.broadcast_packets, &mut session.broadcast_packets_cnt, max, 7, msg(1)),
        BroadcastOutcome::Queued
    ));
    assert!(matches!(
        queue_broadcast(&mut session.broadcast_packets, &mut session.broadcast_packets_cnt, max, 8, msg(2)),
        BroadcastOutcome::Queued
    ));
    assert!(matches!(
        queue_broadcast(&mut session.broadcast_packets, &mut session.broadcast_packets_cnt, max, 7, msg(3)),
        BroadcastOutcome::Queued
    ));
    assert_eq!(session.broadcast_packets_cnt(), 3);
    session.consume_broadcast(1);
    assert_eq!(session.broadcast_packets_cnt(), 2);
    assert_eq!(session.broadcast_packets().take(9).len(), 0);
    let exit = finish_online(
        session,
        ClientReceiver { control: 1, normal: 2 },
        false,
        Some(ErrorKind::UnexpectedEof),
        &mut global,
    )
    .unwrap();
    let mut targets: Vec<(u64, usize)> = exit.broadcast.iter().map(|(t, msgs)| (*t, msgs.len())).collect();
    targets.sort();
    assert_eq!(targets, vec![(7, 2), (8, 1)]);
    let for_seven = exit.broadcast.iter().find(|(t, _)| *t == 7).unwrap();
    let payloads: Vec<u8> = for_seven
        .1
        .iter()
        .map(|m| match m {
            NormalMessage::PublishV3 { payload, .. } => payload[0],
            _ => panic!("no v3 publish"),
        })
        .collect();
    assert_eq!(payloads, vec![1, 3]);
    assert_eq!(exit.error, Some(ErrorKind::UnexpectedEof));
    assert!(exit.offline.is_none());
    assert_eq!(global.clients_count(), 0);
}

#[test]
fn broadcast_queue_is_bounded() {
    let msg = |qos: QoS| NormalMessage::PublishV3 {
        topic_name: name("t"),
        qos,
        retain: false,
        payload: Arc::new(vec![]),
        subscribe_filter: filter("t"),
        subscribe_qos: QoS::Level1,
        encode_len: 5,
    };
    let mut queue = akasa_core::collections::BroadcastPackets::new();
    let mut cnt = 0usize;
    assert!(matches!(queue_broadcast(&mut queue, &mut cnt, 1, 3, msg(QoS::Level0)), BroadcastOutcome::Queued));
    assert_eq!(cnt, 1);
    assert!(matches!(queue_broadcast(&mut queue, &mut cnt, 1, 3, msg(QoS::Level0)), BroadcastOutcome::Dropped));
    assert!(matches!(queue_broadcast(&mut queue, &mut cnt, 1, 3, msg(QoS::Level1)), BroadcastOutcome::Blocked(_)));
    assert!(matches!(queue_broadcast(&mut queue, &mut cnt, 1, 3, msg(QoS::Level2)), BroadcastOutcome::Blocked(_)));
    assert_eq!(cnt, 1);
    assert_eq!(queue.take(3).len(), 1);
    assert_eq!(queue.drain().len(), 0);
}

#[test]
fn decode_errors_end_the_connection() {
    assert_eq!(decode_error(true, false), Err(Some(ErrorKind::UnexpectedEof)));
    assert_eq!(decode_error(true, true), Err(None));
    assert_eq!(decode_error(false, false), Err(Some(ErrorKind::InvalidData)));
    assert_eq!(decode_error(false, true), Err(Some(ErrorKind::InvalidData)));

    let mut global = GlobalState::new(Config::default());
    let mut session = connected(&mut global, "s", true);
    let mut write: VecDeque<WritePacket<Packet>> = VecDeque::new();
    let eof = mqtt_proto::Error::IoError(std::io::ErrorKind::UnexpectedEof, String::new());
    assert_eq!(session.handle_decode_error(eof.clone(), &mut write), Err(Some(ErrorKind::UnexpectedEof)));
    assert_eq!(
        session.handle_decode_error(mqtt_proto::Error::InvalidHeader, &mut write),
        Err(Some(ErrorKind::InvalidData))
    );
    let other = mqtt_proto::Error::IoError(std::io::ErrorKind::BrokenPipe, String::new());
    assert_eq!(session.handle_decode_error(other, &mut write), Err(Some(ErrorKind::InvalidData)));
    handle_disconnect(&mut session);
    assert_eq!(session.handle_decode_error(eof, &mut write), Err(None));
}

#[test]
fn before_connect_hook_decisions() {
    assert_eq!(before_connect_hook(HookReply::Answer(Ok(HookConnectCode::Success))), Ok(()));
    assert_eq!(
        before_connect_hook(HookReply::Answer(Ok(HookConnectCode::NotAuthorized))),
        Err(ErrorKind::InvalidData)
    );
    assert_eq!(
        before_connect_hook(HookReply::Answer(Ok(HookConnectCode::ServerUnavailable))),
        Err(ErrorKind::InvalidData)
    );
    assert_eq!(before_connect_hook(HookReply::Answer(Err(ErrorKind::TimedOut))), Err(ErrorKind::TimedOut));
    assert_eq!(before_connect_hook(HookReply::NoService), Err(ErrorKind::InvalidData));
    assert_eq!(before_connect_hook(HookReply::Stopped), Err(ErrorKind::InvalidData));
}

#[test]
fn after_connect_hook_applies_actions_in_order() {
    let mut global = GlobalState::new(Config::default());
    let mut publisher = connected(&mut global, "pub", true);
    handle_publish(&mut publisher, publish("news", &[1], QosPid::Level0, true), &mut global).unwrap();
    let mut session = connected(&mut global, "s", true);
    subscribe(&mut session, &mut global, "old", QoS::Level0);
    global.take_outbox();
    let actions = vec![
        HookConnectedAction::Subscribe(SubscribeAction(vec![(filter("news"), QoS::Level1)])),
        HookConnectedAction::Publish(PublishAction {
            retain: false,
            qos: QoS::Level1,
            topic_name: name("news"),
            payload: Arc::new(vec![2]),
            payload_is_utf8: None,
            message_expiry_interval: None,
            content_type: None,
        }),
        HookConnectedAction::Unsubscribe(UnsubscribeAction(vec![filter("old")])),
    ];
    assert_eq!(after_connect_hook(&mut session, HookReply::Answer(Ok(actions)), &mut global), Ok(()));
    assert!(session.subscribes().contains(&filter("news")));
    assert!(!session.subscribes().contains(&filter("old")));
    // the retained message is not delivered for a subscription that the hook made
    assert_eq!(global.outbox.len(), 1);
    assert_eq!(global.outbox[0].receiver, session.client_id);
    assert_eq!(global.outbox[0].sender, session.client_id);
    match &global.outbox[0].message {
        NormalMessage::PublishV3 { payload, encode_len, .. } => {
            assert_eq!(**payload, vec![2]);
            assert_eq!(*encode_len, 2 + 2 + 4 + 2 + 1);
        }
        _ => panic!("no v3 publish"),
    }
}

#[test]
fn after_connect_hook_failures() {
    let mut global = GlobalState::new(Config::default());
    let mut session = connected(&mut global, "s", true);
    assert_eq!(after_connect_hook(&mut session, HookReply::NoService, &mut global), Err(ErrorKind::InvalidData));
    assert_eq!(after_connect_hook(&mut session, HookReply::Stopped, &mut global), Err(ErrorKind::InvalidData));
    assert_eq!(
        after_connect_hook(&mut session, HookReply::Answer(Err(ErrorKind::Other)), &mut global),
        Err(ErrorKind::Other)
    );
    assert_eq!(after_connect_hook(&mut session, HookReply::Answer(Ok(vec![])), &mut global), Ok(()));
}

#[test]
fn fingerprint_decides_about_a_repeated_identifier() {
    let mut global = GlobalState::new(Config::default());
    let mut publisher = connected(&mut global, "pub", true);
    let mut sub = connected(&mut global, "sub", true);
    subscribe(&mut sub, &mut global, "t", QoS::Level2);
    let packet = || publish("t", &[1], QosPid::Level2(pid(5)), false);
    let first = akasa_core::v3::publish::handle_publish_with(&mut publisher, packet(), 7, &mut global);
    assert!(matches!(first, Ok(Some(Packet::Pubrec(p))) if p == pid(5)));
    assert_eq!(publisher.qos2_pids.get(5), Some(7));
    assert_eq!(global.outbox.len(), 1);
    let again = akasa_core::v3::publish::handle_publish_with(&mut publisher, packet(), 7, &mut global);
    assert!(matches!(again, Ok(Some(Packet::Pubrec(p))) if p == pid(5)));
    assert_eq!(global.outbox.len(), 1);
    let other = akasa_core::v3::publish::handle_publish_with(&mut publisher, packet(), 8, &mut global);
    assert_eq!(other.err(), Some(ErrorKind::InvalidData));
    assert_eq!(publisher.qos2_pids.get(5), Some(7));
    assert_eq!(global.outbox.len(), 1);
}
