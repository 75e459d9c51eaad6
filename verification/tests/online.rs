use std::sync::Arc;

use akasa_core::config::Config;
use akasa_core::online::keep_alive_deadline;
use akasa_core::online::keep_alive_expired;
use akasa_core::online::poll_step;
use akasa_core::online::OnlineStep;
use akasa_core::online::Ready;
use akasa_core::state::AddClientReceipt;
use akasa_core::state::ClientReceiver;
use akasa_core::state::ControlMessage;
use akasa_core::state::GlobalState;
use akasa_core::state::NormalMessage;
use akasa_core::topic::TopicFilter;
use akasa_core::topic::TopicName;
use akasa_core::types::IpAddr;
use akasa_core::types::PeerAddr;
use akasa_core::types::Pid;
use akasa_core::types::Protocol;
use akasa_core::types::QoS;
use akasa_core::v3::connect::Takeover;
use akasa_core::v5::connect::adopt_state;
use akasa_core::v5::connect::handle_connect;
use akasa_core::v5::message::handle_offline;
use akasa_core::v5::message::OfflineEvent;
use akasa_core::v5::message::OfflineStep;
use akasa_core::v5::packet::Connect;
use akasa_core::v5::packet::ConnectProperties;
use akasa_core::v5::packet::Subscribe;
use akasa_core::v5::session::Session;
use akasa_core::v5::subscribe::handle_subscribe;
use akasa_core::v5::types::ConnectReasonCode;
use akasa_core::v5::types::PublishProperties;
use akasa_core::v5::types::SubscriptionOptions;

fn idle() -> Ready {
    Ready {
        hook_outstanding: false,
        hook_replied: false,
        write_pending: false,
        writable: false,
        tick_due: false,
        control: false,
        normal: false,
        readable: false,
        broadcast_full: false,
    }
}

fn everything() -> Ready {
    Ready {
        hook_outstanding: false,
        hook_replied: false,
        write_pending: true,
        writable: true,
        tick_due: true,
        control: true,
        normal: true,
        readable: true,
        broadcast_full: false,
    }
}

#[test]
fn loop_polls_in_priority_order() {
    assert_eq!(poll_step(idle()), OnlineStep::Wait);
    let mut ready = everything();
    assert_eq!(poll_step(ready), OnlineStep::Flush);
    ready.writable = false;
    assert_eq!(poll_step(ready), OnlineStep::Tick);
    ready.tick_due = false;
    assert_eq!(poll_step(ready), OnlineStep::Control);
    ready.control = false;
    assert_eq!(poll_step(ready), OnlineStep::Normal);
    ready.normal = false;
    assert_eq!(poll_step(ready), OnlineStep::Read);
    ready.broadcast_full = true;
    assert_eq!(poll_step(ready), OnlineStep::Wait);
    ready.readable = false;
    ready.broadcast_full = false;
    assert_eq!(poll_step(ready), OnlineStep::Wait);
}

#[test]
fn loop_waits_for_the_hook_before_anything_else() {
    let mut ready = everything();
    ready.hook_outstanding = true;
    assert_eq!(poll_step(ready), OnlineStep::Wait);
    ready.hook_replied = true;
    assert_eq!(poll_step(ready), OnlineStep::HookReply);
    ready.hook_outstanding = false;
    assert_eq!(poll_step(ready), OnlineStep::Flush);
}

#[test]
fn keep_alive_allows_one_and_a_half_intervals() {
    assert_eq!(keep_alive_deadline(100, 0), None);
    assert_eq!(keep_alive_deadline(100, 10), Some(115));
    assert_eq!(keep_alive_deadline(100, 1), Some(102));
    assert_eq!(keep_alive_deadline(100, 3), Some(105));
    assert_eq!(keep_alive_deadline(0, 65535), Some(98303));
    assert_eq!(keep_alive_deadline(u64::MAX - 5, 10), Some(u64::MAX));
    assert!(!keep_alive_expired(100, 10, 115));
    assert!(keep_alive_expired(100, 10, 116));
    assert!(!keep_alive_expired(100, 0, u64::MAX));
}

fn peer() -> PeerAddr {
    PeerAddr { ip: IpAddr::V4(9), port: 9 }
}

fn connect(id: &str, clean_start: bool) -> Connect {
    Connect {
        protocol: Protocol::V500,
        clean_start,
        keep_alive: 60,
        properties: ConnectProperties {
            session_expiry_interval: None,
            receive_max: None,
            max_packet_size: None,
            topic_alias_max: None,
            request_response_info: None,
            request_problem_info: None,
            user_properties: Vec::new(),
            auth_method: None,
        },
        client_id: Arc::new(id.to_string()),
        last_will: None,
        username: None,
        password: None,
    }
}

#[test]
fn v5_connect_fills_the_session_and_offers_the_limits() {
    let mut config = Config::default();
    config.max_keep_alive = 30;
    config.max_inflight_client = 8;
    config.max_inflight_server = 6;
    config.max_allowed_qos = QoS::Level1;
    config.topic_alias_max = 12;
    let mut global = GlobalState::new(config);
    let mut session = Session::new(&global.config, peer(), 777);
    let mut packet = connect("five", true);
    packet.properties.session_expiry_interval = Some(100);
    packet.properties.receive_max = Some(5);
    packet.properties.max_packet_size = Some(2048);
    packet.properties.topic_alias_max = Some(3);
    packet.properties.request_response_info = Some(true);
    packet.username = Some(Arc::new("u".to_string()));
    let outcome = handle_connect(&mut session, packet, &Arc::new("gen".to_string()), &mut global);
    assert_eq!(outcome.code, ConnectReasonCode::Success);
    assert!(!outcome.session_present);
    assert_eq!(outcome.takeover, None);
    assert!(session.connected);
    assert_eq!(session.connected_time(), Some(777));
    assert_eq!(session.client_id(), 0);
    assert_eq!(session.client_identifier().as_str(), "five");
    assert!(!session.assigned_client_id());
    assert_eq!(session.username().unwrap().as_str(), "u");
    assert_eq!(session.keep_alive(), 30);
    assert!(session.server_keep_alive);
    assert!(session.clean_start());
    assert_eq!(session.session_expiry_interval(), 100);
    assert_eq!(session.receive_max(), 5);
    assert_eq!(session.pending_packets.max_inflight(), 5);
    assert_eq!(session.max_packet_size(), 2048);
    assert_eq!(session.topic_alias_max, 3);
    assert!(session.request_response_info);
    assert!(session.request_problem_info);
    let properties = outcome.properties.unwrap();
    assert_eq!(properties.receive_max, Some(6));
    assert_eq!(properties.max_qos, Some(QoS::Level1));
    assert_eq!(properties.retain_available, Some(true));
    assert_eq!(properties.topic_alias_max, Some(12));
    assert_eq!(properties.server_keep_alive, Some(30));
    assert_eq!(properties.assigned_client_id, None);
    assert_eq!(properties.shared_subscription_available, Some(true));
    assert_eq!(properties.subscription_id_available, Some(true));
    assert_eq!(properties.wildcard_subscription_available, Some(true));
    assert_eq!(properties.max_packet_size, Some(268435455));
    assert_eq!(properties.session_expiry_interval, None);
    assert_eq!(global.online_clients_count(), 1);
}

#[test]
fn v5_connect_assigns_an_identifier() {
    let mut global = GlobalState::new(Config::default());
    let mut session = Session::new(&global.config, peer(), 0);
    let outcome = handle_connect(&mut session, connect("", true), &Arc::new("gen-7".to_string()), &mut global);
    assert_eq!(outcome.code, ConnectReasonCode::Success);
    assert!(session.assigned_client_id());
    assert_eq!(session.client_identifier().as_str(), "gen-7");
    let properties = outcome.properties.unwrap();
    assert_eq!(properties.assigned_client_id.unwrap().as_str(), "gen-7");
    assert_eq!(properties.server_keep_alive, None);
    assert_eq!(properties.max_qos, None);
    assert_eq!(session.keep_alive(), 60);
    assert_eq!(session.receive_max(), 65535);
    assert_eq!(session.pending_packets.max_inflight(), 10);
}

#[test]
fn v5_connect_refusals() {
    let mut config = Config::default();
    config.allow_anonymous = false;
    let mut global = GlobalState::new(config);
    let fallback = Arc::new("gen".to_string());
    let mut session = Session::new(&global.config, peer(), 0);
    let mut old = connect("a", true);
    old.protocol = Protocol::V311;
    old.username = Some(Arc::new("u".to_string()));
    assert_eq!(
        handle_connect(&mut session, old, &fallback, &mut global).code,
        ConnectReasonCode::UnsupportedProtocolVersion
    );
    let mut auth = connect("a", true);
    auth.properties.auth_method = Some(Arc::new("SCRAM-SHA-256".to_string()));
    assert_eq!(handle_connect(&mut session, auth, &fallback, &mut global).code, ConnectReasonCode::BadAuthMethod);
    assert_eq!(
        handle_connect(&mut session, connect("a", true), &fallback, &mut global).code,
        ConnectReasonCode::BadUserNameOrPassword
    );
    let named = |id: &str, clean: bool| {
        let mut packet = connect(id, clean);
        packet.username = Some(Arc::new("u".to_string()));
        packet
    };
    let mut zero = named("a", true);
    zero.properties.receive_max = Some(0);
    assert_eq!(handle_connect(&mut session, zero, &fallback, &mut global).code, ConnectReasonCode::ProtocolError);
    let mut zero = named("a", true);
    zero.properties.max_packet_size = Some(0);
    assert_eq!(handle_connect(&mut session, zero, &fallback, &mut global).code, ConnectReasonCode::ProtocolError);
    let outcome = handle_connect(&mut session, named("", false), &fallback, &mut global);
    assert_eq!(outcome.code, ConnectReasonCode::ClientIdentifierNotValid);
    assert!(outcome.properties.is_none());
    assert!(!session.connected);
    assert_eq!(global.clients_count(), 0);
    // the identifier belongs to a session of the other protocol family
    assert_eq!(
        global.add_client(&Arc::new("three".to_string()), Protocol::V311),
        AddClientReceipt::New { client_id: 0 }
    );
    assert_eq!(
        handle_connect(&mut session, named("three", true), &fallback, &mut global).code,
        ConnectReasonCode::UnspecifiedError
    );
}

#[test]
fn v5_connect_takes_a_session_over() {
    let mut global = GlobalState::new(Config::default());
    let fallback = Arc::new("gen".to_string());
    let mut first = Session::new(&global.config, peer(), 0);
    handle_connect(&mut first, connect("X", false), &fallback, &mut global);
    let packet = Subscribe {
        pid: Pid::try_from(1).unwrap(),
        subscription_id: None,
        topics: vec![(TopicFilter::try_from("t".to_string()).unwrap(), SubscriptionOptions::new(QoS::Level1))],
    };
    assert!(handle_subscribe(&mut first, &packet, &mut global).is_ok());
    let mut second = Session::new(&global.config, peer(), 10);
    let outcome = handle_connect(&mut second, connect("X", false), &fallback, &mut global);
    assert_eq!(outcome.code, ConnectReasonCode::Success);
    assert!(outcome.session_present);
    assert_eq!(outcome.takeover, Some(Takeover { client_id: first.client_id, online: true }));
    assert_eq!(second.client_id, first.client_id);
    assert_eq!(global.clients_count(), 1);
    assert_eq!(global.route_table.len(), 1);
    // a clean start wipes what the old session subscribed to
    let mut third = Session::new(&global.config, peer(), 20);
    let outcome = handle_connect(&mut third, connect("X", true), &fallback, &mut global);
    assert!(!outcome.session_present);
    assert!(outcome.takeover.is_some());
    assert_eq!(global.route_table.len(), 0);
    assert_eq!(global.clients_count(), 1);
}

#[test]
fn v5_offline_loop_steps() {
    let mut global = GlobalState::new(Config::default());
    let fallback = Arc::new("gen".to_string());
    let mut session = Session::new(&global.config, peer(), 50);
    let mut packet = connect("X", false);
    packet.properties.session_expiry_interval = Some(60);
    handle_connect(&mut session, packet, &fallback, &mut global);
    let filter = TopicFilter::try_from("t".to_string()).unwrap();
    let subscribe = Subscribe {
        pid: Pid::try_from(1).unwrap(),
        subscription_id: None,
        topics: vec![(filter.clone(), SubscriptionOptions::new(QoS::Level1))],
    };
    assert!(handle_subscribe(&mut session, &subscribe, &mut global).is_ok());
    session.connected = false;
    let receiver = ClientReceiver { control: 1, normal: 2 };
    let msg = NormalMessage::PublishV5 {
        topic_name: TopicName::try_from("t".to_string()).unwrap(),
        qos: QoS::Level1,
        retain: false,
        payload: Arc::new(vec![1]),
        subscribe_filter: filter,
        subscribe_qos: QoS::Level1,
        properties: PublishProperties::default(),
        encode_len: 9,
        expiry: None,
    };
    let step = handle_offline(&mut session, receiver, OfflineEvent::Normal { sender: 4, msg }, &mut global);
    assert!(matches!(step, OfflineStep::Continue));
    assert_eq!(session.pending_packets.len(), 1);
    let stale = ControlMessage::SessionExpired { connected_time: 49 };
    assert!(matches!(
        handle_offline(&mut session, receiver, OfflineEvent::Control(stale), &mut global),
        OfflineStep::Continue
    ));
    assert_eq!(global.clients_count(), 1);
    assert!(matches!(
        handle_offline(&mut session, receiver, OfflineEvent::NormalClosed, &mut global),
        OfflineStep::Stop
    ));
    assert_eq!(global.clients_count(), 0);
    assert_eq!(global.route_table.len(), 0);
    let takeover = ControlMessage::OnlineV5 { sender: 31 };
    match handle_offline(&mut session, receiver, OfflineEvent::Control(takeover), &mut global) {
        OfflineStep::HandOver { sender, state } => {
            assert_eq!(sender, 31);
            assert_eq!(state.pending_packets.len(), 1);
            assert_eq!(state.receiver, receiver);
            assert!(matches!(state.pending_packets.get(0).unwrap().packet.qos, QoS::Level1));
            let mut next = Session::new(&global.config, peer(), 90);
            adopt_state(&mut next, state);
            assert_eq!(next.pending_packets.len(), 1);
            assert_eq!(next.pending_packets.get(0).unwrap().last_sent, None);
            assert!(!next.pending_packets.get(0).unwrap().dup);
            assert_eq!(next.server_packet_id.value(), 2);
            assert_eq!(next.subscribes().len(), 1);
        }
        _ => panic!("no hand over"),
    }
    assert_eq!(session.pending_packets.len(), 0);
    let expired = ControlMessage::SessionExpired { connected_time: 50 };
    assert!(matches!(
        handle_offline(&mut session, receiver, OfflineEvent::Control(expired), &mut global),
        OfflineStep::Stop
    ));
}
