use std::sync::Arc;

use akasa_core::config::Config;
use akasa_core::state::GlobalState;
use akasa_core::state::NormalMessage;
use akasa_core::topic::TopicFilter;
use akasa_core::topic::TopicName;
use akasa_core::types::IpAddr;
use akasa_core::types::PeerAddr;
use akasa_core::types::Pid;
use akasa_core::types::Protocol;
use akasa_core::types::QoS;
use akasa_core::types::QosPid;
use akasa_core::v3::connect::handle_connect;
use akasa_core::v3::packet::Connect;
use akasa_core::v3::packet::Publish;
use akasa_core::v3::packet::Subscribe;
use akasa_core::v3::publish::handle_publish;
use akasa_core::v3::session::Session;
use akasa_core::v3::subscribe::handle_subscribe;

fn codec_publish(qos_pid: mqtt_proto::QosPid, topic: &str, payload: Vec<u8>, retain: bool) -> mqtt_proto::v3::Packet {
    mqtt_proto::v3::Packet::Publish(mqtt_proto::v3::Publish {
        dup: false,
        retain,
        qos_pid,
        topic_name: mqtt_proto::TopicName::try_from(topic.to_string()).unwrap(),
        payload: bytes::Bytes::from(payload),
    })
}

#[test]
fn decode_after_encode_is_the_identity() {
    let pid = mqtt_proto::Pid::try_from(10).unwrap();
    let packets = vec![
        mqtt_proto::v3::Packet::Pingreq,
        mqtt_proto::v3::Packet::Pingresp,
        mqtt_proto::v3::Packet::Disconnect,
        mqtt_proto::v3::Packet::Puback(pid),
        mqtt_proto::v3::Packet::Pubrec(pid),
        mqtt_proto::v3::Packet::Pubrel(pid),
        mqtt_proto::v3::Packet::Pubcomp(pid),
        mqtt_proto::v3::Packet::Unsuback(pid),
        codec_publish(mqtt_proto::QosPid::Level0, "a/b", vec![1, 2, 3], false),
        codec_publish(mqtt_proto::QosPid::Level1(pid), "t", vec![], true),
        codec_publish(mqtt_proto::QosPid::Level2(pid), "x/y/z", vec![0; 300], false),
    ];
    for packet in packets {
        let bytes = packet.encode().unwrap();
        assert_eq!(bytes.as_ref().len(), packet.encode_len().unwrap());
        assert_eq!(mqtt_proto::v3::Packet::decode(bytes.as_ref()).unwrap(), Some(packet));
    }
}

#[test]
fn routed_encode_len_is_the_codecs() {
    let mut global = GlobalState::new(Config::default());
    let connect = |id: &str| Connect {
        protocol: Protocol::V311,
        clean_session: true,
        keep_alive: 0,
        client_id: Arc::new(id.to_string()),
        last_will: None,
        username: None,
        password: None,
    };
    let peer = PeerAddr { ip: IpAddr::V4(0), port: 0 };
    let fallback = Arc::new("g".to_string());
    let mut publisher = Session::new(&global.config, peer, 0);
    handle_connect(&mut publisher, connect("pub"), &fallback, &mut global);
    let mut subscriber = Session::new(&global.config, peer, 0);
    handle_connect(&mut subscriber, connect("sub"), &fallback, &mut global);
    let filter = TopicFilter::try_from("#".to_string()).unwrap();
    let packet = Subscribe { pid: Pid::try_from(1).unwrap(), topics: vec![(filter, QoS::Level2)] };
    handle_subscribe(&mut subscriber, &packet, &mut global).unwrap();

    let cases: Vec<(QosPid, mqtt_proto::QosPid, &str, usize)> = vec![
        (QosPid::Level0, mqtt_proto::QosPid::Level0, "a", 0),
        (QosPid::Level0, mqtt_proto::QosPid::Level0, "a/b", 123),
        (QosPid::Level1(Pid::try_from(2).unwrap()), mqtt_proto::QosPid::Level1(mqtt_proto::Pid::default()), "a/b", 124),
        (QosPid::Level2(Pid::try_from(3).unwrap()), mqtt_proto::QosPid::Level2(mqtt_proto::Pid::default()), "t", 20000),
        (QosPid::Level0, mqtt_proto::QosPid::Level0, "\u{4f60}\u{597d}", 3_000_000),
    ];
    for (qos_pid, codec_qos_pid, topic, len) in cases {
        let publish = Publish {
            dup: false,
            retain: false,
            qos_pid,
            topic_name: TopicName::try_from(topic.to_string()).unwrap(),
            payload: Arc::new(vec![0; len]),
        };
        handle_publish(&mut publisher, publish, &mut global).unwrap();
        let expected = codec_publish(codec_qos_pid, topic, vec![0; len], false).encode_len().unwrap();
        match global.take_outbox().pop().unwrap().message {
            NormalMessage::PublishV3 { encode_len, .. } => assert_eq!(encode_len, expected),
            _ => panic!("no v3 publish"),
        }
    }
    // one byte for the type, the remaining length in 1 to 4 bytes, then the body
    assert_eq!(codec_publish(mqtt_proto::QosPid::Level0, "a", vec![], false).encode_len().unwrap(), 2 + 3);
    assert_eq!(codec_publish(mqtt_proto::QosPid::Level0, "a", vec![0; 125], false).encode_len().unwrap(), 3 + 128);
}

#[test]
fn publish_too_long_to_encode_is_refused() {
    let mut global = GlobalState::new(Config::default());
    let peer = PeerAddr { ip: IpAddr::V4(0), port: 0 };
    let mut publisher = Session::new(&global.config, peer, 0);
    let connect = Connect {
        protocol: Protocol::V311,
        clean_session: true,
        keep_alive: 0,
        client_id: Arc::new("pub".to_string()),
        last_will: None,
        username: None,
        password: None,
    };
    handle_connect(&mut publisher, connect, &Arc::new("g".to_string()), &mut global);
    let topic = TopicName::try_from("t".to_string()).unwrap();
    let fits = Publish {
        dup: false,
        retain: false,
        qos_pid: QosPid::Level0,
        topic_name: topic.clone(),
        payload: Arc::new(vec![0; 268_435_455 - 3]),
    };
    assert!(handle_publish(&mut publisher, fits, &mut global).is_ok());
    let too_long = Publish {
        dup: false,
        retain: false,
        qos_pid: QosPid::Level0,
        topic_name: topic,
        payload: Arc::new(vec![0; 268_435_455 - 2]),
    };
    assert!(handle_publish(&mut publisher, too_long, &mut global).is_err());
}
