use akasa_core::config::Config;
use akasa_core::config::HookConfig;
use akasa_core::types::Pid;
use akasa_core::types::Protocol;
use akasa_core::types::QoS;
use akasa_core::types::QosPid;

#[test]
fn pid_rejects_zero() {
    assert!(Pid::try_from(0).is_none());
    assert_eq!(Pid::try_from(1).unwrap().value(), 1);
    assert_eq!(Pid::try_from(65535).unwrap().value(), 65535);
    assert_eq!(Pid::default().value(), 1);
}

#[test]
fn pid_add_wraps_around_and_avoids_zero() {
    let cases: [(u16, u16, u16); 9] = [
        (2, 1, 3),
        (100, 1, 101),
        (1, 1, 2),
        (1, 2, 3),
        (65535, 1, 1),
        (65535, 2, 2),
        (10, 65535, 10),
        (10, 0, 10),
        (65535, 0, 65535),
    ];
    for (cur, d, next) in cases {
        assert_eq!(Pid::try_from(cur).unwrap().wrapping_add(d).value(), next, "{} + {}", cur, d);
    }
}

#[test]
fn qos_levels_and_minimum() {
    assert_eq!(QoS::Level0.value(), 0);
    assert_eq!(QoS::Level1.value(), 1);
    assert_eq!(QoS::Level2.value(), 2);
    assert_eq!(QoS::from_u8(0), Some(QoS::Level0));
    assert_eq!(QoS::from_u8(2), Some(QoS::Level2));
    assert_eq!(QoS::from_u8(3), None);
    assert_eq!(QoS::Level2.min(QoS::Level1), QoS::Level1);
    assert_eq!(QoS::Level0.min(QoS::Level2), QoS::Level0);
    assert_eq!(QoS::Level1.min(QoS::Level1), QoS::Level1);
}

#[test]
fn qos_pid_parts() {
    let pid = Pid::try_from(7).unwrap();
    assert_eq!(QosPid::Level0.qos(), QoS::Level0);
    assert_eq!(QosPid::Level0.pid(), None);
    assert_eq!(QosPid::Level1(pid).qos(), QoS::Level1);
    assert_eq!(QosPid::Level1(pid).pid(), Some(pid));
    assert_eq!(QosPid::Level2(pid).qos(), QoS::Level2);
    assert_eq!(QosPid::Level2(pid).pid(), Some(pid));
}

#[test]
fn protocol_family() {
    assert!(Protocol::V500.is_v5());
    assert!(!Protocol::V311.is_v5());
    assert!(!Protocol::V310.is_v5());
}

#[test]
fn default_config_values() {
    let config = Config::default();
    assert_eq!(config.max_inflight_client, 10);
    assert_eq!(config.max_in_mem_pending_messages, 256);
    assert_eq!(config.inflight_timeout, 15);
    assert_eq!(config.max_allowed_qos, QoS::Level2);
    assert_eq!(config.topic_alias_max, 65535);
    assert!(config.retain_available);
    assert_eq!(
        config.hook,
        HookConfig {
            enable_before_connect: false,
            enable_publish: false,
            enable_subscribe: false,
            enable_unsubscribe: false,
        }
    );
}
