use std::sync::Arc;

use akasa_core::config::Config;
use akasa_core::retain::RetainContent;
use akasa_core::retain::RetainTable;
use akasa_core::route::RouteTable;
use akasa_core::state::AddClientReceipt;
use akasa_core::state::ClientRegistry;
use akasa_core::state::GlobalState;
use akasa_core::topic::TopicFilter;
use akasa_core::topic::TopicName;
use akasa_core::types::Protocol;
use akasa_core::types::QoS;
use akasa_core::v5::session::SubscriptionData;
use akasa_core::v5::types::SubscriptionOptions;

fn name(s: &str) -> TopicName {
    TopicName::try_from(s.to_string()).unwrap()
}

fn filter(s: &str) -> TopicFilter {
    TopicFilter::try_from(s.to_string()).unwrap()
}

fn data(qos: QoS) -> SubscriptionData {
    SubscriptionData::new(SubscriptionOptions::new(qos), None)
}

fn retained(topic: &str, payload: &[u8], expiry: Option<u64>) -> RetainContent {
    RetainContent {
        topic_name: name(topic),
        qos: QoS::Level1,
        payload: Arc::new(payload.to_vec()),
        properties: None,
        client_id: 1,
        expiry,
        encode_len: 0,
    }
}

#[test]
fn route_subscribe_replaces_same_client_and_filter() {
    let mut table = RouteTable::new();
    assert!(!table.subscribe(&filter("a/+"), 1, data(QoS::Level0)));
    assert!(!table.subscribe(&filter("a/+"), 2, data(QoS::Level1)));
    assert!(!table.subscribe(&filter("a/#"), 1, data(QoS::Level2)));
    assert!(table.subscribe(&filter("a/+"), 1, data(QoS::Level2)));
    assert_eq!(table.len(), 3);
    let matches = table.get_matches(&name("a/b"));
    assert_eq!(matches.len(), 3);
    assert_eq!(matches[0].client_id, 1);
    assert_eq!(matches[0].filter.as_str(), "a/+");
    assert_eq!(matches[0].data.options.max_qos, QoS::Level2);
    assert_eq!(matches[1].client_id, 2);
    assert_eq!(matches[2].filter.as_str(), "a/#");
    assert!(table.contains(&filter("a/+"), 2));
    assert!(!table.contains(&filter("a/+"), 3));
}

#[test]
fn route_matches_only_matching_filters() {
    let mut table = RouteTable::new();
    table.subscribe(&filter("a/b"), 1, data(QoS::Level0));
    table.subscribe(&filter("x/#"), 2, data(QoS::Level0));
    table.subscribe(&filter("+/b"), 3, data(QoS::Level0));
    let matches = table.get_matches(&name("a/b"));
    let ids: Vec<u64> = matches.iter().map(|e| e.client_id).collect();
    assert_eq!(ids, vec![1, 3]);
    assert!(table.get_matches(&name("nothing")).is_empty());
}

#[test]
fn route_unsubscribe_and_remove_client() {
    let mut table = RouteTable::new();
    table.subscribe(&filter("a"), 1, data(QoS::Level0));
    table.subscribe(&filter("b"), 1, data(QoS::Level0));
    table.subscribe(&filter("a"), 2, data(QoS::Level0));
    table.subscribe(&filter("c"), 1, data(QoS::Level0));
    assert!(table.unsubscribe(&filter("a"), 1));
    assert!(!table.unsubscribe(&filter("a"), 1));
    assert_eq!(table.len(), 3);
    table.unsubscribe_all(1, &vec![filter("b"), filter("zzz")]);
    assert_eq!(table.len(), 2);
    assert!(table.contains(&filter("c"), 1));
    table.remove_client(1);
    assert_eq!(table.len(), 1);
    assert!(table.contains(&filter("a"), 2));
    table.remove_client(7);
    assert_eq!(table.len(), 1);
}

#[test]
fn retain_insert_replaces_and_remove_clears() {
    let mut table = RetainTable::new();
    assert!(table.insert(retained("t", &[1], None)).is_none());
    assert!(table.insert(retained("u", &[2], None)).is_none());
    let previous = table.insert(retained("t", &[3], None)).unwrap();
    assert_eq!(*previous.payload, vec![1]);
    assert_eq!(table.len(), 2);
    assert_eq!(*table.get(&name("t")).unwrap().payload, vec![3]);
    assert!(table.get(&name("v")).is_none());
    let removed = table.remove(&name("t")).unwrap();
    assert_eq!(*removed.payload, vec![3]);
    assert!(table.remove(&name("t")).is_none());
    assert_eq!(table.len(), 1);
}

#[test]
fn retain_matches_by_filter_and_expiry() {
    let mut table = RetainTable::new();
    table.insert(retained("a/b", &[1], None));
    table.insert(retained("a/c", &[2], Some(100)));
    table.insert(retained("x", &[3], None));
    let all = table.get_matches(&filter("a/+"), 99);
    assert_eq!(all.len(), 2);
    assert_eq!(all[0].topic_name.as_str(), "a/b");
    assert_eq!(all[1].topic_name.as_str(), "a/c");
    let later = table.get_matches(&filter("a/+"), 100);
    assert_eq!(later.len(), 1);
    assert_eq!(later[0].topic_name.as_str(), "a/b");
    assert_eq!(table.get_matches(&filter("#"), 0).len(), 3);
    assert!(table.get_matches(&filter("b/#"), 0).is_empty());
}

#[test]
fn registry_assigns_dense_client_ids() {
    let mut registry = ClientRegistry::new();
    let a = Arc::new("a".to_string());
    let b = Arc::new("b".to_string());
    assert_eq!(registry.add_client(&a, Protocol::V311, false), AddClientReceipt::New { client_id: 0 });
    assert_eq!(registry.add_client(&b, Protocol::V500, false), AddClientReceipt::New { client_id: 1 });
    assert_eq!(registry.clients_count(), 2);
    assert_eq!(registry.online_clients_count(), 2);
    assert_eq!(registry.get_client_id(&a), Some(0));
    assert_eq!(registry.get_client_id(&b), Some(1));
    assert_eq!(registry.get_client_id(&Arc::new("c".to_string())), None);
}

#[test]
fn registry_takeover_keeps_one_session_per_identifier() {
    let mut registry = ClientRegistry::new();
    let x = Arc::new("X".to_string());
    assert_eq!(registry.add_client(&x, Protocol::V500, false), AddClientReceipt::New { client_id: 0 });
    assert_eq!(
        registry.add_client(&x, Protocol::V500, false),
        AddClientReceipt::Present { client_id: 0, online: true }
    );
    assert_eq!(registry.clients_count(), 1);
    assert_eq!(registry.online_clients_count(), 1);
    assert!(registry.set_online(0, false));
    assert!(!registry.is_client_online(0));
    assert_eq!(
        registry.add_client(&x, Protocol::V500, false),
        AddClientReceipt::Present { client_id: 0, online: false }
    );
    assert!(registry.is_client_online(0));
    assert_eq!(registry.clients_count(), 1);
}

#[test]
fn registry_refuses_cross_version_takeover_unless_allowed() {
    let mut registry = ClientRegistry::new();
    let x = Arc::new("X".to_string());
    registry.add_client(&x, Protocol::V311, false);
    assert_eq!(registry.add_client(&x, Protocol::V500, false), AddClientReceipt::Rejected);
    assert_eq!(
        registry.add_client(&x, Protocol::V310, false),
        AddClientReceipt::Present { client_id: 0, online: true }
    );
    assert_eq!(
        registry.add_client(&x, Protocol::V500, true),
        AddClientReceipt::Present { client_id: 0, online: true }
    );
    assert_eq!(registry.add_client(&x, Protocol::V311, false), AddClientReceipt::Rejected);
}

#[test]
fn registry_remove_and_offline() {
    let mut registry = ClientRegistry::new();
    registry.add_client(&Arc::new("a".to_string()), Protocol::V311, false);
    registry.add_client(&Arc::new("b".to_string()), Protocol::V311, false);
    assert!(registry.set_online(1, false));
    assert!(!registry.set_online(9, false));
    assert_eq!(registry.online_clients_count(), 1);
    assert!(registry.remove_client(0));
    assert!(!registry.remove_client(0));
    assert_eq!(registry.clients_count(), 1);
    assert_eq!(registry.online_clients_count(), 0);
    assert_eq!(
        registry.add_client(&Arc::new("a".to_string()), Protocol::V311, false),
        AddClientReceipt::New { client_id: 2 }
    );
}

#[test]
fn global_state_counts_and_outbox() {
    let mut global = GlobalState::new(Config::default());
    assert_eq!(global.clients_count(), 0);
    let id = Arc::new("c1".to_string());
    assert_eq!(global.add_client(&id, Protocol::V311), AddClientReceipt::New { client_id: 0 });
    global.route_table.subscribe(&filter("a"), 0, data(QoS::Level0));
    assert_eq!(global.online_clients_count(), 1);
    global.offline_client(0);
    assert_eq!(global.online_clients_count(), 0);
    assert_eq!(global.clients_count(), 1);
    global.online_client(0);
    assert_eq!(global.online_clients_count(), 1);
    assert!(global.take_outbox().is_empty());
    global.remove_client(0);
    assert_eq!(global.clients_count(), 0);
    assert_eq!(global.route_table.len(), 0);
}
