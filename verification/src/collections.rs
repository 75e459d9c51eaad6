//! The hash maps of a session. Each is a `hashbrown::HashMap` behind a
//! small set of operations whose contracts say what the map holds before
//! and after.

use vstd::prelude::*;
use crate::state::NormalMessage;
use crate::topic::TopicFilter;
use crate::topic::TopicName;
use crate::types::SharedString;
use crate::v5::session::SubscriptionData;

verus! {

/// The inbound QoS 2 publishes of a session that are not complete yet:
/// packet identifier to the fingerprint of the publish.
#[verifier::external_body]
pub struct Qos2Pids {
    inner: hashbrown::HashMap<u16, u64>,
}

/// What a `Qos2Pids` holds.
pub uninterp spec fn pid_digests(m: Qos2Pids) -> Map<u16, u64>;

/// `hashbrown::HashMap::new`: a map that holds nothing.
#[verifier::external_body]
pub(crate) fn pid_digests_new() -> (m: Qos2Pids)
    ensures
        pid_digests(m) == (Map::<u16, u64>::empty()),
{
    Qos2Pids { inner: hashbrown::HashMap::new() }
}

/// `hashbrown::HashMap::len`: the number of keys.
#[verifier::external_body]
pub(crate) fn pid_digests_len(m: &Qos2Pids) -> (n: usize)
    ensures
        n == pid_digests(*m).dom().len(),
{
    m.inner.len()
}

/// `hashbrown::HashMap::get`: the value of the key, if the map has the key.
#[verifier::external_body]
pub(crate) fn pid_digests_get(m: &Qos2Pids, pid: u16) -> (digest: Option<u64>)
    ensures
        digest == (if pid_digests(*m).contains_key(pid) {
            Some(pid_digests(*m)[pid])
        } else {
            None
        }),
{
    m.inner.get(&pid).copied()
}

/// `hashbrown::HashMap::insert`: the key has the new value afterwards, and
/// the result is the value that it had.
#[verifier::external_body]
pub(crate) fn pid_digests_insert(m: &mut Qos2Pids, pid: u16, digest: u64) -> (previous: Option<u64>)
    ensures
        pid_digests(*final(m)) == pid_digests(*old(m)).insert(pid, digest),
        previous == (if pid_digests(*old(m)).contains_key(pid) {
            Some(pid_digests(*old(m))[pid])
        } else {
            None
        }),
{
    m.inner.insert(pid, digest)
}

/// `hashbrown::HashMap::remove`: the key is gone afterwards, and the result
/// is the value that it had.
#[verifier::external_body]
pub(crate) fn pid_digests_remove(m: &mut Qos2Pids, pid: u16) -> (previous: Option<u64>)
    ensures
        pid_digests(*final(m)) == pid_digests(*old(m)).remove(pid),
        previous == (if pid_digests(*old(m)).contains_key(pid) {
            Some(pid_digests(*old(m))[pid])
        } else {
            None
        }),
{
    m.inner.remove(&pid)
}

/// The topic aliases of a connection: alias to topic name.
#[verifier::external_body]
pub struct TopicAliases {
    inner: hashbrown::HashMap<u16, TopicName>,
}

/// What a `TopicAliases` holds.
pub uninterp spec fn alias_topics(m: TopicAliases) -> Map<u16, TopicName>;

/// `hashbrown::HashMap::new`: a map that holds nothing.
#[verifier::external_body]
pub(crate) fn alias_topics_new() -> (m: TopicAliases)
    ensures
        alias_topics(m) == (Map::<u16, TopicName>::empty()),
{
    TopicAliases { inner: hashbrown::HashMap::new() }
}

/// `hashbrown::HashMap::get`: the value of the key, if the map has the
/// key; here another handle to the topic name.
#[verifier::external_body]
pub(crate) fn alias_topics_get(m: &TopicAliases, alias: u16) -> (name: Option<TopicName>)
    ensures
        name == (if alias_topics(*m).contains_key(alias) {
            Some(alias_topics(*m)[alias])
        } else {
            None
        }),
{
    m.inner.get(&alias).cloned()
}

/// `hashbrown::HashMap::insert`: the key has the new value afterwards.
#[verifier::external_body]
pub(crate) fn alias_topics_insert(m: &mut TopicAliases, alias: u16, name: TopicName)
    ensures
        alias_topics(*final(m)) == alias_topics(*old(m)).insert(alias, name),
{
    m.inner.insert(alias, name);
}

/// The subscriptions of a session: the text of a filter to the filter and
/// to what the session keeps of the subscription.
#[verifier::external_body]
pub struct Subscriptions {
    inner: hashbrown::HashMap<SharedString, (TopicFilter, SubscriptionData)>,
}

/// What a `Subscriptions` holds, by the text of the filter.
pub uninterp spec fn subscriptions(m: Subscriptions) -> Map<Seq<char>, (TopicFilter, SubscriptionData)>;

/// `hashbrown::HashMap::new`: a map that holds nothing.
#[verifier::external_body]
pub(crate) fn subscriptions_new() -> (m: Subscriptions)
    ensures
        subscriptions(m) == (Map::<Seq<char>, (TopicFilter, SubscriptionData)>::empty()),
{
    Subscriptions { inner: hashbrown::HashMap::new() }
}

/// `hashbrown::HashMap::len`: the number of keys.
#[verifier::external_body]
pub(crate) fn subscriptions_len(m: &Subscriptions) -> (n: usize)
    ensures
        n == subscriptions(*m).dom().len(),
{
    m.inner.len()
}

/// `hashbrown::HashMap::get`: the value of the key, if the map has the key.
#[verifier::external_body]
pub(crate) fn subscriptions_get(m: &Subscriptions, filter: &SharedString) -> (data: Option<
    SubscriptionData,
>)
    ensures
        data == (if subscriptions(*m).contains_key(filter@) {
            Some(subscriptions(*m)[filter@].1)
        } else {
            None
        }),
{
    m.inner.get(filter).map(|entry| entry.1)
}

/// `hashbrown::HashMap::insert`: the key has the new value afterwards, and
/// the result says whether it had one.
#[verifier::external_body]
pub(crate) fn subscriptions_insert(
    m: &mut Subscriptions,
    key: SharedString,
    filter: TopicFilter,
    data: SubscriptionData,
) -> (replaced: bool)
    ensures
        subscriptions(*final(m)) == subscriptions(*old(m)).insert(key@, (filter, data)),
        replaced == subscriptions(*old(m)).contains_key(key@),
{
    m.inner.insert(key, (filter, data)).is_some()
}

/// `hashbrown::HashMap::remove`: the key is gone afterwards, and the result
/// says whether the map had it.
#[verifier::external_body]
pub(crate) fn subscriptions_remove(m: &mut Subscriptions, filter: &SharedString) -> (removed: bool)
    ensures
        subscriptions(*final(m)) == subscriptions(*old(m)).remove(filter@),
        removed == subscriptions(*old(m)).contains_key(filter@),
{
    m.inner.remove(filter).is_some()
}

/// Whether a map of subscriptions holds `filter` under one of its keys.
pub open spec fn holds_filter(m: Map<Seq<char>, (TopicFilter, SubscriptionData)>, filter: TopicFilter) -> bool {
    exists|k: Seq<char>| m.contains_key(k) && (#[trigger] m[k]).0 == filter
}

/// `hashbrown::HashMap::values`, each value's filter in a vector: as many
/// as the map has keys, one handle for the filter under every key, in the
/// order in which the map walks.
#[verifier::external_body]
pub(crate) fn subscriptions_filters(m: &Subscriptions) -> (filters: Vec<TopicFilter>)
    ensures
        filters@.len() == subscriptions(*m).dom().len(),
        forall|i: int| 0 <= i < filters@.len() ==> holds_filter(subscriptions(*m), #[trigger] filters@[i]),
        forall|k: Seq<char>|
            subscriptions(*m).contains_key(k) ==> filters@.contains((#[trigger] subscriptions(*m)[k]).0),
{
    m.inner.values().map(|entry| entry.0.clone()).collect()
}

/// The broadcast queue of a session: for each client whose mailbox was
/// full, the messages that wait for it, oldest first.
#[verifier::external_body]
pub struct BroadcastPackets {
    inner: hashbrown::HashMap<u64, Vec<NormalMessage>>,
}

/// What a `BroadcastPackets` holds: the messages for each target.
pub uninterp spec fn broadcast_queues(m: BroadcastPackets) -> Map<u64, Seq<NormalMessage>>;

/// Whether `out` holds what the map `m` holds, pair by pair: every key of
/// the map once, with its value, and nothing else.
pub open spec fn drained(m: Map<u64, Seq<NormalMessage>>, out: Seq<(u64, Vec<NormalMessage>)>) -> bool {
    &&& forall|i: int| 0 <= i < out.len() ==> m.contains_key((#[trigger] out[i]).0) && out[i].1@ == m[out[i].0]
    &&& forall|i: int, j: int| 0 <= i < j < out.len() ==> (#[trigger] out[i]).0 != (#[trigger] out[j]).0
    &&& forall|k: u64| #[trigger] m.contains_key(k) ==> exists|i: int| 0 <= i < out.len() && (#[trigger] out[i]).0 == k
}

/// `hashbrown::HashMap::new`: a map that holds nothing.
#[verifier::external_body]
pub(crate) fn broadcast_queues_new() -> (m: BroadcastPackets)
    ensures
        broadcast_queues(m) == (Map::<u64, Seq<NormalMessage>>::empty()),
{
    BroadcastPackets { inner: hashbrown::HashMap::new() }
}

/// `hashbrown::HashMap::remove`: the key is gone afterwards, and the result
/// is the value that it had.
#[verifier::external_body]
pub(crate) fn broadcast_queues_remove(m: &mut BroadcastPackets, target: u64) -> (msgs: Option<
    Vec<NormalMessage>,
>)
    ensures
        broadcast_queues(*final(m)) == broadcast_queues(*old(m)).remove(target),
        msgs is Some <==> broadcast_queues(*old(m)).contains_key(target),
        msgs matches Some(v) ==> v@ == broadcast_queues(*old(m))[target],
{
    m.inner.remove(&target)
}

/// `hashbrown::HashMap::insert`: the key has the new value afterwards.
#[verifier::external_body]
pub(crate) fn broadcast_queues_insert(m: &mut BroadcastPackets, target: u64, msgs: Vec<NormalMessage>)
    ensures
        broadcast_queues(*final(m)) == broadcast_queues(*old(m)).insert(target, msgs@),
{
    m.inner.insert(target, msgs);
}

/// `hashbrown::HashMap::drain`, its pairs in a vector: the map holds
/// nothing afterwards, and the result holds every key that it had once,
/// with its value, in the order in which the map walks.
#[verifier::external_body]
pub(crate) fn broadcast_queues_drain(m: &mut BroadcastPackets) -> (out: Vec<(u64, Vec<NormalMessage>)>)
    ensures
        broadcast_queues(*final(m)) == (Map::<u64, Seq<NormalMessage>>::empty()),
        drained(broadcast_queues(*old(m)), out@),
{
    m.inner.drain().collect()
}

} // verus!

verus! {

impl Qos2Pids {
    /// The fingerprint that is kept for a packet identifier, if one is.
    pub fn get(&self, pid: u16) -> (digest: Option<u64>)
        ensures
            digest == (if pid_digests(*self).contains_key(pid) {
                Some(pid_digests(*self)[pid])
            } else {
                None
            }),
    {
        pid_digests_get(self, pid)
    }

    /// Whether a fingerprint is kept for a packet identifier.
    pub fn contains(&self, pid: u16) -> (found: bool)
        ensures
            found == pid_digests(*self).contains_key(pid),
    {
        pid_digests_get(self, pid).is_some()
    }

    /// The number of packet identifiers for which a fingerprint is kept.
    pub fn len(&self) -> (n: usize)
        ensures
            n == pid_digests(*self).dom().len(),
    {
        pid_digests_len(self)
    }
}

impl TopicAliases {
    /// The topic that an alias stands for, if it stands for one.
    pub fn get(&self, alias: u16) -> (name: Option<TopicName>)
        ensures
            name == (if alias_topics(*self).contains_key(alias) {
                Some(alias_topics(*self)[alias])
            } else {
                None
            }),
    {
        alias_topics_get(self, alias)
    }
}

impl Subscriptions {
    /// What is kept of the subscription with a filter, if there is one.
    pub fn get(&self, filter: &TopicFilter) -> (data: Option<SubscriptionData>)
        ensures
            data == (if subscriptions(*self).contains_key(filter@) {
                Some(subscriptions(*self)[filter@].1)
            } else {
                None
            }),
    {
        subscriptions_get(self, &filter.shared())
    }

    /// Whether there is a subscription with a filter.
    pub fn contains(&self, filter: &TopicFilter) -> (found: bool)
        ensures
            found == subscriptions(*self).contains_key(filter@),
    {
        subscriptions_get(self, &filter.shared()).is_some()
    }

    /// The number of subscriptions.
    pub fn len(&self) -> (n: usize)
        ensures
            n == subscriptions(*self).dom().len(),
    {
        subscriptions_len(self)
    }

    /// The filters of the subscriptions, one for every subscription, in no
    /// particular order.
    pub fn filters(&self) -> (filters: Vec<TopicFilter>)
        ensures
            filters@.len() == subscriptions(*self).dom().len(),
            forall|i: int|
                0 <= i < filters@.len() ==> holds_filter(subscriptions(*self), #[trigger] filters@[i]),
            forall|k: Seq<char>|
                subscriptions(*self).contains_key(k) ==> filters@.contains(
                    (#[trigger] subscriptions(*self)[k]).0,
                ),
    {
        subscriptions_filters(self)
    }
}

/// The messages that wait for `target` in a broadcast queue: none where
/// the queue has nothing for it.
pub open spec fn waiting_for(m: Map<u64, Seq<NormalMessage>>, target: u64) -> Seq<NormalMessage> {
    if m.contains_key(target) {
        m[target]
    } else {
        Seq::<NormalMessage>::empty()
    }
}

impl BroadcastPackets {
    /// A broadcast queue that holds nothing.
    pub fn new() -> (queue: BroadcastPackets)
        ensures
            broadcast_queues(queue) == (Map::<u64, Seq<NormalMessage>>::empty()),
    {
        broadcast_queues_new()
    }

    /// Puts a message behind those that wait for `target`.
    pub fn push(&mut self, target: u64, msg: NormalMessage)
        ensures
            broadcast_queues(*final(self)) == broadcast_queues(*old(self)).insert(
                target,
                waiting_for(broadcast_queues(*old(self)), target).push(msg),
            ),
    {
        let mut msgs = match broadcast_queues_remove(self, target) {
            Some(msgs) => msgs,
            None => Vec::new(),
        };
        msgs.push(msg);
        broadcast_queues_insert(self, target, msgs);
        assert(broadcast_queues(*self) =~= broadcast_queues(*old(self)).insert(
            target,
            waiting_for(broadcast_queues(*old(self)), target).push(msg),
        ));
    }

    /// Takes the messages that wait for `target` out of the queue, oldest
    /// first.
    pub fn take(&mut self, target: u64) -> (msgs: Vec<NormalMessage>)
        ensures
            msgs@ == waiting_for(broadcast_queues(*old(self)), target),
            broadcast_queues(*final(self)) == broadcast_queues(*old(self)).remove(target),
    {
        match broadcast_queues_remove(self, target) {
            Some(msgs) => msgs,
            None => Vec::new(),
        }
    }

    /// Puts messages for `target` into the queue, in place of what waited
    /// for it.
    pub fn put(&mut self, target: u64, msgs: Vec<NormalMessage>)
        ensures
            broadcast_queues(*final(self)) == broadcast_queues(*old(self)).insert(target, msgs@),
    {
        broadcast_queues_insert(self, target, msgs);
    }

    /// Empties the queue: the result holds every target once, with the
    /// messages that waited for it, oldest first. The order of the targets
    /// is open.
    pub fn drain(&mut self) -> (out: Vec<(u64, Vec<NormalMessage>)>)
        ensures
            broadcast_queues(*final(self)) == (Map::<u64, Seq<NormalMessage>>::empty()),
            drained(broadcast_queues(*old(self)), out@),
    {
        broadcast_queues_drain(self)
    }
}

} // verus!
