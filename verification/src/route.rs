//! The subscriptions of all clients, and which of them a topic reaches.

use vstd::prelude::*;
use crate::pending::lemma_filter_take_step;
use crate::topic::TopicFilter;
use crate::topic::TopicName;
use crate::types::ClientId;
use crate::v5::session::SubscriptionData;

verus! {

/// One subscription: a client, the filter it subscribed with, and what the
/// client's session keeps of it.
#[derive(Debug)]
pub struct RouteEntry {
    pub filter: TopicFilter,
    pub client_id: ClientId,
    pub data: SubscriptionData,
}

impl Clone for RouteEntry {
    /// The same subscription, sharing the filter.
    fn clone(&self) -> (copy: RouteEntry)
        ensures
            copy == *self,
    {
        RouteEntry { filter: self.filter.clone(), client_id: self.client_id, data: self.data }
    }
}

impl RouteEntry {
    /// Whether this is the subscription of `client_id` with the filter `filter`.
    pub open spec fn has_key(self, filter: Seq<char>, client_id: ClientId) -> bool {
        self.filter@ == filter && self.client_id == client_id
    }
}

/// The test for subscriptions whose filter matches `topic`.
pub open spec fn matching(topic: TopicName) -> spec_fn(RouteEntry) -> bool {
    |e: RouteEntry| e.filter.spec_matches(&topic)
}

/// The test for subscriptions of clients other than `client_id`.
pub open spec fn not_of(client_id: ClientId) -> spec_fn(RouteEntry) -> bool {
    |e: RouteEntry| e.client_id != client_id
}

/// Whether no two subscriptions in `s` are of the same client with the same
/// filter.
pub open spec fn keys_unique(s: Seq<RouteEntry>) -> bool {
    forall|i: int, j: int|
        0 <= i < j < s.len() ==> !(#[trigger] s[i]).has_key((#[trigger] s[j]).filter@, s[j].client_id)
}

/// Whether no subscription in `s` is of `client_id` with `filter`.
pub open spec fn key_absent(s: Seq<RouteEntry>, filter: Seq<char>, client_id: ClientId) -> bool {
    forall|i: int| 0 <= i < s.len() ==> !(#[trigger] s[i]).has_key(filter, client_id)
}

/// The index of the subscription of `client_id` with `filter`, where there
/// is one.
pub open spec fn key_index(s: Seq<RouteEntry>, filter: Seq<char>, client_id: ClientId) -> int {
    choose|i: int| 0 <= i < s.len() && (#[trigger] s[i]).has_key(filter, client_id)
}

/// The subscriptions after `entry` was made: it stands in the place of
/// the one that its client had with its filter, or at the end.
pub open spec fn subscribed(s: Seq<RouteEntry>, entry: RouteEntry) -> Seq<RouteEntry> {
    if key_absent(s, entry.filter@, entry.client_id) {
        s.push(entry)
    } else {
        s.update(key_index(s, entry.filter@, entry.client_id), entry)
    }
}

/// The test for subscriptions other than those of `client_id` with one of
/// the filters `filters`.
pub open spec fn not_among(client_id: ClientId, filters: Seq<TopicFilter>) -> spec_fn(RouteEntry) -> bool {
    |e: RouteEntry|
        !(e.client_id == client_id && exists|k: int|
            0 <= k < filters.len() && (#[trigger] filters[k])@ == e.filter@)
}

/// The subscriptions of all clients, in the order in which they were made.
pub struct RouteTable {
    entries: Vec<RouteEntry>,
}

impl View for RouteTable {
    type V = Seq<RouteEntry>;

    closed spec fn view(&self) -> Seq<RouteEntry> {
        self.entries@
    }
}

impl RouteTable {
    /// The table is well formed: a client has at most one subscription with
    /// a given filter.
    pub open spec fn wf(&self) -> bool {
        keys_unique(self@)
    }

    /// A table without subscriptions.
    pub fn new() -> (table: RouteTable)
        ensures
            table.wf(),
            table@.len() == 0,
    {
        RouteTable { entries: Vec::new() }
    }

    /// The number of subscriptions.
    pub fn len(&self) -> (n: usize)
        ensures
            n == self@.len(),
    {
        self.entries.len()
    }

    /// The index of the subscription of `client_id` with `filter`.
    fn find(&self, filter: &TopicFilter, client_id: ClientId) -> (index: Option<usize>)
        ensures
            match index {
                Some(i) => i < self@.len() && self@[i as int].has_key(filter@, client_id),
                None => key_absent(self@, filter@, client_id),
            },
    {
        let mut i: usize = 0;
        while i < self.entries.len()
            invariant
                i <= self.entries.len(),
                forall|j: int| 0 <= j < i ==> !(#[trigger] self.entries@[j]).has_key(filter@, client_id),
            decreases self.entries.len() - i,
        {
            if self.entries[i].client_id == client_id && self.entries[i].filter.same(filter) {
                return Some(i);
            }
            i += 1;
        }
        None
    }

    /// Whether `client_id` is subscribed with `filter`.
    pub fn contains(&self, filter: &TopicFilter, client_id: ClientId) -> (found: bool)
        ensures
            found == !key_absent(self@, filter@, client_id),
    {
        match self.find(filter, client_id) {
            Some(i) => {
                assert(self@[i as int].has_key(filter@, client_id));
                true
            },
            None => false,
        }
    }

    /// Subscribes `client_id` with `filter`. A subscription that the client
    /// already has with this filter is replaced where it stands, and the
    /// result is `true`; otherwise the new one is appended.
    pub fn subscribe(&mut self, filter: &TopicFilter, client_id: ClientId, data: SubscriptionData) -> (replaced:
        bool)
        requires
            old(self).wf(),
        ensures
            final(self).wf(),
            final(self)@ == subscribed(old(self)@, (RouteEntry { filter: *filter, client_id, data })),
            replaced == !key_absent(old(self)@, filter@, client_id),
            !replaced ==> final(self)@ == old(self)@.push(
                (RouteEntry { filter: *filter, client_id, data }),
            ),
            replaced ==> exists|i: int|
                0 <= i < old(self)@.len() && (#[trigger] old(self)@[i]).has_key(filter@, client_id)
                    && final(self)@ == old(self)@.update(
                    i,
                    (RouteEntry { filter: *filter, client_id, data }),
                ),
    {
        let entry = RouteEntry { filter: filter.clone(), client_id, data };
        match self.find(filter, client_id) {
            Some(i) => {
                assert(old(self)@[i as int].has_key(filter@, client_id));
                proof {
                    let j = key_index(old(self)@, filter@, client_id);
                    assert(old(self)@[j].has_key(filter@, client_id));
                    if j < i {
                        assert(!old(self)@[j].has_key(old(self)@[i as int].filter@, client_id));
                    } else if i < j {
                        assert(!old(self)@[i as int].has_key(old(self)@[j].filter@, client_id));
                    }
                }
                self.entries.remove(i);
                self.entries.insert(i, entry);
                assert(self.entries@ =~= old(self)@.update(i as int, entry));
                true
            },
            None => {
                self.entries.push(entry);
                false
            },
        }
    }

    /// Removes the subscription of `client_id` with `filter`, if there is one.
    pub fn unsubscribe(&mut self, filter: &TopicFilter, client_id: ClientId) -> (removed: bool)
        requires
            old(self).wf(),
        ensures
            final(self).wf(),
            removed == !key_absent(old(self)@, filter@, client_id),
            !removed ==> final(self)@ == old(self)@,
            removed ==> exists|i: int|
                0 <= i < old(self)@.len() && (#[trigger] old(self)@[i]).has_key(filter@, client_id)
                    && final(self)@ == old(self)@.remove(i),
            key_absent(final(self)@, filter@, client_id),
    {
        match self.find(filter, client_id) {
            Some(i) => {
                assert(old(self)@[i as int].has_key(filter@, client_id));
                self.entries.remove(i);
                true
            },
            None => false,
        }
    }

    /// Removes the subscriptions that `client_id` has with any of the
    /// filters `filters`.
    pub fn unsubscribe_all(&mut self, client_id: ClientId, filters: &Vec<TopicFilter>)
        requires
            old(self).wf(),
        ensures
            final(self).wf(),
            final(self)@ == old(self)@.filter(not_among(client_id, filters@)),
    {
        let ghost all = self.entries@;
        let ghost keep = not_among(client_id, filters@);
        let mut i: usize = 0;
        let ghost mut done: int = 0;
        assert(all.take(0).filter(keep) =~= Seq::<RouteEntry>::empty()) by {
            reveal(Seq::filter);
        }
        assert(all.skip(0) =~= all);
        while i < self.entries.len()
            invariant
                0 <= done <= all.len(),
                i <= self.entries.len(),
                i <= done,
                self.entries@.len() - i == all.len() - done,
                self.entries@.take(i as int) == all.take(done).filter(keep),
                self.entries@.skip(i as int) == all.skip(done),
                keep == not_among(client_id, filters@),
                keys_unique(self.entries@),
            decreases all.len() - done,
        {
            let ghost before = self.entries@;
            assert(before[i as int] == before.skip(i as int)[0]);
            assert(all[done] == all.skip(done)[0]);
            proof {
                lemma_filter_take_step(all, keep, done);
            }
            let mut among = false;
            if self.entries[i].client_id == client_id {
                let mut k: usize = 0;
                while k < filters.len() && !among
                    invariant
                        k <= filters.len(),
                        i < self.entries.len(),
                        among ==> exists|m: int|
                            0 <= m < filters.len() && (#[trigger] filters@[m])@
                                == self.entries@[i as int].filter@,
                        !among ==> forall|m: int|
                            0 <= m < k ==> (#[trigger] filters@[m])@ != self.entries@[i as int].filter@,
                    decreases filters.len() - k + (if among { 0int } else { 1int }),
                {
                    if filters[k].same(&self.entries[i].filter) {
                        among = true;
                    } else {
                        k += 1;
                    }
                }
            }
            if among {
                self.entries.remove(i);
                proof {
                    assert(!keep(all[done]));
                    assert(self.entries@.take(i as int) =~= before.take(i as int));
                    assert(self.entries@.skip(i as int) =~= before.skip(i as int).skip(1));
                    assert(all.skip(done + 1) =~= all.skip(done).skip(1));
                    done = done + 1;
                }
            } else {
                proof {
                    assert(keep(all[done]));
                    assert(self.entries@.take(i + 1) =~= before.take(i as int).push(before[i as int]));
                    assert(self.entries@.skip(i + 1) =~= before.skip(i as int).skip(1));
                    assert(all.skip(done + 1) =~= all.skip(done).skip(1));
                    done = done + 1;
                }
                i += 1;
            }
        }
        proof {
            assert(self.entries@.take(i as int) =~= self.entries@);
            assert(all.take(done) =~= all);
        }
    }

    /// Removes every subscription of `client_id`.
    pub fn remove_client(&mut self, client_id: ClientId)
        requires
            old(self).wf(),
        ensures
            final(self).wf(),
            final(self)@ == old(self)@.filter(not_of(client_id)),
    {
        let ghost all = self.entries@;
        let ghost keep = not_of(client_id);
        let mut i: usize = 0;
        let ghost mut done: int = 0;
        assert(all.take(0).filter(keep) =~= Seq::<RouteEntry>::empty()) by {
            reveal(Seq::filter);
        }
        assert(all.skip(0) =~= all);
        while i < self.entries.len()
            invariant
                0 <= done <= all.len(),
                i <= self.entries.len(),
                i <= done,
                self.entries@.len() - i == all.len() - done,
                self.entries@.take(i as int) == all.take(done).filter(keep),
                self.entries@.skip(i as int) == all.skip(done),
                keep == not_of(client_id),
                keys_unique(self.entries@),
            decreases all.len() - done,
        {
            let ghost before = self.entries@;
            assert(before[i as int] == before.skip(i as int)[0]);
            assert(all[done] == all.skip(done)[0]);
            proof {
                lemma_filter_take_step(all, keep, done);
            }
            if self.entries[i].client_id == client_id {
                self.entries.remove(i);
                proof {
                    assert(!keep(all[done]));
                    assert(self.entries@.take(i as int) =~= before.take(i as int));
                    assert(self.entries@.skip(i as int) =~= before.skip(i as int).skip(1));
                    assert(all.skip(done + 1) =~= all.skip(done).skip(1));
                    done = done + 1;
                }
            } else {
                proof {
                    assert(keep(all[done]));
                    assert(self.entries@.take(i + 1) =~= before.take(i as int).push(before[i as int]));
                    assert(self.entries@.skip(i + 1) =~= before.skip(i as int).skip(1));
                    assert(all.skip(done + 1) =~= all.skip(done).skip(1));
                    done = done + 1;
                }
                i += 1;
            }
        }
        proof {
            assert(self.entries@.take(i as int) =~= self.entries@);
            assert(all.take(done) =~= all);
        }
    }

    /// The subscriptions whose filter matches `topic`, in the order in which
    /// they were made.
    pub fn get_matches(&self, topic: &TopicName) -> (matches: Vec<RouteEntry>)
        ensures
            matches@ == self@.filter(matching(*topic)),
    {
        let ghost pred = matching(*topic);
        let mut matches: Vec<RouteEntry> = Vec::new();
        let mut i: usize = 0;
        assert(self.entries@.take(0).filter(pred) =~= Seq::<RouteEntry>::empty()) by {
            reveal(Seq::filter);
        }
        while i < self.entries.len()
            invariant
                i <= self.entries.len(),
                pred == matching(*topic),
                matches@ == self.entries@.take(i as int).filter(pred),
            decreases self.entries.len() - i,
        {
            proof {
                lemma_filter_take_step(self.entries@, pred, i as int);
            }
            if self.entries[i].filter.matches(topic) {
                assert(pred(self.entries@[i as int]));
                matches.push(self.entries[i].clone());
            } else {
                assert(!pred(self.entries@[i as int]));
            }
            i += 1;
        }
        assert(self.entries@.take(i as int) =~= self.entries@);
        matches
    }
}

} // verus!
