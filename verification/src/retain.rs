//! The retained messages: at most one per topic, replayed to new
//! subscriptions whose filter matches the topic.

use vstd::prelude::*;
use crate::pending::lemma_filter_take_step;
use crate::topic::TopicFilter;
use crate::topic::TopicName;
use crate::types::share;
use crate::types::ClientId;
use crate::types::Payload;
use crate::types::QoS;
use crate::v5::types::PublishProperties;

verus! {

/// One retained message.
#[derive(Debug)]
pub struct RetainContent {
    pub topic_name: TopicName,
    pub qos: QoS,
    pub payload: Payload,
    /// The properties of the publish, where a version 5.0 client sent it.
    pub properties: Option<PublishProperties>,
    /// The client that published the message.
    pub client_id: ClientId,
    /// The time at which the message expires, if it does.
    pub expiry: Option<u64>,
    /// The encoded length of the publish that left the message.
    pub encode_len: usize,
}

impl Clone for RetainContent {
    /// The same message, sharing its topic and payload.
    fn clone(&self) -> (copy: RetainContent)
        ensures
            copy == *self,
    {
        RetainContent {
            topic_name: self.topic_name.clone(),
            qos: self.qos,
            payload: share(&self.payload),
            properties: match &self.properties {
                Some(p) => Some(p.clone()),
                None => None,
            },
            client_id: self.client_id,
            expiry: self.expiry,
            encode_len: self.encode_len,
        }
    }
}

impl RetainContent {
    /// Whether the message has expired at `now`.
    pub open spec fn is_expired(self, now: u64) -> bool {
        self.expiry matches Some(deadline) && deadline <= now
    }
}

/// The test for retained messages that `filter` matches and that have not
/// expired at `now`.
pub open spec fn matched_by(filter: TopicFilter, now: u64) -> spec_fn(RetainContent) -> bool {
    |c: RetainContent| filter.spec_matches(&c.topic_name) && !c.is_expired(now)
}

/// Whether no two messages in `s` have the same topic.
pub open spec fn topics_unique(s: Seq<RetainContent>) -> bool {
    forall|i: int, j: int|
        0 <= i < j < s.len() ==> (#[trigger] s[i]).topic_name@ != (#[trigger] s[j]).topic_name@
}

/// Whether no message in `s` has the topic `topic`.
pub open spec fn topic_absent(s: Seq<RetainContent>, topic: Seq<char>) -> bool {
    forall|i: int| 0 <= i < s.len() ==> (#[trigger] s[i]).topic_name@ != topic
}

/// Whether `new` is `old` with `content` made the retained message of its
/// topic: in the place of the one that the topic had, or at the end.
pub open spec fn inserted(old: Seq<RetainContent>, new: Seq<RetainContent>, content: RetainContent) -> bool {
    ||| topic_absent(old, content.topic_name@) && new == old.push(content)
    ||| exists|i: int|
        0 <= i < old.len() && (#[trigger] old[i]).topic_name@ == content.topic_name@ && new
            == old.update(i, content)
}

/// Whether `new` is `old` without the retained message of `topic`.
pub open spec fn removed(old: Seq<RetainContent>, new: Seq<RetainContent>, topic: Seq<char>) -> bool {
    ||| topic_absent(old, topic) && new == old
    ||| exists|i: int|
        0 <= i < old.len() && (#[trigger] old[i]).topic_name@ == topic && new == old.remove(i)
}

/// The retained messages, in the order in which their topics first got one.
pub struct RetainTable {
    entries: Vec<RetainContent>,
}

impl View for RetainTable {
    type V = Seq<RetainContent>;

    closed spec fn view(&self) -> Seq<RetainContent> {
        self.entries@
    }
}

impl RetainTable {
    /// The table is well formed: a topic has at most one retained message.
    pub open spec fn wf(&self) -> bool {
        topics_unique(self@)
    }

    /// A table without messages.
    pub fn new() -> (table: RetainTable)
        ensures
            table.wf(),
            table@.len() == 0,
    {
        RetainTable { entries: Vec::new() }
    }

    /// The number of retained messages.
    pub fn len(&self) -> (n: usize)
        ensures
            n == self@.len(),
    {
        self.entries.len()
    }

    /// The index of the message with the topic `topic`.
    fn find(&self, topic: &TopicName) -> (index: Option<usize>)
        ensures
            match index {
                Some(i) => i < self@.len() && self@[i as int].topic_name@ == topic@,
                None => topic_absent(self@, topic@),
            },
    {
        let mut i: usize = 0;
        while i < self.entries.len()
            invariant
                i <= self.entries.len(),
                forall|j: int| 0 <= j < i ==> (#[trigger] self.entries@[j]).topic_name@ != topic@,
            decreases self.entries.len() - i,
        {
            if self.entries[i].topic_name.same(topic) {
                return Some(i);
            }
            i += 1;
        }
        None
    }

    /// The retained message of a topic, if it has one.
    pub fn get(&self, topic: &TopicName) -> (content: Option<&RetainContent>)
        ensures
            content is None <==> topic_absent(self@, topic@),
            content matches Some(c) ==> c.topic_name@ == topic@ && self@.contains(*c),
    {
        match self.find(topic) {
            Some(i) => {
                assert(self@[i as int].topic_name@ == topic@);
                Some(&self.entries[i])
            },
            None => None,
        }
    }

    /// Makes `content` the retained message of its topic, and hands back
    /// the one that the topic had. A message that replaces another stands
    /// where that one stood; a first one is appended.
    pub fn insert(&mut self, content: RetainContent) -> (previous: Option<RetainContent>)
        requires
            old(self).wf(),
        ensures
            final(self).wf(),
            inserted(old(self)@, final(self)@, content),
            previous is None <==> topic_absent(old(self)@, content.topic_name@),
            previous is None ==> final(self)@ == old(self)@.push(content),
            previous matches Some(p) ==> exists|i: int|
                0 <= i < old(self)@.len() && #[trigger] old(self)@[i] == p && p.topic_name@
                    == content.topic_name@ && final(self)@ == old(self)@.update(i, content),
    {
        match self.find(&content.topic_name) {
            Some(i) => {
                assert(old(self)@[i as int].topic_name@ == content.topic_name@);
                let previous = self.entries.remove(i);
                self.entries.insert(i, content);
                assert(self.entries@ =~= old(self)@.update(i as int, content));
                Some(previous)
            },
            None => {
                self.entries.push(content);
                None
            },
        }
    }

    /// Clears the retained message of a topic, and hands it back.
    pub fn remove(&mut self, topic: &TopicName) -> (previous: Option<RetainContent>)
        requires
            old(self).wf(),
        ensures
            final(self).wf(),
            removed(old(self)@, final(self)@, topic@),
            topic_absent(final(self)@, topic@),
            previous is None <==> topic_absent(old(self)@, topic@),
            previous is None ==> final(self)@ == old(self)@,
            previous matches Some(p) ==> exists|i: int|
                0 <= i < old(self)@.len() && #[trigger] old(self)@[i] == p && p.topic_name@
                    == topic@ && final(self)@ == old(self)@.remove(i),
    {
        match self.find(topic) {
            Some(i) => {
                assert(old(self)@[i as int].topic_name@ == topic@);
                let previous = self.entries.remove(i);
                Some(previous)
            },
            None => None,
        }
    }

    /// The retained messages that `filter` matches and that have not expired
    /// at `now`, in the order of the table.
    pub fn get_matches(&self, filter: &TopicFilter, now: u64) -> (matches: Vec<RetainContent>)
        ensures
            matches@ == self@.filter(matched_by(*filter, now)),
    {
        let ghost pred = matched_by(*filter, now);
        let mut matches: Vec<RetainContent> = Vec::new();
        let mut i: usize = 0;
        assert(self.entries@.take(0).filter(pred) =~= Seq::<RetainContent>::empty()) by {
            reveal(Seq::filter);
        }
        while i < self.entries.len()
            invariant
                i <= self.entries.len(),
                pred == matched_by(*filter, now),
                matches@ == self.entries@.take(i as int).filter(pred),
            decreases self.entries.len() - i,
        {
            proof {
                lemma_filter_take_step(self.entries@, pred, i as int);
            }
            let expired = match self.entries[i].expiry {
                Some(deadline) => deadline <= now,
                None => false,
            };
            if !expired && filter.matches(&self.entries[i].topic_name) {
                assert(pred(self.entries@[i as int]));
                matches.push(self.entries[i].clone());
            } else {
                assert(!pred(self.entries@[i as int]));
            }
            i += 1;
        }
        assert(self.entries@.take(i as int) =~= self.entries@);
        matches
    }
}

} // verus!
