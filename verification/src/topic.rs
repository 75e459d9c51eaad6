//! Topic names, topic filters, and when a filter matches a name.

use vstd::prelude::*;
use vstd::utf8::encode_utf8;
use std::sync::Arc;
use crate::types::share;

verus! {

/// The byte `/`, which separates the levels of a topic.
pub const LEVEL_SEP: u8 = 47;

/// The byte `+`, the filter level that matches any one level.
pub const MATCH_ONE: u8 = 43;

/// The byte `#`, the filter level that matches all remaining levels.
pub const MATCH_ALL: u8 = 35;

/// The byte `$`, which starts the topics that root wildcards do not match.
pub const DOLLAR: u8 = 36;

/// The bytes a topic string is compared by: its UTF-8 encoding.
pub open spec fn topic_bytes(s: Seq<char>) -> Seq<u8> {
    encode_utf8(s)
}

/// The levels of a topic: the runs of bytes between its separators. A topic
/// with n separators has n + 1 levels, some of which may be empty.
pub open spec fn split_levels(s: Seq<u8>) -> Seq<Seq<u8>>
    decreases s.len(),
{
    if s.len() == 0 {
        seq![Seq::<u8>::empty()]
    } else {
        let before = split_levels(s.drop_last());
        if s.last() == LEVEL_SEP {
            before.push(Seq::<u8>::empty())
        } else {
            before.drop_last().push(before.last().push(s.last()))
        }
    }
}

/// Whether a filter level is the single-level wildcard `+`.
pub open spec fn is_match_one(level: Seq<u8>) -> bool {
    level.len() == 1 && level[0] == MATCH_ONE
}

/// Whether a filter level is the multi-level wildcard `#`.
pub open spec fn is_match_all(level: Seq<u8>) -> bool {
    level.len() == 1 && level[0] == MATCH_ALL
}

/// Whether the filter levels from `i` on match the topic levels from `i` on:
/// `#` matches whatever remains (nothing included), `+` matches any one
/// level, any other level matches only itself, and a filter that has run
/// out matches only a topic that has run out too.
pub open spec fn levels_match_from(filter: Seq<Seq<u8>>, topic: Seq<Seq<u8>>, i: int) -> bool
    decreases filter.len() - i,
{
    if i >= filter.len() {
        i >= topic.len()
    } else if is_match_all(filter[i]) {
        true
    } else if i >= topic.len() {
        false
    } else {
        (is_match_one(filter[i]) || filter[i] == topic[i]) && levels_match_from(
            filter,
            topic,
            i + 1,
        )
    }
}

/// Whether a topic starting with `$` meets a filter whose first level is a
/// wildcard: such a pair never matches.
pub open spec fn dollar_blocked(filter: Seq<u8>, topic: Seq<u8>) -> bool {
    &&& topic.len() > 0
    &&& topic[0] == DOLLAR
    &&& (is_match_one(split_levels(filter)[0]) || is_match_all(split_levels(filter)[0]))
}

/// Whether the filter `filter` matches the topic `topic`, both as bytes.
pub open spec fn filter_matches(filter: Seq<u8>, topic: Seq<u8>) -> bool {
    !dollar_blocked(filter, topic) && levels_match_from(
        split_levels(filter),
        split_levels(topic),
        0,
    )
}

/// The byte sequences that a vector of levels holds.
pub open spec fn levels_view(levels: Seq<Vec<u8>>) -> Seq<Seq<u8>> {
    levels.map_values(|l: Vec<u8>| l@)
}

/// A topic always has at least one level.
pub proof fn lemma_split_levels_nonempty(s: Seq<u8>)
    ensures
        split_levels(s).len() >= 1,
    decreases s.len(),
{
    if s.len() > 0 {
        lemma_split_levels_nonempty(s.drop_last());
    }
}

/// The number of levels is one more than the number of separators, and no
/// level holds a separator.
pub proof fn lemma_split_levels_shape(s: Seq<u8>)
    ensures
        split_levels(s).len() == s.filter(|b: u8| b == LEVEL_SEP).len() + 1,
        forall|i: int, j: int|
            0 <= i < split_levels(s).len() && 0 <= j < split_levels(s)[i].len()
                ==> split_levels(s)[i][j] != LEVEL_SEP,
    decreases s.len(),
{
    let is_sep = |b: u8| b == LEVEL_SEP;
    if s.len() == 0 {
        assert(s.filter(is_sep).len() == 0) by {
            reveal(Seq::filter);
        }
    } else {
        lemma_split_levels_shape(s.drop_last());
        lemma_split_levels_nonempty(s.drop_last());
        assert(s.filter(is_sep).len() == s.drop_last().filter(is_sep).len() + (if s.last()
            == LEVEL_SEP {
            1int
        } else {
            0int
        })) by {
            reveal(Seq::filter);
        }
    }
}

/// Splits a topic into its levels.
pub fn split(bytes: &[u8]) -> (levels: Vec<Vec<u8>>)
    ensures
        levels_view(levels@) == split_levels(bytes@),
        levels.len() >= 1,
{
    let mut levels: Vec<Vec<u8>> = Vec::new();
    let mut current: Vec<u8> = Vec::new();
    let mut i: usize = 0;
    assert(bytes@.take(0).len() == 0);
    assert(levels_view(levels@).push(current@) =~= split_levels(bytes@.take(0)));
    while i < bytes.len()
        invariant
            i <= bytes.len(),
            levels_view(levels@).push(current@) == split_levels(bytes@.take(i as int)),
        decreases bytes.len() - i,
    {
        let b = bytes[i];
        proof {
            let next = bytes@.take(i + 1);
            assert(next.drop_last() =~= bytes@.take(i as int));
            assert(next.last() == b);
        }
        if b == LEVEL_SEP {
            let ghost before = levels_view(levels@);
            levels.push(current);
            current = Vec::new();
            assert(levels_view(levels@) =~= before.push(levels@.last()@));
        } else {
            let ghost before = current@;
            current.push(b);
            assert(levels_view(levels@).push(before).drop_last() =~= levels_view(levels@));
        }
        i += 1;
    }
    assert(bytes@.take(i as int) =~= bytes@);
    let ghost before = levels_view(levels@);
    levels.push(current);
    assert(levels_view(levels@) =~= before.push(levels@.last()@));
    levels
}

/// Whether two byte strings are equal.
pub fn bytes_equal(a: &[u8], b: &[u8]) -> (equal: bool)
    ensures
        equal == (a@ == b@),
{
    if a.len() != b.len() {
        return false;
    }
    let mut i: usize = 0;
    while i < a.len()
        invariant
            i <= a.len(),
            a.len() == b.len(),
            a@.take(i as int) == b@.take(i as int),
        decreases a.len() - i,
    {
        if a[i] != b[i] {
            return false;
        }
        assert(a@.take(i + 1) =~= a@.take(i as int).push(a@[i as int]));
        assert(b@.take(i + 1) =~= b@.take(i as int).push(b@[i as int]));
        i += 1;
    }
    assert(a@.take(i as int) =~= a@);
    assert(b@.take(i as int) =~= b@);
    true
}

/// Whether the filter levels match the topic levels, from the first level.
pub fn levels_match(filter: &Vec<Vec<u8>>, topic: &Vec<Vec<u8>>) -> (matched: bool)
    ensures
        matched == levels_match_from(levels_view(filter@), levels_view(topic@), 0),
{
    let ghost f = levels_view(filter@);
    let ghost t = levels_view(topic@);
    let mut i: usize = 0;
    while i < filter.len()
        invariant
            i <= filter.len(),
            i <= topic.len(),
            f == levels_view(filter@),
            t == levels_view(topic@),
            levels_match_from(f, t, 0) == levels_match_from(f, t, i as int),
        decreases filter.len() - i,
    {
        let level = &filter[i];
        assert(f[i as int] == level@);
        if level.len() == 1 && level[0] == MATCH_ALL {
            return true;
        }
        if i >= topic.len() {
            return false;
        }
        assert(t[i as int] == topic@[i as int]@);
        let one = level.len() == 1 && level[0] == MATCH_ONE;
        if !one && !bytes_equal(level.as_slice(), topic[i].as_slice()) {
            return false;
        }
        i += 1;
    }
    i >= topic.len()
}

/// Whether the filter matches the topic: level by level, where a topic that
/// starts with `$` is never matched by a filter that starts with a wildcard.
pub fn bytes_match(filter: &[u8], topic: &[u8]) -> (matched: bool)
    ensures
        matched == filter_matches(filter@, topic@),
{
    let f = split(filter);
    let t = split(topic);
    assert(levels_view(f@)[0] == f@[0]@);
    if topic.len() > 0 && topic[0] == DOLLAR {
        let first = &f[0];
        if first.len() == 1 && (first[0] == MATCH_ONE || first[0] == MATCH_ALL) {
            return false;
        }
    }
    levels_match(&f, &t)
}

/// Whether a string is refused as a topic name: it is longer than 65535
/// bytes, or holds a wildcard or the character with code 0.
pub open spec fn topic_name_invalid(s: Seq<char>) -> bool {
    ||| topic_bytes(s).len() > 65535
    ||| s.contains('+')
    ||| s.contains('#')
    ||| s.contains('\0')
}

/// `mqtt_proto::TopicName::is_invalid`: true for a string of more than
/// 65535 bytes and for one that contains `+`, `#` or the character with
/// code 0, false for every other string.
#[verifier::external_body]
fn topic_name_is_invalid(value: &str) -> (invalid: bool)
    ensures
        invalid == topic_name_invalid(value@),
{
    mqtt_proto::TopicName::is_invalid(value)
}

/// What `mqtt_proto::TopicFilter::is_invalid` returns for a string: whether
/// it is refused as a topic filter, and for a shared filter the byte index
/// of the separator before the filter proper (0 for any other string).
pub uninterp spec fn topic_filter_check(s: Seq<char>) -> (bool, u16);

/// `mqtt_proto::TopicFilter::is_invalid`, a function of the string alone.
/// Its first two tests refuse a string of more than 65535 bytes and the
/// empty string.
#[verifier::external_body]
fn topic_filter_is_invalid(value: &str) -> (checked: (bool, u16))
    ensures
        checked == topic_filter_check(value@),
        !checked.0 ==> 0 < topic_bytes(value@).len() <= 65535,
{
    mqtt_proto::TopicFilter::is_invalid(value)
}

/// The name of a topic that messages are published to.
#[derive(Debug)]
pub struct TopicName {
    inner: Arc<String>,
}

impl View for TopicName {
    type V = Seq<char>;

    closed spec fn view(&self) -> Seq<char> {
        self.inner@
    }
}

impl Clone for TopicName {
    /// Another handle to the same string.
    fn clone(&self) -> (copy: TopicName)
        ensures
            copy == *self,
    {
        proof {
            use_type_invariant(self);
        }
        TopicName { inner: share(&self.inner) }
    }
}

impl TopicName {
    #[verifier::type_invariant]
    spec fn inv(&self) -> bool {
        !topic_name_invalid(self.inner@)
    }

    /// The bytes of the name.
    pub open spec fn bytes(&self) -> Seq<u8> {
        topic_bytes(self@)
    }

    /// Checks a string and makes it a topic name. A string that is too long
    /// or holds `+`, `#` or the character with code 0 is handed back.
    pub fn try_from(value: String) -> (name: Result<TopicName, String>)
        ensures
            name is Ok <==> !topic_name_invalid(value@),
            name matches Ok(n) ==> n@ == value@,
            name matches Err(s) ==> s@ == value@,
    {
        if topic_name_is_invalid(value.as_str()) {
            Err(value)
        } else {
            Ok(TopicName { inner: Arc::new(value) })
        }
    }

    /// The name as a string slice.
    pub fn as_str(&self) -> (s: &str)
        ensures
            s@ == self@,
    {
        self.inner.as_str()
    }

    /// The name as bytes.
    pub fn as_bytes(&self) -> (b: &[u8])
        ensures
            b@ == self.bytes(),
    {
        self.inner.as_str().as_bytes()
    }

    /// The length of the name in bytes.
    pub fn len(&self) -> (n: usize)
        ensures
            n == self.bytes().len(),
            n <= 65535,
    {
        proof {
            use_type_invariant(self);
        }
        self.inner.as_str().len()
    }

    /// Whether the name is the empty string.
    pub fn is_empty(&self) -> (empty: bool)
        ensures
            empty == (self@.len() == 0),
    {
        self.inner.as_str().is_empty()
    }

    /// Whether two names are the same string.
    pub fn same(&self, other: &TopicName) -> (same: bool)
        ensures
            same == (self@ == other@),
    {
        *self.inner == *other.inner
    }
}

/// A topic filter that subscriptions are made with.
#[derive(Debug)]
pub struct TopicFilter {
    inner: Arc<String>,
    shared_filter_sep: u16,
}

impl View for TopicFilter {
    type V = Seq<char>;

    closed spec fn view(&self) -> Seq<char> {
        self.inner@
    }
}

impl Clone for TopicFilter {
    /// Another handle to the same string.
    fn clone(&self) -> (copy: TopicFilter)
        ensures
            copy == *self,
    {
        proof {
            use_type_invariant(self);
        }
        TopicFilter { inner: share(&self.inner), shared_filter_sep: self.shared_filter_sep }
    }
}

impl TopicFilter {
    #[verifier::type_invariant]
    spec fn inv(&self) -> bool {
        &&& topic_filter_check(self.inner@) == (false, self.shared_filter_sep)
        &&& 0 < topic_bytes(self.inner@).len() <= 65535
    }

    /// The bytes of the filter.
    pub open spec fn bytes(&self) -> Seq<u8> {
        topic_bytes(self@)
    }

    /// Whether the filter matches a topic name.
    pub open spec fn spec_matches(&self, name: &TopicName) -> bool {
        filter_matches(self.bytes(), name.bytes())
    }

    /// Checks a string and makes it a topic filter. A string that the check
    /// refuses is handed back.
    pub fn try_from(value: String) -> (filter: Result<TopicFilter, String>)
        ensures
            filter is Ok <==> !topic_filter_check(value@).0,
            filter matches Ok(f) ==> f@ == value@,
            filter matches Err(s) ==> s@ == value@,
    {
        let (invalid, shared_filter_sep) = topic_filter_is_invalid(value.as_str());
        if invalid {
            Err(value)
        } else {
            Ok(TopicFilter { inner: Arc::new(value), shared_filter_sep })
        }
    }

    /// Whether the filter is a shared one (`$share/<group>/<filter>`).
    pub fn is_shared(&self) -> (shared: bool)
        ensures
            shared == (topic_filter_check(self@).1 > 0),
    {
        proof {
            use_type_invariant(self);
        }
        self.shared_filter_sep > 0
    }

    /// The filter as a string slice.
    pub fn as_str(&self) -> (s: &str)
        ensures
            s@ == self@,
    {
        self.inner.as_str()
    }

    /// The filter as bytes.
    pub fn as_bytes(&self) -> (b: &[u8])
        ensures
            b@ == self.bytes(),
    {
        self.inner.as_str().as_bytes()
    }

    /// The string of the filter, shared.
    pub fn shared(&self) -> (s: crate::types::SharedString)
        ensures
            s@ == self@,
    {
        share(&self.inner)
    }

    /// Whether two filters are the same string.
    pub fn same(&self, other: &TopicFilter) -> (same: bool)
        ensures
            same == (self@ == other@),
    {
        *self.inner == *other.inner
    }

    /// Whether the filter matches the topic name.
    #[verifier::when_used_as_spec(spec_matches)]
    pub fn matches(&self, name: &TopicName) -> (matched: bool)
        ensures
            matched == self.spec_matches(name),
    {
        bytes_match(self.as_bytes(), name.as_bytes())
    }
}

} // verus!
