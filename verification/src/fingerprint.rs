//! The fingerprint of a publish, by which a repeated QoS 2 publish is told
//! from another publish that uses the same packet identifier.

use vstd::prelude::*;
use std::hash::Hasher;

verus! {

/// `ahash::AHasher` with its default keys, fed the retain flag, the topic
/// and the payload through `write_u8` and `write` of `std::hash::Hasher`,
/// and read with `finish`. The keys are drawn once in a process, so that
/// a process gives equal publishes equal fingerprints; of the number
/// itself nothing is known.
#[verifier::external_body]
pub(crate) fn fingerprint(retain: bool, topic: &[u8], payload: &[u8]) -> (digest: u64) {
    let mut hasher = ahash::AHasher::default();
    hasher.write_u8(u8::from(retain));
    hasher.write(topic);
    hasher.write(payload);
    hasher.finish()
}

} // verus!
