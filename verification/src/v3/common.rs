//! What a session does after each packet and on each tick of its timer.

use vstd::prelude::*;
use crate::pending::alive_at;
use crate::pending::due_indices;
use crate::pending::expired_at;
use crate::pending::pid_of;
use crate::pending::AckState;
use crate::pending::PendingPacket;
use crate::types::share;
use crate::types::QosPid;
use crate::v3::packet::Packet;
use crate::v3::packet::Publish;
use crate::v3::session::PubPacket;
use crate::v3::session::Session;

verus! {

/// The packet that transmits an entry of the queue: the PUBLISH while its
/// first acknowledgement is awaited, the PUBREL after that.
pub open spec fn transmission(entry: PendingPacket<PubPacket>) -> Packet {
    match entry.state {
        AckState::AwaitingAck => Packet::Publish(
            Publish {
                dup: entry.dup,
                retain: entry.packet.retain,
                qos_pid: QosPid::Level1(entry.pid),
                topic_name: entry.packet.topic_name,
                payload: entry.packet.payload,
            },
        ),
        AckState::AwaitingRec => Packet::Publish(
            Publish {
                dup: entry.dup,
                retain: entry.packet.retain,
                qos_pid: QosPid::Level2(entry.pid),
                topic_name: entry.packet.topic_name,
                payload: entry.packet.payload,
            },
        ),
        AckState::AwaitingComp => Packet::Pubrel(entry.pid),
    }
}

/// The packet that transmits an entry of the queue.
pub fn transmit(entry: &PendingPacket<PubPacket>) -> (packet: Packet)
    ensures
        packet == transmission(*entry),
{
    match entry.state {
        AckState::AwaitingAck => Packet::Publish(
            Publish {
                dup: entry.dup,
                retain: entry.packet.retain,
                qos_pid: QosPid::Level1(entry.pid),
                topic_name: entry.packet.topic_name.clone(),
                payload: share(&entry.packet.payload),
            },
        ),
        AckState::AwaitingRec => Packet::Publish(
            Publish {
                dup: entry.dup,
                retain: entry.packet.retain,
                qos_pid: QosPid::Level2(entry.pid),
                topic_name: entry.packet.topic_name.clone(),
                payload: share(&entry.packet.payload),
            },
        ),
        AckState::AwaitingComp => Packet::Pubrel(entry.pid),
    }
}

/// Whether `s1` is the session `s0` after a tick of the retransmission
/// timer at the time of the session's clock, and `packets` is what the
/// tick gives to write. Entries whose message has expired leave the
/// queue, and their packet identifiers join the list of what the
/// session has abandoned. Of those that stay, each one in the window that was never
/// transmitted, or not within the timeout, counts as transmitted now,
/// and `packets` holds its packet; they stand in the order of the queue.
pub open spec fn pendings_handled(s0: Session, s1: Session, packets: Seq<Packet>) -> bool {
    let now = s0.last_packet_time;
    let kept = s0.pending_packets@.filter(alive_at(now));
    let timeout = s0.pending_packets.spec_inflight_timeout();
    let window = s0.pending_packets.spec_max_inflight() as int;
    let due = due_indices(kept, window, now, timeout);
    &&& s1 == (Session { pending_packets: s1.pending_packets, abandoned: s1.abandoned, ..s0 })
    &&& s1.abandoned@ == s0.abandoned@ + s0.pending_packets@.filter(expired_at(now)).map_values(
        pid_of(),
    )
    &&& s1.pending_packets.spec_max_inflight() == s0.pending_packets.spec_max_inflight()
    &&& s1.pending_packets.spec_max_in_mem_pending() == s0.pending_packets.spec_max_in_mem_pending()
    &&& s1.pending_packets.spec_inflight_timeout() == s0.pending_packets.spec_inflight_timeout()
    &&& s1.pending_packets@.len() == kept.len()
    &&& forall|i: int|
        0 <= i < kept.len() ==> #[trigger] s1.pending_packets@[i] == (if i < window
            && kept[i].is_due(now, timeout) {
            kept[i].resent(now)
        } else {
            kept[i]
        })
    &&& packets.len() == due.len()
    &&& forall|k: int|
        0 <= k < due.len() ==> 0 <= due[k] < kept.len() && #[trigger] packets[k] == transmission(
            kept[due[k] as int].resent(now),
        )
}

/// A tick of the retransmission timer: see [`pendings_handled`].
pub fn handle_pendings(session: &mut Session) -> (packets: Vec<Packet>)
    requires
        old(session).wf(),
    ensures
        final(session).wf(),
        pendings_handled(*old(session), *final(session), packets@),
{
    let now = session.last_packet_time;
    let ghost kept = session.pending_packets@.filter(alive_at(now));
    let ghost timeout = session.pending_packets.spec_inflight_timeout();
    let ghost window = session.pending_packets.spec_max_inflight() as int;
    let mut expiry = session.pending_packets.expire(now);
    session.abandoned.append(&mut expiry.abandoned);
    let ghost due = due_indices(kept, window, now, timeout);
    proof {
        lemma_due_indices(kept, window, now, timeout);
    }
    let mut packets: Vec<Packet> = Vec::new();
    let mut k: usize = 0;
    while k < expiry.retransmit.len()
        invariant
            k <= expiry.retransmit.len(),
            expiry.retransmit@ == due,
            session.wf(),
            session.pending_packets@.len() == kept.len(),
            forall|i: int|
                0 <= i < kept.len() ==> #[trigger] session.pending_packets@[i] == (if i < window
                    && kept[i].is_due(now, timeout) {
                    kept[i].resent(now)
                } else {
                    kept[i]
                }),
            forall|m: int|
                0 <= m < due.len() ==> 0 <= #[trigger] due[m] < kept.len() && due[m] < window
                    && kept[due[m] as int].is_due(now, timeout),
            packets@.len() == k,
            forall|m: int|
                0 <= m < k ==> #[trigger] packets@[m] == transmission(
                    kept[due[m] as int].resent(now),
                ),
        decreases expiry.retransmit.len() - k,
    {
        let index = expiry.retransmit[k];
        assert(index == due[k as int]);
        match session.pending_packets.get(index) {
            Some(entry) => {
                assert(*entry == session.pending_packets@[index as int]);
                packets.push(transmit(entry));
            },
            None => {
                assert(false);
            },
        }
        k += 1;
    }
    packets
}

/// The indices that are due lie in the window and in the queue, and the
/// entries at them are due.
pub proof fn lemma_due_indices<P>(s: Seq<PendingPacket<P>>, n: int, now: u64, timeout: u64)
    requires
        n <= 65536,
    ensures
        forall|m: int|
            0 <= m < due_indices(s, n, now, timeout).len() ==> 0 <= #[trigger] due_indices(
                s,
                n,
                now,
                timeout,
            )[m] < s.len() && due_indices(s, n, now, timeout)[m] < n && s[due_indices(
                s,
                n,
                now,
                timeout,
            )[m] as int].is_due(now, timeout),
    decreases n,
{
    if n > 0 {
        lemma_due_indices(s, n - 1, now, timeout);
        let before = due_indices(s, n - 1, now, timeout);
        let all = due_indices(s, n, now, timeout);
        assert forall|m: int| 0 <= m < all.len() implies 0 <= #[trigger] all[m] < s.len() && all[m]
            < n && s[all[m] as int].is_due(now, timeout) by {
            if m < before.len() {
                assert(all[m] == before[m]);
            } else {
                assert(all[m] == (n - 1) as usize);
            }
        }
    }
}

/// What follows every packet that was handled: the tick of the
/// retransmission timer. See [`pendings_handled`].
pub fn after_handle_packet(session: &mut Session) -> (packets: Vec<Packet>)
    requires
        old(session).wf(),
    ensures
        final(session).wf(),
        pendings_handled(*old(session), *final(session), packets@),
{
    handle_pendings(session)
}

} // verus!
