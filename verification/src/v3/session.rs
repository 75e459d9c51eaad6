//! The state of one connection of protocol version 3.1 or 3.1.1.

use vstd::prelude::*;
use crate::collections::pid_digests;
use crate::collections::pid_digests_new;
use crate::collections::subscriptions;
use crate::collections::subscriptions_new;
use crate::collections::Qos2Pids;
use crate::collections::Subscriptions;
use crate::config::Config;
use crate::collections::broadcast_queues;
use crate::collections::BroadcastPackets;
use crate::online::OnlineSession;
use crate::pending::pid_absent;
use crate::pending::pids_unique;
use crate::pending::PendingPacket;
use crate::pending::PendingPackets;
use crate::state::ClientReceiver;
use crate::state::NormalMessage;
use crate::topic::TopicName;
use crate::types::lemma_pid_equal;
use crate::types::pid_sum;
use crate::types::ClientId;
use crate::types::Payload;
use crate::types::PeerAddr;
use crate::types::Pid;
use crate::types::Protocol;
use crate::types::QoS;
use crate::types::SharedString;
use crate::v3::packet::LastWill;
use crate::v3::packet::Packet;
use std::sync::Arc;

verus! {

/// An outbound publish as the queue of unacknowledged packets keeps it.
#[derive(Debug)]
pub struct PubPacket {
    pub topic_name: TopicName,
    pub qos: QoS,
    pub retain: bool,
    pub payload: Payload,
}

/// The packet identifier `k` steps after `pid`, where 1 follows 65535.
pub open spec fn pid_after(pid: u16, k: int) -> int {
    (pid - 1 + k) % 65535 + 1
}

/// Whether an entry of the queue has a packet identifier with the number
/// `value`.
pub open spec fn value_pending<P>(s: Seq<PendingPacket<P>>, value: int) -> bool {
    exists|i: int| 0 <= i < s.len() && (#[trigger] s[i]).pid.spec_value() == value
}

/// Whether a packet identifier other than `pid` is free for a session
/// whose queue is `s`.
pub open spec fn has_spare<P>(s: Seq<PendingPacket<P>>, pid: u16) -> bool {
    exists|k: int| 1 <= k <= 65534 && !value_pending(s, #[trigger] pid_after(pid, k))
}

/// Whether `next` is the packet identifier that follows `pid` for a session
/// whose queue is `s`: the first one after `pid` that no entry of the queue
/// uses; or, where every other identifier is in use, `pid` itself.
pub open spec fn is_next_free<P>(s: Seq<PendingPacket<P>>, pid: u16, next: u16) -> bool {
    ||| exists|k: int|
        {
            &&& 1 <= k <= 65534
            &&& next == #[trigger] pid_after(pid, k)
            &&& !value_pending(s, next as int)
            &&& forall|j: int| 1 <= j < k ==> value_pending(s, #[trigger] pid_after(pid, j))
        }
    ||| {
        &&& next == pid
        &&& !has_spare(s, pid)
    }
}

/// The packet identifier that follows `pid` is another one, if there is a
/// spare one at all.
pub proof fn lemma_next_differs<P>(s: Seq<PendingPacket<P>>, pid: u16, next: u16)
    requires
        1 <= pid <= 65535,
        is_next_free(s, pid, next),
    ensures
        next != pid <==> has_spare(s, pid),
        next != pid ==> !value_pending(s, next as int),
{
    if exists|k: int|
        {
            &&& 1 <= k <= 65534
            &&& next == #[trigger] pid_after(pid, k)
            &&& !value_pending(s, next as int)
            &&& forall|j: int| 1 <= j < k ==> value_pending(s, #[trigger] pid_after(pid, j))
        } {
        let k = choose|k: int|
            {
                &&& 1 <= k <= 65534
                &&& next == #[trigger] pid_after(pid, k)
                &&& !value_pending(s, next as int)
                &&& forall|j: int| 1 <= j < k ==> value_pending(s, #[trigger] pid_after(pid, j))
            };
        assert(pid_after(pid, k) != pid) by {
            if pid - 1 + k < 65535 {
                assert((pid - 1 + k) % 65535 == pid - 1 + k);
            } else {
                assert((pid - 1 + k) % 65535 == pid - 1 + k - 65535);
            }
        }
        assert(!value_pending(s, pid_after(pid, k)));
    }
}

/// The state of one connection.
pub struct Session {
    pub peer: PeerAddr,
    pub connected: bool,
    pub disconnected: bool,
    pub protocol: Protocol,
    /// The time of the packet that is being handled, in seconds: the clock
    /// by which the handlers measure.
    pub last_packet_time: u64,
    /// The packet identifier of the next outbound publish.
    pub server_packet_id: Pid,
    pub pending_packets: PendingPackets<PubPacket>,
    /// The outbound publishes that were given up because their message
    /// expired before it was acknowledged, oldest first. The loop of the
    /// connection warns of each and clears the list.
    pub abandoned: Vec<Pid>,
    /// The inbound QoS 2 publishes that are not complete yet.
    pub qos2_pids: Qos2Pids,
    pub client_id: ClientId,
    pub client_identifier: SharedString,
    pub username: Option<SharedString>,
    pub keep_alive: u16,
    pub clean_session: bool,
    pub last_will: Option<LastWill>,
    pub subscribes: Subscriptions,
    pub broadcast_packets_max: usize,
    pub broadcast_packets_cnt: usize,
    pub broadcast_packets: BroadcastPackets,
}

/// What a session hands to the connection that takes it over.
pub struct SessionState {
    pub client_id: ClientId,
    pub receiver: ClientReceiver,
    pub protocol: Protocol,
    pub server_packet_id: Pid,
    pub pending_packets: PendingPackets<PubPacket>,
    pub qos2_pids: Qos2Pids,
    pub subscribes: Subscriptions,
    pub broadcast_packets_cnt: usize,
    pub broadcast_packets: BroadcastPackets,
}

impl SessionState {
    /// The state is that of a well-formed session.
    pub open spec fn wf(&self) -> bool {
        &&& self.pending_packets.wf()
        &&& pids_unique(self.pending_packets@)
        &&& pid_absent(self.pending_packets@, self.server_packet_id)
    }
}

impl Session {
    /// The session is well formed: its queue of outbound publishes is, no
    /// two publishes in it have the same packet identifier, and none has
    /// the identifier that the next one gets.
    pub open spec fn wf(&self) -> bool {
        &&& self.pending_packets.wf()
        &&& pids_unique(self.pending_packets@)
        &&& pid_absent(self.pending_packets@, self.server_packet_id)
    }

    /// The session of a connection that has just been accepted at `now`.
    pub fn new(config: &Config, peer: PeerAddr, now: u64) -> (session: Session)
        ensures
            session.wf(),
            session.peer == peer,
            !session.connected,
            !session.disconnected,
            session.protocol == Protocol::V311,
            session.last_packet_time == now,
            session.server_packet_id.spec_value() == 1,
            session.pending_packets@.len() == 0,
            session.pending_packets.spec_max_inflight() == config.max_inflight_client,
            session.pending_packets.spec_max_in_mem_pending()
                == config.max_in_mem_pending_messages,
            session.pending_packets.spec_inflight_timeout() == config.inflight_timeout,
            session.abandoned@.len() == 0,
            pid_digests(session.qos2_pids) == (Map::<u16, u64>::empty()),
            session.client_id == u64::MAX,
            session.client_identifier@.len() == 0,
            session.username is None,
            session.keep_alive == 0,
            session.clean_session,
            session.last_will is None,
            subscriptions(session.subscribes).dom() == (Set::<Seq<char>>::empty()),
            session.broadcast_packets_max == 10,
            session.broadcast_packets_cnt == 0,
            broadcast_queues(session.broadcast_packets) == (Map::<u64, Seq<NormalMessage>>::empty()),
    {
        Session {
            peer,
            connected: false,
            disconnected: false,
            protocol: Protocol::V311,
            last_packet_time: now,
            server_packet_id: Pid::default(),
            pending_packets: PendingPackets::new(
                config.max_inflight_client,
                config.max_in_mem_pending_messages,
                config.inflight_timeout,
            ),
            abandoned: Vec::new(),
            qos2_pids: pid_digests_new(),
            client_id: u64::MAX,
            client_identifier: Arc::new(String::new()),
            username: None,
            keep_alive: 0,
            clean_session: true,
            last_will: None,
            subscribes: subscriptions_new(),
            broadcast_packets_max: 10,
            broadcast_packets_cnt: 0,
            broadcast_packets: BroadcastPackets::new(),
        }
    }

    pub fn client_identifier(&self) -> (identifier: &SharedString)
        ensures
            *identifier == self.client_identifier,
    {
        &self.client_identifier
    }

    pub fn username(&self) -> (username: Option<&SharedString>)
        ensures
            username is Some <==> self.username is Some,
            username matches Some(u) ==> *u == self.username->0,
    {
        self.username.as_ref()
    }

    pub fn keep_alive(&self) -> (keep_alive: u16)
        ensures
            keep_alive == self.keep_alive,
    {
        self.keep_alive
    }

    pub fn clean_session(&self) -> (clean_session: bool)
        ensures
            clean_session == self.clean_session,
    {
        self.clean_session
    }

    pub fn last_will(&self) -> (last_will: Option<&LastWill>)
        ensures
            last_will is Some <==> self.last_will is Some,
            last_will matches Some(w) ==> *w == self.last_will->0,
    {
        self.last_will.as_ref()
    }

    pub fn subscribes(&self) -> (subscribes: &Subscriptions)
        ensures
            *subscribes == self.subscribes,
    {
        &self.subscribes
    }

    pub fn peer(&self) -> (peer: PeerAddr)
        ensures
            peer == self.peer,
    {
        self.peer
    }

    pub fn last_packet_time(&self) -> (time: u64)
        ensures
            time == self.last_packet_time,
    {
        self.last_packet_time
    }

    /// Sets the clock of the session: a packet came in at `now`.
    pub fn touch(&mut self, now: u64)
        ensures
            *final(self) == (Session { last_packet_time: now, ..*old(self) }),
    {
        self.last_packet_time = now;
    }

    /// Hands out the packet identifier for the next outbound publish,
    /// which no publish in the queue uses, and moves on to the one after
    /// it that none uses. Where every other identifier is in use the
    /// session stays with the one that it handed out.
    pub fn incr_server_packet_id(&mut self) -> (pid: Pid)
        requires
            old(self).wf(),
        ensures
            final(self).wf(),
            pid == old(self).server_packet_id,
            pid_absent(old(self).pending_packets@, pid),
            *final(self) == (Session { server_packet_id: final(self).server_packet_id, ..*old(self) }),
            is_next_free(
                old(self).pending_packets@,
                pid.spec_value(),
                final(self).server_packet_id.spec_value(),
            ),
    {
        let pid = self.server_packet_id;
        let first = pid.wrapping_add(1);
        let ghost s = self.pending_packets@;
        let ghost start = pid.spec_value();
        let pid_value = pid.value();
        let mut candidate = first;
        let mut k: u32 = 1;
        assert(candidate.spec_value() == pid_after(start, 1));
        while k <= 65534
            invariant
                1 <= k <= 65535,
                1 <= start <= 65535,
                pid == old(self).server_packet_id,
                start == pid.spec_value(),
                s == self.pending_packets@,
                *self == *old(self),
                old(self).wf(),
                candidate.spec_value() == pid_after(start, k as int),
                first.spec_value() == pid_after(start, 1),
                forall|j: int| 1 <= j < k ==> value_pending(s, #[trigger] pid_after(start, j)),
            decreases 65535 - k,
        {
            if !self.pending_packets.contains_pid(candidate) {
                proof {
                    assert forall|i: int| 0 <= i < s.len() implies (#[trigger] s[i]).pid.spec_value()
                        != candidate.spec_value() by {
                        lemma_pid_equal(s[i].pid, candidate);
                    }
                }
                self.server_packet_id = candidate;
                assert(candidate.spec_value() == pid_after(start, k as int));
                assert(!value_pending(s, candidate.spec_value() as int));
                assert(pid_absent(s, candidate));
                return pid;
            }
            proof {
                let i = choose|i: int| 0 <= i < s.len() && (#[trigger] s[i]).pid == candidate;
                assert(s[i].pid.spec_value() == candidate.spec_value());
                assert(value_pending(s, pid_after(start, k as int)));
            }
            let ghost before = candidate.spec_value();
            candidate = candidate.wrapping_add(1);
            assert(candidate.spec_value() == pid_after(start, k + 1)) by {
                assert(candidate.spec_value() as int == pid_sum(before, 1));
                assert(before == (start - 1 + k) % 65535 + 1);
            }
            k += 1;
        }
        assert(!has_spare(s, start));
        pid
    }

    /// Takes what a connection that takes the session over needs: the
    /// queue of outbound publishes, the incomplete inbound publishes, the
    /// subscriptions and the broadcast queue, all of which are empty here
    /// afterwards.
    pub fn build_state(&mut self, receiver: ClientReceiver) -> (state: SessionState)
        ensures
            state.client_id == old(self).client_id,
            state.receiver == receiver,
            state.protocol == old(self).protocol,
            state.server_packet_id == old(self).server_packet_id,
            state.pending_packets == old(self).pending_packets,
            state.qos2_pids == old(self).qos2_pids,
            state.subscribes == old(self).subscribes,
            state.broadcast_packets_cnt == old(self).broadcast_packets_cnt,
            state.broadcast_packets == old(self).broadcast_packets,
            old(self).wf() ==> state.wf(),
            final(self).wf(),
            final(self).pending_packets@.len() == 0,
            final(self).pending_packets.spec_max_inflight() == 0,
            final(self).pending_packets.spec_max_in_mem_pending() == 0,
            pid_digests(final(self).qos2_pids) == (Map::<u16, u64>::empty()),
            subscriptions(final(self).subscribes).dom() == (Set::<Seq<char>>::empty()),
            broadcast_queues(final(self).broadcast_packets) == (Map::<u64, Seq<NormalMessage>>::empty()),
            final(self).peer == old(self).peer,
            final(self).connected == old(self).connected,
            final(self).disconnected == old(self).disconnected,
            final(self).protocol == old(self).protocol,
            final(self).last_packet_time == old(self).last_packet_time,
            final(self).server_packet_id == old(self).server_packet_id,
            final(self).client_id == old(self).client_id,
            final(self).client_identifier == old(self).client_identifier,
            final(self).username == old(self).username,
            final(self).keep_alive == old(self).keep_alive,
            final(self).clean_session == old(self).clean_session,
            final(self).last_will == old(self).last_will,
            final(self).broadcast_packets_max == old(self).broadcast_packets_max,
            final(self).broadcast_packets_cnt == old(self).broadcast_packets_cnt,
    {
        let mut pending_packets = PendingPackets::new(0, 0, 0);
        let mut qos2_pids = pid_digests_new();
        let mut subscribes = subscriptions_new();
        let mut broadcast_packets = BroadcastPackets::new();
        std::mem::swap(&mut self.pending_packets, &mut pending_packets);
        std::mem::swap(&mut self.qos2_pids, &mut qos2_pids);
        std::mem::swap(&mut self.subscribes, &mut subscribes);
        std::mem::swap(&mut self.broadcast_packets, &mut broadcast_packets);
        SessionState {
            client_id: self.client_id,
            receiver,
            protocol: self.protocol,
            server_packet_id: self.server_packet_id,
            pending_packets,
            qos2_pids,
            subscribes,
            broadcast_packets_cnt: self.broadcast_packets_cnt,
            broadcast_packets,
        }
    }

    /// Counts `count` messages of the broadcast queue as handed over.
    pub fn consume_broadcast(&mut self, count: usize)
        requires
            count <= old(self).broadcast_packets_cnt,
        ensures
            *final(self) == (Session {
                broadcast_packets_cnt: (old(self).broadcast_packets_cnt - count) as usize,
                ..*old(self)
            }),
    {
        self.broadcast_packets_cnt -= count;
    }

    /// The broadcast queue, for the loop to take messages from.
    pub fn broadcast_packets(&mut self) -> (queue: &mut BroadcastPackets)
        ensures
            *queue == old(self).broadcast_packets,
            *final(self) == (Session { broadcast_packets: *final(queue), ..*old(self) }),
    {
        &mut self.broadcast_packets
    }
}

impl OnlineSession for Session {
    type Packet = Packet;

    fn client_id(&self) -> (client_id: ClientId)
        ensures
            client_id == self.client_id,
    {
        self.client_id
    }

    fn disconnected(&self) -> (disconnected: bool)
        ensures
            disconnected == self.disconnected,
    {
        self.disconnected
    }

    fn broadcast_packets_cnt(&self) -> (cnt: usize)
        ensures
            cnt == self.broadcast_packets_cnt,
    {
        self.broadcast_packets_cnt
    }

    fn broadcast_packets_max(&self) -> (max: usize)
        ensures
            max == self.broadcast_packets_max,
    {
        self.broadcast_packets_max
    }
}

} // verus!
