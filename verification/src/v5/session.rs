//! The state of one connection of protocol version 5.0.

use vstd::prelude::*;
use vstd::bytes::spec_u32_from_le_bytes;
use vstd::bytes::spec_u32_to_le_bytes;
use vstd::bytes::spec_u64_from_le_bytes;
use vstd::bytes::spec_u64_to_le_bytes;
use vstd::bytes::u32_from_le_bytes;
use vstd::bytes::u32_to_le_bytes;
use vstd::bytes::u64_from_le_bytes;
use vstd::bytes::u64_to_le_bytes;
use crate::collections::alias_topics;
use crate::collections::alias_topics_new;
use crate::collections::pid_digests;
use crate::collections::pid_digests_new;
use crate::collections::subscriptions;
use crate::collections::subscriptions_new;
use crate::collections::Qos2Pids;
use crate::collections::Subscriptions;
use crate::collections::TopicAliases;
use crate::config::Config;
use crate::collections::broadcast_queues;
use crate::collections::BroadcastPackets;
use crate::online::OnlineSession;
use crate::pending::pid_absent;
use crate::pending::pids_unique;
use crate::pending::PendingPackets;
use crate::state::ClientReceiver;
use crate::state::NormalMessage;
use crate::topic::TopicName;
use crate::types::lemma_pid_equal;
use crate::types::pid_sum;
use crate::types::ClientId;
use crate::types::PeerAddr;
use crate::types::Pid;
use crate::types::Protocol;
use crate::types::SharedString;
use crate::v3::session::has_spare;
use crate::v3::session::is_next_free;
use crate::v3::session::pid_after;
use crate::v3::session::value_pending;
use crate::v5::packet::LastWill;
use crate::v5::packet::Packet;
use crate::v5::types::UserProperty;
use rand::RngCore;
use std::sync::Arc;
use crate::types::share;
use crate::types::Payload;
use crate::types::QoS;
use crate::v5::types::PublishProperties;
use crate::v5::types::SubscriptionOptions;

verus! {

/// How far the SCRAM exchange of a connection has come.
#[derive(Debug, Clone, PartialEq, Eq)]
pub enum ScramStage {
    Init,
    /// The client's first message came in and the server's first went out.
    ClientFirst { message: String, server_nonce: Vec<u8>, time: u64 },
    /// The client's final message came in and the server's final went out.
    Final(u64),
}

/// What a session keeps of one subscription.
#[derive(Debug, Clone, Copy, PartialEq, Eq, Structural)]
pub struct SubscriptionData {
    pub options: SubscriptionOptions,
    /// The subscription identifier, if the client gave one.
    pub id: Option<u32>,
}

impl SubscriptionData {
    pub fn new(options: SubscriptionOptions, id: Option<u32>) -> (data: Self)
        ensures
            data == (SubscriptionData { options, id }),
    {
        SubscriptionData { options, id }
    }
}

/// An outbound publish as the queue of unacknowledged packets keeps it.
#[derive(Debug)]
pub struct PubPacket {
    pub topic_name: TopicName,
    pub qos: QoS,
    pub retain: bool,
    pub payload: Payload,
    pub properties: PublishProperties,
}

impl Clone for PubPacket {
    /// The same publish, sharing its topic and payload.
    fn clone(&self) -> (copy: PubPacket)
        ensures
            copy == *self,
    {
        PubPacket {
            topic_name: self.topic_name.clone(),
            qos: self.qos,
            retain: self.retain,
            payload: share(&self.payload),
            properties: self.properties.clone(),
        }
    }
}

/// The state of one connection.
pub struct Session {
    pub peer: PeerAddr,
    pub authorizing: bool,
    pub connected: bool,
    pub client_disconnected: bool,
    pub server_disconnected: bool,
    pub protocol: Protocol,
    pub scram_stage: ScramStage,
    pub connected_time: Option<u64>,
    /// When a DISCONNECT came in or the connection was closed.
    pub connection_closed_time: Option<u64>,
    /// The time of the packet that is being handled, in seconds: the clock
    /// by which the handlers measure.
    pub last_packet_time: u64,
    /// The packet identifier of the next outbound publish.
    pub server_packet_id: Pid,
    pub pending_packets: PendingPackets<PubPacket>,
    /// The outbound publishes that were given up because their message
    /// expired before it was acknowledged, oldest first. The loop of the
    /// connection warns of each and clears the list.
    pub abandoned: Vec<Pid>,
    /// The inbound QoS 2 publishes that are not complete yet.
    pub qos2_pids: Qos2Pids,
    pub client_id: ClientId,
    pub client_identifier: SharedString,
    pub assigned_client_id: bool,
    pub server_keep_alive: bool,
    /// The user name and the role that the SCRAM exchange gave.
    pub scram_auth_result: Option<(String, Option<String>)>,
    pub username: Option<SharedString>,
    pub keep_alive: u16,
    pub clean_start: bool,
    pub last_will: Option<LastWill>,
    pub subscribes: Subscriptions,
    /// The topic aliases of the connection. They do not outlive it.
    pub topic_aliases: TopicAliases,
    pub broadcast_packets_max: usize,
    pub broadcast_packets_cnt: usize,
    pub broadcast_packets: BroadcastPackets,
    pub session_expiry_interval: u32,
    pub receive_max: u16,
    /// The largest packet that the broker may send to the client.
    pub max_packet_size: u32,
    /// The highest topic alias that the broker may use towards the client.
    pub topic_alias_max: u16,
    pub request_response_info: bool,
    pub request_problem_info: bool,
    pub user_properties: Vec<UserProperty>,
    pub auth_method: Option<SharedString>,
}

/// What a session hands to the connection that takes it over.
pub struct SessionState {
    pub client_id: ClientId,
    pub receiver: ClientReceiver,
    pub protocol: Protocol,
    pub server_packet_id: Pid,
    pub pending_packets: PendingPackets<PubPacket>,
    pub qos2_pids: Qos2Pids,
    pub subscribes: Subscriptions,
    pub broadcast_packets_cnt: usize,
    pub broadcast_packets: BroadcastPackets,
}

impl SessionState {
    /// The state is that of a well-formed session.
    pub open spec fn wf(&self) -> bool {
        &&& self.pending_packets.wf()
        &&& pids_unique(self.pending_packets@)
        &&& pid_absent(self.pending_packets@, self.server_packet_id)
    }
}

impl Session {
    /// The session is well formed: its queue of outbound publishes is, no
    /// two publishes in it have the same packet identifier, and none has
    /// the identifier that the next one gets.
    pub open spec fn wf(&self) -> bool {
        &&& self.pending_packets.wf()
        &&& pids_unique(self.pending_packets@)
        &&& pid_absent(self.pending_packets@, self.server_packet_id)
    }

    /// Whether the connection has been closed in good order, by either
    /// side.
    pub open spec fn spec_disconnected(&self) -> bool {
        self.client_disconnected || self.server_disconnected
    }

    /// The session of a connection that has just been accepted at `now`.
    pub fn new(config: &Config, peer: PeerAddr, now: u64) -> (session: Session)
        ensures
            session.wf(),
            session.peer == peer,
            !session.authorizing,
            !session.connected,
            !session.client_disconnected,
            !session.server_disconnected,
            session.protocol == Protocol::V500,
            session.scram_stage is Init,
            session.connected_time is None,
            session.connection_closed_time is None,
            session.last_packet_time == now,
            session.server_packet_id.spec_value() == 1,
            session.pending_packets@.len() == 0,
            session.pending_packets.spec_max_inflight() == config.max_inflight_client,
            session.pending_packets.spec_max_in_mem_pending()
                == config.max_in_mem_pending_messages,
            session.pending_packets.spec_inflight_timeout() == config.inflight_timeout,
            session.abandoned@.len() == 0,
            pid_digests(session.qos2_pids) == (Map::<u16, u64>::empty()),
            session.client_id == u64::MAX,
            session.client_identifier@.len() == 0,
            !session.assigned_client_id,
            !session.server_keep_alive,
            session.scram_auth_result is None,
            session.username is None,
            session.keep_alive == 0,
            session.clean_start,
            session.last_will is None,
            subscriptions(session.subscribes).dom() == (Set::<Seq<char>>::empty()),
            alias_topics(session.topic_aliases).dom() == (Set::<u16>::empty()),
            session.broadcast_packets_max == 10,
            session.broadcast_packets_cnt == 0,
            broadcast_queues(session.broadcast_packets) == (Map::<u64, Seq<NormalMessage>>::empty()),
            session.session_expiry_interval == 0,
            session.receive_max == config.max_inflight_client,
            session.max_packet_size == config.max_packet_size_client,
            session.topic_alias_max == 0,
            !session.request_response_info,
            session.request_problem_info,
            session.user_properties@.len() == 0,
            session.auth_method is None,
    {
        Session {
            peer,
            authorizing: false,
            connected: false,
            client_disconnected: false,
            server_disconnected: false,
            protocol: Protocol::V500,
            scram_stage: ScramStage::Init,
            connected_time: None,
            connection_closed_time: None,
            last_packet_time: now,
            server_packet_id: Pid::default(),
            pending_packets: PendingPackets::new(
                config.max_inflight_client,
                config.max_in_mem_pending_messages,
                config.inflight_timeout,
            ),
            abandoned: Vec::new(),
            qos2_pids: pid_digests_new(),
            client_id: u64::MAX,
            client_identifier: Arc::new(String::new()),
            assigned_client_id: false,
            server_keep_alive: false,
            scram_auth_result: None,
            username: None,
            keep_alive: 0,
            clean_start: true,
            last_will: None,
            subscribes: subscriptions_new(),
            topic_aliases: alias_topics_new(),
            broadcast_packets_max: 10,
            broadcast_packets_cnt: 0,
            broadcast_packets: BroadcastPackets::new(),
            session_expiry_interval: 0,
            receive_max: config.max_inflight_client,
            max_packet_size: config.max_packet_size_client,
            topic_alias_max: 0,
            request_response_info: false,
            request_problem_info: true,
            user_properties: Vec::new(),
            auth_method: None,
        }
    }

    pub fn client_id(&self) -> (client_id: ClientId)
        ensures
            client_id == self.client_id,
    {
        self.client_id
    }

    pub fn client_identifier(&self) -> (identifier: &SharedString)
        ensures
            *identifier == self.client_identifier,
    {
        &self.client_identifier
    }

    pub fn assigned_client_id(&self) -> (assigned: bool)
        ensures
            assigned == self.assigned_client_id,
    {
        self.assigned_client_id
    }

    pub fn username(&self) -> (username: Option<&SharedString>)
        ensures
            username is Some <==> self.username is Some,
            username matches Some(u) ==> *u == self.username->0,
    {
        self.username.as_ref()
    }

    pub fn keep_alive(&self) -> (keep_alive: u16)
        ensures
            keep_alive == self.keep_alive,
    {
        self.keep_alive
    }

    pub fn clean_start(&self) -> (clean_start: bool)
        ensures
            clean_start == self.clean_start,
    {
        self.clean_start
    }

    pub fn last_will(&self) -> (last_will: Option<&LastWill>)
        ensures
            last_will is Some <==> self.last_will is Some,
            last_will matches Some(w) ==> *w == self.last_will->0,
    {
        self.last_will.as_ref()
    }

    pub fn subscribes(&self) -> (subscribes: &Subscriptions)
        ensures
            *subscribes == self.subscribes,
    {
        &self.subscribes
    }

    pub fn topic_aliases(&self) -> (aliases: &TopicAliases)
        ensures
            *aliases == self.topic_aliases,
    {
        &self.topic_aliases
    }

    pub fn session_expiry_interval(&self) -> (interval: u32)
        ensures
            interval == self.session_expiry_interval,
    {
        self.session_expiry_interval
    }

    pub fn receive_max(&self) -> (receive_max: u16)
        ensures
            receive_max == self.receive_max,
    {
        self.receive_max
    }

    pub fn max_packet_size(&self) -> (size: u32)
        ensures
            size == self.max_packet_size,
    {
        self.max_packet_size
    }

    pub fn peer(&self) -> (peer: PeerAddr)
        ensures
            peer == self.peer,
    {
        self.peer
    }

    pub fn connected_time(&self) -> (time: Option<u64>)
        ensures
            time == self.connected_time,
    {
        self.connected_time
    }

    pub fn last_packet_time(&self) -> (time: u64)
        ensures
            time == self.last_packet_time,
    {
        self.last_packet_time
    }

    /// Sets the clock of the session: a packet came in at `now`.
    pub fn touch(&mut self, now: u64)
        ensures
            *final(self) == (Session { last_packet_time: now, ..*old(self) }),
    {
        self.last_packet_time = now;
    }

    /// Hands out the packet identifier for the next outbound publish,
    /// which no publish in the queue uses, and moves on to the one after
    /// it that none uses. Where every other identifier is in use the
    /// session stays with the one that it handed out.
    pub fn incr_server_packet_id(&mut self) -> (pid: Pid)
        requires
            old(self).wf(),
        ensures
            final(self).wf(),
            pid == old(self).server_packet_id,
            pid_absent(old(self).pending_packets@, pid),
            *final(self) == (Session { server_packet_id: final(self).server_packet_id, ..*old(self) }),
            is_next_free(
                old(self).pending_packets@,
                pid.spec_value(),
                final(self).server_packet_id.spec_value(),
            ),
    {
        let pid = self.server_packet_id;
        let first = pid.wrapping_add(1);
        let ghost s = self.pending_packets@;
        let ghost start = pid.spec_value();
        let pid_value = pid.value();
        let mut candidate = first;
        let mut k: u32 = 1;
        assert(candidate.spec_value() == pid_after(start, 1));
        while k <= 65534
            invariant
                1 <= k <= 65535,
                1 <= start <= 65535,
                pid == old(self).server_packet_id,
                start == pid.spec_value(),
                s == self.pending_packets@,
                *self == *old(self),
                old(self).wf(),
                candidate.spec_value() == pid_after(start, k as int),
                first.spec_value() == pid_after(start, 1),
                forall|j: int| 1 <= j < k ==> value_pending(s, #[trigger] pid_after(start, j)),
            decreases 65535 - k,
        {
            if !self.pending_packets.contains_pid(candidate) {
                proof {
                    assert forall|i: int| 0 <= i < s.len() implies (#[trigger] s[i]).pid.spec_value()
                        != candidate.spec_value() by {
                        lemma_pid_equal(s[i].pid, candidate);
                    }
                }
                self.server_packet_id = candidate;
                assert(candidate.spec_value() == pid_after(start, k as int));
                assert(!value_pending(s, candidate.spec_value() as int));
                assert(pid_absent(s, candidate));
                return pid;
            }
            proof {
                let i = choose|i: int| 0 <= i < s.len() && (#[trigger] s[i]).pid == candidate;
                assert(s[i].pid.spec_value() == candidate.spec_value());
                assert(value_pending(s, pid_after(start, k as int)));
            }
            let ghost before = candidate.spec_value();
            candidate = candidate.wrapping_add(1);
            assert(candidate.spec_value() == pid_after(start, k + 1)) by {
                assert(candidate.spec_value() as int == pid_sum(before, 1));
                assert(before == (start - 1 + k) % 65535 + 1);
            }
            k += 1;
        }
        assert(!has_spare(s, start));
        pid
    }

    /// Takes what a connection that takes the session over needs: the
    /// queue of outbound publishes, the incomplete inbound publishes, the
    /// subscriptions and the broadcast queue, all of which are empty here
    /// afterwards.
    pub fn build_state(&mut self, receiver: ClientReceiver) -> (state: SessionState)
        ensures
            state.client_id == old(self).client_id,
            state.receiver == receiver,
            state.protocol == old(self).protocol,
            state.server_packet_id == old(self).server_packet_id,
            state.pending_packets == old(self).pending_packets,
            state.qos2_pids == old(self).qos2_pids,
            state.subscribes == old(self).subscribes,
            state.broadcast_packets_cnt == old(self).broadcast_packets_cnt,
            state.broadcast_packets == old(self).broadcast_packets,
            old(self).wf() ==> state.wf(),
            final(self).wf(),
            *final(self) == (Session {
                pending_packets: final(self).pending_packets,
                qos2_pids: final(self).qos2_pids,
                subscribes: final(self).subscribes,
                broadcast_packets: final(self).broadcast_packets,
                ..*old(self)
            }),
            final(self).pending_packets@.len() == 0,
            final(self).pending_packets.spec_max_inflight() == 0,
            final(self).pending_packets.spec_max_in_mem_pending() == 0,
            pid_digests(final(self).qos2_pids) == (Map::<u16, u64>::empty()),
            subscriptions(final(self).subscribes).dom() == (Set::<Seq<char>>::empty()),
            broadcast_queues(final(self).broadcast_packets) == (Map::<u64, Seq<NormalMessage>>::empty()),
    {
        let mut pending_packets = PendingPackets::new(0, 0, 0);
        let mut qos2_pids = pid_digests_new();
        let mut subscribes = subscriptions_new();
        let mut broadcast_packets = BroadcastPackets::new();
        std::mem::swap(&mut self.pending_packets, &mut pending_packets);
        std::mem::swap(&mut self.qos2_pids, &mut qos2_pids);
        std::mem::swap(&mut self.subscribes, &mut subscribes);
        std::mem::swap(&mut self.broadcast_packets, &mut broadcast_packets);
        SessionState {
            client_id: self.client_id,
            receiver,
            protocol: self.protocol,
            server_packet_id: self.server_packet_id,
            pending_packets,
            qos2_pids,
            subscribes,
            broadcast_packets_cnt: self.broadcast_packets_cnt,
            broadcast_packets,
        }
    }

    /// Counts `count` messages of the broadcast queue as handed over.
    pub fn consume_broadcast(&mut self, count: usize)
        requires
            count <= old(self).broadcast_packets_cnt,
        ensures
            *final(self) == (Session {
                broadcast_packets_cnt: (old(self).broadcast_packets_cnt - count) as usize,
                ..*old(self)
            }),
    {
        self.broadcast_packets_cnt -= count;
    }

    /// The broadcast queue, for the loop to take messages from.
    pub fn broadcast_packets(&mut self) -> (queue: &mut BroadcastPackets)
        ensures
            *queue == old(self).broadcast_packets,
            *final(self) == (Session { broadcast_packets: *final(queue), ..*old(self) }),
    {
        &mut self.broadcast_packets
    }
}

impl OnlineSession for Session {
    type Packet = Packet;

    fn client_id(&self) -> (client_id: ClientId)
        ensures
            client_id == self.client_id,
    {
        self.client_id
    }

    fn disconnected(&self) -> (disconnected: bool)
        ensures
            disconnected == self.spec_disconnected(),
    {
        self.client_disconnected || self.server_disconnected
    }

    fn broadcast_packets_cnt(&self) -> (cnt: usize)
        ensures
            cnt == self.broadcast_packets_cnt,
    {
        self.broadcast_packets_cnt
    }

    fn broadcast_packets_max(&self) -> (max: usize)
        ensures
            max == self.broadcast_packets_max,
    {
        self.broadcast_packets_max
    }
}

#[verifier::external_type_specification]
#[verifier::external_body]
pub struct ExRandError(rand::Error);

/// `next_u32` of `rand::rngs::OsRng`: a number from the operating system's
/// source of randomness, of which nothing is known beforehand.
#[verifier::external_body]
fn os_next_u32() -> (value: u32) {
    rand::rngs::OsRng.next_u32()
}

/// `next_u64` of `rand::rngs::OsRng`: a number from the operating system's
/// source of randomness, of which nothing is known beforehand.
#[verifier::external_body]
fn os_next_u64() -> (value: u64) {
    rand::rngs::OsRng.next_u64()
}

/// `fill_bytes` of `rand::rngs::OsRng`: overwrites the bytes of `dest`,
/// as many as there are, with random ones.
#[verifier::external_body]
fn os_fill_bytes(dest: &mut Vec<u8>)
    ensures
        final(dest)@.len() == old(dest)@.len(),
{
    rand::rngs::OsRng.fill_bytes(dest.as_mut_slice())
}

/// `try_fill_bytes` of `rand::rngs::OsRng`: overwrites the bytes of
/// `dest`, as many as there are, with random ones, or fails.
#[verifier::external_body]
fn os_try_fill_bytes(dest: &mut Vec<u8>) -> (result: Result<(), rand::Error>)
    ensures
        final(dest)@.len() == old(dest)@.len(),
{
    rand::rngs::OsRng.try_fill_bytes(dest.as_mut_slice())
}

/// A source of randomness that keeps what it gave out, so that the nonce
/// of a SCRAM exchange can be had again: it either draws from the
/// operating system and records every byte, or replays a record.
pub struct TracedRng {
    recording: bool,
    data_idx: usize,
    data: Vec<u8>,
}

impl TracedRng {
    /// Whether the source draws fresh randomness and records it.
    pub closed spec fn recording(&self) -> bool {
        self.recording
    }

    /// The record: every byte given out so far when recording, the bytes
    /// to give out when replaying.
    pub closed spec fn data(&self) -> Seq<u8> {
        self.data@
    }

    /// How many bytes of the record have been replayed.
    pub closed spec fn position(&self) -> int {
        self.data_idx as int
    }

    /// The source is well formed: it has not replayed more than it has.
    pub open spec fn wf(&self) -> bool {
        0 <= self.position() <= self.data().len()
    }

    /// How many bytes can still be had: any number when recording, the
    /// rest of the record when replaying.
    pub open spec fn can_give(&self, n: int) -> bool {
        self.recording() || self.position() + n <= self.data().len()
    }

    /// A source that draws fresh randomness and records it.
    pub fn new_empty() -> (rng: TracedRng)
        ensures
            rng.wf(),
            rng.recording(),
            rng.data().len() == 0,
            rng.position() == 0,
    {
        TracedRng { recording: true, data_idx: 0, data: Vec::new() }
    }

    /// A source that replays `data`.
    pub fn new_from(data: Vec<u8>) -> (rng: TracedRng)
        ensures
            rng.wf(),
            !rng.recording(),
            rng.data() == data@,
            rng.position() == 0,
    {
        TracedRng { recording: false, data_idx: 0, data }
    }

    /// The record.
    pub fn into_data(self) -> (data: Vec<u8>)
        ensures
            data@ == self.data(),
    {
        self.data
    }

    /// Whether `n` more bytes can be had.
    pub fn has(&self, n: usize) -> (enough: bool)
        requires
            self.wf(),
        ensures
            enough == self.can_give(n as int),
    {
        self.recording || self.data.len() - self.data_idx >= n
    }

    /// Takes the next `n` bytes of the record.
    fn replay(&mut self, n: usize) -> (bytes: Vec<u8>)
        requires
            old(self).wf(),
            old(self).position() + n <= old(self).data().len(),
        ensures
            final(self).wf(),
            final(self).recording() == old(self).recording(),
            final(self).data() == old(self).data(),
            final(self).position() == old(self).position() + n,
            bytes@ == old(self).data().subrange(old(self).position(), old(self).position() + n),
    {
        let mut bytes: Vec<u8> = Vec::new();
        let start = self.data_idx;
        let len = self.data.len();
        let mut i: usize = 0;
        while i < n
            invariant
                i <= n,
                len == self.data@.len(),
                start + n <= len,
                start == self.data_idx,
                *self == *old(self),
                bytes@ == self.data@.subrange(start as int, start + i),
            decreases n - i,
        {
            bytes.push(self.data[start + i]);
            assert(self.data@.subrange(start as int, start + i + 1) =~= self.data@.subrange(
                start as int,
                start + i,
            ).push(self.data@[start + i]));
            i += 1;
        }
        self.data_idx = start + n;
        bytes
    }

    /// Appends bytes to the record.
    fn record(&mut self, bytes: &Vec<u8>)
        requires
            old(self).wf(),
        ensures
            final(self).wf(),
            final(self).recording() == old(self).recording(),
            final(self).position() == old(self).position(),
            final(self).data() == old(self).data() + bytes@,
    {
        let mut i: usize = 0;
        while i < bytes.len()
            invariant
                i <= bytes.len(),
                self.recording == old(self).recording,
                self.data_idx == old(self).data_idx,
                self.data@ == old(self).data@ + bytes@.take(i as int),
            decreases bytes.len() - i,
        {
            self.data.push(bytes[i]);
            assert(bytes@.take(i + 1) =~= bytes@.take(i as int).push(bytes@[i as int]));
            assert(self.data@ =~= old(self).data@ + bytes@.take(i + 1));
            i += 1;
        }
        assert(bytes@.take(i as int) =~= bytes@);
    }

    /// The next 32-bit number. When recording it is fresh, and its four
    /// bytes, lowest first, join the record. When replaying it is made of
    /// the next four bytes of the record, which must be there.
    pub fn next_u32(&mut self) -> (value: u32)
        requires
            old(self).wf(),
            old(self).can_give(4),
        ensures
            final(self).wf(),
            final(self).recording() == old(self).recording(),
            old(self).recording() ==> final(self).data() == old(self).data() + spec_u32_to_le_bytes(
                value,
            ) && final(self).position() == old(self).position(),
            !old(self).recording() ==> final(self).data() == old(self).data() && final(self).position() == old(self).position() + 4 && value == spec_u32_from_le_bytes(
                old(self).data().subrange(old(self).position(), old(self).position() + 4),
            ),
    {
        if self.recording {
            let value = os_next_u32();
            let bytes = u32_to_le_bytes(value);
            self.record(&bytes);
            value
        } else {
            let bytes = self.replay(4);
            u32_from_le_bytes(bytes.as_slice())
        }
    }

    /// The next 64-bit number. When recording it is fresh, and its eight
    /// bytes, lowest first, join the record. When replaying it is made of
    /// the next eight bytes of the record, which must be there.
    pub fn next_u64(&mut self) -> (value: u64)
        requires
            old(self).wf(),
            old(self).can_give(8),
        ensures
            final(self).wf(),
            final(self).recording() == old(self).recording(),
            old(self).recording() ==> final(self).data() == old(self).data() + spec_u64_to_le_bytes(
                value,
            ) && final(self).position() == old(self).position(),
            !old(self).recording() ==> final(self).data() == old(self).data() && final(self).position() == old(self).position() + 8 && value == spec_u64_from_le_bytes(
                old(self).data().subrange(old(self).position(), old(self).position() + 8),
            ),
    {
        if self.recording {
            let value = os_next_u64();
            let bytes = u64_to_le_bytes(value);
            self.record(&bytes);
            value
        } else {
            let bytes = self.replay(8);
            u64_from_le_bytes(bytes.as_slice())
        }
    }

    /// Fills `dest` with the next bytes, as many as it holds. When
    /// recording they are fresh and join the record. When replaying they
    /// are the next bytes of the record, which must be there.
    pub fn fill_bytes(&mut self, dest: &mut Vec<u8>)
        requires
            old(self).wf(),
            old(self).can_give(old(dest)@.len() as int),
        ensures
            final(self).wf(),
            final(self).recording() == old(self).recording(),
            final(dest)@.len() == old(dest)@.len(),
            old(self).recording() ==> final(self).data() == old(self).data() + final(dest)@ && final(self).position() == old(self).position(),
            !old(self).recording() ==> final(self).data() == old(self).data() && final(self).position() == old(self).position() + old(dest)@.len() && final(dest)@ == old(self).data().subrange(old(self).position(), old(self).position() + old(dest)@.len()),
    {
        if self.recording {
            os_fill_bytes(dest);
            self.record(dest);
        } else {
            let bytes = self.replay(dest.len());
            *dest = bytes;
        }
    }

    /// Fills `dest` as [`TracedRng::fill_bytes`] does, unless the operating
    /// system fails to give randomness: then the error is the result and
    /// nothing is recorded.
    pub fn try_fill_bytes(&mut self, dest: &mut Vec<u8>) -> (result: Result<(), rand::Error>)
        requires
            old(self).wf(),
            old(self).can_give(old(dest)@.len() as int),
        ensures
            final(self).wf(),
            final(self).recording() == old(self).recording(),
            final(dest)@.len() == old(dest)@.len(),
            !old(self).recording() ==> result is Ok,
            result is Err ==> final(self).data() == old(self).data() && final(self).position()
                == old(self).position(),
            result is Ok && old(self).recording() ==> final(self).data() == old(self).data()
                + final(dest)@ && final(self).position() == old(self).position(),
            !old(self).recording() ==> final(self).data() == old(self).data() && final(self).position() == old(self).position() + old(dest)@.len() && final(dest)@ == old(self).data().subrange(old(self).position(), old(self).position() + old(dest)@.len()),
    {
        if self.recording {
            match os_try_fill_bytes(dest) {
                Ok(_) => {},
                Err(err) => {
                    return Err(err);
                },
            }
            self.record(dest);
        } else {
            let bytes = self.replay(dest.len());
            *dest = bytes;
        }
        Ok(())
    }
}

} // verus!
