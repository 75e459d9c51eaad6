//! The queue of outbound publishes that still await an acknowledgement.
//!
//! The first `max_inflight` entries are in flight: they have been handed to
//! the connection and are retransmitted when no acknowledgement arrives in
//! time. The entries behind them wait for a place in that window.

use vstd::prelude::*;
use crate::types::Pid;
use crate::types::QoS;

verus! {

/// Which acknowledgement an entry waits for.
#[derive(Debug, Clone, Copy, PartialEq, Eq, Structural)]
pub enum AckState {
    /// A QoS 1 publish that waits for PUBACK.
    AwaitingAck,
    /// A QoS 2 publish that waits for PUBREC.
    AwaitingRec,
    /// A QoS 2 publish whose PUBREL waits for PUBCOMP.
    AwaitingComp,
}

impl AckState {
    /// The quality of service of a publish in this state.
    pub open spec fn spec_qos(self) -> QoS {
        match self {
            AckState::AwaitingAck => QoS::Level1,
            _ => QoS::Level2,
        }
    }

    /// The quality of service of a publish in this state.
    #[verifier::when_used_as_spec(spec_qos)]
    pub fn qos(self) -> (q: QoS)
        ensures
            q == self.spec_qos(),
    {
        match self {
            AckState::AwaitingAck => QoS::Level1,
            _ => QoS::Level2,
        }
    }
}

/// An acknowledgement that came in from the client.
#[derive(Debug, Clone, Copy, PartialEq, Eq, Structural)]
pub enum AckKind {
    Puback,
    Pubrec,
    Pubcomp,
}

/// What an acknowledgement did to the queue.
#[derive(Debug, Clone, Copy, PartialEq, Eq, Structural)]
pub enum AckOutcome {
    /// No entry has that packet identifier.
    Unknown,
    /// The entry with that identifier waits for another acknowledgement.
    Unexpected,
    /// A PUBREC moved the entry on to wait for PUBCOMP.
    Advanced,
    /// The final acknowledgement came and the entry was removed.
    Completed,
}

/// The error of a push into a queue that has no room left.
#[derive(Debug, Clone, Copy, PartialEq, Eq, Structural)]
pub struct QueueFull;

/// One outbound publish in the queue.
#[derive(Debug)]
pub struct PendingPacket<P> {
    pub pid: Pid,
    pub state: AckState,
    /// The encoded length of the publish.
    pub encode_len: usize,
    /// The time at which the message expires, if it does.
    pub expiry: Option<u64>,
    /// How often the publish was transmitted again.
    pub retries: u32,
    /// Whether the next transmission is a repetition.
    pub dup: bool,
    /// When the publish was last handed to the connection, if it was.
    pub last_sent: Option<u64>,
    pub packet: P,
}

impl<P> PendingPacket<P> {
    /// Whether the message has expired at `now`.
    pub open spec fn is_expired(self, now: u64) -> bool {
        self.expiry matches Some(deadline) && deadline <= now
    }

    /// Whether the entry has to be transmitted at `now`: it never was, or
    /// `timeout` has passed since it last was.
    pub open spec fn is_due(self, now: u64, timeout: u64) -> bool {
        match self.last_sent {
            None => true,
            Some(t) => t + timeout <= now,
        }
    }

    /// The entry after a transmission at `now`.
    pub open spec fn resent(self, now: u64) -> Self {
        PendingPacket {
            retries: if self.last_sent is Some && self.retries < u32::MAX {
                (self.retries + 1) as u32
            } else {
                self.retries
            },
            dup: self.dup || self.last_sent is Some,
            last_sent: Some(now),
            ..self
        }
    }

    /// The entry after a reconnect: not in flight any more, and marked as a
    /// repetition if it had been transmitted.
    pub open spec fn unsent(self) -> Self {
        PendingPacket { dup: self.dup || self.last_sent is Some, last_sent: None, ..self }
    }

    /// The entry after its PUBREC came in at `now`.
    pub open spec fn released(self, now: u64) -> Self {
        PendingPacket {
            state: AckState::AwaitingComp,
            dup: false,
            last_sent: Some(now),
            ..self
        }
    }
}

/// The test for entries whose message has expired at `now`.
pub open spec fn expired_at<P>(now: u64) -> spec_fn(PendingPacket<P>) -> bool {
    |e: PendingPacket<P>| e.is_expired(now)
}

/// The test for entries whose message has not expired at `now`.
pub open spec fn alive_at<P>(now: u64) -> spec_fn(PendingPacket<P>) -> bool {
    |e: PendingPacket<P>| !e.is_expired(now)
}

/// The packet identifier of an entry.
pub open spec fn pid_of<P>() -> spec_fn(PendingPacket<P>) -> Pid {
    |e: PendingPacket<P>| e.pid
}

/// An entry after a reconnect.
pub open spec fn unsent_of<P>() -> spec_fn(PendingPacket<P>) -> PendingPacket<P> {
    |e: PendingPacket<P>| e.unsent()
}

/// Whether `i` is the first index of an entry with the identifier `pid`.
pub open spec fn is_first_with_pid<P>(s: Seq<PendingPacket<P>>, pid: Pid, i: int) -> bool {
    &&& 0 <= i < s.len()
    &&& s[i].pid == pid
    &&& forall|j: int| 0 <= j < i ==> (#[trigger] s[j]).pid != pid
}

/// Whether no entry has the identifier `pid`.
pub open spec fn pid_absent<P>(s: Seq<PendingPacket<P>>, pid: Pid) -> bool {
    forall|j: int| 0 <= j < s.len() ==> (#[trigger] s[j]).pid != pid
}

/// Whether no two entries have the same packet identifier.
pub open spec fn pids_unique<P>(s: Seq<PendingPacket<P>>) -> bool {
    forall|i: int, j: int| 0 <= i < j < s.len() ==> (#[trigger] s[i]).pid != (#[trigger] s[j]).pid
}

/// Whether `new` uses no packet identifier that `old` does not use.
pub open spec fn pids_within<P>(old: Seq<PendingPacket<P>>, new: Seq<PendingPacket<P>>) -> bool {
    forall|pid: Pid| #[trigger] pid_absent(old, pid) ==> pid_absent(new, pid)
}

/// Whether `new` has the entries of `old` in their places, each with the
/// packet identifier that it had.
pub open spec fn same_pids<P>(old: Seq<PendingPacket<P>>, new: Seq<PendingPacket<P>>) -> bool {
    &&& new.len() == old.len()
    &&& forall|i: int| 0 <= i < old.len() ==> (#[trigger] new[i]).pid == old[i].pid
}

/// Whether an acknowledgement of this kind is the one the state waits for.
pub open spec fn ack_fits(state: AckState, kind: AckKind) -> bool {
    match (state, kind) {
        (AckState::AwaitingAck, AckKind::Puback) => true,
        (AckState::AwaitingRec, AckKind::Pubrec) => true,
        (AckState::AwaitingComp, AckKind::Pubcomp) => true,
        _ => false,
    }
}

/// Whether `new` is the queue `old` after the acknowledgement `kind` for
/// `pid` came in at `now`, with the outcome `outcome`. The limits of the
/// queue stay. The acknowledgement that the first entry with `pid` waits
/// for removes the entry (PUBACK, PUBCOMP) or moves it on (PUBREC); any
/// other changes nothing.
pub open spec fn acked<P>(
    old: PendingPackets<P>,
    new: PendingPackets<P>,
    pid: Pid,
    kind: AckKind,
    now: u64,
    outcome: AckOutcome,
) -> bool {
    &&& new.spec_max_inflight() == old.spec_max_inflight()
    &&& new.spec_max_in_mem_pending() == old.spec_max_in_mem_pending()
    &&& new.spec_inflight_timeout() == old.spec_inflight_timeout()
    &&& match outcome {
        AckOutcome::Unknown => pid_absent(old@, pid) && new@ == old@,
        AckOutcome::Unexpected => new@ == old@ && exists|i: int|
            is_first_with_pid(old@, pid, i) && !ack_fits((#[trigger] old@[i]).state, kind),
        AckOutcome::Advanced => kind == AckKind::Pubrec && exists|i: int|
            is_first_with_pid(old@, pid, i) && old@[i].state == AckState::AwaitingRec && new@
                == old@.update(i, (#[trigger] old@[i]).released(now)),
        AckOutcome::Completed => kind != AckKind::Pubrec && exists|i: int|
            is_first_with_pid(old@, pid, i) && ack_fits(old@[i].state, kind) && new@
                == #[trigger] old@.remove(i),
    }
}

/// The indices below `n` of the entries that are due at `now`, ascending.
pub open spec fn due_indices<P>(s: Seq<PendingPacket<P>>, n: int, now: u64, timeout: u64) -> Seq<
    usize,
>
    decreases n,
{
    if n <= 0 {
        Seq::<usize>::empty()
    } else {
        let before = due_indices(s, n - 1, now, timeout);
        if n - 1 < s.len() && s[n - 1].is_due(now, timeout) {
            before.push((n - 1) as usize)
        } else {
            before
        }
    }
}

/// What a tick of the retransmission timer found.
#[derive(Debug)]
pub struct Expiry {
    /// The identifiers of the entries whose message expired, oldest first.
    /// They have left the queue.
    pub abandoned: Vec<Pid>,
    /// The indices of the entries to transmit now, ascending.
    pub retransmit: Vec<usize>,
}

/// The queue of outbound publishes of one session.
pub struct PendingPackets<P> {
    max_inflight: u16,
    max_in_mem_pending: usize,
    inflight_timeout: u64,
    packets: Vec<PendingPacket<P>>,
}

impl<P> View for PendingPackets<P> {
    type V = Seq<PendingPacket<P>>;

    closed spec fn view(&self) -> Seq<PendingPacket<P>> {
        self.packets@
    }
}

impl<P> PendingPackets<P> {
    /// How many entries may be in flight at once.
    pub closed spec fn spec_max_inflight(&self) -> u16 {
        self.max_inflight
    }

    /// How many entries may wait behind those in flight.
    pub closed spec fn spec_max_in_mem_pending(&self) -> usize {
        self.max_in_mem_pending
    }

    /// After how many seconds without acknowledgement an entry is
    /// transmitted again.
    pub closed spec fn spec_inflight_timeout(&self) -> u64 {
        self.inflight_timeout
    }

    /// The most entries the queue takes.
    pub open spec fn capacity(&self) -> int {
        self.spec_max_inflight() + self.spec_max_in_mem_pending()
    }

    /// The queue is well formed: its size does not exceed the number that
    /// may be in flight plus the number that may wait in memory. Every
    /// operation keeps it so.
    pub open spec fn wf(&self) -> bool {
        self@.len() <= self.capacity()
    }

    /// An empty queue with the given limits.
    pub fn new(max_inflight: u16, max_in_mem_pending: usize, inflight_timeout: u64) -> (queue:
        Self)
        ensures
            queue.wf(),
            queue@.len() == 0,
            queue.spec_max_inflight() == max_inflight,
            queue.spec_max_in_mem_pending() == max_in_mem_pending,
            queue.spec_inflight_timeout() == inflight_timeout,
    {
        PendingPackets { max_inflight, max_in_mem_pending, inflight_timeout, packets: Vec::new() }
    }

    /// The number of entries.
    pub fn len(&self) -> (n: usize)
        ensures
            n == self@.len(),
    {
        self.packets.len()
    }

    /// Whether the queue is empty.
    pub fn is_empty(&self) -> (empty: bool)
        ensures
            empty == (self@.len() == 0),
    {
        self.packets.len() == 0
    }

    /// How many entries may be in flight at once.
    #[verifier::when_used_as_spec(spec_max_inflight)]
    pub fn max_inflight(&self) -> (n: u16)
        ensures
            n == self.spec_max_inflight(),
    {
        self.max_inflight
    }

    /// Sets how many entries may be in flight at once. The queue must fit
    /// under the new limit.
    pub fn set_max_inflight(&mut self, max_inflight: u16) -> (changed: bool)
        requires
            old(self).wf(),
        ensures
            final(self).wf(),
            changed == (old(self)@.len() <= max_inflight + old(self).spec_max_in_mem_pending()),
            final(self)@ == old(self)@,
            final(self).spec_max_in_mem_pending() == old(self).spec_max_in_mem_pending(),
            final(self).spec_inflight_timeout() == old(self).spec_inflight_timeout(),
            final(self).spec_max_inflight() == (if changed {
                max_inflight
            } else {
                old(self).spec_max_inflight()
            }),
    {
        let n = self.packets.len();
        let window: usize = max_inflight as usize;
        if n <= window || n - window <= self.max_in_mem_pending {
            self.max_inflight = max_inflight;
            true
        } else {
            false
        }
    }

    /// Whether the queue has no room for another entry.
    pub fn is_full(&self) -> (full: bool)
        ensures
            full == (self@.len() >= self.capacity()),
    {
        let n = self.packets.len();
        let window: usize = self.max_inflight as usize;
        n >= window && n - window >= self.max_in_mem_pending
    }

    /// The entry at an index.
    pub fn get(&self, index: usize) -> (entry: Option<&PendingPacket<P>>)
        ensures
            index < self@.len() <==> entry is Some,
            entry matches Some(e) ==> *e == self@[index as int],
    {
        if index < self.packets.len() {
            Some(&self.packets[index])
        } else {
            None
        }
    }

    /// The first index of an entry with the identifier, if there is one.
    pub fn index_of(&self, pid: Pid) -> (index: Option<usize>)
        ensures
            match index {
                Some(i) => is_first_with_pid(self@, pid, i as int),
                None => pid_absent(self@, pid),
            },
    {
        let mut i: usize = 0;
        while i < self.packets.len()
            invariant
                i <= self.packets.len(),
                forall|j: int| 0 <= j < i ==> (#[trigger] self.packets@[j]).pid != pid,
            decreases self.packets.len() - i,
        {
            if self.packets[i].pid == pid {
                return Some(i);
            }
            i += 1;
        }
        None
    }

    /// Whether an entry has the identifier.
    pub fn contains_pid(&self, pid: Pid) -> (found: bool)
        ensures
            found == !pid_absent(self@, pid),
    {
        match self.index_of(pid) {
            Some(i) => {
                assert(self@[i as int].pid == pid);
                true
            },
            None => false,
        }
    }

    /// Appends a publish that waits for the acknowledgement that `state`
    /// names. If the caller can transmit now and the window has room, the
    /// publish counts as transmitted at `now` and the result is `true`:
    /// the caller writes it to the connection. Otherwise it waits for a
    /// tick of the timer and the result is `false`. A full queue refuses
    /// it and stays as it is.
    pub fn push(
        &mut self,
        pid: Pid,
        state: AckState,
        packet: P,
        encode_len: usize,
        expiry: Option<u64>,
        now: u64,
        transmit: bool,
    ) -> (pushed: Result<bool, QueueFull>)
        requires
            old(self).wf(),
        ensures
            final(self).wf(),
            final(self).spec_max_inflight() == old(self).spec_max_inflight(),
            final(self).spec_max_in_mem_pending() == old(self).spec_max_in_mem_pending(),
            final(self).spec_inflight_timeout() == old(self).spec_inflight_timeout(),
            pushed is Err <==> old(self)@.len() >= old(self).capacity(),
            pushed is Err ==> final(self)@ == old(self)@,
            pids_unique(old(self)@) && pid_absent(old(self)@, pid) ==> pids_unique(final(self)@),
            pushed matches Ok(in_flight) ==> {
                &&& in_flight == (transmit && old(self)@.len() < old(self).spec_max_inflight())
                &&& final(self)@ == old(self)@.push(
                    (PendingPacket {
                        pid,
                        state,
                        encode_len,
                        expiry,
                        retries: 0,
                        dup: false,
                        last_sent: if in_flight {
                            Some(now)
                        } else {
                            None
                        },
                        packet,
                    }),
                )
            },
    {
        if self.is_full() {
            return Err(QueueFull);
        }
        let in_flight = transmit && self.packets.len() < self.max_inflight as usize;
        let last_sent = if in_flight {
            Some(now)
        } else {
            None
        };
        self.packets.push(
            PendingPacket { pid, state, encode_len, expiry, retries: 0, dup: false, last_sent, packet },
        );
        Ok(in_flight)
    }

    /// Appends an entry as it is, for a queue that is built from another
    /// one. The queue must have room.
    pub fn restore(&mut self, entry: PendingPacket<P>)
        requires
            old(self)@.len() < old(self).capacity(),
        ensures
            final(self).wf(),
            final(self).spec_max_inflight() == old(self).spec_max_inflight(),
            final(self).spec_max_in_mem_pending() == old(self).spec_max_in_mem_pending(),
            final(self).spec_inflight_timeout() == old(self).spec_inflight_timeout(),
            final(self)@ == old(self)@.push(entry),
    {
        self.packets.push(entry);
    }

    /// How many entries may wait behind those in flight.
    pub fn max_in_mem_pending(&self) -> (n: usize)
        ensures
            n == self.spec_max_in_mem_pending(),
    {
        self.max_in_mem_pending
    }

    /// After how many seconds without acknowledgement an entry is
    /// transmitted again.
    pub fn inflight_timeout(&self) -> (n: u64)
        ensures
            n == self.spec_inflight_timeout(),
    {
        self.inflight_timeout
    }

    /// Applies an acknowledgement to the first entry with its identifier.
    /// The acknowledgement that the entry waits for removes it (PUBACK,
    /// PUBCOMP) or moves it on to wait for PUBCOMP (PUBREC); any other
    /// leaves the queue as it is.
    pub fn ack(&mut self, pid: Pid, kind: AckKind, now: u64) -> (outcome: AckOutcome)
        requires
            old(self).wf(),
        ensures
            final(self).wf(),
            final(self).spec_max_inflight() == old(self).spec_max_inflight(),
            final(self).spec_max_in_mem_pending() == old(self).spec_max_in_mem_pending(),
            final(self).spec_inflight_timeout() == old(self).spec_inflight_timeout(),
            acked(*old(self), *final(self), pid, kind, now, outcome),
            pids_within(old(self)@, final(self)@),
            pids_unique(old(self)@) ==> pids_unique(final(self)@),
    {
        let index = match self.index_of(pid) {
            Some(i) => i,
            None => {
                return AckOutcome::Unknown;
            },
        };
        let state = self.packets[index].state;
        match (state, kind) {
            (AckState::AwaitingAck, AckKind::Puback) | (AckState::AwaitingComp, AckKind::Pubcomp) => {
                let _ = self.packets.remove(index);
                proof {
                    lemma_remove_keeps_pids(old(self)@, index as int);
                }
                AckOutcome::Completed
            },
            (AckState::AwaitingRec, AckKind::Pubrec) => {
                let mut entry = self.packets.remove(index);
                entry.state = AckState::AwaitingComp;
                entry.dup = false;
                entry.last_sent = Some(now);
                self.packets.insert(index, entry);
                assert(self.packets@ =~= old(self)@.update(
                    index as int,
                    old(self)@[index as int].released(now),
                ));
                proof {
                    lemma_same_pids(old(self)@, self.packets@);
                }
                AckOutcome::Advanced
            },
            _ => AckOutcome::Unexpected,
        }
    }

    /// Removes the entries whose message has expired at `now`, and gives
    /// their identifiers in the order in which they were queued.
    fn drop_expired(&mut self, now: u64) -> (abandoned: Vec<Pid>)
        requires
            old(self).wf(),
        ensures
            final(self).wf(),
            final(self).max_inflight == old(self).max_inflight,
            final(self).max_in_mem_pending == old(self).max_in_mem_pending,
            final(self).inflight_timeout == old(self).inflight_timeout,
            final(self).packets@ == old(self).packets@.filter(alive_at(now)),
            abandoned@ == old(self).packets@.filter(expired_at(now)).map_values(pid_of()),
    {
        let ghost all = self.packets@;
        let ghost keep = alive_at::<P>(now);
        let ghost gone = expired_at::<P>(now);
        let ghost pids = pid_of::<P>();
        let mut abandoned: Vec<Pid> = Vec::new();
        let mut i: usize = 0;
        let ghost mut done: int = 0;
        assert(all.take(0).filter(keep) =~= Seq::<PendingPacket<P>>::empty()) by {
            reveal(Seq::filter);
        }
        assert(all.take(0).filter(gone).map_values(pids) =~= Seq::<Pid>::empty()) by {
            reveal(Seq::filter);
        }
        assert(all.skip(0) =~= all);
        while i < self.packets.len()
            invariant
                0 <= done <= all.len(),
                i <= self.packets.len(),
                self.packets@.len() - i == all.len() - done,
                self.packets@.take(i as int) == all.take(done).filter(keep),
                self.packets@.skip(i as int) == all.skip(done),
                abandoned@ == all.take(done).filter(gone).map_values(pids),
                keep == alive_at::<P>(now),
                gone == expired_at::<P>(now),
                pids == pid_of::<P>(),
                self.max_inflight == old(self).max_inflight,
                self.max_in_mem_pending == old(self).max_in_mem_pending,
                self.inflight_timeout == old(self).inflight_timeout,
                all.len() <= self.max_inflight + self.max_in_mem_pending,
                i <= done,
            decreases all.len() - done,
        {
            let ghost before = self.packets@;
            assert(before[i as int] == before.skip(i as int)[0]);
            assert(all[done] == all.skip(done)[0]);
            proof {
                lemma_filter_take_step(all, keep, done);
                lemma_filter_take_step(all, gone, done);
            }
            let expired = match self.packets[i].expiry {
                Some(deadline) => deadline <= now,
                None => false,
            };
            if expired {
                let entry = self.packets.remove(i);
                abandoned.push(entry.pid);
                proof {
                    assert(self.packets@.take(i as int) =~= before.take(i as int));
                    assert(self.packets@.skip(i as int) =~= before.skip(i as int).skip(1));
                    assert(all.skip(done + 1) =~= all.skip(done).skip(1));
                    assert(gone(all[done]));
                    assert(abandoned@ =~= all.take(done + 1).filter(gone).map_values(pids));
                    done = done + 1;
                }
            } else {
                proof {
                    assert(keep(all[done]));
                    assert(self.packets@.take(i + 1) =~= before.take(i as int).push(
                        before[i as int],
                    ));
                    assert(self.packets@.skip(i + 1) =~= before.skip(i as int).skip(1));
                    assert(all.skip(done + 1) =~= all.skip(done).skip(1));
                    done = done + 1;
                }
                i += 1;
            }
        }
        proof {
            assert(self.packets@.take(i as int) =~= self.packets@);
            assert(all.take(done) =~= all);
        }
        abandoned
    }

    /// Marks the entries in the window that are due at `now` as transmitted
    /// at `now`, and gives their indices.
    fn mark_due(&mut self, now: u64) -> (due: Vec<usize>)
        requires
            old(self).wf(),
        ensures
            final(self).wf(),
            final(self).max_inflight == old(self).max_inflight,
            final(self).max_in_mem_pending == old(self).max_in_mem_pending,
            final(self).inflight_timeout == old(self).inflight_timeout,
            final(self).packets@.len() == old(self).packets@.len(),
            forall|i: int|
                0 <= i < old(self).packets@.len() ==> #[trigger] final(self).packets@[i] == (if i
                    < old(self).max_inflight && old(self).packets@[i].is_due(
                    now,
                    old(self).inflight_timeout,
                ) {
                    old(self).packets@[i].resent(now)
                } else {
                    old(self).packets@[i]
                }),
            due@ == due_indices(
                old(self).packets@,
                old(self).max_inflight as int,
                now,
                old(self).inflight_timeout,
            ),
    {
        let ghost all = self.packets@;
        let timeout = self.inflight_timeout;
        let window: usize = self.max_inflight as usize;
        let mut due: Vec<usize> = Vec::new();
        let mut i: usize = 0;
        while i < window
            invariant
                i <= window,
                window == self.max_inflight,
                timeout == self.inflight_timeout,
                self.packets@.len() == all.len(),
                self.max_inflight == old(self).max_inflight,
                self.max_in_mem_pending == old(self).max_in_mem_pending,
                self.inflight_timeout == old(self).inflight_timeout,
                all.len() <= self.max_inflight + self.max_in_mem_pending,
                forall|j: int|
                    0 <= j < all.len() ==> #[trigger] self.packets@[j] == (if j < i
                        && all[j].is_due(now, timeout) {
                        all[j].resent(now)
                    } else {
                        all[j]
                    }),
                due@ == due_indices(all, i as int, now, timeout),
            decreases window - i,
        {
            if i < self.packets.len() {
                let is_due = match self.packets[i].last_sent {
                    None => true,
                    Some(t) => now >= t && now - t >= timeout,
                };
                assert(self.packets@[i as int] == all[i as int]);
                if is_due {
                    let ghost before = self.packets@;
                    let mut entry = self.packets.remove(i);
                    if entry.last_sent.is_some() {
                        if entry.retries < u32::MAX {
                            entry.retries = entry.retries + 1;
                        }
                        entry.dup = true;
                    }
                    entry.last_sent = Some(now);
                    self.packets.insert(i, entry);
                    due.push(i);
                    assert(self.packets@ =~= before.update(i as int, all[i as int].resent(now)));
                }
            }
            i += 1;
        }
        due
    }

    /// A tick of the retransmission timer at `now`. Entries whose message
    /// has expired leave the queue: they are abandoned. Of those that stay,
    /// each one in the window that was never transmitted, or not within the
    /// last `inflight_timeout` seconds, counts as transmitted at `now`:
    /// the caller writes it to the connection again.
    pub fn expire(&mut self, now: u64) -> (expiry: Expiry)
        requires
            old(self).wf(),
        ensures
            final(self).wf(),
            final(self).spec_max_inflight() == old(self).spec_max_inflight(),
            final(self).spec_max_in_mem_pending() == old(self).spec_max_in_mem_pending(),
            final(self).spec_inflight_timeout() == old(self).spec_inflight_timeout(),
            expiry.abandoned@ == old(self)@.filter(expired_at(now)).map_values(pid_of()),
            ({
                let kept = old(self)@.filter(alive_at(now));
                let timeout = old(self).spec_inflight_timeout();
                let window = old(self).spec_max_inflight() as int;
                &&& final(self)@.len() == kept.len()
                &&& forall|i: int|
                    0 <= i < kept.len() ==> #[trigger] final(self)@[i] == (if i < window
                        && kept[i].is_due(now, timeout) {
                        kept[i].resent(now)
                    } else {
                        kept[i]
                    })
                &&& expiry.retransmit@ == due_indices(kept, window, now, timeout)
            }),
            pids_within(old(self)@, final(self)@),
            pids_unique(old(self)@) ==> pids_unique(final(self)@),
    {
        let abandoned = self.drop_expired(now);
        let ghost kept = self.packets@;
        let retransmit = self.mark_due(now);
        proof {
            lemma_filter_keeps_pids(old(self)@, alive_at(now));
            lemma_same_pids(kept, self.packets@);
            assert forall|pid: Pid| #[trigger] pid_absent(old(self)@, pid) implies pid_absent(
                self.packets@,
                pid,
            ) by {
                assert(pid_absent(kept, pid));
            }
        }
        Expiry { abandoned, retransmit }
    }

    /// What a reconnect does to the queue at `now`: entries whose message
    /// has expired leave it, and no entry that stays counts as in flight any
    /// more, so that the next tick transmits the window again, as
    /// repetitions where they had been transmitted before.
    pub fn clean_incomplete(&mut self, now: u64)
        requires
            old(self).wf(),
        ensures
            final(self).wf(),
            final(self).spec_max_inflight() == old(self).spec_max_inflight(),
            final(self).spec_max_in_mem_pending() == old(self).spec_max_in_mem_pending(),
            final(self).spec_inflight_timeout() == old(self).spec_inflight_timeout(),
            final(self)@ == old(self)@.filter(alive_at(now)).map_values(unsent_of()),
            pids_within(old(self)@, final(self)@),
            pids_unique(old(self)@) ==> pids_unique(final(self)@),
    {
        let _ = self.drop_expired(now);
        let ghost kept = self.packets@;
        let mut i: usize = 0;
        while i < self.packets.len()
            invariant
                i <= self.packets.len(),
                self.packets@.len() == kept.len(),
                self.max_inflight == old(self).max_inflight,
                self.max_in_mem_pending == old(self).max_in_mem_pending,
                self.inflight_timeout == old(self).inflight_timeout,
                kept.len() <= self.max_inflight + self.max_in_mem_pending,
                forall|j: int|
                    0 <= j < kept.len() ==> #[trigger] self.packets@[j] == (if j < i {
                        kept[j].unsent()
                    } else {
                        kept[j]
                    }),
            decreases self.packets.len() - i,
        {
            let ghost before = self.packets@;
            let mut entry = self.packets.remove(i);
            if entry.last_sent.is_some() {
                entry.dup = true;
            }
            entry.last_sent = None;
            self.packets.insert(i, entry);
            assert(self.packets@ =~= before.update(i as int, kept[i as int].unsent()));
            i += 1;
        }
        assert(self.packets@ =~= kept.map_values(unsent_of()));
        proof {
            lemma_filter_keeps_pids(old(self)@, alive_at(now));
            lemma_same_pids(kept, self.packets@);
            assert forall|pid: Pid| #[trigger] pid_absent(old(self)@, pid) implies pid_absent(
                self.packets@,
                pid,
            ) by {
                assert(pid_absent(kept, pid));
            }
        }
    }
}

/// A queue whose entries kept their packet identifiers uses the
/// identifiers that it used, and none twice if none was used twice.
pub proof fn lemma_same_pids<P>(old: Seq<PendingPacket<P>>, new: Seq<PendingPacket<P>>)
    requires
        same_pids(old, new),
    ensures
        pids_within(old, new),
        pids_unique(old) ==> pids_unique(new),
{
    assert forall|pid: Pid| #[trigger] pid_absent(old, pid) implies pid_absent(new, pid) by {
        assert forall|j: int| 0 <= j < new.len() implies (#[trigger] new[j]).pid != pid by {
            assert(old[j].pid != pid);
        }
    }
    if pids_unique(old) {
        assert forall|i: int, j: int| 0 <= i < j < new.len() implies (#[trigger] new[i]).pid != (
        #[trigger] new[j]).pid by {
            assert(old[i].pid != old[j].pid);
        }
    }
}

/// A queue without one of its entries uses no new packet identifier, and
/// none twice if none was used twice.
pub proof fn lemma_remove_keeps_pids<P>(s: Seq<PendingPacket<P>>, i: int)
    requires
        0 <= i < s.len(),
    ensures
        pids_within(s, s.remove(i)),
        pids_unique(s) ==> pids_unique(s.remove(i)),
{
    let out = s.remove(i);
    assert forall|pid: Pid| #[trigger] pid_absent(s, pid) implies pid_absent(out, pid) by {
        assert forall|j: int| 0 <= j < out.len() implies (#[trigger] out[j]).pid != pid by {
            if j < i {
                assert(out[j] == s[j]);
            } else {
                assert(out[j] == s[j + 1]);
            }
        }
    }
    if pids_unique(s) {
        assert forall|a: int, b: int| 0 <= a < b < out.len() implies (#[trigger] out[a]).pid != (
        #[trigger] out[b]).pid by {
            let a0 = if a < i {
                a
            } else {
                a + 1
            };
            let b0 = if b < i {
                b
            } else {
                b + 1
            };
            assert(out[a] == s[a0]);
            assert(out[b] == s[b0]);
            assert(s[a0].pid != s[b0].pid);
        }
    }
}

/// A queue that lost some of its entries uses no new packet identifier,
/// and none twice if none was used twice.
pub proof fn lemma_filter_keeps_pids<P>(s: Seq<PendingPacket<P>>, pred: spec_fn(PendingPacket<P>) -> bool)
    ensures
        pids_within(s, s.filter(pred)),
        pids_unique(s) ==> pids_unique(s.filter(pred)),
    decreases s.len(),
{
    reveal(Seq::filter);
    let out = s.filter(pred);
    crate::laws::lemma_filter_members(s, pred);
    assert forall|pid: Pid| #[trigger] pid_absent(s, pid) implies pid_absent(out, pid) by {
        assert forall|j: int| 0 <= j < out.len() implies (#[trigger] out[j]).pid != pid by {
            assert(s.contains(out[j]));
            let i = choose|i: int| 0 <= i < s.len() && s[i] == out[j];
            assert(s[i].pid != pid);
        }
    }
    if pids_unique(s) && s.len() > 0 {
        let front = s.drop_last();
        assert(pids_unique(front)) by {
            assert forall|i: int, j: int| 0 <= i < j < front.len() implies (#[trigger] front[i]).pid
                != (#[trigger] front[j]).pid by {
                assert(s[i].pid != s[j].pid);
            }
        }
        lemma_filter_keeps_pids(front, pred);
        crate::laws::lemma_filter_members(front, pred);
        let kept = front.filter(pred);
        assert forall|a: int, b: int| 0 <= a < b < out.len() implies (#[trigger] out[a]).pid != (
        #[trigger] out[b]).pid by {
            if b < kept.len() {
                assert(out[a] == kept[a]);
                assert(out[b] == kept[b]);
            } else {
                assert(out[b] == s.last());
                assert(out[a] == kept[a]);
                assert(front.contains(kept[a]));
                let i = choose|i: int| 0 <= i < front.len() && front[i] == kept[a];
                assert(s[i].pid != s[s.len() - 1].pid);
            }
        }
    }
}

/// Filtering one element more: the element joins the result if it passes.
pub proof fn lemma_filter_take_step<A>(s: Seq<A>, pred: spec_fn(A) -> bool, k: int)
    requires
        0 <= k < s.len(),
    ensures
        s.take(k + 1).filter(pred) == (if pred(s[k]) {
            s.take(k).filter(pred).push(s[k])
        } else {
            s.take(k).filter(pred)
        }),
{
    reveal(Seq::filter);
    assert(s.take(k + 1).drop_last() =~= s.take(k));
    assert(s.take(k + 1).last() == s[k]);
}

} // verus!
