//! What the loop of an online session and the handlers of its packets
//! share.

use vstd::prelude::*;
use std::collections::VecDeque;
use crate::collections::broadcast_queues;
use crate::collections::waiting_for;
use crate::collections::BroadcastPackets;
use crate::state::NormalMessage;
use crate::types::ClientId;
use crate::types::QoS;

verus! {

/// Something to write to the connection.
#[derive(Debug)]
pub enum WritePacket<P> {
    /// A packet, to be encoded.
    Packet(P),
    /// Bytes that are encoded already.
    Data(Vec<u8>),
}

/// The write queue `before` with `packets` behind it, in their order.
pub open spec fn queued<P>(before: Seq<WritePacket<P>>, packets: Seq<P>) -> Seq<WritePacket<P>> {
    before + packets.map_values(|p: P| WritePacket::Packet(p))
}

/// Appends packets to the write queue, in their order.
pub fn queue_packets<P>(write_packets: &mut VecDeque<WritePacket<P>>, packets: Vec<P>)
    ensures
        final(write_packets)@ == queued(old(write_packets)@, packets@),
{
    let ghost all = packets@;
    let ghost before = write_packets@;
    let ghost wrap = |p: P| WritePacket::Packet(p);
    // A vector gives up its items from the back: turn it round first.
    let mut packets = packets;
    let mut rest: Vec<P> = Vec::new();
    while packets.len() > 0
        invariant
            rest@.len() + packets@.len() == all.len(),
            forall|i: int| 0 <= i < packets@.len() ==> packets@[i] == all[i],
            forall|i: int| 0 <= i < rest@.len() ==> rest@[i] == all[all.len() - 1 - i],
        decreases packets.len(),
    {
        match packets.pop() {
            Some(p) => {
                rest.push(p);
            },
            None => {},
        }
    }
    assert(write_packets@ =~= before + all.take(0).map_values(wrap));
    while rest.len() > 0
        invariant
            rest@.len() <= all.len(),
            forall|i: int| 0 <= i < rest@.len() ==> rest@[i] == all[all.len() - 1 - i],
            wrap == (|p: P| WritePacket::Packet(p)),
            write_packets@ == before + all.take(all.len() - rest@.len()).map_values(wrap),
        decreases rest.len(),
    {
        let ghost k = all.len() - rest@.len();
        match rest.pop() {
            Some(p) => {
                assert(p == all[k]);
                write_packets.push_back(WritePacket::Packet(p));
                assert(all.take(k + 1).map_values(wrap) =~= all.take(k).map_values(wrap).push(
                    wrap(all[k]),
                ));
            },
            None => {},
        }
    }
    assert(all.take(all.len() as int) =~= all);
}

/// What the loop of a connection asks of the session it drives, whatever
/// the protocol version.
pub trait OnlineSession {
    /// The packets of the session's protocol version.
    type Packet;

    /// The client id under which the broker routes to the session.
    fn client_id(&self) -> ClientId;

    /// Whether the connection has been closed in good order.
    fn disconnected(&self) -> bool;

    /// How many messages wait in the broadcast queue.
    fn broadcast_packets_cnt(&self) -> usize;

    /// How many messages may wait in the broadcast queue.
    fn broadcast_packets_max(&self) -> usize;
}

/// What became of a message that found the mailbox of its target full.
#[derive(Debug)]
pub enum BroadcastOutcome {
    /// It waits in the broadcast queue.
    Queued,
    /// The queue is full and the message was a QoS 0 publish: it is lost.
    Dropped,
    /// The queue is full: the message is handed back, and the session
    /// takes nothing more from its connection until it has been placed.
    Blocked(NormalMessage),
}

/// The quality of service that a message was published with.
pub open spec fn message_qos(msg: NormalMessage) -> QoS {
    match msg {
        NormalMessage::PublishV3 { qos, .. } => qos,
        NormalMessage::PublishV5 { qos, .. } => qos,
    }
}

/// The quality of service that a message was published with.
pub fn qos_of_message(msg: &NormalMessage) -> (qos: QoS)
    ensures
        qos == message_qos(*msg),
{
    match msg {
        NormalMessage::PublishV3 { qos, .. } => *qos,
        NormalMessage::PublishV5 { qos, .. } => *qos,
    }
}

/// Places a message whose target's mailbox was full. While fewer than
/// `max` messages wait, it joins those that wait for its target and the
/// count goes up by one.
/// Otherwise a QoS 0 publish is dropped, and any other message is handed
/// back to be placed later.
pub fn queue_broadcast(
    queue: &mut BroadcastPackets,
    cnt: &mut usize,
    max: usize,
    target: ClientId,
    msg: NormalMessage,
) -> (outcome: BroadcastOutcome)
    ensures
        outcome is Queued <==> *old(cnt) < max,
        outcome is Queued ==> broadcast_queues(*final(queue)) == broadcast_queues(*old(queue)).insert(
            target,
            waiting_for(broadcast_queues(*old(queue)), target).push(msg),
        ),
        outcome is Queued ==> *final(cnt) == *old(cnt) + 1,
        !(outcome is Queued) ==> *final(queue) == *old(queue) && *final(cnt) == *old(cnt),
        outcome is Dropped <==> *old(cnt) >= max && message_qos(msg) == QoS::Level0,
        outcome matches BroadcastOutcome::Blocked(m) ==> m == msg,
{
    if *cnt < max {
        queue.push(target, msg);
        *cnt = *cnt + 1;
        BroadcastOutcome::Queued
    } else {
        match qos_of_message(&msg) {
            QoS::Level0 => BroadcastOutcome::Dropped,
            _ => BroadcastOutcome::Blocked(msg),
        }
    }
}

/// What the loop of an online session finds ready when it is scheduled.
#[derive(Debug, Clone, Copy, PartialEq, Eq, Structural)]
pub struct Ready {
    /// The hook holds the session for a request that is not finished.
    pub hook_outstanding: bool,
    /// The answer of the hook has come.
    pub hook_replied: bool,
    /// Something waits to be written to the connection.
    pub write_pending: bool,
    /// The connection takes bytes.
    pub writable: bool,
    /// The retransmission timer has elapsed.
    pub tick_due: bool,
    /// The control mailbox holds a message.
    pub control: bool,
    /// The normal mailbox holds a message.
    pub normal: bool,
    /// The connection has bytes to read.
    pub readable: bool,
    /// The broadcast queue of the session is full.
    pub broadcast_full: bool,
}

/// What the loop of an online session does next.
#[derive(Debug, Clone, Copy, PartialEq, Eq, Structural)]
pub enum OnlineStep {
    /// Write what is queued to the connection.
    Flush,
    /// Let the retransmission timer tick.
    Tick,
    /// Take a message from the control mailbox.
    Control,
    /// Take a message from the normal mailbox.
    Normal,
    /// Take the answer of the hook, and the session with it.
    HookReply,
    /// Read a packet from the connection.
    Read,
    /// Nothing can be done: wait.
    Wait,
}

/// What the loop does next, by priority. While the hook holds the
/// session nothing can be done but to take its answer. Otherwise what is
/// queued is written if the connection takes it; else the timer ticks if
/// it has elapsed; else a control message is taken, else a message from
/// another session; and only then is the next packet read, and never
/// while the broadcast queue is full.
pub open spec fn next_step(ready: Ready) -> OnlineStep {
    if ready.hook_outstanding {
        if ready.hook_replied {
            OnlineStep::HookReply
        } else {
            OnlineStep::Wait
        }
    } else if ready.write_pending && ready.writable {
        OnlineStep::Flush
    } else if ready.tick_due {
        OnlineStep::Tick
    } else if ready.control {
        OnlineStep::Control
    } else if ready.normal {
        OnlineStep::Normal
    } else if ready.readable && !ready.broadcast_full {
        OnlineStep::Read
    } else {
        OnlineStep::Wait
    }
}

/// Decides what the loop of an online session does next: see
/// [`next_step`].
pub fn poll_step(ready: Ready) -> (step: OnlineStep)
    ensures
        step == next_step(ready),
{
    if ready.hook_outstanding {
        if ready.hook_replied {
            OnlineStep::HookReply
        } else {
            OnlineStep::Wait
        }
    } else if ready.write_pending && ready.writable {
        OnlineStep::Flush
    } else if ready.tick_due {
        OnlineStep::Tick
    } else if ready.control {
        OnlineStep::Control
    } else if ready.normal {
        OnlineStep::Normal
    } else if ready.readable && !ready.broadcast_full {
        OnlineStep::Read
    } else {
        OnlineStep::Wait
    }
}

/// The time by which the next packet of a client must have come: one and
/// a half times the keep-alive interval after the last packet, half
/// seconds counted as whole ones. A keep-alive interval of 0 sets no
/// limit.
pub open spec fn keep_alive_limit(last_packet_time: u64, keep_alive: u16) -> Option<u64> {
    if keep_alive == 0 {
        None
    } else if last_packet_time + (3 * keep_alive + 1) / 2 > u64::MAX {
        Some(u64::MAX)
    } else {
        Some((last_packet_time + (3 * keep_alive + 1) / 2) as u64)
    }
}

/// The time by which the next packet of a client must have come: see
/// [`keep_alive_limit`].
pub fn keep_alive_deadline(last_packet_time: u64, keep_alive: u16) -> (deadline: Option<u64>)
    ensures
        deadline == keep_alive_limit(last_packet_time, keep_alive),
{
    if keep_alive == 0 {
        return None;
    }
    let grace: u64 = (3 * (keep_alive as u64) + 1) / 2;
    if last_packet_time > u64::MAX - grace {
        Some(u64::MAX)
    } else {
        Some(last_packet_time + grace)
    }
}

/// Whether a client has been silent for too long at `now`.
pub fn keep_alive_expired(last_packet_time: u64, keep_alive: u16, now: u64) -> (expired: bool)
    ensures
        expired == (keep_alive_limit(last_packet_time, keep_alive) matches Some(limit) && limit < now),
{
    match keep_alive_deadline(last_packet_time, keep_alive) {
        Some(limit) => limit < now,
        None => false,
    }
}

} // verus!
