use akasa_core::pending::AckKind;
use akasa_core::pending::AckOutcome;
use akasa_core::pending::AckState;
use akasa_core::pending::PendingPackets;
use akasa_core::pending::QueueFull;
use akasa_core::types::Pid;
use akasa_core::types::QoS;

fn pid(n: u16) -> Pid {
    Pid::try_from(n).unwrap()
}

fn queue(max_inflight: u16, pending: usize, timeout: u64) -> PendingPackets<&'static str> {
    PendingPackets::new(max_inflight, pending, timeout)
}

#[test]
fn push_fills_window_then_waits_then_fails() {
    let mut q = queue(2, 1, 10);
    assert!(q.is_empty());
    assert_eq!(q.push(pid(1), AckState::AwaitingAck, "a", 5, None, 100, true), Ok(true));
    assert_eq!(q.push(pid(2), AckState::AwaitingRec, "b", 6, None, 100, true), Ok(true));
    assert_eq!(q.push(pid(3), AckState::AwaitingAck, "c", 7, None, 100, true), Ok(false));
    assert!(q.is_full());
    assert_eq!(q.push(pid(4), AckState::AwaitingAck, "d", 8, None, 100, true), Err(QueueFull));
    assert_eq!(q.len(), 3);
    let first = q.get(0).unwrap();
    assert_eq!(first.pid, pid(1));
    assert_eq!(first.last_sent, Some(100));
    assert_eq!(first.retries, 0);
    assert!(!first.dup);
    assert_eq!(first.encode_len, 5);
    assert_eq!(q.get(2).unwrap().last_sent, None);
    assert!(q.get(3).is_none());
}

#[test]
fn pending_queue_never_exceeds_its_two_limits() {
    let mut q = queue(3, 4, 10);
    let mut accepted = 0;
    for n in 1..=20u16 {
        if q.push(pid(n), AckState::AwaitingAck, "m", 1, None, 0, true).is_ok() {
            accepted += 1;
        }
        assert!(q.len() <= 3 + 4);
    }
    assert_eq!(accepted, 7);
    assert_eq!(q.len(), 7);
    assert_eq!(q.max_inflight(), 3);
}

#[test]
fn zero_capacity_queue_takes_nothing() {
    let mut q = queue(0, 0, 0);
    assert!(q.is_full());
    assert_eq!(q.push(pid(1), AckState::AwaitingAck, "a", 1, None, 0, true), Err(QueueFull));
    assert_eq!(q.len(), 0);
}

#[test]
fn puback_completes_a_qos1_delivery() {
    let mut q = queue(2, 2, 10);
    q.push(pid(1), AckState::AwaitingAck, "a", 1, None, 0, true).unwrap();
    q.push(pid(2), AckState::AwaitingAck, "b", 1, None, 0, true).unwrap();
    assert_eq!(q.ack(pid(2), AckKind::Puback, 5), AckOutcome::Completed);
    assert_eq!(q.len(), 1);
    assert!(q.contains_pid(pid(1)));
    assert!(!q.contains_pid(pid(2)));
    assert_eq!(q.ack(pid(2), AckKind::Puback, 6), AckOutcome::Unknown);
    assert_eq!(q.len(), 1);
}

#[test]
fn qos2_delivery_goes_through_pubrec_and_pubcomp() {
    let mut q = queue(2, 2, 10);
    q.push(pid(9), AckState::AwaitingRec, "a", 1, None, 0, true).unwrap();
    assert_eq!(q.get(0).unwrap().state.qos(), QoS::Level2);
    assert_eq!(q.ack(pid(9), AckKind::Pubcomp, 1), AckOutcome::Unexpected);
    assert_eq!(q.ack(pid(9), AckKind::Puback, 1), AckOutcome::Unexpected);
    assert_eq!(q.ack(pid(9), AckKind::Pubrec, 2), AckOutcome::Advanced);
    let entry = q.get(0).unwrap();
    assert_eq!(entry.state, AckState::AwaitingComp);
    assert_eq!(entry.last_sent, Some(2));
    assert_eq!(q.ack(pid(9), AckKind::Pubrec, 3), AckOutcome::Unexpected);
    assert_eq!(q.ack(pid(9), AckKind::Pubcomp, 4), AckOutcome::Completed);
    assert!(q.is_empty());
    assert_eq!(AckState::AwaitingAck.qos(), QoS::Level1);
}

#[test]
fn index_of_finds_first_entry() {
    let mut q = queue(4, 0, 10);
    q.push(pid(5), AckState::AwaitingAck, "a", 1, None, 0, true).unwrap();
    q.push(pid(6), AckState::AwaitingAck, "b", 1, None, 0, true).unwrap();
    q.push(pid(5), AckState::AwaitingAck, "c", 1, None, 0, true).unwrap();
    assert_eq!(q.index_of(pid(5)), Some(0));
    assert_eq!(q.index_of(pid(6)), Some(1));
    assert_eq!(q.index_of(pid(7)), None);
}

#[test]
fn expire_retransmits_due_entries_in_order() {
    let mut q = queue(2, 5, 10);
    q.push(pid(1), AckState::AwaitingAck, "a", 1, None, 100, true).unwrap();
    q.push(pid(2), AckState::AwaitingAck, "b", 1, None, 105, true).unwrap();
    q.push(pid(3), AckState::AwaitingAck, "c", 1, None, 105, true).unwrap();
    let early = q.expire(109);
    assert!(early.abandoned.is_empty());
    assert!(early.retransmit.is_empty());
    let first = q.expire(110);
    assert_eq!(first.retransmit, vec![0]);
    assert!(q.get(0).unwrap().dup);
    assert_eq!(q.get(0).unwrap().retries, 1);
    assert_eq!(q.get(0).unwrap().last_sent, Some(110));
    assert_eq!(q.get(1).unwrap().retries, 0);
    let second = q.expire(120);
    assert_eq!(second.retransmit, vec![0, 1]);
    assert_eq!(q.get(0).unwrap().retries, 2);
    assert_eq!(q.get(1).unwrap().retries, 1);
    // the third entry stays behind the window
    assert_eq!(q.get(2).unwrap().last_sent, None);
}

#[test]
fn expire_sends_waiting_entry_once_window_has_room() {
    let mut q = queue(1, 5, 10);
    q.push(pid(1), AckState::AwaitingAck, "a", 1, None, 100, true).unwrap();
    assert_eq!(q.push(pid(2), AckState::AwaitingAck, "b", 1, None, 100, true), Ok(false));
    assert_eq!(q.ack(pid(1), AckKind::Puback, 101), AckOutcome::Completed);
    let tick = q.expire(101);
    assert_eq!(tick.retransmit, vec![0]);
    let entry = q.get(0).unwrap();
    assert_eq!(entry.pid, pid(2));
    assert!(!entry.dup);
    assert_eq!(entry.retries, 0);
    assert_eq!(entry.last_sent, Some(101));
}

#[test]
fn expire_abandons_expired_messages() {
    let mut q = queue(2, 5, 10);
    q.push(pid(1), AckState::AwaitingAck, "a", 1, Some(50), 0, true).unwrap();
    q.push(pid(2), AckState::AwaitingAck, "b", 1, None, 0, true).unwrap();
    q.push(pid(3), AckState::AwaitingRec, "c", 1, Some(49), 0, true).unwrap();
    let tick = q.expire(49);
    assert_eq!(tick.abandoned, vec![pid(3)]);
    assert_eq!(q.len(), 2);
    let tick = q.expire(50);
    assert_eq!(tick.abandoned, vec![pid(1)]);
    assert_eq!(q.len(), 1);
    assert_eq!(q.get(0).unwrap().pid, pid(2));
}

#[test]
fn clean_incomplete_resets_flight_and_marks_repetition() {
    let mut q = queue(1, 5, 10);
    q.push(pid(1), AckState::AwaitingAck, "a", 1, None, 100, true).unwrap();
    q.push(pid(2), AckState::AwaitingAck, "b", 1, Some(150), 100, true).unwrap();
    q.push(pid(3), AckState::AwaitingAck, "c", 1, None, 100, true).unwrap();
    q.clean_incomplete(200);
    assert_eq!(q.len(), 2);
    assert_eq!(q.get(0).unwrap().pid, pid(1));
    assert_eq!(q.get(0).unwrap().last_sent, None);
    assert!(q.get(0).unwrap().dup);
    assert_eq!(q.get(1).unwrap().pid, pid(3));
    assert!(!q.get(1).unwrap().dup);
    let tick = q.expire(200);
    assert_eq!(tick.retransmit, vec![0]);
    assert_eq!(q.get(0).unwrap().retries, 0);
    assert!(q.get(0).unwrap().dup);
}
