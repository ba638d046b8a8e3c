use usync::mpsc::{
    Flavor, Queue, RecvError, RecvTimeoutError, SendError, TryRecvError, TrySendError,
};

#[test]
fn rendezvous_hands_off_to_a_waiting_receiver() {
    let mut q: Queue<u32> = Queue::new(Flavor::Rendezvous);
    assert_eq!(q.try_send(1), Err(TrySendError::Full(1)));
    assert!(q.recv_must_wait());
    assert!(q.is_receiver_waiting());
    assert!(!q.send_must_wait(0));
    assert_eq!(q.try_send(1), Ok(()));
    assert!(q.send_must_wait(0));
    assert_eq!(q.try_send(2), Err(TrySendError::Full(2)));
    assert!(!q.recv_must_wait());
    assert!(!q.is_receiver_waiting());
    assert_eq!(q.try_recv(), Ok(1));
    assert_eq!(q.try_recv(), Err(TryRecvError::Empty));
}

#[test]
fn bounded_queue_keeps_fifo_order_up_to_its_bound() {
    let mut q: Queue<u32> = Queue::new(Flavor::Bounded(2));
    assert_eq!(q.try_send(10), Ok(()));
    assert_eq!(q.try_send(20), Ok(()));
    assert_eq!(q.try_send(30), Err(TrySendError::Full(30)));
    assert!(q.send_must_wait(0));
    assert_eq!(q.try_recv(), Ok(10));
    assert!(!q.send_must_wait(0));
    assert_eq!(q.try_send(30), Ok(()));
    assert_eq!(q.try_recv(), Ok(20));
    assert_eq!(q.try_recv(), Ok(30));
}

#[test]
fn last_sender_gone_drains_then_disconnects() {
    let mut q: Queue<u32> = Queue::new(Flavor::Unbounded);
    q.add_sender();
    assert_eq!(q.try_send(1), Ok(()));
    assert_eq!(q.try_send(2), Ok(()));
    assert!(!q.drop_sender());
    assert!(q.drop_sender());
    assert!(!q.recv_must_wait());
    assert_eq!(q.try_recv(), Ok(1));
    assert_eq!(q.try_recv(), Ok(2));
    assert_eq!(q.try_recv(), Err(TryRecvError::Disconnected));
    assert_eq!(q.try_recv(), Err(TryRecvError::Disconnected));
}

#[test]
fn receiver_gone_hands_the_message_back() {
    let mut q: Queue<&str> = Queue::new(Flavor::Unbounded);
    q.drop_receiver();
    assert!(!q.send_must_wait(0));
    assert!(!q.send_must_wait(5));
    assert_eq!(q.try_send("a"), Err(TrySendError::Disconnected("a")));
}

#[test]
fn receiver_that_stops_waiting_takes_no_handoff() {
    let mut q: Queue<u32> = Queue::new(Flavor::Rendezvous);
    assert!(q.recv_must_wait());
    q.stop_waiting();
    assert_eq!(q.try_send(5), Err(TrySendError::Full(5)));
}

#[test]
fn error_conversions() {
    assert_eq!(TrySendError::from(SendError(3)), TrySendError::Disconnected(3));
    assert_eq!(TryRecvError::from(RecvError), TryRecvError::Disconnected);
    assert_eq!(RecvTimeoutError::from(RecvError), RecvTimeoutError::Disconnected);
}

#[test]
fn receive_without_waiting_pairs_with_a_waiting_sender() {
    let mut q: Queue<u32> = Queue::new(Flavor::Rendezvous);
    assert!(!q.is_handoff_pending());
    let ticket = q.sender_starts_waiting();
    assert_eq!(ticket, 0);
    assert!(q.send_must_wait(ticket));
    assert!(q.is_handoff_pending());
    assert!(q.handoff_must_wait());
    assert!(!q.send_must_wait(ticket));
    q.sender_stops_waiting();
    assert_eq!(q.try_send(9), Ok(()));
    assert!(!q.handoff_must_wait());
    assert!(!q.is_handoff_pending());
    assert_eq!(q.try_recv(), Ok(9));
}

#[test]
fn bounded_queue_never_pends_a_handoff() {
    let mut q: Queue<u32> = Queue::new(Flavor::Bounded(1));
    let ticket = q.sender_starts_waiting();
    assert!(!q.is_handoff_pending());
    assert!(!q.send_must_wait(ticket));
    q.sender_stops_waiting();
    assert_eq!(q.try_send(1), Ok(()));
    assert_eq!(q.try_recv(), Ok(1));
}

#[test]
fn blocked_senders_take_turns_in_order() {
    let mut q: Queue<u32> = Queue::new(Flavor::Bounded(1));
    assert_eq!(q.try_send(1), Ok(()));
    let first = q.sender_starts_waiting();
    let second = q.sender_starts_waiting();
    assert_eq!((first, second), (0, 1));
    assert!(q.send_must_wait(first));
    assert!(q.send_must_wait(second));
    assert_eq!(q.try_recv(), Ok(1));
    assert!(!q.send_must_wait(first));
    assert!(q.send_must_wait(second));
    q.sender_stops_waiting();
    assert_eq!(q.try_send(2), Ok(()));
    assert!(q.send_must_wait(second));
    assert_eq!(q.try_recv(), Ok(2));
    assert!(!q.send_must_wait(second));
    q.sender_stops_waiting();
    assert_eq!(q.try_send(3), Ok(()));
    assert_eq!(q.try_recv(), Ok(3));
    assert!(!q.is_handoff_pending());
}
