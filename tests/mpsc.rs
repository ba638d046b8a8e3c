use std::time::{Duration, Instant};
use usync::mpsc::{
    channel, expired_outcome, sync_channel, RecvError, RecvTimeoutError, SendError, TryRecvError,
    TrySendError,
};

#[test]
fn recv_after_sender_dropped_is_disconnected() {
    let (tx, rx) = channel::<i32>();
    drop(tx);
    assert_eq!(rx.recv(), Err(RecvError));
    assert_eq!(rx.try_recv(), Err(TryRecvError::Disconnected));
}

#[test]
fn buffered_messages_come_before_disconnection() {
    let (tx, rx) = channel();
    tx.send(1).unwrap();
    tx.send(2).unwrap();
    tx.send(3).unwrap();
    drop(tx);
    assert_eq!(rx.recv(), Ok(1));
    assert_eq!(rx.recv(), Ok(2));
    assert_eq!(rx.recv(), Ok(3));
    assert_eq!(rx.recv(), Err(RecvError));
    assert_eq!(rx.recv(), Err(RecvError));
}

#[test]
fn try_send_then_try_recv_round_trip() {
    let (tx, rx) = sync_channel(1);
    assert_eq!(tx.try_send(7), Ok(()));
    assert_eq!(rx.try_recv(), Ok(7));
    assert_eq!(rx.try_recv(), Err(TryRecvError::Empty));
}

#[test]
fn bounded_channel_reports_full() {
    let (tx, rx) = sync_channel(2);
    tx.send(1).unwrap();
    tx.send(2).unwrap();
    assert_eq!(tx.try_send(4), Err(TrySendError::Full(4)));
    assert_eq!(rx.recv(), Ok(1));
    assert_eq!(rx.recv(), Ok(2));
    tx.send(3).unwrap();
    assert_eq!(rx.recv(), Ok(3));
}

#[test]
fn rendezvous_try_send_without_receiver_is_full() {
    let (tx, rx) = sync_channel::<&str>(0);
    assert_eq!(tx.try_send("x"), Err(TrySendError::Full("x")));
    assert_eq!(rx.try_recv(), Err(TryRecvError::Empty));
}

#[test]
fn errors_carry_the_payload() {
    let (tx, rx) = channel();
    drop(rx);
    assert_eq!(tx.send(5), Err(SendError(5)));
    let (stx, srx) = sync_channel(1);
    drop(srx);
    assert_eq!(stx.try_send(6), Err(TrySendError::Disconnected(6)));
    assert_eq!(stx.send(7), Err(SendError(7)));
    let (ztx, zrx) = sync_channel(0);
    drop(zrx);
    assert_eq!(ztx.send(8), Err(SendError(8)));
}

#[test]
fn recv_deadline_in_the_past() {
    let past = Instant::now();
    let (tx, rx) = channel::<u8>();
    assert_eq!(rx.recv_deadline(past), Err(RecvTimeoutError::Timeout));
    tx.send(9).unwrap();
    assert_eq!(rx.recv_deadline(past), Ok(9));
    drop(tx);
    assert_eq!(rx.recv_deadline(past), Err(RecvTimeoutError::Disconnected));
}

#[test]
fn recv_timeout_on_empty_channel() {
    let (tx, rx) = channel::<u8>();
    assert_eq!(rx.recv_timeout(Duration::from_millis(20)), Err(RecvTimeoutError::Timeout));
    tx.send(1).unwrap();
    assert_eq!(rx.recv_timeout(Duration::from_millis(20)), Ok(1));
}

#[test]
fn expired_outcome_maps_each_case() {
    assert_eq!(expired_outcome::<u8>(Ok(3)), Ok(3));
    assert_eq!(expired_outcome::<u8>(Err(TryRecvError::Empty)), Err(RecvTimeoutError::Timeout));
    assert_eq!(
        expired_outcome::<u8>(Err(TryRecvError::Disconnected)),
        Err(RecvTimeoutError::Disconnected)
    );
}

#[test]
fn producers_keep_their_order() {
    let (tx, rx) = channel();
    let senders = vec![tx.clone(), tx.clone(), tx];
    for i in 0..1000u32 {
        for (p, s) in senders.iter().enumerate() {
            s.send((p as u32, i)).unwrap();
        }
    }
    drop(senders);
    let mut last = [None::<u32>; 3];
    let mut count = 0;
    while let Ok((p, i)) = rx.recv() {
        if let Some(prev) = last[p as usize] {
            assert!(i > prev);
        }
        last[p as usize] = Some(i);
        count += 1;
    }
    assert_eq!(count, 3000);
}

#[test]
fn iterators_drain_the_channel() {
    let (tx, rx) = channel();
    tx.send(1).unwrap();
    tx.send(2).unwrap();
    let mut it = rx.try_iter();
    assert_eq!(it.next(), Some(1));
    assert_eq!(it.next(), Some(2));
    assert_eq!(it.next(), None);
    tx.send(3).unwrap();
    drop(tx);
    let mut it = rx.iter();
    assert_eq!(it.next(), Some(3));
    assert_eq!(it.next(), None);
    let mut owned = rx.into_iter();
    assert_eq!(owned.next(), None);
}

#[test]
fn cloned_sender_keeps_channel_open() {
    let (tx, rx) = channel::<u8>();
    let tx2 = tx.clone();
    drop(tx);
    assert_eq!(rx.try_recv(), Err(TryRecvError::Empty));
    tx2.send(4).unwrap();
    drop(tx2);
    assert_eq!(rx.recv(), Ok(4));
    assert_eq!(rx.recv(), Err(RecvError));
}
