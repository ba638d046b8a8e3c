use usync::lock_word::{
    exclusive_acquire, exclusive_release, release_wakes, shared_acquire, shared_release, LOCKED,
    MAX_READERS, QUEUED, READER_SHIFT, READING, SINGLE_READER, UNLOCKED,
};
use usync::rwlock::RawRwLock;
use usync::wait_queue::WaitQueue;

#[test]
fn writer_excludes_readers_and_writers() {
    let lock = RawRwLock::new();
    assert!(!lock.is_locked());
    assert!(lock.try_lock_exclusive());
    assert!(lock.is_locked());
    assert!(lock.is_locked_exclusive());
    assert!(!lock.try_lock_exclusive());
    assert!(!lock.try_lock_shared());
    lock.unlock_exclusive();
    assert!(!lock.is_locked());
}

#[test]
fn readers_hold_together() {
    let lock = RawRwLock::new();
    assert!(lock.try_lock_shared());
    assert!(lock.try_lock_shared());
    assert!(lock.is_locked());
    assert!(!lock.is_locked_exclusive());
    assert!(!lock.try_lock_exclusive());
    lock.unlock_shared();
    assert!(lock.is_locked());
    lock.unlock_shared();
    assert!(!lock.is_locked());
    assert!(lock.try_lock_exclusive());
}

#[test]
fn shared_pairing_is_balanced() {
    let lock = RawRwLock::new();
    for _ in 0..10 {
        lock.lock_shared();
    }
    for _ in 0..10 {
        lock.unlock_shared();
    }
    assert!(!lock.is_locked());
    assert!(lock.try_lock_exclusive());
    lock.unlock_exclusive();
}

#[test]
fn writer_counter_reaches_total() {
    let lock = RawRwLock::new();
    let mut counter: u64 = 0;
    for _ in 0..4 {
        for _ in 0..100_000 {
            lock.lock_exclusive();
            counter += 1;
            lock.unlock_exclusive();
        }
    }
    assert_eq!(counter, 400_000);
    assert!(!lock.is_locked());
}

#[test]
fn reader_sees_written_value() {
    let lock = RawRwLock::new();
    let mut value: u64 = 0;
    let mut seen_42 = false;
    for round in 0..1000 {
        if round == 500 {
            lock.lock_exclusive();
            value = 42;
            lock.unlock_exclusive();
        }
        lock.lock_shared();
        assert!(value == 0 || value == 42);
        seen_42 |= value == 42;
        lock.unlock_shared();
    }
    assert!(seen_42);
}

#[test]
fn word_transitions_are_exact() {
    assert_eq!(SINGLE_READER, LOCKED | READING | (1 << READER_SHIFT));
    assert_eq!(exclusive_acquire(UNLOCKED), Some(LOCKED));
    assert_eq!(exclusive_acquire(QUEUED), Some(QUEUED | LOCKED));
    assert_eq!(exclusive_acquire(LOCKED), None);
    assert_eq!(exclusive_acquire(SINGLE_READER), None);
    assert_eq!(shared_acquire(UNLOCKED, false), Some(SINGLE_READER));
    assert_eq!(shared_acquire(SINGLE_READER, false), Some(SINGLE_READER + 16));
    assert_eq!(shared_acquire(LOCKED, false), None);
    assert_eq!(shared_acquire(8, false), None);
    assert_eq!(shared_acquire(QUEUED, false), None);
    assert_eq!(shared_acquire(QUEUED, true), Some(QUEUED | SINGLE_READER));
    assert_eq!(shared_acquire(SINGLE_READER | QUEUED, false), None);
    assert_eq!(shared_acquire(SINGLE_READER | QUEUED, true), Some(SINGLE_READER + 16 + QUEUED));
    assert_eq!(shared_release(SINGLE_READER), Some(UNLOCKED));
    assert_eq!(shared_release(SINGLE_READER | QUEUED), Some(QUEUED));
    assert_eq!(shared_release(SINGLE_READER + 16), Some(SINGLE_READER));
    assert_eq!(shared_release(LOCKED), None);
    assert_eq!(shared_release(UNLOCKED), None);
    assert_eq!(exclusive_release(LOCKED), Some(UNLOCKED));
    assert_eq!(exclusive_release(LOCKED | QUEUED), Some(QUEUED));
    assert_eq!(exclusive_release(SINGLE_READER), None);
    assert_eq!(exclusive_release(UNLOCKED), None);
}

#[test]
fn release_wakes_only_a_queue_on_a_free_lock() {
    assert!(release_wakes(LOCKED | QUEUED, QUEUED));
    assert!(!release_wakes(LOCKED, UNLOCKED));
    assert!(!release_wakes(SINGLE_READER + 16 + QUEUED, SINGLE_READER + QUEUED));
}

#[test]
fn reader_count_never_wraps() {
    let full = (MAX_READERS << READER_SHIFT) | LOCKED | READING;
    assert_eq!(shared_acquire(full, false), None);
    assert_eq!(shared_acquire(full, true), None);
    let almost = ((MAX_READERS - 1) << READER_SHIFT) | LOCKED | READING;
    assert_eq!(shared_acquire(almost, false), Some(full));
}

#[test]
fn oldest_writer_is_woken_alone() {
    let mut q = WaitQueue::new();
    assert!(q.is_empty());
    let w = q.enqueue(true).unwrap();
    let r1 = q.enqueue(false).unwrap();
    let r2 = q.enqueue(false).unwrap();
    assert_eq!(q.woken(), 1);
    assert!(q.may_attempt(w));
    assert!(!q.may_attempt(r1));
    assert!(!q.may_attempt(r2));
    assert!(q.remove(w));
    assert!(!q.remove(w));
    assert_eq!(q.woken(), 2);
    assert!(q.may_attempt(r1));
    assert!(q.may_attempt(r2));
    assert_eq!(q.find(r2), Some(1));
}

#[test]
fn reader_convoy_wakes_everyone() {
    let mut q = WaitQueue::new();
    let r = q.enqueue(false).unwrap();
    let w = q.enqueue(true).unwrap();
    assert_eq!(q.woken(), 2);
    assert!(q.may_attempt(r));
    assert!(q.may_attempt(w));
    let single = {
        let mut q2 = WaitQueue::new();
        let t = q2.enqueue(true).unwrap();
        (q2.woken(), q2.may_attempt(t))
    };
    assert_eq!(single, (1, true));
}

#[test]
fn tickets_restart_once_the_queue_drains() {
    let mut q = WaitQueue::new();
    let a = q.enqueue(false).unwrap();
    let b = q.enqueue(true).unwrap();
    assert_eq!((a, b), (0, 1));
    assert!(q.remove(a));
    assert!(q.remove(b));
    assert!(q.is_empty());
    assert_eq!(q.enqueue(false), Some(2));
}
