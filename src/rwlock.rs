//! A reader-writer lock whose state is one atomic word (see `lock_word`),
//! with threads that must wait parked in a `WaitQueue` beside it.
//!
//! Taking and releasing the lock are transitions of the word, applied with
//! compare-and-swap. A thread that cannot take the lock joins the waiting
//! queue, sets the word's `QUEUED` bit, and sleeps on a condition variable
//! until the queue's policy lets it try and the try succeeds. A release that
//! frees the lock while `QUEUED` is set wakes the queue. While anybody waits,
//! readers from outside the queue give way, so a queued writer is not passed
//! by a steady stream of readers.
use crate::blocking::{update_word, wait_while, Monitor, WaitCondition};
use crate::lock_word::{
    exclusive_acquire, exclusive_release, exclusive_release_spec, is_locked_exclusive_word,
    is_locked_word, release_wakes, shared_acquire, shared_acquire_spec, shared_release,
    shared_release_spec, LOCKED, QUEUED, UNLOCKED,
};
use crate::wait_queue::{is_woken, position_of, WaitQueue};
use std::sync::atomic::{AtomicUsize, Ordering};
use vstd::prelude::*;

verus! {

/// A raw reader-writer lock: it guards no data of its own.
pub struct RawRwLock {
    /// The lock word.
    state: AtomicUsize,
    /// The threads waiting for the lock, and where they sleep.
    parking: Monitor<WaitQueue>,
}

/// The check of a queued thread before each sleep: see
/// `RawRwLock::keep_waiting`.
struct TurnWait<'a> {
    lock: &'a RawRwLock,
    ticket: Option<u64>,
    is_writer: bool,
}

impl<'a> WaitCondition<WaitQueue> for TurnWait<'a> {
    fn must_wait(&self, q: &mut WaitQueue) -> bool {
        self.lock.keep_waiting(q, self.ticket, self.is_writer)
    }
}

impl RawRwLock {
    /// A free lock with nobody waiting.
    pub fn new() -> (r: RawRwLock) {
        RawRwLock {
            state: AtomicUsize::new(UNLOCKED),
            parking: Monitor::new(WaitQueue::new()),
        }
    }

    /// Whether anybody holds the lock; for information only.
    pub fn is_locked(&self) -> bool {
        let state = self.state.load(Ordering::Relaxed);
        is_locked_word(state)
    }

    /// Whether a writer holds the lock; for information only.
    pub fn is_locked_exclusive(&self) -> bool {
        let state = self.state.load(Ordering::Relaxed);
        is_locked_exclusive_word(state)
    }

    /// Takes the lock for writing if nobody holds it, without waiting.
    pub fn try_lock_exclusive(&self) -> bool {
        let r = update_word(
            &self.state,
            Ordering::Acquire,
            Ordering::Relaxed,
            (|s: usize| -> (n: Option<usize>)
                ensures
                    n == (if s & LOCKED == 0 { Some(s | LOCKED) } else { None::<usize> }),
                { exclusive_acquire(s) }),
        );
        r.is_ok()
    }

    /// Takes the lock for writing, waiting as long as it takes.
    pub fn lock_exclusive(&self) {
        if !self.lock_exclusive_fast_assuming(UNLOCKED) {
            self.lock_exclusive_slow();
        }
    }

    /// Lets go of the lock held for writing, and wakes the waiting queue when
    /// somebody waits. Does nothing when no writer holds the lock.
    pub fn unlock_exclusive(&self) {
        let r = update_word(
            &self.state,
            Ordering::Release,
            Ordering::Relaxed,
            (|s: usize| -> (n: Option<usize>)
                ensures
                    n == exclusive_release_spec(s),
                { exclusive_release(s) }),
        );
        if let Ok(before) = r {
            if let Some(after) = exclusive_release(before) {
                if release_wakes(before, after) {
                    self.unpark();
                }
            }
        }
    }

    /// Takes the lock for reading if that needs no waiting.
    pub fn try_lock_shared(&self) -> bool {
        self.try_lock_shared_fast() || self.try_lock_shared_slow()
    }

    /// Takes the lock for reading, waiting as long as it takes.
    pub fn lock_shared(&self) {
        if !self.try_lock_shared_fast() {
            self.lock_shared_slow();
        }
    }

    /// Lets go of the lock held for reading; the last reader wakes the
    /// waiting queue when somebody waits. Does nothing when no reader holds
    /// the lock.
    pub fn unlock_shared(&self) {
        let r = update_word(
            &self.state,
            Ordering::Release,
            Ordering::Relaxed,
            (|s: usize| -> (n: Option<usize>)
                ensures
                    n == shared_release_spec(s),
                { shared_release(s) }),
        );
        if let Ok(before) = r {
            if let Some(after) = shared_release(before) {
                if release_wakes(before, after) {
                    self.unpark();
                }
            }
        }
    }

    /// One attempt to go from `state` to `state` with the lock bit set;
    /// false when `state` is locked or the word is no longer `state`.
    fn lock_exclusive_fast_assuming(&self, state: usize) -> (r: bool)
        ensures
            state & LOCKED != 0 ==> !r,
    {
        match exclusive_acquire(state) {
            Some(next) => self.state.compare_exchange(
                state,
                next,
                Ordering::Acquire,
                Ordering::Relaxed,
            ).is_ok(),
            None => false,
        }
    }

    fn lock_exclusive_slow(&self) {
        self.lock(true);
    }

    /// One attempt to add a reader to `state`: `None` when `state` admits no
    /// more readers from outside the queue, else the outcome of the
    /// compare-and-swap.
    fn try_lock_shared_assuming(&self, state: usize) -> (r: Option<Result<usize, usize>>)
        ensures
            r is None <==> shared_acquire_spec(state, false) is None,
    {
        match shared_acquire(state, false) {
            Some(next) => Some(
                self.state.compare_exchange(state, next, Ordering::Acquire, Ordering::Relaxed),
            ),
            None => None,
        }
    }

    fn try_lock_shared_fast(&self) -> bool {
        let state = self.state.load(Ordering::Relaxed);
        let result = self.try_lock_shared_assuming(state);
        matches!(result, Some(Ok(_)))
    }

    fn try_lock_shared_slow(&self) -> bool {
        let r = update_word(
            &self.state,
            Ordering::Acquire,
            Ordering::Relaxed,
            (|s: usize| -> (n: Option<usize>)
                ensures
                    n == shared_acquire_spec(s, false),
                { shared_acquire(s, false) }),
        );
        r.is_ok()
    }

    fn lock_shared_slow(&self) {
        self.lock(false);
    }

    /// An attempt by a queued thread: it ignores the `QUEUED` bit.
    fn try_acquire_waiting(&self, is_writer: bool) -> bool {
        let r = if is_writer {
            update_word(
                &self.state,
                Ordering::Acquire,
                Ordering::Relaxed,
                (|s: usize| -> (n: Option<usize>)
                    ensures
                        n == (if s & LOCKED == 0 { Some(s | LOCKED) } else { None::<usize> }),
                    { exclusive_acquire(s) }),
            )
        } else {
            update_word(
                &self.state,
                Ordering::Acquire,
                Ordering::Relaxed,
                (|s: usize| -> (n: Option<usize>)
                    ensures
                        n == shared_acquire_spec(s, true),
                    { shared_acquire(s, true) }),
            )
        };
        r.is_ok()
    }

    /// Decides, with the queue's mutex held, whether the waiter holding
    /// `ticket` sleeps on: false once it has taken the lock. A waiter takes
    /// the lock only when the queue's policy wakes it; it then leaves the
    /// queue, and the last one out clears the `QUEUED` bit.
    fn keep_waiting(&self, q: &mut WaitQueue, ticket: Option<u64>, is_writer: bool) -> (r:
        bool)
        ensures
            ticket is Some && !r ==> is_woken(old(q)@, ticket->0) && final(q)@ == old(q)@.remove(
                position_of(old(q)@, ticket->0)->0 as int,
            ),
            ticket is Some && r ==> final(q)@ == old(q)@,
            ticket is None ==> final(q)@ == old(q)@,
    {
        match ticket {
            Some(t) => {
                if !q.may_attempt(t) {
                    return true;
                }
                if !self.try_acquire_waiting(is_writer) {
                    return true;
                }
                let removed = q.remove(t);
                assert(removed);
                if q.is_empty() {
                    self.state.fetch_and(!QUEUED, Ordering::Relaxed);
                }
                false
            },
            None => !self.try_acquire_waiting(is_writer),
        }
    }

    /// Joins the waiting queue and sleeps until this thread holds the lock.
    fn lock(&self, is_writer: bool) {
        let mut guard = self.parking.lock();
        let ticket = guard.value().enqueue(is_writer);
        self.state.fetch_or(QUEUED, Ordering::Relaxed);
        let _guard = wait_while(guard, &TurnWait { lock: self, ticket, is_writer });
    }

    /// Wakes every thread in the waiting queue, so that those the policy
    /// lets through try to take the lock.
    fn unpark(&self) {
        let _guard = self.parking.lock();
        self.parking.notify_all();
    }
}

} // verus!
