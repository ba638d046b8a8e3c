//! The blocking and atomic primitives of std that the lock and the channel
//! build on, with what each of them is relied on for.
//!
//! A `Monitor` pairs a mutex with the one condition variable that is ever
//! used with it. Its guard can only be had from `Monitor::lock`, and the
//! waits take only that guard, so a wait always sleeps on the condition
//! variable of the mutex that it holds.
use std::sync::atomic::{AtomicUsize, Ordering};
use std::sync::{Condvar, Mutex, MutexGuard};
use std::time::Duration;
use vstd::prelude::*;

verus! {

#[verifier::external_type_specification]
#[verifier::external_body]
#[verifier::reject_recursive_types(T)]
pub struct ExMutex<T: ?Sized>(Mutex<T>);

#[verifier::external_type_specification]
#[verifier::external_body]
#[verifier::reject_recursive_types(T)]
pub struct ExMutexGuard<'a, T: ?Sized + 'a>(MutexGuard<'a, T>);

#[verifier::external_type_specification]
#[verifier::external_body]
pub struct ExCondvar(Condvar);

/// A value behind a mutex, with the condition variable on which threads
/// wait for it to change.
#[verifier::reject_recursive_types(T)]
pub struct Monitor<T> {
    mutex: Mutex<T>,
    ready: Condvar,
    initial: Ghost<T>,
}

/// The mutex of a monitor, held; it lets go when dropped.
#[verifier::reject_recursive_types(T)]
pub struct MonitorGuard<'a, T> {
    monitor: &'a Monitor<T>,
    guard: MutexGuard<'a, T>,
}

/// What a waiting thread checks, with the mutex held, before each sleep:
/// true to sleep on, false to stop waiting.
pub trait WaitCondition<T> {
    fn must_wait(&self, value: &mut T) -> bool;
}

/// Relies on Mutex::new: a mutex that guards `value`.
#[verifier::external_body]
fn new_mutex<T>(value: T) -> Mutex<T> {
    Mutex::new(value)
}

/// Relies on Condvar::new: a condition variable with nobody waiting on it.
#[verifier::external_body]
fn new_condvar() -> Condvar {
    Condvar::new()
}

/// Relies on Mutex::lock: blocks until this thread holds the mutex. A mutex
/// poisoned by a panic elsewhere is taken over as it stands.
#[verifier::external_body]
fn lock_mutex<'a, T>(m: &'a Mutex<T>) -> MutexGuard<'a, T>
    opens_invariants none
    no_unwind
{
    m.lock().unwrap_or_else(|e| e.into_inner())
}

/// Relies on Condvar::notify_all: wakes every thread waiting on `cv`.
#[verifier::external_body]
fn notify_all_on(cv: &Condvar)
    opens_invariants none
    no_unwind
{
    cv.notify_all()
}

impl<T> Monitor<T> {
    /// The value that the monitor was made with.
    pub closed spec fn initial(&self) -> T {
        self.initial@
    }

    /// A monitor guarding `value`, with nobody waiting.
    pub fn new(value: T) -> (r: Monitor<T>)
        ensures
            r.initial() == value,
    {
        let initial = Ghost(value);
        Monitor { mutex: new_mutex(value), ready: new_condvar(), initial }
    }

    /// Blocks until this thread holds the monitor's mutex.
    pub fn lock(&self) -> MonitorGuard<'_, T>
        opens_invariants none
        no_unwind
    {
        MonitorGuard { monitor: self, guard: lock_mutex(&self.mutex) }
    }

    /// Wakes every thread waiting on the monitor.
    pub fn notify_all(&self)
        opens_invariants none
        no_unwind
    {
        notify_all_on(&self.ready)
    }
}

impl<'a, T> MonitorGuard<'a, T> {
    /// Relies on DerefMut for MutexGuard: the value that the held mutex
    /// guards.
    #[verifier::external_body]
    pub(crate) fn value(&mut self) -> &mut T
        opens_invariants none
        no_unwind
    {
        &mut *self.guard
    }
}

/// Relies on Condvar::wait_while: sleeps on the monitor's own condition
/// variable, with its mutex released, until `cond.must_wait` on the guarded
/// value returns false; the check runs with the mutex held, before the
/// first sleep and after each wakeup.
#[verifier::external_body]
pub(crate) fn wait_while<'a, T, C: WaitCondition<T>>(
    g: MonitorGuard<'a, T>,
    cond: &C,
) -> MonitorGuard<'a, T> {
    let MonitorGuard { monitor, guard } = g;
    let guard = monitor.ready.wait_while(guard, |v| cond.must_wait(v)).unwrap_or_else(
        |e| e.into_inner(),
    );
    MonitorGuard { monitor, guard }
}

/// Relies on Condvar::wait_timeout_while: as `wait_while`, but returns once
/// `timeout` has passed even if `cond.must_wait` would still say true.
#[verifier::external_body]
pub(crate) fn wait_timeout_while<'a, T, C: WaitCondition<T>>(
    g: MonitorGuard<'a, T>,
    timeout: Duration,
    cond: &C,
) -> MonitorGuard<'a, T> {
    let MonitorGuard { monitor, guard } = g;
    let guard = monitor.ready.wait_timeout_while(guard, timeout, |v| cond.must_wait(v))
        .unwrap_or_else(|e| e.into_inner()).0;
    MonitorGuard { monitor, guard }
}

/// Relies on AtomicUsize::fetch_update: applies `f` to the word until the
/// store of its result succeeds, or until `f` returns `None`. `Ok` holds the
/// word that `f` turned into its result, `Err` the word on which `f` gave
/// `None`. The load ordering must be one that a load accepts.
#[verifier::external_body]
pub(crate) fn update_word<F: Fn(usize) -> Option<usize>>(
    a: &AtomicUsize,
    set_order: Ordering,
    fetch_order: Ordering,
    f: F,
) -> (r: Result<usize, usize>)
    requires
        fetch_order != Ordering::Release,
        fetch_order != Ordering::AcqRel,
        forall|s: usize| f.requires((s,)),
    ensures
        r matches Ok(p) ==> exists|n: usize| f.ensures((p,), Some(n)),
        r matches Err(p) ==> f.ensures((p,), None),
{
    a.fetch_update(set_order, fetch_order, f)
}

} // verus!
