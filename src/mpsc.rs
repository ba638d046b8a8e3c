//! Multi-producer, single-consumer channels in three flavors: unbounded,
//! bounded, and rendezvous (a bound of zero).
//!
//! All flavors share one queue type, `Queue`, whose every operation is a
//! verified transition of a plain state: the buffered messages, the flavor,
//! the number of live senders, and the receiver's liveness. The handles
//! (`Sender`, `SyncSender`, `Receiver`) hold that queue behind a mutex and
//! sleep on a condition variable while an operation has to wait.
use crate::blocking::{wait_timeout_while, wait_while, Monitor, WaitCondition};
use std::cell::Cell;
use std::collections::VecDeque;
use std::marker::PhantomData;
use std::sync::Arc;
use std::time::{Duration, Instant};
use vstd::prelude::*;

verus! {

/// An error returned from `Sender::send` or `SyncSender::send`: the
/// receiver is gone. It holds the message, so that it can be recovered.
#[derive(PartialEq, Eq, Clone, Copy, Debug)]
pub struct SendError<T>(pub T);

/// An error returned from `Receiver::recv`: the channel is empty and every
/// sender is gone.
#[derive(PartialEq, Eq, Clone, Copy, Debug)]
pub struct RecvError;

/// Why `Receiver::try_recv` returned no message.
#[derive(PartialEq, Eq, Clone, Copy, Debug)]
pub enum TryRecvError {
    /// Nothing is buffered, but senders remain.
    Empty,
    /// Nothing is buffered, and every sender is gone.
    Disconnected,
}

/// Why `Receiver::recv_timeout` or `Receiver::recv_deadline` returned no
/// message.
#[derive(PartialEq, Eq, Clone, Copy, Debug)]
pub enum RecvTimeoutError {
    /// The time ran out while senders remained.
    Timeout,
    /// Nothing is buffered, and every sender is gone.
    Disconnected,
}

/// Why `SyncSender::try_send` did not send; each variant holds the message.
#[derive(PartialEq, Eq, Clone, Copy, Debug)]
pub enum TrySendError<T> {
    /// Sending would have to wait: the buffer is full, or on a rendezvous
    /// channel no receiver is waiting.
    Full(T),
    /// The receiver is gone.
    Disconnected(T),
}

impl<T> From<SendError<T>> for TrySendError<T> {
    /// A failed send becomes `Disconnected` with the same message.
    fn from(err: SendError<T>) -> (r: TrySendError<T>)
        ensures
            r == TrySendError::Disconnected(err.0),
    {
        TrySendError::Disconnected(err.0)
    }
}

impl<T> vstd::std_specs::convert::FromSpecImpl<SendError<T>> for TrySendError<T> {
    open spec fn obeys_from_spec() -> bool {
        true
    }

    open spec fn from_spec(err: SendError<T>) -> TrySendError<T> {
        TrySendError::Disconnected(err.0)
    }
}

impl From<RecvError> for TryRecvError {
    /// A failed receive becomes `Disconnected`.
    fn from(err: RecvError) -> (r: TryRecvError)
        ensures
            r == TryRecvError::Disconnected,
    {
        TryRecvError::Disconnected
    }
}

impl vstd::std_specs::convert::FromSpecImpl<RecvError> for TryRecvError {
    open spec fn obeys_from_spec() -> bool {
        true
    }

    open spec fn from_spec(err: RecvError) -> TryRecvError {
        TryRecvError::Disconnected
    }
}

impl From<RecvError> for RecvTimeoutError {
    /// A failed receive becomes `Disconnected`.
    fn from(err: RecvError) -> (r: RecvTimeoutError)
        ensures
            r == RecvTimeoutError::Disconnected,
    {
        RecvTimeoutError::Disconnected
    }
}

impl vstd::std_specs::convert::FromSpecImpl<RecvError> for RecvTimeoutError {
    open spec fn obeys_from_spec() -> bool {
        true
    }

    open spec fn from_spec(err: RecvError) -> RecvTimeoutError {
        RecvTimeoutError::Disconnected
    }
}

/// How a channel buffers its messages.
#[derive(PartialEq, Eq, Clone, Copy, Debug, Structural)]
pub enum Flavor {
    /// No bound: a send never waits.
    Unbounded,
    /// At most this many messages (at least one) wait in the buffer.
    Bounded(usize),
    /// No buffer: a message passes only to a receiver that waits for it.
    Rendezvous,
}

/// What a queue holds, as plain values.
pub struct QueueView<T> {
    /// The buffered messages, oldest first.
    pub buffer: Seq<T>,
    pub flavor: Flavor,
    /// The number of live senders.
    pub senders: nat,
    pub receiver_alive: bool,
    /// The receiver sleeps in a receive, ready to take a message.
    pub receiver_waiting: bool,
    /// The ticket of the blocked sender whose turn it is to send.
    pub send_turn: u64,
    /// The ticket that the next blocked sender gets. Blocked senders hold
    /// the tickets from `send_turn` up to this one, in the order in which
    /// they came; none waits when the two are equal.
    pub next_send_ticket: u64,
}

/// A message can go into the queue now: always when unbounded, below the
/// bound when bounded, and for a rendezvous when the receiver waits and no
/// message is already handed to it.
pub open spec fn has_room<T>(v: QueueView<T>) -> bool {
    match v.flavor {
        Flavor::Unbounded => true,
        Flavor::Bounded(n) => v.buffer.len() < n,
        Flavor::Rendezvous => v.receiver_waiting && v.buffer.len() == 0,
    }
}

/// The queue with `t` added behind the buffered messages.
pub open spec fn with_message<T>(v: QueueView<T>, t: T) -> QueueView<T> {
    QueueView {
        buffer: v.buffer.push(t),
        flavor: v.flavor,
        senders: v.senders,
        receiver_alive: v.receiver_alive,
        receiver_waiting: v.receiver_waiting,
        send_turn: v.send_turn,
        next_send_ticket: v.next_send_ticket,
    }
}

/// The queue without its oldest message.
pub open spec fn without_oldest<T>(v: QueueView<T>) -> QueueView<T> {
    QueueView {
        buffer: v.buffer.drop_first(),
        flavor: v.flavor,
        senders: v.senders,
        receiver_alive: v.receiver_alive,
        receiver_waiting: v.receiver_waiting,
        send_turn: v.send_turn,
        next_send_ticket: v.next_send_ticket,
    }
}

/// A send that does not wait: `Disconnected` when the receiver is gone,
/// else the message joins the buffer when there is room, else `Full`. Each
/// error holds the message that was passed.
pub open spec fn try_send_spec<T>(v: QueueView<T>, t: T) -> (QueueView<T>, Result<(), TrySendError<T>>) {
    if !v.receiver_alive {
        (v, Err(TrySendError::Disconnected(t)))
    } else if has_room(v) {
        (with_message(v, t), Ok(()))
    } else {
        (v, Err(TrySendError::Full(t)))
    }
}

/// A receive that does not wait: the oldest buffered message, else
/// `Disconnected` when every sender is gone, else `Empty`. Buffered
/// messages come out before the disconnection shows.
pub open spec fn try_recv_spec<T>(v: QueueView<T>) -> (QueueView<T>, Result<T, TryRecvError>) {
    if v.buffer.len() > 0 {
        (without_oldest(v), Ok(v.buffer[0]))
    } else if v.senders == 0 {
        (v, Err(TryRecvError::Disconnected))
    } else {
        (v, Err(TryRecvError::Empty))
    }
}

/// A new channel's queue: nothing buffered, one sender, a receiver, and
/// nobody waiting.
pub open spec fn fresh_queue<T>(flavor: Flavor) -> QueueView<T> {
    QueueView {
        buffer: Seq::empty(),
        flavor,
        senders: 1,
        receiver_alive: true,
        receiver_waiting: false,
        send_turn: 0,
        next_send_ticket: 0,
    }
}

/// The ticket after `t`; tickets go round.
pub open spec fn next_ticket(t: u64) -> u64 {
    if t == u64::MAX {
        0
    } else {
        (t + 1) as u64
    }
}

/// Some sender is asleep in a send, holding its message.
pub open spec fn senders_waiting<T>(v: QueueView<T>) -> bool {
    v.next_send_ticket != v.send_turn
}

/// The sender holding `ticket` must sleep on: the receiver lives, and it is
/// not this sender's turn or there is no room. Blocked senders thus send in
/// the order in which they came.
pub open spec fn sender_must_wait<T>(v: QueueView<T>, ticket: u64) -> bool {
    v.receiver_alive && (ticket != v.send_turn || !has_room(v))
}

/// A rendezvous receiver that does not wait still pairs with a sender that
/// already waits with its message: it waits for that handoff alone.
pub open spec fn handoff_pending<T>(v: QueueView<T>) -> bool {
    v.flavor == Flavor::Rendezvous && v.buffer.len() == 0 && senders_waiting(v)
}

/// The buffered messages and the liveness of both ends of one channel.
pub struct Queue<T> {
    buffer: VecDeque<T>,
    flavor: Flavor,
    senders: usize,
    receiver_alive: bool,
    receiver_waiting: bool,
    send_turn: u64,
    next_send_ticket: u64,
}

impl<T> Queue<T> {
    /// The buffer stays within the flavor's bound, and a bounded queue has
    /// room for at least one message.
    #[verifier::type_invariant]
    spec fn inv(&self) -> bool {
        &&& within_bound(self@)
        &&& self.flavor != Flavor::Bounded(0)
    }

    pub closed spec fn view(&self) -> QueueView<T> {
        QueueView {
            buffer: self.buffer@,
            flavor: self.flavor,
            senders: self.senders as nat,
            receiver_alive: self.receiver_alive,
            receiver_waiting: self.receiver_waiting,
            send_turn: self.send_turn,
            next_send_ticket: self.next_send_ticket,
        }
    }

    /// An empty queue of the given flavor, with one sender and a receiver;
    /// a bounded queue has room for at least one message.
    pub fn new(flavor: Flavor) -> (r: Queue<T>)
        requires
            flavor != Flavor::Bounded(0),
        ensures
            r@ == fresh_queue::<T>(flavor),
    {
        Queue {
            buffer: VecDeque::new(),
            flavor,
            senders: 1,
            receiver_alive: true,
            receiver_waiting: false,
            send_turn: 0,
            next_send_ticket: 0,
        }
    }

    fn room(&self) -> (r: bool)
        ensures
            r == has_room(self@),
    {
        match self.flavor {
            Flavor::Unbounded => true,
            Flavor::Bounded(n) => self.buffer.len() < n,
            Flavor::Rendezvous => self.receiver_waiting && self.buffer.len() == 0,
        }
    }

    /// Sends `t` if that needs no waiting; see `try_send_spec`.
    pub fn try_send(&mut self, t: T) -> (r: Result<(), TrySendError<T>>)
        ensures
            (final(self)@, r) == try_send_spec(old(self)@, t),
            within_bound(old(self)@),
            within_bound(final(self)@),
    {
        proof {
            use_type_invariant(&*self);
        }
        if !self.receiver_alive {
            Err(TrySendError::Disconnected(t))
        } else if self.room() {
            let mut buffer = VecDeque::new();
            std::mem::swap(&mut self.buffer, &mut buffer);
            buffer.push_back(t);
            std::mem::swap(&mut self.buffer, &mut buffer);
            proof {
                assert(self@.buffer =~= old(self)@.buffer.push(t));
            }
            Ok(())
        } else {
            Err(TrySendError::Full(t))
        }
    }

    /// Takes the oldest message if there is one; see `try_recv_spec`.
    pub fn try_recv(&mut self) -> (r: Result<T, TryRecvError>)
        ensures
            (final(self)@, r) == try_recv_spec(old(self)@),
            within_bound(old(self)@),
            within_bound(final(self)@),
    {
        proof {
            use_type_invariant(&*self);
        }
        let mut buffer = VecDeque::new();
        std::mem::swap(&mut self.buffer, &mut buffer);
        let first = buffer.pop_front();
        std::mem::swap(&mut self.buffer, &mut buffer);
        match first {
            Some(t) => {
                proof {
                    assert(self@.buffer =~= old(self)@.buffer.drop_first());
                }
                Ok(t)
            },
            None => {
                if self.senders == 0 {
                    Err(TryRecvError::Disconnected)
                } else {
                    Err(TryRecvError::Empty)
                }
            },
        }
    }

    /// Whether the sender holding `ticket` must sleep on; see
    /// `sender_must_wait`.
    pub fn send_must_wait(&self, ticket: u64) -> (r: bool)
        ensures
            r == sender_must_wait(self@, ticket),
    {
        self.receiver_alive && (ticket != self.send_turn || !self.room())
    }

    /// The receiver must sleep on: nothing is buffered and senders remain.
    /// While it sleeps it counts as waiting, which is what lets a rendezvous
    /// sender hand it a message.
    pub fn recv_must_wait(&mut self) -> (r: bool)
        ensures
            r == (old(self)@.buffer.len() == 0 && old(self)@.senders > 0),
            final(self)@ == (QueueView { receiver_waiting: r, ..old(self)@ }),
    {
        proof {
            use_type_invariant(&*self);
        }
        let wait = self.buffer.len() == 0 && self.senders > 0;
        self.receiver_waiting = wait;
        wait
    }

    /// A sender is about to wait in a send: it takes the next ticket.
    pub fn sender_starts_waiting(&mut self) -> (ticket: u64)
        ensures
            ticket == old(self)@.next_send_ticket,
            final(self)@ == (QueueView { next_send_ticket: next_ticket(ticket), ..old(self)@ }),
    {
        proof {
            use_type_invariant(&*self);
        }
        let ticket = self.next_send_ticket;
        self.next_send_ticket = if ticket == u64::MAX {
            0
        } else {
            ticket + 1
        };
        ticket
    }

    /// A sender has stopped waiting, having sent or found the receiver
    /// gone: the turn passes on.
    pub fn sender_stops_waiting(&mut self)
        ensures
            final(self)@ == (QueueView { send_turn: next_ticket(old(self)@.send_turn), ..old(self)@ }),
    {
        proof {
            use_type_invariant(&*self);
        }
        self.send_turn = if self.send_turn == u64::MAX {
            0
        } else {
            self.send_turn + 1
        };
    }

    /// Whether a receive that does not wait must still wait for a sender
    /// that already waits; see `handoff_pending`.
    pub fn is_handoff_pending(&self) -> (r: bool)
        ensures
            r == handoff_pending(self@),
    {
        self.flavor == Flavor::Rendezvous && self.buffer.len() == 0 && self.next_send_ticket != self.send_turn
    }

    /// The check of a receiver that waits only for a pending handoff: it
    /// sleeps on while nothing is buffered and some sender waits, and
    /// counts as waiting meanwhile.
    pub fn handoff_must_wait(&mut self) -> (r: bool)
        ensures
            r == (old(self)@.buffer.len() == 0 && senders_waiting(old(self)@)),
            final(self)@ == (QueueView { receiver_waiting: r, ..old(self)@ }),
    {
        proof {
            use_type_invariant(&*self);
        }
        let wait = self.buffer.len() == 0 && self.next_send_ticket != self.send_turn;
        self.receiver_waiting = wait;
        wait
    }

    /// Whether the receiver sleeps in a receive.
    pub fn is_receiver_waiting(&self) -> (r: bool)
        ensures
            r == self@.receiver_waiting,
    {
        self.receiver_waiting
    }

    /// The receiver stops waiting.
    pub fn stop_waiting(&mut self)
        ensures
            final(self)@ == (QueueView { receiver_waiting: false, ..old(self)@ }),
    {
        proof {
            use_type_invariant(&*self);
        }
        self.receiver_waiting = false;
    }

    /// One more sender. The count stops at its largest value, which no
    /// program can reach: each sender takes memory of its own.
    pub fn add_sender(&mut self)
        ensures
            final(self)@ == (QueueView {
                senders: if old(self)@.senders < usize::MAX { old(self)@.senders + 1 } else {
                    old(self)@.senders
                },
                ..old(self)@
            }),
    {
        proof {
            use_type_invariant(&*self);
        }
        if self.senders < usize::MAX {
            self.senders = self.senders + 1;
        }
    }

    /// One sender fewer; returns whether it was the last one.
    pub fn drop_sender(&mut self) -> (r: bool)
        ensures
            final(self)@ == (QueueView {
                senders: if old(self)@.senders > 0 { (old(self)@.senders - 1) as nat } else { 0 },
                ..old(self)@
            }),
            r == (final(self)@.senders == 0),
        opens_invariants none
        no_unwind
    {
        proof {
            use_type_invariant(&*self);
        }
        if self.senders > 0 {
            self.senders = self.senders - 1;
        }
        self.senders == 0
    }

    /// The receiver is gone; senders see the channel disconnected.
    pub fn drop_receiver(&mut self)
        ensures
            final(self)@ == (QueueView {
                receiver_alive: false,
                receiver_waiting: false,
                ..old(self)@
            }),
        opens_invariants none
        no_unwind
    {
        proof {
            use_type_invariant(&*self);
        }
        self.receiver_alive = false;
        self.receiver_waiting = false;
    }
}

#[verifier::external_type_specification]
#[verifier::external_body]
pub struct ExInstant(Instant);

#[verifier::external_type_specification]
#[verifier::external_body]
#[verifier::reject_recursive_types(T)]
pub struct ExCell<T: ?Sized>(Cell<T>);

/// Relies on Instant::now: the current time of the monotonic clock.
#[verifier::external_body]
fn instant_now() -> Instant {
    Instant::now()
}

/// Relies on Instant::checked_duration_since: how long from `now` until
/// `deadline`, or `None` when the deadline lies before `now`.
#[verifier::external_body]
fn time_until(deadline: Instant, now: Instant) -> Option<Duration> {
    deadline.checked_duration_since(now)
}

/// Relies on Arc::clone: another handle to the same allocation.
#[verifier::external_body]
fn share<T>(a: &Arc<T>) -> (r: Arc<T>)
    ensures
        *r == **a,
{
    Arc::clone(a)
}

/// The state that the two ends of a channel share: the queue, behind a
/// monitor on which senders and the receiver sleep.
#[verifier::reject_recursive_types(T)]
pub struct Channel<T> {
    queue: Monitor<Queue<T>>,
    flavor: Flavor,
}

impl<T> Channel<T> {
    /// How the channel buffers its messages.
    pub closed spec fn flavor(&self) -> Flavor {
        self.flavor
    }

    /// What the channel's queue held when the channel was made.
    pub closed spec fn initial(&self) -> QueueView<T> {
        self.queue.initial()@
    }

    fn new(flavor: Flavor) -> (r: Arc<Channel<T>>)
        requires
            flavor != Flavor::Bounded(0),
        ensures
            r.flavor() == flavor,
            r.initial() == fresh_queue::<T>(flavor),
    {
        Arc::new(Channel { queue: Monitor::new(Queue::new(flavor)), flavor })
    }
}

/// A blocked sender's check before each sleep: see `Queue::send_must_wait`.
struct SendWait {
    ticket: u64,
}

impl<T> WaitCondition<Queue<T>> for SendWait {
    fn must_wait(&self, q: &mut Queue<T>) -> bool {
        q.send_must_wait(self.ticket)
    }
}

/// The receiver's check before each sleep: see `Queue::recv_must_wait`, or
/// `Queue::handoff_must_wait` for a receive that waits only for a pending
/// handoff. When the receiver starts to wait it wakes the senders, since a
/// rendezvous sender waits for exactly that.
#[verifier::reject_recursive_types(T)]
struct RecvWait<'a, T> {
    chan: &'a Channel<T>,
    handoff_only: bool,
}

impl<'a, T> WaitCondition<Queue<T>> for RecvWait<'a, T> {
    fn must_wait(&self, q: &mut Queue<T>) -> bool {
        let was_waiting = q.is_receiver_waiting();
        let wait = if self.handoff_only {
            q.handoff_must_wait()
        } else {
            q.recv_must_wait()
        };
        if wait && !was_waiting {
            self.chan.queue.notify_all();
        }
        wait
    }
}

/// The sending half of an unbounded channel made by `channel`; it can be
/// cloned to send from several threads.
#[verifier::reject_recursive_types(T)]
pub struct Sender<T> {
    chan: Arc<Channel<T>>,
}

/// The sending half of a bounded or rendezvous channel made by
/// `sync_channel`; it can be cloned to send from several threads.
#[verifier::reject_recursive_types(T)]
pub struct SyncSender<T> {
    sender: Sender<T>,
}

/// The receiving half of a channel; there is one per channel. It may move
/// to another thread but is not shared between threads: the queue serves
/// one receiver at a time.
#[verifier::reject_recursive_types(T)]
pub struct Receiver<T> {
    chan: Arc<Channel<T>>,
    not_sync: PhantomData<Cell<()>>,
}

/// Receives messages, waiting for each, until every sender is gone.
#[verifier::reject_recursive_types(T)]
pub struct Iter<'a, T> {
    rx: &'a Receiver<T>,
}

/// Receives the messages that are there, without waiting.
#[verifier::reject_recursive_types(T)]
pub struct TryIter<'a, T> {
    rx: &'a Receiver<T>,
}

/// Receives messages, waiting for each, until every sender is gone; owns
/// the receiver.
#[verifier::reject_recursive_types(T)]
pub struct IntoIter<T> {
    rx: Receiver<T>,
}

/// Creates an unbounded channel: sends never wait, and messages come out in
/// the order in which they went in. Both halves share one channel, which
/// starts empty with one sender and the receiver.
pub fn channel<T>() -> (r: (Sender<T>, Receiver<T>))
    ensures
        r.0.channel() == r.1.channel(),
        r.1.channel().flavor() == Flavor::Unbounded,
        r.1.channel().initial() == fresh_queue::<T>(Flavor::Unbounded),
{
    let chan = Channel::new(Flavor::Unbounded);
    let other = share(&chan);
    (Sender::new(other), Receiver::new(chan))
}

/// The flavor that `sync_channel` picks for a bound: rendezvous for zero,
/// bounded otherwise.
pub open spec fn flavor_for_bound(bound: usize) -> Flavor {
    if bound == 0 {
        Flavor::Rendezvous
    } else {
        Flavor::Bounded(bound)
    }
}

/// Creates a channel that buffers at most `bound` messages; a send waits
/// while the buffer is full. With a bound of zero each send waits for a
/// receiver to take its message. Both halves share one channel, which
/// starts empty with one sender and the receiver.
pub fn sync_channel<T>(bound: usize) -> (r: (SyncSender<T>, Receiver<T>))
    ensures
        r.0.channel() == r.1.channel(),
        r.1.channel().flavor() == flavor_for_bound(bound),
        r.1.channel().initial() == fresh_queue::<T>(flavor_for_bound(bound)),
{
    let flavor = if bound == 0 {
        Flavor::Rendezvous
    } else {
        Flavor::Bounded(bound)
    };
    let chan = Channel::new(flavor);
    let other = share(&chan);
    (SyncSender::new(other), Receiver::new(chan))
}

/// Sends `t`, waiting while the queue has no room for it. Fails, handing
/// `t` back, when the receiver is gone.
fn send_waiting<T>(chan: &Channel<T>, t: T) -> (r: Result<(), SendError<T>>)
    ensures
        r matches Err(SendError(v)) ==> v == t,
{
    let mut g = chan.queue.lock();
    let ticket = g.value().sender_starts_waiting();
    let mut g = wait_while(g, &SendWait { ticket });
    let q = g.value();
    q.sender_stops_waiting();
    // The wait ends only on this sender's turn with room, or without a
    // receiver, so a full queue is not seen here; it would count as a failed
    // send.
    let r = match q.try_send(t) {
        Ok(()) => Ok(()),
        Err(TrySendError::Full(t)) => Err(SendError(t)),
        Err(TrySendError::Disconnected(t)) => Err(SendError(t)),
    };
    // The receiver may take the message, and the next blocked sender now
    // has its turn.
    chan.queue.notify_all();
    r
}

impl<T> Sender<T> {
    /// The channel that this sender sends on.
    pub closed spec fn channel(&self) -> Channel<T> {
        *self.chan
    }

    fn new(chan: Arc<Channel<T>>) -> (r: Sender<T>)
        ensures
            r.channel() == *chan,
    {
        Sender { chan }
    }

    /// Sends `t` without waiting. Fails, handing `t` back, when the
    /// receiver is gone.
    pub fn send(&self, t: T) -> (r: Result<(), SendError<T>>)
        ensures
            r matches Err(SendError(v)) ==> v == t,
    {
        send_waiting(&self.chan, t)
    }
}

impl<T> Clone for Sender<T> {
    /// Another sender to the same channel.
    fn clone(&self) -> (r: Sender<T>)
        ensures
            r.channel() == self.channel(),
    {
        let mut g = self.chan.queue.lock();
        g.value().add_sender();
        Sender::new(share(&self.chan))
    }
}

impl<T> Drop for Sender<T> {
    /// The last sender to go disconnects the channel and wakes the receiver.
    fn drop(&mut self)
        opens_invariants none
        no_unwind
    {
        let mut g = self.chan.queue.lock();
        if g.value().drop_sender() {
            self.chan.queue.notify_all();
        }
    }
}

impl<T> SyncSender<T> {
    /// The channel that this sender sends on.
    pub closed spec fn channel(&self) -> Channel<T> {
        self.sender.channel()
    }

    fn new(chan: Arc<Channel<T>>) -> (r: SyncSender<T>)
        ensures
            r.channel() == *chan,
    {
        SyncSender { sender: Sender::new(chan) }
    }

    /// Sends `t`, waiting while the buffer is full; on a rendezvous channel,
    /// waiting until the receiver waits to take it. Fails, handing `t` back,
    /// when the receiver is gone.
    pub fn send(&self, t: T) -> (r: Result<(), SendError<T>>)
        ensures
            r matches Err(SendError(v)) ==> v == t,
    {
        send_waiting(&self.sender.chan, t)
    }

    /// Sends `t` if that needs no waiting. `Full` when the buffer is full,
    /// or on a rendezvous channel when no receiver waits; `Disconnected`
    /// when the receiver is gone. Each error hands `t` back.
    pub fn try_send(&self, t: T) -> (r: Result<(), TrySendError<T>>)
        ensures
            r matches Err(TrySendError::Full(v)) ==> v == t,
            r matches Err(TrySendError::Disconnected(v)) ==> v == t,
    {
        let mut g = self.sender.chan.queue.lock();
        let r = g.value().try_send(t);
        if r.is_ok() {
            self.sender.chan.queue.notify_all();
        }
        r
    }
}

impl<T> Clone for SyncSender<T> {
    /// Another sender to the same channel.
    fn clone(&self) -> (r: SyncSender<T>)
        ensures
            r.channel() == self.channel(),
    {
        SyncSender { sender: self.sender.clone() }
    }
}

/// What a receive whose time has run out returns, from what a receive that
/// does not wait found: the message, or `Timeout` for an empty channel, or
/// `Disconnected` for an empty channel without senders.
pub fn expired_outcome<T>(r: Result<T, TryRecvError>) -> (o: Result<T, RecvTimeoutError>)
    ensures
        r matches Ok(v) ==> o == Ok::<T, RecvTimeoutError>(v),
        r == Err::<T, TryRecvError>(TryRecvError::Empty) ==> o == Err::<T, RecvTimeoutError>(
            RecvTimeoutError::Timeout,
        ),
        r == Err::<T, TryRecvError>(TryRecvError::Disconnected) ==> o == Err::<
            T,
            RecvTimeoutError,
        >(RecvTimeoutError::Disconnected),
{
    match r {
        Ok(t) => Ok(t),
        Err(TryRecvError::Empty) => Err(RecvTimeoutError::Timeout),
        Err(TryRecvError::Disconnected) => Err(RecvTimeoutError::Disconnected),
    }
}

impl<T> Receiver<T> {
    /// The channel that this receiver receives on.
    pub closed spec fn channel(&self) -> Channel<T> {
        *self.chan
    }

    fn new(chan: Arc<Channel<T>>) -> (r: Receiver<T>)
        ensures
            r.channel() == *chan,
    {
        Receiver { chan, not_sync: PhantomData }
    }

    /// Takes the oldest message if there is one, without waiting for a
    /// message to be sent: `Empty` when none is buffered and senders remain,
    /// `Disconnected` when none is buffered and every sender is gone. On a
    /// rendezvous channel a sender that already waits hands its message
    /// over first.
    pub fn try_recv(&self) -> Result<T, TryRecvError> {
        let mut g = self.chan.queue.lock();
        if g.value().is_handoff_pending() {
            g = wait_while(g, &RecvWait { chan: &self.chan, handoff_only: true });
            g.value().stop_waiting();
        }
        let r = g.value().try_recv();
        if r.is_ok() {
            self.chan.queue.notify_all();
        }
        r
    }

    /// Takes the oldest message, waiting until one comes; fails once the
    /// channel is empty and every sender is gone.
    pub fn recv(&self) -> Result<T, RecvError> {
        let g = self.chan.queue.lock();
        let mut g = wait_while(g, &RecvWait { chan: &self.chan, handoff_only: false });
        // The wait ends only with a message or without senders, so an empty
        // queue is not seen here; it would count as a disconnection.
        match g.value().try_recv() {
            Ok(t) => {
                self.chan.queue.notify_all();
                Ok(t)
            },
            Err(_) => Err(RecvError),
        }
    }

    /// Takes the oldest message, waiting at most `timeout` for one to come.
    /// After the time has run out the queue is looked at once more.
    pub fn recv_timeout(&self, timeout: Duration) -> Result<T, RecvTimeoutError> {
        let g = self.chan.queue.lock();
        let mut g = wait_timeout_while(
            g,
            timeout,
            &RecvWait { chan: &self.chan, handoff_only: false },
        );
        let q = g.value();
        q.stop_waiting();
        let r = q.try_recv();
        if r.is_ok() {
            self.chan.queue.notify_all();
        }
        expired_outcome(r)
    }

    /// Takes the oldest message, waiting until `deadline` at the latest.
    /// A deadline that has passed gives what a receive without waiting
    /// finds; see `expired_outcome`.
    pub fn recv_deadline(&self, deadline: Instant) -> Result<T, RecvTimeoutError> {
        let now = instant_now();
        match time_until(deadline, now) {
            Some(until_deadline) => self.recv_timeout(until_deadline),
            None => expired_outcome(self.try_recv()),
        }
    }

    /// Receives messages, waiting for each, until every sender is gone.
    pub fn iter(&self) -> Iter<'_, T> {
        Iter { rx: self }
    }

    /// Receives the messages that are there, without waiting.
    pub fn try_iter(&self) -> TryIter<'_, T> {
        TryIter { rx: self }
    }

    /// Receives messages, waiting for each, until every sender is gone.
    pub fn into_iter(self) -> IntoIter<T> {
        IntoIter { rx: self }
    }
}

impl<T> Drop for Receiver<T> {
    /// The receiver going disconnects the channel and wakes every sender
    /// that waits, so that each gets its message back.
    fn drop(&mut self)
        opens_invariants none
        no_unwind
    {
        let mut g = self.chan.queue.lock();
        g.value().drop_receiver();
        self.chan.queue.notify_all();
    }
}

impl<'a, T> Iter<'a, T> {
    /// The next message; `None` once every sender is gone.
    pub fn next(&mut self) -> Option<T> {
        self.rx.recv().ok()
    }
}

impl<'a, T> TryIter<'a, T> {
    /// The next message that is there; `None` when there is none.
    pub fn next(&mut self) -> Option<T> {
        self.rx.try_recv().ok()
    }
}

impl<T> IntoIter<T> {
    /// The next message; `None` once every sender is gone.
    pub fn next(&mut self) -> Option<T> {
        self.rx.recv().ok()
    }
}

/// The messages that `n` receives without waiting take out, in order, and
/// the queue after them; a receive that finds nothing adds nothing.
pub open spec fn recv_times<T>(v: QueueView<T>, n: nat) -> (QueueView<T>, Seq<T>)
    decreases n,
{
    if n == 0 {
        (v, Seq::empty())
    } else {
        let (v1, r) = try_recv_spec(v);
        let (v2, rest) = recv_times(v1, (n - 1) as nat);
        match r {
            Ok(t) => (v2, seq![t] + rest),
            Err(_) => (v2, rest),
        }
    }
}

/// Receiving drains the buffer in order: as many receives as there are
/// buffered messages take out exactly those messages, oldest first, and
/// leave the buffer empty.
pub proof fn lemma_drain_in_order<T>(v: QueueView<T>)
    ensures
        recv_times(v, v.buffer.len()).1 == v.buffer,
        recv_times(v, v.buffer.len()).0.buffer.len() == 0,
        recv_times(v, v.buffer.len()).0.senders == v.senders,
    decreases v.buffer.len(),
{
    if v.buffer.len() > 0 {
        let v1 = without_oldest(v);
        lemma_drain_in_order(v1);
        assert(seq![v.buffer[0]] + v1.buffer =~= v.buffer);
    } else {
        assert(v.buffer =~= Seq::<T>::empty());
    }
}

/// FIFO order: when two sends both find room, a receiver that drains the
/// queue gets the messages that were there, then the first message sent,
/// then the second.
pub proof fn lemma_fifo_order<T>(v: QueueView<T>, a: T, b: T)
    requires
        v.receiver_alive,
        has_room(v),
        has_room(with_message(v, a)),
    ensures
        try_send_spec(v, a).1 is Ok,
        try_send_spec(try_send_spec(v, a).0, b).1 is Ok,
        ({
            let w = try_send_spec(try_send_spec(v, a).0, b).0;
            recv_times(w, w.buffer.len()).1 == v.buffer.push(a).push(b)
        }),
{
    let w = try_send_spec(try_send_spec(v, a).0, b).0;
    lemma_drain_in_order(w);
}

/// Disconnection loses nothing: once every sender is gone, the receiver
/// still gets every buffered message in order, and after that every
/// receive reports the disconnection and changes nothing.
pub proof fn lemma_disconnect_completeness<T>(v: QueueView<T>)
    requires
        v.senders == 0,
    ensures
        recv_times(v, v.buffer.len()).1 == v.buffer,
        ({
            let drained = recv_times(v, v.buffer.len()).0;
            &&& try_recv_spec(drained).1 == Err::<T, TryRecvError>(TryRecvError::Disconnected)
            &&& try_recv_spec(drained).0 == drained
        }),
{
    lemma_drain_in_order(v);
}

/// A send that does not wait, followed by a receive that does not wait, on
/// an empty queue with room: the receive gets the very message sent.
pub proof fn lemma_send_recv_round_trip<T>(v: QueueView<T>, t: T)
    requires
        v.receiver_alive,
        has_room(v),
        v.buffer.len() == 0,
    ensures
        try_send_spec(v, t).1 is Ok,
        try_recv_spec(try_send_spec(v, t).0).1 == Ok::<T, TryRecvError>(t),
{
}

/// Payload recovery: every error of a send that carries a message carries
/// the very message that was passed.
pub proof fn lemma_payload_recovery<T>(v: QueueView<T>, t: T)
    ensures
        try_send_spec(v, t).1 matches Err(TrySendError::Full(x)) ==> x == t,
        try_send_spec(v, t).1 matches Err(TrySendError::Disconnected(x)) ==> x == t,
        try_send_spec(v, t).1 is Err ==> try_send_spec(v, t).0 == v,
{
}

/// Rendezvous handoff: on a channel of bound zero a send succeeds only
/// when the receiver is waiting with nothing handed to it yet, and the
/// receiver's next receive gets that message. With no receiver waiting the
/// send reports `Full` and changes nothing.
pub proof fn lemma_rendezvous_handoff<T>(v: QueueView<T>, t: T)
    requires
        v.flavor == Flavor::Rendezvous,
        v.receiver_alive,
    ensures
        try_send_spec(v, t).1 is Ok <==> (v.receiver_waiting && v.buffer.len() == 0),
        try_send_spec(v, t).1 is Ok ==> try_recv_spec(try_send_spec(v, t).0).1 == Ok::<
            T,
            TryRecvError,
        >(t),
        !v.receiver_waiting ==> try_send_spec(v, t) == (v, Err::<(), TrySendError<T>>(
            TrySendError::Full(t),
        )),
{
}

/// The buffer holds no more than the flavor allows: the bound of a bounded
/// channel, one handed-off message for a rendezvous.
pub open spec fn within_bound<T>(v: QueueView<T>) -> bool {
    match v.flavor {
        Flavor::Unbounded => true,
        Flavor::Bounded(n) => v.buffer.len() <= n,
        Flavor::Rendezvous => v.buffer.len() <= 1,
    }
}

/// Sends never overfill: a send that does not wait keeps a bounded buffer
/// within its bound, and a rendezvous holds at most the one message handed
/// to the waiting receiver; receives and changes of liveness only shrink
/// the buffer or leave it.
pub proof fn lemma_bound_kept<T>(v: QueueView<T>, t: T)
    requires
        within_bound(v),
    ensures
        within_bound(try_send_spec(v, t).0),
        within_bound(try_recv_spec(v).0),
{
}

/// A receive that does not wait pairs with a rendezvous sender that already
/// waits: the receiver counts as waiting while the handoff is pending, the
/// waiting sender then finds room, and the receiver takes its message.
pub proof fn lemma_waiting_sender_pairs<T>(v: QueueView<T>, t: T)
    requires
        v.receiver_alive,
        handoff_pending(v),
    ensures
        ({
            let ready = QueueView { receiver_waiting: true, ..v };
            &&& try_send_spec(ready, t).1 is Ok
            &&& try_send_spec(ready, t).0.buffer.len() > 0
            &&& try_recv_spec(try_send_spec(ready, t).0).1 == Ok::<T, TryRecvError>(t)
        }),
{
}

/// Blocked senders go in the order in which they came: while the receiver
/// lives, a sender whose ticket is not the current turn sleeps on, and the
/// turn passes only to the next ticket.
pub proof fn lemma_blocked_senders_in_order<T>(v: QueueView<T>, ticket: u64)
    requires
        v.receiver_alive,
        ticket != v.send_turn,
    ensures
        sender_must_wait(v, ticket),
        sender_must_wait(v, v.send_turn) <==> !has_room(v),
{
}

} // verus!
