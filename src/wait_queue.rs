//! The queue of threads that wait for a reader-writer lock, and the policy
//! that decides which of them may try to take it when it comes free.
//!
//! Waiters stand oldest first. When the oldest is a writer and others wait
//! behind it, that writer alone is woken; otherwise the whole queue is woken
//! and every reader in it may take the lock side by side.
use vstd::prelude::*;

verus! {

/// One thread waiting for the lock.
#[derive(Clone, Copy, PartialEq, Eq, Structural)]
pub struct Waiter {
    /// Tells this waiter apart from every other of the same queue.
    pub ticket: u64,
    /// The waiter wants the lock for writing.
    pub is_writer: bool,
}

/// Waiting threads, oldest first.
pub struct WaitQueue {
    waiters: Vec<Waiter>,
    next_ticket: u64,
}

/// Tickets rise from the oldest waiter to the newest, and all lie below the
/// next ticket to be handed out.
pub open spec fn tickets_ordered(q: Seq<Waiter>, next: u64) -> bool {
    &&& forall|i: int, j: int| 0 <= i < j < q.len() ==> q[i].ticket < q[j].ticket
    &&& forall|i: int| 0 <= i < q.len() ==> q[i].ticket < next
}

/// How many waiters, counted from the oldest, are woken when the lock comes
/// free: the oldest alone when it is a writer with others behind it, every
/// waiter otherwise.
pub open spec fn woken_count(q: Seq<Waiter>) -> nat {
    if q.len() > 1 && q[0].is_writer {
        1
    } else {
        q.len()
    }
}

/// The position of the waiter holding `ticket`, if it waits.
pub open spec fn position_of(q: Seq<Waiter>, ticket: u64) -> Option<nat> {
    if exists|i: int| 0 <= i < q.len() && q[i].ticket == ticket {
        let i = choose|i: int| 0 <= i < q.len() && q[i].ticket == ticket;
        Some(i as nat)
    } else {
        None
    }
}

/// The waiter holding `ticket` is among those woken.
pub open spec fn is_woken(q: Seq<Waiter>, ticket: u64) -> bool {
    exists|i: int| 0 <= i < woken_count(q) && q[i].ticket == ticket
}

impl WaitQueue {
    /// The waiters, oldest first.
    pub closed spec fn view(&self) -> Seq<Waiter> {
        self.waiters@
    }

    /// The ticket that the next waiter gets.
    pub closed spec fn next_ticket_spec(&self) -> u64 {
        self.next_ticket
    }

    #[verifier::type_invariant]
    spec fn wf(&self) -> bool {
        tickets_ordered(self.waiters@, self.next_ticket)
    }

    /// An empty queue.
    pub fn new() -> (r: WaitQueue)
        ensures
            r@ == Seq::<Waiter>::empty(),
            tickets_ordered(r@, r.next_ticket_spec()),
            r.next_ticket_spec() == 0,
    {
        WaitQueue { waiters: Vec::new(), next_ticket: 0 }
    }

    /// Nobody waits.
    pub fn is_empty(&self) -> (r: bool)
        ensures
            r == (self@.len() == 0),
    {
        self.waiters.len() == 0
    }

    /// Puts a new waiter behind all others and returns its ticket. Tickets
    /// count up, and start again from zero when the queue is empty; `None`,
    /// with the queue unchanged, when they have run out while the queue was
    /// never empty.
    pub fn enqueue(&mut self, is_writer: bool) -> (r: Option<u64>)
        ensures
            tickets_ordered(final(self)@, final(self).next_ticket_spec()),
            old(self).next_ticket_spec() == u64::MAX && old(self)@.len() > 0 ==> r is None
                && final(self)@ == old(self)@ && final(self).next_ticket_spec()
                == old(self).next_ticket_spec(),
            old(self).next_ticket_spec() < u64::MAX || old(self)@.len() == 0 ==> ({
                let ticket = if old(self).next_ticket_spec() < u64::MAX {
                    old(self).next_ticket_spec()
                } else {
                    0
                };
                &&& r == Some(ticket)
                &&& final(self)@ == old(self)@.push(Waiter { ticket, is_writer })
                &&& final(self).next_ticket_spec() == ticket + 1
            }),
    {
        proof {
            use_type_invariant(&*self);
        }
        let ticket = if self.next_ticket < u64::MAX {
            self.next_ticket
        } else if self.waiters.len() == 0 {
            0
        } else {
            return None;
        };
        let mut waiters = self.waiters.clone();
        assert(waiters@ =~= self.waiters@);
        waiters.push(Waiter { ticket, is_writer });
        proof {
            assert forall|i: int| 0 <= i < waiters@.len() - 1 implies waiters@[i]
                == old(self).waiters@[i] by {}
        }
        *self = WaitQueue { waiters, next_ticket: ticket + 1 };
        Some(ticket)
    }

    /// How many waiters, from the oldest, are woken; see `woken_count`.
    pub fn woken(&self) -> (r: usize)
        ensures
            r == woken_count(self@),
    {
        if self.waiters.len() > 1 && self.waiters[0].is_writer {
            1
        } else {
            self.waiters.len()
        }
    }

    /// The position of the waiter holding `ticket`, if it waits.
    pub fn find(&self, ticket: u64) -> (r: Option<usize>)
        ensures
            r is Some == position_of(self@, ticket) is Some,
            r matches Some(i) ==> position_of(self@, ticket) == Some(i as nat) && i < self@.len() && self@[i as int].ticket == ticket,
    {
        proof {
            use_type_invariant(self);
        }
        let mut i: usize = 0;
        while i < self.waiters.len()
            invariant
                tickets_ordered(self.waiters@, self.next_ticket),
                i <= self.waiters@.len(),
                forall|j: int| 0 <= j < i ==> self.waiters@[j].ticket != ticket,
            decreases self.waiters@.len() - i,
        {
            if self.waiters[i].ticket == ticket {
                proof {
                    lemma_position_unique(self@, ticket, i as int);
                }
                return Some(i);
            }
            i = i + 1;
        }
        None
    }

    /// Whether the waiter holding `ticket` is woken and may try to take the
    /// lock.
    pub fn may_attempt(&self, ticket: u64) -> (r: bool)
        ensures
            r == is_woken(self@, ticket),
    {
        proof {
            use_type_invariant(self);
        }
        match self.find(ticket) {
            Some(i) => {
                let n = self.woken();
                proof {
                    if !(i < n) {
                        assert forall|j: int| 0 <= j < woken_count(self@) implies self@[j].ticket
                            != ticket by {
                            lemma_position_unique(self@, ticket, i as int);
                            if self@[j].ticket == ticket {
                                lemma_position_unique(self@, ticket, j);
                            }
                        }
                    }
                }
                i < n
            },
            None => false,
        }
    }

    /// Takes the waiter holding `ticket` out of the queue; the others keep
    /// their order. Returns whether it was there.
    pub fn remove(&mut self, ticket: u64) -> (r: bool)
        ensures
            tickets_ordered(final(self)@, final(self).next_ticket_spec()),
            final(self).next_ticket_spec() == old(self).next_ticket_spec(),
            r == position_of(old(self)@, ticket) is Some,
            r ==> final(self)@ == old(self)@.remove(position_of(old(self)@, ticket)->0 as int),
            !r ==> final(self)@ == old(self)@,
    {
        proof {
            use_type_invariant(&*self);
        }
        match self.find(ticket) {
            Some(i) => {
                let mut waiters = self.waiters.clone();
                assert(waiters@ =~= self.waiters@);
                waiters.remove(i);
                proof {
                    let q = old(self)@;
                    assert forall|a: int, b: int|
                        0 <= a < b < waiters@.len() implies waiters@[a].ticket
                        < waiters@[b].ticket by {
                        let oa = if a < i { a } else { a + 1 };
                        let ob = if b < i { b } else { b + 1 };
                        assert(waiters@[a] == q[oa]);
                        assert(waiters@[b] == q[ob]);
                    }
                    assert forall|a: int| 0 <= a < waiters@.len() implies waiters@[a].ticket
                        < self.next_ticket by {
                        let oa = if a < i { a } else { a + 1 };
                        assert(waiters@[a] == q[oa]);
                    }
                }
                *self = WaitQueue { waiters, next_ticket: self.next_ticket };
                true
            },
            None => false,
        }
    }
}



/// No lost wakeup: whenever somebody waits, the oldest waiter is among those
/// woken, so a release that wakes the queue always lets somebody try.
pub proof fn lemma_oldest_is_woken(q: Seq<Waiter>)
    requires
        q.len() > 0,
    ensures
        is_woken(q, q[0].ticket),
        woken_count(q) >= 1,
{
    assert(0 < woken_count(q) && q[0].ticket == q[0].ticket);
}

/// A writer that has become the oldest waiter, with others behind it, is
/// the only waiter woken: readers queued behind it cannot take the lock
/// before it.
pub proof fn lemma_oldest_writer_alone(q: Seq<Waiter>, next: u64, ticket: u64)
    requires
        tickets_ordered(q, next),
        q.len() > 1,
        q[0].is_writer,
    ensures
        is_woken(q, ticket) <==> ticket == q[0].ticket,
{
    if ticket == q[0].ticket {
        assert(0 < woken_count(q) && q[0].ticket == ticket);
    }
}

/// Newcomers queue behind: a waiter's position does not change when
/// another waiter, with a fresh ticket, joins the queue.
pub proof fn lemma_arrival_keeps_position(q: Seq<Waiter>, next: u64, ticket: u64, is_writer: bool)
    requires
        tickets_ordered(q, next),
        position_of(q, ticket) is Some,
    ensures
        position_of(q.push(Waiter { ticket: next, is_writer }), ticket) == position_of(q, ticket),
{
    let i = position_of(q, ticket)->0 as int;
    lemma_position_unique(q, ticket, i);
    let q2 = q.push(Waiter { ticket: next, is_writer });
    assert forall|a: int, b: int| 0 <= a < b < q2.len() implies q2[a].ticket < q2[b].ticket by {
        if b == q.len() {
            assert(q2[a] == q[a]);
        } else {
            assert(q2[a] == q[a] && q2[b] == q[b]);
        }
    }
    assert(q2[i] == q[i]);
    assert(q[i].ticket < next);
    lemma_position_unique(q2, ticket, i);
}

proof fn lemma_position_unique(q: Seq<Waiter>, ticket: u64, i: int)
    requires
        forall|a: int, b: int| 0 <= a < b < q.len() ==> q[a].ticket < q[b].ticket,
        0 <= i < q.len(),
        q[i].ticket == ticket,
    ensures
        position_of(q, ticket) == Some(i as nat),
{
    let c = choose|j: int| 0 <= j < q.len() && q[j].ticket == ticket;
    if c < i {
        assert(q[c].ticket < q[i].ticket);
    } else if c > i {
        assert(q[i].ticket < q[c].ticket);
    }
}

/// Every departure brings a waiter closer to the front: when another waiter
/// leaves, a waiter's position never grows, and it shrinks by one when the
/// one that left stood ahead of it. With newcomers queued behind, a writer
/// at position `k` is the oldest after `k` departures.
pub proof fn lemma_departure_moves_forward(q: Seq<Waiter>, next: u64, ticket: u64, gone: u64)
    requires
        tickets_ordered(q, next),
        position_of(q, ticket) is Some,
        position_of(q, gone) is Some,
        ticket != gone,
    ensures
        ({
            let i = position_of(q, ticket)->0;
            let g = position_of(q, gone)->0;
            let q2 = q.remove(g as int);
            position_of(q2, ticket) == Some(if g < i { (i - 1) as nat } else { i })
        }),
{
    let i = position_of(q, ticket)->0 as int;
    let g = position_of(q, gone)->0 as int;
    lemma_position_unique(q, ticket, i);
    lemma_position_unique(q, gone, g);
    let q2 = q.remove(g);
    let j = if g < i { i - 1 } else { i };
    assert(q2[j] == q[i]);
    assert forall|a: int, b: int| 0 <= a < b < q2.len() implies q2[a].ticket < q2[b].ticket by {
        let oa = if a < g { a } else { a + 1 };
        let ob = if b < g { b } else { b + 1 };
        assert(q2[a] == q[oa]);
        assert(q2[b] == q[ob]);
    }
    lemma_position_unique(q2, ticket, j);
}

} // verus!
