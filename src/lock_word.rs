//! The lock word: one machine word that says who holds a reader-writer lock.
//!
//! Bit layout, lowest bit first:
//! - `LOCKED`: some party holds the lock, for reading or for writing;
//! - `READING`: when `LOCKED` is set, the holders are readers, else a writer;
//! - `QUEUED`: some thread waits for the lock in the waiting queue;
//! - bit 3 stays clear;
//! - bits `READER_SHIFT..`: the number of readers that hold the lock.
//!
//! Every function here is a pure transition of the word; the lock itself
//! applies them to an atomic integer.
use vstd::prelude::*;

verus! {

/// Nobody holds the lock and nobody waits for it.
pub const UNLOCKED: usize = 0;

/// Some party holds the lock.
pub const LOCKED: usize = 1;

/// The holders of the lock are readers.
pub const READING: usize = 2;

/// The waiting queue is not empty.
pub const QUEUED: usize = 4;

/// Position of the reader count in the word.
pub const READER_SHIFT: usize = 4;

/// One reader, in the reader count's position.
pub const ONE_READER: usize = 16;

/// The word of a lock held by exactly one reader, with nobody waiting.
pub const SINGLE_READER: usize = LOCKED | READING | ONE_READER;

/// The largest reader count that the word can hold.
pub const MAX_READERS: usize = usize::MAX >> READER_SHIFT;

/// Who holds the lock, and whether anybody waits for it.
pub struct LockView {
    pub writer: bool,
    pub readers: nat,
    pub queued: bool,
}

/// The lock bit is set.
pub open spec fn is_locked_spec(s: usize) -> bool {
    s & LOCKED != 0
}

/// The lock is held by one writer.
pub open spec fn held_by_writer(s: usize) -> bool {
    s & 3 == LOCKED
}

/// The lock is held by readers.
pub open spec fn held_by_readers(s: usize) -> bool {
    s & 3 == 3
}

/// The waiting-queue bit is set.
pub open spec fn is_queued_spec(s: usize) -> bool {
    s & QUEUED != 0
}

/// The number held in the reader count's bits.
pub open spec fn reader_bits(s: usize) -> nat {
    (s >> 4usize) as nat
}

/// A word that the lock can be in: reading implies locked, bit 3 is clear,
/// and the reader count is positive exactly when readers hold the lock.
pub open spec fn word_wf(s: usize) -> bool {
    &&& s & 8 == 0
    &&& (s & READING != 0 ==> s & LOCKED != 0)
    &&& (held_by_readers(s) <==> reader_bits(s) > 0)
}

/// What a well-formed word says.
pub open spec fn view_of(s: usize) -> LockView {
    LockView {
        writer: held_by_writer(s),
        readers: if held_by_readers(s) { reader_bits(s) } else { 0 },
        queued: is_queued_spec(s),
    }
}

/// The lock bit, read from a word.
pub fn is_locked_word(state: usize) -> (r: bool)
    ensures
        r == is_locked_spec(state),
{
    state & LOCKED != 0
}

/// A writer holds the lock, read from a word.
pub fn is_locked_exclusive_word(state: usize) -> (r: bool)
    ensures
        r == held_by_writer(state),
{
    state & 3 == LOCKED
}

/// The waiting-queue bit, read from a word.
pub fn is_queued_word(state: usize) -> (r: bool)
    ensures
        r == is_queued_spec(state),
{
    state & QUEUED != 0
}

/// The word after a writer takes the lock, or `None` when the lock is held.
pub fn exclusive_acquire(state: usize) -> (r: Option<usize>)
    ensures
        r == (if state & LOCKED == 0 { Some(state | LOCKED) } else { None::<usize> }),
        word_wf(state) && r is Some ==> word_wf(r->0) && view_of(r->0) == (LockView {
            writer: true,
            readers: 0,
            queued: view_of(state).queued,
        }),
{
    if state & LOCKED == 0 {
        proof {
            lemma_exclusive_acquire(state);
        }
        Some(state | LOCKED)
    } else {
        None
    }
}

proof fn lemma_exclusive_acquire(s: usize)
    requires
        s & LOCKED == 0,
    ensures
        word_wf(s) ==> word_wf(s | LOCKED) && view_of(s | LOCKED) == (LockView {
            writer: true,
            readers: 0,
            queued: view_of(s).queued,
        }),
{
    if word_wf(s) {
        assert(s & 3 != 3) by (bit_vector)
            requires
                s & 1 == 0,
        ;
        assert({
            &&& (s | 1) & 8 == 0
            &&& (s | 1) & 3 == 1
            &&& (s | 1) & 2 == 0
            &&& (s | 1) & 1 == 1
            &&& (s | 1) >> 4usize == 0
            &&& ((s | 1) & 4 != 0) == (s & 4 != 0)
        }) by (bit_vector)
            requires
                s & 1 == 0,
                s & 8 == 0,
                s & 2 == 0,
                s >> 4usize == 0,
        ;
    }
}


/// The word after one more reader takes the lock, or `None` when it cannot.
///
/// A free lock (nothing set but, perhaps, `QUEUED`) goes to one reader. A
/// lock held by readers takes one more,
/// unless the count is at its largest. A thread that is not in the waiting
/// queue (`waiting` false) gives way to the queue: it takes nothing while
/// the `QUEUED` bit is set.
pub open spec fn shared_acquire_spec(s: usize, waiting: bool) -> Option<usize> {
    if !waiting && s & QUEUED != 0 {
        None
    } else if s & !QUEUED == 0 {
        Some(s | SINGLE_READER)
    } else if held_by_readers(s) && s <= usize::MAX - ONE_READER {
        Some((s + ONE_READER) as usize)
    } else {
        None
    }
}

/// The word after one reader lets go of the lock: the last reader leaves it
/// free (keeping the `QUEUED` bit), any other lowers the count by one.
/// `None` when no reader holds the lock.
pub open spec fn shared_release_spec(s: usize) -> Option<usize> {
    if !held_by_readers(s) || s >> 4usize == 0 {
        None
    } else if s >> 4usize == 1 {
        Some(s & QUEUED)
    } else {
        Some((s - ONE_READER) as usize)
    }
}

/// The word after one more reader takes the lock; see `shared_acquire_spec`.
pub fn shared_acquire(state: usize, waiting: bool) -> (r: Option<usize>)
    ensures
        r == shared_acquire_spec(state, waiting),
        word_wf(state) && r is Some ==> word_wf(r->0) && view_of(r->0) == (LockView {
            writer: false,
            readers: view_of(state).readers + 1,
            queued: view_of(state).queued,
        }),
{
    if !waiting && state & QUEUED != 0 {
        None
    } else if state & !QUEUED == 0 {
        proof {
            assert(state & !4usize == 0 ==> state & 1 == 0) by (bit_vector);
            lemma_first_reader(state);
        }
        Some(state | SINGLE_READER)
    } else if state & 3 == 3 && state <= usize::MAX - ONE_READER {
        proof {
            lemma_next_reader(state);
        }
        Some(state + ONE_READER)
    } else {
        None
    }
}

/// The word after one reader lets go of the lock; see `shared_release_spec`.
pub fn shared_release(state: usize) -> (r: Option<usize>)
    ensures
        r == shared_release_spec(state),
        word_wf(state) && held_by_readers(state) ==> r is Some && word_wf(r->0) && view_of(r->0)
            == (LockView {
            writer: false,
            readers: (view_of(state).readers - 1) as nat,
            queued: view_of(state).queued,
        }),
{
    if state & 3 != 3 || state >> 4 == 0 {
        None
    } else if state >> 4 == 1 {
        proof {
            lemma_last_reader_leaves(state);
        }
        Some(state & QUEUED)
    } else {
        proof {
            lemma_reader_leaves(state);
        }
        Some(state - ONE_READER)
    }
}

/// The word after the writer lets go of the lock: only the lock bit
/// changes. `None` when no writer holds the lock.
pub open spec fn exclusive_release_spec(s: usize) -> Option<usize> {
    if held_by_writer(s) {
        Some(s & !LOCKED)
    } else {
        None
    }
}

/// The word after the writer lets go of the lock; see
/// `exclusive_release_spec`.
pub fn exclusive_release(state: usize) -> (r: Option<usize>)
    ensures
        r == exclusive_release_spec(state),
        word_wf(state) && held_by_writer(state) ==> word_wf(r->0) && view_of(r->0) == (LockView {
            writer: false,
            readers: 0,
            queued: view_of(state).queued,
        }) && !is_locked_spec(r->0),
{
    if state & 3 == LOCKED {
        proof {
            lemma_writer_leaves(state);
        }
        Some(state & !LOCKED)
    } else {
        None
    }
}

/// Whether a release that turned `before` into `after` must wake the
/// waiting queue: the lock came free while somebody waits.
pub fn release_wakes(before: usize, after: usize) -> (r: bool)
    ensures
        r == (is_queued_spec(before) && !is_locked_spec(after)),
{
    before & QUEUED != 0 && after & LOCKED == 0
}

proof fn lemma_free_bits(s: usize)
    ensures
        s & 1 != 0 ==> s & !4usize != 0,
        s & 8 == 0 && s & 2 == 0 && s & 1 == 0 && s >> 4usize == 0 ==> s & !4usize == 0,
        s & 3 == 3 ==> s & 1 != 0,
{
    assert(s & 1 != 0 ==> s & !4usize != 0) by (bit_vector);
    assert(s & 8 == 0 && s & 2 == 0 && s & 1 == 0 && s >> 4usize == 0 ==> s & !4usize == 0)
        by (bit_vector);
    assert(s & 3 == 3 ==> s & 1 != 0) by (bit_vector);
}

proof fn lemma_first_reader(s: usize)
    requires
        s & LOCKED == 0,
    ensures
        word_wf(s) ==> word_wf(s | SINGLE_READER) && view_of(s | SINGLE_READER) == (LockView {
            writer: false,
            readers: view_of(s).readers + 1,
            queued: view_of(s).queued,
        }),
{
    if word_wf(s) {
        assert(s & 3 != 3) by (bit_vector)
            requires
                s & 1 == 0,
        ;
        assert(SINGLE_READER == 19usize) by (bit_vector);
        let t = s | 19;
        assert({
            &&& t & 8 == 0
            &&& t & 3 == 3
            &&& t & 2 == 2
            &&& t & 1 == 1
            &&& t >> 4usize == 1
            &&& (t & 4 != 0) == (s & 4 != 0)
        }) by (bit_vector)
            requires
                t == s | 19,
                s & 1 == 0,
                s & 8 == 0,
                s & 2 == 0,
                s >> 4usize == 0,
        ;
    }
}

proof fn lemma_next_reader(s: usize)
    requires
        s & 3 == 3,
        s <= usize::MAX - ONE_READER,
    ensures
        word_wf(s) ==> word_wf((s + ONE_READER) as usize) && view_of((s + ONE_READER) as usize)
            == (LockView {
            writer: false,
            readers: view_of(s).readers + 1,
            queued: view_of(s).queued,
        }),
{
    let t = (s + 16) as usize;
    assert({
        &&& t & 8 == s & 8
        &&& t & 3 == 3
        &&& t & 2 == 2
        &&& t & 1 == 1
        &&& t >> 4usize == (s >> 4usize) + 1
        &&& t & 4 == s & 4
    }) by (bit_vector)
        requires
            t == (s + 16) as usize,
            t >= 16,
            s & 3 == 3,
    ;
}

proof fn lemma_last_reader_leaves(s: usize)
    requires
        s & 3 == 3,
        s >> 4usize == 1,
    ensures
        word_wf(s) ==> word_wf(s & QUEUED) && view_of(s & QUEUED) == (LockView {
            writer: false,
            readers: 0,
            queued: view_of(s).queued,
        }),
{
    let t = s & 4;
    assert({
        &&& t & 8 == 0
        &&& t & 3 == 0
        &&& t & 2 == 0
        &&& t & 1 == 0
        &&& t >> 4usize == 0
        &&& (t & 4 != 0) == (s & 4 != 0)
    }) by (bit_vector)
        requires
            t == s & 4,
    ;
}

proof fn lemma_reader_leaves(s: usize)
    requires
        s & 3 == 3,
        s >> 4usize > 1,
    ensures
        s >= ONE_READER,
        word_wf(s) ==> word_wf((s - ONE_READER) as usize) && view_of((s - ONE_READER) as usize)
            == (LockView {
            writer: false,
            readers: (view_of(s).readers - 1) as nat,
            queued: view_of(s).queued,
        }),
{
    assert(s >= 16) by (bit_vector)
        requires
            s >> 4usize > 1,
    ;
    let t = (s - 16) as usize;
    assert({
        &&& t & 8 == s & 8
        &&& t & 3 == 3
        &&& t & 2 == 2
        &&& t & 1 == 1
        &&& t >> 4usize == (s >> 4usize) - 1
        &&& t & 4 == s & 4
    }) by (bit_vector)
        requires
            t == s - 16,
            s & 3 == 3,
            s >> 4usize > 1,
    ;
}

proof fn lemma_writer_leaves(s: usize)
    ensures
        word_wf(s) && held_by_writer(s) ==> word_wf(s & !LOCKED) && view_of(s & !LOCKED) == (
        LockView { writer: false, readers: 0, queued: view_of(s).queued }) && !is_locked_spec(
            s & !LOCKED,
        ),
{
    if word_wf(s) && held_by_writer(s) {
        let t = s & !1usize;
        assert({
            &&& t & 8 == 0
            &&& t & 3 == 0
            &&& t & 2 == 0
            &&& t & 1 == 0
            &&& t >> 4usize == 0
            &&& t & 4 == s & 4
        }) by (bit_vector)
            requires
                t == s & !1usize,
                s & 3 == 1,
                s & 8 == 0,
                s >> 4usize == 0,
        ;
    }
}


/// The word after `n` readers take the lock one after another, outside the
/// waiting queue; `None` when one of them cannot.
pub open spec fn shared_acquire_times(s: usize, n: nat) -> Option<usize>
    decreases n,
{
    if n == 0 {
        Some(s)
    } else {
        match shared_acquire_spec(s, false) {
            Some(t) => shared_acquire_times(t, (n - 1) as nat),
            None => None,
        }
    }
}

/// The word after `n` readers let go of the lock one after another; `None`
/// when one of them cannot.
pub open spec fn shared_release_times(s: usize, n: nat) -> Option<usize>
    decreases n,
{
    if n == 0 {
        Some(s)
    } else {
        match shared_release_spec(s) {
            Some(t) => shared_release_times(t, (n - 1) as nat),
            None => None,
        }
    }
}

/// The word of a lock held by `k` readers with nobody waiting.
pub open spec fn readers_word(k: nat) -> int {
    16 * k as int + 3
}

proof fn lemma_readers_word_bits(k: nat)
    requires
        1 <= k <= MAX_READERS,
    ensures
        readers_word(k) <= usize::MAX,
        ({
            let w = readers_word(k) as usize;
            &&& w & 3 == 3
            &&& w & LOCKED != 0
            &&& w & QUEUED == 0
            &&& w & 8 == 0
            &&& w >> 4usize == k
            &&& (k < MAX_READERS ==> w <= usize::MAX - ONE_READER)
        }),
{
    vstd::bits::lemma_usize_shr_is_div(usize::MAX, 4);
    vstd::arithmetic::power2::lemma2_to64();
    let w = readers_word(k) as usize;
    vstd::bits::lemma_usize_shr_is_div(w, 4);
    assert(w % 16 == 3 ==> (w & 3 == 3 && w & 1 != 0 && w & 4 == 0 && w & 8 == 0)) by (bit_vector);
}

/// Mutual exclusion: a well-formed word never has a writer beside readers,
/// and while anybody holds the lock no writer can take it; while a writer
/// holds it no reader can join.
pub proof fn lemma_mutual_exclusion(s: usize, waiting: bool)
    requires
        word_wf(s),
    ensures
        !(view_of(s).writer && view_of(s).readers > 0),
        view_of(s).writer || view_of(s).readers > 0 ==> is_locked_spec(s),
        is_locked_spec(s) ==> view_of(s).writer || view_of(s).readers > 0,
        view_of(s).writer ==> shared_acquire_spec(s, waiting) is None,
{
    lemma_free_bits(s);
    assert(s & 3 == 1 ==> s & 1 != 0) by (bit_vector);
    assert(s & 3 == 3 ==> s & 1 != 0) by (bit_vector);
    assert(s & 1 != 0 && s & 3 != 1 ==> s & 2 != 0) by (bit_vector);
    assert(s & 1 != 0 && s & 2 != 0 ==> s & 3 == 3) by (bit_vector);
}

/// Reader concurrency: readers hold the lock side by side; one more reader
/// joins a free lock or a lock held by readers with nobody waiting, and the
/// count in the word then counts it.
pub proof fn lemma_reader_concurrency(s: usize)
    requires
        word_wf(s),
        !view_of(s).writer,
        !view_of(s).queued,
        view_of(s).readers < MAX_READERS,
    ensures
        shared_acquire_spec(s, false) is Some,
        word_wf(shared_acquire_spec(s, false)->0),
        view_of(shared_acquire_spec(s, false)->0).readers == view_of(s).readers + 1,
        !view_of(shared_acquire_spec(s, false)->0).writer,
{
    lemma_free_bits(s);
    lemma_mutual_exclusion(s, false);
    if s & LOCKED == 0 {
        lemma_first_reader(s);
    } else {
        vstd::bits::lemma_usize_shr_is_div(usize::MAX, 4);
        vstd::bits::lemma_usize_shr_is_div(s, 4);
        vstd::arithmetic::power2::lemma2_to64();
        assert(s & 1 != 0 && s & 3 != 1 && (s & 2 != 0 ==> s & 1 != 0) ==> s & 3 == 3)
            by (bit_vector);
        lemma_next_reader(s);
    }
}

/// The reader count never wraps: at its largest, one more shared acquire
/// fails and leaves the word as it was.
pub proof fn lemma_reader_count_saturates(s: usize, waiting: bool)
    requires
        held_by_readers(s),
        reader_bits(s) == MAX_READERS,
    ensures
        shared_acquire_spec(s, waiting) is None,
{
    lemma_free_bits(s);
    vstd::bits::lemma_usize_shr_is_div(usize::MAX, 4);
    vstd::bits::lemma_usize_shr_is_div(s, 4);
    vstd::arithmetic::power2::lemma2_to64();
    assert(s & 3 == 3 ==> s & 1 != 0) by (bit_vector);
}

proof fn lemma_acquire_from_readers(k: nat, j: nat)
    requires
        1 <= k,
        k + j <= MAX_READERS,
    ensures
        shared_acquire_times(readers_word(k) as usize, j) == Some(readers_word(k + j) as usize),
    decreases j,
{
    lemma_free_bits(readers_word(k) as usize);
    lemma_readers_word_bits(k);
    if j > 0 {
        lemma_readers_word_bits(k + 1);
        lemma_acquire_from_readers(k + 1, (j - 1) as nat);
    }
}

proof fn lemma_release_to_free(k: nat)
    requires
        1 <= k <= MAX_READERS,
    ensures
        shared_release_times(readers_word(k) as usize, k) == Some(UNLOCKED),
    decreases k,
{
    lemma_readers_word_bits(k);
    if k == 1 {
        assert(19usize & 4 == 0) by (bit_vector);
        assert(shared_release_spec(readers_word(k) as usize) == Some(UNLOCKED));
        assert(shared_release_times(UNLOCKED, 0) == Some(UNLOCKED));
    } else {
        lemma_readers_word_bits((k - 1) as nat);
        lemma_release_to_free((k - 1) as nat);
    }
}

/// Balanced pairing: `n` shared acquires on a free lock, followed by `n`
/// shared releases, leave the lock free again.
pub proof fn lemma_shared_pairing_balanced(n: nat)
    requires
        n <= MAX_READERS,
    ensures
        shared_acquire_times(UNLOCKED, n) is Some,
        shared_release_times(shared_acquire_times(UNLOCKED, n)->0, n) == Some(UNLOCKED),
{
    if n > 0 {
        assert(0usize | 19 == 19) by (bit_vector);
        assert(SINGLE_READER == 19usize) by (bit_vector);
        assert(0usize & 4 == 0) by (bit_vector);
        assert(0usize & 1 == 0) by (bit_vector);
        assert(0usize & !4usize == 0) by (bit_vector);
        assert(shared_acquire_spec(UNLOCKED, false) == Some(readers_word(1) as usize));
        lemma_acquire_from_readers(1, (n - 1) as nat);
        lemma_release_to_free(n);
    }
}

/// No lost wakeup at release: when a thread waits, the writer's release and
/// the last reader's release both leave the lock free with `QUEUED` still
/// set, which is exactly when `release_wakes` wakes the queue; a release by
/// a reader that is not the last leaves the lock held, and wakes nobody.
pub proof fn lemma_release_wakes_queue(s: usize)
    requires
        word_wf(s),
        is_queued_spec(s),
    ensures
        held_by_writer(s) ==> exclusive_release_spec(s) == Some(s & !LOCKED) && is_queued_spec(
            s & !LOCKED,
        ) && !is_locked_spec(s & !LOCKED),
        held_by_readers(s) && reader_bits(s) == 1 ==> shared_release_spec(s) == Some(s & QUEUED)
            && is_queued_spec(s & QUEUED) && !is_locked_spec(s & QUEUED),
        held_by_readers(s) && reader_bits(s) > 1 ==> shared_release_spec(s) is Some
            && is_locked_spec(shared_release_spec(s)->0),
{
    lemma_writer_leaves(s);
    if held_by_readers(s) && reader_bits(s) == 1 {
        lemma_last_reader_leaves(s);
        assert((s & 4) & 4 == s & 4 && (s & 4) & 1 == 0) by (bit_vector);
    }
    if held_by_readers(s) && reader_bits(s) > 1 {
        lemma_reader_leaves(s);
        let t = (s - 16) as usize;
        assert(t & 1 == 1) by (bit_vector)
            requires
                t == s - 16,
                s & 3 == 3,
                s >> 4usize > 1,
        ;
    }
    assert(s & 3 == 3 ==> s & 1 != 0) by (bit_vector);
    assert(s & 1 != 0 ==> s & 3 == 1 || s & 3 == 3) by (bit_vector);
}

/// Newcomers give way to the waiting queue: while `QUEUED` is set, a reader
/// from outside the queue takes nothing, and the blocking writer's single
/// attempt, which starts only from a free word with nobody waiting, fails.
pub proof fn lemma_newcomers_give_way(s: usize)
    requires
        is_queued_spec(s),
    ensures
        shared_acquire_spec(s, false) is None,
        s != UNLOCKED,
{
    assert(s & 4 != 0 ==> s != 0) by (bit_vector);
}

} // verus!
