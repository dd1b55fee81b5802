//! Fixed-capacity circular buffer used for per-player game-state history.
//!
//! `push` writes at the current write cursor and advances it modulo the
//! capacity; once the buffer has wrapped, the read cursor advances too, so the
//! oldest entry is evicted. A push always succeeds and never reallocates.
//!
//! The buffer carries the whole sequence of pushed items as a ghost history;
//! the invariant ties every storage slot to that history, which makes the
//! overwrite behaviour a provable statement rather than a comment.

use vstd::prelude::*;
use vstd::arithmetic::div_mod::{
    lemma_fundamental_div_mod, lemma_mod_division_less_than_divisor, lemma_mod_equivalence,
    lemma_mod_multiples_vanish, lemma_small_mod,
};

verus! {

/// What slot `i` of a capacity-`s` ring holds after the items of `h` have been
/// pushed in order: the latest item whose 0-based push index is congruent to
/// `i` modulo `s`, or nothing while no item has reached the slot yet.
pub open spec fn slot_content<T>(h: Seq<T>, s: int, i: int) -> Option<T>
    recommends
        0 < s,
        0 <= i < s,
{
    if i < h.len() {
        Some(h[h.len() - 1 - ((h.len() - 1 - i) % s)])
    } else {
        None
    }
}

pub struct RingBuffer<T, const S: usize> {
    /// Storage slots; `None` marks a slot that has never been written.
    pub buffer: Vec<Option<T>>,
    /// Read cursor: index of the oldest retained item.
    pub start: usize,
    /// Write cursor: index the next push will write to.
    pub end: usize,
    /// Whether the write cursor has caught up with the read cursor.
    pub full: bool,
    /// Every item ever pushed, in push order.
    pub history: Ghost<Seq<T>>,
}

impl<T, const S: usize> RingBuffer<T, S> {
    /// The buffer's relation to its push history.
    pub open spec fn inv(self) -> bool {
        let n = self.history@.len() as int;
        &&& self.buffer.len() == S
        &&& S > 0 ==> {
            &&& forall|i: int|
                0 <= i < S ==> #[trigger] self.buffer[i] == slot_content(
                    self.history@,
                    S as int,
                    i,
                )
            &&& self.end == n % (S as int)
            &&& self.full == (n >= S)
            &&& self.start == if n < S {
                0int
            } else {
                n % (S as int)
            }
        }
    }

    pub fn new() -> (r: Self)
        ensures
            r.inv(),
            r.history@ == Seq::<T>::empty(),
    {
        let mut buffer: Vec<Option<T>> = Vec::new();
        let mut i: usize = 0;
        while i < S
            invariant
                i <= S,
                buffer.len() == i,
                forall|j: int| 0 <= j < i ==> #[trigger] buffer[j] is None,
            decreases S - i,
        {
            buffer.push(None);
            i += 1;
        }
        let r = RingBuffer { buffer, start: 0, end: 0, full: false, history: Ghost(Seq::empty()) };
        proof {
            if S > 0 {
                lemma_small_mod(0, S as nat);
            }
            assert(forall|j: int| 0 <= j < S ==> #[trigger] r.buffer[j] is None);
            assert forall|j: int| 0 <= j < S implies #[trigger] r.buffer[j] == slot_content(
                r.history@,
                S as int,
                j,
            ) by {
                assert(r.buffer[j] is None);
            }
        }
        r
    }

    /// Writes `item` at the write cursor, advancing the cursors so that once
    /// the buffer is full each push evicts the oldest retained item.
    pub fn push(&mut self, item: T)
        requires
            old(self).inv(),
            S > 0,
        ensures
            final(self).inv(),
            final(self).history@ == old(self).history@.push(item),
    {
        let ghost old_h = self.history@;
        let ghost n = old_h.len() as int;
        let ghost s = S as int;
        proof {
            lemma_push_keeps_slots(old_h, s, item);
            lemma_mod_division_less_than_divisor(n, s);
        }
        self.history = Ghost(old_h.push(item));

        self.buffer.set(self.end, Some(item));
        self.end = (self.end + 1) % S;

        if self.full {
            self.start = (self.start + 1) % S;
        }

        if self.end == self.start {
            self.full = true;
        }

        proof {
            // (n % s + 1) % s == (n + 1) % s, used for both cursors.
            lemma_fundamental_div_mod(n, s);
            lemma_mod_multiples_vanish(n / s, (n % s) + 1, s);
            assert((n + 1) % s == ((n % s) + 1) % s);
            lemma_mod_multiples_vanish(1, 0, s);
            assert(s % s == 0);
            if n + 1 < s {
                lemma_small_mod((n + 1) as nat, s as nat);
            }
            assert(self.end == (n + 1) % s);
            assert forall|i: int| 0 <= i < S implies #[trigger] self.buffer[i] == slot_content(
                self.history@,
                s,
                i,
            ) by {
                assert(old(self).buffer[i] == slot_content(old_h, s, i));
                assert(self.history@ == old_h.push(item));
                if i == n % s {
                    assert(slot_content(old_h.push(item), s, i) == Some(item));
                } else {
                    assert(slot_content(old_h.push(item), s, i) == slot_content(old_h, s, i));
                }
            }
        }
    }

    pub fn is_full(&self) -> (r: bool)
        ensures
            r == self.full,
            (S > 0 && self.inv()) ==> r == (self.history@.len() >= S),
    {
        self.full
    }

    pub fn get_buffer(&self) -> (r: &Vec<Option<T>>)
        ensures
            r == &self.buffer,
    {
        &self.buffer
    }
}

/// How one push changes the slot contents: the slot at the write cursor takes
/// the new item, every other slot keeps what it held.
proof fn lemma_push_keeps_slots<T>(h: Seq<T>, s: int, item: T)
    requires
        0 < s,
    ensures
        slot_content(h.push(item), s, (h.len() as int) % s) == Some(item),
        forall|i: int|
            0 <= i < s && i != (h.len() as int) % s ==> slot_content(h.push(item), s, i)
                == slot_content(
                h,
                s,
                i,
            ),
{
    let n = h.len() as int;
    let e = n % s;
    let h2 = h.push(item);

    assert(slot_content(h2, s, e) == Some(item)) by {
        lemma_fundamental_div_mod(n, s);
        lemma_mod_multiples_vanish(n / s, 0, s);
        assert((n - e) % s == 0);
        lemma_mod_division_less_than_divisor(n, s);
        if n < s {
            lemma_small_mod(n as nat, s as nat);
        }
    }

    assert forall|i: int| 0 <= i < s && i != e implies slot_content(h2, s, i) == slot_content(
        h,
        s,
        i,
    ) by {
        lemma_small_mod(i as nat, s as nat);
        if i < n + 1 {
            if i == n {
                // Would force i == e, which is excluded.
                lemma_small_mod(n as nat, s as nat);
                assert(false);
            }
            let d = (n - 1 - i) % s;
            // n - i is congruent to d + 1 modulo s.
            lemma_fundamental_div_mod(n - 1 - i, s);
            lemma_mod_multiples_vanish((n - 1 - i) / s, d + 1, s);
            assert((n - i) % s == (d + 1) % s);
            if d + 1 == s {
                // Then n - i is a multiple of s, so i and n agree modulo s,
                // contradicting i != e.
                lemma_mod_multiples_vanish(1, 0, s);
                assert(s % s == 0);
                assert((n - i) % s == 0);
                lemma_mod_equivalence(n, i, s);
                assert(false);
            }
            lemma_small_mod((d + 1) as nat, s as nat);
            assert((n - i) % s == d + 1);
            assert(h2[n - (d + 1)] == h[n - 1 - d]);
        }
    }
}

/// Law: once at least `S` items have been pushed, the buffer retains exactly
/// the `S` most recently pushed items, each in slot `push index % S`; the
/// oldest surplus items have been evicted.
pub proof fn lemma_retains_last_capacity_items<T, const S: usize>(rb: RingBuffer<T, S>, j: int)
    requires
        rb.inv(),
        S > 0,
        rb.history@.len() >= S,
        rb.history@.len() - S <= j < rb.history@.len(),
    ensures
        rb.buffer[j % (S as int)] == Some(rb.history@[j]),
{
    let n = rb.history@.len() as int;
    let s = S as int;
    let i = j % s;
    lemma_fundamental_div_mod(j, s);
    lemma_mod_multiples_vanish(j / s, n - 1 - j, s);
    assert((n - 1 - i) % s == (n - 1 - j) % s);
    lemma_small_mod((n - 1 - j) as nat, s as nat);
    assert(slot_content(rb.history@, s, i) == Some(rb.history@[j]));
}

/// Law: before the buffer has wrapped, the first pushes sit in the slots with
/// their own indices and the remaining slots are still empty.
pub proof fn lemma_prefix_before_wrap<T, const S: usize>(rb: RingBuffer<T, S>, i: int)
    requires
        rb.inv(),
        S > 0,
        rb.history@.len() < S,
        0 <= i < S,
    ensures
        i < rb.history@.len() ==> rb.buffer[i] == Some(rb.history@[i]),
        i >= rb.history@.len() ==> rb.buffer[i] is None,
{
    let n = rb.history@.len() as int;
    let s = S as int;
    if i < n {
        lemma_small_mod((n - 1 - i) as nat, s as nat);
    }
}

} // verus!
