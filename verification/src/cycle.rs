use vstd::prelude::*;

verus! {

/// Abstract state of a [`CycleCursor`]: the number of items it walks over and
/// the index it hands out next.
pub struct CycleState {
    pub len: nat,
    pub next: nat,
}

impl CycleState {
    /// The cursor points inside the collection, or the collection is empty and
    /// the cursor rests at zero.
    pub open spec fn wf(self) -> bool {
        self.next < self.len || (self.len == 0 && self.next == 0)
    }
}

/// The state after one [`CycleCursor::advance`]: moved on by one, wrapping
/// round; an empty cursor stays put.
pub open spec fn spec_step(s: CycleState) -> CycleState {
    if s.len == 0 {
        s
    } else {
        CycleState { len: s.len, next: (s.next + 1) % s.len }
    }
}

/// The state after `k` calls of [`CycleCursor::advance`].
pub open spec fn spec_steps(s: CycleState, k: nat) -> CycleState
    decreases k,
{
    if k == 0 {
        s
    } else {
        spec_step(spec_steps(s, (k - 1) as nat))
    }
}

/// Walks the indices `0..len` round and round, as `iter().cycle()` walks a
/// collection; over an empty collection it yields nothing at all.
pub struct CycleCursor {
    len: usize,
    next: usize,
}

impl View for CycleCursor {
    type V = CycleState;

    closed spec fn view(&self) -> CycleState {
        CycleState { len: self.len as nat, next: self.next as nat }
    }
}

impl CycleCursor {
    /// A cursor at the start of a collection of `len` items.
    pub fn new(len: usize) -> (c: Self)
        ensures
            c@ == (CycleState { len: len as nat, next: 0 }),
            c@.wf(),
    {
        CycleCursor { len, next: 0 }
    }

    /// The number of items walked over.
    pub fn len(&self) -> (n: usize)
        ensures
            n == self@.len,
    {
        self.len
    }

    /// The index handed out by the next call of [`CycleCursor::advance`].
    pub fn peek(&self) -> (i: usize)
        ensures
            i == self@.next,
    {
        self.next
    }

    /// Hands out the current index and moves on to the following one, wrapping
    /// round at the end; an empty cursor hands out nothing and stays put.
    pub fn advance(&mut self) -> (r: Option<usize>)
        requires
            old(self)@.wf(),
        ensures
            final(self)@.wf(),
            final(self)@ == spec_step(old(self)@),
            old(self)@.len == 0 ==> r is None,
            old(self)@.len > 0 ==> (r matches Some(i) && i == old(self)@.next),
    {
        if self.len == 0 {
            None
        } else {
            let current = self.next;
            if current + 1 == self.len {
                self.next = 0;
                proof {
                    vstd::arithmetic::div_mod::lemma_mod_self_0(self.len as int);
                }
            } else {
                self.next = current + 1;
                proof {
                    vstd::arithmetic::div_mod::lemma_small_mod((current + 1) as nat, self.len as nat);
                }
            }
            Some(current)
        }
    }
}

/// Law: a cursor standing at `k % len` moves to `(k + 1) % len`.
pub proof fn lemma_cycle_round_robin(len: nat, k: nat)
    requires
        len > 0,
    ensures
        ((k % len) + 1) % len == (k + 1) % len,
{
    vstd::arithmetic::div_mod::lemma_add_mod_noop(k as int, 1, len as int);
    if len == 1 {
        vstd::arithmetic::div_mod::lemma_mod_self_0(1);
    } else {
        vstd::arithmetic::div_mod::lemma_small_mod(1, len);
    }
}

/// Law: a fresh cursor over `len > 0` items hands out the indices round robin:
/// after `k` advances it stands at `k % len`, so the `k`-th index handed out
/// (counting from zero) is `k % len`.
pub proof fn lemma_fresh_cursor_round_robin(len: nat, k: nat)
    requires
        len > 0,
    ensures
        spec_steps(CycleState { len, next: 0 }, k) == (CycleState { len, next: k % len }),
    decreases k,
{
    if k == 0 {
        vstd::arithmetic::div_mod::lemma_small_mod(0, len);
    } else {
        lemma_fresh_cursor_round_robin(len, (k - 1) as nat);
        lemma_cycle_round_robin(len, (k - 1) as nat);
    }
}

} // verus!
