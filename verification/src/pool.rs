//! Fixed-capacity hardware slot tables.
//!
//! The display hardware addresses its objects through four fixed tables
//! (sprite objects, background layers, palette banks, text windows).
//! A `SlotTable` models one such table: each slot is either free or
//! claimed, a claim hands out the lowest free index, and a release hands
//! the slot back. A slot index is claimed by at most one live handle at a
//! time, and the number of live claims can never exceed the table's
//! capacity.

use vstd::prelude::*;

verus! {

/// How many of the slots in `s` are claimed.
pub open spec fn live_claims(s: Seq<bool>) -> nat
    decreases s.len(),
{
    if s.len() == 0 {
        0
    } else {
        live_claims(s.drop_last()) + if s.last() {
            1nat
        } else {
            0nat
        }
    }
}

/// The number of live claims in a table never exceeds its capacity.
pub proof fn lemma_live_claims_bounded(s: Seq<bool>)
    ensures
        live_claims(s) <= s.len(),
    decreases s.len(),
{
    if s.len() > 0 {
        lemma_live_claims_bounded(s.drop_last());
    }
}

proof fn lemma_live_claims_push(s: Seq<bool>, b: bool)
    ensures
        live_claims(s.push(b)) == live_claims(s) + if b {
            1nat
        } else {
            0nat
        },
{
    assert(s.push(b).drop_last() =~= s);
}

proof fn lemma_live_claims_update(s: Seq<bool>, i: int, b: bool)
    requires
        0 <= i < s.len(),
    ensures
        s[i] == b ==> live_claims(s.update(i, b)) == live_claims(s),
        !s[i] && b ==> live_claims(s.update(i, b)) == live_claims(s) + 1,
        s[i] && !b ==> live_claims(s.update(i, b)) == live_claims(s) - 1,
    decreases s.len(),
{
    if s.len() > 0 {
        if i == s.len() - 1 {
            assert(s.update(i, b).drop_last() =~= s.drop_last());
        } else {
            assert(s.update(i, b).drop_last() =~= s.drop_last().update(i, b));
            lemma_live_claims_update(s.drop_last(), i, b);
        }
    }
}

/// The number of live handles on a table never exceeds its capacity.
pub proof fn lemma_table_live_bounded(t: &SlotTable)
    ensures
        t.live() <= t.capacity(),
{
    lemma_live_claims_bounded(t.slots());
}

/// One fixed-capacity hardware table. `slots()[i]` is true while slot `i`
/// is claimed by a live handle.
pub struct SlotTable {
    claimed: Vec<bool>,
}

impl SlotTable {
    /// The claim state of every slot, in slot order.
    pub closed spec fn slots(&self) -> Seq<bool> {
        self.claimed@
    }

    /// The table's fixed capacity.
    pub open spec fn capacity(&self) -> nat {
        self.slots().len()
    }

    /// How many slots are currently claimed.
    pub open spec fn live(&self) -> nat {
        live_claims(self.slots())
    }

    /// A table with `capacity` slots, all free.
    pub fn new(capacity: usize) -> (t: SlotTable)
        ensures
            t.capacity() == capacity,
            t.slots() =~= Seq::new(capacity as nat, |i: int| false),
            t.live() == 0,
    {
        let mut claimed: Vec<bool> = Vec::new();
        let mut n: usize = 0;
        while n < capacity
            invariant
                n <= capacity,
                claimed@ =~= Seq::new(n as nat, |i: int| false),
                live_claims(claimed@) == 0,
            decreases capacity - n,
        {
            proof {
                lemma_live_claims_push(claimed@, false);
            }
            claimed.push(false);
            n = n + 1;
        }
        SlotTable { claimed }
    }

    /// Claim the lowest free slot; `None` when every slot is claimed.
    pub fn claim(&mut self) -> (r: Option<usize>)
        ensures
            match r {
                Some(i) => {
                    &&& i < old(self).capacity()
                    &&& !old(self).slots()[i as int]
                    &&& forall|j: int| 0 <= j < i ==> old(self).slots()[j]
                    &&& final(self).slots() =~= old(self).slots().update(i as int, true)
                    &&& final(self).live() == old(self).live() + 1
                },
                None => {
                    &&& *final(self) == *old(self)
                    &&& forall|j: int| 0 <= j < old(self).capacity() ==> old(self).slots()[j]
                    &&& old(self).live() == old(self).capacity()
                },
            },
    {
        let mut i: usize = 0;
        let cap = self.claimed.len();
        while i < cap
            invariant
                i <= cap,
                cap == self.capacity(),
                *self == *old(self),
                forall|j: int| 0 <= j < i ==> self.slots()[j],
            decreases cap - i,
        {
            if !self.claimed[i] {
                proof {
                    lemma_live_claims_update(self.slots(), i as int, true);
                }
                self.claimed.set(i, true);
                return Some(i);
            }
            i = i + 1;
        }
        proof {
            lemma_all_claimed_full(self.slots());
        }
        None
    }

    /// Claim the given slot; false (and no change) when it is already claimed.
    pub fn claim_at(&mut self, i: usize) -> (r: bool)
        requires
            i < old(self).capacity(),
        ensures
            r == !old(self).slots()[i as int],
            r ==> final(self).slots() =~= old(self).slots().update(i as int, true)
                && final(self).live() == old(self).live() + 1,
            !r ==> *final(self) == *old(self),
    {
        if self.claimed[i] {
            false
        } else {
            proof {
                lemma_live_claims_update(self.slots(), i as int, true);
            }
            self.claimed.set(i, true);
            true
        }
    }

    /// Release a claimed slot back to the table.
    pub fn release(&mut self, i: usize)
        requires
            i < old(self).capacity(),
            old(self).slots()[i as int],
        ensures
            final(self).slots() =~= old(self).slots().update(i as int, false),
            final(self).live() == old(self).live() - 1,
            final(self).capacity() == old(self).capacity(),
    {
        proof {
            lemma_live_claims_update(self.slots(), i as int, false);
        }
        self.claimed.set(i, false);
    }

    /// Whether slot `i` is currently claimed.
    pub fn is_claimed(&self, i: usize) -> (r: bool)
        requires
            i < self.capacity(),
        ensures
            r == self.slots()[i as int],
    {
        self.claimed[i]
    }

    /// The table's capacity, as a machine integer.
    pub fn capacity_usize(&self) -> (r: usize)
        ensures
            r == self.capacity(),
    {
        self.claimed.len()
    }

    /// How many slots are claimed, as a machine integer.
    pub fn live_count(&self) -> (r: usize)
        ensures
            r == self.live(),
    {
        let mut i: usize = 0;
        let mut n: usize = 0;
        let cap = self.claimed.len();
        while i < cap
            invariant
                i <= cap,
                cap == self.capacity(),
                n == live_claims(self.slots().take(i as int)),
                n <= i,
            decreases cap - i,
        {
            proof {
                assert(self.slots().take(i + 1).drop_last() =~= self.slots().take(i as int));
                assert(self.slots().take(i + 1).last() == self.slots()[i as int]);
            }
            if self.claimed[i] {
                n = n + 1;
            }
            i = i + 1;
        }
        proof {
            assert(self.slots().take(cap as int) =~= self.slots());
        }
        n
    }
}

proof fn lemma_all_claimed_full(s: Seq<bool>)
    requires
        forall|j: int| 0 <= j < s.len() ==> s[j],
    ensures
        live_claims(s) == s.len(),
    decreases s.len(),
{
    if s.len() > 0 {
        lemma_all_claimed_full(s.drop_last());
    }
}

} // verus!
