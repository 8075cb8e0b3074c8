//! A party: an ordered, fixed-capacity roster of six creatures.
//!
//! The "active" creature is the first non-fainted one in order; fainted
//! creatures keep their slots but are skipped.

use vstd::prelude::*;

verus! {

use crate::creature::Creature;

/// An ordered roster of exactly six creatures.
pub struct Party {
    pub creatures: Vec<Creature>,
}

impl Party {
    /// Well-formedness: exactly six slots.
    pub open spec fn wf(self) -> bool {
        self.creatures@.len() == 6
    }

    /// Index of the first non-fainted creature, or the roster length when
    /// every creature is fainted.
    pub open spec fn first_active_index(s: Seq<Creature>) -> int
        decreases s.len(),
    {
        if s.len() == 0 {
            0
        } else if s[0].current_hp != 0 {
            0
        } else {
            1 + Self::first_active_index(s.drop_first())
        }
    }

    /// Builds a party from exactly six creatures, in order.
    pub fn new(creatures: Vec<Creature>) -> (r: Self)
        requires
            creatures@.len() == 6,
        ensures
            r.wf(),
            r.creatures@ == creatures@,
    {
        Self { creatures }
    }

    /// The first available (non-fainted) creature, if any.
    pub fn active(&self) -> (r: Option<&Creature>)
        ensures
            match r {
                Some(c) => {
                    &&& Self::first_active_index(self.creatures@) < self.creatures@.len()
                    &&& *c == self.creatures@[Self::first_active_index(self.creatures@)]
                    &&& c.current_hp != 0
                },
                None => Self::first_active_index(self.creatures@) == self.creatures@.len(),
            },
    {
        let n = self.creatures.len();
        for i in 0..n
            invariant
                n == self.creatures@.len(),
                forall|j: int| 0 <= j < i ==> self.creatures@[j].current_hp == 0,
        {
            if self.creatures[i].current_hp != 0 {
                proof {
                    lemma_first_active_index_at(self.creatures@, i as int);
                }
                return Some(&self.creatures[i]);
            }
        }
        proof {
            lemma_first_active_index_all_fainted(self.creatures@);
        }
        None
    }

    /// Whether every creature in the party is fainted.
    pub fn all_fainted(&self) -> (r: bool)
        ensures
            r <==> forall|i: int|
                0 <= i < self.creatures@.len() ==> self.creatures@[i].current_hp == 0,
    {
        let n = self.creatures.len();
        for i in 0..n
            invariant
                n == self.creatures@.len(),
                forall|j: int| 0 <= j < i ==> self.creatures@[j].current_hp == 0,
        {
            if self.creatures[i].current_hp != 0 {
                return false;
            }
        }
        true
    }

    /// Every creature in the party, in roster order.
    pub fn all(&self) -> (r: &Vec<Creature>)
        ensures
            r@ == self.creatures@,
    {
        &self.creatures
    }

    /// Swaps the creatures at two indices; reports `false` and leaves the
    /// party unchanged when either index is out of bounds.
    pub fn swap(&mut self, idx_a: usize, idx_b: usize) -> (r: bool)
        requires
            old(self).wf(),
        ensures
            final(self).wf(),
            r <==> (idx_a < 6 && idx_b < 6),
            r ==> final(self).creatures@ == old(self).creatures@.update(
                idx_a as int,
                old(self).creatures@[idx_b as int],
            ).update(idx_b as int, old(self).creatures@[idx_a as int]),
            !r ==> final(self).creatures@ == old(self).creatures@,
    {
        let n = self.creatures.len();
        if idx_a >= n || idx_b >= n {
            return false;
        }
        let ghost prior = self.creatures@;
        if idx_a == idx_b {
            proof {
                assert(prior.update(idx_a as int, prior[idx_b as int]).update(
                    idx_b as int,
                    prior[idx_a as int],
                ) =~= prior);
            }
            return true;
        }
        let (lo, hi) = if idx_a < idx_b {
            (idx_a, idx_b)
        } else {
            (idx_b, idx_a)
        };
        let chi = self.creatures.remove(hi);
        let clo = self.creatures.remove(lo);
        self.creatures.insert(lo, chi);
        self.creatures.insert(hi, clo);
        proof {
            assert(self.creatures@ =~= prior.update(idx_a as int, prior[idx_b as int]).update(
                idx_b as int,
                prior[idx_a as int],
            ));
        }
        true
    }
}

/// The creature found by the scan is the first active one.
proof fn lemma_first_active_index_at(s: Seq<Creature>, i: int)
    requires
        0 <= i < s.len(),
        forall|j: int| 0 <= j < i ==> s[j].current_hp == 0,
        s[i].current_hp != 0,
    ensures
        Party::first_active_index(s) == i,
    decreases i,
{
    if i > 0 {
        assert forall|j: int| 0 <= j < i - 1 implies s.drop_first()[j].current_hp == 0 by {
            assert(s[j + 1].current_hp == 0);
        }
        lemma_first_active_index_at(s.drop_first(), i - 1);
    }
}

/// With every creature fainted there is no active index.
proof fn lemma_first_active_index_all_fainted(s: Seq<Creature>)
    requires
        forall|j: int| 0 <= j < s.len() ==> s[j].current_hp == 0,
    ensures
        Party::first_active_index(s) == s.len(),
    decreases s.len(),
{
    if s.len() > 0 {
        assert forall|j: int| 0 <= j < s.drop_first().len() implies s.drop_first()[j].current_hp
            == 0 by {
            assert(s[j + 1].current_hp == 0);
        }
        lemma_first_active_index_all_fainted(s.drop_first());
    }
}

} // verus!
