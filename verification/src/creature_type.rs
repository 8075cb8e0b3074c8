//! Elemental types and the fixed effectiveness matchup table.
//!
//! Every matchup multiplier is 0, ½, 1 or 2, so a product of matchups is an
//! exact dyadic fraction. [`Multiplier`] carries such a product as an integer
//! numerator and denominator; turning it into a float, if a caller wants one,
//! is exact division of two powers of two.

use vstd::prelude::*;

verus! {

use vstd::arithmetic::mul::{lemma_mul_is_associative, lemma_mul_upper_bound, lemma_mul_inequality};
use vstd::arithmetic::power2::{pow2, lemma_pow2_unfold, lemma_pow2_strictly_increases, lemma2_to64, lemma2_to64_rest};

/// An elemental creature type.
#[derive(Debug, Copy, Clone, PartialEq, Eq, Structural)]
pub enum CreatureType {
    Normal,
    Fire,
    Water,
    Grass,
    Electric,
}

/// The categorical outcome of one attacker-type vs defender-type matchup.
#[derive(Debug, Copy, Clone, PartialEq, Eq, Structural)]
pub enum Effectiveness {
    Immune,
    Resistant,
    Normal,
    Super,
}

/// An exact damage multiplier, held as the fraction `num / den`.
#[derive(Debug, Copy, Clone, PartialEq, Eq, Structural)]
pub struct Multiplier {
    pub num: u64,
    pub den: u64,
}

/// The fixed matchup table.
pub open spec fn effectiveness_spec(attacker: CreatureType, defender: CreatureType) -> Effectiveness {
    match (attacker, defender) {
        (CreatureType::Fire, CreatureType::Water) => Effectiveness::Resistant,
        (CreatureType::Fire, CreatureType::Grass) => Effectiveness::Super,
        (CreatureType::Water, CreatureType::Fire) => Effectiveness::Super,
        (CreatureType::Water, CreatureType::Grass) => Effectiveness::Resistant,
        (CreatureType::Grass, CreatureType::Fire) => Effectiveness::Resistant,
        (CreatureType::Grass, CreatureType::Water) => Effectiveness::Super,
        _ => Effectiveness::Normal,
    }
}

/// Numerator of the multiplier an effectiveness category stands for.
pub open spec fn multiplier_num_spec(e: Effectiveness) -> int {
    match e {
        Effectiveness::Immune => 0,
        Effectiveness::Resistant => 1,
        Effectiveness::Normal => 1,
        Effectiveness::Super => 2,
    }
}

/// Denominator of the multiplier an effectiveness category stands for.
pub open spec fn multiplier_den_spec(e: Effectiveness) -> int {
    match e {
        Effectiveness::Immune => 1,
        Effectiveness::Resistant => 2,
        Effectiveness::Normal => 1,
        Effectiveness::Super => 1,
    }
}

/// Numerator of the product of the matchup multipliers against every
/// defender type, in list order.
pub open spec fn combined_num_spec(attacker: CreatureType, defenders: Seq<CreatureType>) -> int
    decreases defenders.len(),
{
    if defenders.len() == 0 {
        1
    } else {
        multiplier_num_spec(effectiveness_spec(attacker, defenders[0])) * combined_num_spec(
            attacker,
            defenders.drop_first(),
        )
    }
}

/// Denominator of the product of the matchup multipliers against every
/// defender type, in list order.
pub open spec fn combined_den_spec(attacker: CreatureType, defenders: Seq<CreatureType>) -> int
    decreases defenders.len(),
{
    if defenders.len() == 0 {
        1
    } else {
        multiplier_den_spec(effectiveness_spec(attacker, defenders[0])) * combined_den_spec(
            attacker,
            defenders.drop_first(),
        )
    }
}

/// The combined multiplier over a concatenation of defender lists is the
/// product of the combined multipliers of the parts: combining defender
/// types is associative, and grouping does not matter.
pub proof fn lemma_combined_multiplier_concat(
    attacker: CreatureType,
    xs: Seq<CreatureType>,
    ys: Seq<CreatureType>,
)
    ensures
        combined_num_spec(attacker, xs + ys) == combined_num_spec(attacker, xs)
            * combined_num_spec(attacker, ys),
        combined_den_spec(attacker, xs + ys) == combined_den_spec(attacker, xs)
            * combined_den_spec(attacker, ys),
    decreases xs.len(),
{
    if xs.len() == 0 {
        assert(xs + ys =~= ys);
    } else {
        assert((xs + ys).drop_first() =~= xs.drop_first() + ys);
        lemma_combined_multiplier_concat(attacker, xs.drop_first(), ys);
        let hn = multiplier_num_spec(effectiveness_spec(attacker, xs[0]));
        let hd = multiplier_den_spec(effectiveness_spec(attacker, xs[0]));
        lemma_mul_is_associative(hn, combined_num_spec(attacker, xs.drop_first()),
            combined_num_spec(attacker, ys));
        lemma_mul_is_associative(hd, combined_den_spec(attacker, xs.drop_first()),
            combined_den_spec(attacker, ys));
    }
}

/// Both parts of a combined multiplier lie between 0 and `2 ^ len`;
/// the denominator is moreover at least 1.
pub proof fn lemma_combined_multiplier_bounds(attacker: CreatureType, defenders: Seq<CreatureType>)
    ensures
        0 <= combined_num_spec(attacker, defenders) <= pow2(defenders.len()),
        1 <= combined_den_spec(attacker, defenders) <= pow2(defenders.len()),
    decreases defenders.len(),
{
    if defenders.len() == 0 {
        assert(pow2(0) == 1) by {
            lemma2_to64();
        }
    } else {
        lemma_combined_multiplier_bounds(attacker, defenders.drop_first());
        lemma_pow2_unfold(defenders.len());
        let hn = multiplier_num_spec(effectiveness_spec(attacker, defenders[0]));
        let hd = multiplier_den_spec(effectiveness_spec(attacker, defenders[0]));
        lemma_mul_upper_bound(hn, 2, combined_num_spec(attacker, defenders.drop_first()),
            pow2((defenders.len() - 1) as nat) as int);
        lemma_mul_upper_bound(hd, 2, combined_den_spec(attacker, defenders.drop_first()),
            pow2((defenders.len() - 1) as nat) as int);
        lemma_mul_inequality(1, hd, combined_den_spec(attacker, defenders.drop_first()));
    }
}

/// The combined multiplier against a single defender type is just that
/// matchup's multiplier.
pub proof fn lemma_combined_multiplier_singleton(attacker: CreatureType, t: CreatureType)
    ensures
        combined_num_spec(attacker, seq![t]) == multiplier_num_spec(
            effectiveness_spec(attacker, t),
        ),
        combined_den_spec(attacker, seq![t]) == multiplier_den_spec(
            effectiveness_spec(attacker, t),
        ),
{
    assert(seq![t].drop_first() =~= Seq::<CreatureType>::empty());
    assert(combined_num_spec(attacker, seq![t].drop_first()) == 1);
    assert(combined_den_spec(attacker, seq![t].drop_first()) == 1);
}

impl Effectiveness {
    /// The damage multiplier this category stands for, as an exact fraction:
    /// ×0, ×½, ×1 or ×2.
    pub fn multiplier(self) -> (r: Multiplier)
        ensures
            r.num == multiplier_num_spec(self),
            r.den == multiplier_den_spec(self),
    {
        match self {
            Effectiveness::Immune => Multiplier { num: 0, den: 1 },
            Effectiveness::Resistant => Multiplier { num: 1, den: 2 },
            Effectiveness::Normal => Multiplier { num: 1, den: 1 },
            Effectiveness::Super => Multiplier { num: 2, den: 1 },
        }
    }
}

impl CreatureType {
    /// Pure lookup in the fixed matchup table.
    pub fn effectiveness(attacker: CreatureType, defender: CreatureType) -> (r: Effectiveness)
        ensures
            r == effectiveness_spec(attacker, defender),
    {
        match (attacker, defender) {
            (CreatureType::Fire, CreatureType::Water) => Effectiveness::Resistant,
            (CreatureType::Fire, CreatureType::Grass) => Effectiveness::Super,
            (CreatureType::Water, CreatureType::Fire) => Effectiveness::Super,
            (CreatureType::Water, CreatureType::Grass) => Effectiveness::Resistant,
            (CreatureType::Grass, CreatureType::Fire) => Effectiveness::Resistant,
            (CreatureType::Grass, CreatureType::Water) => Effectiveness::Super,
            _ => Effectiveness::Normal,
        }
    }

    /// The product of the per-type multipliers over every defender type,
    /// as an exact fraction. A creature with two types multiplies both
    /// matchups, so opposite matchups cancel to exactly 1. Each factor is
    /// at most 2, so with at most 63 defender types both parts fit in 64
    /// bits.
    pub fn combined_multiplier(attacker: CreatureType, defenders: &[CreatureType]) -> (r:
        Multiplier)
        requires
            defenders@.len() <= 63,
        ensures
            r.num == combined_num_spec(attacker, defenders@),
            r.den == combined_den_spec(attacker, defenders@),
    {
        let ghost all = defenders@;
        let mut num: u64 = 1;
        let mut den: u64 = 1;
        let n = defenders.len();
        for i in 0..n
            invariant
                n == all.len() <= 63,
                all == defenders@,
                num == combined_num_spec(attacker, all.subrange(0, i as int)),
                den == combined_den_spec(attacker, all.subrange(0, i as int)),
        {
            let e = Self::effectiveness(attacker, defenders[i]);
            let m = e.multiplier();
            proof {
                let prefix = all.subrange(0, i as int);
                let single = seq![all[i as int]];
                let next = all.subrange(0, i + 1);
                assert(next =~= prefix + single);
                lemma_combined_multiplier_singleton(attacker, all[i as int]);
                lemma_combined_multiplier_concat(attacker, prefix, single);
                lemma_combined_multiplier_bounds(attacker, prefix);
                lemma_mul_upper_bound(num as int, pow2(i as nat) as int, m.num as int, 2);
                lemma_mul_upper_bound(den as int, pow2(i as nat) as int, m.den as int, 2);
                lemma_pow2_unfold((i + 1) as nat);
                assert(pow2((i + 1) as nat) <= pow2(63)) by {
                    if i + 1 < 63 {
                        lemma_pow2_strictly_increases((i + 1) as nat, 63);
                    }
                }
                assert(pow2(63) == 0x8000000000000000) by {
                    lemma2_to64_rest();
                }
            }
            num = num * m.num;
            den = den * m.den;
        }
        proof {
            assert(all.subrange(0, all.len() as int) =~= all);
        }
        Multiplier { num, den }
    }
}

} // verus!
