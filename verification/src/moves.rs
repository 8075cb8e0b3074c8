//! Moves and their effective power against a defender.
//!
//! Effective power is the move's base power times the combined type
//! multiplier, times 3/2 when the move's type matches one of the user's own
//! types (the same-type attack bonus). The result is an exact fraction;
//! converting it to a numeric damage amount is the caller's concern.

use vstd::prelude::*;

verus! {

use vstd::arithmetic::mul::lemma_mul_upper_bound;
use vstd::arithmetic::power2::{pow2, lemma_pow2_strictly_increases, lemma2_to64_rest};
use crate::creature_type::{
    CreatureType,
    Multiplier,
    combined_num_spec,
    combined_den_spec,
    lemma_combined_multiplier_bounds,
};

/// Identifier of a move in the external move catalog.
#[derive(Debug, Clone, Copy, PartialEq, Eq, Hash, Structural)]
pub struct MoveId(pub u32);

impl MoveId {
    pub fn new(value: u32) -> (r: Self)
        ensures
            r.0 == value,
    {
        MoveId(value)
    }
}

/// A damaging move: display name, elemental type, and base power.
#[derive(Debug)]
pub struct Move {
    pub name: String,
    pub move_type: CreatureType,
    pub power: u8,
}

/// Numerator of a move's effective power: base power times the combined
/// multiplier's numerator, times 3 when the same-type attack bonus applies.
pub open spec fn effective_power_num_spec(
    power: int,
    move_type: CreatureType,
    user_types: Seq<CreatureType>,
    defender_types: Seq<CreatureType>,
) -> int {
    let base = power * combined_num_spec(move_type, defender_types);
    if user_types.contains(move_type) {
        base * 3
    } else {
        base
    }
}

/// Denominator of a move's effective power: the combined multiplier's
/// denominator, doubled when the same-type attack bonus applies.
pub open spec fn effective_power_den_spec(
    move_type: CreatureType,
    user_types: Seq<CreatureType>,
    defender_types: Seq<CreatureType>,
) -> int {
    let base = combined_den_spec(move_type, defender_types);
    if user_types.contains(move_type) {
        base * 2
    } else {
        base
    }
}

/// Whether `types` contains `t`.
fn types_contain(types: &[CreatureType], t: CreatureType) -> (r: bool)
    ensures
        r <==> types@.contains(t),
{
    let n = types.len();
    for i in 0..n
        invariant
            n == types@.len(),
            forall|j: int| 0 <= j < i ==> types@[j] != t,
    {
        if types[i] == t {
            return true;
        }
    }
    false
}

impl Move {
    /// The combined type multiplier of this move against the defender types.
    pub fn effectiveness_multiplier(&self, defender_types: &[CreatureType]) -> (r: Multiplier)
        requires
            defender_types@.len() <= 63,
        ensures
            r.num == combined_num_spec(self.move_type, defender_types@),
            r.den == combined_den_spec(self.move_type, defender_types@),
    {
        CreatureType::combined_multiplier(self.move_type, defender_types)
    }

    /// The move's effective power against `defender_types` when used by a
    /// creature of `user_types`, as an exact fraction. The length bound
    /// keeps the products of base power, bonus and matchup factors within
    /// 64 bits.
    pub fn effective_power(
        &self,
        user_types: &[CreatureType],
        defender_types: &[CreatureType],
    ) -> (r: Multiplier)
        requires
            defender_types@.len() <= 54,
        ensures
            r.num == effective_power_num_spec(
                self.power as int,
                self.move_type,
                user_types@,
                defender_types@,
            ),
            r.den == effective_power_den_spec(self.move_type, user_types@, defender_types@),
    {
        let m = self.effectiveness_multiplier(defender_types);
        proof {
            lemma_combined_multiplier_bounds(self.move_type, defender_types@);
            assert(pow2(defender_types@.len()) <= pow2(54)) by {
                if defender_types@.len() < 54 {
                    lemma_pow2_strictly_increases(defender_types@.len(), 54);
                }
            }
            assert(pow2(54) == 0x40000000000000) by {
                lemma2_to64_rest();
            }
            lemma_mul_upper_bound(self.power as int, 255, m.num as int, 0x40000000000000);
            lemma_mul_upper_bound(
                (self.power as int) * (m.num as int),
                255int * 0x40000000000000,
                3,
                3,
            );
            lemma_mul_upper_bound(m.den as int, 0x40000000000000, 2, 2);
        }
        let num: u64 = self.power as u64 * m.num;
        let den: u64 = m.den;
        if types_contain(user_types, self.move_type) {
            Multiplier { num: num * 3, den: den * 2 }
        } else {
            Multiplier { num, den }
        }
    }
}

} // verus!
