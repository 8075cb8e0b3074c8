//! Levels, growth curves, and the level ↔ experience correspondence.
//!
//! A [`Level`] is an integer in `[1, 100]`. Each [`GrowthRate`] names one of
//! six cumulative experience curves; [`GrowthRate::exp_for_level`] evaluates
//! the curve, and [`GrowthRate::level_from_exp`] inverts it by binary search.
//! The inversion is justified by [`lemma_exp_for_level_strictly_increasing`]:
//! every curve is strictly increasing in the level.

use vstd::prelude::*;

verus! {

use vstd::arithmetic::div_mod::{
    lemma_fundamental_div_mod,
    lemma_div_is_ordered,
    lemma_div_multiples_vanish_fancy,
    lemma_div_pos_is_pos,
    lemma_hoist_over_denominator,
    lemma_mod_division_less_than_divisor,
};
use vstd::arithmetic::mul::{lemma_mul_is_distributive_add, lemma_mul_upper_bound};

/// A creature level: an integer in `[1, 100]`.
#[derive(Debug, Clone, Copy, PartialEq, Eq, PartialOrd, Structural)]
pub struct Level {
    value: u8,
}

impl Level {
    pub const MIN: u8 = 1;
    pub const MAX: u8 = 100;

    /// The numeric level value.
    pub closed spec fn spec_get(self) -> u8 {
        self.value
    }

    #[verifier::type_invariant]
    spec fn range_inv(self) -> bool {
        1 <= self.value <= 100
    }

    pub fn new(value: u8) -> (r: Option<Self>)
        ensures
            1 <= value <= 100 <==> r is Some,
            r matches Some(l) ==> l.spec_get() == value,
    {
        if Self::MIN <= value && value <= Self::MAX {
            Some(Level { value })
        } else {
            None
        }
    }

    pub fn get(self) -> (r: u8)
        ensures
            r == self.spec_get(),
            1 <= r <= 100,
    {
        proof {
            use_type_invariant(self);
        }
        self.value
    }

    pub fn is_max(self) -> (r: bool)
        ensures
            r <==> self.spec_get() == 100,
    {
        self.get() == Self::MAX
    }

    /// The successor level, or `None` at the ceiling of 100.
    pub fn next(self) -> (r: Option<Self>)
        ensures
            self.spec_get() == 100 <==> r is None,
            r matches Some(l) ==> l.spec_get() == self.spec_get() + 1,
    {
        proof {
            use_type_invariant(self);
        }
        if self.value == Self::MAX {
            None
        } else {
            Some(Level { value: self.value + 1 })
        }
    }
}

/// Tag selecting which experience-curve formula applies to a species.
#[derive(Debug, Clone, Copy, PartialEq, Eq, Structural)]
pub enum GrowthRate {
    Erratic,
    Fast,
    MediumFast,
    MediumSlow,
    Slow,
    Fluctuating,
}

/// The medium-slow polynomial before clamping; negative only at level 1.
pub open spec fn medium_slow_raw(l: int) -> int {
    let c = l * l * l;
    6 * c / 5 - 15 * l * l + 100 * l - 140
}

/// Cumulative experience required for level `l` under rate `rate`.
///
/// Integer arithmetic with truncating division throughout; the medium-slow
/// curve is clamped at zero so that every curve starts non-negative and is
/// strictly increasing over `[1, 100]`.
pub open spec fn exp_for_level_spec(rate: GrowthRate, l: int) -> int
    recommends
        1 <= l <= 100,
{
    let c = l * l * l;
    match rate {
        GrowthRate::Fast => 4 * c / 5,
        GrowthRate::MediumFast => c,
        GrowthRate::MediumSlow => {
            let v = medium_slow_raw(l);
            if v < 0 {
                0
            } else {
                v
            }
        },
        GrowthRate::Slow => 5 * c / 4,
        GrowthRate::Erratic => {
            if l <= 50 {
                c * (100 - l) / 50
            } else if l <= 68 {
                c * (150 - l) / 100
            } else if l <= 98 {
                c * ((1911 - 10 * l) / 3) / 500
            } else {
                c * (160 - l) / 100
            }
        },
        GrowthRate::Fluctuating => {
            if l <= 15 {
                c * ((l + 1) / 3 + 24) / 50
            } else if l <= 36 {
                c * (l + 14) / 50
            } else {
                c * (l / 2 + 32) / 50
            }
        },
    }
}

impl GrowthRate {
    /// Evaluates this rate's cumulative experience curve at `level`.
    pub fn exp_for_level(self, level: Level) -> (r: u32)
        ensures
            r == exp_for_level_spec(self, level.spec_get() as int),
    {
        let l: u32 = level.get() as u32;
        proof {
            assert(l * l <= 10000 && l * l * l <= 1000000) by (nonlinear_arith)
                requires
                    1 <= l <= 100,
            ;
        }
        let c: u32 = l * l * l;
        match self {
            GrowthRate::Fast => 4 * c / 5,
            GrowthRate::MediumFast => c,
            GrowthRate::MediumSlow => exp_medium_slow(l, c),
            GrowthRate::Slow => 5 * c / 4,
            GrowthRate::Erratic => exp_erratic(l, c),
            GrowthRate::Fluctuating => exp_fluctuating(l, c),
        }
    }

    /// Experience still needed to reach the next level, or `None` at level 100.
    pub fn exp_to_next_level(self, level: Level) -> (r: Option<u32>)
        ensures
            level.spec_get() == 100 <==> r is None,
            r matches Some(d) ==> d == exp_for_level_spec(self, level.spec_get() + 1)
                - exp_for_level_spec(self, level.spec_get() as int),
    {
        match level.next() {
            None => None,
            Some(next) => {
                let hi = self.exp_for_level(next);
                let lo = self.exp_for_level(level);
                proof {
                    use_type_invariant(level);
                    lemma_exp_for_level_increasing(
                        self,
                        level.spec_get() as int,
                        level.spec_get() + 1,
                    );
                }
                Some(hi - lo)
            },
        }
    }

    /// The highest level whose experience requirement is at most `exp`;
    /// level 1 for any experience below the level-2 threshold.
    pub fn level_from_exp(self, exp: u32) -> (r: Level)
        ensures
            r.spec_get() == level_for_exp_spec(self, exp as int),
    {
        let mut low: u8 = 1;
        let mut high: u8 = 100;
        while low < high
            invariant
                1 <= low <= high <= 100,
                low == 1 || exp_for_level_spec(self, low as int) <= exp,
                forall|j: int| high < j <= 100 ==> exp_for_level_spec(self, j) > exp,
            decreases high - low,
        {
            let mid: u8 = (low + high + 1) / 2;
            let mid_exp = self.exp_for_level(Level { value: mid });
            if exp >= mid_exp {
                low = mid;
            } else {
                let ghost prev_high = high;
                high = mid - 1;
                proof {
                    assert forall|j: int| high < j <= 100 implies exp_for_level_spec(self, j)
                        > exp by {
                        if j <= prev_high {
                            lemma_exp_for_level_increasing(self, mid as int, j);
                        }
                    }
                }
            }
        }
        proof {
            lemma_level_for_exp_unique(self, exp as int, low as int);
        }
        Level { value: low }
    }
}


/// The medium-slow curve, with the level-1 value clamped to zero.
fn exp_medium_slow(l: u32, c: u32) -> (r: u32)
    requires
        1 <= l <= 100,
        c == l * l * l,
        c <= 1000000,
    ensures
        r == exp_for_level_spec(GrowthRate::MediumSlow, l as int),
{
    if l == 1 {
        proof {
            lemma_medium_slow_raw_values();
        }
        0
    } else {
        proof {
            lemma_medium_slow_raw_ge(l as int);
            assert(15 * l * l <= 150000) by (nonlinear_arith)
                requires
                    l <= 100,
            ;
        }
        6 * c / 5 + 100 * l - 15 * l * l - 140
    }
}

/// The erratic curve's four level bands.
fn exp_erratic(l: u32, c: u32) -> (r: u32)
    requires
        1 <= l <= 100,
        c == l * l * l,
        c <= 1000000,
    ensures
        r == exp_for_level_spec(GrowthRate::Erratic, l as int),
{
    if l <= 50 {
        proof {
            lemma_mul_upper_bound(c as int, 1000000, (100 - l) as int, 100);
        }
        c * (100 - l) / 50
    } else if l <= 68 {
        proof {
            lemma_mul_upper_bound(c as int, 1000000, (150 - l) as int, 100);
        }
        c * (150 - l) / 100
    } else if l <= 98 {
        let q: u32 = (1911 - 10 * l) / 3;
        proof {
            lemma_div_pos_is_pos(1911 - 10 * l, 3);
            lemma_div_is_ordered(1911 - 10 * l, 1911, 3);
            assert(1911int / 3 == 637);
            lemma_mul_upper_bound(c as int, 1000000, q as int, 637);
        }
        c * q / 500
    } else {
        proof {
            lemma_mul_upper_bound(c as int, 1000000, (160 - l) as int, 100);
        }
        c * (160 - l) / 100
    }
}

/// The fluctuating curve's three level bands.
fn exp_fluctuating(l: u32, c: u32) -> (r: u32)
    requires
        1 <= l <= 100,
        c == l * l * l,
        c <= 1000000,
    ensures
        r == exp_for_level_spec(GrowthRate::Fluctuating, l as int),
{
    if l <= 15 {
        let q: u32 = (l + 1) / 3 + 24;
        proof {
            lemma_div_pos_is_pos(l + 1 as int, 3);
            lemma_div_is_ordered(l + 1 as int, 16, 3);
            assert(16int / 3 == 5);
            lemma_mul_upper_bound(c as int, 1000000, q as int, 29);
        }
        c * q / 50
    } else if l <= 36 {
        proof {
            lemma_mul_upper_bound(c as int, 1000000, (l + 14) as int, 50);
        }
        c * (l + 14) / 50
    } else {
        let q: u32 = l / 2 + 32;
        proof {
            lemma_div_pos_is_pos(l as int, 2);
            lemma_div_is_ordered(l as int, 100, 2);
            lemma_mul_upper_bound(c as int, 1000000, q as int, 82);
        }
        c * q / 50
    }
}

/// The largest level in `[1, l]` whose requirement is at most `exp`,
/// or 1 when no such level exists.
pub open spec fn level_for_exp_below(rate: GrowthRate, exp: int, l: int) -> int
    decreases l,
{
    if l <= 1 {
        1
    } else if exp_for_level_spec(rate, l) <= exp {
        l
    } else {
        level_for_exp_below(rate, exp, l - 1)
    }
}

/// The level that experience `exp` corresponds to under `rate`.
pub open spec fn level_for_exp_spec(rate: GrowthRate, exp: int) -> int {
    level_for_exp_below(rate, exp, 100)
}

/// A level satisfying the two-sided threshold conditions is the level that
/// `level_for_exp_spec` yields.
pub proof fn lemma_level_for_exp_unique(rate: GrowthRate, exp: int, m: int)
    requires
        1 <= m <= 100,
        m == 1 || exp_for_level_spec(rate, m) <= exp,
        forall|j: int| m < j <= 100 ==> exp_for_level_spec(rate, j) > exp,
    ensures
        level_for_exp_spec(rate, exp) == m,
{
    lemma_level_for_exp_below_unique(rate, exp, m, 100);
}

proof fn lemma_level_for_exp_below_unique(rate: GrowthRate, exp: int, m: int, l: int)
    requires
        1 <= m <= l,
        m == 1 || exp_for_level_spec(rate, m) <= exp,
        forall|j: int| m < j <= l ==> exp_for_level_spec(rate, j) > exp,
    ensures
        level_for_exp_below(rate, exp, l) == m,
    decreases l - m,
{
    if l == m {
        if m == 1 {
        } else {
            assert(exp_for_level_spec(rate, l) <= exp);
        }
    } else {
        assert(exp_for_level_spec(rate, l) > exp);
        lemma_level_for_exp_below_unique(rate, exp, m, l - 1);
    }
}

/// If the numerator grows by at least `d * k`, the quotient grows by at
/// least `k`.
proof fn lemma_div_bound_below(a: int, b: int, d: int, k: int)
    requires
        0 < d,
        0 <= k,
        a + d * k <= b,
    ensures
        a / d + k <= b / d,
{
    lemma_fundamental_div_mod(a, d);
    lemma_mod_division_less_than_divisor(a, d);
    lemma_mul_is_distributive_add(d, a / d, k);
    lemma_div_multiples_vanish_fancy(a / d + k, a % d, d);
    assert((a + d * k) / d == a / d + k);
    lemma_div_is_ordered(a + d * k, b, d);
}

/// Numerator gap for the fast curve.
proof fn lemma_fast_gap(l: int)
    by (nonlinear_arith)
    requires
        2 <= l <= 100,
    ensures
        0 <= 4 * ((l - 1) * (l - 1) * (l - 1)),
        4 * ((l - 1) * (l - 1) * (l - 1)) + 5 <= 4 * (l * l * l),
{
}

/// Numerator gap for the slow curve.
proof fn lemma_slow_gap(l: int)
    by (nonlinear_arith)
    requires
        2 <= l <= 100,
    ensures
        0 <= 5 * ((l - 1) * (l - 1) * (l - 1)),
        5 * ((l - 1) * (l - 1) * (l - 1)) + 4 <= 5 * (l * l * l),
{
}

/// Numerator gap for the medium-slow curve at levels 4 and up.
proof fn lemma_medium_slow_gap(l: int)
    by (nonlinear_arith)
    requires
        4 <= l <= 100,
    ensures
        0 <= 6 * ((l - 1) * (l - 1) * (l - 1)),
        0 <= 30 * l - 114,
        6 * ((l - 1) * (l - 1) * (l - 1)) + 5 * (30 * l - 114) <= 6 * (l * l * l),
{
}

/// Combining the quotient step with the quadratic part of the medium-slow
/// polynomial.
proof fn lemma_medium_slow_combine(l: int, qa: int, qb: int)
    by (nonlinear_arith)
    requires
        qa + (30 * l - 114) <= qb,
    ensures
        qa - 15 * (l - 1) * (l - 1) + 100 * (l - 1) - 140 < qb - 15 * l * l + 100 * l - 140,
{
}

/// Numerator gap for the first erratic band.
proof fn lemma_erratic_band1_gap(l: int)
    by (nonlinear_arith)
    requires
        3 <= l <= 50,
    ensures
        0 <= (l - 1) * (l - 1) * (l - 1) * (101 - l),
        (l - 1) * (l - 1) * (l - 1) * (101 - l) + 50 <= l * l * l * (100 - l),
{
}

/// Numerator gap for the second erratic band.
proof fn lemma_erratic_band2_gap(l: int)
    by (nonlinear_arith)
    requires
        52 <= l <= 68,
    ensures
        0 <= (l - 1) * (l - 1) * (l - 1) * (151 - l),
        (l - 1) * (l - 1) * (l - 1) * (151 - l) + 100 <= l * l * l * (150 - l),
{
}

/// Numerator gap for the third erratic band, with the inner quotients given
/// as bounded parameters.
proof fn lemma_erratic_band3_gap(l: int, q: int, qp: int)
    by (nonlinear_arith)
    requires
        70 <= l <= 98,
        310 <= q <= 637,
        0 <= qp,
        qp <= q + 4,
    ensures
        0 <= (l - 1) * (l - 1) * (l - 1) * qp,
        (l - 1) * (l - 1) * (l - 1) * qp + 500 <= l * l * l * q,
{
}

/// Numerator gap for a cubic band whose coefficient is non-decreasing in the
/// level.
proof fn lemma_cube_coeff_gap(l: int, cm: int, cc: int, gap: int)
    by (nonlinear_arith)
    requires
        2 <= l <= 100,
        0 <= cm <= cc,
        0 <= gap,
        gap <= 7 * cm,
    ensures
        0 <= (l - 1) * (l - 1) * (l - 1) * cm,
        (l - 1) * (l - 1) * (l - 1) * cm + gap <= l * l * l * cc,
{
}

/// Strict growth of every curve: each level past the first costs strictly
/// more cumulative experience than its predecessor.
pub proof fn lemma_exp_for_level_strictly_increasing(rate: GrowthRate, l: int)
    requires
        2 <= l <= 100,
    ensures
        exp_for_level_spec(rate, l - 1) < exp_for_level_spec(rate, l),
{
    match rate {
        GrowthRate::Fast => {
            lemma_fast_gap(l);
            lemma_div_bound_below(4 * ((l - 1) * (l - 1) * (l - 1)), 4 * (l * l * l), 5, 1);
        },
        GrowthRate::MediumFast => {
            assert((l - 1) * (l - 1) * (l - 1) < l * l * l) by (nonlinear_arith)
                requires
                    2 <= l <= 100,
            ;
        },
        GrowthRate::MediumSlow => {
            lemma_medium_slow_step(l);
        },
        GrowthRate::Slow => {
            lemma_slow_gap(l);
            lemma_div_bound_below(5 * ((l - 1) * (l - 1) * (l - 1)), 5 * (l * l * l), 4, 1);
        },
        GrowthRate::Erratic => {
            lemma_erratic_step(l);
        },
        GrowthRate::Fluctuating => {
            lemma_fluctuating_step(l);
        },
    }
}

/// Concrete low-level values of the medium-slow polynomial.
proof fn lemma_medium_slow_raw_values()
    ensures
        medium_slow_raw(1) == -54,
        medium_slow_raw(2) == 9,
        medium_slow_raw(3) == 57,
{
    assert(medium_slow_raw(1) == -54) by {
        assert(1int * 1 * 1 == 1);
        assert(6int * 1 == 6);
        assert(6int / 5 == 1);
    }
    assert(medium_slow_raw(2) == 9) by {
        assert(2int * 2 * 2 == 8);
        assert(6int * 8 == 48);
        assert(48int / 5 == 9);
    }
    assert(medium_slow_raw(3) == 57) by {
        assert(3int * 3 * 3 == 27);
        assert(6int * 27 == 162);
        assert(162int / 5 == 32);
    }
}

/// The medium-slow polynomial is at least 9 from level 2 on.
proof fn lemma_medium_slow_raw_ge(l: int)
    requires
        2 <= l <= 100,
    ensures
        medium_slow_raw(l) >= 9,
    decreases l,
{
    if l == 2 || l == 3 {
        lemma_medium_slow_raw_values();
    } else {
        lemma_medium_slow_raw_ge(l - 1);
        lemma_medium_slow_raw_step(l);
    }
}

/// For levels 4 and up the medium-slow polynomial strictly increases.
proof fn lemma_medium_slow_raw_step(l: int)
    requires
        4 <= l <= 100,
    ensures
        medium_slow_raw(l - 1) < medium_slow_raw(l),
{
    lemma_medium_slow_gap(l);
    lemma_div_bound_below(
        6 * ((l - 1) * (l - 1) * (l - 1)),
        6 * (l * l * l),
        5,
        30 * l - 114,
    );
    lemma_medium_slow_combine(
        l,
        6 * ((l - 1) * (l - 1) * (l - 1)) / 5,
        6 * (l * l * l) / 5,
    );
}

#[verifier::rlimit(100)]
#[verifier::spinoff_prover]
proof fn lemma_medium_slow_step(l: int)
    requires
        2 <= l <= 100,
    ensures
        exp_for_level_spec(GrowthRate::MediumSlow, l - 1) < exp_for_level_spec(
            GrowthRate::MediumSlow,
            l,
        ),
{
    lemma_medium_slow_raw_ge(l);
    if l == 2 || l == 3 {
        lemma_medium_slow_raw_values();
    } else {
        lemma_medium_slow_raw_ge(l - 1);
        lemma_medium_slow_raw_step(l);
    }
}

#[verifier::rlimit(100)]
#[verifier::spinoff_prover]
proof fn lemma_erratic_step(l: int)
    requires
        2 <= l <= 100,
    ensures
        exp_for_level_spec(GrowthRate::Erratic, l - 1) < exp_for_level_spec(GrowthRate::Erratic, l),
{
    let rate = GrowthRate::Erratic;
    if l <= 50 {
        if l == 2 {
            assert(exp_for_level_spec(rate, 1) == 1) by {
                assert(1int * 1 * 1 == 1);
                assert(99int / 50 == 1);
            }
            assert(exp_for_level_spec(rate, 2) == 15) by {
                assert(2int * 2 * 2 == 8);
                assert(8int * 98 == 784);
                assert(784int / 50 == 15);
            }
        } else {
            lemma_erratic_band1_gap(l);
            lemma_div_bound_below(
                (l - 1) * (l - 1) * (l - 1) * (101 - l),
                l * l * l * (100 - l),
                50,
                1,
            );
        }
    } else if l == 51 {
        assert(exp_for_level_spec(rate, 50) == 125000) by {
            assert(50int * 50 * 50 == 125000);
            assert(125000int * 50 == 6250000);
            assert(6250000int / 50 == 125000);
        }
        assert(exp_for_level_spec(rate, 51) == 131324) by {
            assert(51int * 51 * 51 == 132651);
            assert(132651int * 99 == 13132449);
            assert(13132449int / 100 == 131324);
        }
    } else if l <= 68 {
        lemma_erratic_band2_gap(l);
        lemma_div_bound_below(
            (l - 1) * (l - 1) * (l - 1) * (151 - l),
            l * l * l * (150 - l),
            100,
            1,
        );
    } else if l == 69 {
        assert(exp_for_level_spec(rate, 68) == 257834) by {
            assert(68int * 68 * 68 == 314432);
            assert(314432int * 82 == 25783424);
            assert(25783424int / 100 == 257834);
        }
        assert(exp_for_level_spec(rate, 69) == 267406) by {
            assert((1911int - 10 * 69) / 3 == 407);
            assert(69int * 69 * 69 == 328509);
            assert(328509int * 407 == 133703163);
            assert(133703163int / 500 == 267406);
        }
    } else if l <= 98 {
        let q = (1911 - 10 * l) / 3;
        let qp = (1911 - 10 * (l - 1)) / 3;
        assert(310 <= q <= 637) by {
            lemma_div_is_ordered(931, 1911 - 10 * l, 3);
            lemma_div_is_ordered(1911 - 10 * l, 1911, 3);
            assert(931int / 3 == 310);
            assert(1911int / 3 == 637);
        }
        assert(0 <= qp) by {
            lemma_div_pos_is_pos(1911 - 10 * (l - 1), 3);
        }
        assert(qp <= q + 4) by {
            lemma_hoist_over_denominator(1911 - 10 * l, 4, 3);
            lemma_div_is_ordered(1911 - 10 * (l - 1), 1911 - 10 * l + 4 * 3, 3);
        }
        lemma_erratic_band3_gap(l, q, qp);
        lemma_div_bound_below((l - 1) * (l - 1) * (l - 1) * qp, l * l * l * q, 500, 1);
    } else if l == 99 {
        assert(exp_for_level_spec(rate, 98) == 583539) by {
            assert((1911int - 10 * 98) / 3 == 310);
            assert(98int * 98 * 98 == 941192);
            assert(941192int * 310 == 291769520);
            assert(291769520int / 500 == 583539);
        }
        assert(exp_for_level_spec(rate, 99) == 591882) by {
            assert(99int * 99 * 99 == 970299);
            assert(970299int * 61 == 59188239);
            assert(59188239int / 100 == 591882);
        }
    } else {
        assert(exp_for_level_spec(rate, 99) == 591882) by {
            assert(99int * 99 * 99 == 970299);
            assert(970299int * 61 == 59188239);
            assert(59188239int / 100 == 591882);
        }
        assert(exp_for_level_spec(rate, 100) == 600000) by {
            assert(100int * 100 * 100 == 1000000);
            assert(1000000int * 60 == 60000000);
            assert(60000000int / 100 == 600000);
        }
    }
}

#[verifier::rlimit(100)]
#[verifier::spinoff_prover]
proof fn lemma_fluctuating_step(l: int)
    requires
        2 <= l <= 100,
    ensures
        exp_for_level_spec(GrowthRate::Fluctuating, l - 1) < exp_for_level_spec(
            GrowthRate::Fluctuating,
            l,
        ),
{
    let rate = GrowthRate::Fluctuating;
    if l <= 15 {
        let cm = ((l - 1) + 1) / 3 + 24;
        let cc = (l + 1) / 3 + 24;
        assert(24 <= cm && cm <= 29) by {
            lemma_div_pos_is_pos(l, 3);
            lemma_div_is_ordered(l, 15, 3);
            assert(15int / 3 == 5);
        }
        assert(cm <= cc) by {
            lemma_div_is_ordered(l, l + 1, 3);
        }
        lemma_cube_coeff_gap(l, cm, cc, 50);
        lemma_div_bound_below((l - 1) * (l - 1) * (l - 1) * cm, l * l * l * cc, 50, 1);
    } else if l == 16 {
        assert(exp_for_level_spec(rate, 15) == 1957) by {
            assert(16int / 3 == 5);
            assert(15int * 15 * 15 == 3375);
            assert(3375int * 29 == 97875);
            assert(97875int / 50 == 1957);
        }
        assert(exp_for_level_spec(rate, 16) == 2457) by {
            assert(16int * 16 * 16 == 4096);
            assert(4096int * 30 == 122880);
            assert(122880int / 50 == 2457);
        }
    } else if l <= 36 {
        lemma_cube_coeff_gap(l, l + 13, l + 14, 50);
        lemma_div_bound_below((l - 1) * (l - 1) * (l - 1) * (l + 13), l * l * l * (l + 14), 50, 1);
    } else if l == 37 {
        assert(exp_for_level_spec(rate, 36) == 46656) by {
            assert(36int * 36 * 36 == 46656);
            assert(46656int * 50 == 2332800);
            assert(2332800int / 50 == 46656);
        }
        assert(exp_for_level_spec(rate, 37) == 50653) by {
            assert(37int / 2 == 18);
            assert(37int * 37 * 37 == 50653);
            assert(50653int * 50 == 2532650);
            assert(2532650int / 50 == 50653);
        }
    } else {
        let cm = (l - 1) / 2 + 32;
        let cc = l / 2 + 32;
        assert(50 <= cm && cc <= 82) by {
            lemma_div_is_ordered(37, l - 1, 2);
            lemma_div_is_ordered(l, 100, 2);
            assert(37int / 2 == 18);
            assert(100int / 2 == 50);
        }
        assert(cm <= cc) by {
            lemma_div_is_ordered(l - 1, l, 2);
        }
        lemma_cube_coeff_gap(l, cm, cc, 50);
        lemma_div_bound_below((l - 1) * (l - 1) * (l - 1) * cm, l * l * l * cc, 50, 1);
    }
}

/// Monotonicity over a whole range of levels, strict when the levels differ.
pub proof fn lemma_exp_for_level_increasing(rate: GrowthRate, l1: int, l2: int)
    requires
        1 <= l1 <= l2 <= 100,
    ensures
        exp_for_level_spec(rate, l1) <= exp_for_level_spec(rate, l2),
        l1 < l2 ==> exp_for_level_spec(rate, l1) < exp_for_level_spec(rate, l2),
    decreases l2 - l1,
{
    if l1 < l2 {
        lemma_exp_for_level_strictly_increasing(rate, l2);
        lemma_exp_for_level_increasing(rate, l1, l2 - 1);
    }
}

/// The round trip from a level through its experience requirement and back:
/// `level_from_exp` recovers the level exactly, and one experience point less
/// lands exactly one level lower.
pub proof fn lemma_level_exp_round_trip(rate: GrowthRate, l: int)
    requires
        1 <= l <= 100,
    ensures
        level_for_exp_spec(rate, exp_for_level_spec(rate, l)) == l,
        l > 1 ==> level_for_exp_spec(rate, exp_for_level_spec(rate, l) - 1) == l - 1,
{
    let e = exp_for_level_spec(rate, l);
    assert forall|j: int| l < j <= 100 implies exp_for_level_spec(rate, j) > e by {
        lemma_exp_for_level_increasing(rate, l, j);
    }
    lemma_level_for_exp_unique(rate, e, l);
    if l > 1 {
        lemma_exp_for_level_increasing(rate, l - 1, l);
        assert forall|j: int| l - 1 < j <= 100 implies exp_for_level_spec(rate, j) > e - 1 by {
            lemma_exp_for_level_increasing(rate, l, j);
        }
        lemma_level_for_exp_unique(rate, e - 1, l - 1);
    }
}

} // verus!
