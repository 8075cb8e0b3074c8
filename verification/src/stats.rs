//! Bounded combat statistics.
//!
//! A [`Stat`] is an integer in `[1, 10000]`; construction outside that range
//! fails with [`StatError::OutOfRange`], so an invalid stat value is never
//! reachable. [`BaseStats`] bundles the four stats of a species template and
//! [`IndividualStats`] the stats of one creature.

use vstd::prelude::*;

verus! {

/// Strongly typed stat: an integer in `[1, 10000]`.
#[derive(Debug, Clone, Copy, PartialEq, Eq, Structural)]
pub struct Stat {
    value: u16,
}

/// Failure reported when a stat is constructed out of range.
#[derive(Debug)]
pub enum StatError {
    OutOfRange { value: u16 },
}

impl Stat {
    pub const MIN: u16 = 1;
    pub const MAX: u16 = 10000;

    /// The numeric value held by this stat.
    pub closed spec fn spec_get(self) -> u16 {
        self.value
    }

    #[verifier::type_invariant]
    spec fn range_inv(self) -> bool {
        Self::MIN <= self.value <= Self::MAX
    }

    pub fn new(value: u16) -> (r: Result<Self, StatError>)
        ensures
            Self::MIN <= value <= Self::MAX <==> r is Ok,
            r matches Ok(s) ==> s.spec_get() == value,
            r matches Err(e) ==> e matches StatError::OutOfRange { value: v } && v == value,
    {
        if Self::MIN <= value && value <= Self::MAX {
            Ok(Stat { value })
        } else {
            Err(StatError::OutOfRange { value })
        }
    }

    pub fn get(self) -> (r: u16)
        ensures
            r == self.spec_get(),
            Self::MIN <= r <= Self::MAX,
    {
        proof {
            use_type_invariant(self);
        }
        self.value
    }
}

/// Collection of base stats for a species.
#[derive(Debug, Clone, PartialEq, Eq, Structural)]
pub struct BaseStats {
    pub attack: Stat,
    pub defense: Stat,
    pub max_hp: Stat,
    pub speed: Stat,
}

impl BaseStats {
    /// Builds the four stats, validating each in order; the first value out
    /// of range is reported.
    pub fn new(attack: u16, defense: u16, max_hp: u16, speed: u16) -> (r: Result<
        Self,
        StatError,
    >)
        ensures
            r is Ok <==> (Stat::MIN <= attack <= Stat::MAX && Stat::MIN <= defense <= Stat::MAX
                && Stat::MIN <= max_hp <= Stat::MAX && Stat::MIN <= speed <= Stat::MAX),
            r matches Ok(b) ==> b.attack.spec_get() == attack && b.defense.spec_get() == defense
                && b.max_hp.spec_get() == max_hp && b.speed.spec_get() == speed,
            r matches Err(e) ==> e matches StatError::OutOfRange { value: v } && (v == attack || v
                == defense || v == max_hp || v == speed),
    {
        Ok(
            Self {
                attack: match Stat::new(attack) {
                    Ok(s) => s,
                    Err(e) => { return Err(e) },
                },
                defense: match Stat::new(defense) {
                    Ok(s) => s,
                    Err(e) => { return Err(e) },
                },
                max_hp: match Stat::new(max_hp) {
                    Ok(s) => s,
                    Err(e) => { return Err(e) },
                },
                speed: match Stat::new(speed) {
                    Ok(s) => s,
                    Err(e) => { return Err(e) },
                },
            },
        )
    }

    pub fn attack(&self) -> (r: u16)
        ensures
            r == self.attack.spec_get(),
    {
        self.attack.get()
    }

    pub fn defense(&self) -> (r: u16)
        ensures
            r == self.defense.spec_get(),
    {
        self.defense.get()
    }

    pub fn max_hp(&self) -> (r: u16)
        ensures
            r == self.max_hp.spec_get(),
    {
        self.max_hp.get()
    }

    pub fn speed(&self) -> (r: u16)
        ensures
            r == self.speed.spec_get(),
    {
        self.speed.get()
    }
}

/// Individual stats for a creature (currently a direct copy of base stats;
/// per-level growth formulas are an extension point).
#[derive(Debug, Clone, Copy, PartialEq, Eq, Structural)]
pub struct IndividualStats {
    pub attack: Stat,
    pub defense: Stat,
    pub max_hp: Stat,
    pub speed: Stat,
}

impl IndividualStats {
    /// Derives individual stats from a species' base stats.
    pub fn from_base(base: &BaseStats) -> (r: Self)
        ensures
            r.attack == base.attack,
            r.defense == base.defense,
            r.max_hp == base.max_hp,
            r.speed == base.speed,
    {
        Self { attack: base.attack, defense: base.defense, max_hp: base.max_hp, speed: base.speed }
    }
}

} // verus!
