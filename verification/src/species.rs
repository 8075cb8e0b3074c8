//! Species templates: the immutable per-species data that creatures are
//! instantiated from.

use vstd::prelude::*;

verus! {

use crate::creature_type::CreatureType;
use crate::experience::{GrowthRate, Level};
use crate::moves::MoveId;
use crate::stats::BaseStats;

/// Newtype for a species display name.
#[derive(Debug, Clone, PartialEq, Eq, Hash)]
pub struct SpeciesName(String);

impl View for SpeciesName {
    type V = Seq<char>;

    closed spec fn view(&self) -> Seq<char> {
        self.0@
    }
}

impl SpeciesName {
    pub fn new(name: &str) -> (r: Self)
        ensures
            r@ == name@,
    {
        Self(name.to_owned())
    }

    pub fn as_str(&self) -> (r: &str)
        ensures
            r@ == self@,
    {
        self.0.as_str()
    }
}

/// Identifier of a species in the catalog.
#[derive(Debug, Clone, Copy, PartialEq, Eq, Hash, Structural)]
pub struct SpeciesId(pub u64);

/// One learnset entry: the move that becomes learnable at a level.
#[derive(Debug, Clone, Copy, PartialEq, Eq, Structural)]
pub struct LearnableMove {
    pub level: Level,
    pub move_id: MoveId,
}

impl LearnableMove {
    pub fn new(level: Level, move_id: MoveId) -> (r: Self)
        ensures
            r.level == level,
            r.move_id == move_id,
    {
        Self { level, move_id }
    }
}

/// Immutable template describing a species.
#[derive(Debug, Clone)]
pub struct Species {
    pub id: SpeciesId,
    pub name: SpeciesName,
    pub base_stats: BaseStats,
    pub growth_rate: GrowthRate,
    pub types: Vec<CreatureType>,
    pub learnset: Vec<LearnableMove>,
}

impl Species {
    pub fn new(
        id: SpeciesId,
        name: SpeciesName,
        base_stats: BaseStats,
        growth_rate: GrowthRate,
        types: Vec<CreatureType>,
        learnset: Vec<LearnableMove>,
    ) -> (r: Self)
        ensures
            r.id == id,
            r.name == name,
            r.base_stats == base_stats,
            r.growth_rate == growth_rate,
            r.types == types,
            r.learnset == learnset,
    {
        Self { id, name, base_stats, growth_rate, types, learnset }
    }
}

} // verus!
