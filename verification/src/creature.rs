//! Persistent creature instances: identity, stats, hit points, experience,
//! and learned-move slots.
//!
//! A creature's hit points are always clamped into `[0, max_hp]`, its level
//! tracks its experience through the species' growth curve, and its four
//! move slots are only ever filled explicitly — learning never overwrites.

use vstd::prelude::*;

verus! {

use vstd::pervasive::unreached;
use crate::experience::{
    Level,
    exp_for_level_spec,
    level_for_exp_spec,
    lemma_exp_for_level_increasing,
    lemma_level_for_exp_unique,
};
use crate::moves::MoveId;
use crate::species::{Species, SpeciesId};
use crate::species_registry::SpeciesRegistry;
use crate::stats::IndividualStats;

#[verifier::external_type_specification]
#[verifier::external_body]
pub struct ExUuid(uuid::Uuid);

/// Relies on `uuid::Uuid::new_v4` and `uuid::Uuid::as_u128`: a fresh random
/// version-4 identifier, taken as its 128-bit value. Nothing is assumed of
/// the value.
#[verifier::external_body]
fn fresh_id_bits() -> u128 {
    uuid::Uuid::new_v4().as_u128()
}

/// Globally unique identifier for each persistent creature.
#[derive(Debug, Clone, Copy, PartialEq, Eq, Hash, Structural)]
pub struct CreatureId {
    bits: u128,
}

impl CreatureId {
    /// A fresh identifier from a random 128-bit value.
    pub fn new() -> Self {
        CreatureId { bits: fresh_id_bits() }
    }

    /// Relies on `uuid::Uuid::as_u128` for the identifier's 128-bit value.
    #[verifier::external_body]
    pub fn from_uuid(uuid: uuid::Uuid) -> Self {
        CreatureId { bits: uuid.as_u128() }
    }

    /// Relies on `uuid::Uuid::from_u128` to rebuild the UUID form of the
    /// identifier.
    #[verifier::external_body]
    pub fn as_uuid(&self) -> uuid::Uuid {
        uuid::Uuid::from_u128(self.bits)
    }
}

impl Default for CreatureId {
    fn default() -> Self {
        Self::new()
    }
}

/// Current and maximum power points of a learned move.
#[derive(Debug, Clone, Copy, PartialEq, Eq, Structural)]
pub struct MovePP {
    pub current: u8,
    pub max: u8,
}

/// A move held in one of a creature's slots.
#[derive(Debug, Clone, Copy, PartialEq, Eq, Structural)]
pub struct CreatureMove {
    pub move_id: MoveId,
    pub pp: MovePP,
}

/// The four move slots of a creature.
pub type MoveSlots = Vec<Option<CreatureMove>>;

/// What a level-up makes possible.
#[derive(Debug, Clone, PartialEq, Eq, Structural)]
pub enum LevelUpEvent {
    CanEvolve { species_id: SpeciesId },
    CanLearnMove { move_id: MoveId },
}

/// Outcome of an attempt to learn a move.
#[derive(Debug, Clone, PartialEq, Eq, Structural)]
pub enum LearnMoveResult {
    AlreadyKnown,
    Learned,
    MustForgetOldMove,
}

/// The events one learnset emits at one level: one `CanLearnMove` per entry
/// whose level matches, in learnset order.
pub open spec fn events_at_level(ls: Seq<crate::species::LearnableMove>, l: int) -> Seq<
    LevelUpEvent,
>
    decreases ls.len(),
{
    if ls.len() == 0 {
        Seq::empty()
    } else {
        let rest = events_at_level(ls.drop_first(), l);
        if ls[0].level.spec_get() == l {
            seq![LevelUpEvent::CanLearnMove { move_id: ls[0].move_id }] + rest
        } else {
            rest
        }
    }
}

/// The events emitted when the levels `from ..= to` are reached in order.
pub open spec fn events_through(ls: Seq<crate::species::LearnableMove>, from: int, to: int) -> Seq<
    LevelUpEvent,
>
    decreases to - from + 1,
{
    if to < from {
        Seq::empty()
    } else {
        events_through(ls, from, to - 1) + events_at_level(ls, to)
    }
}

/// `events_at_level` splits over concatenation of learnsets.
proof fn lemma_events_at_level_concat(
    xs: Seq<crate::species::LearnableMove>,
    ys: Seq<crate::species::LearnableMove>,
    l: int,
)
    ensures
        events_at_level(xs + ys, l) == events_at_level(xs, l) + events_at_level(ys, l),
    decreases xs.len(),
{
    if xs.len() == 0 {
        assert(xs + ys =~= ys);
        assert(events_at_level(xs, l) + events_at_level(ys, l) =~= events_at_level(ys, l));
    } else {
        assert((xs + ys).drop_first() =~= xs.drop_first() + ys);
        lemma_events_at_level_concat(xs.drop_first(), ys, l);
        if xs[0].level.spec_get() == l {
            assert(seq![LevelUpEvent::CanLearnMove { move_id: xs[0].move_id }] + (events_at_level(
                xs.drop_first(),
                l,
            ) + events_at_level(ys, l)) =~= (seq![
                LevelUpEvent::CanLearnMove { move_id: xs[0].move_id },
            ] + events_at_level(xs.drop_first(), l)) + events_at_level(ys, l));
        }
    }
}

/// `events_at_level` of a single learnset entry.
proof fn lemma_events_at_level_singleton(m: crate::species::LearnableMove, l: int)
    ensures
        events_at_level(seq![m], l) == if m.level.spec_get() == l {
            seq![LevelUpEvent::CanLearnMove { move_id: m.move_id }]
        } else {
            Seq::<LevelUpEvent>::empty()
        },
{
    assert(seq![m].drop_first() =~= Seq::<crate::species::LearnableMove>::empty());
    assert(events_at_level(seq![m].drop_first(), l) == Seq::<LevelUpEvent>::empty());
    if m.level.spec_get() == l {
        assert(seq![LevelUpEvent::CanLearnMove { move_id: m.move_id }] + Seq::<
            LevelUpEvent,
        >::empty() =~= seq![LevelUpEvent::CanLearnMove { move_id: m.move_id }]);
    }
}

/// Persistent creature instance.
#[derive(Debug, Clone)]
pub struct Creature {
    pub id: CreatureId,
    pub species_id: SpeciesId,
    pub name: String,
    pub level: Level,
    pub experience: u32,
    pub individual_stats: IndividualStats,
    pub current_hp: u16,
    pub moves: MoveSlots,
}

/// Hit points after applying a delta, clamped into `[0, max]`.
pub open spec fn clamped_hp(hp: int, delta: int, max: int) -> int {
    let v = hp + delta;
    if v < 0 {
        0
    } else if v > max {
        max
    } else {
        v
    }
}

impl Creature {
    /// Well-formedness: exactly four move slots, and hit points within the
    /// creature's maximum.
    pub open spec fn wf(self) -> bool {
        self.moves@.len() == 4 && self.current_hp <= self.individual_stats.max_hp.spec_get()
    }

    /// Whether some slot holds the move.
    pub open spec fn knows_move(self, move_id: MoveId) -> bool {
        exists|i: int|
            0 <= i < self.moves@.len() && (#[trigger] self.moves@[i]) is Some
                && self.moves@[i]->0.move_id == move_id
    }

    /// Index of the first empty slot, or the slot count when all are full.
    pub open spec fn first_empty_slot(moves: Seq<Option<CreatureMove>>) -> int
        decreases moves.len(),
    {
        if moves.len() == 0 {
            0
        } else if moves[0] is None {
            0
        } else {
            1 + Self::first_empty_slot(moves.drop_first())
        }
    }

    /// Creates a creature of the given species, with a fresh identifier,
    /// full hit points, empty move slots, and exactly the experience its
    /// starting level requires. Fails only when the level is out of range.
    pub fn new(species: &Species, starting_level: u8) -> (r: Option<Self>)
        ensures
            r is Some <==> 1 <= starting_level <= 100,
            r matches Some(c) ==> c.wf() && c.species_id == species.id && c.name@ == species.name@
                && c.level.spec_get() == starting_level && c.experience == exp_for_level_spec(
                species.growth_rate,
                starting_level as int,
            ) && c.individual_stats.attack == species.base_stats.attack
                && c.individual_stats.defense == species.base_stats.defense
                && c.individual_stats.max_hp == species.base_stats.max_hp
                && c.individual_stats.speed == species.base_stats.speed && c.current_hp
                == species.base_stats.max_hp.spec_get() && c.moves@.len() == 4 && (forall|i: int|
                0 <= i < 4 ==> c.moves@[i] is None),
    {
        let id = CreatureId::new();
        let species_id = species.id;
        let name = species.name.as_str().to_owned();
        let individual_stats = IndividualStats::from_base(&species.base_stats);
        let current_hp = individual_stats.max_hp.get();
        let level = match Level::new(starting_level) {
            Some(l) => l,
            None => {
                return None;
            },
        };
        let experience = species.growth_rate.exp_for_level(level);
        let mut moves: MoveSlots = Vec::new();
        moves.push(None);
        moves.push(None);
        moves.push(None);
        moves.push(None);
        Some(
            Self {
                id,
                species_id,
                name,
                level,
                experience,
                individual_stats,
                current_hp,
                moves,
            },
        )
    }

    /// The creature's display name.
    pub fn name(&self) -> (r: String)
        ensures
            r@ == self.name@,
    {
        self.name.clone()
    }

    /// Applies a hit-point delta, clamped into `[0, max_hp]` whatever the
    /// magnitude of the delta.
    pub fn modify_hp(&mut self, amount: i16)
        requires
            old(self).wf(),
        ensures
            final(self).wf(),
            final(self).current_hp == clamped_hp(
                old(self).current_hp as int,
                amount as int,
                old(self).individual_stats.max_hp.spec_get() as int,
            ),
            final(self).id == old(self).id,
            final(self).species_id == old(self).species_id,
            final(self).name == old(self).name,
            final(self).level == old(self).level,
            final(self).experience == old(self).experience,
            final(self).individual_stats == old(self).individual_stats,
            final(self).moves == old(self).moves,
    {
        let hp: i32 = self.current_hp as i32 + amount as i32;
        let max_hp = self.individual_stats.max_hp.get();
        self.current_hp = if hp < 0 {
            0
        } else if hp > max_hp as i32 {
            max_hp
        } else {
            hp as u16
        };
    }

    /// A creature with zero hit points is fainted.
    pub fn is_fainted(&self) -> (r: bool)
        ensures
            r <==> self.current_hp == 0,
    {
        self.current_hp == 0
    }

    /// Adds experience, then applies level-ups one at a time — never
    /// skipping an intermediate level — until the experience no longer
    /// covers the next level or level 100 is reached. Returns every
    /// level-up event in order.
    ///
    /// The creature's species must resolve in the registry; a creature
    /// referencing an absent species is a configuration error that this
    /// contract excludes.
    pub fn gain_exp<S: SpeciesRegistry>(&mut self, amount: u32, species_registry: &S) -> (events:
        Vec<LevelUpEvent>)
        requires
            old(self).wf(),
            species_registry.catalog().contains_key(old(self).species_id.0),
            old(self).experience + amount <= u32::MAX,
            old(self).experience >= exp_for_level_spec(
                species_registry.catalog()[old(self).species_id.0].growth_rate,
                old(self).level.spec_get() as int,
            ),
        ensures
            final(self).wf(),
            final(self).experience == old(self).experience + amount,
            final(self).level.spec_get() == level_for_exp_spec(
                species_registry.catalog()[old(self).species_id.0].growth_rate,
                old(self).experience + amount,
            ),
            final(self).level.spec_get() >= old(self).level.spec_get(),
            events@ == events_through(
                species_registry.catalog()[old(self).species_id.0].learnset@,
                old(self).level.spec_get() + 1,
                final(self).level.spec_get() as int,
            ),
            final(self).id == old(self).id,
            final(self).species_id == old(self).species_id,
            final(self).name == old(self).name,
            final(self).individual_stats == old(self).individual_stats,
            final(self).current_hp == old(self).current_hp,
            final(self).moves == old(self).moves,
    {
        let ghost rate = species_registry.catalog()[old(self).species_id.0].growth_rate;
        let ghost ls = species_registry.catalog()[old(self).species_id.0].learnset@;
        let ghost start_level = self.level.spec_get() as int;
        let mut events: Vec<LevelUpEvent> = Vec::new();
        self.experience = self.experience + amount;
        let growth_rate: crate::experience::GrowthRate = match species_registry.get_growth_rate(
            self.species_id,
        ) {
            Some(gr) => *gr,
            None => unreached(),
        };
        let current = self.level.get();
        proof {
            assert(start_level == current as int);
            assert(events@ =~= events_through(ls, start_level + 1, start_level));
        }
        loop
            invariant
                self.wf(),
                self.id == old(self).id,
                self.species_id == old(self).species_id,
                self.name == old(self).name,
                self.individual_stats == old(self).individual_stats,
                self.current_hp == old(self).current_hp,
                self.moves == old(self).moves,
                self.experience == old(self).experience + amount,
                growth_rate == rate,
                rate == species_registry.catalog()[self.species_id.0].growth_rate,
                ls == species_registry.catalog()[self.species_id.0].learnset@,
                species_registry.catalog().contains_key(self.species_id.0),
                start_level <= self.level.spec_get() <= 100,
                self.experience >= exp_for_level_spec(rate, self.level.spec_get() as int),
                events@ == events_through(ls, start_level + 1, self.level.spec_get() as int),
            ensures
                self.level.spec_get() == 100 || self.experience < exp_for_level_spec(
                    rate,
                    self.level.spec_get() + 1,
                ),
            decreases 100 - self.level.spec_get(),
        {
            match self.level.next() {
                None => {
                    break ;
                },
                Some(next_level) => {
                    let next_exp = growth_rate.exp_for_level(next_level);
                    if self.experience >= next_exp {
                        let mut level_events = self.level_up(next_level, species_registry);
                        events.append(&mut level_events);
                        proof {
                            assert(events@ =~= events_through(
                                ls,
                                start_level + 1,
                                self.level.spec_get() as int,
                            ));
                        }
                    } else {
                        break ;
                    }
                },
            }
        }
        proof {
            let lv = self.level.spec_get() as int;
            let e = self.experience as int;
            assert forall|j: int| lv < j <= 100 implies exp_for_level_spec(rate, j) > e by {
                lemma_exp_for_level_increasing(rate, lv + 1, j);
            }
            lemma_level_for_exp_unique(rate, e, lv);
        }
        events
    }

    /// Applies one level-up: emits that level's events, then sets the level.
    pub fn level_up<S: SpeciesRegistry>(&mut self, next_level: Level, species_registry: &S) -> (
        events: Vec<LevelUpEvent>)
        requires
            species_registry.catalog().contains_key(old(self).species_id.0),
        ensures
            final(self).level == next_level,
            final(self).id == old(self).id,
            final(self).species_id == old(self).species_id,
            final(self).name == old(self).name,
            final(self).experience == old(self).experience,
            final(self).individual_stats == old(self).individual_stats,
            final(self).current_hp == old(self).current_hp,
            final(self).moves == old(self).moves,
            events@ == events_at_level(
                species_registry.catalog()[old(self).species_id.0].learnset@,
                next_level.spec_get() as int,
            ),
    {
        let events = self.on_level_up(next_level, species_registry);
        self.level = next_level;
        events
    }

    /// Collects the `CanLearnMove` events of one reached level, in learnset
    /// order. (Stat recalculation and evolution triggers are extension
    /// points not yet wired in.)
    fn on_level_up<S: SpeciesRegistry>(&mut self, level: Level, species_registry: &S) -> (events:
        Vec<LevelUpEvent>)
        requires
            species_registry.catalog().contains_key(old(self).species_id.0),
        ensures
            *final(self) == *old(self),
            events@ == events_at_level(
                species_registry.catalog()[old(self).species_id.0].learnset@,
                level.spec_get() as int,
            ),
    {
        let mut events: Vec<LevelUpEvent> = Vec::new();
        let species = match species_registry.get_species(self.species_id) {
            Some(s) => s,
            None => unreached(),
        };
        let ghost ls = species.learnset@;
        let ghost l = level.spec_get() as int;
        let n = species.learnset.len();
        proof {
            assert(events@ =~= events_at_level(ls.subrange(0, 0), l));
        }
        for i in 0..n
            invariant
                n == ls.len(),
                ls == species.learnset@,
                l == level.spec_get() as int,
                events@ == events_at_level(ls.subrange(0, i as int), l),
        {
            let m = &species.learnset[i];
            if m.level.get() == level.get() {
                events.push(LevelUpEvent::CanLearnMove { move_id: m.move_id });
            }
            proof {
                let prefix = ls.subrange(0, i as int);
                let single = seq![ls[i as int]];
                assert(ls.subrange(0, i + 1) =~= prefix + single);
                lemma_events_at_level_concat(prefix, single, l);
                lemma_events_at_level_singleton(ls[i as int], l);
                assert(events@ =~= events_at_level(ls.subrange(0, i + 1), l));
            }
        }
        proof {
            assert(ls.subrange(0, ls.len() as int) =~= ls);
        }
        events
    }

    /// Learning a move: already-known moves are reported, an empty slot is
    /// filled with full power points, and a full moveset is never
    /// overwritten.
    pub fn try_learn_move(&mut self, move_id: MoveId, max_pp: u8) -> (r: LearnMoveResult)
        requires
            old(self).wf(),
        ensures
            final(self).wf(),
            old(self).knows_move(move_id) ==> r is AlreadyKnown && *final(self) == *old(self),
            !old(self).knows_move(move_id) && Self::first_empty_slot(old(self).moves@) < 4 ==> r
                is Learned && final(self).moves@ == old(self).moves@.update(
                Self::first_empty_slot(old(self).moves@),
                Some(CreatureMove { move_id, pp: MovePP { current: max_pp, max: max_pp } }),
            ),
            !old(self).knows_move(move_id) && Self::first_empty_slot(old(self).moves@) >= 4 ==> r
                is MustForgetOldMove && *final(self) == *old(self),
            final(self).id == old(self).id,
            final(self).species_id == old(self).species_id,
            final(self).name == old(self).name,
            final(self).level == old(self).level,
            final(self).experience == old(self).experience,
            final(self).individual_stats == old(self).individual_stats,
            final(self).current_hp == old(self).current_hp,
    {
        let ghost snap = *self;
        let n = self.moves.len();
        for i in 0..n
            invariant
                n == self.moves@.len() == 4,
                *self == snap,
                snap == *old(self),
                snap.wf(),
                forall|j: int|
                    0 <= j < i ==> !((#[trigger] self.moves@[j]) is Some && self.moves@[j]->0.move_id
                        == move_id),
        {
            match &self.moves[i] {
                Some(m) => {
                    if m.move_id.0 == move_id.0 {
                        return LearnMoveResult::AlreadyKnown;
                    }
                },
                None => {},
            }
        }
        assert(!self.knows_move(move_id));
        let ghost prior = self.moves@;
        for i in 0..n
            invariant
                n == self.moves@.len() == 4,
                *self == snap,
                snap == *old(self),
                snap.wf(),
                !snap.knows_move(move_id),
                self.moves@ == prior,
                forall|j: int| 0 <= j < i ==> (#[trigger] self.moves@[j]) is Some,
        {
            if self.moves[i].is_none() {
                self.moves[i] = Some(
                    CreatureMove { move_id, pp: MovePP { current: max_pp, max: max_pp } },
                );
                proof {
                    lemma_first_empty_slot_at(prior, i as int);
                }
                return LearnMoveResult::Learned;
            }
        }
        proof {
            lemma_first_empty_slot_full(prior);
        }
        LearnMoveResult::MustForgetOldMove
    }

    /// Empties the given slot and returns what was there; an out-of-range
    /// index or an already-empty slot yields `None`.
    pub fn forget_move(&mut self, slot: usize) -> (r: Option<CreatureMove>)
        requires
            old(self).wf(),
        ensures
            final(self).wf(),
            slot >= 4 ==> r is None && *final(self) == *old(self),
            slot < 4 ==> r == old(self).moves@[slot as int] && final(self).moves@ == old(
                self,
            ).moves@.update(slot as int, None),
            final(self).id == old(self).id,
            final(self).species_id == old(self).species_id,
            final(self).name == old(self).name,
            final(self).level == old(self).level,
            final(self).experience == old(self).experience,
            final(self).individual_stats == old(self).individual_stats,
            final(self).current_hp == old(self).current_hp,
    {
        if slot >= self.moves.len() {
            return None;
        }
        let ghost prior = self.moves@;
        let taken = self.moves.remove(slot);
        self.moves.insert(slot, None);
        proof {
            assert(self.moves@ =~= prior.update(slot as int, None));
        }
        taken
    }
}

/// A clamped hit-point change never leaves the valid range: whatever the
/// delta's sign or magnitude, the result stays within `[0, max]`.
pub proof fn lemma_clamped_hp_in_range(hp: int, delta: int, max: int)
    requires
        0 <= hp <= max,
    ensures
        0 <= clamped_hp(hp, delta, max) <= max,
{
}

/// The slot found by the scan is the first empty one.
proof fn lemma_first_empty_slot_at(moves: Seq<Option<CreatureMove>>, i: int)
    requires
        0 <= i < moves.len(),
        forall|j: int| 0 <= j < i ==> moves[j] is Some,
        moves[i] is None,
    ensures
        Creature::first_empty_slot(moves) == i,
    decreases i,
{
    if i > 0 {
        assert(moves.drop_first()[i - 1] is None);
        assert forall|j: int| 0 <= j < i - 1 implies moves.drop_first()[j] is Some by {
            assert(moves[j + 1] is Some);
        }
        lemma_first_empty_slot_at(moves.drop_first(), i - 1);
    }
}

/// With every slot full, the first empty slot equals the slot count.
proof fn lemma_first_empty_slot_full(moves: Seq<Option<CreatureMove>>)
    requires
        forall|j: int| 0 <= j < moves.len() ==> moves[j] is Some,
    ensures
        Creature::first_empty_slot(moves) == moves.len(),
    decreases moves.len(),
{
    if moves.len() > 0 {
        assert forall|j: int| 0 <= j < moves.drop_first().len() implies moves.drop_first()[j]
            is Some by {
            assert(moves[j + 1] is Some);
        }
        lemma_first_empty_slot_full(moves.drop_first());
    }
}

} // verus!
