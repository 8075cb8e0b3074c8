use creature_battle::creature::{Creature, LearnMoveResult, LevelUpEvent};
use creature_battle::creature_type::CreatureType;
use creature_battle::experience::{GrowthRate, Level};
use creature_battle::moves::MoveId;
use creature_battle::species::{LearnableMove, Species, SpeciesId, SpeciesName};
use creature_battle::species_registry::{SpeciesRegistry, SpeciesTable};
use creature_battle::stats::BaseStats;

/// A one-species registry: "Bulby", all base stats 50, fast growth, and a
/// learnset with entries at levels 5, 10 and 15.
fn make_registry() -> SpeciesTable {
    let mut table = SpeciesTable::new();
    let species = Species::new(
        SpeciesId(1),
        SpeciesName::new("Bulby"),
        BaseStats::new(50, 50, 50, 50).unwrap(),
        GrowthRate::Fast,
        vec![CreatureType::Grass],
        vec![
            LearnableMove::new(Level::new(5).unwrap(), MoveId::new(1)),
            LearnableMove::new(Level::new(10).unwrap(), MoveId::new(2)),
            LearnableMove::new(Level::new(15).unwrap(), MoveId::new(3)),
        ],
    );
    assert!(table.add(species));
    table
}

fn test_creature(level: u8, registry: &SpeciesTable) -> Creature {
    Creature::new(registry.get_species(SpeciesId(1)).unwrap(), level).unwrap()
}

#[test]
fn single_level_up() {
    let registry = make_registry();
    let growth_rate = *registry.get_growth_rate(SpeciesId(1)).unwrap();
    let mut creature = test_creature(5, &registry);

    let target_level = creature.level.next().unwrap();
    let required_exp = growth_rate.exp_for_level(target_level);

    creature.gain_exp(required_exp, &registry);

    assert_eq!(creature.level, Level::new(6).unwrap());
}

#[test]
fn reach_max_level() {
    let registry = make_registry();
    let growth_rate = *registry.get_growth_rate(SpeciesId(1)).unwrap();
    let mut creature = test_creature(95, &registry);
    let exp_needed =
        growth_rate.exp_for_level(Level::new(Level::MAX).unwrap()) - creature.experience;
    creature.gain_exp(exp_needed, &registry);

    assert_eq!(creature.level.get(), Level::MAX);
    assert_eq!(
        creature.experience,
        growth_rate.exp_for_level(Level::new(Level::MAX).unwrap())
    );
}

#[test]
fn multiple_level_ups() {
    let registry = make_registry();
    let growth_rate = *registry.get_growth_rate(SpeciesId(1)).unwrap();
    let mut creature = test_creature(5, &registry);

    let exp_to_gain = growth_rate.exp_for_level(Level::new(8).unwrap()) - creature.experience;
    creature.gain_exp(exp_to_gain, &registry);

    assert_eq!(creature.level, Level::new(8).unwrap());
    assert_eq!(
        creature.experience,
        growth_rate.exp_for_level(Level::new(8).unwrap())
    );
}

#[test]
fn creature_creation() {
    let registry = make_registry();
    let c = test_creature(5, &registry);

    assert_eq!(c.current_hp, 50);
    assert_eq!(c.level.get(), 5);
    assert!(c.name().contains("Bulby"));
    assert_eq!(c.individual_stats.attack.get(), 50);
}

#[test]
fn hp_modification() {
    let registry = make_registry();
    let mut c = test_creature(5, &registry);

    c.modify_hp(-10);
    assert_eq!(c.current_hp, 40);

    c.modify_hp(5);
    assert_eq!(c.current_hp, 45);

    c.modify_hp(100);
    assert_eq!(c.current_hp, 50);

    c.modify_hp(-100);
    assert_eq!(c.current_hp, 0);
    assert!(c.is_fainted());
}

#[test]
fn hp_modification_extreme_deltas() {
    let registry = make_registry();
    let mut c = test_creature(5, &registry);

    c.modify_hp(i16::MIN);
    assert_eq!(c.current_hp, 0);

    c.modify_hp(i16::MAX);
    assert_eq!(c.current_hp, 50);

    c.modify_hp(i16::MAX);
    assert_eq!(c.current_hp, 50);
}

#[test]
fn level_up_triggers_learn_move_event() {
    let species_registry = make_registry(); // learnset in mock: lvl 5, 10, 15

    let mut creature =
        Creature::new(species_registry.get_species(SpeciesId(1)).unwrap(), 4).unwrap();

    let events = creature.level_up(Level::new(5).unwrap(), &species_registry);

    assert_eq!(events.len(), 1);

    match &events[0] {
        LevelUpEvent::CanLearnMove { move_id } => {
            assert_eq!(*move_id, MoveId(1));
        }
        _ => panic!("Expected CanLearnMove event at level 5"),
    }
}

#[test]
fn gain_exp_triggers_multiple_learn_move_events() {
    let species_registry = make_registry(); // learnset: lvl 5, 10, 15

    let mut creature =
        Creature::new(species_registry.get_species(SpeciesId(1)).unwrap(), 9).unwrap();
    let gr = GrowthRate::Fast;

    let needed_exp =
        gr.exp_for_level(Level::new(15).unwrap()) - gr.exp_for_level(Level::new(9).unwrap());

    // Give enough EXP to jump to level 15
    let events = creature.gain_exp(needed_exp, &species_registry);

    // We expect two learn-move events: for lvl 10 and lvl 15
    let learn_move_events: Vec<_> = events
        .iter()
        .filter(|e| matches!(e, LevelUpEvent::CanLearnMove { .. }))
        .collect();

    assert_eq!(learn_move_events.len(), 2);

    match learn_move_events[0] {
        LevelUpEvent::CanLearnMove { move_id } => assert_eq!(*move_id, MoveId(2)), // level 10
        _ => panic!("Expected CanLearnMove event at level 10"),
    }

    match learn_move_events[1] {
        LevelUpEvent::CanLearnMove { move_id } => assert_eq!(*move_id, MoveId(3)), // level 15
        _ => panic!("Expected CanLearnMove event at level 15"),
    }
}

#[test]
fn full_moveset_requires_forgetting_first() {
    let registry = make_registry();
    let mut c = test_creature(5, &registry);

    for id in 1..=4u32 {
        assert!(matches!(
            c.try_learn_move(MoveId::new(id), 10),
            LearnMoveResult::Learned
        ));
    }

    // All four slots full: a fifth move is refused and nothing changes.
    let r = c.try_learn_move(MoveId::new(5), 10);
    assert!(matches!(r, LearnMoveResult::MustForgetOldMove));
    for (slot, id) in (1..=4u32).enumerate() {
        assert_eq!(c.moves[slot].unwrap().move_id, MoveId(id));
    }

    // Learning a known move is reported without mutation.
    assert!(matches!(
        c.try_learn_move(MoveId::new(3), 10),
        LearnMoveResult::AlreadyKnown
    ));

    // After forgetting, the freed slot takes the new move.
    let forgotten = c.forget_move(1).unwrap();
    assert_eq!(forgotten.move_id, MoveId(2));
    assert!(c.moves[1].is_none());

    let r = c.try_learn_move(MoveId::new(5), 10);
    assert!(matches!(r, LearnMoveResult::Learned));
    assert_eq!(c.moves[1].unwrap().move_id, MoveId(5));
    assert_eq!(c.moves[1].unwrap().pp.current, 10);
    assert_eq!(c.moves[1].unwrap().pp.max, 10);
}

#[test]
fn forget_move_out_of_bounds_is_none() {
    let registry = make_registry();
    let mut c = test_creature(5, &registry);
    assert!(c.forget_move(4).is_none());
    assert!(c.forget_move(0).is_none());
}
