use creature_battle::battle::Battle;
use creature_battle::creature::Creature;
use creature_battle::creature_type::CreatureType;
use creature_battle::event::BattleEvent;
use creature_battle::experience::GrowthRate;
use creature_battle::species::{Species, SpeciesId, SpeciesName};
use creature_battle::stats::BaseStats;

fn create_test_creature() -> Creature {
    let species = Species::new(
        SpeciesId(1),
        SpeciesName::new("TestMon"),
        BaseStats::new(10, 8, 30, 12).unwrap(),
        GrowthRate::MediumFast,
        vec![CreatureType::Normal],
        vec![],
    );
    Creature::new(&species, 5).unwrap()
}

#[test]
fn basic_attack_and_fainting() {
    let mut battle = Battle::new(create_test_creature(), create_test_creature());

    let attacker_id = battle.creature_one.id;
    let target_id = battle.creature_two.id;

    // Attack with enough damage to faint
    battle.attack(attacker_id, target_id, 30);
    battle.process_events();

    assert!(battle.creature_two.is_fainted());
}

#[test]
fn basic_attack_partial_damage() {
    let mut battle = Battle::new(create_test_creature(), create_test_creature());

    let attacker_id = battle.creature_one.id;
    let target_id = battle.creature_two.id;

    // Attack with partial damage
    battle.attack(attacker_id, target_id, 10);
    battle.process_events();

    assert_eq!(battle.creature_two.current_hp, 20);
    assert!(!battle.creature_two.is_fainted());
}

#[test]
fn fatal_damage_reports_fainted_event() {
    let mut battle = Battle::new(create_test_creature(), create_test_creature());

    let attacker_id = battle.creature_one.id;
    let target_id = battle.creature_two.id;

    battle.attack(attacker_id, target_id, 30);
    let reported = battle.process_events();

    assert_eq!(battle.creature_two.current_hp, 0);
    assert!(reported
        .iter()
        .any(|e| matches!(e, BattleEvent::Fainted { creature } if *creature == target_id)));
}

#[test]
fn heal_is_clamped_at_max_hp() {
    let mut battle = Battle::new(create_test_creature(), create_test_creature());

    let source_id = battle.creature_one.id;
    let target_id = battle.creature_two.id;

    battle.attack(source_id, target_id, 10);
    battle.process_events();
    assert_eq!(battle.creature_two.current_hp, 20);

    battle.heal(source_id, target_id, 500);
    battle.process_events();
    assert_eq!(battle.creature_two.current_hp, 30);
}

#[test]
fn events_for_unknown_targets_are_dropped() {
    let mut battle = Battle::new(create_test_creature(), create_test_creature());
    let stranger = create_test_creature().id;

    battle.attack(battle.creature_one.id, stranger, 30);
    let reported = battle.process_events();

    assert_eq!(battle.creature_one.current_hp, 30);
    assert_eq!(battle.creature_two.current_hp, 30);
    assert!(reported.is_empty());
}
