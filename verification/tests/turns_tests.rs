use creature_battle::creature::Creature;
use creature_battle::creature_type::CreatureType;
use creature_battle::experience::GrowthRate;
use creature_battle::party::Party;
use creature_battle::species::{Species, SpeciesId, SpeciesName};
use creature_battle::stats::BaseStats;
use creature_battle::turns::{Battle, BattleState};

/// Helper to create a simple test creature
fn make_test_creature() -> Creature {
    let basestats = BaseStats::new(10, 10, 30, 10).unwrap();

    let species = Species::new(
        SpeciesId(1),
        SpeciesName::new("TestSpecies"),
        basestats,
        GrowthRate::MediumFast,
        vec![CreatureType::Normal],
        vec![],
    );

    Creature::new(&species, 1).unwrap()
}

/// Sets up a battle with two parties of 6 creatures each
fn setup_battle() -> Battle {
    let creatures_p1: Vec<Creature> = (0..6).map(|_| make_test_creature()).collect();
    let creatures_p2: Vec<Creature> = (0..6).map(|_| make_test_creature()).collect();

    Battle::new(Party::new(creatures_p1), Party::new(creatures_p2))
}

#[test]
fn state_transitions_follow_expected_order() {
    let mut battle = setup_battle();

    assert_eq!(battle.state, BattleState::StartTurn);
    assert_eq!(battle.current_turn.turn_number, 1);

    battle.advance_state();
    assert_eq!(battle.state, BattleState::SelectActions);

    battle.advance_state();
    assert_eq!(battle.state, BattleState::ResolveActions);

    battle.advance_state();
    assert_eq!(battle.state, BattleState::EndTurn);

    // Transition to next turn
    battle.advance_state();
    assert_eq!(battle.state, BattleState::StartTurn);
    assert_eq!(battle.current_turn.turn_number, 2);
}

#[test]
fn battle_does_not_advance_when_finished() {
    let mut battle = setup_battle();
    battle.state = BattleState::Finished;

    battle.advance_state();
    assert_eq!(battle.state, BattleState::Finished);
    assert_eq!(battle.current_turn.turn_number, 1);
}
