use creature_battle::creature::Creature;
use creature_battle::creature_type::CreatureType;
use creature_battle::experience::GrowthRate;
use creature_battle::party::Party;
use creature_battle::species::{Species, SpeciesId, SpeciesName};
use creature_battle::stats::BaseStats;

/// Helper to create a simple test creature with a specific HP
fn make_test_creature(hp: u16) -> Creature {
    let base_stats = BaseStats::new(10, 10, hp, 10).unwrap();

    let species = Species::new(
        SpeciesId(1),
        SpeciesName::new("TestSpecies"),
        base_stats,
        GrowthRate::MediumFast,
        vec![CreatureType::Normal],
        vec![],
    );

    Creature::new(&species, 1).unwrap()
}

#[test]
fn active_returns_first_non_fainted() {
    let creatures = vec![
        make_test_creature(10),
        make_test_creature(15),
        make_test_creature(17),
        make_test_creature(11),
        make_test_creature(19),
        make_test_creature(100),
    ];
    let party = Party::new(creatures);

    let active = party.active().unwrap();
    assert_eq!(active.current_hp, 10);
}

#[test]
fn all_fainted_detects_fainted_party() {
    let mut creatures = vec![
        make_test_creature(10),
        make_test_creature(10),
        make_test_creature(10),
        make_test_creature(10),
        make_test_creature(10),
        make_test_creature(10),
    ];
    // Simulate all creatures fainted
    for c in creatures.iter_mut() {
        c.current_hp = 0;
    }

    let party = Party::new(creatures);

    assert!(party.all_fainted())
}

#[test]
fn swap_swaps_creatures_correctly() {
    let creatures = vec![
        make_test_creature(10),
        make_test_creature(20),
        make_test_creature(30),
        make_test_creature(40),
        make_test_creature(50),
        make_test_creature(60),
    ];
    let mut party = Party::new(creatures);

    let first_before = party.creatures[0].current_hp;
    let third_before = party.creatures[2].current_hp;

    let swapped = party.swap(0, 2);
    assert!(swapped);

    assert_eq!(party.creatures[0].current_hp, third_before);
    assert_eq!(party.creatures[2].current_hp, first_before);
}

#[test]
fn swap_returns_false_for_out_of_bounds() {
    let creatures = vec![
        make_test_creature(10),
        make_test_creature(20),
        make_test_creature(30),
        make_test_creature(40),
        make_test_creature(50),
        make_test_creature(60),
    ];
    let mut party = Party::new(creatures);

    let swapped = party.swap(0, 6); // index 6 is out of bounds
    assert!(!swapped);
}

#[test]
fn active_skips_fainted_members() {
    let mut creatures = vec![
        make_test_creature(10),
        make_test_creature(15),
        make_test_creature(17),
        make_test_creature(11),
        make_test_creature(19),
        make_test_creature(100),
    ];
    creatures[0].current_hp = 0;
    creatures[1].current_hp = 0;

    let party = Party::new(creatures);
    assert_eq!(party.active().unwrap().current_hp, 17);
    assert!(!party.all_fainted());
}
