use creature_battle::creature_type::CreatureType;
use creature_battle::experience::{GrowthRate, Level};
use creature_battle::moves::MoveId;
use creature_battle::species::{LearnableMove, Species, SpeciesId, SpeciesName};
use creature_battle::stats::BaseStats;

#[test]
fn species_creation() {
    let stats = BaseStats::new(10, 12, 35, 8).unwrap();
    let ct = vec![CreatureType::Fire];
    let tackle = LearnableMove::new(Level::new(1).unwrap(), MoveId::new(1));
    let learnset = vec![tackle.clone()];
    let species = Species::new(
        SpeciesId(1),
        SpeciesName::new("Bulby"),
        stats,
        GrowthRate::Fast,
        ct,
        learnset,
    );

    assert_eq!(species.id.0, 1);
    assert_eq!(species.name.as_str(), "Bulby");
    assert_eq!(species.base_stats.max_hp(), 35);
    assert_eq!(species.growth_rate, GrowthRate::Fast);
    assert_eq!(species.types, vec![CreatureType::Fire]);
    assert_eq!(species.learnset, vec![tackle])
}
