use creature_battle::creature_type::CreatureType::{Fire, Grass, Normal, Water};
use creature_battle::creature_type::{CreatureType, Effectiveness, Multiplier};

fn as_float(m: Multiplier) -> f32 {
    m.num as f32 / m.den as f32
}

#[test]
fn test_single_effectiveness() {
    // Normal vs Fire -> Normal
    assert_eq!(
        CreatureType::effectiveness(Normal, Fire),
        Effectiveness::Normal
    );

    // Fire vs Grass -> Super
    assert_eq!(
        CreatureType::effectiveness(Fire, Grass),
        Effectiveness::Super
    );

    // Fire vs Water -> Resistant
    assert_eq!(
        CreatureType::effectiveness(Fire, Water),
        Effectiveness::Resistant
    );

    // Water vs Grass -> Resistant
    assert_eq!(
        CreatureType::effectiveness(Water, Grass),
        Effectiveness::Resistant
    );

    // Water vs Fire -> Super
    assert_eq!(
        CreatureType::effectiveness(Water, Fire),
        Effectiveness::Super
    );

    // Grass vs Fire -> Resistant
    assert_eq!(
        CreatureType::effectiveness(Grass, Fire),
        Effectiveness::Resistant
    );

    // Grass vs Water -> Super
    assert_eq!(
        CreatureType::effectiveness(Grass, Water),
        Effectiveness::Super
    );
}

#[test]
fn test_combined_multiplier() {
    // Fire attacking Grass + Water
    let defenders = [Grass, Water];
    // Fire vs Grass = 2.0, Fire vs Water = 0.5 -> product = 1.0
    assert_eq!(as_float(CreatureType::combined_multiplier(Fire, &defenders)), 1.0);

    // Water attacking Fire + Grass
    let defenders = [Fire, Grass];
    // Water vs Fire = 2.0, Water vs Grass = 0.5 -> product = 1.0
    assert_eq!(as_float(CreatureType::combined_multiplier(Water, &defenders)), 1.0);

    // Grass attacking Water + Fire
    let defenders = [Water, Fire];
    // Grass vs Water = 2.0, Grass vs Fire = 0.5 -> product = 1.0
    assert_eq!(as_float(CreatureType::combined_multiplier(Grass, &defenders)), 1.0);
}

#[test]
fn single_multipliers_are_exact() {
    assert_eq!(as_float(Effectiveness::Immune.multiplier()), 0.0);
    assert_eq!(as_float(Effectiveness::Resistant.multiplier()), 0.5);
    assert_eq!(as_float(Effectiveness::Normal.multiplier()), 1.0);
    assert_eq!(as_float(Effectiveness::Super.multiplier()), 2.0);
}
