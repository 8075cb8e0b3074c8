use creature_battle::creature_type::CreatureType::{Grass, Water};
use creature_battle::creature_type::{CreatureType, Multiplier};
use creature_battle::moves::Move;

fn as_float(m: Multiplier) -> f32 {
    m.num as f32 / m.den as f32
}

fn flamethrower() -> Move {
    Move {
        name: "Flamethrower".to_string(),
        move_type: CreatureType::Fire,
        power: 90,
    }
}

#[test]
fn test_effectiveness_multiplier() {
    let flamethrower = flamethrower();

    // Single defender type
    assert_eq!(as_float(flamethrower.effectiveness_multiplier(&[Grass])), 2.0);

    assert_eq!(as_float(flamethrower.effectiveness_multiplier(&[Water])), 0.5);

    assert_eq!(
        as_float(flamethrower.effectiveness_multiplier(&[CreatureType::Fire])),
        1.0
    );

    // Multiple defender types (Grass + Water)
    assert_eq!(
        as_float(flamethrower.effectiveness_multiplier(&[Grass, Water])),
        2.0 * 0.5
    );
}

#[test]
fn test_effective_power_without_stab() {
    let flamethrower = flamethrower();

    // User type does not match move type (no STAB)
    let damage = flamethrower.effective_power(&[CreatureType::Water], &[Grass]);
    // Effectiveness multiplier = 2.0, no STAB
    assert_eq!(as_float(damage), 180.0);
}

#[test]
fn test_effective_power_with_stab() {
    let flamethrower = flamethrower();

    // User type matches move type (STAB applies)
    let damage = flamethrower.effective_power(&[CreatureType::Fire], &[Grass]);
    // Effectiveness multiplier = 2.0, STAB = 1.5 -> total = 270
    assert_eq!(as_float(damage), 270.0);
}

#[test]
fn test_effective_power_multiple_defenders_with_stab() {
    let flamethrower = flamethrower();

    let defenders = [Grass, Water]; // Fire vs Grass = 2, Fire vs Water = 0.5 -> 1.0
    let damage = flamethrower.effective_power(&[CreatureType::Fire], &defenders);
    // STAB = 1.5 -> total = 1.0 * 90 * 1.5 = 135
    assert_eq!(as_float(damage), 135.0);
}
