use creature_battle::experience::{GrowthRate, Level};

fn level(n: u8) -> Level {
    Level::new(n).unwrap()
}

struct GrowthRateExpectation {
    rate: GrowthRate,
    level_2: u32,
    level_50: u32,
    level_100: u32,
}

const EXPECTATIONS: &[GrowthRateExpectation] = &[
    GrowthRateExpectation {
        rate: GrowthRate::Fast,
        level_2: 6,
        level_50: 100_000,
        level_100: 800_000,
    },
    GrowthRateExpectation {
        rate: GrowthRate::MediumFast,
        level_2: 8,
        level_50: 125_000,
        level_100: 1_000_000,
    },
    GrowthRateExpectation {
        rate: GrowthRate::MediumSlow,
        level_2: 9,
        level_50: 117_360,
        level_100: 1_059_860,
    },
    GrowthRateExpectation {
        rate: GrowthRate::Slow,
        level_2: 10,
        level_50: 156_250,
        level_100: 1_250_000,
    },
    GrowthRateExpectation {
        rate: GrowthRate::Erratic,
        level_2: 15,
        level_50: 125_000,
        level_100: 600_000,
    },
    GrowthRateExpectation {
        rate: GrowthRate::Fluctuating,
        level_2: 4,
        level_50: 142_500,
        level_100: 1_640_000,
    },
];

#[test]
fn growth_rates_match_expected_values() {
    for exp in EXPECTATIONS {
        assert_eq!(
            exp.rate.exp_for_level(level(2)),
            exp.level_2,
            "{:?} level 2 mismatch",
            exp.rate
        );
        assert_eq!(
            exp.rate.exp_for_level(level(50)),
            exp.level_50,
            "{:?} level 50 mismatch",
            exp.rate
        );
        assert_eq!(
            exp.rate.exp_for_level(level(100)),
            exp.level_100,
            "{:?} level 100 mismatch",
            exp.rate
        );
    }
}

#[test]
fn level_from_exp_matches_known_values() {
    for exp in EXPECTATIONS {
        assert_eq!(exp.rate.level_from_exp(0), level(1));
        assert_eq!(exp.rate.level_from_exp(exp.level_2), level(2));
        assert_eq!(exp.rate.level_from_exp(exp.level_50), level(50));
        assert_eq!(exp.rate.level_from_exp(exp.level_100), level(100));
    }
}

#[test]
fn level_from_xp_between_levels() {
    let rate = GrowthRate::Fast;

    let xp = rate.exp_for_level(level(10)) + 1;
    assert_eq!(rate.level_from_exp(xp), level(10));
}

#[test]
fn xp_to_next_level_behavior() {
    let rate = GrowthRate::MediumFast;

    let xp = rate.exp_for_level(level(10));
    let needed = rate.exp_to_next_level(level(10));

    assert_eq!(needed, Some(rate.exp_for_level(level(11)) - xp));
}

#[test]
fn cannot_level_past_max() {
    let rate = GrowthRate::Slow;
    assert_eq!(rate.exp_to_next_level(level(100)), None);
}

#[test]
fn growth_curves_strictly_increase() {
    let rates = [
        GrowthRate::Erratic,
        GrowthRate::Fast,
        GrowthRate::MediumFast,
        GrowthRate::MediumSlow,
        GrowthRate::Slow,
        GrowthRate::Fluctuating,
    ];
    for rate in rates {
        for l in 2..=100u8 {
            assert!(
                rate.exp_for_level(level(l)) > rate.exp_for_level(level(l - 1)),
                "{:?} not strictly increasing at level {}",
                rate,
                l
            );
        }
    }
}

#[test]
fn level_round_trips_through_experience() {
    for exp in EXPECTATIONS {
        for l in 1..=100u8 {
            let e = exp.rate.exp_for_level(level(l));
            assert_eq!(exp.rate.level_from_exp(e), level(l));
            if l > 1 {
                assert_eq!(exp.rate.level_from_exp(e - 1), level(l - 1));
            }
        }
    }
}
