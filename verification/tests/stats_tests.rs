use creature_battle::stats::{BaseStats, IndividualStats, Stat, StatError};

#[test]
fn stat_creation() {
    let s = Stat::new(10).unwrap();
    assert_eq!(s.get(), 10);
    assert!(Stat::new(0).is_err());
}

#[test]
fn stat_out_of_range_reports_value() {
    match Stat::new(10001) {
        Err(StatError::OutOfRange { value }) => assert_eq!(value, 10001),
        Ok(_) => panic!("stat above the maximum must be rejected"),
    }
}

#[test]
fn basestats_creation() {
    let bs = BaseStats::new(10, 8, 30, 12).unwrap();
    assert_eq!(bs.attack(), 10);
    assert_eq!(bs.defense(), 8);
    assert_eq!(bs.max_hp(), 30);
    assert_eq!(bs.speed(), 12);
}

#[test]
fn individualstats_creation() {
    let bs = BaseStats::new(10, 8, 30, 12).unwrap();
    let ind = IndividualStats::from_base(&bs);
    assert_eq!(ind.attack.get(), 10);
    assert_eq!(ind.defense.get(), 8);
    assert_eq!(ind.max_hp.get(), 30);
    assert_eq!(ind.speed.get(), 12);
}
