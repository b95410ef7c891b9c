use chessboard::level::LevelCounter;

#[test]
fn starts_at_level_one() {
    let c = LevelCounter::new();
    assert_eq!(c.level, 1);
    assert_eq!(c.rem_ms, 0);
    assert_eq!(c.label, "Level 1");
}

#[test]
fn two_seconds_reach_level_two() {
    let mut c = LevelCounter::new();
    // 1.9 s in uneven frames: still level 1.
    c.tick(500);
    c.tick(700);
    c.tick(699);
    c.tick(1);
    assert_eq!(c.level, 1);
    assert_eq!(c.label, "Level 1");
    // The frame that crosses 2.0 s accumulated.
    c.tick(100);
    assert_eq!(c.level, 2);
    assert_eq!(c.label, "Level 2");
    // At 4.0 s total, level 3.
    c.tick(2000);
    assert_eq!(c.level, 3);
    assert_eq!(c.label, "Level 3");
}

#[test]
fn long_stall_fires_several_periods() {
    let mut c = LevelCounter::new();
    c.tick(20_500);
    assert_eq!(c.level, 11);
    assert_eq!(c.rem_ms, 500);
    assert_eq!(c.label, "Level 11");
}

#[test]
fn leftover_time_carries_over() {
    let mut c = LevelCounter::new();
    c.tick(2999);
    assert_eq!(c.level, 2);
    assert_eq!(c.rem_ms, 999);
    c.tick(1001);
    assert_eq!(c.level, 3);
    assert_eq!(c.rem_ms, 0);
}

#[test]
fn level_saturates_at_the_type_limit() {
    let mut c = LevelCounter::new();
    for _ in 0..3 {
        c.tick(u32::MAX);
    }
    let high = c.level;
    c.tick(u32::MAX);
    assert!(c.level >= high);
    assert!(c.level <= u32::MAX);
    assert_eq!(c.label, format!("Level {}", c.level));
}

#[test]
fn label_always_matches_level() {
    let mut c = LevelCounter::new();
    let deltas = [0, 1, 1999, 2000, 123, 5877, 60_000];
    for &d in deltas.iter() {
        c.tick(d);
        assert_eq!(c.label, format!("Level {}", c.level));
        assert!(c.rem_ms < 2000);
    }
}
