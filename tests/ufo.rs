use rocks::combat::{sparks, spark_velocity};
use rocks::geometry::Vec2;
use rocks::level::{Level, Score};
use rocks::ufo::{aim_error, NextUfoScore, Ufo, UFO_LIFE};

#[test]
fn destroyed_ufo_leaves_one_wreck_and_fixed_score() {
    let mut ufo = Ufo::spawn(&Level(0), false, false, Vec2::new(100000, 0), 1000, 20000);
    let mut score = Score(450);
    assert!(ufo.wreck(&mut score).is_none());
    assert_eq!(score.value(), 450);
    ufo.life = 0;
    let wreck = ufo.wreck(&mut score).expect("wrecked");
    assert_eq!(wreck.score, 100);
    assert_eq!(score.value(), 550);
    assert!((30000..=80000).contains(&wreck.speed));
    assert!((0..6283).contains(&wreck.heading));
}

#[test]
fn spawn_enters_on_an_edge_and_leaves_opposite() {
    let level = Level(20);
    let top = Ufo::spawn(&level, false, false, Vec2::new(120000, 7), 2500, 50000);
    assert_eq!(top.start_position, Vec2::new(120000, 240000));
    assert_eq!(top.end_position, Vec2::new(-120000, -240000));
    assert_eq!(top.duration, 15000);
    assert_eq!(top.shoot_delay, 2500);
    assert_eq!(top.shoot_accuracy, 699);
    assert_eq!(top.life, UFO_LIFE);
    assert_eq!(top.time, 0);
    let right = Ufo::spawn(&level, true, false, Vec2::new(1, 300000), 0, 10000);
    assert_eq!(right.start_position, Vec2::new(400000, 300000));
    let bottom = Ufo::spawn(&level, false, true, Vec2::new(5, 9), 0, 10000);
    assert_eq!(bottom.start_position, Vec2::new(5, -240000));
    let left = Ufo::spawn(&level, true, true, Vec2::new(5, 9), 0, 10000);
    assert_eq!(left.start_position, Vec2::new(-400000, 9));
}

#[test]
fn random_spawn_within_ranges() {
    for _ in 0..50 {
        let u = Ufo::spawn_random(&Level(3));
        assert!((0..=5000).contains(&u.frequency));
        assert!((10000..=100000).contains(&u.amplitude));
        assert_eq!(u.end_position, Vec2::new(-u.start_position.x, -u.start_position.y));
        assert!(u.start_position.x.abs() == 400000 || u.start_position.y.abs() == 240000);
    }
}

#[test]
fn ufo_flies_off_when_crossing_ends() {
    let mut ufo = Ufo::spawn(&Level(40), false, false, Vec2::new(0, 0), 0, 10000);
    assert_eq!(ufo.duration, 10000);
    for _ in 0..9 {
        assert!(!ufo.advance(1000));
    }
    assert_eq!(ufo.progress(), 900);
    assert!(ufo.advance(1000));
    assert_eq!(ufo.progress(), 1000);
}

#[test]
fn ufo_shoots_when_delay_runs_out() {
    let mut ufo = Ufo::spawn(&Level(0), false, false, Vec2::new(0, 0), 0, 10000);
    assert_eq!(ufo.shoot_tick(1000), None);
    assert_eq!(ufo.shoot_delay, 2000);
    assert_eq!(ufo.shoot_tick(1000), None);
    let err = ufo.shoot_tick(1000).expect("fired");
    assert!(err.abs() <= 629);
    assert_eq!(ufo.shoot_delay, 2000);
}

#[test]
fn aim_error_scales_with_inaccuracy() {
    assert_eq!(aim_error(600, 1000), 628);
    assert_eq!(aim_error(600, 0), -629);
    assert_eq!(aim_error(600, 500), 0);
    assert_eq!(aim_error(1000, 0), 0);
}

#[test]
fn next_ufo_threshold() {
    let first = NextUfoScore::new();
    assert!((2000..=5000).contains(&first.0));
    let mut next = NextUfoScore(1000);
    assert!(!next.bump(999));
    assert_eq!(next, NextUfoScore(1000));
    assert!(next.bump(1200));
    assert!((3200..=6200).contains(&next.0));
    let mut last = NextUfoScore(10);
    assert!(last.bump(u32::MAX));
    assert_eq!(last.0, u32::MAX);
}

#[test]
fn sparks_fly_outward() {
    let s = sparks(Vec2::new(3000, 0), Vec2::new(0, 0));
    assert_eq!(s.len(), 10);
    for v in s.iter() {
        assert!(v.x >= 10000 && v.x <= 100000);
        assert!(v.y.abs() <= 50000);
    }
    assert!(sparks(Vec2::new(7, 7), Vec2::new(7, 7)).is_empty());
}

#[test]
fn spark_velocity_bends_sideways() {
    assert_eq!(spark_velocity(Vec2::new(1000, 0), 500, 10000), Vec2::new(10000, 5000));
    assert_eq!(spark_velocity(Vec2::new(0, 1000), -500, 20000), Vec2::new(10000, 20000));
}

#[test]
fn bump_moves_threshold_by_one_interval() {
    for _ in 0..50 {
        let mut next = NextUfoScore(100);
        assert!(next.bump(1_000_000));
        assert!((1_002_000..=1_005_000).contains(&next.0));
    }
}
