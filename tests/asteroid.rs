use rocks::asteroid::{Asteroid, AsteroidSize, Fragment};
use rocks::combat::asteroid_bounce;
use rocks::geometry::Vec2;
use rocks::level::{Level, Score};
use rocks::motion::Moving;
use rocks::weapon::ShipProjectile;

#[test]
fn fresh_integrity_by_size() {
    assert_eq!(Asteroid::new(AsteroidSize::Tiny, 0).integrity, 1);
    assert_eq!(Asteroid::new(AsteroidSize::Small, 0).integrity, 5);
    assert_eq!(Asteroid::new(AsteroidSize::Medium, 0).integrity, 9);
    assert_eq!(Asteroid::new(AsteroidSize::Large, 0).integrity, 13);
}

#[test]
fn size_radii_and_scores() {
    assert_eq!(AsteroidSize::Tiny.radius(), 4000);
    assert_eq!(AsteroidSize::Large.radius(), 24000);
    assert_eq!(AsteroidSize::Tiny.score(), 50);
    assert_eq!(AsteroidSize::Small.score(), 100);
    assert_eq!(AsteroidSize::Medium.score(), 150);
    assert_eq!(AsteroidSize::Large.score(), 200);
    assert_eq!(AsteroidSize::Tiny.smaller(), None);
    assert_eq!(AsteroidSize::Large.smaller(), Some(AsteroidSize::Medium));
}

#[test]
fn large_asteroid_destroyed_by_rapid_shot() {
    let mut asteroid = Asteroid { size: AsteroidSize::Large, integrity: 1, variant: 4 };
    let mut shot = ShipProjectile::Rapid;
    assert!(shot.strike(&mut asteroid.integrity, -10));
    assert_eq!(asteroid.integrity, 0);
    let mut score = Score(0);
    let d = asteroid.destroy(&Level(0)).expect("destroyed");
    score.increase(d.score);
    assert_eq!(score.value(), 200);
    assert!(d.loud);
    assert_eq!(d.effect_scale, 1000);
    assert_eq!(
        d.fragments,
        vec![
            Fragment { size: AsteroidSize::Medium, variant: 4, angle: 0 },
            Fragment { size: AsteroidSize::Medium, variant: 4, angle: 3141 },
        ]
    );
}

#[test]
fn tiny_asteroid_leaves_no_fragments() {
    let mut asteroid = Asteroid::new(AsteroidSize::Tiny, 2);
    let mut shot = ShipProjectile::Spread;
    shot.strike(&mut asteroid.integrity, 0);
    let d = asteroid.destroy(&Level(40)).expect("destroyed");
    assert_eq!(d.score, 50);
    assert!(!d.loud);
    assert_eq!(d.effect_scale, 166);
    assert!(d.fragments.is_empty());
}

#[test]
fn intact_asteroid_is_not_destroyed() {
    let asteroid = Asteroid::new(AsteroidSize::Small, 0);
    assert!(asteroid.destroy(&Level(0)).is_none());
}

#[test]
fn fragment_count_follows_level() {
    let asteroid = Asteroid { size: AsteroidSize::Small, integrity: -3, variant: 1 };
    let d = asteroid.destroy(&Level(45)).expect("destroyed");
    assert_eq!(d.fragments.len(), 4);
    let angles: Vec<i64> = d.fragments.iter().map(|f| f.angle).collect();
    assert_eq!(angles, vec![0, 1570, 3141, 4712]);
    assert!(d.fragments.iter().all(|f| f.size == AsteroidSize::Tiny && f.variant == 1));
}

#[test]
fn approaching_asteroids_bounce_apart() {
    let mut a = Moving::from_velocity(Vec2::new(3000, 4000));
    let mut b = Moving::from_velocity(Vec2::new(-6000, 0));
    assert!(asteroid_bounce(Vec2::new(0, 0), &mut a, Vec2::new(10000, 0), &mut b));
    assert_eq!(a.velocity, Vec2::new(-5000, 0));
    assert_eq!(b.velocity, Vec2::new(6000, 0));
}

#[test]
fn parting_asteroids_do_not_bounce() {
    let mut a = Moving::from_velocity(Vec2::new(-3000, 0));
    let mut b = Moving::from_velocity(Vec2::new(6000, 0));
    assert!(!asteroid_bounce(Vec2::new(0, 0), &mut a, Vec2::new(10000, 0), &mut b));
    assert_eq!(a.velocity, Vec2::new(-3000, 0));
    assert_eq!(b.velocity, Vec2::new(6000, 0));
}

#[test]
fn coincident_asteroids_are_left_alone() {
    let mut a = Moving::from_velocity(Vec2::new(0, 0));
    let mut b = Moving::from_velocity(Vec2::new(0, 0));
    assert!(!asteroid_bounce(Vec2::new(5, 5), &mut a, Vec2::new(5, 5), &mut b));
}
