use rocks::asteroid::AsteroidSize::{self, Large, Medium, Small, Tiny};
use rocks::level::{Bounds, Level, Score};
use rocks::progress::{frame_stages, gameover_tick, level_finished, new_game, Countdown, Stage};

fn total_cost(sizes: &[AsteroidSize]) -> u32 {
    sizes.iter().map(|s| s.cost()).sum()
}

#[test]
fn size_costs_double() {
    assert_eq!(Tiny.cost(), 1);
    assert_eq!(Small.cost(), 2);
    assert_eq!(Medium.cost(), 4);
    assert_eq!(Large.cost(), 8);
    for s in [Small, Medium, Large] {
        assert_eq!(s.cost(), 2 * s.smaller().unwrap().cost());
        assert_eq!(s.cost(), 1 << s.ordinal_of());
    }
}

#[test]
fn first_level_has_two_large_asteroids() {
    let level = Level(0);
    assert_eq!(level.asteroid_sizes(), vec![Large]);
    assert_eq!(level.asteroids(), vec![Large, Large]);
}

#[test]
fn allocation_cycles_through_allowed_sizes() {
    assert_eq!(
        Level(5).asteroids(),
        vec![Large, Medium, Large, Medium, Large, Medium, Large, Medium, Large]
    );
}

#[test]
fn allocation_fills_remainder_with_tiny() {
    assert_eq!(
        Level(6).asteroids(),
        vec![
            Large, Medium, Large, Medium, Large, Medium, Large, Medium, Large, Medium, Tiny, Tiny,
            Tiny, Tiny
        ]
    );
}

#[test]
fn allocation_spends_exact_budget() {
    for n in 0..60u32 {
        let sizes = Level(n).asteroids();
        assert_eq!(total_cost(&sizes), (n % 20 + 2) * 8, "level {}", n);
    }
}

#[test]
fn allowed_sizes_widen_with_level() {
    assert_eq!(Level(4).asteroid_sizes(), vec![Large]);
    assert_eq!(Level(5).asteroid_sizes(), vec![Large, Medium]);
    assert_eq!(Level(9).asteroid_sizes(), vec![Large, Medium, Small]);
    assert_eq!(Level(13).asteroid_sizes(), vec![Large, Medium, Small, Tiny]);
    assert_eq!(Level(100).asteroid_sizes(), vec![Large, Medium, Small, Tiny]);
}

#[test]
fn level_figures() {
    let mut level = Level(0);
    assert_eq!(level.number(), 1);
    level.increment();
    assert_eq!(level, Level(1));
    assert_eq!(Level(0).asteroid_frag_count(), 2);
    assert_eq!(Level(20).asteroid_frag_count(), 3);
    assert_eq!(Level(13).asteroid_variant(), 3);
    assert_eq!(Level(7).background_image(), 3);
    assert_eq!(Level(0).asteroid_distance_bounds(), Bounds { lo: 100000, hi: 200000 });
}

#[test]
fn difficulty_curves_saturate() {
    assert_eq!(Level(0).asteroid_speed_bounds(), Bounds { lo: 10000, hi: 20000 });
    assert_eq!(Level(20).asteroid_speed_bounds(), Bounds { lo: 15000, hi: 40000 });
    assert_eq!(Level(40).asteroid_speed_bounds(), Bounds { lo: 20000, hi: 60000 });
    assert_eq!(Level(90).asteroid_speed_bounds(), Bounds { lo: 20000, hi: 60000 });
    assert_eq!(Level(0).ufo_duration(), 20000);
    assert_eq!(Level(20).ufo_duration(), 15000);
    assert_eq!(Level(40).ufo_duration(), 10000);
    assert_eq!(Level(0).ufo_shoot_delay(), 3000);
    assert_eq!(Level(30).ufo_shoot_delay(), 2250);
    assert_eq!(Level(60).ufo_shoot_delay(), 1500);
    assert_eq!(Level(0).ufo_shoot_accuracy(), 600);
    assert_eq!(Level(30).ufo_shoot_accuracy(), 750);
    assert_eq!(Level(99).ufo_shoot_accuracy(), 900);
}

#[test]
fn score_only_grows() {
    let mut score = Score(10);
    score.increase(200);
    assert_eq!(score.value(), 210);
    score.increase(u32::MAX);
    assert_eq!(score.value(), u32::MAX);
}

#[test]
fn new_game_resets_level_and_score() {
    let mut level = Level(7);
    let mut score = Score(900);
    new_game(&mut level, &mut score);
    assert_eq!((level, score), (Level(0), Score(0)));
}

#[test]
fn cleared_level_moves_on() {
    let mut level = Level(3);
    assert!(!level_finished(2, &mut level));
    assert_eq!(level, Level(3));
    assert!(level_finished(0, &mut level));
    assert_eq!(level, Level(4));
}

#[test]
fn game_over_after_delay() {
    let mut timer: Option<Countdown> = None;
    assert!(!gameover_tick(1, &mut timer, 16));
    assert!(timer.is_none());
    assert!(!gameover_tick(0, &mut timer, 16));
    assert_eq!(timer, Some(Countdown::new(3000)));
    assert!(!gameover_tick(0, &mut timer, 1000));
    assert!(!gameover_tick(0, &mut timer, 1000));
    assert!(gameover_tick(0, &mut timer, 1000));
    assert!(timer.is_none());
}

#[test]
fn countdown_fires_once() {
    let mut c = Countdown::new(100);
    assert!(!c.tick(60));
    assert!(c.tick(60));
    assert!(!c.tick(60));
}

#[test]
fn frame_stages_run_in_pipeline_order() {
    assert_eq!(
        frame_stages(),
        vec![
            Stage::Control,
            Stage::Integrate,
            Stage::RefreshShapes,
            Stage::ResolveCollisions,
            Stage::Lifecycle,
            Stage::Expiry,
            Stage::Progression,
        ]
    );
    assert_eq!(Stage::Lifecycle.next(), Some(Stage::Expiry));
    assert_eq!(Stage::Progression.next(), None);
}

#[test]
fn budget_shortfall_spends_the_rest_as_tiny() {
    let mut expected = Vec::new();
    for _ in 0..6 {
        expected.extend([Large, Medium, Small]);
    }
    expected.extend([Tiny, Tiny, Tiny, Tiny]);
    assert_eq!(Level(9).asteroids(), expected);
}

#[test]
fn tiny_run_follows_first_shortfall() {
    for n in 0..60u32 {
        let sizes = Level(n).asteroids();
        let allowed = Level(n).asteroid_sizes();
        let k = (0..sizes.len())
            .find(|&i| sizes[i] != allowed[i % allowed.len()])
            .unwrap_or(sizes.len());
        assert!(sizes[k..].iter().all(|s| *s == Tiny), "level {}", n);
    }
}
