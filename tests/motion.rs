use rocks::geometry::Vec2;
use rocks::motion::{animation_frame, wrap_position, Expiring, Fading, Moving, Scaling, Spinning};

#[test]
fn semi_implicit_euler_step() {
    let mut m = Moving { velocity: Vec2::new(1000, 0), acceleration: Vec2::new(0, 2000) };
    let mut pos = Vec2::new(10, 20);
    m.integrate(&mut pos, 500);
    assert_eq!(m.velocity, Vec2::new(1000, 1000));
    assert_eq!(pos, Vec2::new(510, 520));
}

#[test]
fn resting_body_stays() {
    let mut m = Moving::new();
    let mut pos = Vec2::new(-3, 4);
    m.integrate(&mut pos, 16);
    assert_eq!(pos, Vec2::new(-3, 4));
}

#[test]
fn world_wraps_each_axis() {
    let mut p = Vec2::new(400001, -240001);
    wrap_position(&mut p);
    assert_eq!(p, Vec2::new(-399999, 239999));
    let mut q = Vec2::new(400000, 10);
    wrap_position(&mut q);
    assert_eq!(q, Vec2::new(400000, 10));
}

#[test]
fn spin_turns_and_wraps() {
    let s = Spinning { speed: 1000 };
    assert_eq!(s.advance(100, 500), 600);
    assert_eq!(s.advance(6000, 500), 217);
    let back = Spinning { speed: -500 };
    assert_eq!(back.advance(100, 1000), 5883);
}

#[test]
fn expiry_after_life_passes_zero() {
    let mut e = Expiring { life: 20 };
    assert!(!e.tick(16));
    assert!(!e.tick(4));
    assert!(e.tick(1));
}

#[test]
fn tweens_interpolate_and_hold_end() {
    let mut s = Scaling { from: 1000, to: 2000, duration: 1000, elapsed: 0 };
    assert_eq!(s.advance(500), 1500);
    assert_eq!(s.advance(1000), 2000);
    let mut f = Fading { from: 500, to: 0, duration: 1000, elapsed: 0 };
    assert_eq!(f.advance(250), 375);
    let mut instant = Fading { from: 500, to: 0, duration: 0, elapsed: 0 };
    assert_eq!(instant.advance(16), 0);
}

#[test]
fn animation_frames_hold_or_loop() {
    assert_eq!(animation_frame(0, 2000, 11, false), 0);
    assert_eq!(animation_frame(1000, 2000, 11, false), 5);
    assert_eq!(animation_frame(5000, 2000, 11, false), 10);
    assert_eq!(animation_frame(2500, 2000, 11, true), 2);
    assert_eq!(animation_frame(300, 2000, 1, true), 0);
}
