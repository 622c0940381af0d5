use rocks::ship::{Ship, ShipWeapon};
use rocks::weapon::{fan, Beam, FireOrder, ShipProjectile};

fn armed(weapon: ShipWeapon, level: u8) -> Ship {
    let mut ship = Ship::new();
    ship.weapon = weapon;
    match weapon {
        ShipWeapon::Rapid => ship.weapon_rapid_level = level,
        ShipWeapon::Spread => ship.weapon_spread_level = level,
        ShipWeapon::Beam => ship.weapon_beam_level = level,
        ShipWeapon::Plasma => ship.weapon_plasma_level = level,
    }
    ship.fire = true;
    ship
}

#[test]
fn rapid_fire_sets_cooldown_by_level() {
    let mut beam = Beam::new();
    let mut ship = armed(ShipWeapon::Rapid, 1);
    assert_eq!(ship.weapon_step(16, &mut beam), FireOrder::Rapid);
    assert_eq!(ship.weapon_cooldown, 300);
    let mut ship = armed(ShipWeapon::Rapid, 8);
    assert_eq!(ship.weapon_step(16, &mut beam), FireOrder::Rapid);
    assert_eq!(ship.weapon_cooldown, 81);
}

#[test]
fn cooldown_gates_fire() {
    let mut beam = Beam::new();
    let mut ship = armed(ShipWeapon::Rapid, 1);
    ship.weapon_cooldown = 100;
    assert_eq!(ship.weapon_step(50, &mut beam), FireOrder::Hold);
    assert_eq!(ship.weapon_cooldown, 50);
    assert_eq!(ship.weapon_step(50, &mut beam), FireOrder::Rapid);
}

#[test]
fn invulnerability_counts_down_to_zero() {
    let mut beam = Beam::new();
    let mut ship = Ship::new();
    ship.invulnerability = 30;
    ship.weapon_step(16, &mut beam);
    assert_eq!(ship.invulnerability, 14);
    ship.weapon_step(16, &mut beam);
    assert_eq!(ship.invulnerability, 0);
}

#[test]
fn spread_fires_a_centred_fan() {
    let mut beam = Beam::new();
    let mut ship = armed(ShipWeapon::Spread, 1);
    assert_eq!(ship.weapon_step(16, &mut beam), FireOrder::Spread { angles: vec![-157, 0, 157] });
    assert_eq!(ship.weapon_cooldown, 800);
    let mut ship = armed(ShipWeapon::Spread, 3);
    match ship.weapon_step(16, &mut beam) {
        FireOrder::Spread { angles } => assert_eq!(angles.len(), 7),
        other => panic!("unexpected {:?}", other),
    }
}

#[test]
fn fan_angles() {
    assert_eq!(fan(1000, 5), vec![-500, -250, 0, 250, 500]);
}

#[test]
fn plasma_power_by_level() {
    let mut beam = Beam::new();
    let mut ship = armed(ShipWeapon::Plasma, 1);
    assert_eq!(ship.weapon_step(16, &mut beam), FireOrder::Plasma { power: 4000 });
    assert_eq!(ship.weapon_cooldown, 1200);
    let mut ship = armed(ShipWeapon::Plasma, 8);
    assert_eq!(ship.weapon_step(16, &mut beam), FireOrder::Plasma { power: 18000 });
    assert_eq!(ship.weapon_cooldown, 850);
}

#[test]
fn beam_extends_while_firing() {
    let mut beam = Beam { length: 0, max_length: 200000, sustained: 0, cooldown: 0, active: false };
    let mut ship = armed(ShipWeapon::Beam, 4);
    assert_eq!(ship.weapon_step(100, &mut beam), FireOrder::Beam);
    assert!(beam.active);
    assert_eq!(beam.sustained, 100);
    assert_eq!(beam.length, 40000);
    for _ in 0..10 {
        ship.weapon_step(100, &mut beam);
    }
    assert_eq!(beam.length, beam.max_length);
    assert!(beam.max_length < 200000);
}

#[test]
fn beam_retracts_then_recharges_to_ceiling() {
    let mut beam = Beam { length: 150000, max_length: 160000, sustained: 900, cooldown: 0, active: true };
    let mut ship = armed(ShipWeapon::Beam, 2);
    ship.fire = false;
    assert_eq!(ship.weapon_step(100, &mut beam), FireOrder::Hold);
    assert!(!beam.active);
    assert_eq!(beam.length, 50000);
    ship.weapon_step(100, &mut beam);
    assert_eq!(beam.length, 0);
    assert_eq!(beam.sustained, 900);
    ship.weapon_step(100, &mut beam);
    assert_eq!(beam.sustained, 0);
    assert_eq!(beam.max_length, 150000);
}

#[test]
fn beam_ceiling_holds_for_any_recharge() {
    let ceiling = 100000 + 25000 * 3;
    let mut beam = Beam::new();
    for _ in 0..1000 {
        beam.idle(1000, 3);
        assert!(beam.max_length <= ceiling);
    }
    assert_eq!(beam.max_length, ceiling);
}

#[test]
fn beam_strike_clamps_length_and_ticks_damage() {
    let mut beam = Beam { length: 90000, max_length: 100000, sustained: 0, cooldown: 0, active: true };
    let mut integrity = 5;
    assert!(beam.strike(&mut integrity, 30000));
    assert_eq!(beam.length, 30000);
    assert_eq!(integrity, 4);
    assert_eq!(beam.cooldown, 100);
    assert!(!beam.strike(&mut integrity, 250000));
    assert_eq!(beam.length, 100000);
    assert_eq!(integrity, 4);
    beam.active = false;
    beam.cooldown = 0;
    assert!(!beam.strike(&mut integrity, 10));
    assert_eq!(integrity, 4);
    assert_eq!(beam.line_delta().y, 100000);
}

#[test]
fn rapid_shot_takes_one_point() {
    let mut p = ShipProjectile::Rapid;
    let mut integrity = 1;
    assert!(p.strike(&mut integrity, -100));
    assert_eq!(integrity, 0);
    let mut s = ShipProjectile::Spread;
    assert!(s.strike(&mut integrity, -100));
    assert_eq!(integrity, 0);
}

#[test]
fn plasma_spends_power_on_overlap() {
    let mut p = ShipProjectile::Plasma { power: 4000 };
    let mut integrity = 5;
    assert!(!p.strike(&mut integrity, -1500));
    assert_eq!(p, ShipProjectile::Plasma { power: 2500 });
    assert_eq!(integrity, 3);
    assert!(!p.strike(&mut integrity, 200));
    assert_eq!(p, ShipProjectile::Plasma { power: 2500 });
    assert!(p.strike(&mut integrity, -2600));
    assert_eq!(p, ShipProjectile::Plasma { power: -100 });
    assert_eq!(integrity, 0);
}

#[test]
fn plasma_effect_limited_by_integrity() {
    let mut p = ShipProjectile::Plasma { power: 8000 };
    let mut integrity = 1;
    assert!(!p.strike(&mut integrity, -3000));
    assert_eq!(p, ShipProjectile::Plasma { power: 7000 });
    assert_eq!(integrity, 0);
    assert!(!p.strike(&mut integrity, -3000));
    assert_eq!(p, ShipProjectile::Plasma { power: 7000 });
}

#[test]
fn plasma_power_never_grows() {
    let mut p = ShipProjectile::Plasma { power: 20000 };
    let mut integrity = 50;
    let mut last = 20000;
    for d in [-100i64, 300, -5000, -4000, -1, -9000, -9000] {
        let spent = p.strike(&mut integrity, d);
        let ShipProjectile::Plasma { power } = p else { panic!() };
        assert!(power <= last);
        assert_eq!(spent, power <= 0);
        last = power;
        if spent {
            break;
        }
    }
}

#[test]
fn spread_at_level_zero_fires_one_shot_ahead() {
    let mut beam = Beam::new();
    let mut ship = armed(ShipWeapon::Spread, 0);
    assert_eq!(ship.weapon_step(16, &mut beam), FireOrder::Spread { angles: vec![0] });
    assert_eq!(fan(314, 1), vec![0]);
}

#[test]
fn collision_radius_follows_plasma_power() {
    assert_eq!(ShipProjectile::Plasma { power: 2500 }.collision_radius(), 2500);
    assert_eq!(ShipProjectile::Plasma { power: -100 }.collision_radius(), 0);
    assert_eq!(ShipProjectile::Rapid.collision_radius(), 1000);
    assert_eq!(ShipProjectile::Spread.collision_radius(), 1000);
    assert_eq!(ShipProjectile::Beam.collision_radius(), 0);
}
