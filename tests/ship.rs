use rocks::geometry::Vec2;
use rocks::motion::Moving;
use rocks::ship::{
    Cheat, ContactOutcome, InputState, Powerup, RespawnState, Ship, ShipTurn, ShipWeapon,
};

fn no_input() -> InputState {
    InputState {
        left: false,
        right: false,
        up: false,
        down: false,
        throttle: false,
        fire: false,
        ok: false,
        weapon_1: false,
        weapon_2: false,
        weapon_3: false,
        weapon_4: false,
        weapon_next: false,
        weapon_prev: false,
    }
}

#[test]
fn die_applies_penalty() {
    let mut ship = Ship::new();
    ship.weapon_rapid_level = 5;
    ship.weapon_spread_level = 2;
    ship.weapon_beam_level = 0;
    ship.weapon_plasma_level = 1;
    ship.shield_level = 3;
    ship.die();
    assert_eq!(ship.lives, 2);
    assert_eq!(ship.respawn_delay, 3000);
    assert_eq!(ship.invulnerability, 3000);
    assert_eq!(ship.weapon_rapid_level, 4);
    assert_eq!(ship.weapon_spread_level, 1);
    assert_eq!(ship.weapon_beam_level, 0);
    assert_eq!(ship.weapon_plasma_level, 0);
    assert_eq!(ship.shield_level, 0);
}

#[test]
fn die_keeps_floors() {
    let mut ship = Ship::new();
    ship.lives = 0;
    ship.weapon_rapid_level = 1;
    ship.die();
    assert_eq!(ship.lives, 0);
    assert_eq!(ship.weapon_rapid_level, 1);
}

#[test]
fn next_and_prev_weapon_skip_unowned() {
    let mut ship = Ship::new();
    ship.weapon_beam_level = 2;
    ship.weapon_plasma_level = 1;
    ship.next_weapon();
    assert_eq!(ship.weapon, ShipWeapon::Beam);
    ship.next_weapon();
    assert_eq!(ship.weapon, ShipWeapon::Plasma);
    ship.next_weapon();
    assert_eq!(ship.weapon, ShipWeapon::Rapid);
    ship.prev_weapon();
    assert_eq!(ship.weapon, ShipWeapon::Plasma);
    ship.prev_weapon();
    assert_eq!(ship.weapon, ShipWeapon::Beam);
}

#[test]
fn weapon_cycle_without_owned_weapons_falls_back_to_rapid() {
    let mut ship = Ship::new();
    ship.weapon_rapid_level = 0;
    ship.weapon = ShipWeapon::Spread;
    ship.next_weapon();
    assert_eq!(ship.weapon, ShipWeapon::Rapid);
}

#[test]
fn control_takes_intent() {
    let mut ship = Ship::new();
    ship.weapon_plasma_level = 1;
    let mut input = no_input();
    input.left = true;
    input.throttle = true;
    input.fire = true;
    input.weapon_4 = true;
    ship.control(&input);
    assert_eq!(ship.turn, ShipTurn::Left);
    assert!(ship.throttle && ship.fire);
    assert_eq!(ship.weapon, ShipWeapon::Plasma);
    assert_eq!(ship.turn_rate(), 3000);
    assert_eq!(ship.thrust(), 50000);

    let mut both = no_input();
    both.left = true;
    both.right = true;
    both.weapon_2 = true;
    ship.control(&both);
    assert_eq!(ship.turn, ShipTurn::Neutral);
    assert_eq!(ship.weapon, ShipWeapon::Plasma);
    assert_eq!(ship.turn_rate(), 0);
}

#[test]
fn control_while_waiting_only_stops_fire() {
    let mut ship = Ship::new();
    ship.fire = true;
    ship.respawn_delay = 500;
    let mut input = no_input();
    input.right = true;
    input.throttle = true;
    ship.control(&input);
    assert!(!ship.fire);
    assert!(!ship.throttle);
    assert_eq!(ship.turn, ShipTurn::Neutral);
}

#[test]
fn powerups_raise_figures() {
    let mut ship = Ship::new();
    assert_eq!(ship.collect(Powerup::Laser), "Laser +1");
    assert_eq!(ship.weapon_rapid_level, 2);
    assert_eq!(ship.collect(Powerup::Spread), "Spread +1");
    assert_eq!(ship.weapon_spread_level, 1);
    assert_eq!(ship.collect(Powerup::Beam), "Beam +1");
    assert_eq!(ship.weapon_beam_level, 1);
    assert_eq!(ship.collect(Powerup::Plasma), "Plasma +1");
    assert_eq!(ship.weapon_plasma_level, 1);
    assert_eq!(ship.collect(Powerup::ExtraLife), "1up");
    assert_eq!(ship.lives, 4);
    assert_eq!(ship.collect(Powerup::LoseLife), "-1up");
    assert_eq!(ship.lives, 3);
    assert_eq!(ship.collect(Powerup::Shield), "Shield +1");
    assert_eq!(ship.shield_level, 1);
}

#[test]
fn powerups_respect_caps() {
    let mut ship = Ship::new();
    ship.weapon_rapid_level = 8;
    ship.lives = 0;
    ship.collect(Powerup::Laser);
    ship.collect(Powerup::LoseLife);
    assert_eq!(ship.weapon_rapid_level, 8);
    assert_eq!(ship.lives, 0);
}

#[test]
fn powerup_from_index_in_order() {
    assert_eq!(Powerup::from_index(0), Powerup::Laser);
    assert_eq!(Powerup::from_index(4), Powerup::ExtraLife);
    assert_eq!(Powerup::from_index(6), Powerup::Shield);
}

#[test]
fn cheats_raise_figures() {
    let mut ship = Ship::new();
    ship.cheat(Cheat::Spread);
    ship.cheat(Cheat::Life);
    ship.cheat(Cheat::Shield);
    assert_eq!(ship.weapon_spread_level, 1);
    assert_eq!(ship.lives, 4);
    assert_eq!(ship.shield_level, 1);
    ship.weapon_beam_level = 8;
    ship.cheat(Cheat::Beam);
    assert_eq!(ship.weapon_beam_level, 8);
}

#[test]
fn respawn_cycle() {
    let mut ship = Ship::new();
    assert_eq!(ship.respawn_tick(16), RespawnState::Active);
    ship.die();
    assert_eq!(ship.respawn_tick(1000), RespawnState::Waiting);
    assert_eq!(ship.invulnerability, 100000);
    assert_eq!(ship.respawn_tick(1000), RespawnState::Waiting);
    assert_eq!(ship.respawn_tick(1000), RespawnState::Respawned);
    assert_eq!(ship.invulnerability, 3000);
    ship.lives = 0;
    assert_eq!(ship.respawn_tick(16), RespawnState::Gone);
}

#[test]
fn shield_absorbs_then_ship_dies() {
    let mut ship = Ship::new();
    ship.shield_level = 1;
    let ship_pos = Vec2::new(0, 0);
    let asteroid_pos = Vec2::new(20000, 0);
    let asteroid = Moving::from_velocity(Vec2::new(-10000, 0));
    let mut moving = Moving::from_velocity(Vec2::new(5000, 0));

    let first = ship.asteroid_contact(ship_pos, &mut moving, asteroid_pos, &asteroid);
    assert_eq!(first, ContactOutcome::Shielded);
    assert_eq!(ship.shield_level, 0);
    assert_eq!(ship.lives, 3);
    assert_eq!(moving.velocity, Vec2::new(-15000, 0));

    let mut again = Moving::from_velocity(Vec2::new(5000, 0));
    let second = ship.asteroid_contact(ship_pos, &mut again, asteroid_pos, &asteroid);
    assert_eq!(second, ContactOutcome::Destroyed);
    assert_eq!(ship.lives, 2);
    assert_eq!(ship.respawn_delay, 3000);
}

#[test]
fn parting_or_invulnerable_contact_is_ignored() {
    let mut ship = Ship::new();
    let mut moving = Moving::from_velocity(Vec2::new(-5000, 0));
    let asteroid = Moving::from_velocity(Vec2::new(0, 0));
    let r = ship.asteroid_contact(Vec2::new(0, 0), &mut moving, Vec2::new(20000, 0), &asteroid);
    assert_eq!(r, ContactOutcome::Ignored);
    assert_eq!(ship.lives, 3);
    ship.invulnerability = 10;
    let mut toward = Moving::from_velocity(Vec2::new(5000, 0));
    let r = ship.asteroid_contact(Vec2::new(0, 0), &mut toward, Vec2::new(20000, 0), &asteroid);
    assert_eq!(r, ContactOutcome::Ignored);
}

#[test]
fn ufo_contact_outcomes() {
    let mut ship = Ship::new();
    ship.shield_level = 1;
    let mut life = 20;
    assert_eq!(ship.ufo_contact(&mut life), ContactOutcome::Shielded);
    assert_eq!((life, ship.shield_level), (0, 0));
    assert_eq!(ship.ufo_contact(&mut life), ContactOutcome::Ignored);
    let mut other = 5;
    assert_eq!(ship.ufo_contact(&mut other), ContactOutcome::Destroyed);
    assert_eq!(ship.lives, 2);
}

#[test]
fn laser_contact_outcomes() {
    let mut ship = Ship::new();
    ship.shield_level = 1;
    let mut moving = Moving::from_velocity(Vec2::new(100, 0));
    let laser = Moving::from_velocity(Vec2::new(0, -500000));
    assert_eq!(ship.laser_contact(&mut moving, &laser), ContactOutcome::Shielded);
    assert_eq!(moving.velocity, Vec2::new(100, -50000));
    assert_eq!(ship.laser_contact(&mut moving, &laser), ContactOutcome::Destroyed);
    assert_eq!(ship.lives, 2);
    assert_eq!(ship.laser_contact(&mut moving, &laser), ContactOutcome::Ignored);
}

#[test]
fn sprite_follows_weapon_turn_and_throttle() {
    let mut ship = Ship::new();
    assert_eq!(ship.sprite_index(), 0);
    ship.throttle = true;
    assert_eq!(ship.sprite_index(), 1);
    ship.turn = ShipTurn::Right;
    ship.weapon = ShipWeapon::Plasma;
    assert_eq!(ship.sprite_index(), 23);
    ship.throttle = false;
    ship.turn = ShipTurn::Left;
    ship.weapon = ShipWeapon::Spread;
    assert_eq!(ship.sprite_index(), 8);
}
