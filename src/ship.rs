//! The player's ship: control intents, weapon selection, pickups, death and
//! respawn.
use vstd::prelude::*;

verus! {

/// Highest level of any weapon.
pub const MAX_WEAPON_LEVEL: u8 = 8;

/// Milliseconds a destroyed ship waits before it respawns.
pub const SHIP_RESPAWN_DELAY: i64 = 3000;

/// Milliseconds of invulnerability after a respawn.
pub const SHIP_INVULNERABILITY: i64 = 3000;

/// Invulnerability held while the ship waits to respawn.
pub const WAITING_INVULNERABILITY: i64 = 100000;

/// Largest magnitude of a ship timer.
pub const TIMER_MAX: i64 = 1000000;

/// Longest frame, in milliseconds.  Every timed step takes the frame's time
/// delta, which the simulation bounds to one second per frame.
pub const MAX_FRAME: i64 = 1000;

#[derive(Clone, Copy, Debug, PartialEq, Eq, Structural)]
pub enum ShipWeapon {
    Rapid,
    Spread,
    Beam,
    Plasma,
}

#[derive(Clone, Copy, Debug, PartialEq, Eq, Structural)]
pub enum ShipTurn {
    Neutral,
    Left,
    Right,
}

/// The abstract input of one frame.
#[derive(Clone, Copy, Debug, PartialEq, Eq, Structural)]
pub struct InputState {
    pub left: bool,
    pub right: bool,
    pub up: bool,
    pub down: bool,
    pub throttle: bool,
    pub fire: bool,
    pub ok: bool,
    pub weapon_1: bool,
    pub weapon_2: bool,
    pub weapon_3: bool,
    pub weapon_4: bool,
    pub weapon_next: bool,
    pub weapon_prev: bool,
}

/// A pickup dropped by a destroyed UFO.
#[derive(Clone, Copy, Debug, PartialEq, Eq, Structural)]
pub enum Powerup {
    Laser,
    Spread,
    Beam,
    Plasma,
    ExtraLife,
    LoseLife,
    Shield,
}

/// A cheat key that raises one of the ship's figures.
#[derive(Clone, Copy, Debug, PartialEq, Eq, Structural)]
pub enum Cheat {
    Rapid,
    Spread,
    Beam,
    Plasma,
    Shield,
    Life,
}

/// What became of the ship when something touched it.
#[derive(Clone, Copy, Debug, PartialEq, Eq, Structural)]
pub enum ContactOutcome {
    /// Nothing happened: the ship is invulnerable, or the two are parting.
    Ignored,
    /// A shield charge took the blow.
    Shielded,
    /// The ship was destroyed.
    Destroyed,
}

/// Where the ship stands in its respawn cycle after a frame.
#[derive(Clone, Copy, Debug, PartialEq, Eq, Structural)]
pub enum RespawnState {
    /// Flying.
    Active,
    /// Destroyed, waiting to come back; hidden.
    Waiting,
    /// Back this frame: placed at the centre, at rest.
    Respawned,
    /// Out of lives; hidden.
    Gone,
}

#[derive(Clone, Copy, Debug, PartialEq, Eq, Structural)]
pub struct Ship {
    pub throttle: bool,
    pub turn: ShipTurn,
    pub fire: bool,
    pub weapon: ShipWeapon,
    pub weapon_rapid_level: u8,
    pub weapon_spread_level: u8,
    pub weapon_beam_level: u8,
    pub weapon_plasma_level: u8,
    /// Milliseconds until the weapon may fire again.
    pub weapon_cooldown: i64,
    pub shield_level: u8,
    pub lives: u8,
    /// Milliseconds of invulnerability left.
    pub invulnerability: i64,
    /// Milliseconds until a destroyed ship comes back.
    pub respawn_delay: i64,
}

/// One less, not below zero.
pub open spec fn dec_spec(v: u8) -> u8 {
    if v > 0 {
        (v - 1) as u8
    } else {
        0
    }
}

/// One more, not above `cap`.
pub open spec fn inc_to_spec(v: u8, cap: u8) -> u8 {
    if v < cap {
        (v + 1) as u8
    } else {
        v
    }
}

/// The weapon at position `i` of the cycle Rapid, Spread, Beam, Plasma.
pub open spec fn weapon_at(i: int) -> ShipWeapon {
    let k = i % 4;
    if k == 0 {
        ShipWeapon::Rapid
    } else if k == 1 {
        ShipWeapon::Spread
    } else if k == 2 {
        ShipWeapon::Beam
    } else {
        ShipWeapon::Plasma
    }
}

pub open spec fn weapon_index(w: ShipWeapon) -> int {
    match w {
        ShipWeapon::Rapid => 0,
        ShipWeapon::Spread => 1,
        ShipWeapon::Beam => 2,
        ShipWeapon::Plasma => 3,
    }
}

fn dec(v: u8) -> (r: u8)
    ensures
        r == dec_spec(v),
{
    if v > 0 {
        v - 1
    } else {
        0
    }
}

fn inc_to(v: u8, cap: u8) -> (r: u8)
    ensures
        r == inc_to_spec(v, cap),
{
    if v < cap {
        v + 1
    } else {
        v
    }
}

fn weapon_at_exec(i: u32) -> (r: ShipWeapon)
    ensures
        r == weapon_at(i as int),
{
    let k: u32 = i % 4;
    if k == 0 {
        ShipWeapon::Rapid
    } else if k == 1 {
        ShipWeapon::Spread
    } else if k == 2 {
        ShipWeapon::Beam
    } else {
        ShipWeapon::Plasma
    }
}

impl ShipWeapon {
    pub fn index(&self) -> (r: u32)
        ensures
            r == weapon_index(*self),
    {
        match self {
            ShipWeapon::Rapid => 0,
            ShipWeapon::Spread => 1,
            ShipWeapon::Beam => 2,
            ShipWeapon::Plasma => 3,
        }
    }
}

impl Powerup {
    pub open spec fn from_index_spec(i: int) -> Powerup {
        if i == 0 {
            Powerup::Laser
        } else if i == 1 {
            Powerup::Spread
        } else if i == 2 {
            Powerup::Beam
        } else if i == 3 {
            Powerup::Plasma
        } else if i == 4 {
            Powerup::ExtraLife
        } else if i == 5 {
            Powerup::LoseLife
        } else {
            Powerup::Shield
        }
    }

    /// The pickup numbered `i` in the order the variants are declared.
    pub fn from_index(i: u32) -> (r: Powerup)
        requires
            i < 7,
        ensures
            r == Powerup::from_index_spec(i as int),
    {
        if i == 0 {
            Powerup::Laser
        } else if i == 1 {
            Powerup::Spread
        } else if i == 2 {
            Powerup::Beam
        } else if i == 3 {
            Powerup::Plasma
        } else if i == 4 {
            Powerup::ExtraLife
        } else if i == 5 {
            Powerup::LoseLife
        } else {
            Powerup::Shield
        }
    }

    /// The notice shown when the pickup is collected.
    pub fn label(&self) -> (r: &'static str)
        ensures
            *self == Powerup::Laser ==> r@ == "Laser +1"@,
            *self == Powerup::Spread ==> r@ == "Spread +1"@,
            *self == Powerup::Beam ==> r@ == "Beam +1"@,
            *self == Powerup::Plasma ==> r@ == "Plasma +1"@,
            *self == Powerup::ExtraLife ==> r@ == "1up"@,
            *self == Powerup::LoseLife ==> r@ == "-1up"@,
            *self == Powerup::Shield ==> r@ == "Shield +1"@,
    {
        match self {
            Powerup::Laser => "Laser +1",
            Powerup::Spread => "Spread +1",
            Powerup::Beam => "Beam +1",
            Powerup::Plasma => "Plasma +1",
            Powerup::ExtraLife => "1up",
            Powerup::LoseLife => "-1up",
            Powerup::Shield => "Shield +1",
        }
    }
}

impl Ship {
    /// Timers stay within range and weapon levels at most eight.
    pub open spec fn wf(self) -> bool {
        &&& -TIMER_MAX <= self.weapon_cooldown <= TIMER_MAX
        &&& 0 <= self.invulnerability <= TIMER_MAX
        &&& -TIMER_MAX <= self.respawn_delay <= TIMER_MAX
        &&& self.weapon_rapid_level <= MAX_WEAPON_LEVEL
        &&& self.weapon_spread_level <= MAX_WEAPON_LEVEL
        &&& self.weapon_beam_level <= MAX_WEAPON_LEVEL
        &&& self.weapon_plasma_level <= MAX_WEAPON_LEVEL
    }

    pub open spec fn level_of(self, w: ShipWeapon) -> u8 {
        match w {
            ShipWeapon::Rapid => self.weapon_rapid_level,
            ShipWeapon::Spread => self.weapon_spread_level,
            ShipWeapon::Beam => self.weapon_beam_level,
            ShipWeapon::Plasma => self.weapon_plasma_level,
        }
    }

    /// Walking the weapon cycle from the current weapon in steps of `step`
    /// (one forwards, three — one backwards — in a cycle of four), the first
    /// weapon whose level is above zero; Rapid when none has one.
    pub open spec fn cycle_pick(self, step: int) -> ShipWeapon {
        let cur = weapon_index(self.weapon);
        let w1 = weapon_at(cur + step);
        let w2 = weapon_at(cur + 2 * step);
        let w3 = weapon_at(cur + 3 * step);
        let w4 = weapon_at(cur + 4 * step);
        if self.level_of(w1) > 0 {
            w1
        } else if self.level_of(w2) > 0 {
            w2
        } else if self.level_of(w3) > 0 {
            w3
        } else if self.level_of(w4) > 0 {
            w4
        } else {
            ShipWeapon::Rapid
        }
    }

    /// The ship after losing a life: one life fewer (not below zero), the
    /// respawn wait and invulnerability set, each weapon one level down (Rapid
    /// not below one) and the shield gone.
    pub open spec fn died_spec(self) -> Ship {
        Ship {
            lives: dec_spec(self.lives),
            respawn_delay: SHIP_RESPAWN_DELAY,
            invulnerability: SHIP_RESPAWN_DELAY,
            weapon_rapid_level: if self.weapon_rapid_level <= 2 {
                1
            } else {
                (self.weapon_rapid_level - 1) as u8
            },
            weapon_spread_level: dec_spec(self.weapon_spread_level),
            weapon_beam_level: dec_spec(self.weapon_beam_level),
            weapon_plasma_level: dec_spec(self.weapon_plasma_level),
            shield_level: 0,
            ..self
        }
    }

    /// A ship at the start of a game: three lives and the Rapid weapon at level one.
    pub fn new() -> (r: Ship)
        ensures
            r.lives == 3,
            r.weapon == ShipWeapon::Rapid,
            r.weapon_rapid_level == 1,
            r.weapon_spread_level == 0,
            r.weapon_beam_level == 0,
            r.weapon_plasma_level == 0,
            r.shield_level == 0,
            r.weapon_cooldown == 0,
            r.invulnerability == 0,
            r.respawn_delay == 0,
            !r.throttle && !r.fire && r.turn == ShipTurn::Neutral,
            r.wf(),
    {
        Ship {
            throttle: false,
            turn: ShipTurn::Neutral,
            fire: false,
            weapon: ShipWeapon::Rapid,
            weapon_rapid_level: 1,
            weapon_spread_level: 0,
            weapon_beam_level: 0,
            weapon_plasma_level: 0,
            weapon_cooldown: 0,
            shield_level: 0,
            lives: 3,
            invulnerability: 0,
            respawn_delay: 0,
        }
    }

    pub fn level(&self, w: ShipWeapon) -> (r: u8)
        ensures
            r == self.level_of(w),
    {
        match w {
            ShipWeapon::Rapid => self.weapon_rapid_level,
            ShipWeapon::Spread => self.weapon_spread_level,
            ShipWeapon::Beam => self.weapon_beam_level,
            ShipWeapon::Plasma => self.weapon_plasma_level,
        }
    }

    /// Loses a life; see `died_spec`.
    pub fn die(&mut self)
        ensures
            *final(self) == old(self).died_spec(),
    {
        self.lives = dec(self.lives);
        self.respawn_delay = SHIP_RESPAWN_DELAY;
        self.invulnerability = SHIP_RESPAWN_DELAY;
        let rapid: u8 = dec(self.weapon_rapid_level);
        self.weapon_rapid_level = if rapid < 1 {
            1
        } else {
            rapid
        };
        self.weapon_spread_level = dec(self.weapon_spread_level);
        self.weapon_beam_level = dec(self.weapon_beam_level);
        self.weapon_plasma_level = dec(self.weapon_plasma_level);
        self.shield_level = 0;
    }

    fn pick(&self, step: u32) -> (r: ShipWeapon)
        requires
            step == 1 || step == 3,
        ensures
            r == self.cycle_pick(step as int),
    {
        let cur: u32 = self.weapon.index();
        let w1 = weapon_at_exec(cur + step);
        let w2 = weapon_at_exec(cur + 2 * step);
        let w3 = weapon_at_exec(cur + 3 * step);
        let w4 = weapon_at_exec(cur + 4 * step);
        if self.level(w1) > 0 {
            w1
        } else if self.level(w2) > 0 {
            w2
        } else if self.level(w3) > 0 {
            w3
        } else if self.level(w4) > 0 {
            w4
        } else {
            ShipWeapon::Rapid
        }
    }

    /// Selects the next owned weapon in the order Rapid, Spread, Beam, Plasma.
    pub fn next_weapon(&mut self)
        ensures
            *final(self) == (Ship { weapon: old(self).cycle_pick(1), ..*old(self) }),
    {
        self.weapon = self.pick(1);
    }

    /// Selects the previous owned weapon in the order Rapid, Spread, Beam, Plasma.
    pub fn prev_weapon(&mut self)
        ensures
            *final(self) == (Ship { weapon: old(self).cycle_pick(3), ..*old(self) }),
    {
        self.weapon = self.pick(3);
    }

    /// The weapon that the direct selection keys choose: the first pressed key,
    /// in the order 1 to 4, whose weapon is owned; else the current one.
    pub open spec fn selected_spec(self, input: InputState) -> ShipWeapon {
        if input.weapon_1 && self.weapon_rapid_level > 0 {
            ShipWeapon::Rapid
        } else if input.weapon_2 && self.weapon_spread_level > 0 {
            ShipWeapon::Spread
        } else if input.weapon_3 && self.weapon_beam_level > 0 {
            ShipWeapon::Beam
        } else if input.weapon_4 && self.weapon_plasma_level > 0 {
            ShipWeapon::Plasma
        } else {
            self.weapon
        }
    }

    pub open spec fn turn_spec(input: InputState) -> ShipTurn {
        if input.left && !input.right {
            ShipTurn::Left
        } else if !input.left && input.right {
            ShipTurn::Right
        } else {
            ShipTurn::Neutral
        }
    }

    /// The ship after taking one frame's input: while waiting to respawn it
    /// only stops firing; otherwise it takes throttle, turn and fire from the
    /// input, then a direct weapon selection, then a step to the next weapon,
    /// then a step to the previous one.
    pub open spec fn controlled_spec(self, input: InputState) -> Ship {
        if self.respawn_delay > 0 {
            Ship { fire: false, ..self }
        } else {
            let s1 = Ship {
                throttle: input.throttle,
                turn: Ship::turn_spec(input),
                fire: input.fire,
                weapon: self.selected_spec(input),
                ..self
            };
            let s2 = if input.weapon_next {
                Ship { weapon: s1.cycle_pick(1), ..s1 }
            } else {
                s1
            };
            if input.weapon_prev {
                Ship { weapon: s2.cycle_pick(3), ..s2 }
            } else {
                s2
            }
        }
    }

    /// Applies one frame's input; see `controlled_spec`.
    pub fn control(&mut self, input: &InputState)
        ensures
            *final(self) == old(self).controlled_spec(*input),
    {
        if self.respawn_delay > 0 {
            self.fire = false;
            return ;
        }
        self.throttle = input.throttle;
        self.turn = if input.left && !input.right {
            ShipTurn::Left
        } else if !input.left && input.right {
            ShipTurn::Right
        } else {
            ShipTurn::Neutral
        };
        self.fire = input.fire;
        if input.weapon_1 && self.weapon_rapid_level > 0 {
            self.weapon = ShipWeapon::Rapid;
        } else if input.weapon_2 && self.weapon_spread_level > 0 {
            self.weapon = ShipWeapon::Spread;
        } else if input.weapon_3 && self.weapon_beam_level > 0 {
            self.weapon = ShipWeapon::Beam;
        } else if input.weapon_4 && self.weapon_plasma_level > 0 {
            self.weapon = ShipWeapon::Plasma;
        }
        if input.weapon_next {
            self.next_weapon();
        }
        if input.weapon_prev {
            self.prev_weapon();
        }
    }

    /// The ship after collecting a pickup: a weapon pickup raises that weapon
    /// one level (up to eight), an extra life adds a life, a lost life takes
    /// one away (not below zero), a shield adds a charge; lives and charges stop
    /// at 255.
    pub open spec fn collected_spec(self, p: Powerup) -> Ship {
        match p {
            Powerup::Laser => Ship {
                weapon_rapid_level: inc_to_spec(self.weapon_rapid_level, MAX_WEAPON_LEVEL),
                ..self
            },
            Powerup::Spread => Ship {
                weapon_spread_level: inc_to_spec(self.weapon_spread_level, MAX_WEAPON_LEVEL),
                ..self
            },
            Powerup::Beam => Ship {
                weapon_beam_level: inc_to_spec(self.weapon_beam_level, MAX_WEAPON_LEVEL),
                ..self
            },
            Powerup::Plasma => Ship {
                weapon_plasma_level: inc_to_spec(self.weapon_plasma_level, MAX_WEAPON_LEVEL),
                ..self
            },
            Powerup::ExtraLife => Ship { lives: inc_to_spec(self.lives, 255), ..self },
            Powerup::LoseLife => Ship { lives: dec_spec(self.lives), ..self },
            Powerup::Shield => Ship { shield_level: inc_to_spec(self.shield_level, 255), ..self },
        }
    }

    /// Collects a pickup; see `collected_spec`.  Returns the notice to show.
    pub fn collect(&mut self, p: Powerup) -> (r: &'static str)
        ensures
            *final(self) == old(self).collected_spec(p),
            p == Powerup::Laser ==> r@ == "Laser +1"@,
            p == Powerup::Spread ==> r@ == "Spread +1"@,
            p == Powerup::Beam ==> r@ == "Beam +1"@,
            p == Powerup::Plasma ==> r@ == "Plasma +1"@,
            p == Powerup::ExtraLife ==> r@ == "1up"@,
            p == Powerup::LoseLife ==> r@ == "-1up"@,
            p == Powerup::Shield ==> r@ == "Shield +1"@,
    {
        match p {
            Powerup::Laser => {
                self.weapon_rapid_level = inc_to(self.weapon_rapid_level, MAX_WEAPON_LEVEL);
            },
            Powerup::Spread => {
                self.weapon_spread_level = inc_to(self.weapon_spread_level, MAX_WEAPON_LEVEL);
            },
            Powerup::Beam => {
                self.weapon_beam_level = inc_to(self.weapon_beam_level, MAX_WEAPON_LEVEL);
            },
            Powerup::Plasma => {
                self.weapon_plasma_level = inc_to(self.weapon_plasma_level, MAX_WEAPON_LEVEL);
            },
            Powerup::ExtraLife => {
                self.lives = inc_to(self.lives, 255);
            },
            Powerup::LoseLife => {
                self.lives = dec(self.lives);
            },
            Powerup::Shield => {
                self.shield_level = inc_to(self.shield_level, 255);
            },
        }
        p.label()
    }

    /// Applies a cheat: a weapon goes one level up (at most eight), a shield
    /// charge or a life is added (stopping at 255).
    pub fn cheat(&mut self, c: Cheat)
        ensures
            c == Cheat::Rapid ==> *final(self) == (Ship {
                weapon_rapid_level: inc_to_spec(old(self).weapon_rapid_level, MAX_WEAPON_LEVEL),
                ..*old(self)
            }),
            c == Cheat::Spread ==> *final(self) == (Ship {
                weapon_spread_level: inc_to_spec(old(self).weapon_spread_level, MAX_WEAPON_LEVEL),
                ..*old(self)
            }),
            c == Cheat::Beam ==> *final(self) == (Ship {
                weapon_beam_level: inc_to_spec(old(self).weapon_beam_level, MAX_WEAPON_LEVEL),
                ..*old(self)
            }),
            c == Cheat::Plasma ==> *final(self) == (Ship {
                weapon_plasma_level: inc_to_spec(old(self).weapon_plasma_level, MAX_WEAPON_LEVEL),
                ..*old(self)
            }),
            c == Cheat::Shield ==> *final(self) == (Ship {
                shield_level: inc_to_spec(old(self).shield_level, 255),
                ..*old(self)
            }),
            c == Cheat::Life ==> *final(self) == (Ship {
                lives: inc_to_spec(old(self).lives, 255),
                ..*old(self)
            }),
    {
        match c {
            Cheat::Rapid => {
                self.weapon_rapid_level = inc_to(self.weapon_rapid_level, MAX_WEAPON_LEVEL);
            },
            Cheat::Spread => {
                self.weapon_spread_level = inc_to(self.weapon_spread_level, MAX_WEAPON_LEVEL);
            },
            Cheat::Beam => {
                self.weapon_beam_level = inc_to(self.weapon_beam_level, MAX_WEAPON_LEVEL);
            },
            Cheat::Plasma => {
                self.weapon_plasma_level = inc_to(self.weapon_plasma_level, MAX_WEAPON_LEVEL);
            },
            Cheat::Shield => {
                self.shield_level = inc_to(self.shield_level, 255);
            },
            Cheat::Life => {
                self.lives = inc_to(self.lives, 255);
            },
        }
    }

    /// Advances the respawn cycle by `dt` milliseconds.  A destroyed ship with
    /// lives left counts its wait down; while it waits it is hidden and
    /// invulnerable, and when the wait ends it comes back with a short
    /// invulnerability.  A ship without lives is gone.
    pub fn respawn_tick(&mut self, dt: i64) -> (r: RespawnState)
        requires
            old(self).wf(),
            0 <= dt <= MAX_FRAME,
        ensures
            final(self).wf(),
            old(self).lives > 0 && old(self).respawn_delay > 0 ==> {
                &&& final(self).respawn_delay == old(self).respawn_delay - dt
                &&& final(self).respawn_delay > 0 ==> r == RespawnState::Waiting
                    && final(self).invulnerability == WAITING_INVULNERABILITY
                &&& final(self).respawn_delay <= 0 ==> r == RespawnState::Respawned
                    && final(self).invulnerability == SHIP_INVULNERABILITY
                &&& *final(self) == (Ship {
                    respawn_delay: final(self).respawn_delay,
                    invulnerability: final(self).invulnerability,
                    ..*old(self)
                })
            },
            !(old(self).lives > 0 && old(self).respawn_delay > 0) ==> *final(self) == *old(self) && (
            if old(self).lives == 0 {
                r == RespawnState::Gone
            } else {
                r == RespawnState::Active
            }),
    {
        if self.lives > 0 && self.respawn_delay > 0 {
            self.respawn_delay = self.respawn_delay - dt;
            if self.respawn_delay > 0 {
                self.invulnerability = WAITING_INVULNERABILITY;
                RespawnState::Waiting
            } else {
                self.invulnerability = SHIP_INVULNERABILITY;
                RespawnState::Respawned
            }
        } else if self.lives == 0 {
            RespawnState::Gone
        } else {
            RespawnState::Active
        }
    }

    /// Turn rate in thousandths of a radian per second, counter-clockwise positive.
    pub fn turn_rate(&self) -> (r: i64)
        ensures
            self.turn == ShipTurn::Neutral ==> r == 0,
            self.turn == ShipTurn::Left ==> r == 3000,
            self.turn == ShipTurn::Right ==> r == -3000,
    {
        match self.turn {
            ShipTurn::Neutral => 0,
            ShipTurn::Left => 3000,
            ShipTurn::Right => -3000,
        }
    }

    /// Which of the 24 ship sprites shows the ship: six per weapon (in the
    /// order Rapid, Spread, Beam, Plasma), two per turn (neutral, left, right),
    /// the second of each pair with the engine lit.
    pub fn sprite_index(&self) -> (r: u32)
        ensures
            r == weapon_index(self.weapon) * 6 + (match self.turn {
                ShipTurn::Neutral => 0int,
                ShipTurn::Left => 1int,
                ShipTurn::Right => 2int,
            }) * 2 + (if self.throttle {
                1int
            } else {
                0int
            }),
            r < 24,
    {
        let turn: u32 = match self.turn {
            ShipTurn::Neutral => 0,
            ShipTurn::Left => 1,
            ShipTurn::Right => 2,
        };
        self.weapon.index() * 6 + turn * 2 + if self.throttle {
            1
        } else {
            0
        }
    }

    /// Forward acceleration, in thousandths of a unit per second squared.
    pub fn thrust(&self) -> (r: i64)
        ensures
            r == if self.throttle {
                50000int
            } else {
                0int
            },
    {
        if self.throttle {
            50000
        } else {
            0
        }
    }
}

} // verus!
