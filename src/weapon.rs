//! The ship's weapons: firing decisions, the beam's reach cycle, and what a
//! projectile does to what it hits.
use crate::fixed::{lerp, lerp_spec};
use crate::geometry::Vec2;
use crate::ship::{Ship, ShipWeapon, MAX_FRAME, MAX_WEAPON_LEVEL, TIMER_MAX};
use vstd::prelude::*;

verus! {

/// Milliseconds of sustained fire before the beam starts to overheat; also the
/// time the beam takes to extend to its full reach.
pub const BEAM_EXTEND_TIME: i64 = 500;

/// How fast an overheating beam loses reach, per second.
pub const BEAM_SHRINK_RATE: i64 = 50000;

/// How fast an idle beam retracts, per second.
pub const BEAM_RETRACT_RATE: i64 = 1000000;

/// How fast an idle, retracted beam regains reach, per second.
pub const BEAM_RECHARGE_RATE: i64 = 100000;

/// Reach of a level-zero beam.
pub const BEAM_BASE_LENGTH: i64 = 100000;

/// Reach that each beam level adds.
pub const BEAM_LENGTH_PER_LEVEL: i64 = 25000;

/// Hit points a beam takes per damage tick.
pub const BEAM_DAMAGE_PER_HIT: i32 = 1;

/// Milliseconds between two damage ticks of the beam.
pub const BEAM_HIT_INTERVAL: i64 = 100;

/// The beam's reach ceiling at a weapon level: `base + per_level · level`.
pub open spec fn beam_ceiling(level: int) -> int {
    BEAM_BASE_LENGTH + BEAM_LENGTH_PER_LEVEL * level
}

/// A projectile fired by the ship.
#[derive(Clone, Copy, Debug, PartialEq, Eq, Structural)]
pub enum ShipProjectile {
    Rapid,
    Spread,
    Beam,
    /// A plasma ball whose power, in thousandths, is spent on what it hits.
    Plasma { power: i64 },
}

/// The continuous beam attached to the ship.
#[derive(Clone, Copy, Debug, PartialEq, Eq, Structural)]
pub struct Beam {
    /// Current reach, in thousandths of a unit.
    pub length: i64,
    /// Reach ceiling, which shrinks under sustained fire and recharges when idle.
    pub max_length: i64,
    /// Milliseconds of continuous fire.
    pub sustained: i64,
    /// Milliseconds until the next damage tick.
    pub cooldown: i64,
    pub active: bool,
}

/// What the ship's weapon does in a frame.
#[derive(Debug, PartialEq, Eq)]
pub enum FireOrder {
    /// Nothing is fired.
    Hold,
    /// Two shots, from the left and right turrets, straight ahead.
    Rapid,
    /// A fan of shots, one per heading offset in thousandths of a radian.
    Spread { angles: Vec<i64> },
    /// One plasma ball of the given power.
    Plasma { power: i64 },
    /// The beam is held on.
    Beam,
}

/// Interpolation position, in per-mille, of a weapon level: `(level − 1) / 8`,
/// a level of zero counting as one.
pub open spec fn level_key(level: u8) -> int {
    if level == 0 {
        0
    } else {
        (level - 1) * 125
    }
}

/// The headings of a fan of `shots` shots spread over `spread`, centred on
/// straight ahead: shot `i` at `spread · i / (shots − 1) − spread / 2`; a
/// single shot flies straight ahead.
pub open spec fn fan_spec(spread: int, shots: int) -> Seq<i64> {
    if shots == 1 {
        seq![0i64]
    } else {
        Seq::new(shots as nat, |i: int| (spread * i / (shots - 1) - spread / 2) as i64)
    }
}

impl Beam {
    pub open spec fn wf(self) -> bool {
        &&& 0 <= self.length <= beam_ceiling(MAX_WEAPON_LEVEL as int)
        &&& 0 <= self.max_length <= beam_ceiling(MAX_WEAPON_LEVEL as int)
        &&& 0 <= self.sustained
        &&& -TIMER_MAX <= self.cooldown <= TIMER_MAX
    }

    /// The beam after a frame of fire: it is active and its sustained time
    /// grows; past the extend time its ceiling shrinks (not below zero); when
    /// no damage tick is pending its reach grows towards the ceiling, at the
    /// ceiling divided by the extend time, else the pending tick counts down.
    pub open spec fn fired_spec(self, dt: int) -> Beam {
        let sustained = if self.sustained + dt > i64::MAX {
            i64::MAX as int
        } else {
            self.sustained + dt
        };
        let max_length = if sustained > BEAM_EXTEND_TIME {
            let m = self.max_length - dt * BEAM_SHRINK_RATE / 1000;
            if m < 0 {
                0
            } else {
                m
            }
        } else {
            self.max_length as int
        };
        let grown = self.length + max_length * dt / (BEAM_EXTEND_TIME as int);
        Beam {
            active: true,
            sustained: sustained as i64,
            max_length: max_length as i64,
            length: if self.cooldown <= 0 {
                (if grown < max_length {
                    grown
                } else {
                    max_length
                }) as i64
            } else {
                self.length
            },
            cooldown: if self.cooldown <= 0 {
                self.cooldown
            } else {
                (self.cooldown - dt) as i64
            },
        }
    }

    /// The beam after an idle frame: it is inactive; while it has reach it
    /// retracts (not below zero); once retracted its sustained time resets and
    /// its ceiling recharges, up to the ceiling of the weapon level.
    pub open spec fn idled_spec(self, dt: int, level: int) -> Beam {
        if self.length > 0 {
            let l = self.length - dt * BEAM_RETRACT_RATE / 1000;
            Beam {
                active: false,
                length: (if l < 0 {
                    0
                } else {
                    l
                }) as i64,
                ..self
            }
        } else {
            let m = self.max_length + dt * BEAM_RECHARGE_RATE / 1000;
            Beam {
                active: false,
                sustained: 0,
                max_length: (if m < beam_ceiling(level) {
                    m
                } else {
                    beam_ceiling(level)
                }) as i64,
                ..self
            }
        }
    }

    /// A fresh, retracted beam with no reach.
    pub fn new() -> (r: Beam)
        ensures
            r.wf(),
            r == (Beam { length: 0, max_length: 0, sustained: 0, cooldown: 0, active: true }),
    {
        Beam { length: 0, max_length: 0, sustained: 0, cooldown: 0, active: true }
    }

    /// The direction and extent of the beam's collision segment, along the
    /// ship's axis: its current reach.
    pub fn line_delta(&self) -> (r: Vec2)
        ensures
            r == (Vec2 { x: 0, y: self.length }),
    {
        Vec2 { x: 0, y: self.length }
    }

    /// One frame of fire; see `fired_spec`.
    pub fn fire(&mut self, dt: i64)
        requires
            old(self).wf(),
            0 <= dt <= MAX_FRAME,
        ensures
            final(self).wf(),
            *final(self) == old(self).fired_spec(dt as int),
            final(self).max_length <= old(self).max_length,
    {
        self.active = true;
        self.sustained = if self.sustained > i64::MAX - dt {
            i64::MAX
        } else {
            self.sustained + dt
        };
        if self.sustained > BEAM_EXTEND_TIME {
            let m: i64 = self.max_length - dt * BEAM_SHRINK_RATE / 1000;
            self.max_length = if m < 0 {
                0
            } else {
                m
            };
        }
        if self.cooldown <= 0 {
            assert(0 <= self.max_length * dt <= 300000 * 1000) by (nonlinear_arith)
                requires
                    0 <= self.max_length <= 300000,
                    0 <= dt <= 1000,
            ;
            let grown: i64 = self.length + self.max_length * dt / BEAM_EXTEND_TIME;
            self.length = if grown < self.max_length {
                grown
            } else {
                self.max_length
            };
        } else {
            self.cooldown = self.cooldown - dt;
        }
    }

    /// One idle frame at the given beam weapon level; see `idled_spec`.
    pub fn idle(&mut self, dt: i64, level: u8)
        requires
            old(self).wf(),
            0 <= dt <= MAX_FRAME,
            level <= MAX_WEAPON_LEVEL,
        ensures
            final(self).wf(),
            *final(self) == old(self).idled_spec(dt as int, level as int),
    {
        self.active = false;
        if self.length > 0 {
            let l: i64 = self.length - dt * BEAM_RETRACT_RATE / 1000;
            self.length = if l < 0 {
                0
            } else {
                l
            };
        } else {
            self.sustained = 0;
            let ceiling: i64 = BEAM_BASE_LENGTH + BEAM_LENGTH_PER_LEVEL * level as i64;
            let m: i64 = self.max_length + dt * BEAM_RECHARGE_RATE / 1000;
            self.max_length = if m < ceiling {
                m
            } else {
                ceiling
            };
        }
    }

    /// The beam touching a target at `distance` along it: while active, its
    /// reach stops at the target (within `[0, max_length]`), and when no damage
    /// tick is pending it takes `BEAM_DAMAGE_PER_HIT` from the target's
    /// integrity and starts the next tick's wait.  Returns whether damage was done.
    pub fn strike(&mut self, integrity: &mut i32, distance: i64) -> (r: bool)
        requires
            old(self).wf(),
            *old(integrity) > i32::MIN,
        ensures
            final(self).wf(),
            r == (old(self).active && old(self).cooldown <= 0),
            !old(self).active ==> *final(self) == *old(self) && *final(integrity) == *old(integrity),
            old(self).active ==> final(self).length == (if distance < 0 {
                0
            } else if distance < old(self).max_length {
                distance as int
            } else {
                old(self).max_length as int
            }),
            old(self).active ==> *final(self) == (Beam {
                length: final(self).length,
                cooldown: if r {
                    BEAM_HIT_INTERVAL
                } else {
                    old(self).cooldown
                },
                ..*old(self)
            }),
            *final(integrity) == if r {
                *old(integrity) - BEAM_DAMAGE_PER_HIT
            } else {
                *old(integrity) as int
            },
    {
        if !self.active {
            return false;
        }
        self.length = if distance < 0 {
            0
        } else if distance < self.max_length {
            distance
        } else {
            self.max_length
        };
        if self.cooldown <= 0 {
            *integrity = *integrity - BEAM_DAMAGE_PER_HIT;
            self.cooldown = BEAM_HIT_INTERVAL;
            true
        } else {
            false
        }
    }
}

/// Whatever it starts from, an idle beam that has recharged is within the
/// ceiling of its weapon level, however long the frame; and no frame, firing or
/// idle, takes a beam that was within its ceiling beyond it.
pub proof fn lemma_beam_within_ceiling(b: Beam, dt: int, level: int)
    requires
        b.wf(),
        0 <= dt,
        0 <= level,
    ensures
        b.length <= 0 ==> b.idled_spec(dt, level).max_length <= beam_ceiling(level),
        b.max_length <= beam_ceiling(level) ==> b.idled_spec(dt, level).max_length <= beam_ceiling(
            level,
        ),
        b.max_length <= beam_ceiling(level) ==> b.fired_spec(dt).max_length <= beam_ceiling(level),
{
    assert(dt * BEAM_SHRINK_RATE / 1000 >= 0) by (nonlinear_arith)
        requires
            dt >= 0,
    ;
    assert(dt * BEAM_RECHARGE_RATE / 1000 >= 0) by (nonlinear_arith)
        requires
            dt >= 0,
    ;
}

fn lerp_key(level: u8) -> (r: i64)
    ensures
        r == level_key(level),
        0 <= r <= 31750,
{
    if level == 0 {
        0
    } else {
        (level as i64 - 1) * 125
    }
}

/// The headings of a fan; see `fan_spec`.
pub fn fan(spread: i64, shots: i64) -> (r: Vec<i64>)
    requires
        0 <= spread <= 4000,
        1 <= shots <= 1000,
    ensures
        r@ == fan_spec(spread as int, shots as int),
{
    if shots == 1 {
        return vec![0];
    }
    let mut out: Vec<i64> = Vec::new();
    let mut i: i64 = 0;
    while i < shots
        invariant
            0 <= i <= shots,
            2 <= shots <= 1000,
            0 <= spread <= 4000,
            out@ =~= fan_spec(spread as int, shots as int).take(i as int),
        decreases shots - i,
    {
        assert(0 <= spread * i <= 4000 * 1000) by (nonlinear_arith)
            requires
                0 <= spread <= 4000,
                0 <= i <= 1000,
        ;
        assert(spread * i / (shots - 1) <= spread * i) by (nonlinear_arith)
            requires
                0 <= spread * i,
                shots - 1 >= 1,
        ;
        let a: i64 = spread * i / (shots - 1) - spread / 2;
        out.push(a);
        i = i + 1;
    }
    out
}

impl Ship {
    /// The ship after a frame's weapon timers, before firing: invulnerability
    /// counts down to zero, and a pending weapon cooldown counts down.
    pub open spec fn timers_spec(self, dt: int) -> Ship {
        Ship {
            invulnerability: (if self.invulnerability - dt < 0 {
                0
            } else {
                self.invulnerability - dt
            }) as i64,
            weapon_cooldown: (if self.weapon_cooldown > 0 {
                self.weapon_cooldown - dt
            } else {
                self.weapon_cooldown as int
            }) as i64,
            ..self
        }
    }

    /// Runs one frame of the ship's weapon.  Timers count down first; then, if
    /// the trigger is held and the cooldown has run out, the selected weapon
    /// fires.  Each figure moves linearly between two tuned ends by
    /// `(level − 1) / 8` (level zero counting as one), so that level eight,
    /// the highest, reaches seven eighths of the way: Rapid (cooldown 300 ms
    /// towards 50 ms), Spread (`2·level + 1` shots over 0.314 towards 3
    /// radians, cooldown 800 towards 300 ms), Plasma (power 4 towards 20 units,
    /// cooldown 1200 towards 800 ms) or the beam, held on.  With the beam
    /// selected and not firing, the beam idles.
    pub fn weapon_step(&mut self, dt: i64, beam: &mut Beam) -> (r: FireOrder)
        requires
            old(self).wf(),
            old(beam).wf(),
            0 <= dt <= MAX_FRAME,
        ensures
            final(self).wf(),
            final(beam).wf(),
            ({
                let t = old(self).timers_spec(dt as int);
                let firing = t.fire && t.weapon_cooldown <= 0;
                &&& !firing ==> *final(self) == t && r == FireOrder::Hold
                &&& !firing && t.weapon == ShipWeapon::Beam ==> *final(beam) == old(beam).idled_spec(
                    dt as int,
                    t.weapon_beam_level as int,
                )
                &&& !firing && t.weapon != ShipWeapon::Beam ==> *final(beam) == *old(beam)
                &&& firing && t.weapon == ShipWeapon::Rapid ==> r == FireOrder::Rapid
                    && *final(beam) == *old(beam) && *final(self) == (Ship {
                    weapon_cooldown: lerp_spec(300, 50, level_key(t.weapon_rapid_level)) as i64,
                    ..t
                })
                &&& firing && t.weapon == ShipWeapon::Spread ==> {
                    let lvl = t.weapon_spread_level as int;
                    &&& r matches FireOrder::Spread { angles } && angles@ == fan_spec(
                        lerp_spec(314, 3000, level_key(t.weapon_spread_level)),
                        2 * lvl + 1,
                    )
                    &&& *final(beam) == *old(beam)
                    &&& *final(self) == (Ship {
                        weapon_cooldown: lerp_spec(800, 300, level_key(t.weapon_spread_level)) as i64,
                        ..t
                    })
                }
                &&& firing && t.weapon == ShipWeapon::Plasma ==> r == (FireOrder::Plasma {
                    power: lerp_spec(4000, 20000, level_key(t.weapon_plasma_level)) as i64,
                }) && *final(beam) == *old(beam) && *final(self) == (Ship {
                    weapon_cooldown: lerp_spec(1200, 800, level_key(t.weapon_plasma_level)) as i64,
                    ..t
                })
                &&& firing && t.weapon == ShipWeapon::Beam ==> r == FireOrder::Beam && *final(self)
                    == t && *final(beam) == old(beam).fired_spec(dt as int)
            }),
    {
        self.invulnerability = if self.invulnerability - dt < 0 {
            0
        } else {
            self.invulnerability - dt
        };
        if self.weapon_cooldown > 0 {
            self.weapon_cooldown = self.weapon_cooldown - dt;
        }
        if self.fire && self.weapon_cooldown <= 0 {
            match self.weapon {
                ShipWeapon::Rapid => {
                    self.weapon_cooldown = lerp(300, 50, lerp_key(self.weapon_rapid_level));
                    FireOrder::Rapid
                },
                ShipWeapon::Spread => {
                    let key: i64 = lerp_key(self.weapon_spread_level);
                    let spread: i64 = lerp(314, 3000, key);
                    let lvl: i64 = self.weapon_spread_level as i64;
                    let angles = fan(spread, 2 * lvl + 1);
                    self.weapon_cooldown = lerp(800, 300, key);
                    FireOrder::Spread { angles }
                },
                ShipWeapon::Plasma => {
                    let key: i64 = lerp_key(self.weapon_plasma_level);
                    self.weapon_cooldown = lerp(1200, 800, key);
                    FireOrder::Plasma { power: lerp(4000, 20000, key) }
                },
                ShipWeapon::Beam => {
                    beam.fire(dt);
                    FireOrder::Beam
                },
            }
        } else {
            if self.weapon == ShipWeapon::Beam {
                beam.idle(dt, self.weapon_beam_level);
            }
            FireOrder::Hold
        }
    }
}

/// What a plasma ball of `power` spends on a target with `integrity` hit points
/// when it overlaps it by `-distance`: the overlap (none when apart), at most
/// the target's remaining integrity in thousandths.
pub open spec fn plasma_effect(distance: int, integrity: int) -> int {
    let overlap = if distance < 0 {
        -distance
    } else {
        0
    };
    let remaining = if integrity > 0 {
        integrity * 1000
    } else {
        0
    };
    if overlap < remaining {
        overlap
    } else {
        remaining
    }
}

/// `v / 1000` rounded up, for `v >= 0`.
pub open spec fn ceil_thousandths(v: int) -> int {
    (v + 999) / 1000
}

/// Collision radius of Rapid and Spread shots, in thousandths of a unit.
pub const SHOT_RADIUS: i64 = 1000;

impl ShipProjectile {
    /// Collision radius: a plasma ball's shrinks with its power, one unit of
    /// radius per unit of power (none once the power is gone); shots have
    /// `SHOT_RADIUS`; the beam projectile's shape is its segment, so none.
    pub fn collision_radius(&self) -> (r: i64)
        ensures
            *self matches ShipProjectile::Plasma { power } ==> r == if power > 0 {
                power as int
            } else {
                0
            },
            (*self is Rapid || *self is Spread) ==> r == SHOT_RADIUS,
            *self is Beam ==> r == 0,
    {
        match *self {
            ShipProjectile::Plasma { power } => if power > 0 {
                power
            } else {
                0
            },
            ShipProjectile::Rapid | ShipProjectile::Spread => SHOT_RADIUS,
            ShipProjectile::Beam => 0,
        }
    }

    pub open spec fn live(self) -> bool {
        self matches ShipProjectile::Plasma { power } ==> 0 < power <= 0x1000_0000
    }

    /// The projectile striking a target with `integrity` hit points, whose
    /// shape lies at `distance` (negative when overlapping).  A Rapid or Spread
    /// shot is spent and takes one hit point from a target that has any.  A
    /// plasma ball loses the power it spends (see `plasma_effect`), the target
    /// losing that much rounded up to whole points, and is spent when its power
    /// is gone.  A beam projectile does nothing here (see `Beam::strike`).
    /// Returns whether the projectile is spent.
    pub fn strike(&mut self, integrity: &mut i32, distance: i64) -> (spent: bool)
        requires
            old(self).live(),
            -0x1000_0000 <= distance <= 0x1000_0000,
        ensures
            match *old(self) {
                ShipProjectile::Rapid | ShipProjectile::Spread => {
                    &&& spent
                    &&& *final(self) == *old(self)
                    &&& *final(integrity) == if *old(integrity) > 0 {
                        *old(integrity) - 1
                    } else {
                        *old(integrity) as int
                    }
                },
                ShipProjectile::Plasma { power } => {
                    let effect = plasma_effect(distance as int, *old(integrity) as int);
                    &&& *final(self) == (ShipProjectile::Plasma { power: (power - effect) as i64 })
                    &&& spent == (power - effect <= 0)
                    &&& *final(integrity) == if *old(integrity) > 0 {
                        *old(integrity) - ceil_thousandths(effect)
                    } else {
                        *old(integrity) as int
                    }
                },
                ShipProjectile::Beam => !spent && *final(self) == *old(self) && *final(integrity)
                    == *old(integrity),
            },
    {
        match *self {
            ShipProjectile::Rapid | ShipProjectile::Spread => {
                if *integrity > 0 {
                    *integrity = *integrity - 1;
                }
                true
            },
            ShipProjectile::Plasma { power } => {
                let overlap: i64 = if distance < 0 {
                    -distance
                } else {
                    0
                };
                let remaining: i64 = if *integrity > 0 {
                    *integrity as i64 * 1000
                } else {
                    0
                };
                let effect: i64 = if overlap < remaining {
                    overlap
                } else {
                    remaining
                };
                let left: i64 = power - effect;
                *self = ShipProjectile::Plasma { power: left };
                if *integrity > 0 {
                    let points: i64 = (effect + 999) / 1000;
                    assert(points <= *integrity) by (nonlinear_arith)
                        requires
                            0 <= effect <= *integrity * 1000,
                            points == (effect + 999) / 1000,
                    ;
                    *integrity = *integrity - points as i32;
                }
                left <= 0
            },
            ShipProjectile::Beam => false,
        }
    }
}

/// A plasma ball never gains power by striking: what a strike takes from it is
/// never negative, so its power after the strike is at most its power before.
pub proof fn lemma_plasma_power_never_grows(power: int, distance: int, integrity: int)
    requires
        0 < power,
    ensures
        0 <= plasma_effect(distance, integrity),
        power - plasma_effect(distance, integrity) <= power,
{
}

/// A plasma ball's power after striking, in turn, targets at the given
/// `(distance, integrity)` pairs.
pub open spec fn plasma_after(power: int, hits: Seq<(int, int)>) -> int
    decreases hits.len(),
{
    if hits.len() == 0 {
        power
    } else {
        plasma_after(power - plasma_effect(hits[0].0, hits[0].1), hits.drop_first())
    }
}

/// Across any series of strikes a plasma ball's power only falls: each further
/// strike leaves it at most where it was.
pub proof fn lemma_plasma_power_falls_across_hits(power: int, hits: Seq<(int, int)>, j: int)
    requires
        0 <= j < hits.len(),
    ensures
        plasma_after(power, hits.take(j + 1)) <= plasma_after(power, hits.take(j)),
        plasma_after(power, hits) <= power,
    decreases hits.len(),
{
    let first = power - plasma_effect(hits[0].0, hits[0].1);
    assert(hits.take(j + 1)[0] == hits[0]);
    assert(hits.take(j + 1).drop_first() =~= hits.drop_first().take(j));
    assert(plasma_after(power, hits.take(j + 1)) == plasma_after(first, hits.drop_first().take(j)));
    if j == 0 {
        assert(hits.take(0).len() == 0);
        assert(hits.drop_first().take(0).len() == 0);
        assert(plasma_after(first, hits.drop_first().take(0)) == first);
        assert(plasma_effect(hits[0].0, hits[0].1) >= 0);
    } else {
        assert(hits.take(j)[0] == hits[0]);
        assert(hits.take(j).drop_first() =~= hits.drop_first().take(j - 1));
        assert(plasma_after(power, hits.take(j)) == plasma_after(first, hits.drop_first().take(j - 1)));
        lemma_plasma_power_falls_across_hits(first, hits.drop_first(), j - 1);
    }
    lemma_plasma_total_falls(power, hits);
}

proof fn lemma_plasma_total_falls(power: int, hits: Seq<(int, int)>)
    ensures
        plasma_after(power, hits) <= power,
    decreases hits.len(),
{
    if hits.len() > 0 {
        lemma_plasma_total_falls(power - plasma_effect(hits[0].0, hits[0].1), hits.drop_first());
    }
}

} // verus!
