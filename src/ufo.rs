//! UFOs: when they appear, how they cross the world and shoot, and what they
//! leave behind.
use crate::fixed::COORD_MAX;
use crate::geometry::Vec2;
use crate::level::{Level, Score};
use crate::motion::{HALF_HEIGHT, HALF_WIDTH, TAU_MILLI};
use crate::random::{random_between, random_flag};
use crate::ship::{Powerup, MAX_FRAME};
use vstd::prelude::*;

verus! {

/// Fewest points between two UFOs.
pub const MIN_UFO_SCORE_INTERVAL: u32 = 2000;

/// Most points between two UFOs.
pub const MAX_UFO_SCORE_INTERVAL: u32 = 5000;

/// Hit points of a fresh UFO.
pub const UFO_LIFE: i32 = 20;

/// Score for destroying a UFO.
pub const UFO_SCORE: u32 = 100;

/// Milliseconds between a UFO's shots after its first.
pub const UFO_SHOOT_INTERVAL: i64 = 2000;

/// Speed of a UFO laser, in thousandths of a unit per second.
pub const UFO_LASER_SPEED: i64 = 500000;

/// Half a turn, in thousandths of a radian.
pub const PI_MILLI: i64 = 3142;

/// A UFO crossing the world from `start_position` to `end_position`, weaving
/// sideways `frequency` thousandths of a cycle per crossing with `amplitude`
/// thousandths of a unit.
#[derive(Clone, Copy, Debug, PartialEq, Eq, Structural)]
pub struct Ufo {
    pub start_position: Vec2,
    pub end_position: Vec2,
    pub frequency: i64,
    pub amplitude: i64,
    /// Milliseconds the crossing takes.
    pub duration: i64,
    /// Milliseconds since it appeared.
    pub time: i64,
    /// Milliseconds until its next shot.
    pub shoot_delay: i64,
    /// Aiming accuracy in per-mille.
    pub shoot_accuracy: i64,
    pub life: i32,
}

/// The score at which the next UFO appears.
#[derive(Clone, Copy, Debug, PartialEq, Eq, Structural)]
pub struct NextUfoScore(pub u32);

/// What a destroyed UFO leaves: one pickup, drifting at `speed` thousandths of
/// a unit per second towards `heading` thousandths of a radian, and a score award.
#[derive(Clone, Copy, Debug, PartialEq, Eq, Structural)]
pub struct UfoWreck {
    pub powerup: Powerup,
    pub speed: i64,
    pub heading: i64,
    pub score: u32,
}

/// Where a UFO enters: on the top or bottom edge (not `horizontal`) at
/// `d.x` across, or on the right or left edge (`horizontal`) at `d.y` up;
/// `direction` picks the bottom or left edge.
pub open spec fn entry_spec(horizontal: bool, direction: bool, d: Vec2) -> Vec2 {
    if !horizontal && !direction {
        Vec2 { x: d.x, y: HALF_HEIGHT }
    } else if horizontal && !direction {
        Vec2 { x: HALF_WIDTH, y: d.y }
    } else if !horizontal && direction {
        Vec2 { x: d.x, y: (-HALF_HEIGHT) as i64 }
    } else {
        Vec2 { x: (-HALF_WIDTH) as i64, y: d.y }
    }
}

/// A new UFO for `level`: entering as `entry_spec` says, leaving at the
/// opposite point, with the level's crossing time, shot delay and accuracy,
/// and full life.
pub open spec fn spawn_spec(
    level: Level,
    horizontal: bool,
    direction: bool,
    d: Vec2,
    frequency: i64,
    amplitude: i64,
) -> Ufo {
    let start = entry_spec(horizontal, direction, d);
    Ufo {
        start_position: start,
        end_position: Vec2 { x: (-start.x) as i64, y: (-start.y) as i64 },
        frequency,
        amplitude,
        duration: crate::fixed::lerp_spec(20000, 10000, level.0 * 25) as i64,
        time: 0,
        shoot_delay: crate::fixed::lerp_spec(3000, 1500, level.0 * 1000 / 60) as i64,
        shoot_accuracy: crate::fixed::lerp_spec(600, 900, level.0 * 1000 / 60) as i64,
        life: UFO_LIFE,
    }
}

/// A UFO of `level` with entry and path drawn from the ranges the game uses:
/// `d` within the world's full width and height, a frequency of up to five
/// cycles per crossing and an amplitude from 10 to 100 units.
pub open spec fn is_random_spawn(u: Ufo, level: Level) -> bool {
    exists|h: bool, dir: bool, d: Vec2, f: i64, a: i64|
        0 <= d.x <= 2 * HALF_WIDTH && 0 <= d.y <= 2 * HALF_HEIGHT && 0 <= f <= 5000 && 10000 <= a
            <= 100000 && u == #[trigger] spawn_spec(level, h, dir, d, f, a)
}

/// The aiming error of a shot, in thousandths of a radian: a draw `r` in
/// `[0, 1000]` mapped onto `±π/2`, scaled by the inaccuracy `1 − accuracy`.
pub open spec fn aim_error_spec(accuracy: int, r: int) -> int {
    (1000 - accuracy) * (r - 500) * PI_MILLI / 1000000
}

/// `score + i`, or the largest representable score when that overflows.
pub open spec fn saturating_sum(score: int, i: int) -> int {
    if score + i > u32::MAX {
        u32::MAX as int
    } else {
        score + i
    }
}

impl NextUfoScore {
    /// A first threshold, a random interval from zero.
    pub fn new() -> (r: NextUfoScore)
        ensures
            MIN_UFO_SCORE_INTERVAL <= r.0 <= MAX_UFO_SCORE_INTERVAL,
    {
        NextUfoScore(
            random_between(MIN_UFO_SCORE_INTERVAL as i64, MAX_UFO_SCORE_INTERVAL as i64) as u32,
        )
    }

    /// Once `score` reaches the threshold, moves it a random interval past
    /// `score` (stopping at the largest representable score) and returns true,
    /// meaning a UFO should appear; otherwise changes nothing.
    pub fn bump(&mut self, score: u32) -> (r: bool)
        ensures
            r == (score >= old(self).0),
            !r ==> *final(self) == *old(self),
            r ==> exists|i: int|
                MIN_UFO_SCORE_INTERVAL <= i <= MAX_UFO_SCORE_INTERVAL && final(self).0
                    == #[trigger] saturating_sum(score as int, i),
    {
        if score >= self.0 {
            let interval: u32 = random_between(
                MIN_UFO_SCORE_INTERVAL as i64,
                MAX_UFO_SCORE_INTERVAL as i64,
            ) as u32;
            self.0 = if score > u32::MAX - interval {
                u32::MAX
            } else {
                score + interval
            };
            assert(self.0 == saturating_sum(score as int, interval as int));
            true
        } else {
            false
        }
    }
}

impl Ufo {
    pub open spec fn wf(self) -> bool {
        &&& 0 <= self.time
        &&& -COORD_MAX <= self.shoot_delay <= COORD_MAX
        &&& 0 <= self.shoot_accuracy <= 1000
    }

    /// A new UFO; see `spawn_spec`.
    pub fn spawn(
        level: &Level,
        horizontal: bool,
        direction: bool,
        d: Vec2,
        frequency: i64,
        amplitude: i64,
    ) -> (r: Ufo)
        requires
            d.within(COORD_MAX as int),
        ensures
            r == spawn_spec(*level, horizontal, direction, d, frequency, amplitude),
            r.wf(),
    {
        let start = if !horizontal && !direction {
            Vec2 { x: d.x, y: HALF_HEIGHT }
        } else if horizontal && !direction {
            Vec2 { x: HALF_WIDTH, y: d.y }
        } else if !horizontal && direction {
            Vec2 { x: d.x, y: -HALF_HEIGHT }
        } else {
            Vec2 { x: -HALF_WIDTH, y: d.y }
        };
        Ufo {
            start_position: start,
            end_position: Vec2 { x: -start.x, y: -start.y },
            frequency,
            amplitude,
            duration: level.ufo_duration(),
            time: 0,
            shoot_delay: level.ufo_shoot_delay(),
            shoot_accuracy: level.ufo_shoot_accuracy(),
            life: UFO_LIFE,
        }
    }

    /// A new UFO with its entry and path drawn at random; see `is_random_spawn`.
    pub fn spawn_random(level: &Level) -> (r: Ufo)
        ensures
            is_random_spawn(r, *level),
            r.wf(),
    {
        let horizontal = random_flag();
        let direction = random_flag();
        let d = Vec2 {
            x: random_between(0, 2 * HALF_WIDTH),
            y: random_between(0, 2 * HALF_HEIGHT),
        };
        let frequency: i64 = random_between(0, 5000);
        let amplitude: i64 = random_between(10000, 100000);
        let r = Ufo::spawn(level, horizontal, direction, d, frequency, amplitude);
        assert(r == spawn_spec(*level, horizontal, direction, d, frequency, amplitude));
        r
    }

    /// Advances the UFO's clock by `dt` milliseconds; returns whether the
    /// crossing is over, so that the UFO has flown off.
    pub fn advance(&mut self, dt: i64) -> (flown: bool)
        requires
            old(self).wf(),
            0 <= dt <= MAX_FRAME,
        ensures
            final(self).wf(),
            *final(self) == (Ufo {
                time: (if old(self).time + dt > i64::MAX {
                    i64::MAX as int
                } else {
                    old(self).time + dt
                }) as i64,
                ..*old(self)
            }),
            flown == (final(self).time >= final(self).duration),
    {
        self.time = if self.time > i64::MAX - dt {
            i64::MAX
        } else {
            self.time + dt
        };
        self.time >= self.duration
    }

    /// How far through its crossing the UFO is, in per-mille, up to one;
    /// complete for a crossing of no duration.
    pub fn progress(&self) -> (r: i64)
        requires
            self.wf(),
        ensures
            self.duration <= 0 ==> r == 1000,
            self.duration > 0 ==> r == if self.time as int * 1000 / (self.duration as int)
                > 1000 {
                1000
            } else {
                self.time as int * 1000 / (self.duration as int)
            },
    {
        if self.duration <= 0 {
            return 1000;
        }
        let p: i128 = self.time as i128 * 1000 / self.duration as i128;
        if p > 1000 {
            1000
        } else {
            proof {
                assert(p >= 0) by (nonlinear_arith)
                    requires
                        self.time >= 0,
                        self.duration > 0,
                        p as int == (self.time as int * 1000) / (self.duration as int),
                ;
            }
            p as i64
        }
    }

    /// Counts the shot delay down by `dt` milliseconds.  When it runs out the
    /// UFO fires: the delay restarts at `UFO_SHOOT_INTERVAL` and the shot's
    /// aiming error, in thousandths of a radian off the line to the ship, is
    /// returned (see `aim_error_spec`).
    pub fn shoot_tick(&mut self, dt: i64) -> (r: Option<i64>)
        requires
            old(self).wf(),
            0 <= dt <= MAX_FRAME,
        ensures
            final(self).wf(),
            old(self).shoot_delay - dt > 0 ==> r is None && *final(self) == (Ufo {
                shoot_delay: (old(self).shoot_delay - dt) as i64,
                ..*old(self)
            }),
            old(self).shoot_delay - dt <= 0 ==> *final(self) == (Ufo {
                shoot_delay: UFO_SHOOT_INTERVAL,
                ..*old(self)
            }) && (r matches Some(e) && exists|k: int|
                0 <= k <= 1000 && e == #[trigger] aim_error_spec(old(self).shoot_accuracy as int, k)),
    {
        self.shoot_delay = self.shoot_delay - dt;
        if self.shoot_delay > 0 {
            return None;
        }
        self.shoot_delay = UFO_SHOOT_INTERVAL;
        let k: i64 = random_between(0, 1000);
        Some(aim_error(self.shoot_accuracy, k))
    }

    /// What the UFO leaves once its life is gone, none while it has life:
    /// one random pickup, drifting at a random speed from 30 to 80 units per
    /// second in a random direction, and `UFO_SCORE` added to `score`.
    pub fn wreck(&self, score: &mut Score) -> (r: Option<UfoWreck>)
        ensures
            (self.life > 0) == (r is None),
            r is None ==> *final(score) == *old(score),
            r matches Some(w) ==> {
                &&& w.score == UFO_SCORE
                &&& 30000 <= w.speed <= 80000
                &&& 0 <= w.heading < TAU_MILLI
                &&& final(score).0 == if old(score).0 + UFO_SCORE > u32::MAX {
                    u32::MAX as int
                } else {
                    old(score).0 + UFO_SCORE
                }
            },
    {
        if self.life > 0 {
            return None;
        }
        let index: i64 = random_between(0, 6);
        let powerup = Powerup::from_index(index as u32);
        let speed: i64 = random_between(30000, 80000);
        let heading: i64 = random_between(0, TAU_MILLI - 1);
        score.increase(UFO_SCORE);
        Some(UfoWreck { powerup, speed, heading, score: UFO_SCORE })
    }
}

/// The aiming error for accuracy `accuracy` and draw `k`; see `aim_error_spec`.
pub fn aim_error(accuracy: i64, k: i64) -> (r: i64)
    requires
        0 <= accuracy <= 1000,
        0 <= k <= 1000,
    ensures
        r == aim_error_spec(accuracy as int, k as int),
{
    let inaccuracy: i128 = 1000 - accuracy as i128;
    let offset: i128 = k as i128 - 500;
    assert(-500000 * PI_MILLI <= inaccuracy * offset * PI_MILLI <= 500000 * PI_MILLI)
        by (nonlinear_arith)
        requires
            0 <= inaccuracy <= 1000,
            -500 <= offset <= 500,
    ;
    let p: i128 = inaccuracy * offset * PI_MILLI as i128;
    proof {
        crate::fixed::lemma_div_range(p as int, 2000, 1000000);
    }
    crate::fixed::floor_div(p, 1000000) as i64
}

} // verus!
