//! Contact between bodies: asteroids bouncing off each other, the ship meeting
//! asteroids, UFOs and UFO lasers, and the sparks a hit throws off.
use crate::fixed::{
    clamp_coord, clamp_spec, floor_div, is_sqrt_floor, isqrt, lemma_div_magnitude, sqrt_floor,
    COORD_MAX,
};
use crate::geometry::{dot_spec, dot_wide, mul_wide, Vec2};
use crate::motion::Moving;
use crate::random::random_between;
use crate::ship::{ContactOutcome, Ship};
use vstd::prelude::*;

verus! {

/// Sparks thrown off by one hit.
pub const SPARKS_PER_HIT: usize = 10;

/// Are two bodies `(dx, dy)` apart (first minus second), with relative velocity
/// `(vx, vy)` per second, moving apart: does a hundredth of a second of that
/// motion widen the gap?
pub open spec fn parting_spec(dx: int, dy: int, vx: int, vy: int) -> bool {
    let ex = dx + vx / 100;
    let ey = dy + vy / 100;
    dot_spec(dx, dy, dx, dy) < dot_spec(ex, ey, ex, ey)
}

/// The length of a vector, rounded down.
pub open spec fn speed_spec(v: Vec2) -> int {
    sqrt_floor(dot_spec(v.x as int, v.y as int, v.x as int, v.y as int))
}

/// A velocity of magnitude `speed` along `(dx, dy)`, for a non-zero `(dx, dy)`:
/// `(dx, dy) · speed / |(dx, dy)|`, each axis rounded down and held to the
/// coordinate range.
pub open spec fn along_spec(dx: int, dy: int, speed: int) -> Vec2 {
    let len = sqrt_floor(dot_spec(dx, dy, dx, dy));
    Vec2 {
        x: clamp_spec(dx * speed / len, -(COORD_MAX as int), COORD_MAX as int) as i64,
        y: clamp_spec(dy * speed / len, -(COORD_MAX as int), COORD_MAX as int) as i64,
    }
}

/// The velocity a shield gives the ship, `(dx, dy)` away from what it met:
/// along that direction, at the sum of both bodies' speeds along it, i.e.
/// `(dx, dy) · (|va · d| + |vs · d|) / |d|²`, each axis rounded down and held to
/// the coordinate range; unchanged when the two centres coincide.
pub open spec fn shield_bounce_spec(dx: int, dy: int, va: Vec2, vs: Vec2) -> Vec2 {
    let dd = dot_spec(dx, dy, dx, dy);
    let s = abs(dot_spec(va.x as int, va.y as int, dx, dy)) + abs(
        dot_spec(vs.x as int, vs.y as int, dx, dy),
    );
    if dd == 0 {
        vs
    } else {
        Vec2 {
            x: clamp_spec(dx * s / dd, -(COORD_MAX as int), COORD_MAX as int) as i64,
            y: clamp_spec(dy * s / dd, -(COORD_MAX as int), COORD_MAX as int) as i64,
        }
    }
}

pub open spec fn abs(v: int) -> int {
    if v < 0 {
        -v
    } else {
        v
    }
}

/// The per-mille unit vector along a non-zero `(dx, dy)`, each axis rounded down.
pub open spec fn unit_spec(dx: int, dy: int) -> Vec2 {
    let len = sqrt_floor(dot_spec(dx, dy, dx, dy));
    Vec2 { x: (dx * 1000 / len) as i64, y: (dy * 1000 / len) as i64 }
}

/// A spark's velocity: the per-mille direction `dir`, bent sideways by
/// `jitter` per-mille of its perpendicular, times `speed`, rounded down.
pub open spec fn spark_velocity_spec(dir: Vec2, jitter: int, speed: int) -> Vec2 {
    Vec2 {
        x: ((dir.x * 1000 - dir.y * jitter) * speed / 1000000) as i64,
        y: ((dir.y * 1000 + dir.x * jitter) * speed / 1000000) as i64,
    }
}

/// `v` is the velocity of a spark thrown along `dir`, for some jitter in
/// `[-500, 500]` per-mille and some speed from 10 to 100 units per second.
pub open spec fn is_spark(v: Vec2, dir: Vec2) -> bool {
    exists|j: int, s: int|
        -500 <= j <= 500 && 10000 <= s <= 100000 && v == #[trigger] spark_velocity_spec(dir, j, s)
}

proof fn lemma_axis_within_length(dx: int, dy: int, len: int)
    requires
        is_sqrt_floor(dot_spec(dx, dy, dx, dy), len),
    ensures
        -len <= dx <= len,
        -len <= dy <= len,
        dot_spec(dx, dy, dx, dy) > 0 ==> len >= 1,
{
    assert(-len <= dx <= len && -len <= dy <= len) by (nonlinear_arith)
        requires
            0 <= len,
            dx * dx + dy * dy < (len + 1) * (len + 1),
    ;
}

fn parting(dx: i128, dy: i128, vx: i128, vy: i128) -> (r: bool)
    requires
        -0x200_0000 <= dx <= 0x200_0000,
        -0x200_0000 <= dy <= 0x200_0000,
        -0x200_0000 <= vx <= 0x200_0000,
        -0x200_0000 <= vy <= 0x200_0000,
    ensures
        r == parting_spec(dx as int, dy as int, vx as int, vy as int),
{
    let qx: i128 = floor_div(vx, 100);
    let qy: i128 = floor_div(vy, 100);
    proof {
        lemma_div_magnitude(vx as int, 100);
        lemma_div_magnitude(vy as int, 100);
    }
    dot_wide(dx, dy, dx, dy) < dot_wide(dx + qx, dy + qy, dx + qx, dy + qy)
}

fn speed(v: Vec2) -> (r: i128)
    requires
        v.within(COORD_MAX as int),
    ensures
        r == speed_spec(v),
        0 <= r <= 0x200_0000,
{
    let vv: i128 = dot_wide(v.x as i128, v.y as i128, v.x as i128, v.y as i128);
    assert(vv >= 0) by (nonlinear_arith)
        requires
            vv == v.x * v.x + v.y * v.y,
    ;
    let r: u64 = isqrt(vv as u128);
    proof {
        crate::fixed::lemma_mul_abs_bound(v.x as int, v.x as int, COORD_MAX as int, COORD_MAX as int);
        crate::fixed::lemma_mul_abs_bound(v.y as int, v.y as int, COORD_MAX as int, COORD_MAX as int);
        assert(r <= 0x200_0000) by (nonlinear_arith)
            requires
                r * r <= vv,
                vv <= 2 * COORD_MAX * COORD_MAX,
                r >= 0,
        ;
    }
    r as i128
}

fn along(dx: i128, dy: i128, sp: i128) -> (r: Vec2)
    requires
        -0x200_0000 <= dx <= 0x200_0000,
        -0x200_0000 <= dy <= 0x200_0000,
        dx != 0 || dy != 0,
        0 <= sp <= 0x200_0000,
    ensures
        r == along_spec(dx as int, dy as int, sp as int),
{
    let dd: i128 = dot_wide(dx, dy, dx, dy);
    assert(dd > 0) by (nonlinear_arith)
        requires
            dd == dx * dx + dy * dy,
            dx != 0 || dy != 0,
    ;
    let len: i128 = isqrt(dd as u128) as i128;
    proof {
        lemma_axis_within_length(dx as int, dy as int, len as int);
    }
    Vec2 {
        x: clamp_coord(floor_div(mul_wide(dx, sp), len)),
        y: clamp_coord(floor_div(mul_wide(dy, sp), len)),
    }
}

/// Two asteroids that touch bounce apart: unless they are already parting
/// (or their centres coincide), each keeps its speed and takes the direction
/// from the other's centre to its own.  Returns whether they bounced.
pub fn asteroid_bounce(a_pos: Vec2, a: &mut Moving, b_pos: Vec2, b: &mut Moving) -> (r: bool)
    requires
        a_pos.within(COORD_MAX as int),
        b_pos.within(COORD_MAX as int),
        old(a).wf(),
        old(b).wf(),
    ensures
        final(a).wf(),
        final(b).wf(),
        ({
            let dx = a_pos.x - b_pos.x;
            let dy = a_pos.y - b_pos.y;
            &&& r == (!parting_spec(
                dx,
                dy,
                old(a).velocity.x - old(b).velocity.x,
                old(a).velocity.y - old(b).velocity.y,
            ) && dot_spec(dx, dy, dx, dy) != 0)
            &&& r ==> *final(a) == (Moving {
                velocity: along_spec(dx, dy, speed_spec(old(a).velocity)),
                ..*old(a)
            }) && *final(b) == (Moving {
                velocity: along_spec(-dx, -dy, speed_spec(old(b).velocity)),
                ..*old(b)
            })
            &&& !r ==> *final(a) == *old(a) && *final(b) == *old(b)
        }),
{
    let dx: i128 = a_pos.x as i128 - b_pos.x as i128;
    let dy: i128 = a_pos.y as i128 - b_pos.y as i128;
    let vx: i128 = a.velocity.x as i128 - b.velocity.x as i128;
    let vy: i128 = a.velocity.y as i128 - b.velocity.y as i128;
    if parting(dx, dy, vx, vy) {
        return false;
    }
    let dd: i128 = dot_wide(dx, dy, dx, dy);
    if dd == 0 {
        return false;
    }
    assert(dx != 0 || dy != 0) by (nonlinear_arith)
        requires
            dd == dx * dx + dy * dy,
            dd != 0,
    ;
    let sa: i128 = speed(a.velocity);
    let sb: i128 = speed(b.velocity);
    a.velocity = along(dx, dy, sa);
    b.velocity = along(-dx, -dy, sb);
    true
}

fn shield_bounce(dx: i128, dy: i128, va: Vec2, vs: Vec2) -> (r: Vec2)
    requires
        -0x200_0000 <= dx <= 0x200_0000,
        -0x200_0000 <= dy <= 0x200_0000,
        va.within(COORD_MAX as int),
        vs.within(COORD_MAX as int),
    ensures
        r == shield_bounce_spec(dx as int, dy as int, va, vs),
        r.within(COORD_MAX as int) || r == vs,
{
    let dd: i128 = dot_wide(dx, dy, dx, dy);
    assert(dd >= 0) by (nonlinear_arith)
        requires
            dd == dx * dx + dy * dy,
    ;
    if dd == 0 {
        return vs;
    }
    let pa: i128 = dot_wide(va.x as i128, va.y as i128, dx, dy);
    let ps: i128 = dot_wide(vs.x as i128, vs.y as i128, dx, dy);
    let s: i128 = (if pa < 0 {
        -pa
    } else {
        pa
    }) + (if ps < 0 {
        -ps
    } else {
        ps
    });
    Vec2 {
        x: clamp_coord(floor_div(mul_wide(dx, s), dd)),
        y: clamp_coord(floor_div(mul_wide(dy, s), dd)),
    }
}

impl Ship {
    /// The ship, at `ship_pos` with motion `ship`, touching an asteroid at
    /// `asteroid_pos` with motion `asteroid`.  Nothing happens while the ship
    /// is invulnerable or while the two are parting.  Otherwise a shield
    /// charge, if any, is spent and the ship bounces off (see
    /// `shield_bounce_spec`); without one the ship is destroyed.
    pub fn asteroid_contact(
        &mut self,
        ship_pos: Vec2,
        ship: &mut Moving,
        asteroid_pos: Vec2,
        asteroid: &Moving,
    ) -> (r: ContactOutcome)
        requires
            ship_pos.within(COORD_MAX as int),
            asteroid_pos.within(COORD_MAX as int),
            old(ship).wf(),
            asteroid.wf(),
        ensures
            final(ship).wf(),
            ({
                let dx = ship_pos.x - asteroid_pos.x;
                let dy = ship_pos.y - asteroid_pos.y;
                let touching = old(self).invulnerability <= 0 && !parting_spec(
                    dx,
                    dy,
                    old(ship).velocity.x - asteroid.velocity.x,
                    old(ship).velocity.y - asteroid.velocity.y,
                );
                &&& !touching ==> r == ContactOutcome::Ignored && *final(self) == *old(self)
                    && *final(ship) == *old(ship)
                &&& touching && old(self).shield_level > 0 ==> r == ContactOutcome::Shielded
                    && *final(self) == (Ship {
                    shield_level: (old(self).shield_level - 1) as u8,
                    ..*old(self)
                }) && *final(ship) == (Moving {
                    velocity: shield_bounce_spec(dx, dy, asteroid.velocity, old(ship).velocity),
                    ..*old(ship)
                })
                &&& touching && old(self).shield_level == 0 ==> r == ContactOutcome::Destroyed
                    && *final(self) == old(self).died_spec() && *final(ship) == *old(ship)
            }),
    {
        if self.invulnerability > 0 {
            return ContactOutcome::Ignored;
        }
        let dx: i128 = ship_pos.x as i128 - asteroid_pos.x as i128;
        let dy: i128 = ship_pos.y as i128 - asteroid_pos.y as i128;
        let vx: i128 = ship.velocity.x as i128 - asteroid.velocity.x as i128;
        let vy: i128 = ship.velocity.y as i128 - asteroid.velocity.y as i128;
        if parting(dx, dy, vx, vy) {
            return ContactOutcome::Ignored;
        }
        if self.shield_level > 0 {
            self.shield_level = self.shield_level - 1;
            ship.velocity = shield_bounce(dx, dy, asteroid.velocity, ship.velocity);
            ContactOutcome::Shielded
        } else {
            self.die();
            ContactOutcome::Destroyed
        }
    }

    /// The ship touching a UFO with `ufo_life` hit points.  Nothing happens
    /// while the ship is invulnerable or the UFO already destroyed.  Otherwise
    /// a shield charge, if any, is spent and destroys the UFO; without one the
    /// ship is destroyed.
    pub fn ufo_contact(&mut self, ufo_life: &mut i32) -> (r: ContactOutcome)
        ensures
            old(self).invulnerability > 0 || *old(ufo_life) <= 0 ==> r == ContactOutcome::Ignored
                && *final(self) == *old(self) && *final(ufo_life) == *old(ufo_life),
            old(self).invulnerability <= 0 && *old(ufo_life) > 0 && old(self).shield_level > 0
                ==> r == ContactOutcome::Shielded && *final(self) == (Ship {
                shield_level: (old(self).shield_level - 1) as u8,
                ..*old(self)
            }) && *final(ufo_life) == 0,
            old(self).invulnerability <= 0 && *old(ufo_life) > 0 && old(self).shield_level == 0
                ==> r == ContactOutcome::Destroyed && *final(self) == old(self).died_spec()
                && *final(ufo_life) == *old(ufo_life),
    {
        if self.invulnerability > 0 || *ufo_life <= 0 {
            return ContactOutcome::Ignored;
        }
        if self.shield_level > 0 {
            self.shield_level = self.shield_level - 1;
            *ufo_life = 0;
            ContactOutcome::Shielded
        } else {
            self.die();
            ContactOutcome::Destroyed
        }
    }

    /// The ship hit by a UFO laser moving with `laser`.  Nothing happens while
    /// the ship is invulnerable; otherwise the laser is used up, and a shield
    /// charge, if any, is spent and the ship takes a tenth of the laser's
    /// velocity (each axis rounded down, held to the coordinate range); without
    /// one the ship is destroyed.
    pub fn laser_contact(&mut self, ship: &mut Moving, laser: &Moving) -> (r: ContactOutcome)
        requires
            old(ship).wf(),
            laser.wf(),
        ensures
            final(ship).wf(),
            old(self).invulnerability > 0 ==> r == ContactOutcome::Ignored && *final(self) == *old(
                self,
            ) && *final(ship) == *old(ship),
            old(self).invulnerability <= 0 && old(self).shield_level > 0 ==> r
                == ContactOutcome::Shielded && *final(self) == (Ship {
                shield_level: (old(self).shield_level - 1) as u8,
                ..*old(self)
            }) && *final(ship) == (Moving {
                velocity: Vec2 {
                    x: clamp_spec(
                        old(ship).velocity.x + laser.velocity.x / 10,
                        -(COORD_MAX as int),
                        COORD_MAX as int,
                    ) as i64,
                    y: clamp_spec(
                        old(ship).velocity.y + laser.velocity.y / 10,
                        -(COORD_MAX as int),
                        COORD_MAX as int,
                    ) as i64,
                },
                ..*old(ship)
            }),
            old(self).invulnerability <= 0 && old(self).shield_level == 0 ==> r
                == ContactOutcome::Destroyed && *final(self) == old(self).died_spec() && *final(ship)
                == *old(ship),
    {
        if self.invulnerability > 0 {
            return ContactOutcome::Ignored;
        }
        if self.shield_level > 0 {
            self.shield_level = self.shield_level - 1;
            let x: i128 = ship.velocity.x as i128 + floor_div(laser.velocity.x as i128, 10);
            let y: i128 = ship.velocity.y as i128 + floor_div(laser.velocity.y as i128, 10);
            proof {
                lemma_div_magnitude(laser.velocity.x as int, 10);
                lemma_div_magnitude(laser.velocity.y as int, 10);
            }
            ship.velocity = Vec2 { x: clamp_coord(x), y: clamp_coord(y) };
            ContactOutcome::Shielded
        } else {
            self.die();
            ContactOutcome::Destroyed
        }
    }
}

/// A spark's velocity; see `spark_velocity_spec`.
pub fn spark_velocity(dir: Vec2, jitter: i64, speed: i64) -> (r: Vec2)
    requires
        dir.within(1000),
        -500 <= jitter <= 500,
        0 <= speed <= 100000,
    ensures
        r == #[trigger] spark_velocity_spec(dir, jitter as int, speed as int),
{
    let dx: i128 = dir.x as i128;
    let dy: i128 = dir.y as i128;
    let j: i128 = jitter as i128;
    let s: i128 = speed as i128;
    assert(-2000000 <= dx * 1000 - dy * j <= 2000000 && -2000000 <= dy * 1000 + dx * j <= 2000000)
        by (nonlinear_arith)
        requires
            -1000 <= dx <= 1000,
            -1000 <= dy <= 1000,
            -500 <= j <= 500,
    ;
    let px: i128 = dx * 1000 - dy * j;
    let py: i128 = dy * 1000 + dx * j;
    assert(-200000000000 <= px * s <= 200000000000 && -200000000000 <= py * s <= 200000000000)
        by (nonlinear_arith)
        requires
            -2000000 <= px <= 2000000,
            -2000000 <= py <= 2000000,
            0 <= s <= 100000,
    ;
    let qx: i128 = floor_div(px * s, 1000000);
    let qy: i128 = floor_div(py * s, 1000000);
    proof {
        lemma_div_magnitude(px * s, 1000000);
        lemma_div_magnitude(py * s, 1000000);
    }
    Vec2 { x: qx as i64, y: qy as i64 }
}

/// The sparks a hit at `point` throws off a target centred at `center`: none
/// when the point is the centre (there is no outward direction), else
/// `SPARKS_PER_HIT` of them, each heading outward from the centre bent by a
/// random jitter in `[-500, 500]` per-mille, at a random speed from 10 to 100
/// units per second.
pub fn sparks(point: Vec2, center: Vec2) -> (r: Vec<Vec2>)
    requires
        point.within(COORD_MAX as int),
        center.within(COORD_MAX as int),
    ensures
        point == center ==> r@.len() == 0,
        point != center ==> r@.len() == SPARKS_PER_HIT,
        forall|i: int|
            0 <= i < r@.len() ==> is_spark(r@[i], unit_spec(point.x - center.x, point.y - center.y)),
{
    let mut out: Vec<Vec2> = Vec::new();
    let dx: i128 = point.x as i128 - center.x as i128;
    let dy: i128 = point.y as i128 - center.y as i128;
    if dx == 0 && dy == 0 {
        return out;
    }
    let dd: i128 = dot_wide(dx, dy, dx, dy);
    assert(dd > 0) by (nonlinear_arith)
        requires
            dd == dx * dx + dy * dy,
            dx != 0 || dy != 0,
    ;
    let len: i128 = isqrt(dd as u128) as i128;
    proof {
        lemma_axis_within_length(dx as int, dy as int, len as int);
        assert(-1000 * len <= dx * 1000 <= 1000 * len && -1000 * len <= dy * 1000 <= 1000 * len)
            by (nonlinear_arith)
            requires
                -len <= dx <= len,
                -len <= dy <= len,
        ;
        crate::fixed::lemma_div_range(dx * 1000, 1000, len as int);
        crate::fixed::lemma_div_range(dy * 1000, 1000, len as int);
    }
    let dir = Vec2 { x: floor_div(dx * 1000, len) as i64, y: floor_div(dy * 1000, len) as i64 };
    let ghost unit = unit_spec(point.x - center.x, point.y - center.y);
    assert(dir == unit);
    let mut i: usize = 0;
    while i < SPARKS_PER_HIT
        invariant
            0 <= i <= SPARKS_PER_HIT,
            out@.len() == i,
            dir == unit,
            dir.within(1000),
            forall|k: int| 0 <= k < out@.len() ==> is_spark(out@[k], unit),
        decreases SPARKS_PER_HIT - i,
    {
        let s: i64 = random_between(10000, 100000);
        let j: i64 = random_between(-500, 500);
        let v = spark_velocity(dir, j, s);
        let ghost old_out = out@;
        out.push(v);
        proof {
            assert(is_spark(v, unit)) by {
                assert(v == spark_velocity_spec(unit, j as int, s as int));
            }
            assert forall|k: int| 0 <= k < out@.len() implies is_spark(out@[k], unit) by {
                if k < i {
                    assert(out@[k] == old_out[k]);
                }
            }
        }
        i = i + 1;
    }
    out
}

} // verus!
