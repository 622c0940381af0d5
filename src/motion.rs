//! Per-frame motion: integration, spin, world wrap, expiry, and the scale and
//! fade tweens.
use crate::fixed::{clamp_spec, floor_div, lerp, lerp_spec, COORD_MAX};
use crate::geometry::Vec2;
use crate::ship::MAX_FRAME;
use vstd::prelude::*;

verus! {

/// Half the world's width, in thousandths of a unit.
pub const HALF_WIDTH: i64 = 400000;

/// Half the world's height, in thousandths of a unit.
pub const HALF_HEIGHT: i64 = 240000;

/// A full turn, in thousandths of a radian.
pub const TAU_MILLI: i64 = 6283;

/// Velocity and acceleration, per second and per second squared, in
/// thousandths of a unit.
#[derive(Clone, Copy, Debug, PartialEq, Eq, Structural)]
pub struct Moving {
    pub velocity: Vec2,
    pub acceleration: Vec2,
}

/// Rotation speed in thousandths of a radian per second.
#[derive(Clone, Copy, Debug, PartialEq, Eq, Structural)]
pub struct Spinning {
    pub speed: i64,
}

/// Remaining life in milliseconds.
#[derive(Clone, Copy, Debug, PartialEq, Eq, Structural)]
pub struct Expiring {
    pub life: i64,
}

/// A scale that moves linearly from `from` to `to` over `duration` milliseconds.
#[derive(Clone, Copy, Debug, PartialEq, Eq, Structural)]
pub struct Scaling {
    pub from: i64,
    pub to: i64,
    pub duration: i64,
    pub elapsed: i64,
}

/// An opacity that moves linearly from `from` to `to` over `duration` milliseconds.
#[derive(Clone, Copy, Debug, PartialEq, Eq, Structural)]
pub struct Fading {
    pub from: i64,
    pub to: i64,
    pub duration: i64,
    pub elapsed: i64,
}

/// `v` moved by `rate · dt` (rate per second, `dt` in milliseconds, rounded
/// down) and held to the coordinate range.
pub open spec fn advance_spec(v: int, rate: int, dt: int) -> int {
    clamp_spec(v + rate * dt / 1000, -(COORD_MAX as int), COORD_MAX as int)
}

/// A coordinate carried back into `[-half, half]` across the world's edge.
pub open spec fn wrap_spec(v: int, half: int) -> int {
    if v > half {
        v - 2 * half
    } else if v < -half {
        v + 2 * half
    } else {
        v
    }
}

/// A tween's value after `elapsed` milliseconds: the end value for a tween of
/// no duration, else the interpolation at `elapsed / duration`.
pub open spec fn tween_spec(from: int, to: int, duration: int, elapsed: int) -> int {
    if duration <= 0 {
        to
    } else {
        lerp_spec(from, to, elapsed * 1000 / duration)
    }
}

fn advance(v: i64, rate: i64, dt: i64) -> (r: i64)
    requires
        -COORD_MAX <= v <= COORD_MAX,
        -COORD_MAX <= rate <= COORD_MAX,
        0 <= dt <= MAX_FRAME,
    ensures
        r == advance_spec(v as int, rate as int, dt as int),
        -COORD_MAX <= r <= COORD_MAX,
{
    assert(-COORD_MAX * 1000 <= rate * dt <= COORD_MAX * 1000) by (nonlinear_arith)
        requires
            -COORD_MAX <= rate <= COORD_MAX,
            0 <= dt <= 1000,
    ;
    let s: i128 = v as i128 + floor_div(rate as i128 * dt as i128, 1000);
    if s < -(COORD_MAX as i128) {
        -COORD_MAX
    } else if s > COORD_MAX as i128 {
        COORD_MAX
    } else {
        s as i64
    }
}

fn wrap(v: i64, half: i64) -> (r: i64)
    requires
        0 < half <= COORD_MAX,
        -COORD_MAX <= v <= COORD_MAX,
    ensures
        r == wrap_spec(v as int, half as int),
{
    if v > half {
        v - 2 * half
    } else if v < -half {
        v + 2 * half
    } else {
        v
    }
}

impl Moving {
    pub open spec fn wf(self) -> bool {
        self.velocity.within(COORD_MAX as int) && self.acceleration.within(COORD_MAX as int)
    }

    /// At rest.
    pub fn new() -> (r: Moving)
        ensures
            r.velocity == (Vec2 { x: 0, y: 0 }),
            r.acceleration == (Vec2 { x: 0, y: 0 }),
    {
        Moving { velocity: Vec2 { x: 0, y: 0 }, acceleration: Vec2 { x: 0, y: 0 } }
    }

    /// Moving at `velocity`, with no acceleration.
    pub fn from_velocity(velocity: Vec2) -> (r: Moving)
        ensures
            r.velocity == velocity,
            r.acceleration == (Vec2 { x: 0, y: 0 }),
    {
        Moving { velocity, acceleration: Vec2 { x: 0, y: 0 } }
    }

    /// One semi-implicit Euler step of `dt` milliseconds: the velocity takes
    /// the acceleration, then the position takes the new velocity; each axis
    /// is held to the coordinate range.
    pub fn integrate(&mut self, position: &mut Vec2, dt: i64)
        requires
            old(self).wf(),
            old(position).within(COORD_MAX as int),
            0 <= dt <= MAX_FRAME,
        ensures
            final(self).wf(),
            final(position).within(COORD_MAX as int),
            final(self).acceleration == old(self).acceleration,
            final(self).velocity.x == advance_spec(
                old(self).velocity.x as int,
                old(self).acceleration.x as int,
                dt as int,
            ),
            final(self).velocity.y == advance_spec(
                old(self).velocity.y as int,
                old(self).acceleration.y as int,
                dt as int,
            ),
            final(position).x == advance_spec(
                old(position).x as int,
                final(self).velocity.x as int,
                dt as int,
            ),
            final(position).y == advance_spec(
                old(position).y as int,
                final(self).velocity.y as int,
                dt as int,
            ),
    {
        self.velocity = Vec2 {
            x: advance(self.velocity.x, self.acceleration.x, dt),
            y: advance(self.velocity.y, self.acceleration.y, dt),
        };
        *position = Vec2 {
            x: advance(position.x, self.velocity.x, dt),
            y: advance(position.y, self.velocity.y, dt),
        };
    }
}

/// Carries a position across the world's edges, each axis on its own.
pub fn wrap_position(position: &mut Vec2)
    requires
        old(position).within(COORD_MAX as int),
    ensures
        final(position).x == wrap_spec(old(position).x as int, HALF_WIDTH as int),
        final(position).y == wrap_spec(old(position).y as int, HALF_HEIGHT as int),
{
    *position = Vec2 { x: wrap(position.x, HALF_WIDTH), y: wrap(position.y, HALF_HEIGHT) };
}

impl Spinning {
    /// The heading `angle`, in `[0, TAU_MILLI)`, turned by one frame of spin and
    /// brought back into that range.
    pub fn advance(&self, angle: i64, dt: i64) -> (r: i64)
        requires
            0 <= angle < TAU_MILLI,
            -TAU_MILLI <= self.speed <= TAU_MILLI,
            0 <= dt <= MAX_FRAME,
        ensures
            0 <= r < TAU_MILLI,
            ({
                let s = angle + self.speed * dt / 1000;
                r == if s >= TAU_MILLI {
                    s - TAU_MILLI
                } else if s < 0 {
                    s + TAU_MILLI
                } else {
                    s
                }
            }),
    {
        assert(-TAU_MILLI * 1000 <= self.speed * dt <= TAU_MILLI * 1000) by (nonlinear_arith)
            requires
                -TAU_MILLI <= self.speed <= TAU_MILLI,
                0 <= dt <= 1000,
        ;
        let turned: i128 = floor_div(self.speed as i128 * dt as i128, 1000);
        proof {
            crate::fixed::lemma_div_range(self.speed * dt, TAU_MILLI as int, 1000);
        }
        let s: i64 = angle + turned as i64;
        if s >= TAU_MILLI {
            s - TAU_MILLI
        } else if s < 0 {
            s + TAU_MILLI
        } else {
            s
        }
    }
}

impl Expiring {
    /// Counts the life down by `dt` milliseconds; returns whether it has run
    /// out (fallen below zero).
    pub fn tick(&mut self, dt: i64) -> (expired: bool)
        requires
            old(self).life >= i64::MIN + MAX_FRAME,
            0 <= dt <= MAX_FRAME,
        ensures
            final(self).life == old(self).life - dt,
            expired == (final(self).life < 0),
    {
        self.life = self.life - dt;
        self.life < 0
    }
}

fn tween_value(from: i64, to: i64, duration: i64, elapsed: i64) -> (r: i64)
    requires
        -COORD_MAX <= from <= COORD_MAX,
        -COORD_MAX <= to <= COORD_MAX,
        0 <= elapsed,
    ensures
        r == tween_spec(from as int, to as int, duration as int, elapsed as int),
{
    if duration <= 0 {
        to
    } else {
        let t: i128 = elapsed as i128 * 1000 / duration as i128;
        let t64: i64 = if t > 1000 {
            1000
        } else {
            t as i64
        };
        proof {
            assert(t >= 0) by (nonlinear_arith)
                requires
                    elapsed >= 0,
                    duration > 0,
                    t as int == (elapsed as int * 1000) / (duration as int),
            ;
        }
        lerp(from, to, t64)
    }
}

/// Adds `dt` to `elapsed`, stopping at the largest representable time.
fn add_elapsed(elapsed: i64, dt: i64) -> (r: i64)
    requires
        0 <= elapsed,
        0 <= dt,
    ensures
        r == if elapsed + dt > i64::MAX {
            i64::MAX as int
        } else {
            elapsed + dt
        },
{
    if elapsed > i64::MAX - dt {
        i64::MAX
    } else {
        elapsed + dt
    }
}

impl Scaling {
    pub open spec fn wf(self) -> bool {
        -COORD_MAX <= self.from <= COORD_MAX && -COORD_MAX <= self.to <= COORD_MAX && 0
            <= self.elapsed
    }

    /// Advances the tween by `dt` milliseconds and returns the new scale.
    pub fn advance(&mut self, dt: i64) -> (r: i64)
        requires
            old(self).wf(),
            0 <= dt <= MAX_FRAME,
        ensures
            final(self).wf(),
            *final(self) == (Scaling {
                elapsed: (if old(self).elapsed + dt > i64::MAX {
                    i64::MAX as int
                } else {
                    old(self).elapsed + dt
                }) as i64,
                ..*old(self)
            }),
            r == tween_spec(
                old(self).from as int,
                old(self).to as int,
                old(self).duration as int,
                final(self).elapsed as int,
            ),
    {
        self.elapsed = add_elapsed(self.elapsed, dt);
        tween_value(self.from, self.to, self.duration, self.elapsed)
    }
}

impl Fading {
    pub open spec fn wf(self) -> bool {
        -COORD_MAX <= self.from <= COORD_MAX && -COORD_MAX <= self.to <= COORD_MAX && 0
            <= self.elapsed
    }

    /// Advances the tween by `dt` milliseconds and returns the new opacity.
    pub fn advance(&mut self, dt: i64) -> (r: i64)
        requires
            old(self).wf(),
            0 <= dt <= MAX_FRAME,
        ensures
            final(self).wf(),
            *final(self) == (Fading {
                elapsed: (if old(self).elapsed + dt > i64::MAX {
                    i64::MAX as int
                } else {
                    old(self).elapsed + dt
                }) as i64,
                ..*old(self)
            }),
            r == tween_spec(
                old(self).from as int,
                old(self).to as int,
                old(self).duration as int,
                final(self).elapsed as int,
            ),
    {
        self.elapsed = add_elapsed(self.elapsed, dt);
        tween_value(self.from, self.to, self.duration, self.elapsed)
    }
}

/// The frame of an animation of `frames` frames lasting `duration`
/// milliseconds, `elapsed` milliseconds in: `(frames − 1) · position / duration`
/// rounded down, the position wrapping round for a looping animation and
/// holding at the end otherwise.
pub fn animation_frame(elapsed: i64, duration: i64, frames: usize, looping: bool) -> (r: usize)
    requires
        0 <= elapsed,
        0 < duration,
        1 <= frames <= 1000000,
    ensures
        r < frames,
        r == (frames - 1) * (if looping {
            (elapsed % duration) as int
        } else if elapsed < duration {
            elapsed as int
        } else {
            duration as int
        }) / (duration as int),
{
    let position: i64 = if looping {
        elapsed % duration
    } else if elapsed < duration {
        elapsed
    } else {
        duration
    };
    let last: i128 = frames as i128 - 1;
    assert(0 <= last * position <= last * duration) by (nonlinear_arith)
        requires
            0 <= last,
            0 <= position <= duration,
    ;
    assert(last * duration <= 1000000 * 0x7fff_ffff_ffff_ffff) by (nonlinear_arith)
        requires
            0 <= last <= 1000000,
            0 < duration <= 0x7fff_ffff_ffff_ffff,
    ;
    let frame: i128 = last * position as i128 / duration as i128;
    proof {
        vstd::arithmetic::div_mod::lemma_div_is_ordered(
            last * position,
            last * duration,
            duration as int,
        );
        vstd::arithmetic::div_mod::lemma_div_multiples_vanish(last as int, duration as int);
        assert(last * duration == duration * last) by (nonlinear_arith);
        assert(frame >= 0) by (nonlinear_arith)
            requires
                frame as int == (last * position) / (duration as int),
                last * position >= 0,
                duration > 0,
        ;
    }
    frame as usize
}

} // verus!
