//! Collision geometry: circles and thick line segments in world space, and the
//! pose that carries a local shape into world space.
use crate::fixed::{
    clamp_coord, clamp_spec, floor_div, isqrt, lemma_div_magnitude, lemma_div_range, lemma_mul_abs_bound, sqrt_floor, COORD_MAX, ONE,
};
use vstd::arithmetic::div_mod::{lemma_div_is_ordered, lemma_div_multiples_vanish};
use vstd::prelude::*;

verus! {

/// Largest magnitude of a coordinate or size in a local shape or a pose.
pub const LOCAL_MAX: i64 = 4194304;

/// Largest scale factor of a pose, in per-mille.
pub const SCALE_MAX: i64 = 4000;

/// A point or a displacement in the plane.
#[derive(Clone, Copy, Debug, PartialEq, Eq, Structural)]
pub struct Vec2 {
    pub x: i64,
    pub y: i64,
}

impl Vec2 {
    /// Both coordinates lie in `[-m, m]`.
    pub open spec fn within(self, m: int) -> bool {
        -m <= self.x <= m && -m <= self.y <= m
    }

    pub fn new(x: i64, y: i64) -> (r: Vec2)
        ensures
            r.x == x,
            r.y == y,
    {
        Vec2 { x, y }
    }
}

pub open spec fn dot_spec(ux: int, uy: int, vx: int, vy: int) -> int {
    ux * vx + uy * vy
}

/// The z component of the cross product `u × v`.
pub open spec fn cross_spec(ux: int, uy: int, vx: int, vy: int) -> int {
    ux * vy - uy * vx
}

pub open spec fn dist_sq_spec(p: Vec2, q: Vec2) -> int {
    dot_spec(q.x - p.x, q.y - p.y, q.x - p.x, q.y - p.y)
}

/// Does a circle touch a line segment of half-width `width`?  When the centre
/// lies beside the segment, its distance to the line is compared against
/// `radius + width`; otherwise its distance to the nearer end point is.
pub open spec fn circle_line_hit_spec(
    center: Vec2,
    radius: int,
    base: Vec2,
    delta: Vec2,
    width: int,
) -> bool {
    let ax = center.x - base.x;
    let ay = center.y - base.y;
    let bx = ax - delta.x as int;
    let by = ay - delta.y as int;
    let reach = (radius + width) * (radius + width);
    let side = cross_spec(delta.x as int, delta.y as int, ax, ay);
    if dot_spec(delta.x as int, delta.y as int, ax, ay) * dot_spec(delta.x as int, delta.y as int, bx, by) < 0 {
        side * side < reach * dot_spec(delta.x as int, delta.y as int, delta.x as int, delta.y as int)
    } else if dot_spec(ax, ay, ax, ay) < dot_spec(bx, by, bx, by) {
        dot_spec(ax, ay, ax, ay) <= reach
    } else {
        dot_spec(bx, by, bx, by) <= reach
    }
}

/// Length of the projection of `a = center − base` onto the segment's line,
/// `|a · delta| / |delta|`, rounded down (as the root of the rounded-down square).
pub open spec fn projection_len_spec(center: Vec2, base: Vec2, delta: Vec2) -> int {
    let ax = center.x - base.x;
    let ay = center.y - base.y;
    let k = dot_spec(ax, ay, delta.x as int, delta.y as int);
    sqrt_floor((k * k) / dot_spec(delta.x as int, delta.y as int, delta.x as int, delta.y as int))
}

/// Half the chord that the segment's line cuts from the circle grown by
/// `width`: `sqrt((radius + width)² − h²)` with `h` the centre's distance from
/// the line, by Pythagoras with `radius + width` as hypotenuse; rounded down,
/// and zero when the line passes outside the grown circle.
pub open spec fn half_chord_spec(center: Vec2, radius: int, base: Vec2, delta: Vec2, width: int) -> int {
    let ax = center.x - base.x;
    let ay = center.y - base.y;
    let dd = dot_spec(delta.x as int, delta.y as int, delta.x as int, delta.y as int);
    let c = cross_spec(delta.x as int, delta.y as int, ax, ay);
    let q = ((radius + width) * (radius + width) * dd - c * c) / dd;
    sqrt_floor(if q < 0 {
        0
    } else {
        q
    })
}

/// How far along the segment's line, from its base, the circle's grown
/// boundary is met: `|L − sqrt((radius + width)² − h²)|`, with `L` the
/// projection length (`projection_len_spec`) and the root the half chord
/// (`half_chord_spec`); zero for a segment of no length.
pub open spec fn circle_line_distance_spec(
    center: Vec2,
    radius: int,
    base: Vec2,
    delta: Vec2,
    width: int,
) -> int {
    if dot_spec(delta.x as int, delta.y as int, delta.x as int, delta.y as int) == 0 {
        0
    } else {
        abs_spec(
            projection_len_spec(center, base, delta) - half_chord_spec(
                center,
                radius,
                base,
                delta,
                width,
            ),
        )
    }
}

pub open spec fn abs_spec(v: int) -> int {
    if v < 0 {
        -v
    } else {
        v
    }
}

/// The sign of `v`.
pub open spec fn sign_spec(v: int) -> int {
    if v > 0 {
        1
    } else if v < 0 {
        -1
    } else {
        0
    }
}

/// Where the segment's line enters the circle grown by `width`:
/// `base + l1q · (1 − sqrt((radius + width)² − h²) / L)`, with `l1q` the
/// projection of `center − base` onto the line and `L` its length, i.e. the
/// point `L − sqrt(…)` from the base along the line towards the centre's
/// projection, `base + delta · sign(a · delta) · (L − sqrt(…)) / |delta|`, each
/// axis rounded down (lengths as rounded-down roots) and clamped to the world
/// range; the base itself when the centre projects onto the base or the
/// segment has no length.
pub open spec fn circle_line_point_spec(
    center: Vec2,
    radius: int,
    base: Vec2,
    delta: Vec2,
    width: int,
) -> Vec2 {
    let ax = center.x - base.x;
    let ay = center.y - base.y;
    let dd = dot_spec(delta.x as int, delta.y as int, delta.x as int, delta.y as int);
    let k = dot_spec(ax, ay, delta.x as int, delta.y as int);
    if dd == 0 || k == 0 {
        base
    } else {
        let m = sign_spec(k) * (projection_len_spec(center, base, delta) - half_chord_spec(
            center,
            radius,
            base,
            delta,
            width,
        ));
        let len = sqrt_floor(dd);
        Vec2 {
            x: clamp_spec(base.x + delta.x * m / len, -(COORD_MAX as int), COORD_MAX as int) as i64,
            y: clamp_spec(base.y + delta.y * m / len, -(COORD_MAX as int), COORD_MAX as int) as i64,
        }
    }
}

/// The point at distance `r` from `from` towards `to` (rounded down per axis,
/// the length being the rounded-down root); `from` itself when the two coincide.
pub open spec fn toward_spec(from: Vec2, to: Vec2, r: int) -> Vec2 {
    let len = sqrt_floor(dist_sq_spec(from, to));
    if len == 0 {
        from
    } else {
        Vec2 {
            x: (from.x + (to.x - from.x) * r / len) as i64,
            y: (from.y + (to.y - from.y) * r / len) as i64,
        }
    }
}

/// A collision shape: a circle, or a segment from `base` to `base + delta`
/// thickened by `width` on each side.
#[derive(Clone, Copy, Debug, PartialEq, Eq, Structural)]
pub enum Shape {
    Circle { center: Vec2, radius: i64 },
    Line { base: Vec2, delta: Vec2, width: i64 },
}

impl Shape {
    /// Every coordinate and size lies within `m`, sizes not negative.
    pub open spec fn within(self, m: int) -> bool {
        match self {
            Shape::Circle { center, radius } => center.within(m) && 0 <= radius <= m,
            Shape::Line { base, delta, width } => base.within(m) && delta.within(m) && 0 <= width
                <= m,
        }
    }

    /// A shape in world space that the tests below take.
    pub open spec fn wf(self) -> bool {
        self.within(COORD_MAX as int)
    }

    /// Two segments are never tested against each other.
    pub open spec fn comparable(self, other: Shape) -> bool {
        !(self is Line && other is Line)
    }

    pub open spec fn intersects_spec(self, other: Shape) -> bool {
        match (self, other) {
            (Shape::Circle { center: c1, radius: r1 }, Shape::Circle { center: c2, radius: r2 }) => {
                dist_sq_spec(c1, c2) <= (r1 + r2) * (r1 + r2)
            },
            (Shape::Circle { center, radius }, Shape::Line { base, delta, width }) => {
                circle_line_hit_spec(center, radius as int, base, delta, width as int)
            },
            (Shape::Line { base, delta, width }, Shape::Circle { center, radius }) => {
                circle_line_hit_spec(center, radius as int, base, delta, width as int)
            },
            _ => false,
        }
    }

    /// Between two circles, the gap between their boundaries (negative when
    /// they overlap); between a circle and a segment, how far along the
    /// segment the circle begins.
    pub open spec fn distance_spec(self, other: Shape) -> int {
        match (self, other) {
            (Shape::Circle { center: c1, radius: r1 }, Shape::Circle { center: c2, radius: r2 }) => {
                sqrt_floor(dist_sq_spec(c1, c2)) - r1 - r2
            },
            (Shape::Circle { center, radius }, Shape::Line { base, delta, width }) => {
                circle_line_distance_spec(center, radius as int, base, delta, width as int)
            },
            (Shape::Line { base, delta, width }, Shape::Circle { center, radius }) => {
                circle_line_distance_spec(center, radius as int, base, delta, width as int)
            },
            _ => 0,
        }
    }

    /// Between two circles, the point on the larger one's boundary facing the
    /// other; between a circle and a segment, where the segment meets the circle.
    pub open spec fn collision_point_spec(self, other: Shape) -> Vec2 {
        match (self, other) {
            (Shape::Circle { center: c1, radius: r1 }, Shape::Circle { center: c2, radius: r2 }) => {
                if r1 > r2 {
                    toward_spec(c1, c2, r1 as int)
                } else {
                    toward_spec(c2, c1, r2 as int)
                }
            },
            (Shape::Circle { center, radius }, Shape::Line { base, delta, width }) => {
                circle_line_point_spec(center, radius as int, base, delta, width as int)
            },
            (Shape::Line { base, delta, width }, Shape::Circle { center, radius }) => {
                circle_line_point_spec(center, radius as int, base, delta, width as int)
            },
            _ => Vec2 { x: 0, y: 0 },
        }
    }
}

pub(crate) const WIDE: i128 = 0x400_0000;

pub(crate) fn mul_wide(a: i128, b: i128) -> (r: i128)
    requires
        -0x1000_0000_0000_0000 <= a <= 0x1000_0000_0000_0000,
        -0x1000_0000_0000_0000 <= b <= 0x1000_0000_0000_0000,
    ensures
        r == a * b,
        -0x100_0000_0000_0000_0000_0000_0000_0000 <= r <= 0x100_0000_0000_0000_0000_0000_0000_0000,
{
    proof {
        lemma_mul_abs_bound(a as int, b as int, 0x1000_0000_0000_0000, 0x1000_0000_0000_0000);
    }
    a * b
}

pub(crate) fn dot_wide(ux: i128, uy: i128, vx: i128, vy: i128) -> (r: i128)
    requires
        -WIDE <= ux <= WIDE,
        -WIDE <= uy <= WIDE,
        -WIDE <= vx <= WIDE,
        -WIDE <= vy <= WIDE,
    ensures
        r == dot_spec(ux as int, uy as int, vx as int, vy as int),
        -0x40_0000_0000_0000 <= r <= 0x40_0000_0000_0000,
{
    proof {
        lemma_mul_abs_bound(ux as int, vx as int, WIDE as int, WIDE as int);
        lemma_mul_abs_bound(uy as int, vy as int, WIDE as int, WIDE as int);
    }
    ux * vx + uy * vy
}

fn cross_wide(ux: i128, uy: i128, vx: i128, vy: i128) -> (r: i128)
    requires
        -WIDE <= ux <= WIDE,
        -WIDE <= uy <= WIDE,
        -WIDE <= vx <= WIDE,
        -WIDE <= vy <= WIDE,
    ensures
        r == cross_spec(ux as int, uy as int, vx as int, vy as int),
        -0x40_0000_0000_0000 <= r <= 0x40_0000_0000_0000,
{
    proof {
        lemma_mul_abs_bound(ux as int, vy as int, WIDE as int, WIDE as int);
        lemma_mul_abs_bound(uy as int, vx as int, WIDE as int, WIDE as int);
    }
    ux * vy - uy * vx
}

fn circle_line_hit(center: Vec2, radius: i64, base: Vec2, delta: Vec2, width: i64) -> (r: bool)
    requires
        center.within(COORD_MAX as int),
        base.within(COORD_MAX as int),
        delta.within(COORD_MAX as int),
        0 <= radius <= COORD_MAX,
        0 <= width <= COORD_MAX,
    ensures
        r == circle_line_hit_spec(center, radius as int, base, delta, width as int),
{
    let ax: i128 = center.x as i128 - base.x as i128;
    let ay: i128 = center.y as i128 - base.y as i128;
    let bx: i128 = ax - delta.x as i128;
    let by: i128 = ay - delta.y as i128;
    let dx: i128 = delta.x as i128;
    let dy: i128 = delta.y as i128;
    let rw: i128 = radius as i128 + width as i128;
    let reach: i128 = mul_wide(rw, rw);
    let da: i128 = dot_wide(dx, dy, ax, ay);
    let db: i128 = dot_wide(dx, dy, bx, by);
    if mul_wide(da, db) < 0 {
        let side: i128 = cross_wide(dx, dy, ax, ay);
        let dd: i128 = dot_wide(dx, dy, dx, dy);
        proof {
            lemma_mul_abs_bound(rw as int, rw as int, 0x200_0000, 0x200_0000);
        }
        mul_wide(side, side) < mul_wide(reach, dd)
    } else {
        let la: i128 = dot_wide(ax, ay, ax, ay);
        let lb: i128 = dot_wide(bx, by, bx, by);
        if la < lb {
            la <= reach
        } else {
            lb <= reach
        }
    }
}

/// `|a|² |d|² = (a · d)² + (d × a)²`.
proof fn lemma_lagrange(ax: int, ay: int, dx: int, dy: int)
    ensures
        (ax * ax + ay * ay) * (dx * dx + dy * dy) == (ax * dx + ay * dy) * (ax * dx + ay * dy) + (dx
            * ay - dy * ax) * (dx * ay - dy * ax),
{
    let a = ax * ax;
    let b = ay * ay;
    let c = dx * dx;
    let d = dy * dy;
    let p = ax * dx;
    let q = ay * dy;
    let u = dx * ay;
    let v = dy * ax;
    assert((a + b) * (c + d) == a * c + a * d + b * c + b * d) by (nonlinear_arith);
    assert((p + q) * (p + q) == p * p + 2 * (p * q) + q * q) by (nonlinear_arith);
    assert((u - v) * (u - v) == u * u - 2 * (u * v) + v * v) by (nonlinear_arith);
    assert(p * p == a * c) by (nonlinear_arith)
        requires
            p == ax * dx,
            a == ax * ax,
            c == dx * dx,
    ;
    assert(q * q == b * d) by (nonlinear_arith)
        requires
            q == ay * dy,
            b == ay * ay,
            d == dy * dy,
    ;
    assert(u * u == b * c) by (nonlinear_arith)
        requires
            u == dx * ay,
            b == ay * ay,
            c == dx * dx,
    ;
    assert(v * v == a * d) by (nonlinear_arith)
        requires
            v == dy * ax,
            a == ax * ax,
            d == dy * dy,
    ;
    assert(p * q == u * v) by (nonlinear_arith)
        requires
            p == ax * dx,
            q == ay * dy,
            u == dx * ay,
            v == dy * ax,
    ;
}

/// The projection length and the half chord of a circle against a segment of
/// non-zero length.
fn crossing(center: Vec2, radius: i64, base: Vec2, delta: Vec2, width: i64) -> (r: (i128, i128))
    requires
        center.within(COORD_MAX as int),
        base.within(COORD_MAX as int),
        delta.within(COORD_MAX as int),
        0 <= radius <= COORD_MAX,
        0 <= width <= COORD_MAX,
        dot_spec(delta.x as int, delta.y as int, delta.x as int, delta.y as int) != 0,
    ensures
        r.0 == projection_len_spec(center, base, delta),
        r.1 == half_chord_spec(center, radius as int, base, delta, width as int),
        0 <= r.0 <= 0x400_0000,
        0 <= r.1 <= 0x400_0000,
{
    let ax: i128 = center.x as i128 - base.x as i128;
    let ay: i128 = center.y as i128 - base.y as i128;
    let dx: i128 = delta.x as i128;
    let dy: i128 = delta.y as i128;
    let dd: i128 = dot_wide(dx, dy, dx, dy);
    let k: i128 = dot_wide(ax, ay, dx, dy);
    let c: i128 = cross_wide(dx, dy, ax, ay);
    let la: i128 = dot_wide(ax, ay, ax, ay);
    let rw: i128 = radius as i128 + width as i128;
    proof {
        lemma_mul_abs_bound(ax as int, ax as int, 0x200_0000, 0x200_0000);
        lemma_mul_abs_bound(ay as int, ay as int, 0x200_0000, 0x200_0000);
        lemma_mul_abs_bound(rw as int, rw as int, 0x200_0000, 0x200_0000);
        assert(dd > 0) by (nonlinear_arith)
            requires
                dd == dx * dx + dy * dy,
                dd != 0,
        ;
        lemma_lagrange(ax as int, ay as int, dx as int, dy as int);
        assert(0 <= c * c && 0 <= k * k) by (nonlinear_arith);
    }
    let kk: i128 = mul_wide(k, k);
    let cc: i128 = mul_wide(c, c);
    let rr: i128 = mul_wide(rw, rw);
    proof {
        assert(la * dd == dd * la) by (nonlinear_arith);
        assert(rr * dd == dd * rr) by (nonlinear_arith);
        lemma_div_is_ordered(kk as int, la * dd, dd as int);
        lemma_div_multiples_vanish(la as int, dd as int);
        assert(0 <= kk / dd) by (nonlinear_arith)
            requires
                kk >= 0,
                dd > 0,
        ;
    }
    let l: i128 = isqrt((kk / dd) as u128) as i128;
    proof {
        assert(l <= 0x400_0000) by (nonlinear_arith)
            requires
                l * l <= la,
                la <= 0x8_0000_0000_0000,
                l >= 0,
        ;
    }
    let num: i128 = mul_wide(rr, dd) - cc;
    let q: i128 = floor_div(num, dd);
    proof {
        lemma_div_is_ordered(num as int, rr * dd, dd as int);
        lemma_div_multiples_vanish(rr as int, dd as int);
    }
    let q0: i128 = if q < 0 {
        0
    } else {
        q
    };
    let s: i128 = isqrt(q0 as u128) as i128;
    proof {
        assert(s <= 0x400_0000) by (nonlinear_arith)
            requires
                s * s <= q0,
                q0 <= 0x4_0000_0000_0000,
                s >= 0,
        ;
    }
    (l, s)
}

fn circle_line_distance(center: Vec2, radius: i64, base: Vec2, delta: Vec2, width: i64) -> (r: i64)
    requires
        center.within(COORD_MAX as int),
        base.within(COORD_MAX as int),
        delta.within(COORD_MAX as int),
        0 <= radius <= COORD_MAX,
        0 <= width <= COORD_MAX,
    ensures
        r == circle_line_distance_spec(center, radius as int, base, delta, width as int),
        0 <= r <= 0x400_0000,
{
    let dx: i128 = delta.x as i128;
    let dy: i128 = delta.y as i128;
    if dot_wide(dx, dy, dx, dy) == 0 {
        return 0;
    }
    let (l, s) = crossing(center, radius, base, delta, width);
    if l >= s {
        (l - s) as i64
    } else {
        (s - l) as i64
    }
}

fn clamp_offset(base: i64, offset: i128) -> (r: i64)
    requires
        -0x1000_0000_0000_0000 <= offset <= 0x1000_0000_0000_0000,
    ensures
        r == clamp_spec(base + offset, -(COORD_MAX as int), COORD_MAX as int),
{
    clamp_coord(base as i128 + offset)
}

fn circle_line_point(center: Vec2, radius: i64, base: Vec2, delta: Vec2, width: i64) -> (r: Vec2)
    requires
        center.within(COORD_MAX as int),
        base.within(COORD_MAX as int),
        delta.within(COORD_MAX as int),
        0 <= radius <= COORD_MAX,
        0 <= width <= COORD_MAX,
    ensures
        r == circle_line_point_spec(center, radius as int, base, delta, width as int),
{
    let ax: i128 = center.x as i128 - base.x as i128;
    let ay: i128 = center.y as i128 - base.y as i128;
    let dx: i128 = delta.x as i128;
    let dy: i128 = delta.y as i128;
    let dd: i128 = dot_wide(dx, dy, dx, dy);
    let k: i128 = dot_wide(ax, ay, dx, dy);
    if dd == 0 || k == 0 {
        return base;
    }
    let (l, s) = crossing(center, radius, base, delta, width);
    let m: i128 = if k > 0 {
        l - s
    } else {
        s - l
    };
    proof {
        assert(dd > 0) by (nonlinear_arith)
            requires
                dd == dx * dx + dy * dy,
                dd != 0,
        ;
    }
    let len: i128 = isqrt(dd as u128) as i128;
    proof {
        assert(len >= 1) by (nonlinear_arith)
            requires
                dd < (len + 1) * (len + 1),
                dd >= 1,
                len >= 0,
        ;
        lemma_mul_abs_bound(dx as int, m as int, COORD_MAX as int, 0x400_0000);
        lemma_mul_abs_bound(dy as int, m as int, COORD_MAX as int, 0x400_0000);
    }
    let px: i128 = dx * m;
    let py: i128 = dy * m;
    let ox: i128 = floor_div(px, len);
    let oy: i128 = floor_div(py, len);
    proof {
        lemma_div_magnitude(px as int, len as int);
        lemma_div_magnitude(py as int, len as int);
    }
    Vec2 { x: clamp_offset(base.x, ox), y: clamp_offset(base.y, oy) }
}

fn toward(from: Vec2, to: Vec2, r: i64) -> (p: Vec2)
    requires
        from.within(COORD_MAX as int),
        to.within(COORD_MAX as int),
        0 <= r <= COORD_MAX,
    ensures
        p == toward_spec(from, to, r as int),
{
    let dx: i128 = to.x as i128 - from.x as i128;
    let dy: i128 = to.y as i128 - from.y as i128;
    let dd: i128 = dot_wide(dx, dy, dx, dy);
    assert(dd >= 0) by (nonlinear_arith)
        requires
            dd == dx * dx + dy * dy,
    ;
    let len: i128 = isqrt(dd as u128) as i128;
    if len == 0 {
        from
    } else {
        proof {
            lemma_mul_abs_bound(dx as int, r as int, WIDE as int, WIDE as int);
            lemma_mul_abs_bound(dy as int, r as int, WIDE as int, WIDE as int);
        }
        let px: i128 = mul_wide(dx, r as i128);
        let py: i128 = mul_wide(dy, r as i128);
        let qx: i128 = floor_div(px, len);
        let qy: i128 = floor_div(py, len);
        proof {
            lemma_div_magnitude(px as int, len as int);
            lemma_div_magnitude(py as int, len as int);
        }
        Vec2 { x: (from.x as i128 + qx) as i64, y: (from.y as i128 + qy) as i64 }
    }
}

impl Shape {
    /// Do the two shapes touch?
    pub fn intersects(&self, other: &Shape) -> (r: bool)
        requires
            self.wf(),
            other.wf(),
            self.comparable(*other),
        ensures
            r == self.intersects_spec(*other),
    {
        match (self, other) {
            (Shape::Circle { center: c1, radius: r1 }, Shape::Circle { center: c2, radius: r2 }) => {
                let dx: i128 = c2.x as i128 - c1.x as i128;
                let dy: i128 = c2.y as i128 - c1.y as i128;
                let rr: i128 = *r1 as i128 + *r2 as i128;
                dot_wide(dx, dy, dx, dy) <= mul_wide(rr, rr)
            },
            (Shape::Circle { center, radius }, Shape::Line { base, delta, width }) => {
                circle_line_hit(*center, *radius, *base, *delta, *width)
            },
            (Shape::Line { base, delta, width }, Shape::Circle { center, radius }) => {
                circle_line_hit(*center, *radius, *base, *delta, *width)
            },
            (Shape::Line { .. }, Shape::Line { .. }) => false,
        }
    }

    /// See `distance_spec`.
    pub fn distance(&self, other: &Shape) -> (r: i64)
        requires
            self.wf(),
            other.wf(),
            self.comparable(*other),
        ensures
            r == self.distance_spec(*other),
    {
        match (self, other) {
            (Shape::Circle { center: c1, radius: r1 }, Shape::Circle { center: c2, radius: r2 }) => {
                let dx: i128 = c2.x as i128 - c1.x as i128;
                let dy: i128 = c2.y as i128 - c1.y as i128;
                let dd: i128 = dot_wide(dx, dy, dx, dy);
                assert(dd >= 0) by (nonlinear_arith)
                    requires
                        dd == dx * dx + dy * dy,
                ;
                let len: u64 = isqrt(dd as u128);
                len as i64 - *r1 - *r2
            },
            (Shape::Circle { center, radius }, Shape::Line { base, delta, width }) => {
                circle_line_distance(*center, *radius, *base, *delta, *width)
            },
            (Shape::Line { base, delta, width }, Shape::Circle { center, radius }) => {
                circle_line_distance(*center, *radius, *base, *delta, *width)
            },
            (Shape::Line { .. }, Shape::Line { .. }) => 0,
        }
    }

    /// See `collision_point_spec`.
    pub fn collision_point(&self, other: &Shape) -> (r: Vec2)
        requires
            self.wf(),
            other.wf(),
            self.comparable(*other),
        ensures
            r == self.collision_point_spec(*other),
    {
        match (self, other) {
            (Shape::Circle { center: c1, radius: r1 }, Shape::Circle { center: c2, radius: r2 }) => {
                if *r1 > *r2 {
                    toward(*c1, *c2, *r1)
                } else {
                    toward(*c2, *c1, *r2)
                }
            },
            (Shape::Circle { center, radius }, Shape::Line { base, delta, width }) => {
                circle_line_point(*center, *radius, *base, *delta, *width)
            },
            (Shape::Line { base, delta, width }, Shape::Circle { center, radius }) => {
                circle_line_point(*center, *radius, *base, *delta, *width)
            },
            (Shape::Line { .. }, Shape::Line { .. }) => Vec2 { x: 0, y: 0 },
        }
    }
}


/// Both shapes' contact tests are the same whichever comes first.
pub proof fn lemma_contact_symmetric(a: Shape, b: Shape)
    ensures
        a.intersects_spec(b) == b.intersects_spec(a),
        a.distance_spec(b) == b.distance_spec(a),
{
    match (a, b) {
        (Shape::Circle { center: c1, radius: r1 }, Shape::Circle { center: c2, radius: r2 }) => {
            assert(dist_sq_spec(c1, c2) == dist_sq_spec(c2, c1)) by (nonlinear_arith);
        },
        _ => {},
    }
}

/// A direction as a unit vector in per-mille: `(cos θ, sin θ) · ONE`.
#[derive(Clone, Copy, Debug, PartialEq, Eq, Structural)]
pub struct Rotation {
    pub cos: i64,
    pub sin: i64,
}

/// Where an entity stands: its position, its heading, and the largest of its
/// scale factors in per-mille.
#[derive(Clone, Copy, Debug, PartialEq, Eq, Structural)]
pub struct Pose {
    pub translation: Vec2,
    pub rotation: Rotation,
    pub scale: i64,
}

/// `v` turned by `rot`, rounded down on each axis.
pub open spec fn rotate_spec(v: Vec2, rot: Rotation) -> Vec2 {
    Vec2 {
        x: ((v.x * rot.cos - v.y * rot.sin) / 1000) as i64,
        y: ((v.x * rot.sin + v.y * rot.cos) / 1000) as i64,
    }
}

/// A length multiplied by a per-mille scale, rounded down.
pub open spec fn scale_len_spec(len: int, scale: int) -> int {
    len * scale / 1000
}

pub open spec fn add_spec(p: Vec2, q: Vec2) -> Vec2 {
    Vec2 { x: (p.x + q.x) as i64, y: (p.y + q.y) as i64 }
}

impl Pose {
    pub open spec fn wf(self) -> bool {
        &&& self.translation.within(LOCAL_MAX as int)
        &&& -ONE <= self.rotation.cos <= ONE
        &&& -ONE <= self.rotation.sin <= ONE
        &&& 0 <= self.scale <= SCALE_MAX
    }

    /// A pose at `translation`, heading along the y axis, at scale one.
    pub fn at(translation: Vec2) -> (r: Pose)
        ensures
            r.translation == translation,
            r.rotation == (Rotation { cos: ONE, sin: 0 }),
            r.scale == ONE,
    {
        Pose { translation, rotation: Rotation { cos: ONE, sin: 0 }, scale: ONE }
    }
}

fn per_mille_of(p: i128, bound: i128) -> (r: i64)
    requires
        0 <= bound <= COORD_MAX,
        -(bound * 1000) <= p <= bound * 1000,
    ensures
        r == p / 1000,
        -bound <= r <= bound,
{
    proof {
        lemma_div_range(p as int, bound as int, 1000);
    }
    floor_div(p, 1000) as i64
}

impl Shape {
    /// The shape carried into world space by `pose`: moved by its translation,
    /// a segment's direction turned by its rotation, sizes multiplied by its scale.
    pub open spec fn transformed_spec(self, pose: Pose) -> Shape {
        match self {
            Shape::Circle { center, radius } => Shape::Circle {
                center: add_spec(center, pose.translation),
                radius: scale_len_spec(radius as int, pose.scale as int) as i64,
            },
            Shape::Line { base, delta, width } => Shape::Line {
                base: add_spec(base, pose.translation),
                delta: rotate_spec(delta, pose.rotation),
                width: scale_len_spec(width as int, pose.scale as int) as i64,
            },
        }
    }

    /// See `transformed_spec`.
    pub fn transformed(&self, pose: &Pose) -> (r: Shape)
        requires
            self.within(LOCAL_MAX as int),
            pose.wf(),
        ensures
            r == self.transformed_spec(*pose),
            r.wf(),
            r is Circle <==> self is Circle,
    {
        let t = pose.translation;
        proof {
            lemma_mul_abs_bound(pose.scale as int, LOCAL_MAX as int, SCALE_MAX as int, LOCAL_MAX as int);
        }
        match self {
            Shape::Circle { center, radius } => {
                proof {
                    lemma_mul_abs_bound(*radius as int, pose.scale as int, LOCAL_MAX as int, SCALE_MAX as int);
                }
                Shape::Circle {
                    center: Vec2 { x: center.x + t.x, y: center.y + t.y },
                    radius: per_mille_of(*radius as i128 * pose.scale as i128, 4 * LOCAL_MAX as i128),
                }
            },
            Shape::Line { base, delta, width } => {
                let c: i128 = pose.rotation.cos as i128;
                let s: i128 = pose.rotation.sin as i128;
                let dx: i128 = delta.x as i128;
                let dy: i128 = delta.y as i128;
                proof {
                    lemma_mul_abs_bound(*width as int, pose.scale as int, LOCAL_MAX as int, SCALE_MAX as int);
                    lemma_mul_abs_bound(dx as int, c as int, LOCAL_MAX as int, 1000);
                    lemma_mul_abs_bound(dy as int, s as int, LOCAL_MAX as int, 1000);
                    lemma_mul_abs_bound(dx as int, s as int, LOCAL_MAX as int, 1000);
                    lemma_mul_abs_bound(dy as int, c as int, LOCAL_MAX as int, 1000);
                }
                Shape::Line {
                    base: Vec2 { x: base.x + t.x, y: base.y + t.y },
                    delta: Vec2 {
                        x: per_mille_of(dx * c - dy * s, 2 * LOCAL_MAX as i128),
                        y: per_mille_of(dx * s + dy * c, 2 * LOCAL_MAX as i128),
                    },
                    width: per_mille_of(*width as i128 * pose.scale as i128, 4 * LOCAL_MAX as i128),
                }
            },
        }
    }
}

/// A shape local to an entity, with the entity's current pose.
#[derive(Clone, Copy, Debug, PartialEq, Eq, Structural)]
pub struct CollisionShape {
    pub shape: Shape,
    pub transform: Pose,
}

impl CollisionShape {
    pub open spec fn wf(self) -> bool {
        self.shape.within(LOCAL_MAX as int) && self.transform.wf()
    }

    /// The shape in world space.
    pub open spec fn global_spec(self) -> Shape {
        self.shape.transformed_spec(self.transform)
    }

    pub fn new(shape: Shape, transform: Pose) -> (r: CollisionShape)
        ensures
            r.shape == shape,
            r.transform == transform,
    {
        CollisionShape { shape, transform }
    }

    /// The shape in world space.
    pub fn global_shape(&self) -> (r: Shape)
        requires
            self.wf(),
        ensures
            r == self.global_spec(),
            r.wf(),
            r is Circle <==> self.shape is Circle,
    {
        self.shape.transformed(&self.transform)
    }

    /// Do the two shapes, each in world space, touch?
    pub fn intersects(&self, other: &CollisionShape) -> (r: bool)
        requires
            self.wf(),
            other.wf(),
            self.shape.comparable(other.shape),
        ensures
            r == self.global_spec().intersects_spec(other.global_spec()),
    {
        self.global_shape().intersects(&other.global_shape())
    }

    /// The distance between the two shapes in world space.
    pub fn distance(&self, other: &CollisionShape) -> (r: i64)
        requires
            self.wf(),
            other.wf(),
            self.shape.comparable(other.shape),
        ensures
            r == self.global_spec().distance_spec(other.global_spec()),
    {
        self.global_shape().distance(&other.global_shape())
    }

    /// The contact point of the two shapes in world space.
    pub fn collision_point(&self, other: &CollisionShape) -> (r: Vec2)
        requires
            self.wf(),
            other.wf(),
            self.shape.comparable(other.shape),
        ensures
            r == self.global_spec().collision_point_spec(other.global_spec()),
    {
        self.global_shape().collision_point(&other.global_shape())
    }
}

} // verus!
