//! Fixed-point arithmetic shared by the simulation.
//!
//! Lengths are held in thousandths of a world unit, times in milliseconds,
//! and ratios (scale, alpha, accuracy, interpolation positions) in per-mille.
use vstd::arithmetic::div_mod::*;
use vstd::prelude::*;

verus! {

/// One whole unit of every fixed-point quantity.
pub const ONE: i64 = 1000;

/// Largest magnitude of a coordinate, length or radius that the geometry takes.
pub const COORD_MAX: i64 = 16777216;

/// `v` clamped to `[lo, hi]`.
pub open spec fn clamp_spec(v: int, lo: int, hi: int) -> int {
    if v < lo {
        lo
    } else if v > hi {
        hi
    } else {
        v
    }
}

/// Linear interpolation from `start` to `end` at a per-mille position,
/// the position clamped to `[0, ONE]` and the result rounded down.
pub open spec fn lerp_spec(start: int, end: int, t: int) -> int {
    start + (end - start) * clamp_spec(t, 0, 1000) / 1000
}

/// `r` is the square root of `n` rounded down.
pub open spec fn is_sqrt_floor(n: int, r: int) -> bool {
    0 <= r && r * r <= n && n < (r + 1) * (r + 1)
}

/// The square root of a natural number, rounded down.
pub open spec fn sqrt_floor(n: int) -> int {
    choose|r: int| is_sqrt_floor(n, r)
}

pub proof fn lemma_mul_abs_bound(x: int, y: int, bx: int, by: int)
    requires
        -bx <= x <= bx,
        -by <= y <= by,
    ensures
        -(bx * by) <= x * y <= bx * by,
{
    assert(-(bx * by) <= x * y <= bx * by) by (nonlinear_arith)
        requires
            -bx <= x <= bx,
            -by <= y <= by,
    ;
}

proof fn lemma_sqrt_unique(n: int, r: int, s: int)
    requires
        is_sqrt_floor(n, r),
        is_sqrt_floor(n, s),
    ensures
        r == s,
{
    if r < s {
        assert((r + 1) * (r + 1) <= s * s) by (nonlinear_arith)
            requires
                0 <= r,
                r + 1 <= s,
        ;
    } else if s < r {
        assert((s + 1) * (s + 1) <= r * r) by (nonlinear_arith)
            requires
                0 <= s,
                s + 1 <= r,
        ;
    }
}

/// A witness of the rounded-down root is the value of `sqrt_floor`.
pub proof fn lemma_sqrt_floor_is(n: int, r: int)
    requires
        is_sqrt_floor(n, r),
    ensures
        sqrt_floor(n) == r,
{
    let s = sqrt_floor(n);
    assert(is_sqrt_floor(n, s));
    lemma_sqrt_unique(n, r, s);
}

/// The square root of `n`, rounded down.
pub fn isqrt(n: u128) -> (r: u64)
    requires
        n <= 0x10_0000_0000_0000_0000_0000_0000,
    ensures
        is_sqrt_floor(n as int, r as int),
        r as int == sqrt_floor(n as int),
        r <= 0x8_0000_0000_0000,
{
    let mut lo: u128 = 0;
    let mut hi: u128 = 0x8_0000_0000_0000;
    assert(n < hi * hi);
    while lo + 1 < hi
        invariant
            lo < hi <= 0x8_0000_0000_0000,
            lo * lo <= n,
            n < hi * hi,
        decreases hi - lo,
    {
        let mid: u128 = lo + (hi - lo) / 2;
        assert(mid * mid <= 0x8_0000_0000_0000 * 0x8_0000_0000_0000) by (nonlinear_arith)
            requires
                0 <= mid <= 0x8_0000_0000_0000,
        ;
        if mid * mid <= n {
            lo = mid;
        } else {
            hi = mid;
        }
    }
    proof {
        assert(hi == lo + 1);
        lemma_sqrt_floor_is(n as int, lo as int);
    }
    lo as u64
}

/// A quotient by a positive divisor is no larger in magnitude than the dividend.
pub proof fn lemma_div_magnitude(p: int, d: int)
    requires
        d >= 1,
    ensures
        -p <= p / d <= p || p <= p / d <= -p,
{
    lemma_fundamental_div_mod(p, d);
    let q = p / d;
    let m = p % d;
    assert(-p <= q <= p || p <= q <= -p) by (nonlinear_arith)
        requires
            p == d * q + m,
            0 <= m < d,
            d >= 1,
    ;
}

/// A dividend within `b` multiples of the divisor gives a quotient within `b`.
pub proof fn lemma_div_range(p: int, b: int, d: int)
    requires
        d > 0,
        b >= 0,
        -(b * d) <= p <= b * d,
    ensures
        -b <= p / d <= b,
{
    assert(b * d == d * b && -(b * d) == d * (-b)) by (nonlinear_arith);
    lemma_div_is_ordered(p, d * b, d);
    lemma_div_is_ordered(d * (-b), p, d);
    lemma_div_multiples_vanish(b, d);
    lemma_div_multiples_vanish(-b, d);
}

/// `v` held to the coordinate range.
pub fn clamp_coord(v: i128) -> (r: i64)
    ensures
        r == clamp_spec(v as int, -(COORD_MAX as int), COORD_MAX as int),
{
    if v < -(COORD_MAX as i128) {
        -COORD_MAX
    } else if v > COORD_MAX as i128 {
        COORD_MAX
    } else {
        v as i64
    }
}

/// Division rounded towards negative infinity.
pub fn floor_div(a: i128, b: i128) -> (r: i128)
    requires
        b > 0,
        a > i128::MIN,
    ensures
        r == a / b,
{
    if a >= 0 {
        a / b
    } else {
        let n: i128 = -a - 1;
        let q: i128 = n / b;
        proof {
            lemma_fundamental_div_mod(n as int, b as int);
            let m = n as int % b as int;
            assert(0 <= m < b);
            assert(a == (-q - 1) * b + (b - m - 1)) by (nonlinear_arith)
                requires
                    n == b * q + m,
                    a == -n - 1,
            ;
            lemma_fundamental_div_mod_converse_div(a as int, b as int, -q - 1, b - m - 1);
        }
        -q - 1
    }
}

/// Linear interpolation from `start` to `end` at the per-mille position `t`.
pub fn lerp(start: i64, end: i64, t: i64) -> (r: i64)
    requires
        -COORD_MAX <= start <= COORD_MAX,
        -COORD_MAX <= end <= COORD_MAX,
    ensures
        r == lerp_spec(start as int, end as int, t as int),
        start <= end ==> start <= r <= end,
        end <= start ==> end <= r <= start,
{
    let c: i64 = if t < 0 {
        0
    } else if t > 1000 {
        1000
    } else {
        t
    };
    let d: i128 = end as i128 - start as i128;
    proof {
        lemma_mul_abs_bound(d as int, c as int, 2 * COORD_MAX, 1000);
    }
    let p: i128 = d * c as i128;
    let q: i128 = floor_div(p, 1000);
    proof {
        if d >= 0 {
            assert(0 <= p <= d * 1000) by (nonlinear_arith)
                requires
                    p == d * c,
                    0 <= c <= 1000,
                    d >= 0,
            ;
            lemma_div_is_ordered(0, p as int, 1000);
            lemma_div_is_ordered(p as int, d * 1000, 1000);
            lemma_div_multiples_vanish(d as int, 1000);
        } else {
            assert(d * 1000 <= p <= 0) by (nonlinear_arith)
                requires
                    p == d * c,
                    0 <= c <= 1000,
                    d < 0,
            ;
            lemma_div_is_ordered(p as int, 0, 1000);
            lemma_div_is_ordered(d * 1000, p as int, 1000);
            lemma_div_multiples_vanish(d as int, 1000);
        }
    }
    (start as i128 + q) as i64
}

} // verus!
