use vstd::prelude::*;

use crate::config::{COORD_LIMIT, VELOCITY_LIMIT};

verus! {

/// Largest value `isqrt` accepts.
pub const SQRT_INPUT_LIMIT: u64 = 8_000_000_000_000_000_000;

/// A two-dimensional integer vector.
#[derive(Clone, Copy, Debug, PartialEq, Eq, Structural)]
pub struct Vec2 {
    pub x: i64,
    pub y: i64,
}

pub open spec fn abs(a: int) -> int {
    if a < 0 { -a } else { a }
}

pub open spec fn clamp(a: int, lo: int, hi: int) -> int {
    if a < lo { lo } else if a > hi { hi } else { a }
}

/// Division that rounds toward zero, as Rust's integer `/` does.
pub open spec fn div_trunc(a: int, d: int) -> int {
    if a >= 0 { a / d } else { -((-a) / d) }
}

/// `r` is the integer square root of `n`.
pub open spec fn is_isqrt(n: int, r: int) -> bool {
    0 <= r && r * r <= n && n < (r + 1) * (r + 1)
}

/// The integer square root, defined by counting up.
pub open spec fn isqrt_spec(n: int) -> int
    decreases n,
{
    if n <= 0 {
        0
    } else {
        let r = isqrt_spec(n - 1);
        if (r + 1) * (r + 1) <= n { r + 1 } else { r }
    }
}

pub open spec fn norm_sq(v: Vec2) -> int {
    v.x * v.x + v.y * v.y
}

/// Euclidean length of a vector, rounded down.
pub open spec fn norm(v: Vec2) -> int {
    isqrt_spec(norm_sq(v))
}

/// Both coordinates lie within the coordinate limit.
pub open spec fn in_coord_range(v: Vec2) -> bool {
    abs(v.x as int) <= COORD_LIMIT && abs(v.y as int) <= COORD_LIMIT
}

/// Both components lie within the velocity limit.
pub open spec fn in_velocity_range(v: Vec2) -> bool {
    abs(v.x as int) <= VELOCITY_LIMIT && abs(v.y as int) <= VELOCITY_LIMIT
}

/// `v` scaled to length `k`, each component rounded toward zero.
pub open spec fn scaled_direction(v: Vec2, k: int) -> (int, int) {
    (div_trunc(v.x * k, norm(v)), div_trunc(v.y * k, norm(v)))
}

pub proof fn lemma_isqrt_spec(n: int)
    requires
        n >= 0,
    ensures
        is_isqrt(n, isqrt_spec(n)),
    decreases n,
{
    if n > 0 {
        lemma_isqrt_spec(n - 1);
        let r = isqrt_spec(n - 1);
        assert((r + 2) * (r + 2) == (r + 1) * (r + 1) + 2 * r + 3) by (nonlinear_arith);
    }
}

proof fn lemma_isqrt_unique(n: int, a: int, b: int)
    requires
        is_isqrt(n, a),
        is_isqrt(n, b),
    ensures
        a == b,
{
    if a < b {
        assert((a + 1) * (a + 1) <= b * b) by (nonlinear_arith)
            requires
                0 <= a,
                a + 1 <= b,
        ;
    } else if b < a {
        assert((b + 1) * (b + 1) <= a * a) by (nonlinear_arith)
            requires
                0 <= b,
                b + 1 <= a,
        ;
    }
}

/// The integer square root of `n`.
pub proof fn lemma_isqrt_exact(n: int, r: int)
    requires
        is_isqrt(n, r),
    ensures
        isqrt_spec(n) == r,
{
    lemma_isqrt_spec(n);
    lemma_isqrt_unique(n, r, isqrt_spec(n));
}

/// Integer square root by bisection.
pub fn isqrt(n: u64) -> (r: u64)
    requires
        n <= SQRT_INPUT_LIMIT,
    ensures
        r == isqrt_spec(n as int),
        is_isqrt(n as int, r as int),
{
    let mut lo: u64 = 0;
    let mut hi: u64 = 3_037_000_500;
    while hi - lo > 1
        invariant
            lo < hi <= 3_037_000_500,
            lo * lo <= n,
            n < hi * hi,
        decreases hi - lo,
    {
        let mid: u64 = lo + (hi - lo) / 2;
        assert(mid * mid <= 3_037_000_500u64 * 3_037_000_500u64) by (nonlinear_arith)
            requires
                mid < 3_037_000_500u64,
        ;
        if mid * mid <= n {
            lo = mid;
        } else {
            hi = mid;
        }
    }
    assert(hi == lo + 1);
    proof {
        lemma_isqrt_exact(n as int, lo as int);
    }
    lo
}


/// Truncating division commutes with negation.
pub proof fn lemma_div_trunc_neg(a: int, d: int)
    requires
        d > 0,
    ensures
        div_trunc(-a, d) == -div_trunc(a, d),
{
}

/// Truncating division is off by less than one divisor.
pub proof fn lemma_div_trunc_error(a: int, d: int)
    requires
        d > 0,
    ensures
        abs(a - d * div_trunc(a, d)) < d,
{
    if a >= 0 {
        vstd::arithmetic::div_mod::lemma_fundamental_div_mod(a, d);
    } else {
        vstd::arithmetic::div_mod::lemma_fundamental_div_mod(-a, d);
        assert(a - d * div_trunc(a, d) == -((-a) - d * ((-a) / d))) by (nonlinear_arith)
            requires
                div_trunc(a, d) == -((-a) / d),
        ;
    }
}

/// Rust's integer division, rounding toward zero, for a positive divisor.
pub fn div_toward_zero(a: i64, d: i64) -> (r: i64)
    requires
        d > 0,
        a > i64::MIN,
    ensures
        r == div_trunc(a as int, d as int),
{
    if a >= 0 {
        a / d
    } else {
        let q: i64 = (-a) / d;
        -q
    }
}

/// Clamps `a` to the range `lo ..= hi`.
pub fn clamp_i64(a: i64, lo: i64, hi: i64) -> (r: i64)
    requires
        lo <= hi,
    ensures
        r == clamp(a as int, lo as int, hi as int),
{
    if a < lo {
        lo
    } else if a > hi {
        hi
    } else {
        a
    }
}

/// Squared length of a vector whose coordinates differ by at most twice the coordinate limit.
pub fn length_squared(v: Vec2) -> (r: u64)
    requires
        abs(v.x as int) <= 2 * COORD_LIMIT,
        abs(v.y as int) <= 2 * COORD_LIMIT,
    ensures
        r == norm_sq(v),
        r <= SQRT_INPUT_LIMIT,
{
    let ax: u64 = if v.x >= 0 { v.x as u64 } else { (-v.x) as u64 };
    let ay: u64 = if v.y >= 0 { v.y as u64 } else { (-v.y) as u64 };
    assert(ax * ax <= 4_000_000_000_000_000_000u64) by (nonlinear_arith)
        requires
            ax <= 2_000_000_000u64,
    ;
    assert(ay * ay <= 4_000_000_000_000_000_000u64) by (nonlinear_arith)
        requires
            ay <= 2_000_000_000u64,
    ;
    assert(ax * ax == v.x * v.x) by (nonlinear_arith)
        requires
            ax == abs(v.x as int),
    ;
    assert(ay * ay == v.y * v.y) by (nonlinear_arith)
        requires
            ay == abs(v.y as int),
    ;
    ax * ax + ay * ay
}

/// The difference `a - b` of two positions.
pub fn difference(a: Vec2, b: Vec2) -> (r: Vec2)
    requires
        in_coord_range(a),
        in_coord_range(b),
    ensures
        r.x == a.x - b.x,
        r.y == a.y - b.y,
{
    Vec2 { x: a.x - b.x, y: a.y - b.y }
}

/// The vector `v` scaled to length `k` (rounded toward zero), or `None` when `v` is zero
/// and has no direction.
pub fn direction_scaled(v: Vec2, k: i64) -> (r: Option<Vec2>)
    requires
        abs(v.x as int) <= 2 * COORD_LIMIT,
        abs(v.y as int) <= 2 * COORD_LIMIT,
        0 <= k <= 1_000_000,
    ensures
        r is None <==> (v.x == 0 && v.y == 0),
        r matches Some(d) ==> ((d.x as int, d.y as int) == scaled_direction(v, k as int)
            && abs(d.x as int) <= k && abs(d.y as int) <= k),
{
    let sq: u64 = length_squared(v);
    let len: u64 = isqrt(sq);
    if len == 0 {
        assert(sq < 1) by (nonlinear_arith)
            requires
                (sq as int) < (len + 1) * (len + 1),
                len == 0,
        ;
        assert(norm_sq(v) < 1);
        assert(v.x == 0 && v.y == 0) by (nonlinear_arith)
            requires
                v.x * v.x + v.y * v.y < 1,
        ;
        None
    } else {
        assert(len <= 3_037_000_500u64) by (nonlinear_arith)
            requires
                len * len <= sq,
                sq <= SQRT_INPUT_LIMIT,
        ;
        let l: i64 = len as i64;
        assert(abs(v.x as int) * k <= 2_000_000_000_000_000) by (nonlinear_arith)
            requires
                abs(v.x as int) <= 2_000_000_000,
                0 <= k <= 1_000_000,
        ;
        assert(abs(v.y as int) * k <= 2_000_000_000_000_000) by (nonlinear_arith)
            requires
                abs(v.y as int) <= 2_000_000_000,
                0 <= k <= 1_000_000,
        ;
        assert(abs(v.x * k) == abs(v.x as int) * k) by (nonlinear_arith)
            requires
                k >= 0,
        ;
        assert(abs(v.y * k) == abs(v.y as int) * k) by (nonlinear_arith)
            requires
                k >= 0,
        ;
        let dx: i64 = div_toward_zero(v.x * k, l);
        let dy: i64 = div_toward_zero(v.y * k, l);
        proof {
            lemma_component_bound(v.x as int, v.y as int, k as int, len as int);
            lemma_component_bound(v.y as int, v.x as int, k as int, len as int);
        }
        Some(Vec2 { x: dx, y: dy })
    }
}

/// A component of a vector, scaled by `k` and divided by the vector's length,
/// has magnitude at most `k`.
pub proof fn lemma_component_bound(a: int, b: int, k: int, len: int)
    requires
        k >= 0,
        len >= 1,
        len * len <= a * a + b * b,
        a * a + b * b < (len + 1) * (len + 1),
    ensures
        abs(div_trunc(a * k, len)) <= k,
        abs(a) <= len,
{
    assert(abs(a) <= len) by (nonlinear_arith)
        requires
            a * a + b * b < (len + 1) * (len + 1),
            len >= 1,
    ;
    assert(abs(a) * k <= len * k) by (nonlinear_arith)
        requires
            abs(a) <= len,
            k >= 0,
    ;
    assert(abs(a * k) == abs(a) * k) by (nonlinear_arith)
        requires
            k >= 0,
    ;
    assert(abs(a * k) / len <= k) by (nonlinear_arith)
        requires
            abs(a * k) <= len * k,
            len >= 1,
    ;
}

} // verus!
