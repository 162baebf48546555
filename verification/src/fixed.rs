//! Fixed-point arithmetic used throughout the world model.
//!
//! Angles are measured in units of a turn split into `TURN` parts, and
//! unit-scaled quantities (sine values, normal components) carry a factor
//! of `SCALE`.  The wave used by the height field is a triangle
//! approximation of the sine: piecewise linear, periodic, with the same
//! zeroes and extrema, so that heights and slopes stay exact integers.

use vstd::prelude::*;

verus! {

/// Angle units in one full turn.
pub const TURN: i64 = 65536;

/// A quarter turn.
pub const QUARTER: i64 = 16384;

/// Fixed-point scale for unit-valued quantities.
pub const SCALE: i64 = 65536;

/// Bound on world coordinates accepted by the geometric helpers; keeps
/// every intermediate product inside `i64`.
pub const POS_LIMIT: i64 = 0x100_0000_0000;

/// Bound on a sampled wave frequency, in angle units per world unit.
pub const FREQ_MAX: i64 = 8192;

/// Bound on a sampled wave amplitude, in world units.
pub const AMP_MAX: i64 = 4096;

/// Bound on the slope a well-formed height field can report, scaled by
/// `SCALE`: ten terms, each at most `4 * AMP_MAX * FREQ_MAX`.
pub const SLOPE_LIMIT: i64 = 40 * 4096 * 8192;

/// The triangle wave standing in for the sine: periodic in `TURN`, rising
/// linearly from 0 to `SCALE` over the first quarter turn, falling to
/// `-SCALE` over the next half, and back to 0.
pub open spec fn spec_sin_fp(theta: int) -> int {
    let t = theta % (TURN as int);
    if t < QUARTER as int {
        4 * t
    } else if t < 3 * (QUARTER as int) {
        2 * (TURN as int) - 4 * t
    } else {
        4 * t - 4 * (TURN as int)
    }
}

/// The cosine companion of `spec_sin_fp`: the same wave a quarter turn ahead.
pub open spec fn spec_cos_fp(theta: int) -> int {
    spec_sin_fp(theta % (TURN as int) + QUARTER as int)
}

pub fn sin_fp(theta: i64) -> (r: i64)
    ensures
        r == spec_sin_fp(theta as int),
        -SCALE <= r <= SCALE,
{
    let t = match theta.checked_rem_euclid(TURN) {
        Some(m) => m,
        None => 0,
    };
    if t < QUARTER {
        4 * t
    } else if t < 3 * QUARTER {
        2 * TURN - 4 * t
    } else {
        4 * t - 4 * TURN
    }
}

pub fn cos_fp(theta: i64) -> (r: i64)
    ensures
        r == spec_cos_fp(theta as int),
        -SCALE <= r <= SCALE,
{
    let t = match theta.checked_rem_euclid(TURN) {
        Some(m) => m,
        None => 0,
    };
    sin_fp(t + QUARTER)
}

/// The slope of `spec_sin_fp` with respect to its angle argument:
/// `4` on the rising flanks, `-4` on the falling one.
pub open spec fn spec_dsin_fp(theta: int) -> int {
    let t = theta % (TURN as int);
    if t < QUARTER as int || t >= 3 * (QUARTER as int) {
        4
    } else {
        -4
    }
}

pub fn dsin_fp(theta: i64) -> (r: i64)
    ensures
        r == spec_dsin_fp(theta as int),
{
    let t = match theta.checked_rem_euclid(TURN) {
        Some(m) => m,
        None => 0,
    };
    if t < QUARTER || t >= 3 * QUARTER {
        4
    } else {
        -4
    }
}

/// Bound on a product from bounds on its factors.
pub(crate) proof fn lemma_abs_mul_bound(a: int, b: int, bound_a: int, bound_b: int)
    requires
        -bound_a <= a <= bound_a,
        -bound_b <= b <= bound_b,
        0 <= bound_a,
        0 <= bound_b,
    ensures
        -bound_a * bound_b <= a * b <= bound_a * bound_b,
{
    assert(-bound_a * bound_b <= a * b <= bound_a * bound_b) by (nonlinear_arith)
        requires
            -bound_a <= a <= bound_a,
            -bound_b <= b <= bound_b,
            0 <= bound_a,
            0 <= bound_b,
    ;
}

/// A planar vector in world units.
#[derive(Clone, Copy, Debug, PartialEq, Eq, Structural)]
pub struct Vec2i {
    pub x: i64,
    pub y: i64,
}

pub open spec fn vec2_bounded(v: Vec2i, bound: int) -> bool {
    &&& -bound <= v.x <= bound
    &&& -bound <= v.y <= bound
}

/// The x component of a vector rotated by `theta`, rounded down.
pub open spec fn spec_rotate_x(x: int, y: int, theta: int) -> int {
    (x * spec_cos_fp(theta) - y * spec_sin_fp(theta)) / (SCALE as int)
}

/// The y component of a vector rotated by `theta`, rounded down.
pub open spec fn spec_rotate_y(x: int, y: int, theta: int) -> int {
    (x * spec_sin_fp(theta) + y * spec_cos_fp(theta)) / (SCALE as int)
}

pub open spec fn spec_rotate(v: Vec2i, theta: int) -> Vec2i {
    Vec2i {
        x: spec_rotate_x(v.x as int, v.y as int, theta) as i64,
        y: spec_rotate_y(v.x as int, v.y as int, theta) as i64,
    }
}

proof fn lemma_rotate_component_bounds(x: int, y: int, s: int, c: int, bound: int)
    requires
        -bound <= x <= bound,
        -bound <= y <= bound,
        0 <= bound,
        -(SCALE as int) <= s <= SCALE as int,
        -(SCALE as int) <= c <= SCALE as int,
    ensures
        -bound * (SCALE as int) <= x * c <= bound * (SCALE as int),
        -bound * (SCALE as int) <= y * s <= bound * (SCALE as int),
        -bound * (SCALE as int) <= x * s <= bound * (SCALE as int),
        -bound * (SCALE as int) <= y * c <= bound * (SCALE as int),
        -2 * bound * (SCALE as int) <= x * c - y * s <= 2 * bound * (SCALE as int),
        -2 * bound * (SCALE as int) <= x * s + y * c <= 2 * bound * (SCALE as int),
{
    assert(-bound * (SCALE as int) <= x * c <= bound * (SCALE as int)) by (nonlinear_arith)
        requires
            -bound <= x <= bound,
            0 <= bound,
            -(SCALE as int) <= c <= SCALE as int,
    ;
    assert(-bound * (SCALE as int) <= y * s <= bound * (SCALE as int)) by (nonlinear_arith)
        requires
            -bound <= y <= bound,
            0 <= bound,
            -(SCALE as int) <= s <= SCALE as int,
    ;
    assert(-bound * (SCALE as int) <= x * s <= bound * (SCALE as int)) by (nonlinear_arith)
        requires
            -bound <= x <= bound,
            0 <= bound,
            -(SCALE as int) <= s <= SCALE as int,
    ;
    assert(-bound * (SCALE as int) <= y * c <= bound * (SCALE as int)) by (nonlinear_arith)
        requires
            -bound <= y <= bound,
            0 <= bound,
            -(SCALE as int) <= c <= SCALE as int,
    ;
}

/// Rotates `v` by the angle `theta`, in fixed point.
pub fn rotate_fp(v: Vec2i, theta: i64) -> (r: Vec2i)
    requires
        vec2_bounded(v, POS_LIMIT as int),
    ensures
        r == spec_rotate(v, theta as int),
        vec2_bounded(r, 2 * POS_LIMIT as int),
{
    let s = sin_fp(theta);
    let c = cos_fp(theta);
    proof {
        lemma_rotate_component_bounds(
            v.x as int,
            v.y as int,
            s as int,
            c as int,
            POS_LIMIT as int,
        );
    }
    let nx = v.x * c - v.y * s;
    let ny = v.x * s + v.y * c;
    let rx = match nx.checked_div_euclid(SCALE) {
        Some(q) => q,
        None => 0,
    };
    let ry = match ny.checked_div_euclid(SCALE) {
        Some(q) => q,
        None => 0,
    };
    proof {
        lemma_div_bound(nx as int, 2 * POS_LIMIT as int);
        lemma_div_bound(ny as int, 2 * POS_LIMIT as int);
    }
    Vec2i { x: rx, y: ry }
}

/// Floor division by `SCALE` keeps a symmetric bound.
pub(crate) proof fn lemma_div_bound(n: int, bound: int)
    requires
        0 <= bound,
        -bound * (SCALE as int) <= n <= bound * (SCALE as int),
    ensures
        -bound <= n / (SCALE as int) <= bound,
{
    vstd::arithmetic::div_mod::lemma_div_is_ordered(n, bound * (SCALE as int), SCALE as int);
    vstd::arithmetic::div_mod::lemma_div_is_ordered(-bound * (SCALE as int), n, SCALE as int);
    assert(bound * (SCALE as int) / (SCALE as int) == bound) by {
        vstd::arithmetic::div_mod::lemma_div_multiples_vanish(bound, SCALE as int);
        assert(bound * (SCALE as int) == (SCALE as int) * bound);
    }
    assert(-bound * (SCALE as int) / (SCALE as int) == -bound) by {
        vstd::arithmetic::div_mod::lemma_div_multiples_vanish(-bound, SCALE as int);
        assert(-bound * (SCALE as int) == (SCALE as int) * -bound);
    }
}

/// The integer square root: the greatest `r` with `r * r <= n`.
pub open spec fn spec_isqrt(n: nat) -> nat
    decreases n,
{
    if n == 0 {
        0
    } else {
        let r = spec_isqrt((n - 1) as nat);
        if (r + 1) * (r + 1) <= n {
            r + 1
        } else {
            r
        }
    }
}

pub proof fn lemma_isqrt_squeeze(n: nat)
    ensures
        spec_isqrt(n) * spec_isqrt(n) <= n,
        n < (spec_isqrt(n) + 1) * (spec_isqrt(n) + 1),
    decreases n,
{
    if n == 0 {
        let s = spec_isqrt(n);
        assert(s == 0);
        assert(s * s <= n && n < (s + 1) * (s + 1)) by (nonlinear_arith)
            requires
                s == 0,
                n == 0,
        ;
    } else {
        lemma_isqrt_squeeze((n - 1) as nat);
        let r = spec_isqrt((n - 1) as nat);
        let s = spec_isqrt(n);
        assert(s == if (r + 1) * (r + 1) <= n {
            r + 1
        } else {
            r
        });
        assert(s * s <= n && n < (s + 1) * (s + 1)) by (nonlinear_arith)
            requires
                r * r <= n - 1,
                n - 1 < (r + 1) * (r + 1),
                n >= 1,
                s == if (r + 1) * (r + 1) <= n {
                    (r + 1) as nat
                } else {
                    r
                },
        ;
    }
}

pub proof fn lemma_isqrt_unique(n: nat, r: nat)
    requires
        r * r <= n,
        n < (r + 1) * (r + 1),
    ensures
        r == spec_isqrt(n),
{
    lemma_isqrt_squeeze(n);
    let s = spec_isqrt(n);
    assert(r == s) by (nonlinear_arith)
        requires
            r * r <= n,
            n < (r + 1) * (r + 1),
            s * s <= n,
            n < (s + 1) * (s + 1),
    ;
}

/// Floor division by a positive divisor never grows a value's magnitude.
pub(crate) proof fn lemma_div_magnitude(n: int, d: int)
    requires
        1 <= d,
    ensures
        n >= 0 ==> 0 <= n / d <= n,
        n < 0 ==> n <= n / d <= 0,
{
    vstd::arithmetic::div_mod::lemma_fundamental_div_mod(n, d);
    let q = n / d;
    let r = n % d;
    vstd::arithmetic::div_mod::lemma_mod_bound(n, d);
    if n >= 0 {
        vstd::arithmetic::div_mod::lemma_div_pos_is_pos(n, d);
        vstd::arithmetic::div_mod::lemma_div_nonincreasing(n, d);
    } else {
        assert(n <= q <= 0) by (nonlinear_arith)
            requires
                n == d * q + r,
                0 <= r < d,
                1 <= d,
                n < 0,
        ;
    }
}

/// Integer square root: the greatest `r` with `r * r <= n`.
pub fn isqrt(n: u64) -> (r: u64)
    ensures
        r == spec_isqrt(n as nat),
        r * r <= n,
        n < (r + 1) * (r + 1),
{
    let mut lo: u64 = 0;
    let mut hi: u64 = 4294967296;
    proof {
        assert((hi as int) * (hi as int) > n as int) by (nonlinear_arith)
            requires
                hi == 4294967296u64,
                n <= u64::MAX,
        ;
    }
    while lo + 1 < hi
        invariant
            lo < hi <= 4294967296,
            (lo as int) * (lo as int) <= n as int,
            (hi as int) * (hi as int) > n as int,
        decreases hi - lo,
    {
        let mid = lo + (hi - lo) / 2;
        proof {
            vstd::arithmetic::div_mod::lemma_fundamental_div_mod(n as int, mid as int);
            vstd::arithmetic::div_mod::lemma_mod_bound(n as int, mid as int);
        }
        if mid <= n / mid {
            proof {
                assert((mid as int) * (mid as int) <= n as int) by (nonlinear_arith)
                    requires
                        0 < mid,
                        mid as int <= n as int / mid as int,
                        n as int == (n as int / mid as int) * (mid as int) + n as int % (
                        mid as int),
                        n as int % (mid as int) >= 0,
                ;
            }
            lo = mid;
        } else {
            proof {
                assert((mid as int) * (mid as int) > n as int) by (nonlinear_arith)
                    requires
                        0 < mid,
                        mid as int > n as int / mid as int,
                        n as int == (n as int / mid as int) * (mid as int) + n as int % (
                        mid as int),
                        n as int % (mid as int) < mid as int,
                ;
            }
            hi = mid;
        }
    }
    proof {
        lemma_isqrt_unique(n as nat, lo as nat);
    }
    lo
}

} // verus!
