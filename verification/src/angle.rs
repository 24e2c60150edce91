//! Fixed-point angle arithmetic in centidegrees (1/100 degree).
//!
//! Sine and cosine are rational approximations scaled by `TRIG_SCALE`,
//! exact at multiples of a quarter turn; the inverse tangent is a rational
//! approximation in the same units.

use vstd::prelude::*;

verus! {

/// One full turn, in centidegrees.
pub const FULL_TURN: i64 = 36000;
/// Half a turn (180 degrees), in centidegrees.
pub const HALF_TURN: i64 = 18000;
/// A quarter turn (90 degrees), in centidegrees.
pub const QUARTER_TURN: i64 = 9000;
/// Scale of trigonometric results: `sin` and `cos` range over
/// `[-TRIG_SCALE, TRIG_SCALE]`.
pub const TRIG_SCALE: i64 = 10000;

/// Largest angle magnitude the exec trigonometric functions accept.
pub const ANGLE_LIMIT: i64 = 1000000;

/// Rational approximation of the sine of `c` centidegrees for
/// `0 <= c <= 18000`, scaled by `TRIG_SCALE`; exact at 0, 9000 and 18000.
pub open spec fn sin_first_half(c: int) -> int {
    let t = c * (18000 - c);
    40000 * t / (405000000 - t)
}

/// Sine of an arbitrary angle in centidegrees, scaled by `TRIG_SCALE`.
pub open spec fn sin_cd_spec(a: int) -> int {
    let n = a % 36000;
    if n < 18000 {
        sin_first_half(n)
    } else {
        -sin_first_half(n - 18000)
    }
}

/// Cosine of an arbitrary angle in centidegrees, scaled by `TRIG_SCALE`.
pub open spec fn cos_cd_spec(a: int) -> int {
    sin_cd_spec(a + 9000)
}

/// Reduces an angle into `[0, FULL_TURN)`.
pub fn norm_cd(a: i64) -> (r: i64)
    requires
        -ANGLE_LIMIT <= a <= ANGLE_LIMIT,
    ensures
        r == a as int % 36000,
        0 <= r < 36000,
{
    let mut r: i64 = a;
    while r < 0
        invariant
            r % 36000 == a as int % 36000,
            -ANGLE_LIMIT <= r <= ANGLE_LIMIT,
        decreases 36000 - r,
    {
        proof {
            vstd::arithmetic::div_mod::lemma_mod_add_multiples_vanish(r as int, 36000);
        }
        r = r + 36000;
    }
    while r >= 36000
        invariant
            r % 36000 == a as int % 36000,
            0 <= r <= ANGLE_LIMIT,
        decreases r,
    {
        proof {
            vstd::arithmetic::div_mod::lemma_mod_sub_multiples_vanish(r as int, 36000);
        }
        r = r - 36000;
    }
    proof {
        vstd::arithmetic::div_mod::lemma_small_mod(r as nat, 36000);
    }
    r
}

/// Sine over the first half turn, by Bhaskara's rational approximation.
fn sin_half_exec(c: i64) -> (r: i64)
    requires
        0 <= c <= 18000,
    ensures
        r == sin_first_half(c as int),
        0 <= r <= 10000,
{
    proof {
        assert(0 <= (c as int) * (18000 - c as int) <= 81000000) by (nonlinear_arith)
            requires
                0 <= c <= 18000,
        ;
    }
    let t: i64 = c * (18000 - c);
    let num: i64 = 40000 * t;
    let denom: i64 = 405000000 - t;
    let r = num / denom;
    proof {
        assert(num <= 10000 * denom);
        assert(0 <= r <= 10000) by (nonlinear_arith)
            requires
                r == num / denom,
                0 <= num,
                num <= 10000 * denom,
                denom >= 324000000,
        ;
    }
    r
}

/// Sine of `a` centidegrees, scaled by `TRIG_SCALE`.
pub fn sin_cd(a: i64) -> (r: i64)
    requires
        -ANGLE_LIMIT <= a <= ANGLE_LIMIT,
    ensures
        r == sin_cd_spec(a as int),
        -10000 <= r <= 10000,
{
    let n = norm_cd(a);
    if n < 18000 {
        sin_half_exec(n)
    } else {
        -sin_half_exec(n - 18000)
    }
}

/// Cosine of `a` centidegrees, scaled by `TRIG_SCALE`.
pub fn cos_cd(a: i64) -> (r: i64)
    requires
        -ANGLE_LIMIT + 9000 <= a <= ANGLE_LIMIT - 9000,
    ensures
        r == cos_cd_spec(a as int),
        -10000 <= r <= 10000,
{
    sin_cd(a + 9000)
}

/// `0 <= x <= c * d` with `d > 0` bounds the quotient: `0 <= x / d <= c`.
proof fn lemma_div_in_range(x: int, c: int, d: int)
    requires
        0 <= x,
        x <= c * d,
        0 < d,
        0 <= c,
    ensures
        0 <= x / d <= c,
{
    vstd::arithmetic::div_mod::lemma_div_is_ordered(0, x, d);
    vstd::arithmetic::div_mod::lemma_div_is_ordered(x, c * d, d);
    vstd::arithmetic::mul::lemma_mul_is_commutative(c, d);
    vstd::arithmetic::div_mod::lemma_div_multiples_vanish(c, d);
}

/// Largest coordinate magnitude the inverse tangent accepts.
pub const ATAN_LIMIT: i64 = 2000000000;

/// Rational approximation of the arc tangent, in centidegrees, of a ratio
/// `q / TRIG_SCALE` with `0 <= q <= TRIG_SCALE`.
pub open spec fn atan_unit(q: int) -> int {
    45 * q / 100 + 1564 * q * (10000 - q) / 100000000
}

/// The angle, in centidegrees within `[-18000, 18000]`, of the vector
/// `(x, y)`; zero when both components are zero.
pub open spec fn atan2_cd_spec(y: int, x: int) -> int {
    let ax = if x < 0 { -x } else { x };
    let ay = if y < 0 { -y } else { y };
    if ax == 0 && ay == 0 {
        0
    } else {
        let base = if ay <= ax {
            atan_unit(ay * 10000 / ax)
        } else {
            9000 - atan_unit(ax * 10000 / ay)
        };
        if x >= 0 && y >= 0 {
            base
        } else if x < 0 && y >= 0 {
            18000 - base
        } else if x < 0 {
            -(18000 - base)
        } else {
            -base
        }
    }
}

/// Arc tangent of a ratio `q / TRIG_SCALE`, in centidegrees.
fn atan_unit_exec(q: i64) -> (r: i64)
    requires
        0 <= q <= 10000,
    ensures
        r == atan_unit(q as int),
        0 <= r <= 5000,
{
    proof {
        assert(0 <= (q as int) * (10000 - q as int) <= 25000000) by (nonlinear_arith)
            requires
                0 <= q <= 10000,
        ;
        lemma_div_in_range(1564 * ((q as int) * (10000 - q as int)), 500, 100000000);
        assert(1564 * ((q as int) * (10000 - q as int)) == 1564 * (q as int) * (10000
            - q as int)) by (nonlinear_arith);
    }
    let linear: i64 = 45 * q / 100;
    let correction: i64 = 1564 * q * (10000 - q) / 100000000;
    linear + correction
}

/// The angle of the vector `(x, y)` in centidegrees, within
/// `[-18000, 18000]`; zero for the zero vector.
pub fn atan2_cd(y: i64, x: i64) -> (r: i64)
    requires
        -ATAN_LIMIT <= y <= ATAN_LIMIT,
        -ATAN_LIMIT <= x <= ATAN_LIMIT,
    ensures
        r == atan2_cd_spec(y as int, x as int),
        -18000 <= r <= 18000,
{
    let ax: i64 = if x < 0 { -x } else { x };
    let ay: i64 = if y < 0 { -y } else { y };
    if ax == 0 && ay == 0 {
        return 0;
    }
    let base: i64 = if ay <= ax {
        proof {
            assert((ay as int) * 10000 <= (ax as int) * 10000) by (nonlinear_arith)
                requires
                    0 <= ay <= ax,
            ;
            lemma_div_in_range((ay as int) * 10000, 10000, ax as int);
        }
        atan_unit_exec(ay * 10000 / ax)
    } else {
        proof {
            assert((ax as int) * 10000 <= (ay as int) * 10000) by (nonlinear_arith)
                requires
                    0 <= ax <= ay,
            ;
            lemma_div_in_range((ax as int) * 10000, 10000, ay as int);
        }
        9000 - atan_unit_exec(ax * 10000 / ay)
    };
    if x >= 0 && y >= 0 {
        base
    } else if x < 0 && y >= 0 {
        18000 - base
    } else if x < 0 {
        -(18000 - base)
    } else {
        -base
    }
}

/// The signed angular difference `d`, wrapped once toward `(-18000, 18000]`.
pub open spec fn wrap_half_turn(d: int) -> int {
    if d > 18000 {
        d - 36000
    } else if d < -18000 {
        d + 36000
    } else {
        d
    }
}

/// Integer halving that rounds toward zero.
pub open spec fn half_toward_zero(d: int) -> int {
    if d >= 0 {
        d / 2
    } else {
        -((-d) / 2)
    }
}

/// One smoothing step of the heading: rotate from `rot` halfway toward
/// `target` along the shorter arc.
pub open spec fn rotate_toward_spec(rot: int, target: int) -> int {
    rot + half_toward_zero(wrap_half_turn(target - rot))
}

/// Largest heading magnitude a vehicle can reach: the smoothing step below
/// keeps headings within this bound whenever targets stay within
/// [`TARGET_LIMIT`].
pub const HEADING_LIMIT: i64 = 63000;

/// Largest magnitude of a target heading (spawn headings reach 27000).
pub const TARGET_LIMIT: i64 = 27000;

/// Rotates `rot` halfway toward `target` along the shorter arc.
pub fn rotate_toward(rot: i64, target: i64) -> (r: i64)
    requires
        -HEADING_LIMIT <= rot <= HEADING_LIMIT,
        -TARGET_LIMIT <= target <= TARGET_LIMIT,
    ensures
        r == rotate_toward_spec(rot as int, target as int),
        -HEADING_LIMIT <= r <= HEADING_LIMIT,
{
    let diff: i64 = target - rot;
    let wrapped: i64 = if diff > 18000 {
        diff - 36000
    } else if diff < -18000 {
        diff + 36000
    } else {
        diff
    };
    let step: i64 = if wrapped >= 0 {
        wrapped / 2
    } else {
        -((-wrapped) / 2)
    };
    rot + step
}

/// Removes the trigonometric scale from a product, rounding toward zero.
pub open spec fn unscale_trig_spec(t: int) -> int {
    if t >= 0 {
        t / 10000
    } else {
        -((-t) / 10000)
    }
}

/// Removes the trigonometric scale from a product `t` of a coordinate
/// and a scaled sine or cosine.
pub fn unscale_trig(t: i64) -> (r: i64)
    requires
        -1000000000000 <= t <= 1000000000000,
    ensures
        r == unscale_trig_spec(t as int),
        -100000000 <= r <= 100000000,
{
    if t >= 0 {
        t / 10000
    } else {
        -((-t) / 10000)
    }
}

/// Multiplies a trigonometric value `v` (scaled by `TRIG_SCALE`) by a
/// nonnegative magnitude `m` and removes the scale, rounding toward zero.
pub open spec fn scale_trig_spec(v: int, m: int) -> int {
    if v >= 0 {
        v * m / 10000
    } else {
        -((-v) * m / 10000)
    }
}

/// Applies a scaled sine or cosine `v` to a magnitude `m`.
pub fn scale_trig(v: i64, m: i64) -> (r: i64)
    requires
        -10000 <= v <= 10000,
        0 <= m <= 1000000,
    ensures
        r == scale_trig_spec(v as int, m as int),
        -m <= r <= m,
{
    if v >= 0 {
        proof {
            assert((v as int) * (m as int) <= 10000 * (m as int)) by (nonlinear_arith)
                requires
                    0 <= v <= 10000,
                    0 <= m,
            ;
            lemma_div_in_range((v as int) * (m as int), m as int, 10000);
        }
        v * m / 10000
    } else {
        proof {
            assert((-v as int) * (m as int) <= 10000 * (m as int)) by (nonlinear_arith)
                requires
                    -10000 <= v < 0,
                    0 <= m,
            ;
            lemma_div_in_range((-v as int) * (m as int), m as int, 10000);
        }
        -((-v) * m / 10000)
    }
}

} // verus!
