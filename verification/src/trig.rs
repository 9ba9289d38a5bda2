//! Fixed-point sine and cosine for the rotation constructors.
//!
//! An angle is a fixed-point scalar in radians. The angle is first wrapped
//! into `[-pi, pi]` by whole turns, then a truncated Taylor series is
//! evaluated by Horner's rule in exact integer arithmetic. The spec
//! functions state the exact value of every step, so `cos_fx` and `sin_fx`
//! are the library's definition of its own cosine and sine.

use vstd::prelude::*;

verus! {

use crate::SCALE;
use crate::fx::{div_trunc, mul_fx, fx_mul, fx_div_int, lemma_div_trunc_bound, lemma_div_trunc_le, lemma_mul_bounds};
use vstd::arithmetic::div_mod::lemma_div_pos_is_pos;

/// Pi, in fixed-point radians (truncated).
pub const PI_FX: i64 = 314_159_265;

/// One whole turn, in fixed-point radians (rounded).
pub const TWO_PI_FX: i64 = 628_318_531;

/// Largest angle magnitude the trigonometric functions accept.
pub const ANGLE_LIMIT: i64 = 10_000_000_000;

/// Wrap an angle downward by whole turns until it is at most pi.
pub open spec fn wrap_down(x: int) -> int
    decreases vstd::math::abs(x),
{
    if x > PI_FX {
        wrap_down(x - TWO_PI_FX)
    } else {
        x
    }
}

/// Wrap an angle upward by whole turns until it is at least minus pi.
pub open spec fn wrap_up(x: int) -> int
    decreases vstd::math::abs(x),
{
    if x < -PI_FX {
        wrap_up(x + TWO_PI_FX)
    } else {
        x
    }
}

/// The angle brought into `[-pi, pi]` by whole turns.
pub open spec fn wrap_angle(x: int) -> int {
    wrap_up(wrap_down(x))
}

proof fn lemma_wrap_down_le(x: int)
    ensures
        wrap_down(x) <= PI_FX,
        x <= PI_FX ==> wrap_down(x) == x,
        x >= -PI_FX ==> wrap_down(x) >= -(PI_FX as int) - 1,
    decreases vstd::math::abs(x),
{
    if x > PI_FX {
        lemma_wrap_down_le(x - TWO_PI_FX);
    }
}

proof fn lemma_wrap_up_ge(x: int)
    ensures
        wrap_up(x) >= -(PI_FX as int) - 1 ==> wrap_up(x) >= -(PI_FX as int),
        x >= -PI_FX ==> wrap_up(x) == x,
        x <= PI_FX ==> wrap_up(x) <= PI_FX,
        wrap_up(x) >= if x >= -PI_FX {
            x
        } else {
            -(PI_FX as int)
        },
    decreases vstd::math::abs(x),
{
    if x < -PI_FX {
        lemma_wrap_up_ge(x + TWO_PI_FX);
    }
}

/// A wrapped angle lies in `[-pi, pi]`.
pub proof fn lemma_wrap_bounds(x: int)
    ensures
        -(PI_FX as int) <= wrap_angle(x) <= PI_FX,
{
    lemma_wrap_down_le(x);
    lemma_wrap_up_ge(wrap_down(x));
}

/// Bring an angle into `[-pi, pi]` by whole turns.
fn wrap(x: i64) -> (r: i64)
    requires
        -ANGLE_LIMIT <= x <= ANGLE_LIMIT,
    ensures
        r == wrap_angle(x as int),
        -PI_FX <= r <= PI_FX,
{
    let mut a: i64 = x;
    while a > PI_FX
        invariant
            -ANGLE_LIMIT <= a <= ANGLE_LIMIT,
            wrap_down(a as int) == wrap_down(x as int),
        decreases a + TWO_PI_FX,
    {
        a = a - TWO_PI_FX;
    }
    proof {
        assert(wrap_down(a as int) == a as int);
    }
    while a < -PI_FX
        invariant
            -ANGLE_LIMIT - (TWO_PI_FX as int) <= a <= PI_FX,
            wrap_up(a as int) == wrap_up(wrap_down(x as int)),
        decreases (TWO_PI_FX as int) - a,
    {
        a = a + TWO_PI_FX;
    }
    proof {
        assert(wrap_up(a as int) == a as int);
        lemma_wrap_bounds(x as int);
    }
    a
}

/// One Horner step of the cosine or sine series: one unit minus the
/// series tail, scaled by `y` and the next factorial divisor.
pub open spec fn series_step(y: int, t: int, c: int) -> int {
    (SCALE as int) - div_trunc(mul_fx(y, t), c)
}

/// The cosine series in `y = x * x`, by Horner's rule, through the
/// eighteenth power of the angle.
pub open spec fn cos_series(y: int) -> int {
    let t8 = series_step(y, SCALE as int, 306);
    let t7 = series_step(y, t8, 240);
    let t6 = series_step(y, t7, 182);
    let t5 = series_step(y, t6, 132);
    let t4 = series_step(y, t5, 90);
    let t3 = series_step(y, t4, 56);
    let t2 = series_step(y, t3, 30);
    let t1 = series_step(y, t2, 12);
    series_step(y, t1, 2)
}

/// The odd part of the sine series in `y = x * x`, by Horner's rule,
/// through the seventeenth power of the angle.
pub open spec fn sin_series(y: int) -> int {
    let p7 = series_step(y, SCALE as int, 272);
    let p6 = series_step(y, p7, 210);
    let p5 = series_step(y, p6, 156);
    let p4 = series_step(y, p5, 110);
    let p3 = series_step(y, p4, 72);
    let p2 = series_step(y, p3, 42);
    let p1 = series_step(y, p2, 20);
    series_step(y, p1, 6)
}

/// The library's cosine of a fixed-point angle in radians.
pub open spec fn cos_fx(x: int) -> int {
    cos_series(mul_fx(wrap_angle(x), wrap_angle(x)))
}

/// The library's sine of a fixed-point angle in radians.
pub open spec fn sin_fx(x: int) -> int {
    mul_fx(wrap_angle(x), sin_series(mul_fx(wrap_angle(x), wrap_angle(x))))
}

/// One executable Horner step, with its value bound: from a tail bounded
/// by `ct` it yields a value bounded by `SCALE + 11 * ct / c`.
fn step(y: i64, t: i64, c: i64, Ghost(ct): Ghost<int>) -> (r: i64)
    requires
        0 <= y <= 1_000_000_000,
        2 <= c <= 306,
        100_000_000 <= ct <= 2_000_000_000,
        -ct <= t <= ct,
    ensures
        r == series_step(y as int, t as int, c as int),
        -(SCALE as int) - 11 * ct / (c as int) <= r <= (SCALE as int) + 11 * ct / (c as int),
{
    proof {
        lemma_mul_bounds(y as int, t as int, 1_000_000_000, ct);
        assert(1_000_000_000 * ct <= (i64::MAX as int) * (SCALE as int)) by (nonlinear_arith)
            requires
                0 <= ct <= 2_000_000_000,
        {
        }
        assert(1_000_000_000 * ct == (10 * ct) * (SCALE as int)) by (nonlinear_arith)
            requires
                (SCALE as int) == 100_000_000,
        {
        }
        lemma_div_trunc_bound((y as int) * (t as int), SCALE as int, 10 * ct);
    }
    let u: i64 = fx_mul(y, t);
    proof {
        let dd = 11 * ct / (c as int);
        vstd::arithmetic::div_mod::lemma_fundamental_div_mod(11 * ct, c as int);
        vstd::arithmetic::div_mod::lemma_mod_bound(11 * ct, c as int);
        lemma_div_pos_is_pos(11 * ct, c as int);
        assert(dd * (c as int) >= 10 * ct);
        lemma_div_trunc_bound(u as int, c as int, dd);
    }
    let v: i64 = fx_div_int(u, c);
    SCALE - v
}

/// The cosine of a fixed-point angle in radians, wrapped into one turn;
/// exactly the value of the spec function `cos_fx`.
pub fn fx_cos(x: i64) -> (r: i64)
    requires
        -ANGLE_LIMIT <= x <= ANGLE_LIMIT,
    ensures
        r == cos_fx(x as int),
        -1_400_000_000 <= r <= 1_400_000_000,
{
    let a: i64 = wrap(x);
    proof {
        lemma_mul_bounds(a as int, a as int, PI_FX as int, PI_FX as int);
        assert((a as int) * (a as int) >= 0) by (nonlinear_arith) {}
        lemma_div_trunc_bound((a as int) * (a as int), SCALE as int, 1_000_000_000);
        lemma_div_trunc_le((a as int) * (a as int), SCALE as int);
    }
    let y: i64 = fx_mul(a, a);
    let t8: i64 = step(y, SCALE, 306, Ghost(100_000_000int));
    let t7: i64 = step(y, t8, 240, Ghost(103_594_771int));
    let t6: i64 = step(y, t7, 182, Ghost(104_748_093int));
    let t5: i64 = step(y, t6, 132, Ghost(106_330_928int));
    let t4: i64 = step(y, t5, 90, Ghost(108_860_910int));
    let t3: i64 = step(y, t4, 56, Ghost(113_305_222int));
    let t2: i64 = step(y, t3, 30, Ghost(122_256_382int));
    let t1: i64 = step(y, t2, 12, Ghost(144_827_340int));
    let t0: i64 = step(y, t1, 2, Ghost(232_758_395int));
    t0
}

/// The sine of a fixed-point angle in radians, wrapped into one turn;
/// exactly the value of the spec function `sin_fx`.
pub fn fx_sin(x: i64) -> (r: i64)
    requires
        -ANGLE_LIMIT <= x <= ANGLE_LIMIT,
    ensures
        r == sin_fx(x as int),
        -1_400_000_000 <= r <= 1_400_000_000,
{
    let a: i64 = wrap(x);
    proof {
        lemma_mul_bounds(a as int, a as int, PI_FX as int, PI_FX as int);
        assert((a as int) * (a as int) >= 0) by (nonlinear_arith) {}
        lemma_div_trunc_bound((a as int) * (a as int), SCALE as int, 1_000_000_000);
        lemma_div_trunc_le((a as int) * (a as int), SCALE as int);
    }
    let y: i64 = fx_mul(a, a);
    let p7: i64 = step(y, SCALE, 272, Ghost(100_000_000int));
    let p6: i64 = step(y, p7, 210, Ghost(104_044_117int));
    let p5: i64 = step(y, p6, 156, Ghost(105_449_929int));
    let p4: i64 = step(y, p5, 110, Ghost(107_435_571int));
    let p3: i64 = step(y, p4, 72, Ghost(110_743_557int));
    let p2: i64 = step(y, p3, 42, Ghost(116_919_154int));
    let p1: i64 = step(y, p2, 20, Ghost(130_621_683int));
    let p0: i64 = step(y, p1, 6, Ghost(171_841_925int));
    proof {
        lemma_mul_bounds(a as int, p0 as int, PI_FX as int, 415_043_529int);
        lemma_div_trunc_bound((a as int) * (p0 as int), SCALE as int, 1_303_966_000int);
    }
    fx_mul(a, p0)
}

} // verus!
