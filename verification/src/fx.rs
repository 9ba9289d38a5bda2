//! Fixed-point scalar arithmetic at scale `SCALE`, with exact contracts.
//!
//! A scalar `v: i64` stands for the real value `v / SCALE`. Multiplication
//! and division truncate toward zero, as `f64` rounding would round; the
//! spec functions here state the exact integer result of each operation.

use vstd::prelude::*;

verus! {

use crate::SCALE;
use vstd::arithmetic::div_mod::lemma_div_pos_is_pos;

/// Division truncating toward zero (the callers keep `b != 0`).
pub open spec fn div_trunc(a: int, b: int) -> int {
    if a >= 0 && b > 0 {
        a / b
    } else if a < 0 && b > 0 {
        -((-a) / b)
    } else if a >= 0 && b < 0 {
        -(a / (-b))
    } else {
        (-a) / (-b)
    }
}

/// The fixed-point product of two scalars.
pub open spec fn mul_fx(a: int, b: int) -> int {
    div_trunc(a * b, SCALE as int)
}

/// The fixed-point quotient of two scalars.
pub open spec fn div_fx(a: int, b: int) -> int {
    div_trunc(a * SCALE, b)
}

/// `r` is the floor square root of `n`.
pub open spec fn is_sqrt(n: int, r: int) -> bool {
    &&& 0 <= r
    &&& r * r <= n
    &&& n < (r + 1) * (r + 1)
}

/// The floor square root, as a function of `n >= 0`.
pub open spec fn sqrt_floor(n: int) -> int {
    choose|r: int| is_sqrt(n, r)
}

/// Every non-negative number has a floor square root, so `sqrt_floor`
/// denotes one.
pub proof fn lemma_sqrt_exists(n: int)
    requires
        n >= 0,
    ensures
        is_sqrt(n, sqrt_floor(n)),
    decreases n,
{
    if n == 0 {
        assert(is_sqrt(0, 0));
        assert(is_sqrt(n, sqrt_floor(n)));
    } else {
        lemma_sqrt_exists(n - 1);
        let r = sqrt_floor(n - 1);
        if (r + 1) * (r + 1) <= n {
            assert(is_sqrt(n, r + 1)) by (nonlinear_arith)
                requires
                    0 <= r,
                    r * r <= n - 1,
                    n - 1 < (r + 1) * (r + 1),
                    (r + 1) * (r + 1) <= n,
            {
            }
        } else {
            assert(is_sqrt(n, r));
        }
        assert(is_sqrt(n, sqrt_floor(n)));
    }
}

/// The floor square root is unique, so any witness equals `sqrt_floor`.
pub proof fn lemma_sqrt_unique(n: int, r: int)
    requires
        is_sqrt(n, r),
    ensures
        sqrt_floor(n) == r,
{
    let s = choose|q: int| is_sqrt(n, q);
    assert(is_sqrt(n, s));
    assert(s == r) by (nonlinear_arith)
        requires
            0 <= r,
            r * r <= n,
            n < (r + 1) * (r + 1),
            0 <= s,
            s * s <= n,
            n < (s + 1) * (s + 1),
    {
    }
}

/// Bounded operands give a bounded product.
pub proof fn lemma_mul_bounds(a: int, b: int, ca: int, cb: int)
    requires
        -ca <= a <= ca,
        -cb <= b <= cb,
    ensures
        -(ca * cb) <= a * b <= ca * cb,
{
    assert(-(ca * cb) <= a * b <= ca * cb) by (nonlinear_arith)
        requires
            -ca <= a <= ca,
            -cb <= b <= cb,
    {
    }
}

/// A fixed-point product of bounded operands is admissible and bounded.
pub proof fn lemma_mul_fx_bound(u: int, v: int, cu: int, cv: int)
    requires
        0 <= cu,
        0 <= cv,
        -cu <= u <= cu,
        -cv <= v <= cv,
        cu * cv <= (i64::MAX as int) * (SCALE as int),
    ensures
        mul_ok(u, v),
        -(cu * cv / (SCALE as int) + 1) <= mul_fx(u, v) <= cu * cv / (SCALE as int) + 1,
{
    lemma_mul_bounds(u, v, cu, cv);
    vstd::arithmetic::div_mod::lemma_fundamental_div_mod(cu * cv, SCALE as int);
    vstd::arithmetic::div_mod::lemma_mod_bound(cu * cv, SCALE as int);
    lemma_div_pos_is_pos(cu * cv, SCALE as int);
    assert((cu * cv / (SCALE as int) + 1) * (SCALE as int) > cu * cv) by (nonlinear_arith)
        requires
            cu * cv == (SCALE as int) * (cu * cv / (SCALE as int)) + (cu * cv) % (SCALE as int),
            (cu * cv) % (SCALE as int) < (SCALE as int),
    {
    }
    lemma_div_trunc_bound(u * v, SCALE as int, cu * cv / (SCALE as int) + 1);
}

/// Zero times anything rescales to zero.
pub proof fn lemma_mul_fx_zero(v: int)
    ensures
        mul_fx(0, v) == 0,
{
    assert(0 * v == 0) by (nonlinear_arith) {}
    vstd::arithmetic::div_mod::lemma_div_of0(SCALE as int);
}

/// One unit times a scalar rescales back to that scalar exactly.
pub proof fn lemma_mul_fx_unit(v: int)
    requires
        -(i64::MAX as int) <= v <= i64::MAX as int,
    ensures
        mul_fx(SCALE as int, v) == v,
        mul_ok(SCALE as int, v),
{
    if v >= 0 {
        vstd::arithmetic::div_mod::lemma_div_multiples_vanish(v, SCALE as int);
        assert((SCALE as int) * v == v * (SCALE as int)) by (nonlinear_arith) {}
    } else {
        vstd::arithmetic::div_mod::lemma_div_multiples_vanish(-v, SCALE as int);
        assert(-((SCALE as int) * v) == (-v) * (SCALE as int)) by (nonlinear_arith) {}
    }
    assert(-(i64::MAX as int) * (SCALE as int) <= (SCALE as int) * v <= (i64::MAX as int) * (
    SCALE as int)) by (nonlinear_arith)
        requires
            -(i64::MAX as int) <= v <= i64::MAX as int,
    {
    }
}

/// Division of a non-negative number stays below any multiple that
/// bounds the dividend.
proof fn lemma_div_bound_nonneg(x: int, b: int, c: int)
    requires
        x >= 0,
        b > 0,
        c >= 0,
        x <= c * b,
    ensures
        0 <= x / b <= c,
{
    lemma_div_pos_is_pos(x, b);
    vstd::arithmetic::div_mod::lemma_fundamental_div_mod(x, b);
    vstd::arithmetic::div_mod::lemma_mod_bound(x, b);
    let q = x / b;
    let r = x % b;
    assert(q <= c) by (nonlinear_arith)
        requires
            b > 0,
            x == b * q + r,
            0 <= r,
            x <= c * b,
    {
    }
}

/// Truncating division keeps the magnitude bound `|a| <= c * b`.
pub proof fn lemma_div_trunc_bound(a: int, b: int, c: int)
    requires
        b > 0,
        0 <= c,
        -(c * b) <= a <= c * b,
    ensures
        -c <= div_trunc(a, b) <= c,
{
    if a >= 0 {
        lemma_div_bound_nonneg(a, b, c);
    } else {
        lemma_div_bound_nonneg(-a, b, c);
    }
}

/// Truncating division never grows the magnitude (for `b >= 1`).
pub proof fn lemma_div_trunc_le(a: int, b: int)
    requires
        b >= 1,
    ensures
        a >= 0 ==> 0 <= div_trunc(a, b) <= a,
        a < 0 ==> a <= div_trunc(a, b) <= 0,
{
    if a >= 0 {
        assert(a <= a * b) by (nonlinear_arith)
            requires
                a >= 0,
                b >= 1,
        {
        }
        lemma_div_bound_nonneg(a, b, a);
    } else {
        assert(-a <= (-a) * b) by (nonlinear_arith)
            requires
                a < 0,
                b >= 1,
        {
        }
        lemma_div_bound_nonneg(-a, b, -a);
    }
}

/// Truncating division is exact up to less than one step of `b`.
pub proof fn lemma_div_trunc_error(a: int, b: int)
    requires
        b > 0,
    ensures
        a >= 0 ==> a - b < div_trunc(a, b) * b <= a,
        a < 0 ==> a <= div_trunc(a, b) * b < a + b,
{
    if a >= 0 {
        vstd::arithmetic::div_mod::lemma_fundamental_div_mod(a, b);
        vstd::arithmetic::div_mod::lemma_mod_bound(a, b);
        let q = a / b;
        let r = a % b;
        lemma_div_pos_is_pos(a, b);
        assert(a - b < q * b <= a) by (nonlinear_arith)
            requires
                a == b * q + r,
                0 <= r < b,
        {
        }
    } else {
        vstd::arithmetic::div_mod::lemma_fundamental_div_mod(-a, b);
        vstd::arithmetic::div_mod::lemma_mod_bound(-a, b);
        let q = (-a) / b;
        let r = (-a) % b;
        lemma_div_pos_is_pos(-a, b);
        assert(a <= (-q) * b < a + b) by (nonlinear_arith)
            requires
                -a == b * q + r,
                0 <= r < b,
        {
        }
    }
}

/// The product `a * b` stays representable after rescaling.
pub open spec fn mul_ok(a: int, b: int) -> bool {
    -(i64::MAX as int) * (SCALE as int) <= a * b <= (i64::MAX as int) * (SCALE as int)
}

/// The quotient `a / b` is well defined and stays representable.
pub open spec fn div_ok(a: int, b: int) -> bool {
    &&& b != 0
    &&& b > 0 ==> -(i64::MAX as int) * b <= a * (SCALE as int) <= (i64::MAX as int) * b
    &&& b < 0 ==> -(i64::MAX as int) * (-b) <= a * (SCALE as int) <= (i64::MAX as int) * (-b)
}

/// The fixed-point product of two scalars: `a * b / SCALE`, truncated
/// toward zero, exactly as the spec function `mul_fx` states.
pub fn fx_mul(a: i64, b: i64) -> (r: i64)
    requires
        mul_ok(a as int, b as int),
    ensures
        r == mul_fx(a as int, b as int),
{
    let p: i128 = (a as i128) * (b as i128);
    let q: i128 = p.checked_div(SCALE as i128).unwrap();
    proof {
        lemma_div_trunc_bound(p as int, SCALE as int, i64::MAX as int);
        assert(q == div_trunc(p as int, SCALE as int));
    }
    q as i64
}

/// The fixed-point quotient `a / b`: `a * SCALE / b`, truncated toward
/// zero, exactly as the spec function `div_fx` states.
pub fn fx_div(a: i64, b: i64) -> (r: i64)
    requires
        div_ok(a as int, b as int),
    ensures
        r == div_fx(a as int, b as int),
{
    let p: i128 = (a as i128) * (SCALE as i128);
    let q: i128 = p.checked_div(b as i128).unwrap();
    proof {
        if b > 0 {
            lemma_div_trunc_bound(p as int, b as int, i64::MAX as int);
        } else {
            lemma_div_trunc_bound(p as int, -(b as int), i64::MAX as int);
        }
        assert(q == div_trunc(p as int, b as int));
    }
    q as i64
}

/// Division of a scalar by a small positive integer count, truncating
/// toward zero; the scale does not change.
pub fn fx_div_int(a: i64, k: i64) -> (r: i64)
    requires
        k >= 1,
    ensures
        r == div_trunc(a as int, k as int),
{
    let q: i64 = a.checked_div(k).unwrap();
    proof {
        lemma_div_trunc_le(a as int, k as int);
        assert(q == div_trunc(a as int, k as int));
    }
    q
}

/// How far above one unit a power base may sit; with exponents kept at
/// or below `POW_MAX`, powers of such a base stay near one unit.
pub const POW_SLACK: i64 = 100_000;

/// Largest exponent `fx_powi` accepts.
pub const POW_MAX: u32 = 600;

/// Iterated fixed-point product: `n` factors of `b`, starting from one.
pub open spec fn powi_fx(b: int, n: nat) -> int
    decreases n,
{
    if n == 0 {
        SCALE as int
    } else {
        mul_fx(powi_fx(b, (n - 1) as nat), b)
    }
}

/// The `n`-th fixed-point power of a scalar base near or below one unit.
pub fn fx_powi(b: i64, n: u32) -> (r: i64)
    requires
        0 <= b <= SCALE + POW_SLACK,
        n <= POW_MAX,
    ensures
        r == powi_fx(b as int, n as nat),
        0 <= r <= SCALE + 3 * (POW_SLACK as int) * (n as int),
{
    let mut r: i64 = SCALE;
    let mut i: u32 = 0;
    while i < n
        invariant
            0 <= i <= n <= POW_MAX,
            0 <= b <= SCALE + POW_SLACK,
            r == powi_fx(b as int, i as nat),
            0 <= r <= SCALE + 3 * (POW_SLACK as int) * (i as int),
        decreases n - i,
    {
        proof {
            assert((r as int) * (b as int) <= (SCALE as int) * (SCALE as int + 3 * (
            POW_SLACK as int) * (i as int + 1)) && 0 <= (r as int) * (b as int))
                by (nonlinear_arith)
                requires
                    0 <= (r as int) <= (SCALE as int) + 3 * (POW_SLACK as int) * (i as int),
                    0 <= (b as int) <= (SCALE as int) + (POW_SLACK as int),
                    0 <= (i as int) < 600,
                    (SCALE as int) == 100_000_000,
                    (POW_SLACK as int) == 100_000,
            {
            }
            assert((SCALE as int) * (SCALE as int + 3 * (POW_SLACK as int) * (i as int + 1)) <= (
            i64::MAX as int) * (SCALE as int)) by (nonlinear_arith)
                requires
                    0 <= (i as int) < 600,
                    (SCALE as int) == 100_000_000,
                    (POW_SLACK as int) == 100_000,
            {
            }
            lemma_div_trunc_bound(
                (r as int) * (b as int),
                SCALE as int,
                SCALE as int + 3 * (POW_SLACK as int) * (i as int + 1),
            );
            lemma_div_trunc_le((r as int) * (b as int), SCALE as int);
        }
        r = fx_mul(r, b);
        i = i + 1;
    }
    r
}

/// Floor square root of a non-negative `u128`, by binary search.
pub(crate) fn isqrt_u128(n: u128) -> (r: u128)
    requires
        (n as int) < 0x40000000000000000000000000000000,
    ensures
        is_sqrt(n as int, r as int),
{
    if n == 0 {
        return 0;
    }
    let mut lo: u128 = 0;
    let mut hi: u128 = 0x8000000000000000;
    proof {
        assert((hi as int) * (hi as int) == 0x40000000000000000000000000000000);
    }
    while lo + 1 < hi
        invariant
            0 <= lo < hi <= 0x8000000000000000,
            (lo as int) * (lo as int) <= n as int,
            (n as int) < (hi as int) * (hi as int),
        decreases hi - lo,
    {
        let mid: u128 = lo + (hi - lo) / 2;
        assert(lo < mid < hi);
        proof {
            assert((mid as int) * (mid as int) <= 0x40000000000000000000000000000000) by (nonlinear_arith)
                requires
                    0 <= (mid as int) <= 0x8000000000000000,
            {
            }
        }
        let sq: u128 = mid * mid;
        if sq <= n {
            lo = mid;
        } else {
            hi = mid;
        }
    }
    lo
}

/// The floor square root of a non-negative scalar, at scale `SCALE`:
/// the result `r` satisfies `r * r <= a * SCALE < (r + 1) * (r + 1)`.
pub fn fx_sqrt(a: i64) -> (r: i64)
    requires
        a >= 0,
    ensures
        is_sqrt((a as int) * (SCALE as int), r as int),
        r == sqrt_floor((a as int) * (SCALE as int)),
        0 <= r,
{
    proof {
        assert((a as int) * (SCALE as int) < 0x40000000000000000000000000000000) by (nonlinear_arith)
            requires
                0 <= (a as int) <= 0x7fffffffffffffff,
                (SCALE as int) == 100_000_000,
        {
        }
    }
    let n: u128 = (a as u128) * (SCALE as u128);
    let s: u128 = isqrt_u128(n);
    proof {
        assert((s as int) * (s as int) <= n as int);
        assert((s as int) <= 0x7fffffffffffffff) by (nonlinear_arith)
            requires
                0 <= (s as int),
                (s as int) * (s as int) <= n as int,
                (n as int) < 0x40000000000000000000000000000000,
        {
        }
        lemma_sqrt_unique(n as int, s as int);
    }
    s as i64
}

} // verus!
