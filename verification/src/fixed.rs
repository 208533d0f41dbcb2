//! Fixed-point sample arithmetic.
//!
//! A sample or coefficient is an `i64` holding `SCALE` units per whole unit,
//! so `SCALE` itself is the value one (full scale), `SCALE / 2` is one half,
//! and so on. Multiplication by a coefficient divides the wide product by
//! `SCALE`, rounding toward zero; every operation saturates at the `i64`
//! range instead of wrapping.

use vstd::prelude::*;

verus! {

/// Number of fixed-point units per whole unit: the value `1.0`.
pub const SCALE: i64 = 1_000_000;

/// The mathematical value clamped to the representable `i64` range.
pub open spec fn clamped(x: int) -> int {
    if x > i64::MAX as int {
        i64::MAX as int
    } else if x < i64::MIN as int {
        i64::MIN as int
    } else {
        x
    }
}

/// Division by `SCALE` rounding toward zero, as the narrowing step of a
/// fixed-point product.
pub open spec fn div_scale(x: int) -> int {
    if x >= 0 {
        x / (SCALE as int)
    } else {
        -((-x) / (SCALE as int))
    }
}

/// Fixed-point product: `a` scaled by the coefficient `b`, saturated.
pub open spec fn scale_mul(a: int, b: int) -> int {
    clamped(div_scale(a * b))
}

/// Saturating sum of two samples.
pub open spec fn sat_add(a: int, b: int) -> int {
    clamped(a + b)
}

/// The fixed-point values a sample vector holds, as mathematical integers.
pub open spec fn sample_ints(s: Seq<i64>) -> Seq<int> {
    s.map_values(|x: i64| x as int)
}

/// Saturating sample addition; exact with respect to `sat_add`.
pub fn sat_add64(a: i64, b: i64) -> (r: i64)
    ensures
        r as int == sat_add(a as int, b as int),
{
    let s: i128 = (a as i128) + (b as i128);
    if s > i64::MAX as i128 {
        i64::MAX
    } else if s < i64::MIN as i128 {
        i64::MIN
    } else {
        s as i64
    }
}

/// Fixed-point multiplication; exact with respect to `scale_mul`.
pub fn scale_mul64(a: i64, b: i64) -> (r: i64)
    ensures
        r as int == scale_mul(a as int, b as int),
{
    proof {
        lemma_i64_product_in_i128(a as int, b as int);
    }
    let p: i128 = (a as i128) * (b as i128);
    let neg: bool = p < 0;
    let mag: u128 = if neg {
        (-p) as u128
    } else {
        p as u128
    };
    let q: u128 = mag / (SCALE as u128);
    if neg {
        if q > i64::MAX as u128 {
            i64::MIN
        } else {
            -(q as i64)
        }
    } else {
        if q > i64::MAX as u128 {
            i64::MAX
        } else {
            q as i64
        }
    }
}

/// Scaling by the coefficient one (`SCALE`) is the identity on every
/// representable sample.
pub proof fn lemma_scale_mul_one(f: int)
    requires
        i64::MIN as int <= f <= i64::MAX as int,
    ensures
        scale_mul(SCALE as int, f) == f,
{
    if f >= 0 {
        vstd::arithmetic::div_mod::lemma_div_multiples_vanish(f, SCALE as int);
        assert((SCALE as int) * f / (SCALE as int) == f);
    } else {
        assert(-((SCALE as int) * f) == (SCALE as int) * (-f)) by (nonlinear_arith);
        vstd::arithmetic::div_mod::lemma_div_multiples_vanish(-f, SCALE as int);
        assert((SCALE as int) * (-f) / (SCALE as int) == -f);
    }
}

/// The product of two `i64` values fits in `i128`.
proof fn lemma_i64_product_in_i128(a: int, b: int)
    requires
        i64::MIN as int <= a <= i64::MAX as int,
        i64::MIN as int <= b <= i64::MAX as int,
    ensures
        (i128::MIN as int) < a * b,
        a * b < (i128::MAX as int),
{
    assert((i128::MIN as int) < a * b && a * b < (i128::MAX as int)) by (nonlinear_arith)
        requires
            -0x8000_0000_0000_0000 <= a <= 0x7fff_ffff_ffff_ffff,
            -0x8000_0000_0000_0000 <= b <= 0x7fff_ffff_ffff_ffff,
    ;
}

} // verus!
