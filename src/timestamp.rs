//! Time bases and timestamp arithmetic.

use vstd::prelude::*;
use vstd::arithmetic::div_mod::lemma_div_is_ordered;

verus! {

/// A rational number `num / den`, used as a time base: the duration in seconds
/// of one timestamp tick.
#[derive(Clone, Copy, Debug, PartialEq, Eq, Structural)]
pub struct Rational {
    pub num: i32,
    pub den: i32,
}

/// `a * b / c` rounded to the nearest integer, halves away from zero.
pub open spec fn mul_div_round(a: int, b: int, c: int) -> int
    recommends
        b >= 0,
        c > 0,
{
    if a >= 0 {
        (a * b + c / 2) / c
    } else {
        -((-a * b + c / 2) / c)
    }
}

/// The timestamp `a`, counted in ticks of `from`, expressed in ticks of `to`,
/// rounded to the nearest tick with halves away from zero; `None` when the time
/// bases are unusable (a negative ratio or a non-positive divisor) or the result
/// does not fit a timestamp (`i64::MIN` is reserved for "no timestamp").
pub open spec fn rescale_spec(a: i64, from: Rational, to: Rational) -> Option<i64> {
    let b = from.num * to.den;
    let c = to.num * from.den;
    if b < 0 || c <= 0 {
        None
    } else {
        let r = mul_div_round(a as int, b, c);
        if i64::MIN < r && r <= i64::MAX {
            Some(r as i64)
        } else {
            None
        }
    }
}

proof fn lemma_i32_product_bound(x: int, y: int)
    requires
        i32::MIN <= x <= i32::MAX,
        i32::MIN <= y <= i32::MAX,
    ensures
        -0x4000_0000_0000_0000 <= x * y <= 0x4000_0000_0000_0000,
{
    assert(-0x4000_0000_0000_0000 <= x * y <= 0x4000_0000_0000_0000) by (nonlinear_arith)
        requires
            -0x8000_0000 <= x <= 0x7fff_ffff,
            -0x8000_0000 <= y <= 0x7fff_ffff,
    ;
}

/// Rescales timestamp `a` from time base `from` into time base `to`.
pub fn rescale_ts(a: i64, from: Rational, to: Rational) -> (r: Option<i64>)
    ensures
        r == rescale_spec(a, from, to),
{
    proof {
        lemma_i32_product_bound(from.num as int, to.den as int);
        lemma_i32_product_bound(to.num as int, from.den as int);
    }
    let b: i64 = (from.num as i64) * (to.den as i64);
    let c: i64 = (to.num as i64) * (from.den as i64);
    if b < 0 || c <= 0 {
        return None;
    }
    let mag: u128 = if a >= 0 {
        a as u128
    } else {
        (-(a as i128)) as u128
    };
    assert(mag <= 0x8000_0000_0000_0000u128);
    let bu: u128 = b as u128;
    assert(mag * bu <= 0x2000_0000_0000_0000_0000_0000_0000_0000u128) by (nonlinear_arith)
        requires
            mag <= 0x8000_0000_0000_0000u128,
            bu <= 0x4000_0000_0000_0000u128,
    ;
    let cu: u128 = c as u128;
    let q: u128 = (mag * bu + cu / 2) / cu;
    proof {
        let ai = a as int;
        if ai >= 0 {
            assert(mag as int == ai);
        } else {
            assert(mag as int == -ai);
        }
        assert((mag * bu) as int == mag as int * (b as int));
    }
    if a >= 0 {
        if q > 0x7fff_ffff_ffff_ffffu128 {
            None
        } else {
            Some(q as i64)
        }
    } else {
        if q > 0x7fff_ffff_ffff_ffffu128 {
            None
        } else {
            Some(-(q as i64))
        }
    }
}

proof fn lemma_mul_div_round_monotone(a1: int, a2: int, b: int, c: int)
    requires
        a1 <= a2,
        b >= 0,
        c > 0,
    ensures
        mul_div_round(a1, b, c) <= mul_div_round(a2, b, c),
{
    if a1 >= 0 {
        assert(a1 * b <= a2 * b) by (nonlinear_arith)
            requires
                0 <= a1 <= a2,
                b >= 0,
        ;
        lemma_div_is_ordered(a1 * b + c / 2, a2 * b + c / 2, c);
    } else if a2 < 0 {
        assert(-a2 * b <= -a1 * b) by (nonlinear_arith)
            requires
                a1 <= a2 < 0,
                b >= 0,
        ;
        lemma_div_is_ordered(-a2 * b + c / 2, -a1 * b + c / 2, c);
    } else {
        assert(-a1 * b >= 0 && a2 * b >= 0) by (nonlinear_arith)
            requires
                a1 < 0 <= a2,
                b >= 0,
        ;
        lemma_div_is_ordered(0, -a1 * b + c / 2, c);
        lemma_div_is_ordered(0, a2 * b + c / 2, c);
    }
}

/// Rescaling keeps order: of two timestamps that both rescale, the earlier
/// one does not come out later.
pub proof fn lemma_rescale_monotone(a1: i64, a2: i64, from: Rational, to: Rational)
    requires
        a1 <= a2,
        rescale_spec(a1, from, to).is_some(),
        rescale_spec(a2, from, to).is_some(),
    ensures
        rescale_spec(a1, from, to).unwrap() <= rescale_spec(a2, from, to).unwrap(),
{
    lemma_mul_div_round_monotone(
        a1 as int,
        a2 as int,
        from.num * to.den,
        to.num * from.den,
    );
}

/// Presentation and decoding timestamps after the fill rule: both absent
/// become zero, and a missing one is copied from the other.
pub open spec fn normalize_spec(pts: Option<i64>, dts: Option<i64>) -> (i64, i64) {
    match (pts, dts) {
        (None, None) => (0, 0),
        (None, Some(d)) => (d, d),
        (Some(p), None) => (p, p),
        (Some(p), Some(d)) => (p, d),
    }
}

/// Fills in missing timestamps: `(pts, dts)` with both set.
pub fn normalize_timestamps(pts: Option<i64>, dts: Option<i64>) -> (r: (i64, i64))
    ensures
        r == normalize_spec(pts, dts),
{
    match (pts, dts) {
        (None, None) => (0, 0),
        (None, Some(d)) => (d, d),
        (Some(p), None) => (p, p),
        (Some(p), Some(d)) => (p, d),
    }
}

} // verus!
