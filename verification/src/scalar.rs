//! Exact fixed-point arithmetic for the engine's scalar values.
//!
//! Every scalar the engine manipulates (parameter values, time, zoom,
//! view coordinates, oscillator outputs) is an `i64` counting micro-units:
//! the number 1 is [`UNIT`] = 1,000,000.  All operations are total:
//! results that would leave the `i64` range saturate at its bounds, and
//! every function's contract states the exact result.

use vstd::prelude::*;

verus! {

/// The scalar 1 in micro-units.
pub const UNIT: i64 = 1_000_000;

/// The scalar 1/2 in micro-units.
pub const HALF: i64 = 500_000;

/// The scalar 1/4 in micro-units.
pub const QUARTER: i64 = 250_000;

/// Clamp a mathematical integer into the `i64` range.
pub open spec fn clamp64(x: int) -> int {
    if x > i64::MAX {
        i64::MAX as int
    } else if x < i64::MIN {
        i64::MIN as int
    } else {
        x
    }
}

/// Division truncating toward zero (the machine's signed division), for a
/// positive divisor.
pub open spec fn trunc_div(x: int, d: int) -> int {
    if x >= 0 {
        x / d
    } else {
        -((-x) / d)
    }
}

/// Division truncating toward zero for any nonzero divisor.
pub open spec fn trunc_div_signed(x: int, d: int) -> int {
    if d > 0 {
        trunc_div(x, d)
    } else {
        trunc_div(-x, -d)
    }
}

/// Saturating addition.
pub open spec fn sat_add_spec(a: int, b: int) -> int {
    clamp64(a + b)
}

/// Saturating subtraction.
pub open spec fn sat_sub_spec(a: int, b: int) -> int {
    clamp64(a - b)
}

/// Saturating fixed-point multiplication: `a * b / UNIT`, truncated toward
/// zero, clamped into the `i64` range.
pub open spec fn mul_unit_spec(a: int, b: int) -> int {
    clamp64(trunc_div(a * b, UNIT as int))
}

/// Saturating fixed-point division: `a * UNIT / b`, truncated toward zero,
/// clamped into the `i64` range.  Meaningful only for `b != 0`.
pub open spec fn div_unit_spec(a: int, b: int) -> int {
    clamp64(trunc_div_signed(a * UNIT, b))
}

/// The position of `c` within its unit interval: `c mod UNIT`, always in
/// `[0, UNIT)`.
pub open spec fn frac_spec(c: int) -> int {
    c % (UNIT as int)
}

pub fn sat_add(a: i64, b: i64) -> (r: i64)
    ensures
        r == sat_add_spec(a as int, b as int),
{
    match a.checked_add(b) {
        Some(v) => v,
        None => if b >= 0 {
            i64::MAX
        } else {
            i64::MIN
        },
    }
}

pub fn sat_sub(a: i64, b: i64) -> (r: i64)
    ensures
        r == sat_sub_spec(a as int, b as int),
{
    match a.checked_sub(b) {
        Some(v) => v,
        None => if b >= 0 {
            i64::MIN
        } else {
            i64::MAX
        },
    }
}

/// The product of two `i64` values always fits in `i128`.
proof fn lemma_wide_product_in_range(a: i64, b: i64)
    ensures
        i128::MIN < a * b < i128::MAX,
{
    assert(i128::MIN < (a as int) * (b as int) < i128::MAX) by (nonlinear_arith)
        requires
            i64::MIN <= a <= i64::MAX,
            i64::MIN <= b <= i64::MAX,
    ;
}

/// Clamp an `i128` into the `i64` range.
fn clamp_to_64(q: i128) -> (r: i64)
    ensures
        r == clamp64(q as int),
{
    if q > i64::MAX as i128 {
        i64::MAX
    } else if q < i64::MIN as i128 {
        i64::MIN
    } else {
        q as i64
    }
}

/// Truncating division of an `i128` by a positive `i128`.
fn div_wide(x: i128, d: i128) -> (r: i128)
    requires
        d > 0,
        x > i128::MIN,
    ensures
        r == trunc_div(x as int, d as int),
{
    proof {
        if x >= 0 {
            vstd::arithmetic::div_mod::lemma_div_nonincreasing(x as int, d as int);
            vstd::arithmetic::div_mod::lemma_div_is_ordered(0, x as int, d as int);
        } else {
            vstd::arithmetic::div_mod::lemma_div_nonincreasing(-x as int, d as int);
            vstd::arithmetic::div_mod::lemma_div_is_ordered(0, -x as int, d as int);
        }
    }
    match x.checked_div(d) {
        Some(q) => q,
        None => 0,
    }
}

pub fn mul_unit(a: i64, b: i64) -> (r: i64)
    ensures
        r == mul_unit_spec(a as int, b as int),
{
    proof {
        lemma_wide_product_in_range(a, b);
    }
    let wide: i128 = (a as i128) * (b as i128);
    let q = div_wide(wide, UNIT as i128);
    clamp_to_64(q)
}

pub fn div_unit(a: i64, b: i64) -> (r: i64)
    requires
        b != 0,
    ensures
        r == div_unit_spec(a as int, b as int),
{
    proof {
        lemma_wide_product_in_range(a, UNIT);
    }
    let wide: i128 = (a as i128) * (UNIT as i128);
    if b > 0 {
        let q = div_wide(wide, b as i128);
        clamp_to_64(q)
    } else {
        let q = div_wide(-wide, -(b as i128));
        clamp_to_64(q)
    }
}

pub fn frac(c: i64) -> (r: i64)
    ensures
        r == frac_spec(c as int),
        0 <= r < UNIT,
{
    match c.checked_rem_euclid(UNIT) {
        Some(v) => v,
        None => 0,
    }
}

/// Clamp a scalar into `[lo, hi]`.
pub open spec fn clamp_spec(x: i64, lo: i64, hi: i64) -> i64 {
    if x < lo {
        lo
    } else if x > hi {
        hi
    } else {
        x
    }
}

pub fn clamp(x: i64, lo: i64, hi: i64) -> (r: i64)
    ensures
        r == clamp_spec(x, lo, hi),
{
    if x < lo {
        lo
    } else if x > hi {
        hi
    } else {
        x
    }
}

} // verus!
