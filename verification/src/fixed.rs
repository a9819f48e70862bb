//! Saturating fixed-point arithmetic in micro-units.
//!
//! Camera coordinates, scales and elapsed times are carried as `i64` values
//! scaled by [`MICRO`]: the value `1_500_000` stands for `1.5`. All operations
//! saturate at the `i64` range instead of overflowing, so every function here
//! is total and its contract states the exact result.

use vstd::prelude::*;

verus! {

/// Number of fixed-point units in `1.0`.
pub const MICRO: i64 = 1_000_000;

/// Saturate an unbounded integer into the `i64` range.
pub open spec fn sat_i64(x: int) -> i64 {
    if x > i64::MAX {
        i64::MAX
    } else if x < i64::MIN {
        i64::MIN
    } else {
        x as i64
    }
}

/// Integer division truncating toward zero (the spec-level `/` rounds toward
/// negative infinity on negative dividends).
pub open spec fn div_trunc(p: int, d: int) -> int
    recommends
        d > 0,
{
    if p >= 0 {
        p / d
    } else {
        -((-p) / d)
    }
}

/// The exact value of the saturating fixed-point product `a * b`.
pub open spec fn fx_mul_spec(a: i64, b: i64) -> i64 {
    sat_i64(div_trunc(a * b, MICRO as int))
}

/// The exact value of the saturating sum `a + b`.
pub open spec fn fx_add_spec(a: i64, b: i64) -> i64 {
    sat_i64(a + b)
}

/// Magnitude of an `i64` as a mathematical integer.
pub open spec fn abs_int(a: i64) -> int {
    if a >= 0 {
        a as int
    } else {
        -(a as int)
    }
}

/// Saturating addition.
pub fn fx_add(a: i64, b: i64) -> (r: i64)
    ensures
        r == fx_add_spec(a, b),
{
    match a.checked_add(b) {
        Some(s) => s,
        None => {
            if a > 0 {
                i64::MAX
            } else {
                i64::MIN
            }
        },
    }
}

/// Magnitude of an `i64`, widened so that `i64::MIN` is representable.
fn abs_u128(a: i64) -> (r: u128)
    ensures
        r == abs_int(a),
{
    if a >= 0 {
        a as u128
    } else {
        (-(a as i128)) as u128
    }
}

/// Saturating fixed-point multiplication: `a * b / MICRO`, truncated toward
/// zero and clamped to the `i64` range.
pub fn fx_mul(a: i64, b: i64) -> (r: i64)
    ensures
        r == fx_mul_spec(a, b),
{
    let negative = (a < 0) != (b < 0);
    let ma = abs_u128(a);
    let mb = abs_u128(b);
    proof {
        assert(ma * mb <= 0x8000_0000_0000_0000u128 * 0x8000_0000_0000_0000u128)
            by (nonlinear_arith)
            requires
                ma <= 0x8000_0000_0000_0000u128,
                mb <= 0x8000_0000_0000_0000u128,
        ;
    }
    let q = (ma * mb) / (MICRO as u128);
    proof {
        lemma_abs_mul(a, b);
        assert((ma * mb) as int == abs_int(a) * abs_int(b));
    }
    if negative {
        proof {
            assert(a * b <= 0) by (nonlinear_arith)
                requires
                    (a < 0) != (b < 0),
            ;
            assert(div_trunc(a * b, MICRO as int) == -(q as int));
        }
        if q >= 9_223_372_036_854_775_808u128 {
            i64::MIN
        } else {
            -(q as i64)
        }
    } else {
        proof {
            assert(a * b >= 0) by (nonlinear_arith)
                requires
                    !((a < 0) != (b < 0)),
            ;
            assert(div_trunc(a * b, MICRO as int) == q as int);
        }
        if q > i64::MAX as u128 {
            i64::MAX
        } else {
            q as i64
        }
    }
}

/// The product of two magnitudes is the magnitude of the product.
proof fn lemma_abs_mul(a: i64, b: i64)
    ensures
        abs_int(a) * abs_int(b) == if (a < 0) != (b < 0) {
            -(a * b)
        } else {
            a * b
        },
{
    assert(abs_int(a) * abs_int(b) == if (a < 0) != (b < 0) {
        -(a * b)
    } else {
        a * b
    }) by (nonlinear_arith);
}

/// Clamp `x` into `[lo, hi]`.
pub open spec fn clamp_spec(x: i64, lo: i64, hi: i64) -> i64
    recommends
        lo <= hi,
{
    if x < lo {
        lo
    } else if x > hi {
        hi
    } else {
        x
    }
}

/// Clamp `x` into `[lo, hi]`.
pub fn fx_clamp(x: i64, lo: i64, hi: i64) -> (r: i64)
    requires
        lo <= hi,
    ensures
        r == clamp_spec(x, lo, hi),
{
    if x < lo {
        lo
    } else if x > hi {
        hi
    } else {
        x
    }
}

} // verus!
