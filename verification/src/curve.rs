//! Fixed-point realizations of the camera's transcendental curves.
//!
//! The integrator needs `10^x` (for the exponential friction factor
//! `1 - 10^(t - 1)`) and `log2` (for the zoom step multiplier
//! `max(1, log2(scale))`). Both are computed in micro-units by binary
//! expansion of the fractional part, so every step is exact integer
//! arithmetic and the contracts state the exact result.

use vstd::prelude::*;

use crate::fixed::MICRO;
use crate::fixed::sat_i64;

verus! {

/// `10.0` in micro-units, the ceiling of one decade of the fraction table.
pub const TEN_MICRO: u64 = 10_000_000;

/// `2.0` in micro-units.
pub const TWO_MICRO: u64 = 2_000_000;

/// Micro-unit approximations of `10^(2^-(k+1))` for `k` in `0..20`:
/// the factor table for binary expansion of a fractional exponent.
pub open spec fn pow10_bit_factors() -> Seq<int> {
    seq![
        3_162_278int,
        1_778_279int,
        1_333_521int,
        1_154_782int,
        1_074_608int,
        1_036_633int,
        1_018_152int,
        1_009_035int,
        1_004_507int,
        1_002_251int,
        1_001_125int,
        1_000_562int,
        1_000_281int,
        1_000_141int,
        1_000_070int,
        1_000_035int,
        1_000_018int,
        1_000_009int,
        1_000_004int,
        1_000_002int,
    ]
}

/// The entry of [`pow10_bit_factors`] at `k`, as executable code.
fn pow10_bit_factor(k: usize) -> (r: u64)
    requires
        k < 20,
    ensures
        r == pow10_bit_factors()[k as int],
{
    match k {
        0 => 3_162_278,
        1 => 1_778_279,
        2 => 1_333_521,
        3 => 1_154_782,
        4 => 1_074_608,
        5 => 1_036_633,
        6 => 1_018_152,
        7 => 1_009_035,
        8 => 1_004_507,
        9 => 1_002_251,
        10 => 1_001_125,
        11 => 1_000_562,
        12 => 1_000_281,
        13 => 1_000_141,
        14 => 1_000_070,
        15 => 1_000_035,
        16 => 1_000_018,
        17 => 1_000_009,
        18 => 1_000_004,
        _ => 1_000_002,
    }
}

/// One multiplicative step of the fraction expansion, capped at one decade.
pub open spec fn frac10_step(acc: int, factor: int) -> int {
    let p = (acc * factor) / (MICRO as int);
    if p > TEN_MICRO as int {
        TEN_MICRO as int
    } else {
        p
    }
}

/// Binary weight of expansion step `k`: `2^(19 - k)`.
pub open spec fn frac10_weight(k: nat) -> int
    decreases 20 - k,
{
    if k >= 19 {
        1
    } else {
        2 * frac10_weight(k + 1)
    }
}

/// The fraction expansion from step `k` on, with `rem` weight still to
/// consume and `acc` the product so far.
pub open spec fn frac10_loop(rem: int, k: nat, acc: int) -> int
    decreases 20 - k,
{
    if k >= 20 {
        acc
    } else if rem >= frac10_weight(k) {
        frac10_loop(rem - frac10_weight(k), k + 1, frac10_step(acc, pow10_bit_factors()[k as int]))
    } else {
        frac10_loop(rem, k + 1, acc)
    }
}

/// `10^(r / MICRO)` in micro-units for `0 <= r < MICRO`: the fractional
/// exponent is turned into 20 binary digits, each contributing one factor
/// of the table.
pub open spec fn frac10_spec(r: int) -> int {
    frac10_loop((r * 0x10_0000) / (MICRO as int), 0, MICRO as int)
}

/// The result of the fraction expansion stays within one decade.
proof fn lemma_frac10_loop_bounds(rem: int, k: nat, acc: int)
    requires
        k <= 20,
        MICRO <= acc <= TEN_MICRO,
    ensures
        MICRO <= frac10_loop(rem, k, acc) <= TEN_MICRO,
    decreases 20 - k,
{
    if k < 20 {
        let factor = pow10_bit_factors()[k as int];
        assert(MICRO <= factor <= 3_162_278);
        if rem >= frac10_weight(k) {
            let stepped = frac10_step(acc, factor);
            assert(acc * factor >= MICRO * MICRO) by (nonlinear_arith)
                requires
                    acc >= MICRO,
                    factor >= MICRO,
            ;
            assert((acc * factor) / (MICRO as int) >= MICRO);
            assert(MICRO <= stepped <= TEN_MICRO);
            lemma_frac10_loop_bounds(rem - frac10_weight(k), k + 1, stepped);
        } else {
            lemma_frac10_loop_bounds(rem, k + 1, acc);
        }
    }
}

/// Executable fraction expansion: `10^(r / MICRO)` in micro-units.
fn frac10(r: u64) -> (res: u64)
    requires
        r < MICRO,
    ensures
        res == frac10_spec(r as int),
        MICRO <= res <= TEN_MICRO,
{
    let mut rem: u64 = r * 0x10_0000 / (MICRO as u64);
    let mut acc: u64 = MICRO as u64;
    let mut w: u64 = 0x8_0000;
    let ghost rem0: int = rem as int;
    let mut k: usize = 0;
    proof {
        lemma_frac10_loop_bounds(rem0, 0, MICRO as int);
        assert(frac10_weight(0) == 0x8_0000) by {
            reveal_with_fuel(frac10_weight, 20);
        }
    }
    while k < 20
        invariant
            k <= 20,
            MICRO <= acc <= TEN_MICRO,
            k < 20 ==> w == frac10_weight(k as nat),
            frac10_loop(rem as int, k as nat, acc as int) == frac10_loop(rem0, 0, MICRO as int),
            MICRO <= frac10_loop(rem0, 0, MICRO as int) <= TEN_MICRO,
        decreases 20 - k,
    {
        let factor = pow10_bit_factor(k);
        if rem >= w {
            rem = rem - w;
            acc = acc * factor / (MICRO as u64);
            if acc > TEN_MICRO {
                acc = TEN_MICRO;
            }
        }
        if k < 19 {
            w = w / 2;
        }
        k = k + 1;
    }
    acc
}

/// `10^n` as an unbounded integer.
pub open spec fn ten_pow(n: nat) -> int
    decreases n,
{
    if n == 0 {
        1
    } else {
        10 * ten_pow((n - 1) as nat)
    }
}

/// `10^x` for a fixed-point exponent `x`, in micro-units: the whole decades
/// scale the expansion of the fractional part, saturating at the `i64` range
/// and truncating to zero below `10^-6`.
pub open spec fn pow10_spec(x: i64) -> i64 {
    let m = MICRO as int;
    if x >= 0 {
        sat_i64(ten_pow((x as int / m) as nat) * frac10_spec(x as int % m))
    } else {
        let y = -(x as int);
        let n = ((y + m - 1) / m) as nat;
        sat_i64(frac10_spec((n * m) - y) / ten_pow(n))
    }
}

/// `ten_pow` grows by a factor of ten per step.
proof fn lemma_ten_pow_monotone(a: nat, b: nat)
    requires
        a <= b,
    ensures
        ten_pow(a) <= ten_pow(b),
        ten_pow(a) >= 1,
    decreases b,
{
    if b > 0 {
        lemma_ten_pow_monotone(
            if a == b {
                (a - 1) as nat
            } else {
                a
            },
            (b - 1) as nat,
        );
    }
}

/// `10^n` for small `n`, as executable code.
fn ten_pow_exec(n: u64) -> (r: u64)
    requires
        n <= 13,
    ensures
        r == ten_pow(n as nat),
        r >= 1,
{
    let mut r: u64 = 1;
    let mut i: u64 = 0;
    proof {
        lemma_ten_pow_monotone(n as nat, 13);
        assert(ten_pow(13) == 10_000_000_000_000) by { reveal_with_fuel(ten_pow, 14); }
    }
    while i < n
        invariant
            i <= n <= 13,
            r == ten_pow(i as nat),
            ten_pow(n as nat) <= 10_000_000_000_000,
            ten_pow(i as nat) <= ten_pow(n as nat),
        decreases n - i,
    {
        proof {
            lemma_ten_pow_monotone((i + 1) as nat, n as nat);
        }
        r = r * 10;
        i = i + 1;
    }
    r
}

/// `10^x` for a fixed-point exponent in micro-units, saturating.
pub fn pow10_fx(x: i64) -> (r: i64)
    ensures
        r == pow10_spec(x),
        r >= 0,
{
    proof {
        lemma_frac10_loop_bounds(0, 0, MICRO as int);
    }
    if x >= 0 {
        let ux = x as u64;
        let n = ux / (MICRO as u64);
        let rfrac = ux % (MICRO as u64);
        let f = frac10(rfrac);
        proof {
            lemma_frac10_loop_bounds((rfrac as int * 0x10_0000) / (MICRO as int), 0, MICRO as int);
        }
        if n >= 13 {
            proof {
                lemma_ten_pow_monotone(13, n as nat);
                assert(ten_pow(13) == 10_000_000_000_000) by { reveal_with_fuel(ten_pow, 14); }
                assert(ten_pow(n as nat) * frac10_spec(rfrac as int) >= 10_000_000_000_000 * 1_000_000)
                    by (nonlinear_arith)
                    requires
                        ten_pow(n as nat) >= 10_000_000_000_000,
                        frac10_spec(rfrac as int) >= 1_000_000,
                ;
            }
            i64::MAX
        } else {
            let d = ten_pow_exec(n);
            proof {
                assert(ten_pow(n as nat) <= 10_000_000_000_000) by {
                    lemma_ten_pow_monotone(n as nat, 13);
                    assert(ten_pow(13) == 10_000_000_000_000) by { reveal_with_fuel(ten_pow, 14); }
                }
                assert(ten_pow(n as nat) * f <= 10_000_000_000_000 * 10_000_000)
                    by (nonlinear_arith)
                    requires
                        1 <= ten_pow(n as nat) <= 10_000_000_000_000,
                        0 <= f <= 10_000_000,
                ;
            }
            let p = d as u128 * f as u128;
            if p > i64::MAX as u128 {
                i64::MAX
            } else {
                p as i64
            }
        }
    } else {
        let y: u128 = (-(x as i128)) as u128;
        let m: u128 = MICRO as u128;
        let n: u128 = (y + m - 1) / m;
        if n >= 8 {
            proof {
                lemma_ten_pow_monotone(8, n as nat);
                assert(ten_pow(8) == 100_000_000) by { reveal_with_fuel(ten_pow, 9); }
                let rr = (n as int * MICRO) - (y as int);
                lemma_frac10_loop_bounds((rr * 0x10_0000) / (MICRO as int), 0, MICRO as int);
                assert(frac10_spec(rr) <= TEN_MICRO);
                assert(ten_pow(n as nat) >= 100_000_000);
                assert(frac10_spec(rr) / ten_pow(n as nat) == 0) by (nonlinear_arith)
                    requires
                        0 <= frac10_spec(rr) < ten_pow(n as nat),
                ;
            }
            0
        } else {
            proof {
                assert((n as int) * (m as int) >= y as int && (n as int) * (m as int) - (y as int)
                    < m as int) by (nonlinear_arith)
                    requires
                        n as int == ((y as int) + (m as int) - 1) / (m as int),
                        m as int == 1_000_000,
                        y as int >= 1,
                ;
            }
            let rfrac: u64 = (n * m - y) as u64;
            let f = frac10(rfrac);
            let d = ten_pow_exec(n as u64);
            (f / d) as i64
        }
    }
}

/// `2^n` as an unbounded integer.
pub open spec fn two_pow(n: nat) -> int
    decreases n,
{
    if n == 0 {
        1
    } else {
        2 * two_pow((n - 1) as nat)
    }
}

/// How many halvings bring `y` below `2.0`.
pub open spec fn log2_norm_shifts(y: int) -> nat
    decreases y,
    when y >= 0
{
    if y < TWO_MICRO {
        0
    } else {
        1 + log2_norm_shifts(y / 2)
    }
}

/// The value `y` reaches once halved below `2.0`.
pub open spec fn log2_norm_val(y: int) -> int
    decreases y,
    when y >= 0
{
    if y < TWO_MICRO {
        y
    } else {
        log2_norm_val(y / 2)
    }
}

/// A value below `2.0 * 2^b` needs at most `b` halvings.
proof fn lemma_norm_shifts_bound(y: int, b: nat)
    requires
        0 <= y < TWO_MICRO * two_pow(b),
    ensures
        log2_norm_shifts(y) <= b,
    decreases b,
{
    if y >= TWO_MICRO {
        assert(b > 0);
        assert(y / 2 < TWO_MICRO * two_pow((b - 1) as nat));
        lemma_norm_shifts_bound(y / 2, (b - 1) as nat);
    }
}

/// Halving a value at least `1.0` never drops it below `1.0` before the
/// normalization stops.
proof fn lemma_norm_val_range(y: int)
    requires
        y >= MICRO,
    ensures
        MICRO <= log2_norm_val(y) < TWO_MICRO,
    decreases y,
{
    if y >= TWO_MICRO {
        lemma_norm_val_range(y / 2);
    }
}

/// The binary-digit expansion of `log2` on a normalized mantissa: square,
/// take the overflow past `2.0` as the next fraction bit.
pub open spec fn log2_frac_loop(y: int, k: nat, bits: int) -> int
    decreases 20 - k,
{
    if k >= 20 {
        bits
    } else {
        let sq = (y * y) / (MICRO as int);
        if sq >= TWO_MICRO {
            log2_frac_loop(sq / 2, k + 1, bits * 2 + 1)
        } else {
            log2_frac_loop(sq, k + 1, bits * 2)
        }
    }
}

/// `log2(scale / MICRO)` in micro-units, for `scale >= 2.0`: the count of
/// halvings gives the whole part, twenty squaring steps give the fraction.
pub open spec fn log2_spec(scale: i64) -> i64
    recommends
        scale >= TWO_MICRO,
{
    let n = log2_norm_shifts(scale as int);
    let bits = log2_frac_loop(log2_norm_val(scale as int), 0, 0);
    (n * MICRO + (bits * MICRO) / 0x10_0000) as i64
}

/// The fraction bits stay below their binary weight.
proof fn lemma_log2_frac_bits_bound(y: int, k: nat, bits: int, cap: nat)
    requires
        k <= 20,
        cap == 20 - k,
        MICRO <= y < TWO_MICRO,
        0 <= bits,
    ensures
        log2_frac_loop(y, k, bits) < (bits + 1) * two_pow(cap),
        log2_frac_loop(y, k, bits) >= 0,
    decreases cap,
{
    if k >= 20 {
        assert(two_pow(cap) == 1);
        assert(bits < (bits + 1) * 1);
    } else {
        let sq = (y * y) / (MICRO as int);
        assert(MICRO * MICRO <= y * y < TWO_MICRO * TWO_MICRO) by (nonlinear_arith)
            requires
                MICRO <= y < TWO_MICRO,
        ;
        assert(MICRO <= sq < 4_000_000);
        let cap1 = (cap - 1) as nat;
        lemma_two_pow_monotone(0, cap1);
        if sq >= TWO_MICRO {
            lemma_log2_frac_bits_bound(sq / 2, k + 1, bits * 2 + 1, cap1);
            assert((bits * 2 + 2) * two_pow(cap1) == (bits + 1) * two_pow(cap)) by (nonlinear_arith)
                requires
                    two_pow(cap) == 2 * two_pow(cap1),
            ;
        } else {
            lemma_log2_frac_bits_bound(sq, k + 1, bits * 2, cap1);
            assert((bits * 2 + 1) * two_pow(cap1) <= (bits + 1) * two_pow(cap)) by (nonlinear_arith)
                requires
                    two_pow(cap) == 2 * two_pow(cap1),
                    two_pow(cap1) >= 0,
            ;
        }
    }
}

/// `two_pow` never shrinks as the exponent grows.
proof fn lemma_two_pow_monotone(a: nat, b: nat)
    requires
        a <= b,
    ensures
        two_pow(a) <= two_pow(b),
        two_pow(a) >= 1,
    decreases b,
{
    if b > 0 {
        lemma_two_pow_monotone(
            if a == b {
                (a - 1) as nat
            } else {
                a
            },
            (b - 1) as nat,
        );
    }
}

/// `two_pow(20)` and the `i64` halving bound, spelled out for the proofs.
proof fn lemma_two_pow_values()
    ensures
        two_pow(20) == 0x10_0000,
        two_pow(43) == 0x800_0000_0000,
{
    assert(two_pow(20) == 0x10_0000 && two_pow(43) == 0x800_0000_0000) by {
        reveal_with_fuel(two_pow, 44);
    }
}

/// `log2(scale / MICRO)` in micro-units, for `scale >= 2.0`.
pub fn log2_fx(scale: i64) -> (r: i64)
    requires
        scale >= TWO_MICRO,
    ensures
        r == log2_spec(scale),
        r >= MICRO,
{
    let ghost s0: int = scale as int;
    let mut y: u64 = scale as u64;
    let mut n: u64 = 0;
    proof {
        lemma_two_pow_values();
        lemma_norm_shifts_bound(s0, 43);
        lemma_norm_val_range(s0);
    }
    while y >= TWO_MICRO
        invariant
            MICRO <= y,
            n + log2_norm_shifts(y as int) == log2_norm_shifts(s0),
            log2_norm_val(y as int) == log2_norm_val(s0),
            log2_norm_shifts(s0) <= 43,
            MICRO <= log2_norm_val(s0) < TWO_MICRO,
        decreases y,
    {
        y = y / 2;
        n = n + 1;
    }
    let ghost y0: int = y as int;
    let mut bits: u64 = 0;
    let mut k: usize = 0;
    proof {
        lemma_log2_frac_bits_bound(y0, 0, 0, 20);
        lemma_two_pow_values();
        lemma_two_pow_monotone(0, 20);
    }
    while k < 20
        invariant
            k <= 20,
            MICRO <= y < TWO_MICRO,
            bits < two_pow(k as nat),
            two_pow(k as nat) <= 0x10_0000,
            log2_frac_loop(y as int, k as nat, bits as int) == log2_frac_loop(y0, 0, 0),
            0 <= log2_frac_loop(y0, 0, 0) < 0x10_0000,
        decreases 20 - k,
    {
        proof {
            lemma_two_pow_values();
            lemma_two_pow_monotone((k + 1) as nat, 20);
            assert((y as int) * (y as int) < 2_000_000 * 2_000_000) by (nonlinear_arith)
                requires
                    0 <= (y as int) && (y as int) < 2_000_000,
            ;
            assert((y as int) * (y as int) >= 1_000_000 * 1_000_000) by (nonlinear_arith)
                requires
                    (y as int) >= 1_000_000,
            ;
        }
        let sq = y * y / (MICRO as u64);
        if sq >= TWO_MICRO {
            y = sq / 2;
            bits = bits * 2 + 1;
        } else {
            y = sq;
            bits = bits * 2;
        }
        k = k + 1;
    }
    (n * (MICRO as u64) + bits * (MICRO as u64) / 0x10_0000) as i64
}

/// The zoom step multiplier `max(1, log2(scale))` in micro-units.
pub open spec fn zoom_mult_spec(scale: i64) -> i64 {
    if scale < TWO_MICRO {
        MICRO
    } else {
        log2_spec(scale)
    }
}

/// The zoom step multiplier `max(1, log2(scale))` in micro-units.
pub fn zoom_mult(scale: i64) -> (r: i64)
    ensures
        r == zoom_mult_spec(scale),
        r >= MICRO,
{
    if scale < TWO_MICRO as i64 {
        MICRO
    } else {
        log2_fx(scale)
    }
}

/// The friction factor `1 - 10^(t - 1)` in micro-units, for an elapsed time
/// `t` in micro-seconds: `0.9` at `t == 0`, falling to `0` at one second.
pub open spec fn friction_spec(t: i64) -> i64
    recommends
        t >= 0,
{
    sat_i64(MICRO - pow10_spec(sat_i64(t - MICRO)))
}

/// The friction factor applied to pan and zoom momentum each tick.
pub fn friction_fx(t: i64) -> (r: i64)
    requires
        t >= 0,
    ensures
        r == friction_spec(t),
        r <= 900_000,
{
    let x: i64 = t - MICRO;
    let p = pow10_fx(x);
    proof {
        if x < 0 {
            let m = MICRO as int;
            let y = -(x as int);
            assert(1 <= y <= m);
            let n = ((y + m - 1) / m) as nat;
            assert(n == 1);
            assert(ten_pow(1nat) == 10) by { reveal_with_fuel(ten_pow, 2); }
            let rr = (n as int * m) - y;
            lemma_frac10_loop_bounds((rr * 0x10_0000) / m, 0, m);
            assert(frac10_spec(rr) / 10 >= 100_000);
        } else {
            assert(frac10_spec(x as int % (MICRO as int)) >= MICRO) by {
                lemma_frac10_loop_bounds(
                    ((x as int % (MICRO as int)) * 0x10_0000) / (MICRO as int),
                    0,
                    MICRO as int,
                );
            }
            lemma_ten_pow_monotone(0, (x as int / (MICRO as int)) as nat);
            assert(ten_pow((x as int / (MICRO as int)) as nat) * frac10_spec(
                x as int % (MICRO as int),
            ) >= 1 * MICRO) by (nonlinear_arith)
                requires
                    ten_pow((x as int / (MICRO as int)) as nat) >= 1,
                    frac10_spec(x as int % (MICRO as int)) >= MICRO,
            ;
        }
    }
    MICRO - p
}

} // verus!
