//! Fixed-point interpretation of IEEE 754 single-precision bit patterns.
//!
//! The producer process stores every scalar telemetry field as the raw
//! bit pattern of a single-precision float. Verified code cannot use
//! floating point, so each field is interpreted as a fixed-point value
//! in micro-units: the integer nearest to the encoded value times one
//! million, truncated toward zero and saturated at plus or minus one
//! million whole units. All derivation thresholds in this crate are
//! stated over that micro-unit scale (for example the threshold 0.7
//! becomes 700_000).
//!
//! A NaN bit pattern is carried through as the reserved sentinel
//! `MICRO_NAN`, and every rule in this crate compares scalars through
//! `micro_gt`, `micro_lt`, `micro_ge` and `micro_le`, which are false
//! whenever either side is the sentinel — exactly as every float
//! comparison against NaN is false. A NaN field therefore satisfies
//! no classification threshold and falls through to each rule's
//! default, and clamping or arithmetic on it yields NaN again.

use vstd::prelude::*;
use vstd::arithmetic::power2::{
    pow2, lemma2_to64, lemma2_to64_rest, lemma_pow2_pos, lemma_pow2_strictly_increases,
};
use vstd::bits::lemma_u64_shr_is_div;

verus! {

/// One whole unit expressed in micro-units.
pub const MICRO_UNIT: i64 = 1_000_000;

/// Saturation bound of the fixed-point scale: one million whole units.
/// Encoded magnitudes beyond this bound (including infinities) are
/// clamped to it; every derivation rule in this crate clamps its
/// inputs to far smaller ranges, so the bound never influences them.
pub const MICRO_SAT: i64 = 1_000_000_000_000;

/// Sentinel standing for a NaN bit pattern, far outside the
/// saturation range so it collides with no encoded value.
pub const MICRO_NAN: i64 = i64::MIN;

/// NaN-faithful strict greater-than: false when either side is the
/// NaN sentinel, as the float comparison would be.
pub open spec fn micro_gt(x: int, t: int) -> bool {
    x != MICRO_NAN && x > t
}

/// NaN-faithful strict less-than.
pub open spec fn micro_lt(x: int, t: int) -> bool {
    x != MICRO_NAN && x < t
}

/// NaN-faithful greater-or-equal.
pub open spec fn micro_ge(x: int, t: int) -> bool {
    x != MICRO_NAN && x >= t
}

/// NaN-faithful less-or-equal.
pub open spec fn micro_le(x: int, t: int) -> bool {
    x != MICRO_NAN && x <= t
}

/// Sign bit of a single-precision bit pattern.
pub open spec fn f32_sign_bit(bits: u32) -> bool {
    bits >= 0x8000_0000
}

/// Biased exponent field (eight bits) of a single-precision bit pattern.
pub open spec fn f32_exponent(bits: u32) -> u32 {
    (bits / 0x0080_0000) % 256
}

/// Fraction field (23 bits) of a single-precision bit pattern.
pub open spec fn f32_fraction(bits: u32) -> u32 {
    bits % 0x0080_0000
}

/// Magnitude in micro-units, before saturation, of a finite
/// single-precision value: the fraction (with the implicit leading bit
/// for normal numbers) scaled by the unbiased power of two, times one
/// million, truncated toward zero.
pub open spec fn micro_magnitude(bits: u32) -> int {
    let m: int = if f32_exponent(bits) == 0 {
        f32_fraction(bits) as int
    } else {
        f32_fraction(bits) + 0x0080_0000
    };
    let sh: int = if f32_exponent(bits) == 0 {
        149
    } else {
        150 - f32_exponent(bits)
    };
    if sh >= 0 {
        (m * 1_000_000) / (pow2(sh as nat) as int)
    } else {
        (m * 1_000_000) * (pow2((-sh) as nat) as int)
    }
}

/// Micro-unit value of a single-precision bit pattern: NaN becomes
/// the `MICRO_NAN` sentinel, infinities saturate, finite values
/// truncate toward zero and saturate at `MICRO_SAT`.
pub open spec fn micro_from_bits(bits: u32) -> int {
    if f32_exponent(bits) == 255 {
        if f32_fraction(bits) != 0 {
            MICRO_NAN as int
        } else if f32_sign_bit(bits) {
            -MICRO_SAT as int
        } else {
            MICRO_SAT as int
        }
    } else {
        let mag: int = if micro_magnitude(bits) > MICRO_SAT {
            MICRO_SAT as int
        } else {
            micro_magnitude(bits)
        };
        if f32_sign_bit(bits) {
            -mag
        } else {
            mag
        }
    }
}

/// A finite value whose biased exponent is at least 150 is at least
/// 2^23 whole units, far beyond the saturation bound.
proof fn lemma_high_exponent_saturates(bits: u32)
    requires
        f32_exponent(bits) >= 150,
        f32_exponent(bits) != 255,
    ensures
        micro_magnitude(bits) > MICRO_SAT,
{
    let m: int = f32_fraction(bits) + 0x0080_0000;
    let e: int = f32_exponent(bits) as int;
    assert(m >= 0x0080_0000);
    if e == 150 {
        lemma2_to64();
        assert(pow2(0) == 1);
        assert((m * 1_000_000) / 1 == m * 1_000_000);
        assert(m * 1_000_000 >= 0x0080_0000 * 1_000_000);
    } else {
        let k: nat = (e - 150) as nat;
        lemma_pow2_pos(k);
        let p: int = pow2(k) as int;
        assert(m * 1_000_000 >= 0x0080_0000 * 1_000_000);
        assert((m * 1_000_000) * p >= m * 1_000_000) by (nonlinear_arith)
            requires
                p >= 1,
                m * 1_000_000 >= 0,
        ;
    }
}

/// Numerators below 2^44 shifted by 64 or more places vanish.
proof fn lemma_wide_shift_is_zero(num: u64, sh: nat)
    requires
        num < 0x1000_0000_0000,
        sh >= 64,
    ensures
        (num as int) / (pow2(sh) as int) == 0,
{
    lemma2_to64_rest();
    assert(pow2(44) == 0x1000_0000_0000);
    lemma_pow2_strictly_increases(44, sh);
    assert((num as int) / (pow2(sh) as int) == 0) by (nonlinear_arith)
        requires
            0 <= num as int,
            (num as int) < pow2(sh) as int,
        ;
}

/// Converts a single-precision bit pattern to its micro-unit value by
/// exact integer arithmetic.
pub fn micro_from_f32_bits(bits: u32) -> (r: i64)
    ensures
        r == micro_from_bits(bits),
        r == MICRO_NAN || -MICRO_SAT <= r <= MICRO_SAT,
{
    let neg: bool = bits >= 0x8000_0000;
    let e: u32 = (bits / 0x0080_0000) % 256;
    let frac: u32 = bits % 0x0080_0000;
    if e == 255 {
        if frac != 0 {
            MICRO_NAN
        } else if neg {
            -MICRO_SAT
        } else {
            MICRO_SAT
        }
    } else if e >= 150 {
        proof {
            lemma_high_exponent_saturates(bits);
        }
        if neg {
            -MICRO_SAT
        } else {
            MICRO_SAT
        }
    } else {
        let m: u64 = if e == 0 {
            frac as u64
        } else {
            (frac + 0x0080_0000) as u64
        };
        let sh: u32 = if e == 0 {
            149
        } else {
            150 - e
        };
        let num: u64 = m * 1_000_000;
        assert(num < 0x1000_0000_0000);
        let mag: u64 = if sh >= 64 {
            proof {
                lemma_wide_shift_is_zero(num, sh as nat);
            }
            0
        } else {
            let shv: u64 = sh as u64;
            proof {
                lemma_u64_shr_is_div(num, shv);
            }
            num >> shv
        };
        let capped: u64 = if mag > 1_000_000_000_000u64 {
            1_000_000_000_000u64
        } else {
            mag
        };
        if neg {
            -(capped as i64)
        } else {
            capped as i64
        }
    }
}

/// Clamps a micro-unit value into an inclusive range.
pub open spec fn clamp_micro(x: int, lo: int, hi: int) -> int {
    if x < lo {
        lo
    } else if x > hi {
        hi
    } else {
        x
    }
}

/// Clamping into the unit interval, with NaN carried through as the
/// float clamp would carry it.
pub open spec fn clamp_unit_of(x: int) -> int {
    if x == MICRO_NAN {
        MICRO_NAN as int
    } else {
        clamp_micro(x, 0, MICRO_UNIT as int)
    }
}

/// Clamps a micro-unit value into the unit interval, zero to one
/// whole unit; the NaN sentinel stays NaN.
pub fn clamp_unit_micro(x: i64) -> (r: i64)
    ensures
        r == clamp_unit_of(x as int),
        r == MICRO_NAN || 0 <= r <= MICRO_UNIT,
{
    if x == MICRO_NAN {
        MICRO_NAN
    } else if x < 0 {
        0
    } else if x > MICRO_UNIT {
        MICRO_UNIT
    } else {
        x
    }
}

/// Strict greater-than that treats the NaN sentinel as a float
/// treats NaN: no comparison against it holds.
pub fn gt_micro(x: i64, t: i64) -> (r: bool)
    ensures
        r == micro_gt(x as int, t as int),
{
    x != MICRO_NAN && x > t
}

/// Strict less-than under the same NaN rule.
pub fn lt_micro(x: i64, t: i64) -> (r: bool)
    ensures
        r == micro_lt(x as int, t as int),
{
    x != MICRO_NAN && x < t
}

/// Greater-or-equal under the same NaN rule.
pub fn ge_micro(x: i64, t: i64) -> (r: bool)
    ensures
        r == micro_ge(x as int, t as int),
{
    x != MICRO_NAN && x >= t
}

/// Less-or-equal under the same NaN rule.
pub fn le_micro(x: i64, t: i64) -> (r: bool)
    ensures
        r == micro_le(x as int, t as int),
{
    x != MICRO_NAN && x <= t
}

} // verus!
