//! Bit-level treatment of the host's 8-byte IEEE-754 binary64 numeric payload.
//!
//! Numeric cells carry their payload as the raw bit pattern (a `u64`), so the
//! classifications and conversions the bridge needs are plain integer logic:
//! a value is NaN or infinite when the exponent field is all ones, negative
//! when the sign bit is set and the value is neither NaN nor a zero, and the
//! integer part is recovered from the exponent and mantissa fields directly.
use vstd::arithmetic::power2::{
    lemma2_to64, lemma2_to64_rest, lemma_pow2_adds, lemma_pow2_pos, lemma_pow2_strictly_increases,
    pow2,
};
use vstd::bits::{lemma_u64_shl_is_mul, lemma_u64_shr_is_div};
use vstd::prelude::*;

verus! {

/// The biased exponent field: bits 62..52.
pub open spec fn spec_exp_field(bits: u64) -> u64 {
    (bits >> 52) & 0x7ff
}

/// The mantissa field: bits 51..0.
pub open spec fn spec_mant_field(bits: u64) -> u64 {
    bits & 0xf_ffff_ffff_ffff
}

/// The sign bit.
pub open spec fn spec_sign(bits: u64) -> bool {
    (bits >> 63) == 1
}

/// The encoded value is NaN or an infinity.
pub open spec fn spec_nan_or_inf(bits: u64) -> bool {
    spec_exp_field(bits) == 0x7ff
}

/// The encoded value is NaN.
pub open spec fn spec_nan(bits: u64) -> bool {
    spec_exp_field(bits) == 0x7ff && spec_mant_field(bits) != 0
}

/// The encoded value compares unequal to zero, as the host's `!= 0` test
/// does: every pattern but the two zeros, NaN included.
pub open spec fn spec_nonzero(bits: u64) -> bool {
    bits & 0x7fff_ffff_ffff_ffff != 0
}

/// The encoded value compares strictly below zero: the sign bit is set and
/// the value is neither NaN nor a (negative) zero.
pub open spec fn spec_below_zero(bits: u64) -> bool {
    spec_sign(bits) && !spec_nan(bits) && spec_nonzero(bits)
}

/// The encoded value compares strictly above the non-negative value encoded
/// by `c`. Sound only for `c` patterns of finite non-negative values: for a
/// non-NaN, non-negative operand the unsigned order of the patterns is the
/// numeric order.
pub open spec fn spec_above_nonneg(bits: u64, c: u64) -> bool {
    !spec_nan(bits) && !spec_sign(bits) && bits > c
}

pub fn exp_field(bits: u64) -> (r: u64)
    ensures
        r == spec_exp_field(bits),
{
    (bits >> 52) & 0x7ff
}

pub fn is_nan_or_inf(bits: u64) -> (r: bool)
    ensures
        r == spec_nan_or_inf(bits),
{
    exp_field(bits) == 0x7ff
}

pub fn is_nan(bits: u64) -> (r: bool)
    ensures
        r == spec_nan(bits),
{
    exp_field(bits) == 0x7ff && (bits & 0xf_ffff_ffff_ffff) != 0
}

pub fn is_nonzero(bits: u64) -> (r: bool)
    ensures
        r == spec_nonzero(bits),
{
    bits & 0x7fff_ffff_ffff_ffff != 0
}

pub fn is_below_zero(bits: u64) -> (r: bool)
    ensures
        r == spec_below_zero(bits),
{
    (bits >> 63) == 1 && !is_nan(bits) && is_nonzero(bits)
}

pub fn is_above_nonneg(bits: u64, c: u64) -> (r: bool)
    ensures
        r == spec_above_nonneg(bits, c),
{
    !is_nan(bits) && (bits >> 63) != 1 && bits > c
}

/// The bit pattern of 1.0.
pub const ONE_BITS: u64 = 0x3ff0_0000_0000_0000;

/// The bit pattern of 59.0, the last host serial day before the fictitious
/// leap day.
pub const SERIAL_59_BITS: u64 = 0x404d_8000_0000_0000;

/// The integer part of the magnitude of a finite encoded value.
pub open spec fn spec_trunc_abs(bits: u64) -> nat {
    let e = spec_exp_field(bits) as int - 1023;
    if e < 0 {
        0
    } else {
        let m = (spec_mant_field(bits) + 0x10_0000_0000_0000) as nat;
        if e >= 52 {
            m * pow2((e - 52) as nat)
        } else {
            m / pow2((52 - e) as nat)
        }
    }
}

/// What the host's saturating cast of the encoded value to a signed 64-bit
/// integer returns: the integer part, saturated at the type's bounds, with
/// NaN giving 0.
pub open spec fn spec_trunc_i64(bits: u64) -> i64 {
    if spec_nan_or_inf(bits) {
        if spec_mant_field(bits) != 0 {
            0
        } else if spec_sign(bits) {
            i64::MIN
        } else {
            i64::MAX
        }
    } else {
        let a = spec_trunc_abs(bits) as int;
        if spec_sign(bits) {
            if -a < i64::MIN as int {
                i64::MIN
            } else {
                (-a) as i64
            }
        } else {
            if a > i64::MAX as int {
                i64::MAX
            } else {
                a as i64
            }
        }
    }
}

/// Truncates the encoded value toward zero, saturating, with NaN giving 0.
pub fn trunc_i64(bits: u64) -> (r: i64)
    ensures
        r == spec_trunc_i64(bits),
{
    let ef: u64 = (bits >> 52) & 0x7ff;
    let mant: u64 = bits & 0xf_ffff_ffff_ffff;
    let neg: bool = (bits >> 63) == 1;
    if ef == 0x7ff {
        if mant != 0 {
            0
        } else if neg {
            i64::MIN
        } else {
            i64::MAX
        }
    } else if ef < 1023 {
        proof {
            if spec_exp_field(bits) as int - 1023 >= 0 {
                assert(false);
            }
        }
        0
    } else {
        let e: u64 = ef - 1023;
        assert(mant < 0x10_0000_0000_0000) by (bit_vector)
            requires
                mant == bits & 0xf_ffff_ffff_ffff,
        ;
        let m: u64 = mant + 0x10_0000_0000_0000;
        if e >= 63 {
            proof {
                lemma_trunc_abs_large(bits);
            }
            if neg {
                i64::MIN
            } else {
                i64::MAX
            }
        } else if e >= 52 {
            proof {
                lemma_pow2_mono((e - 52) as nat, 10);
                lemma2_to64();
                assert(m * pow2((e - 52) as nat) <= m * 1024) by (nonlinear_arith)
                    requires
                        pow2((e - 52) as nat) <= 1024,
                        m >= 0,
                ;
                lemma_u64_shl_is_mul(m, (e - 52) as u64);
            }
            let a: u64 = m << (e - 52);
            proof {
                lemma_trunc_abs_fits(bits, a);
            }
            if neg {
                if a == 0x8000_0000_0000_0000 {
                    i64::MIN
                } else {
                    -(a as i64)
                }
            } else {
                a as i64
            }
        } else {
            proof {
                lemma_u64_shr_is_div(m, (52 - e) as u64);
            }
            let a: u64 = m >> (52 - e);
            proof {
                lemma_trunc_abs_fits(bits, a);
            }
            if neg {
                if a == 0x8000_0000_0000_0000 {
                    i64::MIN
                } else {
                    -(a as i64)
                }
            } else {
                a as i64
            }
        }
    }
}

proof fn lemma_pow2_mono(a: nat, b: nat)
    requires
        a <= b,
    ensures
        pow2(a) <= pow2(b),
{
    if a < b {
        lemma_pow2_strictly_increases(a, b);
    }
}

/// For exponents at or above 63 the magnitude is at least 2^63, so the cast
/// saturates on both sides.
proof fn lemma_trunc_abs_large(bits: u64)
    requires
        spec_exp_field(bits) != 0x7ff,
        spec_exp_field(bits) as int - 1023 >= 63,
    ensures
        spec_trunc_abs(bits) >= 0x8000_0000_0000_0000,
{
    let e = spec_exp_field(bits) as int - 1023;
    let m = (spec_mant_field(bits) + 0x10_0000_0000_0000) as nat;
    lemma_pow2_mono(11, (e - 52) as nat);
    lemma2_to64();
    lemma2_to64_rest();
    assert(pow2(52) == 0x10_0000_0000_0000);
    assert(m >= pow2(52));
    lemma_pow2_adds(52, (e - 52) as nat);
    assert(pow2((e - 52) as nat) >= pow2(11));
    assert(m * pow2((e - 52) as nat) >= pow2(52) * pow2(11)) by (nonlinear_arith)
        requires
            m >= pow2(52),
            pow2((e - 52) as nat) >= pow2(11),
            pow2(52) >= 0,
            pow2(11) >= 0,
    ;
    lemma_pow2_adds(52, 11);
    assert(pow2(63) == 0x8000_0000_0000_0000);
}

/// In the non-saturating branches the computed magnitude is the spec's.
proof fn lemma_trunc_abs_fits(bits: u64, a: u64)
    requires
        spec_exp_field(bits) != 0x7ff,
        spec_exp_field(bits) as int - 1023 >= 0,
        spec_exp_field(bits) as int - 1023 < 63,
        a == spec_trunc_abs(bits),
    ensures
        a <= 0x8000_0000_0000_0000,
        spec_trunc_i64(bits) == if spec_sign(bits) {
            if a == 0x8000_0000_0000_0000 {
                i64::MIN
            } else {
                (-(a as int)) as i64
            }
        } else {
            a as i64
        },
{
    let e = spec_exp_field(bits) as int - 1023;
    let m = (spec_mant_field(bits) + 0x10_0000_0000_0000) as nat;
    assert(spec_mant_field(bits) < 0x10_0000_0000_0000) by (bit_vector);
    lemma2_to64();
    lemma2_to64_rest();
    if e >= 52 {
        assert(m < pow2(53));
        lemma_pow2_mono((e - 52) as nat, 10);
        assert(m * pow2((e - 52) as nat) < pow2(53) * pow2(10)) by (nonlinear_arith)
            requires
                m < pow2(53),
                pow2((e - 52) as nat) <= pow2(10),
                pow2(53) > 0,
                pow2(10) > 0,
        ;
        lemma_pow2_adds(53, 10);
        assert(pow2(63) == 0x8000_0000_0000_0000);
    } else {
        lemma_pow2_pos((52 - e) as nat);
        assert(m / pow2((52 - e) as nat) <= m) by (nonlinear_arith)
            requires
                pow2((52 - e) as nat) >= 1,
                m >= 0,
        ;
        assert(m < pow2(53));
        assert(pow2(53) < 0x8000_0000_0000_0000);
    }
}

/// A value that does not compare below zero never truncates negative.
pub proof fn lemma_trunc_nonneg(bits: u64)
    requires
        !spec_below_zero(bits),
    ensures
        spec_trunc_i64(bits) >= 0,
{
    if spec_nan_or_inf(bits) && spec_mant_field(bits) == 0 && spec_sign(bits) {
        assert(bits & 0x7fff_ffff_ffff_ffff != 0) by (bit_vector)
            requires
                (bits >> 52) & 0x7ff == 0x7ff,
        ;
    }
    if !spec_nan_or_inf(bits) && spec_sign(bits) {
        assert(!spec_nan(bits));
        assert(!spec_nonzero(bits));
        assert((bits >> 52) & 0x7ff == 0) by (bit_vector)
            requires
                bits & 0x7fff_ffff_ffff_ffff == 0,
        ;
    }
}

/// The position of the highest set bit.
pub open spec fn floor_log2(n: nat) -> nat
    decreases n,
{
    if n < 2 {
        0
    } else {
        1 + floor_log2(n / 2)
    }
}

pub proof fn lemma_floor_log2_bounds(n: nat)
    requires
        n >= 1,
    ensures
        pow2(floor_log2(n)) <= n < pow2(floor_log2(n) + 1),
    decreases n,
{
    lemma2_to64();
    if n < 2 {
        assert(pow2(0) == 1 && pow2(1) == 2);
    } else {
        lemma_floor_log2_bounds(n / 2);
        let k = floor_log2(n / 2);
        lemma_pow2_adds(k, 1);
        lemma_pow2_adds(k + 1, 1);
        assert(pow2(k + 1) == 2 * pow2(k));
        assert(pow2(k + 2) == 2 * pow2(k + 1));
    }
}

/// Finds the position of the highest set bit.
pub fn floor_log2_u32(mag: u32) -> (p: u32)
    requires
        mag >= 1,
    ensures
        p == floor_log2(mag as nat),
        p <= 31,
{
    let mut t: u32 = mag;
    let mut p: u32 = 0;
    proof {
        lemma2_to64();
        assert(pow2(0) == 1);
    }
    while t >= 2
        invariant
            1 <= t <= mag,
            p <= 31,
            floor_log2(mag as nat) == p + floor_log2(t as nat),
            t as nat * pow2(p as nat) <= mag as nat,
        decreases t,
    {
        proof {
            lemma2_to64();
            lemma_pow2_adds(p as nat, 1);
            assert((t as nat / 2) * pow2((p + 1) as nat) <= t as nat * pow2(p as nat))
                by (nonlinear_arith)
                requires
                    t >= 2,
                    pow2((p + 1) as nat) == 2 * pow2(p as nat),
                    pow2(p as nat) > 0,
            {
                lemma_pow2_pos(p as nat);
            }
            if p + 1 > 31 {
                lemma_pow2_pos((p + 1) as nat);
                lemma_pow2_mono(32, (p + 1) as nat);
                assert(pow2((p + 1) as nat) <= (t as nat / 2) * pow2((p + 1) as nat))
                    by (nonlinear_arith)
                    requires
                        t as nat / 2 >= 1,
                        pow2((p + 1) as nat) > 0,
                ;
                assert(pow2(32) == 0x1_0000_0000);
                assert(false);
            }
        }
        t = t / 2;
        p = p + 1;
    }
    p
}

/// Encoding a 32-bit integer as a binary64 pattern and truncating that
/// pattern back to an integer is the identity: the two bit-level
/// conversions agree on every value the host's integer cells can carry.
pub proof fn lemma_i32_encode_trunc_round_trip(w: i32)
    ensures
        spec_trunc_i64(spec_bits_of_i32(w as int)) == w as i64,
{
    if w == 0 {
        assert(spec_exp_field(0) == 0 && spec_mant_field(0) == 0 && !spec_sign(0)) by (bit_vector);
        assert(spec_trunc_abs(0u64) == 0);
    } else {
        let mag = (if w >= 0 { w as int } else { -w as int }) as nat;
        let p = floor_log2(mag);
        lemma_floor_log2_bounds(mag);
        lemma2_to64();
        lemma2_to64_rest();
        if p >= 32 {
            lemma_pow2_mono(32, p);
            assert(false);
        }
        let sign: u64 = if w < 0 { 0x8000_0000_0000_0000u64 } else { 0 };
        let e: u64 = (1023 + p) as u64;
        let frac = mag * pow2((52 - p) as nat);
        // The mantissa field is the normalized magnitude without its top bit.
        assert(frac >= pow2(p) * pow2((52 - p) as nat)) by (nonlinear_arith)
            requires
                frac == mag * pow2((52 - p) as nat),
                mag >= pow2(p),
                pow2((52 - p) as nat) > 0,
        {
            lemma_pow2_pos((52 - p) as nat);
        }
        assert(frac < pow2(p + 1) * pow2((52 - p) as nat)) by (nonlinear_arith)
            requires
                frac == mag * pow2((52 - p) as nat),
                mag < pow2(p + 1),
                pow2((52 - p) as nat) > 0,
        {
            lemma_pow2_pos((52 - p) as nat);
        }
        lemma_pow2_adds(p, (52 - p) as nat);
        lemma_pow2_adds(p + 1, (52 - p) as nat);
        lemma_pow2_adds(52, 1);
        assert(pow2(52) <= frac < pow2(53));
        let m: u64 = (frac - pow2(52)) as u64;
        let bits = spec_bits_of_i32(w as int);
        assert(bits == sign + e * 0x10_0000_0000_0000 + m) by (nonlinear_arith)
            requires
                bits == (sign + (1023 + p) * pow2(52) + (mag * pow2((52 - p) as nat) - pow2(
                    52,
                ))) as u64,
                e == 1023 + p,
                m == mag * pow2((52 - p) as nat) - pow2(52),
                frac == mag * pow2((52 - p) as nat),
                pow2(52) == 0x10_0000_0000_0000,
                sign == 0 || sign == 0x8000_0000_0000_0000u64,
                0 <= m < 0x10_0000_0000_0000,
                1023 <= e <= 1054,
        ;
        assert(spec_exp_field(bits) == e && spec_mant_field(bits) == m && spec_sign(bits) == (
        sign != 0)) by (bit_vector)
            requires
                bits == sign + e * 0x10_0000_0000_0000 + m,
                sign == 0 || sign == 0x8000_0000_0000_0000u64,
                m < 0x10_0000_0000_0000,
                1023 <= e <= 1054,
        ;
        // Truncation undoes the normalization: shifting the mantissa (with
        // its implicit bit restored) back right recovers the magnitude.
        assert(spec_trunc_abs(bits) == (m + 0x10_0000_0000_0000) as nat / pow2((52 - p) as nat));
        assert((m + 0x10_0000_0000_0000) as nat == frac);
        assert(frac / pow2((52 - p) as nat) == mag) by (nonlinear_arith)
            requires
                frac == mag * pow2((52 - p) as nat),
                pow2((52 - p) as nat) > 0,
        {
            lemma_pow2_pos((52 - p) as nat);
        }
        assert(spec_trunc_abs(bits) == mag);
    }
}

/// The binary64 pattern that encodes the signed 32-bit integer `w` exactly:
/// zero encodes as the positive zero pattern, and otherwise the magnitude is
/// normalized so that its highest set bit becomes the implicit mantissa bit.
pub open spec fn spec_bits_of_i32(w: int) -> u64 {
    if w == 0 {
        0u64
    } else {
        let mag = (if w >= 0 {
            w
        } else {
            -w
        }) as nat;
        let p = floor_log2(mag);
        let sign: u64 = if w < 0 {
            0x8000_0000_0000_0000
        } else {
            0
        };
        (sign + (1023 + p) * pow2(52) + (mag * pow2((52 - p) as nat) - pow2(52))) as u64
    }
}

/// Encodes a signed 32-bit integer as its exact binary64 pattern.
pub fn bits_of_i32(w: i32) -> (r: u64)
    ensures
        r == spec_bits_of_i32(w as int),
{
    if w == 0 {
        0u64
    } else {
        let mag: u32 = if w >= 0 {
            w as u32
        } else {
            (-(w as i64)) as u32
        };
        let p: u32 = floor_log2_u32(mag);
        proof {
            lemma_floor_log2_bounds(mag as nat);
            lemma2_to64();
            lemma2_to64_rest();
            assert(pow2(52) == 0x10_0000_0000_0000);
            lemma_pow2_adds(p as nat, (52 - p) as nat);
            assert(mag as nat * pow2((52 - p) as nat) < pow2((p + 1) as nat) * pow2(
                (52 - p) as nat,
            )) by (nonlinear_arith)
                requires
                    (mag as nat) < pow2((p + 1) as nat),
                    pow2((52 - p) as nat) > 0,
            {
                lemma_pow2_pos((52 - p) as nat);
            }
            assert(mag as nat * pow2((52 - p) as nat) >= pow2(p as nat) * pow2((52 - p) as nat))
                by (nonlinear_arith)
                requires
                    (mag as nat) >= pow2(p as nat),
                    pow2((52 - p) as nat) > 0,
            {
                lemma_pow2_pos((52 - p) as nat);
            }
            lemma_pow2_adds((p + 1) as nat, (52 - p) as nat);
            assert(pow2(53) == 0x20_0000_0000_0000);
            lemma_u64_shl_is_mul(mag as u64, (52 - p) as u64);
        }
        let frac: u64 = (mag as u64) << ((52 - p) as u64);
        let exp_part: u64 = ((1023 + p) as u64) * 0x10_0000_0000_0000;
        proof {
            assert((1023 + p) as u64 * 0x10_0000_0000_0000 == (1023 + p as nat) * pow2(52))
                by (nonlinear_arith)
                requires
                    pow2(52) == 0x10_0000_0000_0000,
                    p <= 31,
            ;
        }
        let sign: u64 = if w < 0 {
            0x8000_0000_0000_0000
        } else {
            0
        };
        sign + exp_part + (frac - 0x10_0000_0000_0000)
    }
}

} // verus!
