//! Doubles carried as their IEEE-754 binary64 bit patterns.
//!
//! Event coordinates arrive as 64-bit floats.  The library keeps each one as
//! its bit pattern and converts it to a 32-bit integer the way Rust's `as i32`
//! cast does: toward zero, saturating at the bounds of `i32`, NaN to zero.
use vstd::arithmetic::power2::{
    lemma2_to64, lemma_pow2_pos, lemma_pow2_strictly_increases, pow2,
};
use vstd::bits::lemma_u64_shr_is_div;
use vstd::prelude::*;

verus! {

/// 2^52: the weight of the lowest exponent bit.
pub const FRACTION_UNIT: u64 = 0x10000000000000;

/// 2^63: the weight of the sign bit.
pub const SIGN_BIT: u64 = 0x8000000000000000;

/// Exponent bias plus the fraction width: a significand `m` with biased
/// exponent `e` stands for `m * 2^(e - 1075)`.
pub const SCALE_BIAS: u64 = 1075;

/// The sign bit is set.
pub open spec fn f64_is_negative(bits: u64) -> bool {
    bits >= SIGN_BIT
}

/// The 11-bit biased exponent.
pub open spec fn f64_exponent(bits: u64) -> nat {
    ((bits as nat) / (FRACTION_UNIT as nat)) % 2048
}

/// The 52-bit fraction.
pub open spec fn f64_fraction(bits: u64) -> nat {
    (bits as nat) % (FRACTION_UNIT as nat)
}

/// Not a number: all exponent bits set and a non-zero fraction.
pub open spec fn f64_is_nan(bits: u64) -> bool {
    f64_exponent(bits) == 2047 && f64_fraction(bits) != 0
}

/// The significand, with the implicit leading bit of normal numbers.
pub open spec fn f64_significand(bits: u64) -> nat {
    if f64_exponent(bits) == 0 {
        f64_fraction(bits)
    } else {
        f64_fraction(bits) + FRACTION_UNIT as nat
    }
}

/// The effective exponent: subnormals share the scale of exponent 1.
pub open spec fn f64_scale(bits: u64) -> nat {
    if f64_exponent(bits) == 0 {
        1
    } else {
        f64_exponent(bits)
    }
}

/// The integer part of the absolute value: `significand * 2^(scale - 1075)`
/// with the fractional part dropped.  Infinities count as very large.
pub open spec fn f64_int_magnitude(bits: u64) -> nat {
    if f64_scale(bits) >= SCALE_BIAS {
        f64_significand(bits) * pow2((f64_scale(bits) - SCALE_BIAS) as nat)
    } else {
        f64_significand(bits) / pow2((SCALE_BIAS - f64_scale(bits)) as nat)
    }
}

/// The value of `x as i32` for the double `x` with these bits: NaN is zero,
/// every other value is truncated toward zero and clamped to the `i32` range.
pub open spec fn f64_trunc_i32(bits: u64) -> i32 {
    if f64_is_nan(bits) {
        0
    } else if f64_is_negative(bits) {
        if f64_int_magnitude(bits) > 0x80000000 {
            i32::MIN
        } else {
            (-(f64_int_magnitude(bits) as int)) as i32
        }
    } else {
        if f64_int_magnitude(bits) > 0x7fffffff {
            i32::MAX
        } else {
            f64_int_magnitude(bits) as i32
        }
    }
}

/// Converts the double with bit pattern `bits` to `i32`, toward zero.
pub fn trunc_to_i32(bits: u64) -> (r: i32)
    ensures
        r == f64_trunc_i32(bits),
{
    let exponent: u64 = (bits / FRACTION_UNIT) % 2048;
    let fraction: u64 = bits % FRACTION_UNIT;
    if exponent == 2047 && fraction != 0 {
        return 0;
    }
    let significand: u64 = if exponent == 0 { fraction } else { fraction + FRACTION_UNIT };
    let scale: u64 = if exponent == 0 { 1 } else { exponent };
    let magnitude: u64;
    if scale >= SCALE_BIAS {
        // At least 2^52: beyond either bound of i32.
        proof {
            lemma_pow2_pos((scale - SCALE_BIAS) as nat);
            assert(f64_significand(bits) * pow2((scale - SCALE_BIAS) as nat)
                >= f64_significand(bits)) by (nonlinear_arith)
                requires
                    pow2((scale - SCALE_BIAS) as nat) >= 1,
            ;
        }
        magnitude = FRACTION_UNIT;
    } else if SCALE_BIAS - scale >= 64 {
        // The significand is below 2^53, far below the divisor of 2^64 or more.
        proof {
            lemma2_to64();
            if SCALE_BIAS - scale > 64 {
                lemma_pow2_strictly_increases(64, (SCALE_BIAS - scale) as nat);
            }
            vstd::arithmetic::div_mod::lemma_basic_div(
                significand as int,
                pow2((SCALE_BIAS - scale) as nat) as int,
            );
        }
        magnitude = 0;
    } else {
        let shift: u64 = SCALE_BIAS - scale;
        proof {
            lemma_u64_shr_is_div(significand, shift);
        }
        magnitude = significand >> shift;
    }
    if bits >= SIGN_BIT {
        if magnitude > 0x80000000 {
            i32::MIN
        } else {
            (0 - (magnitude as i64)) as i32
        }
    } else {
        if magnitude > 0x7fffffff {
            i32::MAX
        } else {
            magnitude as i32
        }
    }
}

/// Truncation goes toward zero: for a value below 2^52 in magnitude, the
/// result never has a larger magnitude than the value nor the opposite sign,
/// and, when it is within the `i32` range, it falls short of the value by less
/// than one.
pub proof fn lemma_truncates_toward_zero(bits: u64)
    requires
        !f64_is_nan(bits),
        f64_scale(bits) < SCALE_BIAS,
    ensures
        ({
            let unit = pow2((SCALE_BIAS - f64_scale(bits)) as nat);
            let t = f64_trunc_i32(bits) as int;
            let m = f64_significand(bits) as int;
            &&& f64_is_negative(bits) ==> t <= 0
            &&& !f64_is_negative(bits) ==> t >= 0
            &&& (if t < 0 { -t } else { t }) * unit <= m
            &&& (-0x80000000 < t < 0x7fffffff) ==> m < ((if t < 0 { -t } else { t }) + 1) * unit
        }),
{
    let unit = pow2((SCALE_BIAS - f64_scale(bits)) as nat);
    let m = f64_significand(bits) as int;
    let q = f64_int_magnitude(bits) as int;
    lemma_pow2_pos((SCALE_BIAS - f64_scale(bits)) as nat);
    vstd::arithmetic::div_mod::lemma_fundamental_div_mod(m, unit as int);
    vstd::arithmetic::div_mod::lemma_mod_bound(m, unit as int);
    assert(q == m / (unit as int));
    let a = if f64_trunc_i32(bits) < 0 { -(f64_trunc_i32(bits) as int) } else { f64_trunc_i32(bits) as int };
    assert(0 <= a <= q);
    assert(q * unit <= m);
    assert(a * unit <= q * unit) by (nonlinear_arith)
        requires
            a <= q,
            unit >= 1,
            a >= 0,
    ;
    let t = f64_trunc_i32(bits) as int;
    if -0x80000000 < t < 0x7fffffff {
        assert(a == q);
        assert(m < (q + 1) * unit) by (nonlinear_arith)
            requires
                m == unit * q + m % (unit as int),
                m % (unit as int) < unit,
        ;
    }
}

} // verus!
