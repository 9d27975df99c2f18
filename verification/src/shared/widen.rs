//! Numeric widening of double-precision bit patterns.
//!
//! Boundary values carry floats as IEEE 754 bit patterns, so the widening
//! that the numeric accessors document — a float read through an integer
//! accessor is truncated toward zero and saturated to the target range,
//! with NaN reading as zero — is computed here directly on the bit
//! pattern, in plain integer arithmetic.

use vstd::prelude::*;

use vstd::arithmetic::div_mod::lemma_basic_div;
use vstd::arithmetic::power2::{
    lemma2_to64, lemma2_to64_rest, lemma_pow2_adds, lemma_pow2_pos, lemma_pow2_strictly_increases,
    lemma_pow2_unfold, pow2,
};

verus! {

/// The biased exponent field of a double-precision bit pattern.
pub open spec fn f64_exp(bits: u64) -> int {
    ((bits as int) / 0x10_0000_0000_0000) % 0x800
}

/// The fraction field of a double-precision bit pattern.
pub open spec fn f64_frac(bits: u64) -> int {
    (bits as int) % 0x10_0000_0000_0000
}

/// The sign bit of a double-precision bit pattern.
pub open spec fn f64_is_neg(bits: u64) -> bool {
    bits / 0x8000_0000_0000_0000 == 1
}

/// Whether the bit pattern encodes a NaN.
pub open spec fn f64_is_nan(bits: u64) -> bool {
    f64_exp(bits) == 0x7FF && f64_frac(bits) != 0
}

/// The magnitude of the encoded value truncated toward zero: the
/// significand with its implicit bit, scaled by the unbiased exponent,
/// rounded down. Subnormal magnitudes are below one and truncate to
/// zero; the infinity patterns land above every finite range and
/// saturate in the conversions below.
pub open spec fn f64_mag_trunc(bits: u64) -> int {
    if f64_exp(bits) < 1075 {
        (0x10_0000_0000_0000 + f64_frac(bits)) / (pow2((1075 - f64_exp(bits)) as nat) as int)
    } else {
        (0x10_0000_0000_0000 + f64_frac(bits)) * (pow2((f64_exp(bits) - 1075) as nat) as int)
    }
}

/// A double read through the signed 64-bit accessor: truncated toward
/// zero, saturated to the i64 range, NaN reading as zero.
pub open spec fn f64_as_i64(bits: u64) -> i64 {
    if f64_is_nan(bits) {
        0
    } else if !f64_is_neg(bits) {
        if f64_mag_trunc(bits) > i64::MAX {
            i64::MAX
        } else {
            f64_mag_trunc(bits) as i64
        }
    } else {
        if -f64_mag_trunc(bits) < i64::MIN {
            i64::MIN
        } else {
            (-f64_mag_trunc(bits)) as i64
        }
    }
}

/// A double read through the unsigned 64-bit accessor: truncated toward
/// zero, negative values and NaN reading as zero, saturated above.
pub open spec fn f64_as_u64(bits: u64) -> u64 {
    if f64_is_nan(bits) {
        0
    } else if f64_is_neg(bits) {
        0
    } else if f64_mag_trunc(bits) > u64::MAX {
        u64::MAX
    } else {
        f64_mag_trunc(bits) as u64
    }
}

/// Two to the power `e`, as machine data.
fn pow2_u64(e: u64) -> (r: u64)
    requires
        e <= 63,
    ensures
        r == pow2(e as nat),
{
    let mut r: u64 = 1;
    let mut j: u64 = 0;
    proof {
        lemma2_to64();
        lemma2_to64_rest();
    }
    while j < e
        invariant
            j <= e <= 63,
            r == pow2(j as nat),
        decreases e - j,
    {
        proof {
            lemma_pow2_unfold((j + 1) as nat);
            if (j + 1) < 64 {
                lemma_pow2_strictly_increases((j + 1) as nat, 64);
            }
            lemma2_to64();
        }
        r = r * 2;
        j = j + 1;
    }
    r
}

/// Read a double-precision bit pattern as a signed 64-bit integer:
/// truncation toward zero with saturation, NaN as zero.
pub fn f64_bits_to_i64(bits: u64) -> (r: i64)
    ensures
        r == f64_as_i64(bits),
{
    proof {
        lemma2_to64();
        lemma2_to64_rest();
    }
    let exp = (bits / 0x10_0000_0000_0000) % 0x800;
    let frac = bits % 0x10_0000_0000_0000;
    let neg = bits / 0x8000_0000_0000_0000 == 1;
    let sig = 0x10_0000_0000_0000u64 + frac;
    if exp == 0x7FF && frac != 0 {
        return 0;
    }
    if exp < 1023 {
        // Magnitude below one truncates to zero.
        proof {
            lemma_pow2_pos((1075 - exp) as nat);
            if 53 < 1075 - exp {
                lemma_pow2_strictly_increases(53, (1075 - exp) as nat);
            }
            lemma_basic_div(sig as int, pow2((1075 - exp) as nat) as int);
        }
        return 0;
    }
    if exp >= 1086 {
        // Magnitude at least two to the sixty-third: saturate.
        proof {
            let k = (exp - 1075) as nat;
            lemma_pow2_pos(k);
            assert(sig * (pow2(k) as int) >= 0x10_0000_0000_0000 * (pow2(k) as int))
                by (nonlinear_arith)
                requires
                    sig >= 0x10_0000_0000_0000,
                    pow2(k) as int > 0,
            ;
            lemma_pow2_adds(52, k);
            if 63 < 52 + k {
                lemma_pow2_strictly_increases(63, (52 + k) as nat);
            }
        }
        return if neg { i64::MIN } else { i64::MAX };
    }
    if exp >= 1075 {
        let k = exp - 1075;
        let p = pow2_u64(k);
        proof {
            assert(sig * p < 0x8000_0000_0000_0000) by (nonlinear_arith)
                requires
                    sig < 0x20_0000_0000_0000,
                    p <= 0x400,
                    0 < p,
            ;
        }
        let mag = sig * p;
        if neg {
            -(mag as i64)
        } else {
            mag as i64
        }
    } else {
        let shift = 1075 - exp;
        let p = pow2_u64(shift);
        proof {
            lemma_pow2_pos(shift as nat);
        }
        let mag = sig / p;
        if neg {
            -(mag as i64)
        } else {
            mag as i64
        }
    }
}

/// Read a double-precision bit pattern as an unsigned 64-bit integer:
/// truncation toward zero, negative values and NaN as zero, saturation
/// above.
pub fn f64_bits_to_u64(bits: u64) -> (r: u64)
    ensures
        r == f64_as_u64(bits),
{
    proof {
        lemma2_to64();
        lemma2_to64_rest();
    }
    let exp = (bits / 0x10_0000_0000_0000) % 0x800;
    let frac = bits % 0x10_0000_0000_0000;
    let neg = bits / 0x8000_0000_0000_0000 == 1;
    let sig = 0x10_0000_0000_0000u64 + frac;
    if exp == 0x7FF && frac != 0 {
        return 0;
    }
    if neg {
        return 0;
    }
    if exp < 1023 {
        proof {
            lemma_pow2_pos((1075 - exp) as nat);
            if 53 < 1075 - exp {
                lemma_pow2_strictly_increases(53, (1075 - exp) as nat);
            }
            lemma_basic_div(sig as int, pow2((1075 - exp) as nat) as int);
        }
        return 0;
    }
    if exp >= 1087 {
        // Magnitude at least two to the sixty-fourth: saturate.
        proof {
            let k = (exp - 1075) as nat;
            lemma_pow2_pos(k);
            assert(sig * (pow2(k) as int) >= 0x10_0000_0000_0000 * (pow2(k) as int))
                by (nonlinear_arith)
                requires
                    sig >= 0x10_0000_0000_0000,
                    pow2(k) as int > 0,
            ;
            lemma_pow2_adds(52, k);
            if 64 < 52 + k {
                lemma_pow2_strictly_increases(64, (52 + k) as nat);
            }
        }
        return u64::MAX;
    }
    if exp >= 1075 {
        let k = exp - 1075;
        let p = pow2_u64(k);
        proof {
            assert(sig * p < 0x1_0000_0000_0000_0000) by (nonlinear_arith)
                requires
                    sig < 0x20_0000_0000_0000,
                    p <= 0x800,
                    0 < p,
            ;
        }
        sig * p
    } else {
        let shift = 1075 - exp;
        let p = pow2_u64(shift);
        proof {
            lemma_pow2_pos(shift as nat);
        }
        sig / p
    }
}


/// The exponent of the highest set bit of a positive number.
pub open spec fn floor_log2(n: nat) -> nat
    decreases n,
{
    if n < 2 {
        0
    } else {
        1 + floor_log2(n / 2)
    }
}

/// The double-precision bit pattern with the same value as a
/// single-precision one. Every single-precision value is exactly
/// representable: the exponent is rebiased and the fraction widened by
/// 29 zero bits; a subnormal single is renormalized around its highest
/// fraction bit; the infinity and NaN patterns keep their class, with
/// the fraction widened the same way.
pub open spec fn f32_widened(bits: u32) -> u64 {
    let sign: int = (bits as int) / 0x8000_0000;
    let e: int = ((bits as int) / 0x80_0000) % 0x100;
    let m: int = (bits as int) % 0x80_0000;
    if e == 0xFF {
        (sign * 0x8000_0000_0000_0000 + 0x7FF * 0x10_0000_0000_0000 + m * 0x2000_0000) as u64
    } else if e == 0 {
        if m == 0 {
            (sign * 0x8000_0000_0000_0000) as u64
        } else {
            let h = floor_log2(m as nat) as int;
            (sign * 0x8000_0000_0000_0000 + (h + 874) * 0x10_0000_0000_0000 + (m - pow2(
                h as nat,
            )) * pow2((52 - h) as nat)) as u64
        }
    } else {
        (sign * 0x8000_0000_0000_0000 + (e + 896) * 0x10_0000_0000_0000 + m * 0x2000_0000) as u64
    }
}

/// Widen a single-precision bit pattern to the double-precision pattern
/// of the same value.
pub fn f32_bits_to_f64_bits(bits: u32) -> (r: u64)
    ensures
        r == f32_widened(bits),
{
    proof {
        lemma2_to64();
        lemma2_to64_rest();
    }
    let sign: u64 = (bits / 0x8000_0000) as u64;
    let e: u64 = ((bits / 0x80_0000) % 0x100) as u64;
    let m: u64 = (bits % 0x80_0000) as u64;
    if e == 0xFF {
        sign * 0x8000_0000_0000_0000 + 0x7FF * 0x10_0000_0000_0000 + m * 0x2000_0000
    } else if e == 0 {
        if m == 0 {
            sign * 0x8000_0000_0000_0000
        } else {
            // Renormalize a subnormal single around its highest set bit.
            let mut h: u64 = 0;
            let mut t: u64 = m;
            proof {
                vstd::arithmetic::div_mod::lemma_div_basics_1(m as int);
            }
            while t >= 2
                invariant
                    t as int == m as int / (pow2(h as nat) as int),
                    t >= 1,
                    1 <= m < 0x80_0000,
                    h <= 22,
                    floor_log2(m as nat) == h + floor_log2(t as nat),
                decreases t,
            {
                proof {
                    lemma_pow2_pos(h as nat);
                    lemma_pow2_unfold((h + 1) as nat);
                    lemma_div_denominator_ordering(m as int, pow2(h as nat) as int);
                    // A quotient of at least two at the top of the fraction
                    // field would put the number beyond the field's width.
                    if h == 22 {
                        vstd::arithmetic::div_mod::lemma_fundamental_div_mod(
                            m as int,
                            pow2(22) as int,
                        );
                        vstd::arithmetic::div_mod::lemma_mod_bound(m as int, pow2(22) as int);
                        lemma2_to64();
                        assert((pow2(22) as int) * (t as int) >= 2 * (pow2(22) as int))
                            by (nonlinear_arith)
                            requires
                                t >= 2,
                                (pow2(22) as int) > 0,
                        ;
                    }
                }
                t = t / 2;
                h = h + 1;
            }
            proof {
                assert(floor_log2(m as nat) == h);
                lemma_pow2_pos(h as nat);
                vstd::arithmetic::div_mod::lemma_fundamental_div_mod(
                    m as int,
                    pow2(h as nat) as int,
                );
                vstd::arithmetic::div_mod::lemma_mod_bound(m as int, pow2(h as nat) as int);
                assert(pow2(h as nat) <= m < 2 * pow2(h as nat));
                lemma_pow2_adds(h as nat, (52 - h) as nat);
                lemma2_to64();
                lemma2_to64_rest();
            }
            let p_h = pow2_u64(h);
            let p_shift = pow2_u64(52 - h);
            proof {
                assert((m - p_h) * p_shift < 0x10_0000_0000_0000) by (nonlinear_arith)
                    requires
                        p_h == pow2(h as nat),
                        p_shift == pow2((52 - h) as nat),
                        p_h <= m < 2 * p_h,
                        (pow2(h as nat) as int) * (pow2((52 - h) as nat) as int)
                            == 0x10_0000_0000_0000,
                ;
            }
            sign * 0x8000_0000_0000_0000 + (h + 874) * 0x10_0000_0000_0000 + (m - p_h) * p_shift
        }
    } else {
        sign * 0x8000_0000_0000_0000 + (e + 896) * 0x10_0000_0000_0000 + m * 0x2000_0000
    }
}


/// The rounded 53-bit significand of a wide integer: the top 53 bits,
/// rounded to nearest with ties to even.
pub open spec fn rounded_sig(q: int, r: int, half: int) -> int {
    if r > half || (r == half && q % 2 == 1) {
        q + 1
    } else {
        q
    }
}

/// The double-precision encoding of a magnitude with the given sign:
/// the nearest representable double, ties to even. A magnitude whose
/// leading bit is at position 52 or below is exact; a wider one is
/// rounded at its 53rd bit, carrying into the exponent when rounding
/// overflows the significand.
pub open spec fn f64_bits_of_mag(neg: bool, v: nat) -> u64 {
    let sign: int = if neg {
        0x8000_0000_0000_0000
    } else {
        0
    };
    if v == 0 {
        sign as u64
    } else {
        let h = floor_log2(v) as int;
        if h <= 52 {
            (sign + (h + 1023) * 0x10_0000_0000_0000 + (v - pow2(h as nat)) * pow2(
                (52 - h) as nat,
            )) as u64
        } else {
            let q = v as int / (pow2((h - 52) as nat) as int);
            let r = v as int % (pow2((h - 52) as nat) as int);
            let q2 = rounded_sig(q, r, pow2((h - 53) as nat) as int);
            if q2 == 0x20_0000_0000_0000 {
                (sign + (h + 1024) * 0x10_0000_0000_0000) as u64
            } else {
                (sign + (h + 1023) * 0x10_0000_0000_0000 + (q2 - 0x10_0000_0000_0000)) as u64
            }
        }
    }
}

/// The exponent of the highest set bit, as machine data.
fn floor_log2_u64(v: u64) -> (h: u64)
    requires
        v >= 1,
    ensures
        h == floor_log2(v as nat),
        h <= 63,
        pow2(h as nat) <= v,
        v < pow2((h + 1) as nat),
{
    let mut h: u64 = 0;
    let mut t: u64 = v;
    proof {
        vstd::arithmetic::div_mod::lemma_div_basics_1(v as int);
        lemma2_to64();
        lemma2_to64_rest();
    }
    while t >= 2
        invariant
            v >= 1,
            t as int == v as int / (pow2(h as nat) as int),
            t >= 1,
            h <= 63,
            floor_log2(v as nat) == h + floor_log2(t as nat),
        decreases t,
    {
        proof {
            lemma_pow2_pos(h as nat);
            lemma_pow2_unfold((h + 1) as nat);
            lemma_div_denominator_ordering(v as int, pow2(h as nat) as int);
            // A quotient of at least two above bit sixty-three would put
            // the number beyond the machine word.
            if h == 63 {
                vstd::arithmetic::div_mod::lemma_fundamental_div_mod(
                    v as int,
                    pow2(63) as int,
                );
                vstd::arithmetic::div_mod::lemma_mod_bound(v as int, pow2(63) as int);
                lemma2_to64();
                lemma2_to64_rest();
                assert((pow2(63) as int) * (t as int) >= 2 * (pow2(63) as int))
                    by (nonlinear_arith)
                    requires
                        t >= 2,
                        (pow2(63) as int) > 0,
                ;
            }
        }
        t = t / 2;
        h = h + 1;
    }
    proof {
        lemma_pow2_pos(h as nat);
        vstd::arithmetic::div_mod::lemma_fundamental_div_mod(v as int, pow2(h as nat) as int);
        vstd::arithmetic::div_mod::lemma_mod_bound(v as int, pow2(h as nat) as int);
        lemma_pow2_unfold((h + 1) as nat);
    }
    h
}

/// Encode an unsigned 64-bit magnitude with the given sign as the
/// nearest double, ties to even.
fn encode_f64_mag(neg: bool, v: u64) -> (r: u64)
    ensures
        r == f64_bits_of_mag(neg, v as nat),
{
    let sign: u64 = if neg {
        0x8000_0000_0000_0000
    } else {
        0
    };
    if v == 0 {
        return sign;
    }
    proof {
        lemma2_to64();
        lemma2_to64_rest();
    }
    let h = floor_log2_u64(v);
    if h <= 52 {
        let p_h = pow2_u64(h);
        let p_shift = pow2_u64(52 - h);
        proof {
            lemma_pow2_adds(h as nat, (52 - h) as nat);
            lemma_pow2_unfold((h + 1) as nat);
            assert((v - p_h) * p_shift < 0x10_0000_0000_0000) by (nonlinear_arith)
                requires
                    p_h == pow2(h as nat),
                    p_shift == pow2((52 - h) as nat),
                    p_h <= v,
                    v < 2 * p_h,
                    (pow2(h as nat) as int) * (pow2((52 - h) as nat) as int)
                        == 0x10_0000_0000_0000,
            ;
        }
        sign + (h + 1023) * 0x10_0000_0000_0000 + (v - p_h) * p_shift
    } else {
        let p_sh = pow2_u64(h - 52);
        let half = pow2_u64(h - 53);
        let q = v / p_sh;
        let r = v % p_sh;
        proof {
            lemma_pow2_pos((h - 52) as nat);
            lemma_pow2_unfold((h - 52) as nat);
            // The quotient carries exactly the top fifty-three bits.
            lemma_pow2_adds((h - 52) as nat, 52);
            lemma_pow2_adds((h - 52) as nat, 53);
            vstd::arithmetic::div_mod::lemma_fundamental_div_mod(v as int, p_sh as int);
            vstd::arithmetic::div_mod::lemma_mod_bound(v as int, p_sh as int);
            lemma_pow2_unfold((h + 1) as nat);
            assert(q >= 0x10_0000_0000_0000) by (nonlinear_arith)
                requires
                    v as int == (p_sh as int) * (q as int) + (r as int),
                    0 <= r < p_sh,
                    v >= pow2(h as nat),
                    (pow2((h - 52) as nat) as int) * 0x10_0000_0000_0000 == pow2(h as nat),
                    p_sh == pow2((h - 52) as nat),
                    p_sh > 0,
            ;
            assert(q < 0x20_0000_0000_0000) by (nonlinear_arith)
                requires
                    v as int == (p_sh as int) * (q as int) + (r as int),
                    0 <= r < p_sh,
                    (v as int) < 2 * (pow2(h as nat) as int),
                    (pow2((h - 52) as nat) as int) * 0x20_0000_0000_0000
                        == 2 * (pow2(h as nat) as int),
                    p_sh == pow2((h - 52) as nat),
                    p_sh > 0,
            ;
        }
        let round_up = r > half || (r == half && q % 2 == 1);
        let q2 = if round_up {
            q + 1
        } else {
            q
        };
        if q2 == 0x20_0000_0000_0000 {
            sign + (h + 1024) * 0x10_0000_0000_0000
        } else {
            sign + (h + 1023) * 0x10_0000_0000_0000 + (q2 - 0x10_0000_0000_0000)
        }
    }
}

/// The nearest double to an unsigned 64-bit integer, ties to even, as
/// its bit pattern.
pub open spec fn u64_as_f64_bits(v: u64) -> u64 {
    f64_bits_of_mag(false, v as nat)
}

/// The nearest double to a signed 64-bit integer, ties to even, as its
/// bit pattern.
pub open spec fn i64_as_f64_bits(v: i64) -> u64 {
    if v >= 0 {
        f64_bits_of_mag(false, v as nat)
    } else {
        f64_bits_of_mag(true, (-(v as int)) as nat)
    }
}

/// Widen an unsigned 64-bit integer to the nearest double's bit pattern.
pub fn u64_bits_to_f64_bits(v: u64) -> (r: u64)
    ensures
        r == u64_as_f64_bits(v),
{
    encode_f64_mag(false, v)
}

/// Widen a signed 64-bit integer to the nearest double's bit pattern.
pub fn i64_bits_to_f64_bits(v: i64) -> (r: u64)
    ensures
        r == i64_as_f64_bits(v),
{
    if v >= 0 {
        encode_f64_mag(false, v as u64)
    } else {
        let mag: u64 = ((-(v + 1)) as u64) + 1;
        encode_f64_mag(true, mag)
    }
}

/// A number divided by a power of two at least equals that power's next
/// halving step; helper facts for the renormalization loop.
proof fn lemma_div_denominator_ordering(m: int, p: int)
    requires
        m >= 0,
        p > 0,
    ensures
        (m / p) / 2 == m / (2 * p),
{
    vstd::arithmetic::div_mod::lemma_div_denominator(m, p, 2);
}


} // verus!
