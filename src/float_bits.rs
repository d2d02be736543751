//! IEEE 754 values held as their bit patterns.
//!
//! Stored prices are binary64 and fee rates binary32 values. The library keeps
//! them as raw bits, so that a record keeps its exact on-disk form, and reads
//! them here: the ordering of binary64 values, and the fixed-point value of
//! a binary32 value.
use vstd::prelude::*;
use vstd::arithmetic::power2::*;
use vstd::arithmetic::div_mod::lemma_fundamental_div_mod_converse;
use crate::fixed_point::{I80F48, fits_i128};

verus! {

/// Whether a binary64 bit pattern is a NaN: all exponent bits set and a
/// non-zero significand.
pub open spec fn f64_is_nan(b: u64) -> bool {
    (b as int / 0x10_0000_0000_0000) % 0x800 == 0x7ff && b as int % 0x10_0000_0000_0000 != 0
}

/// The position of a non-NaN binary64 value on the number line: positive
/// values by their bits, negative ones by their negated magnitude bits, so
/// that both zeros sit at 0.
pub open spec fn f64_key(b: u64) -> int {
    if b < 0x8000_0000_0000_0000 {
        b as int
    } else {
        -(b as int - 0x8000_0000_0000_0000)
    }
}

/// `a <= b` on binary64 values: false whenever either is a NaN.
pub open spec fn f64_le(a: u64, b: u64) -> bool {
    !f64_is_nan(a) && !f64_is_nan(b) && f64_key(a) <= f64_key(b)
}

/// Whether `b` holds a NaN.
pub fn f64_bits_is_nan(b: u64) -> (r: bool)
    ensures
        r == f64_is_nan(b),
{
    (b / 0x10_0000_0000_0000) % 0x800 == 0x7ff && b % 0x10_0000_0000_0000 != 0
}

/// `a <= b` on the binary64 values with bit patterns `a` and `b`.
pub fn f64_bits_le(a: u64, b: u64) -> (r: bool)
    ensures
        r == f64_le(a, b),
{
    if f64_bits_is_nan(a) || f64_bits_is_nan(b) {
        return false;
    }
    let a_neg = a >= 0x8000_0000_0000_0000;
    let b_neg = b >= 0x8000_0000_0000_0000;
    if !a_neg && !b_neg {
        a <= b
    } else if a_neg && b_neg {
        b <= a
    } else if a_neg {
        true
    } else {
        // a is non-negative and b negative: only the two zeros compare equal
        a == 0 && b == 0x8000_0000_0000_0000
    }
}

/// The sign bit of a binary32 bit pattern.
pub open spec fn f32_sign(b: u32) -> int {
    b as int / 0x8000_0000
}

/// The biased exponent of a binary32 bit pattern.
pub open spec fn f32_exponent(b: u32) -> int {
    (b as int / 0x80_0000) % 0x100
}

/// The stored significand bits of a binary32 bit pattern.
pub open spec fn f32_fraction(b: u32) -> int {
    b as int % 0x80_0000
}

/// Whether a binary32 bit pattern holds a finite value.
pub open spec fn f32_is_finite(b: u32) -> bool {
    f32_exponent(b) != 0xff
}

/// A subnormal significand `m` at exponent `e`, shifted up until its leading
/// bit is the implicit one of a normal number.
pub open spec fn normalize(m: int, e: int) -> (int, int)
    decreases 0x100_0000 - m,
{
    if m <= 0 || m >= 0x80_0000 {
        (m, e)
    } else {
        normalize(2 * m, e - 1)
    }
}

/// The binary128 bit pattern of the finite binary32 value `b`: the same sign
/// and value, with the exponent rebiased and the significand widened.
pub open spec fn f32_widened(b: u32) -> u128 {
    let sign = f32_sign(b) * 0x8000_0000_0000_0000_0000_0000_0000_0000;
    let e = f32_exponent(b);
    let m = f32_fraction(b);
    if e == 0 && m == 0 {
        sign as u128
    } else if e != 0 {
        (sign + (e + 16256) * (pow2(112) as int) + m * (pow2(89) as int)) as u128
    } else {
        let (nm, ne) = normalize(m, 1);
        (sign + (ne + 16256) * (pow2(112) as int) + (nm - 0x80_0000) * (pow2(89) as int)) as u128
    }
}

/// Whether a binary128 bit pattern holds a finite value.
pub open spec fn f128_is_finite(b: u128) -> bool {
    (b as int / (pow2(112) as int)) % 0x8000 != 0x7fff
}

/// `n / d` rounded to the nearest integer, ties to the even one.
pub open spec fn div_round_even(n: int, d: int) -> int {
    let q = n / d;
    let r = n % d;
    if 2 * r > d || (2 * r == d && q % 2 == 1) {
        q + 1
    } else {
        q
    }
}

/// The finite binary128 value `b` times 2^48, rounded to the nearest integer
/// (ties to even), when that fits in an `i128`.
pub open spec fn f128_fixed(b: u128) -> Option<int> {
    let e = (b as int / (pow2(112) as int)) % 0x8000;
    let f = b as int % (pow2(112) as int);
    let m = if e == 0 { f } else { f + (pow2(112) as int) };
    // the value is m * 2^(x - 48)
    let x = (if e == 0 { 1 } else { e }) - 16383 - 112 + 48;
    let mag = if x >= 0 { m * (pow2(x as nat) as int) } else { div_round_even(m, pow2((-x) as nat) as int) };
    let v = if b as int / (pow2(127) as int) == 1 { -mag } else { mag };
    if fits_i128(v) { Some(v) } else { None }
}

/// The fixed-point bit pattern of the binary32 value `b`, rounded to the
/// nearest (ties to even); `None` for NaN, infinities and values out of range.
pub open spec fn f32_fixed(b: u32) -> Option<int> {
    if f32_is_finite(b) {
        f128_fixed(f32_widened(b))
    } else {
        None
    }
}

/// Relies on `fixed::FixedI128::checked_from_num` on `fixed::F128`: a finite
/// binary128 value rounded to the nearest fixed-point number, ties to even, or
/// `None` when it does not fit.
#[verifier::external_body]
fn checked_fixed_from_f128_bits(b: u128) -> (r: Option<i128>)
    requires
        f128_is_finite(b),
    ensures
        r == (match f128_fixed(b) {
            Some(v) => Some(v as i128),
            None => None,
        }),
{
    fixed::types::I80F48::checked_from_num(fixed::F128::from_bits(b)).map(|v| v.to_bits())
}

proof fn lemma_pow2_le(a: nat, b: nat)
    requires
        a <= b,
    ensures
        pow2(a) <= pow2(b),
{
    if a < b {
        lemma_pow2_strictly_increases(a, b);
    }
}

proof fn lemma_pow2_112_127()
    ensures
        (pow2(89) as int) == 0x200_0000_0000_0000_0000_0000,
        (pow2(112) as int) == 0x1_0000_0000_0000_0000_0000_0000_0000,
        (pow2(127) as int) == 0x8000_0000_0000_0000_0000_0000_0000_0000,
{
    lemma2_to64();
    lemma2_to64_rest();
    lemma_pow2_adds(64, 25);
    lemma_pow2_adds(64, 48);
    lemma_pow2_adds(64, 63);
}

/// The binary128 bit pattern of the finite binary32 value `b`.
pub fn f32_bits_to_f128_bits(b: u32) -> (r: u128)
    requires
        f32_is_finite(b),
    ensures
        r == f32_widened(b),
        f128_is_finite(r),
{
    proof {
        lemma_pow2_112_127();
    }
    let sign: u128 = (b / 0x8000_0000) as u128 * 0x8000_0000_0000_0000_0000_0000_0000_0000;
    let e: u32 = (b / 0x80_0000) % 0x100;
    let m: u32 = b % 0x80_0000;
    if e == 0 && m == 0 {
        proof {
            lemma_f128_exponent_field((b / 0x8000_0000) as int, 0, 0);
        }
        return sign;
    }
    if e != 0 {
        proof {
            lemma_f128_exponent_field((b / 0x8000_0000) as int, e + 16256, m as int);
        }
        return sign + (e as u128 + 16256) * 0x1_0000_0000_0000_0000_0000_0000_0000
            + m as u128 * 0x200_0000_0000_0000_0000_0000;
    }
    let mut nm: u32 = m;
    let mut ne: i32 = 1;
    proof {
        lemma2_to64();
    }
    while nm < 0x80_0000
        invariant
            1 <= nm < 0x100_0000,
            ne <= 1,
            pow2((1 - ne) as nat) <= nm,
            normalize(nm as int, ne as int) == normalize(m as int, 1),
        decreases 0x100_0000 - nm,
    {
        proof {
            lemma_pow2_unfold((2 - ne) as nat);
            lemma2_to64();
            if 1 - ne >= 23 {
                lemma_pow2_le(23, (1 - ne) as nat);
            }
        }
        nm = nm * 2;
        ne = ne - 1;
    }
    proof {
        if 1 - ne >= 24 {
            lemma_pow2_le(24, (1 - ne) as nat);
        }
        lemma_f128_exponent_field((b / 0x8000_0000) as int, ne + 16256, nm - 0x80_0000);
    }
    sign + ((ne + 16256) as u128) * 0x1_0000_0000_0000_0000_0000_0000_0000
        + ((nm - 0x80_0000) as u128) * 0x200_0000_0000_0000_0000_0000
}

/// The fixed-point form of the binary32 value with bit pattern `b`, as
/// `f32_fixed` describes it.
pub fn f32_bits_to_fixed(b: u32) -> (r: Option<I80F48>)
    ensures
        r.is_some() == f32_fixed(b).is_some(),
        r.is_some() ==> r.unwrap().bits as int == f32_fixed(b).unwrap(),
{
    if (b / 0x80_0000) % 0x100 == 0xff {
        return None;
    }
    let w = f32_bits_to_f128_bits(b);
    match checked_fixed_from_f128_bits(w) {
        Some(v) => Some(I80F48 { bits: v }),
        None => None,
    }
}

/// The exponent field of a binary128 pattern assembled from a sign, an
/// exponent and a binary32 significand.
proof fn lemma_f128_exponent_field(sign: int, e: int, f: int)
    requires
        sign == 0 || sign == 1,
        0 <= e < 0x7fff,
        0 <= f < 0x80_0000,
    ensures
        ((sign * (pow2(127) as int) + e * (pow2(112) as int) + f * (pow2(89) as int)) / (pow2(112) as int)) % 0x8000 == e,
{
    lemma_pow2_112_127();
    let w = sign * (pow2(127) as int) + e * (pow2(112) as int) + f * (pow2(89) as int);
    assert(0 <= f * (pow2(89) as int) < (pow2(112) as int)) by (nonlinear_arith)
        requires
            0 <= f < 0x80_0000,
            (pow2(89) as int) == 0x200_0000_0000_0000_0000_0000,
            (pow2(112) as int) == 0x1_0000_0000_0000_0000_0000_0000_0000,
    ;
    assert(w == (sign * 0x8000 + e) * (pow2(112) as int) + f * (pow2(89) as int)) by (nonlinear_arith)
        requires
            w == sign * (pow2(127) as int) + e * (pow2(112) as int) + f * (pow2(89) as int),
            (pow2(127) as int) == 0x8000 * (pow2(112) as int),
    ;
    lemma_fundamental_div_mod_converse(w, pow2(112) as int, sign * 0x8000 + e, f * (pow2(89) as int));
    lemma_fundamental_div_mod_converse(sign * 0x8000 + e, 0x8000, sign, e);
}

} // verus!
