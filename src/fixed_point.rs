//! Signed fixed-point numbers with 80 integer and 48 fractional bits.
//!
//! A value is held as its bit pattern: the number times 2^48. The arithmetic
//! itself is done by the `fixed` crate; the contracts here state exactly what
//! each of its operations returns on those bit patterns.
use vstd::prelude::*;

verus! {

/// 2^48, the scale of a bit pattern.
pub open spec fn scale() -> int {
    0x1_0000_0000_0000
}

/// Whether an integer fits in an `i128`.
pub open spec fn fits_i128(x: int) -> bool {
    i128::MIN <= x <= i128::MAX
}

/// The largest integer not above the number whose bit pattern is `bits`.
pub open spec fn floor_int(bits: int) -> int {
    bits / scale()
}

/// The smallest integer not below the number whose bit pattern is `bits`.
pub open spec fn ceil_int(bits: int) -> int {
    -((-bits) / scale())
}

/// The bit pattern of the product of two numbers, rounded toward negative infinity.
pub open spec fn mul_bits(a: int, b: int) -> int {
    (a * b) / scale()
}

/// An integer saturated into the range of `u64`.
pub open spec fn clamp_u64(x: int) -> u64 {
    if x <= 0 {
        0
    } else if x >= u64::MAX {
        u64::MAX
    } else {
        x as u64
    }
}

/// A fixed-point number with 48 fractional bits, stored as its bit pattern.
#[derive(Clone, Copy, Debug, PartialEq, Eq, Structural)]
pub struct I80F48 {
    pub bits: i128,
}

/// Relies on `fixed::FixedI128::checked_mul`: the 256-bit product of the bit
/// patterns shifted right by 48 (rounding toward negative infinity), or `None`
/// when that does not fit in 128 bits.
#[verifier::external_body]
fn checked_mul_bits(a: i128, b: i128) -> (r: Option<i128>)
    ensures
        r == (if fits_i128(mul_bits(a as int, b as int)) {
            Some(mul_bits(a as int, b as int) as i128)
        } else {
            None
        }),
{
    let x = fixed::types::I80F48::from_bits(a);
    x.checked_mul(fixed::types::I80F48::from_bits(b)).map(|v| v.to_bits())
}

/// Relies on `fixed::FixedI128::floor`: rounds to the integer toward negative
/// infinity; with 80 integer bits it cannot overflow.
#[verifier::external_body]
fn floor_bits(a: i128) -> (r: i128)
    ensures
        r as int == floor_int(a as int) * scale(),
{
    fixed::types::I80F48::from_bits(a).floor().to_bits()
}

/// Relies on `fixed::FixedI128::checked_ceil`: rounds to the integer toward
/// positive infinity, or `None` when that integer is out of range.
#[verifier::external_body]
fn checked_ceil_bits(a: i128) -> (r: Option<i128>)
    ensures
        r == (if fits_i128(ceil_int(a as int) * scale()) {
            Some((ceil_int(a as int) * scale()) as i128)
        } else {
            None
        }),
{
    fixed::types::I80F48::from_bits(a).checked_ceil().map(|v| v.to_bits())
}

/// Relies on `fixed::FixedI128::checked_to_num::<u64>`: drops the fractional
/// bits (rounding toward negative infinity), or `None` when the integer is not
/// a `u64`.
#[verifier::external_body]
fn checked_to_u64(a: i128) -> (r: Option<u64>)
    ensures
        r == (if 0 <= floor_int(a as int) <= u64::MAX {
            Some(floor_int(a as int) as u64)
        } else {
            None
        }),
{
    fixed::types::I80F48::from_bits(a).checked_to_num::<u64>()
}

impl I80F48 {
    /// The number whose bit pattern is `bits`.
    pub fn from_bits(bits: i128) -> (r: I80F48)
        ensures
            r.bits == bits,
    {
        I80F48 { bits }
    }

    /// The bit pattern of the number.
    pub fn to_bits(self) -> (r: i128)
        ensures
            r == self.bits,
    {
        self.bits
    }

    /// The product, rounded toward negative infinity, or `None` on overflow.
    pub fn checked_mul(self, rhs: I80F48) -> (r: Option<I80F48>)
        ensures
            r == (if fits_i128(mul_bits(self.bits as int, rhs.bits as int)) {
                Some(I80F48 { bits: mul_bits(self.bits as int, rhs.bits as int) as i128 })
            } else {
                None
            }),
    {
        match checked_mul_bits(self.bits, rhs.bits) {
            Some(b) => Some(I80F48 { bits: b }),
            None => None,
        }
    }

    /// The largest integer not above the number.
    pub fn floor(self) -> (r: I80F48)
        ensures
            r.bits as int == floor_int(self.bits as int) * scale(),
    {
        I80F48 { bits: floor_bits(self.bits) }
    }

    /// The integer part rounded toward negative infinity, or `None` when it is
    /// not a `u64`.
    pub fn checked_to_u64(self) -> (r: Option<u64>)
        ensures
            r == (if 0 <= floor_int(self.bits as int) <= u64::MAX {
                Some(floor_int(self.bits as int) as u64)
            } else {
                None
            }),
    {
        checked_to_u64(self.bits)
    }

    /// The integer part rounded toward negative infinity, saturated into `u64`.
    pub fn clamp_to_u64(self) -> (r: u64)
        ensures
            r == clamp_u64(floor_int(self.bits as int)),
    {
        if self.bits <= 0 {
            0
        } else {
            match checked_to_u64(self.bits) {
                Some(v) => v,
                None => u64::MAX,
            }
        }
    }

    /// The smallest integer not below the negated number, saturated into `u64`.
    pub fn neg_ceil_clamp_to_u64(self) -> (r: u64)
        ensures
            r == clamp_u64(ceil_int(-(self.bits as int))),
    {
        if self.bits == i128::MIN {
            assert(ceil_int(-(self.bits as int)) >= u64::MAX);
            return u64::MAX;
        }
        let neg: i128 = -self.bits;
        match checked_ceil_bits(neg) {
            Some(c) => {
                let v = I80F48 { bits: c }.clamp_to_u64();
                assert(floor_int(c as int) == ceil_int(neg as int));
                v
            },
            None => u64::MAX,
        }
    }
}

} // verus!
