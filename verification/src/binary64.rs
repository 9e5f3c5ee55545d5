//! Double-precision numbers carried as their IEEE 754 bit patterns.
//!
//! Quotes are produced and consumed by floating-point code elsewhere. Here a
//! number is its 64 bits, and the only questions asked of it are those that
//! the bits answer exactly: whether it is a NaN, a zero, or on which side of
//! zero it lies.

use vstd::prelude::*;

verus! {

/// The sign bit of a binary64 pattern.
pub const SIGN_MASK: u64 = 0x8000_0000_0000_0000;

/// The eleven exponent bits of a binary64 pattern.
pub const EXPONENT_MASK: u64 = 0x7ff0_0000_0000_0000;

/// A double-precision number, held as its bit pattern.
#[derive(Clone, Copy, Debug, PartialEq, Eq, Structural)]
pub struct Binary64 {
    pub bits: u64,
}

impl Binary64 {
    /// The sign field: 1 for a pattern with the sign bit set, else 0.
    pub open spec fn sign(self) -> int {
        self.bits as int / 0x8000_0000_0000_0000
    }

    /// The biased exponent field, in `0..=2047`.
    pub open spec fn exponent(self) -> int {
        (self.bits as int / 0x10_0000_0000_0000) % 0x800
    }

    /// The fraction field, in `0..2^52`.
    pub open spec fn fraction(self) -> int {
        self.bits as int % 0x10_0000_0000_0000
    }

    /// A NaN has all exponent bits set and a fraction other than zero.
    pub open spec fn is_nan_spec(self) -> bool {
        self.exponent() == 0x7ff && self.fraction() != 0
    }

    /// Both zeros, `+0.0` and `-0.0`, have exponent and fraction zero.
    pub open spec fn is_zero_spec(self) -> bool {
        self.exponent() == 0 && self.fraction() == 0
    }

    /// The number compares greater than zero: it is no NaN, no zero, and its
    /// sign bit is clear. Positive infinity is greater than zero.
    pub open spec fn is_positive_spec(self) -> bool {
        !self.is_nan_spec() && !self.is_zero_spec() && self.sign() == 0
    }

    /// The number compares less than zero: it is no NaN, no zero, and its
    /// sign bit is set. Negative infinity is less than zero.
    pub open spec fn is_negative_spec(self) -> bool {
        !self.is_nan_spec() && !self.is_zero_spec() && self.sign() == 1
    }

    /// Wraps a bit pattern.
    pub fn from_bits(bits: u64) -> (number: Self)
        ensures
            number.bits == bits,
    {
        Binary64 { bits }
    }

    /// The bit pattern.
    pub fn to_bits(self) -> (bits: u64)
        ensures
            bits == self.bits,
    {
        self.bits
    }

    /// Whether the number is a NaN.
    #[verifier::when_used_as_spec(is_nan_spec)]
    pub fn is_nan(self) -> (nan: bool)
        ensures
            nan == self.is_nan_spec(),
    {
        let bits: u64 = self.bits;
        assert((bits & !SIGN_MASK) > EXPONENT_MASK <==> (bits / 0x10_0000_0000_0000) % 0x800
            == 0x7ff && bits % 0x10_0000_0000_0000 != 0) by (bit_vector);
        (bits & !SIGN_MASK) > EXPONENT_MASK
    }

    /// Whether the number is `+0.0` or `-0.0`.
    #[verifier::when_used_as_spec(is_zero_spec)]
    pub fn is_zero(self) -> (zero: bool)
        ensures
            zero == self.is_zero_spec(),
    {
        let bits: u64 = self.bits;
        assert((bits & !SIGN_MASK) == 0 <==> (bits / 0x10_0000_0000_0000) % 0x800 == 0 && bits
            % 0x10_0000_0000_0000 == 0) by (bit_vector);
        (bits & !SIGN_MASK) == 0
    }

    /// Whether the number compares greater than zero.
    #[verifier::when_used_as_spec(is_positive_spec)]
    pub fn is_positive(self) -> (positive: bool)
        ensures
            positive == self.is_positive_spec(),
    {
        let bits: u64 = self.bits;
        assert((bits & SIGN_MASK) == 0 <==> bits / 0x8000_0000_0000_0000 == 0) by (bit_vector);
        !self.is_nan() && !self.is_zero() && (bits & SIGN_MASK) == 0
    }

    /// Whether the number compares less than zero.
    #[verifier::when_used_as_spec(is_negative_spec)]
    pub fn is_negative(self) -> (negative: bool)
        ensures
            negative == self.is_negative_spec(),
    {
        let bits: u64 = self.bits;
        assert((bits & SIGN_MASK) != 0 <==> bits / 0x8000_0000_0000_0000 == 1) by (bit_vector);
        !self.is_nan() && !self.is_zero() && (bits & SIGN_MASK) != 0
    }
}

/// No number lies on both sides of zero, and one that lies on neither is a
/// zero or a NaN.
pub proof fn sides_of_zero(number: Binary64)
    ensures
        !(number.is_positive_spec() && number.is_negative_spec()),
        !number.is_positive_spec() && !number.is_negative_spec() <==> number.is_zero_spec()
            || number.is_nan_spec(),
{
    let bits: u64 = number.bits;
    assert(bits / 0x8000_0000_0000_0000 == 0 || bits / 0x8000_0000_0000_0000 == 1)
        by (bit_vector);
}

} // verus!
