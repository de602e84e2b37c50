//! Single-precision numbers as the tracking engine stores them.
//!
//! The engine reports positions and confidences as IEEE 754 binary32 values.
//! This crate carries such a value as its 32-bit pattern and decides the one
//! comparison it needs on the pattern itself.

use vstd::prelude::*;

verus! {

/// Bit pattern of the number one.
pub const ONE_BITS: u32 = 0x3F80_0000;

/// Bit pattern of positive infinity, the largest pattern that is a number.
pub const INFINITY_BITS: u32 = 0x7F80_0000;

/// Mask of everything but the sign bit.
pub const MAGNITUDE_MASK: u32 = 0x7FFF_FFFF;

/// An IEEE 754 binary32 value, held as its bit pattern.
///
/// `==` compares the values as numbers: the two zeros are equal, and what
/// is not a number equals nothing, not even itself. In contracts, `==` is
/// identity of patterns; `same_number` is the comparison of numbers.
#[derive(Clone, Copy, Debug)]
pub struct Scalar {
    pub bits: u32,
}

impl Scalar {
    /// The sign bit: 1 for a negative value.
    pub open spec fn sign(self) -> u32 {
        self.bits >> 31
    }

    /// The biased exponent, eight bits wide.
    pub open spec fn exponent(self) -> u32 {
        (self.bits >> 23) & 0xff
    }

    /// The fraction, twenty-three bits wide.
    pub open spec fn fraction(self) -> u32 {
        self.bits & 0x7f_ffff
    }

    /// Whether the pattern encodes no number at all.
    pub open spec fn is_nan(self) -> bool {
        self.exponent() == 0xff && self.fraction() != 0
    }

    /// Whether the pattern encodes zero, of either sign.
    pub open spec fn is_zero(self) -> bool {
        self.exponent() == 0 && self.fraction() == 0
    }

    /// Whether two patterns encode the same number: both are numbers, and
    /// they are the same pattern or both zero.
    pub open spec fn same_number(self, other: Scalar) -> bool {
        !self.is_nan() && !other.is_nan() && (self.bits == other.bits || (self.is_zero()
            && other.is_zero()))
    }

    /// Whether the encoded value is a number greater than or equal to one:
    /// it is not negative, it is a number, and its biased exponent has reached
    /// 127, the exponent of one.
    pub open spec fn at_least_one(self) -> bool {
        self.sign() == 0 && !self.is_nan() && self.exponent() >= 127
    }

    /// Wraps a bit pattern.
    pub fn from_bits(bits: u32) -> (r: Scalar)
        ensures
            r.bits == bits,
    {
        Scalar { bits }
    }

    /// The bit pattern.
    pub fn to_bits(self) -> (r: u32)
        ensures
            r == self.bits,
    {
        self.bits
    }

    /// Decides `is_nan`: without its sign, the pattern of what is not a
    /// number lies above the pattern of infinity.
    pub fn is_not_a_number(self) -> (r: bool)
        ensures
            r == self.is_nan(),
    {
        let b: u32 = self.bits;
        proof {
            lemma_magnitude(b);
        }
        (b & MAGNITUDE_MASK) > INFINITY_BITS
    }

    /// Decides `value >= 1.0` on the pattern: non-negative numbers are ordered
    /// as their patterns are, so the answer is a range test.
    pub fn is_at_least_one(self) -> (r: bool)
        ensures
            r == self.at_least_one(),
    {
        let b: u32 = self.bits;
        proof {
            lemma_at_least_one_is_range(b);
        }
        ONE_BITS <= b && b <= INFINITY_BITS
    }
}

impl PartialEq for Scalar {
    /// Decides `same_number`.
    fn eq(&self, other: &Scalar) -> (r: bool) {
        let a: u32 = self.bits;
        let b: u32 = other.bits;
        proof {
            lemma_magnitude(a);
            lemma_magnitude(b);
        }
        let numbers = (a & MAGNITUDE_MASK) <= INFINITY_BITS && (b & MAGNITUDE_MASK)
            <= INFINITY_BITS;
        let zeros = (a & MAGNITUDE_MASK) == 0 && (b & MAGNITUDE_MASK) == 0;
        numbers && (a == b || zeros)
    }
}

impl vstd::std_specs::cmp::PartialEqSpecImpl for Scalar {
    open spec fn obeys_eq_spec() -> bool {
        true
    }

    open spec fn eq_spec(&self, other: &Scalar) -> bool {
        self.same_number(*other)
    }
}

/// Without its sign, the pattern of zero is zero, and the patterns of what
/// is not a number are exactly those above the pattern of infinity.
pub proof fn lemma_magnitude(b: u32)
    ensures
        (Scalar { bits: b }).is_zero() <==> (b & MAGNITUDE_MASK) == 0,
        (Scalar { bits: b }).is_nan() <==> (b & MAGNITUDE_MASK) > INFINITY_BITS,
{
    assert((((b >> 23) & 0xff) == 0 && (b & 0x7f_ffff) == 0) <==> (b & 0x7FFF_FFFFu32) == 0)
        by (bit_vector);
    assert((((b >> 23) & 0xff) == 0xff && (b & 0x7f_ffff) != 0) <==> (b & 0x7FFF_FFFFu32)
        > 0x7F80_0000u32) by (bit_vector);
}

/// The patterns of the numbers from one to infinity are exactly those between
/// the pattern of one and the pattern of infinity.
pub proof fn lemma_at_least_one_is_range(b: u32)
    ensures
        (Scalar { bits: b }).at_least_one() <==> (ONE_BITS <= b <= INFINITY_BITS),
{
    assert(((b >> 31) == 0 && !(((b >> 23) & 0xff) == 0xff && (b & 0x7f_ffff) != 0) && ((b >> 23)
        & 0xff) >= 127) <==> (0x3F80_0000u32 <= b && b <= 0x7F80_0000u32)) by (bit_vector);
}

} // verus!
