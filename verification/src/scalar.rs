//! Single-precision numbers carried by their bit pattern.

use vstd::prelude::*;

verus! {

/// Mask of every bit of a single-precision pattern but the sign bit.
pub const MAGNITUDE_MASK: u32 = 0x7fff_ffffu32;

/// Bit pattern of negative zero: the sign bit alone.
pub const SIGN_BIT: u32 = 0x8000_0000u32;

/// A single-precision IEEE-754 number, held by its 32-bit pattern.
///
/// Thresholds and the suppression weight of a layer pass through the library
/// untouched; the one question the library asks of such a number is whether it
/// compares equal to zero.
#[derive(Clone, Copy, Debug, PartialEq, Eq, Structural)]
pub struct Scalar {
    pub bits: u32,
}

/// The patterns that compare equal to zero: positive zero and negative zero.
/// Every other pattern, the not-a-number patterns included, compares unequal.
pub open spec fn bits_are_zero(bits: u32) -> bool {
    bits == 0 || bits == SIGN_BIT
}

/// Masking out the sign bit leaves nothing exactly for the two zero patterns.
pub proof fn lemma_magnitude_zero(bits: u32)
    ensures
        (bits & MAGNITUDE_MASK == 0) <==> bits_are_zero(bits),
{
    assert((bits & 0x7fff_ffffu32 == 0) <==> (bits == 0 || bits == 0x8000_0000u32))
        by (bit_vector);
}

impl Scalar {
    /// The number with the given bit pattern.
    pub fn from_bits(bits: u32) -> (s: Scalar)
        ensures
            s.bits == bits,
    {
        Scalar { bits }
    }

    /// The bit pattern of the number.
    pub fn to_bits(self) -> (bits: u32)
        ensures
            bits == self.bits,
    {
        self.bits
    }

    /// Whether the number compares equal to zero.
    pub open spec fn spec_is_zero(self) -> bool {
        bits_are_zero(self.bits)
    }

    /// Whether the number compares equal to zero.
    #[verifier::when_used_as_spec(spec_is_zero)]
    pub fn is_zero(self) -> (zero: bool)
        ensures
            zero == self.spec_is_zero(),
    {
        proof {
            lemma_magnitude_zero(self.bits);
        }
        self.bits & MAGNITUDE_MASK == 0
    }
}

} // verus!
