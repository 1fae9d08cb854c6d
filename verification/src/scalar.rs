//! Scalars and angles.
//!
//! A [`Scalar`] is an IEEE 754 binary64 number held by its bit pattern, the
//! value that `to_bits` gives for a double. The encoding fixes the constants
//! and the sign change exactly, so they are computed here; every rounding
//! operation is left to an [`Arithmetic`](crate::arithmetic::Arithmetic).

use vstd::prelude::*;

verus! {

/// Bit pattern of `+0.0`.
pub const ZERO_BITS: u64 = 0x0000_0000_0000_0000;

/// Bit pattern of `1.0`.
pub const ONE_BITS: u64 = 0x3FF0_0000_0000_0000;

/// The sign bit of a binary64 number.
pub const SIGN_BIT: u64 = 0x8000_0000_0000_0000;

/// A binary64 number, by its bits.
#[derive(Clone, Copy, Debug)]
pub struct Scalar {
    pub bits: u64,
}

impl Scalar {
    /// The number `+0.0`.
    pub open spec fn spec_zero() -> Scalar {
        Scalar { bits: ZERO_BITS }
    }

    /// The number `1.0`.
    pub open spec fn spec_one() -> Scalar {
        Scalar { bits: ONE_BITS }
    }

    /// The number with the opposite sign: the sign bit flipped, every other
    /// bit kept. This is negation for every binary64 value, the zeros, the
    /// infinities and the NaNs included.
    pub open spec fn spec_neg(self) -> Scalar {
        Scalar { bits: self.bits ^ SIGN_BIT }
    }

    /// Whether the sign bit is set.
    pub open spec fn sign_bit_set(self) -> bool {
        self.bits & SIGN_BIT == SIGN_BIT
    }

    /// The scalar with the given bit pattern.
    pub fn from_bits(bits: u64) -> (s: Scalar)
        ensures
            s.bits == bits,
    {
        Scalar { bits }
    }

    /// The bit pattern of this scalar.
    pub fn to_bits(self) -> (bits: u64)
        ensures
            bits == self.bits,
    {
        self.bits
    }

    #[verifier::when_used_as_spec(spec_zero)]
    pub fn zero() -> (s: Scalar)
        ensures
            s == Scalar::spec_zero(),
    {
        Scalar { bits: ZERO_BITS }
    }

    #[verifier::when_used_as_spec(spec_one)]
    pub fn one() -> (s: Scalar)
        ensures
            s == Scalar::spec_one(),
    {
        Scalar { bits: ONE_BITS }
    }

    #[verifier::when_used_as_spec(spec_neg)]
    pub fn neg(self) -> (s: Scalar)
        ensures
            s == self.spec_neg(),
    {
        Scalar { bits: self.bits ^ SIGN_BIT }
    }
}

/// An angle in radians.
#[derive(Clone, Copy, Debug)]
pub struct Radians(pub Scalar);

impl Radians {
    /// The angle of zero radians.
    pub open spec fn spec_zero() -> Radians {
        Radians(Scalar::spec_zero())
    }

    #[verifier::when_used_as_spec(spec_zero)]
    pub fn zero() -> (a: Radians)
        ensures
            a == Radians::spec_zero(),
    {
        Radians(Scalar::zero())
    }
}

/// Changing the sign twice gives the scalar back.
pub proof fn lemma_neg_involutive(s: Scalar)
    ensures
        s.spec_neg().spec_neg() == s,
{
    let b: u64 = s.bits;
    assert((b ^ SIGN_BIT) ^ SIGN_BIT == b) by (bit_vector);
}

/// Changing the sign flips the sign bit and never gives the scalar itself.
pub proof fn lemma_neg_flips_sign(s: Scalar)
    ensures
        s.spec_neg().sign_bit_set() == !s.sign_bit_set(),
        s.spec_neg() != s,
{
    let b: u64 = s.bits;
    assert(((b ^ SIGN_BIT) & SIGN_BIT == SIGN_BIT) == !(b & SIGN_BIT == SIGN_BIT)) by (bit_vector);
    assert((b ^ SIGN_BIT) != b) by (bit_vector);
}

} // verus!
