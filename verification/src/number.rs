//! Binary64 values by their bit patterns.

use vstd::prelude::*;

verus! {

/// A 64-bit floating-point value, held as its IEEE 754 binary64 bit pattern:
/// one sign bit, eleven exponent bits, fifty-two fraction bits.
///
/// `==` compares bit patterns, so it tells the two zeros apart;
/// [`Number::same_value`] does not.
#[derive(Clone, Copy, Debug, PartialEq, Eq, Structural)]
pub struct Number {
    pub bits: u64,
}

/// The bit pattern of positive zero.
pub const POSITIVE_ZERO: u64 = 0;

/// The bit pattern of negative zero: the sign bit alone.
pub const NEGATIVE_ZERO: u64 = 0x8000_0000_0000_0000;

impl Number {
    /// The pattern with its sign bit cleared: exponent and fraction.
    pub open spec fn magnitude(self) -> u64 {
        self.bits & 0x7fff_ffff_ffff_ffff
    }

    /// Whether the value is zero. Binary64 has two zeros, which differ in the
    /// sign bit only; they are the values that compare equal to `0.0`, and no
    /// other value does (a NaN compares unequal to everything).
    pub open spec fn is_zero_spec(self) -> bool {
        self.bits == POSITIVE_ZERO || self.bits == NEGATIVE_ZERO
    }

    /// Whether two values are the same number: the same bit pattern, or two
    /// zeros of whatever sign. A store need not keep the sign of a zero, so
    /// this is the equality by which stored values are found again.
    pub open spec fn same_value_spec(self, other: Number) -> bool {
        self.bits == other.bits || (self.is_zero_spec() && other.is_zero_spec())
    }

    /// The value with the given bit pattern.
    pub fn from_bits(bits: u64) -> (number: Number)
        ensures
            number.bits == bits,
    {
        Number { bits }
    }

    /// The bit pattern of the value.
    pub fn to_bits(self) -> (bits: u64)
        ensures
            bits == self.bits,
    {
        self.bits
    }

    /// Whether the value is positive or negative zero.
    #[verifier::when_used_as_spec(is_zero_spec)]
    pub fn is_zero(self) -> (zero: bool)
        ensures
            zero == self.is_zero_spec(),
    {
        proof {
            lemma_zero_has_no_magnitude(self);
        }
        self.bits & 0x7fff_ffff_ffff_ffff == 0
    }

    /// Whether two values are the same number, whatever the sign of a zero.
    #[verifier::when_used_as_spec(same_value_spec)]
    pub fn same_value(self, other: Number) -> (same: bool)
        ensures
            same == self.same_value_spec(other),
    {
        self.bits == other.bits || (self.is_zero() && other.is_zero())
    }
}

/// A value is zero exactly when its exponent and fraction bits are all clear.
pub proof fn lemma_zero_has_no_magnitude(number: Number)
    ensures
        number.is_zero_spec() <==> number.magnitude() == 0,
{
    let bits = number.bits;
    assert((bits == 0 || bits == 0x8000_0000_0000_0000u64) <==> (bits & 0x7fff_ffff_ffff_ffff
        == 0)) by (bit_vector);
}

/// Being the same number is an equivalence, and one that goes with being
/// zero.
pub proof fn law_same_value_is_an_equivalence(a: Number, b: Number, c: Number)
    ensures
        a.same_value_spec(a),
        a.same_value_spec(b) == b.same_value_spec(a),
        a.same_value_spec(b) && b.same_value_spec(c) ==> a.same_value_spec(c),
        a.same_value_spec(b) ==> a.is_zero_spec() == b.is_zero_spec(),
        a == b ==> a.same_value_spec(b),
{
}

} // verus!
