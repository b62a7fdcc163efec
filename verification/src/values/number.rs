//! Numbers as the machine holds them: the 64 bits of an IEEE-754 double.
//!
//! The machine never does floating-point arithmetic itself. It can negate a
//! number, test it against zero and compare two numbers, all of which are
//! plain operations on the bit pattern; sums, products, quotients, reading a
//! numeral and writing one are asked of the driver.
use vstd::prelude::*;

verus! {

pub const SIGN_BIT: u64 = 0x8000_0000_0000_0000;

pub const MAGNITUDE_BITS: u64 = 0x7fff_ffff_ffff_ffff;

pub const EXPONENT_BITS: u64 = 0x7ff0_0000_0000_0000;

/// A double, held as its bit pattern.
#[derive(Copy, Clone, Debug, PartialEq, Eq, Structural)]
pub struct Number {
    pub bits: u64,
}

/// The bits below the sign: the magnitude of the number.
pub open spec fn magnitude(bits: u64) -> u64 {
    bits & MAGNITUDE_BITS
}

/// Whether the pattern is a NaN: all exponent bits set and a fraction that is not zero.
pub open spec fn bits_nan(bits: u64) -> bool {
    magnitude(bits) > EXPONENT_BITS
}

/// Whether the pattern is one of the two zeros.
pub open spec fn bits_zero(bits: u64) -> bool {
    magnitude(bits) == 0
}

/// Whether the sign bit is set.
pub open spec fn bits_negative(bits: u64) -> bool {
    bits & SIGN_BIT != 0
}

/// Equality of doubles: a NaN equals nothing, the two zeros equal each other,
/// and any other two numbers are equal when their patterns are.
pub open spec fn bits_equal(a: u64, b: u64) -> bool {
    !bits_nan(a) && !bits_nan(b) && (a == b || (bits_zero(a) && bits_zero(b)))
}

/// The order of doubles: nothing is below or above a NaN, the zeros are not
/// below each other, a negative number is below a positive one, and within
/// one sign the magnitudes decide.
pub open spec fn bits_less(a: u64, b: u64) -> bool {
    if bits_nan(a) || bits_nan(b) || (bits_zero(a) && bits_zero(b)) {
        false
    } else if bits_negative(a) != bits_negative(b) {
        bits_negative(a)
    } else if bits_negative(a) {
        magnitude(a) > magnitude(b)
    } else {
        magnitude(a) < magnitude(b)
    }
}

impl Number {
    /// The number with the bits `bits`.
    pub fn from_bits(bits: u64) -> (r: Self)
        ensures
            r.bits == bits,
    {
        Number { bits }
    }

    /// The bits of the number.
    pub fn to_bits(&self) -> (r: u64)
        ensures
            r == self.bits,
    {
        self.bits
    }

    /// Whether the number is a NaN.
    pub fn is_nan(&self) -> (r: bool)
        ensures
            r == bits_nan(self.bits),
    {
        (self.bits & MAGNITUDE_BITS) > EXPONENT_BITS
    }

    /// Whether the number is `0` or `-0`.
    pub fn is_zero(&self) -> (r: bool)
        ensures
            r == bits_zero(self.bits),
    {
        (self.bits & MAGNITUDE_BITS) == 0
    }

    /// Whether the sign bit is set.
    pub fn is_negative(&self) -> (r: bool)
        ensures
            r == bits_negative(self.bits),
    {
        (self.bits & SIGN_BIT) != 0
    }

    /// The number with its sign flipped.
    pub fn negate(&self) -> (r: Self)
        ensures
            r.bits == self.bits ^ SIGN_BIT,
    {
        Number { bits: self.bits ^ SIGN_BIT }
    }

    /// `self == other` as doubles.
    pub fn equals(&self, other: &Number) -> (r: bool)
        ensures
            r == bits_equal(self.bits, other.bits),
    {
        !self.is_nan() && !other.is_nan() && (self.bits == other.bits || (self.is_zero()
            && other.is_zero()))
    }

    /// `self < other` as doubles.
    pub fn less(&self, other: &Number) -> (r: bool)
        ensures
            r == bits_less(self.bits, other.bits),
    {
        if self.is_nan() || other.is_nan() || (self.is_zero() && other.is_zero()) {
            false
        } else if self.is_negative() != other.is_negative() {
            self.is_negative()
        } else if self.is_negative() {
            (self.bits & MAGNITUDE_BITS) > (other.bits & MAGNITUDE_BITS)
        } else {
            (self.bits & MAGNITUDE_BITS) < (other.bits & MAGNITUDE_BITS)
        }
    }

    /// `self > other` as doubles.
    pub fn greater(&self, other: &Number) -> (r: bool)
        ensures
            r == bits_less(other.bits, self.bits),
    {
        other.less(self)
    }
}

} // verus!
