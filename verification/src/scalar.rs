//! Double-precision quantities, carried as their IEEE 754 binary64 encodings.
//!
//! The library decides about masses, positions and velocities (is this mass
//! positive, do these two points coincide, is this state still a number) but
//! never computes with them. Everything it needs can be read off the 64-bit
//! encoding with integer arithmetic, so that is the form in which quantities
//! enter and leave: one sign bit, eleven exponent bits, fifty-two fraction bits.
use vstd::prelude::*;

verus! {

/// Encoding of positive infinity: exponent field all ones, fraction zero.
pub const POSITIVE_INFINITY_BITS: u64 = 0x7FF0_0000_0000_0000;

/// Weight of the sign bit, two to the power 63.
pub const SIGN_WEIGHT: u64 = 0x8000_0000_0000_0000;

/// The sign bit of an encoding: 1 for negative quantities.
pub open spec fn sign_field(bits: u64) -> int {
    bits as int / 0x8000_0000_0000_0000
}

/// The biased exponent of an encoding, between 0 and 2047.
pub open spec fn exponent_field(bits: u64) -> int {
    (bits as int / 0x10_0000_0000_0000) % 0x800
}

/// The fraction of an encoding, below two to the power 52.
pub open spec fn fraction_field(bits: u64) -> int {
    bits as int % 0x10_0000_0000_0000
}

/// A double-precision quantity, identified by its binary64 encoding.
#[derive(Clone, Copy, Debug, PartialEq, Eq)]
pub struct Scalar {
    pub bits: u64,
}

impl Scalar {
    /// Not a number: the exponent is all ones and the fraction is not zero.
    pub open spec fn is_nan(self) -> bool {
        exponent_field(self.bits) == 0x7FF && fraction_field(self.bits) != 0
    }

    /// Neither an infinity nor a NaN: the exponent is not all ones.
    pub open spec fn is_finite(self) -> bool {
        exponent_field(self.bits) != 0x7FF
    }

    /// Positive or negative zero.
    pub open spec fn is_zero(self) -> bool {
        exponent_field(self.bits) == 0 && fraction_field(self.bits) == 0
    }

    /// Strictly greater than zero as a number: no NaN, no zero, sign bit clear.
    /// Positive infinity is positive.
    pub open spec fn is_positive(self) -> bool {
        !self.is_nan() && !self.is_zero() && sign_field(self.bits) == 0
    }

    /// Numerical equality of two quantities: a NaN equals nothing, the two
    /// zeros equal each other, and otherwise the encodings must agree.
    pub open spec fn same_number(self, other: Scalar) -> bool {
        !self.is_nan() && !other.is_nan() && (self.bits == other.bits || (self.is_zero()
            && other.is_zero()))
    }

    /// Positive zero, the velocity of a body at rest.
    pub fn zero() -> (z: Scalar)
        ensures
            z.bits == 0,
            z.is_zero(),
            z.is_finite(),
    {
        Scalar { bits: 0 }
    }

    /// The encoding without its sign bit.
    fn magnitude(&self) -> (m: u64)
        ensures
            m as int == exponent_field(self.bits) * 0x10_0000_0000_0000 + fraction_field(
                self.bits,
            ),
            m as int == self.bits as int - sign_field(self.bits) * 0x8000_0000_0000_0000,
            0 <= exponent_field(self.bits) < 0x800,
            0 <= fraction_field(self.bits) < 0x10_0000_0000_0000,
            0 <= sign_field(self.bits) <= 1,
    {
        self.bits % SIGN_WEIGHT
    }

    /// Decides whether the quantity is an ordinary number.
    pub fn finite(&self) -> (r: bool)
        ensures
            r == self.is_finite(),
    {
        self.magnitude() < POSITIVE_INFINITY_BITS
    }

    /// Decides whether the quantity is greater than zero.
    pub fn positive(&self) -> (r: bool)
        ensures
            r == self.is_positive(),
    {
        let m: u64 = self.magnitude();
        m == self.bits && 0 < m && m <= POSITIVE_INFINITY_BITS
    }

    /// Decides numerical equality, as `==` on the quantities themselves would.
    pub fn equals(&self, other: &Scalar) -> (r: bool)
        ensures
            r == self.same_number(*other),
    {
        let a: u64 = self.magnitude();
        let b: u64 = other.magnitude();
        a <= POSITIVE_INFINITY_BITS && b <= POSITIVE_INFINITY_BITS && (self.bits == other.bits || (a
            == 0 && b == 0))
    }
}

} // verus!
