//! Real numbers as IEEE 754 binary64 bit patterns.
//!
//! A [`Scalar`] is the 64-bit encoding of a double: one sign bit, eleven
//! exponent bits and fifty-two fraction bits. The encoding is monotone: among
//! values of one sign, a larger magnitude field means a larger absolute value.
//! That is all the model needs to decide signs, zeros, finiteness and
//! membership in `[0, 1]` without any arithmetic.

use vstd::prelude::*;

verus! {

/// The sign bit of the encoding.
pub const SIGN_BIT: u64 = 0x8000_0000_0000_0000;

/// The magnitude field of positive infinity: all exponent bits set, fraction zero.
pub const INFINITY_BITS: u64 = 0x7FF0_0000_0000_0000;

/// The encoding of two to the power 1023, the least number whose double is
/// not finite.
pub const OVERFLOWING_HALF_BITS: u64 = 0x7FE0_0000_0000_0000;

/// The encoding of the number one.
pub const ONE_BITS: u64 = 0x3FF0_0000_0000_0000;

/// A real number, carried by its encoding.
#[derive(Clone, Copy, Debug, PartialEq, Eq, Structural)]
pub struct Scalar {
    pub bits: u64,
}

impl Scalar {
    /// The encoding without its sign bit.
    pub open spec fn magnitude(self) -> nat {
        if self.bits >= SIGN_BIT {
            (self.bits - SIGN_BIT) as nat
        } else {
            self.bits as nat
        }
    }

    /// Whether the sign bit is set.
    pub open spec fn sign_bit(self) -> bool {
        self.bits >= SIGN_BIT
    }

    /// Whether the encoding is not a number.
    pub open spec fn nan(self) -> bool {
        self.magnitude() > INFINITY_BITS
    }

    /// Whether the encoding is neither infinite nor not a number.
    pub open spec fn finite(self) -> bool {
        self.magnitude() < INFINITY_BITS
    }

    /// Whether the encoding is one of the two zeros.
    pub open spec fn zero_valued(self) -> bool {
        self.magnitude() == 0
    }

    /// Place on the number line: an integer that grows with the encoded
    /// value. Both zeros have rank 0; the rank of a NaN means nothing.
    pub open spec fn rank(self) -> int {
        if self.sign_bit() {
            -(self.magnitude() as int)
        } else {
            self.magnitude() as int
        }
    }

    /// Finite and greater than zero.
    pub open spec fn positive(self) -> bool {
        self.finite() && self.rank() > 0
    }

    /// Finite and at least zero.
    pub open spec fn non_negative(self) -> bool {
        self.finite() && self.rank() >= 0
    }

    /// Between zero and one, both included.
    pub open spec fn unit_interval(self) -> bool {
        !self.nan() && 0 <= self.rank() <= ONE_BITS
    }

    /// Fit to be the half-width of an interval around zero: above zero, and
    /// below two to the power 1023, so that the width of the interval is
    /// finite.
    pub open spec fn half_width(self) -> bool {
        0 < self.bits < OVERFLOWING_HALF_BITS
    }

    /// Greater than `other`, as numbers: no NaN is greater or smaller than
    /// anything, and the two zeros are equal.
    pub open spec fn greater(self, other: Scalar) -> bool {
        !self.nan() && !other.nan() && self.rank() > other.rank()
    }

    /// Among numbers, `greater` is a strict order in which the two zeros
    /// are equal: nothing is greater than itself, the order is transitive,
    /// and of two numbers of different rank one is greater than the other.
    pub proof fn greater_orders_numbers(a: Scalar, b: Scalar, c: Scalar)
        ensures
            !a.greater(a),
            a.greater(b) && b.greater(c) ==> a.greater(c),
            !a.nan() && !b.nan() ==> (a.greater(b) || b.greater(a) || a.rank() == b.rank()),
            a.rank() == b.rank() && !a.nan() && !b.nan() ==> (a == b || (a.zero_valued()
                && b.zero_valued())),
            a.positive() <==> a.finite() && a.greater(Scalar { bits: 0 }),
    {
    }

    /// The scalar with the given encoding.
    pub fn from_bits(bits: u64) -> (r: Scalar)
        ensures
            r.bits == bits,
    {
        Scalar { bits }
    }

    /// The encoding of the scalar.
    pub fn to_bits(self) -> (r: u64)
        ensures
            r == self.bits,
    {
        self.bits
    }

    /// Positive zero.
    pub fn zero() -> (r: Scalar)
        ensures
            r.bits == 0,
            r.zero_valued(),
    {
        Scalar { bits: 0 }
    }

    /// The number one.
    pub fn one() -> (r: Scalar)
        ensures
            r.bits == ONE_BITS,
            r.positive(),
            r.unit_interval(),
    {
        Scalar { bits: ONE_BITS }
    }

    fn magnitude_bits(self) -> (r: u64)
        ensures
            r == self.magnitude(),
    {
        if self.bits >= SIGN_BIT {
            self.bits - SIGN_BIT
        } else {
            self.bits
        }
    }

    /// Decides [`Scalar::nan`].
    pub fn is_nan(self) -> (r: bool)
        ensures
            r == self.nan(),
    {
        self.magnitude_bits() > INFINITY_BITS
    }

    /// Decides [`Scalar::finite`].
    pub fn is_finite(self) -> (r: bool)
        ensures
            r == self.finite(),
    {
        self.magnitude_bits() < INFINITY_BITS
    }

    /// Decides [`Scalar::zero_valued`].
    pub fn is_zero(self) -> (r: bool)
        ensures
            r == self.zero_valued(),
    {
        self.magnitude_bits() == 0
    }

    /// Decides [`Scalar::positive`].
    pub fn is_positive(self) -> (r: bool)
        ensures
            r == self.positive(),
    {
        0 < self.bits && self.bits < INFINITY_BITS
    }

    /// Decides [`Scalar::non_negative`].
    pub fn is_non_negative(self) -> (r: bool)
        ensures
            r == self.non_negative(),
    {
        self.bits < INFINITY_BITS || self.bits == SIGN_BIT
    }

    /// Decides [`Scalar::half_width`].
    pub fn is_half_width(self) -> (r: bool)
        ensures
            r == self.half_width(),
            r ==> self.positive(),
    {
        0 < self.bits && self.bits < OVERFLOWING_HALF_BITS
    }

    /// Decides [`Scalar::greater`].
    pub fn gt(self, other: Scalar) -> (r: bool)
        ensures
            r == self.greater(other),
    {
        if self.is_nan() || other.is_nan() {
            return false;
        }
        let a = self.magnitude_bits();
        let b = other.magnitude_bits();
        if self.bits >= SIGN_BIT {
            other.bits >= SIGN_BIT && a < b
        } else if other.bits >= SIGN_BIT {
            a > 0 || b > 0
        } else {
            a > b
        }
    }

    /// Decides [`Scalar::unit_interval`].
    pub fn is_unit_interval(self) -> (r: bool)
        ensures
            r == self.unit_interval(),
    {
        self.bits <= ONE_BITS || self.bits == SIGN_BIT
    }
}

} // verus!
