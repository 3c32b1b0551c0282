//! Numbers of the simulation: IEEE 754 binary32 values held as their bit
//! patterns.
//!
//! Arithmetic is computed in software on the bit patterns, so that a run gives
//! the same bits on every machine. Ordering is decided here, on the bits, and
//! is proved against its definition.

use const_soft_float::soft_f32::SoftF32;
use rustc_apfloat::ieee::Single;
use rustc_apfloat::{Float, Round};
use vstd::prelude::*;

verus! {

/// The sign bit of a binary32 pattern.
pub const SIGN_BIT: u32 = 0x8000_0000;

/// The pattern of positive infinity; every larger magnitude is a NaN.
pub const INFINITY_BITS: u32 = 0x7f80_0000;

/// The pattern of `0.0`.
pub const ZERO_BITS: u32 = 0x0000_0000;

/// The pattern of `1.0`.
pub const ONE_BITS: u32 = 0x3f80_0000;

/// The pattern of `5.0`.
pub const FIVE_BITS: u32 = 0x40a0_0000;

/// The pattern of `50.0`.
pub const FIFTY_BITS: u32 = 0x4248_0000;

/// The pattern of `100.0`.
pub const HUNDRED_BITS: u32 = 0x42c8_0000;

/// The pattern of `500.0`.
pub const FIVE_HUNDRED_BITS: u32 = 0x43fa_0000;

/// The binary32 sum of two patterns, rounded to nearest, ties to even.
pub uninterp spec fn single_sum(a: u32, b: u32) -> u32;

/// The binary32 difference `a - b` of two patterns.
pub uninterp spec fn single_difference(a: u32, b: u32) -> u32;

/// The binary32 product of two patterns.
pub uninterp spec fn single_product(a: u32, b: u32) -> u32;

/// The binary32 quotient `a / b` of two patterns.
pub uninterp spec fn single_quotient(a: u32, b: u32) -> u32;

/// The binary32 square root of a pattern.
pub uninterp spec fn single_root(a: u32) -> u32;

/// A binary32 number, identified with its bit pattern.
///
/// Two scalars are equal when their patterns are: `-0.0` and `0.0` differ,
/// and a NaN equals itself. Numeric order is `less_than` and `at_least`.
#[derive(Clone, Copy, Debug, PartialEq, Eq, Structural)]
pub struct Scalar {
    pub bits: u32,
}

impl Scalar {
    /// The pattern without its sign bit.
    pub open spec fn magnitude(self) -> int {
        if self.bits >= SIGN_BIT {
            self.bits - SIGN_BIT
        } else {
            self.bits as int
        }
    }

    /// Whether the sign bit is set (true of `-0.0` too).
    pub open spec fn is_negative(self) -> bool {
        self.bits >= SIGN_BIT
    }

    /// Whether the pattern is a NaN.
    pub open spec fn is_nan(self) -> bool {
        self.magnitude() > INFINITY_BITS
    }

    /// Whether the number is `0.0` or `-0.0`.
    pub open spec fn is_zero(self) -> bool {
        self.magnitude() == 0
    }

    /// Whether the number is neither an infinity nor a NaN.
    pub open spec fn is_finite(self) -> bool {
        self.magnitude() < INFINITY_BITS
    }

    /// Whether the two are one number: the same pattern, or two zeros.
    pub open spec fn same_number(self, other: Scalar) -> bool {
        self == other || (self.is_zero() && other.is_zero())
    }

    /// An integer that orders the numbers as their values do: the magnitude,
    /// negated under a sign bit. Both zeros have rank 0.
    pub open spec fn rank(self) -> int {
        if self.is_negative() {
            -self.magnitude()
        } else {
            self.magnitude()
        }
    }

    /// `self < other` as numbers; false when either is a NaN.
    pub open spec fn less_than(self, other: Scalar) -> bool {
        !self.is_nan() && !other.is_nan() && self.rank() < other.rank()
    }

    /// `self >= other` as numbers; false when either is a NaN.
    pub open spec fn at_least(self, other: Scalar) -> bool {
        !self.is_nan() && !other.is_nan() && self.rank() >= other.rank()
    }

    /// `self` where it is at least `floor`, else `floor`. A NaN is raised to
    /// the floor as well.
    pub open spec fn raised_to(self, floor: Scalar) -> Scalar {
        if self.at_least(floor) {
            self
        } else {
            floor
        }
    }

    /// The sum `self + rhs`.
    pub open spec fn plus(self, rhs: Scalar) -> Scalar {
        Scalar { bits: single_sum(self.bits, rhs.bits) }
    }

    /// The difference `self - rhs`.
    pub open spec fn minus(self, rhs: Scalar) -> Scalar {
        Scalar { bits: single_difference(self.bits, rhs.bits) }
    }

    /// The product `self * rhs`.
    pub open spec fn times(self, rhs: Scalar) -> Scalar {
        Scalar { bits: single_product(self.bits, rhs.bits) }
    }

    /// The quotient `self / rhs`.
    pub open spec fn over(self, rhs: Scalar) -> Scalar {
        Scalar { bits: single_quotient(self.bits, rhs.bits) }
    }

    /// The square root of `self`.
    pub open spec fn root(self) -> Scalar {
        Scalar { bits: single_root(self.bits) }
    }

    /// The scalar with the given pattern.
    pub fn from_bits(bits: u32) -> (r: Scalar)
        ensures
            r.bits == bits,
    {
        Scalar { bits }
    }

    /// The pattern of this scalar.
    pub fn to_bits(self) -> (r: u32)
        ensures
            r == self.bits,
    {
        self.bits
    }

    /// `0.0`.
    pub fn zero() -> (r: Scalar)
        ensures
            r.bits == ZERO_BITS,
    {
        Scalar { bits: ZERO_BITS }
    }

    /// `1.0`.
    pub fn one() -> (r: Scalar)
        ensures
            r.bits == ONE_BITS,
    {
        Scalar { bits: ONE_BITS }
    }

    fn magnitude_bits(self) -> (r: u32)
        ensures
            r == self.magnitude(),
    {
        if self.bits >= SIGN_BIT {
            self.bits - SIGN_BIT
        } else {
            self.bits
        }
    }

    /// Whether this scalar is a NaN.
    pub fn is_not_a_number(self) -> (r: bool)
        ensures
            r == self.is_nan(),
    {
        self.magnitude_bits() > INFINITY_BITS
    }

    /// Whether `self < other` as numbers.
    pub fn lt(self, other: Scalar) -> (r: bool)
        ensures
            r == self.less_than(other),
    {
        let a: u32 = self.magnitude_bits();
        let b: u32 = other.magnitude_bits();
        if a > INFINITY_BITS || b > INFINITY_BITS {
            false
        } else if self.bits < SIGN_BIT {
            other.bits < SIGN_BIT && a < b
        } else if other.bits < SIGN_BIT {
            a > 0 || b > 0
        } else {
            b < a
        }
    }

    /// Whether `self >= other` as numbers.
    pub fn ge(self, other: Scalar) -> (r: bool)
        ensures
            r == self.at_least(other),
    {
        let a: u32 = self.magnitude_bits();
        let b: u32 = other.magnitude_bits();
        if a > INFINITY_BITS || b > INFINITY_BITS {
            false
        } else if self.bits < SIGN_BIT {
            other.bits >= SIGN_BIT || a >= b
        } else if other.bits < SIGN_BIT {
            a == 0 && b == 0
        } else {
            b >= a
        }
    }

    /// `self` where it is at least `floor`, else `floor`.
    pub fn clamp_floor(self, floor: Scalar) -> (r: Scalar)
        ensures
            r == self.raised_to(floor),
            !floor.is_nan() ==> r.at_least(floor),
    {
        if self.ge(floor) {
            self
        } else {
            floor
        }
    }

    /// Calls `Float::add_r` of rustc_apfloat on the two patterns as
    /// `ieee::Single`, rounding to nearest, ties to even. Trusted: the result
    /// is the binary32 sum, a function of the two patterns alone; a zero
    /// added to a number that is no NaN leaves that number.
    #[verifier::external_body]
    pub(crate) fn add(self, rhs: Scalar) -> (r: Scalar)
        ensures
            r.bits == single_sum(self.bits, rhs.bits),
            rhs.is_zero() && !self.is_nan() ==> r.same_number(self),
    {
        let a = Single::from_bits(u128::from(self.bits));
        let b = Single::from_bits(u128::from(rhs.bits));
        Scalar { bits: a.add_r(b, Round::NearestTiesToEven).value.to_bits() as u32 }
    }

    /// Calls `Float::sub_r` of rustc_apfloat on the two patterns as
    /// `ieee::Single`, rounding to nearest, ties to even. Trusted: the result
    /// is the binary32 difference, a function of the two patterns alone; a
    /// zero taken off a number that is no NaN leaves that number.
    #[verifier::external_body]
    pub(crate) fn sub(self, rhs: Scalar) -> (r: Scalar)
        ensures
            r.bits == single_difference(self.bits, rhs.bits),
            rhs.is_zero() && !self.is_nan() ==> r.same_number(self),
    {
        let a = Single::from_bits(u128::from(self.bits));
        let b = Single::from_bits(u128::from(rhs.bits));
        Scalar { bits: a.sub_r(b, Round::NearestTiesToEven).value.to_bits() as u32 }
    }

    /// Calls `Float::mul_r` of rustc_apfloat on the two patterns as
    /// `ieee::Single`, rounding to nearest, ties to even. Trusted: the result
    /// is the binary32 product, a function of the two patterns alone; a
    /// finite number times a zero is a zero.
    #[verifier::external_body]
    pub(crate) fn mul(self, rhs: Scalar) -> (r: Scalar)
        ensures
            r.bits == single_product(self.bits, rhs.bits),
            rhs.is_zero() && self.is_finite() ==> r.is_zero(),
    {
        let a = Single::from_bits(u128::from(self.bits));
        let b = Single::from_bits(u128::from(rhs.bits));
        Scalar { bits: a.mul_r(b, Round::NearestTiesToEven).value.to_bits() as u32 }
    }

    /// Calls `Float::div_r` of rustc_apfloat on the two patterns as
    /// `ieee::Single`, rounding to nearest, ties to even. Trusted: the result
    /// is the binary32 quotient, a function of the two patterns alone. A zero
    /// divisor gives an infinity or a NaN, never a failure.
    #[verifier::external_body]
    pub(crate) fn div(self, rhs: Scalar) -> (r: Scalar)
        ensures
            r.bits == single_quotient(self.bits, rhs.bits),
    {
        let a = Single::from_bits(u128::from(self.bits));
        let b = Single::from_bits(u128::from(rhs.bits));
        Scalar { bits: a.div_r(b, Round::NearestTiesToEven).value.to_bits() as u32 }
    }

    /// Calls `SoftF32::sqrt` of const_soft_float on the pattern. Trusted: the
    /// result is the binary32 square root, a function of the pattern alone.
    /// A negative argument gives a NaN, never a failure.
    #[verifier::external_body]
    pub(crate) fn sqrt(self) -> (r: Scalar)
        ensures
            r.bits == single_root(self.bits),
    {
        Scalar { bits: SoftF32::from_bits(self.bits).sqrt().to_bits() }
    }
}

} // verus!
