//! The scalar abstraction the whole library is written against.
//!
//! Nothing in this crate knows how a scalar is represented. Every operation a
//! vector, matrix or rotation needs is a method of [`Float`], and every method
//! is paired with a specification function that names its result. The
//! contracts of the library are stated over those names: they say exactly
//! which operations are applied to which operands, in which order. That is the
//! strongest statement available for floating-point arithmetic, where
//! rounding makes algebraic identities such as associativity unsound.

use vstd::prelude::*;

verus! {

/// The capability set required of a scalar: arithmetic, a partial order,
/// the elementary functions and a handful of constants.
///
/// The implementors in view are thin wrappers of the primitive IEEE-754
/// types: there the arithmetic methods are the operators `+`, `-`, `*`, `/`
/// and unary `-`, the comparisons are `<` and `==`, the constants are `0`,
/// `1`, `2`, `PI` and `EPSILON`, and every other method is the method of the
/// same name of the primitive type (`sqrt`, `sin`, `atan2`, `clamp`,
/// `to_radians` and so on).
///
/// Each executable method is specified by the specification function of the
/// same name with the suffix `_spec`, which an implementation defines as it
/// sees fit. An implementation thereby promises one thing only: that the
/// operation is a function of its operands, so that equal operands give equal
/// results. Nothing else is assumed of the arithmetic, and no algebraic law
/// in particular: where a proof is about exact arithmetic, the laws of a
/// field are its stated hypothesis (see [`crate::ring`]).
pub trait Float: Copy + Sized {
    /// The additive identity, `0`.
    spec fn zero_spec() -> Self;

    /// Returns the constant named by [`Float::zero_spec`].
    fn zero() -> (r: Self)
        ensures
            r == Self::zero_spec(),
    ;

    /// The multiplicative identity, `1`.
    spec fn one_spec() -> Self;

    /// Returns the constant named by [`Float::one_spec`].
    fn one() -> (r: Self)
        ensures
            r == Self::one_spec(),
    ;

    /// The value `2`.
    spec fn two_spec() -> Self;

    /// Returns the constant named by [`Float::two_spec`].
    fn two() -> (r: Self)
        ensures
            r == Self::two_spec(),
    ;

    /// Archimedes' constant.
    spec fn pi_spec() -> Self;

    /// Returns the constant named by [`Float::pi_spec`].
    fn pi() -> (r: Self)
        ensures
            r == Self::pi_spec(),
    ;

    /// The tolerance below which a magnitude counts as zero: the machine
    /// epsilon of the type.
    spec fn epsilon_spec() -> Self;

    /// Returns the constant named by [`Float::epsilon_spec`].
    fn epsilon() -> (r: Self)
        ensures
            r == Self::epsilon_spec(),
    ;

    /// The sum `self + rhs`.
    spec fn add_spec(self, rhs: Self) -> Self;

    /// Computes [`Float::add_spec`].
    fn add(self, rhs: Self) -> (r: Self)
        ensures
            r == self.add_spec(rhs),
    ;

    /// The difference `self - rhs`.
    spec fn sub_spec(self, rhs: Self) -> Self;

    /// Computes [`Float::sub_spec`].
    fn sub(self, rhs: Self) -> (r: Self)
        ensures
            r == self.sub_spec(rhs),
    ;

    /// The product `self * rhs`.
    spec fn mul_spec(self, rhs: Self) -> Self;

    /// Computes [`Float::mul_spec`].
    fn mul(self, rhs: Self) -> (r: Self)
        ensures
            r == self.mul_spec(rhs),
    ;

    /// The quotient `self / rhs`. Division by zero is not an error: it yields
    /// whatever the type yields (an infinity or a NaN for IEEE-754 types).
    spec fn div_spec(self, rhs: Self) -> Self;

    /// Computes [`Float::div_spec`].
    fn div(self, rhs: Self) -> (r: Self)
        ensures
            r == self.div_spec(rhs),
    ;

    /// The four-quadrant arctangent of `self / rhs`, in radians.
    spec fn atan2_spec(self, rhs: Self) -> Self;

    /// Computes [`Float::atan2_spec`].
    fn atan2(self, rhs: Self) -> (r: Self)
        ensures
            r == self.atan2_spec(rhs),
    ;

    /// The larger of the two values.
    spec fn max_spec(self, rhs: Self) -> Self;

    /// Computes [`Float::max_spec`].
    fn max(self, rhs: Self) -> (r: Self)
        ensures
            r == self.max_spec(rhs),
    ;

    /// The smaller of the two values.
    spec fn min_spec(self, rhs: Self) -> Self;

    /// Computes [`Float::min_spec`].
    fn min(self, rhs: Self) -> (r: Self)
        ensures
            r == self.min_spec(rhs),
    ;

    /// The negation `-self`.
    spec fn neg_spec(self) -> Self;

    /// Computes [`Float::neg_spec`].
    fn neg(self) -> (r: Self)
        ensures
            r == self.neg_spec(),
    ;

    /// The absolute value.
    spec fn abs_spec(self) -> Self;

    /// Computes [`Float::abs_spec`].
    fn abs(self) -> (r: Self)
        ensures
            r == self.abs_spec(),
    ;

    /// The sign of the value as a scalar.
    spec fn signum_spec(self) -> Self;

    /// Computes [`Float::signum_spec`].
    fn signum(self) -> (r: Self)
        ensures
            r == self.signum_spec(),
    ;

    /// The square root.
    spec fn sqrt_spec(self) -> Self;

    /// Computes [`Float::sqrt_spec`].
    fn sqrt(self) -> (r: Self)
        ensures
            r == self.sqrt_spec(),
    ;

    /// The sine of an angle in radians.
    spec fn sin_spec(self) -> Self;

    /// Computes [`Float::sin_spec`].
    fn sin(self) -> (r: Self)
        ensures
            r == self.sin_spec(),
    ;

    /// The cosine of an angle in radians.
    spec fn cos_spec(self) -> Self;

    /// Computes [`Float::cos_spec`].
    fn cos(self) -> (r: Self)
        ensures
            r == self.cos_spec(),
    ;

    /// The arcsine, in radians.
    spec fn asin_spec(self) -> Self;

    /// Computes [`Float::asin_spec`].
    fn asin(self) -> (r: Self)
        ensures
            r == self.asin_spec(),
    ;

    /// The arccosine, in radians.
    spec fn acos_spec(self) -> Self;

    /// Computes [`Float::acos_spec`].
    fn acos(self) -> (r: Self)
        ensures
            r == self.acos_spec(),
    ;

    /// The exponential `e^self`.
    spec fn exp_spec(self) -> Self;

    /// Computes [`Float::exp_spec`].
    fn exp(self) -> (r: Self)
        ensures
            r == self.exp_spec(),
    ;

    /// The natural logarithm.
    spec fn ln_spec(self) -> Self;

    /// Computes [`Float::ln_spec`].
    fn ln(self) -> (r: Self)
        ensures
            r == self.ln_spec(),
    ;

    /// Converts degrees to radians.
    spec fn to_radians_spec(self) -> Self;

    /// Computes [`Float::to_radians_spec`].
    fn to_radians(self) -> (r: Self)
        ensures
            r == self.to_radians_spec(),
    ;

    /// Converts radians to degrees.
    spec fn to_degrees_spec(self) -> Self;

    /// Computes [`Float::to_degrees_spec`].
    fn to_degrees(self) -> (r: Self)
        ensures
            r == self.to_degrees_spec(),
    ;

    /// Whether `self < rhs`. The order is partial: both `a < b` and `b < a` are
    /// false when either is a NaN.
    spec fn lt_spec(self, rhs: Self) -> bool;

    /// Decides [`Float::lt_spec`].
    fn lt(self, rhs: Self) -> (r: bool)
        ensures
            r == self.lt_spec(rhs),
    ;

    /// Whether `self == rhs` as numbers. This is the numeric comparison of the
    /// type, which may differ from structural equality (a NaN is not equal to
    /// itself, and the two zeros are equal).
    spec fn eq_spec(self, rhs: Self) -> bool;

    /// Decides [`Float::eq_spec`].
    fn eq(self, rhs: Self) -> (r: bool)
        ensures
            r == self.eq_spec(rhs),
    ;

    /// The value restricted to the closed interval from `from` to `to`: `from`
    /// where the value is below it, `to` where it is above, else the value
    /// itself.
    spec fn clamp_spec(self, from: Self, to: Self) -> Self;

    /// Computes [`Float::clamp_spec`]. The bounds must be in order: to clamp
    /// to an interval whose lower bound is not at or below its upper bound
    /// (or has a bound that is not a number) is a contract violation.
    fn clamp(self, from: Self, to: Self) -> (r: Self)
        requires
            from.lt_spec(to) || from.eq_spec(to),
        ensures
            r == self.clamp_spec(from, to),
    ;
}

} // verus!
