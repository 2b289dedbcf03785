//! Complex numbers, read as rotations and scalings of the plane.

use vstd::prelude::*;
use crate::float::Float;
use crate::matrix::d2::Matrix2;
use crate::vector::d2::Vector2;

verus! {

/// Complex number
#[derive(Copy, Debug, PartialEq)]
pub struct Complex<F: Float> {
    pub real: F,
    pub imag: F,
}

impl<F: Float> Clone for Complex<F> {
    fn clone(&self) -> (r: Self)
        ensures
            r == *self,
    {
        *self
    }
}

impl<F: Float> Complex<F> {
    /// Creates a complex number from its real and imaginary parts.
    pub fn new(re: F, im: F) -> (r: Self)
        ensures
            r == (Complex { real: re, imag: im }),
    {
        Complex { real: re, imag: im }
    }

    /// Converts complex number to a vector where `x` = `real`, `y` = `imag`.
    pub fn to_vector2(self) -> (r: Vector2<F>)
        ensures
            r == (Vector2 { x: self.real, y: self.imag }),
    {
        Vector2 { x: self.real, y: self.imag }
    }

    /// Converts vector to a complex number where `real` = `x`, `imag` = `y`.
    pub fn from_vector2(vec: Vector2<F>) -> (r: Self)
        ensures
            r == (Complex { real: vec.x, imag: vec.y }),
    {
        Complex { real: vec.x, imag: vec.y }
    }

    /// The real matrix `[[real, -imag], [imag, real]]`, which acts on vectors
    /// as the number acts on the plane.
    pub open spec fn to_matrix2_spec(self) -> Matrix2<F> {
        Matrix2 {
            row1: Vector2 { x: self.real, y: self.imag.neg_spec() },
            row2: Vector2 { x: self.imag, y: self.real },
        }
    }

    /// Converts complex number to a real matrix.
    pub fn to_matrix2(self) -> (r: Matrix2<F>)
        ensures
            r == self.to_matrix2_spec(),
    {
        Matrix2::new(self.real, self.imag.neg(), self.imag, self.real)
    }

    /// The unit complex number `cos(angle) + sin(angle) i`.
    pub open spec fn from_angle_spec(angle: F) -> Self {
        Complex {
            real: angle.cos_spec(),
            imag: angle.sin_spec(),
        }
    }

    /// Converts `angle` in radians to a complex number.
    pub fn from_angle(angle: F) -> (r: Self)
        ensures
            r == Self::from_angle_spec(angle),
    {
        Complex {
            real: angle.cos(),
            imag: angle.sin(),
        }
    }

    /// The argument of the number: the four-quadrant arctangent of `imag /
    /// real`.
    pub open spec fn angle_spec(self) -> F {
        self.imag.atan2_spec(self.real)
    }

    /// Extracts angle from complex number.
    pub fn angle(self) -> (r: F)
        ensures
            r == self.angle_spec(),
    {
        self.imag.atan2(self.real)
    }

    /// The squared magnitude `real * real + imag * imag`.
    pub open spec fn sqr_magnitude_spec(self) -> F {
        self.real.mul_spec(self.real).add_spec(self.imag.mul_spec(self.imag))
    }

    /// Returns squared magnitude.
    pub fn sqr_magnitude(&self) -> (r: F)
        ensures
            r == self.sqr_magnitude_spec(),
    {
        self.real.mul(self.real).add(self.imag.mul(self.imag))
    }

    /// The magnitude: the square root of the squared magnitude.
    pub open spec fn magnitude_spec(self) -> F {
        self.sqr_magnitude_spec().sqrt_spec()
    }

    /// Returns magnitude.
    pub fn magnitude(&self) -> (r: F)
        ensures
            r == self.magnitude_spec(),
    {
        self.sqr_magnitude().sqrt()
    }

    /// Returns complex number's magnitude and angle in radians.
    pub fn to_magnitude_angle(self) -> (r: (F, F))
        ensures
            r == (self.magnitude_spec(), self.angle_spec()),
    {
        (self.magnitude(), self.angle())
    }

    /// The conjugate `real - imag i`.
    pub open spec fn conjugate_spec(self) -> Self {
        Complex {
            real: self.real,
            imag: self.imag.neg_spec(),
        }
    }

    /// Returns conjugate of the complex number. Conjugate is defined as `a -
    /// bi`.
    pub fn conjugate(self) -> (r: Self)
        ensures
            r == self.conjugate_spec(),
    {
        Complex {
            real: self.real,
            imag: self.imag.neg(),
        }
    }

    /// The reciprocal: the conjugate with both parts divided by the squared
    /// magnitude.
    pub open spec fn reciprocal_spec(self) -> Self {
        Complex {
            real: self.real.div_spec(self.sqr_magnitude_spec()),
            imag: self.imag.neg_spec().div_spec(self.sqr_magnitude_spec()),
        }
    }

    /// Returns `1 / (a + bi)`.
    pub fn reciprocal(self) -> (r: Self)
        ensures
            r == self.reciprocal_spec(),
    {
        Complex {
            real: self.real.div(self.sqr_magnitude()),
            imag: self.imag.neg().div(self.sqr_magnitude()),
        }
    }

    /// The two square roots, the principal one first. With `m` the magnitude,
    /// the principal root is `gamma + delta i` where `gamma = sqrt((real + m) /
    /// 2)` and `delta = signum(imag) * sqrt((-real + m) / 2)`; the other root
    /// is its negation.
    pub open spec fn sqrt_spec(self) -> (Self, Self) {
        let mag = self.magnitude_spec();
        let gamma = self.real.add_spec(mag).div_spec(F::two_spec()).sqrt_spec();
        let delta = self.imag.signum_spec().mul_spec(
            self.real.neg_spec().add_spec(mag).div_spec(F::two_spec()).sqrt_spec(),
        );
        (
            Complex { real: gamma, imag: delta },
            Complex { real: gamma.neg_spec(), imag: delta.neg_spec() },
        )
    }

    /// Computes square root of complex number.
    pub fn sqrt(self) -> (r: (Self, Self))
        ensures
            r == self.sqrt_spec(),
    {
        let mag = self.magnitude();
        let gamma = self.real.add(mag).div(F::two()).sqrt();
        let delta = self.imag.signum().mul(self.real.neg().add(mag).div(F::two()).sqrt());
        (Complex { real: gamma, imag: delta }, Complex { real: gamma.neg(), imag: delta.neg() })
    }

    /// The exponential `e^real * (cos(imag) + sin(imag) i)`.
    pub open spec fn exp_spec(self) -> Self {
        Complex {
            real: self.real.exp_spec().mul_spec(self.imag.cos_spec()),
            imag: self.real.exp_spec().mul_spec(self.imag.sin_spec()),
        }
    }

    /// Computes `e` raised to the complex power.
    pub fn exp(&self) -> (r: Self)
        ensures
            r == self.exp_spec(),
    {
        Complex {
            real: self.real.exp().mul(self.imag.cos()),
            imag: self.real.exp().mul(self.imag.sin()),
        }
    }

    /// The product of two complex numbers.
    pub open spec fn mul_spec(self, rhs: Self) -> Self {
        Complex {
            real: self.real.mul_spec(rhs.real).sub_spec(self.imag.mul_spec(rhs.imag)),
            imag: self.real.mul_spec(rhs.imag).add_spec(self.imag.mul_spec(rhs.real)),
        }
    }

    /// The quotient: the product with the reciprocal of `rhs`.
    pub open spec fn div_spec(self, rhs: Self) -> Self {
        self.mul_spec(rhs.reciprocal_spec())
    }
}

impl<F: Float> core::ops::Mul for Complex<F> {
    type Output = Self;

    /// Multiplies two complex numbers.
    fn mul(self, rhs: Self) -> (r: Self)
        ensures
            r == self.mul_spec(rhs),
    {
        Complex {
            real: self.real.mul(rhs.real).sub(self.imag.mul(rhs.imag)),
            imag: self.real.mul(rhs.imag).add(self.imag.mul(rhs.real)),
        }
    }
}

impl<F: Float> vstd::std_specs::ops::MulSpecImpl for Complex<F> {
    open spec fn obeys_mul_spec() -> bool {
        true
    }

    open spec fn mul_req(self, rhs: Self) -> bool {
        true
    }

    open spec fn mul_spec(self, rhs: Self) -> Self {
        Complex::mul_spec(self, rhs)
    }
}

impl<F: Float> core::ops::MulAssign for Complex<F> {
    /// Replaces the number by its product with `rhs`.
    fn mul_assign(&mut self, rhs: Self)
        ensures
            *final(self) == old(self).mul_spec(rhs),
    {
        *self = *self * rhs;
    }
}

impl<F: Float> core::ops::Div for Complex<F> {
    type Output = Self;

    /// Divides by `rhs`, that is, multiplies by its reciprocal.
    fn div(self, rhs: Self) -> (r: Self)
        ensures
            r == self.div_spec(rhs),
    {
        self * rhs.reciprocal()
    }
}

impl<F: Float> vstd::std_specs::ops::DivSpecImpl for Complex<F> {
    open spec fn obeys_div_spec() -> bool {
        true
    }

    open spec fn div_req(self, rhs: Self) -> bool {
        true
    }

    open spec fn div_spec(self, rhs: Self) -> Self {
        Complex::div_spec(self, rhs)
    }
}

impl<F: Float> core::ops::DivAssign for Complex<F> {
    /// Replaces the number by its quotient by `rhs`.
    fn div_assign(&mut self, rhs: Self)
        ensures
            *final(self) == old(self).div_spec(rhs),
    {
        *self = *self * rhs.reciprocal();
    }
}

impl<F: Float> From<Vector2<F>> for Complex<F> {
    /// Reads a vector as a complex number with `real` = `x`, `imag` = `y`.
    fn from(val: Vector2<F>) -> (r: Self)
        ensures
            r == (Complex { real: val.x, imag: val.y }),
    {
        Complex { real: val.x, imag: val.y }
    }
}

impl<F: Float> vstd::std_specs::convert::FromSpecImpl<Vector2<F>> for Complex<F> {
    open spec fn obeys_from_spec() -> bool {
        true
    }

    open spec fn from_spec(val: Vector2<F>) -> Self {
        Complex { real: val.x, imag: val.y }
    }
}

} // verus!
