//! Quaternions as rotations of three-dimensional space.

use vstd::prelude::*;
use crate::angle::Rad;
use crate::euler::Euler;
use crate::float::Float;
use crate::matrix::d3::Matrix3;
use crate::vector::d3::Vector3;
use core::marker::PhantomData;

verus! {

/// Quaternion representing a rotation in 3d space. It stands for a rotation
/// only when its norm is `1`; nothing here normalizes behind the caller's
/// back.
#[derive(Copy, Debug, PartialEq)]
pub struct Quaternion<F: Float> {
    /// Scalar part.
    pub scalar: F,
    /// Vector part.
    pub vector: Vector3<F>,
}

impl<F: Float> Clone for Quaternion<F> {
    fn clone(&self) -> (r: Self)
        ensures
            r == *self,
    {
        *self
    }
}

impl<F: Float> Quaternion<F> {
    /// Creates a new quaternion from individual elements.
    pub fn new(scalar: F, vector: Vector3<F>) -> (r: Self)
        ensures
            r == (Quaternion { scalar, vector }),
    {
        Quaternion { scalar, vector }
    }

    /// The squared norm: the square of the scalar part plus the squared
    /// magnitude of the vector part.
    pub open spec fn sqr_norm_spec(self) -> F {
        self.scalar.mul_spec(self.scalar).add_spec(self.vector.sqr_magnitude_spec())
    }

    /// The norm: the square root of the squared norm.
    pub open spec fn norm_spec(self) -> F {
        self.sqr_norm_spec().sqrt_spec()
    }

    /// The component-wise sum.
    pub open spec fn add_spec(self, rhs: Self) -> Self {
        Quaternion {
            scalar: self.scalar.add_spec(rhs.scalar),
            vector: self.vector.add_spec(rhs.vector),
        }
    }

    /// The component-wise difference.
    pub open spec fn sub_spec(self, rhs: Self) -> Self {
        Quaternion {
            scalar: self.scalar.sub_spec(rhs.scalar),
            vector: self.vector.sub_spec(rhs.vector),
        }
    }

    /// The quaternion with every component multiplied by `rhs`.
    pub open spec fn scaled_spec(self, rhs: F) -> Self {
        Quaternion { scalar: self.scalar.mul_spec(rhs), vector: self.vector.scaled_spec(rhs) }
    }

    /// The quaternion with every component divided by `rhs`.
    pub open spec fn div_spec(self, rhs: F) -> Self {
        Quaternion { scalar: self.scalar.div_spec(rhs), vector: self.vector.div_spec(rhs) }
    }

    /// The rotation about `axis` by `angle`: scalar part `cos(angle / 2)`,
    /// vector part `axis * sin(angle / 2)`. The axis is taken as it is given,
    /// not normalized.
    pub open spec fn new_axis_angle_spec(axis: Vector3<F>, angle: F) -> Self {
        let half = angle.div_spec(F::one_spec().add_spec(F::one_spec()));
        Quaternion {
            scalar: half.cos_spec(),
            vector: axis.scaled_spec(half.sin_spec()),
        }
    }

    /// Converts axis, angle representation to a quaternion that represents a
    /// rotation around `axis` on `angle` in radians. To avoid unexpected
    /// results, use normalized axis.
    pub fn new_axis_angle(axis: Vector3<F>, angle: F) -> (r: Self)
        ensures
            r == Self::new_axis_angle_spec(axis, angle),
    {
        let half = angle.div(F::one().add(F::one()));
        Quaternion {
            scalar: half.cos(),
            vector: axis * half.sin(),
        }
    }

    /// Recovers the axis and angle: the axis is the normalized vector part, the
    /// angle is twice the four-quadrant arctangent of the magnitude of the
    /// vector part and the scalar part. For a quaternion whose vector part is
    /// zero the axis is whatever the division by zero yields.
    pub open spec fn into_axis_angle_spec(self) -> (Vector3<F>, F) {
        (
            self.vector.normalized_spec(),
            self.vector.magnitude_spec().atan2_spec(self.scalar).mul_spec(F::two_spec()),
        )
    }

    /// Recovers axis angle representation.
    pub fn into_axis_angle(&self) -> (r: (Vector3<F>, F))
        ensures
            r == self.into_axis_angle_spec(),
    {
        (self.vector.normalized(), self.vector.magnitude().atan2(self.scalar).mul(F::two()))
    }

    /// The yaw, pitch and roll of the rotation, in radians: `yaw = atan2(2(sz +
    /// xy), 1 - 2(y^2 + z^2))`, `pitch = atan2(2(sx + yz), 1 - 2(x^2 + y^2))`,
    /// `roll = asin(2(sy - zx))`. The argument of the arcsine is taken as
    /// computed: near a quarter turn of roll, where rounding pushes it outside
    /// `[-1, 1]`, the result is whatever the arcsine yields there.
    pub open spec fn into_euler_spec(self) -> Euler<Rad, F> {
        let (s, x, y, z) = (self.scalar, self.vector.x, self.vector.y, self.vector.z);
        let (one, two) = (F::one_spec(), F::two_spec());
        Euler {
            yaw: two.mul_spec(s.mul_spec(z).add_spec(x.mul_spec(y)))
                .atan2_spec(one.sub_spec(two.mul_spec(y.mul_spec(y).add_spec(z.mul_spec(z))))),
            pitch: two.mul_spec(s.mul_spec(x).add_spec(y.mul_spec(z)))
                .atan2_spec(one.sub_spec(two.mul_spec(x.mul_spec(x).add_spec(y.mul_spec(y))))),
            roll: two.mul_spec(s.mul_spec(y).sub_spec(z.mul_spec(x))).asin_spec(),
            unit: PhantomData,
        }
    }

    /// Converts quaternion into euler angles.
    pub fn into_euler(&self) -> (r: Euler<Rad, F>)
        ensures
            r == self.into_euler_spec(),
    {
        let (s, x, y, z) = (self.scalar, self.vector.x, self.vector.y, self.vector.z);
        let (one, two) = (F::one(), F::two());
        Euler {
            yaw: two.mul(s.mul(z).add(x.mul(y))).atan2(one.sub(two.mul(y.mul(y).add(z.mul(z))))),
            pitch: two.mul(s.mul(x).add(y.mul(z))).atan2(one.sub(two.mul(x.mul(x).add(y.mul(y))))),
            roll: two.mul(s.mul(y).sub(z.mul(x))).asin(),
            unit: PhantomData,
        }
    }

    /// The rotation with the given yaw, pitch and roll in radians. With `s` and
    /// `c` the sine and cosine of half an angle: scalar part `cp cr cy + sp sr
    /// sy`, vector part `(sp cr cy - cp sr sy, cp sr cy + sp cr sy, cp cr sy -
    /// sp sr cy)`.
    pub open spec fn from_euler_spec(angles: Euler<Rad, F>) -> Self {
        let half = angles.div_spec(F::two_spec());
        let (sp, cp) = (half.pitch.sin_spec(), half.pitch.cos_spec());
        let (sr, cr) = (half.roll.sin_spec(), half.roll.cos_spec());
        let (sy, cy) = (half.yaw.sin_spec(), half.yaw.cos_spec());
        Quaternion {
            scalar: cp.mul_spec(cr).mul_spec(cy).add_spec(sp.mul_spec(sr).mul_spec(sy)),
            vector: Vector3 {
                x: sp.mul_spec(cr).mul_spec(cy).sub_spec(cp.mul_spec(sr).mul_spec(sy)),
                y: cp.mul_spec(sr).mul_spec(cy).add_spec(sp.mul_spec(cr).mul_spec(sy)),
                z: cp.mul_spec(cr).mul_spec(sy).sub_spec(sp.mul_spec(sr).mul_spec(cy)),
            },
        }
    }

    /// Converts euler angles to quaternion.
    pub fn from_euler(angles: Euler<Rad, F>) -> (r: Self)
        ensures
            r == Self::from_euler_spec(angles),
    {
        let half = angles / F::two();
        let (sp, cp) = (half.pitch.sin(), half.pitch.cos());
        let (sr, cr) = (half.roll.sin(), half.roll.cos());
        let (sy, cy) = (half.yaw.sin(), half.yaw.cos());
        Quaternion {
            scalar: cp.mul(cr).mul(cy).add(sp.mul(sr).mul(sy)),
            vector: Vector3 {
                x: sp.mul(cr).mul(cy).sub(cp.mul(sr).mul(sy)),
                y: cp.mul(sr).mul(cy).add(sp.mul(cr).mul(sy)),
                z: cp.mul(cr).mul(sy).sub(sp.mul(sr).mul(cy)),
            },
        }
    }

    /// The pure quaternion of a vector: scalar part `0`.
    pub open spec fn from_vector_spec(vector: Vector3<F>) -> Self {
        Quaternion {
            scalar: F::zero_spec(),
            vector: vector,
        }
    }

    /// Creates a new quaternion with vector part equal to `vector` and scalar
    /// part to `0`.
    pub fn from_vector(vector: Vector3<F>) -> (r: Self)
        ensures
            r == Self::from_vector_spec(vector),
    {
        Quaternion {
            scalar: F::zero(),
            vector: vector,
        }
    }

    /// The conjugate: the vector part negated.
    pub open spec fn conjugate_spec(self) -> Self {
        Quaternion {
            scalar: self.scalar,
            vector: self.vector.neg_spec(),
        }
    }

    /// Returns the conjugate of the quaternion. `a + bi + cj + dk` -> `a - bi -
    /// cj - dk`
    pub fn conjugate(self) -> (r: Self)
        ensures
            r == self.conjugate_spec(),
    {
        Quaternion {
            scalar: self.scalar,
            vector: core::ops::Neg::neg(self.vector),
        }
    }

    /// Computes squared norm of the quaternion.
    pub fn sqr_norm(&self) -> (r: F)
        ensures
            r == self.sqr_norm_spec(),
    {
        self.scalar.mul(self.scalar).add(self.vector.sqr_magnitude())
    }

    /// Computes norm of the quaternion.
    pub fn norm(&self) -> (r: F)
        ensures
            r == self.norm_spec(),
    {
        self.sqr_norm().sqrt()
    }

    /// The quaternion with every component divided by the norm.
    pub open spec fn normalized_spec(self) -> Self {
        Quaternion {
            scalar: self.scalar.div_spec(self.norm_spec()),
            vector: self.vector.div_spec(self.norm_spec()),
        }
    }

    /// Returns normalized copy of the quaternion. See [`Self::normalize`]
    pub fn normalized(self) -> (r: Self)
        ensures
            r == self.normalized_spec(),
    {
        Quaternion {
            scalar: self.scalar.div(self.norm()),
            vector: self.vector / self.norm(),
        }
    }

    /// Normalizes quaternion making its norm equal to `1`.
    pub fn normalize(&mut self)
        ensures
            *final(self) == old(self).normalized_spec(),
    {
        let norm = self.norm();
        self.scalar = self.scalar.div(norm);
        self.vector = self.vector / norm;
    }

    /// The reciprocal: the conjugate divided by the square of the norm.
    pub open spec fn reciprocal_spec(self) -> Self {
        self.conjugate_spec().div_spec(self.norm_spec().mul_spec(self.norm_spec()))
    }

    /// Computes the reciprocal of the quaternion.
    pub fn reciprocal(self) -> (r: Self)
        ensures
            r == self.reciprocal_spec(),
    {
        self.conjugate() / self.norm().mul(self.norm())
    }

    /// The Hamilton product `self * rhs`. With `self = s + xi + yj + zk` and
    /// `rhs = t + ui + vj + wk`, each component is the sum written out below,
    /// added up from left to right. The product is not commutative: it stands
    /// for the rotation `rhs` followed by the rotation `self`.
    pub open spec fn hamilton_product_spec(self, rhs: Self) -> Self {
        let (s, x, y, z) = (self.scalar, self.vector.x, self.vector.y, self.vector.z);
        let (t, u, v, w) = (rhs.scalar, rhs.vector.x, rhs.vector.y, rhs.vector.z);
        Quaternion {
            scalar: s.mul_spec(t)
                .sub_spec(x.mul_spec(u))
                .sub_spec(y.mul_spec(v))
                .sub_spec(z.mul_spec(w)),
            vector: Vector3 {
                x: s.mul_spec(u)
                    .add_spec(x.mul_spec(t))
                    .add_spec(y.mul_spec(w))
                    .sub_spec(z.mul_spec(v)),
                y: s.mul_spec(v)
                    .sub_spec(x.mul_spec(w))
                    .add_spec(y.mul_spec(t))
                    .add_spec(z.mul_spec(u)),
                z: s.mul_spec(w)
                    .add_spec(x.mul_spec(v))
                    .sub_spec(y.mul_spec(u))
                    .add_spec(z.mul_spec(t)),
            },
        }
    }

    /// Computes the hamilton product of two quaternions.
    pub fn hamilton_product(self, rhs: &Self) -> (r: Self)
        ensures
            r == self.hamilton_product_spec(*rhs),
    {
        let (s, x, y, z) = (self.scalar, self.vector.x, self.vector.y, self.vector.z);
        let (t, u, v, w) = (rhs.scalar, rhs.vector.x, rhs.vector.y, rhs.vector.z);
        Quaternion {
            scalar: s.mul(t).sub(x.mul(u)).sub(y.mul(v)).sub(z.mul(w)),
            vector: Vector3 {
                x: s.mul(u).add(x.mul(t)).add(y.mul(w)).sub(z.mul(v)),
                y: s.mul(v).sub(x.mul(w)).add(y.mul(t)).add(z.mul(u)),
                z: s.mul(w).add(x.mul(v)).sub(y.mul(u)).add(z.mul(t)),
            },
        }
    }

    /// The exponential: with `m` the magnitude of the vector part, the
    /// quaternion with scalar part `cos(m)` and vector part `vector / m *
    /// sin(m)`, scaled by `e^scalar`.
    pub open spec fn exp_spec(self) -> Self {
        let mag = self.vector.magnitude_spec();
        (Quaternion {
            scalar: mag.cos_spec(),
            vector: self.vector.div_spec(mag).scaled_spec(mag.sin_spec()),
        }).scaled_spec(self.scalar.exp_spec())
    }

    /// Computes the exponent raised to a quaternion power.
    pub fn exp(self) -> (r: Self)
        ensures
            r == self.exp_spec(),
    {
        let mag = self.vector.magnitude();
        Quaternion { scalar: mag.cos(), vector: self.vector / mag * mag.sin() } * self.scalar.exp()
    }

    /// The natural logarithm: scalar part `ln(norm)`, vector part the
    /// normalized vector part scaled by `acos(scalar / norm)`.
    pub open spec fn ln_spec(self) -> Self {
        Quaternion {
            scalar: self.norm_spec().ln_spec(),
            vector: self.vector.normalized_spec()
                .scaled_spec(self.scalar.div_spec(self.norm_spec()).acos_spec()),
        }
    }

    /// Computes the natural logarithm of the quaternion.
    pub fn ln(self) -> (r: Self)
        ensures
            r == self.ln_spec(),
    {
        Quaternion {
            scalar: self.norm().ln(),
            vector: self.vector.normalized() * self.scalar.div(self.norm()).acos(),
        }
    }

    /// The power `exp(ln(self) * x)`.
    pub open spec fn powf_spec(self, x: F) -> Self {
        self.ln_spec().scaled_spec(x).exp_spec()
    }

    /// Raises quaternion to `x` power.
    pub fn powf(self, x: F) -> (r: Self)
        ensures
            r == self.powf_spec(x),
    {
        (self.ln() * x).exp()
    }

    /// The blend `self * (1 - t) + end * t`.
    pub open spec fn lerp_spec(self, end: Self, t: F) -> Self {
        self.scaled_spec(F::one_spec().sub_spec(t)).add_spec(end.scaled_spec(t))
    }

    /// Linearly interpolates the quaternion.
    pub fn lerp(self, end: Self, t: F) -> (r: Self)
        ensures
            r == self.lerp_spec(end, t),
    {
        (self * F::one().sub(t)) + (end * t)
    }

    /// The normalized linear blend.
    pub open spec fn nlerp_spec(self, end: Self, t: F) -> Self {
        self.lerp_spec(end, t).normalized_spec()
    }

    /// Returns a normalized copy of linear interpolation.
    pub fn nlerp(self, end: Self, t: F) -> (r: Self)
        ensures
            r == self.nlerp_spec(end, t),
    {
        self.lerp(end, t).normalized()
    }

    /// The spherical interpolation `self * (self^-1 * end)^t`, the products
    /// Hamilton products.
    pub open spec fn slerp_spec(self, end: Self, t: F) -> Self {
        self.hamilton_product_spec(self.reciprocal_spec().hamilton_product_spec(end).powf_spec(t))
    }

    /// Spherically interpolates quaternions.
    pub fn slerp(self, end: Self, t: F) -> (r: Self)
        ensures
            r == self.slerp_spec(end, t),
    {
        self * (self.reciprocal() * end).powf(t)
    }

    /// The rotation matrix of the quaternion `s + xi + yj + zk`, by the
    /// standard nine-term formula: the diagonal holds `s^2 + x^2 - y^2 - z^2`,
    /// `s^2 - x^2 + y^2 - z^2` and `s^2 - x^2 - y^2 + z^2`, and off the
    /// diagonal stand `2xy -+ 2sz`, `2xz +- 2sy` and `2yz -+ 2sx`. It is a
    /// rotation only if the quaternion has norm `1`.
    pub open spec fn into_matrix3_spec(self) -> Matrix3<F> {
        let (s, x, y, z) = (self.scalar, self.vector.x, self.vector.y, self.vector.z);
        let two = F::one_spec().add_spec(F::one_spec());
        Matrix3 {
            row1: Vector3 {
                x: s.mul_spec(s)
                    .add_spec(x.mul_spec(x))
                    .sub_spec(y.mul_spec(y))
                    .sub_spec(z.mul_spec(z)),
                y: two.mul_spec(x).mul_spec(y).sub_spec(two.mul_spec(s).mul_spec(z)),
                z: two.mul_spec(x).mul_spec(z).add_spec(two.mul_spec(s).mul_spec(y)),
            },
            row2: Vector3 {
                x: two.mul_spec(x).mul_spec(y).add_spec(two.mul_spec(s).mul_spec(z)),
                y: s.mul_spec(s)
                    .sub_spec(x.mul_spec(x))
                    .add_spec(y.mul_spec(y))
                    .sub_spec(z.mul_spec(z)),
                z: two.mul_spec(y).mul_spec(z).sub_spec(two.mul_spec(s).mul_spec(x)),
            },
            row3: Vector3 {
                x: two.mul_spec(x).mul_spec(z).sub_spec(two.mul_spec(s).mul_spec(y)),
                y: two.mul_spec(y).mul_spec(z).add_spec(two.mul_spec(s).mul_spec(x)),
                z: s.mul_spec(s)
                    .sub_spec(x.mul_spec(x))
                    .sub_spec(y.mul_spec(y))
                    .add_spec(z.mul_spec(z)),
            },
        }
    }

    /// Converts a quaternion representing rotation to a matrix representing the
    /// same rotation.
    pub fn into_matrix3(self) -> (r: Matrix3<F>)
        ensures
            r == self.into_matrix3_spec(),
    {
        let (s, x, y, z) = (self.scalar, self.vector.x, self.vector.y, self.vector.z);
        let two = F::one().add(F::one());
        Matrix3 {
            row1: Vector3 {
                x: s.mul(s).add(x.mul(x)).sub(y.mul(y)).sub(z.mul(z)),
                y: two.mul(x).mul(y).sub(two.mul(s).mul(z)),
                z: two.mul(x).mul(z).add(two.mul(s).mul(y)),
            },
            row2: Vector3 {
                x: two.mul(x).mul(y).add(two.mul(s).mul(z)),
                y: s.mul(s).sub(x.mul(x)).add(y.mul(y)).sub(z.mul(z)),
                z: two.mul(y).mul(z).sub(two.mul(s).mul(x)),
            },
            row3: Vector3 {
                x: two.mul(x).mul(z).sub(two.mul(s).mul(y)),
                y: two.mul(y).mul(z).add(two.mul(s).mul(x)),
                z: s.mul(s).sub(x.mul(x)).sub(y.mul(y)).add(z.mul(z)),
            },
        }
    }

    /// The round trip through axis and angle gives the quaternion back, in
    /// exact arithmetic with elementary functions that are exact. The
    /// quaternion must be of norm one with a vector part other than zero, and
    /// the square root behind the magnitude of the vector part must be exact.
    pub proof fn lemma_axis_angle_round_trip(self)
        requires
            crate::ring::is_exact_field::<F>(),
            crate::ring::circle_is_exact::<F>(),
            F::two_spec() == F::one_spec().add_spec(F::one_spec()),
            F::two_spec() != F::zero_spec(),
            self.sqr_norm_spec() == F::one_spec(),
            self.vector.magnitude_spec().mul_spec(self.vector.magnitude_spec())
                == self.vector.sqr_magnitude_spec(),
            self.vector.magnitude_spec() != F::zero_spec(),
        ensures
            Self::new_axis_angle_spec(self.into_axis_angle_spec().0, self.into_axis_angle_spec().1)
                == self,
    {
        let m = self.vector.magnitude_spec();
        let a = m.atan2_spec(self.scalar);
        // the angle is halved again: (a * 2) / (1 + 1) == a
        crate::ring::mul_div(a, F::two_spec());
        // on the unit circle the cosine and sine of `a` are the scalar part and `m`
        assert(a.cos_spec() == self.scalar && a.sin_spec() == m);
        // and the normalized vector part, scaled by `m`, is the vector part
        crate::ring::div_mul_cancel(self.vector.x, m);
        crate::ring::div_mul_cancel(self.vector.y, m);
        crate::ring::div_mul_cancel(self.vector.z, m);
    }
}

impl<F: Float> core::ops::Mul for Quaternion<F> {
    type Output = Self;

    /// The Hamilton product.
    fn mul(self, rhs: Self) -> (r: Self)
        ensures
            r == self.hamilton_product_spec(rhs),
    {
        self.hamilton_product(&rhs)
    }
}

impl<F: Float> vstd::std_specs::ops::MulSpecImpl for Quaternion<F> {
    open spec fn obeys_mul_spec() -> bool {
        true
    }

    open spec fn mul_req(self, rhs: Self) -> bool {
        true
    }

    open spec fn mul_spec(self, rhs: Self) -> Self {
        Quaternion::hamilton_product_spec(self, rhs)
    }
}

impl<F: Float> core::ops::MulAssign for Quaternion<F> {
    /// Replaces the quaternion by its Hamilton product with `rhs`.
    fn mul_assign(&mut self, rhs: Self)
        ensures
            *final(self) == old(self).hamilton_product_spec(rhs),
    {
        *self = self.hamilton_product(&rhs);
    }
}

impl<F: Float> core::ops::Mul<F> for Quaternion<F> {
    type Output = Self;

    /// Multiplies every component by `rhs`.
    fn mul(self, rhs: F) -> (r: Self)
        ensures
            r == self.scaled_spec(rhs),
    {
        Quaternion { scalar: self.scalar.mul(rhs), vector: self.vector * rhs }
    }
}

impl<F: Float> vstd::std_specs::ops::MulSpecImpl<F> for Quaternion<F> {
    open spec fn obeys_mul_spec() -> bool {
        true
    }

    open spec fn mul_req(self, rhs: F) -> bool {
        true
    }

    open spec fn mul_spec(self, rhs: F) -> Self {
        Quaternion::scaled_spec(self, rhs)
    }
}

impl<F: Float> core::ops::MulAssign<F> for Quaternion<F> {
    /// Multiplies every component by `rhs`.
    fn mul_assign(&mut self, rhs: F)
        ensures
            *final(self) == old(self).scaled_spec(rhs),
    {
        self.scalar = self.scalar.mul(rhs);
        self.vector = self.vector * rhs;
    }
}

impl<F: Float> core::ops::Div<F> for Quaternion<F> {
    type Output = Self;

    /// Divides every component by `rhs`.
    fn div(self, rhs: F) -> (r: Self)
        ensures
            r == self.div_spec(rhs),
    {
        Quaternion { scalar: self.scalar.div(rhs), vector: self.vector / rhs }
    }
}

impl<F: Float> vstd::std_specs::ops::DivSpecImpl<F> for Quaternion<F> {
    open spec fn obeys_div_spec() -> bool {
        true
    }

    open spec fn div_req(self, rhs: F) -> bool {
        true
    }

    open spec fn div_spec(self, rhs: F) -> Self {
        Quaternion::div_spec(self, rhs)
    }
}

impl<F: Float> core::ops::DivAssign<F> for Quaternion<F> {
    /// Divides every component by `rhs`.
    fn div_assign(&mut self, rhs: F)
        ensures
            *final(self) == old(self).div_spec(rhs),
    {
        self.scalar = self.scalar.div(rhs);
        self.vector = self.vector / rhs;
    }
}

impl<F: Float> core::ops::Add for Quaternion<F> {
    type Output = Self;

    /// Adds component by component.
    fn add(self, rhs: Self) -> (r: Self)
        ensures
            r == self.add_spec(rhs),
    {
        Quaternion { scalar: self.scalar.add(rhs.scalar), vector: self.vector + rhs.vector }
    }
}

impl<F: Float> vstd::std_specs::ops::AddSpecImpl for Quaternion<F> {
    open spec fn obeys_add_spec() -> bool {
        true
    }

    open spec fn add_req(self, rhs: Self) -> bool {
        true
    }

    open spec fn add_spec(self, rhs: Self) -> Self {
        Quaternion::add_spec(self, rhs)
    }
}

impl<F: Float> core::ops::AddAssign for Quaternion<F> {
    /// Adds `rhs`, component by component.
    fn add_assign(&mut self, rhs: Self)
        ensures
            *final(self) == old(self).add_spec(rhs),
    {
        self.scalar = self.scalar.add(rhs.scalar);
        self.vector = self.vector + rhs.vector;
    }
}

impl<F: Float> core::ops::Sub for Quaternion<F> {
    type Output = Self;

    /// Subtracts component by component.
    fn sub(self, rhs: Self) -> (r: Self)
        ensures
            r == self.sub_spec(rhs),
    {
        Quaternion { scalar: self.scalar.sub(rhs.scalar), vector: self.vector - rhs.vector }
    }
}

impl<F: Float> vstd::std_specs::ops::SubSpecImpl for Quaternion<F> {
    open spec fn obeys_sub_spec() -> bool {
        true
    }

    open spec fn sub_req(self, rhs: Self) -> bool {
        true
    }

    open spec fn sub_spec(self, rhs: Self) -> Self {
        Quaternion::sub_spec(self, rhs)
    }
}

impl<F: Float> core::ops::SubAssign for Quaternion<F> {
    /// Subtracts `rhs`, component by component.
    fn sub_assign(&mut self, rhs: Self)
        ensures
            *final(self) == old(self).sub_spec(rhs),
    {
        self.scalar = self.scalar.sub(rhs.scalar);
        self.vector = self.vector - rhs.vector;
    }
}

impl<F: Float> From<(Vector3<F>, F)> for Quaternion<F> {
    /// Converts from axis, angle to quaternion.
    fn from(val: (Vector3<F>, F)) -> (r: Self)
        ensures
            r == Quaternion::new_axis_angle_spec(val.0, val.1),
    {
        Quaternion::new_axis_angle(val.0, val.1)
    }
}

impl<F: Float> vstd::std_specs::convert::FromSpecImpl<(Vector3<F>, F)> for Quaternion<F> {
    open spec fn obeys_from_spec() -> bool {
        true
    }

    open spec fn from_spec(val: (Vector3<F>, F)) -> Self {
        Quaternion::new_axis_angle_spec(val.0, val.1)
    }
}

} // verus!
