//! Two-dimensional vectors.

use vstd::prelude::*;
use crate::complex::Complex;
use crate::float::Float;
use crate::vector::d3::Vector3;

verus! {
/// 2 Dimensional vector. The components are laid out in declaration
/// order; the view is the sequence of the components in that order.
#[derive(Copy, Debug, PartialEq)]
pub struct Vector2<F: Float> {
    pub x: F,
    pub y: F,
}

impl<F: Float> Clone for Vector2<F> {
    fn clone(&self) -> (r: Self)
        ensures
            r == *self,
    {
        *self
    }
}

impl<F: Float> View for Vector2<F> {
    type V = Seq<F>;

    open spec fn view(&self) -> Seq<F> {
        seq![self.x, self.y]
    }
}

impl<F: Float> Vector2<F> {
    /// The vector with every component equal to `0`.
    pub open spec fn zero_spec() -> Self {
        Vector2 {
            x: F::zero_spec(),
            y: F::zero_spec(),
        }
    }

    /// Returns [`Self::zero_spec`].
    pub fn zero() -> (r: Self)
        ensures
            r == Self::zero_spec(),
    {
        Vector2 {
            x: F::zero(),
            y: F::zero(),
        }
    }

    /// The vector with every component equal to `1`.
    pub open spec fn one_spec() -> Self {
        Vector2 {
            x: F::one_spec(),
            y: F::one_spec(),
        }
    }

    /// Returns [`Self::one_spec`].
    pub fn one() -> (r: Self)
        ensures
            r == Self::one_spec(),
    {
        Vector2 {
            x: F::one(),
            y: F::one(),
        }
    }

    /// The unit vector along the `x` axis.
    pub open spec fn unit_x_spec() -> Self {
        Vector2 {
            x: F::one_spec(),
            y: F::zero_spec(),
        }
    }

    /// Returns [`Self::unit_x_spec`].
    pub fn unit_x() -> (r: Self)
        ensures
            r == Self::unit_x_spec(),
    {
        Vector2 {
            x: F::one(),
            y: F::zero(),
        }
    }

    /// The unit vector along the `y` axis.
    pub open spec fn unit_y_spec() -> Self {
        Vector2 {
            x: F::zero_spec(),
            y: F::one_spec(),
        }
    }

    /// Returns [`Self::unit_y_spec`].
    pub fn unit_y() -> (r: Self)
        ensures
            r == Self::unit_y_spec(),
    {
        Vector2 {
            x: F::zero(),
            y: F::one(),
        }
    }

    /// Creates new from individual components.
    pub fn new(x: F, y: F) -> (r: Self)
        ensures
            r == (Vector2 { x, y }),
    {
        Vector2 { x, y }
    }

    /// The vector with all components equal to `val`.
    pub open spec fn same_spec(val: F) -> Self {
        Vector2 {
            x: val,
            y: val,
        }
    }

    /// Creates new with all components equal to `val`.
    pub fn same(val: F) -> (r: Self)
        ensures
            r == Self::same_spec(val),
    {
        Vector2 {
            x: val,
            y: val,
        }
    }

    /// Splits into components.
    pub fn into_parts(self) -> (r: (F, F))
        ensures
            r == (self.x, self.y),
    {
        (self.x, self.y)
    }

    /// Creates new from components.
    pub fn from_parts(parts: (F, F)) -> (r: Self)
        ensures
            r == (Vector2 { x: parts.0, y: parts.1 }),
    {
        Vector2 { x: parts.0, y: parts.1 }
    }

    /// The component at position `i`, counting from zero. Lets specifications
    /// write `v[i]`.
    pub open spec fn spec_index(self, i: int) -> F
        recommends
            0 <= i < 2,
    {
        self@[i]
    }

    /// Returns the component at position `i`, counting from zero.
    pub fn get(&self, i: usize) -> (r: F)
        requires
            i < 2,
        ensures
            r == self@[i as int],
    {
        if i == 0 {
            self.x
        } else {
            self.y
        }
    }

    /// Replaces the component at position `i`, counting from zero, and leaves
    /// the others as they are.
    pub fn set(&mut self, i: usize, value: F)
        requires
            i < 2,
        ensures
            final(self)@ == old(self)@.update(i as int, value),
    {
        if i == 0 {
            self.x = value;
        } else {
            self.y = value;
        }
        assert(self@ =~= old(self)@.update(i as int, value));
    }

    /// Converts the vector to an array of its components, in order.
    pub fn to_array(&self) -> (r: [F; 2])
        ensures
            r@ == self@,
    {
        let r = [self.x, self.y];
        assert(r@ =~= self@);
        r
    }

    /// Converts an array of components, in order, to a vector.
    pub fn from_array(array: [F; 2]) -> (r: Self)
        ensures
            r@ == array@,
    {
        let r = Vector2 { x: array[0], y: array[1] };
        assert(r@ =~= array@);
        r
    }

    /// The component-wise sum.
    pub open spec fn add_spec(self, rhs: Self) -> Self {
        Vector2 {
            x: self.x.add_spec(rhs.x),
            y: self.y.add_spec(rhs.y),
        }
    }

    /// The component-wise difference.
    pub open spec fn sub_spec(self, rhs: Self) -> Self {
        Vector2 {
            x: self.x.sub_spec(rhs.x),
            y: self.y.sub_spec(rhs.y),
        }
    }

    /// The vector with every component negated.
    pub open spec fn neg_spec(self) -> Self {
        Vector2 {
            x: self.x.neg_spec(),
            y: self.y.neg_spec(),
        }
    }

    /// The vector with every component divided by `rhs`.
    pub open spec fn div_spec(self, rhs: F) -> Self {
        Vector2 {
            x: self.x.div_spec(rhs),
            y: self.y.div_spec(rhs),
        }
    }

    /// The vector with every component multiplied by `factor`.
    pub open spec fn scaled_spec(self, factor: F) -> Self {
        Vector2 {
            x: self.x.mul_spec(factor),
            y: self.y.mul_spec(factor),
        }
    }

    /// Returns the scaled copy. See [`Self::scale`].
    pub fn scaled(self, factor: F) -> (r: Self)
        ensures
            r == self.scaled_spec(factor),
    {
        Vector2 {
            x: self.x.mul(factor),
            y: self.y.mul(factor),
        }
    }

    /// Multiplies all components by `factor`.
    pub fn scale(&mut self, factor: F)
        ensures
            *final(self) == old(self).scaled_spec(factor),
    {
        self.x = self.x.mul(factor);
        self.y = self.y.mul(factor);
    }

    /// The squared magnitude: the squares of the components summed from first
    /// to last, then the sum with `0`.
    pub open spec fn sqr_magnitude_spec(self) -> F {
        self.x.mul_spec(self.x).add_spec(self.y.mul_spec(self.y)).add_spec(F::zero_spec())
    }

    /// Returns squared magnitude.
    pub fn sqr_magnitude(&self) -> (r: F)
        ensures
            r == self.sqr_magnitude_spec(),
    {
        self.x.mul(self.x).add(self.y.mul(self.y)).add(F::zero())
    }

    /// The magnitude: the square root of the squared magnitude.
    pub open spec fn magnitude_spec(self) -> F {
        self.sqr_magnitude_spec().sqrt_spec()
    }

    /// Returns magnitude.
    pub fn magnitude(&self) -> (r: F)
        ensures
            r == self.magnitude_spec(),
    {
        self.sqr_magnitude().sqrt()
    }

    /// The component-wise maximum.
    pub open spec fn max_spec(self, other: Self) -> Self {
        Vector2 {
            x: self.x.max_spec(other.x),
            y: self.y.max_spec(other.y),
        }
    }

    /// Returns the component-wise maximum of the two vectors.
    pub fn max(&self, other: Self) -> (r: Self)
        ensures
            r == self.max_spec(other),
    {
        Vector2 {
            x: self.x.max(other.x),
            y: self.y.max(other.y),
        }
    }

    /// The component-wise minimum.
    pub open spec fn min_spec(self, other: Self) -> Self {
        Vector2 {
            x: self.x.min_spec(other.x),
            y: self.y.min_spec(other.y),
        }
    }

    /// Returns the component-wise minimum of the two vectors.
    pub fn min(&self, other: Self) -> (r: Self)
        ensures
            r == self.min_spec(other),
    {
        Vector2 {
            x: self.x.min(other.x),
            y: self.y.min(other.y),
        }
    }

    /// The vector of the absolute values of the components.
    pub open spec fn abs_spec(self) -> Self {
        Vector2 {
            x: self.x.abs_spec(),
            y: self.y.abs_spec(),
        }
    }

    /// Returns a copy where all components are positive.
    pub fn abs(self) -> (r: Self)
        ensures
            r == self.abs_spec(),
    {
        Vector2 {
            x: self.x.abs(),
            y: self.y.abs(),
        }
    }

    /// Whether every component has an absolute value below the tolerance of the
    /// scalar type.
    pub open spec fn is_zero_spec(self) -> bool {
        self.x.abs_spec().lt_spec(F::epsilon_spec())
            && self.y.abs_spec().lt_spec(F::epsilon_spec())
    }

    /// Checks is zero with regard to the tolerance of the scalar type.
    pub fn is_zero(&self) -> (r: bool)
        ensures
            r == self.is_zero_spec(),
    {
        self.x.abs().lt(F::epsilon())
            && self.y.abs().lt(F::epsilon())
    }

    /// The vector with every component divided by the magnitude. For a vector
    /// of magnitude zero the components are whatever the scalar type yields for
    /// a division by zero.
    pub open spec fn normalized_spec(self) -> Self {
        Vector2 {
            x: self.x.div_spec(self.magnitude_spec()),
            y: self.y.div_spec(self.magnitude_spec()),
        }
    }

    /// Returns normalized copy of the vector. See [`Self::normalize`].
    pub fn normalized(&self) -> (r: Self)
        ensures
            r == self.normalized_spec(),
    {
        Vector2 {
            x: self.x.div(self.magnitude()),
            y: self.y.div(self.magnitude()),
        }
    }

    /// Normalizes vector, preserving direction and making its magnitude equal
    /// to `1`.
    pub fn normalize(&mut self)
        ensures
            *final(self) == old(self).normalized_spec(),
    {
        let mag = self.magnitude();
        self.x = self.x.div(mag);
        self.y = self.y.div(mag);
    }

    /// The dot (scalar) product: the products of matching components summed
    /// from first to last, then the sum with `0`.
    pub open spec fn dot_spec(self, other: Self) -> F {
        self.x.mul_spec(other.x).add_spec(self.y.mul_spec(other.y)).add_spec(F::zero_spec())
    }

    /// Computes the dot (scalar) product between two vectors. Dot product for
    /// two normalized vectors is equal to the cosine of the angle between them.
    pub fn dot(&self, other: Self) -> (r: F)
        ensures
            r == self.dot_spec(other),
    {
        self.x.mul(other.x).add(self.y.mul(other.y)).add(F::zero())
    }

    /// The dot product of the two normalized vectors.
    pub open spec fn dot_normalized_spec(self, other: Self) -> F {
        self.normalized_spec().dot_spec(other.normalized_spec())
    }

    /// Computes the dot product between two vectors normalizing them
    /// beforehand.
    pub fn dot_normalized(&self, other: Self) -> (r: F)
        ensures
            r == self.dot_normalized_spec(other),
    {
        self.normalized().dot(other.normalized())
    }

    /// The arccosine of the normalized dot product.
    pub open spec fn angle_to_spec(self, other: Self) -> F {
        self.dot_normalized_spec(other).acos_spec()
    }

    /// Returns angle in radians between two vectors. Output range is: `[0,
    /// pi]`.
    pub fn angle_to(&self, other: Self) -> (r: F)
        ensures
            r == self.angle_to_spec(other),
    {
        self.dot_normalized(other).acos()
    }

    /// The angle of the counter-clockwise arc from `self` to `other` in the
    /// `x`-`y` plane: the four-quadrant arctangent of the planar determinant
    /// and the dot product of the normalized vectors, moved up by a full turn
    /// where it is below `0`.
    pub open spec fn arc_angle_to_spec(self, other: Self) -> F {
        let v1 = self.normalized_spec();
        let v2 = other.normalized_spec();
        let det = v1.x.mul_spec(v2.y).sub_spec(v1.y.mul_spec(v2.x));
        let ang = det.atan2_spec(v1.dot_spec(v2));
        if ang.lt_spec(F::zero_spec()) {
            ang.add_spec(F::pi_spec().mul_spec(F::two_spec()))
        } else {
            ang
        }
    }

    /// Returns angle in radians between two vectors that goes along circle arc
    /// counter-clockwise. Output range is: `[0, 2pi]`.
    pub fn arc_angle_to(&self, other: Self) -> (r: F)
        ensures
            r == self.arc_angle_to_spec(other),
    {
        let v1 = self.normalized();
        let v2 = other.normalized();
        let dot = v1.dot(v2);
        let det = v1.x.mul(v2.y).sub(v1.y.mul(v2.x));
        let ang = det.atan2(dot);
        if ang.lt(F::zero()) {
            ang.add(F::pi().mul(F::two()))
        } else {
            ang
        }
    }

    /// The projection onto `axis`: the normalized axis scaled by the dot
    /// product with it.
    pub open spec fn projected_onto_spec(self, axis: Self) -> Self {
        axis.normalized_spec().scaled_spec(self.dot_spec(axis.normalized_spec()))
    }

    /// Returns the projected copy of the vector onto another vector. See
    /// [`Self::project_onto`].
    pub fn projected_onto(&self, axis: Self) -> (r: Self)
        ensures
            r == self.projected_onto_spec(axis),
    {
        axis.normalized() * self.dot(axis.normalized())
    }

    /// Projects a vector onto another vector. Axis and the resulting vector are
    /// collinear.
    pub fn project_onto(&mut self, axis: Self)
        ensures
            *final(self) == old(self).projected_onto_spec(axis),
    {
        let an = axis.normalized();
        *self = an * self.dot(an);
    }

    /// The magnitude of `other - self`.
    pub open spec fn distance_to_spec(self, other: Self) -> F {
        other.sub_spec(self).magnitude_spec()
    }

    /// Computes the distance between two vectors.
    pub fn distance_to(&self, other: Self) -> (r: F)
        ensures
            r == self.distance_to_spec(other),
    {
        (other - *self).magnitude()
    }

    /// The squared magnitude of `other - self`.
    pub open spec fn sqr_distance_to_spec(self, other: Self) -> F {
        other.sub_spec(self).sqr_magnitude_spec()
    }

    /// Computes the squared distance between two vectors.
    pub fn sqr_distance_to(&self, other: Self) -> (r: F)
        ensures
            r == self.sqr_distance_to_spec(other),
    {
        (other - *self).sqr_magnitude()
    }

    /// The point `self + (end - self) * t`.
    pub open spec fn lerp_spec(self, end: Self, t: F) -> Self {
        self.add_spec(end.sub_spec(self).scaled_spec(t))
    }

    /// Linearly interpolates between two vectors.
    pub fn lerp(self, end: Self, t: F) -> (r: Self)
        ensures
            r == self.lerp_spec(end, t),
    {
        self + ((end - self) * t)
    }

    /// The parameter of the point of the line through `self` and `end` that is
    /// nearest to `v`: the dot product of `v - self` and `end - self`, divided
    /// by the dot product of `end - self` with itself. It is `0` at `self` and
    /// `1` at `end`, and it undoes [`Self::lerp_spec`] in exact arithmetic.
    /// Where `end` is `self` it is whatever the division by zero yields.
    pub open spec fn inv_lerp_spec(self, end: Self, v: Self) -> F {
        let ab = end.sub_spec(self);
        v.sub_spec(self).dot_spec(ab).div_spec(ab.dot_spec(ab))
    }

    /// Inverse linear interpolation between two vectors: finds the `t` for
    /// which the interpolation between `self` and `end` comes nearest to `v`.
    pub fn inv_lerp(self, end: Self, v: Self) -> (r: F)
        ensures
            r == self.inv_lerp_spec(end, v),
    {
        let ab = end - self;
        (v - self).dot(ab).div(ab.dot(ab))
    }

    /// The normalized linear interpolation.
    pub open spec fn nlerp_spec(self, end: Self, t: F) -> Self {
        self.lerp_spec(end, t).normalized_spec()
    }

    /// Returns normalized copy of the linear interpolation between vectors.
    pub fn nlerp(self, end: Self, t: F) -> (r: Self)
        ensures
            r == self.nlerp_spec(end, t),
    {
        self.lerp(end, t).normalized()
    }

    /// The spherical interpolation: with `omega` the angle between the vectors,
    /// `self * (sin((1 - t) * omega) / sin(omega)) + end * (sin(t * omega) /
    /// sin(omega))`.
    pub open spec fn slerp_spec(self, end: Self, t: F) -> Self {
        let omega = self.dot_normalized_spec(end).acos_spec();
        self.scaled_spec(
            F::one_spec().sub_spec(t).mul_spec(omega).sin_spec().div_spec(omega.sin_spec()),
        ).add_spec(end.scaled_spec(t.mul_spec(omega).sin_spec().div_spec(omega.sin_spec())))
    }

    /// Spherically interpolates between two vectors.
    pub fn slerp(self, end: Self, t: F) -> (r: Self)
        ensures
            r == self.slerp_spec(end, t),
    {
        let omega = self.dot_normalized(end).acos();
        self * F::one().sub(t).mul(omega).sin().div(omega.sin()) + end * t.mul(omega).sin().div(
            omega.sin(),
        )
    }

    /// The product of the components, multiplied from first to last, then by
    /// `1`.
    pub open spec fn product_spec(self) -> F {
        self.x.mul_spec(self.y).mul_spec(F::one_spec())
    }

    /// Computes the product of all elements in the vector.
    pub fn product(&self) -> (r: F)
        ensures
            r == self.product_spec(),
    {
        self.x.mul(self.y).mul(F::one())
    }

    /// The sum of the components, added from first to last, then to `0`.
    pub open spec fn sum_spec(self) -> F {
        self.x.add_spec(self.y).add_spec(F::zero_spec())
    }

    /// Computes the sum of all elements in the vector.
    pub fn sum(&self) -> (r: F)
        ensures
            r == self.sum_spec(),
    {
        self.x.add(self.y).add(F::zero())
    }

    /// In exact arithmetic [`Self::inv_lerp`] undoes [`Self::lerp`]: for two
    /// points that differ, the parameter of the interpolated point is the
    /// parameter it was interpolated with.
    pub proof fn lemma_inv_lerp_of_lerp(self, end: Self, t: F)
        requires
            crate::ring::is_exact_field::<F>(),
            end.sub_spec(self).dot_spec(end.sub_spec(self)) != F::zero_spec(),
        ensures
            self.inv_lerp_spec(end, self.lerp_spec(end, t)) == t,
    {
        crate::ring::field_is_ring::<F>();
        let d = end.sub_spec(self);
        let v = self.lerp_spec(end, t);
        // v - self == d * t
        crate::ring::add_sub_cancel(self.x, d.x.mul_spec(t));
        crate::ring::add_sub_cancel(self.y, d.y.mul_spec(t));
        assert(v.sub_spec(self) == d.scaled_spec(t));
        // (d * t) . d == t * (d . d)
        crate::ring::mul_scale(d.x, t);
        crate::ring::mul_scale(d.y, t);
        crate::ring::scaled_sum_of_two(t, d.x.mul_spec(d.x), d.y.mul_spec(d.y));
        crate::ring::mul_div(t, d.dot_spec(d));
    }

    /// The maximum of the components, folded from the last component to the
    /// first.
    pub open spec fn max_element_spec(self) -> F {
        self.x.max_spec(self.y)
    }

    /// Returns maximum element of the vector.
    pub fn max_element(&self) -> (r: F)
        ensures
            r == self.max_element_spec(),
    {
        self.x.max(self.y)
    }

    /// The minimum of the components, folded from the last component to the
    /// first.
    pub open spec fn min_element_spec(self) -> F {
        self.x.min_spec(self.y)
    }

    /// Returns minimum element of the vector.
    pub fn min_element(&self) -> (r: F)
        ensures
            r == self.min_element_spec(),
    {
        self.x.min(self.y)
    }

    /// The position of the maximum component. The components are visited in
    /// order and the later one wins unless the earlier one is strictly greater,
    /// so of several equal maxima the last is chosen.
    pub open spec fn max_index_spec(self) -> int {
        let i0: int = 0;
        let i1: int = if self.y.lt_spec(self[i0]) {
            i0
        } else {
            1
        };
        i1
    }

    /// Returns index of the maximum element. Index is in `0..=1` range.
    pub fn max_index(&self) -> (r: usize)
        ensures
            r == self.max_index_spec(),
            r < 2,
    {
        let mut best = self.x;
        let mut index: usize = 0;
        if !self.y.lt(best) {
            best = self.y;
            index = 1;
        }
        proof {
            assert(best == self[index as int]);
        }
        index
    }

    /// The position of the minimum component. The components are visited in
    /// order and the later one wins only if it is strictly less, so of several
    /// equal minima the first is chosen.
    pub open spec fn min_index_spec(self) -> int {
        let i0: int = 0;
        let i1: int = if self.y.lt_spec(self[i0]) {
            1
        } else {
            i0
        };
        i1
    }

    /// Returns index of the minimum element. Index is in `0..=1` range.
    pub fn min_index(&self) -> (r: usize)
        ensures
            r == self.min_index_spec(),
            r < 2,
    {
        let mut best = self.x;
        let mut index: usize = 0;
        if self.y.lt(best) {
            best = self.y;
            index = 1;
        }
        proof {
            assert(best == self[index as int]);
        }
        index
    }

    /// Whether `self` comes strictly before `other` in the lexicographic order
    /// of the components: the first component at which the two are not equal
    /// decides, and there that of `self` is less.
    pub open spec fn lt_spec(self, other: Self) -> bool {
        if self.x.eq_spec(other.x) {
            self.y.lt_spec(other.y)
        } else {
            self.x.lt_spec(other.x)
        }
    }

    /// Decides whether `self` is lexicographically less than `other`.
    pub fn lt(&self, other: Self) -> (r: bool)
        ensures
            r == self.lt_spec(other),
    {
        if self.x.eq(other.x) {
            self.y.lt(other.y)
        } else {
            self.x.lt(other.x)
        }
    }

    /// Whether `self` comes before `other` in the lexicographic order of the
    /// components, or every component is equal.
    pub open spec fn le_spec(self, other: Self) -> bool {
        if self.x.eq_spec(other.x) {
            self.y.lt_spec(other.y) || self.y.eq_spec(other.y)
        } else {
            self.x.lt_spec(other.x)
        }
    }

    /// Decides whether `self` is lexicographically less than or equal to
    /// `other`.
    pub fn le(&self, other: Self) -> (r: bool)
        ensures
            r == self.le_spec(other),
    {
        if self.x.eq(other.x) {
            self.y.lt(other.y) || self.y.eq(other.y)
        } else {
            self.x.lt(other.x)
        }
    }

    /// Whether `self` comes strictly after `other` in the lexicographic order
    /// of the components: the first component at which the two are not equal
    /// decides, and there that of `self` is greater.
    pub open spec fn gt_spec(self, other: Self) -> bool {
        if self.x.eq_spec(other.x) {
            other.y.lt_spec(self.y)
        } else {
            other.x.lt_spec(self.x)
        }
    }

    /// Decides whether `self` is lexicographically greater than `other`.
    pub fn gt(&self, other: Self) -> (r: bool)
        ensures
            r == self.gt_spec(other),
    {
        if self.x.eq(other.x) {
            other.y.lt(self.y)
        } else {
            other.x.lt(self.x)
        }
    }

    /// Whether `self` comes after `other` in the lexicographic order of the
    /// components, or every component is equal.
    pub open spec fn ge_spec(self, other: Self) -> bool {
        if self.x.eq_spec(other.x) {
            other.y.lt_spec(self.y) || self.y.eq_spec(other.y)
        } else {
            other.x.lt_spec(self.x)
        }
    }

    /// Decides whether `self` is lexicographically greater than or equal to
    /// `other`.
    pub fn ge(&self, other: Self) -> (r: bool)
        ensures
            r == self.ge_spec(other),
    {
        if self.x.eq(other.x) {
            other.y.lt(self.y) || self.y.eq(other.y)
        } else {
            other.x.lt(self.x)
        }
    }

    /// Converts a vector to a complex number with `real` = `x`, `imag` = `y`.
    pub fn to_complex(self) -> (r: Complex<F>)
        ensures
            r == (Complex { real: self.x, imag: self.y }),
    {
        Complex { real: self.x, imag: self.y }
    }

    /// Converts a complex number to a vector with `x` = `real`, `y` = `imag`.
    pub fn from_complex(complex: Complex<F>) -> (r: Self)
        ensures
            r == (Vector2 { x: complex.real, y: complex.imag }),
    {
        Vector2 { x: complex.real, y: complex.imag }
    }

    /// Extends the vector with `z` component to create a [`Vector3`].
    pub fn extend(self, z: F) -> (r: Vector3<F>)
        ensures
            r == (Vector3 { x: self.x, y: self.y, z }),
    {
        Vector3 { x: self.x, y: self.y, z }
    }

    /// The product with a complex number, the vector read as `x + yi`.
    pub open spec fn mul_complex_spec(self, rhs: Complex<F>) -> Self {
        Vector2 {
            x: self.x.mul_spec(rhs.real).sub_spec(self.y.mul_spec(rhs.imag)),
            y: self.x.mul_spec(rhs.imag).add_spec(self.y.mul_spec(rhs.real)),
        }
    }

    /// The vector rotated counter-clockwise: its product with the unit complex
    /// number of that angle.
    pub open spec fn rotated_by_spec(self, angle: F) -> Self {
        self.mul_complex_spec(Complex::from_angle_spec(angle))
    }

    /// Returns a rotated copy of a vector. See [`Self::rotate_by`].
    pub fn rotated_by(self, angle: F) -> (r: Self)
        ensures
            r == self.rotated_by_spec(angle),
    {
        self * Complex::from_angle(angle)
    }

    /// Rotates the vector around the origin by `angle` in radians counter-
    /// clockwise.
    pub fn rotate_by(&mut self, angle: F)
        ensures
            *final(self) == old(self).rotated_by_spec(angle),
    {
        *self = *self * Complex::from_angle(angle);
    }

    /// The vector rotated clockwise: its product with the conjugate of the unit
    /// complex number of that angle.
    pub open spec fn rotated_by_clockwise_spec(self, angle: F) -> Self {
        self.mul_complex_spec(Complex::from_angle_spec(angle).conjugate_spec())
    }

    /// Returns a rotated copy of a vector. See [`Self::rotate_by_clockwise`].
    pub fn rotated_by_clockwise(self, angle: F) -> (r: Self)
        ensures
            r == self.rotated_by_clockwise_spec(angle),
    {
        self * Complex::from_angle(angle).conjugate()
    }

    /// Rotates the vector around the origin by `angle` in radians clockwise.
    pub fn rotate_by_clockwise(&mut self, angle: F)
        ensures
            *final(self) == old(self).rotated_by_clockwise_spec(angle),
    {
        *self = *self * Complex::from_angle(angle).conjugate();
    }

    /// The mirror image across `axis`: twice the projection onto the axis, less
    /// the vector.
    pub open spec fn reflect_spec(self, axis: Self) -> Self {
        self.projected_onto_spec(axis).scaled_spec(F::two_spec()).sub_spec(self)
    }

    /// Reflects the vector across `axis`.
    pub fn reflect(&self, axis: Self) -> (r: Self)
        ensures
            r == self.reflect_spec(axis),
    {
        self.projected_onto(axis) * F::two() - *self
    }
}

impl<F: Float> core::ops::Add for Vector2<F> {
    type Output = Self;

    /// Adds component by component.
    fn add(self, rhs: Self) -> (r: Self)
        ensures
            r == self.add_spec(rhs),
    {
        Vector2 {
            x: self.x.add(rhs.x),
            y: self.y.add(rhs.y),
        }
    }
}

impl<F: Float> vstd::std_specs::ops::AddSpecImpl for Vector2<F> {
    open spec fn obeys_add_spec() -> bool {
        true
    }

    open spec fn add_req(self, rhs: Self) -> bool {
        true
    }

    open spec fn add_spec(self, rhs: Self) -> Self {
        Vector2::add_spec(self, rhs)
    }
}

impl<F: Float> core::ops::AddAssign for Vector2<F> {
    /// Adds `rhs` to the vector, component by component.
    fn add_assign(&mut self, rhs: Self)
        ensures
            *final(self) == old(self).add_spec(rhs),
    {
        self.x = self.x.add(rhs.x);
        self.y = self.y.add(rhs.y);
    }
}

impl<F: Float> core::ops::Sub for Vector2<F> {
    type Output = Self;

    /// Subtracts component by component.
    fn sub(self, rhs: Self) -> (r: Self)
        ensures
            r == self.sub_spec(rhs),
    {
        Vector2 {
            x: self.x.sub(rhs.x),
            y: self.y.sub(rhs.y),
        }
    }
}

impl<F: Float> vstd::std_specs::ops::SubSpecImpl for Vector2<F> {
    open spec fn obeys_sub_spec() -> bool {
        true
    }

    open spec fn sub_req(self, rhs: Self) -> bool {
        true
    }

    open spec fn sub_spec(self, rhs: Self) -> Self {
        Vector2::sub_spec(self, rhs)
    }
}

impl<F: Float> core::ops::SubAssign for Vector2<F> {
    /// Subtracts `rhs` from the vector, component by component.
    fn sub_assign(&mut self, rhs: Self)
        ensures
            *final(self) == old(self).sub_spec(rhs),
    {
        self.x = self.x.sub(rhs.x);
        self.y = self.y.sub(rhs.y);
    }
}

impl<F: Float> core::ops::Mul<F> for Vector2<F> {
    type Output = Self;

    /// Multiplies every component by `rhs`.
    fn mul(self, rhs: F) -> (r: Self)
        ensures
            r == self.scaled_spec(rhs),
    {
        Vector2 {
            x: self.x.mul(rhs),
            y: self.y.mul(rhs),
        }
    }
}

impl<F: Float> vstd::std_specs::ops::MulSpecImpl<F> for Vector2<F> {
    open spec fn obeys_mul_spec() -> bool {
        true
    }

    open spec fn mul_req(self, rhs: F) -> bool {
        true
    }

    open spec fn mul_spec(self, rhs: F) -> Self {
        Vector2::scaled_spec(self, rhs)
    }
}

impl<F: Float> core::ops::MulAssign<F> for Vector2<F> {
    /// Multiplies every component by `rhs`.
    fn mul_assign(&mut self, rhs: F)
        ensures
            *final(self) == old(self).scaled_spec(rhs),
    {
        self.x = self.x.mul(rhs);
        self.y = self.y.mul(rhs);
    }
}

impl<F: Float> core::ops::Div<F> for Vector2<F> {
    type Output = Self;

    /// Divides every component by `rhs`.
    fn div(self, rhs: F) -> (r: Self)
        ensures
            r == self.div_spec(rhs),
    {
        Vector2 {
            x: self.x.div(rhs),
            y: self.y.div(rhs),
        }
    }
}

impl<F: Float> vstd::std_specs::ops::DivSpecImpl<F> for Vector2<F> {
    open spec fn obeys_div_spec() -> bool {
        true
    }

    open spec fn div_req(self, rhs: F) -> bool {
        true
    }

    open spec fn div_spec(self, rhs: F) -> Self {
        Vector2::div_spec(self, rhs)
    }
}

impl<F: Float> core::ops::DivAssign<F> for Vector2<F> {
    /// Divides every component by `rhs`.
    fn div_assign(&mut self, rhs: F)
        ensures
            *final(self) == old(self).div_spec(rhs),
    {
        self.x = self.x.div(rhs);
        self.y = self.y.div(rhs);
    }
}

impl<F: Float> core::ops::Neg for Vector2<F> {
    type Output = Self;

    /// Negates every component.
    fn neg(self) -> (r: Self)
        ensures
            r == self.neg_spec(),
    {
        Vector2 {
            x: self.x.neg(),
            y: self.y.neg(),
        }
    }
}

impl<F: Float> vstd::std_specs::ops::NegSpecImpl for Vector2<F> {
    open spec fn obeys_neg_spec() -> bool {
        true
    }

    open spec fn neg_req(self) -> bool {
        true
    }

    open spec fn neg_spec(self) -> Self {
        Vector2::neg_spec(self)
    }
}

impl<F: Float> core::ops::Mul<Complex<F>> for Vector2<F> {
    type Output = Self;

    /// Multiplies the vector, read as the complex number `x + yi`, by `rhs`.
    fn mul(self, rhs: Complex<F>) -> (r: Self)
        ensures
            r == self.mul_complex_spec(rhs),
    {
        Vector2 {
            x: self.x.mul(rhs.real).sub(self.y.mul(rhs.imag)),
            y: self.x.mul(rhs.imag).add(self.y.mul(rhs.real)),
        }
    }
}

impl<F: Float> vstd::std_specs::ops::MulSpecImpl<Complex<F>> for Vector2<F> {
    open spec fn obeys_mul_spec() -> bool {
        true
    }

    open spec fn mul_req(self, rhs: Complex<F>) -> bool {
        true
    }

    open spec fn mul_spec(self, rhs: Complex<F>) -> Self {
        self.mul_complex_spec(rhs)
    }
}

impl<F: Float> From<Complex<F>> for Vector2<F> {
    /// Reads a complex number as a vector with `x` = `real`, `y` = `imag`.
    fn from(val: Complex<F>) -> (r: Self)
        ensures
            r == (Vector2 { x: val.real, y: val.imag }),
    {
        Vector2 { x: val.real, y: val.imag }
    }
}

impl<F: Float> vstd::std_specs::convert::FromSpecImpl<Complex<F>> for Vector2<F> {
    open spec fn obeys_from_spec() -> bool {
        true
    }

    open spec fn from_spec(val: Complex<F>) -> Self {
        Vector2 { x: val.real, y: val.imag }
    }
}

impl<F: Float> Default for Vector2<F> {
    /// The zero vector.
    fn default() -> (r: Self)
        ensures
            r == Self::zero_spec(),
    {
        Self::zero()
    }
}

impl<F: Float> From<(F, F)> for Vector2<F> {
    /// Builds a vector from the tuple of its components.
    fn from(val: (F, F)) -> (r: Self)
        ensures
            r == (Vector2 { x: val.0, y: val.1 }),
    {
        Vector2 { x: val.0, y: val.1 }
    }
}

impl<F: Float> vstd::std_specs::convert::FromSpecImpl<(F, F)> for Vector2<F> {
    open spec fn obeys_from_spec() -> bool {
        true
    }

    open spec fn from_spec(val: (F, F)) -> Self {
        Vector2 { x: val.0, y: val.1 }
    }
}

impl<F: Float> From<Vector2<F>> for (F, F) {
    /// Splits a vector into the tuple of its components.
    fn from(val: Vector2<F>) -> (r: Self)
        ensures
            r == (val.x, val.y),
    {
        (val.x, val.y)
    }
}

impl<F: Float> vstd::std_specs::convert::FromSpecImpl<Vector2<F>> for (F, F) {
    open spec fn obeys_from_spec() -> bool {
        true
    }

    open spec fn from_spec(val: Vector2<F>) -> Self {
        (val.x, val.y)
    }
}

} // verus!
