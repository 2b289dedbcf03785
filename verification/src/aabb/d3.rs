//! Axis-aligned bounding boxes in three dimensions.

use vstd::prelude::*;
use crate::float::Float;
use crate::vector::d3::Vector3;

verus! {

/// 3D Axis aligned bounded box.
#[derive(Copy, Debug)]
pub struct Aabb3<F: Float> {
    /// Min point.
    pub min: Vector3<F>,
    /// Max point.
    pub max: Vector3<F>,
}

impl<F: Float> Clone for Aabb3<F> {
    fn clone(&self) -> (r: Self)
        ensures
            r == *self,
    {
        *self
    }
}

impl<F: Float> Aabb3<F> {
    /// Creates `Aabb` from min, max vectors.
    pub fn from_min_max(min: Vector3<F>, max: Vector3<F>) -> (r: Self)
        ensures
            r == (Aabb3 { min, max }),
    {
        Aabb3 { min, max }
    }

    /// The box with both corners moved by `delta`.
    pub open spec fn translated_spec(self, delta: Vector3<F>) -> Self {
        Aabb3 { min: self.min.add_spec(delta), max: self.max.add_spec(delta) }
    }

    /// Translates bounding box by some delta.
    pub fn translate(&mut self, delta: Vector3<F>)
        ensures
            *final(self) == old(self).translated_spec(delta),
    {
        self.min = self.min + delta;
        self.max = self.max + delta;
    }

    /// Returns translated copy of the `Aabb`.
    pub fn translated(self, delta: Vector3<F>) -> (r: Self)
        ensures
            r == self.translated_spec(delta),
    {
        Self::from_min_max(self.min + delta, self.max + delta)
    }

    /// Whether the box has an extent along every axis: each component of
    /// `max` is strictly greater than that of `min`.
    pub open spec fn is_right_spec(self) -> bool {
        &&& self.min.x.lt_spec(self.max.x)
        &&& self.min.y.lt_spec(self.max.y)
        &&& self.min.z.lt_spec(self.max.z)
    }

    /// Checks if `Aabb` is right, i.e. `max` > `min` on each of the three
    /// axes.
    pub fn is_right(&self) -> (r: bool)
        ensures
            r == self.is_right_spec(),
    {
        self.min.x.lt(self.max.x) && self.min.y.lt(self.max.y) && self.min.z.lt(self.max.z)
    }

    /// The box with `min` and `max` exchanged.
    pub open spec fn inversed_spec(self) -> Self {
        Aabb3 { min: self.max, max: self.min }
    }

    /// Swaps `min`, `max`
    pub fn inverse(&mut self)
        ensures
            *final(self) == old(self).inversed_spec(),
    {
        let min = self.min;
        self.min = self.max;
        self.max = min;
    }

    /// Returns inversed copy of `Aabb`, i.e. with `min`, `max` swapped.
    pub fn inversed(self) -> (r: Self)
        ensures
            r == self.inversed_spec(),
    {
        Self::from_min_max(self.max, self.min)
    }

    /// The volume: the product of the components of `max - min`.
    pub open spec fn volume_spec(self) -> F {
        self.max.sub_spec(self.min).product_spec()
    }

    /// Returns the volume of the bounding box.
    pub fn volume(&self) -> (r: F)
        ensures
            r == self.volume_spec(),
    {
        let dv = self.max - self.min;
        dv.product()
    }

    /// Whether `value` lies in the closed interval from `low` to `high`.
    pub open spec fn between_spec(low: F, value: F, high: F) -> bool {
        &&& low.lt_spec(value) || low.eq_spec(value)
        &&& value.lt_spec(high) || value.eq_spec(high)
    }

    /// Decides whether `value` lies in the closed interval from `low` to
    /// `high`.
    pub fn between(low: F, value: F, high: F) -> (r: bool)
        ensures
            r == Self::between_spec(low, value, high),
    {
        (low.lt(value) || low.eq(value)) && (value.lt(high) || value.eq(high))
    }

    /// Whether `point` lies in the box, the faces included: on each of the
    /// three axes its component lies between those of `min` and `max`.
    pub open spec fn contains_spec(self, point: Vector3<F>) -> bool {
        &&& Self::between_spec(self.min.x, point.x, self.max.x)
        &&& Self::between_spec(self.min.y, point.y, self.max.y)
        &&& Self::between_spec(self.min.z, point.z, self.max.z)
    }

    /// Checks if `Aabb` contains a point.
    pub fn contains(&self, point: Vector3<F>) -> (r: bool)
        ensures
            r == self.contains_spec(point),
    {
        Self::between(self.min.x, point.x, self.max.x) && Self::between(
            self.min.y,
            point.y,
            self.max.y,
        ) && Self::between(self.min.z, point.z, self.max.z)
    }
}

} // verus!
