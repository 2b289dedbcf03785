//! Angle units as types, and angles tagged with them.

use vstd::prelude::*;
use crate::float::Float;
use core::cmp::Ordering;
use core::marker::PhantomData;

mod sealed;

verus! {

/// Radians marker type.
#[derive(Clone, Copy, Debug)]
pub struct Rad;

/// Degrees marker type.
#[derive(Clone, Copy, Debug)]
pub struct Deg;

impl sealed::Sealed for Rad {
}

impl sealed::Sealed for Deg {
}

/// Helper trait to distinguish between radians and degrees. It is sealed:
/// the two units of this module are the only ones.
pub trait Measure: sealed::Sealed + Copy {
}

impl Measure for Rad {
}

impl Measure for Deg {
}

/// Angle with marker to indicate its measure. The unit is part of the type,
/// so an angle in degrees cannot be passed where radians are expected.
#[derive(Copy, Debug)]
pub struct Angle<F: Float, M: Measure>(pub F, pub PhantomData<M>);

impl<F: Float, M: Measure> Clone for Angle<F, M> {
    fn clone(&self) -> (r: Self)
        ensures
            r == *self,
    {
        *self
    }
}

impl<F: Float, M: Measure> Angle<F, M> {
    /// Tags `value` with the unit `M`.
    pub fn new(value: F) -> (r: Self)
        ensures
            r.0 == value,
    {
        Angle(value, PhantomData)
    }

    /// Returns the number under the tag.
    pub fn value(&self) -> (r: F)
        ensures
            r == self.0,
    {
        self.0
    }

    /// Whether the two angles are numerically equal.
    pub open spec fn eq_spec(self, other: Self) -> bool {
        self.0.eq_spec(other.0)
    }

    /// Compares the two angles numerically.
    pub fn eq(&self, other: &Self) -> (r: bool)
        ensures
            r == self.eq_spec(*other),
    {
        self.0.eq(other.0)
    }

    /// Whether `self` is numerically less than `other`.
    pub open spec fn lt_spec(self, other: Self) -> bool {
        self.0.lt_spec(other.0)
    }

    /// Decides whether `self` is numerically less than `other`.
    pub fn lt(&self, other: &Self) -> (r: bool)
        ensures
            r == self.lt_spec(*other),
    {
        self.0.lt(other.0)
    }

    /// Compares the two angles numerically. Equal numbers are `Equal`; else
    /// the lesser one is `Less` than the other; and two numbers neither of
    /// which is less than the other (one of them is not a number) are not
    /// comparable.
    pub fn partial_cmp(&self, other: &Self) -> (r: Option<Ordering>)
        ensures
            self.eq_spec(*other) ==> r == Some(Ordering::Equal),
            !self.eq_spec(*other) && self.lt_spec(*other) ==> r == Some(Ordering::Less),
            !self.eq_spec(*other) && !self.lt_spec(*other) && other.lt_spec(*self) ==> r == Some(
                Ordering::Greater,
            ),
            !self.eq_spec(*other) && !self.lt_spec(*other) && !other.lt_spec(*self) ==> r.is_none(),
    {
        if self.0.eq(other.0) {
            Some(Ordering::Equal)
        } else if self.0.lt(other.0) {
            Some(Ordering::Less)
        } else if other.0.lt(self.0) {
            Some(Ordering::Greater)
        } else {
            None
        }
    }
}

impl<F: Float, M: Measure> From<F> for Angle<F, M> {
    /// Tags `value` with the unit `M`.
    fn from(value: F) -> (r: Self)
        ensures
            r.0 == value,
    {
        Angle(value, PhantomData)
    }
}

impl<F: Float, M: Measure> vstd::std_specs::convert::FromSpecImpl<F> for Angle<F, M> {
    open spec fn obeys_from_spec() -> bool {
        true
    }

    open spec fn from_spec(value: F) -> Self {
        Angle(value, PhantomData)
    }
}

} // verus!
