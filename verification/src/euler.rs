//! Euler angles, tagged with their unit.

use vstd::prelude::*;
use crate::angle::{Deg, Measure, Rad};
use crate::float::Float;
use core::marker::PhantomData;

verus! {

/// Euler angles
#[derive(Copy, Debug)]
pub struct Euler<A: Measure, F: Float> {
    /// Rotation around Z axis.
    pub yaw: F,
    /// Rotation around X axis.
    pub pitch: F,
    /// Rotation around Y axis.
    pub roll: F,
    /// The unit of the three angles.
    pub unit: PhantomData<A>,
}

impl<A: Measure, F: Float> Clone for Euler<A, F> {
    fn clone(&self) -> (r: Self)
        ensures
            r == *self,
    {
        *self
    }
}

impl<A: Measure, F: Float> Euler<A, F> {
    /// Creates new euler angles from `yaw`, `pitch`, `roll`.
    pub fn new(yaw: F, pitch: F, roll: F) -> (r: Self)
        ensures
            r == (Euler::<A, F> { yaw, pitch, roll, unit: PhantomData }),
    {
        Euler { yaw, pitch, roll, unit: PhantomData }
    }

    /// The angle-wise sum.
    pub open spec fn add_spec(self, rhs: Self) -> Self {
        Euler {
            yaw: self.yaw.add_spec(rhs.yaw),
            pitch: self.pitch.add_spec(rhs.pitch),
            roll: self.roll.add_spec(rhs.roll),
            unit: PhantomData,
        }
    }

    /// The angle-wise difference.
    pub open spec fn sub_spec(self, rhs: Self) -> Self {
        Euler {
            yaw: self.yaw.sub_spec(rhs.yaw),
            pitch: self.pitch.sub_spec(rhs.pitch),
            roll: self.roll.sub_spec(rhs.roll),
            unit: PhantomData,
        }
    }

    /// The triple with every angle multiplied by `rhs`.
    pub open spec fn scaled_spec(self, rhs: F) -> Self {
        Euler {
            yaw: self.yaw.mul_spec(rhs),
            pitch: self.pitch.mul_spec(rhs),
            roll: self.roll.mul_spec(rhs),
            unit: PhantomData,
        }
    }

    /// The triple with every angle divided by `rhs`.
    pub open spec fn div_spec(self, rhs: F) -> Self {
        Euler {
            yaw: self.yaw.div_spec(rhs),
            pitch: self.pitch.div_spec(rhs),
            roll: self.roll.div_spec(rhs),
            unit: PhantomData,
        }
    }

    /// The triple with every angle negated.
    pub open spec fn neg_spec(self) -> Self {
        Euler {
            yaw: self.yaw.neg_spec(),
            pitch: self.pitch.neg_spec(),
            roll: self.roll.neg_spec(),
            unit: PhantomData,
        }
    }
}

impl<F: Float> Euler<Rad, F> {
    /// The same three angles, each converted from radians to degrees.
    pub open spec fn to_degrees_spec(self) -> Euler<Deg, F> {
        Euler {
            yaw: self.yaw.to_degrees_spec(),
            pitch: self.pitch.to_degrees_spec(),
            roll: self.roll.to_degrees_spec(),
            unit: PhantomData,
        }
    }

    /// Converts radians to degrees.
    pub fn to_degrees(self) -> (r: Euler<Deg, F>)
        ensures
            r == self.to_degrees_spec(),
    {
        Euler {
            yaw: self.yaw.to_degrees(),
            pitch: self.pitch.to_degrees(),
            roll: self.roll.to_degrees(),
            unit: PhantomData,
        }
    }
}

impl<F: Float> Euler<Deg, F> {
    /// The same three angles, each converted from degrees to radians.
    pub open spec fn to_radians_spec(self) -> Euler<Rad, F> {
        Euler {
            yaw: self.yaw.to_radians_spec(),
            pitch: self.pitch.to_radians_spec(),
            roll: self.roll.to_radians_spec(),
            unit: PhantomData,
        }
    }

    /// Converts degrees to radians.
    pub fn to_radians(self) -> (r: Euler<Rad, F>)
        ensures
            r == self.to_radians_spec(),
    {
        Euler {
            yaw: self.yaw.to_radians(),
            pitch: self.pitch.to_radians(),
            roll: self.roll.to_radians(),
            unit: PhantomData,
        }
    }
}

impl<A: Measure, F: Float> core::ops::Add for Euler<A, F> {
    type Output = Self;

    /// Adds angle by angle.
    fn add(self, rhs: Self) -> (r: Self)
        ensures
            r == self.add_spec(rhs),
    {
        Euler {
            yaw: self.yaw.add(rhs.yaw),
            pitch: self.pitch.add(rhs.pitch),
            roll: self.roll.add(rhs.roll),
            unit: PhantomData,
        }
    }
}

impl<A: Measure, F: Float> vstd::std_specs::ops::AddSpecImpl for Euler<A, F> {
    open spec fn obeys_add_spec() -> bool {
        true
    }

    open spec fn add_req(self, rhs: Self) -> bool {
        true
    }

    open spec fn add_spec(self, rhs: Self) -> Self {
        Euler::add_spec(self, rhs)
    }
}

impl<A: Measure, F: Float> core::ops::AddAssign for Euler<A, F> {
    /// Adds `rhs`, angle by angle.
    fn add_assign(&mut self, rhs: Self)
        ensures
            *final(self) == old(self).add_spec(rhs),
    {
        self.yaw = self.yaw.add(rhs.yaw);
        self.pitch = self.pitch.add(rhs.pitch);
        self.roll = self.roll.add(rhs.roll);
    }
}

impl<A: Measure, F: Float> core::ops::Sub for Euler<A, F> {
    type Output = Self;

    /// Subtracts angle by angle.
    fn sub(self, rhs: Self) -> (r: Self)
        ensures
            r == self.sub_spec(rhs),
    {
        Euler {
            yaw: self.yaw.sub(rhs.yaw),
            pitch: self.pitch.sub(rhs.pitch),
            roll: self.roll.sub(rhs.roll),
            unit: PhantomData,
        }
    }
}

impl<A: Measure, F: Float> vstd::std_specs::ops::SubSpecImpl for Euler<A, F> {
    open spec fn obeys_sub_spec() -> bool {
        true
    }

    open spec fn sub_req(self, rhs: Self) -> bool {
        true
    }

    open spec fn sub_spec(self, rhs: Self) -> Self {
        Euler::sub_spec(self, rhs)
    }
}

impl<A: Measure, F: Float> core::ops::SubAssign for Euler<A, F> {
    /// Subtracts `rhs`, angle by angle.
    fn sub_assign(&mut self, rhs: Self)
        ensures
            *final(self) == old(self).sub_spec(rhs),
    {
        self.yaw = self.yaw.sub(rhs.yaw);
        self.pitch = self.pitch.sub(rhs.pitch);
        self.roll = self.roll.sub(rhs.roll);
    }
}

impl<A: Measure, F: Float> core::ops::Mul<F> for Euler<A, F> {
    type Output = Self;

    /// Multiplies every angle by `rhs`.
    fn mul(self, rhs: F) -> (r: Self)
        ensures
            r == self.scaled_spec(rhs),
    {
        Euler {
            yaw: self.yaw.mul(rhs),
            pitch: self.pitch.mul(rhs),
            roll: self.roll.mul(rhs),
            unit: PhantomData,
        }
    }
}

impl<A: Measure, F: Float> vstd::std_specs::ops::MulSpecImpl<F> for Euler<A, F> {
    open spec fn obeys_mul_spec() -> bool {
        true
    }

    open spec fn mul_req(self, rhs: F) -> bool {
        true
    }

    open spec fn mul_spec(self, rhs: F) -> Self {
        Euler::scaled_spec(self, rhs)
    }
}

impl<A: Measure, F: Float> core::ops::MulAssign<F> for Euler<A, F> {
    /// Multiplies every angle by `rhs`.
    fn mul_assign(&mut self, rhs: F)
        ensures
            *final(self) == old(self).scaled_spec(rhs),
    {
        self.yaw = self.yaw.mul(rhs);
        self.pitch = self.pitch.mul(rhs);
        self.roll = self.roll.mul(rhs);
    }
}

impl<A: Measure, F: Float> core::ops::Div<F> for Euler<A, F> {
    type Output = Self;

    /// Divides every angle by `rhs`.
    fn div(self, rhs: F) -> (r: Self)
        ensures
            r == self.div_spec(rhs),
    {
        Euler {
            yaw: self.yaw.div(rhs),
            pitch: self.pitch.div(rhs),
            roll: self.roll.div(rhs),
            unit: PhantomData,
        }
    }
}

impl<A: Measure, F: Float> vstd::std_specs::ops::DivSpecImpl<F> for Euler<A, F> {
    open spec fn obeys_div_spec() -> bool {
        true
    }

    open spec fn div_req(self, rhs: F) -> bool {
        true
    }

    open spec fn div_spec(self, rhs: F) -> Self {
        Euler::div_spec(self, rhs)
    }
}

impl<A: Measure, F: Float> core::ops::DivAssign<F> for Euler<A, F> {
    /// Divides every angle by `rhs`.
    fn div_assign(&mut self, rhs: F)
        ensures
            *final(self) == old(self).div_spec(rhs),
    {
        self.yaw = self.yaw.div(rhs);
        self.pitch = self.pitch.div(rhs);
        self.roll = self.roll.div(rhs);
    }
}

impl<A: Measure, F: Float> core::ops::Neg for Euler<A, F> {
    type Output = Self;

    /// Negates every angle.
    fn neg(self) -> (r: Self)
        ensures
            r == self.neg_spec(),
    {
        Euler {
            yaw: self.yaw.neg(),
            pitch: self.pitch.neg(),
            roll: self.roll.neg(),
            unit: PhantomData,
        }
    }
}

impl<A: Measure, F: Float> vstd::std_specs::ops::NegSpecImpl for Euler<A, F> {
    open spec fn obeys_neg_spec() -> bool {
        true
    }

    open spec fn neg_req(self) -> bool {
        true
    }

    open spec fn neg_spec(self) -> Self {
        Euler::neg_spec(self)
    }
}

} // verus!
