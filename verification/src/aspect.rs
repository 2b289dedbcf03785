//! Aspect ratios.

use vstd::prelude::*;
use crate::float::Float;

verus! {

/// Aspect ratio.
#[derive(Copy, Debug, PartialEq)]
pub struct Aspect<F: Float> {
    pub height: F,
    pub width: F,
}

impl<F: Float> Clone for Aspect<F> {
    fn clone(&self) -> (r: Self)
        ensures
            r == *self,
    {
        *self
    }
}

impl<F: Float> Aspect<F> {
    /// New aspect ratio with `width`, `height`.
    pub fn new(width: F, height: F) -> (r: Self)
        ensures
            r == (Aspect { height, width }),
    {
        Aspect { height, width }
    }

    /// Creates a new aspect ratio with `width` = `ratio`, `height` = `1`.
    pub fn new_w_h(ratio: F) -> (r: Self)
        ensures
            r == (Aspect { height: F::one_spec(), width: ratio }),
    {
        Aspect { height: F::one(), width: ratio }
    }

    /// Creates a new aspect ratio with `width` = `1`, `height` = `ratio`.
    pub fn new_h_w(ratio: F) -> (r: Self)
        ensures
            r == (Aspect { height: ratio, width: F::one_spec() }),
    {
        Aspect { height: ratio, width: F::one() }
    }

    /// Returns `width` divided by `height`.
    pub fn w_h(&self) -> (r: F)
        ensures
            r == self.width.div_spec(self.height),
    {
        self.width.div(self.height)
    }

    /// Returns `height` divided by `width`.
    pub fn h_w(&self) -> (r: F)
        ensures
            r == self.height.div_spec(self.width),
    {
        self.height.div(self.width)
    }
}

} // verus!
