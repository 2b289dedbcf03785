//! The seal of [`super::Measure`].

use vstd::prelude::*;

verus! {

/// Restricts `Measure` to the units of the parent module: the trait cannot
/// be named, and so not implemented, from outside.
pub trait Sealed {
}

} // verus!
