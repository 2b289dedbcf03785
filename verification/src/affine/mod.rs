//! Affine transformations.

pub mod d3;

pub use d3::Affine3;
