//! Axis-aligned bounding boxes.

pub mod d3;

pub use d3::Aabb3;
