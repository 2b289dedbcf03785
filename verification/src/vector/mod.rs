//! Fixed-size vectors of two, three and four components.

pub mod d2;
pub mod d3;
pub mod d4;

pub use d2::Vector2;
pub use d3::Vector3;
pub use d4::Vector4;
