//! Square matrices of dimension two, three and four.

pub mod d2;
pub mod d3;
pub mod d4;
pub mod elimination;
pub mod exact;

pub use d2::Matrix2;
pub use d3::Matrix3;
pub use d4::Matrix4;
