//! Linear-algebra primitives over an abstract floating-point scalar:
//! vectors, square matrices, quaternions, complex numbers and Euler angles,
//! with Gaussian elimination and the conversions between the representations
//! of a rotation.
//!
//! # How the contracts read
//!
//! Every type is generic over a scalar that implements [`Float`]. The trait
//! pairs each operation with a specification function that names its
//! result, and the contracts of the library are equations over those names.
//! A contract therefore says exactly which scalar operations a function
//! applies, to which operands and in which order:
//!
//! - closed formulas (dot and cross products, the Hamilton product, the
//!   matrix of a quaternion, Rodrigues' formula, ...) are given by a
//!   specification function that is the formula;
//! - matrices are viewed as sequences of rows, and the accessors and
//!   setters are specified on that view;
//! - elimination, rank, determinant and inversion are specified in
//!   [`matrix::elimination`] by recursive definitions of the elimination
//!   steps, which the in-place loops are proved to compute.
//!
//! Nothing is assumed of the arithmetic, since floating-point arithmetic
//! obeys no algebraic law exactly. What can be said regardless is proved:
//! the row-echelon form is a staircase with exact zeros below its pivots,
//! and the rank lies between the number of pivots and the dimension.
//!
//! # Exact arithmetic
//!
//! Whether the algorithms are right is a question about exact arithmetic,
//! and it is answered under the hypothesis that the scalar is a field
//! ([`ring`]):
//!
//! - inversion by Gauss-Jordan reduction yields the inverse, from both
//!   sides, of every matrix that has one ([`matrix::exact`]);
//! - the product of matrices is associative, and the determinant of a
//!   product of 2x2 matrices is the product of the determinants;
//! - where the elementary functions are exact as well, the round trips
//!   between a rotation matrix or a quaternion and its axis and angle give
//!   back what they started from;
//! - inverse interpolation undoes interpolation.
//!
//! # Preconditions
//!
//! No function of this crate panics. Where a call would be a programming
//! error (a row number out of range, the checked inversion of a matrix
//! that is not invertible), the condition is a precondition of the function.

pub mod aabb;
pub mod affine;
pub mod angle;
pub mod aspect;
pub mod complex;
pub mod euler;
pub mod float;
pub mod matrix;
pub mod quaternion;
pub mod ring;
pub mod vector;

pub use aabb::Aabb3;
pub use affine::Affine3;
pub use angle::{Angle, Deg, Measure, Rad};
pub use aspect::Aspect;
pub use complex::Complex;
pub use euler::Euler;
pub use float::Float;
pub use matrix::{Matrix2, Matrix3, Matrix4};
pub use quaternion::Quaternion;
pub use vector::{Vector2, Vector3, Vector4};
