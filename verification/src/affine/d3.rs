//! Affine transformations of three-dimensional space.

use vstd::prelude::*;
use crate::float::Float;
use crate::matrix::d3::Matrix3;
use crate::matrix::d4::Matrix4;
use crate::quaternion::Quaternion;
use crate::vector::d3::Vector3;

verus! {

/// Affine transformation in 3D space: a linear part followed by a
/// translation.
#[derive(Copy, Debug)]
pub struct Affine3<F: Float> {
    pub translation: Vector3<F>,
    pub matrix: Matrix3<F>,
}

impl<F: Float> Clone for Affine3<F> {
    fn clone(&self) -> (r: Self)
        ensures
            r == *self,
    {
        *self
    }
}

impl<F: Float> Affine3<F> {
    /// The transformation that scales, then rotates, then translates: its
    /// linear part is the product of the rotation matrix and the scaling.
    pub open spec fn new_scale_rotation_translation_spec(
        scale: Vector3<F>,
        rotation: Quaternion<F>,
        translation: Vector3<F>,
    ) -> Self {
        Affine3 {
            translation,
            matrix: rotation.into_matrix3_spec().mul_spec(Matrix3::new_scale_spec(scale)),
        }
    }

    /// Creates the transformation that scales, then rotates, then translates.
    pub fn new_scale_rotation_translation(
        scale: Vector3<F>,
        rotation: Quaternion<F>,
        translation: Vector3<F>,
    ) -> (r: Self)
        ensures
            r == Self::new_scale_rotation_translation_spec(scale, rotation, translation),
    {
        Affine3 { translation, matrix: rotation.into_matrix3() * Matrix3::new_scale(scale) }
    }

    /// Creates the transformation that rotates, then translates.
    pub fn new_rotation_translation(rotation: Quaternion<F>, translation: Vector3<F>) -> (r: Self)
        ensures
            r == (Affine3 { translation, matrix: rotation.into_matrix3_spec() }),
    {
        Affine3 { translation, matrix: rotation.into_matrix3() }
    }

    /// Creates the transformation that scales, then rotates.
    pub fn new_scale_rotation(scale: Vector3<F>, rotation: Quaternion<F>) -> (r: Self)
        ensures
            r == Self::new_scale_rotation_translation_spec(scale, rotation, Vector3::zero_spec()),
    {
        Affine3 {
            translation: Vector3::zero(),
            matrix: rotation.into_matrix3() * Matrix3::new_scale(scale),
        }
    }

    /// Creates the transformation that scales, then translates.
    pub fn new_scale_translation(scale: Vector3<F>, translation: Vector3<F>) -> (r: Self)
        ensures
            r == (Affine3 { translation, matrix: Matrix3::new_scale_spec(scale) }),
    {
        Affine3 { translation, matrix: Matrix3::new_scale(scale) }
    }

    /// Creates the translation by `translation`.
    pub fn new_translation(translation: Vector3<F>) -> (r: Self)
        ensures
            r == (Affine3 { translation, matrix: Matrix3::identity_spec() }),
    {
        Affine3 { translation, matrix: Matrix3::identity() }
    }

    /// Creates the rotation given by a quaternion.
    pub fn new_rotation(rotation: Quaternion<F>) -> (r: Self)
        ensures
            r == (Affine3 {
                translation: Vector3::zero_spec(),
                matrix: rotation.into_matrix3_spec(),
            }),
    {
        Affine3 { translation: Vector3::zero(), matrix: Matrix3::from_quaternion(rotation) }
    }

    /// Creates the scaling along the three axes by the components of `scale`.
    pub fn new_scale(scale: Vector3<F>) -> (r: Self)
        ensures
            r == (Affine3 {
                translation: Vector3::zero_spec(),
                matrix: Matrix3::new_diagonal_spec(scale),
            }),
    {
        Affine3 { translation: Vector3::zero(), matrix: Matrix3::new_diagonal(scale) }
    }

    /// The transformation in homogeneous coordinates: the product of the
    /// translation matrix and the linear part extended by a last row and
    /// column of the identity.
    pub open spec fn into_matrix4_spec(self) -> Matrix4<F> {
        Matrix4::new_translation_spec(self.translation).mul_spec(
            self.matrix.extend_spec(Vector3::zero_spec(), Vector3::zero_spec(), F::one_spec()),
        )
    }

    /// Converts the transformation to a 4x4 matrix acting on homogeneous
    /// coordinates.
    pub fn into_matrix4(&self) -> (r: Matrix4<F>)
        ensures
            r == self.into_matrix4_spec(),
    {
        Matrix4::new_translation(self.translation) * self.matrix.extend(
            Vector3::zero(),
            Vector3::zero(),
            F::one(),
        )
    }

    /// The image of a vector: the linear part applied to it, then the
    /// translation added.
    pub open spec fn apply_spec(self, vector: Vector3<F>) -> Vector3<F> {
        self.matrix.mul_vector_spec(vector).add_spec(self.translation)
    }

    /// Applies the transformation to a vector.
    pub fn apply(&self, vector: Vector3<F>) -> (r: Vector3<F>)
        ensures
            r == self.apply_spec(vector),
    {
        (self.matrix * vector) + self.translation
    }
}

} // verus!
