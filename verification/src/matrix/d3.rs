//! 3x3 matrices.

use vstd::prelude::*;
use crate::float::Float;
use crate::matrix::d4::Matrix4;
use crate::matrix::elimination::Grid;
use crate::quaternion::Quaternion;
use crate::vector::d3::Vector3;
use crate::vector::d4::Vector4;

verus! {

/// Row major 3x3 matrix. The view is the sequence of the rows, each the
/// sequence of its entries: `m@[i][j]` is the entry in row `i` and column `j`,
/// both counted from zero.
#[derive(Copy, Debug, PartialEq)]
pub struct Matrix3<F: Float> {
    /// First row.
    pub row1: Vector3<F>,
    /// Second row.
    pub row2: Vector3<F>,
    /// Third row.
    pub row3: Vector3<F>,
}

impl<F: Float> Clone for Matrix3<F> {
    fn clone(&self) -> (r: Self)
        ensures
            r == *self,
    {
        *self
    }
}

impl<F: Float> View for Matrix3<F> {
    type V = Seq<Seq<F>>;

    open spec fn view(&self) -> Seq<Seq<F>> {
        seq![self.row1@, self.row2@, self.row3@]
    }
}

impl<F: Float> Matrix3<F> {
    /// The matrix with all elements equal to `0`.
    pub open spec fn zero_spec() -> Self {
        Matrix3 {
            row1: Vector3::zero_spec(),
            row2: Vector3::zero_spec(),
            row3: Vector3::zero_spec(),
        }
    }

    /// Returns [`Self::zero_spec`].
    pub fn zero() -> (r: Self)
        ensures
            r == Self::zero_spec(),
    {
        Matrix3 {
            row1: Vector3::zero(),
            row2: Vector3::zero(),
            row3: Vector3::zero(),
        }
    }

    /// The matrix with all elements equal to `1`.
    pub open spec fn one_spec() -> Self {
        Matrix3 {
            row1: Vector3::one_spec(),
            row2: Vector3::one_spec(),
            row3: Vector3::one_spec(),
        }
    }

    /// Returns [`Self::one_spec`].
    pub fn one() -> (r: Self)
        ensures
            r == Self::one_spec(),
    {
        Matrix3 {
            row1: Vector3::one(),
            row2: Vector3::one(),
            row3: Vector3::one(),
        }
    }

    /// The identity matrix, with diagonal elements equal to `1` and `0` for
    /// every other.
    pub open spec fn identity_spec() -> Self {
        Matrix3 {
            row1: Vector3::unit_x_spec(),
            row2: Vector3::unit_y_spec(),
            row3: Vector3::unit_z_spec(),
        }
    }

    /// Returns [`Self::identity_spec`].
    pub fn identity() -> (r: Self)
        ensures
            r == Self::identity_spec(),
    {
        Matrix3 {
            row1: Vector3::unit_x(),
            row2: Vector3::unit_y(),
            row3: Vector3::unit_z(),
        }
    }

    /// Creates a new matrix from individual elements, given row by row.
    pub fn new(
        m11: F, m12: F, m13: F,
        m21: F, m22: F, m23: F,
        m31: F, m32: F, m33: F,
    ) -> (r: Self)
        ensures
            r == (Matrix3 {
                row1: Vector3 {
                    x: m11,
                    y: m12,
                    z: m13,
                },
                row2: Vector3 {
                    x: m21,
                    y: m22,
                    z: m23,
                },
                row3: Vector3 {
                    x: m31,
                    y: m32,
                    z: m33,
                },
            }),
    {
        Matrix3 {
            row1: Vector3 {
                x: m11,
                y: m12,
                z: m13,
            },
            row2: Vector3 {
                x: m21,
                y: m22,
                z: m23,
            },
            row3: Vector3 {
                x: m31,
                y: m32,
                z: m33,
            },
        }
    }

    /// The matrix with the elements of `diag` on the diagonal and `0`
    /// everywhere else.
    pub open spec fn new_diagonal_spec(diag: Vector3<F>) -> Self {
        Matrix3 {
            row1: Vector3 {
                x: diag.x,
                y: F::zero_spec(),
                z: F::zero_spec(),
            },
            row2: Vector3 {
                x: F::zero_spec(),
                y: diag.y,
                z: F::zero_spec(),
            },
            row3: Vector3 {
                x: F::zero_spec(),
                y: F::zero_spec(),
                z: diag.z,
            },
        }
    }

    /// Creates a new matrix from diagonal vector. All other elements are equal
    /// to `0`.
    pub fn new_diagonal(diag: Vector3<F>) -> (r: Self)
        ensures
            r == Self::new_diagonal_spec(diag),
    {
        Matrix3 {
            row1: Vector3 {
                x: diag.x,
                y: F::zero(),
                z: F::zero(),
            },
            row2: Vector3 {
                x: F::zero(),
                y: diag.y,
                z: F::zero(),
            },
            row3: Vector3 {
                x: F::zero(),
                y: F::zero(),
                z: diag.z,
            },
        }
    }

    /// The 4x4 matrix with this matrix in the upper left block, `right` as the
    /// rest of the last column, `bottom` as the rest of the last row and
    /// `corner` as the last diagonal element.
    pub open spec fn extend_spec(self, bottom: Vector3<F>, right: Vector3<F>, corner: F) -> Matrix4<F> {
        Matrix4 {
            row1: Vector4 {
                x: self.row1.x,
                y: self.row1.y,
                z: self.row1.z,
                w: right.x,
            },
            row2: Vector4 {
                x: self.row2.x,
                y: self.row2.y,
                z: self.row2.z,
                w: right.y,
            },
            row3: Vector4 {
                x: self.row3.x,
                y: self.row3.y,
                z: self.row3.z,
                w: right.z,
            },
            row4: Vector4 {
                x: bottom.x,
                y: bottom.y,
                z: bottom.z,
                w: corner,
            },
        }
    }

    /// Extends matrix by adding a bottom and right vectors and a corner to form
    /// 4x4 matrix.
    pub fn extend(&self, bottom: Vector3<F>, right: Vector3<F>, corner: F) -> (r: Matrix4<F>)
        ensures
            r == self.extend_spec(bottom, right, corner),
    {
        Matrix4 {
            row1: Vector4 {
                x: self.row1.x,
                y: self.row1.y,
                z: self.row1.z,
                w: right.x,
            },
            row2: Vector4 {
                x: self.row2.x,
                y: self.row2.y,
                z: self.row2.z,
                w: right.y,
            },
            row3: Vector4 {
                x: self.row3.x,
                y: self.row3.y,
                z: self.row3.z,
                w: right.z,
            },
            row4: Vector4 {
                x: bottom.x,
                y: bottom.y,
                z: bottom.z,
                w: corner,
            },
        }
    }

    /// Creates a matrix from individual rows.
    pub fn from_rows(row1: Vector3<F>, row2: Vector3<F>, row3: Vector3<F>) -> (r: Self)
        ensures
            r == (Matrix3 { row1, row2, row3 }),
    {
        Matrix3 { row1, row2, row3 }
    }

    /// The matrix whose columns are the given vectors.
    pub open spec fn from_columns_spec(col1: Vector3<F>, col2: Vector3<F>, col3: Vector3<F>) -> Self {
        Matrix3 {
            row1: Vector3 {
                x: col1.x,
                y: col2.x,
                z: col3.x,
            },
            row2: Vector3 {
                x: col1.y,
                y: col2.y,
                z: col3.y,
            },
            row3: Vector3 {
                x: col1.z,
                y: col2.z,
                z: col3.z,
            },
        }
    }

    /// Creates a matrix from individual columns.
    pub fn from_columns(col1: Vector3<F>, col2: Vector3<F>, col3: Vector3<F>) -> (r: Self)
        ensures
            r == Self::from_columns_spec(col1, col2, col3),
    {
        Matrix3 {
            row1: Vector3 {
                x: col1.x,
                y: col2.x,
                z: col3.x,
            },
            row2: Vector3 {
                x: col1.y,
                y: col2.y,
                z: col3.y,
            },
            row3: Vector3 {
                x: col1.z,
                y: col2.z,
                z: col3.z,
            },
        }
    }

    /// The row number `n`, counted from one.
    pub open spec fn row_spec(self, n: int) -> Vector3<F>
        recommends
            1 <= n <= 3,
    {
        if n == 1 {
            self.row1
        } else if n == 2 {
            self.row2
        } else {
            self.row3
        }
    }

    /// Returns the nth row, counted from one.
    pub fn row(&self, n: usize) -> (r: Vector3<F>)
        requires
            1 <= n <= 3,
        ensures
            r == self.row_spec(n as int),
            r@ == self@[n - 1],
    {
        if n == 1 {
            self.row1
        } else if n == 2 {
            self.row2
        } else {
            self.row3
        }
    }

    /// Sets the nth row, counted from one, and leaves the other rows as they
    /// are.
    pub fn set_row(&mut self, n: usize, row: Vector3<F>)
        requires
            1 <= n <= 3,
        ensures
            final(self)@ == old(self)@.update(n - 1, row@),
    {
        if n == 1 {
            self.row1 = row;
        } else if n == 2 {
            self.row2 = row;
        } else {
            self.row3 = row;
        }
        assert(self@ =~= old(self)@.update(n - 1, row@));
    }

    /// The column number `n`, counted from one.
    pub open spec fn column_spec(self, n: int) -> Vector3<F>
        recommends
            1 <= n <= 3,
    {
        if n == 1 {
            Vector3 {
                x: self.row1.x,
                y: self.row2.x,
                z: self.row3.x,
            }
        } else if n == 2 {
            Vector3 {
                x: self.row1.y,
                y: self.row2.y,
                z: self.row3.y,
            }
        } else {
            Vector3 {
                x: self.row1.z,
                y: self.row2.z,
                z: self.row3.z,
            }
        }
    }

    /// Returns the nth column, counted from one.
    pub fn column(&self, n: usize) -> (r: Vector3<F>)
        requires
            1 <= n <= 3,
        ensures
            r == self.column_spec(n as int),
            r@ == Seq::new(3, |i: int| self@[i][n - 1]),
    {
        let r = if n == 1 {
            Vector3 {
                x: self.row1.x,
                y: self.row2.x,
                z: self.row3.x,
            }
        } else if n == 2 {
            Vector3 {
                x: self.row1.y,
                y: self.row2.y,
                z: self.row3.y,
            }
        } else {
            Vector3 {
                x: self.row1.z,
                y: self.row2.z,
                z: self.row3.z,
            }
        };
        proof {
            assert(r@ =~= Seq::new(3, |i: int| self@[i][n - 1]));
        }
        r
    }

    /// Sets the nth column, counted from one, to the components of `column`
    /// from top to bottom, and leaves the other columns as they are.
    pub fn set_column(&mut self, n: usize, column: Vector3<F>)
        requires
            1 <= n <= 3,
        ensures
            final(self)@ == Seq::new(3, |i: int| old(self)@[i].update(n - 1, column@[i])),
    {
        if n == 1 {
            self.row1.x = column.x;
            self.row2.x = column.y;
            self.row3.x = column.z;
        } else if n == 2 {
            self.row1.y = column.x;
            self.row2.y = column.y;
            self.row3.y = column.z;
        } else {
            self.row1.z = column.x;
            self.row2.z = column.y;
            self.row3.z = column.z;
        }
        assert(self@ =~~= Seq::new(3, |i: int| old(self)@[i].update(n - 1, column@[i])));
    }

    /// The diagonal, from the upper left to the lower right.
    pub open spec fn diagonal_spec(self) -> Vector3<F> {
        Vector3 {
            x: self.row1.x,
            y: self.row2.y,
            z: self.row3.z,
        }
    }

    /// Returns matrix's diagonal.
    pub fn diagonal(&self) -> (r: Vector3<F>)
        ensures
            r == self.diagonal_spec(),
            forall|i: int| 0 <= i < 3 ==> r@[i] == self@[i][i],
    {
        Vector3 {
            x: self.row1.x,
            y: self.row2.y,
            z: self.row3.z,
        }
    }

    /// Sets matrix's diagonal and leaves the elements off the diagonal as they
    /// are.
    pub fn set_diagonal(&mut self, new: Vector3<F>)
        ensures
            final(self)@ == Seq::new(3, |i: int| old(self)@[i].update(i, new@[i])),
    {
        self.row1.x = new.x;
        self.row2.y = new.y;
        self.row3.z = new.z;
        assert(self@ =~~= Seq::new(3, |i: int| old(self)@[i].update(i, new@[i])));
    }

    /// The transpose: rows and columns exchanged.
    pub open spec fn transposed_spec(self) -> Self {
        Matrix3 {
            row1: Vector3 {
                x: self.row1.x,
                y: self.row2.x,
                z: self.row3.x,
            },
            row2: Vector3 {
                x: self.row1.y,
                y: self.row2.y,
                z: self.row3.y,
            },
            row3: Vector3 {
                x: self.row1.z,
                y: self.row2.z,
                z: self.row3.z,
            },
        }
    }

    /// Returns a transposed copy of the matrix.
    pub fn transposed(&self) -> (r: Self)
        ensures
            r == self.transposed_spec(),
            forall|i: int, j: int| 0 <= i < 3 && 0 <= j < 3 ==> r@[i][j] == self@[j][i],
    {
        Matrix3 {
            row1: Vector3 {
                x: self.row1.x,
                y: self.row2.x,
                z: self.row3.x,
            },
            row2: Vector3 {
                x: self.row1.y,
                y: self.row2.y,
                z: self.row3.y,
            },
            row3: Vector3 {
                x: self.row1.z,
                y: self.row2.z,
                z: self.row3.z,
            },
        }
    }

    /// Transposes the matrix, swapping rows and columns.
    pub fn transpose(&mut self)
        ensures
            *final(self) == old(self).transposed_spec(),
    {
        *self = self.transposed();
    }

    /// The matrix product `self * rhs`: the entry in row `i` and column `j` is
    /// the dot product of row `i` of `self` and column `j` of `rhs`.
    pub open spec fn mul_spec(self, rhs: Self) -> Self {
        Matrix3 {
            row1: Vector3 {
                x: self.row1.dot_spec(rhs.column_spec(1)),
                y: self.row1.dot_spec(rhs.column_spec(2)),
                z: self.row1.dot_spec(rhs.column_spec(3)),
            },
            row2: Vector3 {
                x: self.row2.dot_spec(rhs.column_spec(1)),
                y: self.row2.dot_spec(rhs.column_spec(2)),
                z: self.row2.dot_spec(rhs.column_spec(3)),
            },
            row3: Vector3 {
                x: self.row3.dot_spec(rhs.column_spec(1)),
                y: self.row3.dot_spec(rhs.column_spec(2)),
                z: self.row3.dot_spec(rhs.column_spec(3)),
            },
        }
    }

    /// The product of the matrix and a column vector: component `i` is the dot
    /// product of row `i` and the vector.
    pub open spec fn mul_vector_spec(self, rhs: Vector3<F>) -> Vector3<F> {
        Vector3 {
            x: self.row1.dot_spec(rhs),
            y: self.row2.dot_spec(rhs),
            z: self.row3.dot_spec(rhs),
        }
    }

    /// The element-wise sum.
    pub open spec fn add_spec(self, rhs: Self) -> Self {
        Matrix3 {
            row1: self.row1.add_spec(rhs.row1),
            row2: self.row2.add_spec(rhs.row2),
            row3: self.row3.add_spec(rhs.row3),
        }
    }

    /// The element-wise difference.
    pub open spec fn sub_spec(self, rhs: Self) -> Self {
        Matrix3 {
            row1: self.row1.sub_spec(rhs.row1),
            row2: self.row2.sub_spec(rhs.row2),
            row3: self.row3.sub_spec(rhs.row3),
        }
    }

    /// The matrix with every element multiplied by `rhs`.
    pub open spec fn scaled_spec(self, rhs: F) -> Self {
        Matrix3 {
            row1: self.row1.scaled_spec(rhs),
            row2: self.row2.scaled_spec(rhs),
            row3: self.row3.scaled_spec(rhs),
        }
    }

    /// The matrix with every element divided by `rhs`.
    pub open spec fn div_spec(self, rhs: F) -> Self {
        Matrix3 {
            row1: self.row1.div_spec(rhs),
            row2: self.row2.div_spec(rhs),
            row3: self.row3.div_spec(rhs),
        }
    }

    /// The rotation by `angle` radians about the `X` axis.
    pub open spec fn new_rotation_x_spec(angle: F) -> Self {
        Matrix3 {
            row1: Vector3 {
                x: F::one_spec(),
                y: F::zero_spec(),
                z: F::zero_spec(),
            },
            row2: Vector3 {
                x: F::zero_spec(),
                y: angle.cos_spec(),
                z: angle.sin_spec().neg_spec(),
            },
            row3: Vector3 {
                x: F::zero_spec(),
                y: angle.sin_spec(),
                z: angle.cos_spec(),
            },
        }
    }

    /// Creates a matrix which specifies a rotation around `X` axis.
    pub fn new_rotation_x(angle: F) -> (r: Self)
        ensures
            r == Self::new_rotation_x_spec(angle),
    {
        Matrix3 {
            row1: Vector3 {
                x: F::one(),
                y: F::zero(),
                z: F::zero(),
            },
            row2: Vector3 {
                x: F::zero(),
                y: angle.cos(),
                z: angle.sin().neg(),
            },
            row3: Vector3 {
                x: F::zero(),
                y: angle.sin(),
                z: angle.cos(),
            },
        }
    }

    /// The rotation by `angle` radians about the `Y` axis.
    pub open spec fn new_rotation_y_spec(angle: F) -> Self {
        Matrix3 {
            row1: Vector3 {
                x: angle.cos_spec(),
                y: F::zero_spec(),
                z: angle.sin_spec(),
            },
            row2: Vector3 {
                x: F::zero_spec(),
                y: F::one_spec(),
                z: F::zero_spec(),
            },
            row3: Vector3 {
                x: angle.sin_spec().neg_spec(),
                y: F::zero_spec(),
                z: angle.cos_spec(),
            },
        }
    }

    /// Creates a matrix which specifies a rotation around `Y` axis.
    pub fn new_rotation_y(angle: F) -> (r: Self)
        ensures
            r == Self::new_rotation_y_spec(angle),
    {
        Matrix3 {
            row1: Vector3 {
                x: angle.cos(),
                y: F::zero(),
                z: angle.sin(),
            },
            row2: Vector3 {
                x: F::zero(),
                y: F::one(),
                z: F::zero(),
            },
            row3: Vector3 {
                x: angle.sin().neg(),
                y: F::zero(),
                z: angle.cos(),
            },
        }
    }

    /// The rotation by `angle` radians about the `Z` axis.
    pub open spec fn new_rotation_z_spec(angle: F) -> Self {
        Matrix3 {
            row1: Vector3 {
                x: angle.cos_spec(),
                y: angle.sin_spec().neg_spec(),
                z: F::zero_spec(),
            },
            row2: Vector3 {
                x: angle.sin_spec(),
                y: angle.cos_spec(),
                z: F::zero_spec(),
            },
            row3: Vector3 {
                x: F::zero_spec(),
                y: F::zero_spec(),
                z: F::one_spec(),
            },
        }
    }

    /// Creates a matrix which specifies a rotation around `Z` axis.
    pub fn new_rotation_z(angle: F) -> (r: Self)
        ensures
            r == Self::new_rotation_z_spec(angle),
    {
        Matrix3 {
            row1: Vector3 {
                x: angle.cos(),
                y: angle.sin().neg(),
                z: F::zero(),
            },
            row2: Vector3 {
                x: angle.sin(),
                y: angle.cos(),
                z: F::zero(),
            },
            row3: Vector3 {
                x: F::zero(),
                y: F::zero(),
                z: F::one(),
            },
        }
    }

    /// The rotation about `X` followed by the rotation about `Y`: the product
    /// `Ry * Rx`.
    pub open spec fn new_rotation_xy_spec(x: F, y: F) -> Self {
        Self::new_rotation_y_spec(y).mul_spec(Self::new_rotation_x_spec(x))
    }

    /// Creates a matrix which specifies a rotation around `X` and `Y` axis.
    /// Order is: `X` first, then `Y`.
    pub fn new_rotation_xy(x: F, y: F) -> (r: Self)
        ensures
            r == Self::new_rotation_xy_spec(x, y),
    {
        Self::new_rotation_y(y) * Self::new_rotation_x(x)
    }

    /// The rotation about `Z` followed by the rotation about `X`: the product
    /// `Rx * Rz`.
    pub open spec fn new_rotation_zx_spec(z: F, x: F) -> Self {
        Self::new_rotation_x_spec(x).mul_spec(Self::new_rotation_z_spec(z))
    }

    /// Creates a matrix which specifies a rotation around `X` and `Z` axis.
    /// Order is: `Z` first, then `X`.
    pub fn new_rotation_zx(z: F, x: F) -> (r: Self)
        ensures
            r == Self::new_rotation_zx_spec(z, x),
    {
        Self::new_rotation_x(x) * Self::new_rotation_z(z)
    }

    /// The rotation about `Z` followed by the rotation about `Y`: the product
    /// `Ry * Rz`.
    pub open spec fn new_rotation_zy_spec(z: F, y: F) -> Self {
        Self::new_rotation_y_spec(y).mul_spec(Self::new_rotation_z_spec(z))
    }

    /// Creates a matrix which specifies a rotation around `Y` and `Z` axis.
    /// Order is: `Z` first, then `Y`.
    pub fn new_rotation_zy(z: F, y: F) -> (r: Self)
        ensures
            r == Self::new_rotation_zy_spec(z, y),
    {
        Self::new_rotation_y(y) * Self::new_rotation_z(z)
    }

    /// The rotation about `Z`, then about `X`, then about `Y`: the product `(Ry
    /// * Rx) * Rz`.
    pub open spec fn new_rotation_zxy_spec(z: F, x: F, y: F) -> Self {
        Self::new_rotation_y_spec(y)
            .mul_spec(Self::new_rotation_x_spec(x))
            .mul_spec(Self::new_rotation_z_spec(z))
    }

    /// Creates a matrix which specifies a rotation around `X`, `Y` and `Z`
    /// axis. Order is: `Z` first, then `X`, then `Y`.
    pub fn new_rotation_zxy(z: F, x: F, y: F) -> (r: Self)
        ensures
            r == Self::new_rotation_zxy_spec(z, x, y),
    {
        (Self::new_rotation_y(y) * Self::new_rotation_x(x)) * Self::new_rotation_z(z)
    }

    /// The scaling along the three axes by the components of `scale`.
    pub open spec fn new_scale_spec(scale: Vector3<F>) -> Self {
        Self::new_diagonal_spec(scale)
    }

    /// Creates a matrix which scales along the three axes.
    pub fn new_scale(scale: Vector3<F>) -> (r: Self)
        ensures
            r == Self::new_scale_spec(scale),
    {
        Self::new_diagonal(scale)
    }

    /// The axis of the rotation: the three antisymmetric differences `(m32 -
    /// m23, m13 - m31, m21 - m12)`, normalized. For the identity and for a half
    /// turn the differences are all zero and the components are whatever the
    /// division by zero yields.
    pub open spec fn rotation_axis_spec(self) -> Vector3<F> {
        (Vector3 {
            x: self.row3.y.sub_spec(self.row2.z),
            y: self.row1.z.sub_spec(self.row3.x),
            z: self.row2.x.sub_spec(self.row1.y),
        }).normalized_spec()
    }

    /// Extracts an axis of rotation if matrix represents a rotation.
    pub fn rotation_axis(&self) -> (r: Vector3<F>)
        ensures
            r == self.rotation_axis_spec(),
    {
        (Vector3 {
            x: self.row3.y.sub(self.row2.z),
            y: self.row1.z.sub(self.row3.x),
            z: self.row2.x.sub(self.row1.y),
        }).normalized()
    }

    /// The sum of the diagonal elements.
    pub open spec fn trace_spec(self) -> F {
        self.diagonal_spec().sum_spec()
    }

    /// Sum of diagonal elements.
    pub fn trace(&self) -> (r: F)
        ensures
            r == self.trace_spec(),
    {
        self.diagonal().sum()
    }

    /// The angle of the rotation: `acos((trace - 1) / 2)`.
    pub open spec fn rotation_angle_spec(self) -> F {
        self.trace_spec().sub_spec(F::one_spec()).div_spec(F::two_spec()).acos_spec()
    }

    /// Extracts an angle of rotation if matrix represents a rotation.
    pub fn rotation_angle(&self) -> (r: F)
        ensures
            r == self.rotation_angle_spec(),
    {
        self.trace().sub(F::one()).div(F::two()).acos()
    }

    /// Extracts axis and angle of rotation if matrix represents a rotation.
    pub fn to_axis_angle(&self) -> (r: (Vector3<F>, F))
        ensures
            r == (self.rotation_axis_spec(), self.rotation_angle_spec()),
    {
        (self.rotation_axis(), self.rotation_angle())
    }

    /// The rotation by `angle` radians about `axis`, by Rodrigues' formula.
    /// With `c` and `s` the cosine and sine of the angle and `t = 1 - c`, the
    /// diagonal holds `c + x x t` and its like, and off the diagonal stand `x y
    /// t -+ z s` and their like. The axis is taken as it is given, not
    /// normalized.
    pub open spec fn from_axis_angle_spec(axis: Vector3<F>, angle: F) -> Self {
        let (x, y, z) = (axis.x, axis.y, axis.z);
        let (c, s) = (angle.cos_spec(), angle.sin_spec());
        let t = F::one_spec().sub_spec(c);
        Matrix3 {
            row1: Vector3 {
                x: c.add_spec(x.mul_spec(x).mul_spec(t)),
                y: x.mul_spec(y).mul_spec(t).sub_spec(z.mul_spec(s)),
                z: x.mul_spec(z).mul_spec(t).add_spec(y.mul_spec(s)),
            },
            row2: Vector3 {
                x: y.mul_spec(x).mul_spec(t).add_spec(z.mul_spec(s)),
                y: c.add_spec(y.mul_spec(y).mul_spec(t)),
                z: y.mul_spec(z).mul_spec(t).sub_spec(x.mul_spec(s)),
            },
            row3: Vector3 {
                x: z.mul_spec(x).mul_spec(t).sub_spec(y.mul_spec(s)),
                y: z.mul_spec(y).mul_spec(t).add_spec(x.mul_spec(s)),
                z: c.add_spec(z.mul_spec(z).mul_spec(t)),
            },
        }
    }

    /// Converts axis, angle representation to a rotation matrix that represents
    /// a rotation in 3d space around `axis` on `angle` in radians. To avoid
    /// unexpected results, use normalized axis.
    pub fn from_axis_angle(axis: Vector3<F>, angle: F) -> (r: Self)
        ensures
            r == Self::from_axis_angle_spec(axis, angle),
    {
        let (x, y, z) = (axis.x, axis.y, axis.z);
        let (c, s) = (angle.cos(), angle.sin());
        let t = F::one().sub(c);
        Matrix3 {
            row1: Vector3 {
                x: c.add(x.mul(x).mul(t)),
                y: x.mul(y).mul(t).sub(z.mul(s)),
                z: x.mul(z).mul(t).add(y.mul(s)),
            },
            row2: Vector3 {
                x: y.mul(x).mul(t).add(z.mul(s)),
                y: c.add(y.mul(y).mul(t)),
                z: y.mul(z).mul(t).sub(x.mul(s)),
            },
            row3: Vector3 {
                x: z.mul(x).mul(t).sub(y.mul(s)),
                y: z.mul(y).mul(t).add(x.mul(s)),
                z: c.add(z.mul(z).mul(t)),
            },
        }
    }

    /// Converts from a quaternion to a matrix.
    pub fn from_quaternion(quat: Quaternion<F>) -> (r: Self)
        ensures
            r == quat.into_matrix3_spec(),
    {
        quat.into_matrix3()
    }

    /// Axis and angle are recovered from the matrix they gave, in exact
    /// arithmetic with elementary functions that are exact; so the round trip
    /// from such a matrix through axis and angle gives the matrix back. The
    /// axis must be of magnitude one and the sine of the angle must not be `0`
    /// (the angle is neither `0` nor a half turn); the square root must be
    /// exact at the square of twice the sine, as it is where the sine is
    /// positive, and the arccosine must give the angle back from its cosine, as
    /// it does between `0` and a half turn.
    pub proof fn lemma_axis_angle_round_trip(axis: Vector3<F>, angle: F)
        requires
            crate::ring::is_exact_field::<F>(),
            F::two_spec() == F::one_spec().add_spec(F::one_spec()),
            F::two_spec() != F::zero_spec(),
            axis.sqr_magnitude_spec() == F::one_spec(),
            angle.sin_spec().add_spec(angle.sin_spec()) != F::zero_spec(),
            ({
                let q = angle.sin_spec().add_spec(angle.sin_spec());
                q.mul_spec(q).sqrt_spec() == q
            }),
            angle.cos_spec().acos_spec() == angle,
        ensures
            Self::from_axis_angle_spec(axis, angle).rotation_axis_spec() == axis,
            Self::from_axis_angle_spec(axis, angle).rotation_angle_spec() == angle,
            ({
                let m = Self::from_axis_angle_spec(axis, angle);
                Self::from_axis_angle_spec(m.rotation_axis_spec(), m.rotation_angle_spec()) == m
            }),
    {
        crate::ring::field_is_ring::<F>();
        let (x, y, z) = (axis.x, axis.y, axis.z);
        let (c, s) = (angle.cos_spec(), angle.sin_spec());
        let one = F::one_spec();
        let two = F::two_spec();
        let t = one.sub_spec(c);
        let q = s.add_spec(s);
        let m = Self::from_axis_angle_spec(axis, angle);
        // the antisymmetric differences are twice the sine times the axis
        crate::ring::mul_comm(z, y);
        crate::ring::sum_minus_diff(y.mul_spec(z).mul_spec(t), x.mul_spec(s));
        crate::ring::mul_comm(z, x);
        crate::ring::sum_minus_diff(x.mul_spec(z).mul_spec(t), y.mul_spec(s));
        crate::ring::mul_comm(y, x);
        crate::ring::sum_minus_diff(x.mul_spec(y).mul_spec(t), z.mul_spec(s));
        crate::ring::distrib(x, s, s);
        crate::ring::distrib(y, s, s);
        crate::ring::distrib(z, s, s);
        let w = Vector3 { x: x.mul_spec(q), y: y.mul_spec(q), z: z.mul_spec(q) };
        assert(m.row3.y.sub_spec(m.row2.z) == w.x);
        assert(m.row1.z.sub_spec(m.row3.x) == w.y);
        assert(m.row2.x.sub_spec(m.row1.y) == w.z);
        // their magnitude is twice the sine
        let (xx, yy, zz) = (x.mul_spec(x), y.mul_spec(y), z.mul_spec(z));
        let qq = q.mul_spec(q);
        crate::ring::mul_shuffle(x, q, x, q);
        crate::ring::mul_shuffle(y, q, y, q);
        crate::ring::mul_shuffle(z, q, z, q);
        crate::ring::mul_comm(xx, qq);
        crate::ring::mul_comm(yy, qq);
        crate::ring::mul_comm(zz, qq);
        crate::ring::scaled_sum_of_three(qq, xx, yy, zz);
        crate::ring::mul_one(qq);
        assert(w.sqr_magnitude_spec() == qq);
        assert(w.magnitude_spec() == q);
        // so the normalized differences are the axis
        crate::ring::mul_div(x, q);
        crate::ring::mul_div(y, q);
        crate::ring::mul_div(z, q);
        assert(w.normalized_spec() == axis);
        assert(m.rotation_axis_spec() == axis);
        // the trace is twice the cosine and one
        let (dx, dy, dz) = (xx.mul_spec(t), yy.mul_spec(t), zz.mul_spec(t));
        crate::ring::add_shuffle(c, dx, c, dy);
        crate::ring::add_shuffle(c.add_spec(c), dx.add_spec(dy), c, dz);
        crate::ring::mul_comm(xx, t);
        crate::ring::mul_comm(yy, t);
        crate::ring::mul_comm(zz, t);
        crate::ring::scaled_sum_of_three(t, xx, yy, zz);
        crate::ring::mul_one(t);
        crate::ring::add_zero(dx.add_spec(dy).add_spec(dz));
        assert(dx.add_spec(dy).add_spec(dz) == t);
        crate::ring::add_assoc(c.add_spec(c), c, t);
        crate::ring::add_sub_self(c, one);
        let trace = c.add_spec(c).add_spec(one);
        crate::ring::add_zero(trace);
        assert(m.trace_spec() == trace);
        // half of the trace less one is the cosine
        crate::ring::add_comm(c.add_spec(c), one);
        crate::ring::add_sub_cancel(one, c.add_spec(c));
        crate::ring::distrib(c, one, one);
        crate::ring::mul_one(c);
        crate::ring::mul_div(c, two);
        assert(trace.sub_spec(one).div_spec(two) == c);
    }

    /// Swaps two rows in place. The rows are counted from one and must differ.
    pub fn swap_rows(&mut self, i: usize, j: usize)
        requires
            1 <= i <= 3,
            1 <= j <= 3,
            i != j,
        ensures
            final(self)@ == crate::matrix::elimination::swapped_rows(old(self)@, i - 1, j - 1),
    {
        crate::matrix::elimination::exchange_rows(self, i - 1, j - 1);
    }

    /// Turns matrix to its row echelon form using gaussian elimination with
    /// partial pivoting. Row exchanges are not tracked: see [`Self::det`].
    pub fn to_row_echelon(&mut self)
        ensures
            final(self)@ == crate::matrix::elimination::row_echelon(old(self)@),
    {
        crate::matrix::elimination::reduce_to_echelon(self);
    }

    /// Computes the rank of the matrix using gaussian elimination: the number
    /// of rows of the row echelon form that are not zero with regard to the
    /// tolerance of the scalar type.
    pub fn rank(&self) -> (r: usize)
        ensures
            r == crate::matrix::elimination::rank_of(self@),
            r <= 3,
    {
        let mut copy = *self;
        copy.to_row_echelon();
        crate::matrix::elimination::count_significant_rows(&copy)
    }

    /// The product of the diagonal of the row echelon form, multiplied from the
    /// upper left down, then by `1`. The elimination exchanges rows without
    /// keeping count, so this is the determinant up to sign only: on a matrix
    /// that needs an odd number of exchanges the sign is the opposite one.
    pub open spec fn det_spec(self) -> F {
        let e = crate::matrix::elimination::row_echelon(self@);
        e[0][0].mul_spec(e[1][1]).mul_spec(e[2][2]).mul_spec(F::one_spec())
    }

    /// Computes the determinant of the matrix, up to sign. See
    /// [`Self::det_spec`].
    pub fn det(&self) -> (r: F)
        ensures
            r == self.det_spec(),
    {
        let mut copy = *self;
        copy.to_row_echelon();
        copy.diagonal().product()
    }

    /// Whether the matrix counts as invertible: the absolute value of its
    /// determinant, as [`Self::det`] computes it, is above the tolerance of the
    /// scalar type.
    pub open spec fn is_invertible_spec(self) -> bool {
        F::epsilon_spec().lt_spec(self.det_spec().abs_spec())
    }

    /// Decides whether the matrix counts as invertible. This is the test that
    /// [`Self::inverse`] and [`Self::inversed`] demand of their callers.
    pub fn is_invertible(&self) -> (r: bool)
        ensures
            r == self.is_invertible_spec(),
    {
        F::epsilon().lt(self.det().abs())
    }

    /// Gauss-Jordan elimination of the matrix, mirrored on `adjacent`: every
    /// row exchange, division and subtraction that reduces the matrix is
    /// applied to `adjacent` as well. On a matrix without a pivot left it stops
    /// early.
    pub fn row_echelon_reduced(&mut self, adjacent: &mut Self)
        ensures
            (final(self)@, final(adjacent)@) == crate::matrix::elimination::reduced_from(
                old(self)@,
                old(adjacent)@,
                0,
                0,
            ),
    {
        crate::matrix::elimination::reduce_with_adjacent(self, adjacent);
    }

    /// The identity matrix is the identity of its dimension.
    pub proof fn lemma_identity_view()
        ensures
            Self::identity_spec()@ == crate::matrix::elimination::identity_grid::<F>(3),
    {
        assert(Self::identity_spec()@ =~~= crate::matrix::elimination::identity_grid::<F>(3));
    }

    /// Inverses matrix in place without checking if the determinant is `0`. On
    /// a singular matrix the result is meaningless.
    pub fn inverse_unchecked(&mut self)
        ensures
            final(self)@ == crate::matrix::elimination::inverse_of(old(self)@),
    {
        let mut i = Self::identity();
        proof {
            Self::lemma_identity_view();
        }
        self.row_echelon_reduced(&mut i);
        *self = i;
    }

    /// Returns inversed matrix without checking if the determinant is `0`. On a
    /// singular matrix the result is meaningless.
    pub fn inversed_unchecked(&self) -> (r: Self)
        ensures
            r@ == crate::matrix::elimination::inverse_of(self@),
    {
        let mut i = Self::identity();
        let mut work = *self;
        proof {
            Self::lemma_identity_view();
        }
        work.row_echelon_reduced(&mut i);
        i
    }

    /// Inverses matrix in place. The matrix must be invertible in the sense of
    /// [`Self::is_invertible`]: to call this on a matrix whose determinant is
    /// `0` is a contract violation.
    pub fn inverse(&mut self)
        requires
            old(self).is_invertible_spec(),
        ensures
            final(self)@ == crate::matrix::elimination::inverse_of(old(self)@),
    {
        self.inverse_unchecked();
    }

    /// Returns inversed matrix. The matrix must be invertible in the sense of
    /// [`Self::is_invertible`]: to call this on a matrix whose determinant is
    /// `0` is a contract violation.
    pub fn inversed(&self) -> (r: Self)
        requires
            self.is_invertible_spec(),
        ensures
            r@ == crate::matrix::elimination::inverse_of(self@),
    {
        self.inversed_unchecked()
    }

    /// Two matrices with the same view are the same matrix.
    pub proof fn lemma_view_injective(self, other: Self)
        requires
            self@ == other@,
        ensures
            self == other,
    {
        assert(self@[0] == other@[0]);
        assert(self.row1@[0] == other.row1@[0]);
        assert(self.row1@[1] == other.row1@[1]);
        assert(self.row1@[2] == other.row1@[2]);
        assert(self@[1] == other@[1]);
        assert(self.row2@[0] == other.row2@[0]);
        assert(self.row2@[1] == other.row2@[1]);
        assert(self.row2@[2] == other.row2@[2]);
        assert(self@[2] == other@[2]);
        assert(self.row3@[0] == other.row3@[0]);
        assert(self.row3@[1] == other.row3@[1]);
        assert(self.row3@[2] == other.row3@[2]);
    }

    /// In exact arithmetic the view of the product is the product of the views.
    pub proof fn lemma_mul_view(self, rhs: Self)
        requires
            crate::ring::is_exact::<F>(),
        ensures
            self.mul_spec(rhs)@ == crate::matrix::exact::product(self@, rhs@),
    {
        let p = crate::matrix::exact::product(self@, rhs@);
        assert forall|i: int, c: int| 0 <= i < 3 && 0 <= c < 3 implies #[trigger] p[i][c]
            == self.mul_spec(rhs)@[i][c] by {
            crate::matrix::exact::lemma_combination_of_three(self@[i], rhs@, c);
        }
        assert(self.mul_spec(rhs)@ =~~= p);
    }

    /// The rank of the identity is the dimension, where the arithmetic keeps
    /// the identity stable under elimination.
    pub proof fn lemma_rank_of_identity()
        requires
            crate::matrix::elimination::identity_is_stable::<F>(),
        ensures
            crate::matrix::elimination::rank_of(Self::identity_spec()@) == 3,
    {
        Self::lemma_identity_view();
        crate::matrix::elimination::lemma_rank_of_identity::<F>(3);
    }

    /// The rank of the zero matrix is `0`, where `0` is negligible.
    pub proof fn lemma_rank_of_zero()
        requires
            F::zero_spec().abs_spec().lt_spec(F::epsilon_spec()),
        ensures
            crate::matrix::elimination::rank_of(Self::zero_spec()@) == 0,
    {
        crate::matrix::elimination::lemma_rank_of_zero(Self::zero_spec()@);
    }

    /// In exact arithmetic the identity is neutral for the product, on both
    /// sides.
    pub proof fn lemma_mul_identity(self)
        requires
            crate::ring::is_exact::<F>(),
        ensures
            Self::identity_spec().mul_spec(self) == self,
            self.mul_spec(Self::identity_spec()) == self,
    {
        Self::lemma_identity_view();
        Self::identity_spec().lemma_mul_view(self);
        self.lemma_mul_view(Self::identity_spec());
        crate::matrix::exact::lemma_identity_product(self@);
        crate::matrix::exact::lemma_product_identity(self@);
        Self::identity_spec().mul_spec(self).lemma_view_injective(self);
        self.mul_spec(Self::identity_spec()).lemma_view_injective(self);
    }

    /// In exact arithmetic the product of matrices is associative.
    pub proof fn lemma_mul_associative(self, b: Self, c: Self)
        requires
            crate::ring::is_exact::<F>(),
        ensures
            self.mul_spec(b).mul_spec(c) == self.mul_spec(b.mul_spec(c)),
    {
        self.lemma_mul_view(b);
        self.mul_spec(b).lemma_mul_view(c);
        b.lemma_mul_view(c);
        self.lemma_mul_view(b.mul_spec(c));
        crate::matrix::exact::lemma_product_associative(self@, b@, c@);
        self.mul_spec(b).mul_spec(c).lemma_view_injective(self.mul_spec(b.mul_spec(c)));
    }

    /// Inversion is correct in exact arithmetic. In a field, a matrix that has
    /// a left inverse is inverted by the reduction: what
    /// [`Self::inversed_unchecked`] returns for it is its inverse from both
    /// sides, and is the left inverse that was given.
    pub proof fn lemma_inverse_of_invertible(self, left: Self, inverse: Self)
        requires
            crate::ring::is_exact_field::<F>(),
            left.mul_spec(self) == Self::identity_spec(),
            inverse@ == crate::matrix::elimination::inverse_of(self@),
        ensures
            inverse.mul_spec(self) == Self::identity_spec(),
            self.mul_spec(inverse) == Self::identity_spec(),
            inverse == left,
    {
        crate::ring::field_is_ring::<F>();
        Self::lemma_identity_view();
        left.lemma_mul_view(self);
        crate::matrix::exact::lemma_inverse_of_invertible(self@, left@);
        inverse.lemma_mul_view(self);
        self.lemma_mul_view(inverse);
        inverse.mul_spec(self).lemma_view_injective(Self::identity_spec());
        self.mul_spec(inverse).lemma_view_injective(Self::identity_spec());
        inverse.lemma_view_injective(left);
    }


}

impl<F: Float> Grid<F> for Matrix3<F> {
    open spec fn dim_spec() -> nat {
        3
    }

    fn dim() -> (n: usize) {
        3
    }

    open spec fn cells(self) -> Seq<Seq<F>> {
        self@
    }

    proof fn lemma_square(self) {
    }

    fn entry(&self, i: usize, j: usize) -> (r: F) {
        if i == 0 {
            self.row1.get(j)
        } else if i == 1 {
            self.row2.get(j)
        } else {
            self.row3.get(j)
        }
    }

    fn set_entry(&mut self, i: usize, j: usize, value: F) {
        if i == 0 {
            self.row1.set(j, value);
        } else if i == 1 {
            self.row2.set(j, value);
        } else {
            self.row3.set(j, value);
        }
        assert(self@ =~= old(self)@.update(i as int, old(self)@[i as int].update(j as int, value)));
    }
}

impl<F: Float> core::ops::Mul for Matrix3<F> {
    type Output = Self;

    /// Multiplies two matrices, rows by columns.
    fn mul(self, rhs: Self) -> (r: Self)
        ensures
            r == self.mul_spec(rhs),
    {
        Matrix3 {
            row1: Vector3 {
                x: self.row1.dot(rhs.column(1)),
                y: self.row1.dot(rhs.column(2)),
                z: self.row1.dot(rhs.column(3)),
            },
            row2: Vector3 {
                x: self.row2.dot(rhs.column(1)),
                y: self.row2.dot(rhs.column(2)),
                z: self.row2.dot(rhs.column(3)),
            },
            row3: Vector3 {
                x: self.row3.dot(rhs.column(1)),
                y: self.row3.dot(rhs.column(2)),
                z: self.row3.dot(rhs.column(3)),
            },
        }
    }
}

impl<F: Float> vstd::std_specs::ops::MulSpecImpl for Matrix3<F> {
    open spec fn obeys_mul_spec() -> bool {
        true
    }

    open spec fn mul_req(self, rhs: Self) -> bool {
        true
    }

    open spec fn mul_spec(self, rhs: Self) -> Self {
        Matrix3::mul_spec(self, rhs)
    }
}

impl<F: Float> core::ops::MulAssign for Matrix3<F> {
    /// Replaces the matrix by its product with `rhs`.
    fn mul_assign(&mut self, rhs: Self)
        ensures
            *final(self) == old(self).mul_spec(rhs),
    {
        let row1 = Vector3 {
            x: self.row1.dot(rhs.column(1)),
            y: self.row1.dot(rhs.column(2)),
            z: self.row1.dot(rhs.column(3)),
        };
        let row2 = Vector3 {
            x: self.row2.dot(rhs.column(1)),
            y: self.row2.dot(rhs.column(2)),
            z: self.row2.dot(rhs.column(3)),
        };
        let row3 = Vector3 {
            x: self.row3.dot(rhs.column(1)),
            y: self.row3.dot(rhs.column(2)),
            z: self.row3.dot(rhs.column(3)),
        };
        self.row1 = row1;
        self.row2 = row2;
        self.row3 = row3;
    }
}

impl<F: Float> core::ops::Mul<Vector3<F>> for Matrix3<F> {
    type Output = Vector3<F>;

    /// Applies the matrix to a column vector.
    fn mul(self, rhs: Vector3<F>) -> (r: Vector3<F>)
        ensures
            r == self.mul_vector_spec(rhs),
    {
        Vector3 {
            x: self.row1.dot(rhs),
            y: self.row2.dot(rhs),
            z: self.row3.dot(rhs),
        }
    }
}

impl<F: Float> vstd::std_specs::ops::MulSpecImpl<Vector3<F>> for Matrix3<F> {
    open spec fn obeys_mul_spec() -> bool {
        true
    }

    open spec fn mul_req(self, rhs: Vector3<F>) -> bool {
        true
    }

    open spec fn mul_spec(self, rhs: Vector3<F>) -> Vector3<F> {
        Matrix3::mul_vector_spec(self, rhs)
    }
}

impl<F: Float> core::ops::Add for Matrix3<F> {
    type Output = Self;

    /// Adds element by element.
    fn add(self, rhs: Self) -> (r: Self)
        ensures
            r == self.add_spec(rhs),
    {
        Matrix3 {
            row1: self.row1 + rhs.row1,
            row2: self.row2 + rhs.row2,
            row3: self.row3 + rhs.row3,
        }
    }
}

impl<F: Float> vstd::std_specs::ops::AddSpecImpl for Matrix3<F> {
    open spec fn obeys_add_spec() -> bool {
        true
    }

    open spec fn add_req(self, rhs: Self) -> bool {
        true
    }

    open spec fn add_spec(self, rhs: Self) -> Self {
        Matrix3::add_spec(self, rhs)
    }
}

impl<F: Float> core::ops::AddAssign for Matrix3<F> {
    /// Adds `rhs`, element by element.
    fn add_assign(&mut self, rhs: Self)
        ensures
            *final(self) == old(self).add_spec(rhs),
    {
        self.row1 = self.row1 + rhs.row1;
        self.row2 = self.row2 + rhs.row2;
        self.row3 = self.row3 + rhs.row3;
    }
}

impl<F: Float> core::ops::Sub for Matrix3<F> {
    type Output = Self;

    /// Subtracts element by element.
    fn sub(self, rhs: Self) -> (r: Self)
        ensures
            r == self.sub_spec(rhs),
    {
        Matrix3 {
            row1: self.row1 - rhs.row1,
            row2: self.row2 - rhs.row2,
            row3: self.row3 - rhs.row3,
        }
    }
}

impl<F: Float> vstd::std_specs::ops::SubSpecImpl for Matrix3<F> {
    open spec fn obeys_sub_spec() -> bool {
        true
    }

    open spec fn sub_req(self, rhs: Self) -> bool {
        true
    }

    open spec fn sub_spec(self, rhs: Self) -> Self {
        Matrix3::sub_spec(self, rhs)
    }
}

impl<F: Float> core::ops::SubAssign for Matrix3<F> {
    /// Subtracts `rhs`, element by element.
    fn sub_assign(&mut self, rhs: Self)
        ensures
            *final(self) == old(self).sub_spec(rhs),
    {
        self.row1 = self.row1 - rhs.row1;
        self.row2 = self.row2 - rhs.row2;
        self.row3 = self.row3 - rhs.row3;
    }
}

impl<F: Float> core::ops::Mul<F> for Matrix3<F> {
    type Output = Self;

    /// Multiplies every element by `rhs`.
    fn mul(self, rhs: F) -> (r: Self)
        ensures
            r == self.scaled_spec(rhs),
    {
        Matrix3 {
            row1: self.row1 * rhs,
            row2: self.row2 * rhs,
            row3: self.row3 * rhs,
        }
    }
}

impl<F: Float> vstd::std_specs::ops::MulSpecImpl<F> for Matrix3<F> {
    open spec fn obeys_mul_spec() -> bool {
        true
    }

    open spec fn mul_req(self, rhs: F) -> bool {
        true
    }

    open spec fn mul_spec(self, rhs: F) -> Self {
        Matrix3::scaled_spec(self, rhs)
    }
}

impl<F: Float> core::ops::MulAssign<F> for Matrix3<F> {
    /// Multiplies every element by `rhs`.
    fn mul_assign(&mut self, rhs: F)
        ensures
            *final(self) == old(self).scaled_spec(rhs),
    {
        self.row1 = self.row1 * rhs;
        self.row2 = self.row2 * rhs;
        self.row3 = self.row3 * rhs;
    }
}

impl<F: Float> core::ops::Div<F> for Matrix3<F> {
    type Output = Self;

    /// Divides every element by `rhs`.
    fn div(self, rhs: F) -> (r: Self)
        ensures
            r == self.div_spec(rhs),
    {
        Matrix3 {
            row1: self.row1 / rhs,
            row2: self.row2 / rhs,
            row3: self.row3 / rhs,
        }
    }
}

impl<F: Float> vstd::std_specs::ops::DivSpecImpl<F> for Matrix3<F> {
    open spec fn obeys_div_spec() -> bool {
        true
    }

    open spec fn div_req(self, rhs: F) -> bool {
        true
    }

    open spec fn div_spec(self, rhs: F) -> Self {
        Matrix3::div_spec(self, rhs)
    }
}

impl<F: Float> core::ops::DivAssign<F> for Matrix3<F> {
    /// Divides every element by `rhs`.
    fn div_assign(&mut self, rhs: F)
        ensures
            *final(self) == old(self).div_spec(rhs),
    {
        self.row1 = self.row1 / rhs;
        self.row2 = self.row2 / rhs;
        self.row3 = self.row3 / rhs;
    }
}

impl<F: Float> From<Quaternion<F>> for Matrix3<F> {
    /// The rotation matrix of a quaternion.
    fn from(value: Quaternion<F>) -> (r: Self)
        ensures
            r == value.into_matrix3_spec(),
    {
        value.into_matrix3()
    }
}

impl<F: Float> vstd::std_specs::convert::FromSpecImpl<Quaternion<F>> for Matrix3<F> {
    open spec fn obeys_from_spec() -> bool {
        true
    }

    open spec fn from_spec(value: Quaternion<F>) -> Self {
        value.into_matrix3_spec()
    }
}

} // verus!
