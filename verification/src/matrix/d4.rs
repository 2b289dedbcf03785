//! 4x4 matrices.

use vstd::prelude::*;
use crate::float::Float;
use crate::matrix::elimination::Grid;
use crate::vector::d3::Vector3;
use crate::vector::d4::Vector4;

verus! {

/// Row major 4x4 matrix. The view is the sequence of the rows, each the
/// sequence of its entries: `m@[i][j]` is the entry in row `i` and column `j`,
/// both counted from zero.
#[derive(Copy, Debug, PartialEq)]
pub struct Matrix4<F: Float> {
    /// First row.
    pub row1: Vector4<F>,
    /// Second row.
    pub row2: Vector4<F>,
    /// Third row.
    pub row3: Vector4<F>,
    /// Fourth row.
    pub row4: Vector4<F>,
}

impl<F: Float> Clone for Matrix4<F> {
    fn clone(&self) -> (r: Self)
        ensures
            r == *self,
    {
        *self
    }
}

impl<F: Float> View for Matrix4<F> {
    type V = Seq<Seq<F>>;

    open spec fn view(&self) -> Seq<Seq<F>> {
        seq![self.row1@, self.row2@, self.row3@, self.row4@]
    }
}

impl<F: Float> Matrix4<F> {
    /// The matrix with all elements equal to `0`.
    pub open spec fn zero_spec() -> Self {
        Matrix4 {
            row1: Vector4::zero_spec(),
            row2: Vector4::zero_spec(),
            row3: Vector4::zero_spec(),
            row4: Vector4::zero_spec(),
        }
    }

    /// Returns [`Self::zero_spec`].
    pub fn zero() -> (r: Self)
        ensures
            r == Self::zero_spec(),
    {
        Matrix4 {
            row1: Vector4::zero(),
            row2: Vector4::zero(),
            row3: Vector4::zero(),
            row4: Vector4::zero(),
        }
    }

    /// The matrix with all elements equal to `1`.
    pub open spec fn one_spec() -> Self {
        Matrix4 {
            row1: Vector4::one_spec(),
            row2: Vector4::one_spec(),
            row3: Vector4::one_spec(),
            row4: Vector4::one_spec(),
        }
    }

    /// Returns [`Self::one_spec`].
    pub fn one() -> (r: Self)
        ensures
            r == Self::one_spec(),
    {
        Matrix4 {
            row1: Vector4::one(),
            row2: Vector4::one(),
            row3: Vector4::one(),
            row4: Vector4::one(),
        }
    }

    /// The identity matrix, with diagonal elements equal to `1` and `0` for
    /// every other.
    pub open spec fn identity_spec() -> Self {
        Matrix4 {
            row1: Vector4::unit_x_spec(),
            row2: Vector4::unit_y_spec(),
            row3: Vector4::unit_z_spec(),
            row4: Vector4::unit_w_spec(),
        }
    }

    /// Returns [`Self::identity_spec`].
    pub fn identity() -> (r: Self)
        ensures
            r == Self::identity_spec(),
    {
        Matrix4 {
            row1: Vector4::unit_x(),
            row2: Vector4::unit_y(),
            row3: Vector4::unit_z(),
            row4: Vector4::unit_w(),
        }
    }

    /// Creates a new matrix from individual elements, given row by row.
    pub fn new(
        m11: F, m12: F, m13: F, m14: F,
        m21: F, m22: F, m23: F, m24: F,
        m31: F, m32: F, m33: F, m34: F,
        m41: F, m42: F, m43: F, m44: F,
    ) -> (r: Self)
        ensures
            r == (Matrix4 {
                row1: Vector4 {
                    x: m11,
                    y: m12,
                    z: m13,
                    w: m14,
                },
                row2: Vector4 {
                    x: m21,
                    y: m22,
                    z: m23,
                    w: m24,
                },
                row3: Vector4 {
                    x: m31,
                    y: m32,
                    z: m33,
                    w: m34,
                },
                row4: Vector4 {
                    x: m41,
                    y: m42,
                    z: m43,
                    w: m44,
                },
            }),
    {
        Matrix4 {
            row1: Vector4 {
                x: m11,
                y: m12,
                z: m13,
                w: m14,
            },
            row2: Vector4 {
                x: m21,
                y: m22,
                z: m23,
                w: m24,
            },
            row3: Vector4 {
                x: m31,
                y: m32,
                z: m33,
                w: m34,
            },
            row4: Vector4 {
                x: m41,
                y: m42,
                z: m43,
                w: m44,
            },
        }
    }

    /// The matrix with the elements of `diag` on the diagonal and `0`
    /// everywhere else.
    pub open spec fn new_diagonal_spec(diag: Vector4<F>) -> Self {
        Matrix4 {
            row1: Vector4 {
                x: diag.x,
                y: F::zero_spec(),
                z: F::zero_spec(),
                w: F::zero_spec(),
            },
            row2: Vector4 {
                x: F::zero_spec(),
                y: diag.y,
                z: F::zero_spec(),
                w: F::zero_spec(),
            },
            row3: Vector4 {
                x: F::zero_spec(),
                y: F::zero_spec(),
                z: diag.z,
                w: F::zero_spec(),
            },
            row4: Vector4 {
                x: F::zero_spec(),
                y: F::zero_spec(),
                z: F::zero_spec(),
                w: diag.w,
            },
        }
    }

    /// Creates a new matrix from diagonal vector. All other elements are equal
    /// to `0`.
    pub fn new_diagonal(diag: Vector4<F>) -> (r: Self)
        ensures
            r == Self::new_diagonal_spec(diag),
    {
        Matrix4 {
            row1: Vector4 {
                x: diag.x,
                y: F::zero(),
                z: F::zero(),
                w: F::zero(),
            },
            row2: Vector4 {
                x: F::zero(),
                y: diag.y,
                z: F::zero(),
                w: F::zero(),
            },
            row3: Vector4 {
                x: F::zero(),
                y: F::zero(),
                z: diag.z,
                w: F::zero(),
            },
            row4: Vector4 {
                x: F::zero(),
                y: F::zero(),
                z: F::zero(),
                w: diag.w,
            },
        }
    }

    /// Creates a matrix from individual rows.
    pub fn from_rows(row1: Vector4<F>, row2: Vector4<F>, row3: Vector4<F>, row4: Vector4<F>) -> (r: Self)
        ensures
            r == (Matrix4 { row1, row2, row3, row4 }),
    {
        Matrix4 { row1, row2, row3, row4 }
    }

    /// The matrix whose columns are the given vectors.
    pub open spec fn from_columns_spec(col1: Vector4<F>, col2: Vector4<F>, col3: Vector4<F>, col4: Vector4<F>) -> Self {
        Matrix4 {
            row1: Vector4 {
                x: col1.x,
                y: col2.x,
                z: col3.x,
                w: col4.x,
            },
            row2: Vector4 {
                x: col1.y,
                y: col2.y,
                z: col3.y,
                w: col4.y,
            },
            row3: Vector4 {
                x: col1.z,
                y: col2.z,
                z: col3.z,
                w: col4.z,
            },
            row4: Vector4 {
                x: col1.w,
                y: col2.w,
                z: col3.w,
                w: col4.w,
            },
        }
    }

    /// Creates a matrix from individual columns.
    pub fn from_columns(col1: Vector4<F>, col2: Vector4<F>, col3: Vector4<F>, col4: Vector4<F>) -> (r: Self)
        ensures
            r == Self::from_columns_spec(col1, col2, col3, col4),
    {
        Matrix4 {
            row1: Vector4 {
                x: col1.x,
                y: col2.x,
                z: col3.x,
                w: col4.x,
            },
            row2: Vector4 {
                x: col1.y,
                y: col2.y,
                z: col3.y,
                w: col4.y,
            },
            row3: Vector4 {
                x: col1.z,
                y: col2.z,
                z: col3.z,
                w: col4.z,
            },
            row4: Vector4 {
                x: col1.w,
                y: col2.w,
                z: col3.w,
                w: col4.w,
            },
        }
    }

    /// The row number `n`, counted from one.
    pub open spec fn row_spec(self, n: int) -> Vector4<F>
        recommends
            1 <= n <= 4,
    {
        if n == 1 {
            self.row1
        } else if n == 2 {
            self.row2
        } else if n == 3 {
            self.row3
        } else {
            self.row4
        }
    }

    /// Returns the nth row, counted from one.
    pub fn row(&self, n: usize) -> (r: Vector4<F>)
        requires
            1 <= n <= 4,
        ensures
            r == self.row_spec(n as int),
            r@ == self@[n - 1],
    {
        if n == 1 {
            self.row1
        } else if n == 2 {
            self.row2
        } else if n == 3 {
            self.row3
        } else {
            self.row4
        }
    }

    /// Sets the nth row, counted from one, and leaves the other rows as they
    /// are.
    pub fn set_row(&mut self, n: usize, row: Vector4<F>)
        requires
            1 <= n <= 4,
        ensures
            final(self)@ == old(self)@.update(n - 1, row@),
    {
        if n == 1 {
            self.row1 = row;
        } else if n == 2 {
            self.row2 = row;
        } else if n == 3 {
            self.row3 = row;
        } else {
            self.row4 = row;
        }
        assert(self@ =~= old(self)@.update(n - 1, row@));
    }

    /// The column number `n`, counted from one.
    pub open spec fn column_spec(self, n: int) -> Vector4<F>
        recommends
            1 <= n <= 4,
    {
        if n == 1 {
            Vector4 {
                x: self.row1.x,
                y: self.row2.x,
                z: self.row3.x,
                w: self.row4.x,
            }
        } else if n == 2 {
            Vector4 {
                x: self.row1.y,
                y: self.row2.y,
                z: self.row3.y,
                w: self.row4.y,
            }
        } else if n == 3 {
            Vector4 {
                x: self.row1.z,
                y: self.row2.z,
                z: self.row3.z,
                w: self.row4.z,
            }
        } else {
            Vector4 {
                x: self.row1.w,
                y: self.row2.w,
                z: self.row3.w,
                w: self.row4.w,
            }
        }
    }

    /// Returns the nth column, counted from one.
    pub fn column(&self, n: usize) -> (r: Vector4<F>)
        requires
            1 <= n <= 4,
        ensures
            r == self.column_spec(n as int),
            r@ == Seq::new(4, |i: int| self@[i][n - 1]),
    {
        let r = if n == 1 {
            Vector4 {
                x: self.row1.x,
                y: self.row2.x,
                z: self.row3.x,
                w: self.row4.x,
            }
        } else if n == 2 {
            Vector4 {
                x: self.row1.y,
                y: self.row2.y,
                z: self.row3.y,
                w: self.row4.y,
            }
        } else if n == 3 {
            Vector4 {
                x: self.row1.z,
                y: self.row2.z,
                z: self.row3.z,
                w: self.row4.z,
            }
        } else {
            Vector4 {
                x: self.row1.w,
                y: self.row2.w,
                z: self.row3.w,
                w: self.row4.w,
            }
        };
        proof {
            assert(r@ =~= Seq::new(4, |i: int| self@[i][n - 1]));
        }
        r
    }

    /// Sets the nth column, counted from one, to the components of `column`
    /// from top to bottom, and leaves the other columns as they are.
    pub fn set_column(&mut self, n: usize, column: Vector4<F>)
        requires
            1 <= n <= 4,
        ensures
            final(self)@ == Seq::new(4, |i: int| old(self)@[i].update(n - 1, column@[i])),
    {
        if n == 1 {
            self.row1.x = column.x;
            self.row2.x = column.y;
            self.row3.x = column.z;
            self.row4.x = column.w;
        } else if n == 2 {
            self.row1.y = column.x;
            self.row2.y = column.y;
            self.row3.y = column.z;
            self.row4.y = column.w;
        } else if n == 3 {
            self.row1.z = column.x;
            self.row2.z = column.y;
            self.row3.z = column.z;
            self.row4.z = column.w;
        } else {
            self.row1.w = column.x;
            self.row2.w = column.y;
            self.row3.w = column.z;
            self.row4.w = column.w;
        }
        assert(self@ =~~= Seq::new(4, |i: int| old(self)@[i].update(n - 1, column@[i])));
    }

    /// The diagonal, from the upper left to the lower right.
    pub open spec fn diagonal_spec(self) -> Vector4<F> {
        Vector4 {
            x: self.row1.x,
            y: self.row2.y,
            z: self.row3.z,
            w: self.row4.w,
        }
    }

    /// Returns matrix's diagonal.
    pub fn diagonal(&self) -> (r: Vector4<F>)
        ensures
            r == self.diagonal_spec(),
            forall|i: int| 0 <= i < 4 ==> r@[i] == self@[i][i],
    {
        Vector4 {
            x: self.row1.x,
            y: self.row2.y,
            z: self.row3.z,
            w: self.row4.w,
        }
    }

    /// Sets matrix's diagonal and leaves the elements off the diagonal as they
    /// are.
    pub fn set_diagonal(&mut self, new: Vector4<F>)
        ensures
            final(self)@ == Seq::new(4, |i: int| old(self)@[i].update(i, new@[i])),
    {
        self.row1.x = new.x;
        self.row2.y = new.y;
        self.row3.z = new.z;
        self.row4.w = new.w;
        assert(self@ =~~= Seq::new(4, |i: int| old(self)@[i].update(i, new@[i])));
    }

    /// The transpose: rows and columns exchanged.
    pub open spec fn transposed_spec(self) -> Self {
        Matrix4 {
            row1: Vector4 {
                x: self.row1.x,
                y: self.row2.x,
                z: self.row3.x,
                w: self.row4.x,
            },
            row2: Vector4 {
                x: self.row1.y,
                y: self.row2.y,
                z: self.row3.y,
                w: self.row4.y,
            },
            row3: Vector4 {
                x: self.row1.z,
                y: self.row2.z,
                z: self.row3.z,
                w: self.row4.z,
            },
            row4: Vector4 {
                x: self.row1.w,
                y: self.row2.w,
                z: self.row3.w,
                w: self.row4.w,
            },
        }
    }

    /// Returns a transposed copy of the matrix.
    pub fn transposed(&self) -> (r: Self)
        ensures
            r == self.transposed_spec(),
            forall|i: int, j: int| 0 <= i < 4 && 0 <= j < 4 ==> r@[i][j] == self@[j][i],
    {
        Matrix4 {
            row1: Vector4 {
                x: self.row1.x,
                y: self.row2.x,
                z: self.row3.x,
                w: self.row4.x,
            },
            row2: Vector4 {
                x: self.row1.y,
                y: self.row2.y,
                z: self.row3.y,
                w: self.row4.y,
            },
            row3: Vector4 {
                x: self.row1.z,
                y: self.row2.z,
                z: self.row3.z,
                w: self.row4.z,
            },
            row4: Vector4 {
                x: self.row1.w,
                y: self.row2.w,
                z: self.row3.w,
                w: self.row4.w,
            },
        }
    }

    /// Transposes the matrix, swapping rows and columns.
    pub fn transpose(&mut self)
        ensures
            *final(self) == old(self).transposed_spec(),
    {
        *self = self.transposed();
    }

    /// The matrix product `self * rhs`: the entry in row `i` and column `j` is
    /// the dot product of row `i` of `self` and column `j` of `rhs`.
    pub open spec fn mul_spec(self, rhs: Self) -> Self {
        Matrix4 {
            row1: Vector4 {
                x: self.row1.dot_spec(rhs.column_spec(1)),
                y: self.row1.dot_spec(rhs.column_spec(2)),
                z: self.row1.dot_spec(rhs.column_spec(3)),
                w: self.row1.dot_spec(rhs.column_spec(4)),
            },
            row2: Vector4 {
                x: self.row2.dot_spec(rhs.column_spec(1)),
                y: self.row2.dot_spec(rhs.column_spec(2)),
                z: self.row2.dot_spec(rhs.column_spec(3)),
                w: self.row2.dot_spec(rhs.column_spec(4)),
            },
            row3: Vector4 {
                x: self.row3.dot_spec(rhs.column_spec(1)),
                y: self.row3.dot_spec(rhs.column_spec(2)),
                z: self.row3.dot_spec(rhs.column_spec(3)),
                w: self.row3.dot_spec(rhs.column_spec(4)),
            },
            row4: Vector4 {
                x: self.row4.dot_spec(rhs.column_spec(1)),
                y: self.row4.dot_spec(rhs.column_spec(2)),
                z: self.row4.dot_spec(rhs.column_spec(3)),
                w: self.row4.dot_spec(rhs.column_spec(4)),
            },
        }
    }

    /// The product of the matrix and a column vector: component `i` is the dot
    /// product of row `i` and the vector.
    pub open spec fn mul_vector_spec(self, rhs: Vector4<F>) -> Vector4<F> {
        Vector4 {
            x: self.row1.dot_spec(rhs),
            y: self.row2.dot_spec(rhs),
            z: self.row3.dot_spec(rhs),
            w: self.row4.dot_spec(rhs),
        }
    }

    /// The element-wise sum.
    pub open spec fn add_spec(self, rhs: Self) -> Self {
        Matrix4 {
            row1: self.row1.add_spec(rhs.row1),
            row2: self.row2.add_spec(rhs.row2),
            row3: self.row3.add_spec(rhs.row3),
            row4: self.row4.add_spec(rhs.row4),
        }
    }

    /// The element-wise difference.
    pub open spec fn sub_spec(self, rhs: Self) -> Self {
        Matrix4 {
            row1: self.row1.sub_spec(rhs.row1),
            row2: self.row2.sub_spec(rhs.row2),
            row3: self.row3.sub_spec(rhs.row3),
            row4: self.row4.sub_spec(rhs.row4),
        }
    }

    /// The matrix with every element multiplied by `rhs`.
    pub open spec fn scaled_spec(self, rhs: F) -> Self {
        Matrix4 {
            row1: self.row1.scaled_spec(rhs),
            row2: self.row2.scaled_spec(rhs),
            row3: self.row3.scaled_spec(rhs),
            row4: self.row4.scaled_spec(rhs),
        }
    }

    /// The matrix with every element divided by `rhs`.
    pub open spec fn div_spec(self, rhs: F) -> Self {
        Matrix4 {
            row1: self.row1.div_spec(rhs),
            row2: self.row2.div_spec(rhs),
            row3: self.row3.div_spec(rhs),
            row4: self.row4.div_spec(rhs),
        }
    }

    /// The translation of space by `translation`, in homogeneous coordinates:
    /// the identity with the vector in the last column.
    pub open spec fn new_translation_spec(translation: Vector3<F>) -> Self {
        Matrix4 {
            row1: Vector4 {
                x: F::one_spec(),
                y: F::zero_spec(),
                z: F::zero_spec(),
                w: translation.x,
            },
            row2: Vector4 {
                x: F::zero_spec(),
                y: F::one_spec(),
                z: F::zero_spec(),
                w: translation.y,
            },
            row3: Vector4 {
                x: F::zero_spec(),
                y: F::zero_spec(),
                z: F::one_spec(),
                w: translation.z,
            },
            row4: Vector4 {
                x: F::zero_spec(),
                y: F::zero_spec(),
                z: F::zero_spec(),
                w: F::one_spec(),
            },
        }
    }

    /// Creates new matrix that represents translation in 3D space.
    pub fn new_translation(translation: Vector3<F>) -> (r: Self)
        ensures
            r == Self::new_translation_spec(translation),
    {
        Matrix4 {
            row1: Vector4 {
                x: F::one(),
                y: F::zero(),
                z: F::zero(),
                w: translation.x,
            },
            row2: Vector4 {
                x: F::zero(),
                y: F::one(),
                z: F::zero(),
                w: translation.y,
            },
            row3: Vector4 {
                x: F::zero(),
                y: F::zero(),
                z: F::one(),
                w: translation.z,
            },
            row4: Vector4 {
                x: F::zero(),
                y: F::zero(),
                z: F::zero(),
                w: F::one(),
            },
        }
    }

    /// Swaps two rows in place. The rows are counted from one and must differ.
    pub fn swap_rows(&mut self, i: usize, j: usize)
        requires
            1 <= i <= 4,
            1 <= j <= 4,
            i != j,
        ensures
            final(self)@ == crate::matrix::elimination::swapped_rows(old(self)@, i - 1, j - 1),
    {
        crate::matrix::elimination::exchange_rows(self, i - 1, j - 1);
    }

    /// Turns matrix to its row echelon form using gaussian elimination with
    /// partial pivoting. Row exchanges are not tracked: see [`Self::det`].
    pub fn to_row_echelon(&mut self)
        ensures
            final(self)@ == crate::matrix::elimination::row_echelon(old(self)@),
    {
        crate::matrix::elimination::reduce_to_echelon(self);
    }

    /// Computes the rank of the matrix using gaussian elimination: the number
    /// of rows of the row echelon form that are not zero with regard to the
    /// tolerance of the scalar type.
    pub fn rank(&self) -> (r: usize)
        ensures
            r == crate::matrix::elimination::rank_of(self@),
            r <= 4,
    {
        let mut copy = *self;
        copy.to_row_echelon();
        crate::matrix::elimination::count_significant_rows(&copy)
    }

    /// The product of the diagonal of the row echelon form, multiplied from the
    /// upper left down, then by `1`. The elimination exchanges rows without
    /// keeping count, so this is the determinant up to sign only: on a matrix
    /// that needs an odd number of exchanges the sign is the opposite one.
    pub open spec fn det_spec(self) -> F {
        let e = crate::matrix::elimination::row_echelon(self@);
        e[0][0].mul_spec(e[1][1]).mul_spec(e[2][2]).mul_spec(e[3][3]).mul_spec(F::one_spec())
    }

    /// Computes the determinant of the matrix, up to sign. See
    /// [`Self::det_spec`].
    pub fn det(&self) -> (r: F)
        ensures
            r == self.det_spec(),
    {
        let mut copy = *self;
        copy.to_row_echelon();
        copy.diagonal().product()
    }

    /// Whether the matrix counts as invertible: the absolute value of its
    /// determinant, as [`Self::det`] computes it, is above the tolerance of the
    /// scalar type.
    pub open spec fn is_invertible_spec(self) -> bool {
        F::epsilon_spec().lt_spec(self.det_spec().abs_spec())
    }

    /// Decides whether the matrix counts as invertible. This is the test that
    /// [`Self::inverse`] and [`Self::inversed`] demand of their callers.
    pub fn is_invertible(&self) -> (r: bool)
        ensures
            r == self.is_invertible_spec(),
    {
        F::epsilon().lt(self.det().abs())
    }

    /// Gauss-Jordan elimination of the matrix, mirrored on `adjacent`: every
    /// row exchange, division and subtraction that reduces the matrix is
    /// applied to `adjacent` as well. On a matrix without a pivot left it stops
    /// early.
    pub fn row_echelon_reduced(&mut self, adjacent: &mut Self)
        ensures
            (final(self)@, final(adjacent)@) == crate::matrix::elimination::reduced_from(
                old(self)@,
                old(adjacent)@,
                0,
                0,
            ),
    {
        crate::matrix::elimination::reduce_with_adjacent(self, adjacent);
    }

    /// The identity matrix is the identity of its dimension.
    pub proof fn lemma_identity_view()
        ensures
            Self::identity_spec()@ == crate::matrix::elimination::identity_grid::<F>(4),
    {
        assert(Self::identity_spec()@ =~~= crate::matrix::elimination::identity_grid::<F>(4));
    }

    /// Inverses matrix in place without checking if the determinant is `0`. On
    /// a singular matrix the result is meaningless.
    pub fn inverse_unchecked(&mut self)
        ensures
            final(self)@ == crate::matrix::elimination::inverse_of(old(self)@),
    {
        let mut i = Self::identity();
        proof {
            Self::lemma_identity_view();
        }
        self.row_echelon_reduced(&mut i);
        *self = i;
    }

    /// Returns inversed matrix without checking if the determinant is `0`. On a
    /// singular matrix the result is meaningless.
    pub fn inversed_unchecked(&self) -> (r: Self)
        ensures
            r@ == crate::matrix::elimination::inverse_of(self@),
    {
        let mut i = Self::identity();
        let mut work = *self;
        proof {
            Self::lemma_identity_view();
        }
        work.row_echelon_reduced(&mut i);
        i
    }

    /// Inverses matrix in place. The matrix must be invertible in the sense of
    /// [`Self::is_invertible`]: to call this on a matrix whose determinant is
    /// `0` is a contract violation.
    pub fn inverse(&mut self)
        requires
            old(self).is_invertible_spec(),
        ensures
            final(self)@ == crate::matrix::elimination::inverse_of(old(self)@),
    {
        self.inverse_unchecked();
    }

    /// Returns inversed matrix. The matrix must be invertible in the sense of
    /// [`Self::is_invertible`]: to call this on a matrix whose determinant is
    /// `0` is a contract violation.
    pub fn inversed(&self) -> (r: Self)
        requires
            self.is_invertible_spec(),
        ensures
            r@ == crate::matrix::elimination::inverse_of(self@),
    {
        self.inversed_unchecked()
    }

    /// Two matrices with the same view are the same matrix.
    pub proof fn lemma_view_injective(self, other: Self)
        requires
            self@ == other@,
        ensures
            self == other,
    {
        assert(self@[0] == other@[0]);
        assert(self.row1@[0] == other.row1@[0]);
        assert(self.row1@[1] == other.row1@[1]);
        assert(self.row1@[2] == other.row1@[2]);
        assert(self.row1@[3] == other.row1@[3]);
        assert(self@[1] == other@[1]);
        assert(self.row2@[0] == other.row2@[0]);
        assert(self.row2@[1] == other.row2@[1]);
        assert(self.row2@[2] == other.row2@[2]);
        assert(self.row2@[3] == other.row2@[3]);
        assert(self@[2] == other@[2]);
        assert(self.row3@[0] == other.row3@[0]);
        assert(self.row3@[1] == other.row3@[1]);
        assert(self.row3@[2] == other.row3@[2]);
        assert(self.row3@[3] == other.row3@[3]);
        assert(self@[3] == other@[3]);
        assert(self.row4@[0] == other.row4@[0]);
        assert(self.row4@[1] == other.row4@[1]);
        assert(self.row4@[2] == other.row4@[2]);
        assert(self.row4@[3] == other.row4@[3]);
    }

    /// In exact arithmetic the view of the product is the product of the views.
    pub proof fn lemma_mul_view(self, rhs: Self)
        requires
            crate::ring::is_exact::<F>(),
        ensures
            self.mul_spec(rhs)@ == crate::matrix::exact::product(self@, rhs@),
    {
        let p = crate::matrix::exact::product(self@, rhs@);
        assert forall|i: int, c: int| 0 <= i < 4 && 0 <= c < 4 implies #[trigger] p[i][c]
            == self.mul_spec(rhs)@[i][c] by {
            crate::matrix::exact::lemma_combination_of_four(self@[i], rhs@, c);
        }
        assert(self.mul_spec(rhs)@ =~~= p);
    }

    /// The rank of the identity is the dimension, where the arithmetic keeps
    /// the identity stable under elimination.
    pub proof fn lemma_rank_of_identity()
        requires
            crate::matrix::elimination::identity_is_stable::<F>(),
        ensures
            crate::matrix::elimination::rank_of(Self::identity_spec()@) == 4,
    {
        Self::lemma_identity_view();
        crate::matrix::elimination::lemma_rank_of_identity::<F>(4);
    }

    /// The rank of the zero matrix is `0`, where `0` is negligible.
    pub proof fn lemma_rank_of_zero()
        requires
            F::zero_spec().abs_spec().lt_spec(F::epsilon_spec()),
        ensures
            crate::matrix::elimination::rank_of(Self::zero_spec()@) == 0,
    {
        crate::matrix::elimination::lemma_rank_of_zero(Self::zero_spec()@);
    }

    /// In exact arithmetic the identity is neutral for the product, on both
    /// sides.
    pub proof fn lemma_mul_identity(self)
        requires
            crate::ring::is_exact::<F>(),
        ensures
            Self::identity_spec().mul_spec(self) == self,
            self.mul_spec(Self::identity_spec()) == self,
    {
        Self::lemma_identity_view();
        Self::identity_spec().lemma_mul_view(self);
        self.lemma_mul_view(Self::identity_spec());
        crate::matrix::exact::lemma_identity_product(self@);
        crate::matrix::exact::lemma_product_identity(self@);
        Self::identity_spec().mul_spec(self).lemma_view_injective(self);
        self.mul_spec(Self::identity_spec()).lemma_view_injective(self);
    }

    /// In exact arithmetic the product of matrices is associative.
    pub proof fn lemma_mul_associative(self, b: Self, c: Self)
        requires
            crate::ring::is_exact::<F>(),
        ensures
            self.mul_spec(b).mul_spec(c) == self.mul_spec(b.mul_spec(c)),
    {
        self.lemma_mul_view(b);
        self.mul_spec(b).lemma_mul_view(c);
        b.lemma_mul_view(c);
        self.lemma_mul_view(b.mul_spec(c));
        crate::matrix::exact::lemma_product_associative(self@, b@, c@);
        self.mul_spec(b).mul_spec(c).lemma_view_injective(self.mul_spec(b.mul_spec(c)));
    }

    /// Inversion is correct in exact arithmetic. In a field, a matrix that has
    /// a left inverse is inverted by the reduction: what
    /// [`Self::inversed_unchecked`] returns for it is its inverse from both
    /// sides, and is the left inverse that was given.
    pub proof fn lemma_inverse_of_invertible(self, left: Self, inverse: Self)
        requires
            crate::ring::is_exact_field::<F>(),
            left.mul_spec(self) == Self::identity_spec(),
            inverse@ == crate::matrix::elimination::inverse_of(self@),
        ensures
            inverse.mul_spec(self) == Self::identity_spec(),
            self.mul_spec(inverse) == Self::identity_spec(),
            inverse == left,
    {
        crate::ring::field_is_ring::<F>();
        Self::lemma_identity_view();
        left.lemma_mul_view(self);
        crate::matrix::exact::lemma_inverse_of_invertible(self@, left@);
        inverse.lemma_mul_view(self);
        self.lemma_mul_view(inverse);
        inverse.mul_spec(self).lemma_view_injective(Self::identity_spec());
        self.mul_spec(inverse).lemma_view_injective(Self::identity_spec());
        inverse.lemma_view_injective(left);
    }


}

impl<F: Float> Grid<F> for Matrix4<F> {
    open spec fn dim_spec() -> nat {
        4
    }

    fn dim() -> (n: usize) {
        4
    }

    open spec fn cells(self) -> Seq<Seq<F>> {
        self@
    }

    proof fn lemma_square(self) {
    }

    fn entry(&self, i: usize, j: usize) -> (r: F) {
        if i == 0 {
            self.row1.get(j)
        } else if i == 1 {
            self.row2.get(j)
        } else if i == 2 {
            self.row3.get(j)
        } else {
            self.row4.get(j)
        }
    }

    fn set_entry(&mut self, i: usize, j: usize, value: F) {
        if i == 0 {
            self.row1.set(j, value);
        } else if i == 1 {
            self.row2.set(j, value);
        } else if i == 2 {
            self.row3.set(j, value);
        } else {
            self.row4.set(j, value);
        }
        assert(self@ =~= old(self)@.update(i as int, old(self)@[i as int].update(j as int, value)));
    }
}

impl<F: Float> core::ops::Mul for Matrix4<F> {
    type Output = Self;

    /// Multiplies two matrices, rows by columns.
    fn mul(self, rhs: Self) -> (r: Self)
        ensures
            r == self.mul_spec(rhs),
    {
        Matrix4 {
            row1: Vector4 {
                x: self.row1.dot(rhs.column(1)),
                y: self.row1.dot(rhs.column(2)),
                z: self.row1.dot(rhs.column(3)),
                w: self.row1.dot(rhs.column(4)),
            },
            row2: Vector4 {
                x: self.row2.dot(rhs.column(1)),
                y: self.row2.dot(rhs.column(2)),
                z: self.row2.dot(rhs.column(3)),
                w: self.row2.dot(rhs.column(4)),
            },
            row3: Vector4 {
                x: self.row3.dot(rhs.column(1)),
                y: self.row3.dot(rhs.column(2)),
                z: self.row3.dot(rhs.column(3)),
                w: self.row3.dot(rhs.column(4)),
            },
            row4: Vector4 {
                x: self.row4.dot(rhs.column(1)),
                y: self.row4.dot(rhs.column(2)),
                z: self.row4.dot(rhs.column(3)),
                w: self.row4.dot(rhs.column(4)),
            },
        }
    }
}

impl<F: Float> vstd::std_specs::ops::MulSpecImpl for Matrix4<F> {
    open spec fn obeys_mul_spec() -> bool {
        true
    }

    open spec fn mul_req(self, rhs: Self) -> bool {
        true
    }

    open spec fn mul_spec(self, rhs: Self) -> Self {
        Matrix4::mul_spec(self, rhs)
    }
}

impl<F: Float> core::ops::MulAssign for Matrix4<F> {
    /// Replaces the matrix by its product with `rhs`.
    fn mul_assign(&mut self, rhs: Self)
        ensures
            *final(self) == old(self).mul_spec(rhs),
    {
        let row1 = Vector4 {
            x: self.row1.dot(rhs.column(1)),
            y: self.row1.dot(rhs.column(2)),
            z: self.row1.dot(rhs.column(3)),
            w: self.row1.dot(rhs.column(4)),
        };
        let row2 = Vector4 {
            x: self.row2.dot(rhs.column(1)),
            y: self.row2.dot(rhs.column(2)),
            z: self.row2.dot(rhs.column(3)),
            w: self.row2.dot(rhs.column(4)),
        };
        let row3 = Vector4 {
            x: self.row3.dot(rhs.column(1)),
            y: self.row3.dot(rhs.column(2)),
            z: self.row3.dot(rhs.column(3)),
            w: self.row3.dot(rhs.column(4)),
        };
        let row4 = Vector4 {
            x: self.row4.dot(rhs.column(1)),
            y: self.row4.dot(rhs.column(2)),
            z: self.row4.dot(rhs.column(3)),
            w: self.row4.dot(rhs.column(4)),
        };
        self.row1 = row1;
        self.row2 = row2;
        self.row3 = row3;
        self.row4 = row4;
    }
}

impl<F: Float> core::ops::Mul<Vector4<F>> for Matrix4<F> {
    type Output = Vector4<F>;

    /// Applies the matrix to a column vector.
    fn mul(self, rhs: Vector4<F>) -> (r: Vector4<F>)
        ensures
            r == self.mul_vector_spec(rhs),
    {
        Vector4 {
            x: self.row1.dot(rhs),
            y: self.row2.dot(rhs),
            z: self.row3.dot(rhs),
            w: self.row4.dot(rhs),
        }
    }
}

impl<F: Float> vstd::std_specs::ops::MulSpecImpl<Vector4<F>> for Matrix4<F> {
    open spec fn obeys_mul_spec() -> bool {
        true
    }

    open spec fn mul_req(self, rhs: Vector4<F>) -> bool {
        true
    }

    open spec fn mul_spec(self, rhs: Vector4<F>) -> Vector4<F> {
        Matrix4::mul_vector_spec(self, rhs)
    }
}

impl<F: Float> core::ops::Add for Matrix4<F> {
    type Output = Self;

    /// Adds element by element.
    fn add(self, rhs: Self) -> (r: Self)
        ensures
            r == self.add_spec(rhs),
    {
        Matrix4 {
            row1: self.row1 + rhs.row1,
            row2: self.row2 + rhs.row2,
            row3: self.row3 + rhs.row3,
            row4: self.row4 + rhs.row4,
        }
    }
}

impl<F: Float> vstd::std_specs::ops::AddSpecImpl for Matrix4<F> {
    open spec fn obeys_add_spec() -> bool {
        true
    }

    open spec fn add_req(self, rhs: Self) -> bool {
        true
    }

    open spec fn add_spec(self, rhs: Self) -> Self {
        Matrix4::add_spec(self, rhs)
    }
}

impl<F: Float> core::ops::AddAssign for Matrix4<F> {
    /// Adds `rhs`, element by element.
    fn add_assign(&mut self, rhs: Self)
        ensures
            *final(self) == old(self).add_spec(rhs),
    {
        self.row1 = self.row1 + rhs.row1;
        self.row2 = self.row2 + rhs.row2;
        self.row3 = self.row3 + rhs.row3;
        self.row4 = self.row4 + rhs.row4;
    }
}

impl<F: Float> core::ops::Sub for Matrix4<F> {
    type Output = Self;

    /// Subtracts element by element.
    fn sub(self, rhs: Self) -> (r: Self)
        ensures
            r == self.sub_spec(rhs),
    {
        Matrix4 {
            row1: self.row1 - rhs.row1,
            row2: self.row2 - rhs.row2,
            row3: self.row3 - rhs.row3,
            row4: self.row4 - rhs.row4,
        }
    }
}

impl<F: Float> vstd::std_specs::ops::SubSpecImpl for Matrix4<F> {
    open spec fn obeys_sub_spec() -> bool {
        true
    }

    open spec fn sub_req(self, rhs: Self) -> bool {
        true
    }

    open spec fn sub_spec(self, rhs: Self) -> Self {
        Matrix4::sub_spec(self, rhs)
    }
}

impl<F: Float> core::ops::SubAssign for Matrix4<F> {
    /// Subtracts `rhs`, element by element.
    fn sub_assign(&mut self, rhs: Self)
        ensures
            *final(self) == old(self).sub_spec(rhs),
    {
        self.row1 = self.row1 - rhs.row1;
        self.row2 = self.row2 - rhs.row2;
        self.row3 = self.row3 - rhs.row3;
        self.row4 = self.row4 - rhs.row4;
    }
}

impl<F: Float> core::ops::Mul<F> for Matrix4<F> {
    type Output = Self;

    /// Multiplies every element by `rhs`.
    fn mul(self, rhs: F) -> (r: Self)
        ensures
            r == self.scaled_spec(rhs),
    {
        Matrix4 {
            row1: self.row1 * rhs,
            row2: self.row2 * rhs,
            row3: self.row3 * rhs,
            row4: self.row4 * rhs,
        }
    }
}

impl<F: Float> vstd::std_specs::ops::MulSpecImpl<F> for Matrix4<F> {
    open spec fn obeys_mul_spec() -> bool {
        true
    }

    open spec fn mul_req(self, rhs: F) -> bool {
        true
    }

    open spec fn mul_spec(self, rhs: F) -> Self {
        Matrix4::scaled_spec(self, rhs)
    }
}

impl<F: Float> core::ops::MulAssign<F> for Matrix4<F> {
    /// Multiplies every element by `rhs`.
    fn mul_assign(&mut self, rhs: F)
        ensures
            *final(self) == old(self).scaled_spec(rhs),
    {
        self.row1 = self.row1 * rhs;
        self.row2 = self.row2 * rhs;
        self.row3 = self.row3 * rhs;
        self.row4 = self.row4 * rhs;
    }
}

impl<F: Float> core::ops::Div<F> for Matrix4<F> {
    type Output = Self;

    /// Divides every element by `rhs`.
    fn div(self, rhs: F) -> (r: Self)
        ensures
            r == self.div_spec(rhs),
    {
        Matrix4 {
            row1: self.row1 / rhs,
            row2: self.row2 / rhs,
            row3: self.row3 / rhs,
            row4: self.row4 / rhs,
        }
    }
}

impl<F: Float> vstd::std_specs::ops::DivSpecImpl<F> for Matrix4<F> {
    open spec fn obeys_div_spec() -> bool {
        true
    }

    open spec fn div_req(self, rhs: F) -> bool {
        true
    }

    open spec fn div_spec(self, rhs: F) -> Self {
        Matrix4::div_spec(self, rhs)
    }
}

impl<F: Float> core::ops::DivAssign<F> for Matrix4<F> {
    /// Divides every element by `rhs`.
    fn div_assign(&mut self, rhs: F)
        ensures
            *final(self) == old(self).div_spec(rhs),
    {
        self.row1 = self.row1 / rhs;
        self.row2 = self.row2 / rhs;
        self.row3 = self.row3 / rhs;
        self.row4 = self.row4 / rhs;
    }
}

} // verus!
