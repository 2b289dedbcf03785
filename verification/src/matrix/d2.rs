//! 2x2 matrices.

use vstd::prelude::*;
use crate::complex::Complex;
use crate::float::Float;
use crate::matrix::d3::Matrix3;
use crate::matrix::elimination::Grid;
use crate::vector::d2::Vector2;
use crate::vector::d3::Vector3;

verus! {

/// Row major 2x2 matrix. The view is the sequence of the rows, each the
/// sequence of its entries: `m@[i][j]` is the entry in row `i` and column `j`,
/// both counted from zero.
#[derive(Copy, Debug, PartialEq)]
pub struct Matrix2<F: Float> {
    /// First row.
    pub row1: Vector2<F>,
    /// Second row.
    pub row2: Vector2<F>,
}

impl<F: Float> Clone for Matrix2<F> {
    fn clone(&self) -> (r: Self)
        ensures
            r == *self,
    {
        *self
    }
}

impl<F: Float> View for Matrix2<F> {
    type V = Seq<Seq<F>>;

    open spec fn view(&self) -> Seq<Seq<F>> {
        seq![self.row1@, self.row2@]
    }
}

impl<F: Float> Matrix2<F> {
    /// The matrix with all elements equal to `0`.
    pub open spec fn zero_spec() -> Self {
        Matrix2 {
            row1: Vector2::zero_spec(),
            row2: Vector2::zero_spec(),
        }
    }

    /// Returns [`Self::zero_spec`].
    pub fn zero() -> (r: Self)
        ensures
            r == Self::zero_spec(),
    {
        Matrix2 {
            row1: Vector2::zero(),
            row2: Vector2::zero(),
        }
    }

    /// The matrix with all elements equal to `1`.
    pub open spec fn one_spec() -> Self {
        Matrix2 {
            row1: Vector2::one_spec(),
            row2: Vector2::one_spec(),
        }
    }

    /// Returns [`Self::one_spec`].
    pub fn one() -> (r: Self)
        ensures
            r == Self::one_spec(),
    {
        Matrix2 {
            row1: Vector2::one(),
            row2: Vector2::one(),
        }
    }

    /// The identity matrix, with diagonal elements equal to `1` and `0` for
    /// every other.
    pub open spec fn identity_spec() -> Self {
        Matrix2 {
            row1: Vector2::unit_x_spec(),
            row2: Vector2::unit_y_spec(),
        }
    }

    /// Returns [`Self::identity_spec`].
    pub fn identity() -> (r: Self)
        ensures
            r == Self::identity_spec(),
    {
        Matrix2 {
            row1: Vector2::unit_x(),
            row2: Vector2::unit_y(),
        }
    }

    /// Creates a new matrix from individual elements, given row by row.
    pub fn new(
        m11: F, m12: F,
        m21: F, m22: F,
    ) -> (r: Self)
        ensures
            r == (Matrix2 {
                row1: Vector2 {
                    x: m11,
                    y: m12,
                },
                row2: Vector2 {
                    x: m21,
                    y: m22,
                },
            }),
    {
        Matrix2 {
            row1: Vector2 {
                x: m11,
                y: m12,
            },
            row2: Vector2 {
                x: m21,
                y: m22,
            },
        }
    }

    /// The matrix with the elements of `diag` on the diagonal and `0`
    /// everywhere else.
    pub open spec fn new_diagonal_spec(diag: Vector2<F>) -> Self {
        Matrix2 {
            row1: Vector2 {
                x: diag.x,
                y: F::zero_spec(),
            },
            row2: Vector2 {
                x: F::zero_spec(),
                y: diag.y,
            },
        }
    }

    /// Creates a new matrix from diagonal vector. All other elements are equal
    /// to `0`.
    pub fn new_diagonal(diag: Vector2<F>) -> (r: Self)
        ensures
            r == Self::new_diagonal_spec(diag),
    {
        Matrix2 {
            row1: Vector2 {
                x: diag.x,
                y: F::zero(),
            },
            row2: Vector2 {
                x: F::zero(),
                y: diag.y,
            },
        }
    }

    /// The 3x3 matrix with this matrix in the upper left block, `right` as the
    /// rest of the last column, `bottom` as the rest of the last row and
    /// `corner` as the last diagonal element.
    pub open spec fn extend_spec(self, bottom: Vector2<F>, right: Vector2<F>, corner: F) -> Matrix3<F> {
        Matrix3 {
            row1: Vector3 {
                x: self.row1.x,
                y: self.row1.y,
                z: right.x,
            },
            row2: Vector3 {
                x: self.row2.x,
                y: self.row2.y,
                z: right.y,
            },
            row3: Vector3 {
                x: bottom.x,
                y: bottom.y,
                z: corner,
            },
        }
    }

    /// Extends matrix by adding a bottom and right vectors and a corner to form
    /// 3x3 matrix.
    pub fn extend(&self, bottom: Vector2<F>, right: Vector2<F>, corner: F) -> (r: Matrix3<F>)
        ensures
            r == self.extend_spec(bottom, right, corner),
    {
        Matrix3 {
            row1: Vector3 {
                x: self.row1.x,
                y: self.row1.y,
                z: right.x,
            },
            row2: Vector3 {
                x: self.row2.x,
                y: self.row2.y,
                z: right.y,
            },
            row3: Vector3 {
                x: bottom.x,
                y: bottom.y,
                z: corner,
            },
        }
    }

    /// Creates a matrix from individual rows.
    pub fn from_rows(row1: Vector2<F>, row2: Vector2<F>) -> (r: Self)
        ensures
            r == (Matrix2 { row1, row2 }),
    {
        Matrix2 { row1, row2 }
    }

    /// The matrix whose columns are the given vectors.
    pub open spec fn from_columns_spec(col1: Vector2<F>, col2: Vector2<F>) -> Self {
        Matrix2 {
            row1: Vector2 {
                x: col1.x,
                y: col2.x,
            },
            row2: Vector2 {
                x: col1.y,
                y: col2.y,
            },
        }
    }

    /// Creates a matrix from individual columns.
    pub fn from_columns(col1: Vector2<F>, col2: Vector2<F>) -> (r: Self)
        ensures
            r == Self::from_columns_spec(col1, col2),
    {
        Matrix2 {
            row1: Vector2 {
                x: col1.x,
                y: col2.x,
            },
            row2: Vector2 {
                x: col1.y,
                y: col2.y,
            },
        }
    }

    /// The row number `n`, counted from one.
    pub open spec fn row_spec(self, n: int) -> Vector2<F>
        recommends
            1 <= n <= 2,
    {
        if n == 1 {
            self.row1
        } else {
            self.row2
        }
    }

    /// Returns the nth row, counted from one.
    pub fn row(&self, n: usize) -> (r: Vector2<F>)
        requires
            1 <= n <= 2,
        ensures
            r == self.row_spec(n as int),
            r@ == self@[n - 1],
    {
        if n == 1 {
            self.row1
        } else {
            self.row2
        }
    }

    /// Sets the nth row, counted from one, and leaves the other rows as they
    /// are.
    pub fn set_row(&mut self, n: usize, row: Vector2<F>)
        requires
            1 <= n <= 2,
        ensures
            final(self)@ == old(self)@.update(n - 1, row@),
    {
        if n == 1 {
            self.row1 = row;
        } else {
            self.row2 = row;
        }
        assert(self@ =~= old(self)@.update(n - 1, row@));
    }

    /// The column number `n`, counted from one.
    pub open spec fn column_spec(self, n: int) -> Vector2<F>
        recommends
            1 <= n <= 2,
    {
        if n == 1 {
            Vector2 {
                x: self.row1.x,
                y: self.row2.x,
            }
        } else {
            Vector2 {
                x: self.row1.y,
                y: self.row2.y,
            }
        }
    }

    /// Returns the nth column, counted from one.
    pub fn column(&self, n: usize) -> (r: Vector2<F>)
        requires
            1 <= n <= 2,
        ensures
            r == self.column_spec(n as int),
            r@ == Seq::new(2, |i: int| self@[i][n - 1]),
    {
        let r = if n == 1 {
            Vector2 {
                x: self.row1.x,
                y: self.row2.x,
            }
        } else {
            Vector2 {
                x: self.row1.y,
                y: self.row2.y,
            }
        };
        proof {
            assert(r@ =~= Seq::new(2, |i: int| self@[i][n - 1]));
        }
        r
    }

    /// Sets the nth column, counted from one, to the components of `column`
    /// from top to bottom, and leaves the other columns as they are.
    pub fn set_column(&mut self, n: usize, column: Vector2<F>)
        requires
            1 <= n <= 2,
        ensures
            final(self)@ == Seq::new(2, |i: int| old(self)@[i].update(n - 1, column@[i])),
    {
        if n == 1 {
            self.row1.x = column.x;
            self.row2.x = column.y;
        } else {
            self.row1.y = column.x;
            self.row2.y = column.y;
        }
        assert(self@ =~~= Seq::new(2, |i: int| old(self)@[i].update(n - 1, column@[i])));
    }

    /// The diagonal, from the upper left to the lower right.
    pub open spec fn diagonal_spec(self) -> Vector2<F> {
        Vector2 {
            x: self.row1.x,
            y: self.row2.y,
        }
    }

    /// Returns matrix's diagonal.
    pub fn diagonal(&self) -> (r: Vector2<F>)
        ensures
            r == self.diagonal_spec(),
            forall|i: int| 0 <= i < 2 ==> r@[i] == self@[i][i],
    {
        Vector2 {
            x: self.row1.x,
            y: self.row2.y,
        }
    }

    /// Sets matrix's diagonal and leaves the elements off the diagonal as they
    /// are.
    pub fn set_diagonal(&mut self, new: Vector2<F>)
        ensures
            final(self)@ == Seq::new(2, |i: int| old(self)@[i].update(i, new@[i])),
    {
        self.row1.x = new.x;
        self.row2.y = new.y;
        assert(self@ =~~= Seq::new(2, |i: int| old(self)@[i].update(i, new@[i])));
    }

    /// The transpose: rows and columns exchanged.
    pub open spec fn transposed_spec(self) -> Self {
        Matrix2 {
            row1: Vector2 {
                x: self.row1.x,
                y: self.row2.x,
            },
            row2: Vector2 {
                x: self.row1.y,
                y: self.row2.y,
            },
        }
    }

    /// Returns a transposed copy of the matrix.
    pub fn transposed(self) -> (r: Self)
        ensures
            r == self.transposed_spec(),
            forall|i: int, j: int| 0 <= i < 2 && 0 <= j < 2 ==> r@[i][j] == self@[j][i],
    {
        Matrix2 {
            row1: Vector2 {
                x: self.row1.x,
                y: self.row2.x,
            },
            row2: Vector2 {
                x: self.row1.y,
                y: self.row2.y,
            },
        }
    }

    /// Transposes the matrix, swapping rows and columns.
    pub fn transpose(&mut self)
        ensures
            *final(self) == old(self).transposed_spec(),
    {
        *self = self.transposed();
    }

    /// The matrix product `self * rhs`: the entry in row `i` and column `j` is
    /// the dot product of row `i` of `self` and column `j` of `rhs`.
    pub open spec fn mul_spec(self, rhs: Self) -> Self {
        Matrix2 {
            row1: Vector2 {
                x: self.row1.dot_spec(rhs.column_spec(1)),
                y: self.row1.dot_spec(rhs.column_spec(2)),
            },
            row2: Vector2 {
                x: self.row2.dot_spec(rhs.column_spec(1)),
                y: self.row2.dot_spec(rhs.column_spec(2)),
            },
        }
    }

    /// The product of the matrix and a column vector: component `i` is the dot
    /// product of row `i` and the vector.
    pub open spec fn mul_vector_spec(self, rhs: Vector2<F>) -> Vector2<F> {
        Vector2 {
            x: self.row1.dot_spec(rhs),
            y: self.row2.dot_spec(rhs),
        }
    }

    /// The element-wise sum.
    pub open spec fn add_spec(self, rhs: Self) -> Self {
        Matrix2 {
            row1: self.row1.add_spec(rhs.row1),
            row2: self.row2.add_spec(rhs.row2),
        }
    }

    /// The element-wise difference.
    pub open spec fn sub_spec(self, rhs: Self) -> Self {
        Matrix2 {
            row1: self.row1.sub_spec(rhs.row1),
            row2: self.row2.sub_spec(rhs.row2),
        }
    }

    /// The matrix with every element multiplied by `rhs`.
    pub open spec fn scaled_spec(self, rhs: F) -> Self {
        Matrix2 {
            row1: self.row1.scaled_spec(rhs),
            row2: self.row2.scaled_spec(rhs),
        }
    }

    /// The matrix with every element divided by `rhs`.
    pub open spec fn div_spec(self, rhs: F) -> Self {
        Matrix2 {
            row1: self.row1.div_spec(rhs),
            row2: self.row2.div_spec(rhs),
        }
    }

    /// The rotation of the plane by `angle` radians counter-clockwise about the
    /// origin: `[[cos, -sin], [sin, cos]]`.
    pub open spec fn from_angle_spec(angle: F) -> Self {
        Matrix2 {
            row1: Vector2 {
                x: angle.cos_spec(),
                y: angle.sin_spec().neg_spec(),
            },
            row2: Vector2 {
                x: angle.sin_spec(),
                y: angle.cos_spec(),
            },
        }
    }

    /// Creates a matrix that represents a 2d rotation by `angle` around origin
    /// counter-clockwise.
    pub fn from_angle(angle: F) -> (r: Self)
        ensures
            r == Self::from_angle_spec(angle),
    {
        Matrix2 {
            row1: Vector2 {
                x: angle.cos(),
                y: angle.sin().neg(),
            },
            row2: Vector2 {
                x: angle.sin(),
                y: angle.cos(),
            },
        }
    }

    /// Converts a complex number to a matrix.
    pub fn from_complex(cpx: Complex<F>) -> (r: Self)
        ensures
            r == cpx.to_matrix2_spec(),
    {
        cpx.to_matrix2()
    }

    /// The determinant `m11 * m22 - m12 * m21`.
    pub open spec fn det_spec(self) -> F {
        self.row1.x.mul_spec(self.row2.y).sub_spec(self.row1.y.mul_spec(self.row2.x))
    }

    /// Computes the determinant of the matrix.
    pub fn det(&self) -> (r: F)
        ensures
            r == self.det_spec(),
    {
        self.row1.x.mul(self.row2.y).sub(self.row1.y.mul(self.row2.x))
    }

    /// Swaps two rows in place. The rows are counted from one and must differ.
    pub fn swap_rows(&mut self, i: usize, j: usize)
        requires
            1 <= i <= 2,
            1 <= j <= 2,
            i != j,
        ensures
            final(self)@ == crate::matrix::elimination::swapped_rows(old(self)@, i - 1, j - 1),
    {
        crate::matrix::elimination::exchange_rows(self, i - 1, j - 1);
    }

    /// Turns matrix to its row echelon form using gaussian elimination with
    /// partial pivoting. Row exchanges are not tracked: see [`Self::det`].
    pub fn to_row_echelon(&mut self)
        ensures
            final(self)@ == crate::matrix::elimination::row_echelon(old(self)@),
    {
        crate::matrix::elimination::reduce_to_echelon(self);
    }

    /// Computes the rank of the matrix using gaussian elimination: the number
    /// of rows of the row echelon form that are not zero with regard to the
    /// tolerance of the scalar type.
    pub fn rank(&self) -> (r: usize)
        ensures
            r == crate::matrix::elimination::rank_of(self@),
            r <= 2,
    {
        let mut copy = *self;
        copy.to_row_echelon();
        crate::matrix::elimination::count_significant_rows(&copy)
    }

    /// Whether the matrix counts as invertible: the absolute value of its
    /// determinant, as [`Self::det`] computes it, is above the tolerance of the
    /// scalar type.
    pub open spec fn is_invertible_spec(self) -> bool {
        F::epsilon_spec().lt_spec(self.det_spec().abs_spec())
    }

    /// Decides whether the matrix counts as invertible. This is the test that
    /// [`Self::inverse`] and [`Self::inversed`] demand of their callers.
    pub fn is_invertible(&self) -> (r: bool)
        ensures
            r == self.is_invertible_spec(),
    {
        F::epsilon().lt(self.det().abs())
    }

    /// Gauss-Jordan elimination of the matrix, mirrored on `adjacent`: every
    /// row exchange, division and subtraction that reduces the matrix is
    /// applied to `adjacent` as well. On a matrix without a pivot left it stops
    /// early.
    pub fn row_echelon_reduced(&mut self, adjacent: &mut Self)
        ensures
            (final(self)@, final(adjacent)@) == crate::matrix::elimination::reduced_from(
                old(self)@,
                old(adjacent)@,
                0,
                0,
            ),
    {
        crate::matrix::elimination::reduce_with_adjacent(self, adjacent);
    }

    /// The identity matrix is the identity of its dimension.
    pub proof fn lemma_identity_view()
        ensures
            Self::identity_spec()@ == crate::matrix::elimination::identity_grid::<F>(2),
    {
        assert(Self::identity_spec()@ =~~= crate::matrix::elimination::identity_grid::<F>(2));
    }

    /// Inverses matrix in place without checking if the determinant is `0`. On
    /// a singular matrix the result is meaningless.
    pub fn inverse_unchecked(&mut self)
        ensures
            final(self)@ == crate::matrix::elimination::inverse_of(old(self)@),
    {
        let mut i = Self::identity();
        proof {
            Self::lemma_identity_view();
        }
        self.row_echelon_reduced(&mut i);
        *self = i;
    }

    /// Returns inversed matrix without checking if the determinant is `0`. On a
    /// singular matrix the result is meaningless.
    pub fn inversed_unchecked(&self) -> (r: Self)
        ensures
            r@ == crate::matrix::elimination::inverse_of(self@),
    {
        let mut i = Self::identity();
        let mut work = *self;
        proof {
            Self::lemma_identity_view();
        }
        work.row_echelon_reduced(&mut i);
        i
    }

    /// Inverses matrix in place. The matrix must be invertible in the sense of
    /// [`Self::is_invertible`]: to call this on a matrix whose determinant is
    /// `0` is a contract violation.
    pub fn inverse(&mut self)
        requires
            old(self).is_invertible_spec(),
        ensures
            final(self)@ == crate::matrix::elimination::inverse_of(old(self)@),
    {
        self.inverse_unchecked();
    }

    /// Returns inversed matrix. The matrix must be invertible in the sense of
    /// [`Self::is_invertible`]: to call this on a matrix whose determinant is
    /// `0` is a contract violation.
    pub fn inversed(&self) -> (r: Self)
        requires
            self.is_invertible_spec(),
        ensures
            r@ == crate::matrix::elimination::inverse_of(self@),
    {
        self.inversed_unchecked()
    }

    /// In exact arithmetic the determinant of a product is the product of the
    /// determinants.
    pub proof fn lemma_det_multiplicative(self, rhs: Self)
        requires
            crate::ring::is_exact::<F>(),
        ensures
            self.mul_spec(rhs).det_spec() == self.det_spec().mul_spec(rhs.det_spec()),
    {
        crate::ring::two_by_two(
            self.row1.x,
            self.row1.y,
            self.row2.x,
            self.row2.y,
            rhs.row1.x,
            rhs.row1.y,
            rhs.row2.x,
            rhs.row2.y,
        );
    }

    /// Two matrices with the same view are the same matrix.
    pub proof fn lemma_view_injective(self, other: Self)
        requires
            self@ == other@,
        ensures
            self == other,
    {
        assert(self@[0] == other@[0]);
        assert(self.row1@[0] == other.row1@[0]);
        assert(self.row1@[1] == other.row1@[1]);
        assert(self@[1] == other@[1]);
        assert(self.row2@[0] == other.row2@[0]);
        assert(self.row2@[1] == other.row2@[1]);
    }

    /// In exact arithmetic the view of the product is the product of the views.
    pub proof fn lemma_mul_view(self, rhs: Self)
        requires
            crate::ring::is_exact::<F>(),
        ensures
            self.mul_spec(rhs)@ == crate::matrix::exact::product(self@, rhs@),
    {
        let p = crate::matrix::exact::product(self@, rhs@);
        assert forall|i: int, c: int| 0 <= i < 2 && 0 <= c < 2 implies #[trigger] p[i][c]
            == self.mul_spec(rhs)@[i][c] by {
            crate::matrix::exact::lemma_combination_of_two(self@[i], rhs@, c);
        }
        assert(self.mul_spec(rhs)@ =~~= p);
    }

    /// The rank of the identity is the dimension, where the arithmetic keeps
    /// the identity stable under elimination.
    pub proof fn lemma_rank_of_identity()
        requires
            crate::matrix::elimination::identity_is_stable::<F>(),
        ensures
            crate::matrix::elimination::rank_of(Self::identity_spec()@) == 2,
    {
        Self::lemma_identity_view();
        crate::matrix::elimination::lemma_rank_of_identity::<F>(2);
    }

    /// The rank of the zero matrix is `0`, where `0` is negligible.
    pub proof fn lemma_rank_of_zero()
        requires
            F::zero_spec().abs_spec().lt_spec(F::epsilon_spec()),
        ensures
            crate::matrix::elimination::rank_of(Self::zero_spec()@) == 0,
    {
        crate::matrix::elimination::lemma_rank_of_zero(Self::zero_spec()@);
    }

    /// In exact arithmetic the identity is neutral for the product, on both
    /// sides.
    pub proof fn lemma_mul_identity(self)
        requires
            crate::ring::is_exact::<F>(),
        ensures
            Self::identity_spec().mul_spec(self) == self,
            self.mul_spec(Self::identity_spec()) == self,
    {
        Self::lemma_identity_view();
        Self::identity_spec().lemma_mul_view(self);
        self.lemma_mul_view(Self::identity_spec());
        crate::matrix::exact::lemma_identity_product(self@);
        crate::matrix::exact::lemma_product_identity(self@);
        Self::identity_spec().mul_spec(self).lemma_view_injective(self);
        self.mul_spec(Self::identity_spec()).lemma_view_injective(self);
    }

    /// In exact arithmetic the product of matrices is associative.
    pub proof fn lemma_mul_associative(self, b: Self, c: Self)
        requires
            crate::ring::is_exact::<F>(),
        ensures
            self.mul_spec(b).mul_spec(c) == self.mul_spec(b.mul_spec(c)),
    {
        self.lemma_mul_view(b);
        self.mul_spec(b).lemma_mul_view(c);
        b.lemma_mul_view(c);
        self.lemma_mul_view(b.mul_spec(c));
        crate::matrix::exact::lemma_product_associative(self@, b@, c@);
        self.mul_spec(b).mul_spec(c).lemma_view_injective(self.mul_spec(b.mul_spec(c)));
    }

    /// Inversion is correct in exact arithmetic. In a field, a matrix that has
    /// a left inverse is inverted by the reduction: what
    /// [`Self::inversed_unchecked`] returns for it is its inverse from both
    /// sides, and is the left inverse that was given.
    pub proof fn lemma_inverse_of_invertible(self, left: Self, inverse: Self)
        requires
            crate::ring::is_exact_field::<F>(),
            left.mul_spec(self) == Self::identity_spec(),
            inverse@ == crate::matrix::elimination::inverse_of(self@),
        ensures
            inverse.mul_spec(self) == Self::identity_spec(),
            self.mul_spec(inverse) == Self::identity_spec(),
            inverse == left,
    {
        crate::ring::field_is_ring::<F>();
        Self::lemma_identity_view();
        left.lemma_mul_view(self);
        crate::matrix::exact::lemma_inverse_of_invertible(self@, left@);
        inverse.lemma_mul_view(self);
        self.lemma_mul_view(inverse);
        inverse.mul_spec(self).lemma_view_injective(Self::identity_spec());
        self.mul_spec(inverse).lemma_view_injective(Self::identity_spec());
        inverse.lemma_view_injective(left);
    }


}

impl<F: Float> Grid<F> for Matrix2<F> {
    open spec fn dim_spec() -> nat {
        2
    }

    fn dim() -> (n: usize) {
        2
    }

    open spec fn cells(self) -> Seq<Seq<F>> {
        self@
    }

    proof fn lemma_square(self) {
    }

    fn entry(&self, i: usize, j: usize) -> (r: F) {
        if i == 0 {
            self.row1.get(j)
        } else {
            self.row2.get(j)
        }
    }

    fn set_entry(&mut self, i: usize, j: usize, value: F) {
        if i == 0 {
            self.row1.set(j, value);
        } else {
            self.row2.set(j, value);
        }
        assert(self@ =~= old(self)@.update(i as int, old(self)@[i as int].update(j as int, value)));
    }
}

impl<F: Float> core::ops::Mul for Matrix2<F> {
    type Output = Self;

    /// Multiplies two matrices, rows by columns.
    fn mul(self, rhs: Self) -> (r: Self)
        ensures
            r == self.mul_spec(rhs),
    {
        Matrix2 {
            row1: Vector2 {
                x: self.row1.dot(rhs.column(1)),
                y: self.row1.dot(rhs.column(2)),
            },
            row2: Vector2 {
                x: self.row2.dot(rhs.column(1)),
                y: self.row2.dot(rhs.column(2)),
            },
        }
    }
}

impl<F: Float> vstd::std_specs::ops::MulSpecImpl for Matrix2<F> {
    open spec fn obeys_mul_spec() -> bool {
        true
    }

    open spec fn mul_req(self, rhs: Self) -> bool {
        true
    }

    open spec fn mul_spec(self, rhs: Self) -> Self {
        Matrix2::mul_spec(self, rhs)
    }
}

impl<F: Float> core::ops::MulAssign for Matrix2<F> {
    /// Replaces the matrix by its product with `rhs`.
    fn mul_assign(&mut self, rhs: Self)
        ensures
            *final(self) == old(self).mul_spec(rhs),
    {
        let row1 = Vector2 {
            x: self.row1.dot(rhs.column(1)),
            y: self.row1.dot(rhs.column(2)),
        };
        let row2 = Vector2 {
            x: self.row2.dot(rhs.column(1)),
            y: self.row2.dot(rhs.column(2)),
        };
        self.row1 = row1;
        self.row2 = row2;
    }
}

impl<F: Float> core::ops::Mul<Vector2<F>> for Matrix2<F> {
    type Output = Vector2<F>;

    /// Applies the matrix to a column vector.
    fn mul(self, rhs: Vector2<F>) -> (r: Vector2<F>)
        ensures
            r == self.mul_vector_spec(rhs),
    {
        Vector2 {
            x: self.row1.dot(rhs),
            y: self.row2.dot(rhs),
        }
    }
}

impl<F: Float> vstd::std_specs::ops::MulSpecImpl<Vector2<F>> for Matrix2<F> {
    open spec fn obeys_mul_spec() -> bool {
        true
    }

    open spec fn mul_req(self, rhs: Vector2<F>) -> bool {
        true
    }

    open spec fn mul_spec(self, rhs: Vector2<F>) -> Vector2<F> {
        Matrix2::mul_vector_spec(self, rhs)
    }
}

impl<F: Float> core::ops::Add for Matrix2<F> {
    type Output = Self;

    /// Adds element by element.
    fn add(self, rhs: Self) -> (r: Self)
        ensures
            r == self.add_spec(rhs),
    {
        Matrix2 {
            row1: self.row1 + rhs.row1,
            row2: self.row2 + rhs.row2,
        }
    }
}

impl<F: Float> vstd::std_specs::ops::AddSpecImpl for Matrix2<F> {
    open spec fn obeys_add_spec() -> bool {
        true
    }

    open spec fn add_req(self, rhs: Self) -> bool {
        true
    }

    open spec fn add_spec(self, rhs: Self) -> Self {
        Matrix2::add_spec(self, rhs)
    }
}

impl<F: Float> core::ops::AddAssign for Matrix2<F> {
    /// Adds `rhs`, element by element.
    fn add_assign(&mut self, rhs: Self)
        ensures
            *final(self) == old(self).add_spec(rhs),
    {
        self.row1 = self.row1 + rhs.row1;
        self.row2 = self.row2 + rhs.row2;
    }
}

impl<F: Float> core::ops::Sub for Matrix2<F> {
    type Output = Self;

    /// Subtracts element by element.
    fn sub(self, rhs: Self) -> (r: Self)
        ensures
            r == self.sub_spec(rhs),
    {
        Matrix2 {
            row1: self.row1 - rhs.row1,
            row2: self.row2 - rhs.row2,
        }
    }
}

impl<F: Float> vstd::std_specs::ops::SubSpecImpl for Matrix2<F> {
    open spec fn obeys_sub_spec() -> bool {
        true
    }

    open spec fn sub_req(self, rhs: Self) -> bool {
        true
    }

    open spec fn sub_spec(self, rhs: Self) -> Self {
        Matrix2::sub_spec(self, rhs)
    }
}

impl<F: Float> core::ops::SubAssign for Matrix2<F> {
    /// Subtracts `rhs`, element by element.
    fn sub_assign(&mut self, rhs: Self)
        ensures
            *final(self) == old(self).sub_spec(rhs),
    {
        self.row1 = self.row1 - rhs.row1;
        self.row2 = self.row2 - rhs.row2;
    }
}

impl<F: Float> core::ops::Mul<F> for Matrix2<F> {
    type Output = Self;

    /// Multiplies every element by `rhs`.
    fn mul(self, rhs: F) -> (r: Self)
        ensures
            r == self.scaled_spec(rhs),
    {
        Matrix2 {
            row1: self.row1 * rhs,
            row2: self.row2 * rhs,
        }
    }
}

impl<F: Float> vstd::std_specs::ops::MulSpecImpl<F> for Matrix2<F> {
    open spec fn obeys_mul_spec() -> bool {
        true
    }

    open spec fn mul_req(self, rhs: F) -> bool {
        true
    }

    open spec fn mul_spec(self, rhs: F) -> Self {
        Matrix2::scaled_spec(self, rhs)
    }
}

impl<F: Float> core::ops::MulAssign<F> for Matrix2<F> {
    /// Multiplies every element by `rhs`.
    fn mul_assign(&mut self, rhs: F)
        ensures
            *final(self) == old(self).scaled_spec(rhs),
    {
        self.row1 = self.row1 * rhs;
        self.row2 = self.row2 * rhs;
    }
}

impl<F: Float> core::ops::Div<F> for Matrix2<F> {
    type Output = Self;

    /// Divides every element by `rhs`.
    fn div(self, rhs: F) -> (r: Self)
        ensures
            r == self.div_spec(rhs),
    {
        Matrix2 {
            row1: self.row1 / rhs,
            row2: self.row2 / rhs,
        }
    }
}

impl<F: Float> vstd::std_specs::ops::DivSpecImpl<F> for Matrix2<F> {
    open spec fn obeys_div_spec() -> bool {
        true
    }

    open spec fn div_req(self, rhs: F) -> bool {
        true
    }

    open spec fn div_spec(self, rhs: F) -> Self {
        Matrix2::div_spec(self, rhs)
    }
}

impl<F: Float> core::ops::DivAssign<F> for Matrix2<F> {
    /// Divides every element by `rhs`.
    fn div_assign(&mut self, rhs: F)
        ensures
            *final(self) == old(self).div_spec(rhs),
    {
        self.row1 = self.row1 / rhs;
        self.row2 = self.row2 / rhs;
    }
}

impl<F: Float> Default for Matrix2<F> {
    /// The identity matrix.
    fn default() -> (r: Self)
        ensures
            r == Self::identity_spec(),
    {
        Self::identity()
    }
}

} // verus!
