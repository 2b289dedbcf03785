//! Square matrices: access, products, elimination, rank, determinant and
//! inversion, run on double and single precision scalars.

use math::{Float, Matrix2, Matrix3, Matrix4, Vector2, Vector3, Vector4};

/// A scalar of the library over `f64`. Each specification function is the
/// operation itself.
#[derive(Clone, Copy, Debug, PartialEq)]
struct D(f64);

impl Float for D {
    fn zero() -> Self {
        D(0.0)
    }

    fn zero_spec() -> Self {
        Self::zero()
    }

    fn one() -> Self {
        D(1.0)
    }

    fn one_spec() -> Self {
        Self::one()
    }

    fn two() -> Self {
        D(2.0)
    }

    fn two_spec() -> Self {
        Self::two()
    }

    fn pi() -> Self {
        D(std::f64::consts::PI)
    }

    fn pi_spec() -> Self {
        Self::pi()
    }

    fn epsilon() -> Self {
        D(f64::EPSILON)
    }

    fn epsilon_spec() -> Self {
        Self::epsilon()
    }

    fn add(self, rhs: Self) -> Self {
        D(self.0 + rhs.0)
    }

    fn add_spec(self, rhs: Self) -> Self {
        self.add(rhs)
    }

    fn sub(self, rhs: Self) -> Self {
        D(self.0 - rhs.0)
    }

    fn sub_spec(self, rhs: Self) -> Self {
        self.sub(rhs)
    }

    fn mul(self, rhs: Self) -> Self {
        D(self.0 * rhs.0)
    }

    fn mul_spec(self, rhs: Self) -> Self {
        self.mul(rhs)
    }

    fn div(self, rhs: Self) -> Self {
        D(self.0 / rhs.0)
    }

    fn div_spec(self, rhs: Self) -> Self {
        self.div(rhs)
    }

    fn atan2(self, rhs: Self) -> Self {
        D(self.0.atan2(rhs.0))
    }

    fn atan2_spec(self, rhs: Self) -> Self {
        Float::atan2(self, rhs)
    }

    fn max(self, rhs: Self) -> Self {
        D(self.0.max(rhs.0))
    }

    fn max_spec(self, rhs: Self) -> Self {
        Float::max(self, rhs)
    }

    fn min(self, rhs: Self) -> Self {
        D(self.0.min(rhs.0))
    }

    fn min_spec(self, rhs: Self) -> Self {
        Float::min(self, rhs)
    }

    fn clamp(self, from: Self, to: Self) -> Self {
        D(self.0.clamp(from.0, to.0))
    }

    fn clamp_spec(self, from: Self, to: Self) -> Self {
        Float::clamp(self, from, to)
    }

    fn neg(self) -> Self {
        D(-self.0)
    }

    fn neg_spec(self) -> Self {
        self.neg()
    }

    fn abs(self) -> Self {
        D(self.0.abs())
    }

    fn abs_spec(self) -> Self {
        Float::abs(self)
    }

    fn signum(self) -> Self {
        D(self.0.signum())
    }

    fn signum_spec(self) -> Self {
        Float::signum(self)
    }

    fn sqrt(self) -> Self {
        D(self.0.sqrt())
    }

    fn sqrt_spec(self) -> Self {
        Float::sqrt(self)
    }

    fn sin(self) -> Self {
        D(self.0.sin())
    }

    fn sin_spec(self) -> Self {
        Float::sin(self)
    }

    fn cos(self) -> Self {
        D(self.0.cos())
    }

    fn cos_spec(self) -> Self {
        Float::cos(self)
    }

    fn asin(self) -> Self {
        D(self.0.asin())
    }

    fn asin_spec(self) -> Self {
        Float::asin(self)
    }

    fn acos(self) -> Self {
        D(self.0.acos())
    }

    fn acos_spec(self) -> Self {
        Float::acos(self)
    }

    fn exp(self) -> Self {
        D(self.0.exp())
    }

    fn exp_spec(self) -> Self {
        Float::exp(self)
    }

    fn ln(self) -> Self {
        D(self.0.ln())
    }

    fn ln_spec(self) -> Self {
        Float::ln(self)
    }

    fn to_radians(self) -> Self {
        D(self.0.to_radians())
    }

    fn to_radians_spec(self) -> Self {
        Float::to_radians(self)
    }

    fn to_degrees(self) -> Self {
        D(self.0.to_degrees())
    }

    fn to_degrees_spec(self) -> Self {
        Float::to_degrees(self)
    }

    fn lt(self, rhs: Self) -> bool {
        self.0 < rhs.0
    }

    fn lt_spec(self, rhs: Self) -> bool {
        Float::lt(self, rhs)
    }

    fn eq(self, rhs: Self) -> bool {
        self.0 == rhs.0
    }

    fn eq_spec(self, rhs: Self) -> bool {
        Float::eq(self, rhs)
    }
}
/// A scalar of the library over `f32`. Each specification function is the
/// operation itself.
#[derive(Clone, Copy, Debug, PartialEq)]
struct S(f32);

impl Float for S {
    fn zero() -> Self {
        S(0.0)
    }

    fn zero_spec() -> Self {
        Self::zero()
    }

    fn one() -> Self {
        S(1.0)
    }

    fn one_spec() -> Self {
        Self::one()
    }

    fn two() -> Self {
        S(2.0)
    }

    fn two_spec() -> Self {
        Self::two()
    }

    fn pi() -> Self {
        S(std::f32::consts::PI)
    }

    fn pi_spec() -> Self {
        Self::pi()
    }

    fn epsilon() -> Self {
        S(f32::EPSILON)
    }

    fn epsilon_spec() -> Self {
        Self::epsilon()
    }

    fn add(self, rhs: Self) -> Self {
        S(self.0 + rhs.0)
    }

    fn add_spec(self, rhs: Self) -> Self {
        self.add(rhs)
    }

    fn sub(self, rhs: Self) -> Self {
        S(self.0 - rhs.0)
    }

    fn sub_spec(self, rhs: Self) -> Self {
        self.sub(rhs)
    }

    fn mul(self, rhs: Self) -> Self {
        S(self.0 * rhs.0)
    }

    fn mul_spec(self, rhs: Self) -> Self {
        self.mul(rhs)
    }

    fn div(self, rhs: Self) -> Self {
        S(self.0 / rhs.0)
    }

    fn div_spec(self, rhs: Self) -> Self {
        self.div(rhs)
    }

    fn atan2(self, rhs: Self) -> Self {
        S(self.0.atan2(rhs.0))
    }

    fn atan2_spec(self, rhs: Self) -> Self {
        Float::atan2(self, rhs)
    }

    fn max(self, rhs: Self) -> Self {
        S(self.0.max(rhs.0))
    }

    fn max_spec(self, rhs: Self) -> Self {
        Float::max(self, rhs)
    }

    fn min(self, rhs: Self) -> Self {
        S(self.0.min(rhs.0))
    }

    fn min_spec(self, rhs: Self) -> Self {
        Float::min(self, rhs)
    }

    fn clamp(self, from: Self, to: Self) -> Self {
        S(self.0.clamp(from.0, to.0))
    }

    fn clamp_spec(self, from: Self, to: Self) -> Self {
        Float::clamp(self, from, to)
    }

    fn neg(self) -> Self {
        S(-self.0)
    }

    fn neg_spec(self) -> Self {
        self.neg()
    }

    fn abs(self) -> Self {
        S(self.0.abs())
    }

    fn abs_spec(self) -> Self {
        Float::abs(self)
    }

    fn signum(self) -> Self {
        S(self.0.signum())
    }

    fn signum_spec(self) -> Self {
        Float::signum(self)
    }

    fn sqrt(self) -> Self {
        S(self.0.sqrt())
    }

    fn sqrt_spec(self) -> Self {
        Float::sqrt(self)
    }

    fn sin(self) -> Self {
        S(self.0.sin())
    }

    fn sin_spec(self) -> Self {
        Float::sin(self)
    }

    fn cos(self) -> Self {
        S(self.0.cos())
    }

    fn cos_spec(self) -> Self {
        Float::cos(self)
    }

    fn asin(self) -> Self {
        S(self.0.asin())
    }

    fn asin_spec(self) -> Self {
        Float::asin(self)
    }

    fn acos(self) -> Self {
        S(self.0.acos())
    }

    fn acos_spec(self) -> Self {
        Float::acos(self)
    }

    fn exp(self) -> Self {
        S(self.0.exp())
    }

    fn exp_spec(self) -> Self {
        Float::exp(self)
    }

    fn ln(self) -> Self {
        S(self.0.ln())
    }

    fn ln_spec(self) -> Self {
        Float::ln(self)
    }

    fn to_radians(self) -> Self {
        S(self.0.to_radians())
    }

    fn to_radians_spec(self) -> Self {
        Float::to_radians(self)
    }

    fn to_degrees(self) -> Self {
        S(self.0.to_degrees())
    }

    fn to_degrees_spec(self) -> Self {
        Float::to_degrees(self)
    }

    fn lt(self, rhs: Self) -> bool {
        self.0 < rhs.0
    }

    fn lt_spec(self, rhs: Self) -> bool {
        Float::lt(self, rhs)
    }

    fn eq(self, rhs: Self) -> bool {
        self.0 == rhs.0
    }

    fn eq_spec(self, rhs: Self) -> bool {
        Float::eq(self, rhs)
    }
}
fn m2(a: [[f64; 2]; 2]) -> Matrix2<D> {
    Matrix2::from_rows(
        Vector2::new(D(a[0][0]), D(a[0][1])),
        Vector2::new(D(a[1][0]), D(a[1][1])),
    )
}

fn v3(a: [f64; 3]) -> Vector3<D> {
    Vector3::new(D(a[0]), D(a[1]), D(a[2]))
}

fn v4(a: [f64; 4]) -> Vector4<D> {
    Vector4::new(D(a[0]), D(a[1]), D(a[2]), D(a[3]))
}

fn m3(a: [[f64; 3]; 3]) -> Matrix3<D> {
    Matrix3::from_rows(v3(a[0]), v3(a[1]), v3(a[2]))
}

fn m4(a: [[f64; 4]; 4]) -> Matrix4<D> {
    Matrix4::from_rows(v4(a[0]), v4(a[1]), v4(a[2]), v4(a[3]))
}

fn a2(m: Matrix2<D>) -> [[f64; 2]; 2] {
    [[m.row1.x.0, m.row1.y.0], [m.row2.x.0, m.row2.y.0]]
}

fn a3(m: Matrix3<D>) -> [[f64; 3]; 3] {
    [
        [m.row1.x.0, m.row1.y.0, m.row1.z.0],
        [m.row2.x.0, m.row2.y.0, m.row2.z.0],
        [m.row3.x.0, m.row3.y.0, m.row3.z.0],
    ]
}

fn a4(m: Matrix4<D>) -> [[f64; 4]; 4] {
    [
        [m.row1.x.0, m.row1.y.0, m.row1.z.0, m.row1.w.0],
        [m.row2.x.0, m.row2.y.0, m.row2.z.0, m.row2.w.0],
        [m.row3.x.0, m.row3.y.0, m.row3.z.0, m.row3.w.0],
        [m.row4.x.0, m.row4.y.0, m.row4.z.0, m.row4.w.0],
    ]
}

fn close2(m: Matrix2<D>, e: [[f64; 2]; 2], tol: f64) -> bool {
    let a = a2(m);
    (0..2).all(|i| (0..2).all(|j| (a[i][j] - e[i][j]).abs() <= tol))
}

fn close3(m: Matrix3<D>, e: [[f64; 3]; 3], tol: f64) -> bool {
    let a = a3(m);
    (0..3).all(|i| (0..3).all(|j| (a[i][j] - e[i][j]).abs() <= tol))
}

fn close4(m: Matrix4<D>, e: [[f64; 4]; 4], tol: f64) -> bool {
    let a = a4(m);
    (0..4).all(|i| (0..4).all(|j| (a[i][j] - e[i][j]).abs() <= tol))
}

const I2: [[f64; 2]; 2] = [[1.0, 0.0], [0.0, 1.0]];
const I3: [[f64; 3]; 3] = [[1.0, 0.0, 0.0], [0.0, 1.0, 0.0], [0.0, 0.0, 1.0]];
const I4: [[f64; 4]; 4] =
    [[1.0, 0.0, 0.0, 0.0], [0.0, 1.0, 0.0, 0.0], [0.0, 0.0, 1.0, 0.0], [0.0, 0.0, 0.0, 1.0]];

// ---- construction and access

#[test]
fn new_fills_row_by_row() {
    let m = Matrix3::new(D(1.0), D(2.0), D(3.0), D(4.0), D(5.0), D(6.0), D(7.0), D(8.0), D(9.0));
    assert_eq!(m, m3([[1.0, 2.0, 3.0], [4.0, 5.0, 6.0], [7.0, 8.0, 9.0]]));
    let n = Matrix2::new(D(1.0), D(2.0), D(3.0), D(4.0));
    assert_eq!(n, m2([[1.0, 2.0], [3.0, 4.0]]));
}

#[test]
fn named_matrices() {
    assert_eq!(Matrix2::<D>::identity(), m2(I2));
    assert_eq!(Matrix3::<D>::identity(), m3(I3));
    assert_eq!(Matrix4::<D>::identity(), m4(I4));
    assert_eq!(Matrix3::<D>::zero(), m3([[0.0; 3]; 3]));
    assert_eq!(Matrix4::<D>::one(), m4([[1.0; 4]; 4]));
    assert_eq!(Matrix2::<D>::default(), m2(I2));
}

#[test]
fn from_columns_transposes_from_rows() {
    let m = Matrix3::from_columns(v3([1.0, 2.0, 3.0]), v3([4.0, 5.0, 6.0]), v3([7.0, 8.0, 9.0]));
    assert_eq!(m, m3([[1.0, 4.0, 7.0], [2.0, 5.0, 8.0], [3.0, 6.0, 9.0]]));
}

#[test]
fn new_diagonal_and_scale() {
    let m = Matrix3::new_diagonal(v3([2.0, 3.0, 4.0]));
    assert_eq!(m, m3([[2.0, 0.0, 0.0], [0.0, 3.0, 0.0], [0.0, 0.0, 4.0]]));
    assert_eq!(Matrix3::new_scale(v3([2.0, 3.0, 4.0])), m);
    assert_eq!(m.diagonal(), v3([2.0, 3.0, 4.0]));
    assert_eq!(m.trace(), D(9.0));
}

#[test]
fn extend_adds_a_row_and_a_column() {
    let m = m2([[1.0, 2.0], [3.0, 4.0]]);
    let e = m.extend(Vector2::new(D(7.0), D(8.0)), Vector2::new(D(5.0), D(6.0)), D(9.0));
    assert_eq!(e, m3([[1.0, 2.0, 5.0], [3.0, 4.0, 6.0], [7.0, 8.0, 9.0]]));
    let f = Matrix3::<D>::identity().extend(v3([0.0; 3]), v3([1.0, 2.0, 3.0]), D(1.0));
    assert_eq!(f, Matrix4::new_translation(v3([1.0, 2.0, 3.0])));
}

#[test]
fn rows_and_columns_count_from_one() {
    let m = m3([[1.0, 2.0, 3.0], [4.0, 5.0, 6.0], [7.0, 8.0, 9.0]]);
    assert_eq!(m.row(1), v3([1.0, 2.0, 3.0]));
    assert_eq!(m.row(3), v3([7.0, 8.0, 9.0]));
    assert_eq!(m.column(1), v3([1.0, 4.0, 7.0]));
    assert_eq!(m.column(2), v3([2.0, 5.0, 8.0]));
    assert_eq!(m.column(3), v3([3.0, 6.0, 9.0]));
}

#[test]
fn set_row_replaces_one_row() {
    let mut m = m4([[0.0; 4]; 4]);
    m.set_row(4, v4([1.0, 2.0, 3.0, 4.0]));
    m.set_row(2, v4([5.0, 6.0, 7.0, 8.0]));
    assert_eq!(
        m,
        m4([[0.0; 4], [5.0, 6.0, 7.0, 8.0], [0.0; 4], [1.0, 2.0, 3.0, 4.0]])
    );
}

#[test]
fn set_column_replaces_one_column() {
    let mut m = m2([[1.0, 2.0], [3.0, 4.0]]);
    m.set_column(1, Vector2::new(D(7.0), D(8.0)));
    assert_eq!(m, m2([[7.0, 2.0], [8.0, 4.0]]));
    m.set_column(2, Vector2::new(D(5.0), D(6.0)));
    assert_eq!(m, m2([[7.0, 5.0], [8.0, 6.0]]));
    let mut n = m3([[0.0; 3]; 3]);
    n.set_column(2, v3([1.0, 2.0, 3.0]));
    assert_eq!(n, m3([[0.0, 1.0, 0.0], [0.0, 2.0, 0.0], [0.0, 3.0, 0.0]]));
    let mut p = m4([[0.0; 4]; 4]);
    p.set_column(4, v4([1.0, 2.0, 3.0, 4.0]));
    assert_eq!(p.column(4), v4([1.0, 2.0, 3.0, 4.0]));
    assert_eq!(p.column(3), v4([0.0; 4]));
}

#[test]
fn set_diagonal_keeps_the_rest() {
    let mut m = m3([[1.0, 2.0, 3.0], [4.0, 5.0, 6.0], [7.0, 8.0, 9.0]]);
    m.set_diagonal(v3([0.0, 0.0, 0.0]));
    assert_eq!(m, m3([[0.0, 2.0, 3.0], [4.0, 0.0, 6.0], [7.0, 8.0, 0.0]]));
}

#[test]
fn transpose_exchanges_rows_and_columns() {
    let m = m3([[1.0, 2.0, 3.0], [4.0, 5.0, 6.0], [7.0, 8.0, 9.0]]);
    let t = m.transposed();
    assert_eq!(t, m3([[1.0, 4.0, 7.0], [2.0, 5.0, 8.0], [3.0, 6.0, 9.0]]));
    assert_eq!(t.transposed(), m);
    let mut n = m2([[1.0, 2.0], [3.0, 4.0]]);
    n.transpose();
    assert_eq!(n, m2([[1.0, 3.0], [2.0, 4.0]]));
    let mut p = m4([
        [1.0, 2.0, 3.0, 4.0],
        [5.0, 6.0, 7.0, 8.0],
        [9.0, 10.0, 11.0, 12.0],
        [13.0, 14.0, 15.0, 16.0],
    ]);
    p.transpose();
    assert_eq!(p.row(1), v4([1.0, 5.0, 9.0, 13.0]));
    assert_eq!(p.row(4), v4([4.0, 8.0, 12.0, 16.0]));
}

#[test]
fn swap_rows_counts_from_one() {
    let mut m = m3([[1.0, 2.0, 3.0], [4.0, 5.0, 6.0], [7.0, 8.0, 9.0]]);
    m.swap_rows(1, 3);
    assert_eq!(m, m3([[7.0, 8.0, 9.0], [4.0, 5.0, 6.0], [1.0, 2.0, 3.0]]));
}

// ---- arithmetic

#[test]
fn product_is_rows_by_columns() {
    let a = m2([[1.0, 2.0], [3.0, 4.0]]);
    let b = m2([[5.0, 6.0], [7.0, 8.0]]);
    assert_eq!(a * b, m2([[19.0, 22.0], [43.0, 50.0]]));
    assert_eq!(b * a, m2([[23.0, 34.0], [31.0, 46.0]]));
    let mut c = a;
    c *= b;
    assert_eq!(c, a * b);
}

#[test]
fn product_with_identity() {
    let a = m3([[1.0, 2.0, 3.0], [4.0, 5.0, 6.0], [7.0, 8.0, 10.0]]);
    assert_eq!(a * Matrix3::identity(), a);
    assert_eq!(Matrix3::identity() * a, a);
    let b = m4([
        [1.0, 2.0, 3.0, 4.0],
        [5.0, 6.0, 7.0, 8.0],
        [9.0, 10.0, 11.0, 12.0],
        [13.0, 14.0, 15.0, 16.0],
    ]);
    let mut c = b;
    c *= Matrix4::identity();
    assert_eq!(c, b);
    assert_eq!((b * b).row(1), v4([90.0, 100.0, 110.0, 120.0]));
}

#[test]
fn matrix_times_vector() {
    let a = m3([[1.0, 2.0, 3.0], [4.0, 5.0, 6.0], [7.0, 8.0, 9.0]]);
    assert_eq!(a * v3([1.0, 0.0, -1.0]), v3([-2.0, -2.0, -2.0]));
    let t = Matrix4::new_translation(v3([1.0, 2.0, 3.0]));
    assert_eq!(t * v4([10.0, 20.0, 30.0, 1.0]), v4([11.0, 22.0, 33.0, 1.0]));
    assert_eq!(m2([[0.0, -1.0], [1.0, 0.0]]) * Vector2::new(D(1.0), D(0.0)), Vector2::new(D(0.0), D(1.0)));
}

#[test]
fn element_wise_operators() {
    let a = m2([[1.0, 2.0], [3.0, 4.0]]);
    let b = m2([[4.0, 3.0], [2.0, 1.0]]);
    assert_eq!(a + b, m2([[5.0, 5.0], [5.0, 5.0]]));
    assert_eq!(a - b, m2([[-3.0, -1.0], [1.0, 3.0]]));
    assert_eq!(a * D(2.0), m2([[2.0, 4.0], [6.0, 8.0]]));
    assert_eq!(a / D(2.0), m2([[0.5, 1.0], [1.5, 2.0]]));
    let mut c = a;
    c += b;
    c -= a;
    assert_eq!(c, b);
    c *= D(4.0);
    c /= D(2.0);
    assert_eq!(c, m2([[8.0, 6.0], [4.0, 2.0]]));
}

// ---- elimination

#[test]
fn echelon_swaps_in_the_larger_pivot() {
    let mut m = m2([[0.0, 2.0], [1.0, 1.0]]);
    m.to_row_echelon();
    assert_eq!(m, m2([[1.0, 1.0], [0.0, 2.0]]));
}

#[test]
fn echelon_of_tied_pivots_takes_the_lower_row() {
    let mut m = m2([[1.0, 2.0], [1.0, 3.0]]);
    m.to_row_echelon();
    assert_eq!(m, m2([[1.0, 3.0], [0.0, -1.0]]));
}

#[test]
fn echelon_passes_over_a_column_without_pivot() {
    let mut m = m2([[0.0, 1.0], [0.0, 2.0]]);
    m.to_row_echelon();
    assert_eq!(m, m2([[0.0, 2.0], [0.0, 0.0]]));
}

#[test]
fn echelon_scans_for_the_pivot_from_the_cursor_down() {
    // The largest entry of the second column stands in the first row, which
    // is already used up: the pivot is sought among the rows below it.
    let mut m = m3([[1.0, 9.0, 0.0], [0.0, 1.0, 1.0], [0.0, 2.0, 4.0]]);
    m.to_row_echelon();
    assert_eq!(m, m3([[1.0, 9.0, 0.0], [0.0, 2.0, 4.0], [0.0, 0.0, -1.0]]));
}

#[test]
fn echelon_of_a_three_by_three() {
    let mut m = m3([[2.0, 1.0, -1.0], [-3.0, -1.0, 2.0], [-2.0, 1.0, 2.0]]);
    m.to_row_echelon();
    let e = [[-3.0, -1.0, 2.0], [0.0, 5.0 / 3.0, 2.0 / 3.0], [0.0, 0.0, 0.2]];
    assert!(close3(m, e, 1e-12));
    // below the pivots the entries are set to zero outright
    assert_eq!(m.row2.x, D(0.0));
    assert_eq!(m.row3.x, D(0.0));
    assert_eq!(m.row3.y, D(0.0));
}

#[test]
fn echelon_leaves_an_echelon_form_alone() {
    let e = m3([[4.0, 1.0, 2.0], [0.0, 3.0, 1.0], [0.0, 0.0, 2.0]]);
    let mut m = e;
    m.to_row_echelon();
    assert_eq!(m, e);
}

#[test]
fn rank_of_identity_is_the_dimension() {
    assert_eq!(Matrix2::<D>::identity().rank(), 2);
    assert_eq!(Matrix3::<D>::identity().rank(), 3);
    assert_eq!(Matrix4::<D>::identity().rank(), 4);
    assert_eq!(Matrix4::<S>::identity().rank(), 4);
}

#[test]
fn rank_of_zero_is_zero() {
    assert_eq!(Matrix2::<D>::zero().rank(), 0);
    assert_eq!(Matrix3::<D>::zero().rank(), 0);
    assert_eq!(Matrix4::<D>::zero().rank(), 0);
}

#[test]
fn rank_counts_independent_rows() {
    assert_eq!(m3([[1.0, 2.0, 3.0], [2.0, 4.0, 6.0], [1.0, 0.0, 1.0]]).rank(), 2);
    assert_eq!(m3([[1.0, 2.0, 3.0], [2.0, 4.0, 6.0], [3.0, 6.0, 9.0]]).rank(), 1);
    assert_eq!(m2([[1.0, 2.0], [2.0, 4.0]]).rank(), 1);
    assert_eq!(Matrix4::<D>::one().rank(), 1);
    assert_eq!(m3([[2.0, 1.0, -1.0], [-3.0, -1.0, 2.0], [-2.0, 1.0, 2.0]]).rank(), 3);
}

#[test]
fn rank_is_at_most_the_dimension() {
    let samples = [
        [[0.5, -1.5, 2.0], [3.0, 0.25, -4.0], [1.0, 1.0, 1.0]],
        [[1e-20, 0.0, 0.0], [0.0, 1e20, 0.0], [0.0, 0.0, 1.0]],
        [[f64::NAN, 1.0, 2.0], [3.0, f64::INFINITY, 4.0], [5.0, 6.0, 7.0]],
    ];
    for s in samples {
        assert!(m3(s).rank() <= 3);
    }
}

#[test]
fn determinant_of_a_two_by_two_is_exact() {
    assert_eq!(m2([[1.0, 2.0], [3.0, 4.0]]).det(), D(-2.0));
    assert_eq!(m2([[0.0, 1.0], [1.0, 0.0]]).det(), D(-1.0));
    assert_eq!(m2([[1.0, 2.0], [2.0, 4.0]]).det(), D(0.0));
}

#[test]
fn determinant_by_elimination() {
    let m = m3([[2.0, 1.0, -1.0], [-3.0, -1.0, 2.0], [-2.0, 1.0, 2.0]]);
    assert!((m.det().0 - -1.0).abs() < 1e-12);
    assert_eq!(m3([[2.0, 0.0, 0.0], [0.0, 3.0, 0.0], [0.0, 0.0, 4.0]]).det(), D(24.0));
    assert_eq!(Matrix4::<D>::identity().det(), D(1.0));
    assert_eq!(Matrix4::new_diagonal(v4([1.0, 2.0, 3.0, 4.0])).det(), D(24.0));
}

#[test]
fn determinant_loses_the_sign_of_an_odd_number_of_exchanges() {
    // One exchange turns this permutation into the identity. Its determinant
    // is -1; the exchange is not counted, so the product of the diagonal is 1.
    let p = m3([[0.0, 1.0, 0.0], [1.0, 0.0, 0.0], [0.0, 0.0, 1.0]]);
    assert_eq!(p.det(), D(1.0));
}

#[test]
fn determinant_is_multiplicative() {
    let a = m2([[1.0, 2.0], [3.0, 4.0]]);
    let b = m2([[2.0, 0.0], [1.0, 5.0]]);
    assert_eq!((a * b).det(), a.det().mul(b.det()));
    // By elimination the sign may be lost, so only the magnitudes are compared.
    let c = m3([[2.0, 1.0, -1.0], [-3.0, -1.0, 2.0], [-2.0, 1.0, 2.0]]);
    let d = m3([[1.0, 0.5, 0.0], [0.0, 2.0, 1.0], [1.0, 0.0, 3.0]]);
    let lhs = (c * d).det().0.abs();
    let rhs = (c.det().0 * d.det().0).abs();
    assert!((lhs - rhs).abs() < 1e-9);
}

// ---- inversion

#[test]
fn inverse_of_identity_is_identity() {
    let mut m = m2(I2);
    assert!(m.is_invertible());
    m.inverse();
    assert_eq!(m, m2(I2));
    assert_eq!(Matrix3::<D>::identity().inversed(), m3(I3));
    assert_eq!(Matrix4::<D>::identity().inversed(), m4(I4));
}

#[test]
fn inverse_of_twice_the_identity_is_half_the_identity() {
    let m = m2([[2.0, 0.0], [0.0, 2.0]]);
    assert!(m.is_invertible());
    assert_eq!(m.inversed(), m2([[0.5, 0.0], [0.0, 0.5]]));
}

#[test]
fn inverse_of_a_diagonal() {
    let m = m3([[2.0, 0.0, 0.0], [0.0, 4.0, 0.0], [0.0, 0.0, 8.0]]);
    assert_eq!(
        m.inversed_unchecked(),
        m3([[0.5, 0.0, 0.0], [0.0, 0.25, 0.0], [0.0, 0.0, 0.125]])
    );
}

#[test]
fn inverse_exchanges_rows_past_a_zero() {
    let m = m2([[0.0, 1.0], [1.0, 0.0]]);
    assert_eq!(m.inversed_unchecked(), m);
    let mut n = m;
    n.inverse_unchecked();
    assert_eq!(n, m);
}

#[test]
fn singular_matrix_is_not_invertible() {
    let m = m2([[1.0, 2.0], [2.0, 4.0]]);
    assert_eq!(m.det(), D(0.0));
    assert!(!m.is_invertible());
    assert!(!m3([[1.0, 2.0, 3.0], [2.0, 4.0, 6.0], [1.0, 0.0, 1.0]]).is_invertible());
    assert!(!Matrix4::<D>::zero().is_invertible());
    assert!(!Matrix4::<D>::one().is_invertible());
}

#[test]
fn unchecked_inverse_of_a_singular_matrix_stops_early() {
    // No pivot is left for the second row: the reduction stops and hands out
    // what it has, which is no inverse of anything.
    let m = m2([[1.0, 2.0], [2.0, 4.0]]);
    assert_eq!(m.inversed_unchecked(), m2([[1.0, 0.0], [-2.0, 1.0]]));
}

#[test]
fn reduction_mirrors_every_step() {
    let mut work = m2([[2.0, 0.0], [0.0, 4.0]]);
    let mut adjacent = m2(I2);
    work.row_echelon_reduced(&mut adjacent);
    assert_eq!(work, m2(I2));
    assert_eq!(adjacent, m2([[0.5, 0.0], [0.0, 0.25]]));
    // whatever stands in the second matrix is carried along
    let mut work = m2([[1.0, 1.0], [0.0, 1.0]]);
    let mut adjacent = m2([[3.0, 5.0], [7.0, 11.0]]);
    work.row_echelon_reduced(&mut adjacent);
    assert_eq!(work, m2(I2));
    assert_eq!(adjacent, m2([[-4.0, -6.0], [7.0, 11.0]]));
}

#[test]
fn matrix_times_inverse_is_identity_2() {
    let m = m2([[4.0, 7.0], [2.0, 6.0]]);
    assert!(m.is_invertible());
    let inv = m.inversed();
    assert!(close2(inv, [[0.6, -0.7], [-0.2, 0.4]], 1e-12));
    assert!(close2(m * inv, I2, 1e-12));
    assert!(close2(inv * m, I2, 1e-12));
}

#[test]
fn matrix_times_inverse_is_identity_3() {
    let m = m3([[2.0, 1.0, -1.0], [-3.0, -1.0, 2.0], [-2.0, 1.0, 2.0]]);
    assert!(m.is_invertible());
    let inv = m.inversed();
    assert!(close3(inv, [[4.0, 3.0, -1.0], [-2.0, -2.0, 1.0], [5.0, 4.0, -1.0]], 1e-10));
    assert!(close3(m * inv, I3, 1e-10));
    let mut n = m;
    n.inverse();
    assert_eq!(n, inv);
}

#[test]
fn matrix_times_inverse_is_identity_4() {
    let m = m4([
        [4.0, 0.0, 0.0, 1.0],
        [0.0, 0.0, 1.0, 0.0],
        [0.0, 2.0, 2.0, 0.0],
        [1.0, 0.0, 0.0, 1.0],
    ]);
    assert!(m.is_invertible());
    let inv = m.inversed();
    assert!(close4(m * inv, I4, 1e-10));
    assert!(close4(inv * m, I4, 1e-10));
}

#[test]
fn matrix_times_inverse_is_identity_in_single_precision() {
    let m = Matrix3::new(
        S(2.0), S(1.0), S(-1.0),
        S(-3.0), S(-1.0), S(2.0),
        S(-2.0), S(1.0), S(2.0),
    );
    assert!(m.is_invertible());
    let p = m * m.inversed();
    let a = [
        [p.row1.x.0, p.row1.y.0, p.row1.z.0],
        [p.row2.x.0, p.row2.y.0, p.row2.z.0],
        [p.row3.x.0, p.row3.y.0, p.row3.z.0],
    ];
    for i in 0..3 {
        for j in 0..3 {
            assert!((a[i][j] - I3[i][j] as f32).abs() < 1e-5);
        }
    }
}

// ---- exact arithmetic

/// An exact scalar: a fraction in lowest terms with a positive denominator.
/// The elementary functions are not rational and are never called here.
#[derive(Clone, Copy, Debug, PartialEq)]
struct Q(i64, i64);

fn gcd(a: i64, b: i64) -> i64 {
    if b == 0 {
        a.abs()
    } else {
        gcd(b, a % b)
    }
}

fn frac(n: i64, d: i64) -> Q {
    assert!(d != 0, "division by zero");
    let g = gcd(n, d) * d.signum();
    Q(n / g, d / g)
}

impl Float for Q {
    fn zero() -> Self {
        Q(0, 1)
    }

    fn zero_spec() -> Self {
        Self::zero()
    }

    fn one() -> Self {
        Q(1, 1)
    }

    fn one_spec() -> Self {
        Self::one()
    }

    fn two() -> Self {
        Q(2, 1)
    }

    fn two_spec() -> Self {
        Self::two()
    }

    fn pi() -> Self {
        unreachable!()
    }

    fn pi_spec() -> Self {
        unreachable!()
    }

    fn epsilon() -> Self {
        Q(1, 1 << 40)
    }

    fn epsilon_spec() -> Self {
        Self::epsilon()
    }

    fn add(self, rhs: Self) -> Self {
        frac(self.0 * rhs.1 + rhs.0 * self.1, self.1 * rhs.1)
    }

    fn add_spec(self, rhs: Self) -> Self {
        self.add(rhs)
    }

    fn sub(self, rhs: Self) -> Self {
        frac(self.0 * rhs.1 - rhs.0 * self.1, self.1 * rhs.1)
    }

    fn sub_spec(self, rhs: Self) -> Self {
        self.sub(rhs)
    }

    fn mul(self, rhs: Self) -> Self {
        frac(self.0 * rhs.0, self.1 * rhs.1)
    }

    fn mul_spec(self, rhs: Self) -> Self {
        self.mul(rhs)
    }

    fn div(self, rhs: Self) -> Self {
        frac(self.0 * rhs.1, self.1 * rhs.0)
    }

    fn div_spec(self, rhs: Self) -> Self {
        self.div(rhs)
    }

    fn atan2(self, _rhs: Self) -> Self {
        unreachable!()
    }

    fn atan2_spec(self, _rhs: Self) -> Self {
        unreachable!()
    }

    fn max(self, rhs: Self) -> Self {
        if Float::lt(self, rhs) {
            rhs
        } else {
            self
        }
    }

    fn max_spec(self, rhs: Self) -> Self {
        Float::max(self, rhs)
    }

    fn min(self, rhs: Self) -> Self {
        if Float::lt(rhs, self) {
            rhs
        } else {
            self
        }
    }

    fn min_spec(self, rhs: Self) -> Self {
        Float::min(self, rhs)
    }

    fn clamp(self, from: Self, to: Self) -> Self {
        Float::min(Float::max(self, from), to)
    }

    fn clamp_spec(self, from: Self, to: Self) -> Self {
        Float::clamp(self, from, to)
    }

    fn neg(self) -> Self {
        Q(-self.0, self.1)
    }

    fn neg_spec(self) -> Self {
        self.neg()
    }

    fn abs(self) -> Self {
        Q(self.0.abs(), self.1)
    }

    fn abs_spec(self) -> Self {
        Float::abs(self)
    }

    fn signum(self) -> Self {
        Q(self.0.signum(), 1)
    }

    fn signum_spec(self) -> Self {
        Float::signum(self)
    }

    fn sqrt(self) -> Self {
        unreachable!()
    }

    fn sqrt_spec(self) -> Self {
        unreachable!()
    }

    fn sin(self) -> Self {
        unreachable!()
    }

    fn sin_spec(self) -> Self {
        unreachable!()
    }

    fn cos(self) -> Self {
        unreachable!()
    }

    fn cos_spec(self) -> Self {
        unreachable!()
    }

    fn asin(self) -> Self {
        unreachable!()
    }

    fn asin_spec(self) -> Self {
        unreachable!()
    }

    fn acos(self) -> Self {
        unreachable!()
    }

    fn acos_spec(self) -> Self {
        unreachable!()
    }

    fn exp(self) -> Self {
        unreachable!()
    }

    fn exp_spec(self) -> Self {
        unreachable!()
    }

    fn ln(self) -> Self {
        unreachable!()
    }

    fn ln_spec(self) -> Self {
        unreachable!()
    }

    fn to_radians(self) -> Self {
        unreachable!()
    }

    fn to_radians_spec(self) -> Self {
        unreachable!()
    }

    fn to_degrees(self) -> Self {
        unreachable!()
    }

    fn to_degrees_spec(self) -> Self {
        unreachable!()
    }

    fn lt(self, rhs: Self) -> bool {
        self.0 * rhs.1 < rhs.0 * self.1
    }

    fn lt_spec(self, rhs: Self) -> bool {
        Float::lt(self, rhs)
    }

    fn eq(self, rhs: Self) -> bool {
        self == rhs
    }

    fn eq_spec(self, rhs: Self) -> bool {
        Float::eq(self, rhs)
    }
}

fn q2(a: [[i64; 2]; 2]) -> Matrix2<Q> {
    Matrix2::new(Q(a[0][0], 1), Q(a[0][1], 1), Q(a[1][0], 1), Q(a[1][1], 1))
}

fn q3(a: [[i64; 3]; 3]) -> Matrix3<Q> {
    Matrix3::from_rows(
        Vector3::new(Q(a[0][0], 1), Q(a[0][1], 1), Q(a[0][2], 1)),
        Vector3::new(Q(a[1][0], 1), Q(a[1][1], 1), Q(a[1][2], 1)),
        Vector3::new(Q(a[2][0], 1), Q(a[2][1], 1), Q(a[2][2], 1)),
    )
}

fn q4(a: [[i64; 4]; 4]) -> Matrix4<Q> {
    Matrix4::from_rows(
        Vector4::new(Q(a[0][0], 1), Q(a[0][1], 1), Q(a[0][2], 1), Q(a[0][3], 1)),
        Vector4::new(Q(a[1][0], 1), Q(a[1][1], 1), Q(a[1][2], 1), Q(a[1][3], 1)),
        Vector4::new(Q(a[2][0], 1), Q(a[2][1], 1), Q(a[2][2], 1), Q(a[2][3], 1)),
        Vector4::new(Q(a[3][0], 1), Q(a[3][1], 1), Q(a[3][2], 1), Q(a[3][3], 1)),
    )
}

#[test]
fn exact_inverse_of_a_two_by_two() {
    let m = q2([[4, 7], [2, 6]]);
    assert!(m.is_invertible());
    let inv = m.inversed();
    assert_eq!(inv, Matrix2::new(Q(3, 5), Q(-7, 10), Q(-1, 5), Q(2, 5)));
    assert_eq!(m * inv, Matrix2::identity());
    assert_eq!(inv * m, Matrix2::identity());
}

#[test]
fn exact_inverse_of_a_three_by_three() {
    let m = q3([[2, 1, -1], [-3, -1, 2], [-2, 1, 2]]);
    assert!(m.is_invertible());
    let inv = m.inversed();
    assert_eq!(inv, q3([[4, 3, -1], [-2, -2, 1], [5, 4, -1]]));
    assert_eq!(m * inv, Matrix3::identity());
    assert_eq!(inv * m, Matrix3::identity());
    // a leading zero is passed by an exchange of rows
    let p = q3([[0, 2, 1], [1, 1, 0], [3, 0, 1]]);
    assert_eq!(p * p.inversed_unchecked(), Matrix3::identity());
    assert_eq!(p.inversed_unchecked() * p, Matrix3::identity());
}

#[test]
fn exact_inverse_of_a_four_by_four() {
    let m = q4([[4, 0, 0, 1], [0, 0, 1, 0], [0, 2, 2, 0], [1, 0, 0, 1]]);
    assert!(m.is_invertible());
    let inv = m.inversed();
    assert_eq!(m * inv, Matrix4::identity());
    assert_eq!(inv * m, Matrix4::identity());
    let n = q4([[1, 2, 3, 4], [2, 3, 1, 2], [1, 1, 1, -1], [1, 0, -2, -6]]);
    let back = n.inversed_unchecked();
    assert_eq!(n * back, Matrix4::identity());
    assert_eq!(back * n, Matrix4::identity());
}

#[test]
fn determinant_by_elimination_is_not_multiplicative_in_sign() {
    // The true determinant of this matrix is 1. The elimination exchanges
    // its first two rows, for the larger pivot, and does not count it.
    let a = q3([[1, 0, 0], [2, 1, 0], [0, 0, 1]]);
    assert_eq!(a.det(), Q(-1, 1));
    assert_eq!((a * a).det(), Q(-1, 1));
    assert_eq!(a.det().mul(a.det()), Q(1, 1));
}

#[test]
fn exact_determinant_and_rank() {
    let a = q2([[1, 2], [3, 4]]);
    let b = q2([[2, 0], [1, 5]]);
    assert_eq!((a * b).det(), a.det().mul(b.det()));
    assert_eq!(q3([[2, 1, -1], [-3, -1, 2], [-2, 1, 2]]).det(), Q(-1, 1));
    assert_eq!(q3([[1, 2, 3], [2, 4, 6], [1, 0, 1]]).rank(), 2);
    assert_eq!(q4([[1, 2, 3, 4], [2, 4, 6, 8], [0, 0, 1, 1], [1, 2, 4, 5]]).rank(), 2);
}
