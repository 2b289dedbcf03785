//! Quaternions, rotation matrices, Euler angles and complex numbers, and the
//! conversions between them, run on double and single precision scalars.

use math::{Complex, Deg, Euler, Float, Matrix2, Matrix3, Quaternion, Rad, Vector2, Vector3};

/// A scalar of the library over `f64`. Each specification function is the
/// operation itself.
#[derive(Clone, Copy, Debug, PartialEq)]
struct D(f64);

impl Float for D {
    fn zero() -> Self {
        D(0.0)
    }

    fn zero_spec() -> Self {
        Self::zero()
    }

    fn one() -> Self {
        D(1.0)
    }

    fn one_spec() -> Self {
        Self::one()
    }

    fn two() -> Self {
        D(2.0)
    }

    fn two_spec() -> Self {
        Self::two()
    }

    fn pi() -> Self {
        D(std::f64::consts::PI)
    }

    fn pi_spec() -> Self {
        Self::pi()
    }

    fn epsilon() -> Self {
        D(f64::EPSILON)
    }

    fn epsilon_spec() -> Self {
        Self::epsilon()
    }

    fn add(self, rhs: Self) -> Self {
        D(self.0 + rhs.0)
    }

    fn add_spec(self, rhs: Self) -> Self {
        self.add(rhs)
    }

    fn sub(self, rhs: Self) -> Self {
        D(self.0 - rhs.0)
    }

    fn sub_spec(self, rhs: Self) -> Self {
        self.sub(rhs)
    }

    fn mul(self, rhs: Self) -> Self {
        D(self.0 * rhs.0)
    }

    fn mul_spec(self, rhs: Self) -> Self {
        self.mul(rhs)
    }

    fn div(self, rhs: Self) -> Self {
        D(self.0 / rhs.0)
    }

    fn div_spec(self, rhs: Self) -> Self {
        self.div(rhs)
    }

    fn atan2(self, rhs: Self) -> Self {
        D(self.0.atan2(rhs.0))
    }

    fn atan2_spec(self, rhs: Self) -> Self {
        Float::atan2(self, rhs)
    }

    fn max(self, rhs: Self) -> Self {
        D(self.0.max(rhs.0))
    }

    fn max_spec(self, rhs: Self) -> Self {
        Float::max(self, rhs)
    }

    fn min(self, rhs: Self) -> Self {
        D(self.0.min(rhs.0))
    }

    fn min_spec(self, rhs: Self) -> Self {
        Float::min(self, rhs)
    }

    fn clamp(self, from: Self, to: Self) -> Self {
        D(self.0.clamp(from.0, to.0))
    }

    fn clamp_spec(self, from: Self, to: Self) -> Self {
        Float::clamp(self, from, to)
    }

    fn neg(self) -> Self {
        D(-self.0)
    }

    fn neg_spec(self) -> Self {
        self.neg()
    }

    fn abs(self) -> Self {
        D(self.0.abs())
    }

    fn abs_spec(self) -> Self {
        Float::abs(self)
    }

    fn signum(self) -> Self {
        D(self.0.signum())
    }

    fn signum_spec(self) -> Self {
        Float::signum(self)
    }

    fn sqrt(self) -> Self {
        D(self.0.sqrt())
    }

    fn sqrt_spec(self) -> Self {
        Float::sqrt(self)
    }

    fn sin(self) -> Self {
        D(self.0.sin())
    }

    fn sin_spec(self) -> Self {
        Float::sin(self)
    }

    fn cos(self) -> Self {
        D(self.0.cos())
    }

    fn cos_spec(self) -> Self {
        Float::cos(self)
    }

    fn asin(self) -> Self {
        D(self.0.asin())
    }

    fn asin_spec(self) -> Self {
        Float::asin(self)
    }

    fn acos(self) -> Self {
        D(self.0.acos())
    }

    fn acos_spec(self) -> Self {
        Float::acos(self)
    }

    fn exp(self) -> Self {
        D(self.0.exp())
    }

    fn exp_spec(self) -> Self {
        Float::exp(self)
    }

    fn ln(self) -> Self {
        D(self.0.ln())
    }

    fn ln_spec(self) -> Self {
        Float::ln(self)
    }

    fn to_radians(self) -> Self {
        D(self.0.to_radians())
    }

    fn to_radians_spec(self) -> Self {
        Float::to_radians(self)
    }

    fn to_degrees(self) -> Self {
        D(self.0.to_degrees())
    }

    fn to_degrees_spec(self) -> Self {
        Float::to_degrees(self)
    }

    fn lt(self, rhs: Self) -> bool {
        self.0 < rhs.0
    }

    fn lt_spec(self, rhs: Self) -> bool {
        Float::lt(self, rhs)
    }

    fn eq(self, rhs: Self) -> bool {
        self.0 == rhs.0
    }

    fn eq_spec(self, rhs: Self) -> bool {
        Float::eq(self, rhs)
    }
}
/// A scalar of the library over `f32`. Each specification function is the
/// operation itself.
#[derive(Clone, Copy, Debug, PartialEq)]
struct S(f32);

impl Float for S {
    fn zero() -> Self {
        S(0.0)
    }

    fn zero_spec() -> Self {
        Self::zero()
    }

    fn one() -> Self {
        S(1.0)
    }

    fn one_spec() -> Self {
        Self::one()
    }

    fn two() -> Self {
        S(2.0)
    }

    fn two_spec() -> Self {
        Self::two()
    }

    fn pi() -> Self {
        S(std::f32::consts::PI)
    }

    fn pi_spec() -> Self {
        Self::pi()
    }

    fn epsilon() -> Self {
        S(f32::EPSILON)
    }

    fn epsilon_spec() -> Self {
        Self::epsilon()
    }

    fn add(self, rhs: Self) -> Self {
        S(self.0 + rhs.0)
    }

    fn add_spec(self, rhs: Self) -> Self {
        self.add(rhs)
    }

    fn sub(self, rhs: Self) -> Self {
        S(self.0 - rhs.0)
    }

    fn sub_spec(self, rhs: Self) -> Self {
        self.sub(rhs)
    }

    fn mul(self, rhs: Self) -> Self {
        S(self.0 * rhs.0)
    }

    fn mul_spec(self, rhs: Self) -> Self {
        self.mul(rhs)
    }

    fn div(self, rhs: Self) -> Self {
        S(self.0 / rhs.0)
    }

    fn div_spec(self, rhs: Self) -> Self {
        self.div(rhs)
    }

    fn atan2(self, rhs: Self) -> Self {
        S(self.0.atan2(rhs.0))
    }

    fn atan2_spec(self, rhs: Self) -> Self {
        Float::atan2(self, rhs)
    }

    fn max(self, rhs: Self) -> Self {
        S(self.0.max(rhs.0))
    }

    fn max_spec(self, rhs: Self) -> Self {
        Float::max(self, rhs)
    }

    fn min(self, rhs: Self) -> Self {
        S(self.0.min(rhs.0))
    }

    fn min_spec(self, rhs: Self) -> Self {
        Float::min(self, rhs)
    }

    fn clamp(self, from: Self, to: Self) -> Self {
        S(self.0.clamp(from.0, to.0))
    }

    fn clamp_spec(self, from: Self, to: Self) -> Self {
        Float::clamp(self, from, to)
    }

    fn neg(self) -> Self {
        S(-self.0)
    }

    fn neg_spec(self) -> Self {
        self.neg()
    }

    fn abs(self) -> Self {
        S(self.0.abs())
    }

    fn abs_spec(self) -> Self {
        Float::abs(self)
    }

    fn signum(self) -> Self {
        S(self.0.signum())
    }

    fn signum_spec(self) -> Self {
        Float::signum(self)
    }

    fn sqrt(self) -> Self {
        S(self.0.sqrt())
    }

    fn sqrt_spec(self) -> Self {
        Float::sqrt(self)
    }

    fn sin(self) -> Self {
        S(self.0.sin())
    }

    fn sin_spec(self) -> Self {
        Float::sin(self)
    }

    fn cos(self) -> Self {
        S(self.0.cos())
    }

    fn cos_spec(self) -> Self {
        Float::cos(self)
    }

    fn asin(self) -> Self {
        S(self.0.asin())
    }

    fn asin_spec(self) -> Self {
        Float::asin(self)
    }

    fn acos(self) -> Self {
        S(self.0.acos())
    }

    fn acos_spec(self) -> Self {
        Float::acos(self)
    }

    fn exp(self) -> Self {
        S(self.0.exp())
    }

    fn exp_spec(self) -> Self {
        Float::exp(self)
    }

    fn ln(self) -> Self {
        S(self.0.ln())
    }

    fn ln_spec(self) -> Self {
        Float::ln(self)
    }

    fn to_radians(self) -> Self {
        S(self.0.to_radians())
    }

    fn to_radians_spec(self) -> Self {
        Float::to_radians(self)
    }

    fn to_degrees(self) -> Self {
        S(self.0.to_degrees())
    }

    fn to_degrees_spec(self) -> Self {
        Float::to_degrees(self)
    }

    fn lt(self, rhs: Self) -> bool {
        self.0 < rhs.0
    }

    fn lt_spec(self, rhs: Self) -> bool {
        Float::lt(self, rhs)
    }

    fn eq(self, rhs: Self) -> bool {
        self.0 == rhs.0
    }

    fn eq_spec(self, rhs: Self) -> bool {
        Float::eq(self, rhs)
    }
}
fn v3(x: f64, y: f64, z: f64) -> Vector3<D> {
    Vector3::new(D(x), D(y), D(z))
}

fn q(s: f64, x: f64, y: f64, z: f64) -> Quaternion<D> {
    Quaternion::new(D(s), v3(x, y, z))
}

fn c(re: f64, im: f64) -> Complex<D> {
    Complex::new(D(re), D(im))
}

fn m3(a: [[f64; 3]; 3]) -> Matrix3<D> {
    Matrix3::from_rows(
        v3(a[0][0], a[0][1], a[0][2]),
        v3(a[1][0], a[1][1], a[1][2]),
        v3(a[2][0], a[2][1], a[2][2]),
    )
}

fn near(a: D, b: f64, tol: f64) -> bool {
    (a.0 - b).abs() <= tol
}

fn near3(a: Vector3<D>, b: Vector3<D>, tol: f64) -> bool {
    near(a.x, b.x.0, tol) && near(a.y, b.y.0, tol) && near(a.z, b.z.0, tol)
}

fn nearq(a: Quaternion<D>, b: Quaternion<D>, tol: f64) -> bool {
    near(a.scalar, b.scalar.0, tol) && near3(a.vector, b.vector, tol)
}

fn nearm(a: Matrix3<D>, b: Matrix3<D>, tol: f64) -> bool {
    near3(a.row1, b.row1, tol) && near3(a.row2, b.row2, tol) && near3(a.row3, b.row3, tol)
}

fn nearc(a: Complex<D>, re: f64, im: f64, tol: f64) -> bool {
    near(a.real, re, tol) && near(a.imag, im, tol)
}

const PI: f64 = std::f64::consts::PI;

// ---- quaternions

#[test]
fn quarter_turn_about_z_takes_x_to_y() {
    let r = Quaternion::new_axis_angle(v3(0.0, 0.0, 1.0), D(90.0f64.to_radians()));
    let m = r.into_matrix3();
    assert!(near3(m * v3(1.0, 0.0, 0.0), v3(0.0, 1.0, 0.0), 1e-12));
    assert!(near3(m * v3(0.0, 1.0, 0.0), v3(-1.0, 0.0, 0.0), 1e-12));
    assert!(near3(m * v3(0.0, 0.0, 1.0), v3(0.0, 0.0, 1.0), 1e-12));
}

#[test]
fn axis_angle_to_quaternion() {
    let r = Quaternion::new_axis_angle(v3(1.0, 0.0, 0.0), D(PI));
    assert!(nearq(r, q(0.0, 1.0, 0.0, 0.0), 1e-12));
    let s = Quaternion::new_axis_angle(v3(0.0, 2.0, 0.0), D(PI / 3.0));
    // the axis is not normalized on the way in
    assert!(nearq(s, q(3.0f64.sqrt() / 2.0, 0.0, 1.0, 0.0), 1e-12));
    let t: Quaternion<D> = Quaternion::from((v3(0.0, 2.0, 0.0), D(PI / 3.0)));
    assert_eq!(t, s);
}

#[test]
fn quaternion_round_trip_through_axis_and_angle() {
    let axis = v3(1.0, 2.0, 3.0).normalized();
    let r = Quaternion::new_axis_angle(axis, D(1.2));
    let (a, angle) = r.into_axis_angle();
    assert!(near3(a, axis, 1e-12));
    assert!(near(angle, 1.2, 1e-12));
    let back = Quaternion::new_axis_angle(a, angle);
    let minus = back * D(-1.0);
    assert!(nearq(back, r, 1e-12) || nearq(minus, r, 1e-12));
}

#[test]
fn quaternion_round_trip_past_a_half_turn() {
    let axis = v3(0.0, 0.6, 0.8);
    let r = Quaternion::new_axis_angle(axis, D(4.0));
    let (a, angle) = r.into_axis_angle();
    let back = Quaternion::new_axis_angle(a, angle);
    let minus = back * D(-1.0);
    assert!(nearq(back, r, 1e-12) || nearq(minus, r, 1e-12));
}

#[test]
fn axis_of_the_identity_rotation_is_not_a_number() {
    let (axis, angle) = q(1.0, 0.0, 0.0, 0.0).into_axis_angle();
    assert!(axis.x.0.is_nan() && axis.y.0.is_nan() && axis.z.0.is_nan());
    assert_eq!(angle, D(0.0));
}

#[test]
fn hamilton_product_of_the_units() {
    let i = q(0.0, 1.0, 0.0, 0.0);
    let j = q(0.0, 0.0, 1.0, 0.0);
    let k = q(0.0, 0.0, 0.0, 1.0);
    assert_eq!(i.hamilton_product(&j), k);
    assert_eq!(j.hamilton_product(&k), i);
    assert_eq!(k.hamilton_product(&i), j);
    assert_eq!(j.hamilton_product(&i), q(0.0, 0.0, 0.0, -1.0));
    assert_eq!(i * i, q(-1.0, 0.0, 0.0, 0.0));
    let mut m = i;
    m *= j;
    assert_eq!(m, k);
}

#[test]
fn hamilton_product_of_two_quaternions() {
    let a = q(1.0, 2.0, 3.0, 4.0);
    let b = q(5.0, 6.0, 7.0, 8.0);
    assert_eq!(a * b, q(-60.0, 12.0, 30.0, 24.0));
    assert_eq!(b * a, q(-60.0, 20.0, 14.0, 32.0));
}

#[test]
fn quaternion_norm_and_conjugate() {
    let a = q(1.0, 2.0, 2.0, 4.0);
    assert_eq!(a.sqr_norm(), D(25.0));
    assert_eq!(a.norm(), D(5.0));
    assert_eq!(a.conjugate(), q(1.0, -2.0, -2.0, -4.0));
    assert_eq!(a.normalized(), q(0.2, 0.4, 0.4, 0.8));
    let mut b = a;
    b.normalize();
    assert_eq!(b, a.normalized());
    assert_eq!(Quaternion::from_vector(v3(1.0, 2.0, 3.0)), q(0.0, 1.0, 2.0, 3.0));
}

#[test]
fn quaternion_times_reciprocal_is_one() {
    let a = q(1.0, 2.0, 3.0, 4.0);
    assert!(nearq(a * a.reciprocal(), q(1.0, 0.0, 0.0, 0.0), 1e-12));
    assert!(nearq(a.reciprocal() * a, q(1.0, 0.0, 0.0, 0.0), 1e-12));
}

#[test]
fn quaternion_component_wise_operators() {
    let a = q(1.0, 2.0, 3.0, 4.0);
    let b = q(0.5, 0.5, 0.5, 0.5);
    assert_eq!(a + b, q(1.5, 2.5, 3.5, 4.5));
    assert_eq!(a - b, q(0.5, 1.5, 2.5, 3.5));
    assert_eq!(a * D(2.0), q(2.0, 4.0, 6.0, 8.0));
    assert_eq!(a / D(2.0), q(0.5, 1.0, 1.5, 2.0));
    let mut m = a;
    m += b;
    m -= a;
    assert_eq!(m, b);
    m *= D(4.0);
    m /= D(2.0);
    assert_eq!(m, q(1.0, 1.0, 1.0, 1.0));
}

#[test]
fn quaternion_exponential_and_logarithm() {
    let a = q(0.0, 0.0, 0.0, 0.4);
    assert!(nearq(a.exp(), q(0.4f64.cos(), 0.0, 0.0, 0.4f64.sin()), 1e-12));
    assert!(nearq(a.exp().ln(), a, 1e-12));
    let r = Quaternion::new_axis_angle(v3(0.0, 0.0, 1.0), D(0.8));
    assert!(nearq(r.powf(D(0.5)), Quaternion::new_axis_angle(v3(0.0, 0.0, 1.0), D(0.4)), 1e-12));
    assert!(nearq(r.powf(D(2.0)), r * r, 1e-12));
}

#[test]
fn quaternion_interpolation() {
    let a = Quaternion::new_axis_angle(v3(0.0, 0.0, 1.0), D(0.2));
    let b = Quaternion::new_axis_angle(v3(0.0, 0.0, 1.0), D(1.0));
    let mid = Quaternion::new_axis_angle(v3(0.0, 0.0, 1.0), D(0.6));
    assert!(nearq(a.slerp(b, D(0.5)), mid, 1e-12));
    assert!(nearq(a.slerp(b, D(1.0)), b, 1e-12));
    assert!(nearq(a.nlerp(b, D(0.5)), mid, 1e-12));
    assert_eq!(q(0.0, 0.0, 0.0, 0.0).lerp(q(2.0, 4.0, 6.0, 8.0), D(0.5)), q(1.0, 2.0, 3.0, 4.0));
}

#[test]
fn matrix_of_a_quaternion() {
    assert_eq!(q(1.0, 0.0, 0.0, 0.0).into_matrix3(), Matrix3::identity());
    let half_turn_x = q(0.0, 1.0, 0.0, 0.0).into_matrix3();
    assert_eq!(half_turn_x, m3([[1.0, 0.0, 0.0], [0.0, -1.0, 0.0], [0.0, 0.0, -1.0]]));
    let r = q(1.0, 2.0, 3.0, 4.0);
    let e = m3([[-20.0, 4.0, 22.0], [20.0, -10.0, 20.0], [10.0, 28.0, 4.0]]);
    assert_eq!(r.into_matrix3(), e);
    assert_eq!(Matrix3::from_quaternion(r), e);
    assert_eq!(Matrix3::from(r), e);
}

#[test]
fn matrix_of_a_quaternion_is_the_matrix_of_its_axis_and_angle() {
    let axis = v3(1.0, -2.0, 0.5).normalized();
    let angle = D(0.9);
    assert!(nearm(
        Quaternion::new_axis_angle(axis, angle).into_matrix3(),
        Matrix3::from_axis_angle(axis, angle),
        1e-12
    ));
}

// ---- Euler angles

#[test]
fn euler_angles_of_a_quaternion_and_back() {
    let e: Euler<Rad, D> = Euler::new(D(0.3), D(0.2), D(0.1));
    let r = Quaternion::from_euler(e);
    assert!(near(r.norm(), 1.0, 1e-12));
    let back = r.into_euler();
    assert!(near(back.yaw, 0.3, 1e-12));
    assert!(near(back.pitch, 0.2, 1e-12));
    assert!(near(back.roll, 0.1, 1e-12));
}

#[test]
fn euler_angles_one_at_a_time() {
    let yaw = Quaternion::from_euler(Euler::<Rad, D>::new(D(0.5), D(0.0), D(0.0)));
    assert!(nearq(yaw, Quaternion::new_axis_angle(v3(0.0, 0.0, 1.0), D(0.5)), 1e-12));
    let pitch = Quaternion::from_euler(Euler::<Rad, D>::new(D(0.0), D(0.5), D(0.0)));
    assert!(nearq(pitch, Quaternion::new_axis_angle(v3(1.0, 0.0, 0.0), D(0.5)), 1e-12));
    let roll = Quaternion::from_euler(Euler::<Rad, D>::new(D(0.0), D(0.0), D(0.5)));
    assert!(nearq(roll, Quaternion::new_axis_angle(v3(0.0, 1.0, 0.0), D(0.5)), 1e-12));
}

#[test]
fn roll_of_a_quarter_turn_is_at_the_edge_of_the_arcsine() {
    let r = Quaternion::from_euler(Euler::<Rad, D>::new(D(0.0), D(0.0), D(PI / 2.0)));
    let roll = r.into_euler().roll.0;
    assert!(roll.is_nan() || (roll - PI / 2.0).abs() < 1e-6);
}

#[test]
fn euler_units() {
    let d: Euler<Deg, D> = Euler::new(D(180.0), D(90.0), D(45.0));
    let r = d.to_radians();
    assert!(near(r.yaw, PI, 1e-12));
    assert!(near(r.pitch, PI / 2.0, 1e-12));
    assert!(near(r.roll, PI / 4.0, 1e-12));
    let back = r.to_degrees();
    assert!(near(back.yaw, 180.0, 1e-9));
    assert!(near(back.pitch, 90.0, 1e-9));
    assert!(near(back.roll, 45.0, 1e-9));
}

#[test]
fn euler_operators() {
    let a: Euler<Rad, D> = Euler::new(D(1.0), D(2.0), D(3.0));
    let b: Euler<Rad, D> = Euler::new(D(0.5), D(0.5), D(0.5));
    let s = a + b;
    assert_eq!((s.yaw, s.pitch, s.roll), (D(1.5), D(2.5), D(3.5)));
    let d = a - b;
    assert_eq!((d.yaw, d.pitch, d.roll), (D(0.5), D(1.5), D(2.5)));
    let m = a * D(2.0);
    assert_eq!((m.yaw, m.pitch, m.roll), (D(2.0), D(4.0), D(6.0)));
    let h = a / D(2.0);
    assert_eq!((h.yaw, h.pitch, h.roll), (D(0.5), D(1.0), D(1.5)));
    let n = -a;
    assert_eq!((n.yaw, n.pitch, n.roll), (D(-1.0), D(-2.0), D(-3.0)));
    let mut c = a;
    c += b;
    c -= a;
    c *= D(4.0);
    c /= D(2.0);
    assert_eq!((c.yaw, c.pitch, c.roll), (D(1.0), D(1.0), D(1.0)));
}

// ---- rotation matrices

#[test]
fn rotations_about_the_axes() {
    let a = D(PI / 2.0);
    assert!(near3(Matrix3::new_rotation_z(a) * v3(1.0, 0.0, 0.0), v3(0.0, 1.0, 0.0), 1e-12));
    assert!(near3(Matrix3::new_rotation_x(a) * v3(0.0, 1.0, 0.0), v3(0.0, 0.0, 1.0), 1e-12));
    assert!(near3(Matrix3::new_rotation_y(a) * v3(0.0, 0.0, 1.0), v3(1.0, 0.0, 0.0), 1e-12));
    assert_eq!(Matrix3::new_rotation_x(D(0.0)), Matrix3::identity());
}

#[test]
fn composed_rotations_keep_their_order() {
    let (x, y, z) = (D(0.3), D(0.5), D(0.7));
    let rx = Matrix3::new_rotation_x(x);
    let ry = Matrix3::new_rotation_y(y);
    let rz = Matrix3::new_rotation_z(z);
    assert_eq!(Matrix3::new_rotation_xy(x, y), ry * rx);
    assert_eq!(Matrix3::new_rotation_zx(z, x), rx * rz);
    assert_eq!(Matrix3::new_rotation_zy(z, y), ry * rz);
    assert_eq!(Matrix3::new_rotation_zxy(z, x, y), ry * rx * rz);
    assert!(!nearm(Matrix3::new_rotation_zx(z, x), rz * rx, 1e-3));
    // Z first, then X: the x axis is turned towards y, then tilted out of the plane
    let m = Matrix3::new_rotation_zx(D(PI / 2.0), D(PI / 2.0));
    assert!(near3(m * v3(1.0, 0.0, 0.0), v3(0.0, 0.0, 1.0), 1e-12));
}

#[test]
fn axis_and_angle_of_a_rotation_matrix() {
    let m = Matrix3::new_rotation_z(D(0.75));
    assert!(near(m.rotation_angle(), 0.75, 1e-12));
    assert!(near3(m.rotation_axis(), v3(0.0, 0.0, 1.0), 1e-12));
    let (axis, angle) = m.to_axis_angle();
    assert_eq!(axis, m.rotation_axis());
    assert_eq!(angle, m.rotation_angle());
}

#[test]
fn matrix_from_axis_and_angle() {
    let m = Matrix3::from_axis_angle(v3(0.0, 0.0, 1.0), D(0.75));
    assert!(nearm(m, Matrix3::new_rotation_z(D(0.75)), 1e-12));
    let n = Matrix3::from_axis_angle(v3(1.0, 0.0, 0.0), D(0.25));
    assert!(nearm(n, Matrix3::new_rotation_x(D(0.25)), 1e-12));
    let p = Matrix3::from_axis_angle(v3(0.0, 1.0, 0.0), D(1.25));
    assert!(nearm(p, Matrix3::new_rotation_y(D(1.25)), 1e-12));
}

#[test]
fn rotation_matrix_round_trip_through_axis_and_angle() {
    let m = Matrix3::new_rotation_zx(D(135.0f64.to_radians()), D(45.0f64.to_radians()));
    let (axis, angle) = m.to_axis_angle();
    assert!(near(axis.magnitude(), 1.0, 1e-12));
    assert!(nearm(Matrix3::from_axis_angle(axis, angle), m, 1e-10));
    let n = Matrix3::new_rotation_zxy(D(0.4), D(-1.1), D(2.0));
    let (axis, angle) = n.to_axis_angle();
    assert!(nearm(Matrix3::from_axis_angle(axis, angle), n, 1e-10));
}

#[test]
fn rotation_matrix_round_trip_in_single_precision() {
    let m = Matrix3::new_rotation_zx(S(135.0f32.to_radians()), S(45.0f32.to_radians()));
    let (axis, angle) = m.to_axis_angle();
    let b = Matrix3::from_axis_angle(axis, angle);
    let rows = [(m.row1, b.row1), (m.row2, b.row2), (m.row3, b.row3)];
    for (r, s) in rows {
        assert!((r.x.0 - s.x.0).abs() < 1e-5);
        assert!((r.y.0 - s.y.0).abs() < 1e-5);
        assert!((r.z.0 - s.z.0).abs() < 1e-5);
    }
}

#[test]
fn axis_of_the_identity_matrix_is_not_a_number() {
    let (axis, angle) = Matrix3::<D>::identity().to_axis_angle();
    assert!(axis.x.0.is_nan() && axis.y.0.is_nan() && axis.z.0.is_nan());
    assert_eq!(angle, D(0.0));
}

#[test]
fn plane_rotation_matrix() {
    let m = Matrix2::from_angle(D(PI / 2.0));
    let v = m * Vector2::new(D(1.0), D(0.0));
    assert!(near(v.x, 0.0, 1e-12) && near(v.y, 1.0, 1e-12));
    assert_eq!(Matrix2::from_angle(D(0.3)), Complex::from_angle(D(0.3)).to_matrix2());
    assert_eq!(Matrix2::from_complex(c(1.0, 2.0)), Matrix2::new(D(1.0), D(-2.0), D(2.0), D(1.0)));
}

// ---- complex numbers

#[test]
fn complex_product_and_quotient() {
    assert_eq!(c(1.0, 2.0) * c(3.0, 4.0), c(-5.0, 10.0));
    assert!(nearc(c(-5.0, 10.0) / c(3.0, 4.0), 1.0, 2.0, 1e-12));
    assert_eq!(c(0.0, 2.0).reciprocal(), c(0.0, -0.5));
    assert_eq!(c(1.0, 2.0).conjugate(), c(1.0, -2.0));
}

#[test]
fn complex_assigning_operators_agree_with_the_plain_ones() {
    let a = c(1.0, 2.0);
    let b = c(3.0, 4.0);
    let mut m = a;
    m *= b;
    assert_eq!(m, a * b);
    let mut d = a;
    d /= b;
    assert_eq!(d, a / b);
}

#[test]
fn complex_magnitude_and_angle() {
    assert_eq!(c(3.0, 4.0).sqr_magnitude(), D(25.0));
    assert_eq!(c(3.0, 4.0).magnitude(), D(5.0));
    assert!(near(c(0.0, 1.0).angle(), PI / 2.0, 1e-12));
    assert!(near(c(-1.0, 0.0).angle(), PI, 1e-12));
    let (m, a) = c(3.0, 4.0).to_magnitude_angle();
    assert_eq!(m, D(5.0));
    assert!(near(a, 4.0f64.atan2(3.0), 1e-12));
    assert!(nearc(Complex::from_angle(D(PI / 2.0)), 0.0, 1.0, 1e-12));
}

#[test]
fn complex_square_roots() {
    let (a, b) = c(3.0, 4.0).sqrt();
    assert_eq!(a, c(2.0, 1.0));
    assert_eq!(b, c(-2.0, -1.0));
    let (p, n) = c(-4.0, 0.0).sqrt();
    assert_eq!(p, c(0.0, 2.0));
    assert_eq!(n, c(0.0, -2.0));
    let (r, _) = c(3.0, -4.0).sqrt();
    assert_eq!(r, c(2.0, -1.0));
    assert_eq!(r * r, c(3.0, -4.0));
}

#[test]
fn complex_exponential() {
    assert!(nearc(c(0.0, PI).exp(), -1.0, 0.0, 1e-12));
    assert!(nearc(c(1.0, 0.0).exp(), std::f64::consts::E, 0.0, 1e-12));
}

#[test]
fn complex_numbers_and_vectors() {
    assert_eq!(c(1.0, 2.0).to_vector2(), Vector2::new(D(1.0), D(2.0)));
    assert_eq!(Complex::from_vector2(Vector2::new(D(1.0), D(2.0))), c(1.0, 2.0));
    assert_eq!(Complex::from(Vector2::new(D(1.0), D(2.0))), c(1.0, 2.0));
}

#[test]
fn quaternion_round_trip_normalizes() {
    // Axis and angle stand for a rotation, so a quaternion that is not of
    // norm one comes back normalized.
    let r = q(2.0, 0.0, 0.0, 2.0);
    let (axis, angle) = r.into_axis_angle();
    let back = Quaternion::new_axis_angle(axis, angle);
    assert!(nearq(back, r.normalized(), 1e-12));
    assert!(!nearq(back, r, 0.5));
}
