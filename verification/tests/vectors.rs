//! Vectors, bounding boxes, affine transformations, aspect ratios and tagged
//! angles, run on a double precision scalar.

use std::cmp::Ordering;

use math::{
    Aabb3, Affine3, Angle, Aspect, Complex, Deg, Float, Matrix3, Matrix4, Quaternion, Rad, Vector2,
    Vector3, Vector4,
};

/// A scalar of the library over `f64`. Each specification function is the
/// operation itself.
#[derive(Clone, Copy, Debug, PartialEq)]
struct D(f64);

impl Float for D {
    fn zero() -> Self {
        D(0.0)
    }

    fn zero_spec() -> Self {
        Self::zero()
    }

    fn one() -> Self {
        D(1.0)
    }

    fn one_spec() -> Self {
        Self::one()
    }

    fn two() -> Self {
        D(2.0)
    }

    fn two_spec() -> Self {
        Self::two()
    }

    fn pi() -> Self {
        D(std::f64::consts::PI)
    }

    fn pi_spec() -> Self {
        Self::pi()
    }

    fn epsilon() -> Self {
        D(f64::EPSILON)
    }

    fn epsilon_spec() -> Self {
        Self::epsilon()
    }

    fn add(self, rhs: Self) -> Self {
        D(self.0 + rhs.0)
    }

    fn add_spec(self, rhs: Self) -> Self {
        self.add(rhs)
    }

    fn sub(self, rhs: Self) -> Self {
        D(self.0 - rhs.0)
    }

    fn sub_spec(self, rhs: Self) -> Self {
        self.sub(rhs)
    }

    fn mul(self, rhs: Self) -> Self {
        D(self.0 * rhs.0)
    }

    fn mul_spec(self, rhs: Self) -> Self {
        self.mul(rhs)
    }

    fn div(self, rhs: Self) -> Self {
        D(self.0 / rhs.0)
    }

    fn div_spec(self, rhs: Self) -> Self {
        self.div(rhs)
    }

    fn atan2(self, rhs: Self) -> Self {
        D(self.0.atan2(rhs.0))
    }

    fn atan2_spec(self, rhs: Self) -> Self {
        Float::atan2(self, rhs)
    }

    fn max(self, rhs: Self) -> Self {
        D(self.0.max(rhs.0))
    }

    fn max_spec(self, rhs: Self) -> Self {
        Float::max(self, rhs)
    }

    fn min(self, rhs: Self) -> Self {
        D(self.0.min(rhs.0))
    }

    fn min_spec(self, rhs: Self) -> Self {
        Float::min(self, rhs)
    }

    fn clamp(self, from: Self, to: Self) -> Self {
        D(self.0.clamp(from.0, to.0))
    }

    fn clamp_spec(self, from: Self, to: Self) -> Self {
        Float::clamp(self, from, to)
    }

    fn neg(self) -> Self {
        D(-self.0)
    }

    fn neg_spec(self) -> Self {
        self.neg()
    }

    fn abs(self) -> Self {
        D(self.0.abs())
    }

    fn abs_spec(self) -> Self {
        Float::abs(self)
    }

    fn signum(self) -> Self {
        D(self.0.signum())
    }

    fn signum_spec(self) -> Self {
        Float::signum(self)
    }

    fn sqrt(self) -> Self {
        D(self.0.sqrt())
    }

    fn sqrt_spec(self) -> Self {
        Float::sqrt(self)
    }

    fn sin(self) -> Self {
        D(self.0.sin())
    }

    fn sin_spec(self) -> Self {
        Float::sin(self)
    }

    fn cos(self) -> Self {
        D(self.0.cos())
    }

    fn cos_spec(self) -> Self {
        Float::cos(self)
    }

    fn asin(self) -> Self {
        D(self.0.asin())
    }

    fn asin_spec(self) -> Self {
        Float::asin(self)
    }

    fn acos(self) -> Self {
        D(self.0.acos())
    }

    fn acos_spec(self) -> Self {
        Float::acos(self)
    }

    fn exp(self) -> Self {
        D(self.0.exp())
    }

    fn exp_spec(self) -> Self {
        Float::exp(self)
    }

    fn ln(self) -> Self {
        D(self.0.ln())
    }

    fn ln_spec(self) -> Self {
        Float::ln(self)
    }

    fn to_radians(self) -> Self {
        D(self.0.to_radians())
    }

    fn to_radians_spec(self) -> Self {
        Float::to_radians(self)
    }

    fn to_degrees(self) -> Self {
        D(self.0.to_degrees())
    }

    fn to_degrees_spec(self) -> Self {
        Float::to_degrees(self)
    }

    fn lt(self, rhs: Self) -> bool {
        self.0 < rhs.0
    }

    fn lt_spec(self, rhs: Self) -> bool {
        Float::lt(self, rhs)
    }

    fn eq(self, rhs: Self) -> bool {
        self.0 == rhs.0
    }

    fn eq_spec(self, rhs: Self) -> bool {
        Float::eq(self, rhs)
    }
}
fn v2(x: f64, y: f64) -> Vector2<D> {
    Vector2::new(D(x), D(y))
}

fn v3(x: f64, y: f64, z: f64) -> Vector3<D> {
    Vector3::new(D(x), D(y), D(z))
}

fn v4(x: f64, y: f64, z: f64, w: f64) -> Vector4<D> {
    Vector4::new(D(x), D(y), D(z), D(w))
}

fn near(a: D, b: f64) -> bool {
    (a.0 - b).abs() < 1e-12
}

fn near2(a: Vector2<D>, x: f64, y: f64) -> bool {
    near(a.x, x) && near(a.y, y)
}

fn near3(a: Vector3<D>, x: f64, y: f64, z: f64) -> bool {
    near(a.x, x) && near(a.y, y) && near(a.z, z)
}

const PI: f64 = std::f64::consts::PI;

// ---- construction

#[test]
fn named_vectors() {
    assert_eq!(Vector3::<D>::zero(), v3(0.0, 0.0, 0.0));
    assert_eq!(Vector3::<D>::one(), v3(1.0, 1.0, 1.0));
    assert_eq!(Vector3::<D>::unit_x(), v3(1.0, 0.0, 0.0));
    assert_eq!(Vector3::<D>::unit_y(), v3(0.0, 1.0, 0.0));
    assert_eq!(Vector3::<D>::unit_z(), v3(0.0, 0.0, 1.0));
    assert_eq!(Vector4::<D>::unit_w(), v4(0.0, 0.0, 0.0, 1.0));
    assert_eq!(Vector2::<D>::unit_y(), v2(0.0, 1.0));
    assert_eq!(Vector4::same(D(7.0)), v4(7.0, 7.0, 7.0, 7.0));
}

#[test]
fn parts_and_arrays_keep_the_order_of_the_components() {
    let v = v4(1.0, 2.0, 3.0, 4.0);
    assert_eq!(v.into_parts(), (D(1.0), D(2.0), D(3.0), D(4.0)));
    assert_eq!(Vector4::from_parts((D(1.0), D(2.0), D(3.0), D(4.0))), v);
    assert_eq!(Vector4::from((D(1.0), D(2.0), D(3.0), D(4.0))), v);
    let parts: (D, D, D, D) = v.into();
    assert_eq!(parts, (D(1.0), D(2.0), D(3.0), D(4.0)));
    assert_eq!(v.to_array(), [D(1.0), D(2.0), D(3.0), D(4.0)]);
    assert_eq!(Vector4::from_array([D(1.0), D(2.0), D(3.0), D(4.0)]), v);
    assert_eq!(Vector3::from_array(v3(1.0, 2.0, 3.0).to_array()), v3(1.0, 2.0, 3.0));
    assert_eq!(v2(1.0, 2.0).to_array(), [D(1.0), D(2.0)]);
}

#[test]
fn components_by_position() {
    let mut v = v3(1.0, 2.0, 3.0);
    assert_eq!(v.get(0), D(1.0));
    assert_eq!(v.get(1), D(2.0));
    assert_eq!(v.get(2), D(3.0));
    v.set(1, D(9.0));
    assert_eq!(v, v3(1.0, 9.0, 3.0));
    let mut w = v4(0.0, 0.0, 0.0, 0.0);
    w.set(3, D(1.0));
    w.set(0, D(2.0));
    assert_eq!(w, v4(2.0, 0.0, 0.0, 1.0));
}

#[test]
fn extend_and_truncate() {
    assert_eq!(v2(1.0, 2.0).extend(D(3.0)), v3(1.0, 2.0, 3.0));
    assert_eq!(v3(1.0, 2.0, 3.0).extend(D(4.0)), v4(1.0, 2.0, 3.0, 4.0));
    assert_eq!(v4(1.0, 2.0, 3.0, 4.0).truncate(), v3(1.0, 2.0, 3.0));
    assert_eq!(v3(1.0, 2.0, 3.0).truncate(), v2(1.0, 2.0));
}

#[test]
fn vectors_and_complex_numbers() {
    assert_eq!(v2(1.0, 2.0).to_complex(), Complex::new(D(1.0), D(2.0)));
    assert_eq!(Vector2::from_complex(Complex::new(D(1.0), D(2.0))), v2(1.0, 2.0));
    assert_eq!(Vector2::from(Complex::new(D(1.0), D(2.0))), v2(1.0, 2.0));
    assert_eq!(v2(1.0, 2.0) * Complex::new(D(3.0), D(4.0)), v2(-5.0, 10.0));
}

// ---- arithmetic

#[test]
fn operators_work_component_by_component() {
    let a = v3(1.0, 2.0, 3.0);
    let b = v3(4.0, 6.0, 8.0);
    assert_eq!(a + b, v3(5.0, 8.0, 11.0));
    assert_eq!(b - a, v3(3.0, 4.0, 5.0));
    assert_eq!(a * D(2.0), v3(2.0, 4.0, 6.0));
    assert_eq!(b / D(2.0), v3(2.0, 3.0, 4.0));
    assert_eq!(-a, v3(-1.0, -2.0, -3.0));
    assert_eq!(a.scaled(D(3.0)), v3(3.0, 6.0, 9.0));
}

#[test]
fn assigning_operators_agree_with_the_plain_ones() {
    let a = v2(1.0, 2.0);
    let b = v2(0.5, 0.25);
    let mut c = a;
    c += b;
    assert_eq!(c, a + b);
    c -= b;
    assert_eq!(c, a);
    c *= D(4.0);
    assert_eq!(c, a * D(4.0));
    c /= D(8.0);
    assert_eq!(c, v2(0.5, 1.0));
    c.scale(D(2.0));
    assert_eq!(c, a);
}

#[test]
fn magnitude_of_three_four_is_five() {
    assert_eq!(v2(3.0, 4.0).sqr_magnitude(), D(25.0));
    assert_eq!(v2(3.0, 4.0).magnitude(), D(5.0));
    assert_eq!(v4(1.0, 1.0, 1.0, 1.0).magnitude(), D(2.0));
    assert_eq!(v3(1.0, 2.0, 2.0).magnitude(), D(3.0));
}

#[test]
fn normalized_has_magnitude_one() {
    assert_eq!(v2(3.0, 4.0).normalized(), v2(0.6, 0.8));
    let mut v = v3(0.0, 0.0, 5.0);
    v.normalize();
    assert_eq!(v, v3(0.0, 0.0, 1.0));
    assert!(near(v3(1.0, 2.0, 3.0).normalized().magnitude(), 1.0));
}

#[test]
fn normalizing_the_zero_vector_is_not_a_number() {
    let v = v2(0.0, 0.0).normalized();
    assert!(v.x.0.is_nan() && v.y.0.is_nan());
}

#[test]
fn dot_sum_and_product() {
    assert_eq!(v3(1.0, 2.0, 3.0).dot(v3(4.0, -5.0, 6.0)), D(12.0));
    assert_eq!(v4(1.0, 2.0, 3.0, 4.0).dot(v4(1.0, 1.0, 1.0, 1.0)), D(10.0));
    assert_eq!(v4(1.0, 2.0, 3.0, 4.0).sum(), D(10.0));
    assert_eq!(v4(1.0, 2.0, 3.0, 4.0).product(), D(24.0));
    assert!(near(v2(2.0, 0.0).dot_normalized(v2(0.0, 3.0)), 0.0));
    assert!(near(v2(2.0, 0.0).dot_normalized(v2(5.0, 0.0)), 1.0));
}

#[test]
fn cross_and_triple_product() {
    assert_eq!(v3(1.0, 0.0, 0.0).cross(v3(0.0, 1.0, 0.0)), v3(0.0, 0.0, 1.0));
    assert_eq!(v3(0.0, 1.0, 0.0).cross(v3(1.0, 0.0, 0.0)), v3(0.0, 0.0, -1.0));
    assert_eq!(v3(1.0, 2.0, 3.0).cross(v3(4.0, 5.0, 6.0)), v3(-3.0, 6.0, -3.0));
    assert_eq!(v3(1.0, 0.0, 0.0).triple(v3(0.0, 2.0, 0.0), v3(0.0, 0.0, 3.0)), D(6.0));
}

#[test]
fn angles_between_vectors() {
    assert!(near(v3(1.0, 0.0, 0.0).angle_to(v3(0.0, 2.0, 0.0)), PI / 2.0));
    assert!(near(v2(1.0, 0.0).angle_to(v2(-3.0, 0.0)), PI));
    let a = v2(1.0, 1.0);
    let b = v2(-1.0, 1.0);
    assert!((a.arc_angle_to(b).0.to_degrees() - 90.0).abs() < 1e-9);
    assert!((b.arc_angle_to(a).0.to_degrees() - 270.0).abs() < 1e-9);
}

#[test]
fn projection_and_reflection() {
    assert!(near2(v2(3.0, 4.0).projected_onto(v2(2.0, 0.0)), 3.0, 0.0));
    let mut v = v3(1.0, 2.0, 3.0);
    v.project_onto(v3(0.0, 0.0, 7.0));
    assert!(near3(v, 0.0, 0.0, 3.0));
    assert!(near2(v2(3.0, 4.0).reflect(v2(1.0, 0.0)), 3.0, -4.0));
}

#[test]
fn distances() {
    assert_eq!(v2(1.0, 1.0).distance_to(v2(4.0, 5.0)), D(5.0));
    assert_eq!(v2(1.0, 1.0).sqr_distance_to(v2(4.0, 5.0)), D(25.0));
}

#[test]
fn interpolation() {
    let a = v2(0.0, 0.0);
    let b = v2(10.0, 20.0);
    assert_eq!(a.lerp(b, D(0.25)), v2(2.5, 5.0));
    assert_eq!(a.lerp(b, D(0.0)), a);
    assert_eq!(a.lerp(b, D(1.0)), b);
    assert_eq!(v2(1.0, 1.0).inv_lerp(v2(3.0, 1.0), v2(2.0, 5.0)), D(0.5));
    assert_eq!(a.inv_lerp(b, a), D(0.0));
    assert_eq!(a.inv_lerp(b, b), D(1.0));
    assert_eq!(a.inv_lerp(b, a.lerp(b, D(0.25))), D(0.25));
    assert_eq!(v3(1.0, 2.0, 3.0).inv_lerp(v3(3.0, 2.0, 3.0), v3(4.0, 7.0, 7.0)), D(1.5));
    assert!(near2(v2(1.0, 0.0).nlerp(v2(0.0, 1.0), D(0.5)), 0.5f64.sqrt(), 0.5f64.sqrt()));
    assert!(near2(v2(1.0, 0.0).slerp(v2(0.0, 1.0), D(0.5)), 0.5f64.sqrt(), 0.5f64.sqrt()));
}

// ---- extremes and order

#[test]
fn component_wise_extremes() {
    let a = v3(1.0, 5.0, -3.0);
    let b = v3(2.0, 4.0, -3.5);
    assert_eq!(a.max(b), v3(2.0, 5.0, -3.0));
    assert_eq!(a.min(b), v3(1.0, 4.0, -3.5));
    assert_eq!(a.abs(), v3(1.0, 5.0, 3.0));
    assert_eq!(a.max_element(), D(5.0));
    assert_eq!(a.min_element(), D(-3.0));
    assert_eq!(v4(1.0, 2.0, 9.0, 4.0).max_element(), D(9.0));
    assert_eq!(v2(1.0, 2.0).min_element(), D(1.0));
}

#[test]
fn index_of_the_extremes() {
    assert_eq!(v3(1.0, 5.0, -3.0).max_index(), 1);
    assert_eq!(v3(1.0, 5.0, -3.0).min_index(), 2);
    assert_eq!(v4(4.0, 3.0, 2.0, 1.0).max_index(), 0);
    assert_eq!(v4(4.0, 3.0, 2.0, 1.0).min_index(), 3);
    assert_eq!(v2(1.0, 2.0).max_index(), 1);
    assert_eq!(v2(1.0, 2.0).min_index(), 0);
}

#[test]
fn of_equal_maxima_the_last_and_of_equal_minima_the_first() {
    assert_eq!(v3(3.0, 1.0, 3.0).max_index(), 2);
    assert_eq!(v3(1.0, 3.0, 1.0).min_index(), 0);
    assert_eq!(v4(2.0, 2.0, 2.0, 2.0).max_index(), 3);
    assert_eq!(v4(2.0, 2.0, 2.0, 2.0).min_index(), 0);
}

#[test]
fn is_zero_goes_by_the_tolerance() {
    assert!(v3(0.0, 0.0, 0.0).is_zero());
    assert!(v3(1e-17, -1e-17, 0.0).is_zero());
    assert!(!v3(0.0, 1e-15, 0.0).is_zero());
    assert!(!v3(0.0, 0.0, f64::NAN).is_zero());
}

#[test]
fn order_is_lexicographic() {
    assert!(v3(1.0, 9.0, 9.0).lt(v3(2.0, 0.0, 0.0)));
    assert!(v3(1.0, 2.0, 3.0).lt(v3(1.0, 2.0, 4.0)));
    assert!(!v3(1.0, 2.0, 3.0).lt(v3(1.0, 2.0, 3.0)));
    assert!(v3(1.0, 2.0, 3.0).le(v3(1.0, 2.0, 3.0)));
    assert!(v3(1.0, 2.0, 3.0).ge(v3(1.0, 2.0, 3.0)));
    assert!(v3(1.0, 3.0, 0.0).gt(v3(1.0, 2.0, 9.0)));
    assert!(!v3(1.0, 2.0, 0.0).gt(v3(1.0, 2.0, 9.0)));
    assert!(!v2(f64::NAN, 0.0).lt(v2(1.0, 0.0)));
    assert!(!v2(f64::NAN, 0.0).ge(v2(1.0, 0.0)));
}

// ---- rotation of vectors

#[test]
fn plane_rotation_by_a_quarter_turn() {
    assert!(near2(v2(1.0, 0.0).rotated_by(D(PI / 2.0)), 0.0, 1.0));
    assert!(near2(v2(1.0, 0.0).rotated_by_clockwise(D(PI / 2.0)), 0.0, -1.0));
    let mut v = v2(0.0, 2.0);
    v.rotate_by(D(PI / 2.0));
    assert!(near2(v, -2.0, 0.0));
    v.rotate_by_clockwise(D(PI / 2.0));
    assert!(near2(v, 0.0, 2.0));
}

#[test]
fn space_rotation_by_a_quaternion() {
    let q = Quaternion::new_axis_angle(v3(0.0, 0.0, 1.0), D(PI / 2.0));
    assert!(near3(v3(1.0, 0.0, 0.0).rotated_by(q), 0.0, 1.0, 0.0));
    let mut v = v3(0.0, 1.0, 5.0);
    v.rotate_by(q);
    assert!(near3(v, -1.0, 0.0, 5.0));
}

// ---- bounding boxes

#[test]
fn box_translation_and_inversion() {
    let b = Aabb3::from_min_max(v3(0.0, 0.0, 0.0), v3(1.0, 2.0, 3.0));
    let t = b.translated(v3(1.0, 1.0, 1.0));
    assert_eq!(t.min, v3(1.0, 1.0, 1.0));
    assert_eq!(t.max, v3(2.0, 3.0, 4.0));
    let mut m = b;
    m.translate(v3(-1.0, 0.0, 0.0));
    assert_eq!(m.min, v3(-1.0, 0.0, 0.0));
    assert_eq!(m.max, v3(0.0, 2.0, 3.0));
    let i = b.inversed();
    assert_eq!(i.min, b.max);
    assert_eq!(i.max, b.min);
    m.inverse();
    assert_eq!(m.min, v3(0.0, 2.0, 3.0));
    assert_eq!(m.max, v3(-1.0, 0.0, 0.0));
}

#[test]
fn box_volume() {
    let b = Aabb3::from_min_max(v3(1.0, 1.0, 1.0), v3(2.0, 3.0, 5.0));
    assert_eq!(b.volume(), D(8.0));
    assert_eq!(b.inversed().volume(), D(-8.0));
}

#[test]
fn box_is_right_when_max_is_greater_on_every_axis() {
    assert!(Aabb3::from_min_max(v3(0.0, 0.0, 0.0), v3(1.0, 1.0, 1.0)).is_right());
    assert!(!Aabb3::from_min_max(v3(1.0, 1.0, 1.0), v3(0.0, 0.0, 0.0)).is_right());
    assert!(!Aabb3::from_min_max(v3(1.0, 1.0, 1.0), v3(1.0, 1.0, 1.0)).is_right());
    assert!(!Aabb3::from_min_max(v3(0.0, 0.0, 0.0), v3(1.0, -1.0, -1.0)).is_right());
    assert!(!Aabb3::from_min_max(v3(0.0, 5.0, 5.0), v3(1.0, 0.0, 0.0)).is_right());
    assert!(!Aabb3::from_min_max(v3(0.0, 0.0, 0.0), v3(1.0, 1.0, 0.0)).is_right());
    assert!(!Aabb3::from_min_max(v3(0.0, 0.0, 0.0), v3(f64::NAN, 1.0, 1.0)).is_right());
}

#[test]
fn box_contains_goes_axis_by_axis() {
    let b = Aabb3::from_min_max(v3(0.0, 0.0, 0.0), v3(1.0, 1.0, 1.0));
    assert!(b.contains(v3(0.5, 0.5, 0.5)));
    // the faces and the corners belong to the box
    assert!(b.contains(v3(0.0, 0.0, 0.0)));
    assert!(b.contains(v3(1.0, 1.0, 1.0)));
    assert!(b.contains(v3(0.0, 0.5, 1.0)));
    assert!(!b.contains(v3(2.0, 0.5, 0.5)));
    assert!(!b.contains(v3(-1.0, 0.5, 0.5)));
    assert!(!b.contains(v3(1.0, 1.0, 2.0)));
    assert!(!b.contains(v3(0.5, 5.0, 5.0)));
    assert!(!b.contains(v3(0.5, 100.0, -100.0)));
    assert!(!b.contains(v3(0.5, 0.5, -0.1)));
    assert!(!b.contains(v3(0.5, f64::NAN, 0.5)));
    assert!(Aabb3::<D>::between(D(0.0), D(0.0), D(0.0)));
    assert!(!Aabb3::<D>::between(D(1.0), D(0.5), D(0.0)));
}

// ---- affine transformations

#[test]
fn affine_parts() {
    let q = Quaternion::new_axis_angle(v3(0.0, 0.0, 1.0), D(PI / 2.0));
    let s = v3(2.0, 3.0, 4.0);
    let t = v3(1.0, 1.0, 1.0);
    let a = Affine3::new_scale_rotation_translation(s, q, t);
    assert_eq!(a.translation, t);
    assert_eq!(a.matrix, q.into_matrix3() * Matrix3::new_scale(s));
    assert_eq!(Affine3::new_scale_rotation(s, q).matrix, a.matrix);
    assert_eq!(Affine3::new_scale_rotation(s, q).translation, v3(0.0, 0.0, 0.0));
    assert_eq!(Affine3::new_rotation_translation(q, t).matrix, q.into_matrix3());
    assert_eq!(Affine3::new_rotation(q).matrix, q.into_matrix3());
    assert_eq!(Affine3::new_scale_translation(s, t).matrix, Matrix3::new_diagonal(s));
    assert_eq!(Affine3::new_scale(s).matrix, Matrix3::new_diagonal(s));
    assert_eq!(Affine3::new_translation(t).matrix, Matrix3::identity());
    assert_eq!(Affine3::new_translation(t).translation, t);
}

#[test]
fn affine_applies_the_linear_part_then_translates() {
    let a = Affine3::new_scale_translation(v3(2.0, 3.0, 4.0), v3(1.0, 1.0, 1.0));
    assert_eq!(a.apply(v3(1.0, 1.0, 1.0)), v3(3.0, 4.0, 5.0));
    let q = Quaternion::new_axis_angle(v3(0.0, 0.0, 1.0), D(PI / 2.0));
    let b = Affine3::new_scale_rotation_translation(v3(2.0, 1.0, 1.0), q, v3(0.0, 0.0, 1.0));
    assert!(near3(b.apply(v3(1.0, 0.0, 0.0)), 0.0, 2.0, 1.0));
}

#[test]
fn affine_as_a_homogeneous_matrix() {
    let a = Affine3::new_scale_translation(v3(2.0, 3.0, 4.0), v3(5.0, 6.0, 7.0));
    let m = a.into_matrix4();
    let e = Matrix4::from_rows(
        v4(2.0, 0.0, 0.0, 5.0),
        v4(0.0, 3.0, 0.0, 6.0),
        v4(0.0, 0.0, 4.0, 7.0),
        v4(0.0, 0.0, 0.0, 1.0),
    );
    assert_eq!(m, e);
    let p = m * v4(1.0, 1.0, 1.0, 1.0);
    assert_eq!(p.truncate(), a.apply(v3(1.0, 1.0, 1.0)));
}

// ---- aspect ratios and tagged angles

#[test]
fn aspect_ratios() {
    let a = Aspect::new(D(1920.0), D(1080.0));
    assert_eq!(a.width, D(1920.0));
    assert_eq!(a.height, D(1080.0));
    assert_eq!(a.w_h(), D(1920.0 / 1080.0));
    assert_eq!(a.h_w(), D(1080.0 / 1920.0));
    assert_eq!(Aspect::new_w_h(D(2.0)), Aspect::new(D(2.0), D(1.0)));
    assert_eq!(Aspect::new_h_w(D(2.0)), Aspect::new(D(1.0), D(2.0)));
    assert_eq!(Aspect::new_h_w(D(2.0)).w_h(), D(0.5));
}

#[test]
fn tagged_angles() {
    let a: Angle<D, Rad> = Angle::new(D(1.5));
    let b: Angle<D, Rad> = Angle::from(D(2.5));
    assert_eq!(a.value(), D(1.5));
    assert_eq!(b.0, D(2.5));
    assert!(a.lt(&b));
    assert!(!b.lt(&a));
    assert!(a.eq(&Angle::new(D(1.5))));
    assert!(!a.eq(&b));
    let d: Angle<D, Deg> = Angle::new(D(90.0));
    assert_eq!(d.value(), D(90.0));
}

#[test]
fn default_vector_is_zero() {
    assert_eq!(Vector2::<D>::default(), v2(0.0, 0.0));
    assert_eq!(Vector3::<D>::default(), v3(0.0, 0.0, 0.0));
    assert_eq!(Vector4::<D>::default(), v4(0.0, 0.0, 0.0, 0.0));
}

#[test]
fn tagged_angles_compare_as_their_numbers() {
    let a: Angle<D, Rad> = Angle::new(D(1.5));
    let b: Angle<D, Rad> = Angle::new(D(2.5));
    let n: Angle<D, Rad> = Angle::new(D(f64::NAN));
    assert_eq!(a.partial_cmp(&b), Some(Ordering::Less));
    assert_eq!(b.partial_cmp(&a), Some(Ordering::Greater));
    assert_eq!(a.partial_cmp(&a), Some(Ordering::Equal));
    assert_eq!(a.partial_cmp(&n), None);
}
