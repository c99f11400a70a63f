use engine::arithmetic::Arithmetic;
use engine::camera::Camera2D;
use engine::color::{clamp_channel, in_channel_range, in_unit_interval, Color};
use engine::matrix::Matrix4x4;
use engine::position::{Pos, Position2D};
use engine::rotation::{Rot, RotT, Rotation2D};
use engine::scalar::{
    Scalar, CHANNEL_MAX_BITS, DEG_RAD_BITS, FULL_TURN_BITS, HALF_BITS, HUNDREDTH_BITS,
    HUNDRED_BITS, INFINITY_BITS, ONE_BITS, PI_BITS, RAD_DEG_BITS, SIGN_BIT, TEN_BITS, TWO_BITS,
    TWO_PIE_BITS, ZERO_BITS,
};
use engine::scale::Scale3D;
use engine::size::{Size2D, Size3D};
use engine::unstable::{lazy_mmr, lerp};
use engine::vector::{minor, Vector2D, Vector3D};
use engine::window::{
    DEFAULT_HEIGHT_BITS, DEFAULT_WIDTH_BITS, LEAST_HEIGHT_BITS, LEAST_WIDTH_BITS,
};

/// Single-precision arithmetic as the processor does it.
struct Ieee;

fn f(a: Scalar) -> f32 {
    f32::from_bits(a.bits)
}

fn s(x: f32) -> Scalar {
    Scalar { bits: x.to_bits() }
}

/// The scalar nearest to a number of any plain numeric type.
fn n<T: Into<f64>>(x: T) -> Scalar {
    s(x.into() as f32)
}

impl Arithmetic for Ieee {
    fn add(&self, a: Scalar, b: Scalar) -> Scalar {
        s(f(a) + f(b))
    }

    fn sub(&self, a: Scalar, b: Scalar) -> Scalar {
        s(f(a) - f(b))
    }

    fn mul(&self, a: Scalar, b: Scalar) -> Scalar {
        s(f(a) * f(b))
    }

    fn div(&self, a: Scalar, b: Scalar) -> Scalar {
        s(f(a) / f(b))
    }

    fn rem(&self, a: Scalar, b: Scalar) -> Scalar {
        s(f(a) % f(b))
    }

    fn powf(&self, a: Scalar, b: Scalar) -> Scalar {
        s(f(a).powf(f(b)))
    }

    fn sqrt(&self, a: Scalar) -> Scalar {
        s(f(a).sqrt())
    }

    fn sin(&self, a: Scalar) -> Scalar {
        s(f(a).sin())
    }

    fn cos(&self, a: Scalar) -> Scalar {
        s(f(a).cos())
    }

    fn from_u32(&self, n: u32) -> Scalar {
        s(n as f32)
    }
}

const PI: f32 = std::f32::consts::PI;

/// Values that IEEE-754 treats specially, and a few that it does not.
fn samples() -> Vec<f32> {
    vec![
        0.0,
        -0.0,
        1.0,
        -1.0,
        0.5,
        -0.5,
        255.0,
        255.00002,
        254.99998,
        -1.0e-45,
        1.0e-45,
        f32::MIN_POSITIVE,
        f32::MAX,
        f32::MIN,
        f32::INFINITY,
        f32::NEG_INFINITY,
        f32::NAN,
        -f32::NAN,
        f32::from_bits(0x7f80_0001),
        f32::from_bits(0xffff_ffff),
        3.5,
        -360.0,
        1.0e10,
    ]
}

fn matrix(rows: [[f32; 4]; 4]) -> Matrix4x4 {
    let mut entries = [s(0.0); 16];
    for i in 0..4 {
        for j in 0..4 {
            entries[4 * i + j] = s(rows[i][j]);
        }
    }
    Matrix4x4::from_array(entries)
}

fn floats(m: Matrix4x4) -> [[f32; 4]; 4] {
    let mut rows = [[0.0f32; 4]; 4];
    for i in 0..4 {
        for j in 0..4 {
            rows[i][j] = f(m.identity[i][j]);
        }
    }
    rows
}

/// The row vector `(x, y, z, 1)` times the matrix.
fn apply(m: Matrix4x4, x: f32, y: f32, z: f32) -> [f32; 4] {
    let v = [x, y, z, 1.0];
    let mut out = [0.0f32; 4];
    for j in 0..4 {
        for k in 0..4 {
            out[j] += v[k] * f(m.identity[k][j]);
        }
    }
    out
}

fn sample_matrix() -> Matrix4x4 {
    matrix([
        [1.5, -2.0, 0.25, 7.0],
        [0.0, 3.0, -0.0, 1.0e-3],
        [-8.0, 0.125, 6.5, 2.0],
        [10.0, 20.0, 30.0, 1.0],
    ])
}

#[test]
fn constants_are_the_bits_of_their_values() {
    assert_eq!(ZERO_BITS, 0.0f32.to_bits());
    assert_eq!(ONE_BITS, 1.0f32.to_bits());
    assert_eq!(TWO_BITS, 2.0f32.to_bits());
    assert_eq!(TEN_BITS, 10.0f32.to_bits());
    assert_eq!(HALF_BITS, 0.5f32.to_bits());
    assert_eq!(HUNDREDTH_BITS, 0.01f32.to_bits());
    assert_eq!(HUNDRED_BITS, 100.0f32.to_bits());
    assert_eq!(CHANNEL_MAX_BITS, 255.0f32.to_bits());
    assert_eq!(FULL_TURN_BITS, 360.0f32.to_bits());
    assert_eq!(INFINITY_BITS, f32::INFINITY.to_bits());
    assert_eq!(SIGN_BIT, (-0.0f32).to_bits());
    assert_eq!(PI_BITS, PI.to_bits());
    assert_eq!(TWO_PIE_BITS, (PI * 2.000).to_bits());
    assert_eq!(DEG_RAD_BITS, (PI / 180.0).to_bits());
    assert_eq!(RAD_DEG_BITS, (180.0 / PI).to_bits());
    assert_eq!(DEFAULT_WIDTH_BITS, 856.0f32.to_bits());
    assert_eq!(DEFAULT_HEIGHT_BITS, 482.0f32.to_bits());
    assert_eq!(LEAST_WIDTH_BITS, 160.0f32.to_bits());
    assert_eq!(LEAST_HEIGHT_BITS, 90.0f32.to_bits());
}

#[test]
fn scalar_from_u8_is_the_conversion_of_every_byte() {
    for b in 0..=255u8 {
        assert_eq!(Scalar::from_u8(b).to_bits(), (b as f32).to_bits(), "byte {}", b);
    }
}

#[test]
fn scalar_bits_round_trip() {
    for x in samples() {
        assert_eq!(Scalar::from_bits(x.to_bits()).to_bits(), x.to_bits());
    }
}

#[test]
fn scalar_classification_agrees_with_floats() {
    for x in samples() {
        assert_eq!(s(x).is_nan(), x.is_nan(), "{:?}", x);
        assert_eq!(s(x).is_finite(), x.is_finite(), "{:?}", x);
        assert_eq!(s(x).is_zero(), x == 0.0, "{:?}", x);
    }
}

#[test]
fn scalar_neg_flips_the_sign_bit_only() {
    for x in samples() {
        assert_eq!(s(x).neg().to_bits(), (-x).to_bits(), "{:?}", x);
        assert_eq!(s(x).neg().neg().to_bits(), x.to_bits(), "{:?}", x);
    }
    assert_eq!(s(0.0).neg().to_bits(), 0x8000_0000);
}

#[test]
fn scalar_comparisons_agree_with_floats() {
    for a in samples() {
        for b in samples() {
            assert_eq!(s(a) == s(b), a == b, "{:?} == {:?}", a, b);
            assert_eq!(s(a) != s(b), a != b, "{:?} != {:?}", a, b);
            assert_eq!(s(a).lt(s(b)), a < b, "{:?} < {:?}", a, b);
            assert_eq!(s(a).le(s(b)), a <= b, "{:?} <= {:?}", a, b);
        }
    }
}

#[test]
fn scalar_nan_equals_nothing_and_zeros_are_equal() {
    assert!(s(f32::NAN) != s(f32::NAN));
    assert!(s(0.0) == s(-0.0));
    assert!(!s(-0.0).lt(s(0.0)));
}

#[test]
fn scalar_clamp_agrees_with_floats() {
    for x in samples() {
        let ours = s(x).clamp(s(0.0), s(255.0));
        let theirs = x.clamp(0.0, 255.0);
        assert_eq!(ours.to_bits(), theirs.to_bits(), "{:?}", x);
        let ours = s(x).clamp(s(-1.0), s(-0.5));
        let theirs = x.clamp(-1.0, -0.5);
        assert_eq!(ours.to_bits(), theirs.to_bits(), "{:?}", x);
    }
}

#[test]
fn color_channel_helpers() {
    assert!(in_channel_range(s(0.0)));
    assert!(in_channel_range(s(-0.0)));
    assert!(in_channel_range(s(255.0)));
    assert!(!in_channel_range(s(255.00002)));
    assert!(!in_channel_range(s(-1.0e-45)));
    assert!(!in_channel_range(s(f32::NAN)));
    assert!(in_unit_interval(s(1.0)));
    assert!(!in_unit_interval(s(1.0000001)));
    assert_eq!(clamp_channel(s(300.0)), s(255.0));
    assert_eq!(clamp_channel(s(-3.0)), s(0.0));
    assert_eq!(clamp_channel(s(12.5)), s(12.5));
    assert!(clamp_channel(s(f32::NAN)).is_nan());
}

#[test]
fn color_arithmetic_clamps_every_channel() {
    let a = Color::from(n(200), n(10), n(0), n(255));
    let b = Color::from(n(100), n(20), n(0), n(255));
    assert_eq!(a.add(b, &Ieee), Color::from(n(255), n(30), n(0), n(255)));
    assert_eq!(a.sub(b, &Ieee), Color::from(n(100), n(0), n(0), n(0)));
    assert_eq!(a.mul(b, &Ieee), Color::from(n(255), n(200), n(0), n(255)));
    assert_eq!(a.mul_scalar(n(-1.0), &Ieee), Color::from(n(0), n(0), n(0), n(0)));
    let mut c = Color::new();
    c.set(n(-5.0), n(1000.0), n(0.5), n(255.0));
    assert_eq!(c, Color::from(n(0), n(255), n(0.5), n(255)));
}

#[test]
fn color_division_by_zero_is_not_guarded() {
    let a = Color::from(n(0), n(10), n(20), n(255));
    let q = a.div_scalar(n(0.0), &Ieee);
    assert!(q.r.is_nan());
    assert_eq!(q.g, s(255.0));
}

#[test]
fn color_from_f32_takes_any_channel() {
    let c = Color::from_f32(n(-1.0), n(300.0), n(0.0), n(1.0));
    assert_eq!(c.rgba(), [n(-1.0), n(300.0), n(0.0), n(1.0)]);
}

#[test]
fn position_math_applies_every_operation_component_by_component() {
    let p = Position2D::from(n(6.0), n(9.0));
    assert_eq!(p.math(Pos::Add(n(1.0), n(2.0)), &Ieee), Position2D::from(n(7.0), n(11.0)));
    assert_eq!(p.math(Pos::Sub(n(1.0), n(2.0)), &Ieee), Position2D::from(n(5.0), n(7.0)));
    assert_eq!(p.math(Pos::Mul(n(2.0), n(3.0)), &Ieee), Position2D::from(n(12.0), n(27.0)));
    assert_eq!(p.math(Pos::Div(n(2.0), n(3.0)), &Ieee), Position2D::from(n(3.0), n(3.0)));
    assert_eq!(p.math(Pos::Mod(n(4.0), n(5.0)), &Ieee), Position2D::from(n(2.0), n(4.0)));
    assert_eq!(p.math(Pos::Pow(n(2.0), n(0.5)), &Ieee), Position2D::from(n(36.0), n(3.0)));
}

#[test]
fn size_3d_equality_leaves_the_depth_out() {
    assert_eq!(Size3D::from(n(1), n(2), n(3)), Size3D::from(n(1), n(2), n(4)));
    assert_ne!(Size3D::from(n(1), n(2), n(3)), Size3D::from(n(1), n(5), n(3)));
    assert_eq!(Scale3D::from_f32(n(1), n(2), n(3)), Scale3D::from_f32(n(1), n(2), n(4)));
}

#[test]
fn size_3d_div_num_divides_the_depth_by_its_own_operand() {
    let mut size = Size3D::from(n(50), n(100), n(75));
    size.div_num(n(2.0), n(1.0), n(3.0), &Ieee);
    assert_eq!(size.z, n(25.0));
    let mut scale = Scale3D::from(50, 100, 75, &Ieee);
    scale.div_num(n(2.0), n(1.0), n(3.0), &Ieee);
    assert_eq!(scale.z, n(25.0));
}

#[test]
fn angle_from_degrees_wraps_and_derives_radians() {
    for a in [0.0f32, 1.0, 127.0, 359.5, 360.0, 361.0, 720.25, 1.0e6, -90.0, -725.0] {
        let r = Rotation2D::from_deg(s(a), &Ieee);
        assert_eq!(f(r.deg()), a % 360.0, "{}", a);
        assert_eq!(f(r.rad()), (PI / 180.0) * (a % 360.0), "{}", a);
        let exact = (a as f64) % 360.0;
        assert!((f(r.deg()) as f64 - exact).abs() <= 1.0e-3, "{}", a);
        assert!((f(r.rad()) as f64 - exact * std::f64::consts::PI / 180.0).abs() <= 1.0e-4, "{}", a);
        assert_eq!(Rotation2D::from(s(a), &Ieee), r);
    }
}

#[test]
fn angle_from_radians_wraps_and_derives_degrees() {
    for a in [0.0f32, 1.0, 3.0, PI, 7.0, -1.0, -7.0] {
        let r = Rotation2D::from_rad(s(a), &Ieee);
        assert_eq!(f(r.rad()), a % (PI * 2.0), "{}", a);
        assert_eq!(f(r.deg()), (180.0 / PI) * (a % (PI * 2.0)), "{}", a);
    }
}

#[test]
fn angle_negative_stays_negative() {
    let r = Rotation2D::from_deg(n(-90.0), &Ieee);
    assert_eq!(r.deg(), n(-90.0));
    assert!(f(r.rad()) < 0.0);
}

#[test]
fn angle_getters_agree() {
    let r = Rotation2D::from_deg(n(45.0), &Ieee);
    assert_eq!(r.get_deg(), r.deg());
    assert_eq!(r.get_rad(), r.rad());
}

#[test]
fn angle_math_in_degrees_derives_radians_from_degrees() {
    let r = Rotation2D::from_deg(n(350.0), &Ieee);
    let cases = [
        (Rot::Add(n(20.0)), 10.0f32),
        (Rot::Sub(n(50.0)), 300.0),
        (Rot::Mul(n(2.0)), 340.0),
        (Rot::Div(n(7.0)), 50.0),
        (Rot::Mod(n(100.0)), 50.0),
        (Rot::Pow(n(2.0)), 350.0f32.powf(2.0) % 360.0),
    ];
    for (op, degrees) in cases {
        let t = r.math(op, RotT::Deg, &Ieee);
        assert_eq!(f(t.deg()), degrees);
        assert_eq!(f(t.rad()), (PI / 180.0) * degrees);
    }
}

#[test]
fn angle_math_in_radians_derives_degrees_from_radians() {
    let r = Rotation2D::from_rad(n(1.0), &Ieee);
    let cases = [
        (Rot::Add(n(6.0)), 7.0f32 % (PI * 2.0)),
        (Rot::Sub(n(0.5)), 0.5),
        (Rot::Mul(n(3.0)), 3.0),
        (Rot::Div(n(4.0)), 0.25),
        (Rot::Mod(n(0.75)), 0.25),
        (Rot::Pow(n(5.0)), 1.0),
    ];
    for (op, radians) in cases {
        let t = r.math(op, RotT::Rad, &Ieee);
        assert_eq!(f(t.rad()), radians);
        assert_eq!(f(t.deg()), (180.0 / PI) * radians);
    }
}

#[test]
fn angle_scaling_takes_degrees_as_the_base() {
    let r = Rotation2D::from_deg(n(100.0), &Ieee);
    let t = r.mul_scalar(n(5.0), &Ieee);
    assert_eq!(f(t.deg()), 140.0);
    assert_eq!(f(t.rad()), (PI / 180.0) * 140.0);
    let t = r.div_scalar(n(8.0), &Ieee);
    assert_eq!(f(t.deg()), 12.5);
    assert_eq!(f(t.rad()), (PI / 180.0) * 12.5);
}

#[test]
fn vector_plus_its_negation_is_zero() {
    for (x, y, z) in [(1.0f32, 2.0, 3.0), (-0.5, 1.0e20, 1.0e-30), (0.0, -0.0, 1.0e-45)] {
        let v = Vector2D::from(s(x), s(y));
        let r = v.add(v.neg(), &Ieee);
        assert_eq!(r, Vector2D::new());
        let v = Vector3D::from(s(x), s(y), s(z));
        let r = v.add(v.neg(), &Ieee);
        assert_eq!((f(r.x), f(r.y), f(r.z)), (0.0, 0.0, 0.0));
    }
}

#[test]
fn vector_dot_commutes() {
    let v = Vector2D::from(s(1.5), s(-2.25));
    let w = Vector2D::from(s(1.0e-3), s(7.0));
    assert_eq!(v.dot(w, &Ieee).to_bits(), w.dot(v, &Ieee).to_bits());
    assert_eq!(f(v.dot(w, &Ieee)), 1.5f32 * 1.0e-3 + -2.25f32 * 7.0);
    let v = Vector3D::from(s(1.5), s(-2.25), s(9.0));
    let w = Vector3D::from(s(1.0e-3), s(7.0), s(-0.125));
    assert_eq!(v.dot(w, &Ieee).to_bits(), w.dot(v, &Ieee).to_bits());
    assert_eq!(f(v.dot(w, &Ieee)), 1.5f32 * 1.0e-3 + -2.25f32 * 7.0 + 9.0f32 * -0.125);
}

#[test]
fn vector_cross_anticommutes_and_is_perpendicular() {
    let v = Vector3D::from(s(1.0), s(2.0), s(3.0));
    let w = Vector3D::from(s(-4.0), s(0.5), s(6.0));
    let vw = v.cross(w, &Ieee);
    let wv = w.cross(v, &Ieee).neg();
    assert_eq!((f(vw.x), f(vw.y), f(vw.z)), (f(wv.x), f(wv.y), f(wv.z)));
    assert_eq!((f(vw.x), f(vw.y), f(vw.z)), (10.5, -18.0, 8.5));
    assert!(f(v.dot(vw, &Ieee)).abs() <= 1.0e-4);
    assert!(f(w.dot(vw, &Ieee)).abs() <= 1.0e-4);
}

#[test]
fn vector_cross_assign_uses_the_old_components() {
    let mut v = Vector3D::from(s(1.0), s(2.0), s(3.0));
    let w = Vector3D::from(s(-4.0), s(0.5), s(6.0));
    v.cross_assign(w, &Ieee);
    assert_eq!((f(v.x), f(v.y), f(v.z)), (10.5, -18.0, 8.5));
    assert_eq!(f(minor(&Ieee, s(2.0), s(3.0), s(4.0), s(5.0))), -14.0);
}

#[test]
fn vector_magnitude() {
    assert_eq!(f(Vector2D::from(s(3.0), s(-4.0)).magnitude(&Ieee)), 5.0);
    assert_eq!(f(Vector2D::new().magnitude(&Ieee)), 0.0);
    assert_eq!(f(Vector3D::from(s(2.0), s(3.0), s(6.0)).magnitude(&Ieee)), 7.0);
    assert_eq!(f(Vector3D::new().magnitude(&Ieee)), 0.0);
}

#[test]
fn vector_componentwise_operations() {
    let v = Vector2D::from(s(7.0), s(-9.0));
    let w = Vector2D::from(s(2.0), s(4.0));
    assert_eq!(v.add(w, &Ieee), Vector2D::from(s(9.0), s(-5.0)));
    assert_eq!(v.sub(w, &Ieee), Vector2D::from(s(5.0), s(-13.0)));
    assert_eq!(v.scale(s(0.5), &Ieee), Vector2D::from(s(3.5), s(-4.5)));
    assert_eq!(v.rem(w, &Ieee), Vector2D::from(s(1.0), s(-1.0)));
    assert_eq!(v.set(s(1.0), s(2.0)), Vector2D::from(s(1.0), s(2.0)));
    let mut u = v;
    u.add_assign(w, &Ieee);
    u.sub_assign(w, &Ieee);
    u.scale_assign(s(2.0), &Ieee);
    u.rem_assign(w, &Ieee);
    assert_eq!(u, Vector2D::from(s(0.0), s(-2.0)));
    let a = Vector3D::from(s(1.0), s(2.0), s(3.0));
    let b = Vector3D::from(s(0.5), s(0.25), s(-1.0));
    let sum = a.add(b, &Ieee);
    assert_eq!((f(sum.x), f(sum.y), f(sum.z)), (1.5, 2.25, 2.0));
    let difference = a.sub(b, &Ieee);
    assert_eq!((f(difference.x), f(difference.y), f(difference.z)), (0.5, 1.75, 4.0));
    let scaled = a.scale(s(-2.0), &Ieee);
    assert_eq!((f(scaled.x), f(scaled.y), f(scaled.z)), (-2.0, -4.0, -6.0));
    let mut c = a.set(s(9.0), s(8.0), s(7.0));
    c.add_assign(b, &Ieee);
    c.sub_assign(a, &Ieee);
    c.scale_assign(s(4.0), &Ieee);
    assert_eq!((f(c.x), f(c.y), f(c.z)), (34.0, 25.0, 12.0));
}

#[test]
fn matrix_new_is_the_identity() {
    let m = Matrix4x4::new();
    assert!(m.is_identity());
    assert_eq!(
        floats(m),
        [[1.0, 0.0, 0.0, 0.0], [0.0, 1.0, 0.0, 0.0], [0.0, 0.0, 1.0, 0.0], [0.0, 0.0, 0.0, 1.0]]
    );
    assert_eq!((f(m.translation.x), f(m.translation.y), f(m.translation.z)), (0.0, 0.0, 0.0));
}

#[test]
fn matrix_is_identity_compares_values() {
    let mut rows = floats(Matrix4x4::new());
    rows[2][1] = -0.0;
    assert!(matrix(rows).is_identity());
    rows[2][1] = 1.0e-45;
    assert!(!matrix(rows).is_identity());
    rows[2][1] = 0.0;
    rows[3][3] = f32::NAN;
    assert!(!matrix(rows).is_identity());
    assert!(!sample_matrix().is_identity());
}

#[test]
fn matrix_identity_is_a_unit_of_mult() {
    let m = sample_matrix();
    let left = Matrix4x4::new().mult(m, &Ieee);
    let right = m.mult(Matrix4x4::new(), &Ieee);
    assert_eq!(floats(left), floats(m));
    assert_eq!(floats(right), floats(m));
}

#[test]
fn matrix_mult_is_row_by_column() {
    let a = sample_matrix();
    let b = matrix([
        [2.0, 0.0, 1.0, -1.0],
        [0.5, 1.0, 0.0, 3.0],
        [4.0, -2.0, 0.25, 0.0],
        [1.0, 1.0, 1.0, 1.0],
    ]);
    let (x, y) = (floats(a), floats(b));
    let mut expected = [[0.0f32; 4]; 4];
    for i in 0..4 {
        for j in 0..4 {
            let mut sum = 0.0f32;
            for k in 0..4 {
                sum = sum + x[i][k] * y[k][j];
            }
            expected[i][j] = sum;
        }
    }
    assert_eq!(floats(a.mult(b, &Ieee)), expected);
    assert_eq!(expected[0], [10.0, 4.5, 8.5625, -0.5]);
    assert_ne!(floats(a.mult(b, &Ieee)), floats(b.mult(a, &Ieee)));
}

#[test]
fn matrix_translation_sits_in_the_last_row() {
    let t = Matrix4x4::create_tranlation(n(10.0), n(20.0), n(30.0));
    let m = Matrix4x4::new().mult(t, &Ieee);
    assert_eq!(floats(m)[3], [10.0, 20.0, 30.0, 1.0]);
    assert_eq!(floats(t)[3], [10.0, 20.0, 30.0, 1.0]);
    assert_eq!(floats(t)[0], [1.0, 0.0, 0.0, 0.0]);
    assert_eq!(floats(t)[1], [0.0, 1.0, 0.0, 0.0]);
    assert_eq!(floats(t)[2], [0.0, 0.0, 1.0, 0.0]);
    assert_eq!(apply(t, 1.0, 2.0, 3.0), [11.0, 22.0, 33.0, 1.0]);
}

#[test]
fn matrix_scale_sits_on_the_diagonal() {
    let m = Matrix4x4::create_scale(Scale3D::from_f32(n(2.0), n(3.0), n(4.0)));
    assert_eq!(
        floats(m),
        [[2.0, 0.0, 0.0, 0.0], [0.0, 3.0, 0.0, 0.0], [0.0, 0.0, 4.0, 0.0], [0.0, 0.0, 0.0, 1.0]]
    );
}

#[test]
fn matrix_rotation_by_nothing_and_by_a_full_turn_is_the_identity() {
    let none = Matrix4x4::create_rotation_z(Rotation2D::from_deg(n(0.0), &Ieee), &Ieee);
    assert!(none.is_identity());
    let turn = Matrix4x4::create_rotation_z(Rotation2D::from_deg(n(360.0), &Ieee), &Ieee);
    assert!(turn.is_identity());
    assert!(Matrix4x4::create_rotation_z(Rotation2D::new(), &Ieee).is_identity());
}

#[test]
fn matrix_rotation_by_a_quarter_turn() {
    let r = Rotation2D::from_deg(n(90.0), &Ieee);
    let m = Matrix4x4::create_rotation_z(r, &Ieee);
    let (c, sn) = (f(r.rad()).cos(), f(r.rad()).sin());
    assert_eq!(
        floats(m),
        [[c, sn, 0.0, 0.0], [-sn, c, 0.0, 0.0], [0.0, 0.0, 1.0, 0.0], [0.0, 0.0, 0.0, 1.0]]
    );
    let p = apply(m, 1.0, 0.0, 0.0);
    assert!((p[0] - 0.0).abs() <= 1.0e-6 && (p[1] - 1.0).abs() <= 1.0e-6);
}

#[test]
fn matrix_orthographic_formula() {
    let m = Matrix4x4::create_orthographic_off_center(
        n(-400.0),
        n(400.0),
        n(300.0),
        n(-300.0),
        n(0.01),
        n(100.0),
        &Ieee,
    );
    let expected = [
        [2.0f32 / (400.0 - -400.0), 0.0, 0.0, 0.0],
        [0.0, 2.0f32 / (-300.0 - 300.0), 0.0, 0.0],
        [0.0, 0.0, 1.0f32 / (0.01 - 100.0), 0.0],
        [
            (-400.0f32 + 400.0) / (-400.0 - 400.0),
            (-300.0f32 + 300.0) / (300.0 - -300.0),
            0.01f32 / (0.01 - 100.0),
            1.0,
        ],
    ];
    assert_eq!(floats(m), expected);
}

#[test]
fn matrix_orthographic_of_an_empty_volume_is_not_guarded() {
    let m = Matrix4x4::create_orthographic_off_center(
        n(1.0),
        n(1.0),
        n(0.0),
        n(2.0),
        n(0.0),
        n(1.0),
        &Ieee,
    );
    assert!(f(m.identity[0][0]).is_infinite());
    assert!(f(m.identity[3][0]).is_infinite());
    assert_eq!(f(m.identity[1][1]), 1.0);
}

#[test]
fn matrix_array_round_trip_is_exact() {
    let mut entries = [s(0.0); 16];
    for (k, x) in samples().into_iter().take(16).enumerate() {
        entries[k] = s(x);
    }
    entries[15] = Scalar::from_bits(0x7fc1_2345);
    let m = Matrix4x4::from_array(entries);
    let back = m.array();
    for k in 0..16 {
        assert_eq!(back[k].to_bits(), entries[k].to_bits());
        assert_eq!(m.identity[k / 4][k % 4].to_bits(), entries[k].to_bits());
    }
    let again = Matrix4x4::from_array(sample_matrix().array());
    for i in 0..4 {
        for j in 0..4 {
            assert_eq!(again.identity[i][j].to_bits(), sample_matrix().identity[i][j].to_bits());
        }
    }
}

#[test]
fn matrix_model_is_scale_then_rotation_then_translation() {
    let scale = Matrix4x4::create_scale(Scale3D::from(150, 100, 1, &Ieee));
    let turn = Matrix4x4::create_rotation_z(Rotation2D::from_deg(n(90.0), &Ieee), &Ieee);
    let shift = Matrix4x4::create_tranlation(n(400.0), n(300.0), n(0.0));
    let model = scale.mult(turn, &Ieee).mult(shift, &Ieee);
    let p = apply(model, 1.0, 0.0, 0.0);
    assert!((p[0] - 400.0).abs() <= 1.0e-3 && (p[1] - 450.0).abs() <= 1.0e-3);
}

#[test]
fn camera_projection_maps_the_viewport_onto_clip_space() {
    let camera = Camera2D::from(Vector2D::from(n(0.0), n(0.0)), n(1.0));
    let m = camera.get_projection_matrix(Size2D::from(n(800), n(600)), &Ieee);
    let ortho = Matrix4x4::create_orthographic_off_center(
        n(-400.0),
        n(400.0),
        n(300.0),
        n(-300.0),
        n(0.01),
        n(100.0),
        &Ieee,
    );
    assert_eq!(floats(m), floats(ortho.mult(Matrix4x4::new(), &Ieee)));
    let corner = apply(m, -400.0, -300.0, 0.0);
    assert!((corner[0] - -1.0).abs() <= 1.0e-6 && (corner[1] - 1.0).abs() <= 1.0e-6);
    let opposite = apply(m, 400.0, 300.0, 0.0);
    assert!((opposite[0] - 1.0).abs() <= 1.0e-6 && (opposite[1] - -1.0).abs() <= 1.0e-6);
    let centre = apply(m, 0.0, 0.0, 0.0);
    assert!(centre[0].abs() <= 1.0e-6 && centre[1].abs() <= 1.0e-6);
}

#[test]
fn camera_projection_follows_focus_and_zoom() {
    let camera = Camera2D::from(Vector2D::from(n(100.0), n(50.0)), n(2.0));
    let m = camera.get_projection_matrix(Size2D::from(n(800), n(600)), &Ieee);
    let ortho = Matrix4x4::create_orthographic_off_center(
        s(100.0 - 800.0 / 2.0),
        s(100.0 + 800.0 / 2.0),
        s(50.0 + 600.0 / 2.0),
        s(50.0 - 600.0 / 2.0),
        n(0.01),
        n(100.0),
        &Ieee,
    );
    let zoom = Matrix4x4::create_scale(Scale3D::from_f32(n(2.0), n(2.0), n(2.0)));
    assert_eq!(floats(m), floats(ortho.mult(zoom, &Ieee)));
}

#[test]
fn camera_with_no_zoom_flattens_everything() {
    let camera = Camera2D::from(Vector2D::new(), n(0.0));
    let m = camera.get_projection_matrix(Size2D::from(n(800), n(600)), &Ieee);
    assert_eq!(floats(m)[0], [0.0, 0.0, 0.0, 0.0]);
    let empty = Camera2D::new().get_projection_matrix(Size2D::new(), &Ieee);
    assert!(f(empty.identity[0][0]).is_infinite());
}

#[test]
fn lerp_and_lazy_mmr() {
    assert_eq!(f(lerp(n(10.0), n(20.0), n(0.25), &Ieee)), 12.5);
    assert_eq!(f(lerp(n(10.0), n(20.0), n(0.0), &Ieee)), 10.0);
    assert_eq!(f(lerp(n(10.0), n(20.0), n(1.0), &Ieee)), 20.0);
    let (a, b) = lazy_mmr(n(1000.0), n(1000.0), &Ieee);
    assert_eq!((f(a), f(b)), (1010.0, 990.0));
}

#[test]
fn processor_arithmetic_has_what_the_laws_need() {
    let ops = Ieee;
    let (zero, one) = (s(0.0), s(1.0));
    for x in samples() {
        let a = s(x);
        if a.is_finite() {
            assert!(ops.add(a, a.neg()).is_zero(), "{:?}", x);
            assert_eq!(ops.mul(one, a).to_bits(), a.to_bits(), "{:?}", x);
            assert_eq!(ops.mul(a, one).to_bits(), a.to_bits(), "{:?}", x);
            assert!(ops.mul(zero, a).is_zero() && ops.mul(a, zero.neg()).is_zero(), "{:?}", x);
        }
        if !a.is_nan() {
            assert!(ops.add(a, zero) == a && ops.add(zero.neg(), a) == a, "{:?}", x);
        }
        for y in samples() {
            let b = s(y);
            let (sum, difference, product) = (ops.add(a, b), ops.sub(a, b), ops.mul(a, b));
            if a.is_nan() || b.is_nan() {
                assert!(sum.is_nan() && difference.is_nan() && product.is_nan());
            }
            if !product.is_nan() {
                assert_eq!(ops.mul(b, a).to_bits(), product.to_bits(), "{:?} {:?}", x, y);
                assert_eq!(ops.mul(a, b).to_bits(), product.to_bits(), "{:?} {:?}", x, y);
            }
            if !difference.is_nan() {
                assert!(ops.sub(b, a) == difference.neg(), "{:?} {:?}", x, y);
                assert_eq!(ops.sub(a, b).to_bits(), difference.to_bits(), "{:?} {:?}", x, y);
            }
            if !sum.is_nan() {
                assert_eq!(ops.add(a, b).to_bits(), sum.to_bits(), "{:?} {:?}", x, y);
            }
        }
    }
}

#[test]
fn scalar_agrees_with_floats_on_many_bit_patterns() {
    let mut state: u64 = 0x2545_f491_4f6c_dd1d;
    let mut next = move || {
        state ^= state << 13;
        state ^= state >> 7;
        state ^= state << 17;
        (state >> 16) as u32
    };
    for _ in 0..200_000 {
        let (a, b) = (f32::from_bits(next()), f32::from_bits(next()));
        assert_eq!(s(a) == s(b), a == b, "{:?} == {:?}", a, b);
        assert_eq!(s(a).lt(s(b)), a < b, "{:?} < {:?}", a, b);
        assert_eq!(s(a).le(s(b)), a <= b, "{:?} <= {:?}", a, b);
        assert_eq!(s(a).is_nan(), a.is_nan(), "{:?}", a);
        assert_eq!(s(a).is_finite(), a.is_finite(), "{:?}", a);
        assert_eq!(s(a).neg().to_bits(), (-a).to_bits(), "{:?}", a);
        assert_eq!(clamp_channel(s(a)).to_bits(), a.clamp(0.0, 255.0).to_bits(), "{:?}", a);
        if !a.is_nan() && !b.is_nan() {
            let (low, high) = if a <= b { (a, b) } else { (b, a) };
            let x = f32::from_bits(next());
            assert_eq!(
                s(x).clamp(s(low), s(high)).to_bits(),
                x.clamp(low, high).to_bits(),
                "{:?} in {:?}..={:?}",
                x,
                low,
                high
            );
        }
    }
}

#[test]
fn three_component_values_operate_on_the_depth_too() {
    let a = Size3D::from(n(8.0), n(6.0), n(4.0));
    let b = Size3D::from(n(2.0), n(3.0), n(0.5));
    assert_eq!(f(a.add(b, &Ieee).z), 4.5);
    assert_eq!(f(a.sub(b, &Ieee).z), 3.5);
    assert_eq!(f(a.mul(b, &Ieee).z), 2.0);
    assert_eq!(f(a.div(b, &Ieee).z), 8.0);
    assert_eq!(f(a.mul_scalar(n(3.0), &Ieee).z), 12.0);
    assert_eq!(f(a.div_scalar(n(8.0), &Ieee).z), 0.5);
    let mut c = a;
    c.add_assign(b, &Ieee);
    c.mul_assign(b, &Ieee);
    c.sub_assign(b, &Ieee);
    c.div_assign(b, &Ieee);
    c.mul_scalar_assign(n(2.0), &Ieee);
    c.div_scalar_assign(n(4.0), &Ieee);
    assert_eq!((f(c.x), f(c.y), f(c.z)), (4.5, 4.0, 1.75));
    c.add_num(n(1.0), n(2.0), n(3.0), &Ieee);
    c.sub_num(n(0.5), n(0.5), n(0.5), &Ieee);
    c.mul_num(n(2.0), n(3.0), n(4.0), &Ieee);
    assert_eq!((f(c.x), f(c.y), f(c.z)), (10.0, 16.5, 17.0));
    c.set(n(1.0), n(2.0), n(3.0));
    assert_eq!((f(c.x), f(c.y), f(c.z)), (1.0, 2.0, 3.0));
    let d = Scale3D::from(8, 6, 4, &Ieee);
    let e = Scale3D::from_f32(n(2.0), n(3.0), n(0.5));
    assert_eq!(f(d.add(e, &Ieee).z), 4.5);
    assert_eq!(f(d.sub(e, &Ieee).z), 3.5);
    assert_eq!(f(d.mul(e, &Ieee).z), 2.0);
    assert_eq!(f(d.div(e, &Ieee).z), 8.0);
    assert_eq!(f(d.mul_scalar(n(3.0), &Ieee).z), 12.0);
    assert_eq!(f(d.div_scalar(n(8.0), &Ieee).z), 0.5);
    assert_eq!(f(Size3D::new().z), 0.0);
    assert_eq!(f(Scale3D::new().z), 0.0);
}
