use engine::arithmetic::Arithmetic;
use engine::position::Position2D;
use engine::rotation::Rotation2D;
use engine::scalar::Scalar;
use engine::scale::Scale2D;
use engine::transform::Transform2D;

/// Single-precision arithmetic as the processor does it.
struct Ieee;

fn f(a: Scalar) -> f32 {
    f32::from_bits(a.bits)
}

fn s(x: f32) -> Scalar {
    Scalar { bits: x.to_bits() }
}

/// The scalar nearest to a number of any plain numeric type.
fn n<T: Into<f64>>(x: T) -> Scalar {
    s(x.into() as f32)
}

impl Arithmetic for Ieee {
    fn add(&self, a: Scalar, b: Scalar) -> Scalar {
        s(f(a) + f(b))
    }

    fn sub(&self, a: Scalar, b: Scalar) -> Scalar {
        s(f(a) - f(b))
    }

    fn mul(&self, a: Scalar, b: Scalar) -> Scalar {
        s(f(a) * f(b))
    }

    fn div(&self, a: Scalar, b: Scalar) -> Scalar {
        s(f(a) / f(b))
    }

    fn rem(&self, a: Scalar, b: Scalar) -> Scalar {
        s(f(a) % f(b))
    }

    fn powf(&self, a: Scalar, b: Scalar) -> Scalar {
        s(f(a).powf(f(b)))
    }

    fn sqrt(&self, a: Scalar) -> Scalar {
        s(f(a).sqrt())
    }

    fn sin(&self, a: Scalar) -> Scalar {
        s(f(a).sin())
    }

    fn cos(&self, a: Scalar) -> Scalar {
        s(f(a).cos())
    }

    fn from_u32(&self, n: u32) -> Scalar {
        s(n as f32)
    }
}

#[test]
fn transform_2d_new() {
    let transform = Transform2D::new();
    let raw = Transform2D {
        position: Position2D::new(),
        rotation: Rotation2D::new(),
        scale: Scale2D::new(),
    };
    assert_eq!(transform, raw);
}

#[test]
fn transform_2d_from() {
    let transform = Transform2D::from(Position2D::new(), Rotation2D::new(), Scale2D::new());
    let raw = Transform2D {
        position: Position2D::new(),
        rotation: Rotation2D::new(),
        scale: Scale2D::new(),
    };
    assert_eq!(transform, raw);
}
