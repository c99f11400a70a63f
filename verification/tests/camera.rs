use engine::arithmetic::Arithmetic;
use engine::camera::Camera2D;
use engine::scalar::Scalar;
use engine::vector::Vector2D;

/// Single-precision arithmetic as the processor does it.
struct Ieee;

fn f(a: Scalar) -> f32 {
    f32::from_bits(a.bits)
}

fn s(x: f32) -> Scalar {
    Scalar { bits: x.to_bits() }
}

/// The scalar nearest to a number of any plain numeric type.
fn n<T: Into<f64>>(x: T) -> Scalar {
    s(x.into() as f32)
}

impl Arithmetic for Ieee {
    fn add(&self, a: Scalar, b: Scalar) -> Scalar {
        s(f(a) + f(b))
    }

    fn sub(&self, a: Scalar, b: Scalar) -> Scalar {
        s(f(a) - f(b))
    }

    fn mul(&self, a: Scalar, b: Scalar) -> Scalar {
        s(f(a) * f(b))
    }

    fn div(&self, a: Scalar, b: Scalar) -> Scalar {
        s(f(a) / f(b))
    }

    fn rem(&self, a: Scalar, b: Scalar) -> Scalar {
        s(f(a) % f(b))
    }

    fn powf(&self, a: Scalar, b: Scalar) -> Scalar {
        s(f(a).powf(f(b)))
    }

    fn sqrt(&self, a: Scalar) -> Scalar {
        s(f(a).sqrt())
    }

    fn sin(&self, a: Scalar) -> Scalar {
        s(f(a).sin())
    }

    fn cos(&self, a: Scalar) -> Scalar {
        s(f(a).cos())
    }

    fn from_u32(&self, n: u32) -> Scalar {
        s(n as f32)
    }
}

#[test]
fn camera_new() {
    let cam = Camera2D::new();
    assert_eq!(cam, Camera2D { focus_position: Vector2D { x: n(0.0), y: n(0.0) }, zoom: n(1.0) });
}

#[test]
fn camera_from() {
    let cam = Camera2D::from(Vector2D::from(n(10.0), n(10.0)), n(2.0));
    assert_eq!(cam, Camera2D { focus_position: Vector2D { x: n(10.0), y: n(10.0) }, zoom: n(2.0) });
}
