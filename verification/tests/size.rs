use engine::arithmetic::Arithmetic;
use engine::scalar::Scalar;
use engine::size::{Size2D, Size3D};

/// Single-precision arithmetic as the processor does it.
struct Ieee;

fn f(a: Scalar) -> f32 {
    f32::from_bits(a.bits)
}

fn s(x: f32) -> Scalar {
    Scalar { bits: x.to_bits() }
}

/// The scalar nearest to a number of any plain numeric type.
fn n<T: Into<f64>>(x: T) -> Scalar {
    s(x.into() as f32)
}

impl Arithmetic for Ieee {
    fn add(&self, a: Scalar, b: Scalar) -> Scalar {
        s(f(a) + f(b))
    }

    fn sub(&self, a: Scalar, b: Scalar) -> Scalar {
        s(f(a) - f(b))
    }

    fn mul(&self, a: Scalar, b: Scalar) -> Scalar {
        s(f(a) * f(b))
    }

    fn div(&self, a: Scalar, b: Scalar) -> Scalar {
        s(f(a) / f(b))
    }

    fn rem(&self, a: Scalar, b: Scalar) -> Scalar {
        s(f(a) % f(b))
    }

    fn powf(&self, a: Scalar, b: Scalar) -> Scalar {
        s(f(a).powf(f(b)))
    }

    fn sqrt(&self, a: Scalar) -> Scalar {
        s(f(a).sqrt())
    }

    fn sin(&self, a: Scalar) -> Scalar {
        s(f(a).sin())
    }

    fn cos(&self, a: Scalar) -> Scalar {
        s(f(a).cos())
    }

    fn from_u32(&self, n: u32) -> Scalar {
        s(n as f32)
    }
}

#[test]
fn size_2d_new() {
    let size2d = Size2D::new();
    assert_eq!(size2d, Size2D { x: n(0.0), y: n(0.0) });
}

#[test]
fn size_2d_from() {
    let size_2d_def = Size2D::from(n(120), n(74));
    let size_2d_fdef = Size2D::from(n(120.0), n(74.0));
    let size_2d_u8 = Size2D::from(n(120u8), n(74u8));
    let size_2d_u16 = Size2D::from(n(120u16), n(74u16));
    let size_2d_u32 = Size2D::from(n(120u32), n(74u32));
    let size_2d_i8 = Size2D::from(n(120i8), n(74i8));
    let size_2d_i16 = Size2D::from(n(120i16), n(74i16));
    let size_2d_i32 = Size2D::from(n(120i32), n(74i32));
    let size_2d_f32 = Size2D::from(n(120.0f32), n(74.0f32));
    let size_2d_f64 = Size2D::from(n(120.0f64), n(74.0f64));
    let size_2d = Size2D { x: n(120.0), y: n(74.0) };
    assert_eq!(size_2d_def, size_2d);
    assert_eq!(size_2d_fdef, size_2d);
    assert_eq!(size_2d_u8, size_2d);
    assert_eq!(size_2d_u16, size_2d);
    assert_eq!(size_2d_u32, size_2d);
    assert_eq!(size_2d_i8, size_2d);
    assert_eq!(size_2d_i16, size_2d);
    assert_eq!(size_2d_i32, size_2d);
    assert_eq!(size_2d_f32, size_2d);
    assert_eq!(size_2d_f64, size_2d);
}

#[test]
fn size_2d_set() {
    let mut size2d = Size2D::new();
    size2d.set(n(28.0), n(25.0));
    assert_eq!(size2d, Size2D { x: n(28.0), y: n(25.0) });
}

#[test]
fn size_2d_self_add() {
    let mut size2d = Size2D::from(n(90), n(100));
    size2d.add_num(n(10.0), n(10.0), &Ieee);
    assert_eq!(size2d, Size2D { x: n(100.0), y: n(110.0) });
}

#[test]
fn size_2d_self_sub() {
    let mut size2d = Size2D::from(n(90), n(100));
    size2d.sub_num(n(10.0), n(10.0), &Ieee);
    assert_eq!(size2d, Size2D { x: n(80.0), y: n(90.0) });
}

#[test]
fn size_2d_self_mul() {
    let mut size2d = Size2D::from(n(50), n(100));
    size2d.mul_num(n(2.0), n(1.0), &Ieee);
    assert_eq!(size2d, Size2D { x: n(100.0), y: n(100.0) });
}

#[test]
fn size_2d_self_div() {
    let mut size2d = Size2D::from(n(50), n(100));
    size2d.div_num(n(2.0), n(1.0), &Ieee);
    assert_eq!(size2d, Size2D { x: n(25.0), y: n(100.0) });
}

#[test]
fn size_2d_add() {
    let size1 = Size2D::from(n(255), n(0));
    let size2 = Size2D::from(n(0), n(255));
    let size3 = size1.add(size2, &Ieee);
    assert_eq!(size3, Size2D { x: n(255.0), y: n(255.0) });
}

#[test]
fn size_2d_sub() {
    let size1 = Size2D::from(n(255), n(0));
    let size2 = Size2D::from(n(255), n(0));
    let size3 = size1.sub(size2, &Ieee);
    assert_eq!(size3, Size2D { x: n(0.0), y: n(0.0) });
}

#[test]
fn size_2d_mul() {
    let size1 = Size2D::from(n(50), n(0));
    let size2 = Size2D::from(n(3), n(0));
    let size3 = size1.mul(size2, &Ieee);
    assert_eq!(size3, Size2D { x: n(150.0), y: n(0.0) });
}

#[test]
fn size_2d_div() {
    let size1 = Size2D::from(n(100), n(0));
    let size2 = Size2D::from(n(2), n(1));
    let size3 = size1.div(size2, &Ieee);
    assert_eq!(size3, Size2D { x: n(50.0), y: n(0.0) });
}

#[test]
fn size_2d_mul_num() {
    let size2d = Size2D::from(n(50), n(0));
    let size2: Size2D = size2d.mul_scalar(n(2.0), &Ieee);
    assert_eq!(size2, Size2D { x: n(100.0), y: n(0.0) });
}

#[test]
fn size_2d_div_num() {
    let size2d = Size2D::from(n(100), n(0));
    let size2: Size2D = size2d.div_scalar(n(2.0), &Ieee);
    assert_eq!(size2, Size2D { x: n(50.0), y: n(0.0) });
}

#[test]
fn size_2d_add_assign() {
    let mut size1 = Size2D::from(n(255), n(0));
    let size2 = Size2D::from(n(0), n(255));
    size1.add_assign(size2, &Ieee);
    assert_eq!(size1, Size2D { x: n(255.0), y: n(255.0) });
}

#[test]
fn size_2d_sub_assign() {
    let mut size1 = Size2D::from(n(255), n(0));
    let size2 = Size2D::from(n(255), n(0));
    size1.sub_assign(size2, &Ieee);
    assert_eq!(size1, Size2D { x: n(0.0), y: n(0.0) });
}

#[test]
fn size_2d_mul_assign() {
    let mut size1 = Size2D::from(n(50), n(0));
    let size2 = Size2D::from(n(3), n(0));
    size1.mul_assign(size2, &Ieee);
    assert_eq!(size1, Size2D { x: n(150.0), y: n(0.0) });
}

#[test]
fn size_2d_div_assign() {
    let mut size1 = Size2D::from(n(100), n(0));
    let size2 = Size2D::from(n(2), n(1));
    size1.div_assign(size2, &Ieee);
    assert_eq!(size1, Size2D { x: n(50.0), y: n(0.0) });
}

#[test]
fn size_2d_mul_num_assign() {
    let mut size2d = Size2D::from(n(50), n(0));
    size2d.mul_scalar_assign(n(2.0), &Ieee);
    assert_eq!(size2d, Size2D { x: n(100.0), y: n(0.0) });
}

#[test]
fn size_2d_div_num_assign() {
    let mut size2d = Size2D::from(n(100), n(0));
    size2d.div_scalar_assign(n(2.0), &Ieee);
    assert_eq!(size2d, Size2D { x: n(50.0), y: n(0.0) });
}

#[test]
fn size_3d_new() {
    let size3d = Size3D::new();
    assert_eq!(size3d, Size3D { x: n(0.0), y: n(0.0), z: n(0.0) });
}

#[test]
fn size_3d_from() {
    let size_3d_def = Size3D::from(n(120), n(74), n(33));
    let size_3d_fdef = Size3D::from(n(120.0), n(74.0), n(33.0));
    let size_3d_u8 = Size3D::from(n(120u8), n(74u8), n(33u8));
    let size_3d_u16 = Size3D::from(n(120u16), n(74u16), n(33u16));
    let size_3d_u32 = Size3D::from(n(120u32), n(74u32), n(33u32));
    let size_3d_i8 = Size3D::from(n(120i8), n(74i8), n(33i8));
    let size_3d_i16 = Size3D::from(n(120i16), n(74i16), n(33i16));
    let size_3d_i32 = Size3D::from(n(120i32), n(74i32), n(33i32));
    let size_3d_f32 = Size3D::from(n(120.0f32), n(74.0f32), n(33.0f32));
    let size_3d_f64 = Size3D::from(n(120.0f64), n(74.0f64), n(33.0f64));
    let size_3d = Size3D { x: n(120.0), y: n(74.0), z: n(33.0) };
    assert_eq!(size_3d_def, size_3d);
    assert_eq!(size_3d_fdef, size_3d);
    assert_eq!(size_3d_u8, size_3d);
    assert_eq!(size_3d_u16, size_3d);
    assert_eq!(size_3d_u32, size_3d);
    assert_eq!(size_3d_i8, size_3d);
    assert_eq!(size_3d_i16, size_3d);
    assert_eq!(size_3d_i32, size_3d);
    assert_eq!(size_3d_f32, size_3d);
    assert_eq!(size_3d_f64, size_3d);
}

#[test]
fn size_3d_set() {
    let mut size3d = Size3D::new();
    size3d.set(n(28.0), n(25.0), n(33.0));
    assert_eq!(size3d, Size3D { x: n(28.0), y: n(25.0), z: n(33.0) });
}

#[test]
fn size_3d_self_add() {
    let mut size3d = Size3D::from(n(90), n(100), n(110));
    size3d.add_num(n(10.0), n(10.0), n(10.0), &Ieee);
    assert_eq!(size3d, Size3D { x: n(100.0), y: n(110.0), z: n(120.0) });
}

#[test]
fn size_3d_self_sub() {
    let mut size3d = Size3D::from(n(90), n(100), n(110));
    size3d.sub_num(n(10.0), n(10.0), n(10.0), &Ieee);
    assert_eq!(size3d, Size3D { x: n(80.0), y: n(90.0), z: n(100.0) });
}

#[test]
fn size_3d_self_mul() {
    let mut size3d = Size3D::from(n(50), n(100), n(25));
    size3d.mul_num(n(2.0), n(1.0), n(3.0), &Ieee);
    assert_eq!(size3d, Size3D { x: n(100.0), y: n(100.0), z: n(75.0) });
}

#[test]
fn size_3d_self_div() {
    let mut size3d = Size3D::from(n(50), n(100), n(75));
    size3d.div_num(n(2.0), n(1.0), n(3.0), &Ieee);
    assert_eq!(size3d, Size3D { x: n(25.0), y: n(100.0), z: n(25.0) });
}

#[test]
fn size_3d_add() {
    let size1 = Size3D::from(n(255), n(0), n(255));
    let size2 = Size3D::from(n(0), n(255), n(0));
    let size3 = size1.add(size2, &Ieee);
    assert_eq!(size3, Size3D { x: n(255.0), y: n(255.0), z: n(255.0) });
}

#[test]
fn size_3d_sub() {
    let size1 = Size3D::from(n(255), n(0), n(255));
    let size2 = Size3D::from(n(255), n(0), n(255));
    let size3 = size1.sub(size2, &Ieee);
    assert_eq!(size3, Size3D { x: n(0.0), y: n(0.0), z: n(0.0) });
}

#[test]
fn size_3d_mul() {
    let size1 = Size3D::from(n(50), n(0), n(25));
    let size2 = Size3D::from(n(3), n(0), n(2));
    let size3 = size1.mul(size2, &Ieee);
    assert_eq!(size3, Size3D { x: n(150.0), y: n(0.0), z: n(50.0) });
}

#[test]
fn size_3d_div() {
    let size1 = Size3D::from(n(100), n(0), n(75));
    let size2 = Size3D::from(n(2), n(1), n(3));
    let size3 = size1.div(size2, &Ieee);
    assert_eq!(size3, Size3D { x: n(50.0), y: n(0.0), z: n(25.0) });
}

#[test]
fn size_3d_mul_num() {
    let size3d = Size3D::from(n(50), n(0), n(25));
    let size2: Size3D = size3d.mul_scalar(n(2.0), &Ieee);
    assert_eq!(size2, Size3D { x: n(100.0), y: n(0.0), z: n(50.0) });
}

#[test]
fn size_3d_div_num() {
    let size3d = Size3D::from(n(100), n(0), n(50));
    let size2: Size3D = size3d.div_scalar(n(2.0), &Ieee);
    assert_eq!(size2, Size3D { x: n(50.0), y: n(0.0), z: n(25.0) });
}

#[test]
fn size_3d_add_assign() {
    let mut size1 = Size3D::from(n(255), n(0), n(255));
    let size2 = Size3D::from(n(0), n(255), n(0));
    size1.add_assign(size2, &Ieee);
    assert_eq!(size1, Size3D { x: n(255.0), y: n(255.0), z: n(255.0) });
}

#[test]
fn size_3d_sub_assign() {
    let mut size1 = Size3D::from(n(255), n(0), n(255));
    let size2 = Size3D::from(n(255), n(0), n(255));
    size1.sub_assign(size2, &Ieee);
    assert_eq!(size1, Size3D { x: n(0.0), y: n(0.0), z: n(0.0) });
}

#[test]
fn size_3d_mul_assign() {
    let mut size1 = Size3D::from(n(50), n(0), n(25));
    let size2 = Size3D::from(n(3), n(0), n(2));
    size1.mul_assign(size2, &Ieee);
    assert_eq!(size1, Size3D { x: n(150.0), y: n(0.0), z: n(50.0) });
}

#[test]
fn size_3d_div_assign() {
    let mut size1 = Size3D::from(n(100), n(0), n(75));
    let size2 = Size3D::from(n(2), n(1), n(3));
    size1.div_assign(size2, &Ieee);
    assert_eq!(size1, Size3D { x: n(50.0), y: n(0.0), z: n(25.0) });
}

#[test]
fn size_3d_mul_num_assign() {
    let mut size3d = Size3D::from(n(50), n(0), n(25));
    size3d.mul_scalar_assign(n(2.0), &Ieee);
    assert_eq!(size3d, Size3D { x: n(100.0), y: n(0.0), z: n(50.0) });
}

#[test]
fn size_3d_div_num_assign() {
    let mut size3d = Size3D::from(n(100), n(0), n(50));
    size3d.div_scalar_assign(n(2.0), &Ieee);
    assert_eq!(size3d, Size3D { x: n(50.0), y: n(0.0), z: n(25.0) });
}
