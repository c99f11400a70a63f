//! Two- and three-component vectors.

use vstd::prelude::*;
use vstd::std_specs::cmp::PartialEqSpecImpl;
use crate::arithmetic::{
    difference_of, product_of, remainder_of, root_of, sum_of, Arithmetic,
};
use crate::scalar::{Scalar, ZERO_BITS};

verus! {

/// `r` is `a * b - c * d` as `ops` computed it, products first.
pub open spec fn minor_of<A: Arithmetic>(
    ops: &A,
    a: Scalar,
    b: Scalar,
    c: Scalar,
    d: Scalar,
    r: Scalar,
) -> bool {
    exists|p: Scalar, q: Scalar|
        #![trigger product_of(ops, a, b, p), product_of(ops, c, d, q)]
        product_of(ops, a, b, p) && product_of(ops, c, d, q) && difference_of(ops, p, q, r)
}

/// Computes `a * b - c * d`.
pub fn minor<A: Arithmetic>(ops: &A, a: Scalar, b: Scalar, c: Scalar, d: Scalar) -> (r: Scalar)
    ensures
        minor_of(ops, a, b, c, d, r),
{
    let p = ops.mul(a, b);
    let q = ops.mul(c, d);
    let r = ops.sub(p, q);
    assert(product_of(ops, a, b, p) && product_of(ops, c, d, q) && difference_of(ops, p, q, r));
    r
}

/// A vector in the plane.
#[derive(Clone, Copy, Debug)]
pub struct Vector2D {
    pub x: Scalar,
    pub y: Scalar,
}

impl Vector2D {
    /// The vector whose components are both `0.0`.
    pub open spec fn of_zero() -> Vector2D {
        Vector2D { x: Scalar::of(ZERO_BITS), y: Scalar::of(ZERO_BITS) }
    }

    /// Whether a component is a NaN.
    pub open spec fn has_nan(self) -> bool {
        self.x.nan() || self.y.nan()
    }

    /// `r` is the dot product `self.x * other.x + self.y * other.y` as `ops`
    /// computed it.
    pub open spec fn dot_is<A: Arithmetic>(self, other: Vector2D, ops: &A, r: Scalar) -> bool {
        exists|p: Scalar, q: Scalar|
            #![trigger product_of(ops, self.x, other.x, p), product_of(ops, self.y, other.y, q)]
            product_of(ops, self.x, other.x, p) && product_of(ops, self.y, other.y, q) && sum_of(
                ops,
                p,
                q,
                r,
            )
    }

    /// `r` is the square root of the dot product of the vector with itself.
    pub open spec fn magnitude_is<A: Arithmetic>(self, ops: &A, r: Scalar) -> bool {
        exists|d: Scalar| #![trigger self.dot_is(self, ops, d)] self.dot_is(self, ops, d) && root_of(ops, d, r)
    }

    /// The zero vector.
    pub fn new() -> (r: Vector2D)
        ensures
            r == Vector2D::of_zero(),
    {
        Vector2D { x: Scalar::from_bits(ZERO_BITS), y: Scalar::from_bits(ZERO_BITS) }
    }

    pub fn from(x: Scalar, y: Scalar) -> (r: Vector2D)
        ensures
            r.x == x,
            r.y == y,
    {
        Vector2D { x, y }
    }

    /// The vector with both components replaced.
    pub fn set(self, x: Scalar, y: Scalar) -> (r: Vector2D)
        ensures
            r.x == x,
            r.y == y,
    {
        Vector2D { x, y }
    }

    /// Component-wise sum.
    pub fn add<A: Arithmetic>(self, other: Vector2D, ops: &A) -> (r: Vector2D)
        ensures
            sum_of(ops, self.x, other.x, r.x),
            sum_of(ops, self.y, other.y, r.y),
    {
        Vector2D { x: ops.add(self.x, other.x), y: ops.add(self.y, other.y) }
    }

    pub fn add_assign<A: Arithmetic>(&mut self, other: Vector2D, ops: &A)
        ensures
            sum_of(ops, old(self).x, other.x, final(self).x),
            sum_of(ops, old(self).y, other.y, final(self).y),
    {
        self.x = ops.add(self.x, other.x);
        self.y = ops.add(self.y, other.y);
    }

    /// Component-wise difference.
    pub fn sub<A: Arithmetic>(self, other: Vector2D, ops: &A) -> (r: Vector2D)
        ensures
            difference_of(ops, self.x, other.x, r.x),
            difference_of(ops, self.y, other.y, r.y),
    {
        Vector2D { x: ops.sub(self.x, other.x), y: ops.sub(self.y, other.y) }
    }

    pub fn sub_assign<A: Arithmetic>(&mut self, other: Vector2D, ops: &A)
        ensures
            difference_of(ops, old(self).x, other.x, final(self).x),
            difference_of(ops, old(self).y, other.y, final(self).y),
    {
        self.x = ops.sub(self.x, other.x);
        self.y = ops.sub(self.y, other.y);
    }

    /// The dot product.
    pub fn dot<A: Arithmetic>(self, other: Vector2D, ops: &A) -> (r: Scalar)
        ensures
            self.dot_is(other, ops, r),
    {
        let p = ops.mul(self.x, other.x);
        let q = ops.mul(self.y, other.y);
        let r = ops.add(p, q);
        assert(product_of(ops, self.x, other.x, p) && product_of(ops, self.y, other.y, q));
        r
    }

    /// Every component multiplied by `value`.
    pub fn scale<A: Arithmetic>(self, value: Scalar, ops: &A) -> (r: Vector2D)
        ensures
            product_of(ops, self.x, value, r.x),
            product_of(ops, self.y, value, r.y),
    {
        Vector2D { x: ops.mul(self.x, value), y: ops.mul(self.y, value) }
    }

    pub fn scale_assign<A: Arithmetic>(&mut self, value: Scalar, ops: &A)
        ensures
            product_of(ops, old(self).x, value, final(self).x),
            product_of(ops, old(self).y, value, final(self).y),
    {
        self.x = ops.mul(self.x, value);
        self.y = ops.mul(self.y, value);
    }

    /// Component-wise remainder.
    pub fn rem<A: Arithmetic>(self, other: Vector2D, ops: &A) -> (r: Vector2D)
        ensures
            remainder_of(ops, self.x, other.x, r.x),
            remainder_of(ops, self.y, other.y, r.y),
    {
        Vector2D { x: ops.rem(self.x, other.x), y: ops.rem(self.y, other.y) }
    }

    pub fn rem_assign<A: Arithmetic>(&mut self, other: Vector2D, ops: &A)
        ensures
            remainder_of(ops, old(self).x, other.x, final(self).x),
            remainder_of(ops, old(self).y, other.y, final(self).y),
    {
        self.x = ops.rem(self.x, other.x);
        self.y = ops.rem(self.y, other.y);
    }

    /// Every component with its sign flipped.
    pub fn neg(self) -> (r: Vector2D)
        ensures
            r.x == self.x.negated(),
            r.y == self.y.negated(),
    {
        Vector2D { x: self.x.neg(), y: self.y.neg() }
    }

    /// The length of the vector.
    pub fn magnitude<A: Arithmetic>(self, ops: &A) -> (r: Scalar)
        ensures
            self.magnitude_is(ops, r),
    {
        let d = self.dot(self, ops);
        let r = ops.sqrt(d);
        assert(self.dot_is(self, ops, d) && root_of(ops, d, r));
        r
    }
}

impl PartialEq for Vector2D {
    fn eq(&self, other: &Vector2D) -> (r: bool) {
        self.x == other.x && self.y == other.y
    }
}

impl PartialEqSpecImpl for Vector2D {
    open spec fn obeys_eq_spec() -> bool {
        true
    }

    open spec fn eq_spec(&self, other: &Vector2D) -> bool {
        self.x.same_value(other.x) && self.y.same_value(other.y)
    }
}

/// A vector in space.
#[derive(Clone, Copy, Debug)]
pub struct Vector3D {
    pub x: Scalar,
    pub y: Scalar,
    pub z: Scalar,
}

impl Vector3D {
    /// The vector whose components are all `0.0`.
    pub open spec fn of_zero() -> Vector3D {
        Vector3D { x: Scalar::of(ZERO_BITS), y: Scalar::of(ZERO_BITS), z: Scalar::of(ZERO_BITS) }
    }

    /// Whether a component is a NaN.
    pub open spec fn has_nan(self) -> bool {
        self.x.nan() || self.y.nan() || self.z.nan()
    }

    /// `r` is the dot product, summed from the left:
    /// `(self.x * other.x + self.y * other.y) + self.z * other.z`.
    pub open spec fn dot_is<A: Arithmetic>(self, other: Vector3D, ops: &A, r: Scalar) -> bool {
        exists|p: Scalar, q: Scalar, s: Scalar, t: Scalar|
            #![trigger product_of(ops, self.x, other.x, p), product_of(ops, self.y, other.y, q), sum_of(ops, p, q, s), product_of(ops, self.z, other.z, t)]
            product_of(ops, self.x, other.x, p) && product_of(ops, self.y, other.y, q) && sum_of(
                ops,
                p,
                q,
                s,
            ) && product_of(ops, self.z, other.z, t) && sum_of(ops, s, t, r)
    }

    /// `r` is the square root of the dot product of the vector with itself.
    pub open spec fn magnitude_is<A: Arithmetic>(self, ops: &A, r: Scalar) -> bool {
        exists|d: Scalar| #![trigger self.dot_is(self, ops, d)] self.dot_is(self, ops, d) && root_of(ops, d, r)
    }

    /// `r` is the cross product of `self` and `other` by the determinant
    /// formula.
    pub open spec fn cross_is<A: Arithmetic>(self, other: Vector3D, ops: &A, r: Vector3D) -> bool {
        &&& minor_of(ops, self.y, other.z, self.z, other.y, r.x)
        &&& minor_of(ops, self.z, other.x, self.x, other.z, r.y)
        &&& minor_of(ops, self.x, other.y, self.y, other.x, r.z)
    }

    /// The zero vector.
    pub fn new() -> (r: Vector3D)
        ensures
            r == Vector3D::of_zero(),
    {
        Vector3D {
            x: Scalar::from_bits(ZERO_BITS),
            y: Scalar::from_bits(ZERO_BITS),
            z: Scalar::from_bits(ZERO_BITS),
        }
    }

    pub fn from(x: Scalar, y: Scalar, z: Scalar) -> (r: Vector3D)
        ensures
            r.x == x,
            r.y == y,
            r.z == z,
    {
        Vector3D { x, y, z }
    }

    /// The vector with all components replaced.
    pub fn set(self, x: Scalar, y: Scalar, z: Scalar) -> (r: Vector3D)
        ensures
            r.x == x,
            r.y == y,
            r.z == z,
    {
        Vector3D { x, y, z }
    }

    /// Component-wise sum.
    pub fn add<A: Arithmetic>(self, other: Vector3D, ops: &A) -> (r: Vector3D)
        ensures
            sum_of(ops, self.x, other.x, r.x),
            sum_of(ops, self.y, other.y, r.y),
            sum_of(ops, self.z, other.z, r.z),
    {
        Vector3D {
            x: ops.add(self.x, other.x),
            y: ops.add(self.y, other.y),
            z: ops.add(self.z, other.z),
        }
    }

    pub fn add_assign<A: Arithmetic>(&mut self, other: Vector3D, ops: &A)
        ensures
            sum_of(ops, old(self).x, other.x, final(self).x),
            sum_of(ops, old(self).y, other.y, final(self).y),
            sum_of(ops, old(self).z, other.z, final(self).z),
    {
        self.x = ops.add(self.x, other.x);
        self.y = ops.add(self.y, other.y);
        self.z = ops.add(self.z, other.z);
    }

    /// Component-wise difference.
    pub fn sub<A: Arithmetic>(self, other: Vector3D, ops: &A) -> (r: Vector3D)
        ensures
            difference_of(ops, self.x, other.x, r.x),
            difference_of(ops, self.y, other.y, r.y),
            difference_of(ops, self.z, other.z, r.z),
    {
        Vector3D {
            x: ops.sub(self.x, other.x),
            y: ops.sub(self.y, other.y),
            z: ops.sub(self.z, other.z),
        }
    }

    pub fn sub_assign<A: Arithmetic>(&mut self, other: Vector3D, ops: &A)
        ensures
            difference_of(ops, old(self).x, other.x, final(self).x),
            difference_of(ops, old(self).y, other.y, final(self).y),
            difference_of(ops, old(self).z, other.z, final(self).z),
    {
        self.x = ops.sub(self.x, other.x);
        self.y = ops.sub(self.y, other.y);
        self.z = ops.sub(self.z, other.z);
    }

    /// The dot product.
    pub fn dot<A: Arithmetic>(self, other: Vector3D, ops: &A) -> (r: Scalar)
        ensures
            self.dot_is(other, ops, r),
    {
        let p = ops.mul(self.x, other.x);
        let q = ops.mul(self.y, other.y);
        let s = ops.add(p, q);
        let t = ops.mul(self.z, other.z);
        let r = ops.add(s, t);
        assert(product_of(ops, self.x, other.x, p) && product_of(ops, self.y, other.y, q) && sum_of(
            ops,
            p,
            q,
            s,
        ) && product_of(ops, self.z, other.z, t));
        r
    }

    /// Every component multiplied by `value`.
    pub fn scale<A: Arithmetic>(self, value: Scalar, ops: &A) -> (r: Vector3D)
        ensures
            product_of(ops, self.x, value, r.x),
            product_of(ops, self.y, value, r.y),
            product_of(ops, self.z, value, r.z),
    {
        Vector3D {
            x: ops.mul(self.x, value),
            y: ops.mul(self.y, value),
            z: ops.mul(self.z, value),
        }
    }

    pub fn scale_assign<A: Arithmetic>(&mut self, value: Scalar, ops: &A)
        ensures
            product_of(ops, old(self).x, value, final(self).x),
            product_of(ops, old(self).y, value, final(self).y),
            product_of(ops, old(self).z, value, final(self).z),
    {
        self.x = ops.mul(self.x, value);
        self.y = ops.mul(self.y, value);
        self.z = ops.mul(self.z, value);
    }

    /// The cross product, perpendicular to both vectors.
    pub fn cross<A: Arithmetic>(self, other: Vector3D, ops: &A) -> (r: Vector3D)
        ensures
            self.cross_is(other, ops, r),
    {
        Vector3D {
            x: minor(ops, self.y, other.z, self.z, other.y),
            y: minor(ops, self.z, other.x, self.x, other.z),
            z: minor(ops, self.x, other.y, self.y, other.x),
        }
    }

    /// Replaces the vector by its cross product with `other`; all three
    /// components are computed from the vector as it was.
    pub fn cross_assign<A: Arithmetic>(&mut self, other: Vector3D, ops: &A)
        ensures
            old(self).cross_is(other, ops, *final(self)),
    {
        let x = minor(ops, self.y, other.z, self.z, other.y);
        let y = minor(ops, self.z, other.x, self.x, other.z);
        let z = minor(ops, self.x, other.y, self.y, other.x);
        self.x = x;
        self.y = y;
        self.z = z;
    }

    /// Every component with its sign flipped.
    pub fn neg(self) -> (r: Vector3D)
        ensures
            r.x == self.x.negated(),
            r.y == self.y.negated(),
            r.z == self.z.negated(),
    {
        Vector3D { x: self.x.neg(), y: self.y.neg(), z: self.z.neg() }
    }

    /// The length of the vector.
    pub fn magnitude<A: Arithmetic>(self, ops: &A) -> (r: Scalar)
        ensures
            self.magnitude_is(ops, r),
    {
        let d = self.dot(self, ops);
        let r = ops.sqrt(d);
        assert(self.dot_is(self, ops, d) && root_of(ops, d, r));
        r
    }
}

} // verus!
