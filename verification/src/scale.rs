//! Scale factors.

use vstd::prelude::*;
use vstd::std_specs::cmp::PartialEqSpecImpl;
use crate::arithmetic::{apply, converted_of, result_of, Arithmetic, Operation};
use crate::scalar::{Scalar, ZERO_BITS};

verus! {

/// A scale factor for each axis of the plane.
#[derive(Clone, Copy, Debug)]
pub struct Scale2D {
    pub x: Scalar,
    pub y: Scalar,
}

impl Scale2D {
    /// The value with the given components.
    pub open spec fn of(x: Scalar, y: Scalar) -> Scale2D {
        Scale2D { x, y }
    }

    /// `r` is `self op other`, component by component, as `ops` computed it.
    pub open spec fn combines<A: Arithmetic>(
        self,
        op: Operation,
        other: Scale2D,
        ops: &A,
        r: Scale2D,
    ) -> bool {
        &&& result_of(ops, op, self.x, other.x, r.x)
        &&& result_of(ops, op, self.y, other.y, r.y)
    }

    /// Component-wise IEEE equality.
    pub open spec fn same_value(self, other: Scale2D) -> bool {
        &&& self.x.same_value(other.x)
        &&& self.y.same_value(other.y)
    }

    fn combine<A: Arithmetic>(self, op: Operation, other: Scale2D, ops: &A) -> (r: Scale2D)
        ensures
            self.combines(op, other, ops, r),
    {
        Scale2D {
            x: apply(ops, op, self.x, other.x),
            y: apply(ops, op, self.y, other.y),
        }
    }

    /// All components zero.
    pub fn new() -> (r: Scale2D)
        ensures
            r.x == Scalar::of(ZERO_BITS),
            r.y == Scalar::of(ZERO_BITS),
    {
        Scale2D {
            x: Scalar::from_bits(ZERO_BITS),
            y: Scalar::from_bits(ZERO_BITS),
        }
    }

    /// The scale with the given whole factors.
    pub fn from<A: Arithmetic>(x: u32, y: u32, ops: &A) -> (r: Scale2D)
        ensures
            converted_of(ops, x, r.x),
            converted_of(ops, y, r.y),
    {
        Scale2D {
            x: ops.from_u32(x),
            y: ops.from_u32(y),
        }
    }

    pub fn from_f32(x: Scalar, y: Scalar) -> (r: Scale2D)
        ensures
            r == Scale2D::of(x, y),
    {
        Scale2D { x, y }
    }

    /// Replaces every component.
    pub fn set(&mut self, x: Scalar, y: Scalar)
        ensures
            *final(self) == Scale2D::of(x, y),
    {
        self.x = x;
        self.y = y;
    }

    /// Adds to each component its own operand.
    pub fn add_num<A: Arithmetic>(&mut self, x: Scalar, y: Scalar, ops: &A)
        ensures
            old(self).combines(Operation::Add, Scale2D::of(x, y), ops, *final(self)),
    {
        *self = self.combine(Operation::Add, Scale2D { x, y }, ops);
    }

    /// Subtracts from each component its own operand.
    pub fn sub_num<A: Arithmetic>(&mut self, x: Scalar, y: Scalar, ops: &A)
        ensures
            old(self).combines(Operation::Sub, Scale2D::of(x, y), ops, *final(self)),
    {
        *self = self.combine(Operation::Sub, Scale2D { x, y }, ops);
    }

    /// Multiplies each component by its own operand.
    pub fn mul_num<A: Arithmetic>(&mut self, x: Scalar, y: Scalar, ops: &A)
        ensures
            old(self).combines(Operation::Mul, Scale2D::of(x, y), ops, *final(self)),
    {
        *self = self.combine(Operation::Mul, Scale2D { x, y }, ops);
    }

    /// Divides each component by its own operand.
    pub fn div_num<A: Arithmetic>(&mut self, x: Scalar, y: Scalar, ops: &A)
        ensures
            old(self).combines(Operation::Div, Scale2D::of(x, y), ops, *final(self)),
    {
        *self = self.combine(Operation::Div, Scale2D { x, y }, ops);
    }

    /// Component-wise sum.
    pub fn add<A: Arithmetic>(self, other: Scale2D, ops: &A) -> (r: Scale2D)
        ensures
            self.combines(Operation::Add, other, ops, r),
    {
        self.combine(Operation::Add, other, ops)
    }

    pub fn add_assign<A: Arithmetic>(&mut self, other: Scale2D, ops: &A)
        ensures
            old(self).combines(Operation::Add, other, ops, *final(self)),
    {
        *self = self.combine(Operation::Add, other, ops);
    }

    /// Component-wise difference.
    pub fn sub<A: Arithmetic>(self, other: Scale2D, ops: &A) -> (r: Scale2D)
        ensures
            self.combines(Operation::Sub, other, ops, r),
    {
        self.combine(Operation::Sub, other, ops)
    }

    pub fn sub_assign<A: Arithmetic>(&mut self, other: Scale2D, ops: &A)
        ensures
            old(self).combines(Operation::Sub, other, ops, *final(self)),
    {
        *self = self.combine(Operation::Sub, other, ops);
    }

    /// Component-wise product.
    pub fn mul<A: Arithmetic>(self, other: Scale2D, ops: &A) -> (r: Scale2D)
        ensures
            self.combines(Operation::Mul, other, ops, r),
    {
        self.combine(Operation::Mul, other, ops)
    }

    pub fn mul_assign<A: Arithmetic>(&mut self, other: Scale2D, ops: &A)
        ensures
            old(self).combines(Operation::Mul, other, ops, *final(self)),
    {
        *self = self.combine(Operation::Mul, other, ops);
    }

    /// Component-wise quotient.
    pub fn div<A: Arithmetic>(self, other: Scale2D, ops: &A) -> (r: Scale2D)
        ensures
            self.combines(Operation::Div, other, ops, r),
    {
        self.combine(Operation::Div, other, ops)
    }

    pub fn div_assign<A: Arithmetic>(&mut self, other: Scale2D, ops: &A)
        ensures
            old(self).combines(Operation::Div, other, ops, *final(self)),
    {
        *self = self.combine(Operation::Div, other, ops);
    }

    /// Every component multiplied by `value`.
    pub fn mul_scalar<A: Arithmetic>(self, value: Scalar, ops: &A) -> (r: Scale2D)
        ensures
            self.combines(Operation::Mul, Scale2D::of(value, value), ops, r),
    {
        self.combine(Operation::Mul, Scale2D { x: value, y: value }, ops)
    }

    pub fn mul_scalar_assign<A: Arithmetic>(&mut self, value: Scalar, ops: &A)
        ensures
            old(self).combines(Operation::Mul, Scale2D::of(value, value), ops, *final(self)),
    {
        *self = self.combine(Operation::Mul, Scale2D { x: value, y: value }, ops);
    }

    /// Every component divided by `value`.
    pub fn div_scalar<A: Arithmetic>(self, value: Scalar, ops: &A) -> (r: Scale2D)
        ensures
            self.combines(Operation::Div, Scale2D::of(value, value), ops, r),
    {
        self.combine(Operation::Div, Scale2D { x: value, y: value }, ops)
    }

    pub fn div_scalar_assign<A: Arithmetic>(&mut self, value: Scalar, ops: &A)
        ensures
            old(self).combines(Operation::Div, Scale2D::of(value, value), ops, *final(self)),
    {
        *self = self.combine(Operation::Div, Scale2D { x: value, y: value }, ops);
    }
}

impl PartialEq for Scale2D {
    fn eq(&self, other: &Scale2D) -> (r: bool) {
        self.x == other.x && self.y == other.y
    }
}

impl PartialEqSpecImpl for Scale2D {
    open spec fn obeys_eq_spec() -> bool {
        true
    }

    open spec fn eq_spec(&self, other: &Scale2D) -> bool {
        self.same_value(*other)
    }
}

/// A scale factor for each axis of space.
#[derive(Clone, Copy, Debug)]
pub struct Scale3D {
    pub x: Scalar,
    pub y: Scalar,
    pub z: Scalar,
}

impl Scale3D {
    /// The value with the given components.
    pub open spec fn of(x: Scalar, y: Scalar, z: Scalar) -> Scale3D {
        Scale3D { x, y, z }
    }

    /// `r` is `self op other`, component by component, as `ops` computed it.
    pub open spec fn combines<A: Arithmetic>(
        self,
        op: Operation,
        other: Scale3D,
        ops: &A,
        r: Scale3D,
    ) -> bool {
        &&& result_of(ops, op, self.x, other.x, r.x)
        &&& result_of(ops, op, self.y, other.y, r.y)
        &&& result_of(ops, op, self.z, other.z, r.z)
    }

    /// IEEE equality of the first two components. The third takes no part
    /// in the comparison.
    pub open spec fn same_value(self, other: Scale3D) -> bool {
        &&& self.x.same_value(other.x)
        &&& self.y.same_value(other.y)
    }

    fn combine<A: Arithmetic>(self, op: Operation, other: Scale3D, ops: &A) -> (r: Scale3D)
        ensures
            self.combines(op, other, ops, r),
    {
        Scale3D {
            x: apply(ops, op, self.x, other.x),
            y: apply(ops, op, self.y, other.y),
            z: apply(ops, op, self.z, other.z),
        }
    }

    /// All components zero.
    pub fn new() -> (r: Scale3D)
        ensures
            r.x == Scalar::of(ZERO_BITS),
            r.y == Scalar::of(ZERO_BITS),
            r.z == Scalar::of(ZERO_BITS),
    {
        Scale3D {
            x: Scalar::from_bits(ZERO_BITS),
            y: Scalar::from_bits(ZERO_BITS),
            z: Scalar::from_bits(ZERO_BITS),
        }
    }

    /// The scale with the given whole factors.
    pub fn from<A: Arithmetic>(x: u32, y: u32, z: u32, ops: &A) -> (r: Scale3D)
        ensures
            converted_of(ops, x, r.x),
            converted_of(ops, y, r.y),
            converted_of(ops, z, r.z),
    {
        Scale3D {
            x: ops.from_u32(x),
            y: ops.from_u32(y),
            z: ops.from_u32(z),
        }
    }

    pub fn from_f32(x: Scalar, y: Scalar, z: Scalar) -> (r: Scale3D)
        ensures
            r == Scale3D::of(x, y, z),
    {
        Scale3D { x, y, z }
    }

    /// Replaces every component.
    pub fn set(&mut self, x: Scalar, y: Scalar, z: Scalar)
        ensures
            *final(self) == Scale3D::of(x, y, z),
    {
        self.x = x;
        self.y = y;
        self.z = z;
    }

    /// Adds to each component its own operand.
    pub fn add_num<A: Arithmetic>(&mut self, x: Scalar, y: Scalar, z: Scalar, ops: &A)
        ensures
            old(self).combines(Operation::Add, Scale3D::of(x, y, z), ops, *final(self)),
    {
        *self = self.combine(Operation::Add, Scale3D { x, y, z }, ops);
    }

    /// Subtracts from each component its own operand.
    pub fn sub_num<A: Arithmetic>(&mut self, x: Scalar, y: Scalar, z: Scalar, ops: &A)
        ensures
            old(self).combines(Operation::Sub, Scale3D::of(x, y, z), ops, *final(self)),
    {
        *self = self.combine(Operation::Sub, Scale3D { x, y, z }, ops);
    }

    /// Multiplies each component by its own operand.
    pub fn mul_num<A: Arithmetic>(&mut self, x: Scalar, y: Scalar, z: Scalar, ops: &A)
        ensures
            old(self).combines(Operation::Mul, Scale3D::of(x, y, z), ops, *final(self)),
    {
        *self = self.combine(Operation::Mul, Scale3D { x, y, z }, ops);
    }

    /// Divides each component by its own operand.
    pub fn div_num<A: Arithmetic>(&mut self, x: Scalar, y: Scalar, z: Scalar, ops: &A)
        ensures
            old(self).combines(Operation::Div, Scale3D::of(x, y, z), ops, *final(self)),
    {
        *self = self.combine(Operation::Div, Scale3D { x, y, z }, ops);
    }

    /// Component-wise sum.
    pub fn add<A: Arithmetic>(self, other: Scale3D, ops: &A) -> (r: Scale3D)
        ensures
            self.combines(Operation::Add, other, ops, r),
    {
        self.combine(Operation::Add, other, ops)
    }

    pub fn add_assign<A: Arithmetic>(&mut self, other: Scale3D, ops: &A)
        ensures
            old(self).combines(Operation::Add, other, ops, *final(self)),
    {
        *self = self.combine(Operation::Add, other, ops);
    }

    /// Component-wise difference.
    pub fn sub<A: Arithmetic>(self, other: Scale3D, ops: &A) -> (r: Scale3D)
        ensures
            self.combines(Operation::Sub, other, ops, r),
    {
        self.combine(Operation::Sub, other, ops)
    }

    pub fn sub_assign<A: Arithmetic>(&mut self, other: Scale3D, ops: &A)
        ensures
            old(self).combines(Operation::Sub, other, ops, *final(self)),
    {
        *self = self.combine(Operation::Sub, other, ops);
    }

    /// Component-wise product.
    pub fn mul<A: Arithmetic>(self, other: Scale3D, ops: &A) -> (r: Scale3D)
        ensures
            self.combines(Operation::Mul, other, ops, r),
    {
        self.combine(Operation::Mul, other, ops)
    }

    pub fn mul_assign<A: Arithmetic>(&mut self, other: Scale3D, ops: &A)
        ensures
            old(self).combines(Operation::Mul, other, ops, *final(self)),
    {
        *self = self.combine(Operation::Mul, other, ops);
    }

    /// Component-wise quotient.
    pub fn div<A: Arithmetic>(self, other: Scale3D, ops: &A) -> (r: Scale3D)
        ensures
            self.combines(Operation::Div, other, ops, r),
    {
        self.combine(Operation::Div, other, ops)
    }

    pub fn div_assign<A: Arithmetic>(&mut self, other: Scale3D, ops: &A)
        ensures
            old(self).combines(Operation::Div, other, ops, *final(self)),
    {
        *self = self.combine(Operation::Div, other, ops);
    }

    /// Every component multiplied by `value`.
    pub fn mul_scalar<A: Arithmetic>(self, value: Scalar, ops: &A) -> (r: Scale3D)
        ensures
            self.combines(Operation::Mul, Scale3D::of(value, value, value), ops, r),
    {
        self.combine(Operation::Mul, Scale3D { x: value, y: value, z: value }, ops)
    }

    pub fn mul_scalar_assign<A: Arithmetic>(&mut self, value: Scalar, ops: &A)
        ensures
            old(self).combines(Operation::Mul, Scale3D::of(value, value, value), ops, *final(self)),
    {
        *self = self.combine(Operation::Mul, Scale3D { x: value, y: value, z: value }, ops);
    }

    /// Every component divided by `value`.
    pub fn div_scalar<A: Arithmetic>(self, value: Scalar, ops: &A) -> (r: Scale3D)
        ensures
            self.combines(Operation::Div, Scale3D::of(value, value, value), ops, r),
    {
        self.combine(Operation::Div, Scale3D { x: value, y: value, z: value }, ops)
    }

    pub fn div_scalar_assign<A: Arithmetic>(&mut self, value: Scalar, ops: &A)
        ensures
            old(self).combines(Operation::Div, Scale3D::of(value, value, value), ops, *final(self)),
    {
        *self = self.combine(Operation::Div, Scale3D { x: value, y: value, z: value }, ops);
    }
}

impl PartialEq for Scale3D {
    fn eq(&self, other: &Scale3D) -> (r: bool) {
        self.x == other.x && self.y == other.y
    }
}

impl PartialEqSpecImpl for Scale3D {
    open spec fn obeys_eq_spec() -> bool {
        true
    }

    open spec fn eq_spec(&self, other: &Scale3D) -> bool {
        self.same_value(*other)
    }
}

} // verus!
