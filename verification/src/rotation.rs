//! Angles kept in degrees and in radians at once.
//!
//! One of the two is the base of every change and the other is derived from
//! it: degrees unless the operation is asked for in radians. The base is
//! wrapped into one turn by the remainder, which keeps the sign of what it
//! wraps, so a negative angle stays negative.

use vstd::prelude::*;
use vstd::std_specs::cmp::PartialEqSpecImpl;
use crate::arithmetic::{apply, product_of, remainder_of, result_of, Arithmetic, Operation};
use crate::scalar::{
    Scalar, DEG_RAD_BITS, FULL_TURN_BITS, RAD_DEG_BITS, TWO_PIE_BITS, ZERO_BITS,
};

verus! {

/// The unit in which an operation on a rotation is asked for.
#[derive(Clone, Copy, Debug, PartialEq, Eq, Structural)]
pub enum RotT {
    Deg,
    Rad,
}

/// An operation on a rotation, with its operand.
#[derive(Clone, Copy, Debug)]
pub enum Rot {
    Add(Scalar),
    Sub(Scalar),
    Mul(Scalar),
    Div(Scalar),
    Mod(Scalar),
    Pow(Scalar),
}

impl Rot {
    /// The operation without its operand.
    pub open spec fn operation(self) -> Operation {
        match self {
            Rot::Add(_) => Operation::Add,
            Rot::Sub(_) => Operation::Sub,
            Rot::Mul(_) => Operation::Mul,
            Rot::Div(_) => Operation::Div,
            Rot::Mod(_) => Operation::Rem,
            Rot::Pow(_) => Operation::Pow,
        }
    }

    /// The operand.
    pub open spec fn operand(self) -> Scalar {
        match self {
            Rot::Add(v) => v,
            Rot::Sub(v) => v,
            Rot::Mul(v) => v,
            Rot::Div(v) => v,
            Rot::Mod(v) => v,
            Rot::Pow(v) => v,
        }
    }

    fn parts(self) -> (r: (Operation, Scalar))
        ensures
            r.0 == self.operation(),
            r.1 == self.operand(),
    {
        match self {
            Rot::Add(v) => (Operation::Add, v),
            Rot::Sub(v) => (Operation::Sub, v),
            Rot::Mul(v) => (Operation::Mul, v),
            Rot::Div(v) => (Operation::Div, v),
            Rot::Mod(v) => (Operation::Rem, v),
            Rot::Pow(v) => (Operation::Pow, v),
        }
    }
}

/// An angle, in degrees and in radians.
#[derive(Clone, Copy, Debug)]
pub struct Rotation2D {
    degrees: Scalar,
    radians: Scalar,
}

impl Rotation2D {
    /// The angle in degrees.
    pub closed spec fn degrees(self) -> Scalar {
        self.degrees
    }

    /// The angle in radians.
    pub closed spec fn radians(self) -> Scalar {
        self.radians
    }

    /// The degrees are `value` wrapped into a turn, and the radians are
    /// derived from the wrapped degrees.
    pub open spec fn is_degrees<A: Arithmetic>(self, ops: &A, value: Scalar) -> bool {
        &&& remainder_of(ops, value, Scalar::of(FULL_TURN_BITS), self.degrees())
        &&& product_of(ops, Scalar::of(DEG_RAD_BITS), self.degrees(), self.radians())
    }

    /// The radians are `value` wrapped into a turn, and the degrees are
    /// derived from the wrapped radians.
    pub open spec fn is_radians<A: Arithmetic>(self, ops: &A, value: Scalar) -> bool {
        &&& remainder_of(ops, value, Scalar::of(TWO_PIE_BITS), self.radians())
        &&& product_of(ops, Scalar::of(RAD_DEG_BITS), self.radians(), self.degrees())
    }

    /// Both parts are `0.0`.
    pub open spec fn is_origin(self) -> bool {
        self.degrees() == Scalar::of(ZERO_BITS) && self.radians() == Scalar::of(ZERO_BITS)
    }

    /// The two parts agree: one is the other times the conversion factor, or
    /// the rotation is the untouched origin.
    pub open spec fn consistent<A: Arithmetic>(self, ops: &A) -> bool {
        ||| self.is_origin()
        ||| product_of(ops, Scalar::of(DEG_RAD_BITS), self.degrees(), self.radians())
        ||| product_of(ops, Scalar::of(RAD_DEG_BITS), self.radians(), self.degrees())
    }

    /// `r` is `self` after `op` with `value` in the degree domain: the
    /// operation is applied to the degrees, the result wrapped, and the
    /// radians derived from it.
    pub open spec fn stepped_degrees<A: Arithmetic>(
        self,
        op: Operation,
        value: Scalar,
        ops: &A,
        r: Rotation2D,
    ) -> bool {
        exists|raw: Scalar|
            #![trigger result_of(ops, op, self.degrees(), value, raw)]
            result_of(ops, op, self.degrees(), value, raw) && r.is_degrees(ops, raw)
    }

    /// `r` is `self` after `op` with `value` in the radian domain: the
    /// operation is applied to the radians, the result wrapped, and the
    /// degrees derived from it.
    pub open spec fn stepped_radians<A: Arithmetic>(
        self,
        op: Operation,
        value: Scalar,
        ops: &A,
        r: Rotation2D,
    ) -> bool {
        exists|raw: Scalar|
            #![trigger result_of(ops, op, self.radians(), value, raw)]
            result_of(ops, op, self.radians(), value, raw) && r.is_radians(ops, raw)
    }

    /// `r` is `self` after `op` in the domain of `unit`.
    pub open spec fn stepped<A: Arithmetic>(
        self,
        op: Rot,
        unit: RotT,
        ops: &A,
        r: Rotation2D,
    ) -> bool {
        match unit {
            RotT::Deg => self.stepped_degrees(op.operation(), op.operand(), ops, r),
            RotT::Rad => self.stepped_radians(op.operation(), op.operand(), ops, r),
        }
    }

    /// Component-wise IEEE equality.
    pub open spec fn same_value(self, other: Rotation2D) -> bool {
        &&& self.degrees().same_value(other.degrees())
        &&& self.radians().same_value(other.radians())
    }

    fn step_degrees<A: Arithmetic>(self, op: Operation, value: Scalar, ops: &A) -> (r: Rotation2D)
        ensures
            self.stepped_degrees(op, value, ops, r),
            r.consistent(ops),
    {
        let raw = apply(ops, op, self.degrees, value);
        let r = Rotation2D::from_deg(raw, ops);
        assert(result_of(ops, op, self.degrees(), value, raw));
        r
    }

    fn step_radians<A: Arithmetic>(self, op: Operation, value: Scalar, ops: &A) -> (r: Rotation2D)
        ensures
            self.stepped_radians(op, value, ops, r),
            r.consistent(ops),
    {
        let raw = apply(ops, op, self.radians, value);
        let r = Rotation2D::from_rad(raw, ops);
        assert(result_of(ops, op, self.radians(), value, raw));
        r
    }

    /// The rotation by nothing.
    pub fn new() -> (r: Rotation2D)
        ensures
            r.is_origin(),
    {
        Rotation2D { degrees: Scalar::from_bits(ZERO_BITS), radians: Scalar::from_bits(ZERO_BITS) }
    }

    /// The rotation by `degrees`, wrapped into a turn.
    pub fn from<A: Arithmetic>(degrees: Scalar, ops: &A) -> (r: Rotation2D)
        ensures
            r.is_degrees(ops, degrees),
            r.consistent(ops),
    {
        Rotation2D::from_deg(degrees, ops)
    }

    /// The rotation by `degrees`, wrapped into a turn.
    pub fn from_deg<A: Arithmetic>(degrees: Scalar, ops: &A) -> (r: Rotation2D)
        ensures
            r.is_degrees(ops, degrees),
            r.consistent(ops),
    {
        let wrapped = ops.rem(degrees, Scalar::from_bits(FULL_TURN_BITS));
        Rotation2D { degrees: wrapped, radians: ops.mul(Scalar::from_bits(DEG_RAD_BITS), wrapped) }
    }

    /// The rotation by `radians`, wrapped into a turn.
    pub fn from_rad<A: Arithmetic>(radians: Scalar, ops: &A) -> (r: Rotation2D)
        ensures
            r.is_radians(ops, radians),
            r.consistent(ops),
    {
        let wrapped = ops.rem(radians, Scalar::from_bits(TWO_PIE_BITS));
        Rotation2D { degrees: ops.mul(Scalar::from_bits(RAD_DEG_BITS), wrapped), radians: wrapped }
    }

    /// The angle in degrees.
    pub fn deg(self) -> (r: Scalar)
        ensures
            r == self.degrees(),
    {
        self.degrees
    }

    /// The angle in radians.
    pub fn rad(self) -> (r: Scalar)
        ensures
            r == self.radians(),
    {
        self.radians
    }

    /// The angle in degrees.
    pub fn get_deg(self) -> (r: Scalar)
        ensures
            r == self.degrees(),
    {
        self.degrees
    }

    /// The angle in radians.
    pub fn get_rad(self) -> (r: Scalar)
        ensures
            r == self.radians(),
    {
        self.radians
    }

    /// Replaces the angle by `degrees`, wrapped.
    pub fn set_deg<A: Arithmetic>(&mut self, degrees: Scalar, ops: &A)
        ensures
            final(self).is_degrees(ops, degrees),
            final(self).consistent(ops),
    {
        *self = Rotation2D::from_deg(degrees, ops);
    }

    /// Replaces the angle by `radians`, wrapped.
    pub fn set_rad<A: Arithmetic>(&mut self, radians: Scalar, ops: &A)
        ensures
            final(self).is_radians(ops, radians),
            final(self).consistent(ops),
    {
        *self = Rotation2D::from_rad(radians, ops);
    }

    /// Adds `degrees` to the angle, in degrees.
    pub fn add_deg<A: Arithmetic>(&mut self, degrees: Scalar, ops: &A)
        ensures
            old(self).stepped_degrees(Operation::Add, degrees, ops, *final(self)),
            final(self).consistent(ops),
    {
        *self = self.step_degrees(Operation::Add, degrees, ops);
    }

    /// Adds `radians` to the angle, in radians.
    pub fn add_rad<A: Arithmetic>(&mut self, radians: Scalar, ops: &A)
        ensures
            old(self).stepped_radians(Operation::Add, radians, ops, *final(self)),
            final(self).consistent(ops),
    {
        *self = self.step_radians(Operation::Add, radians, ops);
    }

    /// Subtracts `degrees` from the angle, in degrees.
    pub fn sub_deg<A: Arithmetic>(&mut self, degrees: Scalar, ops: &A)
        ensures
            old(self).stepped_degrees(Operation::Sub, degrees, ops, *final(self)),
            final(self).consistent(ops),
    {
        *self = self.step_degrees(Operation::Sub, degrees, ops);
    }

    /// Subtracts `radians` from the angle, in radians.
    pub fn sub_rad<A: Arithmetic>(&mut self, radians: Scalar, ops: &A)
        ensures
            old(self).stepped_radians(Operation::Sub, radians, ops, *final(self)),
            final(self).consistent(ops),
    {
        *self = self.step_radians(Operation::Sub, radians, ops);
    }

    /// Multiplies the angle by `scale`, in degrees.
    pub fn mul_deg<A: Arithmetic>(&mut self, scale: Scalar, ops: &A)
        ensures
            old(self).stepped_degrees(Operation::Mul, scale, ops, *final(self)),
            final(self).consistent(ops),
    {
        *self = self.step_degrees(Operation::Mul, scale, ops);
    }

    /// Multiplies the angle by `scale`, in radians.
    pub fn mul_rad<A: Arithmetic>(&mut self, scale: Scalar, ops: &A)
        ensures
            old(self).stepped_radians(Operation::Mul, scale, ops, *final(self)),
            final(self).consistent(ops),
    {
        *self = self.step_radians(Operation::Mul, scale, ops);
    }

    /// Divides the angle by `scale`, in degrees.
    pub fn div_deg<A: Arithmetic>(&mut self, scale: Scalar, ops: &A)
        ensures
            old(self).stepped_degrees(Operation::Div, scale, ops, *final(self)),
            final(self).consistent(ops),
    {
        *self = self.step_degrees(Operation::Div, scale, ops);
    }

    /// Divides the angle by `scale`, in radians.
    pub fn div_rad<A: Arithmetic>(&mut self, scale: Scalar, ops: &A)
        ensures
            old(self).stepped_radians(Operation::Div, scale, ops, *final(self)),
            final(self).consistent(ops),
    {
        *self = self.step_radians(Operation::Div, scale, ops);
    }

    /// Applies `op` in the domain of `unit`: that part is the base, the
    /// other is derived from it.
    pub fn math<A: Arithmetic>(self, op: Rot, unit: RotT, ops: &A) -> (r: Rotation2D)
        ensures
            self.stepped(op, unit, ops, r),
            r.consistent(ops),
    {
        let (operation, value) = op.parts();
        match unit {
            RotT::Deg => self.step_degrees(operation, value, ops),
            RotT::Rad => self.step_radians(operation, value, ops),
        }
    }

    /// The sum of two rotations, taken in degrees.
    pub fn add<A: Arithmetic>(self, other: Rotation2D, ops: &A) -> (r: Rotation2D)
        ensures
            self.stepped_degrees(Operation::Add, other.degrees(), ops, r),
            r.consistent(ops),
    {
        self.step_degrees(Operation::Add, other.degrees, ops)
    }

    pub fn add_assign<A: Arithmetic>(&mut self, other: Rotation2D, ops: &A)
        ensures
            old(self).stepped_degrees(Operation::Add, other.degrees(), ops, *final(self)),
            final(self).consistent(ops),
    {
        *self = self.step_degrees(Operation::Add, other.degrees, ops);
    }

    /// The difference of two rotations, taken in degrees.
    pub fn sub<A: Arithmetic>(self, other: Rotation2D, ops: &A) -> (r: Rotation2D)
        ensures
            self.stepped_degrees(Operation::Sub, other.degrees(), ops, r),
            r.consistent(ops),
    {
        self.step_degrees(Operation::Sub, other.degrees, ops)
    }

    pub fn sub_assign<A: Arithmetic>(&mut self, other: Rotation2D, ops: &A)
        ensures
            old(self).stepped_degrees(Operation::Sub, other.degrees(), ops, *final(self)),
            final(self).consistent(ops),
    {
        *self = self.step_degrees(Operation::Sub, other.degrees, ops);
    }

    /// The rotation `value` times as large, taken in degrees.
    pub fn mul_scalar<A: Arithmetic>(self, value: Scalar, ops: &A) -> (r: Rotation2D)
        ensures
            self.stepped_degrees(Operation::Mul, value, ops, r),
            r.consistent(ops),
    {
        self.step_degrees(Operation::Mul, value, ops)
    }

    pub fn mul_scalar_assign<A: Arithmetic>(&mut self, value: Scalar, ops: &A)
        ensures
            old(self).stepped_degrees(Operation::Mul, value, ops, *final(self)),
            final(self).consistent(ops),
    {
        *self = self.step_degrees(Operation::Mul, value, ops);
    }

    /// The rotation divided by `value`, taken in degrees.
    pub fn div_scalar<A: Arithmetic>(self, value: Scalar, ops: &A) -> (r: Rotation2D)
        ensures
            self.stepped_degrees(Operation::Div, value, ops, r),
            r.consistent(ops),
    {
        self.step_degrees(Operation::Div, value, ops)
    }

    pub fn div_scalar_assign<A: Arithmetic>(&mut self, value: Scalar, ops: &A)
        ensures
            old(self).stepped_degrees(Operation::Div, value, ops, *final(self)),
            final(self).consistent(ops),
    {
        *self = self.step_degrees(Operation::Div, value, ops);
    }
}

impl PartialEq for Rotation2D {
    fn eq(&self, other: &Rotation2D) -> (r: bool) {
        self.degrees == other.degrees && self.radians == other.radians
    }
}

impl PartialEqSpecImpl for Rotation2D {
    open spec fn obeys_eq_spec() -> bool {
        true
    }

    open spec fn eq_spec(&self, other: &Rotation2D) -> bool {
        self.same_value(*other)
    }
}

} // verus!
