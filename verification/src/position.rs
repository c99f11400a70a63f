//! Positions in the plane.

use vstd::prelude::*;
use vstd::std_specs::cmp::PartialEqSpecImpl;
use crate::arithmetic::{apply, result_of, Arithmetic, Operation};
use crate::scalar::{Scalar, ZERO_BITS};

verus! {

/// An operation on a position, with an operand for each component.
#[derive(Clone, Copy, Debug)]
pub enum Pos {
    Add(Scalar, Scalar),
    Sub(Scalar, Scalar),
    Mul(Scalar, Scalar),
    Div(Scalar, Scalar),
    Mod(Scalar, Scalar),
    Pow(Scalar, Scalar),
}

impl Pos {
    /// The operation without its operands.
    pub open spec fn operation(self) -> Operation {
        match self {
            Pos::Add(_, _) => Operation::Add,
            Pos::Sub(_, _) => Operation::Sub,
            Pos::Mul(_, _) => Operation::Mul,
            Pos::Div(_, _) => Operation::Div,
            Pos::Mod(_, _) => Operation::Rem,
            Pos::Pow(_, _) => Operation::Pow,
        }
    }

    /// The operands, as a position.
    pub open spec fn operand(self) -> Position2D {
        match self {
            Pos::Add(x, y) => Position2D { x, y },
            Pos::Sub(x, y) => Position2D { x, y },
            Pos::Mul(x, y) => Position2D { x, y },
            Pos::Div(x, y) => Position2D { x, y },
            Pos::Mod(x, y) => Position2D { x, y },
            Pos::Pow(x, y) => Position2D { x, y },
        }
    }

    fn parts(self) -> (r: (Operation, Position2D))
        ensures
            r.0 == self.operation(),
            r.1 == self.operand(),
    {
        match self {
            Pos::Add(x, y) => (Operation::Add, Position2D { x, y }),
            Pos::Sub(x, y) => (Operation::Sub, Position2D { x, y }),
            Pos::Mul(x, y) => (Operation::Mul, Position2D { x, y }),
            Pos::Div(x, y) => (Operation::Div, Position2D { x, y }),
            Pos::Mod(x, y) => (Operation::Rem, Position2D { x, y }),
            Pos::Pow(x, y) => (Operation::Pow, Position2D { x, y }),
        }
    }
}

/// A position in the plane.
#[derive(Clone, Copy, Debug)]
pub struct Position2D {
    pub x: Scalar,
    pub y: Scalar,
}

impl Position2D {
    /// The value with the given components.
    pub open spec fn of(x: Scalar, y: Scalar) -> Position2D {
        Position2D { x, y }
    }

    /// `r` is `self op other`, component by component, as `ops` computed it.
    pub open spec fn combines<A: Arithmetic>(
        self,
        op: Operation,
        other: Position2D,
        ops: &A,
        r: Position2D,
    ) -> bool {
        &&& result_of(ops, op, self.x, other.x, r.x)
        &&& result_of(ops, op, self.y, other.y, r.y)
    }

    /// Component-wise IEEE equality.
    pub open spec fn same_value(self, other: Position2D) -> bool {
        &&& self.x.same_value(other.x)
        &&& self.y.same_value(other.y)
    }

    fn combine<A: Arithmetic>(self, op: Operation, other: Position2D, ops: &A) -> (r: Position2D)
        ensures
            self.combines(op, other, ops, r),
    {
        Position2D {
            x: apply(ops, op, self.x, other.x),
            y: apply(ops, op, self.y, other.y),
        }
    }

    /// All components zero.
    pub fn new() -> (r: Position2D)
        ensures
            r.x == Scalar::of(ZERO_BITS),
            r.y == Scalar::of(ZERO_BITS),
    {
        Position2D {
            x: Scalar::from_bits(ZERO_BITS),
            y: Scalar::from_bits(ZERO_BITS),
        }
    }

    pub fn from(x: Scalar, y: Scalar) -> (r: Position2D)
        ensures
            r == Position2D::of(x, y),
    {
        Position2D { x, y }
    }

    /// Applies `op`, which carries an operand for each component.
    pub fn math<A: Arithmetic>(self, op: Pos, ops: &A) -> (r: Position2D)
        ensures
            self.combines(op.operation(), op.operand(), ops, r),
    {
        let (operation, operand) = op.parts();
        self.combine(operation, operand, ops)
    }

    /// Replaces every component.
    pub fn set(&mut self, x: Scalar, y: Scalar)
        ensures
            *final(self) == Position2D::of(x, y),
    {
        self.x = x;
        self.y = y;
    }

    /// Adds to each component its own operand.
    pub fn add_num<A: Arithmetic>(&mut self, x: Scalar, y: Scalar, ops: &A)
        ensures
            old(self).combines(Operation::Add, Position2D::of(x, y), ops, *final(self)),
    {
        *self = self.combine(Operation::Add, Position2D { x, y }, ops);
    }

    /// Subtracts from each component its own operand.
    pub fn sub_num<A: Arithmetic>(&mut self, x: Scalar, y: Scalar, ops: &A)
        ensures
            old(self).combines(Operation::Sub, Position2D::of(x, y), ops, *final(self)),
    {
        *self = self.combine(Operation::Sub, Position2D { x, y }, ops);
    }

    /// Multiplies each component by its own operand.
    pub fn mul_num<A: Arithmetic>(&mut self, x: Scalar, y: Scalar, ops: &A)
        ensures
            old(self).combines(Operation::Mul, Position2D::of(x, y), ops, *final(self)),
    {
        *self = self.combine(Operation::Mul, Position2D { x, y }, ops);
    }

    /// Divides each component by its own operand.
    pub fn div_num<A: Arithmetic>(&mut self, x: Scalar, y: Scalar, ops: &A)
        ensures
            old(self).combines(Operation::Div, Position2D::of(x, y), ops, *final(self)),
    {
        *self = self.combine(Operation::Div, Position2D { x, y }, ops);
    }

    /// Component-wise sum.
    pub fn add<A: Arithmetic>(self, other: Position2D, ops: &A) -> (r: Position2D)
        ensures
            self.combines(Operation::Add, other, ops, r),
    {
        self.combine(Operation::Add, other, ops)
    }

    pub fn add_assign<A: Arithmetic>(&mut self, other: Position2D, ops: &A)
        ensures
            old(self).combines(Operation::Add, other, ops, *final(self)),
    {
        *self = self.combine(Operation::Add, other, ops);
    }

    /// Component-wise difference.
    pub fn sub<A: Arithmetic>(self, other: Position2D, ops: &A) -> (r: Position2D)
        ensures
            self.combines(Operation::Sub, other, ops, r),
    {
        self.combine(Operation::Sub, other, ops)
    }

    pub fn sub_assign<A: Arithmetic>(&mut self, other: Position2D, ops: &A)
        ensures
            old(self).combines(Operation::Sub, other, ops, *final(self)),
    {
        *self = self.combine(Operation::Sub, other, ops);
    }

    /// Component-wise product.
    pub fn mul<A: Arithmetic>(self, other: Position2D, ops: &A) -> (r: Position2D)
        ensures
            self.combines(Operation::Mul, other, ops, r),
    {
        self.combine(Operation::Mul, other, ops)
    }

    pub fn mul_assign<A: Arithmetic>(&mut self, other: Position2D, ops: &A)
        ensures
            old(self).combines(Operation::Mul, other, ops, *final(self)),
    {
        *self = self.combine(Operation::Mul, other, ops);
    }

    /// Component-wise quotient.
    pub fn div<A: Arithmetic>(self, other: Position2D, ops: &A) -> (r: Position2D)
        ensures
            self.combines(Operation::Div, other, ops, r),
    {
        self.combine(Operation::Div, other, ops)
    }

    pub fn div_assign<A: Arithmetic>(&mut self, other: Position2D, ops: &A)
        ensures
            old(self).combines(Operation::Div, other, ops, *final(self)),
    {
        *self = self.combine(Operation::Div, other, ops);
    }

    /// Every component multiplied by `value`.
    pub fn mul_scalar<A: Arithmetic>(self, value: Scalar, ops: &A) -> (r: Position2D)
        ensures
            self.combines(Operation::Mul, Position2D::of(value, value), ops, r),
    {
        self.combine(Operation::Mul, Position2D { x: value, y: value }, ops)
    }

    pub fn mul_scalar_assign<A: Arithmetic>(&mut self, value: Scalar, ops: &A)
        ensures
            old(self).combines(Operation::Mul, Position2D::of(value, value), ops, *final(self)),
    {
        *self = self.combine(Operation::Mul, Position2D { x: value, y: value }, ops);
    }

    /// Every component divided by `value`.
    pub fn div_scalar<A: Arithmetic>(self, value: Scalar, ops: &A) -> (r: Position2D)
        ensures
            self.combines(Operation::Div, Position2D::of(value, value), ops, r),
    {
        self.combine(Operation::Div, Position2D { x: value, y: value }, ops)
    }

    pub fn div_scalar_assign<A: Arithmetic>(&mut self, value: Scalar, ops: &A)
        ensures
            old(self).combines(Operation::Div, Position2D::of(value, value), ops, *final(self)),
    {
        *self = self.combine(Operation::Div, Position2D { x: value, y: value }, ops);
    }
}

impl PartialEq for Position2D {
    fn eq(&self, other: &Position2D) -> (r: bool) {
        self.x == other.x && self.y == other.y
    }
}

impl PartialEqSpecImpl for Position2D {
    open spec fn obeys_eq_spec() -> bool {
        true
    }

    open spec fn eq_spec(&self, other: &Position2D) -> bool {
        self.same_value(*other)
    }
}

} // verus!
