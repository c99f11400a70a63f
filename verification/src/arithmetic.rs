//! The rounding arithmetic that the caller supplies.
//!
//! The library decides which operation is applied to which operands and in
//! what order; the operations themselves come from an [`Arithmetic`]. A
//! contract then says of a result that it *is* the sum, product, ... of given
//! operands as that arithmetic computed it, through the predicates below.

use vstd::prelude::*;
use crate::scalar::Scalar;

verus! {

/// Floating-point operations on [`Scalar`]s. Nothing is promised of any of
/// them: what the library proves, it proves for every implementation. An
/// implementation is expected to return for all operands, as floating-point
/// arithmetic does; where one stops instead, so does the library.
pub trait Arithmetic {
    /// `a + b`
    fn add(&self, a: Scalar, b: Scalar) -> Scalar;

    /// `a - b`
    fn sub(&self, a: Scalar, b: Scalar) -> Scalar;

    /// `a * b`
    fn mul(&self, a: Scalar, b: Scalar) -> Scalar;

    /// `a / b`
    fn div(&self, a: Scalar, b: Scalar) -> Scalar;

    /// The remainder of `a / b`, with the sign of `a`.
    fn rem(&self, a: Scalar, b: Scalar) -> Scalar;

    /// `a` raised to the power `b`.
    fn powf(&self, a: Scalar, b: Scalar) -> Scalar;

    /// The square root of `a`.
    fn sqrt(&self, a: Scalar) -> Scalar;

    /// The sine of `a` radians.
    fn sin(&self, a: Scalar) -> Scalar;

    /// The cosine of `a` radians.
    fn cos(&self, a: Scalar) -> Scalar;

    /// The value nearest to the whole number `n`.
    fn from_u32(&self, n: u32) -> Scalar;
}

/// `r` is `a + b` as `ops` computed it.
pub open spec fn sum_of<A: Arithmetic>(ops: &A, a: Scalar, b: Scalar, r: Scalar) -> bool {
    call_ensures(A::add, (ops, a, b), r)
}

/// `r` is `a - b` as `ops` computed it.
pub open spec fn difference_of<A: Arithmetic>(ops: &A, a: Scalar, b: Scalar, r: Scalar) -> bool {
    call_ensures(A::sub, (ops, a, b), r)
}

/// `r` is `a * b` as `ops` computed it.
pub open spec fn product_of<A: Arithmetic>(ops: &A, a: Scalar, b: Scalar, r: Scalar) -> bool {
    call_ensures(A::mul, (ops, a, b), r)
}

/// `r` is `a / b` as `ops` computed it.
pub open spec fn quotient_of<A: Arithmetic>(ops: &A, a: Scalar, b: Scalar, r: Scalar) -> bool {
    call_ensures(A::div, (ops, a, b), r)
}

/// `r` is the remainder of `a / b` as `ops` computed it.
pub open spec fn remainder_of<A: Arithmetic>(ops: &A, a: Scalar, b: Scalar, r: Scalar) -> bool {
    call_ensures(A::rem, (ops, a, b), r)
}

/// `r` is `a` to the power `b` as `ops` computed it.
pub open spec fn power_of<A: Arithmetic>(ops: &A, a: Scalar, b: Scalar, r: Scalar) -> bool {
    call_ensures(A::powf, (ops, a, b), r)
}

/// `r` is the square root of `a` as `ops` computed it.
pub open spec fn root_of<A: Arithmetic>(ops: &A, a: Scalar, r: Scalar) -> bool {
    call_ensures(A::sqrt, (ops, a), r)
}

/// `r` is the sine of `a` as `ops` computed it.
pub open spec fn sine_of<A: Arithmetic>(ops: &A, a: Scalar, r: Scalar) -> bool {
    call_ensures(A::sin, (ops, a), r)
}

/// `r` is the cosine of `a` as `ops` computed it.
pub open spec fn cosine_of<A: Arithmetic>(ops: &A, a: Scalar, r: Scalar) -> bool {
    call_ensures(A::cos, (ops, a), r)
}

/// `r` is the whole number `n` as `ops` converted it.
pub open spec fn converted_of<A: Arithmetic>(ops: &A, n: u32, r: Scalar) -> bool {
    call_ensures(A::from_u32, (ops, n), r)
}

/// One of the two-operand operations that the value types apply to each
/// component.
#[derive(Clone, Copy, Debug, PartialEq, Eq, Structural)]
pub enum Operation {
    Add,
    Sub,
    Mul,
    Div,
    Rem,
    Pow,
}

/// `r` is `a op b` as `ops` computed it.
pub open spec fn result_of<A: Arithmetic>(
    ops: &A,
    op: Operation,
    a: Scalar,
    b: Scalar,
    r: Scalar,
) -> bool {
    match op {
        Operation::Add => sum_of(ops, a, b, r),
        Operation::Sub => difference_of(ops, a, b, r),
        Operation::Mul => product_of(ops, a, b, r),
        Operation::Div => quotient_of(ops, a, b, r),
        Operation::Rem => remainder_of(ops, a, b, r),
        Operation::Pow => power_of(ops, a, b, r),
    }
}

/// Applies one operation.
pub fn apply<A: Arithmetic>(ops: &A, op: Operation, a: Scalar, b: Scalar) -> (r: Scalar)
    ensures
        result_of(ops, op, a, b, r),
{
    match op {
        Operation::Add => ops.add(a, b),
        Operation::Sub => ops.sub(a, b),
        Operation::Mul => ops.mul(a, b),
        Operation::Div => ops.div(a, b),
        Operation::Rem => ops.rem(a, b),
        Operation::Pow => ops.powf(a, b),
    }
}

} // verus!
