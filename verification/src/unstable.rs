//! Experiments: interpolation and a rating exchange.

use vstd::prelude::*;
use crate::arithmetic::{difference_of, product_of, sum_of, Arithmetic};
use crate::scalar::{Scalar, ONE_BITS, TEN_BITS};

verus! {

/// `num`, or the bound that it lies beyond. Where `min > max`, `min` wins for
/// a number below it.
pub open spec fn clamped(num: int, min: int, max: int) -> int {
    if num < min {
        min
    } else if num > max {
        max
    } else {
        num
    }
}

/// The quotient of Rust's `/` on signed integers, which rounds toward zero.
pub open spec fn truncated_quotient(a: int, b: int) -> int {
    if a >= 0 {
        a / b
    } else {
        -((-a) / b)
    }
}

/// What the first rating wins and the second loses: ten, less a tenth of the
/// lead of the first, but no less than nothing and no more than twenty.
pub open spec fn gain_of(mmr1: int, mmr2: int) -> int {
    clamped(10 - truncated_quotient(mmr1 - mmr2, 10), 0, 20)
}

/// `r` is `start * (1 - t) + end * t` as `ops` computed it.
pub open spec fn lerp_of<A: Arithmetic>(
    ops: &A,
    start: Scalar,
    end: Scalar,
    t: Scalar,
    r: Scalar,
) -> bool {
    exists|rest: Scalar, from: Scalar, to: Scalar|
        #![trigger difference_of(ops, Scalar::of(ONE_BITS), t, rest), product_of(ops, start, rest, from), product_of(ops, end, t, to)]
        difference_of(ops, Scalar::of(ONE_BITS), t, rest) && product_of(ops, start, rest, from)
            && product_of(ops, end, t, to) && sum_of(ops, from, to, r)
}

/// The point a fraction `t` of the way from `start` to `end`.
pub fn lerp<A: Arithmetic>(start: Scalar, end: Scalar, t: Scalar, ops: &A) -> (r: Scalar)
    ensures
        lerp_of(ops, start, end, t, r),
{
    let rest = ops.sub(Scalar::from_bits(ONE_BITS), t);
    let from = ops.mul(start, rest);
    let to = ops.mul(end, t);
    let r = ops.add(from, to);
    assert(difference_of(ops, Scalar::of(ONE_BITS), t, rest) && product_of(ops, start, rest, from)
        && product_of(ops, end, t, to));
    r
}

/// Restricts `num` to `min..=max`.
pub fn clamp(num: i32, min: i32, max: i32) -> (r: i32)
    ensures
        r == clamped(num as int, min as int, max as int),
{
    if num < min {
        min
    } else if num > max {
        max
    } else {
        num
    }
}

/// What the first rating wins and the second loses.
pub fn gain(mmr1: i32, mmr2: i32) -> (r: i32)
    requires
        i32::MIN <= mmr1 - mmr2 <= i32::MAX,
    ensures
        r == gain_of(mmr1 as int, mmr2 as int),
        0 <= r <= 20,
{
    let lead: i32 = mmr1 - mmr2;
    let tenth: i32 = if lead >= 0 {
        lead / 10
    } else if lead == i32::MIN {
        -214748364
    } else {
        -((-lead) / 10)
    };
    clamp(10 - tenth, 0, 20)
}

/// Moves the gain from the second rating to the first. The second rating
/// does not fall below zero.
pub fn calc(mmr1: i32, mmr2: i32) -> (r: (i32, i32))
    requires
        i32::MIN <= mmr1 - mmr2 <= i32::MAX,
        mmr1 + gain_of(mmr1 as int, mmr2 as int) <= i32::MAX,
        mmr2 - gain_of(mmr1 as int, mmr2 as int) >= i32::MIN,
    ensures
        r.0 == mmr1 + gain_of(mmr1 as int, mmr2 as int),
        r.1 == if mmr2 - gain_of(mmr1 as int, mmr2 as int) < 0 {
            0
        } else {
            mmr2 - gain_of(mmr1 as int, mmr2 as int)
        },
{
    let won: i32 = gain(mmr1, mmr2);
    let left: i32 = mmr2 - won;
    (mmr1 + won, if left < 0 { 0 } else { left })
}

/// Ten more for the first rating, ten less for the second.
pub fn lazy_mmr<A: Arithmetic>(mmr1: Scalar, mmr2: Scalar, ops: &A) -> (r: (Scalar, Scalar))
    ensures
        sum_of(ops, mmr1, Scalar::of(TEN_BITS), r.0),
        difference_of(ops, mmr2, Scalar::of(TEN_BITS), r.1),
{
    let ten = Scalar::from_bits(TEN_BITS);
    (ops.add(mmr1, ten), ops.sub(mmr2, ten))
}

} // verus!
