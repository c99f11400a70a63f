//! Colours with channels from `0.0` to `255.0`.
//!
//! Whatever arithmetic is done on a colour, each resulting channel is clamped
//! into that range; a NaN stays a NaN.

use vstd::prelude::*;
use vstd::std_specs::cmp::PartialEqSpecImpl;
use crate::arithmetic::{apply, product_of, quotient_of, result_of, Arithmetic, Operation};
use crate::scalar::{Scalar, CHANNEL_MAX_BITS, ONE_BITS, ZERO_BITS};

verus! {

/// Whether `c >= 0.0 && c <= 255.0`.
pub open spec fn is_channel(c: Scalar) -> bool {
    Scalar::of(ZERO_BITS).at_most(c) && c.at_most(Scalar::of(CHANNEL_MAX_BITS))
}

/// Whether `c >= 0.0 && c <= 1.0`.
pub open spec fn is_unit_fraction(c: Scalar) -> bool {
    Scalar::of(ZERO_BITS).at_most(c) && c.at_most(Scalar::of(ONE_BITS))
}

/// `c` clamped into `0.0..=255.0`.
pub open spec fn clamped_channel(c: Scalar) -> Scalar {
    c.clamped(Scalar::of(ZERO_BITS), Scalar::of(CHANNEL_MAX_BITS))
}

/// `r` is `a op b` as `ops` computed it, clamped into `0.0..=255.0`.
pub open spec fn channel_of<A: Arithmetic>(
    ops: &A,
    op: Operation,
    a: Scalar,
    b: Scalar,
    r: Scalar,
) -> bool {
    exists|raw: Scalar|
        #![trigger result_of(ops, op, a, b, raw)]
        result_of(ops, op, a, b, raw) && r == clamped_channel(raw)
}

/// Whether `c` may be a channel of [`Color::from`].
pub fn in_channel_range(c: Scalar) -> (r: bool)
    ensures
        r == is_channel(c),
{
    Scalar::from_bits(ZERO_BITS).le(c) && c.le(Scalar::from_bits(CHANNEL_MAX_BITS))
}

/// Whether `c` may be a channel of [`Color::from_unit_interval`].
pub fn in_unit_interval(c: Scalar) -> (r: bool)
    ensures
        r == is_unit_fraction(c),
{
    Scalar::from_bits(ZERO_BITS).le(c) && c.le(Scalar::from_bits(ONE_BITS))
}

/// Clamps a channel into `0.0..=255.0`. A NaN stays a NaN.
pub fn clamp_channel(c: Scalar) -> (r: Scalar)
    ensures
        r == clamped_channel(c),
        is_channel(r) || r.nan(),
        c.nan() ==> r == c,
{
    c.clamp(Scalar::from_bits(ZERO_BITS), Scalar::from_bits(CHANNEL_MAX_BITS))
}

fn channel<A: Arithmetic>(ops: &A, op: Operation, a: Scalar, b: Scalar) -> (r: Scalar)
    ensures
        channel_of(ops, op, a, b, r),
        is_channel(r) || r.nan(),
{
    let raw = apply(ops, op, a, b);
    assert(result_of(ops, op, a, b, raw));
    clamp_channel(raw)
}

/// A colour: red, green, blue and alpha, each meant to lie in `0.0..=255.0`.
#[derive(Clone, Copy, Debug)]
pub struct Color {
    pub r: Scalar,
    pub g: Scalar,
    pub b: Scalar,
    pub a: Scalar,
}

impl Color {
    /// The colour with the given channels.
    pub open spec fn of(r: Scalar, g: Scalar, b: Scalar, a: Scalar) -> Color {
        Color { r, g, b, a }
    }

    /// `c` is `self op other`, channel by channel, each result clamped into
    /// `0.0..=255.0`.
    pub open spec fn combines<A: Arithmetic>(
        self,
        op: Operation,
        other: Color,
        ops: &A,
        c: Color,
    ) -> bool {
        &&& channel_of(ops, op, self.r, other.r, c.r)
        &&& channel_of(ops, op, self.g, other.g, c.g)
        &&& channel_of(ops, op, self.b, other.b, c.b)
        &&& channel_of(ops, op, self.a, other.a, c.a)
    }

    /// Every channel lies in `0.0..=255.0` or is a NaN.
    pub open spec fn in_range(self) -> bool {
        &&& is_channel(self.r) || self.r.nan()
        &&& is_channel(self.g) || self.g.nan()
        &&& is_channel(self.b) || self.b.nan()
        &&& is_channel(self.a) || self.a.nan()
    }

    /// Channel-wise IEEE equality.
    pub open spec fn same_value(self, other: Color) -> bool {
        &&& self.r.same_value(other.r)
        &&& self.g.same_value(other.g)
        &&& self.b.same_value(other.b)
        &&& self.a.same_value(other.a)
    }

    fn combine<A: Arithmetic>(self, op: Operation, other: Color, ops: &A) -> (c: Color)
        ensures
            self.combines(op, other, ops, c),
            c.in_range(),
    {
        Color {
            r: channel(ops, op, self.r, other.r),
            g: channel(ops, op, self.g, other.g),
            b: channel(ops, op, self.b, other.b),
            a: channel(ops, op, self.a, other.a),
        }
    }

    /// Opaque white: every channel `255.0`.
    pub fn new() -> (c: Color)
        ensures
            c.r == Scalar::of(CHANNEL_MAX_BITS),
            c.g == Scalar::of(CHANNEL_MAX_BITS),
            c.b == Scalar::of(CHANNEL_MAX_BITS),
            c.a == Scalar::of(CHANNEL_MAX_BITS),
            c.in_range(),
    {
        Color {
            r: Scalar::from_bits(CHANNEL_MAX_BITS),
            g: Scalar::from_bits(CHANNEL_MAX_BITS),
            b: Scalar::from_bits(CHANNEL_MAX_BITS),
            a: Scalar::from_bits(CHANNEL_MAX_BITS),
        }
    }

    /// The colour with the given channels.
    pub fn from(r: Scalar, g: Scalar, b: Scalar, a: Scalar) -> (c: Color)
        requires
            is_channel(r),
            is_channel(g),
            is_channel(b),
            is_channel(a),
        ensures
            c == Color::of(r, g, b, a),
            c.in_range(),
    {
        Color { r, g, b, a }
    }

    /// The colour with the given channels, whatever they hold.
    pub fn from_f32(r: Scalar, g: Scalar, b: Scalar, a: Scalar) -> (c: Color)
        ensures
            c == Color::of(r, g, b, a),
    {
        Color { r, g, b, a }
    }

    /// The colour whose channels are the given fractions of `255.0`.
    pub fn from_unit_interval<A: Arithmetic>(
        r: Scalar,
        g: Scalar,
        b: Scalar,
        a: Scalar,
        ops: &A,
    ) -> (c: Color)
        requires
            is_unit_fraction(r),
            is_unit_fraction(g),
            is_unit_fraction(b),
            is_unit_fraction(a),
        ensures
            product_of(ops, r, Scalar::of(CHANNEL_MAX_BITS), c.r),
            product_of(ops, g, Scalar::of(CHANNEL_MAX_BITS), c.g),
            product_of(ops, b, Scalar::of(CHANNEL_MAX_BITS), c.b),
            product_of(ops, a, Scalar::of(CHANNEL_MAX_BITS), c.a),
    {
        let max = Scalar::from_bits(CHANNEL_MAX_BITS);
        Color { r: ops.mul(r, max), g: ops.mul(g, max), b: ops.mul(b, max), a: ops.mul(a, max) }
    }

    /// The channels as fractions of `255.0`: red, green, blue, alpha.
    pub fn unit_interval<A: Arithmetic>(self, ops: &A) -> (c: [Scalar; 4])
        ensures
            quotient_of(ops, self.r, Scalar::of(CHANNEL_MAX_BITS), c[0]),
            quotient_of(ops, self.g, Scalar::of(CHANNEL_MAX_BITS), c[1]),
            quotient_of(ops, self.b, Scalar::of(CHANNEL_MAX_BITS), c[2]),
            quotient_of(ops, self.a, Scalar::of(CHANNEL_MAX_BITS), c[3]),
    {
        let max = Scalar::from_bits(CHANNEL_MAX_BITS);
        [ops.div(self.r, max), ops.div(self.g, max), ops.div(self.b, max), ops.div(self.a, max)]
    }

    /// The channels: red, green, blue, alpha.
    pub fn rgba(self) -> (c: [Scalar; 4])
        ensures
            c@ =~= seq![self.r, self.g, self.b, self.a],
    {
        [self.r, self.g, self.b, self.a]
    }

    /// Replaces every channel, each clamped into `0.0..=255.0`.
    pub fn set(&mut self, r: Scalar, g: Scalar, b: Scalar, a: Scalar)
        ensures
            *final(self) == Color::of(
                clamped_channel(r),
                clamped_channel(g),
                clamped_channel(b),
                clamped_channel(a),
            ),
            final(self).in_range(),
    {
        self.r = clamp_channel(r);
        self.g = clamp_channel(g);
        self.b = clamp_channel(b);
        self.a = clamp_channel(a);
    }

    /// Adds to each channel its own operand.
    pub fn add_num<A: Arithmetic>(&mut self, r: Scalar, g: Scalar, b: Scalar, a: Scalar, ops: &A)
        ensures
            old(self).combines(Operation::Add, Color::of(r, g, b, a), ops, *final(self)),
            final(self).in_range(),
    {
        *self = self.combine(Operation::Add, Color { r, g, b, a }, ops);
    }

    /// Subtracts from each channel its own operand.
    pub fn sub_num<A: Arithmetic>(&mut self, r: Scalar, g: Scalar, b: Scalar, a: Scalar, ops: &A)
        ensures
            old(self).combines(Operation::Sub, Color::of(r, g, b, a), ops, *final(self)),
            final(self).in_range(),
    {
        *self = self.combine(Operation::Sub, Color { r, g, b, a }, ops);
    }

    /// Multiplies each channel by its own operand.
    pub fn mul_num<A: Arithmetic>(&mut self, r: Scalar, g: Scalar, b: Scalar, a: Scalar, ops: &A)
        ensures
            old(self).combines(Operation::Mul, Color::of(r, g, b, a), ops, *final(self)),
            final(self).in_range(),
    {
        *self = self.combine(Operation::Mul, Color { r, g, b, a }, ops);
    }

    /// Divides each channel by its own operand.
    pub fn div_num<A: Arithmetic>(&mut self, r: Scalar, g: Scalar, b: Scalar, a: Scalar, ops: &A)
        ensures
            old(self).combines(Operation::Div, Color::of(r, g, b, a), ops, *final(self)),
            final(self).in_range(),
    {
        *self = self.combine(Operation::Div, Color { r, g, b, a }, ops);
    }

    /// Channel-wise sum.
    pub fn add<A: Arithmetic>(self, other: Color, ops: &A) -> (c: Color)
        ensures
            self.combines(Operation::Add, other, ops, c),
            c.in_range(),
    {
        self.combine(Operation::Add, other, ops)
    }

    pub fn add_assign<A: Arithmetic>(&mut self, other: Color, ops: &A)
        ensures
            old(self).combines(Operation::Add, other, ops, *final(self)),
            final(self).in_range(),
    {
        *self = self.combine(Operation::Add, other, ops);
    }

    /// Channel-wise difference.
    pub fn sub<A: Arithmetic>(self, other: Color, ops: &A) -> (c: Color)
        ensures
            self.combines(Operation::Sub, other, ops, c),
            c.in_range(),
    {
        self.combine(Operation::Sub, other, ops)
    }

    pub fn sub_assign<A: Arithmetic>(&mut self, other: Color, ops: &A)
        ensures
            old(self).combines(Operation::Sub, other, ops, *final(self)),
            final(self).in_range(),
    {
        *self = self.combine(Operation::Sub, other, ops);
    }

    /// Channel-wise product.
    pub fn mul<A: Arithmetic>(self, other: Color, ops: &A) -> (c: Color)
        ensures
            self.combines(Operation::Mul, other, ops, c),
            c.in_range(),
    {
        self.combine(Operation::Mul, other, ops)
    }

    pub fn mul_assign<A: Arithmetic>(&mut self, other: Color, ops: &A)
        ensures
            old(self).combines(Operation::Mul, other, ops, *final(self)),
            final(self).in_range(),
    {
        *self = self.combine(Operation::Mul, other, ops);
    }

    /// Channel-wise quotient.
    pub fn div<A: Arithmetic>(self, other: Color, ops: &A) -> (c: Color)
        ensures
            self.combines(Operation::Div, other, ops, c),
            c.in_range(),
    {
        self.combine(Operation::Div, other, ops)
    }

    pub fn div_assign<A: Arithmetic>(&mut self, other: Color, ops: &A)
        ensures
            old(self).combines(Operation::Div, other, ops, *final(self)),
            final(self).in_range(),
    {
        *self = self.combine(Operation::Div, other, ops);
    }

    /// Every channel multiplied by `value`.
    pub fn mul_scalar<A: Arithmetic>(self, value: Scalar, ops: &A) -> (c: Color)
        ensures
            self.combines(Operation::Mul, Color::of(value, value, value, value), ops, c),
            c.in_range(),
    {
        self.combine(Operation::Mul, Color { r: value, g: value, b: value, a: value }, ops)
    }

    pub fn mul_scalar_assign<A: Arithmetic>(&mut self, value: Scalar, ops: &A)
        ensures
            old(self).combines(Operation::Mul, Color::of(value, value, value, value), ops, *final(self)),
            final(self).in_range(),
    {
        *self = self.combine(Operation::Mul, Color { r: value, g: value, b: value, a: value }, ops);
    }

    /// Every channel divided by `value`.
    pub fn div_scalar<A: Arithmetic>(self, value: Scalar, ops: &A) -> (c: Color)
        ensures
            self.combines(Operation::Div, Color::of(value, value, value, value), ops, c),
            c.in_range(),
    {
        self.combine(Operation::Div, Color { r: value, g: value, b: value, a: value }, ops)
    }

    pub fn div_scalar_assign<A: Arithmetic>(&mut self, value: Scalar, ops: &A)
        ensures
            old(self).combines(Operation::Div, Color::of(value, value, value, value), ops, *final(self)),
            final(self).in_range(),
    {
        *self = self.combine(Operation::Div, Color { r: value, g: value, b: value, a: value }, ops);
    }
}

impl PartialEq for Color {
    fn eq(&self, other: &Color) -> (r: bool) {
        self.r == other.r && self.g == other.g && self.b == other.b && self.a == other.a
    }
}

impl PartialEqSpecImpl for Color {
    open spec fn obeys_eq_spec() -> bool {
        true
    }

    open spec fn eq_spec(&self, other: &Color) -> bool {
        self.same_value(*other)
    }
}

} // verus!
