//! Shapes that are drawn.

use vstd::prelude::*;
use crate::color::Color;
use crate::position::Position2D;
use crate::rotation::Rotation2D;
use crate::scalar::{Scalar, CHANNEL_MAX_BITS, ONE_BITS, ZERO_BITS};

verus! {

/// A triangle, by its three corners.
pub struct Triangle {
    pub points: (Position2D, Position2D, Position2D),
    pub offset: Position2D,
    pub rotation: Rotation2D,
    pub color: Color,
}

impl Triangle {
    /// The triangle with corners `(0, 0)`, `(1, 0)` and `(0, -1)`, at no
    /// offset, not turned, white.
    pub fn new() -> (r: Triangle)
        ensures
            r.points.0 == Position2D::of(Scalar::of(ZERO_BITS), Scalar::of(ZERO_BITS)),
            r.points.1 == Position2D::of(Scalar::of(ONE_BITS), Scalar::of(ZERO_BITS)),
            r.points.2 == Position2D::of(Scalar::of(ZERO_BITS), Scalar::of(ONE_BITS).negated()),
            r.offset == Position2D::of(Scalar::of(ZERO_BITS), Scalar::of(ZERO_BITS)),
            r.rotation.is_origin(),
            r.color == Color::of(
                Scalar::of(CHANNEL_MAX_BITS),
                Scalar::of(CHANNEL_MAX_BITS),
                Scalar::of(CHANNEL_MAX_BITS),
                Scalar::of(CHANNEL_MAX_BITS),
            ),
    {
        let zero = Scalar::from_bits(ZERO_BITS);
        let one = Scalar::from_bits(ONE_BITS);
        Triangle {
            points: (
                Position2D::from(zero, zero),
                Position2D::from(one, zero),
                Position2D::from(zero, one.neg()),
            ),
            offset: Position2D::new(),
            rotation: Rotation2D::new(),
            color: Color::new(),
        }
    }

    /// The triangle with the given corners, at no offset, not turned, white.
    pub fn from(point1: Position2D, point2: Position2D, point3: Position2D) -> (r: Triangle)
        ensures
            r.points == (point1, point2, point3),
            r.offset == Position2D::of(Scalar::of(ZERO_BITS), Scalar::of(ZERO_BITS)),
            r.rotation.is_origin(),
            r.color == Color::of(
                Scalar::of(CHANNEL_MAX_BITS),
                Scalar::of(CHANNEL_MAX_BITS),
                Scalar::of(CHANNEL_MAX_BITS),
                Scalar::of(CHANNEL_MAX_BITS),
            ),
    {
        Triangle {
            points: (point1, point2, point3),
            offset: Position2D::new(),
            rotation: Rotation2D::new(),
            color: Color::new(),
        }
    }
}

/// A rectangle, by its width and height.
pub struct Rectangle {
    pub width: Scalar,
    pub height: Scalar,
    pub offset: Position2D,
    pub rotation: Rotation2D,
    pub color: Color,
}

impl Rectangle {
    /// A rectangle at no offset, not turned, white.
    pub fn new(width: Scalar, height: Scalar) -> (r: Rectangle)
        ensures
            r.width == width,
            r.height == height,
            r.offset == Position2D::of(Scalar::of(ZERO_BITS), Scalar::of(ZERO_BITS)),
            r.rotation.is_origin(),
            r.color == Color::of(
                Scalar::of(CHANNEL_MAX_BITS),
                Scalar::of(CHANNEL_MAX_BITS),
                Scalar::of(CHANNEL_MAX_BITS),
                Scalar::of(CHANNEL_MAX_BITS),
            ),
    {
        Rectangle {
            width,
            height,
            offset: Position2D::new(),
            rotation: Rotation2D::new(),
            color: Color::new(),
        }
    }
}

/// A circle, by its radius.
pub struct Circle {
    pub radius: Scalar,
    pub offset: Position2D,
    pub color: Color,
}

impl Circle {
    /// A circle at no offset, white.
    pub fn new(radius: Scalar) -> (r: Circle)
        ensures
            r.radius == radius,
            r.offset == Position2D::of(Scalar::of(ZERO_BITS), Scalar::of(ZERO_BITS)),
            r.color == Color::of(
                Scalar::of(CHANNEL_MAX_BITS),
                Scalar::of(CHANNEL_MAX_BITS),
                Scalar::of(CHANNEL_MAX_BITS),
                Scalar::of(CHANNEL_MAX_BITS),
            ),
    {
        Circle {
            radius,
            offset: Position2D::new(),
            color: Color::new(),
        }
    }
}

/// A capsule, by the radius of its ends and its height.
pub struct Capsule2D {
    pub radius: Scalar,
    pub height: Scalar,
    pub offset: Position2D,
    pub rotation: Rotation2D,
    pub color: Color,
}

impl Capsule2D {
    /// A capsule at no offset, not turned, white.
    pub fn new(radius: Scalar, height: Scalar) -> (r: Capsule2D)
        ensures
            r.radius == radius,
            r.height == height,
            r.offset == Position2D::of(Scalar::of(ZERO_BITS), Scalar::of(ZERO_BITS)),
            r.rotation.is_origin(),
            r.color == Color::of(
                Scalar::of(CHANNEL_MAX_BITS),
                Scalar::of(CHANNEL_MAX_BITS),
                Scalar::of(CHANNEL_MAX_BITS),
                Scalar::of(CHANNEL_MAX_BITS),
            ),
    {
        Capsule2D {
            radius,
            height,
            offset: Position2D::new(),
            rotation: Rotation2D::new(),
            color: Color::new(),
        }
    }
}

/// A polygon, by its corners in order.
pub struct Polygon2D {
    pub points: Vec<Position2D>,
    pub offset: Position2D,
    pub rotation: Rotation2D,
    pub color: Color,
}

impl Polygon2D {
    /// A polygon at no offset, not turned, white.
    pub fn new(points: Vec<Position2D>) -> (r: Polygon2D)
        ensures
            r.points == points,
            r.offset == Position2D::of(Scalar::of(ZERO_BITS), Scalar::of(ZERO_BITS)),
            r.rotation.is_origin(),
            r.color == Color::of(
                Scalar::of(CHANNEL_MAX_BITS),
                Scalar::of(CHANNEL_MAX_BITS),
                Scalar::of(CHANNEL_MAX_BITS),
                Scalar::of(CHANNEL_MAX_BITS),
            ),
    {
        Polygon2D {
            points,
            offset: Position2D::new(),
            rotation: Rotation2D::new(),
            color: Color::new(),
        }
    }
}

/// Any of the shapes.
pub enum Shape2D {
    Rectangle(Rectangle),
    Circle(Circle),
    Capsule(Capsule2D),
    Polygon(Polygon2D),
}

} // verus!
