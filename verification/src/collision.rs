//! Shapes that take part in collisions.
//!
//! These carry the data only; nothing here detects a collision.

use vstd::prelude::*;
use crate::position::Position2D;
use crate::rotation::Rotation2D;
use crate::scalar::{Scalar, ZERO_BITS};

verus! {

/// A rectangle, by its width and height.
pub struct Rectangle {
    pub width: Scalar,
    pub height: Scalar,
    pub offset: Position2D,
    pub rotation: Rotation2D,
}

impl Rectangle {
    /// A rectangle at no offset, not turned.
    pub fn new(width: Scalar, height: Scalar) -> (r: Rectangle)
        ensures
            r.width == width,
            r.height == height,
            r.offset == Position2D::of(Scalar::of(ZERO_BITS), Scalar::of(ZERO_BITS)),
            r.rotation.is_origin(),
    {
        Rectangle {
            width,
            height,
            offset: Position2D::new(),
            rotation: Rotation2D::new(),
        }
    }
}

/// A circle, by its radius.
pub struct Circle {
    pub radius: Scalar,
    pub offset: Position2D,
}

impl Circle {
    /// A circle at no offset.
    pub fn new(radius: Scalar) -> (r: Circle)
        ensures
            r.radius == radius,
            r.offset == Position2D::of(Scalar::of(ZERO_BITS), Scalar::of(ZERO_BITS)),
    {
        Circle {
            radius,
            offset: Position2D::new(),
        }
    }
}

/// A capsule, by the radius of its ends and its height.
pub struct Capsule2D {
    pub radius: Scalar,
    pub height: Scalar,
    pub offset: Position2D,
    pub rotation: Rotation2D,
}

impl Capsule2D {
    /// A capsule at no offset, not turned.
    pub fn new(radius: Scalar, height: Scalar) -> (r: Capsule2D)
        ensures
            r.radius == radius,
            r.height == height,
            r.offset == Position2D::of(Scalar::of(ZERO_BITS), Scalar::of(ZERO_BITS)),
            r.rotation.is_origin(),
    {
        Capsule2D {
            radius,
            height,
            offset: Position2D::new(),
            rotation: Rotation2D::new(),
        }
    }
}

/// A polygon, by its corners in order.
pub struct Polygon2D {
    pub points: Vec<Position2D>,
    pub offset: Position2D,
    pub rotation: Rotation2D,
}

impl Polygon2D {
    /// A polygon at no offset, not turned.
    pub fn new(points: Vec<Position2D>) -> (r: Polygon2D)
        ensures
            r.points == points,
            r.offset == Position2D::of(Scalar::of(ZERO_BITS), Scalar::of(ZERO_BITS)),
            r.rotation.is_origin(),
    {
        Polygon2D {
            points,
            offset: Position2D::new(),
            rotation: Rotation2D::new(),
        }
    }
}

/// Any of the shapes.
pub enum Shape2D {
    Rectangle(Rectangle),
    Circle(Circle),
    Capsule(Capsule2D),
    Polygon(Polygon2D),
}

/// A shape with its collision state and the layers it collides on.
pub struct Collision2D {
    pub shape: Shape2D,
    pub colliding: bool,
    pub monitering: bool,
    pub layers: Vec<i32>,
}

impl Collision2D {
    /// A monitored shape on layer 0 that collides with nothing.
    pub fn new(shape: Shape2D) -> (r: Collision2D)
        ensures
            r.shape == shape,
            !r.colliding,
            r.monitering,
            r.layers@ == seq![0i32],
    {
        let mut layers: Vec<i32> = Vec::new();
        layers.push(0);
        Collision2D { shape, colliding: false, monitering: true, layers }
    }
}

} // verus!
