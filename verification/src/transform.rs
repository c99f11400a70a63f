//! Where an object is, how it is turned and how large it is drawn.

use vstd::prelude::*;
use vstd::std_specs::cmp::PartialEqSpecImpl;
use crate::position::Position2D;
use crate::rotation::Rotation2D;
use crate::scale::Scale2D;
use crate::scalar::{Scalar, ZERO_BITS};

verus! {

/// A position, a rotation and a scale.
#[derive(Clone, Copy, Debug)]
pub struct Transform2D {
    pub position: Position2D,
    pub rotation: Rotation2D,
    pub scale: Scale2D,
}

impl Transform2D {
    /// At the origin, not turned, with the scale that [`Scale2D::new`] gives.
    pub fn new() -> (r: Transform2D)
        ensures
            r.position == Position2D::of(Scalar::of(ZERO_BITS), Scalar::of(ZERO_BITS)),
            r.rotation.is_origin(),
            r.scale == Scale2D::of(Scalar::of(ZERO_BITS), Scalar::of(ZERO_BITS)),
    {
        Transform2D {
            position: Position2D::new(),
            rotation: Rotation2D::new(),
            scale: Scale2D::new(),
        }
    }

    pub fn from(position: Position2D, rotation: Rotation2D, scale: Scale2D) -> (r: Transform2D)
        ensures
            r.position == position,
            r.rotation == rotation,
            r.scale == scale,
    {
        Transform2D { position, rotation, scale }
    }
}

impl PartialEq for Transform2D {
    fn eq(&self, other: &Transform2D) -> (r: bool) {
        self.position == other.position && self.rotation == other.rotation
    }
}

/// Two transforms are equal where their positions and their rotations are;
/// the scale takes no part in the comparison.
impl PartialEqSpecImpl for Transform2D {
    open spec fn obeys_eq_spec() -> bool {
        true
    }

    open spec fn eq_spec(&self, other: &Transform2D) -> bool {
        &&& self.position.same_value(other.position)
        &&& self.rotation.same_value(other.rotation)
    }
}

} // verus!
