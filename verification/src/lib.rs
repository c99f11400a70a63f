//! A small 2D engine core: colours, positions, rotations, sizes, vectors,
//! 4x4 transform matrices and a camera, with the window description and the
//! few rules that sit round them.
//!
//! Numbers are [`Scalar`]s: single-precision values carried by their bit
//! pattern. The library works out which operation applies to which operands;
//! the operations themselves come from the caller's [`Arithmetic`].

#![allow(non_snake_case)]

use vstd::prelude::*;

pub mod arithmetic;
pub mod camera;
pub mod collision;
pub mod color;
pub mod debug;
pub mod events;
pub mod icon;
pub mod laws;
pub mod matrix;
pub mod palette;
pub mod position;
pub mod random;
pub mod rotation;
pub mod scalar;
pub mod scale;
pub mod size;
pub mod sprite;
mod text;
pub mod transform;
pub mod unstable;
pub mod vector;
pub mod visual;
pub mod window;

pub use arithmetic::{Arithmetic, Operation};
pub use camera::Camera2D;
pub use color::Color;
pub use matrix::Matrix4x4;
pub use position::Position2D;
pub use rotation::Rotation2D;
pub use scalar::Scalar;
pub use scale::{Scale2D, Scale3D};
pub use size::{Size2D, Size3D};
pub use sprite::{Animation2D, AnimationTrigger, Sprite2D};
pub use transform::Transform2D;
pub use vector::{Vector2D, Vector3D};
pub use window::{Ratio2D, Window};

verus! {

/// Called once before the window opens. Does nothing.
pub fn Initialize() {
}

/// Called once before the first frame. Does nothing.
pub fn LoadContent() {
}

/// Called once a frame. Does nothing.
pub fn Update() {
}

} // verus!
