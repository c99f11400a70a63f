//! The camera: a focus point and a zoom, and the projection they give.

use vstd::prelude::*;
use vstd::std_specs::cmp::PartialEqSpecImpl;
use crate::arithmetic::{difference_of, quotient_of, sum_of, Arithmetic};
use crate::matrix::Matrix4x4;
use crate::scalar::{Scalar, HUNDREDTH_BITS, HUNDRED_BITS, ONE_BITS, TWO_BITS};
use crate::scale::Scale3D;
use crate::size::Size2D;
use crate::vector::Vector2D;

verus! {

/// `r` is `centre - extent / 2` as `ops` computed it.
pub open spec fn low_edge_of<A: Arithmetic>(
    ops: &A,
    centre: Scalar,
    extent: Scalar,
    r: Scalar,
) -> bool {
    exists|half: Scalar|
        #![trigger quotient_of(ops, extent, Scalar::of(TWO_BITS), half)]
        quotient_of(ops, extent, Scalar::of(TWO_BITS), half) && difference_of(ops, centre, half, r)
}

/// `r` is `centre + extent / 2` as `ops` computed it.
pub open spec fn high_edge_of<A: Arithmetic>(
    ops: &A,
    centre: Scalar,
    extent: Scalar,
    r: Scalar,
) -> bool {
    exists|half: Scalar|
        #![trigger quotient_of(ops, extent, Scalar::of(TWO_BITS), half)]
        quotient_of(ops, extent, Scalar::of(TWO_BITS), half) && sum_of(ops, centre, half, r)
}

fn low_edge<A: Arithmetic>(ops: &A, centre: Scalar, extent: Scalar) -> (r: Scalar)
    ensures
        low_edge_of(ops, centre, extent, r),
{
    let half = ops.div(extent, Scalar::from_bits(TWO_BITS));
    let r = ops.sub(centre, half);
    assert(quotient_of(ops, extent, Scalar::of(TWO_BITS), half));
    r
}

fn high_edge<A: Arithmetic>(ops: &A, centre: Scalar, extent: Scalar) -> (r: Scalar)
    ensures
        high_edge_of(ops, centre, extent, r),
{
    let half = ops.div(extent, Scalar::from_bits(TWO_BITS));
    let r = ops.add(centre, half);
    assert(quotient_of(ops, extent, Scalar::of(TWO_BITS), half));
    r
}

/// A camera looking at `focus_position`, magnifying by `zoom`.
#[derive(Clone, Copy, Debug)]
pub struct Camera2D {
    pub focus_position: Vector2D,
    pub zoom: Scalar,
}

impl Camera2D {
    /// `r` is the projection of a viewport of the given size: the
    /// orthographic volume centred on the focus, half the viewport to each
    /// side, top edge at the lower `y`, from `0.01` to `100.0` in depth,
    /// times the zoom on all three axes, the volume first.
    pub open spec fn projects<A: Arithmetic>(self, viewport: Size2D, ops: &A, r: Matrix4x4) -> bool {
        exists|left: Scalar, right: Scalar, top: Scalar, bottom: Scalar, ortho: Matrix4x4, zoom: Matrix4x4|
            #![trigger low_edge_of(ops, self.focus_position.x, viewport.x, left), high_edge_of(ops, self.focus_position.x, viewport.x, right), low_edge_of(ops, self.focus_position.y, viewport.y, top), high_edge_of(ops, self.focus_position.y, viewport.y, bottom), ortho.product_is(zoom, ops, r)]
            low_edge_of(ops, self.focus_position.x, viewport.x, left) && high_edge_of(
                ops,
                self.focus_position.x,
                viewport.x,
                right,
            ) && low_edge_of(ops, self.focus_position.y, viewport.y, top) && high_edge_of(
                ops,
                self.focus_position.y,
                viewport.y,
                bottom,
            ) && Matrix4x4::orthographic_is(
                left,
                right,
                bottom,
                top,
                Scalar::of(HUNDREDTH_BITS),
                Scalar::of(HUNDRED_BITS),
                ops,
                ortho,
            ) && Matrix4x4::scales(Scale3D::of(self.zoom, self.zoom, self.zoom), zoom)
                && ortho.product_is(zoom, ops, r)
    }

    /// The camera at the origin, with zoom `1.0`.
    pub fn new() -> (r: Camera2D)
        ensures
            r.focus_position == Vector2D::of_zero(),
            r.zoom == Scalar::of(ONE_BITS),
    {
        Camera2D { focus_position: Vector2D::new(), zoom: Scalar::from_bits(ONE_BITS) }
    }

    pub fn from(focus_position: Vector2D, zoom: Scalar) -> (r: Camera2D)
        ensures
            r.focus_position == focus_position,
            r.zoom == zoom,
    {
        Camera2D { focus_position, zoom }
    }

    /// The projection matrix for a viewport of the given size. Nothing is
    /// checked of the zoom or of the size: a zero extent divides by zero.
    pub fn get_projection_matrix<A: Arithmetic>(self, viewport: Size2D, ops: &A) -> (r: Matrix4x4)
        ensures
            self.projects(viewport, ops, r),
    {
        let left = low_edge(ops, self.focus_position.x, viewport.x);
        let right = high_edge(ops, self.focus_position.x, viewport.x);
        let top = low_edge(ops, self.focus_position.y, viewport.y);
        let bottom = high_edge(ops, self.focus_position.y, viewport.y);
        let ortho = Matrix4x4::create_orthographic_off_center(
            left,
            right,
            bottom,
            top,
            Scalar::from_bits(HUNDREDTH_BITS),
            Scalar::from_bits(HUNDRED_BITS),
            ops,
        );
        let zoom = Matrix4x4::create_scale(Scale3D::from_f32(self.zoom, self.zoom, self.zoom));
        let r = ortho.mult(zoom, ops);
        assert(low_edge_of(ops, self.focus_position.x, viewport.x, left) && high_edge_of(
            ops,
            self.focus_position.x,
            viewport.x,
            right,
        ) && low_edge_of(ops, self.focus_position.y, viewport.y, top) && high_edge_of(
            ops,
            self.focus_position.y,
            viewport.y,
            bottom,
        ) && ortho.product_is(zoom, ops, r));
        r
    }
}

impl PartialEq for Camera2D {
    fn eq(&self, other: &Camera2D) -> (r: bool) {
        self.focus_position == other.focus_position && self.zoom == other.zoom
    }
}

impl PartialEqSpecImpl for Camera2D {
    open spec fn obeys_eq_spec() -> bool {
        true
    }

    open spec fn eq_spec(&self, other: &Camera2D) -> bool {
        &&& self.focus_position.x.same_value(other.focus_position.x)
        &&& self.focus_position.y.same_value(other.focus_position.y)
        &&& self.zoom.same_value(other.zoom)
    }
}

} // verus!
