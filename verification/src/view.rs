//! The camera view published by the animation thread and read by the
//! renderer.

use vstd::prelude::*;

use crate::geometry::Point;

verus! {

/// The smallest scale the integrator ever leaves in place: `0.5`.
pub const MIN_SCALE: i64 = 500_000;

/// The camera transform for one frame: world-space center, zoom scale and
/// viewport dimensions, all in micro-units. Written only by the camera
/// integrator; everything else reads the latest published copy.
#[derive(Clone, Copy, Debug, PartialEq, Eq, Structural)]
pub struct ViewState {
    pub center: Point,
    pub scale: i64,
    pub width: i64,
    pub height: i64,
}

impl ViewState {
    /// The view before any resize or command: unit scale at the origin.
    pub fn new(width: i64, height: i64) -> (v: ViewState)
        ensures
            v == (ViewState { center: Point { x: 0, y: 0 }, scale: 1_000_000, width, height }),
    {
        ViewState { center: Point { x: 0, y: 0 }, scale: 1_000_000, width, height }
    }
}

} // verus!
