//! The camera.

use vstd::prelude::*;
use crate::float3::Float3;

verus! {

/// A camera: the eye and the screen that it looks at.
#[derive(Clone, Copy, Debug, PartialEq, Eq, Structural)]
pub struct Camera {
    /// The eye.
    pub origin: Float3,
    /// Along the lower edge of the screen, from left to right.
    pub u: Float3,
    /// Along the left edge of the screen, from bottom to top.
    pub v: Float3,
    /// The lower left corner of the screen.
    pub w: Float3,
}

impl Camera {
    /// The camera with its eye at the origin of the world and the screen
    /// spanned by `u` and `v` from the corner `w`.
    pub fn new(u: Float3, v: Float3, w: Float3) -> (r: Camera)
        ensures
            r.u == u,
            r.v == v,
            r.w == w,
            r.origin.x.bits == 0 && r.origin.y.bits == 0 && r.origin.z.bits == 0,
    {
        Camera { origin: crate::float3::zero(), u, v, w }
    }
}

} // verus!
