//! Rays, the interval of a ray that counts, and what a hit records.

use vstd::prelude::*;
use std::sync::Arc;
use crate::float3::Float3;
use crate::material::Material;
use crate::scalar::Scalar;

verus! {

/// A ray: the points `origin + t * direction`.  The direction need not be
/// of unit length.
#[derive(Clone, Copy, Debug, PartialEq, Eq, Structural)]
pub struct Ray {
    pub origin: Float3,
    pub direction: Float3,
}

impl Ray {
    /// The ray from `origin` along `direction`.
    pub fn new(origin: Float3, direction: Float3) -> (r: Ray)
        ensures
            r.origin == origin,
            r.direction == direction,
    {
        Ray { origin, direction }
    }
}

/// The parameters of a ray between `t0` and `t1`, both left out.
#[derive(Clone, Copy, Debug, PartialEq, Eq, Structural)]
pub struct Interval {
    pub t0: Scalar,
    pub t1: Scalar,
}

impl Interval {
    /// `t0 < t < t1`.
    pub open spec fn contains(self, t: Scalar) -> bool {
        self.t0.lt(t) && t.lt(self.t1)
    }

    /// The parameters between `t0` and `t1`.
    pub fn new(t0: Scalar, t1: Scalar) -> (r: Interval)
        ensures
            r.t0 == t0,
            r.t1 == t1,
    {
        Interval { t0, t1 }
    }

    /// A hit as a shape reports it when asked about this interval: the hit
    /// if its parameter lies inside, nothing otherwise.
    pub open spec fn sifted(self, h: HitInfo) -> Option<HitInfo> {
        if self.contains(h.t) {
            Some(h)
        } else {
            None
        }
    }

    /// The hit, if its parameter lies inside the interval.
    pub fn sift(&self, h: HitInfo) -> (r: Option<HitInfo>)
        ensures
            r == self.sifted(h),
    {
        if self.holds(h.t) {
            Some(h)
        } else {
            None
        }
    }

    /// Whether `t0 < t < t1`.
    pub fn holds(&self, t: Scalar) -> (r: bool)
        ensures
            r == self.contains(t),
    {
        self.t0.is_less_than(&t) && t.is_less_than(&self.t1)
    }
}

/// Where a ray meets a surface, before it is known whether the meeting
/// counts.
#[derive(Clone, Copy, Debug, PartialEq, Eq, Structural)]
pub struct Meeting {
    /// The parameter of the ray.
    pub t: Scalar,
    /// The point.
    pub p: Float3,
    /// The surface normal there, of unit length.
    pub n: Float3,
    /// The surface coordinates of the point.
    pub u: Scalar,
    pub v: Scalar,
}

impl Meeting {
    /// The meeting at the parameter `t`.
    pub fn new(t: Scalar, p: Float3, n: Float3, u: Scalar, v: Scalar) -> (r: Meeting)
        ensures
            r == (Meeting { t: t, p: p, n: n, u: u, v: v }),
    {
        Meeting { t, p, n, u, v }
    }

    /// The meeting as a hit on a surface of the material `m`.
    pub open spec fn on(self, m: Arc<Material>) -> HitInfo {
        HitInfo { t: self.t, p: self.p, n: self.n, m: m, u: self.u, v: self.v }
    }
}

/// Where a ray met a surface.
#[derive(Debug, PartialEq, Eq)]
pub struct HitInfo {
    /// The parameter of the ray at the hit.
    pub t: Scalar,
    /// The point of the hit.
    pub p: Float3,
    /// The surface normal there, of unit length.
    pub n: Float3,
    /// The material of the surface.
    pub m: Arc<Material>,
    /// The surface coordinates of the point.
    pub u: Scalar,
    pub v: Scalar,
}

impl HitInfo {
    /// The record of a hit.
    pub fn new(t: Scalar, p: Float3, n: Float3, m: Arc<Material>, u: Scalar, v: Scalar) -> (r:
        HitInfo)
        ensures
            r.t == t,
            r.p == p,
            r.n == n,
            r.m == m,
            r.u == u,
            r.v == v,
    {
        HitInfo { t, p, n, m, u, v }
    }

    /// The same hit seen from another frame: the point and the normal are
    /// replaced, the rest stays.
    pub fn moved(self, p: Float3, n: Float3) -> (r: HitInfo)
        ensures
            r.p == p,
            r.n == n,
            r.t == self.t,
            r.m == self.m,
            r.u == self.u,
            r.v == self.v,
    {
        HitInfo { t: self.t, p, n, m: self.m, u: self.u, v: self.v }
    }
}

} // verus!
