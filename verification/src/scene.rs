//! The path estimator: how far a path of light is followed.
//!
//! The light along a ray is what the surface it hits gives off, plus the
//! light along the scattered ray, attenuated.  That is a recursion, and
//! `depth` bounds it: each scattering uses up one level, and at depth zero
//! nothing is scattered any more.

use vstd::prelude::*;
use crate::ray::Interval;
use crate::scalar::Scalar;
use crate::scalar::INFINITY_BITS;

verus! {

/// How often a path may be scattered.
pub const MAX_RAY_BOUNCE_DEPTH: usize = 50;

/// The pattern of `0.001`: where the interval of a traced ray begins.  A
/// scattered ray starts on the surface that scattered it, and must not hit
/// that surface again at its own origin.
pub const SHADOW_EPSILON_BITS: u64 = 0x3F50_624D_D2F1_A9FC;

/// The interval in which a traced ray is tested: from `0.001` on, without
/// an end.  Every number above `0.001` lies inside, infinity itself does
/// not.
pub fn trace_range() -> (r: Interval)
    ensures
        r.t0.bits == SHADOW_EPSILON_BITS,
        r.t1.bits == INFINITY_BITS,
        r.t0.positive(),
        r.t0.lt(r.t1),
        forall|t: Scalar| r.contains(t) <==> r.t0.lt(t) && t.bits != INFINITY_BITS,
{
    Interval::new(Scalar::from_bits(SHADOW_EPSILON_BITS), Scalar::new_infinity())
}

/// The pattern of `0.8`: below it a drawn number makes a matt sphere.
pub const MATT_SHARE_BITS: u64 = 0x3FE9_9999_9999_999A;

/// The pattern of `0.95`: below it, and not below `0.8`, a drawn number
/// makes a mirror.
pub const MIRROR_SHARE_BITS: u64 = 0x3FEE_6666_6666_6666;

/// The material of a sphere of a scene that is strewn at random.
#[derive(Clone, Copy, Debug, PartialEq, Eq, Structural)]
pub enum Strewn {
    Matt,
    Mirror,
    Glass,
}

/// The material that a number drawn from `[0, 1)` chooses: matt below
/// `0.8`, a mirror below `0.95`, glass otherwise.
pub fn strewn_material(choice: Scalar) -> (r: Strewn)
    ensures
        r == if choice.lt(Scalar { bits: MATT_SHARE_BITS }) {
            Strewn::Matt
        } else if choice.lt(Scalar { bits: MIRROR_SHARE_BITS }) {
            Strewn::Mirror
        } else {
            Strewn::Glass
        },
{
    if choice.is_less_than(&Scalar::from_bits(MATT_SHARE_BITS)) {
        Strewn::Matt
    } else if choice.is_less_than(&Scalar::from_bits(MIRROR_SHARE_BITS)) {
        Strewn::Mirror
    } else {
        Strewn::Glass
    }
}

/// What the estimator does with a ray once the shapes have answered.
#[derive(Clone, Copy, Debug, PartialEq, Eq, Structural)]
pub enum Trace {
    /// Nothing was hit: the light is that of the background.
    Background,
    /// The path ends on the surface: the light is what the surface gives
    /// off.  The material is not asked to scatter.
    Emitted,
    /// The material is asked to scatter.  If it does, the scattered ray is
    /// traced at `depth` and its light, attenuated, added to what the
    /// surface gives off; if it does not, the light is what the surface
    /// gives off.
    Scatter { depth: usize },
}

/// The step of the estimator on a ray traced at `depth`.
pub open spec fn step(hit: bool, depth: usize) -> Trace {
    if !hit {
        Trace::Background
    } else if depth == 0 {
        Trace::Emitted
    } else {
        Trace::Scatter { depth: (depth - 1) as usize }
    }
}

/// Decides what to do with a ray traced at `depth`, given whether it hit a
/// shape.
pub fn trace(hit: bool, depth: usize) -> (r: Trace)
    ensures
        r == step(hit, depth),
{
    if !hit {
        Trace::Background
    } else if depth == 0 {
        Trace::Emitted
    } else {
        Trace::Scatter { depth: depth - 1 }
    }
}

/// The depths at which a path is traced that is scattered at every hit:
/// the depth it starts at and each one that follows.
pub open spec fn depths(depth: usize) -> Seq<usize>
    decreases depth,
{
    match step(true, depth) {
        Trace::Scatter { depth: next } => seq![depth] + depths(next),
        _ => seq![depth],
    }
}

/// At depth zero a path ends: the material is never asked to scatter,
/// whatever was hit.
pub proof fn lemma_depth_zero_ends(hit: bool)
    ensures
        !(step(hit, 0) is Scatter),
        hit ==> step(hit, 0) == Trace::Emitted,
        !hit ==> step(hit, 0) == Trace::Background,
{
}

/// Each scattering uses up one level of depth.
pub proof fn lemma_depth_decreases(hit: bool, depth: usize)
    ensures
        step(hit, depth) matches Trace::Scatter { depth: next } ==> next + 1 == depth,
        step(hit, depth) is Scatter <==> hit && depth > 0,
{
}

/// A path started at `depth` is traced at most `depth + 1` times and so
/// scattered at most `depth` times, however the shapes lie: the recursion
/// ends.
pub proof fn lemma_path_is_bounded(depth: usize)
    ensures
        depths(depth).len() == depth + 1,
        forall|i: int| 0 <= i <= depth ==> #[trigger] depths(depth)[i] == depth - i,
        depths(depth).last() == 0,
    decreases depth,
{
    if depth > 0 {
        let next = (depth - 1) as usize;
        lemma_path_is_bounded(next);
        assert forall|i: int| 0 <= i <= depth implies #[trigger] depths(depth)[i] == depth
            - i by {
            if i > 0 {
                assert(depths(depth)[i] == depths(next)[i - 1]);
            }
        }
    }
}

} // verus!
