//! The decisions of the small formulas of optics and sampling.

use vstd::prelude::*;
use crate::float3::Float3;
use crate::scalar::Scalar;

verus! {

/// The direction of a ray bent at a boundary, if it is bent.  `k` is the
/// discriminant of the refraction and `bent` the direction computed from
/// it: a negative `k` means total internal reflection, and no bent ray.
pub open spec fn refracted(k: Scalar, bent: Float3) -> Option<Float3> {
    if k.negative() {
        None
    } else {
        Some(bent)
    }
}

/// The direction of the refracted ray, if there is one.
pub fn refract(k: Scalar, bent: Float3) -> (r: Option<Float3>)
    ensures
        r == refracted(k, bent),
{
    if k.is_negative() {
        None
    } else {
        Some(bent)
    }
}

/// A point drawn from the cube round the unit sphere, if it lies inside
/// the sphere: `norm_squared`, the square of its distance from the centre,
/// is below one.  A point that is refused is drawn again.
pub fn random_in_unit_sphere(point: Float3, norm_squared: Scalar) -> (r: Option<Float3>)
    ensures
        r == if norm_squared.lt(Scalar { bits: crate::scalar::ONE_BITS }) {
            Some(point)
        } else {
            None
        },
{
    if norm_squared.is_less_than(&Scalar::new_one()) {
        Some(point)
    } else {
        None
    }
}

} // verus!
