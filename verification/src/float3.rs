//! Three scalars: a position, a direction or a colour.

use vstd::prelude::*;
use crate::scalar::Scalar;
use crate::scalar::ONE_BITS;

verus! {

/// A vector of three scalars.  As a colour its components are red, green
/// and blue.
#[derive(Clone, Copy, Debug, PartialEq, Eq, Structural)]
pub struct Float3 {
    pub x: Scalar,
    pub y: Scalar,
    pub z: Scalar,
}

impl Float3 {
    /// No component is a zero: what a scale has to be.
    pub open spec fn nowhere_zero(self) -> bool {
        !self.x.zero() && !self.y.zero() && !self.z.zero()
    }

    /// The vector that points the other way.
    pub open spec fn opposite(self) -> Float3 {
        Float3 { x: self.x.opposite(), y: self.y.opposite(), z: self.z.opposite() }
    }

    /// Whether no component is a zero.
    pub fn is_nowhere_zero(&self) -> (r: bool)
        ensures
            r == self.nowhere_zero(),
    {
        !self.x.is_zero() && !self.y.is_zero() && !self.z.is_zero()
    }

    /// The vector that points the other way.
    pub fn negated(&self) -> (r: Float3)
        ensures
            r == self.opposite(),
    {
        Float3 { x: self.x.negated(), y: self.y.negated(), z: self.z.negated() }
    }
}

/// The vector `(0, 0, 0)`.
pub fn zero() -> (r: Float3)
    ensures
        r.x.bits == 0 && r.y.bits == 0 && r.z.bits == 0,
{
    fill(Scalar::new_zero())
}

/// The vector `(1, 1, 1)`.
pub fn one() -> (r: Float3)
    ensures
        r.x.bits == ONE_BITS && r.y.bits == ONE_BITS && r.z.bits == ONE_BITS,
        r.nowhere_zero(),
{
    fill(Scalar::new_one())
}

/// The vector with `x` in every component.
pub fn fill(x: Scalar) -> (r: Float3)
    ensures
        r == (Float3 { x: x, y: x, z: x }),
{
    Float3 { x: x, y: x, z: x }
}

/// The vector `(x, y, z)`.
pub fn new(x: Scalar, y: Scalar, z: Scalar) -> (r: Float3)
    ensures
        r == (Float3 { x: x, y: y, z: z }),
{
    Float3 { x: x, y: y, z: z }
}

/// The colour white.
pub fn white() -> (r: Float3)
    ensures
        r.x.bits == ONE_BITS && r.y.bits == ONE_BITS && r.z.bits == ONE_BITS,
{
    one()
}

} // verus!
