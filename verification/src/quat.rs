//! Quaternions, as far as they need no arithmetic.

use vstd::prelude::*;
use crate::scalar::Scalar;
use crate::scalar::ONE_BITS;

verus! {

/// A quaternion `w + xi + yj + zk`.  A rotation is one of unit length.
#[derive(Clone, Copy, Debug, PartialEq, Eq, Structural)]
pub struct Quat {
    pub x: Scalar,
    pub y: Scalar,
    pub z: Scalar,
    pub w: Scalar,
}

impl Quat {
    /// The quaternion with these four components.
    pub fn new(x: Scalar, y: Scalar, z: Scalar, w: Scalar) -> (r: Quat)
        ensures
            r == (Quat { x: x, y: y, z: z, w: w }),
    {
        Quat { x: x, y: y, z: z, w: w }
    }

    /// The rotation that turns nothing: `(0, 0, 0, 1)`.
    pub fn unit() -> (r: Quat)
        ensures
            r.x.bits == 0 && r.y.bits == 0 && r.z.bits == 0 && r.w.bits == ONE_BITS,
    {
        Quat { x: Scalar::new_zero(), y: Scalar::new_zero(), z: Scalar::new_zero(), w: Scalar::new_one() }
    }

    /// The quaternion `(0, 0, 0, 0)`.
    pub fn zero() -> (r: Quat)
        ensures
            r.x.bits == 0 && r.y.bits == 0 && r.z.bits == 0 && r.w.bits == 0,
    {
        Quat { x: Scalar::new_zero(), y: Scalar::new_zero(), z: Scalar::new_zero(), w: Scalar::new_zero() }
    }

    /// The half turn about the x axis: `(1, 0, 0, 0)`.
    pub fn half_turn_x() -> (r: Quat)
        ensures
            r.x.bits == ONE_BITS && r.y.bits == 0 && r.z.bits == 0 && r.w.bits == 0,
    {
        Quat { x: Scalar::new_one(), y: Scalar::new_zero(), z: Scalar::new_zero(), w: Scalar::new_zero() }
    }

    /// The half turn about the y axis: `(0, 1, 0, 0)`.
    pub fn half_turn_y() -> (r: Quat)
        ensures
            r.x.bits == 0 && r.y.bits == ONE_BITS && r.z.bits == 0 && r.w.bits == 0,
    {
        Quat { x: Scalar::new_zero(), y: Scalar::new_one(), z: Scalar::new_zero(), w: Scalar::new_zero() }
    }

    /// The conjugate: the vector part negated.  Of a rotation it is the
    /// inverse rotation.
    pub open spec fn conjugate(self) -> Quat {
        Quat { x: self.x.opposite(), y: self.y.opposite(), z: self.z.opposite(), w: self.w }
    }

    /// The conjugate.
    pub fn conj(&self) -> (r: Quat)
        ensures
            r == self.conjugate(),
    {
        Quat { x: self.x.negated(), y: self.y.negated(), z: self.z.negated(), w: self.w }
    }

    /// The component `x`.
    pub fn x(&self) -> (r: Scalar)
        ensures
            r == self.x,
    {
        self.x
    }

    /// The component `y`.
    pub fn y(&self) -> (r: Scalar)
        ensures
            r == self.y,
    {
        self.y
    }

    /// The component `z`.
    pub fn z(&self) -> (r: Scalar)
        ensures
            r == self.z,
    {
        self.z
    }

    /// The component `w`.
    pub fn w(&self) -> (r: Scalar)
        ensures
            r == self.w,
    {
        self.w
    }

    /// The components in the order `x, y, z, w`.
    pub fn to_array(&self) -> (r: [Scalar; 4])
        ensures
            r@ =~= seq![self.x, self.y, self.z, self.w],
    {
        [self.x, self.y, self.z, self.w]
    }
}

/// The conjugate of the conjugate is the quaternion itself.
pub proof fn lemma_conjugate_twice(q: Quat)
    ensures
        q.conjugate().conjugate() == q,
{
    crate::scalar::lemma_opposite(q.x);
    crate::scalar::lemma_opposite(q.y);
    crate::scalar::lemma_opposite(q.z);
}

} // verus!
