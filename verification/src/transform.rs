//! A shape moved, turned and stretched.
//!
//! A transform takes a ray of the world into the frame of its shape, lets
//! the shape answer there, and takes the answer back.  Which steps that
//! takes, and in which order, is decided here; the steps themselves are
//! arithmetic and are the caller's.

use vstd::prelude::*;
use crate::float3::Float3;
use crate::quat::Quat;
use crate::shape::Shape;

verus! {

/// One step on the way between two frames.
#[derive(Clone, Copy, Debug, PartialEq, Eq, Structural)]
pub enum Step {
    /// Add the vector to a point.  A direction stays as it is.
    Add(Float3),
    /// Subtract the vector from a point.  A direction stays as it is.
    Subtract(Float3),
    /// Turn by the rotation.
    Rotate(Quat),
    /// Multiply, component by component.
    Multiply(Float3),
    /// Divide, component by component.
    Divide(Float3),
}

impl Step {
    /// The step that undoes this one.
    pub open spec fn inverse(self) -> Step {
        match self {
            Step::Add(v) => Step::Subtract(v),
            Step::Subtract(v) => Step::Add(v),
            Step::Rotate(q) => Step::Rotate(q.conjugate()),
            Step::Multiply(v) => Step::Divide(v),
            Step::Divide(v) => Step::Multiply(v),
        }
    }

    /// The step moves points and leaves directions alone.
    pub open spec fn moves_points_only(self) -> bool {
        self is Add || self is Subtract
    }

    /// Whether the step leaves directions, and so normals, alone.
    pub fn is_for_points_only(&self) -> (r: bool)
        ensures
            r == self.moves_points_only(),
    {
        match self {
            Step::Add(_) => true,
            Step::Subtract(_) => true,
            _ => false,
        }
    }
}

/// A shape in a frame of its own: stretched by `scale`, then turned by
/// `rotation`, then moved by `position`, as far as each is there.
#[derive(Debug, PartialEq, Eq)]
pub struct Transform {
    pub shape: Box<Shape>,
    pub position: Option<Float3>,
    pub rotation: Option<Quat>,
    pub scale: Option<Float3>,
}

impl Transform {
    /// The scale, if there is one, is zero along no axis.
    pub open spec fn wf(self) -> bool {
        self.scale matches Some(s) ==> s.nowhere_zero()
    }

    /// The steps from the world into the frame of the shape: the position
    /// is subtracted, the rotation turned back, the scale divided out, in
    /// this order, as far as each is there.
    pub open spec fn object_steps(self) -> Seq<Step> {
        let a = match self.position {
            Some(p) => seq![Step::Subtract(p)],
            None => Seq::empty(),
        };
        let b = match self.rotation {
            Some(q) => seq![Step::Rotate(q.conjugate())],
            None => Seq::empty(),
        };
        let c = match self.scale {
            Some(s) => seq![Step::Divide(s)],
            None => Seq::empty(),
        };
        a + b + c
    }

    /// The steps from the frame of the shape into the world: the scale is
    /// multiplied in, the rotation turned, the position added, in this
    /// order, as far as each is there.
    pub open spec fn world_steps(self) -> Seq<Step> {
        let a = match self.scale {
            Some(s) => seq![Step::Multiply(s)],
            None => Seq::empty(),
        };
        let b = match self.rotation {
            Some(q) => seq![Step::Rotate(q)],
            None => Seq::empty(),
        };
        let c = match self.position {
            Some(p) => seq![Step::Add(p)],
            None => Seq::empty(),
        };
        a + b + c
    }

    /// The shape as it is, in the frame of the world.
    pub fn new(shape: Box<Shape>) -> (r: Transform)
        ensures
            r.shape == shape,
            r.position is None,
            r.rotation is None,
            r.scale is None,
            r.wf(),
    {
        Transform { shape, position: None, rotation: None, scale: None }
    }

    /// How far the shape is moved so far: by nothing, if it was not moved.
    pub fn position_or_zero(&self) -> (r: Float3)
        ensures
            r == match self.position {
                Some(p) => p,
                None => Float3 {
                    x: crate::scalar::Scalar { bits: 0 },
                    y: crate::scalar::Scalar { bits: 0 },
                    z: crate::scalar::Scalar { bits: 0 },
                },
            },
    {
        match self.position {
            Some(p) => p,
            None => crate::float3::zero(),
        }
    }

    /// How the shape is turned so far: not at all, if it was not turned.
    pub fn rotation_or_unit(&self) -> (r: Quat)
        ensures
            r == match self.rotation {
                Some(q) => q,
                None => Quat {
                    x: crate::scalar::Scalar { bits: 0 },
                    y: crate::scalar::Scalar { bits: 0 },
                    z: crate::scalar::Scalar { bits: 0 },
                    w: crate::scalar::Scalar { bits: crate::scalar::ONE_BITS },
                },
            },
    {
        match self.rotation {
            Some(q) => q,
            None => Quat::unit(),
        }
    }

    /// How the shape is stretched so far: by one, if it was not stretched.
    pub fn scale_or_one(&self) -> (r: Float3)
        ensures
            r == match self.scale {
                Some(s) => s,
                None => Float3 {
                    x: crate::scalar::Scalar { bits: crate::scalar::ONE_BITS },
                    y: crate::scalar::Scalar { bits: crate::scalar::ONE_BITS },
                    z: crate::scalar::Scalar { bits: crate::scalar::ONE_BITS },
                },
            },
    {
        match self.scale {
            Some(s) => s,
            None => crate::float3::one(),
        }
    }

    /// Moves the shape to `position`.  To move it further by an offset, the
    /// caller hands in `position_or_zero()` plus the offset.
    pub fn set_position(&mut self, position: Float3)
        ensures
            final(self).position == Some(position),
            final(self).shape == old(self).shape,
            final(self).rotation == old(self).rotation,
            final(self).scale == old(self).scale,
            old(self).wf() ==> final(self).wf(),
    {
        self.position = Some(position);
    }

    /// Turns the shape to `rotation`.  To turn it further, the caller hands
    /// in the further turn times `rotation_or_unit()`.
    pub fn set_rotation(&mut self, rotation: Quat)
        ensures
            final(self).rotation == Some(rotation),
            final(self).shape == old(self).shape,
            final(self).position == old(self).position,
            final(self).scale == old(self).scale,
            old(self).wf() ==> final(self).wf(),
    {
        self.rotation = Some(rotation);
    }

    /// Stretches the shape to `scale`.  To stretch it further, the caller
    /// hands in `scale_or_one()` times the further factor, component by
    /// component.  A scale that is zero along an axis flattens the shape
    /// and cannot be divided out: it is not accepted.
    pub fn set_scale(&mut self, scale: Float3)
        requires
            scale.nowhere_zero(),
        ensures
            final(self).scale == Some(scale),
            final(self).shape == old(self).shape,
            final(self).position == old(self).position,
            final(self).rotation == old(self).rotation,
            final(self).wf(),
    {
        self.scale = Some(scale);
    }

    /// The steps that take a ray of the world into the frame of the shape.
    pub fn ray_object_space(&self) -> (r: Vec<Step>)
        ensures
            r@ == self.object_steps(),
    {
        let mut steps: Vec<Step> = Vec::new();
        if let Some(p) = self.position {
            steps.push(Step::Subtract(p));
        }
        if let Some(q) = self.rotation {
            steps.push(Step::Rotate(q.conj()));
        }
        if let Some(s) = self.scale {
            steps.push(Step::Divide(s));
        }
        assert(steps@ =~= self.object_steps());
        steps
    }

    /// The steps that take a point of the shape into the world.  A normal
    /// takes the same steps as a direction, and is brought back to unit
    /// length after them.
    pub fn object_to_world(&self) -> (r: Vec<Step>)
        ensures
            r@ == self.world_steps(),
    {
        let mut steps: Vec<Step> = Vec::new();
        if let Some(s) = self.scale {
            steps.push(Step::Multiply(s));
        }
        if let Some(q) = self.rotation {
            steps.push(Step::Rotate(q));
        }
        if let Some(p) = self.position {
            steps.push(Step::Add(p));
        }
        assert(steps@ =~= self.world_steps());
        steps
    }
}

/// The way back into the world undoes the way into the frame of the shape,
/// step by step from the last to the first.
pub proof fn lemma_world_undoes_object(t: Transform)
    ensures
        t.world_steps().len() == t.object_steps().len(),
        forall|i: int|
            0 <= i < t.world_steps().len() ==> #[trigger] t.world_steps()[i]
                == t.object_steps()[t.object_steps().len() - 1 - i].inverse(),
        forall|i: int|
            0 <= i < t.world_steps().len() ==> #[trigger] t.world_steps()[i].inverse()
                == t.object_steps()[t.object_steps().len() - 1 - i],
{
    if let Some(q) = t.rotation {
        crate::quat::lemma_conjugate_twice(q);
    }
}

/// Every scale that is divided out is zero along no axis.
pub proof fn lemma_no_division_by_zero(t: Transform)
    requires
        t.wf(),
    ensures
        forall|i: int|
            0 <= i < t.object_steps().len() ==> (#[trigger] t.object_steps()[i] matches Step::Divide(
                s,
            ) ==> s.nowhere_zero()),
{
}

} // verus!
