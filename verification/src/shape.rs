//! Shapes: what a ray can hit, and which of its hits counts.
//!
//! A shape answers a ray and an interval with the nearest hit inside the
//! interval, or with none.  Where the ray meets a surface is arithmetic and
//! comes from the caller; whether that meeting counts is decided here.

use vstd::prelude::*;
use std::sync::Arc;
use crate::float3::Float3;
use crate::material::Material;
use crate::ray::HitInfo;
use crate::ray::Interval;
use crate::ray::Meeting;
use crate::scalar::Scalar;
use crate::scalar::ONE_BITS;
use crate::builder::ShapeBuilder;
use crate::quat::Quat;
use crate::transform::Transform;

verus! {

/// `Arc::clone`: one more handle on the same value.
#[verifier::external_body]
pub(crate) fn share(m: &Arc<Material>) -> (r: Arc<Material>)
    ensures
        r == *m,
{
    Arc::clone(m)
}

/// A shape of one of the five kinds.
#[derive(Debug, PartialEq, Eq)]
pub enum Shape {
    Sphere(Sphere),
    Rect(Rect),
    List(ShapeList),
    Cube(Cube),
    Transform(Box<Transform>),
}

/// A sphere.
#[derive(Debug, PartialEq, Eq)]
pub struct Sphere {
    pub center: Float3,
    pub radius: Scalar,
    pub material: Arc<Material>,
}

impl Sphere {
    /// The sphere round `center`.
    pub fn new(center: Float3, radius: Scalar, material: Arc<Material>) -> (r: Sphere)
        ensures
            r.center == center,
            r.radius == radius,
            r.material == material,
    {
        Sphere { center, radius, material }
    }

    /// The meeting that counts.  A ray meets the sphere only where the
    /// discriminant of the quadratic is above zero, and then in two places,
    /// `near` before `far`: the hit is the first of the two whose parameter
    /// lies inside the interval.
    pub open spec fn nearest(range: Interval, discriminant: Scalar, near: Meeting, far: Meeting)
        -> Option<Meeting> {
        if discriminant.positive() && range.contains(near.t) {
            Some(near)
        } else if discriminant.positive() && range.contains(far.t) {
            Some(far)
        } else {
            None
        }
    }

    /// The hit of a ray on the sphere, if there is one inside the interval.
    /// `discriminant` is that of the quadratic for the ray and the sphere,
    /// `near` and `far` are the meetings at its smaller and its larger root.
    pub fn hit(&self, range: &Interval, discriminant: Scalar, near: Meeting, far: Meeting) -> (r:
        Option<HitInfo>)
        ensures
            r == match Self::nearest(*range, discriminant, near, far) {
                Some(m) => Some(m.on(self.material)),
                None => None,
            },
            r matches Some(h) ==> range.contains(h.t),
    {
        if !discriminant.is_positive() {
            None
        } else if range.holds(near.t) {
            Some(HitInfo::new(near.t, near.p, near.n, share(&self.material), near.u, near.v))
        } else if range.holds(far.t) {
            Some(HitInfo::new(far.t, far.p, far.n, share(&self.material), far.u, far.v))
        } else {
            None
        }
    }
}

/// The plane that an axis-aligned rectangle lies in.
#[derive(Clone, Copy, Debug, PartialEq, Eq, Structural)]
pub enum RectAxisType {
    XY,
    XZ,
    YZ,
}

impl RectAxisType {
    /// A vector seen in the frame of the rectangle: the two axes of its
    /// plane first, the axis across it last.
    pub open spec fn canonical(self, v: Float3) -> Float3 {
        match self {
            RectAxisType::XY => v,
            RectAxisType::XZ => Float3 { x: v.x, y: v.z, z: v.y },
            RectAxisType::YZ => Float3 { x: v.y, y: v.z, z: v.x },
        }
    }

    /// A vector of the rectangle's frame seen in the frame of the world.
    pub open spec fn world(self, v: Float3) -> Float3 {
        match self {
            RectAxisType::XY => v,
            RectAxisType::XZ => Float3 { x: v.x, y: v.z, z: v.y },
            RectAxisType::YZ => Float3 { x: v.z, y: v.x, z: v.y },
        }
    }

    /// The unit vector across the plane: `z` for `XY`, `y` for `XZ`, `x` for
    /// `YZ`.
    pub open spec fn normal(self) -> Float3 {
        let o = Scalar { bits: 0 };
        let l = Scalar { bits: ONE_BITS };
        match self {
            RectAxisType::XY => Float3 { x: o, y: o, z: l },
            RectAxisType::XZ => Float3 { x: o, y: l, z: o },
            RectAxisType::YZ => Float3 { x: l, y: o, z: o },
        }
    }

    /// The vector in the frame of the rectangle.
    pub fn to_canonical(&self, v: Float3) -> (r: Float3)
        ensures
            r == self.canonical(v),
    {
        match self {
            RectAxisType::XY => v,
            RectAxisType::XZ => Float3 { x: v.x, y: v.z, z: v.y },
            RectAxisType::YZ => Float3 { x: v.y, y: v.z, z: v.x },
        }
    }

    /// The vector back in the frame of the world.
    pub fn to_world(&self, v: Float3) -> (r: Float3)
        ensures
            r == self.world(v),
    {
        match self {
            RectAxisType::XY => v,
            RectAxisType::XZ => Float3 { x: v.x, y: v.z, z: v.y },
            RectAxisType::YZ => Float3 { x: v.z, y: v.x, z: v.y },
        }
    }

    /// The unit vector across the plane.
    pub fn normal_axis(&self) -> (r: Float3)
        ensures
            r == self.normal(),
    {
        self.to_world(
            Float3 { x: Scalar::new_zero(), y: Scalar::new_zero(), z: Scalar::new_one() },
        )
    }
}

/// Going into the frame of a rectangle and back leaves a vector as it was,
/// and so does going the other way.
pub proof fn lemma_frames_are_inverse(axis: RectAxisType, v: Float3)
    ensures
        axis.world(axis.canonical(v)) == v,
        axis.canonical(axis.world(v)) == v,
{
}

/// The normal of a rectangle is the last axis of its frame.
pub proof fn lemma_normal_is_last_axis(axis: RectAxisType)
    ensures
        axis.canonical(axis.normal()) == (Float3 {
            x: Scalar { bits: 0 },
            y: Scalar { bits: 0 },
            z: Scalar { bits: ONE_BITS },
        }),
{
}

/// A rectangle in a plane across one of the axes.  In its own frame it
/// spans `x0..=x1` and `y0..=y1` at the height `k`.
#[derive(Debug, PartialEq, Eq)]
pub struct Rect {
    pub x0: Scalar,
    pub x1: Scalar,
    pub y0: Scalar,
    pub y1: Scalar,
    pub k: Scalar,
    pub axis: RectAxisType,
    pub material: Arc<Material>,
}

impl Rect {
    /// The rectangle with these bounds.
    pub fn new(
        x0: Scalar,
        x1: Scalar,
        y0: Scalar,
        y1: Scalar,
        k: Scalar,
        axis: RectAxisType,
        material: Arc<Material>,
    ) -> (r: Rect)
        ensures
            r.x0 == x0,
            r.x1 == x1,
            r.y0 == y0,
            r.y1 == y1,
            r.k == k,
            r.axis == axis,
            r.material == material,
    {
        Rect { x0, x1, y0, y1, k, axis, material }
    }

    /// The point `(x, y)` of the plane lies on the rectangle, its edges
    /// counted in.
    pub open spec fn covers(self, x: Scalar, y: Scalar) -> bool {
        self.x0.le(x) && x.le(self.x1) && self.y0.le(y) && y.le(self.y1)
    }

    /// Whether the point `(x, y)` of the plane lies on the rectangle.
    pub fn is_covering(&self, x: Scalar, y: Scalar) -> (r: bool)
        ensures
            r == self.covers(x, y),
    {
        self.x0.is_at_most(&x) && x.is_at_most(&self.x1) && self.y0.is_at_most(&y) && y.is_at_most(
            &self.y1,
        )
    }

    /// The hit of a ray that crosses the plane at the parameter `t`, in the
    /// point `(x, y)` of the rectangle's frame: it counts if `t` lies
    /// inside the interval and the point on the rectangle.  `p` is the
    /// point in the world, `u` and `v` its place between the bounds; the
    /// normal is the axis across the plane.
    pub fn hit(
        &self,
        range: &Interval,
        t: Scalar,
        x: Scalar,
        y: Scalar,
        p: Float3,
        u: Scalar,
        v: Scalar,
    ) -> (r: Option<HitInfo>)
        ensures
            r == if range.contains(t) && self.covers(x, y) {
                Some(HitInfo { t: t, p: p, n: self.axis.normal(), m: self.material, u: u, v: v })
            } else {
                None
            },
            r matches Some(h) ==> range.contains(h.t),
    {
        if !range.holds(t) {
            return None;
        }
        if !self.is_covering(x, y) {
            return None;
        }
        Some(HitInfo::new(t, p, self.axis.normal_axis(), share(&self.material), u, v))
    }
}

/// Shapes in a row.
#[derive(Debug, PartialEq, Eq)]
pub struct ShapeList {
    pub objects: Vec<Shape>,
}

impl ShapeList {
    /// The empty list.
    pub fn new() -> (r: ShapeList)
        ensures
            r.objects@.len() == 0,
    {
        ShapeList { objects: Vec::new() }
    }

    /// The list with `object` added at its end.
    pub fn push(&mut self, object: Shape)
        ensures
            final(self).objects@ == old(self).objects@.push(object),
    {
        self.objects.push(object);
    }
}

/// A box of six rectangles round the origin, reaching from -1 to 1 along
/// each axis.
#[derive(Debug, PartialEq, Eq)]
pub struct Cube {
    pub shapes: ShapeList,
}

/// How a face of the box is brought into place: as it is, or turned half
/// round an axis.
#[derive(Clone, Copy, Debug, PartialEq, Eq, Structural)]
pub enum HalfTurn {
    Stay,
    AboutX,
    AboutY,
}

impl HalfTurn {
    /// The rotation of the turn, if it is one.
    pub open spec fn rotation(self) -> Option<Quat> {
        let o = Scalar { bits: 0 };
        let l = Scalar { bits: ONE_BITS };
        match self {
            HalfTurn::Stay => None,
            HalfTurn::AboutX => Some(Quat { x: l, y: o, z: o, w: o }),
            HalfTurn::AboutY => Some(Quat { x: o, y: l, z: o, w: o }),
        }
    }

    /// The turn reverses the normal of a rectangle in this plane: a half
    /// turn reverses every direction but the one along its axis.
    pub open spec fn reverses(self, axis: RectAxisType) -> bool {
        match self {
            HalfTurn::Stay => false,
            HalfTurn::AboutX => !(axis is YZ),
            HalfTurn::AboutY => !(axis is XZ),
        }
    }
}

/// One face of the box: the unit square at height 1 across an axis, and
/// the turn that brings it into place.
#[derive(Clone, Copy, Debug, PartialEq, Eq, Structural)]
pub struct Face {
    pub axis: RectAxisType,
    pub turn: HalfTurn,
}

impl Face {
    /// The side of the box that the face closes: the axis across it, and
    /// whether it lies on the positive side.
    pub open spec fn side(self) -> (RectAxisType, bool) {
        (self.axis, !self.turn.reverses(self.axis))
    }

    /// The face as a shape of the given material.
    pub open spec fn shape(self, material: Arc<Material>) -> Shape {
        let l = Scalar { bits: ONE_BITS };
        let rect = Shape::Rect(
            Rect {
                x0: l.opposite(),
                x1: l,
                y0: l.opposite(),
                y1: l,
                k: l,
                axis: self.axis,
                material: material,
            },
        );
        match self.turn.rotation() {
            Some(q) => Shape::Transform(
                Box::new(
                    Transform {
                        shape: Box::new(rect),
                        position: None,
                        rotation: Some(q),
                        scale: None,
                    },
                ),
            ),
            None => rect,
        }
    }
}

impl Cube {
    /// The six faces of the box.
    pub open spec fn faces() -> Seq<Face> {
        seq![
            Face { axis: RectAxisType::XY, turn: HalfTurn::Stay },
            Face { axis: RectAxisType::XY, turn: HalfTurn::AboutY },
            Face { axis: RectAxisType::YZ, turn: HalfTurn::Stay },
            Face { axis: RectAxisType::YZ, turn: HalfTurn::AboutY },
            Face { axis: RectAxisType::XZ, turn: HalfTurn::Stay },
            Face { axis: RectAxisType::XZ, turn: HalfTurn::AboutX },
        ]
    }

    /// One of the faces closes this side of the box.
    pub open spec fn closes(axis: RectAxisType, positive: bool) -> bool {
        exists|i: int| 0 <= i < 6 && #[trigger] Self::faces()[i].side() == (axis, positive)
    }

    /// The box consists of its six faces, each of this material.
    pub open spec fn made_of(self, material: Arc<Material>) -> bool {
        &&& self.shapes.objects@.len() == 6
        &&& forall|i: int|
            0 <= i < 6 ==> #[trigger] self.shapes.objects@[i] == Self::faces()[i].shape(material)
    }

    fn face(axis: RectAxisType, turn: HalfTurn, material: &Arc<Material>) -> (r: Shape)
        ensures
            r == (Face { axis: axis, turn: turn }).shape(*material),
    {
        let l = Scalar::new_one();
        let b = ShapeBuilder::new().material(share(material));
        let b = match axis {
            RectAxisType::XY => b.rect_xy(l.negated(), l, l.negated(), l, l),
            RectAxisType::XZ => b.rect_xz(l.negated(), l, l.negated(), l, l),
            RectAxisType::YZ => b.rect_yz(l.negated(), l, l.negated(), l, l),
        };
        let b = match turn {
            HalfTurn::Stay => b,
            HalfTurn::AboutX => b.build_transform().rotate(Quat::half_turn_x()),
            HalfTurn::AboutY => b.build_transform().rotate(Quat::half_turn_y()),
        };
        *b.build()
    }

    /// The box of this material.
    pub fn new(material: Arc<Material>) -> (r: Cube)
        ensures
            r.made_of(material),
    {
        let mut shapes = ShapeList::new();
        shapes.push(Self::face(RectAxisType::XY, HalfTurn::Stay, &material));
        shapes.push(Self::face(RectAxisType::XY, HalfTurn::AboutY, &material));
        shapes.push(Self::face(RectAxisType::YZ, HalfTurn::Stay, &material));
        shapes.push(Self::face(RectAxisType::YZ, HalfTurn::AboutY, &material));
        shapes.push(Self::face(RectAxisType::XZ, HalfTurn::Stay, &material));
        shapes.push(Self::face(RectAxisType::XZ, HalfTurn::AboutX, &material));
        Cube { shapes }
    }
}

/// The box is closed: its faces close the six sides, each face another
/// side.
pub proof fn lemma_cube_is_closed()
    ensures
        Cube::faces().len() == 6,
        forall|axis: RectAxisType, positive: bool| #[trigger] Cube::closes(axis, positive),
        forall|i: int, j: int|
            0 <= i < j < 6 ==> Cube::faces()[i].side() != Cube::faces()[j].side(),
{
    let f = Cube::faces();
    assert forall|axis: RectAxisType, positive: bool| #[trigger]
        Cube::closes(axis, positive) by {
        match (axis, positive) {
            (RectAxisType::XY, true) => assert(f[0].side() == (axis, positive)),
            (RectAxisType::XY, false) => assert(f[1].side() == (axis, positive)),
            (RectAxisType::YZ, true) => assert(f[2].side() == (axis, positive)),
            (RectAxisType::YZ, false) => assert(f[3].side() == (axis, positive)),
            (RectAxisType::XZ, true) => assert(f[4].side() == (axis, positive)),
            (RectAxisType::XZ, false) => assert(f[5].side() == (axis, positive)),
        }
    }
}

/// The nearest hit found so far of a ray on a row of shapes, and the
/// interval that the next shape is asked about: it ends where that hit is.
#[derive(Debug, PartialEq, Eq)]
pub struct Closest {
    pub range: Interval,
    pub hit: Option<HitInfo>,
}

impl Closest {
    /// After one more shape has answered with `found`: a hit takes the
    /// place of the one before it and cuts the interval at its parameter,
    /// no hit changes nothing.
    pub open spec fn offered(self, found: Option<HitInfo>) -> Closest {
        match found {
            Some(h) => Closest { range: Interval { t0: self.range.t0, t1: h.t }, hit: Some(h) },
            None => self,
        }
    }

    /// After the shapes have answered with `found`, one after the other.
    pub open spec fn offered_all(self, found: Seq<Option<HitInfo>>) -> Closest
        decreases found.len(),
    {
        if found.len() == 0 {
            self
        } else {
            self.offered_all(found.drop_last()).offered(found.last())
        }
    }

    /// Each shape kept to the interval that it was asked about.
    pub open spec fn kept(self, found: Seq<Option<HitInfo>>) -> bool {
        forall|i: int|
            0 <= i < found.len() ==> (#[trigger] found[i] matches Some(h) ==> self.offered_all(
                found.take(i),
            ).range.contains(h.t))
    }

    /// Nothing found yet inside `range`.
    pub fn new(range: Interval) -> (r: Closest)
        ensures
            r.range == range,
            r.hit is None,
    {
        Closest { range, hit: None }
    }

    /// The interval to ask the next shape about.
    pub fn range(&self) -> (r: Interval)
        ensures
            r == self.range,
    {
        self.range
    }

    /// Takes the answer of the next shape.
    pub fn offer(&mut self, found: Option<HitInfo>)
        ensures
            *final(self) == old(self).offered(found),
    {
        match found {
            Some(h) => {
                self.range = Interval::new(self.range.t0, h.t);
                self.hit = Some(h);
            },
            None => {},
        }
    }

    /// The hit of the row: the last one found.
    pub fn finish(self) -> (r: Option<HitInfo>)
        ensures
            r == self.hit,
    {
        self.hit
    }
}

/// What the shapes answer that have one meeting with the ray each, the
/// `i`-th at `meetings[i]`, when they are asked one after the other.
pub open spec fn answers(start: Closest, meetings: Seq<HitInfo>) -> Seq<Option<HitInfo>>
    decreases meetings.len(),
{
    if meetings.len() == 0 {
        Seq::empty()
    } else {
        let before = answers(start, meetings.drop_last());
        before.push(start.offered_all(before).range.sifted(meetings.last()))
    }
}

/// The hit of a row of shapes is the nearest of the hits found.  If every
/// shape keeps to the interval that it is asked about, then what remains
/// lies inside the interval that the row was asked about, was found by one
/// of the shapes, and lies before every other hit found.  Nothing remains
/// only if nothing was found.
pub proof fn lemma_closest_is_nearest(start: Closest, found: Seq<Option<HitInfo>>)
    requires
        start.hit is None,
        start.kept(found),
    ensures
        ({
            let end = start.offered_all(found);
            &&& end.range.t0 == start.range.t0
            &&& end.hit is None <==> forall|i: int| 0 <= i < found.len() ==> found[i] is None
            &&& end.hit is None ==> end.range == start.range
            &&& end.hit matches Some(e) ==> {
                &&& end.range.t1 == e.t
                &&& start.range.contains(e.t)
                &&& exists|i: int| 0 <= i < found.len() && found[i] == Some(e)
                &&& forall|i: int|
                    0 <= i < found.len() ==> (#[trigger] found[i] matches Some(h) ==> e.t.lt(h.t)
                        || h == e)
            }
        }),
    decreases found.len(),
{
    if found.len() > 0 {
        let before = found.drop_last();
        assert forall|i: int| 0 <= i < before.len() implies (#[trigger] before[i] matches Some(h)
            ==> start.offered_all(before.take(i)).range.contains(h.t)) by {
            assert(before.take(i) == found.take(i));
            assert(before[i] == found[i]);
        }
        lemma_closest_is_nearest(start, before);
        let mid = start.offered_all(before);
        let end = start.offered_all(found);
        assert(found.take(found.len() - 1) == before);
        assert(found[found.len() - 1] == found.last());
        match found.last() {
            Some(g) => {
                assert(mid.range.contains(g.t));
                assert(found[found.len() - 1] == Some(g));
                assert forall|i: int| 0 <= i < found.len() implies (#[trigger] found[i] matches Some(
                    h,
                ) ==> g.t.lt(h.t) || h == g) by {
                    if i < before.len() {
                        assert(before[i] == found[i]);
                    }
                }
            },
            None => {
                assert forall|i: int| 0 <= i < found.len() implies (#[trigger] found[i] matches Some(
                    h,
                ) ==> mid.hit matches Some(e) && (e.t.lt(h.t) || h == e)) by {
                    if i < before.len() {
                        assert(before[i] == found[i]);
                    }
                }
                if mid.hit is Some {
                    let j = choose|j: int| 0 <= j < before.len() && before[j] == mid.hit;
                    assert(found[j] == before[j]);
                }
                if forall|i: int| 0 <= i < found.len() ==> found[i] is None {
                    assert forall|i: int| 0 <= i < before.len() implies before[i] is None by {
                        assert(before[i] == found[i]);
                    }
                }
                if forall|i: int| 0 <= i < before.len() ==> before[i] is None {
                    assert forall|i: int| 0 <= i < found.len() implies found[i] is None by {
                        if i < before.len() {
                            assert(before[i] == found[i]);
                        }
                    }
                }
            },
        }
    }
}

/// The hit of a row of shapes is the nearest meeting inside the interval,
/// in whatever order the shapes stand.  Of shapes with one meeting each,
/// the row reports a meeting that lies inside the interval it was asked
/// about, and no meeting inside that interval lies before it; it reports
/// nothing only if no meeting lies inside.
pub proof fn lemma_nearest_of_all(start: Closest, meetings: Seq<HitInfo>)
    requires
        start.hit is None,
    ensures
        ({
            let end = start.offered_all(answers(start, meetings));
            &&& end.range.t0 == start.range.t0
            &&& end.hit is None ==> end.range == start.range
            &&& end.hit is None <==> forall|i: int|
                0 <= i < meetings.len() ==> !start.range.contains(#[trigger] meetings[i].t)
            &&& end.hit matches Some(e) ==> {
                &&& end.range.t1 == e.t
                &&& start.range.contains(e.t)
                &&& exists|i: int| 0 <= i < meetings.len() && meetings[i] == e
                &&& forall|i: int|
                    0 <= i < meetings.len() && start.range.contains(#[trigger] meetings[i].t)
                        ==> e.t.le(meetings[i].t)
            }
        }),
    decreases meetings.len(),
{
    if meetings.len() > 0 {
        let early = meetings.drop_last();
        let last = meetings.last();
        lemma_nearest_of_all(start, early);
        let before = answers(start, early);
        let mid = start.offered_all(before);
        let answer = mid.range.sifted(last);
        let found = answers(start, meetings);
        assert(found == before.push(answer));
        assert(found.drop_last() == before);
        assert(found.last() == answer);
        let end = start.offered_all(found);
        assert(end == mid.offered(answer));
        let n = early.len() as int;
        assert(meetings[n] == last);
        assert forall|i: int| 0 <= i < n implies #[trigger] meetings[i] == early[i] by {}
        if mid.range.contains(last.t) {
            assert(end.hit == Some(last));
            assert(start.range.contains(last.t));
            assert forall|i: int|
                0 <= i < meetings.len() && start.range.contains(
                    #[trigger] meetings[i].t,
                ) implies last.t.le(meetings[i].t) by {
                if i < n {
                    assert(meetings[i] == early[i]);
                    assert(start.range.contains(early[i].t));
                }
            }
        } else {
            assert(end == mid);
            if mid.hit is Some {
                let e = mid.hit->0;
                let j = choose|j: int| 0 <= j < early.len() && early[j] == e;
                assert(meetings[j] == e);
                assert forall|i: int|
                    0 <= i < meetings.len() && start.range.contains(
                        #[trigger] meetings[i].t,
                    ) implies e.t.le(meetings[i].t) by {
                    if i < n {
                        assert(meetings[i] == early[i]);
                        assert(start.range.contains(early[i].t));
                    }
                }
            } else {
                assert forall|i: int| 0 <= i < meetings.len() implies !start.range.contains(
                    #[trigger] meetings[i].t,
                ) by {
                    if i < n {
                        assert(meetings[i] == early[i]);
                    }
                }
            }
        }
    }
}

/// Of two shapes that a ray meets inside the interval, the row reports the
/// nearer, whichever of the two stands first.
pub proof fn lemma_either_order(start: Closest, near: HitInfo, far: HitInfo)
    requires
        start.hit is None,
        start.range.contains(near.t),
        start.range.contains(far.t),
        near.t.lt(far.t),
    ensures
        start.offered_all(answers(start, seq![near, far])).hit == Some(near),
        start.offered_all(answers(start, seq![far, near])).hit == Some(near),
{
    let a = seq![near, far];
    let b = seq![far, near];
    lemma_nearest_of_all(start, a);
    lemma_nearest_of_all(start, b);
    assert(a[0] == near && a[1] == far);
    assert(b[0] == far && b[1] == near);
    assert(start.range.contains(a[0].t));
    assert(start.range.contains(b[1].t));
    assert(start.range.contains(a[1].t));
    assert(start.range.contains(b[0].t));
}

} // verus!
