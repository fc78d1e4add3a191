use rayt::float3;
use rayt::float3::Float3;
use rayt::material::Dielectric;
use rayt::material::Material;
use rayt::quat::Quat;
use rayt::ray::HitInfo;
use rayt::ray::Interval;
use rayt::ray::Meeting;
use rayt::ray::Ray;
use rayt::scalar::Scalar;
use rayt::scene::trace_range;
use rayt::shape::Closest;
use rayt::shape::Cube;
use rayt::shape::Rect;
use rayt::shape::RectAxisType;
use rayt::shape::Shape;
use rayt::shape::ShapeList;
use rayt::shape::Sphere;
use std::sync::Arc;

fn s(x: f64) -> Scalar {
    Scalar::from_bits(x.to_bits())
}

fn v(x: f64, y: f64, z: f64) -> Float3 {
    float3::new(s(x), s(y), s(z))
}

fn glass() -> Arc<Material> {
    Arc::new(Material::Dielectric(Dielectric::new(s(1.5))))
}

fn dot(a: [f64; 3], b: [f64; 3]) -> f64 {
    a[0] * b[0] + a[1] * b[1] + a[2] * b[2]
}

/// The arithmetic of a ray on a sphere, as a caller of the library does it.
fn sphere_hit(
    sphere: &Sphere,
    center: [f64; 3],
    radius: f64,
    origin: [f64; 3],
    direction: [f64; 3],
    range: &Interval,
) -> Option<HitInfo> {
    let oc = [origin[0] - center[0], origin[1] - center[1], origin[2] - center[2]];
    let a = dot(direction, direction);
    let b = 2.0 * dot(direction, oc);
    let c = dot(oc, oc) - radius * radius;
    let d = b * b - 4.0 * a * c;
    let meet = |t: f64| {
        let p = [
            origin[0] + t * direction[0],
            origin[1] + t * direction[1],
            origin[2] + t * direction[2],
        ];
        let n = [
            (p[0] - center[0]) / radius,
            (p[1] - center[1]) / radius,
            (p[2] - center[2]) / radius,
        ];
        Meeting::new(s(t), v(p[0], p[1], p[2]), v(n[0], n[1], n[2]), s(0.0), s(0.0))
    };
    let near = meet((-b - d.sqrt()) / (2.0 * a));
    let far = meet((-b + d.sqrt()) / (2.0 * a));
    sphere.hit(range, s(d), near, far)
}

#[test]
fn sphere_intersection() {
    let sphere = Sphere::new(v(0.0, 0.0, -1.0), s(0.5), glass());
    let range = Interval::new(s(0.001), s(f64::INFINITY));
    let hit = sphere_hit(&sphere, [0.0, 0.0, -1.0], 0.5, [0.0; 3], [0.0, 0.0, -1.0], &range)
        .unwrap();
    assert_eq!(hit.t, s(0.5));
    assert_eq!(hit.p, v(0.0, 0.0, -0.5));
    assert_eq!(hit.n, v(0.0, 0.0, 1.0));
    assert_eq!(hit.m, glass());
}

#[test]
fn sphere_no_intersection() {
    let sphere = Sphere::new(v(0.0, 0.0, -1.0), s(0.5), glass());
    let range = Interval::new(s(0.001), s(f64::INFINITY));
    let hit = sphere_hit(&sphere, [0.0, 0.0, -1.0], 0.5, [0.0; 3], [1.0, 0.0, 0.0], &range);
    assert_eq!(hit, None);
}

#[test]
fn sphere_takes_the_far_root_from_inside() {
    let sphere = Sphere::new(v(0.0, 0.0, 0.0), s(2.0), glass());
    let hit = sphere_hit(&sphere, [0.0; 3], 2.0, [0.0; 3], [0.0, 1.0, 0.0], &trace_range())
        .unwrap();
    assert_eq!(hit.t, s(2.0));
    assert_eq!(hit.p, v(0.0, 2.0, 0.0));
}

#[test]
fn sphere_roots_outside_the_interval_do_not_count() {
    let sphere = Sphere::new(v(0.0, 0.0, -1.0), s(0.5), glass());
    let short = Interval::new(s(0.001), s(0.5));
    assert_eq!(
        sphere_hit(&sphere, [0.0, 0.0, -1.0], 0.5, [0.0; 3], [0.0, 0.0, -1.0], &short),
        None
    );
    let between = Interval::new(s(0.5), s(1.5));
    assert_eq!(
        sphere_hit(&sphere, [0.0, 0.0, -1.0], 0.5, [0.0; 3], [0.0, 0.0, -1.0], &between),
        None
    );
    let far_only = Interval::new(s(0.5), s(1.6));
    let hit = sphere_hit(&sphere, [0.0, 0.0, -1.0], 0.5, [0.0; 3], [0.0, 0.0, -1.0], &far_only)
        .unwrap();
    assert_eq!(hit.t, s(1.5));
}

#[test]
fn sphere_touched_by_a_ray_is_not_hit() {
    let sphere = Sphere::new(v(0.0, 0.0, -1.0), s(0.5), glass());
    let m = Meeting::new(s(1.0), v(0.5, 0.0, -1.0), v(1.0, 0.0, 0.0), s(0.0), s(0.0));
    assert_eq!(sphere.hit(&trace_range(), s(0.0), m, m), None);
    assert_eq!(sphere.hit(&trace_range(), s(-0.0), m, m), None);
    assert_eq!(sphere.hit(&trace_range(), s(-3.0), m, m), None);
    assert_eq!(sphere.hit(&trace_range(), s(f64::NAN), m, m), None);
    assert!(sphere.hit(&trace_range(), s(5e-324), m, m).is_some());
}

#[test]
fn sphere_with_a_ray_of_no_direction_is_not_hit() {
    let sphere = Sphere::new(v(0.0, 0.0, -1.0), s(0.5), glass());
    let hit = sphere_hit(&sphere, [0.0, 0.0, -1.0], 0.5, [0.0; 3], [0.0; 3], &trace_range());
    assert_eq!(hit, None);
}

fn hit_at(t: f64) -> HitInfo {
    HitInfo::new(s(t), v(0.0, 0.0, -t), v(0.0, 0.0, 1.0), glass(), s(0.0), s(0.0))
}

fn row(range: Interval, meetings: &[f64]) -> Option<HitInfo> {
    let mut closest = Closest::new(range);
    for t in meetings {
        let asked = closest.range();
        closest.offer(asked.sift(hit_at(*t)));
    }
    closest.finish()
}

#[test]
fn closest_hit_of_two_in_either_order() {
    let range = Interval::new(s(0.001), s(f64::MAX));
    assert_eq!(row(range, &[0.5, 0.3]).unwrap().t, s(0.3));
    assert_eq!(row(range, &[0.3, 0.5]).unwrap().t, s(0.3));
}

#[test]
fn closest_hit_of_many() {
    let range = Interval::new(s(0.001), s(10.0));
    assert_eq!(row(range, &[7.0, 12.0, 3.0, 0.0005, 5.0, 3.5, -1.0]).unwrap().t, s(3.0));
    assert_eq!(row(range, &[12.0, 0.0005, -1.0, 10.0, 0.001, f64::NAN]), None);
    assert_eq!(row(range, &[]), None);
}

#[test]
fn closest_hit_keeps_the_first_of_equals() {
    let range = Interval::new(s(0.001), s(10.0));
    let mut closest = Closest::new(range);
    let first = HitInfo::new(s(2.0), v(1.0, 0.0, 0.0), v(0.0, 0.0, 1.0), glass(), s(0.0), s(0.0));
    let second = HitInfo::new(s(2.0), v(2.0, 0.0, 0.0), v(0.0, 0.0, 1.0), glass(), s(0.0), s(0.0));
    closest.offer(closest.range().sift(first));
    closest.offer(closest.range().sift(second));
    assert_eq!(closest.finish().unwrap().p, v(1.0, 0.0, 0.0));
}

#[test]
fn closest_cuts_the_interval_at_each_hit() {
    let mut closest = Closest::new(Interval::new(s(0.001), s(10.0)));
    assert_eq!(closest.range(), Interval::new(s(0.001), s(10.0)));
    closest.offer(None);
    assert_eq!(closest.range(), Interval::new(s(0.001), s(10.0)));
    closest.offer(Some(hit_at(4.0)));
    assert_eq!(closest.range(), Interval::new(s(0.001), s(4.0)));
    closest.offer(None);
    closest.offer(Some(hit_at(1.0)));
    assert_eq!(closest.range(), Interval::new(s(0.001), s(1.0)));
    assert_eq!(closest.finish().unwrap().t, s(1.0));
}

#[test]
fn interval_leaves_its_ends_out() {
    let range = Interval::new(s(1.0), s(2.0));
    assert!(range.holds(s(1.5)));
    assert!(!range.holds(s(1.0)));
    assert!(!range.holds(s(2.0)));
    assert!(!range.holds(s(0.5)));
    assert!(!range.holds(s(2.5)));
    assert!(!range.holds(s(f64::NAN)));
    assert!(!Interval::new(s(f64::NAN), s(2.0)).holds(s(1.0)));
    assert!(!Interval::new(s(2.0), s(1.0)).holds(s(1.5)));
}

#[test]
fn ray_and_hit_keep_what_they_are_given() {
    let ray = Ray::new(v(1.0, 2.0, 3.0), v(0.0, 0.0, -1.0));
    assert_eq!(ray.origin, v(1.0, 2.0, 3.0));
    assert_eq!(ray.direction, v(0.0, 0.0, -1.0));
    let hit = HitInfo::new(s(0.5), v(1.0, 2.0, 2.5), v(0.0, 0.0, 1.0), glass(), s(0.25), s(0.75));
    assert_eq!((hit.t, hit.u, hit.v), (s(0.5), s(0.25), s(0.75)));
    let moved = hit.moved(v(9.0, 9.0, 9.0), v(0.0, 1.0, 0.0));
    assert_eq!(moved.p, v(9.0, 9.0, 9.0));
    assert_eq!(moved.n, v(0.0, 1.0, 0.0));
    assert_eq!((moved.t, moved.u, moved.v), (s(0.5), s(0.25), s(0.75)));
    assert_eq!(moved.m, glass());
}

#[test]
fn rect_frames() {
    let w = v(1.0, 2.0, 3.0);
    assert_eq!(RectAxisType::XY.to_canonical(w), v(1.0, 2.0, 3.0));
    assert_eq!(RectAxisType::XZ.to_canonical(w), v(1.0, 3.0, 2.0));
    assert_eq!(RectAxisType::YZ.to_canonical(w), v(2.0, 3.0, 1.0));
    for axis in [RectAxisType::XY, RectAxisType::XZ, RectAxisType::YZ] {
        assert_eq!(axis.to_world(axis.to_canonical(w)), w);
        assert_eq!(axis.to_canonical(axis.to_world(w)), w);
        assert_eq!(axis.to_canonical(axis.normal_axis()), v(0.0, 0.0, 1.0));
    }
    assert_eq!(RectAxisType::XY.normal_axis(), v(0.0, 0.0, 1.0));
    assert_eq!(RectAxisType::XZ.normal_axis(), v(0.0, 1.0, 0.0));
    assert_eq!(RectAxisType::YZ.normal_axis(), v(1.0, 0.0, 0.0));
}

/// The arithmetic of a ray on a rectangle, as a caller of the library does
/// it.
fn rect_hit(
    rect: &Rect,
    bounds: [f64; 5],
    origin: Float3,
    direction: Float3,
    range: &Interval,
) -> Option<HitInfo> {
    let f = |x: Scalar| f64::from_bits(x.to_bits());
    let o = rect.axis.to_canonical(origin);
    let d = rect.axis.to_canonical(direction);
    let [x0, x1, y0, y1, k] = bounds;
    let t = (k - f(o.z)) / f(d.z);
    let x = f(o.x) + t * f(d.x);
    let y = f(o.y) + t * f(d.y);
    let p = v(
        f(origin.x) + t * f(direction.x),
        f(origin.y) + t * f(direction.y),
        f(origin.z) + t * f(direction.z),
    );
    rect.hit(range, s(t), s(x), s(y), p, s((x - x0) / (x1 - x0)), s((y - y0) / (y1 - y0)))
}

#[test]
fn rect_hit_inside_its_bounds() {
    let rect = Rect::new(s(-1.0), s(1.0), s(-2.0), s(2.0), s(-3.0), RectAxisType::XY, glass());
    let hit = rect_hit(
        &rect,
        [-1.0, 1.0, -2.0, 2.0, -3.0],
        v(0.5, 1.0, 0.0),
        v(0.0, 0.0, -1.0),
        &trace_range(),
    )
    .unwrap();
    assert_eq!(hit.t, s(3.0));
    assert_eq!(hit.p, v(0.5, 1.0, -3.0));
    assert_eq!(hit.n, v(0.0, 0.0, 1.0));
    assert_eq!(hit.u, s(0.75));
    assert_eq!(hit.v, s(0.75));
}

#[test]
fn rect_hit_across_the_y_axis() {
    let rect = Rect::new(s(0.0), s(4.0), s(0.0), s(8.0), s(1.0), RectAxisType::XZ, glass());
    let hit = rect_hit(
        &rect,
        [0.0, 4.0, 0.0, 8.0, 1.0],
        v(1.0, 3.0, 2.0),
        v(0.0, -1.0, 0.0),
        &trace_range(),
    )
    .unwrap();
    assert_eq!(hit.t, s(2.0));
    assert_eq!(hit.p, v(1.0, 1.0, 2.0));
    assert_eq!(hit.n, v(0.0, 1.0, 0.0));
    assert_eq!(hit.u, s(0.25));
    assert_eq!(hit.v, s(0.25));
}

#[test]
fn rect_hit_across_the_x_axis() {
    let rect = Rect::new(s(0.0), s(4.0), s(0.0), s(8.0), s(1.0), RectAxisType::YZ, glass());
    let hit = rect_hit(
        &rect,
        [0.0, 4.0, 0.0, 8.0, 1.0],
        v(3.0, 1.0, 6.0),
        v(-1.0, 0.0, 0.0),
        &trace_range(),
    )
    .unwrap();
    assert_eq!(hit.t, s(2.0));
    assert_eq!(hit.p, v(1.0, 1.0, 6.0));
    assert_eq!(hit.n, v(1.0, 0.0, 0.0));
    assert_eq!(hit.u, s(0.25));
    assert_eq!(hit.v, s(0.75));
}

#[test]
fn rect_misses() {
    let rect = Rect::new(s(-1.0), s(1.0), s(-2.0), s(2.0), s(-3.0), RectAxisType::XY, glass());
    let b = [-1.0, 1.0, -2.0, 2.0, -3.0];
    let down = v(0.0, 0.0, -1.0);
    assert_eq!(rect_hit(&rect, b, v(1.5, 0.0, 0.0), down, &trace_range()), None);
    assert_eq!(rect_hit(&rect, b, v(0.0, -2.5, 0.0), down, &trace_range()), None);
    assert_eq!(rect_hit(&rect, b, v(0.0, 0.0, 0.0), v(0.0, 0.0, 1.0), &trace_range()), None);
    assert_eq!(rect_hit(&rect, b, v(0.0, 0.0, 0.0), v(1.0, 0.0, 0.0), &trace_range()), None);
    assert_eq!(rect_hit(&rect, b, v(0.0, 0.0, -3.0), v(1.0, 0.0, 0.0), &trace_range()), None);
    let short = Interval::new(s(0.001), s(3.0));
    assert_eq!(rect_hit(&rect, b, v(0.0, 0.0, 0.0), down, &short), None);
    let late = Interval::new(s(3.0), s(9.0));
    assert_eq!(rect_hit(&rect, b, v(0.0, 0.0, 0.0), down, &late), None);
}

#[test]
fn rect_counts_its_edges_in() {
    let rect = Rect::new(s(-1.0), s(1.0), s(-2.0), s(2.0), s(-3.0), RectAxisType::XY, glass());
    assert!(rect.is_covering(s(1.0), s(2.0)));
    assert!(rect.is_covering(s(-1.0), s(-2.0)));
    assert!(rect.is_covering(s(0.0), s(0.0)));
    assert!(!rect.is_covering(s(1.0000000000000002), s(0.0)));
    assert!(!rect.is_covering(s(0.0), s(-2.0000000000000004)));
    assert!(!rect.is_covering(s(f64::NAN), s(0.0)));
    assert!(!rect.is_covering(s(0.0), s(f64::NAN)));
}

#[test]
fn shape_list_keeps_its_order() {
    let mut list = ShapeList::new();
    assert_eq!(list.objects.len(), 0);
    list.push(Shape::Sphere(Sphere::new(v(0.0, 0.0, -1.0), s(0.5), glass())));
    list.push(Shape::Rect(Rect::new(
        s(-1.0),
        s(1.0),
        s(-1.0),
        s(1.0),
        s(1.0),
        RectAxisType::XZ,
        glass(),
    )));
    assert_eq!(list.objects.len(), 2);
    assert!(matches!(list.objects[0], Shape::Sphere(_)));
    assert!(matches!(list.objects[1], Shape::Rect(_)));
}

fn face(shape: &Shape) -> (RectAxisType, Option<Quat>) {
    match shape {
        Shape::Rect(r) => {
            assert_eq!((r.x0, r.x1, r.y0, r.y1, r.k), (s(-1.0), s(1.0), s(-1.0), s(1.0), s(1.0)));
            assert_eq!(r.material, glass());
            (r.axis, None)
        }
        Shape::Transform(t) => {
            assert_eq!(t.position, None);
            assert_eq!(t.scale, None);
            (face(&t.shape).0, t.rotation)
        }
        _ => panic!("a face of a box is a rectangle"),
    }
}

#[test]
fn cube_has_six_faces() {
    let cube = Cube::new(glass());
    let faces: Vec<(RectAxisType, Option<Quat>)> =
        cube.shapes.objects.iter().map(face).collect();
    let about_x = Quat::new(s(1.0), s(0.0), s(0.0), s(0.0));
    let about_y = Quat::new(s(0.0), s(1.0), s(0.0), s(0.0));
    assert_eq!(
        faces,
        vec![
            (RectAxisType::XY, None),
            (RectAxisType::XY, Some(about_y)),
            (RectAxisType::YZ, None),
            (RectAxisType::YZ, Some(about_y)),
            (RectAxisType::XZ, None),
            (RectAxisType::XZ, Some(about_x)),
        ]
    );
}

/// A half turn as the caller computes it: q v q*, for a quaternion without
/// a scalar part.
fn turned(q: Quat, n: Float3) -> [f64; 3] {
    let f = |x: Scalar| f64::from_bits(x.to_bits());
    let (a, b) = ([f(q.x), f(q.y), f(q.z)], [f(n.x), f(n.y), f(n.z)]);
    let d = 2.0 * dot(a, b);
    [d * a[0] - b[0], d * a[1] - b[1], d * a[2] - b[2]]
}

#[test]
fn cube_faces_close_the_six_sides() {
    let cube = Cube::new(glass());
    let mut sides: Vec<[f64; 3]> = Vec::new();
    for shape in cube.shapes.objects.iter() {
        let (axis, turn) = face(shape);
        let n = axis.normal_axis();
        let out = match turn {
            Some(q) => turned(q, n),
            None => [f64::from_bits(n.x.to_bits()), f64::from_bits(n.y.to_bits()), f64::from_bits(n.z.to_bits())],
        };
        sides.push(out);
    }
    assert_eq!(
        sides,
        vec![
            [0.0, 0.0, 1.0],
            [0.0, 0.0, -1.0],
            [1.0, 0.0, 0.0],
            [-1.0, 0.0, 0.0],
            [0.0, 1.0, 0.0],
            [0.0, -1.0, 0.0],
        ]
    );
}
