use rayt::camera::Camera;
use rayt::float3;
use rayt::float3::Float3;
use rayt::scalar::Scalar;
use rayt::scene::strewn_material;
use rayt::scene::trace;
use rayt::scene::trace_range;
use rayt::scene::Strewn;
use rayt::scene::Trace;
use rayt::scene::MATT_SHARE_BITS;
use rayt::scene::MIRROR_SHARE_BITS;
use rayt::scene::MAX_RAY_BOUNCE_DEPTH;
use rayt::scene::SHADOW_EPSILON_BITS;

fn s(x: f64) -> Scalar {
    Scalar::from_bits(x.to_bits())
}

fn v(x: f64, y: f64, z: f64) -> Float3 {
    float3::new(s(x), s(y), s(z))
}

#[test]
fn depth_termination() {
    assert_eq!(trace(true, 0), Trace::Emitted);
    assert_eq!(trace(false, 0), Trace::Background);
}

#[test]
fn a_miss_is_the_background_at_every_depth() {
    for depth in [0, 1, 2, 49, 50, usize::MAX] {
        assert_eq!(trace(false, depth), Trace::Background);
    }
}

#[test]
fn a_hit_above_depth_zero_asks_for_scattering_one_level_down() {
    assert_eq!(trace(true, 1), Trace::Scatter { depth: 0 });
    assert_eq!(trace(true, 50), Trace::Scatter { depth: 49 });
    assert_eq!(trace(true, usize::MAX), Trace::Scatter { depth: usize::MAX - 1 });
}

#[test]
fn a_path_that_always_scatters_ends_after_max_depth_bounces() {
    let mut depth = MAX_RAY_BOUNCE_DEPTH;
    let mut bounces = 0;
    loop {
        match trace(true, depth) {
            Trace::Scatter { depth: next } => {
                bounces += 1;
                depth = next;
            }
            Trace::Emitted => break,
            Trace::Background => unreachable!(),
        }
    }
    assert_eq!(bounces, 50);
    assert_eq!(depth, 0);
}

/// The estimator as a caller of the library writes it, on one number in
/// place of a colour: every surface gives off `emitted` and keeps `albedo`
/// of the light; `scattered` counts the calls of scatter.
fn radiance(depth: usize, emitted: f64, albedo: f64, scattered: &mut usize) -> f64 {
    match trace(true, depth) {
        Trace::Background => 0.0,
        Trace::Emitted => emitted,
        Trace::Scatter { depth: next } => {
            *scattered += 1;
            emitted + radiance(next, emitted, albedo, scattered) * albedo
        }
    }
}

#[test]
fn estimator_adds_attenuated_light() {
    let mut scattered = 0;
    assert_eq!(radiance(0, 1.0, 0.5, &mut scattered), 1.0);
    assert_eq!(scattered, 0);
    assert_eq!(radiance(1, 1.0, 0.5, &mut scattered), 1.5);
    assert_eq!(scattered, 1);
    scattered = 0;
    assert_eq!(radiance(3, 1.0, 0.5, &mut scattered), 1.875);
    assert_eq!(scattered, 3);
    scattered = 0;
    assert_eq!(radiance(50, 0.0, 0.5, &mut scattered), 0.0);
    assert_eq!(scattered, 50);
}

#[test]
fn traced_rays_start_just_off_the_surface() {
    assert_eq!(SHADOW_EPSILON_BITS, 0.001f64.to_bits());
    let range = trace_range();
    assert_eq!(range.t0, s(0.001));
    assert_eq!(range.t1, s(f64::INFINITY));
    assert!(range.holds(s(0.0011)));
    assert!(!range.holds(s(0.001)));
    assert!(!range.holds(s(0.0)));
    assert!(range.holds(s(f64::MAX)));
    assert!(!range.holds(s(f64::INFINITY)));
    assert!(range.holds(s(1e300)));
}

#[test]
fn camera_looks_from_the_origin() {
    let c = Camera::new(v(4.0, 0.0, 0.0), v(0.0, 2.0, 0.0), v(-2.0, -1.0, -1.0));
    assert_eq!(c.origin, v(0.0, 0.0, 0.0));
    assert_eq!(c.u, v(4.0, 0.0, 0.0));
    assert_eq!(c.v, v(0.0, 2.0, 0.0));
    assert_eq!(c.w, v(-2.0, -1.0, -1.0));
}

#[test]
fn strewn_spheres_take_their_material_by_lot() {
    assert_eq!(MATT_SHARE_BITS, 0.8f64.to_bits());
    assert_eq!(MIRROR_SHARE_BITS, 0.95f64.to_bits());
    assert_eq!(strewn_material(s(0.0)), Strewn::Matt);
    assert_eq!(strewn_material(s(0.7999999999999999)), Strewn::Matt);
    assert_eq!(strewn_material(s(0.8)), Strewn::Mirror);
    assert_eq!(strewn_material(s(0.9)), Strewn::Mirror);
    assert_eq!(strewn_material(s(0.95)), Strewn::Glass);
    assert_eq!(strewn_material(s(0.999)), Strewn::Glass);
    assert_eq!(strewn_material(s(f64::NAN)), Strewn::Glass);
}
