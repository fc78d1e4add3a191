//! Materials: whether and where a ray goes on from a surface.
//!
//! The directions are arithmetic and come from the caller.  What is decided
//! here is which of them the path takes, and whether it takes any.

use vstd::prelude::*;
use crate::float3::Float3;
use crate::float3::one;
use crate::math::refracted;
use crate::ray::Ray;
use crate::scalar::Scalar;
use crate::scalar::ONE_BITS;
use crate::texture::Texture;

verus! {

/// How a path goes on: the scattered ray and the share of the light that
/// the surface keeps, colour by colour.
#[derive(Clone, Copy, Debug, PartialEq, Eq, Structural)]
pub struct ScatterInfo {
    pub ray: Ray,
    pub albedo: Float3,
}

impl ScatterInfo {
    /// The scattered ray with its attenuation.
    pub fn new(ray: Ray, albedo: Float3) -> (r: ScatterInfo)
        ensures
            r.ray == ray,
            r.albedo == albedo,
    {
        ScatterInfo { ray, albedo }
    }
}

/// A material of one of the four kinds.
#[derive(Debug, PartialEq, Eq)]
pub enum Material {
    Lambertian(Lambertian),
    Metal(Metal),
    Dielectric(Dielectric),
    DiffuseLight(DiffuseLight),
}

impl Material {
    /// The numbers of the material are in their ranges: the roughness of a
    /// mirror, the refractive index of a clear medium, the intensity of a
    /// light.  A matt surface has no number.
    pub open spec fn wf(self) -> bool {
        match self {
            Material::Lambertian(_) => true,
            Material::Metal(m) => m.wf(),
            Material::Dielectric(m) => m.wf(),
            Material::DiffuseLight(m) => m.wf(),
        }
    }

    /// Whether the numbers of the material are in their ranges.
    pub fn is_wf(&self) -> (r: bool)
        ensures
            r == self.wf(),
    {
        match self {
            Material::Lambertian(_) => true,
            Material::Metal(m) => m.is_wf(),
            Material::Dielectric(m) => m.is_wf(),
            Material::DiffuseLight(m) => m.is_wf(),
        }
    }

    /// The material gives off light of its own.
    pub open spec fn emits(self) -> bool {
        self is DiffuseLight
    }

    /// The light, if the material is one.
    pub fn light(&self) -> (r: Option<&DiffuseLight>)
        ensures
            r is Some == self.emits(),
            r matches Some(l) ==> *self == Material::DiffuseLight(*l),
    {
        match self {
            Material::DiffuseLight(l) => Some(l),
            _ => None,
        }
    }

    /// What the surface gives off.  `glow` is what a light gives off at the
    /// point; every other material gives off nothing.
    pub fn emited(&self, glow: Float3) -> (r: Float3)
        ensures
            self.emits() ==> r == glow,
            !self.emits() ==> r.x.bits == 0 && r.y.bits == 0 && r.z.bits == 0,
    {
        match self {
            Material::DiffuseLight(_) => glow,
            _ => crate::float3::zero(),
        }
    }
}

/// A matt surface.
#[derive(Debug, PartialEq, Eq)]
pub struct Lambertian {
    pub albedo: Box<Texture>,
}

impl Lambertian {
    /// The matt surface coloured by `albedo`.
    pub fn new(albedo: Box<Texture>) -> (r: Lambertian)
        ensures
            r.albedo == albedo,
    {
        Lambertian { albedo }
    }

    /// A matt surface scatters every ray: from the point `p` along
    /// `direction`, attenuated by `albedo`, the texture's colour there.
    pub fn scatter(&self, p: Float3, direction: Float3, albedo: Float3) -> (r: Option<ScatterInfo>)
        ensures
            r == Some(ScatterInfo { ray: Ray { origin: p, direction: direction }, albedo: albedo }),
    {
        Some(ScatterInfo::new(Ray::new(p, direction), albedo))
    }
}

/// A mirror, the rougher the larger `fuzz`.
#[derive(Debug, PartialEq, Eq)]
pub struct Metal {
    pub albedo: Box<Texture>,
    pub fuzz: Scalar,
}

impl Metal {
    /// The roughness lies between 0 and 1, both counted in.
    pub open spec fn wf(self) -> bool {
        (Scalar { bits: 0 }).le(self.fuzz) && self.fuzz.le(Scalar { bits: ONE_BITS })
    }

    /// Whether the roughness lies between 0 and 1.
    pub fn is_wf(&self) -> (r: bool)
        ensures
            r == self.wf(),
    {
        Scalar::new_zero().is_at_most(&self.fuzz) && self.fuzz.is_at_most(&Scalar::new_one())
    }

    /// The mirror coloured by `albedo` and roughened by `fuzz`.
    pub fn new(albedo: Box<Texture>, fuzz: Scalar) -> (r: Metal)
        ensures
            r.albedo == albedo,
            r.fuzz == fuzz,
    {
        Metal { albedo, fuzz }
    }

    /// The reflected ray, if it leaves the surface.  `reflected` is the
    /// mirrored direction after roughening and `leaving` its dot product
    /// with the surface normal: the ray goes on from `p` if and only if
    /// `leaving > 0`, and is absorbed otherwise.
    pub open spec fn scattered(p: Float3, reflected: Float3, leaving: Scalar, albedo: Float3)
        -> Option<ScatterInfo> {
        if leaving.positive() {
            Some(ScatterInfo { ray: Ray { origin: p, direction: reflected }, albedo: albedo })
        } else {
            None
        }
    }

    /// The reflected ray from `p`, attenuated by `albedo`, if it leaves the
    /// surface.
    pub fn scatter(&self, p: Float3, reflected: Float3, leaving: Scalar, albedo: Float3) -> (r:
        Option<ScatterInfo>)
        ensures
            r == Self::scattered(p, reflected, leaving, albedo),
    {
        if leaving.is_positive() {
            Some(ScatterInfo::new(Ray::new(p, reflected), albedo))
        } else {
            None
        }
    }
}

/// On which side of a surface a ray arrives.
#[derive(Clone, Copy, Debug, PartialEq, Eq, Structural)]
pub enum Side {
    /// Against the normal: the ray enters the medium.
    Entering,
    /// Along the normal: the ray leaves the medium.
    Leaving,
}

/// Glass and the like.
#[derive(Clone, Copy, Debug, PartialEq, Eq, Structural)]
pub struct Dielectric {
    pub ri: Scalar,
}

impl Dielectric {
    /// The refractive index is above zero.
    pub open spec fn wf(self) -> bool {
        self.ri.positive()
    }

    /// Whether the refractive index is above zero.
    pub fn is_wf(&self) -> (r: bool)
        ensures
            r == self.wf(),
    {
        self.ri.is_positive()
    }

    /// The medium with refractive index `ri`.
    pub fn new(ri: Scalar) -> (r: Dielectric)
        ensures
            r.ri == ri,
    {
        Dielectric { ri }
    }

    /// The side a ray arrives on, from the dot product of its direction
    /// with the normal: it leaves the medium if and only if `dot > 0`.
    pub fn side(dot: Scalar) -> (r: Side)
        ensures
            r == if dot.positive() {
                Side::Leaving
            } else {
                Side::Entering
            },
    {
        if dot.is_positive() {
            Side::Leaving
        } else {
            Side::Entering
        }
    }

    /// The normal that points against the arriving ray: the surface normal
    /// for a ray that enters, its opposite for one that leaves.
    pub fn outward_normal(side: Side, n: Float3) -> (r: Float3)
        ensures
            r == match side {
                Side::Entering => n,
                Side::Leaving => n.opposite(),
            },
    {
        match side {
            Side::Entering => n,
            Side::Leaving => n.negated(),
        }
    }

    /// The direction that the path takes: the refracted one if there is
    /// one and `draw`, uniform in `[0, 1)`, exceeds `reflectance`, the
    /// share of the light that the boundary reflects; else the reflected
    /// one.
    pub open spec fn chosen(
        reflected: Float3,
        refracted: Option<Float3>,
        draw: Scalar,
        reflectance: Scalar,
    ) -> Float3 {
        match refracted {
            Some(d) => if reflectance.lt(draw) {
                d
            } else {
                reflected
            },
            None => reflected,
        }
    }

    /// A clear medium scatters every ray and keeps all of its light: the
    /// ray goes on from `p` along the chosen direction, attenuated by
    /// `(1, 1, 1)`.
    pub fn scatter(
        &self,
        p: Float3,
        reflected: Float3,
        refracted: Option<Float3>,
        draw: Scalar,
        reflectance: Scalar,
    ) -> (r: Option<ScatterInfo>)
        ensures
            r matches Some(s) && s.ray.origin == p && s.ray.direction == Self::chosen(
                reflected,
                refracted,
                draw,
                reflectance,
            ) && s.albedo.x.bits == ONE_BITS && s.albedo.y.bits == ONE_BITS && s.albedo.z.bits
                == ONE_BITS,
    {
        let direction = match refracted {
            Some(d) => if reflectance.is_less_than(&draw) {
                d
            } else {
                reflected
            },
            None => reflected,
        };
        Some(ScatterInfo::new(Ray::new(p, direction), one()))
    }
}

/// Under total internal reflection the path is reflected, whatever is
/// drawn.
pub proof fn lemma_total_reflection(
    k: Scalar,
    bent: Float3,
    reflected: Float3,
    draw: Scalar,
    reflectance: Scalar,
)
    requires
        k.negative(),
    ensures
        Dielectric::chosen(reflected, refracted(k, bent), draw, reflectance) == reflected,
{
}

/// A mirror absorbs the ray that runs along its surface: at `leaving == 0`
/// there is no scattered ray, and there is none below zero.
pub proof fn lemma_grazing_is_absorbed(
    p: Float3,
    reflected: Float3,
    leaving: Scalar,
    albedo: Float3,
)
    requires
        leaving.zero() || leaving.negative(),
    ensures
        Metal::scattered(p, reflected, leaving, albedo) is None,
{
}

/// A surface that shines.
#[derive(Debug, PartialEq, Eq)]
pub struct DiffuseLight {
    pub emit: Box<Texture>,
    pub intensity: Scalar,
}

impl DiffuseLight {
    /// The intensity is zero or above.
    pub open spec fn wf(self) -> bool {
        (Scalar { bits: 0 }).le(self.intensity)
    }

    /// Whether the intensity is zero or above.
    pub fn is_wf(&self) -> (r: bool)
        ensures
            r == self.wf(),
    {
        Scalar::new_zero().is_at_most(&self.intensity)
    }

    /// The light coloured by `emit`, `intensity` times as bright.
    pub fn new(emit: Box<Texture>, intensity: Scalar) -> (r: DiffuseLight)
        ensures
            r.emit == emit,
            r.intensity == intensity,
    {
        DiffuseLight { emit, intensity }
    }

    /// A light scatters nothing: every path ends on it.
    pub fn scatter(&self) -> (r: Option<ScatterInfo>)
        ensures
            r is None,
    {
        None
    }
}

} // verus!
