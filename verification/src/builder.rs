//! Building a shape step by step: a texture, a material made of it, a shape
//! made of the material, a transform round the shape.
//!
//! Each step uses up what the step before it made.  A step whose
//! ingredient is missing is a mistake in the scene, and `requires` rules it
//! out.

use vstd::prelude::*;
use std::sync::Arc;
use crate::float3::Float3;
use crate::material::Dielectric;
use crate::material::DiffuseLight;
use crate::material::Lambertian;
use crate::material::Material;
use crate::material::Metal;
use crate::quat::Quat;
use crate::raster::RgbBuffer;
use crate::scalar::Scalar;
use crate::shape::Cube;
use crate::shape::Rect;
use crate::shape::RectAxisType;
use crate::shape::Shape;
use crate::shape::Sphere;
use crate::texture::ColorTexture;
use crate::texture::ImageTexture;
use crate::texture::Texture;
use crate::transform::Transform;

verus! {

/// A shape in the making.
#[derive(Debug, PartialEq, Eq)]
pub struct ShapeBuilder {
    pub texture: Option<Box<Texture>>,
    pub material: Option<Arc<Material>>,
    pub shape: Option<Box<Shape>>,
    pub transform: Option<Transform>,
}

impl ShapeBuilder {
    /// Nothing made yet.
    pub fn new() -> (r: ShapeBuilder)
        ensures
            r.texture is None,
            r.material is None,
            r.shape is None,
            r.transform is None,
    {
        ShapeBuilder { texture: None, material: None, shape: None, transform: None }
    }

    /// With a texture of one colour.
    pub fn color_texture(self, color: Float3) -> (r: ShapeBuilder)
        ensures
            r.texture == Some(Box::new(Texture::Color(ColorTexture { color: color }))),
            r.material == self.material,
            r.shape == self.shape,
            r.transform == self.transform,
    {
        let mut b = self;
        b.texture = Some(Box::new(Texture::Color(ColorTexture::new(color))));
        b
    }

    /// With the pixels of a decoded image as texture.
    pub fn image_texture(self, img: &RgbBuffer, scale: (Scalar, Scalar)) -> (r: ShapeBuilder)
        ensures
            r.texture matches Some(t) && *t matches Texture::Image(i) && i.spec_width()
                == img.width() && i.spec_height() == img.height() && i.spec_scale() == scale
                && forall|x: int, y: int|
                0 <= x < img.width() && 0 <= y < img.height() ==> #[trigger] i.texel(x, y)
                    == img.pixel(x as nat, y as nat),
            r.material == self.material,
            r.shape == self.shape,
            r.transform == self.transform,
    {
        let mut b = self;
        b.texture = Some(Box::new(Texture::Image(ImageTexture::new(img, scale))));
        b
    }

    /// With a material made elsewhere.
    pub fn material(self, material: Arc<Material>) -> (r: ShapeBuilder)
        ensures
            r.material == Some(material),
            r.texture == self.texture,
            r.shape == self.shape,
            r.transform == self.transform,
    {
        let mut b = self;
        b.material = Some(material);
        b
    }

    /// Makes a light of the texture.
    pub fn diffuse_light(self, intensity: Scalar) -> (r: ShapeBuilder)
        requires
            self.texture is Some,
        ensures
            r.material == Some(
                Arc::new(
                    Material::DiffuseLight(
                        DiffuseLight { emit: self.texture->0, intensity: intensity },
                    ),
                ),
            ),
            r.texture is None,
            r.shape == self.shape,
            r.transform == self.transform,
    {
        let mut b = self;
        let texture = b.texture.unwrap();
        b.material = Some(Arc::new(Material::DiffuseLight(DiffuseLight::new(texture, intensity))));
        b.texture = None;
        b
    }

    /// Makes a matt material of the texture.
    pub fn lambertian(self) -> (r: ShapeBuilder)
        requires
            self.texture is Some,
        ensures
            r.material == Some(
                Arc::new(Material::Lambertian(Lambertian { albedo: self.texture->0 })),
            ),
            r.texture is None,
            r.shape == self.shape,
            r.transform == self.transform,
    {
        let mut b = self;
        let texture = b.texture.unwrap();
        b.material = Some(Arc::new(Material::Lambertian(Lambertian::new(texture))));
        b.texture = None;
        b
    }

    /// Makes a mirror of the texture.
    pub fn metal(self, fuzz: Scalar) -> (r: ShapeBuilder)
        requires
            self.texture is Some,
        ensures
            r.material == Some(
                Arc::new(Material::Metal(Metal { albedo: self.texture->0, fuzz: fuzz })),
            ),
            r.texture is None,
            r.shape == self.shape,
            r.transform == self.transform,
    {
        let mut b = self;
        let texture = b.texture.unwrap();
        b.material = Some(Arc::new(Material::Metal(Metal::new(texture, fuzz))));
        b.texture = None;
        b
    }

    /// With a clear material.  It needs no texture, and leaves one that is
    /// there.
    pub fn dielectric(self, ri: Scalar) -> (r: ShapeBuilder)
        ensures
            r.material == Some(Arc::new(Material::Dielectric(Dielectric { ri: ri }))),
            r.texture == self.texture,
            r.shape == self.shape,
            r.transform == self.transform,
    {
        let mut b = self;
        b.material = Some(Arc::new(Material::Dielectric(Dielectric::new(ri))));
        b
    }

    /// Makes a sphere of the material.
    pub fn sphere(self, center: Float3, radius: Scalar) -> (r: ShapeBuilder)
        requires
            self.material is Some,
        ensures
            r.shape == Some(
                Box::new(
                    Shape::Sphere(
                        Sphere { center: center, radius: radius, material: self.material->0 },
                    ),
                ),
            ),
            r.material is None,
            r.texture == self.texture,
            r.transform == self.transform,
    {
        let mut b = self;
        let material = b.material.unwrap();
        b.shape = Some(Box::new(Shape::Sphere(Sphere::new(center, radius, material))));
        b.material = None;
        b
    }

    /// Makes a box of the material.
    pub fn cube(self) -> (r: ShapeBuilder)
        requires
            self.material is Some,
        ensures
            r.shape matches Some(s) && *s matches Shape::Cube(c) && c.made_of(self.material->0),
            r.material is None,
            r.texture == self.texture,
            r.transform == self.transform,
    {
        let mut b = self;
        let material = b.material.unwrap();
        b.shape = Some(Box::new(Shape::Cube(Cube::new(material))));
        b.material = None;
        b
    }

    fn rect(self, x0: Scalar, x1: Scalar, y0: Scalar, y1: Scalar, k: Scalar, axis: RectAxisType) -> (r:
        ShapeBuilder)
        requires
            self.material is Some,
        ensures
            r.shape == Some(
                Box::new(
                    Shape::Rect(
                        Rect {
                            x0: x0,
                            x1: x1,
                            y0: y0,
                            y1: y1,
                            k: k,
                            axis: axis,
                            material: self.material->0,
                        },
                    ),
                ),
            ),
            r.material is None,
            r.texture == self.texture,
            r.transform == self.transform,
    {
        let mut b = self;
        let material = b.material.unwrap();
        b.shape = Some(Box::new(Shape::Rect(Rect::new(x0, x1, y0, y1, k, axis, material))));
        b.material = None;
        b
    }

    /// Makes a rectangle across the z axis of the material.
    pub fn rect_xy(self, x0: Scalar, x1: Scalar, y0: Scalar, y1: Scalar, k: Scalar) -> (r:
        ShapeBuilder)
        requires
            self.material is Some,
        ensures
            r.shape == Some(
                Box::new(
                    Shape::Rect(
                        Rect {
                            x0: x0,
                            x1: x1,
                            y0: y0,
                            y1: y1,
                            k: k,
                            axis: RectAxisType::XY,
                            material: self.material->0,
                        },
                    ),
                ),
            ),
            r.material is None,
            r.texture == self.texture,
            r.transform == self.transform,
    {
        self.rect(x0, x1, y0, y1, k, RectAxisType::XY)
    }

    /// Makes a rectangle across the y axis of the material.
    pub fn rect_xz(self, x0: Scalar, x1: Scalar, y0: Scalar, y1: Scalar, k: Scalar) -> (r:
        ShapeBuilder)
        requires
            self.material is Some,
        ensures
            r.shape == Some(
                Box::new(
                    Shape::Rect(
                        Rect {
                            x0: x0,
                            x1: x1,
                            y0: y0,
                            y1: y1,
                            k: k,
                            axis: RectAxisType::XZ,
                            material: self.material->0,
                        },
                    ),
                ),
            ),
            r.material is None,
            r.texture == self.texture,
            r.transform == self.transform,
    {
        self.rect(x0, x1, y0, y1, k, RectAxisType::XZ)
    }

    /// Makes a rectangle across the x axis of the material.
    pub fn rect_yz(self, x0: Scalar, x1: Scalar, y0: Scalar, y1: Scalar, k: Scalar) -> (r:
        ShapeBuilder)
        requires
            self.material is Some,
        ensures
            r.shape == Some(
                Box::new(
                    Shape::Rect(
                        Rect {
                            x0: x0,
                            x1: x1,
                            y0: y0,
                            y1: y1,
                            k: k,
                            axis: RectAxisType::YZ,
                            material: self.material->0,
                        },
                    ),
                ),
            ),
            r.material is None,
            r.texture == self.texture,
            r.transform == self.transform,
    {
        self.rect(x0, x1, y0, y1, k, RectAxisType::YZ)
    }

    /// Puts the shape into a frame of its own, not yet moved, turned or
    /// stretched.
    pub fn build_transform(self) -> (r: ShapeBuilder)
        requires
            self.shape is Some,
        ensures
            r.transform == Some(
                Transform { shape: self.shape->0, position: None, rotation: None, scale: None },
            ),
            r.shape is None,
            r.texture == self.texture,
            r.material == self.material,
    {
        let mut b = self;
        let shape = b.shape.unwrap();
        b.transform = Some(Transform::new(shape));
        b.shape = None;
        b
    }

    /// Where the shape stands so far, if it has a frame of its own.
    pub fn position_or_zero(&self) -> (r: Option<Float3>)
        ensures
            r == match self.transform {
                Some(t) => Some(
                    match t.position {
                        Some(p) => p,
                        None => Float3 {
                            x: Scalar { bits: 0 },
                            y: Scalar { bits: 0 },
                            z: Scalar { bits: 0 },
                        },
                    },
                ),
                None => None,
            },
    {
        match &self.transform {
            Some(t) => Some(t.position_or_zero()),
            None => None,
        }
    }

    /// How the shape is turned so far, if it has a frame of its own.
    pub fn rotation_or_unit(&self) -> (r: Option<Quat>)
        ensures
            r == match self.transform {
                Some(t) => Some(
                    match t.rotation {
                        Some(q) => q,
                        None => Quat {
                            x: Scalar { bits: 0 },
                            y: Scalar { bits: 0 },
                            z: Scalar { bits: 0 },
                            w: Scalar { bits: crate::scalar::ONE_BITS },
                        },
                    },
                ),
                None => None,
            },
    {
        match &self.transform {
            Some(t) => Some(t.rotation_or_unit()),
            None => None,
        }
    }

    /// How the shape is stretched so far, if it has a frame of its own.
    pub fn scale_or_one(&self) -> (r: Option<Float3>)
        ensures
            r == match self.transform {
                Some(t) => Some(
                    match t.scale {
                        Some(s) => s,
                        None => Float3 {
                            x: Scalar { bits: crate::scalar::ONE_BITS },
                            y: Scalar { bits: crate::scalar::ONE_BITS },
                            z: Scalar { bits: crate::scalar::ONE_BITS },
                        },
                    },
                ),
                None => None,
            },
    {
        match &self.transform {
            Some(t) => Some(t.scale_or_one()),
            None => None,
        }
    }

    /// Moves the shape to `position`, if it has a frame of its own; a shape
    /// without one stays where it is.
    pub fn translate(self, position: Float3) -> (r: ShapeBuilder)
        ensures
            r.transform == match self.transform {
                Some(t) => Some(
                    Transform {
                        shape: t.shape,
                        position: Some(position),
                        rotation: t.rotation,
                        scale: t.scale,
                    },
                ),
                None => None,
            },
            r.texture == self.texture,
            r.material == self.material,
            r.shape == self.shape,
    {
        let mut b = self;
        match b.transform {
            Some(t) => {
                let mut t = t;
                t.set_position(position);
                b.transform = Some(t);
            },
            None => {
                b.transform = None;
            },
        }
        b
    }

    /// Turns the shape to `rotation`, if it has a frame of its own; a shape
    /// without one stays as it is.
    pub fn rotate(self, rotation: Quat) -> (r: ShapeBuilder)
        ensures
            r.transform == match self.transform {
                Some(t) => Some(
                    Transform {
                        shape: t.shape,
                        position: t.position,
                        rotation: Some(rotation),
                        scale: t.scale,
                    },
                ),
                None => None,
            },
            r.texture == self.texture,
            r.material == self.material,
            r.shape == self.shape,
    {
        let mut b = self;
        match b.transform {
            Some(t) => {
                let mut t = t;
                t.set_rotation(rotation);
                b.transform = Some(t);
            },
            None => {
                b.transform = None;
            },
        }
        b
    }

    /// Stretches the shape to `scale`, if it has a frame of its own; a shape
    /// without one stays as it is.  A scale that is zero along an axis is
    /// not accepted.
    pub fn scale(self, scale: Float3) -> (r: ShapeBuilder)
        requires
            scale.nowhere_zero(),
        ensures
            r.transform == match self.transform {
                Some(t) => Some(
                    Transform {
                        shape: t.shape,
                        position: t.position,
                        rotation: t.rotation,
                        scale: Some(scale),
                    },
                ),
                None => None,
            },
            r.texture == self.texture,
            r.material == self.material,
            r.shape == self.shape,
    {
        let mut b = self;
        match b.transform {
            Some(t) => {
                let mut t = t;
                t.set_scale(scale);
                b.transform = Some(t);
            },
            None => {
                b.transform = None;
            },
        }
        b
    }

    /// The shape that was built: in its frame, if it has one of its own.
    pub fn build(self) -> (r: Box<Shape>)
        requires
            self.transform is Some || self.shape is Some,
        ensures
            *r == match self.transform {
                Some(t) => Shape::Transform(Box::new(t)),
                None => *self.shape->0,
            },
    {
        match self.transform {
            Some(t) => Box::new(Shape::Transform(Box::new(t))),
            None => self.shape.unwrap(),
        }
    }
}

} // verus!
