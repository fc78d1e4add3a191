//! The decision kernel of a Monte-Carlo path tracer.
//!
//! A path tracer is arithmetic on binary64 numbers wrapped round a small
//! number of decisions: which root of the quadratic counts, which of the
//! shapes is nearest, whether a path goes on or ends, where a pixel lies in
//! the raster.  This crate holds the scene and the decisions, each with its
//! contract; the caller supplies the arithmetic.

pub mod scalar;
pub mod float3;
pub mod quat;
pub mod math;
pub mod raster;
pub mod texture;
pub mod ray;
pub mod material;
pub mod shape;
pub mod transform;
pub mod builder;
pub mod camera;
pub mod scene;
pub mod render;
pub mod tour;
