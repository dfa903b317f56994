//! A path tracer for scenes of spheres: vector algebra, rays, a thin-lens
//! camera, ray-sphere intersection, diffuse, metallic and dielectric
//! scattering, and the recursive integrator that turns camera rays into
//! colours.
//!
//! The engine is generic over its scalar, [`scalar::Scalar`]. It takes no
//! square root and draws no random number itself: both come from the caller,
//! as functions and as values.

pub mod scalar;
pub mod vector;
pub mod ray;
pub mod utilities;
pub mod camera;
pub mod hitable;
pub mod scattering;
pub mod sphere;
pub mod world;
pub mod render;

pub use crate::camera::Camera;
pub use crate::hitable::{HitRecord, Hitable};
pub use crate::ray::Ray;
pub use crate::render::{color, trace_pixel, trace_scene, Sample, MAX_DEPTH};
pub use crate::scattering::{
    Dielectric, Draw, Lambertian, Material, Metallic, NaiveDielectric, ScatteredRay, Scattering,
};
pub use crate::sphere::Sphere;
pub use crate::utilities::{cross, dot, mix, normalize, reflect, refract, schlick};
pub use crate::vector::Vec3;
pub use crate::world::World;
