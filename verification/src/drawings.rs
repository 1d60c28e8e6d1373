//! Demonstration scenes: each builds a world and renders it to a canvas.

pub mod camera;
pub mod clock;
pub mod plane;
pub mod projectile;
pub mod ray_sphere;
pub mod ray_sphere_3d;
pub mod reflection_refraction;
