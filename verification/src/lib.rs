//! A small, correctness-focused CPU ray tracer.
//!
//! Every quantity in the engine is a fixed-point scalar ([`fx::Fx`]) holding
//! a signed number of 1e-7 units, so that all geometry, shading and the
//! recursive colour pipeline are exact integer computations with fully
//! stated contracts.

pub mod camera;
pub mod canvas;
pub mod color;
pub mod computation;
pub mod drawings;
pub mod fx;
pub mod intersect;
pub mod intersections;
pub mod material;
pub mod matrix;
pub mod pattern;
pub mod point2d;
pub mod point_light;
pub mod ppm;
pub mod projectile;
pub mod ray;
pub mod shape;
pub mod trig;
pub mod tuple;
pub mod world;

use vstd::prelude::*;

verus! {

/// Approximate equality, within the engine's fixed tolerance.
pub trait ApproxEq {
    /// Whether the two values are equal within tolerance.
    spec fn approx_spec(&self, rhs: &Self) -> bool;

    /// Decides approximate equality.
    fn approx_eq(&self, rhs: &Self) -> (r: bool)
        ensures
            r == self.approx_spec(rhs),
    ;
}

} // verus!
