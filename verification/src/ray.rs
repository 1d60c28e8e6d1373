//! Rays: an origin and a direction.

use vstd::prelude::*;

use crate::fx::Fx;
use crate::matrix::{Matrix4, spec_mul_point, spec_mul_vec};
use crate::tuple::{Point, Vector, spec_padd, spec_vscale};

verus! {

#[derive(Clone, Copy, Debug)]
pub struct Ray {
    pub origin: Point,
    pub direction: Vector,
}

/// The point `distance` along the ray: `origin + direction * distance`.
pub open spec fn spec_position(r: Ray, distance: int) -> Point {
    spec_padd(r.origin, spec_vscale(r.direction, distance))
}

/// A ray carried through a transform: both parts are transformed, the
/// origin as a point and the direction as a vector.
pub open spec fn spec_ray_transform(m: Matrix4, r: Ray) -> Ray {
    Ray { origin: spec_mul_point(m, r.origin), direction: spec_mul_vec(m, r.direction) }
}

impl Ray {
    pub fn new(origin: Point, direction: Vector) -> (r: Ray)
        ensures
            r == (Ray { origin, direction }),
    {
        Ray { origin, direction }
    }

    pub fn origin(&self) -> (r: Point)
        ensures
            r == self.origin,
    {
        self.origin
    }

    pub fn direction(&self) -> (r: Vector)
        ensures
            r == self.direction,
    {
        self.direction
    }

    /// Computes the point at the given distance along the ray.
    pub fn position(&self, distance: Fx) -> (r: Point)
        ensures
            r == spec_position(*self, distance.rv()),
    {
        self.origin.add(self.direction.scale(distance))
    }

    /// Carries the ray into another space.
    pub fn transform(&self, m: &Matrix4) -> (r: Ray)
        ensures
            r == spec_ray_transform(*m, *self),
    {
        Ray { origin: m.mul_point(self.origin), direction: m.mul_vec(self.direction) }
    }
}

} // verus!
