//! Ray-shape intersection.
//!
//! A ray is first carried into the shape's local space by the stored
//! inverse of the shape's transform; the roots are then read off the
//! local-space equations.

use vstd::prelude::*;

use crate::fx::{Fx, SCALE, EPSILON_RAW, abs_int, spec_add, spec_sub, spec_mul, spec_div, spec_neg, spec_sqrt};
use crate::ray::{Ray, spec_ray_transform};
use crate::shape::{Object, Plane, Sphere};
use crate::tuple::{Point, spec_dot, spec_psub, spec_point};

verus! {

/// How a ray intersects a shape: `O` is the shape, `I` what the
/// intersection is reported as.
pub trait Intersect<O, I> {
    /// What the intersection needs of the shape.
    spec fn intersect_req(&self, object: O) -> bool;

    /// The reported intersection.
    spec fn spec_intersect(&self, object: O) -> Option<I>;

    /// Intersects the ray with the shape.
    fn intersect(&self, object: &O) -> (r: Option<I>)
        requires
            self.intersect_req(*object),
        ensures
            r == self.spec_intersect(*object),
    ;
}

/// The two ordered roots of a ray against the unit sphere, after the ray
/// is carried into the sphere's local space.  A tangent touch is the
/// degenerate pair; a miss is nothing.
pub open spec fn spec_sphere_intersect(r: Ray, s: Sphere) -> Option<(Fx, Fx)> {
    let lr = spec_ray_transform(s.inv, r);
    let d = spec_psub(lr.origin, spec_point(0, 0, 0));
    let a = spec_dot(lr.direction, lr.direction);
    let b = spec_mul(2 * (SCALE as int), spec_dot(lr.direction, d));
    let c = spec_sub(spec_dot(d, d), SCALE as int);
    let disc = spec_sub(spec_mul(b, b), spec_mul(spec_mul(4 * (SCALE as int), a), c));
    if disc < 0 {
        None
    } else if abs_int(disc) < EPSILON_RAW {
        let t0 = spec_div(spec_neg(b), spec_mul(2 * (SCALE as int), a));
        Some((Fx { raw: t0 as i64 }, Fx { raw: t0 as i64 }))
    } else {
        let sq = spec_sqrt(disc);
        let t1 = spec_div(spec_sub(spec_neg(b), sq), spec_mul(2 * (SCALE as int), a));
        let t2 = spec_div(spec_add(spec_neg(b), sq), spec_mul(2 * (SCALE as int), a));
        Some((Fx { raw: t1 as i64 }, Fx { raw: t2 as i64 }))
    }
}

/// The single root of a ray against the XZ plane, reported as a
/// degenerate pair; a ray parallel to the plane (the coplanar case
/// included) is a miss.
pub open spec fn spec_plane_intersect(r: Ray, p: Plane) -> Option<(Fx, Fx)> {
    let lr = spec_ray_transform(p.inv, r);
    if abs_int(lr.direction.y.rv()) < EPSILON_RAW {
        None
    } else {
        let t = spec_div(spec_neg(lr.origin.y.rv()), lr.direction.y.rv());
        Some((Fx { raw: t as i64 }, Fx { raw: t as i64 }))
    }
}

/// The roots of a ray against either kind of shape.
pub open spec fn spec_object_intersect(r: Ray, o: Object) -> Option<(Fx, Fx)> {
    match o {
        Object::Sphere(s) => spec_sphere_intersect(r, s),
        Object::Plane(p) => spec_plane_intersect(r, p),
    }
}

impl Intersect<Sphere, (Fx, Fx)> for Ray {
    open spec fn intersect_req(&self, object: Sphere) -> bool {
        true
    }

    open spec fn spec_intersect(&self, object: Sphere) -> Option<(Fx, Fx)> {
        spec_sphere_intersect(*self, object)
    }

    /// Solves the quadratic `|origin + direction * t|^2 = 1` in the
    /// sphere's local space.
    fn intersect(&self, object: &Sphere) -> (r: Option<(Fx, Fx)>) {
        let lr = self.transform(&object.inv);
        let z = Fx { raw: 0 };
        let d = lr.origin.sub(Point { x: z, y: z, z });
        let a = lr.direction.dot(lr.direction);
        let b = Fx::from_int(2).mul(lr.direction.dot(d));
        let c = d.dot(d).sub(Fx::one());
        let disc = b.mul(b).sub(Fx::from_int(4).mul(a).mul(c));
        if disc.raw < 0 {
            None
        } else if disc.raw < EPSILON_RAW {
            let t0 = b.neg().div(Fx::from_int(2).mul(a));
            Some((t0, t0))
        } else {
            let sq = disc.sqrt();
            let two_a = Fx::from_int(2).mul(a);
            let t1 = b.neg().sub(sq).div(two_a);
            let t2 = b.neg().add(sq).div(two_a);
            Some((t1, t2))
        }
    }
}

impl Intersect<Plane, (Fx, Fx)> for Ray {
    open spec fn intersect_req(&self, object: Plane) -> bool {
        true
    }

    open spec fn spec_intersect(&self, object: Plane) -> Option<(Fx, Fx)> {
        spec_plane_intersect(*self, object)
    }

    /// The plane is the local XZ plane: a direction with no slope in `y`
    /// (under the tolerance) never meets it.
    fn intersect(&self, object: &Plane) -> (r: Option<(Fx, Fx)>) {
        let lr = self.transform(&object.inv);
        let dy = lr.direction.y;
        if -EPSILON_RAW < dy.raw && dy.raw < EPSILON_RAW {
            None
        } else {
            let t = lr.origin.y.neg().div(dy);
            Some((t, t))
        }
    }
}

impl Intersect<Object, (Fx, Fx)> for Ray {
    open spec fn intersect_req(&self, object: Object) -> bool {
        true
    }

    open spec fn spec_intersect(&self, object: Object) -> Option<(Fx, Fx)> {
        spec_object_intersect(*self, object)
    }

    fn intersect(&self, object: &Object) -> (r: Option<(Fx, Fx)>) {
        match object {
            Object::Sphere(s) => self.intersect(s),
            Object::Plane(p) => self.intersect(p),
        }
    }
}

} // verus!
