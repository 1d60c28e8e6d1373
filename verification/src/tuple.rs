//! Points and vectors.
//!
//! A `Point` is a position, a `Vector` a displacement; they differ only in
//! the implicit homogeneous weight (1 for points, 0 for vectors) used by
//! matrix multiplication.

use vstd::prelude::*;

use crate::ApproxEq;
use crate::fx::{Fx, spec_add, spec_sub, spec_neg, spec_mul, spec_div, spec_sqrt, spec_approx};

verus! {

#[derive(Clone, Copy, Debug, PartialEq, Eq, Structural)]
pub struct Vector {
    pub x: Fx,
    pub y: Fx,
    pub z: Fx,
}

#[derive(Clone, Copy, Debug, PartialEq, Eq, Structural)]
pub struct Point {
    pub x: Fx,
    pub y: Fx,
    pub z: Fx,
}

/// The vector of three raw component values.
pub open spec fn spec_vec(x: int, y: int, z: int) -> Vector {
    Vector { x: Fx { raw: x as i64 }, y: Fx { raw: y as i64 }, z: Fx { raw: z as i64 } }
}

/// The point of three raw component values.
pub open spec fn spec_point(x: int, y: int, z: int) -> Point {
    Point { x: Fx { raw: x as i64 }, y: Fx { raw: y as i64 }, z: Fx { raw: z as i64 } }
}

pub open spec fn spec_vadd(a: Vector, b: Vector) -> Vector {
    spec_vec(
        spec_add(a.x.rv(), b.x.rv()),
        spec_add(a.y.rv(), b.y.rv()),
        spec_add(a.z.rv(), b.z.rv()),
    )
}

pub open spec fn spec_vsub(a: Vector, b: Vector) -> Vector {
    spec_vec(
        spec_sub(a.x.rv(), b.x.rv()),
        spec_sub(a.y.rv(), b.y.rv()),
        spec_sub(a.z.rv(), b.z.rv()),
    )
}

pub open spec fn spec_vneg(a: Vector) -> Vector {
    spec_vec(spec_neg(a.x.rv()), spec_neg(a.y.rv()), spec_neg(a.z.rv()))
}

pub open spec fn spec_vscale(a: Vector, s: int) -> Vector {
    spec_vec(spec_mul(a.x.rv(), s), spec_mul(a.y.rv(), s), spec_mul(a.z.rv(), s))
}

/// The dot product, scaled back to raw units.
pub open spec fn spec_dot(a: Vector, b: Vector) -> int {
    spec_add(
        spec_add(spec_mul(a.x.rv(), b.x.rv()), spec_mul(a.y.rv(), b.y.rv())),
        spec_mul(a.z.rv(), b.z.rv()),
    )
}

pub open spec fn spec_cross(a: Vector, b: Vector) -> Vector {
    spec_vec(
        spec_sub(spec_mul(a.y.rv(), b.z.rv()), spec_mul(a.z.rv(), b.y.rv())),
        spec_sub(spec_mul(a.z.rv(), b.x.rv()), spec_mul(a.x.rv(), b.z.rv())),
        spec_sub(spec_mul(a.x.rv(), b.y.rv()), spec_mul(a.y.rv(), b.x.rv())),
    )
}

/// The length of a vector.
pub open spec fn spec_magnitude(a: Vector) -> int {
    spec_sqrt(spec_dot(a, a))
}

/// Normalization; a vector whose length rounds to zero normalizes to the
/// zero vector.
pub open spec fn spec_normalized(a: Vector) -> Vector {
    let m = spec_magnitude(a);
    if m == 0 {
        spec_vec(0, 0, 0)
    } else {
        spec_vec(spec_div(a.x.rv(), m), spec_div(a.y.rv(), m), spec_div(a.z.rv(), m))
    }
}

/// Mirroring about a surface normal: `a - normal * 2 * dot(a, normal)`.
pub open spec fn spec_reflect(a: Vector, normal: Vector) -> Vector {
    let d = spec_dot(a, normal);
    spec_vsub(a, spec_vscale(normal, spec_add(d, d)))
}

pub open spec fn spec_padd(p: Point, v: Vector) -> Point {
    spec_point(
        spec_add(p.x.rv(), v.x.rv()),
        spec_add(p.y.rv(), v.y.rv()),
        spec_add(p.z.rv(), v.z.rv()),
    )
}

pub open spec fn spec_psub(p: Point, q: Point) -> Vector {
    spec_vec(
        spec_sub(p.x.rv(), q.x.rv()),
        spec_sub(p.y.rv(), q.y.rv()),
        spec_sub(p.z.rv(), q.z.rv()),
    )
}

pub open spec fn spec_psubv(p: Point, v: Vector) -> Point {
    spec_point(
        spec_sub(p.x.rv(), v.x.rv()),
        spec_sub(p.y.rv(), v.y.rv()),
        spec_sub(p.z.rv(), v.z.rv()),
    )
}

impl Vector {
    /// The vector of three whole unit counts.
    pub fn from_int(x: i64, y: i64, z: i64) -> (r: Vector)
        ensures
            r.x.rv() == crate::fx::clamp_raw(x * crate::fx::SCALE),
            r.y.rv() == crate::fx::clamp_raw(y * crate::fx::SCALE),
            r.z.rv() == crate::fx::clamp_raw(z * crate::fx::SCALE),
    {
        Vector { x: Fx::from_int(x), y: Fx::from_int(y), z: Fx::from_int(z) }
    }

    /// The vector of three raw component counts.
    pub fn from_raw(x: i64, y: i64, z: i64) -> (r: Vector)
        ensures
            r.x.rv() == crate::fx::clamp_raw(x as int),
            r.y.rv() == crate::fx::clamp_raw(y as int),
            r.z.rv() == crate::fx::clamp_raw(z as int),
    {
        Vector { x: Fx::from_raw(x), y: Fx::from_raw(y), z: Fx::from_raw(z) }
    }

    pub fn new(x: Fx, y: Fx, z: Fx) -> (r: Vector)
        ensures
            r == (Vector { x, y, z }),
    {
        Vector { x, y, z }
    }

    pub fn add(self, rhs: Vector) -> (r: Vector)
        ensures
            r == spec_vadd(self, rhs),
    {
        Vector { x: self.x.add(rhs.x), y: self.y.add(rhs.y), z: self.z.add(rhs.z) }
    }

    pub fn sub(self, rhs: Vector) -> (r: Vector)
        ensures
            r == spec_vsub(self, rhs),
    {
        Vector { x: self.x.sub(rhs.x), y: self.y.sub(rhs.y), z: self.z.sub(rhs.z) }
    }

    pub fn neg(self) -> (r: Vector)
        ensures
            r == spec_vneg(self),
    {
        Vector { x: self.x.neg(), y: self.y.neg(), z: self.z.neg() }
    }

    pub fn scale(self, s: Fx) -> (r: Vector)
        ensures
            r == spec_vscale(self, s.rv()),
    {
        Vector { x: self.x.mul(s), y: self.y.mul(s), z: self.z.mul(s) }
    }

    pub fn dot(self, rhs: Vector) -> (r: Fx)
        ensures
            r.rv() == spec_dot(self, rhs),
    {
        self.x.mul(rhs.x).add(self.y.mul(rhs.y)).add(self.z.mul(rhs.z))
    }

    /// The standard cross product.
    pub fn cross(self, rhs: Vector) -> (r: Vector)
        ensures
            r == spec_cross(self, rhs),
    {
        Vector {
            x: self.y.mul(rhs.z).sub(self.z.mul(rhs.y)),
            y: self.z.mul(rhs.x).sub(self.x.mul(rhs.z)),
            z: self.x.mul(rhs.y).sub(self.y.mul(rhs.x)),
        }
    }

    pub fn magnitude(self) -> (r: Fx)
        ensures
            r.rv() == spec_magnitude(self),
    {
        self.dot(self).sqrt()
    }

    /// Divides the vector by its length; a vector whose length rounds to
    /// zero is returned as the zero vector.
    pub fn normalized(self) -> (r: Vector)
        ensures
            r == spec_normalized(self),
    {
        let m = self.magnitude();
        if m.raw == 0 {
            Vector { x: Fx { raw: 0 }, y: Fx { raw: 0 }, z: Fx { raw: 0 } }
        } else {
            Vector { x: self.x.div(m), y: self.y.div(m), z: self.z.div(m) }
        }
    }

    /// Mirrors the vector about a surface normal.
    pub fn reflect(self, normal: Vector) -> (r: Vector)
        ensures
            r == spec_reflect(self, normal),
    {
        let d = self.dot(normal);
        self.sub(normal.scale(d.add(d)))
    }
}

impl Point {
    /// The point of three whole unit counts.
    pub fn from_int(x: i64, y: i64, z: i64) -> (r: Point)
        ensures
            r.x.rv() == crate::fx::clamp_raw(x * crate::fx::SCALE),
            r.y.rv() == crate::fx::clamp_raw(y * crate::fx::SCALE),
            r.z.rv() == crate::fx::clamp_raw(z * crate::fx::SCALE),
    {
        Point { x: Fx::from_int(x), y: Fx::from_int(y), z: Fx::from_int(z) }
    }

    /// The point of three raw component counts.
    pub fn from_raw(x: i64, y: i64, z: i64) -> (r: Point)
        ensures
            r.x.rv() == crate::fx::clamp_raw(x as int),
            r.y.rv() == crate::fx::clamp_raw(y as int),
            r.z.rv() == crate::fx::clamp_raw(z as int),
    {
        Point { x: Fx::from_raw(x), y: Fx::from_raw(y), z: Fx::from_raw(z) }
    }

    pub fn new(x: Fx, y: Fx, z: Fx) -> (r: Point)
        ensures
            r == (Point { x, y, z }),
    {
        Point { x, y, z }
    }

    /// Moves the point by a displacement.
    pub fn add(self, rhs: Vector) -> (r: Point)
        ensures
            r == spec_padd(self, rhs),
    {
        Point { x: self.x.add(rhs.x), y: self.y.add(rhs.y), z: self.z.add(rhs.z) }
    }

    /// The displacement from `rhs` to `self`.
    pub fn sub(self, rhs: Point) -> (r: Vector)
        ensures
            r == spec_psub(self, rhs),
    {
        Vector { x: self.x.sub(rhs.x), y: self.y.sub(rhs.y), z: self.z.sub(rhs.z) }
    }

    /// Moves the point against a displacement.
    pub fn sub_vec(self, rhs: Vector) -> (r: Point)
        ensures
            r == spec_psubv(self, rhs),
    {
        Point { x: self.x.sub(rhs.x), y: self.y.sub(rhs.y), z: self.z.sub(rhs.z) }
    }
}

impl ApproxEq for Vector {
    open spec fn approx_spec(&self, rhs: &Self) -> bool {
        spec_approx(self.x.rv(), rhs.x.rv()) && spec_approx(self.y.rv(), rhs.y.rv())
            && spec_approx(self.z.rv(), rhs.z.rv())
    }

    fn approx_eq(&self, rhs: &Self) -> (r: bool) {
        self.x.approx_eq(&rhs.x) && self.y.approx_eq(&rhs.y) && self.z.approx_eq(&rhs.z)
    }
}

impl ApproxEq for Point {
    open spec fn approx_spec(&self, rhs: &Self) -> bool {
        spec_approx(self.x.rv(), rhs.x.rv()) && spec_approx(self.y.rv(), rhs.y.rv())
            && spec_approx(self.z.rv(), rhs.z.rv())
    }

    fn approx_eq(&self, rhs: &Self) -> (r: bool) {
        self.x.approx_eq(&rhs.x) && self.y.approx_eq(&rhs.y) && self.z.approx_eq(&rhs.z)
    }
}

} // verus!
