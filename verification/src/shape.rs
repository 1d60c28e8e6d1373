//! Shapes: the unit sphere and the XZ plane, and the closed variant type
//! over them.
//!
//! Every shape owns one world-from-local transform and one material; the
//! inverse of the transform is stored beside it and always matches, so
//! that intersection and shading never have to invert on a hot path.

use vstd::prelude::*;

use crate::fx::{Fx, SCALE};
use crate::material::{Material, spec_default_material};
use crate::matrix::{
    Matrix4, MatrixError, lemma_identity_inverse, spec_identity, spec_invertible, spec_inverse4,
    spec_mul_point, spec_mul_vec, spec_transpose,
};
use crate::tuple::{Point, Vector, spec_normalized, spec_point, spec_psub, spec_vec};

verus! {

#[derive(Clone, Copy, Debug)]
pub struct Sphere {
    pub transform: Matrix4,
    pub inv: Matrix4,
    pub material: Material,
}

#[derive(Clone, Copy, Debug)]
pub struct Plane {
    pub transform: Matrix4,
    pub inv: Matrix4,
    pub material: Material,
}

/// The closed set of shapes a world can hold.
#[derive(Clone, Copy, Debug)]
pub enum Object {
    Sphere(Sphere),
    Plane(Plane),
}

/// The world normal of a unit sphere at a world point: the point is
/// carried into object space, read as the displacement from the local
/// origin, carried back by the transposed inverse, and normalized.
pub open spec fn spec_sphere_normal(s: Sphere, p: Point) -> Vector {
    let object_point = spec_mul_point(s.inv, p);
    let object_normal = spec_psub(object_point, spec_point(0, 0, 0));
    spec_normalized(spec_mul_vec(spec_transpose(s.inv), object_normal))
}

/// The world normal of the XZ plane: the constant local normal `+y`
/// carried back by the transposed inverse and normalized.
pub open spec fn spec_plane_normal(pl: Plane) -> Vector {
    spec_normalized(spec_mul_vec(spec_transpose(pl.inv), spec_vec(0, SCALE as int, 0)))
}

impl Sphere {
    /// A sphere is well formed when its stored inverse matches an
    /// invertible transform and its material is well formed.
    pub open spec fn wf(self) -> bool {
        spec_invertible(self.transform) && self.inv == spec_inverse4(self.transform)
            && self.material.wf()
    }

    /// Builds a unit sphere with the given placement; a transform within
    /// tolerance of singular is rejected.
    pub fn new(transform: Matrix4, material: Material) -> (r: Result<Sphere, MatrixError>)
        requires
            material.wf(),
        ensures
            spec_invertible(transform) ==> r == Ok::<Sphere, MatrixError>(
                Sphere { transform, inv: spec_inverse4(transform), material },
            ),
            !spec_invertible(transform) ==> r == Err::<Sphere, MatrixError>(
                MatrixError::NotInvertible,
            ),
            r is Ok ==> r->Ok_0.wf(),
    {
        match transform.inverse() {
            Ok(inv) => Ok(Sphere { transform, inv, material }),
            Err(e) => Err(MatrixError::NotInvertible),
        }
    }

    /// The untransformed unit sphere with the given material.
    pub fn with_material(material: Material) -> (r: Sphere)
        requires
            material.wf(),
        ensures
            r == (Sphere { transform: spec_identity(), inv: spec_identity(), material }),
            r.wf(),
    {
        proof {
            lemma_identity_inverse();
        }
        Sphere { transform: Matrix4::identity(), inv: Matrix4::identity(), material }
    }


    /// Replaces the material.
    pub fn set_material(&mut self, material: Material)
        ensures
            *final(self) == (Sphere { material, ..*old(self) }),
            old(self).wf() && material.wf() ==> final(self).wf(),
    {
        self.material = material;
    }

    /// Replaces the transform; a singular one is rejected and the sphere
    /// is left as it was.
    pub fn set_transform(&mut self, transform: Matrix4) -> (r: Result<(), MatrixError>)
        ensures
            spec_invertible(transform) ==> {
                &&& r == Ok::<(), MatrixError>(())
                &&& *final(self) == (Sphere {
                    transform,
                    inv: spec_inverse4(transform),
                    ..*old(self)
                })
                &&& (old(self).material.wf() ==> final(self).wf())
            },
            !spec_invertible(transform) ==> r == Err::<(), MatrixError>(MatrixError::NotInvertible)
                && *final(self) == *old(self),
    {
        match transform.inverse() {
            Ok(inv) => {
                self.transform = transform;
                self.inv = inv;
                Ok(())
            },
            Err(e) => Err(MatrixError::NotInvertible),
        }
    }

    /// A default-material sphere with the given placement.
    pub fn with_transform(transform: Matrix4) -> (r: Result<Sphere, MatrixError>)
        ensures
            spec_invertible(transform) ==> r == Ok::<Sphere, MatrixError>(
                Sphere { transform, inv: spec_inverse4(transform), material: spec_default_material() },
            ),
            !spec_invertible(transform) ==> r == Err::<Sphere, MatrixError>(
                MatrixError::NotInvertible,
            ),
            r is Ok ==> r->Ok_0.wf(),
    {
        Sphere::new(transform, Material::default())
    }
}

impl Default for Sphere {
    /// The unit sphere at the origin with the default material.
    fn default() -> (r: Sphere)
        ensures
            r == (Sphere {
                transform: spec_identity(),
                inv: spec_identity(),
                material: spec_default_material(),
            }),
            r.wf(),
    {
        Sphere::with_material(Material::default())
    }
}

impl Plane {
    pub open spec fn wf(self) -> bool {
        spec_invertible(self.transform) && self.inv == spec_inverse4(self.transform)
            && self.material.wf()
    }

    /// Builds an XZ plane with the given placement; a transform within
    /// tolerance of singular is rejected.
    pub fn new(transform: Matrix4, material: Material) -> (r: Result<Plane, MatrixError>)
        requires
            material.wf(),
        ensures
            spec_invertible(transform) ==> r == Ok::<Plane, MatrixError>(
                Plane { transform, inv: spec_inverse4(transform), material },
            ),
            !spec_invertible(transform) ==> r == Err::<Plane, MatrixError>(
                MatrixError::NotInvertible,
            ),
            r is Ok ==> r->Ok_0.wf(),
    {
        match transform.inverse() {
            Ok(inv) => Ok(Plane { transform, inv, material }),
            Err(e) => Err(MatrixError::NotInvertible),
        }
    }

    /// Replaces the material.
    pub fn set_material(&mut self, material: Material)
        ensures
            *final(self) == (Plane { material, ..*old(self) }),
            old(self).wf() && material.wf() ==> final(self).wf(),
    {
        self.material = material;
    }

    /// Replaces the transform; a singular one is rejected and the plane
    /// is left as it was.
    pub fn set_transform(&mut self, transform: Matrix4) -> (r: Result<(), MatrixError>)
        ensures
            spec_invertible(transform) ==> {
                &&& r == Ok::<(), MatrixError>(())
                &&& *final(self) == (Plane {
                    transform,
                    inv: spec_inverse4(transform),
                    ..*old(self)
                })
                &&& (old(self).material.wf() ==> final(self).wf())
            },
            !spec_invertible(transform) ==> r == Err::<(), MatrixError>(MatrixError::NotInvertible)
                && *final(self) == *old(self),
    {
        match transform.inverse() {
            Ok(inv) => {
                self.transform = transform;
                self.inv = inv;
                Ok(())
            },
            Err(e) => Err(MatrixError::NotInvertible),
        }
    }
}

impl Default for Plane {
    /// The untransformed XZ plane with the default material.
    fn default() -> (r: Plane)
        ensures
            r == (Plane {
                transform: spec_identity(),
                inv: spec_identity(),
                material: spec_default_material(),
            }),
            r.wf(),
    {
        proof {
            lemma_identity_inverse();
        }
        Plane { transform: Matrix4::identity(), inv: Matrix4::identity(), material: Material::default() }
    }
}

impl Object {
    pub open spec fn wf(self) -> bool {
        match self {
            Object::Sphere(s) => s.wf(),
            Object::Plane(p) => p.wf(),
        }
    }

    pub open spec fn spec_transform(self) -> Matrix4 {
        match self {
            Object::Sphere(s) => s.transform,
            Object::Plane(p) => p.transform,
        }
    }

    pub open spec fn spec_inv(self) -> Matrix4 {
        match self {
            Object::Sphere(s) => s.inv,
            Object::Plane(p) => p.inv,
        }
    }

    pub open spec fn spec_material(self) -> Material {
        match self {
            Object::Sphere(s) => s.material,
            Object::Plane(p) => p.material,
        }
    }

    /// The world normal at a world point.
    pub open spec fn spec_normal_at(self, p: Point) -> Vector {
        match self {
            Object::Sphere(s) => spec_sphere_normal(s, p),
            Object::Plane(pl) => spec_plane_normal(pl),
        }
    }

    pub fn transform(&self) -> (r: Matrix4)
        ensures
            r == self.spec_transform(),
    {
        match self {
            Object::Sphere(s) => s.transform,
            Object::Plane(p) => p.transform,
        }
    }

    pub fn inverse(&self) -> (r: Matrix4)
        ensures
            r == self.spec_inv(),
    {
        match self {
            Object::Sphere(s) => s.inv,
            Object::Plane(p) => p.inv,
        }
    }

    pub fn material(&self) -> (r: Material)
        ensures
            r == self.spec_material(),
    {
        match self {
            Object::Sphere(s) => s.material,
            Object::Plane(p) => p.material,
        }
    }

    /// Replaces the material.
    pub fn set_material(&mut self, material: Material)
        ensures
            final(self).spec_material() == material,
            final(self).spec_transform() == old(self).spec_transform(),
            final(self).spec_inv() == old(self).spec_inv(),
            old(self).wf() && material.wf() ==> final(self).wf(),
            (*final(self)) is Sphere == (*old(self)) is Sphere,
    {
        match self {
            Object::Sphere(s) => s.material = material,
            Object::Plane(p) => p.material = material,
        }
    }

    /// Replaces the transform; a singular one is rejected and the object
    /// is left as it was.
    pub fn set_transform(&mut self, transform: Matrix4) -> (r: Result<(), MatrixError>)
        ensures
            spec_invertible(transform) ==> {
                &&& r == Ok::<(), MatrixError>(())
                &&& final(self).spec_transform() == transform
                &&& final(self).spec_inv() == spec_inverse4(transform)
                &&& final(self).spec_material() == old(self).spec_material()
                &&& (old(self).wf() ==> final(self).wf())
            },
            !spec_invertible(transform) ==> r == Err::<(), MatrixError>(MatrixError::NotInvertible)
                && *final(self) == *old(self),
            (*final(self)) is Sphere == (*old(self)) is Sphere,
    {
        match transform.inverse() {
            Ok(inv) => {
                match self {
                    Object::Sphere(s) => {
                        s.transform = transform;
                        s.inv = inv;
                    },
                    Object::Plane(p) => {
                        p.transform = transform;
                        p.inv = inv;
                    },
                }
                Ok(())
            },
            Err(e) => Err(MatrixError::NotInvertible),
        }
    }

    /// Returns the normal vector at a world point.
    pub fn normal_at(&self, point: Point) -> (r: Vector)
        ensures
            r == self.spec_normal_at(point),
    {
        match self {
            Object::Sphere(s) => {
                let object_point = s.inv.mul_point(point);
                let z = Fx { raw: 0 };
                let object_normal = object_point.sub(Point { x: z, y: z, z });
                s.inv.transpose().mul_vec(object_normal).normalized()
            },
            Object::Plane(p) => {
                let local = Vector { x: Fx { raw: 0 }, y: Fx { raw: SCALE }, z: Fx { raw: 0 } };
                p.inv.transpose().mul_vec(local).normalized()
            },
        }
    }
}

} // verus!
