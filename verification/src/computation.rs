//! The shading context derived from one chosen intersection.
//!
//! Everything shading needs is computed once from the intersection and
//! the casting ray: the surface point, the eye and normal vectors, the
//! points nudged off the surface for secondary rays, the reflection
//! vector, and the refractive indices on either side of the surface.

use vstd::prelude::*;

use crate::fx::{Fx, SCALE, EPSILON_RAW, spec_add, spec_sub, spec_mul, spec_div, spec_sqrt, spec_powi};
use crate::intersections::{Intersection, Intersections};
use crate::ray::{Ray, spec_position};
use crate::shape::Object;
use crate::tuple::{Point, Vector, spec_dot, spec_padd, spec_psubv, spec_reflect, spec_vneg, spec_vscale};

verus! {

/// The shading context of one intersection.
#[derive(Clone, Copy, Debug)]
pub struct Computation {
    pub intersection: Intersection,
    pub point: Point,
    pub eye_vector: Vector,
    pub normal_vector: Vector,
    pub inside: bool,
    pub over_point: Point,
    pub under_point: Point,
    pub reflect_vector: Vector,
    /// Refractive index of the material being exited.
    pub n1: Fx,
    /// Refractive index of the material being entered.
    pub n2: Fx,
}

/// The refractive index at the top of a containment stack; empty space
/// counts as one.  An index outside the object list also counts as one,
/// which keeps the definition total; the walk never produces one.
pub open spec fn spec_containers_top(objects: Seq<Object>, c: Seq<usize>) -> int {
    if c.len() == 0 {
        SCALE as int
    } else if c.last() < objects.len() {
        objects[c.last() as int].spec_material().refractive_index.rv()
    } else {
        SCALE as int
    }
}

/// The first position of `o` in the stack, or a negative value.
pub open spec fn spec_first_index(c: Seq<usize>, o: usize) -> int
    decreases c.len(),
{
    if c.len() == 0 {
        -1
    } else if c[0] == o {
        0
    } else {
        let r = spec_first_index(c.subrange(1, c.len() as int), o);
        if r < 0 {
            -1
        } else {
            r + 1
        }
    }
}

/// Toggles membership: removes the first occurrence, or pushes.
pub open spec fn spec_toggle(c: Seq<usize>, o: usize) -> Seq<usize> {
    let fi = spec_first_index(c, o);
    if fi < 0 {
        c.push(o)
    } else {
        c.remove(fi)
    }
}

/// The walk over the full sorted intersection list that yields `(n1, n2)`
/// for the target intersection: shapes entered so far form a stack, and
/// the target reads the stack just before and just after its own toggle.
pub open spec fn spec_refractive_walk(
    objects: Seq<Object>,
    xs: Seq<Intersection>,
    target: Intersection,
    c: Seq<usize>,
    i: int,
) -> (int, int)
    decreases xs.len() - i,
{
    if i < 0 || i >= xs.len() {
        (SCALE as int, SCALE as int)
    } else {
        let x = xs[i];
        if x == target {
            let n1 = spec_containers_top(objects, c);
            let n2 = spec_containers_top(objects, spec_toggle(c, x.object));
            (n1, n2)
        } else {
            spec_refractive_walk(objects, xs, target, spec_toggle(c, x.object), i + 1)
        }
    }
}

/// The refractive indices for the target, from an empty stack.
pub open spec fn spec_refractive(
    objects: Seq<Object>,
    xs: Seq<Intersection>,
    target: Intersection,
) -> (int, int) {
    spec_refractive_walk(objects, xs, target, Seq::empty(), 0)
}

/// The whole shading context of one chosen intersection: the normal is
/// flipped toward the viewer when the hit is inside the shape, and the
/// over and under points are the surface point nudged along the normal
/// by the tolerance.
pub open spec fn spec_prepare(
    objects: Seq<Object>,
    hit: Intersection,
    ray: Ray,
    xs: Seq<Intersection>,
) -> Computation {
    let point = spec_position(ray, hit.t.rv());
    let eye = spec_vneg(ray.direction);
    let normal0 = objects[hit.object as int].spec_normal_at(point);
    let inside = spec_dot(eye, normal0) < 0;
    let normal = if inside {
        spec_vneg(normal0)
    } else {
        normal0
    };
    let nudge = spec_vscale(normal, EPSILON_RAW as int);
    let rr = spec_refractive(objects, xs, hit);
    Computation {
        intersection: hit,
        point,
        eye_vector: eye,
        normal_vector: normal,
        inside,
        over_point: spec_padd(point, nudge),
        under_point: spec_psubv(point, nudge),
        reflect_vector: spec_reflect(ray.direction, normal),
        n1: Fx { raw: rr.0 as i64 },
        n2: Fx { raw: rr.1 as i64 },
    }
}

/// The Schlick approximation of the Fresnel reflectance: one under total
/// internal reflection, else `r0 + (1 - r0) * (1 - cos)^5`.
pub open spec fn spec_schlick(c: Computation) -> int {
    let cos0 = spec_dot(c.eye_vector, c.normal_vector);
    let q = spec_div(spec_sub(c.n1.rv(), c.n2.rv()), spec_add(c.n1.rv(), c.n2.rv()));
    let r0 = spec_mul(q, q);
    if c.n1.rv() > c.n2.rv() {
        let n = spec_div(c.n1.rv(), c.n2.rv());
        let sin2_t = spec_mul(spec_mul(n, n), spec_sub(SCALE as int, spec_mul(cos0, cos0)));
        if sin2_t > SCALE as int {
            SCALE as int
        } else {
            let cos_t = spec_sqrt(spec_sub(SCALE as int, sin2_t));
            spec_add(
                r0,
                spec_mul(spec_sub(SCALE as int, r0), spec_powi(spec_sub(SCALE as int, cos_t), 5)),
            )
        }
    } else {
        spec_add(
            r0,
            spec_mul(spec_sub(SCALE as int, r0), spec_powi(spec_sub(SCALE as int, cos0), 5)),
        )
    }
}

/// The loop position matches the first-occurrence spec.
proof fn lemma_first_index_at(c: Seq<usize>, o: usize, j: int)
    requires
        0 <= j <= c.len(),
        forall|k: int| 0 <= k < j ==> #[trigger] c[k] != o,
        j < c.len() ==> c[j] == o,
    ensures
        spec_first_index(c, o) == if j == c.len() {
            -1
        } else {
            j
        },
    decreases c.len(),
{
    if c.len() == 0 {
    } else if j == 0 {
    } else {
        let tail = c.subrange(1, c.len() as int);
        assert(forall|k: int| 0 <= k < j - 1 ==> #[trigger] tail[k] != o) by {
            assert(forall|k: int| 0 <= k < j - 1 ==> #[trigger] tail[k] == c[k + 1]);
        }
        lemma_first_index_at(tail, o, j - 1);
    }
}

/// Toggles membership of `o` in the stack.
fn toggle_container(c: &mut Vec<usize>, o: usize)
    ensures
        final(c)@ == spec_toggle(old(c)@, o),
{
    let mut j: usize = 0;
    while j < c.len() && c[j] != o
        invariant
            j <= c.len(),
            forall|k: int| 0 <= k < j ==> #[trigger] c@[k] != o,
            *c == *old(c),
        decreases c.len() - j,
    {
        j = j + 1;
    }
    proof {
        lemma_first_index_at(c@, o, j as int);
    }
    if j < c.len() {
        c.remove(j);
    } else {
        c.push(o);
    }
}

/// The refractive index of the shape on top of the stack, or of empty
/// space when the stack is empty.
fn containers_top(objects: &Vec<Object>, c: &Vec<usize>) -> (r: Fx)
    ensures
        r.rv() == spec_containers_top(objects@, c@),
{
    if c.len() == 0 {
        Fx::one()
    } else {
        let idx = c[c.len() - 1];
        if idx < objects.len() {
            objects[idx].material().refractive_index
        } else {
            Fx::one()
        }
    }
}

/// Walks the full sorted intersection list maintaining the containment
/// stack, and reads `(n1, n2)` at the target intersection.
pub fn refractive_indices(objects: &Vec<Object>, xs: &Intersections, target: Intersection) -> (r: (
    Fx,
    Fx,
))
    ensures
        r.0.rv() == spec_refractive(objects@, xs@, target).0,
        r.1.rv() == spec_refractive(objects@, xs@, target).1,
{
    let mut containers: Vec<usize> = Vec::new();
    let mut i: usize = 0;
    while i < xs.len()
        invariant
            i <= xs@.len(),
            spec_refractive_walk(objects@, xs@, target, containers@, i as int) == spec_refractive(
                objects@,
                xs@,
                target,
            ),
        decreases xs@.len() - i,
    {
        let x = xs.get(i);
        if x == target {
            let n1 = containers_top(objects, &containers);
            toggle_container(&mut containers, x.object);
            let n2 = containers_top(objects, &containers);
            return (n1, n2);
        }
        toggle_container(&mut containers, x.object);
        i = i + 1;
    }
    (Fx::one(), Fx::one())
}

impl Computation {
    pub fn new(
        intersection: Intersection,
        point: Point,
        eye_vector: Vector,
        normal_vector: Vector,
        inside: bool,
        over_point: Point,
        under_point: Point,
        reflect_vector: Vector,
        n1: Fx,
        n2: Fx,
    ) -> (r: Computation)
        ensures
            r == (Computation {
                intersection,
                point,
                eye_vector,
                normal_vector,
                inside,
                over_point,
                under_point,
                reflect_vector,
                n1,
                n2,
            }),
    {
        Computation {
            intersection,
            point,
            eye_vector,
            normal_vector,
            inside,
            over_point,
            under_point,
            reflect_vector,
            n1,
            n2,
        }
    }

    pub fn intersection(&self) -> (r: Intersection)
        ensures
            r == self.intersection,
    {
        self.intersection
    }

    pub fn point(&self) -> (r: Point)
        ensures
            r == self.point,
    {
        self.point
    }

    pub fn eye_vector(&self) -> (r: Vector)
        ensures
            r == self.eye_vector,
    {
        self.eye_vector
    }

    pub fn normal_vector(&self) -> (r: Vector)
        ensures
            r == self.normal_vector,
    {
        self.normal_vector
    }

    pub fn inside(&self) -> (r: bool)
        ensures
            r == self.inside,
    {
        self.inside
    }

    pub fn over_point(&self) -> (r: Point)
        ensures
            r == self.over_point,
    {
        self.over_point
    }

    pub fn under_point(&self) -> (r: Point)
        ensures
            r == self.under_point,
    {
        self.under_point
    }

    pub fn reflect_vector(&self) -> (r: Vector)
        ensures
            r == self.reflect_vector,
    {
        self.reflect_vector
    }

    pub fn n1(&self) -> (r: Fx)
        ensures
            r == self.n1,
    {
        self.n1
    }

    pub fn n2(&self) -> (r: Fx)
        ensures
            r == self.n2,
    {
        self.n2
    }

    /// The Schlick approximation of the Fresnel reflectance, used to
    /// blend the reflected and refracted contributions.
    pub fn schlick(&self) -> (r: Fx)
        ensures
            r.rv() == spec_schlick(*self),
    {
        let cos0 = self.eye_vector.dot(self.normal_vector);
        let one = Fx::one();
        let q = self.n1.sub(self.n2).div(self.n1.add(self.n2));
        let r0 = q.mul(q);
        if self.n1.raw > self.n2.raw {
            let n = self.n1.div(self.n2);
            let sin2_t = n.mul(n).mul(one.sub(cos0.mul(cos0)));
            if sin2_t.raw > SCALE {
                one
            } else {
                let cos_t = one.sub(sin2_t).sqrt();
                r0.add(one.sub(r0).mul(one.sub(cos_t).pow(5)))
            }
        } else {
            r0.add(one.sub(r0).mul(one.sub(cos0).pow(5)))
        }
    }
}

} // verus!
