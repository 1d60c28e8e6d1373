//! The world: a list of shapes and a light, and the recursive color
//! resolution over reflection, refraction and shadows.

use vstd::prelude::*;

use crate::color::{Color, spec_black, spec_white, spec_cadd, spec_cscale};
use crate::computation::{
    Computation, refractive_indices, spec_prepare, spec_refractive, spec_schlick,
};
use crate::fx::{Fx, SCALE, spec_sub, spec_mul, spec_div, spec_sqrt};
use crate::intersect::{Intersect, spec_object_intersect};
use crate::intersections::{
    Intersection, Intersections, lemma_sort_all, spec_hit, spec_sort, spec_sorted,
};
use crate::material::{Material, spec_lighting};
use crate::matrix::Matrix4;
use crate::point_light::PointLight;
use crate::ray::Ray;
use crate::shape::{Object, Sphere};
use crate::tuple::{Point, Vector, spec_dot, spec_magnitude, spec_normalized, spec_point, spec_psub, spec_vscale, spec_vsub};

verus! {

/// Maximum number of reflection or refraction bounces resolved before
/// the recursion stops and contributes black: two mutually reflective
/// surfaces would otherwise recurse without end.
pub const MAX_REFLECTION_DEPTH: u8 = 6;

#[derive(Debug)]
pub struct World {
    pub objects: Vec<Object>,
    pub light: Option<PointLight>,
}

/// The light every default world carries.
pub open spec fn spec_default_light() -> PointLight {
    PointLight {
        position: spec_point(-10 * (SCALE as int), 10 * (SCALE as int), -10 * (SCALE as int)),
        intensity: spec_white(),
    }
}

/// All per-shape roots of the ray from object `i` on, in object order.
pub open spec fn spec_world_raw(objects: Seq<Object>, ray: Ray, i: int) -> Seq<Intersection>
    decreases objects.len() - i,
{
    if i < 0 || i >= objects.len() {
        Seq::empty()
    } else {
        let cur = match spec_object_intersect(ray, objects[i]) {
            Some(pair) => seq![
                Intersection { t: pair.0, object: i as usize },
                Intersection { t: pair.1, object: i as usize },
            ],
            None => Seq::empty(),
        };
        cur + spec_world_raw(objects, ray, i + 1)
    }
}

/// The world's intersection list: every shape's roots, sorted by `t`.
pub open spec fn spec_world_intersections(objects: Seq<Object>, ray: Ray) -> Seq<Intersection> {
    spec_sort(spec_world_raw(objects, ray, 0))
}

/// A point is shadowed when something stands strictly between it and
/// the light: the nearest positive hit toward the light is closer than
/// the light itself.
pub open spec fn spec_is_shadowed(w: World, point: Point) -> bool {
    let light = w.light.unwrap();
    let v = spec_psub(light.position, point);
    let distance = spec_magnitude(v);
    let direction = spec_normalized(v);
    let xs = spec_world_intersections(w.objects@, Ray { origin: point, direction });
    match spec_hit(xs) {
        Some(h) => h.t.rv() < distance,
        None => false,
    }
}

/// The color seen along a ray: black where nothing is hit, else the
/// shaded hit, with `remaining` bounces left.
pub open spec fn spec_color_at(w: World, ray: Ray, remaining: nat) -> Color
    decreases remaining, 2int,
{
    let xs = spec_world_intersections(w.objects@, ray);
    match spec_hit(xs) {
        None => spec_black(),
        Some(h) => spec_shade_hit(w, spec_prepare(w.objects@, h, ray, xs), remaining),
    }
}

/// Direct lighting plus the reflected and refracted contributions; a
/// surface both reflective and transparent blends the two by the
/// Schlick reflectance.
pub open spec fn spec_shade_hit(w: World, comps: Computation, remaining: nat) -> Color
    decreases remaining, 1int,
{
    let obj = w.objects@[comps.intersection.object as int];
    let surface = spec_lighting(
        obj.spec_material(),
        obj.spec_inv(),
        w.light.unwrap(),
        comps.over_point,
        comps.eye_vector,
        comps.normal_vector,
        spec_is_shadowed(w, comps.over_point),
    );
    let reflected = spec_reflected_color(w, comps, remaining);
    let refracted = spec_refracted_color(w, comps, remaining);
    let mat = obj.spec_material();
    if mat.reflective.rv() > 0 && mat.transparency.rv() > 0 {
        let k = spec_schlick(comps);
        spec_cadd(
            spec_cadd(surface, spec_cscale(reflected, k)),
            spec_cscale(refracted, spec_sub(SCALE as int, k)),
        )
    } else {
        spec_cadd(spec_cadd(surface, reflected), refracted)
    }
}

/// The reflected contribution: black at depth zero or on a dull
/// surface, else the color along the reflection ray scaled by the
/// reflective coefficient.
pub open spec fn spec_reflected_color(w: World, comps: Computation, remaining: nat) -> Color
    decreases remaining, 0int,
{
    let mat = w.objects@[comps.intersection.object as int].spec_material();
    if remaining == 0 || mat.reflective.rv() == 0 {
        spec_black()
    } else {
        spec_cscale(
            spec_color_at(
                w,
                Ray { origin: comps.over_point, direction: comps.reflect_vector },
                (remaining - 1) as nat,
            ),
            mat.reflective.rv(),
        )
    }
}

/// The refracted contribution by Snell's law: black at depth zero, on
/// an opaque surface, or under total internal reflection.
pub open spec fn spec_refracted_color(w: World, comps: Computation, remaining: nat) -> Color
    decreases remaining, 0int,
{
    let mat = w.objects@[comps.intersection.object as int].spec_material();
    if remaining == 0 || mat.transparency.rv() == 0 {
        spec_black()
    } else {
        let n_ratio = spec_div(comps.n1.rv(), comps.n2.rv());
        let cos_i = spec_dot(comps.eye_vector, comps.normal_vector);
        let sin2_t = spec_mul(
            spec_mul(n_ratio, n_ratio),
            spec_sub(SCALE as int, spec_mul(cos_i, cos_i)),
        );
        if sin2_t > SCALE as int {
            spec_black()
        } else {
            let cos_t = spec_sqrt(spec_sub(SCALE as int, sin2_t));
            let direction = spec_vsub(
                spec_vscale(comps.normal_vector, spec_sub(spec_mul(n_ratio, cos_i), cos_t)),
                spec_vscale(comps.eye_vector, n_ratio),
            );
            spec_cscale(
                spec_color_at(
                    w,
                    Ray { origin: comps.under_point, direction },
                    (remaining - 1) as nat,
                ),
                mat.transparency.rv(),
            )
        }
    }
}

/// Every root the world produces names an object inside the list.
proof fn lemma_world_raw_in_range(objects: Seq<Object>, ray: Ray, i: int)
    ensures
        forall|k: int|
            0 <= k < spec_world_raw(objects, ray, i).len() ==> (
            #[trigger] spec_world_raw(objects, ray, i)[k]).object < objects.len(),
    decreases objects.len() - i,
{
    if 0 <= i < objects.len() {
        lemma_world_raw_in_range(objects, ray, i + 1);
        let cur = match spec_object_intersect(ray, objects[i]) {
            Some(pair) => seq![
                Intersection { t: pair.0, object: i as usize },
                Intersection { t: pair.1, object: i as usize },
            ],
            None => Seq::empty(),
        };
        let rest = spec_world_raw(objects, ray, i + 1);
        let whole = spec_world_raw(objects, ray, i);
        assert(whole == cur + rest);
        assert forall|k: int| 0 <= k < whole.len() implies (#[trigger] whole[k]).object
            < objects.len() by {
            if k < cur.len() {
                assert(whole[k] == cur[k]);
            } else {
                assert(whole[k] == rest[k - cur.len()]);
            }
        }
    }
}

/// The sorted world list also names only objects inside the list.
pub proof fn lemma_world_intersections_in_range(objects: Seq<Object>, ray: Ray)
    ensures
        forall|k: int|
            0 <= k < spec_world_intersections(objects, ray).len() ==> (
            #[trigger] spec_world_intersections(objects, ray)[k]).object < objects.len(),
{
    lemma_world_raw_in_range(objects, ray, 0);
    let p = |x: Intersection| x.object < objects.len();
    let raw0 = spec_world_raw(objects, ray, 0);
    assert(forall|k: int| 0 <= k < raw0.len() ==> #[trigger] p(raw0[k]));
    lemma_sort_all(raw0, p);
    let sorted = spec_world_intersections(objects, ray);
    assert forall|k: int| 0 <= k < sorted.len() implies (#[trigger] sorted[k]).object
        < objects.len() by {
        assert(p(sorted[k]));
    }
}

/// The outer default sphere: untransformed, with the teal material.
pub open spec fn spec_default_outer_sphere() -> Object {
    Object::Sphere(
        Sphere {
            transform: crate::matrix::spec_identity(),
            inv: crate::matrix::spec_identity(),
            material: Material {
                color: crate::color::spec_color(8_000_000, 10_000_000, 6_000_000),
                diffuse: Fx { raw: 7_000_000 },
                specular: Fx { raw: 2_000_000 },
                ..crate::material::spec_default_material()
            },
        },
    )
}

/// The inner default sphere: the unit sphere scaled to half size, with
/// the matching cofactor inverse.
pub open spec fn spec_default_inner_sphere() -> Object {
    Object::Sphere(
        Sphere {
            transform: crate::matrix::spec_scaling(5_000_000, 5_000_000, 5_000_000),
            inv: crate::matrix::spec_inverse4(
                crate::matrix::spec_scaling(5_000_000, 5_000_000, 5_000_000),
            ),
            material: crate::material::spec_default_material(),
        },
    )
}

/// Scaling every axis to half size is invertible: the determinant is an
/// eighth, well clear of the tolerance.  The solver does not fold large
/// literal products or quotients on its own, so each one is supplied.
proof fn lemma_half_scaling_invertible()
    ensures
        crate::matrix::spec_invertible(
            crate::matrix::spec_scaling(5_000_000, 5_000_000, 5_000_000),
        ),
{
    broadcast use vstd::arithmetic::mul::group_mul_basics;

    let s = 10_000_000 as int;
    let m = crate::matrix::spec_scaling(5_000_000, 5_000_000, 5_000_000);
    assert((5_000_000 as int) * 10_000_000 == 50_000_000_000_000) by (nonlinear_arith);
    assert((10_000_000 as int) * 5_000_000 == 50_000_000_000_000) by (nonlinear_arith);
    vstd::arithmetic::div_mod::lemma_div_multiples_vanish(5_000_000, s);
    assert(crate::fx::spec_mul(5_000_000, s) == 5_000_000);
    vstd::arithmetic::div_mod::lemma_div_multiples_vanish(0, s);
    assert(crate::fx::tdiv(0, s) == 0);
    assert((5_000_000 as int) * 5_000_000 == 25_000_000_000_000) by (nonlinear_arith);
    assert((10_000_000 as int) * 2_500_000 == 25_000_000_000_000) by (nonlinear_arith);
    vstd::arithmetic::div_mod::lemma_div_multiples_vanish(2_500_000, s);
    assert(crate::fx::spec_mul(5_000_000, 5_000_000) == 2_500_000);
    assert(crate::matrix::spec_cof4(m, 0, 0) == 2_500_000);
    assert((5_000_000 as int) * 2_500_000 == 12_500_000_000_000) by (nonlinear_arith);
    assert((10_000_000 as int) * 1_250_000 == 12_500_000_000_000) by (nonlinear_arith);
    vstd::arithmetic::div_mod::lemma_div_multiples_vanish(1_250_000, s);
    assert(crate::fx::spec_mul(5_000_000, 2_500_000) == 1_250_000);
    assert(crate::matrix::spec_det4(m) == 1_250_000);
}

impl World {
    /// A world is well formed when every shape in it is.
    pub open spec fn wf(self) -> bool {
        forall|k: int| 0 <= k < self.objects@.len() ==> (#[trigger] self.objects@[k]).wf()
    }

    pub fn new(objects: Vec<Object>, light: Option<PointLight>) -> (r: World)
        ensures
            r.objects@ == objects@,
            r.light == light,
    {
        World { objects, light }
    }

    /// A world with nothing in it.
    pub fn empty() -> (r: World)
        ensures
            r.objects@ == Seq::<Object>::empty(),
            r.light is None,
            r.wf(),
    {
        World { objects: Vec::new(), light: None }
    }

    /// The default world's two spheres: an outer one with the teal
    /// material, and an inner one scaled to half size.
    #[verifier::rlimit(100)]
    fn default_objects() -> (r: Vec<Object>)
        ensures
            r@ == seq![spec_default_outer_sphere(), spec_default_inner_sphere()],
            forall|k: int| 0 <= k < r@.len() ==> (#[trigger] r@[k]).wf(),
    {
        proof {
            lemma_half_scaling_invertible();
        }
        let mut material = Material::default();
        material.set_color(
            Color::new(
                Fx { raw: 8_000_000 },
                Fx { raw: 10_000_000 },
                Fx { raw: 6_000_000 },
            ),
        );
        material.set_diffuse(Fx { raw: 7_000_000 });
        material.set_specular(Fx { raw: 2_000_000 });
        let s1 = Sphere::with_material(material);

        let half = Fx { raw: 5_000_000 };
        let s2 = match Sphere::with_transform(Matrix4::scaling(half, half, half)) {
            Ok(s) => s,
            Err(_) => Sphere::default(),
        };

        let mut objects: Vec<Object> = Vec::new();
        objects.push(Object::Sphere(s1));
        objects.push(Object::Sphere(s2));
        objects
    }

    /// A default world with a chosen light.
    #[verifier::rlimit(100)]
    pub fn with_light(light: Option<PointLight>) -> (r: World)
        ensures
            r.light == light,
            r.objects@ == seq![spec_default_outer_sphere(), spec_default_inner_sphere()],
            r.wf(),
    {
        World { objects: World::default_objects(), light }
    }

    /// A world with chosen objects and the default light.
    pub fn with_objects(objects: Vec<Object>) -> (r: World)
        ensures
            r.objects@ == objects@,
            r.light == Some(spec_default_light()),
    {
        let light = PointLight {
            position: Point {
                x: Fx { raw: -100_000_000 },
                y: Fx { raw: 100_000_000 },
                z: Fx { raw: -100_000_000 },
            },
            intensity: Color::white(),
        };
        World { objects, light: Some(light) }
    }

    pub fn objects(&self) -> (r: &Vec<Object>)
        ensures
            r@ == self.objects@,
    {
        &self.objects
    }

    pub fn light(&self) -> (r: Option<PointLight>)
        ensures
            r == self.light,
    {
        self.light
    }

    pub fn set_light(&mut self, light: PointLight)
        ensures
            final(self).light == Some(light),
            final(self).objects@ == old(self).objects@,
    {
        self.light = Some(light);
    }

    pub fn add_object(&mut self, object: Object)
        ensures
            final(self).objects@ == old(self).objects@.push(object),
            final(self).light == old(self).light,
    {
        self.objects.push(object);
    }

    /// Intersects the ray with every shape and returns the sorted list.
    pub fn intersect_ray(&self, ray: &Ray) -> (r: Intersections)
        ensures
            r@ == spec_world_intersections(self.objects@, *ray),
            r.wf(),
    {
        let mut raw: Vec<Intersection> = Vec::new();
        let mut i: usize = 0;
        while i < self.objects.len()
            invariant
                i <= self.objects@.len(),
                spec_world_raw(self.objects@, *ray, 0) == raw@ + spec_world_raw(
                    self.objects@,
                    *ray,
                    i as int,
                ),
            decreases self.objects@.len() - i,
        {
            let ghost before = raw@;
            match ray.intersect(&self.objects[i]) {
                Some(pair) => {
                    raw.push(Intersection { t: pair.0, object: i });
                    raw.push(Intersection { t: pair.1, object: i });
                    proof {
                        let cur = seq![
                            Intersection { t: pair.0, object: i as usize },
                            Intersection { t: pair.1, object: i as usize },
                        ];
                        assert(raw@ =~= before + cur);
                        assert(before + cur + spec_world_raw(self.objects@, *ray, i as int + 1)
                            =~= before + (cur + spec_world_raw(self.objects@, *ray, i as int + 1)));
                    }
                },
                None => {
                    proof {
                        assert(raw@ + spec_world_raw(self.objects@, *ray, i as int + 1) =~= before
                            + (Seq::empty() + spec_world_raw(self.objects@, *ray, i as int + 1)));
                    }
                },
            }
            i = i + 1;
        }
        proof {
            assert(raw@ + spec_world_raw(self.objects@, *ray, i as int) =~= raw@);
        }
        Intersections::new(raw)
    }

    /// Derives the shading context of a chosen intersection, walking the
    /// full list for the refractive indices.
    pub fn prepare_computations(&self, hit: Intersection, ray: &Ray, xs: &Intersections) -> (r:
        Computation)
        requires
            hit.object < self.objects@.len(),
        ensures
            r == spec_prepare(self.objects@, hit, *ray, xs@),
    {
        let point = ray.position(hit.t);
        let eye_vector = ray.direction.neg();
        let normal0 = self.objects[hit.object].normal_at(point);
        let inside = eye_vector.dot(normal0).raw < 0;
        let normal_vector = if inside {
            normal0.neg()
        } else {
            normal0
        };
        let nudge = normal_vector.scale(Fx { raw: crate::fx::EPSILON_RAW });
        let over_point = point.add(nudge);
        let under_point = point.sub_vec(nudge);
        let reflect_vector = ray.direction.reflect(normal_vector);
        let (n1, n2) = refractive_indices(&self.objects, xs, hit);
        Computation {
            intersection: hit,
            point,
            eye_vector,
            normal_vector,
            inside,
            over_point,
            under_point,
            reflect_vector,
            n1,
            n2,
        }
    }

    /// Whether something stands strictly between the point and the light.
    pub fn is_shadowed(&self, point: Point) -> (r: bool)
        requires
            self.light is Some,
        ensures
            r == spec_is_shadowed(*self, point),
    {
        let light = match &self.light {
            Some(l) => *l,
            None => {
                proof {
                    assert(false);
                }
                PointLight { position: point, intensity: Color::black() }
            },
        };
        let v = light.position.sub(point);
        let distance = v.magnitude();
        let direction = v.normalized();
        let ray = Ray { origin: point, direction };
        let xs = self.intersect_ray(&ray);
        match xs.hit() {
            Some(h) => h.t.raw < distance.raw,
            None => false,
        }
    }

    /// The color seen along a ray, with `remaining` bounces left.
    pub fn color_at(&self, ray: &Ray, remaining: u8) -> (r: Color)
        requires
            self.light is Some,
        ensures
            r == spec_color_at(*self, *ray, remaining as nat),
        decreases remaining, 2int,
    {
        let xs = self.intersect_ray(ray);
        match xs.hit() {
            None => Color::black(),
            Some(hit) => {
                proof {
                    lemma_world_intersections_in_range(self.objects@, *ray);
                    assert(xs@.contains(hit));
                    let idx = choose|idx: int| 0 <= idx < xs@.len() && xs@[idx] == hit;
                    assert(xs@[idx].object < self.objects@.len());
                }
                let comps = self.prepare_computations(hit, ray, &xs);
                self.shade_hit(&comps, remaining)
            },
        }
    }

    /// Shades one prepared hit: direct lighting plus the reflected and
    /// refracted contributions, Schlick-blended on a surface that is
    /// both reflective and transparent.
    pub fn shade_hit(&self, comps: &Computation, remaining: u8) -> (r: Color)
        requires
            self.light is Some,
            comps.intersection.object < self.objects@.len(),
        ensures
            r == spec_shade_hit(*self, *comps, remaining as nat),
        decreases remaining, 1int,
    {
        let light = match &self.light {
            Some(l) => *l,
            None => {
                proof {
                    assert(false);
                }
                PointLight { position: comps.point, intensity: Color::black() }
            },
        };
        let obj = &self.objects[comps.intersection.object];
        let shadowed = self.is_shadowed(comps.over_point);
        let material = obj.material();
        let surface = material.lighting(
            obj,
            &light,
            comps.over_point,
            comps.eye_vector,
            comps.normal_vector,
            shadowed,
        );
        let reflected = self.reflected_color(comps, remaining);
        let refracted = self.refracted_color(comps, remaining);
        if material.reflective.raw > 0 && material.transparency.raw > 0 {
            let k = comps.schlick();
            surface.add(reflected.scale(k)).add(refracted.scale(Fx::one().sub(k)))
        } else {
            surface.add(reflected).add(refracted)
        }
    }

    /// The reflected contribution; black when no bounces remain or the
    /// surface is not reflective at all.
    pub fn reflected_color(&self, comps: &Computation, remaining: u8) -> (r: Color)
        requires
            self.light is Some,
            comps.intersection.object < self.objects@.len(),
        ensures
            r == spec_reflected_color(*self, *comps, remaining as nat),
        decreases remaining, 0int,
    {
        let material = self.objects[comps.intersection.object].material();
        if remaining == 0 || material.reflective.raw == 0 {
            Color::black()
        } else {
            let reflect_ray = Ray { origin: comps.over_point, direction: comps.reflect_vector };
            let color = self.color_at(&reflect_ray, remaining - 1);
            color.scale(material.reflective)
        }
    }

    /// The refracted contribution by Snell's law; black when no bounces
    /// remain, the surface is opaque, or total internal reflection sets
    /// in.
    pub fn refracted_color(&self, comps: &Computation, remaining: u8) -> (r: Color)
        requires
            self.light is Some,
            comps.intersection.object < self.objects@.len(),
        ensures
            r == spec_refracted_color(*self, *comps, remaining as nat),
        decreases remaining, 0int,
    {
        let material = self.objects[comps.intersection.object].material();
        if remaining == 0 || material.transparency.raw == 0 {
            Color::black()
        } else {
            let one = Fx::one();
            let n_ratio = comps.n1.div(comps.n2);
            let cos_i = comps.eye_vector.dot(comps.normal_vector);
            let sin2_t = n_ratio.mul(n_ratio).mul(one.sub(cos_i.mul(cos_i)));
            if sin2_t.raw > SCALE {
                Color::black()
            } else {
                let cos_t = one.sub(sin2_t).sqrt();
                let direction = comps.normal_vector.scale(n_ratio.mul(cos_i).sub(cos_t)).sub(
                    comps.eye_vector.scale(n_ratio),
                );
                let refract_ray = Ray { origin: comps.under_point, direction };
                let color = self.color_at(&refract_ray, remaining - 1);
                color.scale(material.transparency)
            }
        }
    }
}

impl Default for World {
    /// The default world: the two default spheres under the default
    /// light.
    #[verifier::rlimit(100)]
    fn default() -> (r: World)
        ensures
            r.light == Some(spec_default_light()),
            r.objects@ == seq![spec_default_outer_sphere(), spec_default_inner_sphere()],
            r.wf(),
    {
        let light = PointLight {
            position: Point {
                x: Fx { raw: -100_000_000 },
                y: Fx { raw: 100_000_000 },
                z: Fx { raw: -100_000_000 },
            },
            intensity: Color::white(),
        };
        World { objects: World::default_objects(), light: Some(light) }
    }
}

} // verus!
