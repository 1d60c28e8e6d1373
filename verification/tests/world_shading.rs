use tracer::ApproxEq;
use tracer::color::Color;
use tracer::fx::Fx;
use tracer::intersections::{Intersection, Intersections};
use tracer::material::Material;
use tracer::matrix::Matrix4;
use tracer::point_light::PointLight;
use tracer::ray::Ray;
use tracer::shape::{Object, Plane, Sphere};
use tracer::tuple::{Point, Vector};
use tracer::world::{World, MAX_REFLECTION_DEPTH};

fn f(i: i64) -> Fx {
    Fx::from_int(i)
}

fn r(raw: i64) -> Fx {
    Fx::from_raw(raw)
}

const SQ2H: i64 = 7_071_068; // sqrt(2) / 2

fn glass_sphere() -> Sphere {
    let mut material = Material::default();
    material.set_transparency(f(1));
    material.set_refractive_index(r(15_000_000));
    Sphere::with_material(material)
}

#[test]
fn a_point_light_has_a_position_and_intensity() {
    let position = Point::from_int(0, 0, 0);
    let intensity = Color::white();
    let light = PointLight::new(position, intensity);
    assert_eq!(light.position(), position);
    assert_eq!(light.intensity(), intensity);
}

#[test]
fn the_default_material() {
    let m = Material::default();
    assert_eq!(m.color(), Color::white());
    assert_eq!(m.ambient(), r(1_000_000));
    assert_eq!(m.diffuse(), r(9_000_000));
    assert_eq!(m.specular(), r(9_000_000));
    assert_eq!(m.shininess(), f(200));
    assert_eq!(m.reflective(), f(0));
    assert_eq!(m.transparency(), f(0));
    assert_eq!(m.refractive_index(), f(1));
}

#[test]
fn lighting_with_the_eye_between_the_light_and_the_surface() {
    let m = Material::default();
    let object = Object::Sphere(Sphere::default());
    let position = Point::from_int(0, 0, 0);
    let eye = Vector::from_int(0, 0, -1);
    let normal = Vector::from_int(0, 0, -1);
    let light = PointLight::new(Point::from_int(0, 0, -10), Color::white());
    let result = m.lighting(&object, &light, position, eye, normal, false);
    assert!(result.approx_eq(&Color::from_raw(19_000_000, 19_000_000, 19_000_000)));
}

#[test]
fn lighting_with_the_eye_between_the_light_and_surface_eye_offset_45deg() {
    let m = Material::default();
    let object = Object::Sphere(Sphere::default());
    let position = Point::from_int(0, 0, 0);
    let eye = Vector::from_raw(0, SQ2H, -SQ2H);
    let normal = Vector::from_int(0, 0, -1);
    let light = PointLight::new(Point::from_int(0, 0, -10), Color::white());
    let result = m.lighting(&object, &light, position, eye, normal, false);
    assert!(result.approx_eq(&Color::white()));
}

#[test]
fn lighting_with_eye_opposite_surface_light_offset_45deg() {
    let m = Material::default();
    let object = Object::Sphere(Sphere::default());
    let position = Point::from_int(0, 0, 0);
    let eye = Vector::from_int(0, 0, -1);
    let normal = Vector::from_int(0, 0, -1);
    let light = PointLight::new(Point::from_int(0, 10, -10), Color::white());
    let result = m.lighting(&object, &light, position, eye, normal, false);
    assert!(result.approx_eq(&Color::from_raw(7_364_000, 7_364_000, 7_364_000)));
}

#[test]
fn lighting_with_the_eye_behind_the_suface() {
    let m = Material::default();
    let object = Object::Sphere(Sphere::default());
    let position = Point::from_int(0, 0, 0);
    let eye = Vector::from_int(0, 0, -1);
    let normal = Vector::from_int(0, 0, -1);
    let light = PointLight::new(Point::from_int(0, 0, 10), Color::white());
    let result = m.lighting(&object, &light, position, eye, normal, false);
    assert!(result.approx_eq(&Color::from_raw(1_000_000, 1_000_000, 1_000_000)));
}

#[test]
fn lighting_with_the_surface_in_shadow() {
    let m = Material::default();
    let object = Object::Sphere(Sphere::default());
    let position = Point::from_int(0, 0, 0);
    let eye = Vector::from_int(0, 0, -1);
    let normal = Vector::from_int(0, 0, -1);
    let light = PointLight::new(Point::from_int(0, 0, -10), Color::white());
    let result = m.lighting(&object, &light, position, eye, normal, true);
    assert!(result.approx_eq(&Color::from_raw(1_000_000, 1_000_000, 1_000_000)));
}

#[test]
fn lighting_with_a_pattern_applied() {
    let mut m = Material::default();
    let pattern = tracer::pattern::Pattern::stripe(Color::white(), Color::black(), None).unwrap();
    m.set_pattern(pattern);
    m.set_ambient(f(1));
    m.set_diffuse(f(0));
    m.set_specular(f(0));
    let object = Object::Sphere(Sphere::default());
    let eye = Vector::from_int(0, 0, -1);
    let normal = Vector::from_int(0, 0, -1);
    let light = PointLight::new(Point::from_int(0, 0, -10), Color::white());
    let c1 = m.lighting(&object, &light, Point::from_raw(9_000_000, 0, 0), eye, normal, false);
    let c2 = m.lighting(&object, &light, Point::from_raw(11_000_000, 0, 0), eye, normal, false);
    assert!(c1.approx_eq(&Color::white()));
    assert!(c2.approx_eq(&Color::black()));
}

#[test]
fn precomputing_the_state_of_an_intersection() {
    let world = World::new(vec![Object::Sphere(Sphere::default())], None);
    let ray = Ray::new(Point::from_int(0, 0, -5), Vector::from_int(0, 0, 1));
    let xs = world.intersect_ray(&ray);
    let hit = xs.hit().unwrap();
    let comps = world.prepare_computations(hit, &ray, &xs);
    assert_eq!(comps.intersection.t, f(4));
    assert!(comps.point.approx_eq(&Point::from_int(0, 0, -1)));
    assert!(comps.eye_vector.approx_eq(&Vector::from_int(0, 0, -1)));
    assert!(comps.normal_vector.approx_eq(&Vector::from_int(0, 0, -1)));
}

#[test]
fn the_hit_when_the_instersection_occurs_on_the_outside() {
    let world = World::new(vec![Object::Sphere(Sphere::default())], None);
    let ray = Ray::new(Point::from_int(0, 0, -5), Vector::from_int(0, 0, 1));
    let xs = world.intersect_ray(&ray);
    let comps = world.prepare_computations(xs.hit().unwrap(), &ray, &xs);
    assert!(!comps.inside);
}

#[test]
fn the_hit_when_the_instersection_occurs_on_the_inside() {
    let world = World::new(vec![Object::Sphere(Sphere::default())], None);
    let ray = Ray::new(Point::from_int(0, 0, 0), Vector::from_int(0, 0, 1));
    let xs = world.intersect_ray(&ray);
    let comps = world.prepare_computations(xs.hit().unwrap(), &ray, &xs);
    assert!(comps.inside);
    assert!(comps.point.approx_eq(&Point::from_int(0, 0, 1)));
    assert!(comps.eye_vector.approx_eq(&Vector::from_int(0, 0, -1)));
    assert!(comps.normal_vector.approx_eq(&Vector::from_int(0, 0, -1)));
}

#[test]
fn the_hit_should_offset_the_point() {
    let sphere = Sphere::with_transform(Matrix4::translation(f(0), f(0), f(1))).unwrap();
    let world = World::new(vec![Object::Sphere(sphere)], None);
    let ray = Ray::new(Point::from_int(0, 0, -5), Vector::from_int(0, 0, 1));
    let xs = world.intersect_ray(&ray);
    let comps = world.prepare_computations(xs.hit().unwrap(), &ray, &xs);
    assert!(comps.over_point.z.raw < -tracer::fx::EPSILON_RAW / 2);
    assert!(comps.point.z.raw > comps.over_point.z.raw);
}

#[test]
fn the_under_point_is_offset_below_the_surface() {
    let mut sphere = glass_sphere();
    sphere.set_transform(Matrix4::translation(f(0), f(0), f(1))).unwrap();
    let world = World::new(vec![Object::Sphere(sphere)], None);
    let ray = Ray::new(Point::from_int(0, 0, -5), Vector::from_int(0, 0, 1));
    let xs = world.intersect_ray(&ray);
    let comps = world.prepare_computations(xs.hit().unwrap(), &ray, &xs);
    assert!(comps.under_point.z.raw > tracer::fx::EPSILON_RAW / 2);
    assert!(comps.point.z.raw < comps.under_point.z.raw);
}

#[test]
fn precomputing_the_reflection_vector() {
    let world = World::new(vec![Object::Plane(Plane::default())], None);
    let ray = Ray::new(Point::from_int(0, 1, -1), Vector::from_raw(0, -SQ2H, SQ2H));
    let xs = world.intersect_ray(&ray);
    let comps = world.prepare_computations(xs.hit().unwrap(), &ray, &xs);
    assert!(comps.reflect_vector.approx_eq(&Vector::from_raw(0, SQ2H, SQ2H)));
}

#[test]
fn finding_n1_and_n2_at_various_intersections() {
    let mut a = glass_sphere();
    a.set_transform(Matrix4::scaling(f(2), f(2), f(2))).unwrap();
    a.material.set_refractive_index(r(15_000_000));
    let mut b = glass_sphere();
    b.set_transform(Matrix4::translation(f(0), f(0), r(-2_500_000))).unwrap();
    b.material.set_refractive_index(f(2));
    let mut c = glass_sphere();
    c.set_transform(Matrix4::translation(f(0), f(0), r(2_500_000))).unwrap();
    c.material.set_refractive_index(r(25_000_000));
    let world = World::new(
        vec![Object::Sphere(a), Object::Sphere(b), Object::Sphere(c)],
        None,
    );
    let ray = Ray::new(Point::from_int(0, 0, -4), Vector::from_int(0, 0, 1));
    let xs = Intersections::new(vec![
        Intersection::new(f(2), 0),
        Intersection::new(r(27_500_000), 1),
        Intersection::new(r(32_500_000), 2),
        Intersection::new(r(47_500_000), 1),
        Intersection::new(r(52_500_000), 2),
        Intersection::new(f(6), 0),
    ]);
    let expected: [(i64, i64); 6] = [
        (10_000_000, 15_000_000),
        (15_000_000, 20_000_000),
        (20_000_000, 25_000_000),
        (25_000_000, 25_000_000),
        (25_000_000, 15_000_000),
        (15_000_000, 10_000_000),
    ];
    for k in 0..6 {
        let comps = world.prepare_computations(xs.get(k), &ray, &xs);
        assert_eq!(comps.n1.raw, expected[k].0);
        assert_eq!(comps.n2.raw, expected[k].1);
    }
}

#[test]
fn the_schlick_approximation_under_total_internal_reflection() {
    let sphere = glass_sphere();
    let world = World::new(vec![Object::Sphere(sphere)], None);
    let ray = Ray::new(Point::from_raw(0, 0, SQ2H), Vector::from_int(0, 1, 0));
    let xs = Intersections::new(vec![
        Intersection::new(r(-SQ2H), 0),
        Intersection::new(r(SQ2H), 0),
    ]);
    let comps = world.prepare_computations(xs.get(1), &ray, &xs);
    assert_eq!(comps.schlick(), f(1));
}

#[test]
fn the_schlick_approximation_with_a_perpendicular_viewing_angle() {
    let sphere = glass_sphere();
    let world = World::new(vec![Object::Sphere(sphere)], None);
    let ray = Ray::new(Point::from_int(0, 0, 0), Vector::from_int(0, 1, 0));
    let xs = Intersections::new(vec![
        Intersection::new(f(-1), 0),
        Intersection::new(f(1), 0),
    ]);
    let comps = world.prepare_computations(xs.get(1), &ray, &xs);
    assert!(comps.schlick().approx_eq(&r(400_000)));
}

#[test]
fn creating_a_world() {
    let world = World::empty();
    assert_eq!(world.objects().len(), 0);
    assert!(world.light().is_none());
}

#[test]
fn the_default_world() {
    let world = World::default();
    assert_eq!(world.objects().len(), 2);
    let light = world.light().unwrap();
    assert!(light.position().approx_eq(&Point::from_int(-10, 10, -10)));
    assert_eq!(light.intensity(), Color::white());
    let first = world.objects()[0].material();
    assert_eq!(first.color(), Color::from_raw(8_000_000, 10_000_000, 6_000_000));
    assert_eq!(first.diffuse(), r(7_000_000));
    assert_eq!(first.specular(), r(2_000_000));
}

#[test]
fn intersect_a_world_with_a_ray() {
    let world = World::default();
    let ray = Ray::new(Point::from_int(0, 0, -5), Vector::from_int(0, 0, 1));
    let xs = world.intersect_ray(&ray);
    assert_eq!(xs.len(), 4);
    assert!(xs.get(0).t().approx_eq(&f(4)));
    assert!(xs.get(1).t().approx_eq(&r(45_000_000)));
    assert!(xs.get(2).t().approx_eq(&r(55_000_000)));
    assert!(xs.get(3).t().approx_eq(&f(6)));
}

#[test]
fn shading_an_intersection() {
    let world = World::default();
    let ray = Ray::new(Point::from_int(0, 0, -5), Vector::from_int(0, 0, 1));
    let xs = world.intersect_ray(&ray);
    let comps = world.prepare_computations(xs.hit().unwrap(), &ray, &xs);
    let color = world.shade_hit(&comps, MAX_REFLECTION_DEPTH);
    assert!(color.approx_eq(&Color::from_raw(3_806_600, 4_758_300, 2_855_000)));
}

#[test]
fn shading_an_intersection_from_the_inside() {
    let mut world = World::default();
    world.set_light(PointLight::new(Point::from_raw(0, 2_500_000, 0), Color::white()));
    let ray = Ray::new(Point::from_int(0, 0, 0), Vector::from_int(0, 0, 1));
    let color = world.color_at(&ray, MAX_REFLECTION_DEPTH);
    assert!(color.approx_eq(&Color::from_raw(9_049_800, 9_049_800, 9_049_800)));
}

#[test]
fn the_color_when_a_ray_misses() {
    let world = World::default();
    let ray = Ray::new(Point::from_int(0, 0, -5), Vector::from_int(0, 1, 0));
    let color = world.color_at(&ray, MAX_REFLECTION_DEPTH);
    assert!(color.approx_eq(&Color::black()));
}

#[test]
fn the_color_when_a_ray_hits() {
    let world = World::default();
    let ray = Ray::new(Point::from_int(0, 0, -5), Vector::from_int(0, 0, 1));
    let color = world.color_at(&ray, MAX_REFLECTION_DEPTH);
    assert!(color.approx_eq(&Color::from_raw(3_806_600, 4_758_300, 2_855_000)));
}

#[test]
fn the_color_with_an_intersection_behind_the_ray() {
    let mut world = World::default();
    let mut objects = world.objects().clone();
    let mut outer_material = objects[0].material();
    outer_material.set_ambient(f(1));
    objects[0].set_material(outer_material);
    let mut inner_material = objects[1].material();
    inner_material.set_ambient(f(1));
    objects[1].set_material(inner_material);
    world = World::new(objects, world.light());
    let ray = Ray::new(Point::from_raw(0, 0, 7_500_000), Vector::from_int(0, 0, -1));
    let color = world.color_at(&ray, MAX_REFLECTION_DEPTH);
    assert!(color.approx_eq(&inner_material.color()));
}

#[test]
fn there_is_no_shadow_when_nothing_is_collinear_with_point_and_light() {
    let world = World::default();
    assert!(!world.is_shadowed(Point::from_int(0, 10, 0)));
}

#[test]
fn the_shadow_when_an_object_is_between_the_point_and_the_light() {
    let world = World::default();
    assert!(world.is_shadowed(Point::from_int(10, -10, 10)));
}

#[test]
fn there_is_no_shadow_when_an_object_is_behind_the_light() {
    let world = World::default();
    assert!(!world.is_shadowed(Point::from_int(-20, 20, -20)));
}

#[test]
fn there_is_no_shadow_when_an_object_is_behind_the_point() {
    let world = World::default();
    assert!(!world.is_shadowed(Point::from_int(-2, 2, -2)));
}

#[test]
fn shade_hit_is_given_an_intersection_in_shadow() {
    let s1 = Sphere::default();
    let s2 = Sphere::with_transform(Matrix4::translation(f(0), f(0), f(10))).unwrap();
    let light = PointLight::new(Point::from_int(0, 0, -10), Color::white());
    let world = World::new(
        vec![Object::Sphere(s1), Object::Sphere(s2)],
        Some(light),
    );
    let ray = Ray::new(Point::from_int(0, 0, 5), Vector::from_int(0, 0, 1));
    let xs = world.intersect_ray(&ray);
    let comps = world.prepare_computations(xs.hit().unwrap(), &ray, &xs);
    let color = world.shade_hit(&comps, MAX_REFLECTION_DEPTH);
    assert!(color.approx_eq(&Color::from_raw(1_000_000, 1_000_000, 1_000_000)));
}

#[test]
fn the_reflected_color_for_a_non_reflective_material() {
    let mut world = World::default();
    let mut objects = world.objects().clone();
    let mut inner_material = objects[1].material();
    inner_material.set_ambient(f(1));
    objects[1].set_material(inner_material);
    world = World::new(objects, world.light());
    let ray = Ray::new(Point::from_int(0, 0, 0), Vector::from_int(0, 0, 1));
    let xs = world.intersect_ray(&ray);
    let comps = world.prepare_computations(xs.hit().unwrap(), &ray, &xs);
    assert!(world.reflected_color(&comps, MAX_REFLECTION_DEPTH).approx_eq(&Color::black()));
}

#[test]
fn the_reflected_color_at_the_maximum_recursive_depth() {
    let mut world = World::default();
    let mut material = Material::default();
    material.set_reflective(r(5_000_000));
    let plane = Plane::new(Matrix4::translation(f(0), f(-1), f(0)), material).unwrap();
    world.add_object(Object::Plane(plane));
    let ray = Ray::new(Point::from_int(0, 0, -3), Vector::from_raw(0, -SQ2H, SQ2H));
    let xs = world.intersect_ray(&ray);
    let comps = world.prepare_computations(xs.hit().unwrap(), &ray, &xs);
    assert!(world.reflected_color(&comps, 0).approx_eq(&Color::black()));
}

#[test]
fn color_at_with_mutually_reflective_surfaces() {
    let mut lower_material = Material::default();
    lower_material.set_reflective(f(1));
    let lower = Plane::new(Matrix4::translation(f(0), f(-1), f(0)), lower_material).unwrap();
    let mut upper_material = Material::default();
    upper_material.set_reflective(f(1));
    let upper = Plane::new(Matrix4::translation(f(0), f(1), f(0)), upper_material).unwrap();
    let light = PointLight::new(Point::from_int(0, 0, 0), Color::white());
    let world = World::new(
        vec![Object::Plane(lower), Object::Plane(upper)],
        Some(light),
    );
    let ray = Ray::new(Point::from_int(0, 0, 0), Vector::from_int(0, 1, 0));
    // The bounded recursion must end and hand back some finite color.
    let color = world.color_at(&ray, MAX_REFLECTION_DEPTH);
    assert_eq!(color, color);
}

#[test]
fn the_refracted_color_with_an_opaque_surface() {
    let world = World::default();
    let ray = Ray::new(Point::from_int(0, 0, -5), Vector::from_int(0, 0, 1));
    let xs = world.intersect_ray(&ray);
    let comps = world.prepare_computations(xs.hit().unwrap(), &ray, &xs);
    assert!(world.refracted_color(&comps, 5).approx_eq(&Color::black()));
}

#[test]
fn the_refracted_color_at_the_maximum_recursive_depth() {
    let mut world = World::default();
    let mut objects = world.objects().clone();
    let mut outer_material = objects[0].material();
    outer_material.set_transparency(f(1));
    outer_material.set_refractive_index(r(15_000_000));
    objects[0].set_material(outer_material);
    world = World::new(objects, world.light());
    let ray = Ray::new(Point::from_int(0, 0, -5), Vector::from_int(0, 0, 1));
    let xs = world.intersect_ray(&ray);
    let comps = world.prepare_computations(xs.hit().unwrap(), &ray, &xs);
    assert!(world.refracted_color(&comps, 0).approx_eq(&Color::black()));
}

#[test]
fn the_refracted_color_under_total_internal_reflection() {
    let mut world = World::default();
    let mut objects = world.objects().clone();
    let mut outer_material = objects[0].material();
    outer_material.set_transparency(f(1));
    outer_material.set_refractive_index(r(15_000_000));
    objects[0].set_material(outer_material);
    world = World::new(objects, world.light());
    let ray = Ray::new(Point::from_raw(0, 0, SQ2H), Vector::from_int(0, 1, 0));
    let xs = Intersections::new(vec![
        Intersection::new(r(-SQ2H), 0),
        Intersection::new(r(SQ2H), 0),
    ]);
    let comps = world.prepare_computations(xs.get(1), &ray, &xs);
    assert!(world.refracted_color(&comps, 5).approx_eq(&Color::black()));
}
