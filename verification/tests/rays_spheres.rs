use tracer::ApproxEq;
use tracer::fx::Fx;
use tracer::intersect::Intersect;
use tracer::intersections::{Intersection, Intersections};
use tracer::material::Material;
use tracer::matrix::Matrix4;
use tracer::ray::Ray;
use tracer::shape::{Object, Plane, Sphere};
use tracer::tuple::{Point, Vector};

fn f(i: i64) -> Fx {
    Fx::from_int(i)
}

fn r(raw: i64) -> Fx {
    Fx::from_raw(raw)
}

#[test]
fn creating_and_querying_a_ray() {
    let origin = Point::from_int(1, 2, 3);
    let direction = Vector::from_int(4, 5, 6);
    let ray = Ray::new(origin, direction);
    assert_eq!(ray.origin(), origin);
    assert_eq!(ray.direction(), direction);
}

#[test]
fn computing_a_point_from_a_distance() {
    let ray = Ray::new(Point::from_int(2, 3, 4), Vector::from_int(1, 0, 0));
    assert_eq!(ray.position(f(0)), Point::from_int(2, 3, 4));
    assert_eq!(ray.position(f(1)), Point::from_int(3, 3, 4));
    assert_eq!(ray.position(f(-1)), Point::from_int(1, 3, 4));
    assert_eq!(ray.position(r(25_000_000)), Point::from_raw(45_000_000, 30_000_000, 40_000_000));
}

#[test]
fn translating_a_ray() {
    let ray = Ray::new(Point::from_int(1, 2, 3), Vector::from_int(0, 1, 0));
    let m = Matrix4::translation(f(3), f(4), f(5));
    let moved = ray.transform(&m);
    assert!(moved.origin.approx_eq(&Point::from_int(4, 6, 8)));
    assert!(moved.direction.approx_eq(&Vector::from_int(0, 1, 0)));
}

#[test]
fn scaling_a_ray() {
    let ray = Ray::new(Point::from_int(1, 2, 3), Vector::from_int(0, 1, 0));
    let m = Matrix4::scaling(f(2), f(3), f(4));
    let moved = ray.transform(&m);
    assert!(moved.origin.approx_eq(&Point::from_int(2, 6, 12)));
    assert!(moved.direction.approx_eq(&Vector::from_int(0, 3, 0)));
}

#[test]
fn a_ray_intersects_a_sphere_at_two_points() {
    let ray = Ray::new(Point::from_int(0, 0, -5), Vector::from_int(0, 0, 1));
    let sphere = Sphere::default();
    let roots = ray.intersect(&sphere).unwrap();
    assert_eq!(roots.0, f(4));
    assert_eq!(roots.1, f(6));
}

#[test]
fn a_ray_intersects_a_sphere_at_a_tangent() {
    let ray = Ray::new(Point::from_int(0, 1, -5), Vector::from_int(0, 0, 1));
    let sphere = Sphere::default();
    let roots = ray.intersect(&sphere).unwrap();
    assert_eq!(roots.0, f(5));
    assert_eq!(roots.1, f(5));
}

#[test]
fn a_ray_originates_inside_a_sphere() {
    let ray = Ray::new(Point::from_int(0, 0, 0), Vector::from_int(0, 0, 1));
    let sphere = Sphere::default();
    let roots = ray.intersect(&sphere).unwrap();
    assert_eq!(roots.0, f(-1));
    assert_eq!(roots.1, f(1));
}

#[test]
fn a_sphere_is_behind_a_ray() {
    let ray = Ray::new(Point::from_int(0, 0, 5), Vector::from_int(0, 0, 1));
    let sphere = Sphere::default();
    let roots = ray.intersect(&sphere).unwrap();
    assert_eq!(roots.0, f(-6));
    assert_eq!(roots.1, f(-4));
}

#[test]
fn a_ray_missing_a_sphere_yields_nothing() {
    let ray = Ray::new(Point::from_int(0, 2, -5), Vector::from_int(0, 0, 1));
    let sphere = Sphere::default();
    assert!(ray.intersect(&sphere).is_none());
}

#[test]
fn intersecting_a_scaled_sphere_with_a_ray() {
    let ray = Ray::new(Point::from_int(0, 0, -5), Vector::from_int(0, 0, 1));
    let sphere = Sphere::with_transform(Matrix4::scaling(f(2), f(2), f(2))).unwrap();
    let roots = ray.intersect(&sphere).unwrap();
    assert!(roots.0.approx_eq(&f(3)));
    assert!(roots.1.approx_eq(&f(7)));
}

#[test]
fn a_sphere_default_transform() {
    let sphere = Sphere::default();
    assert!(sphere.transform.approx_eq(&Matrix4::identity()));
}

#[test]
fn a_sphere_has_a_default_material() {
    let sphere = Sphere::default();
    assert_eq!(sphere.material, Material::default());
}

#[test]
fn a_sphere_may_be_assigned_a_material() {
    let mut material = Material::default();
    material.set_ambient(f(1));
    let sphere = Sphere::with_material(material);
    assert_eq!(sphere.material, material);
}

#[test]
fn changing_a_sphere_transform() {
    let mut sphere = Sphere::default();
    let t = Matrix4::translation(f(2), f(3), f(4));
    sphere.set_transform(t).unwrap();
    assert!(sphere.transform.approx_eq(&t));
}

#[test]
fn the_normal_on_a_sphere_at_a_point_on_the_x_axis() {
    let sphere = Object::Sphere(Sphere::default());
    let n = sphere.normal_at(Point::from_int(1, 0, 0));
    assert!(n.approx_eq(&Vector::from_int(1, 0, 0)));
}

#[test]
fn the_normal_on_a_sphere_at_a_point_on_the_y_axis() {
    let sphere = Object::Sphere(Sphere::default());
    let n = sphere.normal_at(Point::from_int(0, 1, 0));
    assert!(n.approx_eq(&Vector::from_int(0, 1, 0)));
}

#[test]
fn the_normal_on_a_sphere_at_a_point_on_the_z_axis() {
    let sphere = Object::Sphere(Sphere::default());
    let n = sphere.normal_at(Point::from_int(0, 0, 1));
    assert!(n.approx_eq(&Vector::from_int(0, 0, 1)));
}

#[test]
fn the_normal_on_a_sphere_at_a_nonaxial_point() {
    let sphere = Object::Sphere(Sphere::default());
    let k = 5_773_503; // sqrt(3) / 3
    let n = sphere.normal_at(Point::from_raw(k, k, k));
    assert!(n.approx_eq(&Vector::from_raw(k, k, k)));
}

#[test]
fn computing_the_normal_on_a_translated_sphere() {
    let sphere = Object::Sphere(
        Sphere::with_transform(Matrix4::translation(f(0), f(1), f(0))).unwrap(),
    );
    let n = sphere.normal_at(Point::from_raw(0, 17_071_068, -7_071_068));
    assert!(n.approx_eq(&Vector::from_raw(0, 7_071_068, -7_071_068)));
}

#[test]
fn computing_the_normal_on_a_transformed_sphere() {
    let t = Matrix4::scaling(f(1), r(5_000_000), f(1)).mul(
        &Matrix4::rotation_z(r(tracer::trig::PI_RAW / 5)),
    );
    let sphere = Object::Sphere(Sphere::with_transform(t).unwrap());
    let n = sphere.normal_at(Point::from_raw(0, 7_071_068, -7_071_068));
    assert!(n.approx_eq(&Vector::from_raw(0, 9_701_425, -2_425_356)));
}

#[test]
fn the_normal_of_a_plane_is_constant_everywhere() {
    let plane = Object::Plane(Plane::default());
    let n1 = plane.normal_at(Point::from_int(0, 0, 0));
    let n2 = plane.normal_at(Point::from_int(10, 0, -10));
    let n3 = plane.normal_at(Point::from_int(-5, 0, 150));
    let up = Vector::from_int(0, 1, 0);
    assert!(n1.approx_eq(&up));
    assert!(n2.approx_eq(&up));
    assert!(n3.approx_eq(&up));
}

#[test]
fn intersect_with_a_ray_parallel_to_the_plane() {
    let plane = Plane::default();
    let ray = Ray::new(Point::from_int(0, 10, 0), Vector::from_int(0, 0, 1));
    assert!(ray.intersect(&plane).is_none());
}

#[test]
fn intersect_with_a_coplanar_ray() {
    let plane = Plane::default();
    let ray = Ray::new(Point::from_int(0, 0, 0), Vector::from_int(0, 0, 1));
    assert!(ray.intersect(&plane).is_none());
}

#[test]
fn a_ray_intersecting_a_plane_from_above() {
    let plane = Plane::default();
    let ray = Ray::new(Point::from_int(0, 1, 0), Vector::from_int(0, -1, 0));
    let roots = ray.intersect(&plane).unwrap();
    assert_eq!(roots.0, f(1));
    assert_eq!(roots.1, f(1));
}

#[test]
fn a_ray_intersecting_a_plane_from_below() {
    let plane = Plane::default();
    let ray = Ray::new(Point::from_int(0, -1, 0), Vector::from_int(0, 1, 0));
    let roots = ray.intersect(&plane).unwrap();
    assert_eq!(roots.0, f(1));
    assert_eq!(roots.1, f(1));
}

#[test]
fn an_intersection_encapsulates_t_and_object() {
    let i = Intersection::new(r(35_000_000), 0);
    assert_eq!(i.t(), r(35_000_000));
    assert_eq!(i.object(), 0);
}

#[test]
fn aggregating_intersections() {
    let xs = Intersections::new(vec![Intersection::new(f(1), 0), Intersection::new(f(2), 0)]);
    assert_eq!(xs.len(), 2);
    assert_eq!(xs.get(0).t(), f(1));
    assert_eq!(xs.get(1).t(), f(2));
}

#[test]
fn intersect_sets_the_object_on_the_intersection() {
    let ray = Ray::new(Point::from_int(0, 0, -5), Vector::from_int(0, 0, 1));
    let world = tracer::world::World::new(
        vec![Object::Sphere(Sphere::default())],
        None,
    );
    let xs = world.intersect_ray(&ray);
    assert_eq!(xs.len(), 2);
    assert_eq!(xs.get(0).object(), 0);
    assert_eq!(xs.get(1).object(), 0);
}

#[test]
fn the_hit_when_all_intersections_have_positive_t() {
    let i1 = Intersection::new(f(1), 0);
    let i2 = Intersection::new(f(2), 0);
    let xs = Intersections::new(vec![i2, i1]);
    assert_eq!(xs.hit(), Some(i1));
}

#[test]
fn the_hit_when_some_intersections_have_negative_t() {
    let i1 = Intersection::new(f(-1), 0);
    let i2 = Intersection::new(f(1), 0);
    let xs = Intersections::new(vec![i2, i1]);
    assert_eq!(xs.hit(), Some(i2));
}

#[test]
fn the_hit_when_all_intersections_have_negative_t() {
    let i1 = Intersection::new(f(-2), 0);
    let i2 = Intersection::new(f(-1), 0);
    let xs = Intersections::new(vec![i2, i1]);
    assert_eq!(xs.hit(), None);
}

#[test]
fn the_hit_is_always_the_lowest_nonnegative_intersection() {
    let i1 = Intersection::new(f(5), 0);
    let i2 = Intersection::new(f(7), 0);
    let i3 = Intersection::new(f(-3), 0);
    let i4 = Intersection::new(f(2), 0);
    let xs = Intersections::new(vec![i1, i2, i3, i4]);
    assert_eq!(xs.hit(), Some(i4));
}

#[test]
fn appending_intersections_keeps_the_list_sorted() {
    let mut xs = Intersections::new(vec![
        Intersection::new(f(5), 0),
        Intersection::new(f(1), 0),
    ]);
    let more = Intersections::new(vec![
        Intersection::new(f(3), 1),
        Intersection::new(f(-2), 1),
    ]);
    xs.append(more);
    assert_eq!(xs.len(), 4);
    assert_eq!(xs.get(0).t(), f(-2));
    assert_eq!(xs.get(1).t(), f(1));
    assert_eq!(xs.get(2).t(), f(3));
    assert_eq!(xs.get(3).t(), f(5));
}
