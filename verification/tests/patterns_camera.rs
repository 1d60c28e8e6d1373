use tracer::ApproxEq;
use tracer::camera::Camera;
use tracer::canvas::Canvas;
use tracer::color::Color;
use tracer::fx::Fx;
use tracer::matrix::Matrix4;
use tracer::pattern::Pattern;
use tracer::point2d::Point2d;
use tracer::point_light::PointLight;
use tracer::ppm::Ppm;
use tracer::ray::Ray;
use tracer::shape::{Object, Sphere};
use tracer::trig::PI_RAW;
use tracer::tuple::{Point, Vector};
use tracer::world::{World, MAX_REFLECTION_DEPTH};

fn f(i: i64) -> Fx {
    Fx::from_int(i)
}

fn r(raw: i64) -> Fx {
    Fx::from_raw(raw)
}

#[test]
fn creating_a_stripe_pattern() {
    let p = Pattern::stripe(Color::white(), Color::black(), None).unwrap();
    assert_eq!(p.a, Color::white());
    assert_eq!(p.b, Color::black());
}

#[test]
fn the_default_pattern_transformation() {
    let p = Pattern::stripe(Color::white(), Color::black(), None).unwrap();
    assert!(p.transform.approx_eq(&Matrix4::identity()));
}

#[test]
fn assigning_a_transformation() {
    let mut p = Pattern::stripe(Color::white(), Color::black(), None).unwrap();
    p.set_transform(Matrix4::translation(f(1), f(2), f(3))).unwrap();
    assert!(p.transform.approx_eq(&Matrix4::translation(f(1), f(2), f(3))));
}

#[test]
fn a_stripe_pattern_is_constant_in_y() {
    let p = Pattern::stripe(Color::white(), Color::black(), None).unwrap();
    assert_eq!(p.pattern_at(Point::from_int(0, 0, 0)), Color::white());
    assert_eq!(p.pattern_at(Point::from_int(0, 1, 0)), Color::white());
    assert_eq!(p.pattern_at(Point::from_int(0, 2, 0)), Color::white());
}

#[test]
fn a_stripe_pattern_is_constant_in_z() {
    let p = Pattern::stripe(Color::white(), Color::black(), None).unwrap();
    assert_eq!(p.pattern_at(Point::from_int(0, 0, 0)), Color::white());
    assert_eq!(p.pattern_at(Point::from_int(0, 0, 1)), Color::white());
    assert_eq!(p.pattern_at(Point::from_int(0, 0, 2)), Color::white());
}

#[test]
fn a_stripe_pattern_alternates_in_x() {
    let p = Pattern::stripe(Color::white(), Color::black(), None).unwrap();
    assert_eq!(p.pattern_at(Point::from_int(0, 0, 0)), Color::white());
    assert_eq!(p.pattern_at(Point::from_raw(9_000_000, 0, 0)), Color::white());
    assert_eq!(p.pattern_at(Point::from_int(1, 0, 0)), Color::black());
    assert_eq!(p.pattern_at(Point::from_raw(-1_000_000, 0, 0)), Color::black());
    assert_eq!(p.pattern_at(Point::from_int(-1, 0, 0)), Color::black());
    assert_eq!(p.pattern_at(Point::from_raw(-11_000_000, 0, 0)), Color::white());
}

#[test]
fn stripes_with_an_object_transformation() {
    let sphere = Sphere::with_transform(Matrix4::scaling(f(2), f(2), f(2))).unwrap();
    let object = Object::Sphere(sphere);
    let p = Pattern::stripe(Color::white(), Color::black(), None).unwrap();
    let c = p.pattern_at_transformed(&object.inverse(), Point::from_raw(15_000_000, 0, 0));
    assert_eq!(c, Color::white());
}

#[test]
fn stripes_with_a_pattern_transformation() {
    let object = Object::Sphere(Sphere::default());
    let p = Pattern::stripe(
        Color::white(),
        Color::black(),
        Some(Matrix4::scaling(f(2), f(2), f(2))),
    ).unwrap();
    let c = p.pattern_at_transformed(&object.inverse(), Point::from_raw(15_000_000, 0, 0));
    assert_eq!(c, Color::white());
}

#[test]
fn stripes_with_both_an_object_and_a_pattern_transformation() {
    let sphere = Sphere::with_transform(Matrix4::scaling(f(2), f(2), f(2))).unwrap();
    let object = Object::Sphere(sphere);
    let p = Pattern::stripe(
        Color::white(),
        Color::black(),
        Some(Matrix4::translation(r(5_000_000), f(0), f(0))),
    ).unwrap();
    let c = p.pattern_at_transformed(&object.inverse(), Point::from_raw(25_000_000, 0, 0));
    assert_eq!(c, Color::white());
}

#[test]
fn a_gradient_linearly_interpolates_between_colors() {
    let p = Pattern::gradient(Color::white(), Color::black(), None).unwrap();
    assert_eq!(p.pattern_at(Point::from_int(0, 0, 0)), Color::white());
    assert_eq!(
        p.pattern_at(Point::from_raw(2_500_000, 0, 0)),
        Color::from_raw(7_500_000, 7_500_000, 7_500_000),
    );
    assert_eq!(
        p.pattern_at(Point::from_raw(5_000_000, 0, 0)),
        Color::from_raw(5_000_000, 5_000_000, 5_000_000),
    );
    assert_eq!(
        p.pattern_at(Point::from_raw(7_500_000, 0, 0)),
        Color::from_raw(2_500_000, 2_500_000, 2_500_000),
    );
}

#[test]
fn a_ring_should_extend_in_both_x_and_z() {
    let p = Pattern::ring(Color::white(), Color::black(), None).unwrap();
    assert_eq!(p.pattern_at(Point::from_int(0, 0, 0)), Color::white());
    assert_eq!(p.pattern_at(Point::from_int(1, 0, 0)), Color::black());
    assert_eq!(p.pattern_at(Point::from_int(0, 0, 1)), Color::black());
    assert_eq!(p.pattern_at(Point::from_raw(7_080_000, 0, 7_080_000)), Color::black());
}

#[test]
fn checkers_should_repeat_in_x() {
    let p = Pattern::checkers(Color::white(), Color::black(), None).unwrap();
    assert_eq!(p.pattern_at(Point::from_int(0, 0, 0)), Color::white());
    assert_eq!(p.pattern_at(Point::from_raw(9_900_000, 0, 0)), Color::white());
    assert_eq!(p.pattern_at(Point::from_raw(10_100_000, 0, 0)), Color::black());
}

#[test]
fn checkers_should_repeat_in_y() {
    let p = Pattern::checkers(Color::white(), Color::black(), None).unwrap();
    assert_eq!(p.pattern_at(Point::from_int(0, 0, 0)), Color::white());
    assert_eq!(p.pattern_at(Point::from_raw(0, 9_900_000, 0)), Color::white());
    assert_eq!(p.pattern_at(Point::from_raw(0, 10_100_000, 0)), Color::black());
}

#[test]
fn checkers_should_repeat_in_z() {
    let p = Pattern::checkers(Color::white(), Color::black(), None).unwrap();
    assert_eq!(p.pattern_at(Point::from_int(0, 0, 0)), Color::white());
    assert_eq!(p.pattern_at(Point::from_raw(0, 0, 9_900_000)), Color::white());
    assert_eq!(p.pattern_at(Point::from_raw(0, 0, 10_100_000)), Color::black());
}

#[test]
fn constructing_a_camera() {
    let c = Camera::new(160, 120, r(PI_RAW / 2), None).unwrap();
    assert_eq!(c.hsize(), 160);
    assert_eq!(c.vsize(), 120);
    assert_eq!(c.field_of_view(), r(PI_RAW / 2));
    assert!(c.transform().approx_eq(&Matrix4::identity()));
}

#[test]
fn the_pixel_size_for_a_horizontal_canvas() {
    let c = Camera::new(200, 125, r(PI_RAW / 2), None).unwrap();
    assert!(c.pixel_size().approx_eq(&r(100_000)));
}

#[test]
fn the_pixel_size_for_a_vertical_canvas() {
    let c = Camera::new(125, 200, r(PI_RAW / 2), None).unwrap();
    assert!(c.pixel_size().approx_eq(&r(100_000)));
}

#[test]
fn constructing_a_ray_through_the_center_of_the_canvas() {
    let c = Camera::new(201, 101, r(PI_RAW / 2), None).unwrap();
    let ray = c.ray_for_pixel(100, 50);
    assert!(ray.origin.approx_eq(&Point::from_int(0, 0, 0)));
    assert!(ray.direction.approx_eq(&Vector::from_int(0, 0, -1)));
}

#[test]
fn constructing_a_ray_through_the_corner_of_the_canvas() {
    let c = Camera::new(201, 101, r(PI_RAW / 2), None).unwrap();
    let ray = c.ray_for_pixel(0, 0);
    assert!(ray.origin.approx_eq(&Point::from_int(0, 0, 0)));
    assert!(ray.direction.approx_eq(&Vector::from_raw(6_651_900, 3_325_900, -6_685_100)));
}

#[test]
fn constructing_a_ray_when_the_camera_is_transformed() {
    let t = Matrix4::rotation_y(r(PI_RAW / 4)).mul(&Matrix4::translation(f(0), f(-2), f(5)));
    let c = Camera::new(201, 101, r(PI_RAW / 2), Some(t)).unwrap();
    let ray = c.ray_for_pixel(100, 50);
    assert!(ray.origin.approx_eq(&Point::from_int(0, 2, -5)));
    assert!(ray.direction.approx_eq(&Vector::from_raw(7_071_068, 0, -7_071_068)));
}

#[test]
fn rendering_a_world_with_a_camera() {
    let world = World::default();
    let view = Matrix4::view_transform(
        Point::from_int(0, 0, -5),
        Point::from_int(0, 0, 0),
        Vector::from_int(0, 1, 0),
    );
    let camera = Camera::new(11, 11, r(PI_RAW / 2), Some(view)).unwrap();
    let image = camera.render(&world);
    let pixel = image.pixel_at(5, 5);
    assert!(pixel.approx_eq(&Color::from_raw(3_806_600, 4_758_300, 2_855_000)));
}

#[test]
fn canvas_is_of_correct_size() {
    let canvas = Canvas::new(10, 20);
    assert_eq!(canvas.width(), 10);
    assert_eq!(canvas.height(), 20);
    assert_eq!(canvas.pixels().len(), 200);
}

#[test]
fn canvas_pixels_are_black_by_default() {
    let canvas = Canvas::new(10, 20);
    for pixel in canvas.pixels() {
        assert_eq!(*pixel, Color::black());
    }
}

#[test]
fn pixel_at_returns_expected_color() {
    let mut canvas = Canvas::new(10, 20);
    let red = Color::from_raw(10_000_000, 0, 0);
    canvas.write_pixel(2, 3, red);
    assert_eq!(canvas.pixel_at(2, 3), red);
    assert_eq!(canvas.pixel_at(2, 4), Color::black());
}

#[test]
fn a_ppm_has_a_header_and_pixel_data() {
    let ppm = Ppm::new("P3", "5", "3", "255", String::from("0 0 0\n"));
    assert_eq!(ppm.header(), "P3\n5 3\n255\n");
    assert_eq!(ppm.pixel_data(), "0 0 0\n");
    assert_eq!(ppm.data(), "P3\n5 3\n255\n0 0 0\n");
}

#[test]
fn a_point2d_holds_pixel_coordinates() {
    let p = Point2d::new(3, 4);
    assert_eq!(p.x, 3);
    assert_eq!(p.y, 4);
}

#[test]
fn the_clock_drawing_fills_a_square_canvas() {
    let canvas = tracer::drawings::clock::draw_clock();
    assert_eq!(canvas.width(), 512);
    assert_eq!(canvas.height(), 512);
    let mut lit: usize = 0;
    for pixel in canvas.pixels() {
        if *pixel == Color::white() {
            lit += 1;
        }
    }
    assert_eq!(lit, 12);
}

#[test]
fn the_projectile_drawing_plots_a_flight() {
    let canvas = tracer::projectile::launch_projecticle();
    assert_eq!(canvas.width(), 900);
    assert_eq!(canvas.height(), 550);
    let red = Color::from_raw(10_000_000, 0, 0);
    let mut lit: usize = 0;
    for pixel in canvas.pixels() {
        if *pixel == red {
            lit += 1;
        }
    }
    assert!(lit > 10);
}

#[test]
fn the_flat_sphere_shadowgraph_marks_hits_in_red() {
    let canvas = tracer::drawings::ray_sphere::ray_sphere_hit();
    assert_eq!(canvas.width(), 256);
    assert_eq!(canvas.height(), 256);
    let red = Color::from_raw(10_000_000, 0, 0);
    // The ray straight at the sphere's center hits it.
    assert_eq!(canvas.pixel_at(128, 128), red);
    // A ray aimed far off to the side misses.
    assert_eq!(canvas.pixel_at(0, 0), Color::black());
}

#[test]
fn a_small_render_of_two_mutually_reflective_planes_terminates() {
    let mut lower_material = tracer::material::Material::default();
    lower_material.set_reflective(f(1));
    let lower = tracer::shape::Plane::new(
        Matrix4::translation(f(0), f(-1), f(0)),
        lower_material,
    ).unwrap();
    let mut upper_material = tracer::material::Material::default();
    upper_material.set_reflective(f(1));
    let upper = tracer::shape::Plane::new(
        Matrix4::translation(f(0), f(1), f(0)),
        upper_material,
    ).unwrap();
    let light = PointLight::new(Point::from_int(0, 0, 0), Color::white());
    let world = World::new(
        vec![Object::Plane(lower), Object::Plane(upper)],
        Some(light),
    );
    let ray = Ray::new(Point::from_int(0, 0, 0), Vector::from_int(0, 1, 0));
    let color = world.color_at(&ray, MAX_REFLECTION_DEPTH);
    assert_eq!(color, color);
}

#[test]
fn checkers_alternate_at_every_unit_and_repeat_every_two() {
    let p = Pattern::checkers(Color::white(), Color::black(), None).unwrap();
    let at = |raw: i64| p.pattern_at(Point::from_raw(raw, 0, 0));
    assert_eq!(at(5_000_000), Color::white());
    assert_eq!(at(15_000_000), Color::black());
    assert_eq!(at(25_000_000), Color::white());
    assert_eq!(at(-5_000_000), Color::black());
    assert_eq!(at(-15_000_000), Color::white());
}

#[test]
fn ppm_color_values_scale_clamp_and_round_up() {
    assert_eq!(tracer::ppm::color_value(f(0)), 0);
    assert_eq!(tracer::ppm::color_value(f(1)), 255);
    assert_eq!(tracer::ppm::color_value(f(2)), 255);
    assert_eq!(tracer::ppm::color_value(f(-1)), 0);
    assert_eq!(tracer::ppm::color_value(r(5_000_000)), 128);
}
