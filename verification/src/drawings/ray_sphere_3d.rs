//! A lit rendering of the unit sphere against a wall, one ray per
//! pixel, shaded with the Phong model at the first root.

use vstd::prelude::*;

use crate::canvas::Canvas;
use crate::color::Color;
use crate::fx::Fx;
use crate::intersect::Intersect;
use crate::material::Material;
use crate::point_light::PointLight;
use crate::ray::Ray;
use crate::shape::{Object, Sphere};
use crate::tuple::Point;

verus! {

/// Casts one ray per pixel from a fixed eye toward a wall behind the
/// sphere, and shades every pixel whose ray meets the sphere.
pub fn ray_sphere_hit() -> (r: Canvas)
    ensures
        r.wf(),
        r.spec_width() == 1024,
        r.spec_height() == 1024,
{
    let mut canvas = Canvas::new(1024, 1024);
    let mut material = Material::default();
    material.set_color(
        Color {
            red: Fx { raw: 10_000_000 },
            green: Fx { raw: 2_000_000 },
            blue: Fx { raw: 10_000_000 },
        },
    );
    let sphere = Object::Sphere(Sphere::with_material(material));
    let light = PointLight {
        position: Point {
            x: Fx::from_int(-10),
            y: Fx::from_int(10),
            z: Fx::from_int(-10),
        },
        intensity: Color::white(),
    };

    let ray_origin = Point { x: Fx { raw: 0 }, y: Fx { raw: 0 }, z: Fx::from_int(-3) };
    let wall_z = Fx::from_int(-10);
    // One wall pixel is the 7-unit wall over the 1024 canvas pixels.
    let pixel_size = Fx::from_int(7).div(Fx::from_int(1024));
    let half = Fx { raw: 35_000_000 };

    let mut y: usize = 0;
    while y < 1024
        invariant
            canvas.wf(),
            canvas.spec_width() == 1024,
            canvas.spec_height() == 1024,
            y <= 1024,
        decreases 1024 - y,
    {
        let world_y = half.sub(pixel_size.mul(Fx::from_int(y as i64)));
        let mut x: usize = 0;
        while x < 1024
            invariant
                canvas.wf(),
                canvas.spec_width() == 1024,
                canvas.spec_height() == 1024,
                x <= 1024,
                y < 1024,
            decreases 1024 - x,
        {
            let world_x = pixel_size.mul(Fx::from_int(x as i64)).sub(half);
            let position = Point { x: world_x, y: world_y, z: wall_z };
            let ray = Ray::new(ray_origin, position.sub(ray_origin).normalized());
            match ray.intersect(&sphere) {
                Some(pair) => {
                    let point = ray.position(pair.0);
                    let normal = sphere.normal_at(point);
                    let eye = ray.direction().neg();
                    let color = sphere.material().lighting(
                        &sphere,
                        &light,
                        point,
                        eye,
                        normal,
                        false,
                    );
                    canvas.write_pixel(x, y, color);
                },
                None => {},
            }
            x = x + 1;
        }
        y = y + 1;
    }
    canvas
}

} // verus!
