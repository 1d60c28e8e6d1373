//! The flat shadowgraph of the unit sphere: one ray per canvas pixel,
//! a red pixel wherever the ray meets the sphere.

use vstd::prelude::*;

use crate::canvas::Canvas;
use crate::color::{Color, spec_black, spec_color};
use crate::fx::{Fx, SCALE, clamp_raw};
use crate::intersect::{Intersect, spec_object_intersect};
use crate::material::spec_default_material;
use crate::matrix::spec_identity;
use crate::ray::Ray;
use crate::shape::{Object, Sphere};
use crate::tuple::{Point, Vector, spec_point, spec_vec};

verus! {

/// The untransformed unit sphere the shadowgraph casts against.
pub open spec fn spec_shadow_sphere() -> Object {
    Object::Sphere(
        Sphere {
            transform: spec_identity(),
            inv: spec_identity(),
            material: spec_default_material(),
        },
    )
}

/// The ray aimed at the wall point above canvas cell `(x, y)`: it leaves
/// just in front of the sphere toward the point `(x, y, 10)`.
pub open spec fn spec_shadow_ray(x: int, y: int) -> Ray {
    Ray {
        origin: spec_point(0, 0, -10_050_000),
        direction: spec_vec(clamp_raw(x * SCALE), clamp_raw(y * SCALE), 10 * (SCALE as int)),
    }
}

/// What the shadowgraph paints at cell `(x, y)`: red on a hit, black on
/// a miss.
pub open spec fn spec_shadow_pixel(x: int, y: int) -> Color {
    if spec_object_intersect(spec_shadow_ray(x, y), spec_shadow_sphere()) is Some {
        spec_color(SCALE as int, 0, 0)
    } else {
        spec_black()
    }
}

/// Casts a fan of rays from just in front of the unit sphere toward a
/// wall of points and plots each hit in red; the last row and column of
/// the canvas receive no ray and stay black.
pub fn ray_sphere_hit() -> (r: Canvas)
    ensures
        r.wf(),
        r.spec_width() == 256,
        r.spec_height() == 256,
        forall|x: int, y: int|
            -128 <= x < 127 && -128 <= y < 127 ==> #[trigger] r.spec_pixel(x + 128, y + 128)
                == spec_shadow_pixel(x, y),
        forall|i: int, j: int|
            0 <= i < 256 && 0 <= j < 256 && (i == 255 || j == 255) ==> #[trigger] r.spec_pixel(
                i,
                j,
            ) == spec_black(),
{
    let mut canvas = Canvas::new(256, 256);
    let red = Color {
        red: Fx { raw: SCALE },
        green: Fx { raw: 0 },
        blue: Fx { raw: 0 },
    };
    let sphere = Object::Sphere(Sphere::default());

    let mut y: i64 = -128;
    while y < 127
        invariant
            canvas.wf(),
            canvas.spec_width() == 256,
            canvas.spec_height() == 256,
            -128 <= y <= 127,
            sphere == spec_shadow_sphere(),
            red == spec_color(SCALE as int, 0, 0),
            forall|i: int, j: int|
                -128 <= i < 127 && -128 <= j < y ==> #[trigger] canvas.spec_pixel(i + 128, j + 128)
                    == spec_shadow_pixel(i, j),
            forall|i: int, j: int|
                0 <= i < 256 && 0 <= j < 256 && (j >= y + 128 || i == 255)
                    ==> #[trigger] canvas.spec_pixel(i, j) == spec_black(),
        decreases 127 - y,
    {
        let mut x: i64 = -128;
        while x < 127
            invariant
                canvas.wf(),
                canvas.spec_width() == 256,
                canvas.spec_height() == 256,
                -128 <= x <= 127,
                -128 <= y < 127,
                sphere == spec_shadow_sphere(),
                red == spec_color(SCALE as int, 0, 0),
                forall|i: int, j: int|
                    -128 <= i < 127 && -128 <= j < y ==> #[trigger] canvas.spec_pixel(
                        i + 128,
                        j + 128,
                    ) == spec_shadow_pixel(i, j),
                forall|i: int|
                    -128 <= i < x ==> #[trigger] canvas.spec_pixel(i + 128, y + 128)
                        == spec_shadow_pixel(i, y as int),
                forall|i: int, j: int|
                    0 <= i < 256 && 0 <= j < 256 && (j > y + 128 || (j == y + 128 && i >= x + 128)
                        || i == 255) ==> #[trigger] canvas.spec_pixel(i, j) == spec_black(),
            decreases 127 - x,
        {
            let origin = Point {
                x: Fx { raw: 0 },
                y: Fx { raw: 0 },
                z: Fx { raw: -10_050_000 },
            };
            let direction = Vector {
                x: Fx::from_int(x),
                y: Fx::from_int(y),
                z: Fx::from_int(10),
            };
            let ray = Ray::new(origin, direction);
            if ray.intersect(&sphere).is_some() {
                canvas.write_pixel((128 + x) as usize, (128 + y) as usize, red);
            }
            x = x + 1;
        }
        y = y + 1;
    }
    canvas
}

} // verus!
