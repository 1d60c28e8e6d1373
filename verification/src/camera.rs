//! The camera: pixel coordinates to primary rays, and the render loop.

use vstd::prelude::*;

use crate::canvas::Canvas;
use crate::fx::{Fx, SCALE, clamp_raw, spec_add, spec_sub, spec_mul, spec_div};
use crate::matrix::{
    Matrix4, MatrixError, spec_invertible, spec_inverse4, spec_mul_point,
};
use crate::pattern::spec_transform_or_identity;
use crate::ray::Ray;
use crate::trig::{tan_fx, spec_tan};
use crate::tuple::{Point, spec_normalized, spec_point, spec_psub};
use crate::world::{World, MAX_REFLECTION_DEPTH, spec_color_at};

verus! {

/// A camera of `hsize` by `vsize` pixels with a field of view and a
/// view transform; the inverse of the transform and the derived pixel
/// measures are fixed at construction.
#[derive(Clone, Copy, Debug)]
pub struct Camera {
    pub hsize: usize,
    pub vsize: usize,
    pub field_of_view: Fx,
    pub transform: Matrix4,
    pub inv: Matrix4,
    pub half_width: Fx,
    pub half_height: Fx,
    pub pixel_size: Fx,
}

/// Half the canvas, one unit in front of the eye: the tangent of half
/// the field of view.
pub open spec fn spec_half_view(fov: int) -> int {
    spec_tan(spec_div(fov, 2 * (SCALE as int)))
}

/// `(half_width, half_height, pixel_size)` from the pixel counts and
/// the field of view: the wider side takes the half view, the other is
/// scaled by the aspect ratio, and a pixel is the width over `hsize`.
pub open spec fn spec_camera_dims(hsize: int, vsize: int, fov: int) -> (int, int, int) {
    let half_view = spec_half_view(fov);
    let aspect = spec_div(clamp_raw(hsize * SCALE), clamp_raw(vsize * SCALE));
    let hw = if aspect >= SCALE {
        half_view
    } else {
        spec_mul(half_view, aspect)
    };
    let hh = if aspect >= SCALE {
        spec_div(half_view, aspect)
    } else {
        half_view
    };
    (hw, hh, spec_div(spec_mul(hw, 2 * (SCALE as int)), clamp_raw(hsize * SCALE)))
}

/// The primary ray through the center of pixel `(px, py)`: the pixel's
/// world position on the canvas plane at `z = -1`, and the eye origin,
/// both carried through the inverse view transform.
pub open spec fn spec_ray_for_pixel(c: Camera, px: int, py: int) -> Ray {
    let x_offset = spec_mul(spec_add(clamp_raw(px * SCALE), 5_000_000), c.pixel_size.rv());
    let y_offset = spec_mul(spec_add(clamp_raw(py * SCALE), 5_000_000), c.pixel_size.rv());
    let world_x = spec_sub(c.half_width.rv(), x_offset);
    let world_y = spec_sub(c.half_height.rv(), y_offset);
    let pixel = spec_mul_point(c.inv, spec_point(world_x, world_y, -(SCALE as int)));
    let origin = spec_mul_point(c.inv, spec_point(0, 0, 0));
    Ray { origin, direction: spec_normalized(spec_psub(pixel, origin)) }
}

impl Camera {
    /// The stored inverse and derived measures match the transform and
    /// the pixel geometry.
    pub open spec fn wf(self) -> bool {
        &&& spec_invertible(self.transform)
        &&& self.inv == spec_inverse4(self.transform)
        &&& (self.half_width.rv(), self.half_height.rv(), self.pixel_size.rv())
            == spec_camera_dims(self.hsize as int, self.vsize as int, self.field_of_view.rv())
    }

    /// Builds a camera; a view transform within tolerance of singular is
    /// rejected.  The pixel counts are bounded so that a canvas of that
    /// size can be addressed.
    pub fn new(hsize: usize, vsize: usize, field_of_view: Fx, transform: Option<Matrix4>) -> (r:
        Result<Camera, MatrixError>)
        requires
            hsize <= 0xffff,
            vsize <= 0xffff,
        ensures
            spec_invertible(spec_transform_or_identity(transform)) ==> match r {
                Ok(c) => {
                    &&& c.hsize == hsize
                    &&& c.vsize == vsize
                    &&& c.field_of_view == field_of_view
                    &&& c.transform == spec_transform_or_identity(transform)
                    &&& c.wf()
                },
                Err(_) => false,
            },
            !spec_invertible(spec_transform_or_identity(transform)) ==> r == Err::<
                Camera,
                MatrixError,
            >(MatrixError::NotInvertible),
    {
        let t = match transform {
            Some(m) => m,
            None => Matrix4::identity(),
        };
        match t.inverse() {
            Ok(inv) => {
                let half_view = tan_fx(field_of_view.div(Fx::from_int(2)));
                let aspect = Fx::from_int(hsize as i64).div(Fx::from_int(vsize as i64));
                let (half_width, half_height) = if aspect.raw >= SCALE {
                    (half_view, half_view.div(aspect))
                } else {
                    (half_view.mul(aspect), half_view)
                };
                let pixel_size = half_width.mul(Fx::from_int(2)).div(Fx::from_int(hsize as i64));
                Ok(
                    Camera {
                        hsize,
                        vsize,
                        field_of_view,
                        transform: t,
                        inv,
                        half_width,
                        half_height,
                        pixel_size,
                    },
                )
            },
            Err(e) => Err(MatrixError::NotInvertible),
        }
    }

    pub fn hsize(&self) -> (r: usize)
        ensures
            r == self.hsize,
    {
        self.hsize
    }

    pub fn vsize(&self) -> (r: usize)
        ensures
            r == self.vsize,
    {
        self.vsize
    }

    pub fn field_of_view(&self) -> (r: Fx)
        ensures
            r == self.field_of_view,
    {
        self.field_of_view
    }

    pub fn transform(&self) -> (r: Matrix4)
        ensures
            r == self.transform,
    {
        self.transform
    }

    pub fn half_width(&self) -> (r: Fx)
        ensures
            r == self.half_width,
    {
        self.half_width
    }

    pub fn half_height(&self) -> (r: Fx)
        ensures
            r == self.half_height,
    {
        self.half_height
    }

    pub fn pixel_size(&self) -> (r: Fx)
        ensures
            r == self.pixel_size,
    {
        self.pixel_size
    }

    /// The primary ray through the center of a pixel.
    pub fn ray_for_pixel(&self, px: usize, py: usize) -> (r: Ray)
        requires
            px <= 0xffff_ffff,
            py <= 0xffff_ffff,
        ensures
            r == spec_ray_for_pixel(*self, px as int, py as int),
    {
        let half = Fx { raw: 5_000_000 };
        let x_offset = Fx::from_int(px as i64).add(half).mul(self.pixel_size);
        let y_offset = Fx::from_int(py as i64).add(half).mul(self.pixel_size);
        let world_x = self.half_width.sub(x_offset);
        let world_y = self.half_height.sub(y_offset);
        let z = Fx { raw: 0 };
        let pixel = self.inv.mul_point(Point { x: world_x, y: world_y, z: Fx { raw: -SCALE } });
        let origin = self.inv.mul_point(Point { x: z, y: z, z });
        let direction = pixel.sub(origin).normalized();
        Ray { origin, direction }
    }

    /// Renders the world: every pixel gets the color seen along its
    /// primary ray, resolved to the full reflection depth.
    pub fn render(&self, world: &World) -> (r: Canvas)
        requires
            world.light is Some,
            self.hsize <= 0xffff,
            self.vsize <= 0xffff,
        ensures
            r.wf(),
            r.spec_width() == self.hsize,
            r.spec_height() == self.vsize,
            forall|x: int, y: int|
                0 <= x < self.hsize && 0 <= y < self.vsize ==> #[trigger] r.spec_pixel(x, y)
                    == spec_color_at(
                    *world,
                    spec_ray_for_pixel(*self, x, y),
                    MAX_REFLECTION_DEPTH as nat,
                ),
    {
        proof {
            assert((self.hsize as int) * (self.vsize as int) <= 0xffff_ffff) by (nonlinear_arith)
                requires
                    self.hsize <= 0xffff,
                    self.vsize <= 0xffff,
            ;
        }
        let mut image = Canvas::new(self.hsize, self.vsize);
        let mut y: usize = 0;
        while y < self.vsize
            invariant
                y <= self.vsize,
                self.hsize <= 0xffff,
                self.vsize <= 0xffff,
                world.light is Some,
                image.wf(),
                image.spec_width() == self.hsize,
                image.spec_height() == self.vsize,
                forall|i: int, j: int|
                    0 <= i < self.hsize && 0 <= j < y ==> #[trigger] image.spec_pixel(i, j)
                        == spec_color_at(
                        *world,
                        spec_ray_for_pixel(*self, i, j),
                        MAX_REFLECTION_DEPTH as nat,
                    ),
            decreases self.vsize - y,
        {
            let mut x: usize = 0;
            while x < self.hsize
                invariant
                    x <= self.hsize,
                    y < self.vsize,
                    self.hsize <= 0xffff,
                    self.vsize <= 0xffff,
                    world.light is Some,
                    image.wf(),
                    image.spec_width() == self.hsize,
                    image.spec_height() == self.vsize,
                    forall|i: int, j: int|
                        0 <= i < self.hsize && 0 <= j < y ==> #[trigger] image.spec_pixel(i, j)
                            == spec_color_at(
                            *world,
                            spec_ray_for_pixel(*self, i, j),
                            MAX_REFLECTION_DEPTH as nat,
                        ),
                    forall|i: int|
                        0 <= i < x ==> #[trigger] image.spec_pixel(i, y as int) == spec_color_at(
                            *world,
                            spec_ray_for_pixel(*self, i, y as int),
                            MAX_REFLECTION_DEPTH as nat,
                        ),
                decreases self.hsize - x,
            {
                let ray = self.ray_for_pixel(x, y);
                let color = world.color_at(&ray, MAX_REFLECTION_DEPTH);
                image.write_pixel(x, y, color);
                x = x + 1;
            }
            y = y + 1;
        }
        image
    }
}

} // verus!
