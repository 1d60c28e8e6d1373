//! A reflective, transparent scene: a checkered glassy floor under
//! three shiny mirrored spheres.

use vstd::prelude::*;

use crate::camera::Camera;
use crate::canvas::Canvas;
use crate::color::Color;
use crate::fx::Fx;
use crate::material::Material;
use crate::matrix::{Matrix4, MatrixError};
use crate::pattern::Pattern;
use crate::point_light::PointLight;
use crate::shape::{Object, Plane, Sphere};
use crate::tuple::{Point, Vector};
use crate::world::World;

verus! {

/// The reflection and refraction showcase: a checkers-patterned floor
/// that both reflects and transmits, walls, and three mirror spheres.
#[verifier::rlimit(100)]
pub fn spheres() -> (r: Result<Canvas, MatrixError>)
    ensures
        r is Ok ==> {
            &&& r->Ok_0.wf()
            &&& r->Ok_0.spec_width() == 1280
            &&& r->Ok_0.spec_height() == 720
        },
{
    let mut floor_material = Material::default();
    floor_material.set_color(Color::from_raw(10_000_000, 9_000_000, 9_000_000));
    floor_material.set_specular(Fx { raw: 10_000_000 });
    let floor_pattern = match Pattern::checkers(Color::black(), Color::white(), None) {
        Ok(p) => p,
        Err(e) => { return Err(e); },
    };
    floor_material.set_pattern(floor_pattern);
    floor_material.set_reflective(Fx { raw: 9_000_000 });
    floor_material.set_transparency(Fx { raw: 9_000_000 });
    floor_material.set_shininess(Fx::from_int(300));
    let mut floor = Plane::default();
    floor.set_material(floor_material);

    let mut wall_material = Material::default();
    wall_material.set_color(Color::from_raw(10_000_000, 9_000_000, 9_000_000));
    wall_material.set_specular(Fx { raw: 10_000_000 });
    let wall_pattern = match Pattern::checkers(Color::black(), Color::white(), None) {
        Ok(p) => p,
        Err(e) => { return Err(e); },
    };
    wall_material.set_pattern(wall_pattern);
    wall_material.set_reflective(Fx { raw: 9_000_000 });
    wall_material.set_shininess(Fx::from_int(300));

    let wall_scale = Matrix4::scaling(
        Fx::from_int(10),
        Fx { raw: 100_000 },
        Fx::from_int(10),
    );
    let left_wall_transform = Matrix4::translation(Fx { raw: 0 }, Fx { raw: 0 }, Fx::from_int(5))
        .mul(&Matrix4::rotation_y(Fx { raw: -7_853_982 }))
        .mul(&Matrix4::rotation_x(Fx { raw: 15_707_963 }))
        .mul(&wall_scale);
    let left_wall = match Sphere::new(left_wall_transform, wall_material) {
        Ok(s) => s,
        Err(e) => { return Err(e); },
    };
    let right_wall_transform = Matrix4::translation(Fx { raw: 0 }, Fx { raw: 0 }, Fx::from_int(5))
        .mul(&Matrix4::rotation_y(Fx { raw: 7_853_982 }))
        .mul(&Matrix4::rotation_x(Fx { raw: 15_707_963 }))
        .mul(&wall_scale);
    let right_wall = match Sphere::new(right_wall_transform, wall_material) {
        Ok(s) => s,
        Err(e) => { return Err(e); },
    };

    let mut middle_material = Material::default();
    middle_material.set_color(Color::from_raw(1_000_000, 10_000_000, 5_000_000));
    middle_material.set_diffuse(Fx { raw: 7_000_000 });
    middle_material.set_specular(Fx { raw: 10_000_000 });
    middle_material.set_reflective(Fx { raw: 9_000_000 });
    middle_material.set_shininess(Fx::from_int(300));
    let middle = match Sphere::new(
        Matrix4::translation(Fx { raw: -5_000_000 }, Fx::from_int(1), Fx { raw: 5_000_000 }),
        middle_material,
    ) {
        Ok(s) => s,
        Err(e) => { return Err(e); },
    };

    let mut right_material = Material::default();
    right_material.set_color(Color::from_raw(5_000_000, 10_000_000, 1_000_000));
    right_material.set_diffuse(Fx { raw: 7_000_000 });
    right_material.set_specular(Fx { raw: 10_000_000 });
    right_material.set_reflective(Fx { raw: 9_000_000 });
    right_material.set_shininess(Fx::from_int(300));
    let right = match Sphere::new(
        Matrix4::translation(Fx { raw: 15_000_000 }, Fx { raw: 5_000_000 }, Fx { raw: -5_000_000 })
            .mul(&Matrix4::scaling(Fx { raw: 5_000_000 }, Fx { raw: 5_000_000 }, Fx { raw: 5_000_000 })),
        right_material,
    ) {
        Ok(s) => s,
        Err(e) => { return Err(e); },
    };

    let mut left_material = Material::default();
    left_material.set_color(Color::from_raw(10_000_000, 8_000_000, 1_000_000));
    left_material.set_diffuse(Fx { raw: 7_000_000 });
    left_material.set_specular(Fx { raw: 10_000_000 });
    left_material.set_reflective(Fx { raw: 9_000_000 });
    left_material.set_shininess(Fx::from_int(300));
    let left = match Sphere::new(
        Matrix4::translation(Fx { raw: -15_000_000 }, Fx { raw: 3_300_000 }, Fx { raw: -7_500_000 })
            .mul(&Matrix4::scaling(Fx { raw: 3_300_000 }, Fx { raw: 3_300_000 }, Fx { raw: 3_300_000 })),
        left_material,
    ) {
        Ok(s) => s,
        Err(e) => { return Err(e); },
    };

    let mut objects: Vec<Object> = Vec::new();
    objects.push(Object::Plane(floor));
    objects.push(Object::Sphere(left_wall));
    objects.push(Object::Sphere(right_wall));
    objects.push(Object::Sphere(middle));
    objects.push(Object::Sphere(right));
    objects.push(Object::Sphere(left));
    let light = PointLight::new(
        Point::from_raw(-100_000_000, 150_000_000, -100_000_000),
        Color::white(),
    );
    let world = World::new(objects, Some(light));

    let view = Matrix4::view_transform(
        Point::from_raw(0, 15_000_000, -50_000_000),
        Point::from_raw(0, 10_000_000, 0),
        Vector::from_raw(0, 10_000_000, 0),
    );
    let camera = match Camera::new(1280, 720, Fx { raw: 10_471_976 }, Some(view)) {
        Ok(c) => c,
        Err(e) => { return Err(e); },
    };

    Ok(camera.render(&world))
}

} // verus!
