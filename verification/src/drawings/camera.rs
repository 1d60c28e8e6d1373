//! Three rendered sphere scenes seen through a camera: plain, striped
//! and gradient materials.

use vstd::prelude::*;

use crate::camera::Camera;
use crate::canvas::Canvas;
use crate::color::Color;
use crate::fx::Fx;
use crate::material::Material;
use crate::matrix::{Matrix4, MatrixError};
use crate::pattern::Pattern;
use crate::point_light::PointLight;
use crate::shape::{Object, Sphere};
use crate::trig::PI_RAW;
use crate::tuple::{Point, Vector};
use crate::world::World;

verus! {

/// A floor, two sphere walls and three matte spheres.
#[verifier::rlimit(100)]
pub fn spheres() -> (r: Result<Canvas, MatrixError>)
    ensures
        r is Ok ==> {
            &&& r->Ok_0.wf()
            &&& r->Ok_0.spec_width() == 1280
            &&& r->Ok_0.spec_height() == 720
        },
{
    let mut material = Material::default();
    material.set_color(Color::from_raw(10_000_000, 9_000_000, 9_000_000));
    material.set_specular(Fx { raw: 0 });

    let floor_transform = Matrix4::scaling(
        Fx::from_int(10),
        Fx { raw: 100_000 },
        Fx::from_int(10),
    );
    let floor = match Sphere::new(floor_transform, material) {
        Ok(s) => s,
        Err(e) => { return Err(e); },
    };

    let left_wall_transform = Matrix4::translation(Fx { raw: 0 }, Fx { raw: 0 }, Fx::from_int(5))
        .mul(&Matrix4::rotation_y(Fx { raw: -7_853_982 }))
        .mul(&Matrix4::rotation_x(Fx { raw: 15_707_963 }))
        .mul(&floor_transform);
    let left_wall = match Sphere::new(left_wall_transform, material) {
        Ok(s) => s,
        Err(e) => { return Err(e); },
    };

    let right_wall_transform = Matrix4::translation(Fx { raw: 0 }, Fx { raw: 0 }, Fx::from_int(5))
        .mul(&Matrix4::rotation_y(Fx { raw: 7_853_982 }))
        .mul(&Matrix4::rotation_x(Fx { raw: 15_707_963 }))
        .mul(&floor_transform);
    let right_wall = match Sphere::new(right_wall_transform, material) {
        Ok(s) => s,
        Err(e) => { return Err(e); },
    };

    let mut middle_material = material;
    middle_material.set_color(Color::from_raw(1_000_000, 10_000_000, 5_000_000));
    middle_material.set_diffuse(Fx { raw: 7_000_000 });
    middle_material.set_specular(Fx { raw: 3_000_000 });
    let middle = match Sphere::new(
        Matrix4::translation(Fx { raw: -5_000_000 }, Fx::from_int(1), Fx { raw: 5_000_000 }),
        middle_material,
    ) {
        Ok(s) => s,
        Err(e) => { return Err(e); },
    };

    let mut right_material = material;
    right_material.set_color(Color::from_raw(5_000_000, 10_000_000, 1_000_000));
    right_material.set_diffuse(Fx { raw: 7_000_000 });
    right_material.set_specular(Fx { raw: 3_000_000 });
    let right = match Sphere::new(
        Matrix4::translation(Fx { raw: 15_000_000 }, Fx { raw: 5_000_000 }, Fx { raw: -5_000_000 })
            .mul(&Matrix4::scaling(Fx { raw: 5_000_000 }, Fx { raw: 5_000_000 }, Fx { raw: 5_000_000 })),
        right_material,
    ) {
        Ok(s) => s,
        Err(e) => { return Err(e); },
    };

    let mut left_material = Material::default();
    left_material.set_color(Color::from_raw(10_000_000, 8_000_000, 1_000_000));
    left_material.set_diffuse(Fx { raw: 7_000_000 });
    left_material.set_specular(Fx { raw: 3_000_000 });
    let left = match Sphere::new(
        Matrix4::translation(Fx { raw: -15_000_000 }, Fx { raw: 3_300_000 }, Fx { raw: -7_500_000 })
            .mul(&Matrix4::scaling(Fx { raw: 3_300_000 }, Fx { raw: 3_300_000 }, Fx { raw: 3_300_000 })),
        left_material,
    ) {
        Ok(s) => s,
        Err(e) => { return Err(e); },
    };

    let mut objects: Vec<Object> = Vec::new();
    objects.push(Object::Sphere(floor));
    objects.push(Object::Sphere(left_wall));
    objects.push(Object::Sphere(right_wall));
    objects.push(Object::Sphere(middle));
    objects.push(Object::Sphere(right));
    objects.push(Object::Sphere(left));
    let light = PointLight::new(
        Point::from_raw(-100_000_000, 150_000_000, -100_000_000),
        Color::white(),
    );
    let world = World::new(objects, Some(light));

    let view = Matrix4::view_transform(
        Point::from_raw(0, 15_000_000, -50_000_000),
        Point::from_raw(0, 10_000_000, 0),
        Vector::from_raw(0, 10_000_000, 0),
    );
    let camera = match Camera::new(1280, 720, Fx { raw: 10_471_976 }, Some(view)) {
        Ok(c) => c,
        Err(e) => { return Err(e); },
    };

    Ok(camera.render(&world))
}

/// The sphere scene with a rotated stripe pattern on the middle sphere.
#[verifier::rlimit(100)]
pub fn striped_spheres() -> (r: Result<Canvas, MatrixError>)
    ensures
        r is Ok ==> {
            &&& r->Ok_0.wf()
            &&& r->Ok_0.spec_width() == 1280
            &&& r->Ok_0.spec_height() == 720
        },
{
    let mut material = Material::default();
    material.set_color(Color::from_raw(10_000_000, 9_000_000, 9_000_000));
    material.set_specular(Fx { raw: 0 });

    let floor_transform = Matrix4::scaling(
        Fx::from_int(10),
        Fx { raw: 100_000 },
        Fx::from_int(10),
    );
    let floor = match Sphere::new(floor_transform, material) {
        Ok(s) => s,
        Err(e) => { return Err(e); },
    };

    let left_wall_transform = Matrix4::translation(Fx { raw: 0 }, Fx { raw: 0 }, Fx::from_int(5))
        .mul(&Matrix4::rotation_y(Fx { raw: -7_853_982 }))
        .mul(&Matrix4::rotation_x(Fx { raw: 15_707_963 }))
        .mul(&floor_transform);
    let left_wall = match Sphere::new(left_wall_transform, material) {
        Ok(s) => s,
        Err(e) => { return Err(e); },
    };

    let right_wall_transform = Matrix4::translation(Fx { raw: 0 }, Fx { raw: 0 }, Fx::from_int(5))
        .mul(&Matrix4::rotation_y(Fx { raw: 7_853_982 }))
        .mul(&Matrix4::rotation_x(Fx { raw: 15_707_963 }))
        .mul(&floor_transform);
    let right_wall = match Sphere::new(right_wall_transform, material) {
        Ok(s) => s,
        Err(e) => { return Err(e); },
    };

    let mut middle_material = material;
    middle_material.set_color(Color::from_raw(1_000_000, 10_000_000, 5_000_000));
    middle_material.set_diffuse(Fx { raw: 7_000_000 });
    middle_material.set_specular(Fx { raw: 3_000_000 });
        let pattern = match Pattern::stripe(
            Color::from_raw(8_200_000, 2_400_000, 3_500_000),
            Color::white(),
            Some(Matrix4::rotation_z(Fx { raw: 15_707_963 })),
        ) {
            Ok(p) => p,
            Err(e) => { return Err(e); },
        };
        middle_material.set_pattern(pattern);
    let middle = match Sphere::new(
        Matrix4::translation(Fx { raw: -5_000_000 }, Fx::from_int(1), Fx { raw: 5_000_000 }),
        middle_material,
    ) {
        Ok(s) => s,
        Err(e) => { return Err(e); },
    };

    let mut right_material = material;
    right_material.set_color(Color::from_raw(5_000_000, 10_000_000, 1_000_000));
    right_material.set_diffuse(Fx { raw: 7_000_000 });
    right_material.set_specular(Fx { raw: 3_000_000 });
    let right = match Sphere::new(
        Matrix4::translation(Fx { raw: 15_000_000 }, Fx { raw: 5_000_000 }, Fx { raw: -5_000_000 })
            .mul(&Matrix4::scaling(Fx { raw: 5_000_000 }, Fx { raw: 5_000_000 }, Fx { raw: 5_000_000 })),
        right_material,
    ) {
        Ok(s) => s,
        Err(e) => { return Err(e); },
    };

    let mut left_material = Material::default();
    left_material.set_color(Color::from_raw(10_000_000, 8_000_000, 1_000_000));
    left_material.set_diffuse(Fx { raw: 7_000_000 });
    left_material.set_specular(Fx { raw: 3_000_000 });
    let left = match Sphere::new(
        Matrix4::translation(Fx { raw: -15_000_000 }, Fx { raw: 3_300_000 }, Fx { raw: -7_500_000 })
            .mul(&Matrix4::scaling(Fx { raw: 3_300_000 }, Fx { raw: 3_300_000 }, Fx { raw: 3_300_000 })),
        left_material,
    ) {
        Ok(s) => s,
        Err(e) => { return Err(e); },
    };

    let mut objects: Vec<Object> = Vec::new();
    objects.push(Object::Sphere(floor));
    objects.push(Object::Sphere(left_wall));
    objects.push(Object::Sphere(right_wall));
    objects.push(Object::Sphere(middle));
    objects.push(Object::Sphere(right));
    objects.push(Object::Sphere(left));
    let light = PointLight::new(
        Point::from_raw(-100_000_000, 150_000_000, -100_000_000),
        Color::white(),
    );
    let world = World::new(objects, Some(light));

    let view = Matrix4::view_transform(
        Point::from_raw(0, 15_000_000, -50_000_000),
        Point::from_raw(0, 10_000_000, 0),
        Vector::from_raw(0, 10_000_000, 0),
    );
    let camera = match Camera::new(1280, 720, Fx { raw: 10_471_976 }, Some(view)) {
        Ok(c) => c,
        Err(e) => { return Err(e); },
    };

    Ok(camera.render(&world))
}

/// The sphere scene with a gradient pattern on the middle sphere.
#[verifier::rlimit(100)]
pub fn gradient_spheres() -> (r: Result<Canvas, MatrixError>)
    ensures
        r is Ok ==> {
            &&& r->Ok_0.wf()
            &&& r->Ok_0.spec_width() == 1280
            &&& r->Ok_0.spec_height() == 720
        },
{
    let mut material = Material::default();
    material.set_color(Color::from_raw(10_000_000, 9_000_000, 9_000_000));
    material.set_specular(Fx { raw: 0 });

    let floor_transform = Matrix4::scaling(
        Fx::from_int(10),
        Fx { raw: 100_000 },
        Fx::from_int(10),
    );
    let floor = match Sphere::new(floor_transform, material) {
        Ok(s) => s,
        Err(e) => { return Err(e); },
    };

    let left_wall_transform = Matrix4::translation(Fx { raw: 0 }, Fx { raw: 0 }, Fx::from_int(5))
        .mul(&Matrix4::rotation_y(Fx { raw: -7_853_982 }))
        .mul(&Matrix4::rotation_x(Fx { raw: 15_707_963 }))
        .mul(&floor_transform);
    let left_wall = match Sphere::new(left_wall_transform, material) {
        Ok(s) => s,
        Err(e) => { return Err(e); },
    };

    let right_wall_transform = Matrix4::translation(Fx { raw: 0 }, Fx { raw: 0 }, Fx::from_int(5))
        .mul(&Matrix4::rotation_y(Fx { raw: 7_853_982 }))
        .mul(&Matrix4::rotation_x(Fx { raw: 15_707_963 }))
        .mul(&floor_transform);
    let right_wall = match Sphere::new(right_wall_transform, material) {
        Ok(s) => s,
        Err(e) => { return Err(e); },
    };

    let mut middle_material = material;
    middle_material.set_color(Color::from_raw(1_000_000, 10_000_000, 5_000_000));
    middle_material.set_diffuse(Fx { raw: 7_000_000 });
    middle_material.set_specular(Fx { raw: 3_000_000 });
        let pattern = match Pattern::gradient(
            Color::from_raw(8_200_000, 2_400_000, 3_500_000),
            Color::white(),
            None,
        ) {
            Ok(p) => p,
            Err(e) => { return Err(e); },
        };
        middle_material.set_pattern(pattern);
    let middle = match Sphere::new(
        Matrix4::translation(Fx { raw: -5_000_000 }, Fx::from_int(1), Fx { raw: 5_000_000 }),
        middle_material,
    ) {
        Ok(s) => s,
        Err(e) => { return Err(e); },
    };

    let mut right_material = material;
    right_material.set_color(Color::from_raw(5_000_000, 10_000_000, 1_000_000));
    right_material.set_diffuse(Fx { raw: 7_000_000 });
    right_material.set_specular(Fx { raw: 3_000_000 });
    let right = match Sphere::new(
        Matrix4::translation(Fx { raw: 15_000_000 }, Fx { raw: 5_000_000 }, Fx { raw: -5_000_000 })
            .mul(&Matrix4::scaling(Fx { raw: 5_000_000 }, Fx { raw: 5_000_000 }, Fx { raw: 5_000_000 })),
        right_material,
    ) {
        Ok(s) => s,
        Err(e) => { return Err(e); },
    };

    let mut left_material = Material::default();
    left_material.set_color(Color::from_raw(10_000_000, 8_000_000, 1_000_000));
    left_material.set_diffuse(Fx { raw: 7_000_000 });
    left_material.set_specular(Fx { raw: 3_000_000 });
    let left = match Sphere::new(
        Matrix4::translation(Fx { raw: -15_000_000 }, Fx { raw: 3_300_000 }, Fx { raw: -7_500_000 })
            .mul(&Matrix4::scaling(Fx { raw: 3_300_000 }, Fx { raw: 3_300_000 }, Fx { raw: 3_300_000 })),
        left_material,
    ) {
        Ok(s) => s,
        Err(e) => { return Err(e); },
    };

    let mut objects: Vec<Object> = Vec::new();
    objects.push(Object::Sphere(floor));
    objects.push(Object::Sphere(left_wall));
    objects.push(Object::Sphere(right_wall));
    objects.push(Object::Sphere(middle));
    objects.push(Object::Sphere(right));
    objects.push(Object::Sphere(left));
    let light = PointLight::new(
        Point::from_raw(-100_000_000, 150_000_000, -100_000_000),
        Color::white(),
    );
    let world = World::new(objects, Some(light));

    let view = Matrix4::view_transform(
        Point::from_raw(0, 15_000_000, -50_000_000),
        Point::from_raw(0, 10_000_000, 0),
        Vector::from_raw(0, 10_000_000, 0),
    );
    let camera = match Camera::new(1280, 720, Fx { raw: 10_471_976 }, Some(view)) {
        Ok(c) => c,
        Err(e) => { return Err(e); },
    };

    Ok(camera.render(&world))
}

} // verus!
