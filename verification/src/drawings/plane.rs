//! A scene of plane panes around spheres, seen from above.

use vstd::prelude::*;

use crate::camera::Camera;
use crate::canvas::Canvas;
use crate::color::Color;
use crate::fx::Fx;
use crate::material::Material;
use crate::matrix::{Matrix4, MatrixError};
use crate::point_light::PointLight;
use crate::shape::{Object, Plane, Sphere};
use crate::tuple::{Point, Vector};
use crate::world::World;

verus! {

/// A matte floor, six upright plane panes arranged around the origin,
/// and three small spheres floating above, lit from below the camera.
#[verifier::rlimit(100)]
pub fn spheres() -> (r: Result<Canvas, MatrixError>)
    ensures
        r is Ok ==> {
            &&& r->Ok_0.wf()
            &&& r->Ok_0.spec_width() == 1280
            &&& r->Ok_0.spec_height() == 720
        },
{
    let mut material = Material::default();
    material.set_color(Color::from_raw(2_000_000, 2_000_000, 2_000_000));
    material.set_specular(Fx { raw: 0 });

    let mut floor = Plane::default();
    floor.set_material(material);

    let mut pane_material = material;
    pane_material.set_color(Color::from_raw(3_000_000, 3_000_000, 4_000_000));
    pane_material.set_diffuse(Fx { raw: 7_000_000 });
    pane_material.set_specular(Fx { raw: 3_000_000 });

    let quarter = Fx { raw: 15_707_963 };
    let third = Fx { raw: 10_471_976 };

    let first_pane_transform = Matrix4::scaling(
        Fx { raw: 1_000_000 },
        Fx { raw: 1_000_000 },
        Fx { raw: 1_000_000 },
    ).mul(&Matrix4::translation(Fx { raw: 0 }, Fx { raw: 0 }, Fx { raw: 25_000_000 })).mul(
        &Matrix4::rotation_x(quarter),
    );
    let first_pane = match Plane::new(first_pane_transform, pane_material) {
        Ok(p) => p,
        Err(e) => { return Err(e); },
    };

    let second_pane_transform = Matrix4::translation(
        Fx::from_int(1),
        Fx { raw: 0 },
        Fx { raw: 25_000_000 },
    ).mul(&Matrix4::rotation_y(third)).mul(&Matrix4::rotation_x(quarter));
    let second_pane = match Plane::new(second_pane_transform, pane_material) {
        Ok(p) => p,
        Err(e) => { return Err(e); },
    };

    let third_pane_transform = Matrix4::translation(
        Fx::from_int(4),
        Fx { raw: 0 },
        Fx { raw: -25_000_000 },
    ).mul(&Matrix4::rotation_y(Fx { raw: 20_943_951 })).mul(&Matrix4::rotation_x(quarter));
    let third_pane = match Plane::new(third_pane_transform, pane_material) {
        Ok(p) => p,
        Err(e) => { return Err(e); },
    };

    let mut fourth_pane_material = material;
    fourth_pane_material.set_color(Color::from_raw(1_000_000, 1_000_000, 1_000_000));
    fourth_pane_material.set_diffuse(Fx { raw: 7_000_000 });
    let fourth_pane_transform = Matrix4::translation(
        Fx { raw: 0 },
        Fx { raw: 0 },
        Fx::from_int(-6),
    ).mul(&Matrix4::rotation_x(quarter));
    let fourth_pane = match Plane::new(fourth_pane_transform, fourth_pane_material) {
        Ok(p) => p,
        Err(e) => { return Err(e); },
    };

    let fifth_pane_transform = Matrix4::translation(
        Fx::from_int(-4),
        Fx { raw: 0 },
        Fx { raw: -25_000_000 },
    ).mul(&Matrix4::rotation_y(third)).mul(&Matrix4::rotation_x(quarter));
    let fifth_pane = match Plane::new(fifth_pane_transform, pane_material) {
        Ok(p) => p,
        Err(e) => { return Err(e); },
    };

    let sixth_pane_transform = Matrix4::translation(
        Fx::from_int(-1),
        Fx { raw: 0 },
        Fx { raw: 25_000_000 },
    ).mul(&Matrix4::rotation_y(Fx { raw: -10_471_976 })).mul(&Matrix4::rotation_x(quarter));
    let sixth_pane = match Plane::new(sixth_pane_transform, pane_material) {
        Ok(p) => p,
        Err(e) => { return Err(e); },
    };

    let mut middle_material = material;
    middle_material.set_color(Color::from_raw(1_000_000, 10_000_000, 5_000_000));
    middle_material.set_diffuse(Fx { raw: 7_000_000 });
    middle_material.set_specular(Fx { raw: 3_000_000 });
    let middle = match Sphere::new(
        Matrix4::translation(Fx { raw: -5_000_000 }, Fx::from_int(10), Fx::from_int(-5)),
        middle_material,
    ) {
        Ok(s) => s,
        Err(e) => { return Err(e); },
    };

    let mut right_material = material;
    right_material.set_color(Color::from_raw(5_000_000, 10_000_000, 1_000_000));
    right_material.set_diffuse(Fx { raw: 7_000_000 });
    right_material.set_specular(Fx { raw: 3_000_000 });
    let right = match Sphere::new(
        Matrix4::translation(Fx { raw: 10_000_000 }, Fx { raw: 113_000_000 }, Fx { raw: -53_000_000 })
            .mul(&Matrix4::scaling(Fx { raw: 5_000_000 }, Fx { raw: 5_000_000 }, Fx { raw: 5_000_000 })),
        right_material,
    ) {
        Ok(s) => s,
        Err(e) => { return Err(e); },
    };

    let mut left_material = material;
    left_material.set_color(Color::from_raw(10_000_000, 8_000_000, 1_000_000));
    left_material.set_diffuse(Fx { raw: 7_000_000 });
    left_material.set_specular(Fx { raw: 3_000_000 });
    let left = match Sphere::new(
        Matrix4::translation(Fx { raw: 13_000_000 }, Fx { raw: 125_000_000 }, Fx { raw: -53_000_000 })
            .mul(&Matrix4::scaling(Fx { raw: 3_300_000 }, Fx { raw: 3_300_000 }, Fx { raw: 3_300_000 })),
        left_material,
    ) {
        Ok(s) => s,
        Err(e) => { return Err(e); },
    };

    let mut objects: Vec<Object> = Vec::new();
    objects.push(Object::Plane(floor));
    objects.push(Object::Sphere(middle));
    objects.push(Object::Sphere(right));
    objects.push(Object::Sphere(left));
    objects.push(Object::Plane(first_pane));
    objects.push(Object::Plane(second_pane));
    objects.push(Object::Plane(third_pane));
    objects.push(Object::Plane(fourth_pane));
    objects.push(Object::Plane(fifth_pane));
    objects.push(Object::Plane(sixth_pane));
    let light = PointLight::new(
        Point::from_raw(0, 10_000_000, -25_000_000),
        Color::white(),
    );
    let world = World::new(objects, Some(light));

    let view = Matrix4::view_transform(
        Point::from_raw(0, 150_000_000, -25_000_000),
        Point::from_raw(0, 0, 0),
        Vector::from_raw(0, 10_000_000, 0),
    );
    let camera = match Camera::new(1280, 720, Fx { raw: 10_471_976 }, Some(view)) {
        Ok(c) => c,
        Err(e) => { return Err(e); },
    };

    Ok(camera.render(&world))
}

} // verus!
