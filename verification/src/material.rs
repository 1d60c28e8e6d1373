//! Materials and the Phong reflectance model.

use vstd::prelude::*;

use crate::color::{Color, spec_black, spec_white, spec_cadd, spec_cmul, spec_cscale};
use crate::fx::{Fx, SCALE};
use crate::pattern::{Pattern, spec_pattern_at_transformed};
use crate::point_light::PointLight;
use crate::shape::Object;
use crate::matrix::Matrix4;
use crate::tuple::{Point, Vector, spec_dot, spec_normalized, spec_psub, spec_reflect, spec_vneg};

verus! {

/// The Phong coefficients of a surface, an optional pattern, and the
/// reflection and refraction parameters.
#[derive(Clone, Copy, Debug, PartialEq, Eq, Structural)]
pub struct Material {
    pub color: Color,
    pub pattern: Option<Pattern>,
    pub ambient: Fx,
    pub diffuse: Fx,
    pub specular: Fx,
    pub shininess: Fx,
    pub reflective: Fx,
    pub transparency: Fx,
    pub refractive_index: Fx,
}

/// The specular exponent: the whole part of the shininess, non-negative.
pub open spec fn spec_shininess_exp(sh: int) -> nat {
    let e = crate::fx::spec_floor_units(sh);
    if e < 0 {
        0
    } else if e > 0xffff_ffff {
        0xffff_ffff as nat
    } else {
        e as nat
    }
}

/// The Phong model: ambient plus diffuse plus specular, with the surface
/// color drawn from the pattern when one is set, and the diffuse and
/// specular parts suppressed in shadow or facing away from the light.
pub open spec fn spec_lighting(
    m: Material,
    object_inverse: Matrix4,
    light: PointLight,
    point: Point,
    eye: Vector,
    normal: Vector,
    in_shadow: bool,
) -> Color {
    let base = match m.pattern {
        Some(p) => spec_pattern_at_transformed(p, object_inverse, point),
        None => m.color,
    };
    let effective = spec_cmul(base, light.intensity);
    let ambient = spec_cscale(effective, m.ambient.rv());
    let ptl = spec_normalized(spec_psub(light.position, point));
    let ldn = spec_dot(ptl, normal);
    if in_shadow || ldn < 0 {
        spec_cadd(spec_cadd(ambient, spec_black()), spec_black())
    } else {
        let diffuse = spec_cscale(spec_cscale(effective, m.diffuse.rv()), ldn);
        let reflectv = spec_reflect(spec_vneg(ptl), normal);
        let rde = spec_dot(reflectv, eye);
        let specular = if rde <= 0 {
            spec_black()
        } else {
            spec_cscale(
                spec_cscale(light.intensity, m.specular.rv()),
                crate::fx::spec_powi(rde, spec_shininess_exp(m.shininess.rv())),
            )
        };
        spec_cadd(spec_cadd(ambient, diffuse), specular)
    }
}

impl Material {
    /// A material is well formed when its pattern, if any, is.
    pub open spec fn wf(self) -> bool {
        match self.pattern {
            Some(p) => p.wf(),
            None => true,
        }
    }

    pub fn new(
        color: Color,
        pattern: Option<Pattern>,
        ambient: Fx,
        diffuse: Fx,
        specular: Fx,
        shininess: Fx,
        reflective: Fx,
        transparency: Fx,
        refractive_index: Fx,
    ) -> (r: Material)
        ensures
            r == (Material {
                color,
                pattern,
                ambient,
                diffuse,
                specular,
                shininess,
                reflective,
                transparency,
                refractive_index,
            }),
    {
        Material {
            color,
            pattern,
            ambient,
            diffuse,
            specular,
            shininess,
            reflective,
            transparency,
            refractive_index,
        }
    }

    pub fn color(&self) -> (r: Color)
        ensures
            r == self.color,
    {
        self.color
    }

    pub fn pattern(&self) -> (r: Option<Pattern>)
        ensures
            r == self.pattern,
    {
        self.pattern
    }

    pub fn ambient(&self) -> (r: Fx)
        ensures
            r == self.ambient,
    {
        self.ambient
    }

    pub fn diffuse(&self) -> (r: Fx)
        ensures
            r == self.diffuse,
    {
        self.diffuse
    }

    pub fn specular(&self) -> (r: Fx)
        ensures
            r == self.specular,
    {
        self.specular
    }

    pub fn shininess(&self) -> (r: Fx)
        ensures
            r == self.shininess,
    {
        self.shininess
    }

    pub fn reflective(&self) -> (r: Fx)
        ensures
            r == self.reflective,
    {
        self.reflective
    }

    pub fn transparency(&self) -> (r: Fx)
        ensures
            r == self.transparency,
    {
        self.transparency
    }

    pub fn refractive_index(&self) -> (r: Fx)
        ensures
            r == self.refractive_index,
    {
        self.refractive_index
    }

    pub fn set_color(&mut self, color: Color)
        ensures
            *final(self) == (Material { color, ..*old(self) }),
    {
        self.color = color;
    }

    pub fn set_pattern(&mut self, pattern: Pattern)
        ensures
            *final(self) == (Material { pattern: Some(pattern), ..*old(self) }),
    {
        self.pattern = Some(pattern);
    }

    pub fn set_ambient(&mut self, ambient: Fx)
        ensures
            *final(self) == (Material { ambient, ..*old(self) }),
    {
        self.ambient = ambient;
    }

    pub fn set_diffuse(&mut self, diffuse: Fx)
        ensures
            *final(self) == (Material { diffuse, ..*old(self) }),
    {
        self.diffuse = diffuse;
    }

    pub fn set_specular(&mut self, specular: Fx)
        ensures
            *final(self) == (Material { specular, ..*old(self) }),
    {
        self.specular = specular;
    }

    pub fn set_shininess(&mut self, shininess: Fx)
        ensures
            *final(self) == (Material { shininess, ..*old(self) }),
    {
        self.shininess = shininess;
    }

    pub fn set_reflective(&mut self, reflective: Fx)
        ensures
            *final(self) == (Material { reflective, ..*old(self) }),
    {
        self.reflective = reflective;
    }

    pub fn set_transparency(&mut self, transparency: Fx)
        ensures
            *final(self) == (Material { transparency, ..*old(self) }),
    {
        self.transparency = transparency;
    }

    pub fn set_refractive_index(&mut self, refractive_index: Fx)
        ensures
            *final(self) == (Material { refractive_index, ..*old(self) }),
    {
        self.refractive_index = refractive_index;
    }

    /// Returns the color of the material at a point, from a view point.
    pub fn lighting(
        &self,
        object: &Object,
        light: &PointLight,
        point: Point,
        eye: Vector,
        normal: Vector,
        in_shadow: bool,
    ) -> (r: Color)
        ensures
            r == spec_lighting(*self, object.spec_inv(), *light, point, eye, normal, in_shadow),
    {
        let base = match &self.pattern {
            Some(p) => p.pattern_at_transformed(&object.inverse(), point),
            None => self.color,
        };
        let effective = base.mul(light.intensity);
        let ambient = effective.scale(self.ambient);
        let ptl = light.position.sub(point).normalized();
        let ldn = ptl.dot(normal);
        if in_shadow || ldn.raw < 0 {
            ambient.add(Color::black()).add(Color::black())
        } else {
            let diffuse = effective.scale(self.diffuse).scale(ldn);
            let reflectv = ptl.neg().reflect(normal);
            let rde = reflectv.dot(eye);
            let specular = if rde.raw <= 0 {
                Color::black()
            } else {
                let e0: i64 = self.shininess.floor_units();
                let e: u32 = if e0 < 0 {
                    0
                } else if e0 > 0xffff_ffff {
                    0xffff_ffff
                } else {
                    e0 as u32
                };
                light.intensity.scale(self.specular).scale(rde.pow(e))
            };
            ambient.add(diffuse).add(specular)
        }
    }
}

impl Default for Material {
    /// A white surface: ambient 0.1, diffuse 0.9, specular 0.9,
    /// shininess 200, no pattern, no reflection, no transparency, and the
    /// refractive index of empty space.
    fn default() -> (r: Material)
        ensures
            r == spec_default_material(),
    {
        Material {
            color: Color::white(),
            pattern: None,
            ambient: Fx { raw: 1_000_000 },
            diffuse: Fx { raw: 9_000_000 },
            specular: Fx { raw: 9_000_000 },
            shininess: Fx { raw: 2_000_000_000 },
            reflective: Fx { raw: 0 },
            transparency: Fx { raw: 0 },
            refractive_index: Fx { raw: SCALE },
        }
    }
}

pub open spec fn spec_default_material() -> Material {
    Material {
        color: spec_white(),
        pattern: None,
        ambient: Fx { raw: 1_000_000 },
        diffuse: Fx { raw: 9_000_000 },
        specular: Fx { raw: 9_000_000 },
        shininess: Fx { raw: 2_000_000_000 },
        reflective: Fx { raw: 0 },
        transparency: Fx { raw: 0 },
        refractive_index: Fx { raw: SCALE },
    }
}

} // verus!
