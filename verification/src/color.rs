//! Colors with red, green and blue components.
//!
//! Components are unclamped scalars; clamping to a displayable range is
//! the output boundary's concern, not the engine's.

use vstd::prelude::*;

use crate::ApproxEq;
use crate::fx::{Fx, SCALE, spec_add, spec_sub, spec_mul, spec_approx};

verus! {

#[derive(Clone, Copy, Debug, PartialEq, Eq, Structural)]
pub struct Color {
    pub red: Fx,
    pub green: Fx,
    pub blue: Fx,
}

/// The color of three raw component values.
pub open spec fn spec_color(r: int, g: int, b: int) -> Color {
    Color { red: Fx { raw: r as i64 }, green: Fx { raw: g as i64 }, blue: Fx { raw: b as i64 } }
}

pub open spec fn spec_black() -> Color {
    spec_color(0, 0, 0)
}

pub open spec fn spec_white() -> Color {
    spec_color(SCALE as int, SCALE as int, SCALE as int)
}

pub open spec fn spec_cadd(a: Color, b: Color) -> Color {
    spec_color(
        spec_add(a.red.rv(), b.red.rv()),
        spec_add(a.green.rv(), b.green.rv()),
        spec_add(a.blue.rv(), b.blue.rv()),
    )
}

pub open spec fn spec_csub(a: Color, b: Color) -> Color {
    spec_color(
        spec_sub(a.red.rv(), b.red.rv()),
        spec_sub(a.green.rv(), b.green.rv()),
        spec_sub(a.blue.rv(), b.blue.rv()),
    )
}

pub open spec fn spec_cscale(a: Color, s: int) -> Color {
    spec_color(spec_mul(a.red.rv(), s), spec_mul(a.green.rv(), s), spec_mul(a.blue.rv(), s))
}

/// The Hadamard (componentwise) product.
pub open spec fn spec_cmul(a: Color, b: Color) -> Color {
    spec_color(
        spec_mul(a.red.rv(), b.red.rv()),
        spec_mul(a.green.rv(), b.green.rv()),
        spec_mul(a.blue.rv(), b.blue.rv()),
    )
}

impl Color {
    pub fn new(red: Fx, green: Fx, blue: Fx) -> (r: Color)
        ensures
            r == (Color { red, green, blue }),
    {
        Color { red, green, blue }
    }

    /// The black color, zero in every component.
    pub fn black() -> (r: Color)
        ensures
            r == spec_black(),
    {
        Color { red: Fx { raw: 0 }, green: Fx { raw: 0 }, blue: Fx { raw: 0 } }
    }

    /// The white color, one in every component.
    pub fn white() -> (r: Color)
        ensures
            r == spec_white(),
    {
        Color { red: Fx { raw: SCALE }, green: Fx { raw: SCALE }, blue: Fx { raw: SCALE } }
    }

    /// The color of three raw component counts.
    pub fn from_raw(r: i64, g: i64, b: i64) -> (c: Color)
        ensures
            c.red.rv() == crate::fx::clamp_raw(r as int),
            c.green.rv() == crate::fx::clamp_raw(g as int),
            c.blue.rv() == crate::fx::clamp_raw(b as int),
    {
        Color { red: Fx::from_raw(r), green: Fx::from_raw(g), blue: Fx::from_raw(b) }
    }

    pub fn red(&self) -> (r: Fx)
        ensures
            r == self.red,
    {
        self.red
    }

    pub fn green(&self) -> (r: Fx)
        ensures
            r == self.green,
    {
        self.green
    }

    pub fn blue(&self) -> (r: Fx)
        ensures
            r == self.blue,
    {
        self.blue
    }

    pub fn add(self, rhs: Color) -> (r: Color)
        ensures
            r == spec_cadd(self, rhs),
    {
        Color {
            red: self.red.add(rhs.red),
            green: self.green.add(rhs.green),
            blue: self.blue.add(rhs.blue),
        }
    }

    pub fn sub(self, rhs: Color) -> (r: Color)
        ensures
            r == spec_csub(self, rhs),
    {
        Color {
            red: self.red.sub(rhs.red),
            green: self.green.sub(rhs.green),
            blue: self.blue.sub(rhs.blue),
        }
    }

    pub fn scale(self, s: Fx) -> (r: Color)
        ensures
            r == spec_cscale(self, s.rv()),
    {
        Color { red: self.red.mul(s), green: self.green.mul(s), blue: self.blue.mul(s) }
    }

    /// The Hadamard (componentwise) product.
    pub fn mul(self, rhs: Color) -> (r: Color)
        ensures
            r == spec_cmul(self, rhs),
    {
        Color {
            red: self.red.mul(rhs.red),
            green: self.green.mul(rhs.green),
            blue: self.blue.mul(rhs.blue),
        }
    }
}

impl ApproxEq for Color {
    open spec fn approx_spec(&self, rhs: &Self) -> bool {
        spec_approx(self.red.rv(), rhs.red.rv()) && spec_approx(self.green.rv(), rhs.green.rv())
            && spec_approx(self.blue.rv(), rhs.blue.rv())
    }

    fn approx_eq(&self, rhs: &Self) -> (r: bool) {
        self.red.approx_eq(&rhs.red) && self.green.approx_eq(&rhs.green)
            && self.blue.approx_eq(&rhs.blue)
    }
}

} // verus!
