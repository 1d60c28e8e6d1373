//! Point lights: a position and an intensity.

use vstd::prelude::*;

use crate::color::Color;
use crate::tuple::Point;

verus! {

#[derive(Clone, Copy, Debug, PartialEq, Eq, Structural)]
pub struct PointLight {
    pub position: Point,
    pub intensity: Color,
}

impl PointLight {
    pub fn new(position: Point, intensity: Color) -> (r: PointLight)
        ensures
            r == (PointLight { position, intensity }),
    {
        PointLight { position, intensity }
    }

    pub fn position(&self) -> (r: Point)
        ensures
            r == self.position,
    {
        self.position
    }

    pub fn intensity(&self) -> (r: Color)
        ensures
            r == self.intensity,
    {
        self.intensity
    }
}

} // verus!
