//! A plain two-dimensional pixel coordinate.

use vstd::prelude::*;

verus! {

#[derive(Clone, Copy, Debug, PartialEq, Eq, Structural)]
pub struct Point2d {
    pub x: usize,
    pub y: usize,
}

impl Point2d {
    pub fn new(x: usize, y: usize) -> (r: Point2d)
        ensures
            r == (Point2d { x, y }),
    {
        Point2d { x, y }
    }
}

} // verus!
