//! Points and vectors in space.

use vstd::prelude::*;
use crate::double::Double;

verus! {

/// A location.
#[derive(Clone, Copy, Debug, PartialEq, Eq, Structural)]
pub struct Point {
    pub x: Double,
    pub y: Double,
    pub z: Double,
}

impl Point {
    pub fn new(x: Double, y: Double, z: Double) -> (p: Point)
        ensures
            p == (Point { x, y, z }),
    {
        Point { x, y, z }
    }

    /// The point of the drawing plane with these coordinates.
    pub open spec fn planar(x: Double, y: Double) -> Point {
        Point { x, y, z: Double::spec_zero() }
    }
}

/// A direction with a length.
#[derive(Clone, Copy, Debug, PartialEq, Eq, Structural)]
pub struct Vector {
    pub x: Double,
    pub y: Double,
    pub z: Double,
}

impl Vector {
    pub fn new(x: Double, y: Double, z: Double) -> (v: Vector)
        ensures
            v == (Vector { x, y, z }),
    {
        Vector { x, y, z }
    }

    /// The vector of the drawing plane with these components.
    pub open spec fn planar(x: Double, y: Double) -> Vector {
        Vector { x, y, z: Double::spec_zero() }
    }
}

} // verus!
