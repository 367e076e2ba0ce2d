//! Point light sources.

use vstd::prelude::*;

use crate::point::Point;
use crate::vector::Vector;

verus! {

/// A point light: a position and a per-channel radiant intensity.
#[derive(Clone, Copy, PartialEq, Eq, Structural, Debug)]
pub struct Light {
    pub intensity: Vector,
    pub point: Point,
}

/// Every light of this renderer is a point light, so the explicit name is
/// an alias.
pub type PointLight = Light;

impl Light {
    pub fn intensity(&self) -> (r: Vector)
        ensures
            r == self.intensity,
    {
        self.intensity
    }

    pub fn point(&self) -> (r: Point)
        ensures
            r == self.point,
    {
        self.point
    }
}

} // verus!
