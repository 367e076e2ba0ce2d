//! Locations in space, with the same fixed-point components as vectors.

use vstd::prelude::*;

use crate::fx::Fx;
use crate::vector::{v3_add, v3_neg, v3_scale, v3_sub, Vector, V3};

verus! {

/// A location in space.
#[derive(Clone, Copy, PartialEq, Eq, Structural, Debug)]
pub struct Point {
    pub x: Fx,
    pub y: Fx,
    pub z: Fx,
}

impl View for Point {
    type V = V3;

    open spec fn view(&self) -> V3 {
        V3 { x: self.x.raw as int, y: self.y.raw as int, z: self.z.raw as int }
    }
}

impl Point {
    pub fn new(x: Fx, y: Fx, z: Fx) -> (r: Point)
        ensures
            r@ == (V3 { x: x.val(), y: y.val(), z: z.val() }),
    {
        Point { x, y, z }
    }

    pub fn to_vec(&self) -> (r: Vector)
        ensures
            r@ == self@,
    {
        Vector { x: self.x, y: self.y, z: self.z }
    }

    /// Componentwise sum of two points.
    pub fn add(&self, o: &Point) -> (r: Point)
        ensures
            r@ == v3_add(self@, o@),
    {
        Point { x: self.x.add(o.x), y: self.y.add(o.y), z: self.z.add(o.z) }
    }

    /// Translation by a vector.
    pub fn add_v(&self, o: &Vector) -> (r: Point)
        ensures
            r@ == v3_add(self@, o@),
    {
        Point { x: self.x.add(o.x), y: self.y.add(o.y), z: self.z.add(o.z) }
    }

    /// Adds a scalar to every component.
    pub fn add_s(&self, k: Fx) -> (r: Point)
        ensures
            r@ == v3_add(self@, V3 { x: k.val(), y: k.val(), z: k.val() }),
    {
        Point { x: self.x.add(k), y: self.y.add(k), z: self.z.add(k) }
    }

    /// Componentwise difference of two points.
    pub fn sub(&self, o: &Point) -> (r: Point)
        ensures
            r@ == v3_sub(self@, o@),
    {
        Point { x: self.x.sub(o.x), y: self.y.sub(o.y), z: self.z.sub(o.z) }
    }

    /// The displacement from `o` to `self`.
    pub fn sub_v(&self, o: &Point) -> (r: Vector)
        ensures
            r@ == v3_sub(self@, o@),
    {
        Vector { x: self.x.sub(o.x), y: self.y.sub(o.y), z: self.z.sub(o.z) }
    }

    /// Subtracts a scalar from every component.
    pub fn sub_s(&self, k: Fx) -> (r: Point)
        ensures
            r@ == v3_sub(self@, V3 { x: k.val(), y: k.val(), z: k.val() }),
    {
        Point { x: self.x.sub(k), y: self.y.sub(k), z: self.z.sub(k) }
    }

    pub fn neg(&self) -> (r: Point)
        ensures
            r@ == v3_neg(self@),
    {
        Point { x: self.x.neg(), y: self.y.neg(), z: self.z.neg() }
    }

    /// Product with a scalar.
    pub fn scale(&self, k: Fx) -> (r: Point)
        ensures
            r@ == v3_scale(self@, k.val()),
    {
        Point { x: self.x.mul(k), y: self.y.mul(k), z: self.z.mul(k) }
    }
}

} // verus!
