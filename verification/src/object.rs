//! The object model: a closed set of shapes behind one ray-intersection,
//! normal and texture contract.
//!
//! Composite shapes need to know which child produced the nearest
//! intersection when a normal or texture is queried afterwards. Instead of a
//! node-local mutable cache, `intersect_points` returns an explicit [`Hit`]
//! descriptor (the path of winning child indices) that the caller passes
//! back into `normal` and `texture`.

use vstd::prelude::*;

use crate::object::menger::Menger;
use crate::object::plane::Plane;
use crate::object::rect::Rectangle;
use crate::object::sphere::Sphere;
use crate::object::triangle::Triangle;
use crate::object::turtle::Turtle;
use crate::point::Point;
use crate::texture::Texture;
use crate::vector::{Vector, V3};

pub mod menger;
pub mod plane;
pub mod rect;
pub mod sphere;
pub mod triangle;
pub mod turtle;

verus! {

/// Which child (recursively) produced the nearest intersection; empty for
/// simple shapes, or when nothing was hit.
#[derive(PartialEq, Eq, Debug)]
pub struct Hit {
    pub path: Vec<usize>,
}

impl View for Hit {
    type V = Seq<usize>;

    open spec fn view(&self) -> Seq<usize> {
        self.path@
    }
}

impl Hit {
    /// The descriptor of a simple shape: no child to name.
    pub fn none() -> (r: Hit)
        ensures
            r@ == Seq::<usize>::empty(),
    {
        Hit { path: Vec::new() }
    }
}

/// Ray-object intersection queries.
pub trait Intersect: Sized {
    /// The intersection points of the ray `(p, v)` with this object.
    spec fn spec_points(&self, p: V3, v: V3) -> Seq<V3>;

    /// The hit descriptor the intersection query reports.
    spec fn spec_path(&self, p: V3, v: V3) -> Seq<usize>;

    /// All intersection points, with the descriptor of the winning child.
    fn intersect_points(&self, p: Point, v: Vector) -> (r: (Vec<Point>, Hit))
        ensures
            r.0@.map_values(|q: Point| q@) == self.spec_points(p@, v@),
            r.1@ == self.spec_path(p@, v@),
    ;

    /// True exactly when `intersect_points` finds a point.
    fn is_intersect(&self, p: Point, v: Vector) -> (r: bool)
        ensures
            r == (self.spec_points(p@, v@).len() > 0),
    ;
}

/// Surface normal queries.
pub trait Normal: Sized {
    /// Model of `normal`.
    spec fn spec_normal(&self, q: V3, path: Seq<usize>) -> V3;

    /// The outward unit normal at the surface point `q`; `hit` names the
    /// child that the latest intersection query on this object reported.
    fn normal(&self, q: Point, hit: &Hit) -> (r: Vector)
        ensures
            r@ == self.spec_normal(q@, hit@),
    ;
}

/// Texture access.
pub trait GetTexture: Sized {
    /// Model of `texture`.
    spec fn spec_texture(&self, path: Seq<usize>) -> Texture;

    /// The texture governing the shading of the latest hit.
    fn texture(&self, hit: &Hit) -> (r: Texture)
        ensures
            r == self.spec_texture(hit@),
    ;
}

/// The capability set shared by every object of a scene.
pub trait ObjectTrait: Intersect + Normal + GetTexture {

}

/// The closed set of shapes a scene can hold.
pub enum Object {
    Sphere(Sphere),
    Plane(Plane),
    Triangle(Triangle),
    Rectangle(Rectangle),
    Menger(Menger),
    Turtle(Turtle),
}

impl Intersect for Object {
    open spec fn spec_points(&self, p: V3, v: V3) -> Seq<V3> {
        match self {
            Object::Sphere(o) => o.spec_points(p, v),
            Object::Plane(o) => o.spec_points(p, v),
            Object::Triangle(o) => o.spec_points(p, v),
            Object::Rectangle(o) => o.spec_points(p, v),
            Object::Menger(o) => o.spec_points(p, v),
            Object::Turtle(o) => o.spec_points(p, v),
        }
    }

    open spec fn spec_path(&self, p: V3, v: V3) -> Seq<usize> {
        match self {
            Object::Sphere(o) => o.spec_path(p, v),
            Object::Plane(o) => o.spec_path(p, v),
            Object::Triangle(o) => o.spec_path(p, v),
            Object::Rectangle(o) => o.spec_path(p, v),
            Object::Menger(o) => o.spec_path(p, v),
            Object::Turtle(o) => o.spec_path(p, v),
        }
    }

    fn intersect_points(&self, p: Point, v: Vector) -> (r: (Vec<Point>, Hit)) {
        match self {
            Object::Sphere(o) => o.intersect_points(p, v),
            Object::Plane(o) => o.intersect_points(p, v),
            Object::Triangle(o) => o.intersect_points(p, v),
            Object::Rectangle(o) => o.intersect_points(p, v),
            Object::Menger(o) => o.intersect_points(p, v),
            Object::Turtle(o) => o.intersect_points(p, v),
        }
    }

    fn is_intersect(&self, p: Point, v: Vector) -> (r: bool) {
        match self {
            Object::Sphere(o) => o.is_intersect(p, v),
            Object::Plane(o) => o.is_intersect(p, v),
            Object::Triangle(o) => o.is_intersect(p, v),
            Object::Rectangle(o) => o.is_intersect(p, v),
            Object::Menger(o) => o.is_intersect(p, v),
            Object::Turtle(o) => o.is_intersect(p, v),
        }
    }
}

impl Normal for Object {
    open spec fn spec_normal(&self, q: V3, path: Seq<usize>) -> V3 {
        match self {
            Object::Sphere(o) => o.spec_normal(q, path),
            Object::Plane(o) => o.spec_normal(q, path),
            Object::Triangle(o) => o.spec_normal(q, path),
            Object::Rectangle(o) => o.spec_normal(q, path),
            Object::Menger(o) => o.spec_normal(q, path),
            Object::Turtle(o) => o.spec_normal(q, path),
        }
    }

    fn normal(&self, q: Point, hit: &Hit) -> (r: Vector) {
        match self {
            Object::Sphere(o) => o.normal(q, hit),
            Object::Plane(o) => o.normal(q, hit),
            Object::Triangle(o) => o.normal(q, hit),
            Object::Rectangle(o) => o.normal(q, hit),
            Object::Menger(o) => o.normal(q, hit),
            Object::Turtle(o) => o.normal(q, hit),
        }
    }
}

impl GetTexture for Object {
    open spec fn spec_texture(&self, path: Seq<usize>) -> Texture {
        match self {
            Object::Sphere(o) => o.spec_texture(path),
            Object::Plane(o) => o.spec_texture(path),
            Object::Triangle(o) => o.spec_texture(path),
            Object::Rectangle(o) => o.spec_texture(path),
            Object::Menger(o) => o.spec_texture(path),
            Object::Turtle(o) => o.spec_texture(path),
        }
    }

    fn texture(&self, hit: &Hit) -> (r: Texture) {
        match self {
            Object::Sphere(o) => o.texture(hit),
            Object::Plane(o) => o.texture(hit),
            Object::Triangle(o) => o.texture(hit),
            Object::Rectangle(o) => o.texture(hit),
            Object::Menger(o) => o.texture(hit),
            Object::Turtle(o) => o.texture(hit),
        }
    }
}

impl ObjectTrait for Object {

}

} // verus!
