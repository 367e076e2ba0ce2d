//! Triangles, intersected with the Moller-Trumbore test.

use vstd::prelude::*;

use crate::fx::{fx_add, fx_div, fx_mul, iabs, Fx, SCALE};
use crate::object::{GetTexture, Hit, Intersect, Normal, ObjectTrait};
use crate::point::Point;
use crate::texture::Texture;
use crate::vector::{v3_add, v3_cross, v3_dot, v3_normalize, v3_scale, v3_sub, Vector, V3};

verus! {

/// A ray within this of parallel to the triangle plane is rejected.
pub const PARALLEL_EPS: i64 = 1_000;

/// Crossings closer to the origin than this are rejected.
pub const T_EPS: i64 = 10_000;

/// A triangle, with precomputed edge vectors and face normal.
pub struct Triangle {
    pub p1: Point,
    pub p2: Point,
    pub p3: Point,
    pub edge1: Vector,
    pub edge2: Vector,
    pub normal: Vector,
    pub texture: Texture,
    pub id: String,
}

impl Triangle {
    /// Both precomputed edges leave the first vertex, and the cached normal
    /// is their normalized cross product.
    pub open spec fn wf(self) -> bool {
        &&& self.edge1@ == v3_sub(self.p2@, self.p1@)
        &&& self.edge2@ == v3_sub(self.p3@, self.p1@)
        &&& self.normal@ == v3_normalize(v3_cross(self.edge1@, self.edge2@))
    }

    pub fn new(p1: Point, p2: Point, p3: Point, texture: Texture, id: String) -> (r: Triangle)
        ensures
            r.wf(),
            r.p1 == p1,
            r.p2 == p2,
            r.p3 == p3,
            r.texture == texture,
    {
        let edge1 = p2.sub_v(&p1);
        let edge2 = p3.sub_v(&p1);
        let normal = edge1.cross_product(&edge2).normalize();
        Triangle { p1, p2, p3, edge1, edge2, normal, texture, id }
    }

    /// The Moller-Trumbore test: whether the ray `(p, v)` crosses the
    /// triangle, and at which ray parameter. On a miss the parameter field
    /// only distinguishes which test rejected the ray.
    pub open spec fn spec_intersection(self, p: V3, v: V3) -> (bool, int) {
        let h = v3_cross(v, self.edge2@);
        let angle = v3_dot(self.edge1@, h);
        if iabs(angle) < PARALLEL_EPS {
            (false, 0)
        } else {
            let f = fx_div(SCALE as int, angle);
            let s = v3_sub(p, self.p1@);
            let u = fx_mul(v3_dot(s, h), f);
            if u < 0 || u > SCALE {
                (false, SCALE as int)
            } else {
                let q = v3_cross(s, self.edge1@);
                let w = fx_mul(f, v3_dot(v, q));
                if w < 0 || fx_add(u, w) > SCALE {
                    (false, 2 * SCALE as int)
                } else {
                    let t = fx_mul(f, v3_dot(self.edge2@, q));
                    if t >= T_EPS {
                        (true, t)
                    } else {
                        (false, 0)
                    }
                }
            }
        }
    }

    /// Whether and where the ray `(p, v)` crosses the triangle.
    pub fn intersection(&self, p: Point, v: Vector) -> (r: (bool, Fx))
        ensures
            (r.0, r.1.val()) == self.spec_intersection(p@, v@),
    {
        let h = v.cross_product(&self.edge2);
        let angle = self.edge1.dot(&h);
        if angle.abs().raw < PARALLEL_EPS {
            return (false, Fx { raw: 0 });
        }
        let f = Fx { raw: SCALE }.div(angle);
        let s = p.sub_v(&self.p1);
        let u = s.dot(&h).mul(f);
        if u.raw < 0 || u.raw > SCALE {
            return (false, Fx { raw: SCALE });
        }
        let q = s.cross_product(&self.edge1);
        let w = f.mul(v.dot(&q));
        if w.raw < 0 || u.add(w).raw > SCALE {
            return (false, Fx { raw: 2 * SCALE });
        }
        let t = f.mul(self.edge2.dot(&q));
        if t.raw >= T_EPS {
            (true, t)
        } else {
            (false, Fx { raw: 0 })
        }
    }
}

impl Intersect for Triangle {
    /// The single crossing point of a ray that passes the Moller-Trumbore
    /// test; empty otherwise.
    open spec fn spec_points(&self, p: V3, v: V3) -> Seq<V3> {
        let (found, t) = self.spec_intersection(p, v);
        if found {
            seq![v3_add(p, v3_scale(v, t))]
        } else {
            Seq::empty()
        }
    }

    open spec fn spec_path(&self, p: V3, v: V3) -> Seq<usize> {
        Seq::empty()
    }

    fn intersect_points(&self, p: Point, v: Vector) -> (r: (Vec<Point>, Hit)) {
        let (found, t) = self.intersection(p, v);
        if !found {
            let empty: Vec<Point> = Vec::new();
            proof {
                assert(empty@.map_values(|q: Point| q@) =~= self.spec_points(p@, v@));
            }
            return (empty, Hit::none());
        }
        let points: Vec<Point> = vec![p.add_v(&v.scale(t))];
        proof {
            assert(points@.map_values(|q: Point| q@) =~= self.spec_points(p@, v@));
        }
        (points, Hit::none())
    }

    fn is_intersect(&self, p: Point, v: Vector) -> (r: bool) {
        let (found, _t) = self.intersection(p, v);
        found
    }
}

impl Normal for Triangle {
    /// The cached face normal, independent of the query point.
    open spec fn spec_normal(&self, q: V3, path: Seq<usize>) -> V3 {
        self.normal@
    }

    fn normal(&self, q: Point, hit: &Hit) -> (r: Vector) {
        self.normal
    }
}

impl GetTexture for Triangle {
    open spec fn spec_texture(&self, path: Seq<usize>) -> Texture {
        self.texture
    }

    fn texture(&self, hit: &Hit) -> (r: Texture) {
        self.texture
    }
}

impl ObjectTrait for Triangle {

}

} // verus!
