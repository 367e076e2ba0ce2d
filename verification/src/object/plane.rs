//! Infinite planes, defined by a point and a normal.

use vstd::prelude::*;

use crate::fx::{fx_div, Fx};
use crate::object::{GetTexture, Hit, Intersect, Normal, ObjectTrait};
use crate::point::Point;
use crate::texture::Texture;
use crate::vector::{v3_add, v3_dot, v3_scale, v3_sub, v3_zero, Vector, V3};

verus! {

/// A plane through `p` with the given normal.
pub struct Plane {
    pub p: Point,
    pub normal: Vector,
    pub texture: Texture,
    pub id: String,
}

impl Plane {
    /// The ray parameter of the crossing point:
    /// `t = ((plane_point - origin) . n) / (v . n)`.
    pub open spec fn spec_t(self, p: V3, v: V3) -> int {
        fx_div(v3_dot(v3_sub(self.p@, p), self.normal@), v3_dot(v, self.normal@))
    }
}

impl Intersect for Plane {
    /// Empty when the direction is zero or parallel to the plane, or when
    /// the crossing lies behind (or at) the ray origin; one point otherwise.
    open spec fn spec_points(&self, p: V3, v: V3) -> Seq<V3> {
        if v == v3_zero() || v3_dot(v, self.normal@) == 0 {
            Seq::empty()
        } else {
            let t = self.spec_t(p, v);
            if t <= 0 {
                Seq::empty()
            } else {
                seq![v3_add(p, v3_scale(v, t))]
            }
        }
    }

    open spec fn spec_path(&self, p: V3, v: V3) -> Seq<usize> {
        Seq::empty()
    }

    fn intersect_points(&self, p: Point, v: Vector) -> (r: (Vec<Point>, Hit)) {
        let dn = v.dot(&self.normal);
        if v.is_zero() || dn.raw == 0 {
            let empty: Vec<Point> = Vec::new();
            proof {
                assert(empty@.map_values(|q: Point| q@) =~= self.spec_points(p@, v@));
            }
            return (empty, Hit::none());
        }
        let t = self.p.sub_v(&p).dot(&self.normal).div(dn);
        if t.raw <= 0 {
            let empty: Vec<Point> = Vec::new();
            proof {
                assert(empty@.map_values(|q: Point| q@) =~= self.spec_points(p@, v@));
            }
            return (empty, Hit::none());
        }
        let points: Vec<Point> = vec![p.add_v(&v.scale(t))];
        proof {
            assert(points@.map_values(|q: Point| q@) =~= self.spec_points(p@, v@));
        }
        (points, Hit::none())
    }

    fn is_intersect(&self, p: Point, v: Vector) -> (r: bool) {
        let dn = v.dot(&self.normal);
        if v.is_zero() || dn.raw == 0 {
            return false;
        }
        let t = self.p.sub_v(&p).dot(&self.normal).div(dn);
        t.raw > 0
    }
}

impl Normal for Plane {
    /// Constant and direction-independent; flipping toward the viewer is
    /// the shading layer's business.
    open spec fn spec_normal(&self, q: V3, path: Seq<usize>) -> V3 {
        self.normal@
    }

    fn normal(&self, q: Point, hit: &Hit) -> (r: Vector) {
        self.normal
    }
}

impl GetTexture for Plane {
    open spec fn spec_texture(&self, path: Seq<usize>) -> Texture {
        self.texture
    }

    fn texture(&self, hit: &Hit) -> (r: Texture) {
        self.texture
    }
}

impl ObjectTrait for Plane {

}

} // verus!
