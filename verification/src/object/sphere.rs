//! Spheres, intersected by solving the real quadratic
//! `a t^2 + b t + c = 0` with `a = |v|^2`, `b = -2 v.(center - origin)`,
//! `c = |center - origin|^2 - r^2`.

use vstd::prelude::*;

use crate::fx::{fx_add, fx_div, fx_mul, fx_neg, fx_sqrt, fx_sub, Fx};
use crate::object::{GetTexture, Hit, Intersect, Normal, ObjectTrait};
use crate::point::Point;
use crate::texture::Texture;
use crate::vector::{v3_add, v3_dot, v3_normalize, v3_scale, v3_sub, v3_zero, Vector, V3};

verus! {

/// `-2.0` in raw fixed-point units.
pub const NEG_TWO: i64 = -2_000_000_000;

/// `2.0` in raw fixed-point units.
pub const TWO: i64 = 2_000_000_000;

/// `4.0` in raw fixed-point units.
pub const FOUR: i64 = 4_000_000_000;

/// A sphere: a center point and a radius.
pub struct Sphere {
    pub p: Point,
    pub r: Fx,
    pub texture: Texture,
    pub id: String,
}

impl Sphere {
    /// Coefficients `(a, b, c)` of the intersection quadratic for the ray
    /// `(p, v)`.
    pub open spec fn spec_coefficients(self, p: V3, v: V3) -> (int, int, int) {
        let cp = v3_sub(self.p@, p);
        let a = v3_dot(v, v);
        let b = fx_mul(NEG_TWO as int, v3_dot(v, cp));
        let c = fx_sub(v3_dot(cp, cp), fx_mul(self.r.val(), self.r.val()));
        (a, b, c)
    }

    /// Discriminant `b^2 - 4 a c` of the intersection quadratic.
    pub open spec fn spec_delta(self, p: V3, v: V3) -> int {
        let (a, b, c) = self.spec_coefficients(p, v);
        fx_sub(fx_mul(b, b), fx_mul(fx_mul(FOUR as int, a), c))
    }

    /// Coefficients `(a, b, c)` of the intersection quadratic.
    pub fn coefficients(&self, p: Point, v: Vector) -> (r: (Fx, Fx, Fx))
        ensures
            (r.0.val(), r.1.val(), r.2.val()) == self.spec_coefficients(p@, v@),
    {
        let cp = self.p.sub_v(&p);
        let a = v.dot(&v);
        let b = Fx { raw: NEG_TWO }.mul(v.dot(&cp));
        let c = cp.dot(&cp).sub(self.r.mul(self.r));
        (a, b, c)
    }
}

impl Intersect for Sphere {
    /// No points when the ray direction is zero or the discriminant is
    /// negative; the tangent point when it is zero; both roots otherwise,
    /// in no particular order of distance.
    open spec fn spec_points(&self, p: V3, v: V3) -> Seq<V3> {
        if v == v3_zero() {
            Seq::empty()
        } else {
            let (a, b, c) = self.spec_coefficients(p, v);
            let delta = self.spec_delta(p, v);
            if delta < 0 {
                Seq::empty()
            } else if delta == 0 {
                let t = fx_div(fx_neg(b), fx_mul(TWO as int, a));
                seq![v3_add(p, v3_scale(v, t))]
            } else {
                let ts = fx_sqrt(delta);
                let t1 = fx_div(fx_add(fx_neg(b), ts), fx_mul(TWO as int, a));
                let t2 = fx_div(fx_sub(fx_neg(b), ts), fx_mul(TWO as int, a));
                seq![v3_add(p, v3_scale(v, t1)), v3_add(p, v3_scale(v, t2))]
            }
        }
    }

    open spec fn spec_path(&self, p: V3, v: V3) -> Seq<usize> {
        Seq::empty()
    }

    fn intersect_points(&self, p: Point, v: Vector) -> (r: (Vec<Point>, Hit)) {
        if v.is_zero() {
            let empty: Vec<Point> = Vec::new();
            proof {
                assert(empty@.map_values(|q: Point| q@) =~= self.spec_points(p@, v@));
            }
            return (empty, Hit::none());
        }
        let (a, b, c) = self.coefficients(p, v);
        let delta = b.mul(b).sub(Fx { raw: FOUR }.mul(a).mul(c));

        if delta.raw < 0 {
            let empty: Vec<Point> = Vec::new();
            proof {
                assert(empty@.map_values(|q: Point| q@) =~= self.spec_points(p@, v@));
            }
            (empty, Hit::none())
        } else if delta.raw == 0 {
            let t = b.neg().div(Fx { raw: TWO }.mul(a));
            let q = p.add_v(&v.scale(t));
            let points: Vec<Point> = vec![q];
            proof {
                assert(points@.map_values(|q0: Point| q0@) =~= self.spec_points(p@, v@));
            }
            (points, Hit::none())
        } else {
            let ts = delta.sqrt();
            let denom = Fx { raw: TWO }.mul(a);
            let nb = b.neg();
            let t1 = nb.add(ts).div(denom);
            let t2 = nb.sub(ts).div(denom);
            let q1 = p.add_v(&v.scale(t1));
            let q2 = p.add_v(&v.scale(t2));
            let points: Vec<Point> = vec![q1, q2];
            proof {
                assert(points@.map_values(|q0: Point| q0@) =~= self.spec_points(p@, v@));
            }
            (points, Hit::none())
        }
    }

    fn is_intersect(&self, p: Point, v: Vector) -> (r: bool) {
        if v.is_zero() {
            return false;
        }
        let (a, b, c) = self.coefficients(p, v);
        let delta = b.mul(b).sub(Fx { raw: FOUR }.mul(a).mul(c));
        delta.raw >= 0
    }
}

impl Normal for Sphere {
    /// The direction from the center to the point, normalized.
    open spec fn spec_normal(&self, q: V3, path: Seq<usize>) -> V3 {
        v3_normalize(v3_sub(q, self.p@))
    }

    fn normal(&self, q: Point, hit: &Hit) -> (r: Vector) {
        q.sub_v(&self.p).normalize()
    }
}

impl GetTexture for Sphere {
    open spec fn spec_texture(&self, path: Seq<usize>) -> Texture {
        self.texture
    }

    fn texture(&self, hit: &Hit) -> (r: Texture) {
        self.texture
    }
}

impl ObjectTrait for Sphere {

}

} // verus!
