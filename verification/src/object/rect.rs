//! Axis-aligned boxes, intersected with a slab test against the six
//! bounding planes.

use vstd::prelude::*;

use crate::fx::{fx_add, fx_div, fx_divi, fx_sub, iabs, sat64, Fx, SCALE};
use crate::object::{GetTexture, Hit, Intersect, Normal, ObjectTrait};
use crate::point::Point;
use crate::texture::Texture;
use crate::vector::{
    max2, min2, v3_abs, v3_add, v3_div, v3_max_against, v3_min_against, v3_normalize, v3_scale,
    v3_sub, v3_zero, Vector, V3,
};

verus! {

/// How close `|point - center| / half_extent` must come to one for an axis
/// to count as the face a point lies on.
pub const FACE_EPS: i64 = 100;

/// The midpoint of two vectors, componentwise.
pub open spec fn rect_center(a: V3, b: V3) -> V3 {
    V3 {
        x: fx_divi(fx_add(a.x, b.x), 2),
        y: fx_divi(fx_add(a.y, b.y), 2),
        z: fx_divi(fx_add(a.z, b.z), 2),
    }
}

/// Half of the componentwise distance of two vectors.
pub open spec fn rect_size(a: V3, b: V3) -> V3 {
    let d = v3_abs(v3_sub(b, a));
    V3 { x: fx_divi(d.x, 2), y: fx_divi(d.y, 2), z: fx_divi(d.z, 2) }
}

/// One slab step: narrow the running parameter interval `acc` by the axis
/// whose origin is `p`, direction `v`, and bounds `[mn, mx]`. A zero
/// direction component passes the interval through when the origin lies
/// between the bounds and rejects the ray otherwise.
pub open spec fn slab(p: int, v: int, mn: int, mx: int, acc: Option<(int, int)>) -> Option<
    (int, int),
> {
    match acc {
        Option::None => Option::None,
        Option::Some((tmin, tmax)) => {
            if v == 0 {
                if p < mn || p > mx {
                    Option::None
                } else {
                    Option::Some((tmin, tmax))
                }
            } else {
                let ta = fx_div(fx_sub(mn, p), v);
                let tb = fx_div(fx_sub(mx, p), v);
                let nmin = max2(tmin, min2(ta, tb));
                let nmax = min2(tmax, max2(ta, tb));
                if nmin > nmax {
                    Option::None
                } else {
                    Option::Some((nmin, nmax))
                }
            }
        },
    }
}

/// The values carried by an optional interval of scalars.
pub open spec fn interval_val(o: Option<(Fx, Fx)>) -> Option<(int, int)> {
    match o {
        Option::None => Option::None,
        Option::Some((a, b)) => Option::Some((a.val(), b.val())),
    }
}

/// One slab step (executable form of [`slab`]).
fn slab_exec(p: Fx, v: Fx, mn: Fx, mx: Fx, acc: Option<(Fx, Fx)>) -> (r: Option<(Fx, Fx)>)
    ensures
        interval_val(r) == slab(p.val(), v.val(), mn.val(), mx.val(), interval_val(acc)),
{
    match acc {
        Option::None => Option::None,
        Option::Some((tmin, tmax)) => {
            if v.raw == 0 {
                if p.raw < mn.raw || p.raw > mx.raw {
                    Option::None
                } else {
                    Option::Some((tmin, tmax))
                }
            } else {
                let ta = mn.sub(p).div(v);
                let tb = mx.sub(p).div(v);
                let lo = if ta.raw <= tb.raw {
                    ta
                } else {
                    tb
                };
                let hi = if ta.raw >= tb.raw {
                    ta
                } else {
                    tb
                };
                let nmin = if tmin.raw >= lo.raw {
                    tmin
                } else {
                    lo
                };
                let nmax = if tmax.raw <= hi.raw {
                    tmax
                } else {
                    hi
                };
                if nmin.raw > nmax.raw {
                    Option::None
                } else {
                    Option::Some((nmin, nmax))
                }
            }
        },
    }
}

/// The geometry of an axis-aligned box: two opposite corners with the
/// derived center and half-extents.
pub struct RectangleInner {
    pub p_min: Point,
    pub p_max: Point,
    pub center: Point,
    pub size: Vector,
}

impl RectangleInner {
    /// Builds the box of two corners as given, deriving center and
    /// half-extents; the corners are not reordered here.
    pub fn new(p1: Point, p2: Point) -> (r: RectangleInner)
        ensures
            r.p_min == p1,
            r.p_max == p2,
            r.center@ == rect_center(p1@, p2@),
            r.size@ == rect_size(p1@, p2@),
    {
        let s = p1.add(&p2);
        let d = p2.sub_v(&p1).abs();
        RectangleInner {
            p_min: p1,
            p_max: p2,
            center: Point { x: s.x.div_int(2), y: s.y.div_int(2), z: s.z.div_int(2) },
            size: Vector { x: d.x.div_int(2), y: d.y.div_int(2), z: d.z.div_int(2) },
        }
    }

    /// The parameter interval in which the ray `(p, v)` stays between all
    /// six bounding planes.
    pub open spec fn spec_trange(self, p: V3, v: V3) -> Option<(int, int)> {
        let a0 = Option::Some((i64::MIN as int, i64::MAX as int));
        let a1 = slab(p.x, v.x, self.p_min@.x, self.p_max@.x, a0);
        let a2 = slab(p.y, v.y, self.p_min@.y, self.p_max@.y, a1);
        slab(p.z, v.z, self.p_min@.z, self.p_max@.z, a2)
    }
}

impl Intersect for RectangleInner {
    /// Entry and exit points when both lie ahead of the origin, the exit
    /// point alone when the origin is inside the box, and nothing
    /// otherwise (or for a zero direction).
    open spec fn spec_points(&self, p: V3, v: V3) -> Seq<V3> {
        if v == v3_zero() {
            Seq::empty()
        } else {
            match self.spec_trange(p, v) {
                Option::None => Seq::empty(),
                Option::Some((tmin, tmax)) => {
                    if tmin > 0 && tmax > 0 {
                        seq![v3_add(p, v3_scale(v, tmin)), v3_add(p, v3_scale(v, tmax))]
                    } else if tmax > 0 {
                        seq![v3_add(p, v3_scale(v, tmax))]
                    } else {
                        Seq::empty()
                    }
                },
            }
        }
    }

    open spec fn spec_path(&self, p: V3, v: V3) -> Seq<usize> {
        Seq::empty()
    }

    fn intersect_points(&self, p: Point, v: Vector) -> (r: (Vec<Point>, Hit)) {
        if v.is_zero() {
            let empty: Vec<Point> = Vec::new();
            proof {
                assert(empty@.map_values(|q: Point| q@) =~= self.spec_points(p@, v@));
            }
            return (empty, Hit::none());
        }
        let a0 = Option::Some((Fx { raw: i64::MIN }, Fx { raw: i64::MAX }));
        let a1 = slab_exec(p.x, v.x, self.p_min.x, self.p_max.x, a0);
        let a2 = slab_exec(p.y, v.y, self.p_min.y, self.p_max.y, a1);
        let a3 = slab_exec(p.z, v.z, self.p_min.z, self.p_max.z, a2);
        match a3 {
            Option::None => {
                let empty: Vec<Point> = Vec::new();
                proof {
                    assert(empty@.map_values(|q: Point| q@) =~= self.spec_points(p@, v@));
                }
                (empty, Hit::none())
            },
            Option::Some((tmin, tmax)) => {
                if tmin.raw > 0 && tmax.raw > 0 {
                    let points: Vec<Point> = vec![
                        p.add_v(&v.scale(tmin)),
                        p.add_v(&v.scale(tmax)),
                    ];
                    proof {
                        assert(points@.map_values(|q: Point| q@) =~= self.spec_points(p@, v@));
                    }
                    (points, Hit::none())
                } else if tmax.raw > 0 {
                    let points: Vec<Point> = vec![p.add_v(&v.scale(tmax))];
                    proof {
                        assert(points@.map_values(|q: Point| q@) =~= self.spec_points(p@, v@));
                    }
                    (points, Hit::none())
                } else {
                    let empty: Vec<Point> = Vec::new();
                    proof {
                        assert(empty@.map_values(|q: Point| q@) =~= self.spec_points(p@, v@));
                    }
                    (empty, Hit::none())
                }
            },
        }
    }

    fn is_intersect(&self, p: Point, v: Vector) -> (r: bool) {
        let (points, _hit) = self.intersect_points(p, v);
        points.len() > 0
    }
}

impl Normal for RectangleInner {
    /// The unit vector of the axis on which the point sits within
    /// `FACE_EPS` of a face, signed by the side of the center it lies on.
    open spec fn spec_normal(&self, q: V3, path: Seq<usize>) -> V3 {
        let pc = v3_sub(q, self.center@);
        let rel = v3_div(v3_abs(pc), self.size@);
        v3_normalize(
            V3 {
                x: face_component(rel.x, pc.x),
                y: face_component(rel.y, pc.y),
                z: face_component(rel.z, pc.z),
            },
        )
    }

    fn normal(&self, q: Point, hit: &Hit) -> (r: Vector) {
        let pc = q.sub_v(&self.center);
        let rel = pc.abs().div(&self.size);
        Vector {
            x: face_component_exec(rel.x, pc.x),
            y: face_component_exec(rel.y, pc.y),
            z: face_component_exec(rel.z, pc.z),
        }.normalize()
    }
}

/// `(+-)1.0` on the axis where the relative offset is within `FACE_EPS` of
/// one, zero elsewhere.
pub open spec fn face_component(rel: int, pc: int) -> int {
    if iabs(fx_sub(rel, SCALE as int)) < FACE_EPS {
        if pc < 0 {
            -(SCALE as int)
        } else {
            SCALE as int
        }
    } else {
        0
    }
}

fn face_component_exec(rel: Fx, pc: Fx) -> (r: Fx)
    ensures
        r.val() == face_component(rel.val(), pc.val()),
{
    let d = rel.sub(Fx { raw: SCALE }).abs();
    if d.raw < FACE_EPS {
        if pc.raw < 0 {
            Fx { raw: -SCALE }
        } else {
            Fx { raw: SCALE }
        }
    } else {
        Fx { raw: 0 }
    }
}

/// An axis-aligned box with a texture: the corners given at construction
/// are reordered so that `p_min <= p_max` holds componentwise.
pub struct Rectangle {
    pub rect: RectangleInner,
    pub texture: Texture,
    pub id: String,
}

impl Rectangle {
    pub fn new(p1: Point, p2: Point, texture: Texture, id: String) -> (r: Rectangle)
        ensures
            r.rect.p_min@ == v3_min_against(p1@, p2@),
            r.rect.p_max@ == v3_max_against(p1@, p2@),
            r.rect.center@ == rect_center(v3_min_against(p1@, p2@), v3_max_against(p1@, p2@)),
            r.rect.size@ == rect_size(v3_min_against(p1@, p2@), v3_max_against(p1@, p2@)),
            r.texture == texture,
    {
        let lo = p1.to_vec().min_against(&p2.to_vec()).to_point();
        let hi = p1.to_vec().max_against(&p2.to_vec()).to_point();
        Rectangle { rect: RectangleInner::new(lo, hi), texture, id }
    }
}

impl Intersect for Rectangle {
    open spec fn spec_points(&self, p: V3, v: V3) -> Seq<V3> {
        self.rect.spec_points(p, v)
    }

    open spec fn spec_path(&self, p: V3, v: V3) -> Seq<usize> {
        Seq::empty()
    }

    fn intersect_points(&self, p: Point, v: Vector) -> (r: (Vec<Point>, Hit)) {
        self.rect.intersect_points(p, v)
    }

    fn is_intersect(&self, p: Point, v: Vector) -> (r: bool) {
        self.rect.is_intersect(p, v)
    }
}

impl Normal for Rectangle {
    open spec fn spec_normal(&self, q: V3, path: Seq<usize>) -> V3 {
        self.rect.spec_normal(q, path)
    }

    fn normal(&self, q: Point, hit: &Hit) -> (r: Vector) {
        self.rect.normal(q, hit)
    }
}

impl GetTexture for Rectangle {
    open spec fn spec_texture(&self, path: Seq<usize>) -> Texture {
        self.texture
    }

    fn texture(&self, hit: &Hit) -> (r: Texture) {
        self.texture
    }
}

impl ObjectTrait for Rectangle {

}

} // verus!
