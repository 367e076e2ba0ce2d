//! Recursive box subdivision: a Menger-sponge-like solid.
//!
//! An internal node's box is split into a 3 x 3 x 3 grid of 27 equal cells;
//! the center cell and the six face-center cells (any cell with two grid
//! indices equal to one) are discarded, leaving exactly 20 children, each
//! subdivided recursively. A node at depth zero is a leaf whose geometry is
//! exactly its box.

use vstd::prelude::*;

use crate::fx::{fx_divi, fx_mul, Fx, SCALE};
use crate::object::rect::{rect_center, rect_size, RectangleInner};
use crate::object::{GetTexture, Hit, Intersect, Normal, ObjectTrait};
use crate::point::Point;
use crate::texture::Texture;
use crate::vector::{v3_add, v3_dot, v3_sub, Vector, V3};

verus! {

/// One node of the subdivision: its box and its children (none for a leaf,
/// twenty otherwise).
pub struct MengerRec {
    pub rect: RectangleInner,
    pub sub_menger: Vec<MengerRec>,
}

/// Whether grid cell `i` (of 27, in `x*9 + y*3 + z` order) survives the
/// subdivision: it does unless at least two of its grid indices equal one.
pub open spec fn cell_kept(i: int) -> bool {
    let ix = i / 9;
    let iy = (i % 9) / 3;
    let iz = i % 3;
    !((ix == 1 && iy == 1) || (iy == 1 && iz == 1) || (iz == 1 && ix == 1))
}

/// How many of the first `i` grid cells survive.
pub open spec fn kept_before(i: nat) -> nat
    decreases i,
{
    if i == 0 {
        0
    } else {
        kept_before((i - 1) as nat) + if cell_kept(i - 1) {
            1nat
        } else {
            0nat
        }
    }
}

pub proof fn lemma_kept_before_mono(a: nat, b: nat)
    requires
        a <= b,
    ensures
        kept_before(a) <= kept_before(b),
    decreases b,
{
    if a < b {
        lemma_kept_before_mono(a, (b - 1) as nat);
    }
}

/// A third of the box diagonal: the edge of one grid cell.
pub open spec fn cell_diff(a: V3, b: V3) -> V3 {
    let d = v3_sub(b, a);
    V3 { x: fx_divi(d.x, 3), y: fx_divi(d.y, 3), z: fx_divi(d.z, 3) }
}

/// The low corner of grid cell `i` of the box `[a, b]`.
pub open spec fn cell_min(a: V3, b: V3, i: int) -> V3 {
    let d = cell_diff(a, b);
    v3_add(
        a,
        V3 {
            x: fx_mul((i / 9) * (SCALE as int), d.x),
            y: fx_mul(((i % 9) / 3) * (SCALE as int), d.y),
            z: fx_mul((i % 3) * (SCALE as int), d.z),
        },
    )
}

/// The high corner of grid cell `i` of the box `[a, b]`.
pub open spec fn cell_max(a: V3, b: V3, i: int) -> V3 {
    v3_add(cell_min(a, b, i), cell_diff(a, b))
}

/// `m` is the subdivision of the box `[a, b]` at recursion depth `n`: its
/// own box is `[a, b]`; at depth zero it is a leaf, and otherwise its
/// twenty children are the subdivisions of the surviving grid cells at
/// depth `n - 1`.
pub open spec fn is_menger(m: MengerRec, n: nat, a: V3, b: V3) -> bool
    decreases n,
{
    &&& m.rect.p_min@ == a
    &&& m.rect.p_max@ == b
    &&& m.rect.center@ == rect_center(a, b)
    &&& m.rect.size@ == rect_size(a, b)
    &&& if n == 0 {
        m.sub_menger@.len() == 0
    } else {
        &&& m.sub_menger@.len() == 20
        &&& forall|i: int|
            0 <= i < 27 && #[trigger] cell_kept(i) ==> is_menger(
                m.sub_menger@[kept_before(i as nat) as int],
                (n - 1) as nat,
                cell_min(a, b, i),
                cell_max(a, b, i),
            )
    }
}

/// Exactly twenty of the twenty-seven grid cells survive.
pub proof fn lemma_twenty_cells_kept()
    ensures
        kept_before(27) == 20,
{
    reveal_with_fuel(kept_before, 28);
}

/// Every internal node of a well-built subdivision has exactly twenty
/// children, each a well-built subdivision of a surviving grid cell one
/// level shallower; a node built at depth zero is a leaf whose box is
/// exactly the input box.
pub proof fn lemma_menger_subdivision(m: MengerRec, n: nat, a: V3, b: V3)
    requires
        is_menger(m, n, a, b),
    ensures
        m.rect.p_min@ == a,
        m.rect.p_max@ == b,
        n == 0 ==> m.sub_menger@.len() == 0,
        n > 0 ==> m.sub_menger@.len() == 20,
        n > 0 ==> forall|i: int|
            0 <= i < 27 && #[trigger] cell_kept(i) ==> is_menger(
                m.sub_menger@[kept_before(i as nat) as int],
                (n - 1) as nat,
                cell_min(a, b, i),
                cell_max(a, b, i),
            ),
{
}

impl MengerRec {
    /// Builds the subdivision of the box `[p1, p2]` at depth `rec_count`.
    pub fn new(rec_count: usize, p1: Point, p2: Point) -> (r: MengerRec)
        ensures
            is_menger(r, rec_count as nat, p1@, p2@),
        decreases rec_count,
    {
        if rec_count == 0 {
            return MengerRec { rect: RectangleInner::new(p1, p2), sub_menger: Vec::new() };
        }
        let dd = p2.sub_v(&p1);
        let d = Vector { x: dd.x.div_int(3), y: dd.y.div_int(3), z: dd.z.div_int(3) };
        let mut sub: Vec<MengerRec> = Vec::new();
        let mut i: usize = 0;
        while i < 27
            invariant
                i <= 27,
                rec_count >= 1,
                d@ == cell_diff(p1@, p2@),
                sub@.len() == kept_before(i as nat),
                forall|j: int|
                    0 <= j < i && #[trigger] cell_kept(j) ==> is_menger(
                        sub@[kept_before(j as nat) as int],
                        (rec_count - 1) as nat,
                        cell_min(p1@, p2@, j),
                        cell_max(p1@, p2@, j),
                    ),
            decreases 27 - i,
        {
            let ix = i / 9;
            let iy = (i % 9) / 3;
            let iz = i % 3;
            if !((ix == 1 && iy == 1) || (iy == 1 && iz == 1) || (iz == 1 && ix == 1)) {
                assert(ix <= 2 && iy <= 2 && iz <= 2);
                let off = Vector {
                    x: Fx { raw: (ix as i64) * SCALE }.mul(d.x),
                    y: Fx { raw: (iy as i64) * SCALE }.mul(d.y),
                    z: Fx { raw: (iz as i64) * SCALE }.mul(d.z),
                };
                let pmin = p1.add_v(&off);
                let pmax = pmin.add_v(&d);
                let child = MengerRec::new(rec_count - 1, pmin, pmax);
                proof {
                    assert(pmin@ == cell_min(p1@, p2@, i as int));
                    assert(pmax@ == cell_max(p1@, p2@, i as int));
                }
                sub.push(child);
                proof {
                    assert(kept_before((i + 1) as nat) == kept_before(i as nat) + 1);
                    assert forall|j: int| 0 <= j < i + 1 && #[trigger] cell_kept(j) implies is_menger(
                        sub@[kept_before(j as nat) as int],
                        (rec_count - 1) as nat,
                        cell_min(p1@, p2@, j),
                        cell_max(p1@, p2@, j),
                    ) by {
                        if j < i {
                            lemma_kept_before_mono((j + 1) as nat, i as nat);
                            assert(kept_before(j as nat) < kept_before(i as nat));
                        }
                    }
                }
            } else {
                proof {
                    assert(!cell_kept(i as int));
                    assert(kept_before((i + 1) as nat) == kept_before(i as nat));
                }
            }
            i = i + 1;
        }
        proof {
            lemma_twenty_cells_kept();
        }
        let r = MengerRec { rect: RectangleInner::new(p1, p2), sub_menger: sub };
        proof {
            assert(is_menger(r, rec_count as nat, p1@, p2@));
        }
        r
    }
}

/// The intersection points a subdivision node reports for the ray `(p, v)`:
/// its own box's points if the box is missed or the node is a leaf, and
/// otherwise the points of the child whose first point lies nearest to the
/// ray origin (empty when no child is hit).
pub open spec fn menger_pts(m: MengerRec, p: V3, v: V3) -> Seq<V3>
    decreases m, m.sub_menger@.len() + 1,
{
    let own = m.rect.spec_points(p, v);
    if own.len() == 0 || m.sub_menger@.len() == 0 {
        own
    } else {
        match menger_scan(m, p, v, 0, Option::None) {
            Option::None => Seq::empty(),
            Option::Some((bi, bp, bd)) => bp,
        }
    }
}

/// Left-to-right scan of the children from index `i` on, carrying the best
/// candidate seen so far as `(index, points, squared distance)`; a child
/// displaces the candidate only when strictly nearer.
pub open spec fn menger_scan(
    m: MengerRec,
    p: V3,
    v: V3,
    i: int,
    best: Option<(int, Seq<V3>, int)>,
) -> Option<(int, Seq<V3>, int)>
    decreases m, m.sub_menger@.len() - i,
{
    if i < 0 || i >= m.sub_menger@.len() {
        best
    } else {
        let hits = menger_pts(m.sub_menger@[i], p, v);
        let nb = if hits.len() == 0 {
            best
        } else {
            let w = v3_sub(hits[0], p);
            let dist = v3_dot(w, w);
            match best {
                Option::None => Option::Some((i, hits, dist)),
                Option::Some((bi, bp, bd)) => if dist < bd {
                    Option::Some((i, hits, dist))
                } else {
                    best
                },
            }
        };
        menger_scan(m, p, v, i + 1, nb)
    }
}

/// The hit descriptor a subdivision node reports: the index of the winning
/// child followed by that child's own descriptor; empty on a miss or leaf.
pub open spec fn menger_path(m: MengerRec, p: V3, v: V3) -> Seq<usize>
    decreases m, m.sub_menger@.len() + 1,
{
    let own = m.rect.spec_points(p, v);
    if own.len() == 0 || m.sub_menger@.len() == 0 {
        Seq::empty()
    } else {
        match menger_scan(m, p, v, 0, Option::None) {
            Option::None => Seq::empty(),
            Option::Some((bi, bp, bd)) => if 0 <= bi < m.sub_menger@.len() {
                seq![bi as usize] + menger_path(m.sub_menger@[bi], p, v)
            } else {
                Seq::empty()
            },
        }
    }
}

/// The normal a subdivision node reports: delegated along the hit path,
/// falling back to the node's own box for an empty or dangling path.
pub open spec fn menger_normal(m: MengerRec, q: V3, path: Seq<usize>) -> V3
    decreases path.len(),
{
    if path.len() == 0 || path[0] >= m.sub_menger@.len() {
        m.rect.spec_normal(q, Seq::empty())
    } else {
        menger_normal(m.sub_menger@[path[0] as int], q, path.skip(1))
    }
}

impl MengerRec {
    /// The intersection scan: own box first, then the nearest-hit child.
    fn points_rec(&self, p: Point, v: Vector) -> (r: (Vec<Point>, Hit))
        ensures
            r.0@.map_values(|q: Point| q@) == menger_pts(*self, p@, v@),
            r.1@ == menger_path(*self, p@, v@),
        decreases *self,
    {
        let (own, _h) = self.rect.intersect_points(p, v);
        if own.len() == 0 || self.sub_menger.len() == 0 {
            proof {
                assert(menger_path(*self, p@, v@) =~= Seq::<usize>::empty());
            }
            return (own, Hit::none());
        }
        let ghost m = *self;
        let ghost mut acc: Option<(int, Seq<V3>, int)> = Option::None;
        let mut found = false;
        let mut best_idx: usize = 0;
        let mut best_dist = Fx { raw: 0 };
        let mut best_points: Vec<Point> = Vec::new();
        let mut best_tail: Vec<usize> = Vec::new();
        let mut i: usize = 0;
        while i < self.sub_menger.len()
            invariant
                *self == m,
                i <= m.sub_menger@.len(),
                menger_scan(m, p@, v@, 0, Option::None) == menger_scan(m, p@, v@, i as int, acc),
                found == (acc is Some),
                acc matches Option::Some((bi, bp, bd)) ==> {
                    &&& 0 <= bi < m.sub_menger@.len()
                    &&& bi == best_idx as int
                    &&& bp == best_points@.map_values(|q: Point| q@)
                    &&& bd == best_dist.val()
                    &&& bp.len() > 0
                    &&& best_tail@ == menger_path(m.sub_menger@[bi], p@, v@)
                },
            decreases m.sub_menger@.len() - i,
        {
            let ghost acc0 = acc;
            let (hits, child_hit) = self.sub_menger[i].points_rec(p, v);
            if hits.len() > 0 {
                let w = hits[0].sub_v(&p);
                let dist = w.dot(&w);
                if !found || dist.raw < best_dist.raw {
                    found = true;
                    best_idx = i;
                    best_dist = dist;
                    best_points = hits;
                    best_tail = child_hit.path;
                    proof {
                        acc = Option::Some(
                            (i as int, best_points@.map_values(|q: Point| q@), dist.val()),
                        );
                    }
                }
            }
            proof {
                assert(menger_scan(m, p@, v@, i as int, acc0) == menger_scan(
                    m,
                    p@,
                    v@,
                    i + 1,
                    acc,
                ));
            }
            i = i + 1;
        }
        if !found {
            let empty: Vec<Point> = Vec::new();
            proof {
                assert(empty@.map_values(|q: Point| q@) =~= menger_pts(m, p@, v@));
                assert(menger_path(m, p@, v@) =~= Seq::<usize>::empty());
            }
            return (empty, Hit::none());
        }
        let mut path: Vec<usize> = Vec::new();
        path.push(best_idx);
        let mut tail = best_tail;
        path.append(&mut tail);
        proof {
            assert(path@ =~= menger_path(m, p@, v@));
        }
        (best_points, Hit { path })
    }

    /// The normal query, delegated along the hit path.
    fn normal_rec(&self, q: Point, path: &Vec<usize>, pos: usize) -> (r: Vector)
        requires
            pos <= path@.len(),
        ensures
            r@ == menger_normal(*self, q@, path@.skip(pos as int)),
        decreases path@.len() - pos,
    {
        if pos == path.len() || path[pos] >= self.sub_menger.len() {
            proof {
                let s = path@.skip(pos as int);
                assert(s.len() == 0 || s[0] == path@[pos as int]);
            }
            self.rect.normal(q, &Hit::none())
        } else {
            let idx = path[pos];
            let r = self.sub_menger[idx].normal_rec(q, path, pos + 1);
            proof {
                let s = path@.skip(pos as int);
                assert(s[0] == path@[pos as int]);
                assert(s.skip(1) =~= path@.skip(pos as int + 1));
            }
            r
        }
    }
}

impl Intersect for MengerRec {
    open spec fn spec_points(&self, p: V3, v: V3) -> Seq<V3> {
        menger_pts(*self, p, v)
    }

    open spec fn spec_path(&self, p: V3, v: V3) -> Seq<usize> {
        menger_path(*self, p, v)
    }

    fn intersect_points(&self, p: Point, v: Vector) -> (r: (Vec<Point>, Hit)) {
        self.points_rec(p, v)
    }

    fn is_intersect(&self, p: Point, v: Vector) -> (r: bool) {
        let (points, _hit) = self.points_rec(p, v);
        points.len() > 0
    }
}

impl Normal for MengerRec {
    open spec fn spec_normal(&self, q: V3, path: Seq<usize>) -> V3 {
        menger_normal(*self, q, path)
    }

    fn normal(&self, q: Point, hit: &Hit) -> (r: Vector) {
        let r = self.normal_rec(q, &hit.path, 0);
        proof {
            assert(hit.path@.skip(0) =~= hit.path@);
        }
        r
    }
}

/// The subdivision as a scene object: the root node with a texture.
pub struct Menger {
    pub menger: MengerRec,
    pub texture: Texture,
    pub id: String,
}

impl Menger {
    /// Builds the subdivision of the box spanned by two corners (reordered
    /// so the low corner is componentwise least) at depth `rec_count`.
    pub fn new(rec_count: usize, p1: Point, p2: Point, texture: Texture, id: String) -> (r: Menger)
        ensures
            is_menger(
                r.menger,
                rec_count as nat,
                crate::vector::v3_min_against(p1@, p2@),
                crate::vector::v3_max_against(p1@, p2@),
            ),
            r.texture == texture,
    {
        let lo = p1.to_vec().min_against(&p2.to_vec()).to_point();
        let hi = p1.to_vec().max_against(&p2.to_vec()).to_point();
        Menger { menger: MengerRec::new(rec_count, lo, hi), texture, id }
    }
}

impl Intersect for Menger {
    open spec fn spec_points(&self, p: V3, v: V3) -> Seq<V3> {
        menger_pts(self.menger, p, v)
    }

    open spec fn spec_path(&self, p: V3, v: V3) -> Seq<usize> {
        menger_path(self.menger, p, v)
    }

    fn intersect_points(&self, p: Point, v: Vector) -> (r: (Vec<Point>, Hit)) {
        self.menger.points_rec(p, v)
    }

    fn is_intersect(&self, p: Point, v: Vector) -> (r: bool) {
        self.menger.is_intersect(p, v)
    }
}

impl Normal for Menger {
    open spec fn spec_normal(&self, q: V3, path: Seq<usize>) -> V3 {
        menger_normal(self.menger, q, path)
    }

    fn normal(&self, q: Point, hit: &Hit) -> (r: Vector) {
        self.menger.normal(q, hit)
    }
}

impl GetTexture for Menger {
    open spec fn spec_texture(&self, path: Seq<usize>) -> Texture {
        self.texture
    }

    fn texture(&self, hit: &Hit) -> (r: Texture) {
        self.texture
    }
}

impl ObjectTrait for Menger {

}

} // verus!
