//! The procedural generator: a virtual pen ("turtle") interprets an
//! expanded grammar string, emitting spheres along its path and triangles
//! for closed polygons, and accumulating an axis-aligned bounding box.

use vstd::prelude::*;

use crate::color::Color;
use crate::fx::{fx_div, fx_neg, Fx, SCALE};
use crate::grammar::{expand_n, rules_view, Grammar};
use crate::object::rect::{rect_center, rect_size, RectangleInner};
use crate::object::sphere::Sphere;
use crate::object::triangle::Triangle;
use crate::object::{GetTexture, Hit, Intersect, Normal, ObjectTrait};
use crate::point::Point;
use crate::texture::{Texture, TextureTrait};
use crate::trig::{fx_cos, fx_sin, fx_to_radians};
use crate::vector::{
    v3_add, v3_dot, v3_max_against, v3_min_against, v3_normalize, v3_scale, v3_sub, v3_zero,
    Vector, V3,
};

verus! {

/// How far one `F` or `f` step advances the pen: 0.4 units.
pub const STEP: i64 = 400_000_000;

/// The radius of a freshly started pen's spheres: 0.2 units.
pub const PEN_RADIUS: i64 = 200_000_000;

/// Each `!` divides the pen radius by this: 1.3.
pub const RADIUS_SHRINK: i64 = 1_300_000_000;

/// The `|` symbol turns the pen around: 180 degrees.
pub const HALF_TURN: i64 = 180_000_000_000;

/// The pen's transient state: a position, three orthonormal axes, and the
/// radius of the spheres it emits.
#[derive(Clone, Copy, PartialEq, Eq, Structural, Debug)]
pub struct State {
    pub position: Vector,
    pub head: Vector,
    pub up: Vector,
    pub left: Vector,
    pub radius: Fx,
}

/// Specification-level pen state.
pub struct SV {
    pub position: V3,
    pub head: V3,
    pub up: V3,
    pub left: V3,
    pub radius: int,
}

impl View for State {
    type V = SV;

    open spec fn view(&self) -> SV {
        SV {
            position: self.position@,
            head: self.head@,
            up: self.up@,
            left: self.left@,
            radius: self.radius.val(),
        }
    }
}

/// The pen advanced along its heading by `dist`.
pub open spec fn sv_move_forward(s: SV, dist: int) -> SV {
    SV { position: v3_add(s.position, v3_scale(s.head, dist)), ..s }
}

/// The pen rolled about its heading by `angle` degrees: `left` and `up`
/// rotate in their plane and are re-normalized.
pub open spec fn sv_rotate_head(s: SV, angle: int) -> SV {
    let a = fx_to_radians(angle);
    let c = fx_cos(a);
    let sn = fx_sin(a);
    SV {
        left: v3_normalize(v3_add(v3_scale(s.left, c), v3_scale(s.up, sn))),
        up: v3_normalize(v3_add(v3_scale(s.left, fx_neg(sn)), v3_scale(s.up, c))),
        ..s
    }
}

/// The pen pitched about its left axis by `angle` degrees: `head` and `up`
/// rotate in their plane and are re-normalized.
pub open spec fn sv_rotate_left(s: SV, angle: int) -> SV {
    let a = fx_to_radians(angle);
    let c = fx_cos(a);
    let sn = fx_sin(a);
    SV {
        head: v3_normalize(v3_add(v3_scale(s.head, c), v3_scale(s.up, sn))),
        up: v3_normalize(v3_add(v3_scale(s.head, fx_neg(sn)), v3_scale(s.up, c))),
        ..s
    }
}

/// The pen turned about its up axis by `angle` degrees: `head` and `left`
/// rotate in their plane and are re-normalized.
pub open spec fn sv_rotate_up(s: SV, angle: int) -> SV {
    let a = fx_to_radians(angle);
    let c = fx_cos(a);
    let sn = fx_sin(a);
    SV {
        head: v3_normalize(v3_add(v3_scale(s.head, c), v3_scale(s.left, fx_neg(sn)))),
        left: v3_normalize(v3_add(v3_scale(s.head, sn), v3_scale(s.left, c))),
        ..s
    }
}

impl State {
    /// Advances the position along `head` by `dist`.
    pub fn move_forward(&mut self, dist: Fx)
        ensures
            final (self)@ == sv_move_forward(old(self)@, dist.val()),
    {
        self.position = self.position.add(&self.head.scale(dist));
    }

    /// Rolls about `head` by `angle` degrees.
    pub fn rotate_head(&mut self, angle: Fx)
        ensures
            final (self)@ == sv_rotate_head(old(self)@, angle.val()),
    {
        let a = crate::trig::to_radians(angle);
        let c = crate::trig::cos_rad(a);
        let sn = crate::trig::sin_rad(a);
        let left = self.left.scale(c).add(&self.up.scale(sn)).normalize();
        let up = self.left.scale(sn.neg()).add(&self.up.scale(c)).normalize();
        self.left = left;
        self.up = up;
    }

    /// Pitches about `left` by `angle` degrees.
    pub fn rotate_left(&mut self, angle: Fx)
        ensures
            final (self)@ == sv_rotate_left(old(self)@, angle.val()),
    {
        let a = crate::trig::to_radians(angle);
        let c = crate::trig::cos_rad(a);
        let sn = crate::trig::sin_rad(a);
        let head = self.head.scale(c).add(&self.up.scale(sn)).normalize();
        let up = self.head.scale(sn.neg()).add(&self.up.scale(c)).normalize();
        self.head = head;
        self.up = up;
    }

    /// Turns about `up` by `angle` degrees.
    pub fn rotate_up(&mut self, angle: Fx)
        ensures
            final (self)@ == sv_rotate_up(old(self)@, angle.val()),
    {
        let a = crate::trig::to_radians(angle);
        let c = crate::trig::cos_rad(a);
        let sn = crate::trig::sin_rad(a);
        let head = self.head.scale(c).add(&self.left.scale(sn.neg())).normalize();
        let left = self.head.scale(sn).add(&self.left.scale(c)).normalize();
        self.head = head;
        self.left = left;
    }
}

/// A shape the turtle can emit.
pub enum TurtleObj {
    Sphere(Sphere),
    Triangle(Triangle),
}

/// Specification-level view of an emitted shape.
pub enum TOV {
    Sph { center: V3, radius: int, tex: Texture },
    Tri { a: V3, b: V3, c: V3, tex: Texture },
}

pub open spec fn tobj_view(o: TurtleObj) -> TOV {
    match o {
        TurtleObj::Sphere(s) => TOV::Sph { center: s.p@, radius: s.r.val(), tex: s.texture },
        TurtleObj::Triangle(t) => TOV::Tri { a: t.p1@, b: t.p2@, c: t.p3@, tex: t.texture },
    }
}

/// The texture of the spheres the pen lays down; the ambient coefficient is
/// inherited from the turtle's own texture.
pub open spec fn spec_pen_texture(ka: Fx) -> Texture {
    Texture {
        kd: Fx { raw: SCALE },
        ks: Fx { raw: 100_000_000 },
        ka,
        color: Color {
            v: Vector {
                x: Fx { raw: 103_000_000_000 },
                y: Fx { raw: 78_000_000_000 },
                z: Fx { raw: 31_000_000_000 },
            },
        },
    }
}

/// The texture of polygon triangles.
pub open spec fn spec_leaf_texture() -> Texture {
    Texture {
        kd: Fx { raw: SCALE },
        ks: Fx { raw: 200_000_000 },
        ka: Fx { raw: 200_000_000 },
        color: Color {
            v: Vector { x: Fx { raw: 0 }, y: Fx { raw: 255_000_000_000 }, z: Fx { raw: 0 } },
        },
    }
}

fn pen_texture(ka: Fx) -> (r: Texture)
    ensures
        r == spec_pen_texture(ka),
{
    Texture {
        kd: Fx { raw: SCALE },
        ks: Fx { raw: 100_000_000 },
        ka,
        color: Color::new(103, 78, 31),
    }
}

fn leaf_texture() -> (r: Texture)
    ensures
        r == spec_leaf_texture(),
{
    Texture {
        kd: Fx { raw: SCALE },
        ks: Fx { raw: 200_000_000 },
        ka: Fx { raw: 200_000_000 },
        color: Color::new(0, 255, 0),
    }
}

/// The whole interpreter state: the pen, the stack of saved pens, the
/// polygon edge list, the emitted shapes, and the bounding box corners.
pub struct TState {
    pub cur: SV,
    pub stack: Seq<SV>,
    pub poly: Seq<V3>,
    pub objs: Seq<TOV>,
    pub min: V3,
    pub max: V3,
}

/// The pen starts at the origin, heading along `x` with `up` along `y` and
/// `left` along `z`, with nothing emitted.
pub open spec fn turtle_init() -> TState {
    TState {
        cur: SV {
            position: v3_zero(),
            head: V3 { x: SCALE as int, y: 0, z: 0 },
            up: V3 { x: 0, y: SCALE as int, z: 0 },
            left: V3 { x: 0, y: 0, z: SCALE as int },
            radius: PEN_RADIUS as int,
        },
        stack: Seq::empty(),
        poly: Seq::empty(),
        objs: Seq::empty(),
        min: v3_zero(),
        max: v3_zero(),
    }
}

/// The fan triangulation of `poly` from `start`: one triangle per
/// consecutive edge pair, beginning with `(poly[i], poly[i+1])`.
pub open spec fn fan_tris(start: V3, poly: Seq<V3>, i: int, tex: Texture) -> Seq<TOV>
    decreases poly.len() - i,
{
    if i < 0 || i + 1 >= poly.len() {
        Seq::empty()
    } else {
        seq![TOV::Tri { a: start, b: poly[i], c: poly[i + 1], tex }] + fan_tris(
            start,
            poly,
            i + 1,
            tex,
        )
    }
}

pub proof fn lemma_fan_tris_index(start: V3, poly: Seq<V3>, i: int, tex: Texture)
    requires
        0 <= i,
    ensures
        fan_tris(start, poly, i, tex).len() == if i + 1 >= poly.len() {
            0int
        } else {
            poly.len() - 1 - i
        },
        forall|k: int|
            0 <= k < fan_tris(start, poly, i, tex).len() ==> fan_tris(start, poly, i, tex)[k]
                == (TOV::Tri { a: start, b: poly[i + k], c: poly[i + k + 1], tex }),
    decreases poly.len() - i,
{
    if i + 1 < poly.len() {
        lemma_fan_tris_index(start, poly, i + 1, tex);
    }
}

/// One interpreted symbol.
///
/// `F` advances the pen and lays down a sphere; `f` records a polygon edge
/// and advances silently; the rotation symbols reorient the pen; `!`
/// narrows it; `[` and `]` save and restore it (a dangling `]` is ignored);
/// `{` opens a polygon and `}` closes it, appending the final position and
/// fan-triangulating the recorded edges; every other symbol is a no-op.
pub open spec fn turtle_step(st: TState, ch: char, angle: int, ka: Fx) -> TState {
    if ch == 'F' {
        let cur = sv_move_forward(st.cur, STEP as int);
        let rad3 = V3 { x: cur.radius, y: cur.radius, z: cur.radius };
        TState {
            cur,
            objs: st.objs.push(
                TOV::Sph { center: cur.position, radius: cur.radius, tex: spec_pen_texture(ka) },
            ),
            min: v3_min_against(st.min, v3_sub(cur.position, rad3)),
            max: v3_max_against(st.max, v3_add(cur.position, rad3)),
            ..st
        }
    } else if ch == '+' {
        TState { cur: sv_rotate_up(st.cur, angle), ..st }
    } else if ch == '-' {
        TState { cur: sv_rotate_up(st.cur, fx_neg(angle)), ..st }
    } else if ch == '&' {
        TState { cur: sv_rotate_left(st.cur, angle), ..st }
    } else if ch == '^' {
        TState { cur: sv_rotate_left(st.cur, fx_neg(angle)), ..st }
    } else if ch == '/' {
        TState { cur: sv_rotate_head(st.cur, angle), ..st }
    } else if ch == '\\' {
        TState { cur: sv_rotate_head(st.cur, fx_neg(angle)), ..st }
    } else if ch == '|' {
        TState { cur: sv_rotate_up(st.cur, HALF_TURN as int), ..st }
    } else if ch == 'f' {
        TState {
            min: v3_min_against(st.min, st.cur.position),
            max: v3_max_against(st.max, st.cur.position),
            poly: st.poly.push(st.cur.position),
            cur: sv_move_forward(st.cur, STEP as int),
            ..st
        }
    } else if ch == '!' {
        TState {
            cur: SV { radius: fx_div(st.cur.radius, RADIUS_SHRINK as int), ..st.cur },
            ..st
        }
    } else if ch == '{' {
        TState { poly: Seq::empty(), ..st }
    } else if ch == '}' {
        let poly2 = st.poly.push(st.cur.position);
        TState {
            poly: poly2,
            objs: st.objs + fan_tris(poly2[0], poly2, 1, spec_leaf_texture()),
            ..st
        }
    } else if ch == '[' {
        TState { stack: st.stack.push(st.cur), ..st }
    } else if ch == ']' {
        if st.stack.len() == 0 {
            st
        } else {
            TState { cur: st.stack.last(), stack: st.stack.drop_last(), ..st }
        }
    } else {
        st
    }
}

/// The interpreter run over a whole symbol string, left to right.
pub open spec fn turtle_run(s: Seq<char>, angle: int, ka: Fx) -> TState
    decreases s.len(),
{
    if s.len() == 0 {
        turtle_init()
    } else {
        turtle_step(turtle_run(s.drop_last(), angle, ka), s.last(), angle, ka)
    }
}

/// Every emitted triangle carries consistent derived fields.
pub open spec fn emitted_wf(objs: Seq<TurtleObj>) -> bool {
    forall|k: int|
        0 <= k < objs.len() ==> match #[trigger] objs[k] {
            TurtleObj::Triangle(t) => t.wf(),
            TurtleObj::Sphere(s) => true,
        }
}

impl Intersect for TurtleObj {
    open spec fn spec_points(&self, p: V3, v: V3) -> Seq<V3> {
        match self {
            TurtleObj::Sphere(o) => o.spec_points(p, v),
            TurtleObj::Triangle(o) => o.spec_points(p, v),
        }
    }

    open spec fn spec_path(&self, p: V3, v: V3) -> Seq<usize> {
        Seq::empty()
    }

    fn intersect_points(&self, p: Point, v: Vector) -> (r: (Vec<Point>, Hit)) {
        match self {
            TurtleObj::Sphere(o) => o.intersect_points(p, v),
            TurtleObj::Triangle(o) => o.intersect_points(p, v),
        }
    }

    fn is_intersect(&self, p: Point, v: Vector) -> (r: bool) {
        match self {
            TurtleObj::Sphere(o) => o.is_intersect(p, v),
            TurtleObj::Triangle(o) => o.is_intersect(p, v),
        }
    }
}

impl Normal for TurtleObj {
    open spec fn spec_normal(&self, q: V3, path: Seq<usize>) -> V3 {
        match self {
            TurtleObj::Sphere(o) => o.spec_normal(q, path),
            TurtleObj::Triangle(o) => o.spec_normal(q, path),
        }
    }

    fn normal(&self, q: Point, hit: &Hit) -> (r: Vector) {
        match self {
            TurtleObj::Sphere(o) => o.normal(q, hit),
            TurtleObj::Triangle(o) => o.normal(q, hit),
        }
    }
}

impl GetTexture for TurtleObj {
    open spec fn spec_texture(&self, path: Seq<usize>) -> Texture {
        match self {
            TurtleObj::Sphere(o) => o.spec_texture(path),
            TurtleObj::Triangle(o) => o.spec_texture(path),
        }
    }

    fn texture(&self, hit: &Hit) -> (r: Texture) {
        match self {
            TurtleObj::Sphere(o) => o.texture(hit),
            TurtleObj::Triangle(o) => o.texture(hit),
        }
    }
}

impl ObjectTrait for TurtleObj {

}

/// An emitted shape is simple: its normal does not depend on the hit
/// descriptor.
pub proof fn lemma_tobj_normal_ignores_path(o: TurtleObj, q: V3, p1: Seq<usize>, p2: Seq<usize>)
    ensures
        o.spec_normal(q, p1) == o.spec_normal(q, p2),
{
}

/// An emitted shape is simple: its texture does not depend on the hit
/// descriptor.
pub proof fn lemma_tobj_texture_ignores_path(o: TurtleObj, p1: Seq<usize>, p2: Seq<usize>)
    ensures
        o.spec_texture(p1) == o.spec_texture(p2),
{
}

/// The interpreter's whole state, packaged from its executable parts.
pub open spec fn pack_state(
    cur: State,
    stack: Seq<State>,
    poly: Seq<Vector>,
    objs: Seq<TurtleObj>,
    mn: Vector,
    mx: Vector,
) -> TState {
    TState {
        cur: cur@,
        stack: stack.map_values(|x: State| x@),
        poly: poly.map_values(|x: Vector| x@),
        objs: objs.map_values(|o: TurtleObj| tobj_view(o)),
        min: mn@,
        max: mx@,
    }
}

/// Closes the running polygon: appends the pen's position to the edge list
/// and emits the fan triangulation of the recorded edges.
fn close_polygon(current: &State, polygon_edges: &mut Vec<Vector>, res: &mut Vec<TurtleObj>)
    ensures
        ({
            let poly2 = old(polygon_edges)@.map_values(|x: Vector| x@).push(current@.position);
            &&& final (polygon_edges)@.map_values(|x: Vector| x@) == poly2
            &&& final (res)@.map_values(|o: TurtleObj| tobj_view(o)) == old(res)@.map_values(
                |o: TurtleObj| tobj_view(o),
            ) + fan_tris(poly2[0], poly2, 1, spec_leaf_texture())
        }),
        emitted_wf(old(res)@) ==> emitted_wf(final (res)@),
{
    polygon_edges.push(current.position);
    let ghost poly2 = polygon_edges@.map_values(|x: Vector| x@);
    let ghost base = res@.map_values(|o: TurtleObj| tobj_view(o));
    proof {
        assert(poly2 =~= old(polygon_edges)@.map_values(|x: Vector| x@).push(current@.position));
        lemma_fan_tris_index(poly2[0], poly2, 1, spec_leaf_texture());
        assert(base + fan_tris(poly2[0], poly2, 1, spec_leaf_texture()).take(0) =~= base);
    }
    let start = polygon_edges[0];
    let mut j: usize = 1;
    while j < polygon_edges.len() - 1
        invariant
            polygon_edges@.len() >= 1,
            1 <= j,
            j <= polygon_edges@.len() - 1 || j == 1,
            poly2 == polygon_edges@.map_values(|x: Vector| x@),
            start@ == poly2[0],
            res@.map_values(|o: TurtleObj| tobj_view(o)) == base + fan_tris(
                poly2[0],
                poly2,
                1,
                spec_leaf_texture(),
            ).take(j - 1),
            emitted_wf(old(res)@) ==> emitted_wf(res@),
        decreases polygon_edges@.len() - j,
    {
        let tri = Triangle::new(
            start.to_point(),
            polygon_edges[j].to_point(),
            polygon_edges[j + 1].to_point(),
            leaf_texture(),
            String::new(),
        );
        res.push(TurtleObj::Triangle(tri));
        proof {
            let fan = fan_tris(poly2[0], poly2, 1, spec_leaf_texture());
            lemma_fan_tris_index(poly2[0], poly2, 1, spec_leaf_texture());
            let prev = base + fan.take(j - 1);
            assert(res@.map_values(|o: TurtleObj| tobj_view(o)) =~= prev.push(
                tobj_view(TurtleObj::Triangle(tri)),
            ));
            assert(fan[j - 1] == (TOV::Tri {
                a: poly2[0],
                b: poly2[j as int],
                c: poly2[j as int + 1],
                tex: spec_leaf_texture(),
            }));
            assert(tobj_view(TurtleObj::Triangle(tri)) == fan[j - 1]);
            assert(prev.push(fan[j - 1]) =~= base + fan.take(j as int));
        }
        j = j + 1;
    }
    proof {
        let fan = fan_tris(poly2[0], poly2, 1, spec_leaf_texture());
        lemma_fan_tris_index(poly2[0], poly2, 1, spec_leaf_texture());
        assert(fan.take(j - 1) =~= fan);
    }
}

/// Interprets one symbol against the interpreter state.
#[verifier::rlimit(100)]
fn apply_symbol(
    c: char,
    angle: Fx,
    ka: Fx,
    current: &mut State,
    states: &mut Vec<State>,
    polygon_edges: &mut Vec<Vector>,
    res: &mut Vec<TurtleObj>,
    mn: &mut Vector,
    mx: &mut Vector,
)
    ensures
        pack_state(
            *final (current),
            final (states)@,
            final (polygon_edges)@,
            final (res)@,
            *final (mn),
            *final (mx),
        ) == turtle_step(
            pack_state(
                *old(current),
                old(states)@,
                old(polygon_edges)@,
                old(res)@,
                *old(mn),
                *old(mx),
            ),
            c,
            angle.val(),
            ka,
        ),
        emitted_wf(old(res)@) ==> emitted_wf(final (res)@),
{
    let ghost st0 = pack_state(*current, states@, polygon_edges@, res@, *mn, *mx);
    match c {
        'F' => {
            current.move_forward(Fx { raw: STEP });
            let rad3 = Vector { x: current.radius, y: current.radius, z: current.radius };
            let sphere = Sphere {
                p: current.position.to_point(),
                r: current.radius,
                texture: pen_texture(ka),
                id: String::new(),
            };
            res.push(TurtleObj::Sphere(sphere));
            *mn = mn.min_against(&current.position.sub(&rad3));
            *mx = mx.max_against(&current.position.add(&rad3));
            proof {
                let st1 = turtle_step(st0, c, angle.val(), ka);
                assert(res@.map_values(|o: TurtleObj| tobj_view(o)) =~= st1.objs);
            }
        },
        '+' => {
            current.rotate_up(angle);
        },
        '-' => {
            current.rotate_up(angle.neg());
        },
        '&' => {
            current.rotate_left(angle);
        },
        '^' => {
            current.rotate_left(angle.neg());
        },
        '/' => {
            current.rotate_head(angle);
        },
        '\\' => {
            current.rotate_head(angle.neg());
        },
        '|' => {
            current.rotate_up(Fx { raw: HALF_TURN });
        },
        'f' => {
            *mn = mn.min_against(&current.position);
            *mx = mx.max_against(&current.position);
            polygon_edges.push(current.position);
            current.move_forward(Fx { raw: STEP });
            proof {
                let st1 = turtle_step(st0, c, angle.val(), ka);
                assert(polygon_edges@.map_values(|x: Vector| x@) =~= st1.poly);
            }
        },
        '!' => {
            current.radius = current.radius.div(Fx { raw: RADIUS_SHRINK });
        },
        '{' => {
            *polygon_edges = Vec::new();
            proof {
                assert(polygon_edges@.map_values(|x: Vector| x@) =~= Seq::<V3>::empty());
            }
        },
        '}' => {
            close_polygon(current, polygon_edges, res);
        },
        '[' => {
            states.push(*current);
            proof {
                let st1 = turtle_step(st0, c, angle.val(), ka);
                assert(states@.map_values(|x: State| x@) =~= st1.stack);
            }
        },
        ']' => {
            match states.pop() {
                Option::Some(prev) => {
                    *current = prev;
                    proof {
                        let st1 = turtle_step(st0, c, angle.val(), ka);
                        assert(states@.map_values(|x: State| x@) =~= st1.stack);
                    }
                },
                Option::None => {
                    proof {
                        assert(states@.map_values(|x: State| x@).len() == 0);
                    }
                },
            }
        },
        _ => {
        },
    }
}

/// The generator as a scene object: the emitted shapes and their bounding
/// box.
pub struct Turtle {
    pub objects: Vec<TurtleObj>,
    pub texture: Texture,
    pub id: String,
    pub rect: RectangleInner,
}

impl Turtle {
    /// Interprets a symbol string: the emitted shapes and the two corners of
    /// the accumulated bounding box.
    pub fn generate(s: &String, angle: Fx, ka: Fx) -> (r: (Vec<TurtleObj>, Vector, Vector))
        ensures
            ({
                let st = turtle_run(s@, angle.val(), ka);
                &&& r.0@.map_values(|o: TurtleObj| tobj_view(o)) == st.objs
                &&& r.1@ == st.min
                &&& r.2@ == st.max
            }),
            emitted_wf(r.0@),
    {
        let mut res: Vec<TurtleObj> = Vec::new();
        let mut states: Vec<State> = Vec::new();
        let mut polygon_edges: Vec<Vector> = Vec::new();
        let mut current = State {
            position: Vector::zero(),
            head: Vector { x: Fx { raw: SCALE }, y: Fx { raw: 0 }, z: Fx { raw: 0 } },
            up: Vector { x: Fx { raw: 0 }, y: Fx { raw: SCALE }, z: Fx { raw: 0 } },
            left: Vector { x: Fx { raw: 0 }, y: Fx { raw: 0 }, z: Fx { raw: SCALE } },
            radius: Fx { raw: PEN_RADIUS },
        };
        let mut mn = Vector::zero();
        let mut mx = Vector::zero();
        proof {
            assert(res@.map_values(|o: TurtleObj| tobj_view(o)) =~= Seq::<TOV>::empty());
            assert(states@.map_values(|x: State| x@) =~= Seq::<SV>::empty());
            assert(polygon_edges@.map_values(|x: Vector| x@) =~= Seq::<V3>::empty());
            assert(s@.take(0) =~= Seq::<char>::empty());
        }
        let n = s.as_str().unicode_len();
        let mut i: usize = 0;
        while i < n
            invariant
                i <= n,
                n == s@.len(),
                pack_state(current, states@, polygon_edges@, res@, mn, mx) == turtle_run(
                    s@.take(i as int),
                    angle.val(),
                    ka,
                ),
                emitted_wf(res@),
            decreases n - i,
        {
            let c = s.as_str().get_char(i);
            proof {
                assert(s@.take(i as int + 1).drop_last() =~= s@.take(i as int));
                assert(s@.take(i as int + 1).last() == s@[i as int]);
            }
            apply_symbol(
                c,
                angle,
                ka,
                &mut current,
                &mut states,
                &mut polygon_edges,
                &mut res,
                &mut mn,
                &mut mx,
            );
            i = i + 1;
        }
        proof {
            assert(s@.take(n as int) =~= s@);
            let st = turtle_run(s@, angle.val(), ka);
            assert(res@.map_values(|o: TurtleObj| tobj_view(o)) == st.objs);
        }
        (res, mn, mx)
    }

    /// Builds the generator from a grammar: the grammar's expansion is
    /// interpreted with its turn angle, and the ambient coefficient of the
    /// given texture is handed to the pen.
    pub fn new(g: &Grammar, texture: Texture, id: String) -> (r: Turtle)
        ensures
            ({
                let expanded = expand_n(rules_view(g.rules@), g.start@, g.steps as nat);
                let st = turtle_run(expanded, g.angle.val(), texture.ka);
                &&& r.objects@.map_values(|o: TurtleObj| tobj_view(o)) == st.objs
                &&& r.rect.p_min@ == st.min
                &&& r.rect.p_max@ == st.max
                &&& r.rect.center@ == rect_center(st.min, st.max)
                &&& r.rect.size@ == rect_size(st.min, st.max)
                &&& r.texture == texture
            }),
            emitted_wf(r.objects@),
    {
        let s = g.expand();
        let zero = Point { x: Fx { raw: 0 }, y: Fx { raw: 0 }, z: Fx { raw: 0 } };
        let ka = texture.coefficients(&zero).2;
        let (objects, mn, mx) = Turtle::generate(&s, g.angle, ka);
        Turtle { objects, texture, id, rect: RectangleInner::new(mn.to_point(), mx.to_point()) }
    }
}

/// Left-to-right scan of the emitted shapes from index `i` on, carrying the
/// best candidate seen so far as `(index, points, squared distance)`; a
/// shape displaces the candidate only when strictly nearer.
pub open spec fn turtle_scan(
    objs: Seq<TurtleObj>,
    p: V3,
    v: V3,
    i: int,
    best: Option<(int, Seq<V3>, int)>,
) -> Option<(int, Seq<V3>, int)>
    decreases objs.len() - i,
{
    if i < 0 || i >= objs.len() {
        best
    } else {
        let hits = objs[i].spec_points(p, v);
        let nb = if hits.len() == 0 {
            best
        } else {
            let w = v3_sub(hits[0], p);
            let dist = v3_dot(w, w);
            match best {
                Option::None => Option::Some((i, hits, dist)),
                Option::Some((bi, bp, bd)) => if dist < bd {
                    Option::Some((i, hits, dist))
                } else {
                    best
                },
            }
        };
        turtle_scan(objs, p, v, i + 1, nb)
    }
}

impl Intersect for Turtle {
    /// Nothing when the bounding box is missed; otherwise the points of the
    /// emitted shape whose first point lies nearest to the ray origin.
    open spec fn spec_points(&self, p: V3, v: V3) -> Seq<V3> {
        if self.rect.spec_points(p, v).len() == 0 {
            Seq::empty()
        } else {
            match turtle_scan(self.objects@, p, v, 0, Option::None) {
                Option::None => Seq::empty(),
                Option::Some((bi, bp, bd)) => bp,
            }
        }
    }

    open spec fn spec_path(&self, p: V3, v: V3) -> Seq<usize> {
        if self.rect.spec_points(p, v).len() == 0 {
            Seq::empty()
        } else {
            match turtle_scan(self.objects@, p, v, 0, Option::None) {
                Option::None => Seq::empty(),
                Option::Some((bi, bp, bd)) => seq![bi as usize],
            }
        }
    }

    fn intersect_points(&self, p: Point, v: Vector) -> (r: (Vec<Point>, Hit)) {
        let hit_own = self.rect.is_intersect(p, v);
        if !hit_own {
            let empty: Vec<Point> = Vec::new();
            proof {
                assert(empty@.map_values(|q: Point| q@) =~= Seq::<V3>::empty());
            }
            return (empty, Hit::none());
        }
        let ghost objs = self.objects@;
        let ghost mut acc: Option<(int, Seq<V3>, int)> = Option::None;
        let mut found = false;
        let mut best_idx: usize = 0;
        let mut best_dist = Fx { raw: 0 };
        let mut best_points: Vec<Point> = Vec::new();
        let mut i: usize = 0;
        while i < self.objects.len()
            invariant
                objs == self.objects@,
                i <= objs.len(),
                turtle_scan(objs, p@, v@, 0, Option::None) == turtle_scan(
                    objs,
                    p@,
                    v@,
                    i as int,
                    acc,
                ),
                found == (acc is Some),
                acc matches Option::Some((bi, bp, bd)) ==> {
                    &&& 0 <= bi < objs.len()
                    &&& bi == best_idx as int
                    &&& bp == best_points@.map_values(|q: Point| q@)
                    &&& bd == best_dist.val()
                    &&& bp.len() > 0
                },
            decreases objs.len() - i,
        {
            let ghost acc0 = acc;
            let (hits, _child) = self.objects[i].intersect_points(p, v);
            if hits.len() > 0 {
                let w = hits[0].sub_v(&p);
                let dist = w.dot(&w);
                if !found || dist.raw < best_dist.raw {
                    found = true;
                    best_idx = i;
                    best_dist = dist;
                    best_points = hits;
                    proof {
                        acc = Option::Some(
                            (i as int, best_points@.map_values(|q: Point| q@), dist.val()),
                        );
                    }
                }
            }
            proof {
                assert(turtle_scan(objs, p@, v@, i as int, acc0) == turtle_scan(
                    objs,
                    p@,
                    v@,
                    i + 1,
                    acc,
                ));
            }
            i = i + 1;
        }
        if !found {
            let empty: Vec<Point> = Vec::new();
            proof {
                assert(empty@.map_values(|q: Point| q@) =~= Seq::<V3>::empty());
            }
            return (empty, Hit::none());
        }
        let path: Vec<usize> = vec![best_idx];
        (best_points, Hit { path })
    }

    fn is_intersect(&self, p: Point, v: Vector) -> (r: bool) {
        let (points, _hit) = self.intersect_points(p, v);
        points.len() > 0
    }
}

impl Normal for Turtle {
    /// Delegated to the shape the hit descriptor names; the zero vector for
    /// an empty or dangling descriptor.
    open spec fn spec_normal(&self, q: V3, path: Seq<usize>) -> V3 {
        if path.len() == 0 || path[0] >= self.objects@.len() {
            v3_zero()
        } else {
            self.objects@[path[0] as int].spec_normal(q, path.skip(1))
        }
    }

    fn normal(&self, q: Point, hit: &Hit) -> (r: Vector) {
        if hit.path.len() == 0 || hit.path[0] >= self.objects.len() {
            Vector::zero()
        } else {
            let idx = hit.path[0];
            let rest = Hit::none();
            let r = self.objects[idx].normal(q, &rest);
            proof {
                lemma_tobj_normal_ignores_path(
                    self.objects@[idx as int],
                    q@,
                    rest@,
                    hit.path@.skip(1),
                );
            }
            r
        }
    }
}

impl GetTexture for Turtle {
    /// Forwarded to the shape the hit descriptor names; the generator's own
    /// texture for an empty or dangling descriptor.
    open spec fn spec_texture(&self, path: Seq<usize>) -> Texture {
        if path.len() == 0 || path[0] >= self.objects@.len() {
            self.texture
        } else {
            self.objects@[path[0] as int].spec_texture(path.skip(1))
        }
    }

    fn texture(&self, hit: &Hit) -> (r: Texture) {
        if hit.path.len() == 0 || hit.path[0] >= self.objects.len() {
            self.texture
        } else {
            let idx = hit.path[0];
            let rest = Hit::none();
            let r = self.objects[idx].texture(&rest);
            proof {
                lemma_tobj_texture_ignores_path(
                    self.objects@[idx as int],
                    rest@,
                    hit.path@.skip(1),
                );
            }
            r
        }
    }
}

impl ObjectTrait for Turtle {

}

} // verus!
