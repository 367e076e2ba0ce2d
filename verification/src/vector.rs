//! Three-component vectors over the fixed-point scalar.
//!
//! The mathematical model of a vector is the triple [`V3`] of its raw
//! fixed-point values; every executable operation returns exactly the value
//! of its specification-level counterpart (`v3_add`, `v3_dot`, ...).

use vstd::prelude::*;

use crate::fx::{fx_add, fx_div, fx_mul, fx_neg, fx_sqrt, fx_sub, iabs, sat64, Fx, SCALE};
use crate::point::Point;
use crate::trig::{cos_rad, fx_cos, fx_sin, sin_rad};

verus! {

/// Specification-level vector: three unbounded integers in raw fixed-point
/// units.
pub struct V3 {
    pub x: int,
    pub y: int,
    pub z: int,
}

pub open spec fn v3_add(a: V3, b: V3) -> V3 {
    V3 { x: fx_add(a.x, b.x), y: fx_add(a.y, b.y), z: fx_add(a.z, b.z) }
}

pub open spec fn v3_sub(a: V3, b: V3) -> V3 {
    V3 { x: fx_sub(a.x, b.x), y: fx_sub(a.y, b.y), z: fx_sub(a.z, b.z) }
}

pub open spec fn v3_neg(a: V3) -> V3 {
    V3 { x: fx_neg(a.x), y: fx_neg(a.y), z: fx_neg(a.z) }
}

/// Componentwise product (Hadamard product).
pub open spec fn v3_mul(a: V3, b: V3) -> V3 {
    V3 { x: fx_mul(a.x, b.x), y: fx_mul(a.y, b.y), z: fx_mul(a.z, b.z) }
}

/// Componentwise quotient.
pub open spec fn v3_div(a: V3, b: V3) -> V3 {
    V3 { x: fx_div(a.x, b.x), y: fx_div(a.y, b.y), z: fx_div(a.z, b.z) }
}

/// Product with a scalar.
pub open spec fn v3_scale(a: V3, k: int) -> V3 {
    V3 { x: fx_mul(a.x, k), y: fx_mul(a.y, k), z: fx_mul(a.z, k) }
}

/// Quotient by a scalar.
pub open spec fn v3_div_s(a: V3, k: int) -> V3 {
    V3 { x: fx_div(a.x, k), y: fx_div(a.y, k), z: fx_div(a.z, k) }
}

/// Scalar (dot) product, accumulated left to right.
pub open spec fn v3_dot(a: V3, b: V3) -> int {
    fx_add(fx_add(fx_mul(a.x, b.x), fx_mul(a.y, b.y)), fx_mul(a.z, b.z))
}

/// Cross product.
pub open spec fn v3_cross(a: V3, b: V3) -> V3 {
    V3 {
        x: fx_sub(fx_mul(a.y, b.z), fx_mul(a.z, b.y)),
        y: fx_sub(fx_mul(a.z, b.x), fx_mul(a.x, b.z)),
        z: fx_sub(fx_mul(a.x, b.y), fx_mul(a.y, b.x)),
    }
}

/// Sum of the components, accumulated left to right.
pub open spec fn v3_sum(a: V3) -> int {
    fx_add(fx_add(a.x, a.y), a.z)
}

/// Magnitude: the fixed-point square root of the dot square.
pub open spec fn v3_mag(a: V3) -> int {
    fx_sqrt(v3_dot(a, a))
}

/// Normalization: quotient by the magnitude. A vector whose computed
/// magnitude is zero maps to the zero vector.
pub open spec fn v3_normalize(a: V3) -> V3 {
    v3_div_s(a, v3_mag(a))
}

/// Componentwise integer power at the fixed-point scale; exponent zero gives
/// the all-ones vector.
pub open spec fn fx_pow(a: int, e: nat) -> int
    decreases e,
{
    if e == 0 {
        SCALE as int
    } else {
        fx_mul(fx_pow(a, (e - 1) as nat), a)
    }
}

pub open spec fn v3_pow(a: V3, e: nat) -> V3 {
    V3 { x: fx_pow(a.x, e), y: fx_pow(a.y, e), z: fx_pow(a.z, e) }
}

pub open spec fn fx_clamp(v: int, lo: int, hi: int) -> int {
    if v < lo {
        lo
    } else if v > hi {
        hi
    } else {
        v
    }
}

pub open spec fn v3_clamp(a: V3, lo: int, hi: int) -> V3 {
    V3 { x: fx_clamp(a.x, lo, hi), y: fx_clamp(a.y, lo, hi), z: fx_clamp(a.z, lo, hi) }
}

pub open spec fn max2(a: int, b: int) -> int {
    if a >= b {
        a
    } else {
        b
    }
}

pub open spec fn min2(a: int, b: int) -> int {
    if a <= b {
        a
    } else {
        b
    }
}

/// Largest component.
pub open spec fn v3_max(a: V3) -> int {
    max2(max2(a.x, a.y), a.z)
}

/// Smallest component.
pub open spec fn v3_min(a: V3) -> int {
    min2(min2(a.x, a.y), a.z)
}

/// Componentwise minimum of two vectors.
pub open spec fn v3_min_against(a: V3, b: V3) -> V3 {
    V3 { x: min2(a.x, b.x), y: min2(a.y, b.y), z: min2(a.z, b.z) }
}

/// Componentwise maximum of two vectors.
pub open spec fn v3_max_against(a: V3, b: V3) -> V3 {
    V3 { x: max2(a.x, b.x), y: max2(a.y, b.y), z: max2(a.z, b.z) }
}

/// The zero vector.
pub open spec fn v3_zero() -> V3 {
    V3 { x: 0, y: 0, z: 0 }
}

/// Componentwise absolute value.
pub open spec fn v3_abs(a: V3) -> V3 {
    V3 { x: sat64(iabs(a.x)), y: sat64(iabs(a.y)), z: sat64(iabs(a.z)) }
}

/// Rotation of `v` about the axis `k` by the angle `a` (radians), by the
/// Rodrigues formula: `v cos a + (k^ x v) sin a + k^ (k^ . v)(1 - cos a)`,
/// with `k^` the normalized axis.
pub open spec fn v3_rotate(v: V3, k: V3, a: int) -> V3 {
    let c = fx_cos(a);
    let s = fx_sin(a);
    let kn = v3_normalize(k);
    let p1 = v3_scale(v, c);
    let p2 = v3_scale(v3_cross(kn, v), s);
    let p3 = v3_scale(v3_scale(kn, v3_dot(kn, v)), fx_sub(SCALE as int, c));
    v3_add(v3_add(p1, p2), p3)
}

/// A direction or displacement in space.
#[derive(Clone, Copy, PartialEq, Eq, Structural, Debug)]
pub struct Vector {
    pub x: Fx,
    pub y: Fx,
    pub z: Fx,
}

impl View for Vector {
    type V = V3;

    open spec fn view(&self) -> V3 {
        V3 { x: self.x.raw as int, y: self.y.raw as int, z: self.z.raw as int }
    }
}

impl Vector {
    pub fn new(x: Fx, y: Fx, z: Fx) -> (r: Vector)
        ensures
            r@ == (V3 { x: x.val(), y: y.val(), z: z.val() }),
    {
        Vector { x, y, z }
    }

    pub fn zero() -> (r: Vector)
        ensures
            r@ == (V3 { x: 0, y: 0, z: 0 }),
    {
        Vector { x: Fx { raw: 0 }, y: Fx { raw: 0 }, z: Fx { raw: 0 } }
    }

    pub fn to_point(&self) -> (r: Point)
        ensures
            r@ == self@,
    {
        Point { x: self.x, y: self.y, z: self.z }
    }

    pub fn add(&self, o: &Vector) -> (r: Vector)
        ensures
            r@ == v3_add(self@, o@),
    {
        Vector { x: self.x.add(o.x), y: self.y.add(o.y), z: self.z.add(o.z) }
    }

    pub fn sub(&self, o: &Vector) -> (r: Vector)
        ensures
            r@ == v3_sub(self@, o@),
    {
        Vector { x: self.x.sub(o.x), y: self.y.sub(o.y), z: self.z.sub(o.z) }
    }

    pub fn neg(&self) -> (r: Vector)
        ensures
            r@ == v3_neg(self@),
    {
        Vector { x: self.x.neg(), y: self.y.neg(), z: self.z.neg() }
    }

    /// Componentwise product.
    pub fn mul(&self, o: &Vector) -> (r: Vector)
        ensures
            r@ == v3_mul(self@, o@),
    {
        Vector { x: self.x.mul(o.x), y: self.y.mul(o.y), z: self.z.mul(o.z) }
    }

    /// Componentwise quotient (componentwise zero divisors yield zero).
    pub fn div(&self, o: &Vector) -> (r: Vector)
        ensures
            r@ == v3_div(self@, o@),
    {
        Vector { x: self.x.div(o.x), y: self.y.div(o.y), z: self.z.div(o.z) }
    }

    pub fn scale(&self, k: Fx) -> (r: Vector)
        ensures
            r@ == v3_scale(self@, k.val()),
    {
        Vector { x: self.x.mul(k), y: self.y.mul(k), z: self.z.mul(k) }
    }

    pub fn div_s(&self, k: Fx) -> (r: Vector)
        ensures
            r@ == v3_div_s(self@, k.val()),
    {
        Vector { x: self.x.div(k), y: self.y.div(k), z: self.z.div(k) }
    }

    /// Scalar (dot) product.
    pub fn dot(&self, o: &Vector) -> (r: Fx)
        ensures
            r.val() == v3_dot(self@, o@),
    {
        self.x.mul(o.x).add(self.y.mul(o.y)).add(self.z.mul(o.z))
    }

    pub fn cross_product(&self, o: &Vector) -> (r: Vector)
        ensures
            r@ == v3_cross(self@, o@),
    {
        Vector {
            x: self.y.mul(o.z).sub(self.z.mul(o.y)),
            y: self.z.mul(o.x).sub(self.x.mul(o.z)),
            z: self.x.mul(o.y).sub(self.y.mul(o.x)),
        }
    }

    /// The vector orthogonal to `v1` and `v2` (their cross product).
    pub fn normal_vec(v1: &Vector, v2: &Vector) -> (r: Vector)
        ensures
            r@ == v3_cross(v1@, v2@),
    {
        v1.cross_product(v2)
    }

    pub fn sum(&self) -> (r: Fx)
        ensures
            r.val() == v3_sum(self@),
    {
        self.x.add(self.y).add(self.z)
    }

    /// Magnitude: `sqrt(x^2 + y^2 + z^2)`.
    pub fn mag(&self) -> (r: Fx)
        ensures
            r.val() == v3_mag(self@),
    {
        self.dot(self).sqrt()
    }

    /// Quotient by the magnitude; the zero vector (and any vector shorter
    /// than the fixed-point resolution) maps to the zero vector.
    pub fn normalize(&self) -> (r: Vector)
        ensures
            r@ == v3_normalize(self@),
    {
        let m = self.mag();
        self.div_s(m)
    }

    /// Componentwise integer power at the fixed-point scale.
    pub fn powf(&self, e: u32) -> (r: Vector)
        ensures
            r@ == v3_pow(self@, e as nat),
    {
        let mut r = Vector { x: Fx { raw: SCALE }, y: Fx { raw: SCALE }, z: Fx { raw: SCALE } };
        let mut i: u32 = 0;
        while i < e
            invariant
                i <= e,
                r@ == v3_pow(self@, i as nat),
            decreases e - i,
        {
            r = Vector { x: r.x.mul(self.x), y: r.y.mul(self.y), z: r.z.mul(self.z) };
            i = i + 1;
        }
        r
    }

    pub fn clamp(&self, lo: Fx, hi: Fx) -> (r: Vector)
        ensures
            r@ == v3_clamp(self@, lo.val(), hi.val()),
    {
        Vector {
            x: clamp_fx(self.x, lo, hi),
            y: clamp_fx(self.y, lo, hi),
            z: clamp_fx(self.z, lo, hi),
        }
    }

    /// The function applied to every component.
    pub fn map<F: Fn(Fx) -> Fx>(&self, f: F) -> (r: Vector)
        requires
            forall|a: Fx| #[trigger] f.requires((a,)),
        ensures
            f.ensures((self.x,), r.x),
            f.ensures((self.y,), r.y),
            f.ensures((self.z,), r.z),
    {
        Vector { x: f(self.x), y: f(self.y), z: f(self.z) }
    }

    /// Largest component.
    pub fn max(&self) -> (r: Fx)
        ensures
            r.val() == v3_max(self@),
    {
        let mut m = self.x;
        if self.y.raw > m.raw {
            m = self.y;
        }
        if self.z.raw > m.raw {
            m = self.z;
        }
        m
    }

    /// Smallest component.
    pub fn min(&self) -> (r: Fx)
        ensures
            r.val() == v3_min(self@),
    {
        let mut m = self.x;
        if self.y.raw < m.raw {
            m = self.y;
        }
        if self.z.raw < m.raw {
            m = self.z;
        }
        m
    }

    /// Componentwise minimum.
    pub fn min_against(&self, o: &Vector) -> (r: Vector)
        ensures
            r@ == v3_min_against(self@, o@),
    {
        Vector {
            x: if self.x.raw <= o.x.raw {
                self.x
            } else {
                o.x
            },
            y: if self.y.raw <= o.y.raw {
                self.y
            } else {
                o.y
            },
            z: if self.z.raw <= o.z.raw {
                self.z
            } else {
                o.z
            },
        }
    }

    /// Componentwise maximum.
    pub fn max_against(&self, o: &Vector) -> (r: Vector)
        ensures
            r@ == v3_max_against(self@, o@),
    {
        Vector {
            x: if self.x.raw >= o.x.raw {
                self.x
            } else {
                o.x
            },
            y: if self.y.raw >= o.y.raw {
                self.y
            } else {
                o.y
            },
            z: if self.z.raw >= o.z.raw {
                self.z
            } else {
                o.z
            },
        }
    }

    /// True exactly when every component is zero.
    pub fn is_zero(&self) -> (r: bool)
        ensures
            r == (self@ == v3_zero()),
    {
        self.x.raw == 0 && self.y.raw == 0 && self.z.raw == 0
    }

    /// Rotation about the axis `k` by `angle` radians (Rodrigues formula).
    pub fn rotate_around(&self, k: &Vector, angle: Fx) -> (r: Vector)
        ensures
            r@ == v3_rotate(self@, k@, angle.val()),
    {
        let c = cos_rad(angle);
        let s = sin_rad(angle);
        let kn = k.normalize();
        let p1 = self.scale(c);
        let p2 = kn.cross_product(self).scale(s);
        let p3 = kn.scale(kn.dot(self)).scale(Fx { raw: SCALE }.sub(c));
        p1.add(&p2).add(&p3)
    }

    /// Componentwise absolute value.
    pub fn abs(&self) -> (r: Vector)
        ensures
            r@ == v3_abs(self@),
    {
        Vector { x: self.x.abs(), y: self.y.abs(), z: self.z.abs() }
    }
}

/// Dividing an in-range raw value by exactly one (the raw value `SCALE`)
/// returns it unchanged.
pub proof fn lemma_fx_div_by_one(c: int)
    requires
        i64::MIN <= c <= i64::MAX,
    ensures
        fx_div(c, SCALE as int) == c,
{
    let s = SCALE as int;
    if c >= 0 {
        vstd::arithmetic::div_mod::lemma_fundamental_div_mod_converse(c * s, s, c, 0);
    } else {
        assert(iabs(c * s) == (-c) * s);
        vstd::arithmetic::div_mod::lemma_fundamental_div_mod_converse((-c) * s, s, -c, 0);
    }
}

/// Normalization is idempotent on any vector whose computed magnitude is
/// exactly one: re-normalizing divides each component by exactly `1.0`,
/// which returns it unchanged. (A vector whose normalization does not come
/// out exactly unit — possible at the fixed-point resolution — may move
/// again under a second normalization.)
pub proof fn lemma_normalize_idempotent(v: V3)
    requires
        v3_mag(v3_normalize(v)) == SCALE as int,
    ensures
        v3_normalize(v3_normalize(v)) == v3_normalize(v),
{
    let w = v3_normalize(v);
    assert(i64::MIN <= w.x <= i64::MAX && i64::MIN <= w.y <= i64::MAX && i64::MIN <= w.z
        <= i64::MAX);
    lemma_fx_div_by_one(w.x);
    lemma_fx_div_by_one(w.y);
    lemma_fx_div_by_one(w.z);
}

/// Integer power of a scalar at the fixed-point scale; exponent zero gives
/// one.
pub fn scalar_pow(a: Fx, e: u32) -> (r: Fx)
    ensures
        r.val() == fx_pow(a.val(), e as nat),
{
    let mut r = Fx { raw: SCALE };
    let mut i: u32 = 0;
    while i < e
        invariant
            i <= e,
            r.val() == fx_pow(a.val(), i as nat),
        decreases e - i,
    {
        r = r.mul(a);
        i = i + 1;
    }
    r
}

fn clamp_fx(v: Fx, lo: Fx, hi: Fx) -> (r: Fx)
    ensures
        r.val() == fx_clamp(v.val(), lo.val(), hi.val()),
{
    if v.raw < lo.raw {
        lo
    } else if v.raw > hi.raw {
        hi
    } else {
        v
    }
}

} // verus!
