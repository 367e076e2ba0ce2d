//! Fixed-point trigonometry.
//!
//! Angles are radians carried by [`Fx`]. Cosine and sine reduce the angle
//! into `[0, 2*pi)`, fold it into the first quadrant by symmetry, and
//! evaluate a truncated Taylor series there. The executable functions return
//! exactly the values of the specification-level `fx_cos` / `fx_sin`.

use vstd::prelude::*;

use crate::fx::{fx_add, fx_div, fx_divi, fx_mul, fx_neg, fx_sub, Fx, SCALE};

verus! {

/// pi, in raw fixed-point units (rounded to the nearest unit).
pub const PI: i64 = 3_141_592_654;

/// 2*pi, in raw fixed-point units.
pub const TWO_PI: i64 = 6_283_185_307;

/// pi/2, in raw fixed-point units.
pub const HALF_PI: i64 = 1_570_796_327;

/// pi/180, in raw fixed-point units.
pub const RAD_PER_DEG: i64 = 17_453_293;

/// The angle folded into `[0, 2*pi)`.
pub open spec fn angle_mod(a: int) -> int {
    a % (TWO_PI as int)
}

/// Taylor cosine on the first quadrant (arguments near `[0, pi/2]`).
pub open spec fn cos_quarter(x: int) -> int {
    let x2 = fx_mul(x, x);
    let x4 = fx_mul(x2, x2);
    let x6 = fx_mul(x4, x2);
    let x8 = fx_mul(x6, x2);
    let x10 = fx_mul(x8, x2);
    let x12 = fx_mul(x10, x2);
    let s1 = fx_sub(SCALE as int, fx_divi(x2, 2));
    let s2 = fx_add(s1, fx_divi(x4, 24));
    let s3 = fx_sub(s2, fx_divi(x6, 720));
    let s4 = fx_add(s3, fx_divi(x8, 40_320));
    let s5 = fx_sub(s4, fx_divi(x10, 3_628_800));
    fx_add(s5, fx_divi(x12, 479_001_600))
}

/// Taylor sine on the first quadrant (arguments near `[0, pi/2]`).
pub open spec fn sin_quarter(x: int) -> int {
    let x2 = fx_mul(x, x);
    let x3 = fx_mul(x2, x);
    let x5 = fx_mul(x3, x2);
    let x7 = fx_mul(x5, x2);
    let x9 = fx_mul(x7, x2);
    let x11 = fx_mul(x9, x2);
    let x13 = fx_mul(x11, x2);
    let s1 = fx_sub(x, fx_divi(x3, 6));
    let s2 = fx_add(s1, fx_divi(x5, 120));
    let s3 = fx_sub(s2, fx_divi(x7, 5_040));
    let s4 = fx_add(s3, fx_divi(x9, 362_880));
    let s5 = fx_sub(s4, fx_divi(x11, 39_916_800));
    fx_add(s5, fx_divi(x13, 6_227_020_800))
}

/// Cosine of an angle in radians.
pub open spec fn fx_cos(a: int) -> int {
    let m = angle_mod(a);
    if m <= HALF_PI {
        cos_quarter(m)
    } else if m <= PI {
        fx_neg(cos_quarter(PI - m))
    } else if m <= PI + HALF_PI {
        fx_neg(cos_quarter(m - PI))
    } else {
        cos_quarter(TWO_PI - m)
    }
}

/// Sine of an angle in radians.
pub open spec fn fx_sin(a: int) -> int {
    let m = angle_mod(a);
    if m <= HALF_PI {
        sin_quarter(m)
    } else if m <= PI {
        sin_quarter(PI - m)
    } else if m <= PI + HALF_PI {
        fx_neg(sin_quarter(m - PI))
    } else {
        fx_neg(sin_quarter(TWO_PI - m))
    }
}

/// Degrees to radians.
pub open spec fn fx_to_radians(d: int) -> int {
    fx_mul(d, RAD_PER_DEG as int)
}

/// Tangent of an angle in radians (zero where the cosine rounds to zero).
pub open spec fn fx_tan(a: int) -> int {
    fx_div(fx_sin(a), fx_cos(a))
}

/// Fold a raw angle into `[0, 2*pi)` with a Euclidean remainder.
fn mod_two_pi(a: i64) -> (r: i64)
    ensures
        r as int == angle_mod(a as int),
        0 <= r < TWO_PI,
{
    let tp: u128 = TWO_PI as u128;
    if a >= 0 {
        let m: u128 = (a as u128) % tp;
        m as i64
    } else {
        let na: u128 = (-(a as i128)) as u128;
        let rr: u128 = na % tp;
        proof {
            let ai = a as int;
            let t = TWO_PI as int;
            vstd::arithmetic::div_mod::lemma_fundamental_div_mod(-ai, t);
            let q = (-ai) / t;
            if rr == 0 {
                vstd::arithmetic::div_mod::lemma_fundamental_div_mod_converse(ai, t, -q, 0);
            } else {
                vstd::arithmetic::div_mod::lemma_fundamental_div_mod_converse(
                    ai,
                    t,
                    -q - 1,
                    t - rr,
                );
            }
        }
        if rr == 0 {
            0
        } else {
            (tp - rr) as i64
        }
    }
}

/// Taylor cosine on the first quadrant.
fn cos_quarter_exec(x: Fx) -> (r: Fx)
    ensures
        r.val() == cos_quarter(x.val()),
{
    let x2 = x.mul(x);
    let x4 = x2.mul(x2);
    let x6 = x4.mul(x2);
    let x8 = x6.mul(x2);
    let x10 = x8.mul(x2);
    let x12 = x10.mul(x2);
    let mut acc: Fx = Fx { raw: SCALE }.sub(x2.div_int(2));
    acc = acc.add(x4.div_int(24));
    acc = acc.sub(x6.div_int(720));
    acc = acc.add(x8.div_int(40_320));
    acc = acc.sub(x10.div_int(3_628_800));
    acc = acc.add(x12.div_int(479_001_600));
    acc
}

/// Taylor sine on the first quadrant.
fn sin_quarter_exec(x: Fx) -> (r: Fx)
    ensures
        r.val() == sin_quarter(x.val()),
{
    let x2 = x.mul(x);
    let x3 = x2.mul(x);
    let x5 = x3.mul(x2);
    let x7 = x5.mul(x2);
    let x9 = x7.mul(x2);
    let x11 = x9.mul(x2);
    let x13 = x11.mul(x2);
    let mut acc: Fx = x.sub(x3.div_int(6));
    acc = acc.add(x5.div_int(120));
    acc = acc.sub(x7.div_int(5_040));
    acc = acc.add(x9.div_int(362_880));
    acc = acc.sub(x11.div_int(39_916_800));
    acc = acc.add(x13.div_int(6_227_020_800));
    acc
}

/// Cosine of an angle in radians.
pub fn cos_rad(a: Fx) -> (r: Fx)
    ensures
        r.val() == fx_cos(a.val()),
{
    let m: i64 = mod_two_pi(a.raw);
    if m <= HALF_PI {
        cos_quarter_exec(Fx { raw: m })
    } else if m <= PI {
        cos_quarter_exec(Fx { raw: PI - m }).neg()
    } else if m <= PI + HALF_PI {
        cos_quarter_exec(Fx { raw: m - PI }).neg()
    } else {
        cos_quarter_exec(Fx { raw: TWO_PI - m })
    }
}

/// Sine of an angle in radians.
pub fn sin_rad(a: Fx) -> (r: Fx)
    ensures
        r.val() == fx_sin(a.val()),
{
    let m: i64 = mod_two_pi(a.raw);
    if m <= HALF_PI {
        sin_quarter_exec(Fx { raw: m })
    } else if m <= PI {
        sin_quarter_exec(Fx { raw: PI - m })
    } else if m <= PI + HALF_PI {
        sin_quarter_exec(Fx { raw: m - PI }).neg()
    } else {
        sin_quarter_exec(Fx { raw: TWO_PI - m }).neg()
    }
}

/// Degrees to radians.
pub fn to_radians(d: Fx) -> (r: Fx)
    ensures
        r.val() == fx_to_radians(d.val()),
{
    d.mul(Fx { raw: RAD_PER_DEG })
}

/// Tangent of an angle in radians.
pub fn tan_rad(a: Fx) -> (r: Fx)
    ensures
        r.val() == fx_tan(a.val()),
{
    sin_rad(a).div(cos_rad(a))
}

} // verus!
