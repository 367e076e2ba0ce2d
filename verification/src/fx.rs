//! Saturating fixed-point scalars.
//!
//! An [`Fx`] stores a real number as a count of units of `1 / SCALE`.
//! Addition, subtraction, multiplication and division saturate at the `i64`
//! range instead of wrapping, so every operation is total; division by zero
//! is defined to yield zero, and the square root of a negative number is
//! defined to yield zero. Each executable operation returns exactly the
//! value of its specification-level counterpart (`fx_add`, `fx_mul`, ...).

use vstd::prelude::*;

verus! {

/// Number of raw units per 1.0: nine decimal digits after the point.
pub const SCALE: i64 = 1_000_000_000;

/// A real number in fixed point: `raw` counts units of `1 / SCALE`.
#[derive(Clone, Copy, PartialEq, Eq, Structural, Debug)]
pub struct Fx {
    pub raw: i64,
}

/// Absolute value of an unbounded integer.
pub open spec fn iabs(a: int) -> int {
    if a < 0 {
        -a
    } else {
        a
    }
}

/// Clamp an unbounded integer into the `i64` range.
pub open spec fn sat64(x: int) -> int {
    if x > i64::MAX as int {
        i64::MAX as int
    } else if x < i64::MIN as int {
        i64::MIN as int
    } else {
        x
    }
}

/// Division truncated toward zero; division by zero is defined as zero.
pub open spec fn divt(a: int, b: int) -> int {
    if b == 0 {
        0
    } else {
        let q = iabs(a) / iabs(b);
        if (a < 0) == (b < 0) {
            q
        } else {
            -q
        }
    }
}

pub open spec fn fx_add(a: int, b: int) -> int {
    sat64(a + b)
}

pub open spec fn fx_sub(a: int, b: int) -> int {
    sat64(a - b)
}

pub open spec fn fx_neg(a: int) -> int {
    sat64(-a)
}

pub open spec fn fx_mul(a: int, b: int) -> int {
    sat64(divt(a * b, SCALE as int))
}

pub open spec fn fx_div(a: int, b: int) -> int {
    if b == 0 {
        0
    } else {
        sat64(divt(a * (SCALE as int), b))
    }
}

/// `r` is the integer square root of `n`, rounded down.
pub open spec fn is_sqrt(r: int, n: int) -> bool {
    0 <= r && r * r <= n && n < (r + 1) * (r + 1)
}

/// The integer square root, rounded down (meaningful for `n >= 0`).
pub closed spec fn sqrt_floor(n: int) -> int {
    choose|r: int| is_sqrt(r, n)
}

/// Fixed-point square root: zero on non-positive inputs.
pub open spec fn fx_sqrt(a: int) -> int {
    if a <= 0 {
        0
    } else {
        sqrt_floor(a * (SCALE as int))
    }
}

/// Squares are monotone on non-negative integers, so `sqrt_floor` is the
/// unique witness of `is_sqrt`.
pub proof fn lemma_sqrt_floor(r: int, n: int)
    requires
        is_sqrt(r, n),
    ensures
        sqrt_floor(n) == r,
{
    let c = choose|x: int| is_sqrt(x, n);
    assert(is_sqrt(c, n));
    if c < r {
        assert((c + 1) * (c + 1) <= r * r) by (nonlinear_arith)
            requires
                0 <= c,
                c + 1 <= r,
        ;
    }
    if r < c {
        assert((r + 1) * (r + 1) <= c * c) by (nonlinear_arith)
            requires
                0 <= r,
                r + 1 <= c,
        ;
    }
}

/// The product of two `i64` values lies strictly inside the `i128` range.
pub proof fn lemma_i64_product_in_i128(a: int, b: int)
    requires
        i64::MIN <= a <= i64::MAX,
        i64::MIN <= b <= i64::MAX,
    ensures
        i128::MIN < a * b < i128::MAX,
{
    assert(i128::MIN < a * b < i128::MAX) by (nonlinear_arith)
        requires
            i64::MIN <= a <= i64::MAX,
            i64::MIN <= b <= i64::MAX,
    ;
}

/// Clamp an `i128` into the `i64` range.
fn sat_i128(x: i128) -> (r: i64)
    ensures
        r as int == sat64(x as int),
{
    if x > i64::MAX as i128 {
        i64::MAX
    } else if x < i64::MIN as i128 {
        i64::MIN
    } else {
        x as i64
    }
}

/// Quotient `n / d` truncated toward zero and clamped into the `i64` range.
fn sat_div_i128(n: i128, d: i128) -> (r: i64)
    requires
        d != 0,
        n > i128::MIN,
        d > i128::MIN,
    ensures
        r as int == sat64(divt(n as int, d as int)),
{
    let neg: bool = (n < 0) != (d < 0);
    let nm: u128 = if n < 0 {
        (-n) as u128
    } else {
        n as u128
    };
    let dm: u128 = if d < 0 {
        (-d) as u128
    } else {
        d as u128
    };
    let q: u128 = nm / dm;
    assert(nm as int == iabs(n as int));
    assert(dm as int == iabs(d as int));
    if neg {
        if q >= 9_223_372_036_854_775_808u128 {
            i64::MIN
        } else {
            -(q as i64)
        }
    } else {
        if q > i64::MAX as u128 {
            i64::MAX
        } else {
            q as i64
        }
    }
}

/// Upper bound accepted by `isqrt_u128`: 2^94.
pub const SQRT_ARG_MAX: u128 = 19_807_040_628_566_084_398_385_987_584;

/// 2^47, the square root of `SQRT_ARG_MAX`.
const SQRT_RES_MAX: u128 = 140_737_488_355_328;

/// Integer square root of `n`, rounded down, by bisection.
fn isqrt_u128(n: u128) -> (r: u64)
    requires
        n < SQRT_ARG_MAX,
    ensures
        is_sqrt(r as int, n as int),
{
    let mut lo: u128 = 0;
    let mut hi: u128 = SQRT_RES_MAX;
    assert(SQRT_RES_MAX as int * SQRT_RES_MAX as int == SQRT_ARG_MAX as int) by (nonlinear_arith);
    while lo + 1 < hi
        invariant
            lo < hi,
            hi <= SQRT_RES_MAX,
            lo * lo <= n,
            n < hi * hi,
        decreases hi - lo,
    {
        let mid: u128 = lo + (hi - lo) / 2;
        assert(lo < mid < hi);
        let q: u128 = n / mid;
        proof {
            vstd::arithmetic::div_mod::lemma_fundamental_div_mod(n as int, mid as int);
        }
        if mid <= q {
            assert(mid * mid <= n) by (nonlinear_arith)
                requires
                    mid > 0,
                    mid <= q,
                    n as int == (mid as int) * (q as int) + (n as int) % (mid as int),
                    0 <= (n as int) % (mid as int) < mid as int,
            ;
            lo = mid;
        } else {
            assert(n < mid * mid) by (nonlinear_arith)
                requires
                    mid > 0,
                    q < mid,
                    q == (n as int) / (mid as int),
                    n as int == (mid as int) * (q as int) + (n as int) % (mid as int),
                    0 <= (n as int) % (mid as int) < mid as int,
            ;
            hi = mid;
        }
    }
    assert(hi == lo + 1);
    assert(n < (lo + 1) * (lo + 1));
    assert(lo <= u64::MAX as u128);
    lo as u64
}

impl Fx {
    /// The represented value, in raw units.
    pub open spec fn val(self) -> int {
        self.raw as int
    }

    pub fn from_raw(raw: i64) -> (r: Fx)
        ensures
            r.val() == raw as int,
    {
        Fx { raw }
    }

    /// The integer `i`, clamped into the representable range.
    pub fn from_int(i: i64) -> (r: Fx)
        ensures
            r.val() == fx_mul_int(i as int),
    {
        proof {
            lemma_i64_product_in_i128(i as int, SCALE as int);
        }
        let p: i128 = (i as i128) * (SCALE as i128);
        Fx { raw: sat_i128(p) }
    }

    pub fn zero() -> (r: Fx)
        ensures
            r.val() == 0,
    {
        Fx { raw: 0 }
    }

    pub fn one() -> (r: Fx)
        ensures
            r.val() == SCALE as int,
    {
        Fx { raw: SCALE }
    }

    pub fn add(self, o: Fx) -> (r: Fx)
        ensures
            r.val() == fx_add(self.val(), o.val()),
    {
        let s: i128 = self.raw as i128 + o.raw as i128;
        Fx { raw: sat_i128(s) }
    }

    pub fn sub(self, o: Fx) -> (r: Fx)
        ensures
            r.val() == fx_sub(self.val(), o.val()),
    {
        let s: i128 = self.raw as i128 - o.raw as i128;
        Fx { raw: sat_i128(s) }
    }

    pub fn neg(self) -> (r: Fx)
        ensures
            r.val() == fx_neg(self.val()),
    {
        let s: i128 = -(self.raw as i128);
        Fx { raw: sat_i128(s) }
    }

    pub fn abs(self) -> (r: Fx)
        ensures
            r.val() == sat64(iabs(self.val())),
    {
        if self.raw < 0 {
            self.neg()
        } else {
            self
        }
    }

    pub fn mul(self, o: Fx) -> (r: Fx)
        ensures
            r.val() == fx_mul(self.val(), o.val()),
    {
        proof {
            lemma_i64_product_in_i128(self.raw as int, o.raw as int);
        }
        let p: i128 = (self.raw as i128) * (o.raw as i128);
        Fx { raw: sat_div_i128(p, SCALE as i128) }
    }

    pub fn div(self, o: Fx) -> (r: Fx)
        ensures
            r.val() == fx_div(self.val(), o.val()),
    {
        if o.raw == 0 {
            return Fx { raw: 0 };
        }
        proof {
            lemma_i64_product_in_i128(self.raw as int, SCALE as int);
        }
        let n: i128 = (self.raw as i128) * (SCALE as i128);
        Fx { raw: sat_div_i128(n, o.raw as i128) }
    }

    pub fn sqrt(self) -> (r: Fx)
        ensures
            r.val() == fx_sqrt(self.val()),
    {
        if self.raw <= 0 {
            return Fx { raw: 0 };
        }
        proof {
            assert(((self.raw as u128) as int) * ((SCALE as u128) as int) < SQRT_ARG_MAX)
                by (nonlinear_arith)
                requires
                    0 < (self.raw as u128) as int <= i64::MAX as int,
                    (SCALE as u128) as int == SCALE as int,
            ;
        }
        let n: u128 = (self.raw as u128) * (SCALE as u128);
        let s: u64 = isqrt_u128(n);
        proof {
            lemma_sqrt_floor(s as int, n as int);
            assert(s as int * s as int <= n as int);
            assert(s as int <= i64::MAX as int) by (nonlinear_arith)
                requires
                    0 <= s as int,
                    s as int * s as int <= n as int,
                    n < SQRT_ARG_MAX,
                    SQRT_ARG_MAX as int == 140_737_488_355_328 * 140_737_488_355_328,
            ;
        }
        Fx { raw: s as i64 }
    }
}

/// An integer seated at the fixed-point scale, clamped into range.
pub open spec fn fx_mul_int(i: int) -> int {
    sat64(i * (SCALE as int))
}

/// Quotient of a raw value by a plain integer, truncated toward zero.
pub open spec fn fx_divi(a: int, k: int) -> int {
    sat64(divt(a, k))
}

impl Fx {
    /// Divide the raw value by a plain non-zero integer.
    pub fn div_int(self, k: i64) -> (r: Fx)
        requires
            k != 0,
        ensures
            r.val() == fx_divi(self.val(), k as int),
    {
        Fx { raw: sat_div_i128(self.raw as i128, k as i128) }
    }
}

} // verus!
