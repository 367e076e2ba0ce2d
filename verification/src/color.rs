//! RGB colors backed by a fixed-point vector.
//!
//! Shading math may push components outside `[0, 255]`; they are clamped
//! once, when a color is converted to bytes.

use vstd::prelude::*;

use crate::fx::{divt, Fx, SCALE};
use crate::vector::{fx_clamp, v3_clamp, Vector, V3};

verus! {

/// Largest byte value at the fixed-point scale: `255.0`.
pub const CHANNEL_MAX: i64 = 255_000_000_000;

/// A color: an RGB triple whose channels live in the `x`, `y`, `z`
/// components of a vector.
#[derive(Clone, Copy, PartialEq, Eq, Structural, Debug)]
pub struct Color {
    pub v: Vector,
}

impl View for Color {
    type V = V3;

    open spec fn view(&self) -> V3 {
        self.v@
    }
}

/// A channel clamped to `[0, 255]` and truncated to a whole byte value.
pub open spec fn byte_of(c: int) -> int {
    divt(fx_clamp(c, 0, CHANNEL_MAX as int), SCALE as int)
}

impl Color {
    /// The color with the given byte channels.
    pub fn new(r: u8, g: u8, b: u8) -> (c: Color)
        ensures
            c@ == (V3 {
                x: r as int * SCALE as int,
                y: g as int * SCALE as int,
                z: b as int * SCALE as int,
            }),
    {
        Color {
            v: Vector {
                x: Fx { raw: (r as i64) * SCALE },
                y: Fx { raw: (g as i64) * SCALE },
                z: Fx { raw: (b as i64) * SCALE },
            },
        }
    }

    pub fn black() -> (c: Color)
        ensures
            c@ == (V3 { x: 0, y: 0, z: 0 }),
    {
        Color::new(0, 0, 0)
    }

    pub fn white() -> (c: Color)
        ensures
            c@ == (V3 {
                x: 255 * SCALE as int,
                y: 255 * SCALE as int,
                z: 255 * SCALE as int,
            }),
    {
        Color::new(255, 255, 255)
    }

    /// The backing vector, unclamped.
    pub fn to_vec(&self) -> (r: Vector)
        ensures
            r@ == self@,
    {
        self.v
    }

    /// A vector clamped into the channel range, taken as a color.
    pub fn from_vec(v: Vector) -> (c: Color)
        ensures
            c@ == v3_clamp(v@, 0, CHANNEL_MAX as int),
    {
        Color { v: v.clamp(Fx { raw: 0 }, Fx { raw: CHANNEL_MAX }) }
    }

    pub fn r(&self) -> (r: u8)
        ensures
            r as int == byte_of(self@.x),
    {
        channel_byte(self.v.x)
    }

    pub fn g(&self) -> (r: u8)
        ensures
            r as int == byte_of(self@.y),
    {
        channel_byte(self.v.y)
    }

    pub fn b(&self) -> (r: u8)
        ensures
            r as int == byte_of(self@.z),
    {
        channel_byte(self.v.z)
    }

    /// The three byte channels.
    pub fn values(&self) -> (r: (u8, u8, u8))
        ensures
            r.0 as int == byte_of(self@.x),
            r.1 as int == byte_of(self@.y),
            r.2 as int == byte_of(self@.z),
    {
        (self.r(), self.g(), self.b())
    }

    /// The channels packed into the upper three bytes of a word:
    /// `r * 2^24 + g * 2^16 + b * 2^8`.
    pub fn value(&self) -> (r: u32)
        ensures
            r as int == byte_of(self@.x) * 0x100_0000 + byte_of(self@.y) * 0x1_0000 + byte_of(
                self@.z,
            ) * 0x100,
    {
        let (r, g, b) = self.values();
        (r as u32) * 0x100_0000 + (g as u32) * 0x1_0000 + (b as u32) * 0x100
    }
}

/// Clamp one channel to `[0, 255]` and truncate it to a byte.
fn channel_byte(c: Fx) -> (r: u8)
    ensures
        r as int == byte_of(c.val()),
{
    let clamped: i64 = if c.raw < 0 {
        0
    } else if c.raw > CHANNEL_MAX {
        CHANNEL_MAX
    } else {
        c.raw
    };
    let q: u64 = (clamped as u64) / (SCALE as u64);
    proof {
        vstd::arithmetic::div_mod::lemma_fundamental_div_mod(clamped as int, SCALE as int);
        assert(q as int <= 255) by (nonlinear_arith)
            requires
                0 <= clamped as int <= 255 * (SCALE as int),
                SCALE as int == 1_000_000_000,
                clamped as int == (SCALE as int) * (q as int) + (clamped as int) % (SCALE as int),
                0 <= (clamped as int) % (SCALE as int),
        ;
    }
    q as u8
}

} // verus!
