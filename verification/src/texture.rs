//! Surface textures: lighting coefficients and a base color per point.

use vstd::prelude::*;

use crate::color::Color;
use crate::fx::Fx;
use crate::point::Point;
use crate::vector::V3;

verus! {

/// Capability contract of a texture: lighting coefficients (diffuse,
/// specular, ambient) and a base color, both as functions of a surface
/// point.
pub trait TextureTrait: Sized {
    /// Model of `coefficients`.
    spec fn spec_coefficients(self, p: V3) -> (int, int, int);

    /// Model of `color`.
    spec fn spec_color(self, p: V3) -> V3;

    /// The lighting coefficients `(kd, ks, ka)` at `point`.
    fn coefficients(&self, point: &Point) -> (r: (Fx, Fx, Fx))
        ensures
            (r.0.val(), r.1.val(), r.2.val()) == self.spec_coefficients(point@),
    ;

    /// The base color at `point`.
    fn color(&self, point: &Point) -> (r: Color)
        ensures
            r@ == self.spec_color(point@),
    ;
}

/// The one concrete texture: coefficients and color do not vary with the
/// surface point.
#[derive(Clone, Copy, PartialEq, Eq, Structural, Debug)]
pub struct Texture {
    /// Diffuse coefficient.
    pub kd: Fx,
    /// Specular coefficient.
    pub ks: Fx,
    /// Ambient coefficient.
    pub ka: Fx,
    pub color: Color,
}

/// Every texture of this renderer is uniform, so the explicit name is an
/// alias.
pub type UniformTexture = Texture;

impl TextureTrait for Texture {
    open spec fn spec_coefficients(self, p: V3) -> (int, int, int) {
        (self.kd.val(), self.ks.val(), self.ka.val())
    }

    open spec fn spec_color(self, p: V3) -> V3 {
        self.color@
    }

    fn coefficients(&self, point: &Point) -> (r: (Fx, Fx, Fx)) {
        (self.kd, self.ks, self.ka)
    }

    fn color(&self, point: &Point) -> (r: Color) {
        self.color
    }
}

} // verus!
