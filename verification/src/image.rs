//! The raster a render pass fills: a row-major list of colors.

use vstd::prelude::*;

use crate::color::Color;

verus! {

/// A `height x width` raster, filled top to bottom, left to right.
pub struct Image {
    pub height: usize,
    pub width: usize,
    pub pixels: Vec<Color>,
}

impl Image {
    pub fn new(height: usize, width: usize) -> (r: Image)
        ensures
            r.height == height,
            r.width == width,
            r.pixels@.len() == 0,
    {
        let capacity = if height == 0 || width == 0 {
            0
        } else if height <= usize::MAX / width {
            proof {
                vstd::arithmetic::div_mod::lemma_fundamental_div_mod(
                    usize::MAX as int,
                    width as int,
                );
                assert(height * width <= usize::MAX) by (nonlinear_arith)
                    requires
                        width >= 1,
                        height <= usize::MAX as int / width as int,
                        usize::MAX as int == (width as int) * (usize::MAX as int / width as int) + (
                        usize::MAX as int) % (width as int),
                        (usize::MAX as int) % (width as int) >= 0,
                ;
            }
            height * width
        } else {
            usize::MAX
        };
        Image { height, width, pixels: Vec::with_capacity(capacity) }
    }

    pub fn height(&self) -> (r: usize)
        ensures
            r == self.height,
    {
        self.height
    }

    pub fn width(&self) -> (r: usize)
        ensures
            r == self.width,
    {
        self.width
    }

    pub fn pixels(&self) -> (r: &Vec<Color>)
        ensures
            r == &self.pixels,
    {
        &self.pixels
    }

    /// Appends the next pixel in row-major order.
    pub fn push(&mut self, c: Color)
        ensures
            final (self).pixels@ == old(self).pixels@.push(c),
            final (self).height == old(self).height,
            final (self).width == old(self).width,
    {
        self.pixels.push(c);
    }
}

} // verus!
