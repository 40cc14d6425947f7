//! A single LED pixel: three 8-bit colour channels plus an optional white
//! channel for RGBW hardware variants.

use vstd::prelude::*;

verus! {

/// One LED pixel. `w` is only driven on hardware with a dedicated white LED.
#[derive(Clone, Copy, PartialEq, Eq, Structural, Debug)]
pub struct LedPixel {
    pub r: u8,
    pub g: u8,
    pub b: u8,
    pub w: u8,
}

impl LedPixel {
    /// The all-off pixel.
    pub open spec fn spec_black() -> LedPixel {
        LedPixel { r: 0, g: 0, b: 0, w: 0 }
    }

    pub fn black() -> (p: LedPixel)
        ensures
            p == LedPixel::spec_black(),
    {
        LedPixel { r: 0, g: 0, b: 0, w: 0 }
    }

    pub open spec fn spec_rgb(r: u8, g: u8, b: u8) -> LedPixel {
        LedPixel { r, g, b, w: 0 }
    }

    /// Build a pixel from plain red/green/blue channels; the white channel
    /// starts at zero.
    pub fn rgb(r: u8, g: u8, b: u8) -> (p: LedPixel)
        ensures
            p == LedPixel::spec_rgb(r, g, b),
    {
        LedPixel { r, g, b, w: 0 }
    }

    /// The pixel after moving a uniform grey value onto the white channel:
    /// when all three colour channels agree they are folded into `w`,
    /// otherwise the pixel is left alone.
    pub open spec fn spec_with_white(self) -> LedPixel {
        if self.r == self.g && self.g == self.b {
            LedPixel { r: 0, g: 0, b: 0, w: self.r }
        } else {
            self
        }
    }

    /// On RGBW hardware a uniform grey is driven through the white LED
    /// instead of the three colour LEDs.
    pub fn set_white(&mut self)
        ensures
            *final(self) == old(self).spec_with_white(),
    {
        if self.r == self.g && self.g == self.b {
            self.w = self.r;
            self.r = 0;
            self.g = 0;
            self.b = 0;
        }
    }
}

impl Default for LedPixel {
    /// The default pixel is all-off.
    fn default() -> (p: Self)
        ensures
            p == LedPixel::spec_black(),
    {
        LedPixel { r: 0, g: 0, b: 0, w: 0 }
    }
}

impl From<(u8, u8, u8)> for LedPixel {
    fn from(rgb: (u8, u8, u8)) -> (p: Self)
        ensures
            p == LedPixel::spec_rgb(rgb.0, rgb.1, rgb.2),
    {
        LedPixel { r: rgb.0, g: rgb.1, b: rgb.2, w: 0 }
    }
}

impl vstd::std_specs::convert::FromSpecImpl<(u8, u8, u8)> for LedPixel {
    open spec fn obeys_from_spec() -> bool {
        true
    }

    open spec fn from_spec(rgb: (u8, u8, u8)) -> LedPixel {
        LedPixel::spec_rgb(rgb.0, rgb.1, rgb.2)
    }
}

} // verus!
