//! Colours as whole numbers.

use vstd::prelude::*;

verus! {

/// A colour given by hue, saturation, lightness and opacity.
///
/// The hue is an angle on the colour wheel in degrees; the other three
/// components are percentages.
#[derive(Clone, Copy, Debug, PartialEq, Eq)]
pub struct Hsla {
    pub h: u16,
    pub s: u8,
    pub l: u8,
    pub a: u8,
}

impl Hsla {
    /// Every component lies within its scale: the hue within one turn of the
    /// wheel, the percentages within a hundred.
    pub open spec fn in_range(self) -> bool {
        &&& self.h <= 360
        &&& self.s <= 100
        &&& self.l <= 100
        &&& self.a <= 100
    }
}

/// A colour given as red, green and blue in the low three bytes of a number,
/// red highest: `0xRRGGBB`.
#[derive(Clone, Copy, Debug, PartialEq, Eq)]
pub struct Rgb(pub u32);

} // verus!
