//! Deals with colors; the conversions into and out of the HSV color space
//! live with the floating-point code, outside this crate's verified core.

use vstd::prelude::*;

verus! {

/// Represents an RGB color.
#[derive(Debug, PartialEq, Eq, Structural, Copy, Clone)]
pub struct Rgb {
    /// The red component of the color in the range 0-255
    pub red: u8,
    /// The green component of the color in the range 0-255
    pub green: u8,
    /// The blue component of the color in the range 0-255
    pub blue: u8,
}

impl Rgb {
    /// Creates a new `Rgb` with the given color values.
    pub fn new(red: u8, green: u8, blue: u8) -> (color: Self)
        ensures
            (color == Rgb { red, green, blue }),
    {
        Self { red, green, blue }
    }
}

} // verus!
