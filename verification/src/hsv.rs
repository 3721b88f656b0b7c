//! An earlier revision of the color types; kept for compatibility. The
//! conversions into and out of the HSV color space live with the
//! floating-point code, outside this crate's verified core.

use vstd::prelude::*;

verus! {

/// Represents an RGB color.
#[derive(Debug, PartialEq, Eq, Structural)]
pub struct RGB {
    /// The red component of the color in the range 0-255
    pub r: u8,
    /// The green component of the color in the range 0-255
    pub g: u8,
    /// The blue component of the color in the range 0-255
    pub b: u8,
}

impl RGB {
    /// Creates a new `RGB` with the given color values.
    pub fn new(r: u8, g: u8, b: u8) -> (color: Self)
        ensures
            (color == RGB { r, g, b }),
    {
        Self { r, g, b }
    }
}

} // verus!
