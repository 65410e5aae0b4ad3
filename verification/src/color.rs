use vstd::prelude::*;

verus! {

/// A color with eight bits for each of red, green and blue.
#[derive(Clone, Copy, Debug, PartialEq, Eq, Structural)]
pub struct Rgb8 {
    pub r: u8,
    pub g: u8,
    pub b: u8,
}

impl Rgb8 {
    /// Builds a color from its three channels.
    pub fn new(r: u8, g: u8, b: u8) -> (color: Rgb8)
        ensures
            color == (Rgb8 { r, g, b }),
    {
        Rgb8 { r, g, b }
    }
}

} // verus!
