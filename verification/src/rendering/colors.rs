//! RGB colors as stored in a canvas.

use vstd::prelude::*;

verus! {

/// An RGB color.
///
/// Each channel holds the IEEE 754 bit pattern of a single-precision value.
/// The range of a channel is not constrained: values above one or below zero
/// are stored as they are.
#[derive(Clone, Copy, Debug)]
pub struct Color {
    pub r: u32,
    pub g: u32,
    pub b: u32,
}

impl Color {
    /// Builds a color from the bit patterns of its three channels.
    pub fn new(r: u32, g: u32, b: u32) -> (color: Color)
        ensures
            color == (Color { r, g, b }),
    {
        Color { r, g, b }
    }

    /// Pure black as a specification value.
    pub open spec fn spec_black() -> Color {
        Color { r: 0, g: 0, b: 0 }
    }

    /// Pure black: all three channels are positive zero.
    #[verifier::when_used_as_spec(spec_black)]
    pub fn black() -> (color: Color)
        ensures
            color == Color::spec_black(),
    {
        Color { r: 0, g: 0, b: 0 }
    }
}

} // verus!
