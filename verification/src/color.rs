//! The color model: four 8-bit channels.
//!
//! A channel byte `b` stands for the normalized intensity `b / 255`, so
//! `255` denotes exactly `1.0` and `0` denotes exactly `0.0`. The renderer
//! itself never needs the normalized form; the application divides by 255
//! when it uploads a color to the GPU.

use vstd::prelude::*;

verus! {

/// A color as four 8-bit channels (red, green, blue, alpha).
#[derive(Clone, Copy, Debug, PartialEq, Eq, Structural)]
pub struct Color {
    pub red: u8,
    pub green: u8,
    pub blue: u8,
    pub alpha: u8,
}

/// The packed form `0xRRGGBBAA` of four channel bytes.
pub open spec fn packed_hex(red: u8, green: u8, blue: u8, alpha: u8) -> u32 {
    ((red as u32) << 24) | ((green as u32) << 16) | ((blue as u32) << 8) | (alpha as u32)
}

/// The color that a packed `0xRRGGBBAA` code denotes.
pub open spec fn color_of_hex(code: u32) -> Color {
    Color {
        red: ((code >> 24) & 0xff) as u8,
        green: ((code >> 16) & 0xff) as u8,
        blue: ((code >> 8) & 0xff) as u8,
        alpha: (code & 0xff) as u8,
    }
}

impl Color {
    /// Builds a color from its four channel bytes.
    pub fn from_rgba(red: u8, green: u8, blue: u8, alpha: u8) -> (c: Color)
        ensures
            c == (Color { red, green, blue, alpha }),
    {
        Color { red, green, blue, alpha }
    }

    /// Unpacks a `0xRRGGBBAA` code into its four channels.
    pub fn from_hex(code: u32) -> (c: Color)
        ensures
            c == color_of_hex(code),
    {
        Color {
            red: ((code >> 24) & 0xff) as u8,
            green: ((code >> 16) & 0xff) as u8,
            blue: ((code >> 8) & 0xff) as u8,
            alpha: (code & 0xff) as u8,
        }
    }
}

/// Unpacking a packed code recovers the channels it was packed from:
/// `from_hex` and `from_rgba` agree on every color.
pub proof fn lemma_hex_rgba_agree(red: u8, green: u8, blue: u8, alpha: u8)
    ensures
        color_of_hex(packed_hex(red, green, blue, alpha)) == (Color { red, green, blue, alpha }),
{
    let code = packed_hex(red, green, blue, alpha);
    assert((code >> 24) & 0xff == red as u32 && (code >> 16) & 0xff == green as u32 && (code >> 8)
        & 0xff == blue as u32 && code & 0xff == alpha as u32 && code == ((red as u32) << 24) | ((
    green as u32) << 16) | ((blue as u32) << 8) | (alpha as u32)) by (bit_vector)
        requires
            code == ((red as u32) << 24) | ((green as u32) << 16) | ((blue as u32) << 8) | (
            alpha as u32),
    ;
}

} // verus!
