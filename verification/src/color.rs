//! Pixel color encoding: packs an 8-bit RGB triple into the panel's native
//! 16-bit pixel word by truncating each channel to its storage width.
//!
//! The packing keeps 5 bits of red (bits 8..13), 5 bits of blue (bits 3..8),
//! and the top 3 bits of green, which the panel's RAM format stores twice:
//! at bits 0..3 and again at bits 13..16.

use vstd::prelude::*;

verus! {

/// A pixel in the panel's native 16-bit encoding. Immutable once produced.
#[derive(Clone, Copy, PartialEq, Eq, Structural, Debug)]
pub struct Color(u16);

/// The packed 16-bit word for an RGB triple: channels are quantized by
/// dropping low-order bits (truncation, no rounding) and OR-ed into place.
pub open spec fn color_word(r: u8, g: u8, b: u8) -> u16 {
    (((b as u16) >> 3) << 3) | (((r as u16) >> 3) << 8) | ((g as u16) >> 5) | (((g as u16) >> 5)
        << 13)
}

/// The 5-bit red field of a packed word (bits 8..13).
pub open spec fn red_field(w: u16) -> u16 {
    (w >> 8) & 0x1f
}

/// The 3-bit green field of a packed word (bits 0..3; bits 13..16 repeat it).
pub open spec fn green_field(w: u16) -> u16 {
    w & 0x7
}

/// The 5-bit blue field of a packed word (bits 3..8).
pub open spec fn blue_field(w: u16) -> u16 {
    (w >> 3) & 0x1f
}

/// The 8-bit red channel recovered from a packed word (low 3 bits zero).
pub open spec fn decoded_red(w: u16) -> u8 {
    (red_field(w) << 3) as u8
}

/// The 8-bit green channel recovered from a packed word (low 5 bits zero).
pub open spec fn decoded_green(w: u16) -> u8 {
    (green_field(w) << 5) as u8
}

/// The 8-bit blue channel recovered from a packed word (low 3 bits zero).
pub open spec fn decoded_blue(w: u16) -> u8 {
    (blue_field(w) << 3) as u8
}

impl Color {
    /// Encodes an RGB triple into the panel's native pixel word.
    /// Pure and total: the result is a function of the channels alone.
    pub fn new(r: u8, g: u8, b: u8) -> (c: Color)
        ensures
            c.word() == color_word(r, g, b),
    {
        Color(
            (((b as u16) >> 3) << 3) | (((r as u16) >> 3) << 8) | ((g as u16) >> 5) | (((g as u16)
                >> 5) << 13),
        )
    }

    /// The packed 16-bit word of this pixel.
    pub closed spec fn word(self) -> u16 {
        self.0
    }

    /// Returns the packed 16-bit word of this pixel.
    pub fn to_word(&self) -> (w: u16)
        ensures
            w == self.word(),
    {
        self.0
    }
}

/// Each channel field of the packed word holds exactly the channel's top
/// bits (5 for red and blue, 3 for green), and the two green fields agree.
pub proof fn lemma_color_fields(r: u8, g: u8, b: u8)
    ensures
        red_field(color_word(r, g, b)) == (r >> 3) as u16,
        green_field(color_word(r, g, b)) == (g >> 5) as u16,
        blue_field(color_word(r, g, b)) == (b >> 3) as u16,
        color_word(r, g, b) >> 13 == (g >> 5) as u16,
{
    assert(((((b as u16) >> 3) << 3) | (((r as u16) >> 3) << 8) | ((g as u16) >> 5) | (((g as u16)
        >> 5) << 13)) >> 8 & 0x1f == (r >> 3) as u16) by (bit_vector);
    assert(((((b as u16) >> 3) << 3) | (((r as u16) >> 3) << 8) | ((g as u16) >> 5) | (((g as u16)
        >> 5) << 13)) & 0x7 == (g >> 5) as u16) by (bit_vector);
    assert(((((b as u16) >> 3) << 3) | (((r as u16) >> 3) << 8) | ((g as u16) >> 5) | (((g as u16)
        >> 5) << 13)) >> 3 & 0x1f == (b >> 3) as u16) by (bit_vector);
    assert(((((b as u16) >> 3) << 3) | (((r as u16) >> 3) << 8) | ((g as u16) >> 5) | (((g as u16)
        >> 5) << 13)) >> 13 == (g >> 5) as u16) by (bit_vector);
}

/// Encoding is idempotent under decoding: re-encoding the channels recovered
/// from a packed word yields that same word.
pub proof fn lemma_color_encode_idempotent(r: u8, g: u8, b: u8)
    ensures
        color_word(
            decoded_red(color_word(r, g, b)),
            decoded_green(color_word(r, g, b)),
            decoded_blue(color_word(r, g, b)),
        ) == color_word(r, g, b),
{
    let w = color_word(r, g, b);
    lemma_color_fields(r, g, b);
    let r2 = decoded_red(w);
    let g2 = decoded_green(w);
    let b2 = decoded_blue(w);
    assert(r2 == ((r >> 3) << 3) as u8 && g2 == ((g >> 5) << 5) as u8 && b2 == ((b >> 3) << 3)
        as u8) by (bit_vector)
        requires
            r2 == ((((((b as u16) >> 3) << 3) | (((r as u16) >> 3) << 8) | ((g as u16) >> 5) | (((
            g as u16) >> 5) << 13)) >> 8 & 0x1f) << 3) as u8,
            g2 == ((((((b as u16) >> 3) << 3) | (((r as u16) >> 3) << 8) | ((g as u16) >> 5) | (((
            g as u16) >> 5) << 13)) & 0x7) << 5) as u8,
            b2 == ((((((b as u16) >> 3) << 3) | (((r as u16) >> 3) << 8) | ((g as u16) >> 5) | (((
            g as u16) >> 5) << 13)) >> 3 & 0x1f) << 3) as u8,
    ;
    assert((((b2 as u16) >> 3) << 3) | (((r2 as u16) >> 3) << 8) | ((g2 as u16) >> 5) | (((
    g2 as u16) >> 5) << 13) == (((b as u16) >> 3) << 3) | (((r as u16) >> 3) << 8) | ((g as u16)
        >> 5) | (((g as u16) >> 5) << 13)) by (bit_vector)
        requires
            r2 == ((r >> 3) << 3) as u8,
            g2 == ((g >> 5) << 5) as u8,
            b2 == ((b >> 3) << 3) as u8,
    ;
}

} // verus!
