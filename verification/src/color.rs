//! The four shades of the display and the palette lookup that selects them.

use vstd::prelude::*;

verus! {

/// One of the four shades the display can show.
#[derive(Clone, Copy, Debug, PartialEq, Eq, Structural)]
pub enum Color {
    White,
    LightGray,
    DarkGray,
    Black,
}

/// The shade that a two-bit palette entry stands for.
pub open spec fn shade_of_bits(bits: u8) -> Color {
    if bits == 0 {
        Color::White
    } else if bits == 1 {
        Color::LightGray
    } else if bits == 2 {
        Color::DarkGray
    } else {
        Color::Black
    }
}

/// The two-bit entry that `palette` holds for colour index `index`.
pub open spec fn palette_bits(palette: u8, index: u8) -> u8
    recommends
        index <= 3,
{
    (palette >> ((index * 2) as u8)) & 0x03
}

/// The shade that `palette` assigns to colour index `index`.
pub open spec fn palette_shade(palette: u8, index: u8) -> Color
    recommends
        index <= 3,
{
    shade_of_bits(palette_bits(palette, index))
}

/// The colour index that bit `bit` of the two bit planes of a tile row encodes:
/// the first plane gives the low bit, the second the high bit.
pub open spec fn plane_index(byte1: u8, byte2: u8, bit: u8) -> u8
    recommends
        bit <= 7,
{
    let low: u8 = if byte1 & (1u8 << bit) != 0 { 1 } else { 0 };
    let high: u8 = if byte2 & (1u8 << bit) != 0 { 2 } else { 0 };
    (low + high) as u8
}

/// Looks a colour index up in a palette register.
pub fn shade(palette: u8, index: u8) -> (color: Color)
    requires
        index <= 3,
    ensures
        color == palette_shade(palette, index),
{
    let shift: u8 = index * 2;
    let bits: u8 = (palette >> shift) & 0x03;
    if bits == 0 {
        Color::White
    } else if bits == 1 {
        Color::LightGray
    } else if bits == 2 {
        Color::DarkGray
    } else {
        Color::Black
    }
}

/// Reads one pixel's colour index out of the two bit planes of a tile row.
pub fn pixel_index(byte1: u8, byte2: u8, bit: u8) -> (index: u8)
    requires
        bit <= 7,
    ensures
        index == plane_index(byte1, byte2, bit),
        index <= 3,
{
    let mask: u8 = 1u8 << bit;
    let low: u8 = if byte1 & mask != 0 { 1 } else { 0 };
    let high: u8 = if byte2 & mask != 0 { 2 } else { 0 };
    low + high
}

} // verus!
