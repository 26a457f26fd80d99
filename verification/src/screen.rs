//! The pixel sink: a linear plane of 160 x 144 shades whose row 0 is the
//! bottom of the picture, and a byte buffer that stores it as RGB triples.

use vstd::prelude::*;
use crate::color::Color;

verus! {

pub const SCREEN_WIDTH: usize = 160;

pub const SCREEN_HEIGHT: usize = 144;

pub const PIXEL_COUNT: usize = 23040;

/// The linear sink index of column `x` on scanline `line`.
pub open spec fn pixel_position(line: int, x: int) -> int {
    (143 - line) * 160 + x
}

/// What the renderers draw to.
pub trait PixelMapper {
    /// The sink is in a state the renderers may draw to.
    spec fn sink_wf(&self) -> bool;

    /// The shade last written at each linear index.
    spec fn pixels(&self) -> Seq<Color>;

    /// A well-formed sink holds exactly one shade per pixel of the display.
    proof fn pixels_len(&self)
        requires
            self.sink_wf(),
        ensures
            self.pixels().len() == PIXEL_COUNT,
    ;

    /// Writes `color` at linear index `pixel` and leaves every other pixel alone.
    fn map_pixel(&mut self, pixel: usize, color: Color)
        requires
            old(self).sink_wf(),
            pixel < PIXEL_COUNT,
        ensures
            final(self).sink_wf(),
            final(self).pixels() == old(self).pixels().update(pixel as int, color),
    ;

    /// Reads back the shade last written at linear index `pixel`.
    fn get_pixel(&self, pixel: usize) -> (color: Color)
        requires
            self.sink_wf(),
            pixel < PIXEL_COUNT,
        ensures
            color == self.pixels()[pixel as int],
    ;
}

/// The red, green and blue byte (all three are equal) of a shade.
pub open spec fn shade_level(color: Color) -> u8 {
    match color {
        Color::White => 255,
        Color::LightGray => 178,
        Color::DarkGray => 102,
        Color::Black => 0,
    }
}

/// Whether `level` is the byte of one of the four shades.
pub open spec fn is_shade_level(level: u8) -> bool {
    level == 255 || level == 178 || level == 102 || level == 0
}

/// The shade whose byte is `level`.
pub open spec fn level_shade(level: u8) -> Color {
    if level == 255 {
        Color::White
    } else if level == 178 {
        Color::LightGray
    } else if level == 102 {
        Color::DarkGray
    } else {
        Color::Black
    }
}

/// A frame stored as 160 x 144 RGB triples, ready to be uploaded as a texture.
pub struct PixelBuffer {
    pub bytes: Vec<u8>,
}

impl PixelBuffer {
    /// Every pixel is three equal bytes, and they are the bytes of a shade.
    pub open spec fn wf(&self) -> bool {
        &&& self.bytes@.len() == 3 * PIXEL_COUNT
        &&& forall|i: int|
            0 <= i < PIXEL_COUNT ==> {
                &&& is_shade_level(#[trigger] self.bytes@[3 * i])
                &&& self.bytes@[3 * i + 1] == self.bytes@[3 * i]
                &&& self.bytes@[3 * i + 2] == self.bytes@[3 * i]
            }
    }

    /// The frame as one shade per pixel.
    pub open spec fn view(&self) -> Seq<Color> {
        Seq::new(PIXEL_COUNT as nat, |i: int| level_shade(self.bytes@[3 * i]))
    }

    /// A frame whose pixels are all black.
    pub fn new() -> (buffer: PixelBuffer)
        ensures
            buffer.wf(),
            buffer@ == Seq::new(PIXEL_COUNT as nat, |i: int| Color::Black),
    {
        let mut bytes: Vec<u8> = Vec::new();
        let mut n: usize = 0;
        while n < 3 * PIXEL_COUNT
            invariant
                n <= 3 * PIXEL_COUNT,
                bytes@.len() == n,
                forall|k: int| 0 <= k < n ==> bytes@[k] == 0,
            decreases 3 * PIXEL_COUNT - n,
        {
            bytes.push(0);
            n += 1;
        }
        let buffer = PixelBuffer { bytes };
        assert(buffer@ =~= Seq::new(PIXEL_COUNT as nat, |i: int| Color::Black));
        buffer
    }

    /// The stored bytes: red, green, blue of pixel 0, then of pixel 1, and so on.
    pub fn as_bytes(&self) -> (bytes: &Vec<u8>)
        ensures
            bytes == &self.bytes,
    {
        &self.bytes
    }
}

impl PixelMapper for PixelBuffer {
    open spec fn sink_wf(&self) -> bool {
        self.wf()
    }

    open spec fn pixels(&self) -> Seq<Color> {
        self@
    }

    proof fn pixels_len(&self) {
    }

    fn map_pixel(&mut self, pixel: usize, color: Color) {
        let level: u8 = match color {
            Color::White => 255,
            Color::LightGray => 178,
            Color::DarkGray => 102,
            Color::Black => 0,
        };
        let offset: usize = pixel * 3;
        self.bytes.set(offset, level);
        self.bytes.set(offset + 1, level);
        self.bytes.set(offset + 2, level);
        proof {
            assert forall|i: int| 0 <= i < PIXEL_COUNT implies {
                &&& is_shade_level(#[trigger] self.bytes@[3 * i])
                &&& self.bytes@[3 * i + 1] == self.bytes@[3 * i]
                &&& self.bytes@[3 * i + 2] == self.bytes@[3 * i]
            } by {
                assert(is_shade_level(old(self).bytes@[3 * i]));
            }
            assert(self@ =~= old(self)@.update(pixel as int, color));
        }
    }

    fn get_pixel(&self, pixel: usize) -> (color: Color) {
        let level: u8 = self.bytes[pixel * 3];
        proof {
            assert(is_shade_level(self.bytes@[3 * (pixel as int)]));
        }
        if level == 255 {
            Color::White
        } else if level == 178 {
            Color::LightGray
        } else if level == 102 {
            Color::DarkGray
        } else {
            Color::Black
        }
    }
}

} // verus!
