//! The layer renderers: background, window and sprites of one scanline, and
//! the compositor that overlays window and sprites on a drawn background.

use vstd::prelude::*;
use crate::color::{palette_shade, pixel_index, plane_index, shade, Color};
use crate::mmu::{
    GpuCycles, Memory, MemoryView, BACKGROUND_PALETTE_INDEX, LCD_CONTROL_INDEX,
    OBJECT_PALETTE_0_INDEX, OBJECT_PALETTE_1_INDEX, SCROLL_X_INDEX, SCROLL_Y_INDEX,
    SPRITES_START_INDEX, WINDOW_X_INDEX, WINDOW_Y_INDEX,
};
use crate::screen::{PixelMapper, PIXEL_COUNT};

verus! {

/// Control register: background enable.
pub const BACKGROUND: u8 = 0x01;

/// Control register: sprite enable.
pub const SPRITES: u8 = 0x02;

/// Control register: sprites are 16 lines tall.
pub const SPRITES_SIZE: u8 = 0x04;

/// Control register: the background tile map is the one at 0x9C00.
pub const BACKGROUND_TILE_MAP: u8 = 0x08;

/// Control register: tile data starts at 0x8000 and tile numbers are unsigned.
pub const BACKGROUND_TILE_SET: u8 = 0x10;

/// Control register: window enable.
pub const WINDOW: u8 = 0x20;

/// Control register: the window tile map is the one at 0x9C00.
pub const WINDOW_TILE_MAP: u8 = 0x40;

/// Control register: display enable.
pub const DISPLAY: u8 = 0x80;

/// Sprite attribute: the sprite uses the second object palette.
pub const PALETTE: u8 = 0x10;

/// Sprite attribute: mirrored left to right.
pub const X_FLIP: u8 = 0x20;

/// Sprite attribute: mirrored top to bottom.
pub const Y_FLIP: u8 = 0x40;

/// Sprite attribute: the background has priority.
pub const BACKGROUND_PRIORITY: u8 = 0x80;

/// Whether every bit of `mask` is set in `byte`.
pub open spec fn has_flag(byte: u8, mask: u8) -> bool {
    byte & mask == mask
}

/// The sink index at which scanline `line` starts.
pub open spec fn row_start(line: int) -> int {
    (143 - line) * 160
}

/// Whether sink index `i` lies on scanline `line`.
pub open spec fn in_row(line: int, i: int) -> bool {
    row_start(line) <= i < row_start(line) + 160
}

/// The frame after scanline `line` was painted white.
pub open spec fn row_cleared(line: int, screen: Seq<Color>) -> Seq<Color> {
    Seq::new(
        screen.len(),
        |i: int|
            if in_row(line, i) {
                Color::White
            } else {
                screen[i]
            },
    )
}

/// Where the data of tile number `raw` starts. With the tile set at 0x8000
/// the number is unsigned; with the one at 0x8800 it is a signed byte
/// biased by 128.
pub open spec fn tile_data_address(m: MemoryView, raw: u8) -> int {
    if has_flag(m.lcd_control, BACKGROUND_TILE_SET) {
        0x8000 + raw * 16
    } else if raw < 128 {
        0x8800 + (raw + 128) * 16
    } else {
        0x8800 + (raw - 128) * 16
    }
}

/// The colour index of pixel (`fine_x`, `fine_y`) of the tile that the map
/// entry at `map_address` names.
pub open spec fn tile_pixel_index(m: MemoryView, map_address: int, fine_y: int, fine_x: int) -> u8 {
    let row = tile_data_address(m, m.byte_at(map_address as u16)) + fine_y * 2;
    plane_index(m.byte_at(row as u16), m.byte_at((row + 1) as u16), (7 - fine_x) as u8)
}

/// The colour index of the background at column `x` of scanline `line`.
pub open spec fn background_index(m: MemoryView, line: int, x: int) -> u8 {
    let map_y = (m.scroll_y + line) % 256;
    let map_x = (m.scroll_x + x) % 256;
    let map_base: int = if has_flag(m.lcd_control, BACKGROUND_TILE_MAP) {
        0x9C00
    } else {
        0x9800
    };
    tile_pixel_index(m, map_base + (map_y / 8) * 32 + map_x / 8, map_y % 8, map_x % 8)
}

/// The shade of the background at column `x` of scanline `line`.
pub open spec fn background_color(m: MemoryView, line: int, x: int) -> Color {
    palette_shade(m.background_palette, background_index(m, line, x))
}

/// The frame after columns `pixel` to `pixel + count` of the background of
/// scanline `line` were drawn, the display being on.
pub open spec fn background_span(
    m: MemoryView,
    line: int,
    pixel: int,
    count: int,
    screen: Seq<Color>,
) -> Seq<Color> {
    Seq::new(
        screen.len(),
        |i: int|
            if in_row(line, i) && pixel <= i - row_start(line) < pixel + count {
                background_color(m, line, i - row_start(line))
            } else {
                screen[i]
            },
    )
}

/// The frame after the background renderer ran: with the display on, the
/// columns asked for show the background; with the display off the whole
/// scanline is white.
pub open spec fn background_drawn(
    m: MemoryView,
    line: int,
    pixel: int,
    count: int,
    screen: Seq<Color>,
) -> Seq<Color> {
    if has_flag(m.lcd_control, DISPLAY) {
        background_span(m, line, pixel, count, screen)
    } else {
        row_cleared(line, screen)
    }
}

/// Whether the window shows on scanline `line`.
pub open spec fn window_visible(m: MemoryView, line: int) -> bool {
    &&& m.gpu_cycles.window_line <= 143
    &&& has_flag(m.lcd_control, WINDOW)
    &&& m.window_x - 7 <= 159
    &&& m.window_y <= 143
    &&& m.window_y <= line
}

/// The colour index of column `column` of the window's current row.
pub open spec fn window_index(m: MemoryView, column: int) -> u8 {
    let row = m.gpu_cycles.window_line as int;
    let map_base: int = if has_flag(m.lcd_control, WINDOW_TILE_MAP) {
        0x9C00
    } else {
        0x9800
    };
    tile_pixel_index(m, map_base + (row / 8) * 32 + column / 8, row % 8, column % 8)
}

/// The frame after the first `columns` columns of the window's current row
/// were drawn on scanline `line`, the window starting at screen column
/// `window_x - 7`.
pub open spec fn window_span(m: MemoryView, line: int, columns: int, screen: Seq<Color>) -> Seq<
    Color,
> {
    Seq::new(
        screen.len(),
        |i: int|
            if in_row(line, i) && 0 <= i - row_start(line) - (m.window_x - 7) < columns {
                palette_shade(
                    m.background_palette,
                    window_index(m, i - row_start(line) - (m.window_x - 7)),
                )
            } else {
                screen[i]
            },
    )
}

/// The frame after the window renderer ran on scanline `line`.
pub open spec fn window_drawn(m: MemoryView, line: int, screen: Seq<Color>) -> Seq<Color> {
    if window_visible(m, line) {
        window_span(m, line, 256, screen)
    } else {
        screen
    }
}

/// The memory after the window renderer ran on scanline `line`: the window's
/// row counter advances exactly when a row of it was drawn.
pub open spec fn window_advanced(m: MemoryView, line: int) -> MemoryView {
    if window_visible(m, line) {
        MemoryView {
            gpu_cycles: GpuCycles {
                window_line: (m.gpu_cycles.window_line + 1) as u8,
                ..m.gpu_cycles
            },
            ..m
        }
    } else {
        m
    }
}

/// The height of every sprite: 16 lines or 8.
pub open spec fn sprite_height(m: MemoryView) -> int {
    if has_flag(m.lcd_control, SPRITES_SIZE) {
        16
    } else {
        8
    }
}

/// The scanline of the top row of sprite `sprite`.
pub open spec fn sprite_y(m: MemoryView, sprite: int) -> int {
    m.sprite_table[sprite * 4] - 16
}

/// The screen column of the left edge of sprite `sprite`.
pub open spec fn sprite_x(m: MemoryView, sprite: int) -> int {
    m.sprite_table[sprite * 4 + 1] - 8
}

/// The attribute byte of sprite `sprite`.
pub open spec fn sprite_flags(m: MemoryView, sprite: int) -> u8 {
    m.sprite_table[sprite * 4 + 3]
}

/// Whether sprite `sprite` has a pixel at column `x` of scanline `line`.
pub open spec fn sprite_covers(m: MemoryView, line: int, sprite: int, x: int) -> bool {
    &&& sprite_y(m, sprite) <= line < sprite_y(m, sprite) + sprite_height(m)
    &&& sprite_x(m, sprite) <= x < sprite_x(m, sprite) + 8
}

/// Where the two bytes of the sprite's tile row that falls on scanline
/// `line` start. Tall sprites use an even tile and the one after it.
pub open spec fn sprite_row_address(m: MemoryView, line: int, sprite: int) -> int {
    let number = m.sprite_table[sprite * 4 + 2];
    let tile: u8 = if has_flag(m.lcd_control, SPRITES_SIZE) {
        number & 0xFE
    } else {
        number
    };
    let down = line - sprite_y(m, sprite);
    let pixel_y = if has_flag(sprite_flags(m, sprite), Y_FLIP) {
        sprite_height(m) - 1 - down
    } else {
        down
    };
    0x8000 + tile * 16 + pixel_y * 2
}

/// The colour index of sprite `sprite` at column `x` of scanline `line`.
pub open spec fn sprite_index(m: MemoryView, line: int, sprite: int, x: int) -> u8 {
    let row = sprite_row_address(m, line, sprite);
    let across = x - sprite_x(m, sprite);
    let bit = if has_flag(sprite_flags(m, sprite), X_FLIP) {
        across
    } else {
        7 - across
    };
    plane_index(m.byte_at(row as u16), m.byte_at((row + 1) as u16), bit as u8)
}

/// The shade at column `x` of scanline `line` once sprite `sprite` was drawn
/// over the shade `under`. Colour index 0 is transparent, and a sprite that
/// gives the background priority shows only over white.
pub open spec fn sprite_over(m: MemoryView, line: int, sprite: int, x: int, under: Color) -> Color {
    let index = sprite_index(m, line, sprite, x);
    if !sprite_covers(m, line, sprite, x) || index == 0 {
        under
    } else if has_flag(sprite_flags(m, sprite), BACKGROUND_PRIORITY) && under != Color::White {
        under
    } else if has_flag(sprite_flags(m, sprite), PALETTE) {
        palette_shade(m.object_palette_1, index)
    } else {
        palette_shade(m.object_palette_0, index)
    }
}

/// The shade at column `x` of scanline `line` once the sprites from number 39
/// down to number `first` were drawn, in that order, over the shade `under`.
/// A sprite with a lower number is drawn later and so wins.
pub open spec fn sprites_over(m: MemoryView, line: int, first: int, x: int, under: Color) -> Color
    decreases 40 - first,
{
    if first >= 40 {
        under
    } else {
        sprite_over(m, line, first, x, sprites_over(m, line, first + 1, x, under))
    }
}

/// The frame after one sprite was drawn on scanline `line`.
pub open spec fn sprite_drawn(m: MemoryView, line: int, sprite: int, screen: Seq<Color>) -> Seq<
    Color,
> {
    Seq::new(
        screen.len(),
        |i: int|
            if in_row(line, i) {
                sprite_over(m, line, sprite, i - row_start(line), screen[i])
            } else {
                screen[i]
            },
    )
}

/// The frame after the sprites from number 39 down to number `first` were
/// drawn on scanline `line`.
pub open spec fn sprites_span(m: MemoryView, line: int, first: int, screen: Seq<Color>) -> Seq<
    Color,
> {
    Seq::new(
        screen.len(),
        |i: int|
            if in_row(line, i) {
                sprites_over(m, line, first, i - row_start(line), screen[i])
            } else {
                screen[i]
            },
    )
}

/// The frame after the sprite renderer ran on scanline `line`.
pub open spec fn sprites_drawn(m: MemoryView, line: int, screen: Seq<Color>) -> Seq<Color> {
    if has_flag(m.lcd_control, SPRITES) {
        sprites_span(m, line, 0, screen)
    } else {
        screen
    }
}

/// Whether the line compositor draws layers, rather than a white line.
pub open spec fn display_on(m: MemoryView) -> bool {
    !m.screen_disabled && has_flag(m.lcd_control, DISPLAY)
}

/// The frame after the line compositor ran on scanline `line`: window, then
/// sprites, over what was there; a white line while the display is off.
pub open spec fn line_drawn(m: MemoryView, line: int, screen: Seq<Color>) -> Seq<Color> {
    if display_on(m) {
        sprites_drawn(window_advanced(m, line), line, window_drawn(m, line, screen))
    } else {
        row_cleared(line, screen)
    }
}

/// The memory after the line compositor ran on scanline `line`.
pub open spec fn line_advanced(m: MemoryView, line: int) -> MemoryView {
    if display_on(m) {
        window_advanced(m, line)
    } else {
        m
    }
}

/// Tests a flag of a register byte.
pub fn contains(byte: u8, mask: u8) -> (set: bool)
    ensures
        set == has_flag(byte, mask),
{
    byte & mask == mask
}

/// Reads the colour index of one pixel of the tile that a map entry names.
pub fn fetch_tile_pixel(memory: &Memory, map_address: u16, fine_y: i32, fine_x: i32) -> (index: u8)
    requires
        memory@.wf(),
        0 <= fine_y < 8,
        0 <= fine_x < 8,
    ensures
        index == tile_pixel_index(memory@, map_address as int, fine_y as int, fine_x as int),
        index <= 3,
{
    let raw: u8 = memory.read_byte(map_address);
    let lcd_control: u8 = memory.read_byte(LCD_CONTROL_INDEX);
    let start: i32 = if contains(lcd_control, BACKGROUND_TILE_SET) {
        0x8000 + (raw as i32) * 16
    } else if raw < 128 {
        0x8800 + (raw as i32 + 128) * 16
    } else {
        0x8800 + (raw as i32 - 128) * 16
    };
    let row: i32 = start + fine_y * 2;
    let byte1: u8 = memory.read_byte(row as u16);
    let byte2: u8 = memory.read_byte((row + 1) as u16);
    pixel_index(byte1, byte2, (7 - fine_x) as u8)
}

/// Paints scanline `line` white.
pub fn clear_row<T: PixelMapper>(line: i32, system: &mut T)
    requires
        old(system).sink_wf(),
        0 <= line <= 143,
    ensures
        final(system).sink_wf(),
        final(system).pixels() == row_cleared(line as int, old(system).pixels()),
{
    let line_width: i32 = (143 - line) * 160;
    let ghost before = system.pixels();
    proof {
        system.pixels_len();
    }
    let mut x: i32 = 0;
    while x < 160
        invariant
            0 <= x <= 160,
            0 <= line <= 143,
            line_width == row_start(line as int),
            system.sink_wf(),
            before.len() == PIXEL_COUNT,
            system.pixels() == Seq::new(
                before.len(),
                |i: int|
                    if in_row(line as int, i) && i - row_start(line as int) < x {
                        Color::White
                    } else {
                        before[i]
                    },
            ),
        decreases 160 - x,
    {
        system.map_pixel((line_width + x) as usize, Color::White);
        x += 1;
        assert(system.pixels() =~= Seq::new(
            before.len(),
            |i: int|
                if in_row(line as int, i) && i - row_start(line as int) < x {
                    Color::White
                } else {
                    before[i]
                },
        ));
    }
    assert(system.pixels() =~= row_cleared(line as int, before));
}

/// Draws `count` background pixels of scanline `line`, starting at screen
/// column `pixel`. With the display switched off in the control register the
/// whole scanline is painted white instead.
pub fn render_background<T: PixelMapper>(
    memory: &Memory,
    line: i32,
    pixel: i32,
    count: i32,
    system: &mut T,
)
    requires
        memory@.wf(),
        old(system).sink_wf(),
        0 <= line <= 143,
        0 <= pixel,
        0 <= count,
        pixel + count <= 160,
    ensures
        final(system).sink_wf(),
        final(system).pixels() == background_drawn(
            memory@,
            line as int,
            pixel as int,
            count as int,
            old(system).pixels(),
        ),
{
    let lcd_control: u8 = memory.read_byte(LCD_CONTROL_INDEX);
    if !contains(lcd_control, DISPLAY) {
        clear_row(line, system);
        return ;
    }
    let line_width: i32 = (143 - line) * 160;
    let map_start: i32 = if contains(lcd_control, BACKGROUND_TILE_MAP) {
        0x9C00
    } else {
        0x9800
    };
    let scroll_x: u8 = memory.read_byte(SCROLL_X_INDEX);
    let scroll_y: u8 = memory.read_byte(SCROLL_Y_INDEX);
    let palette: u8 = memory.read_byte(BACKGROUND_PALETTE_INDEX);
    let map_y: i32 = (scroll_y as i32 + line) % 256;
    let ghost before = system.pixels();
    proof {
        system.pixels_len();
    }
    let mut x: i32 = pixel;
    while x < pixel + count
        invariant
            pixel <= x <= pixel + count,
            0 <= pixel,
            pixel + count <= 160,
            0 <= line <= 143,
            0 <= map_y < 256,
            map_y == (memory@.scroll_y + line) % 256,
            scroll_x == memory@.scroll_x,
            palette == memory@.background_palette,
            map_start == if has_flag(memory@.lcd_control, BACKGROUND_TILE_MAP) {
                0x9C00int
            } else {
                0x9800int
            },
            line_width == row_start(line as int),
            memory@.wf(),
            system.sink_wf(),
            before.len() == PIXEL_COUNT,
            system.pixels() == background_span(
                memory@,
                line as int,
                pixel as int,
                x - pixel,
                before,
            ),
        decreases pixel + count - x,
    {
        let map_x: i32 = (scroll_x as i32 + x) % 256;
        let map_address: i32 = map_start + (map_y / 8) * 32 + map_x / 8;
        let index: u8 = fetch_tile_pixel(memory, map_address as u16, map_y % 8, map_x % 8);
        let color: Color = shade(palette, index);
        assert(color == background_color(memory@, line as int, x as int));
        system.map_pixel((line_width + x) as usize, color);
        x += 1;
        assert(system.pixels() =~= background_span(
            memory@,
            line as int,
            pixel as int,
            x - pixel,
            before,
        ));
    }
}

/// Draws the window's current row on scanline `line`, if the window shows
/// there, and advances the window's row counter if it did.
pub fn render_window<T: PixelMapper>(memory: &mut Memory, line: i32, system: &mut T)
    requires
        old(memory)@.wf(),
        old(system).sink_wf(),
        0 <= line <= 143,
    ensures
        final(memory)@ == window_advanced(old(memory)@, line as int),
        final(memory)@.wf(),
        final(system).sink_wf(),
        final(system).pixels() == window_drawn(
            old(memory)@,
            line as int,
            old(system).pixels(),
        ),
{
    if memory.gpu_cycles.window_line > 143 {
        return ;
    }
    let lcd_control: u8 = memory.read_byte(LCD_CONTROL_INDEX);
    if !contains(lcd_control, WINDOW) {
        return ;
    }
    let wx: i32 = memory.read_byte(WINDOW_X_INDEX) as i32 - 7;
    if wx > 159 {
        return ;
    }
    let wy: i32 = memory.read_byte(WINDOW_Y_INDEX) as i32;
    if wy > 143 || wy > line {
        return ;
    }
    let map_start: i32 = if contains(lcd_control, WINDOW_TILE_MAP) {
        0x9C00
    } else {
        0x9800
    };
    let row: i32 = memory.gpu_cycles.window_line as i32;
    let palette: u8 = memory.read_byte(BACKGROUND_PALETTE_INDEX);
    let line_width: i32 = (143 - line) * 160;
    let ghost before = system.pixels();
    let ghost m = memory@;
    proof {
        system.pixels_len();
    }
    let mut column: i32 = 0;
    while column < 256
        invariant
            0 <= column <= 256,
            0 <= line <= 143,
            0 <= row <= 143,
            -7 <= wx <= 159,
            memory@ == m,
            m.wf(),
            row == m.gpu_cycles.window_line,
            wx == m.window_x - 7,
            palette == m.background_palette,
            map_start == if has_flag(m.lcd_control, WINDOW_TILE_MAP) {
                0x9C00int
            } else {
                0x9800int
            },
            line_width == row_start(line as int),
            system.sink_wf(),
            before.len() == PIXEL_COUNT,
            system.pixels() == window_span(m, line as int, column as int, before),
        decreases 256 - column,
    {
        let buffer_x: i32 = column + wx;
        if 0 <= buffer_x && buffer_x < 160 {
            let map_address: i32 = map_start + (row / 8) * 32 + column / 8;
            let index: u8 = fetch_tile_pixel(memory, map_address as u16, row % 8, column % 8);
            let color: Color = shade(palette, index);
            system.map_pixel((line_width + buffer_x) as usize, color);
        }
        column += 1;
        assert(system.pixels() =~= window_span(m, line as int, column as int, before));
    }
    memory.gpu_cycles.window_line += 1;
}

/// Draws the pixels that sprite number `sprite` has on scanline `line`.
pub fn draw_sprite<T: PixelMapper>(memory: &Memory, line: i32, sprite: u16, system: &mut T)
    requires
        memory@.wf(),
        old(system).sink_wf(),
        0 <= line <= 143,
        sprite < 40,
    ensures
        final(system).sink_wf(),
        final(system).pixels() == sprite_drawn(
            memory@,
            line as int,
            sprite as int,
            old(system).pixels(),
        ),
{
    let ghost m = memory@;
    let ghost before = system.pixels();
    proof {
        system.pixels_len();
    }
    let lcd_control: u8 = memory.read_byte(LCD_CONTROL_INDEX);
    let tall: bool = contains(lcd_control, SPRITES_SIZE);
    let height: i32 = if tall {
        16
    } else {
        8
    };
    let entry: u16 = SPRITES_START_INDEX + sprite * 4;
    let top: i32 = memory.read_byte(entry) as i32 - 16;
    if top > line || top + height <= line {
        assert(system.pixels() =~= sprite_drawn(m, line as int, sprite as int, before));
        return ;
    }
    let left: i32 = memory.read_byte(entry + 1) as i32 - 8;
    if left < -7 || left >= 160 {
        assert(system.pixels() =~= sprite_drawn(m, line as int, sprite as int, before));
        return ;
    }
    let number: u8 = memory.read_byte(entry + 2);
    let tile: u8 = if tall {
        number & 0xFE
    } else {
        number
    };
    assert(number & 0xFE <= 254) by (bit_vector);
    let flags: u8 = memory.read_byte(entry + 3);
    let x_flip: bool = contains(flags, X_FLIP);
    let y_flip: bool = contains(flags, Y_FLIP);
    let behind: bool = contains(flags, BACKGROUND_PRIORITY);
    let palette: u8 = if contains(flags, PALETTE) {
        memory.read_byte(OBJECT_PALETTE_1_INDEX)
    } else {
        memory.read_byte(OBJECT_PALETTE_0_INDEX)
    };
    let down: i32 = line - top;
    let pixel_y: i32 = if y_flip {
        height - 1 - down
    } else {
        down
    };
    let row: i32 = 0x8000 + (tile as i32) * 16 + pixel_y * 2;
    assert(row == sprite_row_address(m, line as int, sprite as int));
    let byte1: u8 = memory.read_byte(row as u16);
    let byte2: u8 = memory.read_byte((row + 1) as u16);
    let line_width: i32 = (143 - line) * 160;
    let mut across: i32 = 0;
    while across < 8
        invariant
            0 <= across <= 8,
            0 <= line <= 143,
            sprite < 40,
            -7 <= left < 160,
            m == memory@,
            m.wf(),
            left == sprite_x(m, sprite as int),
            sprite_y(m, sprite as int) <= line < sprite_y(m, sprite as int) + sprite_height(m),
            x_flip == has_flag(sprite_flags(m, sprite as int), X_FLIP),
            behind == has_flag(sprite_flags(m, sprite as int), BACKGROUND_PRIORITY),
            palette == if has_flag(sprite_flags(m, sprite as int), PALETTE) {
                m.object_palette_1
            } else {
                m.object_palette_0
            },
            byte1 == m.byte_at(sprite_row_address(m, line as int, sprite as int) as u16),
            byte2 == m.byte_at((sprite_row_address(m, line as int, sprite as int) + 1) as u16),
            line_width == row_start(line as int),
            system.sink_wf(),
            before.len() == PIXEL_COUNT,
            system.pixels() == Seq::new(
                before.len(),
                |i: int|
                    if in_row(line as int, i) && i - row_start(line as int) < left + across {
                        sprite_over(
                            m,
                            line as int,
                            sprite as int,
                            i - row_start(line as int),
                            before[i],
                        )
                    } else {
                        before[i]
                    },
            ),
        decreases 8 - across,
    {
        let bit: i32 = if x_flip {
            across
        } else {
            7 - across
        };
        let index: u8 = pixel_index(byte1, byte2, bit as u8);
        let buffer_x: i32 = left + across;
        assert(index == sprite_index(m, line as int, sprite as int, buffer_x as int));
        if index != 0 && 0 <= buffer_x && buffer_x < 160 {
            let position: usize = (line_width + buffer_x) as usize;
            let mut hidden: bool = false;
            if behind {
                hidden =
                match system.get_pixel(position) {
                    Color::White => false,
                    _ => true,
                };
            }
            if !hidden {
                system.map_pixel(position, shade(palette, index));
            }
        }
        across += 1;
        assert(system.pixels() =~= Seq::new(
            before.len(),
            |i: int|
                if in_row(line as int, i) && i - row_start(line as int) < left + across {
                    sprite_over(m, line as int, sprite as int, i - row_start(line as int), before[i])
                } else {
                    before[i]
                },
        ));
    }
    assert(system.pixels() =~= sprite_drawn(m, line as int, sprite as int, before));
}

/// Draws the sprites of scanline `line`, from number 39 down to number 0.
pub fn render_sprites<T: PixelMapper>(memory: &Memory, line: i32, system: &mut T)
    requires
        memory@.wf(),
        old(system).sink_wf(),
        0 <= line <= 143,
    ensures
        final(system).sink_wf(),
        final(system).pixels() == sprites_drawn(memory@, line as int, old(system).pixels()),
{
    let lcd_control: u8 = memory.read_byte(LCD_CONTROL_INDEX);
    if !contains(lcd_control, SPRITES) {
        return ;
    }
    let ghost before = system.pixels();
    proof {
        system.pixels_len();
        assert(before =~= sprites_span(memory@, line as int, 40, before));
    }
    let mut sprite: u16 = 40;
    while sprite > 0
        invariant
            sprite <= 40,
            0 <= line <= 143,
            memory@.wf(),
            system.sink_wf(),
            before.len() == PIXEL_COUNT,
            system.pixels() == sprites_span(memory@, line as int, sprite as int, before),
        decreases sprite,
    {
        sprite -= 1;
        draw_sprite(memory, line, sprite, system);
        assert(system.pixels() =~= sprites_span(memory@, line as int, sprite as int, before));
    }
}

/// The line compositor: overlays window and sprites on scanline `line`, or
/// paints it white while the display is off.
pub fn scan_line<T: PixelMapper>(memory: &mut Memory, line: i32, system: &mut T)
    requires
        old(memory)@.wf(),
        old(system).sink_wf(),
        0 <= line <= 143,
    ensures
        final(memory)@ == line_advanced(old(memory)@, line as int),
        final(memory)@.wf(),
        final(system).sink_wf(),
        final(system).pixels() == line_drawn(old(memory)@, line as int, old(system).pixels()),
{
    let lcd_control: u8 = memory.read_byte(LCD_CONTROL_INDEX);
    if !memory.screen_disabled && contains(lcd_control, DISPLAY) {
        render_window(memory, line, system);
        render_sprites(memory, line, system);
    } else {
        clear_row(line, system);
    }
}

} // verus!
