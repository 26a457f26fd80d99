use gameboy_core::color::{pixel_index, shade, Color};
use gameboy_core::gpu::GPU;
use gameboy_core::mmu::{Interrupt, Memory};
use gameboy_core::render::{render_background, scan_line};
use gameboy_core::screen::{PixelBuffer, PixelMapper};

const STEP: i32 = 4;

fn pixel_at(screen: &PixelBuffer, line: usize, x: usize) -> Color {
    screen.get_pixel((143 - line) * 160 + x)
}

fn fill_tile(memory: &mut Memory, tile: u16, low: u8, high: u8) {
    for row in 0..8u16 {
        memory.write_byte(0x8000 + tile * 16 + row * 2, low);
        memory.write_byte(0x8000 + tile * 16 + row * 2 + 1, high);
    }
}

fn set_sprite(memory: &mut Memory, sprite: u16, y: u8, x: u8, tile: u8, flags: u8) {
    memory.write_byte(0xFE00 + sprite * 4, y);
    memory.write_byte(0xFE00 + sprite * 4 + 1, x);
    memory.write_byte(0xFE00 + sprite * 4 + 2, tile);
    memory.write_byte(0xFE00 + sprite * 4 + 3, flags);
}

fn booted(lcd_control: u8, palette: u8) -> (GPU, Memory, PixelBuffer) {
    let mut memory = Memory::new();
    memory.write_byte(0xFF40, lcd_control);
    memory.write_byte(0xFF47, palette);
    memory.write_byte(0xFF48, 0xE4);
    memory.write_byte(0xFF49, 0xE4);
    (GPU::new(), memory, PixelBuffer::new())
}

/// Steps until a frame is reported; returns the cycles that took.
fn run_frame(gpu: &mut GPU, memory: &mut Memory, screen: &mut PixelBuffer) -> i32 {
    let mut cycles = 0;
    loop {
        cycles += STEP;
        if gpu.step(STEP, memory, screen) {
            return cycles;
        }
        assert!(cycles < 10 * 70224);
    }
}

/// Steps through `total` cycles and counts the steps that requested each of
/// the vertical blank and the display interrupt, and the frames reported.
fn count_requests(
    gpu: &mut GPU,
    memory: &mut Memory,
    screen: &mut PixelBuffer,
    total: i32,
) -> (u32, u32, u32) {
    let (mut vblank, mut lcd, mut frames) = (0, 0, 0);
    let mut cycles = 0;
    while cycles < total {
        memory.interrupt_flag = 0;
        if gpu.step(STEP, memory, screen) {
            frames += 1;
        }
        if memory.interrupt_flag & 0x01 != 0 {
            vblank += 1;
        }
        if memory.interrupt_flag & 0x02 != 0 {
            lcd += 1;
        }
        cycles += STEP;
    }
    (vblank, lcd, frames)
}

#[test]
fn boot_like_blank_frame() {
    let (mut gpu, mut memory, mut screen) = booted(0x91, 0xE4);
    let (_, _, frames) = count_requests(&mut gpu, &mut memory, &mut screen, 70224);
    assert_eq!(frames, 1);
    for index in 0..160 * 144 {
        assert_eq!(screen.get_pixel(index), Color::White);
    }
}

#[test]
fn first_frame_is_reported_when_vblank_begins() {
    let (mut gpu, mut memory, mut screen) = booted(0x91, 0xE4);
    assert_eq!(run_frame(&mut gpu, &mut memory, &mut screen), 144 * 456);
    assert_eq!(memory.scan_line, 144);
    assert_eq!(memory.lcd_status_mode, 1);
    assert_eq!(run_frame(&mut gpu, &mut memory, &mut screen), 70224);
}

#[test]
fn solid_background() {
    let (mut gpu, mut memory, mut screen) = booted(0x91, 0xFF);
    fill_tile(&mut memory, 0, 0xFF, 0xFF);
    run_frame(&mut gpu, &mut memory, &mut screen);
    for index in 0..160 * 144 {
        assert_eq!(screen.get_pixel(index), Color::Black);
    }
}

#[test]
fn stat_edge_suppression() {
    let (mut gpu, mut memory, mut screen) = booted(0x91, 0xE4);
    memory.write_byte(0xFF41, 0x18);
    let (vblank, lcd, frames) = count_requests(&mut gpu, &mut memory, &mut screen, 70224);
    // Every mode 0 requests the display interrupt. When mode 1 begins the
    // mode 0 source still holds the line high, so there is no new edge.
    assert_eq!(lcd, 144);
    assert_eq!(vblank, 1);
    assert_eq!(frames, 1);
}

#[test]
fn stat_hblank_source_alone() {
    let (mut gpu, mut memory, mut screen) = booted(0x91, 0xE4);
    memory.write_byte(0xFF41, 0x08);
    let (vblank, lcd, _) = count_requests(&mut gpu, &mut memory, &mut screen, 70224);
    assert_eq!(lcd, 144);
    assert_eq!(vblank, 1);
}

#[test]
fn stat_vblank_source_alone() {
    let (mut gpu, mut memory, mut screen) = booted(0x91, 0xE4);
    memory.write_byte(0xFF41, 0x10);
    let (vblank, lcd, _) = count_requests(&mut gpu, &mut memory, &mut screen, 70224);
    assert_eq!(lcd, 1);
    assert_eq!(vblank, 1);
}

#[test]
fn stat_oam_source_alone() {
    let (mut gpu, mut memory, mut screen) = booted(0x91, 0xE4);
    memory.write_byte(0xFF41, 0x20);
    let (_, lcd, _) = count_requests(&mut gpu, &mut memory, &mut screen, 70224);
    // Scanlines 1 to 143 begin with mode 2 after mode 0, and the next frame
    // begins with mode 2 after mode 1.
    assert_eq!(lcd, 144);
}

#[test]
fn no_stat_source_no_display_interrupt() {
    let (mut gpu, mut memory, mut screen) = booted(0x91, 0xE4);
    memory.write_byte(0xFF45, 200);
    let (vblank, lcd, _) = count_requests(&mut gpu, &mut memory, &mut screen, 2 * 70224);
    assert_eq!(lcd, 0);
    assert_eq!(vblank, 2);
}

#[test]
fn coincidence_holds_the_line_high() {
    let (mut gpu, mut memory, mut screen) = booted(0x91, 0xE4);
    memory.write_byte(0xFF45, 5);
    memory.write_byte(0xFF41, 0x48);
    let (_, lcd, _) = count_requests(&mut gpu, &mut memory, &mut screen, 70224);
    // On scanline 5 the coincidence keeps the line high through mode 0, so
    // that mode 0 makes no edge; the coincidence itself joined a high line.
    assert_eq!(lcd, 143);
}

#[test]
fn coincidence_alone_requests_once_per_frame() {
    let (mut gpu, mut memory, mut screen) = booted(0x91, 0xE4);
    memory.write_byte(0xFF45, 5);
    memory.write_byte(0xFF41, 0x40);
    let (_, lcd, _) = count_requests(&mut gpu, &mut memory, &mut screen, 70224);
    assert_eq!(lcd, 1);
    assert_eq!(memory.lcd_status & 0x04, 0);
}

#[test]
fn mode_is_mirrored_in_status_register() {
    let (mut gpu, mut memory, mut screen) = booted(0x91, 0xE4);
    let mut seen = [false; 4];
    for _ in 0..(2 * 70224 / 4) {
        gpu.step(STEP, &mut memory, &mut screen);
        assert!(memory.lcd_status_mode <= 3);
        assert_eq!(memory.lcd_status & 0x03, memory.lcd_status_mode);
        assert_eq!(memory.read_byte(0xFF41) & 0x03, memory.lcd_status_mode);
        assert!(memory.scan_line <= 153);
        if memory.scan_line >= 144 {
            assert_eq!(memory.lcd_status_mode, 1);
        }
        seen[memory.lcd_status_mode as usize] = true;
    }
    assert_eq!(seen, [true; 4]);
}

#[test]
fn scanline_takes_456_cycles() {
    let (mut gpu, mut memory, mut screen) = booted(0x91, 0xE4);
    let mut in_mode = [0i32; 4];
    let mut cycles = 0;
    while memory.scan_line == 0 {
        in_mode[memory.lcd_status_mode as usize] += STEP;
        gpu.step(STEP, &mut memory, &mut screen);
        cycles += STEP;
    }
    assert_eq!(cycles, 456);
    assert_eq!(in_mode, [204, 0, 80, 172]);
    assert_eq!(memory.lcd_status_mode, 2);
    while memory.scan_line == 1 {
        gpu.step(STEP, &mut memory, &mut screen);
        cycles += STEP;
    }
    assert_eq!(cycles, 912);
}

#[test]
fn uneven_steps_lose_no_cycles() {
    let (mut gpu, mut memory, mut screen) = booted(0x91, 0xE4);
    let pattern = [7, 12, 0, 24, 3, 80, 16, 4];
    let mut cycles = 0;
    let mut n = 0;
    while !gpu.step(pattern[n % 8], &mut memory, &mut screen) {
        cycles += pattern[n % 8];
        n += 1;
    }
    cycles += pattern[n % 8];
    assert!(cycles >= 144 * 456);
    assert_eq!(cycles - 144 * 456, memory.gpu_cycles.cycles_counter);
    assert_eq!(memory.scan_line, 144);
}

#[test]
fn ly_wraps_from_153_to_0_in_vblank() {
    let (mut gpu, mut memory, mut screen) = booted(0x91, 0xE4);
    run_frame(&mut gpu, &mut memory, &mut screen);
    let mut lines = vec![memory.scan_line];
    while memory.lcd_status_mode == 1 {
        gpu.step(STEP, &mut memory, &mut screen);
        if memory.lcd_status_mode == 1 && *lines.last().unwrap() != memory.scan_line {
            lines.push(memory.scan_line);
        }
    }
    assert_eq!(lines, vec![144, 145, 146, 147, 148, 149, 150, 151, 152, 153, 0]);
    assert_eq!(memory.lcd_status_mode, 2);
    assert_eq!(memory.scan_line, 0);
}

#[test]
fn scroll_wraps_at_255() {
    let (_, mut memory, mut screen) = booted(0x91, 0xE4);
    fill_tile(&mut memory, 1, 0xFF, 0xFF);
    memory.write_byte(0x9800, 1);
    memory.write_byte(0xFF42, 255);
    memory.write_byte(0xFF43, 255);
    for line in 0..10 {
        render_background(&memory, line, 0, 160, &mut screen);
    }
    assert_eq!(pixel_at(&screen, 0, 0), Color::White);
    assert_eq!(pixel_at(&screen, 0, 1), Color::White);
    assert_eq!(pixel_at(&screen, 1, 0), Color::White);
    assert_eq!(pixel_at(&screen, 1, 1), Color::Black);
    assert_eq!(pixel_at(&screen, 8, 8), Color::Black);
    assert_eq!(pixel_at(&screen, 9, 8), Color::White);
    assert_eq!(pixel_at(&screen, 8, 9), Color::White);
}

#[test]
fn background_draws_only_the_span_asked_for() {
    let (_, mut memory, mut screen) = booted(0x91, 0xE4);
    memory.write_byte(0x8000, 0b1010_0000);
    memory.write_byte(0x8001, 0b1100_0000);
    render_background(&memory, 0, 0, 4, &mut screen);
    assert_eq!(pixel_at(&screen, 0, 0), Color::Black);
    assert_eq!(pixel_at(&screen, 0, 1), Color::DarkGray);
    assert_eq!(pixel_at(&screen, 0, 2), Color::LightGray);
    assert_eq!(pixel_at(&screen, 0, 3), Color::White);
    assert_eq!(pixel_at(&screen, 0, 4), Color::Black);
    assert_eq!(pixel_at(&screen, 1, 0), Color::Black);
}

#[test]
fn background_with_display_flag_clear_is_white() {
    let (_, mut memory, mut screen) = booted(0x11, 0xFF);
    memory.lcd_control = 0x11;
    memory.screen_disabled = false;
    render_background(&memory, 7, 0, 4, &mut screen);
    for x in 0..160 {
        assert_eq!(pixel_at(&screen, 7, x), Color::White);
    }
    assert_eq!(pixel_at(&screen, 6, 0), Color::Black);
}

#[test]
fn signed_tile_numbers_are_biased_by_128() {
    let (_, mut memory, mut screen) = booted(0x81, 0xE4);
    // Tile number 0x80 lies at 0x8800, tile number 0 at 0x9000.
    memory.write_byte(0x8800, 0xFF);
    memory.write_byte(0x9001, 0xFF);
    memory.write_byte(0x9800, 0x80);
    render_background(&memory, 0, 0, 16, &mut screen);
    assert_eq!(pixel_at(&screen, 0, 0), Color::LightGray);
    assert_eq!(pixel_at(&screen, 0, 7), Color::LightGray);
    assert_eq!(pixel_at(&screen, 0, 8), Color::DarkGray);
}

#[test]
fn second_tile_map_is_selected_by_control_bit() {
    let (_, mut memory, mut screen) = booted(0x99, 0xE4);
    fill_tile(&mut memory, 1, 0xFF, 0xFF);
    memory.write_byte(0x9C00, 1);
    render_background(&memory, 0, 0, 16, &mut screen);
    assert_eq!(pixel_at(&screen, 0, 0), Color::Black);
    assert_eq!(pixel_at(&screen, 0, 8), Color::White);
}

#[test]
fn window_hidden_when_wy_gt_ly() {
    let (mut gpu, mut memory, mut screen) = booted(0xF1, 0xE4);
    fill_tile(&mut memory, 1, 0xFF, 0xFF);
    for entry in 0..0x400u16 {
        memory.write_byte(0x9C00 + entry, 1);
    }
    memory.write_byte(0xFF4A, 100);
    memory.write_byte(0xFF4B, 47);
    run_frame(&mut gpu, &mut memory, &mut screen);
    for line in 0..144 {
        for x in 0..160 {
            let expected = if line >= 100 && x >= 40 { Color::Black } else { Color::White };
            assert_eq!(pixel_at(&screen, line, x), expected);
        }
    }
}

#[test]
fn window_line_counts_the_lines_the_window_showed_on() {
    let (mut gpu, mut memory, mut screen) = booted(0xF1, 0xE4);
    memory.write_byte(0xFF4A, 100);
    memory.write_byte(0xFF4B, 7);
    let mut last = 0;
    while !(memory.scan_line == 143 && memory.lcd_status_mode == 0) {
        gpu.step(STEP, &mut memory, &mut screen);
        assert!(memory.gpu_cycles.window_line >= last);
        last = memory.gpu_cycles.window_line;
        if memory.scan_line < 100 {
            assert_eq!(last, 0);
        }
    }
    assert_eq!(memory.gpu_cycles.window_line, 44);
    run_frame(&mut gpu, &mut memory, &mut screen);
    assert_eq!(memory.gpu_cycles.window_line, 0);
}

#[test]
fn window_uses_its_own_row_counter() {
    let (_, mut memory, mut screen) = booted(0xF1, 0xE4);
    // Row 0 of the window map shows tile 1, row 1 shows tile 0.
    fill_tile(&mut memory, 1, 0xFF, 0xFF);
    for entry in 0..32u16 {
        memory.write_byte(0x9C00 + entry, 1);
    }
    memory.write_byte(0xFF4A, 0);
    memory.write_byte(0xFF4B, 7);
    memory.gpu_cycles.window_line = 7;
    scan_line(&mut memory, 50, &mut screen);
    assert_eq!(memory.gpu_cycles.window_line, 8);
    assert_eq!(pixel_at(&screen, 50, 0), Color::Black);
    scan_line(&mut memory, 51, &mut screen);
    assert_eq!(memory.gpu_cycles.window_line, 9);
    assert_eq!(pixel_at(&screen, 51, 0), Color::White);
}

#[test]
fn window_pixels_use_both_bit_planes() {
    let (_, mut memory, mut screen) = booted(0xF1, 0xE4);
    memory.write_byte(0x8000, 0xF0);
    memory.write_byte(0x8001, 0xCC);
    memory.write_byte(0xFF4B, 7);
    scan_line(&mut memory, 0, &mut screen);
    assert_eq!(pixel_at(&screen, 0, 0), Color::Black);
    assert_eq!(pixel_at(&screen, 0, 2), Color::LightGray);
    assert_eq!(pixel_at(&screen, 0, 4), Color::DarkGray);
    assert_eq!(pixel_at(&screen, 0, 6), Color::White);
}

#[test]
fn window_at_wx_7_starts_in_column_0() {
    let (_, mut memory, mut screen) = booted(0xF1, 0xFF);
    memory.write_byte(0xFF4B, 7);
    for x in 0..160 {
        screen.map_pixel(143 * 160 + x, Color::LightGray);
    }
    scan_line(&mut memory, 0, &mut screen);
    for x in 0..160 {
        assert_eq!(pixel_at(&screen, 0, x), Color::Black);
    }
    assert_eq!(memory.gpu_cycles.window_line, 1);
}

#[test]
fn window_at_wx_166_shows_in_the_last_column_only() {
    let (_, mut memory, mut screen) = booted(0xF1, 0xFF);
    memory.write_byte(0xFF4B, 166);
    for x in 0..160 {
        screen.map_pixel(143 * 160 + x, Color::LightGray);
    }
    scan_line(&mut memory, 0, &mut screen);
    for x in 0..159 {
        assert_eq!(pixel_at(&screen, 0, x), Color::LightGray);
    }
    assert_eq!(pixel_at(&screen, 0, 159), Color::Black);
    assert_eq!(memory.gpu_cycles.window_line, 1);
}

#[test]
fn window_past_the_last_column_is_clipped_out() {
    let (_, mut memory, mut screen) = booted(0xF1, 0xFF);
    memory.write_byte(0xFF4B, 167);
    for x in 0..160 {
        screen.map_pixel(143 * 160 + x, Color::LightGray);
    }
    scan_line(&mut memory, 0, &mut screen);
    for x in 0..160 {
        assert_eq!(pixel_at(&screen, 0, x), Color::LightGray);
    }
    assert_eq!(memory.gpu_cycles.window_line, 0);
}

#[test]
fn window_at_wx_0_is_cut_on_the_left() {
    let (_, mut memory, mut screen) = booted(0xF1, 0xE4);
    // Column 7 of the window's first tile is its only dark pixel.
    memory.write_byte(0x8000, 0x01);
    memory.write_byte(0x8001, 0x01);
    memory.write_byte(0x9C01, 1);
    memory.write_byte(0xFF4B, 0);
    scan_line(&mut memory, 0, &mut screen);
    assert_eq!(pixel_at(&screen, 0, 0), Color::Black);
    assert_eq!(pixel_at(&screen, 0, 1), Color::White);
    assert_eq!(pixel_at(&screen, 0, 159), Color::White);
}

#[test]
fn sprite_priority() {
    let (_, mut memory, mut screen) = booted(0x93, 0xE4);
    fill_tile(&mut memory, 1, 0xFF, 0xFF);
    fill_tile(&mut memory, 2, 0xFF, 0x00);
    set_sprite(&mut memory, 5, 16, 8, 1, 0);
    set_sprite(&mut memory, 10, 16, 8, 2, 0);
    render_background(&memory, 0, 0, 160, &mut screen);
    scan_line(&mut memory, 0, &mut screen);
    assert_eq!(pixel_at(&screen, 0, 0), Color::Black);
    set_sprite(&mut memory, 5, 16, 8, 2, 0);
    set_sprite(&mut memory, 10, 16, 8, 1, 0);
    render_background(&memory, 0, 0, 160, &mut screen);
    scan_line(&mut memory, 0, &mut screen);
    assert_eq!(pixel_at(&screen, 0, 0), Color::LightGray);
    assert_eq!(pixel_at(&screen, 0, 8), Color::White);
}

#[test]
fn background_priority_sprite_over_non_white_background() {
    let (_, mut memory, mut screen) = booted(0x93, 0xE4);
    fill_tile(&mut memory, 0, 0xFF, 0x00);
    fill_tile(&mut memory, 1, 0xFF, 0xFF);
    set_sprite(&mut memory, 0, 16, 8, 1, 0x80);
    render_background(&memory, 0, 0, 160, &mut screen);
    scan_line(&mut memory, 0, &mut screen);
    for x in 0..160 {
        assert_eq!(pixel_at(&screen, 0, x), Color::LightGray);
    }
}

#[test]
fn background_priority_sprite_over_white_background() {
    let (_, mut memory, mut screen) = booted(0x93, 0xE4);
    fill_tile(&mut memory, 1, 0xFF, 0xFF);
    set_sprite(&mut memory, 0, 16, 8, 1, 0x80);
    render_background(&memory, 0, 0, 160, &mut screen);
    scan_line(&mut memory, 0, &mut screen);
    assert_eq!(pixel_at(&screen, 0, 0), Color::Black);
    assert_eq!(pixel_at(&screen, 0, 7), Color::Black);
    assert_eq!(pixel_at(&screen, 0, 8), Color::White);
}

#[test]
fn sprite_at_left_and_right_edge() {
    let (_, mut memory, mut screen) = booted(0x93, 0xE4);
    // Tile 1: leftmost pixel index 1, rightmost pixel index 3, others 0.
    fill_tile(&mut memory, 1, 0x81, 0x01);
    set_sprite(&mut memory, 0, 16, 1, 1, 0);
    set_sprite(&mut memory, 1, 16, 167, 1, 0);
    set_sprite(&mut memory, 2, 16, 0, 1, 0);
    set_sprite(&mut memory, 3, 16, 168, 1, 0);
    render_background(&memory, 0, 0, 160, &mut screen);
    scan_line(&mut memory, 0, &mut screen);
    assert_eq!(pixel_at(&screen, 0, 0), Color::Black);
    assert_eq!(pixel_at(&screen, 0, 159), Color::LightGray);
    for x in 1..159 {
        assert_eq!(pixel_at(&screen, 0, x), Color::White);
    }
}

#[test]
fn sprite_x_flip_mirrors_the_row() {
    let (_, mut memory, mut screen) = booted(0x93, 0xE4);
    fill_tile(&mut memory, 1, 0x81, 0x01);
    set_sprite(&mut memory, 0, 16, 8, 1, 0x20);
    render_background(&memory, 0, 0, 160, &mut screen);
    scan_line(&mut memory, 0, &mut screen);
    assert_eq!(pixel_at(&screen, 0, 0), Color::Black);
    assert_eq!(pixel_at(&screen, 0, 7), Color::LightGray);
    assert_eq!(pixel_at(&screen, 0, 3), Color::White);
}

#[test]
fn sprite_uses_the_palette_its_flag_selects() {
    let (_, mut memory, mut screen) = booted(0x93, 0xE4);
    memory.write_byte(0xFF49, 0x1B);
    fill_tile(&mut memory, 1, 0xFF, 0xFF);
    set_sprite(&mut memory, 0, 16, 8, 1, 0x10);
    set_sprite(&mut memory, 1, 16, 16, 1, 0x00);
    render_background(&memory, 0, 0, 160, &mut screen);
    scan_line(&mut memory, 0, &mut screen);
    assert_eq!(pixel_at(&screen, 0, 0), Color::White);
    assert_eq!(pixel_at(&screen, 0, 8), Color::Black);
}

#[test]
fn tall_sprite_straddles_scanlines() {
    let (_, mut memory, mut screen) = booted(0x97, 0xE4);
    fill_tile(&mut memory, 2, 0xFF, 0x00);
    fill_tile(&mut memory, 3, 0xFF, 0xFF);
    // The low bit of the tile number is ignored for tall sprites.
    set_sprite(&mut memory, 0, 16, 8, 3, 0);
    for line in 0..17 {
        render_background(&memory, line, 0, 160, &mut screen);
        scan_line(&mut memory, line, &mut screen);
    }
    for line in 0..8 {
        assert_eq!(pixel_at(&screen, line, 0), Color::LightGray);
    }
    for line in 8..16 {
        assert_eq!(pixel_at(&screen, line, 0), Color::Black);
    }
    assert_eq!(pixel_at(&screen, 16, 0), Color::White);
}

#[test]
fn tall_sprite_flipped_top_to_bottom() {
    let (_, mut memory, mut screen) = booted(0x97, 0xE4);
    fill_tile(&mut memory, 2, 0xFF, 0x00);
    fill_tile(&mut memory, 3, 0xFF, 0xFF);
    // Row 0 of the upper tile is the only one with index 2.
    memory.write_byte(0x8020, 0x00);
    memory.write_byte(0x8021, 0xFF);
    set_sprite(&mut memory, 0, 16, 8, 2, 0x40);
    for line in 0..17 {
        render_background(&memory, line, 0, 160, &mut screen);
        scan_line(&mut memory, line, &mut screen);
    }
    for line in 0..8 {
        assert_eq!(pixel_at(&screen, line, 0), Color::Black);
    }
    for line in 8..15 {
        assert_eq!(pixel_at(&screen, line, 0), Color::LightGray);
    }
    assert_eq!(pixel_at(&screen, 15, 0), Color::DarkGray);
    assert_eq!(pixel_at(&screen, 16, 0), Color::White);
}

#[test]
fn tall_sprite_partly_above_the_screen() {
    let (_, mut memory, mut screen) = booted(0x97, 0xE4);
    fill_tile(&mut memory, 2, 0xFF, 0x00);
    fill_tile(&mut memory, 3, 0xFF, 0xFF);
    set_sprite(&mut memory, 0, 4, 8, 2, 0);
    for line in 0..5 {
        render_background(&memory, line, 0, 160, &mut screen);
        scan_line(&mut memory, line, &mut screen);
    }
    for line in 0..4 {
        assert_eq!(pixel_at(&screen, line, 0), Color::Black);
    }
    assert_eq!(pixel_at(&screen, 4, 0), Color::White);
}

#[test]
fn small_sprite_is_eight_lines_tall() {
    let (_, mut memory, mut screen) = booted(0x93, 0xE4);
    fill_tile(&mut memory, 1, 0xFF, 0xFF);
    fill_tile(&mut memory, 2, 0xFF, 0x00);
    set_sprite(&mut memory, 0, 26, 8, 1, 0);
    for line in 9..19 {
        render_background(&memory, line, 0, 160, &mut screen);
        scan_line(&mut memory, line, &mut screen);
    }
    assert_eq!(pixel_at(&screen, 9, 0), Color::White);
    assert_eq!(pixel_at(&screen, 10, 0), Color::Black);
    assert_eq!(pixel_at(&screen, 17, 0), Color::Black);
    assert_eq!(pixel_at(&screen, 18, 0), Color::White);
}

#[test]
fn sprites_off_leaves_the_line_alone() {
    let (_, mut memory, mut screen) = booted(0x91, 0xE4);
    fill_tile(&mut memory, 1, 0xFF, 0xFF);
    set_sprite(&mut memory, 0, 16, 8, 1, 0);
    render_background(&memory, 0, 0, 160, &mut screen);
    // Tile 1 is only the sprite's tile here: the map shows tile 0.
    scan_line(&mut memory, 0, &mut screen);
    for x in 0..160 {
        assert_eq!(pixel_at(&screen, 0, x), Color::White);
    }
}

#[test]
fn compositor_paints_white_while_display_flag_is_clear() {
    let (_, mut memory, mut screen) = booted(0x91, 0xFF);
    memory.lcd_control = 0x13;
    scan_line(&mut memory, 3, &mut screen);
    for x in 0..160 {
        assert_eq!(pixel_at(&screen, 3, x), Color::White);
    }
    assert_eq!(pixel_at(&screen, 2, 0), Color::Black);
    assert_eq!(pixel_at(&screen, 4, 0), Color::Black);
}

#[test]
fn disable_then_enable_restarts_cleanly() {
    let (mut gpu, mut memory, mut screen) = booted(0x91, 0xE4);
    for _ in 0..5000 {
        gpu.step(STEP, &mut memory, &mut screen);
    }
    assert_ne!(memory.scan_line, 0);
    memory.write_byte(0xFF40, 0x11);
    assert!(memory.screen_disabled);
    assert_eq!(memory.scan_line, 0);
    assert_eq!(memory.lcd_status_mode, 0);
    assert_eq!(memory.lcd_status & 0x03, 0);
    memory.write_byte(0xFF40, 0x91);
    assert!(memory.screen_disabled);
    assert_eq!(memory.gpu_cycles.screen_enable_delay_cycles, 244);
    for n in 0..61 {
        assert!(memory.screen_disabled);
        assert_eq!(memory.gpu_cycles.screen_enable_delay_cycles, 244 - 4 * n);
        assert!(!gpu.step(STEP, &mut memory, &mut screen));
        assert_eq!(memory.scan_line, 0);
        assert_eq!(memory.lcd_status_mode, 0);
    }
    assert!(!memory.screen_disabled);
    assert_eq!(gpu.hide_frames, 3);
    assert_eq!(memory.gpu_cycles.cycles_counter, 0);
    assert_eq!(memory.gpu_cycles.aux_cycles_counter, 0);
    assert_eq!(memory.gpu_cycles.pixel_counter, 0);
    assert_eq!(memory.gpu_cycles.window_line, 0);
    assert_eq!(memory.irq48_signal, 0);
}

#[test]
fn first_three_frames_after_restart_are_hidden() {
    let (mut gpu, mut memory, mut screen) = booted(0x91, 0xE4);
    for _ in 0..5000 {
        gpu.step(STEP, &mut memory, &mut screen);
    }
    memory.write_byte(0xFF40, 0x11);
    memory.write_byte(0xFF40, 0x91);
    let mut began = 0;
    let mut reported = 0;
    while reported == 0 {
        memory.interrupt_flag = 0;
        if gpu.step(STEP, &mut memory, &mut screen) {
            reported += 1;
        }
        if memory.interrupt_flag & 0x01 != 0 {
            began += 1;
        }
    }
    assert_eq!(began, 4);
    assert_eq!(gpu.hide_frames, 0);
}

#[test]
fn restart_with_coincidence_source_requests_display_interrupt() {
    let (mut gpu, mut memory, mut screen) = booted(0x91, 0xE4);
    memory.write_byte(0xFF41, 0x40);
    memory.write_byte(0xFF40, 0x11);
    memory.write_byte(0xFF40, 0x91);
    memory.interrupt_flag = 0;
    for _ in 0..61 {
        gpu.step(STEP, &mut memory, &mut screen);
    }
    assert!(!memory.screen_disabled);
    assert_eq!(memory.interrupt_flag & 0x02, 0x02);
    assert_eq!(memory.irq48_signal, 0x08);
    assert_eq!(memory.lcd_status & 0x04, 0x04);
}

#[test]
fn restart_without_coincidence_source_requests_nothing() {
    let (mut gpu, mut memory, mut screen) = booted(0x91, 0xE4);
    memory.write_byte(0xFF41, 0x20);
    memory.write_byte(0xFF40, 0x11);
    memory.write_byte(0xFF40, 0x91);
    memory.interrupt_flag = 0;
    for _ in 0..61 {
        gpu.step(STEP, &mut memory, &mut screen);
    }
    assert!(!memory.screen_disabled);
    assert_eq!(memory.interrupt_flag, 0);
    assert_eq!(memory.irq48_signal, 0);
}

#[test]
fn disabled_display_reports_a_frame_every_70224_cycles() {
    let (mut gpu, mut memory, mut screen) = booted(0x91, 0xE4);
    memory.write_byte(0xFF40, 0x11);
    let mut cycles = 0;
    let mut frames = Vec::new();
    while cycles < 3 * 70224 {
        cycles += STEP;
        memory.interrupt_flag = 0;
        if gpu.step(STEP, &mut memory, &mut screen) {
            frames.push(cycles);
        }
        assert_eq!(memory.interrupt_flag, 0);
        assert_eq!(memory.scan_line, 0);
    }
    assert_eq!(frames, vec![70224, 2 * 70224, 3 * 70224]);
    for index in 0..160 * 144 {
        assert_eq!(screen.get_pixel(index), Color::Black);
    }
}

#[test]
fn step_of_no_cycles_changes_nothing() {
    let (mut gpu, mut memory, mut screen) = booted(0x91, 0xE4);
    for n in 0..20000 {
        gpu.step(STEP, &mut memory, &mut screen);
        if n % 7 == 0 {
            memory.interrupt_flag = 0;
            assert!(!gpu.step(0, &mut memory, &mut screen));
            let machine = gpu;
            let cycles = memory.gpu_cycles;
            let registers = (
                memory.lcd_status_mode,
                memory.lcd_status,
                memory.scan_line,
                memory.irq48_signal,
                memory.interrupt_flag,
            );
            let bytes = screen.as_bytes().clone();
            assert!(!gpu.step(0, &mut memory, &mut screen));
            assert_eq!(gpu, machine);
            assert_eq!(memory.gpu_cycles, cycles);
            assert_eq!(
                (
                    memory.lcd_status_mode,
                    memory.lcd_status,
                    memory.scan_line,
                    memory.irq48_signal,
                    memory.interrupt_flag,
                ),
                registers
            );
            assert_eq!(memory.interrupt_flag, 0);
            assert_eq!(screen.as_bytes(), &bytes);
        }
    }
}

#[test]
fn new_machine_is_at_rest() {
    let gpu = GPU::new();
    assert_eq!(gpu.tile_cycles_counter, 0);
    assert_eq!(gpu.vblank_line, 0);
    assert_eq!(gpu.hide_frames, 0);
    assert!(!gpu.scan_line_transfered);
}

#[test]
fn memory_at_power_on() {
    let memory = Memory::new();
    assert!(!memory.screen_disabled);
    assert_eq!(memory.lcd_status_mode, 2);
    assert_eq!(memory.read_byte(0xFF41), 2);
    assert_eq!(memory.read_byte(0xFF44), 0);
    assert_eq!(memory.read_byte(0x8000), 0);
    assert_eq!(memory.read_byte(0x9FFF), 0);
    assert_eq!(memory.read_byte(0xFE9F), 0);
    assert_eq!(memory.gpu_cycles.cycles_counter, 0);
}

#[test]
fn memory_reads_back_what_was_written() {
    let mut memory = Memory::new();
    memory.write_byte(0x8000, 0x12);
    memory.write_byte(0x9FFF, 0x34);
    memory.write_byte(0xFE00, 0x56);
    memory.write_byte(0xFE9F, 0x78);
    memory.write_byte(0xFF42, 1);
    memory.write_byte(0xFF43, 2);
    memory.write_byte(0xFF45, 3);
    memory.write_byte(0xFF47, 4);
    memory.write_byte(0xFF48, 5);
    memory.write_byte(0xFF49, 6);
    memory.write_byte(0xFF4A, 7);
    memory.write_byte(0xFF4B, 8);
    memory.write_byte(0xFF0F, 9);
    assert_eq!(memory.read_byte(0x8000), 0x12);
    assert_eq!(memory.read_byte(0x9FFF), 0x34);
    assert_eq!(memory.read_byte(0xFE00), 0x56);
    assert_eq!(memory.read_byte(0xFE9F), 0x78);
    assert_eq!(memory.read_byte(0x8001), 0);
    let registers: Vec<u8> = (0xFF42..0xFF4Cu16).map(|index| memory.read_byte(index)).collect();
    assert_eq!(registers, vec![1, 2, 0, 3, 0xFF, 4, 5, 6, 7, 8]);
    assert_eq!(memory.read_byte(0xFF0F), 9);
}

#[test]
fn unmapped_addresses_read_as_ff_and_ignore_writes() {
    let mut memory = Memory::new();
    memory.write_byte(0xA000, 1);
    memory.write_byte(0xFEA0, 1);
    memory.write_byte(0x0000, 1);
    assert_eq!(memory.read_byte(0xA000), 0xFF);
    assert_eq!(memory.read_byte(0xFEA0), 0xFF);
    assert_eq!(memory.read_byte(0x0000), 0xFF);
    assert_eq!(memory.read_byte(0x7FFF), 0xFF);
}

#[test]
fn scanline_and_mode_bits_are_read_only() {
    let mut memory = Memory::new();
    memory.write_byte(0xFF44, 99);
    assert_eq!(memory.read_byte(0xFF44), 0);
    memory.write_byte(0xFF41, 0xFF);
    assert_eq!(memory.read_byte(0xFF41), 0x7A);
    memory.write_byte(0xFF41, 0x00);
    assert_eq!(memory.read_byte(0xFF41), 0x02);
}

#[test]
fn request_interrupt_sets_the_flag_bit() {
    let mut memory = Memory::new();
    memory.request_interrupt(Interrupt::Lcd);
    assert_eq!(memory.interrupt_flag, 0x02);
    memory.request_interrupt(Interrupt::Vblank);
    assert_eq!(memory.interrupt_flag, 0x03);
    memory.request_interrupt(Interrupt::Joypad);
    memory.request_interrupt(Interrupt::Timer);
    memory.request_interrupt(Interrupt::Serial);
    assert_eq!(memory.interrupt_flag, 0x1F);
    memory.request_interrupt(Interrupt::Lcd);
    assert_eq!(memory.interrupt_flag, 0x1F);
}

#[test]
fn compare_sets_and_clears_the_coincidence_flag() {
    let mut memory = Memory::new();
    memory.write_byte(0xFF41, 0x40);
    memory.compare_ly_to_lyc();
    assert_eq!(memory.get_lcd_status_from_memory(), 0x46);
    assert_eq!(memory.irq48_signal, 0x08);
    assert_eq!(memory.interrupt_flag, 0x02);
    memory.interrupt_flag = 0;
    memory.compare_ly_to_lyc();
    assert_eq!(memory.interrupt_flag, 0);
    memory.write_byte(0xFF45, 1);
    memory.compare_ly_to_lyc();
    assert_eq!(memory.get_lcd_status_from_memory(), 0x42);
    assert_eq!(memory.irq48_signal, 0);
    memory.set_lcd_status_from_memory(0x02);
    memory.write_byte(0xFF45, 0);
    memory.compare_ly_to_lyc();
    assert_eq!(memory.get_lcd_status_from_memory(), 0x06);
    assert_eq!(memory.irq48_signal, 0);
    assert_eq!(memory.interrupt_flag, 0);
}

#[test]
fn palette_lookup() {
    assert_eq!(shade(0xE4, 0), Color::White);
    assert_eq!(shade(0xE4, 1), Color::LightGray);
    assert_eq!(shade(0xE4, 2), Color::DarkGray);
    assert_eq!(shade(0xE4, 3), Color::Black);
    assert_eq!(shade(0x1B, 0), Color::Black);
    assert_eq!(shade(0x1B, 3), Color::White);
    assert_eq!(shade(0xFF, 0), Color::Black);
    assert_eq!(shade(0x00, 3), Color::White);
}

#[test]
fn bit_planes_give_the_colour_index() {
    assert_eq!(pixel_index(0x80, 0x00, 7), 1);
    assert_eq!(pixel_index(0x00, 0x80, 7), 2);
    assert_eq!(pixel_index(0x80, 0x80, 7), 3);
    assert_eq!(pixel_index(0x7F, 0x7F, 7), 0);
    assert_eq!(pixel_index(0x01, 0x00, 0), 1);
    assert_eq!(pixel_index(0x01, 0x01, 1), 0);
}

#[test]
fn pixel_buffer_stores_rgb_triples() {
    let mut screen = PixelBuffer::new();
    assert_eq!(screen.as_bytes().len(), 160 * 144 * 3);
    assert_eq!(screen.get_pixel(0), Color::Black);
    screen.map_pixel(0, Color::White);
    screen.map_pixel(1, Color::LightGray);
    screen.map_pixel(2, Color::DarkGray);
    screen.map_pixel(23039, Color::LightGray);
    assert_eq!(&screen.as_bytes()[0..12], &[255, 255, 255, 178, 178, 178, 102, 102, 102, 0, 0, 0]);
    assert_eq!(&screen.as_bytes()[69117..], &[178, 178, 178]);
    assert_eq!(screen.get_pixel(0), Color::White);
    assert_eq!(screen.get_pixel(1), Color::LightGray);
    assert_eq!(screen.get_pixel(2), Color::DarkGray);
    assert_eq!(screen.get_pixel(3), Color::Black);
    assert_eq!(screen.get_pixel(23039), Color::LightGray);
    screen.map_pixel(1, Color::Black);
    assert_eq!(screen.get_pixel(1), Color::Black);
    assert_eq!(screen.get_pixel(0), Color::White);
}

#[test]
fn line_0_is_the_top_row_of_the_sink() {
    let (_, memory, mut screen) = booted(0x91, 0xE4);
    render_background(&memory, 0, 0, 160, &mut screen);
    assert_eq!(screen.get_pixel(143 * 160), Color::White);
    assert_eq!(screen.get_pixel(143 * 160 + 159), Color::White);
    assert_eq!(screen.get_pixel(142 * 160 + 159), Color::Black);
    render_background(&memory, 143, 0, 160, &mut screen);
    assert_eq!(screen.get_pixel(0), Color::White);
    assert_eq!(screen.get_pixel(159), Color::White);
    assert_eq!(screen.get_pixel(160), Color::Black);
}

#[test]
fn every_visible_line_is_composed_once() {
    let (mut gpu, mut memory, mut screen) = booted(0x91, 0xE4);
    for frame in 0..2 {
        let mut composed = 0;
        loop {
            let before = gpu.scan_line_transfered;
            let line = memory.scan_line;
            let vblank = gpu.step(STEP, &mut memory, &mut screen);
            if !before && gpu.scan_line_transfered {
                assert_eq!(line, composed);
                composed += 1;
            }
            if vblank {
                break;
            }
        }
        assert_eq!(composed, 144, "frame {}", frame);
    }
}

#[test]
fn pixel_pump_draws_four_pixels_per_three_cycles() {
    let (mut gpu, mut memory, mut screen) = booted(0x91, 0xE4);
    for _ in 0..20 {
        gpu.step(STEP, &mut memory, &mut screen);
    }
    assert_eq!(memory.lcd_status_mode, 3);
    assert_eq!(memory.gpu_cycles.pixel_counter, 0);
    gpu.step(STEP, &mut memory, &mut screen);
    assert_eq!(memory.gpu_cycles.pixel_counter, 4);
    assert_eq!(gpu.tile_cycles_counter, 1);
    assert_eq!(pixel_at(&screen, 0, 3), Color::White);
    assert_eq!(pixel_at(&screen, 0, 4), Color::Black);
    gpu.step(8, &mut memory, &mut screen);
    assert_eq!(memory.gpu_cycles.pixel_counter, 16);
    assert_eq!(gpu.tile_cycles_counter, 0);
    gpu.step(80, &mut memory, &mut screen);
    assert_eq!(memory.gpu_cycles.pixel_counter, 120);
    assert_eq!(gpu.tile_cycles_counter, 2);
    assert!(!gpu.scan_line_transfered);
    gpu.step(68, &mut memory, &mut screen);
    assert_eq!(memory.gpu_cycles.pixel_counter, 160);
    assert_eq!(gpu.tile_cycles_counter, 40);
    assert!(gpu.scan_line_transfered);
    assert_eq!(memory.lcd_status_mode, 3);
    gpu.step(12, &mut memory, &mut screen);
    assert_eq!(memory.lcd_status_mode, 0);
    assert_eq!(memory.gpu_cycles.pixel_counter, 0);
    assert_eq!(gpu.tile_cycles_counter, 0);
    assert_eq!(memory.gpu_cycles.cycles_counter, 0);
}

#[test]
fn pixel_pump_waits_while_display_flag_is_clear() {
    let (mut gpu, mut memory, mut screen) = booted(0x91, 0xE4);
    memory.lcd_control = 0x11;
    for _ in 0..20 {
        gpu.step(STEP, &mut memory, &mut screen);
    }
    gpu.step(40, &mut memory, &mut screen);
    assert_eq!(memory.gpu_cycles.pixel_counter, 0);
    assert_eq!(gpu.tile_cycles_counter, 40);
    assert_eq!(pixel_at(&screen, 0, 0), Color::Black);
}

#[test]
fn state_stays_well_formed() {
    let (mut gpu, mut memory, mut screen) = booted(0x91, 0xE4);
    let pattern = [7, 12, 0, 24, 3, 80, 16, 4];
    assert!(gpu.is_well_formed(&memory));
    for n in 0..20000 {
        gpu.step(pattern[n % 8], &mut memory, &mut screen);
        assert!(gpu.is_well_formed(&memory));
        if n == 5000 {
            memory.write_byte(0xFF40, 0x11);
            assert!(gpu.is_well_formed(&memory));
        }
        if n == 9000 {
            memory.write_byte(0xFF40, 0x91);
            assert!(gpu.is_well_formed(&memory));
        }
    }
}

#[test]
fn corrupted_state_is_not_well_formed() {
    let (gpu, memory, _) = booted(0x91, 0xE4);
    assert!(memory.is_well_formed());
    let mut late = Memory::new();
    late.gpu_cycles.cycles_counter = 80;
    assert!(!gpu.is_well_formed(&late));
    let mut off_screen = Memory::new();
    off_screen.scan_line = 144;
    assert!(!gpu.is_well_formed(&off_screen));
    let mut wrong_mode = Memory::new();
    wrong_mode.lcd_status_mode = 3;
    assert!(!wrong_mode.is_well_formed());
    assert!(!gpu.is_well_formed(&wrong_mode));
    let mut no_mode = Memory::new();
    no_mode.lcd_status_mode = 4;
    assert!(!no_mode.is_well_formed());
    let mut short = Memory::new();
    short.video_ram.pop();
    assert!(!short.is_well_formed());
    let mut hiding = GPU::new();
    hiding.hide_frames = 4;
    assert!(!hiding.is_well_formed(&memory));
    let mut credit = GPU::new();
    credit.tile_cycles_counter = 1;
    assert!(!credit.is_well_formed(&memory));
}
