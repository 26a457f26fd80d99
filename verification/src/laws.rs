//! What holds of the mode machine across steps, stated over its model.

use vstd::prelude::*;
use crate::gpu::{
    at_rest, machine_wf, source_asserted, stepped, Machine, COMPOSE_CYCLES, FRAME_CYCLES, GPU, HBLANK,
    HBLANK_CYCLES, LCD_TRANSFER, LCD_TRANSFER_CYCLES, MAX_STEP_CYCLES, OAM_SCAN, OAM_SCAN_CYCLES,
    SCANLINE_CYCLES, VBLANK, VBLANK_CYCLES,
};
use crate::mmu::{power_on, MemoryView, SCREEN_ENABLE_DELAY};
use crate::color::{palette_shade, Color};
use crate::render::{
    has_flag, sprite_covers, sprite_flags, sprite_index, sprite_over, sprites_over,
    window_visible, BACKGROUND_PRIORITY, DISPLAY, PALETTE,
};
use crate::screen::PIXEL_COUNT;

verus! {

/// The cycles that have passed since the current frame began, read off the
/// mode, the scanline and the cycle counter of a display that is on.
pub open spec fn frame_clock(m: MemoryView) -> int {
    let counter = m.gpu_cycles.cycles_counter as int;
    if m.lcd_status_mode == VBLANK {
        144 * SCANLINE_CYCLES + counter
    } else if m.lcd_status_mode == OAM_SCAN {
        m.scan_line * SCANLINE_CYCLES + counter
    } else if m.lcd_status_mode == LCD_TRANSFER {
        m.scan_line * SCANLINE_CYCLES + OAM_SCAN_CYCLES + counter
    } else {
        m.scan_line * SCANLINE_CYCLES + OAM_SCAN_CYCLES + LCD_TRANSFER_CYCLES + counter
    }
}

/// Whether a step of `cycles` cycles runs the line compositor.
pub open spec fn composes(s: Machine, cycles: int) -> bool {
    &&& !s.memory.screen_disabled
    &&& s.memory.lcd_status_mode == LCD_TRANSFER
    &&& s.memory.gpu_cycles.cycles_counter + cycles >= COMPOSE_CYCLES
    &&& !s.gpu.scan_line_transfered
}

/// The scanlines of the current frame that the line compositor has run on,
/// for a display that is on.
pub open spec fn lines_composed(gpu: GPU, m: MemoryView) -> int {
    if m.lcd_status_mode == VBLANK {
        144
    } else if m.lcd_status_mode == OAM_SCAN {
        m.scan_line as int
    } else if m.lcd_status_mode == LCD_TRANSFER {
        if gpu.scan_line_transfered {
            m.scan_line + 1
        } else {
            m.scan_line as int
        }
    } else {
        m.scan_line + 1
    }
}

/// The three modes of a visible scanline take 456 cycles together.
pub proof fn lemma_scanline_cycles()
    ensures
        OAM_SCAN_CYCLES + LCD_TRANSFER_CYCLES + HBLANK_CYCLES == SCANLINE_CYCLES,
        144 * SCANLINE_CYCLES + VBLANK_CYCLES == FRAME_CYCLES,
{
}

/// A machine at rest and the memory at power-on are well formed together, at
/// the start of a frame.
pub proof fn lemma_power_on_wf()
    ensures
        machine_wf(at_rest(), power_on()),
        frame_clock(power_on()) == 0,
        lines_composed(at_rest(), power_on()) == 0,
{
    assert(2u8 & 0x03 == 2u8) by (bit_vector);
}

/// While the display is on, a step of `cycles` cycles moves the frame clock
/// on by exactly `cycles`, modulo the 70224 cycles of a frame: no cycle is
/// lost or counted twice when a mode ends, so every scanline lasts the 456
/// cycles of its three modes. The clock starts over exactly when mode 1 ends.
pub proof fn lemma_step_advances_frame_clock(s: Machine, cycles: int)
    requires
        machine_wf(s.gpu, s.memory),
        !s.memory.screen_disabled,
        0 <= cycles <= MAX_STEP_CYCLES,
    ensures
        0 <= frame_clock(s.memory) < FRAME_CYCLES,
        frame_clock(stepped(s, cycles).0.memory) == if frame_clock(s.memory) + cycles
            < FRAME_CYCLES {
            frame_clock(s.memory) + cycles
        } else {
            frame_clock(s.memory) + cycles - FRAME_CYCLES
        },
        !stepped(s, cycles).0.memory.screen_disabled,
{
}

/// While the display is on, the frame clock alone tells mode and scanline:
/// of each 456 cycles the first 80 are mode 2, the next 172 mode 3 and the
/// last 204 mode 0, on the scanline that many cycles have completed; what
/// follows the 144 visible scanlines is mode 1.
pub proof fn lemma_mode_follows_frame_clock(gpu: GPU, m: MemoryView)
    requires
        machine_wf(gpu, m),
        !m.screen_disabled,
    ensures
        ({
            let clock = frame_clock(m);
            let within = clock % (SCANLINE_CYCLES as int);
            &&& 0 <= clock < FRAME_CYCLES
            &&& m.lcd_status_mode == if clock >= 144 * SCANLINE_CYCLES {
                VBLANK
            } else if within < OAM_SCAN_CYCLES {
                OAM_SCAN
            } else if within < OAM_SCAN_CYCLES + LCD_TRANSFER_CYCLES {
                LCD_TRANSFER
            } else {
                HBLANK
            }
            &&& clock < 144 * SCANLINE_CYCLES ==> m.scan_line == clock / (SCANLINE_CYCLES as int)
        }),
{
}

/// Whether sprite `sprite` has an opaque pixel at column `x` of scanline
/// `line`.
pub open spec fn sprite_opaque(m: MemoryView, line: int, sprite: int, x: int) -> bool {
    sprite_covers(m, line, sprite, x) && sprite_index(m, line, sprite, x) != 0
}

/// Where sprites overlap, the one with the lowest number shows. If sprite
/// `winner` has an opaque pixel at a column and does not give way to the
/// background, and no sprite from `first` up to it has an opaque pixel
/// there, then after the sprites from 39 down to `first` were drawn the
/// column shows the winner's shade, whatever was there and whatever the
/// sprites with higher numbers drew.
pub proof fn lemma_lowest_sprite_wins(
    m: MemoryView,
    line: int,
    first: int,
    winner: int,
    x: int,
    under: Color,
)
    requires
        0 <= first <= winner < 40,
        sprite_opaque(m, line, winner, x),
        !has_flag(sprite_flags(m, winner), BACKGROUND_PRIORITY),
        forall|k: int| first <= k < winner ==> !sprite_opaque(m, line, k, x),
    ensures
        sprites_over(m, line, first, x, under) == palette_shade(
            if has_flag(sprite_flags(m, winner), PALETTE) {
                m.object_palette_1
            } else {
                m.object_palette_0
            },
            sprite_index(m, line, winner, x),
        ),
    decreases winner - first,
{
    if first < winner {
        lemma_lowest_sprite_wins(m, line, first + 1, winner, x, under);
        assert(!sprite_opaque(m, line, first, x));
    }
}

/// A sprite that gives the background priority never shows over a shade
/// other than white.
pub proof fn lemma_background_priority(m: MemoryView, line: int, sprite: int, x: int, under: Color)
    requires
        has_flag(sprite_flags(m, sprite), BACKGROUND_PRIORITY),
        under != Color::White,
    ensures
        sprite_over(m, line, sprite, x, under) == under,
{
}

/// Whether any source holds the status interrupt line high.
pub open spec fn line_high(signal: u8) -> bool {
    signal != 0
}

/// The display interrupt is requested on the rising edge of the status
/// interrupt line and at no other time. When a source is evaluated, the line
/// is first reduced to the sources in `retained`; the request is made exactly
/// when the line is low then and the source, being enabled, raises it. A
/// source that joins a line that is already high requests nothing.
pub proof fn lemma_request_on_rising_edge(
    m: MemoryView,
    retained: u8,
    enable: u8,
    source: u8,
    kept: u8,
)
    requires
        source != 0,
    ensures
        ({
            let t = source_asserted(m, retained, enable, source, kept);
            let before = m.irq48_signal & retained;
            let after = if has_flag(m.lcd_status, enable) {
                before | source
            } else {
                before
            };
            &&& t.irq48_signal == after & kept
            &&& t.interrupt_flag == if !line_high(before) && line_high(after) {
                m.interrupt_flag | 0x02
            } else {
                m.interrupt_flag
            }
        }),
{
    let before = m.irq48_signal & retained;
    assert((before | source) != 0) by (bit_vector)
        requires
            source != 0,
    ;
}

/// The scanline coincidence follows the same discipline: comparing the
/// scanline requests the display interrupt exactly when the scanline matches,
/// the status register enables the coincidence source, and the line is low;
/// the line is high afterwards.
pub proof fn lemma_coincidence_request(m: MemoryView)
    ensures
        ({
            let t = m.ly_compared();
            let rises = !m.screen_disabled && m.ly_compare == m.scan_line && has_flag(
                m.lcd_status,
                0x40,
            ) && !line_high(m.irq48_signal);
            &&& t.interrupt_flag == if rises {
                m.interrupt_flag | 0x02
            } else {
                m.interrupt_flag
            }
            &&& rises ==> line_high(t.irq48_signal)
        }),
{
    let stat = m.lcd_status;
    let signal = m.irq48_signal;
    assert(((stat | 0x04) & 0x40 == 0x40) == (stat & 0x40 == 0x40)) by (bit_vector);
    assert((signal | 0x08) != 0) by (bit_vector);
}

/// While the display is on, the count of scanlines that the line compositor
/// has run on grows by one in exactly the steps that run it, and starts over
/// only when mode 1 ends. A step reports a frame only when that count has
/// reached all 144 visible scanlines.
pub proof fn lemma_lines_composed_once(s: Machine, cycles: int)
    requires
        machine_wf(s.gpu, s.memory),
        !s.memory.screen_disabled,
        0 <= cycles <= MAX_STEP_CYCLES,
    ensures
        ({
            let (t, vblank) = stepped(s, cycles);
            &&& lines_composed(t.gpu, t.memory) == if s.memory.lcd_status_mode == VBLANK
                && t.memory.lcd_status_mode != VBLANK {
                0
            } else if composes(s, cycles) {
                lines_composed(s.gpu, s.memory) + 1
            } else {
                lines_composed(s.gpu, s.memory)
            }
            &&& 0 <= lines_composed(t.gpu, t.memory) <= 144
            &&& vblank ==> lines_composed(t.gpu, t.memory) == 144 && lines_composed(
                s.gpu,
                s.memory,
            ) == 144 && s.memory.lcd_status_mode == HBLANK
        }),
{
}

/// The window's row counter never goes back within a frame: a step leaves it
/// alone, or advances it by one when it composes a scanline on which the
/// window shows, or sets it to zero when mode 1 begins.
pub proof fn lemma_window_line_follows_window(s: Machine, cycles: int)
    requires
        machine_wf(s.gpu, s.memory),
        !s.memory.screen_disabled,
        0 <= cycles <= MAX_STEP_CYCLES,
    ensures
        ({
            let t = stepped(s, cycles).0;
            let before = s.memory.gpu_cycles.window_line as int;
            let after = t.memory.gpu_cycles.window_line as int;
            if s.memory.lcd_status_mode == HBLANK && t.memory.lcd_status_mode == VBLANK {
                after == 0
            } else if composes(s, cycles) && has_flag(s.memory.lcd_control, DISPLAY)
                && window_visible(s.memory, s.memory.scan_line as int) {
                after == before + 1
            } else {
                after == before
            }
        }),
{
}

/// Switching the display off and on again leaves a well-formed machine that
/// waits for the enable delay with scanline 0 and mode 0.
pub proof fn lemma_off_on_pends_restart(gpu: GPU, m: MemoryView)
    requires
        machine_wf(gpu, m),
    ensures
        ({
            let r = m.screen_off().screen_on();
            &&& machine_wf(gpu, r)
            &&& r.screen_disabled
            &&& r.gpu_cycles.screen_enable_delay_cycles == SCREEN_ENABLE_DELAY
            &&& r.scan_line == 0
            &&& r.lcd_status_mode == HBLANK
        }),
{
    let stat = m.lcd_status;
    assert((stat & 0x7C) & 0x03 == 0) by (bit_vector);
}

/// Whatever the processor writes, and wherever, machine and memory stay well
/// formed: a step may follow any sequence of writes.
pub proof fn lemma_write_keeps_wf(gpu: GPU, m: MemoryView, index: u16, value: u8)
    requires
        machine_wf(gpu, m),
    ensures
        machine_wf(gpu, m.written(index, value)),
{
    let stat = m.lcd_status;
    assert((stat & 0x7C) & 0x03 == 0) by (bit_vector);
    assert(((value & 0x78) | (stat & 0x07)) & 0x03 == stat & 0x03) by (bit_vector);
}

/// While an enable delay is pending, scanline and mode stay zero; the step
/// that uses the delay up switches the display on with every counter at zero
/// and three frames to hide, and no earlier step does.
pub proof fn lemma_restart_is_clean(s: Machine, cycles: int)
    requires
        machine_wf(s.gpu, s.memory),
        s.memory.screen_disabled,
        s.memory.gpu_cycles.screen_enable_delay_cycles > 0,
        0 <= cycles <= MAX_STEP_CYCLES,
    ensures
        ({
            let (t, vblank) = stepped(s, cycles);
            let delay = s.memory.gpu_cycles.screen_enable_delay_cycles;
            &&& !vblank
            &&& t.memory.scan_line == 0
            &&& t.memory.lcd_status_mode == HBLANK
            &&& t.screen == s.screen
            &&& if cycles >= delay {
                &&& !t.memory.screen_disabled
                &&& t.gpu.hide_frames == 3
                &&& t.memory.gpu_cycles.cycles_counter == 0
                &&& t.memory.gpu_cycles.aux_cycles_counter == 0
                &&& t.memory.gpu_cycles.pixel_counter == 0
                &&& t.memory.gpu_cycles.window_line == 0
                &&& t.memory.gpu_cycles.screen_enable_delay_cycles == 0
            } else {
                &&& t.memory.screen_disabled
                &&& t.memory.gpu_cycles.screen_enable_delay_cycles == delay - cycles
            }
        }),
{
}

/// After a restart the next three frames are hidden: a step that begins
/// mode 1 reports a frame exactly when no frame is left to hide, and
/// otherwise takes one off the count.
pub proof fn lemma_hidden_frames(s: Machine, cycles: int)
    requires
        machine_wf(s.gpu, s.memory),
        !s.memory.screen_disabled,
        0 <= cycles <= MAX_STEP_CYCLES,
    ensures
        ({
            let (t, vblank) = stepped(s, cycles);
            let begins = s.memory.lcd_status_mode == HBLANK && t.memory.lcd_status_mode
                == VBLANK;
            &&& vblank == (begins && s.gpu.hide_frames == 0)
            &&& t.gpu.hide_frames == if begins && s.gpu.hide_frames > 0 {
                s.gpu.hide_frames - 1
            } else {
                s.gpu.hide_frames as int
            }
            &&& begins ==> has_flag(t.memory.interrupt_flag, 0x01)
        }),
{
    assert forall|flag: u8| #[trigger] has_flag(flag | 0x01, 0x01) by {
        assert((flag | 0x01) & 0x01 == 0x01) by (bit_vector);
    }
    assert forall|flag: u8| #[trigger] has_flag(flag | 0x02, 0x01) == has_flag(flag, 0x01) by {
        assert(((flag | 0x02) & 0x01 == 0x01) == (flag & 0x01 == 0x01)) by (bit_vector);
    }
}

/// A step keeps machine and memory well formed: in particular the mode stays
/// one of the four and the status register keeps repeating it.
pub proof fn lemma_step_keeps_wf(s: Machine, cycles: int)
    requires
        machine_wf(s.gpu, s.memory),
        s.screen.len() == PIXEL_COUNT,
        0 <= cycles <= MAX_STEP_CYCLES,
    ensures
        machine_wf(stepped(s, cycles).0.gpu, stepped(s, cycles).0.memory),
        stepped(s, cycles).0.screen.len() == PIXEL_COUNT,
        stepped(s, cycles).0.memory.lcd_status_mode <= 3,
        stepped(s, cycles).0.memory.lcd_status & 0x03 == stepped(
            s,
            cycles,
        ).0.memory.lcd_status_mode,
{
    lemma_status_bits();
}

/// A step writes only what belongs to the display unit. Video memory, the
/// sprite table and the registers that the processor owns stay as they were;
/// of the status register only the mode bits and the coincidence flag can
/// change; of the interrupt flags only the vertical blank and the display
/// interrupt can be raised, and none is cleared.
pub proof fn lemma_step_writes_only_its_registers(s: Machine, cycles: int)
    requires
        machine_wf(s.gpu, s.memory),
        0 <= cycles <= MAX_STEP_CYCLES,
    ensures
        ({
            let m = s.memory;
            let t = stepped(s, cycles).0.memory;
            &&& t.video_ram == m.video_ram
            &&& t.sprite_table == m.sprite_table
            &&& t.lcd_control == m.lcd_control
            &&& t.scroll_y == m.scroll_y
            &&& t.scroll_x == m.scroll_x
            &&& t.ly_compare == m.ly_compare
            &&& t.background_palette == m.background_palette
            &&& t.object_palette_0 == m.object_palette_0
            &&& t.object_palette_1 == m.object_palette_1
            &&& t.window_y == m.window_y
            &&& t.window_x == m.window_x
            &&& t.lcd_status & 0xF8 == m.lcd_status & 0xF8
            &&& t.interrupt_flag & 0xFC == m.interrupt_flag & 0xFC
            &&& t.interrupt_flag & m.interrupt_flag == m.interrupt_flag
        }),
{
    lemma_flag_bits();
}

/// Requesting the vertical blank or the display interrupt touches no other
/// interrupt flag and clears none; refreshing the mode bits or the
/// coincidence flag leaves the upper five bits of the status register alone.
proof fn lemma_flag_bits()
    ensures
        forall|flag: u8| #[trigger] ((flag | 0x01) & 0xFC) == flag & 0xFC,
        forall|flag: u8| #[trigger] ((flag | 0x02) & 0xFC) == flag & 0xFC,
        forall|flag: u8| #[trigger] (flag & flag) == flag,
        forall|flag: u8, more: u8, held: u8|
            flag & held == held ==> #[trigger] ((flag | more) & held) == held,
        forall|stat: u8| #[trigger] ((stat | 0x04) & 0xF8) == stat & 0xF8,
        forall|stat: u8| #[trigger] ((stat & 0xFB) & 0xF8) == stat & 0xF8,
        forall|stat: u8, mode: u8|
            #[trigger] (((stat & 0xFC) | (mode & 0x3)) & 0xF8) == stat & 0xF8,
{
    assert forall|flag: u8| #[trigger] ((flag | 0x01) & 0xFC) == flag & 0xFC by {
        assert((flag | 0x01) & 0xFC == flag & 0xFC) by (bit_vector);
    }
    assert forall|flag: u8| #[trigger] ((flag | 0x02) & 0xFC) == flag & 0xFC by {
        assert((flag | 0x02) & 0xFC == flag & 0xFC) by (bit_vector);
    }
    assert forall|flag: u8| #[trigger] (flag & flag) == flag by {
        assert(flag & flag == flag) by (bit_vector);
    }
    assert forall|flag: u8, more: u8, held: u8| flag & held == held implies #[trigger] ((flag
        | more) & held) == held by {
        assert(((flag | more) & held) == held) by (bit_vector)
            requires
                flag & held == held,
        ;
    }
    assert forall|stat: u8| #[trigger] ((stat | 0x04) & 0xF8) == stat & 0xF8 by {
        assert((stat | 0x04) & 0xF8 == stat & 0xF8) by (bit_vector);
    }
    assert forall|stat: u8| #[trigger] ((stat & 0xFB) & 0xF8) == stat & 0xF8 by {
        assert((stat & 0xFB) & 0xF8 == stat & 0xF8) by (bit_vector);
    }
    assert forall|stat: u8, mode: u8| #[trigger]
        (((stat & 0xFC) | (mode & 0x3)) & 0xF8) == stat & 0xF8 by {
        assert(((stat & 0xFC) | (mode & 0x3)) & 0xF8 == stat & 0xF8) by (bit_vector);
    }
}

/// The bit operations on the status register leave its low two bits equal to
/// the mode.
proof fn lemma_status_bits()
    ensures
        forall|stat: u8, mode: u8|
            mode <= 3 ==> #[trigger] ((stat & 0xFC) | (mode & 0x3)) & 0x03 == mode,
        forall|stat: u8| #[trigger] (stat | 0x04) & 0x03 == stat & 0x03,
        forall|stat: u8| #[trigger] (stat & 0xFB) & 0x03 == stat & 0x03,
{
    assert forall|stat: u8, mode: u8| mode <= 3 implies #[trigger] ((stat & 0xFC) | (mode
        & 0x3)) & 0x03 == mode by {
        assert(((stat & 0xFC) | (mode & 0x3)) & 0x03 == mode) by (bit_vector)
            requires
                mode <= 3,
        ;
    }
    assert forall|stat: u8| #[trigger] (stat | 0x04) & 0x03 == stat & 0x03 by {
        assert((stat | 0x04) & 0x03 == stat & 0x03) by (bit_vector);
    }
    assert forall|stat: u8| #[trigger] (stat & 0xFB) & 0x03 == stat & 0x03 by {
        assert((stat & 0xFB) & 0x03 == stat & 0x03) by (bit_vector);
    }
}

/// A step of no cycles, taken after another step of no cycles, changes
/// nothing, reports no frame and requests no interrupt.
pub proof fn lemma_idle_step(s: Machine)
    requires
        machine_wf(s.gpu, s.memory),
        s.screen.len() == PIXEL_COUNT,
    ensures
        stepped(stepped(s, 0).0, 0) == (stepped(s, 0).0, false),
{
    let t = stepped(s, 0).0;
    lemma_step_keeps_wf(s, 0);
    let (u, w) = stepped(t, 0);
    assert(u.screen =~= t.screen);
    assert(u.memory == t.memory);
    assert(u.gpu == t.gpu);
}

} // verus!
