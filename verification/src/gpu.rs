//! The mode machine: it paces a frame through its four modes, drives the
//! scanline register and the status interrupt line, runs the renderers and
//! reports when a frame is complete.

use vstd::prelude::*;
use crate::color::Color;
use crate::mmu::{
    power_on, GpuCycles, Interrupt, Memory, MemoryView, LCD_CONTROL_INDEX, SCREEN_ENABLE_DELAY,
};
use crate::render::{
    background_drawn, background_span, contains, display_on, has_flag, line_advanced, line_drawn,
    render_background, scan_line, DISPLAY,
};
use crate::screen::{PixelMapper, PIXEL_COUNT};

verus! {

/// Mode 0: the rest of a scanline after its pixels were sent.
pub const HBLANK: u8 = 0;

/// Mode 1: the ten scanlines after the visible ones.
pub const VBLANK: u8 = 1;

/// Mode 2: the sprite table is searched.
pub const OAM_SCAN: u8 = 2;

/// Mode 3: pixels are sent to the display.
pub const LCD_TRANSFER: u8 = 3;

pub const OAM_SCAN_CYCLES: i32 = 80;

pub const LCD_TRANSFER_CYCLES: i32 = 172;

pub const HBLANK_CYCLES: i32 = 204;

pub const SCANLINE_CYCLES: i32 = 456;

pub const VBLANK_CYCLES: i32 = 4560;

pub const FRAME_CYCLES: i32 = 70224;

/// The cycles into mode 3 after which the line compositor runs.
pub const COMPOSE_CYCLES: i32 = 160;

/// The cycles into mode 1 after which scanline 153 may wrap to 0.
pub const WRAP_CYCLES: i32 = 4104;

/// The most cycles one step may advance the machine by: the length of the
/// shortest mode. A longer step would let the machine fall behind its modes.
pub const MAX_STEP_CYCLES: i32 = 80;

/// Status register: the interrupt line follows mode 0.
pub const STAT_HBLANK: u8 = 0x08;

/// Status register: the interrupt line follows mode 1.
pub const STAT_VBLANK: u8 = 0x10;

/// Status register: the interrupt line follows mode 2.
pub const STAT_OAM: u8 = 0x20;

/// Status register: the interrupt line follows the scanline coincidence.
pub const STAT_LYC: u8 = 0x40;

/// Interrupt line: the mode 0 source.
pub const SIGNAL_HBLANK: u8 = 0x01;

/// Interrupt line: the mode 1 source.
pub const SIGNAL_VBLANK: u8 = 0x02;

/// Interrupt line: the mode 2 source.
pub const SIGNAL_OAM: u8 = 0x04;

/// Interrupt line: the scanline coincidence source.
pub const SIGNAL_LYC: u8 = 0x08;

/// The state that belongs to the mode machine alone.
#[derive(Clone, Copy, Debug, PartialEq, Eq, Structural)]
pub struct GPU {
    pub tile_cycles_counter: i32,
    pub vblank_line: i32,
    pub scan_line_transfered: bool,
    pub hide_frames: i32,
}

/// The machine at rest.
pub open spec fn at_rest() -> GPU {
    GPU { tile_cycles_counter: 0, vblank_line: 0, scan_line_transfered: false, hide_frames: 0 }
}

/// Everything a step reads and changes: the machine's own state, the shared
/// memory and the frame in the pixel sink.
pub struct Machine {
    pub gpu: GPU,
    pub memory: MemoryView,
    pub screen: Seq<Color>,
}

/// The machine made of `gpu`, `memory` and `screen`.
pub open spec fn machine(gpu: GPU, memory: MemoryView, screen: Seq<Color>) -> Machine {
    Machine { gpu, memory, screen }
}

/// The memory with another cycle counter.
pub open spec fn with_cycles(m: MemoryView, cycles_counter: int) -> MemoryView {
    MemoryView {
        gpu_cycles: GpuCycles { cycles_counter: cycles_counter as i32, ..m.gpu_cycles },
        ..m
    }
}

/// The memory with another scanline.
pub open spec fn with_scan_line(m: MemoryView, line: int) -> MemoryView {
    MemoryView { scan_line: line as u8, ..m }
}

/// The memory with another mode.
pub open spec fn with_mode(m: MemoryView, mode: u8) -> MemoryView {
    MemoryView { lcd_status_mode: mode, ..m }
}

/// The memory after one source of the status interrupt line was evaluated.
/// Only the sources in `retained` stay on the line. If the status register
/// enables the source (`enable`), the display interrupt is requested exactly
/// when the line is low at that point, and the source (`source`) joins the
/// line. At the end only the sources in `kept` stay.
pub open spec fn source_asserted(
    m: MemoryView,
    retained: u8,
    enable: u8,
    source: u8,
    kept: u8,
) -> MemoryView {
    let signal = m.irq48_signal & retained;
    if has_flag(m.lcd_status, enable) {
        let raised = if signal == 0 {
            m.requested(Interrupt::Lcd)
        } else {
            m
        };
        MemoryView { irq48_signal: (signal | source) & kept, ..raised }
    } else {
        MemoryView { irq48_signal: signal & kept, ..m }
    }
}

/// The machine with `cycles` more cycles on the shared cycle counter.
pub open spec fn credited(s: Machine, cycles: int) -> Machine {
    Machine { memory: with_cycles(s.memory, s.memory.gpu_cycles.cycles_counter + cycles), ..s }
}

/// Mode 1 begins: the vertical blank interrupt is requested, the mode 1
/// source is evaluated, the window starts over, and the frame is reported
/// unless it is one of the hidden frames after a restart.
pub open spec fn vblank_entered(s: Machine) -> (Machine, bool) {
    let m = MemoryView {
        lcd_status_mode: VBLANK,
        gpu_cycles: GpuCycles {
            aux_cycles_counter: s.memory.gpu_cycles.cycles_counter,
            window_line: 0,
            ..s.memory.gpu_cycles
        },
        ..s.memory
    }.requested(Interrupt::Vblank);
    let gpu = GPU {
        vblank_line: 0,
        hide_frames: if s.gpu.hide_frames > 0 {
            (s.gpu.hide_frames - 1) as i32
        } else {
            s.gpu.hide_frames
        },
        ..s.gpu
    };
    (
        Machine {
            gpu,
            memory: source_asserted(m, 0x09, STAT_VBLANK, SIGNAL_VBLANK, 0x0E).stat_refreshed(),
            ..s
        },
        s.gpu.hide_frames <= 0,
    )
}

/// A step in mode 0. After 204 cycles the scanline advances; scanline 144
/// begins mode 1, any other begins mode 2 and evaluates its source.
pub open spec fn hblank_step(s: Machine, cycles: int) -> (Machine, bool) {
    let t = credited(s, cycles);
    let counter = t.memory.gpu_cycles.cycles_counter;
    if counter < HBLANK_CYCLES {
        (t, false)
    } else {
        let compared = with_scan_line(
            with_cycles(t.memory, counter - HBLANK_CYCLES),
            t.memory.scan_line + 1,
        ).ly_compared();
        if compared.scan_line == 144 {
            vblank_entered(Machine { memory: compared, ..t })
        } else {
            (
                Machine {
                    memory: source_asserted(
                        with_mode(compared, OAM_SCAN),
                        0x09,
                        STAT_OAM,
                        SIGNAL_OAM,
                        0x0E,
                    ).stat_refreshed(),
                    ..t
                },
                false,
            )
        }
    }
}

/// A step in mode 1. Every 456 cycles one of its ten scanlines passes and the
/// scanline register advances, up to 153; late in the last one the register
/// wraps to 0. After 4560 cycles mode 2 begins and its source is evaluated.
pub open spec fn vblank_step(s: Machine, cycles: int) -> (Machine, bool) {
    let t = credited(s, cycles);
    let counter = t.memory.gpu_cycles.cycles_counter;
    let aux = t.memory.gpu_cycles.aux_cycles_counter + cycles;
    let ticked = aux >= SCANLINE_CYCLES;
    let rest = if ticked {
        aux - SCANLINE_CYCLES
    } else {
        aux
    };
    let vblank_line = if ticked {
        s.gpu.vblank_line + 1
    } else {
        s.gpu.vblank_line as int
    };
    let paced = MemoryView {
        gpu_cycles: GpuCycles { aux_cycles_counter: rest as i32, ..t.memory.gpu_cycles },
        ..t.memory
    };
    let advanced = if ticked && vblank_line <= 9 {
        with_scan_line(paced, paced.scan_line + 1).ly_compared()
    } else {
        paced
    };
    let wrapped = if counter >= WRAP_CYCLES && rest >= 4 && advanced.scan_line == 153 {
        with_scan_line(advanced, 0).ly_compared()
    } else {
        advanced
    };
    let left = if counter >= VBLANK_CYCLES {
        source_asserted(
            with_mode(with_cycles(wrapped, counter - VBLANK_CYCLES), OAM_SCAN).stat_refreshed(),
            0x0A,
            STAT_OAM,
            SIGNAL_OAM,
            0x0D,
        )
    } else {
        wrapped
    };
    (Machine { gpu: GPU { vblank_line: vblank_line as i32, ..s.gpu }, memory: left, ..t }, false)
}

/// A step in mode 2. After 80 cycles mode 3 begins, with the line not yet
/// composed and only the coincidence source left on the interrupt line.
pub open spec fn oam_step(s: Machine, cycles: int) -> (Machine, bool) {
    let t = credited(s, cycles);
    let counter = t.memory.gpu_cycles.cycles_counter;
    if counter < OAM_SCAN_CYCLES {
        (t, false)
    } else {
        let m = MemoryView {
            lcd_status_mode: LCD_TRANSFER,
            irq48_signal: t.memory.irq48_signal & 0x08,
            ..with_cycles(t.memory, counter - OAM_SCAN_CYCLES)
        };
        (
            Machine {
                gpu: GPU { scan_line_transfered: false, ..t.gpu },
                memory: m.stat_refreshed(),
                ..t
            },
            false,
        )
    }
}

/// The number of four-pixel bursts that `credit` cycles pay for when the
/// line is drawn up to column `pixel`: one burst per three cycles, and no
/// more than are left on the line.
pub open spec fn bursts(credit: int, pixel: int) -> int {
    if credit / 3 <= (160 - pixel) / 4 {
        credit / 3
    } else {
        (160 - pixel) / 4
    }
}

/// The pixel pump of mode 3. While the line is not complete the cycles of
/// the step are added to the credit; with the display on, the credit is
/// spent on bursts of four background pixels.
pub open spec fn pumped(t: Machine, cycles: int) -> Machine {
    let pixel = t.memory.gpu_cycles.pixel_counter;
    let credit = t.gpu.tile_cycles_counter + cycles;
    if pixel >= 160 {
        t
    } else if !display_on(t.memory) {
        Machine { gpu: GPU { tile_cycles_counter: credit as i32, ..t.gpu }, ..t }
    } else {
        let n = bursts(credit, pixel as int);
        Machine {
            gpu: GPU { tile_cycles_counter: (credit - 3 * n) as i32, ..t.gpu },
            memory: MemoryView {
                gpu_cycles: GpuCycles {
                    pixel_counter: (pixel + 4 * n) as i32,
                    ..t.memory.gpu_cycles
                },
                ..t.memory
            },
            screen: background_drawn(
                t.memory,
                t.memory.scan_line as int,
                pixel as int,
                4 * n,
                t.screen,
            ),
        }
    }
}

/// The line compositor runs once per scanline, 160 cycles into mode 3.
pub open spec fn composed(t: Machine) -> Machine {
    if t.memory.gpu_cycles.cycles_counter >= COMPOSE_CYCLES && !t.gpu.scan_line_transfered {
        Machine {
            gpu: GPU { scan_line_transfered: true, ..t.gpu },
            memory: line_advanced(t.memory, t.memory.scan_line as int),
            screen: line_drawn(t.memory, t.memory.scan_line as int, t.screen),
        }
    } else {
        t
    }
}

/// A step in mode 3: the pixel pump, then the line compositor, and after 172
/// cycles mode 0 begins and its source is evaluated.
pub open spec fn transfer_step(s: Machine, cycles: int) -> (Machine, bool) {
    let t = composed(pumped(credited(s, cycles), cycles));
    let counter = t.memory.gpu_cycles.cycles_counter;
    if counter < LCD_TRANSFER_CYCLES {
        (t, false)
    } else {
        let m = MemoryView {
            lcd_status_mode: HBLANK,
            gpu_cycles: GpuCycles {
                pixel_counter: 0,
                cycles_counter: (counter - LCD_TRANSFER_CYCLES) as i32,
                ..t.memory.gpu_cycles
            },
            ..t.memory
        };
        (
            Machine {
                gpu: GPU { tile_cycles_counter: 0, ..t.gpu },
                memory: source_asserted(
                    m.stat_refreshed(),
                    0x08,
                    STAT_HBLANK,
                    SIGNAL_HBLANK,
                    0xFF,
                ),
                ..t
            },
            false,
        )
    }
}

/// The display starts again after the enable delay: every counter, the
/// scanline and the interrupt line are zero, the mode is 0, the next three
/// frames stay hidden, the scanline is compared, and if the status register
/// enables the coincidence source the display interrupt is requested and the
/// source joins the line.
pub open spec fn restarted(s: Machine) -> Machine {
    let compared = MemoryView {
        screen_disabled: false,
        lcd_status_mode: HBLANK,
        scan_line: 0,
        irq48_signal: 0,
        gpu_cycles: GpuCycles {
            cycles_counter: 0,
            aux_cycles_counter: 0,
            pixel_counter: 0,
            screen_enable_delay_cycles: 0,
            window_line: 0,
        },
        ..s.memory
    }.ly_compared();
    let m = if has_flag(compared.lcd_status, STAT_LYC) {
        MemoryView {
            irq48_signal: compared.irq48_signal | SIGNAL_LYC,
            ..compared.requested(Interrupt::Lcd)
        }
    } else {
        compared
    };
    Machine {
        gpu: GPU { hide_frames: 3, vblank_line: 0, tile_cycles_counter: 0, ..s.gpu },
        memory: m,
        ..s
    }
}

/// A step while the display is off. A pending enable delay runs down and
/// ends in a restart; with none pending a frame is reported every 70224
/// cycles.
pub open spec fn disabled_step(s: Machine, cycles: int) -> (Machine, bool) {
    let t = credited(s, cycles);
    let delay = t.memory.gpu_cycles.screen_enable_delay_cycles;
    let counter = t.memory.gpu_cycles.cycles_counter;
    if delay > 0 {
        if delay - cycles <= 0 {
            (restarted(t), false)
        } else {
            (
                Machine {
                    memory: MemoryView {
                        gpu_cycles: GpuCycles {
                            screen_enable_delay_cycles: (delay - cycles) as i32,
                            ..t.memory.gpu_cycles
                        },
                        ..t.memory
                    },
                    ..t
                },
                false,
            )
        }
    } else if counter >= FRAME_CYCLES {
        (Machine { memory: with_cycles(t.memory, counter - FRAME_CYCLES), ..t }, true)
    } else {
        (t, false)
    }
}

/// The machine after a step of `cycles` cycles, and whether the step
/// completed a frame.
pub open spec fn stepped(s: Machine, cycles: int) -> (Machine, bool) {
    if s.memory.screen_disabled {
        disabled_step(s, cycles)
    } else if s.memory.lcd_status_mode == HBLANK {
        hblank_step(s, cycles)
    } else if s.memory.lcd_status_mode == VBLANK {
        vblank_step(s, cycles)
    } else if s.memory.lcd_status_mode == OAM_SCAN {
        oam_step(s, cycles)
    } else {
        transfer_step(s, cycles)
    }
}

/// What holds of machine and memory between steps. The mode is one of the
/// four and the status register repeats it; the cycle counter lies within
/// the current mode; scanlines 144 to 153 occur in mode 1 only, where they
/// follow the pace of the ten blank lines; the pixel pump stands on a burst
/// boundary; while the display is off mode and scanline are zero and no
/// whole frame of cycles is outstanding.
pub open spec fn machine_wf(gpu: GPU, m: MemoryView) -> bool {
    let c = m.gpu_cycles;
    &&& m.wf()
    &&& 0 <= gpu.hide_frames <= 3
    &&& 0 <= c.cycles_counter
    &&& if m.screen_disabled {
        &&& m.lcd_status_mode == HBLANK
        &&& m.scan_line == 0
        &&& 0 <= c.screen_enable_delay_cycles
        &&& if c.screen_enable_delay_cycles == 0 {
            c.cycles_counter < FRAME_CYCLES
        } else {
            c.cycles_counter + c.screen_enable_delay_cycles <= FRAME_CYCLES + SCREEN_ENABLE_DELAY
        }
    } else if m.lcd_status_mode == VBLANK {
        &&& 0 <= gpu.vblank_line <= 9
        &&& 0 <= c.aux_cycles_counter < SCANLINE_CYCLES
        &&& c.cycles_counter == c.aux_cycles_counter + SCANLINE_CYCLES * gpu.vblank_line
        &&& gpu.vblank_line < 9 ==> m.scan_line == 144 + gpu.vblank_line
        &&& gpu.vblank_line == 9 ==> if c.aux_cycles_counter < 4 {
            m.scan_line == 153
        } else {
            m.scan_line == 0
        }
        &&& gpu.tile_cycles_counter == 0
        &&& c.pixel_counter == 0
    } else if m.lcd_status_mode == LCD_TRANSFER {
        &&& c.cycles_counter < LCD_TRANSFER_CYCLES
        &&& m.scan_line <= 143
        &&& 0 <= gpu.tile_cycles_counter <= c.cycles_counter
        &&& 0 <= c.pixel_counter <= 160
        &&& c.pixel_counter % 4 == 0
    } else {
        &&& c.cycles_counter < if m.lcd_status_mode == HBLANK {
            HBLANK_CYCLES
        } else {
            OAM_SCAN_CYCLES
        }
        &&& m.scan_line <= 143
        &&& gpu.tile_cycles_counter == 0
        &&& c.pixel_counter == 0
    }
}

/// Evaluates one source of the status interrupt line.
fn assert_source(memory: &mut Memory, retained: u8, enable: u8, source: u8, kept: u8)
    ensures
        final(memory)@ == source_asserted(old(memory)@, retained, enable, source, kept),
{
    memory.irq48_signal = memory.irq48_signal & retained;
    let stat: u8 = memory.get_lcd_status_from_memory();
    if contains(stat, enable) {
        if memory.irq48_signal == 0 {
            memory.request_interrupt(Interrupt::Lcd);
        }
        memory.irq48_signal = memory.irq48_signal | source;
    }
    memory.irq48_signal = memory.irq48_signal & kept;
}

/// Makes the low two bits of the status register repeat the mode.
fn update_stat_register(memory: &mut Memory)
    requires
        old(memory)@.video_ram.len() == 0x2000,
        old(memory)@.sprite_table.len() == 0xA0,
        old(memory)@.lcd_status_mode <= 3,
    ensures
        final(memory)@ == old(memory)@.stat_refreshed(),
        final(memory)@.wf(),
{
    let stat: u8 = memory.lcd_status;
    let mode: u8 = memory.lcd_status_mode;
    assert(((stat & 0xFC) | (mode & 0x3)) & 0x03 == mode) by (bit_vector)
        requires
            mode <= 3,
    ;
    memory.set_lcd_status_from_memory((stat & 0xFC) | (mode & 0x3));
}

impl GPU {
    /// What holds of this machine and `memory` between steps.
    pub open spec fn wf(&self, memory: MemoryView) -> bool {
        machine_wf(*self, memory)
    }

    /// Tests whether this machine and `memory` are well formed together, as
    /// a step requires.
    pub fn is_well_formed(&self, memory: &Memory) -> (ok: bool)
        ensures
            ok == self.wf(memory@),
    {
        let c: GpuCycles = memory.gpu_cycles;
        let counter: i64 = c.cycles_counter as i64;
        let aux: i64 = c.aux_cycles_counter as i64;
        let delay: i64 = c.screen_enable_delay_cycles as i64;
        let blank: i64 = self.vblank_line as i64;
        if !memory.is_well_formed() || self.hide_frames < 0 || self.hide_frames > 3 || counter < 0 {
            false
        } else if memory.screen_disabled {
            memory.lcd_status_mode == HBLANK && memory.scan_line == 0 && delay >= 0 && if delay == 0 {
                counter < FRAME_CYCLES as i64
            } else {
                counter + delay <= FRAME_CYCLES as i64 + SCREEN_ENABLE_DELAY as i64
            }
        } else if memory.lcd_status_mode == VBLANK {
            0 <= blank && blank <= 9 && 0 <= aux && aux < SCANLINE_CYCLES as i64 && counter == aux
                + SCANLINE_CYCLES as i64 * blank && (blank >= 9 || memory.scan_line as i64 == 144
                + blank) && (blank != 9 || if aux < 4 {
                memory.scan_line == 153
            } else {
                memory.scan_line == 0
            }) && self.tile_cycles_counter == 0 && c.pixel_counter == 0
        } else if memory.lcd_status_mode == LCD_TRANSFER {
            counter < LCD_TRANSFER_CYCLES as i64 && memory.scan_line <= 143 && 0
                <= self.tile_cycles_counter && self.tile_cycles_counter as i64 <= counter && 0
                <= c.pixel_counter && c.pixel_counter <= 160 && c.pixel_counter % 4 == 0
        } else {
            let limit: i32 = if memory.lcd_status_mode == HBLANK {
                HBLANK_CYCLES
            } else {
                OAM_SCAN_CYCLES
            };
            counter < limit as i64 && memory.scan_line <= 143 && self.tile_cycles_counter == 0
                && c.pixel_counter == 0
        }
    }

    /// A machine at rest: no credit, no hidden frames. It is well formed
    /// together with the memory at power-on.
    pub fn new() -> (gpu: GPU)
        ensures
            gpu == at_rest(),
            gpu.wf(power_on()),
    {
        assert(2u8 & 0x03 == 2u8) by (bit_vector);
        GPU { tile_cycles_counter: 0, vblank_line: 0, hide_frames: 0, scan_line_transfered: false }
    }

    /// Advances the machine by `cycles` cycles. It may change the mode, the
    /// scanline and the status register, request interrupts and draw pixels.
    /// The result says whether a frame was completed by this step: mode 1
    /// began with no frame left to hide, or the display is off and another
    /// 70224 cycles have passed.
    pub fn step<T: PixelMapper>(&mut self, cycles: i32, memory: &mut Memory, system: &mut T) -> (vblank: bool)
        requires
            old(self).wf(old(memory)@),
            old(system).sink_wf(),
            0 <= cycles <= MAX_STEP_CYCLES,
        ensures
            final(self).wf(final(memory)@),
            final(system).sink_wf(),
            (
                machine(*final(self), final(memory)@, final(system).pixels()),
                vblank,
            ) == stepped(
                machine(*old(self), old(memory)@, old(system).pixels()),
                cycles as int,
            ),
    {
        if memory.screen_disabled {
            self.step_disabled(cycles, memory)
        } else if memory.lcd_status_mode == HBLANK {
            self.step_hblank(cycles, memory)
        } else if memory.lcd_status_mode == VBLANK {
            self.step_vblank(cycles, memory);
            false
        } else if memory.lcd_status_mode == OAM_SCAN {
            self.step_oam(cycles, memory);
            false
        } else {
            self.step_transfer(cycles, memory, system);
            false
        }
    }

    fn step_disabled(&mut self, cycles: i32, memory: &mut Memory) -> (vblank: bool)
        requires
            old(self).wf(old(memory)@),
            old(memory)@.screen_disabled,
            0 <= cycles <= MAX_STEP_CYCLES,
        ensures
            final(self).wf(final(memory)@),
            forall|screen: Seq<Color>|
                (machine(*final(self), final(memory)@, screen), vblank)
                    == #[trigger] disabled_step(
                    machine(*old(self), old(memory)@, screen),
                    cycles as int,
                ),
    {
        memory.gpu_cycles.cycles_counter += cycles;
        if memory.gpu_cycles.screen_enable_delay_cycles > 0 {
            memory.gpu_cycles.screen_enable_delay_cycles -= cycles;
            if memory.gpu_cycles.screen_enable_delay_cycles <= 0 {
                memory.gpu_cycles.screen_enable_delay_cycles = 0;
                memory.screen_disabled = false;
                self.hide_frames = 3;
                memory.lcd_status_mode = HBLANK;
                memory.gpu_cycles.cycles_counter = 0;
                memory.gpu_cycles.aux_cycles_counter = 0;
                memory.scan_line = 0;
                memory.gpu_cycles.window_line = 0;
                self.vblank_line = 0;
                memory.gpu_cycles.pixel_counter = 0;
                self.tile_cycles_counter = 0;
                memory.irq48_signal = 0;
                memory.compare_ly_to_lyc();
                let stat: u8 = memory.get_lcd_status_from_memory();
                if contains(stat, STAT_LYC) {
                    memory.request_interrupt(Interrupt::Lcd);
                    memory.irq48_signal = memory.irq48_signal | SIGNAL_LYC;
                }
            }
            false
        } else if memory.gpu_cycles.cycles_counter >= FRAME_CYCLES {
            memory.gpu_cycles.cycles_counter -= FRAME_CYCLES;
            true
        } else {
            false
        }
    }

    fn step_hblank(&mut self, cycles: i32, memory: &mut Memory) -> (vblank: bool)
        requires
            old(self).wf(old(memory)@),
            !old(memory)@.screen_disabled,
            old(memory)@.lcd_status_mode == HBLANK,
            0 <= cycles <= MAX_STEP_CYCLES,
        ensures
            final(self).wf(final(memory)@),
            forall|screen: Seq<Color>|
                (machine(*final(self), final(memory)@, screen), vblank)
                    == #[trigger] hblank_step(
                    machine(*old(self), old(memory)@, screen),
                    cycles as int,
                ),
    {
        let mut vblank: bool = false;
        memory.gpu_cycles.cycles_counter += cycles;
        if memory.gpu_cycles.cycles_counter >= HBLANK_CYCLES {
            memory.gpu_cycles.cycles_counter -= HBLANK_CYCLES;
            memory.scan_line += 1;
            memory.compare_ly_to_lyc();
            if memory.scan_line == 144 {
                memory.lcd_status_mode = VBLANK;
                self.vblank_line = 0;
                memory.gpu_cycles.aux_cycles_counter = memory.gpu_cycles.cycles_counter;
                memory.gpu_cycles.window_line = 0;
                memory.request_interrupt(Interrupt::Vblank);
                assert_source(memory, 0x09, STAT_VBLANK, SIGNAL_VBLANK, 0x0E);
                if self.hide_frames > 0 {
                    self.hide_frames -= 1;
                } else {
                    vblank = true;
                }
            } else {
                memory.lcd_status_mode = OAM_SCAN;
                assert_source(memory, 0x09, STAT_OAM, SIGNAL_OAM, 0x0E);
            }
            update_stat_register(memory);
        }
        vblank
    }

    fn step_vblank(&mut self, cycles: i32, memory: &mut Memory)
        requires
            old(self).wf(old(memory)@),
            !old(memory)@.screen_disabled,
            old(memory)@.lcd_status_mode == VBLANK,
            0 <= cycles <= MAX_STEP_CYCLES,
        ensures
            final(self).wf(final(memory)@),
            forall|screen: Seq<Color>|
                (machine(*final(self), final(memory)@, screen), false)
                    == #[trigger] vblank_step(
                    machine(*old(self), old(memory)@, screen),
                    cycles as int,
                ),
    {
        memory.gpu_cycles.cycles_counter += cycles;
        memory.gpu_cycles.aux_cycles_counter += cycles;
        if memory.gpu_cycles.aux_cycles_counter >= SCANLINE_CYCLES {
            memory.gpu_cycles.aux_cycles_counter -= SCANLINE_CYCLES;
            self.vblank_line += 1;
            if self.vblank_line <= 9 {
                memory.scan_line += 1;
                memory.compare_ly_to_lyc();
            }
        }
        if memory.gpu_cycles.cycles_counter >= WRAP_CYCLES
            && memory.gpu_cycles.aux_cycles_counter >= 4 && memory.scan_line == 153 {
            memory.scan_line = 0;
            memory.compare_ly_to_lyc();
        }
        if memory.gpu_cycles.cycles_counter >= VBLANK_CYCLES {
            memory.gpu_cycles.cycles_counter -= VBLANK_CYCLES;
            memory.lcd_status_mode = OAM_SCAN;
            update_stat_register(memory);
            assert_source(memory, 0x0A, STAT_OAM, SIGNAL_OAM, 0x0D);
        }
    }

    fn step_oam(&mut self, cycles: i32, memory: &mut Memory)
        requires
            old(self).wf(old(memory)@),
            !old(memory)@.screen_disabled,
            old(memory)@.lcd_status_mode == OAM_SCAN,
            0 <= cycles <= MAX_STEP_CYCLES,
        ensures
            final(self).wf(final(memory)@),
            forall|screen: Seq<Color>|
                (machine(*final(self), final(memory)@, screen), false)
                    == #[trigger] oam_step(
                    machine(*old(self), old(memory)@, screen),
                    cycles as int,
                ),
    {
        memory.gpu_cycles.cycles_counter += cycles;
        if memory.gpu_cycles.cycles_counter >= OAM_SCAN_CYCLES {
            memory.gpu_cycles.cycles_counter -= OAM_SCAN_CYCLES;
            memory.lcd_status_mode = LCD_TRANSFER;
            self.scan_line_transfered = false;
            memory.irq48_signal = memory.irq48_signal & 0x08;
            update_stat_register(memory);
        }
    }

    fn pump_pixels<T: PixelMapper>(&mut self, cycles: i32, memory: &mut Memory, system: &mut T)
        requires
            old(memory)@.wf(),
            old(system).sink_wf(),
            old(memory)@.scan_line <= 143,
            0 <= old(self).tile_cycles_counter <= 1000,
            0 <= old(memory)@.gpu_cycles.pixel_counter <= 160,
            old(memory)@.gpu_cycles.pixel_counter % 4 == 0,
            0 <= cycles <= MAX_STEP_CYCLES,
        ensures
            final(system).sink_wf(),
            machine(*final(self), final(memory)@, final(system).pixels()) == pumped(
                machine(*old(self), old(memory)@, old(system).pixels()),
                cycles as int,
            ),
    {
        let ghost m = memory@;
        let ghost before = system.pixels();
        let start: i32 = memory.gpu_cycles.pixel_counter;
        if start < 160 {
            self.tile_cycles_counter += cycles;
            let ghost credit = self.tile_cycles_counter;
            let lcd_control: u8 = memory.read_byte(LCD_CONTROL_INDEX);
            if !memory.screen_disabled && contains(lcd_control, DISPLAY) {
                let line: i32 = memory.scan_line as i32;
                let mut pixel: i32 = start;
                let ghost mut n: int = 0;
                proof {
                    system.pixels_len();
                    assert(before =~= background_span(m, line as int, start as int, 0, before));
                }
                while self.tile_cycles_counter >= 3 && pixel < 160
                    invariant
                        memory@ == m,
                        m.wf(),
                        has_flag(m.lcd_control, DISPLAY),
                        0 <= line <= 143,
                        0 <= start < 160,
                        start % 4 == 0,
                        0 <= n,
                        pixel == start + 4 * n,
                        pixel <= 160,
                        self.tile_cycles_counter == credit - 3 * n,
                        self.tile_cycles_counter >= 0,
                        self.vblank_line == old(self).vblank_line,
                        self.scan_line_transfered == old(self).scan_line_transfered,
                        self.hide_frames == old(self).hide_frames,
                        system.sink_wf(),
                        before.len() == PIXEL_COUNT,
                        system.pixels() == background_span(
                            m,
                            line as int,
                            start as int,
                            4 * n,
                            before,
                        ),
                    decreases 160 - pixel,
                {
                    render_background(memory, line, pixel, 4, system);
                    pixel += 4;
                    self.tile_cycles_counter -= 3;
                    proof {
                        n = n + 1;
                        assert(system.pixels() =~= background_span(
                            m,
                            line as int,
                            start as int,
                            4 * n,
                            before,
                        ));
                    }
                }
                assert(n == bursts(credit as int, start as int));
                memory.gpu_cycles.pixel_counter = pixel;
            }
        }
    }

    fn step_transfer<T: PixelMapper>(&mut self, cycles: i32, memory: &mut Memory, system: &mut T)
        requires
            old(self).wf(old(memory)@),
            old(system).sink_wf(),
            !old(memory)@.screen_disabled,
            old(memory)@.lcd_status_mode == LCD_TRANSFER,
            0 <= cycles <= MAX_STEP_CYCLES,
        ensures
            final(self).wf(final(memory)@),
            final(system).sink_wf(),
            (
                machine(*final(self), final(memory)@, final(system).pixels()),
                false,
            ) == transfer_step(
                machine(*old(self), old(memory)@, old(system).pixels()),
                cycles as int,
            ),
    {
        memory.gpu_cycles.cycles_counter += cycles;
        self.pump_pixels(cycles, memory, system);
        if memory.gpu_cycles.cycles_counter >= COMPOSE_CYCLES && !self.scan_line_transfered {
            let line: i32 = memory.scan_line as i32;
            scan_line(memory, line, system);
            self.scan_line_transfered = true;
        }
        if memory.gpu_cycles.cycles_counter >= LCD_TRANSFER_CYCLES {
            memory.gpu_cycles.pixel_counter = 0;
            memory.gpu_cycles.cycles_counter -= LCD_TRANSFER_CYCLES;
            memory.lcd_status_mode = HBLANK;
            self.tile_cycles_counter = 0;
            update_stat_register(memory);
            assert_source(memory, 0x08, STAT_HBLANK, SIGNAL_HBLANK, 0xFF);
        }
    }
}

} // verus!
