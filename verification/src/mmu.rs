//! The part of the memory map that the pixel-processing unit shares with the
//! processor: video memory, the sprite table, the display registers, the
//! interrupt flags and the cycle state of the mode machine.

use vstd::prelude::*;

verus! {

pub const VIDEO_RAM_START: u16 = 0x8000;

pub const VIDEO_RAM_END: u16 = 0xA000;

pub const SPRITES_START_INDEX: u16 = 0xFE00;

pub const SPRITES_END_INDEX: u16 = 0xFEA0;

pub const INTERRUPT_FLAG_INDEX: u16 = 0xFF0F;

pub const LCD_CONTROL_INDEX: u16 = 0xFF40;

pub const LCD_INDEX: u16 = 0xFF41;

pub const SCROLL_Y_INDEX: u16 = 0xFF42;

pub const SCROLL_X_INDEX: u16 = 0xFF43;

pub const LY_INDEX: u16 = 0xFF44;

pub const LYC_INDEX: u16 = 0xFF45;

pub const BACKGROUND_PALETTE_INDEX: u16 = 0xFF47;

pub const OBJECT_PALETTE_0_INDEX: u16 = 0xFF48;

pub const OBJECT_PALETTE_1_INDEX: u16 = 0xFF49;

pub const WINDOW_Y_INDEX: u16 = 0xFF4A;

pub const WINDOW_X_INDEX: u16 = 0xFF4B;

/// Cycles that pass between the processor switching the display on and the
/// mode machine starting again.
pub const SCREEN_ENABLE_DELAY: i32 = 244;

/// The interrupts a device can request from the processor.
#[derive(Clone, Copy, Debug, PartialEq, Eq, Structural)]
pub enum Interrupt {
    Vblank,
    Lcd,
    Timer,
    Serial,
    Joypad,
}

/// The bit of the interrupt flag register that stands for `kind`.
pub open spec fn interrupt_bit(kind: Interrupt) -> u8 {
    match kind {
        Interrupt::Vblank => 0x01,
        Interrupt::Lcd => 0x02,
        Interrupt::Timer => 0x04,
        Interrupt::Serial => 0x08,
        Interrupt::Joypad => 0x10,
    }
}

/// Cycle state of the mode machine that the processor side can reset.
#[derive(Clone, Copy, Debug, PartialEq, Eq, Structural)]
pub struct GpuCycles {
    pub cycles_counter: i32,
    pub aux_cycles_counter: i32,
    pub pixel_counter: i32,
    pub screen_enable_delay_cycles: i32,
    pub window_line: u8,
}

/// The mathematical content of a `Memory`.
pub struct MemoryView {
    pub gpu_cycles: GpuCycles,
    pub screen_disabled: bool,
    pub lcd_status_mode: u8,
    pub irq48_signal: u8,
    pub scan_line: u8,
    pub interrupt_flag: u8,
    pub lcd_control: u8,
    pub lcd_status: u8,
    pub scroll_y: u8,
    pub scroll_x: u8,
    pub ly_compare: u8,
    pub background_palette: u8,
    pub object_palette_0: u8,
    pub object_palette_1: u8,
    pub window_y: u8,
    pub window_x: u8,
    pub video_ram: Seq<u8>,
    pub sprite_table: Seq<u8>,
}

impl MemoryView {
    /// Both memories have their size, the mode is one of the four, and the
    /// low two bits of the status register repeat it.
    pub open spec fn wf(self) -> bool {
        &&& self.video_ram.len() == 0x2000
        &&& self.sprite_table.len() == 0xA0
        &&& self.lcd_status_mode <= 3
        &&& self.lcd_status & 0x03 == self.lcd_status_mode
    }

    /// The byte that a read at `index` returns.
    pub open spec fn byte_at(self, index: u16) -> u8 {
        if VIDEO_RAM_START <= index < VIDEO_RAM_END {
            self.video_ram[index - VIDEO_RAM_START]
        } else if SPRITES_START_INDEX <= index < SPRITES_END_INDEX {
            self.sprite_table[index - SPRITES_START_INDEX]
        } else if index == INTERRUPT_FLAG_INDEX {
            self.interrupt_flag
        } else if index == LCD_CONTROL_INDEX {
            self.lcd_control
        } else if index == LCD_INDEX {
            self.lcd_status
        } else if index == SCROLL_Y_INDEX {
            self.scroll_y
        } else if index == SCROLL_X_INDEX {
            self.scroll_x
        } else if index == LY_INDEX {
            self.scan_line
        } else if index == LYC_INDEX {
            self.ly_compare
        } else if index == BACKGROUND_PALETTE_INDEX {
            self.background_palette
        } else if index == OBJECT_PALETTE_0_INDEX {
            self.object_palette_0
        } else if index == OBJECT_PALETTE_1_INDEX {
            self.object_palette_1
        } else if index == WINDOW_Y_INDEX {
            self.window_y
        } else if index == WINDOW_X_INDEX {
            self.window_x
        } else {
            0xFF
        }
    }

    /// The memory after `kind` was requested.
    pub open spec fn requested(self, kind: Interrupt) -> MemoryView {
        MemoryView { interrupt_flag: self.interrupt_flag | interrupt_bit(kind), ..self }
    }

    /// The memory after the status register was replaced by `value`.
    pub open spec fn with_status(self, value: u8) -> MemoryView {
        MemoryView { lcd_status: value, ..self }
    }

    /// The memory after the mode bits of the status register were made to
    /// repeat the current mode.
    pub open spec fn stat_refreshed(self) -> MemoryView {
        self.with_status((self.lcd_status & 0xFC) | (self.lcd_status_mode & 0x3))
    }

    /// The memory after the scanline was compared with the compare register.
    /// On a match the coincidence flag is set, and where the status register
    /// enables that source it joins the interrupt line, which requests the
    /// display interrupt if the line was low. Otherwise flag and source are
    /// cleared. Nothing happens while the display is off.
    pub open spec fn ly_compared(self) -> MemoryView {
        if self.screen_disabled {
            self
        } else if self.ly_compare == self.scan_line {
            let stat = self.lcd_status | 0x04;
            if stat & 0x40 == 0x40 {
                let raised = if self.irq48_signal == 0 {
                    self.requested(Interrupt::Lcd)
                } else {
                    self
                };
                MemoryView { lcd_status: stat, irq48_signal: self.irq48_signal | 0x08, ..raised }
            } else {
                MemoryView { lcd_status: stat, ..self }
            }
        } else {
            MemoryView {
                lcd_status: self.lcd_status & 0xFB,
                irq48_signal: self.irq48_signal & 0xF7,
                ..self
            }
        }
    }

    /// The memory after the display was switched off.
    pub open spec fn screen_off(self) -> MemoryView {
        MemoryView {
            screen_disabled: true,
            lcd_status: self.lcd_status & 0x7C,
            lcd_status_mode: 0,
            scan_line: 0,
            irq48_signal: 0,
            gpu_cycles: GpuCycles {
                cycles_counter: 0,
                aux_cycles_counter: 0,
                screen_enable_delay_cycles: 0,
                ..self.gpu_cycles
            },
            ..self
        }
    }

    /// The memory after the display was switched on: if it was off, the
    /// enable delay starts to run.
    pub open spec fn screen_on(self) -> MemoryView {
        if self.screen_disabled {
            MemoryView {
                gpu_cycles: GpuCycles {
                    screen_enable_delay_cycles: SCREEN_ENABLE_DELAY,
                    cycles_counter: 0,
                    ..self.gpu_cycles
                },
                ..self
            }
        } else {
            self
        }
    }

    /// The memory after the processor wrote `value` at `index`. The scanline
    /// register and the low three bits of the status register are read-only;
    /// a write to the control register switches the display on or off.
    pub open spec fn written(self, index: u16, value: u8) -> MemoryView {
        if VIDEO_RAM_START <= index < VIDEO_RAM_END {
            MemoryView {
                video_ram: self.video_ram.update(index - VIDEO_RAM_START, value),
                ..self
            }
        } else if SPRITES_START_INDEX <= index < SPRITES_END_INDEX {
            MemoryView {
                sprite_table: self.sprite_table.update(index - SPRITES_START_INDEX, value),
                ..self
            }
        } else if index == INTERRUPT_FLAG_INDEX {
            MemoryView { interrupt_flag: value, ..self }
        } else if index == LCD_CONTROL_INDEX {
            let stored = MemoryView { lcd_control: value, ..self };
            if value & 0x80 == 0x80 {
                stored.screen_on()
            } else {
                stored.screen_off()
            }
        } else if index == LCD_INDEX {
            MemoryView { lcd_status: (value & 0x78) | (self.lcd_status & 0x07), ..self }
        } else if index == SCROLL_Y_INDEX {
            MemoryView { scroll_y: value, ..self }
        } else if index == SCROLL_X_INDEX {
            MemoryView { scroll_x: value, ..self }
        } else if index == LYC_INDEX {
            MemoryView { ly_compare: value, ..self }
        } else if index == BACKGROUND_PALETTE_INDEX {
            MemoryView { background_palette: value, ..self }
        } else if index == OBJECT_PALETTE_0_INDEX {
            MemoryView { object_palette_0: value, ..self }
        } else if index == OBJECT_PALETTE_1_INDEX {
            MemoryView { object_palette_1: value, ..self }
        } else if index == WINDOW_Y_INDEX {
            MemoryView { window_y: value, ..self }
        } else if index == WINDOW_X_INDEX {
            MemoryView { window_x: value, ..self }
        } else {
            self
        }
    }
}

/// The power-on content: memories and registers zero, and the display at the
/// very start of a frame, in mode 2 of scanline 0.
pub open spec fn power_on() -> MemoryView {
    MemoryView {
        gpu_cycles: GpuCycles {
            cycles_counter: 0,
            aux_cycles_counter: 0,
            pixel_counter: 0,
            screen_enable_delay_cycles: 0,
            window_line: 0,
        },
        screen_disabled: false,
        lcd_status_mode: 2,
        irq48_signal: 0,
        scan_line: 0,
        interrupt_flag: 0,
        lcd_control: 0,
        lcd_status: 2,
        scroll_y: 0,
        scroll_x: 0,
        ly_compare: 0,
        background_palette: 0,
        object_palette_0: 0,
        object_palette_1: 0,
        window_y: 0,
        window_x: 0,
        video_ram: Seq::new(0x2000, |i: int| 0u8),
        sprite_table: Seq::new(0xA0, |i: int| 0u8),
    }
}

/// Video memory, sprite table, display registers and shared cycle state.
pub struct Memory {
    pub gpu_cycles: GpuCycles,
    pub screen_disabled: bool,
    pub lcd_status_mode: u8,
    pub irq48_signal: u8,
    pub scan_line: u8,
    pub interrupt_flag: u8,
    pub lcd_control: u8,
    pub lcd_status: u8,
    pub scroll_y: u8,
    pub scroll_x: u8,
    pub ly_compare: u8,
    pub background_palette: u8,
    pub object_palette_0: u8,
    pub object_palette_1: u8,
    pub window_y: u8,
    pub window_x: u8,
    pub video_ram: Vec<u8>,
    pub sprite_table: Vec<u8>,
}

/// A vector of `len` zero bytes.
fn zeroed(len: usize) -> (bytes: Vec<u8>)
    ensures
        bytes@ == Seq::new(len as nat, |i: int| 0u8),
{
    let mut bytes: Vec<u8> = Vec::new();
    let mut n: usize = 0;
    while n < len
        invariant
            n <= len,
            bytes@.len() == n,
            forall|k: int| 0 <= k < n ==> bytes@[k] == 0,
        decreases len - n,
    {
        bytes.push(0);
        n += 1;
    }
    assert(bytes@ =~= Seq::new(len as nat, |i: int| 0u8));
    bytes
}

impl Memory {
    pub open spec fn view(&self) -> MemoryView {
        MemoryView {
            gpu_cycles: self.gpu_cycles,
            screen_disabled: self.screen_disabled,
            lcd_status_mode: self.lcd_status_mode,
            irq48_signal: self.irq48_signal,
            scan_line: self.scan_line,
            interrupt_flag: self.interrupt_flag,
            lcd_control: self.lcd_control,
            lcd_status: self.lcd_status,
            scroll_y: self.scroll_y,
            scroll_x: self.scroll_x,
            ly_compare: self.ly_compare,
            background_palette: self.background_palette,
            object_palette_0: self.object_palette_0,
            object_palette_1: self.object_palette_1,
            window_y: self.window_y,
            window_x: self.window_x,
            video_ram: self.video_ram@,
            sprite_table: self.sprite_table@,
        }
    }

    /// The memory at power-on.
    pub fn new() -> (memory: Memory)
        ensures
            memory@ == power_on(),
            memory@.wf(),
    {
        let memory = Memory {
            gpu_cycles: GpuCycles {
                cycles_counter: 0,
                aux_cycles_counter: 0,
                pixel_counter: 0,
                screen_enable_delay_cycles: 0,
                window_line: 0,
            },
            screen_disabled: false,
            lcd_status_mode: 2,
            irq48_signal: 0,
            scan_line: 0,
            interrupt_flag: 0,
            lcd_control: 0,
            lcd_status: 2,
            scroll_y: 0,
            scroll_x: 0,
            ly_compare: 0,
            background_palette: 0,
            object_palette_0: 0,
            object_palette_1: 0,
            window_y: 0,
            window_x: 0,
            video_ram: zeroed(0x2000),
            sprite_table: zeroed(0xA0),
        };
        assert(2u8 & 0x03 == 2u8) by (bit_vector);
        memory
    }

    /// Tests whether this memory is well formed.
    pub fn is_well_formed(&self) -> (ok: bool)
        ensures
            ok == self@.wf(),
    {
        self.video_ram.len() == 0x2000 && self.sprite_table.len() == 0xA0
            && self.lcd_status_mode <= 3 && self.lcd_status & 0x03 == self.lcd_status_mode
    }

    /// Reads the byte at `index`; an address that nothing is mapped to reads
    /// as `0xFF`.
    pub fn read_byte(&self, index: u16) -> (byte: u8)
        requires
            self@.wf(),
        ensures
            byte == self@.byte_at(index),
    {
        if VIDEO_RAM_START <= index && index < VIDEO_RAM_END {
            self.video_ram[(index - VIDEO_RAM_START) as usize]
        } else if SPRITES_START_INDEX <= index && index < SPRITES_END_INDEX {
            self.sprite_table[(index - SPRITES_START_INDEX) as usize]
        } else if index == INTERRUPT_FLAG_INDEX {
            self.interrupt_flag
        } else if index == LCD_CONTROL_INDEX {
            self.lcd_control
        } else if index == LCD_INDEX {
            self.lcd_status
        } else if index == SCROLL_Y_INDEX {
            self.scroll_y
        } else if index == SCROLL_X_INDEX {
            self.scroll_x
        } else if index == LY_INDEX {
            self.scan_line
        } else if index == LYC_INDEX {
            self.ly_compare
        } else if index == BACKGROUND_PALETTE_INDEX {
            self.background_palette
        } else if index == OBJECT_PALETTE_0_INDEX {
            self.object_palette_0
        } else if index == OBJECT_PALETTE_1_INDEX {
            self.object_palette_1
        } else if index == WINDOW_Y_INDEX {
            self.window_y
        } else if index == WINDOW_X_INDEX {
            self.window_x
        } else {
            0xFF
        }
    }

    /// Stores a byte as the processor would.
    pub fn write_byte(&mut self, index: u16, value: u8)
        requires
            old(self)@.wf(),
        ensures
            final(self)@ == old(self)@.written(index, value),
            final(self)@.wf(),
    {
        if VIDEO_RAM_START <= index && index < VIDEO_RAM_END {
            self.video_ram.set((index - VIDEO_RAM_START) as usize, value);
        } else if SPRITES_START_INDEX <= index && index < SPRITES_END_INDEX {
            self.sprite_table.set((index - SPRITES_START_INDEX) as usize, value);
        } else if index == INTERRUPT_FLAG_INDEX {
            self.interrupt_flag = value;
        } else if index == LCD_CONTROL_INDEX {
            self.lcd_control = value;
            if value & 0x80 == 0x80 {
                self.enable_screen();
            } else {
                self.disable_screen();
            }
        } else if index == LCD_INDEX {
            let kept: u8 = self.lcd_status;
            assert(((value & 0x78) | (kept & 0x07)) & 0x03 == kept & 0x03) by (bit_vector);
            self.lcd_status = (value & 0x78) | (kept & 0x07);
        } else if index == SCROLL_Y_INDEX {
            self.scroll_y = value;
        } else if index == SCROLL_X_INDEX {
            self.scroll_x = value;
        } else if index == LYC_INDEX {
            self.ly_compare = value;
        } else if index == BACKGROUND_PALETTE_INDEX {
            self.background_palette = value;
        } else if index == OBJECT_PALETTE_0_INDEX {
            self.object_palette_0 = value;
        } else if index == OBJECT_PALETTE_1_INDEX {
            self.object_palette_1 = value;
        } else if index == WINDOW_Y_INDEX {
            self.window_y = value;
        } else if index == WINDOW_X_INDEX {
            self.window_x = value;
        }
    }

    /// Sets the bit of `kind` in the interrupt flag register.
    pub fn request_interrupt(&mut self, kind: Interrupt)
        ensures
            final(self)@ == old(self)@.requested(kind),
    {
        let bit: u8 = match kind {
            Interrupt::Vblank => 0x01,
            Interrupt::Lcd => 0x02,
            Interrupt::Timer => 0x04,
            Interrupt::Serial => 0x08,
            Interrupt::Joypad => 0x10,
        };
        self.interrupt_flag = self.interrupt_flag | bit;
    }

    /// The status register.
    pub fn get_lcd_status_from_memory(&self) -> (stat: u8)
        ensures
            stat == self@.lcd_status,
    {
        self.lcd_status
    }

    /// Replaces the status register.
    pub fn set_lcd_status_from_memory(&mut self, value: u8)
        ensures
            final(self)@ == old(self)@.with_status(value),
    {
        self.lcd_status = value;
    }

    /// Compares the scanline with the compare register and updates the
    /// coincidence flag and the interrupt line.
    pub fn compare_ly_to_lyc(&mut self)
        requires
            old(self)@.wf(),
        ensures
            final(self)@ == old(self)@.ly_compared(),
            final(self)@.wf(),
    {
        if !self.screen_disabled {
            let stat: u8 = self.lcd_status;
            assert((stat | 0x04) & 0x03 == stat & 0x03) by (bit_vector);
            assert((stat & 0xFB) & 0x03 == stat & 0x03) by (bit_vector);
            if self.ly_compare == self.scan_line {
                let flagged: u8 = stat | 0x04;
                if flagged & 0x40 == 0x40 {
                    if self.irq48_signal == 0 {
                        self.request_interrupt(Interrupt::Lcd);
                    }
                    self.irq48_signal = self.irq48_signal | 0x08;
                }
                self.lcd_status = flagged;
            } else {
                self.lcd_status = stat & 0xFB;
                self.irq48_signal = self.irq48_signal & 0xF7;
            }
        }
    }

    /// Switches the display off: mode, scanline, cycle counters and the
    /// interrupt line go back to zero.
    pub fn disable_screen(&mut self)
        requires
            old(self)@.wf(),
        ensures
            final(self)@ == old(self)@.screen_off(),
            final(self)@.wf(),
    {
        let stat: u8 = self.lcd_status;
        assert((stat & 0x7C) & 0x03 == 0) by (bit_vector);
        self.screen_disabled = true;
        self.lcd_status = stat & 0x7C;
        self.lcd_status_mode = 0;
        self.scan_line = 0;
        self.irq48_signal = 0;
        self.gpu_cycles.cycles_counter = 0;
        self.gpu_cycles.aux_cycles_counter = 0;
        self.gpu_cycles.screen_enable_delay_cycles = 0;
    }

    /// Switches the display on: if it was off, the enable delay starts.
    pub fn enable_screen(&mut self)
        requires
            old(self)@.wf(),
        ensures
            final(self)@ == old(self)@.screen_on(),
            final(self)@.wf(),
    {
        if self.screen_disabled {
            self.gpu_cycles.screen_enable_delay_cycles = SCREEN_ENABLE_DELAY;
            self.gpu_cycles.cycles_counter = 0;
        }
    }
}

} // verus!
