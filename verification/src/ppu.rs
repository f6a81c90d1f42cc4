//! Picture unit.
//!
//! The screen shows 160 by 144 pixels of a background of 32 by 32 tiles, a window over
//! it, and up to forty sprites, ten to a line. A line takes 456 dots: the unit scans the
//! sprite table for 80 of them, reads it for 172 and rests for 204. After the last line it
//! rests for ten more lines, the vertical blank, in which the frame can be picked up.
use vstd::prelude::*;

use crate::codec::{
    flag_at, flag_byte, found_at, le16, lemma_found_is_subrange, lemma_found_split,
    lemma_u16_found, put_bytes, put_flag, put_u16, take_bytes, take_flag, take_u16, take_u8,
    u16_at,
};
use crate::error::Error;
use crate::interrupts::Interrupt;

use self::frame_buffer::{FrameBuffer, FrameView, LCD_PIXELS};
use self::lcd::{LcdControl, LcdStat, StatMode};
use self::sprites::Sprite;
use self::vram::{Vram, VramView};

pub mod color;
pub mod frame_buffer;
pub mod laws;
pub mod lcd;
pub mod picture_laws;
pub mod render;
pub mod sprite_laws;
pub mod sprites;
pub mod vram;

verus! {

pub const DOTS_PER_LINE: u16 = 456;

pub const VBLANK_START_LINE: u8 = 144;

pub const TOTAL_LINES: u8 = 154;

pub const OAM_SCAN_DOTS: u16 = 80;

pub const OAM_READ_DOTS: u16 = 172;

pub const HBLANK_DOTS: u16 = 204;

pub const VBLANK_DOTS: u16 = 4560;

/// Picture unit.
pub struct Ppu {
    /// Video memory (0x8000-0x9FFF).
    pub vram: Vram,
    /// Sprite table (0xFE00-0xFE9F).
    pub oam: Vec<u8>,
    /// Control register (0xFF40).
    pub lcdc: LcdControl,
    /// Status register (0xFF41).
    pub stat: LcdStat,
    /// Position of the screen in the background (0xFF42, 0xFF43).
    pub scy: u8,
    pub scx: u8,
    /// Current line, and the line to compare it with (0xFF44, 0xFF45).
    pub ly: u8,
    pub lyc: u8,
    /// Source of a sprite table transfer (0xFF46).
    pub oam_dma: u8,
    pub oam_dma_active: bool,
    /// Monochrome palettes (0xFF47-0xFF49).
    pub bgp: u8,
    pub obp0: u8,
    pub obp1: u8,
    /// Position of the window (0xFF4A, 0xFF4B).
    pub wy: u8,
    pub wx: u8,
    /// Line of the window that is drawn next.
    pub window_line_counter: u8,
    /// Indices into the color palettes (0xFF68, 0xFF6A).
    pub bcps: u8,
    pub ocps: u8,
    /// Sprite priority mode (0xFF6C).
    pub opri: u8,
    /// Color palettes of the background and of the sprites.
    pub bg_palette_ram: Vec<u8>,
    pub sprite_palette_ram: Vec<u8>,
    /// The frame that is being drawn.
    pub frame_buffer: FrameBuffer,
    /// Sprites of the current line.
    pub sprites: Vec<Sprite>,
    /// Dot within the current line.
    pub dot: u16,
    /// The status interrupt line was raised at the last step.
    pub prev_stat_interrupt: bool,
    /// Color machine.
    pub cgb: bool,
}

/// What a picture unit holds.
#[verifier::ext_equal]
pub struct PpuView {
    pub vram: VramView,
    pub oam: Seq<u8>,
    pub lcdc: LcdControl,
    pub stat: LcdStat,
    pub scy: u8,
    pub scx: u8,
    pub ly: u8,
    pub lyc: u8,
    pub oam_dma: u8,
    pub oam_dma_active: bool,
    pub bgp: u8,
    pub obp0: u8,
    pub obp1: u8,
    pub wy: u8,
    pub wx: u8,
    pub window_line_counter: u8,
    pub bcps: u8,
    pub ocps: u8,
    pub opri: u8,
    pub bg_palette_ram: Seq<u8>,
    pub sprite_palette_ram: Seq<u8>,
    pub frame_buffer: FrameView,
    pub sprites: Seq<Sprite>,
    pub dot: u16,
    pub prev_stat_interrupt: bool,
    pub cgb: bool,
}

impl View for Ppu {
    type V = PpuView;

    open spec fn view(&self) -> PpuView {
        PpuView {
            vram: self.vram@,
            oam: self.oam@,
            lcdc: self.lcdc,
            stat: self.stat,
            scy: self.scy,
            scx: self.scx,
            ly: self.ly,
            lyc: self.lyc,
            oam_dma: self.oam_dma,
            oam_dma_active: self.oam_dma_active,
            bgp: self.bgp,
            obp0: self.obp0,
            obp1: self.obp1,
            wy: self.wy,
            wx: self.wx,
            window_line_counter: self.window_line_counter,
            bcps: self.bcps,
            ocps: self.ocps,
            opri: self.opri,
            bg_palette_ram: self.bg_palette_ram@,
            sprite_palette_ram: self.sprite_palette_ram@,
            frame_buffer: self.frame_buffer@,
            sprites: self.sprites@,
            dot: self.dot,
            prev_stat_interrupt: self.prev_stat_interrupt,
            cgb: self.cgb,
        }
    }
}

/// The unit answers at this address.
pub open spec fn ppu_addr(addr: u16) -> bool {
    ||| 0x8000 <= addr <= 0x9FFF
    ||| 0xFE00 <= addr <= 0xFE9F
    ||| 0xFF40 <= addr <= 0xFF4B
    ||| addr == 0xFF4F
    ||| 0xFF68 <= addr <= 0xFF6C
}

/// A palette index register after a write to its data register: the index, its low six
/// bits, moves on to the next and from the last to the first, if the highest bit asks for
/// it.
pub open spec fn palette_index_next(reg: u8) -> u8 {
    if reg & 0x80 != 0 {
        (reg - reg % 64 + (reg % 64 + 1) % 64) as u8
    } else {
        reg
    }
}

impl PpuView {
    /// All memories have their size, and the video memory has an active bank.
    pub open spec fn wf(self) -> bool {
        &&& self.vram.wf()
        &&& self.oam.len() == 160
        &&& self.bg_palette_ram.len() == 64
        &&& self.sprite_palette_ram.len() == 64
        &&& self.frame_buffer.data.len() == LCD_PIXELS
    }

    pub open spec fn zero(cgb: bool, boot_rom: bool) -> PpuView {
        PpuView {
            vram: VramView::zero(cgb),
            oam: Seq::new(160, |i: int| 0u8),
            lcdc: LcdControl { raw: if boot_rom { 0 } else { 0x91 } },
            stat: LcdStat { raw: 0 },
            scy: 0,
            scx: 0,
            ly: 0,
            lyc: 0,
            oam_dma: 0,
            oam_dma_active: false,
            bgp: 0xFC,
            obp0: 0xFF,
            obp1: 0xFF,
            wy: 0,
            wx: 0,
            window_line_counter: 0,
            bcps: 0,
            ocps: 0,
            opri: 0,
            bg_palette_ram: Seq::new(64, |i: int| 0xFFu8),
            sprite_palette_ram: Seq::new(64, |i: int| 0xFFu8),
            frame_buffer: FrameView::blank(),
            sprites: Seq::empty(),
            dot: 0,
            prev_stat_interrupt: false,
            cgb,
        }
    }

    /// The mode in which a dot of a line lies.
    pub open spec fn mode_at(line: u8, dot: u16) -> StatMode {
        if line >= VBLANK_START_LINE {
            StatMode::Vblank
        } else if dot < OAM_SCAN_DOTS {
            StatMode::OamScan
        } else if dot < OAM_SCAN_DOTS + OAM_READ_DOTS {
            StatMode::OamRead
        } else {
            StatMode::Hblank
        }
    }

    /// The dot, line and mode after `cycles` cycles, which are half as many dots at
    /// double speed. One step moves on by at most one line.
    pub open spec fn next_dot(self, cycles: u16, speed: bool) -> (u16, u8, StatMode) {
        let dot = self.dot.wrapping_add(if speed { cycles / 2 } else { cycles });
        let (dot, line) = if dot >= DOTS_PER_LINE {
            ((dot - DOTS_PER_LINE) as u16, self.ly.wrapping_add(1))
        } else {
            (dot, self.ly)
        };
        let line = if line == TOTAL_LINES { 0 } else { line };
        (dot, line, Self::mode_at(line, dot))
    }

    /// The status interrupt line is up in this mode.
    pub open spec fn stat_line(self, mode: StatMode) -> bool {
        (self.ly == self.lyc && self.stat.raw & 0x40 != 0) || self.stat.mode_source_on(mode)
    }

    /// The status after a move to `mode`.
    pub open spec fn status_updated(self, mode: StatMode) -> PpuView {
        PpuView {
            stat: self.stat.showing(mode, self.ly == self.lyc),
            prev_stat_interrupt: self.stat_line(mode),
            ..self
        }
    }

    /// Interrupts that a move to `mode` raises: the blank on entering it, and the status
    /// interrupt as its line goes up.
    pub open spec fn raised(self, mode: StatMode) -> Seq<Interrupt> {
        let vblank = if mode == StatMode::Vblank && self.stat.shown_mode() != mode {
            seq![Interrupt::Vblank]
        } else {
            Seq::empty()
        };
        if !self.prev_stat_interrupt && self.stat_line(mode) {
            vblank.push(Interrupt::LcdStat)
        } else {
            vblank
        }
    }

    /// The unit at its next dot, before the status is updated.
    pub open spec fn moved(self, cycles: u16, speed: bool) -> PpuView {
        let (dot, line, mode) = self.next_dot(cycles, speed);
        PpuView { dot, ly: line, ..self }
    }

    /// The unit after `cycles` cycles. It stands still while the display is off, and draws
    /// when it enters a mode.
    pub open spec fn stepped(self, cycles: u16, speed: bool) -> PpuView {
        let mode = self.next_dot(cycles, speed).2;
        let moved = self.moved(cycles, speed);
        if !self.lcdc.display_on() {
            self
        } else if self.stat.shown_mode() != mode {
            moved.status_updated(mode).rendered()
        } else {
            moved.status_updated(mode)
        }
    }

    /// Interrupts raised within `cycles` cycles.
    pub open spec fn interrupts(self, cycles: u16, speed: bool) -> Seq<Interrupt> {
        if self.lcdc.display_on() {
            self.moved(cycles, speed).raised(self.next_dot(cycles, speed).2)
        } else {
            Seq::empty()
        }
    }

    /// The processor cannot reach the video memory.
    pub open spec fn vram_blocked(self) -> bool {
        self.lcdc.display_on() && self.stat.shown_mode() == StatMode::OamRead
    }

    /// The processor cannot write the sprite table.
    pub open spec fn oam_blocked(self) -> bool {
        self.lcdc.display_on() && (self.stat.shown_mode() == StatMode::OamScan
            || self.stat.shown_mode() == StatMode::OamRead)
    }

    /// The value at `addr`.
    pub open spec fn register(self, addr: u16) -> u8
        recommends
            ppu_addr(addr),
    {
        if 0x8000 <= addr <= 0x9FFF {
            if self.vram_blocked() {
                0xFF
            } else {
                self.vram.byte(addr)
            }
        } else if addr == 0xFF4F {
            self.vram.active_bank | 0xFE
        } else if 0xFE00 <= addr <= 0xFE9F {
            self.oam[addr - 0xFE00]
        } else if addr == 0xFF40 {
            self.lcdc.raw
        } else if addr == 0xFF41 {
            self.stat.raw
        } else if addr == 0xFF42 {
            self.scy
        } else if addr == 0xFF43 {
            self.scx
        } else if addr == 0xFF44 {
            self.ly
        } else if addr == 0xFF45 {
            self.lyc
        } else if addr == 0xFF46 {
            self.oam_dma
        } else if addr == 0xFF47 {
            self.bgp
        } else if addr == 0xFF48 {
            self.obp0
        } else if addr == 0xFF49 {
            self.obp1
        } else if addr == 0xFF4A {
            self.wy
        } else if addr == 0xFF4B {
            self.wx
        } else if addr == 0xFF68 {
            self.bcps
        } else if addr == 0xFF69 {
            self.bg_palette_ram[self.bcps as int % 64]
        } else if addr == 0xFF6A {
            self.ocps
        } else if addr == 0xFF6B {
            self.sprite_palette_ram[self.ocps as int % 64]
        } else {
            self.opri
        }
    }

    /// The unit after a write to a palette data register.
    pub open spec fn palette_written(self, value: u8, sprite: bool) -> PpuView {
        if sprite {
            PpuView {
                sprite_palette_ram: self.sprite_palette_ram.update(self.ocps as int % 64, value),
                ocps: palette_index_next(self.ocps),
                ..self
            }
        } else {
            PpuView {
                bg_palette_ram: self.bg_palette_ram.update(self.bcps as int % 64, value),
                bcps: palette_index_next(self.bcps),
                ..self
            }
        }
    }

    /// Write to the control register: switching the display off returns the unit to the
    /// first dot of the first line.
    pub open spec fn control_written(self, value: u8) -> PpuView {
        if value & 0x80 == 0 {
            PpuView {
                lcdc: LcdControl { raw: value },
                ly: 0,
                dot: 0,
                stat: LcdStat { raw: (self.stat.raw - self.stat.raw % 8) as u8 },
                ..self
            }
        } else {
            PpuView { lcdc: LcdControl { raw: value }, ..self }
        }
    }

    /// Write to the line register. While its highest bit is set only a value without that
    /// bit has an effect: it returns to line zero.
    pub open spec fn line_written(self, value: u8) -> PpuView {
        if self.ly & 0x80 == 0 {
            PpuView { ly: value, ..self }
        } else if value & 0x80 == 0 {
            PpuView { ly: 0, ..self }
        } else {
            self
        }
    }

    /// The unit after `value` was written to `addr`.
    pub open spec fn written(self, addr: u16, value: u8) -> PpuView
        recommends
            ppu_addr(addr),
    {
        if 0x8000 <= addr <= 0x9FFF {
            PpuView { vram: self.vram.written(addr, value), ..self }
        } else if addr == 0xFF4F {
            PpuView { vram: self.vram.bank_selected(value), ..self }
        } else if 0xFE00 <= addr <= 0xFE9F {
            if self.oam_blocked() {
                self
            } else {
                PpuView { oam: self.oam.update(addr - 0xFE00, value), ..self }
            }
        } else if addr == 0xFF40 {
            self.control_written(value)
        } else if addr == 0xFF41 {
            PpuView {
                stat: LcdStat { raw: (value - value % 8 + self.stat.raw % 8) as u8 },
                ..self
            }
        } else if addr == 0xFF42 {
            PpuView { scy: value, ..self }
        } else if addr == 0xFF43 {
            PpuView { scx: value, ..self }
        } else if addr == 0xFF44 {
            self.line_written(value)
        } else if addr == 0xFF45 {
            PpuView { lyc: value, ..self }
        } else if addr == 0xFF46 {
            PpuView { oam_dma: value, oam_dma_active: true, ..self }
        } else if addr == 0xFF47 {
            PpuView { bgp: value, ..self }
        } else if addr == 0xFF48 {
            PpuView { obp0: value, ..self }
        } else if addr == 0xFF49 {
            PpuView { obp1: value, ..self }
        } else if addr == 0xFF4A {
            PpuView { wy: value, ..self }
        } else if addr == 0xFF4B {
            PpuView { wx: value, ..self }
        } else if addr == 0xFF68 {
            PpuView { bcps: value, ..self }
        } else if addr == 0xFF69 {
            self.palette_written(value, false)
        } else if addr == 0xFF6A {
            PpuView { ocps: value, ..self }
        } else if addr == 0xFF6B {
            self.palette_written(value, true)
        } else {
            PpuView { opri: value, ..self }
        }
    }

    /// How long a mode lasts, in cycles.
    pub open spec fn mode_cycles(mode: StatMode, speed: bool) -> int {
        let dots = match mode {
            StatMode::OamScan => OAM_SCAN_DOTS,
            StatMode::OamRead => OAM_READ_DOTS,
            StatMode::Hblank => HBLANK_DOTS,
            StatMode::Vblank => VBLANK_DOTS,
        };
        if speed {
            2 * dots
        } else {
            dots as int
        }
    }

    /// Position of the beam in the frame, in dots from its start.
    pub open spec fn position(self) -> int {
        DOTS_PER_LINE * self.ly + self.dot
    }

    /// The beam is inside the frame.
    pub open spec fn in_frame(self) -> bool {
        self.dot < DOTS_PER_LINE && self.ly < TOTAL_LINES
    }

    /// The registers in their stored order.
    #[verifier::opaque]
    pub open spec fn encode_registers(self) -> Seq<u8> {
        seq![
            self.lcdc.raw,
            self.stat.raw,
            self.scy,
            self.scx,
            self.ly,
            self.lyc,
            self.oam_dma,
            flag_byte(self.oam_dma_active),
            self.bgp,
            self.obp0,
            self.obp1,
            self.wy,
            self.wx,
            self.window_line_counter,
            self.bcps,
            self.ocps,
            self.opri,
        ]
    }

    /// The stored form. The sprites of the current line are no part of it.
    #[verifier::opaque]
    pub open spec fn encode(self) -> Seq<u8> {
        self.vram.encode() + self.oam + self.encode_registers() + self.bg_palette_ram
            + self.sprite_palette_ram + self.frame_buffer.encode() + le16(self.dot) + seq![
            flag_byte(self.prev_stat_interrupt),
            flag_byte(self.cgb),
        ]
    }

    /// Bytes of the unit that is stored at `i`.
    pub open spec fn stored_len(s: Seq<u8>, i: int) -> int {
        16695 + FrameView::stored_len(s, i + 16691)
    }

    /// A whole unit is stored at `i`.
    pub open spec fn stored_at(s: Seq<u8>, i: int) -> bool {
        &&& 0 <= i
        &&& FrameView::stored_at(s, i + 16691)
        &&& i + Self::stored_len(s, i) <= s.len()
    }

    /// What is stored at `i`.
    #[verifier::opaque]
    pub open spec fn decode(s: Seq<u8>, i: int) -> PpuView {
        let r = i + 16546;
        let t = i + 16691 + FrameView::stored_len(s, i + 16691);
        PpuView {
            vram: VramView::decode(s, i),
            oam: s.subrange(i + 16386, i + 16546),
            lcdc: LcdControl { raw: s[r] },
            stat: LcdStat { raw: s[r + 1] },
            scy: s[r + 2],
            scx: s[r + 3],
            ly: s[r + 4],
            lyc: s[r + 5],
            oam_dma: s[r + 6],
            oam_dma_active: flag_at(s, r + 7),
            bgp: s[r + 8],
            obp0: s[r + 9],
            obp1: s[r + 10],
            wy: s[r + 11],
            wx: s[r + 12],
            window_line_counter: s[r + 13],
            bcps: s[r + 14],
            ocps: s[r + 15],
            opri: s[r + 16],
            bg_palette_ram: s.subrange(i + 16563, i + 16627),
            sprite_palette_ram: s.subrange(i + 16627, i + 16691),
            frame_buffer: FrameView::decode(s, i + 16691),
            sprites: Seq::empty(),
            dot: u16_at(s, t),
            prev_stat_interrupt: flag_at(s, t + 2),
            cgb: flag_at(s, t + 3),
        }
    }
}

impl Ppu {
    pub const OAM_START_ADDR: u16 = 0xFE00;

    pub const OAM_LAST_ADDR: u16 = 0xFE9F;

    /// All memories have their size, and the decoded tiles are those of the video memory.
    pub open spec fn wf(&self) -> bool {
        self@.wf() && self.vram.wf()
    }

    /// A unit at power-on; without a boot ROM the display is on already.
    pub fn new(cgb: bool, boot_rom: bool) -> (r: Self)
        ensures
            r@ == PpuView::zero(cgb, boot_rom),
            r.wf(),
    {
        let r = Self {
            vram: Vram::new(cgb),
            oam: vec![0u8; 160],
            lcdc: LcdControl::new(boot_rom),
            stat: LcdStat::new(),
            scy: 0,
            scx: 0,
            ly: 0,
            lyc: 0,
            oam_dma: 0,
            oam_dma_active: false,
            bgp: 0xFC,
            obp0: 0xFF,
            obp1: 0xFF,
            wy: 0,
            wx: 0,
            window_line_counter: 0,
            bcps: 0,
            ocps: 0,
            opri: 0,
            bg_palette_ram: vec![0xFFu8; 64],
            sprite_palette_ram: vec![0xFFu8; 64],
            frame_buffer: FrameBuffer::new(),
            sprites: Vec::new(),
            dot: 0,
            prev_stat_interrupt: false,
            cgb,
        };
        assert(r@ =~= PpuView::zero(cgb, boot_rom));
        r
    }

    /// The next dot, line and mode.
    fn get_next_dot(&self, cycles: u16, speed: bool) -> (r: (u16, u8, StatMode))
        ensures
            r == self@.next_dot(cycles, speed),
    {
        let mut line = self.ly;
        let dots: u16 = if speed { cycles / 2 } else { cycles };
        let mut dot = self.dot.wrapping_add(dots);
        if dot >= DOTS_PER_LINE {
            line = line.wrapping_add(1);
            dot = dot - DOTS_PER_LINE;
        }
        if line == TOTAL_LINES {
            line = 0;
        }
        let mode = if line < VBLANK_START_LINE {
            if dot < OAM_SCAN_DOTS {
                StatMode::OamScan
            } else if dot < OAM_SCAN_DOTS + OAM_READ_DOTS {
                StatMode::OamRead
            } else {
                StatMode::Hblank
            }
        } else {
            StatMode::Vblank
        };
        (dot, line, mode)
    }

    /// Runs the unit for some cycles and appends the interrupts that it raises.
    pub fn step(&mut self, cycles: u16, speed: bool, interrupts: &mut Vec<Interrupt>)
        requires
            old(self).wf(),
        ensures
            final(self)@ == old(self)@.stepped(cycles, speed),
            final(interrupts)@ == old(interrupts)@ + old(self)@.interrupts(cycles, speed),
            final(self).wf(),
    {
        if !self.lcdc.lcd_display_enable() {
            assert(interrupts@ =~= old(interrupts)@ + old(self)@.interrupts(cycles, speed));
            return;
        }
        let (dot, line, mode) = self.get_next_dot(cycles, speed);
        self.dot = dot;
        self.ly = line;
        assert(self@ =~= old(self)@.moved(cycles, speed));
        let mode_change = self.update_status(mode, interrupts);
        if mode_change {
            proof {
                old(self)@.stat.law_shows_mode(mode, line == old(self)@.lyc);
            }
            self.render();
        }
    }

    /// Moves the status on to `mode` and says whether that is another mode.
    fn update_status(&mut self, mode: StatMode, interrupts: &mut Vec<Interrupt>) -> (r: bool)
        requires
            old(self).wf(),
        ensures
            r == (old(self)@.stat.shown_mode() != mode),
            final(self)@ == old(self)@.status_updated(mode),
            final(interrupts)@ == old(interrupts)@ + old(self)@.raised(mode),
            final(self).wf(),
    {
        let coincidence = self.ly == self.lyc;
        let mode_change = self.stat.mode() != mode;
        if mode_change && mode == StatMode::Vblank {
            interrupts.push(Interrupt::Vblank);
        }
        let stat_interrupt = (coincidence && self.stat.ly_enabled()) || match mode {
            StatMode::Hblank => self.stat.hblank_enabled(),
            StatMode::Vblank => self.stat.vblank_enabled(),
            StatMode::OamScan => self.stat.oam_enabled(),
            StatMode::OamRead => self.stat.oam_enabled(),
        };
        if !self.prev_stat_interrupt && stat_interrupt {
            interrupts.push(Interrupt::LcdStat);
        }
        assert(interrupts@ =~= old(interrupts)@ + old(self)@.raised(mode));
        self.stat.show(mode, coincidence);
        self.prev_stat_interrupt = stat_interrupt;
        mode_change
    }

    /// The mode after some cycles, and how many cycles that mode lasts.
    pub fn next_mode(&self, cycles: u16, speed: bool) -> (r: (StatMode, u16))
        ensures
            r.0 == self@.next_dot(cycles, speed).2,
            r.1 == PpuView::mode_cycles(r.0, speed),
    {
        let (_, _, mode) = self.get_next_dot(cycles, speed);
        let dots: u16 = match mode {
            StatMode::OamScan => OAM_SCAN_DOTS,
            StatMode::OamRead => OAM_READ_DOTS,
            StatMode::Hblank => HBLANK_DOTS,
            StatMode::Vblank => VBLANK_DOTS,
        };
        let cycles_in_mode: u16 = if speed { dots * 2 } else { dots };
        (mode, cycles_in_mode)
    }

    /// Writes a palette data register.
    fn palette_write(&mut self, value: u8, sprite: bool)
        requires
            old(self).wf(),
        ensures
            final(self)@ == old(self)@.palette_written(value, sprite),
            final(self).wf(),
    {
        if sprite {
            let index: usize = (self.ocps % 64) as usize;
            self.sprite_palette_ram[index] = value;
            self.ocps = next_palette_index(self.ocps);
        } else {
            let index: usize = (self.bcps % 64) as usize;
            self.bg_palette_ram[index] = value;
            self.bcps = next_palette_index(self.bcps);
        }
        assert(self@ =~= old(self)@.palette_written(value, sprite));
    }

    /// Reads a palette data register.
    fn palette_read(&self, sprite: bool) -> (r: u8)
        requires
            self@.wf(),
        ensures
            r == if sprite {
                self@.sprite_palette_ram[self@.ocps as int % 64]
            } else {
                self@.bg_palette_ram[self@.bcps as int % 64]
            },
    {
        if sprite {
            self.sprite_palette_ram[(self.ocps % 64) as usize]
        } else {
            self.bg_palette_ram[(self.bcps % 64) as usize]
        }
    }

    /// The processor cannot reach the video memory.
    fn vram_locked(&self) -> (r: bool)
        ensures
            r == self@.vram_blocked(),
    {
        self.lcdc.lcd_display_enable() && self.stat.mode() == StatMode::OamRead
    }

    /// The processor cannot write the sprite table.
    pub fn oam_locked(&self) -> (r: bool)
        ensures
            r == self@.oam_blocked(),
    {
        self.lcdc.lcd_display_enable() && (self.stat.mode() == StatMode::OamScan
            || self.stat.mode() == StatMode::OamRead)
    }

    pub fn vram(&self) -> (r: &Vram)
        ensures
            *r == self.vram,
    {
        &self.vram
    }

    pub fn vram_mut(&mut self) -> (r: &mut Vram)
        ensures
            *r == old(self).vram,
            final(self).vram == *final(r),
            final(self)@ == (PpuView { vram: final(r)@, ..old(self)@ }),
    {
        &mut self.vram
    }

    /// Hands out a complete frame, once.
    pub fn frame_buffer(&mut self) -> (r: Option<&FrameBuffer>)
        ensures
            r is Some <==> old(self)@.frame_buffer.ready,
            r matches Some(frame) ==> frame@ == (FrameView {
                ready: false,
                ..old(self)@.frame_buffer
            }),
            final(self)@ == (PpuView {
                frame_buffer: FrameView { ready: false, ..old(self)@.frame_buffer },
                ..old(self)@
            }),
            old(self).wf() ==> final(self).wf(),
    {
        if self.frame_buffer.ready {
            self.frame_buffer.ready = false;
            Some(&self.frame_buffer)
        } else {
            None
        }
    }

    /// A frame is complete and has not been handed out.
    pub fn is_frame_ready(&self) -> (r: bool)
        ensures
            r == self@.frame_buffer.ready,
    {
        self.frame_buffer.ready
    }

    /// The raw control register.
    pub fn lcdc(&self) -> (r: u8)
        ensures
            r == self@.lcdc.raw,
    {
        self.lcdc.raw
    }

    /// The current line.
    pub fn ly(&self) -> (r: u8)
        ensures
            r == self@.ly,
    {
        self.ly
    }

    /// The number of the current mode.
    pub fn stat_mode(&self) -> (r: u8)
        ensures
            r == self@.stat.shown_mode().spec_code(),
    {
        self.stat.mode().code()
    }

    /// All memories have their size, and the video memory has an active bank.
    pub fn is_consistent(&self) -> (r: bool)
        ensures
            r == self@.wf(),
    {
        self.vram.is_consistent() && self.oam.len() == 160 && self.bg_palette_ram.len() == 64
            && self.sprite_palette_ram.len() == 64 && self.frame_buffer.data.len() == LCD_PIXELS
    }

    /// Reads memory or a register.
    pub fn read(&self, addr: u16) -> (r: u8)
        requires
            self@.wf(),
            ppu_addr(addr),
        ensures
            r == self@.register(addr),
    {
        match addr {
            0x8000..=0x9FFF => {
                if !self.vram_locked() {
                    self.vram.read(addr)
                } else {
                    0xFF
                }
            },
            0xFF4F => self.vram.active_bank | 0xFE,
            0xFE00..=0xFE9F => self.oam[(addr - Self::OAM_START_ADDR) as usize],
            0xFF40 => self.lcdc.raw,
            0xFF41 => self.stat.raw,
            0xFF42 => self.scy,
            0xFF43 => self.scx,
            0xFF44 => self.ly,
            0xFF45 => self.lyc,
            0xFF46 => self.oam_dma,
            0xFF47 => self.bgp,
            0xFF48 => self.obp0,
            0xFF49 => self.obp1,
            0xFF4A => self.wy,
            0xFF4B => self.wx,
            0xFF68 => self.bcps,
            0xFF69 => self.palette_read(false),
            0xFF6A => self.ocps,
            0xFF6B => self.palette_read(true),
            _ => self.opri,
        }
    }

    /// Writes memory or a register.
    pub fn write(&mut self, addr: u16, value: u8)
        requires
            old(self).wf(),
            ppu_addr(addr),
        ensures
            final(self)@ == old(self)@.written(addr, value),
            final(self).wf(),
    {
        match addr {
            0x8000..=0x9FFF => self.vram.write(addr, value),
            0xFF4F => self.vram.update_bank(value),
            0xFE00..=0xFE9F => {
                if !self.oam_locked() {
                    let index: usize = (addr - Self::OAM_START_ADDR) as usize;
                    self.oam[index] = value;
                }
            },
            0xFF40 => {
                self.lcdc.raw = value;
                if value & 0x80 == 0 {
                    self.ly = 0;
                    self.dot = 0;
                    self.stat.raw = self.stat.raw - self.stat.raw % 8;
                }
            },
            0xFF41 => {
                self.stat.raw = value - value % 8 + self.stat.raw % 8;
            },
            0xFF42 => {
                self.scy = value;
            },
            0xFF43 => {
                self.scx = value;
            },
            0xFF44 => {
                if self.ly & 0x80 != 0 {
                    if value & 0x80 == 0 {
                        self.ly = 0;
                    }
                } else {
                    self.ly = value;
                }
            },
            0xFF45 => {
                self.lyc = value;
            },
            0xFF46 => {
                self.oam_dma = value;
                self.oam_dma_active = true;
            },
            0xFF47 => {
                self.bgp = value;
            },
            0xFF48 => {
                self.obp0 = value;
            },
            0xFF49 => {
                self.obp1 = value;
            },
            0xFF4A => {
                self.wy = value;
            },
            0xFF4B => {
                self.wx = value;
            },
            0xFF68 => {
                self.bcps = value;
            },
            0xFF69 => self.palette_write(value, false),
            0xFF6A => {
                self.ocps = value;
            },
            0xFF6B => self.palette_write(value, true),
            _ => {
                self.opri = value;
            },
        }
        assert(self@ =~= old(self)@.written(addr, value));
    }

    /// Appends the registers.
    fn save_registers(&self, buf: &mut Vec<u8>)
        ensures
            final(buf)@ == old(buf)@ + self@.encode_registers(),
    {
        reveal(PpuView::encode_registers);
        buf.push(self.lcdc.raw);
        buf.push(self.stat.raw);
        buf.push(self.scy);
        buf.push(self.scx);
        buf.push(self.ly);
        buf.push(self.lyc);
        buf.push(self.oam_dma);
        put_flag(buf, self.oam_dma_active);
        buf.push(self.bgp);
        buf.push(self.obp0);
        buf.push(self.obp1);
        buf.push(self.wy);
        buf.push(self.wx);
        buf.push(self.window_line_counter);
        buf.push(self.bcps);
        buf.push(self.ocps);
        buf.push(self.opri);
        assert(buf@ =~= old(buf)@ + self@.encode_registers());
    }

    /// Appends the stored form.
    pub fn save_to_bytes(&self, buf: &mut Vec<u8>)
        ensures
            final(buf)@ == old(buf)@ + self@.encode(),
    {
        reveal(PpuView::encode);
        self.vram.save_to_bytes(buf);
        put_bytes(buf, self.oam.as_slice());
        self.save_registers(buf);
        put_bytes(buf, self.bg_palette_ram.as_slice());
        put_bytes(buf, self.sprite_palette_ram.as_slice());
        self.frame_buffer.save_to_bytes(buf);
        put_u16(buf, self.dot);
        put_flag(buf, self.prev_stat_interrupt);
        put_flag(buf, self.cgb);
        assert(buf@ =~= old(buf)@ + self@.encode());
    }

    /// The end of the unit that is stored at `pos`, if a whole one is.
    pub fn stored_end(data: &[u8], pos: usize) -> (r: Option<usize>)
        ensures
            r is Some <==> PpuView::stored_at(data@, pos as int),
            r matches Some(end) ==> end == pos + PpuView::stored_len(data@, pos as int) && end
                <= data@.len(),
    {
        let total: usize = data.len();
        if pos > total || total - pos < 16691 {
            return None;
        }
        match FrameBuffer::stored_end(data, pos + 16691) {
            Some(end) => if total - end < 4 {
                None
            } else {
                Some(end + 4)
            },
            None => None,
        }
    }

    /// Restores a unit that is stored at the cursor. It is valid if what is stored is.
    pub fn load_from_bytes(data: &[u8], pos: &mut usize) -> (r: Result<Self, Error>)
        requires
            PpuView::stored_at(data@, *old(pos) as int),
        ensures
            r matches Ok(ppu) && ppu@ == PpuView::decode(data@, *old(pos) as int) && (ppu@.wf()
                ==> ppu.wf()),
            *final(pos) == *old(pos) + PpuView::stored_len(data@, *old(pos) as int),
    {
        let vram = match Vram::load_from_bytes(data, pos) {
            Ok(vram) => vram,
            Err(e) => {
                return Err(e);
            },
        };
        let oam = take_bytes(data, pos, 160);
        let lcdc = LcdControl { raw: take_u8(data, pos) };
        let stat = LcdStat { raw: take_u8(data, pos) };
        let scy = take_u8(data, pos);
        let scx = take_u8(data, pos);
        let ly = take_u8(data, pos);
        let lyc = take_u8(data, pos);
        let oam_dma = take_u8(data, pos);
        let oam_dma_active = take_flag(data, pos);
        let bgp = take_u8(data, pos);
        let obp0 = take_u8(data, pos);
        let obp1 = take_u8(data, pos);
        let wy = take_u8(data, pos);
        let wx = take_u8(data, pos);
        let window_line_counter = take_u8(data, pos);
        let bcps = take_u8(data, pos);
        let ocps = take_u8(data, pos);
        let opri = take_u8(data, pos);
        let bg_palette_ram = take_bytes(data, pos, 64);
        let sprite_palette_ram = take_bytes(data, pos, 64);
        let frame_buffer = match FrameBuffer::load_from_bytes(data, pos) {
            Ok(frame_buffer) => frame_buffer,
            Err(e) => {
                return Err(e);
            },
        };
        let dot = take_u16(data, pos);
        let prev_stat_interrupt = take_flag(data, pos);
        let cgb = take_flag(data, pos);
        let ppu = Self {
            vram,
            oam,
            lcdc,
            stat,
            scy,
            scx,
            ly,
            lyc,
            oam_dma,
            oam_dma_active,
            bgp,
            obp0,
            obp1,
            wy,
            wx,
            window_line_counter,
            bcps,
            ocps,
            opri,
            bg_palette_ram,
            sprite_palette_ram,
            frame_buffer,
            sprites: Vec::new(),
            dot,
            prev_stat_interrupt,
            cgb,
        };
        proof {
            reveal(PpuView::decode);
        }
        assert(ppu@ =~= PpuView::decode(data@, *old(pos) as int));
        Ok(ppu)
    }
}

/// A palette index register after a write to its data register.
fn next_palette_index(reg: u8) -> (r: u8)
    ensures
        r == palette_index_next(reg),
{
    if reg & 0x80 != 0 {
        reg - reg % 64 + (reg % 64 + 1) % 64
    } else {
        reg
    }
}

impl PpuView {
    /// The beam moves on by as many dots as were asked for and, behind the last line,
    /// starts again at the first.
    pub proof fn law_beam_advances(self, cycles: u16, speed: bool)
        requires
            self.in_frame(),
            (if speed { cycles / 2 } else { cycles }) <= DOTS_PER_LINE,
        ensures
            self.moved(cycles, speed).in_frame(),
            self.moved(cycles, speed).position() == (self.position() + if speed {
                cycles / 2
            } else {
                cycles
            }) % (DOTS_PER_LINE * TOTAL_LINES),
    {
        let dots = if speed { cycles / 2 } else { cycles };
        let total = self.position() + dots;
        assert(total < 2 * 70224);
        assert(total % 70224 == if total < 70224 { total } else { total - 70224 });
    }

    /// While the display is off the unit stands still and raises nothing.
    pub proof fn law_off_stands_still(self, cycles: u16, speed: bool)
        requires
            !self.lcdc.display_on(),
        ensures
            self.stepped(cycles, speed) == self,
            self.interrupts(cycles, speed) == Seq::<Interrupt>::empty(),
    {
    }

    /// A step leaves the status showing the mode of the dot that was reached.
    pub proof fn law_status_follows_beam(self, cycles: u16, speed: bool)
        requires
            self.lcdc.display_on(),
        ensures
            self.stepped(cycles, speed).stat.shown_mode() == PpuView::mode_at(
                self.stepped(cycles, speed).ly,
                self.stepped(cycles, speed).dot,
            ),
    {
        let mode = self.next_dot(cycles, speed).2;
        let moved = self.moved(cycles, speed);
        moved.stat.law_shows_mode(mode, moved.ly == moved.lyc);
    }

    /// The vertical blank interrupt comes exactly when the blank is entered.
    pub proof fn law_vblank_on_entry(self, cycles: u16, speed: bool)
        requires
            self.lcdc.display_on(),
        ensures
            self.interrupts(cycles, speed).contains(Interrupt::Vblank)
                <==> self.stat.shown_mode() != StatMode::Vblank && self.next_dot(cycles, speed).2
                == StatMode::Vblank,
    {
        let moved = self.moved(cycles, speed);
        let raised = moved.raised(self.next_dot(cycles, speed).2);
        if self.stat.shown_mode() != StatMode::Vblank && self.next_dot(cycles, speed).2
            == StatMode::Vblank {
            assert(raised[0] == Interrupt::Vblank);
        }
    }

    /// The status interrupt comes only as its line goes up: not again while it stays up.
    pub proof fn law_stat_interrupt_on_edge(self, cycles: u16, speed: bool)
        requires
            self.prev_stat_interrupt,
        ensures
            !self.interrupts(cycles, speed).contains(Interrupt::LcdStat),
    {
    }

    /// A step keeps all memories whole.
    pub proof fn law_step_keeps_sizes(self, cycles: u16, speed: bool)
        requires
            self.wf(),
        ensures
            self.stepped(cycles, speed).wf(),
    {
    }

    /// What is written to a register or a memory that can be reached is read back. Left out
    /// are the status, the line and the bank, which keep bits of their own, and palette
    /// data whose index steps on.
    pub proof fn law_written_is_read(self, addr: u16, value: u8)
        requires
            self.wf(),
            ppu_addr(addr),
            addr != 0xFF41 && addr != 0xFF44 && addr != 0xFF4F,
            0x8000 <= addr <= 0x9FFF ==> !self.vram_blocked(),
            0xFE00 <= addr <= 0xFE9F ==> !self.oam_blocked(),
            addr == 0xFF69 ==> self.bcps & 0x80 == 0,
            addr == 0xFF6B ==> self.ocps & 0x80 == 0,
        ensures
            self.written(addr, value).register(addr) == value,
    {
    }

    /// With the automatic step on, a palette byte goes to the current index and the next
    /// one to the index behind it, and sixty-four bytes come round to the start.
    pub proof fn law_palette_steps(self, value: u8, sprite: bool)
        requires
            self.wf(),
            if sprite { self.ocps & 0x80 != 0 } else { self.bcps & 0x80 != 0 },
        ensures
            ({
                let after = self.palette_written(value, sprite);
                let before_index = if sprite { self.ocps } else { self.bcps };
                let after_index = if sprite { after.ocps } else { after.bcps };
                let ram = if sprite { after.sprite_palette_ram } else { after.bg_palette_ram };
                &&& ram[before_index as int % 64] == value
                &&& after_index as int % 64 == (before_index % 64 + 1) % 64
                &&& after_index / 64 == before_index / 64
            }),
    {
    }

    /// A unit that was saved is loaded unchanged, but for the sprites of the current line,
    /// which are found again on the next.
    pub proof fn law_load_restores_saved(self, s: Seq<u8>, i: int)
        requires
            self.wf(),
            found_at(s, i, self.encode()),
        ensures
            Self::stored_at(s, i),
            Self::stored_len(s, i) == self.encode().len(),
            Self::decode(s, i) == (PpuView { sprites: Seq::empty(), ..self }),
    {
        reveal(PpuView::encode);
        reveal(PpuView::decode);
        let e1 = self.vram.encode();
        let e2 = e1 + self.oam;
        let e3 = e2 + self.encode_registers();
        let e4 = e3 + self.bg_palette_ram;
        let e5 = e4 + self.sprite_palette_ram;
        let e6 = e5 + self.frame_buffer.encode();
        let e7 = e6 + le16(self.dot);
        let tail = seq![flag_byte(self.prev_stat_interrupt), flag_byte(self.cgb)];
        lemma_found_split(s, i, e7, tail);
        lemma_found_split(s, i, e6, le16(self.dot));
        lemma_found_split(s, i, e5, self.frame_buffer.encode());
        lemma_found_split(s, i, e4, self.sprite_palette_ram);
        lemma_found_split(s, i, e3, self.bg_palette_ram);
        lemma_found_split(s, i, e2, self.encode_registers());
        lemma_found_split(s, i, e1, self.oam);
        self.vram.law_load_restores_saved(s, i);
        self.lemma_registers_found(s, i + 16546);
        self.frame_buffer.law_load_restores_saved(s, i + 16691);
        lemma_found_is_subrange(s, i + 16386, self.oam);
        lemma_found_is_subrange(s, i + 16563, self.bg_palette_ram);
        lemma_found_is_subrange(s, i + 16627, self.sprite_palette_ram);
        let t = i + e6.len();
        lemma_u16_found(s, t, self.dot);
        assert(s[t + 2 + 0] == tail[0]);
        assert(s[t + 2 + 1] == tail[1]);
        assert(Self::decode(s, i) =~= (PpuView { sprites: Seq::empty(), ..self }));
    }

    proof fn lemma_registers_found(self, s: Seq<u8>, r: int)
        requires
            found_at(s, r, self.encode_registers()),
        ensures
            self.encode_registers().len() == 17,
            s[r] == self.lcdc.raw,
            s[r + 1] == self.stat.raw,
            s[r + 2] == self.scy,
            s[r + 3] == self.scx,
            s[r + 4] == self.ly,
            s[r + 5] == self.lyc,
            s[r + 6] == self.oam_dma,
            s[r + 7] == flag_byte(self.oam_dma_active),
            s[r + 8] == self.bgp,
            s[r + 9] == self.obp0,
            s[r + 10] == self.obp1,
            s[r + 11] == self.wy,
            s[r + 12] == self.wx,
            s[r + 13] == self.window_line_counter,
            s[r + 14] == self.bcps,
            s[r + 15] == self.ocps,
            s[r + 16] == self.opri,
    {
        reveal(PpuView::encode_registers);
        let e = self.encode_registers();
        assert(s[r + 0] == e[0]);
        assert(s[r + 1] == e[1]);
        assert(s[r + 2] == e[2]);
        assert(s[r + 3] == e[3]);
        assert(s[r + 4] == e[4]);
        assert(s[r + 5] == e[5]);
        assert(s[r + 6] == e[6]);
        assert(s[r + 7] == e[7]);
        assert(s[r + 8] == e[8]);
        assert(s[r + 9] == e[9]);
        assert(s[r + 10] == e[10]);
        assert(s[r + 11] == e[11]);
        assert(s[r + 12] == e[12]);
        assert(s[r + 13] == e[13]);
        assert(s[r + 14] == e[14]);
        assert(s[r + 15] == e[15]);
        assert(s[r + 16] == e[16]);
    }
}

} // verus!
