//! What the registers of the display do, and when it calls for the processor.
use vstd::prelude::*;

use crate::bits::{bit, lemma_mask_tests_bit};
use crate::interrupts::Interrupt;
use crate::ppu::color::GameboyRgb;
use crate::ppu::lcd::{LcdStat, StatMode};
use crate::ppu::PpuView;

verus! {

impl PpuView {
    /// Dots that some cycles take.
    pub open spec fn dots_of(cycles: u16, speed: bool) -> int {
        if speed {
            cycles as int / 2
        } else {
            cycles as int
        }
    }

    /// The beam lies in a line of the screen or of the blank, and a step moves it by a line
    /// at most.
    pub open spec fn steady(self, cycles: u16, speed: bool) -> bool {
        self.dot < 456 && self.ly < 154 && Self::dots_of(cycles, speed) <= 456
    }

    /// The line that a step reaches, counted in lines of 456 dots, of which 154 are a frame.
    pub open spec fn reached_line(self, cycles: u16, speed: bool) -> int {
        ((456 * self.ly + self.dot + Self::dots_of(cycles, speed)) / 456) % 154
    }

    /// The dot of the line that a step reaches.
    pub open spec fn reached_dot(self, cycles: u16, speed: bool) -> int {
        (self.dot + Self::dots_of(cycles, speed)) % 456
    }

    /// A step leaves the beam where the dots that went by lead, and bits 0 and 1 of the
    /// status say where that is: in the lines of the screen the first 80 dots are number two,
    /// the next 172 number three and the rest number zero; the lines from 144 on are number
    /// one. Bit 2 says that the line is the one to compare with; the higher bits stay.
    pub proof fn law_status_shows_position(self, cycles: u16, speed: bool)
        requires
            bit(self.lcdc.raw, 7),
            self.steady(cycles, speed),
        ensures
            ({
                let line = self.reached_line(cycles, speed);
                let dot = self.reached_dot(cycles, speed);
                let s = self.stepped(cycles, speed);
                &&& s.ly == line
                &&& s.dot == dot
                &&& s.stat.raw % 4 == (if line >= 144 {
                    1int
                } else if dot < 80 {
                    2
                } else if dot < 252 {
                    3
                } else {
                    0
                })
                &&& bit(s.stat.raw, 2) == (line == self.lyc)
                &&& s.stat.raw / 8 == self.stat.raw / 8
            }),
    {
        self.lemma_reached(cycles, speed);
        lemma_mask_tests_bit(self.lcdc.raw);
        let mode = self.next_dot(cycles, speed).2;
        let moved = self.moved(cycles, speed);
        lemma_shown(moved.stat, mode.spec_code(), moved.ly == moved.lyc);
    }

    /// The status interrupt comes with a step exactly when its line was low and one of four
    /// sources raises it: bit 3 of the status in the rest of a line of the screen, bit 4 in
    /// the blank, bit 5 while the sprite table is used, bit 6 in the line to compare with.
    pub proof fn law_status_interrupt_sources(self, cycles: u16, speed: bool)
        requires
            bit(self.lcdc.raw, 7),
            self.steady(cycles, speed),
        ensures
            ({
                let line = self.reached_line(cycles, speed);
                let dot = self.reached_dot(cycles, speed);
                let up = {
                    ||| bit(self.stat.raw, 3) && line < 144 && dot >= 252
                    ||| bit(self.stat.raw, 4) && line >= 144
                    ||| bit(self.stat.raw, 5) && line < 144 && dot < 252
                    ||| bit(self.stat.raw, 6) && line == self.lyc
                };
                &&& self.interrupts(cycles, speed).contains(Interrupt::LcdStat)
                    <==> !self.prev_stat_interrupt && up
                &&& self.stepped(cycles, speed).prev_stat_interrupt == up
            }),
    {
        self.lemma_reached(cycles, speed);
        lemma_mask_tests_bit(self.lcdc.raw);
        lemma_mask_tests_bit(self.stat.raw);
        let raised = self.interrupts(cycles, speed);
        if raised.len() > 0 {
            assert(raised.contains(raised[raised.len() - 1]));
        }
    }

    /// The blank interrupt comes with a step exactly when it reaches one of the lines from
    /// 144 on while the status does not show the blank. The unit raises nothing but these
    /// two, and none twice.
    pub proof fn law_blank_interrupt_on_last_line(self, cycles: u16, speed: bool)
        requires
            bit(self.lcdc.raw, 7),
            self.steady(cycles, speed),
        ensures
            ({
                let line = self.reached_line(cycles, speed);
                let raised = self.interrupts(cycles, speed);
                &&& raised.contains(Interrupt::Vblank) <==> line >= 144 && self.stat.raw % 4 != 1
                &&& raised.no_duplicates()
                &&& forall|i: Interrupt| #[trigger]
                    raised.contains(i) ==> i == Interrupt::Vblank || i == Interrupt::LcdStat
            }),
    {
        self.lemma_reached(cycles, speed);
        lemma_mask_tests_bit(self.lcdc.raw);
        let raised = self.interrupts(cycles, speed);
        if self.reached_line(cycles, speed) >= 144 && self.stat.raw % 4 != 1 {
            assert(raised[0] == Interrupt::Vblank);
        }
    }

    /// How long the modes last: 80, 172 and 204 cycles in a line of 456, and ten lines of the
    /// blank; twice as many at double speed.
    pub proof fn law_mode_lengths()
        ensures
            PpuView::mode_cycles(StatMode::OamScan, false) == 80,
            PpuView::mode_cycles(StatMode::OamRead, false) == 172,
            PpuView::mode_cycles(StatMode::Hblank, false) == 456 - 80 - 172,
            PpuView::mode_cycles(StatMode::Vblank, false) == 10 * 456,
            forall|mode: StatMode| #[trigger]
                PpuView::mode_cycles(mode, true) == 2 * PpuView::mode_cycles(mode, false),
    {
    }

    /// Without bit 7 of the control register nothing moves and nothing is raised.
    pub proof fn law_display_off(self, cycles: u16, speed: bool)
        requires
            !bit(self.lcdc.raw, 7),
        ensures
            self.stepped(cycles, speed) == self,
            self.interrupts(cycles, speed).len() == 0,
    {
        lemma_mask_tests_bit(self.lcdc.raw);
    }

    /// A step changes neither what was written to the unit nor its memories.
    pub proof fn law_step_keeps_registers(self, cycles: u16, speed: bool)
        ensures
            ({
                let s = self.stepped(cycles, speed);
                self == (PpuView {
                    stat: self.stat,
                    ly: self.ly,
                    dot: self.dot,
                    window_line_counter: self.window_line_counter,
                    frame_buffer: self.frame_buffer,
                    sprites: self.sprites,
                    prev_stat_interrupt: self.prev_stat_interrupt,
                    ..s
                })
            }),
    {
    }

    /// The bits of the control register: which tile maps and tiles are used, and what is
    /// drawn.
    pub proof fn law_control_bits(self)
        ensures
            self.lcdc.display_on() == bit(self.lcdc.raw, 7),
            self.lcdc.window_map() == (if bit(self.lcdc.raw, 6) { 0x9C00int } else { 0x9800 }),
            self.lcdc.window_on() == bit(self.lcdc.raw, 5),
            self.lcdc.signed_tiles() == !bit(self.lcdc.raw, 4),
            self.lcdc.bg_map() == (if bit(self.lcdc.raw, 3) { 0x9C00int } else { 0x9800 }),
            self.lcdc.sprite_height() == (if bit(self.lcdc.raw, 2) { 16int } else { 8 }),
            self.lcdc.sprites_on() == bit(self.lcdc.raw, 1),
            self.lcdc.bg_first() == bit(self.lcdc.raw, 0),
    {
        lemma_mask_tests_bit(self.lcdc.raw);
    }

    /// Each register that can be written as a whole is set at its own address, and no other.
    pub proof fn law_registers_are_set(self, v: u8)
        ensures
            self.written(0xFF42, v) == (PpuView { scy: v, ..self }),
            self.written(0xFF43, v) == (PpuView { scx: v, ..self }),
            self.written(0xFF45, v) == (PpuView { lyc: v, ..self }),
            self.written(0xFF46, v) == (PpuView { oam_dma: v, oam_dma_active: true, ..self }),
            self.written(0xFF47, v) == (PpuView { bgp: v, ..self }),
            self.written(0xFF48, v) == (PpuView { obp0: v, ..self }),
            self.written(0xFF49, v) == (PpuView { obp1: v, ..self }),
            self.written(0xFF4A, v) == (PpuView { wy: v, ..self }),
            self.written(0xFF4B, v) == (PpuView { wx: v, ..self }),
            self.written(0xFF68, v) == (PpuView { bcps: v, ..self }),
            self.written(0xFF6A, v) == (PpuView { ocps: v, ..self }),
            self.written(0xFF6C, v) == (PpuView { opri: v, ..self }),
    {
    }

    /// Each register is read at its own address.
    pub proof fn law_registers_are_read(self)
        ensures
            self.register(0xFF40) == self.lcdc.raw,
            self.register(0xFF41) == self.stat.raw,
            self.register(0xFF42) == self.scy,
            self.register(0xFF43) == self.scx,
            self.register(0xFF44) == self.ly,
            self.register(0xFF45) == self.lyc,
            self.register(0xFF46) == self.oam_dma,
            self.register(0xFF47) == self.bgp,
            self.register(0xFF48) == self.obp0,
            self.register(0xFF49) == self.obp1,
            self.register(0xFF4A) == self.wy,
            self.register(0xFF4B) == self.wx,
            self.register(0xFF68) == self.bcps,
            self.register(0xFF69) == self.bg_palette_ram[self.bcps as int % 64],
            self.register(0xFF6A) == self.ocps,
            self.register(0xFF6B) == self.sprite_palette_ram[self.ocps as int % 64],
            self.register(0xFF6C) == self.opri,
    {
    }

    /// Switching the display on or leaving it on sets the control register alone; switching
    /// it off also goes back to the first dot of the first line, and clears the mode and the
    /// coincidence in the status.
    pub proof fn law_control_is_set(self, v: u8)
        ensures
            ({
                let s = self.written(0xFF40, v);
                &&& s.lcdc.raw == v
                &&& bit(v, 7) ==> s == (PpuView { lcdc: s.lcdc, ..self })
                &&& !bit(v, 7) ==> s.ly == 0 && s.dot == 0 && s.stat.raw % 8 == 0 && s.stat.raw / 8
                    == self.stat.raw / 8
                &&& s == (PpuView {
                    lcdc: s.lcdc,
                    ly: s.ly,
                    dot: s.dot,
                    stat: s.stat,
                    ..self
                })
            }),
    {
        lemma_mask_tests_bit(v);
    }

    /// A write to the status sets its switches, bits 3 to 7; the program cannot set the lower
    /// ones.
    pub proof fn law_status_switches_are_set(self, v: u8)
        ensures
            ({
                let s = self.written(0xFF41, v);
                &&& s.stat.raw / 8 == v / 8
                &&& s.stat.raw % 8 == self.stat.raw % 8
                &&& s == (PpuView { stat: s.stat, ..self })
            }),
    {
    }

    /// A write to the line register sets the line below 128; from there only a value below
    /// 128 counts, and goes to line zero.
    pub proof fn law_line_is_set(self, v: u8)
        ensures
            self.written(0xFF44, v) == (PpuView {
                ly: if self.ly < 128 {
                    v
                } else if v < 128 {
                    0
                } else {
                    self.ly
                },
                ..self
            }),
    {
        lemma_mask_tests_bit(v);
        lemma_mask_tests_bit(self.ly);
    }

    /// Palette data goes to the entry that the low six bits of the index name. Bit 7 of the
    /// index moves it on by one, and from 63 to 0.
    pub proof fn law_palette_data(self, v: u8)
        requires
            self.wf(),
        ensures
            ({
                let next = |reg: u8| if bit(reg, 7) {
                    64 * (reg as int / 64) + (reg + 1) % 64
                } else {
                    reg as int
                };
                let b = self.written(0xFF69, v);
                let o = self.written(0xFF6B, v);
                &&& b.bg_palette_ram == self.bg_palette_ram.update(self.bcps as int % 64, v)
                &&& b.bcps == next(self.bcps)
                &&& b == (PpuView { bg_palette_ram: b.bg_palette_ram, bcps: b.bcps, ..self })
                &&& o.sprite_palette_ram == self.sprite_palette_ram.update(self.ocps as int % 64, v)
                &&& o.ocps == next(self.ocps)
                &&& o == (PpuView {
                    sprite_palette_ram: o.sprite_palette_ram,
                    ocps: o.ocps,
                    ..self
                })
            }),
    {
        lemma_mask_tests_bit(self.bcps);
        lemma_mask_tests_bit(self.ocps);
    }

    /// The sprite table is read at any time, and written but while the display uses it: with
    /// the display on and mode two or three in the status.
    pub proof fn law_sprite_table(self, i: int, v: u8)
        requires
            self.wf(),
            0 <= i < 160,
        ensures
            ({
                let addr = (0xFE00 + i) as u16;
                let shut = bit(self.lcdc.raw, 7) && self.stat.raw % 4 >= 2;
                &&& self.register(addr) == self.oam[i]
                &&& shut ==> self.written(addr, v) == self
                &&& !shut ==> self.written(addr, v) == (PpuView {
                    oam: self.oam.update(i, v),
                    ..self
                })
            }),
    {
        lemma_mask_tests_bit(self.lcdc.raw);
    }

    /// Video memory reads as 0xFF while the display reads it: with the display on and mode
    /// three in the status. Else the byte of the bank in use is read. It is written at any
    /// time.
    pub proof fn law_video_memory(self, i: int, v: u8)
        requires
            self.wf(),
            0 <= i < 0x2000,
        ensures
            ({
                let addr = (0x8000 + i) as u16;
                let shut = bit(self.lcdc.raw, 7) && self.stat.raw % 4 == 3;
                let bank = if self.vram.active_bank == 0 { self.vram.bank0 } else {
                    self.vram.bank1
                };
                let s = self.written(addr, v);
                &&& self.register(addr) == (if shut { 0xFF } else { bank[i] })
                &&& self.vram.active_bank == 0 ==> s.vram.bank0 == bank.update(i, v)
                    && s.vram.bank1 == self.vram.bank1
                &&& self.vram.active_bank != 0 ==> s.vram.bank1 == bank.update(i, v)
                    && s.vram.bank0 == self.vram.bank0
                &&& s.vram.active_bank == self.vram.active_bank
                &&& s == (PpuView { vram: s.vram, ..self })
            }),
    {
        lemma_mask_tests_bit(self.lcdc.raw);
    }

    /// Only a color machine can choose the bank of video memory, by the lowest bit; the other
    /// bits of the register read as set.
    pub proof fn law_video_memory_bank(self, v: u8)
        requires
            self.wf(),
        ensures
            ({
                let s = self.written(0xFF4F, v);
                &&& self.register(0xFF4F) == 254 + self.vram.active_bank
                &&& s.vram.active_bank == (if self.vram.cgb { v % 2 } else {
                    self.vram.active_bank
                })
                &&& s.vram.bank0 == self.vram.bank0 && s.vram.bank1 == self.vram.bank1
                &&& s == (PpuView { vram: s.vram, ..self })
            }),
    {
        lemma_bank_reads(self.vram.active_bank);
    }

    /// A unit at power-on: the display is on with tiles from the start of the tile data and
    /// the background drawn, unless a boot program does that; all palettes are white but the
    /// monochrome ones.
    pub proof fn law_power_on(cgb: bool, boot_rom: bool, i: int)
        ensures
            ({
                let s = PpuView::zero(cgb, boot_rom);
                &&& s.wf()
                &&& s.lcdc.raw == (if boot_rom { 0int } else { 145 })
                &&& s.stat.raw == 0 && s.scx == 0 && s.scy == 0 && s.ly == 0 && s.lyc == 0
                &&& s.wx == 0 && s.wy == 0 && s.dot == 0 && s.window_line_counter == 0
                &&& s.bgp == 252 && s.obp0 == 255 && s.obp1 == 255
                &&& !s.oam_dma_active && !s.prev_stat_interrupt
                &&& s.cgb == cgb
                &&& 0 <= i < 160 ==> s.oam[i] == 0
                &&& 0 <= i < 64 ==> s.bg_palette_ram[i] == 255 && s.sprite_palette_ram[i] == 255
                &&& 0 <= i < 0x2000 ==> s.vram.bank0[i] == 0 && s.vram.bank1[i] == 0
                &&& s.vram.active_bank == 0
                &&& !s.frame_buffer.ready
                &&& 0 <= i < 160 * 144 ==> s.frame_buffer.data[i] == (GameboyRgb {
                    red: 255,
                    green: 255,
                    blue: 255,
                })
            }),
    {
    }

    /// Where a step leads.
    proof fn lemma_reached(self, cycles: u16, speed: bool)
        requires
            self.steady(cycles, speed),
        ensures
            self.next_dot(cycles, speed).0 == self.reached_dot(cycles, speed),
            self.next_dot(cycles, speed).1 == self.reached_line(cycles, speed),
    {
        let d = Self::dots_of(cycles, speed);
        let total = self.dot + d;
        assert(total / 456 == if total < 456 { 0int } else if total < 912 { 1 } else { 2 });
        assert((456 * self.ly + total) / 456 == self.ly + total / 456);
    }
}

proof fn lemma_bank_reads(v: u8)
    by (bit_vector)
    ensures
        v <= 1 ==> v | 0xFE == 254 + v,
{
}

/// The parts of a status that shows a mode.
proof fn lemma_shown(stat: LcdStat, code: u8, coincidence: bool)
    requires
        code < 4,
    ensures
        ({
            let raw = stat.raw - stat.raw % 8 + code + if coincidence { 4int } else { 0 };
            &&& 0 <= raw < 256
            &&& raw % 4 == code
            &&& bit(raw as u8, 2) == coincidence
            &&& raw / 8 == stat.raw / 8
        }),
{
    let h = stat.raw as int / 8;
    let low = code + if coincidence { 4int } else { 0 };
    let raw = 8 * h + low;
    assert(raw / 4 == 2 * h + if coincidence { 1int } else { 0 });
}

} // verus!
