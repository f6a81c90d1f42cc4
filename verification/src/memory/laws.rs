//! What lies where in the address space, and what a step of the bus brings.
use vstd::prelude::*;

use crate::bits::{bit, lemma_mask_tests_bit};
use crate::interrupts::Interrupt;
use crate::memory::{BusView, IoView};

verus! {

impl BusView {
    /// Working RAM: the first bank from 0xC000 on, the bank that was chosen from 0xD000 on,
    /// and both again from 0xE000 on, up to 0xFDFF.
    pub proof fn law_working_ram(self, addr: u16, v: u8)
        requires
            self.wf(),
            0xC000 <= addr <= 0xFDFF,
        ensures
            ({
                let a = addr % 0x2000;
                let at = if a < 0x1000 { a as int } else {
                    a - 0x1000 + 4096 * self.ram_bank
                };
                &&& 0 <= at < self.ram.len()
                &&& self.peek(addr) == self.ram[at]
                &&& self.poked(addr, v) == (BusView { ram: self.ram.update(at, v), ..self })
            }),
    {
        reveal(BusView::peek);
        reveal(BusView::poked);
    }

    /// High RAM, from 0xFF80 to 0xFFFE, and the interrupt registers.
    pub proof fn law_last_page(self, i: int, v: u8)
        requires
            self.wf(),
            0 <= i < 127,
        ensures
            self.peek((0xFF80 + i) as u16) == self.high_ram[i],
            self.poked((0xFF80 + i) as u16, v) == (BusView {
                high_ram: self.high_ram.update(i, v),
                ..self
            }),
            self.peek(0xFFFF) == self.int_enable,
            self.poked(0xFFFF, v) == (BusView { int_enable: v, ..self }),
            self.peek(0xFF0F) == self.int_flags,
            self.poked(0xFF0F, v) == (BusView { int_flags: v, ..self }),
    {
        reveal(BusView::peek);
        reveal(BusView::poked);
    }

    /// The cartridge answers below 0x8000 and from 0xA000 to 0xBFFF.
    pub proof fn law_cartridge(self, addr: u16, v: u8)
        ensures
            addr < 0x8000 ==> self.peek(addr) == self.controller.rom_byte(addr) && self.poked(
                addr,
                v,
            ) == (BusView { controller: self.controller.rom_written(addr, v), ..self }),
            0xA000 <= addr <= 0xBFFF ==> self.peek(addr) == self.controller.ram_byte(addr)
                && self.poked(addr, v) == (BusView {
                controller: self.controller.ram_written(addr, v),
                ..self
            }),
    {
        reveal(BusView::peek);
        reveal(BusView::poked);
    }

    /// The picture unit answers from 0x8000 to 0x9FFF, for the sprite table from 0xFE00 to
    /// 0xFE9F, and for its registers.
    pub proof fn law_picture_unit(self, addr: u16, v: u8)
        requires
            0x8000 <= addr <= 0x9FFF || 0xFE00 <= addr <= 0xFE9F || 0xFF40 <= addr <= 0xFF4B
                || addr == 0xFF4F || 0xFF68 <= addr <= 0xFF6C,
        ensures
            self.peek(addr) == self.ppu.register(addr),
            self.poked(addr, v) == (BusView { ppu: self.ppu.written(addr, v), ..self }),
    {
        reveal(BusView::peek);
        reveal(BusView::poked);
    }

    /// The joypad, the timer, the sound unit and the serial data answer at their addresses.
    pub proof fn law_ports(self, addr: u16, v: u8)
        ensures
            self.peek(0xFF00) == self.joypad.register(),
            self.poked(0xFF00, v) == (BusView { joypad: self.joypad.written(v), ..self }),
            self.peek(0xFF01) == self.io.serial_data,
            self.poked(0xFF01, v) == (BusView {
                io: IoView { serial_data: v, ..self.io },
                ..self
            }),
            self.peek(0xFF02) == self.io.serial_control,
            0xFF04 <= addr <= 0xFF07 ==> self.peek(addr) == self.timer.register(addr)
                && self.poked(addr, v) == (BusView { timer: self.timer.written(addr, v), ..self }),
            0xFF10 <= addr <= 0xFF3F ==> self.peek(addr) == self.io.apu.register(addr)
                && self.poked(addr, v) == (BusView {
                io: IoView { apu: self.io.apu.written(addr, v), ..self.io },
                ..self
            }),
    {
        reveal(BusView::peek);
        reveal(BusView::poked);
    }

    /// Where nothing answers, 0xFF is read and writes are lost.
    pub proof fn law_empty_places(self, addr: u16, v: u8)
        requires
            0xFEA0 <= addr <= 0xFEFF || addr == 0xFF03 || 0xFF08 <= addr <= 0xFF0E || addr == 0xFF4C
                || addr == 0xFF4E || 0xFF50 <= addr <= 0xFF67 || 0xFF6D <= addr <= 0xFF6F || 0xFF71
                <= addr <= 0xFF7F,
        ensures
            self.peek(addr) == 255,
            self.poked(addr, v) == self,
    {
        reveal(BusView::peek);
        reveal(BusView::poked);
    }

    /// The bank of working RAM is chosen by the low three bits, where zero counts as one, and
    /// only in a color machine.
    pub proof fn law_working_ram_bank(self, v: u8)
        ensures
            self.peek(0xFF70) == self.ram_bank,
            ({
                let s = self.poked(0xFF70, v);
                let chosen = v as int % 8;
                &&& s == (BusView { ram_bank: s.ram_bank, ..self })
                &&& s.ram_bank == (if !self.cgb {
                    self.ram_bank as int
                } else if chosen == 0 {
                    1
                } else {
                    chosen
                })
            }),
    {
        reveal(BusView::peek);
        reveal(BusView::poked);
    }

    /// Of the speed switch only the lowest bit, the request, can be written.
    pub proof fn law_speed_request(self, v: u8)
        ensures
            self.peek(0xFF4D) == self.io.prep_speed_switch,
            ({
                let s = self.poked(0xFF4D, v);
                let now = s.io.prep_speed_switch;
                &&& now % 2 == v % 2
                &&& now / 2 == self.io.prep_speed_switch / 2
                &&& s == (BusView { io: IoView { prep_speed_switch: now, ..self.io }, ..self })
            }),
    {
        reveal(BusView::peek);
        reveal(BusView::poked);
    }

    /// A transfer over the serial port starts when bits 7 and 0 of its control register are
    /// written: the data byte is sent. The next step ends it, clears bit 7 and raises the
    /// interrupt.
    pub proof fn law_serial_transfer(self, v: u8, cycles: u16, speed: bool, now: u64)
        ensures
            ({
                let s = self.poked(0xFF02, v);
                let t = self.stepped(cycles, speed, now);
                let starts = bit(v, 7) && bit(v, 0);
                &&& s.io.serial_control == v
                &&& s.io.serial == (if starts {
                    self.io.serial.push(self.io.serial_data)
                } else {
                    self.io.serial
                })
                &&& s.io.serial_pending == (starts || self.io.serial_pending)
                &&& s == (BusView {
                    io: IoView {
                        serial: s.io.serial,
                        serial_control: v,
                        serial_pending: s.io.serial_pending,
                        ..self.io
                    },
                    ..self
                })
                &&& !t.io.serial_pending
                &&& t.io.serial == self.io.serial
                &&& t.io.serial_data == self.io.serial_data
                &&& t.io.serial_control == (if self.io.serial_pending {
                    self.io.serial_control as int % 128
                } else {
                    self.io.serial_control as int
                })
                &&& t.io.prep_speed_switch == self.io.prep_speed_switch
            }),
    {
        reveal(BusView::poked);
        reveal(BusView::stepped);
        lemma_mask_tests_bit(v);
        lemma_start_bits(v);
        lemma_cleared(self.io.serial_control);
    }

    /// A step of the bus lets each unit run for the same cycles, and touches no memory of its
    /// own.
    pub proof fn law_step_runs_all_units(self, cycles: u16, speed: bool, now: u64)
        ensures
            ({
                let s = self.stepped(cycles, speed, now);
                &&& s.ppu == self.ppu.stepped(cycles, speed)
                &&& s.timer == self.timer.stepped(cycles)
                &&& s.io.apu == self.io.apu.stepped(cycles as u64)
                &&& s.controller == self.controller.stepped(cycles, speed, now)
                &&& s == (BusView {
                    ppu: s.ppu,
                    timer: s.timer,
                    io: s.io,
                    controller: s.controller,
                    ..self
                })
            }),
    {
        reveal(BusView::stepped);
    }

    /// What a step raises: the timer's interrupt exactly when its counter goes over its end,
    /// the serial port's exactly when a transfer was under way, those of the picture unit as
    /// it does, and none of the joypad.
    pub proof fn law_step_raises(self, cycles: u16, speed: bool)
        ensures
            ({
                let r = self.raised(cycles, speed);
                let p = self.ppu.interrupts(cycles, speed);
                &&& r.contains(Interrupt::Timer) <==> self.timer.overflows(self.timer.moves(cycles))
                &&& r.contains(Interrupt::Serial) <==> self.io.serial_pending
                &&& r.contains(Interrupt::Vblank) <==> p.contains(Interrupt::Vblank)
                &&& r.contains(Interrupt::LcdStat) <==> p.contains(Interrupt::LcdStat)
                &&& !r.contains(Interrupt::Joypad)
            }),
    {
        reveal(BusView::raised);
        let r = self.raised(cycles, speed);
        let p = self.ppu.interrupts(cycles, speed);
        let t = if self.timer.overflows(self.timer.moves(cycles)) {
            seq![Interrupt::Timer]
        } else {
            Seq::empty()
        };
        let s = if self.io.serial_pending {
            seq![Interrupt::Serial]
        } else {
            Seq::empty()
        };
        assert(r == p + t + s);
        assert(forall|i: int| 0 <= i < p.len() ==> r[i] == p[i]);
        if t.len() > 0 {
            assert(r[p.len() as int] == Interrupt::Timer);
        }
        if s.len() > 0 {
            assert(r[(p.len() + t.len()) as int] == Interrupt::Serial);
        }
    }
}

proof fn lemma_start_bits(v: u8)
    by (bit_vector)
    ensures
        (v & 0x81 == 0x81) == (v & 0x80 != 0 && v & 0x01 != 0),
{
}

proof fn lemma_cleared(v: u8)
    by (bit_vector)
    ensures
        v & 0x7F == v % 128,
{
}

} // verus!
