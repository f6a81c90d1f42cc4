//! How interrupts are asked for and served, and what a whole step takes.
use vstd::prelude::*;

use crate::bits::{bit, lemma_mask_tests_bit};
use crate::cpu::step::first_requested;
use crate::cpu::CpuView;
use crate::instructions::Instruction;
use crate::interrupts::Interrupt;
use crate::memory::{BusView, IoView};
use crate::timer::Timer;

verus! {

impl CpuView {
    /// Each source sets its own bit in the register of pending interrupts, and changes nothing
    /// else.
    pub proof fn law_sources_set_their_bits(self)
        ensures
            ({
                let with = |flags: u8| CpuView {
                    bus: BusView { int_flags: flags, ..self.bus },
                    ..self
                };
                let flags = self.bus.int_flags;
                &&& self.triggered(Interrupt::Vblank) == with(flags | 0x01)
                &&& self.triggered(Interrupt::LcdStat) == with(flags | 0x02)
                &&& self.triggered(Interrupt::Timer) == with(flags | 0x04)
                &&& self.triggered(Interrupt::Serial) == with(flags | 0x08)
                &&& self.triggered(Interrupt::Joypad) == with(flags | 0x10)
            }),
    {
        reveal(BusView::peek);
        reveal(BusView::poked);
    }

    /// The interrupt of this number is enabled and pending.
    pub open spec fn asks(self, n: int) -> bool {
        bit(self.bus.int_enable, n) && bit(self.bus.int_flags, n)
    }

    /// While interrupts are enabled, the first of the five that is enabled and pending is
    /// served: its request is taken back and no other, the program counter goes onto the
    /// stack, and the next instruction is that at 0x40, 0x48, 0x50, 0x58 or 0x60. It takes
    /// twenty cycles, and further interrupts are disabled.
    pub proof fn law_first_request_is_served(self, n: int)
        requires
            self.bus.wf(),
            self.stack_in_ram(),
            self.ime,
            0 <= n < 5,
            self.asks(n),
            forall|m: int| 0 <= m < n ==> !#[trigger] self.asks(m),
        ensures
            ({
                let (s, cycles) = self.serviced();
                let weight = if n == 0 {
                    1int
                } else if n == 1 {
                    2
                } else if n == 2 {
                    4
                } else if n == 3 {
                    8
                } else {
                    16
                };
                &&& s.registers.PC == 64 + 8 * n
                &&& s.registers.SP == (self.registers.SP - 2) % 65536
                &&& s.bus.peek(self.registers.SP.wrapping_sub(1)) == self.registers.PC / 256
                &&& s.bus.peek(self.registers.SP.wrapping_sub(2)) == self.registers.PC % 256
                &&& s.bus.int_flags == self.bus.int_flags - weight
                &&& s.bus.int_enable == self.bus.int_enable
                &&& !s.ime && !s.halted
                &&& cycles == 20
            }),
    {
        let enable = self.bus.int_enable;
        let flags = self.bus.int_flags;
        self.lemma_interrupt_registers();
        self.lemma_first(n);
        let k = n as u8;
        lemma_take_back(enable, flags, k);
        lemma_mask_tests_bit(enable);
        lemma_mask_tests_bit(flags);
        lemma_weights();
        assert(flags & (1u8 << k) != 0 && enable & (1u8 << k) != 0);
        let left = flags & !(1u8 << k);
        let s = CpuView {
            ime: false,
            halted: false,
            bus: self.bus.poked(0xFF0F, left),
            ..self
        };
        self.bus.law_poke_keeps_wf(0xFF0F, left);
        s.lemma_stack_bytes(s.registers.PC);
        s.lemma_push_keeps_requests(s.registers.PC);
        assert(s.bus.int_flags == left && s.bus.int_enable == enable) by {
            reveal(BusView::poked);
        }
        assert(self.serviced() == (s.pushed(s.registers.PC).with_pc((0x40 + 8 * n) as u16), 20u8))
            by {
            reveal(CpuView::serviced);
        }
    }

    /// With nothing enabled and pending, nothing happens; while interrupts are disabled, a
    /// request only wakes the processor.
    pub proof fn law_nothing_is_served(self)
        ensures
            self.bus.int_enable & self.bus.int_flags == 0 ==> self.serviced() == (self, 0u8),
            self.bus.int_enable & self.bus.int_flags != 0 && !self.ime ==> self.serviced() == (
                CpuView { halted: false, ..self },
                0u8,
            ),
    {
        self.lemma_interrupt_registers();
        reveal(CpuView::serviced);
    }

    proof fn lemma_interrupt_registers(self)
        ensures
            self.bus.peek(0xFFFF) == self.bus.int_enable,
            self.bus.peek(0xFF0F) == self.bus.int_flags,
    {
        reveal(BusView::peek);
    }

    proof fn lemma_first(self, n: int)
        requires
            0 <= n < 5,
            self.asks(n),
            forall|m: int| 0 <= m < n ==> !#[trigger] self.asks(m),
        ensures
            first_requested(self.bus.int_enable, self.bus.int_flags, 0) == Some(n as u8),
    {
        let e = self.bus.int_enable;
        let f = self.bus.int_flags;
        lemma_mask_tests_bit(e);
        lemma_mask_tests_bit(f);
        lemma_weights();
        assert(n > 0 ==> !self.asks(0));
        assert(n > 1 ==> !self.asks(1));
        assert(n > 2 ==> !self.asks(2));
        assert(n > 3 ==> !self.asks(3));
        reveal_with_fuel(first_requested, 6);
    }

    /// A push onto a stack in RAM leaves the interrupt registers alone.
    proof fn lemma_push_keeps_requests(self, value: u16)
        requires
            self.stack_in_ram(),
        ensures
            self.pushed(value).bus.int_flags == self.bus.int_flags,
            self.pushed(value).bus.int_enable == self.bus.int_enable,
    {
        reveal(BusView::poked);
    }

    /// A transfer to the sprite table that was asked for copies 160 bytes from the start of
    /// the page, and is over; without one nothing happens.
    pub proof fn law_sprite_table_transfer(self, i: int)
        requires
            0 <= i < 160,
        ensures
            ({
                let s = self.transferred();
                &&& !self.bus.ppu.oam_dma_active ==> s == self
                &&& self.bus.ppu.oam_dma_active ==> {
                    &&& s.bus.ppu.oam.len() == 160
                    &&& s.bus.ppu.oam[i] == self.bus.peek((256 * self.bus.ppu.oam_dma + i) as u16)
                    &&& !s.bus.ppu.oam_dma_active
                    &&& s.registers == self.registers
                    &&& s.bus.ram == self.bus.ram && s.bus.high_ram == self.bus.high_ram
                    &&& s.bus.ppu.vram == self.bus.ppu.vram
                }
            }),
    {
        reveal(CpuView::transferred);
    }

    /// What a step takes: the cycles of the instruction and of an interrupt before it, or 8200
    /// for a switch of the speed, and half of that at double speed. A halted processor waits
    /// for four.
    pub proof fn law_cycles_of_a_step(self)
        ensures
            ({
                let (s, before) = self.serviced();
                let (done, cycles) = s.advanced();
                let total = cycles + (if done.stopped { 8200int } else { before as int });
                &&& s.halted ==> self.step_cycles() == 4 && self.stepped() == s
                &&& !s.halted && !done.speed ==> self.step_cycles() == total
                &&& !s.halted && done.speed ==> self.step_cycles() == total / 2
                &&& !s.halted && done.stopped ==> self.stepped() == done
                &&& !s.halted && !done.stopped ==> self.stepped() == done.transferred()
            }),
    {
        reveal(CpuView::transferred);
    }

    /// A stop clears the divider. In a color machine that asked for it, it also changes the
    /// speed, shows the new speed in bit 7 of the switch, takes back the request and stops the
    /// machine.
    pub proof fn law_stop(self)
        ensures
            ({
                let s = self.effect(Instruction::Stop);
                let switches = self.cgb && bit(self.bus.io.prep_speed_switch, 0);
                let shown = s.bus.io.prep_speed_switch;
                &&& s.speed == (self.speed != switches)
                &&& s.stopped == (switches || self.stopped)
                &&& switches ==> shown == (if s.speed { 128int } else { 0 })
                &&& !switches ==> shown == self.bus.io.prep_speed_switch
                &&& s.bus.timer == (Timer { divider: 0, cycles: 0, ..self.bus.timer })
                &&& s == (CpuView {
                    speed: s.speed,
                    stopped: s.stopped,
                    bus: BusView {
                        timer: s.bus.timer,
                        io: IoView { prep_speed_switch: shown, ..self.bus.io },
                        ..self.bus
                    },
                    ..self
                })
            }),
    {
        self.lemma_stop();
        reveal(CpuView::stop_done);
        lemma_mask_tests_bit(self.bus.io.prep_speed_switch);
    }
}

proof fn lemma_take_back(enable: u8, flags: u8, n: u8)
    by (bit_vector)
    requires
        n < 5,
    ensures
        flags & (1u8 << n) != 0 ==> flags & !(1u8 << n) == flags - (1u8 << n),
        enable & (1u8 << n) != 0 && flags & (1u8 << n) != 0 ==> enable & flags != 0,
{
}

proof fn lemma_weights()
    by (bit_vector)
    ensures
        1u8 << 0u8 == 0x01,
        1u8 << 1u8 == 0x02,
        1u8 << 2u8 == 0x04,
        1u8 << 3u8 == 0x08,
        1u8 << 4u8 == 0x10,
{
}

} // verus!
