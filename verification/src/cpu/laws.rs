//! What holds of the processor across instructions.
use vstd::prelude::*;

use crate::cpu::effects::Group;
use crate::cpu::step::{first_requested, requested};
use crate::cpu::CpuView;
use crate::instructions::{Arg, Cond, Instruction};
use crate::interrupts::Interrupt;
use crate::memory::{plain_ram, BusView};
use crate::registers::{Reg16, Reg8, RegisterFile};

verus! {

impl CpuView {
    /// A word fits on the stack, in RAM.
    pub open spec fn stack_in_ram(self) -> bool {
        plain_ram(self.registers.SP.wrapping_sub(1)) && plain_ram(
            self.registers.SP.wrapping_sub(2),
        )
    }

    /// A word that is pushed onto a stack in RAM is popped again, and the stack pointer is
    /// back where it was.
    pub proof fn law_pop_gives_pushed(self, value: u16)
        requires
            self.bus.wf(),
            self.stack_in_ram(),
        ensures
            self.pushed(value).top() == value,
            self.pushed(value).popped().registers == self.registers,
    {
        let sp = self.registers.SP;
        let high = (value / 256) as u8;
        let low = (value % 256) as u8;
        let one = self.bus.poked(sp.wrapping_sub(1), high);
        self.bus.law_poke_keeps_wf(sp.wrapping_sub(1), high);
        self.bus.law_ram_keeps(sp.wrapping_sub(1), high, sp.wrapping_sub(1));
        one.law_ram_keeps(sp.wrapping_sub(2), low, sp.wrapping_sub(1));
        assert(sp.wrapping_sub(2).wrapping_add(1) == sp.wrapping_sub(1));
        assert(sp.wrapping_sub(2).wrapping_add(2) == sp);
    }

    /// A return after a call goes to the instruction behind the call, with the stack pointer
    /// back where it was.
    pub proof fn law_return_follows_call(self, addr: u16)
        requires
            self.bus.wf(),
            self.stack_in_ram(),
        ensures
            ({
                let called = self.effect(Instruction::Call { addr, cond: Cond::Always });
                let back = called.effect(Instruction::Ret { cond: Cond::Always });
                &&& called.registers.PC == addr
                &&& back.registers.PC == self.registers.PC.wrapping_add(3)
                &&& back.registers.SP == self.registers.SP
            }),
    {
        let called = self.effect(Instruction::Call { addr, cond: Cond::Always });
        self.lemma_call(addr, Cond::Always);
        called.lemma_ret(Cond::Always);
        self.law_pop_gives_pushed(self.registers.PC.wrapping_add(3));
    }

    /// A halted processor without a request stays as it is, and waits for four cycles.
    pub proof fn law_halted_waits(self)
        requires
            self.halted,
            self.bus.peek(0xFFFF) & self.bus.peek(0xFF0F) == 0,
        ensures
            self.can_step(),
            self.stepped() == self,
            self.step_cycles() == 4,
    {
        reveal(CpuView::serviced);
    }

    /// Any request wakes the processor, even if interrupts are disabled.
    pub proof fn law_request_wakes(self)
        requires
            self.bus.peek(0xFFFF) & self.bus.peek(0xFF0F) != 0,
        ensures
            !self.serviced().0.halted,
    {
        reveal(CpuView::serviced);
    }

    /// While interrupts are disabled none is served.
    pub proof fn law_disabled_is_not_served(self)
        requires
            !self.ime,
        ensures
            self.serviced().0.registers == self.registers,
            self.serviced().0.bus == self.bus,
            self.serviced().1 == 0,
    {
        reveal(CpuView::serviced);
    }

    /// Serving an interrupt goes to its routine, disables further interrupts, takes twenty
    /// cycles and leaves the program counter on the stack.
    pub proof fn law_interrupt_is_served(self, n: u8)
        requires
            self.ime,
            self.bus.wf(),
            self.stack_in_ram(),
            self.bus.peek(0xFFFF) & self.bus.peek(0xFF0F) != 0,
            first_requested(self.bus.peek(0xFFFF), self.bus.peek(0xFF0F), 0) == Some(n),
        ensures
            ({
                let (s, cycles) = self.serviced();
                &&& s.registers.PC == 0x40 + 8 * n
                &&& s.top() == self.registers.PC
                &&& !s.ime
                &&& !s.halted
                &&& cycles == 20
            }),
    {
        reveal(CpuView::serviced);
        let flags = self.bus.peek(0xFF0F);
        lemma_first_requested(self.bus.peek(0xFFFF), flags, 0);
        let s = CpuView {
            ime: false,
            halted: false,
            bus: self.bus.poked(0xFF0F, flags & !(1u8 << n)),
            ..self
        };
        self.bus.law_poke_keeps_wf(0xFF0F, flags & !(1u8 << n));
        s.law_pop_gives_pushed(s.registers.PC);
    }

    /// An interrupt that is triggered is pending.
    pub proof fn law_triggered_is_pending(self, interrupt: Interrupt)
        ensures
            self.triggered(interrupt).bus.peek(0xFF0F) == self.bus.peek(0xFF0F)
                | interrupt.spec_mask(),
            self.triggered(interrupt).bus.peek(0xFF0F) & interrupt.spec_mask() != 0,
    {
        reveal(BusView::peek);
        reveal(BusView::poked);
        lemma_or_sets(self.bus.peek(0xFF0F), interrupt.spec_mask());
    }

    /// A bit that is set is seen set, one that is cleared is seen cleared, and the other
    /// bits of the register stay.
    pub proof fn law_bit_is_kept(self, reg: Reg8, bit: u8, other: u8, on: bool)
        requires
            reg != Reg8::F,
            bit < 8,
            other < 8,
        ensures
            ({
                let before = self.registers.r8(reg);
                let after = self.bit_put(Arg::Reg8(reg), bit, on).registers.r8(reg);
                &&& (after & (1u8 << bit) != 0) == on
                &&& other != bit ==> after & (1u8 << other) == before & (1u8 << other)
            }),
    {
        reveal(CpuView::bit_put);
        let v = self.registers.r8(reg);
        let w = if on { v | (1u8 << bit) } else { v & !(1u8 << bit) };
        self.registers.law_written_is_read(reg, w, Reg16::HL, 0);
        lemma_bit_put(v, bit, other);
    }

    /// Switching the speed twice leads back, and each time the machine stops for it.
    pub proof fn law_speed_switch_alternates(self)
        ensures
            self.speed_switched().speed != self.speed,
            self.speed_switched().speed_switched().speed == self.speed,
            self.speed_switched().stopped,
            self.speed_switched().bus.io.prep_speed_switch & 0x01 == 0,
    {
        assert(0x80u8 & 0x01u8 == 0) by (bit_vector);
        assert(0u8 & 0x01u8 == 0) by (bit_vector);
    }
}

/// The instruction writes the program counter like any other register, which no opcode
/// does.
pub open spec fn names_pc(inst: Instruction) -> bool {
    match inst {
        Instruction::Ld { dst, .. } => dst == Arg::Reg16(Reg16::PC),
        Instruction::Pop { dst } => dst == Reg16::PC,
        Instruction::Inc { dst } => dst == Arg::Reg16(Reg16::PC),
        Instruction::Dec { dst } => dst == Arg::Reg16(Reg16::PC),
        _ => false,
    }
}

impl CpuView {
    /// Only a jump that is taken sets the program counter.
    pub proof fn law_only_jumps_set_pc(self, inst: Instruction)
        requires
            !self.takes(inst),
            !names_pc(inst),
        ensures
            self.effect(inst).registers.PC == self.registers.PC,
    {
        reveal(CpuView::effect);
        match inst.group() {
            Group::Jump => {
                reveal(CpuView::jumped);
            },
            Group::Arithmetic => self.lemma_computed_keeps_pc(inst),
            Group::Bits => self.lemma_bits_keep_pc(inst),
            Group::Control => self.lemma_controlled_keeps_pc(inst),
            Group::Move => self.lemma_moved_keeps_pc(inst),
        }
    }

    proof fn lemma_computed_keeps_pc(self, inst: Instruction)
        requires
            !names_pc(inst),
        ensures
            self.computed(inst).registers.PC == self.registers.PC,
    {
        broadcast use group_keeps_pc;

        reveal(CpuView::computed);
        reveal(CpuView::accumulator_done);
        reveal(CpuView::incremented);
        reveal(CpuView::decremented);
        reveal(CpuView::hl_added);
        reveal(CpuView::sp_moved);
    }

    proof fn lemma_bits_keep_pc(self, inst: Instruction)
        ensures
            self.bits_done(inst).registers.PC == self.registers.PC,
    {
        broadcast use group_keeps_pc;

        reveal(CpuView::bits_done);
        reveal(CpuView::rotated_in);
        reveal(CpuView::shifted_in);
        reveal(CpuView::swapped_in);
        reveal(CpuView::bit_tested);
        reveal(CpuView::bit_put);
    }

    proof fn lemma_controlled_keeps_pc(self, inst: Instruction)
        ensures
            self.controlled(inst).registers.PC == self.registers.PC,
    {
        broadcast use group_keeps_pc;

        reveal(CpuView::controlled);
        reveal(CpuView::stop_done);
        reveal(CpuView::decimal_adjusted);
        reveal(CpuView::complemented);
        reveal(CpuView::carry_put);
        reveal(CpuView::rotated_in);
    }

    proof fn lemma_moved_keeps_pc(self, inst: Instruction)
        requires
            !names_pc(inst),
        ensures
            self.moved(inst).registers.PC == self.registers.PC,
    {
        broadcast use group_keeps_pc;

        reveal(CpuView::moved);
        reveal(CpuView::loaded);
        reveal(CpuView::port_stored);
        reveal(CpuView::port_loaded);
        reveal(CpuView::hl_loaded);
        reveal(CpuView::sp_moved);
        reveal(CpuView::pair_pushed);
        reveal(CpuView::pair_popped);
    }
}

broadcast proof fn lemma_r8_keeps_pc(r: RegisterFile, reg: Reg8, value: u8)
    ensures
        (#[trigger] r.with_r8(reg, value)).PC == r.PC,
{
    reveal(RegisterFile::with_r8);
}

broadcast proof fn lemma_r16_keeps_pc(r: RegisterFile, reg: Reg16, value: u16)
    ensures
        reg != Reg16::PC ==> (#[trigger] r.with_r16(reg, value)).PC == r.PC,
{
    reveal(RegisterFile::with_r16);
}

broadcast proof fn lemma_flags_keep_pc(r: RegisterFile, z: bool, n: bool, h: bool, c: bool)
    ensures
        (#[trigger] r.with_flags(z, n, h, c)).PC == r.PC,
{
    reveal(RegisterFile::with_flags);
}

broadcast group group_keeps_pc {
    lemma_r8_keeps_pc,
    lemma_r16_keeps_pc,
    lemma_flags_keep_pc,
}

proof fn lemma_first_requested(enable: u8, flags: u8, n: u8)
    requires
        n <= 5,
    ensures
        first_requested(enable, flags, n) matches Some(k) ==> k < 5 && requested(enable, flags, k),
    decreases 5 - n,
{
    if n < 5 && !requested(enable, flags, n) {
        lemma_first_requested(enable, flags, (n + 1) as u8);
    }
}

proof fn lemma_or_sets(flags: u8, mask: u8)
    by (bit_vector)
    requires
        mask != 0,
    ensures
        (flags | mask) & mask != 0,
{
}

proof fn lemma_bit_put(v: u8, bit: u8, other: u8)
    by (bit_vector)
    requires
        bit < 8,
        other < 8,
    ensures
        (v | (1u8 << bit)) & (1u8 << bit) != 0,
        (v & !(1u8 << bit)) & (1u8 << bit) == 0,
        other != bit ==> (v | (1u8 << bit)) & (1u8 << other) == v & (1u8 << other),
        other != bit ==> (v & !(1u8 << bit)) & (1u8 << other) == v & (1u8 << other),
{
}

} // verus!
