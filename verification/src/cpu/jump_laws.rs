//! Where jumps, calls and returns go, and when.
use vstd::prelude::*;

use crate::cpu::alu::extended;
use crate::cpu::CpuView;
use crate::instructions::{Cond, Instruction};
use crate::registers::RegisterFile;

verus! {

impl CpuView {
    /// Bit 7 of `F`, which says that the last result was zero.
    pub open spec fn zero_bit(self) -> bool {
        self.registers.F >= 128
    }

    /// Bit 4 of `F`, which says that the last result carried.
    pub open spec fn carry_bit(self) -> bool {
        (self.registers.F / 16) % 2 == 1
    }

    /// What decides on a jump: bit 7 of `F` for `Z`, bit 4 for `C`, and the opposite for `NZ`
    /// and `NC`.
    pub proof fn law_conditions_read_flags(self)
        ensures
            self.holds(Cond::Always),
            self.holds(Cond::Zero) <==> self.zero_bit(),
            self.holds(Cond::NotZero) <==> !self.zero_bit(),
            self.holds(Cond::Carry) <==> self.carry_bit(),
            self.holds(Cond::NotCarry) <==> !self.carry_bit(),
    {
        reveal(RegisterFile::flag);
    }

    /// A jump on a flag goes to its target exactly when the flag is set, the jump on its
    /// absence exactly when it is clear; one that is not taken changes nothing at all.
    pub proof fn law_jump_goes_by_flags(self, addr: u16)
        ensures
            self.effect(Instruction::Jp { addr, cond: Cond::Always }) == self.with_pc(addr),
            self.effect(Instruction::Jp { addr, cond: Cond::Carry }) == (if self.carry_bit() {
                self.with_pc(addr)
            } else {
                self
            }),
            self.effect(Instruction::Jp { addr, cond: Cond::NotCarry }) == (if self.carry_bit() {
                self
            } else {
                self.with_pc(addr)
            }),
            self.effect(Instruction::Jp { addr, cond: Cond::Zero }) == (if self.zero_bit() {
                self.with_pc(addr)
            } else {
                self
            }),
            self.effect(Instruction::Jp { addr, cond: Cond::NotZero }) == (if self.zero_bit() {
                self
            } else {
                self.with_pc(addr)
            }),
    {
        self.law_conditions_read_flags();
        self.lemma_jp(addr, Cond::Always);
        self.lemma_jp(addr, Cond::Carry);
        self.lemma_jp(addr, Cond::NotCarry);
        self.lemma_jp(addr, Cond::Zero);
        self.lemma_jp(addr, Cond::NotZero);
    }

    /// Of the jumps on `C` and `NC` exactly one is taken, and so of those on `Z` and `NZ`.
    pub proof fn law_one_of_two_jumps(self, addr: u16)
        requires
            self.registers.PC != addr,
        ensures
            (self.effect(Instruction::Jp { addr, cond: Cond::Carry }).registers.PC == addr)
                != (self.effect(Instruction::Jp { addr, cond: Cond::NotCarry }).registers.PC
                == addr),
            (self.effect(Instruction::Jp { addr, cond: Cond::Zero }).registers.PC == addr)
                != (self.effect(Instruction::Jp { addr, cond: Cond::NotZero }).registers.PC
                == addr),
    {
        self.law_jump_goes_by_flags(addr);
    }

    /// A relative jump, a call and a return are taken exactly when the jump on the same
    /// condition is, and change nothing otherwise.
    pub proof fn law_conditions_agree(self, addr: u16, offset: i8, cond: Cond)
        ensures
            ({
                let taken = match cond {
                    Cond::Always => true,
                    Cond::Zero => self.zero_bit(),
                    Cond::NotZero => !self.zero_bit(),
                    Cond::Carry => self.carry_bit(),
                    Cond::NotCarry => !self.carry_bit(),
                };
                &&& self.report(Instruction::Jp { addr, cond }).taken == taken
                &&& self.report(Instruction::Jr { offset, cond }).taken == taken
                &&& self.report(Instruction::Call { addr, cond }).taken == taken
                &&& self.report(Instruction::Ret { cond }).taken == taken
                &&& !taken ==> self.effect(Instruction::Jp { addr, cond }) == self
                &&& !taken ==> self.effect(Instruction::Jr { offset, cond }) == self
                &&& !taken ==> self.effect(Instruction::Call { addr, cond }) == self
                &&& !taken ==> self.effect(Instruction::Ret { cond }) == self
                &&& taken ==> self.effect(Instruction::Jp { addr, cond }) == self.effect(
                    Instruction::Jp { addr, cond: Cond::Always },
                )
                &&& taken ==> self.effect(Instruction::Jr { offset, cond }) == self.effect(
                    Instruction::Jr { offset, cond: Cond::Always },
                )
                &&& taken ==> self.effect(Instruction::Call { addr, cond }) == self.effect(
                    Instruction::Call { addr, cond: Cond::Always },
                )
                &&& taken ==> self.effect(Instruction::Ret { cond }) == self.effect(
                    Instruction::Ret { cond: Cond::Always },
                )
            }),
    {
        self.law_conditions_read_flags();
        self.lemma_jp(addr, cond);
        self.lemma_jr(offset, cond);
        self.lemma_call(addr, cond);
        self.lemma_ret(cond);
        self.lemma_jp(addr, Cond::Always);
        self.lemma_jr(offset, Cond::Always);
        self.lemma_call(addr, Cond::Always);
        self.lemma_ret(Cond::Always);
    }

    /// A relative jump counts from behind its own two bytes, on or back.
    pub proof fn law_relative_target(self, offset: i8)
        ensures
            ({
                let to = self.effect(Instruction::Jr { offset, cond: Cond::Always });
                &&& to.registers.PC == (self.registers.PC + 2 + offset) % 65536
                &&& to == self.with_pc(to.registers.PC)
            }),
    {
        self.lemma_jr(offset, Cond::Always);
        reveal(extended);
    }

    /// A call leaves the address behind its three bytes on the stack, the high byte on top
    /// of the low one, and goes to its target.
    pub proof fn law_call_leaves_return_address(self, addr: u16)
        requires
            self.bus.wf(),
            self.stack_in_ram(),
        ensures
            ({
                let s = self.effect(Instruction::Call { addr, cond: Cond::Always });
                let back = (self.registers.PC + 3) % 65536;
                &&& s.registers.PC == addr
                &&& s.registers.SP == (self.registers.SP - 2) % 65536
                &&& s.registers == (RegisterFile {
                    SP: s.registers.SP,
                    PC: addr,
                    ..self.registers
                })
                &&& s.bus.peek(self.registers.SP.wrapping_sub(1)) == back / 256
                &&& s.bus.peek(self.registers.SP.wrapping_sub(2)) == back % 256
                &&& s.ime == self.ime
            }),
    {
        self.lemma_call(addr, Cond::Always);
        self.lemma_stack_bytes(self.registers.PC.wrapping_add(3));
    }

    /// A restart is a call of one byte to an address in the first page.
    pub proof fn law_restart_is_short_call(self, offset: u8)
        requires
            self.bus.wf(),
            self.stack_in_ram(),
        ensures
            ({
                let s = self.effect(Instruction::Rst { offset });
                let back = (self.registers.PC + 1) % 65536;
                &&& s.registers.PC == offset
                &&& s.registers.SP == (self.registers.SP - 2) % 65536
                &&& s.bus.peek(self.registers.SP.wrapping_sub(1)) == back / 256
                &&& s.bus.peek(self.registers.SP.wrapping_sub(2)) == back % 256
            }),
    {
        self.lemma_rst(offset);
        self.lemma_stack_bytes(self.registers.PC.wrapping_add(1));
    }

    /// A return goes to the word on the stack, low byte first, and takes it off; a return
    /// from an interrupt also enables interrupts.
    pub proof fn law_return_reads_stack(self)
        ensures
            ({
                let sp = self.registers.SP;
                let back = self.bus.peek(sp) + 256 * self.bus.peek(((sp + 1) % 65536) as u16);
                let s = self.effect(Instruction::Ret { cond: Cond::Always });
                let i = self.effect(Instruction::RetI);
                &&& s.registers == (RegisterFile {
                    PC: s.registers.PC,
                    SP: s.registers.SP,
                    ..self.registers
                })
                &&& s.registers.PC == back
                &&& s.registers.SP == (sp + 2) % 65536
                &&& s.bus == self.bus
                &&& s.ime == self.ime
                &&& i.registers == s.registers
                &&& i.bus == self.bus
                &&& i.ime
            }),
    {
        self.lemma_ret(Cond::Always);
        self.lemma_reti();
        let sp = self.registers.SP;
        assert(sp.wrapping_add(1) == (sp + 1) % 65536);
    }

    /// A jump to `HL` goes to the address in the pair.
    pub proof fn law_jump_to_pair(self)
        ensures
            ({
                let s = self.effect(Instruction::JpHl);
                &&& s.registers.PC == 256 * self.registers.H + self.registers.L
                &&& s == self.with_pc(s.registers.PC)
            }),
    {
        self.lemma_jp_hl();
        reveal(RegisterFile::r16);
    }

    /// The bytes of a word that was pushed onto a stack in RAM.
    pub proof fn lemma_stack_bytes(self, value: u16)
        requires
            self.bus.wf(),
            self.stack_in_ram(),
        ensures
            self.pushed(value).bus.peek(self.registers.SP.wrapping_sub(1)) == value / 256,
            self.pushed(value).bus.peek(self.registers.SP.wrapping_sub(2)) == value % 256,
    {
        let sp = self.registers.SP;
        let high = (value / 256) as u8;
        let low = (value % 256) as u8;
        let one = self.bus.poked(sp.wrapping_sub(1), high);
        self.bus.law_poke_keeps_wf(sp.wrapping_sub(1), high);
        self.bus.law_ram_keeps(sp.wrapping_sub(1), high, sp.wrapping_sub(1));
        one.law_ram_keeps(sp.wrapping_sub(2), low, sp.wrapping_sub(1));
        one.law_ram_keeps(sp.wrapping_sub(2), low, sp.wrapping_sub(2));
    }

    /// The program counter after the instruction at it: where a jump that is taken goes,
    /// else behind the bytes of the instruction.
    pub proof fn law_instructions_follow_on(self)
        ensures
            ({
                let inst = self.instruction_at(self.registers.PC);
                let done = self.effect(inst);
                let r = self.report(inst);
                let (s, cycles) = self.advanced();
                &&& s == self.effect(inst).with_pc(s.registers.PC)
                &&& r.taken ==> s.registers.PC == done.registers.PC && cycles
                    == inst.spec_cycles().0
                &&& !r.taken ==> s.registers.PC == (done.registers.PC + inst.spec_size()) % 65536
                    && cycles == inst.spec_cycles().1
            }),
    {
        reveal(CpuView::advanced);
        reveal(CpuView::report);
    }

    /// With `JP C` or `JP NC` at the program counter, the next instruction is at the target
    /// or behind the three bytes, by bit 4 of `F`; with `JP Z` or `JP NZ`, by bit 7.
    pub proof fn law_next_after_conditional_jump(self)
        requires
            self.opcode() == 0xDA || self.opcode() == 0xD2 || self.opcode() == 0xCA
                || self.opcode() == 0xC2,
        ensures
            ({
                let pc = self.registers.PC;
                let target = self.bus.peek(pc.wrapping_add(1)) + 256 * self.bus.peek(
                    pc.wrapping_add(2),
                );
                let bit = if self.opcode() >= 0xD0 { self.carry_bit() } else { self.zero_bit() };
                let on = self.opcode() == 0xDA || self.opcode() == 0xCA;
                let (s, cycles) = self.advanced();
                &&& bit == on ==> s.registers.PC == target && cycles == 16
                &&& bit != on ==> s.registers.PC == (pc + 3) % 65536 && cycles == 12
            }),
    {
        let inst = self.instruction_at(self.registers.PC);
        let pc = self.registers.PC;
        let a8 = self.bus.peek(pc.wrapping_add(1));
        let target = (a8 + 256 * self.bus.peek(pc.wrapping_add(2))) as u16;
        crate::cpu::opcode_laws::law_jump_opcodes(a8, target);
        self.law_instructions_follow_on();
        match inst {
            Instruction::Jp { addr, cond } => {
                self.law_conditions_agree(addr, 0, cond);
                self.lemma_jp(addr, cond);
            },
            _ => {},
        }
    }
}

} // verus!
