//! What each instruction does to the machine.
use vstd::prelude::*;

use crate::cpu::alu::{
    adjusted, difference, extended, logical_of, rotated, shifted, sum, swapped, word_half_carry,
    AluResult, LogicalOp,
};
use crate::cpu::{CpuView, StepResult};
use crate::instructions::{Arg, Cond, Cycles, Instruction};
use crate::memory::{BusView, IoView};
use crate::registers::{Flag, Reg16, Reg8, RegisterFile};

verus! {

/// Operand of an arithmetic instruction.
pub open spec fn is_source(arg: Arg) -> bool {
    arg is Reg8 || arg is Imm8 || arg is MemHl
}

/// Operand that is read and written back.
pub open spec fn is_target(arg: Arg) -> bool {
    arg is Reg8 || arg is MemHl
}

impl CpuView {
    pub open spec fn hl(self) -> u16 {
        self.registers.r16(Reg16::HL)
    }

    /// The byte that an operand stands for.
    pub open spec fn operand(self, arg: Arg) -> u8 {
        match arg {
            Arg::Reg8(reg) => self.registers.r8(reg),
            Arg::Imm8(value) => value,
            Arg::MemHl => self.bus.peek(self.hl()),
            Arg::Mem(reg) => self.bus.peek(self.registers.r16(reg)),
            Arg::MemImm(addr) => self.bus.peek(addr),
            _ => 0,
        }
    }

    /// The machine with a byte stored in an operand.
    pub open spec fn stored(self, arg: Arg, value: u8) -> CpuView {
        match arg {
            Arg::Reg8(reg) => CpuView { registers: self.registers.with_r8(reg, value), ..self },
            Arg::MemHl => CpuView { bus: self.bus.poked(self.hl(), value), ..self },
            Arg::Mem(reg) => CpuView {
                bus: self.bus.poked(self.registers.r16(reg), value),
                ..self
            },
            Arg::MemImm(addr) => CpuView { bus: self.bus.poked(addr, value), ..self },
            _ => self,
        }
    }

    pub open spec fn with_registers(self, registers: RegisterFile) -> CpuView {
        CpuView { registers, ..self }
    }

    pub open spec fn with_pc(self, pc: u16) -> CpuView {
        self.with_registers(RegisterFile { PC: pc, ..self.registers })
    }

    /// The machine with all four flags given.
    pub open spec fn flagged(self, r: AluResult) -> CpuView {
        self.with_registers(self.registers.with_flags(r.z, r.n, r.h, r.c))
    }

    /// The machine with a result in the accumulator and the flags.
    pub open spec fn accumulated(self, r: AluResult) -> CpuView {
        self.stored(Arg::Reg8(Reg8::A), r.value).flagged(r)
    }

    /// The machine with a result in an operand and the flags.
    pub open spec fn replaced(self, dst: Arg, r: AluResult) -> CpuView {
        self.stored(dst, r.value).flagged(r)
    }

    /// A word on the stack: the high byte below the stack pointer, the low byte below that.
    pub open spec fn pushed(self, value: u16) -> CpuView {
        let sp = self.registers.SP;
        CpuView {
            bus: self.bus.poked(sp.wrapping_sub(1), (value / 256) as u8).poked(
                sp.wrapping_sub(2),
                (value % 256) as u8,
            ),
            registers: RegisterFile { SP: sp.wrapping_sub(2), ..self.registers },
            ..self
        }
    }

    /// The word on top of the stack.
    pub open spec fn top(self) -> u16 {
        let sp = self.registers.SP;
        (256 * self.bus.peek(sp.wrapping_add(1)) + self.bus.peek(sp)) as u16
    }

    /// The machine without the word on top of the stack.
    pub open spec fn popped(self) -> CpuView {
        let sp = self.registers.SP.wrapping_add(2);
        self.with_registers(RegisterFile { SP: sp, ..self.registers })
    }

    /// The condition holds.
    pub open spec fn holds(self, cond: Cond) -> bool {
        match cond {
            Cond::Always => true,
            Cond::NotZero => !self.registers.flag(Flag::Zero),
            Cond::Zero => self.registers.flag(Flag::Zero),
            Cond::NotCarry => !self.registers.flag(Flag::Carry),
            Cond::Carry => self.registers.flag(Flag::Carry),
        }
    }

    /// The instruction sets the program counter.
    pub open spec fn takes(self, inst: Instruction) -> bool {
        match inst {
            Instruction::Jp { cond, .. } => self.holds(cond),
            Instruction::Jr { cond, .. } => self.holds(cond),
            Instruction::Call { cond, .. } => self.holds(cond),
            Instruction::Ret { cond } => self.holds(cond),
            _ => inst.is_jump(),
        }
    }

    /// What is reported of an instruction. A relative jump that is not taken reports one
    /// number of cycles only.
    #[verifier::opaque]
    pub open spec fn report(self, inst: Instruction) -> StepResult {
        StepResult {
            inst,
            size: inst.spec_size(),
            cycles: if inst is Jr && !self.takes(inst) { Cycles(8, 8) } else { inst.spec_cycles() },
            jump: inst.is_jump(),
            taken: self.takes(inst),
        }
    }

    /// A load.
    #[verifier::opaque]
    pub open spec fn loaded(self, dst: Arg, src: Arg) -> CpuView {
        match (dst, src) {
            (Arg::Reg16(reg), Arg::Imm16(value)) => self.with_registers(
                self.registers.with_r16(reg, value),
            ),
            (Arg::Reg16(reg), Arg::Reg16(from)) => self.with_registers(
                self.registers.with_r16(reg, self.registers.r16(from)),
            ),
            (Arg::MemImm(addr), Arg::Reg16(from)) => CpuView {
                bus: self.bus.poked_word(addr, self.registers.r16(from)),
                ..self
            },
            _ => self.stored(dst, self.operand(src)),
        }
    }

    /// An increment. Words leave the flags alone, bytes leave the carry alone.
    #[verifier::opaque]
    pub open spec fn incremented(self, dst: Arg) -> CpuView {
        match dst {
            Arg::Reg16(reg) => self.with_registers(
                self.registers.with_r16(reg, self.registers.r16(reg).wrapping_add(1)),
            ),
            _ => {
                let r = sum(self.operand(dst), 1, false);
                let carry = self.registers.flag(Flag::Carry);
                self.replaced(dst, AluResult { c: carry, ..r })
            },
        }
    }

    /// A decrement. Words leave the flags alone, bytes leave the carry alone.
    #[verifier::opaque]
    pub open spec fn decremented(self, dst: Arg) -> CpuView {
        match dst {
            Arg::Reg16(reg) => self.with_registers(
                self.registers.with_r16(reg, self.registers.r16(reg).wrapping_sub(1)),
            ),
            _ => {
                let r = difference(self.operand(dst), 1, false);
                let carry = self.registers.flag(Flag::Carry);
                self.replaced(dst, AluResult { c: carry, ..r })
            },
        }
    }

    /// An addition to `HL`, which leaves the zero flag alone.
    #[verifier::opaque]
    pub open spec fn hl_added(self, src: Reg16) -> CpuView {
        let hl = self.hl();
        let v = self.registers.r16(src);
        let zero = self.registers.flag(Flag::Zero);
        self.with_registers(
            self.registers.with_r16(Reg16::HL, hl.wrapping_add(v)).with_flags(
                zero,
                false,
                word_half_carry(hl, v),
                hl + v > 0xFFFF,
            ),
        )
    }

    /// The stack pointer moved by an offset goes to a register. The carries come from the
    /// low byte.
    #[verifier::opaque]
    pub open spec fn sp_moved(self, dst: Reg16, offset: i8) -> CpuView {
        let sp = self.registers.r16(Reg16::SP);
        let v = extended(offset);
        self.with_registers(
            self.registers.with_r16(dst, sp.wrapping_add(v)).with_flags(
                false,
                false,
                sp % 16 + v % 16 > 15,
                sp % 256 + v % 256 > 255,
            ),
        )
    }

    /// A decimal adjustment, which leaves the subtract flag alone.
    #[verifier::opaque]
    pub open spec fn decimal_adjusted(self) -> CpuView {
        let n = self.registers.flag(Flag::Subtract);
        let (value, carry) = adjusted(
            self.registers.r8(Reg8::A),
            n,
            self.registers.flag(Flag::HalfCarry),
            self.registers.flag(Flag::Carry),
        );
        self.accumulated(AluResult { value, z: value == 0, n, h: false, c: carry })
    }

    /// A rotation.
    #[verifier::opaque]
    pub open spec fn rotated_in(self, dst: Arg, left: bool, through: bool, a: bool) -> CpuView {
        let r = rotated(self.operand(dst), left, through, self.registers.flag(Flag::Carry));
        self.replaced(dst, AluResult { z: r.z && !a, ..r })
    }

    /// The accumulator from a port.
    #[verifier::opaque]
    pub open spec fn port_loaded(self, offset: u8) -> CpuView {
        self.stored(Arg::Reg8(Reg8::A), self.bus.peek((0xFF00 + offset) as u16))
    }

    /// The accumulator to a port.
    #[verifier::opaque]
    pub open spec fn port_stored(self, offset: u8) -> CpuView {
        CpuView {
            bus: self.bus.poked((0xFF00 + offset) as u16, self.registers.r8(Reg8::A)),
            ..self
        }
    }

    /// A register pair on the stack.
    #[verifier::opaque]
    pub open spec fn pair_pushed(self, src: Reg16) -> CpuView {
        self.pushed(self.registers.r16(src))
    }

    /// A register pair from the stack.
    #[verifier::opaque]
    pub open spec fn pair_popped(self, dst: Reg16) -> CpuView {
        let s = self.popped();
        s.with_registers(s.registers.with_r16(dst, self.top()))
    }

    /// An exchange of halves.
    #[verifier::opaque]
    pub open spec fn swapped_in(self, dst: Arg) -> CpuView {
        self.replaced(dst, swapped(self.operand(dst)))
    }

    /// A shift.
    #[verifier::opaque]
    pub open spec fn shifted_in(self, dst: Arg, left: bool, arithmetic: bool) -> CpuView {
        self.replaced(dst, shifted(self.operand(dst), left, arithmetic))
    }

    /// A test of a bit, which leaves the carry alone.
    #[verifier::opaque]
    pub open spec fn bit_tested(self, dst: Arg, bit: u8) -> CpuView {
        let carry = self.registers.flag(Flag::Carry);
        self.with_registers(
            self.registers.with_flags(
                self.operand(dst) & (1u8 << bit) == 0,
                false,
                true,
                carry,
            ),
        )
    }

    /// A bit set or cleared.
    #[verifier::opaque]
    pub open spec fn bit_put(self, dst: Arg, bit: u8, on: bool) -> CpuView {
        let value = self.operand(dst);
        self.stored(dst, if on { value | (1u8 << bit) } else { value & !(1u8 << bit) })
    }

    /// The other speed, and the machine stopped for the switch.
    pub open spec fn speed_switched(self) -> CpuView {
        CpuView {
            bus: BusView {
                io: IoView {
                    prep_speed_switch: if self.speed { 0 } else { 0x80 },
                    ..self.bus.io
                },
                ..self.bus
            },
            speed: !self.speed,
            stopped: true,
            ..self
        }
    }

    /// A stop: it switches the speed of a color machine that asked for it, and clears the
    /// divider.
    #[verifier::opaque]
    pub open spec fn stop_done(self) -> CpuView {
        let s = if self.cgb && self.bus.io.prep_speed_switch & 0x01 != 0 {
            self.speed_switched()
        } else {
            self
        };
        CpuView { bus: BusView { timer: s.bus.timer.written(0xFF04, 0), ..s.bus }, ..s }
    }

    /// Flags after an instruction that only touches the carry.
    #[verifier::opaque]
    pub open spec fn carry_put(self, carry: bool) -> CpuView {
        let zero = self.registers.flag(Flag::Zero);
        self.with_registers(self.registers.with_flags(zero, false, false, carry))
    }

    /// The accumulator inverted.
    #[verifier::opaque]
    pub open spec fn complemented(self) -> CpuView {
        let zero = self.registers.flag(Flag::Zero);
        let carry = self.registers.flag(Flag::Carry);
        self.accumulated(
            AluResult { value: !self.registers.r8(Reg8::A), z: zero, n: true, h: true, c: carry },
        )
    }

    /// A byte from or to `HL`, which then moves on or back.
    #[verifier::opaque]
    pub open spec fn hl_loaded(self, from_memory: bool, next: u16) -> CpuView {
        let s = if from_memory {
            self.stored(Arg::Reg8(Reg8::A), self.bus.peek(self.hl()))
        } else {
            CpuView { bus: self.bus.poked(self.hl(), self.registers.r8(Reg8::A)), ..self }
        };
        s.with_registers(s.registers.with_r16(Reg16::HL, next))
    }

    /// A jump, a call or a return.
    #[verifier::opaque]
    pub open spec fn jumped(self, inst: Instruction) -> CpuView {
        let pc = self.registers.PC;
        match inst {
            Instruction::Jp { addr, cond } => if self.holds(cond) {
                self.with_pc(addr)
            } else {
                self
            },
            Instruction::Jr { offset, cond } => if self.holds(cond) {
                self.with_pc(pc.wrapping_add(2).wrapping_add(extended(offset)))
            } else {
                self
            },
            Instruction::Call { addr, cond } => if self.holds(cond) {
                self.pushed(pc.wrapping_add(3)).with_pc(addr)
            } else {
                self
            },
            Instruction::Ret { cond } => if self.holds(cond) {
                self.popped().with_pc(self.top())
            } else {
                self
            },
            Instruction::Rst { offset } => self.pushed(pc.wrapping_add(1)).with_pc(offset as u16),
            Instruction::RetI => CpuView { ime: true, ..self.popped().with_pc(self.top()) },
            _ => self.with_pc(self.hl()),
        }
    }

    /// An arithmetic or logical instruction on the accumulator.
    #[verifier::opaque]
    pub open spec fn accumulator_done(self, inst: Instruction, src: Arg) -> CpuView {
        let a = self.registers.r8(Reg8::A);
        let v = self.operand(src);
        let carry = self.registers.flag(Flag::Carry);
        match inst {
            Instruction::Add { .. } => self.accumulated(sum(a, v, false)),
            Instruction::Adc { .. } => self.accumulated(sum(a, v, carry)),
            Instruction::Sub { .. } => self.accumulated(difference(a, v, false)),
            Instruction::Sbc { .. } => self.accumulated(difference(a, v, carry)),
            Instruction::And { .. } => self.accumulated(logical_of(a, v, LogicalOp::And)),
            Instruction::Xor { .. } => self.accumulated(logical_of(a, v, LogicalOp::Xor)),
            Instruction::Or { .. } => self.accumulated(logical_of(a, v, LogicalOp::Or)),
            _ => self.flagged(difference(a, v, false)),
        }
    }

    /// An arithmetic or logical instruction.
    #[verifier::opaque]
    pub open spec fn computed(self, inst: Instruction) -> CpuView {
        match inst {
            Instruction::Add { src } => self.accumulator_done(inst, src),
            Instruction::Adc { src } => self.accumulator_done(inst, src),
            Instruction::Sub { src } => self.accumulator_done(inst, src),
            Instruction::Sbc { src } => self.accumulator_done(inst, src),
            Instruction::And { src } => self.accumulator_done(inst, src),
            Instruction::Xor { src } => self.accumulator_done(inst, src),
            Instruction::Or { src } => self.accumulator_done(inst, src),
            Instruction::Cp { src } => self.accumulator_done(inst, src),
            Instruction::Inc { dst } => self.incremented(dst),
            Instruction::Dec { dst } => self.decremented(dst),
            Instruction::AddHlReg16 { src } => self.hl_added(src),
            Instruction::AddSpImm8i { offset } => self.sp_moved(Reg16::SP, offset),
            _ => self,
        }
    }

    /// An instruction behind the prefix.
    #[verifier::opaque]
    pub open spec fn bits_done(self, inst: Instruction) -> CpuView {
        match inst {
            Instruction::Rlc { dst } => self.rotated_in(dst, true, false, false),
            Instruction::Rl { dst } => self.rotated_in(dst, true, true, false),
            Instruction::Rrc { dst } => self.rotated_in(dst, false, false, false),
            Instruction::Rr { dst } => self.rotated_in(dst, false, true, false),
            Instruction::Sla { dst } => self.shifted_in(dst, true, false),
            Instruction::Sra { dst } => self.shifted_in(dst, false, true),
            Instruction::Srl { dst } => self.shifted_in(dst, false, false),
            Instruction::Swap { dst } => self.swapped_in(dst),
            Instruction::Bit { dst, bit } => self.bit_tested(dst, bit),
            Instruction::SetBit { dst, bit } => self.bit_put(dst, bit, true),
            Instruction::Res { dst, bit } => self.bit_put(dst, bit, false),
            _ => self,
        }
    }

    /// An instruction on the accumulator, the flags or the state of the processor.
    #[verifier::opaque]
    pub open spec fn controlled(self, inst: Instruction) -> CpuView {
        match inst {
            Instruction::Halt => CpuView { halted: true, ..self },
            Instruction::Stop => self.stop_done(),
            Instruction::Di => CpuView { ime: false, ..self },
            Instruction::Ei => CpuView { ime: true, ..self },
            Instruction::Daa => self.decimal_adjusted(),
            Instruction::Cpl => self.complemented(),
            Instruction::Ccf => self.carry_put(!self.registers.flag(Flag::Carry)),
            Instruction::Scf => self.carry_put(true),
            Instruction::Rlca => self.rotated_in(Arg::Reg8(Reg8::A), true, false, true),
            Instruction::Rla => self.rotated_in(Arg::Reg8(Reg8::A), true, true, true),
            Instruction::Rrca => self.rotated_in(Arg::Reg8(Reg8::A), false, false, true),
            Instruction::Rra => self.rotated_in(Arg::Reg8(Reg8::A), false, true, true),
            _ => self,
        }
    }

    /// A move between the accumulator or the stack pointer and memory, ports or the stack.
    #[verifier::opaque]
    pub open spec fn moved(self, inst: Instruction) -> CpuView {
        match inst {
            Instruction::Ld { dst, src } => self.loaded(dst, src),
            Instruction::LdMemCA => self.port_stored(self.registers.r8(Reg8::C)),
            Instruction::LdAMemC => self.port_loaded(self.registers.r8(Reg8::C)),
            Instruction::LdiAMemHl => self.hl_loaded(true, self.hl().wrapping_add(1)),
            Instruction::LdiMemHlA => self.hl_loaded(false, self.hl().wrapping_add(1)),
            Instruction::LddAMemHl => self.hl_loaded(true, self.hl().wrapping_sub(1)),
            Instruction::LddMemHlA => self.hl_loaded(false, self.hl().wrapping_sub(1)),
            Instruction::LdhA { offset } => self.port_loaded(offset),
            Instruction::Ldh { offset } => self.port_stored(offset),
            Instruction::LdHlSpImm8i { offset } => self.sp_moved(Reg16::HL, offset),
            Instruction::Push { src } => self.pair_pushed(src),
            Instruction::Pop { dst } => self.pair_popped(dst),
            _ => self,
        }
    }

    /// The machine after an instruction. A jump that is taken sets the program counter;
    /// nothing else moves it.
    #[verifier::opaque]
    pub open spec fn effect(self, inst: Instruction) -> CpuView {
        match inst.group() {
            Group::Jump => self.jumped(inst),
            Group::Arithmetic => self.computed(inst),
            Group::Bits => self.bits_done(inst),
            Group::Control => self.controlled(inst),
            Group::Move => self.moved(inst),
        }
    }
}

/// Groups of instructions.
pub enum Group {
    Jump,
    Arithmetic,
    Bits,
    Control,
    Move,
}

impl Instruction {
    pub open spec fn group(self) -> Group {
        match self {
            Instruction::Jp { .. } | Instruction::Jr { .. } => Group::Jump,
            Instruction::Call { .. } => Group::Jump,
            Instruction::Ret { .. } | Instruction::RetI => Group::Jump,
            Instruction::Rst { .. } | Instruction::JpHl => Group::Jump,
            Instruction::Add { .. } | Instruction::Adc { .. } => Group::Arithmetic,
            Instruction::Sub { .. } | Instruction::Sbc { .. } => Group::Arithmetic,
            Instruction::And { .. } | Instruction::Xor { .. } => Group::Arithmetic,
            Instruction::Or { .. } | Instruction::Cp { .. } => Group::Arithmetic,
            Instruction::Inc { .. } | Instruction::Dec { .. } => Group::Arithmetic,
            Instruction::AddHlReg16 { .. } | Instruction::AddSpImm8i { .. } => Group::Arithmetic,
            Instruction::Rlc { .. } | Instruction::Rl { .. } => Group::Bits,
            Instruction::Rrc { .. } | Instruction::Rr { .. } => Group::Bits,
            Instruction::Sla { .. } | Instruction::Sra { .. } => Group::Bits,
            Instruction::Srl { .. } | Instruction::Swap { .. } => Group::Bits,
            Instruction::Bit { .. } | Instruction::SetBit { .. } => Group::Bits,
            Instruction::Res { .. } => Group::Bits,
            Instruction::Nop | Instruction::Halt | Instruction::Stop => Group::Control,
            Instruction::Di | Instruction::Ei | Instruction::Daa => Group::Control,
            Instruction::Cpl | Instruction::Ccf | Instruction::Scf => Group::Control,
            Instruction::Rlca | Instruction::Rla => Group::Control,
            Instruction::Rrca | Instruction::Rra => Group::Control,
            _ => Group::Move,
        }
    }
}

} // verus!
