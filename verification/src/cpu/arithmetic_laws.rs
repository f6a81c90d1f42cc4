//! What arithmetic leaves in the registers and in the bits of `F`.
use vstd::prelude::*;

use crate::cpu::alu::{difference, extended, logical_of, sum, AluResult, LogicalOp};
use crate::cpu::CpuView;
use crate::instructions::{Arg, Instruction};
use crate::registers::{Flag, Reg16, Reg8, RegisterFile};

verus! {

/// Bits 7 to 4 of `F` read: zero, subtract, half carry, carry.
pub open spec fn reads(f: u8, z: bool, n: bool, h: bool, c: bool) -> bool {
    &&& (f >= 128) == z
    &&& ((f / 64) % 2 == 1) == n
    &&& ((f / 32) % 2 == 1) == h
    &&& ((f / 16) % 2 == 1) == c
}

impl CpuView {
    /// Only the accumulator and `F` differ.
    pub open spec fn differs_in_accumulator(self, other: CpuView) -> bool {
        self == (CpuView {
            registers: RegisterFile {
                A: self.registers.A,
                F: self.registers.F,
                ..other.registers
            },
            ..other
        })
    }

    /// An addition: the accumulator and the carry make up the sum, the half carry comes from
    /// the low four bits.
    pub proof fn law_add(self, src: Arg)
        ensures
            ({
                let a = self.registers.A;
                let v = self.operand(src);
                let s = self.effect(Instruction::Add { src });
                &&& s.registers.A == (a + v) % 256
                &&& reads(
                    s.registers.F,
                    s.registers.A == 0,
                    false,
                    a % 16 + v % 16 >= 16,
                    a + v >= 256,
                )
                &&& s.differs_in_accumulator(self)
            }),
    {
        self.lemma_add(src);
        self.lemma_accumulated(sum(self.registers.A, self.operand(src), false));
        reveal(RegisterFile::r8);
        reveal(sum);
    }

    /// An addition with carry is an addition of one more if the carry is set.
    pub proof fn law_add_with_carry(self, src: Arg)
        ensures
            ({
                let a = self.registers.A;
                let v = self.operand(src);
                let one: int = if self.carry_bit() { 1 } else { 0 };
                let s = self.effect(Instruction::Adc { src });
                &&& s.registers.A == (a + v + one) % 256
                &&& reads(
                    s.registers.F,
                    s.registers.A == 0,
                    false,
                    a % 16 + v % 16 + one >= 16,
                    a + v + one >= 256,
                )
                &&& s.differs_in_accumulator(self)
            }),
    {
        self.lemma_adc(src);
        self.lemma_accumulated(sum(self.registers.A, self.operand(src), self.carry_bit()));
        reveal(RegisterFile::r8);
        reveal(RegisterFile::flag);
        reveal(sum);
    }

    /// A subtraction: the carry is set exactly when the operand is greater.
    pub proof fn law_subtract(self, src: Arg)
        ensures
            ({
                let a = self.registers.A;
                let v = self.operand(src);
                let s = self.effect(Instruction::Sub { src });
                &&& s.registers.A == (a - v) % 256
                &&& reads(s.registers.F, a == v, true, a % 16 < v % 16, a < v)
                &&& s.differs_in_accumulator(self)
            }),
    {
        self.lemma_sub(src);
        self.lemma_accumulated(difference(self.registers.A, self.operand(src), false));
        reveal(RegisterFile::r8);
        reveal(difference);
    }

    /// A subtraction with carry takes away one more if the carry is set.
    pub proof fn law_subtract_with_carry(self, src: Arg)
        ensures
            ({
                let a = self.registers.A;
                let v = self.operand(src);
                let one: int = if self.carry_bit() { 1 } else { 0 };
                let s = self.effect(Instruction::Sbc { src });
                &&& s.registers.A == (a - v - one) % 256
                &&& reads(
                    s.registers.F,
                    s.registers.A == 0,
                    true,
                    a % 16 < v % 16 + one,
                    a < v + one,
                )
                &&& s.differs_in_accumulator(self)
            }),
    {
        self.lemma_sbc(src);
        self.lemma_accumulated(difference(self.registers.A, self.operand(src), self.carry_bit()));
        reveal(RegisterFile::r8);
        reveal(RegisterFile::flag);
        reveal(difference);
    }

    /// A comparison sets the flags of a subtraction and keeps the accumulator.
    pub proof fn law_compare(self, src: Arg)
        ensures
            ({
                let a = self.registers.A;
                let v = self.operand(src);
                let s = self.effect(Instruction::Cp { src });
                &&& s.registers.A == a
                &&& reads(s.registers.F, a == v, true, a % 16 < v % 16, a < v)
                &&& s.differs_in_accumulator(self)
            }),
    {
        broadcast use lemma_flags_read;

        self.lemma_cp(src);
        reveal(RegisterFile::r8);

        reveal(difference);
    }

    /// The logical operations work bit by bit. They clear the carry, and `AND` sets the half
    /// carry.
    pub proof fn law_logical(self, src: Arg)
        ensures
            ({
                let a = self.registers.A;
                let v = self.operand(src);
                let and = self.effect(Instruction::And { src });
                let or = self.effect(Instruction::Or { src });
                let xor = self.effect(Instruction::Xor { src });
                &&& and.registers.A == a & v
                &&& or.registers.A == a | v
                &&& xor.registers.A == a ^ v
                &&& reads(and.registers.F, a & v == 0, false, true, false)
                &&& reads(or.registers.F, a | v == 0, false, false, false)
                &&& reads(xor.registers.F, a ^ v == 0, false, false, false)
                &&& and.differs_in_accumulator(self)
                &&& or.differs_in_accumulator(self)
                &&& xor.differs_in_accumulator(self)
            }),
    {
        let a = self.registers.A;
        let v = self.operand(src);
        self.lemma_and(src);
        self.lemma_or(src);
        self.lemma_xor(src);
        self.lemma_accumulated(logical_of(a, v, LogicalOp::And));
        self.lemma_accumulated(logical_of(a, v, LogicalOp::Or));
        self.lemma_accumulated(logical_of(a, v, LogicalOp::Xor));
        reveal(RegisterFile::r8);
        reveal(logical_of);
    }

    /// The accumulator combined with itself: `AND` and `OR` keep it, `XOR` clears it, a
    /// subtraction clears it, and a comparison finds it equal.
    pub proof fn law_accumulator_with_itself(self)
        ensures
            ({
                let src = Arg::Reg8(Reg8::A);
                &&& self.effect(Instruction::And { src }).registers.A == self.registers.A
                &&& self.effect(Instruction::Or { src }).registers.A == self.registers.A
                &&& self.effect(Instruction::Xor { src }).registers.A == 0
                &&& self.effect(Instruction::Sub { src }).registers.A == 0
                &&& self.effect(Instruction::Cp { src }).zero_bit()
            }),
    {
        let src = Arg::Reg8(Reg8::A);
        let a = self.registers.A;
        self.law_logical(src);
        self.law_subtract(src);
        self.law_compare(src);
        reveal(RegisterFile::r8);
        assert(a & a == a && a | a == a && a ^ a == 0) by (bit_vector);
    }

    /// Counting a register up or down by one; the carry stays as it was.
    pub proof fn law_count_register(self, reg: Reg8)
        requires
            reg != Reg8::F,
        ensures
            ({
                let v = self.operand(Arg::Reg8(reg));
                let up = self.effect(Instruction::Inc { dst: Arg::Reg8(reg) });
                let down = self.effect(Instruction::Dec { dst: Arg::Reg8(reg) });
                &&& up.operand(Arg::Reg8(reg)) == (v + 1) % 256
                &&& down.operand(Arg::Reg8(reg)) == (v - 1) % 256
                &&& reads(up.registers.F, v == 255, false, v % 16 == 15, self.carry_bit())
                &&& reads(down.registers.F, v == 1, true, v % 16 == 0, self.carry_bit())
                &&& up.bus == self.bus
                &&& down.bus == self.bus
                &&& up.registers == (RegisterFile {
                    F: up.registers.F,
                    ..self.registers.with_r8(reg, ((v + 1) % 256) as u8)
                })
                &&& down.registers == (RegisterFile {
                    F: down.registers.F,
                    ..self.registers.with_r8(reg, ((v - 1) % 256) as u8)
                })
            }),
    {
        let v = self.operand(Arg::Reg8(reg));
        self.lemma_inc(Arg::Reg8(reg));
        self.lemma_dec(Arg::Reg8(reg));
        reveal(CpuView::incremented);
        reveal(CpuView::decremented);
        assert(self.registers.flag(Flag::Carry) == self.carry_bit()) by {
            reveal(RegisterFile::flag);
        }
        let c = self.carry_bit();
        self.lemma_register_result(reg, AluResult { c, ..sum(v, 1, false) });
        self.lemma_register_result(reg, AluResult { c, ..difference(v, 1, false) });
        reveal(sum);
        reveal(difference);
    }

    /// What is left of a result in a register and the flags.
    pub proof fn lemma_register_result(self, reg: Reg8, r: AluResult)
        requires
            reg != Reg8::F,
        ensures
            ({
                let s = self.replaced(Arg::Reg8(reg), r);
                &&& s.operand(Arg::Reg8(reg)) == r.value
                &&& reads(s.registers.F, r.z, r.n, r.h, r.c)
                &&& s.bus == self.bus
                &&& s.registers == (RegisterFile {
                    F: s.registers.F,
                    ..self.registers.with_r8(reg, r.value)
                })
            }),
    {
        broadcast use lemma_flags_read;

        reveal(RegisterFile::r8);
        reveal(RegisterFile::with_r8);
    }

    /// What is left of a result in the byte that `HL` points at and the flags.
    pub proof fn lemma_byte_result(self, r: AluResult)
        ensures
            ({
                let s = self.replaced(Arg::MemHl, r);
                let at = (256 * self.registers.H + self.registers.L) as u16;
                &&& s.bus == self.bus.poked(at, r.value)
                &&& reads(s.registers.F, r.z, r.n, r.h, r.c)
                &&& s.registers == (RegisterFile { F: s.registers.F, ..self.registers })
            }),
    {
        broadcast use lemma_flags_read;

        reveal(RegisterFile::r16);
    }

    /// Counting the byte that `HL` points at.
    pub proof fn law_count_byte(self)
        ensures
            ({
                let at = (256 * self.registers.H + self.registers.L) as u16;
                let v = self.bus.peek(at);
                let up = self.effect(Instruction::Inc { dst: Arg::MemHl });
                let down = self.effect(Instruction::Dec { dst: Arg::MemHl });
                &&& up.bus == self.bus.poked(at, ((v + 1) % 256) as u8)
                &&& down.bus == self.bus.poked(at, ((v - 1) % 256) as u8)
                &&& reads(up.registers.F, v == 255, false, v % 16 == 15, self.carry_bit())
                &&& reads(down.registers.F, v == 1, true, v % 16 == 0, self.carry_bit())
                &&& up.registers == (RegisterFile { F: up.registers.F, ..self.registers })
                &&& down.registers == (RegisterFile { F: down.registers.F, ..self.registers })
            }),
    {
        let v = self.operand(Arg::MemHl);
        self.lemma_inc(Arg::MemHl);
        self.lemma_dec(Arg::MemHl);
        reveal(CpuView::incremented);
        reveal(CpuView::decremented);
        assert(self.registers.flag(Flag::Carry) == self.carry_bit()) by {
            reveal(RegisterFile::flag);
        }
        assert(self.hl() == 256 * self.registers.H + self.registers.L) by {
            reveal(RegisterFile::r16);
        }
        let c = self.carry_bit();
        self.lemma_byte_result(AluResult { c, ..sum(v, 1, false) });
        self.lemma_byte_result(AluResult { c, ..difference(v, 1, false) });
        reveal(sum);
        reveal(difference);
    }

    /// Counting a pair up or down by one, without a flag; one undoes the other.
    pub proof fn law_count_pair(self, reg: Reg16)
        requires
            reg != Reg16::AF,
        ensures
            ({
                let v = self.registers.r16(reg);
                let up = self.effect(Instruction::Inc { dst: Arg::Reg16(reg) });
                let down = self.effect(Instruction::Dec { dst: Arg::Reg16(reg) });
                &&& up.registers.r16(reg) == (v + 1) % 65536
                &&& down.registers.r16(reg) == (v - 1) % 65536
                &&& up.registers == self.registers.with_r16(reg, up.registers.r16(reg))
                &&& down.registers == self.registers.with_r16(reg, down.registers.r16(reg))
                &&& up.registers.F == self.registers.F
                &&& down.registers.F == self.registers.F
                &&& up.bus == self.bus && down.bus == self.bus
                &&& up.effect(Instruction::Dec { dst: Arg::Reg16(reg) }) == self
                &&& down.effect(Instruction::Inc { dst: Arg::Reg16(reg) }) == self
            }),
    {
        let v = self.registers.r16(reg);
        let up = self.effect(Instruction::Inc { dst: Arg::Reg16(reg) });
        let down = self.effect(Instruction::Dec { dst: Arg::Reg16(reg) });
        self.lemma_inc(Arg::Reg16(reg));
        self.lemma_dec(Arg::Reg16(reg));
        up.lemma_dec(Arg::Reg16(reg));
        down.lemma_inc(Arg::Reg16(reg));
        reveal(CpuView::incremented);
        reveal(CpuView::decremented);
        lemma_pair_put(self.registers, reg, v.wrapping_add(1));
        lemma_pair_put(self.registers, reg, v.wrapping_sub(1));
        assert(v.wrapping_add(1).wrapping_sub(1) == v);
        assert(v.wrapping_sub(1).wrapping_add(1) == v);
    }

    /// An addition of a pair to `HL`: the half carry comes from the low twelve bits, and the
    /// zero flag stays.
    pub proof fn law_add_pair(self, src: Reg16)
        ensures
            ({
                let hl = 256 * self.registers.H + self.registers.L;
                let v = self.registers.r16(src);
                let s = self.effect(Instruction::AddHlReg16 { src });
                &&& 256 * s.registers.H + s.registers.L == (hl + v) % 65536
                &&& reads(
                    s.registers.F,
                    self.zero_bit(),
                    false,
                    hl % 4096 + v % 4096 >= 4096,
                    hl + v >= 65536,
                )
                &&& s == (CpuView {
                    registers: RegisterFile {
                        H: s.registers.H,
                        L: s.registers.L,
                        F: s.registers.F,
                        ..self.registers
                    },
                    ..self
                })
            }),
    {
        let hl = self.hl();
        let v = self.registers.r16(src);
        self.lemma_add_hl(src);
        reveal(CpuView::hl_added);
        assert(self.registers.flag(Flag::Zero) == self.zero_bit()) by {
            reveal(RegisterFile::flag);
        }
        assert(hl == 256 * self.registers.H + self.registers.L) by {
            reveal(RegisterFile::r16);
        }
        let h = hl % 4096 + v % 4096 > 4095;
        self.lemma_word_result(Reg16::HL, hl.wrapping_add(v), self.zero_bit(), h, hl + v > 0xFFFF);
    }

    /// A signed offset added to the stack pointer, into itself or into `HL`. The carries are
    /// those of the low byte, zero and subtract are clear.
    pub proof fn law_add_offset(self, offset: i8)
        ensures
            ({
                let sp = self.registers.SP;
                let byte = offset as int % 256;
                let h = sp % 16 + byte % 16 >= 16;
                let c = sp % 256 + byte >= 256;
                let s = self.effect(Instruction::AddSpImm8i { offset });
                let l = self.effect(Instruction::LdHlSpImm8i { offset });
                &&& s.registers.SP == (sp + offset) % 65536
                &&& reads(s.registers.F, false, false, h, c)
                &&& s.registers == (RegisterFile {
                    SP: s.registers.SP,
                    F: s.registers.F,
                    ..self.registers
                })
                &&& 256 * l.registers.H + l.registers.L == (sp + offset) % 65536
                &&& reads(l.registers.F, false, false, h, c)
                &&& l.registers == (RegisterFile {
                    H: l.registers.H,
                    L: l.registers.L,
                    F: l.registers.F,
                    ..self.registers
                })
            }),
    {
        let sp = self.registers.SP;
        let v = extended(offset);
        self.lemma_add_sp(offset);
        self.lemma_ld_hl_sp(offset);
        lemma_extended(offset);
        assert(self.registers.r16(Reg16::SP) == sp) by {
            reveal(RegisterFile::r16);
        }
        assert(sp.wrapping_add(v) == (sp + offset) % 65536);
        let h = sp % 16 + v % 16 > 15;
        let c = sp % 256 + v % 256 > 255;
        self.lemma_word_result(Reg16::SP, sp.wrapping_add(v), false, h, c);
        self.lemma_word_result(Reg16::HL, sp.wrapping_add(v), false, h, c);
        reveal(CpuView::sp_moved);
    }

    /// What is left of a result in a pair and the flags.
    proof fn lemma_word_result(self, dst: Reg16, value: u16, z: bool, h: bool, c: bool)
        requires
            dst == Reg16::SP || dst == Reg16::HL,
        ensures
            ({
                let r = self.registers.with_r16(dst, value).with_flags(z, false, h, c);
                &&& reads(r.F, z, false, h, c)
                &&& dst == Reg16::SP ==> r == (RegisterFile {
                    SP: value,
                    F: r.F,
                    ..self.registers
                })
                &&& dst == Reg16::HL ==> r == (RegisterFile {
                    H: r.H,
                    L: r.L,
                    F: r.F,
                    ..self.registers
                })
                &&& dst == Reg16::HL ==> 256 * r.H + r.L == value
            }),
    {
        broadcast use lemma_flags_read;

        reveal(RegisterFile::with_r16);
    }

    /// What is left of a result in the accumulator and the flags.
    proof fn lemma_accumulated(self, r: AluResult)
        ensures
            self.accumulated(r).registers.A == r.value,
            reads(self.accumulated(r).registers.F, r.z, r.n, r.h, r.c),
            self.accumulated(r).differs_in_accumulator(self),
    {
        broadcast use lemma_flags_read;

        reveal(RegisterFile::with_r8);
    }
}

/// A signed byte as a word keeps its low byte.
proof fn lemma_extended(offset: i8)
    ensures
        extended(offset) == offset as int % 65536,
        extended(offset) % 256 == offset as int % 256,
        extended(offset) % 16 == (offset as int % 256) % 16,
{
    reveal(extended);
}

/// A pair that is set reads as it was set, and is undone by setting it back.
proof fn lemma_pair_put(r: RegisterFile, reg: Reg16, value: u16)
    requires
        reg != Reg16::AF,
    ensures
        r.with_r16(reg, value).r16(reg) == value,
        r.with_r16(reg, value).F == r.F,
        r.with_r16(reg, value).with_r16(reg, r.r16(reg)) == r,
{
    reveal(RegisterFile::r16);
    reveal(RegisterFile::with_r16);
}

/// Flags that are set read as they were set.
pub broadcast proof fn lemma_flags_read(r: RegisterFile, z: bool, n: bool, h: bool, c: bool)
    ensures
        reads((#[trigger] r.with_flags(z, n, h, c)).F, z, n, h, c),
        r.with_flags(z, n, h, c) == (RegisterFile { F: r.with_flags(z, n, h, c).F, ..r }),
{
    reveal(RegisterFile::with_flags);
}

} // verus!
