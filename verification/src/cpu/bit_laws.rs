//! What rotations, shifts and single bits leave in operands and in the bits of `F`.
use vstd::prelude::*;

use crate::cpu::alu::{adjusted, rotated, shifted, swapped, AluResult};
use crate::cpu::arithmetic_laws::{lemma_flags_read, reads};
use crate::cpu::CpuView;
use crate::instructions::{Arg, Instruction};
use crate::registers::{Flag, Reg8, RegisterFile};

verus! {

impl CpuView {
    /// The machine is another one with a byte stored in an operand, but for `F`.
    pub open spec fn stores(self, other: CpuView, dst: Arg, value: int) -> bool {
        let t = other.stored(dst, value as u8);
        &&& 0 <= value < 256
        &&& self == (CpuView {
            registers: RegisterFile { F: self.registers.F, ..t.registers },
            ..t
        })
    }

    /// Rotations in a circle: the bit that leaves at one end comes in at the other and is the
    /// carry.
    pub proof fn law_rotate(self, dst: Arg)
        ensures
            ({
                let v = self.operand(dst);
                let left = self.effect(Instruction::Rlc { dst });
                let right = self.effect(Instruction::Rrc { dst });
                &&& left.stores(self, dst, (2 * v) % 256 + v / 128)
                &&& right.stores(self, dst, v / 2 + 128 * (v % 2))
                &&& reads(left.registers.F, v == 0, false, false, v >= 128)
                &&& reads(right.registers.F, v == 0, false, false, v % 2 == 1)
            }),
    {
        let v = self.operand(dst);
        self.lemma_rlc(dst);
        self.lemma_rrc(dst);
        reveal(CpuView::rotated_in);
        let carry = self.registers.flag(Flag::Carry);
        self.lemma_replaced(dst, rotated(v, true, false, carry));
        self.lemma_replaced(dst, rotated(v, false, false, carry));
        lemma_rotated(v, carry);
    }

    /// Rotations through the carry: operand and carry together are nine bits, which move by
    /// one.
    pub proof fn law_rotate_through_carry(self, dst: Arg)
        ensures
            ({
                let v = self.operand(dst);
                let one: int = if self.carry_bit() { 1 } else { 0 };
                let left = self.effect(Instruction::Rl { dst });
                let right = self.effect(Instruction::Rr { dst });
                &&& left.stores(self, dst, (2 * v + one) % 256)
                &&& right.stores(self, dst, (v + 256 * one) / 2)
                &&& reads(left.registers.F, (2 * v + one) % 256 == 0, false, false, v >= 128)
                &&& reads(right.registers.F, (v + 256 * one) / 2 == 0, false, false, v % 2 == 1)
            }),
    {
        let v = self.operand(dst);
        self.lemma_rl(dst);
        self.lemma_rr(dst);
        reveal(CpuView::rotated_in);
        let carry = self.registers.flag(Flag::Carry);
        assert(carry == self.carry_bit()) by {
            reveal(RegisterFile::flag);
        }
        self.lemma_replaced(dst, rotated(v, true, true, carry));
        self.lemma_replaced(dst, rotated(v, false, true, carry));
        lemma_rotated(v, carry);
    }

    /// The short rotations are those of the accumulator, but never set the zero flag.
    pub proof fn law_short_rotations(self)
        ensures
            ({
                let a = Arg::Reg8(Reg8::A);
                let v = self.registers.A;
                let one: int = if self.carry_bit() { 1 } else { 0 };
                let rlca = self.effect(Instruction::Rlca);
                let rla = self.effect(Instruction::Rla);
                let rrca = self.effect(Instruction::Rrca);
                let rra = self.effect(Instruction::Rra);
                &&& rlca.registers.A == (2 * v) % 256 + v / 128
                &&& rla.registers.A == (2 * v + one) % 256
                &&& rrca.registers.A == v / 2 + 128 * (v % 2)
                &&& rra.registers.A == (v + 256 * one) / 2
                &&& reads(rlca.registers.F, false, false, false, v >= 128)
                &&& reads(rla.registers.F, false, false, false, v >= 128)
                &&& reads(rrca.registers.F, false, false, false, v % 2 == 1)
                &&& reads(rra.registers.F, false, false, false, v % 2 == 1)
                &&& rlca.differs_in_accumulator(self)
                &&& rla.differs_in_accumulator(self)
                &&& rrca.differs_in_accumulator(self)
                &&& rra.differs_in_accumulator(self)
            }),
    {
        let a = Arg::Reg8(Reg8::A);
        let v = self.operand(a);
        self.lemma_rlca();
        self.lemma_rla();
        self.lemma_rrca();
        self.lemma_rra();
        reveal(CpuView::rotated_in);
        let c = self.registers.flag(Flag::Carry);
        assert(c == self.carry_bit()) by {
            reveal(RegisterFile::flag);
        }
        assert(v == self.registers.A) by {
            reveal(RegisterFile::r8);
        }
        self.lemma_in_accumulator(AluResult { z: false, ..rotated(v, true, false, c) });
        self.lemma_in_accumulator(AluResult { z: false, ..rotated(v, true, true, c) });
        self.lemma_in_accumulator(AluResult { z: false, ..rotated(v, false, false, c) });
        self.lemma_in_accumulator(AluResult { z: false, ..rotated(v, false, true, c) });
        lemma_rotated(v, c);
    }

    /// Shifts: to the left doubles, to the right halves, with or without the sign; the carry
    /// is the bit that left.
    pub proof fn law_shift(self, dst: Arg)
        ensures
            ({
                let v = self.operand(dst);
                let left = self.effect(Instruction::Sla { dst });
                let signed = self.effect(Instruction::Sra { dst });
                let right = self.effect(Instruction::Srl { dst });
                &&& left.stores(self, dst, (2 * v) % 256)
                &&& signed.stores(self, dst, v / 2 + (if v >= 128 { 128int } else { 0 }))
                &&& right.stores(self, dst, (v / 2) as int)
                &&& reads(left.registers.F, v == 0 || v == 128, false, false, v >= 128)
                &&& reads(signed.registers.F, v < 2, false, false, v % 2 == 1)
                &&& reads(right.registers.F, v < 2, false, false, v % 2 == 1)
            }),
    {
        let v = self.operand(dst);
        self.lemma_sla(dst);
        self.lemma_sra(dst);
        self.lemma_srl(dst);
        reveal(CpuView::shifted_in);
        self.lemma_replaced(dst, shifted(v, true, false));
        self.lemma_replaced(dst, shifted(v, false, true));
        self.lemma_replaced(dst, shifted(v, false, false));
        reveal(shifted);
    }

    /// The exchange of the two hexadecimal digits.
    pub proof fn law_swap(self, dst: Arg)
        ensures
            ({
                let v = self.operand(dst);
                let s = self.effect(Instruction::Swap { dst });
                &&& s.stores(self, dst, 16 * (v % 16) + v / 16)
                &&& reads(s.registers.F, v == 0, false, false, false)
            }),
    {
        self.lemma_swap(dst);
        reveal(CpuView::swapped_in);
        self.lemma_replaced(dst, swapped(self.operand(dst)));
        reveal(swapped);
    }

    /// A test of a bit sets the zero flag exactly when the bit is clear, and changes nothing
    /// but `F`, where the carry stays.
    pub proof fn law_test_bit(self, dst: Arg, bit: u8)
        requires
            bit < 8,
        ensures
            ({
                let s = self.effect(Instruction::Bit { dst, bit });
                &&& reads(
                    s.registers.F,
                    (self.operand(dst) >> bit) % 2 == 0,
                    false,
                    true,
                    self.carry_bit(),
                )
                &&& s == (CpuView {
                    registers: RegisterFile { F: s.registers.F, ..self.registers },
                    ..self
                })
            }),
    {
        broadcast use lemma_flags_read;

        self.lemma_bit(dst, bit);
        reveal(CpuView::bit_tested);
        assert(self.registers.flag(Flag::Carry) == self.carry_bit()) by {
            reveal(RegisterFile::flag);
        }
        lemma_bit_of_byte(self.operand(dst), bit);
    }

    /// Setting a bit adds its weight where it was clear, clearing it takes the weight away
    /// where it was set; no flag changes.
    pub proof fn law_put_bit(self, dst: Arg, bit: u8)
        requires
            bit < 8,
        ensures
            ({
                let v = self.operand(dst);
                let on = (v >> bit) % 2 == 1;
                let weight = 1u8 << bit;
                &&& self.effect(Instruction::SetBit { dst, bit }) == self.stored(
                    dst,
                    (if on { v as int } else { v + weight }) as u8,
                )
                &&& self.effect(Instruction::Res { dst, bit }) == self.stored(
                    dst,
                    (if on { v - weight } else { v as int }) as u8,
                )
            }),
    {
        self.lemma_set_bit(dst, bit);
        self.lemma_res(dst, bit);
        reveal(CpuView::bit_put);
        lemma_bit_of_byte(self.operand(dst), bit);
    }

    /// The complement takes the accumulator from 255 and sets subtract and half carry; the
    /// carry is set by one instruction and inverted by another, which keep zero.
    pub proof fn law_complement_and_carry(self)
        ensures
            ({
                let cpl = self.effect(Instruction::Cpl);
                let scf = self.effect(Instruction::Scf);
                let ccf = self.effect(Instruction::Ccf);
                &&& cpl.registers.A == 255 - self.registers.A
                &&& reads(cpl.registers.F, self.zero_bit(), true, true, self.carry_bit())
                &&& cpl.differs_in_accumulator(self)
                &&& reads(scf.registers.F, self.zero_bit(), false, false, true)
                &&& reads(ccf.registers.F, self.zero_bit(), false, false, !self.carry_bit())
                &&& scf.registers == (RegisterFile { F: scf.registers.F, ..self.registers })
                &&& ccf.registers == (RegisterFile { F: ccf.registers.F, ..self.registers })
                &&& scf.bus == self.bus
                &&& ccf.bus == self.bus
            }),
    {
        broadcast use lemma_flags_read;

        self.lemma_cpl();
        self.lemma_scf();
        self.lemma_ccf();
        reveal(CpuView::complemented);
        reveal(CpuView::carry_put);
        reveal(RegisterFile::flag);
        reveal(RegisterFile::r8);
        reveal(RegisterFile::with_r8);
        lemma_complement(self.registers.A);
    }

    /// The decimal adjustment leaves subtract as it was, clears half carry and says zero of
    /// what it left. After a subtraction it takes 6 away for a half carry and 0x60 for a
    /// carry, which stays; after an addition it adds them, also for a digit over nine.
    pub proof fn law_decimal_adjust(self)
        ensures
            ({
                let a = self.registers.A;
                let f = self.registers.F;
                let subtract = (f / 64) % 2 == 1;
                let half = (f / 32) % 2 == 1;
                let carry = self.carry_bit();
                let s = self.effect(Instruction::Daa);
                let up = !subtract && (half || a % 16 > 9);
                let over = carry || (!subtract && a > 0x99);
                let low: int = if subtract && half {
                    -6
                } else if up {
                    6
                } else {
                    0
                };
                let high: int = if !over {
                    0
                } else if subtract {
                    -0x60
                } else {
                    0x60
                };
                &&& s.registers.A == (a + low + high) % 256
                &&& reads(s.registers.F, s.registers.A == 0, subtract, false, over)
                &&& s.differs_in_accumulator(self)
            }),
    {
        self.lemma_daa();
        reveal(CpuView::decimal_adjusted);
        let f = self.registers.F;
        assert({
            &&& self.registers.flag(Flag::Subtract) == ((f / 64) % 2 == 1)
            &&& self.registers.flag(Flag::HalfCarry) == ((f / 32) % 2 == 1)
            &&& self.registers.flag(Flag::Carry) == self.carry_bit()
        }) by {
            reveal(RegisterFile::flag);
        }
        assert(self.registers.r8(Reg8::A) == self.registers.A) by {
            reveal(RegisterFile::r8);
        }
        let (value, c) = adjusted(
            self.registers.A,
            self.registers.flag(Flag::Subtract),
            self.registers.flag(Flag::HalfCarry),
            self.registers.flag(Flag::Carry),
        );
        let n = self.registers.flag(Flag::Subtract);
        lemma_adjusted(self.registers.A, n, self.registers.flag(Flag::HalfCarry), self.carry_bit());
        self.lemma_in_accumulator(AluResult { value, z: value == 0, n, h: false, c });
    }

    /// What is left of a result in the accumulator and the flags.
    proof fn lemma_in_accumulator(self, r: AluResult)
        ensures
            ({
                let s = self.replaced(Arg::Reg8(Reg8::A), r);
                &&& s.registers.A == r.value
                &&& reads(s.registers.F, r.z, r.n, r.h, r.c)
                &&& s.differs_in_accumulator(self)
            }),
    {
        broadcast use lemma_flags_read;

        reveal(RegisterFile::with_r8);
    }

    /// What is left of a result in an operand and the flags.
    proof fn lemma_replaced(self, dst: Arg, r: AluResult)
        ensures
            self.replaced(dst, r).stores(self, dst, r.value as int),
            reads(self.replaced(dst, r).registers.F, r.z, r.n, r.h, r.c),
    {
        broadcast use lemma_flags_read;

    }
}

/// The four rotations of a byte.
proof fn lemma_rotated(v: u8, carry: bool)
    ensures
        ({
            let one: int = if carry { 1 } else { 0 };
            let rlc = rotated(v, true, false, carry);
            let rl = rotated(v, true, true, carry);
            let rrc = rotated(v, false, false, carry);
            let rr = rotated(v, false, true, carry);
            &&& rlc.value == (2 * v) % 256 + v / 128
            &&& rl.value == (2 * v + one) % 256
            &&& rrc.value == v / 2 + 128 * (v % 2)
            &&& rr.value == (v + 256 * one) / 2
            &&& rlc == (AluResult { z: v == 0, n: false, h: false, c: v >= 128, ..rlc })
            &&& rl == (AluResult { z: rl.value == 0, n: false, h: false, c: v >= 128, ..rl })
            &&& rrc == (AluResult { z: v == 0, n: false, h: false, c: v % 2 == 1, ..rrc })
            &&& rr == (AluResult { z: rr.value == 0, n: false, h: false, c: v % 2 == 1, ..rr })
        }),
{
    reveal(rotated);
}

/// The decimal adjustment of a byte.
proof fn lemma_adjusted(a: u8, subtract: bool, half: bool, carry: bool)
    ensures
        ({
            let up = !subtract && (half || a % 16 > 9);
            let over = carry || (!subtract && a > 0x99);
            let low: int = if subtract && half {
                -6
            } else if up {
                6
            } else {
                0
            };
            let high: int = if !over {
                0
            } else if subtract {
                -0x60
            } else {
                0x60
            };
            adjusted(a, subtract, half, carry) == (((a + low + high) % 256) as u8, over)
        }),
{
    reveal(adjusted);
}

/// A bit of a byte and its weight.
proof fn lemma_bit_of_byte(v: u8, bit: u8)
    by (bit_vector)
    requires
        bit < 8,
    ensures
        (v & (1u8 << bit) == 0) <==> ((v >> bit) % 2 == 0),
        (v >> bit) % 2 == 0 ==> v | (1u8 << bit) == v + (1u8 << bit),
        (v >> bit) % 2 == 0 ==> v & !(1u8 << bit) == v,
        (v >> bit) % 2 == 1 ==> v | (1u8 << bit) == v,
        (v >> bit) % 2 == 1 ==> v & !(1u8 << bit) == v - (1u8 << bit),
{
}

/// The complement of a byte.
proof fn lemma_complement(v: u8)
    by (bit_vector)
    ensures
        !v == 255 - v,
{
}

} // verus!
