//! Execution of a single instruction, given as a value.
use vstd::prelude::*;

use crate::cpu::decoding::{
    lemma_arithmetic, lemma_arithmetic_immediate, lemma_decrement, lemma_decrement_pair,
    lemma_increment, lemma_increment_pair, lemma_load, lemma_load_immediate, lemma_pop,
    lemma_prefixed, lemma_push,
};
use crate::cpu::dispatch::{dispatch, dispatch_prefixed};
use crate::cpu::Cpu;
use crate::instructions::{
    alu_at, cond_at, decoded, instruction_of, load_operand_at, operand_at, pair_at, prefix_decoded,
    reg_at, stack_pair_at, unsigned_byte, valid_opcode, Arg, Cond, Instruction,
};
use crate::registers::{Reg16, Reg8};

verus! {

/// Three bits of an opcode name this operand.
pub open spec fn has_index(arg: Arg) -> bool {
    arg is MemHl || (arg is Reg8 && arg->Reg8_0 != Reg8::F)
}

/// A register pair that can be counted up and down.
pub open spec fn is_counter(arg: Arg) -> bool {
    arg is Reg16 && arg->Reg16_0 != Reg16::AF && arg->Reg16_0 != Reg16::PC
}

/// A load that an opcode encodes.
pub open spec fn is_load(dst: Arg, src: Arg) -> bool {
    match (dst, src) {
        (Arg::Reg8(d), Arg::Imm8(_)) => d != Reg8::F,
        (Arg::Reg8(d), Arg::Reg8(s)) => d != Reg8::F && s != Reg8::F,
        (Arg::Reg8(d), Arg::Mem(Reg16::HL)) => d != Reg8::F,
        (Arg::Mem(Reg16::HL), Arg::Reg8(s)) => s != Reg8::F,
        (Arg::Mem(Reg16::HL), Arg::Imm8(_)) => true,
        (Arg::Reg8(Reg8::A), Arg::Mem(Reg16::BC)) => true,
        (Arg::Reg8(Reg8::A), Arg::Mem(Reg16::DE)) => true,
        (Arg::Mem(Reg16::BC), Arg::Reg8(Reg8::A)) => true,
        (Arg::Mem(Reg16::DE), Arg::Reg8(Reg8::A)) => true,
        (Arg::Reg8(Reg8::A), Arg::MemImm(_)) => true,
        (Arg::MemImm(_), Arg::Reg8(Reg8::A)) => true,
        (Arg::Reg16(r), Arg::Imm16(_)) => r != Reg16::AF && r != Reg16::PC,
        (Arg::Reg16(Reg16::SP), Arg::Reg16(Reg16::HL)) => true,
        (Arg::MemImm(_), Arg::Reg16(Reg16::SP)) => true,
        _ => false,
    }
}

/// An opcode encodes the instruction.
pub open spec fn encodable(inst: Instruction) -> bool {
    match inst {
        Instruction::Ld { dst, src } => is_load(dst, src),
        Instruction::Add { src } => has_index(src) || src is Imm8,
        Instruction::Adc { src } => has_index(src) || src is Imm8,
        Instruction::Sub { src } => has_index(src) || src is Imm8,
        Instruction::Sbc { src } => has_index(src) || src is Imm8,
        Instruction::And { src } => has_index(src) || src is Imm8,
        Instruction::Xor { src } => has_index(src) || src is Imm8,
        Instruction::Or { src } => has_index(src) || src is Imm8,
        Instruction::Cp { src } => has_index(src) || src is Imm8,
        Instruction::Inc { dst } => has_index(dst) || is_counter(dst),
        Instruction::Dec { dst } => has_index(dst) || is_counter(dst),
        Instruction::AddHlReg16 { src } => src != Reg16::AF && src != Reg16::PC,
        Instruction::Push { src } => src != Reg16::SP && src != Reg16::PC,
        Instruction::Pop { dst } => dst != Reg16::SP && dst != Reg16::PC,
        Instruction::Rst { offset } => offset % 8 == 0 && offset <= 0x38,
        Instruction::Rlc { dst } => has_index(dst),
        Instruction::Rl { dst } => has_index(dst),
        Instruction::Rrc { dst } => has_index(dst),
        Instruction::Rr { dst } => has_index(dst),
        Instruction::Sla { dst } => has_index(dst),
        Instruction::Sra { dst } => has_index(dst),
        Instruction::Srl { dst } => has_index(dst),
        Instruction::Swap { dst } => has_index(dst),
        Instruction::Bit { dst, bit } => has_index(dst) && bit < 8,
        Instruction::SetBit { dst, bit } => has_index(dst) && bit < 8,
        Instruction::Res { dst, bit } => has_index(dst) && bit < 8,
        _ => true,
    }
}

/// The three bits that name an operand.
pub fn cbidx(dst: Arg) -> (r: u8)
    requires
        has_index(dst),
    ensures
        r < 8,
        operand_at(r) == dst,
        r == 6 <==> dst == Arg::MemHl,
        dst matches Arg::Reg8(reg) ==> reg_at(r) == reg,
{
    reveal(operand_at);
    reveal(reg_at);
    match dst {
        Arg::Reg8(Reg8::B) => 0,
        Arg::Reg8(Reg8::C) => 1,
        Arg::Reg8(Reg8::D) => 2,
        Arg::Reg8(Reg8::E) => 3,
        Arg::Reg8(Reg8::H) => 4,
        Arg::Reg8(Reg8::L) => 5,
        Arg::MemHl => 6,
        _ => 7,
    }
}

/// The three bits that name an 8-bit register.
fn reg_index(reg: Reg8) -> (r: u8)
    requires
        reg != Reg8::F,
    ensures
        r < 8,
        r != 6,
        reg_at(r) == reg,
{
    cbidx(Arg::Reg8(reg))
}

/// The opcode bits of a register pair.
fn pair_index(reg: Reg16) -> (r: u8)
    requires
        reg != Reg16::AF,
        reg != Reg16::PC,
    ensures
        r < 4,
        r == 0 <==> reg == Reg16::BC,
        r == 1 <==> reg == Reg16::DE,
        r == 2 <==> reg == Reg16::HL,
        r == 3 <==> reg == Reg16::SP,
{
    match reg {
        Reg16::BC => 0,
        Reg16::DE => 1,
        Reg16::HL => 2,
        _ => 3,
    }
}

/// The opcode of an arithmetic or logical instruction, and its byte.
fn encode_alu(index: u8, src: Arg) -> (r: (u8, u8))
    requires
        index < 8,
        has_index(src) || src is Imm8,
    ensures
        valid_opcode(r.0),
        r.0 != 0xCB,
        decoded(r.0, r.1, 0) == alu_at(index, src),
{
    match src {
        Arg::Imm8(value) => {
            let op: u8 = 0xC6 + 8 * index;
            proof {
                lemma_arithmetic_immediate(op, value, 0);
            }
            (op, value)
        },
        _ => {
            let op: u8 = 0x80 + 8 * index + cbidx(src);
            proof {
                lemma_arithmetic(op, 0, 0);
            }
            (op, 0)
        },
    }
}

fn encode_inc(dst: Arg) -> (op: u8)
    requires
        has_index(dst) || is_counter(dst),
    ensures
        valid_opcode(op),
        op != 0xCB,
        decoded(op, 0, 0) == (Instruction::Inc { dst }),
{
    match dst {
        Arg::Reg16(reg) => {
            reveal(pair_at);
            let op: u8 = 0x03 + 16 * pair_index(reg);
            proof {
                lemma_increment_pair(op, 0, 0);
            }
            op
        },
        _ => {
            let op: u8 = 0x04 + 8 * cbidx(dst);
            proof {
                lemma_increment(op, 0, 0);
            }
            op
        },
    }
}

fn encode_dec(dst: Arg) -> (op: u8)
    requires
        has_index(dst) || is_counter(dst),
    ensures
        valid_opcode(op),
        op != 0xCB,
        decoded(op, 0, 0) == (Instruction::Dec { dst }),
{
    match dst {
        Arg::Reg16(reg) => {
            reveal(pair_at);
            let op: u8 = 0x0B + 16 * pair_index(reg);
            proof {
                lemma_decrement_pair(op, 0, 0);
            }
            op
        },
        _ => {
            let op: u8 = 0x05 + 8 * cbidx(dst);
            proof {
                lemma_decrement(op, 0, 0);
            }
            op
        },
    }
}

/// The opcode of a load between registers and the byte that `HL` points at, or of one with
/// a byte that follows.
fn encode_ld8(dst_index: u8, src_index: u8) -> (op: u8)
    requires
        dst_index < 8,
        src_index < 8,
        !(dst_index == 6 && src_index == 6),
    ensures
        valid_opcode(op),
        op != 0xCB,
        decoded(op, 0, 0) == (Instruction::Ld {
            dst: load_operand_at(dst_index),
            src: load_operand_at(src_index),
        }),
{
    let op: u8 = 0x40 + 8 * dst_index + src_index;
    proof {
        lemma_load(op, 0, 0);
    }
    op
}

/// The opcode of a load, and the byte and the word that follow it.
fn encode_ld(dst: Arg, src: Arg) -> (r: (u8, u8, u16))
    requires
        is_load(dst, src),
    ensures
        valid_opcode(r.0),
        r.0 != 0xCB,
        decoded(r.0, r.1, r.2) == (Instruction::Ld { dst, src }),
{
    reveal(load_operand_at);
    reveal(pair_at);
    match (dst, src) {
        (Arg::Reg8(d), Arg::Imm8(n)) => {
            let op: u8 = 0x06 + 8 * reg_index(d);
            proof {
                lemma_load_immediate(op, n, 0);
            }
            (op, n, 0)
        },
        (Arg::Mem(Reg16::HL), Arg::Imm8(n)) => {
            proof {
                lemma_load_immediate(0x36, n, 0);
            }
            (0x36, n, 0)
        },
        (Arg::Reg8(d), Arg::Reg8(s)) => (encode_ld8(reg_index(d), reg_index(s)), 0, 0),
        (Arg::Reg8(d), Arg::Mem(Reg16::HL)) => (encode_ld8(reg_index(d), 6), 0, 0),
        (Arg::Mem(Reg16::HL), Arg::Reg8(s)) => (encode_ld8(6, reg_index(s)), 0, 0),
        (Arg::Reg16(r), Arg::Imm16(n)) => {
            reveal(decoded);
            (0x01 + 16 * pair_index(r), 0, n)
        },
        (_, Arg::Mem(r)) => {
            reveal(decoded);
            (0x0A + 16 * pair_index(r), 0, 0)
        },
        (Arg::Mem(r), _) => {
            reveal(decoded);
            (0x02 + 16 * pair_index(r), 0, 0)
        },
        (_, Arg::MemImm(addr)) => {
            reveal(decoded);
            (0xFA, 0, addr)
        },
        (Arg::MemImm(addr), Arg::Reg8(_)) => {
            reveal(decoded);
            (0xEA, 0, addr)
        },
        (Arg::MemImm(addr), _) => {
            reveal(decoded);
            (0x08, 0, addr)
        },
        _ => {
            reveal(decoded);
            (0xF9, 0, 0)
        },
    }
}

/// The opcode of a condition, from the opcode without one and the first with one.
fn encode_cond(cond: Cond, always: u8, first: u8) -> (op: u8)
    requires
        first <= 0xE0,
        (first / 8) % 4 == 0,
    ensures
        cond == Cond::Always ==> op == always,
        cond != Cond::Always ==> op == first || op == first + 8 || op == first + 16 || op == first
            + 24,
        cond != Cond::Always ==> cond_at(op) == cond,
{
    reveal(cond_at);
    match cond {
        Cond::Always => always,
        Cond::NotZero => first,
        Cond::Zero => first + 8,
        Cond::NotCarry => first + 16,
        Cond::Carry => first + 24,
    }
}

/// The opcode of a jump, a call or a return, and the byte and the word that follow it.
fn encode_jump(inst: Instruction) -> (r: (u8, u8, u16))
    requires
        encodable(inst),
        inst.is_jump(),
    ensures
        valid_opcode(r.0),
        r.0 != 0xCB,
        decoded(r.0, r.1, r.2) == inst,
{
    reveal(decoded);
    match inst {
        Instruction::Jp { addr, cond } => (encode_cond(cond, 0xC3, 0xC2), 0, addr),
        Instruction::Jr { offset, cond } => {
            let byte = unsigned_byte(offset);
            (encode_cond(cond, 0x18, 0x20), byte, 0)
        },
        Instruction::Call { addr, cond } => (encode_cond(cond, 0xCD, 0xC4), 0, addr),
        Instruction::Ret { cond } => (encode_cond(cond, 0xC9, 0xC0), 0, 0),
        Instruction::Rst { offset } => (0xC7 + offset, 0, 0),
        Instruction::RetI => (0xD9, 0, 0),
        _ => (0xE9, 0, 0),
    }
}

/// The opcode of an instruction without operands in the opcode, and the byte that follows it.
fn encode_fixed(inst: Instruction) -> (r: (u8, u8))
    requires
        is_fixed(inst),
    ensures
        valid_opcode(r.0),
        r.0 != 0xCB,
        decoded(r.0, r.1, 0) == inst,
{
    reveal(decoded);
    match inst {
        Instruction::Nop => (0x00, 0),
        Instruction::Halt => (0x76, 0),
        Instruction::Stop => (0x10, 0),
        Instruction::Di => (0xF3, 0),
        Instruction::Ei => (0xFB, 0),
        Instruction::Daa => (0x27, 0),
        Instruction::Cpl => (0x2F, 0),
        Instruction::Ccf => (0x3F, 0),
        Instruction::Scf => (0x37, 0),
        Instruction::Rlca => (0x07, 0),
        Instruction::Rla => (0x17, 0),
        Instruction::Rrca => (0x0F, 0),
        Instruction::Rra => (0x1F, 0),
        Instruction::LdMemCA => (0xE2, 0),
        Instruction::LdAMemC => (0xF2, 0),
        Instruction::LdiAMemHl => (0x2A, 0),
        Instruction::LdiMemHlA => (0x22, 0),
        Instruction::LddAMemHl => (0x3A, 0),
        Instruction::LddMemHlA => (0x32, 0),
        Instruction::LdhA { offset } => (0xF0, offset),
        Instruction::Ldh { offset } => (0xE0, offset),
        Instruction::LdHlSpImm8i { offset } => (0xF8, unsigned_byte(offset)),
        Instruction::AddSpImm8i { offset } => (0xE8, unsigned_byte(offset)),
        _ => (0x00, 0),
    }
}

/// The instruction has no operands in its opcode.
pub open spec fn is_fixed(inst: Instruction) -> bool {
    match inst {
        Instruction::Nop | Instruction::Halt | Instruction::Stop => true,
        Instruction::Di | Instruction::Ei | Instruction::Daa => true,
        Instruction::Cpl | Instruction::Ccf | Instruction::Scf => true,
        Instruction::Rlca | Instruction::Rla | Instruction::Rrca | Instruction::Rra => true,
        Instruction::LdMemCA | Instruction::LdAMemC => true,
        Instruction::LdiAMemHl | Instruction::LdiMemHlA => true,
        Instruction::LddAMemHl | Instruction::LddMemHlA => true,
        Instruction::LdhA { .. } | Instruction::Ldh { .. } => true,
        Instruction::LdHlSpImm8i { .. } | Instruction::AddSpImm8i { .. } => true,
        _ => false,
    }
}

/// The opcode behind the prefix.
fn encode_prefixed(group: u8, dst: Arg) -> (op: u8)
    requires
        has_index(dst),
        group < 32,
    ensures
        op / 8 == group,
        operand_at(op % 8) == dst,
{
    8 * group + cbidx(dst)
}

impl Instruction {
    /// The opcode of the instruction, and the byte and the word that follow it. Behind the
    /// prefix the byte is the second opcode.
    pub fn encode(&self) -> (r: (u8, u8, u16))
        requires
            encodable(*self),
        ensures
            valid_opcode(r.0),
            instruction_of(r.0, r.1, r.2) == *self,
    {
        match *self {
            Instruction::Ld { dst, src } => encode_ld(dst, src),
            Instruction::Add { .. } | Instruction::Adc { .. } => self.encode_arithmetic(),
            Instruction::Sub { .. } | Instruction::Sbc { .. } => self.encode_arithmetic(),
            Instruction::And { .. } | Instruction::Xor { .. } => self.encode_arithmetic(),
            Instruction::Or { .. } | Instruction::Cp { .. } => self.encode_arithmetic(),
            Instruction::Inc { dst } => (encode_inc(dst), 0, 0),
            Instruction::Dec { dst } => (encode_dec(dst), 0, 0),
            Instruction::AddHlReg16 { src } => {
                reveal(decoded);
                reveal(pair_at);
                (0x09 + 16 * pair_index(src), 0, 0)
            },
            Instruction::Push { src } => (Self::encode_stack(src, 0xC5), 0, 0),
            Instruction::Pop { dst } => (Self::encode_stack(dst, 0xC1), 0, 0),
            Instruction::Jp { .. } | Instruction::Jr { .. } => encode_jump(*self),
            Instruction::Call { .. } | Instruction::Ret { .. } => encode_jump(*self),
            Instruction::Rst { .. } | Instruction::RetI | Instruction::JpHl => encode_jump(*self),
            Instruction::Rlc { .. } | Instruction::Rl { .. } => self.encode_bits(),
            Instruction::Rrc { .. } | Instruction::Rr { .. } => self.encode_bits(),
            Instruction::Sla { .. } | Instruction::Sra { .. } => self.encode_bits(),
            Instruction::Srl { .. } | Instruction::Swap { .. } => self.encode_bits(),
            Instruction::Bit { .. } | Instruction::SetBit { .. } => self.encode_bits(),
            Instruction::Res { .. } => self.encode_bits(),
            _ => {
                let (op, byte) = encode_fixed(*self);
                (op, byte, 0)
            },
        }
    }

    fn encode_stack(reg: Reg16, first: u8) -> (op: u8)
        requires
            reg != Reg16::SP,
            reg != Reg16::PC,
            first == 0xC5 || first == 0xC1,
        ensures
            valid_opcode(op),
            op != 0xCB,
            first == 0xC5 ==> decoded(op, 0, 0) == (Instruction::Push { src: reg }),
            first == 0xC1 ==> decoded(op, 0, 0) == (Instruction::Pop { dst: reg }),
    {
        reveal(pair_at);
        reveal(stack_pair_at);
        let index: u8 = match reg {
            Reg16::BC => 0,
            Reg16::DE => 1,
            Reg16::HL => 2,
            _ => 3,
        };
        let op: u8 = first + 16 * index;
        proof {
            if first == 0xC5 {
                lemma_push(op, 0, 0);
            } else {
                lemma_pop(op, 0, 0);
            }
        }
        op
    }

    fn encode_arithmetic(&self) -> (r: (u8, u8, u16))
        requires
            encodable(*self),
            self is Add || self is Adc || self is Sub || self is Sbc || self is And || self is Xor
                || self is Or || self is Cp,
        ensures
            valid_opcode(r.0),
            r.0 != 0xCB,
            decoded(r.0, r.1, r.2) == *self,
    {
        reveal(alu_at);
        let (op, byte) = match *self {
            Instruction::Add { src } => encode_alu(0, src),
            Instruction::Adc { src } => encode_alu(1, src),
            Instruction::Sub { src } => encode_alu(2, src),
            Instruction::Sbc { src } => encode_alu(3, src),
            Instruction::And { src } => encode_alu(4, src),
            Instruction::Xor { src } => encode_alu(5, src),
            Instruction::Or { src } => encode_alu(6, src),
            Instruction::Cp { src } => encode_alu(7, src),
            _ => (0, 0),
        };
        (op, byte, 0)
    }

    fn encode_bits(&self) -> (r: (u8, u8, u16))
        requires
            encodable(*self),
            self is Rlc || self is Rl || self is Rrc || self is Rr || self is Sla || self is Sra
                || self is Srl || self is Swap || self is Bit || self is SetBit || self is Res,
        ensures
            r.0 == 0xCB,
            prefix_decoded(r.1) == *self,
    {
        let op: u8 = match *self {
            Instruction::Rlc { dst } => encode_prefixed(0, dst),
            Instruction::Rrc { dst } => encode_prefixed(1, dst),
            Instruction::Rl { dst } => encode_prefixed(2, dst),
            Instruction::Rr { dst } => encode_prefixed(3, dst),
            Instruction::Sla { dst } => encode_prefixed(4, dst),
            Instruction::Sra { dst } => encode_prefixed(5, dst),
            Instruction::Swap { dst } => encode_prefixed(6, dst),
            Instruction::Srl { dst } => encode_prefixed(7, dst),
            Instruction::Bit { dst, bit } => encode_prefixed(8 + bit, dst),
            Instruction::Res { dst, bit } => encode_prefixed(16 + bit, dst),
            Instruction::SetBit { dst, bit } => encode_prefixed(24 + bit, dst),
            _ => 0,
        };
        proof {
            lemma_prefixed(op);
        }
        (0xCB, op, 0)
    }
}

impl Cpu {
    /// Executes a single instruction, through the handler of its opcode. The program counter
    /// moves only if the instruction jumps.
    pub fn execute(&mut self, instruction: Instruction)
        requires
            old(self).wf(),
            encodable(instruction),
        ensures
            final(self)@ == old(self)@.effect(instruction),
            final(self).wf(),
    {
        let (op, a8, a16) = instruction.encode();
        if op == 0xCB {
            dispatch_prefixed(self, a8);
        } else {
            dispatch(self, op, a8, a16);
        }
    }
}

} // verus!
