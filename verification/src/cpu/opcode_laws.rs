//! Which instruction each opcode stands for.
use vstd::prelude::*;

use crate::instructions::{
    alu_at, cond_at, decoded, instruction_of, load_operand_at, operand_at, pair_at,
    prefix_decoded, reg_at, stack_pair_at, valid_opcode, Arg, Cond, Instruction,
};
use crate::registers::{Reg16, Reg8};

verus! {

/// Opcodes of jumps, calls and returns, with their targets.
pub proof fn law_jump_opcodes(a8: u8, a16: u16)
    ensures
        instruction_of(0xC3, a8, a16) == (Instruction::Jp { addr: a16, cond: Cond::Always }),
        instruction_of(0xC2, a8, a16) == (Instruction::Jp { addr: a16, cond: Cond::NotZero }),
        instruction_of(0xCA, a8, a16) == (Instruction::Jp { addr: a16, cond: Cond::Zero }),
        instruction_of(0xD2, a8, a16) == (Instruction::Jp { addr: a16, cond: Cond::NotCarry }),
        instruction_of(0xDA, a8, a16) == (Instruction::Jp { addr: a16, cond: Cond::Carry }),
        instruction_of(0xCD, a8, a16) == (Instruction::Call { addr: a16, cond: Cond::Always }),
        instruction_of(0xC4, a8, a16) == (Instruction::Call { addr: a16, cond: Cond::NotZero }),
        instruction_of(0xCC, a8, a16) == (Instruction::Call { addr: a16, cond: Cond::Zero }),
        instruction_of(0xD4, a8, a16) == (Instruction::Call { addr: a16, cond: Cond::NotCarry }),
        instruction_of(0xDC, a8, a16) == (Instruction::Call { addr: a16, cond: Cond::Carry }),
        instruction_of(0xC9, a8, a16) == (Instruction::Ret { cond: Cond::Always }),
        instruction_of(0xC0, a8, a16) == (Instruction::Ret { cond: Cond::NotZero }),
        instruction_of(0xC8, a8, a16) == (Instruction::Ret { cond: Cond::Zero }),
        instruction_of(0xD0, a8, a16) == (Instruction::Ret { cond: Cond::NotCarry }),
        instruction_of(0xD8, a8, a16) == (Instruction::Ret { cond: Cond::Carry }),
        instruction_of(0xD9, a8, a16) == Instruction::RetI,
        instruction_of(0xE9, a8, a16) == Instruction::JpHl,
{
    reveal(decoded);
    reveal(cond_at);
}

/// Opcodes of relative jumps; the byte behind the opcode is a signed offset.
pub proof fn law_relative_jump_opcodes(op: u8, a8: u8, a16: u16)
    requires
        op == 0x18 || op == 0x20 || op == 0x28 || op == 0x30 || op == 0x38,
    ensures
        instruction_of(op, a8, a16) matches Instruction::Jr { offset, cond } && {
            &&& (offset - a8) % 256 == 0
            &&& op == 0x18 ==> cond == Cond::Always
            &&& op == 0x20 ==> cond == Cond::NotZero
            &&& op == 0x28 ==> cond == Cond::Zero
            &&& op == 0x30 ==> cond == Cond::NotCarry
            &&& op == 0x38 ==> cond == Cond::Carry
        },
{
    reveal(decoded);
    reveal(cond_at);
}

/// The operand that the low three bits of an opcode name, in the order of the registers:
/// `B`, `C`, `D`, `E`, `H`, `L`, the byte that `HL` points at, `A`.
pub open spec fn numbered(index: int) -> Arg {
    if index == 0 {
        Arg::Reg8(Reg8::B)
    } else if index == 1 {
        Arg::Reg8(Reg8::C)
    } else if index == 2 {
        Arg::Reg8(Reg8::D)
    } else if index == 3 {
        Arg::Reg8(Reg8::E)
    } else if index == 4 {
        Arg::Reg8(Reg8::H)
    } else if index == 5 {
        Arg::Reg8(Reg8::L)
    } else if index == 6 {
        Arg::MemHl
    } else {
        Arg::Reg8(Reg8::A)
    }
}

/// Opcodes from 0x40 to 0x7F load the operand with the number in bits 3 to 5 from the one
/// with the number in bits 0 to 2.
pub proof fn law_load_opcodes(to: int, from: int, a8: u8, a16: u16)
    requires
        0 <= to < 8,
        0 <= from < 8,
        !(to == 6 && from == 6),
    ensures
        ({
            let inst = instruction_of((0x40 + 8 * to + from) as u8, a8, a16);
            let named = |i: int| if i == 6 { Arg::Mem(Reg16::HL) } else { numbered(i) };
            inst == (Instruction::Ld { dst: named(to), src: named(from) })
        }),
        instruction_of((0x06 + 8 * to) as u8, a8, a16) == (Instruction::Ld {
            dst: if to == 6 { Arg::Mem(Reg16::HL) } else { numbered(to) },
            src: Arg::Imm8(a8),
        }),
        instruction_of(0x76, a8, a16) == Instruction::Halt,
{
    reveal(decoded);
    reveal(load_operand_at);
    reveal(reg_at);
    let op = (0x40 + 8 * to + from) as u8;
    assert(op % 8 == from && (op - 0x40) / 8 == to);
    let im = (0x06 + 8 * to) as u8;
    assert(im % 8 == 6 && im / 8 == to);
}

/// Opcodes from 0x80 to 0xBF are eight operations on the accumulator, each on the eight
/// operands in their order; those from 0xC6 on, in steps of eight, are the same operations on
/// the byte behind the opcode.
pub proof fn law_accumulator_opcodes(index: int, a8: u8, a16: u16)
    requires
        0 <= index < 8,
    ensures
        instruction_of((0x80 + index) as u8, a8, a16) == (Instruction::Add { src: numbered(index) }),
        instruction_of((0x88 + index) as u8, a8, a16) == (Instruction::Adc { src: numbered(index) }),
        instruction_of((0x90 + index) as u8, a8, a16) == (Instruction::Sub { src: numbered(index) }),
        instruction_of((0x98 + index) as u8, a8, a16) == (Instruction::Sbc { src: numbered(index) }),
        instruction_of((0xA0 + index) as u8, a8, a16) == (Instruction::And { src: numbered(index) }),
        instruction_of((0xA8 + index) as u8, a8, a16) == (Instruction::Xor { src: numbered(index) }),
        instruction_of((0xB0 + index) as u8, a8, a16) == (Instruction::Or { src: numbered(index) }),
        instruction_of((0xB8 + index) as u8, a8, a16) == (Instruction::Cp { src: numbered(index) }),
        instruction_of(0xC6, a8, a16) == (Instruction::Add { src: Arg::Imm8(a8) }),
        instruction_of(0xCE, a8, a16) == (Instruction::Adc { src: Arg::Imm8(a8) }),
        instruction_of(0xD6, a8, a16) == (Instruction::Sub { src: Arg::Imm8(a8) }),
        instruction_of(0xDE, a8, a16) == (Instruction::Sbc { src: Arg::Imm8(a8) }),
        instruction_of(0xE6, a8, a16) == (Instruction::And { src: Arg::Imm8(a8) }),
        instruction_of(0xEE, a8, a16) == (Instruction::Xor { src: Arg::Imm8(a8) }),
        instruction_of(0xF6, a8, a16) == (Instruction::Or { src: Arg::Imm8(a8) }),
        instruction_of(0xFE, a8, a16) == (Instruction::Cp { src: Arg::Imm8(a8) }),
{
    reveal(decoded);
    reveal(alu_at);
    reveal(operand_at);
    reveal(reg_at);
}

/// Opcodes that count up or down: the eight operands in their order, and the four pairs.
pub proof fn law_count_opcodes(index: int, a8: u8, a16: u16)
    requires
        0 <= index < 8,
    ensures
        instruction_of((0x04 + 8 * index) as u8, a8, a16) == (Instruction::Inc {
            dst: numbered(index),
        }),
        instruction_of((0x05 + 8 * index) as u8, a8, a16) == (Instruction::Dec {
            dst: numbered(index),
        }),
        instruction_of(0x03, a8, a16) == (Instruction::Inc { dst: Arg::Reg16(Reg16::BC) }),
        instruction_of(0x13, a8, a16) == (Instruction::Inc { dst: Arg::Reg16(Reg16::DE) }),
        instruction_of(0x23, a8, a16) == (Instruction::Inc { dst: Arg::Reg16(Reg16::HL) }),
        instruction_of(0x33, a8, a16) == (Instruction::Inc { dst: Arg::Reg16(Reg16::SP) }),
        instruction_of(0x0B, a8, a16) == (Instruction::Dec { dst: Arg::Reg16(Reg16::BC) }),
        instruction_of(0x1B, a8, a16) == (Instruction::Dec { dst: Arg::Reg16(Reg16::DE) }),
        instruction_of(0x2B, a8, a16) == (Instruction::Dec { dst: Arg::Reg16(Reg16::HL) }),
        instruction_of(0x3B, a8, a16) == (Instruction::Dec { dst: Arg::Reg16(Reg16::SP) }),
        instruction_of(0x09, a8, a16) == (Instruction::AddHlReg16 { src: Reg16::BC }),
        instruction_of(0x19, a8, a16) == (Instruction::AddHlReg16 { src: Reg16::DE }),
        instruction_of(0x29, a8, a16) == (Instruction::AddHlReg16 { src: Reg16::HL }),
        instruction_of(0x39, a8, a16) == (Instruction::AddHlReg16 { src: Reg16::SP }),
{
    reveal(decoded);
    reveal(operand_at);
    reveal(reg_at);
    reveal(pair_at);
    let up = (0x04 + 8 * index) as u8;
    let down = (0x05 + 8 * index) as u8;
    assert(up / 8 == index && up % 8 == 4);
    assert(down / 8 == index && down % 8 == 5);
}

/// Opcodes of loads of words, and of loads between the accumulator and memory.
pub proof fn law_transfer_opcodes(a8: u8, a16: u16)
    ensures
        instruction_of(0x01, a8, a16) == (Instruction::Ld {
            dst: Arg::Reg16(Reg16::BC),
            src: Arg::Imm16(a16),
        }),
        instruction_of(0x11, a8, a16) == (Instruction::Ld {
            dst: Arg::Reg16(Reg16::DE),
            src: Arg::Imm16(a16),
        }),
        instruction_of(0x21, a8, a16) == (Instruction::Ld {
            dst: Arg::Reg16(Reg16::HL),
            src: Arg::Imm16(a16),
        }),
        instruction_of(0x31, a8, a16) == (Instruction::Ld {
            dst: Arg::Reg16(Reg16::SP),
            src: Arg::Imm16(a16),
        }),
        instruction_of(0xF9, a8, a16) == (Instruction::Ld {
            dst: Arg::Reg16(Reg16::SP),
            src: Arg::Reg16(Reg16::HL),
        }),
        instruction_of(0x08, a8, a16) == (Instruction::Ld {
            dst: Arg::MemImm(a16),
            src: Arg::Reg16(Reg16::SP),
        }),
        instruction_of(0x02, a8, a16) == (Instruction::Ld {
            dst: Arg::Mem(Reg16::BC),
            src: Arg::Reg8(Reg8::A),
        }),
        instruction_of(0x12, a8, a16) == (Instruction::Ld {
            dst: Arg::Mem(Reg16::DE),
            src: Arg::Reg8(Reg8::A),
        }),
        instruction_of(0x0A, a8, a16) == (Instruction::Ld {
            dst: Arg::Reg8(Reg8::A),
            src: Arg::Mem(Reg16::BC),
        }),
        instruction_of(0x1A, a8, a16) == (Instruction::Ld {
            dst: Arg::Reg8(Reg8::A),
            src: Arg::Mem(Reg16::DE),
        }),
        instruction_of(0xEA, a8, a16) == (Instruction::Ld {
            dst: Arg::MemImm(a16),
            src: Arg::Reg8(Reg8::A),
        }),
        instruction_of(0xFA, a8, a16) == (Instruction::Ld {
            dst: Arg::Reg8(Reg8::A),
            src: Arg::MemImm(a16),
        }),
        instruction_of(0x22, a8, a16) == Instruction::LdiMemHlA,
        instruction_of(0x2A, a8, a16) == Instruction::LdiAMemHl,
        instruction_of(0x32, a8, a16) == Instruction::LddMemHlA,
        instruction_of(0x3A, a8, a16) == Instruction::LddAMemHl,
        instruction_of(0xE0, a8, a16) == (Instruction::Ldh { offset: a8 }),
        instruction_of(0xF0, a8, a16) == (Instruction::LdhA { offset: a8 }),
        instruction_of(0xE2, a8, a16) == Instruction::LdMemCA,
        instruction_of(0xF2, a8, a16) == Instruction::LdAMemC,
{
    reveal(decoded);
    reveal(pair_at);
}

/// Opcodes of the stack, of single operations, and those with a signed offset.
pub proof fn law_other_opcodes(a8: u8, a16: u16)
    ensures
        instruction_of(0xC5, a8, a16) == (Instruction::Push { src: Reg16::BC }),
        instruction_of(0xD5, a8, a16) == (Instruction::Push { src: Reg16::DE }),
        instruction_of(0xE5, a8, a16) == (Instruction::Push { src: Reg16::HL }),
        instruction_of(0xF5, a8, a16) == (Instruction::Push { src: Reg16::AF }),
        instruction_of(0xC1, a8, a16) == (Instruction::Pop { dst: Reg16::BC }),
        instruction_of(0xD1, a8, a16) == (Instruction::Pop { dst: Reg16::DE }),
        instruction_of(0xE1, a8, a16) == (Instruction::Pop { dst: Reg16::HL }),
        instruction_of(0xF1, a8, a16) == (Instruction::Pop { dst: Reg16::AF }),
        instruction_of(0x00, a8, a16) == Instruction::Nop,
        instruction_of(0x10, a8, a16) == Instruction::Stop,
        instruction_of(0xF3, a8, a16) == Instruction::Di,
        instruction_of(0xFB, a8, a16) == Instruction::Ei,
        instruction_of(0x07, a8, a16) == Instruction::Rlca,
        instruction_of(0x0F, a8, a16) == Instruction::Rrca,
        instruction_of(0x17, a8, a16) == Instruction::Rla,
        instruction_of(0x1F, a8, a16) == Instruction::Rra,
        instruction_of(0x27, a8, a16) == Instruction::Daa,
        instruction_of(0x2F, a8, a16) == Instruction::Cpl,
        instruction_of(0x37, a8, a16) == Instruction::Scf,
        instruction_of(0x3F, a8, a16) == Instruction::Ccf,
        instruction_of(0xE8, a8, a16) matches Instruction::AddSpImm8i { offset } && (offset - a8)
            % 256 == 0,
        instruction_of(0xF8, a8, a16) matches Instruction::LdHlSpImm8i { offset } && (offset - a8)
            % 256 == 0,
{
    reveal(decoded);
    reveal(pair_at);
    reveal(stack_pair_at);
}

/// Restarts go to the multiples of eight below 0x40, in the order of their opcodes.
pub proof fn law_restart_opcodes(n: int, a8: u8, a16: u16)
    requires
        0 <= n < 8,
    ensures
        instruction_of((0xC7 + 8 * n) as u8, a8, a16) == (Instruction::Rst {
            offset: (8 * n) as u8,
        }),
{
    let op = (0xC7 + 8 * n) as u8;
    assert(op % 8 == 7);
    crate::cpu::decoding::lemma_restart(op, a8, a16);
}

/// Behind the prefix: eight rotations and shifts, then tests, clears and sets of the eight
/// bits, each on the eight operands in their order.
pub proof fn law_prefixed_opcodes(index: int, bit: int, a16: u16)
    requires
        0 <= index < 8,
        0 <= bit < 8,
    ensures
        ({
            let dst = numbered(index);
            &&& instruction_of(0xCB, index as u8, a16) == (Instruction::Rlc { dst })
            &&& instruction_of(0xCB, (0x08 + index) as u8, a16) == (Instruction::Rrc { dst })
            &&& instruction_of(0xCB, (0x10 + index) as u8, a16) == (Instruction::Rl { dst })
            &&& instruction_of(0xCB, (0x18 + index) as u8, a16) == (Instruction::Rr { dst })
            &&& instruction_of(0xCB, (0x20 + index) as u8, a16) == (Instruction::Sla { dst })
            &&& instruction_of(0xCB, (0x28 + index) as u8, a16) == (Instruction::Sra { dst })
            &&& instruction_of(0xCB, (0x30 + index) as u8, a16) == (Instruction::Swap { dst })
            &&& instruction_of(0xCB, (0x38 + index) as u8, a16) == (Instruction::Srl { dst })
            &&& instruction_of(0xCB, (0x40 + 8 * bit + index) as u8, a16) == (Instruction::Bit {
                dst,
                bit: bit as u8,
            })
            &&& instruction_of(0xCB, (0x80 + 8 * bit + index) as u8, a16) == (Instruction::Res {
                dst,
                bit: bit as u8,
            })
            &&& instruction_of(0xCB, (0xC0 + 8 * bit + index) as u8, a16)
                == (Instruction::SetBit { dst, bit: bit as u8 })
        }),
{
    reveal(prefix_decoded);
    reveal(operand_at);
    reveal(reg_at);
    let a = (0x40 + 8 * bit + index) as u8;
    let b = (0x80 + 8 * bit + index) as u8;
    let c = (0xC0 + 8 * bit + index) as u8;
    assert(a % 8 == index && (a / 8) % 8 == bit && a / 8 == 8 + bit);
    assert(b % 8 == index && (b / 8) % 8 == bit && b / 8 == 16 + bit);
    assert(c % 8 == index && (c / 8) % 8 == bit && c / 8 == 24 + bit);
}

/// Bytes of the instructions with opcodes below 0xC0: three with a word, two with a byte, one
/// without either.
pub proof fn law_sizes_of_low_opcodes(op: u8, a8: u8, a16: u16)
    requires
        op < 0xC0,
    ensures
        ({
            let word = op < 0x40 && op % 16 == 1 || op == 0x08;
            let byte = op < 0x40 && (op % 8 == 6 || op % 8 == 0 && op >= 0x10);
            instruction_of(op, a8, a16).spec_size() == (if word {
                3int
            } else if byte {
                2
            } else {
                1
            })
        }),
{
    reveal(decoded);
    reveal(alu_at);
    reveal(operand_at);
    reveal(load_operand_at);
}

/// Bytes of the instructions with opcodes from 0xC0 on.
pub proof fn law_sizes_of_high_opcodes(op: u8, a8: u8, a16: u16)
    requires
        op >= 0xC0,
        valid_opcode(op),
    ensures
        ({
            let word = op == 0xC3 || op == 0xCD || op == 0xEA || op == 0xFA || op < 0xE0 && (op % 8
                == 2 || op % 8 == 4);
            let byte = op % 8 == 6 || op == 0xCB || op >= 0xE0 && op % 8 == 0;
            instruction_of(op, a8, a16).spec_size() == (if word {
                3int
            } else if byte {
                2
            } else {
                1
            })
        }),
{
    reveal(decoded);
    reveal(prefix_decoded);
    reveal(alu_at);
}

/// Cycles of the instructions with opcodes below 0x40, but for relative jumps: four for each
/// byte of the instruction, each byte that is read or written, and each word that is counted
/// or added.
pub proof fn law_cycles_of_low_opcodes(op: u8, a8: u8, a16: u16)
    requires
        op < 0x40,
        op % 8 != 0 || op <= 0x10,
    ensures
        ({
            let cycles: int = if op == 0x08 {
                20
            } else if op % 16 == 1 || op == 0x34 || op == 0x35 || op == 0x36 {
                12
            } else if op % 8 == 1 || op % 8 == 2 || op % 8 == 3 || op % 8 == 6 {
                8
            } else {
                4
            };
            let c = instruction_of(op, a8, a16).spec_cycles();
            c.0 == cycles && c.1 == cycles
        }),
{
    reveal(decoded);
    reveal(operand_at);
    reveal(load_operand_at);
}

/// Cycles of the instructions with opcodes from 0x40 to 0xBF: four, and four more to reach
/// the byte that `HL` points at.
pub proof fn law_cycles_of_middle_opcodes(op: u8, a8: u8, a16: u16)
    requires
        0x40 <= op < 0xC0,
    ensures
        ({
            let memory = op != 0x76 && (op % 8 == 6 || 0x70 <= op < 0x78);
            let c = instruction_of(op, a8, a16).spec_cycles();
            c.0 == (if memory { 8int } else { 4 }) && c.1 == c.0
        }),
{
    reveal(decoded);
    reveal(alu_at);
    reveal(operand_at);
    reveal(load_operand_at);
}

/// Cycles of the instructions with opcodes from 0xC0 on, and of relative jumps: those of a
/// jump that is taken, and those of one that is not.
pub proof fn law_cycles_of_high_opcodes(op: u8, a8: u8, a16: u16)
    requires
        op >= 0xC0 || op == 0x18 || op == 0x20 || op == 0x28 || op == 0x30 || op == 0x38,
        op != 0xCB,
        valid_opcode(op),
    ensures
        ({
            let c = instruction_of(op, a8, a16).spec_cycles();
            let plain = c.0 == c.1;
            if op < 0xC0 {
                c.0 == 12 && c.1 == 8
            } else if op == 0xC3 || op < 0xE0 && op % 8 == 2 {
                c.0 == 16 && c.1 == 12
            } else if op == 0xCD || op < 0xE0 && op % 8 == 4 {
                c.0 == 24 && c.1 == 12
            } else if op == 0xC9 || op < 0xE0 && op % 8 == 0 {
                c.0 == 20 && c.1 == 8
            } else if op % 8 == 7 || op % 16 == 5 || op == 0xD9 || op == 0xE8 || op == 0xEA || op
                == 0xFA {
                c.0 == 16 && plain
            } else if op % 16 == 1 || op == 0xE0 || op == 0xF0 || op == 0xF8 {
                c.0 == 12 && plain
            } else if op % 8 == 6 || op == 0xE2 || op == 0xF2 || op == 0xF9 {
                c.0 == 8 && plain
            } else {
                c.0 == 4 && plain
            }
        }),
{
    reveal(decoded);
    reveal(alu_at);
}

/// Cycles of the instructions behind the prefix: eight, with four more to read the byte that
/// `HL` points at, and four to write it.
pub proof fn law_cycles_behind_prefix(op: u8, a16: u16)
    ensures
        ({
            let c = instruction_of(0xCB, op, a16).spec_cycles();
            let only_reads = 0x40 <= op < 0x80;
            c.0 == (if op % 8 != 6 {
                8int
            } else if only_reads {
                12
            } else {
                16
            }) && c.1 == c.0
        }),
{
    reveal(prefix_decoded);
    reveal(operand_at);
}

} // verus!
