//! Instructions of the processor and their encoding.
use vstd::prelude::*;

use crate::registers::{Reg16, Reg8};

verus! {

/// Operand of an instruction.
#[derive(Clone, Copy, Debug, PartialEq, Eq, Structural)]
pub enum Arg {
    Reg8(Reg8),
    Reg16(Reg16),
    Imm8(u8),
    Imm16(u16),
    /// The byte that a register pair points at.
    Mem(Reg16),
    /// The byte that `HL` points at.
    MemHl,
    /// The byte at an address in the instruction.
    MemImm(u16),
}

impl From<u8> for Arg {
    fn from(value: u8) -> (r: Arg) {
        Arg::Imm8(value)
    }
}

impl vstd::std_specs::convert::FromSpecImpl<u8> for Arg {
    open spec fn obeys_from_spec() -> bool {
        true
    }

    open spec fn from_spec(value: u8) -> Arg {
        Arg::Imm8(value)
    }
}

impl From<Reg8> for Arg {
    fn from(reg: Reg8) -> (r: Arg) {
        Arg::Reg8(reg)
    }
}

impl vstd::std_specs::convert::FromSpecImpl<Reg8> for Arg {
    open spec fn obeys_from_spec() -> bool {
        true
    }

    open spec fn from_spec(reg: Reg8) -> Arg {
        Arg::Reg8(reg)
    }
}

/// Condition of a jump.
#[derive(Clone, Copy, Debug, PartialEq, Eq, Structural)]
pub enum Cond {
    Always,
    NotZero,
    Zero,
    NotCarry,
    Carry,
}

/// Cycles of an instruction: if it jumps, and if it does not.
#[derive(Clone, Copy, Debug, PartialEq, Eq, Structural)]
pub struct Cycles(pub u8, pub u8);

impl Cycles {
    pub fn taken(&self) -> (r: u8)
        ensures
            r == self.0,
    {
        self.0
    }

    pub fn not_taken(&self) -> (r: u8)
        ensures
            r == self.1,
    {
        self.1
    }
}

impl From<u8> for Cycles {
    fn from(cycles: u8) -> (r: Cycles) {
        Cycles(cycles, cycles)
    }
}

impl vstd::std_specs::convert::FromSpecImpl<u8> for Cycles {
    open spec fn obeys_from_spec() -> bool {
        true
    }

    open spec fn from_spec(cycles: u8) -> Cycles {
        Cycles(cycles, cycles)
    }
}

/// A decoded instruction.
#[allow(inconsistent_fields)]
#[derive(Clone, Copy, Debug, PartialEq, Eq, Structural)]
pub enum Instruction {
    Nop,
    Halt,
    Stop,
    Di,
    Ei,
    Daa,
    Cpl,
    Ccf,
    Scf,
    Rlca,
    Rla,
    Rrca,
    Rra,
    JpHl,
    RetI,
    /// `LD (0xFF00 + C), A`
    LdMemCA,
    /// `LD A, (0xFF00 + C)`
    LdAMemC,
    LdiAMemHl,
    LdiMemHlA,
    LddAMemHl,
    LddMemHlA,
    Ld { dst: Arg, src: Arg },
    /// `LD A, (0xFF00 + offset)`
    LdhA { offset: u8 },
    /// `LD (0xFF00 + offset), A`
    Ldh { offset: u8 },
    LdHlSpImm8i { offset: i8 },
    AddSpImm8i { offset: i8 },
    AddHlReg16 { src: Reg16 },
    Add { src: Arg },
    Adc { src: Arg },
    Sub { src: Arg },
    Sbc { src: Arg },
    And { src: Arg },
    Xor { src: Arg },
    Or { src: Arg },
    Cp { src: Arg },
    Inc { dst: Arg },
    Dec { dst: Arg },
    Push { src: Reg16 },
    Pop { dst: Reg16 },
    Jp { addr: u16, cond: Cond },
    Jr { offset: i8, cond: Cond },
    Call { addr: u16, cond: Cond },
    Ret { cond: Cond },
    Rst { offset: u8 },
    Rlc { dst: Arg },
    Rl { dst: Arg },
    Rrc { dst: Arg },
    Rr { dst: Arg },
    Sla { dst: Arg },
    Sra { dst: Arg },
    Srl { dst: Arg },
    Swap { dst: Arg },
    Bit { dst: Arg, bit: u8 },
    SetBit { dst: Arg, bit: u8 },
    Res { dst: Arg, bit: u8 },
}

/// An instruction starts with this byte.
pub open spec fn valid_opcode(op: u8) -> bool {
    !(op == 0xD3 || op == 0xDB || op == 0xDD || op == 0xE3 || op == 0xE4 || op == 0xEB || op == 0xEC
        || op == 0xED || op == 0xF4 || op == 0xFC || op == 0xFD)
}

/// The signed number that a byte holds.
pub open spec fn signed(value: u8) -> i8 {
    if value < 128 {
        value as i8
    } else {
        (value - 256) as i8
    }
}

/// The register that three bits of an opcode name; six names none of them.
#[verifier::opaque]
pub open spec fn reg_at(index: u8) -> Reg8 {
    if index == 0 {
        Reg8::B
    } else if index == 1 {
        Reg8::C
    } else if index == 2 {
        Reg8::D
    } else if index == 3 {
        Reg8::E
    } else if index == 4 {
        Reg8::H
    } else if index == 5 {
        Reg8::L
    } else {
        Reg8::A
    }
}

/// The operand that three bits of an opcode name.
#[verifier::opaque]
pub open spec fn operand_at(index: u8) -> Arg {
    if index == 6 {
        Arg::MemHl
    } else {
        Arg::Reg8(reg_at(index))
    }
}

/// The operand of a load that three bits of an opcode name.
#[verifier::opaque]
pub open spec fn load_operand_at(index: u8) -> Arg {
    if index == 6 {
        Arg::Mem(Reg16::HL)
    } else {
        Arg::Reg8(reg_at(index))
    }
}

/// The register pair that the high half of an opcode names.
#[verifier::opaque]
pub open spec fn pair_at(op: u8) -> Reg16 {
    let index = (op / 16) % 4;
    if index == 0 {
        Reg16::BC
    } else if index == 1 {
        Reg16::DE
    } else if index == 2 {
        Reg16::HL
    } else {
        Reg16::SP
    }
}

/// The register pair that the opcode of a stack operation names.
#[verifier::opaque]
pub open spec fn stack_pair_at(op: u8) -> Reg16 {
    if pair_at(op) == Reg16::SP {
        Reg16::AF
    } else {
        pair_at(op)
    }
}

/// The condition that bits three and four of an opcode name.
#[verifier::opaque]
pub open spec fn cond_at(op: u8) -> Cond {
    let index = (op / 8) % 4;
    if index == 0 {
        Cond::NotZero
    } else if index == 1 {
        Cond::Zero
    } else if index == 2 {
        Cond::NotCarry
    } else {
        Cond::Carry
    }
}

/// The arithmetic or logical instruction that bits three to five of an opcode name.
#[verifier::opaque]
pub open spec fn alu_at(index: u8, src: Arg) -> Instruction {
    if index == 0 {
        Instruction::Add { src }
    } else if index == 1 {
        Instruction::Adc { src }
    } else if index == 2 {
        Instruction::Sub { src }
    } else if index == 3 {
        Instruction::Sbc { src }
    } else if index == 4 {
        Instruction::And { src }
    } else if index == 5 {
        Instruction::Xor { src }
    } else if index == 6 {
        Instruction::Or { src }
    } else {
        Instruction::Cp { src }
    }
}

/// Instructions with opcodes below 0x40.
pub open spec fn decoded_low(op: u8, a8: u8, a16: u16) -> Instruction {
    if op == 0x00 {
        Instruction::Nop
    } else if op == 0x10 {
        Instruction::Stop
    } else if op == 0x18 {
        Instruction::Jr { offset: signed(a8), cond: Cond::Always }
    } else if op % 8 == 0 && op != 0x08 {
        Instruction::Jr { offset: signed(a8), cond: cond_at(op) }
    } else if op == 0x08 {
        Instruction::Ld { dst: Arg::MemImm(a16), src: Arg::Reg16(Reg16::SP) }
    } else if op % 16 == 1 {
        Instruction::Ld { dst: Arg::Reg16(pair_at(op)), src: Arg::Imm16(a16) }
    } else if op % 16 == 9 {
        Instruction::AddHlReg16 { src: pair_at(op) }
    } else if op == 0x02 || op == 0x12 {
        Instruction::Ld { dst: Arg::Mem(pair_at(op)), src: Arg::Reg8(Reg8::A) }
    } else if op == 0x0A || op == 0x1A {
        Instruction::Ld { dst: Arg::Reg8(Reg8::A), src: Arg::Mem(pair_at(op)) }
    } else if op == 0x22 {
        Instruction::LdiMemHlA
    } else if op == 0x2A {
        Instruction::LdiAMemHl
    } else if op == 0x32 {
        Instruction::LddMemHlA
    } else if op == 0x3A {
        Instruction::LddAMemHl
    } else if op % 16 == 3 {
        Instruction::Inc { dst: Arg::Reg16(pair_at(op)) }
    } else if op % 16 == 11 {
        Instruction::Dec { dst: Arg::Reg16(pair_at(op)) }
    } else if op % 8 == 4 {
        Instruction::Inc { dst: operand_at(op / 8) }
    } else if op % 8 == 5 {
        Instruction::Dec { dst: operand_at(op / 8) }
    } else if op % 8 == 6 {
        Instruction::Ld { dst: load_operand_at(op / 8), src: Arg::Imm8(a8) }
    } else if op == 0x07 {
        Instruction::Rlca
    } else if op == 0x0F {
        Instruction::Rrca
    } else if op == 0x17 {
        Instruction::Rla
    } else if op == 0x1F {
        Instruction::Rra
    } else if op == 0x27 {
        Instruction::Daa
    } else if op == 0x2F {
        Instruction::Cpl
    } else if op == 0x37 {
        Instruction::Scf
    } else {
        Instruction::Ccf
    }
}

/// Instructions with opcodes from 0xC0 on, without the prefix.
pub open spec fn decoded_high(op: u8, a8: u8, a16: u16) -> Instruction {
    if op == 0xC9 {
        Instruction::Ret { cond: Cond::Always }
    } else if op == 0xC3 {
        Instruction::Jp { addr: a16, cond: Cond::Always }
    } else if op == 0xCD {
        Instruction::Call { addr: a16, cond: Cond::Always }
    } else if op == 0xD9 {
        Instruction::RetI
    } else if op == 0xE9 {
        Instruction::JpHl
    } else if op == 0xE0 {
        Instruction::Ldh { offset: a8 }
    } else if op == 0xF0 {
        Instruction::LdhA { offset: a8 }
    } else if op == 0xE2 {
        Instruction::LdMemCA
    } else if op == 0xF2 {
        Instruction::LdAMemC
    } else if op == 0xEA {
        Instruction::Ld { dst: Arg::MemImm(a16), src: Arg::Reg8(Reg8::A) }
    } else if op == 0xFA {
        Instruction::Ld { dst: Arg::Reg8(Reg8::A), src: Arg::MemImm(a16) }
    } else if op == 0xE8 {
        Instruction::AddSpImm8i { offset: signed(a8) }
    } else if op == 0xF8 {
        Instruction::LdHlSpImm8i { offset: signed(a8) }
    } else if op == 0xF9 {
        Instruction::Ld { dst: Arg::Reg16(Reg16::SP), src: Arg::Reg16(Reg16::HL) }
    } else if op == 0xF3 {
        Instruction::Di
    } else if op == 0xFB {
        Instruction::Ei
    } else if op % 8 == 0 {
        Instruction::Ret { cond: cond_at(op) }
    } else if op % 16 == 1 {
        Instruction::Pop { dst: stack_pair_at(op) }
    } else if op % 8 == 2 {
        Instruction::Jp { addr: a16, cond: cond_at(op) }
    } else if op % 8 == 4 {
        Instruction::Call { addr: a16, cond: cond_at(op) }
    } else if op % 16 == 5 {
        Instruction::Push { src: stack_pair_at(op) }
    } else if op % 8 == 6 {
        alu_at(((op - 0xC0) / 8) as u8, Arg::Imm8(a8))
    } else {
        Instruction::Rst { offset: (op - 0xC7) as u8 }
    }
}

/// The instruction behind an opcode without the prefix, with the byte and the word that
/// follow it.
#[verifier::opaque]
pub open spec fn decoded(op: u8, a8: u8, a16: u16) -> Instruction {
    if op < 0x40 {
        decoded_low(op, a8, a16)
    } else if op == 0x76 {
        Instruction::Halt
    } else if op < 0x80 {
        Instruction::Ld {
            dst: load_operand_at(((op - 0x40) / 8) as u8),
            src: load_operand_at(op % 8),
        }
    } else if op < 0xC0 {
        alu_at(((op - 0x80) / 8) as u8, operand_at(op % 8))
    } else {
        decoded_high(op, a8, a16)
    }
}

/// The instruction behind the prefix 0xCB.
#[verifier::opaque]
pub open spec fn prefix_decoded(op: u8) -> Instruction {
    let dst = operand_at(op % 8);
    let group = op / 8;
    if group == 0 {
        Instruction::Rlc { dst }
    } else if group == 1 {
        Instruction::Rrc { dst }
    } else if group == 2 {
        Instruction::Rl { dst }
    } else if group == 3 {
        Instruction::Rr { dst }
    } else if group == 4 {
        Instruction::Sla { dst }
    } else if group == 5 {
        Instruction::Sra { dst }
    } else if group == 6 {
        Instruction::Swap { dst }
    } else if group == 7 {
        Instruction::Srl { dst }
    } else if group < 16 {
        Instruction::Bit { dst, bit: group % 8 }
    } else if group < 24 {
        Instruction::Res { dst, bit: group % 8 }
    } else {
        Instruction::SetBit { dst, bit: group % 8 }
    }
}

/// The instruction that three bytes hold.
pub open spec fn instruction_of(op: u8, a8: u8, a16: u16) -> Instruction {
    if op == 0xCB {
        prefix_decoded(a8)
    } else {
        decoded(op, a8, a16)
    }
}

impl Instruction {
    /// Bytes of the instruction.
    pub open spec fn spec_size(self) -> u8 {
        match self {
            Instruction::Stop | Instruction::LdhA { .. } | Instruction::Ldh { .. } => 2,
            Instruction::LdHlSpImm8i { .. } | Instruction::AddSpImm8i { .. } => 2,
            Instruction::Jr { .. } => 2,
            Instruction::Jp { .. } | Instruction::Call { .. } => 3,
            Instruction::Ld { dst, src } => load_size(dst, src),
            Instruction::Add { src } => alu_size(src),
            Instruction::Adc { src } => alu_size(src),
            Instruction::Sub { src } => alu_size(src),
            Instruction::Sbc { src } => alu_size(src),
            Instruction::And { src } => alu_size(src),
            Instruction::Xor { src } => alu_size(src),
            Instruction::Or { src } => alu_size(src),
            Instruction::Cp { src } => alu_size(src),
            Instruction::Rlc { .. } | Instruction::Rl { .. } => 2,
            Instruction::Rrc { .. } | Instruction::Rr { .. } => 2,
            Instruction::Sla { .. } | Instruction::Sra { .. } => 2,
            Instruction::Srl { .. } | Instruction::Swap { .. } => 2,
            Instruction::Bit { .. } | Instruction::SetBit { .. } | Instruction::Res { .. } => 2,
            _ => 1,
        }
    }

    /// Cycles of the instruction.
    pub open spec fn spec_cycles(self) -> Cycles {
        match self {
            Instruction::Jp { .. } => Cycles(16, 12),
            Instruction::Jr { .. } => Cycles(12, 8),
            Instruction::Call { .. } => Cycles(24, 12),
            Instruction::Ret { .. } => Cycles(20, 8),
            _ => Cycles(self.plain_cycles(), self.plain_cycles()),
        }
    }

    /// Cycles of an instruction that takes as long whether it jumps or not.
    pub open spec fn plain_cycles(self) -> u8 {
        match self {
            Instruction::RetI | Instruction::Rst { .. } | Instruction::Push { .. } => 16,
            Instruction::AddSpImm8i { .. } => 16,
            Instruction::LdHlSpImm8i { .. } | Instruction::Pop { .. } => 12,
            Instruction::LdhA { .. } | Instruction::Ldh { .. } => 12,
            Instruction::LdMemCA | Instruction::LdAMemC | Instruction::AddHlReg16 { .. } => 8,
            Instruction::LdiAMemHl | Instruction::LdiMemHlA => 8,
            Instruction::LddAMemHl | Instruction::LddMemHlA => 8,
            Instruction::Ld { dst, src } => load_cycles(dst, src),
            Instruction::Add { src } => alu_cycles(src),
            Instruction::Adc { src } => alu_cycles(src),
            Instruction::Sub { src } => alu_cycles(src),
            Instruction::Sbc { src } => alu_cycles(src),
            Instruction::And { src } => alu_cycles(src),
            Instruction::Xor { src } => alu_cycles(src),
            Instruction::Or { src } => alu_cycles(src),
            Instruction::Cp { src } => alu_cycles(src),
            Instruction::Inc { dst } => count_cycles(dst),
            Instruction::Dec { dst } => count_cycles(dst),
            Instruction::Rlc { dst } => prefix_cycles(dst),
            Instruction::Rl { dst } => prefix_cycles(dst),
            Instruction::Rrc { dst } => prefix_cycles(dst),
            Instruction::Rr { dst } => prefix_cycles(dst),
            Instruction::Sla { dst } => prefix_cycles(dst),
            Instruction::Sra { dst } => prefix_cycles(dst),
            Instruction::Srl { dst } => prefix_cycles(dst),
            Instruction::Swap { dst } => prefix_cycles(dst),
            Instruction::SetBit { dst, .. } => prefix_cycles(dst),
            Instruction::Res { dst, .. } => prefix_cycles(dst),
            Instruction::Bit { dst, .. } => if dst == Arg::MemHl {
                12
            } else {
                8
            },
            _ => 4,
        }
    }

    /// The instruction can set the program counter.
    pub open spec fn is_jump(self) -> bool {
        match self {
            Instruction::Jp { .. } | Instruction::Jr { .. } | Instruction::Call { .. } => true,
            Instruction::Ret { .. } | Instruction::RetI => true,
            Instruction::Rst { .. } | Instruction::JpHl => true,
            _ => false,
        }
    }
}

/// Bytes of a load.
pub open spec fn load_size(dst: Arg, src: Arg) -> u8 {
    match (dst, src) {
        (_, Arg::Imm8(_)) => 2,
        (_, Arg::Imm16(_)) => 3,
        (Arg::MemImm(_), _) => 3,
        (_, Arg::MemImm(_)) => 3,
        _ => 1,
    }
}

/// Cycles of a load.
pub open spec fn load_cycles(dst: Arg, src: Arg) -> u8 {
    match (dst, src) {
        (Arg::Reg8(_), Arg::Reg8(_)) => 4,
        (Arg::Mem(_), Arg::Imm8(_)) => 12,
        (Arg::Reg16(_), Arg::Imm16(_)) => 12,
        (Arg::MemImm(_), Arg::Reg16(_)) => 20,
        (Arg::MemImm(_), _) => 16,
        (_, Arg::MemImm(_)) => 16,
        _ => 8,
    }
}

/// Bytes of an arithmetic or logical instruction.
pub open spec fn alu_size(src: Arg) -> u8 {
    if src is Imm8 {
        2
    } else {
        1
    }
}

/// Cycles of an arithmetic or logical instruction.
pub open spec fn alu_cycles(src: Arg) -> u8 {
    if src is Reg8 {
        4
    } else {
        8
    }
}

/// Cycles of an increment or decrement.
pub open spec fn count_cycles(dst: Arg) -> u8 {
    if dst is Reg8 {
        4
    } else if dst is Reg16 {
        8
    } else {
        12
    }
}

/// Cycles of an instruction behind the prefix that changes its operand.
pub open spec fn prefix_cycles(dst: Arg) -> u8 {
    if dst == Arg::MemHl {
        16
    } else {
        8
    }
}

/// An instruction starts with this byte.
pub fn is_valid_opcode(op: u8) -> (r: bool)
    ensures
        r == valid_opcode(op),
{
    match op {
        0xD3 | 0xDB | 0xDD | 0xE3 | 0xE4 | 0xEB | 0xEC | 0xED | 0xF4 | 0xFC | 0xFD => false,
        _ => true,
    }
}

/// The signed number that a byte holds.
pub fn signed_byte(value: u8) -> (r: i8)
    ensures
        r == signed(value),
{
    if value < 128 {
        value as i8
    } else {
        (value as i16 - 256) as i8
    }
}

/// The byte that holds a signed number.
pub fn unsigned_byte(value: i8) -> (r: u8)
    ensures
        signed(r) == value,
{
    if value < 0 {
        (value as i16 + 256) as u8
    } else {
        value as u8
    }
}

/// The register that three bits of an opcode name.
pub fn reg8(index: u8) -> (r: Reg8)
    ensures
        r == reg_at(index),
{
    reveal(reg_at);
    if index == 0 {
        Reg8::B
    } else if index == 1 {
        Reg8::C
    } else if index == 2 {
        Reg8::D
    } else if index == 3 {
        Reg8::E
    } else if index == 4 {
        Reg8::H
    } else if index == 5 {
        Reg8::L
    } else {
        Reg8::A
    }
}

/// The operand that three bits of an opcode name.
pub fn operand(index: u8) -> (r: Arg)
    ensures
        r == operand_at(index),
        index == 6 ==> r == Arg::MemHl,
        index != 6 ==> r == Arg::Reg8(reg_at(index)),
{
    reveal(operand_at);
    if index == 6 {
        Arg::MemHl
    } else {
        Arg::Reg8(reg8(index))
    }
}

/// The operand of a load that three bits of an opcode name.
pub fn load_operand(index: u8) -> (r: Arg)
    ensures
        r == load_operand_at(index),
{
    reveal(load_operand_at);
    if index == 6 {
        Arg::Mem(Reg16::HL)
    } else {
        Arg::Reg8(reg8(index))
    }
}

/// The register pair that the high half of an opcode names.
pub fn pair(op: u8) -> (r: Reg16)
    ensures
        r == pair_at(op),
{
    reveal(pair_at);
    let index: u8 = (op / 16) % 4;
    if index == 0 {
        Reg16::BC
    } else if index == 1 {
        Reg16::DE
    } else if index == 2 {
        Reg16::HL
    } else {
        Reg16::SP
    }
}

/// The register pair that the opcode of a stack operation names.
pub fn stack_pair(op: u8) -> (r: Reg16)
    ensures
        r == stack_pair_at(op),
{
    reveal(stack_pair_at);
    if pair(op) == Reg16::SP {
        Reg16::AF
    } else {
        pair(op)
    }
}

/// The condition that bits three and four of an opcode name.
pub fn condition(op: u8) -> (r: Cond)
    ensures
        r == cond_at(op),
{
    reveal(cond_at);
    let index: u8 = (op / 8) % 4;
    if index == 0 {
        Cond::NotZero
    } else if index == 1 {
        Cond::Zero
    } else if index == 2 {
        Cond::NotCarry
    } else {
        Cond::Carry
    }
}

/// The arithmetic or logical instruction that bits three to five of an opcode name.
fn alu(index: u8, src: Arg) -> (r: Instruction)
    ensures
        r == alu_at(index, src),
{
    reveal(alu_at);
    if index == 0 {
        Instruction::Add { src }
    } else if index == 1 {
        Instruction::Adc { src }
    } else if index == 2 {
        Instruction::Sub { src }
    } else if index == 3 {
        Instruction::Sbc { src }
    } else if index == 4 {
        Instruction::And { src }
    } else if index == 5 {
        Instruction::Xor { src }
    } else if index == 6 {
        Instruction::Or { src }
    } else {
        Instruction::Cp { src }
    }
}

fn decode_low(op: u8, a8: u8, a16: u16) -> (r: Instruction)
    ensures
        r == decoded_low(op, a8, a16),
{
    if op == 0x00 {
        Instruction::Nop
    } else if op == 0x10 {
        Instruction::Stop
    } else if op == 0x18 {
        Instruction::Jr { offset: signed_byte(a8), cond: Cond::Always }
    } else if op % 8 == 0 && op != 0x08 {
        Instruction::Jr { offset: signed_byte(a8), cond: condition(op) }
    } else if op == 0x08 {
        Instruction::Ld { dst: Arg::MemImm(a16), src: Arg::Reg16(Reg16::SP) }
    } else if op % 16 == 1 {
        Instruction::Ld { dst: Arg::Reg16(pair(op)), src: Arg::Imm16(a16) }
    } else if op % 16 == 9 {
        Instruction::AddHlReg16 { src: pair(op) }
    } else if op == 0x02 || op == 0x12 {
        Instruction::Ld { dst: Arg::Mem(pair(op)), src: Arg::Reg8(Reg8::A) }
    } else if op == 0x0A || op == 0x1A {
        Instruction::Ld { dst: Arg::Reg8(Reg8::A), src: Arg::Mem(pair(op)) }
    } else if op == 0x22 {
        Instruction::LdiMemHlA
    } else if op == 0x2A {
        Instruction::LdiAMemHl
    } else if op == 0x32 {
        Instruction::LddMemHlA
    } else if op == 0x3A {
        Instruction::LddAMemHl
    } else if op % 16 == 3 {
        Instruction::Inc { dst: Arg::Reg16(pair(op)) }
    } else if op % 16 == 11 {
        Instruction::Dec { dst: Arg::Reg16(pair(op)) }
    } else if op % 8 == 4 {
        Instruction::Inc { dst: operand(op / 8) }
    } else if op % 8 == 5 {
        Instruction::Dec { dst: operand(op / 8) }
    } else if op % 8 == 6 {
        Instruction::Ld { dst: load_operand(op / 8), src: Arg::Imm8(a8) }
    } else if op == 0x07 {
        Instruction::Rlca
    } else if op == 0x0F {
        Instruction::Rrca
    } else if op == 0x17 {
        Instruction::Rla
    } else if op == 0x1F {
        Instruction::Rra
    } else if op == 0x27 {
        Instruction::Daa
    } else if op == 0x2F {
        Instruction::Cpl
    } else if op == 0x37 {
        Instruction::Scf
    } else {
        Instruction::Ccf
    }
}

fn decode_high(op: u8, a8: u8, a16: u16) -> (r: Instruction)
    requires
        op >= 0xC0,
        op != 0xCB,
        valid_opcode(op),
    ensures
        r == decoded_high(op, a8, a16),
{
    if op == 0xC9 {
        Instruction::Ret { cond: Cond::Always }
    } else if op == 0xC3 {
        Instruction::Jp { addr: a16, cond: Cond::Always }
    } else if op == 0xCD {
        Instruction::Call { addr: a16, cond: Cond::Always }
    } else if op == 0xD9 {
        Instruction::RetI
    } else if op == 0xE9 {
        Instruction::JpHl
    } else if op == 0xE0 {
        Instruction::Ldh { offset: a8 }
    } else if op == 0xF0 {
        Instruction::LdhA { offset: a8 }
    } else if op == 0xE2 {
        Instruction::LdMemCA
    } else if op == 0xF2 {
        Instruction::LdAMemC
    } else if op == 0xEA {
        Instruction::Ld { dst: Arg::MemImm(a16), src: Arg::Reg8(Reg8::A) }
    } else if op == 0xFA {
        Instruction::Ld { dst: Arg::Reg8(Reg8::A), src: Arg::MemImm(a16) }
    } else if op == 0xE8 {
        Instruction::AddSpImm8i { offset: signed_byte(a8) }
    } else if op == 0xF8 {
        Instruction::LdHlSpImm8i { offset: signed_byte(a8) }
    } else if op == 0xF9 {
        Instruction::Ld { dst: Arg::Reg16(Reg16::SP), src: Arg::Reg16(Reg16::HL) }
    } else if op == 0xF3 {
        Instruction::Di
    } else if op == 0xFB {
        Instruction::Ei
    } else if op % 8 == 0 {
        Instruction::Ret { cond: condition(op) }
    } else if op % 16 == 1 {
        Instruction::Pop { dst: stack_pair(op) }
    } else if op % 8 == 2 {
        Instruction::Jp { addr: a16, cond: condition(op) }
    } else if op % 8 == 4 {
        Instruction::Call { addr: a16, cond: condition(op) }
    } else if op % 16 == 5 {
        Instruction::Push { src: stack_pair(op) }
    } else if op % 8 == 6 {
        alu((op - 0xC0) / 8, Arg::Imm8(a8))
    } else {
        Instruction::Rst { offset: op - 0xC7 }
    }
}

fn decode_plain(op: u8, a8: u8, a16: u16) -> (r: Instruction)
    requires
        op != 0xCB,
        valid_opcode(op),
    ensures
        r == decoded(op, a8, a16),
{
    reveal(decoded);
    if op < 0x40 {
        decode_low(op, a8, a16)
    } else if op == 0x76 {
        Instruction::Halt
    } else if op < 0x80 {
        Instruction::Ld {
            dst: load_operand((op - 0x40) / 8),
            src: load_operand(op % 8),
        }
    } else if op < 0xC0 {
        alu((op - 0x80) / 8, operand(op % 8))
    } else {
        decode_high(op, a8, a16)
    }
}

fn decode_prefixed(op: u8) -> (r: Instruction)
    ensures
        r == prefix_decoded(op),
{
    reveal(prefix_decoded);
    let dst = operand(op % 8);
    let group: u8 = op / 8;
    if group == 0 {
        Instruction::Rlc { dst }
    } else if group == 1 {
        Instruction::Rrc { dst }
    } else if group == 2 {
        Instruction::Rl { dst }
    } else if group == 3 {
        Instruction::Rr { dst }
    } else if group == 4 {
        Instruction::Sla { dst }
    } else if group == 5 {
        Instruction::Sra { dst }
    } else if group == 6 {
        Instruction::Swap { dst }
    } else if group == 7 {
        Instruction::Srl { dst }
    } else if group < 16 {
        Instruction::Bit { dst, bit: group % 8 }
    } else if group < 24 {
        Instruction::Res { dst, bit: group % 8 }
    } else {
        Instruction::SetBit { dst, bit: group % 8 }
    }
}

impl Instruction {
    /// Bytes of the instruction.
    pub fn size(&self) -> (r: u8)
        ensures
            r == self.spec_size(),
    {
        match *self {
            Instruction::Stop | Instruction::LdhA { .. } | Instruction::Ldh { .. } => 2,
            Instruction::LdHlSpImm8i { .. } | Instruction::AddSpImm8i { .. } => 2,
            Instruction::Jr { .. } => 2,
            Instruction::Jp { .. } | Instruction::Call { .. } => 3,
            Instruction::Ld { dst, src } => match (dst, src) {
                (_, Arg::Imm8(_)) => 2,
                (_, Arg::Imm16(_)) => 3,
                (Arg::MemImm(_), _) => 3,
                (_, Arg::MemImm(_)) => 3,
                _ => 1,
            },
            Instruction::Add { src } => alu_bytes(src),
            Instruction::Adc { src } => alu_bytes(src),
            Instruction::Sub { src } => alu_bytes(src),
            Instruction::Sbc { src } => alu_bytes(src),
            Instruction::And { src } => alu_bytes(src),
            Instruction::Xor { src } => alu_bytes(src),
            Instruction::Or { src } => alu_bytes(src),
            Instruction::Cp { src } => alu_bytes(src),
            Instruction::Rlc { .. } | Instruction::Rl { .. } => 2,
            Instruction::Rrc { .. } | Instruction::Rr { .. } => 2,
            Instruction::Sla { .. } | Instruction::Sra { .. } => 2,
            Instruction::Srl { .. } | Instruction::Swap { .. } => 2,
            Instruction::Bit { .. } | Instruction::SetBit { .. } | Instruction::Res { .. } => 2,
            _ => 1,
        }
    }

    /// Cycles of the instruction.
    pub fn cycles(&self) -> (r: Cycles)
        ensures
            r == self.spec_cycles(),
    {
        match *self {
            Instruction::Jp { .. } => Cycles(16, 12),
            Instruction::Jr { .. } => Cycles(12, 8),
            Instruction::Call { .. } => Cycles(24, 12),
            Instruction::Ret { .. } => Cycles(20, 8),
            _ => Cycles(self.plain(), self.plain()),
        }
    }

    fn plain(&self) -> (r: u8)
        ensures
            r == self.plain_cycles(),
    {
        match *self {
            Instruction::RetI | Instruction::Rst { .. } | Instruction::Push { .. } => 16,
            Instruction::AddSpImm8i { .. } => 16,
            Instruction::LdHlSpImm8i { .. } | Instruction::Pop { .. } => 12,
            Instruction::LdhA { .. } | Instruction::Ldh { .. } => 12,
            Instruction::LdMemCA | Instruction::LdAMemC | Instruction::AddHlReg16 { .. } => 8,
            Instruction::LdiAMemHl | Instruction::LdiMemHlA => 8,
            Instruction::LddAMemHl | Instruction::LddMemHlA => 8,
            Instruction::Ld { dst, src } => match (dst, src) {
                (Arg::Reg8(_), Arg::Reg8(_)) => 4,
                (Arg::Mem(_), Arg::Imm8(_)) => 12,
                (Arg::Reg16(_), Arg::Imm16(_)) => 12,
                (Arg::MemImm(_), Arg::Reg16(_)) => 20,
                (Arg::MemImm(_), _) => 16,
                (_, Arg::MemImm(_)) => 16,
                _ => 8,
            },
            Instruction::Add { src } => alu_time(src),
            Instruction::Adc { src } => alu_time(src),
            Instruction::Sub { src } => alu_time(src),
            Instruction::Sbc { src } => alu_time(src),
            Instruction::And { src } => alu_time(src),
            Instruction::Xor { src } => alu_time(src),
            Instruction::Or { src } => alu_time(src),
            Instruction::Cp { src } => alu_time(src),
            Instruction::Inc { dst } => count_time(dst),
            Instruction::Dec { dst } => count_time(dst),
            Instruction::Rlc { dst } => prefix_time(dst),
            Instruction::Rl { dst } => prefix_time(dst),
            Instruction::Rrc { dst } => prefix_time(dst),
            Instruction::Rr { dst } => prefix_time(dst),
            Instruction::Sla { dst } => prefix_time(dst),
            Instruction::Sra { dst } => prefix_time(dst),
            Instruction::Srl { dst } => prefix_time(dst),
            Instruction::Swap { dst } => prefix_time(dst),
            Instruction::SetBit { dst, .. } => prefix_time(dst),
            Instruction::Res { dst, .. } => prefix_time(dst),
            Instruction::Bit { dst, .. } => if dst == Arg::MemHl {
                12
            } else {
                8
            },
            _ => 4,
        }
    }

    /// Decodes the instruction in three bytes: the instruction, its size and its cycles.
    pub fn decode(data: [u8; 3]) -> (r: (Instruction, u8, Cycles))
        requires
            valid_opcode(data@[0]),
        ensures
            r.0 == instruction_of(
                data@[0],
                data@[1],
                (data@[1] + 256 * data@[2]) as u16,
            ),
            r.1 == r.0.spec_size(),
            r.2 == r.0.spec_cycles(),
    {
        let a16: u16 = data[1] as u16 + 256 * (data[2] as u16);
        let inst = if data[0] == 0xCB {
            decode_prefixed(data[1])
        } else {
            decode_plain(data[0], data[1], a16)
        };
        (inst, inst.size(), inst.cycles())
    }

    /// An instruction has one to three bytes and takes four to twenty-four cycles, in steps
    /// of four.
    pub proof fn law_size_and_cycles(self)
        ensures
            1 <= self.spec_size() <= 3,
            4 <= self.spec_cycles().1 <= self.spec_cycles().0 <= 24,
            self.spec_cycles().0 % 4 == 0,
            self.spec_cycles().1 % 4 == 0,
    {
    }
}

fn alu_bytes(src: Arg) -> (r: u8)
    ensures
        r == alu_size(src),
{
    if matches!(src, Arg::Imm8(_)) {
        2
    } else {
        1
    }
}

fn alu_time(src: Arg) -> (r: u8)
    ensures
        r == alu_cycles(src),
{
    if matches!(src, Arg::Reg8(_)) {
        4
    } else {
        8
    }
}

fn count_time(dst: Arg) -> (r: u8)
    ensures
        r == count_cycles(dst),
{
    if matches!(dst, Arg::Reg8(_)) {
        4
    } else if matches!(dst, Arg::Reg16(_)) {
        8
    } else {
        12
    }
}

fn prefix_time(dst: Arg) -> (r: u8)
    ensures
        r == prefix_cycles(dst),
{
    if dst == Arg::MemHl {
        16
    } else {
        8
    }
}

/// Eleven opcodes, all of them from 0xD0 on, start no instruction.
pub proof fn law_invalid_opcodes(op: u8)
    ensures
        op < 0xD0 ==> valid_opcode(op),
        0xD0 <= op < 0xE0 ==> (valid_opcode(op) <==> op != 0xD3 && op != 0xDB && op != 0xDD),
        0xE0 <= op < 0xF0 ==> (valid_opcode(op) <==> op % 16 != 3 && op % 16 != 4 && op % 16 != 11
            && op % 16 != 12 && op % 16 != 13),
        op >= 0xF0 ==> (valid_opcode(op) <==> op % 16 != 4 && op % 16 != 12 && op % 16 != 13),
{
}

/// A signed byte is its unsigned value or 256 less, whichever lies from -128 to 127.
pub proof fn law_signed_byte(value: u8)
    ensures
        signed(value) == value || signed(value) == value - 256,
        -128 <= signed(value) <= 127,
{
}

} // verus!
