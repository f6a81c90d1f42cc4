//! The instructions behind groups of opcodes.
use vstd::prelude::*;

use crate::instructions::{
    alu_at, decoded, load_operand_at, operand_at, pair_at, prefix_decoded, stack_pair_at, Arg,
    Instruction,
};

verus! {

pub proof fn lemma_load_immediate(op: u8, a8: u8, a16: u16)
    requires
        op < 0x40,
        op % 8 == 6,
    ensures
        decoded(op, a8, a16) == (Instruction::Ld {
            dst: load_operand_at(op / 8),
            src: Arg::Imm8(a8),
        }),
{
    reveal(decoded);
}

pub proof fn lemma_load(op: u8, a8: u8, a16: u16)
    requires
        0x40 <= op < 0x80,
        op != 0x76,
    ensures
        decoded(op, a8, a16) == (Instruction::Ld {
            dst: load_operand_at(((op - 0x40) / 8) as u8),
            src: load_operand_at(op % 8),
        }),
{
    reveal(decoded);
}

pub proof fn lemma_increment(op: u8, a8: u8, a16: u16)
    requires
        op < 0x40,
        op % 8 == 4,
    ensures
        decoded(op, a8, a16) == (Instruction::Inc { dst: operand_at(op / 8) }),
{
    reveal(decoded);
}

pub proof fn lemma_decrement(op: u8, a8: u8, a16: u16)
    requires
        op < 0x40,
        op % 8 == 5,
    ensures
        decoded(op, a8, a16) == (Instruction::Dec { dst: operand_at(op / 8) }),
{
    reveal(decoded);
}

pub proof fn lemma_increment_pair(op: u8, a8: u8, a16: u16)
    requires
        op < 0x40,
        op % 16 == 3,
    ensures
        decoded(op, a8, a16) == (Instruction::Inc { dst: Arg::Reg16(pair_at(op)) }),
{
    reveal(decoded);
}

pub proof fn lemma_decrement_pair(op: u8, a8: u8, a16: u16)
    requires
        op < 0x40,
        op % 16 == 11,
    ensures
        decoded(op, a8, a16) == (Instruction::Dec { dst: Arg::Reg16(pair_at(op)) }),
{
    reveal(decoded);
}

pub proof fn lemma_arithmetic(op: u8, a8: u8, a16: u16)
    requires
        0x80 <= op < 0xC0,
    ensures
        decoded(op, a8, a16) == alu_at(((op - 0x80) / 8) as u8, operand_at(op % 8)),
{
    reveal(decoded);
}

pub proof fn lemma_arithmetic_immediate(op: u8, a8: u8, a16: u16)
    requires
        op >= 0xC0,
        op % 8 == 6,
    ensures
        decoded(op, a8, a16) == alu_at(((op - 0xC0) / 8) as u8, Arg::Imm8(a8)),
{
    reveal(decoded);
}

pub proof fn lemma_push(op: u8, a8: u8, a16: u16)
    requires
        op >= 0xC0,
        op % 16 == 5,
    ensures
        decoded(op, a8, a16) == (Instruction::Push { src: stack_pair_at(op) }),
{
    reveal(decoded);
}

pub proof fn lemma_pop(op: u8, a8: u8, a16: u16)
    requires
        op >= 0xC0,
        op % 16 == 1,
    ensures
        decoded(op, a8, a16) == (Instruction::Pop { dst: stack_pair_at(op) }),
{
    reveal(decoded);
}

pub proof fn lemma_restart(op: u8, a8: u8, a16: u16)
    requires
        op >= 0xC0,
        op % 8 == 7,
    ensures
        decoded(op, a8, a16) == (Instruction::Rst { offset: (op - 0xC7) as u8 }),
{
    reveal(decoded);
}

pub proof fn lemma_prefixed(op: u8)
    ensures
        ({
            let dst = operand_at(op % 8);
            let inst = prefix_decoded(op);
            let bit = (op / 8) % 8;
            &&& op / 8 == 0 ==> inst == (Instruction::Rlc { dst })
            &&& op / 8 == 1 ==> inst == (Instruction::Rrc { dst })
            &&& op / 8 == 2 ==> inst == (Instruction::Rl { dst })
            &&& op / 8 == 3 ==> inst == (Instruction::Rr { dst })
            &&& op / 8 == 4 ==> inst == (Instruction::Sla { dst })
            &&& op / 8 == 5 ==> inst == (Instruction::Sra { dst })
            &&& op / 8 == 6 ==> inst == (Instruction::Swap { dst })
            &&& op / 8 == 7 ==> inst == (Instruction::Srl { dst })
            &&& 8 <= op / 8 < 16 ==> inst == (Instruction::Bit { dst, bit })
            &&& 16 <= op / 8 < 24 ==> inst == (Instruction::Res { dst, bit })
            &&& 24 <= op / 8 ==> inst == (Instruction::SetBit { dst, bit })
        }),
{
    reveal(prefix_decoded);
}

} // verus!
