//! From opcodes to handlers.
use vstd::prelude::*;

use crate::cpu::ops::{
    cb_bit, cb_res, cb_rl, cb_rlc, cb_rr, cb_rrc, cb_set, cb_sla, cb_sra, cb_srl, cb_swap,
    op_add_hl_r16, op_add_sp_imm8, op_alu_imm, op_alu_r8, op_call, op_ccf, op_cpl, op_daa,
    op_dec_r16, op_dec_r8, op_di, op_ei, op_halt, op_inc_r16, op_inc_r8, op_jp, op_jphl, op_jr,
    op_ld_a_mem_r16, op_ld_a_memc, op_ld_a_memimm, op_ld_hl_sp_imm8, op_ld_mem_r16_a, op_ld_memc_a,
    op_ld_memhl_imm8, op_ld_memimm_a, op_ld_memimm_sp, op_ld_r16_imm16, op_ld_r8_imm8, op_ld_r8_r8,
    op_ld_sp_hl, op_ldd_a_memhl, op_ldd_memhl_a, op_ldh, op_ldh_a, op_ldi_a_memhl, op_ldi_memhl_a,
    op_nop, op_pop, op_push, op_ret, op_reti, op_rla, op_rlca, op_rra, op_rrca, op_rst, op_scf,
    op_stop, performed,
};
use crate::cpu::{Cpu, StepResult};
use crate::instructions::{decoded, prefix_decoded, valid_opcode};

verus! {

fn dispatch_low(cpu: &mut Cpu, op: u8, a8: u8, a16: u16) -> (r: StepResult)
    requires
        old(cpu).wf(),
        op < 0x40,
    ensures
        performed(old(cpu)@, final(cpu)@, r, decoded(op, a8, a16)),
        final(cpu).wf(),
{
    match op {
        0x00 => op_nop(cpu, op, a8, a16),
        0x01 | 0x11 | 0x21 | 0x31 => op_ld_r16_imm16(cpu, op, a8, a16),
        0x02 | 0x12 => op_ld_mem_r16_a(cpu, op, a8, a16),
        0x03 | 0x13 | 0x23 | 0x33 => op_inc_r16(cpu, op, a8, a16),
        0x04 | 0x0C | 0x14 | 0x1C | 0x24 | 0x2C | 0x34 | 0x3C => op_inc_r8(cpu, op, a8, a16),
        0x05 | 0x0D | 0x15 | 0x1D | 0x25 | 0x2D | 0x35 | 0x3D => op_dec_r8(cpu, op, a8, a16),
        0x06 | 0x0E | 0x16 | 0x1E | 0x26 | 0x2E | 0x3E => op_ld_r8_imm8(cpu, op, a8, a16),
        0x07 => op_rlca(cpu, op, a8, a16),
        0x08 => op_ld_memimm_sp(cpu, op, a8, a16),
        0x09 | 0x19 | 0x29 | 0x39 => op_add_hl_r16(cpu, op, a8, a16),
        0x0A | 0x1A => op_ld_a_mem_r16(cpu, op, a8, a16),
        0x0B | 0x1B | 0x2B | 0x3B => op_dec_r16(cpu, op, a8, a16),
        0x0F => op_rrca(cpu, op, a8, a16),
        0x10 => op_stop(cpu, op, a8, a16),
        0x17 => op_rla(cpu, op, a8, a16),
        0x18 | 0x20 | 0x28 | 0x30 | 0x38 => op_jr(cpu, op, a8, a16),
        0x1F => op_rra(cpu, op, a8, a16),
        0x22 => op_ldi_memhl_a(cpu, op, a8, a16),
        0x27 => op_daa(cpu, op, a8, a16),
        0x2A => op_ldi_a_memhl(cpu, op, a8, a16),
        0x2F => op_cpl(cpu, op, a8, a16),
        0x32 => op_ldd_memhl_a(cpu, op, a8, a16),
        0x36 => op_ld_memhl_imm8(cpu, op, a8, a16),
        0x37 => op_scf(cpu, op, a8, a16),
        0x3A => op_ldd_a_memhl(cpu, op, a8, a16),
        _ => op_ccf(cpu, op, a8, a16),
    }
}

fn dispatch_high(cpu: &mut Cpu, op: u8, a8: u8, a16: u16) -> (r: StepResult)
    requires
        old(cpu).wf(),
        op >= 0xC0,
        op != 0xCB,
        valid_opcode(op),
    ensures
        performed(old(cpu)@, final(cpu)@, r, decoded(op, a8, a16)),
        final(cpu).wf(),
{
    match op {
        0xC0 | 0xC8 | 0xC9 | 0xD0 | 0xD8 => op_ret(cpu, op, a8, a16),
        0xC1 | 0xD1 | 0xE1 | 0xF1 => op_pop(cpu, op, a8, a16),
        0xC2 | 0xC3 | 0xCA | 0xD2 | 0xDA => op_jp(cpu, op, a8, a16),
        0xC4 | 0xCC | 0xCD | 0xD4 | 0xDC => op_call(cpu, op, a8, a16),
        0xC5 | 0xD5 | 0xE5 | 0xF5 => op_push(cpu, op, a8, a16),
        0xC6 | 0xCE | 0xD6 | 0xDE | 0xE6 | 0xEE | 0xF6 | 0xFE => op_alu_imm(cpu, op, a8, a16),
        0xD9 => op_reti(cpu, op, a8, a16),
        0xE0 => op_ldh(cpu, op, a8, a16),
        0xE2 => op_ld_memc_a(cpu, op, a8, a16),
        0xE8 => op_add_sp_imm8(cpu, op, a8, a16),
        0xE9 => op_jphl(cpu, op, a8, a16),
        0xEA => op_ld_memimm_a(cpu, op, a8, a16),
        0xF0 => op_ldh_a(cpu, op, a8, a16),
        0xF2 => op_ld_a_memc(cpu, op, a8, a16),
        0xF3 => op_di(cpu, op, a8, a16),
        0xF8 => op_ld_hl_sp_imm8(cpu, op, a8, a16),
        0xF9 => op_ld_sp_hl(cpu, op, a8, a16),
        0xFA => op_ld_a_memimm(cpu, op, a8, a16),
        0xFB => op_ei(cpu, op, a8, a16),
        _ => op_rst(cpu, op, a8, a16),
    }
}

/// Executes an opcode without the prefix, with the byte and the word that follow it.
pub fn dispatch(cpu: &mut Cpu, op: u8, a8: u8, a16: u16) -> (r: StepResult)
    requires
        old(cpu).wf(),
        op != 0xCB,
        valid_opcode(op),
    ensures
        performed(old(cpu)@, final(cpu)@, r, decoded(op, a8, a16)),
        final(cpu).wf(),
{
    match op {
        0x00..=0x3F => dispatch_low(cpu, op, a8, a16),
        0x76 => op_halt(cpu, op, a8, a16),
        0x40..=0x7F => op_ld_r8_r8(cpu, op, a8, a16),
        0x80..=0xBF => op_alu_r8(cpu, op, a8, a16),
        _ => dispatch_high(cpu, op, a8, a16),
    }
}

/// Executes an opcode behind the prefix.
pub fn dispatch_prefixed(cpu: &mut Cpu, op: u8) -> (r: StepResult)
    requires
        old(cpu).wf(),
    ensures
        performed(old(cpu)@, final(cpu)@, r, prefix_decoded(op)),
        final(cpu).wf(),
{
    match op {
        0x00..=0x07 => cb_rlc(cpu, op),
        0x08..=0x0F => cb_rrc(cpu, op),
        0x10..=0x17 => cb_rl(cpu, op),
        0x18..=0x1F => cb_rr(cpu, op),
        0x20..=0x27 => cb_sla(cpu, op),
        0x28..=0x2F => cb_sra(cpu, op),
        0x30..=0x37 => cb_swap(cpu, op),
        0x38..=0x3F => cb_srl(cpu, op),
        0x40..=0x7F => cb_bit(cpu, op),
        0x80..=0xBF => cb_res(cpu, op),
        _ => cb_set(cpu, op),
    }
}

} // verus!
