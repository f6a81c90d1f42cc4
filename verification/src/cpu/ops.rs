//! Handlers of the opcodes, one for each pattern of execution.
//!
//! Every handler does what the instruction behind its opcode does, and reports it.
use vstd::prelude::*;

use crate::cpu::alu::{extend_offset, swap_byte, LogicalOp};
use crate::cpu::decoding::{
    lemma_arithmetic, lemma_arithmetic_immediate, lemma_decrement, lemma_decrement_pair,
    lemma_increment, lemma_increment_pair, lemma_load, lemma_load_immediate, lemma_pop,
    lemma_prefixed, lemma_push, lemma_restart,
};
use crate::cpu::effects::is_source;
use crate::cpu::{Cpu, CpuView, StepResult};
use crate::instructions::{
    alu_at, alu_cycles, alu_size, cond_at, condition, decoded, load_operand_at, operand, operand_at,
    pair, pair_at, prefix_decoded, reg8, reg_at, signed, signed_byte, stack_pair, stack_pair_at, Arg,
    Cond, Cycles, Instruction,
};
use crate::memory::MemoryBus;
use crate::registers::{Reg16, Reg8, RegisterOps};

verus! {

/// `after` and the report are those of the instruction.
pub open spec fn performed(
    before: CpuView,
    after: CpuView,
    r: StepResult,
    inst: Instruction,
) -> bool {
    after == before.effect(inst) && r == before.report(inst)
}

fn plain(inst: Instruction, size: u8, cycles: u8) -> (r: StepResult)
    ensures
        r == (StepResult {
            inst,
            size,
            cycles: Cycles(cycles, cycles),
            jump: false,
            taken: false,
        }),
{
    StepResult { inst, size, cycles: Cycles::from(cycles), jump: false, taken: false }
}

pub fn op_nop(cpu: &mut Cpu, op: u8, a8: u8, a16: u16) -> (r: StepResult)
    requires
        old(cpu).wf(),
        op == 0x00,
    ensures
        performed(old(cpu)@, final(cpu)@, r, decoded(op, a8, a16)),
        final(cpu).wf(),
{
    reveal(decoded);
    proof {
        cpu@.lemma_nop();
    }
    plain(Instruction::Nop, 1, 4)
}

pub fn op_halt(cpu: &mut Cpu, op: u8, a8: u8, a16: u16) -> (r: StepResult)
    requires
        old(cpu).wf(),
        op == 0x76,
    ensures
        performed(old(cpu)@, final(cpu)@, r, decoded(op, a8, a16)),
        final(cpu).wf(),
{
    reveal(decoded);
    proof {
        cpu@.lemma_halt();
    }
    cpu.halted = true;
    plain(Instruction::Halt, 1, 4)
}

pub fn op_stop(cpu: &mut Cpu, op: u8, a8: u8, a16: u16) -> (r: StepResult)
    requires
        old(cpu).wf(),
        op == 0x10,
    ensures
        performed(old(cpu)@, final(cpu)@, r, decoded(op, a8, a16)),
        final(cpu).wf(),
{
    reveal(decoded);
    reveal(CpuView::stop_done);
    proof {
        cpu@.lemma_stop();
    }
    if cpu.cgb && cpu.memory.io().prep_speed_switch & 0x01 != 0 {
        cpu.speed_switch();
    }
    reveal(MemoryBus::contents);
    reveal(MemoryBus::wf);
    cpu.memory.timer.write(0xFF04, 0);
    assert(cpu.memory@ =~= old(cpu)@.stop_done().bus);
    plain(Instruction::Stop, 2, 4)
}

pub fn op_di(cpu: &mut Cpu, op: u8, a8: u8, a16: u16) -> (r: StepResult)
    requires
        old(cpu).wf(),
        op == 0xF3,
    ensures
        performed(old(cpu)@, final(cpu)@, r, decoded(op, a8, a16)),
        final(cpu).wf(),
{
    reveal(decoded);
    proof {
        cpu@.lemma_di();
    }
    cpu.ime = false;
    plain(Instruction::Di, 1, 4)
}

pub fn op_ei(cpu: &mut Cpu, op: u8, a8: u8, a16: u16) -> (r: StepResult)
    requires
        old(cpu).wf(),
        op == 0xFB,
    ensures
        performed(old(cpu)@, final(cpu)@, r, decoded(op, a8, a16)),
        final(cpu).wf(),
{
    reveal(decoded);
    proof {
        cpu@.lemma_ei();
    }
    cpu.ime = true;
    plain(Instruction::Ei, 1, 4)
}

pub fn op_daa(cpu: &mut Cpu, op: u8, a8: u8, a16: u16) -> (r: StepResult)
    requires
        old(cpu).wf(),
        op == 0x27,
    ensures
        performed(old(cpu)@, final(cpu)@, r, decoded(op, a8, a16)),
        final(cpu).wf(),
{
    reveal(decoded);
    proof {
        cpu@.lemma_daa();
    }
    cpu.daa();
    plain(Instruction::Daa, 1, 4)
}

pub fn op_cpl(cpu: &mut Cpu, op: u8, a8: u8, a16: u16) -> (r: StepResult)
    requires
        old(cpu).wf(),
        op == 0x2F,
    ensures
        performed(old(cpu)@, final(cpu)@, r, decoded(op, a8, a16)),
        final(cpu).wf(),
{
    reveal(decoded);
    reveal(CpuView::complemented);
    proof {
        cpu@.lemma_cpl();
    }
    let a: u8 = cpu.registers.read(Reg8::A);
    let zero = cpu.registers.zero();
    let carry = cpu.registers.carry();
    cpu.registers.write(Reg8::A, !a);
    cpu.registers.set_flags(zero, true, true, carry);
    plain(Instruction::Cpl, 1, 4)
}

pub fn op_ccf(cpu: &mut Cpu, op: u8, a8: u8, a16: u16) -> (r: StepResult)
    requires
        old(cpu).wf(),
        op == 0x3F,
    ensures
        performed(old(cpu)@, final(cpu)@, r, decoded(op, a8, a16)),
        final(cpu).wf(),
{
    reveal(decoded);
    reveal(CpuView::carry_put);
    proof {
        cpu@.lemma_ccf();
    }
    let zero = cpu.registers.zero();
    let carry = cpu.registers.carry();
    cpu.registers.set_flags(zero, false, false, !carry);
    plain(Instruction::Ccf, 1, 4)
}

pub fn op_scf(cpu: &mut Cpu, op: u8, a8: u8, a16: u16) -> (r: StepResult)
    requires
        old(cpu).wf(),
        op == 0x37,
    ensures
        performed(old(cpu)@, final(cpu)@, r, decoded(op, a8, a16)),
        final(cpu).wf(),
{
    reveal(decoded);
    reveal(CpuView::carry_put);
    proof {
        cpu@.lemma_scf();
    }
    let zero = cpu.registers.zero();
    cpu.registers.set_flags(zero, false, false, true);
    plain(Instruction::Scf, 1, 4)
}

pub fn op_reti(cpu: &mut Cpu, op: u8, a8: u8, a16: u16) -> (r: StepResult)
    requires
        old(cpu).wf(),
        op == 0xD9,
    ensures
        performed(old(cpu)@, final(cpu)@, r, decoded(op, a8, a16)),
        final(cpu).wf(),
{
    reveal(decoded);
    proof {
        cpu@.lemma_reti();
    }
    let addr = cpu.pop();
    cpu.registers.PC = addr;
    cpu.ime = true;
    StepResult {
        inst: Instruction::RetI,
        size: 1,
        cycles: Cycles::from(16),
        jump: true,
        taken: true,
    }
}

pub fn op_jphl(cpu: &mut Cpu, op: u8, a8: u8, a16: u16) -> (r: StepResult)
    requires
        old(cpu).wf(),
        op == 0xE9,
    ensures
        performed(old(cpu)@, final(cpu)@, r, decoded(op, a8, a16)),
        final(cpu).wf(),
{
    reveal(decoded);
    proof {
        cpu@.lemma_jp_hl();
    }
    cpu.registers.PC = cpu.registers.read(Reg16::HL);
    StepResult {
        inst: Instruction::JpHl,
        size: 1,
        cycles: Cycles::from(4),
        jump: true,
        taken: true,
    }
}

pub fn op_ld_memc_a(cpu: &mut Cpu, op: u8, a8: u8, a16: u16) -> (r: StepResult)
    requires
        old(cpu).wf(),
        op == 0xE2,
    ensures
        performed(old(cpu)@, final(cpu)@, r, decoded(op, a8, a16)),
        final(cpu).wf(),
{
    reveal(decoded);
    reveal(CpuView::port_stored);
    proof {
        cpu@.lemma_ld_mem_c_a();
    }
    let offset: u8 = cpu.registers.read(Reg8::C);
    let value: u8 = cpu.registers.read(Reg8::A);
    cpu.memory.write(0xFF00 + offset as u16, value);
    plain(Instruction::LdMemCA, 1, 8)
}

pub fn op_ld_a_memc(cpu: &mut Cpu, op: u8, a8: u8, a16: u16) -> (r: StepResult)
    requires
        old(cpu).wf(),
        op == 0xF2,
    ensures
        performed(old(cpu)@, final(cpu)@, r, decoded(op, a8, a16)),
        final(cpu).wf(),
{
    reveal(decoded);
    reveal(CpuView::port_loaded);
    proof {
        cpu@.lemma_ld_a_mem_c();
    }
    let offset: u8 = cpu.registers.read(Reg8::C);
    let value = cpu.memory.read(0xFF00 + offset as u16);
    cpu.registers.write(Reg8::A, value);
    plain(Instruction::LdAMemC, 1, 8)
}

pub fn op_ldh_a(cpu: &mut Cpu, op: u8, a8: u8, a16: u16) -> (r: StepResult)
    requires
        old(cpu).wf(),
        op == 0xF0,
    ensures
        performed(old(cpu)@, final(cpu)@, r, decoded(op, a8, a16)),
        final(cpu).wf(),
{
    reveal(decoded);
    reveal(CpuView::port_loaded);
    proof {
        cpu@.lemma_ldh_a(a8);
    }
    let value = cpu.memory.read(0xFF00 + a8 as u16);
    cpu.registers.write(Reg8::A, value);
    plain(Instruction::LdhA { offset: a8 }, 2, 12)
}

pub fn op_ldh(cpu: &mut Cpu, op: u8, a8: u8, a16: u16) -> (r: StepResult)
    requires
        old(cpu).wf(),
        op == 0xE0,
    ensures
        performed(old(cpu)@, final(cpu)@, r, decoded(op, a8, a16)),
        final(cpu).wf(),
{
    reveal(decoded);
    reveal(CpuView::port_stored);
    proof {
        cpu@.lemma_ldh(a8);
    }
    let value: u8 = cpu.registers.read(Reg8::A);
    cpu.memory.write(0xFF00 + a8 as u16, value);
    plain(Instruction::Ldh { offset: a8 }, 2, 12)
}

pub fn op_ld_r16_imm16(cpu: &mut Cpu, op: u8, a8: u8, a16: u16) -> (r: StepResult)
    requires
        old(cpu).wf(),
        op == 0x01 || op == 0x11 || op == 0x21 || op == 0x31,
    ensures
        performed(old(cpu)@, final(cpu)@, r, decoded(op, a8, a16)),
        final(cpu).wf(),
{
    reveal(decoded);
    reveal(CpuView::loaded);
    proof {
        cpu@.lemma_ld(Arg::Reg16(pair_at(op)), Arg::Imm16(a16));
    }
    let reg = pair(op);
    cpu.registers.write(reg, a16);
    plain(Instruction::Ld { dst: Arg::Reg16(reg), src: Arg::Imm16(a16) }, 3, 12)
}

pub fn op_ld_a_mem_r16(cpu: &mut Cpu, op: u8, a8: u8, a16: u16) -> (r: StepResult)
    requires
        old(cpu).wf(),
        op == 0x0A || op == 0x1A,
    ensures
        performed(old(cpu)@, final(cpu)@, r, decoded(op, a8, a16)),
        final(cpu).wf(),
{
    reveal(decoded);
    reveal(CpuView::loaded);
    proof {
        cpu@.lemma_ld(Arg::Reg8(Reg8::A), Arg::Mem(pair_at(op)));
    }
    let reg = pair(op);
    let value = cpu.memory.read(cpu.registers.read(reg));
    cpu.registers.write(Reg8::A, value);
    plain(Instruction::Ld { dst: Arg::Reg8(Reg8::A), src: Arg::Mem(reg) }, 1, 8)
}

pub fn op_ld_mem_r16_a(cpu: &mut Cpu, op: u8, a8: u8, a16: u16) -> (r: StepResult)
    requires
        old(cpu).wf(),
        op == 0x02 || op == 0x12,
    ensures
        performed(old(cpu)@, final(cpu)@, r, decoded(op, a8, a16)),
        final(cpu).wf(),
{
    reveal(decoded);
    reveal(CpuView::loaded);
    proof {
        cpu@.lemma_ld(Arg::Mem(pair_at(op)), Arg::Reg8(Reg8::A));
    }
    let reg = pair(op);
    let addr: u16 = cpu.registers.read(reg);
    let value: u8 = cpu.registers.read(Reg8::A);
    cpu.memory.write(addr, value);
    plain(Instruction::Ld { dst: Arg::Mem(reg), src: Arg::Reg8(Reg8::A) }, 1, 8)
}

pub fn op_ld_r8_imm8(cpu: &mut Cpu, op: u8, a8: u8, a16: u16) -> (r: StepResult)
    requires
        old(cpu).wf(),
        op < 0x40,
        op % 8 == 6,
        op != 0x36,
    ensures
        performed(old(cpu)@, final(cpu)@, r, decoded(op, a8, a16)),
        final(cpu).wf(),
{
    reveal(CpuView::loaded);
    proof {
        lemma_load_immediate(op, a8, a16);
        cpu@.lemma_ld(Arg::Reg8(reg_at(op / 8)), Arg::Imm8(a8));
    }
    reveal(load_operand_at);
    let reg = reg8(op / 8);
    cpu.registers.write(reg, a8);
    plain(Instruction::Ld { dst: Arg::Reg8(reg), src: Arg::Imm8(a8) }, 2, 8)
}

pub fn op_ld_memhl_imm8(cpu: &mut Cpu, op: u8, a8: u8, a16: u16) -> (r: StepResult)
    requires
        old(cpu).wf(),
        op == 0x36,
    ensures
        performed(old(cpu)@, final(cpu)@, r, decoded(op, a8, a16)),
        final(cpu).wf(),
{
    reveal(decoded);
    reveal(CpuView::loaded);
    proof {
        cpu@.lemma_ld(Arg::Mem(Reg16::HL), Arg::Imm8(a8));
    }
    reveal(load_operand_at);
    let addr: u16 = cpu.registers.read(Reg16::HL);
    cpu.memory.write(addr, a8);
    plain(Instruction::Ld { dst: Arg::Mem(Reg16::HL), src: Arg::Imm8(a8) }, 2, 12)
}

/// Loads an operand from another; not both can be in memory.
fn load(cpu: &mut Cpu, dst_index: u8, src_index: u8) -> (r: Instruction)
    requires
        old(cpu).wf(),
        dst_index < 8,
        src_index < 8,
        !(dst_index == 6 && src_index == 6),
    ensures
        r == (Instruction::Ld { dst: load_operand_at(dst_index), src: load_operand_at(src_index) }),
        final(cpu)@ == old(cpu)@.effect(r),
        old(cpu)@.report(r) == (StepResult {
            inst: r,
            size: 1,
            cycles: if dst_index == 6 || src_index == 6 { Cycles(8, 8) } else { Cycles(4, 4) },
            jump: false,
            taken: false,
        }),
        final(cpu).wf(),
{
    reveal(CpuView::loaded);
    reveal(load_operand_at);
    proof {
        cpu@.lemma_ld(load_operand_at(dst_index), load_operand_at(src_index));
    }
    if dst_index == 6 {
        let addr: u16 = cpu.registers.read(Reg16::HL);
        let src = reg8(src_index);
        let value: u8 = cpu.registers.read(src);
        cpu.memory.write(addr, value);
        Instruction::Ld { dst: Arg::Mem(Reg16::HL), src: Arg::Reg8(src) }
    } else if src_index == 6 {
        let value = cpu.memory.read(cpu.registers.read(Reg16::HL));
        let dst = reg8(dst_index);
        cpu.registers.write(dst, value);
        Instruction::Ld { dst: Arg::Reg8(dst), src: Arg::Mem(Reg16::HL) }
    } else {
        let dst = reg8(dst_index);
        let src = reg8(src_index);
        let value: u8 = cpu.registers.read(src);
        cpu.registers.write(dst, value);
        Instruction::Ld { dst: Arg::Reg8(dst), src: Arg::Reg8(src) }
    }
}

pub fn op_ld_r8_r8(cpu: &mut Cpu, op: u8, a8: u8, a16: u16) -> (r: StepResult)
    requires
        old(cpu).wf(),
        0x40 <= op < 0x80,
        op != 0x76,
    ensures
        performed(old(cpu)@, final(cpu)@, r, decoded(op, a8, a16)),
        final(cpu).wf(),
{
    proof {
        lemma_load(op, a8, a16);
    }
    let dst_index: u8 = (op - 0x40) / 8;
    let src_index: u8 = op % 8;
    let inst = load(cpu, dst_index, src_index);
    plain(inst, 1, if dst_index == 6 || src_index == 6 { 8 } else { 4 })
}

pub fn op_ldi_a_memhl(cpu: &mut Cpu, op: u8, a8: u8, a16: u16) -> (r: StepResult)
    requires
        old(cpu).wf(),
        op == 0x2A,
    ensures
        performed(old(cpu)@, final(cpu)@, r, decoded(op, a8, a16)),
        final(cpu).wf(),
{
    reveal(decoded);
    reveal(CpuView::hl_loaded);
    proof {
        cpu@.lemma_ldi_a();
    }
    let addr: u16 = cpu.registers.read(Reg16::HL);
    let value = cpu.memory.read(addr);
    cpu.registers.write(Reg8::A, value);
    cpu.registers.write(Reg16::HL, addr.wrapping_add(1));
    plain(Instruction::LdiAMemHl, 1, 8)
}

pub fn op_ldd_a_memhl(cpu: &mut Cpu, op: u8, a8: u8, a16: u16) -> (r: StepResult)
    requires
        old(cpu).wf(),
        op == 0x3A,
    ensures
        performed(old(cpu)@, final(cpu)@, r, decoded(op, a8, a16)),
        final(cpu).wf(),
{
    reveal(decoded);
    reveal(CpuView::hl_loaded);
    proof {
        cpu@.lemma_ldd_a();
    }
    let addr: u16 = cpu.registers.read(Reg16::HL);
    let value = cpu.memory.read(addr);
    cpu.registers.write(Reg8::A, value);
    cpu.registers.write(Reg16::HL, addr.wrapping_sub(1));
    plain(Instruction::LddAMemHl, 1, 8)
}

pub fn op_ldi_memhl_a(cpu: &mut Cpu, op: u8, a8: u8, a16: u16) -> (r: StepResult)
    requires
        old(cpu).wf(),
        op == 0x22,
    ensures
        performed(old(cpu)@, final(cpu)@, r, decoded(op, a8, a16)),
        final(cpu).wf(),
{
    reveal(decoded);
    reveal(CpuView::hl_loaded);
    proof {
        cpu@.lemma_ldi_mem();
    }
    let addr: u16 = cpu.registers.read(Reg16::HL);
    let value: u8 = cpu.registers.read(Reg8::A);
    cpu.memory.write(addr, value);
    cpu.registers.write(Reg16::HL, addr.wrapping_add(1));
    plain(Instruction::LdiMemHlA, 1, 8)
}

pub fn op_ldd_memhl_a(cpu: &mut Cpu, op: u8, a8: u8, a16: u16) -> (r: StepResult)
    requires
        old(cpu).wf(),
        op == 0x32,
    ensures
        performed(old(cpu)@, final(cpu)@, r, decoded(op, a8, a16)),
        final(cpu).wf(),
{
    reveal(decoded);
    reveal(CpuView::hl_loaded);
    proof {
        cpu@.lemma_ldd_mem();
    }
    let addr: u16 = cpu.registers.read(Reg16::HL);
    let value: u8 = cpu.registers.read(Reg8::A);
    cpu.memory.write(addr, value);
    cpu.registers.write(Reg16::HL, addr.wrapping_sub(1));
    plain(Instruction::LddMemHlA, 1, 8)
}

pub fn op_ld_a_memimm(cpu: &mut Cpu, op: u8, a8: u8, a16: u16) -> (r: StepResult)
    requires
        old(cpu).wf(),
        op == 0xFA,
    ensures
        performed(old(cpu)@, final(cpu)@, r, decoded(op, a8, a16)),
        final(cpu).wf(),
{
    reveal(decoded);
    reveal(CpuView::loaded);
    proof {
        cpu@.lemma_ld(Arg::Reg8(Reg8::A), Arg::MemImm(a16));
    }
    let value = cpu.memory.read(a16);
    cpu.registers.write(Reg8::A, value);
    plain(Instruction::Ld { dst: Arg::Reg8(Reg8::A), src: Arg::MemImm(a16) }, 3, 16)
}

pub fn op_ld_memimm_a(cpu: &mut Cpu, op: u8, a8: u8, a16: u16) -> (r: StepResult)
    requires
        old(cpu).wf(),
        op == 0xEA,
    ensures
        performed(old(cpu)@, final(cpu)@, r, decoded(op, a8, a16)),
        final(cpu).wf(),
{
    reveal(decoded);
    reveal(CpuView::loaded);
    proof {
        cpu@.lemma_ld(Arg::MemImm(a16), Arg::Reg8(Reg8::A));
    }
    let value: u8 = cpu.registers.read(Reg8::A);
    cpu.memory.write(a16, value);
    plain(Instruction::Ld { dst: Arg::MemImm(a16), src: Arg::Reg8(Reg8::A) }, 3, 16)
}

pub fn op_ld_memimm_sp(cpu: &mut Cpu, op: u8, a8: u8, a16: u16) -> (r: StepResult)
    requires
        old(cpu).wf(),
        op == 0x08,
    ensures
        performed(old(cpu)@, final(cpu)@, r, decoded(op, a8, a16)),
        final(cpu).wf(),
{
    reveal(decoded);
    reveal(CpuView::loaded);
    proof {
        cpu@.lemma_ld(Arg::MemImm(a16), Arg::Reg16(Reg16::SP));
    }
    let value: u16 = cpu.registers.read(Reg16::SP);
    cpu.memory.write_word(a16, value);
    plain(Instruction::Ld { dst: Arg::MemImm(a16), src: Arg::Reg16(Reg16::SP) }, 3, 20)
}

pub fn op_ld_sp_hl(cpu: &mut Cpu, op: u8, a8: u8, a16: u16) -> (r: StepResult)
    requires
        old(cpu).wf(),
        op == 0xF9,
    ensures
        performed(old(cpu)@, final(cpu)@, r, decoded(op, a8, a16)),
        final(cpu).wf(),
{
    reveal(decoded);
    reveal(CpuView::loaded);
    proof {
        cpu@.lemma_ld(Arg::Reg16(Reg16::SP), Arg::Reg16(Reg16::HL));
    }
    let value: u16 = cpu.registers.read(Reg16::HL);
    cpu.registers.write(Reg16::SP, value);
    plain(Instruction::Ld { dst: Arg::Reg16(Reg16::SP), src: Arg::Reg16(Reg16::HL) }, 1, 8)
}

pub fn op_ld_hl_sp_imm8(cpu: &mut Cpu, op: u8, a8: u8, a16: u16) -> (r: StepResult)
    requires
        old(cpu).wf(),
        op == 0xF8,
    ensures
        performed(old(cpu)@, final(cpu)@, r, decoded(op, a8, a16)),
        final(cpu).wf(),
{
    reveal(decoded);
    reveal(CpuView::sp_moved);
    proof {
        cpu@.lemma_ld_hl_sp(signed(a8));
    }
    let offset = signed_byte(a8);
    let addend = extend_offset(offset);
    let sp: u16 = cpu.registers.read(Reg16::SP);
    let half_carry = sp % 16 + addend % 16 > 15;
    let carry = sp % 256 + addend % 256 > 255;
    cpu.registers.write(Reg16::HL, sp.wrapping_add(addend));
    cpu.registers.set_flags(false, false, half_carry, carry);
    plain(Instruction::LdHlSpImm8i { offset }, 2, 12)
}

pub fn op_add_sp_imm8(cpu: &mut Cpu, op: u8, a8: u8, a16: u16) -> (r: StepResult)
    requires
        old(cpu).wf(),
        op == 0xE8,
    ensures
        performed(old(cpu)@, final(cpu)@, r, decoded(op, a8, a16)),
        final(cpu).wf(),
{
    reveal(decoded);
    reveal(CpuView::sp_moved);
    proof {
        cpu@.lemma_add_sp(signed(a8));
    }
    let offset = signed_byte(a8);
    let addend = extend_offset(offset);
    let sp: u16 = cpu.registers.read(Reg16::SP);
    let half_carry = sp % 16 + addend % 16 > 15;
    let carry = sp % 256 + addend % 256 > 255;
    cpu.registers.write(Reg16::SP, sp.wrapping_add(addend));
    cpu.registers.set_flags(false, false, half_carry, carry);
    plain(Instruction::AddSpImm8i { offset }, 2, 16)
}

pub fn op_add_hl_r16(cpu: &mut Cpu, op: u8, a8: u8, a16: u16) -> (r: StepResult)
    requires
        old(cpu).wf(),
        op == 0x09 || op == 0x19 || op == 0x29 || op == 0x39,
    ensures
        performed(old(cpu)@, final(cpu)@, r, decoded(op, a8, a16)),
        final(cpu).wf(),
{
    reveal(decoded);
    proof {
        cpu@.lemma_add_hl(pair_at(op));
    }
    let src = pair(op);
    cpu.add_hl(src);
    plain(Instruction::AddHlReg16 { src }, 1, 8)
}

pub fn op_inc_r8(cpu: &mut Cpu, op: u8, a8: u8, a16: u16) -> (r: StepResult)
    requires
        old(cpu).wf(),
        op < 0x40,
        op % 8 == 4,
    ensures
        performed(old(cpu)@, final(cpu)@, r, decoded(op, a8, a16)),
        final(cpu).wf(),
{
    proof {
        lemma_increment(op, a8, a16);
        cpu@.lemma_inc(operand_at(op / 8));
    }
    let dst = operand(op / 8);
    let cycles: u8 = if dst == Arg::MemHl { 12 } else { 4 };
    cpu.inc(dst);
    plain(Instruction::Inc { dst }, 1, cycles)
}

pub fn op_dec_r8(cpu: &mut Cpu, op: u8, a8: u8, a16: u16) -> (r: StepResult)
    requires
        old(cpu).wf(),
        op < 0x40,
        op % 8 == 5,
    ensures
        performed(old(cpu)@, final(cpu)@, r, decoded(op, a8, a16)),
        final(cpu).wf(),
{
    proof {
        lemma_decrement(op, a8, a16);
        cpu@.lemma_dec(operand_at(op / 8));
    }
    let dst = operand(op / 8);
    let cycles: u8 = if dst == Arg::MemHl { 12 } else { 4 };
    cpu.dec(dst);
    plain(Instruction::Dec { dst }, 1, cycles)
}

pub fn op_inc_r16(cpu: &mut Cpu, op: u8, a8: u8, a16: u16) -> (r: StepResult)
    requires
        old(cpu).wf(),
        op < 0x40,
        op % 16 == 3,
    ensures
        performed(old(cpu)@, final(cpu)@, r, decoded(op, a8, a16)),
        final(cpu).wf(),
{
    proof {
        lemma_increment_pair(op, a8, a16);
        cpu@.lemma_inc(Arg::Reg16(pair_at(op)));
    }
    let reg = pair(op);
    cpu.inc(Arg::Reg16(reg));
    plain(Instruction::Inc { dst: Arg::Reg16(reg) }, 1, 8)
}

pub fn op_dec_r16(cpu: &mut Cpu, op: u8, a8: u8, a16: u16) -> (r: StepResult)
    requires
        old(cpu).wf(),
        op < 0x40,
        op % 16 == 11,
    ensures
        performed(old(cpu)@, final(cpu)@, r, decoded(op, a8, a16)),
        final(cpu).wf(),
{
    proof {
        lemma_decrement_pair(op, a8, a16);
        cpu@.lemma_dec(Arg::Reg16(pair_at(op)));
    }
    let reg = pair(op);
    cpu.dec(Arg::Reg16(reg));
    plain(Instruction::Dec { dst: Arg::Reg16(reg) }, 1, 8)
}

/// Performs the arithmetic or logical instruction that three bits of an opcode name.
fn compute(cpu: &mut Cpu, index: u8, src: Arg) -> (r: Instruction)
    requires
        old(cpu).wf(),
        index < 8,
        is_source(src),
    ensures
        r == alu_at(index, src),
        final(cpu)@ == old(cpu)@.effect(r),
        old(cpu)@.report(r) == (StepResult {
            inst: r,
            size: alu_size(src),
            cycles: Cycles(alu_cycles(src), alu_cycles(src)),
            jump: false,
            taken: false,
        }),
        final(cpu).wf(),
{
    reveal(alu_at);
    match index {
        0 => {
            proof {
                cpu@.lemma_add(src);
            }
            cpu.add(src);
            Instruction::Add { src }
        },
        1 => {
            proof {
                cpu@.lemma_adc(src);
            }
            cpu.adc(src);
            Instruction::Adc { src }
        },
        2 => {
            proof {
                cpu@.lemma_sub(src);
            }
            cpu.sub(src, true);
            Instruction::Sub { src }
        },
        3 => {
            proof {
                cpu@.lemma_sbc(src);
            }
            cpu.sbc(src);
            Instruction::Sbc { src }
        },
        4 => {
            proof {
                cpu@.lemma_and(src);
            }
            cpu.logical(src, LogicalOp::And);
            Instruction::And { src }
        },
        5 => {
            proof {
                cpu@.lemma_xor(src);
            }
            cpu.logical(src, LogicalOp::Xor);
            Instruction::Xor { src }
        },
        6 => {
            proof {
                cpu@.lemma_or(src);
            }
            cpu.logical(src, LogicalOp::Or);
            Instruction::Or { src }
        },
        _ => {
            proof {
                cpu@.lemma_cp(src);
            }
            cpu.sub(src, false);
            Instruction::Cp { src }
        },
    }
}

pub fn op_alu_r8(cpu: &mut Cpu, op: u8, a8: u8, a16: u16) -> (r: StepResult)
    requires
        old(cpu).wf(),
        0x80 <= op < 0xC0,
    ensures
        performed(old(cpu)@, final(cpu)@, r, decoded(op, a8, a16)),
        final(cpu).wf(),
{
    proof {
        lemma_arithmetic(op, a8, a16);
    }
    let src = operand(op % 8);
    let cycles: u8 = if src == Arg::MemHl { 8 } else { 4 };
    let inst = compute(cpu, (op - 0x80) / 8, src);
    plain(inst, 1, cycles)
}

pub fn op_alu_imm(cpu: &mut Cpu, op: u8, a8: u8, a16: u16) -> (r: StepResult)
    requires
        old(cpu).wf(),
        op >= 0xC0,
        op % 8 == 6,
    ensures
        performed(old(cpu)@, final(cpu)@, r, decoded(op, a8, a16)),
        final(cpu).wf(),
{
    proof {
        lemma_arithmetic_immediate(op, a8, a16);
    }
    let inst = compute(cpu, (op - 0xC0) / 8, Arg::Imm8(a8));
    plain(inst, 2, 8)
}

pub fn op_push(cpu: &mut Cpu, op: u8, a8: u8, a16: u16) -> (r: StepResult)
    requires
        old(cpu).wf(),
        op >= 0xC0,
        op % 16 == 5,
    ensures
        performed(old(cpu)@, final(cpu)@, r, decoded(op, a8, a16)),
        final(cpu).wf(),
{
    reveal(CpuView::pair_pushed);
    proof {
        lemma_push(op, a8, a16);
        cpu@.lemma_push(stack_pair_at(op));
    }
    let reg = stack_pair(op);
    let value: u16 = cpu.registers.read(reg);
    cpu.push(value);
    plain(Instruction::Push { src: reg }, 1, 16)
}

pub fn op_pop(cpu: &mut Cpu, op: u8, a8: u8, a16: u16) -> (r: StepResult)
    requires
        old(cpu).wf(),
        op >= 0xC0,
        op % 16 == 1,
    ensures
        performed(old(cpu)@, final(cpu)@, r, decoded(op, a8, a16)),
        final(cpu).wf(),
{
    reveal(CpuView::pair_popped);
    proof {
        lemma_pop(op, a8, a16);
        cpu@.lemma_pop(stack_pair_at(op));
    }
    let reg = stack_pair(op);
    let value = cpu.pop();
    cpu.registers.write(reg, value);
    plain(Instruction::Pop { dst: reg }, 1, 12)
}

pub fn op_rlca(cpu: &mut Cpu, op: u8, a8: u8, a16: u16) -> (r: StepResult)
    requires
        old(cpu).wf(),
        op == 0x07,
    ensures
        performed(old(cpu)@, final(cpu)@, r, decoded(op, a8, a16)),
        final(cpu).wf(),
{
    reveal(decoded);
    proof {
        cpu@.lemma_rlca();
    }
    cpu.rotate(Arg::Reg8(Reg8::A), true, false, true);
    plain(Instruction::Rlca, 1, 4)
}

pub fn op_rla(cpu: &mut Cpu, op: u8, a8: u8, a16: u16) -> (r: StepResult)
    requires
        old(cpu).wf(),
        op == 0x17,
    ensures
        performed(old(cpu)@, final(cpu)@, r, decoded(op, a8, a16)),
        final(cpu).wf(),
{
    reveal(decoded);
    proof {
        cpu@.lemma_rla();
    }
    cpu.rotate(Arg::Reg8(Reg8::A), true, true, true);
    plain(Instruction::Rla, 1, 4)
}

pub fn op_rrca(cpu: &mut Cpu, op: u8, a8: u8, a16: u16) -> (r: StepResult)
    requires
        old(cpu).wf(),
        op == 0x0F,
    ensures
        performed(old(cpu)@, final(cpu)@, r, decoded(op, a8, a16)),
        final(cpu).wf(),
{
    reveal(decoded);
    proof {
        cpu@.lemma_rrca();
    }
    cpu.rotate(Arg::Reg8(Reg8::A), false, false, true);
    plain(Instruction::Rrca, 1, 4)
}

pub fn op_rra(cpu: &mut Cpu, op: u8, a8: u8, a16: u16) -> (r: StepResult)
    requires
        old(cpu).wf(),
        op == 0x1F,
    ensures
        performed(old(cpu)@, final(cpu)@, r, decoded(op, a8, a16)),
        final(cpu).wf(),
{
    reveal(decoded);
    proof {
        cpu@.lemma_rra();
    }
    cpu.rotate(Arg::Reg8(Reg8::A), false, true, true);
    plain(Instruction::Rra, 1, 4)
}

pub fn op_jr(cpu: &mut Cpu, op: u8, a8: u8, a16: u16) -> (r: StepResult)
    requires
        old(cpu).wf(),
        op == 0x18 || op == 0x20 || op == 0x28 || op == 0x30 || op == 0x38,
    ensures
        performed(old(cpu)@, final(cpu)@, r, decoded(op, a8, a16)),
        final(cpu).wf(),
{
    reveal(decoded);
    proof {
        cpu@.lemma_jr(signed(a8), if op == 0x18 { Cond::Always } else { cond_at(op) });
    }
    let cond = if op == 0x18 { Cond::Always } else { condition(op) };
    let offset = signed_byte(a8);
    let taken = cond_matches(cpu, cond);
    if taken {
        cpu.registers.PC = cpu.registers.PC.wrapping_add(2).wrapping_add(extend_offset(offset));
    }
    StepResult {
        inst: Instruction::Jr { offset, cond },
        size: 2,
        cycles: Cycles(if taken { 12 } else { 8 }, 8),
        jump: true,
        taken,
    }
}

pub fn op_jp(cpu: &mut Cpu, op: u8, a8: u8, a16: u16) -> (r: StepResult)
    requires
        old(cpu).wf(),
        op == 0xC3 || op == 0xC2 || op == 0xCA || op == 0xD2 || op == 0xDA,
    ensures
        performed(old(cpu)@, final(cpu)@, r, decoded(op, a8, a16)),
        final(cpu).wf(),
{
    reveal(decoded);
    proof {
        cpu@.lemma_jp(a16, if op == 0xC3 { Cond::Always } else { cond_at(op) });
    }
    let cond = if op == 0xC3 { Cond::Always } else { condition(op) };
    let taken = cond_matches(cpu, cond);
    if taken {
        cpu.registers.PC = a16;
    }
    StepResult {
        inst: Instruction::Jp { addr: a16, cond },
        size: 3,
        cycles: Cycles(16, 12),
        jump: true,
        taken,
    }
}

pub fn op_call(cpu: &mut Cpu, op: u8, a8: u8, a16: u16) -> (r: StepResult)
    requires
        old(cpu).wf(),
        op == 0xCD || op == 0xC4 || op == 0xCC || op == 0xD4 || op == 0xDC,
    ensures
        performed(old(cpu)@, final(cpu)@, r, decoded(op, a8, a16)),
        final(cpu).wf(),
{
    reveal(decoded);
    proof {
        cpu@.lemma_call(a16, if op == 0xCD { Cond::Always } else { cond_at(op) });
    }
    let cond = if op == 0xCD { Cond::Always } else { condition(op) };
    let taken = cond_matches(cpu, cond);
    if taken {
        let next = cpu.registers.PC.wrapping_add(3);
        cpu.push(next);
        cpu.registers.PC = a16;
    }
    StepResult {
        inst: Instruction::Call { addr: a16, cond },
        size: 3,
        cycles: Cycles(24, 12),
        jump: true,
        taken,
    }
}

pub fn op_ret(cpu: &mut Cpu, op: u8, a8: u8, a16: u16) -> (r: StepResult)
    requires
        old(cpu).wf(),
        op == 0xC9 || op == 0xC0 || op == 0xC8 || op == 0xD0 || op == 0xD8,
    ensures
        performed(old(cpu)@, final(cpu)@, r, decoded(op, a8, a16)),
        final(cpu).wf(),
{
    reveal(decoded);
    proof {
        cpu@.lemma_ret(if op == 0xC9 { Cond::Always } else { cond_at(op) });
    }
    let cond = if op == 0xC9 { Cond::Always } else { condition(op) };
    let taken = cond_matches(cpu, cond);
    if taken {
        cpu.registers.PC = cpu.pop();
    }
    StepResult {
        inst: Instruction::Ret { cond },
        size: 1,
        cycles: Cycles(20, 8),
        jump: true,
        taken,
    }
}

pub fn op_rst(cpu: &mut Cpu, op: u8, a8: u8, a16: u16) -> (r: StepResult)
    requires
        old(cpu).wf(),
        op >= 0xC0,
        op % 8 == 7,
    ensures
        performed(old(cpu)@, final(cpu)@, r, decoded(op, a8, a16)),
        final(cpu).wf(),
{
    proof {
        lemma_restart(op, a8, a16);
        cpu@.lemma_rst((op - 0xC7) as u8);
    }
    let offset: u8 = op - 0xC7;
    let next = cpu.registers.PC.wrapping_add(1);
    cpu.push(next);
    cpu.registers.PC = offset as u16;
    StepResult {
        inst: Instruction::Rst { offset },
        size: 1,
        cycles: Cycles::from(16),
        jump: true,
        taken: true,
    }
}

/// The condition holds.
fn cond_matches(cpu: &Cpu, cond: Cond) -> (r: bool)
    ensures
        r == cpu@.holds(cond),
{
    match cond {
        Cond::Always => true,
        Cond::NotZero => !cpu.registers.zero(),
        Cond::Zero => cpu.registers.zero(),
        Cond::NotCarry => !cpu.registers.carry(),
        Cond::Carry => cpu.registers.carry(),
    }
}

pub fn cb_rlc(cpu: &mut Cpu, op: u8) -> (r: StepResult)
    requires
        old(cpu).wf(),
        op / 8 == 0,
    ensures
        performed(old(cpu)@, final(cpu)@, r, prefix_decoded(op)),
        final(cpu).wf(),
{
    proof {
        lemma_prefixed(op);
        cpu@.lemma_rlc(operand_at(op % 8));
    }
    let dst = operand(op % 8);
    cpu.rotate(dst, true, false, false);
    plain(Instruction::Rlc { dst }, 2, change_cycles(dst))
}

pub fn cb_rrc(cpu: &mut Cpu, op: u8) -> (r: StepResult)
    requires
        old(cpu).wf(),
        op / 8 == 1,
    ensures
        performed(old(cpu)@, final(cpu)@, r, prefix_decoded(op)),
        final(cpu).wf(),
{
    proof {
        lemma_prefixed(op);
        cpu@.lemma_rrc(operand_at(op % 8));
    }
    let dst = operand(op % 8);
    cpu.rotate(dst, false, false, false);
    plain(Instruction::Rrc { dst }, 2, change_cycles(dst))
}

pub fn cb_rl(cpu: &mut Cpu, op: u8) -> (r: StepResult)
    requires
        old(cpu).wf(),
        op / 8 == 2,
    ensures
        performed(old(cpu)@, final(cpu)@, r, prefix_decoded(op)),
        final(cpu).wf(),
{
    proof {
        lemma_prefixed(op);
        cpu@.lemma_rl(operand_at(op % 8));
    }
    let dst = operand(op % 8);
    cpu.rotate(dst, true, true, false);
    plain(Instruction::Rl { dst }, 2, change_cycles(dst))
}

pub fn cb_rr(cpu: &mut Cpu, op: u8) -> (r: StepResult)
    requires
        old(cpu).wf(),
        op / 8 == 3,
    ensures
        performed(old(cpu)@, final(cpu)@, r, prefix_decoded(op)),
        final(cpu).wf(),
{
    proof {
        lemma_prefixed(op);
        cpu@.lemma_rr(operand_at(op % 8));
    }
    let dst = operand(op % 8);
    cpu.rotate(dst, false, true, false);
    plain(Instruction::Rr { dst }, 2, change_cycles(dst))
}

pub fn cb_sla(cpu: &mut Cpu, op: u8) -> (r: StepResult)
    requires
        old(cpu).wf(),
        op / 8 == 4,
    ensures
        performed(old(cpu)@, final(cpu)@, r, prefix_decoded(op)),
        final(cpu).wf(),
{
    proof {
        lemma_prefixed(op);
        cpu@.lemma_sla(operand_at(op % 8));
    }
    let dst = operand(op % 8);
    cpu.shift(dst, true, false);
    plain(Instruction::Sla { dst }, 2, change_cycles(dst))
}

pub fn cb_sra(cpu: &mut Cpu, op: u8) -> (r: StepResult)
    requires
        old(cpu).wf(),
        op / 8 == 5,
    ensures
        performed(old(cpu)@, final(cpu)@, r, prefix_decoded(op)),
        final(cpu).wf(),
{
    proof {
        lemma_prefixed(op);
        cpu@.lemma_sra(operand_at(op % 8));
    }
    let dst = operand(op % 8);
    cpu.shift(dst, false, true);
    plain(Instruction::Sra { dst }, 2, change_cycles(dst))
}

pub fn cb_srl(cpu: &mut Cpu, op: u8) -> (r: StepResult)
    requires
        old(cpu).wf(),
        op / 8 == 7,
    ensures
        performed(old(cpu)@, final(cpu)@, r, prefix_decoded(op)),
        final(cpu).wf(),
{
    proof {
        lemma_prefixed(op);
        cpu@.lemma_srl(operand_at(op % 8));
    }
    let dst = operand(op % 8);
    cpu.shift(dst, false, false);
    plain(Instruction::Srl { dst }, 2, change_cycles(dst))
}

pub fn cb_swap(cpu: &mut Cpu, op: u8) -> (r: StepResult)
    requires
        old(cpu).wf(),
        op / 8 == 6,
    ensures
        performed(old(cpu)@, final(cpu)@, r, prefix_decoded(op)),
        final(cpu).wf(),
{
    reveal(CpuView::swapped_in);
    proof {
        lemma_prefixed(op);
        cpu@.lemma_swap(operand_at(op % 8));
    }
    let dst = operand(op % 8);
    let r = swap_byte(cpu.read_operand(dst));
    cpu.write_operand(dst, r.value);
    cpu.set_flags(r);
    plain(Instruction::Swap { dst }, 2, change_cycles(dst))
}

pub fn cb_bit(cpu: &mut Cpu, op: u8) -> (r: StepResult)
    requires
        old(cpu).wf(),
        8 <= op / 8 < 16,
    ensures
        performed(old(cpu)@, final(cpu)@, r, prefix_decoded(op)),
        final(cpu).wf(),
{
    reveal(CpuView::bit_tested);
    proof {
        lemma_prefixed(op);
        cpu@.lemma_bit(operand_at(op % 8), (op / 8) % 8);
    }
    let dst = operand(op % 8);
    let bit: u8 = (op / 8) % 8;
    let value = cpu.read_operand(dst);
    let carry = cpu.registers.carry();
    cpu.registers.set_flags(value & (1u8 << bit) == 0, false, true, carry);
    plain(Instruction::Bit { dst, bit }, 2, if dst == Arg::MemHl { 12 } else { 8 })
}

pub fn cb_res(cpu: &mut Cpu, op: u8) -> (r: StepResult)
    requires
        old(cpu).wf(),
        16 <= op / 8 < 24,
    ensures
        performed(old(cpu)@, final(cpu)@, r, prefix_decoded(op)),
        final(cpu).wf(),
{
    proof {
        lemma_prefixed(op);
        cpu@.lemma_res(operand_at(op % 8), (op / 8) % 8);
    }
    let dst = operand(op % 8);
    let bit: u8 = (op / 8) % 8;
    cpu.set(dst, bit, true);
    plain(Instruction::Res { dst, bit }, 2, change_cycles(dst))
}

pub fn cb_set(cpu: &mut Cpu, op: u8) -> (r: StepResult)
    requires
        old(cpu).wf(),
        24 <= op / 8,
    ensures
        performed(old(cpu)@, final(cpu)@, r, prefix_decoded(op)),
        final(cpu).wf(),
{
    proof {
        lemma_prefixed(op);
        cpu@.lemma_set_bit(operand_at(op % 8), (op / 8) % 8);
    }
    let dst = operand(op % 8);
    let bit: u8 = (op / 8) % 8;
    cpu.set(dst, bit, false);
    plain(Instruction::SetBit { dst, bit }, 2, change_cycles(dst))
}

/// Cycles of an instruction behind the prefix that changes its operand.
fn change_cycles(dst: Arg) -> (r: u8)
    ensures
        r == crate::instructions::prefix_cycles(dst),
{
    if dst == Arg::MemHl {
        16
    } else {
        8
    }
}

} // verus!
