//! What each instruction does, one at a time.
use vstd::prelude::*;

use crate::cpu::alu::{difference, extended, logical_of, sum, LogicalOp};
use crate::cpu::{CpuView, StepResult};
use crate::instructions::{
    alu_cycles, alu_size, count_cycles, load_cycles, load_size, prefix_cycles, Arg, Cond, Cycles,
    Instruction,
};
use crate::registers::{Flag, Reg16, Reg8};

verus! {

impl CpuView {
    pub proof fn lemma_nop(self)
        ensures
            self.effect(Instruction::Nop) == self,
            self.report(Instruction::Nop) == (StepResult {
                inst: Instruction::Nop,
                size: 1,
                cycles: Cycles(4, 4),
                jump: false,
                taken: false,
            }),
    {
        reveal(CpuView::report);
        reveal(CpuView::effect);
        reveal(CpuView::controlled);
    }

    pub proof fn lemma_halt(self)
        ensures
            self.effect(Instruction::Halt) == (CpuView { halted: true, ..self }),
            self.report(Instruction::Halt) == (StepResult {
                inst: Instruction::Halt,
                size: 1,
                cycles: Cycles(4, 4),
                jump: false,
                taken: false,
            }),
    {
        reveal(CpuView::report);
        reveal(CpuView::effect);
        reveal(CpuView::controlled);
    }

    pub proof fn lemma_stop(self)
        ensures
            self.effect(Instruction::Stop) == self.stop_done(),
            self.report(Instruction::Stop) == (StepResult {
                inst: Instruction::Stop,
                size: 2,
                cycles: Cycles(4, 4),
                jump: false,
                taken: false,
            }),
    {
        reveal(CpuView::report);
        reveal(CpuView::effect);
        reveal(CpuView::controlled);
    }

    pub proof fn lemma_di(self)
        ensures
            self.effect(Instruction::Di) == (CpuView { ime: false, ..self }),
            self.report(Instruction::Di) == (StepResult {
                inst: Instruction::Di,
                size: 1,
                cycles: Cycles(4, 4),
                jump: false,
                taken: false,
            }),
    {
        reveal(CpuView::report);
        reveal(CpuView::effect);
        reveal(CpuView::controlled);
    }

    pub proof fn lemma_ei(self)
        ensures
            self.effect(Instruction::Ei) == (CpuView { ime: true, ..self }),
            self.report(Instruction::Ei) == (StepResult {
                inst: Instruction::Ei,
                size: 1,
                cycles: Cycles(4, 4),
                jump: false,
                taken: false,
            }),
    {
        reveal(CpuView::report);
        reveal(CpuView::effect);
        reveal(CpuView::controlled);
    }

    pub proof fn lemma_daa(self)
        ensures
            self.effect(Instruction::Daa) == self.decimal_adjusted(),
            self.report(Instruction::Daa) == (StepResult {
                inst: Instruction::Daa,
                size: 1,
                cycles: Cycles(4, 4),
                jump: false,
                taken: false,
            }),
    {
        reveal(CpuView::report);
        reveal(CpuView::effect);
        reveal(CpuView::controlled);
    }

    pub proof fn lemma_cpl(self)
        ensures
            self.effect(Instruction::Cpl) == self.complemented(),
            self.report(Instruction::Cpl) == (StepResult {
                inst: Instruction::Cpl,
                size: 1,
                cycles: Cycles(4, 4),
                jump: false,
                taken: false,
            }),
    {
        reveal(CpuView::report);
        reveal(CpuView::effect);
        reveal(CpuView::controlled);
    }

    pub proof fn lemma_ccf(self)
        ensures
            self.effect(Instruction::Ccf) == self.carry_put(!self.registers.flag(Flag::Carry)),
            self.report(Instruction::Ccf) == (StepResult {
                inst: Instruction::Ccf,
                size: 1,
                cycles: Cycles(4, 4),
                jump: false,
                taken: false,
            }),
    {
        reveal(CpuView::report);
        reveal(CpuView::effect);
        reveal(CpuView::controlled);
    }

    pub proof fn lemma_scf(self)
        ensures
            self.effect(Instruction::Scf) == self.carry_put(true),
            self.report(Instruction::Scf) == (StepResult {
                inst: Instruction::Scf,
                size: 1,
                cycles: Cycles(4, 4),
                jump: false,
                taken: false,
            }),
    {
        reveal(CpuView::report);
        reveal(CpuView::effect);
        reveal(CpuView::controlled);
    }

    pub proof fn lemma_rlca(self)
        ensures
            self.effect(Instruction::Rlca) == self.rotated_in(Arg::Reg8(Reg8::A), true, false, true),
            self.report(Instruction::Rlca) == (StepResult {
                inst: Instruction::Rlca,
                size: 1,
                cycles: Cycles(4, 4),
                jump: false,
                taken: false,
            }),
    {
        reveal(CpuView::report);
        reveal(CpuView::effect);
        reveal(CpuView::controlled);
    }

    pub proof fn lemma_rla(self)
        ensures
            self.effect(Instruction::Rla) == self.rotated_in(Arg::Reg8(Reg8::A), true, true, true),
            self.report(Instruction::Rla) == (StepResult {
                inst: Instruction::Rla,
                size: 1,
                cycles: Cycles(4, 4),
                jump: false,
                taken: false,
            }),
    {
        reveal(CpuView::report);
        reveal(CpuView::effect);
        reveal(CpuView::controlled);
    }

    pub proof fn lemma_rrca(self)
        ensures
            self.effect(Instruction::Rrca) == self.rotated_in(Arg::Reg8(Reg8::A), false, false, true),
            self.report(Instruction::Rrca) == (StepResult {
                inst: Instruction::Rrca,
                size: 1,
                cycles: Cycles(4, 4),
                jump: false,
                taken: false,
            }),
    {
        reveal(CpuView::report);
        reveal(CpuView::effect);
        reveal(CpuView::controlled);
    }

    pub proof fn lemma_rra(self)
        ensures
            self.effect(Instruction::Rra) == self.rotated_in(Arg::Reg8(Reg8::A), false, true, true),
            self.report(Instruction::Rra) == (StepResult {
                inst: Instruction::Rra,
                size: 1,
                cycles: Cycles(4, 4),
                jump: false,
                taken: false,
            }),
    {
        reveal(CpuView::report);
        reveal(CpuView::effect);
        reveal(CpuView::controlled);
    }

    pub proof fn lemma_ld_mem_c_a(self)
        ensures
            self.effect(Instruction::LdMemCA) == self.port_stored(self.registers.r8(Reg8::C)),
            self.report(Instruction::LdMemCA) == (StepResult {
                inst: Instruction::LdMemCA,
                size: 1,
                cycles: Cycles(8, 8),
                jump: false,
                taken: false,
            }),
    {
        reveal(CpuView::report);
        reveal(CpuView::effect);
        reveal(CpuView::moved);
    }

    pub proof fn lemma_ld_a_mem_c(self)
        ensures
            self.effect(Instruction::LdAMemC) == self.port_loaded(self.registers.r8(Reg8::C)),
            self.report(Instruction::LdAMemC) == (StepResult {
                inst: Instruction::LdAMemC,
                size: 1,
                cycles: Cycles(8, 8),
                jump: false,
                taken: false,
            }),
    {
        reveal(CpuView::report);
        reveal(CpuView::effect);
        reveal(CpuView::moved);
    }

    pub proof fn lemma_ldi_a(self)
        ensures
            self.effect(Instruction::LdiAMemHl) == self.hl_loaded(true, self.hl().wrapping_add(1)),
            self.report(Instruction::LdiAMemHl) == (StepResult {
                inst: Instruction::LdiAMemHl,
                size: 1,
                cycles: Cycles(8, 8),
                jump: false,
                taken: false,
            }),
    {
        reveal(CpuView::report);
        reveal(CpuView::effect);
        reveal(CpuView::moved);
    }

    pub proof fn lemma_ldi_mem(self)
        ensures
            self.effect(Instruction::LdiMemHlA) == self.hl_loaded(false, self.hl().wrapping_add(1)),
            self.report(Instruction::LdiMemHlA) == (StepResult {
                inst: Instruction::LdiMemHlA,
                size: 1,
                cycles: Cycles(8, 8),
                jump: false,
                taken: false,
            }),
    {
        reveal(CpuView::report);
        reveal(CpuView::effect);
        reveal(CpuView::moved);
    }

    pub proof fn lemma_ldd_a(self)
        ensures
            self.effect(Instruction::LddAMemHl) == self.hl_loaded(true, self.hl().wrapping_sub(1)),
            self.report(Instruction::LddAMemHl) == (StepResult {
                inst: Instruction::LddAMemHl,
                size: 1,
                cycles: Cycles(8, 8),
                jump: false,
                taken: false,
            }),
    {
        reveal(CpuView::report);
        reveal(CpuView::effect);
        reveal(CpuView::moved);
    }

    pub proof fn lemma_ldd_mem(self)
        ensures
            self.effect(Instruction::LddMemHlA) == self.hl_loaded(false, self.hl().wrapping_sub(1)),
            self.report(Instruction::LddMemHlA) == (StepResult {
                inst: Instruction::LddMemHlA,
                size: 1,
                cycles: Cycles(8, 8),
                jump: false,
                taken: false,
            }),
    {
        reveal(CpuView::report);
        reveal(CpuView::effect);
        reveal(CpuView::moved);
    }

    pub proof fn lemma_ldh_a(self, offset: u8)
        ensures
            self.effect(Instruction::LdhA { offset }) == self.port_loaded(offset),
            self.report(Instruction::LdhA { offset }) == (StepResult {
                inst: Instruction::LdhA { offset },
                size: 2,
                cycles: Cycles(12, 12),
                jump: false,
                taken: false,
            }),
    {
        reveal(CpuView::report);
        reveal(CpuView::effect);
        reveal(CpuView::moved);
    }

    pub proof fn lemma_ldh(self, offset: u8)
        ensures
            self.effect(Instruction::Ldh { offset }) == self.port_stored(offset),
            self.report(Instruction::Ldh { offset }) == (StepResult {
                inst: Instruction::Ldh { offset },
                size: 2,
                cycles: Cycles(12, 12),
                jump: false,
                taken: false,
            }),
    {
        reveal(CpuView::report);
        reveal(CpuView::effect);
        reveal(CpuView::moved);
    }

    pub proof fn lemma_ld(self, dst: Arg, src: Arg)
        ensures
            self.effect(Instruction::Ld { dst, src }) == self.loaded(dst, src),
            self.report(Instruction::Ld { dst, src }) == (StepResult {
                inst: Instruction::Ld { dst, src },
                size: load_size(dst, src),
                cycles: Cycles(load_cycles(dst, src), load_cycles(dst, src)),
                jump: false,
                taken: false,
            }),
    {
        reveal(CpuView::report);
        reveal(CpuView::effect);
        reveal(CpuView::moved);
    }

    pub proof fn lemma_ld_hl_sp(self, offset: i8)
        ensures
            self.effect(Instruction::LdHlSpImm8i { offset }) == self.sp_moved(Reg16::HL, offset),
            self.report(Instruction::LdHlSpImm8i { offset }) == (StepResult {
                inst: Instruction::LdHlSpImm8i { offset },
                size: 2,
                cycles: Cycles(12, 12),
                jump: false,
                taken: false,
            }),
    {
        reveal(CpuView::report);
        reveal(CpuView::effect);
        reveal(CpuView::moved);
    }

    pub proof fn lemma_push(self, src: Reg16)
        ensures
            self.effect(Instruction::Push { src }) == self.pair_pushed(src),
            self.report(Instruction::Push { src }) == (StepResult {
                inst: Instruction::Push { src },
                size: 1,
                cycles: Cycles(16, 16),
                jump: false,
                taken: false,
            }),
    {
        reveal(CpuView::report);
        reveal(CpuView::effect);
        reveal(CpuView::moved);
    }

    pub proof fn lemma_pop(self, dst: Reg16)
        ensures
            self.effect(Instruction::Pop { dst }) == self.pair_popped(dst),
            self.report(Instruction::Pop { dst }) == (StepResult {
                inst: Instruction::Pop { dst },
                size: 1,
                cycles: Cycles(12, 12),
                jump: false,
                taken: false,
            }),
    {
        reveal(CpuView::report);
        reveal(CpuView::effect);
        reveal(CpuView::moved);
    }

    pub proof fn lemma_add_sp(self, offset: i8)
        ensures
            self.effect(Instruction::AddSpImm8i { offset }) == self.sp_moved(Reg16::SP, offset),
            self.report(Instruction::AddSpImm8i { offset }) == (StepResult {
                inst: Instruction::AddSpImm8i { offset },
                size: 2,
                cycles: Cycles(16, 16),
                jump: false,
                taken: false,
            }),
    {
        reveal(CpuView::report);
        reveal(CpuView::effect);
        reveal(CpuView::computed);
    }

    pub proof fn lemma_add_hl(self, src: Reg16)
        ensures
            self.effect(Instruction::AddHlReg16 { src }) == self.hl_added(src),
            self.report(Instruction::AddHlReg16 { src }) == (StepResult {
                inst: Instruction::AddHlReg16 { src },
                size: 1,
                cycles: Cycles(8, 8),
                jump: false,
                taken: false,
            }),
    {
        reveal(CpuView::report);
        reveal(CpuView::effect);
        reveal(CpuView::computed);
    }

    pub proof fn lemma_inc(self, dst: Arg)
        ensures
            self.effect(Instruction::Inc { dst }) == self.incremented(dst),
            self.report(Instruction::Inc { dst }) == (StepResult {
                inst: Instruction::Inc { dst },
                size: 1,
                cycles: Cycles(count_cycles(dst), count_cycles(dst)),
                jump: false,
                taken: false,
            }),
    {
        reveal(CpuView::report);
        reveal(CpuView::effect);
        reveal(CpuView::computed);
    }

    pub proof fn lemma_dec(self, dst: Arg)
        ensures
            self.effect(Instruction::Dec { dst }) == self.decremented(dst),
            self.report(Instruction::Dec { dst }) == (StepResult {
                inst: Instruction::Dec { dst },
                size: 1,
                cycles: Cycles(count_cycles(dst), count_cycles(dst)),
                jump: false,
                taken: false,
            }),
    {
        reveal(CpuView::report);
        reveal(CpuView::effect);
        reveal(CpuView::computed);
    }

    pub proof fn lemma_add(self, src: Arg)
        ensures
            self.effect(Instruction::Add { src }) == self.accumulated(
                sum(self.registers.r8(Reg8::A), self.operand(src), false),
            ),
            self.report(Instruction::Add { src }) == (StepResult {
                inst: Instruction::Add { src },
                size: alu_size(src),
                cycles: Cycles(alu_cycles(src), alu_cycles(src)),
                jump: false,
                taken: false,
            }),
    {
        reveal(CpuView::report);
        reveal(CpuView::effect);
        reveal(CpuView::computed);
        reveal(CpuView::accumulator_done);
    }

    pub proof fn lemma_adc(self, src: Arg)
        ensures
            self.effect(Instruction::Adc { src }) == self.accumulated(
                sum(
                    self.registers.r8(Reg8::A),
                    self.operand(src),
                    self.registers.flag(Flag::Carry),
                ),
            ),
            self.report(Instruction::Adc { src }) == (StepResult {
                inst: Instruction::Adc { src },
                size: alu_size(src),
                cycles: Cycles(alu_cycles(src), alu_cycles(src)),
                jump: false,
                taken: false,
            }),
    {
        reveal(CpuView::report);
        reveal(CpuView::effect);
        reveal(CpuView::computed);
        reveal(CpuView::accumulator_done);
    }

    pub proof fn lemma_sub(self, src: Arg)
        ensures
            self.effect(Instruction::Sub { src }) == self.accumulated(
                difference(self.registers.r8(Reg8::A), self.operand(src), false),
            ),
            self.report(Instruction::Sub { src }) == (StepResult {
                inst: Instruction::Sub { src },
                size: alu_size(src),
                cycles: Cycles(alu_cycles(src), alu_cycles(src)),
                jump: false,
                taken: false,
            }),
    {
        reveal(CpuView::report);
        reveal(CpuView::effect);
        reveal(CpuView::computed);
        reveal(CpuView::accumulator_done);
    }

    pub proof fn lemma_sbc(self, src: Arg)
        ensures
            self.effect(Instruction::Sbc { src }) == self.accumulated(
                difference(
                    self.registers.r8(Reg8::A),
                    self.operand(src),
                    self.registers.flag(Flag::Carry),
                ),
            ),
            self.report(Instruction::Sbc { src }) == (StepResult {
                inst: Instruction::Sbc { src },
                size: alu_size(src),
                cycles: Cycles(alu_cycles(src), alu_cycles(src)),
                jump: false,
                taken: false,
            }),
    {
        reveal(CpuView::report);
        reveal(CpuView::effect);
        reveal(CpuView::computed);
        reveal(CpuView::accumulator_done);
    }

    pub proof fn lemma_and(self, src: Arg)
        ensures
            self.effect(Instruction::And { src }) == self.accumulated(
                logical_of(self.registers.r8(Reg8::A), self.operand(src), LogicalOp::And),
            ),
            self.report(Instruction::And { src }) == (StepResult {
                inst: Instruction::And { src },
                size: alu_size(src),
                cycles: Cycles(alu_cycles(src), alu_cycles(src)),
                jump: false,
                taken: false,
            }),
    {
        reveal(CpuView::report);
        reveal(CpuView::effect);
        reveal(CpuView::computed);
        reveal(CpuView::accumulator_done);
    }

    pub proof fn lemma_xor(self, src: Arg)
        ensures
            self.effect(Instruction::Xor { src }) == self.accumulated(
                logical_of(self.registers.r8(Reg8::A), self.operand(src), LogicalOp::Xor),
            ),
            self.report(Instruction::Xor { src }) == (StepResult {
                inst: Instruction::Xor { src },
                size: alu_size(src),
                cycles: Cycles(alu_cycles(src), alu_cycles(src)),
                jump: false,
                taken: false,
            }),
    {
        reveal(CpuView::report);
        reveal(CpuView::effect);
        reveal(CpuView::computed);
        reveal(CpuView::accumulator_done);
    }

    pub proof fn lemma_or(self, src: Arg)
        ensures
            self.effect(Instruction::Or { src }) == self.accumulated(
                logical_of(self.registers.r8(Reg8::A), self.operand(src), LogicalOp::Or),
            ),
            self.report(Instruction::Or { src }) == (StepResult {
                inst: Instruction::Or { src },
                size: alu_size(src),
                cycles: Cycles(alu_cycles(src), alu_cycles(src)),
                jump: false,
                taken: false,
            }),
    {
        reveal(CpuView::report);
        reveal(CpuView::effect);
        reveal(CpuView::computed);
        reveal(CpuView::accumulator_done);
    }

    pub proof fn lemma_cp(self, src: Arg)
        ensures
            self.effect(Instruction::Cp { src }) == self.flagged(
                difference(self.registers.r8(Reg8::A), self.operand(src), false),
            ),
            self.report(Instruction::Cp { src }) == (StepResult {
                inst: Instruction::Cp { src },
                size: alu_size(src),
                cycles: Cycles(alu_cycles(src), alu_cycles(src)),
                jump: false,
                taken: false,
            }),
    {
        reveal(CpuView::report);
        reveal(CpuView::effect);
        reveal(CpuView::computed);
        reveal(CpuView::accumulator_done);
    }

    pub proof fn lemma_rlc(self, dst: Arg)
        ensures
            self.effect(Instruction::Rlc { dst }) == self.rotated_in(dst, true, false, false),
            self.report(Instruction::Rlc { dst }) == (StepResult {
                inst: Instruction::Rlc { dst },
                size: 2,
                cycles: Cycles(prefix_cycles(dst), prefix_cycles(dst)),
                jump: false,
                taken: false,
            }),
    {
        reveal(CpuView::report);
        reveal(CpuView::effect);
        reveal(CpuView::bits_done);
    }

    pub proof fn lemma_rl(self, dst: Arg)
        ensures
            self.effect(Instruction::Rl { dst }) == self.rotated_in(dst, true, true, false),
            self.report(Instruction::Rl { dst }) == (StepResult {
                inst: Instruction::Rl { dst },
                size: 2,
                cycles: Cycles(prefix_cycles(dst), prefix_cycles(dst)),
                jump: false,
                taken: false,
            }),
    {
        reveal(CpuView::report);
        reveal(CpuView::effect);
        reveal(CpuView::bits_done);
    }

    pub proof fn lemma_rrc(self, dst: Arg)
        ensures
            self.effect(Instruction::Rrc { dst }) == self.rotated_in(dst, false, false, false),
            self.report(Instruction::Rrc { dst }) == (StepResult {
                inst: Instruction::Rrc { dst },
                size: 2,
                cycles: Cycles(prefix_cycles(dst), prefix_cycles(dst)),
                jump: false,
                taken: false,
            }),
    {
        reveal(CpuView::report);
        reveal(CpuView::effect);
        reveal(CpuView::bits_done);
    }

    pub proof fn lemma_rr(self, dst: Arg)
        ensures
            self.effect(Instruction::Rr { dst }) == self.rotated_in(dst, false, true, false),
            self.report(Instruction::Rr { dst }) == (StepResult {
                inst: Instruction::Rr { dst },
                size: 2,
                cycles: Cycles(prefix_cycles(dst), prefix_cycles(dst)),
                jump: false,
                taken: false,
            }),
    {
        reveal(CpuView::report);
        reveal(CpuView::effect);
        reveal(CpuView::bits_done);
    }

    pub proof fn lemma_sla(self, dst: Arg)
        ensures
            self.effect(Instruction::Sla { dst }) == self.shifted_in(dst, true, false),
            self.report(Instruction::Sla { dst }) == (StepResult {
                inst: Instruction::Sla { dst },
                size: 2,
                cycles: Cycles(prefix_cycles(dst), prefix_cycles(dst)),
                jump: false,
                taken: false,
            }),
    {
        reveal(CpuView::report);
        reveal(CpuView::effect);
        reveal(CpuView::bits_done);
    }

    pub proof fn lemma_sra(self, dst: Arg)
        ensures
            self.effect(Instruction::Sra { dst }) == self.shifted_in(dst, false, true),
            self.report(Instruction::Sra { dst }) == (StepResult {
                inst: Instruction::Sra { dst },
                size: 2,
                cycles: Cycles(prefix_cycles(dst), prefix_cycles(dst)),
                jump: false,
                taken: false,
            }),
    {
        reveal(CpuView::report);
        reveal(CpuView::effect);
        reveal(CpuView::bits_done);
    }

    pub proof fn lemma_srl(self, dst: Arg)
        ensures
            self.effect(Instruction::Srl { dst }) == self.shifted_in(dst, false, false),
            self.report(Instruction::Srl { dst }) == (StepResult {
                inst: Instruction::Srl { dst },
                size: 2,
                cycles: Cycles(prefix_cycles(dst), prefix_cycles(dst)),
                jump: false,
                taken: false,
            }),
    {
        reveal(CpuView::report);
        reveal(CpuView::effect);
        reveal(CpuView::bits_done);
    }

    pub proof fn lemma_swap(self, dst: Arg)
        ensures
            self.effect(Instruction::Swap { dst }) == self.swapped_in(dst),
            self.report(Instruction::Swap { dst }) == (StepResult {
                inst: Instruction::Swap { dst },
                size: 2,
                cycles: Cycles(prefix_cycles(dst), prefix_cycles(dst)),
                jump: false,
                taken: false,
            }),
    {
        reveal(CpuView::report);
        reveal(CpuView::effect);
        reveal(CpuView::bits_done);
    }

    pub proof fn lemma_bit(self, dst: Arg, bit: u8)
        ensures
            self.effect(Instruction::Bit { dst, bit }) == self.bit_tested(dst, bit),
            self.report(Instruction::Bit { dst, bit }) == (StepResult {
                inst: Instruction::Bit { dst, bit },
                size: 2,
                cycles: if dst == Arg::MemHl { Cycles(12, 12) } else { Cycles(8, 8) },
                jump: false,
                taken: false,
            }),
    {
        reveal(CpuView::report);
        reveal(CpuView::effect);
        reveal(CpuView::bits_done);
    }

    pub proof fn lemma_set_bit(self, dst: Arg, bit: u8)
        ensures
            self.effect(Instruction::SetBit { dst, bit }) == self.bit_put(dst, bit, true),
            self.report(Instruction::SetBit { dst, bit }) == (StepResult {
                inst: Instruction::SetBit { dst, bit },
                size: 2,
                cycles: Cycles(prefix_cycles(dst), prefix_cycles(dst)),
                jump: false,
                taken: false,
            }),
    {
        reveal(CpuView::report);
        reveal(CpuView::effect);
        reveal(CpuView::bits_done);
    }

    pub proof fn lemma_res(self, dst: Arg, bit: u8)
        ensures
            self.effect(Instruction::Res { dst, bit }) == self.bit_put(dst, bit, false),
            self.report(Instruction::Res { dst, bit }) == (StepResult {
                inst: Instruction::Res { dst, bit },
                size: 2,
                cycles: Cycles(prefix_cycles(dst), prefix_cycles(dst)),
                jump: false,
                taken: false,
            }),
    {
        reveal(CpuView::report);
        reveal(CpuView::effect);
        reveal(CpuView::bits_done);
    }

    pub proof fn lemma_jp(self, addr: u16, cond: Cond)
        ensures
            self.effect(Instruction::Jp { addr, cond }) == if self.holds(cond) {
                self.with_pc(addr)
            } else {
                self
            },
            self.report(Instruction::Jp { addr, cond }) == (StepResult {
                inst: Instruction::Jp { addr, cond },
                size: 3,
                cycles: Cycles(16, 12),
                jump: true,
                taken: self.holds(cond),
            }),
    {
        reveal(CpuView::report);
        reveal(CpuView::effect);
        reveal(CpuView::jumped);
    }

    pub proof fn lemma_jr(self, offset: i8, cond: Cond)
        ensures
            self.effect(Instruction::Jr { offset, cond }) == if self.holds(cond) {
                self.with_pc(self.registers.PC.wrapping_add(2).wrapping_add(extended(offset)))
            } else {
                self
            },
            self.report(Instruction::Jr { offset, cond }) == (StepResult {
                inst: Instruction::Jr { offset, cond },
                size: 2,
                cycles: if self.holds(cond) { Cycles(12, 8) } else { Cycles(8, 8) },
                jump: true,
                taken: self.holds(cond),
            }),
    {
        reveal(CpuView::report);
        reveal(CpuView::effect);
        reveal(CpuView::jumped);
    }

    pub proof fn lemma_call(self, addr: u16, cond: Cond)
        ensures
            self.effect(Instruction::Call { addr, cond }) == if self.holds(cond) {
                self.pushed(self.registers.PC.wrapping_add(3)).with_pc(addr)
            } else {
                self
            },
            self.report(Instruction::Call { addr, cond }) == (StepResult {
                inst: Instruction::Call { addr, cond },
                size: 3,
                cycles: Cycles(24, 12),
                jump: true,
                taken: self.holds(cond),
            }),
    {
        reveal(CpuView::report);
        reveal(CpuView::effect);
        reveal(CpuView::jumped);
    }

    pub proof fn lemma_ret(self, cond: Cond)
        ensures
            self.effect(Instruction::Ret { cond }) == if self.holds(cond) {
                self.popped().with_pc(self.top())
            } else {
                self
            },
            self.report(Instruction::Ret { cond }) == (StepResult {
                inst: Instruction::Ret { cond },
                size: 1,
                cycles: Cycles(20, 8),
                jump: true,
                taken: self.holds(cond),
            }),
    {
        reveal(CpuView::report);
        reveal(CpuView::effect);
        reveal(CpuView::jumped);
    }

    pub proof fn lemma_rst(self, offset: u8)
        ensures
            self.effect(Instruction::Rst { offset }) == self.pushed(
                self.registers.PC.wrapping_add(1),
            ).with_pc(offset as u16),
            self.report(Instruction::Rst { offset }) == (StepResult {
                inst: Instruction::Rst { offset },
                size: 1,
                cycles: Cycles(16, 16),
                jump: true,
                taken: true,
            }),
    {
        reveal(CpuView::report);
        reveal(CpuView::effect);
        reveal(CpuView::jumped);
    }

    pub proof fn lemma_reti(self)
        ensures
            self.effect(Instruction::RetI) == (CpuView {
                ime: true,
                ..self.popped().with_pc(self.top())
            }),
            self.report(Instruction::RetI) == (StepResult {
                inst: Instruction::RetI,
                size: 1,
                cycles: Cycles(16, 16),
                jump: true,
                taken: true,
            }),
    {
        reveal(CpuView::report);
        reveal(CpuView::effect);
        reveal(CpuView::jumped);
    }

    pub proof fn lemma_jp_hl(self)
        ensures
            self.effect(Instruction::JpHl) == self.with_pc(self.hl()),
            self.report(Instruction::JpHl) == (StepResult {
                inst: Instruction::JpHl,
                size: 1,
                cycles: Cycles(4, 4),
                jump: true,
                taken: true,
            }),
    {
        reveal(CpuView::report);
        reveal(CpuView::effect);
        reveal(CpuView::jumped);
    }
}

} // verus!
