//! Where loads, the stack and the ports read and write.
use vstd::prelude::*;

use crate::bits::bit;
use crate::cpu::CpuView;
use crate::instructions::{Arg, Instruction};
use crate::registers::{Flag, Reg16, Reg8, RegisterFile};

verus! {

impl RegisterFile {
    /// The names of the registers and of the pairs, whose first register is the high byte.
    pub proof fn law_names(self)
        ensures
            self.r8(Reg8::A) == self.A,
            self.r8(Reg8::F) == self.F,
            self.r8(Reg8::B) == self.B,
            self.r8(Reg8::C) == self.C,
            self.r8(Reg8::D) == self.D,
            self.r8(Reg8::E) == self.E,
            self.r8(Reg8::H) == self.H,
            self.r8(Reg8::L) == self.L,
            self.r16(Reg16::AF) == 256 * self.A + self.F,
            self.r16(Reg16::BC) == 256 * self.B + self.C,
            self.r16(Reg16::DE) == 256 * self.D + self.E,
            self.r16(Reg16::HL) == 256 * self.H + self.L,
            self.r16(Reg16::SP) == self.SP,
            self.r16(Reg16::PC) == self.PC,
    {
        reveal(RegisterFile::r8);
        reveal(RegisterFile::r16);
    }

    /// The flags are bits 7 to 4 of `F`: zero, subtract, half carry, carry. Setting or clearing
    /// one touches no other bit.
    pub proof fn law_flag_bits(self, on: bool)
        ensures
            ({
                let f = self.F;
                let put = |flag: Flag| self.with_flag(flag, on);
                let change = |n: int, weight: int| if bit(f, n) == on {
                    f as int
                } else if on {
                    f + weight
                } else {
                    f - weight
                };
                let with = |f: int| RegisterFile { F: f as u8, ..self };
                &&& self.flag(Flag::Zero) == bit(f, 7)
                &&& self.flag(Flag::Subtract) == bit(f, 6)
                &&& self.flag(Flag::HalfCarry) == bit(f, 5)
                &&& self.flag(Flag::Carry) == bit(f, 4)
                &&& put(Flag::Zero) == with(change(7, 128))
                &&& put(Flag::Subtract) == with(change(6, 64))
                &&& put(Flag::HalfCarry) == with(change(5, 32))
                &&& put(Flag::Carry) == with(change(4, 16))
            }),
    {
        reveal(RegisterFile::flag);
        reveal(RegisterFile::with_flag);
    }

    /// Setting a register sets that one and no other; the low half of `F` stays zero.
    pub proof fn law_register_is_set(self, v: u8)
        ensures
            self.with_r8(Reg8::A, v) == (RegisterFile { A: v, ..self }),
            self.with_r8(Reg8::B, v) == (RegisterFile { B: v, ..self }),
            self.with_r8(Reg8::C, v) == (RegisterFile { C: v, ..self }),
            self.with_r8(Reg8::D, v) == (RegisterFile { D: v, ..self }),
            self.with_r8(Reg8::E, v) == (RegisterFile { E: v, ..self }),
            self.with_r8(Reg8::H, v) == (RegisterFile { H: v, ..self }),
            self.with_r8(Reg8::L, v) == (RegisterFile { L: v, ..self }),
            self.with_r8(Reg8::F, v) == (RegisterFile { F: (16 * (v / 16)) as u8, ..self }),
    {
        reveal(RegisterFile::with_r8);
    }

    /// Setting a pair sets its two registers and no other, the first one to the high byte.
    pub proof fn law_pair_is_set(self, high: u8, low: u8)
        ensures
            ({
                let v = (256 * high + low) as u16;
                &&& self.with_r16(Reg16::AF, v) == (RegisterFile {
                    A: high,
                    F: (16 * (low / 16)) as u8,
                    ..self
                })
                &&& self.with_r16(Reg16::BC, v) == (RegisterFile { B: high, C: low, ..self })
                &&& self.with_r16(Reg16::DE, v) == (RegisterFile { D: high, E: low, ..self })
                &&& self.with_r16(Reg16::HL, v) == (RegisterFile { H: high, L: low, ..self })
                &&& self.with_r16(Reg16::SP, v) == (RegisterFile { SP: v, ..self })
                &&& self.with_r16(Reg16::PC, v) == (RegisterFile { PC: v, ..self })
            }),
    {
        reveal(RegisterFile::with_r16);
        let v = (256 * high + low) as u16;
        assert(v / 256 == high);
        assert(v % 256 == low);
    }
}

impl CpuView {
    /// The byte that each operand stands for.
    pub proof fn law_operands(self, value: u8, addr: u16)
        ensures
            ({
                let r = self.registers;
                &&& self.operand(Arg::Reg8(Reg8::A)) == r.A
                &&& self.operand(Arg::Reg8(Reg8::B)) == r.B
                &&& self.operand(Arg::Reg8(Reg8::C)) == r.C
                &&& self.operand(Arg::Reg8(Reg8::D)) == r.D
                &&& self.operand(Arg::Reg8(Reg8::E)) == r.E
                &&& self.operand(Arg::Reg8(Reg8::H)) == r.H
                &&& self.operand(Arg::Reg8(Reg8::L)) == r.L
                &&& self.operand(Arg::Imm8(value)) == value
                &&& self.operand(Arg::MemHl) == self.bus.peek((256 * r.H + r.L) as u16)
                &&& self.operand(Arg::Mem(Reg16::HL)) == self.bus.peek((256 * r.H + r.L) as u16)
                &&& self.operand(Arg::Mem(Reg16::BC)) == self.bus.peek((256 * r.B + r.C) as u16)
                &&& self.operand(Arg::Mem(Reg16::DE)) == self.bus.peek((256 * r.D + r.E) as u16)
                &&& self.operand(Arg::MemImm(addr)) == self.bus.peek(addr)
            }),
    {
        self.registers.law_names();
    }

    /// A load of a byte: what the source stands for is stored where the target says, and
    /// nothing else changes.
    pub proof fn law_load_byte(self, src: Arg, addr: u16)
        requires
            src is Reg8 || src is Imm8 || src is Mem || src is MemImm,
        ensures
            ({
                let v = self.operand(src);
                let r = self.registers;
                let load = |dst: Arg| self.effect(Instruction::Ld { dst, src });
                &&& load(Arg::Reg8(Reg8::A)) == (CpuView {
                    registers: RegisterFile { A: v, ..r },
                    ..self
                })
                &&& load(Arg::Reg8(Reg8::B)) == (CpuView {
                    registers: RegisterFile { B: v, ..r },
                    ..self
                })
                &&& load(Arg::Reg8(Reg8::C)) == (CpuView {
                    registers: RegisterFile { C: v, ..r },
                    ..self
                })
                &&& load(Arg::Reg8(Reg8::D)) == (CpuView {
                    registers: RegisterFile { D: v, ..r },
                    ..self
                })
                &&& load(Arg::Reg8(Reg8::E)) == (CpuView {
                    registers: RegisterFile { E: v, ..r },
                    ..self
                })
                &&& load(Arg::Reg8(Reg8::H)) == (CpuView {
                    registers: RegisterFile { H: v, ..r },
                    ..self
                })
                &&& load(Arg::Reg8(Reg8::L)) == (CpuView {
                    registers: RegisterFile { L: v, ..r },
                    ..self
                })
                &&& load(Arg::Mem(Reg16::BC)) == (CpuView {
                    bus: self.bus.poked((256 * r.B + r.C) as u16, v),
                    ..self
                })
                &&& load(Arg::Mem(Reg16::DE)) == (CpuView {
                    bus: self.bus.poked((256 * r.D + r.E) as u16, v),
                    ..self
                })
                &&& load(Arg::Mem(Reg16::HL)) == (CpuView {
                    bus: self.bus.poked((256 * r.H + r.L) as u16, v),
                    ..self
                })
                &&& load(Arg::MemImm(addr)) == (CpuView { bus: self.bus.poked(addr, v), ..self })
            }),
    {
        self.lemma_load_byte(Arg::Reg8(Reg8::A), src);
        self.lemma_load_byte(Arg::Reg8(Reg8::B), src);
        self.lemma_load_byte(Arg::Reg8(Reg8::C), src);
        self.lemma_load_byte(Arg::Reg8(Reg8::D), src);
        self.lemma_load_byte(Arg::Reg8(Reg8::E), src);
        self.lemma_load_byte(Arg::Reg8(Reg8::H), src);
        self.lemma_load_byte(Arg::Reg8(Reg8::L), src);
        self.lemma_load_byte(Arg::Mem(Reg16::BC), src);
        self.lemma_load_byte(Arg::Mem(Reg16::DE), src);
        self.lemma_load_byte(Arg::Mem(Reg16::HL), src);
        self.lemma_load_byte(Arg::MemImm(addr), src);
        self.registers.law_names();
        self.registers.law_register_is_set(self.operand(src));
    }

    proof fn lemma_load_byte(self, dst: Arg, src: Arg)
        requires
            src is Reg8 || src is Imm8 || src is Mem || src is MemImm,
        ensures
            self.effect(Instruction::Ld { dst, src }) == self.stored(dst, self.operand(src)),
    {
        self.lemma_ld(dst, src);
        reveal(CpuView::loaded);
    }

    /// A load of a word into a pair, high byte into the first register; of `HL` into the
    /// stack pointer; and of the stack pointer into memory, low byte first.
    pub proof fn law_load_word(self, high: u8, low: u8, addr: u16)
        ensures
            ({
                let v = (256 * high + low) as u16;
                let r = self.registers;
                let src = Arg::Imm16(v);
                let load = |reg: Reg16| self.effect(Instruction::Ld { dst: Arg::Reg16(reg), src });
                let from_hl = self.effect(
                    Instruction::Ld { dst: Arg::Reg16(Reg16::SP), src: Arg::Reg16(Reg16::HL) },
                );
                let to_memory = self.effect(
                    Instruction::Ld { dst: Arg::MemImm(addr), src: Arg::Reg16(Reg16::SP) },
                );
                &&& load(Reg16::BC) == (CpuView {
                    registers: RegisterFile { B: high, C: low, ..r },
                    ..self
                })
                &&& load(Reg16::DE) == (CpuView {
                    registers: RegisterFile { D: high, E: low, ..r },
                    ..self
                })
                &&& load(Reg16::HL) == (CpuView {
                    registers: RegisterFile { H: high, L: low, ..r },
                    ..self
                })
                &&& load(Reg16::SP) == (CpuView { registers: RegisterFile { SP: v, ..r }, ..self })
                &&& from_hl == (CpuView {
                    registers: RegisterFile { SP: (256 * r.H + r.L) as u16, ..r },
                    ..self
                })
                &&& to_memory == (CpuView {
                    bus: self.bus.poked(addr, (r.SP % 256) as u8).poked(
                        addr.wrapping_add(1),
                        (r.SP / 256) as u8,
                    ),
                    ..self
                })
            }),
    {
        let v = (256 * high + low) as u16;
        let src = Arg::Imm16(v);
        self.lemma_ld(Arg::Reg16(Reg16::BC), src);
        self.lemma_ld(Arg::Reg16(Reg16::DE), src);
        self.lemma_ld(Arg::Reg16(Reg16::HL), src);
        self.lemma_ld(Arg::Reg16(Reg16::SP), src);
        self.lemma_ld(Arg::Reg16(Reg16::SP), Arg::Reg16(Reg16::HL));
        self.lemma_ld(Arg::MemImm(addr), Arg::Reg16(Reg16::SP));
        reveal(CpuView::loaded);
        self.registers.law_names();
        self.registers.law_pair_is_set(high, low);
        self.registers.law_pair_is_set(self.registers.H, self.registers.L);
    }

    /// The accumulator from and to the byte that `HL` points at, which then moves on or back
    /// by one.
    pub proof fn law_load_and_count(self)
        ensures
            ({
                let hl = (256 * self.registers.H + self.registers.L) as u16;
                let byte = self.bus.peek(hl);
                let poked = self.bus.poked(hl, self.registers.A);
                let on = self.effect(Instruction::LdiAMemHl);
                let back = self.effect(Instruction::LddAMemHl);
                let on_to = self.effect(Instruction::LdiMemHlA);
                let back_to = self.effect(Instruction::LddMemHlA);
                &&& on.registers.A == byte
                &&& back.registers.A == byte
                &&& on_to.registers.A == self.registers.A
                &&& back_to.registers.A == self.registers.A
                &&& 256 * on.registers.H + on.registers.L == (hl + 1) % 65536
                &&& 256 * back.registers.H + back.registers.L == (hl - 1) % 65536
                &&& 256 * on_to.registers.H + on_to.registers.L == (hl + 1) % 65536
                &&& 256 * back_to.registers.H + back_to.registers.L == (hl - 1) % 65536
                &&& on.bus == self.bus
                &&& back.bus == self.bus
                &&& on_to.bus == poked
                &&& back_to.bus == poked
                &&& on.registers.F == self.registers.F
                &&& back.registers.F == self.registers.F
                &&& on_to.registers.F == self.registers.F
                &&& back_to.registers.F == self.registers.F
            }),
    {
        let r = self.registers;
        let hl = self.hl();
        let byte = self.bus.peek(hl);
        self.lemma_ldi_a();
        self.lemma_ldd_a();
        self.lemma_ldi_mem();
        self.lemma_ldd_mem();
        reveal(CpuView::hl_loaded);
        r.law_names();
        r.law_register_is_set(byte);
        let next = hl.wrapping_add(1);
        let previous = hl.wrapping_sub(1);
        r.law_pair_is_set((next / 256) as u8, (next % 256) as u8);
        r.law_pair_is_set((previous / 256) as u8, (previous % 256) as u8);
        let s = RegisterFile { A: byte, ..r };
        s.law_pair_is_set((next / 256) as u8, (next % 256) as u8);
        s.law_pair_is_set((previous / 256) as u8, (previous % 256) as u8);
    }

    /// The accumulator from and to the ports, in the last page of memory.
    pub proof fn law_ports(self, offset: u8)
        ensures
            ({
                let c = self.registers.C;
                let a = self.registers.A;
                let from = |port: u8| CpuView {
                    registers: RegisterFile {
                        A: self.bus.peek((65280 + port) as u16),
                        ..self.registers
                    },
                    ..self
                };
                let to = |port: u8| CpuView {
                    bus: self.bus.poked((65280 + port) as u16, a),
                    ..self
                };
                &&& self.effect(Instruction::LdhA { offset }) == from(offset)
                &&& self.effect(Instruction::Ldh { offset }) == to(offset)
                &&& self.effect(Instruction::LdAMemC) == from(c)
                &&& self.effect(Instruction::LdMemCA) == to(c)
            }),
    {
        let c = self.registers.C;
        self.lemma_ldh_a(offset);
        self.lemma_ldh(offset);
        self.lemma_ld_a_mem_c();
        self.lemma_ld_mem_c_a();
        reveal(CpuView::port_loaded);
        reveal(CpuView::port_stored);
        self.registers.law_names();
        self.registers.law_register_is_set(self.bus.peek((65280 + offset) as u16));
        self.registers.law_register_is_set(self.bus.peek((65280 + c) as u16));
    }

    /// A push stores the first register of a pair above the second, and moves the stack
    /// pointer down by two.
    pub proof fn law_push(self)
        requires
            self.bus.wf(),
            self.stack_in_ram(),
        ensures
            ({
                let r = self.registers;
                let above = r.SP.wrapping_sub(1);
                let below = r.SP.wrapping_sub(2);
                let push = |src: Reg16| self.effect(Instruction::Push { src });
                let holds = |s: CpuView, high: u8, low: u8|
                    {
                        &&& s.bus.peek(above) == high
                        &&& s.bus.peek(below) == low
                        &&& s.registers == (RegisterFile { SP: below, ..r })
                    };
                &&& holds(push(Reg16::AF), r.A, r.F)
                &&& holds(push(Reg16::BC), r.B, r.C)
                &&& holds(push(Reg16::DE), r.D, r.E)
                &&& holds(push(Reg16::HL), r.H, r.L)
            }),
    {
        let r = self.registers;
        self.lemma_push(Reg16::AF);
        self.lemma_push(Reg16::BC);
        self.lemma_push(Reg16::DE);
        self.lemma_push(Reg16::HL);
        reveal(CpuView::pair_pushed);
        r.law_names();
        self.lemma_stack_bytes(r.r16(Reg16::AF));
        self.lemma_stack_bytes(r.r16(Reg16::BC));
        self.lemma_stack_bytes(r.r16(Reg16::DE));
        self.lemma_stack_bytes(r.r16(Reg16::HL));
    }

    /// A pop loads the second register of a pair from the top of the stack and the first one
    /// from above it, and moves the stack pointer up by two. The low half of `F` stays zero.
    pub proof fn law_pop(self)
        ensures
            ({
                let low = self.bus.peek(self.registers.SP);
                let high = self.bus.peek(self.registers.SP.wrapping_add(1));
                let r = RegisterFile { SP: self.registers.SP.wrapping_add(2), ..self.registers };
                let pop = |dst: Reg16| self.effect(Instruction::Pop { dst });
                &&& pop(Reg16::AF).registers == (RegisterFile {
                    A: high,
                    F: (16 * (low / 16)) as u8,
                    ..r
                })
                &&& pop(Reg16::BC).registers == (RegisterFile { B: high, C: low, ..r })
                &&& pop(Reg16::DE).registers == (RegisterFile { D: high, E: low, ..r })
                &&& pop(Reg16::HL).registers == (RegisterFile { H: high, L: low, ..r })
                &&& pop(Reg16::AF).bus == self.bus
                &&& pop(Reg16::BC).bus == self.bus
                &&& pop(Reg16::DE).bus == self.bus
                &&& pop(Reg16::HL).bus == self.bus
            }),
    {
        let low = self.bus.peek(self.registers.SP);
        let high = self.bus.peek(self.registers.SP.wrapping_add(1));
        self.lemma_pop(Reg16::AF);
        self.lemma_pop(Reg16::BC);
        self.lemma_pop(Reg16::DE);
        self.lemma_pop(Reg16::HL);
        reveal(CpuView::pair_popped);
        self.popped().registers.law_pair_is_set(high, low);
    }

    /// Instructions on the state of the processor touch nothing else.
    pub proof fn law_control(self)
        ensures
            self.effect(Instruction::Nop) == self,
            self.effect(Instruction::Halt) == (CpuView { halted: true, ..self }),
            self.effect(Instruction::Ei) == (CpuView { ime: true, ..self }),
            self.effect(Instruction::Di) == (CpuView { ime: false, ..self }),
    {
        self.lemma_nop();
        self.lemma_halt();
        self.lemma_ei();
        self.lemma_di();
    }
}

} // verus!
