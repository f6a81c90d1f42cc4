//! One step of the processor: interrupts, an instruction, transfers.
use vstd::prelude::*;

use crate::cpu::dispatch::{dispatch, dispatch_prefixed};
use crate::cpu::{Cpu, CpuView};
use crate::instructions::{instruction_of, is_valid_opcode, valid_opcode, Cycles, Instruction};
use crate::interrupts::Interrupt;
use crate::memory::{BusView, MemoryBus};
use crate::ppu::PpuView;

verus! {

/// The interrupt of this number is enabled and pending.
pub open spec fn requested(enable: u8, flags: u8, n: u8) -> bool {
    enable & (1u8 << n) != 0 && flags & (1u8 << n) != 0
}

/// The first of the five interrupts, from number `n` on, that is enabled and pending.
pub open spec fn first_requested(enable: u8, flags: u8, n: u8) -> Option<u8>
    decreases 5 - n,
{
    if n >= 5 {
        None
    } else if requested(enable, flags, n) {
        Some(n)
    } else {
        first_requested(enable, flags, (n + 1) as u8)
    }
}

impl CpuView {
    /// The machine in the service routine of an interrupt: interrupts are disabled, the
    /// request is taken back, and the program counter is on the stack.
    pub open spec fn entered(self, flags: u8, n: u8) -> CpuView {
        let s = CpuView {
            ime: false,
            bus: self.bus.poked(0xFF0F, flags & !(1u8 << n)),
            ..self
        };
        s.pushed(s.registers.PC).with_pc((0x40 + 8 * n) as u16)
    }

    /// The machine after its interrupts were looked at, and the cycles that took. A request
    /// wakes the processor even if interrupts are disabled; only the first one is served.
    #[verifier::opaque]
    pub open spec fn serviced(self) -> (CpuView, u8) {
        let enable = self.bus.peek(0xFFFF);
        let flags = self.bus.peek(0xFF0F);
        let awake = CpuView { halted: false, ..self };
        if enable & flags == 0 {
            (self, 0)
        } else if !self.ime {
            (awake, 0)
        } else {
            match first_requested(enable, flags, 0) {
                Some(n) => (awake.entered(flags, n), 20),
                None => (awake, 20),
            }
        }
    }

    /// The machine after a transfer to the sprite table, if one was asked for: it takes 160
    /// bytes from the page that was named. No other transfer is modelled.
    #[verifier::opaque]
    pub open spec fn transferred(self) -> CpuView {
        if self.bus.ppu.oam_dma_active {
            let page = 256 * self.bus.ppu.oam_dma;
            CpuView {
                bus: BusView {
                    ppu: PpuView {
                        oam: Seq::new(160, |i: int| self.bus.peek((page + i) as u16)),
                        oam_dma_active: false,
                        ..self.bus.ppu
                    },
                    ..self.bus
                },
                ..self
            }
        } else {
            self
        }
    }

    /// The opcode at the program counter.
    pub open spec fn opcode(self) -> u8 {
        self.bus.peek(self.registers.PC)
    }

    /// The instruction at an address.
    pub open spec fn instruction_at(self, addr: u16) -> Instruction {
        let a8 = self.bus.peek(addr.wrapping_add(1));
        instruction_of(
            self.bus.peek(addr),
            a8,
            (a8 + 256 * self.bus.peek(addr.wrapping_add(2))) as u16,
        )
    }

    /// The machine after the instruction at the program counter, which moves on by its size
    /// unless the instruction set it, and the cycles of the instruction.
    #[verifier::opaque]
    pub open spec fn advanced(self) -> (CpuView, u8) {
        let inst = self.instruction_at(self.registers.PC);
        let done = self.effect(inst);
        let r = self.report(inst);
        if r.jump && r.taken {
            (done, r.cycles.0)
        } else {
            (done.with_pc(done.registers.PC.wrapping_add(r.size as u16)), r.cycles.1)
        }
    }

    /// The machine after an instruction and the work around it, and all cycles that took,
    /// in cycles of normal speed. `int_cycles` were spent on an interrupt before.
    pub open spec fn ran(self, int_cycles: u8) -> (CpuView, int) {
        let (done, cycles) = self.advanced();
        let (rest, total) = if done.stopped {
            (done, cycles + 8200)
        } else {
            (done.transferred(), cycles + int_cycles)
        };
        (rest, if rest.speed { total / 2 } else { total })
    }

    /// The next step meets an instruction, or none is due.
    pub open spec fn can_step(self) -> bool {
        let s = self.serviced().0;
        s.halted || valid_opcode(s.opcode())
    }

    /// The machine after one step.
    pub open spec fn stepped(self) -> CpuView {
        let (s, int_cycles) = self.serviced();
        if s.halted {
            s
        } else {
            s.ran(int_cycles).0
        }
    }

    /// Cycles of one step. A halted processor waits for four.
    pub open spec fn step_cycles(self) -> int {
        let (s, int_cycles) = self.serviced();
        if s.halted {
            4
        } else {
            s.ran(int_cycles).1
        }
    }

    /// The instruction of one step.
    pub open spec fn step_instruction(self) -> Instruction {
        let s = self.serviced().0;
        if s.halted {
            Instruction::Nop
        } else {
            s.instruction_at(s.registers.PC)
        }
    }
}

impl Cpu {
    /// Looks at the interrupts and serves the first that is enabled and pending. Returns the
    /// cycles that took.
    pub fn service_interrupts(&mut self) -> (r: u8)
        requires
            old(self).wf(),
        ensures
            (final(self)@, r) == old(self)@.serviced(),
            final(self).wf(),
    {
        reveal(CpuView::serviced);
        let enable = self.memory.read(0xFFFF);
        let flags = self.memory.read(0xFF0F);
        if enable & flags == 0 {
            return 0;
        }
        self.halted = false;
        if !self.ime {
            return 0;
        }
        let ghost awake = self@;
        let mut n: u8 = 0;
        while n < 5
            invariant
                n <= 5,
                self.wf(),
                self@ == awake,
                awake == (CpuView { halted: false, ..old(self)@ }),
                old(self)@.ime,
                enable == old(self)@.bus.peek(0xFFFF),
                flags == old(self)@.bus.peek(0xFF0F),
                enable & flags != 0,
                first_requested(enable, flags, 0) == first_requested(enable, flags, n),
            decreases 5 - n,
        {
            if enable & (1u8 << n) != 0 && flags & (1u8 << n) != 0 {
                self.enter_interrupt(flags, n);
                reveal(CpuView::serviced);
                return 20;
            }
            n = n + 1;
        }
        20
    }

    fn enter_interrupt(&mut self, flags: u8, n: u8)
        requires
            old(self).wf(),
            n < 5,
        ensures
            final(self)@ == old(self)@.entered(flags, n),
            final(self).wf(),
    {
        self.ime = false;
        self.memory.write(0xFF0F, flags & !(1u8 << n));
        let pc = self.registers.PC;
        self.push(pc);
        self.registers.PC = 0x40 + 8 * (n as u16);
    }

    /// Makes an interrupt pending.
    pub fn trigger_interrupt(&mut self, interrupt: Interrupt)
        requires
            old(self).wf(),
        ensures
            final(self)@ == old(self)@.triggered(interrupt),
            final(self).wf(),
    {
        let flags = self.memory.read(0xFF0F);
        self.memory.write(0xFF0F, flags | interrupt.mask());
    }

    /// Runs a transfer that was asked for. Returns the cycles for which the processor waits:
    /// none. The transfer to the sprite table is the only one that is modelled. It is over at
    /// once, so no transfer is ever under way between two steps, and the saved form of the
    /// processor has no part for one.
    fn dma(&mut self) -> (r: u16)
        requires
            old(self).wf(),
        ensures
            final(self)@ == old(self)@.transferred(),
            r == 0,
            final(self).wf(),
    {
        reveal(CpuView::transferred);
        reveal(MemoryBus::contents);
        reveal(MemoryBus::wf);
        if !self.memory.ppu().oam_dma_active {
            return 0;
        }
        let page: u16 = 256 * (self.memory.ppu().oam_dma as u16);
        let mut bytes: Vec<u8> = Vec::new();
        let mut i: u16 = 0;
        while i < 160
            invariant
                i <= 160,
                self.wf(),
                page == 256 * self@.bus.ppu.oam_dma,
                bytes@ == Seq::new(i as nat, |k: int| self@.bus.peek((page + k) as u16)),
            decreases 160 - i,
        {
            let byte = self.memory.read(page + i);
            bytes.push(byte);
            i = i + 1;
            assert(bytes@ =~= Seq::new(i as nat, |k: int| self@.bus.peek((page + k) as u16)));
        }
        self.memory.ppu.oam = bytes;
        self.memory.ppu.oam_dma_active = false;
        assert(self.memory@ =~= old(self)@.transferred().bus);
        0
    }

    /// Executes the instruction at the program counter.
    fn advance(&mut self) -> (r: (u8, Instruction))
        requires
            old(self).wf(),
            valid_opcode(old(self)@.opcode()),
        ensures
            (final(self)@, r.0) == old(self)@.advanced(),
            r.1 == old(self)@.instruction_at(old(self)@.registers.PC),
            final(self).wf(),
    {
        reveal(CpuView::advanced);
        proof {
            self@.lemma_reports_instruction(self@.instruction_at(self@.registers.PC));
        }
        let pc = self.registers.PC;
        let op = self.memory.read(pc);
        let a8 = self.memory.read(pc.wrapping_add(1));
        let high = self.memory.read(pc.wrapping_add(2));
        let a16: u16 = a8 as u16 + 256 * (high as u16);
        let result = if op == 0xCB {
            dispatch_prefixed(self, a8)
        } else {
            dispatch(self, op, a8, a16)
        };
        if result.jump && result.taken {
            (result.cycles.taken(), result.inst)
        } else {
            self.registers.PC = self.registers.PC.wrapping_add(result.size as u16);
            (result.cycles.not_taken(), result.inst)
        }
    }

    fn run(&mut self, int_cycles: u8) -> (r: (u16, Instruction))
        requires
            old(self).wf(),
            valid_opcode(old(self)@.opcode()),
        ensures
            final(self)@ == old(self)@.ran(int_cycles).0,
            r.0 == old(self)@.ran(int_cycles).1,
            r.1 == old(self)@.instruction_at(old(self)@.registers.PC),
            final(self).wf(),
    {
        let (base, inst) = self.advance();
        let mut cycles: u16 = base as u16;
        if self.stopped {
            cycles = cycles + 8200;
        } else {
            cycles = cycles + int_cycles as u16;
            cycles = cycles + self.dma();
        }
        if self.speed {
            cycles = cycles / 2;
        }
        (cycles, inst)
    }

    /// Executes the next instruction. Returns the cycles that took, and the instruction.
    pub fn step(&mut self) -> (r: (u16, Instruction))
        requires
            old(self).wf(),
            old(self)@.can_step(),
        ensures
            final(self)@ == old(self)@.stepped(),
            r.0 == old(self)@.step_cycles(),
            r.1 == old(self)@.step_instruction(),
            final(self).wf(),
    {
        let int_cycles = self.service_interrupts();
        if self.halted {
            return (4, Instruction::Nop);
        }
        self.run(int_cycles)
    }

    /// Executes the next instruction, if there is one. Otherwise only the interrupts have
    /// been looked at.
    pub fn try_step(&mut self) -> (r: Option<(u16, Instruction)>)
        requires
            old(self).wf(),
        ensures
            r is Some <==> old(self)@.can_step(),
            r matches Some(done) ==> final(self)@ == old(self)@.stepped() && done.0
                == old(self)@.step_cycles() && done.1 == old(self)@.step_instruction(),
            r is None ==> final(self)@ == old(self)@.serviced().0,
            final(self).wf(),
    {
        let int_cycles = self.service_interrupts();
        if self.halted {
            return Some((4, Instruction::Nop));
        }
        let op = self.memory.read(self.registers.PC);
        if is_valid_opcode(op) {
            Some(self.run(int_cycles))
        } else {
            None
        }
    }

    /// The instruction at an address, or at the program counter, with its size and cycles.
    pub fn fetch(&self, addr: Option<u16>) -> (r: (Instruction, u8, Cycles))
        requires
            self.wf(),
            valid_opcode(self@.bus.peek(self@.addr_or_pc(addr))),
        ensures
            r.0 == self@.instruction_at(self@.addr_or_pc(addr)),
            r.1 == r.0.spec_size(),
            r.2 == r.0.spec_cycles(),
    {
        let addr = match addr {
            Some(addr) => addr,
            None => self.registers.PC,
        };
        let data: [u8; 3] = [
            self.memory.read(addr),
            self.memory.read(addr.wrapping_add(1)),
            self.memory.read(addr.wrapping_add(2)),
        ];
        Instruction::decode(data)
    }

    /// The instructions from an address, or from the program counter, on, with their
    /// addresses.
    pub fn disassemble(&self, count: usize, addr: Option<u16>) -> (r: Vec<(Instruction, u16)>)
        requires
            self.wf(),
            self@.is_code(self@.addr_or_pc(addr), count as nat),
        ensures
            r@ == self@.listing(self@.addr_or_pc(addr), count as nat),
    {
        let mut addr = match addr {
            Some(addr) => addr,
            None => self.registers.PC,
        };
        let ghost start = addr;
        let mut result: Vec<(Instruction, u16)> = Vec::new();
        let mut done: usize = 0;
        while done < count
            invariant
                done <= count,
                self.wf(),
                self@.is_code(addr, (count - done) as nat),
                result@ + self@.listing(addr, (count - done) as nat) == self@.listing(
                    start,
                    count as nat,
                ),
            decreases count - done,
        {
            let (inst, size, _) = self.fetch(Some(addr));
            let ghost rest = self@.listing(
                addr.wrapping_add(size as u16),
                (count - done - 1) as nat,
            );
            assert(result@.push((inst, addr)) + rest =~= result@ + (seq![(inst, addr)] + rest));
            result.push((inst, addr));
            addr = addr.wrapping_add(size as u16);
            done = done + 1;
        }
        assert(result@ + self@.listing(addr, 0) =~= result@);
        result
    }
}

impl CpuView {
    proof fn lemma_reports_instruction(self, inst: Instruction)
        ensures
            self.report(inst).inst == inst,
    {
        reveal(CpuView::report);
    }

    /// The machine with an interrupt pending.
    pub open spec fn triggered(self, interrupt: Interrupt) -> CpuView {
        CpuView {
            bus: self.bus.poked(0xFF0F, self.bus.peek(0xFF0F) | interrupt.spec_mask()),
            ..self
        }
    }

    pub open spec fn addr_or_pc(self, addr: Option<u16>) -> u16 {
        match addr {
            Some(addr) => addr,
            None => self.registers.PC,
        }
    }

    /// There are `count` instructions from `addr` on.
    pub open spec fn is_code(self, addr: u16, count: nat) -> bool
        decreases count,
    {
        count > 0 ==> {
            &&& valid_opcode(self.bus.peek(addr))
            &&& self.is_code(
                addr.wrapping_add(self.instruction_at(addr).spec_size() as u16),
                (count - 1) as nat,
            )
        }
    }

    /// The `count` instructions from `addr` on, with their addresses.
    pub open spec fn listing(self, addr: u16, count: nat) -> Seq<(Instruction, u16)>
        decreases count,
    {
        if count == 0 {
            Seq::empty()
        } else {
            let inst = self.instruction_at(addr);
            seq![(inst, addr)] + self.listing(
                addr.wrapping_add(inst.spec_size() as u16),
                (count - 1) as nat,
            )
        }
    }
}

} // verus!
