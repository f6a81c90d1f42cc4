//! Processor.
use vstd::prelude::*;

use crate::cartridge::{Cartridge, ControllerView};
use crate::codec::{
    flag_at, flag_byte, found_at, lemma_found_split, put_flag, take_flag,
};
use crate::cpu::alu::{
    add_bytes, adjust_byte, difference, logical_bytes, logical_of, rotate_byte, shift_byte,
    sub_bytes, sum, AluResult, LogicalOp,
};
use crate::cpu::effects::{is_source, is_target};
use crate::error::Error;
use crate::instructions::{Arg, Cycles, Instruction};
use crate::memory::{BusView, MemoryBus};
use crate::registers::{Flag, Reg16, Reg8, RegisterFile, RegisterOps};
use crate::rtc::cycle_time_of;

pub mod alu;
pub mod arithmetic_laws;
pub mod bit_laws;
pub mod decoding;
pub mod dispatch;
pub mod effects;
pub mod execute;
pub mod interrupt_laws;
pub mod jump_laws;
pub mod laws;
pub mod load_laws;
pub mod opcode_laws;
pub mod ops;
pub mod step;
pub mod steps;

verus! {

/// Result of executing a single instruction.
#[derive(Clone, Copy, Debug, PartialEq, Eq, Structural)]
pub struct StepResult {
    pub inst: Instruction,
    pub size: u8,
    pub cycles: Cycles,
    pub jump: bool,
    pub taken: bool,
}

/// Processor, with the bus that it drives.
pub struct Cpu {
    pub registers: RegisterFile,
    pub memory: MemoryBus,
    /// Color machine.
    pub cgb: bool,
    pub halted: bool,
    pub stopped: bool,
    /// Double speed.
    pub speed: bool,
    /// Interrupts are enabled.
    pub ime: bool,
}

/// What a processor and its bus hold.
pub struct CpuView {
    pub registers: RegisterFile,
    pub bus: BusView,
    pub cgb: bool,
    pub halted: bool,
    pub stopped: bool,
    pub speed: bool,
    pub ime: bool,
}

impl View for Cpu {
    type V = CpuView;

    open spec fn view(&self) -> CpuView {
        CpuView {
            registers: self.registers,
            bus: self.memory@,
            cgb: self.cgb,
            halted: self.halted,
            stopped: self.stopped,
            speed: self.speed,
            ime: self.ime,
        }
    }
}

impl CpuView {
    /// A processor at power-on.
    pub open spec fn powered_on(registers: RegisterFile, bus: BusView, cgb: bool) -> CpuView {
        CpuView {
            registers,
            bus,
            cgb,
            halted: false,
            stopped: false,
            speed: false,
            ime: false,
        }
    }

    /// A processor with a cartridge, inserted at this time. With a boot program the
    /// registers start empty.
    pub open spec fn with_cartridge(cartridge: Cartridge, now: u64) -> CpuView {
        let cgb = cartridge.wants_color();
        Self::powered_on(
            if cartridge.boot_rom { RegisterFile::zeroed() } else { RegisterFile::booted(cgb) },
            BusView::powered_on(
                ControllerView::inserted(cartridge, now),
                cgb,
                cartridge.boot_rom,
            ),
            cgb,
        )
    }

    /// The stored form of the flags of the processor.
    pub open spec fn encode_flags(self) -> Seq<u8> {
        seq![
            flag_byte(self.cgb),
            flag_byte(self.halted),
            flag_byte(self.stopped),
            flag_byte(self.speed),
            flag_byte(self.ime),
        ]
    }

    /// The stored form.
    #[verifier::opaque]
    pub open spec fn encode(self) -> Seq<u8> {
        self.registers.encode() + self.bus.encode() + self.encode_flags()
    }

    /// Bytes of the processor that is stored at `i`.
    #[verifier::opaque]
    pub open spec fn stored_len(s: Seq<u8>, i: int) -> int {
        17 + BusView::stored_len(s, i + 12)
    }

    /// A whole processor is stored at `i`.
    #[verifier::opaque]
    pub open spec fn stored_at(s: Seq<u8>, i: int) -> bool {
        &&& 0 <= i
        &&& i + 12 <= s.len()
        &&& BusView::stored_at(s, i + 12)
        &&& i + 17 + BusView::stored_len(s, i + 12) <= s.len()
    }

    /// What is stored at `i`.
    #[verifier::opaque]
    pub open spec fn decode(s: Seq<u8>, i: int) -> CpuView {
        let f = i + 12 + BusView::stored_len(s, i + 12);
        CpuView {
            registers: RegisterFile::decode(s, i),
            bus: BusView::decode(s, i + 12),
            cgb: flag_at(s, f),
            halted: flag_at(s, f + 1),
            stopped: flag_at(s, f + 2),
            speed: flag_at(s, f + 3),
            ime: flag_at(s, f + 4),
        }
    }

    /// A processor that was saved is loaded unchanged, but for what the stored form leaves
    /// out.
    pub proof fn law_load_restores_saved(self, s: Seq<u8>, i: int)
        requires
            self.bus.wf(),
            self.bus.storable(),
            found_at(s, i, self.encode()),
        ensures
            Self::stored_at(s, i),
            Self::stored_len(s, i) == self.encode().len(),
            Self::decode(s, i) == (CpuView { bus: self.bus.persistent(), ..self }),
    {
        reveal(CpuView::encode);
        reveal(CpuView::stored_len);
        reveal(CpuView::stored_at);
        reveal(CpuView::decode);
        let r = self.registers.encode();
        let b = self.bus.encode();
        let flags = self.encode_flags();
        lemma_found_split(s, i, r + b, flags);
        lemma_found_split(s, i, r, b);
        self.registers.law_load_restores_saved(s, i);
        self.bus.law_load_restores_saved(s, i + 12);
        let f = i + 12 + b.len();
        assert(s[f + 0] == flags[0]);
        assert(s[f + 1] == flags[1]);
        assert(s[f + 2] == flags[2]);
        assert(s[f + 3] == flags[3]);
        assert(s[f + 4] == flags[4]);
    }
}

impl Cpu {
    /// Base frequency of the processor, in Hz.
    pub const BASE_FREQ: u32 = 4_194_304;

    /// Length of a cycle at normal speed, in nanoseconds.
    pub const CYCLE_TIME: u32 = 238;

    /// The bus is valid.
    pub open spec fn wf(&self) -> bool {
        self.memory.wf()
    }

    /// A processor with a blank cartridge.
    pub fn new(cgb: bool) -> (r: Self)
        ensures
            r@ == CpuView::powered_on(
                RegisterFile::booted(cgb),
                BusView::powered_on(ControllerView::blank(), cgb, false),
                cgb,
            ),
            r.wf(),
    {
        Self {
            registers: RegisterFile::new(cgb),
            memory: MemoryBus::new(cgb),
            cgb,
            halted: false,
            stopped: false,
            speed: false,
            ime: false,
        }
    }

    /// A processor with a cartridge. An image without a header is refused.
    pub fn from_cartridge(cartridge: Cartridge) -> (r: Result<Self, Error>)
        ensures
            r is Ok <==> cartridge.has_header(),
            r matches Ok(cpu) ==> cpu.wf() && exists|now: u64|
                cpu@ == #[trigger] CpuView::with_cartridge(cartridge, now),
            r matches Err(Error::InvalidValue(text)) ==> text@ == "Invalid ROM header"@,
    {
        let ghost image = cartridge;
        let cgb = cartridge.cgb();
        let boot_rom = cartridge.boot_rom;
        match MemoryBus::from_cartridge(cartridge) {
            Ok(memory) => {
                let ghost now = choose|now: u64|
                    memory@ == BusView::powered_on(
                        #[trigger] ControllerView::inserted(image, now),
                        cgb,
                        boot_rom,
                    );
                let registers = if boot_rom {
                    RegisterFile::empty()
                } else {
                    RegisterFile::new(cgb)
                };
                let cpu = Self {
                    registers,
                    memory,
                    cgb,
                    halted: false,
                    stopped: false,
                    speed: false,
                    ime: false,
                };
                assert(cpu@ == CpuView::with_cartridge(image, now));
                Ok(cpu)
            },
            Err(e) => Err(e),
        }
    }

    /// Length of a cycle, in nanoseconds.
    pub fn cycle_time(speed: bool) -> (r: u32)
        ensures
            r == cycle_time_of(speed),
    {
        if speed {
            Self::CYCLE_TIME / 2
        } else {
            Self::CYCLE_TIME
        }
    }

    /// Puts the processor and the bus back to their state at power-on; the cartridge stays.
    pub fn reset(&mut self)
        requires
            old(self).wf(),
        ensures
            final(self)@ == CpuView::powered_on(
                RegisterFile::booted(old(self)@.cgb),
                old(self)@.bus.reset_done(),
                old(self)@.cgb,
            ),
            final(self).wf(),
    {
        self.registers = RegisterFile::new(self.cgb);
        self.memory.reset();
        self.ime = false;
        self.halted = false;
        self.stopped = false;
        self.speed = false;
    }

    pub fn memory(&self) -> (r: &MemoryBus)
        ensures
            *r == self.memory,
    {
        &self.memory
    }

    /// Appends the stored form.
    pub fn save_to_bytes(&self, buf: &mut Vec<u8>)
        ensures
            final(buf)@ == old(buf)@ + self@.encode(),
    {
        reveal(CpuView::encode);
        self.registers.save_to_bytes(buf);
        self.memory.save_to_bytes(buf);
        put_flag(buf, self.cgb);
        put_flag(buf, self.halted);
        put_flag(buf, self.stopped);
        put_flag(buf, self.speed);
        put_flag(buf, self.ime);
        assert(buf@ =~= old(buf)@ + self@.encode());
    }

    /// A whole processor is stored at `pos`.
    pub fn is_stored(data: &[u8], pos: usize) -> (r: bool)
        ensures
            r == CpuView::stored_at(data@, pos as int),
    {
        reveal(CpuView::stored_at);
        let total: usize = data.len();
        if pos > total || total - pos < 12 {
            return false;
        }
        match MemoryBus::stored_end(data, pos + 12) {
            Some(end) => total - end >= 5,
            None => false,
        }
    }

    /// Restores a processor that is stored at the cursor. It is valid if what is stored is.
    pub fn load_from_bytes(data: &[u8], pos: &mut usize) -> (r: Result<Self, Error>)
        requires
            CpuView::stored_at(data@, *old(pos) as int),
        ensures
            r matches Ok(cpu) && cpu@ == CpuView::decode(data@, *old(pos) as int) && (
            cpu@.bus.wf() ==> cpu.wf()),
            *final(pos) == *old(pos) + CpuView::stored_len(data@, *old(pos) as int),
    {
        reveal(CpuView::stored_len);
        reveal(CpuView::stored_at);
        reveal(CpuView::decode);
        let registers = match RegisterFile::load_from_bytes(data, pos) {
            Ok(registers) => registers,
            Err(e) => {
                return Err(e);
            },
        };
        let memory = match MemoryBus::load_from_bytes(data, pos) {
            Ok(memory) => memory,
            Err(e) => {
                return Err(e);
            },
        };
        let cgb = take_flag(data, pos);
        let halted = take_flag(data, pos);
        let stopped = take_flag(data, pos);
        let speed = take_flag(data, pos);
        let ime = take_flag(data, pos);
        Ok(Self { registers, memory, cgb, halted, stopped, speed, ime })
    }

    /// The byte that an operand stands for.
    fn read_operand(&self, src: Arg) -> (r: u8)
        requires
            self.wf(),
            is_source(src),
        ensures
            r == self@.operand(src),
    {
        match src {
            Arg::Reg8(reg) => self.registers.read(reg),
            Arg::Imm8(value) => value,
            _ => self.memory.read(self.registers.read(Reg16::HL)),
        }
    }

    /// Stores a byte in an operand.
    fn write_operand(&mut self, dst: Arg, value: u8)
        requires
            old(self).wf(),
            is_target(dst),
        ensures
            final(self)@ == old(self)@.stored(dst, value),
            final(self).wf(),
    {
        match dst {
            Arg::Reg8(reg) => self.registers.write(reg, value),
            _ => {
                let addr = self.registers.read(Reg16::HL);
                self.memory.write(addr, value);
            },
        }
    }

    fn set_flags(&mut self, r: AluResult)
        requires
            old(self).wf(),
        ensures
            final(self)@ == old(self)@.flagged(r),
            final(self).wf(),
    {
        self.registers.set_flags(r.z, r.n, r.h, r.c);
    }

    /// Rotates an operand: to the left or the right, through the carry or not, and in the
    /// accumulator's own form, which never sets the zero flag, or not.
    pub fn rotate(&mut self, dst: Arg, left: bool, through: bool, a: bool)
        requires
            old(self).wf(),
            is_target(dst),
        ensures
            final(self)@ == old(self)@.rotated_in(dst, left, through, a),
            final(self).wf(),
    {
        reveal(CpuView::rotated_in);
        let r = rotate_byte(self.read_operand(dst), left, through, self.registers.carry());
        self.write_operand(dst, r.value);
        self.set_flags(AluResult { z: r.z && !a, ..r });
    }

    /// Shifts an operand.
    pub fn shift(&mut self, dst: Arg, left: bool, arithmetic: bool)
        requires
            old(self).wf(),
            is_target(dst),
        ensures
            final(self)@ == old(self)@.shifted_in(dst, left, arithmetic),
            final(self).wf(),
    {
        reveal(CpuView::shifted_in);
        let r = shift_byte(self.read_operand(dst), left, arithmetic);
        self.write_operand(dst, r.value);
        self.set_flags(r);
    }

    /// Takes a word off the stack.
    pub fn pop(&mut self) -> (r: u16)
        requires
            old(self).wf(),
        ensures
            r == old(self)@.top(),
            final(self)@ == old(self)@.popped(),
            final(self).wf(),
    {
        let lower = self.memory.read(self.registers.SP);
        let upper = self.memory.read(self.registers.SP.wrapping_add(1));
        self.registers.SP = self.registers.SP.wrapping_add(2);
        256 * (upper as u16) + lower as u16
    }

    /// Puts a word on the stack.
    pub fn push(&mut self, value: u16)
        requires
            old(self).wf(),
        ensures
            final(self)@ == old(self)@.pushed(value),
            final(self).wf(),
    {
        let lower: u8 = (value % 256) as u8;
        let upper: u8 = (value / 256) as u8;
        let sp = self.registers.SP;
        self.memory.write(sp.wrapping_sub(1), upper);
        self.memory.write(sp.wrapping_sub(2), lower);
        self.registers.SP = sp.wrapping_sub(2);
    }

    /// Adds to the accumulator.
    pub fn add(&mut self, src: Arg)
        requires
            old(self).wf(),
            is_source(src),
        ensures
            final(self)@ == old(self)@.accumulated(
                sum(old(self)@.registers.r8(Reg8::A), old(self)@.operand(src), false),
            ),
            final(self).wf(),
    {
        let r = add_bytes(self.registers.read(Reg8::A), self.read_operand(src), false);
        self.write_operand(Arg::Reg8(Reg8::A), r.value);
        self.set_flags(r);
    }

    /// Adds to the accumulator, with the carry.
    pub fn adc(&mut self, src: Arg)
        requires
            old(self).wf(),
            is_source(src),
        ensures
            final(self)@ == old(self)@.accumulated(
                sum(
                    old(self)@.registers.r8(Reg8::A),
                    old(self)@.operand(src),
                    old(self)@.registers.flag(Flag::Carry),
                ),
            ),
            final(self).wf(),
    {
        let carry = self.registers.carry();
        let r = add_bytes(self.registers.read(Reg8::A), self.read_operand(src), carry);
        self.write_operand(Arg::Reg8(Reg8::A), r.value);
        self.set_flags(r);
    }

    /// Adds a word to `HL`.
    pub fn add_hl(&mut self, src: Reg16)
        requires
            old(self).wf(),
        ensures
            final(self)@ == old(self)@.hl_added(src),
            final(self).wf(),
    {
        reveal(CpuView::hl_added);
        let hl: u16 = self.registers.read(Reg16::HL);
        let val: u16 = self.registers.read(src);
        let zero = self.registers.zero();
        let half_carry = hl % 4096 + val % 4096 > 4095;
        let carry = hl as u32 + val as u32 > 0xFFFF;
        self.registers.write(Reg16::HL, hl.wrapping_add(val));
        self.registers.set_flags(zero, false, half_carry, carry);
    }

    /// Subtracts from the accumulator, or only compares.
    pub fn sub(&mut self, src: Arg, write: bool)
        requires
            old(self).wf(),
            is_source(src),
        ensures
            ({
                let r = difference(old(self)@.registers.r8(Reg8::A), old(self)@.operand(src), false);
                final(self)@ == if write {
                    old(self)@.accumulated(r)
                } else {
                    old(self)@.flagged(r)
                }
            }),
            final(self).wf(),
    {
        let r = sub_bytes(self.registers.read(Reg8::A), self.read_operand(src), false);
        if write {
            self.write_operand(Arg::Reg8(Reg8::A), r.value);
        }
        self.set_flags(r);
    }

    /// Subtracts from the accumulator, with the carry.
    pub fn sbc(&mut self, src: Arg)
        requires
            old(self).wf(),
            is_source(src),
        ensures
            final(self)@ == old(self)@.accumulated(
                difference(
                    old(self)@.registers.r8(Reg8::A),
                    old(self)@.operand(src),
                    old(self)@.registers.flag(Flag::Carry),
                ),
            ),
            final(self).wf(),
    {
        let carry = self.registers.carry();
        let r = sub_bytes(self.registers.read(Reg8::A), self.read_operand(src), carry);
        self.write_operand(Arg::Reg8(Reg8::A), r.value);
        self.set_flags(r);
    }

    /// Combines the accumulator with an operand, bit by bit.
    pub fn logical(&mut self, src: Arg, op: LogicalOp)
        requires
            old(self).wf(),
            is_source(src),
        ensures
            final(self)@ == old(self)@.accumulated(
                logical_of(old(self)@.registers.r8(Reg8::A), old(self)@.operand(src), op),
            ),
            final(self).wf(),
    {
        let r = logical_bytes(self.registers.read(Reg8::A), self.read_operand(src), op);
        self.write_operand(Arg::Reg8(Reg8::A), r.value);
        self.set_flags(r);
    }

    /// Increments an operand.
    pub fn inc(&mut self, dst: Arg)
        requires
            old(self).wf(),
            is_target(dst) || dst is Reg16,
        ensures
            final(self)@ == old(self)@.incremented(dst),
            final(self).wf(),
    {
        reveal(CpuView::incremented);
        match dst {
            Arg::Reg16(reg) => {
                let value: u16 = self.registers.read(reg);
                self.registers.write(reg, value.wrapping_add(1));
            },
            _ => {
                let carry = self.registers.carry();
                let r = add_bytes(self.read_operand(dst), 1, false);
                self.write_operand(dst, r.value);
                self.set_flags(AluResult { c: carry, ..r });
            },
        }
    }

    /// Decrements an operand.
    pub fn dec(&mut self, dst: Arg)
        requires
            old(self).wf(),
            is_target(dst) || dst is Reg16,
        ensures
            final(self)@ == old(self)@.decremented(dst),
            final(self).wf(),
    {
        reveal(CpuView::decremented);
        match dst {
            Arg::Reg16(reg) => {
                let value: u16 = self.registers.read(reg);
                self.registers.write(reg, value.wrapping_sub(1));
            },
            _ => {
                let carry = self.registers.carry();
                let r = sub_bytes(self.read_operand(dst), 1, false);
                self.write_operand(dst, r.value);
                self.set_flags(AluResult { c: carry, ..r });
            },
        }
    }

    /// Sets or clears a bit of an operand.
    pub fn set(&mut self, dst: Arg, bit: u8, reset: bool)
        requires
            old(self).wf(),
            is_target(dst),
            bit < 8,
        ensures
            final(self)@ == old(self)@.bit_put(dst, bit, !reset),
            final(self).wf(),
    {
        reveal(CpuView::bit_put);
        let value = self.read_operand(dst);
        let result: u8 = if !reset { value | (1u8 << bit) } else { value & !(1u8 << bit) };
        self.write_operand(dst, result);
    }

    /// Adjusts the accumulator to decimal digits after an addition or a subtraction.
    pub fn daa(&mut self)
        requires
            old(self).wf(),
        ensures
            final(self)@ == old(self)@.decimal_adjusted(),
            final(self).wf(),
    {
        reveal(CpuView::decimal_adjusted);
        let subtract = self.registers.subtract();
        let (value, carry) = adjust_byte(
            self.registers.read(Reg8::A),
            subtract,
            self.registers.half_carry(),
            self.registers.carry(),
        );
        self.write_operand(Arg::Reg8(Reg8::A), value);
        self.set_flags(AluResult { value, z: value == 0, n: subtract, h: false, c: carry });
    }

    /// Changes to the other speed.
    fn speed_switch(&mut self)
        requires
            old(self).wf(),
        ensures
            final(self)@ == old(self)@.speed_switched(),
            final(self).wf(),
    {
        reveal(MemoryBus::contents);
        reveal(MemoryBus::wf);
        if !self.speed {
            self.memory.io.prep_speed_switch = 0x80;
            self.speed = true;
        } else {
            self.memory.io.prep_speed_switch = 0;
            self.speed = false;
        }
        self.stopped = true;
        assert(self.memory@ =~= old(self)@.speed_switched().bus);
    }
}

} // verus!
