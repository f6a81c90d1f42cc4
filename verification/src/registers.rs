//! Registers of the processor.
use vstd::prelude::*;

use crate::codec::{
    found_at, le16, lemma_found_split, lemma_u16_found, put_u16, take_u16, take_u8, u16_at,
};
use crate::error::Error;

verus! {

/// 8-bit registers.
#[derive(Clone, Copy, Debug, PartialEq, Eq, Structural)]
pub enum Reg8 {
    A,
    F,
    B,
    C,
    D,
    E,
    H,
    L,
}

/// 16-bit registers; the first four are pairs of 8-bit registers.
#[derive(Clone, Copy, Debug, PartialEq, Eq, Structural)]
pub enum Reg16 {
    AF,
    BC,
    DE,
    HL,
    SP,
    PC,
}

/// Flags, which are bits of `F`.
#[derive(Clone, Copy, Debug, PartialEq, Eq, Structural)]
pub enum Flag {
    Zero,
    Subtract,
    HalfCarry,
    Carry,
}

impl Flag {
    /// The value of the flag's bit.
    pub open spec fn spec_weight(self) -> u8 {
        match self {
            Flag::Zero => 128,
            Flag::Subtract => 64,
            Flag::HalfCarry => 32,
            Flag::Carry => 16,
        }
    }

    /// The value of the flag's bit.
    pub fn weight(self) -> (r: u8)
        ensures
            r == self.spec_weight(),
    {
        match self {
            Flag::Zero => 128,
            Flag::Subtract => 64,
            Flag::HalfCarry => 32,
            Flag::Carry => 16,
        }
    }
}

/// Reading and writing of registers of one width.
pub trait RegisterOps<R, V> {
    fn read(&self, reg: R) -> V;

    fn write(&mut self, reg: R, value: V);
}

/// All registers.
#[allow(non_snake_case)]
#[derive(Clone, Copy, Debug, PartialEq, Eq, Structural)]
pub struct RegisterFile {
    pub A: u8,
    pub F: u8,
    pub B: u8,
    pub C: u8,
    pub D: u8,
    pub E: u8,
    pub H: u8,
    pub L: u8,
    /// Stack pointer.
    pub SP: u16,
    /// Program counter.
    pub PC: u16,
}

/// The value of a register pair.
pub open spec fn pair(high: u8, low: u8) -> u16 {
    (256 * high + low) as u16
}

/// The flag is set in `f`.
pub open spec fn flag_in(f: u8, flag: Flag) -> bool {
    match flag {
        Flag::Zero => (f / 128) % 2 == 1,
        Flag::Subtract => (f / 64) % 2 == 1,
        Flag::HalfCarry => (f / 32) % 2 == 1,
        Flag::Carry => (f / 16) % 2 == 1,
    }
}

/// `f` with one flag set or cleared.
pub open spec fn flag_put(f: u8, flag: Flag, on: bool) -> u8 {
    if on && !flag_in(f, flag) {
        (f + flag.spec_weight()) as u8
    } else if !on && flag_in(f, flag) {
        (f - flag.spec_weight()) as u8
    } else {
        f
    }
}

/// One for a set flag.
pub open spec fn bit_of(on: bool) -> int {
    if on {
        1
    } else {
        0
    }
}

impl RegisterFile {
    /// Bytes of the stored form.
    pub open spec fn spec_len() -> int {
        12
    }

    pub open spec fn zeroed() -> RegisterFile {
        RegisterFile { A: 0, F: 0, B: 0, C: 0, D: 0, E: 0, H: 0, L: 0, SP: 0, PC: 0 }
    }

    /// The registers as the boot program leaves them.
    pub open spec fn booted(cgb: bool) -> RegisterFile {
        if cgb {
            RegisterFile {
                A: 0x11,
                F: 0x80,
                B: 0,
                C: 0,
                D: 0xFF,
                E: 0x56,
                H: 0,
                L: 0x0D,
                SP: 0xFFFE,
                PC: 0x0100,
            }
        } else {
            RegisterFile {
                A: 0x01,
                F: 0xB0,
                B: 0,
                C: 0x13,
                D: 0,
                E: 0xD8,
                H: 0x01,
                L: 0x4D,
                SP: 0xFFFE,
                PC: 0x0100,
            }
        }
    }

    /// The value of an 8-bit register.
    #[verifier::opaque]
    pub open spec fn r8(self, reg: Reg8) -> u8 {
        match reg {
            Reg8::A => self.A,
            Reg8::F => self.F,
            Reg8::B => self.B,
            Reg8::C => self.C,
            Reg8::D => self.D,
            Reg8::E => self.E,
            Reg8::H => self.H,
            Reg8::L => self.L,
        }
    }

    /// The registers with one of them set. The low half of `F` does not exist.
    #[verifier::opaque]
    pub open spec fn with_r8(self, reg: Reg8, value: u8) -> RegisterFile {
        match reg {
            Reg8::A => RegisterFile { A: value, ..self },
            Reg8::F => RegisterFile { F: (value - value % 16) as u8, ..self },
            Reg8::B => RegisterFile { B: value, ..self },
            Reg8::C => RegisterFile { C: value, ..self },
            Reg8::D => RegisterFile { D: value, ..self },
            Reg8::E => RegisterFile { E: value, ..self },
            Reg8::H => RegisterFile { H: value, ..self },
            Reg8::L => RegisterFile { L: value, ..self },
        }
    }

    /// The value of a 16-bit register.
    #[verifier::opaque]
    pub open spec fn r16(self, reg: Reg16) -> u16 {
        match reg {
            Reg16::AF => pair(self.A, self.F),
            Reg16::BC => pair(self.B, self.C),
            Reg16::DE => pair(self.D, self.E),
            Reg16::HL => pair(self.H, self.L),
            Reg16::SP => self.SP,
            Reg16::PC => self.PC,
        }
    }

    /// The registers with a 16-bit one set.
    #[verifier::opaque]
    pub open spec fn with_r16(self, reg: Reg16, value: u16) -> RegisterFile {
        let high = (value / 256) as u8;
        let low = (value % 256) as u8;
        match reg {
            Reg16::AF => RegisterFile { A: high, F: (low - low % 16) as u8, ..self },
            Reg16::BC => RegisterFile { B: high, C: low, ..self },
            Reg16::DE => RegisterFile { D: high, E: low, ..self },
            Reg16::HL => RegisterFile { H: high, L: low, ..self },
            Reg16::SP => RegisterFile { SP: value, ..self },
            Reg16::PC => RegisterFile { PC: value, ..self },
        }
    }

    /// The flag is set.
    #[verifier::opaque]
    pub open spec fn flag(self, flag: Flag) -> bool {
        flag_in(self.F, flag)
    }

    /// The registers with one flag set or cleared.
    #[verifier::opaque]
    pub open spec fn with_flag(self, flag: Flag, on: bool) -> RegisterFile {
        RegisterFile { F: flag_put(self.F, flag, on), ..self }
    }

    /// The registers with all four flags given.
    #[verifier::opaque]
    pub open spec fn with_flags(self, z: bool, n: bool, h: bool, c: bool) -> RegisterFile {
        RegisterFile {
            F: (128 * bit_of(z) + 64 * bit_of(n) + 32 * bit_of(h) + 16 * bit_of(c) + self.F % 16)
                as u8,
            ..self
        }
    }

    /// The stored form.
    pub open spec fn encode(self) -> Seq<u8> {
        seq![self.A, self.F, self.B, self.C, self.D, self.E, self.H, self.L] + le16(self.SP) + le16(
            self.PC,
        )
    }

    /// What is stored at `i`.
    pub open spec fn decode(s: Seq<u8>, i: int) -> RegisterFile {
        RegisterFile {
            A: s[i],
            F: s[i + 1],
            B: s[i + 2],
            C: s[i + 3],
            D: s[i + 4],
            E: s[i + 5],
            H: s[i + 6],
            L: s[i + 7],
            SP: u16_at(s, i + 8),
            PC: u16_at(s, i + 10),
        }
    }

    /// A register that is written is read back, but for the missing half of `F`.
    pub proof fn law_written_is_read(self, reg8: Reg8, value8: u8, reg16: Reg16, value16: u16)
        ensures
            reg8 != Reg8::F ==> self.with_r8(reg8, value8).r8(reg8) == value8,
            self.with_r8(Reg8::F, value8).F == value8 - value8 % 16,
            reg16 != Reg16::AF ==> self.with_r16(reg16, value16).r16(reg16) == value16,
            self.with_r16(Reg16::AF, value16).r16(Reg16::AF) == value16 - value16 % 16,
    {
        reveal(RegisterFile::r8);
        reveal(RegisterFile::with_r8);
        reveal(RegisterFile::r16);
        reveal(RegisterFile::with_r16);
    }

    /// Each of four flags that are set together is read back.
    pub proof fn law_flags_are_read(self, z: bool, n: bool, h: bool, c: bool)
        ensures
            self.with_flags(z, n, h, c).flag(Flag::Zero) == z,
            self.with_flags(z, n, h, c).flag(Flag::Subtract) == n,
            self.with_flags(z, n, h, c).flag(Flag::HalfCarry) == h,
            self.with_flags(z, n, h, c).flag(Flag::Carry) == c,
            self.with_flags(z, n, h, c).F % 16 == self.F % 16,
    {
        reveal(RegisterFile::flag);
        reveal(RegisterFile::with_flags);
    }

    /// A flag that is set is read back, and the other flags stay.
    pub proof fn law_flag_is_read(self, flag: Flag, on: bool, other: Flag)
        ensures
            self.with_flag(flag, on).flag(flag) == on,
            other != flag ==> self.with_flag(flag, on).flag(other) == self.flag(other),
    {
        reveal(RegisterFile::flag);
        reveal(RegisterFile::with_flag);
        reveal(RegisterFile::with_flags);
        let (z, n, h, c) = (
            self.flag(Flag::Zero),
            self.flag(Flag::Subtract),
            self.flag(Flag::HalfCarry),
            self.flag(Flag::Carry),
        );
        self.lemma_flags_make_up_f();
        match flag {
            Flag::Zero => self.law_flags_are_read(on, n, h, c),
            Flag::Subtract => self.law_flags_are_read(z, on, h, c),
            Flag::HalfCarry => self.law_flags_are_read(z, n, on, c),
            Flag::Carry => self.law_flags_are_read(z, n, h, on),
        }
    }

    proof fn lemma_flags_make_up_f(self)
        ensures
            self.F == 128 * bit_of(self.flag(Flag::Zero)) + 64 * bit_of(self.flag(Flag::Subtract))
                + 32 * bit_of(self.flag(Flag::HalfCarry)) + 16 * bit_of(self.flag(Flag::Carry))
                + self.F % 16,
    {
        reveal(RegisterFile::flag);
    }

    /// Registers that were saved are loaded unchanged.
    pub proof fn law_load_restores_saved(self, s: Seq<u8>, i: int)
        requires
            found_at(s, i, self.encode()),
        ensures
            self.encode().len() == Self::spec_len(),
            Self::decode(s, i) == self,
    {
        let head = seq![self.A, self.F, self.B, self.C, self.D, self.E, self.H, self.L];
        lemma_found_split(s, i, head + le16(self.SP), le16(self.PC));
        lemma_found_split(s, i, head, le16(self.SP));
        lemma_u16_found(s, i + 8, self.SP);
        lemma_u16_found(s, i + 10, self.PC);
        assert(s[i + 0] == head[0]);
        assert(s[i + 1] == head[1]);
        assert(s[i + 2] == head[2]);
        assert(s[i + 3] == head[3]);
        assert(s[i + 4] == head[4]);
        assert(s[i + 5] == head[5]);
        assert(s[i + 6] == head[6]);
        assert(s[i + 7] == head[7]);
    }

    /// All registers zero.
    pub fn empty() -> (r: Self)
        ensures
            r == Self::zeroed(),
    {
        Self { A: 0, F: 0, B: 0, C: 0, D: 0, E: 0, H: 0, L: 0, SP: 0, PC: 0 }
    }

    /// The registers as the boot program leaves them.
    pub fn new(cgb: bool) -> (r: Self)
        ensures
            r == Self::booted(cgb),
    {
        if cgb {
            Self {
                A: 0x11,
                F: 0x80,
                B: 0,
                C: 0,
                D: 0xFF,
                E: 0x56,
                H: 0,
                L: 0x0D,
                SP: 0xFFFE,
                PC: 0x0100,
            }
        } else {
            Self {
                A: 0x01,
                F: 0xB0,
                B: 0,
                C: 0x13,
                D: 0,
                E: 0xD8,
                H: 0x01,
                L: 0x4D,
                SP: 0xFFFE,
                PC: 0x0100,
            }
        }
    }

    pub fn zero(&self) -> (r: bool)
        ensures
            r == self.flag(Flag::Zero),
    {
        reveal(RegisterFile::flag);
        (self.F / 128) % 2 == 1
    }

    pub fn subtract(&self) -> (r: bool)
        ensures
            r == self.flag(Flag::Subtract),
    {
        reveal(RegisterFile::flag);
        (self.F / 64) % 2 == 1
    }

    pub fn half_carry(&self) -> (r: bool)
        ensures
            r == self.flag(Flag::HalfCarry),
    {
        reveal(RegisterFile::flag);
        (self.F / 32) % 2 == 1
    }

    pub fn carry(&self) -> (r: bool)
        ensures
            r == self.flag(Flag::Carry),
    {
        reveal(RegisterFile::flag);
        (self.F / 16) % 2 == 1
    }

    /// Sets or clears a flag.
    pub fn set(&mut self, flag: Flag, on: bool)
        ensures
            *final(self) == old(self).with_flag(flag, on),
    {
        reveal(RegisterFile::flag);
        reveal(RegisterFile::with_flag);
        let current = match flag {
            Flag::Zero => self.zero(),
            Flag::Subtract => self.subtract(),
            Flag::HalfCarry => self.half_carry(),
            Flag::Carry => self.carry(),
        };
        if on && !current {
            self.F = self.F + flag.weight();
        } else if !on && current {
            self.F = self.F - flag.weight();
        }
    }

    /// Clears a flag.
    pub fn clear(&mut self, flag: Flag)
        ensures
            *final(self) == old(self).with_flag(flag, false),
    {
        self.set(flag, false);
    }

    /// Gives all four flags.
    pub fn set_flags(&mut self, z: bool, n: bool, h: bool, c: bool)
        ensures
            *final(self) == old(self).with_flags(z, n, h, c),
    {
        reveal(RegisterFile::with_flags);
        self.F = 128 * (z as u8) + 64 * (n as u8) + 32 * (h as u8) + 16 * (c as u8) + self.F % 16;
    }

    /// Appends the stored form.
    pub fn save_to_bytes(&self, buf: &mut Vec<u8>)
        ensures
            final(buf)@ == old(buf)@ + self.encode(),
    {
        buf.push(self.A);
        buf.push(self.F);
        buf.push(self.B);
        buf.push(self.C);
        buf.push(self.D);
        buf.push(self.E);
        buf.push(self.H);
        buf.push(self.L);
        put_u16(buf, self.SP);
        put_u16(buf, self.PC);
        assert(buf@ =~= old(buf)@ + self.encode());
    }

    /// Restores registers that are stored at the cursor.
    pub fn load_from_bytes(data: &[u8], pos: &mut usize) -> (r: Result<Self, Error>)
        requires
            *old(pos) + Self::spec_len() <= data@.len(),
        ensures
            r == Ok::<Self, Error>(Self::decode(data@, *old(pos) as int)),
            *final(pos) == *old(pos) + Self::spec_len(),
    {
        let a = take_u8(data, pos);
        let f = take_u8(data, pos);
        let b = take_u8(data, pos);
        let c = take_u8(data, pos);
        let d = take_u8(data, pos);
        let e = take_u8(data, pos);
        let h = take_u8(data, pos);
        let l = take_u8(data, pos);
        let sp = take_u16(data, pos);
        let pc = take_u16(data, pos);
        Ok(Self { A: a, F: f, B: b, C: c, D: d, E: e, H: h, L: l, SP: sp, PC: pc })
    }
}

impl RegisterOps<Reg8, u8> for RegisterFile {
    fn read(&self, reg: Reg8) -> (r: u8)
        ensures
            r == self.r8(reg),
    {
        reveal(RegisterFile::r8);
        match reg {
            Reg8::A => self.A,
            Reg8::F => self.F,
            Reg8::B => self.B,
            Reg8::C => self.C,
            Reg8::D => self.D,
            Reg8::E => self.E,
            Reg8::H => self.H,
            Reg8::L => self.L,
        }
    }

    fn write(&mut self, reg: Reg8, value: u8)
        ensures
            *final(self) == old(self).with_r8(reg, value),
    {
        reveal(RegisterFile::with_r8);
        match reg {
            Reg8::A => {
                self.A = value;
            },
            Reg8::F => {
                self.F = value - value % 16;
            },
            Reg8::B => {
                self.B = value;
            },
            Reg8::C => {
                self.C = value;
            },
            Reg8::D => {
                self.D = value;
            },
            Reg8::E => {
                self.E = value;
            },
            Reg8::H => {
                self.H = value;
            },
            Reg8::L => {
                self.L = value;
            },
        }
    }
}

impl RegisterOps<Reg16, u16> for RegisterFile {
    fn read(&self, reg: Reg16) -> (r: u16)
        ensures
            r == self.r16(reg),
    {
        reveal(RegisterFile::r16);
        match reg {
            Reg16::AF => 256 * (self.A as u16) + self.F as u16,
            Reg16::BC => 256 * (self.B as u16) + self.C as u16,
            Reg16::DE => 256 * (self.D as u16) + self.E as u16,
            Reg16::HL => 256 * (self.H as u16) + self.L as u16,
            Reg16::SP => self.SP,
            Reg16::PC => self.PC,
        }
    }

    fn write(&mut self, reg: Reg16, value: u16)
        ensures
            *final(self) == old(self).with_r16(reg, value),
    {
        reveal(RegisterFile::with_r16);
        let high: u8 = (value / 256) as u8;
        let low: u8 = (value % 256) as u8;
        match reg {
            Reg16::AF => {
                self.A = high;
                self.F = low - low % 16;
            },
            Reg16::BC => {
                self.B = high;
                self.C = low;
            },
            Reg16::DE => {
                self.D = high;
                self.E = low;
            },
            Reg16::HL => {
                self.H = high;
                self.L = low;
            },
            Reg16::SP => {
                self.SP = value;
            },
            Reg16::PC => {
                self.PC = value;
            },
        }
    }
}

impl RegisterFile {
    /// Where the registers lie in the stored form: the bytes, then the stack pointer and the
    /// program counter, lowest byte first.
    pub proof fn law_stored_places(self)
        ensures
            ({
                let e = self.encode();
                &&& e.len() == 12
                &&& e[0] == self.A && e[1] == self.F && e[2] == self.B && e[3] == self.C
                &&& e[4] == self.D && e[5] == self.E && e[6] == self.H && e[7] == self.L
                &&& e[8] + 256 * e[9] == self.SP
                &&& e[10] + 256 * e[11] == self.PC
            }),
    {
    }
}

} // verus!
