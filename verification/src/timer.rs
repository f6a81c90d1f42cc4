//! Timer and divider.
use vstd::prelude::*;

use crate::bits::{bit, lemma_mask_tests_bit};
use crate::codec::{
    found_at, le16, lemma_found_split, lemma_u16_found, put_u16, take_u16, take_u8, u16_at,
};

verus! {

/// Timer. The divider counts cycles; the counter counts at one of four rates, and when it
/// overflows it starts again at the modulo and raises an interrupt.
#[derive(Clone, Copy, Debug, PartialEq, Eq, Structural)]
pub struct Timer {
    /// Cycles; the high half is the divider register (0xFF04).
    pub divider: u16,
    /// Cycles since the counter last moved.
    pub cycles: u16,
    /// Counter (0xFF05).
    pub counter: u8,
    /// Modulo (0xFF06).
    pub modulo: u8,
    /// Control (0xFF07).
    pub control: u8,
}

impl Timer {
    /// Bytes of the stored form.
    pub open spec fn spec_len() -> int {
        7
    }

    pub open spec fn zero() -> Timer {
        Timer { divider: 0, cycles: 0, counter: 0, modulo: 0, control: 0 }
    }

    /// The counter runs.
    pub open spec fn running(self) -> bool {
        self.control & 0x04 != 0
    }

    /// Cycles between two moves of the counter.
    pub open spec fn spec_period(self) -> u16 {
        let rate = self.control % 4;
        if rate == 0 {
            1024
        } else if rate == 1 {
            16
        } else if rate == 2 {
            64
        } else {
            256
        }
    }

    /// The counter after `n` moves.
    pub open spec fn counted(self, n: nat) -> u8
        decreases n,
    {
        if n == 0 {
            self.counter
        } else {
            let before = self.counted((n - 1) as nat);
            if before == 0xFF {
                self.modulo
            } else {
                (before + 1) as u8
            }
        }
    }

    /// One of the first `n` moves overflows.
    pub open spec fn overflows(self, n: nat) -> bool
        decreases n,
    {
        n > 0 && (self.counted((n - 1) as nat) == 0xFF || self.overflows((n - 1) as nat))
    }

    /// Moves of the counter within `cycles` cycles.
    pub open spec fn moves(self, cycles: u16) -> nat {
        if self.running() {
            ((self.cycles + cycles) / self.spec_period() as int) as nat
        } else {
            0
        }
    }

    /// The timer after `cycles` cycles.
    pub open spec fn stepped(self, cycles: u16) -> Timer {
        Timer {
            divider: self.divider.wrapping_add(cycles),
            cycles: if self.running() {
                ((self.cycles + cycles) % self.spec_period() as int) as u16
            } else {
                self.cycles
            },
            counter: self.counted(self.moves(cycles)),
            ..self
        }
    }

    /// The value of a register.
    pub open spec fn register(self, addr: u16) -> u8 {
        if addr == 0xFF04 {
            (self.divider / 256) as u8
        } else if addr == 0xFF05 {
            self.counter
        } else if addr == 0xFF06 {
            self.modulo
        } else {
            self.control | 0xF8
        }
    }

    /// The timer after a write to a register. Any write clears the divider.
    pub open spec fn written(self, addr: u16, value: u8) -> Timer {
        if addr == 0xFF04 {
            Timer { divider: 0, cycles: 0, ..self }
        } else if addr == 0xFF05 {
            Timer { counter: value, ..self }
        } else if addr == 0xFF06 {
            Timer { modulo: value, ..self }
        } else {
            Timer { control: value % 8, ..self }
        }
    }

    /// The stored form.
    pub open spec fn encode(self) -> Seq<u8> {
        le16(self.divider) + le16(self.cycles) + seq![self.counter, self.modulo, self.control]
    }

    /// What is stored at `i`.
    pub open spec fn decode(s: Seq<u8>, i: int) -> Timer {
        Timer {
            divider: u16_at(s, i),
            cycles: u16_at(s, i + 2),
            counter: s[i + 4],
            modulo: s[i + 5],
            control: s[i + 6],
        }
    }

    pub fn new() -> (r: Self)
        ensures
            r == Self::zero(),
    {
        Self { divider: 0, cycles: 0, counter: 0, modulo: 0, control: 0 }
    }

    /// Runs the timer for some cycles and says whether its counter overflowed.
    pub fn step(&mut self, cycles: u16) -> (r: bool)
        ensures
            *final(self) == old(self).stepped(cycles),
            r == old(self).overflows(old(self).moves(cycles)),
    {
        self.divider = self.divider.wrapping_add(cycles);
        if self.control & 0x04 == 0 {
            return false;
        }
        let rate: u8 = self.control % 4;
        let period: u32 = if rate == 0 {
            1024
        } else if rate == 1 {
            16
        } else if rate == 2 {
            64
        } else {
            256
        };
        let total: u32 = self.cycles as u32 + cycles as u32;
        let moves: u32 = total / period;
        self.cycles = (total % period) as u16;
        let ghost start = *old(self);
        let mut counter = self.counter;
        let mut overflow = false;
        let mut done: u32 = 0;
        while done < moves
            invariant
                done <= moves,
                counter == start.counted(done as nat),
                overflow == start.overflows(done as nat),
                self.modulo == start.modulo,
            decreases moves - done,
        {
            done = done + 1;
            if counter == 0xFF {
                counter = self.modulo;
                overflow = true;
            } else {
                counter = counter + 1;
            }
        }
        self.counter = counter;
        overflow
    }

    /// Reads a register.
    pub fn read(&self, addr: u16) -> (r: u8)
        requires
            0xFF04 <= addr <= 0xFF07,
        ensures
            r == self.register(addr),
    {
        match addr {
            0xFF04 => (self.divider / 256) as u8,
            0xFF05 => self.counter,
            0xFF06 => self.modulo,
            _ => self.control | 0xF8,
        }
    }

    /// Writes a register.
    pub fn write(&mut self, addr: u16, value: u8)
        requires
            0xFF04 <= addr <= 0xFF07,
        ensures
            *final(self) == old(self).written(addr, value),
    {
        match addr {
            0xFF04 => {
                self.divider = 0;
                self.cycles = 0;
            },
            0xFF05 => {
                self.counter = value;
            },
            0xFF06 => {
                self.modulo = value;
            },
            _ => {
                self.control = value % 8;
            },
        }
    }

    /// Appends the stored form.
    pub fn save_to_bytes(&self, buf: &mut Vec<u8>)
        ensures
            final(buf)@ == old(buf)@ + self.encode(),
    {
        put_u16(buf, self.divider);
        put_u16(buf, self.cycles);
        buf.push(self.counter);
        buf.push(self.modulo);
        buf.push(self.control);
        assert(buf@ =~= old(buf)@ + self.encode());
    }

    /// Restores a timer that is stored at the cursor.
    pub fn load_from_bytes(data: &[u8], pos: &mut usize) -> (r: Self)
        requires
            *old(pos) + Self::spec_len() <= data@.len(),
        ensures
            r == Self::decode(data@, *old(pos) as int),
            *final(pos) == *old(pos) + Self::spec_len(),
    {
        let divider = take_u16(data, pos);
        let cycles = take_u16(data, pos);
        let counter = take_u8(data, pos);
        let modulo = take_u8(data, pos);
        let control = take_u8(data, pos);
        Self { divider, cycles, counter, modulo, control }
    }

    /// A timer that was saved is loaded unchanged.
    pub proof fn law_load_restores_saved(self, s: Seq<u8>, i: int)
        requires
            found_at(s, i, self.encode()),
        ensures
            self.encode().len() == Self::spec_len(),
            Self::decode(s, i) == self,
    {
        let head = le16(self.divider) + le16(self.cycles);
        let tail = seq![self.counter, self.modulo, self.control];
        lemma_found_split(s, i, head, tail);
        lemma_found_split(s, i, le16(self.divider), le16(self.cycles));
        lemma_u16_found(s, i, self.divider);
        lemma_u16_found(s, i + 2, self.cycles);
        assert(s[i + 4 + 0] == tail[0]);
        assert(s[i + 4 + 1] == tail[1]);
        assert(s[i + 4 + 2] == tail[2]);
    }

    /// A counter that does not reach its end counts every move and raises nothing.
    pub proof fn law_counts_up(self, n: nat)
        requires
            self.counter + n <= 0xFF,
        ensures
            self.counted(n) == self.counter + n,
            !self.overflows(n),
        decreases n,
    {
        if n > 0 {
            self.law_counts_up((n - 1) as nat);
        }
    }
}

impl Timer {
    /// The counter runs with bit 2 of the control register, at a rate that bits 0 and 1
    /// choose: once in 1024, 16, 64 or 256 cycles. Cycles that are left over are kept. The
    /// divider counts all cycles, and nothing else changes.
    pub proof fn law_rates(self, cycles: u16)
        ensures
            ({
                let rate = self.control as int % 4;
                let span = if rate == 0 {
                    1024int
                } else if rate == 1 {
                    16
                } else if rate == 2 {
                    64
                } else {
                    256
                };
                let total = self.cycles + cycles;
                let s = self.stepped(cycles);
                &&& self.moves(cycles) == (if bit(self.control, 2) { total / span } else { 0 })
                &&& s.cycles == (if bit(self.control, 2) {
                    total % span
                } else {
                    self.cycles as int
                })
                &&& s.divider == (self.divider + cycles) % 65536
                &&& s.modulo == self.modulo
                &&& s.control == self.control
                &&& !bit(self.control, 2) ==> s.counter == self.counter
            }),
    {
        lemma_mask_tests_bit(self.control);
    }

    /// The move that takes the counter over its end puts in the modulo and raises the
    /// interrupt; from there it counts on.
    pub proof fn law_overflow_reloads(self, n: nat)
        requires
            self.modulo + n <= 0xFF,
        ensures
            ({
                let last = (256 - self.counter) as nat;
                &&& self.counted(last + n) == self.modulo + n
                &&& self.overflows(last + n)
            }),
        decreases n,
    {
        let last = (256 - self.counter) as nat;
        if n == 0 {
            self.law_counts_up((last - 1) as nat);
        } else {
            self.law_overflow_reloads((n - 1) as nat);
        }
    }

    /// Each register has its own address; a write of any value clears the divider and the
    /// cycles that were left over, the control register has three bits, and its others read
    /// as set.
    pub proof fn law_registers(self, v: u8)
        ensures
            self.register(0xFF04) == self.divider / 256,
            self.register(0xFF05) == self.counter,
            self.register(0xFF06) == self.modulo,
            self.control < 8 ==> self.register(0xFF07) == 248 + self.control,
            self.written(0xFF04, v) == (Timer { divider: 0, cycles: 0, ..self }),
            self.written(0xFF05, v) == (Timer { counter: v, ..self }),
            self.written(0xFF06, v) == (Timer { modulo: v, ..self }),
            self.written(0xFF07, v) == (Timer { control: v % 8, ..self }),
    {
        lemma_control_reads(self.control);
    }
}

proof fn lemma_control_reads(v: u8)
    by (bit_vector)
    ensures
        v < 8 ==> v | 0xF8 == 248 + v,
{
}

} // verus!
