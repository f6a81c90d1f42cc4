//! Noise channel.
use vstd::prelude::*;

use crate::apu::units::{divider, run_divider, LengthCounter, VolumeEnvelope};
use crate::codec::{
    flag_at, flag_byte, found_at, group_found, le16, put_flag, put_u16, take_flag, take_u16,
    take_u8, u16_at,
};

verus! {

/// The envelope register leaves the converter of the channel switched on.
pub fn dac_enabled_ch4(nr42: u8) -> (r: bool)
    ensures
        r == (nr42 & 0xF8 != 0),
{
    nr42 & 0xF8 != 0
}

/// The shift register after one clock: it moves right, and the exclusive or of its two
/// lowest bits comes in at bit 14 and, in the short mode, replaces bit 6 too.
pub open spec fn lfsr_next(lfsr: u16, short: bool) -> u16 {
    let bit = (lfsr & 1) ^ ((lfsr >> 1) & 1);
    let moved = (lfsr >> 1) | (bit << 14);
    if short {
        (moved & 0xFFBF) | (bit << 6)
    } else {
        moved
    }
}

/// The shift register after `n` clocks.
pub open spec fn lfsr_after(lfsr: u16, short: bool, n: nat) -> u16
    decreases n,
{
    if n == 0 {
        lfsr
    } else {
        lfsr_next(lfsr_after(lfsr, short, (n - 1) as nat), short)
    }
}

proof fn lemma_lfsr_next_bits(lfsr: u16)
    by (bit_vector)
    requires
        lfsr != 0,
        lfsr < 0x8000,
    ensures
        (lfsr >> 1) | (((lfsr & 1) ^ ((lfsr >> 1) & 1)) << 14) != 0,
        (lfsr >> 1) | (((lfsr & 1) ^ ((lfsr >> 1) & 1)) << 14) < 0x8000,
{
}

/// In the long mode the shift register never runs dry: from any state of its fifteen
/// bits but zero it never reaches zero, and it stays within fifteen bits.
pub proof fn law_long_noise_never_stops(lfsr: u16, n: nat)
    requires
        0 < lfsr < 0x8000,
    ensures
        0 < lfsr_after(lfsr, false, n) < 0x8000,
    decreases n,
{
    if n > 0 {
        law_long_noise_never_stops(lfsr, (n - 1) as nat);
        lemma_lfsr_next_bits(lfsr_after(lfsr, false, (n - 1) as nat));
    }
}

/// Clocking the shift register in two parts is clocking it once for the whole.
pub proof fn law_lfsr_splits(lfsr: u16, short: bool, a: nat, b: nat)
    ensures
        lfsr_after(lfsr_after(lfsr, short, a), short, b) == lfsr_after(lfsr, short, a + b),
    decreases b,
{
    if b > 0 {
        law_lfsr_splits(lfsr, short, a, (b - 1) as nat);
        assert((a + b - 1) as nat == a + (b - 1) as nat);
    }
}

/// Noise channel.
#[derive(Clone, Copy)]
pub struct NoiseChannel {
    pub initial_vol: u8,
    pub env_direction: bool,
    pub env_period: u8,
    pub divisor_code: u8,
    pub clock_shift: u8,
    /// `true` selects the short sequence.
    pub width_mode: bool,
    pub length_enable: bool,
    pub enabled: bool,
    pub length: LengthCounter,
    pub envelope: VolumeEnvelope,
    /// Shift register.
    pub lfsr: u16,
    pub freq_timer: u16,
}

impl NoiseChannel {
    /// Bytes of the stored form.
    pub open spec fn spec_len() -> int {
        17
    }

    /// The divisor code names a divisor.
    pub open spec fn wf(self) -> bool {
        self.divisor_code < 8
    }

    pub open spec fn zero() -> NoiseChannel {
        NoiseChannel {
            initial_vol: 0,
            env_direction: false,
            env_period: 0,
            divisor_code: 0,
            clock_shift: 0,
            width_mode: false,
            length_enable: false,
            enabled: false,
            length: LengthCounter::zero(),
            envelope: VolumeEnvelope::zero(),
            lfsr: 0x7FFF,
            freq_timer: 0,
        }
    }

    /// The converter is on: the envelope starts above zero or rises.
    pub open spec fn dac_on(self) -> bool {
        self.initial_vol != 0 || self.env_direction
    }

    /// Reload value of the divider: sixteen times the divisor code, or eight for code
    /// zero, shifted left; the low sixteen bits of it.
    pub open spec fn period(self) -> u16 {
        let base = if self.divisor_code == 0 { 8u32 } else { (16 * self.divisor_code) as u32 };
        base.wrapping_shl(self.clock_shift as u32) as u16
    }

    /// The level that the channel puts out, in fifteenths.
    pub open spec fn level(self) -> int {
        if self.enabled && self.dac_on() {
            if self.lfsr % 2 == 0 {
                self.envelope.cur_vol as int
            } else {
                -(self.envelope.cur_vol as int)
            }
        } else {
            0
        }
    }

    /// The channel after `cycles` cycles: the shift register is clocked at each reload
    /// of the divider.
    pub open spec fn stepped(self, cycles: u64) -> NoiseChannel {
        if self.enabled {
            let (timer, reloads) = divider(
                self.freq_timer as int,
                self.period() as int,
                cycles as int,
            );
            NoiseChannel {
                freq_timer: timer as u16,
                lfsr: lfsr_after(self.lfsr, self.width_mode, reloads as nat),
                ..self
            }
        } else {
            self
        }
    }

    /// The channel after a clock of its length counter.
    pub open spec fn length_clocked(self) -> NoiseChannel {
        let (length, enabled) = self.length.clocked(self.enabled);
        NoiseChannel { length, enabled, ..self }
    }

    /// The channel, started over.
    pub open spec fn triggered(self) -> NoiseChannel {
        NoiseChannel {
            enabled: true,
            length: LengthCounter { counter: 64, ..self.length },
            envelope: self.envelope.triggered(),
            lfsr: 0x7FFF,
            freq_timer: self.period(),
            ..self
        }
    }

    /// Write to the envelope register. A value that switches the converter off
    /// switches the channel off too.
    pub open spec fn with_envelope(self, value: u8) -> NoiseChannel {
        NoiseChannel {
            initial_vol: value / 16,
            env_direction: value & 0x08 != 0,
            env_period: value % 8,
            envelope: VolumeEnvelope {
                initial_vol: value / 16,
                direction: value & 0x08 != 0,
                period: value % 8,
                ..self.envelope
            },
            enabled: self.enabled && value & 0xF8 != 0,
            ..self
        }
    }

    /// Write to the register of the noise clock.
    pub open spec fn with_clock(self, value: u8) -> NoiseChannel {
        NoiseChannel {
            clock_shift: value / 16,
            width_mode: value & 0x08 != 0,
            divisor_code: value % 8,
            ..self
        }
    }

    /// Write to the length switch, without the trigger bit.
    pub open spec fn with_length_switch(self, value: u8) -> NoiseChannel {
        NoiseChannel {
            length_enable: value & 0x40 != 0,
            length: LengthCounter { enabled: value & 0x40 != 0, ..self.length },
            ..self
        }
    }

    /// The stored form. The settings of the envelope are not part of it.
    #[verifier::opaque]
    pub open spec fn encode(self) -> Seq<u8> {
        seq![
            self.initial_vol,
            flag_byte(self.env_direction),
            self.env_period,
            self.divisor_code,
            self.clock_shift,
            flag_byte(self.width_mode),
            flag_byte(self.length_enable),
            flag_byte(self.enabled),
        ] + le16(self.length.counter) + seq![
            flag_byte(self.length.enabled),
            self.envelope.cur_vol,
            self.envelope.timer,
        ] + le16(self.lfsr) + le16(self.freq_timer)
    }

    /// This channel with what is stored at `i` put in.
    pub open spec fn decode(self, s: Seq<u8>, i: int) -> NoiseChannel {
        NoiseChannel {
            initial_vol: s[i],
            env_direction: flag_at(s, i + 1),
            env_period: s[i + 2],
            divisor_code: s[i + 3],
            clock_shift: s[i + 4],
            width_mode: flag_at(s, i + 5),
            length_enable: flag_at(s, i + 6),
            enabled: flag_at(s, i + 7),
            length: LengthCounter { counter: u16_at(s, i + 8), enabled: flag_at(s, i + 10) },
            envelope: VolumeEnvelope {
                cur_vol: s[i + 11],
                timer: s[i + 12],
                ..self.envelope
            },
            lfsr: u16_at(s, i + 13),
            freq_timer: u16_at(s, i + 15),
        }
    }

    pub fn new() -> (r: Self)
        ensures
            r == Self::zero(),
            r.wf(),
    {
        Self {
            initial_vol: 0,
            env_direction: false,
            env_period: 0,
            divisor_code: 0,
            clock_shift: 0,
            width_mode: false,
            length_enable: false,
            enabled: false,
            length: LengthCounter::new(),
            envelope: VolumeEnvelope::new(),
            lfsr: 0x7FFF,
            freq_timer: 0,
        }
    }

    /// The channel is audible: switched on, with its converter on.
    pub fn is_on(&self) -> (r: bool)
        ensures
            r == (self.enabled && self.dac_on()),
    {
        self.enabled && self.dac_enabled()
    }

    /// The converter is on.
    pub fn dac_enabled(&self) -> (r: bool)
        ensures
            r == self.dac_on(),
    {
        self.initial_vol != 0 || self.env_direction
    }

    /// Reload value of the divider.
    pub fn noise_period(&self) -> (r: u16)
        requires
            self.wf(),
        ensures
            r == self.period(),
    {
        let base: u32 = if self.divisor_code == 0 {
            8
        } else {
            16 * (self.divisor_code as u32)
        };
        base.wrapping_shl(self.clock_shift as u32) as u16
    }

    /// Runs the channel for `cycles` cycles.
    pub fn step(&mut self, cycles: u64)
        requires
            old(self).wf(),
        ensures
            *final(self) == old(self).stepped(cycles),
            final(self).wf(),
    {
        if !self.enabled {
            return;
        }
        let period = self.noise_period();
        let (timer, reloads) = run_divider(self.freq_timer, period, cycles);
        self.advance_lfsr(reloads);
        self.freq_timer = timer;
    }

    /// Clocks the shift register `count` times.
    pub fn advance_lfsr(&mut self, count: u64)
        ensures
            *final(self) == (NoiseChannel {
                lfsr: lfsr_after(old(self).lfsr, old(self).width_mode, count as nat),
                ..*old(self)
            }),
    {
        let mut done: u64 = 0;
        while done < count
            invariant
                done <= count,
                *self == (NoiseChannel {
                    lfsr: lfsr_after(old(self).lfsr, old(self).width_mode, done as nat),
                    ..*old(self)
                }),
            decreases count - done,
        {
            let bit: u16 = (self.lfsr & 1) ^ ((self.lfsr >> 1) & 1);
            self.lfsr = (self.lfsr >> 1) | (bit << 14);
            if self.width_mode {
                self.lfsr = (self.lfsr & 0xFFBF) | (bit << 6);
            }
            done = done + 1;
        }
    }

    /// The level that the channel puts out, in fifteenths.
    pub fn sample(&self) -> (r: i16)
        ensures
            r == self.level(),
    {
        if !self.is_on() {
            return 0;
        }
        if self.lfsr % 2 == 0 {
            self.envelope.cur_vol as i16
        } else {
            -(self.envelope.cur_vol as i16)
        }
    }

    /// Clocks the length counter.
    pub fn clock_length(&mut self)
        ensures
            *final(self) == old(self).length_clocked(),
            old(self).wf() ==> final(self).wf(),
    {
        self.length.clock(&mut self.enabled);
    }

    /// Starts the channel over.
    pub fn trigger(&mut self)
        requires
            old(self).wf(),
        ensures
            *final(self) == old(self).triggered(),
            final(self).wf(),
    {
        self.enabled = true;
        self.length.trigger(0, 64);
        self.envelope.trigger();
        self.lfsr = 0x7FFF;
        self.freq_timer = self.noise_period();
    }

    /// Writes the envelope register.
    pub fn write_envelope(&mut self, value: u8)
        ensures
            *final(self) == old(self).with_envelope(value),
            old(self).wf() ==> final(self).wf(),
    {
        self.initial_vol = value / 16;
        self.env_direction = value & 0x08 != 0;
        self.env_period = value % 8;
        self.envelope.initial_vol = value / 16;
        self.envelope.direction = value & 0x08 != 0;
        self.envelope.period = value % 8;
        if !dac_enabled_ch4(value) {
            self.enabled = false;
        }
    }

    /// Writes the register of the noise clock.
    pub fn write_clock(&mut self, value: u8)
        ensures
            *final(self) == old(self).with_clock(value),
            final(self).wf(),
    {
        self.clock_shift = value / 16;
        self.width_mode = value & 0x08 != 0;
        self.divisor_code = value % 8;
    }

    /// Writes the length switch.
    pub fn write_length_switch(&mut self, value: u8)
        ensures
            *final(self) == old(self).with_length_switch(value),
            old(self).wf() ==> final(self).wf(),
    {
        self.length_enable = value & 0x40 != 0;
        self.length.enabled = value & 0x40 != 0;
    }

    /// Appends the stored form.
    pub fn save(&self, buf: &mut Vec<u8>)
        ensures
            final(buf)@ == old(buf)@ + self.encode(),
    {
        buf.push(self.initial_vol);
        put_flag(buf, self.env_direction);
        buf.push(self.env_period);
        buf.push(self.divisor_code);
        buf.push(self.clock_shift);
        put_flag(buf, self.width_mode);
        put_flag(buf, self.length_enable);
        put_flag(buf, self.enabled);
        put_u16(buf, self.length.counter);
        put_flag(buf, self.length.enabled);
        buf.push(self.envelope.cur_vol);
        buf.push(self.envelope.timer);
        put_u16(buf, self.lfsr);
        put_u16(buf, self.freq_timer);
        reveal(NoiseChannel::encode);
        assert(buf@ =~= old(buf)@ + self.encode());
    }

    /// Puts in the state that is stored at the cursor.
    pub fn load(&mut self, data: &[u8], pos: &mut usize)
        requires
            *old(pos) + Self::spec_len() <= data@.len(),
        ensures
            *final(self) == old(self).decode(data@, *old(pos) as int),
            *final(pos) == *old(pos) + Self::spec_len(),
    {
        self.initial_vol = take_u8(data, pos);
        self.env_direction = take_flag(data, pos);
        self.env_period = take_u8(data, pos);
        self.divisor_code = take_u8(data, pos);
        self.clock_shift = take_u8(data, pos);
        self.width_mode = take_flag(data, pos);
        self.length_enable = take_flag(data, pos);
        self.enabled = take_flag(data, pos);
        self.length.counter = take_u16(data, pos);
        self.length.enabled = take_flag(data, pos);
        self.envelope.cur_vol = take_u8(data, pos);
        self.envelope.timer = take_u8(data, pos);
        self.lfsr = take_u16(data, pos);
        self.freq_timer = take_u16(data, pos);
    }

    /// Length of the stored form.
    pub proof fn lemma_encode_len(self)
        ensures
            self.encode().len() == Self::spec_len(),
    {
        reveal(NoiseChannel::encode);
    }

    /// What was saved is put in again: all but the settings of the envelope, which
    /// stay those of the channel that is loaded into.
    pub proof fn law_load_restores_saved(self, into: NoiseChannel, s: Seq<u8>, i: int)
        requires
            found_at(s, i, self.encode()),
        ensures
            self.encode().len() == Self::spec_len(),
            into.decode(s, i) == (NoiseChannel {
                envelope: VolumeEnvelope {
                    cur_vol: self.envelope.cur_vol,
                    timer: self.envelope.timer,
                    ..into.envelope
                },
                ..self
            }),
    {
        broadcast use group_found;

        reveal(NoiseChannel::encode);
    }

    /// Running the channel in two parts is running it once for the whole.
    pub proof fn law_step_splits(self, a: u64, b: u64)
        requires
            a + b <= u64::MAX,
        ensures
            self.stepped(a).stepped(b) == self.stepped((a + b) as u64),
    {
        let t = self.freq_timer as int;
        let p = self.period() as int;
        crate::apu::units::law_divider_splits(t, p, a as int, b as int);
        crate::apu::units::law_divider_conserves(t, p, a as int);
        let (t1, n1) = divider(t, p, a as int);
        let (t2, n2) = divider(t1, p, b as int);
        crate::apu::units::law_divider_conserves(t1, p, b as int);
        law_lfsr_splits(self.lfsr, self.width_mode, n1 as nat, n2 as nat);
        assert(self.stepped(a).period() == self.period());
    }
}

} // verus!
