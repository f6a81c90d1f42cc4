//! Square wave channel.
use vstd::prelude::*;

use crate::apu::units::{divider, run_divider, LengthCounter, VolumeEnvelope};
use crate::codec::{
    flag_at, flag_byte, found_at, group_found, le16, put_flag, put_u16, take_flag, take_u16,
    take_u8, u16_at,
};

verus! {

/// Reload value of the divider of a channel with an eleven-bit frequency.
pub open spec fn tone_period(freq: u16) -> u16 {
    2048u16.wrapping_sub(freq).wrapping_mul(4)
}

/// Reload value of the divider of a channel with an eleven-bit frequency.
pub fn period_12(freq: u16) -> (r: u16)
    ensures
        r == tone_period(freq),
        freq <= 2048 ==> r == 4 * (2048 - freq),
{
    2048u16.wrapping_sub(freq).wrapping_mul(4)
}

/// The envelope register leaves the converter of a channel switched on.
pub fn dac_enabled_ch1(nr12: u8) -> (r: bool)
    ensures
        r == (nr12 & 0xF8 != 0),
{
    nr12 & 0xF8 != 0
}

/// The wave is high at this position of its eight: one, two, four or five eighths of
/// a turn, at its end.
pub open spec fn duty_high(duty: u8, wave_pos: u8) -> bool {
    if duty == 0 {
        wave_pos >= 7
    } else if duty == 1 {
        wave_pos >= 6
    } else if duty == 2 {
        wave_pos >= 4
    } else {
        wave_pos >= 3
    }
}

/// Square wave channel.
#[derive(Clone, Copy)]
pub struct SquareChannel {
    pub duty: u8,
    pub length_data: u8,
    pub initial_vol: u8,
    pub env_direction: bool,
    pub env_period: u8,
    pub freq: u16,
    pub length_enable: bool,
    pub enabled: bool,
    pub length: LengthCounter,
    pub envelope: VolumeEnvelope,
    pub freq_timer: u16,
    /// Position in the wave, out of eight.
    pub wave_pos: u8,
}

impl SquareChannel {
    /// Bytes of the stored form.
    pub open spec fn spec_len() -> int {
        17
    }

    /// The wave settings name a position of a wave.
    pub open spec fn wf(self) -> bool {
        self.duty < 4 && self.wave_pos < 8
    }

    pub open spec fn zero() -> SquareChannel {
        SquareChannel {
            duty: 0,
            length_data: 0,
            initial_vol: 0,
            env_direction: false,
            env_period: 0,
            freq: 0,
            length_enable: false,
            enabled: false,
            length: LengthCounter::zero(),
            envelope: VolumeEnvelope::zero(),
            freq_timer: 0,
            wave_pos: 0,
        }
    }

    /// The converter is on: the envelope starts above zero or rises.
    pub open spec fn dac_on(self) -> bool {
        self.initial_vol != 0 || self.env_direction
    }

    /// The level that the channel puts out, in fifteenths.
    pub open spec fn level(self) -> int {
        if self.enabled && self.dac_on() {
            if duty_high(self.duty, self.wave_pos) {
                self.envelope.cur_vol as int
            } else {
                -(self.envelope.cur_vol as int)
            }
        } else {
            0
        }
    }

    /// The channel after `cycles` cycles: the wave moves on by one position at each
    /// reload of the divider.
    pub open spec fn stepped(self, cycles: u64) -> SquareChannel {
        if self.enabled {
            let (timer, reloads) = divider(
                self.freq_timer as int,
                tone_period(self.freq) as int,
                cycles as int,
            );
            SquareChannel {
                freq_timer: timer as u16,
                wave_pos: if cycles <= self.freq_timer {
                    self.wave_pos
                } else {
                    ((self.wave_pos + reloads) % 8) as u8
                },
                ..self
            }
        } else {
            self
        }
    }

    /// The channel after a clock of its length counter.
    pub open spec fn length_clocked(self) -> SquareChannel {
        let (length, enabled) = self.length.clocked(self.enabled);
        SquareChannel { length, enabled, ..self }
    }

    /// The channel, started over.
    pub open spec fn triggered(self) -> SquareChannel {
        SquareChannel {
            enabled: true,
            length: LengthCounter {
                counter: (64 - self.length_data % 64) as u16,
                ..self.length
            },
            envelope: self.envelope.triggered(),
            freq_timer: tone_period(self.freq),
            wave_pos: 0,
            ..self
        }
    }

    /// Write to the duty and length register.
    pub open spec fn with_duty_length(self, value: u8) -> SquareChannel {
        SquareChannel { duty: value / 64, length_data: value % 64, ..self }
    }

    /// Write to the envelope register. A value that switches the converter off
    /// switches the channel off too.
    pub open spec fn with_envelope(self, value: u8) -> SquareChannel {
        SquareChannel {
            initial_vol: value / 16,
            env_direction: value & 0x08 != 0,
            env_period: value % 8,
            envelope: VolumeEnvelope {
                initial_vol: value / 16,
                direction: value & 0x08 != 0,
                period: value % 8,
                ..self.envelope
            },
            enabled: self.enabled && value & 0xF8 != 0,
            ..self
        }
    }

    /// Write to the low byte of the frequency.
    pub open spec fn with_freq_low(self, value: u8) -> SquareChannel {
        SquareChannel { freq: (self.freq & 0x0700) | value as u16, ..self }
    }

    /// Write to the high bits of the frequency and the length switch, without the
    /// trigger bit.
    pub open spec fn with_freq_high(self, value: u8) -> SquareChannel {
        SquareChannel {
            freq: (self.freq & 0x00FF) | ((value as u16 & 0x07) << 8),
            length_enable: value & 0x40 != 0,
            length: LengthCounter { enabled: value & 0x40 != 0, ..self.length },
            ..self
        }
    }

    /// The stored form. The settings of the envelope are not part of it.
    #[verifier::opaque]
    pub open spec fn encode(self) -> Seq<u8> {
        seq![
            self.duty,
            self.length_data,
            self.initial_vol,
            flag_byte(self.env_direction),
            self.env_period,
        ] + le16(self.freq) + seq![flag_byte(self.length_enable), flag_byte(self.enabled)] + le16(
            self.length.counter,
        ) + seq![flag_byte(self.length.enabled), self.envelope.cur_vol, self.envelope.timer] + le16(
            self.freq_timer,
        ) + seq![self.wave_pos]
    }

    /// This channel with what is stored at `i` put in.
    pub open spec fn decode(self, s: Seq<u8>, i: int) -> SquareChannel {
        SquareChannel {
            duty: s[i],
            length_data: s[i + 1],
            initial_vol: s[i + 2],
            env_direction: flag_at(s, i + 3),
            env_period: s[i + 4],
            freq: u16_at(s, i + 5),
            length_enable: flag_at(s, i + 7),
            enabled: flag_at(s, i + 8),
            length: LengthCounter { counter: u16_at(s, i + 9), enabled: flag_at(s, i + 11) },
            envelope: VolumeEnvelope {
                cur_vol: s[i + 12],
                timer: s[i + 13],
                ..self.envelope
            },
            freq_timer: u16_at(s, i + 14),
            wave_pos: s[i + 16],
        }
    }

    pub fn new() -> (r: Self)
        ensures
            r == Self::zero(),
            r.wf(),
    {
        Self {
            duty: 0,
            length_data: 0,
            initial_vol: 0,
            env_direction: false,
            env_period: 0,
            freq: 0,
            length_enable: false,
            enabled: false,
            length: LengthCounter::new(),
            envelope: VolumeEnvelope::new(),
            freq_timer: 0,
            wave_pos: 0,
        }
    }

    /// The channel is audible: switched on, with its converter on.
    pub fn is_on(&self) -> (r: bool)
        ensures
            r == (self.enabled && self.dac_on()),
    {
        self.enabled && self.dac_enabled()
    }

    /// The converter is on.
    pub fn dac_enabled(&self) -> (r: bool)
        ensures
            r == self.dac_on(),
    {
        self.initial_vol != 0 || self.env_direction
    }

    /// Runs the channel for `cycles` cycles.
    pub fn step(&mut self, cycles: u64)
        ensures
            *final(self) == old(self).stepped(cycles),
            old(self).wf() ==> final(self).wf(),
    {
        if !self.enabled {
            return;
        }
        let period = period_12(self.freq);
        let (timer, reloads) = run_divider(self.freq_timer, period, cycles);
        if cycles > self.freq_timer as u64 {
            self.wave_pos = ((self.wave_pos as u64 + reloads % 8) % 8) as u8;
        }
        self.freq_timer = timer;
    }

    /// The level that the channel puts out, in fifteenths.
    pub fn sample(&self) -> (r: i16)
        requires
            self.wf(),
        ensures
            r == self.level(),
    {
        if !self.is_on() {
            return 0;
        }
        let high = if self.duty == 0 {
            self.wave_pos >= 7
        } else if self.duty == 1 {
            self.wave_pos >= 6
        } else if self.duty == 2 {
            self.wave_pos >= 4
        } else {
            self.wave_pos >= 3
        };
        if high {
            self.envelope.cur_vol as i16
        } else {
            -(self.envelope.cur_vol as i16)
        }
    }

    /// Clocks the length counter.
    pub fn clock_length(&mut self)
        ensures
            *final(self) == old(self).length_clocked(),
            old(self).wf() ==> final(self).wf(),
    {
        self.length.clock(&mut self.enabled);
    }

    /// Starts the channel over.
    pub fn trigger(&mut self)
        ensures
            *final(self) == old(self).triggered(),
            old(self).wf() ==> final(self).wf(),
    {
        self.enabled = true;
        self.length.trigger(self.length_data, 64);
        self.envelope.trigger();
        self.freq_timer = period_12(self.freq);
        self.wave_pos = 0;
    }

    /// Writes the duty and length register.
    pub fn write_duty_length(&mut self, value: u8)
        ensures
            *final(self) == old(self).with_duty_length(value),
            old(self).wf() ==> final(self).wf(),
    {
        self.duty = value / 64;
        self.length_data = value % 64;
    }

    /// Writes the envelope register.
    pub fn write_envelope(&mut self, value: u8)
        ensures
            *final(self) == old(self).with_envelope(value),
            old(self).wf() ==> final(self).wf(),
    {
        self.initial_vol = value / 16;
        self.env_direction = value & 0x08 != 0;
        self.env_period = value % 8;
        self.envelope.initial_vol = value / 16;
        self.envelope.direction = value & 0x08 != 0;
        self.envelope.period = value % 8;
        if !dac_enabled_ch1(value) {
            self.enabled = false;
        }
    }

    /// Writes the low byte of the frequency.
    pub fn write_freq_low(&mut self, value: u8)
        ensures
            *final(self) == old(self).with_freq_low(value),
            old(self).wf() ==> final(self).wf(),
    {
        self.freq = (self.freq & 0x0700) | value as u16;
    }

    /// Writes the high bits of the frequency and the length switch.
    pub fn write_freq_high(&mut self, value: u8)
        ensures
            *final(self) == old(self).with_freq_high(value),
            old(self).wf() ==> final(self).wf(),
    {
        self.freq = (self.freq & 0x00FF) | ((value as u16 & 0x07) << 8);
        self.length_enable = value & 0x40 != 0;
        self.length.enabled = value & 0x40 != 0;
    }

    /// Appends the stored form.
    pub fn save(&self, buf: &mut Vec<u8>)
        ensures
            final(buf)@ == old(buf)@ + self.encode(),
    {
        buf.push(self.duty);
        buf.push(self.length_data);
        buf.push(self.initial_vol);
        put_flag(buf, self.env_direction);
        buf.push(self.env_period);
        put_u16(buf, self.freq);
        put_flag(buf, self.length_enable);
        put_flag(buf, self.enabled);
        put_u16(buf, self.length.counter);
        put_flag(buf, self.length.enabled);
        buf.push(self.envelope.cur_vol);
        buf.push(self.envelope.timer);
        put_u16(buf, self.freq_timer);
        buf.push(self.wave_pos);
        reveal(SquareChannel::encode);
        assert(buf@ =~= old(buf)@ + self.encode());
    }

    /// Puts in the state that is stored at the cursor.
    pub fn load(&mut self, data: &[u8], pos: &mut usize)
        requires
            *old(pos) + Self::spec_len() <= data@.len(),
        ensures
            *final(self) == old(self).decode(data@, *old(pos) as int),
            *final(pos) == *old(pos) + Self::spec_len(),
    {
        self.duty = take_u8(data, pos);
        self.length_data = take_u8(data, pos);
        self.initial_vol = take_u8(data, pos);
        self.env_direction = take_flag(data, pos);
        self.env_period = take_u8(data, pos);
        self.freq = take_u16(data, pos);
        self.length_enable = take_flag(data, pos);
        self.enabled = take_flag(data, pos);
        self.length.counter = take_u16(data, pos);
        self.length.enabled = take_flag(data, pos);
        self.envelope.cur_vol = take_u8(data, pos);
        self.envelope.timer = take_u8(data, pos);
        self.freq_timer = take_u16(data, pos);
        self.wave_pos = take_u8(data, pos);
    }

    /// Length of the stored form.
    pub proof fn lemma_encode_len(self)
        ensures
            self.encode().len() == Self::spec_len(),
    {
        reveal(SquareChannel::encode);
    }

    /// What was saved is put in again: all but the settings of the envelope, which
    /// stay those of the channel that is loaded into.
    pub proof fn law_load_restores_saved(self, into: SquareChannel, s: Seq<u8>, i: int)
        requires
            found_at(s, i, self.encode()),
        ensures
            self.encode().len() == Self::spec_len(),
            into.decode(s, i) == (SquareChannel {
                envelope: VolumeEnvelope {
                    cur_vol: self.envelope.cur_vol,
                    timer: self.envelope.timer,
                    ..into.envelope
                },
                ..self
            }),
    {
        broadcast use group_found;

        reveal(SquareChannel::encode);
    }

    /// Running the channel in two parts is running it once for the whole.
    pub proof fn law_step_splits(self, a: u64, b: u64)
        requires
            self.wf(),
            a + b <= u64::MAX,
        ensures
            self.stepped(a).stepped(b) == self.stepped((a + b) as u64),
    {
        let t = self.freq_timer as int;
        let p = tone_period(self.freq) as int;
        crate::apu::units::law_divider_splits(t, p, a as int, b as int);
        crate::apu::units::law_divider_conserves(t, p, a as int);
        let (t1, n1) = divider(t, p, a as int);
        let (t2, n2) = divider(t1, p, b as int);
        crate::apu::units::law_divider_conserves(t1, p, b as int);
        assert(t1 <= 0xFFFF && t2 <= 0xFFFF);
        assert(((self.wave_pos + n1) % 8 + n2) % 8 == (self.wave_pos + (n1 + n2)) % 8);
    }
}

} // verus!
