//! Wave table channel.
use vstd::prelude::*;

use crate::apu::square::{period_12, tone_period};
use crate::apu::units::{divider, run_divider, LengthCounter};
use crate::codec::{
    flag_at, flag_byte, found_at, group_found, le16, put_bytes, put_flag, put_u16, take_bytes,
    take_flag, take_u16, take_u8, u16_at,
};

verus! {

/// Wave table channel: plays thirty-two four-bit samples in turn.
pub struct WaveChannel {
    pub dac_enabled: bool,
    pub length_data: u8,
    pub vol_code: u8,
    pub freq: u16,
    pub length_enable: bool,
    pub enabled: bool,
    pub length: LengthCounter,
    pub freq_timer: u16,
    /// Position in the table, out of thirty-two.
    pub sample_pos: u8,
    /// The table, two samples to a byte.
    pub wave_ram: Vec<u8>,
}

/// What a wave table channel holds.
#[verifier::ext_equal]
pub struct WaveView {
    pub dac_enabled: bool,
    pub length_data: u8,
    pub vol_code: u8,
    pub freq: u16,
    pub length_enable: bool,
    pub enabled: bool,
    pub length: LengthCounter,
    pub freq_timer: u16,
    pub sample_pos: u8,
    pub wave_ram: Seq<u8>,
}

impl View for WaveChannel {
    type V = WaveView;

    open spec fn view(&self) -> WaveView {
        WaveView {
            dac_enabled: self.dac_enabled,
            length_data: self.length_data,
            vol_code: self.vol_code,
            freq: self.freq,
            length_enable: self.length_enable,
            enabled: self.enabled,
            length: self.length,
            freq_timer: self.freq_timer,
            sample_pos: self.sample_pos,
            wave_ram: self.wave_ram@,
        }
    }
}

impl WaveView {
    /// Bytes of the stored form.
    pub open spec fn spec_len() -> int {
        29
    }

    /// The table is whole and the position names one of its samples.
    pub open spec fn wf(self) -> bool {
        self.wave_ram.len() == 16 && self.sample_pos < 32
    }

    pub open spec fn zero() -> WaveView {
        WaveView {
            dac_enabled: false,
            length_data: 0,
            vol_code: 0,
            freq: 0,
            length_enable: false,
            enabled: false,
            length: LengthCounter::zero(),
            freq_timer: 0,
            sample_pos: 0,
            wave_ram: Seq::new(16, |i: int| 0u8),
        }
    }

    /// The sample at the current position: the high half of a byte comes first.
    pub open spec fn nibble(self) -> u8 {
        let byte = self.wave_ram[self.sample_pos as int / 2];
        if self.sample_pos % 2 == 0 {
            byte / 16
        } else {
            byte % 16
        }
    }

    /// The level that the channel puts out, in fifteenths: the sample at full, half or
    /// quarter volume.
    pub open spec fn level(self) -> int {
        if !(self.enabled && self.dac_enabled) {
            0
        } else if self.vol_code == 1 {
            self.nibble() as int
        } else if self.vol_code == 2 {
            self.nibble() as int / 2
        } else if self.vol_code == 3 {
            self.nibble() as int / 4
        } else {
            0
        }
    }

    /// The channel after `cycles` cycles: the position moves on by one at each reload
    /// of the divider.
    pub open spec fn stepped(self, cycles: u64) -> WaveView {
        if self.enabled {
            let (timer, reloads) = divider(
                self.freq_timer as int,
                tone_period(self.freq) as int,
                cycles as int,
            );
            WaveView {
                freq_timer: timer as u16,
                sample_pos: if cycles <= self.freq_timer {
                    self.sample_pos
                } else {
                    ((self.sample_pos + reloads) % 32) as u8
                },
                ..self
            }
        } else {
            self
        }
    }

    /// The channel after a clock of its length counter.
    pub open spec fn length_clocked(self) -> WaveView {
        let (length, enabled) = self.length.clocked(self.enabled);
        WaveView { length, enabled, ..self }
    }

    /// The channel, started over.
    pub open spec fn triggered(self) -> WaveView {
        WaveView {
            enabled: true,
            length: LengthCounter { counter: (256 - self.length_data) as u16, ..self.length },
            freq_timer: tone_period(self.freq),
            sample_pos: 0,
            ..self
        }
    }

    /// Write to the converter switch. Switching it off switches the channel off too.
    pub open spec fn with_dac(self, value: u8) -> WaveView {
        WaveView {
            dac_enabled: value & 0x80 != 0,
            enabled: self.enabled && value & 0x80 != 0,
            ..self
        }
    }

    /// Write to the low byte of the frequency.
    pub open spec fn with_freq_low(self, value: u8) -> WaveView {
        WaveView { freq: (self.freq & 0x0700) | value as u16, ..self }
    }

    /// Write to the high bits of the frequency and the length switch, without the
    /// trigger bit.
    pub open spec fn with_freq_high(self, value: u8) -> WaveView {
        WaveView {
            freq: (self.freq & 0x00FF) | ((value as u16 & 0x07) << 8),
            length_enable: value & 0x40 != 0,
            length: LengthCounter { enabled: value & 0x40 != 0, ..self.length },
            ..self
        }
    }

    /// Write to a byte of the table.
    pub open spec fn with_table(self, i: int, value: u8) -> WaveView {
        WaveView { wave_ram: self.wave_ram.update(i, value), ..self }
    }

    /// The stored form.
    #[verifier::opaque]
    pub open spec fn encode(self) -> Seq<u8> {
        seq![flag_byte(self.dac_enabled), self.length_data, self.vol_code] + le16(self.freq) + seq![
            flag_byte(self.length_enable),
            flag_byte(self.enabled),
        ] + le16(self.length.counter) + seq![flag_byte(self.length.enabled)] + le16(
            self.freq_timer,
        ) + seq![self.sample_pos] + self.wave_ram
    }

    /// What is stored at `i`.
    pub open spec fn decode(s: Seq<u8>, i: int) -> WaveView {
        WaveView {
            dac_enabled: flag_at(s, i),
            length_data: s[i + 1],
            vol_code: s[i + 2],
            freq: u16_at(s, i + 3),
            length_enable: flag_at(s, i + 5),
            enabled: flag_at(s, i + 6),
            length: LengthCounter { counter: u16_at(s, i + 7), enabled: flag_at(s, i + 9) },
            freq_timer: u16_at(s, i + 10),
            sample_pos: s[i + 12],
            wave_ram: s.subrange(i + 13, i + 29),
        }
    }

    /// Length of the stored form.
    pub proof fn lemma_encode_len(self)
        requires
            self.wave_ram.len() == 16,
        ensures
            self.encode().len() == Self::spec_len(),
    {
        reveal(WaveView::encode);
    }

    /// A channel that was saved is loaded unchanged.
    pub proof fn law_load_restores_saved(self, s: Seq<u8>, i: int)
        requires
            self.wave_ram.len() == 16,
            found_at(s, i, self.encode()),
        ensures
            self.encode().len() == Self::spec_len(),
            Self::decode(s, i) == self,
    {
        broadcast use group_found;

        reveal(WaveView::encode);

        assert(found_at(s, i + 13, self.wave_ram));
        assert(s.subrange(i + 13, i + 29) =~= self.wave_ram) by {
            assert forall|k: int| 0 <= k < 16 implies s[i + 13 + k] == self.wave_ram[k] by {}
        }
    }

    /// Running the channel in two parts is running it once for the whole.
    pub proof fn law_step_splits(self, a: u64, b: u64)
        requires
            self.wf(),
            a + b <= u64::MAX,
        ensures
            self.stepped(a).stepped(b) == self.stepped((a + b) as u64),
    {
        let t = self.freq_timer as int;
        let p = tone_period(self.freq) as int;
        crate::apu::units::law_divider_splits(t, p, a as int, b as int);
        crate::apu::units::law_divider_conserves(t, p, a as int);
        let (t1, n1) = divider(t, p, a as int);
        let (t2, n2) = divider(t1, p, b as int);
        crate::apu::units::law_divider_conserves(t1, p, b as int);
        assert(t1 <= 0xFFFF && t2 <= 0xFFFF);
        assert(((self.sample_pos + n1) % 32 + n2) % 32 == (self.sample_pos + (n1 + n2)) % 32);
    }
}

impl WaveChannel {
    pub fn new() -> (r: Self)
        ensures
            r@ == WaveView::zero(),
            r@.wf(),
    {
        let r = Self {
            dac_enabled: false,
            length_data: 0,
            vol_code: 0,
            freq: 0,
            length_enable: false,
            enabled: false,
            length: LengthCounter::new(),
            freq_timer: 0,
            sample_pos: 0,
            wave_ram: vec![0u8; 16],
        };
        assert(r@ =~= WaveView::zero());
        r
    }

    /// The channel is audible: switched on, with its converter on.
    pub fn is_on(&self) -> (r: bool)
        ensures
            r == (self@.enabled && self@.dac_enabled),
    {
        self.enabled && self.dac_enabled
    }

    /// The sample at the current position.
    pub fn wave_sample(&self) -> (r: u8)
        requires
            self@.wf(),
        ensures
            r == self@.nibble(),
    {
        let byte = self.wave_ram[(self.sample_pos / 2) as usize];
        if self.sample_pos % 2 == 0 {
            byte / 16
        } else {
            byte % 16
        }
    }

    /// Runs the channel for `cycles` cycles.
    pub fn step(&mut self, cycles: u64)
        ensures
            final(self)@ == old(self)@.stepped(cycles),
            old(self)@.wf() ==> final(self)@.wf(),
    {
        if !self.enabled {
            return;
        }
        let period = period_12(self.freq);
        let (timer, reloads) = run_divider(self.freq_timer, period, cycles);
        if cycles > self.freq_timer as u64 {
            self.sample_pos = ((self.sample_pos as u64 + reloads % 32) % 32) as u8;
        }
        self.freq_timer = timer;
    }

    /// The level that the channel puts out, in fifteenths.
    pub fn sample(&self) -> (r: i16)
        requires
            self@.wf(),
        ensures
            r == self@.level(),
    {
        if !self.is_on() {
            return 0;
        }
        let nibble = self.wave_sample();
        if self.vol_code == 1 {
            nibble as i16
        } else if self.vol_code == 2 {
            (nibble / 2) as i16
        } else if self.vol_code == 3 {
            (nibble / 4) as i16
        } else {
            0
        }
    }

    /// Clocks the length counter.
    pub fn clock_length(&mut self)
        ensures
            final(self)@ == old(self)@.length_clocked(),
            old(self)@.wf() ==> final(self)@.wf(),
    {
        self.length.clock(&mut self.enabled);
    }

    /// Starts the channel over.
    pub fn trigger(&mut self)
        ensures
            final(self)@ == old(self)@.triggered(),
            old(self)@.wf() ==> final(self)@.wf(),
    {
        self.enabled = true;
        self.length.counter = 256 - self.length_data as u16;
        self.freq_timer = period_12(self.freq);
        self.sample_pos = 0;
    }

    /// Writes the converter switch.
    pub fn write_dac(&mut self, value: u8)
        ensures
            final(self)@ == old(self)@.with_dac(value),
    {
        self.dac_enabled = value & 0x80 != 0;
        if !self.dac_enabled {
            self.enabled = false;
        }
    }

    /// Writes the low byte of the frequency.
    pub fn write_freq_low(&mut self, value: u8)
        ensures
            final(self)@ == old(self)@.with_freq_low(value),
    {
        self.freq = (self.freq & 0x0700) | value as u16;
    }

    /// Writes the high bits of the frequency and the length switch.
    pub fn write_freq_high(&mut self, value: u8)
        ensures
            final(self)@ == old(self)@.with_freq_high(value),
    {
        self.freq = (self.freq & 0x00FF) | ((value as u16 & 0x07) << 8);
        self.length_enable = value & 0x40 != 0;
        self.length.enabled = value & 0x40 != 0;
    }

    /// Writes a byte of the table.
    pub fn write_table(&mut self, i: usize, value: u8)
        requires
            i < old(self)@.wave_ram.len(),
        ensures
            final(self)@ == old(self)@.with_table(i as int, value),
    {
        self.wave_ram[i] = value;
    }

    /// Appends the stored form.
    pub fn save(&self, buf: &mut Vec<u8>)
        ensures
            final(buf)@ == old(buf)@ + self@.encode(),
    {
        put_flag(buf, self.dac_enabled);
        buf.push(self.length_data);
        buf.push(self.vol_code);
        put_u16(buf, self.freq);
        put_flag(buf, self.length_enable);
        put_flag(buf, self.enabled);
        put_u16(buf, self.length.counter);
        put_flag(buf, self.length.enabled);
        put_u16(buf, self.freq_timer);
        buf.push(self.sample_pos);
        put_bytes(buf, self.wave_ram.as_slice());
        reveal(WaveView::encode);
        assert(buf@ =~= old(buf)@ + self@.encode());
    }

    /// Puts in the state that is stored at the cursor.
    pub fn load(&mut self, data: &[u8], pos: &mut usize)
        requires
            *old(pos) + WaveView::spec_len() <= data@.len(),
        ensures
            final(self)@ == WaveView::decode(data@, *old(pos) as int),
            *final(pos) == *old(pos) + WaveView::spec_len(),
    {
        self.dac_enabled = take_flag(data, pos);
        self.length_data = take_u8(data, pos);
        self.vol_code = take_u8(data, pos);
        self.freq = take_u16(data, pos);
        self.length_enable = take_flag(data, pos);
        self.enabled = take_flag(data, pos);
        self.length.counter = take_u16(data, pos);
        self.length.enabled = take_flag(data, pos);
        self.freq_timer = take_u16(data, pos);
        self.sample_pos = take_u8(data, pos);
        self.wave_ram = take_bytes(data, pos, 16);
    }
}

} // verus!
