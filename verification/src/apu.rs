//! Sound unit.
//!
//! Four channels are clocked by the processor's cycles and by a frame sequencer. At
//! the sample rate the unit records what its channels put out; a front end turns these
//! records into sound.
use vstd::prelude::*;

use crate::codec::{
    found_at, group_found, le32, le64, lemma_found_split, put_u32, put_u64, take_u32, take_u64,
    take_u8, u32_at, u64_at,
};
use crate::error::Error;

use self::noise::NoiseChannel;
use self::square::SquareChannel;
use self::units::{FrequencySweep, VolumeEnvelope};
use self::wave::{WaveChannel, WaveView};

pub mod laws;
pub mod noise;
pub mod square;
pub mod units;
pub mod wave;

verus! {

/// Processor cycles per second.
pub const CPU_FREQ: u64 = 4_194_304;

/// Samples per second.
pub const SAMPLE_RATE: u64 = 44_100;

/// Whole cycles per sample.
pub const CYCLES_PER_SAMPLE: u64 = 95;

/// What is left of a second's cycles over the whole cycles per sample.
pub const CYCLES_PER_SAMPLE_REM: u64 = 4_804;

/// Cycles per clock of the frame sequencer.
pub const FRAME_SEQ_CYCLES: u64 = 8_192;

/// Levels of the four channels, in fifteenths.
#[derive(Clone, Copy, Debug, PartialEq, Eq, Structural)]
pub struct Levels {
    pub ch1: i16,
    pub ch2: i16,
    pub ch3: i16,
    pub ch4: i16,
}

/// What the channels put out at one sample: the levels on either side, zero where a
/// channel is not routed there, and the volumes of the sides, in sevenths.
#[derive(Clone, Copy, Debug, PartialEq, Eq, Structural)]
pub struct MixFrame {
    pub left: Levels,
    pub right: Levels,
    pub left_vol: u8,
    pub right_vol: u8,
}

/// A record for the front end.
#[derive(Clone, Copy, Debug, PartialEq, Eq, Structural)]
pub enum AudioEvent {
    /// One sample with the unit switched off.
    Silence,
    /// One sample of the channels.
    Mix(MixFrame),
    /// The state of the output filter is cleared.
    FilterReset,
}

/// State of the front end's output filter, as the bits of single precision numbers.
#[derive(Clone, Copy, Debug, PartialEq, Eq, Structural)]
pub struct FilterBits {
    pub hpf_left: u32,
    pub hpf_right: u32,
    pub prev_left: u32,
    pub prev_right: u32,
}

/// Cycles that the next sample takes: one more whenever the remainder adds up to a
/// whole cycle.
pub open spec fn sample_cycles(frac: u64) -> u64 {
    if frac.wrapping_add(CYCLES_PER_SAMPLE_REM) >= SAMPLE_RATE {
        96
    } else {
        95
    }
}

/// The remainder after the next sample.
pub open spec fn sample_frac_next(frac: u64) -> u64 {
    let f = frac.wrapping_add(CYCLES_PER_SAMPLE_REM);
    if f >= SAMPLE_RATE {
        (f - SAMPLE_RATE) as u64
    } else {
        f
    }
}

/// The cycles and the remainder that are left when all samples that are due have been
/// taken, and the number of samples.
pub open spec fn samples_due(cycle: u64, frac: u64) -> (u64, u64, nat)
    decreases cycle,
{
    if cycle < sample_cycles(frac) {
        (cycle, frac, 0)
    } else {
        let (c, f, n) = samples_due((cycle - sample_cycles(frac)) as u64, sample_frac_next(frac));
        (c, f, n + 1)
    }
}

/// The sample rate is met exactly: every sample takes its 4194304 / 44100 cycles, with
/// the fraction kept for the next one, and less than one sample's cycles are left over.
pub proof fn law_sample_rate_is_exact(cycle: u64, frac: u64)
    requires
        frac < SAMPLE_RATE,
    ensures
        ({
            let (c, f, n) = samples_due(cycle, frac);
            &&& SAMPLE_RATE * cycle - frac == n * CPU_FREQ + SAMPLE_RATE * c - f
            &&& f < SAMPLE_RATE
            &&& c < 96
        }),
    decreases cycle,
{
    if cycle >= sample_cycles(frac) {
        let rest = (cycle - sample_cycles(frac)) as u64;
        law_sample_rate_is_exact(rest, sample_frac_next(frac));
        let n = samples_due(rest, sample_frac_next(frac)).2;
        assert((n + 1) * CPU_FREQ == n * CPU_FREQ + CPU_FREQ) by (nonlinear_arith);
    }
}

/// Sound unit.
pub struct Apu {
    pub ch1: SquareChannel,
    pub ch1_sweep: FrequencySweep,
    pub ch2: SquareChannel,
    pub ch3: WaveChannel,
    pub ch4: NoiseChannel,
    pub nr50: u8,
    pub nr51: u8,
    pub nr52: u8,
    pub frame_step: u8,
    pub frame_cycle: u64,
    pub sample_cycle: u64,
    pub sample_frac: u64,
    /// Records that have not been drained yet.
    pub buffer: Vec<AudioEvent>,
    pub ch1_nr10: u8,
    pub ch1_nr11: u8,
    pub ch1_nr12: u8,
    pub ch2_nr11: u8,
    pub ch2_nr12: u8,
    pub ch3_nr30: u8,
    pub ch3_nr31: u8,
    pub ch3_nr32: u8,
    pub ch4_nr42: u8,
    pub ch4_nr43: u8,
    /// State of the output filter, kept here so that it is saved with the rest.
    pub filter: FilterBits,
    /// Volumes of the sides, in sevenths; set when the volume register is written.
    pub left_vol: u8,
    pub right_vol: u8,
}

/// What a sound unit holds.
#[verifier::ext_equal]
pub struct ApuView {
    pub ch1: SquareChannel,
    pub ch1_sweep: FrequencySweep,
    pub ch2: SquareChannel,
    pub ch3: WaveView,
    pub ch4: NoiseChannel,
    pub nr50: u8,
    pub nr51: u8,
    pub nr52: u8,
    pub frame_step: u8,
    pub frame_cycle: u64,
    pub sample_cycle: u64,
    pub sample_frac: u64,
    pub buffer: Seq<AudioEvent>,
    pub ch1_nr10: u8,
    pub ch1_nr11: u8,
    pub ch1_nr12: u8,
    pub ch2_nr11: u8,
    pub ch2_nr12: u8,
    pub ch3_nr30: u8,
    pub ch3_nr31: u8,
    pub ch3_nr32: u8,
    pub ch4_nr42: u8,
    pub ch4_nr43: u8,
    pub filter: FilterBits,
    pub left_vol: u8,
    pub right_vol: u8,
}

impl View for Apu {
    type V = ApuView;

    open spec fn view(&self) -> ApuView {
        ApuView {
            ch1: self.ch1,
            ch1_sweep: self.ch1_sweep,
            ch2: self.ch2,
            ch3: self.ch3@,
            ch4: self.ch4,
            nr50: self.nr50,
            nr51: self.nr51,
            nr52: self.nr52,
            frame_step: self.frame_step,
            frame_cycle: self.frame_cycle,
            sample_cycle: self.sample_cycle,
            sample_frac: self.sample_frac,
            buffer: self.buffer@,
            ch1_nr10: self.ch1_nr10,
            ch1_nr11: self.ch1_nr11,
            ch1_nr12: self.ch1_nr12,
            ch2_nr11: self.ch2_nr11,
            ch2_nr12: self.ch2_nr12,
            ch3_nr30: self.ch3_nr30,
            ch3_nr31: self.ch3_nr31,
            ch3_nr32: self.ch3_nr32,
            ch4_nr42: self.ch4_nr42,
            ch4_nr43: self.ch4_nr43,
            filter: self.filter,
            left_vol: self.left_vol,
            right_vol: self.right_vol,
        }
    }
}

impl FilterBits {
    pub open spec fn zero() -> FilterBits {
        FilterBits { hpf_left: 0, hpf_right: 0, prev_left: 0, prev_right: 0 }
    }

    /// The stored form.
    #[verifier::opaque]
    pub open spec fn encode(self) -> Seq<u8> {
        le32(self.hpf_left) + le32(self.hpf_right) + le32(self.prev_left) + le32(self.prev_right)
    }

    /// What is stored at `i`.
    pub open spec fn decode(s: Seq<u8>, i: int) -> FilterBits {
        FilterBits {
            hpf_left: u32_at(s, i),
            hpf_right: u32_at(s, i + 4),
            prev_left: u32_at(s, i + 8),
            prev_right: u32_at(s, i + 12),
        }
    }

    /// A stored filter state is read back unchanged.
    pub proof fn lemma_round_trip(self, s: Seq<u8>, i: int)
        requires
            found_at(s, i, self.encode()),
        ensures
            Self::decode(s, i) == self,
    {
        broadcast use group_found;

        reveal(FilterBits::encode);
    }

    fn save(&self, buf: &mut Vec<u8>)
        ensures
            final(buf)@ == old(buf)@ + self.encode(),
    {
        put_u32(buf, self.hpf_left);
        put_u32(buf, self.hpf_right);
        put_u32(buf, self.prev_left);
        put_u32(buf, self.prev_right);
        reveal(FilterBits::encode);
        assert(buf@ =~= old(buf)@ + self.encode());
    }
}

impl Levels {
    /// These levels where `routing` has the bits of the channels set, zero elsewhere;
    /// `b1` to `b4` are the bits of the four channels.
    pub open spec fn routed(self, routing: u8, b1: u8, b2: u8, b3: u8, b4: u8) -> Levels {
        Levels {
            ch1: if routing & b1 != 0 { self.ch1 } else { 0 },
            ch2: if routing & b2 != 0 { self.ch2 } else { 0 },
            ch3: if routing & b3 != 0 { self.ch3 } else { 0 },
            ch4: if routing & b4 != 0 { self.ch4 } else { 0 },
        }
    }
}

impl ApuView {
    /// Bytes of the stored form.
    pub open spec fn spec_len() -> int {
        141
    }

    /// The channels' settings name existing waves, positions and divisors.
    pub open spec fn wf(self) -> bool {
        self.ch1.wf() && self.ch2.wf() && self.ch3.wf() && self.ch4.wf()
    }

    /// The unit is switched on.
    pub open spec fn powered(self) -> bool {
        self.nr52 & 0x80 != 0
    }

    pub open spec fn zero() -> ApuView {
        ApuView {
            ch1: SquareChannel::zero(),
            ch1_sweep: FrequencySweep::zero(),
            ch2: SquareChannel::zero(),
            ch3: WaveView::zero(),
            ch4: NoiseChannel::zero(),
            nr50: 0,
            nr51: 0,
            nr52: 0,
            frame_step: 0,
            frame_cycle: 0,
            sample_cycle: 0,
            sample_frac: 0,
            buffer: Seq::empty(),
            ch1_nr10: 0,
            ch1_nr11: 0,
            ch1_nr12: 0,
            ch2_nr11: 0,
            ch2_nr12: 0,
            ch3_nr30: 0,
            ch3_nr31: 0,
            ch3_nr32: 0,
            ch4_nr42: 0,
            ch4_nr43: 0,
            filter: FilterBits::zero(),
            left_vol: 0,
            right_vol: 0,
        }
    }

    /// The status register: the power bit, and a bit for each channel that is on.
    pub open spec fn status(self) -> u8 {
        let v = self.nr52 & 0x80;
        let v = if self.ch1.enabled { v | 0x01 } else { v };
        let v = if self.ch2.enabled { v | 0x02 } else { v };
        let v = if self.ch3.enabled { v | 0x04 } else { v };
        if self.ch4.enabled { v | 0x08 } else { v }
    }

    /// What the channels put out now, routed to the sides.
    pub open spec fn mixed(self) -> MixFrame {
        let levels = Levels {
            ch1: self.ch1.level() as i16,
            ch2: self.ch2.level() as i16,
            ch3: self.ch3.level() as i16,
            ch4: self.ch4.level() as i16,
        };
        MixFrame {
            left: levels.routed(self.nr51, 0x01, 0x02, 0x04, 0x08),
            right: levels.routed(self.nr51, 0x10, 0x20, 0x40, 0x80),
            left_vol: self.left_vol,
            right_vol: self.right_vol,
        }
    }

    /// The length counters are clocked.
    pub open spec fn lengths_clocked(self) -> ApuView {
        ApuView {
            ch1: self.ch1.length_clocked(),
            ch2: self.ch2.length_clocked(),
            ch3: self.ch3.length_clocked(),
            ch4: self.ch4.length_clocked(),
            ..self
        }
    }

    /// The sweep of the first channel is clocked.
    pub open spec fn sweep_clocked(self) -> ApuView {
        let (s, f, e) = self.ch1_sweep.clocked(self.ch1.freq, self.ch1.enabled);
        ApuView {
            ch1_sweep: s,
            ch1: SquareChannel { freq: f, enabled: e, ..self.ch1 },
            ..self
        }
    }

    /// The envelopes are clocked.
    pub open spec fn envelopes_clocked(self) -> ApuView {
        ApuView {
            ch1: SquareChannel { envelope: self.ch1.envelope.clocked(), ..self.ch1 },
            ch2: SquareChannel { envelope: self.ch2.envelope.clocked(), ..self.ch2 },
            ch4: NoiseChannel { envelope: self.ch4.envelope.clocked(), ..self.ch4 },
            ..self
        }
    }

    /// One clock of the frame sequencer: lengths on the even steps, the sweep on steps
    /// two and six, envelopes on steps four and six.
    pub open spec fn sequenced(self) -> ApuView {
        let step = self.frame_step;
        let a = if step == 0 || step == 2 || step == 4 || step == 6 {
            self.lengths_clocked()
        } else {
            self
        };
        let a = if step == 2 || step == 6 { a.sweep_clocked() } else { a };
        let a = if step == 4 || step == 6 { a.envelopes_clocked() } else { a };
        ApuView { frame_step: ((step + 1) % 8) as u8, ..a }
    }

    /// `n` clocks of the frame sequencer.
    pub open spec fn sequenced_by(self, n: nat) -> ApuView
        decreases n,
    {
        if n == 0 {
            self
        } else {
            self.sequenced_by((n - 1) as nat).sequenced()
        }
    }

    /// The frame sequencer after `cycles` cycles: it is clocked once for every 8192 of
    /// the cycles counted.
    pub open spec fn sequencer_run(self, cycles: u64) -> ApuView {
        let total = self.frame_cycle.wrapping_add(cycles);
        ApuView { frame_cycle: total % FRAME_SEQ_CYCLES, ..self }.sequenced_by(
            (total / FRAME_SEQ_CYCLES) as nat,
        )
    }

    /// The channels after `cycles` cycles.
    pub open spec fn channels_run(self, cycles: u64) -> ApuView {
        ApuView {
            ch1: self.ch1.stepped(cycles),
            ch2: self.ch2.stepped(cycles),
            ch3: self.ch3.stepped(cycles),
            ch4: self.ch4.stepped(cycles),
            ..self
        }
    }

    /// The records after `cycles` cycles: `event` for each sample that is due.
    pub open spec fn sampled(self, cycles: u64, event: AudioEvent) -> ApuView {
        let (c, f, n) = samples_due(self.sample_cycle.wrapping_add(cycles), self.sample_frac);
        ApuView {
            sample_cycle: c,
            sample_frac: f,
            buffer: self.buffer + Seq::new(n, |i: int| event),
            ..self
        }
    }

    /// The unit after `cycles` cycles. Switched off it still records samples, so that
    /// the front end keeps pace.
    pub open spec fn stepped(self, cycles: u64) -> ApuView {
        if self.powered() {
            let a = self.sequencer_run(cycles).channels_run(cycles);
            a.sampled(cycles, AudioEvent::Mix(a.mixed()))
        } else {
            self.sampled(cycles, AudioEvent::Silence)
        }
    }

    /// All channels and registers cleared, as on switching off.
    pub open spec fn power_cleared(self) -> ApuView {
        ApuView {
            ch1: SquareChannel::zero(),
            ch1_sweep: FrequencySweep::zero(),
            ch2: SquareChannel::zero(),
            ch3: WaveView::zero(),
            ch4: NoiseChannel::zero(),
            nr50: 0,
            nr51: 0,
            ch1_nr10: 0,
            ch1_nr11: 0,
            ch1_nr12: 0,
            ch2_nr11: 0,
            ch2_nr12: 0,
            ch3_nr30: 0,
            ch3_nr31: 0,
            ch3_nr32: 0,
            ch4_nr42: 0,
            ch4_nr43: 0,
            filter: FilterBits::zero(),
            buffer: self.buffer.push(AudioEvent::FilterReset),
            ..self
        }
    }

    /// The value of the register at `addr`. Bits that cannot be read are set, and so is
    /// every bit of an address without a register.
    pub open spec fn register(self, addr: u16) -> u8 {
        let length_bit = |on: bool| 0xBFu8 | if on { 0x40u8 } else { 0u8 };
        if addr == 0xFF10 {
            0x80 | (self.ch1_nr10 & 0x77)
        } else if addr == 0xFF11 {
            0x3F | (self.ch1_nr11 & 0xC0)
        } else if addr == 0xFF12 {
            self.ch1_nr12
        } else if addr == 0xFF14 {
            length_bit(self.ch1.length_enable)
        } else if addr == 0xFF16 {
            0x3F | (self.ch2_nr11 & 0xC0)
        } else if addr == 0xFF17 {
            self.ch2_nr12
        } else if addr == 0xFF19 {
            length_bit(self.ch2.length_enable)
        } else if addr == 0xFF1A {
            self.ch3_nr30
        } else if addr == 0xFF1C {
            self.ch3_nr32 & 0x60
        } else if addr == 0xFF1E {
            length_bit(self.ch3.length_enable)
        } else if addr == 0xFF21 {
            self.ch4_nr42
        } else if addr == 0xFF22 {
            self.ch4_nr43
        } else if addr == 0xFF23 {
            length_bit(self.ch4.length_enable)
        } else if addr == 0xFF24 {
            self.nr50
        } else if addr == 0xFF25 {
            self.nr51
        } else if addr == 0xFF26 {
            self.status()
        } else if 0xFF30 <= addr <= 0xFF3F {
            self.ch3.wave_ram[addr - 0xFF30]
        } else {
            0xFF
        }
    }

    /// Write to the volume register.
    pub open spec fn with_volume(self, value: u8) -> ApuView {
        ApuView { nr50: value, left_vol: value % 8, right_vol: (value / 16) % 8, ..self }
    }

    /// Write to the power register: switching off clears the unit.
    pub open spec fn with_power(self, value: u8) -> ApuView {
        let a = if self.powered() && value & 0x80 == 0 {
            self.power_cleared()
        } else {
            self
        };
        ApuView { nr52: value & 0x80, ..a }
    }

    /// Write to a register of the first channel.
    pub open spec fn with_ch1(self, addr: u16, value: u8) -> ApuView {
        if addr == 0xFF10 {
            ApuView {
                ch1_nr10: value,
                ch1_sweep: FrequencySweep {
                    period: (value / 16) % 8,
                    direction: value & 0x08 == 0,
                    shift: value % 8,
                    ..self.ch1_sweep
                },
                ..self
            }
        } else if addr == 0xFF11 {
            ApuView { ch1_nr11: value, ch1: self.ch1.with_duty_length(value), ..self }
        } else if addr == 0xFF12 {
            ApuView { ch1_nr12: value, ch1: self.ch1.with_envelope(value), ..self }
        } else if addr == 0xFF13 {
            ApuView { ch1: self.ch1.with_freq_low(value), ..self }
        } else if value & 0x80 != 0 {
            let ch1 = self.ch1.with_freq_high(value);
            ApuView {
                ch1: ch1.triggered(),
                ch1_sweep: FrequencySweep::triggered(
                    ch1.freq,
                    (self.ch1_nr10 / 16) % 8,
                    self.ch1_nr10 & 0x08 == 0,
                    self.ch1_nr10 % 8,
                ),
                ..self
            }
        } else {
            ApuView { ch1: self.ch1.with_freq_high(value), ..self }
        }
    }

    /// Write to a register of the second channel.
    pub open spec fn with_ch2(self, addr: u16, value: u8) -> ApuView {
        if addr == 0xFF16 {
            ApuView { ch2_nr11: value, ch2: self.ch2.with_duty_length(value), ..self }
        } else if addr == 0xFF17 {
            ApuView { ch2_nr12: value, ch2: self.ch2.with_envelope(value), ..self }
        } else if addr == 0xFF18 {
            ApuView { ch2: self.ch2.with_freq_low(value), ..self }
        } else {
            let ch2 = self.ch2.with_freq_high(value);
            ApuView { ch2: if value & 0x80 != 0 { ch2.triggered() } else { ch2 }, ..self }
        }
    }

    /// Write to a register of the third channel.
    pub open spec fn with_ch3(self, addr: u16, value: u8) -> ApuView {
        if addr == 0xFF1A {
            ApuView { ch3_nr30: value, ch3: self.ch3.with_dac(value), ..self }
        } else if addr == 0xFF1B {
            ApuView {
                ch3_nr31: value,
                ch3: WaveView { length_data: value, ..self.ch3 },
                ..self
            }
        } else if addr == 0xFF1C {
            ApuView {
                ch3_nr32: value,
                ch3: WaveView { vol_code: (value / 32) % 4, ..self.ch3 },
                ..self
            }
        } else if addr == 0xFF1D {
            ApuView { ch3: self.ch3.with_freq_low(value), ..self }
        } else {
            let ch3 = self.ch3.with_freq_high(value);
            ApuView { ch3: if value & 0x80 != 0 { ch3.triggered() } else { ch3 }, ..self }
        }
    }

    /// Write to a register of the fourth channel.
    pub open spec fn with_ch4(self, addr: u16, value: u8) -> ApuView {
        if addr == 0xFF21 {
            ApuView { ch4_nr42: value, ch4: self.ch4.with_envelope(value), ..self }
        } else if addr == 0xFF22 {
            ApuView { ch4_nr43: value, ch4: self.ch4.with_clock(value), ..self }
        } else {
            let ch4 = self.ch4.with_length_switch(value);
            ApuView { ch4: if value & 0x80 != 0 { ch4.triggered() } else { ch4 }, ..self }
        }
    }

    /// The unit after `value` was written to the register at `addr`. Switched off, it
    /// takes only the power, volume and routing registers and the wave table.
    pub open spec fn written(self, addr: u16, value: u8) -> ApuView {
        if addr == 0xFF26 {
            self.with_power(value)
        } else if addr == 0xFF24 {
            self.with_volume(value)
        } else if addr == 0xFF25 {
            ApuView { nr51: value, ..self }
        } else if 0xFF30 <= addr <= 0xFF3F {
            ApuView { ch3: self.ch3.with_table(addr - 0xFF30, value), ..self }
        } else if !self.powered() {
            self
        } else if 0xFF10 <= addr <= 0xFF14 {
            self.with_ch1(addr, value)
        } else if 0xFF16 <= addr <= 0xFF19 {
            self.with_ch2(addr, value)
        } else if 0xFF1A <= addr <= 0xFF1E {
            self.with_ch3(addr, value)
        } else if 0xFF21 <= addr <= 0xFF23 {
            self.with_ch4(addr, value)
        } else {
            self
        }
    }

    /// The stored form of the power, volume and routing registers and of the frame
    /// sequencer and the sampler.
    #[verifier::opaque]
    pub open spec fn encode_control(self) -> Seq<u8> {
        seq![self.nr50, self.nr51, self.nr52, self.frame_step] + le64(self.frame_cycle) + le64(
            self.sample_cycle,
        ) + le64(self.sample_frac)
    }

    /// The stored form of the channels' registers.
    #[verifier::opaque]
    pub open spec fn encode_registers(self) -> Seq<u8> {
        seq![
            self.ch1_nr10,
            self.ch1_nr11,
            self.ch1_nr12,
            self.ch2_nr11,
            self.ch2_nr12,
            self.ch3_nr30,
            self.ch3_nr31,
            self.ch3_nr32,
            self.ch4_nr42,
            self.ch4_nr43,
        ]
    }

    /// The stored form.
    pub open spec fn encode(self) -> Seq<u8> {
        self.ch1.encode() + self.ch1_sweep.encode() + self.ch2.encode() + self.ch3.encode()
            + self.ch4.encode() + self.encode_control() + self.encode_registers()
            + self.filter.encode()
    }

    /// What is stored at `i`. The settings of the envelopes, the volumes and the
    /// records are not stored.
    pub open spec fn decode(s: Seq<u8>, i: int) -> ApuView {
        ApuView {
            ch1: SquareChannel::zero().decode(s, i),
            ch1_sweep: FrequencySweep::decode(s, i + 17),
            ch2: SquareChannel::zero().decode(s, i + 24),
            ch3: WaveView::decode(s, i + 41),
            ch4: NoiseChannel::zero().decode(s, i + 70),
            nr50: s[i + 87],
            nr51: s[i + 88],
            nr52: s[i + 89],
            frame_step: s[i + 90],
            frame_cycle: u64_at(s, i + 91),
            sample_cycle: u64_at(s, i + 99),
            sample_frac: u64_at(s, i + 107),
            buffer: Seq::empty(),
            ch1_nr10: s[i + 115],
            ch1_nr11: s[i + 116],
            ch1_nr12: s[i + 117],
            ch2_nr11: s[i + 118],
            ch2_nr12: s[i + 119],
            ch3_nr30: s[i + 120],
            ch3_nr31: s[i + 121],
            ch3_nr32: s[i + 122],
            ch4_nr42: s[i + 123],
            ch4_nr43: s[i + 124],
            filter: FilterBits::decode(s, i + 125),
            left_vol: 0,
            right_vol: 0,
        }
    }

    /// This unit without what the stored form leaves out: the settings of the
    /// envelopes, the volumes and the records.
    pub open spec fn persistent(self) -> ApuView {
        let kept = |e: VolumeEnvelope| VolumeEnvelope {
            cur_vol: e.cur_vol,
            timer: e.timer,
            ..VolumeEnvelope::zero()
        };
        ApuView {
            ch1: SquareChannel { envelope: kept(self.ch1.envelope), ..self.ch1 },
            ch2: SquareChannel { envelope: kept(self.ch2.envelope), ..self.ch2 },
            ch4: NoiseChannel { envelope: kept(self.ch4.envelope), ..self.ch4 },
            buffer: Seq::empty(),
            left_vol: 0,
            right_vol: 0,
            ..self
        }
    }

    proof fn lemma_part_lengths(self)
        requires
            self.ch3.wave_ram.len() == 16,
        ensures
            self.ch1.encode().len() == 17,
            self.ch1_sweep.encode().len() == 7,
            self.ch2.encode().len() == 17,
            self.ch3.encode().len() == 29,
            self.ch4.encode().len() == 17,
            self.encode_control().len() == 28,
            self.encode_registers().len() == 10,
            self.filter.encode().len() == 16,
            self.encode().len() == Self::spec_len(),
    {
        self.ch1.lemma_encode_len();
        self.ch2.lemma_encode_len();
        self.ch3.lemma_encode_len();
        self.ch4.lemma_encode_len();
        reveal(FrequencySweep::encode);
        reveal(ApuView::encode_control);
        reveal(ApuView::encode_registers);
        reveal(FilterBits::encode);
    }

    proof fn lemma_control_found(self, s: Seq<u8>, i: int)
        requires
            found_at(s, i, self.encode_control()),
        ensures
            s[i] == self.nr50,
            s[i + 1] == self.nr51,
            s[i + 2] == self.nr52,
            s[i + 3] == self.frame_step,
            u64_at(s, i + 4) == self.frame_cycle,
            u64_at(s, i + 12) == self.sample_cycle,
            u64_at(s, i + 20) == self.sample_frac,
    {
        broadcast use group_found;

        reveal(ApuView::encode_control);
    }

    proof fn lemma_registers_found(self, s: Seq<u8>, i: int)
        requires
            found_at(s, i, self.encode_registers()),
        ensures
            s[i] == self.ch1_nr10,
            s[i + 1] == self.ch1_nr11,
            s[i + 2] == self.ch1_nr12,
            s[i + 3] == self.ch2_nr11,
            s[i + 4] == self.ch2_nr12,
            s[i + 5] == self.ch3_nr30,
            s[i + 6] == self.ch3_nr31,
            s[i + 7] == self.ch3_nr32,
            s[i + 8] == self.ch4_nr42,
            s[i + 9] == self.ch4_nr43,
    {
        broadcast use group_found;

        reveal(ApuView::encode_registers);
    }

    /// A unit that was saved is loaded unchanged, but for what the stored form leaves
    /// out.
    pub proof fn law_load_restores_saved(self, s: Seq<u8>, i: int)
        requires
            self.ch3.wave_ram.len() == 16,
            found_at(s, i, self.encode()),
        ensures
            self.encode().len() == Self::spec_len(),
            Self::decode(s, i) == self.persistent(),
    {
        let z = SquareChannel::zero();
        let (e1, es, e2, e3, e4) = (
            self.ch1.encode(),
            self.ch1_sweep.encode(),
            self.ch2.encode(),
            self.ch3.encode(),
            self.ch4.encode(),
        );
        let (ec, er, ef) = (self.encode_control(), self.encode_registers(), self.filter.encode());
        self.lemma_part_lengths();
        lemma_found_split(s, i, e1 + es + e2 + e3 + e4 + ec + er, ef);
        lemma_found_split(s, i, e1 + es + e2 + e3 + e4 + ec, er);
        lemma_found_split(s, i, e1 + es + e2 + e3 + e4, ec);
        lemma_found_split(s, i, e1 + es + e2 + e3, e4);
        lemma_found_split(s, i, e1 + es + e2, e3);
        lemma_found_split(s, i, e1 + es, e2);
        lemma_found_split(s, i, e1, es);
        self.ch1.law_load_restores_saved(z, s, i);
        self.ch1_sweep.lemma_round_trip(s, i + 17);
        self.ch2.law_load_restores_saved(z, s, i + 24);
        self.ch3.law_load_restores_saved(s, i + 41);
        self.ch4.law_load_restores_saved(NoiseChannel::zero(), s, i + 70);
        self.lemma_control_found(s, i + 87);
        self.lemma_registers_found(s, i + 115);
        self.filter.lemma_round_trip(s, i + 125);
        assert(Self::decode(s, i) =~= self.persistent());
    }

    /// A register that has all its bits reads back what was written to it.
    pub proof fn law_written_is_read(self, addr: u16, value: u8)
        requires
            self.wf(),
            self.powered(),
            addr == 0xFF12 || addr == 0xFF17 || addr == 0xFF1A || addr == 0xFF21 || addr == 0xFF22
                || addr == 0xFF24 || addr == 0xFF25 || 0xFF30 <= addr <= 0xFF3F,
        ensures
            self.written(addr, value).register(addr) == value,
    {
    }

    /// Switched off, the unit ignores its channel registers, and the status register
    /// shows no channel.
    pub proof fn law_power_off(self, value: u8, addr: u16, other: u8)
        requires
            self.powered(),
            value & 0x80 == 0,
            0xFF10 <= addr <= 0xFF23,
        ensures
            !self.written(0xFF26, value).powered(),
            self.written(0xFF26, value).register(0xFF26) == 0,
            self.written(0xFF26, value).written(addr, other) == self.written(0xFF26, value),
    {
        assert(0u8 & 0x80 == 0) by (bit_vector);
    }

    /// Clocking the sequencer keeps the settings valid.
    pub proof fn lemma_sequenced_by_wf(self, n: nat)
        requires
            self.wf(),
        ensures
            self.sequenced_by(n).wf(),
        decreases n,
    {
        if n > 0 {
            self.lemma_sequenced_by_wf((n - 1) as nat);
        }
    }
}

impl Apu {
    /// A sound unit that is switched off.
    pub fn new() -> (r: Self)
        ensures
            r@ == ApuView::zero(),
            r@.wf(),
    {
        let r = Self {
            ch1: SquareChannel::new(),
            ch1_sweep: FrequencySweep::new(),
            ch2: SquareChannel::new(),
            ch3: WaveChannel::new(),
            ch4: NoiseChannel::new(),
            nr50: 0,
            nr51: 0,
            nr52: 0,
            frame_step: 0,
            frame_cycle: 0,
            sample_cycle: 0,
            sample_frac: 0,
            buffer: Vec::with_capacity(2048),
            ch1_nr10: 0,
            ch1_nr11: 0,
            ch1_nr12: 0,
            ch2_nr11: 0,
            ch2_nr12: 0,
            ch3_nr30: 0,
            ch3_nr31: 0,
            ch3_nr32: 0,
            ch4_nr42: 0,
            ch4_nr43: 0,
            filter: FilterBits { hpf_left: 0, hpf_right: 0, prev_left: 0, prev_right: 0 },
            left_vol: 0,
            right_vol: 0,
        };
        assert(r@ =~= ApuView::zero());
        r
    }

    /// The status register.
    pub fn nr52(&self) -> (r: u8)
        ensures
            r == self@.status(),
    {
        let mut val: u8 = self.nr52 & 0x80;
        if self.ch1.enabled {
            val = val | 0x01;
        }
        if self.ch2.enabled {
            val = val | 0x02;
        }
        if self.ch3.enabled {
            val = val | 0x04;
        }
        if self.ch4.enabled {
            val = val | 0x08;
        }
        val
    }

    /// Hands out the records so far, oldest first, and forgets them.
    pub fn drain_samples(&mut self) -> (r: Vec<AudioEvent>)
        ensures
            r@ == old(self)@.buffer,
            final(self)@ == (ApuView { buffer: Seq::empty(), ..old(self)@ }),
    {
        let mut out: Vec<AudioEvent> = Vec::new();
        std::mem::swap(&mut self.buffer, &mut out);
        out
    }

    /// Takes over the state of the output filter from the front end.
    pub fn store_filter(&mut self, filter: FilterBits)
        ensures
            final(self)@ == (ApuView { filter, ..old(self)@ }),
    {
        self.filter = filter;
    }

    /// What the channels put out now, routed to the sides.
    pub fn mix(&self) -> (r: MixFrame)
        requires
            self@.wf(),
        ensures
            r == self@.mixed(),
    {
        let ch1 = self.ch1.sample();
        let ch2 = self.ch2.sample();
        let ch3 = self.ch3.sample();
        let ch4 = self.ch4.sample();
        let routing = self.nr51;
        MixFrame {
            left: Levels {
                ch1: if routing & 0x01 != 0 { ch1 } else { 0 },
                ch2: if routing & 0x02 != 0 { ch2 } else { 0 },
                ch3: if routing & 0x04 != 0 { ch3 } else { 0 },
                ch4: if routing & 0x08 != 0 { ch4 } else { 0 },
            },
            right: Levels {
                ch1: if routing & 0x10 != 0 { ch1 } else { 0 },
                ch2: if routing & 0x20 != 0 { ch2 } else { 0 },
                ch3: if routing & 0x40 != 0 { ch3 } else { 0 },
                ch4: if routing & 0x80 != 0 { ch4 } else { 0 },
            },
            left_vol: self.left_vol,
            right_vol: self.right_vol,
        }
    }

    /// Records `event` for each sample that is due after `cycles` cycles.
    fn take_samples(&mut self, cycles: u64, event: AudioEvent)
        ensures
            final(self)@ == old(self)@.sampled(cycles, event),
    {
        self.sample_cycle = self.sample_cycle.wrapping_add(cycles);
        let ghost start = self@;
        let ghost mut taken: nat = 0;
        assert(start.buffer + Seq::new(taken, |i: int| event) =~= start.buffer);
        loop
            invariant
                ({
                    let (c, f, n) = samples_due(start.sample_cycle, start.sample_frac);
                    let (c2, f2, n2) = samples_due(self.sample_cycle, self.sample_frac);
                    c == c2 && f == f2 && n == n2 + taken
                }),
                self@ == (ApuView {
                    sample_cycle: self.sample_cycle,
                    sample_frac: self.sample_frac,
                    buffer: start.buffer + Seq::new(taken, |i: int| event),
                    ..start
                }),
            ensures
                self.sample_cycle < sample_cycles(self.sample_frac),
            decreases self.sample_cycle,
        {
            let frac: u64 = self.sample_frac.wrapping_add(CYCLES_PER_SAMPLE_REM);
            let needed: u64 = if frac >= SAMPLE_RATE {
                CYCLES_PER_SAMPLE + 1
            } else {
                CYCLES_PER_SAMPLE
            };
            if self.sample_cycle < needed {
                break;
            }
            self.sample_cycle = self.sample_cycle - needed;
            self.sample_frac = if frac >= SAMPLE_RATE { frac - SAMPLE_RATE } else { frac };
            self.buffer.push(event);
            proof {
                assert(self.buffer@ =~= start.buffer + Seq::new(taken + 1, |i: int| event));
                taken = taken + 1;
            }
        }
        assert(self@ =~= old(self)@.sampled(cycles, event));
    }

    fn clock_lengths(&mut self)
        ensures
            final(self)@ == old(self)@.lengths_clocked(),
    {
        self.ch1.clock_length();
        self.ch2.clock_length();
        self.ch3.clock_length();
        self.ch4.clock_length();
    }

    fn clock_sweep(&mut self)
        ensures
            final(self)@ == old(self)@.sweep_clocked(),
    {
        self.ch1_sweep.clock(&mut self.ch1.freq, &mut self.ch1.enabled);
    }

    fn clock_envelopes(&mut self)
        ensures
            final(self)@ == old(self)@.envelopes_clocked(),
    {
        self.ch1.envelope.clock();
        self.ch2.envelope.clock();
        self.ch4.envelope.clock();
    }

    /// One clock of the frame sequencer.
    fn clock_sequencer(&mut self)
        ensures
            final(self)@ == old(self)@.sequenced(),
    {
        let step = self.frame_step;
        if step == 0 || step == 2 || step == 4 || step == 6 {
            self.clock_lengths();
        }
        if step == 2 || step == 6 {
            self.clock_sweep();
        }
        if step == 4 || step == 6 {
            self.clock_envelopes();
        }
        self.frame_step = ((step as u16 + 1) % 8) as u8;
    }

    /// Runs the frame sequencer for `cycles` cycles.
    fn run_sequencer(&mut self, cycles: u64)
        ensures
            final(self)@ == old(self)@.sequencer_run(cycles),
    {
        let total: u64 = self.frame_cycle.wrapping_add(cycles);
        self.frame_cycle = total % FRAME_SEQ_CYCLES;
        let clocks: u64 = total / FRAME_SEQ_CYCLES;
        let ghost start = self@;
        let mut done: u64 = 0;
        while done < clocks
            invariant
                done <= clocks,
                self@ == start.sequenced_by(done as nat),
            decreases clocks - done,
        {
            self.clock_sequencer();
            done = done + 1;
        }
        assert(start =~= ApuView { frame_cycle: total % FRAME_SEQ_CYCLES, ..old(self)@ });
    }

    /// Runs the unit for `cycles` cycles.
    pub fn step(&mut self, cycles: u64)
        requires
            old(self)@.wf(),
        ensures
            final(self)@ == old(self)@.stepped(cycles),
            final(self)@.wf(),
    {
        if self.nr52 & 0x80 == 0 {
            self.take_samples(cycles, AudioEvent::Silence);
            return;
        }
        self.run_sequencer(cycles);
        proof {
            let total = old(self)@.frame_cycle.wrapping_add(cycles);
            ApuView { frame_cycle: total % FRAME_SEQ_CYCLES, ..old(self)@ }.lemma_sequenced_by_wf(
                (total / FRAME_SEQ_CYCLES) as nat,
            );
        }
        self.ch1.step(cycles);
        self.ch2.step(cycles);
        self.ch3.step(cycles);
        self.ch4.step(cycles);
        assert(self@ =~= old(self)@.sequencer_run(cycles).channels_run(cycles));
        let frame = self.mix();
        self.take_samples(cycles, AudioEvent::Mix(frame));
    }

    /// Reads the register at `addr`.
    pub fn read(&self, addr: u16) -> (r: u8)
        requires
            self@.wf(),
        ensures
            r == self@.register(addr),
    {
        match addr {
            0xFF10 => 0x80 | (self.ch1_nr10 & 0x77),
            0xFF11 => 0x3F | (self.ch1_nr11 & 0xC0),
            0xFF12 => self.ch1_nr12,
            0xFF13 => 0xFF,
            0xFF14 => 0xBF | (if self.ch1.length_enable { 0x40 } else { 0 }),
            0xFF16 => 0x3F | (self.ch2_nr11 & 0xC0),
            0xFF17 => self.ch2_nr12,
            0xFF18 => 0xFF,
            0xFF19 => 0xBF | (if self.ch2.length_enable { 0x40 } else { 0 }),
            0xFF1A => self.ch3_nr30,
            0xFF1B => 0xFF,
            0xFF1C => self.ch3_nr32 & 0x60,
            0xFF1D => 0xFF,
            0xFF1E => 0xBF | (if self.ch3.length_enable { 0x40 } else { 0 }),
            0xFF20 => 0xFF,
            0xFF21 => self.ch4_nr42,
            0xFF22 => self.ch4_nr43,
            0xFF23 => 0xBF | (if self.ch4.length_enable { 0x40 } else { 0 }),
            0xFF24 => self.nr50,
            0xFF25 => self.nr51,
            0xFF26 => self.nr52(),
            0xFF30..=0xFF3F => self.ch3.wave_ram[(addr - 0xFF30) as usize],
            _ => 0xFF,
        }
    }

    /// Writes the register at `addr`.
    pub fn write(&mut self, addr: u16, value: u8)
        requires
            old(self)@.wf(),
        ensures
            final(self)@ == old(self)@.written(addr, value),
            final(self)@.wf(),
    {
        if addr == 0xFF26 {
            let was_on = self.nr52 & 0x80 != 0;
            let now_on = value & 0x80 != 0;
            if was_on && !now_on {
                self.reset_power();
            }
            self.nr52 = value & 0x80;
            assert(self@ =~= old(self)@.written(addr, value));
            return;
        }
        if addr == 0xFF24 {
            self.nr50 = value;
            self.left_vol = value % 8;
            self.right_vol = (value / 16) % 8;
            return;
        }
        if addr == 0xFF25 {
            self.nr51 = value;
            return;
        }
        if 0xFF30 <= addr && addr <= 0xFF3F {
            self.ch3.write_table((addr - 0xFF30) as usize, value);
            return;
        }
        if self.nr52 & 0x80 == 0 {
            return;
        }
        if 0xFF10 <= addr && addr <= 0xFF14 {
            self.write_ch1(addr, value);
        } else if 0xFF16 <= addr && addr <= 0xFF19 {
            self.write_ch2(addr, value);
        } else if 0xFF1A <= addr && addr <= 0xFF1E {
            self.write_ch3(addr, value);
        } else if 0xFF21 <= addr && addr <= 0xFF23 {
            self.write_ch4(addr, value);
        }
    }

    /// Writes a register of the first channel.
    fn write_ch1(&mut self, addr: u16, value: u8)
        requires
            0xFF10 <= addr <= 0xFF14,
            old(self)@.wf(),
        ensures
            final(self)@ == old(self)@.with_ch1(addr, value),
            final(self)@.wf(),
    {
        match addr {
            0xFF10 => {
                self.ch1_nr10 = value;
                self.ch1_sweep.period = (value / 16) % 8;
                self.ch1_sweep.direction = value & 0x08 == 0;
                self.ch1_sweep.shift = value % 8;
            }
            0xFF11 => {
                self.ch1_nr11 = value;
                self.ch1.write_duty_length(value);
            }
            0xFF12 => {
                self.ch1_nr12 = value;
                self.ch1.write_envelope(value);
            }
            0xFF13 => {
                self.ch1.write_freq_low(value);
            }
            _ => {
                self.ch1.write_freq_high(value);
                if value & 0x80 != 0 {
                    self.ch1.trigger();
                    self.ch1_sweep.trigger(
                        self.ch1.freq,
                        (self.ch1_nr10 / 16) % 8,
                        self.ch1_nr10 & 0x08 == 0,
                        self.ch1_nr10 % 8,
                    );
                }
            }
        }
    }

    /// Writes a register of the second channel.
    fn write_ch2(&mut self, addr: u16, value: u8)
        requires
            0xFF16 <= addr <= 0xFF19,
            old(self)@.wf(),
        ensures
            final(self)@ == old(self)@.with_ch2(addr, value),
            final(self)@.wf(),
    {
        match addr {
            0xFF16 => {
                self.ch2_nr11 = value;
                self.ch2.write_duty_length(value);
            }
            0xFF17 => {
                self.ch2_nr12 = value;
                self.ch2.write_envelope(value);
            }
            0xFF18 => {
                self.ch2.write_freq_low(value);
            }
            _ => {
                self.ch2.write_freq_high(value);
                if value & 0x80 != 0 {
                    self.ch2.trigger();
                }
            }
        }
    }

    /// Writes a register of the third channel.
    fn write_ch3(&mut self, addr: u16, value: u8)
        requires
            0xFF1A <= addr <= 0xFF1E,
            old(self)@.wf(),
        ensures
            final(self)@ == old(self)@.with_ch3(addr, value),
            final(self)@.wf(),
    {
        match addr {
            0xFF1A => {
                self.ch3_nr30 = value;
                self.ch3.write_dac(value);
            }
            0xFF1B => {
                self.ch3_nr31 = value;
                self.ch3.length_data = value;
            }
            0xFF1C => {
                self.ch3_nr32 = value;
                self.ch3.vol_code = (value / 32) % 4;
            }
            0xFF1D => {
                self.ch3.write_freq_low(value);
            }
            _ => {
                self.ch3.write_freq_high(value);
                if value & 0x80 != 0 {
                    self.ch3.trigger();
                }
            }
        }
    }

    /// Writes a register of the fourth channel.
    fn write_ch4(&mut self, addr: u16, value: u8)
        requires
            0xFF21 <= addr <= 0xFF23,
            old(self)@.wf(),
        ensures
            final(self)@ == old(self)@.with_ch4(addr, value),
            final(self)@.wf(),
    {
        match addr {
            0xFF21 => {
                self.ch4_nr42 = value;
                self.ch4.write_envelope(value);
            }
            0xFF22 => {
                self.ch4_nr43 = value;
                self.ch4.write_clock(value);
            }
            _ => {
                self.ch4.write_length_switch(value);
                if value & 0x80 != 0 {
                    self.ch4.trigger();
                }
            }
        }
    }

    /// Clears all channels and registers, as on switching off.
    fn reset_power(&mut self)
        ensures
            final(self)@ == old(self)@.power_cleared(),
    {
        self.ch1 = SquareChannel::new();
        self.ch1_sweep = FrequencySweep::new();
        self.ch2 = SquareChannel::new();
        self.ch3 = WaveChannel::new();
        self.ch4 = NoiseChannel::new();
        self.nr50 = 0;
        self.nr51 = 0;
        self.ch1_nr10 = 0;
        self.ch1_nr11 = 0;
        self.ch1_nr12 = 0;
        self.ch2_nr11 = 0;
        self.ch2_nr12 = 0;
        self.ch3_nr30 = 0;
        self.ch3_nr31 = 0;
        self.ch3_nr32 = 0;
        self.ch4_nr42 = 0;
        self.ch4_nr43 = 0;
        self.filter = FilterBits { hpf_left: 0, hpf_right: 0, prev_left: 0, prev_right: 0 };
        self.buffer.push(AudioEvent::FilterReset);
        assert(self@ =~= old(self)@.power_cleared());
    }

    /// The channels' settings name existing waves, positions and divisors.
    pub fn is_consistent(&self) -> (r: bool)
        ensures
            r == self@.wf(),
    {
        self.ch1.duty < 4 && self.ch1.wave_pos < 8 && self.ch2.duty < 4 && self.ch2.wave_pos < 8
            && self.ch3.wave_ram.len() == 16 && self.ch3.sample_pos < 32 && self.ch4.divisor_code
            < 8
    }

    /// Appends the stored form.
    pub fn save_to_bytes(&self, buf: &mut Vec<u8>)
        ensures
            final(buf)@ == old(buf)@ + self@.encode(),
    {
        self.ch1.save(buf);
        self.ch1_sweep.save(buf);
        self.ch2.save(buf);
        self.ch3.save(buf);
        self.ch4.save(buf);
        self.save_control(buf);
        self.save_registers(buf);
        self.filter.save(buf);
        assert(buf@ =~= old(buf)@ + self@.encode());
    }

    fn save_control(&self, buf: &mut Vec<u8>)
        ensures
            final(buf)@ == old(buf)@ + self@.encode_control(),
    {
        buf.push(self.nr50);
        buf.push(self.nr51);
        buf.push(self.nr52);
        buf.push(self.frame_step);
        put_u64(buf, self.frame_cycle);
        put_u64(buf, self.sample_cycle);
        put_u64(buf, self.sample_frac);
        reveal(ApuView::encode_control);
        assert(buf@ =~= old(buf)@ + self@.encode_control());
    }

    fn save_registers(&self, buf: &mut Vec<u8>)
        ensures
            final(buf)@ == old(buf)@ + self@.encode_registers(),
    {
        buf.push(self.ch1_nr10);
        buf.push(self.ch1_nr11);
        buf.push(self.ch1_nr12);
        buf.push(self.ch2_nr11);
        buf.push(self.ch2_nr12);
        buf.push(self.ch3_nr30);
        buf.push(self.ch3_nr31);
        buf.push(self.ch3_nr32);
        buf.push(self.ch4_nr42);
        buf.push(self.ch4_nr43);
        reveal(ApuView::encode_registers);
        assert(buf@ =~= old(buf)@ + self@.encode_registers());
    }

    /// Restores a sound unit that is stored at the cursor.
    pub fn load_from_bytes(data: &[u8], pos: &mut usize) -> (r: Result<Self, Error>)
        requires
            *old(pos) + ApuView::spec_len() <= data@.len(),
        ensures
            r matches Ok(apu) && apu@ == ApuView::decode(data@, *old(pos) as int),
            *final(pos) == *old(pos) + ApuView::spec_len(),
    {
        let mut apu = Self::new();
        apu.ch1.load(data, pos);
        apu.ch1_sweep.load(data, pos);
        apu.ch2.load(data, pos);
        apu.ch3.load(data, pos);
        apu.ch4.load(data, pos);
        apu.nr50 = take_u8(data, pos);
        apu.nr51 = take_u8(data, pos);
        apu.nr52 = take_u8(data, pos);
        apu.frame_step = take_u8(data, pos);
        apu.frame_cycle = take_u64(data, pos);
        apu.sample_cycle = take_u64(data, pos);
        apu.sample_frac = take_u64(data, pos);
        apu.ch1_nr10 = take_u8(data, pos);
        apu.ch1_nr11 = take_u8(data, pos);
        apu.ch1_nr12 = take_u8(data, pos);
        apu.ch2_nr11 = take_u8(data, pos);
        apu.ch2_nr12 = take_u8(data, pos);
        apu.ch3_nr30 = take_u8(data, pos);
        apu.ch3_nr31 = take_u8(data, pos);
        apu.ch3_nr32 = take_u8(data, pos);
        apu.ch4_nr42 = take_u8(data, pos);
        apu.ch4_nr43 = take_u8(data, pos);
        apu.filter.hpf_left = take_u32(data, pos);
        apu.filter.hpf_right = take_u32(data, pos);
        apu.filter.prev_left = take_u32(data, pos);
        apu.filter.prev_right = take_u32(data, pos);
        assert(apu@ =~= ApuView::decode(data@, *old(pos) as int));
        Ok(apu)
    }
}

} // verus!
