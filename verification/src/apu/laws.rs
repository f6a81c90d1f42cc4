//! What the registers of the sound unit do to the channels, and what is heard of them.
use vstd::prelude::*;

use crate::apu::noise::{lfsr_after, NoiseChannel};
use crate::apu::square::SquareChannel;
use crate::apu::units::{divider, FrequencySweep, LengthCounter, VolumeEnvelope};
use crate::apu::wave::WaveView;
use crate::apu::{law_sample_rate_is_exact, ApuView, AudioEvent};
use crate::bits::{bit, lemma_mask_tests_bit};

verus! {

impl ApuView {
    /// The frequency of a tone has eleven bits: eight from one register, and three more from
    /// the next, whose bit 7 starts the tone. The divider then starts at four times what is
    /// missing to 2048.
    pub proof fn law_frequency_from_two_registers(self, low: u8, high: u8)
        requires
            bit(self.nr52, 7),
        ensures
            ({
                let freq = low + 256 * (high as int % 8);
                let one = self.written(0xFF13, low).written(0xFF14, high).ch1;
                let two = self.written(0xFF18, low).written(0xFF19, high).ch2;
                let three = self.written(0xFF1D, low).written(0xFF1E, high).ch3;
                &&& one.freq == freq
                &&& two.freq == freq
                &&& three.freq == freq
                &&& bit(high, 7) ==> {
                    &&& one.enabled && one.freq_timer == 4 * (2048 - freq) && one.wave_pos == 0
                    &&& two.enabled && two.freq_timer == 4 * (2048 - freq) && two.wave_pos == 0
                    &&& three.enabled && three.freq_timer == 4 * (2048 - freq) && three.sample_pos
                        == 0
                }
                &&& !bit(high, 7) ==> {
                    &&& one.enabled == self.ch1.enabled && one.freq_timer == self.ch1.freq_timer
                    &&& two.enabled == self.ch2.enabled && two.freq_timer == self.ch2.freq_timer
                    &&& three.enabled == self.ch3.enabled && three.freq_timer
                        == self.ch3.freq_timer
                }
            }),
    {
        lemma_mask_tests_bit(self.nr52);
        lemma_mask_tests_bit(high);
        lemma_low_then_high(self.ch1.freq, low, high);
        lemma_low_then_high(self.ch2.freq, low, high);
        lemma_low_then_high(self.ch3.freq, low, high);
    }

    /// The two halves of a frequency can be written in either order, and neither changes the
    /// other.
    pub proof fn law_frequency_in_either_order(self, low: u8, high: u8)
        requires
            bit(self.nr52, 7),
            !bit(high, 7),
        ensures
            ({
                let freq = low + 256 * (high as int % 8);
                &&& self.written(0xFF14, high).written(0xFF13, low).ch1.freq == freq
                &&& self.written(0xFF19, high).written(0xFF18, low).ch2.freq == freq
                &&& self.written(0xFF1E, high).written(0xFF1D, low).ch3.freq == freq
            }),
    {
        lemma_mask_tests_bit(self.nr52);
        lemma_mask_tests_bit(high);
        lemma_high_then_low(self.ch1.freq, low, high);
        lemma_high_then_low(self.ch2.freq, low, high);
        lemma_high_then_low(self.ch3.freq, low, high);
    }

    /// The length that a channel starts with: what the length register leaves of 64 steps, of
    /// 256 in the wave channel. Bit 6 of the last register lets it run.
    pub proof fn law_length_from_registers(self, length: u8, high: u8)
        requires
            bit(self.nr52, 7),
            bit(high, 7),
        ensures
            ({
                let one = self.written(0xFF11, length).written(0xFF14, high).ch1;
                let two = self.written(0xFF16, length).written(0xFF19, high).ch2;
                let three = self.written(0xFF1B, length).written(0xFF1E, high).ch3;
                let four = self.written(0xFF23, high).ch4;
                &&& one.length.counter == 64 - length as int % 64
                &&& two.length.counter == 64 - length as int % 64
                &&& three.length.counter == 256 - length
                &&& four.length.counter == 64
                &&& one.duty == length / 64 && two.duty == length / 64
                &&& one.length.enabled == bit(high, 6) && one.length_enable == bit(high, 6)
                &&& two.length.enabled == bit(high, 6) && two.length_enable == bit(high, 6)
                &&& three.length.enabled == bit(high, 6) && three.length_enable == bit(high, 6)
                &&& four.length.enabled == bit(high, 6) && four.length_enable == bit(high, 6)
            }),
    {
        lemma_mask_tests_bit(self.nr52);
        lemma_mask_tests_bit(high);
    }

    /// The envelope register: the volume that a channel starts with in its high half, then
    /// whether it rises, then the period. A value below eight switches the channel off.
    pub proof fn law_envelope_from_register(self, v: u8, high: u8)
        requires
            bit(self.nr52, 7),
        ensures
            ({
                let set = |e: VolumeEnvelope|
                    e.initial_vol == v / 16 && e.direction == bit(v, 3) && e.period == v % 8;
                let started = |e: VolumeEnvelope|
                    set(e) && e.cur_vol == v / 16 && e.timer == v % 8;
                let one = self.written(0xFF12, v);
                let two = self.written(0xFF17, v);
                let four = self.written(0xFF21, v);
                &&& set(one.ch1.envelope) && set(two.ch2.envelope) && set(four.ch4.envelope)
                &&& one.ch1.enabled == (self.ch1.enabled && v >= 8)
                &&& two.ch2.enabled == (self.ch2.enabled && v >= 8)
                &&& four.ch4.enabled == (self.ch4.enabled && v >= 8)
                &&& one.ch1.dac_on() == (v >= 8)
                &&& two.ch2.dac_on() == (v >= 8)
                &&& four.ch4.dac_on() == (v >= 8)
                &&& bit(high, 7) ==> {
                    &&& started(one.written(0xFF14, high).ch1.envelope)
                    &&& started(two.written(0xFF19, high).ch2.envelope)
                    &&& started(four.written(0xFF23, high).ch4.envelope)
                }
            }),
    {
        lemma_mask_tests_bit(self.nr52);
        lemma_mask_tests_bit(high);
        lemma_mask_tests_bit(v);
        lemma_high_bits(v);
    }

    /// The sweep register: the period, whether the frequency falls, and the shift. A start of
    /// the channel loads the frequency and the timer.
    pub proof fn law_sweep_from_register(self, v: u8, high: u8)
        requires
            bit(self.nr52, 7),
            bit(high, 7),
        ensures
            ({
                let period = (v as int / 16) % 8;
                let set = self.written(0xFF10, v);
                let s = set.written(0xFF14, high);
                &&& set.ch1_sweep.period == period
                &&& set.ch1_sweep.direction == !bit(v, 3)
                &&& set.ch1_sweep.shift == v % 8
                &&& s.ch1_sweep.period == period
                &&& s.ch1_sweep.direction == !bit(v, 3)
                &&& s.ch1_sweep.shift == v % 8
                &&& s.ch1_sweep.shadow_freq == s.ch1.freq
                &&& s.ch1_sweep.timer == (if period == 0 { 8int } else { period })
                &&& s.ch1_sweep.enabled == (period != 0 || v % 8 != 0)
            }),
    {
        lemma_mask_tests_bit(self.nr52);
        lemma_mask_tests_bit(high);
        lemma_mask_tests_bit(v);
    }

    /// The noise register: the shift in its high half, then the length of the sequence, then
    /// the divisor, sixteen for each but eight for zero. A start of the channel fills the
    /// shift register and loads the divider.
    pub proof fn law_noise_from_register(self, v: u8, high: u8)
        requires
            bit(self.nr52, 7),
            bit(high, 7),
        ensures
            ({
                let s = self.written(0xFF22, v).written(0xFF23, high).ch4;
                let base: u32 = if v % 8 == 0 { 8 } else { (16 * (v % 8)) as u32 };
                &&& s.enabled
                &&& s.lfsr == 0x7FFF
                &&& s.width_mode == bit(v, 3)
                &&& s.divisor_code == v % 8
                &&& s.clock_shift == v / 16
                &&& s.freq_timer == (base << ((v / 16) as u32)) as u16
            }),
    {
        lemma_mask_tests_bit(self.nr52);
        lemma_mask_tests_bit(high);
        lemma_mask_tests_bit(v);
    }

    /// The registers of the wave channel: bit 7 of the first switches it, off at once; bits 5
    /// and 6 of another are its volume; the table takes bytes as they are, at any time.
    pub proof fn law_wave_from_registers(self, v: u8, i: int)
        requires
            self.wf(),
            0 <= i < 16,
        ensures
            ({
                let s = self.written((0xFF30 + i) as u16, v);
                &&& bit(self.nr52, 7) ==> {
                    let dac = self.written(0xFF1A, v).ch3;
                    let vol = self.written(0xFF1C, v).ch3;
                    &&& dac.dac_enabled == bit(v, 7)
                    &&& dac.enabled == (self.ch3.enabled && bit(v, 7))
                    &&& vol.vol_code == (v as int / 32) % 4
                }
                &&& s == (ApuView {
                    ch3: WaveView { wave_ram: self.ch3.wave_ram.update(i, v), ..self.ch3 },
                    ..self
                })
                &&& self.register((0xFF30 + i) as u16) == self.ch3.wave_ram[i]
            }),
    {
        lemma_mask_tests_bit(self.nr52);
        lemma_mask_tests_bit(v);
    }

    /// The volumes of the sides and the routing.
    pub proof fn law_volume_and_routing(self, v: u8)
        ensures
            self.written(0xFF24, v) == (ApuView {
                nr50: v,
                left_vol: v % 8,
                right_vol: (v / 16) % 8,
                ..self
            }),
            self.written(0xFF25, v) == (ApuView { nr51: v, ..self }),
    {
    }

    /// A side hears a channel exactly when the channel's bit in the routing register is set:
    /// bits 0 to 3 for the left side, 4 to 7 for the right one.
    pub proof fn law_mix_follows_routing(self)
        requires
            self.wf(),
        ensures
            ({
                let m = self.mixed();
                let heard = |on: bool, level: int| if on { level as i16 } else { 0i16 };
                &&& m.left.ch1 == heard(bit(self.nr51, 0), self.ch1.level())
                &&& m.left.ch2 == heard(bit(self.nr51, 1), self.ch2.level())
                &&& m.left.ch3 == heard(bit(self.nr51, 2), self.ch3.level())
                &&& m.left.ch4 == heard(bit(self.nr51, 3), self.ch4.level())
                &&& m.right.ch1 == heard(bit(self.nr51, 4), self.ch1.level())
                &&& m.right.ch2 == heard(bit(self.nr51, 5), self.ch2.level())
                &&& m.right.ch3 == heard(bit(self.nr51, 6), self.ch3.level())
                &&& m.right.ch4 == heard(bit(self.nr51, 7), self.ch4.level())
                &&& m.left_vol == self.left_vol
                &&& m.right_vol == self.right_vol
            }),
    {
        lemma_mask_tests_bit(self.nr51);
    }

    /// The level of each channel: none unless it is on with its converter on. A square wave
    /// has its volume up in the last one, two, four or five eighths of a turn and down before;
    /// noise is up while the lowest bit of the shift register is clear; a wave has the sample
    /// of its table, the high half of a byte first, at full, half or quarter volume.
    pub proof fn law_levels(self)
        requires
            self.wf(),
        ensures
            ({
                let eighths = |duty: u8| if duty == 0 {
                    1int
                } else if duty == 1 {
                    2
                } else if duty == 2 {
                    4
                } else {
                    5
                };
                let square = |c: SquareChannel| if !c.enabled || (c.initial_vol == 0
                    && !c.env_direction) {
                    0int
                } else if c.wave_pos + eighths(c.duty) >= 8 {
                    c.envelope.cur_vol as int
                } else {
                    -(c.envelope.cur_vol as int)
                };
                let at = self.ch3.sample_pos as int;
                let byte = self.ch3.wave_ram[at / 2] as int;
                let sample = if at % 2 == 0 { byte / 16 } else { byte % 16 };
                let code = self.ch3.vol_code;
                &&& self.ch1.level() == square(self.ch1)
                &&& self.ch2.level() == square(self.ch2)
                &&& self.ch3.level() == (if !self.ch3.enabled || !self.ch3.dac_enabled || code == 0
                    || code > 3 {
                    0
                } else if code == 1 {
                    sample
                } else if code == 2 {
                    sample / 2
                } else {
                    sample / 4
                })
                &&& self.ch4.level() == (if !self.ch4.enabled || (self.ch4.initial_vol == 0
                    && !self.ch4.env_direction) {
                    0int
                } else if self.ch4.lfsr % 2 == 0 {
                    self.ch4.envelope.cur_vol as int
                } else {
                    -(self.ch4.envelope.cur_vol as int)
                })
            }),
    {
    }

    /// The status register: the power in bit 7, the channels that are on in bits 0 to 3.
    pub proof fn law_status_bits(self)
        ensures
            ({
                let weight = |on: bool, w: int| if on { w } else { 0 };
                self.register(0xFF26) == weight(bit(self.nr52, 7), 128) + weight(
                    self.ch4.enabled,
                    8,
                ) + weight(self.ch3.enabled, 4) + weight(self.ch2.enabled, 2) + weight(
                    self.ch1.enabled,
                    1,
                )
            }),
    {
        lemma_mask_tests_bit(self.nr52);
        lemma_power_bit(self.nr52);
        lemma_status(
            bit(self.nr52, 7),
            self.ch1.enabled,
            self.ch2.enabled,
            self.ch3.enabled,
            self.ch4.enabled,
        );
    }

    /// What the other registers read: bits that cannot be read are set.
    pub proof fn law_registers_are_read(self)
        ensures
            ({
                let length = |on: bool| if on { 255int } else { 191 };
                let duty = |v: u8| 63 + 64 * (v as int / 64);
                &&& self.register(0xFF10) == 128 + 16 * ((self.ch1_nr10 as int / 16) % 8)
                    + self.ch1_nr10 as int % 8
                &&& self.register(0xFF11) == duty(self.ch1_nr11)
                &&& self.register(0xFF12) == self.ch1_nr12
                &&& self.register(0xFF13) == 255
                &&& self.register(0xFF14) == length(self.ch1.length_enable)
                &&& self.register(0xFF15) == 255
                &&& self.register(0xFF16) == duty(self.ch2_nr11)
                &&& self.register(0xFF17) == self.ch2_nr12
                &&& self.register(0xFF18) == 255
                &&& self.register(0xFF19) == length(self.ch2.length_enable)
                &&& self.register(0xFF1A) == self.ch3_nr30
                &&& self.register(0xFF1B) == 255
                &&& self.register(0xFF1C) == 32 * ((self.ch3_nr32 as int / 32) % 4)
                &&& self.register(0xFF1D) == 255
                &&& self.register(0xFF1E) == length(self.ch3.length_enable)
                &&& self.register(0xFF21) == self.ch4_nr42
                &&& self.register(0xFF22) == self.ch4_nr43
                &&& self.register(0xFF23) == length(self.ch4.length_enable)
                &&& self.register(0xFF24) == self.nr50
                &&& self.register(0xFF25) == self.nr51
            }),
    {
        lemma_read_masks(self.ch1_nr10);
        lemma_read_masks(self.ch1_nr11);
        lemma_read_masks(self.ch2_nr11);
        lemma_read_masks(self.ch3_nr32);
        lemma_length_masks();
    }

    /// A write to a register of a channel that is switched on is kept for reading it.
    pub proof fn law_registers_are_kept(self, v: u8)
        requires
            bit(self.nr52, 7),
        ensures
            self.written(0xFF10, v).ch1_nr10 == v,
            self.written(0xFF11, v).ch1_nr11 == v,
            self.written(0xFF12, v).ch1_nr12 == v,
            self.written(0xFF16, v).ch2_nr11 == v,
            self.written(0xFF17, v).ch2_nr12 == v,
            self.written(0xFF1A, v).ch3_nr30 == v,
            self.written(0xFF1B, v).ch3_nr31 == v,
            self.written(0xFF1C, v).ch3_nr32 == v,
            self.written(0xFF21, v).ch4_nr42 == v,
            self.written(0xFF22, v).ch4_nr43 == v,
    {
        lemma_mask_tests_bit(self.nr52);
    }

    /// A write to the registers of one channel leaves the other channels and the mixer alone.
    pub proof fn law_channels_are_apart(self, addr: u16, v: u8)
        ensures
            ({
                let s = self.written(addr, v);
                &&& 0xFF10 <= addr <= 0xFF14 ==> s.ch2 == self.ch2 && s.ch3 == self.ch3 && s.ch4
                    == self.ch4
                &&& 0xFF15 <= addr <= 0xFF19 ==> s.ch1 == self.ch1 && s.ch3 == self.ch3 && s.ch4
                    == self.ch4
                &&& 0xFF1A <= addr <= 0xFF1E ==> s.ch1 == self.ch1 && s.ch2 == self.ch2 && s.ch4
                    == self.ch4
                &&& 0xFF20 <= addr <= 0xFF23 ==> s.ch1 == self.ch1 && s.ch2 == self.ch2 && s.ch3
                    == self.ch3
                &&& 0xFF10 <= addr <= 0xFF23 ==> {
                    &&& s.nr50 == self.nr50 && s.nr51 == self.nr51 && s.nr52 == self.nr52
                    &&& s.left_vol == self.left_vol && s.right_vol == self.right_vol
                    &&& s.frame_step == self.frame_step && s.frame_cycle == self.frame_cycle
                    &&& s.buffer == self.buffer
                }
            }),
    {
    }

    /// Bit 7 of the power register is all that is kept of it. Switching the unit off clears
    /// the channels, their registers, the volume and routing registers and the table, and
    /// clears the filter; leaving it on or switching it on touches nothing else.
    pub proof fn law_power(self, v: u8)
        ensures
            ({
                let s = self.written(0xFF26, v);
                &&& s.nr52 == (if bit(v, 7) { 128int } else { 0 })
                &&& bit(v, 7) || !bit(self.nr52, 7) ==> s == (ApuView { nr52: s.nr52, ..self })
                &&& !bit(v, 7) && bit(self.nr52, 7) ==> {
                    &&& !s.ch1.enabled && !s.ch2.enabled && !s.ch3.enabled && !s.ch4.enabled
                    &&& s.nr50 == 0 && s.nr51 == 0
                    &&& s.ch1_nr10 == 0 && s.ch1_nr11 == 0 && s.ch1_nr12 == 0
                    &&& s.ch2_nr11 == 0 && s.ch2_nr12 == 0
                    &&& s.ch3_nr30 == 0 && s.ch3_nr31 == 0 && s.ch3_nr32 == 0
                    &&& s.ch4_nr42 == 0 && s.ch4_nr43 == 0
                    &&& s.ch1.freq == 0 && s.ch2.freq == 0 && s.ch3.freq == 0
                    &&& s.ch3.wave_ram == Seq::new(16, |i: int| 0u8)
                    &&& s.buffer == self.buffer.push(AudioEvent::FilterReset)
                }
            }),
    {
        lemma_mask_tests_bit(v);
        lemma_mask_tests_bit(self.nr52);
        lemma_power_bit(v);
    }

    /// A sound unit at power-on is off, with all registers zero and the shift register of the
    /// noise full.
    pub proof fn law_power_on()
        ensures
            ({
                let s = ApuView::zero();
                &&& s.wf()
                &&& s.nr50 == 0 && s.nr51 == 0 && s.nr52 == 0
                &&& s.left_vol == 0 && s.right_vol == 0
                &&& s.frame_step == 0 && s.frame_cycle == 0
                &&& s.sample_cycle == 0 && s.sample_frac == 0 && s.buffer.len() == 0
                &&& !s.ch1.enabled && !s.ch2.enabled && !s.ch3.enabled && !s.ch4.enabled
                &&& s.ch1.freq == 0 && s.ch2.freq == 0 && s.ch3.freq == 0
                &&& s.ch4.lfsr == 32767
                &&& s.ch3.wave_ram == Seq::new(16, |i: int| 0u8)
            }),
    {
    }

    /// One clock of the sequencer, which has eight steps: the lengths count in the even ones,
    /// the sweep in the third and the seventh, the envelopes in the fifth and the seventh.
    pub proof fn law_sequencer_steps(self)
        requires
            self.frame_step < 8,
        ensures
            ({
                let step = self.frame_step;
                let s = self.sequenced();
                let counted = |l: LengthCounter, on: bool| if step % 2 == 0 {
                    l.clocked(on).0
                } else {
                    l
                };
                let left = |l: LengthCounter, on: bool| if step % 2 == 0 {
                    l.clocked(on).1
                } else {
                    on
                };
                let faded = |e: VolumeEnvelope| if step == 4 || step == 6 {
                    e.clocked()
                } else {
                    e
                };
                let swept = self.ch1_sweep.clocked(
                    self.ch1.freq,
                    left(self.ch1.length, self.ch1.enabled),
                );
                &&& s.frame_step == (if step == 7 { 0int } else { step + 1 })
                &&& s.ch1.length == counted(self.ch1.length, self.ch1.enabled)
                &&& s.ch2.length == counted(self.ch2.length, self.ch2.enabled)
                &&& s.ch3.length == counted(self.ch3.length, self.ch3.enabled)
                &&& s.ch4.length == counted(self.ch4.length, self.ch4.enabled)
                &&& s.ch2.enabled == left(self.ch2.length, self.ch2.enabled)
                &&& s.ch3.enabled == left(self.ch3.length, self.ch3.enabled)
                &&& s.ch4.enabled == left(self.ch4.length, self.ch4.enabled)
                &&& s.ch1.envelope == faded(self.ch1.envelope)
                &&& s.ch2.envelope == faded(self.ch2.envelope)
                &&& s.ch4.envelope == faded(self.ch4.envelope)
                &&& step == 2 || step == 6 ==> s.ch1_sweep == swept.0 && s.ch1.freq == swept.1
                    && s.ch1.enabled == swept.2
                &&& step != 2 && step != 6 ==> s.ch1_sweep == self.ch1_sweep && s.ch1.freq
                    == self.ch1.freq && s.ch1.enabled == left(self.ch1.length, self.ch1.enabled)
                &&& s.ch2.freq == self.ch2.freq && s.ch3.freq == self.ch3.freq
            }),
    {
    }

    /// The sequencer is clocked once in 8192 cycles, and keeps what is left of them.
    pub proof fn law_sequencer_rate(self, cycles: u64)
        requires
            bit(self.nr52, 7),
            self.frame_step < 8,
            self.frame_cycle + cycles <= 0xFFFF_FFFF,
        ensures
            ({
                let s = self.stepped(cycles);
                let total = self.frame_cycle + cycles;
                &&& s.frame_cycle == total % 8192
                &&& s.frame_step == (self.frame_step + total / 8192) % 8
            }),
    {
        lemma_mask_tests_bit(self.nr52);
        let total = self.frame_cycle + cycles;
        let start = ApuView { frame_cycle: (total % 8192) as u64, ..self };
        start.lemma_steps((total / 8192) as nat);
    }

    proof fn lemma_steps(self, n: nat)
        requires
            self.frame_step < 8,
        ensures
            self.sequenced_by(n).frame_step == (self.frame_step + n) % 8,
            self.sequenced_by(n).frame_cycle == self.frame_cycle,
        decreases n,
    {
        if n > 0 {
            self.lemma_steps((n - 1) as nat);
        }
    }

    /// The records of a step come behind those before: as many as the sample rate asks for,
    /// 44100 in 4194304 cycles, each with what the channels put out after the step, or
    /// silence while the unit is off.
    pub proof fn law_records_of_a_step(self, cycles: u64, i: int)
        requires
            self.sample_frac < 44100,
            self.sample_cycle + cycles <= 0xFFFF_FFFF,
        ensures
            ({
                let s = self.stepped(cycles);
                let n = s.buffer.len() - self.buffer.len();
                &&& n >= 0
                &&& 44100 * (self.sample_cycle + cycles) - self.sample_frac == n * 4194304 + 44100
                    * s.sample_cycle - s.sample_frac
                &&& 0 <= i < self.buffer.len() ==> s.buffer[i] == self.buffer[i]
                &&& self.buffer.len() <= i < s.buffer.len() ==> s.buffer[i] == (if bit(
                    self.nr52,
                    7,
                ) {
                    AudioEvent::Mix(s.mixed())
                } else {
                    AudioEvent::Silence
                })
                &&& !bit(self.nr52, 7) ==> s == (ApuView {
                    sample_cycle: s.sample_cycle,
                    sample_frac: s.sample_frac,
                    buffer: s.buffer,
                    ..self
                })
            }),
    {
        lemma_mask_tests_bit(self.nr52);
        let total = (self.sample_cycle + cycles) as u64;
        law_sample_rate_is_exact(total, self.sample_frac);
        let start = ApuView {
            frame_cycle: self.frame_cycle.wrapping_add(cycles) % 8192,
            ..self
        };
        start.lemma_sequencer_keeps_records((self.frame_cycle.wrapping_add(cycles) / 8192) as nat);
    }

    proof fn lemma_sequencer_keeps_records(self, n: nat)
        ensures
            self.sequenced_by(n).buffer == self.buffer,
            self.sequenced_by(n).sample_cycle == self.sample_cycle,
            self.sequenced_by(n).sample_frac == self.sample_frac,
        decreases n,
    {
        if n > 0 {
            self.lemma_sequencer_keeps_records((n - 1) as nat);
        }
    }
}

impl LengthCounter {
    /// A length that runs counts down by one, and the channel goes off as it reaches zero;
    /// one that does not run, or is at zero, changes nothing.
    pub proof fn law_counts_down(self, on: bool)
        ensures
            ({
                let (l, still) = self.clocked(on);
                let runs = self.enabled && self.counter != 0;
                &&& l.enabled == self.enabled
                &&& l.counter == self.counter - (if runs { 1int } else { 0 })
                &&& still == (on && !(runs && l.counter == 0))
            }),
    {
    }
}

impl VolumeEnvelope {
    /// An envelope with a period moves the volume by one each time its timer runs out, and
    /// loads the timer again; the volume stops at fifteen and at zero.
    pub proof fn law_moves_by_one(self)
        ensures
            ({
                let e = self.clocked();
                let due = self.period != 0 && self.timer <= 1;
                let up = due && self.direction && self.cur_vol < 15;
                let down = due && !self.direction && self.cur_vol > 0;
                &&& e.cur_vol - self.cur_vol == (if up {
                    1int
                } else if down {
                    -1
                } else {
                    0
                })
                &&& due ==> e.timer == self.period
                &&& !due && self.period != 0 ==> e.timer == self.timer - 1
                &&& self.period == 0 ==> e == self
                &&& e == (VolumeEnvelope { timer: e.timer, cur_vol: e.cur_vol, ..self })
            }),
    {
    }
}

impl FrequencySweep {
    /// A sweep that is due adds to the frequency, or takes from it, the frequency shifted
    /// down; over eleven bits it switches the channel off instead. Before it is due, and
    /// without a shift, the frequency stays.
    pub proof fn law_slides(self, freq: u16, on: bool)
        requires
            self.shift < 8,
            self.shadow_freq < 2048,
        ensures
            ({
                let (s, f, still) = self.clocked(freq, on);
                let due = self.enabled && self.timer <= 1 && self.period != 0;
                let part = self.shadow_freq >> (self.shift as u16);
                let to = if self.direction {
                    self.shadow_freq + part
                } else {
                    self.shadow_freq - part
                };
                &&& due && self.shift != 0 && to <= 2047 ==> f == to && s.shadow_freq == to && still
                    == on
                &&& due && self.shift != 0 && to > 2047 ==> f == freq && s.shadow_freq
                    == self.shadow_freq && !still
                &&& !due || self.shift == 0 ==> f == freq && still == on && s.shadow_freq
                    == self.shadow_freq
                &&& due ==> s.timer == self.period
                &&& self.enabled && self.timer > 0 && !due ==> s.timer == self.timer - 1
                &&& !self.enabled ==> s == self
            }),
    {
        lemma_shift_within(self.shadow_freq, self.shift as u16);
    }
}

impl SquareChannel {
    /// A tone moves on by one eighth of a turn each time its divider has run out and was
    /// loaded again, which takes one cycle more than what it was loaded with.
    pub proof fn law_tone_moves_on(self, k: nat)
        requires
            self.wf(),
            self.enabled,
            self.freq < 2048,
            self.freq_timer + 1 + k * (4 * (2048 - self.freq) + 1) <= 0xFFFF_FFFF,
        ensures
            ({
                let load = 4 * (2048 - self.freq);
                let s = self.stepped((self.freq_timer + 1 + k * (load + 1)) as u64);
                &&& s.freq_timer == load
                &&& s.wave_pos == (self.wave_pos + 1 + k) % 8
                &&& s == (SquareChannel {
                    freq_timer: s.freq_timer,
                    wave_pos: s.wave_pos,
                    ..self
                })
            }),
    {
        lemma_divider_turns(self.freq_timer as int, 4 * (2048 - self.freq), k as int);
    }
}

impl WaveView {
    /// A wave moves on by one of its thirty-two samples in the same way.
    pub proof fn law_wave_moves_on(self, k: nat)
        requires
            self.wf(),
            self.enabled,
            self.freq < 2048,
            self.freq_timer + 1 + k * (4 * (2048 - self.freq) + 1) <= 0xFFFF_FFFF,
        ensures
            ({
                let load = 4 * (2048 - self.freq);
                let s = self.stepped((self.freq_timer + 1 + k * (load + 1)) as u64);
                &&& s.freq_timer == load
                &&& s.sample_pos == (self.sample_pos + 1 + k) % 32
                &&& s == (WaveView {
                    freq_timer: s.freq_timer,
                    sample_pos: s.sample_pos,
                    ..self
                })
            }),
    {
        lemma_divider_turns(self.freq_timer as int, 4 * (2048 - self.freq), k as int);
    }
}

/// A divider after it ran out and was loaded `k` more times.
proof fn lemma_divider_turns(timer: int, period: int, k: int)
    requires
        0 <= timer,
        0 <= period,
        0 <= k,
    ensures
        divider(timer, period, timer + 1 + k * (period + 1)) == (period, k + 1),
        k * (period + 1) >= 0,
{
    let q = period + 1;
    assert(k * q >= 0) by (nonlinear_arith)
        requires
            k >= 0,
            q >= 1,
    ;
    let over = 1 + k * q;
    assert(over + period == (k + 1) * q) by (nonlinear_arith)
        requires
            over == 1 + k * q,
            q == period + 1,
    ;
    vstd::arithmetic::div_mod::lemma_div_multiples_vanish(k + 1, q);
    assert(q * (k + 1) == (k + 1) * q) by (nonlinear_arith);
}

proof fn lemma_low_then_high(freq: u16, low: u8, high: u8)
    by (bit_vector)
    ensures
        ((((freq & 0x0700) | low as u16) & 0x00FF) | ((high as u16 & 0x07) << 8)) == low as u16
            + 256u16 * (high as u16 % 8u16),
{
}

proof fn lemma_high_then_low(freq: u16, low: u8, high: u8)
    by (bit_vector)
    ensures
        ((((freq & 0x00FF) | ((high as u16 & 0x07) << 8)) & 0x0700) | low as u16) == low as u16
            + 256u16 * (high as u16 % 8u16),
{
}

proof fn lemma_high_bits(v: u8)
    by (bit_vector)
    ensures
        (v & 0xF8 != 0) == (v >= 8),
        (v / 16 != 0 || (v / 8) % 2 == 1) == (v >= 8),
{
}

proof fn lemma_power_bit(v: u8)
    by (bit_vector)
    ensures
        v & 0x80 == (if v >= 128 { 128u8 } else { 0u8 }),
{
}

proof fn lemma_status(p: bool, a: bool, b: bool, c: bool, d: bool)
    by (bit_vector)
    ensures
        ({
            let v = if p { 128u8 } else { 0u8 };
            let v = if a { v | 0x01 } else { v };
            let v = if b { v | 0x02 } else { v };
            let v = if c { v | 0x04 } else { v };
            let v = if d { v | 0x08 } else { v };
            v == (if p { 128u8 } else { 0u8 }) + (if d { 8u8 } else { 0u8 }) + (if c {
                4u8
            } else {
                0u8
            }) + (if b { 2u8 } else { 0u8 }) + (if a { 1u8 } else { 0u8 })
        }),
{
}

proof fn lemma_read_masks(v: u8)
    by (bit_vector)
    ensures
        0x80 | (v & 0x77) == 128u8 + 16u8 * ((v / 16) % 8) + v % 8,
        0x3F | (v & 0xC0) == 63u8 + 64u8 * (v / 64),
        v & 0x60 == 32u8 * ((v / 32) % 4),
{
}

proof fn lemma_length_masks()
    by (bit_vector)
    ensures
        0xBFu8 | 0x40u8 == 255,
        0xBFu8 | 0u8 == 191,
{
}

proof fn lemma_shift_within(v: u16, s: u16)
    by (bit_vector)
    requires
        s < 8,
    ensures
        v >> s <= v,
{
}

impl NoiseChannel {
    /// The noise moves on by one clock of its shift register each time its divider has run out
    /// and was loaded again.
    pub proof fn law_noise_moves_on(self, k: nat)
        requires
            self.enabled,
            self.freq_timer + 1 + k * (self.period() + 1) <= 0xFFFF_FFFF,
        ensures
            ({
                let s = self.stepped((self.freq_timer + 1 + k * (self.period() + 1)) as u64);
                &&& s.freq_timer == self.period()
                &&& s.lfsr == lfsr_after(self.lfsr, self.width_mode, k + 1)
                &&& s == (NoiseChannel { freq_timer: s.freq_timer, lfsr: s.lfsr, ..self })
            }),
    {
        lemma_divider_turns(self.freq_timer as int, self.period() as int, k as int);
    }
}

/// One clock of the shift register of fifteen bits halves it and brings in, as its highest
/// bit, whether its two lowest bits differed; the short sequence puts that in bit 6 as well.
pub proof fn law_shift_register(lfsr: u16)
    requires
        lfsr < 0x8000,
    ensures
        ({
            let differ = lfsr % 2 != (lfsr / 2) % 2;
            let long = lfsr_after(lfsr, false, 1);
            let short = lfsr_after(lfsr, true, 1);
            &&& lfsr_after(lfsr, true, 0) == lfsr && lfsr_after(lfsr, false, 0) == lfsr
            &&& long == lfsr / 2 + (if differ { 16384int } else { 0 })
            &&& short % 64 == long % 64
            &&& short / 128 == long / 128
            &&& (short / 64) % 2 == (if differ { 1int } else { 0 })
        }),
{
    reveal_with_fuel(lfsr_after, 2);
    lemma_shift_register(lfsr);
}

proof fn lemma_shift_register(v: u16)
    by (bit_vector)
    requires
        v < 0x8000,
    ensures
        ({
            let b = (v & 1) ^ ((v >> 1) & 1);
            let differ = v % 2 != (v / 2) % 2;
            let long = (v >> 1) | (b << 14);
            let short = (long & 0xFFBF) | (b << 6);
            &&& long == v / 2 + (if differ { 16384u16 } else { 0u16 })
            &&& short % 64 == long % 64
            &&& short / 128 == long / 128
            &&& (short / 64) % 2 == (if differ { 1u16 } else { 0u16 })
        }),
{
}

} // verus!
