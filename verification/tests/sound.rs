use gbcemu::apu::noise::{dac_enabled_ch4, NoiseChannel};
use gbcemu::apu::square::{dac_enabled_ch1, period_12, SquareChannel};
use gbcemu::apu::units::{run_divider, FrequencySweep, LengthCounter, VolumeEnvelope};
use gbcemu::apu::wave::WaveChannel;
use gbcemu::apu::{Apu, AudioEvent, FilterBits};

/// Switched on at full volume, all channels on both sides.
fn loud() -> Apu {
    let mut apu = Apu::new();
    apu.write(0xFF26, 0x80);
    apu.write(0xFF24, 0x77);
    apu.write(0xFF25, 0xFF);
    apu
}

#[test]
fn periods_of_tones() {
    assert_eq!(period_12(0), 8192);
    assert_eq!(period_12(2047), 4);
    assert_eq!(period_12(1024), 4096);
}

#[test]
fn converters_follow_the_envelope_registers() {
    assert!(!dac_enabled_ch1(0x07));
    assert!(dac_enabled_ch1(0x08));
    assert!(!dac_enabled_ch4(0x00));
    assert!(dac_enabled_ch4(0xF0));
}

#[test]
fn divider_in_two_parts_is_the_divider_at_once() {
    let (t1, n1) = run_divider(10, 100, 57);
    let (t2, n2) = run_divider(t1, 100, 400);
    let (t, n) = run_divider(10, 100, 457);
    assert_eq!((t2, n1 + n2), (t, n));
}

#[test]
fn length_counter_switches_the_channel_off() {
    let mut length = LengthCounter::new();
    length.trigger(62, 64);
    length.enabled = true;
    let mut on = true;
    length.clock(&mut on);
    assert!(on);
    length.clock(&mut on);
    assert!(!on);
}

#[test]
fn volume_stays_within_fifteen() {
    let mut up = VolumeEnvelope::new();
    up.initial_vol = 14;
    up.direction = true;
    up.period = 1;
    up.trigger();
    for _ in 0..10 {
        up.clock();
    }
    assert_eq!(up.cur_vol, 15);
    let mut down = up;
    down.direction = false;
    for _ in 0..40 {
        down.clock();
    }
    assert_eq!(down.cur_vol, 0);
}

#[test]
fn sweep_raises_the_frequency_and_switches_off_on_overflow() {
    let mut sweep = FrequencySweep::new();
    sweep.trigger(0x400, 1, true, 1);
    let mut freq: u16 = 0x400;
    let mut on = true;
    sweep.clock(&mut freq, &mut on);
    assert_eq!(freq, 0x600);
    assert!(on);
    sweep.clock(&mut freq, &mut on);
    assert!(!on);
}

#[test]
fn square_wave_steps_in_parts() {
    let mut whole = SquareChannel::new();
    whole.write_envelope(0xF0);
    whole.write_freq_low(0x00);
    whole.write_freq_high(0x87);
    whole.trigger();
    let mut parts = whole;
    whole.step(10_007);
    parts.step(5_000);
    parts.step(5_007);
    assert_eq!(whole.freq_timer, parts.freq_timer);
    assert_eq!(whole.wave_pos, parts.wave_pos);
}

#[test]
fn noise_never_stops_and_steps_in_parts() {
    let mut whole = NoiseChannel::new();
    whole.write_envelope(0xF0);
    whole.write_clock(0x10);
    whole.trigger();
    let mut parts = whole;
    whole.step(77_777);
    parts.step(33_333);
    parts.step(44_444);
    assert_eq!(whole.lfsr, parts.lfsr);
    assert_ne!(whole.lfsr, 0);
    let mut long = NoiseChannel::new();
    long.trigger();
    assert_eq!(long.lfsr, 0x7FFF);
    for _ in 0..1000 {
        long.advance_lfsr(1);
        assert_ne!(long.lfsr, 0);
    }
}

#[test]
fn wave_channel_plays_its_table() {
    let mut wave = WaveChannel::new();
    wave.write_dac(0x80);
    wave.write_table(0, 0xA5);
    wave.trigger();
    wave.vol_code = 1;
    assert_eq!(wave.sample(), 0xA);
    wave.vol_code = 2;
    assert_eq!(wave.sample(), 5);
    wave.vol_code = 3;
    assert_eq!(wave.sample(), 2);
    wave.vol_code = 0;
    assert_eq!(wave.sample(), 0);
    wave.vol_code = 1;
    let period = wave.freq_timer as u64;
    wave.step(period);
    assert_eq!(wave.wave_sample(), 0xA);
    wave.step(1);
    assert_eq!(wave.wave_sample(), 0x5);
    // Switching the converter off silences the channel
    wave.write_dac(0x00);
    assert!(!wave.is_on());
    assert_eq!(wave.sample(), 0);
}

#[test]
fn sound_registers_read_back_with_set_bits() {
    let mut apu = loud();
    apu.write(0xFF10, 0x00);
    assert_eq!(apu.read(0xFF10), 0x80);
    apu.write(0xFF11, 0x80);
    assert_eq!(apu.read(0xFF11), 0xBF);
    apu.write(0xFF12, 0xF3);
    assert_eq!(apu.read(0xFF12), 0xF3);
    apu.write(0xFF13, 0x12);
    assert_eq!(apu.read(0xFF13), 0xFF);
    apu.write(0xFF14, 0x40);
    assert_eq!(apu.read(0xFF14), 0xFF);
    apu.write(0xFF14, 0x00);
    assert_eq!(apu.read(0xFF14), 0xBF);
    apu.write(0xFF32, 0x5A);
    assert_eq!(apu.read(0xFF32), 0x5A);
    assert_eq!(apu.read(0xFF24), 0x77);
    assert_eq!(apu.read(0xFF25), 0xFF);
    assert_eq!(apu.read(0xFF15), 0xFF);
}

#[test]
fn status_register_shows_the_channels_that_are_on() {
    let mut apu = loud();
    assert_eq!(apu.read(0xFF26), 0x80);
    apu.write(0xFF12, 0xF0);
    apu.write(0xFF14, 0x80);
    assert_eq!(apu.nr52(), 0x81);
    apu.write(0xFF21, 0xF0);
    apu.write(0xFF23, 0x80);
    assert_eq!(apu.nr52(), 0x89);
}

#[test]
fn switched_off_unit_is_cleared_and_shut() {
    let mut apu = loud();
    apu.write(0xFF12, 0xF0);
    apu.write(0xFF14, 0x80);
    apu.write(0xFF26, 0x00);
    assert_eq!(apu.read(0xFF26), 0x00);
    assert_eq!(apu.read(0xFF12), 0x00);
    assert_eq!(apu.read(0xFF24), 0x00);
    apu.write(0xFF12, 0xF0);
    assert_eq!(apu.read(0xFF12), 0x00);
    let events = apu.drain_samples();
    assert_eq!(events, vec![AudioEvent::FilterReset]);
}

#[test]
fn a_second_has_44100_samples() {
    let mut apu = Apu::new();
    let mut left: u64 = 4_194_304;
    while left > 0 {
        let now = if left > 1000 { 1000 } else { left };
        apu.step(now);
        left -= now;
    }
    let events = apu.drain_samples();
    assert_eq!(events.len(), 44_100);
    assert!(events.iter().all(|e| *e == AudioEvent::Silence));
    assert!(apu.drain_samples().is_empty());
}

#[test]
fn samples_carry_the_levels_of_the_routed_channels() {
    let mut apu = loud();
    apu.write(0xFF25, 0x01);
    apu.write(0xFF24, 0x35);
    apu.write(0xFF11, 0xC0);
    apu.write(0xFF12, 0xF0);
    apu.write(0xFF13, 0x00);
    apu.write(0xFF14, 0x80);
    let frame = apu.mix();
    assert_eq!(frame.right.ch1, 0);
    assert_eq!(frame.left.ch1.abs(), apu.ch1.sample().abs());
    assert_eq!(frame.left_vol, 5);
    assert_eq!(frame.right_vol, 3);
    apu.step(96);
    let events = apu.drain_samples();
    assert_eq!(events.len(), 1);
    assert_eq!(events[0], AudioEvent::Mix(apu.mix()));
}

#[test]
fn frame_sequencer_clocks_lengths() {
    let mut apu = loud();
    apu.write(0xFF12, 0xF0);
    // Length 1, counter on, triggered
    apu.write(0xFF11, 0x3F);
    apu.write(0xFF14, 0xC0);
    assert_eq!(apu.nr52() & 1, 1);
    apu.step(8191);
    assert_eq!(apu.nr52() & 1, 1);
    apu.step(1);
    assert_eq!(apu.nr52() & 1, 0);
}

#[test]
fn saved_sound_unit_is_loaded() {
    let mut apu = loud();
    apu.write(0xFF12, 0xF0);
    apu.write(0xFF14, 0x85);
    apu.write(0xFF30, 0x99);
    apu.step(12_345);
    apu.store_filter(FilterBits { hpf_left: 1, hpf_right: 2, prev_left: 3, prev_right: 4 });
    let mut bytes = Vec::new();
    apu.save_to_bytes(&mut bytes);
    assert_eq!(bytes.len(), 141);
    let mut pos = 0;
    let back = Apu::load_from_bytes(&bytes, &mut pos).unwrap();
    assert_eq!(pos, 141);
    assert!(back.is_consistent());
    assert_eq!(back.ch1.freq, apu.ch1.freq);
    assert_eq!(back.ch3.wave_ram, apu.ch3.wave_ram);
    assert_eq!(back.filter, apu.filter);
    assert_eq!(back.sample_cycle, apu.sample_cycle);
    let mut again = Vec::new();
    back.save_to_bytes(&mut again);
    assert_eq!(again, bytes);
}
