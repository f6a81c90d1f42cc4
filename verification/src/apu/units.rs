//! Parts that the sound channels share: length counter, volume envelope,
//! frequency sweep and the divider that clocks a channel.
use vstd::prelude::*;

use crate::codec::{
    flag_at, flag_byte, found_at, group_found, le16, put_flag, put_u16, take_flag, take_u16,
    take_u8, u16_at,
};

verus! {

/// A divider that counts down to zero and is then reloaded with its period: the
/// timer and the number of reloads after `cycles` cycles. A reload takes one cycle
/// of its own, so the divider reloads every `period + 1` cycles.
pub open spec fn divider(timer: int, period: int, cycles: int) -> (int, int) {
    if cycles <= timer {
        (timer - cycles, 0)
    } else {
        let over = cycles - timer;
        let reloads = (over + period) / (period + 1);
        (reloads * (period + 1) - over, reloads)
    }
}

/// No cycle is lost: what the timer held and what was reloaded covers the cycles
/// that passed and what the timer still holds.
pub proof fn law_divider_conserves(timer: int, period: int, cycles: int)
    requires
        0 <= timer,
        0 <= period,
        0 <= cycles,
    ensures
        ({
            let (t, n) = divider(timer, period, cycles);
            &&& timer + n * (period + 1) == cycles + t
            &&& 0 <= n
            &&& 0 <= t
            &&& t <= timer || t <= period
            &&& n > 0 ==> t <= period
        }),
{
    if cycles > timer {
        let over = cycles - timer;
        let q = period + 1;
        let n = (over + period) / q;
        vstd::arithmetic::div_mod::lemma_fundamental_div_mod(over + period, q);
        vstd::arithmetic::mul::lemma_mul_is_commutative(q, n);
        assert(0 <= n) by (nonlinear_arith)
            requires
                n * q + (over + period) % q == over + period,
                (over + period) % q < q,
                over > 0,
                q == period + 1,
                q > 0,
        ;
    }
}

/// Running a divider in two parts is running it once for the whole.
pub proof fn law_divider_splits(timer: int, period: int, a: int, b: int)
    requires
        0 <= timer,
        0 <= period,
        0 <= a,
        0 <= b,
    ensures
        ({
            let (t1, n1) = divider(timer, period, a);
            let (t2, n2) = divider(t1, period, b);
            divider(timer, period, a + b) == (t2, n1 + n2)
        }),
{
    let q = period + 1;
    let (t1, n1) = divider(timer, period, a);
    let (t2, n2) = divider(t1, period, b);
    let (t, n) = divider(timer, period, a + b);
    law_divider_conserves(timer, period, a);
    law_divider_conserves(t1, period, b);
    law_divider_conserves(timer, period, a + b);
    // Both ways conserve the same cycles, and each timer below lies under the period.
    assert(n * q - t == n1 * q + n2 * q - t2);
    assert((n1 + n2) * q == n1 * q + n2 * q) by (nonlinear_arith);
    if n == 0 {
        assert(n1 + n2 == 0) by (nonlinear_arith)
            requires
                n == 0,
                n * q - t == (n1 + n2) * q - t2,
                t == timer - a - b,
                t >= 0,
                n1 >= 0,
                n2 >= 0,
                n2 > 0 ==> t2 <= period,
                n2 == 0 ==> t2 == t1 - b,
                n1 > 0 ==> t1 <= period,
                b >= 0,
                q == period + 1,
                q > 0,
        ;
    } else {
        assert(n1 + n2 > 0) by {
            if n1 + n2 == 0 {
                assert(t2 == timer - a - b);
            }
        }
        assert(t2 <= period);
        assert(n == n1 + n2) by (nonlinear_arith)
            requires
                n * q - t == (n1 + n2) * q - t2,
                0 <= t <= period,
                0 <= t2 <= period,
                q == period + 1,
        ;
    }
}

/// Runs a divider; returns the new timer and the number of reloads.
pub fn run_divider(timer: u16, period: u16, cycles: u64) -> (r: (u16, u64))
    ensures
        (r.0 as int, r.1 as int) == divider(timer as int, period as int, cycles as int),
{
    let held = timer as u64;
    proof {
        law_divider_conserves(timer as int, period as int, cycles as int);
    }
    if cycles <= held {
        return ((held - cycles) as u16, 0);
    }
    let over: u64 = cycles - held;
    let span: u64 = period as u64 + 1;
    let full: u64 = over / span;
    let rest: u64 = over % span;
    proof {
        vstd::arithmetic::div_mod::lemma_fundamental_div_mod(over as int, span as int);
        let m = if rest > 0 { full + 1 } else { full as int };
        let back = if rest > 0 { period - (rest - 1) } else { 0 };
        assert(over + period == span * m + (period - back)) by (nonlinear_arith)
            requires
                over == span * full + rest,
                m == (if rest > 0 { full + 1 } else { full as int }),
                back == (if rest > 0 { period - (rest - 1) } else { 0 }),
                span == period + 1,
        ;
        vstd::arithmetic::div_mod::lemma_fundamental_div_mod_converse(
            over + period,
            span as int,
            m,
            period - back,
        );
        assert(m * span - over == back) by (nonlinear_arith)
            requires
                over + period == span * m + (period - back),
        ;
        assert(full < 0xFFFF_FFFF_FFFF_FFFF || rest == 0) by (nonlinear_arith)
            requires
                over == span * full + rest,
                over <= 0xFFFF_FFFF_FFFF_FFFF,
                span >= 1,
                full >= 0,
        ;
    }
    if rest > 0 {
        ((period as u64 - (rest - 1)) as u16, full + 1)
    } else {
        (0, full)
    }
}

/// Cuts a channel off after a set time.
#[derive(Clone, Copy)]
pub struct LengthCounter {
    pub enabled: bool,
    pub counter: u16,
}

impl LengthCounter {
    pub open spec fn zero() -> LengthCounter {
        LengthCounter { enabled: false, counter: 0 }
    }

    /// The counter and the channel's switch after one clock: an enabled counter
    /// counts down, and switches the channel off as it reaches zero.
    pub open spec fn clocked(self, channel_enabled: bool) -> (LengthCounter, bool) {
        if self.enabled && self.counter > 0 {
            (
                LengthCounter { counter: (self.counter - 1) as u16, ..self },
                channel_enabled && self.counter != 1,
            )
        } else {
            (self, channel_enabled)
        }
    }

    pub fn new() -> (r: Self)
        ensures
            r == Self::zero(),
    {
        Self { enabled: false, counter: 0 }
    }

    /// One clock of the counter.
    pub fn clock(&mut self, channel_enabled: &mut bool)
        ensures
            (*final(self), *final(channel_enabled)) == old(self).clocked(*old(channel_enabled)),
    {
        if !self.enabled {
            return;
        }
        if self.counter > 0 {
            self.counter = self.counter - 1;
            if self.counter == 0 {
                *channel_enabled = false;
            }
        }
    }

    /// Loads the counter with what is left of `max` after the low six bits of `load`.
    pub fn trigger(&mut self, load: u8, max: u16)
        requires
            load % 64 <= max,
        ensures
            *final(self) == (LengthCounter { counter: (max - load % 64) as u16, ..*old(self) }),
    {
        self.counter = max - (load % 64) as u16;
    }
}

/// Raises or lowers the volume of a channel over time.
#[derive(Clone, Copy)]
pub struct VolumeEnvelope {
    pub initial_vol: u8,
    /// `true` raises the volume.
    pub direction: bool,
    pub period: u8,
    pub timer: u8,
    pub cur_vol: u8,
}

impl VolumeEnvelope {
    pub open spec fn zero() -> VolumeEnvelope {
        VolumeEnvelope { initial_vol: 0, direction: false, period: 0, timer: 0, cur_vol: 0 }
    }

    /// The envelope after one clock. When the timer runs out it is reloaded and the
    /// volume moves by one, up to 15 or down to 0. A period of zero switches the
    /// envelope off.
    pub open spec fn clocked(self) -> VolumeEnvelope {
        if self.period == 0 {
            self
        } else if self.timer > 1 {
            VolumeEnvelope { timer: (self.timer - 1) as u8, ..self }
        } else {
            VolumeEnvelope {
                timer: self.period,
                cur_vol: if self.direction && self.cur_vol < 15 {
                    (self.cur_vol + 1) as u8
                } else if !self.direction && self.cur_vol > 0 {
                    (self.cur_vol - 1) as u8
                } else {
                    self.cur_vol
                },
                ..self
            }
        }
    }

    /// The envelope, started over.
    pub open spec fn triggered(self) -> VolumeEnvelope {
        VolumeEnvelope { cur_vol: self.initial_vol, timer: self.period, ..self }
    }

    pub fn new() -> (r: Self)
        ensures
            r == Self::zero(),
    {
        Self { initial_vol: 0, direction: false, period: 0, timer: 0, cur_vol: 0 }
    }

    /// One clock of the envelope.
    pub fn clock(&mut self)
        ensures
            *final(self) == old(self).clocked(),
    {
        if self.period == 0 {
            return;
        }
        self.timer = self.timer.saturating_sub(1);
        if self.timer == 0 {
            self.timer = self.period;
            if self.direction {
                if self.cur_vol < 15 {
                    self.cur_vol = self.cur_vol + 1;
                }
            } else {
                if self.cur_vol > 0 {
                    self.cur_vol = self.cur_vol - 1;
                }
            }
        }
    }

    /// Starts the envelope over.
    pub fn trigger(&mut self)
        ensures
            *final(self) == old(self).triggered(),
    {
        self.cur_vol = self.initial_vol;
        self.timer = self.period;
    }

    /// A volume that lies in the four-bit range never leaves it.
    pub proof fn law_volume_stays_in_range(self)
        requires
            self.cur_vol <= 15,
            self.initial_vol <= 15,
        ensures
            self.clocked().cur_vol <= 15,
            self.triggered().cur_vol <= 15,
    {
    }
}

/// Slides the frequency of the first square channel.
#[derive(Clone, Copy)]
pub struct FrequencySweep {
    pub period: u8,
    /// `true` raises the frequency.
    pub direction: bool,
    pub shift: u8,
    pub timer: u8,
    pub shadow_freq: u16,
    pub enabled: bool,
}

impl FrequencySweep {
    pub open spec fn zero() -> FrequencySweep {
        FrequencySweep {
            period: 0,
            direction: false,
            shift: 0,
            timer: 0,
            shadow_freq: 0,
            enabled: false,
        }
    }

    /// The frequency that the next sweep moves to: the shadow frequency plus or minus
    /// itself shifted right.
    pub open spec fn target(self) -> u16 {
        let offset = self.shadow_freq.wrapping_shr(self.shift as u32);
        if self.direction {
            self.shadow_freq.wrapping_add(offset)
        } else {
            self.shadow_freq.wrapping_sub(offset)
        }
    }

    /// The sweep, the channel's frequency and its switch after one clock. The timer
    /// runs down first; when it runs out it is reloaded from the period, and a
    /// frequency over eleven bits switches the channel off instead of being taken.
    pub open spec fn clocked(self, freq: u16, channel_enabled: bool) -> (
        FrequencySweep,
        u16,
        bool,
    ) {
        let left = if self.timer > 0 { (self.timer - 1) as u8 } else { 0u8 };
        if !self.enabled {
            (self, freq, channel_enabled)
        } else if left > 0 || self.period == 0 {
            (FrequencySweep { timer: left, ..self }, freq, channel_enabled)
        } else if self.shift == 0 {
            (FrequencySweep { timer: self.period, ..self }, freq, channel_enabled)
        } else if self.target() > 2047 {
            (FrequencySweep { timer: self.period, ..self }, freq, false)
        } else {
            (
                FrequencySweep { timer: self.period, shadow_freq: self.target(), ..self },
                self.target(),
                channel_enabled,
            )
        }
    }

    /// The sweep started over with the channel's frequency and these settings.
    pub open spec fn triggered(freq: u16, period: u8, direction: bool, shift: u8) -> FrequencySweep {
        FrequencySweep {
            period,
            direction,
            shift,
            timer: if period > 0 { period } else { 8 },
            shadow_freq: freq,
            enabled: period > 0 || shift > 0,
        }
    }

    pub fn new() -> (r: Self)
        ensures
            r == Self::zero(),
    {
        Self { period: 0, direction: false, shift: 0, timer: 0, shadow_freq: 0, enabled: false }
    }

    /// One clock of the sweep.
    pub fn clock(&mut self, freq: &mut u16, channel_enabled: &mut bool)
        ensures
            (*final(self), *final(freq), *final(channel_enabled)) == old(self).clocked(
                *old(freq),
                *old(channel_enabled),
            ),
    {
        if !self.enabled {
            return;
        }
        self.timer = self.timer.saturating_sub(1);
        if self.timer > 0 {
            return;
        }
        if self.period > 0 {
            self.timer = self.period;
        } else {
            return;
        }
        if self.shift == 0 {
            return;
        }
        let offset: u16 = self.shadow_freq.wrapping_shr(self.shift as u32);
        let new_freq: u16 = if self.direction {
            self.shadow_freq.wrapping_add(offset)
        } else {
            self.shadow_freq.wrapping_sub(offset)
        };
        if new_freq > 2047 {
            *channel_enabled = false;
            return;
        }
        self.shadow_freq = new_freq;
        *freq = new_freq;
    }

    /// Starts the sweep over.
    pub fn trigger(&mut self, freq: u16, period: u8, direction: bool, shift: u8)
        ensures
            *final(self) == Self::triggered(freq, period, direction, shift),
    {
        self.shadow_freq = freq;
        self.period = period;
        self.direction = direction;
        self.shift = shift;
        self.timer = if period > 0 { period } else { 8 };
        self.enabled = period > 0 || shift > 0;
    }

    /// The stored form.
    #[verifier::opaque]
    pub open spec fn encode(self) -> Seq<u8> {
        seq![self.period, flag_byte(self.direction), self.shift, self.timer] + le16(
            self.shadow_freq,
        ) + seq![flag_byte(self.enabled)]
    }

    /// What is stored at `i`.
    pub open spec fn decode(s: Seq<u8>, i: int) -> FrequencySweep {
        FrequencySweep {
            period: s[i],
            direction: flag_at(s, i + 1),
            shift: s[i + 2],
            timer: s[i + 3],
            shadow_freq: u16_at(s, i + 4),
            enabled: flag_at(s, i + 6),
        }
    }

    /// A stored sweep is read back unchanged.
    pub proof fn lemma_round_trip(self, s: Seq<u8>, i: int)
        requires
            found_at(s, i, self.encode()),
        ensures
            Self::decode(s, i) == self,
    {
        broadcast use group_found;

        reveal(FrequencySweep::encode);
    }

    /// Appends the stored form.
    pub fn save(&self, buf: &mut Vec<u8>)
        ensures
            final(buf)@ == old(buf)@ + self.encode(),
    {
        buf.push(self.period);
        put_flag(buf, self.direction);
        buf.push(self.shift);
        buf.push(self.timer);
        put_u16(buf, self.shadow_freq);
        put_flag(buf, self.enabled);
        reveal(FrequencySweep::encode);
        assert(buf@ =~= old(buf)@ + self.encode());
    }

    /// Puts in the state that is stored at the cursor.
    pub fn load(&mut self, data: &[u8], pos: &mut usize)
        requires
            *old(pos) + 7 <= data@.len(),
        ensures
            *final(self) == Self::decode(data@, *old(pos) as int),
            *final(pos) == *old(pos) + 7,
    {
        self.period = take_u8(data, pos);
        self.direction = take_flag(data, pos);
        self.shift = take_u8(data, pos);
        self.timer = take_u8(data, pos);
        self.shadow_freq = take_u16(data, pos);
        self.enabled = take_flag(data, pos);
    }

    /// A sweep never moves an eleven-bit frequency out of its range.
    pub proof fn law_sweep_keeps_frequency_in_range(self, freq: u16, channel_enabled: bool)
        requires
            freq <= 2047,
        ensures
            self.clocked(freq, channel_enabled).1 <= 2047,
            self.clocked(freq, channel_enabled).2 ==> channel_enabled,
    {
    }
}

} // verus!
