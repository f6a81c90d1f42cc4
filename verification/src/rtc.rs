//! Real time clock of a cartridge.
//!
//! The clock counts seconds of the host's wall clock. A program never reads the
//! running counters: it latches them and reads the latched copy.
use vstd::prelude::*;

use crate::bits::{bit, lemma_mask_tests_bit};
use crate::codec::{
    flag_at, flag_byte, found_at, le16, le64, lemma_found_split, lemma_u16_found, lemma_u64_found,
    put_flag, put_u16, put_u64, take_flag, take_u16, take_u64, take_u8, u16_at, u64_at,
};
use crate::error::Error;

verus! {

/// Length of a processor cycle at normal speed, in nanoseconds.
pub const CYCLE_TIME: u32 = 238;

/// Length of a processor cycle, in nanoseconds, at normal or double speed.
pub open spec fn cycle_time_of(speed: bool) -> u32 {
    if speed {
        CYCLE_TIME / 2
    } else {
        CYCLE_TIME
    }
}

/// Seconds between the Unix epoch and now: `SystemTime::elapsed` of
/// `std::time::UNIX_EPOCH`, in whole seconds. `None` stands for its error, a
/// clock that is set before the epoch. The reading depends on the clock of the
/// host, so nothing is claimed of it.
#[verifier::external_body]
fn seconds_since_epoch() -> (r: Option<u64>)
{
    match std::time::UNIX_EPOCH.elapsed() {
        Ok(d) => Some(d.as_secs()),
        Err(_) => None,
    }
}

/// What a reading of the wall clock counts as: a clock set before the epoch reads zero.
pub fn seconds_read(reading: Option<u64>) -> (r: u64)
    ensures
        r == match reading {
            Some(s) => s,
            None => 0,
        },
{
    match reading {
        Some(s) => s,
        None => 0,
    }
}

/// Seconds on the wall clock, as `seconds_read` gives them for the host's clock. Any number
/// may come of that, so nothing is claimed of it.
pub(crate) fn now_seconds() -> u64 {
    seconds_read(seconds_since_epoch())
}

/// A reading of the clock registers.
#[derive(Clone, Copy, Debug, PartialEq, Eq, Structural)]
pub struct RtcTime {
    pub seconds: u8,
    pub minutes: u8,
    pub hours: u8,
    /// Day counter; the registers hold nine bits of it.
    pub days: u16,
    /// The clock stands still.
    pub halt: bool,
    /// The day counter has overflowed.
    pub carry: bool,
}

impl RtcTime {
    /// Bytes of one stored reading.
    pub open spec fn spec_len() -> int {
        7
    }

    /// The midnight of day zero.
    pub open spec fn zero() -> RtcTime {
        RtcTime { seconds: 0, minutes: 0, hours: 0, days: 0, halt: false, carry: false }
    }

    /// All counters lie in their ranges.
    pub open spec fn in_range(self) -> bool {
        self.seconds < 60 && self.minutes < 60 && self.hours < 24 && self.days < 512
    }

    /// Seconds since the midnight of day zero.
    pub open spec fn total(self) -> int {
        self.seconds + 60 * self.minutes + 3600 * self.hours + 86400 * self.days
    }

    /// The counters after `elapsed` further seconds, as the clock chip carries
    /// them: at most one carry goes from each counter into the next.
    pub open spec fn ticked(self, elapsed: u64) -> RtcTime {
        let s = self.seconds.wrapping_add((elapsed % 256) as u8);
        let (s, m) = if s > 59 {
            ((s - 60) as u8, self.minutes.wrapping_add(1))
        } else {
            (s, self.minutes)
        };
        let (m, h) = if m > 59 {
            (0u8, self.hours.wrapping_add(1))
        } else {
            (m, self.hours)
        };
        let (h, d) = if h > 23 {
            (0u8, self.days.wrapping_add(1))
        } else {
            (h, self.days)
        };
        let (d, c) = if d > 511 {
            (0u16, true)
        } else {
            (d, self.carry)
        };
        RtcTime { seconds: s, minutes: m, hours: h, days: d, halt: self.halt, carry: c }
    }

    /// The counters after the machine was off for `elapsed` seconds: each counter
    /// moves by the whole number of its units, with no carry between them.
    pub open spec fn advanced(self, elapsed: u64) -> RtcTime {
        RtcTime {
            seconds: (((self.seconds as u64).wrapping_add(elapsed)) % 60) as u8,
            minutes: ((self.minutes + elapsed / 60) % 60) as u8,
            hours: ((self.hours + elapsed / 3600) % 24) as u8,
            days: ((self.days + elapsed / 86400) % 512) as u16,
            ..self
        }
    }

    /// The stored form: seconds, minutes, hours, days (two bytes), halt, carry.
    pub open spec fn encode(self) -> Seq<u8> {
        seq![self.seconds, self.minutes, self.hours] + le16(self.days) + seq![
            flag_byte(self.halt),
            flag_byte(self.carry),
        ]
    }

    /// What is stored at `i`.
    pub open spec fn decode(s: Seq<u8>, i: int) -> RtcTime {
        RtcTime {
            seconds: s[i],
            minutes: s[i + 1],
            hours: s[i + 2],
            days: u16_at(s, i + 3),
            halt: flag_at(s, i + 5),
            carry: flag_at(s, i + 6),
        }
    }

    /// Midnight of day zero, running.
    pub fn new() -> (r: Self)
        ensures
            r == Self::zero(),
    {
        Self { seconds: 0, minutes: 0, hours: 0, days: 0, halt: false, carry: false }
    }

    /// Appends the stored form.
    pub fn serialize(&self, buf: &mut Vec<u8>)
        ensures
            final(buf)@ == old(buf)@ + self.encode(),
    {
        buf.push(self.seconds);
        buf.push(self.minutes);
        buf.push(self.hours);
        put_u16(buf, self.days);
        put_flag(buf, self.halt);
        put_flag(buf, self.carry);
        assert(buf@ =~= old(buf)@ + self.encode());
    }

    /// Reads a stored reading at the cursor.
    pub fn deserialize(data: &[u8], pos: &mut usize) -> (r: Result<Self, Error>)
        requires
            *old(pos) + Self::spec_len() <= data@.len(),
        ensures
            r == Ok::<Self, Error>(Self::decode(data@, *old(pos) as int)),
            *final(pos) == *old(pos) + Self::spec_len(),
    {
        let seconds = take_u8(data, pos);
        let minutes = take_u8(data, pos);
        let hours = take_u8(data, pos);
        let days = take_u16(data, pos);
        let halt = take_flag(data, pos);
        let carry = take_flag(data, pos);
        Ok(Self { seconds, minutes, hours, days, halt, carry })
    }

    /// A stored reading is read back unchanged.
    pub proof fn lemma_round_trip(self, s: Seq<u8>, i: int)
        requires
            found_at(s, i, self.encode()),
        ensures
            Self::decode(s, i) == self,
    {
        let e = self.encode();
        let head = seq![self.seconds, self.minutes, self.hours];
        let tail = seq![flag_byte(self.halt), flag_byte(self.carry)];
        lemma_found_split(s, i, head + le16(self.days), tail);
        lemma_found_split(s, i, head, le16(self.days));
        lemma_u16_found(s, i + 3, self.days);
        assert(s[i + 0] == head[0]);
        assert(s[i + 1] == head[1]);
        assert(s[i + 2] == head[2]);
        assert(s[i + 5 + 0] == tail[0]);
        assert(s[i + 5 + 1] == tail[1]);
    }

    /// A clock whose counters lie in their ranges and that ticks within the minute
    /// moves forward by exactly the seconds that passed, modulo its range of 512
    /// days; the carry flag is raised when the day counter overflows, and is never
    /// lowered.
    pub proof fn law_tick_moves_by_elapsed(self, elapsed: u64)
        requires
            self.in_range(),
            elapsed < 60,
        ensures
            self.ticked(elapsed).in_range(),
            self.ticked(elapsed).total() == (self.total() + elapsed) % 44236800,
            self.ticked(elapsed).carry == (self.carry || self.total() + elapsed >= 44236800),
            self.ticked(elapsed).halt == self.halt,
    {
    }

    /// However long the machine was off, the counters end up in their ranges.
    pub proof fn law_advance_in_range(self, elapsed: u64)
        ensures
            self.advanced(elapsed).in_range(),
            self.advanced(elapsed).halt == self.halt,
            self.advanced(elapsed).carry == self.carry,
    {
    }
}

/// State of the clock chip.
#[derive(Debug, Clone, Copy)]
pub struct RtcState {
    /// The running counters.
    pub current: RtcTime,
    /// The counters as last latched.
    pub latched: RtcTime,
    /// The first half of the latch sequence has been seen.
    pub latch_started: bool,
    /// Wall clock reading up to which time has been counted.
    pub timestamp: u64,
    /// Value of `cycle` at the last tick.
    pub tick_cycle: u64,
    /// Processor cycles counted so far.
    pub cycle: u64,
    /// Register selected for access.
    pub selected: u8,
}

impl RtcState {
    /// Bytes of the stored state.
    pub open spec fn spec_len() -> int {
        40
    }

    /// A fresh clock at wall clock time `now`.
    pub open spec fn fresh(now: u64) -> RtcState {
        RtcState {
            current: RtcTime::zero(),
            latched: RtcTime::zero(),
            latch_started: false,
            timestamp: now,
            tick_cycle: 0,
            cycle: 0,
            selected: 0,
        }
    }

    /// The state after a tick at wall clock time `now`.
    pub open spec fn ticked(self, now: u64) -> RtcState {
        RtcState {
            current: self.current.ticked(now.wrapping_sub(self.timestamp)),
            timestamp: now,
            tick_cycle: self.cycle,
            ..self
        }
    }

    /// The state after `cycles` processor cycles, at wall clock time `now`. A halted
    /// clock only follows the wall clock.
    pub open spec fn stepped(self, cycles: u16, speed: bool, now: u64) -> RtcState {
        if self.current.halt {
            RtcState { timestamp: now, ..self }
        } else {
            let counted = RtcState { cycle: self.cycle.wrapping_add(cycles as u64), ..self };
            if counted.cycle.wrapping_sub(self.tick_cycle) / (cycle_time_of(speed) as u64)
                >= Rtc::TICK_INTERVAL {
                counted.ticked(now)
            } else {
                counted
            }
        }
    }

    /// The state after catching up with the wall clock.
    pub open spec fn advanced(self, now: u64) -> RtcState {
        if self.current.halt {
            RtcState { timestamp: now, ..self }
        } else {
            RtcState {
                current: self.current.advanced(now.wrapping_sub(self.timestamp)),
                timestamp: now,
                ..self
            }
        }
    }

    /// The state after `value` was written to the latch: a zero arms it, and the next
    /// other value copies the running counters.
    pub open spec fn latched_with(self, value: u8) -> RtcState {
        if value == 0 {
            RtcState { latch_started: true, ..self }
        } else if self.latch_started {
            RtcState { latched: self.current, latch_started: false, ..self }
        } else {
            self
        }
    }

    /// One of the five clock registers is selected.
    pub open spec fn register_selected(self) -> bool {
        0x08 <= self.selected <= 0x0C
    }

    /// The value of the selected register, as latched.
    pub open spec fn register(self) -> u8 {
        if self.selected == 0x08 {
            self.latched.seconds
        } else if self.selected == 0x09 {
            self.latched.minutes
        } else if self.selected == 0x0A {
            self.latched.hours
        } else if self.selected == 0x0B {
            (self.latched.days % 256) as u8
        } else {
            let low = (self.latched.days % 2) as u8;
            let halt = if self.latched.halt { 0x40int } else { 0 };
            let carry = if self.latched.carry { 0x80int } else { 0 };
            (low + halt + carry) as u8
        }
    }

    /// The running counters after `value` was written to the selected register.
    pub open spec fn written(self, value: u8) -> RtcState {
        let t = self.current;
        let t = if self.selected == 0x08 {
            RtcTime { seconds: value, ..t }
        } else if self.selected == 0x09 {
            RtcTime { minutes: value, ..t }
        } else if self.selected == 0x0A {
            RtcTime { hours: value, ..t }
        } else if self.selected == 0x0B {
            RtcTime { days: t.days | value as u16, ..t }
        } else {
            RtcTime {
                days: (t.days & 0xFEFF) | if value % 2 == 1 { 0x100u16 } else { 0u16 },
                halt: value & 0x40 != 0,
                carry: value & 0x80 != 0,
                ..t
            }
        };
        RtcState { current: t, ..self }
    }

    /// The stored form.
    pub open spec fn encode(self) -> Seq<u8> {
        self.current.encode() + self.latched.encode() + seq![flag_byte(self.latch_started)] + le64(
            self.timestamp,
        ) + le64(self.tick_cycle) + le64(self.cycle) + seq![self.selected]
    }

    /// What is stored at `i`.
    pub open spec fn decode(s: Seq<u8>, i: int) -> RtcState {
        RtcState {
            current: RtcTime::decode(s, i),
            latched: RtcTime::decode(s, i + 7),
            latch_started: flag_at(s, i + 14),
            timestamp: u64_at(s, i + 15),
            tick_cycle: u64_at(s, i + 23),
            cycle: u64_at(s, i + 31),
            selected: s[i + 39],
        }
    }

    /// A fresh clock at wall clock time `now`.
    pub fn new_at(now: u64) -> (r: Self)
        ensures
            r == Self::fresh(now),
    {
        Self {
            current: RtcTime::new(),
            latched: RtcTime::new(),
            latch_started: false,
            timestamp: now,
            tick_cycle: 0,
            cycle: 0,
            selected: 0,
        }
    }

    /// A fresh clock that starts now.
    pub fn new() -> (r: Self)
        ensures
            exists|now: u64| r == Self::fresh(now),
    {
        let now = now_seconds();
        let r = Self::new_at(now);
        assert(r == Self::fresh(now));
        r
    }

    /// Runs the clock for `cycles` processor cycles, at wall clock time `now`.
    pub fn step_at(&mut self, cycles: u16, speed: bool, now: u64)
        ensures
            *final(self) == old(self).stepped(cycles, speed, now),
    {
        let cycle_time: u64 = if speed { (CYCLE_TIME / 2) as u64 } else { CYCLE_TIME as u64 };
        if self.current.halt {
            self.timestamp = now;
            return;
        }
        self.cycle = self.cycle.wrapping_add(cycles as u64);
        if self.cycle.wrapping_sub(self.tick_cycle) / cycle_time >= Rtc::TICK_INTERVAL {
            self.tick_at(now);
        }
    }

    /// Runs the clock for `cycles` processor cycles, at the current wall clock time.
    pub fn step(&mut self, cycles: u16, speed: bool)
        ensures
            exists|now: u64| *final(self) == old(self).stepped(cycles, speed, now),
    {
        let now = now_seconds();
        self.step_at(cycles, speed, now);
        assert(*self == old(self).stepped(cycles, speed, now));
    }

    /// Counts the seconds that passed up to wall clock time `now`.
    pub fn tick_at(&mut self, now: u64)
        ensures
            *final(self) == old(self).ticked(now),
    {
        let elapsed: u64 = now.wrapping_sub(self.timestamp);
        self.current.seconds = self.current.seconds.wrapping_add((elapsed % 256) as u8);

        if self.current.seconds > 59 {
            self.current.seconds = self.current.seconds - 60;
            self.current.minutes = self.current.minutes.wrapping_add(1);
        }
        if self.current.minutes > 59 {
            self.current.minutes = 0;
            self.current.hours = self.current.hours.wrapping_add(1);
        }
        if self.current.hours > 23 {
            self.current.hours = 0;
            self.current.days = self.current.days.wrapping_add(1);
        }
        if self.current.days > 511 {
            self.current.days = 0;
            self.current.carry = true;
        }
        self.timestamp = now;
        self.tick_cycle = self.cycle;
    }

    /// Counts the seconds that passed up to the current wall clock time.
    pub fn tick(&mut self)
        ensures
            exists|now: u64| *final(self) == old(self).ticked(now),
    {
        let now = now_seconds();
        self.tick_at(now);
        assert(*self == old(self).ticked(now));
    }

    /// Selects a register for access.
    pub fn select(&mut self, register: u8)
        ensures
            *final(self) == (RtcState { selected: register, ..*old(self) }),
    {
        self.selected = register;
    }

    /// Writes to the latch.
    pub fn latch(&mut self, value: u8)
        ensures
            *final(self) == old(self).latched_with(value),
    {
        if value == 0 {
            self.latch_started = true;
        } else if self.latch_started {
            self.latched = self.current;
            self.latch_started = false;
        }
    }

    /// Reads the selected register, as latched.
    pub fn read(&self) -> (r: u8)
        requires
            self.register_selected(),
        ensures
            r == self.register(),
    {
        if self.selected == 0x08 {
            self.latched.seconds
        } else if self.selected == 0x09 {
            self.latched.minutes
        } else if self.selected == 0x0A {
            self.latched.hours
        } else if self.selected == 0x0B {
            (self.latched.days % 256) as u8
        } else {
            let mut value: u8 = (self.latched.days % 2) as u8;
            if self.latched.halt {
                value = value + 0x40;
            }
            if self.latched.carry {
                value = value + 0x80;
            }
            value
        }
    }

    /// Writes the selected register of the running counters.
    pub fn write(&mut self, value: u8)
        requires
            old(self).register_selected(),
        ensures
            *final(self) == old(self).written(value),
    {
        if self.selected == 0x08 {
            self.current.seconds = value;
        } else if self.selected == 0x09 {
            self.current.minutes = value;
        } else if self.selected == 0x0A {
            self.current.hours = value;
        } else if self.selected == 0x0B {
            self.current.days = self.current.days | value as u16;
        } else {
            let top: u16 = if value % 2 == 1 { 0x100 } else { 0 };
            self.current.days = (self.current.days & 0xFEFF) | top;
            self.current.halt = value & 0x40 != 0;
            self.current.carry = value & 0x80 != 0;
        }
    }

    /// Catches up with the wall clock, which stands at `now`.
    pub fn advance_at(&mut self, now: u64)
        ensures
            *final(self) == old(self).advanced(now),
    {
        if self.current.halt {
            self.timestamp = now;
            return;
        }
        let seconds: u64 = now.wrapping_sub(self.timestamp);
        let minutes: u64 = seconds / 60;
        let hours: u64 = minutes / 60;
        let days: u64 = hours / 24;
        assert(hours == seconds / 3600);
        assert(days == seconds / 86400);
        self.current.seconds = ((self.current.seconds as u64).wrapping_add(seconds) % 60) as u8;
        self.current.minutes = ((self.current.minutes as u64 + minutes) % 60) as u8;
        self.current.hours = ((self.current.hours as u64 + hours) % 24) as u8;
        self.current.days = ((self.current.days as u64 + days) % 512) as u16;
        self.timestamp = now;
    }

    /// Catches up with the wall clock.
    pub fn advance(&mut self)
        ensures
            exists|now: u64| *final(self) == old(self).advanced(now),
    {
        let now = now_seconds();
        self.advance_at(now);
        assert(*self == old(self).advanced(now));
    }

    /// Appends the stored form.
    pub fn serialize(&self, buf: &mut Vec<u8>)
        ensures
            final(buf)@ == old(buf)@ + self.encode(),
    {
        self.current.serialize(buf);
        self.latched.serialize(buf);
        put_flag(buf, self.latch_started);
        put_u64(buf, self.timestamp);
        put_u64(buf, self.tick_cycle);
        put_u64(buf, self.cycle);
        buf.push(self.selected);
        assert(buf@ =~= old(buf)@ + self.encode());
    }

    /// Reads a stored state at the cursor.
    pub fn deserialize(data: &[u8], pos: &mut usize) -> (r: Result<Self, Error>)
        requires
            *old(pos) + Self::spec_len() <= data@.len(),
        ensures
            r == Ok::<Self, Error>(Self::decode(data@, *old(pos) as int)),
            *final(pos) == *old(pos) + Self::spec_len(),
    {
        let current = match RtcTime::deserialize(data, pos) {
            Ok(t) => t,
            Err(e) => return Err(e),
        };
        let latched = match RtcTime::deserialize(data, pos) {
            Ok(t) => t,
            Err(e) => return Err(e),
        };
        let latch_started = take_flag(data, pos);
        let timestamp = take_u64(data, pos);
        let tick_cycle = take_u64(data, pos);
        let cycle = take_u64(data, pos);
        let selected = take_u8(data, pos);
        Ok(Self { current, latched, latch_started, timestamp, tick_cycle, cycle, selected })
    }

    /// A stored state is read back unchanged.
    pub proof fn lemma_round_trip(self, s: Seq<u8>, i: int)
        requires
            found_at(s, i, self.encode()),
        ensures
            Self::decode(s, i) == self,
            self.encode().len() == Self::spec_len(),
    {
        let cur = self.current.encode();
        let lat = self.latched.encode();
        let started = seq![flag_byte(self.latch_started)];
        let sel = seq![self.selected];
        let ts = le64(self.timestamp);
        let tc = le64(self.tick_cycle);
        let cy = le64(self.cycle);
        lemma_found_split(s, i, cur + lat + started + ts + tc + cy, sel);
        lemma_found_split(s, i, cur + lat + started + ts + tc, cy);
        lemma_found_split(s, i, cur + lat + started + ts, tc);
        lemma_found_split(s, i, cur + lat + started, ts);
        lemma_found_split(s, i, cur + lat, started);
        lemma_found_split(s, i, cur, lat);
        self.current.lemma_round_trip(s, i);
        self.latched.lemma_round_trip(s, i + 7);
        lemma_u64_found(s, i + 15, self.timestamp);
        lemma_u64_found(s, i + 23, self.tick_cycle);
        lemma_u64_found(s, i + 31, self.cycle);
        assert(s[i + 14 + 0] == started[0]);
        assert(s[i + 39 + 0] == sel[0]);
    }
}

/// Real time clock.
pub struct Rtc {
    pub state: RtcState,
}

impl Rtc {
    /// Smallest number of cycle times between two ticks.
    pub const TICK_INTERVAL: u64 = 30517;

    /// A fresh clock that starts now.
    pub fn new() -> (r: Self)
        ensures
            exists|now: u64| r.state == RtcState::fresh(now),
    {
        Self { state: RtcState::new() }
    }

    /// Restores a clock from its stored form.
    pub fn from_bytes(data: &[u8]) -> (r: Result<Self, Error>)
        requires
            RtcState::spec_len() <= data@.len(),
        ensures
            r == Ok::<Self, Error>(Rtc { state: RtcState::decode(data@, 0) }),
    {
        let mut pos: usize = 0;
        match RtcState::deserialize(data, &mut pos) {
            Ok(state) => Ok(Self { state }),
            Err(e) => Err(e),
        }
    }

    /// The stored form of this clock.
    pub fn dump(&self) -> (r: Vec<u8>)
        ensures
            r@ == self.state.encode(),
    {
        let mut buf: Vec<u8> = Vec::new();
        self.state.serialize(&mut buf);
        assert(buf@ =~= self.state.encode());
        buf
    }

    /// Runs the clock for `cycles` processor cycles.
    pub fn step(&mut self, cycles: u16, speed: bool)
        ensures
            exists|now: u64| final(self).state == old(self).state.stepped(cycles, speed, now),
    {
        self.state.step(cycles, speed);
    }

    /// Selects a register for access.
    pub fn select(&mut self, register: u8)
        ensures
            final(self).state == (RtcState { selected: register, ..old(self).state }),
    {
        self.state.select(register);
    }

    /// Writes to the latch.
    pub fn latch(&mut self, value: u8)
        ensures
            final(self).state == old(self).state.latched_with(value),
    {
        self.state.latch(value);
    }

    /// Reads the selected register, as latched.
    pub fn read(&self) -> (r: u8)
        requires
            self.state.register_selected(),
        ensures
            r == self.state.register(),
    {
        self.state.read()
    }

    /// Writes the selected register of the running counters.
    pub fn write(&mut self, value: u8)
        requires
            old(self).state.register_selected(),
        ensures
            final(self).state == old(self).state.written(value),
    {
        self.state.write(value);
    }

    /// Catches up with the wall clock.
    pub fn advance(&mut self)
        ensures
            exists|now: u64| final(self).state == old(self).state.advanced(now),
    {
        self.state.advance()
    }

    /// A clock that is dumped and restored is the same clock.
    pub proof fn law_dump_restores(self)
        ensures
            self.state.encode().len() == RtcState::spec_len(),
            RtcState::decode(self.state.encode(), 0) == self.state,
    {
        self.state.lemma_round_trip(self.state.encode(), 0);
    }

    /// The latch sequence, a zero and then any other value, makes the registers show
    /// the running counters, whatever the latch held before.
    pub proof fn law_latch_shows_current(self, value: u8)
        requires
            value != 0,
        ensures
            self.state.latched_with(0).latched_with(value).latched == self.state.current,
            self.state.latched_with(0).latched_with(value).current == self.state.current,
    {
    }

    /// What the registers show does not change while the clock runs, is written or
    /// catches up: only the latch changes it.
    pub proof fn law_latched_is_stable(self, cycles: u16, speed: bool, now: u64, value: u8)
        ensures
            self.state.stepped(cycles, speed, now).latched == self.state.latched,
            self.state.advanced(now).latched == self.state.latched,
            self.state.written(value).latched == self.state.latched,
            self.state.stepped(cycles, speed, now).register() == self.state.register(),
    {
    }

    /// A halted clock does not move, however much time passes.
    pub proof fn law_halted_clock_stands(self, cycles: u16, speed: bool, now: u64)
        requires
            self.state.current.halt,
        ensures
            self.state.stepped(cycles, speed, now).current == self.state.current,
            self.state.advanced(now).current == self.state.current,
    {
    }

    /// A value written to the seconds, minutes or hours register is read back once it
    /// has been latched.
    pub proof fn law_written_is_read(self, value: u8, latch: u8)
        requires
            0x08 <= self.state.selected <= 0x0A,
            latch != 0,
        ensures
            self.state.written(value).latched_with(0).latched_with(latch).register() == value,
    {
    }
}

impl RtcState {
    /// The registers, by their numbers: seconds, minutes, hours, the low eight bits of the
    /// days, and the flags, with the lowest bit of the days, the halt in bit 6 and the carry
    /// in bit 7.
    pub proof fn law_registers_are_read(self)
        ensures
            ({
                let read = |n: u8| RtcState { selected: n, ..self }.register();
                &&& read(8) == self.latched.seconds
                &&& read(9) == self.latched.minutes
                &&& read(10) == self.latched.hours
                &&& read(11) == self.latched.days % 256
                &&& read(12) % 64 == self.latched.days % 2
                &&& bit(read(12), 6) == self.latched.halt
                &&& bit(read(12), 7) == self.latched.carry
            }),
    {
    }

    /// A write goes to the running counter of its register and no other: the days take up the
    /// bits that are set, and the last register sets bit 8 of the days and the two flags.
    pub proof fn law_registers_are_set(self, v: u8)
        ensures
            ({
                let t = self.current;
                let write = |n: u8| RtcState { selected: n, ..self }.written(v);
                let put = |n: u8, t: RtcTime| RtcState { selected: n, current: t, ..self };
                let flags = write(12).current;
                &&& write(8) == put(8, RtcTime { seconds: v, ..t })
                &&& write(9) == put(9, RtcTime { minutes: v, ..t })
                &&& write(10) == put(10, RtcTime { hours: v, ..t })
                &&& write(11) == put(11, RtcTime { days: t.days | v as u16, ..t })
                &&& write(12) == put(12, flags)
                &&& flags.halt == bit(v, 6)
                &&& flags.carry == bit(v, 7)
                &&& flags.days % 256 == t.days % 256
                &&& (flags.days / 256) % 2 == v % 2
                &&& flags.days / 512 == t.days / 512
                &&& flags == (RtcTime {
                    days: flags.days,
                    halt: flags.halt,
                    carry: flags.carry,
                    ..t
                })
            }),
    {
        lemma_mask_tests_bit(v);
        lemma_day_bit(self.current.days);
    }

    /// Without the zero before it, a value written to the latch changes nothing; the zero
    /// alone leaves what the registers show.
    pub proof fn law_latch_needs_zero(self, v: u8)
        ensures
            v != 0 && !self.latch_started ==> self.latched_with(v) == self,
            self.latched_with(0).latched == self.latched,
            self.latched_with(0).latch_started,
            v != 0 ==> !self.latched_with(0).latched_with(v).latch_started,
            v != 0 && self.latch_started ==> self.latched_with(v).latched == self.current,
    {
    }

    /// The running clock counts the cycles of a step. It looks at the wall clock only after
    /// enough of them, and then moves by the seconds since it last did.
    pub proof fn law_ticks_now_and_then(self, cycles: u16, speed: bool, now: u64)
        requires
            !self.current.halt,
            self.tick_cycle <= self.cycle,
            self.cycle + cycles <= 0xFFFF_FFFF_FFFF_FFFF,
        ensures
            ({
                let s = self.stepped(cycles, speed, now);
                let since = self.cycle + cycles - self.tick_cycle;
                let due = since >= (if speed { 119int } else { 238 }) * 30517;
                &&& s.cycle == self.cycle + cycles
                &&& !due ==> s.current == self.current && s.timestamp == self.timestamp
                    && s.tick_cycle == self.tick_cycle
                &&& due ==> s.current == self.current.ticked(now.wrapping_sub(self.timestamp))
                    && s.timestamp == now && s.tick_cycle == s.cycle
                &&& s.latched == self.latched && s.selected == self.selected && s.latch_started
                    == self.latch_started
            }),
    {
        let since = self.cycle + cycles - self.tick_cycle;
        let time = cycle_time_of(speed) as int;
        assert(time == if speed { 119int } else { 238 });
        vstd::arithmetic::div_mod::lemma_fundamental_div_mod(since, time);
        let q = since / time;
        let n = Rtc::TICK_INTERVAL as int;
        assert((q >= n) == (since >= time * n)) by (nonlinear_arith)
            requires
                since == time * q + since % time,
                0 <= since % time < time,
                time > 0,
        ;
    }

    /// Catching up moves each counter by the whole number of its units that went by.
    pub proof fn law_catches_up(self, now: u64)
        requires
            !self.current.halt,
            self.timestamp <= now,
            self.current.seconds + (now - self.timestamp) <= 0xFFFF_FFFF_FFFF_FFFF,
        ensures
            ({
                let t = self.current;
                let s = self.advanced(now);
                let elapsed = now - self.timestamp;
                &&& s.timestamp == now
                &&& s.current.seconds == (t.seconds + elapsed) % 60
                &&& s.current.minutes == (t.minutes + elapsed / 60) % 60
                &&& s.current.hours == (t.hours + elapsed / 3600) % 24
                &&& s.current.days == (t.days + elapsed / 86400) % 512
                &&& s.latched == self.latched && s.selected == self.selected
            }),
    {
    }
}

proof fn lemma_day_bit(days: u16)
    by (bit_vector)
    ensures
        ((days & 0xFEFF) | 0x100u16) % 256 == days % 256,
        ((days & 0xFEFF) | 0u16) % 256 == days % 256,
        (((days & 0xFEFF) | 0x100u16) / 256) % 2 == 1,
        (((days & 0xFEFF) | 0u16) / 256) % 2 == 0,
        ((days & 0xFEFF) | 0x100u16) / 512 == days / 512,
        ((days & 0xFEFF) | 0u16) / 512 == days / 512,
{
}

impl RtcState {
    /// Where things lie in the stored form of forty bytes: the running counters, the latched
    /// ones, and the state of the clock, with numbers stored lowest byte first.
    pub proof fn law_stored_places(self)
        ensures
            ({
                let e = self.encode();
                let at = |i: int, t: RtcTime|
                    {
                        &&& e[i] == t.seconds
                        &&& e[i + 1] == t.minutes
                        &&& e[i + 2] == t.hours
                        &&& e[i + 3] + 256 * e[i + 4] == t.days
                        &&& (e[i + 5] == 1) == t.halt
                        &&& (e[i + 6] == 1) == t.carry
                    };
                &&& e.len() == 40
                &&& at(0, self.current)
                &&& at(7, self.latched)
                &&& (e[14] == 1) == self.latch_started
                &&& e.subrange(15, 23) == le64(self.timestamp)
                &&& e.subrange(23, 31) == le64(self.tick_cycle)
                &&& e.subrange(31, 39) == le64(self.cycle)
                &&& e[39] == self.selected
            }),
    {
        let e = self.encode();
        assert(e.subrange(15, 23) =~= le64(self.timestamp));
        assert(e.subrange(23, 31) =~= le64(self.tick_cycle));
        assert(e.subrange(31, 39) =~= le64(self.cycle));
    }
}

} // verus!
