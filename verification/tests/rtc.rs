use gbcemu::rtc::{seconds_read, Rtc, RtcState, RtcTime};

fn time(days: u16, hours: u8, minutes: u8, seconds: u8) -> RtcTime {
    RtcTime { seconds, minutes, hours, days, halt: false, carry: false }
}

#[test]
fn clock_carries_from_seconds_to_days() {
    let mut state = RtcState::new_at(100);
    state.current = time(3, 23, 59, 58);
    state.tick_at(105);
    assert_eq!(state.current, time(4, 0, 0, 3));
    assert_eq!(state.timestamp, 105);
}

#[test]
fn day_counter_overflows_into_the_carry() {
    let mut state = RtcState::new_at(0);
    state.current = time(511, 23, 59, 59);
    state.tick_at(1);
    assert_eq!(state.current.days, 0);
    assert_eq!(state.current.hours, 0);
    assert!(state.current.carry);
    // The carry stays
    state.tick_at(2);
    assert!(state.current.carry);
}

#[test]
fn clock_ticks_after_its_interval_only() {
    // One tick takes 30517 cycle times of 238
    let mut state = RtcState::new_at(10);
    let needed: u64 = 30517 * 238;
    let mut done: u64 = 0;
    while done + 60000 < needed {
        state.step_at(60000, false, 11);
        done += 60000;
    }
    assert_eq!(state.current.seconds, 0);
    state.step_at((needed - done) as u16, false, 13);
    assert_eq!(state.current.seconds, 3);
    assert_eq!(state.tick_cycle, state.cycle);
}

#[test]
fn halted_clock_stands_still() {
    let mut state = RtcState::new_at(0);
    state.current.halt = true;
    state.step_at(1000, false, 50);
    state.advance_at(5000);
    assert_eq!(state.current.seconds, 0);
    assert_eq!(state.timestamp, 5000);
}

#[test]
fn catching_up_moves_each_counter_by_its_units() {
    let mut state = RtcState::new_at(0);
    state.current = time(1, 2, 3, 4);
    state.advance_at(2 * 86400 + 3 * 3600 + 4 * 60 + 5);
    // Each counter moves by all whole units that passed
    assert_eq!(state.current, time(3, (2 + 51) % 24, ((3 + 3064) % 60) as u8, 9));
}

#[test]
fn latch_shows_the_running_counters() {
    let mut rtc = Rtc::new();
    rtc.state.current = time(300, 5, 6, 7);
    rtc.select(0x08);
    assert_eq!(rtc.read(), 0);
    // Without a zero first nothing is latched
    rtc.latch(1);
    assert_eq!(rtc.read(), 0);
    rtc.latch(0);
    rtc.latch(1);
    assert_eq!(rtc.read(), 7);
    rtc.select(0x09);
    assert_eq!(rtc.read(), 6);
    rtc.select(0x0A);
    assert_eq!(rtc.read(), 5);
    rtc.select(0x0B);
    assert_eq!(rtc.read(), (300 % 256) as u8);
    rtc.select(0x0C);
    assert_eq!(rtc.read(), 0);
    // What was latched stays while the clock is written
    rtc.select(0x08);
    rtc.write(30);
    assert_eq!(rtc.read(), 7);
    rtc.latch(0);
    rtc.latch(9);
    assert_eq!(rtc.read(), 30);
}

#[test]
fn control_register_of_the_clock() {
    let mut rtc = Rtc::new();
    rtc.select(0x0C);
    rtc.write(0xC1);
    assert!(rtc.state.current.halt);
    assert!(rtc.state.current.carry);
    assert_eq!(rtc.state.current.days, 0x100);
    rtc.write(0x00);
    assert_eq!(rtc.state.current.days, 0);
    rtc.select(0x0B);
    rtc.write(0x21);
    rtc.write(0x12);
    assert_eq!(rtc.state.current.days, 0x33);
    rtc.latch(0);
    rtc.latch(1);
    rtc.state.latched.halt = true;
    rtc.select(0x0C);
    assert_eq!(rtc.read(), 0x41);
}

#[test]
fn dumped_clock_is_restored() {
    let mut rtc = Rtc::new();
    rtc.state.current = time(511, 23, 59, 1);
    rtc.state.latched = time(256, 1, 2, 3);
    rtc.state.latch_started = true;
    rtc.state.cycle = 0x0102030405060708;
    rtc.select(0x0B);
    let dump = rtc.dump();
    assert_eq!(dump.len(), 40);
    let back = Rtc::from_bytes(&dump).unwrap();
    assert_eq!(back.state.current, rtc.state.current);
    assert_eq!(back.state.latched, rtc.state.latched);
    assert!(back.state.latch_started);
    assert_eq!(back.state.cycle, 0x0102030405060708);
    assert_eq!(back.state.timestamp, rtc.state.timestamp);
    assert_eq!(back.state.selected, 0x0B);
    assert_eq!(back.dump(), dump);
}

#[test]
fn clock_starts_at_the_time_of_the_host() {
    let before = std::time::UNIX_EPOCH.elapsed().unwrap().as_secs();
    let mut rtc = Rtc::new();
    let after = std::time::UNIX_EPOCH.elapsed().unwrap().as_secs();
    assert!(before <= rtc.state.timestamp && rtc.state.timestamp <= after);
    // Catching up brings the time of the host in
    rtc.state.timestamp = 0;
    rtc.advance();
    assert!(rtc.state.timestamp >= before);
    rtc.step(4, false);
    assert_eq!(rtc.state.cycle, 4);
}

#[test]
fn clock_before_the_epoch_reads_zero() {
    assert_eq!(seconds_read(Some(1_000_000_007)), 1_000_000_007);
    assert_eq!(seconds_read(None), 0);
}
