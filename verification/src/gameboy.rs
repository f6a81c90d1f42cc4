//! The whole machine.
use vstd::prelude::*;

use crate::cartridge::{Cartridge, ControllerView};
use crate::cpu::{Cpu, CpuView};
use crate::error::Error;
use crate::interrupts::Interrupt;
use crate::joypad::JoypadEvent;
use crate::memory::{BusView, MemoryBus};
use crate::ppu::frame_buffer::{FrameBuffer, FrameView};
use crate::ppu::PpuView;

pub mod laws;
pub mod state;
pub mod step_laws;
pub mod watch;

verus! {

/// State that outlives a run: battery-backed RAM, if it changed, and the clock.
pub struct GameboyState<'a> {
    pub ram: Option<&'a [u8]>,
    pub rtc: Option<Vec<u8>>,
}

/// Gameboy.
pub struct Gameboy {
    pub cpu: Cpu,
    pub verbose: bool,
}

impl View for Gameboy {
    type V = CpuView;

    open spec fn view(&self) -> CpuView {
        self.cpu@
    }
}

/// How a run towards a frame ended.
pub enum Run {
    /// A frame is ready.
    Ready,
    /// All steps were used up.
    Spent,
    /// The program ran into a byte that is no instruction.
    InvalidOpcode(u8),
}

/// What a request for a frame gives.
pub enum Frame<'a> {
    Ready(&'a FrameBuffer),
    /// All steps were used up.
    Spent,
    /// The program ran into a byte that is no instruction.
    InvalidOpcode(u8),
}

impl CpuView {
    /// The machine with some interrupts pending.
    pub open spec fn all_triggered(self, interrupts: Seq<Interrupt>) -> CpuView
        decreases interrupts.len(),
    {
        if interrupts.len() == 0 {
            self
        } else {
            self.all_triggered(interrupts.drop_last()).triggered(interrupts.last())
        }
    }

    /// After a speed switch the divider starts again and the machine goes on.
    pub open spec fn resumed(self) -> CpuView {
        if self.stopped {
            CpuView { bus: self.bus.poked(0xFF04, 0), stopped: false, ..self }
        } else {
            self
        }
    }

    /// The whole machine after one step of the processor, at this time on the wall clock:
    /// the units run for as many cycles, and what they raise is pending.
    #[verifier::opaque]
    pub open spec fn machine_stepped(self, now: u64) -> CpuView {
        let s = self.stepped();
        let cycles = self.step_cycles() as u16;
        CpuView { bus: s.bus.stepped(cycles, self.speed, now), ..s }.all_triggered(
            s.bus.raised(cycles, self.speed),
        ).resumed()
    }

    /// The whole machine after one step for each time on the wall clock.
    pub open spec fn machine_ran(self, times: Seq<u64>) -> CpuView
        decreases times.len(),
    {
        if times.len() == 0 {
            self
        } else {
            self.machine_ran(times.drop_last()).machine_stepped(times.last())
        }
    }

    /// A frame is ready to be picked up.
    pub open spec fn frame_ready(self) -> bool {
        self.bus.ppu.frame_buffer.ready
    }

    /// Until each of these steps no frame was ready, and each step met an instruction.
    pub open spec fn waits_for_frame(self, times: Seq<u64>) -> bool {
        forall|k: int|
            0 <= k < times.len() ==> !(#[trigger] self.machine_ran(times.take(k))).frame_ready()
                && self.machine_ran(times.take(k)).can_step()
    }

    /// The machine after an event of the joypad. A press raises an interrupt.
    pub open spec fn joypad_moved(self, event: JoypadEvent) -> CpuView {
        let s = CpuView {
            bus: BusView { joypad: self.bus.joypad.after(event), ..self.bus },
            ..self
        };
        if self.bus.joypad.pressed_by(event) {
            s.triggered(Interrupt::Joypad)
        } else {
            s
        }
    }

    /// The machine after some events of the joypad.
    pub open spec fn joypad_updated(self, events: Seq<JoypadEvent>) -> CpuView
        decreases events.len(),
    {
        if events.len() == 0 {
            self
        } else {
            self.joypad_updated(events.drop_last()).joypad_moved(events.last())
        }
    }

    pub open spec fn with_ppu(self, ppu: PpuView) -> CpuView {
        CpuView { bus: BusView { ppu, ..self.bus }, ..self }
    }

    pub open spec fn with_controller(self, controller: ControllerView) -> CpuView {
        CpuView { bus: BusView { controller, ..self.bus }, ..self }
    }

    /// The machine with its frame picked up.
    pub open spec fn frame_taken(self) -> CpuView {
        self.with_ppu(
            PpuView {
                frame_buffer: FrameView { ready: false, ..self.bus.ppu.frame_buffer },
                ..self.bus.ppu
            },
        )
    }
}

impl Gameboy {
    /// Length of a frame, in nanoseconds.
    pub const FRAME_DURATION: u64 = 16_750_418;

    /// The bus is valid.
    pub open spec fn wf(&self) -> bool {
        self.cpu.wf()
    }

    /// A machine with a cartridge. An image without a header is refused.
    pub fn init(cartridge: Cartridge) -> (r: Result<Self, Error>)
        ensures
            r is Ok <==> cartridge.has_header(),
            r matches Ok(gameboy) ==> gameboy.wf() && !gameboy.verbose && exists|now: u64|
                gameboy@ == #[trigger] CpuView::with_cartridge(cartridge, now),
            r matches Err(Error::InvalidValue(text)) ==> text@ == "Invalid ROM header"@,
    {
        match Cpu::from_cartridge(cartridge) {
            Ok(cpu) => Ok(Self { cpu, verbose: false }),
            Err(e) => Err(e),
        }
    }

    /// Asks for more to be reported, or not.
    pub fn set_verbose(&mut self, verbose: bool)
        ensures
            final(self).verbose == verbose,
            final(self).cpu == old(self).cpu,
    {
        self.verbose = verbose;
    }

    fn trigger_all(&mut self, interrupts: &Vec<Interrupt>)
        requires
            old(self).wf(),
        ensures
            final(self)@ == old(self)@.all_triggered(interrupts@),
            final(self).verbose == old(self).verbose,
            final(self).wf(),
    {
        let mut i: usize = 0;
        while i < interrupts.len()
            invariant
                i <= interrupts@.len(),
                self.wf(),
                self.verbose == old(self).verbose,
                self@ == old(self)@.all_triggered(interrupts@.take(i as int)),
            decreases interrupts@.len() - i,
        {
            let interrupt = interrupts[i];
            self.cpu.trigger_interrupt(interrupt);
            i = i + 1;
            assert(interrupts@.take(i as int).drop_last() =~= interrupts@.take(i - 1));
        }
        assert(interrupts@.take(i as int) =~= interrupts@);
    }

    /// Lets the units run for some cycles, and makes pending what they raise.
    fn run_units(&mut self, cycles: u16, speed: bool, now: u64)
        requires
            old(self).wf(),
        ensures
            final(self)@ == (CpuView {
                bus: old(self)@.bus.stepped(cycles, speed, now),
                ..old(self)@
            }).all_triggered(old(self)@.bus.raised(cycles, speed)),
            final(self).verbose == old(self).verbose,
            final(self).wf(),
    {
        let mut interrupts: Vec<Interrupt> = Vec::new();
        let ghost raised = self@.bus.raised(cycles, speed);
        self.cpu.memory.step_at(cycles, speed, now, &mut interrupts);
        assert(interrupts@ == raised) by {
            assert(Seq::<Interrupt>::empty() + raised =~= raised);
        }
        self.trigger_all(&interrupts);
    }

    /// Goes on after a speed switch.
    fn resume(&mut self)
        requires
            old(self).wf(),
        ensures
            final(self)@ == old(self)@.resumed(),
            final(self).verbose == old(self).verbose,
            final(self).wf(),
    {
        if self.cpu.stopped {
            self.cpu.memory.write(0xFF04, 0);
            self.cpu.stopped = false;
        }
    }

    /// Runs the machine for one step, at this time on the wall clock. Returns the cycles.
    pub fn step_at(&mut self, now: u64) -> (r: u32)
        requires
            old(self).wf(),
            old(self)@.can_step(),
        ensures
            final(self)@ == old(self)@.machine_stepped(now),
            r == old(self)@.step_cycles(),
            final(self).verbose == old(self).verbose,
            final(self).wf(),
    {
        reveal(CpuView::machine_stepped);
        let speed = self.cpu.speed;
        let (cycles, _inst) = self.cpu.step();
        self.run_units(cycles, speed, now);
        self.resume();
        cycles as u32
    }

    /// Runs the machine for one step. Returns the cycles.
    pub fn step(&mut self) -> (r: u32)
        requires
            old(self).wf(),
            old(self)@.can_step(),
        ensures
            exists|now: u64| final(self)@ == #[trigger] old(self)@.machine_stepped(now),
            r == old(self)@.step_cycles(),
            final(self).verbose == old(self).verbose,
            final(self).wf(),
    {
        let now = crate::rtc::now_seconds();
        self.step_at(now)
    }

    /// Runs the machine for one step, at this time on the wall clock, if there is an
    /// instruction. Otherwise only the interrupts have been looked at, and the opcode that
    /// stands in the way is returned.
    pub fn try_step_at(&mut self, now: u64) -> (r: Result<u32, u8>)
        requires
            old(self).wf(),
        ensures
            r is Ok <==> old(self)@.can_step(),
            r matches Ok(cycles) ==> final(self)@ == old(self)@.machine_stepped(now) && cycles
                == old(self)@.step_cycles(),
            r matches Err(op) ==> final(self)@ == old(self)@.serviced().0 && op
                == final(self)@.opcode(),
            final(self).verbose == old(self).verbose,
            final(self).wf(),
    {
        reveal(CpuView::machine_stepped);
        let speed = self.cpu.speed;
        match self.cpu.try_step() {
            Some((cycles, _inst)) => {
                self.run_units(cycles, speed, now);
                self.resume();
                Ok(cycles as u32)
            },
            None => Err(self.cpu.memory.read(self.cpu.registers.PC)),
        }
    }

    fn is_frame_ready(&self) -> (r: bool)
        ensures
            r == self@.frame_ready(),
    {
        reveal(MemoryBus::contents);
        self.cpu.memory.ppu().is_frame_ready()
    }

    /// Runs the machine until a frame is ready, or for so many steps.
    pub fn run(&mut self, max_steps: u64) -> (r: Run)
        requires
            old(self).wf(),
        ensures
            exists|times: Seq<u64>|
                {
                    let done = #[trigger] old(self)@.machine_ran(times);
                    &&& times.len() <= max_steps
                    &&& old(self)@.waits_for_frame(times)
                    &&& match r {
                        Run::Ready => final(self)@ == done && done.frame_ready(),
                        Run::Spent => final(self)@ == done && !done.frame_ready() && times.len()
                            == max_steps,
                        Run::InvalidOpcode(op) => final(self)@ == done.serviced().0
                            && !done.frame_ready() && !done.can_step() && op
                            == final(self)@.opcode(),
                    }
                },
            final(self).verbose == old(self).verbose,
            final(self).wf(),
    {
        let ghost mut times: Seq<u64> = Seq::empty();
        let mut steps: u64 = 0;
        while steps < max_steps
            invariant
                steps <= max_steps,
                times.len() == steps,
                self.wf(),
                self.verbose == old(self).verbose,
                self@ == old(self)@.machine_ran(times),
                old(self)@.waits_for_frame(times),
            decreases max_steps - steps,
        {
            if self.is_frame_ready() {
                return Run::Ready;
            }
            let now = crate::rtc::now_seconds();
            let ghost before = times;
            let ghost next = times.push(now);
            match self.try_step_at(now) {
                Ok(_) => {
                    proof {
                        assert(next.drop_last() =~= before);
                        assert forall|k: int| 0 <= k < next.len() implies !(
                        #[trigger] old(self)@.machine_ran(next.take(k))).frame_ready()
                            && old(self)@.machine_ran(next.take(k)).can_step() by {
                            if k < before.len() {
                                assert(next.take(k) =~= before.take(k));
                            } else {
                                assert(next.take(k) =~= before);
                            }
                        }
                        times = next;
                    }
                },
                Err(op) => {
                    return Run::InvalidOpcode(op);
                },
            }
            steps = steps + 1;
        }
        if self.is_frame_ready() {
            Run::Ready
        } else {
            Run::Spent
        }
    }

    /// Runs the machine until a frame is ready, or for so many steps. With a frame, the
    /// joypad events are passed on, and the frame is handed out and marked as picked up.
    pub fn frame(&mut self, joypad_events: Option<&[JoypadEvent]>, max_steps: u64) -> (r: Frame<'_>)
        requires
            old(self).wf(),
        ensures
            exists|times: Seq<u64>|
                {
                    let done = #[trigger] old(self)@.machine_ran(times);
                    let events = match joypad_events {
                        Some(events) => events@,
                        None => Seq::empty(),
                    };
                    &&& times.len() <= max_steps
                    &&& old(self)@.waits_for_frame(times)
                    &&& match r {
                        Frame::Ready(frame) => {
                            &&& done.frame_ready()
                            &&& final(self)@ == done.joypad_updated(events).frame_taken()
                            &&& frame@ == final(self)@.bus.ppu.frame_buffer
                        },
                        Frame::Spent => final(self)@ == done && !done.frame_ready()
                            && times.len() == max_steps,
                        Frame::InvalidOpcode(op) => final(self)@ == done.serviced().0
                            && !done.frame_ready() && !done.can_step() && op
                            == final(self)@.opcode(),
                    }
                },
            final(self).verbose == old(self).verbose,
            final(self).wf(),
    {
        match self.run(max_steps) {
            Run::Ready => {
                let ghost done = self@;
                self.update_joypad(joypad_events);
                proof {
                    let events = match joypad_events {
                        Some(events) => events@,
                        None => Seq::empty(),
                    };
                    done.lemma_joypad_keeps_ppu(events);
                }
                match self.cpu.memory.take_frame() {
                    Some(frame) => Frame::Ready(frame),
                    None => Frame::Spent,
                }
            },
            Run::Spent => Frame::Spent,
            Run::InvalidOpcode(op) => Frame::InvalidOpcode(op),
        }
    }

    /// Passes joypad events on.
    pub fn update_joypad(&mut self, joypad_events: Option<&[JoypadEvent]>)
        requires
            old(self).wf(),
        ensures
            final(self)@ == match joypad_events {
                Some(events) => old(self)@.joypad_updated(events@),
                None => old(self)@,
            },
            final(self).verbose == old(self).verbose,
            final(self).wf(),
    {
        match joypad_events {
            Some(events) => {
                let mut i: usize = 0;
                while i < events.len()
                    invariant
                        i <= events@.len(),
                        self.wf(),
                        self.verbose == old(self).verbose,
                        self@ == old(self)@.joypad_updated(events@.take(i as int)),
                    decreases events@.len() - i,
                {
                    let event = events[i];
                    self.move_joypad(event);
                    i = i + 1;
                    assert(events@.take(i as int).drop_last() =~= events@.take(i - 1));
                }
                assert(events@.take(i as int) =~= events@);
            },
            None => {},
        }
    }

    fn move_joypad(&mut self, event: JoypadEvent)
        requires
            old(self).wf(),
        ensures
            final(self)@ == old(self)@.joypad_moved(event),
            final(self).verbose == old(self).verbose,
            final(self).wf(),
    {
        let pressed = self.cpu.memory.handle_joypad(event);
        if pressed {
            self.cpu.trigger_interrupt(Interrupt::Joypad);
        }
    }
}

impl CpuView {
    /// Joypad events do not touch the picture unit.
    proof fn lemma_joypad_keeps_ppu(self, events: Seq<JoypadEvent>)
        ensures
            self.joypad_updated(events).bus.ppu == self.bus.ppu,
        decreases events.len(),
    {
        if events.len() > 0 {
            self.lemma_joypad_keeps_ppu(events.drop_last());
            reveal(BusView::poked);
        }
    }
}

} // verus!
