//! Watching a frame that does not come.
use vstd::prelude::*;

verus! {

/// Steps between two looks at the machine.
pub const WATCH_STEPS: u64 = 100_000;

/// Steps at one place after which the program counts as stuck.
pub const STUCK_STEPS: u64 = 500_000;

/// What keeps a halted processor.
#[derive(Clone, Copy, Debug, PartialEq, Eq, Structural)]
pub enum Sleep {
    /// It is not halted.
    Awake,
    /// No interrupt can wake it and be served.
    Forever,
    /// An interrupt is on its way.
    Waiting,
}

/// What was seen of the machine.
#[derive(Clone, Copy, Debug, PartialEq, Eq, Structural)]
pub struct FrameReport {
    /// The program has stayed in one place for long.
    pub stuck: bool,
    /// The display is off, so no frame will come.
    pub lcd_off: bool,
    pub sleep: Sleep,
}

/// Watches the machine while a frame does not come.
#[derive(Clone, Copy, Debug, PartialEq, Eq, Structural)]
pub struct FrameWatch {
    pub last_pc: u16,
    pub stuck_steps: u64,
}

impl FrameWatch {
    /// The watch after a look. The count starts again when the program has moved, and after
    /// it was reported as stuck.
    pub open spec fn after(self, pc: u16) -> FrameWatch {
        let steps = self.stuck_steps.wrapping_add(WATCH_STEPS);
        FrameWatch {
            last_pc: pc,
            stuck_steps: if pc != self.last_pc || steps >= STUCK_STEPS { 0 } else { steps },
        }
    }

    /// The program counts as stuck.
    pub open spec fn is_stuck(self, pc: u16) -> bool {
        pc == self.last_pc && self.stuck_steps.wrapping_add(WATCH_STEPS) >= STUCK_STEPS
    }

    pub fn new(pc: u16) -> (r: Self)
        ensures
            r == (FrameWatch { last_pc: pc, stuck_steps: 0 }),
    {
        Self { last_pc: pc, stuck_steps: 0 }
    }

    /// Looks at the machine.
    pub fn observe(
        &mut self,
        pc: u16,
        lcdc: u8,
        halted: bool,
        enabled: u8,
        pending: u8,
        ime: bool,
    ) -> (r: FrameReport)
        ensures
            *final(self) == old(self).after(pc),
            r.stuck == old(self).is_stuck(pc),
            r.lcd_off == (lcdc < 0x80),
            r.sleep == if !halted {
                Sleep::Awake
            } else if enabled & pending == 0 || !ime {
                Sleep::Forever
            } else {
                Sleep::Waiting
            },
    {
        let mut stuck = false;
        if pc == self.last_pc {
            self.stuck_steps = self.stuck_steps.wrapping_add(WATCH_STEPS);
            if self.stuck_steps >= STUCK_STEPS {
                stuck = true;
                self.stuck_steps = 0;
            }
        } else {
            self.stuck_steps = 0;
        }
        self.last_pc = pc;
        let sleep = if !halted {
            Sleep::Awake
        } else if enabled & pending == 0 || !ime {
            Sleep::Forever
        } else {
            Sleep::Waiting
        };
        FrameReport { stuck, lcd_off: lcdc < 0x80, sleep }
    }

    /// A program that does not move is reported at the fifth look.
    pub proof fn law_stuck_is_reported(self, pc: u16)
        requires
            self == (FrameWatch { last_pc: pc, stuck_steps: 0 }),
        ensures
            !self.is_stuck(pc),
            !self.after(pc).is_stuck(pc),
            !self.after(pc).after(pc).is_stuck(pc),
            !self.after(pc).after(pc).after(pc).is_stuck(pc),
            self.after(pc).after(pc).after(pc).after(pc).is_stuck(pc),
            self.after(pc).after(pc).after(pc).after(pc).after(pc) == self,
    {
    }
}

impl FrameWatch {
    /// A program that moves is not stuck, and the count starts again from nothing; one that
    /// stays counts on by a hundred thousand steps with each look, and is stuck from half a
    /// million on.
    pub proof fn law_moving_is_not_stuck(self, pc: u16)
        requires
            self.stuck_steps < 500_000,
        ensures
            ({
                let steps = self.stuck_steps + 100_000;
                &&& self.after(pc).last_pc == pc
                &&& pc != self.last_pc ==> !self.is_stuck(pc) && self.after(pc).stuck_steps == 0
                &&& pc == self.last_pc ==> self.is_stuck(pc) == (steps >= 500_000)
                &&& pc == self.last_pc && steps < 500_000 ==> self.after(pc).stuck_steps == steps
                &&& self.is_stuck(pc) ==> self.after(pc).stuck_steps == 0
            }),
    {
    }
}

} // verus!
