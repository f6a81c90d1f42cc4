//! Interrupt sources.
use vstd::prelude::*;

verus! {

/// Interrupt sources, from the highest priority down.
#[derive(Clone, Copy, Debug, PartialEq, Eq, Structural)]
pub enum Interrupt {
    Vblank,
    LcdStat,
    Timer,
    Serial,
    Joypad,
}

impl Interrupt {
    /// The source's bit in the interrupt registers.
    pub open spec fn spec_mask(self) -> u8 {
        match self {
            Interrupt::Vblank => 0x01,
            Interrupt::LcdStat => 0x02,
            Interrupt::Timer => 0x04,
            Interrupt::Serial => 0x08,
            Interrupt::Joypad => 0x10,
        }
    }

    /// The source's bit in the interrupt registers.
    pub fn mask(self) -> (r: u8)
        ensures
            r == self.spec_mask(),
    {
        match self {
            Interrupt::Vblank => 0x01,
            Interrupt::LcdStat => 0x02,
            Interrupt::Timer => 0x04,
            Interrupt::Serial => 0x08,
            Interrupt::Joypad => 0x10,
        }
    }
}

impl Interrupt {
    /// Each source has one bit, in the order of their priority from the lowest bit up.
    pub proof fn law_bits_in_order(self)
        ensures
            Interrupt::Vblank.spec_mask() == 1,
            Interrupt::LcdStat.spec_mask() == 2 * Interrupt::Vblank.spec_mask(),
            Interrupt::Timer.spec_mask() == 2 * Interrupt::LcdStat.spec_mask(),
            Interrupt::Serial.spec_mask() == 2 * Interrupt::Timer.spec_mask(),
            Interrupt::Joypad.spec_mask() == 2 * Interrupt::Serial.spec_mask(),
    {
    }
}

} // verus!
