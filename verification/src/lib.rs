//! A Game Boy Color machine: processor, picture and sound units, real time
//! clock, and the bus that joins them.
use vstd::prelude::*;

pub mod apu;
pub mod bits;
pub mod cartridge;
pub mod codec;
pub mod config;
pub mod cpu;
pub mod error;
pub mod gameboy;
pub mod instructions;
pub mod interrupts;
pub mod joypad;
pub mod memory;
pub mod ppu;
pub mod registers;
pub mod rtc;
pub mod timer;
pub mod ui;
pub mod video;

verus! {

} // verus!
