//! The bus: it joins the memories and the units of the machine under one address space.
use vstd::prelude::*;

use crate::apu::{Apu, ApuView, AudioEvent};
use crate::cartridge::{Cartridge, Controller, ControllerView};
use crate::error::Error;
use crate::interrupts::Interrupt;
use crate::joypad::{Joypad, JoypadEvent};
use crate::ppu::frame_buffer::{FrameBuffer, FrameView};
use crate::ppu::{ppu_addr, Ppu, PpuView};
use crate::timer::Timer;

pub mod laws;
pub mod store;

verus! {

/// Bytes of working RAM, in eight banks.
pub const RAM_SIZE: usize = 0x8000;

/// Bytes of high RAM.
pub const HIGH_RAM_SIZE: usize = 127;

/// Sound, the serial port and the speed switch.
pub struct IoHandler {
    pub apu: Apu,
    /// Bytes sent so far.
    pub serial: Vec<u8>,
    /// Serial data (0xFF01).
    pub serial_data: u8,
    /// Serial control (0xFF02).
    pub serial_control: u8,
    /// A transfer is under way.
    pub serial_pending: bool,
    /// Speed switch (0xFF4D): the current speed in the highest bit, the request in the
    /// lowest.
    pub prep_speed_switch: u8,
}

/// What the input and output ports hold.
#[verifier::ext_equal]
pub struct IoView {
    pub apu: ApuView,
    pub serial: Seq<u8>,
    pub serial_data: u8,
    pub serial_control: u8,
    pub serial_pending: bool,
    pub prep_speed_switch: u8,
}

impl View for IoHandler {
    type V = IoView;

    open spec fn view(&self) -> IoView {
        IoView {
            apu: self.apu@,
            serial: self.serial@,
            serial_data: self.serial_data,
            serial_control: self.serial_control,
            serial_pending: self.serial_pending,
            prep_speed_switch: self.prep_speed_switch,
        }
    }
}

impl IoHandler {
    /// Bytes sent over the serial port so far.
    pub fn serial_buffer(&self) -> (r: &[u8])
        ensures
            r@ == self@.serial,
    {
        self.serial.as_slice()
    }
}

/// The bus.
pub struct MemoryBus {
    pub controller: Controller,
    pub ram: Vec<u8>,
    /// Bank of working RAM at 0xD000.
    pub ram_bank: u8,
    pub high_ram: Vec<u8>,
    pub ppu: Ppu,
    pub io: IoHandler,
    pub timer: Timer,
    pub joypad: Joypad,
    /// Pending interrupts (0xFF0F).
    pub int_flags: u8,
    /// Enabled interrupts (0xFFFF).
    pub int_enable: u8,
    /// Color machine.
    pub cgb: bool,
}

/// What the bus holds.
#[verifier::ext_equal]
pub struct BusView {
    pub controller: ControllerView,
    pub ram: Seq<u8>,
    pub ram_bank: u8,
    pub high_ram: Seq<u8>,
    pub ppu: PpuView,
    pub io: IoView,
    pub timer: Timer,
    pub joypad: Joypad,
    pub int_flags: u8,
    pub int_enable: u8,
    pub cgb: bool,
}

impl View for MemoryBus {
    type V = BusView;

    open spec fn view(&self) -> BusView {
        self.contents()
    }
}

/// The address lies in working RAM or its echo.
pub open spec fn ram_addr(addr: u16) -> bool {
    0xC000 <= addr <= 0xFDFF
}

/// The address lies in working RAM or in high RAM.
pub open spec fn plain_ram(addr: u16) -> bool {
    0xC000 <= addr <= 0xDFFF || 0xFF80 <= addr <= 0xFFFE
}

impl IoView {
    pub open spec fn zero() -> IoView {
        IoView {
            apu: ApuView::zero(),
            serial: Seq::empty(),
            serial_data: 0,
            serial_control: 0,
            serial_pending: false,
            prep_speed_switch: 0,
        }
    }

    /// A write to the serial control register. A transfer with the machine's own clock
    /// sends the data byte.
    pub open spec fn serial_written(self, value: u8) -> IoView {
        if value & 0x81 == 0x81 {
            IoView {
                serial: self.serial.push(self.serial_data),
                serial_control: value,
                serial_pending: true,
                ..self
            }
        } else {
            IoView { serial_control: value, ..self }
        }
    }

    /// The serial port when a transfer is over.
    pub open spec fn serial_done(self) -> IoView {
        if self.serial_pending {
            IoView { serial_pending: false, serial_control: self.serial_control & 0x7F, ..self }
        } else {
            self
        }
    }
}

impl BusView {
    /// All memories have their size, and banks and registers name what exists.
    pub open spec fn wf(self) -> bool {
        &&& self.controller.wf()
        &&& self.ram.len() == RAM_SIZE
        &&& 1 <= self.ram_bank <= 7
        &&& self.high_ram.len() == HIGH_RAM_SIZE
        &&& self.ppu.wf()
        &&& self.io.apu.wf()
    }

    /// A bus at power-on, around a cartridge.
    pub open spec fn powered_on(
        controller: ControllerView,
        cgb: bool,
        boot_rom: bool,
    ) -> BusView {
        BusView {
            controller,
            ram: Seq::new(RAM_SIZE as nat, |i: int| 0u8),
            ram_bank: 1,
            high_ram: Seq::new(HIGH_RAM_SIZE as nat, |i: int| 0u8),
            ppu: PpuView::zero(cgb, boot_rom),
            io: IoView::zero(),
            timer: Timer::zero(),
            joypad: Joypad::idle(),
            int_flags: 0,
            int_enable: 0,
            cgb,
        }
    }

    /// Place of an address in working RAM. The echo lies 0x2000 behind.
    pub open spec fn ram_index(self, addr: u16) -> int {
        let a = if addr >= 0xE000 { addr - 0x2000 } else { addr as int };
        if a < 0xD000 {
            a - 0xC000
        } else {
            0x1000 * self.ram_bank + (a - 0xD000)
        }
    }

    /// The value of a port from 0xFF00 to 0xFF7F that the picture unit does not answer for.
    pub open spec fn port(self, addr: u16) -> u8 {
        if addr == 0xFF00 {
            self.joypad.register()
        } else if addr == 0xFF01 {
            self.io.serial_data
        } else if addr == 0xFF02 {
            self.io.serial_control
        } else if 0xFF04 <= addr <= 0xFF07 {
            self.timer.register(addr)
        } else if addr == 0xFF0F {
            self.int_flags
        } else if 0xFF10 <= addr <= 0xFF3F {
            self.io.apu.register(addr)
        } else if addr == 0xFF4D {
            self.io.prep_speed_switch
        } else if addr == 0xFF70 {
            self.ram_bank
        } else {
            0xFF
        }
    }

    /// The bus after a write to such a port.
    pub open spec fn port_written(self, addr: u16, value: u8) -> BusView {
        if addr == 0xFF00 {
            BusView { joypad: self.joypad.written(value), ..self }
        } else if addr == 0xFF01 {
            BusView { io: IoView { serial_data: value, ..self.io }, ..self }
        } else if addr == 0xFF02 {
            BusView { io: self.io.serial_written(value), ..self }
        } else if 0xFF04 <= addr <= 0xFF07 {
            BusView { timer: self.timer.written(addr, value), ..self }
        } else if addr == 0xFF0F {
            BusView { int_flags: value, ..self }
        } else if 0xFF10 <= addr <= 0xFF3F {
            BusView { io: IoView { apu: self.io.apu.written(addr, value), ..self.io }, ..self }
        } else if addr == 0xFF4D {
            let held = self.io.prep_speed_switch - self.io.prep_speed_switch % 2;
            BusView {
                io: IoView { prep_speed_switch: (held + value % 2) as u8, ..self.io },
                ..self
            }
        } else if addr == 0xFF70 {
            if self.cgb {
                BusView { ram_bank: if value % 8 == 0 { 1 } else { value % 8 }, ..self }
            } else {
                self
            }
        } else {
            self
        }
    }

    /// The byte that a read of `addr` gives.
    #[verifier::opaque]
    pub open spec fn peek(self, addr: u16) -> u8 {
        if addr < 0x8000 {
            self.controller.rom_byte(addr)
        } else if ppu_addr(addr) {
            self.ppu.register(addr)
        } else if addr < 0xC000 {
            self.controller.ram_byte(addr)
        } else if ram_addr(addr) {
            self.ram[self.ram_index(addr)]
        } else if addr == 0xFFFF {
            self.int_enable
        } else if addr >= 0xFF80 {
            self.high_ram[addr - 0xFF80]
        } else if addr >= 0xFF00 {
            self.port(addr)
        } else {
            0xFF
        }
    }

    /// The bus after `value` was written to `addr`.
    #[verifier::opaque]
    pub open spec fn poked(self, addr: u16, value: u8) -> BusView {
        if addr < 0x8000 {
            BusView { controller: self.controller.rom_written(addr, value), ..self }
        } else if ppu_addr(addr) {
            BusView { ppu: self.ppu.written(addr, value), ..self }
        } else if addr < 0xC000 {
            BusView { controller: self.controller.ram_written(addr, value), ..self }
        } else if ram_addr(addr) {
            BusView { ram: self.ram.update(self.ram_index(addr), value), ..self }
        } else if addr == 0xFFFF {
            BusView { int_enable: value, ..self }
        } else if addr >= 0xFF80 {
            BusView { high_ram: self.high_ram.update(addr - 0xFF80, value), ..self }
        } else if addr >= 0xFF00 {
            self.port_written(addr, value)
        } else {
            self
        }
    }

    /// The bus after a word was written to `addr`, its low byte first.
    pub open spec fn poked_word(self, addr: u16, value: u16) -> BusView {
        self.poked(addr, (value % 256) as u8).poked(addr.wrapping_add(1), (value / 256) as u8)
    }

    /// The bus after some cycles, at this time on the wall clock.
    #[verifier::opaque]
    pub open spec fn stepped(self, cycles: u16, speed: bool, now: u64) -> BusView {
        BusView {
            ppu: self.ppu.stepped(cycles, speed),
            timer: self.timer.stepped(cycles),
            io: IoView { apu: self.io.apu.stepped(cycles as u64), ..self.io.serial_done() },
            controller: self.controller.stepped(cycles, speed, now),
            ..self
        }
    }

    /// Interrupts raised within some cycles: by the picture unit, the timer and the serial
    /// port, in this order.
    #[verifier::opaque]
    pub open spec fn raised(self, cycles: u16, speed: bool) -> Seq<Interrupt> {
        let timer = if self.timer.overflows(self.timer.moves(cycles)) {
            seq![Interrupt::Timer]
        } else {
            Seq::empty()
        };
        let serial = if self.io.serial_pending {
            seq![Interrupt::Serial]
        } else {
            Seq::empty()
        };
        self.ppu.interrupts(cycles, speed) + timer + serial
    }

    /// The bus after a reset, which keeps the cartridge with its RAM and its clock.
    pub open spec fn reset_done(self) -> BusView {
        Self::powered_on(
            ControllerView { rom_bank: 1, enabled: false, rtc_mapped: false, ..self.controller },
            self.cgb,
            false,
        )
    }

    /// A byte written to working or high RAM is read back, and no other byte of them
    /// changes.
    pub proof fn law_ram_keeps(self, addr: u16, value: u8, other: u16)
        requires
            self.wf(),
            plain_ram(addr),
            plain_ram(other),
        ensures
            self.poked(addr, value).peek(addr) == value,
            other != addr ==> self.poked(addr, value).peek(other) == self.peek(other),
    {
        reveal(BusView::peek);
        reveal(BusView::poked);
    }

    /// A write keeps all memories whole and all banks in range.
    pub proof fn law_poke_keeps_wf(self, addr: u16, value: u8)
        requires
            self.wf(),
        ensures
            self.poked(addr, value).wf(),
    {
        reveal(BusView::poked);
    }

    /// Working RAM is seen a second time 0x2000 behind.
    pub proof fn law_echo(self, addr: u16, value: u8)
        requires
            self.wf(),
            0xC000 <= addr <= 0xDDFF,
        ensures
            self.peek((addr + 0x2000) as u16) == self.peek(addr),
            self.poked((addr + 0x2000) as u16, value) == self.poked(addr, value),
    {
        reveal(BusView::peek);
        reveal(BusView::poked);
    }
}

impl MemoryBus {
    /// What the bus holds.
    #[verifier::opaque]
    pub open spec fn contents(&self) -> BusView {
        BusView {
            controller: self.controller@,
            ram: self.ram@,
            ram_bank: self.ram_bank,
            high_ram: self.high_ram@,
            ppu: self.ppu@,
            io: self.io@,
            timer: self.timer,
            joypad: self.joypad,
            int_flags: self.int_flags,
            int_enable: self.int_enable,
            cgb: self.cgb,
        }
    }

    /// The contents are valid, and the picture unit's decoded tiles are up to date.
    #[verifier::opaque]
    pub open spec fn wf(&self) -> bool {
        self@.wf() && self.ppu.wf()
    }

    fn around(controller: Controller, cgb: bool, boot_rom: bool) -> (r: Self)
        requires
            controller@.wf(),
        ensures
            r@ == BusView::powered_on(controller@, cgb, boot_rom),
            r.wf(),
    {
        reveal(MemoryBus::contents);
        reveal(MemoryBus::wf);
        let r = Self {
            controller,
            ram: vec![0u8; RAM_SIZE],
            ram_bank: 1,
            high_ram: vec![0u8; HIGH_RAM_SIZE],
            ppu: Ppu::new(cgb, boot_rom),
            io: IoHandler {
                apu: Apu::new(),
                serial: Vec::new(),
                serial_data: 0,
                serial_control: 0,
                serial_pending: false,
                prep_speed_switch: 0,
            },
            timer: Timer::new(),
            joypad: Joypad::new(),
            int_flags: 0,
            int_enable: 0,
            cgb,
        };
        assert(r@ =~= BusView::powered_on(controller@, cgb, boot_rom));
        r
    }

    /// A bus around a blank cartridge.
    pub fn new(cgb: bool) -> (r: Self)
        ensures
            r@ == BusView::powered_on(ControllerView::blank(), cgb, false),
            r.wf(),
    {
        Self::around(Controller::blank(), cgb, false)
    }

    /// A bus around a cartridge. An image without a header is refused.
    pub fn from_cartridge(cartridge: Cartridge) -> (r: Result<Self, Error>)
        ensures
            r is Ok <==> cartridge.has_header(),
            r matches Ok(bus) ==> bus.wf() && exists|now: u64|
                bus@ == BusView::powered_on(
                    #[trigger] ControllerView::inserted(cartridge, now),
                    cartridge.wants_color(),
                    cartridge.boot_rom,
                ),
            r matches Err(Error::InvalidValue(text)) ==> text@ == "Invalid ROM header"@,
    {
        let cgb = cartridge.cgb();
        let boot_rom = cartridge.boot_rom;
        match Controller::from_cartridge(cartridge) {
            Ok(controller) => Ok(Self::around(controller, cgb, boot_rom)),
            Err(e) => Err(e),
        }
    }

    /// Puts everything but the cartridge back to its state at power-on.
    pub fn reset(&mut self)
        requires
            old(self).wf(),
        ensures
            final(self)@ == old(self)@.reset_done(),
            final(self).wf(),
    {
        reveal(MemoryBus::contents);
        reveal(MemoryBus::wf);
        self.controller.rom.bank = 1;
        self.controller.enabled = false;
        self.controller.rtc_mapped = false;
        self.ram = vec![0u8; RAM_SIZE];
        self.ram_bank = 1;
        self.high_ram = vec![0u8; HIGH_RAM_SIZE];
        self.ppu = Ppu::new(self.cgb, false);
        self.io = IoHandler {
            apu: Apu::new(),
            serial: Vec::new(),
            serial_data: 0,
            serial_control: 0,
            serial_pending: false,
            prep_speed_switch: 0,
        };
        self.timer = Timer::new();
        self.joypad = Joypad::new();
        self.int_flags = 0;
        self.int_enable = 0;
        assert(self@ =~= old(self)@.reset_done());
    }

    fn read_port(&self, addr: u16) -> (r: u8)
        requires
            self.wf(),
        ensures
            r == self@.port(addr),
    {
        reveal(MemoryBus::contents);
        reveal(MemoryBus::wf);
        match addr {
            0xFF00 => self.joypad.read(),
            0xFF01 => self.io.serial_data,
            0xFF02 => self.io.serial_control,
            0xFF04..=0xFF07 => self.timer.read(addr),
            0xFF0F => self.int_flags,
            0xFF10..=0xFF3F => self.io.apu.read(addr),
            0xFF4D => self.io.prep_speed_switch,
            0xFF70 => self.ram_bank,
            _ => 0xFF,
        }
    }

    fn write_port(&mut self, addr: u16, value: u8)
        requires
            old(self).wf(),
        ensures
            final(self)@ == old(self)@.port_written(addr, value),
            final(self).wf(),
    {
        reveal(MemoryBus::contents);
        reveal(MemoryBus::wf);
        match addr {
            0xFF00 => self.joypad.write(value),
            0xFF01 => {
                self.io.serial_data = value;
            },
            0xFF02 => {
                self.io.serial_control = value;
                if value & 0x81 == 0x81 {
                    let byte = self.io.serial_data;
                    self.io.serial.push(byte);
                    self.io.serial_pending = true;
                }
            },
            0xFF04..=0xFF07 => self.timer.write(addr, value),
            0xFF0F => {
                self.int_flags = value;
            },
            0xFF10..=0xFF3F => self.io.apu.write(addr, value),
            0xFF4D => {
                let held: u8 = self.io.prep_speed_switch - self.io.prep_speed_switch % 2;
                self.io.prep_speed_switch = held + value % 2;
            },
            0xFF70 => {
                if self.cgb {
                    self.ram_bank = if value % 8 == 0 { 1 } else { value % 8 };
                }
            },
            _ => {},
        }
        assert(self@ =~= old(self)@.port_written(addr, value));
    }

    fn ram_place(&self, addr: u16) -> (r: usize)
        requires
            self.wf(),
            ram_addr(addr),
        ensures
            r == self@.ram_index(addr),
            r < RAM_SIZE,
    {
        reveal(MemoryBus::contents);
        reveal(MemoryBus::wf);
        let a: usize = if addr >= 0xE000 { addr as usize - 0x2000 } else { addr as usize };
        if a < 0xD000 {
            a - 0xC000
        } else {
            0x1000 * (self.ram_bank as usize) + (a - 0xD000)
        }
    }

    /// The picture unit answers at this address.
    fn is_ppu(addr: u16) -> (r: bool)
        ensures
            r == ppu_addr(addr),
    {
        match addr {
            0x8000..=0x9FFF | 0xFE00..=0xFE9F | 0xFF40..=0xFF4B | 0xFF4F | 0xFF68..=0xFF6C => true,
            _ => false,
        }
    }

    /// Reads a byte.
    pub fn read(&self, addr: u16) -> (r: u8)
        requires
            self.wf(),
        ensures
            r == self@.peek(addr),
    {
        reveal(MemoryBus::contents);
        reveal(MemoryBus::wf);
        reveal(BusView::peek);
        if addr < 0x8000 {
            self.controller.read_rom(addr)
        } else if Self::is_ppu(addr) {
            self.ppu.read(addr)
        } else if addr < 0xC000 {
            self.controller.read_ram(addr)
        } else if addr <= 0xFDFF {
            self.ram[self.ram_place(addr)]
        } else if addr == 0xFFFF {
            self.int_enable
        } else if addr >= 0xFF80 {
            self.high_ram[(addr - 0xFF80) as usize]
        } else if addr >= 0xFF00 {
            self.read_port(addr)
        } else {
            0xFF
        }
    }

    /// Writes a byte.
    pub fn write(&mut self, addr: u16, value: u8)
        requires
            old(self).wf(),
        ensures
            final(self)@ == old(self)@.poked(addr, value),
            final(self).wf(),
    {
        reveal(MemoryBus::contents);
        reveal(MemoryBus::wf);
        reveal(BusView::poked);
        if addr < 0x8000 {
            self.controller.write_rom(addr, value);
        } else if Self::is_ppu(addr) {
            self.ppu.write(addr, value);
        } else if addr < 0xC000 {
            self.controller.write_ram(addr, value);
        } else if addr <= 0xFDFF {
            let place = self.ram_place(addr);
            self.ram[place] = value;
        } else if addr == 0xFFFF {
            self.int_enable = value;
        } else if addr >= 0xFF80 {
            let place: usize = (addr - 0xFF80) as usize;
            self.high_ram[place] = value;
        } else if addr >= 0xFF00 {
            self.write_port(addr, value);
        }
        assert(self@ =~= old(self)@.poked(addr, value));
    }

    /// Writes a word, its low byte first.
    pub fn write_word(&mut self, addr: u16, value: u16)
        requires
            old(self).wf(),
        ensures
            final(self)@ == old(self)@.poked_word(addr, value),
            final(self).wf(),
    {
        self.write(addr, (value % 256) as u8);
        self.write(addr.wrapping_add(1), (value / 256) as u8);
    }

    /// Runs the picture unit, the timer, the serial port, the cartridge's clock and the
    /// sound unit for some cycles, at this time on the wall clock, and appends the
    /// interrupts that they raise.
    pub fn step_at(&mut self, cycles: u16, speed: bool, now: u64, interrupts: &mut Vec<Interrupt>)
        requires
            old(self).wf(),
        ensures
            final(self)@ == old(self)@.stepped(cycles, speed, now),
            final(interrupts)@ == old(interrupts)@ + old(self)@.raised(cycles, speed),
            final(self).wf(),
    {
        reveal(MemoryBus::contents);
        reveal(MemoryBus::wf);
        reveal(BusView::stepped);
        reveal(BusView::raised);
        proof {
            self@.ppu.law_step_keeps_sizes(cycles, speed);
        }
        self.ppu.step(cycles, speed, interrupts);
        if self.timer.step(cycles) {
            interrupts.push(Interrupt::Timer);
        }
        if self.io.serial_pending {
            self.io.serial_pending = false;
            self.io.serial_control = self.io.serial_control & 0x7F;
            interrupts.push(Interrupt::Serial);
        }
        self.controller.step_at(cycles, speed, now);
        self.io.apu.step(cycles as u64);
        assert(interrupts@ =~= old(interrupts)@ + old(self)@.raised(cycles, speed));
        assert(self@ =~= old(self)@.stepped(cycles, speed, now));
    }

    /// Runs the units for some cycles and appends the interrupts that they raise.
    pub fn step(&mut self, cycles: u16, speed: bool, interrupts: &mut Vec<Interrupt>)
        requires
            old(self).wf(),
        ensures
            exists|now: u64| final(self)@ == #[trigger] old(self)@.stepped(cycles, speed, now),
            final(interrupts)@ == old(interrupts)@ + old(self)@.raised(cycles, speed),
            final(self).wf(),
    {
        let now = crate::rtc::now_seconds();
        self.step_at(cycles, speed, now, interrupts);
    }

    /// Passes an event on to the joypad and says whether it presses a button.
    pub fn handle_joypad(&mut self, event: JoypadEvent) -> (r: bool)
        requires
            old(self).wf(),
        ensures
            final(self)@ == (BusView { joypad: old(self)@.joypad.after(event), ..old(self)@ }),
            r == old(self)@.joypad.pressed_by(event),
            final(self).wf(),
    {
        reveal(MemoryBus::contents);
        reveal(MemoryBus::wf);
        self.joypad.handle_event(&event)
    }

    /// Hands out a complete frame, once.
    pub fn take_frame(&mut self) -> (r: Option<&FrameBuffer>)
        requires
            old(self).wf(),
        ensures
            r is Some <==> old(self)@.ppu.frame_buffer.ready,
            r matches Some(frame) ==> frame@ == final(self)@.ppu.frame_buffer,
            final(self)@ == (BusView {
                ppu: PpuView {
                    frame_buffer: FrameView { ready: false, ..old(self)@.ppu.frame_buffer },
                    ..old(self)@.ppu
                },
                ..old(self)@
            }),
            final(self).wf(),
    {
        reveal(MemoryBus::contents);
        reveal(MemoryBus::wf);
        self.ppu.frame_buffer()
    }

    /// Puts in a ROM image.
    pub fn put_rom(&mut self, data: Vec<u8>)
        ensures
            final(self)@ == (BusView {
                controller: ControllerView { rom: data@, ..old(self)@.controller },
                ..old(self)@
            }),
            (old(self)@.wf() ==> old(self).wf()) ==> (final(self)@.wf() ==> final(self).wf()),
    {
        reveal(MemoryBus::contents);
        reveal(MemoryBus::wf);
        self.controller.load_rom(data);
    }

    /// Puts in the contents of the cartridge's RAM.
    pub fn put_ram(&mut self, data: &[u8]) -> (r: Result<(), Error>)
        requires
            old(self).wf(),
        ensures
            r is Ok <==> old(self)@.controller.accepts_ram(data@),
            r matches Err(Error::InvalidValue(text)) ==> text@ == "Invalid RAM size"@,
            final(self)@ == if r is Ok {
                BusView { controller: old(self)@.controller.ram_loaded(data@), ..old(self)@ }
            } else {
                old(self)@
            },
            final(self).wf(),
    {
        reveal(MemoryBus::contents);
        reveal(MemoryBus::wf);
        let r = self.controller.load_ram(data);
        assert(self@ =~= if r is Ok {
            BusView { controller: old(self)@.controller.ram_loaded(data@), ..old(self)@ }
        } else {
            old(self)@
        });
        r
    }

    /// Puts in the stored form of the cartridge's clock.
    pub fn put_rtc(&mut self, data: &[u8]) -> (r: Result<(), Error>)
        requires
            old(self).wf(),
        ensures
            r is Ok <==> old(self)@.controller.accepts_rtc(data@),
            r matches Err(Error::InvalidValue(text)) ==> text@ == "Invalid RTC state"@,
            r is Ok ==> exists|now: u64|
                final(self)@ == (BusView {
                    controller: #[trigger] old(self)@.controller.rtc_loaded(data@, now),
                    ..old(self)@
                }),
            r is Err ==> final(self)@ == old(self)@,
            final(self).wf(),
    {
        reveal(MemoryBus::contents);
        reveal(MemoryBus::wf);
        self.controller.load_rtc(data)
    }

    /// The contents of the cartridge's RAM, if it was written to since the last call.
    pub fn persist_ram(&mut self) -> (r: Option<&[u8]>)
        requires
            old(self).wf(),
        ensures
            r is Some <==> (old(self)@.controller.ram matches Some(ram) && ram.is_dirty),
            r matches Some(data) ==> data@ == old(self)@.controller.ram->0.data,
            final(self)@ == (BusView {
                controller: old(self)@.controller.ram_cleaned(),
                ..old(self)@
            }),
            final(self).wf(),
    {
        reveal(MemoryBus::contents);
        reveal(MemoryBus::wf);
        self.controller.persist_ram()
    }

    /// The stored form of the cartridge's clock.
    pub fn dump_rtc(&self) -> (r: Option<Vec<u8>>)
        ensures
            r is Some <==> self@.controller.rtc is Some,
            r matches Some(data) ==> data@ == self@.controller.rtc->0.encode(),
    {
        reveal(MemoryBus::contents);
        match &self.controller.rtc {
            Some(rtc) => Some(rtc.dump()),
            None => None,
        }
    }

    /// The audio records so far, which are then forgotten.
    pub fn drain_audio(&mut self) -> (r: Vec<AudioEvent>)
        requires
            old(self).wf(),
        ensures
            r@ == old(self)@.io.apu.buffer,
            final(self)@ == (BusView {
                io: IoView {
                    apu: ApuView { buffer: Seq::empty(), ..old(self)@.io.apu },
                    ..old(self)@.io
                },
                ..old(self)@
            }),
            final(self).wf(),
    {
        reveal(MemoryBus::contents);
        reveal(MemoryBus::wf);
        self.io.apu.drain_samples()
    }

    pub fn controller(&self) -> (r: &Controller)
        ensures
            *r == self.controller,
    {
        reveal(MemoryBus::contents);
        reveal(MemoryBus::wf);
        &self.controller
    }

    pub fn controller_mut(&mut self) -> (r: &mut Controller)
        ensures
            *r == old(self).controller,
            final(self).ppu == old(self).ppu,
            final(self).controller == *final(r),
            final(self)@ == (BusView { controller: final(r)@, ..old(self)@ }),
    {
        reveal(MemoryBus::contents);
        reveal(MemoryBus::wf);
        &mut self.controller
    }

    pub fn io(&self) -> (r: &IoHandler)
        ensures
            *r == self.io,
    {
        reveal(MemoryBus::contents);
        reveal(MemoryBus::wf);
        &self.io
    }

    pub fn io_mut(&mut self) -> (r: &mut IoHandler)
        ensures
            *r == old(self).io,
            final(self).ppu == old(self).ppu,
            final(self).io == *final(r),
            final(self)@ == (BusView { io: final(r)@, ..old(self)@ }),
    {
        reveal(MemoryBus::contents);
        reveal(MemoryBus::wf);
        &mut self.io
    }

    pub fn ppu(&self) -> (r: &Ppu)
        ensures
            *r == self.ppu,
    {
        reveal(MemoryBus::contents);
        reveal(MemoryBus::wf);
        &self.ppu
    }

    pub fn ppu_mut(&mut self) -> (r: &mut Ppu)
        ensures
            *r == old(self).ppu,
            final(self).ppu == *final(r),
            final(self)@ == (BusView { ppu: final(r)@, ..old(self)@ }),
    {
        reveal(MemoryBus::contents);
        reveal(MemoryBus::wf);
        &mut self.ppu
    }

    pub fn timer(&mut self) -> (r: &mut Timer)
        ensures
            *r == old(self).timer,
            final(self).ppu == old(self).ppu,
            final(self)@ == (BusView { timer: *final(r), ..old(self)@ }),
    {
        reveal(MemoryBus::contents);
        reveal(MemoryBus::wf);
        &mut self.timer
    }

    pub fn joypad(&mut self) -> (r: &mut Joypad)
        ensures
            *r == old(self).joypad,
            final(self).ppu == old(self).ppu,
            final(self)@ == (BusView { joypad: *final(r), ..old(self)@ }),
    {
        reveal(MemoryBus::contents);
        reveal(MemoryBus::wf);
        &mut self.joypad
    }
}

} // verus!
