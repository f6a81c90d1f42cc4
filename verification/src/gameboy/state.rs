//! Saved and persisted state of the machine.
use vstd::prelude::*;

use crate::apu::{ApuView, AudioEvent};
use crate::cartridge::{Cartridge, Controller, ControllerView};
use crate::codec::{found_at, le32, lemma_found_split, put_u32};
use crate::cpu::{Cpu, CpuView};
use crate::error::Error;
use crate::gameboy::{Gameboy, GameboyState};
use crate::memory::{BusView, IoView, MemoryBus};
use crate::registers::RegisterFile;

verus! {

/// `String::push` appends a character at the end of a string.
pub assume_specification[ String::push ](s: &mut String, c: char)
    ensures
        final(s)@ == old(s)@.push(c),
;

/// The first eight bytes of a saved machine: a mark and a version.
pub open spec fn state_header() -> Seq<u8> {
    seq![0x47u8, 0x42, 0x43, 0x53] + le32(1)
}

/// The bytes begin with the mark of a saved machine.
pub open spec fn has_state_header(data: Seq<u8>) -> bool {
    data.len() >= 8 && data[0] == 0x47 && data[1] == 0x42 && data[2] == 0x43 && data[3] == 0x53
}

impl CpuView {
    /// Some of the machine's state outlives a run.
    pub open spec fn persists(self) -> bool {
        self.bus.controller.ram is Some || self.bus.controller.rtc is Some
    }

    /// The machine with its RAM marked as persisted.
    pub open spec fn ram_persisted(self) -> CpuView {
        self.with_controller(self.bus.controller.ram_cleaned())
    }

    /// The machine with its audio records taken.
    pub open spec fn audio_drained(self) -> CpuView {
        CpuView {
            bus: BusView {
                io: IoView {
                    apu: ApuView { buffer: Seq::empty(), ..self.bus.io.apu },
                    ..self.bus.io
                },
                ..self.bus
            },
            ..self
        }
    }
}

impl Gameboy {
    /// Puts in another cartridge and starts the machine anew. An image without a header is
    /// refused, and the machine stays as it was.
    pub fn insert(&mut self, cartridge: Cartridge) -> (r: Result<(), Error>)
        ensures
            r is Ok <==> cartridge.has_header(),
            r is Ok ==> final(self).wf() && exists|now: u64|
                final(self)@ == #[trigger] CpuView::with_cartridge(cartridge, now),
            r matches Err(Error::InvalidValue(text)) ==> text@ == "Invalid ROM header"@,
            r is Err ==> *final(self) == *old(self),
            final(self).verbose == old(self).verbose,
    {
        match Cpu::from_cartridge(cartridge) {
            Ok(cpu) => {
                self.cpu = cpu;
                Ok(())
            },
            Err(e) => Err(e),
        }
    }

    /// Restores a machine from its saved form and a cartridge, whose image it takes. Bytes
    /// without the mark of a saved machine are refused. The machine is valid if what was
    /// saved is.
    pub fn load(save_data: &[u8], cartridge: Cartridge) -> (r: Result<Self, Error>)
        requires
            has_state_header(save_data@) ==> CpuView::stored_at(save_data@, 8),
        ensures
            r is Ok <==> has_state_header(save_data@),
            r matches Ok(gameboy) ==> {
                let saved = CpuView::decode(save_data@, 8);
                &&& gameboy@ == saved.with_controller(
                    ControllerView { rom: cartridge.data@, ..saved.bus.controller },
                )
                &&& gameboy@.bus.wf() ==> gameboy.wf()
                &&& !gameboy.verbose
            },
            r matches Err(Error::InvalidValue(text)) ==> text@ == "Invalid save data header"@,
    {
        if save_data.len() < 8 || save_data[0] != 0x47 || save_data[1] != 0x42 || save_data[2]
            != 0x43 || save_data[3] != 0x53 {
            return Err(Error::InvalidValue("Invalid save data header".to_string()));
        }
        let mut pos: usize = 8;
        match Cpu::load_from_bytes(save_data, &mut pos) {
            Ok(cpu) => {
                let mut cpu = cpu;
                cpu.memory.put_rom(cartridge.data);
                Ok(Self { cpu, verbose: false })
            },
            Err(e) => Err(e),
        }
    }

    /// The bytes hold a whole saved machine.
    pub fn is_complete(save_data: &[u8]) -> (r: bool)
        ensures
            r == (has_state_header(save_data@) && CpuView::stored_at(save_data@, 8)),
    {
        if save_data.len() < 8 || save_data[0] != 0x47 || save_data[1] != 0x42 || save_data[2]
            != 0x43 || save_data[3] != 0x53 {
            return false;
        }
        Cpu::is_stored(save_data, 8)
    }

    /// All memories have their size, and banks and registers name what exists.
    pub fn is_consistent(&self) -> (r: bool)
        ensures
            r == self@.bus.wf(),
    {
        self.cpu.memory.is_consistent()
    }

    /// The saved form of the machine.
    pub fn save(&self) -> (r: Result<Vec<u8>, Error>)
        ensures
            r matches Ok(data) && data@ == state_header() + self@.encode(),
    {
        let mut data: Vec<u8> = Vec::new();
        data.push(0x47);
        data.push(0x42);
        data.push(0x43);
        data.push(0x53);
        put_u32(&mut data, 1);
        assert(data@ =~= state_header());
        self.cpu.save_to_bytes(&mut data);
        Ok(data)
    }

    /// Starts the machine anew; the cartridge stays.
    pub fn reset(&mut self)
        requires
            old(self).wf(),
        ensures
            final(self)@ == CpuView::powered_on(
                RegisterFile::booted(old(self)@.cgb),
                old(self)@.bus.reset_done(),
                old(self)@.cgb,
            ),
            final(self).verbose == old(self).verbose,
            final(self).wf(),
    {
        self.cpu.reset();
    }

    pub fn cpu(&mut self) -> (r: &mut Cpu)
        ensures
            *r == old(self).cpu,
            final(self).cpu == *final(r),
            final(self).verbose == old(self).verbose,
    {
        &mut self.cpu
    }

    pub fn controller(&mut self) -> (r: &mut Controller)
        ensures
            *r == old(self).cpu.memory.controller,
            final(self)@ == old(self)@.with_controller(final(r)@),
            final(self).verbose == old(self).verbose,
    {
        self.cpu.memory.controller_mut()
    }

    /// Some of the machine's state outlives a run.
    pub fn is_persist_required(&self) -> (r: bool)
        ensures
            r == self@.persists(),
    {
        self.is_persist_ram() || self.is_persist_rtc()
    }

    /// The RAM of the cartridge outlives a run.
    pub fn is_persist_ram(&self) -> (r: bool)
        ensures
            r == (self@.bus.controller.ram is Some),
    {
        reveal(MemoryBus::contents);
        self.cpu.memory.controller().ram.is_some()
    }

    /// The clock of the cartridge outlives a run.
    pub fn is_persist_rtc(&self) -> (r: bool)
        ensures
            r == (self@.bus.controller.rtc is Some),
    {
        reveal(MemoryBus::contents);
        self.cpu.memory.controller().rtc.is_some()
    }

    /// The state that outlives a run. The RAM is part of it only if it was written to since
    /// the last call.
    pub fn persist(&mut self) -> (r: Option<GameboyState<'_>>)
        requires
            old(self).wf(),
        ensures
            r is Some <==> old(self)@.persists(),
            r matches Some(state) ==> {
                &&& state.ram is Some <==> (old(self)@.bus.controller.ram matches Some(ram)
                    && ram.is_dirty)
                &&& state.ram matches Some(data) ==> data@
                    == old(self)@.bus.controller.ram->0.data
                &&& state.rtc is Some <==> old(self)@.bus.controller.rtc is Some
                &&& state.rtc matches Some(data) ==> data@
                    == old(self)@.bus.controller.rtc->0.encode()
            },
            final(self)@ == old(self)@.ram_persisted(),
            final(self).verbose == old(self).verbose,
            final(self).wf(),
    {
        let required = self.is_persist_required();
        let rtc = self.cpu.memory.dump_rtc();
        let ram = self.cpu.memory.persist_ram();
        if required {
            Some(GameboyState { ram, rtc })
        } else {
            None
        }
    }

    /// Puts state that outlived a run back in. It stops at the first part that does not fit
    /// the cartridge.
    pub fn unpersist(&mut self, ram: Option<&[u8]>, rtc: Option<&[u8]>) -> (r: Result<(), Error>)
        requires
            old(self).wf(),
        ensures
            r is Ok <==> old(self)@.accepts_ram(ram) && old(self)@.accepts_rtc(rtc),
            r matches Err(Error::InvalidValue(text)) ==> text@ == if old(self)@.accepts_ram(ram) {
                "Invalid RTC state"@
            } else {
                "Invalid RAM size"@
            },
            !old(self)@.accepts_ram(ram) ==> final(self)@ == old(self)@,
            old(self)@.accepts_ram(ram) && r is Err ==> final(self)@ == old(self)@.ram_put(ram),
            r is Ok ==> exists|now: u64|
                final(self)@ == #[trigger] old(self)@.ram_put(ram).rtc_put(rtc, now),
            final(self).verbose == old(self).verbose,
            final(self).wf(),
    {
        match self.unpersist_ram(ram) {
            Ok(_) => self.unpersist_rtc(rtc),
            Err(e) => Err(e),
        }
    }

    fn unpersist_ram(&mut self, ram: Option<&[u8]>) -> (r: Result<(), Error>)
        requires
            old(self).wf(),
        ensures
            r is Ok <==> old(self)@.accepts_ram(ram),
            r matches Err(Error::InvalidValue(text)) ==> text@ == "Invalid RAM size"@,
            r is Ok ==> final(self)@ == old(self)@.ram_put(ram),
            r is Err ==> final(self)@ == old(self)@,
            final(self).verbose == old(self).verbose,
            final(self).wf(),
    {
        match ram {
            Some(data) => self.cpu.memory.put_ram(data),
            None => Ok(()),
        }
    }

    fn unpersist_rtc(&mut self, rtc: Option<&[u8]>) -> (r: Result<(), Error>)
        requires
            old(self).wf(),
        ensures
            r is Ok <==> old(self)@.accepts_rtc(rtc),
            r matches Err(Error::InvalidValue(text)) ==> text@ == "Invalid RTC state"@,
            r is Ok ==> exists|now: u64| final(self)@ == #[trigger] old(self)@.rtc_put(rtc, now),
            r is Err ==> final(self)@ == old(self)@,
            final(self).verbose == old(self).verbose,
            final(self).wf(),
    {
        match rtc {
            Some(data) => {
                let r = self.cpu.memory.put_rtc(data);
                proof {
                    if r is Ok {
                        let now = choose|now: u64|
                            self@.bus == (BusView {
                                controller: #[trigger] old(self)@.bus.controller.rtc_loaded(
                                    data@,
                                    now,
                                ),
                                ..old(self)@.bus
                            });
                        assert(self@ == old(self)@.rtc_put(rtc, now));
                    }
                }
                r
            },
            None => {
                assert(self@ == old(self)@.rtc_put(rtc, 0));
                Ok(())
            },
        }
    }

    /// The audio records so far, oldest first, which are then forgotten.
    pub fn drain_audio(&mut self) -> (r: Vec<AudioEvent>)
        requires
            old(self).wf(),
        ensures
            r@ == old(self)@.bus.io.apu.buffer,
            final(self)@ == old(self)@.audio_drained(),
            final(self).verbose == old(self).verbose,
            final(self).wf(),
    {
        self.cpu.memory.drain_audio()
    }

    /// All that was sent over the serial port so far, one character to a byte.
    pub fn serial_output(&self) -> (r: String)
        ensures
            r@ == self@.bus.io.serial.map_values(|b: u8| b as char),
    {
        reveal(MemoryBus::contents);
        let bytes = self.cpu.memory.io().serial_buffer();
        let ghost shown = bytes@.map_values(|b: u8| b as char);
        let mut text = String::new();
        let mut i: usize = 0;
        while i < bytes.len()
            invariant
                i <= bytes@.len(),
                shown == bytes@.map_values(|b: u8| b as char),
                text@ == shown.take(i as int),
            decreases bytes@.len() - i,
        {
            text.push(bytes[i] as char);
            i = i + 1;
            assert(text@ =~= shown.take(i as int));
        }
        assert(shown.take(i as int) =~= shown);
        text
    }
}

impl CpuView {
    /// The cartridge takes these contents of its RAM.
    pub open spec fn accepts_ram(self, ram: Option<&[u8]>) -> bool {
        ram matches Some(data) ==> self.bus.controller.accepts_ram(data@)
    }

    /// The cartridge takes this stored form of its clock.
    pub open spec fn accepts_rtc(self, rtc: Option<&[u8]>) -> bool {
        rtc matches Some(data) ==> self.bus.controller.accepts_rtc(data@)
    }

    /// The machine with the contents of its RAM put in.
    pub open spec fn ram_put(self, ram: Option<&[u8]>) -> CpuView {
        match ram {
            Some(data) => self.with_controller(self.bus.controller.ram_loaded(data@)),
            None => self,
        }
    }

    /// The machine with its clock put in, at this time on the wall clock.
    pub open spec fn rtc_put(self, rtc: Option<&[u8]>, now: u64) -> CpuView {
        match rtc {
            Some(data) => self.with_controller(self.bus.controller.rtc_loaded(data@, now)),
            None => self,
        }
    }
}

/// A machine that was saved is loaded unchanged, but for what the saved form leaves out: the
/// ROM, the sprites of the current line, the audio records and settings of the sound unit
/// that are not stored, and the text sent over the serial port.
pub proof fn law_load_restores_saved(machine: CpuView)
    requires
        machine.bus.wf(),
        machine.bus.storable(),
    ensures
        ({
            let data = state_header() + machine.encode();
            &&& has_state_header(data)
            &&& CpuView::stored_at(data, 8)
            &&& CpuView::decode(data, 8) == (CpuView {
                bus: machine.bus.persistent(),
                ..machine
            })
            &&& CpuView::decode(data, 8).bus.wf()
        }),
{
    let data = state_header() + machine.encode();
    assert(found_at(data, 0, state_header() + machine.encode()));
    lemma_found_split(data, 0, state_header(), machine.encode());
    let header = state_header();
    assert(data[0] == header[0]);
    assert(data[1] == header[1]);
    assert(data[2] == header[2]);
    assert(data[3] == header[3]);
    machine.law_load_restores_saved(data, 8);
}

} // verus!
