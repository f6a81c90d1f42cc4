//! The stored form of the bus.
use vstd::prelude::*;

use crate::apu::{Apu, ApuView};
use crate::cartridge::{Controller, ControllerView};
use crate::codec::{
    flag_at, flag_byte, found_at, lemma_found_is_subrange, lemma_found_split, put_bytes, put_flag,
    take_bytes, take_flag, take_u8,
};
use crate::error::Error;
use crate::joypad::Joypad;
use crate::memory::{BusView, IoHandler, IoView, MemoryBus, HIGH_RAM_SIZE, RAM_SIZE};
use crate::ppu::{Ppu, PpuView};
use crate::timer::Timer;

verus! {

impl BusView {
    /// The ports and switches in their stored order.
    #[verifier::opaque]
    pub open spec fn encode_ports(self) -> Seq<u8> {
        seq![
            self.ram_bank,
            self.int_flags,
            self.int_enable,
            self.io.serial_data,
            self.io.serial_control,
            flag_byte(self.io.serial_pending),
            self.io.prep_speed_switch,
            flag_byte(self.cgb),
        ]
    }

    /// The stored form of all but the cartridge and the picture unit.
    #[verifier::opaque]
    pub open spec fn encode_rest(self) -> Seq<u8> {
        self.io.apu.encode() + self.timer.encode() + self.joypad.encode() + self.ram + self.high_ram
            + self.encode_ports()
    }

    /// The stored form. The ROM and the bytes sent over the serial port are no part of it.
    #[verifier::opaque]
    pub open spec fn encode(self) -> Seq<u8> {
        self.controller.encode() + self.ppu.encode() + self.encode_rest()
    }

    /// Bytes of the bus that is stored at `i`.
    #[verifier::opaque]
    pub open spec fn stored_len(s: Seq<u8>, i: int) -> int {
        let p = i + ControllerView::stored_len(s, i);
        ControllerView::stored_len(s, i) + PpuView::stored_len(s, p) + 33054
    }

    /// A whole bus is stored at `i`.
    #[verifier::opaque]
    pub open spec fn stored_at(s: Seq<u8>, i: int) -> bool {
        let p = i + ControllerView::stored_len(s, i);
        &&& ControllerView::stored_at(s, i)
        &&& PpuView::stored_at(s, p)
        &&& p + PpuView::stored_len(s, p) + 33054 <= s.len()
    }

    /// What is stored at `i`.
    #[verifier::opaque]
    pub open spec fn decode(s: Seq<u8>, i: int) -> BusView {
        let p = i + ControllerView::stored_len(s, i);
        let q = p + PpuView::stored_len(s, p);
        let r = q + 33046;
        BusView {
            controller: ControllerView::decode(s, i),
            ppu: PpuView::decode(s, p),
            timer: Timer::decode(s, q + 141),
            joypad: Joypad::decode(s, q + 148),
            ram: s.subrange(q + 151, q + 32919),
            high_ram: s.subrange(q + 32919, q + 33046),
            ram_bank: s[r],
            int_flags: s[r + 1],
            int_enable: s[r + 2],
            io: IoView {
                apu: ApuView::decode(s, q),
                serial: Seq::empty(),
                serial_data: s[r + 3],
                serial_control: s[r + 4],
                serial_pending: flag_at(s, r + 5),
                prep_speed_switch: s[r + 6],
            },
            cgb: flag_at(s, r + 7),
        }
    }

    /// This bus without what the stored form leaves out.
    pub open spec fn persistent(self) -> BusView {
        BusView {
            controller: ControllerView { rom: Seq::empty(), ..self.controller },
            ppu: PpuView { sprites: Seq::empty(), ..self.ppu },
            io: IoView { apu: self.io.apu.persistent(), serial: Seq::empty(), ..self.io },
            ..self
        }
    }

    /// The RAM of the cartridge has a length that the stored form can hold.
    pub open spec fn storable(self) -> bool {
        self.controller.ram matches Some(ram) ==> ram.data.len() <= u32::MAX
    }

    proof fn lemma_ports_found(self, s: Seq<u8>, r: int)
        requires
            found_at(s, r, self.encode_ports()),
        ensures
            self.encode_ports().len() == 8,
            s[r] == self.ram_bank,
            s[r + 1] == self.int_flags,
            s[r + 2] == self.int_enable,
            s[r + 3] == self.io.serial_data,
            s[r + 4] == self.io.serial_control,
            flag_at(s, r + 5) == self.io.serial_pending,
            s[r + 6] == self.io.prep_speed_switch,
            flag_at(s, r + 7) == self.cgb,
    {
        reveal(BusView::encode_ports);
        let e = self.encode_ports();
        assert(s[r + 0] == e[0]);
        assert(s[r + 1] == e[1]);
        assert(s[r + 2] == e[2]);
        assert(s[r + 3] == e[3]);
        assert(s[r + 4] == e[4]);
        assert(s[r + 5] == e[5]);
        assert(s[r + 6] == e[6]);
        assert(s[r + 7] == e[7]);
    }

    proof fn lemma_rest_found(self, s: Seq<u8>, q: int)
        requires
            self.wf(),
            found_at(s, q, self.encode_rest()),
        ensures
            self.encode_rest().len() == 33054,
            ApuView::decode(s, q) == self.io.apu.persistent(),
            Timer::decode(s, q + 141) == self.timer,
            Joypad::decode(s, q + 148) == self.joypad,
            s.subrange(q + 151, q + 32919) == self.ram,
            s.subrange(q + 32919, q + 33046) == self.high_ram,
            found_at(s, q + 33046, self.encode_ports()),
    {
        reveal(BusView::encode_rest);
        let e1 = self.io.apu.encode();
        let e2 = e1 + self.timer.encode();
        let e3 = e2 + self.joypad.encode();
        let e4 = e3 + self.ram;
        let e5 = e4 + self.high_ram;
        lemma_found_split(s, q, e5, self.encode_ports());
        lemma_found_split(s, q, e4, self.high_ram);
        lemma_found_split(s, q, e3, self.ram);
        lemma_found_split(s, q, e2, self.joypad.encode());
        lemma_found_split(s, q, e1, self.timer.encode());
        self.io.apu.law_load_restores_saved(s, q);
        self.timer.law_load_restores_saved(s, q + 141);
        let pad = self.joypad.encode();
        assert(s[q + 148 + 0] == pad[0]);
        assert(s[q + 148 + 1] == pad[1]);
        assert(s[q + 148 + 2] == pad[2]);
        lemma_found_is_subrange(s, q + 151, self.ram);
        lemma_found_is_subrange(s, q + 32919, self.high_ram);
        self.lemma_ports_found(s, q + 33046);
    }

    /// A bus that was saved is loaded unchanged, but for what the stored form leaves out.
    pub proof fn law_load_restores_saved(self, s: Seq<u8>, i: int)
        requires
            self.wf(),
            self.storable(),
            found_at(s, i, self.encode()),
        ensures
            Self::stored_at(s, i),
            Self::stored_len(s, i) == self.encode().len(),
            Self::decode(s, i) == self.persistent(),
    {
        reveal(BusView::encode);
        reveal(BusView::stored_len);
        reveal(BusView::stored_at);
        reveal(BusView::decode);
        let c = self.controller.encode();
        let p = self.ppu.encode();
        lemma_found_split(s, i, c + p, self.encode_rest());
        lemma_found_split(s, i, c, p);
        self.controller.law_load_restores_saved(s, i);
        self.ppu.law_load_restores_saved(s, i + c.len());
        let q = i + c.len() + p.len();
        self.lemma_rest_found(s, q);
        self.lemma_ports_found(s, q + 33046);
        assert(Self::decode(s, i) =~= self.persistent());
    }
}

impl MemoryBus {
    fn save_ports(&self, buf: &mut Vec<u8>)
        ensures
            final(buf)@ == old(buf)@ + self@.encode_ports(),
    {
        reveal(MemoryBus::contents);
        reveal(BusView::encode_ports);
        buf.push(self.ram_bank);
        buf.push(self.int_flags);
        buf.push(self.int_enable);
        buf.push(self.io.serial_data);
        buf.push(self.io.serial_control);
        put_flag(buf, self.io.serial_pending);
        buf.push(self.io.prep_speed_switch);
        put_flag(buf, self.cgb);
        assert(buf@ =~= old(buf)@ + self@.encode_ports());
    }

    fn save_rest(&self, buf: &mut Vec<u8>)
        ensures
            final(buf)@ == old(buf)@ + self@.encode_rest(),
    {
        reveal(MemoryBus::contents);
        reveal(BusView::encode_rest);
        self.io.apu.save_to_bytes(buf);
        self.timer.save_to_bytes(buf);
        buf.push(self.joypad.select);
        buf.push(self.joypad.buttons);
        buf.push(self.joypad.directions);
        put_bytes(buf, self.ram.as_slice());
        put_bytes(buf, self.high_ram.as_slice());
        self.save_ports(buf);
        assert(buf@ =~= old(buf)@ + self@.encode_rest());
    }

    /// Appends the stored form.
    pub fn save_to_bytes(&self, buf: &mut Vec<u8>)
        ensures
            final(buf)@ == old(buf)@ + self@.encode(),
    {
        reveal(MemoryBus::contents);
        reveal(BusView::encode);
        self.controller.save_to_bytes(buf);
        self.ppu.save_to_bytes(buf);
        self.save_rest(buf);
        assert(buf@ =~= old(buf)@ + self@.encode());
    }

    /// Restores a bus that is stored at the cursor. It is valid if what is stored is.
    pub fn load_from_bytes(data: &[u8], pos: &mut usize) -> (r: Result<Self, Error>)
        requires
            BusView::stored_at(data@, *old(pos) as int),
        ensures
            r matches Ok(bus) && bus@ == BusView::decode(data@, *old(pos) as int) && (bus@.wf()
                ==> bus.wf()),
            *final(pos) == *old(pos) + BusView::stored_len(data@, *old(pos) as int),
    {
        reveal(MemoryBus::contents);
        reveal(MemoryBus::wf);
        reveal(BusView::stored_len);
        reveal(BusView::stored_at);
        reveal(BusView::decode);
        let controller = match Controller::load_from_bytes(data, pos) {
            Ok(controller) => controller,
            Err(e) => {
                return Err(e);
            },
        };
        let ppu = match Ppu::load_from_bytes(data, pos) {
            Ok(ppu) => ppu,
            Err(e) => {
                return Err(e);
            },
        };
        let apu = match Apu::load_from_bytes(data, pos) {
            Ok(apu) => apu,
            Err(e) => {
                return Err(e);
            },
        };
        let timer = Timer::load_from_bytes(data, pos);
        let select = take_u8(data, pos);
        let buttons = take_u8(data, pos);
        let directions = take_u8(data, pos);
        let ram = take_bytes(data, pos, RAM_SIZE);
        let high_ram = take_bytes(data, pos, HIGH_RAM_SIZE);
        let ram_bank = take_u8(data, pos);
        let int_flags = take_u8(data, pos);
        let int_enable = take_u8(data, pos);
        let serial_data = take_u8(data, pos);
        let serial_control = take_u8(data, pos);
        let serial_pending = take_flag(data, pos);
        let prep_speed_switch = take_u8(data, pos);
        let cgb = take_flag(data, pos);
        let bus = Self {
            controller,
            ram,
            ram_bank,
            high_ram,
            ppu,
            io: IoHandler {
                apu,
                serial: Vec::new(),
                serial_data,
                serial_control,
                serial_pending,
                prep_speed_switch,
            },
            timer,
            joypad: Joypad { select, buttons, directions },
            int_flags,
            int_enable,
            cgb,
        };
        assert(bus@ =~= BusView::decode(data@, *old(pos) as int));
        Ok(bus)
    }

    /// The end of the bus that is stored at `pos`, if a whole one is.
    pub fn stored_end(data: &[u8], pos: usize) -> (r: Option<usize>)
        ensures
            r is Some <==> BusView::stored_at(data@, pos as int),
            r matches Some(end) ==> end == pos + BusView::stored_len(data@, pos as int) && end
                <= data@.len(),
    {
        reveal(BusView::stored_at);
        reveal(BusView::stored_len);
        let total: usize = data.len();
        match Controller::stored_end(data, pos) {
            Some(p) => match Ppu::stored_end(data, p) {
                Some(q) => if total - q < 33054 {
                    None
                } else {
                    Some(q + 33054)
                },
                None => None,
            },
            None => None,
        }
    }

    /// All memories have their size, and banks and registers name what exists.
    pub fn is_consistent(&self) -> (r: bool)
        ensures
            r == self@.wf(),
    {
        reveal(MemoryBus::contents);
        self.controller.is_consistent() && self.ram.len() == RAM_SIZE && 1 <= self.ram_bank
            && self.ram_bank <= 7 && self.high_ram.len() == HIGH_RAM_SIZE
            && self.ppu.is_consistent() && self.io.apu.is_consistent()
    }
}

} // verus!
