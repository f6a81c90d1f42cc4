//! Cartridges: ROM, battery-backed RAM and the clock.
use vstd::prelude::*;

use crate::codec::{
    flag_at, flag_byte, found_at, le16, le32, lemma_found_is_subrange, lemma_found_split,
    lemma_u16_found, lemma_u32_found, put_bytes, put_flag, put_u16, put_u32, take_bytes, take_flag,
    take_u16, take_u32, take_u8, u16_at, u32_at,
};
use crate::error::Error;
use crate::rtc::{Rtc, RtcState};

verus! {

pub const ROM_BANK_SIZE: usize = 0x4000;

pub const RAM_BANK_SIZE: usize = 0x2000;

/// Bytes up to the end of a cartridge's header.
pub const HEADER_END: usize = 0x150;

/// Place of the title in the header, and of the byte behind it.
pub const TITLE_START: usize = 0x134;

pub const TITLE_END: usize = 0x143;

/// An image of a cartridge.
pub struct Cartridge {
    pub data: Vec<u8>,
    /// The machine starts with its boot program.
    pub boot_rom: bool,
}

impl Cartridge {
    /// The image has a whole header.
    pub open spec fn has_header(&self) -> bool {
        self.data@.len() >= HEADER_END
    }

    /// The header asks for a color machine.
    pub open spec fn wants_color(&self) -> bool {
        self.data@.len() > 0x143 && self.data@[0x143] >= 0x80
    }

    /// Bytes of battery-backed RAM that the header asks for.
    pub open spec fn ram_bytes(&self) -> int {
        let code = self.data@[0x149];
        if code == 2 {
            0x2000
        } else if code == 3 {
            0x8000
        } else if code == 4 {
            0x20000
        } else if code == 5 {
            0x10000
        } else {
            0
        }
    }

    /// The header asks for a clock.
    pub open spec fn wants_clock(&self) -> bool {
        self.data@[0x147] == 0x0F || self.data@[0x147] == 0x10
    }

    pub fn from_bytes(data: Vec<u8>, boot_rom: bool) -> (r: Self)
        ensures
            r.data@ == data@,
            r.boot_rom == boot_rom,
    {
        Self { data, boot_rom }
    }

    /// Place of the first zero byte of the title from `n` on, or of its end.
    pub open spec fn title_end(&self, n: int) -> int
        decreases TITLE_END - n,
    {
        if n >= TITLE_END || self.data@[n] == 0 {
            n
        } else {
            self.title_end(n + 1)
        }
    }

    /// The title in the header, up to the first zero byte.
    pub open spec fn title_bytes(&self) -> Seq<u8> {
        self.data@.subrange(TITLE_START as int, self.title_end(TITLE_START as int))
    }

    /// The title in the header. There is none without a header, or if a byte of it is no
    /// letter of plain text.
    pub fn title(&self) -> (r: Option<String>)
        ensures
            r is Some <==> self.has_header() && forall|i: int|
                0 <= i < self.title_bytes().len() ==> #[trigger] self.title_bytes()[i] < 0x80,
            r matches Some(text) ==> text@ == self.title_bytes().map_values(|b: u8| b as char),
    {
        if self.data.len() < HEADER_END {
            return None;
        }
        let mut text = String::new();
        let mut n: usize = TITLE_START;
        let ghost end = self.title_end(TITLE_START as int);
        let ghost shown = |b: u8| b as char;
        while n < TITLE_END && self.data[n] != 0
            invariant
                TITLE_START <= n <= TITLE_END,
                self.has_header(),
                end == self.title_end(TITLE_START as int),
                end == self.title_end(n as int),
                shown == |b: u8| b as char,
                text@ == self.data@.subrange(TITLE_START as int, n as int).map_values(shown),
                forall|k: int| TITLE_START <= k < n ==> #[trigger] self.data@[k] < 0x80,
            decreases TITLE_END - n,
        {
            proof {
                self.lemma_title_end(n as int);
                self.lemma_title_end(n + 1);
            }
            let byte = self.data[n];
            if byte >= 0x80 {
                assert(self.title_bytes()[n - TITLE_START] >= 0x80);
                return None;
            }
            text.push(byte as char);
            n = n + 1;
            assert(text@ =~= self.data@.subrange(TITLE_START as int, n as int).map_values(shown));
        }
        assert(end == n);
        Some(text)
    }

    proof fn lemma_title_end(&self, n: int)
        requires
            n <= TITLE_END,
        ensures
            n <= self.title_end(n) <= TITLE_END,
        decreases TITLE_END - n,
    {
        if n < TITLE_END && self.data@[n] != 0 {
            self.lemma_title_end(n + 1);
        }
    }

    /// The header asks for a color machine.
    pub fn cgb(&self) -> (r: bool)
        ensures
            r == self.wants_color(),
    {
        self.data.len() > 0x143 && self.data[0x143] >= 0x80
    }

    /// Bytes of battery-backed RAM that the header asks for.
    fn ram_size(&self) -> (r: usize)
        requires
            self.has_header(),
        ensures
            r == self.ram_bytes(),
    {
        let code = self.data[0x149];
        if code == 2 {
            0x2000
        } else if code == 3 {
            0x8000
        } else if code == 4 {
            0x20000
        } else if code == 5 {
            0x10000
        } else {
            0
        }
    }
}

/// ROM and the bank of it that can be switched.
pub struct Rom {
    pub data: Vec<u8>,
    pub bank: u16,
}

impl Rom {
    /// Changes a byte of the image.
    pub fn write(&mut self, addr: usize, value: u8)
        requires
            addr < old(self).data@.len(),
        ensures
            final(self).data@ == old(self).data@.update(addr as int, value),
            final(self).bank == old(self).bank,
    {
        self.data[addr] = value;
    }
}

/// Battery-backed RAM.
pub struct Ram {
    pub data: Vec<u8>,
    pub bank: u8,
    /// Written to since it was last persisted.
    pub is_dirty: bool,
}

impl Ram {
    pub fn data(&self) -> (r: &[u8])
        ensures
            r@ == self.data@,
    {
        self.data.as_slice()
    }
}

/// What a battery-backed RAM holds.
#[verifier::ext_equal]
pub struct RamView {
    pub data: Seq<u8>,
    pub bank: u8,
    pub is_dirty: bool,
}

impl View for Ram {
    type V = RamView;

    open spec fn view(&self) -> RamView {
        RamView { data: self.data@, bank: self.bank, is_dirty: self.is_dirty }
    }
}

/// The inserted cartridge and the state of its bank switches.
pub struct Controller {
    pub rom: Rom,
    pub ram: Option<Ram>,
    pub rtc: Option<Rtc>,
    /// RAM and clock can be reached.
    pub enabled: bool,
    /// A clock register stands in the place of the RAM.
    pub rtc_mapped: bool,
}

/// What a controller holds.
#[verifier::ext_equal]
pub struct ControllerView {
    pub rom: Seq<u8>,
    pub rom_bank: u16,
    pub ram: Option<RamView>,
    pub rtc: Option<RtcState>,
    pub enabled: bool,
    pub rtc_mapped: bool,
}

/// The view of an optional RAM.
pub open spec fn ram_view(ram: Option<Ram>) -> Option<RamView> {
    match ram {
        Some(ram) => Some(ram@),
        None => None,
    }
}

/// The state of an optional clock.
pub open spec fn rtc_view(rtc: Option<Rtc>) -> Option<RtcState> {
    match rtc {
        Some(rtc) => Some(rtc.state),
        None => None,
    }
}

impl View for Controller {
    type V = ControllerView;

    open spec fn view(&self) -> ControllerView {
        ControllerView {
            rom: self.rom.data@,
            rom_bank: self.rom.bank,
            ram: ram_view(self.ram),
            rtc: rtc_view(self.rtc),
            enabled: self.enabled,
            rtc_mapped: self.rtc_mapped,
        }
    }
}

impl ControllerView {
    /// A mapped clock is there and has a register selected.
    pub open spec fn wf(self) -> bool {
        self.rtc_mapped ==> (self.rtc matches Some(rtc) && rtc.register_selected())
    }

    /// A cartridge of two empty ROM banks and nothing else.
    pub open spec fn blank() -> ControllerView {
        ControllerView {
            rom: Seq::new(0x8000, |i: int| 0u8),
            rom_bank: 1,
            ram: None,
            rtc: None,
            enabled: false,
            rtc_mapped: false,
        }
    }

    /// A cartridge as it is inserted, at this time.
    pub open spec fn inserted(cartridge: Cartridge, now: u64) -> ControllerView {
        ControllerView {
            rom: cartridge.data@,
            rom_bank: 1,
            ram: if cartridge.ram_bytes() > 0 {
                Some(
                    RamView {
                        data: Seq::new(cartridge.ram_bytes() as nat, |i: int| 0u8),
                        bank: 0,
                        is_dirty: false,
                    },
                )
            } else {
                None
            },
            rtc: if cartridge.wants_clock() { Some(RtcState::fresh(now)) } else { None },
            enabled: false,
            rtc_mapped: false,
        }
    }

    /// Place of an address in the ROM image.
    pub open spec fn rom_index(self, addr: u16) -> int {
        if addr < 0x4000 {
            addr as int
        } else {
            ROM_BANK_SIZE * self.rom_bank + (addr - 0x4000)
        }
    }

    /// The byte at an address below 0x8000; there is none behind the end of the image.
    pub open spec fn rom_byte(self, addr: u16) -> u8 {
        if self.rom_index(addr) < self.rom.len() {
            self.rom[self.rom_index(addr)]
        } else {
            0xFF
        }
    }

    /// The byte at an address from 0xA000 to 0xBFFF: of the clock, or of the RAM.
    pub open spec fn ram_byte(self, addr: u16) -> u8 {
        if !self.enabled {
            0xFF
        } else if self.rtc_mapped {
            self.rtc->0.register()
        } else {
            match self.ram {
                Some(ram) => {
                    let at = RAM_BANK_SIZE * ram.bank + (addr - 0xA000);
                    if at < ram.data.len() {
                        ram.data[at]
                    } else {
                        0xFF
                    }
                },
                None => 0xFF,
            }
        }
    }

    /// The controller after a write to an address from 0xA000 to 0xBFFF.
    pub open spec fn ram_written(self, addr: u16, value: u8) -> ControllerView {
        if !self.enabled {
            self
        } else if self.rtc_mapped {
            ControllerView { rtc: Some(self.rtc->0.written(value)), ..self }
        } else {
            match self.ram {
                Some(ram) => {
                    let at = RAM_BANK_SIZE * ram.bank + (addr - 0xA000);
                    if at < ram.data.len() {
                        ControllerView {
                            ram: Some(
                                RamView {
                                    data: ram.data.update(at, value),
                                    is_dirty: true,
                                    ..ram
                                },
                            ),
                            ..self
                        }
                    } else {
                        self
                    }
                },
                None => self,
            }
        }
    }

    /// A write to the bank switch of the RAM: it selects a bank, or a clock register.
    pub open spec fn switched(self, value: u8) -> ControllerView {
        if self.rtc is Some && 0x08 <= value <= 0x0C {
            ControllerView {
                rtc: Some(RtcState { selected: value, ..self.rtc->0 }),
                rtc_mapped: true,
                ..self
            }
        } else {
            ControllerView {
                ram: match self.ram {
                    Some(ram) => Some(RamView { bank: value % 16, ..ram }),
                    None => None,
                },
                rtc_mapped: false,
                ..self
            }
        }
    }

    /// The controller after a write to an address below 0x8000.
    pub open spec fn rom_written(self, addr: u16, value: u8) -> ControllerView {
        if addr < 0x2000 {
            ControllerView { enabled: value % 16 == 0x0A, ..self }
        } else if addr < 0x4000 {
            ControllerView { rom_bank: if value == 0 { 1 } else { value as u16 }, ..self }
        } else if addr < 0x6000 {
            self.switched(value)
        } else {
            ControllerView {
                rtc: match self.rtc {
                    Some(rtc) => Some(rtc.latched_with(value)),
                    None => None,
                },
                ..self
            }
        }
    }

    /// The controller after some cycles, at this time on the wall clock.
    pub open spec fn stepped(self, cycles: u16, speed: bool, now: u64) -> ControllerView {
        ControllerView {
            rtc: match self.rtc {
                Some(rtc) => Some(rtc.stepped(cycles, speed, now)),
                None => None,
            },
            ..self
        }
    }

    /// The controller with its RAM marked as persisted.
    pub open spec fn ram_cleaned(self) -> ControllerView {
        ControllerView {
            ram: match self.ram {
                Some(ram) => Some(RamView { is_dirty: false, ..ram }),
                None => None,
            },
            ..self
        }
    }

    /// Contents of this size fit the RAM, or there is none.
    pub open spec fn accepts_ram(self, data: Seq<u8>) -> bool {
        self.ram matches Some(ram) ==> ram.data.len() == data.len()
    }

    /// The controller with the contents of its RAM put in.
    pub open spec fn ram_loaded(self, data: Seq<u8>) -> ControllerView {
        match self.ram {
            Some(ram) => ControllerView { ram: Some(RamView { data, ..ram }), ..self },
            None => self,
        }
    }

    /// The bytes hold the stored form of a clock, or there is none.
    pub open spec fn accepts_rtc(self, data: Seq<u8>) -> bool {
        self.rtc is Some ==> data.len() >= RtcState::spec_len()
    }

    /// The controller with its clock put in, at this time on the wall clock.
    pub open spec fn rtc_loaded(self, data: Seq<u8>, now: u64) -> ControllerView {
        match self.rtc {
            Some(_) => ControllerView {
                rtc: Some(RtcState::decode(data, 0).advanced(now)),
                rtc_mapped: false,
                ..self
            },
            None => self,
        }
    }

    /// The stored form of the RAM.
    pub open spec fn encode_ram(self) -> Seq<u8> {
        match self.ram {
            Some(ram) => seq![1u8] + le32(ram.data.len() as u32) + ram.data + seq![
                ram.bank,
                flag_byte(ram.is_dirty),
            ],
            None => seq![0u8],
        }
    }

    /// The stored form of the clock.
    pub open spec fn encode_rtc(self) -> Seq<u8> {
        match self.rtc {
            Some(rtc) => seq![1u8] + rtc.encode(),
            None => seq![0u8],
        }
    }

    /// The stored form. The ROM is no part of it.
    #[verifier::opaque]
    pub open spec fn encode(self) -> Seq<u8> {
        le16(self.rom_bank) + seq![flag_byte(self.enabled), flag_byte(self.rtc_mapped)]
            + self.encode_ram() + self.encode_rtc()
    }

    /// Bytes of the RAM that is stored at `i`.
    pub open spec fn ram_len(s: Seq<u8>, i: int) -> int {
        if flag_at(s, i) {
            7 + u32_at(s, i + 1)
        } else {
            1
        }
    }

    /// Bytes of the clock that is stored at `i`.
    pub open spec fn rtc_len(s: Seq<u8>, i: int) -> int {
        if flag_at(s, i) {
            1 + RtcState::spec_len()
        } else {
            1
        }
    }

    /// Bytes of the controller that is stored at `i`.
    #[verifier::opaque]
    pub open spec fn stored_len(s: Seq<u8>, i: int) -> int {
        4 + Self::ram_len(s, i + 4) + Self::rtc_len(s, i + 4 + Self::ram_len(s, i + 4))
    }

    /// A whole controller is stored at `i`.
    #[verifier::opaque]
    pub open spec fn stored_at(s: Seq<u8>, i: int) -> bool {
        let j = i + 4 + Self::ram_len(s, i + 4);
        &&& 0 <= i
        &&& i + 5 <= s.len()
        &&& flag_at(s, i + 4) ==> i + 9 <= s.len()
        &&& j < s.len()
        &&& j + Self::rtc_len(s, j) <= s.len()
    }

    /// The RAM that is stored at `i`.
    pub open spec fn decode_ram(s: Seq<u8>, i: int) -> Option<RamView> {
        if flag_at(s, i) {
            let n = u32_at(s, i + 1);
            Some(
                RamView {
                    data: s.subrange(i + 5, i + 5 + n),
                    bank: s[i + 5 + n],
                    is_dirty: flag_at(s, i + 6 + n),
                },
            )
        } else {
            None
        }
    }

    /// The clock that is stored at `i`.
    pub open spec fn decode_rtc(s: Seq<u8>, i: int) -> Option<RtcState> {
        if flag_at(s, i) {
            Some(RtcState::decode(s, i + 1))
        } else {
            None
        }
    }

    /// What is stored at `i`, with an empty ROM.
    #[verifier::opaque]
    pub open spec fn decode(s: Seq<u8>, i: int) -> ControllerView {
        ControllerView {
            rom: Seq::empty(),
            rom_bank: u16_at(s, i),
            enabled: flag_at(s, i + 2),
            rtc_mapped: flag_at(s, i + 3),
            ram: Self::decode_ram(s, i + 4),
            rtc: Self::decode_rtc(s, i + 4 + Self::ram_len(s, i + 4)),
        }
    }

    /// A controller that was saved is loaded unchanged, but for its ROM.
    pub proof fn law_load_restores_saved(self, s: Seq<u8>, i: int)
        requires
            self.ram matches Some(ram) ==> ram.data.len() <= u32::MAX,
            found_at(s, i, self.encode()),
        ensures
            Self::stored_at(s, i),
            Self::stored_len(s, i) == self.encode().len(),
            Self::decode(s, i) == (ControllerView { rom: Seq::empty(), ..self }),
    {
        reveal(ControllerView::encode);
        reveal(ControllerView::stored_at);
        reveal(ControllerView::stored_len);
        reveal(ControllerView::decode);
        let flags = seq![flag_byte(self.enabled), flag_byte(self.rtc_mapped)];
        let head = le16(self.rom_bank) + flags;
        lemma_found_split(s, i, head + self.encode_ram(), self.encode_rtc());
        lemma_found_split(s, i, head, self.encode_ram());
        lemma_found_split(s, i, le16(self.rom_bank), flags);
        lemma_u16_found(s, i, self.rom_bank);
        assert(s[i + 2 + 0] == flags[0]);
        assert(s[i + 2 + 1] == flags[1]);
        self.lemma_ram_found(s, i + 4);
        self.lemma_rtc_found(s, i + 4 + self.encode_ram().len());
    }

    proof fn lemma_ram_found(self, s: Seq<u8>, i: int)
        requires
            self.ram matches Some(ram) ==> ram.data.len() <= u32::MAX,
            found_at(s, i, self.encode_ram()),
        ensures
            self.encode_ram().len() >= 1,
            flag_at(s, i) ==> self.encode_ram().len() >= 5,
            Self::ram_len(s, i) == self.encode_ram().len(),
            Self::decode_ram(s, i) == self.ram,
    {
        match self.ram {
            Some(ram) => {
                let one = seq![1u8];
                let count = le32(ram.data.len() as u32);
                let tail = seq![ram.bank, flag_byte(ram.is_dirty)];
                lemma_found_split(s, i, one + count + ram.data, tail);
                lemma_found_split(s, i, one + count, ram.data);
                lemma_found_split(s, i, one, count);
                assert(s[i + 0] == one[0]);
                lemma_u32_found(s, i + 1, ram.data.len() as u32);
                lemma_found_is_subrange(s, i + 5, ram.data);
                let t = i + 5 + ram.data.len();
                assert(s[t + 0] == tail[0]);
                assert(s[t + 1] == tail[1]);
            },
            None => {
                let zero = seq![0u8];
                assert(s[i + 0] == zero[0]);
            },
        }
    }

    proof fn lemma_rtc_found(self, s: Seq<u8>, i: int)
        requires
            found_at(s, i, self.encode_rtc()),
        ensures
            self.encode_rtc().len() >= 1,
            Self::rtc_len(s, i) == self.encode_rtc().len(),
            Self::decode_rtc(s, i) == self.rtc,
    {
        match self.rtc {
            Some(rtc) => {
                let one = seq![1u8];
                lemma_found_split(s, i, one, rtc.encode());
                assert(s[i + 0] == one[0]);
                rtc.lemma_round_trip(s, i + 1);
            },
            None => {
                let zero = seq![0u8];
                assert(s[i + 0] == zero[0]);
            },
        }
    }

    /// A byte written to a RAM that can be reached is read back and marks it as changed.
    pub proof fn law_ram_written_is_read(self, addr: u16, value: u8)
        requires
            self.enabled,
            !self.rtc_mapped,
            0xA000 <= addr <= 0xBFFF,
            self.ram matches Some(ram) && RAM_BANK_SIZE * ram.bank + (addr - 0xA000)
                < ram.data.len(),
        ensures
            self.ram_written(addr, value).ram_byte(addr) == value,
            self.ram_written(addr, value).ram matches Some(ram) && ram.is_dirty,
    {
    }

    /// RAM that is not enabled cannot be read or written.
    pub proof fn law_disabled_ram_is_shut(self, addr: u16, value: u8)
        requires
            !self.enabled,
        ensures
            self.ram_byte(addr) == 0xFF,
            self.ram_written(addr, value) == self,
    {
    }
}

impl Controller {
    /// A cartridge of two empty ROM banks and nothing else.
    pub fn blank() -> (r: Self)
        ensures
            r@ == ControllerView::blank(),
            r@.wf(),
    {
        let r = Self {
            rom: Rom { data: vec![0u8; 0x8000], bank: 1 },
            ram: None,
            rtc: None,
            enabled: false,
            rtc_mapped: false,
        };
        assert(r@ =~= ControllerView::blank());
        r
    }

    /// Inserts a cartridge. An image without a header is refused.
    pub fn from_cartridge(cartridge: Cartridge) -> (r: Result<Self, Error>)
        ensures
            r is Ok <==> cartridge.has_header(),
            r matches Ok(controller) ==> controller@.wf() && exists|now: u64|
                controller@ == #[trigger] ControllerView::inserted(cartridge, now),
            r matches Err(Error::InvalidValue(text)) ==> text@ == "Invalid ROM header"@,
    {
        if cartridge.data.len() < HEADER_END {
            return Err(Error::InvalidValue("Invalid ROM header".to_string()));
        }
        let ghost image = cartridge;
        let size = cartridge.ram_size();
        let ram = if size > 0 {
            Some(Ram { data: vec![0u8; size], bank: 0, is_dirty: false })
        } else {
            None
        };
        let clock = cartridge.data[0x147] == 0x0F || cartridge.data[0x147] == 0x10;
        let now = crate::rtc::now_seconds();
        let rtc = if clock { Some(Rtc { state: RtcState::new_at(now) }) } else { None };
        let r = Self {
            rom: Rom { data: cartridge.data, bank: 1 },
            ram,
            rtc,
            enabled: false,
            rtc_mapped: false,
        };
        assert(r@ =~= ControllerView::inserted(image, now));
        Ok(r)
    }

    /// Puts in a ROM image.
    pub fn load_rom(&mut self, data: Vec<u8>)
        ensures
            final(self)@ == (ControllerView { rom: data@, ..old(self)@ }),
    {
        self.rom.data = data;
    }

    /// Puts in the contents of the RAM. A cartridge without RAM ignores them, and contents
    /// of another size are refused.
    pub fn load_ram(&mut self, data: &[u8]) -> (r: Result<(), Error>)
        ensures
            r is Ok <==> old(self)@.accepts_ram(data@),
            r matches Err(Error::InvalidValue(text)) ==> text@ == "Invalid RAM size"@,
            final(self)@ == if r is Ok {
                old(self)@.ram_loaded(data@)
            } else {
                old(self)@
            },
    {
        let mut contents: Vec<u8> = Vec::new();
        contents.extend_from_slice(data);
        assert(contents@ =~= data@);
        match &mut self.ram {
            Some(ram) => {
                if ram.data.len() != data.len() {
                    return Err(Error::InvalidValue("Invalid RAM size".to_string()));
                }
                ram.data = contents;
            },
            None => {},
        }
        Ok(())
    }

    /// Puts in the stored form of the clock, which then catches up with the wall clock. A
    /// cartridge without a clock ignores it, and a form that is too short is refused.
    pub fn load_rtc(&mut self, data: &[u8]) -> (r: Result<(), Error>)
        requires
            old(self)@.wf(),
        ensures
            r is Ok <==> old(self)@.accepts_rtc(data@),
            r matches Err(Error::InvalidValue(text)) ==> text@ == "Invalid RTC state"@,
            r is Ok ==> exists|now: u64|
                final(self)@ == #[trigger] old(self)@.rtc_loaded(data@, now),
            r is Err ==> final(self)@ == old(self)@,
            final(self)@.wf(),
    {
        if self.rtc.is_none() {
            assert(self@ == old(self)@.rtc_loaded(data@, 0));
            return Ok(());
        }
        if data.len() < 40 {
            return Err(Error::InvalidValue("Invalid RTC state".to_string()));
        }
        match Rtc::from_bytes(data) {
            Ok(rtc) => {
                let mut rtc = rtc;
                rtc.advance();
                let ghost now = choose|now: u64|
                    rtc.state == #[trigger] RtcState::decode(data@, 0).advanced(now);
                self.rtc = Some(rtc);
                self.rtc_mapped = false;
                assert(self@ =~= old(self)@.rtc_loaded(data@, now));
                Ok(())
            },
            Err(e) => Err(e),
        }
    }

    /// The contents of the RAM, if it was written to since the last call.
    pub fn persist_ram(&mut self) -> (r: Option<&[u8]>)
        ensures
            r is Some <==> (old(self)@.ram matches Some(ram) && ram.is_dirty),
            r matches Some(data) ==> data@ == old(self)@.ram->0.data,
            final(self)@ == old(self)@.ram_cleaned(),
    {
        match &mut self.ram {
            Some(ram) => {
                if ram.is_dirty {
                    ram.is_dirty = false;
                    Some(ram.data())
                } else {
                    None
                }
            },
            None => None,
        }
    }

    /// Reads an address below 0x8000.
    pub fn read_rom(&self, addr: u16) -> (r: u8)
        requires
            addr < 0x8000,
        ensures
            r == self@.rom_byte(addr),
    {
        let at: usize = if addr < 0x4000 {
            addr as usize
        } else {
            ROM_BANK_SIZE * (self.rom.bank as usize) + (addr as usize - 0x4000)
        };
        if at < self.rom.data.len() {
            self.rom.data[at]
        } else {
            0xFF
        }
    }

    /// Reads an address from 0xA000 to 0xBFFF.
    pub fn read_ram(&self, addr: u16) -> (r: u8)
        requires
            self@.wf(),
            0xA000 <= addr <= 0xBFFF,
        ensures
            r == self@.ram_byte(addr),
    {
        if !self.enabled {
            return 0xFF;
        }
        if self.rtc_mapped {
            match &self.rtc {
                Some(rtc) => {
                    return rtc.read();
                },
                None => {
                    return 0xFF;
                },
            }
        }
        match &self.ram {
            Some(ram) => {
                let at: usize = RAM_BANK_SIZE * (ram.bank as usize) + (addr as usize - 0xA000);
                if at < ram.data.len() {
                    ram.data[at]
                } else {
                    0xFF
                }
            },
            None => 0xFF,
        }
    }

    /// Writes an address from 0xA000 to 0xBFFF.
    pub fn write_ram(&mut self, addr: u16, value: u8)
        requires
            old(self)@.wf(),
            0xA000 <= addr <= 0xBFFF,
        ensures
            final(self)@ == old(self)@.ram_written(addr, value),
            final(self)@.wf(),
    {
        if !self.enabled {
            return;
        }
        if self.rtc_mapped {
            match &mut self.rtc {
                Some(rtc) => {
                    rtc.write(value);
                },
                None => {},
            }
            assert(self@ =~= old(self)@.ram_written(addr, value));
            return;
        }
        match &mut self.ram {
            Some(ram) => {
                let at: usize = RAM_BANK_SIZE * (ram.bank as usize) + (addr as usize - 0xA000);
                if at < ram.data.len() {
                    ram.data[at] = value;
                    ram.is_dirty = true;
                }
            },
            None => {},
        }
        assert(self@ =~= old(self)@.ram_written(addr, value));
    }

    /// Writes a bank switch, at an address below 0x8000.
    pub fn write_rom(&mut self, addr: u16, value: u8)
        requires
            old(self)@.wf(),
            addr < 0x8000,
        ensures
            final(self)@ == old(self)@.rom_written(addr, value),
            final(self)@.wf(),
    {
        if addr < 0x2000 {
            self.enabled = value % 16 == 0x0A;
        } else if addr < 0x4000 {
            self.rom.bank = if value == 0 { 1 } else { value as u16 };
        } else if addr < 0x6000 {
            self.switch(value);
        } else {
            match &mut self.rtc {
                Some(rtc) => {
                    rtc.latch(value);
                },
                None => {},
            }
        }
        assert(self@ =~= old(self)@.rom_written(addr, value));
    }

    fn switch(&mut self, value: u8)
        requires
            old(self)@.wf(),
        ensures
            final(self)@ == old(self)@.switched(value),
            final(self)@.wf(),
    {
        if self.rtc.is_some() && 0x08 <= value && value <= 0x0C {
            match &mut self.rtc {
                Some(rtc) => {
                    rtc.select(value);
                },
                None => {},
            }
            self.rtc_mapped = true;
        } else {
            match &mut self.ram {
                Some(ram) => {
                    ram.bank = value % 16;
                },
                None => {},
            }
            self.rtc_mapped = false;
        }
        assert(self@ =~= old(self)@.switched(value));
    }

    /// Runs the clock for some cycles, at this time on the wall clock.
    pub fn step_at(&mut self, cycles: u16, speed: bool, now: u64)
        requires
            old(self)@.wf(),
        ensures
            final(self)@ == old(self)@.stepped(cycles, speed, now),
            final(self)@.wf(),
    {
        match &mut self.rtc {
            Some(rtc) => {
                rtc.state.step_at(cycles, speed, now);
            },
            None => {},
        }
        assert(self@ =~= old(self)@.stepped(cycles, speed, now));
    }

    /// Appends the stored form.
    pub fn save_to_bytes(&self, buf: &mut Vec<u8>)
        ensures
            final(buf)@ == old(buf)@ + self@.encode(),
    {
        reveal(ControllerView::encode);
        put_u16(buf, self.rom.bank);
        put_flag(buf, self.enabled);
        put_flag(buf, self.rtc_mapped);
        self.save_ram(buf);
        self.save_rtc(buf);
        assert(buf@ =~= old(buf)@ + self@.encode());
    }

    fn save_ram(&self, buf: &mut Vec<u8>)
        ensures
            final(buf)@ == old(buf)@ + self@.encode_ram(),
    {
        match &self.ram {
            Some(ram) => {
                buf.push(1);
                put_u32(buf, ram.data.len() as u32);
                put_bytes(buf, ram.data.as_slice());
                buf.push(ram.bank);
                put_flag(buf, ram.is_dirty);
            },
            None => {
                buf.push(0);
            },
        }
        assert(buf@ =~= old(buf)@ + self@.encode_ram());
    }

    fn save_rtc(&self, buf: &mut Vec<u8>)
        ensures
            final(buf)@ == old(buf)@ + self@.encode_rtc(),
    {
        match &self.rtc {
            Some(rtc) => {
                buf.push(1);
                rtc.state.serialize(buf);
            },
            None => {
                buf.push(0);
            },
        }
        assert(buf@ =~= old(buf)@ + self@.encode_rtc());
    }

    /// Restores a controller that is stored at the cursor, with an empty ROM.
    pub fn load_from_bytes(data: &[u8], pos: &mut usize) -> (r: Result<Self, Error>)
        requires
            ControllerView::stored_at(data@, *old(pos) as int),
        ensures
            r matches Ok(c) && c@ == ControllerView::decode(data@, *old(pos) as int),
            *final(pos) == *old(pos) + ControllerView::stored_len(data@, *old(pos) as int),
    {
        reveal(ControllerView::stored_at);
        reveal(ControllerView::stored_len);
        reveal(ControllerView::decode);
        let total: usize = data.len();
        let bank = take_u16(data, pos);
        let enabled = take_flag(data, pos);
        let rtc_mapped = take_flag(data, pos);
        let ram = if take_flag(data, pos) {
            let count = take_u32(data, pos);
            let contents = take_bytes(data, pos, count as usize);
            let ram_bank = take_u8(data, pos);
            let is_dirty = take_flag(data, pos);
            Some(Ram { data: contents, bank: ram_bank, is_dirty })
        } else {
            None
        };
        let rtc = if take_flag(data, pos) {
            match RtcState::deserialize(data, pos) {
                Ok(state) => Some(Rtc { state }),
                Err(e) => {
                    return Err(e);
                },
            }
        } else {
            None
        };
        let r = Self { rom: Rom { data: Vec::new(), bank }, ram, rtc, enabled, rtc_mapped };
        assert(r@ =~= ControllerView::decode(data@, *old(pos) as int));
        Ok(r)
    }

    /// A mapped clock is there and has a register selected.
    pub fn is_consistent(&self) -> (r: bool)
        ensures
            r == self@.wf(),
    {
        if !self.rtc_mapped {
            return true;
        }
        match &self.rtc {
            Some(rtc) => 0x08 <= rtc.state.selected && rtc.state.selected <= 0x0C,
            None => false,
        }
    }

    /// The end of the controller that is stored at `pos`, if a whole one is.
    pub fn stored_end(data: &[u8], pos: usize) -> (r: Option<usize>)
        ensures
            r is Some <==> ControllerView::stored_at(data@, pos as int),
            r matches Some(end) ==> end == pos + ControllerView::stored_len(data@, pos as int)
                && end <= data@.len(),
    {
        reveal(ControllerView::stored_at);
        reveal(ControllerView::stored_len);
        let total: usize = data.len();
        if pos >= total || total - pos < 5 {
            return None;
        }
        let mut at: usize = pos + 4;
        if take_flag(data, &mut at) {
            if total - pos < 9 {
                return None;
            }
            let count = take_u32(data, &mut at) as usize;
            if total - at < count || total - at - count < 3 {
                return None;
            }
            at = at + count + 2;
        } else if at >= total {
            return None;
        }
        let has_rtc = take_flag(data, &mut at);
        if has_rtc {
            if total - at < 40 {
                return None;
            }
            Some(at + 40)
        } else {
            Some(at)
        }
    }
}

impl ControllerView {
    /// The first 0x4000 bytes of the image are always in place; behind them lies the bank that
    /// was chosen, of 0x4000 bytes each. Behind the end of the image nothing is read.
    pub proof fn law_rom_banks(self, addr: u16)
        requires
            addr < 0x8000,
        ensures
            ({
                let at = if addr < 0x4000 { addr as int } else {
                    addr - 0x4000 + 16384 * self.rom_bank
                };
                self.rom_byte(addr) == (if at < self.rom.len() { self.rom[at] } else { 255 })
            }),
    {
    }

    /// Writes below 0x8000 are switches. The first quarter opens the RAM and the clock, with
    /// 10 in the low half of the value, or shuts them; the second chooses the bank of the ROM,
    /// where zero counts as one. Nothing else changes.
    pub proof fn law_rom_switches(self, addr: u16, v: u8)
        requires
            addr < 0x4000,
        ensures
            addr < 0x2000 ==> self.rom_written(addr, v) == (ControllerView {
                enabled: v as int % 16 == 10,
                ..self
            }),
            addr >= 0x2000 ==> self.rom_written(addr, v) == (ControllerView {
                rom_bank: if v == 0 { 1 } else { v as u16 },
                ..self
            }),
    {
    }

    /// The third quarter chooses a register of the clock, with its numbers 8 to 12 and if there
    /// is a clock, or else a bank of the RAM; the last one is the latch of the clock.
    pub proof fn law_ram_switches(self, addr: u16, v: u8)
        requires
            0x4000 <= addr < 0x8000,
        ensures
            ({
                let s = self.rom_written(addr, v);
                let clock = self.rtc is Some && 8 <= v <= 12;
                &&& s.rom == self.rom && s.rom_bank == self.rom_bank && s.enabled == self.enabled
                &&& addr < 0x6000 ==> s.rtc_mapped == clock
                &&& addr < 0x6000 && clock ==> s.rtc == Some(
                    RtcState { selected: v, ..self.rtc->0 },
                ) && s.ram == self.ram
                &&& addr < 0x6000 && !clock ==> s.rtc == self.rtc && (self.ram is Some ==> s.ram
                    == Some(RamView { bank: v % 16, ..self.ram->0 })) && (self.ram is None ==> s.ram
                    is None)
                &&& addr >= 0x6000 ==> s.ram == self.ram && s.rtc_mapped == self.rtc_mapped && (
                self.rtc is Some ==> s.rtc == Some(self.rtc->0.latched_with(v))) && (self.rtc
                    is None ==> s.rtc is None)
            }),
    {
    }

    /// An open RAM shows the bank that was chosen, of 0x2000 bytes each, and takes writes
    /// there; a clock register that was chosen stands in its place; with neither, 0xFF is
    /// read.
    pub proof fn law_ram_banks(self, addr: u16, v: u8)
        requires
            0xA000 <= addr <= 0xBFFF,
            self.enabled,
        ensures
            ({
                let s = self.ram_written(addr, v);
                &&& self.rtc_mapped ==> self.ram_byte(addr) == self.rtc->0.register() && s
                    == (ControllerView { rtc: Some(self.rtc->0.written(v)), ..self })
                &&& !self.rtc_mapped && self.ram is None ==> self.ram_byte(addr) == 255 && s == self
                &&& !self.rtc_mapped && self.ram is Some ==> {
                    let ram = self.ram->0;
                    let at = addr - 0xA000 + 8192 * ram.bank;
                    if at < ram.data.len() {
                        &&& self.ram_byte(addr) == ram.data[at]
                        &&& s == (ControllerView {
                            ram: Some(
                                RamView { data: ram.data.update(at, v), is_dirty: true, ..ram },
                            ),
                            ..self
                        })
                    } else {
                        self.ram_byte(addr) == 255 && s == self
                    }
                }
            }),
    {
    }

    /// A cartridge as it is inserted: the header asks for RAM of 8, 32, 128 or 64 kilobytes
    /// with the codes 2 to 5, and for a clock with the types 15 and 16; the bank behind the
    /// first is in place, and RAM and clock are shut.
    pub proof fn law_header_is_followed(cartridge: Cartridge, now: u64)
        requires
            cartridge.data@.len() >= 336,
        ensures
            ({
                let s = ControllerView::inserted(cartridge, now);
                let code = cartridge.data@[329];
                let kind = cartridge.data@[327];
                let size = if code == 2 {
                    8int
                } else if code == 3 {
                    32
                } else if code == 4 {
                    128
                } else if code == 5 {
                    64
                } else {
                    0
                };
                &&& cartridge.has_header()
                &&& cartridge.wants_color() == (cartridge.data@[323] >= 128)
                &&& s.rom == cartridge.data@
                &&& s.rom_bank == 1 && !s.enabled && !s.rtc_mapped
                &&& s.ram is Some <==> size > 0
                &&& s.ram matches Some(ram) ==> ram.bank == 0 && !ram.is_dirty && ram.data
                    == Seq::new((1024 * size) as nat, |i: int| 0u8)
                &&& s.rtc is Some <==> kind == 15 || kind == 16
                &&& s.rtc matches Some(rtc) ==> rtc == RtcState::fresh(now)
            }),
    {
    }
}

impl Cartridge {
    /// The title starts at 0x134, has no zero byte, and ends before the first zero byte or at
    /// 0x143.
    pub proof fn law_title_ends_at_zero(&self, i: int)
        requires
            self.data@.len() >= 336,
        ensures
            ({
                let t = self.title_bytes();
                &&& t.len() <= 15
                &&& 0 <= i < t.len() ==> t[i] == self.data@[308 + i] && t[i] != 0
                &&& t.len() == 15 || self.data@[308 + t.len() as int] == 0
            }),
    {
        self.lemma_title_end(308);
        self.lemma_title_without_zero(308);
    }

    proof fn lemma_title_without_zero(&self, n: int)
        requires
            n <= TITLE_END,
        ensures
            forall|k: int| n <= k < self.title_end(n) ==> #[trigger] self.data@[k] != 0,
            self.title_end(n) < TITLE_END ==> self.data@[self.title_end(n)] == 0,
        decreases TITLE_END - n,
    {
        if n < TITLE_END && self.data@[n] != 0 {
            self.lemma_title_without_zero(n + 1);
        }
    }
}

impl ControllerView {
    /// Contents of the right size are put into the RAM and leave the rest alone; without a RAM
    /// any contents are accepted and nothing changes. Marking the RAM as persisted changes
    /// nothing else.
    pub proof fn law_ram_is_put_back(self, data: Seq<u8>)
        ensures
            self.ram is None ==> self.accepts_ram(data) && self.ram_loaded(data) == self
                && self.ram_cleaned() == self,
            self.ram matches Some(ram) ==> {
                &&& self.accepts_ram(data) <==> data.len() == ram.data.len()
                &&& self.ram_loaded(data) == (ControllerView {
                    ram: Some(RamView { data, bank: ram.bank, is_dirty: ram.is_dirty }),
                    ..self
                })
                &&& self.ram_cleaned() == (ControllerView {
                    ram: Some(RamView { data: ram.data, bank: ram.bank, is_dirty: false }),
                    ..self
                })
            },
    {
    }

    /// A clock that was dumped is put back with the time since then caught up, and no register
    /// of it in the place of the RAM. Fewer than forty bytes are refused; without a clock
    /// anything is accepted and nothing changes.
    pub proof fn law_clock_is_put_back(self, rtc: RtcState, now: u64, data: Seq<u8>)
        ensures
            self.rtc is None ==> self.accepts_rtc(data) && self.rtc_loaded(data, now) == self,
            self.rtc is Some ==> {
                &&& self.accepts_rtc(data) <==> data.len() >= 40
                &&& self.accepts_rtc(rtc.encode())
                &&& self.rtc_loaded(rtc.encode(), now) == (ControllerView {
                    rtc: Some(rtc.advanced(now)),
                    rtc_mapped: false,
                    ..self
                })
            },
    {
        rtc.lemma_round_trip(rtc.encode(), 0);
    }

    /// Only the clock of a cartridge moves with time.
    pub proof fn law_step_moves_clock(self, cycles: u16, speed: bool, now: u64)
        ensures
            ({
                let s = self.stepped(cycles, speed, now);
                &&& self.rtc is None ==> s == self
                &&& self.rtc matches Some(rtc) ==> s == (ControllerView {
                    rtc: Some(rtc.stepped(cycles, speed, now)),
                    ..self
                })
            }),
    {
    }
}

} // verus!
