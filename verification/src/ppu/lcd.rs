//! Control and status registers of the display.
use vstd::prelude::*;

verus! {

/// LCD control register.
#[derive(Clone, Copy, Debug, PartialEq, Eq, Structural)]
pub struct LcdControl {
    /// Raw register value.
    pub raw: u8,
}

impl LcdControl {
    pub open spec fn display_on(self) -> bool {
        self.raw & 0x80 != 0
    }

    pub open spec fn window_map(self) -> u16 {
        if self.raw & 0x40 == 0 {
            0x9800
        } else {
            0x9C00
        }
    }

    pub open spec fn window_on(self) -> bool {
        self.raw & 0x20 != 0
    }

    /// Tile numbers count from the middle of the tile data.
    pub open spec fn signed_tiles(self) -> bool {
        self.raw & 0x10 == 0
    }

    pub open spec fn bg_map(self) -> u16 {
        if self.raw & 0x08 == 0 {
            0x9800
        } else {
            0x9C00
        }
    }

    pub open spec fn tall_sprites(self) -> bool {
        self.raw & 0x04 != 0
    }

    pub open spec fn sprites_on(self) -> bool {
        self.raw & 0x02 != 0
    }

    pub open spec fn bg_first(self) -> bool {
        self.raw & 0x01 != 0
    }

    /// Height of a sprite.
    pub open spec fn sprite_height(self) -> u8 {
        if self.tall_sprites() {
            16
        } else {
            8
        }
    }

    /// The register at power-on: a boot ROM starts with everything off.
    pub fn new(boot_rom: bool) -> (r: Self)
        ensures
            r.raw == if boot_rom { 0u8 } else { 0x91u8 },
    {
        Self { raw: if boot_rom { 0 } else { 0x91 } }
    }

    pub fn lcd_display_enable(&self) -> (r: bool)
        ensures
            r == self.display_on(),
    {
        self.raw & 0x80 != 0
    }

    pub fn window_tile_map(&self) -> (r: u16)
        ensures
            r == self.window_map(),
    {
        if self.raw & 0x40 == 0 {
            0x9800
        } else {
            0x9C00
        }
    }

    pub fn window_display_enable(&self) -> (r: bool)
        ensures
            r == self.window_on(),
    {
        self.raw & 0x20 != 0
    }

    pub fn bg_tile_data_select(&self) -> (r: bool)
        ensures
            r == self.signed_tiles(),
    {
        self.raw & 0x10 == 0
    }

    pub fn bg_tile_map(&self) -> (r: u16)
        ensures
            r == self.bg_map(),
    {
        if self.raw & 0x08 == 0 {
            0x9800
        } else {
            0x9C00
        }
    }

    pub fn sprite_size(&self) -> (r: bool)
        ensures
            r == self.tall_sprites(),
    {
        self.raw & 0x04 != 0
    }

    pub fn sprite_enable(&self) -> (r: bool)
        ensures
            r == self.sprites_on(),
    {
        self.raw & 0x02 != 0
    }

    pub fn bg_priority(&self) -> (r: bool)
        ensures
            r == self.bg_first(),
    {
        self.raw & 0x01 != 0
    }
}

/// What the display is doing.
#[derive(Clone, Copy, Debug, PartialEq, Eq, Structural)]
pub enum StatMode {
    Hblank,
    Vblank,
    OamScan,
    OamRead,
}

impl StatMode {
    /// The mode's number in the status register.
    pub open spec fn spec_code(self) -> u8 {
        match self {
            StatMode::Hblank => 0,
            StatMode::Vblank => 1,
            StatMode::OamScan => 2,
            StatMode::OamRead => 3,
        }
    }

    /// The mode's number in the status register.
    pub fn code(self) -> (r: u8)
        ensures
            r == self.spec_code(),
    {
        match self {
            StatMode::Hblank => 0,
            StatMode::Vblank => 1,
            StatMode::OamScan => 2,
            StatMode::OamRead => 3,
        }
    }
}

/// LCD status register.
#[derive(Clone, Copy, Debug, PartialEq, Eq, Structural)]
pub struct LcdStat {
    /// Raw register value.
    pub raw: u8,
}

impl LcdStat {
    /// The mode that the register shows.
    pub open spec fn shown_mode(self) -> StatMode {
        if self.raw % 4 == 0 {
            StatMode::Hblank
        } else if self.raw % 4 == 1 {
            StatMode::Vblank
        } else if self.raw % 4 == 2 {
            StatMode::OamScan
        } else {
            StatMode::OamRead
        }
    }

    /// The interrupt source of this mode is switched on. Both modes that use the sprite
    /// table share one switch.
    pub open spec fn mode_source_on(self, mode: StatMode) -> bool {
        match mode {
            StatMode::Hblank => self.raw & 0x08 != 0,
            StatMode::Vblank => self.raw & 0x10 != 0,
            StatMode::OamScan => self.raw & 0x20 != 0,
            StatMode::OamRead => self.raw & 0x20 != 0,
        }
    }

    /// The register with the mode and the coincidence flag put in.
    pub open spec fn showing(self, mode: StatMode, coincidence: bool) -> LcdStat {
        LcdStat {
            raw: (self.raw - self.raw % 8 + mode.spec_code() + if coincidence { 4int } else { 0 })
                as u8,
        }
    }

    pub fn new() -> (r: Self)
        ensures
            r.raw == 0,
    {
        Self { raw: 0 }
    }

    pub fn ly_enabled(&self) -> (r: bool)
        ensures
            r == (self.raw & 0x40 != 0),
    {
        self.raw & 0x40 != 0
    }

    pub fn oam_enabled(&self) -> (r: bool)
        ensures
            r == (self.raw & 0x20 != 0),
    {
        self.raw & 0x20 != 0
    }

    pub fn vblank_enabled(&self) -> (r: bool)
        ensures
            r == (self.raw & 0x10 != 0),
    {
        self.raw & 0x10 != 0
    }

    pub fn hblank_enabled(&self) -> (r: bool)
        ensures
            r == (self.raw & 0x08 != 0),
    {
        self.raw & 0x08 != 0
    }

    pub fn coincidence(&self) -> (r: bool)
        ensures
            r == (self.raw & 0x04 != 0),
    {
        self.raw & 0x04 != 0
    }

    /// The mode that the register shows.
    pub fn mode(&self) -> (r: StatMode)
        ensures
            r == self.shown_mode(),
    {
        if self.raw % 4 == 0 {
            StatMode::Hblank
        } else if self.raw % 4 == 1 {
            StatMode::Vblank
        } else if self.raw % 4 == 2 {
            StatMode::OamScan
        } else {
            StatMode::OamRead
        }
    }

    /// Puts in the mode and the coincidence flag.
    pub fn show(&mut self, mode: StatMode, coincidence: bool)
        ensures
            *final(self) == old(self).showing(mode, coincidence),
    {
        let flag: u8 = if coincidence { 4 } else { 0 };
        self.raw = self.raw - self.raw % 8 + mode.code() + flag;
    }

    /// The register shows the mode that was put in, and its switches are untouched.
    pub proof fn law_shows_mode(self, mode: StatMode, coincidence: bool)
        ensures
            self.showing(mode, coincidence).shown_mode() == mode,
            self.showing(mode, coincidence).raw / 8 == self.raw / 8,
    {
    }
}

} // verus!
