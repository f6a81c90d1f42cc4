//! What is seen on a line of the screen, in terms of the memories and the registers.
use vstd::prelude::*;

use crate::bits::{bit, lemma_mask_tests_bit, lemma_shift_gives_bit};
use crate::ppu::color::{dmg_shade, GameboyRgb};
use crate::ppu::vram::VramView;
use crate::ppu::PpuView;

verus! {

/// One for a bit that is set.
pub open spec fn digit(v: u8, n: int) -> int {
    if bit(v, n) {
        1
    } else {
        0
    }
}

/// The color, zero to three, at a place of a tile that starts at byte `16 * tile` of a bank:
/// two bytes to a row, the leftmost place in their highest bits, the second byte counting
/// twice.
pub open spec fn tile_color(bank: Seq<u8>, tile: int, row: int, column: int) -> int {
    let at = 16 * tile + 2 * row;
    digit(bank[at], 7 - column) + 2 * digit(bank[at + 1], 7 - column)
}

/// A color of palette memory: bits 0 to 4 are red, 5 to 9 green, 10 to 14 blue, each of
/// which goes from 0 to 255 in thirty-one steps.
pub open spec fn is_color(p: GameboyRgb, low: u8, high: u8) -> bool {
    &&& p.red == (low % 32) as int * 255 / 31
    &&& p.green == (low as int / 32 + 8 * (high as int % 4)) * 255 / 31
    &&& p.blue == ((high as int / 4) % 32) * 255 / 31
}

/// A shade of a monochrome palette: two bits to each color, from the lowest.
pub open spec fn is_shade(p: GameboyRgb, reg: u8, color: int) -> bool {
    let shade = 2 * digit(reg, 2 * color + 1) + digit(reg, 2 * color);
    if shade == 0 {
        p.red == 224 && p.green == 248 && p.blue == 208
    } else if shade == 1 {
        p.red == 136 && p.green == 192 && p.blue == 112
    } else if shade == 2 {
        p.red == 52 && p.green == 104 && p.blue == 86
    } else {
        p.red == 8 && p.green == 24 && p.blue == 32
    }
}

impl PpuView {
    /// The pixel at a column of the current line, once the line is drawn.
    pub open spec fn shown(self, column: int) -> GameboyRgb {
        self.line_drawn().frame_buffer.data[160 * self.ly + column]
    }

    /// A column of the current line, which is one of the screen.
    pub open spec fn on_screen(self, column: int) -> bool {
        self.wf() && self.ly < 144 && 0 <= column < 160
    }

    /// The window lies over a column of the current line. It starts seven columns to the left
    /// of `wx`; one that would start left of the screen is not drawn.
    pub open spec fn under_window(self, column: int) -> bool {
        bit(self.lcdc.raw, 5) && self.ly >= self.wy && 7 <= self.wx <= column + 7
    }

    /// No sprite is drawn.
    pub open spec fn without_sprites(self) -> bool {
        !bit(self.lcdc.raw, 1) || self.sprites.len() == 0
    }

    /// The screen scrolls over the background: with the register at `s` more, a column shows
    /// what the column `s` further to the right showed.
    pub proof fn law_scroll_to_the_right(self, s: u8, column: int)
        requires
            self.on_screen(column),
            column + s < 160,
            !self.under_window(column + s),
            self.without_sprites(),
        ensures
            self.written(0xFF43, self.scx.wrapping_add(s)).shown(column) == self.shown(column + s),
    {
        let other = self.written(0xFF43, self.scx.wrapping_add(s));
        self.law_registers_are_set(self.scx.wrapping_add(s));
        let x = ((column + s) as u8).wrapping_add(self.scx);
        assert((column as u8).wrapping_add(other.scx) == x);
        self.lemma_scrolled(column + s);
        other.lemma_scrolled(column);
        self.lemma_same_place(other, x, self.ly.wrapping_add(self.scy));
    }

    /// With the other scroll register at `s` more, a line shows what the line `s` further
    /// down showed.
    pub proof fn law_scroll_down(self, s: u8, column: int)
        requires
            self.on_screen(column),
            self.ly + s < 144,
            !bit(self.lcdc.raw, 5),
            self.without_sprites(),
        ensures
            self.written(0xFF42, self.scy.wrapping_add(s)).shown(column) == (PpuView {
                ly: (self.ly + s) as u8,
                ..self
            }).shown(column),
    {
        let other = self.written(0xFF42, self.scy.wrapping_add(s));
        let below = PpuView { ly: (self.ly + s) as u8, ..self };
        self.law_registers_are_set(self.scy.wrapping_add(s));
        let y = below.ly.wrapping_add(self.scy);
        assert(self.ly.wrapping_add(other.scy) == y);
        below.lemma_scrolled(column);
        other.lemma_scrolled(column);
        below.lemma_same_place(other, (column as u8).wrapping_add(self.scx), y);
    }

    /// The background at a place of its map, or white where it is switched off.
    pub open spec fn place(self, x: u8, y: u8) -> GameboyRgb {
        if self.lcdc.bg_first() || self.cgb {
            self.bg_pixel(x, y, self.lcdc.bg_map()).0
        } else {
            dmg_shade(0)
        }
    }

    proof fn lemma_scrolled(self, column: int)
        requires
            self.on_screen(column),
            !self.under_window(column),
            self.without_sprites(),
        ensures
            self.shown(column) == self.place(
                (column as u8).wrapping_add(self.scx),
                self.ly.wrapping_add(self.scy),
            ),
    {
        self.lemma_plain(column);
        self.law_control_bits();
        assert(!self.in_window(column as u8));
    }

    proof fn lemma_same_place(self, other: PpuView, x: u8, y: u8)
        requires
            other == (PpuView { scx: other.scx, scy: other.scy, ly: other.ly, ..self }),
        ensures
            self.place(x, y) == other.place(x, y),
    {
    }

    /// The place of a map that a column of the current line shows: with the window, counted
    /// from the window's corner, else from the corner of the background that the scroll
    /// registers name, both coming round after 256.
    pub open spec fn map_x(self, column: int) -> int {
        if self.under_window(column) {
            column + 7 - self.wx
        } else {
            (column + self.scx) % 256
        }
    }

    pub open spec fn map_y(self, column: int) -> int {
        if self.under_window(column) {
            self.window_line_counter as int
        } else {
            (self.ly + self.scy) % 256
        }
    }

    /// Where the number of the tile at that place is found: maps of 32 by 32 tiles lie 0x1800
    /// and 0x1C00 behind the start of video memory; bit 6 of the control register chooses
    /// for the window, bit 3 for the background.
    pub open spec fn map_cell(self, column: int) -> int {
        let second = bit(self.lcdc.raw, if self.under_window(column) { 6 } else { 3 });
        (if second { 0x1C00int } else { 0x1800 }) + 32 * (self.map_y(column) / 8) + self.map_x(
            column,
        ) / 8
    }

    /// The tile at that place: with bit 4 of the control register its number counts from the
    /// start of video memory, else as a signed number from 0x1000 behind it.
    pub open spec fn map_tile(self, column: int) -> int {
        let number = self.vram.bank0[self.map_cell(column)] as int;
        if bit(self.lcdc.raw, 4) {
            number
        } else if number < 128 {
            256 + number
        } else {
            256 + (number - 256)
        }
    }

    /// The attributes of the tile: those of a color machine lie in the second bank.
    pub open spec fn map_attributes(self, column: int) -> u8 {
        if self.cgb {
            self.vram.bank1[self.map_cell(column)]
        } else {
            0
        }
    }

    /// The color of the background or the window at a column: bit 3 of the attributes takes
    /// the tile from the second bank, bit 5 mirrors it sideways, bit 6 upside down.
    pub open spec fn map_color(self, column: int) -> int {
        let attr = self.map_attributes(column);
        let x = self.map_x(column) % 8;
        let y = self.map_y(column) % 8;
        tile_color(
            if bit(attr, 3) { self.vram.bank1 } else { self.vram.bank0 },
            self.map_tile(column),
            if bit(attr, 6) { 7 - y } else { y },
            if bit(attr, 5) { 7 - x } else { x },
        )
    }

    /// Without sprites, a column shows the color that the tile has there: in a color machine
    /// by the palette in bits 0 to 2 of the attributes, in a monochrome one by the palette
    /// register, or white if bit 0 of the control register switches the background off.
    pub proof fn law_background_is_tiles(self, column: int)
        requires
            self.on_screen(column),
            self.without_sprites(),
        ensures
            ({
                let color = self.map_color(column);
                let at = 8 * (self.map_attributes(column) as int % 8) + 2 * color;
                &&& self.cgb ==> is_color(
                    self.shown(column),
                    self.bg_palette_ram[at],
                    self.bg_palette_ram[at + 1],
                )
                &&& !self.cgb && bit(self.lcdc.raw, 0) ==> is_shade(
                    self.shown(column),
                    self.bgp,
                    color,
                )
                &&& !self.cgb && !bit(self.lcdc.raw, 0) ==> self.shown(column) == (GameboyRgb {
                    red: 224,
                    green: 248,
                    blue: 208,
                })
            }),
    {
        self.lemma_plain(column);
        self.lemma_back(column);
        lemma_mask_tests_bit(self.lcdc.raw);
        let color = self.map_color(column) as u8;
        let palette = self.map_attributes(column) % 8;
        self.lemma_pixel(color, palette, false);
    }

    /// What is behind the sprites at a column.
    pub proof fn lemma_back(self, column: int)
        requires
            self.on_screen(column),
        ensures
            ({
                let back = self.back_pixel(column as u8);
                let color = self.map_color(column);
                let attr = self.map_attributes(column);
                let drawn = self.cgb || bit(self.lcdc.raw, 0);
                &&& 0 <= color < 4
                &&& drawn ==> back.0 == self.pixel_of(color as u8, attr % 8, false)
                &&& drawn ==> back.1 == (self.cgb && bit(self.lcdc.raw, 0) && bit(attr, 7))
                &&& drawn ==> back.2 == color
                &&& !drawn ==> back == (dmg_shade(0), false, 0u8)
            }),
    {
        let c = column as u8;
        lemma_mask_tests_bit(self.lcdc.raw);
        assert(self.in_window(c) == self.under_window(column));
        let x = self.map_x(column) as u8;
        let y = self.map_y(column) as u8;
        let map = if self.in_window(c) { self.lcdc.window_map() } else { self.lcdc.bg_map() };
        assert(c.wrapping_add(self.scx) == (column + self.scx) % 256);
        assert(self.ly.wrapping_add(self.scy) == (self.ly + self.scy) % 256);
        self.lemma_map_color(x, y, map);
    }

    /// The color of a place of a map.
    proof fn lemma_map_color(self, x: u8, y: u8, map: u16)
        requires
            self.wf(),
            map == 0x9800 || map == 0x9C00,
        ensures
            ({
                let cell = map - 0x8000 + 32 * (y as int / 8) + x as int / 8;
                let number = self.vram.bank0[cell] as int;
                let attr = if self.cgb { self.vram.bank1[cell] } else { 0 };
                let tile = if bit(self.lcdc.raw, 4) {
                    number
                } else if number < 128 {
                    256 + number
                } else {
                    256 + (number - 256)
                };
                let color = tile_color(
                    if bit(attr, 3) { self.vram.bank1 } else { self.vram.bank0 },
                    tile,
                    if bit(attr, 6) { 7 - y as int % 8 } else { y as int % 8 },
                    if bit(attr, 5) { 7 - x as int % 8 } else { x as int % 8 },
                );
                self.bg_pixel(x, y, map) == (
                    self.pixel_of(color as u8, attr % 8, false),
                    self.cgb && bit(attr, 7),
                    color as u8,
                )
            }),
    {
        let cell = map - 0x8000 + 32 * (y as int / 8) + x as int / 8;
        let number = self.vram.bank0[cell];
        let attr = if self.cgb { self.vram.bank1[cell] } else { 0 };
        lemma_mask_tests_bit(self.lcdc.raw);
        lemma_mask_tests_bit(attr);
        let tile = if self.lcdc.signed_tiles() && number <= 127 {
            number + 256
        } else {
            number as int
        };
        let column = if bit(attr, 5) { 7 - x as int % 8 } else { x as int % 8 };
        let row = if bit(attr, 6) { 7 - y as int % 8 } else { y as int % 8 };
        lemma_texel(self.vram, bit(attr, 3), tile, row, column);
    }

    /// The pixel of a column without sprites.
    pub proof fn lemma_plain(self, column: int)
        requires
            self.on_screen(column),
            self.without_sprites(),
        ensures
            self.shown(column) == self.back_pixel(column as u8).0,
    {
        lemma_mask_tests_bit(self.lcdc.raw);
        assert(self.shown(column) == self.line_pixel(column as u8));
    }

    /// The pixel that a palette gives to a color.
    pub proof fn lemma_pixel(self, color: u8, palette: u8, sprite: bool)
        requires
            color < 4,
            palette < 8,
        ensures
            ({
                let p = self.pixel_of(color, palette, sprite);
                let ram = if sprite { self.sprite_palette_ram } else { self.bg_palette_ram };
                let at = 8 * palette + 2 * color;
                &&& self.cgb ==> is_color(p, ram[at], ram[at + 1])
                &&& !self.cgb ==> is_shade(
                    p,
                    if !sprite {
                        self.bgp
                    } else if palette == 0 {
                        self.obp0
                    } else {
                        self.obp1
                    },
                    color as int,
                )
            }),
    {
        let ram = if sprite { self.sprite_palette_ram } else { self.bg_palette_ram };
        let at = 8 * palette + 2 * color;
        lemma_entry(ram[at], ram[at + 1]);
        lemma_shade(self.bgp, color);
        lemma_shade(self.obp0, color);
        lemma_shade(self.obp1, color);
    }
}

/// The parts of a color in palette memory.
proof fn lemma_entry(low: u8, high: u8)
    ensures
        is_color(crate::ppu::render::palette_entry(low, high), low, high),
{
    let c = low + 256 * high;
    assert(c % 32 == low % 32);
    assert((c / 32) % 32 == low as int / 32 + 8 * (high as int % 4));
    assert((c / 1024) % 32 == (high as int / 4) % 32);
}

/// The shade of a color in a palette register.
proof fn lemma_shade(reg: u8, color: u8)
    requires
        color < 4,
    ensures
        is_shade(dmg_shade(crate::ppu::render::palette_shade(reg, color)), reg, color as int),
{
}

/// The color of a tile's place.
pub proof fn lemma_texel(v: VramView, second: bool, tile: int, row: int, column: int)
    requires
        0 <= tile < 384,
        0 <= row < 8,
        0 <= column < 8,
    ensures
        ({
            let bank = if second { v.bank1 } else { v.bank0 };
            let n = (if second { 24576int } else { 0 }) + 64 * tile + 8 * row + column;
            &&& v.texel(n) == tile_color(bank, tile, row, column)
            &&& 0 <= tile_color(bank, tile, row, column) < 4
        }),
{
    let bank = if second { v.bank1 } else { v.bank0 };
    let m = 64 * tile + 8 * row + column;
    assert(m / 64 == tile && m % 64 == 8 * row + column);
    assert((8 * row + column) / 8 == row && m % 8 == column);
    let at = 16 * tile + 2 * row;
    lemma_shift_gives_bit(bank[at], 7 - column);
    lemma_shift_gives_bit(bank[at + 1], 7 - column);
}

} // verus!
