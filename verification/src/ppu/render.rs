//! Drawing of a scanline.
use vstd::prelude::*;

use crate::ppu::color::{dmg_color, dmg_shade, scaled, GameboyRgb};
use crate::ppu::frame_buffer::{FrameView, LCD_HEIGHT, LCD_WIDTH};
use crate::ppu::lcd::StatMode;
use crate::ppu::sprites::{law_sort_by_x, sort_by_x, sort_sprites, Sprite};
use crate::ppu::vram::{law_texel_is_color_index, BANK_TEXELS};
use crate::ppu::{Ppu, PpuView};

verus! {

/// The color that two bytes of palette memory hold: five bits each of red, green, blue,
/// from the lowest bit up.
pub open spec fn palette_entry(low: u8, high: u8) -> GameboyRgb {
    let c = low + 256 * high;
    GameboyRgb {
        red: scaled((c % 32) as u8),
        green: scaled(((c / 32) % 32) as u8),
        blue: scaled(((c / 1024) % 32) as u8),
    }
}

/// The shade that a monochrome palette gives to a color: two bits to each.
pub open spec fn palette_shade(reg: u8, color: u8) -> int {
    if color == 0 {
        reg as int % 4
    } else if color == 1 {
        (reg as int / 4) % 4
    } else if color == 2 {
        (reg as int / 16) % 4
    } else {
        reg as int / 64
    }
}

impl PpuView {
    /// The pixel that a palette gives to a color.
    pub open spec fn pixel_of(self, color: u8, palette: u8, sprite: bool) -> GameboyRgb {
        if self.cgb {
            let ram = if sprite { self.sprite_palette_ram } else { self.bg_palette_ram };
            let at = 8 * palette + 2 * color;
            palette_entry(ram[at], ram[at + 1])
        } else {
            let reg = if !sprite {
                self.bgp
            } else if palette == 0 {
                self.obp0
            } else {
                self.obp1
            };
            dmg_shade(palette_shade(reg, color))
        }
    }

    /// The background at a position of one of its maps: the pixel, whether it stays over
    /// sprites, and its color. A color machine keeps a tile's attributes in the second
    /// bank, at the place of its number.
    pub open spec fn bg_pixel(self, x: u8, y: u8, map: u16) -> (GameboyRgb, bool, u8) {
        let cell = map - 0x8000 + 32 * (y as int / 8) + x as int / 8;
        let number = self.vram.bank0[cell];
        let attr = if self.cgb { self.vram.bank1[cell] } else { 0 };
        let tile = if self.lcdc.signed_tiles() && number <= 127 { number + 256 } else { number as int };
        let column = if attr & 0x20 != 0 { 7 - x as int % 8 } else { x as int % 8 };
        let row = if attr & 0x40 != 0 { 7 - y as int % 8 } else { y as int % 8 };
        let bank = if attr & 0x08 != 0 { BANK_TEXELS as int } else { 0 };
        let color = self.vram.texel(bank + 64 * tile + 8 * row + column);
        (self.pixel_of(color, attr % 8, false), self.cgb && attr & 0x80 != 0, color)
    }

    /// The color of a sprite at a column that it covers, on the current line.
    pub open spec fn sprite_color(self, sprite: Sprite, column: u8) -> u8 {
        let height = self.lcdc.sprite_height();
        let row = self.ly.wrapping_sub(sprite.y.wrapping_sub(16));
        let row = if sprite.attr & 0x40 != 0 {
            ((height - 1) as u8).wrapping_sub(row)
        } else {
            row
        };
        let x = column + 8 - sprite.x;
        let x = if sprite.attr & 0x20 != 0 { 7 - x } else { x };
        let tile = if height == 8 {
            sprite.tile_number as int
        } else if row < 8 {
            sprite.tile_number - sprite.tile_number % 2
        } else {
            sprite.tile_number - sprite.tile_number % 2 + 1
        };
        let row = if row >= 8 { row - 8 } else { row as int };
        let bank = if self.cgb && sprite.attr & 0x08 != 0 { BANK_TEXELS as int } else { 0 };
        self.vram.texel(bank + 64 * tile + 8 * row + x)
    }

    /// The palette of a sprite.
    pub open spec fn sprite_palette(self, sprite: Sprite) -> u8 {
        if self.cgb {
            sprite.attr % 8
        } else if sprite.attr & 0x10 != 0 {
            1
        } else {
            0
        }
    }

    /// The pixel of the first sprite, from the `i`th of the line on, that shows at this
    /// column, and whether it goes over the background. Color zero is transparent.
    pub open spec fn sprite_pixel_from(self, column: u8, i: int) -> Option<(GameboyRgb, bool)>
        decreases self.sprites.len() - i,
    {
        if i < 0 || i >= self.sprites.len() {
            None
        } else {
            let sprite = self.sprites[i];
            let color = self.sprite_color(sprite, column);
            if sprite.on_column(column) && color != 0 {
                Some(
                    (
                        self.pixel_of(color, self.sprite_palette(sprite), true),
                        sprite.attr & 0x80 == 0,
                    ),
                )
            } else {
                self.sprite_pixel_from(column, i + 1)
            }
        }
    }

    /// The window covers this column of the current line.
    pub open spec fn in_window(self, column: u8) -> bool {
        self.lcdc.window_on() && self.ly >= self.wy && column >= self.wx.wrapping_sub(7)
    }

    /// Background or window at a column of the current line: the pixel, whether it stays
    /// over sprites, and its color. A monochrome machine can switch it off.
    pub open spec fn back_pixel(self, column: u8) -> (GameboyRgb, bool, u8) {
        if self.lcdc.bg_first() || self.cgb {
            let (pixel, stays, color) = if self.in_window(column) {
                self.bg_pixel(
                    (column - self.wx.wrapping_sub(7)) as u8,
                    self.window_line_counter,
                    self.lcdc.window_map(),
                )
            } else {
                self.bg_pixel(
                    column.wrapping_add(self.scx),
                    self.ly.wrapping_add(self.scy),
                    self.lcdc.bg_map(),
                )
            };
            (pixel, self.lcdc.bg_first() && stays, color)
        } else {
            (dmg_shade(0), false, 0)
        }
    }

    /// The pixel of the current line at a column. A sprite shows where the background has
    /// color zero, or where neither of them asks for the background to stay in front.
    pub open spec fn line_pixel(self, column: u8) -> GameboyRgb {
        let (pixel, stays, color) = self.back_pixel(column);
        if self.lcdc.sprites_on() {
            match self.sprite_pixel_from(column, 0) {
                Some((sprite_pixel, over)) => if color == 0 || (!stays && over) {
                    sprite_pixel
                } else {
                    pixel
                },
                None => pixel,
            }
        } else {
            pixel
        }
    }

    /// The unit with the current line drawn.
    pub open spec fn line_drawn(self) -> PpuView {
        PpuView {
            frame_buffer: self.frame_buffer.with_row(
                self.ly as int,
                Seq::new(LCD_WIDTH as nat, |x: int| self.line_pixel(x as u8)),
            ),
            ..self
        }
    }

    /// The `i`th entry of the sprite table.
    pub open spec fn table_sprite(self, i: int) -> Sprite {
        Sprite {
            y: self.oam[4 * i],
            x: self.oam[4 * i + 1],
            tile_number: self.oam[4 * i + 2],
            attr: self.oam[4 * i + 3],
        }
    }

    /// The sprites so far, and those of the current line among the first `n` entries of the
    /// table that fit in; there is room for ten.
    pub open spec fn line_sprites(self, n: nat) -> Seq<Sprite>
        decreases n,
    {
        if n == 0 {
            self.sprites
        } else {
            let before = self.line_sprites((n - 1) as nat);
            let sprite = self.table_sprite(n - 1);
            if sprite.on_line(self.ly, self.lcdc.sprite_height()) && before.len() < 10 {
                before.push(sprite)
            } else {
                before
            }
        }
    }

    /// The unit with the sprites of the current line added to those so far. A color machine
    /// leaves them in the order in which they were found, unless told otherwise; else they go
    /// by column.
    pub open spec fn sprites_found(self) -> PpuView {
        let found = self.line_sprites(40);
        PpuView {
            sprites: if !self.cgb || self.opri & 1 != 0 { sort_by_x(found) } else { found },
            ..self
        }
    }

    /// What is drawn on entering the mode that the status shows. The sprites of a line are
    /// found anew.
    pub open spec fn rendered(self) -> PpuView {
        match self.stat.shown_mode() {
            StatMode::OamRead => PpuView { sprites: Seq::empty(), ..self }.sprites_found(),
            StatMode::Hblank => {
                let counter = if self.lcdc.window_on() && self.ly >= self.wy
                    && self.wx.wrapping_sub(7) <= 159 {
                    self.window_line_counter.wrapping_add(1)
                } else {
                    self.window_line_counter
                };
                PpuView { window_line_counter: counter, ..self.line_drawn() }
            },
            StatMode::Vblank => PpuView {
                frame_buffer: FrameView { ready: true, ..self.frame_buffer },
                window_line_counter: 0,
                ..self
            },
            StatMode::OamScan => self,
        }
    }

    /// A line never shows more than ten sprites: what is drawn on entering the mode that reads
    /// the sprite table leaves no more.
    pub proof fn law_ten_sprites_to_a_line(self)
        requires
            self.stat.shown_mode() == StatMode::OamRead,
        ensures
            self.rendered().sprites.len() <= 10,
    {
        let cleared = PpuView { sprites: Seq::empty(), ..self };
        cleared.lemma_room_for_ten(40);
        law_sort_by_x(cleared.line_sprites(40), 0);
    }

    proof fn lemma_room_for_ten(self, n: nat)
        requires
            self.sprites.len() <= 10,
        ensures
            self.line_sprites(n).len() <= 10,
        decreases n,
    {
        if n > 0 {
            self.lemma_room_for_ten((n - 1) as nat);
        }
    }

    /// Drawing a line leaves the pixels of all other lines alone.
    pub proof fn law_drawing_touches_one_line(self, k: int)
        requires
            self.wf(),
            0 <= k < LCD_WIDTH * LCD_HEIGHT,
            k / 160 != self.ly,
        ensures
            self.line_drawn().frame_buffer.data[k] == self.frame_buffer.data[k],
    {
    }
}

impl Ppu {
    /// Draws what is due on entering the mode that the status shows.
    pub fn render(&mut self)
        requires
            old(self).wf(),
            old(self)@.stat.shown_mode() == StatMode::Hblank ==> old(self)@.ly < LCD_HEIGHT,
        ensures
            final(self)@ == old(self)@.rendered(),
            final(self).wf(),
    {
        match self.stat.mode() {
            StatMode::OamRead => {
                self.sprites.clear();
                assert(self@ =~= PpuView { sprites: Seq::empty(), ..old(self)@ });
                self.find_visible_sprites();
            },
            StatMode::Hblank => {
                self.render_scanline();
                let window_drawn = self.lcdc.window_display_enable() && self.ly >= self.wy
                    && self.wx.wrapping_sub(7) <= 159;
                if window_drawn {
                    self.window_line_counter = self.window_line_counter.wrapping_add(1);
                }
            },
            StatMode::Vblank => {
                self.frame_buffer.ready = true;
                self.window_line_counter = 0;
            },
            StatMode::OamScan => {},
        }
        assert(self@ =~= old(self)@.rendered());
    }

    /// Finds the sprites of the current line and adds them to those so far.
    pub fn find_visible_sprites(&mut self)
        requires
            old(self).wf(),
        ensures
            final(self)@ == old(self)@.sprites_found(),
            final(self).wf(),
    {
        let scanline = self.ly;
        let height: u8 = if self.lcdc.sprite_size() { 16 } else { 8 };
        let ghost start = *self;
        let mut i: usize = 0;
        while i < 40
            invariant
                i <= 40,
                self.wf(),
                start == *old(self),
                self@ == (PpuView { sprites: start@.line_sprites(i as nat), ..start@ }),
                scanline == start@.ly,
                height == start@.lcdc.sprite_height(),
            decreases 40 - i,
        {
            let sprite = Sprite {
                y: self.oam[4 * i],
                x: self.oam[4 * i + 1],
                tile_number: self.oam[4 * i + 2],
                attr: self.oam[4 * i + 3],
            };
            if sprite.visible_on(scanline, height) && self.sprites.len() < 10 {
                self.sprites.push(sprite);
            }
            i = i + 1;
            assert(self@ =~= PpuView { sprites: start@.line_sprites(i as nat), ..start@ });
        }
        if !self.cgb || self.opri & 1 != 0 {
            self.sprites = sort_sprites(&self.sprites);
        }
        assert(self@ =~= old(self)@.sprites_found());
    }

    /// Draws the current line.
    pub fn render_scanline(&mut self)
        requires
            old(self).wf(),
            old(self)@.ly < LCD_HEIGHT,
        ensures
            final(self)@ == old(self)@.line_drawn(),
            final(self).wf(),
    {
        let scanline = self.ly;
        let ghost start = self@;
        let mut column: u8 = 0;
        while column < 160
            invariant
                column <= 160,
                self.wf(),
                start.wf(),
                scanline == start.ly < LCD_HEIGHT,
                self@ == (PpuView { frame_buffer: self@.frame_buffer, ..start }),
                self@.frame_buffer.ready == start.frame_buffer.ready,
                self@.frame_buffer.data.len() == start.frame_buffer.data.len(),
                forall|k: int|
                    0 <= k < start.frame_buffer.data.len() ==> #[trigger] self@.frame_buffer.data[k]
                        == if 160 * start.ly <= k < 160 * start.ly + column {
                        start.line_pixel((k - 160 * start.ly) as u8)
                    } else {
                        start.frame_buffer.data[k]
                    },
            decreases 160 - column,
        {
            let (mut pixel, stays, color) = self.fetch_back_pixel(column);
            if self.lcdc.sprite_enable() {
                match self.fetch_sprite_pixel_data(column) {
                    Some((sprite_pixel, over)) => {
                        if color == 0 || (!stays && over) {
                            pixel = sprite_pixel;
                        }
                    },
                    None => {},
                }
            }
            proof {
                lemma_same_pixels(self@, start, column);
            }
            assert(pixel == start.line_pixel(column));
            self.frame_buffer.write(column as usize, scanline as usize, pixel);
            column = column + 1;
        }
        assert(self@.frame_buffer.data =~= start.line_drawn().frame_buffer.data);
        assert(self@ =~= start.line_drawn());
    }

    /// Background or window at a column of the current line.
    fn fetch_back_pixel(&self, column: u8) -> (r: (GameboyRgb, bool, u8))
        requires
            self.wf(),
        ensures
            r == self@.back_pixel(column),
    {
        let bg_first = self.lcdc.bg_priority();
        if bg_first || self.cgb {
            let edge: u8 = self.wx.wrapping_sub(7);
            let in_window = self.lcdc.window_display_enable() && self.ly >= self.wy && column
                >= edge;
            let (pixel, stays, color) = if in_window {
                self.fetch_bg_pixel_data(
                    column - edge,
                    self.window_line_counter,
                    self.lcdc.window_tile_map(),
                )
            } else {
                self.fetch_bg_pixel_data(
                    column.wrapping_add(self.scx),
                    self.ly.wrapping_add(self.scy),
                    self.lcdc.bg_tile_map(),
                )
            };
            (pixel, bg_first && stays, color)
        } else {
            (dmg_color(0), false, 0)
        }
    }

    /// The background at a position of one of its maps.
    pub fn fetch_bg_pixel_data(&self, bg_pixel_x: u8, bg_pixel_y: u8, tile_map_base: u16) -> (r: (
        GameboyRgb,
        bool,
        u8,
    ))
        requires
            self.wf(),
            tile_map_base == 0x9800 || tile_map_base == 0x9C00,
        ensures
            r == self@.bg_pixel(bg_pixel_x, bg_pixel_y, tile_map_base),
    {
        let cell: u16 = tile_map_base + 32 * ((bg_pixel_y / 8) as u16) + (bg_pixel_x / 8) as u16;
        let number = self.vram.read_bank(0, cell);
        let attr: u8 = if self.cgb { self.vram.read_bank(1, cell) } else { 0 };
        let bank: u8 = if attr & 0x08 != 0 { 1 } else { 0 };
        let tile: usize = if self.lcdc.bg_tile_data_select() && number <= 127 {
            number as usize + 256
        } else {
            number as usize
        };
        let mut x: u8 = bg_pixel_x % 8;
        let mut y: u8 = bg_pixel_y % 8;
        if attr & 0x20 != 0 {
            x = 7 - x;
        }
        if attr & 0x40 != 0 {
            y = 7 - y;
        }
        let color = self.vram.read_tile_pixel(bank, tile, x, y);
        proof {
            law_texel_is_color_index(self@.vram, bank * BANK_TEXELS + 64 * tile + 8 * y + x);
        }
        let pixel = self.fetch_pixel_from_color_index(color, attr % 8, false);
        (pixel, self.cgb && attr & 0x80 != 0, color)
    }

    /// The pixel of the first sprite that shows at this column of the current line, and
    /// whether it goes over the background.
    pub fn fetch_sprite_pixel_data(&self, pixel: u8) -> (r: Option<(GameboyRgb, bool)>)
        requires
            self.wf(),
        ensures
            r == self@.sprite_pixel_from(pixel, 0),
    {
        let mut i: usize = 0;
        while i < self.sprites.len()
            invariant
                i <= self.sprites@.len(),
                self.wf(),
                self@.sprite_pixel_from(pixel, 0) == self@.sprite_pixel_from(pixel, i as int),
            decreases self.sprites@.len() - i,
        {
            let sprite = self.sprites[i];
            if sprite.covers(pixel) {
                let color = self.fetch_sprite_color(sprite, pixel);
                if color != 0 {
                    let palette: u8 = if self.cgb {
                        sprite.attr % 8
                    } else if sprite.attr & 0x10 != 0 {
                        1
                    } else {
                        0
                    };
                    let data = self.fetch_pixel_from_color_index(color, palette, true);
                    return Some((data, sprite.attr & 0x80 == 0));
                }
            }
            i = i + 1;
        }
        None
    }

    /// The color of a sprite at a column that it covers.
    fn fetch_sprite_color(&self, sprite: Sprite, column: u8) -> (r: u8)
        requires
            self.wf(),
            sprite.on_column(column),
        ensures
            r == self@.sprite_color(sprite, column),
            r < 4,
    {
        let tall = self.lcdc.sprite_size();
        let bank: u8 = if self.cgb && sprite.attr & 0x08 != 0 { 1 } else { 0 };
        let mut x: u8 = column.wrapping_sub(sprite.x.wrapping_sub(8));
        let mut y: u8 = self.ly.wrapping_sub(sprite.y.wrapping_sub(16));
        if sprite.attr & 0x40 != 0 {
            let last: u8 = if tall { 15 } else { 7 };
            y = last.wrapping_sub(y);
        }
        if sprite.attr & 0x20 != 0 {
            x = 7 - x;
        }
        let lower = y >= 8;
        if lower {
            y = y - 8;
        }
        let number = sprite.tile_number as usize;
        let tile: usize = if !tall {
            number
        } else if !lower {
            number - number % 2
        } else {
            number - number % 2 + 1
        };
        proof {
            law_texel_is_color_index(self@.vram, bank * BANK_TEXELS + 64 * tile + 8 * y + x);
        }
        self.vram.read_tile_pixel(bank, tile, x, y)
    }

    /// The pixel that a palette gives to a color.
    pub fn fetch_pixel_from_color_index(
        &self,
        color_index: u8,
        tile_palette_num: u8,
        sprite: bool,
    ) -> (r: GameboyRgb)
        requires
            self.wf(),
            color_index < 4,
            tile_palette_num < 8,
        ensures
            r == self@.pixel_of(color_index, tile_palette_num, sprite),
    {
        if self.cgb {
            let at: usize = 8 * (tile_palette_num as usize) + 2 * (color_index as usize);
            let (low, high): (u8, u8) = if sprite {
                (self.sprite_palette_ram[at], self.sprite_palette_ram[at + 1])
            } else {
                (self.bg_palette_ram[at], self.bg_palette_ram[at + 1])
            };
            let c: u16 = low as u16 + 256 * (high as u16);
            let mut pixel = GameboyRgb {
                red: (c % 32) as u8,
                green: ((c / 32) % 32) as u8,
                blue: ((c / 1024) % 32) as u8,
            };
            pixel.scale_to_rgb();
            pixel
        } else {
            let reg: u8 = if !sprite {
                self.bgp
            } else if tile_palette_num == 0 {
                self.obp0
            } else {
                self.obp1
            };
            let shade: u8 = if color_index == 0 {
                reg % 4
            } else if color_index == 1 {
                (reg / 4) % 4
            } else if color_index == 2 {
                (reg / 16) % 4
            } else {
                reg / 64
            };
            dmg_color(shade)
        }
    }
}

/// The pixels of a line do not depend on the frame that is drawn into.
proof fn lemma_same_pixels(a: PpuView, b: PpuView, column: u8)
    requires
        a == (PpuView { frame_buffer: a.frame_buffer, ..b }),
    ensures
        a.line_pixel(column) == b.line_pixel(column),
{
    lemma_same_sprites(a, b, column, 0);
}

proof fn lemma_same_sprites(a: PpuView, b: PpuView, column: u8, i: int)
    requires
        a == (PpuView { frame_buffer: a.frame_buffer, ..b }),
    ensures
        a.sprite_pixel_from(column, i) == b.sprite_pixel_from(column, i),
    decreases a.sprites.len() - i,
{
    if 0 <= i < a.sprites.len() {
        lemma_same_sprites(a, b, column, i + 1);
    }
}

} // verus!
