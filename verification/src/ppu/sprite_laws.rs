//! Which sprites are drawn on a line, and where they are seen.
use vstd::prelude::*;

use crate::bits::{bit, lemma_mask_tests_bit};
use crate::ppu::picture_laws::{is_color, is_shade, tile_color};
use crate::ppu::sprites::{in_column, law_sort_by_x, ordered_by_x, Sprite};
use crate::ppu::PpuView;

verus! {

impl PpuView {
    /// Rows of a sprite: sixteen with bit 2 of the control register, else eight.
    pub open spec fn sprite_rows(self) -> int {
        if bit(self.lcdc.raw, 2) {
            16
        } else {
            8
        }
    }

    /// Row of a sprite that lies on the current line, from its upper edge, which is sixteen
    /// lines above its coordinate.
    pub open spec fn sprite_row(self, s: Sprite) -> int {
        self.ly + 16 - s.y
    }

    /// The current line crosses the sprite.
    pub open spec fn crosses(self, s: Sprite) -> bool {
        0 <= self.sprite_row(s) < self.sprite_rows()
    }

    /// The color of a sprite at a column, zero where it does not reach: its left edge is eight
    /// columns left of its coordinate. Bit 5 of the attributes mirrors it sideways, bit 6
    /// upside down, bit 3 takes it from the second bank of a color machine. A sprite of
    /// sixteen rows is an even tile over the odd one behind it.
    pub open spec fn sprite_digit(self, s: Sprite, column: int) -> int {
        let from_left = column + 8 - s.x;
        let x = if bit(s.attr, 5) { 7 - from_left } else { from_left };
        let row = self.sprite_row(s);
        let y = if bit(s.attr, 6) { self.sprite_rows() - 1 - row } else { row };
        let tile = if bit(self.lcdc.raw, 2) {
            2 * (s.tile_number as int / 2) + y / 8
        } else {
            s.tile_number as int
        };
        let bank = if self.cgb && bit(s.attr, 3) { self.vram.bank1 } else { self.vram.bank0 };
        if 0 <= from_left < 8 {
            tile_color(bank, tile, y % 8, x)
        } else {
            0
        }
    }

    /// All sprites of the line lie on it.
    pub open spec fn sprites_lie_on_line(self) -> bool {
        forall|k: int| 0 <= k < self.sprites.len() ==> self.crosses(#[trigger] self.sprites[k])
    }

    /// The background or the window goes over the sprite: only where it has a color other
    /// than zero, and if bit 7 of the sprite's attributes asks for it, or bit 7 of the tile's
    /// while bit 0 of the control register is set.
    pub open spec fn behind(self, s: Sprite, column: int) -> bool {
        &&& self.cgb || bit(self.lcdc.raw, 0)
        &&& self.map_color(column) != 0
        &&& bit(s.attr, 7) || (bit(self.lcdc.raw, 0) && bit(self.map_attributes(column), 7))
    }

    /// A column shows the first sprite of the line that has a color other than zero there,
    /// unless the background goes over it. A color machine takes the palette from bits 0 to 2
    /// of the attributes, a monochrome one chooses between two by bit 4.
    pub proof fn law_first_sprite_is_seen(self, i: int, column: int)
        requires
            self.on_screen(column),
            bit(self.lcdc.raw, 1),
            self.sprites_lie_on_line(),
            0 <= i < self.sprites.len(),
            self.sprite_digit(self.sprites[i], column) != 0,
            forall|j: int|
                0 <= j < i ==> self.sprite_digit(#[trigger] self.sprites[j], column) == 0,
        ensures
            ({
                let s = self.sprites[i];
                let color = self.sprite_digit(s, column);
                let at = 8 * (s.attr as int % 8) + 2 * color;
                let p = self.shown(column);
                &&& self.behind(s, column) ==> p == (PpuView {
                    sprites: Seq::empty(),
                    ..self
                }).shown(column)
                &&& !self.behind(s, column) && self.cgb ==> is_color(
                    p,
                    self.sprite_palette_ram[at],
                    self.sprite_palette_ram[at + 1],
                )
                &&& !self.behind(s, column) && !self.cgb ==> is_shade(
                    p,
                    if bit(s.attr, 4) { self.obp1 } else { self.obp0 },
                    color,
                )
            }),
    {
        let c = column as u8;
        let s = self.sprites[i];
        let bare = PpuView { sprites: Seq::empty(), ..self };
        lemma_mask_tests_bit(self.lcdc.raw);
        lemma_mask_tests_bit(s.attr);
        self.lemma_first_from(c, 0, i);
        self.lemma_digit(s, c);
        self.lemma_back(column);
        bare.lemma_plain(column);
        assert(bare.back_pixel(c) == self.back_pixel(c));
        assert(self.shown(column) == self.line_pixel(c));
        let color = self.sprite_digit(s, column);
        self.lemma_pixel(color as u8, self.sprite_palette(s), true);
    }

    /// A column in which every sprite of the line has color zero shows what it would without
    /// them.
    pub proof fn law_color_zero_is_transparent(self, column: int)
        requires
            self.on_screen(column),
            self.sprites_lie_on_line(),
            forall|j: int|
                0 <= j < self.sprites.len() ==> self.sprite_digit(
                    #[trigger] self.sprites[j],
                    column,
                ) == 0,
        ensures
            self.shown(column) == (PpuView { sprites: Seq::empty(), ..self }).shown(column),
    {
        let c = column as u8;
        let bare = PpuView { sprites: Seq::empty(), ..self };
        self.lemma_none_from(c, 0);
        bare.lemma_plain(column);
        assert(bare.back_pixel(c) == self.back_pixel(c));
        assert(self.shown(column) == self.line_pixel(c));
    }

    proof fn lemma_first_from(self, column: u8, from: int, i: int)
        requires
            self.wf(),
            self.sprites_lie_on_line(),
            0 <= from <= i < self.sprites.len(),
            self.sprite_digit(self.sprites[i], column as int) != 0,
            forall|j: int|
                0 <= j < i ==> self.sprite_digit(#[trigger] self.sprites[j], column as int) == 0,
        ensures
            self.sprite_pixel_from(column, from) == self.sprite_pixel_from(column, i),
        decreases i - from,
    {
        if from < i {
            self.lemma_digit(self.sprites[from], column);
            self.lemma_first_from(column, from + 1, i);
        }
    }

    proof fn lemma_none_from(self, column: u8, from: int)
        requires
            self.wf(),
            self.sprites_lie_on_line(),
            0 <= from <= self.sprites.len(),
            forall|j: int|
                0 <= j < self.sprites.len() ==> self.sprite_digit(
                    #[trigger] self.sprites[j],
                    column as int,
                ) == 0,
        ensures
            self.sprite_pixel_from(column, from) is None,
        decreases self.sprites.len() - from,
    {
        if from < self.sprites.len() {
            self.lemma_digit(self.sprites[from], column);
            self.lemma_none_from(column, from + 1);
        }
    }

    /// The color of a sprite at a column.
    proof fn lemma_digit(self, s: Sprite, column: u8)
        requires
            self.wf(),
            self.crosses(s),
        ensures
            s.on_column(column) == (0 <= column + 8 - s.x < 8),
            s.on_column(column) ==> self.sprite_color(s, column) == self.sprite_digit(
                s,
                column as int,
            ),
            0 <= self.sprite_digit(s, column as int) < 4,
    {
        if s.on_column(column) {
            lemma_mask_tests_bit(self.lcdc.raw);
            lemma_mask_tests_bit(s.attr);
            let row = self.sprite_row(s);
            assert(self.ly.wrapping_sub(s.y.wrapping_sub(16)) == row);
            let rows = self.sprite_rows();
            assert(self.lcdc.sprite_height() == rows);
            let y = if bit(s.attr, 6) { rows - 1 - row } else { row };
            let from_left = column + 8 - s.x;
            let x = if bit(s.attr, 5) { 7 - from_left } else { from_left };
            let n = s.tile_number as int;
            let tile = if rows == 16 { 2 * (n / 2) + y / 8 } else { n };
            assert(n - n % 2 == 2 * (n / 2));
            assert(y % 8 == if y >= 8 { y - 8 } else { y });
            crate::ppu::picture_laws::lemma_texel(
                self.vram,
                self.cgb && bit(s.attr, 3),
                tile,
                y % 8,
                x,
            );
        }
    }
}

impl PpuView {
    /// An entry of the sprite table: four bytes, the line, the column, the tile and the
    /// attributes.
    pub open spec fn entry(self, i: int) -> Sprite {
        Sprite {
            y: self.oam[4 * i],
            x: self.oam[4 * i + 1],
            tile_number: self.oam[4 * i + 2],
            attr: self.oam[4 * i + 3],
        }
    }

    /// How many of the first `n` entries the current line crosses.
    pub open spec fn crossed(self, n: nat) -> nat
        decreases n,
    {
        if n == 0 {
            0
        } else if self.crosses(self.entry(n - 1)) {
            self.crossed((n - 1) as nat) + 1
        } else {
            self.crossed((n - 1) as nat)
        }
    }

    /// On entering mode three, the sprites of the line are the first ten entries of the table
    /// that the line crosses. A color machine keeps them in the order of the table unless bit
    /// 0 of its priority register is set; else they are ordered by column, and those of one
    /// column stay in order.
    pub proof fn law_sprites_of_a_line(self, x: u8)
        requires
            self.wf(),
            self.ly < 144,
            self.stat.raw % 4 == 3,
        ensures
            ({
                let s = self.rendered();
                let plain = (PpuView { cgb: true, opri: 0, ..self }).rendered().sprites;
                let all = self.crossed(40);
                &&& s.sprites.len() == (if all < 10 { all } else { 10 })
                &&& s.sprites_lie_on_line()
                &&& s == (PpuView { sprites: s.sprites, ..self })
                &&& forall|i: int|
                    0 <= i < 40 && self.crosses(#[trigger] self.entry(i)) && self.crossed(i as nat)
                        < 10 ==> plain[self.crossed(i as nat) as int] == self.entry(i)
                &&& self.cgb && !bit(self.opri, 0) ==> s.sprites == plain
                &&& !self.cgb || bit(self.opri, 0) ==> {
                    &&& ordered_by_x(s.sprites)
                    &&& s.sprites.to_multiset() == plain.to_multiset()
                    &&& in_column(s.sprites, x) == in_column(plain, x)
                }
            }),
    {
        let s = self.rendered();
        let cleared = PpuView { sprites: Seq::empty(), ..self };
        let other = PpuView { cgb: true, opri: 0, sprites: Seq::empty(), ..self };
        let found = cleared.line_sprites(40);
        lemma_mask_tests_bit(self.opri);
        lemma_mask_tests_bit(0);
        cleared.lemma_found(self, 40);
        cleared.lemma_same_found(other, 40);
        assert((PpuView { cgb: true, opri: 0, ..self }).rendered() == other.sprites_found());
        law_sort_by_x(found, x);
        assert forall|k: int| 0 <= k < s.sprites.len() implies s.crosses(
            #[trigger] s.sprites[k],
        ) by {
            if s.sprites != found {
                s.sprites.to_multiset_ensures();
                found.to_multiset_ensures();
                assert(s.sprites.to_multiset().count(s.sprites[k]) > 0);
                assert(found.contains(s.sprites[k]));
            }
        }
    }

    proof fn lemma_same_found(self, other: PpuView, n: nat)
        requires
            other == (PpuView { cgb: other.cgb, opri: other.opri, ..self }),
        ensures
            self.line_sprites(n) == other.line_sprites(n),
        decreases n,
    {
        if n > 0 {
            self.lemma_same_found(other, (n - 1) as nat);
        }
    }

    proof fn lemma_found(self, full: PpuView, n: nat)
        requires
            self == (PpuView { sprites: Seq::empty(), ..full }),
            full.ly < 144,
            n <= 40,
        ensures
            ({
                let found = self.line_sprites(n);
                &&& found.len() == (if full.crossed(n) < 10 { full.crossed(n) } else { 10 })
                &&& forall|k: int| 0 <= k < found.len() ==> full.crosses(#[trigger] found[k])
                &&& forall|i: int|
                    0 <= i < n && full.crosses(#[trigger] full.entry(i)) && full.crossed(i as nat)
                        < 10 ==> full.crossed(i as nat) < found.len() && found[full.crossed(
                        i as nat,
                    ) as int] == full.entry(i)
            }),
        decreases n,
    {
        if n > 0 {
            self.lemma_found(full, (n - 1) as nat);
            let sprite = self.table_sprite(n - 1);
            lemma_mask_tests_bit(self.lcdc.raw);
            sprite.law_on_line_of_screen(self.ly, self.lcdc.sprite_height());
            assert(sprite == full.entry(n - 1));
        }
    }

    /// On entering mode zero the line is drawn, one pixel for each of its columns, and the
    /// rest of the frame stays. The window moves on by a line if it was on, had begun and
    /// reached the screen.
    pub proof fn law_line_is_drawn(self, k: int)
        requires
            self.wf(),
            self.ly < 144,
            self.stat.raw % 4 == 0,
            0 <= k < 160 * 144,
        ensures
            ({
                let s = self.rendered();
                let window = bit(self.lcdc.raw, 5) && self.ly >= self.wy && 7 <= self.wx <= 166;
                &&& k / 160 == self.ly ==> s.frame_buffer.data[k] == self.shown(k % 160)
                &&& k / 160 != self.ly ==> s.frame_buffer.data[k] == self.frame_buffer.data[k]
                &&& s.frame_buffer.ready == self.frame_buffer.ready
                &&& s.window_line_counter == (if window {
                    (self.window_line_counter + 1) % 256
                } else {
                    self.window_line_counter as int
                })
                &&& s == (PpuView {
                    frame_buffer: s.frame_buffer,
                    window_line_counter: s.window_line_counter,
                    ..self
                })
            }),
    {
        lemma_mask_tests_bit(self.lcdc.raw);
        assert(k == 160 * (k / 160) + k % 160);
    }

    /// On entering the blank the frame is complete, and the window starts again; on entering
    /// mode two nothing is drawn.
    pub proof fn law_frame_is_complete_in_blank(self)
        ensures
            self.stat.raw % 4 == 2 ==> self.rendered() == self,
            self.stat.raw % 4 == 1 ==> {
                let s = self.rendered();
                &&& s.frame_buffer.ready
                &&& s.frame_buffer.data == self.frame_buffer.data
                &&& s.window_line_counter == 0
                &&& s == (PpuView {
                    frame_buffer: s.frame_buffer,
                    window_line_counter: 0,
                    ..self
                })
            },
    {
    }

    /// A step draws exactly when it changes the mode that bits 0 and 1 of the status show.
    pub proof fn law_drawing_on_entry(self, cycles: u16, speed: bool)
        requires
            bit(self.lcdc.raw, 7),
        ensures
            ({
                let s = self.stepped(cycles, speed);
                let same = PpuView {
                    frame_buffer: self.frame_buffer,
                    window_line_counter: self.window_line_counter,
                    sprites: self.sprites,
                    ..s
                };
                &&& s.stat.raw % 4 == self.stat.raw % 4 ==> s == same
                &&& s.stat.raw % 4 != self.stat.raw % 4 ==> s == same.rendered()
            }),
    {
        lemma_mask_tests_bit(self.lcdc.raw);
        let mode = self.next_dot(cycles, speed).2;
        let moved = self.moved(cycles, speed);
        moved.stat.law_shows_mode(mode, moved.ly == moved.lyc);
        let s = self.stepped(cycles, speed);
        assert(s.stat.shown_mode() == mode);
        assert(moved.status_updated(mode).stat == s.stat);
    }
}

} // verus!
