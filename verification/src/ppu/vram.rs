//! Video memory.
//!
//! Two banks of tile data and tile maps. The unit keeps every tile decoded, one byte to
//! a pixel, and decodes a tile anew whenever one of its bytes is written.
use vstd::prelude::*;

use crate::codec::{
    flag_at, flag_byte, found_at, lemma_found_split, put_bytes, put_flag, take_bytes, take_flag,
    take_u8,
};
use crate::error::Error;

verus! {

pub const BANK_SIZE: usize = 0x2000;

/// Bytes of tile data in a bank; the tile maps lie behind it.
pub const TILE_DATA_SIZE: usize = 0x1800;

pub const TILES_PER_BANK: usize = 384;

/// Pixels of a tile.
pub const TILE_CACHE_STRIDE: usize = 64;

/// Pixels of all tiles of a bank.
pub const BANK_TEXELS: usize = 24576;

/// Pixels of all tiles.
pub const CACHE_SIZE: usize = 49152;

/// Video memory.
pub struct Vram {
    pub bank0: Vec<u8>,
    pub bank1: Vec<u8>,
    /// The decoded tiles of both banks.
    pub tile_cache: Vec<u8>,
    pub active_bank: u8,
    pub cgb: bool,
}

/// What a video memory holds. The decoded tiles are no part of it: they follow from the
/// banks.
#[verifier::ext_equal]
pub struct VramView {
    pub bank0: Seq<u8>,
    pub bank1: Seq<u8>,
    pub active_bank: u8,
    pub cgb: bool,
}

impl View for Vram {
    type V = VramView;

    open spec fn view(&self) -> VramView {
        VramView {
            bank0: self.bank0@,
            bank1: self.bank1@,
            active_bank: self.active_bank,
            cgb: self.cgb,
        }
    }
}

/// The color of a pixel of a tile row: bit `7 - x` of the two bytes of the row, the second
/// byte giving the higher digit.
pub open spec fn row_texel(low: u8, high: u8, x: int) -> u8 {
    (2 * ((high >> ((7 - x) as u8)) & 1u8) + ((low >> ((7 - x) as u8)) & 1u8)) as u8
}

/// The color of pixel `n` of the tiles in `bank`: sixty-four to a tile, eight to a row.
pub open spec fn bank_texel(bank: Seq<u8>, n: int) -> u8 {
    let row = 16 * (n / 64) + 2 * ((n % 64) / 8);
    row_texel(bank[row], bank[row + 1], n % 8)
}

proof fn lemma_low_bit(v: u8)
    by (bit_vector)
    ensures
        v & 1 <= 1,
{
}

impl VramView {
    /// Bytes of the stored form.
    pub open spec fn spec_len() -> int {
        16386
    }

    /// Both banks are whole, and one of them is active.
    pub open spec fn wf(self) -> bool {
        self.bank0.len() == BANK_SIZE && self.bank1.len() == BANK_SIZE && self.active_bank <= 1
    }

    pub open spec fn zero(cgb: bool) -> VramView {
        VramView {
            bank0: Seq::new(BANK_SIZE as nat, |i: int| 0u8),
            bank1: Seq::new(BANK_SIZE as nat, |i: int| 0u8),
            active_bank: 0,
            cgb,
        }
    }

    pub open spec fn bank(self, bank: int) -> Seq<u8> {
        if bank == 0 {
            self.bank0
        } else {
            self.bank1
        }
    }

    /// The color of pixel `n` of the tiles of both banks.
    pub open spec fn texel(self, n: int) -> u8 {
        if n < BANK_TEXELS {
            bank_texel(self.bank0, n)
        } else {
            bank_texel(self.bank1, n - BANK_TEXELS)
        }
    }

    /// The byte at `addr` in the active bank.
    pub open spec fn byte(self, addr: u16) -> u8 {
        self.bank(self.active_bank as int)[addr - 0x8000]
    }

    /// The memory after `value` was written to `addr`.
    pub open spec fn written(self, addr: u16, value: u8) -> VramView {
        if self.active_bank == 0 {
            VramView { bank0: self.bank0.update(addr - 0x8000, value), ..self }
        } else {
            VramView { bank1: self.bank1.update(addr - 0x8000, value), ..self }
        }
    }

    /// The memory after a write to the bank register, which only a color machine has.
    pub open spec fn bank_selected(self, value: u8) -> VramView {
        if self.cgb {
            VramView { active_bank: value % 2, ..self }
        } else {
            self
        }
    }

    /// The stored form: both banks, the active bank, the machine's kind.
    pub open spec fn encode(self) -> Seq<u8> {
        self.bank0 + self.bank1 + seq![self.active_bank, flag_byte(self.cgb)]
    }

    /// What is stored at `i`.
    pub open spec fn decode(s: Seq<u8>, i: int) -> VramView {
        VramView {
            bank0: s.subrange(i, i + 0x2000),
            bank1: s.subrange(i + 0x2000, i + 0x4000),
            active_bank: s[i + 0x4000],
            cgb: flag_at(s, i + 0x4001),
        }
    }

    /// A byte that is written is read back, from the same bank, and every other byte of
    /// either bank stays.
    pub proof fn law_written_is_read(self, addr: u16, value: u8, other: u16, bank: int)
        requires
            self.wf(),
            0x8000 <= addr <= 0x9FFF,
            0x8000 <= other <= 0x9FFF,
            0 <= bank <= 1,
        ensures
            self.written(addr, value).byte(addr) == value,
            other != addr || bank != self.active_bank ==> self.written(addr, value).bank(
                bank,
            )[other - 0x8000] == self.bank(bank)[other - 0x8000],
    {
    }

    /// A memory that was saved is loaded unchanged.
    pub proof fn law_load_restores_saved(self, s: Seq<u8>, i: int)
        requires
            self.bank0.len() == BANK_SIZE,
            self.bank1.len() == BANK_SIZE,
            found_at(s, i, self.encode()),
        ensures
            self.encode().len() == Self::spec_len(),
            Self::decode(s, i) == self,
    {
        let tail = seq![self.active_bank, flag_byte(self.cgb)];
        lemma_found_split(s, i, self.bank0 + self.bank1, tail);
        lemma_found_split(s, i, self.bank0, self.bank1);
        assert(s.subrange(i, i + 0x2000) =~= self.bank0) by {
            assert forall|k: int| 0 <= k < 0x2000 implies s[i + k] == self.bank0[k] by {}
        }
        assert(s.subrange(i + 0x2000, i + 0x4000) =~= self.bank1) by {
            assert forall|k: int| 0 <= k < 0x2000 implies s[i + 0x2000 + k] == self.bank1[k] by {}
        }
        assert(s[i + 0x4000 + 0] == tail[0]);
        assert(s[i + 0x4000 + 1] == tail[1]);
    }
}

impl Vram {
    pub const BASE_ADDR: u16 = 0x8000;

    pub const LAST_ADDR: u16 = 0x9FFF;

    pub const BANK_SELECT_ADDR: u16 = 0xFF4F;

    /// The banks are whole, and the decoded tiles are those in the banks.
    pub open spec fn wf(&self) -> bool {
        &&& self@.wf()
        &&& self.tile_cache@.len() == CACHE_SIZE
        &&& forall|n: int| 0 <= n < CACHE_SIZE ==> #[trigger] self.tile_cache@[n] == self@.texel(n)
    }

    /// An empty memory.
    pub fn new(cgb: bool) -> (r: Self)
        ensures
            r@ == VramView::zero(cgb),
            r.wf(),
    {
        let r = Self {
            bank0: vec![0u8; BANK_SIZE],
            bank1: vec![0u8; BANK_SIZE],
            tile_cache: vec![0u8; CACHE_SIZE],
            active_bank: 0,
            cgb,
        };
        assert(r@ =~= VramView::zero(cgb));
        proof {
            lemma_zero_shift();
            assert forall|n: int| 0 <= n < CACHE_SIZE implies #[trigger] r.tile_cache@[n]
                == r@.texel(n) by {
                let x = (7 - n % 8) as u8;
                assert((0u8 >> x) & 1u8 == 0);
            }
        }
        r
    }

    /// Writes the bank register.
    pub fn update_bank(&mut self, bank: u8)
        ensures
            final(self)@ == old(self)@.bank_selected(bank),
            old(self).wf() ==> final(self).wf(),
    {
        if !self.cgb {
            return;
        }
        self.active_bank = bank % 2;
    }

    /// Reads a byte of either bank.
    pub fn read_bank(&self, bank: u8, addr: u16) -> (r: u8)
        requires
            self@.wf(),
            0x8000 <= addr <= 0x9FFF,
        ensures
            r == self@.bank(bank as int)[addr - 0x8000],
    {
        let idx: usize = (addr - Self::BASE_ADDR) as usize;
        if bank == 0 {
            self.bank0[idx]
        } else {
            self.bank1[idx]
        }
    }

    /// A run of bytes of either bank.
    pub fn get_bank_slice(&self, bank: u8, start_addr: u16, length: usize) -> (r: &[u8])
        requires
            self@.wf(),
            0x8000 <= start_addr,
            start_addr - 0x8000 + length <= BANK_SIZE,
        ensures
            r@ == self@.bank(bank as int).subrange(
                start_addr - 0x8000,
                start_addr - 0x8000 + length,
            ),
    {
        let start: usize = (start_addr - Self::BASE_ADDR) as usize;
        if bank == 0 {
            vstd::slice::slice_subrange(self.bank0.as_slice(), start, start + length)
        } else {
            vstd::slice::slice_subrange(self.bank1.as_slice(), start, start + length)
        }
    }

    /// The color of a pixel of a tile. Rows and columns over the tile's edge run on into
    /// the pixels that follow.
    pub fn read_tile_pixel(&self, bank: u8, tile_index: usize, tile_x: u8, tile_y: u8) -> (r: u8)
        requires
            self.wf(),
            bank * BANK_TEXELS + 64 * tile_index + 8 * tile_y + tile_x < CACHE_SIZE,
        ensures
            r == self@.texel(bank * BANK_TEXELS + 64 * tile_index + 8 * tile_y + tile_x),
    {
        let idx: usize = bank as usize * BANK_TEXELS + 64 * tile_index + 8 * (tile_y as usize)
            + tile_x as usize;
        self.tile_cache[idx]
    }

    /// Decodes a tile anew.
    fn decode_tile(&mut self, bank: u8, tile_index: usize)
        requires
            old(self)@.bank0.len() == BANK_SIZE,
            old(self)@.bank1.len() == BANK_SIZE,
            old(self).tile_cache@.len() == CACHE_SIZE,
            bank <= 1,
            tile_index < TILES_PER_BANK,
        ensures
            final(self)@ == old(self)@,
            final(self).tile_cache@.len() == CACHE_SIZE,
            forall|n: int|
                0 <= n < CACHE_SIZE ==> #[trigger] final(self).tile_cache@[n] == if n / 64
                    == TILES_PER_BANK * bank + tile_index {
                    old(self)@.texel(n)
                } else {
                    old(self).tile_cache@[n]
                },
    {
        let tile_base: usize = tile_index * 16;
        let cache_base: usize = bank as usize * BANK_TEXELS + tile_index * 64;
        let mut row: usize = 0;
        while row < 8
            invariant
                row <= 8,
                bank <= 1,
                tile_index < TILES_PER_BANK,
                tile_base == 16 * tile_index,
                cache_base == bank * BANK_TEXELS + 64 * tile_index,
                self@ == old(self)@,
                self@.bank0.len() == BANK_SIZE,
                self@.bank1.len() == BANK_SIZE,
                self.tile_cache@.len() == CACHE_SIZE,
                forall|n: int|
                    0 <= n < CACHE_SIZE ==> #[trigger] self.tile_cache@[n] == if cache_base <= n
                        < cache_base + 8 * row {
                        old(self)@.texel(n)
                    } else {
                        old(self).tile_cache@[n]
                    },
            decreases 8 - row,
        {
            let (low, high): (u8, u8) = if bank == 0 {
                (self.bank0[tile_base + 2 * row], self.bank0[tile_base + 2 * row + 1])
            } else {
                (self.bank1[tile_base + 2 * row], self.bank1[tile_base + 2 * row + 1])
            };
            let mut col: usize = 0;
            while col < 8
                invariant
                    col <= 8,
                    row < 8,
                    bank <= 1,
                    tile_index < TILES_PER_BANK,
                    tile_base == 16 * tile_index,
                    cache_base == bank * BANK_TEXELS + 64 * tile_index,
                    self@ == old(self)@,
                    low == self@.bank(bank as int)[tile_base + 2 * row],
                    high == self@.bank(bank as int)[tile_base + 2 * row + 1],
                    self.tile_cache@.len() == CACHE_SIZE,
                    forall|n: int|
                        0 <= n < CACHE_SIZE ==> #[trigger] self.tile_cache@[n] == if cache_base
                            <= n < cache_base + 8 * row + col {
                            old(self)@.texel(n)
                        } else {
                            old(self).tile_cache@[n]
                        },
                decreases 8 - col,
            {
                let bit: u8 = (7 - col) as u8;
                let high_digit: u8 = (high >> bit) & 1;
                let low_digit: u8 = (low >> bit) & 1;
                proof {
                    lemma_low_bit(high >> bit);
                    lemma_low_bit(low >> bit);
                }
                let at: usize = cache_base + 8 * row + col;
                self.tile_cache[at] = 2 * high_digit + low_digit;
                assert(old(self)@.texel(at as int) == row_texel(low, high, col as int)) by {
                    let n = at - bank * BANK_TEXELS;
                    assert(n / 64 == tile_index && (n % 64) / 8 == row && n % 8 == col);
                }
                col = col + 1;
            }
            row = row + 1;
        }
        proof {
            assert forall|n: int| 0 <= n < CACHE_SIZE implies #[trigger] self.tile_cache@[n] == if n
                / 64 == TILES_PER_BANK * bank + tile_index {
                old(self)@.texel(n)
            } else {
                old(self).tile_cache@[n]
            } by {
                assert((n / 64 == TILES_PER_BANK * bank + tile_index) == (cache_base <= n
                    < cache_base + 64));
            }
        }
    }

    /// Decodes all tiles anew.
    fn rebuild_cache(&mut self)
        requires
            old(self)@.bank0.len() == BANK_SIZE,
            old(self)@.bank1.len() == BANK_SIZE,
            old(self).tile_cache@.len() == CACHE_SIZE,
        ensures
            final(self)@ == old(self)@,
            final(self)@.wf() ==> final(self).wf(),
    {
        let mut done: usize = 0;
        while done < 2 * TILES_PER_BANK
            invariant
                done <= 2 * TILES_PER_BANK,
                self@ == old(self)@,
                self@.bank0.len() == BANK_SIZE,
                self@.bank1.len() == BANK_SIZE,
                self.tile_cache@.len() == CACHE_SIZE,
                forall|n: int|
                    0 <= n < 64 * done ==> #[trigger] self.tile_cache@[n] == self@.texel(n),
            decreases 2 * TILES_PER_BANK - done,
        {
            if done < TILES_PER_BANK {
                self.decode_tile(0, done);
            } else {
                self.decode_tile(1, done - TILES_PER_BANK);
            }
            done = done + 1;
        }
    }

    /// Reads a byte of the active bank.
    pub fn read(&self, addr: u16) -> (r: u8)
        requires
            self@.wf(),
            0x8000 <= addr <= 0x9FFF,
        ensures
            r == self@.byte(addr),
    {
        let idx: usize = (addr - Self::BASE_ADDR) as usize;
        if self.active_bank == 0 {
            self.bank0[idx]
        } else {
            self.bank1[idx]
        }
    }

    /// Writes a byte of the active bank.
    pub fn write(&mut self, addr: u16, value: u8)
        requires
            old(self).wf(),
            0x8000 <= addr <= 0x9FFF,
        ensures
            final(self)@ == old(self)@.written(addr, value),
            final(self).wf(),
    {
        let idx: usize = (addr - Self::BASE_ADDR) as usize;
        let bank = self.active_bank;
        if bank == 0 {
            self.bank0[idx] = value;
        } else {
            self.bank1[idx] = value;
        }
        assert(self@ =~= old(self)@.written(addr, value));
        let ghost v = self@;
        proof {
            assert forall|n: int| 0 <= n < CACHE_SIZE && n / 64 != TILES_PER_BANK * bank + idx as int
                / 16 implies #[trigger] self.tile_cache@[n] == v.texel(n) by {
                assert(old(self).tile_cache@[n] == old(self)@.texel(n));
                let m = if n < BANK_TEXELS { n } else { n - BANK_TEXELS };
                assert(16 * (m / 64) + 2 * ((m % 64) / 8) + 1 < 16 * (m / 64) + 16);
            }
        }
        if idx < TILE_DATA_SIZE {
            self.decode_tile(bank, idx / 16);
        }
    }

    /// The banks are whole, and one of them is active.
    pub fn is_consistent(&self) -> (r: bool)
        ensures
            r == self@.wf(),
    {
        self.bank0.len() == BANK_SIZE && self.bank1.len() == BANK_SIZE && self.active_bank <= 1
    }

    /// Appends the stored form.
    pub fn save_to_bytes(&self, buf: &mut Vec<u8>)
        ensures
            final(buf)@ == old(buf)@ + self@.encode(),
    {
        put_bytes(buf, self.bank0.as_slice());
        put_bytes(buf, self.bank1.as_slice());
        buf.push(self.active_bank);
        put_flag(buf, self.cgb);
        assert(buf@ =~= old(buf)@ + self@.encode());
    }

    /// Restores a memory that is stored at the cursor. It is valid if the stored active
    /// bank exists.
    pub fn load_from_bytes(data: &[u8], pos: &mut usize) -> (r: Result<Self, Error>)
        requires
            *old(pos) + VramView::spec_len() <= data@.len(),
        ensures
            r matches Ok(v) && v@ == VramView::decode(data@, *old(pos) as int) && (v@.wf()
                ==> v.wf()),
            *final(pos) == *old(pos) + VramView::spec_len(),
    {
        let bank0 = take_bytes(data, pos, BANK_SIZE);
        let bank1 = take_bytes(data, pos, BANK_SIZE);
        let active_bank = take_u8(data, pos);
        let cgb = take_flag(data, pos);
        let mut vram = Self {
            bank0,
            bank1,
            tile_cache: vec![0u8; CACHE_SIZE],
            active_bank,
            cgb,
        };
        assert(vram@ =~= VramView::decode(data@, *old(pos) as int));
        vram.rebuild_cache();
        Ok(vram)
    }
}

proof fn lemma_zero_shift()
    by (bit_vector)
    ensures
        forall|x: u8| #[trigger] (0u8 >> x) & 1u8 == 0,
{
}

/// The color of a tile's pixel is one of four.
pub proof fn law_texel_is_color_index(v: VramView, n: int)
    ensures
        v.texel(n) < 4,
{
    let m = if n < BANK_TEXELS { n } else { n - BANK_TEXELS };
    let bank = if n < BANK_TEXELS { v.bank0 } else { v.bank1 };
    let row = 16 * (m / 64) + 2 * ((m % 64) / 8);
    let x = (7 - m % 8) as u8;
    lemma_low_bit(bank[row] >> x);
    lemma_low_bit(bank[row + 1] >> x);
}

} // verus!
