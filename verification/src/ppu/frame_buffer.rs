//! Pixels of one frame.
use vstd::prelude::*;

use crate::codec::{
    flag_at, flag_byte, found_at, le32, lemma_found_split, lemma_u32_found, put_flag, put_u32,
    take_flag, take_u32, u32_at,
};
use crate::error::Error;
use crate::ppu::color::GameboyRgb;

verus! {

pub const LCD_WIDTH: usize = 160;

pub const LCD_HEIGHT: usize = 144;

/// Pixels of a frame.
pub const LCD_PIXELS: usize = 23040;

/// Buffer that holds the pixels of one frame, row by row.
pub struct FrameBuffer {
    pub data: Vec<GameboyRgb>,
    /// The frame is complete and has not been handed out.
    pub ready: bool,
}

/// What a frame buffer holds.
#[verifier::ext_equal]
pub struct FrameView {
    pub data: Seq<GameboyRgb>,
    pub ready: bool,
}

impl View for FrameBuffer {
    type V = FrameView;

    open spec fn view(&self) -> FrameView {
        FrameView { data: self.data@, ready: self.ready }
    }
}

/// The stored form of a run of pixels, three bytes to each.
pub open spec fn encode_pixels(pixels: Seq<GameboyRgb>) -> Seq<u8> {
    Seq::new(3 * pixels.len(), |k: int| pixels[k / 3].encode()[k % 3])
}

/// The `n` pixels that are stored at `i`.
pub open spec fn decode_pixels(s: Seq<u8>, i: int, n: nat) -> Seq<GameboyRgb> {
    Seq::new(n, |k: int| GameboyRgb::decode(s, i + 3 * k))
}

impl FrameView {
    /// A white frame.
    pub open spec fn blank() -> FrameView {
        FrameView {
            data: Seq::new(
                LCD_PIXELS as nat,
                |k: int| GameboyRgb { red: 0xFF, green: 0xFF, blue: 0xFF },
            ),
            ready: false,
        }
    }

    /// The buffer with row `y` replaced.
    pub open spec fn with_row(self, y: int, row: Seq<GameboyRgb>) -> FrameView {
        FrameView {
            data: Seq::new(
                self.data.len(),
                |k: int|
                    if LCD_WIDTH * y <= k < LCD_WIDTH * y + LCD_WIDTH {
                        row[k - LCD_WIDTH * y]
                    } else {
                        self.data[k]
                    },
            ),
            ..self
        }
    }

    /// The stored form: the number of pixels, the pixels, the flag.
    pub open spec fn encode(self) -> Seq<u8> {
        le32(self.data.len() as u32) + encode_pixels(self.data) + seq![flag_byte(self.ready)]
    }

    /// Bytes of the buffer that is stored at `i`.
    pub open spec fn stored_len(s: Seq<u8>, i: int) -> int {
        5 + 3 * u32_at(s, i)
    }

    /// What is stored at `i`.
    pub open spec fn decode(s: Seq<u8>, i: int) -> FrameView {
        let n = u32_at(s, i) as nat;
        FrameView { data: decode_pixels(s, i + 4, n), ready: flag_at(s, i + 4 + 3 * n) }
    }

    /// A whole frame buffer is stored at `i`.
    pub open spec fn stored_at(s: Seq<u8>, i: int) -> bool {
        0 <= i && i + 4 <= s.len() && i + Self::stored_len(s, i) <= s.len()
    }

    /// A frame that was saved is loaded unchanged.
    pub proof fn law_load_restores_saved(self, s: Seq<u8>, i: int)
        requires
            self.data.len() <= u32::MAX,
            found_at(s, i, self.encode()),
        ensures
            self.encode().len() == 5 + 3 * self.data.len(),
            Self::stored_at(s, i),
            Self::stored_len(s, i) == self.encode().len(),
            Self::decode(s, i) == self,
    {
        let count = le32(self.data.len() as u32);
        let pixels = encode_pixels(self.data);
        let flag = seq![flag_byte(self.ready)];
        lemma_found_split(s, i, count + pixels, flag);
        lemma_found_split(s, i, count, pixels);
        lemma_u32_found(s, i, self.data.len() as u32);
        assert(s[i + 4 + pixels.len() + 0] == flag[0]);
        assert forall|k: int| 0 <= k < self.data.len() implies GameboyRgb::decode(
            s,
            i + 4 + 3 * k,
        ) == #[trigger] self.data[k] by {
            assert(s[i + 4 + (3 * k)] == pixels[3 * k]);
            assert(s[i + 4 + (3 * k + 1)] == pixels[3 * k + 1]);
            assert(s[i + 4 + (3 * k + 2)] == pixels[3 * k + 2]);
        }
        assert(decode_pixels(s, i + 4, self.data.len()) =~= self.data);
    }
}

impl FrameBuffer {
    /// A white frame.
    pub fn new() -> (r: Self)
        ensures
            r@ == FrameView::blank(),
    {
        let r = Self { data: vec![GameboyRgb::white(); LCD_PIXELS], ready: false };
        assert(r@ =~= FrameView::blank());
        r
    }

    /// Reads a pixel: `x` is the column, `y` the row.
    pub fn read(&self, x: usize, y: usize) -> (r: GameboyRgb)
        requires
            y * LCD_WIDTH + x < self@.data.len(),
        ensures
            r == self@.data[y * LCD_WIDTH + x],
    {
        let total: usize = self.data.len();
        assert(y * LCD_WIDTH + x < total);
        self.data[y * LCD_WIDTH + x]
    }

    /// Writes a pixel: `x` is the column, `y` the row.
    pub fn write(&mut self, x: usize, y: usize, pixel: GameboyRgb)
        requires
            y * LCD_WIDTH + x < old(self)@.data.len(),
        ensures
            final(self)@ == (FrameView {
                data: old(self)@.data.update(y * LCD_WIDTH + x, pixel),
                ..old(self)@
            }),
    {
        let total: usize = self.data.len();
        assert(y * LCD_WIDTH + x < total);
        self.data[y * LCD_WIDTH + x] = pixel;
    }

    /// Appends the stored form.
    pub fn save_to_bytes(&self, buf: &mut Vec<u8>)
        ensures
            final(buf)@ == old(buf)@ + self@.encode(),
    {
        put_u32(buf, self.data.len() as u32);
        let ghost start = buf@;
        let mut i: usize = 0;
        assert(start =~= start + encode_pixels(self.data@.take(0)));
        while i < self.data.len()
            invariant
                i <= self.data@.len(),
                buf@ == start + encode_pixels(self.data@.take(i as int)),
            decreases self.data@.len() - i,
        {
            let pixel = self.data[i];
            pixel.save_to_bytes(buf);
            i = i + 1;
            assert(buf@ =~= start + encode_pixels(self.data@.take(i as int)));
        }
        assert(self.data@.take(i as int) =~= self.data@);
        put_flag(buf, self.ready);
        assert(buf@ =~= old(buf)@ + self@.encode());
    }

    /// The end of the buffer that is stored at `pos`, if a whole one is.
    pub fn stored_end(data: &[u8], pos: usize) -> (r: Option<usize>)
        ensures
            r is Some <==> FrameView::stored_at(data@, pos as int),
            r matches Some(end) ==> end == pos + FrameView::stored_len(data@, pos as int) && end
                <= data@.len(),
    {
        let total: usize = data.len();
        if pos > total || total - pos < 4 {
            return None;
        }
        let mut at: usize = pos;
        let count = take_u32(data, &mut at);
        let rest: u64 = (total - at) as u64;
        if rest < 3 * (count as u64) + 1 {
            None
        } else {
            Some(at + 3 * (count as usize) + 1)
        }
    }

    /// Restores a buffer that is stored at the cursor.
    pub fn load_from_bytes(data: &[u8], pos: &mut usize) -> (r: Result<Self, Error>)
        requires
            FrameView::stored_at(data@, *old(pos) as int),
        ensures
            r matches Ok(fb) && fb@ == FrameView::decode(data@, *old(pos) as int),
            *final(pos) == *old(pos) + FrameView::stored_len(data@, *old(pos) as int),
    {
        let total: usize = data.len();
        let ghost start = *pos as int;
        let count = take_u32(data, pos);
        let mut pixels: Vec<GameboyRgb> = Vec::new();
        let mut i: u32 = 0;
        while i < count
            invariant
                i <= count == u32_at(data@, start),
                FrameView::stored_at(data@, start),
                *pos == start + 4 + 3 * i,
                total == data@.len(),
                pixels@ == decode_pixels(data@, start + 4, i as nat),
            decreases count - i,
        {
            match GameboyRgb::load_from_bytes(data, pos) {
                Ok(pixel) => {
                    pixels.push(pixel);
                },
                Err(e) => {
                    return Err(e);
                },
            }
            i = i + 1;
            assert(pixels@ =~= decode_pixels(data@, start + 4, i as nat));
        }
        let ready = take_flag(data, pos);
        Ok(Self { data: pixels, ready })
    }
}

} // verus!
