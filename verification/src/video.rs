//! Frames as bytes for a texture.
use vstd::prelude::*;

use crate::ppu::color::GameboyRgb;
use crate::ppu::frame_buffer::{FrameBuffer, LCD_HEIGHT, LCD_PIXELS, LCD_WIDTH};

verus! {

/// Bytes of a frame in a texture.
pub const TEXTURE_BYTES: usize = 92160;

/// The pixel lies on the grid of tiles.
pub open spec fn on_grid(x: int, y: int) -> bool {
    x % 8 == 0 || y % 8 == 0
}

/// The four bytes of a pixel: blue, green, red, and full opacity.
pub open spec fn pixel_byte(pixel: GameboyRgb, k: int) -> u8 {
    if k == 0 {
        pixel.blue
    } else if k == 1 {
        pixel.green
    } else if k == 2 {
        pixel.red
    } else {
        0xFF
    }
}

/// The bytes of a frame, row by row. With the outline the grid of tiles is drawn over it in
/// gray.
pub open spec fn texture_of(data: Seq<GameboyRgb>, outline: bool) -> Seq<u8> {
    let gray = GameboyRgb { red: 0x80, green: 0x80, blue: 0x80 };
    Seq::new(
        TEXTURE_BYTES as nat,
        |k: int|
            pixel_byte(
                if outline && on_grid((k / 4) % 160, (k / 4) / 160) {
                    gray
                } else {
                    data[k / 4]
                },
                k % 4,
            ),
    )
}

/// The bytes of a frame for a texture.
pub fn frame_pixels(frame_buffer: &FrameBuffer, outline: bool) -> (r: Vec<u8>)
    requires
        frame_buffer@.data.len() == LCD_PIXELS,
    ensures
        r@ == texture_of(frame_buffer@.data, outline),
{
    let mut pixels: Vec<u8> = Vec::new();
    let mut y: usize = 0;
    let ghost all = texture_of(frame_buffer@.data, outline);
    while y < LCD_HEIGHT
        invariant
            y <= LCD_HEIGHT,
            frame_buffer@.data.len() == LCD_PIXELS,
            all == texture_of(frame_buffer@.data, outline),
            pixels@ == all.take(640 * y),
        decreases LCD_HEIGHT - y,
    {
        let mut x: usize = 0;
        while x < LCD_WIDTH
            invariant
                x <= LCD_WIDTH,
                y < LCD_HEIGHT,
                frame_buffer@.data.len() == LCD_PIXELS,
                all == texture_of(frame_buffer@.data, outline),
                pixels@ == all.take(640 * y + 4 * x),
            decreases LCD_WIDTH - x,
        {
            let pixel = if outline && (x % 8 == 0 || y % 8 == 0) {
                GameboyRgb { red: 0x80, green: 0x80, blue: 0x80 }
            } else {
                frame_buffer.read(x, y)
            };
            pixels.push(pixel.blue);
            pixels.push(pixel.green);
            pixels.push(pixel.red);
            pixels.push(0xFF);
            proof {
                let n = 640 * y + 4 * x;
                let at = 160 * y + x;
                assert(n / 4 == at && (n + 1) / 4 == at && (n + 2) / 4 == at && (n + 3) / 4 == at);
                assert(n % 4 == 0 && (n + 1) % 4 == 1 && (n + 2) % 4 == 2 && (n + 3) % 4 == 3);
                assert(at % 160 == x && at / 160 == y);
                assert(all[n] == pixel.blue);
                assert(all[n + 1] == pixel.green);
                assert(all[n + 2] == pixel.red);
                assert(all[n + 3] == 0xFF);
                assert(pixels@ =~= all.take(n + 4));
            }
            x = x + 1;
        }
        y = y + 1;
    }
    assert(all.take(640 * y) =~= all);
    pixels
}

/// Each pixel of the frame, row by row, takes four bytes: blue, green, red, and full opacity.
/// With the outline, the first row and the first column of each tile are gray.
pub proof fn law_pixel_bytes(data: Seq<GameboyRgb>, outline: bool, x: int, y: int)
    requires
        0 <= x < 160,
        0 <= y < 144,
    ensures
        ({
            let t = texture_of(data, outline);
            let at = 4 * (160 * y + x);
            let gray = outline && (x % 8 == 0 || y % 8 == 0);
            let p = data[160 * y + x];
            &&& t.len() == 4 * 160 * 144
            &&& gray ==> t[at] == 128 && t[at + 1] == 128 && t[at + 2] == 128
            &&& !gray ==> t[at] == p.blue && t[at + 1] == p.green && t[at + 2] == p.red
            &&& t[at + 3] == 255
        }),
{
    let n = 160 * y + x;
    let at = 4 * n;
    assert(n % 160 == x && n / 160 == y);
    assert(at / 4 == n && (at + 1) / 4 == n && (at + 2) / 4 == n && (at + 3) / 4 == n);
    assert(at % 4 == 0 && (at + 1) % 4 == 1 && (at + 2) % 4 == 2 && (at + 3) % 4 == 3);
}

} // verus!
