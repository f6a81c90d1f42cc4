//! Colors and palettes.
use vstd::prelude::*;

use crate::codec::{found_at, group_found, take_u8};
use crate::error::Error;

verus! {

/// One pixel.
#[derive(Clone, Copy, Debug, PartialEq, Eq, Structural)]
pub struct GameboyRgb {
    pub red: u8,
    pub green: u8,
    pub blue: u8,
}

/// A five-bit color part, scaled to eight bits.
pub open spec fn scaled(v: u8) -> u8 {
    (v as int * 255 / 31) as u8
}

/// The shades of the monochrome palette, from white to black.
pub open spec fn dmg_shade(index: int) -> GameboyRgb {
    if index == 0 {
        GameboyRgb { red: 0xE0, green: 0xF8, blue: 0xD0 }
    } else if index == 1 {
        GameboyRgb { red: 0x88, green: 0xC0, blue: 0x70 }
    } else if index == 2 {
        GameboyRgb { red: 0x34, green: 0x68, blue: 0x56 }
    } else {
        GameboyRgb { red: 0x08, green: 0x18, blue: 0x20 }
    }
}

/// The shade with this index in the monochrome palette.
pub fn dmg_color(index: u8) -> (r: GameboyRgb)
    requires
        index < 4,
    ensures
        r == dmg_shade(index as int),
{
    if index == 0 {
        GameboyRgb { red: 0xE0, green: 0xF8, blue: 0xD0 }
    } else if index == 1 {
        GameboyRgb { red: 0x88, green: 0xC0, blue: 0x70 }
    } else if index == 2 {
        GameboyRgb { red: 0x34, green: 0x68, blue: 0x56 }
    } else {
        GameboyRgb { red: 0x08, green: 0x18, blue: 0x20 }
    }
}

impl GameboyRgb {
    /// The stored form: red, green, blue.
    pub open spec fn encode(self) -> Seq<u8> {
        seq![self.red, self.green, self.blue]
    }

    /// What is stored at `i`.
    pub open spec fn decode(s: Seq<u8>, i: int) -> GameboyRgb {
        GameboyRgb { red: s[i], green: s[i + 1], blue: s[i + 2] }
    }

    pub fn white() -> (r: Self)
        ensures
            r == (GameboyRgb { red: 0xFF, green: 0xFF, blue: 0xFF }),
    {
        Self { red: 0xFF, green: 0xFF, blue: 0xFF }
    }

    /// Scales a color of five-bit parts to eight-bit parts.
    pub fn scale_to_rgb(&mut self)
        requires
            old(self).red < 32,
            old(self).green < 32,
            old(self).blue < 32,
        ensures
            *final(self) == (GameboyRgb {
                red: scaled(old(self).red),
                green: scaled(old(self).green),
                blue: scaled(old(self).blue),
            }),
    {
        self.red = (self.red as u16 * 255 / 31) as u8;
        self.green = (self.green as u16 * 255 / 31) as u8;
        self.blue = (self.blue as u16 * 255 / 31) as u8;
    }

    /// Appends the stored form.
    pub fn save_to_bytes(&self, buf: &mut Vec<u8>)
        ensures
            final(buf)@ == old(buf)@ + self.encode(),
    {
        buf.push(self.red);
        buf.push(self.green);
        buf.push(self.blue);
        assert(buf@ =~= old(buf)@ + self.encode());
    }

    /// Restores a pixel that is stored at the cursor.
    pub fn load_from_bytes(data: &[u8], pos: &mut usize) -> (r: Result<Self, Error>)
        requires
            *old(pos) + 3 <= data@.len(),
        ensures
            r == Ok::<Self, Error>(Self::decode(data@, *old(pos) as int)),
            *final(pos) == *old(pos) + 3,
    {
        let red = take_u8(data, pos);
        let green = take_u8(data, pos);
        let blue = take_u8(data, pos);
        Ok(Self { red, green, blue })
    }

    /// A pixel that was saved is loaded unchanged.
    pub proof fn law_load_restores_saved(self, s: Seq<u8>, i: int)
        requires
            found_at(s, i, self.encode()),
        ensures
            Self::decode(s, i) == self,
    {
        broadcast use group_found;
    }
}

/// Scaling keeps black black and full full, and never reorders two intensities.
pub proof fn law_scaling_is_monotone(a: u8, b: u8)
    requires
        a <= b < 32,
    ensures
        scaled(0) == 0,
        scaled(31) == 255,
        scaled(a) <= scaled(b),
        a < b ==> scaled(a) < scaled(b),
{
}

} // verus!
