use vstd::prelude::*;

verus! {

/// A color: an index into the xterm 256-color palette, or a 24-bit true color.
#[derive(Clone, Copy, Debug, PartialEq, Eq)]
pub enum Color {
    Ansi(u8),
    TrueColor(u8, u8, u8),
}

/// Packs red, green and blue into an opaque `0xFFRRGGBB` pixel.
pub open spec fn pack_rgb(r: u8, g: u8, b: u8) -> u32 {
    (0xFF00_0000 + r * 0x1_0000 + g * 0x100 + b) as u32
}

/// The fixed table of the sixteen standard and bright ANSI colors.
pub open spec fn ansi16_rgb(i: u8) -> u32
    recommends
        i < 16,
{
    if i == 0 {
        pack_rgb(0x00, 0x00, 0x00)
    } else if i == 1 {
        pack_rgb(0x80, 0x00, 0x00)
    } else if i == 2 {
        pack_rgb(0x00, 0x80, 0x00)
    } else if i == 3 {
        pack_rgb(0x80, 0x80, 0x00)
    } else if i == 4 {
        pack_rgb(0x00, 0x00, 0x80)
    } else if i == 5 {
        pack_rgb(0x80, 0x00, 0x80)
    } else if i == 6 {
        pack_rgb(0x00, 0x80, 0x80)
    } else if i == 7 {
        pack_rgb(0xc0, 0xc0, 0xc0)
    } else if i == 8 {
        pack_rgb(0x80, 0x80, 0x80)
    } else if i == 9 {
        pack_rgb(0xff, 0x00, 0x00)
    } else if i == 10 {
        pack_rgb(0x00, 0xff, 0x00)
    } else if i == 11 {
        pack_rgb(0xff, 0xff, 0x00)
    } else if i == 12 {
        pack_rgb(0x00, 0x00, 0xff)
    } else if i == 13 {
        pack_rgb(0xff, 0x00, 0xff)
    } else if i == 14 {
        pack_rgb(0x00, 0xff, 0xff)
    } else {
        pack_rgb(0xff, 0xff, 0xff)
    }
}

/// Intensity of one channel of the 6x6x6 color cube, for a digit `0..6`.
pub open spec fn cube_level(d: int) -> u8 {
    if d == 0 {
        0
    } else {
        (d * 0x28 + 0x28) as u8
    }
}

/// The RGB value of a palette index.
pub open spec fn indexed_rgb(i: u8) -> u32 {
    if i < 16 {
        ansi16_rgb(i)
    } else if i < 232 {
        let v = i - 16;
        pack_rgb(cube_level((v / 36) % 6), cube_level((v / 6) % 6), cube_level(v % 6))
    } else {
        let gray = ((i - 232) * 10 + 8) as u8;
        pack_rgb(gray, gray, gray)
    }
}

impl Color {
    /// The packed `0xFFRRGGBB` value of this color.
    pub open spec fn rgb(self) -> u32 {
        match self {
            Color::TrueColor(r, g, b) => pack_rgb(r, g, b),
            Color::Ansi(i) => indexed_rgb(i),
        }
    }

    /// Converts the color to a packed `0xFFRRGGBB` pixel value.
    pub fn as_rgb(&self) -> (r: u32)
        ensures
            r == self.rgb(),
    {
        match *self {
            Color::TrueColor(r, g, b) => encode_rgb(r, g, b),
            Color::Ansi(value) => {
                if value < 16 {
                    ansi16(value)
                } else if value < 232 {
                    let v = value - 16;
                    encode_rgb(cube_channel(v / 36 % 6), cube_channel(v / 6 % 6), cube_channel(v % 6))
                } else {
                    let gray = (value - 232) * 10 + 8;
                    encode_rgb(gray, gray, gray)
                }
            },
        }
    }
}

fn encode_rgb(r: u8, g: u8, b: u8) -> (p: u32)
    ensures
        p == pack_rgb(r, g, b),
{
    let p = 0xFF00_0000u32 | ((r as u32) << 16) | ((g as u32) << 8) | (b as u32);
    assert(0xFF00_0000u32 | ((r as u32) << 16) | ((g as u32) << 8) | (b as u32) == 0xFF00_0000u32
        + (r as u32) * 0x1_0000u32 + (g as u32) * 0x100u32 + (b as u32)) by (bit_vector)
        requires
            r < 256,
            g < 256,
            b < 256,
    ;
    p
}

fn cube_channel(d: u8) -> (c: u8)
    requires
        d < 6,
    ensures
        c == cube_level(d as int),
{
    if d == 0 {
        0
    } else {
        d * 0x28 + 0x28
    }
}

fn ansi16(i: u8) -> (p: u32)
    requires
        i < 16,
    ensures
        p == ansi16_rgb(i),
{
    match i {
        0 => encode_rgb(0x00, 0x00, 0x00),
        1 => encode_rgb(0x80, 0x00, 0x00),
        2 => encode_rgb(0x00, 0x80, 0x00),
        3 => encode_rgb(0x80, 0x80, 0x00),
        4 => encode_rgb(0x00, 0x00, 0x80),
        5 => encode_rgb(0x80, 0x00, 0x80),
        6 => encode_rgb(0x00, 0x80, 0x80),
        7 => encode_rgb(0xc0, 0xc0, 0xc0),
        8 => encode_rgb(0x80, 0x80, 0x80),
        9 => encode_rgb(0xff, 0x00, 0x00),
        10 => encode_rgb(0x00, 0xff, 0x00),
        11 => encode_rgb(0xff, 0xff, 0x00),
        12 => encode_rgb(0x00, 0x00, 0xff),
        13 => encode_rgb(0xff, 0x00, 0xff),
        14 => encode_rgb(0x00, 0xff, 0xff),
        _ => encode_rgb(0xff, 0xff, 0xff),
    }
}

/// Every color converts to an opaque pixel (alpha byte `0xFF`), and the
/// conversion depends on the color value alone.
pub proof fn lemma_rgb_opaque(c: Color, d: Color)
    ensures
        c.rgb() / 0x100_0000 == 0xFF,
        c == d ==> c.rgb() == d.rgb(),
{
    lemma_pack_alpha_all();
}

proof fn lemma_pack_alpha(r: u8, g: u8, b: u8)
    ensures
        pack_rgb(r, g, b) / 0x100_0000 == 0xFF,
{
    assert((0xFF00_0000 + r * 0x1_0000 + g * 0x100 + b) / 0x100_0000 == 0xFF) by (nonlinear_arith)
        requires
            r < 256,
            g < 256,
            b < 256,
    ;
}

proof fn lemma_pack_alpha_all()
    ensures
        forall|r: u8, g: u8, b: u8| #[trigger] pack_rgb(r, g, b) / 0x100_0000 == 0xFF,
{
    assert forall|r: u8, g: u8, b: u8| #[trigger] pack_rgb(r, g, b) / 0x100_0000 == 0xFF by {
        lemma_pack_alpha(r, g, b);
    }
}

} // verus!
