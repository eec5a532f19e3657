use vstd::prelude::*;

use crate::color::Color;

verus! {

/// One character cell of a screen: a glyph with its colors and attributes.
#[derive(Clone, Copy, Debug)]
pub struct Block {
    pub c: char,
    pub fg: Color,
    pub bg: Color,
    pub bold: bool,
    pub underlined: bool,
}

impl Block {
    /// A blank cell: a space, light gray on black, no attributes.
    pub fn new() -> (b: Block)
        ensures
            b == (Block {
                c: ' ',
                fg: Color::Ansi(7),
                bg: Color::Ansi(0),
                bold: false,
                underlined: false,
            }),
    {
        Block { c: ' ', fg: Color::Ansi(7), bg: Color::Ansi(0), bold: false, underlined: false }
    }
}

} // verus!
