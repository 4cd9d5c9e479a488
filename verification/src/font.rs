//! The built-in font: sixteen glyphs of five bytes, one for each hex digit.
use vstd::prelude::*;

verus! {

/// The glyphs for `0..=F`. A glyph is five rows high; of the eight pixels of
/// a row the left four are used.
pub const SPRITES: [[u8; 5]; 16] = [
    [0xF0, 0x90, 0x90, 0x90, 0xF0],
    [0x20, 0x60, 0x20, 0x20, 0x70],
    [0xF0, 0x10, 0xF0, 0x80, 0xF0],
    [0xF0, 0x10, 0xF0, 0x10, 0xF0],
    [0x90, 0x90, 0xF0, 0x10, 0x10],
    [0xF0, 0x80, 0xF0, 0x10, 0xF0],
    [0xF0, 0x80, 0xF0, 0x90, 0xF0],
    [0xF0, 0x10, 0x20, 0x40, 0x40],
    [0xF0, 0x90, 0xF0, 0x90, 0xF0],
    [0xF0, 0x90, 0xF0, 0x10, 0xF0],
    [0xF0, 0x90, 0xF0, 0x90, 0x90],
    [0xE0, 0x90, 0xE0, 0x90, 0xE0],
    [0xF0, 0x80, 0x80, 0x80, 0xF0],
    [0xE0, 0x90, 0x90, 0x90, 0xE0],
    [0xF0, 0x80, 0xF0, 0x80, 0xF0],
    [0xF0, 0x80, 0xF0, 0x80, 0x80],
];

/// Row `j` of the glyph for hex digit `d`.
pub open spec fn glyph_row(d: int, j: int) -> u8 {
    SPRITES[d][j]
}

/// The byte of the font that is installed at address `a`, for `a < 80`:
/// glyph `d` takes up the five bytes from `5 * d` on.
pub open spec fn font_byte(a: int) -> u8 {
    glyph_row(a / 5, a % 5)
}

/// Whether `ram` holds the font where it is installed.
pub open spec fn has_font(ram: Seq<u8>) -> bool {
    forall|a: int| 0 <= a < 80 ==> ram[a] == font_byte(a)
}

} // verus!
