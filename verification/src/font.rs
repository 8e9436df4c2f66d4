use vstd::prelude::*;

verus! {

/// The address at which the glyphs are loaded.
pub const FONT_BASE: u16 = 0x50;

/// The number of bytes in one glyph: five rows of four pixels.
pub const GLYPH_SIZE: u16 = 5;

/// The glyphs of the sixteen hexadecimal digits, five bytes each, `0` first.
pub const DEFAULTFONT: [u8; 80] = [
    0xF0, 0x90, 0x90, 0x90, 0xF0,
    0x20, 0x60, 0x20, 0x20, 0x70,
    0xF0, 0x10, 0xF0, 0x80, 0xF0,
    0xF0, 0x10, 0xF0, 0x10, 0xF0,
    0x90, 0x90, 0xF0, 0x10, 0x10,
    0xF0, 0x80, 0xF0, 0x10, 0xF0,
    0xF0, 0x80, 0xF0, 0x90, 0xF0,
    0xF0, 0x10, 0x20, 0x40, 0x40,
    0xF0, 0x90, 0xF0, 0x90, 0xF0,
    0xF0, 0x90, 0xF0, 0x10, 0xF0,
    0xF0, 0x90, 0xF0, 0x90, 0x90,
    0xE0, 0x90, 0xE0, 0x90, 0xE0,
    0xF0, 0x80, 0x80, 0x80, 0xF0,
    0xE0, 0x90, 0x90, 0x90, 0xE0,
    0xF0, 0x80, 0xF0, 0x80, 0xF0,
    0xF0, 0x80, 0xF0, 0x80, 0x80,
];

/// The address of the glyph of `digit`.
pub open spec fn glyph_address(digit: u8) -> u16 {
    (FONT_BASE + GLYPH_SIZE * digit) as u16
}

} // verus!
