//! The bits of the LCD control register LCDC (0xFF40), read from its value.
use vstd::prelude::*;

verus! {

// Bit 0: background and window display; when clear, both are blank and the
// window display bit is ignored.
pub fn is_bgw_enabled(lcdc: u8) -> (b: bool)
    ensures
        b == (lcdc & 0x01 == 0x01),
{
    (lcdc & 0x01) == 0x01
}

// Are sprites enabled or not (bit 1 of lcdc)
pub fn is_obj_enabled(lcdc: u8) -> (b: bool)
    ensures
        b == (lcdc & 0x02 == 0x02),
{
    (lcdc & 0x02) == 0x02
}

// Are sprites a single tile or 2 stacked vertically (bit 2 of lcdc)
pub fn is_big_sprite(lcdc: u8) -> (b: bool)
    ensures
        b == (lcdc & 0x04 == 0x04),
{
    (lcdc & 0x04) == 0x04
}

// Bit 3 controls what area to look for the bg tile map area
pub fn get_bg_tile_map_area(lcdc: u8) -> (m: u8)
    ensures
        m == lcdc & 0x08,
        m == 0 || m == 0x08,
{
    assert(lcdc & 0x08 == 0 || lcdc & 0x08 == 0x08) by (bit_vector);
    lcdc & 0x08
}

// Bit4 of lcdc gives Background and Window Tile data area
// 1 will mean indexing from 0x8000, and 0 will mean indexing from 0x8800
pub fn get_addr_mode(lcdc: u8) -> (b: bool)
    ensures
        b == (lcdc & 0x10 == 0x10),
{
    (lcdc & 0x10) == 0x10
}

// Bit 5 controls whether the window is displayed or not.
// Can be overriden by bit 0 hence the call to is_bgw_enabled
pub fn is_window_enabled(lcdc: u8) -> (b: bool)
    ensures
        b == (lcdc & 0x20 == 0x20 && lcdc & 0x01 == 0x01),
{
    ((lcdc & 0x20) == 0x20) && is_bgw_enabled(lcdc)
}

// Bit 6 controls what area to look for the window tile map area
pub fn get_window_tile_map_area(lcdc: u8) -> (m: u8)
    ensures
        m == lcdc & 0x40,
        m == 0 || m == 0x40,
{
    assert(lcdc & 0x40 == 0 || lcdc & 0x40 == 0x40) by (bit_vector);
    lcdc & 0x40
}

// LCD and PPU enabled when bit 7 of lcdc register is 1
pub fn is_ppu_enabled(lcdc: u8) -> (b: bool)
    ensures
        b == (lcdc & 0x80 == 0x80),
{
    (lcdc & 0x80) == 0x80
}

} // verus!
