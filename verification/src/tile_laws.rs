//! Where the background and sprite fetches look: the palette that an
//! attribute byte gives a quadrant, and the pattern row of a tile or a
//! sprite.
use vstd::prelude::*;
use crate::flags::PpuCtrl;
use crate::ppu::SpriteInfo;
use crate::render::{at_bits, nt_sprite_addr, sprite_addr};

verus! {

/// The bit facts behind the fetch addresses.
proof fn lemma_fetch_bits(b: u8, c: u8, t: u16, id: u8, r: u16)
    by (bit_vector)
    ensures
        (b >> 0u8) & 3u8 == b % 4u8,
        (b >> 2u8) & 3u8 == (b / 4u8) % 4u8,
        (b >> 4u8) & 3u8 == (b / 16u8) % 4u8,
        (b >> 6u8) & 3u8 == (b / 64u8) % 4u8,
        c < 4u8 ==> (c & 2u8 != 0u8) == (c >= 2u8) && (c & 1u8 != 0u8) == (c % 2u8 == 1u8),
        (b & 0x80u8 == 0u8) == (b < 128u8),
        (t == 0u16 || t == 0x1000u16) && r < 16u16 ==> (t | ((id as u16) << 4u16) | r) == ((t + 16u16 * (id as u16) + r) as u16),
{
}

/// Bit 4 of a coordinate tells which half of a 32-pixel block it lies in.
proof fn lemma_half_bits(x: u32, y: u32)
    by (bit_vector)
    ensures
        (y & 16u32 != 0u32) == ((y / 16u32) % 2u32 == 1u32),
        (x & 16u32 != 0u32) == ((x / 16u32) % 2u32 == 1u32),
{
}

/// The palette (0 to 3) that attribute byte `at_byte` gives the 16x16
/// quadrant of its 32x32 area that position (x, y) lies in: bits 0-1 for
/// the top-left quadrant, 2-3 for the top-right, 4-5 for the bottom-left and
/// 6-7 for the bottom-right.
pub open spec fn quadrant_palette(x: u32, y: u32, at_byte: u8) -> int {
    let q = 2 * ((y / 16) % 2) + (x / 16) % 2;
    (at_byte as int / (if q == 0 { 1int } else if q == 1 { 4int } else if q == 2 { 16int } else { 64int })) % 4
}

/// The attribute fetch takes the palette of the position's quadrant from
/// the attribute byte, its high and its low bit each spread over a whole
/// byte for the attribute shift registers.
pub proof fn lemma_attribute_quadrant(x: u32, y: u32, at_byte: u8)
    ensures
        at_bits(x, y, at_byte) == (
            if quadrant_palette(x, y, at_byte) >= 2 { 0xFFu8 } else { 0u8 },
            if quadrant_palette(x, y, at_byte) % 2 == 1 { 0xFFu8 } else { 0u8 },
        ),
{
    let pal = quadrant_palette(x, y, at_byte);
    lemma_half_bits(x, y);
    lemma_fetch_bits(at_byte, pal as u8, 0, 0, 0);
}

/// The background pattern fetch reads row `ld_y % 8` of the tile, at 16
/// times the tile number plus the row, in the pattern table that the
/// control register selects for the background ($0000 or $1000).
pub proof fn lemma_background_pattern_addr(ctrl: PpuCtrl, ld_y: u32, tile: u8)
    ensures
        nt_sprite_addr(ctrl, ld_y, tile) == (if ctrl.bits & PpuCtrl::BACKGROUND_PATTERN_TABLE_ADDR == PpuCtrl::BACKGROUND_PATTERN_TABLE_ADDR { 0x1000int } else { 0int })
            + 16 * tile + ld_y % 8,
{
    let table: u16 = if ctrl.bits & PpuCtrl::BACKGROUND_PATTERN_TABLE_ADDR == PpuCtrl::BACKGROUND_PATTERN_TABLE_ADDR { 0x1000 } else { 0 };
    lemma_fetch_bits(0, 0, table, tile, (ld_y % 8) as u16);
}

/// The sprite pattern fetch for a line that the sprite covers (one of the
/// eight lines from its Y) reads the sprite's row for that line: the line
/// less the sprite's Y, or 7 minus that when bit 7 of its attributes flips
/// it vertically; at 16 times its tile number plus the row, in the pattern
/// table that the control register selects for sprites ($0000 or $1000).
pub proof fn lemma_sprite_pattern_addr(ctrl: PpuCtrl, y: u32, s: SpriteInfo)
    requires
        s.y <= y < s.y + 8,
    ensures
        sprite_addr(ctrl, y, s) == (if ctrl.bits & PpuCtrl::SPRITE_PATTERN_TABLE_ADDR == PpuCtrl::SPRITE_PATTERN_TABLE_ADDR { 0x1000int } else { 0int })
            + 16 * s.id + (if s.attr >= 128 { 7 - (y - s.y) } else { y - s.y }),
{
    let table: u16 = if ctrl.bits & PpuCtrl::SPRITE_PATTERN_TABLE_ADDR == PpuCtrl::SPRITE_PATTERN_TABLE_ADDR { 0x1000 } else { 0 };
    let dy: u16 = (y.wrapping_sub(s.y as u32)) as u16;
    assert(dy == y - s.y);
    let row: u16 = if s.attr & 0x80 == 0 { dy } else { 7u16.wrapping_sub(dy) };
    lemma_fetch_bits(s.attr, 0, table, s.id, row);
}

} // verus!
