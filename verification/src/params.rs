use vstd::prelude::*;

verus! {

/// Width of the visible frame in pixels.
pub const VFRAME_W: u32 = 256;
/// Height of the visible frame in pixels.
pub const VFRAME_H: u32 = 240;
/// Last visible scanline.
pub const VFRAME_END: u32 = 239;
/// Number of PPU dots in one scanline.
pub const FRAME_W: u32 = 341;
/// Number of scanlines in one frame.
pub const FRAME_H: u32 = 262;
/// The idle scanline after the visible frame.
pub const POST_RENDER_LINE: u32 = 240;
/// The scanline on which the vertical blank starts.
pub const SET_VBLANK_LINE: u32 = 241;
/// The scanline that prepares the next frame.
pub const PRE_RENDER_LINE: u32 = 261;


/// The RGB colour of entry `i` of the master palette (64 entries).
#[verifier::opaque]
pub open spec fn master_color(i: int) -> (u8, u8, u8) {
    if i == 0 {
        (0x80, 0x80, 0x80)
    } else     if i == 1 {
        (0x00, 0x3D, 0xA6)
    } else     if i == 2 {
        (0x00, 0x12, 0xB0)
    } else     if i == 3 {
        (0x44, 0x00, 0x96)
    } else     if i == 4 {
        (0xA1, 0x00, 0x5E)
    } else     if i == 5 {
        (0xC7, 0x00, 0x28)
    } else     if i == 6 {
        (0xBA, 0x06, 0x00)
    } else     if i == 7 {
        (0x8C, 0x17, 0x00)
    } else     if i == 8 {
        (0x5C, 0x2F, 0x00)
    } else     if i == 9 {
        (0x10, 0x45, 0x00)
    } else     if i == 10 {
        (0x05, 0x4A, 0x00)
    } else     if i == 11 {
        (0x00, 0x47, 0x2E)
    } else     if i == 12 {
        (0x00, 0x41, 0x66)
    } else     if i == 13 {
        (0x00, 0x00, 0x00)
    } else     if i == 14 {
        (0x05, 0x05, 0x05)
    } else     if i == 15 {
        (0x05, 0x05, 0x05)
    } else     if i == 16 {
        (0xC7, 0xC7, 0xC7)
    } else     if i == 17 {
        (0x00, 0x77, 0xFF)
    } else     if i == 18 {
        (0x21, 0x55, 0xFF)
    } else     if i == 19 {
        (0x82, 0x37, 0xFA)
    } else     if i == 20 {
        (0xEB, 0x2F, 0xB5)
    } else     if i == 21 {
        (0xFF, 0x29, 0x50)
    } else     if i == 22 {
        (0xFF, 0x22, 0x00)
    } else     if i == 23 {
        (0xD6, 0x32, 0x00)
    } else     if i == 24 {
        (0xC4, 0x62, 0x00)
    } else     if i == 25 {
        (0x35, 0x80, 0x00)
    } else     if i == 26 {
        (0x05, 0x8F, 0x00)
    } else     if i == 27 {
        (0x00, 0x8A, 0x55)
    } else     if i == 28 {
        (0x00, 0x99, 0xCC)
    } else     if i == 29 {
        (0x21, 0x21, 0x21)
    } else     if i == 30 {
        (0x09, 0x09, 0x09)
    } else     if i == 31 {
        (0x09, 0x09, 0x09)
    } else     if i == 32 {
        (0xFF, 0xFF, 0xFF)
    } else     if i == 33 {
        (0x0F, 0xD7, 0xFF)
    } else     if i == 34 {
        (0x69, 0xA2, 0xFF)
    } else     if i == 35 {
        (0xD4, 0x80, 0xFF)
    } else     if i == 36 {
        (0xFF, 0x45, 0xF3)
    } else     if i == 37 {
        (0xFF, 0x61, 0x8B)
    } else     if i == 38 {
        (0xFF, 0x88, 0x33)
    } else     if i == 39 {
        (0xFF, 0x9C, 0x12)
    } else     if i == 40 {
        (0xFA, 0xBC, 0x20)
    } else     if i == 41 {
        (0x9F, 0xE3, 0x0E)
    } else     if i == 42 {
        (0x2B, 0xF0, 0x35)
    } else     if i == 43 {
        (0x0C, 0xF0, 0xA4)
    } else     if i == 44 {
        (0x05, 0xFB, 0xFF)
    } else     if i == 45 {
        (0x5E, 0x5E, 0x5E)
    } else     if i == 46 {
        (0x0D, 0x0D, 0x0D)
    } else     if i == 47 {
        (0x0D, 0x0D, 0x0D)
    } else     if i == 48 {
        (0xFF, 0xFF, 0xFF)
    } else     if i == 49 {
        (0xA6, 0xFC, 0xFF)
    } else     if i == 50 {
        (0xB3, 0xEC, 0xFF)
    } else     if i == 51 {
        (0xDA, 0xAB, 0xEB)
    } else     if i == 52 {
        (0xFF, 0xA8, 0xF9)
    } else     if i == 53 {
        (0xFF, 0xAB, 0xB3)
    } else     if i == 54 {
        (0xFF, 0xD2, 0xB0)
    } else     if i == 55 {
        (0xFF, 0xEF, 0xA6)
    } else     if i == 56 {
        (0xFF, 0xF7, 0x9C)
    } else     if i == 57 {
        (0xD7, 0xE8, 0x95)
    } else     if i == 58 {
        (0xA6, 0xED, 0xAF)
    } else     if i == 59 {
        (0xA2, 0xF2, 0xDA)
    } else     if i == 60 {
        (0x99, 0xFF, 0xFC)
    } else     if i == 61 {
        (0xDD, 0xDD, 0xDD)
    } else     if i == 62 {
        (0x11, 0x11, 0x11)
    } else {
        (0x11, 0x11, 0x11)
    }
}

/// The RGB colour of entry `i` of the master palette.
pub fn COLORS(i: usize) -> (r: (u8, u8, u8))
    requires
        i < 64,
    ensures
        r == master_color(i as int),
{
    reveal(master_color);
    match i {
        0 => (0x80, 0x80, 0x80),
        1 => (0x00, 0x3D, 0xA6),
        2 => (0x00, 0x12, 0xB0),
        3 => (0x44, 0x00, 0x96),
        4 => (0xA1, 0x00, 0x5E),
        5 => (0xC7, 0x00, 0x28),
        6 => (0xBA, 0x06, 0x00),
        7 => (0x8C, 0x17, 0x00),
        8 => (0x5C, 0x2F, 0x00),
        9 => (0x10, 0x45, 0x00),
        10 => (0x05, 0x4A, 0x00),
        11 => (0x00, 0x47, 0x2E),
        12 => (0x00, 0x41, 0x66),
        13 => (0x00, 0x00, 0x00),
        14 => (0x05, 0x05, 0x05),
        15 => (0x05, 0x05, 0x05),
        16 => (0xC7, 0xC7, 0xC7),
        17 => (0x00, 0x77, 0xFF),
        18 => (0x21, 0x55, 0xFF),
        19 => (0x82, 0x37, 0xFA),
        20 => (0xEB, 0x2F, 0xB5),
        21 => (0xFF, 0x29, 0x50),
        22 => (0xFF, 0x22, 0x00),
        23 => (0xD6, 0x32, 0x00),
        24 => (0xC4, 0x62, 0x00),
        25 => (0x35, 0x80, 0x00),
        26 => (0x05, 0x8F, 0x00),
        27 => (0x00, 0x8A, 0x55),
        28 => (0x00, 0x99, 0xCC),
        29 => (0x21, 0x21, 0x21),
        30 => (0x09, 0x09, 0x09),
        31 => (0x09, 0x09, 0x09),
        32 => (0xFF, 0xFF, 0xFF),
        33 => (0x0F, 0xD7, 0xFF),
        34 => (0x69, 0xA2, 0xFF),
        35 => (0xD4, 0x80, 0xFF),
        36 => (0xFF, 0x45, 0xF3),
        37 => (0xFF, 0x61, 0x8B),
        38 => (0xFF, 0x88, 0x33),
        39 => (0xFF, 0x9C, 0x12),
        40 => (0xFA, 0xBC, 0x20),
        41 => (0x9F, 0xE3, 0x0E),
        42 => (0x2B, 0xF0, 0x35),
        43 => (0x0C, 0xF0, 0xA4),
        44 => (0x05, 0xFB, 0xFF),
        45 => (0x5E, 0x5E, 0x5E),
        46 => (0x0D, 0x0D, 0x0D),
        47 => (0x0D, 0x0D, 0x0D),
        48 => (0xFF, 0xFF, 0xFF),
        49 => (0xA6, 0xFC, 0xFF),
        50 => (0xB3, 0xEC, 0xFF),
        51 => (0xDA, 0xAB, 0xEB),
        52 => (0xFF, 0xA8, 0xF9),
        53 => (0xFF, 0xAB, 0xB3),
        54 => (0xFF, 0xD2, 0xB0),
        55 => (0xFF, 0xEF, 0xA6),
        56 => (0xFF, 0xF7, 0x9C),
        57 => (0xD7, 0xE8, 0x95),
        58 => (0xA6, 0xED, 0xAF),
        59 => (0xA2, 0xF2, 0xDA),
        60 => (0x99, 0xFF, 0xFC),
        61 => (0xDD, 0xDD, 0xDD),
        62 => (0x11, 0x11, 0x11),
        _ => (0x11, 0x11, 0x11),
    }
}

} // verus!
