//! The PPU rendering pipeline, one dot at a time: the pixel output, the
//! background fetches into the shift registers, sprite evaluation for the
//! next scanline and the sprite output units.
use vstd::prelude::*;
use crate::cpu::Cpu;
use crate::fault::Fault;
use crate::flags::{PpuCtrl, PpuStatus};
use crate::nes::{Nes, NesModel, record_fault};
use crate::params::{COLORS, master_color, FRAME_W, FRAME_H, PRE_RENDER_LINE, VFRAME_H, VFRAME_END, SET_VBLANK_LINE};
use crate::ppu::{Ppu, PpuModel, SpriteInfo, SpriteOutputUnit, TileInfo, ppu_read, empty_sprite, empty_unit};

verus! {

/// What the PPU reports after each dot: the dot it drew (frame, x, y), or
/// the start of the vertical blank.
#[derive(Debug, Clone, Copy, PartialEq, Eq, Structural)]
pub enum RenderStep {
    Cycle(u32, u32, u32),
    Vblank,
}

/// A PPU cycle, or the start of the vertical blank.
#[derive(Debug, Clone, Copy, PartialEq, Eq, Structural)]
pub enum PpuStep {
    Cycle(RenderStep, u32),
    Vblank,
}

/// A two-bit selector from its high and low bits.
pub open spec fn two_bits(hi: bool, lo: bool) -> usize {
    if hi {
        if lo { 3 } else { 2 }
    } else {
        if lo { 1 } else { 0 }
    }
}

/// Whether the bit of a shift register that fine X `fx` selects is set:
/// the top bit, or `fx` bits below it.
pub open spec fn fine_bit(r: u32, fx: u8) -> bool {
    r & (0x8000_0000u32 >> fx) != 0
}

/// The background colour number of the current dot: the bits of the
/// pattern shift registers that fine X selects.
pub open spec fn bg_color_sel(p: PpuModel) -> usize {
    two_bits(fine_bit(p.nt_shift_reg_hi, p.fine_x), fine_bit(p.nt_shift_reg_lo, p.fine_x))
}

/// The background palette number of the current dot: the bits of the
/// attribute shift registers that fine X selects.
pub open spec fn bg_palette_sel(p: PpuModel) -> usize {
    two_bits(fine_bit(p.at_shift_reg_hi, p.fine_x), fine_bit(p.at_shift_reg_lo, p.fine_x))
}

/// The colour number that a sprite output unit shows now: the top bits of its pattern bytes.
pub open spec fn unit_color_sel(u: SpriteOutputUnit) -> usize {
    two_bits(u.sprite_msbits & 0x80 != 0, u.sprite_lsbits & 0x80 != 0)
}

/// Whether a sprite output unit draws an opaque pixel at the current dot.
pub open spec fn unit_opaque(u: SpriteOutputUnit) -> bool {
    u.x == 0 && unit_color_sel(u) != 0
}

/// The first unit from `i` on that draws an opaque pixel.
pub open spec fn first_opaque(units: Seq<SpriteOutputUnit>, i: int) -> Option<int>
    decreases units.len() - i,
{
    if i >= units.len() || i < 0 {
        None
    } else if unit_opaque(units[i]) {
        Some(i)
    } else {
        first_opaque(units, i + 1)
    }
}

/// The first unit from `i` on whose sprite has started (its countdown is zero).
pub open spec fn first_started(units: Seq<SpriteOutputUnit>, i: int) -> Option<int>
    decreases units.len() - i,
{
    if i >= units.len() || i < 0 {
        None
    } else if units[i].x == 0 {
        Some(i)
    } else {
        first_started(units, i + 1)
    }
}

/// The sprite pixel of the current dot: colour number, palette number (4 to
/// 7) and whether it is drawn in front of the background, from the first
/// unit with an opaque pixel; `(0, 0, false)` when there is none.
pub open spec fn sp_pixel(units: Seq<SpriteOutputUnit>) -> (usize, usize, bool) {
    match first_opaque(units, 0) {
        Some(j) => (
            unit_color_sel(units[j]),
            ((units[j].sprite_info.attr & 0x03) as usize + 4) as usize,
            units[j].sprite_info.attr & 0x20 == 0,
        ),
        None => (0, 0, false),
    }
}

/// Whether the dot lies on the debug grid of `step` pixels.
pub open spec fn grid_line(grid_on: bool, x: u32, y: u32, step: u32) -> bool {
    grid_on && ((x + 1) % (step as int) == 0 || (y + 1) % (step as int) == 0)
}

/// The palette address of colour `color_sel` of palette `palette_sel`;
/// colour 0 of every palette is the backdrop at $3F00.
pub open spec fn color_addr(palette_sel: usize, color_sel: usize) -> u16 {
    if color_sel == 0 {
        0x3F00
    } else {
        (4 * palette_sel + color_sel + 0x3F00) as u16
    }
}

/// The colour of a dot where the background shows colour `bg_c` of palette
/// `bg_p` and the sprites colour `sp_c` of palette `sp_p`: transparent
/// (colour 0) pixels let the other layer through; where both are opaque the
/// sprite wins only when it has priority.
pub open spec fn mux_pixel(bg_c: usize, bg_p: usize, sp_c: usize, sp_p: usize, sp_priority: bool) -> (usize, usize) {
    if bg_c == 0 && sp_c == 0 {
        (0, 0)
    } else if bg_c == 0 {
        (sp_c, sp_p)
    } else if sp_c == 0 {
        (bg_c, bg_p)
    } else if sp_priority {
        (sp_c, sp_p)
    } else {
        (bg_c, bg_p)
    }
}

/// Whether sprite zero's unit (the first) draws a non-transparent pixel now.
pub open spec fn sprite0_active(u: SpriteOutputUnit) -> bool {
    u.x == 0 && (u.sprite_lsbits & 0x80 != 0 || u.sprite_msbits & 0x80 != 0)
}

/// The offset of pixel (x, y) in an RGBA frame.
pub open spec fn pixel_offset(x: int, y: int) -> int {
    (y * 256 + x) * 4
}

/// `buf` with pixel (x, y) set to `px`.
pub open spec fn put_pixel(buf: Seq<u8>, x: int, y: int, px: (u8, u8, u8, u8)) -> Seq<u8> {
    let o = pixel_offset(x, y);
    buf.update(o, px.0).update(o + 1, px.1).update(o + 2, px.2).update(o + 3, px.3)
}

/// Dot `x` of line `y` (x < 256, y < 240): the background and sprite pixels
/// are combined, sprite zero hit is flagged where an opaque sprite zero
/// pixel meets an opaque background pixel (not in the last column), and the
/// palette colour is drawn into the frame (yellow on the debug grid). A
/// palette entry outside the 64-colour master palette is a fault and draws
/// nothing.
#[verifier::opaque]
pub open spec fn render_pixel(m: NesModel, x: u32, y: u32) -> NesModel {
    let p = m.ppu;
    let bg_c = bg_color_sel(p);
    let bg_p = bg_palette_sel(p);
    let sp = sp_pixel(p.sprite_output_units);
    let hit = bg_c != 0 && sp.0 != 0 && sprite0_active(p.sprite_output_units[0]) && x < 255;
    let status = if hit { PpuStatus { bits: p.status.bits | PpuStatus::ZERO_HIT } } else { p.status };
    let sel = mux_pixel(bg_c, bg_p, sp.0, sp.1, sp.2);
    let index = ppu_read(p, color_addr(sel.1, sel.0));
    let m1 = NesModel { ppu: PpuModel { status, ..p }, ..m };
    if index >= 64 {
        record_fault(m1, Fault::ColorIndex(index))
    } else {
        let c = master_color(index as int);
        let px = if grid_line(p.grid_on, x, y, 8) { (255u8, 255u8, 0u8, 100u8) } else { (c.0, c.1, c.2, 255u8) };
        NesModel { ppu: PpuModel { buf: put_pixel(p.buf, x as int, y as int, px), ..m1.ppu }, ..m1 }
    }
}

/// The X scroll of a frame in the 512-pixel-wide area of the four
/// nametables: the first byte written to $2005, plus 256 when the control
/// register selects a right-hand nametable.
pub open spec fn scroll_origin_x(ctrl: PpuCtrl, scroll: u16) -> u16 {
    ((if ctrl.bits & PpuCtrl::NAMETABLE_LO != 0 { 256int } else { 0int }) + scroll % 256) as u16
}

/// The Y scroll of a frame in the 480-line-high area of the four
/// nametables: the second byte written to $2005, plus 240 when the control
/// register selects a lower nametable, wrapping at 480.
pub open spec fn scroll_origin_y(ctrl: PpuCtrl, scroll: u16) -> u16 {
    (((if ctrl.bits & PpuCtrl::NAMETABLE_HI != 0 { 240int } else { 0int }) + scroll / 256) % 480) as u16
}

/// The world column (in the 512-pixel-wide nametable area) of the tile
/// drawn from screen column `ld_x`: the frame's coarse X scroll added.
pub open spec fn world_x(p: PpuModel, ld_x: u32) -> u32 {
    (((p.frame_scroll_x / 8) * 8 + ld_x) % 512) as u32
}

/// The world line (in the 480-line-high nametable area) drawn on screen
/// line `ld_y`: the frame's Y scroll added.
pub open spec fn world_y(p: PpuModel, ld_y: u32) -> u32 {
    ((p.frame_scroll_y + ld_y) % 480) as u32
}

/// The pixel output stage at the current dot. On visible lines it draws the
/// pixel; at dot 1 of line 241 the vertical blank starts: the flag is set
/// (and the PPU is warmed up), an NMI is requested if the control register
/// enables it, and the frame drawn is published; at dot 1 of the pre-render
/// line the vertical blank and sprite zero hit flags are cleared and the
/// scroll of the next frame (and its fine X) is latched.
#[verifier::opaque]
pub open spec fn render_phase(m: NesModel) -> NesModel {
    let p = m.ppu;
    let x = p.dot;
    let y = p.scanline;
    if y <= VFRAME_END {
        if x < 256 {
            render_pixel(m, x, y)
        } else {
            m
        }
    } else if y == SET_VBLANK_LINE && x == 1 {
        NesModel {
            ppu: PpuModel { status: PpuStatus { bits: p.status.bits | PpuStatus::VBLANK_STARTED }, img: p.buf, warmed_up: true, ..p },
            cpu: Cpu { nmi: if p.ctrl.bits & PpuCtrl::VBLANK_INTERRUPT == PpuCtrl::VBLANK_INTERRUPT { true } else { m.cpu.nmi }, ..m.cpu },
            vblank: true,
            ..m
        }
    } else if y == PRE_RENDER_LINE && x == 1 {
        NesModel {
            ppu: PpuModel {
                status: PpuStatus { bits: p.status.bits & !(PpuStatus::VBLANK_STARTED | PpuStatus::ZERO_HIT) },
                frame_scroll_x: scroll_origin_x(p.ctrl, p.scroll),
                frame_scroll_y: scroll_origin_y(p.ctrl, p.scroll),
                fine_x: (p.scroll % 8) as u8,
                ..p
            },
            ..m
        }
    } else {
        m
    }
}

/// The four background shift registers move one bit up.
pub open spec fn shift_phase(m: NesModel) -> NesModel {
    let p = m.ppu;
    NesModel {
        ppu: PpuModel {
            nt_shift_reg_hi: p.nt_shift_reg_hi << 1u32,
            nt_shift_reg_lo: p.nt_shift_reg_lo << 1u32,
            at_shift_reg_hi: p.at_shift_reg_hi << 1u32,
            at_shift_reg_lo: p.at_shift_reg_lo << 1u32,
            ..p
        },
        ..m
    }
}

/// A sprite output unit after one dot: counting down to its sprite, or,
/// once there, shifting its pattern bytes out.
pub open spec fn unit_step(u: SpriteOutputUnit) -> SpriteOutputUnit {
    if u.x > 0 {
        SpriteOutputUnit { x: (u.x - 1) as u8, ..u }
    } else {
        SpriteOutputUnit { sprite_lsbits: u.sprite_lsbits << 1u8, sprite_msbits: u.sprite_msbits << 1u8, ..u }
    }
}

/// Every sprite output unit moves on one dot.
#[verifier::opaque]
pub open spec fn units_phase(m: NesModel) -> NesModel {
    let p = m.ppu;
    NesModel {
        ppu: PpuModel {
            sprite_output_units: Seq::new(p.sprite_output_units.len(), |i: int| unit_step(p.sprite_output_units[i])),
            ..p
        },
        ..m
    }
}

/// Whether dot `ev_x` of line `ev_y` is fetch step `offset` (of eight) of a
/// background tile: on the visible and pre-render lines, for dots below 249
/// and from 321 to 336.
pub open spec fn line_timing(ev_x: u32, ev_y: u32, offset: u32) -> bool {
    &&& ev_x % 8 == offset
    &&& (ev_x < 249 || (321 <= ev_x && ev_x < 337))
    &&& (ev_y < VFRAME_H || ev_y == PRE_RENDER_LINE)
}

/// The dot and line where the tile fetched at dot `ev_x` of line `ev_y` is
/// drawn: 16 dots on within the line, 21 dots on (into the next line) for
/// the fetches past dot 248.
pub open spec fn ld_nt_coord(ev_x: u32, ev_y: u32) -> (u32, u32) {
    let ld_x = ((ev_x + (if ev_x < 249 { 16int } else { 21int })) % (FRAME_W as int)) as u32;
    let ld_y = ((if ld_x < ev_x { ev_y + 1 } else { ev_y as int }) % (FRAME_H as int)) as u32;
    (ld_x, ld_y)
}

/// The nametable (0 to 3) that world position (wx, wy) lies in.
pub open spec fn nametable_of(wx: u32, wy: u32) -> int {
    (wy as int / 240) % 2 * 2 + (wx as int / 256) % 2
}

/// The nametable address of the tile at world position (wx, wy).
pub open spec fn ld_nt_addr(wx: u32, wy: u32) -> u16 {
    (0x2000 + nametable_of(wx, wy) * 0x400 + ((wy % 240) / 8) * 32 + (wx % 256) / 8) as u16
}

/// The attribute table address for the tile at world position (wx, wy).
pub open spec fn ld_at_addr(wx: u32, wy: u32) -> u16 {
    (0x23C0 + nametable_of(wx, wy) * 0x400 + ((wy % 240) / 32) * 8 + (wx % 256) / 32) as u16
}

/// The two palette bits of attribute byte `at_byte` for the 16x16 quadrant
/// of (ld_x, ld_y), each spread over a whole byte: (high, low).
pub open spec fn at_bits(ld_x: u32, ld_y: u32, at_byte: u8) -> (u8, u8) {
    let shift = (if ld_y & 16 != 0 { 2u8 } else { 0u8 }) + (if ld_x & 16 != 0 { 1u8 } else { 0u8 });
    let bits = (at_byte >> ((shift * 2) as u8)) & 3u8;
    (if bits & 2 != 0 { 0xFFu8 } else { 0u8 }, if bits & 1 != 0 { 0xFFu8 } else { 0u8 })
}

/// The pattern address of row `ld_y % 8` of background tile `sprite_index`,
/// in the pattern table that the control register selects.
pub open spec fn nt_sprite_addr(ctrl: PpuCtrl, ld_y: u32, sprite_index: u8) -> u16 {
    let table: u16 = if ctrl.bits & PpuCtrl::BACKGROUND_PATTERN_TABLE_ADDR == PpuCtrl::BACKGROUND_PATTERN_TABLE_ADDR { 0x1000 } else { 0 };
    table | ((sprite_index as u16) << 4u16) | ((ld_y % 8) as u16)
}

/// A shift register with `byte` loaded `16 - offset` bits up.
pub open spec fn load_shift(reg: u32, byte: u8, offset: u8) -> u32 {
    reg | ((byte as u32) << ((16 - offset) as u32))
}

/// The background fetches at the current dot, for the tile shown at the
/// screen position that `ld_nt_coord` gives, taken at its world position
/// under the frame's scroll: step 1 reads the tile number from the
/// nametable, step 3 the attribute bits into the attribute shift
/// registers, step 7 the two pattern bytes (the row of the world line) into
/// the pattern shift registers. Past dot 248 the bytes are loaded 5 bits
/// lower.
#[verifier::opaque]
pub open spec fn nt_phase(m: NesModel) -> NesModel {
    let p = m.ppu;
    let x = p.dot;
    let y = p.scanline;
    let t = p.tile_info;
    let offset: u8 = if x < 249 { 0 } else { 5 };
    if !(y == PRE_RENDER_LINE || y <= VFRAME_END) {
        m
    } else if line_timing(x, y, 1) {
        let ld = ld_nt_coord(x, y);
        let idx = ppu_read(p, ld_nt_addr(world_x(p, ld.0), world_y(p, ld.1)));
        NesModel { ppu: PpuModel { tile_info: TileInfo { ld_x: ld.0, ld_y: ld.1, sprite_index: idx }, ..p }, ..m }
    } else if line_timing(x, y, 3) {
        let wx = world_x(p, t.ld_x);
        let wy = world_y(p, t.ld_y);
        let b = ppu_read(p, ld_at_addr(wx, wy));
        let bits = at_bits(wx % 256, wy % 240, b);
        NesModel {
            ppu: PpuModel {
                at_shift_reg_hi: load_shift(p.at_shift_reg_hi, bits.0, offset),
                at_shift_reg_lo: load_shift(p.at_shift_reg_lo, bits.1, offset),
                ..p
            },
            ..m
        }
    } else if line_timing(x, y, 7) {
        let a = nt_sprite_addr(p.ctrl, world_y(p, t.ld_y) % 240, t.sprite_index);
        NesModel {
            ppu: PpuModel {
                nt_shift_reg_hi: load_shift(p.nt_shift_reg_hi, ppu_read(p, a.wrapping_add(8)), offset),
                nt_shift_reg_lo: load_shift(p.nt_shift_reg_lo, ppu_read(p, a), offset),
                ..p
            },
            ..m
        }
    } else {
        m
    }
}

/// Whether dot `ev_x` is step `offset` (of two) of the OAM scan (dots 65 to 256).
pub open spec fn evaluate_timing(ev_x: u32, offset: u32) -> bool {
    65 <= ev_x <= 256 && (ev_x - 65) % 2 == offset
}

/// Whether dot `ev_x` is step `offset` (of eight) of the sprite pattern
/// fetches (dots 257 to 320).
pub open spec fn loading_timing(ev_x: u32, offset: u32) -> bool {
    257 <= ev_x <= 320 && (ev_x - 257) % 8 == offset
}

/// The pattern address of the row of `s` that line `y` shows (8x8 sprites;
/// bit 7 of the attributes flips the sprite vertically), in the pattern
/// table that the control register selects for sprites.
pub open spec fn sprite_addr(ctrl: PpuCtrl, y: u32, s: SpriteInfo) -> u16 {
    let table: u16 = if ctrl.bits & PpuCtrl::SPRITE_PATTERN_TABLE_ADDR == PpuCtrl::SPRITE_PATTERN_TABLE_ADDR { 0x1000 } else { 0 };
    let dy: u16 = (y.wrapping_sub(s.y as u32)) as u16;
    let row: u16 = if s.attr & 0x80 == 0 { dy } else { 7u16.wrapping_sub(dy) };
    table | ((s.id as u16) << 4u16) | row
}

/// Bit `i` of `b`.
pub open spec fn bit(b: u8, i: u8) -> bool {
    (b >> i) & 1 == 1
}

/// Whether `r` is `b` with its bits in reverse order.
pub open spec fn reversed(b: u8, r: u8) -> bool {
    forall|i: u8| i < 8 ==> #[trigger] bit(r, i) == bit(b, (7 - i) as u8)
}

/// The bits of a byte in reverse order.
pub open spec fn flip(b: u8) -> u8 {
    let b1 = ((b & 0xF0u8) >> 4u8) | ((b & 0x0Fu8) << 4u8);
    let b2 = ((b1 & 0xCCu8) >> 2u8) | ((b1 & 0x33u8) << 2u8);
    ((b2 & 0xAAu8) >> 1u8) | ((b2 & 0x55u8) << 1u8)
}

/// The pattern bytes of `s` as drawn: mirrored left to right when bit 6 of
/// the attributes is set.
pub open spec fn flip_bytes(s: SpriteInfo, lo: u8, hi: u8) -> (u8, u8) {
    if s.attr & 0x40 == 0 {
        (lo, hi)
    } else {
        (flip(lo), flip(hi))
    }
}

/// Sprite evaluation at the current dot. Each line starts by clearing the
/// overflow flag. On visible lines: at dot 64 the gathering restarts; on
/// the OAM scan steps the next OAM sprite is taken when line `y` crosses it
/// (eight at most; a ninth sets the overflow flag); at dot 257 the gathered
/// sprites become the line's sprites; on the pattern fetch steps each of
/// them gets its pattern row; at dot 340 the loaded units take over.
#[verifier::opaque]
pub open spec fn sprite_phase(m: NesModel) -> NesModel {
    let p0 = m.ppu;
    let x = p0.dot;
    let y = p0.scanline;
    let p = if x == 0 { PpuModel { status: PpuStatus { bits: p0.status.bits & !PpuStatus::OVERFLOW }, ..p0 } } else { p0 };
    let np = if y >= VFRAME_H {
        p
    } else if x == 64 {
        PpuModel { oam_scan_index: 0, oam_buf: Seq::new(8, |i: int| empty_sprite()), oam_buf_index: 0, ..p }
    } else if evaluate_timing(x, 0) {
        let k = p.oam_scan_index as int;
        let sy = p.oam[k * 4] as u32;
        let next_scan: usize = if p.oam_scan_index < 63 { (p.oam_scan_index + 1) as usize } else { p.oam_scan_index };
        if sy <= y && y < sy + 8 {
            if p.oam_buf_index < 8 {
                let s = SpriteInfo { y: p.oam[k * 4], id: p.oam[k * 4 + 1], attr: p.oam[k * 4 + 2], x: p.oam[k * 4 + 3] };
                PpuModel {
                    oam_buf: p.oam_buf.update(p.oam_buf_index as int, s),
                    oam_buf_index: (p.oam_buf_index + 1) as usize,
                    oam_scan_index: next_scan,
                    ..p
                }
            } else {
                PpuModel { status: PpuStatus { bits: p.status.bits | PpuStatus::OVERFLOW }, oam_scan_index: next_scan, ..p }
            }
        } else {
            PpuModel { oam_scan_index: next_scan, ..p }
        }
    } else if x == 257 {
        PpuModel { secondary_oam: p.oam_buf, ..p }
    } else if loading_timing(x, 3) {
        let index = ((x - 257) / 8) as int;
        let s = p.secondary_oam[index];
        let a = sprite_addr(p.ctrl, y, s);
        let bytes = flip_bytes(s, ppu_read(p, a), ppu_read(p, a.wrapping_add(8)));
        PpuModel {
            sprite_output_units_buf: p.sprite_output_units_buf.update(
                index,
                SpriteOutputUnit { sprite_lsbits: bytes.0, sprite_msbits: bytes.1, x: s.x, sprite_info: s },
            ),
            ..p
        }
    } else if x == 340 {
        PpuModel { sprite_output_units: p.sprite_output_units_buf, ..p }
    } else {
        p
    };
    NesModel { ppu: np, ..m }
}

/// The pipeline moves to the next dot, line and frame.
pub open spec fn advance_phase(m: NesModel) -> NesModel {
    let p = m.ppu;
    let ppu = if p.dot + 1 < FRAME_W {
        PpuModel { dot: (p.dot + 1) as u32, ..p }
    } else if p.scanline + 1 < FRAME_H {
        PpuModel { dot: 0, scanline: (p.scanline + 1) as u32, ..p }
    } else {
        PpuModel { dot: 0, scanline: 0, frame: p.frame.wrapping_add(1), ..p }
    };
    NesModel { ppu, ..m }
}

/// One PPU cycle: the pixel output, then the background shift registers,
/// the sprite output units, the background fetches and sprite evaluation,
/// all at the same dot, then on to the next dot.
pub open spec fn ppu_dot(m: NesModel) -> NesModel {
    advance_phase(sprite_phase(nt_phase(units_phase(shift_phase(render_phase(m))))))
}

/// One CPU cycle's worth of PPU time: three PPU cycles.
#[verifier::opaque]
pub open spec fn tick_spec(m: NesModel) -> NesModel {
    ppu_dot(ppu_dot(ppu_dot(m)))
}


/// Reversing the bits of a byte, as `flip` does, puts bit 7 - i at bit i.
pub proof fn lemma_flip_reverses(b: u8)
    ensures
        reversed(b, flip(b)),
{
    assert(forall|i: u8| i < 8 ==> #[trigger] bit(flip(b), i) == bit(b, (7 - i) as u8)) by (bit_vector);
}

/// Mirroring a sprite row twice gives the row back.
pub proof fn lemma_flip_involution(b: u8)
    ensures
        flip(flip(b)) == b,
{
    assert(flip(flip(b)) == b) by (bit_vector);
}

/// A two-bit selector from its high and low bits.
fn sel2(hi: bool, lo: bool) -> (r: usize)
    ensures
        r == two_bits(hi, lo),
        r < 4,
{
    if hi {
        if lo { 3 } else { 2 }
    } else {
        if lo { 1 } else { 0 }
    }
}

/// The colour number that a sprite output unit shows now.
fn unit_color(u: &SpriteOutputUnit) -> (r: usize)
    ensures
        r == unit_color_sel(*u),
        r < 4,
{
    sel2(u.sprite_msbits & 0x80 != 0, u.sprite_lsbits & 0x80 != 0)
}

/// The colour and palette shown where the background and sprite pixels meet.
fn mux(bg_c: usize, bg_p: usize, sp_c: usize, sp_p: usize, sp_priority: bool) -> (r: (usize, usize))
    ensures
        r == mux_pixel(bg_c, bg_p, sp_c, sp_p, sp_priority),
{
    if bg_c == 0 && sp_c == 0 {
        (0, 0)
    } else if bg_c == 0 {
        (sp_c, sp_p)
    } else if sp_c == 0 {
        (bg_c, bg_p)
    } else if sp_priority {
        (sp_c, sp_p)
    } else {
        (bg_c, bg_p)
    }
}

/// A copy of a row of sprite slots.
fn copy_sprites(v: &Vec<SpriteInfo>) -> (r: Vec<SpriteInfo>)
    ensures
        r@ == v@,
{
    let mut r: Vec<SpriteInfo> = Vec::new();
    let mut i: usize = 0;
    while i < v.len()
        invariant
            i <= v@.len(),
            r@ == v@.subrange(0, i as int),
        decreases v@.len() - i,
    {
        r.push(v[i]);
        i = i + 1;
    }
    assert(v@.subrange(0, v@.len() as int) =~= v@);
    r
}

/// A copy of a row of sprite output units.
fn copy_units(v: &Vec<SpriteOutputUnit>) -> (r: Vec<SpriteOutputUnit>)
    ensures
        r@ == v@,
{
    let mut r: Vec<SpriteOutputUnit> = Vec::new();
    let mut i: usize = 0;
    while i < v.len()
        invariant
            i <= v@.len(),
            r@ == v@.subrange(0, i as int),
        decreases v@.len() - i,
    {
        r.push(v[i]);
        i = i + 1;
    }
    assert(v@.subrange(0, v@.len() as int) =~= v@);
    r
}

/// A copy of a frame.
fn copy_frame(v: &Vec<u8>) -> (r: Vec<u8>)
    ensures
        r@ == v@,
{
    let mut r: Vec<u8> = Vec::new();
    let mut i: usize = 0;
    while i < v.len()
        invariant
            i <= v@.len(),
            r@ == v@.subrange(0, i as int),
        decreases v@.len() - i,
    {
        r.push(v[i]);
        i = i + 1;
    }
    assert(v@.subrange(0, v@.len() as int) =~= v@);
    r
}

impl Ppu {
    /// Whether pixel (x, y) lies on the debug grid of `step` pixels.
    pub fn is_grid_line(nes: &Nes, x: u32, y: u32, step: u32) -> (r: bool)
        requires
            step > 0,
            x < u32::MAX,
            y < u32::MAX,
        ensures
            r == grid_line(nes.ppu.grid_on, x, y, step),
    {
        let grid_on = nes.ppu.grid_on;
        let grid_x = ((x + 1) % step) == 0;
        let grid_y = ((y + 1) % step) == 0;
        grid_on && (grid_x || grid_y)
    }

    /// The sprite pixel of the current dot (see `sp_pixel`).
    pub fn calc_sp_pixel_color_sel_and_palette_sel_and_priority(nes: &Nes) -> (r: (usize, usize, bool))
        requires
            nes.wf(),
        ensures
            r == sp_pixel(nes.ppu@.sprite_output_units),
    {
        let units = &nes.ppu.sprite_output_units;
        let mut i: usize = 0;
        while i < 8
            invariant
                0 <= i <= 8,
                units@.len() == 8,
                units@ == nes.ppu@.sprite_output_units,
                first_opaque(units@, 0) == first_opaque(units@, i as int),
            decreases 8 - i,
        {
            let u = units[i];
            let color_sel = unit_color(&u);
            if u.x == 0 && color_sel != 0 {
                assert(first_opaque(units@, i as int) == Some(i as int));
                let palette_sel: usize = (u.sprite_info.attr & 0x03) as usize + 0x04;
                let priority = u.sprite_info.attr & 0x20 == 0;
                return (color_sel, palette_sel, priority);
            }
            i = i + 1;
        }
        (0, 0, false)
    }

    /// The colour number of the first sprite that has started at this dot,
    /// transparent or not; 0 when none has.
    pub fn calc_sp_pixel_color_sel(nes: &Nes) -> (r: usize)
        requires
            nes.wf(),
        ensures
            r == match first_started(nes.ppu@.sprite_output_units, 0) {
                Some(j) => unit_color_sel(nes.ppu@.sprite_output_units[j]),
                None => 0,
            },
    {
        let units = &nes.ppu.sprite_output_units;
        let mut i: usize = 0;
        while i < 8
            invariant
                0 <= i <= 8,
                units@.len() == 8,
                units@ == nes.ppu@.sprite_output_units,
                first_started(units@, 0) == first_started(units@, i as int),
            decreases 8 - i,
        {
            let u = units[i];
            if u.x == 0 {
                assert(first_started(units@, i as int) == Some(i as int));
                return unit_color(&u);
            }
            i = i + 1;
        }
        0
    }

    /// The attribute bits 0 to 2 and the priority of the first sprite that
    /// has started at this dot; `(0, false)` when none has.
    pub fn calc_sp_pixel_palette_sel_and_priority(nes: &Nes) -> (r: (usize, bool))
        requires
            nes.wf(),
        ensures
            r == match first_started(nes.ppu@.sprite_output_units, 0) {
                Some(j) => (
                    (nes.ppu@.sprite_output_units[j].sprite_info.attr & 0x07) as usize,
                    nes.ppu@.sprite_output_units[j].sprite_info.attr & 0x20 == 0,
                ),
                None => (0usize, false),
            },
    {
        let units = &nes.ppu.sprite_output_units;
        let mut i: usize = 0;
        while i < 8
            invariant
                0 <= i <= 8,
                units@.len() == 8,
                units@ == nes.ppu@.sprite_output_units,
                first_started(units@, 0) == first_started(units@, i as int),
            decreases 8 - i,
        {
            let u = units[i];
            if u.x == 0 {
                assert(first_started(units@, i as int) == Some(i as int));
                let sel: usize = (u.sprite_info.attr & 0x07) as usize;
                let priority = u.sprite_info.attr & 0x20 == 0;
                return (sel, priority);
            }
            i = i + 1;
        }
        (0, false)
    }

    /// The background colour number of the current dot.
    pub fn calc_bg_pixel_color_sel(nes: &Nes) -> (r: usize)
        requires
            nes.wf(),
        ensures
            r == bg_color_sel(nes.ppu@),
    {
        let mask: u32 = 0x8000_0000u32 >> nes.ppu.fine_x;
        sel2((nes.ppu.nt_shift_reg_hi & mask) != 0, (nes.ppu.nt_shift_reg_lo & mask) != 0)
    }

    /// The background palette number of the current dot.
    pub fn calc_bg_pixel_palette_sel(nes: &Nes) -> (r: usize)
        requires
            nes.wf(),
        ensures
            r == bg_palette_sel(nes.ppu@),
    {
        let mask: u32 = 0x8000_0000u32 >> nes.ppu.fine_x;
        sel2((nes.ppu.at_shift_reg_hi & mask) != 0, (nes.ppu.at_shift_reg_lo & mask) != 0)
    }

    /// The master palette entry of colour `color_sel` of palette `palette_sel`.
    pub fn ld_color_index(nes: &Nes, palette_sel: usize, color_sel: usize) -> (r: usize)
        requires
            nes.wf(),
            4 * palette_sel + color_sel + 0x3F00 <= usize::MAX,
        ensures
            r == ppu_read(nes.ppu@, color_addr(palette_sel, color_sel)) as usize,
    {
        let palette_base_addr: usize = 0x3F00;
        let palette_ld_addr: usize = 4 * palette_sel + color_sel + palette_base_addr;
        let addr: u16 = if color_sel == 0 {
            0x3F00
        } else {
            palette_ld_addr as u16
        };
        nes.ppu.read8(addr) as usize
    }

    /// Whether dot `ev_x` of line `ev_y` is background fetch step `offset`.
    pub fn ppu_line_timing(ev_x: u32, ev_y: u32, offset: u32) -> (r: bool)
        ensures
            r == line_timing(ev_x, ev_y, offset),
    {
        let a = ev_x % 8 == offset;
        let b = ev_x < 249 || (321 <= ev_x && ev_x < 337);
        let c = ev_y < VFRAME_H || ev_y == PRE_RENDER_LINE;
        a && b && c
    }

    /// The dot and line 20 dots after (ev_x, ev_y), wrapping into the next
    /// line and from the pre-render line to line 0.
    pub fn calc_ld_at_coord(ev_x: u32, ev_y: u32) -> (r: (u32, u32))
        requires
            ev_x <= u32::MAX - 20,
            ev_y < u32::MAX,
        ensures
            r.0 == (ev_x + 20) % (FRAME_W as int),
            r.1 == (if r.0 < ev_x { ev_y + 1 } else { ev_y as int }) % (PRE_RENDER_LINE + 1),
    {
        let ld_x_offset: u32 = 20;
        let ld_x: u32 = (ev_x + ld_x_offset) % FRAME_W;
        let ld_y: u32 = (if ld_x < ev_x { ev_y + 1 } else { ev_y }) % (PRE_RENDER_LINE + 1);
        (ld_x, ld_y)
    }

    /// The world position (under the frame's scroll) of the tile drawn at
    /// screen position (ld_x, ld_y).
    pub fn calc_world_coord(nes: &Nes, ld_x: u32, ld_y: u32) -> (r: (u32, u32))
        ensures
            r == (world_x(nes.ppu@, ld_x), world_y(nes.ppu@, ld_y)),
    {
        let sx: u32 = (nes.ppu.frame_scroll_x / 8) as u32 * 8;
        let sy: u32 = nes.ppu.frame_scroll_y as u32;
        let wx: u32 = (sx % 512 + ld_x % 512) % 512;
        let wy: u32 = (sy % 480 + ld_y % 480) % 480;
        assert(wx == (sx + ld_x) % 512) by (nonlinear_arith)
            requires
                wx == (sx % 512 + ld_x % 512) % 512,
        ;
        assert(wy == (sy + ld_y) % 480) by (nonlinear_arith)
            requires
                wy == (sy % 480 + ld_y % 480) % 480,
        ;
        (wx, wy)
    }

    /// The attribute table address for the tile drawn at screen position
    /// (ld_x, ld_y), under the frame's scroll.
    pub fn calc_ld_at_addr(nes: &Nes, ld_x: u32, ld_y: u32) -> (r: u16)
        ensures
            r == ld_at_addr(world_x(nes.ppu@, ld_x), world_y(nes.ppu@, ld_y)),
    {
        let (wx, wy) = Ppu::calc_world_coord(nes, ld_x, ld_y);
        let table: u32 = (wy / 240) % 2 * 2 + (wx / 256) % 2;
        let at_x: u32 = (wx % 256) / 32;
        let at_y: u32 = (wy % 240) / 32;
        (0x23C0 + table * 0x400 + at_y * 8 + at_x) as u16
    }

    /// The attribute palette bits of (ld_x, ld_y) in `at_byte` (see `at_bits`).
    pub fn calc_at_at_bit(ld_x: u32, ld_y: u32, at_byte: u8) -> (r: (u8, u8))
        ensures
            r == at_bits(ld_x, ld_y, at_byte),
    {
        let lsb: u8 = if (ld_x & (1 << 4)) != 0 { 1 } else { 0 };
        let msb: u8 = if (ld_y & (1 << 4)) != 0 { 1 } else { 0 };
        assert(1u32 << 4u32 == 16) by (bit_vector);
        let shift: u8 = msb * 2 + lsb;
        let at_2bits: u8 = (at_byte >> (shift * 2)) & 0b0000_0011;
        let upper_bit: u8 = if (at_2bits & 0b10) != 0 { 0xFF } else { 0 };
        let lower_bit: u8 = if (at_2bits & 0b01) != 0 { 0xFF } else { 0 };
        (upper_bit, lower_bit)
    }

    /// Loads the attribute bytes into the attribute shift registers,
    /// `16 - offset` bits up.
    pub fn update_at_shiftregs_w_offset(nes: &mut Nes, hi_byte: u8, lo_byte: u8, offset: u8)
        requires
            old(nes).wf(),
            offset <= 16,
        ensures
            final(nes).wf(),
            final(nes)@ == (NesModel {
                ppu: PpuModel {
                    at_shift_reg_hi: load_shift(old(nes)@.ppu.at_shift_reg_hi, hi_byte, offset),
                    at_shift_reg_lo: load_shift(old(nes)@.ppu.at_shift_reg_lo, lo_byte, offset),
                    ..old(nes)@.ppu
                },
                ..old(nes)@
            }),
    {
        let hi = nes.ppu.at_shift_reg_hi;
        let lo = nes.ppu.at_shift_reg_lo;
        let sh: u32 = (16 - offset) as u32;
        let hi_shift: u32 = (hi_byte as u32) << sh;
        let lo_shift: u32 = (lo_byte as u32) << sh;
        nes.ppu.at_shift_reg_hi = hi | hi_shift;
        nes.ppu.at_shift_reg_lo = lo | lo_shift;
    }

    /// Where the tile fetched at (ev_x, ev_y) is drawn (see `ld_nt_coord`).
    pub fn calc_ld_nt_coord(ev_x: u32, ev_y: u32) -> (r: (u32, u32))
        requires
            ev_x <= u32::MAX - 21,
            ev_y < u32::MAX,
        ensures
            r == ld_nt_coord(ev_x, ev_y),
    {
        let ld_x_offset: u32 = if ev_x < 249 { 16 } else { 21 };
        let ld_x: u32 = (ev_x + ld_x_offset) % FRAME_W;
        let ld_y: u32 = (if ld_x < ev_x { ev_y + 1 } else { ev_y }) % FRAME_H;
        (ld_x, ld_y)
    }

    /// The nametable address of the tile drawn at screen position
    /// (ld_x, ld_y), under the frame's scroll.
    pub fn calc_ld_nt_addr(nes: &Nes, ld_x: u32, ld_y: u32) -> (r: u16)
        ensures
            r == ld_nt_addr(world_x(nes.ppu@, ld_x), world_y(nes.ppu@, ld_y)),
    {
        let (wx, wy) = Ppu::calc_world_coord(nes, ld_x, ld_y);
        let table: u32 = (wy / 240) % 2 * 2 + (wx / 256) % 2;
        let nt_x: u32 = (wx % 256) / 8;
        let nt_y: u32 = (wy % 240) / 8;
        (0x2000 + table * 0x400 + nt_y * 32 + nt_x) as u16
    }

    /// The pattern address of row `ld_y % 8` of background tile `sprite_index`.
    pub fn calc_nt_sprite_addr(nes: &Nes, _ld_x: u32, ld_y: u32, sprite_index: u8) -> (r: u16)
        ensures
            r == nt_sprite_addr(nes.ppu.ctrl, ld_y, sprite_index),
    {
        let nt_pattern_dy: u16 = (ld_y % 8) as u16;
        let nt_pattern_id: u16 = (sprite_index as u16) << 4u16;
        let nt_offset_addr: u16 = if nes.ppu.ctrl.contains(PpuCtrl::BACKGROUND_PATTERN_TABLE_ADDR) { 0x1000 } else { 0 };
        nt_offset_addr | nt_pattern_id | nt_pattern_dy
    }

    /// The two pattern bytes of a background tile row: (high plane, low plane).
    pub fn calc_nt_color_index(nes: &Nes, bg_sprite_line_addr: u16) -> (r: (u8, u8))
        requires
            nes.wf(),
        ensures
            r == (ppu_read(nes.ppu@, bg_sprite_line_addr.wrapping_add(8)), ppu_read(nes.ppu@, bg_sprite_line_addr)),
    {
        let bitmap_lo_byte = nes.ppu.read8(bg_sprite_line_addr);
        let bitmap_hi_byte = nes.ppu.read8(bg_sprite_line_addr.wrapping_add(8));
        (bitmap_hi_byte, bitmap_lo_byte)
    }

    /// Loads the pattern bytes into the pattern shift registers, `16 - offset` bits up.
    pub fn update_nt_shiftregs_w_offset(nes: &mut Nes, hi_byte: u8, lo_byte: u8, offset: u8)
        requires
            old(nes).wf(),
            offset <= 16,
        ensures
            final(nes).wf(),
            final(nes)@ == (NesModel {
                ppu: PpuModel {
                    nt_shift_reg_hi: load_shift(old(nes)@.ppu.nt_shift_reg_hi, hi_byte, offset),
                    nt_shift_reg_lo: load_shift(old(nes)@.ppu.nt_shift_reg_lo, lo_byte, offset),
                    ..old(nes)@.ppu
                },
                ..old(nes)@
            }),
    {
        let hi = nes.ppu.nt_shift_reg_hi;
        let lo = nes.ppu.nt_shift_reg_lo;
        let sh: u32 = (16 - offset) as u32;
        let hi_shift: u32 = (hi_byte as u32) << sh;
        let lo_shift: u32 = (lo_byte as u32) << sh;
        nes.ppu.nt_shift_reg_hi = hi | hi_shift;
        nes.ppu.nt_shift_reg_lo = lo | lo_shift;
    }

    /// Whether dot `ev_x` is OAM scan step `offset`.
    pub fn sprite_evaluate_timing(ev_x: u32, offset: u32) -> (r: bool)
        ensures
            r == evaluate_timing(ev_x, offset),
    {
        65 <= ev_x && ev_x <= 256 && (ev_x - 65) % 2 == offset
    }

    /// Whether dot `ev_x` is sprite fetch step `offset`.
    pub fn sprite_loading_timing(ev_x: u32, offset: u32) -> (r: bool)
        ensures
            r == loading_timing(ev_x, offset),
    {
        257 <= ev_x && ev_x <= 320 && (ev_x - 257) % 8 == offset
    }

    /// The pattern address of the row of `sprite_info` that line `y` shows.
    pub fn sprite_loading_addr(nes: &Nes, y: u32, sprite_info: &SpriteInfo) -> (r: u16)
        ensures
            r == sprite_addr(nes.ppu.ctrl, y, *sprite_info),
    {
        let sprite_offset_addr: u16 = if nes.ppu.ctrl.contains(PpuCtrl::SPRITE_PATTERN_TABLE_ADDR) { 0x1000 } else { 0 };
        let dy: u16 = y.wrapping_sub(sprite_info.y as u32) as u16;
        let sprite_patten_dy: u16 = if sprite_info.attr & 0x80 == 0x00 {
            dy
        } else {
            7u16.wrapping_sub(dy)
        };
        let sprite_pattern_id: u16 = (sprite_info.id as u16) << 4u16;
        sprite_offset_addr | sprite_pattern_id | sprite_patten_dy
    }

    /// The pattern bytes of a sprite as drawn (see `flip_bytes`).
    pub fn sprite_flipbyte(sprite_info: &SpriteInfo, lo_byte: u8, hi_byte: u8) -> (r: (u8, u8))
        ensures
            r == flip_bytes(*sprite_info, lo_byte, hi_byte),
    {
        if sprite_info.attr & 0x40 == 0x00 {
            (lo_byte, hi_byte)
        } else {
            (flipbyte(lo_byte), flipbyte(hi_byte))
        }
    }

    /// Every sprite output unit moves on one dot (see `units_phase`).
    pub fn sprite_output_units_update(nes: &mut Nes)
        requires
            old(nes).wf(),
        ensures
            final(nes).wf(),
            final(nes)@ == units_phase(old(nes)@),
    {
        reveal(units_phase);
        let ghost old_units = nes.ppu.sprite_output_units@;
        let mut i: usize = 0;
        while i < 8
            invariant
                nes.wf(),
                0 <= i <= 8,
                nes@ == (NesModel {
                    ppu: PpuModel { sprite_output_units: nes@.ppu.sprite_output_units, ..old(nes)@.ppu },
                    ..old(nes)@
                }),
                old_units == old(nes)@.ppu.sprite_output_units,
                forall|k: int| 0 <= k < i ==> nes@.ppu.sprite_output_units[k] == unit_step(old_units[k]),
                forall|k: int| i <= k < 8 ==> nes@.ppu.sprite_output_units[k] == old_units[k],
            decreases 8 - i,
        {
            let mut unit = nes.ppu.sprite_output_units[i];
            if unit.x > 0 {
                unit.x = unit.x - 1;
            } else {
                unit.sprite_lsbits = unit.sprite_lsbits << 1u8;
                unit.sprite_msbits = unit.sprite_msbits << 1u8;
            }
            nes.ppu.sprite_output_units.set(i, unit);
            i = i + 1;
        }
        assert(nes@.ppu.sprite_output_units =~= units_phase(old(nes)@).ppu.sprite_output_units);
    }
}

impl Ppu {
    /// Draws dot (x, y) of a visible line (see `render_pixel`).
    #[verifier::spinoff_prover]
    #[verifier::rlimit(40)]
    fn render_pixel(nes: &mut Nes, x: u32, y: u32)
        requires
            old(nes).wf(),
            x < 256,
            y < 240,
        ensures
            final(nes).wf(),
            final(nes)@ == render_pixel(old(nes)@, x, y),
    {
        reveal(render_pixel);
        let bg_color_sel = Ppu::calc_bg_pixel_color_sel(nes);
        let bg_palette_sel = Ppu::calc_bg_pixel_palette_sel(nes);
        let (sp_color_sel, sp_palette_sel, sp_priority) =
            Ppu::calc_sp_pixel_color_sel_and_palette_sel_and_priority(nes);
        let u0 = nes.ppu.sprite_output_units[0];
        let is_sprite0_active = u0.x == 0 && (u0.sprite_lsbits & 0x80 != 0 || u0.sprite_msbits & 0x80 != 0);
        if bg_color_sel != 0 && sp_color_sel != 0 && is_sprite0_active && x < 255 {
            nes.ppu.status = nes.ppu.status.union(PpuStatus::ZERO_HIT);
        }
        let (color_sel, palette_sel) = mux(bg_color_sel, bg_palette_sel, sp_color_sel, sp_palette_sel, sp_priority);
        let color_index = Ppu::ld_color_index(nes, palette_sel, color_sel);
        if color_index >= 64 {
            nes.record_fault(Fault::ColorIndex(color_index as u8));
            return;
        }
        let color = COLORS(color_index);
        let pixel: (u8, u8, u8, u8) = if Ppu::is_grid_line(nes, x, y, 8) {
            (255, 255, 0, 100)
        } else {
            (color.0, color.1, color.2, 255)
        };
        let o: usize = ((y * 256 + x) * 4) as usize;
        nes.ppu.buf.set(o, pixel.0);
        nes.ppu.buf.set(o + 1, pixel.1);
        nes.ppu.buf.set(o + 2, pixel.2);
        nes.ppu.buf.set(o + 3, pixel.3);
    }

    /// The pixel output stage at the current dot (see `render_phase`).
    fn renderer(nes: &mut Nes)
        requires
            old(nes).wf(),
        ensures
            final(nes).wf(),
            final(nes)@ == render_phase(old(nes)@),
    {
        reveal(render_phase);
        let x = nes.ppu.dot;
        let y = nes.ppu.scanline;
        if y <= VFRAME_END {
            if x < 256 {
                Ppu::render_pixel(nes, x, y);
            }
        } else if y == SET_VBLANK_LINE && x == 1 {
            nes.ppu.status = nes.ppu.status.union(PpuStatus::VBLANK_STARTED);
            if nes.ppu.ctrl.contains(PpuCtrl::VBLANK_INTERRUPT) {
                nes.cpu.nmi = true;
            }
            nes.ppu.img = copy_frame(&nes.ppu.buf);
            nes.ppu.warmed_up = true;
            nes.vblank = true;
        } else if y == PRE_RENDER_LINE && x == 1 {
            nes.ppu.status = nes.ppu.status.difference(PpuStatus::VBLANK_STARTED | PpuStatus::ZERO_HIT);
            let scroll = nes.ppu.scroll;
            let base_x: u16 = if nes.ppu.ctrl.bits & PpuCtrl::NAMETABLE_LO != 0 { 256 } else { 0 };
            let base_y: u16 = if nes.ppu.ctrl.bits & PpuCtrl::NAMETABLE_HI != 0 { 240 } else { 0 };
            nes.ppu.frame_scroll_x = base_x + scroll % 256;
            nes.ppu.frame_scroll_y = (base_y + scroll / 256) % 480;
            nes.ppu.fine_x = (scroll % 8) as u8;
        }
    }

    /// The background fetches at the current dot (see `nt_phase`).
    fn nt_evaluation(nes: &mut Nes)
        requires
            old(nes).wf(),
        ensures
            final(nes).wf(),
            final(nes)@ == nt_phase(old(nes)@),
    {
        reveal(nt_phase);
        let x = nes.ppu.dot;
        let y = nes.ppu.scanline;
        if !(y == PRE_RENDER_LINE || y <= VFRAME_END) {
            return;
        }
        let shift_offset: u8 = if x < 249 { 0 } else { 5 };
        if Ppu::ppu_line_timing(x, y, 1) {
            let (ld_x, ld_y) = Ppu::calc_ld_nt_coord(x, y);
            let nt_addr = Ppu::calc_ld_nt_addr(nes, ld_x, ld_y);
            let sprite_index = nes.ppu.read8(nt_addr);
            nes.ppu.tile_info = TileInfo { ld_x, ld_y, sprite_index };
        } else if Ppu::ppu_line_timing(x, y, 3) {
            let ld_x = nes.ppu.tile_info.ld_x;
            let ld_y = nes.ppu.tile_info.ld_y;
            let at_addr = Ppu::calc_ld_at_addr(nes, ld_x, ld_y);
            let bg_at_byte = nes.ppu.read8(at_addr);
            let (wx, wy) = Ppu::calc_world_coord(nes, ld_x, ld_y);
            let (hi_bit, lo_bit) = Ppu::calc_at_at_bit(wx % 256, wy % 240, bg_at_byte);
            Ppu::update_at_shiftregs_w_offset(nes, hi_bit, lo_bit, shift_offset);
        } else if Ppu::ppu_line_timing(x, y, 7) {
            let ld_x = nes.ppu.tile_info.ld_x;
            let ld_y = nes.ppu.tile_info.ld_y;
            let sprite_index = nes.ppu.tile_info.sprite_index;
            let (wx, wy) = Ppu::calc_world_coord(nes, ld_x, ld_y);
            let bg_sprite_line_addr = Ppu::calc_nt_sprite_addr(nes, wx % 256, wy % 240, sprite_index);
            let bitmap_bytes = Ppu::calc_nt_color_index(nes, bg_sprite_line_addr);
            Ppu::update_nt_shiftregs_w_offset(nes, bitmap_bytes.0, bitmap_bytes.1, shift_offset);
        }
    }

    /// Sprite evaluation at the current dot (see `sprite_phase`).
    fn sprite_evaluation(nes: &mut Nes)
        requires
            old(nes).wf(),
        ensures
            final(nes).wf(),
            final(nes)@ == sprite_phase(old(nes)@),
    {
        reveal(sprite_phase);
        let x = nes.ppu.dot;
        let y = nes.ppu.scanline;
        if x == 0 {
            nes.ppu.status = nes.ppu.status.difference(PpuStatus::OVERFLOW);
        }
        if y >= VFRAME_H {
            return;
        }
        if x == 64 {
            nes.ppu.oam_scan_index = 0;
            let mut oam_buf: Vec<SpriteInfo> = Vec::new();
            let mut i: usize = 0;
            while i < 8
                invariant
                    i <= 8,
                    oam_buf@ == Seq::new(i as nat, |k: int| empty_sprite()),
                decreases 8 - i,
            {
                oam_buf.push(SpriteInfo::default());
                i = i + 1;
            }
            nes.ppu.oam_buf = oam_buf;
            nes.ppu.oam_buf_index = 0;
        } else if Ppu::sprite_evaluate_timing(x, 0) {
            let k: usize = nes.ppu.oam_scan_index;
            let sprite_y_m_1: u32 = nes.ppu.oam[k * 4] as u32;
            if sprite_y_m_1 <= y && y < sprite_y_m_1 + 8 {
                if nes.ppu.oam_buf_index < 8 {
                    let sprite_info = SpriteInfo {
                        y: nes.ppu.oam[k * 4],
                        id: nes.ppu.oam[k * 4 + 1],
                        attr: nes.ppu.oam[k * 4 + 2],
                        x: nes.ppu.oam[k * 4 + 3],
                    };
                    let bi = nes.ppu.oam_buf_index;
                    nes.ppu.oam_buf.set(bi, sprite_info);
                    nes.ppu.oam_buf_index = bi + 1;
                } else {
                    nes.ppu.status = nes.ppu.status.union(PpuStatus::OVERFLOW);
                }
            }
            if nes.ppu.oam_scan_index < 63 {
                nes.ppu.oam_scan_index = nes.ppu.oam_scan_index + 1;
            }
        } else if x == 257 {
            nes.ppu.secondary_oam = copy_sprites(&nes.ppu.oam_buf);
        } else if Ppu::sprite_loading_timing(x, 3) {
            let index: usize = ((x - 257) / 8) as usize;
            let sprite_info = nes.ppu.secondary_oam[index];
            let sprite_pattern_addr_lo = Ppu::sprite_loading_addr(nes, y, &sprite_info);
            let sprite_lsbits = nes.ppu.read8(sprite_pattern_addr_lo);
            let sprite_msbits = nes.ppu.read8(sprite_pattern_addr_lo.wrapping_add(8));
            let (sprite_lsbits, sprite_msbits) = Ppu::sprite_flipbyte(&sprite_info, sprite_lsbits, sprite_msbits);
            let sprite_output = SpriteOutputUnit { sprite_lsbits, sprite_msbits, x: sprite_info.x, sprite_info };
            nes.ppu.sprite_output_units_buf.set(index, sprite_output);
        } else if x == 340 {
            nes.ppu.sprite_output_units = copy_units(&nes.ppu.sprite_output_units_buf);
        }
    }

    /// The background shift registers move one bit up (see `shift_phase`).
    fn shift_regs(nes: &mut Nes)
        requires
            old(nes).wf(),
        ensures
            final(nes).wf(),
            final(nes)@ == shift_phase(old(nes)@),
    {
        nes.ppu.nt_shift_reg_hi = nes.ppu.nt_shift_reg_hi << 1u32;
        nes.ppu.nt_shift_reg_lo = nes.ppu.nt_shift_reg_lo << 1u32;
        nes.ppu.at_shift_reg_hi = nes.ppu.at_shift_reg_hi << 1u32;
        nes.ppu.at_shift_reg_lo = nes.ppu.at_shift_reg_lo << 1u32;
    }

    /// On to the next dot, line and frame (see `advance_phase`).
    fn advance(nes: &mut Nes)
        requires
            old(nes).wf(),
        ensures
            final(nes).wf(),
            final(nes)@ == advance_phase(old(nes)@),
    {
        if nes.ppu.dot + 1 < FRAME_W {
            nes.ppu.dot = nes.ppu.dot + 1;
        } else if nes.ppu.scanline + 1 < FRAME_H {
            nes.ppu.dot = 0;
            nes.ppu.scanline = nes.ppu.scanline + 1;
        } else {
            nes.ppu.dot = 0;
            nes.ppu.scanline = 0;
            nes.ppu.frame = nes.ppu.frame.wrapping_add(1);
        }
    }

    /// One PPU cycle (see `ppu_dot`): reports the dot it drew.
    pub fn run(nes: &mut Nes) -> (r: PpuStep)
        requires
            old(nes).wf(),
        ensures
            final(nes).wf(),
            final(nes)@ == ppu_dot(old(nes)@),
            r == PpuStep::Cycle(RenderStep::Cycle(old(nes).ppu.frame, old(nes).ppu.dot, old(nes).ppu.scanline), 0),
    {
        let step = PpuStep::Cycle(RenderStep::Cycle(nes.ppu.frame, nes.ppu.dot, nes.ppu.scanline), 0);
        Ppu::renderer(nes);
        Ppu::shift_regs(nes);
        Ppu::sprite_output_units_update(nes);
        Ppu::nt_evaluation(nes);
        Ppu::sprite_evaluation(nes);
        Ppu::advance(nes);
        step
    }
}

impl Nes {
    /// One CPU cycle's worth of PPU time: three PPU cycles.
    pub fn tick(&mut self)
        requires
            old(self).wf(),
        ensures
            final(self).wf(),
            final(self)@ == tick_spec(old(self)@),
    {
        reveal(tick_spec);
        Ppu::run(self);
        Ppu::run(self);
        Ppu::run(self);
    }
}

/// The bits of `b` in reverse order.
fn flipbyte(b: u8) -> (r: u8)
    ensures
        r == flip(b),
{
    let b: u8 = (b & 0xF0u8) >> 4u8 | (b & 0x0Fu8) << 4u8;
    let b: u8 = (b & 0xCCu8) >> 2u8 | (b & 0x33u8) << 2u8;
    (b & 0xAAu8) >> 1u8 | (b & 0x55u8) << 1u8
}

} // verus!
