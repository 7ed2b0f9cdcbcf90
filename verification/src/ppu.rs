//! The picture processing unit: its memory (pattern tables in CHR-ROM,
//! nametables in VRAM, the palette and OAM), its CPU-visible registers, and
//! the per-dot rendering pipeline.
use vstd::prelude::*;
use crate::fault::Fault;
use crate::flags::{PpuCtrl, PpuMask, PpuStatus};

verus! {

/// How the four logical nametables map onto the two physical ones.
#[derive(Debug, Clone, Copy, PartialEq, Eq, Structural)]
pub enum MIRROR {
    HORIZONTAL,
    VERTICAL,
    ONESCREEN_LO,
    ONESCREEN_HI,
}

/// A sprite as OAM stores it: top row minus one, tile, attributes, left column.
#[derive(Debug, Clone, Copy, PartialEq, Eq, Structural)]
pub struct SpriteInfo {
    pub y: u8,
    pub id: u8,
    pub attr: u8,
    pub x: u8,
}

/// One sprite of the scanline being drawn: its two pattern bytes, shifted
/// out from the top bit, and the dots left before it starts.
#[derive(Debug, Clone, Copy, PartialEq, Eq, Structural)]
pub struct SpriteOutputUnit {
    pub sprite_lsbits: u8,
    pub sprite_msbits: u8,
    pub x: u8,
    pub sprite_info: SpriteInfo,
}

/// The background tile being fetched: the dot and line it is drawn at, and its tile number.
#[derive(Debug, Clone, Copy, PartialEq, Eq, Structural)]
pub struct TileInfo {
    pub ld_x: u32,
    pub ld_y: u32,
    pub sprite_index: u8,
}

impl SpriteInfo {
    /// The empty slot: every byte $FF.
    pub fn default() -> (r: SpriteInfo)
        ensures
            r == empty_sprite(),
    {
        SpriteInfo { y: 0xFF, id: 0xFF, attr: 0xFF, x: 0xFF }
    }
}

pub open spec fn empty_sprite() -> SpriteInfo {
    SpriteInfo { y: 0xFF, id: 0xFF, attr: 0xFF, x: 0xFF }
}

pub open spec fn empty_unit() -> SpriteOutputUnit {
    SpriteOutputUnit { sprite_lsbits: 0, sprite_msbits: 0, x: 0, sprite_info: empty_sprite() }
}

impl SpriteOutputUnit {
    /// An output unit with nothing to draw.
    pub fn default() -> (r: SpriteOutputUnit)
        ensures
            r == empty_unit(),
    {
        SpriteOutputUnit {
            sprite_lsbits: 0,
            sprite_msbits: 0,
            x: 0,
            sprite_info: SpriteInfo::default(),
        }
    }
}

impl TileInfo {
    pub fn default() -> (r: TileInfo)
        ensures
            r == (TileInfo { ld_x: 0, ld_y: 0, sprite_index: 0 }),
    {
        TileInfo { ld_x: 0, ld_y: 0, sprite_index: 0 }
    }
}

/// Bytes in a frame of RGBA pixels.
pub const FRAME_BYTES: usize = 245760;

/// The PPU. Besides the registers, it holds the state that the rendering
/// pipeline carries from dot to dot: the frame being drawn (`buf`), the dot
/// and scanline to process next, the background tile being fetched and the
/// sprites being gathered for the next scanline.
pub struct Ppu {
    pub chrrom: Vec<u8>,
    pub vram: Vec<u8>,
    pub oam: Vec<u8>,
    pub palette: Vec<u8>,
    pub addr: u16,
    pub ctrl: PpuCtrl,
    pub mask: PpuMask,
    pub status: PpuStatus,
    pub oamaddr: u8,
    pub scroll: u16,
    pub latch: bool,
    /// Whether the first vertical blank has come since power-up; until it
    /// has, writes to $2000, $2005 and $2006 are ignored.
    pub warmed_up: bool,
    /// The scroll of the frame being drawn, latched at the pre-render line:
    /// the world position (in the 512x480 area of the four nametables) of
    /// the top left pixel, and its fine X part.
    pub frame_scroll_x: u16,
    pub frame_scroll_y: u16,
    pub fine_x: u8,
    /// The last finished frame, RGBA, row by row.
    pub img: Vec<u8>,
    pub data_buf2006: u8,
    pub secondary_oam: Vec<SpriteInfo>,
    pub sprite_output_units: Vec<SpriteOutputUnit>,
    pub nt_shift_reg_hi: u32,
    pub nt_shift_reg_lo: u32,
    pub at_shift_reg_hi: u32,
    pub at_shift_reg_lo: u32,
    pub mirror: MIRROR,
    pub grid_on: bool,
    pub debug_num: u32,
    /// The frame being drawn.
    pub buf: Vec<u8>,
    pub dot: u32,
    pub scanline: u32,
    pub frame: u32,
    pub tile_info: TileInfo,
    pub oam_scan_index: usize,
    pub oam_buf_index: usize,
    pub oam_buf: Vec<SpriteInfo>,
    pub sprite_output_units_buf: Vec<SpriteOutputUnit>,
}

/// The PPU as a mathematical value.
pub struct PpuModel {
    pub chrrom: Seq<u8>,
    pub vram: Seq<u8>,
    pub oam: Seq<u8>,
    pub palette: Seq<u8>,
    pub addr: u16,
    pub ctrl: PpuCtrl,
    pub mask: PpuMask,
    pub status: PpuStatus,
    pub oamaddr: u8,
    pub scroll: u16,
    pub latch: bool,
    /// Whether the first vertical blank has come since power-up; until it
    /// has, writes to $2000, $2005 and $2006 are ignored.
    pub warmed_up: bool,
    /// The scroll of the frame being drawn, latched at the pre-render line:
    /// the world position (in the 512x480 area of the four nametables) of
    /// the top left pixel, and its fine X part.
    pub frame_scroll_x: u16,
    pub frame_scroll_y: u16,
    pub fine_x: u8,
    pub img: Seq<u8>,
    pub data_buf2006: u8,
    pub secondary_oam: Seq<SpriteInfo>,
    pub sprite_output_units: Seq<SpriteOutputUnit>,
    pub nt_shift_reg_hi: u32,
    pub nt_shift_reg_lo: u32,
    pub at_shift_reg_hi: u32,
    pub at_shift_reg_lo: u32,
    pub mirror: MIRROR,
    pub grid_on: bool,
    pub debug_num: u32,
    pub buf: Seq<u8>,
    pub dot: u32,
    pub scanline: u32,
    pub frame: u32,
    pub tile_info: TileInfo,
    pub oam_scan_index: usize,
    pub oam_buf_index: usize,
    pub oam_buf: Seq<SpriteInfo>,
    pub sprite_output_units_buf: Seq<SpriteOutputUnit>,
}

impl View for Ppu {
    type V = PpuModel;

    open spec fn view(&self) -> PpuModel {
        PpuModel {
            chrrom: self.chrrom@,
            vram: self.vram@,
            oam: self.oam@,
            palette: self.palette@,
            addr: self.addr,
            ctrl: self.ctrl,
            mask: self.mask,
            status: self.status,
            oamaddr: self.oamaddr,
            scroll: self.scroll,
            latch: self.latch,
            warmed_up: self.warmed_up,
            frame_scroll_x: self.frame_scroll_x,
            frame_scroll_y: self.frame_scroll_y,
            fine_x: self.fine_x,
            img: self.img@,
            data_buf2006: self.data_buf2006,
            secondary_oam: self.secondary_oam@,
            sprite_output_units: self.sprite_output_units@,
            nt_shift_reg_hi: self.nt_shift_reg_hi,
            nt_shift_reg_lo: self.nt_shift_reg_lo,
            at_shift_reg_hi: self.at_shift_reg_hi,
            at_shift_reg_lo: self.at_shift_reg_lo,
            mirror: self.mirror,
            grid_on: self.grid_on,
            debug_num: self.debug_num,
            buf: self.buf@,
            dot: self.dot,
            scanline: self.scanline,
            frame: self.frame,
            tile_info: self.tile_info,
            oam_scan_index: self.oam_scan_index,
            oam_buf_index: self.oam_buf_index,
            oam_buf: self.oam_buf@,
            sprite_output_units_buf: self.sprite_output_units_buf@,
        }
    }
}

impl PpuModel {
    /// The sizes of the memories and the ranges of the pipeline counters.
    pub open spec fn wf(self) -> bool {
        &&& self.chrrom.len() == 0x2000
        &&& self.vram.len() == 0x1000
        &&& self.oam.len() == 0x100
        &&& self.palette.len() == 0x20
        &&& self.img.len() == FRAME_BYTES
        &&& self.buf.len() == FRAME_BYTES
        &&& self.secondary_oam.len() == 8
        &&& self.sprite_output_units.len() == 8
        &&& self.oam_buf.len() == 8
        &&& self.sprite_output_units_buf.len() == 8
        &&& self.dot < 341
        &&& self.scanline < 262
        &&& self.oam_scan_index < 64
        &&& self.oam_buf_index <= 8
        &&& self.fine_x < 8
    }
}

/// The VRAM cell that nametable offset `a` (address minus $2000) reaches, if
/// the mirroring mode maps it.
pub open spec fn vram_slot(mirror: MIRROR, a: int) -> Option<int> {
    match mirror {
        MIRROR::VERTICAL => if 0 <= a < 0x800 {
            Some(a)
        } else if 0x800 <= a < 0x1000 {
            Some(a - 0x800)
        } else {
            None
        },
        MIRROR::HORIZONTAL => if 0 <= a < 0x400 {
            Some(a)
        } else if 0x400 <= a < 0xC00 {
            Some(a - 0x400)
        } else if 0xC00 <= a < 0x1000 {
            Some(a - 0x800)
        } else {
            None
        },
        _ => None,
    }
}

/// What a read of an unmapped nametable address returns.
pub open spec fn unmapped_nametable_value(mirror: MIRROR) -> u8 {
    match mirror {
        MIRROR::VERTICAL => 0,
        MIRROR::HORIZONTAL => 1,
        _ => 2,
    }
}

/// The byte at `addr` of the PPU address space.
pub open spec fn ppu_read(p: PpuModel, addr: u16) -> u8 {
    if addr <= 0x1FFF {
        p.chrrom[addr as int]
    } else if addr <= 0x3EFF {
        match vram_slot(p.mirror, addr - 0x2000) {
            Some(i) => p.vram[i],
            None => unmapped_nametable_value(p.mirror),
        }
    } else if addr <= 0x3F1F {
        p.palette[addr - 0x3F00]
    } else if addr <= 0x3FFF {
        p.palette[(addr - 0x3F20) % 0x20]
    } else {
        0
    }
}

/// The palette cell that a write to `addr` ($3F00-$3FFF) reaches, if any.
pub open spec fn palette_write_slot(addr: u16) -> Option<int> {
    if addr <= 0x3F1F {
        if addr == 0x3F10 || addr == 0x3F14 || addr == 0x3F19 || addr == 0x3F1C {
            Some(addr - 0x3F10)
        } else {
            Some(addr - 0x3F00)
        }
    } else {
        let off = ((addr - 0x3F20) as u16) & 0x20u16;
        if off < 0x20 {
            Some(off as int)
        } else {
            None
        }
    }
}

/// The PPU after writing `data` at `addr` of its address space, or the fault
/// that such a write is.
pub open spec fn ppu_write(p: PpuModel, addr: u16, data: u8) -> Result<PpuModel, Fault> {
    if addr <= 0x1FFF {
        Err(Fault::ChrWrite(addr))
    } else if addr <= 0x3EFF {
        match vram_slot(p.mirror, addr - 0x2000) {
            Some(i) => Ok(PpuModel { vram: p.vram.update(i, data), ..p }),
            None => Err(Fault::PpuWrite(addr)),
        }
    } else if addr <= 0x3FFF {
        match palette_write_slot(addr) {
            Some(i) => Ok(PpuModel { palette: p.palette.update(i, data), ..p }),
            None => Err(Fault::PpuWrite(addr)),
        }
    } else {
        Err(Fault::PpuWrite(addr))
    }
}

/// How far $2007 accesses move the VRAM address.
pub open spec fn vram_step(ctrl: PpuCtrl) -> u16 {
    if ctrl.bits & PpuCtrl::VRAM_ADDR_INCREMENT == PpuCtrl::VRAM_ADDR_INCREMENT {
        32
    } else {
        1
    }
}

/// A read of PPU register `reg` (0 to 7): the PPU afterwards and the byte
/// read, or the fault that reading a write-only register is.
#[verifier::opaque]
pub open spec fn ppu_read_reg(p: PpuModel, reg: u16) -> (PpuModel, Result<u8, Fault>) {
    if reg == 2 {
        (
            PpuModel {
                status: PpuStatus { bits: p.status.bits & !PpuStatus::VBLANK_STARTED },
                latch: false,
                ..p
            },
            Ok(p.status.bits),
        )
    } else if reg == 4 {
        (p, Ok(0xFF))
    } else if reg == 7 {
        let buffered = ppu_read(p, p.addr);
        (
            PpuModel {
                data_buf2006: buffered,
                addr: p.addr.wrapping_add(vram_step(p.ctrl)),
                ..p
            },
            Ok(if p.addr > 0x3F00 { buffered } else { p.data_buf2006 }),
        )
    } else {
        (p, Err(Fault::PpuRegRead(reg)))
    }
}

/// A write of `data` to PPU register `reg` (0 to 7): the PPU afterwards, or
/// the fault that the write is. Until the first vertical blank, writes to
/// the control, scroll and VRAM address registers are ignored. The VRAM
/// address is 14 bits: its high byte keeps the low six bits written.
#[verifier::opaque]
pub open spec fn ppu_write_reg(p: PpuModel, reg: u16, data: u8) -> Result<PpuModel, Fault> {
    if (reg == 0 || reg == 5 || reg == 6) && !p.warmed_up {
        Ok(p)
    } else if reg == 0 {
        Ok(PpuModel { ctrl: PpuCtrl { bits: data }, ..p })
    } else if reg == 1 {
        Ok(PpuModel { mask: PpuMask { bits: data }, ..p })
    } else if reg == 3 {
        Ok(PpuModel { oamaddr: data, ..p })
    } else if reg == 4 {
        Ok(PpuModel { oam: p.oam.update(p.oamaddr as int, data), oamaddr: p.oamaddr.wrapping_add(1), ..p })
    } else if reg == 5 {
        Ok(PpuModel {
            scroll: if p.latch {
                ((data as u16) << 8u16) | (p.scroll & 0x00FF)
            } else {
                (p.scroll & 0xFF00) | (data as u16)
            },
            latch: !p.latch,
            ..p
        })
    } else if reg == 6 {
        Ok(PpuModel {
            addr: if p.latch {
                (p.addr & 0xFF00) | (data as u16)
            } else {
                (((data & 0x3F) as u16) << 8u16) | (p.addr & 0x00FF)
            },
            latch: !p.latch,
            ..p
        })
    } else if reg == 7 {
        match ppu_write(p, p.addr, data) {
            Ok(q) => Ok(PpuModel { addr: p.addr.wrapping_add(vram_step(p.ctrl)), ..q }),
            Err(f) => Err(f),
        }
    } else {
        Err(Fault::PpuRegWrite(reg))
    }
}

/// The VRAM cell for nametable offset `a`, as `vram_slot` gives it.
fn vram_index(mirror: MIRROR, a: u16) -> (r: Option<usize>)
    ensures
        match r {
            Some(i) => vram_slot(mirror, a as int) == Some(i as int),
            None => vram_slot(mirror, a as int) is None,
        },
{
    match mirror {
        MIRROR::VERTICAL => if a < 0x800 {
            Some(a as usize)
        } else if a < 0x1000 {
            Some((a - 0x800) as usize)
        } else {
            None
        },
        MIRROR::HORIZONTAL => if a < 0x400 {
            Some(a as usize)
        } else if a < 0xC00 {
            Some((a - 0x400) as usize)
        } else if a < 0x1000 {
            Some((a - 0x800) as usize)
        } else {
            None
        },
        _ => None,
    }
}

impl Ppu {
    pub open spec fn wf(&self) -> bool {
        self@.wf()
    }

    /// The byte at `addr` of the PPU address space.
    pub fn read8(&self, addr: u16) -> (r: u8)
        requires
            self.wf(),
        ensures
            r == ppu_read(self@, addr),
    {
        if addr <= 0x1FFF {
            self.chrrom[addr as usize]
        } else if addr <= 0x3EFF {
            match vram_index(self.mirror, addr - 0x2000) {
                Some(i) => self.vram[i],
                None => match self.mirror {
                    MIRROR::VERTICAL => 0,
                    MIRROR::HORIZONTAL => 1,
                    _ => 2,
                },
            }
        } else if addr <= 0x3F1F {
            self.palette[(addr - 0x3F00) as usize]
        } else if addr <= 0x3FFF {
            self.palette[((addr - 0x3F20) % 0x20) as usize]
        } else {
            0
        }
    }

    /// Writes `data` at `addr` of the PPU address space. The pattern tables
    /// are ROM, and only the nametables that the mirroring maps and the
    /// palette take writes; any other write is a fault and changes nothing.
    pub fn write8(&mut self, addr: u16, data: u8) -> (r: Result<(), Fault>)
        requires
            old(self).wf(),
        ensures
            final(self).wf(),
            match ppu_write(old(self)@, addr, data) {
                Ok(q) => r is Ok && final(self)@ == q,
                Err(f) => r == Err::<(), Fault>(f) && final(self)@ == old(self)@,
            },
    {
        if addr <= 0x1FFF {
            Err(Fault::ChrWrite(addr))
        } else if addr <= 0x3EFF {
            match vram_index(self.mirror, addr - 0x2000) {
                Some(i) => {
                    self.vram.set(i, data);
                    Ok(())
                },
                None => Err(Fault::PpuWrite(addr)),
            }
        } else if addr <= 0x3F1F {
            let a: u16 = if addr == 0x3F10 || addr == 0x3F14 || addr == 0x3F19 || addr == 0x3F1C {
                addr - 0x0010
            } else {
                addr
            };
            self.palette.set((a - 0x3F00) as usize, data);
            Ok(())
        } else if addr <= 0x3FFF {
            let off: u16 = (addr - 0x3F20) & 0x20;
            if off < 0x20 {
                self.palette.set(off as usize, data);
                Ok(())
            } else {
                Err(Fault::PpuWrite(addr))
            }
        } else {
            Err(Fault::PpuWrite(addr))
        }
    }

    /// How far $2007 accesses move the VRAM address: 32 when the control
    /// register asks for it, 1 otherwise.
    fn addr_step(&self) -> (r: u16)
        ensures
            r == vram_step(self.ctrl),
    {
        if self.ctrl.contains(PpuCtrl::VRAM_ADDR_INCREMENT) {
            32
        } else {
            1
        }
    }

    /// Reads PPU register `reg` (0 to 7). $2002 returns the status and clears
    /// the vertical blank flag and the address latch; $2004 returns $FF;
    /// $2007 returns the buffered byte (the byte itself above $3F00), refills
    /// the buffer and moves the VRAM address. The other registers are
    /// write-only: reading one is a fault and changes nothing.
    pub fn read_reg(&mut self, reg: u16) -> (r: Result<u8, Fault>)
        requires
            old(self).wf(),
        ensures
            final(self).wf(),
            (final(self)@, r) == ppu_read_reg(old(self)@, reg),
    {
        reveal(ppu_read_reg);
        if reg == 2 {
            let ret = self.status.bits();
            self.status = self.status.difference(PpuStatus::VBLANK_STARTED);
            self.latch = false;
            Ok(ret)
        } else if reg == 4 {
            Ok(0xFF)
        } else if reg == 7 {
            let addr = self.addr;
            let buffered = self.read8(addr);
            let ret = if addr > 0x3F00 {
                buffered
            } else {
                self.data_buf2006
            };
            self.data_buf2006 = buffered;
            let step = self.addr_step();
            self.addr = addr.wrapping_add(step);
            Ok(ret)
        } else {
            Err(Fault::PpuRegRead(reg))
        }
    }

    /// Writes `data` to PPU register `reg` (0 to 7): control, mask, OAM
    /// address, OAM data (which moves the OAM address), scroll and VRAM
    /// address (a byte at a time, high byte of the address first, through
    /// the shared latch; the high byte keeps its low six bits), and VRAM
    /// data (which moves the VRAM address). Until the first vertical blank
    /// the control, scroll and VRAM address registers ignore writes. The
    /// status register is read-only: writing it is a fault.
    pub fn write_reg(&mut self, reg: u16, data: u8) -> (r: Result<(), Fault>)
        requires
            old(self).wf(),
        ensures
            final(self).wf(),
            match ppu_write_reg(old(self)@, reg, data) {
                Ok(q) => r is Ok && final(self)@ == q,
                Err(f) => r == Err::<(), Fault>(f) && final(self)@ == old(self)@,
            },
    {
        reveal(ppu_write_reg);
        if (reg == 0 || reg == 5 || reg == 6) && !self.warmed_up {
            Ok(())
        } else if reg == 0 {
            self.ctrl = PpuCtrl::from_bits_truncate(data);
            Ok(())
        } else if reg == 1 {
            self.mask = PpuMask::from_bits_truncate(data);
            Ok(())
        } else if reg == 3 {
            self.oamaddr = data;
            Ok(())
        } else if reg == 4 {
            let oamaddr = self.oamaddr;
            self.oam.set(oamaddr as usize, data);
            self.oamaddr = oamaddr.wrapping_add(1);
            Ok(())
        } else if reg == 5 {
            let latch = self.latch;
            let newscroll: u16 = if latch {
                ((data as u16) << 8u16) | (self.scroll & 0x00FF)
            } else {
                (self.scroll & 0xFF00) | (data as u16)
            };
            self.scroll = newscroll;
            self.latch = !latch;
            Ok(())
        } else if reg == 6 {
            let latch = self.latch;
            let newaddr: u16 = if latch {
                (self.addr & 0xFF00) | (data as u16)
            } else {
(((data & 0x3F) as u16) << 8u16) | (self.addr & 0x00FF)
            };
            self.addr = newaddr;
            self.latch = !latch;
            Ok(())
        } else if reg == 7 {
            let addr = self.addr;
            let step = self.addr_step();
            match self.write8(addr, data) {
                Ok(()) => {
                    self.addr = addr.wrapping_add(step);
                    Ok(())
                },
                Err(f) => Err(f),
            }
        } else {
            Err(Fault::PpuRegWrite(reg))
        }
    }

    /// The nametable memory.
    pub fn vram(&self) -> (r: &[u8])
        ensures
            r@ == self.vram@,
    {
        self.vram.as_slice()
    }

    /// The palette memory.
    pub fn palette(&self) -> (r: &[u8])
        ensures
            r@ == self.palette@,
    {
        self.palette.as_slice()
    }
}

/// A zero-filled memory of `len` bytes.
pub fn cell_zero(len: usize) -> (r: Vec<u8>)
    ensures
        r@ == Seq::new(len as nat, |i: int| 0u8),
{
    filled(0, len)
}

/// A memory of `len` bytes, each `value`.
fn filled(value: u8, len: usize) -> (r: Vec<u8>)
    ensures
        r@ == Seq::new(len as nat, |i: int| value),
{
    let mut v: Vec<u8> = Vec::new();
    let mut i: usize = 0;
    while i < len
        invariant
            i <= len,
            v@ == Seq::new(i as nat, |k: int| value),
        decreases len - i,
    {
        v.push(value);
        i = i + 1;
    }
    v
}

/// Eight empty sprite slots.
fn empty_sprites() -> (r: Vec<SpriteInfo>)
    ensures
        r@ == Seq::new(8, |i: int| empty_sprite()),
{
    let mut v: Vec<SpriteInfo> = Vec::new();
    let mut i: usize = 0;
    while i < 8
        invariant
            i <= 8,
            v@ == Seq::new(i as nat, |k: int| empty_sprite()),
        decreases 8 - i,
    {
        v.push(SpriteInfo::default());
        i = i + 1;
    }
    v
}

/// Eight idle sprite output units.
fn empty_units() -> (r: Vec<SpriteOutputUnit>)
    ensures
        r@ == Seq::new(8, |i: int| empty_unit()),
{
    let mut v: Vec<SpriteOutputUnit> = Vec::new();
    let mut i: usize = 0;
    while i < 8
        invariant
            i <= 8,
            v@ == Seq::new(i as nat, |k: int| empty_unit()),
        decreases 8 - i,
    {
        v.push(SpriteOutputUnit::default());
        i = i + 1;
    }
    v
}

/// The PPU at power-up: the given pattern tables and mirroring, cleared
/// nametables, palette, registers and frames, OAM filled with $EF, no
/// sprites gathered, and the pipeline at dot 0 of line 0 of frame 0.
pub open spec fn ppu_power_up(chrrom: Seq<u8>, mirror: MIRROR) -> PpuModel {
    PpuModel {
        chrrom,
        vram: Seq::new(0x1000, |i: int| 0u8),
        oam: Seq::new(0x100, |i: int| 0xEFu8),
        palette: Seq::new(0x20, |i: int| 0u8),
        addr: 0,
        ctrl: PpuCtrl { bits: 0 },
        mask: PpuMask { bits: 0 },
        status: PpuStatus { bits: 0 },
        oamaddr: 0,
        scroll: 0,
        latch: false,
        warmed_up: false,
        frame_scroll_x: 0,
        frame_scroll_y: 0,
        fine_x: 0,
        img: Seq::new(FRAME_BYTES as nat, |i: int| 0u8),
        data_buf2006: 0,
        secondary_oam: Seq::new(8, |i: int| empty_sprite()),
        sprite_output_units: Seq::new(8, |i: int| empty_unit()),
        nt_shift_reg_hi: 0,
        nt_shift_reg_lo: 0,
        at_shift_reg_hi: 0,
        at_shift_reg_lo: 0,
        mirror,
        grid_on: false,
        debug_num: 0,
        buf: Seq::new(FRAME_BYTES as nat, |i: int| 0u8),
        dot: 0,
        scanline: 0,
        frame: 0,
        tile_info: TileInfo { ld_x: 0, ld_y: 0, sprite_index: 0 },
        oam_scan_index: 0,
        oam_buf_index: 0,
        oam_buf: Seq::new(8, |i: int| empty_sprite()),
        sprite_output_units_buf: Seq::new(8, |i: int| empty_unit()),
    }
}

impl Ppu {
    /// The PPU at power-up (see `ppu_power_up`) with 8 KiB of pattern tables.
    pub fn power_up(chrrom: Vec<u8>, mirror: MIRROR) -> (r: Ppu)
        requires
            chrrom@.len() == 0x2000,
        ensures
            r@ == ppu_power_up(chrrom@, mirror),
            r.wf(),
    {
        Ppu {
            chrrom,
            vram: cell_zero(0x1000),
            oam: filled(0xEF, 0x100),
            palette: cell_zero(0x20),
            addr: 0,
            ctrl: PpuCtrl::empty(),
            mask: PpuMask::empty(),
            status: PpuStatus::empty(),
            oamaddr: 0,
            scroll: 0,
            latch: false,
            warmed_up: false,
            frame_scroll_x: 0,
            frame_scroll_y: 0,
            fine_x: 0,
            img: cell_zero(FRAME_BYTES),
            data_buf2006: 0,
            secondary_oam: empty_sprites(),
            sprite_output_units: empty_units(),
            nt_shift_reg_hi: 0,
            nt_shift_reg_lo: 0,
            at_shift_reg_hi: 0,
            at_shift_reg_lo: 0,
            mirror,
            grid_on: false,
            debug_num: 0,
            buf: cell_zero(FRAME_BYTES),
            dot: 0,
            scanline: 0,
            frame: 0,
            tile_info: TileInfo::default(),
            oam_scan_index: 0,
            oam_buf_index: 0,
            oam_buf: empty_sprites(),
            sprite_output_units_buf: empty_units(),
        }
    }
}

} // verus!
