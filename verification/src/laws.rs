//! What holds of the machine across operations: memory that reads back what
//! was written, mirrored address ranges, the controller's report order, the
//! stack discipline of calls and interrupts, the inverse pairs of the ALU,
//! and what a PPU cycle leaves alone.
use vstd::prelude::*;
use crate::cpu::Cpu;
use crate::nes::{NesModel, bus_read, bus_write, pad_read, pad_write, ppu_reg_of, record_fault, oam_dma, oam_dma_steps};
use crate::pad::Pad;
use crate::addressings::ticks;
use crate::trace::ppu_dots;
use crate::flags::{PpuCtrl, PpuStatus};
use crate::ppu::{PpuModel, MIRROR, ppu_read, ppu_write, ppu_read_reg, ppu_write_reg, vram_slot, vram_step};
use crate::render::{ppu_dot, render_phase, render_pixel, shift_phase, units_phase, nt_phase, sprite_phase, advance_phase, tick_spec};

verus! {

/// What a PPU cycle keeps of the machine: the CPU registers (it may only
/// raise the NMI request), work RAM, the cartridge, the controller, the
/// trace switch and a fault already recorded; and the machine stays well formed.
pub open spec fn ppu_keeps(m: NesModel, m2: NesModel) -> bool {
    &&& m2.wf()
    &&& m2.ram == m.ram
    &&& m2.prg == m.prg
    &&& m2.mapper1 == m.mapper1
    &&& m2.pad == m.pad
    &&& m2.trace == m.trace
    &&& m2.cpu == (Cpu { nmi: m2.cpu.nmi, ..m.cpu })
    &&& (m.cpu.nmi ==> m2.cpu.nmi)
    &&& (m.fault is Some ==> m2.fault == m.fault)
}

/// A PPU cycle keeps the CPU registers (but for raising NMI), work RAM, the
/// cartridge, the controller and a recorded fault.
pub proof fn lemma_ppu_dot_keeps(m: NesModel)
    requires
        m.wf(),
    ensures
        ppu_keeps(m, ppu_dot(m)),
{
    reveal(render_phase);
    reveal(render_pixel);
    reveal(units_phase);
    reveal(nt_phase);
    reveal(sprite_phase);
    let m1 = render_phase(m);
    let m2 = shift_phase(m1);
    let m3 = units_phase(m2);
    let m4 = nt_phase(m3);
    let m5 = sprite_phase(m4);
    assert(ppu_keeps(m, m1));
    assert(ppu_keeps(m, m2));
    assert(ppu_keeps(m, m3));
    assert(ppu_keeps(m, m4));
    assert(ppu_keeps(m, m5));
    assert(ppu_keeps(m, advance_phase(m5)));
}

/// One CPU cycle of PPU time keeps the CPU registers (but for raising NMI),
/// work RAM, the cartridge, the controller and a recorded fault.
pub proof fn lemma_tick_keeps(m: NesModel)
    requires
        m.wf(),
    ensures
        ppu_keeps(m, tick_spec(m)),
{
    reveal(tick_spec);
    lemma_ppu_dot_keeps(m);
    lemma_ppu_dot_keeps(ppu_dot(m));
    lemma_ppu_dot_keeps(ppu_dot(ppu_dot(m)));
}

/// Work RAM repeats every 2 KiB up to $1FFF: a read or a write at `a` is a
/// read or a write at `a % $800`.
pub proof fn lemma_ram_mirror(m: NesModel, a: u16, v: u8)
    requires
        m.wf(),
        a <= 0x1FFF,
    ensures
        bus_read(m, a) == bus_read(m, a % 0x800),
        bus_write(m, a, v) == bus_write(m, a % 0x800, v),
{
}

/// A read of work RAM gives back what the last write to the same cell (the
/// same address modulo 2 KiB) wrote, and a write leaves the other cells
/// alone; reading work RAM changes nothing.
pub proof fn lemma_ram_write_read(m: NesModel, a: u16, b: u16, v: u8)
    requires
        m.wf(),
        a <= 0x1FFF,
        b <= 0x1FFF,
    ensures
        bus_read(m, b).0 == m,
        bus_read(bus_write(m, a, v), b).1 == if a % 0x800 == b % 0x800 { v } else { bus_read(m, b).1 },
{
}

/// The eight PPU registers repeat every eight bytes over $2000-$3FFF.
pub proof fn lemma_ppu_reg_mirror(m: NesModel, a: u16, v: u8)
    requires
        m.wf(),
        0x2000 <= a <= 0x3FFF,
    ensures
        bus_read(m, a) == bus_read(m, (0x2000 + (a - 0x2000) % 8) as u16),
        bus_write(m, a, v) == bus_write(m, (0x2000 + (a - 0x2000) % 8) as u16, v),
{
    assert(ppu_reg_of(a) == ppu_reg_of((0x2000 + (a - 0x2000) % 8) as u16));
}

/// PRG-ROM fills $8000-$FFFF, repeated when it is smaller than 32 KiB (a
/// 16 KiB NROM-128 image appears twice); reading it changes nothing.
pub proof fn lemma_prg_mirror(m: NesModel, a: u16)
    requires
        m.wf(),
        a >= 0x8000,
    ensures
        bus_read(m, a) == (m, m.prg[(a - 0x8000) % (m.prg.len() as int)]),
        a + m.prg.len() <= 0xFFFF ==> bus_read(m, (a + m.prg.len()) as u16).1 == bus_read(m, a).1,
{
    if a + m.prg.len() <= 0xFFFF {
        let n = m.prg.len() as int;
        assert((a + n - 0x8000) % n == (a - 0x8000) % n) by (nonlinear_arith)
            requires
                n > 0,
        ;
    }
}

/// The controller after `n` reads of $4016, and the byte the last of them
/// returned (`n` counts from 0 for the first read).
pub open spec fn pad_reads(pad: Pad, n: nat) -> (Pad, u8)
    decreases n,
{
    if n == 0 {
        pad_read(pad)
    } else {
        pad_reads(pad_read(pad).0, (n - 1) as nat)
    }
}

/// Whether the button that the shift register reports `k`-th is held.
pub open spec fn button_bit(status: u8, k: nat) -> u8 {
    if k < 8 && status & ((1u8 << (k as u8)) as u8) == ((1u8 << (k as u8)) as u8) { 1 } else { 0 }
}

/// After the strobe goes on and off (1 then 0 written to $4016), the `k`-th
/// read of $4016 reports the `k`-th button (A, B, Start, Select, Up, Down,
/// Left, Right) and every read after the eighth reports 1.
pub proof fn lemma_pad_report_order(pad: Pad, k: nat)
    ensures
        pad_reads(pad_write(pad_write(pad, 1), 0), k).1 == if k < 8 { button_bit(pad.status.bits, k) } else { 1 },
{
    let p0 = pad_write(pad_write(pad, 1), 0);
    assert(1u8 & 1u8 != 0) by (bit_vector);
    assert(0u8 & 1u8 == 0) by (bit_vector);
    assert(p0.shift_index == 0 && !p0.strobe_enable && p0.status == pad.status);
    lemma_pad_reads_from(p0, 0, k);
}

/// From shift position `i`, the `k`-th read reports position `i + k`.
proof fn lemma_pad_reads_from(p: Pad, i: nat, k: nat)
    requires
        p.shift_index == i,
        i <= 8,
        !p.strobe_enable,
    ensures
        pad_reads(p, k).1 == if i + k < 8 { button_bit(p.status.bits, i + k) } else { 1 },
    decreases k,
{
    if k == 0 {
        if i < 8 {
            assert(pad_read(p).1 == button_bit(p.status.bits, i));
        }
    } else {
        let q = pad_read(p).0;
        if i < 8 {
            lemma_pad_reads_from(q, i + 1, (k - 1) as nat);
        } else {
            lemma_pad_reads_from(q, i, (k - 1) as nat);
        }
    }
}

/// A fault once recorded stays: a CPU read does not replace it.
pub proof fn lemma_read_keeps_fault(m: NesModel, a: u16)
    requires
        m.wf(),
        m.fault is Some,
    ensures
        bus_read(m, a).0.fault == m.fault,
{
}

/// With vertical mirroring $2000 and $2800 (and $2400 and $2C00) show the
/// same nametable; with horizontal mirroring $2000 and $2400 (and $2800 and
/// $2C00) do.
pub proof fn lemma_nametable_mirroring(p: PpuModel, k: u16)
    requires
        p.wf(),
        k < 0x400,
    ensures
        p.mirror == MIRROR::VERTICAL ==> ppu_read(p, (0x2000 + k) as u16) == ppu_read(p, (0x2800 + k) as u16),
        p.mirror == MIRROR::VERTICAL ==> ppu_read(p, (0x2400 + k) as u16) == ppu_read(p, (0x2C00 + k) as u16),
        p.mirror == MIRROR::HORIZONTAL ==> ppu_read(p, (0x2000 + k) as u16) == ppu_read(p, (0x2400 + k) as u16),
        p.mirror == MIRROR::HORIZONTAL ==> ppu_read(p, (0x2800 + k) as u16) == ppu_read(p, (0x2C00 + k) as u16),
{
}

/// A read of the nametables gives back what the last write to the same VRAM
/// cell wrote (two addresses reach the same cell when the mirroring maps
/// them to it), and a write leaves the other cells alone.
pub proof fn lemma_vram_write_read(p: PpuModel, a: u16, b: u16, v: u8)
    requires
        p.wf(),
        0x2000 <= a <= 0x3EFF,
        0x2000 <= b <= 0x3EFF,
        vram_slot(p.mirror, a - 0x2000) is Some,
    ensures
        ppu_write(p, a, v) is Ok,
        ppu_read(ppu_write(p, a, v)->Ok_0, b) == if vram_slot(p.mirror, a - 0x2000) == vram_slot(p.mirror, b - 0x2000) {
            v
        } else {
            ppu_read(p, b)
        },
{
}

/// A palette entry written at $3F00-$3F1F (other than $3F10, $3F14, $3F19
/// and $3F1C, which the write folds onto $3F00-$3F0F) reads back.
pub proof fn lemma_palette_write_read(p: PpuModel, a: u16, v: u8)
    requires
        p.wf(),
        0x3F00 <= a <= 0x3F1F,
        a != 0x3F10 && a != 0x3F14 && a != 0x3F19 && a != 0x3F1C,
    ensures
        ppu_write(p, a, v) is Ok,
        ppu_read(ppu_write(p, a, v)->Ok_0, a) == v,
{
}

/// Once the PPU is warmed up, two writes to $2006 set the 14-bit VRAM
/// address, high byte first (its top two bits dropped), and leave the shared
/// latch as it was.
pub proof fn lemma_ppu_addr_writes(p: PpuModel, hi: u8, lo: u8)
    requires
        p.wf(),
        p.warmed_up,
        !p.latch,
    ensures
        ppu_write_reg(p, 6, hi) is Ok,
        ppu_write_reg(ppu_write_reg(p, 6, hi)->Ok_0, 6, lo) is Ok,
        ppu_write_reg(ppu_write_reg(p, 6, hi)->Ok_0, 6, lo)->Ok_0.addr == (((hi & 0x3F) as u16) << 8u16) | (lo as u16),
        !ppu_write_reg(ppu_write_reg(p, 6, hi)->Ok_0, 6, lo)->Ok_0.latch,
{
    reveal(ppu_write_reg);
    let a0: u16 = p.addr;
    let a1: u16 = (((hi & 0x3F) as u16) << 8u16) | (a0 & 0x00FF);
    assert((a1 & 0xFF00) | (lo as u16) == (((hi & 0x3F) as u16) << 8u16) | (lo as u16)) by (bit_vector)
        requires
            a1 == (((hi & 0x3F) as u16) << 8u16) | (a0 & 0x00FF),
    ;
}

/// Until the first vertical blank, writes to $2000, $2005 and $2006 change
/// nothing; from then on they take effect.
pub proof fn lemma_warm_up_gate(p: PpuModel, reg: u16, v: u8)
    requires
        p.wf(),
        reg == 0 || reg == 5 || reg == 6,
    ensures
        !p.warmed_up ==> ppu_write_reg(p, reg, v) == Ok::<PpuModel, crate::fault::Fault>(p),
        p.warmed_up && reg == 0 ==> ppu_write_reg(p, reg, v) == Ok::<PpuModel, crate::fault::Fault>(PpuModel { ctrl: PpuCtrl { bits: v }, ..p }),
{
    reveal(ppu_write_reg);
}

/// Reads through $2007 below the palette are buffered: the first read
/// returns the byte that the buffer held, the second the byte at the address
/// of the first.
pub proof fn lemma_ppu_data_read_buffer(p: PpuModel)
    requires
        p.wf(),
        p.addr as int + vram_step(p.ctrl) <= 0x3F00,
    ensures
        ppu_read_reg(p, 7).1 == Ok::<u8, crate::fault::Fault>(p.data_buf2006),
        ppu_read_reg(ppu_read_reg(p, 7).0, 7).1 == Ok::<u8, crate::fault::Fault>(ppu_read(p, p.addr)),
{
    reveal(ppu_read_reg);
}

/// How far OAM slot `j` lies after slot `start`, going round the 256 slots.
pub open spec fn dma_offset(start: u8, j: int) -> int {
    (j - start + 256) % 256
}

/// OAM after the first `i` bytes of page `page` went to the slots from
/// `start` on: those slots hold the bytes the bus reads there, the others
/// what `oam` held.
pub open spec fn dma_filled(m: NesModel, page: u8, start: u8, oam: Seq<u8>, i: nat) -> Seq<u8> {
    Seq::new(256, |j: int| if dma_offset(start, j) < i {
        bus_read(m, ((page as int) * 256 + dma_offset(start, j)) as u16).1
    } else {
        oam[j]
    })
}

/// Slot `(start + k) % 256` is the one at offset `k` from `start`.
proof fn lemma_dma_offset(start: u8, j: int, k: int)
    requires
        0 <= j < 256,
        0 <= k < 256,
    ensures
        (j == (start + k) % 256) <==> dma_offset(start, j) == k,
{
}

/// A read of work RAM or of PRG-ROM changes nothing.
proof fn lemma_pure_read(m: NesModel, a: u16)
    requires
        m.wf(),
        a <= 0x1FFF || a >= 0x8000,
    ensures
        bus_read(m, a).0 == m,
{
}

/// After `i` steps of OAM DMA from a page of work RAM or PRG-ROM, OAM holds
/// the first `i` bytes of the page from the start address on, and nothing
/// else has changed.
proof fn lemma_oam_dma_steps(m: NesModel, page: u8, start: u8, oam: Seq<u8>, i: nat)
    requires
        m.wf(),
        page <= 0x1F || page >= 0x80,
        oam.len() == 0x100,
        i <= 256,
    ensures
        oam_dma_steps(m, page, start, oam, i).0 == m,
        oam_dma_steps(m, page, start, oam, i).1 == dma_filled(m, page, start, oam, i),
    decreases i,
{
    if i == 0 {
        assert(oam =~= dma_filled(m, page, start, oam, 0));
    } else {
        lemma_oam_dma_steps(m, page, start, oam, (i - 1) as nat);
        let addr = ((page as u16) * 256 + (i - 1)) as u16;
        assert(addr == (page as int) * 256 + (i - 1));
        lemma_pure_read(m, addr);
        let prev = dma_filled(m, page, start, oam, (i - 1) as nat);
        let k = (start + (i - 1)) % 256;
        let next = prev.update(k, bus_read(m, addr).1);
        assert forall|j: int| 0 <= j < 256 implies #[trigger] next[j] == dma_filled(m, page, start, oam, i)[j] by {
            lemma_dma_offset(start, j, i - 1);
        }
        assert(next =~= dma_filled(m, page, start, oam, i));
    }
}

/// OAM DMA from a page of work RAM or of PRG-ROM copies the page into OAM,
/// from the OAM address on and wrapping at the end; nothing but OAM changes.
pub proof fn lemma_oam_dma_copies(m: NesModel, page: u8)
    requires
        m.wf(),
        page <= 0x1F || page >= 0x80,
    ensures
        oam_dma(m, page) == (NesModel { ppu: PpuModel { oam: oam_dma(m, page).ppu.oam, ..m.ppu }, ..m }),
        oam_dma(m, page).ppu.oam.len() == 0x100,
        forall|i: int| 0 <= i < 256 ==> #[trigger] oam_dma(m, page).ppu.oam[(m.ppu.oamaddr + i) % 256] == if page <= 0x1F {
            m.ram[((page as int) * 256 + i) % 0x800]
        } else {
            m.prg[((page as int) * 256 + i - 0x8000) % (m.prg.len() as int)]
        },
{
    lemma_oam_dma_steps(m, page, m.ppu.oamaddr, m.ppu.oam, 256);
    let oam = oam_dma(m, page).ppu.oam;
    assert forall|i: int| 0 <= i < 256 implies #[trigger] oam[(m.ppu.oamaddr + i) % 256] == if page <= 0x1F {
        m.ram[((page as int) * 256 + i) % 0x800]
    } else {
        m.prg[((page as int) * 256 + i - 0x8000) % (m.prg.len() as int)]
    } by {
        let j = (m.ppu.oamaddr + i) % 256;
        lemma_dma_offset(m.ppu.oamaddr, j, i);
        assert(dma_offset(m.ppu.oamaddr, j) == i);
        let a = ((page as int) * 256 + i) as u16;
        assert(a == (page as int) * 256 + i);
    }
}

/// Each PPU cycle moves to the next dot in raster order: 341 dots a line,
/// 262 lines a frame, and the frame counter steps when the last dot of the
/// last line is done.
pub proof fn lemma_dot_advances(m: NesModel)
    requires
        m.wf(),
    ensures
        ppu_dot(m).ppu.dot == if m.ppu.dot + 1 < 341 { m.ppu.dot + 1 } else { 0 },
        ppu_dot(m).ppu.scanline == if m.ppu.dot + 1 < 341 {
            m.ppu.scanline as int
        } else if m.ppu.scanline + 1 < 262 {
            m.ppu.scanline + 1
        } else {
            0
        },
        ppu_dot(m).ppu.frame == if m.ppu.dot + 1 == 341 && m.ppu.scanline + 1 == 262 {
            m.ppu.frame.wrapping_add(1)
        } else {
            m.ppu.frame
        },
{
    reveal(render_phase);
    reveal(render_pixel);
    reveal(units_phase);
    reveal(nt_phase);
    reveal(sprite_phase);
    let m1 = render_phase(m);
    let m2 = shift_phase(m1);
    let m3 = units_phase(m2);
    let m4 = nt_phase(m3);
    let m5 = sprite_phase(m4);
    assert(m1.ppu.dot == m.ppu.dot && m1.ppu.scanline == m.ppu.scanline && m1.ppu.frame == m.ppu.frame);
    assert(m2.ppu.dot == m.ppu.dot && m2.ppu.scanline == m.ppu.scanline && m2.ppu.frame == m.ppu.frame);
    assert(m3.ppu.dot == m.ppu.dot && m3.ppu.scanline == m.ppu.scanline && m3.ppu.frame == m.ppu.frame);
    assert(m4.ppu.dot == m.ppu.dot && m4.ppu.scanline == m.ppu.scanline && m4.ppu.frame == m.ppu.frame);
    assert(m5.ppu.dot == m.ppu.dot && m5.ppu.scanline == m.ppu.scanline && m5.ppu.frame == m.ppu.frame);
}

/// The vertical blank starts at dot 1 of line 241: the status flag is set,
/// the machine notes that a frame is done, the frame drawn is published,
/// and an NMI is requested when the control register enables it.
pub proof fn lemma_vblank_starts(m: NesModel)
    requires
        m.wf(),
        m.ppu.scanline == 241,
        m.ppu.dot == 1,
    ensures
        ppu_dot(m).vblank,
        ppu_dot(m).ppu.status.bits & PpuStatus::VBLANK_STARTED == PpuStatus::VBLANK_STARTED,
        ppu_dot(m).ppu.img == m.ppu.buf,
        ppu_dot(m).cpu.nmi == (m.cpu.nmi || m.ppu.ctrl.bits & PpuCtrl::VBLANK_INTERRUPT == PpuCtrl::VBLANK_INTERRUPT),
{
    reveal(render_phase);
    reveal(units_phase);
    reveal(nt_phase);
    reveal(sprite_phase);
    let b = m.ppu.status.bits;
    assert((b | 0x80u8) & 0x80u8 == 0x80u8) by (bit_vector);
}

/// The vertical blank ends at dot 1 of the pre-render line: the status
/// flags for it and for the sprite zero hit are cleared.
pub proof fn lemma_vblank_ends(m: NesModel)
    requires
        m.wf(),
        m.ppu.scanline == 261,
        m.ppu.dot == 1,
    ensures
        ppu_dot(m).ppu.status.bits & PpuStatus::VBLANK_STARTED == 0,
        ppu_dot(m).ppu.status.bits & PpuStatus::ZERO_HIT == 0,
{
    reveal(render_phase);
    reveal(units_phase);
    reveal(nt_phase);
    reveal(sprite_phase);
    let b = m.ppu.status.bits;
    assert((b & !(0x80u8 | 0x40u8)) & 0x80u8 == 0 && (b & !(0x80u8 | 0x40u8)) & 0x40u8 == 0) by (bit_vector);
}

/// Reads made by OAM DMA keep a fault already recorded.
proof fn lemma_dma_keeps_fault(m: NesModel, page: u8, start: u8, oam: Seq<u8>, i: nat)
    requires
        m.wf(),
        m.fault is Some,
    ensures
        oam_dma_steps(m, page, start, oam, i).0.fault == m.fault,
        oam_dma_steps(m, page, start, oam, i).0.wf(),
    decreases i,
{
    reveal(ppu_read_reg);
    if i > 0 {
        lemma_dma_keeps_fault(m, page, start, oam, (i - 1) as nat);
    }
}

/// A fault once recorded stays: a CPU write does not replace it.
pub proof fn lemma_write_keeps_fault(m: NesModel, a: u16, v: u8)
    requires
        m.wf(),
        m.fault is Some,
    ensures
        bus_write(m, a, v).fault == m.fault,
{
    if a == 0x4014 {
        lemma_dma_keeps_fault(m, v, m.ppu.oamaddr, m.ppu.oam, 256);
    }
}

/// A fault once recorded stays: a CPU cycle's worth of PPU time does not
/// replace it.
pub proof fn lemma_tick_keeps_fault(m: NesModel)
    requires
        m.wf(),
        m.fault is Some,
    ensures
        tick_spec(m).fault == m.fault,
{
    lemma_tick_keeps(m);
}

/// A read of $2002 returns the status as it was, then clears the vertical
/// blank flag (the other flags stay) and resets the shared address latch.
pub proof fn lemma_status_read(p: PpuModel)
    requires
        p.wf(),
    ensures
        ppu_read_reg(p, 2).1 == Ok::<u8, crate::fault::Fault>(p.status.bits),
        ppu_read_reg(p, 2).0.status.bits & PpuStatus::VBLANK_STARTED == 0,
        ppu_read_reg(p, 2).0.status.bits & !PpuStatus::VBLANK_STARTED == p.status.bits & !PpuStatus::VBLANK_STARTED,
        !ppu_read_reg(p, 2).0.latch,
{
    reveal(ppu_read_reg);
    let b = p.status.bits;
    assert((b & !0x80u8) & 0x80u8 == 0 && (b & !0x80u8) & !0x80u8 == b & !0x80u8) by (bit_vector);
}

/// Each access through $2007 moves the VRAM address by 1, or by 32 when the
/// control register asks for it.
pub proof fn lemma_data_access_steps(p: PpuModel, v: u8)
    requires
        p.wf(),
    ensures
        ppu_read_reg(p, 7).0.addr == p.addr.wrapping_add(vram_step(p.ctrl)),
        ppu_write_reg(p, 7, v) is Ok ==> ppu_write_reg(p, 7, v)->Ok_0.addr == p.addr.wrapping_add(vram_step(p.ctrl)),
        vram_step(p.ctrl) == if p.ctrl.bits & 0x04 != 0 { 32u16 } else { 1u16 },
{
    reveal(ppu_read_reg);
    reveal(ppu_write_reg);
    let c = p.ctrl.bits;
    assert((c & 0x04u8 == 0x04u8) == (c & 0x04u8 != 0)) by (bit_vector);
}

/// A PPU cycle advances the PPU's cycle count (frames, lines and dots since
/// power-up) by exactly one, while the frame counter does not wrap.
pub proof fn lemma_dot_counts_one(m: NesModel)
    requires
        m.wf(),
        m.ppu.frame < u32::MAX,
    ensures
        ppu_dots(ppu_dot(m).ppu.frame, ppu_dot(m).ppu.scanline, ppu_dot(m).ppu.dot)
            == ppu_dots(m.ppu.frame, m.ppu.scanline, m.ppu.dot) + 1,
        ppu_dot(m).wf(),
{
    lemma_dot_advances(m);
    lemma_ppu_dot_keeps(m);
}

/// The CPU and the PPU run in step: every CPU cycle is exactly three PPU
/// cycles, so after `n` CPU cycles the PPU has run `3 * n` cycles (while the
/// frame counter does not wrap).
pub proof fn lemma_cycles_interleave(m: NesModel, n: nat)
    requires
        m.wf(),
        ppu_dots(m.ppu.frame, m.ppu.scanline, m.ppu.dot) + 3 * n < (u32::MAX as int) * 89342,
    ensures
        ticks(m, n).wf(),
        ppu_dots(ticks(m, n).ppu.frame, ticks(m, n).ppu.scanline, ticks(m, n).ppu.dot)
            == ppu_dots(m.ppu.frame, m.ppu.scanline, m.ppu.dot) + 3 * n,
    decreases n,
{
    if n > 0 {
        lemma_cycles_interleave(m, (n - 1) as nat);
        let t = ticks(m, (n - 1) as nat);
        reveal(tick_spec);
        lemma_frame_below(t.ppu);
        lemma_dot_counts_one(t);
        lemma_frame_below(ppu_dot(t).ppu);
        lemma_dot_counts_one(ppu_dot(t));
        lemma_frame_below(ppu_dot(ppu_dot(t)).ppu);
        lemma_dot_counts_one(ppu_dot(ppu_dot(t)));
    }
}

/// A cycle count below the last frame's means the frame counter is not at its top.
proof fn lemma_frame_below(p: PpuModel)
    requires
        p.wf(),
    ensures
        ppu_dots(p.frame, p.scanline, p.dot) + 3 < (u32::MAX as int) * 89342 ==> p.frame < u32::MAX,
{
    if p.frame == u32::MAX {
        assert(ppu_dots(p.frame, p.scanline, p.dot) >= (u32::MAX as int) * 89342);
    }
}

} // verus!
