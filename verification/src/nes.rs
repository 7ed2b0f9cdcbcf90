//! The machine: CPU, PPU, work RAM, controller and cartridge, joined by the
//! CPU bus that maps each address to its device.
use vstd::prelude::*;
use crate::cpu::Cpu;
use crate::fault::Fault;
use crate::flags::PadButton;
use crate::pad::Pad;
use crate::ppu::{Ppu, PpuModel, MIRROR, ppu_read_reg, ppu_write_reg, ppu_power_up, cell_zero};
use crate::cpu::{CpuStep, cpu_step_spec, next_opcode};
use crate::render::PpuStep;
use crate::trace::trace_ok;

verus! {

/// A cartridge with the NROM board: PRG-ROM (16 or 32 KiB, mirrored over
/// $8000-$FFFF), CHR-ROM, and the header flags byte that picks the
/// nametable mirroring.
pub struct Cartridge {
    pub prgrom: Vec<u8>,
    pub chrrom: Vec<u8>,
    pub mapper1: u8,
}

impl Cartridge {
    /// PRG-ROM that the bus can address: not empty and at most 32 KiB.
    pub open spec fn wf(&self) -> bool {
        0 < self.prgrom@.len() <= 0x8000
    }

    /// A cartridge from its ROM images; `None` when the PRG-ROM is empty or
    /// larger than the 32 KiB the bus maps.
    pub fn new(prgrom: Vec<u8>, chrrom: Vec<u8>, mapper1: u8) -> (r: Option<Cartridge>)
        ensures
            match r {
                Some(c) => c.wf() && c.prgrom@ == prgrom@ && c.chrrom@ == chrrom@ && c.mapper1 == mapper1,
                None => !(0 < prgrom@.len() <= 0x8000),
            },
    {
        if prgrom.len() > 0 && prgrom.len() <= 0x8000 {
            Some(Cartridge { prgrom, chrrom, mapper1 })
        } else {
            None
        }
    }

    /// The nametable mirroring that the header asks for: vertical when bit 0
    /// of the flags byte is set, horizontal otherwise.
    pub fn mirror(&self) -> (r: MIRROR)
        ensures
            r == (if self.mapper1 & 1 == 1 { MIRROR::VERTICAL } else { MIRROR::HORIZONTAL }),
    {
        if self.mapper1 & 0x01 == 0x01 {
            MIRROR::VERTICAL
        } else {
            MIRROR::HORIZONTAL
        }
    }
}

/// The whole machine. `fault` keeps the first access that the hardware
/// model does not map; `vblank` records that a frame was finished since the
/// flag was last cleared; with `trace` on, every store first reads the byte
/// it overwrites, for the CPU trace.
pub struct Nes {
    pub cpu: Cpu,
    pub ppu: Ppu,
    pub rom: Cartridge,
    pub ram: Vec<u8>,
    pub pad: Pad,
    pub fault: Option<Fault>,
    pub vblank: bool,
    pub trace: bool,
}

/// The machine as a mathematical value.
pub struct NesModel {
    pub cpu: Cpu,
    pub ppu: PpuModel,
    pub prg: Seq<u8>,
    pub mapper1: u8,
    pub ram: Seq<u8>,
    pub pad: Pad,
    pub fault: Option<Fault>,
    pub vblank: bool,
    pub trace: bool,
}

impl View for Nes {
    type V = NesModel;

    open spec fn view(&self) -> NesModel {
        NesModel {
            cpu: self.cpu,
            ppu: self.ppu@,
            prg: self.rom.prgrom@,
            mapper1: self.rom.mapper1,
            ram: self.ram@,
            pad: self.pad,
            fault: self.fault,
            vblank: self.vblank,
            trace: self.trace,
        }
    }
}

impl NesModel {
    pub open spec fn wf(self) -> bool {
        &&& self.ppu.wf()
        &&& self.ram.len() == 0x800
        &&& 0 < self.prg.len() <= 0x8000
    }
}

/// `m` with `f` recorded, unless a fault is recorded already.
pub open spec fn record_fault(m: NesModel, f: Fault) -> NesModel {
    if m.fault is None {
        NesModel { fault: Some(f), ..m }
    } else {
        m
    }
}

/// The PPU register that CPU address `addr` ($2000-$3FFF) reaches: the eight
/// registers repeat every eight bytes.
pub open spec fn ppu_reg_of(addr: u16) -> u16 {
    ((addr - 0x2000) % 8) as u16
}

/// A read of $4016: the controller reports the button that its shift
/// register points at (every button reads as held while the strobe is on)
/// and moves to the next; after the eighth it reports 1.
pub open spec fn pad_read(pad: Pad) -> (Pad, u8) {
    let s = pad.shift_index;
    if s > 7 {
        (pad, 1)
    } else {
        let mask = (1u8 << s) as u8;
        (
            Pad { shift_index: (s + 1) as u8, ..pad },
            if pad.strobe_enable || pad.status.bits & mask == mask { 1 } else { 0 },
        )
    }
}

/// A write to $4016: with bit 0 set the strobe goes on; with it clear the
/// strobe goes off and the shift register returns to the first button.
pub open spec fn pad_write(pad: Pad, data: u8) -> Pad {
    if data & 1 != 0 {
        Pad { strobe_enable: true, ..pad }
    } else {
        Pad { shift_index: 0, strobe_enable: false, ..pad }
    }
}

/// A CPU read of `addr`: the machine afterwards and the byte read. Work RAM
/// repeats every 2 KiB up to $1FFF; the PPU registers repeat every 8 bytes up
/// to $3FFF; $4016 is the controller; the other I/O registers read $FF
/// ($4017 reads 0); PRG-ROM repeats over $8000-$FFFF. A read that no device
/// answers records a fault and reads 0.
pub open spec fn bus_read(m: NesModel, addr: u16) -> (NesModel, u8) {
    if addr <= 0x1FFF {
        (m, m.ram[(addr % 0x800) as int])
    } else if addr <= 0x3FFF {
        let (p, r) = ppu_read_reg(m.ppu, ppu_reg_of(addr));
        match r {
            Ok(v) => (NesModel { ppu: p, ..m }, v),
            Err(f) => (record_fault(NesModel { ppu: p, ..m }, f), 0),
        }
    } else if addr >= 0x8000 {
        (m, m.prg[(addr - 0x8000) % (m.prg.len() as int)])
    } else if addr == 0x4016 {
        let (pad, v) = pad_read(m.pad);
        (NesModel { pad, ..m }, v)
    } else if addr == 0x4017 {
        (m, 0)
    } else if addr <= 0x401F {
        (m, 0xFF)
    } else {
        (record_fault(m, Fault::UnmappedRead(addr)), 0)
    }
}

/// The machine after OAM DMA has read `i` bytes of page `page` into `oam`,
/// starting at OAM address `start`: the state the reads leave and the OAM
/// being filled.
pub open spec fn oam_dma_steps(m: NesModel, page: u8, start: u8, oam: Seq<u8>, i: nat) -> (NesModel, Seq<u8>)
    decreases i,
{
    if i == 0 {
        (m, oam)
    } else {
        let (m1, oam1) = oam_dma_steps(m, page, start, oam, (i - 1) as nat);
        let (m2, b) = bus_read(m1, ((page as u16) * 256 + (i - 1)) as u16);
        (m2, oam1.update((start + (i - 1)) % 256, b))
    }
}

/// The machine after OAM DMA from page `page`: the 256 bytes of the page
/// are read in order and stored in OAM from the current OAM address on,
/// wrapping at the end.
pub open spec fn oam_dma(m: NesModel, page: u8) -> NesModel {
    let (m1, oam) = oam_dma_steps(m, page, m.ppu.oamaddr, m.ppu.oam, 256);
    NesModel { ppu: PpuModel { oam, ..m1.ppu }, ..m1 }
}

/// A CPU write of `data` to `addr`: the machine afterwards. Work RAM repeats
/// every 2 KiB up to $1FFF; the PPU registers repeat every 8 bytes up to
/// $3FFF; $4014 starts OAM DMA from page `data` and stalls the CPU for 513
/// cycles; $4016 drives the controller strobe; the other I/O registers
/// ignore writes. A write to $4020-$7FFF or to PRG-ROM records a fault.
pub open spec fn bus_write(m: NesModel, addr: u16, data: u8) -> NesModel {
    if addr <= 0x1FFF {
        NesModel { ram: m.ram.update((addr % 0x800) as int, data), ..m }
    } else if addr <= 0x3FFF {
        match ppu_write_reg(m.ppu, ppu_reg_of(addr), data) {
            Ok(p) => NesModel { ppu: p, ..m },
            Err(f) => record_fault(m, f),
        }
    } else if addr == 0x4014 {
        let m1 = oam_dma(m, data);
        NesModel { cpu: Cpu { dma_stall: 513, ..m1.cpu }, ..m1 }
    } else if addr == 0x4016 {
        NesModel { pad: pad_write(m.pad, data), ..m }
    } else if addr <= 0x401F {
        m
    } else if addr <= 0x7FFF {
        record_fault(m, Fault::UnmappedWrite(addr))
    } else {
        record_fault(m, Fault::RomWrite(addr))
    }
}

/// A 16-bit little-endian CPU read: the low byte at `addr`, the high byte at
/// the next address (wrapping from $FFFF to $0000).
pub open spec fn bus_read16(m: NesModel, addr: u16) -> (NesModel, u16) {
    let (m1, lo) = bus_read(m, addr);
    let (m2, hi) = bus_read(m1, addr.wrapping_add(1));
    (m2, (lo as u16) | ((hi as u16) << 8u16))
}

/// What the machine reports: a step of the PPU or of the CPU.
pub enum NesStep {
    Ppu(PpuStep),
    Cpu(CpuStep),
}

/// 8 KiB of pattern tables from a CHR-ROM image: cut to 8 KiB, or padded
/// with zeros.
pub open spec fn fit_chr(chr: Seq<u8>) -> Seq<u8> {
    Seq::new(0x2000, |i: int| if i < chr.len() { chr[i] } else { 0u8 })
}

/// The mirroring that a header flags byte asks for.
pub open spec fn header_mirror(mapper1: u8) -> MIRROR {
    if mapper1 & 1 == 1 { MIRROR::VERTICAL } else { MIRROR::HORIZONTAL }
}

/// The machine at power-up with cartridge `prg`/`chr`/`mapper1` inserted:
/// the CPU at power-up, the PPU at power-up with the cartridge's pattern
/// tables and mirroring, cleared work RAM, no button held, and PC loaded
/// from the reset vector at $FFFC.
pub open spec fn start_spec(prg: Seq<u8>, chr: Seq<u8>, mapper1: u8) -> NesModel {
    let m0 = NesModel {
        cpu: Cpu { pc: 0, a: 0, x: 0, y: 0, s: 0xFD, p: crate::flags::Status { bits: 0x34 }, nmi: false, dma_stall: 0 },
        ppu: ppu_power_up(fit_chr(chr), header_mirror(mapper1)),
        prg,
        mapper1,
        ram: Seq::new(0x800, |i: int| 0u8),
        pad: Pad { status: PadButton { bits: 0 }, shift_index: 0, strobe_enable: false },
        fault: None,
        vblank: false,
        trace: false,
    };
    let (m1, v) = bus_read16(m0, 0xFFFC);
    NesModel { cpu: Cpu { pc: v, ..m1.cpu }, ..m1 }
}

/// The pattern tables from a CHR-ROM image (see `fit_chr`).
fn fit_chrrom(chr: &Vec<u8>) -> (r: Vec<u8>)
    ensures
        r@ == fit_chr(chr@),
{
    let mut v: Vec<u8> = Vec::new();
    let mut i: usize = 0;
    while i < 0x2000
        invariant
            i <= 0x2000,
            v@ == Seq::new(i as nat, |k: int| if k < chr@.len() { chr@[k] } else { 0u8 }),
        decreases 0x2000 - i,
    {
        let b: u8 = if i < chr.len() { chr[i] } else { 0 };
        v.push(b);
        i = i + 1;
    }
    v
}

impl Nes {
    pub open spec fn wf(&self) -> bool {
        self@.wf()
    }

    /// Records `f` unless a fault is recorded already.
    pub fn record_fault(&mut self, f: Fault)
        requires
            old(self).wf(),
        ensures
            final(self).wf(),
            final(self)@ == record_fault(old(self)@, f),
    {
        if self.fault.is_none() {
            self.fault = Some(f);
        }
    }

    /// Reads the byte at `addr` of the CPU address space (see `bus_read`).
    pub fn read8(&mut self, addr: u16) -> (r: u8)
        requires
            old(self).wf(),
        ensures
            final(self).wf(),
            (final(self)@, r) == bus_read(old(self)@, addr),
    {
        if addr <= 0x07FF {
            self.ram[addr as usize]
        } else if addr <= 0x1FFF {
            let offset: u16 = (addr - 0x0800) % 0x800;
            self.ram[offset as usize]
        } else if addr <= 0x2007 {
            assert(addr & 0x0F == addr - 0x2000) by (bit_vector)
                requires
                    0x2000 <= addr <= 0x2007,
            ;
            match self.ppu.read_reg(addr & 0x0F) {
                Ok(v) => v,
                Err(f) => {
                    self.record_fault(f);
                    0
                },
            }
        } else if addr <= 0x3FFF {
            let offset: u16 = (addr - 0x2008) % 8;
            match self.ppu.read_reg(offset) {
                Ok(v) => v,
                Err(f) => {
                    self.record_fault(f);
                    0
                },
            }
        } else if addr >= 0x8000 {
            let size: u16 = self.rom.prgrom.len() as u16;
            let offset: u16 = (addr - 0x8000) % size;
            self.rom.prgrom[offset as usize]
        } else if addr == 0x4015 {
            0xFF
        } else if addr == 0x4016 {
            let s = self.pad.shift_index;
            if s > 7 {
                return 1;
            }
            self.pad.shift_index = s + 1;
            let btn = if !self.pad.strobe_enable {
                let scanbtn = PadButton::from_bits_truncate(0x01u8 << s);
                self.pad.status.contains(scanbtn.bits())
            } else {
                true
            };
            if btn {
                1
            } else {
                0
            }
        } else if addr == 0x4017 {
            0
        } else if addr <= 0x401F {
            0xFF
        } else {
            self.record_fault(Fault::UnmappedRead(addr));
            0
        }
    }

    /// OAM DMA: copies the 256 bytes of page `page` into OAM from the
    /// current OAM address on (see `oam_dma`).
    fn copy_oam_data(&mut self, page: u8)
        requires
            old(self).wf(),
        ensures
            final(self).wf(),
            final(self)@ == oam_dma(old(self)@, page),
    {
        let ghost m0 = self@;
        let target_addr_start: u8 = self.ppu.oamaddr;
        let mut oam: Vec<u8> = self.ppu.oam.clone();
        let mut i: u16 = 0;
        while i < 256
            invariant
                self.wf(),
                0 <= i <= 256,
                oam@.len() == 0x100,
                (self@, oam@) == oam_dma_steps(m0, page, target_addr_start, m0.ppu.oam, i as nat),
            decreases 256 - i,
        {
            let source_addr: u16 = ((page as u16) << 8u16) | i;
            assert(source_addr == (page as u16) * 256 + i) by (bit_vector)
                requires
                    source_addr == ((page as u16) << 8u16) | i,
                    i < 256,
            ;
            let byte = self.read8(source_addr);
            let target_addr: usize = (target_addr_start as usize + i as usize) % 256;
            oam.set(target_addr, byte);
            i = i + 1;
        }
        self.ppu.oam = oam;
    }

    /// Writes `data` to PPU register `reg`, recording the fault if the write is one.
    fn write_ppu_reg(&mut self, reg: u16, data: u8)
        requires
            old(self).wf(),
        ensures
            final(self).wf(),
            final(self)@ == match ppu_write_reg(old(self)@.ppu, reg, data) {
                Ok(p) => NesModel { ppu: p, ..old(self)@ },
                Err(f) => record_fault(old(self)@, f),
            },
    {
        match self.ppu.write_reg(reg, data) {
            Ok(()) => {},
            Err(f) => self.record_fault(f),
        }
    }

    /// Writes `data` to `addr` of the CPU address space (see `bus_write`).
    /// The cartridge takes no writes: an address from $4020 on is not one
    /// that this function accepts.
    pub fn write8(&mut self, addr: u16, data: u8)
        requires
            old(self).wf(),
            addr < 0x4020,
        ensures
            final(self).wf(),
            final(self)@ == bus_write(old(self)@, addr, data),
    {
        self.store8(addr, data);
    }

    /// A CPU store of `data` to `addr` (see `bus_write`): a store to the
    /// cartridge ($4020 on) records a fault, which ends the run.
    #[verifier::spinoff_prover]
    #[verifier::rlimit(40)]
    pub(crate) fn store8(&mut self, addr: u16, data: u8)
        requires
            old(self).wf(),
        ensures
            final(self).wf(),
            final(self)@ == bus_write(old(self)@, addr, data),
    {
        if addr <= 0x07FF {
            self.ram.set(addr as usize, data);
        } else if addr <= 0x1FFF {
            let offset: u16 = (addr - 0x0800) % 0x800;
            self.ram.set(offset as usize, data);
        } else if addr <= 0x2007 {
            assert(addr & 0x0F == addr - 0x2000) by (bit_vector)
                requires
                    0x2000 <= addr <= 0x2007,
            ;
            self.write_ppu_reg(addr & 0x0F, data);
        } else if addr <= 0x3FFF {
            let offset: u16 = (addr - 0x2008) % 8;
            self.write_ppu_reg(offset, data);
        } else if addr == 0x4014 {
            self.copy_oam_data(data);
            self.cpu.dma_stall = 513;
        } else if addr == 0x4016 {
            let strobe = (data & 0x01) != 0;
            if strobe {
                self.pad.strobe_enable = true;
            } else {
                self.pad.shift_index = 0;
                self.pad.strobe_enable = false;
            }
        } else if addr <= 0x401F {
        } else if addr <= 0x7FFF {
            self.record_fault(Fault::UnmappedWrite(addr));
        } else {
            self.record_fault(Fault::RomWrite(addr));
        }
    }

    /// Reads a little-endian 16-bit word (see `bus_read16`).
    pub fn read16(&mut self, addr: u16) -> (r: u16)
        requires
            old(self).wf(),
        ensures
            final(self).wf(),
            (final(self)@, r) == bus_read16(old(self)@, addr),
    {
        let lo = self.read8(addr);
        let hi = self.read8(addr.wrapping_add(1));
        (lo as u16) | ((hi as u16) << 8u16)
    }

    /// Powers the machine up with `rom` inserted (see `start_spec`).
    pub fn start(rom: Cartridge) -> (r: Nes)
        requires
            rom.wf(),
        ensures
            r.wf(),
            r@ == start_spec(rom.prgrom@, rom.chrrom@, rom.mapper1),
    {
        let cpu = Cpu::power_up();
        let chrrom = fit_chrrom(&rom.chrrom);
        let mirror = rom.mirror();
        let ppu = Ppu::power_up(chrrom, mirror);
        let ram = cell_zero(0x0800);
        let pad = Pad::new();
        let mut nes = Nes { cpu, ppu, rom, ram, pad, fault: None, vblank: false, trace: false };
        let pc = nes.read16(0xFFFC);
        nes.cpu.pc = pc;
        nes
    }

    /// Runs the machine for one CPU step (see `cpu_step_spec`): the PPU
    /// keeps pace, three dots per CPU cycle. The byte at PC must encode an
    /// opcode (see `Cpu::begin_step` for a step that looks at it first).
    pub fn run(&mut self) -> (r: CpuStep)
        requires
            old(self).wf(),
            next_opcode(old(self)@) is Some,
        ensures
            final(self).wf(),
            final(self)@ == cpu_step_spec(old(self)@).0,
            match cpu_step_spec(old(self)@).1 {
                Some(t) => r matches CpuStep::Op(pc, op, arg) && pc == t.0 && op == t.1 && arg@ == t.2,
                None => false,
            },
            r matches CpuStep::Op(_, _, arg) ==> trace_ok(arg@),
    {
        Cpu::run(self)
    }

    /// The work RAM.
    pub fn ram(&self) -> (r: &[u8])
        ensures
            r@ == self.ram@,
    {
        self.ram.as_slice()
    }
}

} // verus!
