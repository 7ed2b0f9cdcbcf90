//! What stops the machine: an access that the hardware model does not map,
//! or an instruction byte that encodes no known opcode.
use vstd::prelude::*;

verus! {

/// Why the machine cannot go on; the address or byte that caused it is kept.
#[derive(Debug, Clone, Copy, PartialEq, Eq, Structural)]
pub enum Fault {
    /// A CPU read of an address that no device answers ($4020-$7FFF).
    UnmappedRead(u16),
    /// A CPU write to the cartridge expansion area or to save RAM ($4020-$7FFF).
    UnmappedWrite(u16),
    /// A CPU write to PRG-ROM ($8000-$FFFF).
    RomWrite(u16),
    /// A read of a write-only PPU register (the register number is kept).
    PpuRegRead(u16),
    /// A write to the read-only PPU status register.
    PpuRegWrite(u16),
    /// A PPU write to CHR-ROM ($0000-$1FFF).
    ChrWrite(u16),
    /// A PPU write outside the nametables and the palette, or to a nametable
    /// that the mirroring mode does not map.
    PpuWrite(u16),
    /// A palette entry that names no colour of the master palette.
    ColorIndex(u8),
    /// An instruction byte, at the given address, that encodes no known opcode.
    UnknownOpcode(u8, u16),
}

} // verus!
