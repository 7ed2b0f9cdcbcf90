//! A Nintendo Entertainment System emulator core: the 6502 CPU with its
//! undocumented opcodes, the PPU rendering pipeline, the controller shift
//! register and the memory-mapped bus that ties them together.
//!
//! Every component is a plain value that the bus owns; one CPU cycle drives
//! three PPU cycles, so memory accesses interleave with rendering exactly as
//! they do on the hardware model.
#![allow(non_snake_case)]
#![allow(non_camel_case_types)]

pub mod params;
pub mod flags;
pub mod opcode;
pub mod pad;
pub mod fault;
pub mod ppu;
pub mod addressings;
pub mod alu;
pub mod cpu;
pub mod nes;
pub mod render;
pub mod operations;
pub mod dispatch;
pub mod laws;
pub mod cpu_laws;
pub mod trace;
pub mod control;
pub mod sprite_laws;
pub mod flag_laws;
pub mod cycle_laws;
pub mod logic_laws;
pub mod address_laws;
pub mod trace_laws;
pub mod pixel_laws;
pub mod branch_laws;
pub mod tile_laws;
pub mod combo_laws;
