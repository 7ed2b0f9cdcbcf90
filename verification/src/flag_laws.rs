//! The unused flag of the status register: set at power-up and kept set by
//! every CPU step.
use vstd::prelude::*;
use crate::addressings::ticks;
use crate::cpu::{cpu_step_spec, dma_spec, nmi_spec};
use crate::dispatch::exec_spec;
use crate::flags::{Status, with_bits};
use crate::nes::{NesModel, bus_read, bus_write, oam_dma_steps};
use crate::opcode::Opcode;
use crate::render::{ppu_dot, render_phase, render_pixel, units_phase, nt_phase, sprite_phase, tick_spec};

verus! {

/// Whether the unused flag (bit 5) is set in a status byte.
pub open spec fn u_set(bits: u8) -> bool {
    bits & 0x20 != 0
}

/// Setting or clearing one flag other than the unused one keeps the unused
/// flag; setting the unused flag sets it.
pub broadcast proof fn lemma_with_bits_u(p: u8, mask: u8, on: bool)
    requires
        mask == 1 || mask == 2 || mask == 4 || mask == 8 || mask == 16 || mask == 32 || mask == 64 || mask == 128,
    ensures
        mask != 32 ==> #[trigger] u_set(with_bits(p, mask, on)) == u_set(p),
        mask == 32 && on ==> u_set(with_bits(p, mask, on)),
{
    assert((mask != 32 ==> ((if on { p | mask } else { p & !mask }) & 0x20 != 0) == (p & 0x20 != 0))
        && (mask == 32 && on ==> ((if on { p | mask } else { p & !mask }) & 0x20 != 0))) by (bit_vector)
        requires
            mask == 1 || mask == 2 || mask == 4 || mask == 8 || mask == 16 || mask == 32 || mask == 64 || mask == 128,
    ;
}

/// Or-ing in flags keeps the unused flag, and or-ing it in sets it.
pub broadcast proof fn lemma_or_u(p: u8, c: u8)
    requires
        c == 4 || c == 32,
    ensures
        #[trigger] u_set(p | c) == (u_set(p) || c == 32),
{
    assert(((p | c) & 0x20 != 0) == ((p & 0x20 != 0) || c == 32)) by (bit_vector)
        requires
            c == 4 || c == 32,
    ;
}

/// A PPU cycle does not touch the status register or PC.
pub broadcast proof fn lemma_dot_keeps_p(m: NesModel)
    ensures
        #![trigger ppu_dot(m)]
        ppu_dot(m).cpu.p == m.cpu.p,
        ppu_dot(m).cpu.pc == m.cpu.pc,
{
    reveal(render_phase);
    reveal(render_pixel);
    reveal(units_phase);
    reveal(nt_phase);
    reveal(sprite_phase);
}

/// A CPU cycle's worth of PPU time does not touch the status register or PC.
pub broadcast proof fn lemma_tick_keeps_p(m: NesModel)
    ensures
        #![trigger tick_spec(m)]
        tick_spec(m).cpu.p == m.cpu.p,
        tick_spec(m).cpu.pc == m.cpu.pc,
{
    reveal(tick_spec);
    lemma_dot_keeps_p(m);
    lemma_dot_keeps_p(ppu_dot(m));
    lemma_dot_keeps_p(ppu_dot(ppu_dot(m)));
}

/// Cycles do not touch the status register.
pub broadcast proof fn lemma_ticks_keep_p(m: NesModel, n: nat)
    ensures
        #[trigger] ticks(m, n).cpu.p == m.cpu.p,
    decreases n,
{
    if n > 0 {
        lemma_ticks_keep_p(m, (n - 1) as nat);
        lemma_tick_keeps_p(ticks(m, (n - 1) as nat));
    }
}

/// A CPU read does not touch the registers.
pub broadcast proof fn lemma_read_keeps_cpu(m: NesModel, a: u16)
    ensures
        #[trigger] bus_read(m, a).0.cpu == m.cpu,
{
}

/// OAM DMA reads do not touch the registers.
proof fn lemma_dma_keeps_cpu(m: NesModel, page: u8, start: u8, oam: Seq<u8>, i: nat)
    ensures
        oam_dma_steps(m, page, start, oam, i).0.cpu == m.cpu,
    decreases i,
{
    if i > 0 {
        lemma_dma_keeps_cpu(m, page, start, oam, (i - 1) as nat);
    }
}

/// A CPU write does not touch the status register.
pub broadcast proof fn lemma_write_keeps_p(m: NesModel, a: u16, v: u8)
    ensures
        #[trigger] bus_write(m, a, v).cpu.p == m.cpu.p,
{
    lemma_dma_keeps_cpu(m, v, m.ppu.oamaddr, m.ppu.oam, 256);
}

/// The unused flag survives the instructions `BrkImpl`, `BplRel`, `JsrAbs`, `BmiRel`, `RtiImpl`, `BvcRel`.
#[verifier::spinoff_prover]
#[verifier::rlimit(60)]
proof fn lemma_exec_keeps_u_0(m: NesModel, op: Opcode)
    requires
        u_set(m.cpu.p.bits),
        op == Opcode::BrkImpl || op == Opcode::BplRel || op == Opcode::JsrAbs || op == Opcode::BmiRel || op == Opcode::RtiImpl || op == Opcode::BvcRel,
    ensures
        u_set(exec_spec(m, op).0.cpu.p.bits),
{
    broadcast use lemma_with_bits_u, lemma_or_u, lemma_tick_keeps_p, lemma_ticks_keep_p, lemma_read_keeps_cpu, lemma_write_keeps_p;
    reveal(exec_spec);
}

/// The unused flag survives the instructions `RtsImpl`, `BvsRel`, `BccRel`, `LdyImm`, `BcsRel`, `CpyImm`.
#[verifier::spinoff_prover]
#[verifier::rlimit(60)]
proof fn lemma_exec_keeps_u_1(m: NesModel, op: Opcode)
    requires
        u_set(m.cpu.p.bits),
        op == Opcode::RtsImpl || op == Opcode::BvsRel || op == Opcode::BccRel || op == Opcode::LdyImm || op == Opcode::BcsRel || op == Opcode::CpyImm,
    ensures
        u_set(exec_spec(m, op).0.cpu.p.bits),
{
    broadcast use lemma_with_bits_u, lemma_or_u, lemma_tick_keeps_p, lemma_ticks_keep_p, lemma_read_keeps_cpu, lemma_write_keeps_p;
    reveal(exec_spec);
}

/// The unused flag survives the instructions `BneRel`, `CpxImm`, `BeqRel`, `OraXind`, `AndXind`, `EorXind`.
#[verifier::spinoff_prover]
#[verifier::rlimit(60)]
proof fn lemma_exec_keeps_u_2(m: NesModel, op: Opcode)
    requires
        u_set(m.cpu.p.bits),
        op == Opcode::BneRel || op == Opcode::CpxImm || op == Opcode::BeqRel || op == Opcode::OraXind || op == Opcode::AndXind || op == Opcode::EorXind,
    ensures
        u_set(exec_spec(m, op).0.cpu.p.bits),
{
    broadcast use lemma_with_bits_u, lemma_or_u, lemma_tick_keeps_p, lemma_ticks_keep_p, lemma_read_keeps_cpu, lemma_write_keeps_p;
    reveal(exec_spec);
}

/// The unused flag survives the instructions `AdcXind`, `StaXind`, `LdaXind`, `CmpXind`, `SbcXind`, `OraIndY`.
#[verifier::spinoff_prover]
#[verifier::rlimit(60)]
proof fn lemma_exec_keeps_u_3(m: NesModel, op: Opcode)
    requires
        u_set(m.cpu.p.bits),
        op == Opcode::AdcXind || op == Opcode::StaXind || op == Opcode::LdaXind || op == Opcode::CmpXind || op == Opcode::SbcXind || op == Opcode::OraIndY,
    ensures
        u_set(exec_spec(m, op).0.cpu.p.bits),
{
    broadcast use lemma_with_bits_u, lemma_or_u, lemma_tick_keeps_p, lemma_ticks_keep_p, lemma_read_keeps_cpu, lemma_write_keeps_p;
    reveal(exec_spec);
}

/// The unused flag survives the instructions `AndIndY`, `EorIndY`, `AdcIndY`, `StaIndY`, `LdaIndY`, `CmpIndY`.
#[verifier::spinoff_prover]
#[verifier::rlimit(60)]
proof fn lemma_exec_keeps_u_4(m: NesModel, op: Opcode)
    requires
        u_set(m.cpu.p.bits),
        op == Opcode::AndIndY || op == Opcode::EorIndY || op == Opcode::AdcIndY || op == Opcode::StaIndY || op == Opcode::LdaIndY || op == Opcode::CmpIndY,
    ensures
        u_set(exec_spec(m, op).0.cpu.p.bits),
{
    broadcast use lemma_with_bits_u, lemma_or_u, lemma_tick_keeps_p, lemma_ticks_keep_p, lemma_read_keeps_cpu, lemma_write_keeps_p;
    reveal(exec_spec);
}

/// The unused flag survives the instructions `SbcIndY`, `LdxImm`, `BitZpg`, `StyZpg`, `StyZpgX`, `LdyZpg`.
#[verifier::spinoff_prover]
#[verifier::rlimit(60)]
proof fn lemma_exec_keeps_u_5(m: NesModel, op: Opcode)
    requires
        u_set(m.cpu.p.bits),
        op == Opcode::SbcIndY || op == Opcode::LdxImm || op == Opcode::BitZpg || op == Opcode::StyZpg || op == Opcode::StyZpgX || op == Opcode::LdyZpg,
    ensures
        u_set(exec_spec(m, op).0.cpu.p.bits),
{
    broadcast use lemma_with_bits_u, lemma_or_u, lemma_tick_keeps_p, lemma_ticks_keep_p, lemma_read_keeps_cpu, lemma_write_keeps_p;
    reveal(exec_spec);
}

/// The unused flag survives the instructions `LdyZpgX`, `CpyZpg`, `CpxZpg`, `OraZpg`, `AndZpg`, `EorZpg`.
#[verifier::spinoff_prover]
#[verifier::rlimit(60)]
proof fn lemma_exec_keeps_u_6(m: NesModel, op: Opcode)
    requires
        u_set(m.cpu.p.bits),
        op == Opcode::LdyZpgX || op == Opcode::CpyZpg || op == Opcode::CpxZpg || op == Opcode::OraZpg || op == Opcode::AndZpg || op == Opcode::EorZpg,
    ensures
        u_set(exec_spec(m, op).0.cpu.p.bits),
{
    broadcast use lemma_with_bits_u, lemma_or_u, lemma_tick_keeps_p, lemma_ticks_keep_p, lemma_read_keeps_cpu, lemma_write_keeps_p;
    reveal(exec_spec);
}

/// The unused flag survives the instructions `AdcZpg`, `StaZpg`, `LdaZpg`, `CmpZpg`, `SbcZpg`, `OraZpgX`.
#[verifier::spinoff_prover]
#[verifier::rlimit(60)]
proof fn lemma_exec_keeps_u_7(m: NesModel, op: Opcode)
    requires
        u_set(m.cpu.p.bits),
        op == Opcode::AdcZpg || op == Opcode::StaZpg || op == Opcode::LdaZpg || op == Opcode::CmpZpg || op == Opcode::SbcZpg || op == Opcode::OraZpgX,
    ensures
        u_set(exec_spec(m, op).0.cpu.p.bits),
{
    broadcast use lemma_with_bits_u, lemma_or_u, lemma_tick_keeps_p, lemma_ticks_keep_p, lemma_read_keeps_cpu, lemma_write_keeps_p;
    reveal(exec_spec);
}

/// The unused flag survives the instructions `AndZpgX`, `EorZpgX`, `AdcZpgX`, `StaZpgX`, `LdaZpgX`, `CmpZpgX`.
#[verifier::spinoff_prover]
#[verifier::rlimit(60)]
proof fn lemma_exec_keeps_u_8(m: NesModel, op: Opcode)
    requires
        u_set(m.cpu.p.bits),
        op == Opcode::AndZpgX || op == Opcode::EorZpgX || op == Opcode::AdcZpgX || op == Opcode::StaZpgX || op == Opcode::LdaZpgX || op == Opcode::CmpZpgX,
    ensures
        u_set(exec_spec(m, op).0.cpu.p.bits),
{
    broadcast use lemma_with_bits_u, lemma_or_u, lemma_tick_keeps_p, lemma_ticks_keep_p, lemma_read_keeps_cpu, lemma_write_keeps_p;
    reveal(exec_spec);
}

/// The unused flag survives the instructions `SbcZpgX`, `AslZpg`, `RolZpg`, `LsrZpg`, `RorZpg`, `StxZpg`.
#[verifier::spinoff_prover]
#[verifier::rlimit(60)]
proof fn lemma_exec_keeps_u_9(m: NesModel, op: Opcode)
    requires
        u_set(m.cpu.p.bits),
        op == Opcode::SbcZpgX || op == Opcode::AslZpg || op == Opcode::RolZpg || op == Opcode::LsrZpg || op == Opcode::RorZpg || op == Opcode::StxZpg,
    ensures
        u_set(exec_spec(m, op).0.cpu.p.bits),
{
    broadcast use lemma_with_bits_u, lemma_or_u, lemma_tick_keeps_p, lemma_ticks_keep_p, lemma_read_keeps_cpu, lemma_write_keeps_p;
    reveal(exec_spec);
}

/// The unused flag survives the instructions `LdxZpg`, `DecZpg`, `IncZpg`, `AslZpgX`, `RolZpgX`, `LsrZpgX`.
#[verifier::spinoff_prover]
#[verifier::rlimit(60)]
proof fn lemma_exec_keeps_u_10(m: NesModel, op: Opcode)
    requires
        u_set(m.cpu.p.bits),
        op == Opcode::LdxZpg || op == Opcode::DecZpg || op == Opcode::IncZpg || op == Opcode::AslZpgX || op == Opcode::RolZpgX || op == Opcode::LsrZpgX,
    ensures
        u_set(exec_spec(m, op).0.cpu.p.bits),
{
    broadcast use lemma_with_bits_u, lemma_or_u, lemma_tick_keeps_p, lemma_ticks_keep_p, lemma_read_keeps_cpu, lemma_write_keeps_p;
    reveal(exec_spec);
}

/// The unused flag survives the instructions `RorZpgX`, `StxZpgY`, `LdxZpgY`, `DecZpgX`, `IncZpgX`, `PhpImpl`.
#[verifier::spinoff_prover]
#[verifier::rlimit(60)]
proof fn lemma_exec_keeps_u_11(m: NesModel, op: Opcode)
    requires
        u_set(m.cpu.p.bits),
        op == Opcode::RorZpgX || op == Opcode::StxZpgY || op == Opcode::LdxZpgY || op == Opcode::DecZpgX || op == Opcode::IncZpgX || op == Opcode::PhpImpl,
    ensures
        u_set(exec_spec(m, op).0.cpu.p.bits),
{
    broadcast use lemma_with_bits_u, lemma_or_u, lemma_tick_keeps_p, lemma_ticks_keep_p, lemma_read_keeps_cpu, lemma_write_keeps_p;
    reveal(exec_spec);
}

/// The unused flag survives the instructions `ClcImpl`, `PlpImpl`, `SecImpl`, `PhaImpl`, `CliImpl`, `PlaImpl`.
#[verifier::spinoff_prover]
#[verifier::rlimit(60)]
proof fn lemma_exec_keeps_u_12(m: NesModel, op: Opcode)
    requires
        u_set(m.cpu.p.bits),
        op == Opcode::ClcImpl || op == Opcode::PlpImpl || op == Opcode::SecImpl || op == Opcode::PhaImpl || op == Opcode::CliImpl || op == Opcode::PlaImpl,
    ensures
        u_set(exec_spec(m, op).0.cpu.p.bits),
{
    broadcast use lemma_with_bits_u, lemma_or_u, lemma_tick_keeps_p, lemma_ticks_keep_p, lemma_read_keeps_cpu, lemma_write_keeps_p;
    reveal(exec_spec);
}

/// The unused flag survives the instructions `SeiImpl`, `DeyImpl`, `TyaImpl`, `TayImpl`, `ClvImpl`, `InyImpl`.
#[verifier::spinoff_prover]
#[verifier::rlimit(60)]
proof fn lemma_exec_keeps_u_13(m: NesModel, op: Opcode)
    requires
        u_set(m.cpu.p.bits),
        op == Opcode::SeiImpl || op == Opcode::DeyImpl || op == Opcode::TyaImpl || op == Opcode::TayImpl || op == Opcode::ClvImpl || op == Opcode::InyImpl,
    ensures
        u_set(exec_spec(m, op).0.cpu.p.bits),
{
    broadcast use lemma_with_bits_u, lemma_or_u, lemma_tick_keeps_p, lemma_ticks_keep_p, lemma_read_keeps_cpu, lemma_write_keeps_p;
    reveal(exec_spec);
}

/// The unused flag survives the instructions `CldImpl`, `InxImpl`, `SedImpl`, `OraImm`, `AndImm`, `EorImm`.
#[verifier::spinoff_prover]
#[verifier::rlimit(60)]
proof fn lemma_exec_keeps_u_14(m: NesModel, op: Opcode)
    requires
        u_set(m.cpu.p.bits),
        op == Opcode::CldImpl || op == Opcode::InxImpl || op == Opcode::SedImpl || op == Opcode::OraImm || op == Opcode::AndImm || op == Opcode::EorImm,
    ensures
        u_set(exec_spec(m, op).0.cpu.p.bits),
{
    broadcast use lemma_with_bits_u, lemma_or_u, lemma_tick_keeps_p, lemma_ticks_keep_p, lemma_read_keeps_cpu, lemma_write_keeps_p;
    reveal(exec_spec);
}

/// The unused flag survives the instructions `AdcImm`, `LdaImm`, `CmpImm`, `SbcImm`, `OraAbsY`, `AndAbsY`.
#[verifier::spinoff_prover]
#[verifier::rlimit(60)]
proof fn lemma_exec_keeps_u_15(m: NesModel, op: Opcode)
    requires
        u_set(m.cpu.p.bits),
        op == Opcode::AdcImm || op == Opcode::LdaImm || op == Opcode::CmpImm || op == Opcode::SbcImm || op == Opcode::OraAbsY || op == Opcode::AndAbsY,
    ensures
        u_set(exec_spec(m, op).0.cpu.p.bits),
{
    broadcast use lemma_with_bits_u, lemma_or_u, lemma_tick_keeps_p, lemma_ticks_keep_p, lemma_read_keeps_cpu, lemma_write_keeps_p;
    reveal(exec_spec);
}

/// The unused flag survives the instructions `EorAbsY`, `AdcAbsY`, `StaAbsY`, `LdaAbsY`, `CmpAbsY`, `SbcAbsY`.
#[verifier::spinoff_prover]
#[verifier::rlimit(60)]
proof fn lemma_exec_keeps_u_16(m: NesModel, op: Opcode)
    requires
        u_set(m.cpu.p.bits),
        op == Opcode::EorAbsY || op == Opcode::AdcAbsY || op == Opcode::StaAbsY || op == Opcode::LdaAbsY || op == Opcode::CmpAbsY || op == Opcode::SbcAbsY,
    ensures
        u_set(exec_spec(m, op).0.cpu.p.bits),
{
    broadcast use lemma_with_bits_u, lemma_or_u, lemma_tick_keeps_p, lemma_ticks_keep_p, lemma_read_keeps_cpu, lemma_write_keeps_p;
    reveal(exec_spec);
}

/// The unused flag survives the instructions `AslA`, `RolA`, `LsrA`, `RorA`, `TxaImpl`, `TxsImpl`.
#[verifier::spinoff_prover]
#[verifier::rlimit(60)]
proof fn lemma_exec_keeps_u_17(m: NesModel, op: Opcode)
    requires
        u_set(m.cpu.p.bits),
        op == Opcode::AslA || op == Opcode::RolA || op == Opcode::LsrA || op == Opcode::RorA || op == Opcode::TxaImpl || op == Opcode::TxsImpl,
    ensures
        u_set(exec_spec(m, op).0.cpu.p.bits),
{
    broadcast use lemma_with_bits_u, lemma_or_u, lemma_tick_keeps_p, lemma_ticks_keep_p, lemma_read_keeps_cpu, lemma_write_keeps_p;
    reveal(exec_spec);
}

/// The unused flag survives the instructions `TaxImpl`, `TsxImpl`, `DexImpl`, `NopImpl`, `BitAbs`, `JmpAbs`.
#[verifier::spinoff_prover]
#[verifier::rlimit(60)]
proof fn lemma_exec_keeps_u_18(m: NesModel, op: Opcode)
    requires
        u_set(m.cpu.p.bits),
        op == Opcode::TaxImpl || op == Opcode::TsxImpl || op == Opcode::DexImpl || op == Opcode::NopImpl || op == Opcode::BitAbs || op == Opcode::JmpAbs,
    ensures
        u_set(exec_spec(m, op).0.cpu.p.bits),
{
    broadcast use lemma_with_bits_u, lemma_or_u, lemma_tick_keeps_p, lemma_ticks_keep_p, lemma_read_keeps_cpu, lemma_write_keeps_p;
    reveal(exec_spec);
}

/// The unused flag survives the instructions `JmpInd`, `StyAbs`, `LdyAbs`, `LdyAbsX`, `CpyAbs`, `CpxAbs`.
#[verifier::spinoff_prover]
#[verifier::rlimit(60)]
proof fn lemma_exec_keeps_u_19(m: NesModel, op: Opcode)
    requires
        u_set(m.cpu.p.bits),
        op == Opcode::JmpInd || op == Opcode::StyAbs || op == Opcode::LdyAbs || op == Opcode::LdyAbsX || op == Opcode::CpyAbs || op == Opcode::CpxAbs,
    ensures
        u_set(exec_spec(m, op).0.cpu.p.bits),
{
    broadcast use lemma_with_bits_u, lemma_or_u, lemma_tick_keeps_p, lemma_ticks_keep_p, lemma_read_keeps_cpu, lemma_write_keeps_p;
    reveal(exec_spec);
}

/// The unused flag survives the instructions `OraAbs`, `AndAbs`, `EorAbs`, `AdcAbs`, `StaAbs`, `LdaAbs`.
#[verifier::spinoff_prover]
#[verifier::rlimit(60)]
proof fn lemma_exec_keeps_u_20(m: NesModel, op: Opcode)
    requires
        u_set(m.cpu.p.bits),
        op == Opcode::OraAbs || op == Opcode::AndAbs || op == Opcode::EorAbs || op == Opcode::AdcAbs || op == Opcode::StaAbs || op == Opcode::LdaAbs,
    ensures
        u_set(exec_spec(m, op).0.cpu.p.bits),
{
    broadcast use lemma_with_bits_u, lemma_or_u, lemma_tick_keeps_p, lemma_ticks_keep_p, lemma_read_keeps_cpu, lemma_write_keeps_p;
    reveal(exec_spec);
}

/// The unused flag survives the instructions `CmpAbs`, `SbcAbs`, `OraAbsX`, `AndAbsX`, `EorAbsX`, `AdcAbsX`.
#[verifier::spinoff_prover]
#[verifier::rlimit(60)]
proof fn lemma_exec_keeps_u_21(m: NesModel, op: Opcode)
    requires
        u_set(m.cpu.p.bits),
        op == Opcode::CmpAbs || op == Opcode::SbcAbs || op == Opcode::OraAbsX || op == Opcode::AndAbsX || op == Opcode::EorAbsX || op == Opcode::AdcAbsX,
    ensures
        u_set(exec_spec(m, op).0.cpu.p.bits),
{
    broadcast use lemma_with_bits_u, lemma_or_u, lemma_tick_keeps_p, lemma_ticks_keep_p, lemma_read_keeps_cpu, lemma_write_keeps_p;
    reveal(exec_spec);
}

/// The unused flag survives the instructions `StaAbsX`, `LdaAbsX`, `CmpAbsX`, `SbcAbsX`, `AslAbs`, `RolAbs`.
#[verifier::spinoff_prover]
#[verifier::rlimit(60)]
proof fn lemma_exec_keeps_u_22(m: NesModel, op: Opcode)
    requires
        u_set(m.cpu.p.bits),
        op == Opcode::StaAbsX || op == Opcode::LdaAbsX || op == Opcode::CmpAbsX || op == Opcode::SbcAbsX || op == Opcode::AslAbs || op == Opcode::RolAbs,
    ensures
        u_set(exec_spec(m, op).0.cpu.p.bits),
{
    broadcast use lemma_with_bits_u, lemma_or_u, lemma_tick_keeps_p, lemma_ticks_keep_p, lemma_read_keeps_cpu, lemma_write_keeps_p;
    reveal(exec_spec);
}

/// The unused flag survives the instructions `LsrAbs`, `RorAbs`, `StxAbs`, `LdxAbs`, `DecAbs`, `IncAbs`.
#[verifier::spinoff_prover]
#[verifier::rlimit(60)]
proof fn lemma_exec_keeps_u_23(m: NesModel, op: Opcode)
    requires
        u_set(m.cpu.p.bits),
        op == Opcode::LsrAbs || op == Opcode::RorAbs || op == Opcode::StxAbs || op == Opcode::LdxAbs || op == Opcode::DecAbs || op == Opcode::IncAbs,
    ensures
        u_set(exec_spec(m, op).0.cpu.p.bits),
{
    broadcast use lemma_with_bits_u, lemma_or_u, lemma_tick_keeps_p, lemma_ticks_keep_p, lemma_read_keeps_cpu, lemma_write_keeps_p;
    reveal(exec_spec);
}

/// The unused flag survives the instructions `AslAbsX`, `RolAbsX`, `LsrAbsX`, `RorAbsX`, `LdxAbsY`, `DecAbsX`.
#[verifier::spinoff_prover]
#[verifier::rlimit(60)]
proof fn lemma_exec_keeps_u_24(m: NesModel, op: Opcode)
    requires
        u_set(m.cpu.p.bits),
        op == Opcode::AslAbsX || op == Opcode::RolAbsX || op == Opcode::LsrAbsX || op == Opcode::RorAbsX || op == Opcode::LdxAbsY || op == Opcode::DecAbsX,
    ensures
        u_set(exec_spec(m, op).0.cpu.p.bits),
{
    broadcast use lemma_with_bits_u, lemma_or_u, lemma_tick_keeps_p, lemma_ticks_keep_p, lemma_read_keeps_cpu, lemma_write_keeps_p;
    reveal(exec_spec);
}

/// The unused flag survives the instructions `IncAbsX`, `UNopZpg1`, `UNopZpg2`, `UNopZpg3`, `UNopZpgX1`, `UNopZpgX2`.
#[verifier::spinoff_prover]
#[verifier::rlimit(60)]
proof fn lemma_exec_keeps_u_25(m: NesModel, op: Opcode)
    requires
        u_set(m.cpu.p.bits),
        op == Opcode::IncAbsX || op == Opcode::UNopZpg1 || op == Opcode::UNopZpg2 || op == Opcode::UNopZpg3 || op == Opcode::UNopZpgX1 || op == Opcode::UNopZpgX2,
    ensures
        u_set(exec_spec(m, op).0.cpu.p.bits),
{
    broadcast use lemma_with_bits_u, lemma_or_u, lemma_tick_keeps_p, lemma_ticks_keep_p, lemma_read_keeps_cpu, lemma_write_keeps_p;
    reveal(exec_spec);
}

/// The unused flag survives the instructions `UNopZpgX3`, `UNopZpgX4`, `UNopZpgX5`, `UNopZpgX6`, `UNopImm1`, `UNopImm2`.
#[verifier::spinoff_prover]
#[verifier::rlimit(60)]
proof fn lemma_exec_keeps_u_26(m: NesModel, op: Opcode)
    requires
        u_set(m.cpu.p.bits),
        op == Opcode::UNopZpgX3 || op == Opcode::UNopZpgX4 || op == Opcode::UNopZpgX5 || op == Opcode::UNopZpgX6 || op == Opcode::UNopImm1 || op == Opcode::UNopImm2,
    ensures
        u_set(exec_spec(m, op).0.cpu.p.bits),
{
    broadcast use lemma_with_bits_u, lemma_or_u, lemma_tick_keeps_p, lemma_ticks_keep_p, lemma_read_keeps_cpu, lemma_write_keeps_p;
    reveal(exec_spec);
}

/// The unused flag survives the instructions `UNopImm3`, `UNopImm4`, `UNopImm5`, `UNopAbs`, `UNopAbsX1`, `UNopAbsX2`.
#[verifier::spinoff_prover]
#[verifier::rlimit(60)]
proof fn lemma_exec_keeps_u_27(m: NesModel, op: Opcode)
    requires
        u_set(m.cpu.p.bits),
        op == Opcode::UNopImm3 || op == Opcode::UNopImm4 || op == Opcode::UNopImm5 || op == Opcode::UNopAbs || op == Opcode::UNopAbsX1 || op == Opcode::UNopAbsX2,
    ensures
        u_set(exec_spec(m, op).0.cpu.p.bits),
{
    broadcast use lemma_with_bits_u, lemma_or_u, lemma_tick_keeps_p, lemma_ticks_keep_p, lemma_read_keeps_cpu, lemma_write_keeps_p;
    reveal(exec_spec);
}

/// The unused flag survives the instructions `UNopAbsX3`, `UNopAbsX4`, `UNopAbsX5`, `UNopAbsX6`, `UNopImpl1`, `UNopImpl2`.
#[verifier::spinoff_prover]
#[verifier::rlimit(60)]
proof fn lemma_exec_keeps_u_28(m: NesModel, op: Opcode)
    requires
        u_set(m.cpu.p.bits),
        op == Opcode::UNopAbsX3 || op == Opcode::UNopAbsX4 || op == Opcode::UNopAbsX5 || op == Opcode::UNopAbsX6 || op == Opcode::UNopImpl1 || op == Opcode::UNopImpl2,
    ensures
        u_set(exec_spec(m, op).0.cpu.p.bits),
{
    broadcast use lemma_with_bits_u, lemma_or_u, lemma_tick_keeps_p, lemma_ticks_keep_p, lemma_read_keeps_cpu, lemma_write_keeps_p;
    reveal(exec_spec);
}

/// The unused flag survives the instructions `UNopImpl3`, `UNopImpl4`, `UNopImpl5`, `UNopImpl6`, `ULaxZpg`, `ULaxZpgY`.
#[verifier::spinoff_prover]
#[verifier::rlimit(60)]
proof fn lemma_exec_keeps_u_29(m: NesModel, op: Opcode)
    requires
        u_set(m.cpu.p.bits),
        op == Opcode::UNopImpl3 || op == Opcode::UNopImpl4 || op == Opcode::UNopImpl5 || op == Opcode::UNopImpl6 || op == Opcode::ULaxZpg || op == Opcode::ULaxZpgY,
    ensures
        u_set(exec_spec(m, op).0.cpu.p.bits),
{
    broadcast use lemma_with_bits_u, lemma_or_u, lemma_tick_keeps_p, lemma_ticks_keep_p, lemma_read_keeps_cpu, lemma_write_keeps_p;
    reveal(exec_spec);
}

/// The unused flag survives the instructions `ULaxAbs`, `ULaxAbsY`, `ULaxXind`, `ULaxIndY`, `USaxZpg`, `USaxZpgY`.
#[verifier::spinoff_prover]
#[verifier::rlimit(60)]
proof fn lemma_exec_keeps_u_30(m: NesModel, op: Opcode)
    requires
        u_set(m.cpu.p.bits),
        op == Opcode::ULaxAbs || op == Opcode::ULaxAbsY || op == Opcode::ULaxXind || op == Opcode::ULaxIndY || op == Opcode::USaxZpg || op == Opcode::USaxZpgY,
    ensures
        u_set(exec_spec(m, op).0.cpu.p.bits),
{
    broadcast use lemma_with_bits_u, lemma_or_u, lemma_tick_keeps_p, lemma_ticks_keep_p, lemma_read_keeps_cpu, lemma_write_keeps_p;
    reveal(exec_spec);
}

/// The unused flag survives the instructions `USaxXind`, `USaxAbs`, `USbcImm`, `UDcpZpg`, `UDcpZpgX`, `UDcpAbs`.
#[verifier::spinoff_prover]
#[verifier::rlimit(60)]
proof fn lemma_exec_keeps_u_31(m: NesModel, op: Opcode)
    requires
        u_set(m.cpu.p.bits),
        op == Opcode::USaxXind || op == Opcode::USaxAbs || op == Opcode::USbcImm || op == Opcode::UDcpZpg || op == Opcode::UDcpZpgX || op == Opcode::UDcpAbs,
    ensures
        u_set(exec_spec(m, op).0.cpu.p.bits),
{
    broadcast use lemma_with_bits_u, lemma_or_u, lemma_tick_keeps_p, lemma_ticks_keep_p, lemma_read_keeps_cpu, lemma_write_keeps_p;
    reveal(exec_spec);
}

/// The unused flag survives the instructions `UDcpAbsX`, `UDcpAbsY`, `UDcpXind`, `UDcpIndY`, `UIsbZpg`, `UIsbZpgX`.
#[verifier::spinoff_prover]
#[verifier::rlimit(60)]
proof fn lemma_exec_keeps_u_32(m: NesModel, op: Opcode)
    requires
        u_set(m.cpu.p.bits),
        op == Opcode::UDcpAbsX || op == Opcode::UDcpAbsY || op == Opcode::UDcpXind || op == Opcode::UDcpIndY || op == Opcode::UIsbZpg || op == Opcode::UIsbZpgX,
    ensures
        u_set(exec_spec(m, op).0.cpu.p.bits),
{
    broadcast use lemma_with_bits_u, lemma_or_u, lemma_tick_keeps_p, lemma_ticks_keep_p, lemma_read_keeps_cpu, lemma_write_keeps_p;
    reveal(exec_spec);
}

/// The unused flag survives the instructions `UIsbAbs`, `UIsbAbsX`, `UIsbAbsY`, `UIsbXind`, `UIsbIndY`, `USloZpg`.
#[verifier::spinoff_prover]
#[verifier::rlimit(60)]
proof fn lemma_exec_keeps_u_33(m: NesModel, op: Opcode)
    requires
        u_set(m.cpu.p.bits),
        op == Opcode::UIsbAbs || op == Opcode::UIsbAbsX || op == Opcode::UIsbAbsY || op == Opcode::UIsbXind || op == Opcode::UIsbIndY || op == Opcode::USloZpg,
    ensures
        u_set(exec_spec(m, op).0.cpu.p.bits),
{
    broadcast use lemma_with_bits_u, lemma_or_u, lemma_tick_keeps_p, lemma_ticks_keep_p, lemma_read_keeps_cpu, lemma_write_keeps_p;
    reveal(exec_spec);
}

/// The unused flag survives the instructions `USloZpgX`, `USloAbs`, `USloAbsX`, `USloAbsY`, `USloXind`, `USloIndY`.
#[verifier::spinoff_prover]
#[verifier::rlimit(60)]
proof fn lemma_exec_keeps_u_34(m: NesModel, op: Opcode)
    requires
        u_set(m.cpu.p.bits),
        op == Opcode::USloZpgX || op == Opcode::USloAbs || op == Opcode::USloAbsX || op == Opcode::USloAbsY || op == Opcode::USloXind || op == Opcode::USloIndY,
    ensures
        u_set(exec_spec(m, op).0.cpu.p.bits),
{
    broadcast use lemma_with_bits_u, lemma_or_u, lemma_tick_keeps_p, lemma_ticks_keep_p, lemma_read_keeps_cpu, lemma_write_keeps_p;
    reveal(exec_spec);
}

/// The unused flag survives the instructions `URlaZpg`, `URlaZpgX`, `URlaAbs`, `URlaAbsX`, `URlaAbsY`, `URlaXind`.
#[verifier::spinoff_prover]
#[verifier::rlimit(60)]
proof fn lemma_exec_keeps_u_35(m: NesModel, op: Opcode)
    requires
        u_set(m.cpu.p.bits),
        op == Opcode::URlaZpg || op == Opcode::URlaZpgX || op == Opcode::URlaAbs || op == Opcode::URlaAbsX || op == Opcode::URlaAbsY || op == Opcode::URlaXind,
    ensures
        u_set(exec_spec(m, op).0.cpu.p.bits),
{
    broadcast use lemma_with_bits_u, lemma_or_u, lemma_tick_keeps_p, lemma_ticks_keep_p, lemma_read_keeps_cpu, lemma_write_keeps_p;
    reveal(exec_spec);
}

/// The unused flag survives the instructions `URlaIndY`, `USreZpg`, `USreZpgX`, `USreAbs`, `USreAbsX`, `USreAbsY`.
#[verifier::spinoff_prover]
#[verifier::rlimit(60)]
proof fn lemma_exec_keeps_u_36(m: NesModel, op: Opcode)
    requires
        u_set(m.cpu.p.bits),
        op == Opcode::URlaIndY || op == Opcode::USreZpg || op == Opcode::USreZpgX || op == Opcode::USreAbs || op == Opcode::USreAbsX || op == Opcode::USreAbsY,
    ensures
        u_set(exec_spec(m, op).0.cpu.p.bits),
{
    broadcast use lemma_with_bits_u, lemma_or_u, lemma_tick_keeps_p, lemma_ticks_keep_p, lemma_read_keeps_cpu, lemma_write_keeps_p;
    reveal(exec_spec);
}

/// The unused flag survives the instructions `USreXind`, `USreIndY`, `URraZpg`, `URraZpgX`, `URraAbs`, `URraAbsX`.
#[verifier::spinoff_prover]
#[verifier::rlimit(60)]
proof fn lemma_exec_keeps_u_37(m: NesModel, op: Opcode)
    requires
        u_set(m.cpu.p.bits),
        op == Opcode::USreXind || op == Opcode::USreIndY || op == Opcode::URraZpg || op == Opcode::URraZpgX || op == Opcode::URraAbs || op == Opcode::URraAbsX,
    ensures
        u_set(exec_spec(m, op).0.cpu.p.bits),
{
    broadcast use lemma_with_bits_u, lemma_or_u, lemma_tick_keeps_p, lemma_ticks_keep_p, lemma_read_keeps_cpu, lemma_write_keeps_p;
    reveal(exec_spec);
}

/// The unused flag survives the instructions `URraAbsY`, `URraXind`, `URraIndY`.
#[verifier::spinoff_prover]
#[verifier::rlimit(60)]
proof fn lemma_exec_keeps_u_38(m: NesModel, op: Opcode)
    requires
        u_set(m.cpu.p.bits),
        op == Opcode::URraAbsY || op == Opcode::URraXind || op == Opcode::URraIndY,
    ensures
        u_set(exec_spec(m, op).0.cpu.p.bits),
{
    broadcast use lemma_with_bits_u, lemma_or_u, lemma_tick_keeps_p, lemma_ticks_keep_p, lemma_read_keeps_cpu, lemma_write_keeps_p;
    reveal(exec_spec);
}

/// Every instruction keeps the unused flag set.
pub proof fn lemma_exec_keeps_u(m: NesModel, op: Opcode)
    requires
        u_set(m.cpu.p.bits),
    ensures
        u_set(exec_spec(m, op).0.cpu.p.bits),
{
    match op {
        Opcode::BrkImpl | Opcode::BplRel | Opcode::JsrAbs | Opcode::BmiRel | Opcode::RtiImpl | Opcode::BvcRel => lemma_exec_keeps_u_0(m, op),
        Opcode::RtsImpl | Opcode::BvsRel | Opcode::BccRel | Opcode::LdyImm | Opcode::BcsRel | Opcode::CpyImm => lemma_exec_keeps_u_1(m, op),
        Opcode::BneRel | Opcode::CpxImm | Opcode::BeqRel | Opcode::OraXind | Opcode::AndXind | Opcode::EorXind => lemma_exec_keeps_u_2(m, op),
        Opcode::AdcXind | Opcode::StaXind | Opcode::LdaXind | Opcode::CmpXind | Opcode::SbcXind | Opcode::OraIndY => lemma_exec_keeps_u_3(m, op),
        Opcode::AndIndY | Opcode::EorIndY | Opcode::AdcIndY | Opcode::StaIndY | Opcode::LdaIndY | Opcode::CmpIndY => lemma_exec_keeps_u_4(m, op),
        Opcode::SbcIndY | Opcode::LdxImm | Opcode::BitZpg | Opcode::StyZpg | Opcode::StyZpgX | Opcode::LdyZpg => lemma_exec_keeps_u_5(m, op),
        Opcode::LdyZpgX | Opcode::CpyZpg | Opcode::CpxZpg | Opcode::OraZpg | Opcode::AndZpg | Opcode::EorZpg => lemma_exec_keeps_u_6(m, op),
        Opcode::AdcZpg | Opcode::StaZpg | Opcode::LdaZpg | Opcode::CmpZpg | Opcode::SbcZpg | Opcode::OraZpgX => lemma_exec_keeps_u_7(m, op),
        Opcode::AndZpgX | Opcode::EorZpgX | Opcode::AdcZpgX | Opcode::StaZpgX | Opcode::LdaZpgX | Opcode::CmpZpgX => lemma_exec_keeps_u_8(m, op),
        Opcode::SbcZpgX | Opcode::AslZpg | Opcode::RolZpg | Opcode::LsrZpg | Opcode::RorZpg | Opcode::StxZpg => lemma_exec_keeps_u_9(m, op),
        Opcode::LdxZpg | Opcode::DecZpg | Opcode::IncZpg | Opcode::AslZpgX | Opcode::RolZpgX | Opcode::LsrZpgX => lemma_exec_keeps_u_10(m, op),
        Opcode::RorZpgX | Opcode::StxZpgY | Opcode::LdxZpgY | Opcode::DecZpgX | Opcode::IncZpgX | Opcode::PhpImpl => lemma_exec_keeps_u_11(m, op),
        Opcode::ClcImpl | Opcode::PlpImpl | Opcode::SecImpl | Opcode::PhaImpl | Opcode::CliImpl | Opcode::PlaImpl => lemma_exec_keeps_u_12(m, op),
        Opcode::SeiImpl | Opcode::DeyImpl | Opcode::TyaImpl | Opcode::TayImpl | Opcode::ClvImpl | Opcode::InyImpl => lemma_exec_keeps_u_13(m, op),
        Opcode::CldImpl | Opcode::InxImpl | Opcode::SedImpl | Opcode::OraImm | Opcode::AndImm | Opcode::EorImm => lemma_exec_keeps_u_14(m, op),
        Opcode::AdcImm | Opcode::LdaImm | Opcode::CmpImm | Opcode::SbcImm | Opcode::OraAbsY | Opcode::AndAbsY => lemma_exec_keeps_u_15(m, op),
        Opcode::EorAbsY | Opcode::AdcAbsY | Opcode::StaAbsY | Opcode::LdaAbsY | Opcode::CmpAbsY | Opcode::SbcAbsY => lemma_exec_keeps_u_16(m, op),
        Opcode::AslA | Opcode::RolA | Opcode::LsrA | Opcode::RorA | Opcode::TxaImpl | Opcode::TxsImpl => lemma_exec_keeps_u_17(m, op),
        Opcode::TaxImpl | Opcode::TsxImpl | Opcode::DexImpl | Opcode::NopImpl | Opcode::BitAbs | Opcode::JmpAbs => lemma_exec_keeps_u_18(m, op),
        Opcode::JmpInd | Opcode::StyAbs | Opcode::LdyAbs | Opcode::LdyAbsX | Opcode::CpyAbs | Opcode::CpxAbs => lemma_exec_keeps_u_19(m, op),
        Opcode::OraAbs | Opcode::AndAbs | Opcode::EorAbs | Opcode::AdcAbs | Opcode::StaAbs | Opcode::LdaAbs => lemma_exec_keeps_u_20(m, op),
        Opcode::CmpAbs | Opcode::SbcAbs | Opcode::OraAbsX | Opcode::AndAbsX | Opcode::EorAbsX | Opcode::AdcAbsX => lemma_exec_keeps_u_21(m, op),
        Opcode::StaAbsX | Opcode::LdaAbsX | Opcode::CmpAbsX | Opcode::SbcAbsX | Opcode::AslAbs | Opcode::RolAbs => lemma_exec_keeps_u_22(m, op),
        Opcode::LsrAbs | Opcode::RorAbs | Opcode::StxAbs | Opcode::LdxAbs | Opcode::DecAbs | Opcode::IncAbs => lemma_exec_keeps_u_23(m, op),
        Opcode::AslAbsX | Opcode::RolAbsX | Opcode::LsrAbsX | Opcode::RorAbsX | Opcode::LdxAbsY | Opcode::DecAbsX => lemma_exec_keeps_u_24(m, op),
        Opcode::IncAbsX | Opcode::UNopZpg1 | Opcode::UNopZpg2 | Opcode::UNopZpg3 | Opcode::UNopZpgX1 | Opcode::UNopZpgX2 => lemma_exec_keeps_u_25(m, op),
        Opcode::UNopZpgX3 | Opcode::UNopZpgX4 | Opcode::UNopZpgX5 | Opcode::UNopZpgX6 | Opcode::UNopImm1 | Opcode::UNopImm2 => lemma_exec_keeps_u_26(m, op),
        Opcode::UNopImm3 | Opcode::UNopImm4 | Opcode::UNopImm5 | Opcode::UNopAbs | Opcode::UNopAbsX1 | Opcode::UNopAbsX2 => lemma_exec_keeps_u_27(m, op),
        Opcode::UNopAbsX3 | Opcode::UNopAbsX4 | Opcode::UNopAbsX5 | Opcode::UNopAbsX6 | Opcode::UNopImpl1 | Opcode::UNopImpl2 => lemma_exec_keeps_u_28(m, op),
        Opcode::UNopImpl3 | Opcode::UNopImpl4 | Opcode::UNopImpl5 | Opcode::UNopImpl6 | Opcode::ULaxZpg | Opcode::ULaxZpgY => lemma_exec_keeps_u_29(m, op),
        Opcode::ULaxAbs | Opcode::ULaxAbsY | Opcode::ULaxXind | Opcode::ULaxIndY | Opcode::USaxZpg | Opcode::USaxZpgY => lemma_exec_keeps_u_30(m, op),
        Opcode::USaxXind | Opcode::USaxAbs | Opcode::USbcImm | Opcode::UDcpZpg | Opcode::UDcpZpgX | Opcode::UDcpAbs => lemma_exec_keeps_u_31(m, op),
        Opcode::UDcpAbsX | Opcode::UDcpAbsY | Opcode::UDcpXind | Opcode::UDcpIndY | Opcode::UIsbZpg | Opcode::UIsbZpgX => lemma_exec_keeps_u_32(m, op),
        Opcode::UIsbAbs | Opcode::UIsbAbsX | Opcode::UIsbAbsY | Opcode::UIsbXind | Opcode::UIsbIndY | Opcode::USloZpg => lemma_exec_keeps_u_33(m, op),
        Opcode::USloZpgX | Opcode::USloAbs | Opcode::USloAbsX | Opcode::USloAbsY | Opcode::USloXind | Opcode::USloIndY => lemma_exec_keeps_u_34(m, op),
        Opcode::URlaZpg | Opcode::URlaZpgX | Opcode::URlaAbs | Opcode::URlaAbsX | Opcode::URlaAbsY | Opcode::URlaXind => lemma_exec_keeps_u_35(m, op),
        Opcode::URlaIndY | Opcode::USreZpg | Opcode::USreZpgX | Opcode::USreAbs | Opcode::USreAbsX | Opcode::USreAbsY => lemma_exec_keeps_u_36(m, op),
        Opcode::USreXind | Opcode::USreIndY | Opcode::URraZpg | Opcode::URraZpgX | Opcode::URraAbs | Opcode::URraAbsX => lemma_exec_keeps_u_37(m, op),
        Opcode::URraAbsY | Opcode::URraXind | Opcode::URraIndY => lemma_exec_keeps_u_38(m, op),
    }
}

/// The unused flag of the status register is set at power-up and stays set:
/// every CPU step (the DMA stall, an NMI, the instruction, or a fault for an
/// unknown opcode) keeps it.
pub proof fn lemma_u_always_set(m: NesModel)
    requires
        u_set(m.cpu.p.bits),
    ensures
        u_set(cpu_step_spec(m).0.cpu.p.bits),
        u_set(0x34),
{
    broadcast use lemma_with_bits_u, lemma_or_u, lemma_tick_keeps_p, lemma_ticks_keep_p, lemma_read_keeps_cpu, lemma_write_keeps_p;
    assert(0x34u8 & 0x20 != 0) by (bit_vector);
    let m0 = dma_spec(m);
    let m1 = nmi_spec(m0);
    let (m2, b) = bus_read(m1, m1.cpu.pc);
    assert(u_set(m1.cpu.p.bits));
    match crate::opcode::decode_opcode(b) {
        Some(op) => {
            lemma_exec_keeps_u(m2, op);
        },
        None => {},
    }
}

} // verus!
