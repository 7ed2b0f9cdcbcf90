//! How many CPU cycles each instruction takes: counted by the PPU, which
//! runs three cycles for every CPU cycle.
use vstd::prelude::*;
use crate::addressings::{ticks, indy_guess, indexed, word, branch_target};
use crate::nes::{NesModel, bus_read, bus_write, oam_dma_steps};
use crate::ppu::{ppu_read_reg, ppu_write_reg};
use crate::render::{ppu_dot, render_phase, render_pixel, shift_phase, units_phase, nt_phase, sprite_phase, advance_phase, tick_spec};
use crate::trace::ppu_dots;
use crate::cpu::{Cpu, cpu_step_spec, dma_spec, nmi_spec, next_opcode};
use crate::dispatch::exec_spec;
use crate::flag_laws::{lemma_tick_keeps_p, lemma_read_keeps_cpu};
use crate::opcode::Opcode;
use crate::addressings::{AddressingResult, OpArgModel};
use crate::operations::{BranchOperation, BPL, BMI, BVC, BVS, BCC, BCS, BNE, BEQ};

verus! {

/// PPU cycles since power-up, as the frame, line and dot give them.
pub open spec fn clock(m: NesModel) -> int {
    ppu_dots(m.ppu.frame, m.ppu.scanline, m.ppu.dot)
}

/// The PPU position is in range and the frame counter is below its top.
pub open spec fn clock_ok(m: NesModel) -> bool {
    &&& m.ppu.dot < 341
    &&& m.ppu.scanline < 262
    &&& m.ppu.frame < u32::MAX
}

/// The PPU position is in range.
pub open spec fn position_ok(m: NesModel) -> bool {
    &&& m.ppu.dot < 341
    &&& m.ppu.scanline < 262
}

/// Whether two addresses lie in different 256-byte pages.
pub open spec fn page_crossed(a: u16, b: u16) -> bool {
    a / 256 != b / 256
}

/// A PPU cycle moves the clock on by one.
proof fn lemma_dot_clock(m: NesModel)
    requires
        clock_ok(m),
    ensures
        clock(ppu_dot(m)) == clock(m) + 1,
        position_ok(ppu_dot(m)),
        ppu_dot(m).ppu.frame <= m.ppu.frame + 1,
{
    reveal(render_phase);
    reveal(render_pixel);
    reveal(units_phase);
    reveal(nt_phase);
    reveal(sprite_phase);
    let m1 = render_phase(m);
    let m2 = shift_phase(m1);
    let m3 = units_phase(m2);
    let m4 = nt_phase(m3);
    let m5 = sprite_phase(m4);
    assert(m5.ppu.dot == m.ppu.dot && m5.ppu.scanline == m.ppu.scanline && m5.ppu.frame == m.ppu.frame);
}

/// A CPU cycle moves the clock on by three.
pub broadcast proof fn lemma_tick_clock(m: NesModel)
    requires
        position_ok(m),
        m.ppu.frame + 3 < u32::MAX,
    ensures
        #![trigger tick_spec(m)]
        clock(tick_spec(m)) == clock(m) + 3,
        position_ok(tick_spec(m)),
        tick_spec(m).ppu.frame <= m.ppu.frame + 3,
{
    reveal(tick_spec);
    lemma_dot_clock(m);
    lemma_dot_clock(ppu_dot(m));
    lemma_dot_clock(ppu_dot(ppu_dot(m)));
}

/// Cycles move the clock on by three each.
pub broadcast proof fn lemma_ticks_clock(m: NesModel, n: nat)
    requires
        position_ok(m),
        m.ppu.frame + 3 * n < u32::MAX,
    ensures
        #![trigger ticks(m, n)]
        clock(ticks(m, n)) == clock(m) + 3 * n,
        position_ok(ticks(m, n)),
        ticks(m, n).ppu.frame <= m.ppu.frame + 3 * n,
    decreases n,
{
    if n > 0 {
        lemma_ticks_clock(m, (n - 1) as nat);
        lemma_tick_clock(ticks(m, (n - 1) as nat));
    }
}

/// A CPU read leaves the PPU position alone.
pub broadcast proof fn lemma_read_clock(m: NesModel, a: u16)
    ensures
        #![trigger bus_read(m, a)]
        bus_read(m, a).0.ppu.dot == m.ppu.dot,
        bus_read(m, a).0.ppu.scanline == m.ppu.scanline,
        bus_read(m, a).0.ppu.frame == m.ppu.frame,
{
    reveal(ppu_read_reg);
}

/// OAM DMA reads leave the PPU position alone.
proof fn lemma_dma_clock(m: NesModel, page: u8, start: u8, oam: Seq<u8>, i: nat)
    ensures
        oam_dma_steps(m, page, start, oam, i).0.ppu.dot == m.ppu.dot,
        oam_dma_steps(m, page, start, oam, i).0.ppu.scanline == m.ppu.scanline,
        oam_dma_steps(m, page, start, oam, i).0.ppu.frame == m.ppu.frame,
    decreases i,
{
    reveal(ppu_read_reg);
    if i > 0 {
        lemma_dma_clock(m, page, start, oam, (i - 1) as nat);
    }
}

/// A CPU write leaves the PPU position alone.
pub broadcast proof fn lemma_write_clock(m: NesModel, a: u16, v: u8)
    ensures
        #![trigger bus_write(m, a, v)]
        bus_write(m, a, v).ppu.dot == m.ppu.dot,
        bus_write(m, a, v).ppu.scanline == m.ppu.scanline,
        bus_write(m, a, v).ppu.frame == m.ppu.frame,
{
    reveal(ppu_write_reg);
    lemma_dma_clock(m, v, m.ppu.oamaddr, m.ppu.oam, 256);
}

/// The cycles an instruction takes when no page is crossed and no branch
/// is taken.
pub open spec fn base_cycles(op: Opcode) -> nat {
    match op {
        Opcode::LdaImm | Opcode::LdyImm | Opcode::LdxImm | Opcode::OraImm | Opcode::AndImm | Opcode::EorImm |
        Opcode::AdcImm | Opcode::SbcImm | Opcode::AslA | Opcode::RolA | Opcode::LsrA | Opcode::RorA |
        Opcode::CmpImm | Opcode::CpyImm | Opcode::CpxImm | Opcode::TaxImpl | Opcode::TxaImpl |
        Opcode::TxsImpl | Opcode::TsxImpl | Opcode::TayImpl | Opcode::TyaImpl | Opcode::ClcImpl |
        Opcode::SecImpl | Opcode::CliImpl | Opcode::SeiImpl | Opcode::ClvImpl | Opcode::CldImpl |
        Opcode::SedImpl | Opcode::DeyImpl | Opcode::InyImpl | Opcode::DexImpl | Opcode::InxImpl |
        Opcode::NopImpl | Opcode::BplRel | Opcode::BmiRel | Opcode::BvcRel | Opcode::BvsRel |
        Opcode::BccRel | Opcode::BcsRel | Opcode::BneRel | Opcode::BeqRel | Opcode::UNopImm1 |
        Opcode::UNopImm2 | Opcode::UNopImm3 | Opcode::UNopImm4 | Opcode::UNopImm5 | Opcode::UNopImpl1 |
        Opcode::UNopImpl2 | Opcode::UNopImpl3 | Opcode::UNopImpl4 | Opcode::UNopImpl5 | Opcode::UNopImpl6 |
        Opcode::USbcImm => 2,
        Opcode::LdaZpg | Opcode::LdyZpg | Opcode::LdxZpg | Opcode::StaZpg | Opcode::StyZpg | Opcode::StxZpg |
        Opcode::OraZpg | Opcode::AndZpg | Opcode::EorZpg | Opcode::AdcZpg | Opcode::SbcZpg | Opcode::CmpZpg |
        Opcode::CpyZpg | Opcode::CpxZpg | Opcode::PhpImpl | Opcode::PhaImpl | Opcode::JmpAbs |
        Opcode::BitZpg | Opcode::UNopZpg1 | Opcode::UNopZpg2 | Opcode::UNopZpg3 | Opcode::ULaxZpg |
        Opcode::USaxZpg => 3,
        Opcode::LdaAbs | Opcode::LdaZpgX | Opcode::LdaAbsY | Opcode::LdaAbsX | Opcode::LdyAbs |
        Opcode::LdyZpgX | Opcode::LdyAbsX | Opcode::LdxAbs | Opcode::LdxZpgY | Opcode::LdxAbsY |
        Opcode::StaAbs | Opcode::StaZpgX | Opcode::StyAbs | Opcode::StyZpgX | Opcode::StxAbs |
        Opcode::StxZpgY | Opcode::OraAbs | Opcode::OraZpgX | Opcode::OraAbsY | Opcode::OraAbsX |
        Opcode::AndAbs | Opcode::AndZpgX | Opcode::AndAbsY | Opcode::AndAbsX | Opcode::EorAbs |
        Opcode::EorZpgX | Opcode::EorAbsY | Opcode::EorAbsX | Opcode::AdcAbs | Opcode::AdcZpgX |
        Opcode::AdcAbsY | Opcode::AdcAbsX | Opcode::SbcAbs | Opcode::SbcZpgX | Opcode::SbcAbsY |
        Opcode::SbcAbsX | Opcode::CmpAbs | Opcode::CmpZpgX | Opcode::CmpAbsY | Opcode::CmpAbsX |
        Opcode::CpyAbs | Opcode::CpxAbs | Opcode::PlpImpl | Opcode::PlaImpl | Opcode::BitAbs |
        Opcode::UNopZpgX1 | Opcode::UNopZpgX2 | Opcode::UNopZpgX3 | Opcode::UNopZpgX4 | Opcode::UNopZpgX5 |
        Opcode::UNopZpgX6 | Opcode::UNopAbs | Opcode::UNopAbsX1 | Opcode::UNopAbsX2 | Opcode::UNopAbsX3 |
        Opcode::UNopAbsX4 | Opcode::UNopAbsX5 | Opcode::UNopAbsX6 | Opcode::ULaxZpgY | Opcode::ULaxAbs |
        Opcode::ULaxAbsY | Opcode::USaxZpgY | Opcode::USaxAbs => 4,
        Opcode::LdaIndY | Opcode::StaAbsY | Opcode::StaAbsX | Opcode::OraIndY | Opcode::AndIndY |
        Opcode::EorIndY | Opcode::AdcIndY | Opcode::SbcIndY | Opcode::AslZpg | Opcode::RolZpg |
        Opcode::LsrZpg | Opcode::RorZpg | Opcode::CmpIndY | Opcode::DecZpg | Opcode::IncZpg |
        Opcode::JmpInd | Opcode::ULaxIndY | Opcode::UDcpZpg | Opcode::UIsbZpg | Opcode::USloZpg |
        Opcode::URlaZpg | Opcode::USreZpg | Opcode::URraZpg => 5,
        Opcode::LdaXind | Opcode::StaXind | Opcode::StaIndY | Opcode::OraXind | Opcode::AndXind |
        Opcode::EorXind | Opcode::AdcXind | Opcode::SbcXind | Opcode::AslAbs | Opcode::AslZpgX |
        Opcode::RolAbs | Opcode::RolZpgX | Opcode::LsrAbs | Opcode::LsrZpgX | Opcode::RorAbs |
        Opcode::RorZpgX | Opcode::CmpXind | Opcode::DecAbs | Opcode::DecZpgX | Opcode::IncAbs |
        Opcode::IncZpgX | Opcode::RtiImpl | Opcode::RtsImpl | Opcode::JsrAbs | Opcode::ULaxXind |
        Opcode::USaxXind | Opcode::UDcpZpgX | Opcode::UDcpAbs | Opcode::UIsbZpgX | Opcode::UIsbAbs |
        Opcode::USloZpgX | Opcode::USloAbs | Opcode::URlaZpgX | Opcode::URlaAbs | Opcode::USreZpgX |
        Opcode::USreAbs | Opcode::URraZpgX | Opcode::URraAbs => 6,
        Opcode::AslAbsX | Opcode::RolAbsX | Opcode::LsrAbsX | Opcode::RorAbsX | Opcode::DecAbsX |
        Opcode::IncAbsX | Opcode::BrkImpl | Opcode::UDcpAbsX | Opcode::UDcpAbsY | Opcode::UIsbAbsX |
        Opcode::UIsbAbsY | Opcode::USloAbsX | Opcode::USloAbsY | Opcode::URlaAbsX | Opcode::URlaAbsY |
        Opcode::USreAbsX | Opcode::USreAbsY | Opcode::URraAbsX | Opcode::URraAbsY => 7,
        Opcode::UDcpXind | Opcode::UDcpIndY | Opcode::UIsbXind | Opcode::UIsbIndY | Opcode::USloXind |
        Opcode::USloIndY | Opcode::URlaXind | Opcode::URlaIndY | Opcode::USreXind | Opcode::USreIndY |
        Opcode::URraXind | Opcode::URraIndY => 8,
    }
}

/// Whether an instruction reads through an indexed address and takes a
/// cycle more when the indexing crosses a page.
pub open spec fn reads_across_pages(op: Opcode) -> bool {
    match op {
        Opcode::LdaIndY | Opcode::LdaAbsY | Opcode::LdaAbsX | Opcode::LdyAbsX | Opcode::LdxAbsY |
        Opcode::OraIndY | Opcode::OraAbsY | Opcode::OraAbsX | Opcode::AndIndY | Opcode::AndAbsY |
        Opcode::AndAbsX | Opcode::EorIndY | Opcode::EorAbsY | Opcode::EorAbsX | Opcode::AdcIndY |
        Opcode::AdcAbsY | Opcode::AdcAbsX | Opcode::SbcIndY | Opcode::SbcAbsY | Opcode::SbcAbsX |
        Opcode::CmpIndY | Opcode::CmpAbsY | Opcode::CmpAbsX | Opcode::UNopAbsX1 | Opcode::UNopAbsX2 |
        Opcode::UNopAbsX3 | Opcode::UNopAbsX4 | Opcode::UNopAbsX5 | Opcode::UNopAbsX6 | Opcode::ULaxAbsY |
        Opcode::ULaxIndY => true,
        _ => false,
    }
}

/// Whether `op` is a branch that `cpu`'s flags make taken.
pub open spec fn branch_taken(op: Opcode, cpu: Cpu) -> bool {
    match op {
        Opcode::BplRel => BPL.taken(cpu),
        Opcode::BmiRel => BMI.taken(cpu),
        Opcode::BvcRel => BVC.taken(cpu),
        Opcode::BvsRel => BVS.taken(cpu),
        Opcode::BccRel => BCC.taken(cpu),
        Opcode::BcsRel => BCS.taken(cpu),
        Opcode::BneRel => BNE.taken(cpu),
        Opcode::BeqRel => BEQ.taken(cpu),
        _ => false,
    }
}

/// Whether the operand an instruction reports crossed a page: the indexed
/// address against the base address it was formed from.
pub open spec fn operand_crossed(arg: OpArgModel) -> bool {
    match arg.value {
        AddressingResult::AbsZpgInfo(eff, _) => page_crossed(word(arg.args[0], arg.args[1]), eff),
        AddressingResult::IndInfo(_, tmp, eff, _) => page_crossed(tmp, eff),
        _ => false,
    }
}

/// Whether a branch at `pc` to the target it reports crosses a page (from
/// the address after the branch).
pub open spec fn branch_crossed(pc: u16, arg: OpArgModel) -> bool {
    match arg.value {
        AddressingResult::Address(t) => page_crossed(pc.wrapping_add(2), t),
        _ => false,
    }
}

/// The cycles of instruction `op` run on `m`, which reported operand `arg`:
/// its base count, one more for an indexed read across a page, and for a
/// taken branch one more, or two when it crosses a page.
pub open spec fn op_cycles(op: Opcode, m: NesModel, arg: OpArgModel) -> nat {
    base_cycles(op) + (if reads_across_pages(op) && operand_crossed(arg) { 1nat } else { 0nat }) + (if branch_taken(
        op,
        m.cpu,
    ) {
        if branch_crossed(m.cpu.pc, arg) { 2nat } else { 1nat }
    } else {
        0nat
    })
}

/// Forming an indexed address adds a cycle exactly when it crosses a page.
pub broadcast proof fn lemma_guess_page(lo: u8, hi: u8, i: u8)
    ensures
        #[trigger] indy_guess(lo, hi, i) == indexed(word(lo, hi), i) <==> !page_crossed(word(lo, hi), indexed(word(lo, hi), i)),
{
    let w = word(lo, hi);
    let e = indexed(w, i);
    let g = indy_guess(lo, hi, i);
    assert((g == e) == (w / 256 == e / 256)) by (bit_vector)
        requires
            w == (lo as u16) | ((hi as u16) << 8u16),
            e == (w as u32 + i as u32) as u16,
            g == (((lo as u16 + i as u16) as u16) & 0x00FFu16) | ((hi as u16) << 8u16),
    ;
}

/// A branch test on bit 8 is a page test, branches reaching at most 128 bytes.
pub broadcast proof fn lemma_branch_page(pc: u16, offset: u8)
    ensures
        #![trigger branch_target(pc, offset)]
        ((pc ^ branch_target(pc, offset)) & 0x0100u16 != 0) == page_crossed(pc, branch_target(pc, offset)),
{
    let t = branch_target(pc, offset);
    assert(((pc ^ t) & 0x0100u16 != 0) == (pc / 256 != t / 256)) by (bit_vector)
        requires
            t == ((pc + (if offset >= 128 { offset - 256 } else { offset as int }) + 65536) % 65536) as u16,
    ;
}

/// The cycle count of `BrkImpl`, `BplRel`, `JsrAbs`, `BmiRel`, `RtiImpl`, `BvcRel`.
#[verifier::spinoff_prover]
#[verifier::rlimit(60)]
proof fn lemma_cycles_0(m: NesModel, op: Opcode)
    requires
        position_ok(m),
        m.ppu.frame + 30 < u32::MAX,
        op == Opcode::BrkImpl || op == Opcode::BplRel || op == Opcode::JsrAbs || op == Opcode::BmiRel || op == Opcode::RtiImpl || op == Opcode::BvcRel,
    ensures
        clock(exec_spec(m, op).0) == clock(m) + 3 * op_cycles(op, m, exec_spec(m, op).1),
{
    broadcast use lemma_tick_clock, lemma_ticks_clock, lemma_read_clock, lemma_write_clock, lemma_guess_page, lemma_branch_page, lemma_tick_keeps_p, lemma_read_keeps_cpu;
    reveal(exec_spec);
}

/// The cycle count of `RtsImpl`, `BvsRel`, `BccRel`, `LdyImm`, `BcsRel`, `CpyImm`.
#[verifier::spinoff_prover]
#[verifier::rlimit(60)]
proof fn lemma_cycles_1(m: NesModel, op: Opcode)
    requires
        position_ok(m),
        m.ppu.frame + 30 < u32::MAX,
        op == Opcode::RtsImpl || op == Opcode::BvsRel || op == Opcode::BccRel || op == Opcode::LdyImm || op == Opcode::BcsRel || op == Opcode::CpyImm,
    ensures
        clock(exec_spec(m, op).0) == clock(m) + 3 * op_cycles(op, m, exec_spec(m, op).1),
{
    broadcast use lemma_tick_clock, lemma_ticks_clock, lemma_read_clock, lemma_write_clock, lemma_guess_page, lemma_branch_page, lemma_tick_keeps_p, lemma_read_keeps_cpu;
    reveal(exec_spec);
}

/// The cycle count of `BneRel`, `CpxImm`, `BeqRel`, `OraXind`, `AndXind`, `EorXind`.
#[verifier::spinoff_prover]
#[verifier::rlimit(60)]
proof fn lemma_cycles_2(m: NesModel, op: Opcode)
    requires
        position_ok(m),
        m.ppu.frame + 30 < u32::MAX,
        op == Opcode::BneRel || op == Opcode::CpxImm || op == Opcode::BeqRel || op == Opcode::OraXind || op == Opcode::AndXind || op == Opcode::EorXind,
    ensures
        clock(exec_spec(m, op).0) == clock(m) + 3 * op_cycles(op, m, exec_spec(m, op).1),
{
    broadcast use lemma_tick_clock, lemma_ticks_clock, lemma_read_clock, lemma_write_clock, lemma_guess_page, lemma_branch_page, lemma_tick_keeps_p, lemma_read_keeps_cpu;
    reveal(exec_spec);
}

/// The cycle count of `AdcXind`, `StaXind`, `LdaXind`, `CmpXind`, `SbcXind`, `OraIndY`.
#[verifier::spinoff_prover]
#[verifier::rlimit(60)]
proof fn lemma_cycles_3(m: NesModel, op: Opcode)
    requires
        position_ok(m),
        m.ppu.frame + 30 < u32::MAX,
        op == Opcode::AdcXind || op == Opcode::StaXind || op == Opcode::LdaXind || op == Opcode::CmpXind || op == Opcode::SbcXind || op == Opcode::OraIndY,
    ensures
        clock(exec_spec(m, op).0) == clock(m) + 3 * op_cycles(op, m, exec_spec(m, op).1),
{
    broadcast use lemma_tick_clock, lemma_ticks_clock, lemma_read_clock, lemma_write_clock, lemma_guess_page, lemma_branch_page, lemma_tick_keeps_p, lemma_read_keeps_cpu;
    reveal(exec_spec);
}

/// The cycle count of `AndIndY`, `EorIndY`, `AdcIndY`, `StaIndY`, `LdaIndY`, `CmpIndY`.
#[verifier::spinoff_prover]
#[verifier::rlimit(60)]
proof fn lemma_cycles_4(m: NesModel, op: Opcode)
    requires
        position_ok(m),
        m.ppu.frame + 30 < u32::MAX,
        op == Opcode::AndIndY || op == Opcode::EorIndY || op == Opcode::AdcIndY || op == Opcode::StaIndY || op == Opcode::LdaIndY || op == Opcode::CmpIndY,
    ensures
        clock(exec_spec(m, op).0) == clock(m) + 3 * op_cycles(op, m, exec_spec(m, op).1),
{
    broadcast use lemma_tick_clock, lemma_ticks_clock, lemma_read_clock, lemma_write_clock, lemma_guess_page, lemma_branch_page, lemma_tick_keeps_p, lemma_read_keeps_cpu;
    reveal(exec_spec);
}

/// The cycle count of `SbcIndY`, `LdxImm`, `BitZpg`, `StyZpg`, `StyZpgX`, `LdyZpg`.
#[verifier::spinoff_prover]
#[verifier::rlimit(60)]
proof fn lemma_cycles_5(m: NesModel, op: Opcode)
    requires
        position_ok(m),
        m.ppu.frame + 30 < u32::MAX,
        op == Opcode::SbcIndY || op == Opcode::LdxImm || op == Opcode::BitZpg || op == Opcode::StyZpg || op == Opcode::StyZpgX || op == Opcode::LdyZpg,
    ensures
        clock(exec_spec(m, op).0) == clock(m) + 3 * op_cycles(op, m, exec_spec(m, op).1),
{
    broadcast use lemma_tick_clock, lemma_ticks_clock, lemma_read_clock, lemma_write_clock, lemma_guess_page, lemma_branch_page, lemma_tick_keeps_p, lemma_read_keeps_cpu;
    reveal(exec_spec);
}

/// The cycle count of `LdyZpgX`, `CpyZpg`, `CpxZpg`, `OraZpg`, `AndZpg`, `EorZpg`.
#[verifier::spinoff_prover]
#[verifier::rlimit(60)]
proof fn lemma_cycles_6(m: NesModel, op: Opcode)
    requires
        position_ok(m),
        m.ppu.frame + 30 < u32::MAX,
        op == Opcode::LdyZpgX || op == Opcode::CpyZpg || op == Opcode::CpxZpg || op == Opcode::OraZpg || op == Opcode::AndZpg || op == Opcode::EorZpg,
    ensures
        clock(exec_spec(m, op).0) == clock(m) + 3 * op_cycles(op, m, exec_spec(m, op).1),
{
    broadcast use lemma_tick_clock, lemma_ticks_clock, lemma_read_clock, lemma_write_clock, lemma_guess_page, lemma_branch_page, lemma_tick_keeps_p, lemma_read_keeps_cpu;
    reveal(exec_spec);
}

/// The cycle count of `AdcZpg`, `StaZpg`, `LdaZpg`, `CmpZpg`, `SbcZpg`, `OraZpgX`.
#[verifier::spinoff_prover]
#[verifier::rlimit(60)]
proof fn lemma_cycles_7(m: NesModel, op: Opcode)
    requires
        position_ok(m),
        m.ppu.frame + 30 < u32::MAX,
        op == Opcode::AdcZpg || op == Opcode::StaZpg || op == Opcode::LdaZpg || op == Opcode::CmpZpg || op == Opcode::SbcZpg || op == Opcode::OraZpgX,
    ensures
        clock(exec_spec(m, op).0) == clock(m) + 3 * op_cycles(op, m, exec_spec(m, op).1),
{
    broadcast use lemma_tick_clock, lemma_ticks_clock, lemma_read_clock, lemma_write_clock, lemma_guess_page, lemma_branch_page, lemma_tick_keeps_p, lemma_read_keeps_cpu;
    reveal(exec_spec);
}

/// The cycle count of `AndZpgX`, `EorZpgX`, `AdcZpgX`, `StaZpgX`, `LdaZpgX`, `CmpZpgX`.
#[verifier::spinoff_prover]
#[verifier::rlimit(60)]
proof fn lemma_cycles_8(m: NesModel, op: Opcode)
    requires
        position_ok(m),
        m.ppu.frame + 30 < u32::MAX,
        op == Opcode::AndZpgX || op == Opcode::EorZpgX || op == Opcode::AdcZpgX || op == Opcode::StaZpgX || op == Opcode::LdaZpgX || op == Opcode::CmpZpgX,
    ensures
        clock(exec_spec(m, op).0) == clock(m) + 3 * op_cycles(op, m, exec_spec(m, op).1),
{
    broadcast use lemma_tick_clock, lemma_ticks_clock, lemma_read_clock, lemma_write_clock, lemma_guess_page, lemma_branch_page, lemma_tick_keeps_p, lemma_read_keeps_cpu;
    reveal(exec_spec);
}

/// The cycle count of `SbcZpgX`, `AslZpg`, `RolZpg`, `LsrZpg`, `RorZpg`, `StxZpg`.
#[verifier::spinoff_prover]
#[verifier::rlimit(60)]
proof fn lemma_cycles_9(m: NesModel, op: Opcode)
    requires
        position_ok(m),
        m.ppu.frame + 30 < u32::MAX,
        op == Opcode::SbcZpgX || op == Opcode::AslZpg || op == Opcode::RolZpg || op == Opcode::LsrZpg || op == Opcode::RorZpg || op == Opcode::StxZpg,
    ensures
        clock(exec_spec(m, op).0) == clock(m) + 3 * op_cycles(op, m, exec_spec(m, op).1),
{
    broadcast use lemma_tick_clock, lemma_ticks_clock, lemma_read_clock, lemma_write_clock, lemma_guess_page, lemma_branch_page, lemma_tick_keeps_p, lemma_read_keeps_cpu;
    reveal(exec_spec);
}

/// The cycle count of `LdxZpg`, `DecZpg`, `IncZpg`, `AslZpgX`, `RolZpgX`, `LsrZpgX`.
#[verifier::spinoff_prover]
#[verifier::rlimit(60)]
proof fn lemma_cycles_10(m: NesModel, op: Opcode)
    requires
        position_ok(m),
        m.ppu.frame + 30 < u32::MAX,
        op == Opcode::LdxZpg || op == Opcode::DecZpg || op == Opcode::IncZpg || op == Opcode::AslZpgX || op == Opcode::RolZpgX || op == Opcode::LsrZpgX,
    ensures
        clock(exec_spec(m, op).0) == clock(m) + 3 * op_cycles(op, m, exec_spec(m, op).1),
{
    broadcast use lemma_tick_clock, lemma_ticks_clock, lemma_read_clock, lemma_write_clock, lemma_guess_page, lemma_branch_page, lemma_tick_keeps_p, lemma_read_keeps_cpu;
    reveal(exec_spec);
}

/// The cycle count of `RorZpgX`, `StxZpgY`, `LdxZpgY`, `DecZpgX`, `IncZpgX`, `PhpImpl`.
#[verifier::spinoff_prover]
#[verifier::rlimit(60)]
proof fn lemma_cycles_11(m: NesModel, op: Opcode)
    requires
        position_ok(m),
        m.ppu.frame + 30 < u32::MAX,
        op == Opcode::RorZpgX || op == Opcode::StxZpgY || op == Opcode::LdxZpgY || op == Opcode::DecZpgX || op == Opcode::IncZpgX || op == Opcode::PhpImpl,
    ensures
        clock(exec_spec(m, op).0) == clock(m) + 3 * op_cycles(op, m, exec_spec(m, op).1),
{
    broadcast use lemma_tick_clock, lemma_ticks_clock, lemma_read_clock, lemma_write_clock, lemma_guess_page, lemma_branch_page, lemma_tick_keeps_p, lemma_read_keeps_cpu;
    reveal(exec_spec);
}

/// The cycle count of `ClcImpl`, `PlpImpl`, `SecImpl`, `PhaImpl`, `CliImpl`, `PlaImpl`.
#[verifier::spinoff_prover]
#[verifier::rlimit(60)]
proof fn lemma_cycles_12(m: NesModel, op: Opcode)
    requires
        position_ok(m),
        m.ppu.frame + 30 < u32::MAX,
        op == Opcode::ClcImpl || op == Opcode::PlpImpl || op == Opcode::SecImpl || op == Opcode::PhaImpl || op == Opcode::CliImpl || op == Opcode::PlaImpl,
    ensures
        clock(exec_spec(m, op).0) == clock(m) + 3 * op_cycles(op, m, exec_spec(m, op).1),
{
    broadcast use lemma_tick_clock, lemma_ticks_clock, lemma_read_clock, lemma_write_clock, lemma_guess_page, lemma_branch_page, lemma_tick_keeps_p, lemma_read_keeps_cpu;
    reveal(exec_spec);
}

/// The cycle count of `SeiImpl`, `DeyImpl`, `TyaImpl`, `TayImpl`, `ClvImpl`, `InyImpl`.
#[verifier::spinoff_prover]
#[verifier::rlimit(60)]
proof fn lemma_cycles_13(m: NesModel, op: Opcode)
    requires
        position_ok(m),
        m.ppu.frame + 30 < u32::MAX,
        op == Opcode::SeiImpl || op == Opcode::DeyImpl || op == Opcode::TyaImpl || op == Opcode::TayImpl || op == Opcode::ClvImpl || op == Opcode::InyImpl,
    ensures
        clock(exec_spec(m, op).0) == clock(m) + 3 * op_cycles(op, m, exec_spec(m, op).1),
{
    broadcast use lemma_tick_clock, lemma_ticks_clock, lemma_read_clock, lemma_write_clock, lemma_guess_page, lemma_branch_page, lemma_tick_keeps_p, lemma_read_keeps_cpu;
    reveal(exec_spec);
}

/// The cycle count of `CldImpl`, `InxImpl`, `SedImpl`, `OraImm`, `AndImm`, `EorImm`.
#[verifier::spinoff_prover]
#[verifier::rlimit(60)]
proof fn lemma_cycles_14(m: NesModel, op: Opcode)
    requires
        position_ok(m),
        m.ppu.frame + 30 < u32::MAX,
        op == Opcode::CldImpl || op == Opcode::InxImpl || op == Opcode::SedImpl || op == Opcode::OraImm || op == Opcode::AndImm || op == Opcode::EorImm,
    ensures
        clock(exec_spec(m, op).0) == clock(m) + 3 * op_cycles(op, m, exec_spec(m, op).1),
{
    broadcast use lemma_tick_clock, lemma_ticks_clock, lemma_read_clock, lemma_write_clock, lemma_guess_page, lemma_branch_page, lemma_tick_keeps_p, lemma_read_keeps_cpu;
    reveal(exec_spec);
}

/// The cycle count of `AdcImm`, `LdaImm`, `CmpImm`, `SbcImm`, `OraAbsY`, `AndAbsY`.
#[verifier::spinoff_prover]
#[verifier::rlimit(60)]
proof fn lemma_cycles_15(m: NesModel, op: Opcode)
    requires
        position_ok(m),
        m.ppu.frame + 30 < u32::MAX,
        op == Opcode::AdcImm || op == Opcode::LdaImm || op == Opcode::CmpImm || op == Opcode::SbcImm || op == Opcode::OraAbsY || op == Opcode::AndAbsY,
    ensures
        clock(exec_spec(m, op).0) == clock(m) + 3 * op_cycles(op, m, exec_spec(m, op).1),
{
    broadcast use lemma_tick_clock, lemma_ticks_clock, lemma_read_clock, lemma_write_clock, lemma_guess_page, lemma_branch_page, lemma_tick_keeps_p, lemma_read_keeps_cpu;
    reveal(exec_spec);
}

/// The cycle count of `EorAbsY`, `AdcAbsY`, `StaAbsY`, `LdaAbsY`, `CmpAbsY`, `SbcAbsY`.
#[verifier::spinoff_prover]
#[verifier::rlimit(60)]
proof fn lemma_cycles_16(m: NesModel, op: Opcode)
    requires
        position_ok(m),
        m.ppu.frame + 30 < u32::MAX,
        op == Opcode::EorAbsY || op == Opcode::AdcAbsY || op == Opcode::StaAbsY || op == Opcode::LdaAbsY || op == Opcode::CmpAbsY || op == Opcode::SbcAbsY,
    ensures
        clock(exec_spec(m, op).0) == clock(m) + 3 * op_cycles(op, m, exec_spec(m, op).1),
{
    broadcast use lemma_tick_clock, lemma_ticks_clock, lemma_read_clock, lemma_write_clock, lemma_guess_page, lemma_branch_page, lemma_tick_keeps_p, lemma_read_keeps_cpu;
    reveal(exec_spec);
}

/// The cycle count of `AslA`, `RolA`, `LsrA`, `RorA`, `TxaImpl`, `TxsImpl`.
#[verifier::spinoff_prover]
#[verifier::rlimit(60)]
proof fn lemma_cycles_17(m: NesModel, op: Opcode)
    requires
        position_ok(m),
        m.ppu.frame + 30 < u32::MAX,
        op == Opcode::AslA || op == Opcode::RolA || op == Opcode::LsrA || op == Opcode::RorA || op == Opcode::TxaImpl || op == Opcode::TxsImpl,
    ensures
        clock(exec_spec(m, op).0) == clock(m) + 3 * op_cycles(op, m, exec_spec(m, op).1),
{
    broadcast use lemma_tick_clock, lemma_ticks_clock, lemma_read_clock, lemma_write_clock, lemma_guess_page, lemma_branch_page, lemma_tick_keeps_p, lemma_read_keeps_cpu;
    reveal(exec_spec);
}

/// The cycle count of `TaxImpl`, `TsxImpl`, `DexImpl`, `NopImpl`, `BitAbs`, `JmpAbs`.
#[verifier::spinoff_prover]
#[verifier::rlimit(60)]
proof fn lemma_cycles_18(m: NesModel, op: Opcode)
    requires
        position_ok(m),
        m.ppu.frame + 30 < u32::MAX,
        op == Opcode::TaxImpl || op == Opcode::TsxImpl || op == Opcode::DexImpl || op == Opcode::NopImpl || op == Opcode::BitAbs || op == Opcode::JmpAbs,
    ensures
        clock(exec_spec(m, op).0) == clock(m) + 3 * op_cycles(op, m, exec_spec(m, op).1),
{
    broadcast use lemma_tick_clock, lemma_ticks_clock, lemma_read_clock, lemma_write_clock, lemma_guess_page, lemma_branch_page, lemma_tick_keeps_p, lemma_read_keeps_cpu;
    reveal(exec_spec);
}

/// The cycle count of `JmpInd`, `StyAbs`, `LdyAbs`, `LdyAbsX`, `CpyAbs`, `CpxAbs`.
#[verifier::spinoff_prover]
#[verifier::rlimit(60)]
proof fn lemma_cycles_19(m: NesModel, op: Opcode)
    requires
        position_ok(m),
        m.ppu.frame + 30 < u32::MAX,
        op == Opcode::JmpInd || op == Opcode::StyAbs || op == Opcode::LdyAbs || op == Opcode::LdyAbsX || op == Opcode::CpyAbs || op == Opcode::CpxAbs,
    ensures
        clock(exec_spec(m, op).0) == clock(m) + 3 * op_cycles(op, m, exec_spec(m, op).1),
{
    broadcast use lemma_tick_clock, lemma_ticks_clock, lemma_read_clock, lemma_write_clock, lemma_guess_page, lemma_branch_page, lemma_tick_keeps_p, lemma_read_keeps_cpu;
    reveal(exec_spec);
}

/// The cycle count of `OraAbs`, `AndAbs`, `EorAbs`, `AdcAbs`, `StaAbs`, `LdaAbs`.
#[verifier::spinoff_prover]
#[verifier::rlimit(60)]
proof fn lemma_cycles_20(m: NesModel, op: Opcode)
    requires
        position_ok(m),
        m.ppu.frame + 30 < u32::MAX,
        op == Opcode::OraAbs || op == Opcode::AndAbs || op == Opcode::EorAbs || op == Opcode::AdcAbs || op == Opcode::StaAbs || op == Opcode::LdaAbs,
    ensures
        clock(exec_spec(m, op).0) == clock(m) + 3 * op_cycles(op, m, exec_spec(m, op).1),
{
    broadcast use lemma_tick_clock, lemma_ticks_clock, lemma_read_clock, lemma_write_clock, lemma_guess_page, lemma_branch_page, lemma_tick_keeps_p, lemma_read_keeps_cpu;
    reveal(exec_spec);
}

/// The cycle count of `CmpAbs`, `SbcAbs`, `OraAbsX`, `AndAbsX`, `EorAbsX`, `AdcAbsX`.
#[verifier::spinoff_prover]
#[verifier::rlimit(60)]
proof fn lemma_cycles_21(m: NesModel, op: Opcode)
    requires
        position_ok(m),
        m.ppu.frame + 30 < u32::MAX,
        op == Opcode::CmpAbs || op == Opcode::SbcAbs || op == Opcode::OraAbsX || op == Opcode::AndAbsX || op == Opcode::EorAbsX || op == Opcode::AdcAbsX,
    ensures
        clock(exec_spec(m, op).0) == clock(m) + 3 * op_cycles(op, m, exec_spec(m, op).1),
{
    broadcast use lemma_tick_clock, lemma_ticks_clock, lemma_read_clock, lemma_write_clock, lemma_guess_page, lemma_branch_page, lemma_tick_keeps_p, lemma_read_keeps_cpu;
    reveal(exec_spec);
}

/// The cycle count of `StaAbsX`, `LdaAbsX`, `CmpAbsX`, `SbcAbsX`, `AslAbs`, `RolAbs`.
#[verifier::spinoff_prover]
#[verifier::rlimit(60)]
proof fn lemma_cycles_22(m: NesModel, op: Opcode)
    requires
        position_ok(m),
        m.ppu.frame + 30 < u32::MAX,
        op == Opcode::StaAbsX || op == Opcode::LdaAbsX || op == Opcode::CmpAbsX || op == Opcode::SbcAbsX || op == Opcode::AslAbs || op == Opcode::RolAbs,
    ensures
        clock(exec_spec(m, op).0) == clock(m) + 3 * op_cycles(op, m, exec_spec(m, op).1),
{
    broadcast use lemma_tick_clock, lemma_ticks_clock, lemma_read_clock, lemma_write_clock, lemma_guess_page, lemma_branch_page, lemma_tick_keeps_p, lemma_read_keeps_cpu;
    reveal(exec_spec);
}

/// The cycle count of `LsrAbs`, `RorAbs`, `StxAbs`, `LdxAbs`, `DecAbs`, `IncAbs`.
#[verifier::spinoff_prover]
#[verifier::rlimit(60)]
proof fn lemma_cycles_23(m: NesModel, op: Opcode)
    requires
        position_ok(m),
        m.ppu.frame + 30 < u32::MAX,
        op == Opcode::LsrAbs || op == Opcode::RorAbs || op == Opcode::StxAbs || op == Opcode::LdxAbs || op == Opcode::DecAbs || op == Opcode::IncAbs,
    ensures
        clock(exec_spec(m, op).0) == clock(m) + 3 * op_cycles(op, m, exec_spec(m, op).1),
{
    broadcast use lemma_tick_clock, lemma_ticks_clock, lemma_read_clock, lemma_write_clock, lemma_guess_page, lemma_branch_page, lemma_tick_keeps_p, lemma_read_keeps_cpu;
    reveal(exec_spec);
}

/// The cycle count of `AslAbsX`, `RolAbsX`, `LsrAbsX`, `RorAbsX`, `LdxAbsY`, `DecAbsX`.
#[verifier::spinoff_prover]
#[verifier::rlimit(60)]
proof fn lemma_cycles_24(m: NesModel, op: Opcode)
    requires
        position_ok(m),
        m.ppu.frame + 30 < u32::MAX,
        op == Opcode::AslAbsX || op == Opcode::RolAbsX || op == Opcode::LsrAbsX || op == Opcode::RorAbsX || op == Opcode::LdxAbsY || op == Opcode::DecAbsX,
    ensures
        clock(exec_spec(m, op).0) == clock(m) + 3 * op_cycles(op, m, exec_spec(m, op).1),
{
    broadcast use lemma_tick_clock, lemma_ticks_clock, lemma_read_clock, lemma_write_clock, lemma_guess_page, lemma_branch_page, lemma_tick_keeps_p, lemma_read_keeps_cpu;
    reveal(exec_spec);
}

/// The cycle count of `IncAbsX`, `UNopZpg1`, `UNopZpg2`, `UNopZpg3`, `UNopZpgX1`, `UNopZpgX2`.
#[verifier::spinoff_prover]
#[verifier::rlimit(60)]
proof fn lemma_cycles_25(m: NesModel, op: Opcode)
    requires
        position_ok(m),
        m.ppu.frame + 30 < u32::MAX,
        op == Opcode::IncAbsX || op == Opcode::UNopZpg1 || op == Opcode::UNopZpg2 || op == Opcode::UNopZpg3 || op == Opcode::UNopZpgX1 || op == Opcode::UNopZpgX2,
    ensures
        clock(exec_spec(m, op).0) == clock(m) + 3 * op_cycles(op, m, exec_spec(m, op).1),
{
    broadcast use lemma_tick_clock, lemma_ticks_clock, lemma_read_clock, lemma_write_clock, lemma_guess_page, lemma_branch_page, lemma_tick_keeps_p, lemma_read_keeps_cpu;
    reveal(exec_spec);
}

/// The cycle count of `UNopZpgX3`, `UNopZpgX4`, `UNopZpgX5`, `UNopZpgX6`, `UNopImm1`, `UNopImm2`.
#[verifier::spinoff_prover]
#[verifier::rlimit(60)]
proof fn lemma_cycles_26(m: NesModel, op: Opcode)
    requires
        position_ok(m),
        m.ppu.frame + 30 < u32::MAX,
        op == Opcode::UNopZpgX3 || op == Opcode::UNopZpgX4 || op == Opcode::UNopZpgX5 || op == Opcode::UNopZpgX6 || op == Opcode::UNopImm1 || op == Opcode::UNopImm2,
    ensures
        clock(exec_spec(m, op).0) == clock(m) + 3 * op_cycles(op, m, exec_spec(m, op).1),
{
    broadcast use lemma_tick_clock, lemma_ticks_clock, lemma_read_clock, lemma_write_clock, lemma_guess_page, lemma_branch_page, lemma_tick_keeps_p, lemma_read_keeps_cpu;
    reveal(exec_spec);
}

/// The cycle count of `UNopImm3`, `UNopImm4`, `UNopImm5`, `UNopAbs`, `UNopAbsX1`, `UNopAbsX2`.
#[verifier::spinoff_prover]
#[verifier::rlimit(60)]
proof fn lemma_cycles_27(m: NesModel, op: Opcode)
    requires
        position_ok(m),
        m.ppu.frame + 30 < u32::MAX,
        op == Opcode::UNopImm3 || op == Opcode::UNopImm4 || op == Opcode::UNopImm5 || op == Opcode::UNopAbs || op == Opcode::UNopAbsX1 || op == Opcode::UNopAbsX2,
    ensures
        clock(exec_spec(m, op).0) == clock(m) + 3 * op_cycles(op, m, exec_spec(m, op).1),
{
    broadcast use lemma_tick_clock, lemma_ticks_clock, lemma_read_clock, lemma_write_clock, lemma_guess_page, lemma_branch_page, lemma_tick_keeps_p, lemma_read_keeps_cpu;
    reveal(exec_spec);
}

/// The cycle count of `UNopAbsX3`, `UNopAbsX4`, `UNopAbsX5`, `UNopAbsX6`, `UNopImpl1`, `UNopImpl2`.
#[verifier::spinoff_prover]
#[verifier::rlimit(60)]
proof fn lemma_cycles_28(m: NesModel, op: Opcode)
    requires
        position_ok(m),
        m.ppu.frame + 30 < u32::MAX,
        op == Opcode::UNopAbsX3 || op == Opcode::UNopAbsX4 || op == Opcode::UNopAbsX5 || op == Opcode::UNopAbsX6 || op == Opcode::UNopImpl1 || op == Opcode::UNopImpl2,
    ensures
        clock(exec_spec(m, op).0) == clock(m) + 3 * op_cycles(op, m, exec_spec(m, op).1),
{
    broadcast use lemma_tick_clock, lemma_ticks_clock, lemma_read_clock, lemma_write_clock, lemma_guess_page, lemma_branch_page, lemma_tick_keeps_p, lemma_read_keeps_cpu;
    reveal(exec_spec);
}

/// The cycle count of `UNopImpl3`, `UNopImpl4`, `UNopImpl5`, `UNopImpl6`, `ULaxZpg`, `ULaxZpgY`.
#[verifier::spinoff_prover]
#[verifier::rlimit(60)]
proof fn lemma_cycles_29(m: NesModel, op: Opcode)
    requires
        position_ok(m),
        m.ppu.frame + 30 < u32::MAX,
        op == Opcode::UNopImpl3 || op == Opcode::UNopImpl4 || op == Opcode::UNopImpl5 || op == Opcode::UNopImpl6 || op == Opcode::ULaxZpg || op == Opcode::ULaxZpgY,
    ensures
        clock(exec_spec(m, op).0) == clock(m) + 3 * op_cycles(op, m, exec_spec(m, op).1),
{
    broadcast use lemma_tick_clock, lemma_ticks_clock, lemma_read_clock, lemma_write_clock, lemma_guess_page, lemma_branch_page, lemma_tick_keeps_p, lemma_read_keeps_cpu;
    reveal(exec_spec);
}

/// The cycle count of `ULaxAbs`, `ULaxAbsY`, `ULaxXind`, `ULaxIndY`, `USaxZpg`, `USaxZpgY`.
#[verifier::spinoff_prover]
#[verifier::rlimit(60)]
proof fn lemma_cycles_30(m: NesModel, op: Opcode)
    requires
        position_ok(m),
        m.ppu.frame + 30 < u32::MAX,
        op == Opcode::ULaxAbs || op == Opcode::ULaxAbsY || op == Opcode::ULaxXind || op == Opcode::ULaxIndY || op == Opcode::USaxZpg || op == Opcode::USaxZpgY,
    ensures
        clock(exec_spec(m, op).0) == clock(m) + 3 * op_cycles(op, m, exec_spec(m, op).1),
{
    broadcast use lemma_tick_clock, lemma_ticks_clock, lemma_read_clock, lemma_write_clock, lemma_guess_page, lemma_branch_page, lemma_tick_keeps_p, lemma_read_keeps_cpu;
    reveal(exec_spec);
}

/// The cycle count of `USaxXind`, `USaxAbs`, `USbcImm`, `UDcpZpg`, `UDcpZpgX`, `UDcpAbs`.
#[verifier::spinoff_prover]
#[verifier::rlimit(60)]
proof fn lemma_cycles_31(m: NesModel, op: Opcode)
    requires
        position_ok(m),
        m.ppu.frame + 30 < u32::MAX,
        op == Opcode::USaxXind || op == Opcode::USaxAbs || op == Opcode::USbcImm || op == Opcode::UDcpZpg || op == Opcode::UDcpZpgX || op == Opcode::UDcpAbs,
    ensures
        clock(exec_spec(m, op).0) == clock(m) + 3 * op_cycles(op, m, exec_spec(m, op).1),
{
    broadcast use lemma_tick_clock, lemma_ticks_clock, lemma_read_clock, lemma_write_clock, lemma_guess_page, lemma_branch_page, lemma_tick_keeps_p, lemma_read_keeps_cpu;
    reveal(exec_spec);
}

/// The cycle count of `UDcpAbsX`, `UDcpAbsY`, `UDcpXind`, `UDcpIndY`, `UIsbZpg`, `UIsbZpgX`.
#[verifier::spinoff_prover]
#[verifier::rlimit(60)]
proof fn lemma_cycles_32(m: NesModel, op: Opcode)
    requires
        position_ok(m),
        m.ppu.frame + 30 < u32::MAX,
        op == Opcode::UDcpAbsX || op == Opcode::UDcpAbsY || op == Opcode::UDcpXind || op == Opcode::UDcpIndY || op == Opcode::UIsbZpg || op == Opcode::UIsbZpgX,
    ensures
        clock(exec_spec(m, op).0) == clock(m) + 3 * op_cycles(op, m, exec_spec(m, op).1),
{
    broadcast use lemma_tick_clock, lemma_ticks_clock, lemma_read_clock, lemma_write_clock, lemma_guess_page, lemma_branch_page, lemma_tick_keeps_p, lemma_read_keeps_cpu;
    reveal(exec_spec);
}

/// The cycle count of `UIsbAbs`, `UIsbAbsX`, `UIsbAbsY`, `UIsbXind`, `UIsbIndY`, `USloZpg`.
#[verifier::spinoff_prover]
#[verifier::rlimit(60)]
proof fn lemma_cycles_33(m: NesModel, op: Opcode)
    requires
        position_ok(m),
        m.ppu.frame + 30 < u32::MAX,
        op == Opcode::UIsbAbs || op == Opcode::UIsbAbsX || op == Opcode::UIsbAbsY || op == Opcode::UIsbXind || op == Opcode::UIsbIndY || op == Opcode::USloZpg,
    ensures
        clock(exec_spec(m, op).0) == clock(m) + 3 * op_cycles(op, m, exec_spec(m, op).1),
{
    broadcast use lemma_tick_clock, lemma_ticks_clock, lemma_read_clock, lemma_write_clock, lemma_guess_page, lemma_branch_page, lemma_tick_keeps_p, lemma_read_keeps_cpu;
    reveal(exec_spec);
}

/// The cycle count of `USloZpgX`, `USloAbs`, `USloAbsX`, `USloAbsY`, `USloXind`, `USloIndY`.
#[verifier::spinoff_prover]
#[verifier::rlimit(60)]
proof fn lemma_cycles_34(m: NesModel, op: Opcode)
    requires
        position_ok(m),
        m.ppu.frame + 30 < u32::MAX,
        op == Opcode::USloZpgX || op == Opcode::USloAbs || op == Opcode::USloAbsX || op == Opcode::USloAbsY || op == Opcode::USloXind || op == Opcode::USloIndY,
    ensures
        clock(exec_spec(m, op).0) == clock(m) + 3 * op_cycles(op, m, exec_spec(m, op).1),
{
    broadcast use lemma_tick_clock, lemma_ticks_clock, lemma_read_clock, lemma_write_clock, lemma_guess_page, lemma_branch_page, lemma_tick_keeps_p, lemma_read_keeps_cpu;
    reveal(exec_spec);
}

/// The cycle count of `URlaZpg`, `URlaZpgX`, `URlaAbs`, `URlaAbsX`, `URlaAbsY`, `URlaXind`.
#[verifier::spinoff_prover]
#[verifier::rlimit(60)]
proof fn lemma_cycles_35(m: NesModel, op: Opcode)
    requires
        position_ok(m),
        m.ppu.frame + 30 < u32::MAX,
        op == Opcode::URlaZpg || op == Opcode::URlaZpgX || op == Opcode::URlaAbs || op == Opcode::URlaAbsX || op == Opcode::URlaAbsY || op == Opcode::URlaXind,
    ensures
        clock(exec_spec(m, op).0) == clock(m) + 3 * op_cycles(op, m, exec_spec(m, op).1),
{
    broadcast use lemma_tick_clock, lemma_ticks_clock, lemma_read_clock, lemma_write_clock, lemma_guess_page, lemma_branch_page, lemma_tick_keeps_p, lemma_read_keeps_cpu;
    reveal(exec_spec);
}

/// The cycle count of `URlaIndY`, `USreZpg`, `USreZpgX`, `USreAbs`, `USreAbsX`, `USreAbsY`.
#[verifier::spinoff_prover]
#[verifier::rlimit(60)]
proof fn lemma_cycles_36(m: NesModel, op: Opcode)
    requires
        position_ok(m),
        m.ppu.frame + 30 < u32::MAX,
        op == Opcode::URlaIndY || op == Opcode::USreZpg || op == Opcode::USreZpgX || op == Opcode::USreAbs || op == Opcode::USreAbsX || op == Opcode::USreAbsY,
    ensures
        clock(exec_spec(m, op).0) == clock(m) + 3 * op_cycles(op, m, exec_spec(m, op).1),
{
    broadcast use lemma_tick_clock, lemma_ticks_clock, lemma_read_clock, lemma_write_clock, lemma_guess_page, lemma_branch_page, lemma_tick_keeps_p, lemma_read_keeps_cpu;
    reveal(exec_spec);
}

/// The cycle count of `USreXind`, `USreIndY`, `URraZpg`, `URraZpgX`, `URraAbs`, `URraAbsX`.
#[verifier::spinoff_prover]
#[verifier::rlimit(60)]
proof fn lemma_cycles_37(m: NesModel, op: Opcode)
    requires
        position_ok(m),
        m.ppu.frame + 30 < u32::MAX,
        op == Opcode::USreXind || op == Opcode::USreIndY || op == Opcode::URraZpg || op == Opcode::URraZpgX || op == Opcode::URraAbs || op == Opcode::URraAbsX,
    ensures
        clock(exec_spec(m, op).0) == clock(m) + 3 * op_cycles(op, m, exec_spec(m, op).1),
{
    broadcast use lemma_tick_clock, lemma_ticks_clock, lemma_read_clock, lemma_write_clock, lemma_guess_page, lemma_branch_page, lemma_tick_keeps_p, lemma_read_keeps_cpu;
    reveal(exec_spec);
}

/// The cycle count of `URraAbsY`, `URraXind`, `URraIndY`.
#[verifier::spinoff_prover]
#[verifier::rlimit(60)]
proof fn lemma_cycles_38(m: NesModel, op: Opcode)
    requires
        position_ok(m),
        m.ppu.frame + 30 < u32::MAX,
        op == Opcode::URraAbsY || op == Opcode::URraXind || op == Opcode::URraIndY,
    ensures
        clock(exec_spec(m, op).0) == clock(m) + 3 * op_cycles(op, m, exec_spec(m, op).1),
{
    broadcast use lemma_tick_clock, lemma_ticks_clock, lemma_read_clock, lemma_write_clock, lemma_guess_page, lemma_branch_page, lemma_tick_keeps_p, lemma_read_keeps_cpu;
    reveal(exec_spec);
}

/// Every instruction takes its cycle count (see `op_cycles`): the PPU runs
/// exactly three cycles for each of them while it runs (the frame counter
/// not about to wrap).
pub proof fn lemma_instruction_cycles(m: NesModel, op: Opcode)
    requires
        position_ok(m),
        m.ppu.frame + 30 < u32::MAX,
    ensures
        clock(exec_spec(m, op).0) == clock(m) + 3 * op_cycles(op, m, exec_spec(m, op).1),
{
    match op {
        Opcode::BrkImpl | Opcode::BplRel | Opcode::JsrAbs | Opcode::BmiRel | Opcode::RtiImpl | Opcode::BvcRel => lemma_cycles_0(m, op),
        Opcode::RtsImpl | Opcode::BvsRel | Opcode::BccRel | Opcode::LdyImm | Opcode::BcsRel | Opcode::CpyImm => lemma_cycles_1(m, op),
        Opcode::BneRel | Opcode::CpxImm | Opcode::BeqRel | Opcode::OraXind | Opcode::AndXind | Opcode::EorXind => lemma_cycles_2(m, op),
        Opcode::AdcXind | Opcode::StaXind | Opcode::LdaXind | Opcode::CmpXind | Opcode::SbcXind | Opcode::OraIndY => lemma_cycles_3(m, op),
        Opcode::AndIndY | Opcode::EorIndY | Opcode::AdcIndY | Opcode::StaIndY | Opcode::LdaIndY | Opcode::CmpIndY => lemma_cycles_4(m, op),
        Opcode::SbcIndY | Opcode::LdxImm | Opcode::BitZpg | Opcode::StyZpg | Opcode::StyZpgX | Opcode::LdyZpg => lemma_cycles_5(m, op),
        Opcode::LdyZpgX | Opcode::CpyZpg | Opcode::CpxZpg | Opcode::OraZpg | Opcode::AndZpg | Opcode::EorZpg => lemma_cycles_6(m, op),
        Opcode::AdcZpg | Opcode::StaZpg | Opcode::LdaZpg | Opcode::CmpZpg | Opcode::SbcZpg | Opcode::OraZpgX => lemma_cycles_7(m, op),
        Opcode::AndZpgX | Opcode::EorZpgX | Opcode::AdcZpgX | Opcode::StaZpgX | Opcode::LdaZpgX | Opcode::CmpZpgX => lemma_cycles_8(m, op),
        Opcode::SbcZpgX | Opcode::AslZpg | Opcode::RolZpg | Opcode::LsrZpg | Opcode::RorZpg | Opcode::StxZpg => lemma_cycles_9(m, op),
        Opcode::LdxZpg | Opcode::DecZpg | Opcode::IncZpg | Opcode::AslZpgX | Opcode::RolZpgX | Opcode::LsrZpgX => lemma_cycles_10(m, op),
        Opcode::RorZpgX | Opcode::StxZpgY | Opcode::LdxZpgY | Opcode::DecZpgX | Opcode::IncZpgX | Opcode::PhpImpl => lemma_cycles_11(m, op),
        Opcode::ClcImpl | Opcode::PlpImpl | Opcode::SecImpl | Opcode::PhaImpl | Opcode::CliImpl | Opcode::PlaImpl => lemma_cycles_12(m, op),
        Opcode::SeiImpl | Opcode::DeyImpl | Opcode::TyaImpl | Opcode::TayImpl | Opcode::ClvImpl | Opcode::InyImpl => lemma_cycles_13(m, op),
        Opcode::CldImpl | Opcode::InxImpl | Opcode::SedImpl | Opcode::OraImm | Opcode::AndImm | Opcode::EorImm => lemma_cycles_14(m, op),
        Opcode::AdcImm | Opcode::LdaImm | Opcode::CmpImm | Opcode::SbcImm | Opcode::OraAbsY | Opcode::AndAbsY => lemma_cycles_15(m, op),
        Opcode::EorAbsY | Opcode::AdcAbsY | Opcode::StaAbsY | Opcode::LdaAbsY | Opcode::CmpAbsY | Opcode::SbcAbsY => lemma_cycles_16(m, op),
        Opcode::AslA | Opcode::RolA | Opcode::LsrA | Opcode::RorA | Opcode::TxaImpl | Opcode::TxsImpl => lemma_cycles_17(m, op),
        Opcode::TaxImpl | Opcode::TsxImpl | Opcode::DexImpl | Opcode::NopImpl | Opcode::BitAbs | Opcode::JmpAbs => lemma_cycles_18(m, op),
        Opcode::JmpInd | Opcode::StyAbs | Opcode::LdyAbs | Opcode::LdyAbsX | Opcode::CpyAbs | Opcode::CpxAbs => lemma_cycles_19(m, op),
        Opcode::OraAbs | Opcode::AndAbs | Opcode::EorAbs | Opcode::AdcAbs | Opcode::StaAbs | Opcode::LdaAbs => lemma_cycles_20(m, op),
        Opcode::CmpAbs | Opcode::SbcAbs | Opcode::OraAbsX | Opcode::AndAbsX | Opcode::EorAbsX | Opcode::AdcAbsX => lemma_cycles_21(m, op),
        Opcode::StaAbsX | Opcode::LdaAbsX | Opcode::CmpAbsX | Opcode::SbcAbsX | Opcode::AslAbs | Opcode::RolAbs => lemma_cycles_22(m, op),
        Opcode::LsrAbs | Opcode::RorAbs | Opcode::StxAbs | Opcode::LdxAbs | Opcode::DecAbs | Opcode::IncAbs => lemma_cycles_23(m, op),
        Opcode::AslAbsX | Opcode::RolAbsX | Opcode::LsrAbsX | Opcode::RorAbsX | Opcode::LdxAbsY | Opcode::DecAbsX => lemma_cycles_24(m, op),
        Opcode::IncAbsX | Opcode::UNopZpg1 | Opcode::UNopZpg2 | Opcode::UNopZpg3 | Opcode::UNopZpgX1 | Opcode::UNopZpgX2 => lemma_cycles_25(m, op),
        Opcode::UNopZpgX3 | Opcode::UNopZpgX4 | Opcode::UNopZpgX5 | Opcode::UNopZpgX6 | Opcode::UNopImm1 | Opcode::UNopImm2 => lemma_cycles_26(m, op),
        Opcode::UNopImm3 | Opcode::UNopImm4 | Opcode::UNopImm5 | Opcode::UNopAbs | Opcode::UNopAbsX1 | Opcode::UNopAbsX2 => lemma_cycles_27(m, op),
        Opcode::UNopAbsX3 | Opcode::UNopAbsX4 | Opcode::UNopAbsX5 | Opcode::UNopAbsX6 | Opcode::UNopImpl1 | Opcode::UNopImpl2 => lemma_cycles_28(m, op),
        Opcode::UNopImpl3 | Opcode::UNopImpl4 | Opcode::UNopImpl5 | Opcode::UNopImpl6 | Opcode::ULaxZpg | Opcode::ULaxZpgY => lemma_cycles_29(m, op),
        Opcode::ULaxAbs | Opcode::ULaxAbsY | Opcode::ULaxXind | Opcode::ULaxIndY | Opcode::USaxZpg | Opcode::USaxZpgY => lemma_cycles_30(m, op),
        Opcode::USaxXind | Opcode::USaxAbs | Opcode::USbcImm | Opcode::UDcpZpg | Opcode::UDcpZpgX | Opcode::UDcpAbs => lemma_cycles_31(m, op),
        Opcode::UDcpAbsX | Opcode::UDcpAbsY | Opcode::UDcpXind | Opcode::UDcpIndY | Opcode::UIsbZpg | Opcode::UIsbZpgX => lemma_cycles_32(m, op),
        Opcode::UIsbAbs | Opcode::UIsbAbsX | Opcode::UIsbAbsY | Opcode::UIsbXind | Opcode::UIsbIndY | Opcode::USloZpg => lemma_cycles_33(m, op),
        Opcode::USloZpgX | Opcode::USloAbs | Opcode::USloAbsX | Opcode::USloAbsY | Opcode::USloXind | Opcode::USloIndY => lemma_cycles_34(m, op),
        Opcode::URlaZpg | Opcode::URlaZpgX | Opcode::URlaAbs | Opcode::URlaAbsX | Opcode::URlaAbsY | Opcode::URlaXind => lemma_cycles_35(m, op),
        Opcode::URlaIndY | Opcode::USreZpg | Opcode::USreZpgX | Opcode::USreAbs | Opcode::USreAbsX | Opcode::USreAbsY => lemma_cycles_36(m, op),
        Opcode::USreXind | Opcode::USreIndY | Opcode::URraZpg | Opcode::URraZpgX | Opcode::URraAbs | Opcode::URraAbsX => lemma_cycles_37(m, op),
        Opcode::URraAbsY | Opcode::URraXind | Opcode::URraIndY => lemma_cycles_38(m, op),
    }
}

/// Serving a pending NMI takes seven cycles.
#[verifier::spinoff_prover]
proof fn lemma_nmi_cycles(m: NesModel)
    requires
        position_ok(m),
        m.ppu.frame + 40 < u32::MAX,
    ensures
        clock(nmi_spec(m)) == clock(m) + if m.cpu.nmi { 21int } else { 0int },
        position_ok(nmi_spec(m)),
        nmi_spec(m).ppu.frame <= m.ppu.frame + 21,
{
    broadcast use lemma_tick_clock, lemma_ticks_clock, lemma_read_clock;
}

/// Running out the DMA stall takes its cycles.
#[verifier::spinoff_prover]
proof fn lemma_dma_cycles(m: NesModel)
    requires
        position_ok(m),
        m.ppu.frame + 3 * m.cpu.dma_stall + 60 < u32::MAX,
    ensures
        clock(dma_spec(m)) == clock(m) + 3 * m.cpu.dma_stall,
        position_ok(dma_spec(m)),
        dma_spec(m).ppu.frame + 60 < u32::MAX,
{
    broadcast use lemma_ticks_clock;
}

/// A whole CPU step takes the cycles of the DMA stall it runs out, seven
/// for an NMI that is pending once the stall is over, and those of the
/// instruction (see `op_cycles`).
#[verifier::spinoff_prover]
pub proof fn lemma_step_cycles(m: NesModel)
    requires
        position_ok(m),
        m.ppu.frame + 3 * m.cpu.dma_stall + 60 < u32::MAX,
        next_opcode(m) is Some,
    ensures
        ({
            let m0 = dma_spec(m);
            let m1 = nmi_spec(m0);
            let m2 = bus_read(m1, m1.cpu.pc).0;
            let op = next_opcode(m).unwrap();
            clock(cpu_step_spec(m).0) == clock(m) + 3 * (m.cpu.dma_stall + (if m0.cpu.nmi { 7nat } else { 0nat })
                + op_cycles(op, m2, exec_spec(m2, op).1))
        }),
{
    let m0 = dma_spec(m);
    lemma_dma_cycles(m);
    let m1 = nmi_spec(m0);
    lemma_nmi_cycles(m0);
    lemma_read_clock(m1, m1.cpu.pc);
    let m2 = bus_read(m1, m1.cpu.pc).0;
    let op = next_opcode(m).unwrap();
    lemma_instruction_cycles(m2, op);
}

} // verus!
