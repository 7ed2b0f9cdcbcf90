//! The undocumented opcodes as the pairs of documented operations that they
//! run in one instruction, and the flag instructions and BIT as the flags
//! they set.
use vstd::prelude::*;
use crate::cpu::Cpu;
use crate::cpu_laws::{lemma_set_nz_twice, lemma_shift_carry};
use crate::flags::{Status, with_bits};
use crate::nes::NesModel;
use crate::operations::{
    BinaryOperation, ImplOperation, MemCalcOperation, RegOperations, TestOperation, ADC, AND, ASL, BIT, CLC, CLD, CLI, CLV, CMP, DCP,
    DEC, EOR, INC, ISB, LAX, LSR, ORA, RLA, ROL, ROR, RRA, RegA, RegX, SBC, SEC, SED, SEI, SLO, SRE,
};

verus! {

/// Flag updates that a later update overwrites leave no trace, and setting
/// or clearing one flag changes only that flag.
proof fn lemma_flag_overwrites(p: u8, m: u8, on: bool, c0: bool, z0: bool, n0: bool, z: bool, c: bool, n: bool, v: bool)
    by (bit_vector)
    ensures
        with_bits(with_bits(with_bits(with_bits(with_bits(p, 2u8, z0), 128u8, n0), 2u8, z), 1u8, c), 128u8, n)
            == with_bits(with_bits(with_bits(p, 2u8, z), 1u8, c), 128u8, n),
        with_bits(with_bits(with_bits(with_bits(with_bits(with_bits(p, 2u8, z0), 128u8, n0), 2u8, z), 1u8, c), 128u8, n), 64u8, v)
            == with_bits(with_bits(with_bits(with_bits(p, 2u8, z), 1u8, c), 128u8, n), 64u8, v),
        with_bits(with_bits(with_bits(with_bits(with_bits(with_bits(with_bits(p, 1u8, c0), 2u8, z0), 128u8, n0), 2u8, z), 1u8, c), 128u8, n), 64u8, v)
            == with_bits(with_bits(with_bits(with_bits(p, 1u8, c), 2u8, z), 128u8, n), 64u8, v),
        (m == 1u8 || m == 4u8 || m == 8u8 || m == 64u8) ==> (with_bits(p, m, on) & m == m) == on && with_bits(p, m, on) & !m == p & !m,
        (with_bits(with_bits(with_bits(p, 2u8, z), 128u8, n), 64u8, v) & 2u8 == 2u8) == z,
        (with_bits(with_bits(with_bits(p, 2u8, z), 128u8, n), 64u8, v) & 128u8 == 128u8) == n,
        (with_bits(with_bits(with_bits(p, 2u8, z), 128u8, n), 64u8, v) & 64u8 == 64u8) == v,
        with_bits(with_bits(with_bits(p, 2u8, z), 128u8, n), 64u8, v) & 0x3Du8 == p & 0x3Du8,
        (m & 0x40u8 != 0u8) == ((m / 64u8) % 2u8 == 1u8),
{
}

/// DCP is DEC then CMP on the decremented byte, ISB is INC then SBC, SLO
/// is ASL then ORA, RLA is ROL then AND, SRE is LSR then EOR, and RRA is
/// ROR then ADC (adding in the bit that ROR shifted out): each writes back
/// the byte of its first operation and leaves the registers of the second
/// run on the registers that the first left.
pub proof fn lemma_undocumented_pairs(cpu: Cpu, v: u8)
    ensures
        ({
            let d = MemCalcOperation::effect(&DEC, cpu, v);
            MemCalcOperation::effect(&DCP, cpu, v) == (BinaryOperation::effect(&CMP, d.0, d.1), d.1)
        }),
        ({
            let i = MemCalcOperation::effect(&INC, cpu, v);
            MemCalcOperation::effect(&ISB, cpu, v) == (BinaryOperation::effect(&SBC, i.0, i.1), i.1)
        }),
        ({
            let s = MemCalcOperation::effect(&ASL, cpu, v);
            MemCalcOperation::effect(&SLO, cpu, v) == (BinaryOperation::effect(&ORA, s.0, s.1), s.1)
        }),
        ({
            let s = MemCalcOperation::effect(&ROL, cpu, v);
            MemCalcOperation::effect(&RLA, cpu, v) == (BinaryOperation::effect(&AND, s.0, s.1), s.1)
        }),
        ({
            let s = MemCalcOperation::effect(&LSR, cpu, v);
            MemCalcOperation::effect(&SRE, cpu, v) == (BinaryOperation::effect(&EOR, s.0, s.1), s.1)
        }),
        ({
            let s = MemCalcOperation::effect(&ROR, cpu, v);
            MemCalcOperation::effect(&RRA, cpu, v) == (BinaryOperation::effect(&ADC, s.0, s.1), s.1)
        }),
        LAX.loaded(cpu, v) == RegX.loaded(RegA.loaded(cpu, v), v),
{
    let p = cpu.p.bits;
    let dr = v.wrapping_sub(1);
    lemma_flag_overwrites(p, 0, false, false, dr == 0, dr >= 128, cpu.a == dr, cpu.a >= dr,
        crate::alu::negative(((cpu.a - dr) % 256) as u8), false);
    let ir = v.wrapping_add(1);
    let nt: u8 = !ir;
    crate::logic_laws::lemma_set_nz_bits(p, ir);
    let sum = cpu.a + nt + crate::alu::carry(cpu.p);
    let r = (sum % 256) as u8;
    lemma_flag_overwrites(p, 0, false, false, ir == 0, ir >= 128, r == 0, sum >= 256, r >= 128,
        crate::alu::signed_overflow(cpu.a, nt, r));
    let t = crate::alu::shl1(v);
    lemma_set_nz_twice(with_bits(p, Status::C, v >= 128), t, cpu.a | t);
    let t = crate::alu::rol(v, crate::alu::carry(cpu.p));
    lemma_set_nz_twice(with_bits(p, Status::C, v >= 128), t, cpu.a & t);
    let t = v / 2;
    lemma_set_nz_twice(with_bits(p, Status::C, v % 2 == 1), t, cpu.a ^ t);
    let t = crate::alu::ror(v, crate::alu::carry(cpu.p));
    lemma_shift_carry(p, v % 2 == 1, t);
    let sum = cpu.a + t + v % 2;
    let r = (sum % 256) as u8;
    lemma_flag_overwrites(p, 0, false, v % 2 == 1, t == 0, t >= 128, r == 0, sum >= 256, r >= 128,
        crate::alu::signed_overflow(cpu.a, t, r));
    lemma_set_nz_twice(p, v, v);
}

/// Whether `after` is `before` with flag `mask` set to `on` and nothing
/// else changed.
pub open spec fn only_flag(before: NesModel, after: NesModel, mask: u8, on: bool) -> bool {
    &&& (after.cpu.p.bits & mask == mask) == on
    &&& after.cpu.p.bits & !mask == before.cpu.p.bits & !mask
    &&& after == NesModel { cpu: Cpu { p: after.cpu.p, ..before.cpu }, ..before }
}

/// The flag instructions: CLC and SEC clear and set carry, CLI and SEI the
/// interrupt disable flag, CLD and SED the decimal flag, and CLV clears
/// overflow; each changes nothing else.
pub proof fn lemma_flag_instructions(m: NesModel)
    ensures
        only_flag(m, CLC.effect(m), Status::C, false),
        only_flag(m, SEC.effect(m), Status::C, true),
        only_flag(m, CLI.effect(m), Status::I, false),
        only_flag(m, SEI.effect(m), Status::I, true),
        only_flag(m, CLD.effect(m), Status::D, false),
        only_flag(m, SED.effect(m), Status::D, true),
        only_flag(m, CLV.effect(m), Status::V, false),
{
    let p = m.cpu.p.bits;
    lemma_flag_overwrites(p, 1, false, false, false, false, false, false, false, false);
    lemma_flag_overwrites(p, 1, true, false, false, false, false, false, false, false);
    lemma_flag_overwrites(p, 4, false, false, false, false, false, false, false, false);
    lemma_flag_overwrites(p, 4, true, false, false, false, false, false, false, false);
    lemma_flag_overwrites(p, 8, false, false, false, false, false, false, false, false);
    lemma_flag_overwrites(p, 8, true, false, false, false, false, false, false, false);
    lemma_flag_overwrites(p, 64, false, false, false, false, false, false, false, false);
}

/// BIT tests a memory byte against A: Z is set exactly when A and the byte
/// have no set bit in common, N becomes bit 7 of the byte and V its bit 6;
/// the other flags and all registers are kept.
pub proof fn lemma_bit_test(cpu: Cpu, v: u8)
    ensures
        (BIT.effect(cpu, v).p.bits & Status::Z == Status::Z) == (cpu.a & v == 0),
        (BIT.effect(cpu, v).p.bits & Status::N == Status::N) == (v >= 128),
        (BIT.effect(cpu, v).p.bits & Status::V == Status::V) == ((v / 64) % 2 == 1),
        BIT.effect(cpu, v).p.bits & 0x3D == cpu.p.bits & 0x3D,
        BIT.effect(cpu, v) == (Cpu { p: BIT.effect(cpu, v).p, ..cpu }),
{
    lemma_flag_overwrites(cpu.p.bits, v, false, false, false, false, cpu.a & v == 0, false, v >= 128, v & 0x40 != 0);
}

} // verus!
