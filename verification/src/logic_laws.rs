//! What the logical operations compute, bit by bit, and the flags they
//! leave: EOR is exclusive or, ORA inclusive or, AND conjunction.
use vstd::prelude::*;
use crate::alu::{compare, negative, set_nz};
use crate::cpu::Cpu;
use crate::flags::{Status, with_bits};
use crate::operations::{BinaryOperation, AND, EOR, ORA};

verus! {

/// Bit `i` of a byte (bit 0 the lowest).
pub open spec fn bit(x: u8, i: u8) -> bool {
    (x >> i) & 1u8 == 1u8
}

/// The byte facts behind the logical operations and the flag tests: the
/// bitwise identities of the three logical operators, that exclusive or with
/// one byte twice gives the other back and is zero exactly on equal bytes,
/// and the flag bits of the status bytes that a load and a comparison leave.
proof fn lemma_byte_facts(a: u8, v: u8, i: u8, p: u8, r: u8, z: bool, c: bool, n: bool)
    by (bit_vector)
    ensures
        i < 8 ==> bit(a ^ v, i) == (bit(a, i) != bit(v, i)),
        i < 8 ==> bit(a | v, i) == (bit(a, i) || bit(v, i)),
        i < 8 ==> bit(a & v, i) == (bit(a, i) && bit(v, i)),
        (a ^ v) ^ v == a,
        ((a ^ v) == 0) == (a == v),
        ((a | v) == 0) == (a == 0 && v == 0),
        bit(a, 7) == (a >= 128),
        (with_bits(with_bits(p, 2u8, r == 0), 128u8, r >= 128) & 2u8 != 0) == (r == 0),
        (with_bits(with_bits(p, 2u8, r == 0), 128u8, r >= 128) & 0x80u8 != 0) == (r >= 128),
        (with_bits(with_bits(p, 2u8, r == 0), 128u8, r >= 128) & 2u8 == 2u8) == (r == 0),
        (with_bits(with_bits(p, 2u8, r == 0), 128u8, r >= 128) & 0x80u8 == 0x80u8) == (r >= 128),
        with_bits(with_bits(p, 2u8, r == 0), 128u8, r >= 128) & 0x7Du8 == p & 0x7Du8,
        (with_bits(with_bits(p, 2u8, r == 0), 128u8, r >= 128) & 1u8 == 1u8) == (p & 1u8 == 1u8),
        (with_bits(with_bits(p, 2u8, r == 0), 128u8, r >= 128) & 0x40u8 == 0x40u8) == (p & 0x40u8 == 0x40u8),
        (with_bits(with_bits(with_bits(p, 2u8, z), 1u8, c), 128u8, n) & 2u8 == 2u8) == z,
        (with_bits(with_bits(with_bits(p, 2u8, z), 1u8, c), 128u8, n) & 1u8 == 1u8) == c,
        (with_bits(with_bits(with_bits(p, 2u8, z), 1u8, c), 128u8, n) & 0x80u8 == 0x80u8) == n,
        (with_bits(with_bits(with_bits(p, 2u8, z), 1u8, c), 128u8, n) & 0x40u8 == 0x40u8) == (p & 0x40u8 == 0x40u8),
{
}

/// Setting Z and N from a result sets Z exactly when the result is zero and
/// N exactly when its bit 7 is set, and keeps the other flags.
pub proof fn lemma_set_nz_bits(p: u8, r: u8)
    ensures
        (set_nz(p, r) & Status::Z != 0) == (r == 0),
        (set_nz(p, r) & Status::N != 0) == (r >= 128),
        (set_nz(p, r) & Status::Z == Status::Z) == (r == 0),
        (set_nz(p, r) & Status::N == Status::N) == (r >= 128),
        (set_nz(p, r) & Status::C == Status::C) == (p & Status::C == Status::C),
        (set_nz(p, r) & Status::V == Status::V) == (p & Status::V == Status::V),
        set_nz(p, r) & 0x7D == p & 0x7D,
{
    lemma_byte_facts(0, 0, 0, p, r, false, false, false);
}

/// A comparison sets Z exactly when the register equals the operand, C
/// exactly when it is not below it, and N to bit 7 of their difference.
pub proof fn lemma_compare_bits(p: u8, reg: u8, v: u8)
    ensures
        (compare(p, reg, v) & Status::Z == Status::Z) == (reg == v),
        (compare(p, reg, v) & Status::C == Status::C) == (reg >= v),
        (compare(p, reg, v) & Status::N == Status::N) == ((reg - v) % 256 >= 128),
        (compare(p, reg, v) & Status::V == Status::V) == (p & Status::V == Status::V),
{
    lemma_byte_facts(0, 0, 0, p, 0, reg == v, reg >= v, negative(((reg - v) % 256) as u8));
}

/// EOR leaves in A the exclusive or of A and the operand: each bit of the
/// new A is set exactly when that bit differs between A and the operand.
/// Z is then set exactly when A equalled the operand, N exactly when their
/// top bits differ; the other flags and the other registers are kept.
pub proof fn lemma_eor_is_xor(cpu: Cpu, v: u8)
    ensures
        forall|i: u8| i < 8 ==> #[trigger] bit(EOR.effect(cpu, v).a, i) == (bit(cpu.a, i) != bit(v, i)),
        (EOR.effect(cpu, v).p.bits & Status::Z != 0) == (cpu.a == v),
        (EOR.effect(cpu, v).p.bits & Status::N != 0) == (bit(cpu.a, 7) != bit(v, 7)),
        EOR.effect(cpu, v).p.bits & 0x7D == cpu.p.bits & 0x7D,
        EOR.effect(cpu, v) == (Cpu { a: EOR.effect(cpu, v).a, p: EOR.effect(cpu, v).p, ..cpu }),
{
    let r = EOR.effect(cpu, v);
    assert forall|i: u8| i < 8 implies #[trigger] bit(r.a, i) == (bit(cpu.a, i) != bit(v, i)) by {
        lemma_byte_facts(cpu.a, v, i, 0, 0, false, false, false);
    }
    lemma_byte_facts(cpu.a, v, 7, 0, 0, false, false, false);
    lemma_byte_facts(cpu.a ^ v, 0, 7, 0, 0, false, false, false);
    lemma_set_nz_bits(cpu.p.bits, cpu.a ^ v);
}

/// EOR undoes itself: applied twice with the same operand it gives A back.
/// EOR of A with A itself clears A and sets Z.
pub proof fn lemma_eor_twice(cpu: Cpu, v: u8)
    ensures
        EOR.effect(EOR.effect(cpu, v), v).a == cpu.a,
        EOR.effect(cpu, cpu.a).a == 0,
        EOR.effect(cpu, cpu.a).p.bits & Status::Z != 0,
{
    lemma_byte_facts(cpu.a, v, 0, 0, 0, false, false, false);
    lemma_byte_facts(cpu.a, cpu.a, 0, 0, 0, false, false, false);
    lemma_set_nz_bits(cpu.p.bits, cpu.a ^ cpu.a);
}

/// ORA leaves in A the inclusive or of A and the operand, AND their
/// conjunction: each bit of the new A is set exactly when either (ORA) or
/// both (AND) of the two bits are set. Z is set exactly when the new A is
/// zero and N exactly when its top bit is set; the other flags and
/// registers are kept.
pub proof fn lemma_ora_and_bits(cpu: Cpu, v: u8)
    ensures
        forall|i: u8| i < 8 ==> #[trigger] bit(ORA.effect(cpu, v).a, i) == (bit(cpu.a, i) || bit(v, i)),
        forall|i: u8| i < 8 ==> #[trigger] bit(AND.effect(cpu, v).a, i) == (bit(cpu.a, i) && bit(v, i)),
        (ORA.effect(cpu, v).p.bits & Status::Z != 0) == (cpu.a == 0 && v == 0),
        (AND.effect(cpu, v).p.bits & Status::N != 0) == (bit(cpu.a, 7) && bit(v, 7)),
        (ORA.effect(cpu, v).p.bits & Status::N != 0) == (bit(cpu.a, 7) || bit(v, 7)),
        ORA.effect(cpu, v).p.bits & 0x7D == cpu.p.bits & 0x7D,
        AND.effect(cpu, v).p.bits & 0x7D == cpu.p.bits & 0x7D,
        ORA.effect(cpu, v) == (Cpu { a: ORA.effect(cpu, v).a, p: ORA.effect(cpu, v).p, ..cpu }),
        AND.effect(cpu, v) == (Cpu { a: AND.effect(cpu, v).a, p: AND.effect(cpu, v).p, ..cpu }),
{
    assert forall|i: u8| i < 8 implies #[trigger] bit(ORA.effect(cpu, v).a, i) == (bit(cpu.a, i) || bit(v, i)) by {
        lemma_byte_facts(cpu.a, v, i, 0, 0, false, false, false);
    }
    assert forall|i: u8| i < 8 implies #[trigger] bit(AND.effect(cpu, v).a, i) == (bit(cpu.a, i) && bit(v, i)) by {
        lemma_byte_facts(cpu.a, v, i, 0, 0, false, false, false);
    }
    lemma_byte_facts(cpu.a, v, 7, 0, 0, false, false, false);
    lemma_byte_facts(cpu.a | v, 0, 7, 0, 0, false, false, false);
    lemma_byte_facts(cpu.a & v, 0, 7, 0, 0, false, false, false);
    lemma_set_nz_bits(cpu.p.bits, cpu.a | v);
    lemma_set_nz_bits(cpu.p.bits, cpu.a & v);
}

} // verus!
