//! The operations of the 6502 instruction set. Each is a unit type that
//! implements the trait of its kind; the addressing modes are generic over
//! these traits, and each trait states what its operation does through a
//! spec function that every implementation defines.
use vstd::prelude::*;
use crate::alu::{adc, carry, compare, load_a, lemma_compare_flags, lemma_shift_facts, lemma_sign_bit, lemma_sum_flags, negative, ror, rol, set_nz, shl1, signed_overflow};
use crate::cpu::{Cpu, pop_spec, push_spec};
use crate::flags::{Status, with_bits};
use crate::nes::{Nes, NesModel};

verus! {

/// `m` with the registers replaced by `cpu`.
pub open spec fn with_cpu(m: NesModel, cpu: Cpu) -> NesModel {
    NesModel { cpu, ..m }
}

/// An operation on A (or on the register it compares) with an operand byte.
pub trait BinaryOperation {
    /// The registers after the operation with operand `value`.
    spec fn effect(&self, cpu: Cpu, value: u8) -> Cpu;

    fn calc_and_set(&self, nes: &mut Nes, value: u8)
        requires
            old(nes).wf(),
        ensures
            final(nes).wf(),
            final(nes)@ == with_cpu(old(nes)@, self.effect(old(nes)@.cpu, value)),
    ;
}

/// An operation with no operand, on the registers or the stack.
pub trait ImplOperation {
    /// The machine after the operation.
    spec fn effect(&self, m: NesModel) -> NesModel;

    fn calc_and_set(&self, nes: &mut Nes)
        requires
            old(nes).wf(),
        ensures
            final(nes).wf(),
            final(nes)@ == self.effect(old(nes)@),
    ;
}

/// A register as the source of a store or the destination of a load.
pub trait RegOperations {
    /// The registers after loading `value`.
    spec fn loaded(&self, cpu: Cpu, value: u8) -> Cpu;

    /// The byte that a store writes.
    spec fn stored(&self, cpu: Cpu) -> u8;

    fn load(&self, nes: &mut Nes, value: u8)
        requires
            old(nes).wf(),
        ensures
            final(nes).wf(),
            final(nes)@ == with_cpu(old(nes)@, self.loaded(old(nes)@.cpu, value)),
    ;

    fn read(&self, nes: &Nes) -> (r: u8)
        ensures
            r == self.stored(nes.cpu),
    ;
}

/// A read-modify-write operation on a memory byte.
pub trait MemCalcOperation {
    /// The registers after the operation and the byte written back.
    spec fn effect(&self, cpu: Cpu, value: u8) -> (Cpu, u8);

    fn calc(&self, nes: &mut Nes, value: u8) -> (r: u8)
        requires
            old(nes).wf(),
        ensures
            final(nes).wf(),
            (final(nes)@.cpu, r) == self.effect(old(nes)@.cpu, value),
            final(nes)@ == with_cpu(old(nes)@, final(nes)@.cpu),
    ;
}

/// The condition of a conditional branch.
pub trait BranchOperation {
    /// Whether the branch is taken.
    spec fn taken(&self, cpu: Cpu) -> bool;

    fn branch(&self, nes: &Nes) -> (r: bool)
        ensures
            r == self.taken(nes.cpu),
    ;
}

/// A test of a memory byte against the registers.
pub trait TestOperation {
    /// The registers after testing `m`.
    spec fn effect(&self, cpu: Cpu, m: u8) -> Cpu;

    fn test(&self, nes: &mut Nes, m: u8)
        requires
            old(nes).wf(),
        ensures
            final(nes).wf(),
            final(nes)@ == with_cpu(old(nes)@, self.effect(old(nes)@.cpu, m)),
    ;
}

/// A = A | M.
pub struct ORA;

impl BinaryOperation for ORA {
    open spec fn effect(&self, cpu: Cpu, value: u8) -> Cpu {
        load_a(cpu, cpu.a | value)
    }

    fn calc_and_set(&self, nes: &mut Nes, value: u8) {
        let res = nes.cpu.a | value;
        proof {
            lemma_sign_bit(res);
        }
        let mut p = nes.cpu.p;
        p.set(Status::Z, res == 0);
        p.set(Status::N, res & 0x80 != 0);
        nes.cpu.p = p;
        nes.cpu.a = res;
    }
}

/// A = A & M.
pub struct AND;

impl BinaryOperation for AND {
    open spec fn effect(&self, cpu: Cpu, value: u8) -> Cpu {
        load_a(cpu, cpu.a & value)
    }

    fn calc_and_set(&self, nes: &mut Nes, value: u8) {
        let res = nes.cpu.a & value;
        proof {
            lemma_sign_bit(res);
        }
        let mut p = nes.cpu.p;
        p.set(Status::Z, res == 0);
        p.set(Status::N, res & 0x80 != 0);
        nes.cpu.p = p;
        nes.cpu.a = res;
    }
}

/// A = A ^ M.
pub struct EOR;

impl BinaryOperation for EOR {
    open spec fn effect(&self, cpu: Cpu, value: u8) -> Cpu {
        load_a(cpu, cpu.a ^ value)
    }

    fn calc_and_set(&self, nes: &mut Nes, value: u8) {
        let res = nes.cpu.a ^ value;
        proof {
            lemma_sign_bit(res);
        }
        let mut p = nes.cpu.p;
        p.set(Status::Z, res == 0);
        p.set(Status::N, res & 0x80 != 0);
        nes.cpu.p = p;
        nes.cpu.a = res;
    }
}

/// A = A + M + C.
pub struct ADC;

impl BinaryOperation for ADC {
    open spec fn effect(&self, cpu: Cpu, value: u8) -> Cpu {
        adc(cpu, value)
    }

    fn calc_and_set(&self, nes: &mut Nes, value: u8) {
        let c: u16 = if nes.cpu.p.contains(Status::C) { 1 } else { 0 };
        let a = nes.cpu.a;
        let res: u16 = (a as u16) + (value as u16) + c;
        proof {
            lemma_sum_flags(a, value, c);
        }
        let mut p = nes.cpu.p;
        p.set(Status::Z, res & 0xFF == 0);
        p.set(Status::C, res & 0x100 != 0);
        p.set(Status::N, res & 0x80 != 0);
        p.set(Status::V, (a ^ res as u8) & (value ^ res as u8) & 0x80 != 0);
        nes.cpu.p = p;
        nes.cpu.a = res as u8;
    }
}

/// A = A - M - (1 - C): addition of the complement of M.
pub struct SBC;

impl BinaryOperation for SBC {
    open spec fn effect(&self, cpu: Cpu, value: u8) -> Cpu {
        adc(cpu, !value)
    }

    fn calc_and_set(&self, nes: &mut Nes, value: u8) {
        let c: u16 = if nes.cpu.p.contains(Status::C) { 1 } else { 0 };
        let a = nes.cpu.a;
        let not_value = !value;
        let res: u16 = (a as u16) + (not_value as u16) + c;
        proof {
            lemma_sum_flags(a, not_value, c);
        }
        let mut p = nes.cpu.p;
        p.set(Status::Z, res & 0xFF == 0);
        p.set(Status::C, res & 0x100 != 0);
        p.set(Status::N, res & 0x80 != 0);
        p.set(Status::V, (a ^ res as u8) & (not_value ^ res as u8) & 0x80 != 0);
        nes.cpu.p = p;
        nes.cpu.a = res as u8;
    }
}

/// Arithmetic shift left: C = bit 7, the byte shifted left.
pub struct ASL;

/// The flags after shifting `v` left into `r`.
pub open spec fn asl_flags(p: u8, v: u8) -> u8 {
    set_nz(with_bits(p, Status::C, v >= 128), shl1(v))
}

impl BinaryOperation for ASL {
    open spec fn effect(&self, cpu: Cpu, value: u8) -> Cpu {
        Cpu { a: shl1(value), p: Status { bits: asl_flags(cpu.p.bits, value) }, ..cpu }
    }

    fn calc_and_set(&self, nes: &mut Nes, value: u8) {
        let a = value;
        proof {
            lemma_shift_facts(a, 0);
        }
        let mut p = nes.cpu.p;
        p.set(Status::C, a & 0x80 != 0);
        let res = a << 1u8;
        proof {
            lemma_sign_bit(res);
        }
        p.set(Status::Z, res == 0);
        p.set(Status::N, res & 0x80 != 0);
        nes.cpu.p = p;
        nes.cpu.a = res;
    }
}

impl MemCalcOperation for ASL {
    open spec fn effect(&self, cpu: Cpu, value: u8) -> (Cpu, u8) {
        (Cpu { p: Status { bits: asl_flags(cpu.p.bits, value) }, ..cpu }, shl1(value))
    }

    fn calc(&self, nes: &mut Nes, value: u8) -> (r: u8) {
        proof {
            lemma_shift_facts(value, 0);
        }
        let mut p = nes.cpu.p;
        p.set(Status::C, value & 0x80 != 0);
        let res = value << 1u8;
        proof {
            lemma_sign_bit(res);
        }
        p.set(Status::Z, res == 0);
        p.set(Status::N, res & 0x80 != 0);
        nes.cpu.p = p;
        res
    }
}

/// Logical shift right: C = bit 0, the byte shifted right.
pub struct LSR;

/// The flags after shifting `v` right.
pub open spec fn lsr_flags(p: u8, v: u8) -> u8 {
    set_nz(with_bits(p, Status::C, v % 2 == 1), v / 2)
}

impl BinaryOperation for LSR {
    open spec fn effect(&self, cpu: Cpu, value: u8) -> Cpu {
        Cpu { a: value / 2, p: Status { bits: lsr_flags(cpu.p.bits, value) }, ..cpu }
    }

    fn calc_and_set(&self, nes: &mut Nes, value: u8) {
        let a = value;
        proof {
            lemma_shift_facts(a, 0);
        }
        let mut p = nes.cpu.p;
        p.set(Status::C, a & 0x01 != 0);
        let res = a >> 1u8;
        proof {
            lemma_sign_bit(res);
        }
        p.set(Status::Z, res == 0);
        p.set(Status::N, res & 0x80 != 0);
        nes.cpu.p = p;
        nes.cpu.a = res;
    }
}

impl MemCalcOperation for LSR {
    open spec fn effect(&self, cpu: Cpu, value: u8) -> (Cpu, u8) {
        (Cpu { p: Status { bits: lsr_flags(cpu.p.bits, value) }, ..cpu }, value / 2)
    }

    fn calc(&self, nes: &mut Nes, value: u8) -> (r: u8) {
        proof {
            lemma_shift_facts(value, 0);
        }
        let mut p = nes.cpu.p;
        p.set(Status::C, value & 0x01 != 0);
        let res = value >> 1u8;
        proof {
            lemma_sign_bit(res);
        }
        p.set(Status::Z, res == 0);
        p.set(Status::N, res & 0x80 != 0);
        nes.cpu.p = p;
        res
    }
}

/// Rotate left through carry: C = bit 7, the byte shifted left with the old C in bit 0.
pub struct ROL;

/// The flags after rotating `v` left with carry `c`.
pub open spec fn rol_flags(p: u8, v: u8, c: int) -> u8 {
    set_nz(with_bits(p, Status::C, v >= 128), rol(v, c))
}

impl BinaryOperation for ROL {
    open spec fn effect(&self, cpu: Cpu, value: u8) -> Cpu {
        Cpu { a: rol(value, carry(cpu.p)), p: Status { bits: rol_flags(cpu.p.bits, value, carry(cpu.p)) }, ..cpu }
    }

    fn calc_and_set(&self, nes: &mut Nes, value: u8) {
        let mut p = nes.cpu.p;
        let lsb: u16 = if p.contains(Status::C) { 1 } else { 0 };
        proof {
            lemma_shift_facts(value, lsb as u8);
        }
        let a: u16 = ((value as u16) << 1u16) | lsb;
        p.set(Status::C, a & 0x100 != 0);
        let res = a as u8;
        proof {
            lemma_sign_bit(res);
        }
        p.set(Status::Z, res == 0);
        p.set(Status::N, res & 0x80 != 0);
        nes.cpu.p = p;
        nes.cpu.a = res;
    }
}

impl MemCalcOperation for ROL {
    open spec fn effect(&self, cpu: Cpu, value: u8) -> (Cpu, u8) {
        (Cpu { p: Status { bits: rol_flags(cpu.p.bits, value, carry(cpu.p)) }, ..cpu }, rol(value, carry(cpu.p)))
    }

    fn calc(&self, nes: &mut Nes, value: u8) -> (r: u8) {
        let lsb: u8 = if nes.cpu.p.contains(Status::C) { 1 } else { 0 };
        proof {
            lemma_shift_facts(value, lsb);
        }
        let mut p = nes.cpu.p;
        p.set(Status::C, value & 0x80 != 0);
        let res = (value << 1u8) | lsb;
        proof {
            lemma_sign_bit(res);
        }
        p.set(Status::Z, res == 0);
        p.set(Status::N, res & 0x80 != 0);
        nes.cpu.p = p;
        res
    }
}

/// Rotate right through carry: C = bit 0, the byte shifted right with the old C in bit 7.
pub struct ROR;

/// The flags after rotating `v` right with carry `c`.
pub open spec fn ror_flags(p: u8, v: u8, c: int) -> u8 {
    set_nz(with_bits(p, Status::C, v % 2 == 1), ror(v, c))
}

impl BinaryOperation for ROR {
    open spec fn effect(&self, cpu: Cpu, value: u8) -> Cpu {
        Cpu { a: ror(value, carry(cpu.p)), p: Status { bits: ror_flags(cpu.p.bits, value, carry(cpu.p)) }, ..cpu }
    }

    fn calc_and_set(&self, nes: &mut Nes, value: u8) {
        let c: u16 = if nes.cpu.p.contains(Status::C) { 1 } else { 0 };
        proof {
            lemma_shift_facts(value, c as u8);
        }
        let s: u16 = c << 8u16;
        let a: u16 = (value as u16) | s;
        let mut p = nes.cpu.p;
        p.set(Status::C, a & 0x001 != 0);
        let res = (a >> 1u16) as u8;
        proof {
            lemma_sign_bit(res);
        }
        p.set(Status::Z, res == 0);
        p.set(Status::N, res & 0x80 != 0);
        nes.cpu.p = p;
        nes.cpu.a = res;
    }
}

impl MemCalcOperation for ROR {
    open spec fn effect(&self, cpu: Cpu, value: u8) -> (Cpu, u8) {
        (Cpu { p: Status { bits: ror_flags(cpu.p.bits, value, carry(cpu.p)) }, ..cpu }, ror(value, carry(cpu.p)))
    }

    fn calc(&self, nes: &mut Nes, value: u8) -> (r: u8) {
        let mut p = nes.cpu.p;
        let c: u8 = if p.contains(Status::C) { 1 } else { 0 };
        proof {
            lemma_shift_facts(value, c);
        }
        let msb: u8 = c << 7u8;
        p.set(Status::C, value & 0x01 != 0);
        let res = (value >> 1u8) | msb;
        proof {
            lemma_sign_bit(res);
        }
        p.set(Status::Z, res == 0);
        p.set(Status::N, res & 0x80 != 0);
        nes.cpu.p = p;
        res
    }
}

/// Compare A with M.
pub struct CMP;

impl BinaryOperation for CMP {
    open spec fn effect(&self, cpu: Cpu, value: u8) -> Cpu {
        Cpu { p: Status { bits: compare(cpu.p.bits, cpu.a, value) }, ..cpu }
    }

    fn calc_and_set(&self, nes: &mut Nes, value: u8) {
        let a = nes.cpu.a;
        proof {
            lemma_compare_flags(a, value);
        }
        let res: i16 = a as i16 - value as i16;
        let mut p = nes.cpu.p;
        p.set(Status::Z, res == 0);
        p.set(Status::C, res >= 0);
        p.set(Status::N, res & 0x80 != 0);
        nes.cpu.p = p;
    }
}

/// Compare X with M.
pub struct CPX;

impl BinaryOperation for CPX {
    open spec fn effect(&self, cpu: Cpu, value: u8) -> Cpu {
        Cpu { p: Status { bits: compare(cpu.p.bits, cpu.x, value) }, ..cpu }
    }

    fn calc_and_set(&self, nes: &mut Nes, value: u8) {
        let x = nes.cpu.x;
        proof {
            lemma_compare_flags(x, value);
        }
        let res: i16 = x as i16 - value as i16;
        let mut p = nes.cpu.p;
        p.set(Status::Z, res == 0);
        p.set(Status::C, res >= 0);
        p.set(Status::N, res & 0x80 != 0);
        nes.cpu.p = p;
    }
}

/// Compare Y with M.
pub struct CPY;

impl BinaryOperation for CPY {
    open spec fn effect(&self, cpu: Cpu, value: u8) -> Cpu {
        Cpu { p: Status { bits: compare(cpu.p.bits, cpu.y, value) }, ..cpu }
    }

    fn calc_and_set(&self, nes: &mut Nes, value: u8) {
        let y = nes.cpu.y;
        proof {
            lemma_compare_flags(y, value);
        }
        let res: i16 = y as i16 - value as i16;
        let mut p = nes.cpu.p;
        p.set(Status::Z, res == 0);
        p.set(Status::C, res >= 0);
        p.set(Status::N, res & 0x80 != 0);
        nes.cpu.p = p;
    }
}

/// Push P, with the break flag set in the pushed copy.
pub struct PHP;

impl ImplOperation for PHP {
    open spec fn effect(&self, m: NesModel) -> NesModel {
        push_spec(m, m.cpu.p.bits | Status::B)
    }

    fn calc_and_set(&self, nes: &mut Nes) {
        let p = nes.cpu.p;
        Cpu::push(nes, p.bits() | 0x10);
    }
}

/// Pull P; the break flag is cleared and the unused flag set.
pub struct PLP;

impl ImplOperation for PLP {
    open spec fn effect(&self, m: NesModel) -> NesModel {
        let (m1, b) = pop_spec(m);
        with_cpu(m1, Cpu { p: Status { bits: with_bits(with_bits(b, Status::B, false), Status::U, true) }, ..m1.cpu })
    }

    fn calc_and_set(&self, nes: &mut Nes) {
        let mut p = Status::from_bits_truncate(Cpu::pop(nes));
        p.set(Status::B, false);
        p.set(Status::U, true);
        nes.cpu.p = p;
    }
}

/// Push A.
pub struct PHA;

impl ImplOperation for PHA {
    open spec fn effect(&self, m: NesModel) -> NesModel {
        push_spec(m, m.cpu.a)
    }

    fn calc_and_set(&self, nes: &mut Nes) {
        let a = nes.cpu.a;
        Cpu::push(nes, a);
    }
}

/// Pull A; Z and N describe it.
pub struct PLA;

impl ImplOperation for PLA {
    open spec fn effect(&self, m: NesModel) -> NesModel {
        let (m1, b) = pop_spec(m);
        with_cpu(m1, load_a(m1.cpu, b))
    }

    fn calc_and_set(&self, nes: &mut Nes) {
        let a = Cpu::pop(nes);
        proof {
            lemma_sign_bit(a);
        }
        let mut p = nes.cpu.p;
        p.set(Status::Z, a == 0);
        p.set(Status::N, a & 0x80 != 0);
        nes.cpu.p = p;
        nes.cpu.a = a;
    }
}

/// Clear carry.
pub struct CLC;

impl ImplOperation for CLC {
    open spec fn effect(&self, m: NesModel) -> NesModel {
        with_cpu(m, Cpu { p: Status { bits: with_bits(m.cpu.p.bits, Status::C, false) }, ..m.cpu })
    }

    fn calc_and_set(&self, nes: &mut Nes) {
        nes.cpu.p = nes.cpu.p.difference(Status::C);
    }
}

/// Set carry.
pub struct SEC;

impl ImplOperation for SEC {
    open spec fn effect(&self, m: NesModel) -> NesModel {
        with_cpu(m, Cpu { p: Status { bits: with_bits(m.cpu.p.bits, Status::C, true) }, ..m.cpu })
    }

    fn calc_and_set(&self, nes: &mut Nes) {
        nes.cpu.p = nes.cpu.p.union(Status::C);
    }
}

/// Clear interrupt disable.
pub struct CLI;

impl ImplOperation for CLI {
    open spec fn effect(&self, m: NesModel) -> NesModel {
        with_cpu(m, Cpu { p: Status { bits: with_bits(m.cpu.p.bits, Status::I, false) }, ..m.cpu })
    }

    fn calc_and_set(&self, nes: &mut Nes) {
        nes.cpu.p = nes.cpu.p.difference(Status::I);
    }
}

/// Set interrupt disable.
pub struct SEI;

impl ImplOperation for SEI {
    open spec fn effect(&self, m: NesModel) -> NesModel {
        with_cpu(m, Cpu { p: Status { bits: with_bits(m.cpu.p.bits, Status::I, true) }, ..m.cpu })
    }

    fn calc_and_set(&self, nes: &mut Nes) {
        nes.cpu.p = nes.cpu.p.union(Status::I);
    }
}

/// Clear overflow.
pub struct CLV;

impl ImplOperation for CLV {
    open spec fn effect(&self, m: NesModel) -> NesModel {
        with_cpu(m, Cpu { p: Status { bits: with_bits(m.cpu.p.bits, Status::V, false) }, ..m.cpu })
    }

    fn calc_and_set(&self, nes: &mut Nes) {
        nes.cpu.p = nes.cpu.p.difference(Status::V);
    }
}

/// Clear decimal mode.
pub struct CLD;

impl ImplOperation for CLD {
    open spec fn effect(&self, m: NesModel) -> NesModel {
        with_cpu(m, Cpu { p: Status { bits: with_bits(m.cpu.p.bits, Status::D, false) }, ..m.cpu })
    }

    fn calc_and_set(&self, nes: &mut Nes) {
        nes.cpu.p = nes.cpu.p.difference(Status::D);
    }
}

/// Set decimal mode.
pub struct SED;

impl ImplOperation for SED {
    open spec fn effect(&self, m: NesModel) -> NesModel {
        with_cpu(m, Cpu { p: Status { bits: with_bits(m.cpu.p.bits, Status::D, true) }, ..m.cpu })
    }

    fn calc_and_set(&self, nes: &mut Nes) {
        nes.cpu.p = nes.cpu.p.union(Status::D);
    }
}

/// Y = Y - 1. (wrapping); Z and N describe the result.
pub struct DEY;

impl ImplOperation for DEY {
    open spec fn effect(&self, m: NesModel) -> NesModel {
        let v = m.cpu.y.wrapping_sub(1);
        with_cpu(m, Cpu { y: v, p: Status { bits: set_nz(m.cpu.p.bits, v) }, ..m.cpu })
    }

    fn calc_and_set(&self, nes: &mut Nes) {
        let y = nes.cpu.y.wrapping_sub(1);
        proof {
            lemma_sign_bit(y);
        }
        let mut p = nes.cpu.p;
        p.set(Status::Z, y == 0);
        p.set(Status::N, y & 0x80 != 0);
        nes.cpu.p = p;
        nes.cpu.y = y;
    }
}

/// Y = Y + 1. (wrapping); Z and N describe the result.
pub struct INY;

impl ImplOperation for INY {
    open spec fn effect(&self, m: NesModel) -> NesModel {
        let v = m.cpu.y.wrapping_add(1);
        with_cpu(m, Cpu { y: v, p: Status { bits: set_nz(m.cpu.p.bits, v) }, ..m.cpu })
    }

    fn calc_and_set(&self, nes: &mut Nes) {
        let y = nes.cpu.y.wrapping_add(1);
        proof {
            lemma_sign_bit(y);
        }
        let mut p = nes.cpu.p;
        p.set(Status::Z, y == 0);
        p.set(Status::N, y & 0x80 != 0);
        nes.cpu.p = p;
        nes.cpu.y = y;
    }
}

/// X = X - 1. (wrapping); Z and N describe the result.
pub struct DEX;

impl ImplOperation for DEX {
    open spec fn effect(&self, m: NesModel) -> NesModel {
        let v = m.cpu.x.wrapping_sub(1);
        with_cpu(m, Cpu { x: v, p: Status { bits: set_nz(m.cpu.p.bits, v) }, ..m.cpu })
    }

    fn calc_and_set(&self, nes: &mut Nes) {
        let x = nes.cpu.x.wrapping_sub(1);
        proof {
            lemma_sign_bit(x);
        }
        let mut p = nes.cpu.p;
        p.set(Status::Z, x == 0);
        p.set(Status::N, x & 0x80 != 0);
        nes.cpu.p = p;
        nes.cpu.x = x;
    }
}

/// X = X + 1. (wrapping); Z and N describe the result.
pub struct INX;

impl ImplOperation for INX {
    open spec fn effect(&self, m: NesModel) -> NesModel {
        let v = m.cpu.x.wrapping_add(1);
        with_cpu(m, Cpu { x: v, p: Status { bits: set_nz(m.cpu.p.bits, v) }, ..m.cpu })
    }

    fn calc_and_set(&self, nes: &mut Nes) {
        let x = nes.cpu.x.wrapping_add(1);
        proof {
            lemma_sign_bit(x);
        }
        let mut p = nes.cpu.p;
        p.set(Status::Z, x == 0);
        p.set(Status::N, x & 0x80 != 0);
        nes.cpu.p = p;
        nes.cpu.x = x;
    }
}

/// No operation.
pub struct NOP;

impl ImplOperation for NOP {
    open spec fn effect(&self, m: NesModel) -> NesModel {
        m
    }

    fn calc_and_set(&self, nes: &mut Nes) {
    }
}

impl RegOperations for NOP {
    open spec fn loaded(&self, cpu: Cpu, value: u8) -> Cpu {
        cpu
    }

    open spec fn stored(&self, cpu: Cpu) -> u8 {
        0
    }

    fn load(&self, nes: &mut Nes, value: u8) {
    }

    fn read(&self, nes: &Nes) -> (r: u8) {
        0
    }
}

/// Register A: a load sets Z and N.
pub struct RegA;

impl RegOperations for RegA {
    open spec fn loaded(&self, cpu: Cpu, value: u8) -> Cpu {
        Cpu { a: value, p: Status { bits: set_nz(cpu.p.bits, value) }, ..cpu }
    }

    open spec fn stored(&self, cpu: Cpu) -> u8 {
        cpu.a
    }

    fn load(&self, nes: &mut Nes, value: u8) {
        proof {
            lemma_sign_bit(value);
        }
        let mut p = nes.cpu.p;
        p.set(Status::Z, value == 0);
        p.set(Status::N, value & 0x80 != 0);
        nes.cpu.p = p;
        nes.cpu.a = value;
    }

    fn read(&self, nes: &Nes) -> (r: u8) {
        nes.cpu.a
    }
}

/// Register Y: a load sets Z and N.
pub struct RegY;

impl RegOperations for RegY {
    open spec fn loaded(&self, cpu: Cpu, value: u8) -> Cpu {
        Cpu { y: value, p: Status { bits: set_nz(cpu.p.bits, value) }, ..cpu }
    }

    open spec fn stored(&self, cpu: Cpu) -> u8 {
        cpu.y
    }

    fn load(&self, nes: &mut Nes, value: u8) {
        proof {
            lemma_sign_bit(value);
        }
        let mut p = nes.cpu.p;
        p.set(Status::Z, value == 0);
        p.set(Status::N, value & 0x80 != 0);
        nes.cpu.p = p;
        nes.cpu.y = value;
    }

    fn read(&self, nes: &Nes) -> (r: u8) {
        nes.cpu.y
    }
}

/// Register X: a load sets Z and N.
pub struct RegX;

impl RegOperations for RegX {
    open spec fn loaded(&self, cpu: Cpu, value: u8) -> Cpu {
        Cpu { x: value, p: Status { bits: set_nz(cpu.p.bits, value) }, ..cpu }
    }

    open spec fn stored(&self, cpu: Cpu) -> u8 {
        cpu.x
    }

    fn load(&self, nes: &mut Nes, value: u8) {
        proof {
            lemma_sign_bit(value);
        }
        let mut p = nes.cpu.p;
        p.set(Status::Z, value == 0);
        p.set(Status::N, value & 0x80 != 0);
        nes.cpu.p = p;
        nes.cpu.x = value;
    }

    fn read(&self, nes: &Nes) -> (r: u8) {
        nes.cpu.x
    }
}

/// The stack pointer: a load sets no flag.
pub struct RegS;

impl RegOperations for RegS {
    open spec fn loaded(&self, cpu: Cpu, value: u8) -> Cpu {
        Cpu { s: value, ..cpu }
    }

    open spec fn stored(&self, cpu: Cpu) -> u8 {
        cpu.s
    }

    fn load(&self, nes: &mut Nes, value: u8) {
        nes.cpu.s = value;
    }

    fn read(&self, nes: &Nes) -> (r: u8) {
        nes.cpu.s
    }
}

/// Decrement memory; Z and N describe the result.
pub struct DEC;

impl MemCalcOperation for DEC {
    open spec fn effect(&self, cpu: Cpu, value: u8) -> (Cpu, u8) {
        let r = value.wrapping_sub(1);
        (Cpu { p: Status { bits: set_nz(cpu.p.bits, r) }, ..cpu }, r)
    }

    fn calc(&self, nes: &mut Nes, value: u8) -> (r: u8) {
        let res = value.wrapping_sub(1);
        proof {
            lemma_sign_bit(res);
        }
        let mut p = nes.cpu.p;
        p.set(Status::Z, res == 0);
        p.set(Status::N, res & 0x80 != 0);
        nes.cpu.p = p;
        res
    }
}

/// Increment memory; Z and N describe the result.
pub struct INC;

impl MemCalcOperation for INC {
    open spec fn effect(&self, cpu: Cpu, value: u8) -> (Cpu, u8) {
        let r = value.wrapping_add(1);
        (Cpu { p: Status { bits: set_nz(cpu.p.bits, r) }, ..cpu }, r)
    }

    fn calc(&self, nes: &mut Nes, value: u8) -> (r: u8) {
        let res = value.wrapping_add(1);
        proof {
            lemma_sign_bit(res);
        }
        let mut p = nes.cpu.p;
        p.set(Status::Z, res == 0);
        p.set(Status::N, res & 0x80 != 0);
        nes.cpu.p = p;
        res
    }
}

/// Branch on plus (N clear).
pub struct BPL;

impl BranchOperation for BPL {
    open spec fn taken(&self, cpu: Cpu) -> bool {
        !(cpu.p.bits & Status::N == Status::N)
    }

    fn branch(&self, nes: &Nes) -> (r: bool) {
        !nes.cpu.p.contains(Status::N)
    }
}

/// Branch on minus (N set).
pub struct BMI;

impl BranchOperation for BMI {
    open spec fn taken(&self, cpu: Cpu) -> bool {
        (cpu.p.bits & Status::N == Status::N)
    }

    fn branch(&self, nes: &Nes) -> (r: bool) {
        nes.cpu.p.contains(Status::N)
    }
}

/// Branch on overflow clear.
pub struct BVC;

impl BranchOperation for BVC {
    open spec fn taken(&self, cpu: Cpu) -> bool {
        !(cpu.p.bits & Status::V == Status::V)
    }

    fn branch(&self, nes: &Nes) -> (r: bool) {
        !nes.cpu.p.contains(Status::V)
    }
}

/// Branch on overflow set.
pub struct BVS;

impl BranchOperation for BVS {
    open spec fn taken(&self, cpu: Cpu) -> bool {
        (cpu.p.bits & Status::V == Status::V)
    }

    fn branch(&self, nes: &Nes) -> (r: bool) {
        nes.cpu.p.contains(Status::V)
    }
}

/// Branch on carry clear.
pub struct BCC;

impl BranchOperation for BCC {
    open spec fn taken(&self, cpu: Cpu) -> bool {
        !(cpu.p.bits & Status::C == Status::C)
    }

    fn branch(&self, nes: &Nes) -> (r: bool) {
        !nes.cpu.p.contains(Status::C)
    }
}

/// Branch on carry set.
pub struct BCS;

impl BranchOperation for BCS {
    open spec fn taken(&self, cpu: Cpu) -> bool {
        (cpu.p.bits & Status::C == Status::C)
    }

    fn branch(&self, nes: &Nes) -> (r: bool) {
        nes.cpu.p.contains(Status::C)
    }
}

/// Branch on not equal (Z clear).
pub struct BNE;

impl BranchOperation for BNE {
    open spec fn taken(&self, cpu: Cpu) -> bool {
        !(cpu.p.bits & Status::Z == Status::Z)
    }

    fn branch(&self, nes: &Nes) -> (r: bool) {
        !nes.cpu.p.contains(Status::Z)
    }
}

/// Branch on equal (Z set).
pub struct BEQ;

impl BranchOperation for BEQ {
    open spec fn taken(&self, cpu: Cpu) -> bool {
        (cpu.p.bits & Status::Z == Status::Z)
    }

    fn branch(&self, nes: &Nes) -> (r: bool) {
        nes.cpu.p.contains(Status::Z)
    }
}

/// Bit test: Z = (A & M) == 0, N = bit 7 of M, V = bit 6 of M.
pub struct BIT;

impl TestOperation for BIT {
    open spec fn effect(&self, cpu: Cpu, m: u8) -> Cpu {
        Cpu {
            p: Status {
                bits: with_bits(with_bits(with_bits(cpu.p.bits, Status::Z, cpu.a & m == 0), Status::N, negative(m)), Status::V, m & 0x40 != 0),
            },
            ..cpu
        }
    }

    fn test(&self, nes: &mut Nes, m: u8) {
        proof {
            lemma_sign_bit(m);
        }
        let res = nes.cpu.a & m;
        let mut p = nes.cpu.p;
        p.set(Status::Z, res == 0);
        p.set(Status::N, m & 0b1000_0000 != 0);
        p.set(Status::V, m & 0b0100_0000 != 0);
        nes.cpu.p = p;
    }
}

/// LAX (undocumented): A = X = M; Z and N describe it.
pub struct LAX;

impl RegOperations for LAX {
    open spec fn loaded(&self, cpu: Cpu, value: u8) -> Cpu {
        Cpu { a: value, x: value, p: Status { bits: set_nz(cpu.p.bits, value) }, ..cpu }
    }

    open spec fn stored(&self, cpu: Cpu) -> u8 {
        0
    }

    fn load(&self, nes: &mut Nes, value: u8) {
        proof {
            lemma_sign_bit(value);
        }
        let mut p = nes.cpu.p;
        p.set(Status::Z, value == 0);
        p.set(Status::N, value & 0x80 != 0);
        nes.cpu.p = p;
        nes.cpu.a = value;
        nes.cpu.x = value;
    }

    fn read(&self, nes: &Nes) -> (r: u8) {
        0
    }
}

/// SAX (undocumented): stores A & X; sets no flag.
pub struct SAX;

impl RegOperations for SAX {
    open spec fn loaded(&self, cpu: Cpu, value: u8) -> Cpu {
        cpu
    }

    open spec fn stored(&self, cpu: Cpu) -> u8 {
        cpu.a & cpu.x
    }

    fn load(&self, nes: &mut Nes, value: u8) {
    }

    fn read(&self, nes: &Nes) -> (r: u8) {
        let a = nes.cpu.a;
        let x = nes.cpu.x;
        a & x
    }
}

/// DCP (undocumented): decrement memory, then compare A with the result.
pub struct DCP;

impl MemCalcOperation for DCP {
    open spec fn effect(&self, cpu: Cpu, value: u8) -> (Cpu, u8) {
        let r = value.wrapping_sub(1);
        (Cpu { p: Status { bits: compare(cpu.p.bits, cpu.a, r) }, ..cpu }, r)
    }

    fn calc(&self, nes: &mut Nes, value: u8) -> (r: u8) {
        let res = value.wrapping_sub(1);
        let a = nes.cpu.a;
        proof {
            lemma_compare_flags(a, res);
        }
        let tmp: i16 = a as i16 - res as i16;
        let mut p = nes.cpu.p;
        p.set(Status::Z, tmp == 0);
        p.set(Status::C, tmp >= 0);
        p.set(Status::N, tmp & 0x80 != 0);
        nes.cpu.p = p;
        res
    }
}

/// ISB (undocumented): increment memory, then subtract the result from A.
pub struct ISB;

impl MemCalcOperation for ISB {
    open spec fn effect(&self, cpu: Cpu, value: u8) -> (Cpu, u8) {
        let t = value.wrapping_add(1);
        (adc(cpu, !t), t)
    }

    fn calc(&self, nes: &mut Nes, value: u8) -> (r: u8) {
        let tmp = value.wrapping_add(1);
        let c: u16 = if nes.cpu.p.contains(Status::C) { 1 } else { 0 };
        let a = nes.cpu.a;
        let not_value = !tmp;
        let res: u16 = (a as u16) + (not_value as u16) + c;
        proof {
            lemma_sum_flags(a, not_value, c);
        }
        let mut p = nes.cpu.p;
        p.set(Status::Z, res & 0xFF == 0);
        p.set(Status::C, res & 0x100 != 0);
        p.set(Status::N, res & 0x80 != 0);
        p.set(Status::V, (a ^ res as u8) & (not_value ^ res as u8) & 0x80 != 0);
        nes.cpu.p = p;
        nes.cpu.a = res as u8;
        tmp
    }
}

/// SLO (undocumented): shift memory left, then A = A | result.
pub struct SLO;

impl MemCalcOperation for SLO {
    open spec fn effect(&self, cpu: Cpu, value: u8) -> (Cpu, u8) {
        let t = shl1(value);
        let r = cpu.a | t;
        (Cpu { a: r, p: Status { bits: set_nz(with_bits(cpu.p.bits, Status::C, value >= 128), r) }, ..cpu }, t)
    }

    fn calc(&self, nes: &mut Nes, value: u8) -> (r: u8) {
        proof {
            lemma_shift_facts(value, 0);
        }
        let mut p = nes.cpu.p;
        p.set(Status::C, value & 0x80 != 0);
        let tmp = value << 1u8;
        let res = nes.cpu.a | tmp;
        proof {
            lemma_sign_bit(res);
        }
        p.set(Status::Z, res == 0);
        p.set(Status::N, res & 0x80 != 0);
        nes.cpu.p = p;
        nes.cpu.a = res;
        tmp
    }
}

/// RLA (undocumented): rotate memory left, then A = A & result.
pub struct RLA;

impl MemCalcOperation for RLA {
    open spec fn effect(&self, cpu: Cpu, value: u8) -> (Cpu, u8) {
        let t = rol(value, carry(cpu.p));
        let r = cpu.a & t;
        (Cpu { a: r, p: Status { bits: set_nz(with_bits(cpu.p.bits, Status::C, value >= 128), r) }, ..cpu }, t)
    }

    fn calc(&self, nes: &mut Nes, value: u8) -> (r: u8) {
        let mut p = nes.cpu.p;
        let lsb: u8 = if nes.cpu.p.contains(Status::C) { 1 } else { 0 };
        proof {
            lemma_shift_facts(value, lsb);
        }
        p.set(Status::C, value & 0x80 != 0);
        let tmp = (value << 1u8) | lsb;
        let res = nes.cpu.a & tmp;
        proof {
            lemma_sign_bit(res);
        }
        p.set(Status::Z, res == 0);
        p.set(Status::N, res & 0x80 != 0);
        nes.cpu.p = p;
        nes.cpu.a = res;
        tmp
    }
}

/// SRE (undocumented): shift memory right, then A = A ^ result.
pub struct SRE;

impl MemCalcOperation for SRE {
    open spec fn effect(&self, cpu: Cpu, value: u8) -> (Cpu, u8) {
        let t = value / 2;
        let r = cpu.a ^ t;
        (Cpu { a: r, p: Status { bits: set_nz(with_bits(cpu.p.bits, Status::C, value % 2 == 1), r) }, ..cpu }, t)
    }

    fn calc(&self, nes: &mut Nes, value: u8) -> (r: u8) {
        proof {
            lemma_shift_facts(value, 0);
        }
        let mut p = nes.cpu.p;
        p.set(Status::C, value & 0x01 != 0);
        let tmp = value >> 1u8;
        let res = nes.cpu.a ^ tmp;
        proof {
            lemma_sign_bit(res);
        }
        p.set(Status::Z, res == 0);
        p.set(Status::N, res & 0x80 != 0);
        nes.cpu.p = p;
        nes.cpu.a = res;
        tmp
    }
}

/// RRA (undocumented): rotate memory right, then add the result to A with
/// the carry that the rotation shifted out.
pub struct RRA;

impl MemCalcOperation for RRA {
    open spec fn effect(&self, cpu: Cpu, value: u8) -> (Cpu, u8) {
        let t = ror(value, carry(cpu.p));
        let sum = cpu.a + t + value % 2;
        let r = (sum % 256) as u8;
        (
            Cpu {
                a: r,
                p: Status {
                    bits: with_bits(
                        with_bits(with_bits(with_bits(cpu.p.bits, Status::C, sum >= 256), Status::Z, r == 0), Status::N, negative(r)),
                        Status::V,
                        signed_overflow(cpu.a, t, r),
                    ),
                },
                ..cpu
            },
            t,
        )
    }

    fn calc(&self, nes: &mut Nes, value: u8) -> (r: u8) {
        let mut p = nes.cpu.p;
        let cin: u8 = if p.contains(Status::C) { 1 } else { 0 };
        proof {
            lemma_shift_facts(value, cin);
        }
        let msb: u8 = cin << 7u8;
        let c: u8 = value & 0x01;
        assert(c == value % 2) by (bit_vector)
            requires
                c == value & 0x01,
        ;
        let tmp = (value >> 1u8) | msb;
        let a = nes.cpu.a;
        let res: u16 = a as u16 + tmp as u16 + c as u16;
        proof {
            lemma_sum_flags(a, tmp, c as u16);
        }
        p.set(Status::C, res & 0x100 != 0);
        p.set(Status::Z, res & 0x00FF == 0);
        p.set(Status::N, res & 0x80 != 0);
        p.set(Status::V, (a ^ res as u8) & (tmp ^ res as u8) & 0x80 != 0);
        nes.cpu.p = p;
        nes.cpu.a = res as u8;
        tmp
    }
}

} // verus!
