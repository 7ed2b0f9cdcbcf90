//! The arithmetic and logic of the 6502, as mathematical functions of the
//! registers: what each operation computes and which flags it sets.
use vstd::prelude::*;
use crate::cpu::Cpu;
use crate::flags::{Status, with_bits};

verus! {

/// 1 when the carry flag is set, 0 otherwise.
pub open spec fn carry(p: Status) -> int {
    if p.bits & Status::C == Status::C { 1 } else { 0 }
}

/// Whether a byte is negative as a signed number (its top bit is set).
pub open spec fn negative(r: u8) -> bool {
    r >= 0x80
}

/// `p` with Z and N describing the result `r`.
pub open spec fn set_nz(p: u8, r: u8) -> u8 {
    with_bits(with_bits(p, Status::Z, r == 0), Status::N, negative(r))
}

/// `cpu` with `r` loaded into A and Z, N describing it.
pub open spec fn load_a(cpu: Cpu, r: u8) -> Cpu {
    Cpu { a: r, p: Status { bits: set_nz(cpu.p.bits, r) }, ..cpu }
}

/// Whether adding `a` and `v` gives `r` with signed overflow: both operands
/// have the same sign and the result's sign differs.
pub open spec fn signed_overflow(a: u8, v: u8, r: u8) -> bool {
    negative(a) == negative(v) && negative(r) != negative(a)
}

/// Add with carry: A + v + C, with C the carry out of bit 7, V the signed
/// overflow, and Z, N describing the result.
pub open spec fn adc(cpu: Cpu, v: u8) -> Cpu {
    let sum = cpu.a + v + carry(cpu.p);
    let r = (sum % 256) as u8;
    Cpu {
        a: r,
        p: Status {
            bits: with_bits(
                with_bits(with_bits(with_bits(cpu.p.bits, Status::Z, r == 0), Status::C, sum >= 256), Status::N, negative(r)),
                Status::V,
                signed_overflow(cpu.a, v, r),
            ),
        },
        ..cpu
    }
}

/// A comparison of register value `reg` with `v`: Z when equal, C when `reg`
/// is not below `v`, N the sign of the difference.
pub open spec fn compare(p: u8, reg: u8, v: u8) -> u8 {
    with_bits(with_bits(with_bits(p, Status::Z, reg == v), Status::C, reg >= v), Status::N, negative(((reg - v) % 256) as u8))
}

/// The byte shifted left one bit (bit 7 drops out).
pub open spec fn shl1(v: u8) -> u8 {
    ((v * 2) % 256) as u8
}

/// Rotate left through carry: the byte shifted left with the old carry in bit 0.
pub open spec fn rol(v: u8, c: int) -> u8 {
    ((v * 2 + c) % 256) as u8
}

/// Rotate right through carry: the byte shifted right with the old carry in bit 7.
pub open spec fn ror(v: u8, c: int) -> u8 {
    (v / 2 + 128 * c) as u8
}

/// The facts about a 9-bit sum that the flags of ADC, SBC, ISB and RRA need.
pub proof fn lemma_sum_flags(a: u8, v: u8, c: u16)
    requires
        c <= 1,
    ensures
        ({
            let res = (a as u16 + v as u16 + c) as u16;
            let r = res as u8;
            &&& r == (a + v + c) % 256
            &&& ((res & 0xFF) == 0) == (r == 0)
            &&& ((res & 0x100) != 0) == (a + v + c >= 256)
            &&& ((res & 0x80) != 0) == negative(r)
            &&& (((a ^ r) & (v ^ r) & 0x80) != 0) == signed_overflow(a, v, r)
        }),
{
    let res = (a as u16 + v as u16 + c) as u16;
    let r = res as u8;
    assert({
        &&& r == (a + v + c) % 256
        &&& ((res & 0xFF) == 0) == (r == 0)
        &&& ((res & 0x100) != 0) == (a + v + c >= 256)
        &&& ((res & 0x80) != 0) == (r >= 0x80)
        &&& (((a ^ r) & (v ^ r) & 0x80) != 0) == ((a >= 0x80) == (v >= 0x80) && (r >= 0x80) != (a >= 0x80))
    }) by (bit_vector)
        requires
            c <= 1,
            res == (a as u16 + v as u16 + c) as u16,
            r == res as u8,
    ;
}

/// The sign test on a byte.
pub proof fn lemma_sign_bit(r: u8)
    ensures
        ((r & 0x80) != 0) == negative(r),
{
    assert(((r & 0x80) != 0) == (r >= 0x80)) by (bit_vector);
}

/// The facts about a subtraction of bytes that the comparisons need.
pub proof fn lemma_compare_flags(reg: u8, v: u8)
    ensures
        ({
            let res = (reg as i16 - v as i16) as i16;
            &&& (res == 0) == (reg == v)
            &&& (res >= 0) == (reg >= v)
            &&& ((res & 0x80) != 0) == negative(((reg - v) % 256) as u8)
        }),
{
    let res = (reg as i16 - v as i16) as i16;
    let d = ((reg - v) % 256) as u8;
    assert(((res & 0x80) != 0) == (d >= 0x80)) by (bit_vector)
        requires
            res == (reg as i16 - v as i16) as i16,
            d == ((reg - v) % 256) as u8,
    ;
}

/// The facts about shifts and rotations of a byte.
pub proof fn lemma_shift_facts(v: u8, c: u8)
    requires
        c <= 1,
    ensures
        ((v & 0x80) != 0) == (v >= 128),
        ((v & 0x01) != 0) == (v % 2 == 1),
        v << 1u8 == shl1(v),
        v >> 1u8 == v / 2,
        (v << 1u8) | c == rol(v, c as int),
        (v >> 1u8) | (c << 7u8) == ror(v, c as int),
        ((((v as u16) << 1u16) | (c as u16)) & 0x100) != 0 == (v >= 128),
        ((((v as u16) << 1u16) | (c as u16)) as u8) == rol(v, c as int),
        (((v as u16) | ((c as u16) << 8u16)) & 0x001) != 0 == (v % 2 == 1),
        ((((v as u16) | ((c as u16) << 8u16)) >> 1u16) as u8) == ror(v, c as int),
{
    assert({
        &&& ((v & 0x80) != 0) == (v >= 128)
        &&& ((v & 0x01) != 0) == (v % 2 == 1)
        &&& v << 1u8 == ((v * 2) % 256) as u8
        &&& v >> 1u8 == v / 2
        &&& (v << 1u8) | c == ((v * 2 + c) % 256) as u8
        &&& (v >> 1u8) | (c << 7u8) == (v / 2 + 128 * c) as u8
        &&& ((((v as u16) << 1u16) | (c as u16)) & 0x100) != 0 == (v >= 128)
        &&& ((((v as u16) << 1u16) | (c as u16)) as u8) == ((v * 2 + c) % 256) as u8
        &&& (((v as u16) | ((c as u16) << 8u16)) & 0x001) != 0 == (v % 2 == 1)
        &&& ((((v as u16) | ((c as u16) << 8u16)) >> 1u16) as u8) == (v / 2 + 128 * c) as u8
    }) by (bit_vector)
        requires
            c <= 1,
    ;
}

} // verus!
