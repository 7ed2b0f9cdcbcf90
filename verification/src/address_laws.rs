//! Where the indexed addressing modes read and write: the operand plus X or
//! Y, wrapping within page zero for the zero-page forms and within the
//! 64 KiB address space for the absolute forms.
use vstd::prelude::*;
use crate::addressings::{
    Addressing, AddressingResult, OpArgModel, abs_idx_load_spec, abs_idx_store_spec, fetch_tick, indexed, indy_calc_spec,
    indy_load_spec, indy_pointer, indy_store_spec, load_reg, read_tick, word, xind_calc_spec, xind_load_spec, xind_store_spec,
    zp_index, zpg_idx_load_spec, zpg_idx_store_spec, zpgy_calc_spec, zpg_load_spec, abs_load_spec, rel_branch_spec,
    branch_target, set_pc,
};
use crate::cpu::{Cpu, fetch_spec};
use crate::laws::lemma_tick_keeps;
use crate::cpu_laws::{lemma_fetch_tick_regs, lemma_read_regs, lemma_tick_regs};
use crate::nes::{NesModel, bus_read, bus_write};
use crate::operations::{BinaryOperation, BranchOperation, RegOperations};
use crate::cpu_laws::signed;
use crate::render::tick_spec;

verus! {

/// Whether `c` is `d` but for the NMI request, which the PPU may raise
/// while an instruction runs.
pub open spec fn same_but_nmi(c: Cpu, d: Cpu) -> bool {
    c == Cpu { nmi: c.nmi, ..d }
}

/// `cpu` with PC advanced by `n` bytes, wrapping at $FFFF.
pub open spec fn pc_after(cpu: Cpu, n: int) -> Cpu {
    Cpu { pc: ((cpu.pc + n) % 65536) as u16, ..cpu }
}

/// The low byte of a 16-bit value, taken by a mask or by truncation; and
/// the little-endian word of two bytes, and a word plus an index wrapping at
/// $FFFF.
proof fn lemma_byte_arith(s: u16, lo: u8, hi: u8, w: u16, i: u8)
    by (bit_vector)
    ensures
        s & 0xFFu16 == s % 256,
        ((s as u8) as u16) == s % 256,
        word(lo, hi) == lo + 256 * hi,
        indexed(w, i) == ((w as u32 + i as u32) % 65536) as u16,
{
}

/// A zero-page index wraps within page zero.
proof fn lemma_zp_index(base: u8, i: u8)
    ensures
        zp_index(base, i) == (base + i) % 256,
{
    let s: u16 = (base as u16 + i as u16) as u16;
    assert(s == base + i);
    lemma_byte_arith(s, 0, 0, 0, 0);
}

/// An absolute index wraps from $FFFF to $0000.
proof fn lemma_abs_index(lo: u8, hi: u8, i: u8)
    ensures
        indexed(word(lo, hi), i) == (lo + 256 * hi + i) % 65536,
{
    lemma_byte_arith(0, lo, hi, word(lo, hi), i);
}

/// Zero-page indexed loads read the byte of work RAM at the operand plus the
/// index register, modulo 256 (Y for the `,Y` form, X for the `,X` form),
/// and load that byte: the access never leaves page zero, work RAM is kept,
/// and the registers after it are those that the operation loads from that
/// byte, with PC past the two bytes of the instruction.
pub proof fn lemma_zpg_indexed_load<O: RegOperations>(m: NesModel, op: O, use_y: bool)
    requires
        m.wf(),
    ensures
        ({
            let (m4, r) = zpg_idx_load_spec(m, op, use_y);
            let a = (r.args[0] + (if use_y { m.cpu.y } else { m.cpu.x })) % 256;
            &&& r.args.len() == 1
            &&& r.addressing == (if use_y { Addressing::ZpgY } else { Addressing::ZpgX })
            &&& r.value == AddressingResult::AbsZpgInfo(a as u16, m.ram[a])
            &&& m4.ram == m.ram
            &&& exists|c: Cpu|
                #[trigger] same_but_nmi(c, pc_after(m.cpu, 2)) && same_but_nmi(m4.cpu, op.loaded(c, m.ram[a]))
        }),
{
    let (m1, _) = fetch_tick(m);
    lemma_fetch_tick_regs(m);
    let (m2, lo) = fetch_tick(m1);
    lemma_fetch_tick_regs(m1);
    let i = if use_y { m2.cpu.y } else { m2.cpu.x };
    lemma_zp_index(lo, i);
    let addr = zp_index(lo, i);
    let (m3r, v) = bus_read(m2, addr);
    assert(m3r == m2 && v == m.ram[addr as int]);
    let m3 = tick_spec(m3r);
    lemma_tick_regs(m3r);
    let m3l = load_reg(m3, op, v);
    lemma_tick_regs(m3l);
    let (m4, r) = zpg_idx_load_spec(m, op, use_y);
    assert(same_but_nmi(m3.cpu, pc_after(m.cpu, 2)));
    assert(same_but_nmi(m4.cpu, op.loaded(m3.cpu, v)));
}

/// Zero-page indexed stores write the byte of the register to work RAM at
/// the operand plus the index register, modulo 256 (Y for the `,Y` form, X
/// for the `,X` form), and change no other byte of work RAM; the registers
/// are kept but for PC, which moves past the two bytes of the instruction.
/// The trace shows the byte that was there when tracing, 0 otherwise.
#[verifier::rlimit(40)]
pub proof fn lemma_zpg_indexed_store<O: RegOperations>(m: NesModel, op: O, use_y: bool)
    requires
        m.wf(),
    ensures
        ({
            let (m5, r) = zpg_idx_store_spec(m, op, use_y);
            let a = (r.args[0] + (if use_y { m.cpu.y } else { m.cpu.x })) % 256;
            &&& r.args.len() == 1
            &&& r.addressing == (if use_y { Addressing::ZpgY } else { Addressing::ZpgX })
            &&& r.value == AddressingResult::AbsZpgInfo(a as u16, if m.trace { m.ram[a] } else { 0 })
            &&& same_but_nmi(m5.cpu, pc_after(m.cpu, 2))
            &&& exists|c: Cpu|
                #[trigger] same_but_nmi(c, pc_after(m.cpu, 2)) && m5.ram == m.ram.update(a, op.stored(c))
        }),
{
    let (m1, _) = fetch_tick(m);
    lemma_fetch_tick_regs(m);
    let (m2, lo) = fetch_tick(m1);
    lemma_fetch_tick_regs(m1);
    let i = if use_y { m2.cpu.y } else { m2.cpu.x };
    lemma_zp_index(lo, i);
    let addr = zp_index(lo, i);
    let v = op.stored(m2.cpu);
    let m3 = tick_spec(m2);
    lemma_tick_regs(m2);
    lemma_read_regs(m, m.cpu.pc);
    lemma_tick_keeps(fetch_spec(m).0);
    lemma_read_regs(m1, m1.cpu.pc);
    lemma_tick_keeps(fetch_spec(m1).0);
    lemma_tick_keeps(m2);
    assert(m3.trace == m.trace);
    assert(addr < 0x100);
    let m4 = if m3.trace { bus_read(m3, addr).0 } else { m3 };
    assert(m4 == m3);
    let m4w = bus_write(m4, addr, v);
    assert(m4w.ram == m.ram.update(addr as int, v));
    assert(m4w.wf());
    lemma_tick_regs(m4w);
    assert(same_but_nmi(m2.cpu, pc_after(m.cpu, 2)));
    let (m5, r) = zpg_idx_store_spec(m, op, use_y);
    assert(m5 == tick_spec(m4w));
    assert(r.value == AddressingResult::AbsZpgInfo(addr, if m.trace { m.ram[addr as int] } else { 0 }));
    assert(m5.ram == m.ram.update(addr as int, op.stored(m2.cpu)));
    assert(same_but_nmi(m5.cpu, pc_after(m.cpu, 2)));
}

/// Absolute indexed loads and stores access the operand word plus the index
/// register (Y for the `,Y` form, X for the `,X` form), modulo $10000.
pub proof fn lemma_abs_indexed_address<O: RegOperations>(m: NesModel, op: O, use_y: bool)
    requires
        m.wf(),
    ensures
        ({
            let (_, r) = abs_idx_load_spec(m, op, use_y);
            let eff = (r.args[0] + 256 * r.args[1] + (if use_y { m.cpu.y } else { m.cpu.x })) % 65536;
            &&& r.args.len() == 2
            &&& r.addressing == (if use_y { Addressing::AbsY } else { Addressing::AbsX })
            &&& r.value matches AddressingResult::AbsZpgInfo(addr, _) && addr == eff
        }),
        ({
            let (_, r) = abs_idx_store_spec(m, op, use_y);
            let eff = (r.args[0] + 256 * r.args[1] + (if use_y { m.cpu.y } else { m.cpu.x })) % 65536;
            &&& r.args.len() == 2
            &&& r.addressing == (if use_y { Addressing::AbsY } else { Addressing::AbsX })
            &&& r.value matches AddressingResult::AbsZpgInfo(addr, _) && addr == eff
        }),
{
    let (m1, _) = fetch_tick(m);
    lemma_fetch_tick_regs(m);
    let (m2, lo) = fetch_tick(m1);
    lemma_fetch_tick_regs(m1);
    let (m3, hi) = fetch_tick(m2);
    lemma_fetch_tick_regs(m2);
    lemma_abs_index(lo, hi, if use_y { m3.cpu.y } else { m3.cpu.x });
}

/// The zero-page `,Y` form of a binary operation reads the byte of work RAM
/// at the operand plus Y, modulo 256.
pub proof fn lemma_zpgy_calc_address<O: BinaryOperation>(m: NesModel, op: O)
    requires
        m.wf(),
    ensures
        ({
            let (_, r) = zpgy_calc_spec(m, op);
            let a = (r.args[0] + m.cpu.y) % 256;
            &&& r.args.len() == 1
            &&& r.value == AddressingResult::AbsZpgInfo(a as u16, m.ram[a])
        }),
{
    let (m1, _) = fetch_tick(m);
    lemma_fetch_tick_regs(m);
    let (m2, lo) = fetch_tick(m1);
    lemma_fetch_tick_regs(m1);
    let addr = lo.wrapping_add(m2.cpu.y) as u16;
    assert(addr == (lo + m.cpu.y) % 256);
    lemma_read_regs(m2, addr);
}

/// What a (zp,X) access reports of its operand: the operand byte, the
/// zero-page address of the pointer (the operand plus X, modulo 256), and
/// the address the pointer holds, read from work RAM low byte first, its
/// high byte from the next zero-page address (wrapping from $FF to $00).
pub open spec fn xind_resolved(m: NesModel, r: OpArgModel) -> bool {
    let t = (r.args[0] + m.cpu.x) % 256;
    &&& r.args.len() == 1
    &&& r.addressing == Addressing::XInd
    &&& match r.value {
        AddressingResult::IndInfo(b, p, a, _) => b == r.args[0] && p == t && a == m.ram[t] + 256 * m.ram[(t + 1) % 256],
        _ => false,
    }
}

/// What a (zp),Y access reports of its operand: the operand byte, the
/// address the pointer at that zero-page address holds (low byte first,
/// the high byte from the next zero-page address, wrapping from $FF to
/// $00), and that address plus Y, wrapping from $FFFF to $0000.
pub open spec fn indy_resolved(m: NesModel, r: OpArgModel) -> bool {
    let b = r.args[0] as int;
    let ptr = m.ram[b] + 256 * m.ram[(b + 1) % 256];
    &&& r.args.len() == 1
    &&& r.addressing == Addressing::IndY
    &&& match r.value {
        AddressingResult::IndInfo(o, p, a, _) => o == b && p == ptr && a == (ptr + m.cpu.y) % 65536,
        _ => false,
    }
}

/// The pointer fetch of a (zp,X) access.
proof fn lemma_xind_fetch(m: NesModel)
    requires
        m.wf(),
    ensures
        ({
            let (m1, _) = fetch_tick(m);
            let (m2, base) = fetch_tick(m1);
            let target = ((base as u16 + m2.cpu.x as u16) as u16) as u8;
            let m3 = tick_spec(m2);
            let (m4, lo) = read_tick(m3, target as u16);
            let (m5, hi) = read_tick(m4, ((target as u16 + 1) as u16) & 0x00FFu16);
            &&& target == (base + m.cpu.x) % 256
            &&& lo == m.ram[target as int]
            &&& hi == m.ram[(target + 1) % 256]
            &&& word(lo, hi) == lo + 256 * hi
            &&& same_but_nmi(m5.cpu, pc_after(m.cpu, 2))
            &&& m5.ram == m.ram
            &&& m5.wf()
            &&& m5.trace == m.trace
        }),
{
    let (m1, _) = fetch_tick(m);
    lemma_fetch_tick_regs(m);
    let (m2, base) = fetch_tick(m1);
    lemma_fetch_tick_regs(m1);
    let s: u16 = (base as u16 + m2.cpu.x as u16) as u16;
    assert(s == base + m.cpu.x);
    let target = s as u8;
    let s2: u16 = (target as u16 + 1) as u16;
    lemma_byte_arith(s, 0, 0, 0, 0);
    lemma_byte_arith(s2, 0, 0, 0, 0);
    let m3 = tick_spec(m2);
    lemma_tick_regs(m2);
    let (m4, lo) = read_tick(m3, target as u16);
    lemma_tick_regs(m3);
    let (m5, hi) = read_tick(m4, s2 & 0x00FFu16);
    lemma_tick_regs(m4);
    lemma_byte_arith(0, lo, hi, 0, 0);
    lemma_read_regs(m, m.cpu.pc);
    lemma_tick_keeps(fetch_spec(m).0);
    lemma_read_regs(m1, m1.cpu.pc);
    lemma_tick_keeps(fetch_spec(m1).0);
    lemma_tick_keeps(m2);
    lemma_tick_keeps(m3);
    lemma_tick_keeps(m4);
}

/// The pointer fetch of a (zp),Y access.
proof fn lemma_indy_fetch(m: NesModel)
    requires
        m.wf(),
    ensures
        ({
            let (m4, base, lo, hi) = indy_pointer(m);
            &&& lo == m.ram[base as int]
            &&& hi == m.ram[(base + 1) % 256]
            &&& word(lo, hi) == lo + 256 * hi
            &&& indexed(word(lo, hi), m4.cpu.y) == (word(lo, hi) + m.cpu.y) % 65536
            &&& same_but_nmi(m4.cpu, pc_after(m.cpu, 2))
            &&& m4.ram == m.ram
            &&& m4.wf()
        }),
{
    let (m1, _) = fetch_tick(m);
    lemma_fetch_tick_regs(m);
    let (m2, base) = fetch_tick(m1);
    lemma_fetch_tick_regs(m1);
    let s2: u16 = (base as u16 + 1) as u16;
    lemma_byte_arith(s2, 0, 0, 0, 0);
    let (m3, lo) = read_tick(m2, base as u16);
    lemma_tick_regs(m2);
    let (m4, hi) = read_tick(m3, s2 & 0x00FFu16);
    lemma_tick_regs(m3);
    lemma_byte_arith(0, lo, hi, word(lo, hi), m4.cpu.y);
}

/// (zp,X) addressing, for loads, stores and the binary operations: the
/// pointer is read from work RAM at the operand plus X, modulo 256, its
/// high byte from the next zero-page address (wrapping from $FF to $00),
/// and the access goes to the address it holds.
pub proof fn lemma_xind_pointer<O: RegOperations, B: BinaryOperation>(m: NesModel, op: O, bin: B)
    requires
        m.wf(),
    ensures
        xind_resolved(m, xind_load_spec(m, op).1),
        xind_resolved(m, xind_store_spec(m, op).1),
        xind_resolved(m, xind_calc_spec(m, bin).1),
{
    lemma_xind_fetch(m);
}

/// (zp),Y addressing, for loads, stores and the binary operations: the
/// pointer is read from work RAM at the operand, its high byte from the
/// next zero-page address (wrapping from $FF to $00), and the access goes
/// to the address it holds plus Y, wrapping from $FFFF to $0000.
pub proof fn lemma_indy_pointer<O: RegOperations, B: BinaryOperation>(m: NesModel, op: O, bin: B)
    requires
        m.wf(),
    ensures
        indy_resolved(m, indy_load_spec(m, op).1),
        indy_resolved(m, indy_store_spec(m, op).1),
        indy_resolved(m, indy_calc_spec(m, bin).1),
{
    lemma_indy_fetch(m);
}

/// Zero-page loads read the byte of work RAM at the operand; absolute loads
/// read the operand word, low byte first, so that an absolute address in
/// work RAM (below $2000) reads the byte there (work RAM repeating every
/// 2 KiB).
pub proof fn lemma_direct_load<O: RegOperations>(m: NesModel, op: O)
    requires
        m.wf(),
    ensures
        ({
            let (_, r) = zpg_load_spec(m, op);
            &&& r.args.len() == 1
            &&& r.value == AddressingResult::RWValue(m.ram[r.args[0] as int])
        }),
        ({
            let (_, r) = abs_load_spec(m, op);
            let a = r.args[0] + 256 * r.args[1];
            &&& r.args.len() == 2
            &&& a < 0x2000 ==> r.value == AddressingResult::RWValue(m.ram[a % 0x800])
        }),
{
    let (m1, _) = fetch_tick(m);
    lemma_fetch_tick_regs(m);
    let (m2, lo) = fetch_tick(m1);
    lemma_fetch_tick_regs(m1);
    let (m3, hi) = fetch_tick(m2);
    lemma_fetch_tick_regs(m2);
    lemma_byte_arith(0, lo, hi, 0, 0);
}

/// A conditional branch continues after its two bytes when not taken; when
/// taken it goes to the address after its two bytes plus the operand read
/// as a signed byte (-128 to 127), wrapping at $FFFF; the trace reports
/// that target either way.
pub proof fn lemma_branch_target<O: BranchOperation>(m: NesModel, op: O)
    requires
        m.wf(),
    ensures
        ({
            let (m3, r) = rel_branch_spec(m, op);
            let target = (m.cpu.pc + 2 + signed(r.args[0]) + 65536) % 65536;
            &&& r.args.len() == 1
            &&& r.value == AddressingResult::Address(target as u16)
            &&& exists|c: Cpu|
                #[trigger] same_but_nmi(c, pc_after(m.cpu, 2)) && m3.cpu.pc == if op.taken(c) { target } else { (m.cpu.pc + 2) % 65536 }
        }),
{
    let (m1, _) = fetch_tick(m);
    lemma_fetch_tick_regs(m);
    let (m2, offset) = fetch_tick(m1);
    lemma_fetch_tick_regs(m1);
    let pc = m2.cpu.pc;
    let addr = branch_target(pc, offset);
    assert(addr == (m.cpu.pc + 2 + signed(offset) + 65536) % 65536);
    if op.taken(m2.cpu) {
        let m_page = if (pc ^ addr) & 0x0100u16 != 0 { tick_spec(m2) } else { m2 };
        lemma_tick_regs(m2);
        lemma_tick_regs(set_pc(m_page, addr));
    }
    assert(same_but_nmi(m2.cpu, pc_after(m.cpu, 2)));
}

} // verus!
