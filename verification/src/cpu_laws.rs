//! What holds of the CPU across instructions: the arithmetic identities of
//! the ALU, the inverse pairs among its operations, and the stack discipline
//! of pushes and pulls, subroutine calls and interrupts.
use vstd::prelude::*;
use crate::alu::{adc, carry, set_nz};
use crate::cpu::{Cpu, pop_spec, push_spec, stack_slot, lemma_push_pop};
use crate::nes::{NesModel, bus_read};
use crate::ppu::ppu_read_reg;
use crate::render::tick_spec;
use crate::laws::lemma_tick_keeps;
use crate::cpu::{fetch_spec, nmi_spec};
use crate::addressings::{ticks, fetch_tick, jsr_spec, rts_spec, rti_spec, brk_spec, set_pc, word};
use crate::operations::with_cpu;
use crate::flags::{Status, with_bits};
use crate::operations::{BinaryOperation, ImplOperation, MemCalcOperation, ADC, ASL, LSR, SBC, INX, DEX, INY, DEY, ROL, ROR, INC, DEC, PHA, PLA, PHP, PLP};

verus! {

/// The carry and overflow flags after the flag updates of an addition: the
/// carry out and the overflow that the addition set, whatever the other
/// flags became.
proof fn lemma_adc_carry(p: u8, z: bool, c: bool, n: bool, v: bool)
    ensures
        carry(Status { bits: with_bits(with_bits(with_bits(with_bits(p, Status::Z, z), Status::C, c), Status::N, n), Status::V, v) })
            == if c { 1int } else { 0int },
        (with_bits(with_bits(with_bits(with_bits(p, Status::Z, z), Status::C, c), Status::N, n), Status::V, v) & Status::V == Status::V) == v,
{
    let b = with_bits(with_bits(with_bits(with_bits(p, Status::Z, z), Status::C, c), Status::N, n), Status::V, v);
    assert((b & 1u8 == 1u8) == c && (b & 0x40u8 == 0x40u8) == v) by (bit_vector)
        requires
            b == with_bits(with_bits(with_bits(with_bits(p, 2u8, z), 1u8, c), 128u8, n), 64u8, v),
    ;
}

/// A byte read as a two's-complement signed number.
pub open spec fn signed(b: u8) -> int {
    if b >= 128 { b - 256 } else { b as int }
}

/// ADC adds with carry: A becomes A + M + C modulo 256; C is set exactly
/// when that sum does not fit in a byte, and V exactly when the sum of A, M
/// and C read as signed numbers does not fit in a signed byte
/// (-128 to 127).
pub proof fn lemma_adc_adds(cpu: Cpu, v: u8)
    ensures
        ADC.effect(cpu, v).a == (cpu.a + v + carry(cpu.p)) % 256,
        carry(ADC.effect(cpu, v).p) == if cpu.a + v + carry(cpu.p) >= 256 { 1int } else { 0int },
        (ADC.effect(cpu, v).p.bits & Status::V == Status::V) == !(-128 <= signed(cpu.a) + signed(v) + carry(cpu.p) <= 127),
{
    let sum = cpu.a + v + carry(cpu.p);
    let r = (sum % 256) as u8;
    lemma_adc_carry(cpu.p.bits, r == 0, sum >= 256, r >= 0x80, crate::alu::signed_overflow(cpu.a, v, r));
}

/// SBC subtracts with borrow: A becomes A - M - (1 - C) modulo 256, and C is
/// set exactly when that difference is not negative (no borrow).
pub proof fn lemma_sbc_subtracts(cpu: Cpu, v: u8)
    ensures
        SBC.effect(cpu, v).a == (cpu.a - v - (1 - carry(cpu.p))) % 256,
        carry(SBC.effect(cpu, v).p) == if cpu.a - v - (1 - carry(cpu.p)) >= 0 { 1int } else { 0int },
{
    assert(!v == 255 - v) by (bit_vector);
    let nv: u8 = !v;
    let sum = cpu.a + nv + carry(cpu.p);
    let r = (sum % 256) as u8;
    lemma_adc_carry(cpu.p.bits, r == 0, sum >= 256, r >= 0x80, crate::alu::signed_overflow(cpu.a, nv, r));
}

/// The carry flag after the flag updates of a shift or rotation: the bit
/// that was shifted out, whatever Z and N became.
pub(crate) proof fn lemma_shift_carry(p: u8, c: bool, r: u8)
    ensures
        carry(Status { bits: set_nz(with_bits(p, Status::C, c), r) }) == if c { 1int } else { 0int },
{
    let b = set_nz(with_bits(p, Status::C, c), r);
    assert((b & 1u8 == 1u8) == c) by (bit_vector)
        requires
            b == with_bits(with_bits(with_bits(p, 1u8, c), 2u8, r == 0), 128u8, r >= 128),
    ;
}

/// ASL moves the byte one bit up: A becomes twice the byte modulo 256 and
/// C its old bit 7. LSR moves it one bit down: A becomes half the byte and C
/// its old bit 0. So LSR after ASL gives the byte back without its bit 7,
/// and ASL after LSR gives it back without its bit 0.
pub proof fn lemma_shift_left_right(cpu: Cpu, v: u8)
    ensures
        ({
            let asl = BinaryOperation::effect(&ASL, cpu, v);
            let lsr = BinaryOperation::effect(&LSR, cpu, v);
            &&& asl.a == (2 * v) % 256
            &&& carry(asl.p) == v / 128
            &&& lsr.a == v / 2
            &&& carry(lsr.p) == v % 2
            &&& BinaryOperation::effect(&LSR, cpu, asl.a).a == v % 128
            &&& BinaryOperation::effect(&ASL, cpu, lsr.a).a == v - v % 2
            &&& MemCalcOperation::effect(&ASL, cpu, v) == (Cpu { a: cpu.a, ..asl }, asl.a)
            &&& MemCalcOperation::effect(&LSR, cpu, v) == (Cpu { a: cpu.a, ..lsr }, lsr.a)
        }),
{
    lemma_shift_carry(cpu.p.bits, v >= 128, ((v * 2) % 256) as u8);
    lemma_shift_carry(cpu.p.bits, v % 2 == 1, v / 2);
}

/// ROR undoes ROL: rotating a byte left through carry and then right
/// through carry gives back the byte and the carry flag.
pub proof fn lemma_rol_then_ror(cpu: Cpu, v: u8)
    ensures
        ({
            let (c1, r1) = MemCalcOperation::effect(&ROL, cpu, v);
            let (c2, r2) = MemCalcOperation::effect(&ROR, c1, r1);
            r2 == v && carry(c2.p) == carry(cpu.p)
        }),
{
    let c = carry(cpu.p);
    let (c1, r1) = MemCalcOperation::effect(&ROL, cpu, v);
    lemma_shift_carry(cpu.p.bits, v >= 128, r1);
    let (c2, r2) = MemCalcOperation::effect(&ROR, c1, r1);
    lemma_shift_carry(c1.p.bits, r1 % 2 == 1, r2);
}

/// ROL undoes ROR: rotating a byte right through carry and then left
/// through carry gives back the byte and the carry flag.
pub proof fn lemma_ror_then_rol(cpu: Cpu, v: u8)
    ensures
        ({
            let (c1, r1) = MemCalcOperation::effect(&ROR, cpu, v);
            let (c2, r2) = MemCalcOperation::effect(&ROL, c1, r1);
            r2 == v && carry(c2.p) == carry(cpu.p)
        }),
{
    let (c1, r1) = MemCalcOperation::effect(&ROR, cpu, v);
    lemma_shift_carry(cpu.p.bits, v % 2 == 1, r1);
    let (c2, r2) = MemCalcOperation::effect(&ROL, c1, r1);
    lemma_shift_carry(c1.p.bits, r1 >= 128, r2);
}

/// Setting Z and N twice is setting them once, from the second value.
pub(crate) proof fn lemma_set_nz_twice(p: u8, r1: u8, r2: u8)
    ensures
        set_nz(set_nz(p, r1), r2) == set_nz(p, r2),
{
    let a = set_nz(set_nz(p, r1), r2);
    let b = set_nz(p, r2);
    assert(a == b) by (bit_vector)
        requires
            a == with_bits(with_bits(with_bits(with_bits(p, 2u8, r1 == 0), 128u8, r1 >= 128), 2u8, r2 == 0), 128u8, r2 >= 128),
            b == with_bits(with_bits(p, 2u8, r2 == 0), 128u8, r2 >= 128),
    ;
}

/// DEC undoes INC, and INC undoes DEC: the byte comes back, and the flags
/// are those that the byte itself gives.
pub proof fn lemma_inc_dec_inverse(cpu: Cpu, v: u8)
    ensures
        MemCalcOperation::effect(&DEC, MemCalcOperation::effect(&INC, cpu, v).0, MemCalcOperation::effect(&INC, cpu, v).1)
            == (Cpu { p: Status { bits: set_nz(cpu.p.bits, v) }, ..cpu }, v),
        MemCalcOperation::effect(&INC, MemCalcOperation::effect(&DEC, cpu, v).0, MemCalcOperation::effect(&DEC, cpu, v).1)
            == (Cpu { p: Status { bits: set_nz(cpu.p.bits, v) }, ..cpu }, v),
{
    lemma_set_nz_twice(cpu.p.bits, v.wrapping_add(1), v);
    lemma_set_nz_twice(cpu.p.bits, v.wrapping_sub(1), v);
}

/// INX and INY add one to X or Y, DEX and DEY subtract one, wrapping
/// within a byte; so each undoes the other, giving the register back with
/// the flags that its value gives.
pub proof fn lemma_register_steps(m: NesModel)
    ensures
        INX.effect(m).cpu.x == (m.cpu.x + 1) % 256,
        DEX.effect(m).cpu.x == (m.cpu.x + 255) % 256,
        INY.effect(m).cpu.y == (m.cpu.y + 1) % 256,
        DEY.effect(m).cpu.y == (m.cpu.y + 255) % 256,
        DEX.effect(INX.effect(m)) == with_cpu(m, Cpu { p: Status { bits: set_nz(m.cpu.p.bits, m.cpu.x) }, ..m.cpu }),
        INX.effect(DEX.effect(m)) == with_cpu(m, Cpu { p: Status { bits: set_nz(m.cpu.p.bits, m.cpu.x) }, ..m.cpu }),
        DEY.effect(INY.effect(m)) == with_cpu(m, Cpu { p: Status { bits: set_nz(m.cpu.p.bits, m.cpu.y) }, ..m.cpu }),
        INY.effect(DEY.effect(m)) == with_cpu(m, Cpu { p: Status { bits: set_nz(m.cpu.p.bits, m.cpu.y) }, ..m.cpu }),
{
    lemma_set_nz_twice(m.cpu.p.bits, m.cpu.x.wrapping_add(1), m.cpu.x);
    lemma_set_nz_twice(m.cpu.p.bits, m.cpu.x.wrapping_sub(1), m.cpu.x);
    lemma_set_nz_twice(m.cpu.p.bits, m.cpu.y.wrapping_add(1), m.cpu.y);
    lemma_set_nz_twice(m.cpu.p.bits, m.cpu.y.wrapping_sub(1), m.cpu.y);
}

/// PLA undoes PHA: the byte pulled is A as it was pushed, and S is back
/// where it was.
pub proof fn lemma_pha_pla(m: NesModel)
    requires
        m.wf(),
    ensures
        PLA.effect(PHA.effect(m)).cpu.a == m.cpu.a,
        PLA.effect(PHA.effect(m)).cpu.s == m.cpu.s,
        PLA.effect(PHA.effect(m)).cpu.pc == m.cpu.pc,
        PLA.effect(PHA.effect(m)).cpu.x == m.cpu.x,
        PLA.effect(PHA.effect(m)).cpu.y == m.cpu.y,
{
    lemma_push_pop(m, m.cpu.a);
}

/// PLP undoes PHP but for the break and unused flags: P comes back with B
/// clear and U set, and S is back where it was.
pub proof fn lemma_php_plp(m: NesModel)
    requires
        m.wf(),
    ensures
        PLP.effect(PHP.effect(m)).cpu.p.bits == (m.cpu.p.bits & !Status::B) | Status::U,
        PLP.effect(PHP.effect(m)).cpu.s == m.cpu.s,
        PLP.effect(PHP.effect(m)).cpu.a == m.cpu.a,
{
    lemma_push_pop(m, m.cpu.p.bits | Status::B);
    let p = m.cpu.p.bits;
    assert(with_bits(with_bits(p | 0x10u8, 0x10u8, false), 0x20u8, true) == (p & !0x10u8) | 0x20u8) by (bit_vector);
}

/// What a step keeps of the registers and memory: the machine stays well
/// formed, work RAM and PRG-ROM are unchanged, and the registers are unchanged but for
/// PC, which becomes `pc`, and the NMI request.
pub open spec fn regs_kept(m: NesModel, m2: NesModel, pc: u16) -> bool {
    &&& m2.wf()
    &&& m2.ram == m.ram
    &&& m2.prg == m.prg
    &&& m2.cpu == (Cpu { pc, nmi: m2.cpu.nmi, ..m.cpu })
}

/// A CPU read changes neither the registers nor work RAM.
pub(crate) proof fn lemma_read_regs(m: NesModel, a: u16)
    requires
        m.wf(),
    ensures
        regs_kept(m, bus_read(m, a).0, m.cpu.pc),
        bus_read(m, a).0.cpu.nmi == m.cpu.nmi,
{
    reveal(ppu_read_reg);
}

/// A cycle changes neither the registers (but for the NMI request) nor work RAM.
pub(crate) proof fn lemma_tick_regs(m: NesModel)
    requires
        m.wf(),
    ensures
        regs_kept(m, tick_spec(m), m.cpu.pc),
{
    lemma_tick_keeps(m);
}

/// A fetch and a cycle move PC past the byte and change nothing else of the
/// registers (but for the NMI request) or of work RAM.
pub(crate) proof fn lemma_fetch_tick_regs(m: NesModel)
    requires
        m.wf(),
    ensures
        regs_kept(m, fetch_tick(m).0, m.cpu.pc.wrapping_add(1)),
{
    lemma_read_regs(m, m.cpu.pc);
    lemma_tick_regs(fetch_spec(m).0);
}

/// The two bytes of a return address, high then low, make the address again.
proof fn lemma_word_split(ret: u16)
    ensures
        word((ret % 256) as u8, (ret / 256) as u8) == ret,
{
    let lo = (ret % 256) as u8;
    let hi = (ret / 256) as u8;
    assert((lo as u16) | ((hi as u16) << 8u16) == ret) by (bit_vector)
        requires
            lo == (ret % 256) as u8,
            hi == (ret / 256) as u8,
    ;
}

/// What JSR leaves: the machine well formed, S two below where it was, and
/// the return address (the address of the operand's last byte) in the two
/// stack slots it passed, high byte first.
pub proof fn lemma_jsr_pushes(m: NesModel)
    requires
        m.wf(),
    ensures
        jsr_spec(m).0.wf(),
        jsr_spec(m).0.cpu.s == m.cpu.s.wrapping_sub(2),
        jsr_spec(m).0.ram[stack_slot(m.cpu.s)] == (m.cpu.pc.wrapping_add(2) / 256) as u8,
        jsr_spec(m).0.ram[stack_slot(m.cpu.s.wrapping_sub(1))] == (m.cpu.pc.wrapping_add(2) % 256) as u8,
{
    let (m1, _) = fetch_tick(m);
    lemma_fetch_tick_regs(m);
    let (m2, lo) = fetch_tick(m1);
    lemma_fetch_tick_regs(m1);
    let (m3, hi) = fetch_tick(m2);
    lemma_fetch_tick_regs(m2);
    let ret = m3.cpu.pc.wrapping_sub(1);
    assert(ret == m.cpu.pc.wrapping_add(2));
    let m4 = tick_spec(m3);
    lemma_tick_regs(m3);
    let m5p = push_spec(m4, (ret / 256) as u8);
    let m5 = tick_spec(m5p);
    lemma_tick_regs(m5p);
    let m6p = set_pc(push_spec(m5, (ret % 256) as u8), word(lo, hi));
    lemma_tick_regs(m6p);
}

/// A subroutine call returns to the instruction after the JSR: RTS, run in
/// any state whose S and the two bytes JSR pushed are as JSR left them,
/// loads PC with the address after the JSR's operand and puts S back where
/// it was before the call.
pub proof fn lemma_jsr_rts(m: NesModel, n: NesModel)
    requires
        m.wf(),
        n.wf(),
        n.cpu.s == jsr_spec(m).0.cpu.s,
        n.ram[stack_slot(m.cpu.s)] == jsr_spec(m).0.ram[stack_slot(m.cpu.s)],
        n.ram[stack_slot(m.cpu.s.wrapping_sub(1))] == jsr_spec(m).0.ram[stack_slot(m.cpu.s.wrapping_sub(1))],
    ensures
        rts_spec(n).0.cpu.pc == m.cpu.pc.wrapping_add(3),
        rts_spec(n).0.cpu.s == m.cpu.s,
{
    lemma_jsr_pushes(m);
    let ret = m.cpu.pc.wrapping_add(2);
    lemma_word_split(ret);
    let (n1, _) = fetch_tick(n);
    lemma_fetch_tick_regs(n);
    let (n2, _) = fetch_tick(n1);
    lemma_fetch_tick_regs(n1);
    let t2 = tick_spec(n2);
    lemma_tick_regs(n2);
    let (n3, pc_lo) = pop_spec(t2);
    assert(n3.cpu.s == m.cpu.s.wrapping_sub(1));
    let t3 = tick_spec(n3);
    lemma_tick_regs(n3);
    let (n4, pc_hi) = pop_spec(t3);
    assert(n4.cpu.s == m.cpu.s);
    assert(pc_lo == (ret % 256) as u8);
    assert(pc_hi == (ret / 256) as u8);
    let t4 = tick_spec(n4);
    lemma_tick_regs(n4);
    let n5p = set_pc(t4, word(pc_lo, pc_hi).wrapping_add(1));
    lemma_tick_regs(n5p);
}

/// What serving an NMI leaves: the machine well formed, S three below where
/// it was, PC (high byte first) and P in the three stack slots it passed,
/// interrupts disabled, and PC loaded from the little-endian vector at
/// $FFFA (a PRG-ROM address, so reading it changes nothing).
pub proof fn lemma_nmi_pushes(m: NesModel)
    requires
        m.wf(),
        m.cpu.nmi,
    ensures
        nmi_spec(m).wf(),
        nmi_spec(m).cpu.s == m.cpu.s.wrapping_sub(3),
        nmi_spec(m).ram[stack_slot(m.cpu.s)] == (m.cpu.pc / 256) as u8,
        nmi_spec(m).ram[stack_slot(m.cpu.s.wrapping_sub(1))] == (m.cpu.pc % 256) as u8,
        nmi_spec(m).ram[stack_slot(m.cpu.s.wrapping_sub(2))] == m.cpu.p.bits,
        nmi_spec(m).cpu.p.bits == m.cpu.p.bits | Status::I,
        nmi_spec(m).cpu.pc == word(bus_read(m, 0xFFFA).1, bus_read(m, 0xFFFB).1),
{
    let m0 = NesModel { cpu: Cpu { nmi: false, ..m.cpu }, ..m };
    lemma_tick_regs(m0);
    let t1 = tick_spec(m0);
    lemma_tick_regs(t1);
    reveal_with_fuel(ticks, 3);
    let m1 = ticks(m0, 2);
    assert(m1 == tick_spec(t1));
    let ret = m1.cpu.pc;
    let m2p = push_spec(m1, (ret / 256) as u8);
    lemma_tick_regs(m2p);
    let m2 = tick_spec(m2p);
    let m3p = push_spec(m2, (ret % 256) as u8);
    lemma_tick_regs(m3p);
    let m3 = tick_spec(m3p);
    let m4 = push_spec(m3, m3.cpu.p.bits);
    let m5p = NesModel { cpu: Cpu { p: Status { bits: m4.cpu.p.bits | Status::I }, ..m4.cpu }, ..m4 };
    lemma_tick_regs(m5p);
    let m5 = tick_spec(m5p);
    lemma_read_regs(m5, 0xFFFA);
    let (m6a, lo) = bus_read(m5, 0xFFFA);
    lemma_tick_regs(m6a);
    let m6 = tick_spec(m6a);
    lemma_read_regs(m6, 0xFFFB);
    let (m7, hi) = bus_read(m6, 0xFFFB);
    lemma_tick_regs(NesModel { cpu: Cpu { pc: word(lo, hi), ..m7.cpu }, ..m7 });
}

/// An interrupt returns to where it struck: RTI, run in any state whose S
/// and the three bytes the NMI pushed are as the NMI left them, restores PC
/// and P (with the unused flag set) and puts S back where it was.
pub proof fn lemma_nmi_rti(m: NesModel, n: NesModel)
    requires
        m.wf(),
        m.cpu.nmi,
        n.wf(),
        n.cpu.s == nmi_spec(m).cpu.s,
        n.ram[stack_slot(m.cpu.s)] == nmi_spec(m).ram[stack_slot(m.cpu.s)],
        n.ram[stack_slot(m.cpu.s.wrapping_sub(1))] == nmi_spec(m).ram[stack_slot(m.cpu.s.wrapping_sub(1))],
        n.ram[stack_slot(m.cpu.s.wrapping_sub(2))] == nmi_spec(m).ram[stack_slot(m.cpu.s.wrapping_sub(2))],
    ensures
        rti_spec(n).0.cpu.pc == m.cpu.pc,
        rti_spec(n).0.cpu.p.bits == m.cpu.p.bits | Status::U,
        rti_spec(n).0.cpu.s == m.cpu.s,
{
    lemma_nmi_pushes(m);
    lemma_word_split(m.cpu.pc);
    lemma_rti_pops(n, m.cpu.s);
}

/// What RTI takes from the stack: P from the first slot above S (with the
/// unused flag set), then PC from the next two, low byte first; S ends three
/// above where it was.
proof fn lemma_rti_pops(n: NesModel, s0: u8)
    requires
        n.wf(),
        n.cpu.s == s0.wrapping_sub(3),
    ensures
        rti_spec(n).0.cpu.pc == word(n.ram[stack_slot(s0.wrapping_sub(1))], n.ram[stack_slot(s0)]),
        rti_spec(n).0.cpu.p.bits == n.ram[stack_slot(s0.wrapping_sub(2))] | Status::U,
        rti_spec(n).0.cpu.s == s0,
{
    let (n1, _) = fetch_tick(n);
    lemma_fetch_tick_regs(n);
    let (n2, p) = pop_spec(n1);
    assert(n2.cpu.s == s0.wrapping_sub(2));
    let t2 = tick_spec(n2);
    lemma_tick_regs(n2);
    let (n3, pc_lo) = pop_spec(t2);
    assert(n3.cpu.s == s0.wrapping_sub(1));
    let t3 = tick_spec(n3);
    lemma_tick_regs(n3);
    let (n4, pc_hi) = pop_spec(t3);
    assert(n4.cpu.s == s0);
    let n5 = tick_spec(n4);
    lemma_tick_regs(n4);
    let n6 = with_cpu(n5, Cpu { p: Status { bits: p | Status::U }, ..n5.cpu });
    let t6 = tick_spec(n6);
    lemma_tick_regs(n6);
    lemma_tick_regs(set_pc(t6, word(pc_lo, pc_hi)));
}

/// What BRK leaves: S three below where it was, the address after its
/// padding byte (high byte first) and P with B and U set in the three stack
/// slots it passed, interrupts disabled, and PC loaded from the
/// little-endian vector at $FFFE (a PRG-ROM address, so reading it changes
/// nothing).
pub proof fn lemma_brk_pushes(m: NesModel)
    requires
        m.wf(),
    ensures
        brk_spec(m).0.wf(),
        brk_spec(m).0.cpu.s == m.cpu.s.wrapping_sub(3),
        brk_spec(m).0.ram[stack_slot(m.cpu.s)] == (m.cpu.pc.wrapping_add(2) / 256) as u8,
        brk_spec(m).0.ram[stack_slot(m.cpu.s.wrapping_sub(1))] == (m.cpu.pc.wrapping_add(2) % 256) as u8,
        brk_spec(m).0.ram[stack_slot(m.cpu.s.wrapping_sub(2))] == m.cpu.p.bits | Status::B | Status::U,
        brk_spec(m).0.cpu.p.bits == m.cpu.p.bits | Status::I,
        brk_spec(m).0.cpu.pc == word(bus_read(m, 0xFFFE).1, bus_read(m, 0xFFFF).1),
{
    let (m1, _) = fetch_tick(m);
    lemma_fetch_tick_regs(m);
    let (m2, _) = fetch_tick(m1);
    lemma_fetch_tick_regs(m1);
    let ret = m2.cpu.pc;
    let m3p = push_spec(m2, (ret / 256) as u8);
    let m3 = tick_spec(m3p);
    lemma_tick_regs(m3p);
    let m4p = push_spec(m3, (ret % 256) as u8);
    let m4 = tick_spec(m4p);
    lemma_tick_regs(m4p);
    let m4p = push_spec(m4, m4.cpu.p.bits | Status::B | Status::U);
    let m5p = with_cpu(m4p, Cpu { p: Status { bits: m4p.cpu.p.bits | Status::I }, ..m4p.cpu });
    let m5 = tick_spec(m5p);
    lemma_tick_regs(m5p);
    lemma_read_regs(m5, 0xFFFE);
    let (m6a, pc_lo) = bus_read(m5, 0xFFFE);
    lemma_tick_regs(m6a);
    let m6 = tick_spec(m6a);
    lemma_read_regs(m6, 0xFFFF);
    let (m7, pc_hi) = bus_read(m6, 0xFFFF);
    lemma_tick_regs(set_pc(m7, word(pc_lo, pc_hi)));
    assert(m5.prg == m.prg);
    assert(m6.prg == m.prg);
}

/// BRK returns past its padding byte: RTI, run in any state whose S and the
/// three bytes BRK pushed are as BRK left them, loads PC with the address
/// two past the BRK, restores P with B and U set, and puts S back where it was.
pub proof fn lemma_brk_rti(m: NesModel, n: NesModel)
    requires
        m.wf(),
        n.wf(),
        n.cpu.s == brk_spec(m).0.cpu.s,
        n.ram[stack_slot(m.cpu.s)] == brk_spec(m).0.ram[stack_slot(m.cpu.s)],
        n.ram[stack_slot(m.cpu.s.wrapping_sub(1))] == brk_spec(m).0.ram[stack_slot(m.cpu.s.wrapping_sub(1))],
        n.ram[stack_slot(m.cpu.s.wrapping_sub(2))] == brk_spec(m).0.ram[stack_slot(m.cpu.s.wrapping_sub(2))],
    ensures
        rti_spec(n).0.cpu.pc == m.cpu.pc.wrapping_add(2),
        rti_spec(n).0.cpu.p.bits == m.cpu.p.bits | Status::B | Status::U,
        rti_spec(n).0.cpu.s == m.cpu.s,
{
    lemma_brk_pushes(m);
    lemma_word_split(m.cpu.pc.wrapping_add(2));
    lemma_rti_pops(n, m.cpu.s);
    let p = m.cpu.p.bits;
    assert((p | 0x10u8 | 0x20u8) | 0x20u8 == p | 0x10u8 | 0x20u8) by (bit_vector);
}

} // verus!
