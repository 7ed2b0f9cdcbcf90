//! The 6502 register file and the stack and fetch primitives that every
//! instruction is built from.
use vstd::prelude::*;
use crate::flags::Status;
use crate::nes::{Nes, NesModel, bus_read, record_fault};
use crate::addressings::{OpArg, OpArgModel, read_tick, ticks, word};
use crate::dispatch::{execute, exec_spec};
use crate::fault::Fault;
use crate::opcode::{Opcode, decode_opcode};
use crate::render::tick_spec;
use crate::trace::{format_op, lemma_exec_traceable, op_line, push_hex, reg_line, trace_ok};

verus! {

/// The CPU registers, the pending NMI and the cycles left of an OAM DMA stall.
#[derive(Debug, Clone, Copy, PartialEq, Eq, Structural)]
pub struct Cpu {
    pub pc: u16,
    pub a: u8,
    pub x: u8,
    pub y: u8,
    pub s: u8,
    pub p: Status,
    pub nmi: bool,
    pub dma_stall: u16,
}

/// What the CPU reports: a cycle, an executed instruction (its address,
/// opcode and operand), or a line of the CPU trace.
pub enum CpuStep {
    Cycle,
    Op(u16, Opcode, OpArg),
    DebugLine(String),
}

/// The address of the stack slot that `s` points at.
pub open spec fn stack_slot(s: u8) -> int {
    0x100 + s
}

/// `m` after pushing `value`: the byte goes to the slot that S points at,
/// then S moves down (from $00 it wraps to $FF).
pub open spec fn push_spec(m: NesModel, value: u8) -> NesModel {
    NesModel {
        ram: m.ram.update(stack_slot(m.cpu.s), value),
        cpu: Cpu { s: m.cpu.s.wrapping_sub(1), ..m.cpu },
        ..m
    }
}

/// `m` after popping: S moves up (from $FF it wraps to $00), then the byte
/// it points at is returned.
pub open spec fn pop_spec(m: NesModel) -> (NesModel, u8) {
    let s = m.cpu.s.wrapping_add(1);
    (NesModel { cpu: Cpu { s, ..m.cpu }, ..m }, m.ram[stack_slot(s)])
}

/// `m` after fetching the byte at PC and moving PC past it.
pub open spec fn fetch_spec(m: NesModel) -> (NesModel, u8) {
    let (m1, b) = bus_read(m, m.cpu.pc);
    (NesModel { cpu: Cpu { pc: m1.cpu.pc.wrapping_add(1), ..m1.cpu }, ..m1 }, b)
}

/// `m` after the cycles of a pending OAM DMA stall, which then ends.
pub open spec fn dma_spec(m: NesModel) -> NesModel {
    ticks(NesModel { cpu: Cpu { dma_stall: 0, ..m.cpu }, ..m }, m.cpu.dma_stall as nat)
}

/// `m` after serving a pending NMI, in seven cycles: two idle cycles, PC
/// (high byte first) and P are pushed, interrupts are disabled, and PC is
/// loaded from the little-endian vector at $FFFA.
pub open spec fn nmi_spec(m: NesModel) -> NesModel {
    if m.cpu.nmi {
        let m1 = ticks(NesModel { cpu: Cpu { nmi: false, ..m.cpu }, ..m }, 2);
        let ret = m1.cpu.pc;
        let m2 = tick_spec(push_spec(m1, (ret / 256) as u8));
        let m3 = tick_spec(push_spec(m2, (ret % 256) as u8));
        let m4 = push_spec(m3, m3.cpu.p.bits);
        let m5 = tick_spec(NesModel { cpu: Cpu { p: Status { bits: m4.cpu.p.bits | Status::I }, ..m4.cpu }, ..m4 });
        let (m6, lo) = read_tick(m5, 0xFFFA);
        let (m7, hi) = bus_read(m6, 0xFFFB);
        tick_spec(NesModel { cpu: Cpu { pc: word(lo, hi), ..m7.cpu }, ..m7 })
    } else {
        m
    }
}

/// One CPU step: the DMA stall, then the NMI, then the instruction at PC.
/// The result is the instruction's address, opcode and operand, or `None`
/// (with a fault recorded) when the byte at PC encodes no opcode.
pub open spec fn cpu_step_spec(m: NesModel) -> (NesModel, Option<(u16, Opcode, OpArgModel)>) {
    let m1 = nmi_spec(dma_spec(m));
    let pc = m1.cpu.pc;
    let (m2, b) = bus_read(m1, pc);
    match decode_opcode(b) {
        Some(op) => {
            let (m3, arg) = exec_spec(m2, op);
            (m3, Some((pc, op, arg)))
        },
        None => (record_fault(m2, Fault::UnknownOpcode(b, pc)), None),
    }
}

/// Serves a pending NMI (see `nmi_spec`).
fn service_nmi(nes: &mut Nes)
    requires
        old(nes).wf(),
    ensures
        final(nes).wf(),
        final(nes)@ == nmi_spec(old(nes)@),
{
    if nes.cpu.nmi {
        nes.cpu.nmi = false;
        let ghost m1 = nes@;
        nes.tick();
        nes.tick();
        proof {
            reveal_with_fuel(ticks, 3);
        }
        assert(nes@ == ticks(m1, 2));
        let ret_addr = nes.cpu.pc;
        let hi: u8 = ((ret_addr & 0xFF00) >> 8u16) as u8;
        assert(hi == (ret_addr / 256) as u8) by (bit_vector)
            requires
                hi == ((ret_addr & 0xFF00) >> 8u16) as u8,
        ;
        let lo: u8 = (ret_addr & 0x00FF) as u8;
        assert(lo == (ret_addr % 256) as u8) by (bit_vector)
            requires
                lo == (ret_addr & 0x00FF) as u8,
        ;
        Cpu::push(nes, hi);
        nes.tick();
        Cpu::push(nes, lo);
        nes.tick();
        let p = nes.cpu.p.bits();
        Cpu::push(nes, p);
        nes.cpu.p = nes.cpu.p.union(Status::I);
        nes.tick();
        let vec_lo = nes.read8(0xFFFA);
        nes.tick();
        let vec_hi = nes.read8(0xFFFB);
        nes.cpu.pc = (vec_lo as u16) | ((vec_hi as u16) << 8u16);
        nes.tick();
    }
}

/// Runs out a pending OAM DMA stall (see `dma_spec`).
fn run_dma_stall(nes: &mut Nes)
    requires
        old(nes).wf(),
    ensures
        final(nes).wf(),
        final(nes)@ == dma_spec(old(nes)@),
{
    let stall = nes.cpu.dma_stall;
    nes.cpu.dma_stall = 0;
    let ghost m0 = nes@;
    let mut i: u16 = 0;
    while i < stall
        invariant
            nes.wf(),
            i <= stall,
            stall == old(nes)@.cpu.dma_stall,
            m0 == (NesModel { cpu: Cpu { dma_stall: 0, ..old(nes)@.cpu }, ..old(nes)@ }),
            nes@ == ticks(m0, i as nat),
        decreases stall - i,
    {
        nes.tick();
        i = i + 1;
    }
}

/// The machine once a step's DMA stall and pending NMI are served, and the
/// byte at PC that it reads then.
pub open spec fn begin_spec(m: NesModel) -> (NesModel, u8) {
    let m1 = nmi_spec(dma_spec(m));
    bus_read(m1, m1.cpu.pc)
}

/// The opcode that the next CPU step runs, or `None` when the byte it reads
/// at PC encodes no opcode.
pub open spec fn next_opcode(m: NesModel) -> Option<Opcode> {
    decode_opcode(begin_spec(m).1)
}

impl Cpu {
    /// The start of a CPU step: runs out the DMA stall, serves a pending NMI
    /// and reads the byte at PC, which is left pointing at it (see
    /// `begin_spec`). The step goes on with `execute` when the byte encodes
    /// an opcode; a byte that encodes none stops the machine.
    pub fn begin_step(nes: &mut Nes) -> (r: u8)
        requires
            old(nes).wf(),
        ensures
            final(nes).wf(),
            (final(nes)@, r) == begin_spec(old(nes)@),
            final(nes).cpu.pc == nmi_spec(dma_spec(old(nes)@)).cpu.pc,
    {
        run_dma_stall(nes);
        service_nmi(nes);
        let pc = nes.cpu.pc;
        nes.read8(pc)
    }

    /// One CPU step (see `cpu_step_spec`): the DMA stall, a pending NMI, then
    /// the instruction at PC, cycle by cycle, with the PPU running three
    /// dots per CPU cycle. The byte at PC must encode an opcode.
    pub fn run(nes: &mut Nes) -> (r: CpuStep)
        requires
            old(nes).wf(),
            next_opcode(old(nes)@) is Some,
        ensures
            final(nes).wf(),
            final(nes)@ == cpu_step_spec(old(nes)@).0,
            match cpu_step_spec(old(nes)@).1 {
                Some(t) => r matches CpuStep::Op(pc, op, arg) && pc == t.0 && op == t.1 && arg@ == t.2,
                None => false,
            },
            r matches CpuStep::Op(_, _, arg) ==> trace_ok(arg@),
    {
        let bin = Cpu::begin_step(nes);
        let pc = nes.cpu.pc;
        match Opcode::from_u8(bin) {
            Some(opcode) => {
                let ghost m2 = nes@;
                let oparg = execute(nes, opcode);
                proof {
                    lemma_exec_traceable(m2, opcode);
                }
                CpuStep::Op(pc, opcode, oparg)
            },
            None => {
                assert(false);
                CpuStep::Cycle
            },
        }
    }
}

impl Cpu {
    /// The registers at power-up: S = $FD, P = $34 (interrupts off), the
    /// rest zero, no NMI pending and no DMA stall.
    pub fn power_up() -> (r: Cpu)
        ensures
            r == (Cpu {
                pc: 0,
                a: 0,
                x: 0,
                y: 0,
                s: 0xFD,
                p: Status { bits: 0x34 },
                nmi: false,
                dma_stall: 0,
            }),
    {
        Cpu {
            pc: 0,
            a: 0,
            x: 0,
            y: 0,
            s: 0xFD,
            p: Status::from_bits_truncate(0x34),
            nmi: false,
            dma_stall: 0,
        }
    }

    /// The address of the stack slot that S points at, in page one.
    pub fn stack_addr(&self) -> (r: u16)
        ensures
            r == stack_slot(self.s),
    {
        let s: u8 = self.s;
        assert((s as u16 | 0x0100u16) == 0x100 + s) by (bit_vector);
        s as u16 | 0x0100
    }

    /// Reads the byte at PC and moves PC past it.
    pub fn fetch_byte_inc_pc(nes: &mut Nes) -> (r: u8)
        requires
            old(nes).wf(),
        ensures
            final(nes).wf(),
            (final(nes)@, r) == fetch_spec(old(nes)@),
    {
        let pc = nes.cpu.pc;
        let ret = nes.read8(pc);
        nes.cpu.pc = nes.cpu.pc.wrapping_add(1);
        ret
    }

    /// Pushes `value` on the stack.
    pub fn push(nes: &mut Nes, value: u8)
        requires
            old(nes).wf(),
        ensures
            final(nes).wf(),
            final(nes)@ == push_spec(old(nes)@, value),
    {
        let addr = nes.cpu.stack_addr();
        nes.ram.set(addr as usize, value);
        nes.cpu.s = nes.cpu.s.wrapping_sub(1);
    }

    /// Pops a byte off the stack.
    pub fn pop(nes: &mut Nes) -> (r: u8)
        requires
            old(nes).wf(),
        ensures
            final(nes).wf(),
            (final(nes)@, r) == pop_spec(old(nes)@),
    {
        nes.cpu.s = nes.cpu.s.wrapping_add(1);
        let addr = nes.cpu.stack_addr();
        nes.ram[addr as usize]
    }
}

/// A value pushed is the value popped next, and the stack pointer is back
/// where it was.
pub proof fn lemma_push_pop(m: NesModel, value: u8)
    requires
        m.wf(),
    ensures
        pop_spec(push_spec(m, value)).1 == value,
        pop_spec(push_spec(m, value)).0 == (NesModel {
            ram: m.ram.update(stack_slot(m.cpu.s), value),
            ..m
        }),
{
    let m1 = push_spec(m, value);
    assert(m1.cpu.s.wrapping_add(1) == m.cpu.s);
    assert(pop_spec(m1).0.cpu =~= m.cpu);
}

/// The registers as the CPU trace shows them: `A:xx X:xx Y:xx P:xx SP:xx`
/// (see `reg_line`).
pub fn debug_reg(cpu: &Cpu) -> (r: String)
    ensures
        r@ == reg_line(*cpu),
{
    let mut s = String::new();
    s.append("A:");
    push_hex(&mut s, cpu.a as u16, 2);
    s.append(" X:");
    push_hex(&mut s, cpu.x as u16, 2);
    s.append(" Y:");
    push_hex(&mut s, cpu.y as u16, 2);
    s.append(" P:");
    push_hex(&mut s, cpu.p.bits as u16, 2);
    s.append(" SP:");
    push_hex(&mut s, cpu.s as u16, 2);
    assert(s@ =~= reg_line(*cpu));
    s
}

/// An executed instruction as the CPU trace shows it: address, opcode byte,
/// operand bytes, mnemonic and what the operand resolved to (see `op_line`).
pub fn debug_op(op: &CpuStep) -> (r: String)
    requires
        op is Op,
        trace_ok(op->Op_2@),
    ensures
        r@ == op_line(op->Op_0, op->Op_1, op->Op_2@),
{
    match op {
        CpuStep::Op(pc, opcode, arg) => format_op(*pc, *opcode, arg),
        _ => String::new(),
    }
}

} // verus!
