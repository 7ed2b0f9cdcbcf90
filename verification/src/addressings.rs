//! The addressing modes: each one fetches an instruction's operand cycle by
//! cycle, hands it to the operation, and describes what it did.
use vstd::prelude::*;
use crate::cpu::{Cpu, fetch_spec, pop_spec, push_spec};
use crate::flags::Status;
use crate::nes::{Nes, NesModel, bus_read, bus_write};
use crate::operations::{BinaryOperation, BranchOperation, ImplOperation, MemCalcOperation, RegOperations, TestOperation, with_cpu};
use crate::render::tick_spec;

verus! {

/// How an instruction finds its operand.
#[derive(Debug, Clone, Copy, PartialEq, Eq, Structural)]
pub enum Addressing {
    Implied,
    Imm,
    Abs,
    AbsX,
    AbsY,
    Zpg,
    ZpgX,
    ZpgY,
    IndY,
    XInd,
    Branch,
}

/// What an instruction's operand turned out to be, as the CPU trace prints it.
#[derive(Debug, Clone, Copy, PartialEq, Eq, Structural)]
pub enum AddressingResult {
    /// The byte read or the byte that was there before a store.
    RWValue(u8),
    /// A target address.
    Address(u16),
    /// Effective address and byte.
    AbsZpgInfo(u16, u8),
    /// Operand byte, pointer (or pointer address), effective address, byte.
    IndInfo(u8, u16, u16, u8),
    Empty,
    RegA,
}

/// An executed instruction's operand: its addressing mode, the operand bytes
/// that followed the opcode, and what they resolved to.
pub struct OpArg {
    pub addressing: Addressing,
    pub args: Vec<u8>,
    pub value: AddressingResult,
}

/// An instruction's operand as a mathematical value.
pub struct OpArgModel {
    pub addressing: Addressing,
    pub args: Seq<u8>,
    pub value: AddressingResult,
}

impl View for OpArg {
    type V = OpArgModel;

    open spec fn view(&self) -> OpArgModel {
        OpArgModel { addressing: self.addressing, args: self.args@, value: self.value }
    }
}

impl OpArg {
    /// An immediate operand with no bytes and no value.
    pub fn default() -> (r: OpArg)
        ensures
            r@ == (OpArgModel { addressing: Addressing::Imm, args: Seq::empty(), value: AddressingResult::Empty }),
    {
        OpArg { addressing: Addressing::Imm, args: Vec::new(), value: AddressingResult::Empty }
    }
}

/// The operand bytes of an instruction with no operand.
fn args0() -> (r: Vec<u8>)
    ensures
        r@ == Seq::<u8>::empty(),
{
    Vec::new()
}

/// The operand bytes of an instruction with a one-byte operand.
fn args1(a: u8) -> (r: Vec<u8>)
    ensures
        r@ == seq![a],
{
    let mut v: Vec<u8> = Vec::new();
    v.push(a);
    v
}

/// The operand bytes of an instruction with a two-byte operand.
fn args2(a: u8, b: u8) -> (r: Vec<u8>)
    ensures
        r@ == seq![a, b],
{
    let mut v: Vec<u8> = Vec::new();
    v.push(a);
    v.push(b);
    v
}

/// The little-endian word of two bytes.
pub open spec fn word(lo: u8, hi: u8) -> u16 {
    (lo as u16) | ((hi as u16) << 8u16)
}

/// A zero-page address indexed by `i`, wrapping within page zero.
pub open spec fn zp_index(base: u8, i: u8) -> u16 {
    ((base as u16 + i as u16) as u16) & 0x00FFu16
}

/// An address indexed by `i`, wrapping from $FFFF to $0000.
pub open spec fn indexed(base: u16, i: u8) -> u16 {
    (base as u32 + i as u32) as u16
}

/// The address the CPU first forms for an indexed access: the index added to
/// the low byte alone, the carry out of it not yet added to the high byte. It
/// differs from the final address exactly when the indexing crosses a page.
pub open spec fn indy_guess(lo: u8, hi: u8, i: u8) -> u16 {
    (((lo as u16 + i as u16) as u16) & 0x00FFu16) | ((hi as u16) << 8u16)
}

/// A fetch of the byte at PC followed by a cycle.
pub open spec fn fetch_tick(m: NesModel) -> (NesModel, u8) {
    let (m1, b) = fetch_spec(m);
    (tick_spec(m1), b)
}

/// A read of `addr` followed by a cycle.
pub open spec fn read_tick(m: NesModel, addr: u16) -> (NesModel, u8) {
    let (m1, b) = bus_read(m, addr);
    (tick_spec(m1), b)
}

/// The byte a store is about to overwrite, as the CPU trace shows it: read
/// when tracing, 0 otherwise.
pub open spec fn trace_read(m: NesModel, addr: u16) -> (NesModel, u8) {
    if m.trace {
        bus_read(m, addr)
    } else {
        (m, 0)
    }
}

/// `m` with the registers changed as an operation loads `v`.
pub open spec fn load_reg<O: RegOperations>(m: NesModel, op: O, v: u8) -> NesModel {
    with_cpu(m, op.loaded(m.cpu, v))
}

/// `m` with the registers changed as a binary operation with operand `v` changes them.
pub open spec fn apply_bin<O: BinaryOperation>(m: NesModel, op: O, v: u8) -> NesModel {
    with_cpu(m, op.effect(m.cpu, v))
}

/// `m` with PC set to `pc`.
pub open spec fn set_pc(m: NesModel, pc: u16) -> NesModel {
    with_cpu(m, Cpu { pc, ..m.cpu })
}

fn fetch_and_tick(nes: &mut Nes) -> (r: u8)
    requires
        old(nes).wf(),
    ensures
        final(nes).wf(),
        (final(nes)@, r) == fetch_tick(old(nes)@),
{
    let b = Cpu::fetch_byte_inc_pc(nes);
    nes.tick();
    b
}

fn read_and_tick(nes: &mut Nes, addr: u16) -> (r: u8)
    requires
        old(nes).wf(),
    ensures
        final(nes).wf(),
        (final(nes)@, r) == read_tick(old(nes)@, addr),
{
    let b = nes.read8(addr);
    nes.tick();
    b
}

fn read_for_trace(nes: &mut Nes, addr: u16) -> (r: u8)
    requires
        old(nes).wf(),
    ensures
        final(nes).wf(),
        (final(nes)@, r) == trace_read(old(nes)@, addr),
{
    if nes.trace {
        nes.read8(addr)
    } else {
        0
    }
}

/// Load through (zp,X): the pointer at zero-page (operand + X) gives the address.
pub open spec fn xind_load_spec<O: RegOperations>(m: NesModel, op: O) -> (NesModel, OpArgModel) {
    let (m1, _) = fetch_tick(m);
    let (m2, base) = fetch_tick(m1);
    let target = ((base as u16 + m2.cpu.x as u16) as u16) as u8;
    let m3 = tick_spec(m2);
    let (m4, lo) = read_tick(m3, target as u16);
    let (m5, hi) = read_tick(m4, ((target as u16 + 1) as u16) & 0x00FFu16);
    let addr = word(lo, hi);
    let (m6, v) = bus_read(m5, addr);
    let m7 = tick_spec(load_reg(m6, op, v));
    (m7, OpArgModel { addressing: Addressing::XInd, args: seq![base], value: AddressingResult::IndInfo(base, target as u16, addr, v) })
}

pub fn Xind_load<O: RegOperations>(nes: &mut Nes, op: O) -> (r: OpArg)
    requires
        old(nes).wf(),
    ensures
        final(nes).wf(),
        (final(nes)@, r@) == xind_load_spec(old(nes)@, op),
{
    fetch_and_tick(nes);
    let base_addr = fetch_and_tick(nes);
    let x = nes.cpu.x;
    let target_addr: u8 = (base_addr as u16 + x as u16) as u8;
    nes.tick();
    let lo = read_and_tick(nes, target_addr as u16);
    let hi = read_and_tick(nes, (target_addr as u16 + 1) & 0x00FF);
    let addr: u16 = (lo as u16) | ((hi as u16) << 8u16);
    let new_value = nes.read8(addr);
    op.load(nes, new_value);
    nes.tick();
    OpArg { addressing: Addressing::XInd, args: args1(base_addr), value: AddressingResult::IndInfo(base_addr, target_addr as u16, addr, new_value) }
}

/// Load from a zero-page address.
pub open spec fn zpg_load_spec<O: RegOperations>(m: NesModel, op: O) -> (NesModel, OpArgModel) {
    let (m1, _) = fetch_tick(m);
    let (m2, addr) = fetch_tick(m1);
    let (m3, v) = bus_read(m2, addr as u16);
    let m4 = tick_spec(load_reg(m3, op, v));
    (m4, OpArgModel { addressing: Addressing::Zpg, args: seq![addr], value: AddressingResult::RWValue(v) })
}

pub fn Zpg_load<O: RegOperations>(nes: &mut Nes, op: O) -> (r: OpArg)
    requires
        old(nes).wf(),
    ensures
        final(nes).wf(),
        (final(nes)@, r@) == zpg_load_spec(old(nes)@, op),
{
    fetch_and_tick(nes);
    let addr = fetch_and_tick(nes);
    let new_value = nes.read8(addr as u16);
    op.load(nes, new_value);
    nes.tick();
    OpArg { addressing: Addressing::Zpg, args: args1(addr), value: AddressingResult::RWValue(new_value) }
}

/// Load from an absolute address.
pub open spec fn abs_load_spec<O: RegOperations>(m: NesModel, op: O) -> (NesModel, OpArgModel) {
    let (m1, _) = fetch_tick(m);
    let (m2, lo) = fetch_tick(m1);
    let (m3, hi) = fetch_tick(m2);
    let addr = word(lo, hi);
    let (m4, v) = bus_read(m3, addr);
    let m5 = tick_spec(load_reg(m4, op, v));
    (m5, OpArgModel { addressing: Addressing::Abs, args: seq![lo, hi], value: AddressingResult::RWValue(v) })
}

pub fn Abs_load<O: RegOperations>(nes: &mut Nes, op: O) -> (r: OpArg)
    requires
        old(nes).wf(),
    ensures
        final(nes).wf(),
        (final(nes)@, r@) == abs_load_spec(old(nes)@, op),
{
    fetch_and_tick(nes);
    let lo = fetch_and_tick(nes);
    let hi = fetch_and_tick(nes);
    let addr: u16 = (lo as u16) | ((hi as u16) << 8u16);
    let new_value = nes.read8(addr);
    op.load(nes, new_value);
    nes.tick();
    OpArg { addressing: Addressing::Abs, args: args2(lo, hi), value: AddressingResult::RWValue(new_value) }
}

/// The pointer fetch of (zp),Y: the machine after it, the operand byte and the pointer bytes.
pub open spec fn indy_pointer(m: NesModel) -> (NesModel, u8, u8, u8) {
    let (m1, _) = fetch_tick(m);
    let (m2, base) = fetch_tick(m1);
    let (m3, lo) = read_tick(m2, base as u16);
    let (m4, hi) = read_tick(m3, ((base as u16 + 1) as u16) & 0x00FFu16);
    (m4, base, lo, hi)
}

fn indy_fetch_pointer(nes: &mut Nes) -> (r: (u8, u8, u8))
    requires
        old(nes).wf(),
    ensures
        final(nes).wf(),
        (final(nes)@, r.0, r.1, r.2) == indy_pointer(old(nes)@),
{
    fetch_and_tick(nes);
    let base_addr = fetch_and_tick(nes);
    let base_addr_lo: u16 = base_addr as u16;
    let base_addr_hi: u16 = (base_addr_lo + 1) & 0x00FF;
    let lo = read_and_tick(nes, base_addr_lo);
    let hi = read_and_tick(nes, base_addr_hi);
    (base_addr, lo, hi)
}

/// Load through (zp),Y: Y added to the pointer at zero-page operand; one more
/// cycle when the addition crosses a page.
pub open spec fn indy_load_spec<O: RegOperations>(m: NesModel, op: O) -> (NesModel, OpArgModel) {
    let (m4, base, lo, hi) = indy_pointer(m);
    let y = m4.cpu.y;
    let tmp = word(lo, hi);
    let eff = indexed(tmp, y);
    let m5 = if indy_guess(lo, hi, y) == eff { m4 } else { tick_spec(m4) };
    let (m6, v) = bus_read(m5, eff);
    let m7 = tick_spec(load_reg(m6, op, v));
    (m7, OpArgModel { addressing: Addressing::IndY, args: seq![base], value: AddressingResult::IndInfo(base, tmp, eff, v) })
}

pub fn IndY_load<O: RegOperations>(nes: &mut Nes, op: O) -> (r: OpArg)
    requires
        old(nes).wf(),
    ensures
        final(nes).wf(),
        (final(nes)@, r@) == indy_load_spec(old(nes)@, op),
{
    let (base_addr, lo8, hi8) = indy_fetch_pointer(nes);
    let lo: u16 = lo8 as u16;
    let hi: u16 = hi8 as u16;
    let y: u16 = nes.cpu.y as u16;
    let tmp_addr: u16 = lo | (hi << 8u16);
    let addr: u16 = ((lo + y) & 0x00FF) | (hi << 8u16);
    let effective_addr: u16 = (tmp_addr as u32 + y as u32) as u16;
    let addr = if addr == effective_addr {
        addr
    } else {
        nes.tick();
        effective_addr
    };
    let new_value = nes.read8(addr);
    op.load(nes, new_value);
    nes.tick();
    OpArg { addressing: Addressing::IndY, args: args1(base_addr), value: AddressingResult::IndInfo(base_addr, tmp_addr, effective_addr, new_value) }
}

/// Load from zero-page (operand + X) or (operand + Y).
pub open spec fn zpg_idx_load_spec<O: RegOperations>(m: NesModel, op: O, use_y: bool) -> (NesModel, OpArgModel) {
    let (m1, _) = fetch_tick(m);
    let (m2, lo) = fetch_tick(m1);
    let addr = zp_index(lo, if use_y { m2.cpu.y } else { m2.cpu.x });
    let (m3, v) = read_tick(m2, addr);
    let m4 = tick_spec(load_reg(m3, op, v));
    (m4, OpArgModel { addressing: if use_y { Addressing::ZpgY } else { Addressing::ZpgX }, args: seq![lo], value: AddressingResult::AbsZpgInfo(addr, v) })
}

pub fn ZpgX_load<O: RegOperations>(nes: &mut Nes, op: O) -> (r: OpArg)
    requires
        old(nes).wf(),
    ensures
        final(nes).wf(),
        (final(nes)@, r@) == zpg_idx_load_spec(old(nes)@, op, false),
{
    fetch_and_tick(nes);
    let lo = fetch_and_tick(nes);
    let addr: u16 = (lo as u16 + nes.cpu.x as u16) & 0x00FF;
    let new_value = read_and_tick(nes, addr);
    op.load(nes, new_value);
    nes.tick();
    OpArg { addressing: Addressing::ZpgX, args: args1(lo), value: AddressingResult::AbsZpgInfo(addr, new_value) }
}

pub fn ZpgY_load<O: RegOperations>(nes: &mut Nes, op: O) -> (r: OpArg)
    requires
        old(nes).wf(),
    ensures
        final(nes).wf(),
        (final(nes)@, r@) == zpg_idx_load_spec(old(nes)@, op, true),
{
    fetch_and_tick(nes);
    let lo = fetch_and_tick(nes);
    let addr: u16 = (lo as u16 + nes.cpu.y as u16) & 0x00FF;
    let new_value = read_and_tick(nes, addr);
    op.load(nes, new_value);
    nes.tick();
    OpArg { addressing: Addressing::ZpgY, args: args1(lo), value: AddressingResult::AbsZpgInfo(addr, new_value) }
}

/// Load from absolute + X or absolute + Y; one more cycle when the first
/// address formed is not the final one.
pub open spec fn abs_idx_load_spec<O: RegOperations>(m: NesModel, op: O, use_y: bool) -> (NesModel, OpArgModel) {
    let (m1, _) = fetch_tick(m);
    let (m2, lo) = fetch_tick(m1);
    let (m3, hi) = fetch_tick(m2);
    let i = if use_y { m3.cpu.y } else { m3.cpu.x };
    let eff = indexed(word(lo, hi), i);
    let m4 = if indy_guess(lo, hi, i) == eff { m3 } else { tick_spec(m3) };
    let (m5, v) = bus_read(m4, eff);
    let m6 = tick_spec(load_reg(m5, op, v));
    (m6, OpArgModel { addressing: if use_y { Addressing::AbsY } else { Addressing::AbsX }, args: seq![lo, hi], value: AddressingResult::AbsZpgInfo(eff, v) })
}

fn abs_idx_load<O: RegOperations>(nes: &mut Nes, op: O, use_y: bool) -> (r: OpArg)
    requires
        old(nes).wf(),
    ensures
        final(nes).wf(),
        (final(nes)@, r@) == abs_idx_load_spec(old(nes)@, op, use_y),
{
    fetch_and_tick(nes);
    let lo8 = fetch_and_tick(nes);
    let hi8 = fetch_and_tick(nes);
    let lo: u16 = lo8 as u16;
    let hi: u16 = hi8 as u16;
    let i: u16 = if use_y { nes.cpu.y as u16 } else { nes.cpu.x as u16 };
    let tmp_addr: u16 = lo | (hi << 8u16);
    let addr: u16 = ((lo + i) & 0x00FF) | (hi << 8u16);
    let effective_addr: u16 = (tmp_addr as u32 + i as u32) as u16;
    let addr = if addr == effective_addr {
        addr
    } else {
        nes.tick();
        effective_addr
    };
    let new_value = nes.read8(addr);
    op.load(nes, new_value);
    nes.tick();
    OpArg {
        addressing: if use_y { Addressing::AbsY } else { Addressing::AbsX },
        args: args2(lo8, hi8),
        value: AddressingResult::AbsZpgInfo(addr, new_value),
    }
}

pub fn AbsY_load<O: RegOperations>(nes: &mut Nes, op: O) -> (r: OpArg)
    requires
        old(nes).wf(),
    ensures
        final(nes).wf(),
        (final(nes)@, r@) == abs_idx_load_spec(old(nes)@, op, true),
{
    abs_idx_load(nes, op, true)
}

pub fn AbsX_load<O: RegOperations>(nes: &mut Nes, op: O) -> (r: OpArg)
    requires
        old(nes).wf(),
    ensures
        final(nes).wf(),
        (final(nes)@, r@) == abs_idx_load_spec(old(nes)@, op, false),
{
    abs_idx_load(nes, op, false)
}

/// Load the byte that follows the opcode.
pub open spec fn imm_load_spec<O: RegOperations>(m: NesModel, op: O) -> (NesModel, OpArgModel) {
    let (m1, _) = fetch_tick(m);
    let (m2, v) = fetch_spec(m1);
    let m3 = tick_spec(load_reg(m2, op, v));
    (m3, OpArgModel { addressing: Addressing::Imm, args: seq![v], value: AddressingResult::RWValue(v) })
}

pub fn Imm_load<O: RegOperations>(nes: &mut Nes, op: O) -> (r: OpArg)
    requires
        old(nes).wf(),
    ensures
        final(nes).wf(),
        (final(nes)@, r@) == imm_load_spec(old(nes)@, op),
{
    fetch_and_tick(nes);
    let new_value = Cpu::fetch_byte_inc_pc(nes);
    op.load(nes, new_value);
    nes.tick();
    OpArg { addressing: Addressing::Imm, args: args1(new_value), value: AddressingResult::RWValue(new_value) }
}

/// Store through (zp,X).
pub open spec fn xind_store_spec<O: RegOperations>(m: NesModel, op: O) -> (NesModel, OpArgModel) {
    let (m1, _) = fetch_tick(m);
    let (m2, base) = fetch_tick(m1);
    let target = ((base as u16 + m2.cpu.x as u16) as u16) as u8;
    let m3 = tick_spec(m2);
    let (m4, lo) = read_tick(m3, target as u16);
    let (m5, hi) = read_tick(m4, ((target as u16 + 1) as u16) & 0x00FFu16);
    let addr = word(lo, hi);
    let (m6, old) = trace_read(m5, addr);
    let m7 = tick_spec(bus_write(m6, addr, op.stored(m6.cpu)));
    (m7, OpArgModel { addressing: Addressing::XInd, args: seq![base], value: AddressingResult::IndInfo(base, target as u16, addr, old) })
}

pub fn Xind_store<O: RegOperations>(nes: &mut Nes, op: O) -> (r: OpArg)
    requires
        old(nes).wf(),
    ensures
        final(nes).wf(),
        (final(nes)@, r@) == xind_store_spec(old(nes)@, op),
{
    fetch_and_tick(nes);
    let base_addr = fetch_and_tick(nes);
    let x = nes.cpu.x;
    let target_addr: u8 = (base_addr as u16 + x as u16) as u8;
    nes.tick();
    let lo = read_and_tick(nes, target_addr as u16);
    let hi = read_and_tick(nes, (target_addr as u16 + 1) & 0x00FF);
    let addr: u16 = (lo as u16) | ((hi as u16) << 8u16);
    let old = read_for_trace(nes, addr);
    let value = op.read(nes);
    nes.store8(addr, value);
    nes.tick();
    OpArg { addressing: Addressing::XInd, args: args1(base_addr), value: AddressingResult::IndInfo(base_addr, target_addr as u16, addr, old) }
}

/// Store to a zero-page address.
pub open spec fn zpg_store_spec<O: RegOperations>(m: NesModel, op: O) -> (NesModel, OpArgModel) {
    let (m1, _) = fetch_tick(m);
    let (m2, addr) = fetch_spec(m1);
    let (m3, old) = trace_read(m2, addr as u16);
    let v = op.stored(m3.cpu);
    let m4 = tick_spec(m3);
    let m5 = tick_spec(bus_write(m4, addr as u16, v));
    (m5, OpArgModel { addressing: Addressing::Zpg, args: seq![addr], value: AddressingResult::RWValue(old) })
}

pub fn Zpg_store<O: RegOperations>(nes: &mut Nes, op: O) -> (r: OpArg)
    requires
        old(nes).wf(),
    ensures
        final(nes).wf(),
        (final(nes)@, r@) == zpg_store_spec(old(nes)@, op),
{
    fetch_and_tick(nes);
    let addr = Cpu::fetch_byte_inc_pc(nes);
    let old = read_for_trace(nes, addr as u16);
    let value = op.read(nes);
    nes.tick();
    nes.store8(addr as u16, value);
    nes.tick();
    OpArg { addressing: Addressing::Zpg, args: args1(addr), value: AddressingResult::RWValue(old) }
}

/// Store to an absolute address.
pub open spec fn abs_store_spec<O: RegOperations>(m: NesModel, op: O) -> (NesModel, OpArgModel) {
    let (m1, _) = fetch_tick(m);
    let (m2, lo) = fetch_tick(m1);
    let (m3, hi) = fetch_tick(m2);
    let addr = word(lo, hi);
    let (m4, old) = trace_read(m3, addr);
    let m5 = tick_spec(bus_write(m4, addr, op.stored(m4.cpu)));
    (m5, OpArgModel { addressing: Addressing::Abs, args: seq![lo, hi], value: AddressingResult::RWValue(old) })
}

pub fn Abs_store<O: RegOperations>(nes: &mut Nes, op: O) -> (r: OpArg)
    requires
        old(nes).wf(),
    ensures
        final(nes).wf(),
        (final(nes)@, r@) == abs_store_spec(old(nes)@, op),
{
    fetch_and_tick(nes);
    let lo = fetch_and_tick(nes);
    let hi = fetch_and_tick(nes);
    let addr: u16 = (lo as u16) | ((hi as u16) << 8u16);
    let old = read_for_trace(nes, addr);
    let value = op.read(nes);
    nes.store8(addr, value);
    nes.tick();
    OpArg { addressing: Addressing::Abs, args: args2(lo, hi), value: AddressingResult::RWValue(old) }
}

/// Store through (zp),Y (always six cycles).
pub open spec fn indy_store_spec<O: RegOperations>(m: NesModel, op: O) -> (NesModel, OpArgModel) {
    let (m4, base, lo, hi) = indy_pointer(m);
    let y = m4.cpu.y;
    let tmp = word(lo, hi);
    let eff = indexed(tmp, y);
    let m5 = tick_spec(m4);
    let v = op.stored(m5.cpu);
    let (m7, old) = trace_read(m5, eff);
    let m8 = tick_spec(bus_write(m7, eff, v));
    (m8, OpArgModel { addressing: Addressing::IndY, args: seq![base], value: AddressingResult::IndInfo(base, tmp, eff, old) })
}

pub fn IndY_store<O: RegOperations>(nes: &mut Nes, op: O) -> (r: OpArg)
    requires
        old(nes).wf(),
    ensures
        final(nes).wf(),
        (final(nes)@, r@) == indy_store_spec(old(nes)@, op),
{
    let (base_addr, lo8, hi8) = indy_fetch_pointer(nes);
    let lo: u16 = lo8 as u16;
    let hi: u16 = hi8 as u16;
    let y: u16 = nes.cpu.y as u16;
    let tmp_addr: u16 = lo | (hi << 8u16);
    let effective_addr: u16 = (tmp_addr as u32 + y as u32) as u16;
    nes.tick();
    let value = op.read(nes);
    let old = read_for_trace(nes, effective_addr);
    nes.store8(effective_addr, value);
    nes.tick();
    OpArg { addressing: Addressing::IndY, args: args1(base_addr), value: AddressingResult::IndInfo(base_addr, tmp_addr, effective_addr, old) }
}

/// Store to zero-page (operand + X) or (operand + Y).
pub open spec fn zpg_idx_store_spec<O: RegOperations>(m: NesModel, op: O, use_y: bool) -> (NesModel, OpArgModel) {
    let (m1, _) = fetch_tick(m);
    let (m2, lo) = fetch_tick(m1);
    let addr = zp_index(lo, if use_y { m2.cpu.y } else { m2.cpu.x });
    let v = op.stored(m2.cpu);
    let m3 = tick_spec(m2);
    let (m4, old) = trace_read(m3, addr);
    let m5 = tick_spec(bus_write(m4, addr, v));
    (m5, OpArgModel { addressing: if use_y { Addressing::ZpgY } else { Addressing::ZpgX }, args: seq![lo], value: AddressingResult::AbsZpgInfo(addr, old) })
}

fn zpg_idx_store<O: RegOperations>(nes: &mut Nes, op: O, use_y: bool) -> (r: OpArg)
    requires
        old(nes).wf(),
    ensures
        final(nes).wf(),
        (final(nes)@, r@) == zpg_idx_store_spec(old(nes)@, op, use_y),
{
    fetch_and_tick(nes);
    let lo = fetch_and_tick(nes);
    let i: u8 = if use_y { nes.cpu.y } else { nes.cpu.x };
    let addr: u16 = (lo as u16 + i as u16) & 0x00FF;
    let value = op.read(nes);
    nes.tick();
    let old = read_for_trace(nes, addr);
    nes.store8(addr, value);
    nes.tick();
    OpArg {
        addressing: if use_y { Addressing::ZpgY } else { Addressing::ZpgX },
        args: args1(lo),
        value: AddressingResult::AbsZpgInfo(addr, old),
    }
}

pub fn ZpgX_store<O: RegOperations>(nes: &mut Nes, op: O) -> (r: OpArg)
    requires
        old(nes).wf(),
    ensures
        final(nes).wf(),
        (final(nes)@, r@) == zpg_idx_store_spec(old(nes)@, op, false),
{
    zpg_idx_store(nes, op, false)
}

pub fn ZpgY_store<O: RegOperations>(nes: &mut Nes, op: O) -> (r: OpArg)
    requires
        old(nes).wf(),
    ensures
        final(nes).wf(),
        (final(nes)@, r@) == zpg_idx_store_spec(old(nes)@, op, true),
{
    zpg_idx_store(nes, op, true)
}

/// Store to absolute + X or absolute + Y (always five cycles).
pub open spec fn abs_idx_store_spec<O: RegOperations>(m: NesModel, op: O, use_y: bool) -> (NesModel, OpArgModel) {
    let (m1, _) = fetch_tick(m);
    let (m2, lo) = fetch_tick(m1);
    let (m3, hi) = fetch_tick(m2);
    let eff = indexed(word(lo, hi), if use_y { m3.cpu.y } else { m3.cpu.x });
    let m4 = tick_spec(m3);
    let (m5, old) = trace_read(m4, eff);
    let m6 = tick_spec(bus_write(m5, eff, op.stored(m5.cpu)));
    (m6, OpArgModel { addressing: if use_y { Addressing::AbsY } else { Addressing::AbsX }, args: seq![lo, hi], value: AddressingResult::AbsZpgInfo(eff, old) })
}

fn abs_idx_store<O: RegOperations>(nes: &mut Nes, op: O, use_y: bool) -> (r: OpArg)
    requires
        old(nes).wf(),
    ensures
        final(nes).wf(),
        (final(nes)@, r@) == abs_idx_store_spec(old(nes)@, op, use_y),
{
    fetch_and_tick(nes);
    let lo = fetch_and_tick(nes);
    let hi = fetch_and_tick(nes);
    let i: u8 = if use_y { nes.cpu.y } else { nes.cpu.x };
    let tmp_addr: u16 = (lo as u16) | ((hi as u16) << 8u16);
    let effective_addr: u16 = (tmp_addr as u32 + i as u32) as u16;
    nes.tick();
    let old = read_for_trace(nes, effective_addr);
    let value = op.read(nes);
    nes.store8(effective_addr, value);
    nes.tick();
    OpArg {
        addressing: if use_y { Addressing::AbsY } else { Addressing::AbsX },
        args: args2(lo, hi),
        value: AddressingResult::AbsZpgInfo(effective_addr, old),
    }
}

pub fn AbsY_store<O: RegOperations>(nes: &mut Nes, op: O) -> (r: OpArg)
    requires
        old(nes).wf(),
    ensures
        final(nes).wf(),
        (final(nes)@, r@) == abs_idx_store_spec(old(nes)@, op, true),
{
    abs_idx_store(nes, op, true)
}

pub fn AbsX_store<O: RegOperations>(nes: &mut Nes, op: O) -> (r: OpArg)
    requires
        old(nes).wf(),
    ensures
        final(nes).wf(),
        (final(nes)@, r@) == abs_idx_store_spec(old(nes)@, op, false),
{
    abs_idx_store(nes, op, false)
}

/// A register transfer: `dst` loads what `src` holds.
pub open spec fn transf_spec<S: RegOperations, D: RegOperations>(m: NesModel, src: S, dst: D) -> (NesModel, OpArgModel) {
    let (m1, _) = fetch_tick(m);
    let m2 = tick_spec(load_reg(m1, dst, src.stored(m1.cpu)));
    (m2, OpArgModel { addressing: Addressing::Implied, args: Seq::empty(), value: AddressingResult::Empty })
}

pub fn Transf<S: RegOperations, D: RegOperations>(nes: &mut Nes, src: S, dst: D) -> (r: OpArg)
    requires
        old(nes).wf(),
    ensures
        final(nes).wf(),
        (final(nes)@, r@) == transf_spec(old(nes)@, src, dst),
{
    fetch_and_tick(nes);
    let new_value = src.read(nes);
    dst.load(nes, new_value);
    nes.tick();
    OpArg { addressing: Addressing::Implied, args: args0(), value: AddressingResult::Empty }
}

/// `m` after `n` cycles.
pub open spec fn ticks(m: NesModel, n: nat) -> NesModel
    decreases n,
{
    if n == 0 {
        m
    } else {
        tick_spec(ticks(m, (n - 1) as nat))
    }
}

/// An implied-operand operation that takes `cycles` cycles (2 to 4).
pub open spec fn impl_calc_spec<O: ImplOperation>(m: NesModel, op: O, cycles: nat) -> (NesModel, OpArgModel) {
    let (m1, _) = fetch_tick(m);
    let m2 = ticks(op.effect(m1), (cycles - 1) as nat);
    (m2, OpArgModel { addressing: Addressing::Implied, args: Seq::empty(), value: AddressingResult::Empty })
}

pub fn Impl_calc<O: ImplOperation>(nes: &mut Nes, op: O) -> (r: OpArg)
    requires
        old(nes).wf(),
    ensures
        final(nes).wf(),
        (final(nes)@, r@) == impl_calc_spec(old(nes)@, op, 2),
{
    fetch_and_tick(nes);
    op.calc_and_set(nes);
    nes.tick();
    proof {
        reveal_with_fuel(ticks, 2);
    }
    OpArg { addressing: Addressing::Implied, args: args0(), value: AddressingResult::Empty }
}

pub fn Impl_calc3<O: ImplOperation>(nes: &mut Nes, op: O) -> (r: OpArg)
    requires
        old(nes).wf(),
    ensures
        final(nes).wf(),
        (final(nes)@, r@) == impl_calc_spec(old(nes)@, op, 3),
{
    fetch_and_tick(nes);
    op.calc_and_set(nes);
    nes.tick();
    nes.tick();
    proof {
        reveal_with_fuel(ticks, 3);
    }
    OpArg { addressing: Addressing::Implied, args: args0(), value: AddressingResult::Empty }
}

pub fn Impl_calc4<O: ImplOperation>(nes: &mut Nes, op: O) -> (r: OpArg)
    requires
        old(nes).wf(),
    ensures
        final(nes).wf(),
        (final(nes)@, r@) == impl_calc_spec(old(nes)@, op, 4),
{
    fetch_and_tick(nes);
    op.calc_and_set(nes);
    nes.tick();
    nes.tick();
    nes.tick();
    proof {
        reveal_with_fuel(ticks, 4);
    }
    OpArg { addressing: Addressing::Implied, args: args0(), value: AddressingResult::Empty }
}

/// (zp,X) with a binary operation.
pub open spec fn xind_calc_spec<O: BinaryOperation>(m: NesModel, op: O) -> (NesModel, OpArgModel) {
    let (m1, _) = fetch_tick(m);
    let (m2, base) = fetch_tick(m1);
    let target = ((base as u16 + m2.cpu.x as u16) as u16) as u8;
    let m3 = tick_spec(m2);
    let (m4, lo) = read_tick(m3, target as u16);
    let (m5, hi) = read_tick(m4, ((target as u16 + 1) as u16) & 0x00FFu16);
    let addr = word(lo, hi);
    let (m6, v) = bus_read(m5, addr);
    let m7 = tick_spec(apply_bin(m6, op, v));
    (m7, OpArgModel { addressing: Addressing::XInd, args: seq![base], value: AddressingResult::IndInfo(base, target as u16, addr, v) })
}

pub fn Xind_calc<O: BinaryOperation>(nes: &mut Nes, op: O) -> (r: OpArg)
    requires
        old(nes).wf(),
    ensures
        final(nes).wf(),
        (final(nes)@, r@) == xind_calc_spec(old(nes)@, op),
{
    fetch_and_tick(nes);
    let base_addr = fetch_and_tick(nes);
    let x = nes.cpu.x;
    let target_addr: u8 = base_addr.wrapping_add(x);
    assert(target_addr == ((base_addr as u16 + x as u16) as u16) as u8) by (bit_vector)
        requires
            target_addr == base_addr.wrapping_add(x),
    ;
    nes.tick();
    let lo = read_and_tick(nes, target_addr as u16);
    let next: u8 = target_addr.wrapping_add(1);
    assert(next as u16 == ((target_addr as u16 + 1) as u16) & 0x00FFu16) by (bit_vector)
        requires
            next == target_addr.wrapping_add(1),
    ;
    let hi = read_and_tick(nes, next as u16);
    let addr: u16 = (lo as u16) | ((hi as u16) << 8u16);
    let value = nes.read8(addr);
    op.calc_and_set(nes, value);
    nes.tick();
    OpArg { addressing: Addressing::XInd, args: args1(base_addr), value: AddressingResult::IndInfo(base_addr, target_addr as u16, addr, value) }
}

/// Zero page with a binary operation.
pub open spec fn zpg_calc_spec<O: BinaryOperation>(m: NesModel, op: O) -> (NesModel, OpArgModel) {
    let (m1, _) = fetch_tick(m);
    let (m2, addr) = fetch_tick(m1);
    let (m3, v) = bus_read(m2, addr as u16);
    let m4 = tick_spec(apply_bin(m3, op, v));
    (m4, OpArgModel { addressing: Addressing::Zpg, args: seq![addr], value: AddressingResult::RWValue(v) })
}

pub fn Zpg_calc<O: BinaryOperation>(nes: &mut Nes, op: O) -> (r: OpArg)
    requires
        old(nes).wf(),
    ensures
        final(nes).wf(),
        (final(nes)@, r@) == zpg_calc_spec(old(nes)@, op),
{
    fetch_and_tick(nes);
    let addr = fetch_and_tick(nes);
    let value = nes.read8(addr as u16);
    op.calc_and_set(nes, value);
    nes.tick();
    OpArg { addressing: Addressing::Zpg, args: args1(addr), value: AddressingResult::RWValue(value) }
}

/// Immediate operand with a binary operation (traced as implied).
pub open spec fn imm_calc_spec<O: BinaryOperation>(m: NesModel, op: O) -> (NesModel, OpArgModel) {
    let (m1, _) = fetch_tick(m);
    let (m2, v) = fetch_spec(m1);
    let m3 = tick_spec(apply_bin(m2, op, v));
    (m3, OpArgModel { addressing: Addressing::Implied, args: seq![v], value: AddressingResult::RWValue(v) })
}

pub fn Imm_calc<O: BinaryOperation>(nes: &mut Nes, op: O) -> (r: OpArg)
    requires
        old(nes).wf(),
    ensures
        final(nes).wf(),
        (final(nes)@, r@) == imm_calc_spec(old(nes)@, op),
{
    fetch_and_tick(nes);
    let value = Cpu::fetch_byte_inc_pc(nes);
    op.calc_and_set(nes, value);
    nes.tick();
    OpArg { addressing: Addressing::Implied, args: args1(value), value: AddressingResult::RWValue(value) }
}

/// Absolute address with a binary operation.
pub open spec fn abs_calc_spec<O: BinaryOperation>(m: NesModel, op: O) -> (NesModel, OpArgModel) {
    let (m1, _) = fetch_tick(m);
    let (m2, lo) = fetch_tick(m1);
    let (m3, hi) = fetch_tick(m2);
    let addr = word(lo, hi);
    let (m4, v) = bus_read(m3, addr);
    let m5 = tick_spec(apply_bin(m4, op, v));
    (m5, OpArgModel { addressing: Addressing::Abs, args: seq![lo, hi], value: AddressingResult::RWValue(v) })
}

pub fn Abs_calc<O: BinaryOperation>(nes: &mut Nes, op: O) -> (r: OpArg)
    requires
        old(nes).wf(),
    ensures
        final(nes).wf(),
        (final(nes)@, r@) == abs_calc_spec(old(nes)@, op),
{
    fetch_and_tick(nes);
    let lo = fetch_and_tick(nes);
    let hi = fetch_and_tick(nes);
    let addr: u16 = (lo as u16) | ((hi as u16) << 8u16);
    let value = nes.read8(addr);
    op.calc_and_set(nes, value);
    nes.tick();
    OpArg { addressing: Addressing::Abs, args: args2(lo, hi), value: AddressingResult::RWValue(value) }
}

/// (zp),Y with a binary operation; one more cycle on a page crossing.
pub open spec fn indy_calc_spec<O: BinaryOperation>(m: NesModel, op: O) -> (NesModel, OpArgModel) {
    let (m4, base, lo, hi) = indy_pointer(m);
    let y = m4.cpu.y;
    let tmp = word(lo, hi);
    let eff = indexed(tmp, y);
    let m5 = if indy_guess(lo, hi, y) == eff { m4 } else { tick_spec(m4) };
    let (m6, v) = bus_read(m5, eff);
    let m7 = tick_spec(apply_bin(m6, op, v));
    (m7, OpArgModel { addressing: Addressing::IndY, args: seq![base], value: AddressingResult::IndInfo(base, tmp, eff, v) })
}

pub fn IndY_calc<O: BinaryOperation>(nes: &mut Nes, op: O) -> (r: OpArg)
    requires
        old(nes).wf(),
    ensures
        final(nes).wf(),
        (final(nes)@, r@) == indy_calc_spec(old(nes)@, op),
{
    let (base_addr, lo8, hi8) = indy_fetch_pointer(nes);
    let lo: u16 = lo8 as u16;
    let hi: u16 = hi8 as u16;
    let y: u16 = nes.cpu.y as u16;
    let tmp_addr: u16 = lo | (hi << 8u16);
    let addr: u16 = ((lo + y) & 0x00FF) | (hi << 8u16);
    let effective_addr: u16 = (tmp_addr as u32 + y as u32) as u16;
    let addr = if addr == effective_addr {
        addr
    } else {
        nes.tick();
        effective_addr
    };
    let new_value = nes.read8(addr);
    op.calc_and_set(nes, new_value);
    nes.tick();
    OpArg { addressing: Addressing::IndY, args: args1(base_addr), value: AddressingResult::IndInfo(base_addr, tmp_addr, effective_addr, new_value) }
}

/// Zero-page (operand + X) with a binary operation.
pub open spec fn zpgx_calc_spec<O: BinaryOperation>(m: NesModel, op: O) -> (NesModel, OpArgModel) {
    let (m1, _) = fetch_tick(m);
    let (m2, lo) = fetch_tick(m1);
    let addr = zp_index(lo, m2.cpu.x);
    let (m3, v) = read_tick(m2, addr);
    let m4 = tick_spec(apply_bin(m3, op, v));
    (m4, OpArgModel { addressing: Addressing::ZpgX, args: seq![lo], value: AddressingResult::AbsZpgInfo(addr, v) })
}

pub fn ZpgX_calc<O: BinaryOperation>(nes: &mut Nes, op: O) -> (r: OpArg)
    requires
        old(nes).wf(),
    ensures
        final(nes).wf(),
        (final(nes)@, r@) == zpgx_calc_spec(old(nes)@, op),
{
    fetch_and_tick(nes);
    let lo = fetch_and_tick(nes);
    let addr: u16 = (lo as u16 + nes.cpu.x as u16) & 0x00FF;
    let value = read_and_tick(nes, addr);
    op.calc_and_set(nes, value);
    nes.tick();
    OpArg { addressing: Addressing::ZpgX, args: args1(lo), value: AddressingResult::AbsZpgInfo(addr, value) }
}

/// Zero-page (operand + Y) with a binary operation; no opcode uses it.
pub open spec fn zpgy_calc_spec<O: BinaryOperation>(m: NesModel, op: O) -> (NesModel, OpArgModel) {
    let (m1, _) = fetch_tick(m);
    let (m2, lo) = fetch_tick(m1);
    let addr = lo.wrapping_add(m2.cpu.y) as u16;
    let (m3, v) = read_tick(m2, addr);
    let m4 = tick_spec(apply_bin(m3, op, v));
    (m4, OpArgModel { addressing: Addressing::ZpgY, args: seq![lo], value: AddressingResult::AbsZpgInfo(addr, v) })
}

pub fn _ZpgY_calc<O: BinaryOperation>(nes: &mut Nes, op: O) -> (r: OpArg)
    requires
        old(nes).wf(),
    ensures
        final(nes).wf(),
        (final(nes)@, r@) == zpgy_calc_spec(old(nes)@, op),
{
    fetch_and_tick(nes);
    let lo = fetch_and_tick(nes);
    let addr: u16 = lo.wrapping_add(nes.cpu.y) as u16;
    let value = read_and_tick(nes, addr);
    op.calc_and_set(nes, value);
    nes.tick();
    OpArg { addressing: Addressing::ZpgY, args: args1(lo), value: AddressingResult::AbsZpgInfo(addr, value) }
}

/// Absolute + Y with a binary operation; one more cycle when the first address
/// formed is not the final one.
pub open spec fn absy_calc_spec<O: BinaryOperation>(m: NesModel, op: O) -> (NesModel, OpArgModel) {
    let (m1, _) = fetch_tick(m);
    let (m2, lo) = fetch_tick(m1);
    let (m3, hi) = fetch_tick(m2);
    let y = m3.cpu.y;
    let eff = indexed(word(lo, hi), y);
    let m4 = if indy_guess(lo, hi, y) == eff { m3 } else { tick_spec(m3) };
    let (m5, v) = bus_read(m4, eff);
    let m6 = tick_spec(apply_bin(m5, op, v));
    (m6, OpArgModel { addressing: Addressing::AbsY, args: seq![lo, hi], value: AddressingResult::AbsZpgInfo(eff, v) })
}

pub fn AbsY_calc<O: BinaryOperation>(nes: &mut Nes, op: O) -> (r: OpArg)
    requires
        old(nes).wf(),
    ensures
        final(nes).wf(),
        (final(nes)@, r@) == absy_calc_spec(old(nes)@, op),
{
    fetch_and_tick(nes);
    let lo8 = fetch_and_tick(nes);
    let hi8 = fetch_and_tick(nes);
    let lo: u16 = lo8 as u16;
    let hi: u16 = hi8 as u16;
    let y: u16 = nes.cpu.y as u16;
    let tmp_addr: u16 = lo | (hi << 8u16);
    let addr: u16 = ((lo + y) & 0x00FF) | (hi << 8u16);
    let effective_addr: u16 = (tmp_addr as u32 + y as u32) as u16;
    let addr = if addr == effective_addr {
        addr
    } else {
        nes.tick();
        effective_addr
    };
    let value = nes.read8(addr);
    op.calc_and_set(nes, value);
    nes.tick();
    OpArg { addressing: Addressing::AbsY, args: args2(lo8, hi8), value: AddressingResult::AbsZpgInfo(addr, value) }
}

/// Absolute + X with a binary operation; one more cycle when the indexing
/// crosses a page.
pub open spec fn absx_calc_spec<O: BinaryOperation>(m: NesModel, op: O) -> (NesModel, OpArgModel) {
    let (m1, _) = fetch_tick(m);
    let (m2, lo) = fetch_tick(m1);
    let (m3, hi) = fetch_tick(m2);
    let x = m3.cpu.x;
    let addr = indexed(word(lo, hi), x);
    let m3a = if indy_guess(lo, hi, x) == addr { m3 } else { tick_spec(m3) };
    let (m4, v) = bus_read(m3a, addr);
    let m5 = tick_spec(apply_bin(m4, op, v));
    (m5, OpArgModel { addressing: Addressing::AbsX, args: seq![lo, hi], value: AddressingResult::AbsZpgInfo(addr, v) })
}

pub fn AbsX_calc<O: BinaryOperation>(nes: &mut Nes, op: O) -> (r: OpArg)
    requires
        old(nes).wf(),
    ensures
        final(nes).wf(),
        (final(nes)@, r@) == absx_calc_spec(old(nes)@, op),
{
    fetch_and_tick(nes);
    let lo = fetch_and_tick(nes);
    let hi = fetch_and_tick(nes);
    let x = nes.cpu.x;
    let addr: u16 = (((lo as u16) | ((hi as u16) << 8u16)) as u32 + x as u32) as u16;
    let guess: u16 = ((lo as u16 + x as u16) & 0x00FF) | ((hi as u16) << 8u16);
    if guess != addr {
        nes.tick();
    }
    let value = nes.read8(addr);
    op.calc_and_set(nes, value);
    nes.tick();
    OpArg { addressing: Addressing::AbsX, args: args2(lo, hi), value: AddressingResult::AbsZpgInfo(addr, value) }
}

/// A binary operation on A itself (ASL A, ROL A, LSR A, ROR A).
pub open spec fn reg_calc_spec<O: BinaryOperation>(m: NesModel, op: O) -> (NesModel, OpArgModel) {
    let (m1, _) = fetch_tick(m);
    let m2 = tick_spec(apply_bin(m1, op, m1.cpu.a));
    (m2, OpArgModel { addressing: Addressing::Implied, args: Seq::empty(), value: AddressingResult::RegA })
}

pub fn Reg_calc<O: BinaryOperation>(nes: &mut Nes, op: O) -> (r: OpArg)
    requires
        old(nes).wf(),
    ensures
        final(nes).wf(),
        (final(nes)@, r@) == reg_calc_spec(old(nes)@, op),
{
    fetch_and_tick(nes);
    let value = nes.cpu.a;
    op.calc_and_set(nes, value);
    nes.tick();
    OpArg { addressing: Addressing::Implied, args: args0(), value: AddressingResult::RegA }
}

/// The read-modify-write tail shared by the memory operations: read `addr`,
/// a cycle, compute, a cycle, write back, a cycle. Returns the byte read.
pub open spec fn rmw<O: MemCalcOperation>(m: NesModel, op: O, addr: u16) -> (NesModel, u8) {
    let (m1, v) = read_tick(m, addr);
    let (c, nv) = op.effect(m1.cpu, v);
    let m2 = tick_spec(with_cpu(m1, c));
    let m3 = tick_spec(bus_write(m2, addr, nv));
    (m3, v)
}

fn read_modify_write<O: MemCalcOperation>(nes: &mut Nes, op: O, addr: u16) -> (r: u8)
    requires
        old(nes).wf(),
    ensures
        final(nes).wf(),
        (final(nes)@, r) == rmw(old(nes)@, op, addr),
{
    let value = read_and_tick(nes, addr);
    let new_value = op.calc(nes, value);
    nes.tick();
    nes.store8(addr, new_value);
    nes.tick();
    value
}

/// Read-modify-write of a zero-page byte.
pub open spec fn mem_zpg_spec<O: MemCalcOperation>(m: NesModel, op: O) -> (NesModel, OpArgModel) {
    let (m1, _) = fetch_tick(m);
    let (m2, addr) = fetch_tick(m1);
    let (m3, v) = rmw(m2, op, addr as u16);
    (m3, OpArgModel { addressing: Addressing::Zpg, args: seq![addr], value: AddressingResult::RWValue(v) })
}

pub fn Mem_Zpg_calc<O: MemCalcOperation>(nes: &mut Nes, op: O) -> (r: OpArg)
    requires
        old(nes).wf(),
    ensures
        final(nes).wf(),
        (final(nes)@, r@) == mem_zpg_spec(old(nes)@, op),
{
    fetch_and_tick(nes);
    let addr = fetch_and_tick(nes);
    let value = read_modify_write(nes, op, addr as u16);
    OpArg { addressing: Addressing::Zpg, args: args1(addr), value: AddressingResult::RWValue(value) }
}

/// Read-modify-write of an absolute address.
pub open spec fn mem_abs_spec<O: MemCalcOperation>(m: NesModel, op: O) -> (NesModel, OpArgModel) {
    let (m1, _) = fetch_tick(m);
    let (m2, lo) = fetch_tick(m1);
    let (m3, hi) = fetch_tick(m2);
    let (m4, v) = rmw(m3, op, word(lo, hi));
    (m4, OpArgModel { addressing: Addressing::Abs, args: seq![lo, hi], value: AddressingResult::RWValue(v) })
}

pub fn Mem_Abs_calc<O: MemCalcOperation>(nes: &mut Nes, op: O) -> (r: OpArg)
    requires
        old(nes).wf(),
    ensures
        final(nes).wf(),
        (final(nes)@, r@) == mem_abs_spec(old(nes)@, op),
{
    fetch_and_tick(nes);
    let lo = fetch_and_tick(nes);
    let hi = fetch_and_tick(nes);
    let addr: u16 = (lo as u16) | ((hi as u16) << 8u16);
    let value = read_modify_write(nes, op, addr);
    OpArg { addressing: Addressing::Abs, args: args2(lo, hi), value: AddressingResult::RWValue(value) }
}

/// Read-modify-write of zero-page (operand + X).
pub open spec fn mem_zpgx_spec<O: MemCalcOperation>(m: NesModel, op: O) -> (NesModel, OpArgModel) {
    let (m1, _) = fetch_tick(m);
    let (m2, lo) = fetch_tick(m1);
    let addr = zp_index(lo, m2.cpu.x);
    let (m3, v) = rmw(tick_spec(m2), op, addr);
    (m3, OpArgModel { addressing: Addressing::ZpgX, args: seq![lo], value: AddressingResult::AbsZpgInfo(addr, v) })
}

pub fn Mem_ZpgX_calc<O: MemCalcOperation>(nes: &mut Nes, op: O) -> (r: OpArg)
    requires
        old(nes).wf(),
    ensures
        final(nes).wf(),
        (final(nes)@, r@) == mem_zpgx_spec(old(nes)@, op),
{
    fetch_and_tick(nes);
    let lo = fetch_and_tick(nes);
    let addr: u16 = (lo as u16 + nes.cpu.x as u16) & 0x00FF;
    nes.tick();
    let value = read_modify_write(nes, op, addr);
    OpArg { addressing: Addressing::ZpgX, args: args1(lo), value: AddressingResult::AbsZpgInfo(addr, value) }
}

/// Read-modify-write of absolute + X or absolute + Y.
pub open spec fn mem_abs_idx_spec<O: MemCalcOperation>(m: NesModel, op: O, use_y: bool) -> (NesModel, OpArgModel) {
    let (m1, _) = fetch_tick(m);
    let (m2, lo) = fetch_tick(m1);
    let (m3, hi) = fetch_tick(m2);
    let addr = indexed(word(lo, hi), if use_y { m3.cpu.y } else { m3.cpu.x });
    let (m4, v) = rmw(tick_spec(m3), op, addr);
    (m4, OpArgModel { addressing: if use_y { Addressing::AbsY } else { Addressing::AbsX }, args: seq![lo, hi], value: AddressingResult::AbsZpgInfo(addr, v) })
}

fn mem_abs_idx<O: MemCalcOperation>(nes: &mut Nes, op: O, use_y: bool) -> (r: OpArg)
    requires
        old(nes).wf(),
    ensures
        final(nes).wf(),
        (final(nes)@, r@) == mem_abs_idx_spec(old(nes)@, op, use_y),
{
    fetch_and_tick(nes);
    let lo = fetch_and_tick(nes);
    let hi = fetch_and_tick(nes);
    let i: u8 = if use_y { nes.cpu.y } else { nes.cpu.x };
    let addr: u16 = (((lo as u16) | ((hi as u16) << 8u16)) as u32 + i as u32) as u16;
    nes.tick();
    let value = read_modify_write(nes, op, addr);
    OpArg {
        addressing: if use_y { Addressing::AbsY } else { Addressing::AbsX },
        args: args2(lo, hi),
        value: AddressingResult::AbsZpgInfo(addr, value),
    }
}

pub fn Mem_AbsX_calc<O: MemCalcOperation>(nes: &mut Nes, op: O) -> (r: OpArg)
    requires
        old(nes).wf(),
    ensures
        final(nes).wf(),
        (final(nes)@, r@) == mem_abs_idx_spec(old(nes)@, op, false),
{
    mem_abs_idx(nes, op, false)
}

pub fn Mem_AbsY_calc<O: MemCalcOperation>(nes: &mut Nes, op: O) -> (r: OpArg)
    requires
        old(nes).wf(),
    ensures
        final(nes).wf(),
        (final(nes)@, r@) == mem_abs_idx_spec(old(nes)@, op, true),
{
    mem_abs_idx(nes, op, true)
}

/// Read-modify-write through (zp,X).
pub open spec fn mem_xind_spec<O: MemCalcOperation>(m: NesModel, op: O) -> (NesModel, OpArgModel) {
    let (m1, _) = fetch_tick(m);
    let (m2, base) = fetch_tick(m1);
    let target = ((base as u16 + m2.cpu.x as u16) as u16) as u8;
    let m3 = tick_spec(m2);
    let (m4, lo) = read_tick(m3, target as u16);
    let (m5, hi) = read_tick(m4, ((target as u16 + 1) as u16) & 0x00FFu16);
    let addr = word(lo, hi);
    let (m6, v) = rmw(m5, op, addr);
    (m6, OpArgModel { addressing: Addressing::XInd, args: seq![base], value: AddressingResult::IndInfo(base, target as u16, addr, v) })
}

pub fn Mem_Xind_calc<O: MemCalcOperation>(nes: &mut Nes, op: O) -> (r: OpArg)
    requires
        old(nes).wf(),
    ensures
        final(nes).wf(),
        (final(nes)@, r@) == mem_xind_spec(old(nes)@, op),
{
    fetch_and_tick(nes);
    let base_addr = fetch_and_tick(nes);
    let x = nes.cpu.x;
    let target_addr: u8 = base_addr.wrapping_add(x);
    assert(target_addr == ((base_addr as u16 + x as u16) as u16) as u8) by (bit_vector)
        requires
            target_addr == base_addr.wrapping_add(x),
    ;
    nes.tick();
    let lo = read_and_tick(nes, target_addr as u16);
    let next: u8 = target_addr.wrapping_add(1);
    assert(next as u16 == ((target_addr as u16 + 1) as u16) & 0x00FFu16) by (bit_vector)
        requires
            next == target_addr.wrapping_add(1),
    ;
    let hi = read_and_tick(nes, next as u16);
    let addr: u16 = (lo as u16) | ((hi as u16) << 8u16);
    let value = read_modify_write(nes, op, addr);
    OpArg { addressing: Addressing::XInd, args: args1(base_addr), value: AddressingResult::IndInfo(base_addr, target_addr as u16, addr, value) }
}

/// Read-modify-write through (zp),Y (always eight cycles).
pub open spec fn mem_indy_spec<O: MemCalcOperation>(m: NesModel, op: O) -> (NesModel, OpArgModel) {
    let (m4, base, lo, hi) = indy_pointer(m);
    let tmp = word(lo, hi);
    let eff = indexed(tmp, m4.cpu.y);
    let m5 = tick_spec(tick_spec(m4));
    let (m6, v) = bus_read(m5, eff);
    let (c, nv) = op.effect(m6.cpu, v);
    let m7 = tick_spec(with_cpu(m6, c));
    let m8 = tick_spec(bus_write(m7, eff, nv));
    (m8, OpArgModel { addressing: Addressing::IndY, args: seq![base], value: AddressingResult::IndInfo(base, tmp, eff, v) })
}

pub fn Mem_IndY_calc<O: MemCalcOperation>(nes: &mut Nes, op: O) -> (r: OpArg)
    requires
        old(nes).wf(),
    ensures
        final(nes).wf(),
        (final(nes)@, r@) == mem_indy_spec(old(nes)@, op),
{
    let (base_addr, lo8, hi8) = indy_fetch_pointer(nes);
    let lo: u16 = lo8 as u16;
    let hi: u16 = hi8 as u16;
    let y: u16 = nes.cpu.y as u16;
    nes.tick();
    let tmp_addr: u16 = lo | (hi << 8u16);
    let effective_addr: u16 = (tmp_addr as u32 + y as u32) as u16;
    nes.tick();
    let value = nes.read8(effective_addr);
    let new_value = op.calc(nes, value);
    nes.tick();
    nes.store8(effective_addr, new_value);
    nes.tick();
    OpArg { addressing: Addressing::IndY, args: args1(base_addr), value: AddressingResult::IndInfo(base_addr, tmp_addr, effective_addr, value) }
}

/// The target of a relative branch: PC plus the signed offset, wrapping.
pub open spec fn branch_target(pc: u16, offset: u8) -> u16 {
    ((pc + (if offset >= 128 { offset - 256 } else { offset as int }) + 65536) % 65536) as u16
}

/// A conditional branch: when taken, one cycle more, and one more again
/// when the target lies in another page.
pub open spec fn rel_branch_spec<O: BranchOperation>(m: NesModel, op: O) -> (NesModel, OpArgModel) {
    let (m1, _) = fetch_tick(m);
    let (m2, offset) = fetch_tick(m1);
    let pc = m2.cpu.pc;
    let addr = branch_target(pc, offset);
    let m3 = if op.taken(m2.cpu) {
        let m_page = if (pc ^ addr) & 0x0100u16 != 0 { tick_spec(m2) } else { m2 };
        tick_spec(set_pc(m_page, addr))
    } else {
        m2
    };
    (m3, OpArgModel { addressing: Addressing::Branch, args: seq![offset], value: AddressingResult::Address(addr) })
}

pub fn rel_branch<O: BranchOperation>(nes: &mut Nes, op: O) -> (r: OpArg)
    requires
        old(nes).wf(),
    ensures
        final(nes).wf(),
        (final(nes)@, r@) == rel_branch_spec(old(nes)@, op),
{
    fetch_and_tick(nes);
    let offset = fetch_and_tick(nes);
    let pc = nes.cpu.pc;
    let addr: u16 = if offset >= 128 {
        ((pc as u32 + offset as u32 + 0xFF00) % 0x10000) as u16
    } else {
        ((pc as u32 + offset as u32) % 0x10000) as u16
    };
    if op.branch(nes) {
        if (pc ^ addr) & 0x0100 != 0 {
            nes.tick();
        }
        nes.cpu.pc = addr;
        nes.tick();
    }
    OpArg { addressing: Addressing::Branch, args: args1(offset), value: AddressingResult::Address(addr) }
}

/// JMP absolute.
pub open spec fn abs_branch_spec(m: NesModel) -> (NesModel, OpArgModel) {
    let (m1, _) = fetch_tick(m);
    let (m2, lo) = fetch_tick(m1);
    let (m3, hi) = fetch_spec(m2);
    let pc = word(lo, hi);
    let m4 = tick_spec(set_pc(m3, pc));
    (m4, OpArgModel { addressing: Addressing::Branch, args: seq![lo, hi], value: AddressingResult::Address(pc) })
}

pub fn abs_branch(nes: &mut Nes) -> (r: OpArg)
    requires
        old(nes).wf(),
    ensures
        final(nes).wf(),
        (final(nes)@, r@) == abs_branch_spec(old(nes)@),
{
    fetch_and_tick(nes);
    let lo = fetch_and_tick(nes);
    let hi = Cpu::fetch_byte_inc_pc(nes);
    let pc: u16 = (lo as u16) | ((hi as u16) << 8u16);
    nes.cpu.pc = pc;
    nes.tick();
    OpArg { addressing: Addressing::Branch, args: args2(lo, hi), value: AddressingResult::Address(pc) }
}

/// JMP indirect: the pointer's high byte is read from the same page as its
/// low byte (the 6502 page-wrap).
pub open spec fn ind_branch_spec(m: NesModel) -> (NesModel, OpArgModel) {
    let (m1, _) = fetch_tick(m);
    let (m2, base_lo) = fetch_tick(m1);
    let (m3, base_hi) = fetch_tick(m2);
    let ptr_lo = word(base_lo, base_hi);
    let ptr_hi = (((base_lo as u16 + 1) as u16) & 0x00FFu16) | ((base_hi as u16) << 8u16);
    let (m4, lo) = read_tick(m3, ptr_lo);
    let (m5, hi) = bus_read(m4, ptr_hi);
    let addr = word(lo, hi);
    let m6 = tick_spec(set_pc(m5, addr));
    (m6, OpArgModel { addressing: Addressing::Branch, args: seq![base_lo, base_hi], value: AddressingResult::IndInfo(0, ptr_lo, addr, 0) })
}

pub fn ind_branch(nes: &mut Nes) -> (r: OpArg)
    requires
        old(nes).wf(),
    ensures
        final(nes).wf(),
        (final(nes)@, r@) == ind_branch_spec(old(nes)@),
{
    fetch_and_tick(nes);
    let base_lo = fetch_and_tick(nes);
    let base_hi = fetch_and_tick(nes);
    let ptr_to_lo: u16 = (base_lo as u16) | ((base_hi as u16) << 8u16);
    let ptr_to_hi: u16 = ((base_lo as u16 + 1) & 0x00FF) | ((base_hi as u16) << 8u16);
    let lo = read_and_tick(nes, ptr_to_lo);
    let hi = nes.read8(ptr_to_hi);
    let addr: u16 = (lo as u16) | ((hi as u16) << 8u16);
    nes.cpu.pc = addr;
    nes.tick();
    OpArg { addressing: Addressing::Branch, args: args2(base_lo, base_hi), value: AddressingResult::IndInfo(0, ptr_to_lo, addr, 0) }
}

/// A test of an absolute address's byte.
pub open spec fn abs_test_spec<O: TestOperation>(m: NesModel, op: O) -> (NesModel, OpArgModel) {
    let (m1, _) = fetch_tick(m);
    let (m2, lo) = fetch_tick(m1);
    let (m3, hi) = fetch_tick(m2);
    let addr = word(lo, hi);
    let (m4, v) = bus_read(m3, addr);
    let m5 = tick_spec(with_cpu(m4, op.effect(m4.cpu, v)));
    (m5, OpArgModel { addressing: Addressing::Abs, args: seq![lo, hi], value: AddressingResult::RWValue(v) })
}

pub fn abs_test<O: TestOperation>(nes: &mut Nes, op: O) -> (r: OpArg)
    requires
        old(nes).wf(),
    ensures
        final(nes).wf(),
        (final(nes)@, r@) == abs_test_spec(old(nes)@, op),
{
    fetch_and_tick(nes);
    let lo = fetch_and_tick(nes);
    let hi = fetch_and_tick(nes);
    let addr: u16 = (lo as u16) | ((hi as u16) << 8u16);
    let m = nes.read8(addr);
    op.test(nes, m);
    nes.tick();
    OpArg { addressing: Addressing::Abs, args: args2(lo, hi), value: AddressingResult::RWValue(m) }
}

/// A test of a zero-page byte.
pub open spec fn zpg_test_spec<O: TestOperation>(m: NesModel, op: O) -> (NesModel, OpArgModel) {
    let (m1, _) = fetch_tick(m);
    let (m2, addr) = fetch_tick(m1);
    let (m3, v) = bus_read(m2, addr as u16);
    let m4 = tick_spec(with_cpu(m3, op.effect(m3.cpu, v)));
    (m4, OpArgModel { addressing: Addressing::Zpg, args: seq![addr], value: AddressingResult::RWValue(v) })
}

pub fn zpg_test<O: TestOperation>(nes: &mut Nes, op: O) -> (r: OpArg)
    requires
        old(nes).wf(),
    ensures
        final(nes).wf(),
        (final(nes)@, r@) == zpg_test_spec(old(nes)@, op),
{
    fetch_and_tick(nes);
    let addr = fetch_and_tick(nes);
    let m = nes.read8(addr as u16);
    op.test(nes, m);
    nes.tick();
    OpArg { addressing: Addressing::Zpg, args: args1(addr), value: AddressingResult::RWValue(m) }
}

/// The operand of an instruction with nothing to show.
pub open spec fn implied_arg() -> OpArgModel {
    OpArgModel { addressing: Addressing::Implied, args: Seq::empty(), value: AddressingResult::Empty }
}

/// RTI: pull P (with the unused flag set), then PC.
pub open spec fn rti_spec(m: NesModel) -> (NesModel, OpArgModel) {
    let (m1, _) = fetch_tick(m);
    let (m2, p) = pop_spec(m1);
    let (m3, pc_lo) = pop_spec(tick_spec(m2));
    let (m4, pc_hi) = pop_spec(tick_spec(m3));
    let m5 = tick_spec(m4);
    let m6 = with_cpu(m5, Cpu { p: Status { bits: p | Status::U }, ..m5.cpu });
    let m7 = tick_spec(set_pc(tick_spec(m6), word(pc_lo, pc_hi)));
    (m7, implied_arg())
}

pub fn rti(nes: &mut Nes) -> (r: OpArg)
    requires
        old(nes).wf(),
    ensures
        final(nes).wf(),
        (final(nes)@, r@) == rti_spec(old(nes)@),
{
    fetch_and_tick(nes);
    let p = Cpu::pop(nes);
    nes.tick();
    let pc_lo = Cpu::pop(nes);
    nes.tick();
    let pc_hi = Cpu::pop(nes);
    nes.tick();
    nes.cpu.p = Status::from_bits_truncate(p).union(Status::U);
    nes.tick();
    let pc: u16 = (pc_lo as u16) | ((pc_hi as u16) << 8u16);
    nes.cpu.pc = pc;
    nes.tick();
    OpArg { addressing: Addressing::Implied, args: args0(), value: AddressingResult::Empty }
}

/// RTS: pull PC and go to the byte after it.
pub open spec fn rts_spec(m: NesModel) -> (NesModel, OpArgModel) {
    let (m1, _) = fetch_tick(m);
    let (m2, _) = fetch_tick(m1);
    let (m3, pc_lo) = pop_spec(tick_spec(m2));
    let (m4, pc_hi) = pop_spec(tick_spec(m3));
    let m5 = tick_spec(set_pc(tick_spec(m4), word(pc_lo, pc_hi).wrapping_add(1)));
    (m5, implied_arg())
}

pub fn rts(nes: &mut Nes) -> (r: OpArg)
    requires
        old(nes).wf(),
    ensures
        final(nes).wf(),
        (final(nes)@, r@) == rts_spec(old(nes)@),
{
    fetch_and_tick(nes);
    fetch_and_tick(nes);
    nes.tick();
    let pc_lo = Cpu::pop(nes);
    nes.tick();
    let pc_hi = Cpu::pop(nes);
    let pc: u16 = (pc_lo as u16) | ((pc_hi as u16) << 8u16);
    nes.tick();
    nes.cpu.pc = pc.wrapping_add(1);
    nes.tick();
    OpArg { addressing: Addressing::Implied, args: args0(), value: AddressingResult::Empty }
}

/// JSR: push the address of the operand's last byte, high byte first, and
/// jump.
pub open spec fn jsr_spec(m: NesModel) -> (NesModel, OpArgModel) {
    let (m1, _) = fetch_tick(m);
    let (m2, pc_lo) = fetch_tick(m1);
    let (m3, pc_hi) = fetch_tick(m2);
    let target = word(pc_lo, pc_hi);
    let ret = m3.cpu.pc.wrapping_sub(1);
    let m4 = tick_spec(m3);
    let m5 = tick_spec(push_spec(m4, (ret / 256) as u8));
    let m6 = tick_spec(set_pc(push_spec(m5, (ret % 256) as u8), target));
    (m6, OpArgModel { addressing: Addressing::Implied, args: seq![pc_lo, pc_hi], value: AddressingResult::Address(target) })
}

pub fn jsr(nes: &mut Nes) -> (r: OpArg)
    requires
        old(nes).wf(),
    ensures
        final(nes).wf(),
        (final(nes)@, r@) == jsr_spec(old(nes)@),
{
    fetch_and_tick(nes);
    let pc_lo = fetch_and_tick(nes);
    let pc_hi = fetch_and_tick(nes);
    let pc: u16 = (pc_lo as u16) | ((pc_hi as u16) << 8u16);
    let return_addr: u16 = nes.cpu.pc.wrapping_sub(1);
    nes.tick();
    let hi: u8 = ((return_addr & 0xFF00) >> 8u16) as u8;
    assert(hi == (return_addr / 256) as u8) by (bit_vector)
        requires
            hi == ((return_addr & 0xFF00) >> 8u16) as u8,
    ;
    Cpu::push(nes, hi);
    nes.tick();
    let lo: u8 = (return_addr & 0x00FF) as u8;
    assert(lo == (return_addr % 256) as u8) by (bit_vector)
        requires
            lo == (return_addr & 0x00FF) as u8,
    ;
    Cpu::push(nes, lo);
    nes.cpu.pc = pc;
    nes.tick();
    OpArg { addressing: Addressing::Implied, args: args2(pc_lo, pc_hi), value: AddressingResult::Address(pc) }
}

/// BRK: push PC (past the padding byte) and P with B and U set, disable
/// interrupts, then jump through the little-endian vector at $FFFE.
pub open spec fn brk_spec(m: NesModel) -> (NesModel, OpArgModel) {
    let (m1, _) = fetch_tick(m);
    let (m2, _) = fetch_tick(m1);
    let ret = m2.cpu.pc;
    let m3 = tick_spec(push_spec(m2, (ret / 256) as u8));
    let m4 = tick_spec(push_spec(m3, (ret % 256) as u8));
    let m4p = push_spec(m4, m4.cpu.p.bits | Status::B | Status::U);
    let m5 = tick_spec(with_cpu(m4p, Cpu { p: Status { bits: m4p.cpu.p.bits | Status::I }, ..m4p.cpu }));
    let (m6, pc_lo) = read_tick(m5, 0xFFFE);
    let (m7, pc_hi) = bus_read(m6, 0xFFFF);
    let m8 = tick_spec(set_pc(m7, word(pc_lo, pc_hi)));
    (m8, implied_arg())
}

pub fn brk(nes: &mut Nes) -> (r: OpArg)
    requires
        old(nes).wf(),
    ensures
        final(nes).wf(),
        (final(nes)@, r@) == brk_spec(old(nes)@),
{
    fetch_and_tick(nes);
    fetch_and_tick(nes);
    let return_addr = nes.cpu.pc;
    let hi: u8 = ((return_addr & 0xFF00) >> 8u16) as u8;
    assert(hi == (return_addr / 256) as u8) by (bit_vector)
        requires
            hi == ((return_addr & 0xFF00) >> 8u16) as u8,
    ;
    Cpu::push(nes, hi);
    nes.tick();
    let lo: u8 = (return_addr & 0x00FF) as u8;
    assert(lo == (return_addr % 256) as u8) by (bit_vector)
        requires
            lo == (return_addr & 0x00FF) as u8,
    ;
    Cpu::push(nes, lo);
    nes.tick();
    let p = nes.cpu.p.union(Status::B).union(Status::U).bits();
    Cpu::push(nes, p);
    nes.cpu.p = nes.cpu.p.union(Status::I);
    nes.tick();
    let pc_lo = read_and_tick(nes, 0xFFFE);
    let pc_hi = nes.read8(0xFFFF);
    let pc: u16 = (pc_lo as u16) | ((pc_hi as u16) << 8u16);
    nes.cpu.pc = pc;
    nes.tick();
    OpArg { addressing: Addressing::Implied, args: args0(), value: AddressingResult::Empty }
}

} // verus!
