//! When the conditional branches are taken after the instructions that set
//! their flags: a comparison, or a load.
use vstd::prelude::*;
use crate::cpu::Cpu;
use crate::logic_laws::{lemma_compare_bits, lemma_set_nz_bits};
use crate::operations::{
    BinaryOperation, BranchOperation, RegOperations, BCC, BCS, BEQ, BMI, BNE, BPL, BVC, BVS, CMP, CPX, CPY, RegA, RegX, RegY,
};

verus! {

/// What the branches do after comparing register value `reg` with `v`,
/// given the registers `after` that the comparison left.
pub open spec fn branches_compare(after: Cpu, reg: u8, v: u8) -> bool {
    &&& BEQ.taken(after) == (reg == v)
    &&& BNE.taken(after) == (reg != v)
    &&& BCS.taken(after) == (reg >= v)
    &&& BCC.taken(after) == (reg < v)
    &&& BMI.taken(after) == ((reg - v) % 256 >= 128)
    &&& BPL.taken(after) == ((reg - v) % 256 < 128)
}

/// After CMP, CPX or CPY with operand `v`, BEQ branches exactly when the
/// register (A, X or Y) equals `v` and BNE exactly when it differs; BCS
/// exactly when the register is not below `v` as an unsigned number and BCC
/// exactly when it is below; BMI exactly when bit 7 of their difference
/// (modulo 256) is set and BPL exactly when it is clear. V is untouched, so
/// BVS and BVC branch as they would have before.
pub proof fn lemma_compare_then_branch(cpu: Cpu, v: u8)
    ensures
        branches_compare(CMP.effect(cpu, v), cpu.a, v),
        branches_compare(CPX.effect(cpu, v), cpu.x, v),
        branches_compare(CPY.effect(cpu, v), cpu.y, v),
        BVS.taken(CMP.effect(cpu, v)) == BVS.taken(cpu),
        BVC.taken(CMP.effect(cpu, v)) == BVC.taken(cpu),
{
    lemma_compare_bits(cpu.p.bits, cpu.a, v);
    lemma_compare_bits(cpu.p.bits, cpu.x, v);
    lemma_compare_bits(cpu.p.bits, cpu.y, v);
}

/// What the branches do after loading `v`, given the registers `before`
/// and `after` the load.
pub open spec fn branches_load(before: Cpu, after: Cpu, v: u8) -> bool {
    &&& BEQ.taken(after) == (v == 0)
    &&& BNE.taken(after) == (v != 0)
    &&& BMI.taken(after) == (v >= 128)
    &&& BPL.taken(after) == (v < 128)
    &&& BCS.taken(after) == BCS.taken(before)
    &&& BVS.taken(after) == BVS.taken(before)
}

/// After a load of `v` into A, X or Y, BEQ branches exactly when `v` is
/// zero and BNE when it is not; BMI exactly when bit 7 of `v` is set and
/// BPL when it is clear. C and V are untouched, so their branches go as
/// before.
pub proof fn lemma_load_then_branch(cpu: Cpu, v: u8)
    ensures
        branches_load(cpu, RegA.loaded(cpu, v), v),
        branches_load(cpu, RegX.loaded(cpu, v), v),
        branches_load(cpu, RegY.loaded(cpu, v), v),
{
    lemma_set_nz_bits(cpu.p.bits, v);
}

} // verus!
