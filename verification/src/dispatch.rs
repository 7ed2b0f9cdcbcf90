//! The instruction decoder: which addressing mode and which operation each
//! opcode runs.
use vstd::prelude::*;
use crate::addressings::{AbsX_calc, AbsX_load, AbsX_store, AbsY_calc, AbsY_load, AbsY_store, Abs_calc, Abs_load, Abs_store, Imm_calc, Imm_load, Impl_calc, Impl_calc3, Impl_calc4, IndY_calc, IndY_load, IndY_store, Mem_AbsX_calc, Mem_AbsY_calc, Mem_Abs_calc, Mem_IndY_calc, Mem_Xind_calc, Mem_ZpgX_calc, Mem_Zpg_calc, OpArg, OpArgModel, Reg_calc, Transf, Xind_calc, Xind_load, Xind_store, ZpgX_calc, ZpgX_load, ZpgX_store, ZpgY_load, ZpgY_store, Zpg_calc, Zpg_load, Zpg_store, abs_branch, abs_branch_spec, abs_calc_spec, abs_idx_load_spec, abs_idx_store_spec, abs_load_spec, abs_store_spec, abs_test, abs_test_spec, absx_calc_spec, absy_calc_spec, brk, brk_spec, imm_calc_spec, imm_load_spec, impl_calc_spec, ind_branch, ind_branch_spec, indy_calc_spec, indy_load_spec, indy_store_spec, jsr, jsr_spec, mem_abs_idx_spec, mem_abs_spec, mem_indy_spec, mem_xind_spec, mem_zpg_spec, mem_zpgx_spec, reg_calc_spec, rel_branch, rel_branch_spec, rti, rti_spec, rts, rts_spec, transf_spec, xind_calc_spec, xind_load_spec, xind_store_spec, zpg_calc_spec, zpg_idx_load_spec, zpg_idx_store_spec, zpg_load_spec, zpg_store_spec, zpg_test, zpg_test_spec, zpgx_calc_spec};
use crate::nes::{Nes, NesModel};
use crate::opcode::Opcode;
use crate::operations::{ADC, AND, ASL, BCC, BCS, BEQ, BIT, BMI, BNE, BPL, BVC, BVS, CLC, CLD, CLI, CLV, CMP, CPX, CPY, DCP, DEC, DEX, DEY, EOR, INC, INX, INY, ISB, LAX, LSR, NOP, ORA, PHA, PHP, PLA, PLP, RLA, ROL, ROR, RRA, RegA, RegS, RegX, RegY, SAX, SBC, SEC, SED, SEI, SLO, SRE};

verus! {

/// What executing `opcode` does to the machine, and the operand it reports.
#[verifier::opaque]
pub open spec fn exec_spec(m: NesModel, opcode: Opcode) -> (NesModel, OpArgModel) {
    match opcode {
        Opcode::LdaXind => xind_load_spec(m, RegA),
        Opcode::LdaZpg => zpg_load_spec(m, RegA),
        Opcode::LdaAbs => abs_load_spec(m, RegA),
        Opcode::LdaIndY => indy_load_spec(m, RegA),
        Opcode::LdaZpgX => zpg_idx_load_spec(m, RegA, false),
        Opcode::LdaAbsY => abs_idx_load_spec(m, RegA, true),
        Opcode::LdaAbsX => abs_idx_load_spec(m, RegA, false),
        Opcode::LdaImm => imm_load_spec(m, RegA),
        Opcode::LdyImm => imm_load_spec(m, RegY),
        Opcode::LdyZpg => zpg_load_spec(m, RegY),
        Opcode::LdyAbs => abs_load_spec(m, RegY),
        Opcode::LdyZpgX => zpg_idx_load_spec(m, RegY, false),
        Opcode::LdyAbsX => abs_idx_load_spec(m, RegY, false),
        Opcode::LdxImm => imm_load_spec(m, RegX),
        Opcode::LdxZpg => zpg_load_spec(m, RegX),
        Opcode::LdxAbs => abs_load_spec(m, RegX),
        Opcode::LdxZpgY => zpg_idx_load_spec(m, RegX, true),
        Opcode::LdxAbsY => abs_idx_load_spec(m, RegX, true),
        Opcode::StaXind => xind_store_spec(m, RegA),
        Opcode::StaZpg => zpg_store_spec(m, RegA),
        Opcode::StaAbs => abs_store_spec(m, RegA),
        Opcode::StaIndY => indy_store_spec(m, RegA),
        Opcode::StaZpgX => zpg_idx_store_spec(m, RegA, false),
        Opcode::StaAbsY => abs_idx_store_spec(m, RegA, true),
        Opcode::StaAbsX => abs_idx_store_spec(m, RegA, false),
        Opcode::StyZpg => zpg_store_spec(m, RegY),
        Opcode::StyAbs => abs_store_spec(m, RegY),
        Opcode::StyZpgX => zpg_idx_store_spec(m, RegY, false),
        Opcode::StxZpg => zpg_store_spec(m, RegX),
        Opcode::StxAbs => abs_store_spec(m, RegX),
        Opcode::StxZpgY => zpg_idx_store_spec(m, RegX, true),
        Opcode::OraXind => xind_calc_spec(m, ORA),
        Opcode::OraZpg => zpg_calc_spec(m, ORA),
        Opcode::OraImm => imm_calc_spec(m, ORA),
        Opcode::OraAbs => abs_calc_spec(m, ORA),
        Opcode::OraIndY => indy_calc_spec(m, ORA),
        Opcode::OraZpgX => zpgx_calc_spec(m, ORA),
        Opcode::OraAbsY => absy_calc_spec(m, ORA),
        Opcode::OraAbsX => absx_calc_spec(m, ORA),
        Opcode::AndXind => xind_calc_spec(m, AND),
        Opcode::AndZpg => zpg_calc_spec(m, AND),
        Opcode::AndImm => imm_calc_spec(m, AND),
        Opcode::AndAbs => abs_calc_spec(m, AND),
        Opcode::AndIndY => indy_calc_spec(m, AND),
        Opcode::AndZpgX => zpgx_calc_spec(m, AND),
        Opcode::AndAbsY => absy_calc_spec(m, AND),
        Opcode::AndAbsX => absx_calc_spec(m, AND),
        Opcode::EorXind => xind_calc_spec(m, EOR),
        Opcode::EorZpg => zpg_calc_spec(m, EOR),
        Opcode::EorImm => imm_calc_spec(m, EOR),
        Opcode::EorAbs => abs_calc_spec(m, EOR),
        Opcode::EorIndY => indy_calc_spec(m, EOR),
        Opcode::EorZpgX => zpgx_calc_spec(m, EOR),
        Opcode::EorAbsY => absy_calc_spec(m, EOR),
        Opcode::EorAbsX => absx_calc_spec(m, EOR),
        Opcode::AdcXind => xind_calc_spec(m, ADC),
        Opcode::AdcZpg => zpg_calc_spec(m, ADC),
        Opcode::AdcImm => imm_calc_spec(m, ADC),
        Opcode::AdcAbs => abs_calc_spec(m, ADC),
        Opcode::AdcIndY => indy_calc_spec(m, ADC),
        Opcode::AdcZpgX => zpgx_calc_spec(m, ADC),
        Opcode::AdcAbsY => absy_calc_spec(m, ADC),
        Opcode::AdcAbsX => absx_calc_spec(m, ADC),
        Opcode::SbcXind => xind_calc_spec(m, SBC),
        Opcode::SbcZpg => zpg_calc_spec(m, SBC),
        Opcode::SbcImm => imm_calc_spec(m, SBC),
        Opcode::SbcAbs => abs_calc_spec(m, SBC),
        Opcode::SbcIndY => indy_calc_spec(m, SBC),
        Opcode::SbcZpgX => zpgx_calc_spec(m, SBC),
        Opcode::SbcAbsY => absy_calc_spec(m, SBC),
        Opcode::SbcAbsX => absx_calc_spec(m, SBC),
        Opcode::AslZpg => mem_zpg_spec(m, ASL),
        Opcode::AslAbs => mem_abs_spec(m, ASL),
        Opcode::AslZpgX => mem_zpgx_spec(m, ASL),
        Opcode::AslAbsX => mem_abs_idx_spec(m, ASL, false),
        Opcode::AslA => reg_calc_spec(m, ASL),
        Opcode::RolZpg => mem_zpg_spec(m, ROL),
        Opcode::RolAbs => mem_abs_spec(m, ROL),
        Opcode::RolZpgX => mem_zpgx_spec(m, ROL),
        Opcode::RolAbsX => mem_abs_idx_spec(m, ROL, false),
        Opcode::RolA => reg_calc_spec(m, ROL),
        Opcode::LsrZpg => mem_zpg_spec(m, LSR),
        Opcode::LsrAbs => mem_abs_spec(m, LSR),
        Opcode::LsrZpgX => mem_zpgx_spec(m, LSR),
        Opcode::LsrAbsX => mem_abs_idx_spec(m, LSR, false),
        Opcode::LsrA => reg_calc_spec(m, LSR),
        Opcode::RorZpg => mem_zpg_spec(m, ROR),
        Opcode::RorAbs => mem_abs_spec(m, ROR),
        Opcode::RorZpgX => mem_zpgx_spec(m, ROR),
        Opcode::RorAbsX => mem_abs_idx_spec(m, ROR, false),
        Opcode::RorA => reg_calc_spec(m, ROR),
        Opcode::CmpXind => xind_calc_spec(m, CMP),
        Opcode::CmpZpg => zpg_calc_spec(m, CMP),
        Opcode::CmpImm => imm_calc_spec(m, CMP),
        Opcode::CmpAbs => abs_calc_spec(m, CMP),
        Opcode::CmpIndY => indy_calc_spec(m, CMP),
        Opcode::CmpZpgX => zpgx_calc_spec(m, CMP),
        Opcode::CmpAbsY => absy_calc_spec(m, CMP),
        Opcode::CmpAbsX => absx_calc_spec(m, CMP),
        Opcode::CpyZpg => zpg_calc_spec(m, CPY),
        Opcode::CpyImm => imm_calc_spec(m, CPY),
        Opcode::CpyAbs => abs_calc_spec(m, CPY),
        Opcode::CpxZpg => zpg_calc_spec(m, CPX),
        Opcode::CpxImm => imm_calc_spec(m, CPX),
        Opcode::CpxAbs => abs_calc_spec(m, CPX),
        Opcode::TaxImpl => transf_spec(m, RegA, RegX),
        Opcode::TxaImpl => transf_spec(m, RegX, RegA),
        Opcode::TxsImpl => transf_spec(m, RegX, RegS),
        Opcode::TsxImpl => transf_spec(m, RegS, RegX),
        Opcode::TayImpl => transf_spec(m, RegA, RegY),
        Opcode::TyaImpl => transf_spec(m, RegY, RegA),
        Opcode::PhpImpl => impl_calc_spec(m, PHP, 3),
        Opcode::PlpImpl => impl_calc_spec(m, PLP, 4),
        Opcode::PhaImpl => impl_calc_spec(m, PHA, 3),
        Opcode::PlaImpl => impl_calc_spec(m, PLA, 4),
        Opcode::ClcImpl => impl_calc_spec(m, CLC, 2),
        Opcode::SecImpl => impl_calc_spec(m, SEC, 2),
        Opcode::CliImpl => impl_calc_spec(m, CLI, 2),
        Opcode::SeiImpl => impl_calc_spec(m, SEI, 2),
        Opcode::ClvImpl => impl_calc_spec(m, CLV, 2),
        Opcode::CldImpl => impl_calc_spec(m, CLD, 2),
        Opcode::SedImpl => impl_calc_spec(m, SED, 2),
        Opcode::DeyImpl => impl_calc_spec(m, DEY, 2),
        Opcode::InyImpl => impl_calc_spec(m, INY, 2),
        Opcode::DexImpl => impl_calc_spec(m, DEX, 2),
        Opcode::InxImpl => impl_calc_spec(m, INX, 2),
        Opcode::DecZpg => mem_zpg_spec(m, DEC),
        Opcode::DecAbs => mem_abs_spec(m, DEC),
        Opcode::DecZpgX => mem_zpgx_spec(m, DEC),
        Opcode::DecAbsX => mem_abs_idx_spec(m, DEC, false),
        Opcode::IncZpg => mem_zpg_spec(m, INC),
        Opcode::IncAbs => mem_abs_spec(m, INC),
        Opcode::IncZpgX => mem_zpgx_spec(m, INC),
        Opcode::IncAbsX => mem_abs_idx_spec(m, INC, false),
        Opcode::NopImpl => impl_calc_spec(m, NOP, 2),
        Opcode::BplRel => rel_branch_spec(m, BPL),
        Opcode::BmiRel => rel_branch_spec(m, BMI),
        Opcode::BvcRel => rel_branch_spec(m, BVC),
        Opcode::BvsRel => rel_branch_spec(m, BVS),
        Opcode::BccRel => rel_branch_spec(m, BCC),
        Opcode::BcsRel => rel_branch_spec(m, BCS),
        Opcode::BneRel => rel_branch_spec(m, BNE),
        Opcode::BeqRel => rel_branch_spec(m, BEQ),
        Opcode::JmpAbs => abs_branch_spec(m),
        Opcode::JmpInd => ind_branch_spec(m),
        Opcode::BitAbs => abs_test_spec(m, BIT),
        Opcode::BitZpg => zpg_test_spec(m, BIT),
        Opcode::RtiImpl => rti_spec(m),
        Opcode::RtsImpl => rts_spec(m),
        Opcode::JsrAbs => jsr_spec(m),
        Opcode::BrkImpl => brk_spec(m),
        Opcode::UNopZpg1 | Opcode::UNopZpg2 | Opcode::UNopZpg3 => zpg_load_spec(m, NOP),
        Opcode::UNopZpgX1 | Opcode::UNopZpgX2 | Opcode::UNopZpgX3 | Opcode::UNopZpgX4 | Opcode::UNopZpgX5 | Opcode::UNopZpgX6 => zpg_idx_load_spec(m, NOP, false),
        Opcode::UNopImm1 | Opcode::UNopImm2 | Opcode::UNopImm3 | Opcode::UNopImm4 | Opcode::UNopImm5 => imm_load_spec(m, NOP),
        Opcode::UNopAbs => abs_load_spec(m, NOP),
        Opcode::UNopAbsX1 | Opcode::UNopAbsX2 | Opcode::UNopAbsX3 | Opcode::UNopAbsX4 | Opcode::UNopAbsX5 | Opcode::UNopAbsX6 => abs_idx_load_spec(m, NOP, false),
        Opcode::UNopImpl1 | Opcode::UNopImpl2 | Opcode::UNopImpl3 | Opcode::UNopImpl4 | Opcode::UNopImpl5 | Opcode::UNopImpl6 => impl_calc_spec(m, NOP, 2),
        Opcode::ULaxZpg => zpg_load_spec(m, LAX),
        Opcode::ULaxZpgY => zpg_idx_load_spec(m, LAX, true),
        Opcode::ULaxAbs => abs_load_spec(m, LAX),
        Opcode::ULaxAbsY => abs_idx_load_spec(m, LAX, true),
        Opcode::ULaxXind => xind_load_spec(m, LAX),
        Opcode::ULaxIndY => indy_load_spec(m, LAX),
        Opcode::USaxZpg => zpg_store_spec(m, SAX),
        Opcode::USaxZpgY => zpg_idx_store_spec(m, SAX, true),
        Opcode::USaxXind => xind_store_spec(m, SAX),
        Opcode::USaxAbs => abs_store_spec(m, SAX),
        Opcode::USbcImm => imm_calc_spec(m, SBC),
        Opcode::UDcpZpg => mem_zpg_spec(m, DCP),
        Opcode::UDcpZpgX => mem_zpgx_spec(m, DCP),
        Opcode::UDcpAbs => mem_abs_spec(m, DCP),
        Opcode::UDcpAbsX => mem_abs_idx_spec(m, DCP, false),
        Opcode::UDcpAbsY => mem_abs_idx_spec(m, DCP, true),
        Opcode::UDcpXind => mem_xind_spec(m, DCP),
        Opcode::UDcpIndY => mem_indy_spec(m, DCP),
        Opcode::UIsbZpg => mem_zpg_spec(m, ISB),
        Opcode::UIsbZpgX => mem_zpgx_spec(m, ISB),
        Opcode::UIsbAbs => mem_abs_spec(m, ISB),
        Opcode::UIsbAbsX => mem_abs_idx_spec(m, ISB, false),
        Opcode::UIsbAbsY => mem_abs_idx_spec(m, ISB, true),
        Opcode::UIsbXind => mem_xind_spec(m, ISB),
        Opcode::UIsbIndY => mem_indy_spec(m, ISB),
        Opcode::USloZpg => mem_zpg_spec(m, SLO),
        Opcode::USloZpgX => mem_zpgx_spec(m, SLO),
        Opcode::USloAbs => mem_abs_spec(m, SLO),
        Opcode::USloAbsX => mem_abs_idx_spec(m, SLO, false),
        Opcode::USloAbsY => mem_abs_idx_spec(m, SLO, true),
        Opcode::USloXind => mem_xind_spec(m, SLO),
        Opcode::USloIndY => mem_indy_spec(m, SLO),
        Opcode::URlaZpg => mem_zpg_spec(m, RLA),
        Opcode::URlaZpgX => mem_zpgx_spec(m, RLA),
        Opcode::URlaAbs => mem_abs_spec(m, RLA),
        Opcode::URlaAbsX => mem_abs_idx_spec(m, RLA, false),
        Opcode::URlaAbsY => mem_abs_idx_spec(m, RLA, true),
        Opcode::URlaXind => mem_xind_spec(m, RLA),
        Opcode::URlaIndY => mem_indy_spec(m, RLA),
        Opcode::USreZpg => mem_zpg_spec(m, SRE),
        Opcode::USreZpgX => mem_zpgx_spec(m, SRE),
        Opcode::USreAbs => mem_abs_spec(m, SRE),
        Opcode::USreAbsX => mem_abs_idx_spec(m, SRE, false),
        Opcode::USreAbsY => mem_abs_idx_spec(m, SRE, true),
        Opcode::USreXind => mem_xind_spec(m, SRE),
        Opcode::USreIndY => mem_indy_spec(m, SRE),
        Opcode::URraZpg => mem_zpg_spec(m, RRA),
        Opcode::URraZpgX => mem_zpgx_spec(m, RRA),
        Opcode::URraAbs => mem_abs_spec(m, RRA),
        Opcode::URraAbsX => mem_abs_idx_spec(m, RRA, false),
        Opcode::URraAbsY => mem_abs_idx_spec(m, RRA, true),
        Opcode::URraXind => mem_xind_spec(m, RRA),
        Opcode::URraIndY => mem_indy_spec(m, RRA),
    }
}

/// Executes the instruction `opcode`, whose byte is at PC (see `exec_spec`).
#[verifier::rlimit(100)]
pub fn execute(nes: &mut Nes, opcode: Opcode) -> (r: OpArg)
    requires
        old(nes).wf(),
    ensures
        final(nes).wf(),
        (final(nes)@, r@) == exec_spec(old(nes)@, opcode),
{
    reveal(exec_spec);
    match opcode {
        Opcode::LdaXind => Xind_load(nes, RegA),
        Opcode::LdaZpg => Zpg_load(nes, RegA),
        Opcode::LdaAbs => Abs_load(nes, RegA),
        Opcode::LdaIndY => IndY_load(nes, RegA),
        Opcode::LdaZpgX => ZpgX_load(nes, RegA),
        Opcode::LdaAbsY => AbsY_load(nes, RegA),
        Opcode::LdaAbsX => AbsX_load(nes, RegA),
        Opcode::LdaImm => Imm_load(nes, RegA),
        Opcode::LdyImm => Imm_load(nes, RegY),
        Opcode::LdyZpg => Zpg_load(nes, RegY),
        Opcode::LdyAbs => Abs_load(nes, RegY),
        Opcode::LdyZpgX => ZpgX_load(nes, RegY),
        Opcode::LdyAbsX => AbsX_load(nes, RegY),
        Opcode::LdxImm => Imm_load(nes, RegX),
        Opcode::LdxZpg => Zpg_load(nes, RegX),
        Opcode::LdxAbs => Abs_load(nes, RegX),
        Opcode::LdxZpgY => ZpgY_load(nes, RegX),
        Opcode::LdxAbsY => AbsY_load(nes, RegX),
        Opcode::StaXind => Xind_store(nes, RegA),
        Opcode::StaZpg => Zpg_store(nes, RegA),
        Opcode::StaAbs => Abs_store(nes, RegA),
        Opcode::StaIndY => IndY_store(nes, RegA),
        Opcode::StaZpgX => ZpgX_store(nes, RegA),
        Opcode::StaAbsY => AbsY_store(nes, RegA),
        Opcode::StaAbsX => AbsX_store(nes, RegA),
        Opcode::StyZpg => Zpg_store(nes, RegY),
        Opcode::StyAbs => Abs_store(nes, RegY),
        Opcode::StyZpgX => ZpgX_store(nes, RegY),
        Opcode::StxZpg => Zpg_store(nes, RegX),
        Opcode::StxAbs => Abs_store(nes, RegX),
        Opcode::StxZpgY => ZpgY_store(nes, RegX),
        Opcode::OraXind => Xind_calc(nes, ORA),
        Opcode::OraZpg => Zpg_calc(nes, ORA),
        Opcode::OraImm => Imm_calc(nes, ORA),
        Opcode::OraAbs => Abs_calc(nes, ORA),
        Opcode::OraIndY => IndY_calc(nes, ORA),
        Opcode::OraZpgX => ZpgX_calc(nes, ORA),
        Opcode::OraAbsY => AbsY_calc(nes, ORA),
        Opcode::OraAbsX => AbsX_calc(nes, ORA),
        Opcode::AndXind => Xind_calc(nes, AND),
        Opcode::AndZpg => Zpg_calc(nes, AND),
        Opcode::AndImm => Imm_calc(nes, AND),
        Opcode::AndAbs => Abs_calc(nes, AND),
        Opcode::AndIndY => IndY_calc(nes, AND),
        Opcode::AndZpgX => ZpgX_calc(nes, AND),
        Opcode::AndAbsY => AbsY_calc(nes, AND),
        Opcode::AndAbsX => AbsX_calc(nes, AND),
        Opcode::EorXind => Xind_calc(nes, EOR),
        Opcode::EorZpg => Zpg_calc(nes, EOR),
        Opcode::EorImm => Imm_calc(nes, EOR),
        Opcode::EorAbs => Abs_calc(nes, EOR),
        Opcode::EorIndY => IndY_calc(nes, EOR),
        Opcode::EorZpgX => ZpgX_calc(nes, EOR),
        Opcode::EorAbsY => AbsY_calc(nes, EOR),
        Opcode::EorAbsX => AbsX_calc(nes, EOR),
        Opcode::AdcXind => Xind_calc(nes, ADC),
        Opcode::AdcZpg => Zpg_calc(nes, ADC),
        Opcode::AdcImm => Imm_calc(nes, ADC),
        Opcode::AdcAbs => Abs_calc(nes, ADC),
        Opcode::AdcIndY => IndY_calc(nes, ADC),
        Opcode::AdcZpgX => ZpgX_calc(nes, ADC),
        Opcode::AdcAbsY => AbsY_calc(nes, ADC),
        Opcode::AdcAbsX => AbsX_calc(nes, ADC),
        Opcode::SbcXind => Xind_calc(nes, SBC),
        Opcode::SbcZpg => Zpg_calc(nes, SBC),
        Opcode::SbcImm => Imm_calc(nes, SBC),
        Opcode::SbcAbs => Abs_calc(nes, SBC),
        Opcode::SbcIndY => IndY_calc(nes, SBC),
        Opcode::SbcZpgX => ZpgX_calc(nes, SBC),
        Opcode::SbcAbsY => AbsY_calc(nes, SBC),
        Opcode::SbcAbsX => AbsX_calc(nes, SBC),
        Opcode::AslZpg => Mem_Zpg_calc(nes, ASL),
        Opcode::AslAbs => Mem_Abs_calc(nes, ASL),
        Opcode::AslZpgX => Mem_ZpgX_calc(nes, ASL),
        Opcode::AslAbsX => Mem_AbsX_calc(nes, ASL),
        Opcode::AslA => Reg_calc(nes, ASL),
        Opcode::RolZpg => Mem_Zpg_calc(nes, ROL),
        Opcode::RolAbs => Mem_Abs_calc(nes, ROL),
        Opcode::RolZpgX => Mem_ZpgX_calc(nes, ROL),
        Opcode::RolAbsX => Mem_AbsX_calc(nes, ROL),
        Opcode::RolA => Reg_calc(nes, ROL),
        Opcode::LsrZpg => Mem_Zpg_calc(nes, LSR),
        Opcode::LsrAbs => Mem_Abs_calc(nes, LSR),
        Opcode::LsrZpgX => Mem_ZpgX_calc(nes, LSR),
        Opcode::LsrAbsX => Mem_AbsX_calc(nes, LSR),
        Opcode::LsrA => Reg_calc(nes, LSR),
        Opcode::RorZpg => Mem_Zpg_calc(nes, ROR),
        Opcode::RorAbs => Mem_Abs_calc(nes, ROR),
        Opcode::RorZpgX => Mem_ZpgX_calc(nes, ROR),
        Opcode::RorAbsX => Mem_AbsX_calc(nes, ROR),
        Opcode::RorA => Reg_calc(nes, ROR),
        Opcode::CmpXind => Xind_calc(nes, CMP),
        Opcode::CmpZpg => Zpg_calc(nes, CMP),
        Opcode::CmpImm => Imm_calc(nes, CMP),
        Opcode::CmpAbs => Abs_calc(nes, CMP),
        Opcode::CmpIndY => IndY_calc(nes, CMP),
        Opcode::CmpZpgX => ZpgX_calc(nes, CMP),
        Opcode::CmpAbsY => AbsY_calc(nes, CMP),
        Opcode::CmpAbsX => AbsX_calc(nes, CMP),
        Opcode::CpyZpg => Zpg_calc(nes, CPY),
        Opcode::CpyImm => Imm_calc(nes, CPY),
        Opcode::CpyAbs => Abs_calc(nes, CPY),
        Opcode::CpxZpg => Zpg_calc(nes, CPX),
        Opcode::CpxImm => Imm_calc(nes, CPX),
        Opcode::CpxAbs => Abs_calc(nes, CPX),
        Opcode::TaxImpl => Transf(nes, RegA, RegX),
        Opcode::TxaImpl => Transf(nes, RegX, RegA),
        Opcode::TxsImpl => Transf(nes, RegX, RegS),
        Opcode::TsxImpl => Transf(nes, RegS, RegX),
        Opcode::TayImpl => Transf(nes, RegA, RegY),
        Opcode::TyaImpl => Transf(nes, RegY, RegA),
        Opcode::PhpImpl => Impl_calc3(nes, PHP),
        Opcode::PlpImpl => Impl_calc4(nes, PLP),
        Opcode::PhaImpl => Impl_calc3(nes, PHA),
        Opcode::PlaImpl => Impl_calc4(nes, PLA),
        Opcode::ClcImpl => Impl_calc(nes, CLC),
        Opcode::SecImpl => Impl_calc(nes, SEC),
        Opcode::CliImpl => Impl_calc(nes, CLI),
        Opcode::SeiImpl => Impl_calc(nes, SEI),
        Opcode::ClvImpl => Impl_calc(nes, CLV),
        Opcode::CldImpl => Impl_calc(nes, CLD),
        Opcode::SedImpl => Impl_calc(nes, SED),
        Opcode::DeyImpl => Impl_calc(nes, DEY),
        Opcode::InyImpl => Impl_calc(nes, INY),
        Opcode::DexImpl => Impl_calc(nes, DEX),
        Opcode::InxImpl => Impl_calc(nes, INX),
        Opcode::DecZpg => Mem_Zpg_calc(nes, DEC),
        Opcode::DecAbs => Mem_Abs_calc(nes, DEC),
        Opcode::DecZpgX => Mem_ZpgX_calc(nes, DEC),
        Opcode::DecAbsX => Mem_AbsX_calc(nes, DEC),
        Opcode::IncZpg => Mem_Zpg_calc(nes, INC),
        Opcode::IncAbs => Mem_Abs_calc(nes, INC),
        Opcode::IncZpgX => Mem_ZpgX_calc(nes, INC),
        Opcode::IncAbsX => Mem_AbsX_calc(nes, INC),
        Opcode::NopImpl => Impl_calc(nes, NOP),
        Opcode::BplRel => rel_branch(nes, BPL),
        Opcode::BmiRel => rel_branch(nes, BMI),
        Opcode::BvcRel => rel_branch(nes, BVC),
        Opcode::BvsRel => rel_branch(nes, BVS),
        Opcode::BccRel => rel_branch(nes, BCC),
        Opcode::BcsRel => rel_branch(nes, BCS),
        Opcode::BneRel => rel_branch(nes, BNE),
        Opcode::BeqRel => rel_branch(nes, BEQ),
        Opcode::JmpAbs => abs_branch(nes),
        Opcode::JmpInd => ind_branch(nes),
        Opcode::BitAbs => abs_test(nes, BIT),
        Opcode::BitZpg => zpg_test(nes, BIT),
        Opcode::RtiImpl => rti(nes),
        Opcode::RtsImpl => rts(nes),
        Opcode::JsrAbs => jsr(nes),
        Opcode::BrkImpl => brk(nes),
        Opcode::UNopZpg1 | Opcode::UNopZpg2 | Opcode::UNopZpg3 => Zpg_load(nes, NOP),
        Opcode::UNopZpgX1 | Opcode::UNopZpgX2 | Opcode::UNopZpgX3 | Opcode::UNopZpgX4 | Opcode::UNopZpgX5 | Opcode::UNopZpgX6 => ZpgX_load(nes, NOP),
        Opcode::UNopImm1 | Opcode::UNopImm2 | Opcode::UNopImm3 | Opcode::UNopImm4 | Opcode::UNopImm5 => Imm_load(nes, NOP),
        Opcode::UNopAbs => Abs_load(nes, NOP),
        Opcode::UNopAbsX1 | Opcode::UNopAbsX2 | Opcode::UNopAbsX3 | Opcode::UNopAbsX4 | Opcode::UNopAbsX5 | Opcode::UNopAbsX6 => AbsX_load(nes, NOP),
        Opcode::UNopImpl1 | Opcode::UNopImpl2 | Opcode::UNopImpl3 | Opcode::UNopImpl4 | Opcode::UNopImpl5 | Opcode::UNopImpl6 => Impl_calc(nes, NOP),
        Opcode::ULaxZpg => Zpg_load(nes, LAX),
        Opcode::ULaxZpgY => ZpgY_load(nes, LAX),
        Opcode::ULaxAbs => Abs_load(nes, LAX),
        Opcode::ULaxAbsY => AbsY_load(nes, LAX),
        Opcode::ULaxXind => Xind_load(nes, LAX),
        Opcode::ULaxIndY => IndY_load(nes, LAX),
        Opcode::USaxZpg => Zpg_store(nes, SAX),
        Opcode::USaxZpgY => ZpgY_store(nes, SAX),
        Opcode::USaxXind => Xind_store(nes, SAX),
        Opcode::USaxAbs => Abs_store(nes, SAX),
        Opcode::USbcImm => Imm_calc(nes, SBC),
        Opcode::UDcpZpg => Mem_Zpg_calc(nes, DCP),
        Opcode::UDcpZpgX => Mem_ZpgX_calc(nes, DCP),
        Opcode::UDcpAbs => Mem_Abs_calc(nes, DCP),
        Opcode::UDcpAbsX => Mem_AbsX_calc(nes, DCP),
        Opcode::UDcpAbsY => Mem_AbsY_calc(nes, DCP),
        Opcode::UDcpXind => Mem_Xind_calc(nes, DCP),
        Opcode::UDcpIndY => Mem_IndY_calc(nes, DCP),
        Opcode::UIsbZpg => Mem_Zpg_calc(nes, ISB),
        Opcode::UIsbZpgX => Mem_ZpgX_calc(nes, ISB),
        Opcode::UIsbAbs => Mem_Abs_calc(nes, ISB),
        Opcode::UIsbAbsX => Mem_AbsX_calc(nes, ISB),
        Opcode::UIsbAbsY => Mem_AbsY_calc(nes, ISB),
        Opcode::UIsbXind => Mem_Xind_calc(nes, ISB),
        Opcode::UIsbIndY => Mem_IndY_calc(nes, ISB),
        Opcode::USloZpg => Mem_Zpg_calc(nes, SLO),
        Opcode::USloZpgX => Mem_ZpgX_calc(nes, SLO),
        Opcode::USloAbs => Mem_Abs_calc(nes, SLO),
        Opcode::USloAbsX => Mem_AbsX_calc(nes, SLO),
        Opcode::USloAbsY => Mem_AbsY_calc(nes, SLO),
        Opcode::USloXind => Mem_Xind_calc(nes, SLO),
        Opcode::USloIndY => Mem_IndY_calc(nes, SLO),
        Opcode::URlaZpg => Mem_Zpg_calc(nes, RLA),
        Opcode::URlaZpgX => Mem_ZpgX_calc(nes, RLA),
        Opcode::URlaAbs => Mem_Abs_calc(nes, RLA),
        Opcode::URlaAbsX => Mem_AbsX_calc(nes, RLA),
        Opcode::URlaAbsY => Mem_AbsY_calc(nes, RLA),
        Opcode::URlaXind => Mem_Xind_calc(nes, RLA),
        Opcode::URlaIndY => Mem_IndY_calc(nes, RLA),
        Opcode::USreZpg => Mem_Zpg_calc(nes, SRE),
        Opcode::USreZpgX => Mem_ZpgX_calc(nes, SRE),
        Opcode::USreAbs => Mem_Abs_calc(nes, SRE),
        Opcode::USreAbsX => Mem_AbsX_calc(nes, SRE),
        Opcode::USreAbsY => Mem_AbsY_calc(nes, SRE),
        Opcode::USreXind => Mem_Xind_calc(nes, SRE),
        Opcode::USreIndY => Mem_IndY_calc(nes, SRE),
        Opcode::URraZpg => Mem_Zpg_calc(nes, RRA),
        Opcode::URraZpgX => Mem_ZpgX_calc(nes, RRA),
        Opcode::URraAbs => Mem_Abs_calc(nes, RRA),
        Opcode::URraAbsX => Mem_AbsX_calc(nes, RRA),
        Opcode::URraAbsY => Mem_AbsY_calc(nes, RRA),
        Opcode::URraXind => Mem_Xind_calc(nes, RRA),
        Opcode::URraIndY => Mem_IndY_calc(nes, RRA),
    }
}

} // verus!
