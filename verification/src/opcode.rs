//! The 6502 opcodes that the CPU executes, official and undocumented, and
//! their encoding as instruction bytes.
use vstd::prelude::*;

verus! {

/// An instruction byte decoded: the operation together with its addressing mode.
#[derive(Debug, Clone, Copy, PartialEq, Eq, Structural)]
pub enum Opcode {
    BrkImpl,
    BplRel,
    JsrAbs,
    BmiRel,
    RtiImpl,
    BvcRel,
    RtsImpl,
    BvsRel,
    BccRel,
    LdyImm,
    BcsRel,
    CpyImm,
    BneRel,
    CpxImm,
    BeqRel,
    OraXind,
    AndXind,
    EorXind,
    AdcXind,
    StaXind,
    LdaXind,
    CmpXind,
    SbcXind,
    OraIndY,
    AndIndY,
    EorIndY,
    AdcIndY,
    StaIndY,
    LdaIndY,
    CmpIndY,
    SbcIndY,
    LdxImm,
    BitZpg,
    StyZpg,
    StyZpgX,
    LdyZpg,
    LdyZpgX,
    CpyZpg,
    CpxZpg,
    OraZpg,
    AndZpg,
    EorZpg,
    AdcZpg,
    StaZpg,
    LdaZpg,
    CmpZpg,
    SbcZpg,
    OraZpgX,
    AndZpgX,
    EorZpgX,
    AdcZpgX,
    StaZpgX,
    LdaZpgX,
    CmpZpgX,
    SbcZpgX,
    AslZpg,
    RolZpg,
    LsrZpg,
    RorZpg,
    StxZpg,
    LdxZpg,
    DecZpg,
    IncZpg,
    AslZpgX,
    RolZpgX,
    LsrZpgX,
    RorZpgX,
    StxZpgY,
    LdxZpgY,
    DecZpgX,
    IncZpgX,
    PhpImpl,
    ClcImpl,
    PlpImpl,
    SecImpl,
    PhaImpl,
    CliImpl,
    PlaImpl,
    SeiImpl,
    DeyImpl,
    TyaImpl,
    TayImpl,
    ClvImpl,
    InyImpl,
    CldImpl,
    InxImpl,
    SedImpl,
    OraImm,
    AndImm,
    EorImm,
    AdcImm,
    LdaImm,
    CmpImm,
    SbcImm,
    OraAbsY,
    AndAbsY,
    EorAbsY,
    AdcAbsY,
    StaAbsY,
    LdaAbsY,
    CmpAbsY,
    SbcAbsY,
    AslA,
    RolA,
    LsrA,
    RorA,
    TxaImpl,
    TxsImpl,
    TaxImpl,
    TsxImpl,
    DexImpl,
    NopImpl,
    BitAbs,
    JmpAbs,
    JmpInd,
    StyAbs,
    LdyAbs,
    LdyAbsX,
    CpyAbs,
    CpxAbs,
    OraAbs,
    AndAbs,
    EorAbs,
    AdcAbs,
    StaAbs,
    LdaAbs,
    CmpAbs,
    SbcAbs,
    OraAbsX,
    AndAbsX,
    EorAbsX,
    AdcAbsX,
    StaAbsX,
    LdaAbsX,
    CmpAbsX,
    SbcAbsX,
    AslAbs,
    RolAbs,
    LsrAbs,
    RorAbs,
    StxAbs,
    LdxAbs,
    DecAbs,
    IncAbs,
    AslAbsX,
    RolAbsX,
    LsrAbsX,
    RorAbsX,
    LdxAbsY,
    DecAbsX,
    IncAbsX,
    UNopZpg1,
    UNopZpg2,
    UNopZpg3,
    UNopZpgX1,
    UNopZpgX2,
    UNopZpgX3,
    UNopZpgX4,
    UNopZpgX5,
    UNopZpgX6,
    UNopImm1,
    UNopImm2,
    UNopImm3,
    UNopImm4,
    UNopImm5,
    UNopAbs,
    UNopAbsX1,
    UNopAbsX2,
    UNopAbsX3,
    UNopAbsX4,
    UNopAbsX5,
    UNopAbsX6,
    UNopImpl1,
    UNopImpl2,
    UNopImpl3,
    UNopImpl4,
    UNopImpl5,
    UNopImpl6,
    ULaxZpg,
    ULaxZpgY,
    ULaxAbs,
    ULaxAbsY,
    ULaxXind,
    ULaxIndY,
    USaxZpg,
    USaxZpgY,
    USaxXind,
    USaxAbs,
    USbcImm,
    UDcpZpg,
    UDcpZpgX,
    UDcpAbs,
    UDcpAbsX,
    UDcpAbsY,
    UDcpXind,
    UDcpIndY,
    UIsbZpg,
    UIsbZpgX,
    UIsbAbs,
    UIsbAbsX,
    UIsbAbsY,
    UIsbXind,
    UIsbIndY,
    USloZpg,
    USloZpgX,
    USloAbs,
    USloAbsX,
    USloAbsY,
    USloXind,
    USloIndY,
    URlaZpg,
    URlaZpgX,
    URlaAbs,
    URlaAbsX,
    URlaAbsY,
    URlaXind,
    URlaIndY,
    USreZpg,
    USreZpgX,
    USreAbs,
    USreAbsX,
    USreAbsY,
    USreXind,
    USreIndY,
    URraZpg,
    URraZpgX,
    URraAbs,
    URraAbsX,
    URraAbsY,
    URraXind,
    URraIndY,
}

/// The instruction byte that encodes `op`.
pub open spec fn opcode_byte(op: Opcode) -> u8 {
    match op {
        Opcode::BrkImpl => 0x00,
        Opcode::BplRel => 0x10,
        Opcode::JsrAbs => 0x20,
        Opcode::BmiRel => 0x30,
        Opcode::RtiImpl => 0x40,
        Opcode::BvcRel => 0x50,
        Opcode::RtsImpl => 0x60,
        Opcode::BvsRel => 0x70,
        Opcode::BccRel => 0x90,
        Opcode::LdyImm => 0xa0,
        Opcode::BcsRel => 0xb0,
        Opcode::CpyImm => 0xc0,
        Opcode::BneRel => 0xd0,
        Opcode::CpxImm => 0xe0,
        Opcode::BeqRel => 0xf0,
        Opcode::OraXind => 0x01,
        Opcode::AndXind => 0x21,
        Opcode::EorXind => 0x41,
        Opcode::AdcXind => 0x61,
        Opcode::StaXind => 0x81,
        Opcode::LdaXind => 0xa1,
        Opcode::CmpXind => 0xc1,
        Opcode::SbcXind => 0xe1,
        Opcode::OraIndY => 0x11,
        Opcode::AndIndY => 0x31,
        Opcode::EorIndY => 0x51,
        Opcode::AdcIndY => 0x71,
        Opcode::StaIndY => 0x91,
        Opcode::LdaIndY => 0xb1,
        Opcode::CmpIndY => 0xd1,
        Opcode::SbcIndY => 0xf1,
        Opcode::LdxImm => 0xa2,
        Opcode::BitZpg => 0x24,
        Opcode::StyZpg => 0x84,
        Opcode::StyZpgX => 0x94,
        Opcode::LdyZpg => 0xa4,
        Opcode::LdyZpgX => 0xb4,
        Opcode::CpyZpg => 0xc4,
        Opcode::CpxZpg => 0xe4,
        Opcode::OraZpg => 0x05,
        Opcode::AndZpg => 0x25,
        Opcode::EorZpg => 0x45,
        Opcode::AdcZpg => 0x65,
        Opcode::StaZpg => 0x85,
        Opcode::LdaZpg => 0xa5,
        Opcode::CmpZpg => 0xc5,
        Opcode::SbcZpg => 0xe5,
        Opcode::OraZpgX => 0x15,
        Opcode::AndZpgX => 0x35,
        Opcode::EorZpgX => 0x55,
        Opcode::AdcZpgX => 0x75,
        Opcode::StaZpgX => 0x95,
        Opcode::LdaZpgX => 0xb5,
        Opcode::CmpZpgX => 0xd5,
        Opcode::SbcZpgX => 0xf5,
        Opcode::AslZpg => 0x06,
        Opcode::RolZpg => 0x26,
        Opcode::LsrZpg => 0x46,
        Opcode::RorZpg => 0x66,
        Opcode::StxZpg => 0x86,
        Opcode::LdxZpg => 0xa6,
        Opcode::DecZpg => 0xc6,
        Opcode::IncZpg => 0xe6,
        Opcode::AslZpgX => 0x16,
        Opcode::RolZpgX => 0x36,
        Opcode::LsrZpgX => 0x56,
        Opcode::RorZpgX => 0x76,
        Opcode::StxZpgY => 0x96,
        Opcode::LdxZpgY => 0xb6,
        Opcode::DecZpgX => 0xd6,
        Opcode::IncZpgX => 0xf6,
        Opcode::PhpImpl => 0x08,
        Opcode::ClcImpl => 0x18,
        Opcode::PlpImpl => 0x28,
        Opcode::SecImpl => 0x38,
        Opcode::PhaImpl => 0x48,
        Opcode::CliImpl => 0x58,
        Opcode::PlaImpl => 0x68,
        Opcode::SeiImpl => 0x78,
        Opcode::DeyImpl => 0x88,
        Opcode::TyaImpl => 0x98,
        Opcode::TayImpl => 0xa8,
        Opcode::ClvImpl => 0xb8,
        Opcode::InyImpl => 0xc8,
        Opcode::CldImpl => 0xd8,
        Opcode::InxImpl => 0xe8,
        Opcode::SedImpl => 0xf8,
        Opcode::OraImm => 0x09,
        Opcode::AndImm => 0x29,
        Opcode::EorImm => 0x49,
        Opcode::AdcImm => 0x69,
        Opcode::LdaImm => 0xa9,
        Opcode::CmpImm => 0xc9,
        Opcode::SbcImm => 0xe9,
        Opcode::OraAbsY => 0x19,
        Opcode::AndAbsY => 0x39,
        Opcode::EorAbsY => 0x59,
        Opcode::AdcAbsY => 0x79,
        Opcode::StaAbsY => 0x99,
        Opcode::LdaAbsY => 0xb9,
        Opcode::CmpAbsY => 0xd9,
        Opcode::SbcAbsY => 0xf9,
        Opcode::AslA => 0x0a,
        Opcode::RolA => 0x2a,
        Opcode::LsrA => 0x4a,
        Opcode::RorA => 0x6a,
        Opcode::TxaImpl => 0x8a,
        Opcode::TxsImpl => 0x9a,
        Opcode::TaxImpl => 0xaa,
        Opcode::TsxImpl => 0xba,
        Opcode::DexImpl => 0xca,
        Opcode::NopImpl => 0xea,
        Opcode::BitAbs => 0x2c,
        Opcode::JmpAbs => 0x4c,
        Opcode::JmpInd => 0x6c,
        Opcode::StyAbs => 0x8c,
        Opcode::LdyAbs => 0xac,
        Opcode::LdyAbsX => 0xbc,
        Opcode::CpyAbs => 0xcc,
        Opcode::CpxAbs => 0xec,
        Opcode::OraAbs => 0x0d,
        Opcode::AndAbs => 0x2d,
        Opcode::EorAbs => 0x4d,
        Opcode::AdcAbs => 0x6d,
        Opcode::StaAbs => 0x8d,
        Opcode::LdaAbs => 0xad,
        Opcode::CmpAbs => 0xcd,
        Opcode::SbcAbs => 0xed,
        Opcode::OraAbsX => 0x1d,
        Opcode::AndAbsX => 0x3d,
        Opcode::EorAbsX => 0x5d,
        Opcode::AdcAbsX => 0x7d,
        Opcode::StaAbsX => 0x9d,
        Opcode::LdaAbsX => 0xbd,
        Opcode::CmpAbsX => 0xdd,
        Opcode::SbcAbsX => 0xfd,
        Opcode::AslAbs => 0x0e,
        Opcode::RolAbs => 0x2e,
        Opcode::LsrAbs => 0x4e,
        Opcode::RorAbs => 0x6e,
        Opcode::StxAbs => 0x8e,
        Opcode::LdxAbs => 0xae,
        Opcode::DecAbs => 0xce,
        Opcode::IncAbs => 0xee,
        Opcode::AslAbsX => 0x1e,
        Opcode::RolAbsX => 0x3e,
        Opcode::LsrAbsX => 0x5e,
        Opcode::RorAbsX => 0x7e,
        Opcode::LdxAbsY => 0xbe,
        Opcode::DecAbsX => 0xde,
        Opcode::IncAbsX => 0xfe,
        Opcode::UNopZpg1 => 0x04,
        Opcode::UNopZpg2 => 0x44,
        Opcode::UNopZpg3 => 0x64,
        Opcode::UNopZpgX1 => 0x14,
        Opcode::UNopZpgX2 => 0x34,
        Opcode::UNopZpgX3 => 0x54,
        Opcode::UNopZpgX4 => 0x74,
        Opcode::UNopZpgX5 => 0xd4,
        Opcode::UNopZpgX6 => 0xf4,
        Opcode::UNopImm1 => 0x80,
        Opcode::UNopImm2 => 0x82,
        Opcode::UNopImm3 => 0x89,
        Opcode::UNopImm4 => 0xc2,
        Opcode::UNopImm5 => 0xe2,
        Opcode::UNopAbs => 0x0c,
        Opcode::UNopAbsX1 => 0x1c,
        Opcode::UNopAbsX2 => 0x3c,
        Opcode::UNopAbsX3 => 0x5c,
        Opcode::UNopAbsX4 => 0x7c,
        Opcode::UNopAbsX5 => 0xdc,
        Opcode::UNopAbsX6 => 0xfc,
        Opcode::UNopImpl1 => 0x1a,
        Opcode::UNopImpl2 => 0x3a,
        Opcode::UNopImpl3 => 0x5a,
        Opcode::UNopImpl4 => 0x7a,
        Opcode::UNopImpl5 => 0xda,
        Opcode::UNopImpl6 => 0xfa,
        Opcode::ULaxZpg => 0xa7,
        Opcode::ULaxZpgY => 0xb7,
        Opcode::ULaxAbs => 0xaf,
        Opcode::ULaxAbsY => 0xbf,
        Opcode::ULaxXind => 0xa3,
        Opcode::ULaxIndY => 0xb3,
        Opcode::USaxZpg => 0x87,
        Opcode::USaxZpgY => 0x97,
        Opcode::USaxXind => 0x83,
        Opcode::USaxAbs => 0x8f,
        Opcode::USbcImm => 0xeb,
        Opcode::UDcpZpg => 0xc7,
        Opcode::UDcpZpgX => 0xd7,
        Opcode::UDcpAbs => 0xcf,
        Opcode::UDcpAbsX => 0xdf,
        Opcode::UDcpAbsY => 0xdb,
        Opcode::UDcpXind => 0xc3,
        Opcode::UDcpIndY => 0xd3,
        Opcode::UIsbZpg => 0xe7,
        Opcode::UIsbZpgX => 0xf7,
        Opcode::UIsbAbs => 0xef,
        Opcode::UIsbAbsX => 0xff,
        Opcode::UIsbAbsY => 0xfb,
        Opcode::UIsbXind => 0xe3,
        Opcode::UIsbIndY => 0xf3,
        Opcode::USloZpg => 0x07,
        Opcode::USloZpgX => 0x17,
        Opcode::USloAbs => 0x0f,
        Opcode::USloAbsX => 0x1f,
        Opcode::USloAbsY => 0x1b,
        Opcode::USloXind => 0x03,
        Opcode::USloIndY => 0x13,
        Opcode::URlaZpg => 0x27,
        Opcode::URlaZpgX => 0x37,
        Opcode::URlaAbs => 0x2f,
        Opcode::URlaAbsX => 0x3f,
        Opcode::URlaAbsY => 0x3b,
        Opcode::URlaXind => 0x23,
        Opcode::URlaIndY => 0x33,
        Opcode::USreZpg => 0x47,
        Opcode::USreZpgX => 0x57,
        Opcode::USreAbs => 0x4f,
        Opcode::USreAbsX => 0x5f,
        Opcode::USreAbsY => 0x5b,
        Opcode::USreXind => 0x43,
        Opcode::USreIndY => 0x53,
        Opcode::URraZpg => 0x67,
        Opcode::URraZpgX => 0x77,
        Opcode::URraAbs => 0x6f,
        Opcode::URraAbsX => 0x7f,
        Opcode::URraAbsY => 0x7b,
        Opcode::URraXind => 0x63,
        Opcode::URraIndY => 0x73,
    }
}

/// The opcode that the instruction byte `b` encodes, if any.
pub open spec fn decode_opcode(b: u8) -> Option<Opcode> {
    match b {
        0x00 => Some(Opcode::BrkImpl),
        0x01 => Some(Opcode::OraXind),
        0x03 => Some(Opcode::USloXind),
        0x04 => Some(Opcode::UNopZpg1),
        0x05 => Some(Opcode::OraZpg),
        0x06 => Some(Opcode::AslZpg),
        0x07 => Some(Opcode::USloZpg),
        0x08 => Some(Opcode::PhpImpl),
        0x09 => Some(Opcode::OraImm),
        0x0a => Some(Opcode::AslA),
        0x0c => Some(Opcode::UNopAbs),
        0x0d => Some(Opcode::OraAbs),
        0x0e => Some(Opcode::AslAbs),
        0x0f => Some(Opcode::USloAbs),
        0x10 => Some(Opcode::BplRel),
        0x11 => Some(Opcode::OraIndY),
        0x13 => Some(Opcode::USloIndY),
        0x14 => Some(Opcode::UNopZpgX1),
        0x15 => Some(Opcode::OraZpgX),
        0x16 => Some(Opcode::AslZpgX),
        0x17 => Some(Opcode::USloZpgX),
        0x18 => Some(Opcode::ClcImpl),
        0x19 => Some(Opcode::OraAbsY),
        0x1a => Some(Opcode::UNopImpl1),
        0x1b => Some(Opcode::USloAbsY),
        0x1c => Some(Opcode::UNopAbsX1),
        0x1d => Some(Opcode::OraAbsX),
        0x1e => Some(Opcode::AslAbsX),
        0x1f => Some(Opcode::USloAbsX),
        0x20 => Some(Opcode::JsrAbs),
        0x21 => Some(Opcode::AndXind),
        0x23 => Some(Opcode::URlaXind),
        0x24 => Some(Opcode::BitZpg),
        0x25 => Some(Opcode::AndZpg),
        0x26 => Some(Opcode::RolZpg),
        0x27 => Some(Opcode::URlaZpg),
        0x28 => Some(Opcode::PlpImpl),
        0x29 => Some(Opcode::AndImm),
        0x2a => Some(Opcode::RolA),
        0x2c => Some(Opcode::BitAbs),
        0x2d => Some(Opcode::AndAbs),
        0x2e => Some(Opcode::RolAbs),
        0x2f => Some(Opcode::URlaAbs),
        0x30 => Some(Opcode::BmiRel),
        0x31 => Some(Opcode::AndIndY),
        0x33 => Some(Opcode::URlaIndY),
        0x34 => Some(Opcode::UNopZpgX2),
        0x35 => Some(Opcode::AndZpgX),
        0x36 => Some(Opcode::RolZpgX),
        0x37 => Some(Opcode::URlaZpgX),
        0x38 => Some(Opcode::SecImpl),
        0x39 => Some(Opcode::AndAbsY),
        0x3a => Some(Opcode::UNopImpl2),
        0x3b => Some(Opcode::URlaAbsY),
        0x3c => Some(Opcode::UNopAbsX2),
        0x3d => Some(Opcode::AndAbsX),
        0x3e => Some(Opcode::RolAbsX),
        0x3f => Some(Opcode::URlaAbsX),
        0x40 => Some(Opcode::RtiImpl),
        0x41 => Some(Opcode::EorXind),
        0x43 => Some(Opcode::USreXind),
        0x44 => Some(Opcode::UNopZpg2),
        0x45 => Some(Opcode::EorZpg),
        0x46 => Some(Opcode::LsrZpg),
        0x47 => Some(Opcode::USreZpg),
        0x48 => Some(Opcode::PhaImpl),
        0x49 => Some(Opcode::EorImm),
        0x4a => Some(Opcode::LsrA),
        0x4c => Some(Opcode::JmpAbs),
        0x4d => Some(Opcode::EorAbs),
        0x4e => Some(Opcode::LsrAbs),
        0x4f => Some(Opcode::USreAbs),
        0x50 => Some(Opcode::BvcRel),
        0x51 => Some(Opcode::EorIndY),
        0x53 => Some(Opcode::USreIndY),
        0x54 => Some(Opcode::UNopZpgX3),
        0x55 => Some(Opcode::EorZpgX),
        0x56 => Some(Opcode::LsrZpgX),
        0x57 => Some(Opcode::USreZpgX),
        0x58 => Some(Opcode::CliImpl),
        0x59 => Some(Opcode::EorAbsY),
        0x5a => Some(Opcode::UNopImpl3),
        0x5b => Some(Opcode::USreAbsY),
        0x5c => Some(Opcode::UNopAbsX3),
        0x5d => Some(Opcode::EorAbsX),
        0x5e => Some(Opcode::LsrAbsX),
        0x5f => Some(Opcode::USreAbsX),
        0x60 => Some(Opcode::RtsImpl),
        0x61 => Some(Opcode::AdcXind),
        0x63 => Some(Opcode::URraXind),
        0x64 => Some(Opcode::UNopZpg3),
        0x65 => Some(Opcode::AdcZpg),
        0x66 => Some(Opcode::RorZpg),
        0x67 => Some(Opcode::URraZpg),
        0x68 => Some(Opcode::PlaImpl),
        0x69 => Some(Opcode::AdcImm),
        0x6a => Some(Opcode::RorA),
        0x6c => Some(Opcode::JmpInd),
        0x6d => Some(Opcode::AdcAbs),
        0x6e => Some(Opcode::RorAbs),
        0x6f => Some(Opcode::URraAbs),
        0x70 => Some(Opcode::BvsRel),
        0x71 => Some(Opcode::AdcIndY),
        0x73 => Some(Opcode::URraIndY),
        0x74 => Some(Opcode::UNopZpgX4),
        0x75 => Some(Opcode::AdcZpgX),
        0x76 => Some(Opcode::RorZpgX),
        0x77 => Some(Opcode::URraZpgX),
        0x78 => Some(Opcode::SeiImpl),
        0x79 => Some(Opcode::AdcAbsY),
        0x7a => Some(Opcode::UNopImpl4),
        0x7b => Some(Opcode::URraAbsY),
        0x7c => Some(Opcode::UNopAbsX4),
        0x7d => Some(Opcode::AdcAbsX),
        0x7e => Some(Opcode::RorAbsX),
        0x7f => Some(Opcode::URraAbsX),
        0x80 => Some(Opcode::UNopImm1),
        0x81 => Some(Opcode::StaXind),
        0x82 => Some(Opcode::UNopImm2),
        0x83 => Some(Opcode::USaxXind),
        0x84 => Some(Opcode::StyZpg),
        0x85 => Some(Opcode::StaZpg),
        0x86 => Some(Opcode::StxZpg),
        0x87 => Some(Opcode::USaxZpg),
        0x88 => Some(Opcode::DeyImpl),
        0x89 => Some(Opcode::UNopImm3),
        0x8a => Some(Opcode::TxaImpl),
        0x8c => Some(Opcode::StyAbs),
        0x8d => Some(Opcode::StaAbs),
        0x8e => Some(Opcode::StxAbs),
        0x8f => Some(Opcode::USaxAbs),
        0x90 => Some(Opcode::BccRel),
        0x91 => Some(Opcode::StaIndY),
        0x94 => Some(Opcode::StyZpgX),
        0x95 => Some(Opcode::StaZpgX),
        0x96 => Some(Opcode::StxZpgY),
        0x97 => Some(Opcode::USaxZpgY),
        0x98 => Some(Opcode::TyaImpl),
        0x99 => Some(Opcode::StaAbsY),
        0x9a => Some(Opcode::TxsImpl),
        0x9d => Some(Opcode::StaAbsX),
        0xa0 => Some(Opcode::LdyImm),
        0xa1 => Some(Opcode::LdaXind),
        0xa2 => Some(Opcode::LdxImm),
        0xa3 => Some(Opcode::ULaxXind),
        0xa4 => Some(Opcode::LdyZpg),
        0xa5 => Some(Opcode::LdaZpg),
        0xa6 => Some(Opcode::LdxZpg),
        0xa7 => Some(Opcode::ULaxZpg),
        0xa8 => Some(Opcode::TayImpl),
        0xa9 => Some(Opcode::LdaImm),
        0xaa => Some(Opcode::TaxImpl),
        0xac => Some(Opcode::LdyAbs),
        0xad => Some(Opcode::LdaAbs),
        0xae => Some(Opcode::LdxAbs),
        0xaf => Some(Opcode::ULaxAbs),
        0xb0 => Some(Opcode::BcsRel),
        0xb1 => Some(Opcode::LdaIndY),
        0xb3 => Some(Opcode::ULaxIndY),
        0xb4 => Some(Opcode::LdyZpgX),
        0xb5 => Some(Opcode::LdaZpgX),
        0xb6 => Some(Opcode::LdxZpgY),
        0xb7 => Some(Opcode::ULaxZpgY),
        0xb8 => Some(Opcode::ClvImpl),
        0xb9 => Some(Opcode::LdaAbsY),
        0xba => Some(Opcode::TsxImpl),
        0xbc => Some(Opcode::LdyAbsX),
        0xbd => Some(Opcode::LdaAbsX),
        0xbe => Some(Opcode::LdxAbsY),
        0xbf => Some(Opcode::ULaxAbsY),
        0xc0 => Some(Opcode::CpyImm),
        0xc1 => Some(Opcode::CmpXind),
        0xc2 => Some(Opcode::UNopImm4),
        0xc3 => Some(Opcode::UDcpXind),
        0xc4 => Some(Opcode::CpyZpg),
        0xc5 => Some(Opcode::CmpZpg),
        0xc6 => Some(Opcode::DecZpg),
        0xc7 => Some(Opcode::UDcpZpg),
        0xc8 => Some(Opcode::InyImpl),
        0xc9 => Some(Opcode::CmpImm),
        0xca => Some(Opcode::DexImpl),
        0xcc => Some(Opcode::CpyAbs),
        0xcd => Some(Opcode::CmpAbs),
        0xce => Some(Opcode::DecAbs),
        0xcf => Some(Opcode::UDcpAbs),
        0xd0 => Some(Opcode::BneRel),
        0xd1 => Some(Opcode::CmpIndY),
        0xd3 => Some(Opcode::UDcpIndY),
        0xd4 => Some(Opcode::UNopZpgX5),
        0xd5 => Some(Opcode::CmpZpgX),
        0xd6 => Some(Opcode::DecZpgX),
        0xd7 => Some(Opcode::UDcpZpgX),
        0xd8 => Some(Opcode::CldImpl),
        0xd9 => Some(Opcode::CmpAbsY),
        0xda => Some(Opcode::UNopImpl5),
        0xdb => Some(Opcode::UDcpAbsY),
        0xdc => Some(Opcode::UNopAbsX5),
        0xdd => Some(Opcode::CmpAbsX),
        0xde => Some(Opcode::DecAbsX),
        0xdf => Some(Opcode::UDcpAbsX),
        0xe0 => Some(Opcode::CpxImm),
        0xe1 => Some(Opcode::SbcXind),
        0xe2 => Some(Opcode::UNopImm5),
        0xe3 => Some(Opcode::UIsbXind),
        0xe4 => Some(Opcode::CpxZpg),
        0xe5 => Some(Opcode::SbcZpg),
        0xe6 => Some(Opcode::IncZpg),
        0xe7 => Some(Opcode::UIsbZpg),
        0xe8 => Some(Opcode::InxImpl),
        0xe9 => Some(Opcode::SbcImm),
        0xea => Some(Opcode::NopImpl),
        0xeb => Some(Opcode::USbcImm),
        0xec => Some(Opcode::CpxAbs),
        0xed => Some(Opcode::SbcAbs),
        0xee => Some(Opcode::IncAbs),
        0xef => Some(Opcode::UIsbAbs),
        0xf0 => Some(Opcode::BeqRel),
        0xf1 => Some(Opcode::SbcIndY),
        0xf3 => Some(Opcode::UIsbIndY),
        0xf4 => Some(Opcode::UNopZpgX6),
        0xf5 => Some(Opcode::SbcZpgX),
        0xf6 => Some(Opcode::IncZpgX),
        0xf7 => Some(Opcode::UIsbZpgX),
        0xf8 => Some(Opcode::SedImpl),
        0xf9 => Some(Opcode::SbcAbsY),
        0xfa => Some(Opcode::UNopImpl6),
        0xfb => Some(Opcode::UIsbAbsY),
        0xfc => Some(Opcode::UNopAbsX6),
        0xfd => Some(Opcode::SbcAbsX),
        0xfe => Some(Opcode::IncAbsX),
        0xff => Some(Opcode::UIsbAbsX),
        _ => None,
    }
}

/// The assembler mnemonic of `op`; undocumented opcodes carry a leading `*`.
pub open spec fn mnemonic(op: Opcode) -> Seq<char> {
    match op {
        Opcode::BrkImpl => "BRK"@,
        Opcode::BplRel => "BPL"@,
        Opcode::JsrAbs => "JSR"@,
        Opcode::BmiRel => "BMI"@,
        Opcode::RtiImpl => "RTI"@,
        Opcode::BvcRel => "BVC"@,
        Opcode::RtsImpl => "RTS"@,
        Opcode::BvsRel => "BVS"@,
        Opcode::BccRel => "BCC"@,
        Opcode::LdyImm => "LDY"@,
        Opcode::BcsRel => "BCS"@,
        Opcode::CpyImm => "CPY"@,
        Opcode::BneRel => "BNE"@,
        Opcode::CpxImm => "CPX"@,
        Opcode::BeqRel => "BEQ"@,
        Opcode::OraXind => "ORA"@,
        Opcode::AndXind => "AND"@,
        Opcode::EorXind => "EOR"@,
        Opcode::AdcXind => "ADC"@,
        Opcode::StaXind => "STA"@,
        Opcode::LdaXind => "LDA"@,
        Opcode::CmpXind => "CMP"@,
        Opcode::SbcXind => "SBC"@,
        Opcode::OraIndY => "ORA"@,
        Opcode::AndIndY => "AND"@,
        Opcode::EorIndY => "EOR"@,
        Opcode::AdcIndY => "ADC"@,
        Opcode::StaIndY => "STA"@,
        Opcode::LdaIndY => "LDA"@,
        Opcode::CmpIndY => "CMP"@,
        Opcode::SbcIndY => "SBC"@,
        Opcode::LdxImm => "LDX"@,
        Opcode::BitZpg => "BIT"@,
        Opcode::StyZpg => "STY"@,
        Opcode::StyZpgX => "STY"@,
        Opcode::LdyZpg => "LDY"@,
        Opcode::LdyZpgX => "LDY"@,
        Opcode::CpyZpg => "CPY"@,
        Opcode::CpxZpg => "CPX"@,
        Opcode::OraZpg => "ORA"@,
        Opcode::AndZpg => "AND"@,
        Opcode::EorZpg => "EOR"@,
        Opcode::AdcZpg => "ADC"@,
        Opcode::StaZpg => "STA"@,
        Opcode::LdaZpg => "LDA"@,
        Opcode::CmpZpg => "CMP"@,
        Opcode::SbcZpg => "SBC"@,
        Opcode::OraZpgX => "ORA"@,
        Opcode::AndZpgX => "AND"@,
        Opcode::EorZpgX => "EOR"@,
        Opcode::AdcZpgX => "ADC"@,
        Opcode::StaZpgX => "STA"@,
        Opcode::LdaZpgX => "LDA"@,
        Opcode::CmpZpgX => "CMP"@,
        Opcode::SbcZpgX => "SBC"@,
        Opcode::AslZpg => "ASL"@,
        Opcode::RolZpg => "ROL"@,
        Opcode::LsrZpg => "LSR"@,
        Opcode::RorZpg => "ROR"@,
        Opcode::StxZpg => "STX"@,
        Opcode::LdxZpg => "LDX"@,
        Opcode::DecZpg => "DEC"@,
        Opcode::IncZpg => "INC"@,
        Opcode::AslZpgX => "ASL"@,
        Opcode::RolZpgX => "ROL"@,
        Opcode::LsrZpgX => "LSR"@,
        Opcode::RorZpgX => "ROR"@,
        Opcode::StxZpgY => "STX"@,
        Opcode::LdxZpgY => "LDX"@,
        Opcode::DecZpgX => "DEC"@,
        Opcode::IncZpgX => "INC"@,
        Opcode::PhpImpl => "PHP"@,
        Opcode::ClcImpl => "CLC"@,
        Opcode::PlpImpl => "PLP"@,
        Opcode::SecImpl => "SEC"@,
        Opcode::PhaImpl => "PHA"@,
        Opcode::CliImpl => "CLI"@,
        Opcode::PlaImpl => "PLA"@,
        Opcode::SeiImpl => "SEI"@,
        Opcode::DeyImpl => "DEY"@,
        Opcode::TyaImpl => "TYA"@,
        Opcode::TayImpl => "TAY"@,
        Opcode::ClvImpl => "CLV"@,
        Opcode::InyImpl => "INY"@,
        Opcode::CldImpl => "CLD"@,
        Opcode::InxImpl => "INX"@,
        Opcode::SedImpl => "SED"@,
        Opcode::OraImm => "ORA"@,
        Opcode::AndImm => "AND"@,
        Opcode::EorImm => "EOR"@,
        Opcode::AdcImm => "ADC"@,
        Opcode::LdaImm => "LDA"@,
        Opcode::CmpImm => "CMP"@,
        Opcode::SbcImm => "SBC"@,
        Opcode::OraAbsY => "ORA"@,
        Opcode::AndAbsY => "AND"@,
        Opcode::EorAbsY => "EOR"@,
        Opcode::AdcAbsY => "ADC"@,
        Opcode::StaAbsY => "STA"@,
        Opcode::LdaAbsY => "LDA"@,
        Opcode::CmpAbsY => "CMP"@,
        Opcode::SbcAbsY => "SBC"@,
        Opcode::AslA => "ASL"@,
        Opcode::RolA => "ROL"@,
        Opcode::LsrA => "LSR"@,
        Opcode::RorA => "ROR"@,
        Opcode::TxaImpl => "TXA"@,
        Opcode::TxsImpl => "TXS"@,
        Opcode::TaxImpl => "TAX"@,
        Opcode::TsxImpl => "TSX"@,
        Opcode::DexImpl => "DEX"@,
        Opcode::NopImpl => "NOP"@,
        Opcode::BitAbs => "BIT"@,
        Opcode::JmpAbs => "JMP"@,
        Opcode::JmpInd => "JMP"@,
        Opcode::StyAbs => "STY"@,
        Opcode::LdyAbs => "LDY"@,
        Opcode::LdyAbsX => "LDY"@,
        Opcode::CpyAbs => "CPY"@,
        Opcode::CpxAbs => "CPX"@,
        Opcode::OraAbs => "ORA"@,
        Opcode::AndAbs => "AND"@,
        Opcode::EorAbs => "EOR"@,
        Opcode::AdcAbs => "ADC"@,
        Opcode::StaAbs => "STA"@,
        Opcode::LdaAbs => "LDA"@,
        Opcode::CmpAbs => "CMP"@,
        Opcode::SbcAbs => "SBC"@,
        Opcode::OraAbsX => "ORA"@,
        Opcode::AndAbsX => "AND"@,
        Opcode::EorAbsX => "EOR"@,
        Opcode::AdcAbsX => "ADC"@,
        Opcode::StaAbsX => "STA"@,
        Opcode::LdaAbsX => "LDA"@,
        Opcode::CmpAbsX => "CMP"@,
        Opcode::SbcAbsX => "SBC"@,
        Opcode::AslAbs => "ASL"@,
        Opcode::RolAbs => "ROL"@,
        Opcode::LsrAbs => "LSR"@,
        Opcode::RorAbs => "ROR"@,
        Opcode::StxAbs => "STX"@,
        Opcode::LdxAbs => "LDX"@,
        Opcode::DecAbs => "DEC"@,
        Opcode::IncAbs => "INC"@,
        Opcode::AslAbsX => "ASL"@,
        Opcode::RolAbsX => "ROL"@,
        Opcode::LsrAbsX => "LSR"@,
        Opcode::RorAbsX => "ROR"@,
        Opcode::LdxAbsY => "LDX"@,
        Opcode::DecAbsX => "DEC"@,
        Opcode::IncAbsX => "INC"@,
        Opcode::UNopZpg1 => "*NOP"@,
        Opcode::UNopZpg2 => "*NOP"@,
        Opcode::UNopZpg3 => "*NOP"@,
        Opcode::UNopZpgX1 => "*NOP"@,
        Opcode::UNopZpgX2 => "*NOP"@,
        Opcode::UNopZpgX3 => "*NOP"@,
        Opcode::UNopZpgX4 => "*NOP"@,
        Opcode::UNopZpgX5 => "*NOP"@,
        Opcode::UNopZpgX6 => "*NOP"@,
        Opcode::UNopImm1 => "*NOP"@,
        Opcode::UNopImm2 => "*NOP"@,
        Opcode::UNopImm3 => "*NOP"@,
        Opcode::UNopImm4 => "*NOP"@,
        Opcode::UNopImm5 => "*NOP"@,
        Opcode::UNopAbs => "*NOP"@,
        Opcode::UNopAbsX1 => "*NOP"@,
        Opcode::UNopAbsX2 => "*NOP"@,
        Opcode::UNopAbsX3 => "*NOP"@,
        Opcode::UNopAbsX4 => "*NOP"@,
        Opcode::UNopAbsX5 => "*NOP"@,
        Opcode::UNopAbsX6 => "*NOP"@,
        Opcode::UNopImpl1 => "*NOP"@,
        Opcode::UNopImpl2 => "*NOP"@,
        Opcode::UNopImpl3 => "*NOP"@,
        Opcode::UNopImpl4 => "*NOP"@,
        Opcode::UNopImpl5 => "*NOP"@,
        Opcode::UNopImpl6 => "*NOP"@,
        Opcode::ULaxZpg => "*LAX"@,
        Opcode::ULaxZpgY => "*LAX"@,
        Opcode::ULaxAbs => "*LAX"@,
        Opcode::ULaxAbsY => "*LAX"@,
        Opcode::ULaxXind => "*LAX"@,
        Opcode::ULaxIndY => "*LAX"@,
        Opcode::USaxZpg => "*SAX"@,
        Opcode::USaxZpgY => "*SAX"@,
        Opcode::USaxXind => "*SAX"@,
        Opcode::USaxAbs => "*SAX"@,
        Opcode::USbcImm => "*SBC"@,
        Opcode::UDcpZpg => "*DCP"@,
        Opcode::UDcpZpgX => "*DCP"@,
        Opcode::UDcpAbs => "*DCP"@,
        Opcode::UDcpAbsX => "*DCP"@,
        Opcode::UDcpAbsY => "*DCP"@,
        Opcode::UDcpXind => "*DCP"@,
        Opcode::UDcpIndY => "*DCP"@,
        Opcode::UIsbZpg => "*ISB"@,
        Opcode::UIsbZpgX => "*ISB"@,
        Opcode::UIsbAbs => "*ISB"@,
        Opcode::UIsbAbsX => "*ISB"@,
        Opcode::UIsbAbsY => "*ISB"@,
        Opcode::UIsbXind => "*ISB"@,
        Opcode::UIsbIndY => "*ISB"@,
        Opcode::USloZpg => "*SLO"@,
        Opcode::USloZpgX => "*SLO"@,
        Opcode::USloAbs => "*SLO"@,
        Opcode::USloAbsX => "*SLO"@,
        Opcode::USloAbsY => "*SLO"@,
        Opcode::USloXind => "*SLO"@,
        Opcode::USloIndY => "*SLO"@,
        Opcode::URlaZpg => "*RLA"@,
        Opcode::URlaZpgX => "*RLA"@,
        Opcode::URlaAbs => "*RLA"@,
        Opcode::URlaAbsX => "*RLA"@,
        Opcode::URlaAbsY => "*RLA"@,
        Opcode::URlaXind => "*RLA"@,
        Opcode::URlaIndY => "*RLA"@,
        Opcode::USreZpg => "*SRE"@,
        Opcode::USreZpgX => "*SRE"@,
        Opcode::USreAbs => "*SRE"@,
        Opcode::USreAbsX => "*SRE"@,
        Opcode::USreAbsY => "*SRE"@,
        Opcode::USreXind => "*SRE"@,
        Opcode::USreIndY => "*SRE"@,
        Opcode::URraZpg => "*RRA"@,
        Opcode::URraZpgX => "*RRA"@,
        Opcode::URraAbs => "*RRA"@,
        Opcode::URraAbsX => "*RRA"@,
        Opcode::URraAbsY => "*RRA"@,
        Opcode::URraXind => "*RRA"@,
        Opcode::URraIndY => "*RRA"@,
    }
}

impl Opcode {
    /// Decodes an instruction byte; `None` for a byte that encodes no known opcode.
    pub fn from_u8(b: u8) -> (r: Option<Opcode>)
        ensures
            r == decode_opcode(b),
    {
        match b {
            0x00 => Some(Opcode::BrkImpl),
            0x01 => Some(Opcode::OraXind),
            0x03 => Some(Opcode::USloXind),
            0x04 => Some(Opcode::UNopZpg1),
            0x05 => Some(Opcode::OraZpg),
            0x06 => Some(Opcode::AslZpg),
            0x07 => Some(Opcode::USloZpg),
            0x08 => Some(Opcode::PhpImpl),
            0x09 => Some(Opcode::OraImm),
            0x0a => Some(Opcode::AslA),
            0x0c => Some(Opcode::UNopAbs),
            0x0d => Some(Opcode::OraAbs),
            0x0e => Some(Opcode::AslAbs),
            0x0f => Some(Opcode::USloAbs),
            0x10 => Some(Opcode::BplRel),
            0x11 => Some(Opcode::OraIndY),
            0x13 => Some(Opcode::USloIndY),
            0x14 => Some(Opcode::UNopZpgX1),
            0x15 => Some(Opcode::OraZpgX),
            0x16 => Some(Opcode::AslZpgX),
            0x17 => Some(Opcode::USloZpgX),
            0x18 => Some(Opcode::ClcImpl),
            0x19 => Some(Opcode::OraAbsY),
            0x1a => Some(Opcode::UNopImpl1),
            0x1b => Some(Opcode::USloAbsY),
            0x1c => Some(Opcode::UNopAbsX1),
            0x1d => Some(Opcode::OraAbsX),
            0x1e => Some(Opcode::AslAbsX),
            0x1f => Some(Opcode::USloAbsX),
            0x20 => Some(Opcode::JsrAbs),
            0x21 => Some(Opcode::AndXind),
            0x23 => Some(Opcode::URlaXind),
            0x24 => Some(Opcode::BitZpg),
            0x25 => Some(Opcode::AndZpg),
            0x26 => Some(Opcode::RolZpg),
            0x27 => Some(Opcode::URlaZpg),
            0x28 => Some(Opcode::PlpImpl),
            0x29 => Some(Opcode::AndImm),
            0x2a => Some(Opcode::RolA),
            0x2c => Some(Opcode::BitAbs),
            0x2d => Some(Opcode::AndAbs),
            0x2e => Some(Opcode::RolAbs),
            0x2f => Some(Opcode::URlaAbs),
            0x30 => Some(Opcode::BmiRel),
            0x31 => Some(Opcode::AndIndY),
            0x33 => Some(Opcode::URlaIndY),
            0x34 => Some(Opcode::UNopZpgX2),
            0x35 => Some(Opcode::AndZpgX),
            0x36 => Some(Opcode::RolZpgX),
            0x37 => Some(Opcode::URlaZpgX),
            0x38 => Some(Opcode::SecImpl),
            0x39 => Some(Opcode::AndAbsY),
            0x3a => Some(Opcode::UNopImpl2),
            0x3b => Some(Opcode::URlaAbsY),
            0x3c => Some(Opcode::UNopAbsX2),
            0x3d => Some(Opcode::AndAbsX),
            0x3e => Some(Opcode::RolAbsX),
            0x3f => Some(Opcode::URlaAbsX),
            0x40 => Some(Opcode::RtiImpl),
            0x41 => Some(Opcode::EorXind),
            0x43 => Some(Opcode::USreXind),
            0x44 => Some(Opcode::UNopZpg2),
            0x45 => Some(Opcode::EorZpg),
            0x46 => Some(Opcode::LsrZpg),
            0x47 => Some(Opcode::USreZpg),
            0x48 => Some(Opcode::PhaImpl),
            0x49 => Some(Opcode::EorImm),
            0x4a => Some(Opcode::LsrA),
            0x4c => Some(Opcode::JmpAbs),
            0x4d => Some(Opcode::EorAbs),
            0x4e => Some(Opcode::LsrAbs),
            0x4f => Some(Opcode::USreAbs),
            0x50 => Some(Opcode::BvcRel),
            0x51 => Some(Opcode::EorIndY),
            0x53 => Some(Opcode::USreIndY),
            0x54 => Some(Opcode::UNopZpgX3),
            0x55 => Some(Opcode::EorZpgX),
            0x56 => Some(Opcode::LsrZpgX),
            0x57 => Some(Opcode::USreZpgX),
            0x58 => Some(Opcode::CliImpl),
            0x59 => Some(Opcode::EorAbsY),
            0x5a => Some(Opcode::UNopImpl3),
            0x5b => Some(Opcode::USreAbsY),
            0x5c => Some(Opcode::UNopAbsX3),
            0x5d => Some(Opcode::EorAbsX),
            0x5e => Some(Opcode::LsrAbsX),
            0x5f => Some(Opcode::USreAbsX),
            0x60 => Some(Opcode::RtsImpl),
            0x61 => Some(Opcode::AdcXind),
            0x63 => Some(Opcode::URraXind),
            0x64 => Some(Opcode::UNopZpg3),
            0x65 => Some(Opcode::AdcZpg),
            0x66 => Some(Opcode::RorZpg),
            0x67 => Some(Opcode::URraZpg),
            0x68 => Some(Opcode::PlaImpl),
            0x69 => Some(Opcode::AdcImm),
            0x6a => Some(Opcode::RorA),
            0x6c => Some(Opcode::JmpInd),
            0x6d => Some(Opcode::AdcAbs),
            0x6e => Some(Opcode::RorAbs),
            0x6f => Some(Opcode::URraAbs),
            0x70 => Some(Opcode::BvsRel),
            0x71 => Some(Opcode::AdcIndY),
            0x73 => Some(Opcode::URraIndY),
            0x74 => Some(Opcode::UNopZpgX4),
            0x75 => Some(Opcode::AdcZpgX),
            0x76 => Some(Opcode::RorZpgX),
            0x77 => Some(Opcode::URraZpgX),
            0x78 => Some(Opcode::SeiImpl),
            0x79 => Some(Opcode::AdcAbsY),
            0x7a => Some(Opcode::UNopImpl4),
            0x7b => Some(Opcode::URraAbsY),
            0x7c => Some(Opcode::UNopAbsX4),
            0x7d => Some(Opcode::AdcAbsX),
            0x7e => Some(Opcode::RorAbsX),
            0x7f => Some(Opcode::URraAbsX),
            0x80 => Some(Opcode::UNopImm1),
            0x81 => Some(Opcode::StaXind),
            0x82 => Some(Opcode::UNopImm2),
            0x83 => Some(Opcode::USaxXind),
            0x84 => Some(Opcode::StyZpg),
            0x85 => Some(Opcode::StaZpg),
            0x86 => Some(Opcode::StxZpg),
            0x87 => Some(Opcode::USaxZpg),
            0x88 => Some(Opcode::DeyImpl),
            0x89 => Some(Opcode::UNopImm3),
            0x8a => Some(Opcode::TxaImpl),
            0x8c => Some(Opcode::StyAbs),
            0x8d => Some(Opcode::StaAbs),
            0x8e => Some(Opcode::StxAbs),
            0x8f => Some(Opcode::USaxAbs),
            0x90 => Some(Opcode::BccRel),
            0x91 => Some(Opcode::StaIndY),
            0x94 => Some(Opcode::StyZpgX),
            0x95 => Some(Opcode::StaZpgX),
            0x96 => Some(Opcode::StxZpgY),
            0x97 => Some(Opcode::USaxZpgY),
            0x98 => Some(Opcode::TyaImpl),
            0x99 => Some(Opcode::StaAbsY),
            0x9a => Some(Opcode::TxsImpl),
            0x9d => Some(Opcode::StaAbsX),
            0xa0 => Some(Opcode::LdyImm),
            0xa1 => Some(Opcode::LdaXind),
            0xa2 => Some(Opcode::LdxImm),
            0xa3 => Some(Opcode::ULaxXind),
            0xa4 => Some(Opcode::LdyZpg),
            0xa5 => Some(Opcode::LdaZpg),
            0xa6 => Some(Opcode::LdxZpg),
            0xa7 => Some(Opcode::ULaxZpg),
            0xa8 => Some(Opcode::TayImpl),
            0xa9 => Some(Opcode::LdaImm),
            0xaa => Some(Opcode::TaxImpl),
            0xac => Some(Opcode::LdyAbs),
            0xad => Some(Opcode::LdaAbs),
            0xae => Some(Opcode::LdxAbs),
            0xaf => Some(Opcode::ULaxAbs),
            0xb0 => Some(Opcode::BcsRel),
            0xb1 => Some(Opcode::LdaIndY),
            0xb3 => Some(Opcode::ULaxIndY),
            0xb4 => Some(Opcode::LdyZpgX),
            0xb5 => Some(Opcode::LdaZpgX),
            0xb6 => Some(Opcode::LdxZpgY),
            0xb7 => Some(Opcode::ULaxZpgY),
            0xb8 => Some(Opcode::ClvImpl),
            0xb9 => Some(Opcode::LdaAbsY),
            0xba => Some(Opcode::TsxImpl),
            0xbc => Some(Opcode::LdyAbsX),
            0xbd => Some(Opcode::LdaAbsX),
            0xbe => Some(Opcode::LdxAbsY),
            0xbf => Some(Opcode::ULaxAbsY),
            0xc0 => Some(Opcode::CpyImm),
            0xc1 => Some(Opcode::CmpXind),
            0xc2 => Some(Opcode::UNopImm4),
            0xc3 => Some(Opcode::UDcpXind),
            0xc4 => Some(Opcode::CpyZpg),
            0xc5 => Some(Opcode::CmpZpg),
            0xc6 => Some(Opcode::DecZpg),
            0xc7 => Some(Opcode::UDcpZpg),
            0xc8 => Some(Opcode::InyImpl),
            0xc9 => Some(Opcode::CmpImm),
            0xca => Some(Opcode::DexImpl),
            0xcc => Some(Opcode::CpyAbs),
            0xcd => Some(Opcode::CmpAbs),
            0xce => Some(Opcode::DecAbs),
            0xcf => Some(Opcode::UDcpAbs),
            0xd0 => Some(Opcode::BneRel),
            0xd1 => Some(Opcode::CmpIndY),
            0xd3 => Some(Opcode::UDcpIndY),
            0xd4 => Some(Opcode::UNopZpgX5),
            0xd5 => Some(Opcode::CmpZpgX),
            0xd6 => Some(Opcode::DecZpgX),
            0xd7 => Some(Opcode::UDcpZpgX),
            0xd8 => Some(Opcode::CldImpl),
            0xd9 => Some(Opcode::CmpAbsY),
            0xda => Some(Opcode::UNopImpl5),
            0xdb => Some(Opcode::UDcpAbsY),
            0xdc => Some(Opcode::UNopAbsX5),
            0xdd => Some(Opcode::CmpAbsX),
            0xde => Some(Opcode::DecAbsX),
            0xdf => Some(Opcode::UDcpAbsX),
            0xe0 => Some(Opcode::CpxImm),
            0xe1 => Some(Opcode::SbcXind),
            0xe2 => Some(Opcode::UNopImm5),
            0xe3 => Some(Opcode::UIsbXind),
            0xe4 => Some(Opcode::CpxZpg),
            0xe5 => Some(Opcode::SbcZpg),
            0xe6 => Some(Opcode::IncZpg),
            0xe7 => Some(Opcode::UIsbZpg),
            0xe8 => Some(Opcode::InxImpl),
            0xe9 => Some(Opcode::SbcImm),
            0xea => Some(Opcode::NopImpl),
            0xeb => Some(Opcode::USbcImm),
            0xec => Some(Opcode::CpxAbs),
            0xed => Some(Opcode::SbcAbs),
            0xee => Some(Opcode::IncAbs),
            0xef => Some(Opcode::UIsbAbs),
            0xf0 => Some(Opcode::BeqRel),
            0xf1 => Some(Opcode::SbcIndY),
            0xf3 => Some(Opcode::UIsbIndY),
            0xf4 => Some(Opcode::UNopZpgX6),
            0xf5 => Some(Opcode::SbcZpgX),
            0xf6 => Some(Opcode::IncZpgX),
            0xf7 => Some(Opcode::UIsbZpgX),
            0xf8 => Some(Opcode::SedImpl),
            0xf9 => Some(Opcode::SbcAbsY),
            0xfa => Some(Opcode::UNopImpl6),
            0xfb => Some(Opcode::UIsbAbsY),
            0xfc => Some(Opcode::UNopAbsX6),
            0xfd => Some(Opcode::SbcAbsX),
            0xfe => Some(Opcode::IncAbsX),
            0xff => Some(Opcode::UIsbAbsX),
            _ => None,
        }
    }

    /// The instruction byte of this opcode.
    pub fn to_u8(&self) -> (r: u8)
        ensures
            r == opcode_byte(*self),
    {
        match self {
            Opcode::BrkImpl => 0x00,
            Opcode::BplRel => 0x10,
            Opcode::JsrAbs => 0x20,
            Opcode::BmiRel => 0x30,
            Opcode::RtiImpl => 0x40,
            Opcode::BvcRel => 0x50,
            Opcode::RtsImpl => 0x60,
            Opcode::BvsRel => 0x70,
            Opcode::BccRel => 0x90,
            Opcode::LdyImm => 0xa0,
            Opcode::BcsRel => 0xb0,
            Opcode::CpyImm => 0xc0,
            Opcode::BneRel => 0xd0,
            Opcode::CpxImm => 0xe0,
            Opcode::BeqRel => 0xf0,
            Opcode::OraXind => 0x01,
            Opcode::AndXind => 0x21,
            Opcode::EorXind => 0x41,
            Opcode::AdcXind => 0x61,
            Opcode::StaXind => 0x81,
            Opcode::LdaXind => 0xa1,
            Opcode::CmpXind => 0xc1,
            Opcode::SbcXind => 0xe1,
            Opcode::OraIndY => 0x11,
            Opcode::AndIndY => 0x31,
            Opcode::EorIndY => 0x51,
            Opcode::AdcIndY => 0x71,
            Opcode::StaIndY => 0x91,
            Opcode::LdaIndY => 0xb1,
            Opcode::CmpIndY => 0xd1,
            Opcode::SbcIndY => 0xf1,
            Opcode::LdxImm => 0xa2,
            Opcode::BitZpg => 0x24,
            Opcode::StyZpg => 0x84,
            Opcode::StyZpgX => 0x94,
            Opcode::LdyZpg => 0xa4,
            Opcode::LdyZpgX => 0xb4,
            Opcode::CpyZpg => 0xc4,
            Opcode::CpxZpg => 0xe4,
            Opcode::OraZpg => 0x05,
            Opcode::AndZpg => 0x25,
            Opcode::EorZpg => 0x45,
            Opcode::AdcZpg => 0x65,
            Opcode::StaZpg => 0x85,
            Opcode::LdaZpg => 0xa5,
            Opcode::CmpZpg => 0xc5,
            Opcode::SbcZpg => 0xe5,
            Opcode::OraZpgX => 0x15,
            Opcode::AndZpgX => 0x35,
            Opcode::EorZpgX => 0x55,
            Opcode::AdcZpgX => 0x75,
            Opcode::StaZpgX => 0x95,
            Opcode::LdaZpgX => 0xb5,
            Opcode::CmpZpgX => 0xd5,
            Opcode::SbcZpgX => 0xf5,
            Opcode::AslZpg => 0x06,
            Opcode::RolZpg => 0x26,
            Opcode::LsrZpg => 0x46,
            Opcode::RorZpg => 0x66,
            Opcode::StxZpg => 0x86,
            Opcode::LdxZpg => 0xa6,
            Opcode::DecZpg => 0xc6,
            Opcode::IncZpg => 0xe6,
            Opcode::AslZpgX => 0x16,
            Opcode::RolZpgX => 0x36,
            Opcode::LsrZpgX => 0x56,
            Opcode::RorZpgX => 0x76,
            Opcode::StxZpgY => 0x96,
            Opcode::LdxZpgY => 0xb6,
            Opcode::DecZpgX => 0xd6,
            Opcode::IncZpgX => 0xf6,
            Opcode::PhpImpl => 0x08,
            Opcode::ClcImpl => 0x18,
            Opcode::PlpImpl => 0x28,
            Opcode::SecImpl => 0x38,
            Opcode::PhaImpl => 0x48,
            Opcode::CliImpl => 0x58,
            Opcode::PlaImpl => 0x68,
            Opcode::SeiImpl => 0x78,
            Opcode::DeyImpl => 0x88,
            Opcode::TyaImpl => 0x98,
            Opcode::TayImpl => 0xa8,
            Opcode::ClvImpl => 0xb8,
            Opcode::InyImpl => 0xc8,
            Opcode::CldImpl => 0xd8,
            Opcode::InxImpl => 0xe8,
            Opcode::SedImpl => 0xf8,
            Opcode::OraImm => 0x09,
            Opcode::AndImm => 0x29,
            Opcode::EorImm => 0x49,
            Opcode::AdcImm => 0x69,
            Opcode::LdaImm => 0xa9,
            Opcode::CmpImm => 0xc9,
            Opcode::SbcImm => 0xe9,
            Opcode::OraAbsY => 0x19,
            Opcode::AndAbsY => 0x39,
            Opcode::EorAbsY => 0x59,
            Opcode::AdcAbsY => 0x79,
            Opcode::StaAbsY => 0x99,
            Opcode::LdaAbsY => 0xb9,
            Opcode::CmpAbsY => 0xd9,
            Opcode::SbcAbsY => 0xf9,
            Opcode::AslA => 0x0a,
            Opcode::RolA => 0x2a,
            Opcode::LsrA => 0x4a,
            Opcode::RorA => 0x6a,
            Opcode::TxaImpl => 0x8a,
            Opcode::TxsImpl => 0x9a,
            Opcode::TaxImpl => 0xaa,
            Opcode::TsxImpl => 0xba,
            Opcode::DexImpl => 0xca,
            Opcode::NopImpl => 0xea,
            Opcode::BitAbs => 0x2c,
            Opcode::JmpAbs => 0x4c,
            Opcode::JmpInd => 0x6c,
            Opcode::StyAbs => 0x8c,
            Opcode::LdyAbs => 0xac,
            Opcode::LdyAbsX => 0xbc,
            Opcode::CpyAbs => 0xcc,
            Opcode::CpxAbs => 0xec,
            Opcode::OraAbs => 0x0d,
            Opcode::AndAbs => 0x2d,
            Opcode::EorAbs => 0x4d,
            Opcode::AdcAbs => 0x6d,
            Opcode::StaAbs => 0x8d,
            Opcode::LdaAbs => 0xad,
            Opcode::CmpAbs => 0xcd,
            Opcode::SbcAbs => 0xed,
            Opcode::OraAbsX => 0x1d,
            Opcode::AndAbsX => 0x3d,
            Opcode::EorAbsX => 0x5d,
            Opcode::AdcAbsX => 0x7d,
            Opcode::StaAbsX => 0x9d,
            Opcode::LdaAbsX => 0xbd,
            Opcode::CmpAbsX => 0xdd,
            Opcode::SbcAbsX => 0xfd,
            Opcode::AslAbs => 0x0e,
            Opcode::RolAbs => 0x2e,
            Opcode::LsrAbs => 0x4e,
            Opcode::RorAbs => 0x6e,
            Opcode::StxAbs => 0x8e,
            Opcode::LdxAbs => 0xae,
            Opcode::DecAbs => 0xce,
            Opcode::IncAbs => 0xee,
            Opcode::AslAbsX => 0x1e,
            Opcode::RolAbsX => 0x3e,
            Opcode::LsrAbsX => 0x5e,
            Opcode::RorAbsX => 0x7e,
            Opcode::LdxAbsY => 0xbe,
            Opcode::DecAbsX => 0xde,
            Opcode::IncAbsX => 0xfe,
            Opcode::UNopZpg1 => 0x04,
            Opcode::UNopZpg2 => 0x44,
            Opcode::UNopZpg3 => 0x64,
            Opcode::UNopZpgX1 => 0x14,
            Opcode::UNopZpgX2 => 0x34,
            Opcode::UNopZpgX3 => 0x54,
            Opcode::UNopZpgX4 => 0x74,
            Opcode::UNopZpgX5 => 0xd4,
            Opcode::UNopZpgX6 => 0xf4,
            Opcode::UNopImm1 => 0x80,
            Opcode::UNopImm2 => 0x82,
            Opcode::UNopImm3 => 0x89,
            Opcode::UNopImm4 => 0xc2,
            Opcode::UNopImm5 => 0xe2,
            Opcode::UNopAbs => 0x0c,
            Opcode::UNopAbsX1 => 0x1c,
            Opcode::UNopAbsX2 => 0x3c,
            Opcode::UNopAbsX3 => 0x5c,
            Opcode::UNopAbsX4 => 0x7c,
            Opcode::UNopAbsX5 => 0xdc,
            Opcode::UNopAbsX6 => 0xfc,
            Opcode::UNopImpl1 => 0x1a,
            Opcode::UNopImpl2 => 0x3a,
            Opcode::UNopImpl3 => 0x5a,
            Opcode::UNopImpl4 => 0x7a,
            Opcode::UNopImpl5 => 0xda,
            Opcode::UNopImpl6 => 0xfa,
            Opcode::ULaxZpg => 0xa7,
            Opcode::ULaxZpgY => 0xb7,
            Opcode::ULaxAbs => 0xaf,
            Opcode::ULaxAbsY => 0xbf,
            Opcode::ULaxXind => 0xa3,
            Opcode::ULaxIndY => 0xb3,
            Opcode::USaxZpg => 0x87,
            Opcode::USaxZpgY => 0x97,
            Opcode::USaxXind => 0x83,
            Opcode::USaxAbs => 0x8f,
            Opcode::USbcImm => 0xeb,
            Opcode::UDcpZpg => 0xc7,
            Opcode::UDcpZpgX => 0xd7,
            Opcode::UDcpAbs => 0xcf,
            Opcode::UDcpAbsX => 0xdf,
            Opcode::UDcpAbsY => 0xdb,
            Opcode::UDcpXind => 0xc3,
            Opcode::UDcpIndY => 0xd3,
            Opcode::UIsbZpg => 0xe7,
            Opcode::UIsbZpgX => 0xf7,
            Opcode::UIsbAbs => 0xef,
            Opcode::UIsbAbsX => 0xff,
            Opcode::UIsbAbsY => 0xfb,
            Opcode::UIsbXind => 0xe3,
            Opcode::UIsbIndY => 0xf3,
            Opcode::USloZpg => 0x07,
            Opcode::USloZpgX => 0x17,
            Opcode::USloAbs => 0x0f,
            Opcode::USloAbsX => 0x1f,
            Opcode::USloAbsY => 0x1b,
            Opcode::USloXind => 0x03,
            Opcode::USloIndY => 0x13,
            Opcode::URlaZpg => 0x27,
            Opcode::URlaZpgX => 0x37,
            Opcode::URlaAbs => 0x2f,
            Opcode::URlaAbsX => 0x3f,
            Opcode::URlaAbsY => 0x3b,
            Opcode::URlaXind => 0x23,
            Opcode::URlaIndY => 0x33,
            Opcode::USreZpg => 0x47,
            Opcode::USreZpgX => 0x57,
            Opcode::USreAbs => 0x4f,
            Opcode::USreAbsX => 0x5f,
            Opcode::USreAbsY => 0x5b,
            Opcode::USreXind => 0x43,
            Opcode::USreIndY => 0x53,
            Opcode::URraZpg => 0x67,
            Opcode::URraZpgX => 0x77,
            Opcode::URraAbs => 0x6f,
            Opcode::URraAbsX => 0x7f,
            Opcode::URraAbsY => 0x7b,
            Opcode::URraXind => 0x63,
            Opcode::URraIndY => 0x73,
        }
    }
}

/// The assembler mnemonic of `op`, as the CPU trace prints it.
pub fn OpcodeStr(op: &Opcode) -> (r: &'static str)
    ensures
        r@ == mnemonic(*op),
{
    match op {
        Opcode::BrkImpl => "BRK",
        Opcode::BplRel => "BPL",
        Opcode::JsrAbs => "JSR",
        Opcode::BmiRel => "BMI",
        Opcode::RtiImpl => "RTI",
        Opcode::BvcRel => "BVC",
        Opcode::RtsImpl => "RTS",
        Opcode::BvsRel => "BVS",
        Opcode::BccRel => "BCC",
        Opcode::LdyImm => "LDY",
        Opcode::BcsRel => "BCS",
        Opcode::CpyImm => "CPY",
        Opcode::BneRel => "BNE",
        Opcode::CpxImm => "CPX",
        Opcode::BeqRel => "BEQ",
        Opcode::OraXind => "ORA",
        Opcode::AndXind => "AND",
        Opcode::EorXind => "EOR",
        Opcode::AdcXind => "ADC",
        Opcode::StaXind => "STA",
        Opcode::LdaXind => "LDA",
        Opcode::CmpXind => "CMP",
        Opcode::SbcXind => "SBC",
        Opcode::OraIndY => "ORA",
        Opcode::AndIndY => "AND",
        Opcode::EorIndY => "EOR",
        Opcode::AdcIndY => "ADC",
        Opcode::StaIndY => "STA",
        Opcode::LdaIndY => "LDA",
        Opcode::CmpIndY => "CMP",
        Opcode::SbcIndY => "SBC",
        Opcode::LdxImm => "LDX",
        Opcode::BitZpg => "BIT",
        Opcode::StyZpg => "STY",
        Opcode::StyZpgX => "STY",
        Opcode::LdyZpg => "LDY",
        Opcode::LdyZpgX => "LDY",
        Opcode::CpyZpg => "CPY",
        Opcode::CpxZpg => "CPX",
        Opcode::OraZpg => "ORA",
        Opcode::AndZpg => "AND",
        Opcode::EorZpg => "EOR",
        Opcode::AdcZpg => "ADC",
        Opcode::StaZpg => "STA",
        Opcode::LdaZpg => "LDA",
        Opcode::CmpZpg => "CMP",
        Opcode::SbcZpg => "SBC",
        Opcode::OraZpgX => "ORA",
        Opcode::AndZpgX => "AND",
        Opcode::EorZpgX => "EOR",
        Opcode::AdcZpgX => "ADC",
        Opcode::StaZpgX => "STA",
        Opcode::LdaZpgX => "LDA",
        Opcode::CmpZpgX => "CMP",
        Opcode::SbcZpgX => "SBC",
        Opcode::AslZpg => "ASL",
        Opcode::RolZpg => "ROL",
        Opcode::LsrZpg => "LSR",
        Opcode::RorZpg => "ROR",
        Opcode::StxZpg => "STX",
        Opcode::LdxZpg => "LDX",
        Opcode::DecZpg => "DEC",
        Opcode::IncZpg => "INC",
        Opcode::AslZpgX => "ASL",
        Opcode::RolZpgX => "ROL",
        Opcode::LsrZpgX => "LSR",
        Opcode::RorZpgX => "ROR",
        Opcode::StxZpgY => "STX",
        Opcode::LdxZpgY => "LDX",
        Opcode::DecZpgX => "DEC",
        Opcode::IncZpgX => "INC",
        Opcode::PhpImpl => "PHP",
        Opcode::ClcImpl => "CLC",
        Opcode::PlpImpl => "PLP",
        Opcode::SecImpl => "SEC",
        Opcode::PhaImpl => "PHA",
        Opcode::CliImpl => "CLI",
        Opcode::PlaImpl => "PLA",
        Opcode::SeiImpl => "SEI",
        Opcode::DeyImpl => "DEY",
        Opcode::TyaImpl => "TYA",
        Opcode::TayImpl => "TAY",
        Opcode::ClvImpl => "CLV",
        Opcode::InyImpl => "INY",
        Opcode::CldImpl => "CLD",
        Opcode::InxImpl => "INX",
        Opcode::SedImpl => "SED",
        Opcode::OraImm => "ORA",
        Opcode::AndImm => "AND",
        Opcode::EorImm => "EOR",
        Opcode::AdcImm => "ADC",
        Opcode::LdaImm => "LDA",
        Opcode::CmpImm => "CMP",
        Opcode::SbcImm => "SBC",
        Opcode::OraAbsY => "ORA",
        Opcode::AndAbsY => "AND",
        Opcode::EorAbsY => "EOR",
        Opcode::AdcAbsY => "ADC",
        Opcode::StaAbsY => "STA",
        Opcode::LdaAbsY => "LDA",
        Opcode::CmpAbsY => "CMP",
        Opcode::SbcAbsY => "SBC",
        Opcode::AslA => "ASL",
        Opcode::RolA => "ROL",
        Opcode::LsrA => "LSR",
        Opcode::RorA => "ROR",
        Opcode::TxaImpl => "TXA",
        Opcode::TxsImpl => "TXS",
        Opcode::TaxImpl => "TAX",
        Opcode::TsxImpl => "TSX",
        Opcode::DexImpl => "DEX",
        Opcode::NopImpl => "NOP",
        Opcode::BitAbs => "BIT",
        Opcode::JmpAbs => "JMP",
        Opcode::JmpInd => "JMP",
        Opcode::StyAbs => "STY",
        Opcode::LdyAbs => "LDY",
        Opcode::LdyAbsX => "LDY",
        Opcode::CpyAbs => "CPY",
        Opcode::CpxAbs => "CPX",
        Opcode::OraAbs => "ORA",
        Opcode::AndAbs => "AND",
        Opcode::EorAbs => "EOR",
        Opcode::AdcAbs => "ADC",
        Opcode::StaAbs => "STA",
        Opcode::LdaAbs => "LDA",
        Opcode::CmpAbs => "CMP",
        Opcode::SbcAbs => "SBC",
        Opcode::OraAbsX => "ORA",
        Opcode::AndAbsX => "AND",
        Opcode::EorAbsX => "EOR",
        Opcode::AdcAbsX => "ADC",
        Opcode::StaAbsX => "STA",
        Opcode::LdaAbsX => "LDA",
        Opcode::CmpAbsX => "CMP",
        Opcode::SbcAbsX => "SBC",
        Opcode::AslAbs => "ASL",
        Opcode::RolAbs => "ROL",
        Opcode::LsrAbs => "LSR",
        Opcode::RorAbs => "ROR",
        Opcode::StxAbs => "STX",
        Opcode::LdxAbs => "LDX",
        Opcode::DecAbs => "DEC",
        Opcode::IncAbs => "INC",
        Opcode::AslAbsX => "ASL",
        Opcode::RolAbsX => "ROL",
        Opcode::LsrAbsX => "LSR",
        Opcode::RorAbsX => "ROR",
        Opcode::LdxAbsY => "LDX",
        Opcode::DecAbsX => "DEC",
        Opcode::IncAbsX => "INC",
        Opcode::UNopZpg1 => "*NOP",
        Opcode::UNopZpg2 => "*NOP",
        Opcode::UNopZpg3 => "*NOP",
        Opcode::UNopZpgX1 => "*NOP",
        Opcode::UNopZpgX2 => "*NOP",
        Opcode::UNopZpgX3 => "*NOP",
        Opcode::UNopZpgX4 => "*NOP",
        Opcode::UNopZpgX5 => "*NOP",
        Opcode::UNopZpgX6 => "*NOP",
        Opcode::UNopImm1 => "*NOP",
        Opcode::UNopImm2 => "*NOP",
        Opcode::UNopImm3 => "*NOP",
        Opcode::UNopImm4 => "*NOP",
        Opcode::UNopImm5 => "*NOP",
        Opcode::UNopAbs => "*NOP",
        Opcode::UNopAbsX1 => "*NOP",
        Opcode::UNopAbsX2 => "*NOP",
        Opcode::UNopAbsX3 => "*NOP",
        Opcode::UNopAbsX4 => "*NOP",
        Opcode::UNopAbsX5 => "*NOP",
        Opcode::UNopAbsX6 => "*NOP",
        Opcode::UNopImpl1 => "*NOP",
        Opcode::UNopImpl2 => "*NOP",
        Opcode::UNopImpl3 => "*NOP",
        Opcode::UNopImpl4 => "*NOP",
        Opcode::UNopImpl5 => "*NOP",
        Opcode::UNopImpl6 => "*NOP",
        Opcode::ULaxZpg => "*LAX",
        Opcode::ULaxZpgY => "*LAX",
        Opcode::ULaxAbs => "*LAX",
        Opcode::ULaxAbsY => "*LAX",
        Opcode::ULaxXind => "*LAX",
        Opcode::ULaxIndY => "*LAX",
        Opcode::USaxZpg => "*SAX",
        Opcode::USaxZpgY => "*SAX",
        Opcode::USaxXind => "*SAX",
        Opcode::USaxAbs => "*SAX",
        Opcode::USbcImm => "*SBC",
        Opcode::UDcpZpg => "*DCP",
        Opcode::UDcpZpgX => "*DCP",
        Opcode::UDcpAbs => "*DCP",
        Opcode::UDcpAbsX => "*DCP",
        Opcode::UDcpAbsY => "*DCP",
        Opcode::UDcpXind => "*DCP",
        Opcode::UDcpIndY => "*DCP",
        Opcode::UIsbZpg => "*ISB",
        Opcode::UIsbZpgX => "*ISB",
        Opcode::UIsbAbs => "*ISB",
        Opcode::UIsbAbsX => "*ISB",
        Opcode::UIsbAbsY => "*ISB",
        Opcode::UIsbXind => "*ISB",
        Opcode::UIsbIndY => "*ISB",
        Opcode::USloZpg => "*SLO",
        Opcode::USloZpgX => "*SLO",
        Opcode::USloAbs => "*SLO",
        Opcode::USloAbsX => "*SLO",
        Opcode::USloAbsY => "*SLO",
        Opcode::USloXind => "*SLO",
        Opcode::USloIndY => "*SLO",
        Opcode::URlaZpg => "*RLA",
        Opcode::URlaZpgX => "*RLA",
        Opcode::URlaAbs => "*RLA",
        Opcode::URlaAbsX => "*RLA",
        Opcode::URlaAbsY => "*RLA",
        Opcode::URlaXind => "*RLA",
        Opcode::URlaIndY => "*RLA",
        Opcode::USreZpg => "*SRE",
        Opcode::USreZpgX => "*SRE",
        Opcode::USreAbs => "*SRE",
        Opcode::USreAbsX => "*SRE",
        Opcode::USreAbsY => "*SRE",
        Opcode::USreXind => "*SRE",
        Opcode::USreIndY => "*SRE",
        Opcode::URraZpg => "*RRA",
        Opcode::URraZpgX => "*RRA",
        Opcode::URraAbs => "*RRA",
        Opcode::URraAbsX => "*RRA",
        Opcode::URraAbsY => "*RRA",
        Opcode::URraXind => "*RRA",
        Opcode::URraIndY => "*RRA",
    }
}

/// Decoding the byte of an opcode gives that opcode back.
pub proof fn lemma_decode_encode(op: Opcode)
    ensures
        decode_opcode(opcode_byte(op)) == Some(op),
{
}

/// A byte that decodes to an opcode is that opcode's byte.
pub proof fn lemma_encode_decode(b: u8)
    ensures
        decode_opcode(b) matches Some(op) ==> opcode_byte(op) == b,
{
}

} // verus!
