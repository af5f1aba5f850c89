//! The primary opcode table and the cycle table: fixed 256-entry
//! lookups from an opcode byte to a closed instruction description and
//! to its base timing cost.  Built once, immutable thereafter; every
//! slot is classified as exactly one of implemented, invalid or
//! unimplemented.

use vstd::prelude::*;

use crate::registers::Flag;
use crate::registers::RegisterPair;
use crate::registers::RegisterU16;
use crate::registers::RegisterU8;
use crate::registers::Target;

verus! {

/// The fixed restart vectors that the RST instructions of this table
/// jump to.
#[derive(Copy, Clone, Debug, PartialEq, Eq, Structural)]
pub enum RstAddress {
    Rst00,
    Rst08,
    Rst38,
}

impl RstAddress {
    /// The vector address this restart jumps to.
    pub open spec fn spec_address(self) -> u16 {
        match self {
            RstAddress::Rst00 => 0x0000,
            RstAddress::Rst08 => 0x0008,
            RstAddress::Rst38 => 0x0038,
        }
    }

    /// The vector address this restart jumps to.
    pub fn address(self) -> (a: u16)
        ensures
            a == self.spec_address(),
    {
        match self {
            RstAddress::Rst00 => 0x0000,
            RstAddress::Rst08 => 0x0008,
            RstAddress::Rst38 => 0x0038,
        }
    }
}

/// A closed description of one instruction: a tagged case per
/// addressing-mode family, carrying only the operand selectors it
/// needs, never a raw opcode byte.  `Invalid` marks an opcode byte
/// that is architecturally illegal on the real hardware;
/// `Unimplemented` marks a legal opcode this build has not modeled.
#[derive(Copy, Clone, Debug, PartialEq, Eq, Structural)]
pub enum Instruction {
    AdcR(RegisterU8),
    AddHLRR(Target),
    AddN,
    AddR(RegisterU8),
    AndN,
    AndR(RegisterU8),
    Call,
    Ccf,
    Cpl,
    CpN,
    CpR(RegisterU8),
    Dec(RegisterU8),
    Di,
    Halt,
    Inc(RegisterU8),
    IncNn(Target),
    Invalid,
    JpCCNN(Flag, bool),
    JpNN,
    JrCCE(Flag, bool),
    JrE,
    LdAHLD,
    LdAHLI,
    LdHLDA,
    LdHLN,
    LdMemHLFromR(RegisterU8),
    LdNnA,
    LdNNn(Target),
    LdNnN(RegisterU8),
    LdNnSP,
    LdR1R2(RegisterU8, RegisterU8),
    LdRFromMemHL(RegisterU8),
    LdRN(RegisterU8),
    LdRRA(RegisterPair),
    LdhAN,
    LdhNR(RegisterU8),
    Nop,
    OrN,
    OrR(RegisterU8),
    PopRR(RegisterPair),
    PushRR(RegisterPair),
    Ret,
    Rla,
    Rlca,
    Rra,
    Rst(RstAddress),
    SbcR(RegisterU8),
    Scf,
    Stop,
    SubN,
    SubR(RegisterU8),
    Unimplemented,
    Xor(RegisterU8),
}

/// The opcode bytes that are architecturally illegal on the real
/// hardware: dispatching one signals a defect in the running program
/// or its loader, never a missing feature of this core.
pub open spec fn is_illegal_opcode(op: u8) -> bool {
    op == 0xD3 || op == 0xDB || op == 0xDD || op == 0xE3 || op == 0xE4 || op == 0xEB
        || op == 0xEC || op == 0xED || op == 0xF4 || op == 0xFC || op == 0xFD
}

/// The instruction description each primary-table slot holds.
#[verifier::opaque]
pub open spec fn opcode_spec(op: u8) -> Instruction {
    if op == 0x00 {
        Instruction::Nop
    } else if op == 0x01 {
        Instruction::LdNNn(Target::Pair(RegisterPair::BC))
    } else if op == 0x02 {
        Instruction::LdRRA(RegisterPair::BC)
    } else if op == 0x03 {
        Instruction::IncNn(Target::Pair(RegisterPair::BC))
    } else if op == 0x04 {
        Instruction::Inc(RegisterU8::B)
    } else if op == 0x05 {
        Instruction::Dec(RegisterU8::B)
    } else if op == 0x06 {
        Instruction::LdNnN(RegisterU8::B)
    } else if op == 0x07 {
        Instruction::Rlca
    } else if op == 0x08 {
        Instruction::LdNnSP
    } else if op == 0x09 {
        Instruction::AddHLRR(Target::Pair(RegisterPair::BC))
    } else if op == 0x0C {
        Instruction::Inc(RegisterU8::C)
    } else if op == 0x0D {
        Instruction::Dec(RegisterU8::C)
    } else if op == 0x0E {
        Instruction::LdNnN(RegisterU8::C)
    } else if op == 0x10 {
        Instruction::Stop
    } else if op == 0x11 {
        Instruction::LdNNn(Target::Pair(RegisterPair::DE))
    } else if op == 0x12 {
        Instruction::LdRRA(RegisterPair::DE)
    } else if op == 0x13 {
        Instruction::IncNn(Target::Pair(RegisterPair::DE))
    } else if op == 0x14 {
        Instruction::Inc(RegisterU8::D)
    } else if op == 0x15 {
        Instruction::Dec(RegisterU8::D)
    } else if op == 0x16 {
        Instruction::LdNnN(RegisterU8::D)
    } else if op == 0x17 {
        Instruction::Rla
    } else if op == 0x18 {
        Instruction::JrE
    } else if op == 0x19 {
        Instruction::AddHLRR(Target::Pair(RegisterPair::DE))
    } else if op == 0x1C {
        Instruction::Inc(RegisterU8::E)
    } else if op == 0x1D {
        Instruction::Dec(RegisterU8::E)
    } else if op == 0x1E {
        Instruction::LdNnN(RegisterU8::E)
    } else if op == 0x1F {
        Instruction::Rra
    } else if op == 0x20 {
        Instruction::JrCCE(Flag::Z, false)
    } else if op == 0x21 {
        Instruction::LdNNn(Target::Pair(RegisterPair::HL))
    } else if op == 0x23 {
        Instruction::IncNn(Target::Pair(RegisterPair::HL))
    } else if op == 0x24 {
        Instruction::Inc(RegisterU8::H)
    } else if op == 0x25 {
        Instruction::Dec(RegisterU8::H)
    } else if op == 0x26 {
        Instruction::LdNnN(RegisterU8::H)
    } else if op == 0x28 {
        Instruction::JrCCE(Flag::Z, true)
    } else if op == 0x29 {
        Instruction::AddHLRR(Target::Pair(RegisterPair::HL))
    } else if op == 0x2A {
        Instruction::LdAHLI
    } else if op == 0x2C {
        Instruction::Inc(RegisterU8::L)
    } else if op == 0x2D {
        Instruction::Dec(RegisterU8::L)
    } else if op == 0x2E {
        Instruction::LdNnN(RegisterU8::L)
    } else if op == 0x2F {
        Instruction::Cpl
    } else if op == 0x30 {
        Instruction::JrCCE(Flag::C, false)
    } else if op == 0x31 {
        Instruction::LdNNn(Target::Single(RegisterU16::SP))
    } else if op == 0x32 {
        Instruction::LdHLDA
    } else if op == 0x33 {
        Instruction::IncNn(Target::Single(RegisterU16::SP))
    } else if op == 0x36 {
        Instruction::LdHLN
    } else if op == 0x37 {
        Instruction::Scf
    } else if op == 0x38 {
        Instruction::JrCCE(Flag::C, true)
    } else if op == 0x39 {
        Instruction::AddHLRR(Target::Single(RegisterU16::SP))
    } else if op == 0x3A {
        Instruction::LdAHLD
    } else if op == 0x3C {
        Instruction::Inc(RegisterU8::A)
    } else if op == 0x3D {
        Instruction::Dec(RegisterU8::A)
    } else if op == 0x3E {
        Instruction::LdNnN(RegisterU8::A)
    } else if op == 0x3F {
        Instruction::Ccf
    } else if op == 0x40 {
        Instruction::LdR1R2(RegisterU8::B, RegisterU8::B)
    } else if op == 0x41 {
        Instruction::LdR1R2(RegisterU8::B, RegisterU8::C)
    } else if op == 0x42 {
        Instruction::LdR1R2(RegisterU8::B, RegisterU8::D)
    } else if op == 0x43 {
        Instruction::LdR1R2(RegisterU8::B, RegisterU8::E)
    } else if op == 0x44 {
        Instruction::LdR1R2(RegisterU8::B, RegisterU8::H)
    } else if op == 0x45 {
        Instruction::LdR1R2(RegisterU8::B, RegisterU8::L)
    } else if op == 0x46 {
        Instruction::LdRFromMemHL(RegisterU8::B)
    } else if op == 0x47 {
        Instruction::LdR1R2(RegisterU8::B, RegisterU8::A)
    } else if op == 0x48 {
        Instruction::LdR1R2(RegisterU8::C, RegisterU8::B)
    } else if op == 0x49 {
        Instruction::LdR1R2(RegisterU8::C, RegisterU8::C)
    } else if op == 0x4A {
        Instruction::LdR1R2(RegisterU8::C, RegisterU8::D)
    } else if op == 0x4B {
        Instruction::LdR1R2(RegisterU8::C, RegisterU8::E)
    } else if op == 0x4C {
        Instruction::LdR1R2(RegisterU8::C, RegisterU8::H)
    } else if op == 0x4D {
        Instruction::LdR1R2(RegisterU8::C, RegisterU8::L)
    } else if op == 0x4E {
        Instruction::LdRFromMemHL(RegisterU8::C)
    } else if op == 0x4F {
        Instruction::LdR1R2(RegisterU8::C, RegisterU8::A)
    } else if op == 0x50 {
        Instruction::LdR1R2(RegisterU8::D, RegisterU8::B)
    } else if op == 0x51 {
        Instruction::LdR1R2(RegisterU8::D, RegisterU8::C)
    } else if op == 0x52 {
        Instruction::LdR1R2(RegisterU8::D, RegisterU8::D)
    } else if op == 0x53 {
        Instruction::LdR1R2(RegisterU8::D, RegisterU8::E)
    } else if op == 0x54 {
        Instruction::LdR1R2(RegisterU8::D, RegisterU8::H)
    } else if op == 0x55 {
        Instruction::LdR1R2(RegisterU8::D, RegisterU8::L)
    } else if op == 0x56 {
        Instruction::LdRFromMemHL(RegisterU8::D)
    } else if op == 0x57 {
        Instruction::LdR1R2(RegisterU8::D, RegisterU8::A)
    } else if op == 0x58 {
        Instruction::LdR1R2(RegisterU8::E, RegisterU8::B)
    } else if op == 0x59 {
        Instruction::LdR1R2(RegisterU8::E, RegisterU8::C)
    } else if op == 0x5A {
        Instruction::LdR1R2(RegisterU8::E, RegisterU8::D)
    } else if op == 0x5B {
        Instruction::LdR1R2(RegisterU8::E, RegisterU8::E)
    } else if op == 0x5C {
        Instruction::LdR1R2(RegisterU8::E, RegisterU8::H)
    } else if op == 0x5D {
        Instruction::LdR1R2(RegisterU8::E, RegisterU8::L)
    } else if op == 0x5E {
        Instruction::LdRFromMemHL(RegisterU8::E)
    } else if op == 0x5F {
        Instruction::LdR1R2(RegisterU8::E, RegisterU8::A)
    } else if op == 0x60 {
        Instruction::LdR1R2(RegisterU8::H, RegisterU8::B)
    } else if op == 0x61 {
        Instruction::LdR1R2(RegisterU8::H, RegisterU8::C)
    } else if op == 0x62 {
        Instruction::LdR1R2(RegisterU8::H, RegisterU8::D)
    } else if op == 0x63 {
        Instruction::LdR1R2(RegisterU8::H, RegisterU8::E)
    } else if op == 0x64 {
        Instruction::LdR1R2(RegisterU8::H, RegisterU8::H)
    } else if op == 0x65 {
        Instruction::LdR1R2(RegisterU8::H, RegisterU8::L)
    } else if op == 0x66 {
        Instruction::LdRFromMemHL(RegisterU8::H)
    } else if op == 0x67 {
        Instruction::LdR1R2(RegisterU8::H, RegisterU8::A)
    } else if op == 0x68 {
        Instruction::LdR1R2(RegisterU8::L, RegisterU8::B)
    } else if op == 0x69 {
        Instruction::LdR1R2(RegisterU8::L, RegisterU8::C)
    } else if op == 0x6A {
        Instruction::LdR1R2(RegisterU8::L, RegisterU8::D)
    } else if op == 0x6B {
        Instruction::LdR1R2(RegisterU8::L, RegisterU8::E)
    } else if op == 0x6C {
        Instruction::LdR1R2(RegisterU8::L, RegisterU8::H)
    } else if op == 0x6D {
        Instruction::LdR1R2(RegisterU8::L, RegisterU8::L)
    } else if op == 0x6E {
        Instruction::LdRFromMemHL(RegisterU8::L)
    } else if op == 0x6F {
        Instruction::LdR1R2(RegisterU8::L, RegisterU8::A)
    } else if op == 0x70 {
        Instruction::LdMemHLFromR(RegisterU8::B)
    } else if op == 0x71 {
        Instruction::LdMemHLFromR(RegisterU8::C)
    } else if op == 0x72 {
        Instruction::LdMemHLFromR(RegisterU8::D)
    } else if op == 0x73 {
        Instruction::LdMemHLFromR(RegisterU8::E)
    } else if op == 0x74 {
        Instruction::LdMemHLFromR(RegisterU8::H)
    } else if op == 0x75 {
        Instruction::LdMemHLFromR(RegisterU8::L)
    } else if op == 0x76 {
        Instruction::Halt
    } else if op == 0x77 {
        Instruction::LdMemHLFromR(RegisterU8::A)
    } else if op == 0x78 {
        Instruction::LdR1R2(RegisterU8::A, RegisterU8::B)
    } else if op == 0x79 {
        Instruction::LdR1R2(RegisterU8::A, RegisterU8::C)
    } else if op == 0x7A {
        Instruction::LdR1R2(RegisterU8::A, RegisterU8::D)
    } else if op == 0x7B {
        Instruction::LdR1R2(RegisterU8::A, RegisterU8::E)
    } else if op == 0x7C {
        Instruction::LdR1R2(RegisterU8::A, RegisterU8::H)
    } else if op == 0x7D {
        Instruction::LdR1R2(RegisterU8::A, RegisterU8::L)
    } else if op == 0x7E {
        Instruction::LdRFromMemHL(RegisterU8::A)
    } else if op == 0x7F {
        Instruction::LdR1R2(RegisterU8::A, RegisterU8::A)
    } else if op == 0x80 {
        Instruction::AddR(RegisterU8::B)
    } else if op == 0x81 {
        Instruction::AddR(RegisterU8::C)
    } else if op == 0x82 {
        Instruction::AddR(RegisterU8::D)
    } else if op == 0x83 {
        Instruction::AddR(RegisterU8::E)
    } else if op == 0x84 {
        Instruction::AddR(RegisterU8::H)
    } else if op == 0x85 {
        Instruction::AddR(RegisterU8::L)
    } else if op == 0x87 {
        Instruction::AddR(RegisterU8::A)
    } else if op == 0x88 {
        Instruction::AdcR(RegisterU8::B)
    } else if op == 0x89 {
        Instruction::AdcR(RegisterU8::C)
    } else if op == 0x8A {
        Instruction::AdcR(RegisterU8::D)
    } else if op == 0x8B {
        Instruction::AdcR(RegisterU8::E)
    } else if op == 0x8C {
        Instruction::AdcR(RegisterU8::H)
    } else if op == 0x8D {
        Instruction::AdcR(RegisterU8::L)
    } else if op == 0x8F {
        Instruction::AdcR(RegisterU8::A)
    } else if op == 0x90 {
        Instruction::SubR(RegisterU8::B)
    } else if op == 0x91 {
        Instruction::SubR(RegisterU8::C)
    } else if op == 0x92 {
        Instruction::SubR(RegisterU8::D)
    } else if op == 0x93 {
        Instruction::SubR(RegisterU8::E)
    } else if op == 0x94 {
        Instruction::SubR(RegisterU8::H)
    } else if op == 0x95 {
        Instruction::SubR(RegisterU8::L)
    } else if op == 0x97 {
        Instruction::SubR(RegisterU8::A)
    } else if op == 0x98 {
        Instruction::SbcR(RegisterU8::B)
    } else if op == 0x99 {
        Instruction::SbcR(RegisterU8::C)
    } else if op == 0x9A {
        Instruction::SbcR(RegisterU8::D)
    } else if op == 0x9B {
        Instruction::SbcR(RegisterU8::E)
    } else if op == 0x9C {
        Instruction::SbcR(RegisterU8::H)
    } else if op == 0x9D {
        Instruction::SbcR(RegisterU8::L)
    } else if op == 0x9F {
        Instruction::SbcR(RegisterU8::A)
    } else if op == 0xA0 {
        Instruction::AndR(RegisterU8::B)
    } else if op == 0xA1 {
        Instruction::AndR(RegisterU8::C)
    } else if op == 0xA2 {
        Instruction::AndR(RegisterU8::D)
    } else if op == 0xA3 {
        Instruction::AndR(RegisterU8::E)
    } else if op == 0xA4 {
        Instruction::AndR(RegisterU8::H)
    } else if op == 0xA5 {
        Instruction::AndR(RegisterU8::L)
    } else if op == 0xA7 {
        Instruction::AndR(RegisterU8::A)
    } else if op == 0xA8 {
        Instruction::Xor(RegisterU8::B)
    } else if op == 0xA9 {
        Instruction::Xor(RegisterU8::C)
    } else if op == 0xAA {
        Instruction::Xor(RegisterU8::D)
    } else if op == 0xAB {
        Instruction::Xor(RegisterU8::E)
    } else if op == 0xAC {
        Instruction::Xor(RegisterU8::H)
    } else if op == 0xAD {
        Instruction::Xor(RegisterU8::L)
    } else if op == 0xAF {
        Instruction::Xor(RegisterU8::A)
    } else if op == 0xB0 {
        Instruction::OrR(RegisterU8::B)
    } else if op == 0xB1 {
        Instruction::OrR(RegisterU8::C)
    } else if op == 0xB2 {
        Instruction::OrR(RegisterU8::D)
    } else if op == 0xB3 {
        Instruction::OrR(RegisterU8::E)
    } else if op == 0xB4 {
        Instruction::OrR(RegisterU8::H)
    } else if op == 0xB5 {
        Instruction::OrR(RegisterU8::L)
    } else if op == 0xB7 {
        Instruction::OrR(RegisterU8::A)
    } else if op == 0xB8 {
        Instruction::CpR(RegisterU8::B)
    } else if op == 0xB9 {
        Instruction::CpR(RegisterU8::C)
    } else if op == 0xBA {
        Instruction::CpR(RegisterU8::D)
    } else if op == 0xBB {
        Instruction::CpR(RegisterU8::E)
    } else if op == 0xBC {
        Instruction::CpR(RegisterU8::H)
    } else if op == 0xBD {
        Instruction::CpR(RegisterU8::L)
    } else if op == 0xBF {
        Instruction::CpR(RegisterU8::A)
    } else if op == 0xC1 {
        Instruction::PopRR(RegisterPair::BC)
    } else if op == 0xC2 {
        Instruction::JpCCNN(Flag::Z, false)
    } else if op == 0xC3 {
        Instruction::JpNN
    } else if op == 0xC5 {
        Instruction::PushRR(RegisterPair::BC)
    } else if op == 0xC6 {
        Instruction::AddN
    } else if op == 0xC7 {
        Instruction::Rst(RstAddress::Rst00)
    } else if op == 0xC9 {
        Instruction::Ret
    } else if op == 0xCA {
        Instruction::JpCCNN(Flag::Z, true)
    } else if op == 0xCD {
        Instruction::Call
    } else if op == 0xCF {
        Instruction::Rst(RstAddress::Rst08)
    } else if op == 0xD1 {
        Instruction::PopRR(RegisterPair::DE)
    } else if op == 0xD2 {
        Instruction::JpCCNN(Flag::C, false)
    } else if op == 0xD3 {
        Instruction::Invalid
    } else if op == 0xD5 {
        Instruction::PushRR(RegisterPair::DE)
    } else if op == 0xD6 {
        Instruction::SubN
    } else if op == 0xDA {
        Instruction::JpCCNN(Flag::C, true)
    } else if op == 0xDB {
        Instruction::Invalid
    } else if op == 0xDD {
        Instruction::Invalid
    } else if op == 0xE0 {
        Instruction::LdhNR(RegisterU8::A)
    } else if op == 0xE1 {
        Instruction::PopRR(RegisterPair::HL)
    } else if op == 0xE3 {
        Instruction::Invalid
    } else if op == 0xE4 {
        Instruction::Invalid
    } else if op == 0xE5 {
        Instruction::PushRR(RegisterPair::HL)
    } else if op == 0xE6 {
        Instruction::AndN
    } else if op == 0xEA {
        Instruction::LdNnA
    } else if op == 0xEB {
        Instruction::Invalid
    } else if op == 0xEC {
        Instruction::Invalid
    } else if op == 0xED {
        Instruction::Invalid
    } else if op == 0xF0 {
        Instruction::LdhAN
    } else if op == 0xF1 {
        Instruction::PopRR(RegisterPair::AF)
    } else if op == 0xF3 {
        Instruction::Di
    } else if op == 0xF4 {
        Instruction::Invalid
    } else if op == 0xF5 {
        Instruction::PushRR(RegisterPair::AF)
    } else if op == 0xF6 {
        Instruction::OrN
    } else if op == 0xFC {
        Instruction::Invalid
    } else if op == 0xFD {
        Instruction::Invalid
    } else if op == 0xFE {
        Instruction::CpN
    } else if op == 0xFF {
        Instruction::Rst(RstAddress::Rst38)
    } else {
        Instruction::Unimplemented
    }
}

/// Decodes one opcode byte to its table entry.
pub fn decode(op: u8) -> (i: Instruction)
    ensures
        i == opcode_spec(op),
{
    proof {
        reveal(opcode_spec);
    }
    if op == 0x00 {
        Instruction::Nop
    } else if op == 0x01 {
        Instruction::LdNNn(Target::Pair(RegisterPair::BC))
    } else if op == 0x02 {
        Instruction::LdRRA(RegisterPair::BC)
    } else if op == 0x03 {
        Instruction::IncNn(Target::Pair(RegisterPair::BC))
    } else if op == 0x04 {
        Instruction::Inc(RegisterU8::B)
    } else if op == 0x05 {
        Instruction::Dec(RegisterU8::B)
    } else if op == 0x06 {
        Instruction::LdNnN(RegisterU8::B)
    } else if op == 0x07 {
        Instruction::Rlca
    } else if op == 0x08 {
        Instruction::LdNnSP
    } else if op == 0x09 {
        Instruction::AddHLRR(Target::Pair(RegisterPair::BC))
    } else if op == 0x0C {
        Instruction::Inc(RegisterU8::C)
    } else if op == 0x0D {
        Instruction::Dec(RegisterU8::C)
    } else if op == 0x0E {
        Instruction::LdNnN(RegisterU8::C)
    } else if op == 0x10 {
        Instruction::Stop
    } else if op == 0x11 {
        Instruction::LdNNn(Target::Pair(RegisterPair::DE))
    } else if op == 0x12 {
        Instruction::LdRRA(RegisterPair::DE)
    } else if op == 0x13 {
        Instruction::IncNn(Target::Pair(RegisterPair::DE))
    } else if op == 0x14 {
        Instruction::Inc(RegisterU8::D)
    } else if op == 0x15 {
        Instruction::Dec(RegisterU8::D)
    } else if op == 0x16 {
        Instruction::LdNnN(RegisterU8::D)
    } else if op == 0x17 {
        Instruction::Rla
    } else if op == 0x18 {
        Instruction::JrE
    } else if op == 0x19 {
        Instruction::AddHLRR(Target::Pair(RegisterPair::DE))
    } else if op == 0x1C {
        Instruction::Inc(RegisterU8::E)
    } else if op == 0x1D {
        Instruction::Dec(RegisterU8::E)
    } else if op == 0x1E {
        Instruction::LdNnN(RegisterU8::E)
    } else if op == 0x1F {
        Instruction::Rra
    } else if op == 0x20 {
        Instruction::JrCCE(Flag::Z, false)
    } else if op == 0x21 {
        Instruction::LdNNn(Target::Pair(RegisterPair::HL))
    } else if op == 0x23 {
        Instruction::IncNn(Target::Pair(RegisterPair::HL))
    } else if op == 0x24 {
        Instruction::Inc(RegisterU8::H)
    } else if op == 0x25 {
        Instruction::Dec(RegisterU8::H)
    } else if op == 0x26 {
        Instruction::LdNnN(RegisterU8::H)
    } else if op == 0x28 {
        Instruction::JrCCE(Flag::Z, true)
    } else if op == 0x29 {
        Instruction::AddHLRR(Target::Pair(RegisterPair::HL))
    } else if op == 0x2A {
        Instruction::LdAHLI
    } else if op == 0x2C {
        Instruction::Inc(RegisterU8::L)
    } else if op == 0x2D {
        Instruction::Dec(RegisterU8::L)
    } else if op == 0x2E {
        Instruction::LdNnN(RegisterU8::L)
    } else if op == 0x2F {
        Instruction::Cpl
    } else if op == 0x30 {
        Instruction::JrCCE(Flag::C, false)
    } else if op == 0x31 {
        Instruction::LdNNn(Target::Single(RegisterU16::SP))
    } else if op == 0x32 {
        Instruction::LdHLDA
    } else if op == 0x33 {
        Instruction::IncNn(Target::Single(RegisterU16::SP))
    } else if op == 0x36 {
        Instruction::LdHLN
    } else if op == 0x37 {
        Instruction::Scf
    } else if op == 0x38 {
        Instruction::JrCCE(Flag::C, true)
    } else if op == 0x39 {
        Instruction::AddHLRR(Target::Single(RegisterU16::SP))
    } else if op == 0x3A {
        Instruction::LdAHLD
    } else if op == 0x3C {
        Instruction::Inc(RegisterU8::A)
    } else if op == 0x3D {
        Instruction::Dec(RegisterU8::A)
    } else if op == 0x3E {
        Instruction::LdNnN(RegisterU8::A)
    } else if op == 0x3F {
        Instruction::Ccf
    } else if op == 0x40 {
        Instruction::LdR1R2(RegisterU8::B, RegisterU8::B)
    } else if op == 0x41 {
        Instruction::LdR1R2(RegisterU8::B, RegisterU8::C)
    } else if op == 0x42 {
        Instruction::LdR1R2(RegisterU8::B, RegisterU8::D)
    } else if op == 0x43 {
        Instruction::LdR1R2(RegisterU8::B, RegisterU8::E)
    } else if op == 0x44 {
        Instruction::LdR1R2(RegisterU8::B, RegisterU8::H)
    } else if op == 0x45 {
        Instruction::LdR1R2(RegisterU8::B, RegisterU8::L)
    } else if op == 0x46 {
        Instruction::LdRFromMemHL(RegisterU8::B)
    } else if op == 0x47 {
        Instruction::LdR1R2(RegisterU8::B, RegisterU8::A)
    } else if op == 0x48 {
        Instruction::LdR1R2(RegisterU8::C, RegisterU8::B)
    } else if op == 0x49 {
        Instruction::LdR1R2(RegisterU8::C, RegisterU8::C)
    } else if op == 0x4A {
        Instruction::LdR1R2(RegisterU8::C, RegisterU8::D)
    } else if op == 0x4B {
        Instruction::LdR1R2(RegisterU8::C, RegisterU8::E)
    } else if op == 0x4C {
        Instruction::LdR1R2(RegisterU8::C, RegisterU8::H)
    } else if op == 0x4D {
        Instruction::LdR1R2(RegisterU8::C, RegisterU8::L)
    } else if op == 0x4E {
        Instruction::LdRFromMemHL(RegisterU8::C)
    } else if op == 0x4F {
        Instruction::LdR1R2(RegisterU8::C, RegisterU8::A)
    } else if op == 0x50 {
        Instruction::LdR1R2(RegisterU8::D, RegisterU8::B)
    } else if op == 0x51 {
        Instruction::LdR1R2(RegisterU8::D, RegisterU8::C)
    } else if op == 0x52 {
        Instruction::LdR1R2(RegisterU8::D, RegisterU8::D)
    } else if op == 0x53 {
        Instruction::LdR1R2(RegisterU8::D, RegisterU8::E)
    } else if op == 0x54 {
        Instruction::LdR1R2(RegisterU8::D, RegisterU8::H)
    } else if op == 0x55 {
        Instruction::LdR1R2(RegisterU8::D, RegisterU8::L)
    } else if op == 0x56 {
        Instruction::LdRFromMemHL(RegisterU8::D)
    } else if op == 0x57 {
        Instruction::LdR1R2(RegisterU8::D, RegisterU8::A)
    } else if op == 0x58 {
        Instruction::LdR1R2(RegisterU8::E, RegisterU8::B)
    } else if op == 0x59 {
        Instruction::LdR1R2(RegisterU8::E, RegisterU8::C)
    } else if op == 0x5A {
        Instruction::LdR1R2(RegisterU8::E, RegisterU8::D)
    } else if op == 0x5B {
        Instruction::LdR1R2(RegisterU8::E, RegisterU8::E)
    } else if op == 0x5C {
        Instruction::LdR1R2(RegisterU8::E, RegisterU8::H)
    } else if op == 0x5D {
        Instruction::LdR1R2(RegisterU8::E, RegisterU8::L)
    } else if op == 0x5E {
        Instruction::LdRFromMemHL(RegisterU8::E)
    } else if op == 0x5F {
        Instruction::LdR1R2(RegisterU8::E, RegisterU8::A)
    } else if op == 0x60 {
        Instruction::LdR1R2(RegisterU8::H, RegisterU8::B)
    } else if op == 0x61 {
        Instruction::LdR1R2(RegisterU8::H, RegisterU8::C)
    } else if op == 0x62 {
        Instruction::LdR1R2(RegisterU8::H, RegisterU8::D)
    } else if op == 0x63 {
        Instruction::LdR1R2(RegisterU8::H, RegisterU8::E)
    } else if op == 0x64 {
        Instruction::LdR1R2(RegisterU8::H, RegisterU8::H)
    } else if op == 0x65 {
        Instruction::LdR1R2(RegisterU8::H, RegisterU8::L)
    } else if op == 0x66 {
        Instruction::LdRFromMemHL(RegisterU8::H)
    } else if op == 0x67 {
        Instruction::LdR1R2(RegisterU8::H, RegisterU8::A)
    } else if op == 0x68 {
        Instruction::LdR1R2(RegisterU8::L, RegisterU8::B)
    } else if op == 0x69 {
        Instruction::LdR1R2(RegisterU8::L, RegisterU8::C)
    } else if op == 0x6A {
        Instruction::LdR1R2(RegisterU8::L, RegisterU8::D)
    } else if op == 0x6B {
        Instruction::LdR1R2(RegisterU8::L, RegisterU8::E)
    } else if op == 0x6C {
        Instruction::LdR1R2(RegisterU8::L, RegisterU8::H)
    } else if op == 0x6D {
        Instruction::LdR1R2(RegisterU8::L, RegisterU8::L)
    } else if op == 0x6E {
        Instruction::LdRFromMemHL(RegisterU8::L)
    } else if op == 0x6F {
        Instruction::LdR1R2(RegisterU8::L, RegisterU8::A)
    } else if op == 0x70 {
        Instruction::LdMemHLFromR(RegisterU8::B)
    } else if op == 0x71 {
        Instruction::LdMemHLFromR(RegisterU8::C)
    } else if op == 0x72 {
        Instruction::LdMemHLFromR(RegisterU8::D)
    } else if op == 0x73 {
        Instruction::LdMemHLFromR(RegisterU8::E)
    } else if op == 0x74 {
        Instruction::LdMemHLFromR(RegisterU8::H)
    } else if op == 0x75 {
        Instruction::LdMemHLFromR(RegisterU8::L)
    } else if op == 0x76 {
        Instruction::Halt
    } else if op == 0x77 {
        Instruction::LdMemHLFromR(RegisterU8::A)
    } else if op == 0x78 {
        Instruction::LdR1R2(RegisterU8::A, RegisterU8::B)
    } else if op == 0x79 {
        Instruction::LdR1R2(RegisterU8::A, RegisterU8::C)
    } else if op == 0x7A {
        Instruction::LdR1R2(RegisterU8::A, RegisterU8::D)
    } else if op == 0x7B {
        Instruction::LdR1R2(RegisterU8::A, RegisterU8::E)
    } else if op == 0x7C {
        Instruction::LdR1R2(RegisterU8::A, RegisterU8::H)
    } else if op == 0x7D {
        Instruction::LdR1R2(RegisterU8::A, RegisterU8::L)
    } else if op == 0x7E {
        Instruction::LdRFromMemHL(RegisterU8::A)
    } else if op == 0x7F {
        Instruction::LdR1R2(RegisterU8::A, RegisterU8::A)
    } else if op == 0x80 {
        Instruction::AddR(RegisterU8::B)
    } else if op == 0x81 {
        Instruction::AddR(RegisterU8::C)
    } else if op == 0x82 {
        Instruction::AddR(RegisterU8::D)
    } else if op == 0x83 {
        Instruction::AddR(RegisterU8::E)
    } else if op == 0x84 {
        Instruction::AddR(RegisterU8::H)
    } else if op == 0x85 {
        Instruction::AddR(RegisterU8::L)
    } else if op == 0x87 {
        Instruction::AddR(RegisterU8::A)
    } else if op == 0x88 {
        Instruction::AdcR(RegisterU8::B)
    } else if op == 0x89 {
        Instruction::AdcR(RegisterU8::C)
    } else if op == 0x8A {
        Instruction::AdcR(RegisterU8::D)
    } else if op == 0x8B {
        Instruction::AdcR(RegisterU8::E)
    } else if op == 0x8C {
        Instruction::AdcR(RegisterU8::H)
    } else if op == 0x8D {
        Instruction::AdcR(RegisterU8::L)
    } else if op == 0x8F {
        Instruction::AdcR(RegisterU8::A)
    } else if op == 0x90 {
        Instruction::SubR(RegisterU8::B)
    } else if op == 0x91 {
        Instruction::SubR(RegisterU8::C)
    } else if op == 0x92 {
        Instruction::SubR(RegisterU8::D)
    } else if op == 0x93 {
        Instruction::SubR(RegisterU8::E)
    } else if op == 0x94 {
        Instruction::SubR(RegisterU8::H)
    } else if op == 0x95 {
        Instruction::SubR(RegisterU8::L)
    } else if op == 0x97 {
        Instruction::SubR(RegisterU8::A)
    } else if op == 0x98 {
        Instruction::SbcR(RegisterU8::B)
    } else if op == 0x99 {
        Instruction::SbcR(RegisterU8::C)
    } else if op == 0x9A {
        Instruction::SbcR(RegisterU8::D)
    } else if op == 0x9B {
        Instruction::SbcR(RegisterU8::E)
    } else if op == 0x9C {
        Instruction::SbcR(RegisterU8::H)
    } else if op == 0x9D {
        Instruction::SbcR(RegisterU8::L)
    } else if op == 0x9F {
        Instruction::SbcR(RegisterU8::A)
    } else if op == 0xA0 {
        Instruction::AndR(RegisterU8::B)
    } else if op == 0xA1 {
        Instruction::AndR(RegisterU8::C)
    } else if op == 0xA2 {
        Instruction::AndR(RegisterU8::D)
    } else if op == 0xA3 {
        Instruction::AndR(RegisterU8::E)
    } else if op == 0xA4 {
        Instruction::AndR(RegisterU8::H)
    } else if op == 0xA5 {
        Instruction::AndR(RegisterU8::L)
    } else if op == 0xA7 {
        Instruction::AndR(RegisterU8::A)
    } else if op == 0xA8 {
        Instruction::Xor(RegisterU8::B)
    } else if op == 0xA9 {
        Instruction::Xor(RegisterU8::C)
    } else if op == 0xAA {
        Instruction::Xor(RegisterU8::D)
    } else if op == 0xAB {
        Instruction::Xor(RegisterU8::E)
    } else if op == 0xAC {
        Instruction::Xor(RegisterU8::H)
    } else if op == 0xAD {
        Instruction::Xor(RegisterU8::L)
    } else if op == 0xAF {
        Instruction::Xor(RegisterU8::A)
    } else if op == 0xB0 {
        Instruction::OrR(RegisterU8::B)
    } else if op == 0xB1 {
        Instruction::OrR(RegisterU8::C)
    } else if op == 0xB2 {
        Instruction::OrR(RegisterU8::D)
    } else if op == 0xB3 {
        Instruction::OrR(RegisterU8::E)
    } else if op == 0xB4 {
        Instruction::OrR(RegisterU8::H)
    } else if op == 0xB5 {
        Instruction::OrR(RegisterU8::L)
    } else if op == 0xB7 {
        Instruction::OrR(RegisterU8::A)
    } else if op == 0xB8 {
        Instruction::CpR(RegisterU8::B)
    } else if op == 0xB9 {
        Instruction::CpR(RegisterU8::C)
    } else if op == 0xBA {
        Instruction::CpR(RegisterU8::D)
    } else if op == 0xBB {
        Instruction::CpR(RegisterU8::E)
    } else if op == 0xBC {
        Instruction::CpR(RegisterU8::H)
    } else if op == 0xBD {
        Instruction::CpR(RegisterU8::L)
    } else if op == 0xBF {
        Instruction::CpR(RegisterU8::A)
    } else if op == 0xC1 {
        Instruction::PopRR(RegisterPair::BC)
    } else if op == 0xC2 {
        Instruction::JpCCNN(Flag::Z, false)
    } else if op == 0xC3 {
        Instruction::JpNN
    } else if op == 0xC5 {
        Instruction::PushRR(RegisterPair::BC)
    } else if op == 0xC6 {
        Instruction::AddN
    } else if op == 0xC7 {
        Instruction::Rst(RstAddress::Rst00)
    } else if op == 0xC9 {
        Instruction::Ret
    } else if op == 0xCA {
        Instruction::JpCCNN(Flag::Z, true)
    } else if op == 0xCD {
        Instruction::Call
    } else if op == 0xCF {
        Instruction::Rst(RstAddress::Rst08)
    } else if op == 0xD1 {
        Instruction::PopRR(RegisterPair::DE)
    } else if op == 0xD2 {
        Instruction::JpCCNN(Flag::C, false)
    } else if op == 0xD3 {
        Instruction::Invalid
    } else if op == 0xD5 {
        Instruction::PushRR(RegisterPair::DE)
    } else if op == 0xD6 {
        Instruction::SubN
    } else if op == 0xDA {
        Instruction::JpCCNN(Flag::C, true)
    } else if op == 0xDB {
        Instruction::Invalid
    } else if op == 0xDD {
        Instruction::Invalid
    } else if op == 0xE0 {
        Instruction::LdhNR(RegisterU8::A)
    } else if op == 0xE1 {
        Instruction::PopRR(RegisterPair::HL)
    } else if op == 0xE3 {
        Instruction::Invalid
    } else if op == 0xE4 {
        Instruction::Invalid
    } else if op == 0xE5 {
        Instruction::PushRR(RegisterPair::HL)
    } else if op == 0xE6 {
        Instruction::AndN
    } else if op == 0xEA {
        Instruction::LdNnA
    } else if op == 0xEB {
        Instruction::Invalid
    } else if op == 0xEC {
        Instruction::Invalid
    } else if op == 0xED {
        Instruction::Invalid
    } else if op == 0xF0 {
        Instruction::LdhAN
    } else if op == 0xF1 {
        Instruction::PopRR(RegisterPair::AF)
    } else if op == 0xF3 {
        Instruction::Di
    } else if op == 0xF4 {
        Instruction::Invalid
    } else if op == 0xF5 {
        Instruction::PushRR(RegisterPair::AF)
    } else if op == 0xF6 {
        Instruction::OrN
    } else if op == 0xFC {
        Instruction::Invalid
    } else if op == 0xFD {
        Instruction::Invalid
    } else if op == 0xFE {
        Instruction::CpN
    } else if op == 0xFF {
        Instruction::Rst(RstAddress::Rst38)
    } else {
        Instruction::Unimplemented
    }
}

/// The primary opcode table: 256 slots, one per opcode byte.
pub struct Optable {
    pub optable: Vec<Instruction>,
}

impl Optable {
    /// The table holds all 256 slots, each the decoding of its index.
    pub open spec fn wf(self) -> bool {
        &&& self.optable@.len() == 256
        &&& forall|i: int| 0 <= i < 256 ==> self.optable@[i] == opcode_spec(i as u8)
    }

    /// Builds the table once; it is never mutated afterwards.
    pub fn new() -> (t: Optable)
        ensures
            t.wf(),
    {
        let mut table: Vec<Instruction> = Vec::new();
        let mut op: usize = 0;
        while op < 256
            invariant
                op <= 256,
                table@.len() == op,
                forall|i: int| 0 <= i < op ==> table@[i] == opcode_spec(i as u8),
            decreases 256 - op,
        {
            table.push(decode(op as u8));
            op = op + 1;
        }
        Optable { optable: table }
    }
}

/// The base timing cost, in clock cycles, of each primary-table slot.
/// Conditional control-flow instructions hold their not-taken cost
/// here; the handler reports the taken-path cost to the engine when it
/// branches.  Slots this build has not modeled hold zero.
#[verifier::opaque]
pub open spec fn cycle_spec(op: u8) -> u64 {
    if op == 0x00 {
        4u64
    } else if op == 0x01 {
        12u64
    } else if op == 0x02 {
        8u64
    } else if op == 0x03 {
        8u64
    } else if op == 0x04 {
        4u64
    } else if op == 0x05 {
        4u64
    } else if op == 0x06 {
        8u64
    } else if op == 0x07 {
        4u64
    } else if op == 0x08 {
        20u64
    } else if op == 0x09 {
        8u64
    } else if op == 0x0A {
        8u64
    } else if op == 0x0B {
        8u64
    } else if op == 0x0C {
        4u64
    } else if op == 0x0D {
        4u64
    } else if op == 0x0E {
        8u64
    } else if op == 0x0F {
        4u64
    } else if op == 0x10 {
        4u64
    } else if op == 0x11 {
        12u64
    } else if op == 0x12 {
        8u64
    } else if op == 0x13 {
        8u64
    } else if op == 0x14 {
        4u64
    } else if op == 0x15 {
        4u64
    } else if op == 0x16 {
        8u64
    } else if op == 0x17 {
        4u64
    } else if op == 0x18 {
        12u64
    } else if op == 0x19 {
        8u64
    } else if op == 0x1A {
        8u64
    } else if op == 0x1B {
        8u64
    } else if op == 0x1C {
        4u64
    } else if op == 0x1D {
        4u64
    } else if op == 0x1E {
        8u64
    } else if op == 0x1F {
        4u64
    } else if op == 0x20 {
        8u64
    } else if op == 0x21 {
        12u64
    } else if op == 0x22 {
        8u64
    } else if op == 0x23 {
        8u64
    } else if op == 0x24 {
        4u64
    } else if op == 0x25 {
        4u64
    } else if op == 0x26 {
        8u64
    } else if op == 0x27 {
        4u64
    } else if op == 0x28 {
        8u64
    } else if op == 0x29 {
        8u64
    } else if op == 0x2A {
        8u64
    } else if op == 0x2B {
        8u64
    } else if op == 0x2C {
        4u64
    } else if op == 0x2D {
        4u64
    } else if op == 0x2E {
        8u64
    } else if op == 0x2F {
        4u64
    } else if op == 0x30 {
        8u64
    } else if op == 0x31 {
        12u64
    } else if op == 0x32 {
        8u64
    } else if op == 0x33 {
        8u64
    } else if op == 0x34 {
        12u64
    } else if op == 0x35 {
        12u64
    } else if op == 0x36 {
        12u64
    } else if op == 0x37 {
        4u64
    } else if op == 0x38 {
        8u64
    } else if op == 0x39 {
        8u64
    } else if op == 0x3A {
        8u64
    } else if op == 0x3B {
        8u64
    } else if op == 0x3C {
        4u64
    } else if op == 0x3D {
        4u64
    } else if op == 0x3E {
        8u64
    } else if op == 0x3F {
        4u64
    } else if op == 0x40 {
        4u64
    } else if op == 0x41 {
        4u64
    } else if op == 0x42 {
        4u64
    } else if op == 0x43 {
        4u64
    } else if op == 0x44 {
        4u64
    } else if op == 0x45 {
        4u64
    } else if op == 0x46 {
        8u64
    } else if op == 0x47 {
        4u64
    } else if op == 0x48 {
        4u64
    } else if op == 0x49 {
        4u64
    } else if op == 0x4A {
        4u64
    } else if op == 0x4B {
        4u64
    } else if op == 0x4C {
        4u64
    } else if op == 0x4D {
        4u64
    } else if op == 0x4E {
        8u64
    } else if op == 0x4F {
        4u64
    } else if op == 0x50 {
        4u64
    } else if op == 0x51 {
        4u64
    } else if op == 0x52 {
        4u64
    } else if op == 0x53 {
        4u64
    } else if op == 0x54 {
        4u64
    } else if op == 0x55 {
        4u64
    } else if op == 0x56 {
        8u64
    } else if op == 0x57 {
        4u64
    } else if op == 0x58 {
        4u64
    } else if op == 0x59 {
        4u64
    } else if op == 0x5A {
        4u64
    } else if op == 0x5B {
        4u64
    } else if op == 0x5C {
        4u64
    } else if op == 0x5D {
        4u64
    } else if op == 0x5E {
        8u64
    } else if op == 0x5F {
        4u64
    } else if op == 0x60 {
        4u64
    } else if op == 0x61 {
        4u64
    } else if op == 0x62 {
        4u64
    } else if op == 0x63 {
        4u64
    } else if op == 0x64 {
        4u64
    } else if op == 0x65 {
        4u64
    } else if op == 0x66 {
        8u64
    } else if op == 0x67 {
        4u64
    } else if op == 0x68 {
        4u64
    } else if op == 0x69 {
        4u64
    } else if op == 0x6A {
        4u64
    } else if op == 0x6B {
        4u64
    } else if op == 0x6C {
        4u64
    } else if op == 0x6D {
        4u64
    } else if op == 0x6E {
        8u64
    } else if op == 0x6F {
        4u64
    } else if op == 0x70 {
        8u64
    } else if op == 0x71 {
        8u64
    } else if op == 0x72 {
        8u64
    } else if op == 0x73 {
        8u64
    } else if op == 0x74 {
        8u64
    } else if op == 0x75 {
        8u64
    } else if op == 0x76 {
        4u64
    } else if op == 0x77 {
        8u64
    } else if op == 0x78 {
        4u64
    } else if op == 0x79 {
        4u64
    } else if op == 0x7A {
        4u64
    } else if op == 0x7B {
        4u64
    } else if op == 0x7C {
        4u64
    } else if op == 0x7D {
        4u64
    } else if op == 0x7E {
        8u64
    } else if op == 0x7F {
        4u64
    } else if op == 0x80 {
        4u64
    } else if op == 0x81 {
        4u64
    } else if op == 0x82 {
        4u64
    } else if op == 0x83 {
        4u64
    } else if op == 0x84 {
        4u64
    } else if op == 0x85 {
        4u64
    } else if op == 0x86 {
        8u64
    } else if op == 0x87 {
        4u64
    } else if op == 0x88 {
        4u64
    } else if op == 0x89 {
        4u64
    } else if op == 0x8A {
        4u64
    } else if op == 0x8B {
        4u64
    } else if op == 0x8C {
        4u64
    } else if op == 0x8D {
        4u64
    } else if op == 0x8E {
        8u64
    } else if op == 0x8F {
        4u64
    } else if op == 0x90 {
        4u64
    } else if op == 0x91 {
        4u64
    } else if op == 0x92 {
        4u64
    } else if op == 0x93 {
        4u64
    } else if op == 0x94 {
        4u64
    } else if op == 0x95 {
        4u64
    } else if op == 0x96 {
        8u64
    } else if op == 0x97 {
        4u64
    } else if op == 0x98 {
        4u64
    } else if op == 0x99 {
        4u64
    } else if op == 0x9A {
        4u64
    } else if op == 0x9B {
        4u64
    } else if op == 0x9C {
        4u64
    } else if op == 0x9D {
        4u64
    } else if op == 0x9E {
        8u64
    } else if op == 0x9F {
        4u64
    } else if op == 0xA0 {
        4u64
    } else if op == 0xA1 {
        4u64
    } else if op == 0xA2 {
        4u64
    } else if op == 0xA3 {
        4u64
    } else if op == 0xA4 {
        4u64
    } else if op == 0xA5 {
        4u64
    } else if op == 0xA6 {
        8u64
    } else if op == 0xA7 {
        4u64
    } else if op == 0xA8 {
        4u64
    } else if op == 0xA9 {
        4u64
    } else if op == 0xAA {
        4u64
    } else if op == 0xAB {
        4u64
    } else if op == 0xAC {
        4u64
    } else if op == 0xAD {
        4u64
    } else if op == 0xAE {
        8u64
    } else if op == 0xAF {
        4u64
    } else if op == 0xB0 {
        4u64
    } else if op == 0xB1 {
        4u64
    } else if op == 0xB2 {
        4u64
    } else if op == 0xB3 {
        4u64
    } else if op == 0xB4 {
        4u64
    } else if op == 0xB5 {
        4u64
    } else if op == 0xB6 {
        8u64
    } else if op == 0xB7 {
        4u64
    } else if op == 0xB8 {
        4u64
    } else if op == 0xB9 {
        4u64
    } else if op == 0xBA {
        4u64
    } else if op == 0xBB {
        4u64
    } else if op == 0xBC {
        4u64
    } else if op == 0xBD {
        4u64
    } else if op == 0xBE {
        8u64
    } else if op == 0xBF {
        4u64
    } else if op == 0xC1 {
        12u64
    } else if op == 0xC2 {
        12u64
    } else if op == 0xC3 {
        16u64
    } else if op == 0xC5 {
        16u64
    } else if op == 0xC6 {
        8u64
    } else if op == 0xC7 {
        16u64
    } else if op == 0xC9 {
        16u64
    } else if op == 0xCA {
        12u64
    } else if op == 0xCB {
        4u64
    } else if op == 0xCD {
        24u64
    } else if op == 0xCE {
        8u64
    } else if op == 0xCF {
        16u64
    } else if op == 0xD1 {
        12u64
    } else if op == 0xD2 {
        12u64
    } else if op == 0xD5 {
        16u64
    } else if op == 0xD6 {
        8u64
    } else if op == 0xD7 {
        16u64
    } else if op == 0xD9 {
        16u64
    } else if op == 0xDA {
        12u64
    } else if op == 0xDE {
        8u64
    } else if op == 0xDF {
        16u64
    } else if op == 0xE0 {
        12u64
    } else if op == 0xE1 {
        12u64
    } else if op == 0xE2 {
        8u64
    } else if op == 0xE5 {
        16u64
    } else if op == 0xE6 {
        8u64
    } else if op == 0xE7 {
        16u64
    } else if op == 0xE8 {
        16u64
    } else if op == 0xE9 {
        4u64
    } else if op == 0xEA {
        16u64
    } else if op == 0xEE {
        8u64
    } else if op == 0xEF {
        16u64
    } else if op == 0xF0 {
        12u64
    } else if op == 0xF1 {
        12u64
    } else if op == 0xF2 {
        8u64
    } else if op == 0xF3 {
        4u64
    } else if op == 0xF5 {
        16u64
    } else if op == 0xF6 {
        8u64
    } else if op == 0xF7 {
        16u64
    } else if op == 0xF8 {
        12u64
    } else if op == 0xF9 {
        8u64
    } else if op == 0xFA {
        16u64
    } else if op == 0xFB {
        4u64
    } else if op == 0xFE {
        8u64
    } else if op == 0xFF {
        16u64
    } else {
        0u64
    }
}

/// The base cycle cost of one opcode byte.
pub fn base_cycles(op: u8) -> (c: u64)
    ensures
        c == cycle_spec(op),
{
    proof {
        reveal(cycle_spec);
    }
    if op == 0x00 {
        4u64
    } else if op == 0x01 {
        12u64
    } else if op == 0x02 {
        8u64
    } else if op == 0x03 {
        8u64
    } else if op == 0x04 {
        4u64
    } else if op == 0x05 {
        4u64
    } else if op == 0x06 {
        8u64
    } else if op == 0x07 {
        4u64
    } else if op == 0x08 {
        20u64
    } else if op == 0x09 {
        8u64
    } else if op == 0x0A {
        8u64
    } else if op == 0x0B {
        8u64
    } else if op == 0x0C {
        4u64
    } else if op == 0x0D {
        4u64
    } else if op == 0x0E {
        8u64
    } else if op == 0x0F {
        4u64
    } else if op == 0x10 {
        4u64
    } else if op == 0x11 {
        12u64
    } else if op == 0x12 {
        8u64
    } else if op == 0x13 {
        8u64
    } else if op == 0x14 {
        4u64
    } else if op == 0x15 {
        4u64
    } else if op == 0x16 {
        8u64
    } else if op == 0x17 {
        4u64
    } else if op == 0x18 {
        12u64
    } else if op == 0x19 {
        8u64
    } else if op == 0x1A {
        8u64
    } else if op == 0x1B {
        8u64
    } else if op == 0x1C {
        4u64
    } else if op == 0x1D {
        4u64
    } else if op == 0x1E {
        8u64
    } else if op == 0x1F {
        4u64
    } else if op == 0x20 {
        8u64
    } else if op == 0x21 {
        12u64
    } else if op == 0x22 {
        8u64
    } else if op == 0x23 {
        8u64
    } else if op == 0x24 {
        4u64
    } else if op == 0x25 {
        4u64
    } else if op == 0x26 {
        8u64
    } else if op == 0x27 {
        4u64
    } else if op == 0x28 {
        8u64
    } else if op == 0x29 {
        8u64
    } else if op == 0x2A {
        8u64
    } else if op == 0x2B {
        8u64
    } else if op == 0x2C {
        4u64
    } else if op == 0x2D {
        4u64
    } else if op == 0x2E {
        8u64
    } else if op == 0x2F {
        4u64
    } else if op == 0x30 {
        8u64
    } else if op == 0x31 {
        12u64
    } else if op == 0x32 {
        8u64
    } else if op == 0x33 {
        8u64
    } else if op == 0x34 {
        12u64
    } else if op == 0x35 {
        12u64
    } else if op == 0x36 {
        12u64
    } else if op == 0x37 {
        4u64
    } else if op == 0x38 {
        8u64
    } else if op == 0x39 {
        8u64
    } else if op == 0x3A {
        8u64
    } else if op == 0x3B {
        8u64
    } else if op == 0x3C {
        4u64
    } else if op == 0x3D {
        4u64
    } else if op == 0x3E {
        8u64
    } else if op == 0x3F {
        4u64
    } else if op == 0x40 {
        4u64
    } else if op == 0x41 {
        4u64
    } else if op == 0x42 {
        4u64
    } else if op == 0x43 {
        4u64
    } else if op == 0x44 {
        4u64
    } else if op == 0x45 {
        4u64
    } else if op == 0x46 {
        8u64
    } else if op == 0x47 {
        4u64
    } else if op == 0x48 {
        4u64
    } else if op == 0x49 {
        4u64
    } else if op == 0x4A {
        4u64
    } else if op == 0x4B {
        4u64
    } else if op == 0x4C {
        4u64
    } else if op == 0x4D {
        4u64
    } else if op == 0x4E {
        8u64
    } else if op == 0x4F {
        4u64
    } else if op == 0x50 {
        4u64
    } else if op == 0x51 {
        4u64
    } else if op == 0x52 {
        4u64
    } else if op == 0x53 {
        4u64
    } else if op == 0x54 {
        4u64
    } else if op == 0x55 {
        4u64
    } else if op == 0x56 {
        8u64
    } else if op == 0x57 {
        4u64
    } else if op == 0x58 {
        4u64
    } else if op == 0x59 {
        4u64
    } else if op == 0x5A {
        4u64
    } else if op == 0x5B {
        4u64
    } else if op == 0x5C {
        4u64
    } else if op == 0x5D {
        4u64
    } else if op == 0x5E {
        8u64
    } else if op == 0x5F {
        4u64
    } else if op == 0x60 {
        4u64
    } else if op == 0x61 {
        4u64
    } else if op == 0x62 {
        4u64
    } else if op == 0x63 {
        4u64
    } else if op == 0x64 {
        4u64
    } else if op == 0x65 {
        4u64
    } else if op == 0x66 {
        8u64
    } else if op == 0x67 {
        4u64
    } else if op == 0x68 {
        4u64
    } else if op == 0x69 {
        4u64
    } else if op == 0x6A {
        4u64
    } else if op == 0x6B {
        4u64
    } else if op == 0x6C {
        4u64
    } else if op == 0x6D {
        4u64
    } else if op == 0x6E {
        8u64
    } else if op == 0x6F {
        4u64
    } else if op == 0x70 {
        8u64
    } else if op == 0x71 {
        8u64
    } else if op == 0x72 {
        8u64
    } else if op == 0x73 {
        8u64
    } else if op == 0x74 {
        8u64
    } else if op == 0x75 {
        8u64
    } else if op == 0x76 {
        4u64
    } else if op == 0x77 {
        8u64
    } else if op == 0x78 {
        4u64
    } else if op == 0x79 {
        4u64
    } else if op == 0x7A {
        4u64
    } else if op == 0x7B {
        4u64
    } else if op == 0x7C {
        4u64
    } else if op == 0x7D {
        4u64
    } else if op == 0x7E {
        8u64
    } else if op == 0x7F {
        4u64
    } else if op == 0x80 {
        4u64
    } else if op == 0x81 {
        4u64
    } else if op == 0x82 {
        4u64
    } else if op == 0x83 {
        4u64
    } else if op == 0x84 {
        4u64
    } else if op == 0x85 {
        4u64
    } else if op == 0x86 {
        8u64
    } else if op == 0x87 {
        4u64
    } else if op == 0x88 {
        4u64
    } else if op == 0x89 {
        4u64
    } else if op == 0x8A {
        4u64
    } else if op == 0x8B {
        4u64
    } else if op == 0x8C {
        4u64
    } else if op == 0x8D {
        4u64
    } else if op == 0x8E {
        8u64
    } else if op == 0x8F {
        4u64
    } else if op == 0x90 {
        4u64
    } else if op == 0x91 {
        4u64
    } else if op == 0x92 {
        4u64
    } else if op == 0x93 {
        4u64
    } else if op == 0x94 {
        4u64
    } else if op == 0x95 {
        4u64
    } else if op == 0x96 {
        8u64
    } else if op == 0x97 {
        4u64
    } else if op == 0x98 {
        4u64
    } else if op == 0x99 {
        4u64
    } else if op == 0x9A {
        4u64
    } else if op == 0x9B {
        4u64
    } else if op == 0x9C {
        4u64
    } else if op == 0x9D {
        4u64
    } else if op == 0x9E {
        8u64
    } else if op == 0x9F {
        4u64
    } else if op == 0xA0 {
        4u64
    } else if op == 0xA1 {
        4u64
    } else if op == 0xA2 {
        4u64
    } else if op == 0xA3 {
        4u64
    } else if op == 0xA4 {
        4u64
    } else if op == 0xA5 {
        4u64
    } else if op == 0xA6 {
        8u64
    } else if op == 0xA7 {
        4u64
    } else if op == 0xA8 {
        4u64
    } else if op == 0xA9 {
        4u64
    } else if op == 0xAA {
        4u64
    } else if op == 0xAB {
        4u64
    } else if op == 0xAC {
        4u64
    } else if op == 0xAD {
        4u64
    } else if op == 0xAE {
        8u64
    } else if op == 0xAF {
        4u64
    } else if op == 0xB0 {
        4u64
    } else if op == 0xB1 {
        4u64
    } else if op == 0xB2 {
        4u64
    } else if op == 0xB3 {
        4u64
    } else if op == 0xB4 {
        4u64
    } else if op == 0xB5 {
        4u64
    } else if op == 0xB6 {
        8u64
    } else if op == 0xB7 {
        4u64
    } else if op == 0xB8 {
        4u64
    } else if op == 0xB9 {
        4u64
    } else if op == 0xBA {
        4u64
    } else if op == 0xBB {
        4u64
    } else if op == 0xBC {
        4u64
    } else if op == 0xBD {
        4u64
    } else if op == 0xBE {
        8u64
    } else if op == 0xBF {
        4u64
    } else if op == 0xC1 {
        12u64
    } else if op == 0xC2 {
        12u64
    } else if op == 0xC3 {
        16u64
    } else if op == 0xC5 {
        16u64
    } else if op == 0xC6 {
        8u64
    } else if op == 0xC7 {
        16u64
    } else if op == 0xC9 {
        16u64
    } else if op == 0xCA {
        12u64
    } else if op == 0xCB {
        4u64
    } else if op == 0xCD {
        24u64
    } else if op == 0xCE {
        8u64
    } else if op == 0xCF {
        16u64
    } else if op == 0xD1 {
        12u64
    } else if op == 0xD2 {
        12u64
    } else if op == 0xD5 {
        16u64
    } else if op == 0xD6 {
        8u64
    } else if op == 0xD7 {
        16u64
    } else if op == 0xD9 {
        16u64
    } else if op == 0xDA {
        12u64
    } else if op == 0xDE {
        8u64
    } else if op == 0xDF {
        16u64
    } else if op == 0xE0 {
        12u64
    } else if op == 0xE1 {
        12u64
    } else if op == 0xE2 {
        8u64
    } else if op == 0xE5 {
        16u64
    } else if op == 0xE6 {
        8u64
    } else if op == 0xE7 {
        16u64
    } else if op == 0xE8 {
        16u64
    } else if op == 0xE9 {
        4u64
    } else if op == 0xEA {
        16u64
    } else if op == 0xEE {
        8u64
    } else if op == 0xEF {
        16u64
    } else if op == 0xF0 {
        12u64
    } else if op == 0xF1 {
        12u64
    } else if op == 0xF2 {
        8u64
    } else if op == 0xF3 {
        4u64
    } else if op == 0xF5 {
        16u64
    } else if op == 0xF6 {
        8u64
    } else if op == 0xF7 {
        16u64
    } else if op == 0xF8 {
        12u64
    } else if op == 0xF9 {
        8u64
    } else if op == 0xFA {
        16u64
    } else if op == 0xFB {
        4u64
    } else if op == 0xFE {
        8u64
    } else if op == 0xFF {
        16u64
    } else {
        0u64
    }
}

/// The cycle table: 256 base costs, one per opcode byte.
pub struct CycleTable {
    pub cycle_table: Vec<u64>,
}

impl CycleTable {
    /// The table holds all 256 base costs.
    pub open spec fn wf(self) -> bool {
        &&& self.cycle_table@.len() == 256
        &&& forall|i: int| 0 <= i < 256 ==> self.cycle_table@[i] == cycle_spec(i as u8)
    }

    /// Builds the table once; it is never mutated afterwards.
    pub fn new() -> (t: CycleTable)
        ensures
            t.wf(),
    {
        let mut table: Vec<u64> = Vec::new();
        let mut op: usize = 0;
        while op < 256
            invariant
                op <= 256,
                table@.len() == op,
                forall|i: int| 0 <= i < op ==> table@[i] == cycle_spec(i as u8),
            decreases 256 - op,
        {
            table.push(base_cycles(op as u8));
            op = op + 1;
        }
        CycleTable { cycle_table: table }
    }
}

} // verus!
