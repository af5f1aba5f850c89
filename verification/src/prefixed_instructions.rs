//! The secondary opcode table for the prefixed instruction subset
//! (rotations, shifts, bit set), selected when the fetched byte is the
//! prefix escape value.  Same structure as the primary table: 256
//! slots, built once, immutable thereafter.

use vstd::prelude::*;

use crate::registers::RegisterU8;

verus! {

/// A closed description of one prefixed-table instruction.
#[derive(Copy, Clone, Debug, PartialEq, Eq, Structural)]
pub enum PrefixedInstruction {
    /// Rotate a register left circularly (the outgoing bit 7 becomes
    /// both the carry flag and bit 0).
    CBRLCR(RegisterU8),
    /// Rotate a register right through the carry flag.
    CBRRR(RegisterU8),
    /// Set one bit of the byte at the address in HL.
    CBSetBHL(usize),
    /// Shift a register right logically (bit 7 becomes zero).
    CBSRLR(RegisterU8),
    Unimplemented,
}

/// The instruction description each prefixed-table slot holds.
#[verifier::opaque]
pub open spec fn prefixed_opcode_spec(op: u8) -> PrefixedInstruction {
    if op == 0x00 {
        PrefixedInstruction::CBRLCR(RegisterU8::B)
    } else if op == 0x01 {
        PrefixedInstruction::CBRLCR(RegisterU8::C)
    } else if op == 0x02 {
        PrefixedInstruction::CBRLCR(RegisterU8::D)
    } else if op == 0x03 {
        PrefixedInstruction::CBRLCR(RegisterU8::E)
    } else if op == 0x04 {
        PrefixedInstruction::CBRLCR(RegisterU8::H)
    } else if op == 0x05 {
        PrefixedInstruction::CBRLCR(RegisterU8::L)
    } else if op == 0x07 {
        PrefixedInstruction::CBRLCR(RegisterU8::A)
    } else if op == 0x18 {
        PrefixedInstruction::CBRRR(RegisterU8::B)
    } else if op == 0x19 {
        PrefixedInstruction::CBRRR(RegisterU8::C)
    } else if op == 0x1A {
        PrefixedInstruction::CBRRR(RegisterU8::D)
    } else if op == 0x1B {
        PrefixedInstruction::CBRRR(RegisterU8::E)
    } else if op == 0x1C {
        PrefixedInstruction::CBRRR(RegisterU8::H)
    } else if op == 0x1D {
        PrefixedInstruction::CBRRR(RegisterU8::L)
    } else if op == 0x1F {
        PrefixedInstruction::CBRRR(RegisterU8::A)
    } else if op == 0x38 {
        PrefixedInstruction::CBSRLR(RegisterU8::B)
    } else if op == 0x39 {
        PrefixedInstruction::CBSRLR(RegisterU8::C)
    } else if op == 0x3A {
        PrefixedInstruction::CBSRLR(RegisterU8::D)
    } else if op == 0x3B {
        PrefixedInstruction::CBSRLR(RegisterU8::E)
    } else if op == 0x3C {
        PrefixedInstruction::CBSRLR(RegisterU8::H)
    } else if op == 0x3D {
        PrefixedInstruction::CBSRLR(RegisterU8::L)
    } else if op == 0x3F {
        PrefixedInstruction::CBSRLR(RegisterU8::A)
    } else if op == 0xC6 {
        PrefixedInstruction::CBSetBHL(0)
    } else if op == 0xCE {
        PrefixedInstruction::CBSetBHL(1)
    } else if op == 0xD6 {
        PrefixedInstruction::CBSetBHL(2)
    } else if op == 0xDE {
        PrefixedInstruction::CBSetBHL(3)
    } else if op == 0xE6 {
        PrefixedInstruction::CBSetBHL(4)
    } else if op == 0xEE {
        PrefixedInstruction::CBSetBHL(5)
    } else if op == 0xF6 {
        PrefixedInstruction::CBSetBHL(6)
    } else if op == 0xFE {
        PrefixedInstruction::CBSetBHL(7)
    } else {
        PrefixedInstruction::Unimplemented
    }
}

/// Decodes one prefixed opcode byte to its table entry.
pub fn decode_prefixed(op: u8) -> (i: PrefixedInstruction)
    ensures
        i == prefixed_opcode_spec(op),
{
    proof {
        reveal(prefixed_opcode_spec);
    }
    if op == 0x00 {
        PrefixedInstruction::CBRLCR(RegisterU8::B)
    } else if op == 0x01 {
        PrefixedInstruction::CBRLCR(RegisterU8::C)
    } else if op == 0x02 {
        PrefixedInstruction::CBRLCR(RegisterU8::D)
    } else if op == 0x03 {
        PrefixedInstruction::CBRLCR(RegisterU8::E)
    } else if op == 0x04 {
        PrefixedInstruction::CBRLCR(RegisterU8::H)
    } else if op == 0x05 {
        PrefixedInstruction::CBRLCR(RegisterU8::L)
    } else if op == 0x07 {
        PrefixedInstruction::CBRLCR(RegisterU8::A)
    } else if op == 0x18 {
        PrefixedInstruction::CBRRR(RegisterU8::B)
    } else if op == 0x19 {
        PrefixedInstruction::CBRRR(RegisterU8::C)
    } else if op == 0x1A {
        PrefixedInstruction::CBRRR(RegisterU8::D)
    } else if op == 0x1B {
        PrefixedInstruction::CBRRR(RegisterU8::E)
    } else if op == 0x1C {
        PrefixedInstruction::CBRRR(RegisterU8::H)
    } else if op == 0x1D {
        PrefixedInstruction::CBRRR(RegisterU8::L)
    } else if op == 0x1F {
        PrefixedInstruction::CBRRR(RegisterU8::A)
    } else if op == 0x38 {
        PrefixedInstruction::CBSRLR(RegisterU8::B)
    } else if op == 0x39 {
        PrefixedInstruction::CBSRLR(RegisterU8::C)
    } else if op == 0x3A {
        PrefixedInstruction::CBSRLR(RegisterU8::D)
    } else if op == 0x3B {
        PrefixedInstruction::CBSRLR(RegisterU8::E)
    } else if op == 0x3C {
        PrefixedInstruction::CBSRLR(RegisterU8::H)
    } else if op == 0x3D {
        PrefixedInstruction::CBSRLR(RegisterU8::L)
    } else if op == 0x3F {
        PrefixedInstruction::CBSRLR(RegisterU8::A)
    } else if op == 0xC6 {
        PrefixedInstruction::CBSetBHL(0)
    } else if op == 0xCE {
        PrefixedInstruction::CBSetBHL(1)
    } else if op == 0xD6 {
        PrefixedInstruction::CBSetBHL(2)
    } else if op == 0xDE {
        PrefixedInstruction::CBSetBHL(3)
    } else if op == 0xE6 {
        PrefixedInstruction::CBSetBHL(4)
    } else if op == 0xEE {
        PrefixedInstruction::CBSetBHL(5)
    } else if op == 0xF6 {
        PrefixedInstruction::CBSetBHL(6)
    } else if op == 0xFE {
        PrefixedInstruction::CBSetBHL(7)
    } else {
        PrefixedInstruction::Unimplemented
    }
}

/// Every SET entry of the prefixed table names a bit index below 8.
pub proof fn lemma_prefixed_set_bit_in_range(op: u8)
    ensures
        prefixed_opcode_spec(op) matches PrefixedInstruction::CBSetBHL(b) ==> b < 8,
{
    reveal(prefixed_opcode_spec);
}

/// The prefixed opcode table: 256 slots, one per second opcode byte.
pub struct PrefixedOptable {
    pub prefixed_optable: Vec<PrefixedInstruction>,
}

impl PrefixedOptable {
    /// The table holds all 256 slots, each the decoding of its index.
    pub open spec fn wf(self) -> bool {
        &&& self.prefixed_optable@.len() == 256
        &&& forall|i: int| 0 <= i < 256 ==> self.prefixed_optable@[i] == prefixed_opcode_spec(
            i as u8,
        )
    }

    /// Builds the table once; it is never mutated afterwards.
    pub fn new() -> (t: PrefixedOptable)
        ensures
            t.wf(),
    {
        let mut table: Vec<PrefixedInstruction> = Vec::new();
        let mut op: usize = 0;
        while op < 256
            invariant
                op <= 256,
                table@.len() == op,
                forall|i: int| 0 <= i < op ==> table@[i] == prefixed_opcode_spec(i as u8),
            decreases 256 - op,
        {
            table.push(decode_prefixed(op as u8));
            op = op + 1;
        }
        PrefixedOptable { prefixed_optable: table }
    }
}

} // verus!
