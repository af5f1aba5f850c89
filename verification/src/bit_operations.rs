//! Carry and half-carry predicates for the ALU, computed from the
//! operands by isolating the low nibble (or byte, or 12/16 bits) and
//! testing the partial sum, never by inspecting the final wrapped
//! result.

use vstd::prelude::*;

verus! {

/// Carry out of bit 3 when adding two bytes: the low nibbles alone
/// already sum past 0x0F.
pub open spec fn spec_half_carry_add(a: u8, b: u8) -> bool {
    (a & 0xF) + (b & 0xF) >= 0x10
}

/// Borrow into bit 3 when subtracting `b` from `a`: the low nibble of
/// `a` is too small on its own.
pub open spec fn spec_half_borrow_sub(a: u8, b: u8) -> bool {
    (a & 0xF) < (b & 0xF)
}

/// Carry out of bit 7 when adding two bytes.
pub open spec fn spec_carry_add(a: u8, b: u8) -> bool {
    a + b >= 0x100
}

/// Borrow out of bit 7 when subtracting `b` from `a`.
pub open spec fn spec_borrow_sub(a: u8, b: u8) -> bool {
    a < b
}

/// Carry out of bit 11 when adding two 16-bit values.
pub open spec fn spec_half_carry_add16(a: u16, b: u16) -> bool {
    (a & 0xFFF) + (b & 0xFFF) >= 0x1000
}

/// Carry out of bit 15 when adding two 16-bit values.
pub open spec fn spec_carry_add16(a: u16, b: u16) -> bool {
    a + b >= 0x10000
}

/// Carry out of bit 3 when adding two bytes and an incoming carry.
pub open spec fn spec_half_carry_adc(a: u8, b: u8, c: bool) -> bool {
    (a & 0xF) + (b & 0xF) + (if c { 1int } else { 0int }) >= 0x10
}

/// Carry out of bit 7 when adding two bytes and an incoming carry.
pub open spec fn spec_carry_adc(a: u8, b: u8, c: bool) -> bool {
    a + b + (if c { 1int } else { 0int }) >= 0x100
}

/// Borrow into bit 3 when subtracting `b` and an incoming borrow from
/// `a`.
pub open spec fn spec_half_borrow_sbc(a: u8, b: u8, c: bool) -> bool {
    (a & 0xF) < (b & 0xF) + (if c { 1int } else { 0int })
}

/// Borrow out of bit 7 when subtracting `b` and an incoming borrow
/// from `a`.
pub open spec fn spec_borrow_sbc(a: u8, b: u8, c: bool) -> bool {
    a < b + (if c { 1int } else { 0int })
}

/// Half-carry of an 8-bit addition, from the operands.
pub fn get_half_carry(a: u8, b: u8) -> (r: bool)
    ensures
        r == spec_half_carry_add(a, b),
{
    ((a & 0xF) as u16) + ((b & 0xF) as u16) >= 0x10
}

/// Half-borrow of an 8-bit subtraction, from the operands.
pub fn get_half_carry_sub(a: u8, b: u8) -> (r: bool)
    ensures
        r == spec_half_borrow_sub(a, b),
{
    (a & 0xF) < (b & 0xF)
}

/// Carry of a 16-bit addition out of bit 11, from the operands.
pub fn get_half_carry_16_bit(a: u16, b: u16) -> (r: bool)
    ensures
        r == spec_half_carry_add16(a, b),
{
    ((a & 0xFFF) as u32) + ((b & 0xFFF) as u32) >= 0x1000
}

/// Carry of an 8-bit addition out of bit 7, from the operands.
pub fn get_carry(a: u8, b: u8) -> (r: bool)
    ensures
        r == spec_carry_add(a, b),
{
    (a as u16) + (b as u16) >= 0x100
}

/// Borrow of an 8-bit subtraction out of bit 7, from the operands.
pub fn get_carry_sub(a: u8, b: u8) -> (r: bool)
    ensures
        r == spec_borrow_sub(a, b),
{
    a < b
}

/// Carry of a 16-bit addition out of bit 15, from the operands.
pub fn get_carry_16_bit(a: u16, b: u16) -> (r: bool)
    ensures
        r == spec_carry_add16(a, b),
{
    (a as u32) + (b as u32) >= 0x10000
}

} // verus!
