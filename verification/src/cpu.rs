//! The execution engine: the fetch-decode-execute step function over
//! the register file, the lookup tables and the memory bus, with one
//! instruction handler per addressing-mode family.
//!
//! Every handler leaves PC at the correct next-fetch address itself:
//! sequential instructions advance PC by their own encoded length,
//! control-flow instructions set it to their target.  All 8-bit and
//! 16-bit arithmetic wraps silently; overflow is a flag-setting event,
//! never an error.

use vstd::prelude::*;

use crate::bit_operations;
use crate::bit_operations::spec_borrow_sbc;
use crate::bit_operations::spec_borrow_sub;
use crate::bit_operations::spec_carry_add;
use crate::bit_operations::spec_carry_add16;
use crate::bit_operations::spec_carry_adc;
use crate::bit_operations::spec_half_borrow_sbc;
use crate::bit_operations::spec_half_borrow_sub;
use crate::bit_operations::spec_half_carry_add;
use crate::bit_operations::spec_half_carry_add16;
use crate::bit_operations::spec_half_carry_adc;
use crate::instructions::cycle_spec;
use crate::instructions::opcode_spec;
use crate::instructions::CycleTable;
use crate::instructions::Instruction;
use crate::instructions::Optable;
use crate::instructions::RstAddress;
use crate::memory::Memory;
use crate::prefixed_instructions::lemma_prefixed_set_bit_in_range;
use crate::prefixed_instructions::prefixed_opcode_spec;
use crate::prefixed_instructions::PrefixedInstruction;
use crate::prefixed_instructions::PrefixedOptable;
use crate::registers::flag_bits;
use crate::registers::Flag;
use crate::registers::RegisterPair;
use crate::registers::Registers;
use crate::registers::RegisterU8;
use crate::registers::Target;

verus! {

/// The master clock rate of the modeled hardware, in Hz; the driving
/// loop paces real time against it.
pub const MASTER_CLOCK_SPEED: i32 = 4194304;

/// The engine's state machine: stepping begins in `Running`; `Halted`
/// suspends fetch-decode; `Stopped` marks an unrecoverable dispatch
/// failure.
#[derive(Copy, Clone, Debug, PartialEq, Eq, Structural)]
pub enum CpuState {
    Running,
    Halted,
    Stopped,
}

/// The two fatal opcode classifications, plus the internal
/// construction error of testing a condition on a flag that no
/// conditional instruction may test.
#[derive(Copy, Clone, Debug, PartialEq, Eq, Structural)]
pub enum StepErrorKind {
    /// The opcode byte is architecturally illegal on the real
    /// hardware: a defect of the running program or its loader.
    InvalidOpcode,
    /// The opcode byte is legal but this build has not modeled it
    /// yet: an engine coverage defect.
    UnimplementedOpcode,
    /// A conditional instruction was built over the N or H flag,
    /// which no condition code may test.
    InvalidConditionCode,
}

/// An unrecoverable dispatch failure, surfacing the failing opcode
/// value and the address it was fetched from.
#[derive(Copy, Clone, Debug, PartialEq, Eq, Structural)]
pub struct StepError {
    pub kind: StepErrorKind,
    pub opcode: u8,
    pub pc: u16,
}

/// The CPU core: the register file, the immutable lookup tables, the
/// running cycle counter and the engine state.
pub struct Cpu {
    pub registers: Registers,
    pub optable: Optable,
    pub cycles: u64,
    pub cycles_table: CycleTable,
    pub prefixed_optable: PrefixedOptable,
    pub state: CpuState,
    /// The global interrupt-enable flag; the DI instruction clears it.
    pub ime: bool,
}

/// The little-endian composition of two operand bytes: the byte at
/// the lower address is the low byte.
pub open spec fn le16(low: u8, high: u8) -> u16 {
    (high * 256 + low) as u16
}

/// The low byte of a 16-bit value.
pub open spec fn lo8(v: u16) -> u8 {
    (v % 256) as u8
}

/// The high byte of a 16-bit value.
pub open spec fn hi8(v: u16) -> u8 {
    (v / 256) as u8
}

/// The byte of `mem` at a 16-bit address.
pub open spec fn mem8(mem: Seq<u8>, addr: u16) -> u8 {
    mem[addr as int]
}

/// The target of a relative jump fetched at `pc`: the address of the
/// following instruction plus the displacement byte read as a signed
/// 8-bit value, modulo 65536.
pub open spec fn jr_target(pc: u16, e: u8) -> u16 {
    pc.wrapping_add(2).wrapping_add((e as i8) as u16)
}

/// The 16-bit value a `Target` selects: a register pair or one of the
/// bare counters.
pub open spec fn spec_target16(regs: Registers, t: Target) -> u16 {
    match t {
        Target::Pair(p) => regs.spec_pair(p),
        Target::Single(r) => regs.spec_u16(r),
    }
}

/// The cycle counter after charging `n` more cycles: saturating, so
/// the counter is monotonically non-decreasing.
pub open spec fn cycles_add(c: u64, n: u64) -> u64 {
    if c + n > u64::MAX {
        u64::MAX
    } else {
        (c + n) as u64
    }
}

/// Holds when a step changed nothing of the CPU but its register
/// file, which became `regs`.
pub open spec fn updates_registers(pre: Cpu, post: Cpu, regs: Registers) -> bool {
    post == (Cpu { registers: regs, ..pre })
}

// ---------------------------------------------------------------
// Register-only transitions
// ---------------------------------------------------------------

/// NOP: advance past the single opcode byte.
pub open spec fn spec_nop(regs: Registers) -> Registers {
    Registers { pc: regs.pc.wrapping_add(1), ..regs }
}

/// LD r1, r2: the destination takes the source's prior value; flags
/// and everything else are unaffected.
pub open spec fn spec_ld_r1_r2(regs: Registers, r1: RegisterU8, r2: RegisterU8) -> Registers {
    let regs1 = regs.spec_with_u8(r1, regs.spec_u8(r2));
    Registers { pc: regs1.pc.wrapping_add(1), ..regs1 }
}

/// CPL: complement the accumulator; set N and H; Z and C unaffected.
pub open spec fn spec_cpl(regs: Registers) -> Registers {
    let regs1 = Registers { a: !regs.a, ..regs };
    let regs2 = regs1.spec_with_f(flag_bits(regs.spec_z(), true, true, regs.spec_c()));
    Registers { pc: regs2.pc.wrapping_add(1), ..regs2 }
}

/// SCF: set the carry flag, clear N and H; Z unaffected.
pub open spec fn spec_scf(regs: Registers) -> Registers {
    let regs1 = regs.spec_with_f(flag_bits(regs.spec_z(), false, false, true));
    Registers { pc: regs1.pc.wrapping_add(1), ..regs1 }
}

/// CCF: complement the carry flag, clear N and H; Z unaffected.
pub open spec fn spec_ccf(regs: Registers) -> Registers {
    let regs1 = regs.spec_with_f(flag_bits(regs.spec_z(), false, false, !regs.spec_c()));
    Registers { pc: regs1.pc.wrapping_add(1), ..regs1 }
}

/// INC r: 8-bit increment with wraparound; Z from the result, N
/// cleared, H from the nibble partial sum; C untouched.
pub open spec fn spec_inc_r(regs: Registers, r: RegisterU8) -> Registers {
    let prev = regs.spec_u8(r);
    let result = prev.wrapping_add(1);
    let regs1 = regs.spec_with_u8(r, result);
    let regs2 = regs1.spec_with_f(
        flag_bits(result == 0, false, spec_half_carry_add(prev, 1), regs.spec_c()),
    );
    Registers { pc: regs2.pc.wrapping_add(1), ..regs2 }
}

/// DEC r: 8-bit decrement with wraparound; Z from the result, N set,
/// H from the nibble borrow; C untouched.
pub open spec fn spec_dec_r(regs: Registers, r: RegisterU8) -> Registers {
    let prev = regs.spec_u8(r);
    let result = prev.wrapping_sub(1);
    let regs1 = regs.spec_with_u8(r, result);
    let regs2 = regs1.spec_with_f(
        flag_bits(result == 0, true, spec_half_borrow_sub(prev, 1), regs.spec_c()),
    );
    Registers { pc: regs2.pc.wrapping_add(1), ..regs2 }
}

/// INC rr / INC SP: 16-bit increment with wraparound; no flags touched.
pub open spec fn spec_inc_nn(regs: Registers, t: Target) -> Registers {
    let regs1 = match t {
        Target::Pair(p) => regs.spec_with_pair(p, regs.spec_pair(p).wrapping_add(1)),
        Target::Single(r) => regs.spec_with_u16(r, regs.spec_u16(r).wrapping_add(1)),
    };
    Registers { pc: regs1.pc.wrapping_add(1), ..regs1 }
}

/// ADD A, b: 8-bit addition into the accumulator; Z from the result,
/// N cleared, H and C from the nibble and byte partial sums.
pub open spec fn spec_alu_add(regs: Registers, b: u8) -> Registers {
    let a = regs.a;
    let result = a.wrapping_add(b);
    Registers {
        a: result,
        f: flag_bits(result == 0, false, spec_half_carry_add(a, b), spec_carry_add(a, b)),
        ..regs
    }
}

/// ADC A, b: addition including the incoming carry; H and C cover the
/// carry as a third summand.
pub open spec fn spec_alu_adc(regs: Registers, b: u8) -> Registers {
    let a = regs.a;
    let c = regs.spec_c();
    let result = a.wrapping_add(b).wrapping_add(if c { 1u8 } else { 0u8 });
    Registers {
        a: result,
        f: flag_bits(result == 0, false, spec_half_carry_adc(a, b, c), spec_carry_adc(a, b, c)),
        ..regs
    }
}

/// SUB b: 8-bit subtraction from the accumulator; Z from the result,
/// N set, H and C from the nibble and byte borrows.
pub open spec fn spec_alu_sub(regs: Registers, b: u8) -> Registers {
    let a = regs.a;
    let result = a.wrapping_sub(b);
    Registers {
        a: result,
        f: flag_bits(result == 0, true, spec_half_borrow_sub(a, b), spec_borrow_sub(a, b)),
        ..regs
    }
}

/// SBC A, b: subtraction including the incoming borrow.
pub open spec fn spec_alu_sbc(regs: Registers, b: u8) -> Registers {
    let a = regs.a;
    let c = regs.spec_c();
    let result = a.wrapping_sub(b).wrapping_sub(if c { 1u8 } else { 0u8 });
    Registers {
        a: result,
        f: flag_bits(result == 0, true, spec_half_borrow_sbc(a, b, c), spec_borrow_sbc(a, b, c)),
        ..regs
    }
}

/// AND b: bitwise AND into the accumulator; Z from the result, N and
/// C cleared, H forced set.
pub open spec fn spec_alu_and(regs: Registers, b: u8) -> Registers {
    let result = regs.a & b;
    Registers { a: result, f: flag_bits(result == 0, false, true, false), ..regs }
}

/// OR b: bitwise OR into the accumulator; N, H and C cleared.
pub open spec fn spec_alu_or(regs: Registers, b: u8) -> Registers {
    let result = regs.a | b;
    Registers { a: result, f: flag_bits(result == 0, false, false, false), ..regs }
}

/// XOR b: bitwise XOR into the accumulator; N, H and C cleared.
pub open spec fn spec_alu_xor(regs: Registers, b: u8) -> Registers {
    let result = regs.a ^ b;
    Registers { a: result, f: flag_bits(result == 0, false, false, false), ..regs }
}

/// CP b: the subtraction computed for flags only; the accumulator
/// keeps its value.
pub open spec fn spec_alu_cp(regs: Registers, b: u8) -> Registers {
    let a = regs.a;
    let result = a.wrapping_sub(b);
    Registers {
        f: flag_bits(result == 0, true, spec_half_borrow_sub(a, b), spec_borrow_sub(a, b)),
        ..regs
    }
}

/// ADD HL, rr: 16-bit addition into HL; N cleared, H from bit 11, C
/// from bit 15; Z unaffected.
pub open spec fn spec_add_hl_rr(regs: Registers, rr: Target) -> Registers {
    let hl = regs.spec_pair(RegisterPair::HL);
    let v = spec_target16(regs, rr);
    let result = hl.wrapping_add(v);
    let regs1 = regs.spec_with_pair(RegisterPair::HL, result);
    let regs2 = regs1.spec_with_f(
        flag_bits(regs.spec_z(), false, spec_half_carry_add16(hl, v), spec_carry_add16(hl, v)),
    );
    Registers { pc: regs2.pc.wrapping_add(1), ..regs2 }
}

/// RRA: rotate the accumulator right through the carry; the previous
/// carry enters bit 7, the outgoing bit 0 becomes the new carry;
/// Z, N and H cleared.
pub open spec fn spec_rra(regs: Registers) -> Registers {
    let a = regs.a;
    let result = (a >> 1) | (if regs.spec_c() { 0x80u8 } else { 0u8 });
    let regs1 = Registers { a: result, ..regs };
    let regs2 = regs1.spec_with_f(flag_bits(false, false, false, a & 1 != 0));
    Registers { pc: regs2.pc.wrapping_add(1), ..regs2 }
}

/// RLA: rotate the accumulator left through the carry; the previous
/// carry enters bit 0, the outgoing bit 7 becomes the new carry;
/// Z, N and H cleared.
pub open spec fn spec_rla(regs: Registers) -> Registers {
    let a = regs.a;
    let result = (a << 1) | (if regs.spec_c() { 1u8 } else { 0u8 });
    let regs1 = Registers { a: result, ..regs };
    let regs2 = regs1.spec_with_f(flag_bits(false, false, false, a & 0x80 != 0));
    Registers { pc: regs2.pc.wrapping_add(1), ..regs2 }
}

/// RLCA: rotate the accumulator left circularly; the outgoing bit 7
/// becomes both bit 0 and the new carry; Z, N and H cleared.
pub open spec fn spec_rlca(regs: Registers) -> Registers {
    let a = regs.a;
    let result = (a << 1) | (a >> 7);
    let regs1 = Registers { a: result, ..regs };
    let regs2 = regs1.spec_with_f(flag_bits(false, false, false, a & 0x80 != 0));
    Registers { pc: regs2.pc.wrapping_add(1), ..regs2 }
}

/// DI: advance past the opcode; the interrupt-enable flag is cleared
/// at the engine level.
pub open spec fn spec_di(regs: Registers) -> Registers {
    Registers { pc: regs.pc.wrapping_add(1), ..regs }
}

/// HALT: advance past the opcode; the engine enters the `Halted`
/// state.
pub open spec fn spec_halt(regs: Registers) -> Registers {
    Registers { pc: regs.pc.wrapping_add(1), ..regs }
}

/// STOP: advance past the two encoded bytes.
pub open spec fn spec_stop(regs: Registers) -> Registers {
    Registers { pc: regs.pc.wrapping_add(2), ..regs }
}

// ---------------------------------------------------------------
// Transitions that read or write memory
// ---------------------------------------------------------------

/// LD r, n: load the immediate operand byte into a register.
pub open spec fn spec_ld_r_n(regs: Registers, mem: Seq<u8>, r: RegisterU8) -> Registers {
    let imm = mem8(mem, regs.pc.wrapping_add(1));
    let regs1 = regs.spec_with_u8(r, imm);
    Registers { pc: regs1.pc.wrapping_add(2), ..regs1 }
}

/// LD (rr), A: store the accumulator through a register pair.
pub open spec fn spec_ld_rr_a(regs: Registers, mem: Seq<u8>, rr: RegisterPair) -> (
    Registers,
    Seq<u8>,
) {
    let mem1 = mem.update(regs.spec_pair(rr) as int, regs.a);
    (Registers { pc: regs.pc.wrapping_add(1), ..regs }, mem1)
}

/// LD (nn), A: store the accumulator at the little-endian immediate
/// address.
pub open spec fn spec_ld_nn_a(regs: Registers, mem: Seq<u8>) -> (Registers, Seq<u8>) {
    let addr = le16(mem8(mem, regs.pc.wrapping_add(1)), mem8(mem, regs.pc.wrapping_add(2)));
    let mem1 = mem.update(addr as int, regs.a);
    (Registers { pc: regs.pc.wrapping_add(3), ..regs }, mem1)
}

/// LDH (n), r: store a register into the high page, at 0xFF00 plus
/// the immediate offset.
pub open spec fn spec_ldh_n_r(regs: Registers, mem: Seq<u8>, r: RegisterU8) -> (
    Registers,
    Seq<u8>,
) {
    let addr = le16(mem8(mem, regs.pc.wrapping_add(1)), 0xFF);
    let mem1 = mem.update(addr as int, regs.spec_u8(r));
    (Registers { pc: regs.pc.wrapping_add(2), ..regs }, mem1)
}

/// LDH A, (n): load the accumulator from the high page, at 0xFF00
/// plus the immediate offset.
pub open spec fn spec_ldh_a_n(regs: Registers, mem: Seq<u8>) -> Registers {
    let addr = le16(mem8(mem, regs.pc.wrapping_add(1)), 0xFF);
    Registers { a: mem8(mem, addr), pc: regs.pc.wrapping_add(2), ..regs }
}

/// LD r, (HL): load a register from the byte HL addresses.
pub open spec fn spec_ld_r_from_mem_hl(regs: Registers, mem: Seq<u8>, r: RegisterU8) -> Registers {
    let v = mem8(mem, regs.spec_pair(RegisterPair::HL));
    let regs1 = regs.spec_with_u8(r, v);
    Registers { pc: regs1.pc.wrapping_add(1), ..regs1 }
}

/// LD (HL), r: store a register at the byte HL addresses.
pub open spec fn spec_ld_mem_hl_from_r(regs: Registers, mem: Seq<u8>, r: RegisterU8) -> (
    Registers,
    Seq<u8>,
) {
    let mem1 = mem.update(regs.spec_pair(RegisterPair::HL) as int, regs.spec_u8(r));
    (Registers { pc: regs.pc.wrapping_add(1), ..regs }, mem1)
}

/// LD (HL-), A: store the accumulator through HL, then decrement HL;
/// no ALU flags touched.
pub open spec fn spec_ld_hld_a(regs: Registers, mem: Seq<u8>) -> (Registers, Seq<u8>) {
    let hl = regs.spec_pair(RegisterPair::HL);
    let mem1 = mem.update(hl as int, regs.a);
    let regs1 = regs.spec_with_pair(RegisterPair::HL, hl.wrapping_sub(1));
    (Registers { pc: regs1.pc.wrapping_add(1), ..regs1 }, mem1)
}

/// LD A, (HL-): load the accumulator through HL, then decrement HL.
pub open spec fn spec_ld_a_hld(regs: Registers, mem: Seq<u8>) -> Registers {
    let hl = regs.spec_pair(RegisterPair::HL);
    let regs1 = Registers { a: mem8(mem, hl), ..regs };
    let regs2 = regs1.spec_with_pair(RegisterPair::HL, hl.wrapping_sub(1));
    Registers { pc: regs2.pc.wrapping_add(1), ..regs2 }
}

/// LD A, (HL+): load the accumulator through HL, then increment HL.
pub open spec fn spec_ld_a_hli(regs: Registers, mem: Seq<u8>) -> Registers {
    let hl = regs.spec_pair(RegisterPair::HL);
    let regs1 = Registers { a: mem8(mem, hl), ..regs };
    let regs2 = regs1.spec_with_pair(RegisterPair::HL, hl.wrapping_add(1));
    Registers { pc: regs2.pc.wrapping_add(1), ..regs2 }
}

/// LD rr, nn / LD SP, nn: load a 16-bit destination from the
/// little-endian immediate operand.
pub open spec fn spec_ld_n_nn(regs: Registers, mem: Seq<u8>, t: Target) -> Registers {
    let v = le16(mem8(mem, regs.pc.wrapping_add(1)), mem8(mem, regs.pc.wrapping_add(2)));
    let regs1 = match t {
        Target::Pair(p) => regs.spec_with_pair(p, v),
        Target::Single(r) => regs.spec_with_u16(r, v),
    };
    Registers { pc: regs.pc.wrapping_add(3), ..regs1 }
}

/// LD (nn), SP: store the stack pointer, low byte first, at the
/// little-endian immediate address.
pub open spec fn spec_ld_nn_sp(regs: Registers, mem: Seq<u8>) -> (Registers, Seq<u8>) {
    let nn = le16(mem8(mem, regs.pc.wrapping_add(1)), mem8(mem, regs.pc.wrapping_add(2)));
    let mem1 = mem.update(nn as int, lo8(regs.sp)).update(
        nn.wrapping_add(1) as int,
        hi8(regs.sp),
    );
    (Registers { pc: regs.pc.wrapping_add(3), ..regs }, mem1)
}

/// LD (HL), n: store the immediate operand byte at the byte HL
/// addresses.
pub open spec fn spec_ld_hl_n(regs: Registers, mem: Seq<u8>) -> (Registers, Seq<u8>) {
    let n = mem8(mem, regs.pc.wrapping_add(1));
    let mem1 = mem.update(regs.spec_pair(RegisterPair::HL) as int, n);
    (Registers { pc: regs.pc.wrapping_add(2), ..regs }, mem1)
}

// ---------------------------------------------------------------
// Control-flow transitions
// ---------------------------------------------------------------

/// CALL nn: push the address of the following instruction (high byte
/// at SP-1, low byte at SP-2), then jump to the immediate target.
pub open spec fn spec_call(regs: Registers, mem: Seq<u8>) -> (Registers, Seq<u8>) {
    let target = le16(mem8(mem, regs.pc.wrapping_add(1)), mem8(mem, regs.pc.wrapping_add(2)));
    let ret = regs.pc.wrapping_add(3);
    let mem1 = mem.update(regs.sp.wrapping_sub(1) as int, hi8(ret)).update(
        regs.sp.wrapping_sub(2) as int,
        lo8(ret),
    );
    (Registers { sp: regs.sp.wrapping_sub(2), pc: target, ..regs }, mem1)
}

/// RST: push the address of the following instruction exactly as CALL
/// does, then jump to the fixed restart vector.
pub open spec fn spec_rst(regs: Registers, mem: Seq<u8>, vector: RstAddress) -> (
    Registers,
    Seq<u8>,
) {
    let ret = regs.pc.wrapping_add(1);
    let mem1 = mem.update(regs.sp.wrapping_sub(1) as int, hi8(ret)).update(
        regs.sp.wrapping_sub(2) as int,
        lo8(ret),
    );
    (Registers { sp: regs.sp.wrapping_sub(2), pc: vector.spec_address(), ..regs }, mem1)
}

/// PUSH rr: store the pair's high byte at SP-1 and its low byte at
/// SP-2, decrementing SP by 2 in total.
pub open spec fn spec_push_rr(regs: Registers, mem: Seq<u8>, rr: RegisterPair) -> (
    Registers,
    Seq<u8>,
) {
    let v = regs.spec_pair(rr);
    let mem1 = mem.update(regs.sp.wrapping_sub(1) as int, hi8(v)).update(
        regs.sp.wrapping_sub(2) as int,
        lo8(v),
    );
    (
        Registers { sp: regs.sp.wrapping_sub(2), pc: regs.pc.wrapping_add(1), ..regs },
        mem1,
    )
}

/// POP rr: read the low byte at SP and the high byte at SP+1,
/// incrementing SP by 2 in total, restoring the pair in the same
/// orientation PUSH stored it.
pub open spec fn spec_pop_rr(regs: Registers, mem: Seq<u8>, rr: RegisterPair) -> Registers {
    let v = le16(mem8(mem, regs.sp), mem8(mem, regs.sp.wrapping_add(1)));
    let regs1 = regs.spec_with_pair(rr, v);
    Registers { sp: regs1.sp.wrapping_add(2), pc: regs1.pc.wrapping_add(1), ..regs1 }
}

/// RET: pop the return address and jump to it, mirroring CALL's push
/// order exactly.
pub open spec fn spec_ret(regs: Registers, mem: Seq<u8>) -> Registers {
    let target = le16(mem8(mem, regs.sp), mem8(mem, regs.sp.wrapping_add(1)));
    Registers { sp: regs.sp.wrapping_add(2), pc: target, ..regs }
}

/// JP nn: jump to the little-endian immediate target.
pub open spec fn spec_jp_nn(regs: Registers, mem: Seq<u8>) -> Registers {
    let target = le16(mem8(mem, regs.pc.wrapping_add(1)), mem8(mem, regs.pc.wrapping_add(2)));
    Registers { pc: target, ..regs }
}

/// JP cc, nn: jump when the tested flag matches the wanted polarity;
/// the not-taken path still consumes the operand bytes.
pub open spec fn spec_jp_cc_nn(regs: Registers, mem: Seq<u8>, cc: Flag, set: bool) -> Registers {
    let target = le16(mem8(mem, regs.pc.wrapping_add(1)), mem8(mem, regs.pc.wrapping_add(2)));
    if regs.spec_flag(cc) == set {
        Registers { pc: target, ..regs }
    } else {
        Registers { pc: regs.pc.wrapping_add(3), ..regs }
    }
}

/// JR e: relative jump by the signed displacement byte.
pub open spec fn spec_jr_e(regs: Registers, mem: Seq<u8>) -> Registers {
    Registers { pc: jr_target(regs.pc, mem8(mem, regs.pc.wrapping_add(1))), ..regs }
}

/// JR cc, e: relative jump when the tested flag matches the wanted
/// polarity; the not-taken path advances PC by exactly 2.
pub open spec fn spec_jr_cc_e(regs: Registers, mem: Seq<u8>, cc: Flag, set: bool) -> Registers {
    if regs.spec_flag(cc) == set {
        Registers { pc: jr_target(regs.pc, mem8(mem, regs.pc.wrapping_add(1))), ..regs }
    } else {
        Registers { pc: regs.pc.wrapping_add(2), ..regs }
    }
}

// ---------------------------------------------------------------
// Prefixed-table transitions
// ---------------------------------------------------------------

/// RLC r (prefixed): rotate a register left circularly; Z from the
/// result, N and H cleared, C takes the outgoing bit 7.
pub open spec fn spec_cb_rlc_r(regs: Registers, r: RegisterU8) -> Registers {
    let v = regs.spec_u8(r);
    let result = (v << 1) | (v >> 7);
    let regs1 = regs.spec_with_u8(r, result);
    let regs2 = regs1.spec_with_f(flag_bits(result == 0, false, false, v & 0x80 != 0));
    Registers { pc: regs2.pc.wrapping_add(2), ..regs2 }
}

/// RR r (prefixed): rotate a register right through the carry; Z from
/// the result, N and H cleared, C takes the outgoing bit 0.
pub open spec fn spec_cb_rr_r(regs: Registers, r: RegisterU8) -> Registers {
    let v = regs.spec_u8(r);
    let result = (v >> 1) | (if regs.spec_c() { 0x80u8 } else { 0u8 });
    let regs1 = regs.spec_with_u8(r, result);
    let regs2 = regs1.spec_with_f(flag_bits(result == 0, false, false, v & 1 != 0));
    Registers { pc: regs2.pc.wrapping_add(2), ..regs2 }
}

/// SRL r (prefixed): shift a register right logically; Z from the
/// result, N and H cleared, C takes the outgoing bit 0.
pub open spec fn spec_cb_srl_r(regs: Registers, r: RegisterU8) -> Registers {
    let v = regs.spec_u8(r);
    let result = v >> 1;
    let regs1 = regs.spec_with_u8(r, result);
    let regs2 = regs1.spec_with_f(flag_bits(result == 0, false, false, v & 1 != 0));
    Registers { pc: regs2.pc.wrapping_add(2), ..regs2 }
}

/// SET b, (HL) (prefixed): set one bit of the byte HL addresses; no
/// flags touched.
pub open spec fn spec_cb_set_b_hl(regs: Registers, mem: Seq<u8>, b: usize) -> (
    Registers,
    Seq<u8>,
) {
    let hl = regs.spec_pair(RegisterPair::HL);
    let mem1 = mem.update(hl as int, mem8(mem, hl) | (1u8 << b));
    (Registers { pc: regs.pc.wrapping_add(2), ..regs }, mem1)
}

impl Cpu {
    /// The lookup tables hold their full 256 classified slots.
    pub open spec fn wf(self) -> bool {
        &&& self.optable.wf()
        &&& self.cycles_table.wf()
        &&& self.prefixed_optable.wf()
    }

    /// A fresh core: zeroed registers, the three tables built, cycle
    /// counter zero, running, interrupts disabled.
    pub fn new() -> (cpu: Cpu)
        ensures
            cpu.wf(),
            cpu.registers == (Registers {
                a: 0,
                b: 0,
                c: 0,
                d: 0,
                e: 0,
                f: 0,
                h: 0,
                l: 0,
                sp: 0,
                pc: 0,
            }),
            cpu.cycles == 0,
            cpu.state == CpuState::Running,
            cpu.ime == false,
    {
        Cpu {
            registers: Registers::new(),
            optable: Optable::new(),
            cycles: 0,
            cycles_table: CycleTable::new(),
            prefixed_optable: PrefixedOptable::new(),
            state: CpuState::Running,
            ime: false,
        }
    }

    /// Whether an 8-bit value wrapped past the nibble boundary between
    /// a prior and a resulting value: true exactly when the low nibble
    /// of the result fell below the low nibble it started from.
    pub fn get_half_carry(&self, prev: u8, result: u8) -> (r: bool)
        ensures
            r == ((result & 0xF) < (prev & 0xF)),
    {
        (result & 0xF) < (prev & 0xF)
    }

    /// Whether an 8-bit value wrapped past the byte boundary between a
    /// prior and a resulting value: true exactly when the result fell
    /// below the value it started from.
    pub fn get_carry(&self, prev: u8, result: u8) -> (r: bool)
        ensures
            r == (result < prev),
    {
        result < prev
    }

    /// Charges `n` cycles to the running counter, saturating at the
    /// counter's maximum.
    fn add_cycles(&mut self, n: u64)
        ensures
            *final(self) == (Cpu { cycles: cycles_add(old(self).cycles, n), ..*old(self) }),
    {
        if n <= u64::MAX - self.cycles {
            self.cycles = self.cycles + n;
        } else {
            self.cycles = u64::MAX;
        }
    }

    /// NOP.
    pub fn nop(&mut self)
        ensures
            updates_registers(*old(self), *final(self), spec_nop(old(self).registers)),
    {
        self.registers.pc = self.registers.pc.wrapping_add(1);
    }

    /// LD r1, r2: register-to-register load.
    pub fn ld_r1_r2(&mut self, r1: RegisterU8, r2: RegisterU8)
        ensures
            updates_registers(
                *old(self),
                *final(self),
                spec_ld_r1_r2(old(self).registers, r1, r2),
            ),
    {
        let v = self.registers.get_u8(r2);
        self.registers.set_u8(r1, v);
        self.registers.pc = self.registers.pc.wrapping_add(1);
    }

    /// CPL: complement the accumulator; N and H set, Z and C kept.
    pub fn cpl(&mut self)
        ensures
            updates_registers(*old(self), *final(self), spec_cpl(old(self).registers)),
    {
        let z = self.registers.get_z_flag();
        let c = self.registers.get_c_flag();
        self.registers.a = !self.registers.a;
        self.registers.set_flags(z, true, true, c);
        self.registers.pc = self.registers.pc.wrapping_add(1);
    }

    /// SCF: set the carry flag.
    pub fn scf(&mut self)
        ensures
            updates_registers(*old(self), *final(self), spec_scf(old(self).registers)),
    {
        let z = self.registers.get_z_flag();
        self.registers.set_flags(z, false, false, true);
        self.registers.pc = self.registers.pc.wrapping_add(1);
    }

    /// CCF: complement the carry flag.
    pub fn ccf(&mut self)
        ensures
            updates_registers(*old(self), *final(self), spec_ccf(old(self).registers)),
    {
        let z = self.registers.get_z_flag();
        let c = self.registers.get_c_flag();
        self.registers.set_flags(z, false, false, !c);
        self.registers.pc = self.registers.pc.wrapping_add(1);
    }

    /// INC r: 8-bit increment; C is not touched.
    pub fn inc_r(&mut self, r: RegisterU8)
        ensures
            updates_registers(*old(self), *final(self), spec_inc_r(old(self).registers, r)),
    {
        let prev = self.registers.get_u8(r);
        let result = prev.wrapping_add(1);
        let c = self.registers.get_c_flag();
        let half = bit_operations::get_half_carry(prev, 1);
        self.registers.set_u8(r, result);
        self.registers.set_flags(result == 0, false, half, c);
        self.registers.pc = self.registers.pc.wrapping_add(1);
    }

    /// DEC r: 8-bit decrement; C is not touched.
    pub fn dec_n(&mut self, r: RegisterU8)
        ensures
            updates_registers(*old(self), *final(self), spec_dec_r(old(self).registers, r)),
    {
        let prev = self.registers.get_u8(r);
        let result = prev.wrapping_sub(1);
        let c = self.registers.get_c_flag();
        let half = bit_operations::get_half_carry_sub(prev, 1);
        self.registers.set_u8(r, result);
        self.registers.set_flags(result == 0, true, half, c);
        self.registers.pc = self.registers.pc.wrapping_add(1);
    }

    /// INC rr / INC SP: 16-bit increment; no flags touched.
    pub fn inc_nn(&mut self, r1: Target)
        ensures
            updates_registers(*old(self), *final(self), spec_inc_nn(old(self).registers, r1)),
    {
        match r1 {
            Target::Pair(p) => {
                let v = self.registers.get_pair(p);
                self.registers.set_pair(p, v.wrapping_add(1));
            },
            Target::Single(r) => {
                let v = self.registers.get_u16(r);
                self.registers.set_u16(r, v.wrapping_add(1));
            },
        }
        self.registers.pc = self.registers.pc.wrapping_add(1);
    }

    /// ADD A, r.
    pub fn add_r(&mut self, r: RegisterU8)
        ensures
            updates_registers(
                *old(self),
                *final(self),
                ({
                    let regs1 = spec_alu_add(old(self).registers, old(self).registers.spec_u8(r));
                    Registers { pc: regs1.pc.wrapping_add(1), ..regs1 }
                }),
            ),
    {
        let value = self.registers.get_u8(r);
        self.alu_add(value);
        self.registers.pc = self.registers.pc.wrapping_add(1);
    }

    /// ADC A, r: addition including the incoming carry.
    pub fn adc_r(&mut self, r: RegisterU8)
        ensures
            updates_registers(
                *old(self),
                *final(self),
                ({
                    let regs1 = spec_alu_adc(old(self).registers, old(self).registers.spec_u8(r));
                    Registers { pc: regs1.pc.wrapping_add(1), ..regs1 }
                }),
            ),
    {
        let value = self.registers.get_u8(r);
        self.alu_adc(value);
        self.registers.pc = self.registers.pc.wrapping_add(1);
    }

    /// SUB r.
    pub fn sub_r(&mut self, r: RegisterU8)
        ensures
            updates_registers(
                *old(self),
                *final(self),
                ({
                    let regs1 = spec_alu_sub(old(self).registers, old(self).registers.spec_u8(r));
                    Registers { pc: regs1.pc.wrapping_add(1), ..regs1 }
                }),
            ),
    {
        let value = self.registers.get_u8(r);
        self.alu_sub(value);
        self.registers.pc = self.registers.pc.wrapping_add(1);
    }

    /// SBC A, r: subtraction including the incoming borrow.
    pub fn sbc_r(&mut self, r: RegisterU8)
        ensures
            updates_registers(
                *old(self),
                *final(self),
                ({
                    let regs1 = spec_alu_sbc(old(self).registers, old(self).registers.spec_u8(r));
                    Registers { pc: regs1.pc.wrapping_add(1), ..regs1 }
                }),
            ),
    {
        let value = self.registers.get_u8(r);
        self.alu_sbc(value);
        self.registers.pc = self.registers.pc.wrapping_add(1);
    }

    /// XOR r.
    pub fn xor_r(&mut self, r: RegisterU8)
        ensures
            updates_registers(
                *old(self),
                *final(self),
                ({
                    let regs1 = spec_alu_xor(old(self).registers, old(self).registers.spec_u8(r));
                    Registers { pc: regs1.pc.wrapping_add(1), ..regs1 }
                }),
            ),
    {
        let value = self.registers.get_u8(r);
        self.alu_xor(value);
        self.registers.pc = self.registers.pc.wrapping_add(1);
    }

    /// AND r.
    pub fn and_r(&mut self, r: RegisterU8)
        ensures
            updates_registers(
                *old(self),
                *final(self),
                ({
                    let regs1 = spec_alu_and(old(self).registers, old(self).registers.spec_u8(r));
                    Registers { pc: regs1.pc.wrapping_add(1), ..regs1 }
                }),
            ),
    {
        let value = self.registers.get_u8(r);
        self.alu_and(value);
        self.registers.pc = self.registers.pc.wrapping_add(1);
    }

    /// OR r.
    pub fn or_r(&mut self, r: RegisterU8)
        ensures
            updates_registers(
                *old(self),
                *final(self),
                ({
                    let regs1 = spec_alu_or(old(self).registers, old(self).registers.spec_u8(r));
                    Registers { pc: regs1.pc.wrapping_add(1), ..regs1 }
                }),
            ),
    {
        let value = self.registers.get_u8(r);
        self.alu_or(value);
        self.registers.pc = self.registers.pc.wrapping_add(1);
    }

    /// CP r: compare, discarding the numeric result.
    pub fn cp_r(&mut self, r: RegisterU8)
        ensures
            updates_registers(
                *old(self),
                *final(self),
                ({
                    let regs1 = spec_alu_cp(old(self).registers, old(self).registers.spec_u8(r));
                    Registers { pc: regs1.pc.wrapping_add(1), ..regs1 }
                }),
            ),
    {
        let value = self.registers.get_u8(r);
        self.alu_cp(value);
        self.registers.pc = self.registers.pc.wrapping_add(1);
    }

    /// ADD HL, rr: 16-bit addition into HL; Z unaffected.
    pub fn add_hl_rr(&mut self, rr: Target)
        ensures
            updates_registers(*old(self), *final(self), spec_add_hl_rr(old(self).registers, rr)),
    {
        let hl = self.registers.get_pair(RegisterPair::HL);
        let v = match rr {
            Target::Pair(p) => self.registers.get_pair(p),
            Target::Single(r) => self.registers.get_u16(r),
        };
        let result = hl.wrapping_add(v);
        let z = self.registers.get_z_flag();
        let half = bit_operations::get_half_carry_16_bit(hl, v);
        let carry = bit_operations::get_carry_16_bit(hl, v);
        self.registers.set_pair(RegisterPair::HL, result);
        self.registers.set_flags(z, false, half, carry);
        self.registers.pc = self.registers.pc.wrapping_add(1);
    }

    /// RRA: rotate the accumulator right through the carry.
    pub fn rra(&mut self)
        ensures
            updates_registers(*old(self), *final(self), spec_rra(old(self).registers)),
    {
        let a = self.registers.a;
        let carry_in = self.registers.get_c_flag();
        let result = (a >> 1) | (if carry_in { 0x80u8 } else { 0u8 });
        self.registers.a = result;
        self.registers.set_flags(false, false, false, a & 1 != 0);
        self.registers.pc = self.registers.pc.wrapping_add(1);
    }

    /// RLA: rotate the accumulator left through the carry.
    pub fn rla(&mut self)
        ensures
            updates_registers(*old(self), *final(self), spec_rla(old(self).registers)),
    {
        let a = self.registers.a;
        let carry_in = self.registers.get_c_flag();
        let result = (a << 1) | (if carry_in { 1u8 } else { 0u8 });
        self.registers.a = result;
        self.registers.set_flags(false, false, false, a & 0x80 != 0);
        self.registers.pc = self.registers.pc.wrapping_add(1);
    }

    /// RLCA: rotate the accumulator left circularly.
    pub fn rlca(&mut self)
        ensures
            updates_registers(*old(self), *final(self), spec_rlca(old(self).registers)),
    {
        let a = self.registers.a;
        let result = (a << 1) | (a >> 7);
        self.registers.a = result;
        self.registers.set_flags(false, false, false, a & 0x80 != 0);
        self.registers.pc = self.registers.pc.wrapping_add(1);
    }

    /// DI: clear the global interrupt-enable flag.
    pub fn di(&mut self)
        ensures
            *final(self) == (Cpu {
                registers: spec_di(old(self).registers),
                ime: false,
                ..*old(self)
            }),
    {
        self.ime = false;
        self.registers.pc = self.registers.pc.wrapping_add(1);
    }

    /// HALT: enter the `Halted` state; fetch-decode resumes only when
    /// interrupts are enabled and one is pending.
    pub fn halt(&mut self)
        ensures
            *final(self) == (Cpu {
                registers: spec_halt(old(self).registers),
                state: CpuState::Halted,
                ..*old(self)
            }),
    {
        self.state = CpuState::Halted;
        self.registers.pc = self.registers.pc.wrapping_add(1);
    }

    /// STOP: advance past the two encoded bytes.
    pub fn stop(&mut self)
        ensures
            updates_registers(*old(self), *final(self), spec_stop(old(self).registers)),
    {
        self.registers.pc = self.registers.pc.wrapping_add(2);
    }

    /// LD r, n: load the immediate operand byte into a register.
    pub fn ld_r_n(&mut self, memory: &Memory, r: RegisterU8)
        requires
            memory.wf(),
        ensures
            updates_registers(
                *old(self),
                *final(self),
                spec_ld_r_n(old(self).registers, memory@, r),
            ),
    {
        let pc = self.registers.pc;
        let v = memory.read(pc.wrapping_add(1));
        self.registers.set_u8(r, v);
        self.registers.pc = pc.wrapping_add(2);
    }

    /// LD nn, n: the same immediate load, under the table's other
    /// spelling.
    pub fn ld_nn_n(&mut self, memory: &Memory, nn: RegisterU8)
        requires
            memory.wf(),
        ensures
            updates_registers(
                *old(self),
                *final(self),
                spec_ld_r_n(old(self).registers, memory@, nn),
            ),
    {
        self.ld_r_n(memory, nn);
    }

    /// LD (rr), A: store the accumulator through a register pair.
    pub fn ld_rr_a(&mut self, memory: &mut Memory, r: RegisterPair)
        requires
            old(memory).wf(),
        ensures
            updates_registers(
                *old(self),
                *final(self),
                spec_ld_rr_a(old(self).registers, old(memory)@, r).0,
            ),
            final(memory)@ == spec_ld_rr_a(old(self).registers, old(memory)@, r).1,
    {
        let addr = self.registers.get_pair(r);
        memory.write(addr, self.registers.a);
        self.registers.pc = self.registers.pc.wrapping_add(1);
    }

    /// LD (nn), A: store the accumulator at the immediate address.
    pub fn ld_nn_a(&mut self, memory: &mut Memory)
        requires
            old(memory).wf(),
        ensures
            updates_registers(
                *old(self),
                *final(self),
                spec_ld_nn_a(old(self).registers, old(memory)@).0,
            ),
            final(memory)@ == spec_ld_nn_a(old(self).registers, old(memory)@).1,
    {
        let pc = self.registers.pc;
        let low = memory.read(pc.wrapping_add(1));
        let high = memory.read(pc.wrapping_add(2));
        memory.write((high as u16) * 256 + (low as u16), self.registers.a);
        self.registers.pc = pc.wrapping_add(3);
    }

    /// LDH (n), r: store a register into the high page.
    pub fn ldh_n_r(&mut self, memory: &mut Memory, r: RegisterU8)
        requires
            old(memory).wf(),
        ensures
            updates_registers(
                *old(self),
                *final(self),
                spec_ldh_n_r(old(self).registers, old(memory)@, r).0,
            ),
            final(memory)@ == spec_ldh_n_r(old(self).registers, old(memory)@, r).1,
    {
        let pc = self.registers.pc;
        let offset = memory.read(pc.wrapping_add(1));
        let destination_address: u16 = 0xFF00 + (offset as u16);
        let v = self.registers.get_u8(r);
        memory.write(destination_address, v);
        self.registers.pc = pc.wrapping_add(2);
    }

    /// LDH A, (n): load the accumulator from the high page.
    pub fn ldh_a_n(&mut self, memory: &Memory)
        requires
            memory.wf(),
        ensures
            updates_registers(*old(self), *final(self), spec_ldh_a_n(old(self).registers, memory@)),
    {
        let pc = self.registers.pc;
        let offset = memory.read(pc.wrapping_add(1));
        let address: u16 = 0xFF00 + (offset as u16);
        self.registers.a = memory.read(address);
        self.registers.pc = pc.wrapping_add(2);
    }

    /// LD r, (HL): load a register from the byte HL addresses.
    pub fn ld_r_from_mem_hl(&mut self, memory: &Memory, r: RegisterU8)
        requires
            memory.wf(),
        ensures
            updates_registers(
                *old(self),
                *final(self),
                spec_ld_r_from_mem_hl(old(self).registers, memory@, r),
            ),
    {
        let value = memory.read(self.registers.get_pair(RegisterPair::HL));
        self.registers.set_u8(r, value);
        self.registers.pc = self.registers.pc.wrapping_add(1);
    }

    /// LD (HL), r: store a register at the byte HL addresses.
    pub fn ld_mem_hl_from_r(&mut self, memory: &mut Memory, r: RegisterU8)
        requires
            old(memory).wf(),
        ensures
            updates_registers(
                *old(self),
                *final(self),
                spec_ld_mem_hl_from_r(old(self).registers, old(memory)@, r).0,
            ),
            final(memory)@ == spec_ld_mem_hl_from_r(old(self).registers, old(memory)@, r).1,
    {
        let addr = self.registers.get_pair(RegisterPair::HL);
        let v = self.registers.get_u8(r);
        memory.write(addr, v);
        self.registers.pc = self.registers.pc.wrapping_add(1);
    }

    /// LD (HL-), A: store the accumulator through HL, then decrement
    /// HL; no ALU flags touched.
    pub fn ld_hld_a(&mut self, memory: &mut Memory)
        requires
            old(memory).wf(),
        ensures
            updates_registers(
                *old(self),
                *final(self),
                spec_ld_hld_a(old(self).registers, old(memory)@).0,
            ),
            final(memory)@ == spec_ld_hld_a(old(self).registers, old(memory)@).1,
    {
        let hl = self.registers.get_pair(RegisterPair::HL);
        memory.write(hl, self.registers.a);
        self.registers.set_pair(RegisterPair::HL, hl.wrapping_sub(1));
        self.registers.pc = self.registers.pc.wrapping_add(1);
    }

    /// LD A, (HL-): load the accumulator through HL, then decrement
    /// HL.
    pub fn ld_a_hld(&mut self, memory: &Memory)
        requires
            memory.wf(),
        ensures
            updates_registers(*old(self), *final(self), spec_ld_a_hld(old(self).registers, memory@)),
    {
        let hl = self.registers.get_pair(RegisterPair::HL);
        self.registers.a = memory.read(hl);
        self.registers.set_pair(RegisterPair::HL, hl.wrapping_sub(1));
        self.registers.pc = self.registers.pc.wrapping_add(1);
    }

    /// LD A, (HL+): load the accumulator through HL, then increment
    /// HL.
    pub fn ld_a_hli(&mut self, memory: &Memory)
        requires
            memory.wf(),
        ensures
            updates_registers(*old(self), *final(self), spec_ld_a_hli(old(self).registers, memory@)),
    {
        let hl = self.registers.get_pair(RegisterPair::HL);
        self.registers.a = memory.read(hl);
        self.registers.set_pair(RegisterPair::HL, hl.wrapping_add(1));
        self.registers.pc = self.registers.pc.wrapping_add(1);
    }

    /// LD rr, nn / LD SP, nn: load a 16-bit destination from the
    /// little-endian immediate operand.
    pub fn ld_n_nn(&mut self, memory: &Memory, n: Target)
        requires
            memory.wf(),
        ensures
            updates_registers(
                *old(self),
                *final(self),
                spec_ld_n_nn(old(self).registers, memory@, n),
            ),
    {
        let pc = self.registers.pc;
        let low = memory.read(pc.wrapping_add(1));
        let high = memory.read(pc.wrapping_add(2));
        let v = (high as u16) * 256 + (low as u16);
        match n {
            Target::Pair(p) => self.registers.set_pair(p, v),
            Target::Single(r) => self.registers.set_u16(r, v),
        }
        self.registers.pc = pc.wrapping_add(3);
    }

    /// LD (nn), SP: store the stack pointer, low byte first, at the
    /// immediate address.
    pub fn ld_nn_sp(&mut self, memory: &mut Memory)
        requires
            old(memory).wf(),
        ensures
            updates_registers(
                *old(self),
                *final(self),
                spec_ld_nn_sp(old(self).registers, old(memory)@).0,
            ),
            final(memory)@ == spec_ld_nn_sp(old(self).registers, old(memory)@).1,
    {
        let pc = self.registers.pc;
        let low = memory.read(pc.wrapping_add(1));
        let high = memory.read(pc.wrapping_add(2));
        let nn = (high as u16) * 256 + (low as u16);
        let sp = self.registers.sp;
        memory.write(nn, (sp % 256) as u8);
        memory.write(nn.wrapping_add(1), (sp / 256) as u8);
        self.registers.pc = pc.wrapping_add(3);
    }

    /// LD (HL), n: store the immediate operand byte at the byte HL
    /// addresses.
    pub fn ld_hl_n(&mut self, memory: &mut Memory)
        requires
            old(memory).wf(),
        ensures
            updates_registers(
                *old(self),
                *final(self),
                spec_ld_hl_n(old(self).registers, old(memory)@).0,
            ),
            final(memory)@ == spec_ld_hl_n(old(self).registers, old(memory)@).1,
    {
        let pc = self.registers.pc;
        let n = memory.read(pc.wrapping_add(1));
        let addr = self.registers.get_pair(RegisterPair::HL);
        memory.write(addr, n);
        self.registers.pc = pc.wrapping_add(2);
    }

    /// CALL nn: push the address of the following instruction, then
    /// jump to the immediate target.
    pub fn call(&mut self, memory: &mut Memory)
        requires
            old(memory).wf(),
        ensures
            updates_registers(
                *old(self),
                *final(self),
                spec_call(old(self).registers, old(memory)@).0,
            ),
            final(memory)@ == spec_call(old(self).registers, old(memory)@).1,
    {
        let pc = self.registers.pc;
        let sp = self.registers.sp;
        let low = memory.read(pc.wrapping_add(1));
        let high = memory.read(pc.wrapping_add(2));
        let ret = pc.wrapping_add(3);
        memory.write(sp.wrapping_sub(1), (ret / 256) as u8);
        memory.write(sp.wrapping_sub(2), (ret % 256) as u8);
        self.registers.sp = sp.wrapping_sub(2);
        self.registers.pc = (high as u16) * 256 + (low as u16);
    }

    /// RST: push the address of the following instruction, then jump
    /// to the fixed restart vector.
    pub fn rst_n(&mut self, memory: &mut Memory, jump_address: RstAddress)
        requires
            old(memory).wf(),
        ensures
            updates_registers(
                *old(self),
                *final(self),
                spec_rst(old(self).registers, old(memory)@, jump_address).0,
            ),
            final(memory)@ == spec_rst(old(self).registers, old(memory)@, jump_address).1,
    {
        let sp = self.registers.sp;
        let ret = self.registers.pc.wrapping_add(1);
        memory.write(sp.wrapping_sub(1), (ret / 256) as u8);
        memory.write(sp.wrapping_sub(2), (ret % 256) as u8);
        self.registers.sp = sp.wrapping_sub(2);
        self.registers.pc = jump_address.address();
    }

    /// PUSH rr: store the pair, high byte at SP-1, low byte at SP-2.
    pub fn push_rr(&mut self, memory: &mut Memory, r: RegisterPair)
        requires
            old(memory).wf(),
        ensures
            updates_registers(
                *old(self),
                *final(self),
                spec_push_rr(old(self).registers, old(memory)@, r).0,
            ),
            final(memory)@ == spec_push_rr(old(self).registers, old(memory)@, r).1,
    {
        let sp = self.registers.sp;
        let value = self.registers.get_pair(r);
        memory.write(sp.wrapping_sub(1), (value / 256) as u8);
        memory.write(sp.wrapping_sub(2), (value % 256) as u8);
        self.registers.sp = sp.wrapping_sub(2);
        self.registers.pc = self.registers.pc.wrapping_add(1);
    }

    /// POP rr: restore the pair, low byte from SP, high byte from
    /// SP+1.
    pub fn pop_rr(&mut self, memory: &Memory, rr: RegisterPair)
        requires
            memory.wf(),
        ensures
            updates_registers(
                *old(self),
                *final(self),
                spec_pop_rr(old(self).registers, memory@, rr),
            ),
    {
        let sp = self.registers.sp;
        let low = memory.read(sp);
        let high = memory.read(sp.wrapping_add(1));
        self.registers.set_pair(rr, (high as u16) * 256 + (low as u16));
        self.registers.sp = self.registers.sp.wrapping_add(2);
        self.registers.pc = self.registers.pc.wrapping_add(1);
    }

    /// RET: pop the return address and jump to it.
    pub fn ret(&mut self, memory: &Memory)
        requires
            memory.wf(),
        ensures
            updates_registers(*old(self), *final(self), spec_ret(old(self).registers, memory@)),
    {
        let sp = self.registers.sp;
        let low = memory.read(sp);
        let high = memory.read(sp.wrapping_add(1));
        self.registers.sp = sp.wrapping_add(2);
        self.registers.pc = (high as u16) * 256 + (low as u16);
    }

    /// JP nn: jump to the immediate target.
    pub fn jp_nn(&mut self, memory: &Memory)
        requires
            memory.wf(),
        ensures
            updates_registers(*old(self), *final(self), spec_jp_nn(old(self).registers, memory@)),
    {
        let pc = self.registers.pc;
        let low = memory.read(pc.wrapping_add(1));
        let high = memory.read(pc.wrapping_add(2));
        self.registers.pc = (high as u16) * 256 + (low as u16);
    }

    /// JP cc, nn: conditional absolute jump.  Only Z or C may be
    /// tested; either other flag is an internal construction error,
    /// reported rather than silently treated as a condition.  On
    /// success the result carries the taken-path cycle cost, or
    /// nothing when the branch was not taken and the table's base
    /// cost applies.
    pub fn jp_cc_nn(&mut self, memory: &Memory, cc: Flag, set: bool) -> (r: Result<
        Option<u64>,
        StepErrorKind,
    >)
        requires
            memory.wf(),
        ensures
            cc == Flag::N || cc == Flag::H ==> r == Err::<Option<u64>, StepErrorKind>(
                StepErrorKind::InvalidConditionCode,
            ) && *final(self) == *old(self),
            cc == Flag::Z || cc == Flag::C ==> updates_registers(
                *old(self),
                *final(self),
                spec_jp_cc_nn(old(self).registers, memory@, cc, set),
            ) && r == Ok::<Option<u64>, StepErrorKind>(
                if old(self).registers.spec_flag(cc) == set {
                    Some(16u64)
                } else {
                    None
                },
            ),
    {
        match cc {
            Flag::N => Err(StepErrorKind::InvalidConditionCode),
            Flag::H => Err(StepErrorKind::InvalidConditionCode),
            _ => {
                let pc = self.registers.pc;
                let low = memory.read(pc.wrapping_add(1));
                let high = memory.read(pc.wrapping_add(2));
                let taken = (match cc {
                    Flag::Z => self.registers.get_z_flag(),
                    _ => self.registers.get_c_flag(),
                }) == set;
                if taken {
                    self.registers.pc = (high as u16) * 256 + (low as u16);
                    Ok(Some(16))
                } else {
                    self.registers.pc = pc.wrapping_add(3);
                    Ok(None)
                }
            },
        }
    }

    /// JR e: relative jump by the signed displacement byte.
    pub fn jr_e(&mut self, memory: &Memory)
        requires
            memory.wf(),
        ensures
            updates_registers(*old(self), *final(self), spec_jr_e(old(self).registers, memory@)),
    {
        let pc = self.registers.pc;
        let e = memory.read(pc.wrapping_add(1));
        self.registers.pc = pc.wrapping_add(2).wrapping_add((e as i8) as u16);
    }

    /// JR cc, e: conditional relative jump.  Only Z or C may be
    /// tested; the not-taken path advances PC by exactly 2.  On
    /// success the result carries the taken-path cycle cost, or
    /// nothing when the branch was not taken.
    pub fn jr_cc_e(&mut self, memory: &Memory, cc: Flag, set: bool) -> (r: Result<
        Option<u64>,
        StepErrorKind,
    >)
        requires
            memory.wf(),
        ensures
            cc == Flag::N || cc == Flag::H ==> r == Err::<Option<u64>, StepErrorKind>(
                StepErrorKind::InvalidConditionCode,
            ) && *final(self) == *old(self),
            cc == Flag::Z || cc == Flag::C ==> updates_registers(
                *old(self),
                *final(self),
                spec_jr_cc_e(old(self).registers, memory@, cc, set),
            ) && r == Ok::<Option<u64>, StepErrorKind>(
                if old(self).registers.spec_flag(cc) == set {
                    Some(12u64)
                } else {
                    None
                },
            ),
    {
        match cc {
            Flag::N => Err(StepErrorKind::InvalidConditionCode),
            Flag::H => Err(StepErrorKind::InvalidConditionCode),
            _ => {
                let pc = self.registers.pc;
                let e = memory.read(pc.wrapping_add(1));
                let taken = (match cc {
                    Flag::Z => self.registers.get_z_flag(),
                    _ => self.registers.get_c_flag(),
                }) == set;
                if taken {
                    self.registers.pc = pc.wrapping_add(2).wrapping_add((e as i8) as u16);
                    Ok(Some(12))
                } else {
                    self.registers.pc = pc.wrapping_add(2);
                    Ok(None)
                }
            },
        }
    }

    /// ADD A, n: addition of the immediate operand byte.
    pub fn add_n(&mut self, memory: &Memory)
        requires
            memory.wf(),
        ensures
            updates_registers(
                *old(self),
                *final(self),
                ({
                    let regs1 = spec_alu_add(
                        old(self).registers,
                        mem8(memory@, old(self).registers.pc.wrapping_add(1)),
                    );
                    Registers { pc: regs1.pc.wrapping_add(2), ..regs1 }
                }),
            ),
    {
        let pc = self.registers.pc;
        let n = memory.read(pc.wrapping_add(1));
        self.alu_add(n);
        self.registers.pc = pc.wrapping_add(2);
    }

    /// SUB n: subtraction of the immediate operand byte.
    pub fn sub_n(&mut self, memory: &Memory)
        requires
            memory.wf(),
        ensures
            updates_registers(
                *old(self),
                *final(self),
                ({
                    let regs1 = spec_alu_sub(
                        old(self).registers,
                        mem8(memory@, old(self).registers.pc.wrapping_add(1)),
                    );
                    Registers { pc: regs1.pc.wrapping_add(2), ..regs1 }
                }),
            ),
    {
        let pc = self.registers.pc;
        let n = memory.read(pc.wrapping_add(1));
        self.alu_sub(n);
        self.registers.pc = pc.wrapping_add(2);
    }

    /// AND n: bitwise AND of the immediate operand byte.
    pub fn and_n(&mut self, memory: &Memory)
        requires
            memory.wf(),
        ensures
            updates_registers(
                *old(self),
                *final(self),
                ({
                    let regs1 = spec_alu_and(
                        old(self).registers,
                        mem8(memory@, old(self).registers.pc.wrapping_add(1)),
                    );
                    Registers { pc: regs1.pc.wrapping_add(2), ..regs1 }
                }),
            ),
    {
        let pc = self.registers.pc;
        let n = memory.read(pc.wrapping_add(1));
        self.alu_and(n);
        self.registers.pc = pc.wrapping_add(2);
    }

    /// OR n: bitwise OR of the immediate operand byte.
    pub fn or_n(&mut self, memory: &Memory)
        requires
            memory.wf(),
        ensures
            updates_registers(
                *old(self),
                *final(self),
                ({
                    let regs1 = spec_alu_or(
                        old(self).registers,
                        mem8(memory@, old(self).registers.pc.wrapping_add(1)),
                    );
                    Registers { pc: regs1.pc.wrapping_add(2), ..regs1 }
                }),
            ),
    {
        let pc = self.registers.pc;
        let n = memory.read(pc.wrapping_add(1));
        self.alu_or(n);
        self.registers.pc = pc.wrapping_add(2);
    }

    /// CP n: compare against the immediate operand byte.
    pub fn cp_n(&mut self, memory: &Memory)
        requires
            memory.wf(),
        ensures
            updates_registers(
                *old(self),
                *final(self),
                ({
                    let regs1 = spec_alu_cp(
                        old(self).registers,
                        mem8(memory@, old(self).registers.pc.wrapping_add(1)),
                    );
                    Registers { pc: regs1.pc.wrapping_add(2), ..regs1 }
                }),
            ),
    {
        let pc = self.registers.pc;
        let n = memory.read(pc.wrapping_add(1));
        self.alu_cp(n);
        self.registers.pc = pc.wrapping_add(2);
    }

    /// RLC r (prefixed): rotate a register left circularly.
    pub fn cb_rlc_r(&mut self, r: RegisterU8)
        ensures
            updates_registers(*old(self), *final(self), spec_cb_rlc_r(old(self).registers, r)),
    {
        let v = self.registers.get_u8(r);
        let result = (v << 1) | (v >> 7);
        self.registers.set_u8(r, result);
        self.registers.set_flags(result == 0, false, false, v & 0x80 != 0);
        self.registers.pc = self.registers.pc.wrapping_add(2);
    }

    /// RR r (prefixed): rotate a register right through the carry.
    pub fn cb_rr_r(&mut self, r: RegisterU8)
        ensures
            updates_registers(*old(self), *final(self), spec_cb_rr_r(old(self).registers, r)),
    {
        let v = self.registers.get_u8(r);
        let carry_in = self.registers.get_c_flag();
        let result = (v >> 1) | (if carry_in { 0x80u8 } else { 0u8 });
        self.registers.set_u8(r, result);
        self.registers.set_flags(result == 0, false, false, v & 1 != 0);
        self.registers.pc = self.registers.pc.wrapping_add(2);
    }

    /// SRL r (prefixed): shift a register right logically.
    pub fn cb_srl_r(&mut self, r: RegisterU8)
        ensures
            updates_registers(*old(self), *final(self), spec_cb_srl_r(old(self).registers, r)),
    {
        let v = self.registers.get_u8(r);
        let result = v >> 1;
        self.registers.set_u8(r, result);
        self.registers.set_flags(result == 0, false, false, v & 1 != 0);
        self.registers.pc = self.registers.pc.wrapping_add(2);
    }

    /// SET b, (HL) (prefixed): set one bit of the byte HL addresses.
    pub fn cb_set_b_hl(&mut self, memory: &mut Memory, b: usize)
        requires
            old(memory).wf(),
            b < 8,
        ensures
            updates_registers(
                *old(self),
                *final(self),
                spec_cb_set_b_hl(old(self).registers, old(memory)@, b).0,
            ),
            final(memory)@ == spec_cb_set_b_hl(old(self).registers, old(memory)@, b).1,
    {
        let hl = self.registers.get_pair(RegisterPair::HL);
        let v = memory.read(hl);
        memory.write(hl, v | (1u8 << b));
        self.registers.pc = self.registers.pc.wrapping_add(2);
    }

    /// Marks the core stopped on an architecturally illegal opcode
    /// and reports the failing opcode value and fetch address.
    pub fn invalid_instruction(&mut self, opcode: u8) -> (e: StepError)
        ensures
            *final(self) == (Cpu { state: CpuState::Stopped, ..*old(self) }),
            e == (StepError {
                kind: StepErrorKind::InvalidOpcode,
                opcode,
                pc: old(self).registers.pc,
            }),
    {
        self.state = CpuState::Stopped;
        StepError { kind: StepErrorKind::InvalidOpcode, opcode, pc: self.registers.pc }
    }

    /// Marks the core stopped on a legal opcode this build has not
    /// modeled and reports the failing opcode value and fetch
    /// address.
    pub fn unimplemented_instruction(&mut self, opcode: u8) -> (e: StepError)
        ensures
            *final(self) == (Cpu { state: CpuState::Stopped, ..*old(self) }),
            e == (StepError {
                kind: StepErrorKind::UnimplementedOpcode,
                opcode,
                pc: old(self).registers.pc,
            }),
    {
        self.state = CpuState::Stopped;
        StepError { kind: StepErrorKind::UnimplementedOpcode, opcode, pc: self.registers.pc }
    }

    /// Shared ALU core for the addition family.
    fn alu_add(&mut self, b: u8)
        ensures
            updates_registers(*old(self), *final(self), spec_alu_add(old(self).registers, b)),
    {
        let a = self.registers.a;
        let result = a.wrapping_add(b);
        let half = bit_operations::get_half_carry(a, b);
        let carry = bit_operations::get_carry(a, b);
        self.registers.a = result;
        self.registers.set_flags(result == 0, false, half, carry);
    }

    /// Shared ALU core for addition with the incoming carry.
    fn alu_adc(&mut self, b: u8)
        ensures
            updates_registers(*old(self), *final(self), spec_alu_adc(old(self).registers, b)),
    {
        let a = self.registers.a;
        let c = self.registers.get_c_flag();
        let cb: u8 = if c { 1 } else { 0 };
        let result = a.wrapping_add(b).wrapping_add(cb);
        let half = ((a & 0xF) as u16) + ((b & 0xF) as u16) + (cb as u16) >= 0x10;
        let carry = (a as u16) + (b as u16) + (cb as u16) >= 0x100;
        self.registers.a = result;
        self.registers.set_flags(result == 0, false, half, carry);
    }

    /// Shared ALU core for the subtraction family.
    fn alu_sub(&mut self, b: u8)
        ensures
            updates_registers(*old(self), *final(self), spec_alu_sub(old(self).registers, b)),
    {
        let a = self.registers.a;
        let result = a.wrapping_sub(b);
        let half = bit_operations::get_half_carry_sub(a, b);
        let carry = bit_operations::get_carry_sub(a, b);
        self.registers.a = result;
        self.registers.set_flags(result == 0, true, half, carry);
    }

    /// Shared ALU core for subtraction with the incoming borrow.
    fn alu_sbc(&mut self, b: u8)
        ensures
            updates_registers(*old(self), *final(self), spec_alu_sbc(old(self).registers, b)),
    {
        let a = self.registers.a;
        let c = self.registers.get_c_flag();
        let cb: u8 = if c { 1 } else { 0 };
        let result = a.wrapping_sub(b).wrapping_sub(cb);
        let half = ((a & 0xF) as u16) < ((b & 0xF) as u16) + (cb as u16);
        let carry = (a as u16) < (b as u16) + (cb as u16);
        self.registers.a = result;
        self.registers.set_flags(result == 0, true, half, carry);
    }

    /// Shared ALU core for AND.
    fn alu_and(&mut self, b: u8)
        ensures
            updates_registers(*old(self), *final(self), spec_alu_and(old(self).registers, b)),
    {
        let result = self.registers.a & b;
        self.registers.a = result;
        self.registers.set_flags(result == 0, false, true, false);
    }

    /// Shared ALU core for OR.
    fn alu_or(&mut self, b: u8)
        ensures
            updates_registers(*old(self), *final(self), spec_alu_or(old(self).registers, b)),
    {
        let result = self.registers.a | b;
        self.registers.a = result;
        self.registers.set_flags(result == 0, false, false, false);
    }

    /// Shared ALU core for XOR.
    fn alu_xor(&mut self, b: u8)
        ensures
            updates_registers(*old(self), *final(self), spec_alu_xor(old(self).registers, b)),
    {
        let result = self.registers.a ^ b;
        self.registers.a = result;
        self.registers.set_flags(result == 0, false, false, false);
    }

    /// Shared ALU core for CP: flags only.
    fn alu_cp(&mut self, b: u8)
        ensures
            updates_registers(*old(self), *final(self), spec_alu_cp(old(self).registers, b)),
    {
        let a = self.registers.a;
        let result = a.wrapping_sub(b);
        let half = bit_operations::get_half_carry_sub(a, b);
        let carry = bit_operations::get_carry_sub(a, b);
        self.registers.set_flags(result == 0, true, half, carry);
    }
}


// ---------------------------------------------------------------
// The step function as one mathematical object
// ---------------------------------------------------------------

/// The register file with PC advanced by `k`, modulo 65536.
pub open spec fn pc_plus(regs: Registers, k: u16) -> Registers {
    Registers { pc: regs.pc.wrapping_add(k), ..regs }
}

/// The complete effect of one step: the new register file, memory
/// image, cycle counter, engine state, interrupt-enable flag, and the
/// reported result.
pub struct StepOutcome {
    pub registers: Registers,
    pub mem: Seq<u8>,
    pub cycles: u64,
    pub state: CpuState,
    pub ime: bool,
    pub result: Result<(), StepError>,
}

/// A successful step that changed only the register file, charging
/// `cost` cycles.
pub open spec fn outcome_regs(cpu: Cpu, mem: Seq<u8>, regs: Registers, cost: u64) -> StepOutcome {
    StepOutcome {
        registers: regs,
        mem,
        cycles: cycles_add(cpu.cycles, cost),
        state: cpu.state,
        ime: cpu.ime,
        result: Ok(()),
    }
}

/// A successful step that changed the register file and the memory,
/// charging `cost` cycles.
pub open spec fn outcome_regs_mem(cpu: Cpu, rm: (Registers, Seq<u8>), cost: u64) -> StepOutcome {
    StepOutcome {
        registers: rm.0,
        mem: rm.1,
        cycles: cycles_add(cpu.cycles, cost),
        state: cpu.state,
        ime: cpu.ime,
        result: Ok(()),
    }
}

/// A failed dispatch: the core stops where it stands, nothing else
/// changes, no cycles are charged, and the failing opcode value and
/// fetch address are reported.
pub open spec fn outcome_stopped(
    cpu: Cpu,
    mem: Seq<u8>,
    kind: StepErrorKind,
    opcode: u8,
) -> StepOutcome {
    StepOutcome {
        registers: cpu.registers,
        mem,
        cycles: cpu.cycles,
        state: CpuState::Stopped,
        ime: cpu.ime,
        result: Err(StepError { kind, opcode, pc: cpu.registers.pc }),
    }
}

/// The effect of dispatching one primary-table instruction
/// description fetched as opcode byte `op`.  A conditional branch
/// charges its taken-path cost when taken and the table's base cost
/// otherwise; every other implemented instruction charges its table
/// cost; a failed dispatch charges nothing.
pub open spec fn instr_outcome(cpu: Cpu, mem: Seq<u8>, instr: Instruction, op: u8) -> StepOutcome {
    let regs = cpu.registers;
    let cost = cycle_spec(op);
    match instr {
        Instruction::AdcR(r) => outcome_regs(cpu, mem, pc_plus(spec_alu_adc(regs, regs.spec_u8(r)), 1), cost),
        Instruction::AddHLRR(rr) => outcome_regs(cpu, mem, spec_add_hl_rr(regs, rr), cost),
        Instruction::AddN => outcome_regs(cpu, mem, pc_plus(spec_alu_add(regs, mem8(mem, regs.pc.wrapping_add(1))), 2), cost),
        Instruction::AddR(r) => outcome_regs(cpu, mem, pc_plus(spec_alu_add(regs, regs.spec_u8(r)), 1), cost),
        Instruction::AndN => outcome_regs(cpu, mem, pc_plus(spec_alu_and(regs, mem8(mem, regs.pc.wrapping_add(1))), 2), cost),
        Instruction::AndR(r) => outcome_regs(cpu, mem, pc_plus(spec_alu_and(regs, regs.spec_u8(r)), 1), cost),
        Instruction::Call => outcome_regs_mem(cpu, spec_call(regs, mem), cost),
        Instruction::Ccf => outcome_regs(cpu, mem, spec_ccf(regs), cost),
        Instruction::Cpl => outcome_regs(cpu, mem, spec_cpl(regs), cost),
        Instruction::CpN => outcome_regs(cpu, mem, pc_plus(spec_alu_cp(regs, mem8(mem, regs.pc.wrapping_add(1))), 2), cost),
        Instruction::CpR(r) => outcome_regs(cpu, mem, pc_plus(spec_alu_cp(regs, regs.spec_u8(r)), 1), cost),
        Instruction::Dec(r) => outcome_regs(cpu, mem, spec_dec_r(regs, r), cost),
        Instruction::Di => StepOutcome {
            registers: spec_di(regs),
            mem,
            cycles: cycles_add(cpu.cycles, cost),
            state: cpu.state,
            ime: false,
            result: Ok(()),
        },
        Instruction::Halt => StepOutcome {
            registers: spec_halt(regs),
            mem,
            cycles: cycles_add(cpu.cycles, cost),
            state: CpuState::Halted,
            ime: cpu.ime,
            result: Ok(()),
        },
        Instruction::Inc(r) => outcome_regs(cpu, mem, spec_inc_r(regs, r), cost),
        Instruction::IncNn(t) => outcome_regs(cpu, mem, spec_inc_nn(regs, t), cost),
        Instruction::Invalid => outcome_stopped(cpu, mem, StepErrorKind::InvalidOpcode, op),
        Instruction::JpCCNN(cc, set) => if cc == Flag::Z || cc == Flag::C {
            outcome_regs(
                cpu,
                mem,
                spec_jp_cc_nn(regs, mem, cc, set),
                if regs.spec_flag(cc) == set {
                    16u64
                } else {
                    cost
                },
            )
        } else {
            outcome_stopped(cpu, mem, StepErrorKind::InvalidConditionCode, op)
        },
        Instruction::JpNN => outcome_regs(cpu, mem, spec_jp_nn(regs, mem), cost),
        Instruction::JrCCE(cc, set) => if cc == Flag::Z || cc == Flag::C {
            outcome_regs(
                cpu,
                mem,
                spec_jr_cc_e(regs, mem, cc, set),
                if regs.spec_flag(cc) == set {
                    12u64
                } else {
                    cost
                },
            )
        } else {
            outcome_stopped(cpu, mem, StepErrorKind::InvalidConditionCode, op)
        },
        Instruction::JrE => outcome_regs(cpu, mem, spec_jr_e(regs, mem), cost),
        Instruction::LdAHLD => outcome_regs(cpu, mem, spec_ld_a_hld(regs, mem), cost),
        Instruction::LdAHLI => outcome_regs(cpu, mem, spec_ld_a_hli(regs, mem), cost),
        Instruction::LdHLDA => outcome_regs_mem(cpu, spec_ld_hld_a(regs, mem), cost),
        Instruction::LdHLN => outcome_regs_mem(cpu, spec_ld_hl_n(regs, mem), cost),
        Instruction::LdMemHLFromR(r) => outcome_regs_mem(cpu, spec_ld_mem_hl_from_r(regs, mem, r), cost),
        Instruction::LdNnA => outcome_regs_mem(cpu, spec_ld_nn_a(regs, mem), cost),
        Instruction::LdNNn(t) => outcome_regs(cpu, mem, spec_ld_n_nn(regs, mem, t), cost),
        Instruction::LdNnN(r) => outcome_regs(cpu, mem, spec_ld_r_n(regs, mem, r), cost),
        Instruction::LdNnSP => outcome_regs_mem(cpu, spec_ld_nn_sp(regs, mem), cost),
        Instruction::LdR1R2(r1, r2) => outcome_regs(cpu, mem, spec_ld_r1_r2(regs, r1, r2), cost),
        Instruction::LdRFromMemHL(r) => outcome_regs(cpu, mem, spec_ld_r_from_mem_hl(regs, mem, r), cost),
        Instruction::LdRN(r) => outcome_regs(cpu, mem, spec_ld_r_n(regs, mem, r), cost),
        Instruction::LdRRA(p) => outcome_regs_mem(cpu, spec_ld_rr_a(regs, mem, p), cost),
        Instruction::LdhAN => outcome_regs(cpu, mem, spec_ldh_a_n(regs, mem), cost),
        Instruction::LdhNR(r) => outcome_regs_mem(cpu, spec_ldh_n_r(regs, mem, r), cost),
        Instruction::Nop => outcome_regs(cpu, mem, spec_nop(regs), cost),
        Instruction::OrN => outcome_regs(cpu, mem, pc_plus(spec_alu_or(regs, mem8(mem, regs.pc.wrapping_add(1))), 2), cost),
        Instruction::OrR(r) => outcome_regs(cpu, mem, pc_plus(spec_alu_or(regs, regs.spec_u8(r)), 1), cost),
        Instruction::PopRR(p) => outcome_regs(cpu, mem, spec_pop_rr(regs, mem, p), cost),
        Instruction::PushRR(p) => outcome_regs_mem(cpu, spec_push_rr(regs, mem, p), cost),
        Instruction::Ret => outcome_regs(cpu, mem, spec_ret(regs, mem), cost),
        Instruction::Rla => outcome_regs(cpu, mem, spec_rla(regs), cost),
        Instruction::Rlca => outcome_regs(cpu, mem, spec_rlca(regs), cost),
        Instruction::Rra => outcome_regs(cpu, mem, spec_rra(regs), cost),
        Instruction::Rst(v) => outcome_regs_mem(cpu, spec_rst(regs, mem, v), cost),
        Instruction::SbcR(r) => outcome_regs(cpu, mem, pc_plus(spec_alu_sbc(regs, regs.spec_u8(r)), 1), cost),
        Instruction::Scf => outcome_regs(cpu, mem, spec_scf(regs), cost),
        Instruction::Stop => outcome_regs(cpu, mem, spec_stop(regs), cost),
        Instruction::SubN => outcome_regs(cpu, mem, pc_plus(spec_alu_sub(regs, mem8(mem, regs.pc.wrapping_add(1))), 2), cost),
        Instruction::SubR(r) => outcome_regs(cpu, mem, pc_plus(spec_alu_sub(regs, regs.spec_u8(r)), 1), cost),
        Instruction::Unimplemented => outcome_stopped(
            cpu,
            mem,
            StepErrorKind::UnimplementedOpcode,
            op,
        ),
        Instruction::Xor(r) => outcome_regs(cpu, mem, pc_plus(spec_alu_xor(regs, regs.spec_u8(r)), 1), cost),
    }
}

/// The effect of dispatching one prefixed-table instruction
/// description fetched as second opcode byte `op2`; the charged cost
/// is the prefix escape byte's table cost.
pub open spec fn prefixed_outcome(
    cpu: Cpu,
    mem: Seq<u8>,
    instr: PrefixedInstruction,
    op2: u8,
) -> StepOutcome {
    let regs = cpu.registers;
    let cost = cycle_spec(0xCB);
    match instr {
        PrefixedInstruction::CBRLCR(r) => outcome_regs(cpu, mem, spec_cb_rlc_r(regs, r), cost),
        PrefixedInstruction::CBRRR(r) => outcome_regs(cpu, mem, spec_cb_rr_r(regs, r), cost),
        PrefixedInstruction::CBSetBHL(b) => outcome_regs_mem(
            cpu,
            spec_cb_set_b_hl(regs, mem, b),
            cost,
        ),
        PrefixedInstruction::CBSRLR(r) => outcome_regs(cpu, mem, spec_cb_srl_r(regs, r), cost),
        PrefixedInstruction::Unimplemented => outcome_stopped(
            cpu,
            mem,
            StepErrorKind::UnimplementedOpcode,
            op2,
        ),
    }
}

/// One complete fetch-decode-execute-account step.  Outside the
/// `Running` state nothing happens.  The prefix escape byte 0xCB
/// resolves the next byte through the prefixed table, consuming two
/// opcode bytes in total; every other byte resolves through the
/// primary table.
pub open spec fn step_spec(cpu: Cpu, mem: Seq<u8>) -> StepOutcome {
    let regs = cpu.registers;
    let op = mem8(mem, regs.pc);
    if cpu.state != CpuState::Running {
        StepOutcome {
            registers: regs,
            mem,
            cycles: cpu.cycles,
            state: cpu.state,
            ime: cpu.ime,
            result: Ok(()),
        }
    } else if op == 0xCB {
        let op2 = mem8(mem, regs.pc.wrapping_add(1));
        prefixed_outcome(cpu, mem, prefixed_opcode_spec(op2), op2)
    } else {
        instr_outcome(cpu, mem, opcode_spec(op), op)
    }
}

/// Holds when one step moved the core and the memory exactly as
/// `outcome` says and reported `r`; the lookup tables never change.
pub open spec fn step_matches(
    pre: Cpu,
    post: Cpu,
    mem_post: Seq<u8>,
    r: Result<(), StepError>,
    outcome: StepOutcome,
) -> bool {
    &&& post.registers == outcome.registers
    &&& mem_post == outcome.mem
    &&& post.cycles == outcome.cycles
    &&& post.state == outcome.state
    &&& post.ime == outcome.ime
    &&& r == outcome.result
    &&& post.optable == pre.optable
    &&& post.cycles_table == pre.cycles_table
    &&& post.prefixed_optable == pre.prefixed_optable
}

impl Cpu {
    /// Executes one already-resolved primary-table instruction and
    /// charges its cycle cost; instructions past its own families are
    /// handed on.
    #[verifier::rlimit(100)]
    #[verifier::spinoff_prover]
    fn dispatch_primary(
        &mut self,
        memory: &mut Memory,
        instr: Instruction,
        opcode: u8,
        base: u64,
    ) -> (r: Result<(), StepError>)
        requires
            old(memory).wf(),
            base == cycle_spec(opcode),
        ensures
            step_matches(
                *old(self),
                *final(self),
                final(memory)@,
                r,
                instr_outcome(*old(self), old(memory)@, instr, opcode),
            ),
            final(memory).wf(),
    {
        match instr {
            Instruction::AdcR(r) => {
                self.adc_r(r);
                self.add_cycles(base);
                Ok(())
            },
            Instruction::AddHLRR(rr) => {
                self.add_hl_rr(rr);
                self.add_cycles(base);
                Ok(())
            },
            Instruction::AddN => {
                self.add_n(memory);
                self.add_cycles(base);
                Ok(())
            },
            Instruction::AddR(r) => {
                self.add_r(r);
                self.add_cycles(base);
                Ok(())
            },
            Instruction::AndN => {
                self.and_n(memory);
                self.add_cycles(base);
                Ok(())
            },
            Instruction::AndR(r) => {
                self.and_r(r);
                self.add_cycles(base);
                Ok(())
            },
            Instruction::Call => {
                self.call(memory);
                self.add_cycles(base);
                Ok(())
            },
            Instruction::Ccf => {
                self.ccf();
                self.add_cycles(base);
                Ok(())
            },
            Instruction::Cpl => {
                self.cpl();
                self.add_cycles(base);
                Ok(())
            },
            Instruction::CpN => {
                self.cp_n(memory);
                self.add_cycles(base);
                Ok(())
            },
            Instruction::CpR(r) => {
                self.cp_r(r);
                self.add_cycles(base);
                Ok(())
            },
            Instruction::Dec(r) => {
                self.dec_n(r);
                self.add_cycles(base);
                Ok(())
            },
            Instruction::Di => {
                self.di();
                self.add_cycles(base);
                Ok(())
            },
            Instruction::Halt => {
                self.halt();
                self.add_cycles(base);
                Ok(())
            },
            _ => self.dispatch_jumps_loads(memory, instr, opcode, base),
        }
    }

    /// Continues the dispatch: increments, jumps, the invalid
    /// classification and the HL-indirect load families.
    #[verifier::rlimit(100)]
    #[verifier::spinoff_prover]
    fn dispatch_jumps_loads(
        &mut self,
        memory: &mut Memory,
        instr: Instruction,
        opcode: u8,
        base: u64,
    ) -> (r: Result<(), StepError>)
        requires
            old(memory).wf(),
            base == cycle_spec(opcode),
            !(instr is AdcR),
            !(instr is AddHLRR),
            !(instr is AddN),
            !(instr is AddR),
            !(instr is AndN),
            !(instr is AndR),
            !(instr is Call),
            !(instr is Ccf),
            !(instr is Cpl),
            !(instr is CpN),
            !(instr is CpR),
            !(instr is Dec),
            !(instr is Di),
            !(instr is Halt),
        ensures
            step_matches(
                *old(self),
                *final(self),
                final(memory)@,
                r,
                instr_outcome(*old(self), old(memory)@, instr, opcode),
            ),
            final(memory).wf(),
    {
        match instr {
            Instruction::Inc(r) => {
                self.inc_r(r);
                self.add_cycles(base);
                Ok(())
            },
            Instruction::IncNn(t) => {
                self.inc_nn(t);
                self.add_cycles(base);
                Ok(())
            },
            Instruction::Invalid => Err(self.invalid_instruction(opcode)),
            Instruction::JpCCNN(cc, set) => {
                let res = self.jp_cc_nn(memory, cc, set);
                match res {
                    Ok(Some(taken_cost)) => {
                        self.add_cycles(taken_cost);
                        Ok(())
                    },
                    Ok(None) => {
                        self.add_cycles(base);
                        Ok(())
                    },
                    Err(kind) => {
                        self.state = CpuState::Stopped;
                        Err(StepError { kind, opcode, pc: self.registers.pc })
                    },
                }
            },
            Instruction::JpNN => {
                self.jp_nn(memory);
                self.add_cycles(base);
                Ok(())
            },
            Instruction::JrCCE(cc, set) => {
                let res = self.jr_cc_e(memory, cc, set);
                match res {
                    Ok(Some(taken_cost)) => {
                        self.add_cycles(taken_cost);
                        Ok(())
                    },
                    Ok(None) => {
                        self.add_cycles(base);
                        Ok(())
                    },
                    Err(kind) => {
                        self.state = CpuState::Stopped;
                        Err(StepError { kind, opcode, pc: self.registers.pc })
                    },
                }
            },
            Instruction::JrE => {
                self.jr_e(memory);
                self.add_cycles(base);
                Ok(())
            },
            Instruction::LdAHLD => {
                self.ld_a_hld(memory);
                self.add_cycles(base);
                Ok(())
            },
            Instruction::LdAHLI => {
                self.ld_a_hli(memory);
                self.add_cycles(base);
                Ok(())
            },
            Instruction::LdHLDA => {
                self.ld_hld_a(memory);
                self.add_cycles(base);
                Ok(())
            },
            Instruction::LdHLN => {
                self.ld_hl_n(memory);
                self.add_cycles(base);
                Ok(())
            },
            Instruction::LdMemHLFromR(r) => {
                self.ld_mem_hl_from_r(memory, r);
                self.add_cycles(base);
                Ok(())
            },
            Instruction::LdNnA => {
                self.ld_nn_a(memory);
                self.add_cycles(base);
                Ok(())
            },
            _ => self.dispatch_loads_misc(memory, instr, opcode, base),
        }
    }

    /// Continues the dispatch: the immediate and high-page load
    /// families, OR, and POP.
    #[verifier::rlimit(100)]
    #[verifier::spinoff_prover]
    fn dispatch_loads_misc(
        &mut self,
        memory: &mut Memory,
        instr: Instruction,
        opcode: u8,
        base: u64,
    ) -> (r: Result<(), StepError>)
        requires
            old(memory).wf(),
            base == cycle_spec(opcode),
            !(instr is AdcR),
            !(instr is AddHLRR),
            !(instr is AddN),
            !(instr is AddR),
            !(instr is AndN),
            !(instr is AndR),
            !(instr is Call),
            !(instr is Ccf),
            !(instr is Cpl),
            !(instr is CpN),
            !(instr is CpR),
            !(instr is Dec),
            !(instr is Di),
            !(instr is Halt),
            !(instr is Inc),
            !(instr is IncNn),
            !(instr is Invalid),
            !(instr is JpCCNN),
            !(instr is JpNN),
            !(instr is JrCCE),
            !(instr is JrE),
            !(instr is LdAHLD),
            !(instr is LdAHLI),
            !(instr is LdHLDA),
            !(instr is LdHLN),
            !(instr is LdMemHLFromR),
            !(instr is LdNnA),
        ensures
            step_matches(
                *old(self),
                *final(self),
                final(memory)@,
                r,
                instr_outcome(*old(self), old(memory)@, instr, opcode),
            ),
            final(memory).wf(),
    {
        match instr {
            Instruction::LdNNn(t) => {
                self.ld_n_nn(memory, t);
                self.add_cycles(base);
                Ok(())
            },
            Instruction::LdNnN(r) => {
                self.ld_nn_n(memory, r);
                self.add_cycles(base);
                Ok(())
            },
            Instruction::LdNnSP => {
                self.ld_nn_sp(memory);
                self.add_cycles(base);
                Ok(())
            },
            Instruction::LdR1R2(r1, r2) => {
                self.ld_r1_r2(r1, r2);
                self.add_cycles(base);
                Ok(())
            },
            Instruction::LdRFromMemHL(r) => {
                self.ld_r_from_mem_hl(memory, r);
                self.add_cycles(base);
                Ok(())
            },
            Instruction::LdRN(r) => {
                self.ld_r_n(memory, r);
                self.add_cycles(base);
                Ok(())
            },
            Instruction::LdRRA(p) => {
                self.ld_rr_a(memory, p);
                self.add_cycles(base);
                Ok(())
            },
            Instruction::LdhAN => {
                self.ldh_a_n(memory);
                self.add_cycles(base);
                Ok(())
            },
            Instruction::LdhNR(r) => {
                self.ldh_n_r(memory, r);
                self.add_cycles(base);
                Ok(())
            },
            Instruction::Nop => {
                self.nop();
                self.add_cycles(base);
                Ok(())
            },
            Instruction::OrN => {
                self.or_n(memory);
                self.add_cycles(base);
                Ok(())
            },
            Instruction::OrR(r) => {
                self.or_r(r);
                self.add_cycles(base);
                Ok(())
            },
            Instruction::PopRR(p) => {
                self.pop_rr(memory, p);
                self.add_cycles(base);
                Ok(())
            },
            _ => self.dispatch_stack_rotates(memory, instr, opcode, base),
        }
    }

    /// Finishes the dispatch: PUSH, returns, rotates, subtraction,
    /// XOR and the unimplemented classification.
    #[verifier::rlimit(100)]
    #[verifier::spinoff_prover]
    fn dispatch_stack_rotates(
        &mut self,
        memory: &mut Memory,
        instr: Instruction,
        opcode: u8,
        base: u64,
    ) -> (r: Result<(), StepError>)
        requires
            old(memory).wf(),
            base == cycle_spec(opcode),
            !(instr is AdcR),
            !(instr is AddHLRR),
            !(instr is AddN),
            !(instr is AddR),
            !(instr is AndN),
            !(instr is AndR),
            !(instr is Call),
            !(instr is Ccf),
            !(instr is Cpl),
            !(instr is CpN),
            !(instr is CpR),
            !(instr is Dec),
            !(instr is Di),
            !(instr is Halt),
            !(instr is Inc),
            !(instr is IncNn),
            !(instr is Invalid),
            !(instr is JpCCNN),
            !(instr is JpNN),
            !(instr is JrCCE),
            !(instr is JrE),
            !(instr is LdAHLD),
            !(instr is LdAHLI),
            !(instr is LdHLDA),
            !(instr is LdHLN),
            !(instr is LdMemHLFromR),
            !(instr is LdNnA),
            !(instr is LdNNn),
            !(instr is LdNnN),
            !(instr is LdNnSP),
            !(instr is LdR1R2),
            !(instr is LdRFromMemHL),
            !(instr is LdRN),
            !(instr is LdRRA),
            !(instr is LdhAN),
            !(instr is LdhNR),
            !(instr is Nop),
            !(instr is OrN),
            !(instr is OrR),
            !(instr is PopRR),
        ensures
            step_matches(
                *old(self),
                *final(self),
                final(memory)@,
                r,
                instr_outcome(*old(self), old(memory)@, instr, opcode),
            ),
            final(memory).wf(),
    {
        match instr {
            Instruction::PushRR(p) => {
                self.push_rr(memory, p);
                self.add_cycles(base);
                Ok(())
            },
            Instruction::Ret => {
                self.ret(memory);
                self.add_cycles(base);
                Ok(())
            },
            Instruction::Rla => {
                self.rla();
                self.add_cycles(base);
                Ok(())
            },
            Instruction::Rlca => {
                self.rlca();
                self.add_cycles(base);
                Ok(())
            },
            Instruction::Rra => {
                self.rra();
                self.add_cycles(base);
                Ok(())
            },
            Instruction::Rst(v) => {
                self.rst_n(memory, v);
                self.add_cycles(base);
                Ok(())
            },
            Instruction::SbcR(r) => {
                self.sbc_r(r);
                self.add_cycles(base);
                Ok(())
            },
            Instruction::Scf => {
                self.scf();
                self.add_cycles(base);
                Ok(())
            },
            Instruction::Stop => {
                self.stop();
                self.add_cycles(base);
                Ok(())
            },
            Instruction::SubN => {
                self.sub_n(memory);
                self.add_cycles(base);
                Ok(())
            },
            Instruction::SubR(r) => {
                self.sub_r(r);
                self.add_cycles(base);
                Ok(())
            },
            Instruction::Xor(r) => {
                self.xor_r(r);
                self.add_cycles(base);
                Ok(())
            },
            _ => Err(self.unimplemented_instruction(opcode)),

        }
    }

    /// One step of the engine: fetch the byte at PC, resolve it
    /// through the primary table (or, after the prefix escape byte,
    /// through the prefixed table), execute the handler, and charge
    /// the instruction's cost to the cycle counter.  On an invalid or
    /// unimplemented opcode, or a condition code over a flag no
    /// conditional may test, the core stops and the failure surfaces
    /// the opcode value and PC.
    #[verifier::rlimit(30)]
    #[verifier::spinoff_prover]
    pub fn run_instruction(&mut self, memory: &mut Memory) -> (r: Result<(), StepError>)
        requires
            old(self).wf(),
            old(memory).wf(),
        ensures
            final(self).wf(),
            final(memory).wf(),
            step_matches(
                *old(self),
                *final(self),
                final(memory)@,
                r,
                step_spec(*old(self), old(memory)@),
            ),
    {
        if self.state != CpuState::Running {
            return Ok(());
        }
        let pc = self.registers.pc;
        let opcode = memory.read(pc);
        if opcode == 0xCB {
            let op2 = memory.read(pc.wrapping_add(1));
            let instr = self.prefixed_optable.prefixed_optable[op2 as usize];
            let base = self.cycles_table.cycle_table[0xCB];
            match instr {
                PrefixedInstruction::CBRLCR(r) => {
                    self.cb_rlc_r(r);
                    self.add_cycles(base);
                    Ok(())
                },
                PrefixedInstruction::CBRRR(r) => {
                    self.cb_rr_r(r);
                    self.add_cycles(base);
                    Ok(())
                },
                PrefixedInstruction::CBSetBHL(b) => {
                    proof {
                        lemma_prefixed_set_bit_in_range(op2);
                    }
                    self.cb_set_b_hl(memory, b);
                    self.add_cycles(base);
                    Ok(())
                },
                PrefixedInstruction::CBSRLR(r) => {
                    self.cb_srl_r(r);
                    self.add_cycles(base);
                    Ok(())
                },
                PrefixedInstruction::Unimplemented => Err(self.unimplemented_instruction(op2)),
            }
        } else {
            let instr = self.optable.optable[opcode as usize];
            let base = self.cycles_table.cycle_table[opcode as usize];
            self.dispatch_primary(memory, instr, opcode, base)
        }
    }
}

} // verus!
