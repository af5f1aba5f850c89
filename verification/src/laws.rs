//! The architectural laws of the core, each proved once and for all
//! over the step semantics: what loads move, how increments wrap,
//! that stack pushes and pops mirror each other, that CALL and RET
//! round-trip, how relative jumps land, what CPL leaves alone, that
//! every architecturally illegal opcode is classified invalid, and
//! that every step keeps the flag layout clean and the cycle counter
//! non-decreasing.

use vstd::prelude::*;

use crate::cpu::jr_target;
use crate::cpu::le16;
use crate::cpu::mem8;
use crate::cpu::spec_call;
use crate::cpu::spec_cpl;
use crate::cpu::spec_dec_r;
use crate::cpu::spec_inc_r;
use crate::cpu::spec_jr_cc_e;
use crate::cpu::spec_ld_r1_r2;
use crate::cpu::spec_pop_rr;
use crate::cpu::spec_push_rr;
use crate::cpu::spec_ret;
use crate::cpu::step_spec;
use crate::cpu::CpuState;
use crate::cpu::Cpu;
use crate::cpu::StepError;
use crate::cpu::StepErrorKind;
use crate::instructions::is_illegal_opcode;
use crate::instructions::opcode_spec;
use crate::instructions::Instruction;
use crate::registers::lemma_flag_bits;
use crate::registers::Flag;
use crate::registers::RegisterPair;
use crate::registers::Registers;
use crate::registers::RegisterU8;

verus! {

/// For every register-to-register load, the destination ends up with
/// the source's prior value, and as long as the destination is not
/// the flag register itself, the flags are unaffected.
pub proof fn lemma_load_moves_value(regs: Registers, r1: RegisterU8, r2: RegisterU8)
    ensures
        spec_ld_r1_r2(regs, r1, r2).spec_u8(r1) == regs.spec_u8(r2),
        r1 != RegisterU8::F ==> spec_ld_r1_r2(regs, r1, r2).f == regs.f,
{
}

/// No register-to-register load of the opcode table ever targets or
/// reads the flag register, so every such load leaves the flags
/// unaffected.
pub proof fn lemma_table_loads_never_touch_flags(op: u8)
    ensures
        opcode_spec(op) matches Instruction::LdR1R2(r1, r2) ==> r1 != RegisterU8::F && r2
            != RegisterU8::F,
{
    reveal(opcode_spec);
}

/// 8-bit increment and decrement wrap at the byte boundary:
/// incrementing 0xFF yields 0x00 with Z set; decrementing 0x00 yields
/// 0xFF with H set.
pub proof fn lemma_inc_dec_wrap(regs: Registers, r: RegisterU8)
    requires
        r != RegisterU8::F,
    ensures
        regs.spec_u8(r) == 0xFF ==> spec_inc_r(regs, r).spec_u8(r) == 0x00 && spec_inc_r(
            regs,
            r,
        ).spec_z(),
        regs.spec_u8(r) == 0x00 ==> spec_dec_r(regs, r).spec_u8(r) == 0xFF && spec_dec_r(
            regs,
            r,
        ).spec_h(),
{
    let prev = regs.spec_u8(r);
    lemma_flag_bits(
        prev.wrapping_add(1) == 0,
        false,
        crate::bit_operations::spec_half_carry_add(prev, 1),
        regs.spec_c(),
    );
    lemma_flag_bits(
        prev.wrapping_sub(1) == 0,
        true,
        crate::bit_operations::spec_half_borrow_sub(prev, 1),
        regs.spec_c(),
    );
    assert((0u8 & 0xF) < (1u8 & 0xF)) by (bit_vector);
}

/// A push followed by a pop of the same pair restores the pair's
/// value and returns SP to where it started.  For AF the flag layout
/// invariant (low nibble of F zero) is what survives the round trip
/// bit-for-bit.
pub proof fn lemma_push_pop_round_trip(regs: Registers, mem: Seq<u8>, rr: RegisterPair)
    requires
        mem.len() == 0x10000,
        rr == RegisterPair::AF ==> regs.flags_clean(),
    ensures
        ({
            let pushed = spec_push_rr(regs, mem, rr);
            let after = spec_pop_rr(pushed.0, pushed.1, rr);
            after.spec_pair(rr) == regs.spec_pair(rr) && after.sp == regs.sp
        }),
{
    let v = regs.spec_pair(rr);
    let pushed = spec_push_rr(regs, mem, rr);
    let after = spec_pop_rr(pushed.0, pushed.1, rr);
    assert(pushed.1[regs.sp.wrapping_sub(2) as int] == (v % 256) as u8);
    assert(pushed.0.sp.wrapping_add(1) == regs.sp.wrapping_sub(1));
    assert(pushed.1[regs.sp.wrapping_sub(1) as int] == (v / 256) as u8);
    assert(le16((v % 256) as u8, (v / 256) as u8) == v);
    if rr == RegisterPair::AF {
        let f = regs.f;
        assert(v % 256 == f);
        assert(f & 0x0F == 0 ==> f & 0xF0 == f) by (bit_vector);
    }
}

/// CALL to a target pushes the address of the instruction that
/// follows the call (high byte at SP-1, low byte at SP-2), sets PC to
/// the target, and a RET executed from that state restores PC to the
/// pushed address and SP to its value before the call.
pub proof fn lemma_call_ret_round_trip(regs: Registers, mem: Seq<u8>)
    requires
        mem.len() == 0x10000,
    ensures
        ({
            let called = spec_call(regs, mem);
            let ret = regs.pc.wrapping_add(3);
            &&& called.0.pc == le16(
                mem8(mem, regs.pc.wrapping_add(1)),
                mem8(mem, regs.pc.wrapping_add(2)),
            )
            &&& called.0.sp == regs.sp.wrapping_sub(2)
            &&& mem8(called.1, regs.sp.wrapping_sub(1)) == (ret / 256) as u8
            &&& mem8(called.1, regs.sp.wrapping_sub(2)) == (ret % 256) as u8
            &&& spec_ret(called.0, called.1).pc == ret
            &&& spec_ret(called.0, called.1).sp == regs.sp
        }),
{
    let called = spec_call(regs, mem);
    let ret = regs.pc.wrapping_add(3);
    assert(called.0.sp.wrapping_add(1) == regs.sp.wrapping_sub(1));
    assert(le16((ret % 256) as u8, (ret / 256) as u8) == ret);
}

/// A conditional relative jump whose condition is not satisfied
/// advances PC by exactly 2; a satisfied one lands at the address of
/// the next instruction plus the signed displacement.
pub proof fn lemma_jr_semantics(regs: Registers, mem: Seq<u8>, cc: Flag, set: bool)
    requires
        cc == Flag::Z || cc == Flag::C,
    ensures
        regs.spec_flag(cc) != set ==> spec_jr_cc_e(regs, mem, cc, set).pc == regs.pc.wrapping_add(
            2,
        ),
        regs.spec_flag(cc) == set ==> spec_jr_cc_e(regs, mem, cc, set).pc == jr_target(
            regs.pc,
            mem8(mem, regs.pc.wrapping_add(1)),
        ),
{
}

/// The landing address of a relative jump, in plain arithmetic: the
/// address of the following instruction plus the displacement byte
/// read as a signed value, modulo 65536.
pub proof fn lemma_jr_target_arithmetic(pc: u16, e: u8)
    ensures
        jr_target(pc, e) == ((pc + 2 + (if e < 0x80 {
            e as int
        } else {
            e - 256
        })) % 0x10000) as u16,
{
    assert(e < 0x80 ==> ((e as i8) as u16) == e) by (bit_vector);
    assert(e >= 0x80 ==> ((e as i8) as u16) == (e as u16) + 0xFF00) by (bit_vector);
}

/// CPL complements the accumulator and sets N and H; Z and C are
/// unaffected.
pub proof fn lemma_cpl_flags(regs: Registers)
    ensures
        spec_cpl(regs).a == !regs.a,
        spec_cpl(regs).spec_n(),
        spec_cpl(regs).spec_h(),
        spec_cpl(regs).spec_z() == regs.spec_z(),
        spec_cpl(regs).spec_c() == regs.spec_c(),
{
    lemma_flag_bits(regs.spec_z(), true, true, regs.spec_c());
}

/// No instruction of the opcode table writes the flag register
/// through an 8-bit destination selector: the flags change only
/// through packed flag writes and the masked AF pair write.
pub proof fn lemma_table_never_writes_flag_register(op: u8)
    ensures
        opcode_spec(op) matches Instruction::LdNnN(r) ==> r != RegisterU8::F,
        opcode_spec(op) matches Instruction::LdRN(r) ==> r != RegisterU8::F,
        opcode_spec(op) matches Instruction::LdRFromMemHL(r) ==> r != RegisterU8::F,
{
    reveal(opcode_spec);
}

/// The flag layout invariant survives every step: from a state whose
/// F register has a zero low nibble, one step of the engine leaves a
/// state whose F register has a zero low nibble, whatever the memory
/// holds.
#[verifier::rlimit(100)]
#[verifier::spinoff_prover]
pub proof fn lemma_step_preserves_flag_layout(cpu: Cpu, mem: Seq<u8>)
    requires
        cpu.registers.flags_clean(),
    ensures
        step_spec(cpu, mem).registers.flags_clean(),
{
    assert forall|z: bool, n: bool, h: bool, c: bool|
        (#[trigger] crate::registers::flag_bits(z, n, h, c)) & 0x0F == 0 by {
        lemma_flag_bits(z, n, h, c);
    }
    assert forall|x: u8| (#[trigger] (x & 0xF0)) & 0x0F == 0 by {
        assert((x & 0xF0) & 0x0F == 0) by (bit_vector);
    }
    let op = mem8(mem, cpu.registers.pc);
    lemma_table_never_writes_flag_register(op);
    lemma_table_loads_never_touch_flags(op);
}

/// The cycle counter never moves backwards: whatever one step does,
/// the counter after it is at least the counter before it.
#[verifier::rlimit(100)]
#[verifier::spinoff_prover]
pub proof fn lemma_cycle_counter_monotone(cpu: Cpu, mem: Seq<u8>)
    ensures
        step_spec(cpu, mem).cycles >= cpu.cycles,
{
    assert forall|c: u64, n: u64| #[trigger] crate::cpu::cycles_add(c, n) >= c by {}
}

/// An opcode byte is classified architecturally invalid exactly when
/// it is one of the hardware's illegal bytes; in particular no
/// illegal byte is ever classified as merely unimplemented.
pub proof fn lemma_illegal_is_invalid(op: u8)
    ensures
        is_illegal_opcode(op) <==> opcode_spec(op) is Invalid,
        is_illegal_opcode(op) ==> !(opcode_spec(op) is Unimplemented),
{
    reveal(opcode_spec);
}

/// Dispatching an architecturally illegal opcode stops the engine and
/// reports InvalidOpcode with the failing opcode value and PC,
/// leaving registers, memory and the cycle counter untouched.
pub proof fn lemma_illegal_opcode_stops(cpu: Cpu, mem: Seq<u8>)
    requires
        cpu.state == CpuState::Running,
        is_illegal_opcode(mem8(mem, cpu.registers.pc)),
    ensures
        ({
            let op = mem8(mem, cpu.registers.pc);
            let outcome = step_spec(cpu, mem);
            &&& outcome.result == Err::<(), StepError>(
                StepError {
                    kind: StepErrorKind::InvalidOpcode,
                    opcode: op,
                    pc: cpu.registers.pc,
                },
            )
            &&& outcome.state == CpuState::Stopped
            &&& outcome.registers == cpu.registers
            &&& outcome.mem == mem
            &&& outcome.cycles == cpu.cycles
        }),
{
    let op = mem8(mem, cpu.registers.pc);
    lemma_illegal_is_invalid(op);
}

} // verus!
