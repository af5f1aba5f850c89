use gb_cpu::bit_operations;
use gb_cpu::cpu::Cpu;
use gb_cpu::cpu::CpuState;
use gb_cpu::cpu::StepError;
use gb_cpu::cpu::StepErrorKind;
use gb_cpu::memory::Memory;
use gb_cpu::registers::Flag;
use gb_cpu::registers::RegisterPair;
use gb_cpu::registers::Registers;

fn fresh() -> (Cpu, Memory) {
    (Cpu::new(), Memory::new())
}

#[test]
fn inc_wraps_at_byte_boundary_and_sets_z() {
    let (mut cpu, mut memory) = fresh();
    memory.write(0x0000, 0x3C);
    cpu.registers.a = 0xFF;

    let r = cpu.run_instruction(&mut memory);

    assert!(r.is_ok());
    assert_eq!(cpu.registers.a, 0x00);
    assert!(cpu.registers.get_z_flag());
    assert!(cpu.registers.get_h_flag());
    assert!(!cpu.registers.get_c_flag());
}

#[test]
fn dec_wraps_at_byte_boundary_and_sets_h() {
    let (mut cpu, mut memory) = fresh();
    memory.write(0x0000, 0x3D);
    cpu.registers.a = 0x00;

    let r = cpu.run_instruction(&mut memory);

    assert!(r.is_ok());
    assert_eq!(cpu.registers.a, 0xFF);
    assert!(cpu.registers.get_h_flag());
    assert!(cpu.registers.get_n_flag());
    assert!(!cpu.registers.get_z_flag());
}

#[test]
fn add_sets_half_carry_at_nibble_boundary() {
    let (mut cpu, mut memory) = fresh();
    memory.write(0x0000, 0x80);
    cpu.registers.a = 0x0F;
    cpu.registers.b = 0x01;

    let r = cpu.run_instruction(&mut memory);

    assert!(r.is_ok());
    assert_eq!(cpu.registers.a, 0x10);
    assert_eq!(cpu.registers.f, 0b_0010_0000);
}

#[test]
fn add_sets_full_carry_at_byte_boundary() {
    let (mut cpu, mut memory) = fresh();
    memory.write(0x0000, 0x80);
    cpu.registers.a = 0xFF;
    cpu.registers.b = 0x01;

    let r = cpu.run_instruction(&mut memory);

    assert!(r.is_ok());
    assert_eq!(cpu.registers.a, 0x00);
    assert_eq!(cpu.registers.f, 0b_1011_0000);
}

#[test]
fn push_then_pop_restores_pair_and_sp() {
    let (mut cpu, mut memory) = fresh();
    memory.write(0x0000, 0xC5);
    memory.write(0x0001, 0xC1);
    cpu.registers.sp = 0xFFFE;
    cpu.registers.b = 0x12;
    cpu.registers.c = 0x34;

    let r1 = cpu.run_instruction(&mut memory);
    assert!(r1.is_ok());
    assert_eq!(cpu.registers.sp, 0xFFFC);
    assert_eq!(memory.read(0xFFFD), 0x12);
    assert_eq!(memory.read(0xFFFC), 0x34);

    cpu.registers.b = 0x00;
    cpu.registers.c = 0x00;

    let r2 = cpu.run_instruction(&mut memory);
    assert!(r2.is_ok());
    assert_eq!(cpu.registers.get_pair(RegisterPair::BC), 0x1234);
    assert_eq!(cpu.registers.sp, 0xFFFE);
    assert_eq!(cpu.registers.pc, 0x0002);
}

#[test]
fn pop_af_keeps_flag_low_nibble_zero() {
    let (mut cpu, mut memory) = fresh();
    memory.write(0x0000, 0xF1);
    memory.write(0xFF00, 0xFF);
    memory.write(0xFF01, 0x12);
    cpu.registers.sp = 0xFF00;

    let r = cpu.run_instruction(&mut memory);

    assert!(r.is_ok());
    assert_eq!(cpu.registers.a, 0x12);
    assert_eq!(cpu.registers.f, 0xF0);
}

#[test]
fn call_pushes_return_address_and_ret_restores_it() {
    let (mut cpu, mut memory) = fresh();
    memory.write(0x0100, 0xCD);
    memory.write(0x0101, 0x00);
    memory.write(0x0102, 0x80);
    memory.write(0x8000, 0xC9);
    cpu.registers.pc = 0x0100;
    cpu.registers.sp = 0xFFFE;

    let r1 = cpu.run_instruction(&mut memory);
    assert!(r1.is_ok());
    assert_eq!(cpu.registers.pc, 0x8000);
    assert_eq!(cpu.registers.sp, 0xFFFC);
    assert_eq!(memory.read(0xFFFD), 0x01);
    assert_eq!(memory.read(0xFFFC), 0x03);

    let r2 = cpu.run_instruction(&mut memory);
    assert!(r2.is_ok());
    assert_eq!(cpu.registers.pc, 0x0103);
    assert_eq!(cpu.registers.sp, 0xFFFE);
}

#[test]
fn call_reports_exact_bytes_of_the_pushed_address() {
    let (mut cpu, mut memory) = fresh();
    memory.write(0x0000, 0xCD);
    memory.write(0x0001, 0xAB);
    memory.write(0x0002, 0xEF);
    cpu.registers.sp = 0xFFFE;

    let r = cpu.run_instruction(&mut memory);

    assert!(r.is_ok());
    assert_eq!(cpu.registers.pc, 0xEFAB);
    assert_eq!(cpu.registers.sp, 0xFFFC);
    assert_eq!(memory.read(0xFFFD), 0x00);
    assert_eq!(memory.read(0xFFFC), 0x03);
}

#[test]
fn ret_moves_sp_past_the_popped_address() {
    let (mut cpu, mut memory) = fresh();
    memory.write(0x0000, 0xC9);
    memory.write(0xFFF2, 0x31);
    memory.write(0xFFF3, 0x13);
    cpu.registers.sp = 0xFFF2;

    let r = cpu.run_instruction(&mut memory);

    assert!(r.is_ok());
    assert_eq!(cpu.registers.pc, 0x1331);
    assert_eq!(cpu.registers.sp, 0xFFF4);
}

#[test]
fn jr_not_taken_advances_pc_by_two() {
    let (mut cpu, mut memory) = fresh();
    memory.write(0x0010, 0x20);
    memory.write(0x0011, 0x05);
    cpu.registers.pc = 0x0010;
    cpu.registers.set_z_flag();

    let r = cpu.run_instruction(&mut memory);

    assert!(r.is_ok());
    assert_eq!(cpu.registers.pc, 0x0012);
    assert_eq!(cpu.cycles, 8);
}

#[test]
fn jr_taken_lands_at_next_instruction_plus_displacement() {
    let (mut cpu, mut memory) = fresh();
    memory.write(0x0010, 0x20);
    memory.write(0x0011, 0x05);
    cpu.registers.pc = 0x0010;

    let r = cpu.run_instruction(&mut memory);

    assert!(r.is_ok());
    assert_eq!(cpu.registers.pc, 0x0017);
    assert_eq!(cpu.cycles, 12);
}

#[test]
fn jr_taken_with_negative_displacement_goes_backwards() {
    let (mut cpu, mut memory) = fresh();
    memory.write(0x0010, 0x20);
    memory.write(0x0011, 0xFB);
    cpu.registers.pc = 0x0010;

    let r = cpu.run_instruction(&mut memory);

    assert!(r.is_ok());
    assert_eq!(cpu.registers.pc, 0x000D);
}

#[test]
fn jp_cc_not_taken_consumes_operand_bytes() {
    let (mut cpu, mut memory) = fresh();
    memory.write(0x0000, 0xC2);
    memory.write(0x0001, 0x31);
    memory.write(0x0002, 0x13);
    cpu.registers.set_z_flag();

    let r = cpu.run_instruction(&mut memory);

    assert!(r.is_ok());
    assert_eq!(cpu.registers.pc, 0x0003);
    assert_eq!(cpu.cycles, 12);
}

#[test]
fn jp_cc_taken_jumps_to_immediate_target() {
    let (mut cpu, mut memory) = fresh();
    memory.write(0x0000, 0xCA);
    memory.write(0x0001, 0x31);
    memory.write(0x0002, 0x13);
    cpu.registers.set_z_flag();

    let r = cpu.run_instruction(&mut memory);

    assert!(r.is_ok());
    assert_eq!(cpu.registers.pc, 0x1331);
    assert_eq!(cpu.cycles, 16);
}

#[test]
fn cpl_sets_n_and_h_and_keeps_z_and_c() {
    let (mut cpu, mut memory) = fresh();
    memory.write(0x0000, 0x2F);
    cpu.registers.a = 0x13;
    cpu.registers.f = 0b_1001_0000;

    let r = cpu.run_instruction(&mut memory);

    assert!(r.is_ok());
    assert_eq!(cpu.registers.a, 0xEC);
    assert_eq!(cpu.registers.f, 0b_1111_0000);
}

#[test]
fn xor_clears_all_flags() {
    let (mut cpu, mut memory) = fresh();
    memory.write(0x0000, 0xA8);
    cpu.registers.a = 0x13;
    cpu.registers.b = 0x19;
    cpu.registers.f = 0xF0;

    let r = cpu.run_instruction(&mut memory);

    assert!(r.is_ok());
    assert_eq!(cpu.registers.a, 0x0A);
    assert_eq!(cpu.registers.f, 0x00);
}

#[test]
fn ld_hl_n_advances_pc_by_two() {
    let (mut cpu, mut memory) = fresh();
    memory.write(0x0000, 0x36);
    memory.write(0x0001, 0x19);
    cpu.registers.h = 0x13;
    cpu.registers.l = 0x31;

    let r = cpu.run_instruction(&mut memory);

    assert!(r.is_ok());
    assert_eq!(memory.read(0x1331), 0x19);
    assert_eq!(cpu.registers.pc, 0x0002);
}

#[test]
fn every_illegal_opcode_is_reported_invalid() {
    let illegal: [u8; 11] = [
        0xD3, 0xDB, 0xDD, 0xE3, 0xE4, 0xEB, 0xEC, 0xED, 0xF4, 0xFC, 0xFD,
    ];
    for &op in illegal.iter() {
        let (mut cpu, mut memory) = fresh();
        memory.write(0x0000, op);

        let r = cpu.run_instruction(&mut memory);

        assert_eq!(
            r,
            Err(StepError { kind: StepErrorKind::InvalidOpcode, opcode: op, pc: 0x0000 })
        );
        assert_eq!(cpu.state, CpuState::Stopped);
        assert_eq!(cpu.cycles, 0);
    }
}

#[test]
fn unmodeled_legal_opcode_is_reported_unimplemented() {
    let (mut cpu, mut memory) = fresh();
    memory.write(0x0000, 0xE2);

    let r = cpu.run_instruction(&mut memory);

    assert_eq!(
        r,
        Err(StepError { kind: StepErrorKind::UnimplementedOpcode, opcode: 0xE2, pc: 0x0000 })
    );
    assert_eq!(cpu.state, CpuState::Stopped);
}

#[test]
fn stopped_core_does_not_step() {
    let (mut cpu, mut memory) = fresh();
    memory.write(0x0000, 0xD3);

    let r1 = cpu.run_instruction(&mut memory);
    assert!(r1.is_err());

    let r2 = cpu.run_instruction(&mut memory);
    assert!(r2.is_ok());
    assert_eq!(cpu.registers.pc, 0x0000);
    assert_eq!(cpu.cycles, 0);
}

#[test]
fn condition_code_over_n_or_h_fails_fast() {
    let (mut cpu, memory) = fresh();

    let r1 = cpu.jr_cc_e(&memory, Flag::N, true);
    assert_eq!(r1, Err(StepErrorKind::InvalidConditionCode));

    let r2 = cpu.jp_cc_nn(&memory, Flag::H, false);
    assert_eq!(r2, Err(StepErrorKind::InvalidConditionCode));

    assert_eq!(cpu.registers.pc, 0x0000);
}

#[test]
fn prefixed_rlc_rotates_circularly_into_carry() {
    let (mut cpu, mut memory) = fresh();
    memory.write(0x0000, 0xCB);
    memory.write(0x0001, 0x00);
    cpu.registers.b = 0x80;

    let r = cpu.run_instruction(&mut memory);

    assert!(r.is_ok());
    assert_eq!(cpu.registers.b, 0x01);
    assert!(cpu.registers.get_c_flag());
    assert!(!cpu.registers.get_z_flag());
    assert_eq!(cpu.registers.pc, 0x0002);
    assert_eq!(cpu.cycles, 4);
}

#[test]
fn prefixed_srl_shifts_out_into_carry_and_sets_z() {
    let (mut cpu, mut memory) = fresh();
    memory.write(0x0000, 0xCB);
    memory.write(0x0001, 0x3F);
    cpu.registers.a = 0x01;

    let r = cpu.run_instruction(&mut memory);

    assert!(r.is_ok());
    assert_eq!(cpu.registers.a, 0x00);
    assert!(cpu.registers.get_c_flag());
    assert!(cpu.registers.get_z_flag());
}

#[test]
fn prefixed_rr_rotates_through_carry() {
    let (mut cpu, mut memory) = fresh();
    memory.write(0x0000, 0xCB);
    memory.write(0x0001, 0x19);
    cpu.registers.c = 0x02;
    cpu.registers.set_c_flag();

    let r = cpu.run_instruction(&mut memory);

    assert!(r.is_ok());
    assert_eq!(cpu.registers.c, 0x81);
    assert!(!cpu.registers.get_c_flag());
}

#[test]
fn prefixed_set_writes_one_bit_through_hl() {
    let (mut cpu, mut memory) = fresh();
    memory.write(0x0000, 0xCB);
    memory.write(0x0001, 0xDE);
    memory.write(0x2000, 0x01);
    cpu.registers.h = 0x20;
    cpu.registers.l = 0x00;

    let r = cpu.run_instruction(&mut memory);

    assert!(r.is_ok());
    assert_eq!(memory.read(0x2000), 0x09);
    assert_eq!(cpu.registers.pc, 0x0002);
}

#[test]
fn cycle_counter_accumulates_base_costs() {
    let (mut cpu, mut memory) = fresh();
    memory.write(0x0000, 0x00);
    memory.write(0x0001, 0x06);
    memory.write(0x0002, 0x42);
    memory.write(0x0003, 0xCD);
    memory.write(0x0004, 0x00);
    memory.write(0x0005, 0x10);

    let r1 = cpu.run_instruction(&mut memory);
    assert!(r1.is_ok());
    assert_eq!(cpu.cycles, 4);

    let r2 = cpu.run_instruction(&mut memory);
    assert!(r2.is_ok());
    assert_eq!(cpu.registers.b, 0x42);
    assert_eq!(cpu.cycles, 12);

    let r3 = cpu.run_instruction(&mut memory);
    assert!(r3.is_ok());
    assert_eq!(cpu.registers.pc, 0x1000);
    assert_eq!(cpu.cycles, 36);
}

#[test]
fn ldh_reads_and_writes_the_high_page() {
    let (mut cpu, mut memory) = fresh();
    memory.write(0x0000, 0xE0);
    memory.write(0x0001, 0x44);
    memory.write(0x0002, 0xF0);
    memory.write(0x0003, 0x47);
    memory.write(0xFF47, 0x99);
    cpu.registers.a = 0x55;

    let r1 = cpu.run_instruction(&mut memory);
    assert!(r1.is_ok());
    assert_eq!(memory.read(0xFF44), 0x55);
    assert_eq!(cpu.registers.pc, 0x0002);

    let r2 = cpu.run_instruction(&mut memory);
    assert!(r2.is_ok());
    assert_eq!(cpu.registers.a, 0x99);
}

#[test]
fn halt_suspends_fetch_decode() {
    let (mut cpu, mut memory) = fresh();
    memory.write(0x0000, 0x76);
    memory.write(0x0001, 0x3C);

    let r1 = cpu.run_instruction(&mut memory);
    assert!(r1.is_ok());
    assert_eq!(cpu.state, CpuState::Halted);
    assert_eq!(cpu.registers.pc, 0x0001);

    let r2 = cpu.run_instruction(&mut memory);
    assert!(r2.is_ok());
    assert_eq!(cpu.registers.pc, 0x0001);
    assert_eq!(cpu.registers.a, 0x00);
}

#[test]
fn di_clears_the_interrupt_enable_flag() {
    let (mut cpu, mut memory) = fresh();
    memory.write(0x0000, 0xF3);
    cpu.ime = true;

    let r = cpu.run_instruction(&mut memory);

    assert!(r.is_ok());
    assert!(!cpu.ime);
    assert_eq!(cpu.registers.pc, 0x0001);
}

#[test]
fn stop_advances_past_both_encoded_bytes() {
    let (mut cpu, mut memory) = fresh();
    memory.write(0x0000, 0x10);

    let r = cpu.run_instruction(&mut memory);

    assert!(r.is_ok());
    assert_eq!(cpu.registers.pc, 0x0002);
}

#[test]
fn adc_adds_the_incoming_carry() {
    let (mut cpu, mut memory) = fresh();
    memory.write(0x0000, 0x88);
    cpu.registers.a = 0xFE;
    cpu.registers.b = 0x01;
    cpu.registers.set_c_flag();

    let r = cpu.run_instruction(&mut memory);

    assert!(r.is_ok());
    assert_eq!(cpu.registers.a, 0x00);
    assert_eq!(cpu.registers.f, 0b_1011_0000);
}

#[test]
fn sbc_subtracts_the_incoming_borrow() {
    let (mut cpu, mut memory) = fresh();
    memory.write(0x0000, 0x99);
    cpu.registers.a = 0x10;
    cpu.registers.c = 0x0F;
    cpu.registers.set_c_flag();

    let r = cpu.run_instruction(&mut memory);

    assert!(r.is_ok());
    assert_eq!(cpu.registers.a, 0x00);
    assert_eq!(cpu.registers.f, 0b_1110_0000);
}

#[test]
fn add_hl_rr_carries_at_bit_eleven() {
    let (mut cpu, mut memory) = fresh();
    memory.write(0x0000, 0x29);
    cpu.registers.h = 0x0F;
    cpu.registers.l = 0xFF;

    let r = cpu.run_instruction(&mut memory);

    assert!(r.is_ok());
    assert_eq!(cpu.registers.get_pair(RegisterPair::HL), 0x1FFE);
    assert_eq!(cpu.registers.f, 0b_0010_0000);
}

#[test]
fn ld_sp_immediate_and_ld_nn_sp_store_little_endian() {
    let (mut cpu, mut memory) = fresh();
    memory.write(0x0000, 0x31);
    memory.write(0x0001, 0xCD);
    memory.write(0x0002, 0xAB);
    memory.write(0x0003, 0x08);
    memory.write(0x0004, 0x00);
    memory.write(0x0005, 0x30);

    let r1 = cpu.run_instruction(&mut memory);
    assert!(r1.is_ok());
    assert_eq!(cpu.registers.sp, 0xABCD);

    let r2 = cpu.run_instruction(&mut memory);
    assert!(r2.is_ok());
    assert_eq!(memory.read(0x3000), 0xCD);
    assert_eq!(memory.read(0x3001), 0xAB);
    assert_eq!(cpu.registers.pc, 0x0006);
}

#[test]
fn hl_autoincrement_loads_move_hl_without_flags() {
    let (mut cpu, mut memory) = fresh();
    memory.write(0x0000, 0x2A);
    memory.write(0x0001, 0x3A);
    memory.write(0x5000, 0x77);
    memory.write(0x5001, 0x88);
    cpu.registers.h = 0x50;
    cpu.registers.l = 0x00;
    cpu.registers.f = 0xF0;

    let r1 = cpu.run_instruction(&mut memory);
    assert!(r1.is_ok());
    assert_eq!(cpu.registers.a, 0x77);
    assert_eq!(cpu.registers.get_pair(RegisterPair::HL), 0x5001);

    let r2 = cpu.run_instruction(&mut memory);
    assert!(r2.is_ok());
    assert_eq!(cpu.registers.a, 0x88);
    assert_eq!(cpu.registers.get_pair(RegisterPair::HL), 0x5000);
    assert_eq!(cpu.registers.f, 0xF0);
}

#[test]
fn pc_and_sp_wrap_modulo_65536() {
    let (mut cpu, mut memory) = fresh();
    memory.write(0xFFFF, 0x00);
    cpu.registers.pc = 0xFFFF;

    let r1 = cpu.run_instruction(&mut memory);
    assert!(r1.is_ok());
    assert_eq!(cpu.registers.pc, 0x0000);

    memory.write(0x0000, 0xC5);
    cpu.registers.sp = 0x0001;
    cpu.registers.b = 0xAB;
    cpu.registers.c = 0xCD;

    let r2 = cpu.run_instruction(&mut memory);
    assert!(r2.is_ok());
    assert_eq!(cpu.registers.sp, 0xFFFF);
    assert_eq!(memory.read(0x0000), 0xAB);
    assert_eq!(memory.read(0xFFFF), 0xCD);
}

#[test]
fn rotate_accumulator_forms_clear_z() {
    let (mut cpu, mut memory) = fresh();
    memory.write(0x0000, 0x07);
    cpu.registers.a = 0x80;
    cpu.registers.f = 0x80;

    let r = cpu.run_instruction(&mut memory);

    assert!(r.is_ok());
    assert_eq!(cpu.registers.a, 0x01);
    assert_eq!(cpu.registers.f, 0b_0001_0000);
}

#[test]
fn rla_and_rra_rotate_through_the_carry() {
    let (mut cpu, mut memory) = fresh();
    memory.write(0x0000, 0x17);
    memory.write(0x0001, 0x1F);
    cpu.registers.a = 0x01;
    cpu.registers.set_c_flag();

    let r1 = cpu.run_instruction(&mut memory);
    assert!(r1.is_ok());
    assert_eq!(cpu.registers.a, 0x03);
    assert!(!cpu.registers.get_c_flag());

    let r2 = cpu.run_instruction(&mut memory);
    assert!(r2.is_ok());
    assert_eq!(cpu.registers.a, 0x01);
    assert!(cpu.registers.get_c_flag());
}

#[test]
fn compare_discards_the_numeric_result() {
    let (mut cpu, mut memory) = fresh();
    memory.write(0x0000, 0xFE);
    memory.write(0x0001, 0x13);
    cpu.registers.a = 0x13;

    let r = cpu.run_instruction(&mut memory);

    assert!(r.is_ok());
    assert_eq!(cpu.registers.a, 0x13);
    assert_eq!(cpu.registers.f, 0b_1100_0000);
}

#[test]
fn bit_operation_helpers_follow_the_partial_sum_rule() {
    assert!(bit_operations::get_half_carry(0x0F, 0x01));
    assert!(!bit_operations::get_half_carry(0x08, 0x07));
    assert!(bit_operations::get_carry(0xFF, 0x01));
    assert!(!bit_operations::get_carry(0xFE, 0x01));
    assert!(bit_operations::get_half_carry_sub(0x10, 0x01));
    assert!(!bit_operations::get_half_carry_sub(0x11, 0x01));
    assert!(bit_operations::get_carry_sub(0x00, 0x01));
    assert!(!bit_operations::get_carry_sub(0x01, 0x01));
    assert!(bit_operations::get_half_carry_16_bit(0x0FFF, 0x0001));
    assert!(!bit_operations::get_half_carry_16_bit(0x0FFE, 0x0001));
    assert!(bit_operations::get_carry_16_bit(0xFFFF, 0x0001));
    assert!(!bit_operations::get_carry_16_bit(0xFFFE, 0x0001));
}

#[test]
fn wrap_detectors_compare_prior_and_resulting_value() {
    let cpu = Cpu::new();
    assert!(cpu.get_carry(0xFF, 0x00));
    assert!(!cpu.get_carry(0x00, 0xFF));
    assert!(cpu.get_half_carry(0x1F, 0x20));
    assert!(!cpu.get_half_carry(0x20, 0x2F));
}

#[test]
fn rom_loading_fills_only_the_low_half() {
    let mut memory = Memory::new();
    let small: Vec<u8> = vec![1, 2, 3];
    memory.load_rom_into_memory(&small);
    assert_eq!(memory.read(0x0000), 1);
    assert_eq!(memory.read(0x0001), 2);
    assert_eq!(memory.read(0x0002), 3);
    assert_eq!(memory.read(0x0003), 0);

    let big: Vec<u8> = vec![0xAA; 0x9000];
    memory.load_rom_into_memory(&big);
    assert_eq!(memory.read(0x7FFF), 0xAA);
    assert_eq!(memory.read(0x8000), 0);
}

#[test]
fn register_pairs_compose_big_endian() {
    let mut registers = Registers::new();
    registers.set_pair(RegisterPair::BC, 0xABCD);
    assert_eq!(registers.b, 0xAB);
    assert_eq!(registers.c, 0xCD);
    assert_eq!(registers.get_pair(RegisterPair::BC), 0xABCD);

    registers.set_pair(RegisterPair::AF, 0xABCD);
    assert_eq!(registers.a, 0xAB);
    assert_eq!(registers.f, 0xC0);
}
