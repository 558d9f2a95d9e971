use gbcpu::instructions::{
    ArithmeticSource, ArithmeticTarget, BitSource, CompareSource, DecrementTarget, IncTarget,
    JumpCondition, LoadHSource, LoadHTarget, LoadSource, LoadTarget, LoadTypeN16, PopTarget,
    PushTarget, RotateTarget,
};
use gbcpu::{FlagsRegister, Instruction, StepError, CPU};

fn cpu() -> Box<CPU> {
    Box::new(CPU::default())
}

#[test]
fn default_state_is_all_zero() {
    let c = cpu();
    assert_eq!(c.pc, 0);
    assert_eq!(c.sp, 0);
    assert_eq!(c.registers.a, 0);
    assert_eq!(c.registers.get_hl(), 0);
    assert_eq!(
        c.flags_register,
        FlagsRegister { zero: false, subtract: false, half_carry: false, carry: false }
    );
    assert_eq!(c.bus.read_byte(0x1234), 0);
}

#[test]
fn inc_c_sets_half_carry_from_the_low_nibble() {
    let mut c = cpu();
    c.registers.c = 0x0F;
    assert_eq!(c.execute(Instruction::INC(IncTarget::C)), Ok(()));
    assert_eq!(c.registers.c, 0x10);
    assert!(c.flags_register.half_carry);
    assert!(!c.flags_register.zero);
    assert!(!c.flags_register.subtract);

    c.registers.c = 0x10;
    assert_eq!(c.execute(Instruction::INC(IncTarget::C)), Ok(()));
    assert_eq!(c.registers.c, 0x11);
    assert!(!c.flags_register.half_carry);
}

#[test]
fn inc_half_carry_is_not_a_byte_comparison() {
    let mut c = cpu();
    c.registers.b = 0x2F;
    c.execute(Instruction::INC(IncTarget::B)).unwrap();
    assert_eq!(c.registers.b, 0x30);
    assert!(c.flags_register.half_carry);
}

#[test]
fn inc_wraps_to_zero_and_keeps_carry() {
    let mut c = cpu();
    c.registers.h = 0xFF;
    c.flags_register.carry = true;
    c.execute(Instruction::INC(IncTarget::H)).unwrap();
    assert_eq!(c.registers.h, 0);
    assert!(c.flags_register.zero);
    assert!(c.flags_register.half_carry);
    assert!(c.flags_register.carry);
}

#[test]
fn inc_pairs_wrap_and_leave_flags() {
    let mut c = cpu();
    c.registers.set_hl(0xFFFF);
    c.registers.set_de(0x00FF);
    c.execute(Instruction::INC(IncTarget::HL)).unwrap();
    c.execute(Instruction::INC(IncTarget::DE)).unwrap();
    assert_eq!(c.registers.get_hl(), 0);
    assert_eq!(c.registers.get_de(), 0x0100);
    assert!(!c.flags_register.zero);
}

#[test]
fn dec_sets_half_carry_when_the_low_nibble_was_zero() {
    let mut c = cpu();
    c.registers.b = 0x10;
    c.execute(Instruction::DEC(DecrementTarget::B)).unwrap();
    assert_eq!(c.registers.b, 0x0F);
    assert!(c.flags_register.half_carry);
    assert!(c.flags_register.subtract);
    assert!(!c.flags_register.zero);

    c.registers.e = 1;
    c.execute(Instruction::DEC(DecrementTarget::E)).unwrap();
    assert_eq!(c.registers.e, 0);
    assert!(c.flags_register.zero);
    assert!(!c.flags_register.half_carry);

    c.registers.a = 0;
    c.execute(Instruction::DEC(DecrementTarget::A)).unwrap();
    assert_eq!(c.registers.a, 0xFF);
    assert!(c.flags_register.half_carry);
}

#[test]
fn jr_taken_jumps_back_by_the_signed_displacement() {
    let mut c = cpu();
    c.pc = 0x100;
    c.bus.write_byte(0x100, 0xFE);
    c.flags_register.zero = true;
    c.execute(Instruction::JR(JumpCondition::Z)).unwrap();
    assert_eq!(c.pc, 0xFF);

    c.pc = 0x100;
    c.execute(Instruction::JR(JumpCondition::Always)).unwrap();
    assert_eq!(c.pc, 0xFF);
}

#[test]
fn jr_not_taken_still_consumes_the_displacement() {
    let mut c = cpu();
    c.pc = 0x100;
    c.bus.write_byte(0x100, 0xFE);
    c.flags_register.zero = false;
    c.execute(Instruction::JR(JumpCondition::Z)).unwrap();
    assert_eq!(c.pc, 0x101);

    c.pc = 0x100;
    c.flags_register.zero = true;
    c.execute(Instruction::JR(JumpCondition::NZ)).unwrap();
    assert_eq!(c.pc, 0x101);
}

#[test]
fn jr_forward_through_step() {
    let mut c = cpu();
    c.load_bootstrap(&[0x20, 0x05]);
    assert_eq!(c.step(), Ok(()));
    assert_eq!(c.pc, 0x07);
}

#[test]
fn call_then_ret_round_trip() {
    let mut c = cpu();
    c.pc = 0x200;
    c.sp = 0xFFFE;
    c.bus.write_byte(0x200, 0xCD);
    c.bus.write_byte(0x201, 0x50);
    c.bus.write_byte(0x202, 0x01);
    c.bus.write_byte(0x150, 0xC9);
    assert_eq!(c.step(), Ok(()));
    assert_eq!(c.pc, 0x0150);
    assert_eq!(c.sp, 0xFFFC);
    assert_eq!(c.bus.read_byte(0xFFFD), 0x02);
    assert_eq!(c.bus.read_byte(0xFFFC), 0x03);
    assert_eq!(c.step(), Ok(()));
    assert_eq!(c.pc, 0x203);
    assert_eq!(c.sp, 0xFFFE);
}

#[test]
fn xor_a_a_clears_for_every_accumulator() {
    let mut c = cpu();
    for a in 0..=255u8 {
        c.registers.a = a;
        c.flags_register =
            FlagsRegister { zero: false, subtract: true, half_carry: true, carry: true };
        c.execute(Instruction::XOR(ArithmeticTarget::A, ArithmeticSource::A)).unwrap();
        assert_eq!(c.registers.a, 0);
        assert_eq!(
            c.flags_register,
            FlagsRegister { zero: true, subtract: false, half_carry: false, carry: false }
        );
    }
}

#[test]
fn xor_with_another_register_and_memory() {
    let mut c = cpu();
    c.registers.a = 0b1100;
    c.registers.b = 0b1010;
    c.execute(Instruction::XOR(ArithmeticTarget::A, ArithmeticSource::B)).unwrap();
    assert_eq!(c.registers.a, 0b0110);
    assert!(!c.flags_register.zero);
    c.registers.set_hl(0xC000);
    c.bus.write_byte(0xC000, 0b0110);
    c.execute(Instruction::XOR(ArithmeticTarget::A, ArithmeticSource::HL_)).unwrap();
    assert_eq!(c.registers.a, 0);
    assert!(c.flags_register.zero);
}

#[test]
fn rla_on_zero_keeps_zero_flag_clear() {
    let mut c = cpu();
    c.registers.a = 0;
    c.flags_register.zero = true;
    c.execute(Instruction::RLA).unwrap();
    assert_eq!(c.registers.a, 0);
    assert!(!c.flags_register.carry);
    assert!(!c.flags_register.zero);
}

#[test]
fn rl_on_zero_sets_zero_flag() {
    let mut c = cpu();
    c.registers.c = 0;
    c.execute(Instruction::RL(RotateTarget::C)).unwrap();
    assert_eq!(c.registers.c, 0);
    assert!(c.flags_register.zero);
    assert!(!c.flags_register.carry);
}

#[test]
fn rl_rotates_through_carry() {
    let mut c = cpu();
    c.registers.c = 0x80;
    c.flags_register.carry = true;
    c.execute(Instruction::RL(RotateTarget::C)).unwrap();
    assert_eq!(c.registers.c, 0x01);
    assert!(c.flags_register.carry);
    assert!(!c.flags_register.zero);

    c.registers.a = 0x95;
    c.flags_register.carry = false;
    c.execute(Instruction::RLA).unwrap();
    assert_eq!(c.registers.a, 0x2A);
    assert!(c.flags_register.carry);
}

#[test]
fn bit_tests_one_bit_and_keeps_carry() {
    let mut c = cpu();
    c.registers.h = 0x80;
    c.flags_register.carry = true;
    c.flags_register.subtract = true;
    c.execute(Instruction::BIT(7, BitSource::H)).unwrap();
    assert!(!c.flags_register.zero);
    assert!(!c.flags_register.subtract);
    assert!(c.flags_register.half_carry);
    assert!(c.flags_register.carry);

    c.registers.h = 0x7F;
    c.execute(Instruction::BIT(7, BitSource::H)).unwrap();
    assert!(c.flags_register.zero);
    c.execute(Instruction::BIT(0, BitSource::H)).unwrap();
    assert!(!c.flags_register.zero);
}

#[test]
fn compare_with_immediate() {
    let mut c = cpu();
    c.registers.a = 0x10;
    c.bus.write_byte(0, 0x21);
    c.execute(Instruction::CP(CompareSource::N8)).unwrap();
    assert_eq!(c.pc, 1);
    assert_eq!(c.registers.a, 0x10);
    assert_eq!(
        c.flags_register,
        FlagsRegister { zero: false, subtract: true, half_carry: true, carry: true }
    );

    c.bus.write_byte(1, 0x10);
    c.execute(Instruction::CP(CompareSource::N8)).unwrap();
    assert_eq!(
        c.flags_register,
        FlagsRegister { zero: true, subtract: true, half_carry: false, carry: false }
    );
}

#[test]
fn compare_with_memory_at_hl() {
    let mut c = cpu();
    c.registers.a = 0x05;
    c.registers.set_hl(0xC010);
    c.bus.write_byte(0xC010, 0x03);
    c.execute(Instruction::CP(CompareSource::HL_)).unwrap();
    assert_eq!(c.pc, 0);
    assert_eq!(
        c.flags_register,
        FlagsRegister { zero: false, subtract: true, half_carry: false, carry: false }
    );
}

#[test]
fn ld_registers_and_immediates() {
    let mut c = cpu();
    c.bus.write_byte(0, 0x99);
    c.execute(Instruction::LD(LoadTarget::B, LoadSource::N8)).unwrap();
    assert_eq!(c.registers.b, 0x99);
    assert_eq!(c.pc, 1);
    c.execute(Instruction::LD(LoadTarget::A, LoadSource::B)).unwrap();
    assert_eq!(c.registers.a, 0x99);
    c.execute(Instruction::LD(LoadTarget::H, LoadSource::A)).unwrap();
    assert_eq!(c.registers.h, 0x99);
    assert_eq!(c.pc, 1);
}

#[test]
fn ld_from_memory_at_de() {
    let mut c = cpu();
    c.registers.set_de(0x1234);
    c.bus.write_byte(0x1234, 0x5A);
    c.execute(Instruction::LD(LoadTarget::A, LoadSource::DE_)).unwrap();
    assert_eq!(c.registers.a, 0x5A);
}

#[test]
fn ld_through_hl_with_increment_and_decrement() {
    let mut c = cpu();
    c.registers.a = 0x42;
    c.registers.set_hl(0xC000);
    c.execute(Instruction::LD(LoadTarget::HLI, LoadSource::A)).unwrap();
    assert_eq!(c.bus.read_byte(0xC000), 0x42);
    assert_eq!(c.registers.get_hl(), 0xC001);
    c.execute(Instruction::LD(LoadTarget::HLD, LoadSource::A)).unwrap();
    assert_eq!(c.bus.read_byte(0xC001), 0x42);
    assert_eq!(c.registers.get_hl(), 0xC000);
    c.registers.set_hl(0);
    c.execute(Instruction::LD(LoadTarget::HLD, LoadSource::A)).unwrap();
    assert_eq!(c.registers.get_hl(), 0xFFFF);
    c.registers.a = 0x11;
    c.execute(Instruction::LD(LoadTarget::HL_, LoadSource::A)).unwrap();
    assert_eq!(c.bus.read_byte(0xFFFF), 0x11);
    assert_eq!(c.registers.get_hl(), 0xFFFF);
}

#[test]
fn ld_to_immediate_address() {
    let mut c = cpu();
    c.registers.a = 0x77;
    c.pc = 0x10;
    c.bus.write_byte(0x10, 0x34);
    c.bus.write_byte(0x11, 0x12);
    c.execute(Instruction::LD(LoadTarget::N16_, LoadSource::A)).unwrap();
    assert_eq!(c.bus.read_byte(0x1234), 0x77);
    assert_eq!(c.pc, 0x12);
}

#[test]
fn ldh_uses_the_high_page() {
    let mut c = cpu();
    c.registers.a = 0x91;
    c.registers.c = 0x44;
    c.execute(Instruction::LDH(LoadHTarget::C_, LoadHSource::A)).unwrap();
    assert_eq!(c.bus.read_ly(), 0x91);

    c.bus.write_byte(0, 0x80);
    c.registers.a = 0x05;
    c.execute(Instruction::LDH(LoadHTarget::N8_, LoadHSource::A)).unwrap();
    assert_eq!(c.bus.read_byte(0xFF80), 0x05);
    assert_eq!(c.pc, 1);

    c.bus.write_byte(1, 0x44);
    c.execute(Instruction::LDH(LoadHTarget::A, LoadHSource::N8_)).unwrap();
    assert_eq!(c.registers.a, 0x91);
    assert_eq!(c.pc, 2);
}

#[test]
fn ldn16_reads_a_little_endian_word() {
    let mut c = cpu();
    c.load_bootstrap(&[0xFE, 0xFF, 0x00, 0x80, 0x34, 0x12]);
    c.execute(Instruction::LDN16(LoadTypeN16::SP)).unwrap();
    assert_eq!(c.sp, 0xFFFE);
    c.execute(Instruction::LDN16(LoadTypeN16::HL)).unwrap();
    assert_eq!(c.registers.get_hl(), 0x8000);
    c.execute(Instruction::LDN16(LoadTypeN16::DE)).unwrap();
    assert_eq!(c.registers.get_de(), 0x1234);
    assert_eq!(c.pc, 6);
}

#[test]
fn push_then_pop_bc() {
    let mut c = cpu();
    c.sp = 0xFFFE;
    c.registers.set_bc(0x1234);
    c.execute(Instruction::PUSH(PushTarget::BC)).unwrap();
    assert_eq!(c.sp, 0xFFFC);
    assert_eq!(c.bus.read_byte(0xFFFD), 0x12);
    assert_eq!(c.bus.read_byte(0xFFFC), 0x34);
    c.registers.set_bc(0);
    c.execute(Instruction::POP(PopTarget::BC)).unwrap();
    assert_eq!(c.registers.get_bc(), 0x1234);
    assert_eq!(c.sp, 0xFFFE);
}

#[test]
fn stack_pointer_wraps() {
    let mut c = cpu();
    c.sp = 0x0000;
    c.registers.set_bc(0xBEEF);
    c.execute(Instruction::PUSH(PushTarget::BC)).unwrap();
    assert_eq!(c.sp, 0xFFFE);
    assert_eq!(c.bus.read_byte(0xFFFF), 0xBE);
    assert_eq!(c.bus.read_byte(0xFFFE), 0xEF);
}

#[test]
fn nop_only_advances_pc() {
    let mut c = cpu();
    assert_eq!(c.step(), Ok(()));
    assert_eq!(c.pc, 1);
    assert_eq!(c.registers.a, 0);
}

#[test]
fn prefixed_step_reads_two_bytes() {
    let mut c = cpu();
    c.load_bootstrap(&[0xCB, 0x7C]);
    assert_eq!(c.step(), Ok(()));
    assert_eq!(c.pc, 2);
    assert!(c.flags_register.zero);
    assert!(c.flags_register.half_carry);
}

#[test]
fn bootstrap_program_runs() {
    let mut c = cpu();
    c.load_bootstrap(&[0x31, 0xFE, 0xFF, 0xAF, 0x21, 0xFF, 0x9F, 0x32]);
    for _ in 0..4 {
        assert_eq!(c.step(), Ok(()));
    }
    assert_eq!(c.sp, 0xFFFE);
    assert_eq!(c.registers.get_hl(), 0x9FFE);
    assert_eq!(c.pc, 8);
    assert!(c.flags_register.zero);
}

#[test]
fn unknown_opcode_is_reported() {
    let mut c = cpu();
    c.bus.write_byte(0, 0xD3);
    assert_eq!(c.step(), Err(StepError::UnknownOpcode { opcode: 0xD3, prefixed: false }));
    assert_eq!(c.pc, 1);
}

#[test]
fn unknown_prefixed_opcode_is_reported() {
    let mut c = cpu();
    c.load_bootstrap(&[0xCB, 0x00]);
    assert_eq!(c.step(), Err(StepError::UnknownOpcode { opcode: 0x00, prefixed: true }));
    assert_eq!(c.pc, 2);
}

#[test]
fn unimplemented_combinations_are_reported_and_change_nothing() {
    let mut c = cpu();
    c.registers.a = 3;
    c.registers.b = 4;
    c.load_bootstrap(&[0x86, 0x90]);
    assert_eq!(
        c.step(),
        Err(StepError::Unimplemented(Instruction::ADD(ArithmeticSource::HL_)))
    );
    assert_eq!(c.pc, 1);
    assert_eq!(
        c.step(),
        Err(StepError::Unimplemented(Instruction::SUB(ArithmeticSource::B)))
    );
    assert_eq!(c.registers.a, 3);
    assert_eq!(c.flags_register, FlagsRegister::default());

    let ins = Instruction::BIT(8, BitSource::H);
    assert_eq!(c.execute(ins), Err(StepError::Unimplemented(ins)));
    let ins = Instruction::XOR(ArithmeticTarget::B, ArithmeticSource::A);
    assert_eq!(c.execute(ins), Err(StepError::Unimplemented(ins)));
    assert_eq!(c.registers.b, 4);
    let ins = Instruction::XOR(ArithmeticTarget::A, ArithmeticSource::HLI);
    assert_eq!(c.execute(ins), Err(StepError::Unimplemented(ins)));
    let ins = Instruction::LDH(LoadHTarget::C_, LoadHSource::N8_);
    assert_eq!(c.execute(ins), Err(StepError::Unimplemented(ins)));
    assert_eq!(c.pc, 2);
}
