use e6502::console::{get_pixel_color, program_end, Rgb, ENTROPY_CELL};
use e6502::cpu::{Cpu, CpuError};
use e6502::isa::{decode, encode, AddrMode, Instruction, Mnemonic, LAST_OPCODE};
use e6502::machine::{BREAK, CARRY, DECIMAL, INTERRUPT, NEGATIVE, ORIGIN, OVERFLOW, ZERO};

fn fresh() -> Cpu {
    Cpu { a: 0, x: 0, y: 0, sp: 0xff, pc: 0x600, sr: 0, mem: [0; 1 << 16] }
}

fn run1(cpu: &mut Cpu, opcode: u8, operand: u8) {
    cpu.push_instruction(opcode, operand);
    cpu.step().unwrap();
}

fn run2(cpu: &mut Cpu, opcode: u8, high: u8, low: u8) {
    cpu.push_instruction_16(opcode, high, low);
    cpu.step().unwrap();
}

#[test]
fn default_is_all_zero() {
    let cpu = Cpu::default();
    assert_eq!((cpu.a, cpu.x, cpu.y, cpu.sp, cpu.pc, cpu.sr), (0, 0, 0, 0, 0, 0));
    assert!(cpu.mem.iter().all(|b| *b == 0));
}

#[test]
fn reset_keeps_memory() {
    let mut cpu = fresh();
    cpu.a = 1;
    cpu.x = 2;
    cpu.y = 3;
    cpu.sr = 0xff;
    cpu.mem[0x1234] = 0x56;
    cpu.reset();
    assert_eq!((cpu.a, cpu.x, cpu.y, cpu.sp, cpu.pc, cpu.sr), (0, 0, 0, 0, 0, 0));
    assert_eq!(cpu.mem[0x1234], 0x56);
}

#[test]
fn adc_signed_overflow() {
    let mut cpu = fresh();
    cpu.a = 0x7f;
    run1(&mut cpu, Instruction::ADC_IMM, 0x01);
    assert_eq!(cpu.a, 0x80);
    assert_eq!(cpu.sr & NEGATIVE, NEGATIVE);
    assert_eq!(cpu.sr & OVERFLOW, OVERFLOW);
    assert_eq!(cpu.sr & CARRY, 0);
    assert_eq!(cpu.sr & ZERO, 0);
}

#[test]
fn adc_unsigned_carry() {
    let mut cpu = fresh();
    cpu.a = 0x01;
    run1(&mut cpu, Instruction::ADC_IMM, 0xff);
    assert_eq!(cpu.a, 0x00);
    assert_eq!(cpu.sr & CARRY, CARRY);
    assert_eq!(cpu.sr & ZERO, ZERO);
    assert_eq!(cpu.sr & NEGATIVE, 0);
    assert_eq!(cpu.sr & OVERFLOW, 0);
}

#[test]
fn adc_adds_the_carry() {
    let mut cpu = fresh();
    cpu.a = 0x10;
    cpu.sr = CARRY;
    run1(&mut cpu, Instruction::ADC_IMM, 0x05);
    assert_eq!(cpu.a, 0x16);
    assert_eq!(cpu.sr & CARRY, 0);
}

#[test]
fn adc_leaves_other_flags() {
    let mut cpu = fresh();
    cpu.sr = DECIMAL | INTERRUPT | BREAK;
    cpu.a = 1;
    run1(&mut cpu, Instruction::ADC_IMM, 1);
    assert_eq!(cpu.sr, DECIMAL | INTERRUPT | BREAK);
}

#[test]
fn sbc_without_borrow() {
    let mut cpu = fresh();
    cpu.a = 0x50;
    cpu.sr = CARRY;
    run1(&mut cpu, Instruction::SBC_IMM, 0x10);
    assert_eq!(cpu.a, 0x40);
    assert_eq!(cpu.sr & CARRY, CARRY);
    assert_eq!(cpu.sr & OVERFLOW, 0);
}

#[test]
fn sbc_with_borrow() {
    let mut cpu = fresh();
    cpu.a = 0x50;
    run1(&mut cpu, Instruction::SBC_IMM, 0x10);
    assert_eq!(cpu.a, 0x3f);
    assert_eq!(cpu.sr & CARRY, CARRY);
}

#[test]
fn sbc_below_zero_clears_carry() {
    let mut cpu = fresh();
    cpu.a = 0x10;
    cpu.sr = CARRY;
    run1(&mut cpu, Instruction::SBC_IMM, 0x20);
    assert_eq!(cpu.a, 0xf0);
    assert_eq!(cpu.sr & CARRY, 0);
    assert_eq!(cpu.sr & NEGATIVE, NEGATIVE);
}

#[test]
fn sbc_signed_overflow() {
    let mut cpu = fresh();
    cpu.a = 0x80;
    cpu.sr = CARRY;
    run1(&mut cpu, Instruction::SBC_IMM, 0x01);
    assert_eq!(cpu.a, 0x7f);
    assert_eq!(cpu.sr & OVERFLOW, OVERFLOW);
    assert_eq!(cpu.sr & CARRY, CARRY);
}

#[test]
fn compare_equal_whatever_the_flags() {
    for sr in 0..=255u8 {
        let mut cpu = fresh();
        cpu.sr = sr;
        cpu.a = 0x9c;
        run1(&mut cpu, Instruction::CMP_IMM, 0x9c);
        assert_eq!(cpu.sr & ZERO, ZERO);
        assert_eq!(cpu.sr & CARRY, CARRY);
        assert_eq!(cpu.sr & NEGATIVE, 0);
        assert_eq!(cpu.sr & !(ZERO | CARRY | NEGATIVE), sr & !(ZERO | CARRY | NEGATIVE));
        assert_eq!(cpu.a, 0x9c);
    }
}

#[test]
fn compare_less_and_greater() {
    let mut cpu = fresh();
    cpu.x = 0x10;
    run1(&mut cpu, Instruction::CPX_IMM, 0x20);
    assert_eq!(cpu.sr & (CARRY | ZERO | NEGATIVE), NEGATIVE);
    cpu.y = 0x20;
    run1(&mut cpu, Instruction::CPY_IMM, 0x10);
    assert_eq!(cpu.sr & (CARRY | ZERO | NEGATIVE), CARRY);
}

#[test]
fn compare_negative_is_bit_seven_of_the_difference() {
    let mut cpu = fresh();
    cpu.a = 0x80;
    run1(&mut cpu, Instruction::CMP_IMM, 0x00);
    assert_eq!(cpu.sr & (CARRY | ZERO | NEGATIVE), CARRY | NEGATIVE);
    cpu.a = 0x00;
    run1(&mut cpu, Instruction::CMP_IMM, 0x81);
    assert_eq!(cpu.sr & (CARRY | ZERO | NEGATIVE), 0);
}

#[test]
fn absolute_x_wraps_at_the_top_of_memory() {
    let mut cpu = fresh();
    cpu.x = 0x05;
    cpu.mem[0x0003] = 0x77;
    run2(&mut cpu, Instruction::LDA_ABSX, 0xff, 0xfe);
    assert_eq!(cpu.a, 0x77);
    assert_eq!(cpu.pc, 0x603);
}

#[test]
fn absolute_y_wraps_at_the_top_of_memory() {
    let mut cpu = fresh();
    cpu.y = 0xff;
    cpu.mem[0x00fe] = 0x42;
    run2(&mut cpu, Instruction::LDA_ABSY, 0xff, 0xff);
    assert_eq!(cpu.a, 0x42);
}

#[test]
fn zero_page_x_stays_in_the_zero_page() {
    let mut cpu = fresh();
    cpu.x = 0x20;
    cpu.mem[0x0010] = 0x99;
    cpu.mem[0x0110] = 0x11;
    run1(&mut cpu, Instruction::LDA_ZPX, 0xf0);
    assert_eq!(cpu.a, 0x99);
}

#[test]
fn zero_page_y_stays_in_the_zero_page() {
    let mut cpu = fresh();
    cpu.y = 0xff;
    cpu.x = 0xab;
    run1(&mut cpu, Instruction::STX_ZPY, 0x02);
    assert_eq!(cpu.mem[0x0001], 0xab);
    assert_eq!(cpu.mem[0x0101], 0x00);
}

#[test]
fn address_routines_return_the_address() {
    let mut cpu = fresh();
    cpu.x = 1;
    cpu.y = 2;
    cpu.mem[0x600] = 0x12;
    cpu.mem[0x601] = 0x34;
    assert_eq!(cpu.get_abs_address(), 0x1234);
    assert_eq!(cpu.pc, 0x602);
    cpu.pc = 0x600;
    assert_eq!(cpu.get_absx_address(), 0x1235);
    cpu.pc = 0x600;
    assert_eq!(cpu.get_absy_address(), 0x1236);
    cpu.pc = 0x600;
    assert_eq!(cpu.get_zp_address(), 0x12);
    assert_eq!(cpu.pc, 0x601);
    cpu.pc = 0x600;
    assert_eq!(cpu.get_zpx_address(), 0x13);
    cpu.pc = 0x600;
    assert_eq!(cpu.get_zpy_address(), 0x14);
    cpu.pc = 0x600;
    assert_eq!(cpu.get_imm(), 0x12);
    cpu.pc = 0x600;
    assert_eq!(cpu.operand_address(AddrMode::Immediate), 0x600);
    assert_eq!(cpu.pc, 0x601);
}

#[test]
fn value_routines_return_the_byte() {
    let mut cpu = fresh();
    cpu.x = 1;
    cpu.y = 2;
    cpu.mem[0x600] = 0x12;
    cpu.mem[0x601] = 0x34;
    cpu.mem[0x1234] = 1;
    cpu.mem[0x1235] = 2;
    cpu.mem[0x1236] = 3;
    cpu.mem[0x12] = 4;
    cpu.mem[0x13] = 5;
    cpu.mem[0x14] = 6;
    assert_eq!(cpu.get_abs(), 1);
    cpu.pc = 0x600;
    assert_eq!(cpu.get_absx(), 2);
    cpu.pc = 0x600;
    assert_eq!(cpu.get_absy(), 3);
    cpu.pc = 0x600;
    assert_eq!(cpu.get_zp(), 4);
    cpu.pc = 0x600;
    assert_eq!(cpu.get_zpx(), 5);
    cpu.pc = 0x600;
    assert_eq!(cpu.get_zpy(), 6);
}

#[test]
fn indirect_x_adds_before_the_lookup() {
    let mut cpu = fresh();
    cpu.x = 0x04;
    cpu.mem[0x600] = 0xfe;
    cpu.mem[0x0002] = 0x20;
    cpu.mem[0x0003] = 0x40;
    cpu.mem[0x2040] = 0x5a;
    assert_eq!(cpu.get_indx_address(), 0x2040);
    cpu.pc = 0x600;
    assert_eq!(cpu.get_indx(), 0x5a);
}

#[test]
fn indirect_y_adds_after_the_lookup() {
    let mut cpu = fresh();
    cpu.y = 0x10;
    cpu.mem[0x600] = 0xff;
    cpu.mem[0x00ff] = 0xff;
    cpu.mem[0x0000] = 0xf8;
    cpu.mem[0x0008] = 0x33;
    assert_eq!(cpu.get_indy_address(), 0x0008);
    cpu.pc = 0x600;
    assert_eq!(cpu.get_indy(), 0x33);
}

#[test]
fn indirect_reads_the_pointer_low_byte_first() {
    let mut cpu = fresh();
    cpu.mem[0x600] = 0x90;
    cpu.mem[0x601] = 0x00;
    cpu.mem[0x9000] = 0x34;
    cpu.mem[0x9001] = 0x12;
    assert_eq!(cpu.get_ind(), 0x1234);
    assert_eq!(cpu.pc, 0x602);
}

#[test]
fn relative_is_a_signed_offset() {
    let mut cpu = fresh();
    cpu.mem[0x600] = 0x7f;
    assert_eq!(cpu.get_rel(), 0x601 + 0x7f);
    cpu.pc = 0x600;
    cpu.mem[0x600] = 0x80;
    assert_eq!(cpu.get_rel(), 0x601 - 128);
    cpu.pc = 0x600;
    cpu.mem[0x600] = 0xfe;
    assert_eq!(cpu.get_rel(), 0x5ff);
    cpu.pc = 0xffff;
    cpu.mem[0xffff] = 0x01;
    assert_eq!(cpu.get_rel(), 0x0001);
    assert_eq!(cpu.pc, 0x0000);
}

#[test]
fn branch_backwards() {
    let mut cpu = fresh();
    cpu.pc = 0x610;
    cpu.sr = ZERO;
    run1(&mut cpu, Instruction::BEQ_REL, 0xf0);
    assert_eq!(cpu.pc, 0x602);
}

#[test]
fn every_branch_tests_its_flag() {
    let cases = [
        (Instruction::BCC_REL, CARRY, false),
        (Instruction::BCS_REL, CARRY, true),
        (Instruction::BNE_REL, ZERO, false),
        (Instruction::BEQ_REL, ZERO, true),
        (Instruction::BPL_REL, NEGATIVE, false),
        (Instruction::BMI_REL, NEGATIVE, true),
        (Instruction::BVC_REL, OVERFLOW, false),
        (Instruction::BVS_REL, OVERFLOW, true),
    ];
    for (opcode, flag, when_set) in cases {
        let mut cpu = fresh();
        cpu.sr = flag;
        run1(&mut cpu, opcode, 0x10);
        assert_eq!(cpu.pc, if when_set { 0x612 } else { 0x602 });
        let mut cpu = fresh();
        cpu.sr = !flag;
        run1(&mut cpu, opcode, 0x10);
        assert_eq!(cpu.pc, if when_set { 0x602 } else { 0x612 });
    }
}

#[test]
fn shifts_and_rotates() {
    let mut cpu = fresh();
    cpu.a = 0x81;
    cpu.mem[0x600] = Instruction::ASL_ACC;
    cpu.step().unwrap();
    assert_eq!(cpu.a, 0x02);
    assert_eq!(cpu.sr & (CARRY | ZERO | NEGATIVE), CARRY);
    assert_eq!(cpu.pc, 0x601);

    let mut cpu = fresh();
    cpu.a = 0x01;
    cpu.sr = NEGATIVE;
    cpu.mem[0x600] = Instruction::LSR_ACC;
    cpu.step().unwrap();
    assert_eq!(cpu.a, 0x00);
    assert_eq!(cpu.sr & (CARRY | ZERO | NEGATIVE), CARRY | ZERO);

    let mut cpu = fresh();
    cpu.a = 0x80;
    cpu.sr = CARRY;
    cpu.mem[0x600] = Instruction::ROL_ACC;
    cpu.step().unwrap();
    assert_eq!(cpu.a, 0x01);
    assert_eq!(cpu.sr & (CARRY | ZERO | NEGATIVE), CARRY);

    let mut cpu = fresh();
    cpu.a = 0x01;
    cpu.sr = CARRY;
    cpu.mem[0x600] = Instruction::ROR_ACC;
    cpu.step().unwrap();
    assert_eq!(cpu.a, 0x80);
    assert_eq!(cpu.sr & (CARRY | ZERO | NEGATIVE), CARRY | NEGATIVE);

    let mut cpu = fresh();
    cpu.mem[0x0040] = 0x02;
    run1(&mut cpu, Instruction::ROR_ZP, 0x40);
    assert_eq!(cpu.mem[0x0040], 0x01);
    assert_eq!(cpu.sr & (CARRY | ZERO | NEGATIVE), 0);

    let mut cpu = fresh();
    cpu.mem[0x0040] = 0x40;
    run1(&mut cpu, Instruction::ROL_ZP, 0x40);
    assert_eq!(cpu.mem[0x0040], 0x80);
    assert_eq!(cpu.sr & (CARRY | ZERO | NEGATIVE), NEGATIVE);
}

#[test]
fn increments_and_decrements_wrap() {
    let mut cpu = fresh();
    cpu.x = 0xff;
    cpu.sr = CARRY | OVERFLOW;
    cpu.mem[0x600] = Instruction::INX_IMP;
    cpu.step().unwrap();
    assert_eq!(cpu.x, 0);
    assert_eq!(cpu.sr, CARRY | OVERFLOW | ZERO);
    cpu.mem[0x601] = Instruction::DEY_IMP;
    cpu.step().unwrap();
    assert_eq!(cpu.y, 0xff);
    assert_eq!(cpu.sr, CARRY | OVERFLOW | NEGATIVE);
    cpu.mem[0x0080] = 0x00;
    run1(&mut cpu, Instruction::DEC_ZP, 0x80);
    assert_eq!(cpu.mem[0x0080], 0xff);
    run1(&mut cpu, Instruction::INC_ZP, 0x80);
    assert_eq!(cpu.mem[0x0080], 0x00);
    assert_eq!(cpu.sr, CARRY | OVERFLOW | ZERO);
}

#[test]
fn bit_test_copies_the_top_bits() {
    let mut cpu = fresh();
    cpu.a = 0x0f;
    cpu.mem[0x0010] = 0xc0;
    run1(&mut cpu, Instruction::BIT_ZP, 0x10);
    assert_eq!(cpu.sr, NEGATIVE | OVERFLOW | ZERO);
    assert_eq!(cpu.a, 0x0f);
    cpu.mem[0x0010] = 0x01;
    run1(&mut cpu, Instruction::BIT_ZP, 0x10);
    assert_eq!(cpu.sr, 0);
}

#[test]
fn flag_instructions_touch_one_flag() {
    let cases = [
        (Instruction::SEC_IMP, CARRY, true),
        (Instruction::CLC_IMP, CARRY, false),
        (Instruction::SED_IMP, DECIMAL, true),
        (Instruction::CLD_IMP, DECIMAL, false),
        (Instruction::SEI_IMP, INTERRUPT, true),
        (Instruction::CLI_IMP, INTERRUPT, false),
        (Instruction::CLV_IMP, OVERFLOW, false),
        (Instruction::BRK_IMP, BREAK, true),
    ];
    for (opcode, flag, set) in cases {
        for sr in [0x00u8, 0xff, 0x5a] {
            let mut cpu = fresh();
            cpu.sr = sr;
            cpu.mem[0x600] = opcode;
            cpu.step().unwrap();
            assert_eq!(cpu.sr, if set { sr | flag } else { sr & !flag });
            assert_eq!(cpu.pc, 0x601);
        }
    }
}

#[test]
fn loads_and_transfers_set_zero_and_negative() {
    let mut cpu = fresh();
    run1(&mut cpu, Instruction::LDA_IMM, 0x00);
    assert_eq!(cpu.sr, ZERO);
    run1(&mut cpu, Instruction::LDX_IMM, 0x80);
    assert_eq!(cpu.sr, NEGATIVE);
    run1(&mut cpu, Instruction::LDY_IMM, 0x01);
    assert_eq!(cpu.sr, 0);
    cpu.a = 0x90;
    cpu.mem[cpu.pc as usize] = Instruction::TAX_IMP;
    cpu.step().unwrap();
    assert_eq!((cpu.x, cpu.sr), (0x90, NEGATIVE));
    cpu.mem[cpu.pc as usize] = Instruction::TAY_IMP;
    cpu.step().unwrap();
    assert_eq!(cpu.y, 0x90);
    cpu.a = 0;
    cpu.mem[cpu.pc as usize] = Instruction::TXA_IMP;
    cpu.step().unwrap();
    assert_eq!(cpu.a, 0x90);
    cpu.y = 0;
    cpu.mem[cpu.pc as usize] = Instruction::TYA_IMP;
    cpu.step().unwrap();
    assert_eq!((cpu.a, cpu.sr), (0, ZERO));
}

#[test]
fn stack_pointer_transfers() {
    let mut cpu = fresh();
    cpu.sp = 0x00;
    cpu.sr = CARRY;
    cpu.mem[0x600] = Instruction::TSX_IMP;
    cpu.step().unwrap();
    assert_eq!((cpu.x, cpu.sr), (0x00, CARRY | ZERO));
    cpu.x = 0x80;
    cpu.mem[0x601] = Instruction::TXS_IMP;
    cpu.step().unwrap();
    assert_eq!((cpu.sp, cpu.sr), (0x80, CARRY | ZERO));
}

#[test]
fn logic_instructions() {
    let mut cpu = fresh();
    cpu.a = 0b1100;
    run1(&mut cpu, Instruction::AND_IMM, 0b1010);
    assert_eq!(cpu.a, 0b1000);
    run1(&mut cpu, Instruction::ORA_IMM, 0b0011);
    assert_eq!(cpu.a, 0b1011);
    run1(&mut cpu, Instruction::EOR_IMM, 0b1011);
    assert_eq!((cpu.a, cpu.sr), (0, ZERO));
}

#[test]
fn stores_leave_flags() {
    let mut cpu = fresh();
    cpu.a = 0;
    cpu.x = 0x80;
    cpu.y = 1;
    cpu.sr = CARRY;
    run2(&mut cpu, Instruction::STA_ABS, 0x30, 0x00);
    run2(&mut cpu, Instruction::STX_ABS, 0x30, 0x01);
    run2(&mut cpu, Instruction::STY_ABS, 0x30, 0x02);
    assert_eq!(&cpu.mem[0x3000..0x3003], &[0, 0x80, 1]);
    assert_eq!(cpu.sr, CARRY);
}

#[test]
fn push_and_pop() {
    let mut cpu = fresh();
    cpu.stack_push(0xaa);
    assert_eq!((cpu.sp, cpu.mem[0x01ff]), (0xfe, 0xaa));
    cpu.stack_push_16(0x1234);
    assert_eq!((cpu.sp, cpu.mem[0x01fe], cpu.mem[0x01fd]), (0xfc, 0x12, 0x34));
    assert_eq!(cpu.stack_pop_16(), 0x1234);
    assert_eq!(cpu.stack_pop(), 0xaa);
    assert_eq!(cpu.sp, 0xff);
    assert_eq!(&cpu.mem[0x01fd..0x0200], &[0, 0, 0]);
}

#[test]
fn stack_discipline_up_to_a_full_page() {
    for n in [0usize, 1, 2, 127, 128, 255, 256] {
        for start in [0xffu8, 0x00, 0x7f, 0x10] {
            let mut cpu = fresh();
            cpu.sp = start;
            cpu.mem[0x00ff] = 0x11;
            cpu.mem[0x0200] = 0x22;
            for i in 0..n {
                cpu.stack_push((i as u8) ^ 0x5a);
            }
            for i in (0..n).rev() {
                assert_eq!(cpu.stack_pop(), (i as u8) ^ 0x5a);
            }
            assert_eq!(cpu.sp, start);
            assert_eq!((cpu.mem[0x00ff], cpu.mem[0x0200]), (0x11, 0x22));
        }
    }
}

#[test]
fn stack_instructions() {
    let mut cpu = fresh();
    cpu.a = 0x80;
    cpu.sr = CARRY;
    cpu.mem[0x600] = Instruction::PHA_IMP;
    cpu.mem[0x601] = Instruction::PHP_IMP;
    cpu.mem[0x602] = Instruction::PLA_IMP;
    cpu.mem[0x603] = Instruction::PLP_IMP;
    cpu.step().unwrap();
    cpu.step().unwrap();
    assert_eq!((cpu.sp, cpu.mem[0x01ff], cpu.mem[0x01fe]), (0xfd, 0x80, CARRY));
    cpu.sr = ZERO;
    cpu.step().unwrap();
    assert_eq!((cpu.a, cpu.sr), (CARRY, ZERO));
    cpu.step().unwrap();
    assert_eq!((cpu.sr, cpu.sp), (0x80, 0xff));
}

#[test]
fn call_and_return() {
    let mut cpu = fresh();
    cpu.push_instruction_16(Instruction::JSR_ABS, 0x07, 0x00);
    cpu.mem[0x0700] = Instruction::RTS_IMP;
    cpu.step().unwrap();
    assert_eq!(cpu.pc, 0x0700);
    assert_eq!((cpu.sp, cpu.mem[0x01ff], cpu.mem[0x01fe]), (0xfd, 0x06, 0x02));
    cpu.step().unwrap();
    assert_eq!((cpu.pc, cpu.sp), (0x0603, 0xff));
}

#[test]
fn return_from_interrupt() {
    let mut cpu = fresh();
    cpu.stack_push_16(0x1234);
    cpu.stack_push(CARRY | NEGATIVE);
    cpu.mem[0x600] = Instruction::RTI_IMP;
    cpu.step().unwrap();
    assert_eq!((cpu.sr, cpu.pc, cpu.sp), (CARRY | NEGATIVE, 0x1234, 0xff));
}

#[test]
fn program_counter_wraps() {
    let mut cpu = fresh();
    cpu.pc = 0xffff;
    cpu.mem[0xffff] = Instruction::LDA_IMM;
    cpu.mem[0x0000] = 0x42;
    cpu.step().unwrap();
    assert_eq!((cpu.a, cpu.pc), (0x42, 0x0001));
}

#[test]
fn unsupported_opcode_is_refused() {
    let mut cpu = fresh();
    cpu.a = 7;
    cpu.mem[0x600] = 0x97;
    assert_eq!(cpu.step(), Err(CpuError::UnsupportedOpcode { opcode: 0x97, pc: 0x600 }));
    assert_eq!((cpu.pc, cpu.a), (0x600, 7));
    cpu.pc = 0x601;
    assert_eq!(
        cpu.execute_instruction(0xff),
        Err(CpuError::UnsupportedOpcode { opcode: 0xff, pc: 0x600 })
    );
    assert_eq!(cpu.pc, 0x601);
}

#[test]
fn execute_instruction_runs_a_decoded_opcode() {
    let mut cpu = fresh();
    cpu.mem[0x600] = 0x33;
    assert_eq!(cpu.execute_instruction(Instruction::LDA_IMM), Ok(()));
    assert_eq!((cpu.a, cpu.pc), (0x33, 0x601));
    cpu.execute(Mnemonic::LDX, AddrMode::Immediate);
    assert_eq!(cpu.pc, 0x602);
}

#[test]
fn table_is_a_bijection() {
    let mut seen = Vec::new();
    for op in 0..=255u8 {
        match decode(op) {
            Some((m, mode)) => {
                assert!(op <= LAST_OPCODE);
                assert_eq!(encode(m, mode), Some(op));
                assert!(!seen.contains(&(m, mode)));
                seen.push((m, mode));
            }
            None => assert!(op > LAST_OPCODE),
        }
    }
    assert_eq!(seen.len(), 151);
    assert_eq!(encode(Mnemonic::STA, AddrMode::Immediate), None);
    assert_eq!(encode(Mnemonic::JMP, AddrMode::Indirect), Some(Instruction::JMP_IND));
    assert_eq!(decode(Instruction::BVS_REL), Some((Mnemonic::BVS, AddrMode::Relative)));
}

#[test]
fn engine_passes_over_what_the_mode_takes() {
    for op in 0..=LAST_OPCODE {
        let (m, mode) = decode(op).unwrap();
        if matches!(m, Mnemonic::JMP | Mnemonic::JSR | Mnemonic::RTS | Mnemonic::RTI) {
            continue;
        }
        let mut cpu = fresh();
        cpu.mem[0x600] = op;
        cpu.step().unwrap();
        assert_eq!(cpu.pc, 0x601 + mode.operand_len() as u16);
    }
}

#[test]
fn mode_codes_round_trip() {
    for code in 0..13u32 {
        let mode = AddrMode::from_code(code).unwrap();
        assert_eq!(mode.code(), code);
    }
    assert_eq!(AddrMode::from_code(13), None);
    assert_eq!(AddrMode::Implied.operand_len(), 0);
    assert_eq!(AddrMode::Accumulator.operand_len(), 0);
    assert_eq!(AddrMode::Relative.operand_len(), 1);
    assert_eq!(AddrMode::IndirectY.operand_len(), 1);
    assert_eq!(AddrMode::Indirect.operand_len(), 2);
    assert_eq!(AddrMode::AbsoluteY.operand_len(), 2);
}

#[test]
fn mnemonics_by_name() {
    for op in 0..=LAST_OPCODE {
        let (m, _) = decode(op).unwrap();
        let name = m.name();
        assert_eq!(name.len(), 3);
        assert_eq!(Mnemonic::from_text(name), Some(m));
        assert_eq!(Mnemonic::from_text(&name.to_lowercase()), Some(m));
    }
    assert_eq!(Mnemonic::from_text("Lda"), Some(Mnemonic::LDA));
    assert_eq!(Mnemonic::from_text("LD"), None);
    assert_eq!(Mnemonic::from_text("LDAX"), None);
    assert_eq!(Mnemonic::from_text("XYZ"), None);
    assert!(Mnemonic::BVS.is_branch());
    assert!(!Mnemonic::JMP.is_branch());
}

#[test]
fn loading_a_program() {
    let mut cpu = fresh();
    cpu.mem[0x5ff] = 9;
    assert!(cpu.load(&vec![1, 2, 3]));
    assert_eq!(&cpu.mem[0x5ff..0x604], &[9, 1, 2, 3, 0]);
    assert!(cpu.load(&vec![7; 65536 - ORIGIN as usize]));
    assert_eq!(cpu.mem[0xffff], 7);
    let before = cpu.mem;
    assert!(!cpu.load(&vec![8; 65536 - ORIGIN as usize + 1]));
    assert!(cpu.mem == before);
}

#[test]
fn end_of_a_program() {
    assert_eq!(program_end(0), Some(0x601));
    assert_eq!(program_end(3), Some(0x604));
    assert_eq!(program_end(0xf9fe), Some(0xffff));
    assert_eq!(program_end(0xf9ff), None);
    assert_eq!(program_end(usize::MAX), None);
}

#[test]
fn frame_refreshes_entropy_and_steps() {
    let mut cpu = fresh();
    cpu.mem[0x600] = Instruction::LDA_ZP;
    cpu.mem[0x601] = ENTROPY_CELL as u8;
    assert_eq!(cpu.frame_with(0x603, 0xc3), Ok(true));
    assert_eq!((cpu.a, cpu.pc), (0xc3, 0x602));
    cpu.mem[0x602] = 0xee;
    assert_eq!(
        cpu.frame_with(0x603, 0x01),
        Err(CpuError::UnsupportedOpcode { opcode: 0xee, pc: 0x602 })
    );
    assert_eq!(cpu.mem[ENTROPY_CELL as usize], 0x01);
    cpu.pc = 0x603;
    assert_eq!(cpu.frame_with(0x603, 0x02), Ok(false));
    assert_eq!(cpu.mem[ENTROPY_CELL as usize], 0x01);
    cpu.pc = 0x5ff;
    assert_eq!(cpu.frame_with(0x603, 0x02), Ok(false));
}

#[test]
fn frame_with_a_random_byte() {
    let mut cpu = fresh();
    cpu.mem[0x600] = Instruction::NOP_IMP;
    assert_eq!(cpu.frame(0x601), Ok(true));
    assert_eq!(cpu.pc, 0x601);
    assert_eq!(cpu.frame(0x601), Ok(false));
    assert_eq!(cpu.pc, 0x601);
}

#[test]
fn pixel_colours() {
    assert_eq!(get_pixel_color(0), Rgb { r: 0, g: 0, b: 0 });
    assert_eq!(get_pixel_color(1), Rgb { r: 255, g: 255, b: 255 });
    assert_eq!(get_pixel_color(0x12), Rgb { r: 255, g: 0, b: 0 });
    assert_eq!(get_pixel_color(8), Rgb { r: 255, g: 165, b: 0 });
    assert_eq!(get_pixel_color(0xff), Rgb { r: 211, g: 211, b: 211 });
    let mut cpu = fresh();
    cpu.mem[0x0200 + 32 * 3 + 5] = 0x05;
    assert_eq!(cpu.pixel(3, 5), Rgb { r: 0, g: 255, b: 0 });
    cpu.mem[0x05ff] = 0x06;
    assert_eq!(cpu.pixel(31, 31), Rgb { r: 0, g: 0, b: 255 });
}

#[test]
fn flag_helpers() {
    let mut cpu = fresh();
    cpu.set_flag(CARRY, true);
    assert!(cpu.flag(CARRY));
    cpu.set_zerof(1, false);
    assert_eq!(cpu.sr, CARRY);
    cpu.set_zerof(0, false);
    assert_eq!(cpu.sr, CARRY | ZERO);
    cpu.set_zerof(1, false);
    assert_eq!(cpu.sr, CARRY | ZERO);
    cpu.set_zerof(1, true);
    assert_eq!(cpu.sr, CARRY);
    cpu.set_negf(0x80, false);
    assert_eq!(cpu.sr, CARRY | NEGATIVE);
    cpu.set_negf(0x7f, false);
    assert_eq!(cpu.sr, CARRY | NEGATIVE);
    cpu.set_negf(0x7f, true);
    assert_eq!(cpu.sr, CARRY);
    cpu.set_vflag(0x7f, 0x01, 0x80);
    assert_eq!(cpu.sr, CARRY | OVERFLOW);
    cpu.set_vflag(0x7f, 0x81, 0x00);
    assert_eq!(cpu.sr, CARRY);
    cpu.set_vflag(0x80, 0x80, 0x00);
    assert_eq!(cpu.sr, CARRY | OVERFLOW);
}

#[test]
fn alu_helpers_return_the_result() {
    let mut cpu = fresh();
    assert_eq!(cpu.asl(0xc0), 0x80);
    assert_eq!(cpu.sr, CARRY | NEGATIVE);
    assert_eq!(cpu.rol(0x00), 0x01);
    assert_eq!(cpu.sr, 0);
    assert_eq!(cpu.lsr(0x03), 0x01);
    assert_eq!(cpu.sr, CARRY);
    assert_eq!(cpu.ror(0x02), 0x81);
    assert_eq!(cpu.sr, NEGATIVE);
    assert_eq!(cpu.inc(0xff), 0x00);
    assert_eq!(cpu.sr, ZERO);
    assert_eq!(cpu.dec(0x00), 0xff);
    assert_eq!(cpu.sr, NEGATIVE);
    cpu.a = 0xf0;
    cpu.eor(0xff);
    assert_eq!(cpu.a, 0x0f);
    cpu.ora(0x30);
    assert_eq!(cpu.a, 0x3f);
    cpu.and(0x03);
    assert_eq!(cpu.a, 0x03);
    cpu.bit(0x40);
    assert_eq!(cpu.sr, OVERFLOW | ZERO);
    cpu.cmp(5, 5);
    assert_eq!(cpu.sr, OVERFLOW | ZERO | CARRY);
    cpu.sr = 0;
    cpu.a = 0xff;
    cpu.adc(0x02);
    assert_eq!((cpu.a, cpu.sr), (0x01, CARRY));
    cpu.sbc(0x01);
    assert_eq!((cpu.a, cpu.sr), (0x00, CARRY | ZERO));
}

#[test]
fn memory_access() {
    let mut cpu = fresh();
    cpu.write(0xffff, 0x12);
    cpu.write(0x0000, 0x34);
    assert_eq!(cpu.read(0xffff), 0x12);
    assert_eq!(cpu.read_word(0xffff), 0x1234);
    assert_eq!(cpu.read_pointer(0xffff), 0x3412);
}
