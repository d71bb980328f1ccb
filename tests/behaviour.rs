use cpu6502::{
    decode, AddressingMode, CpuError, Memory, Mnemonic, Opcode, StepOutcome, CARRY, CPU, NEGATIVE,
    OVERFLOW, ZERO,
};

#[test]
fn inx_wraps_from_255_to_zero() {
    let mut cpu = CPU::new();
    cpu.run_program(vec![0xa9, 0xff, 0xaa, 0xe8, 0x00]).unwrap();
    assert_eq!(cpu.register_x, 0);
    assert_eq!(cpu.status_register & ZERO, ZERO);
    assert_eq!(cpu.status_register & NEGATIVE, 0);
}

#[test]
fn zero_and_negative_follow_each_result() {
    for v in [0x00u8, 0x01, 0x7f, 0x80, 0xff] {
        let mut cpu = CPU::new();
        cpu.run_program(vec![0xa9, v, 0x00]).unwrap();
        assert_eq!(cpu.status_register & ZERO == ZERO, v == 0);
        assert_eq!(cpu.status_register & NEGATIVE == NEGATIVE, v >= 0x80);
        cpu.run_program(vec![0xa9, v, 0xaa, 0x00]).unwrap();
        assert_eq!(cpu.register_x, v);
        assert_eq!(cpu.status_register & ZERO == ZERO, v == 0);
        assert_eq!(cpu.status_register & NEGATIVE == NEGATIVE, v >= 0x80);
    }
}

#[test]
fn lda_immediate_flag_cases() {
    let mut cpu = CPU::new();
    cpu.run_program(vec![0xa9, 0x00, 0x00]).unwrap();
    assert_eq!(cpu.status_register & (ZERO | NEGATIVE), ZERO);
    cpu.run_program(vec![0xa9, 0x80, 0x00]).unwrap();
    assert_eq!(cpu.status_register & (ZERO | NEGATIVE), NEGATIVE);
    cpu.run_program(vec![0xa9, 0x05, 0x00]).unwrap();
    assert_eq!(cpu.status_register & (ZERO | NEGATIVE), 0);
}

#[test]
fn asl_accumulator_of_ff() {
    let mut cpu = CPU::new();
    cpu.run_program(vec![0xa9, 0xff, 0x0a, 0x00]).unwrap();
    assert_eq!(cpu.register_a, 0xfe);
    assert_eq!(cpu.status_register, CARRY | NEGATIVE);
}

#[test]
fn asl_clears_carry_when_bit_seven_is_clear() {
    let mut cpu = CPU::new();
    cpu.load_program(vec![0x0a, 0x00]).unwrap();
    cpu.reset();
    cpu.status_register = CARRY;
    cpu.register_a = 0x40;
    cpu.interpret().unwrap();
    assert_eq!(cpu.register_a, 0x80);
    assert_eq!(cpu.status_register, NEGATIVE);
}

#[test]
fn asl_of_0x80_in_memory_gives_zero_and_carry() {
    let mut cpu = CPU::new();
    cpu.mem_write(0x10, 0x80);
    cpu.run_program(vec![0x06, 0x10, 0x00]).unwrap();
    assert_eq!(cpu.mem_read(0x10), 0x00);
    assert_eq!(cpu.status_register, CARRY | ZERO);
}

#[test]
fn bit_sets_negative_and_overflow_only() {
    let mut cpu = CPU::new();
    cpu.mem_write(0xaa, 0b1100_0010);
    cpu.load_program(vec![0x24, 0xaa, 0x00]).unwrap();
    cpu.reset();
    cpu.register_a = 0b0000_0011;
    cpu.interpret().unwrap();
    assert_eq!(cpu.status_register, NEGATIVE | OVERFLOW);
    assert_eq!(cpu.register_a, 0b0000_0011);
}

#[test]
fn bit_clearing_overflow_keeps_other_flags() {
    let mut cpu = CPU::new();
    cpu.mem_write(0x1234, 0x00);
    cpu.load_program(vec![0x2c, 0x34, 0x12, 0x00]).unwrap();
    cpu.reset();
    cpu.status_register = CARRY | OVERFLOW;
    cpu.register_a = 0xff;
    cpu.interpret().unwrap();
    assert_eq!(cpu.status_register, CARRY | ZERO);
}

#[test]
fn and_to_zero_sets_zero() {
    let mut cpu = CPU::new();
    cpu.run_program(vec![0xa9, 0xf0, 0x29, 0x0f, 0x00]).unwrap();
    assert_eq!(cpu.register_a, 0);
    assert_eq!(cpu.status_register, ZERO);
}

#[test]
fn taken_branch_lands_after_offset_plus_offset() {
    let mut cpu = CPU::new();
    // BEQ +2 skips the two bytes of LDA #0x11 and lands on LDA #0x22.
    cpu.run_program(vec![0xa9, 0x00, 0xf0, 0x02, 0xa9, 0x11, 0xa9, 0x22, 0x00]).unwrap();
    assert_eq!(cpu.register_a, 0x22);
    assert_eq!(cpu.program_counter, 0x8009);
}

#[test]
fn untaken_branch_skips_offset() {
    let mut cpu = CPU::new();
    cpu.run_program(vec![0xb0, 0x02, 0xa9, 0x11, 0x00]).unwrap();
    assert_eq!(cpu.register_a, 0x11);
    assert_eq!(cpu.program_counter, 0x8005);
}

#[test]
fn zero_page_x_wraps_within_zero_page() {
    let mut cpu = CPU::new();
    cpu.mem_write(0x0008, 0x42);
    cpu.mem_write(0x0108, 0x99);
    cpu.run_program(vec![0xa9, 0x10, 0xaa, 0xb5, 0xf8, 0x00]).unwrap();
    assert_eq!(cpu.register_a, 0x42);
}

#[test]
fn absolute_x_wraps_to_address_zero() {
    let mut cpu = CPU::new();
    cpu.mem_write(0x0000, 0x37);
    cpu.run_program(vec![0xa9, 0x01, 0xaa, 0xbd, 0xff, 0xff, 0x00]).unwrap();
    assert_eq!(cpu.register_a, 0x37);
}

#[test]
fn indirect_x_reads_pointer_from_wrapped_zero_page() {
    let mut cpu = CPU::new();
    cpu.mem_write(0x0002, 0x00);
    cpu.mem_write(0x0003, 0x90);
    cpu.mem_write(0x9000, 0x5a);
    cpu.run_program(vec![0xa9, 0x04, 0xaa, 0xa1, 0xfe, 0x00]).unwrap();
    assert_eq!(cpu.register_a, 0x5a);
}

#[test]
fn indirect_y_adds_y_to_the_pointer() {
    let mut cpu = CPU::new();
    cpu.mem_write(0x0020, 0x00);
    cpu.mem_write(0x0021, 0x90);
    cpu.mem_write(0x9005, 0x6b);
    cpu.load_program(vec![0xb1, 0x20, 0x00]).unwrap();
    cpu.reset();
    cpu.register_y = 5;
    cpu.interpret().unwrap();
    assert_eq!(cpu.register_a, 0x6b);
}

#[test]
fn absolute_y_adds_y() {
    let mut cpu = CPU::new();
    cpu.mem_write(0x1203, 0x7c);
    cpu.load_program(vec![0xb9, 0x00, 0x12, 0x00]).unwrap();
    cpu.reset();
    cpu.register_y = 3;
    cpu.interpret().unwrap();
    assert_eq!(cpu.register_a, 0x7c);
}

#[test]
fn illegal_opcode_faults_without_changes() {
    let mut cpu = CPU::new();
    cpu.load_program(vec![0xa9, 0x33, 0x02, 0x00]).unwrap();
    cpu.reset();
    let r = cpu.interpret();
    assert_eq!(r, Err(CpuError::IllegalOpcode { opcode: 0x02, address: 0x8002 }));
    assert_eq!(cpu.program_counter, 0x8002);
    assert_eq!(cpu.register_a, 0x33);
    assert_eq!(cpu.mem_read(0x8002), 0x02);

    let before = (cpu.register_a, cpu.register_x, cpu.register_y, cpu.status_register);
    assert_eq!(cpu.step(), Err(CpuError::IllegalOpcode { opcode: 0x02, address: 0x8002 }));
    assert_eq!(cpu.program_counter, 0x8002);
    assert_eq!(before, (cpu.register_a, cpu.register_x, cpu.register_y, cpu.status_register));
}

#[test]
fn step_reports_continue_and_halt() {
    let mut cpu = CPU::new();
    cpu.load_program(vec![0xe8, 0x00]).unwrap();
    cpu.reset();
    assert_eq!(cpu.step(), Ok(StepOutcome::Continue));
    assert_eq!(cpu.register_x, 1);
    assert_eq!(cpu.step(), Ok(StepOutcome::Halt));
    assert_eq!(cpu.program_counter, 0x8002);
}

#[test]
fn step_limit_stops_the_loop() {
    let mut cpu = CPU::new();
    cpu.load_program(vec![0xe8, 0xe8, 0xe8, 0x00]).unwrap();
    cpu.reset();
    assert_eq!(cpu.interpret_with_limit(2), Err(CpuError::StepLimitReached));
    assert_eq!(cpu.register_x, 2);
    assert_eq!(cpu.interpret_with_limit(2), Ok(()));
    assert_eq!(cpu.register_x, 3);
    assert_eq!(cpu.interpret_with_limit(0), Err(CpuError::StepLimitReached));
}

#[test]
fn load_program_writes_origin_and_reset_vector() {
    let mut cpu = CPU::new();
    cpu.load_program(vec![0x11, 0x22]).unwrap();
    assert_eq!(cpu.mem_read(0x8000), 0x11);
    assert_eq!(cpu.mem_read(0x8001), 0x22);
    assert_eq!(cpu.mem_read(0xfffc), 0x00);
    assert_eq!(cpu.mem_read(0xfffd), 0x80);
    assert_eq!(cpu.mem_read_u16(0xfffc), 0x8000);
    assert_eq!(cpu.program_counter, 0);
}

#[test]
fn largest_program_fits_and_one_more_byte_is_refused() {
    let mut cpu = CPU::new();
    let mut program = vec![0xe8u8; 0x7ffc];
    program[0x7ffb] = 0x00;
    assert_eq!(cpu.load_program(program.clone()), Ok(()));
    assert_eq!(cpu.mem_read(0xfffb), 0x00);
    assert_eq!(cpu.mem_read_u16(0xfffc), 0x8000);
    program.push(0x00);
    cpu.mem_write(0x8000, 0x77);
    assert_eq!(
        cpu.load_program(program.clone()),
        Err(CpuError::ProgramTooLarge { length: 0x7ffd })
    );
    assert_eq!(cpu.mem_read(0x8000), 0x77);
    assert_eq!(cpu.run_program(program), Err(CpuError::ProgramTooLarge { length: 0x7ffd }));
}

#[test]
fn reset_keeps_memory_and_reads_vector() {
    let mut cpu = CPU::new();
    cpu.mem_write(0x0040, 0x99);
    cpu.mem_write_u16(0xfffc, 0x1234);
    cpu.register_a = 1;
    cpu.register_x = 2;
    cpu.register_y = 3;
    cpu.status_register = 0xff;
    cpu.reset();
    assert_eq!(cpu.program_counter, 0x1234);
    assert_eq!((cpu.register_a, cpu.register_x, cpu.register_y, cpu.status_register), (0, 0, 0, 0));
    assert_eq!(cpu.mem_read(0x0040), 0x99);
}

#[test]
fn word_round_trip() {
    let mut cpu = CPU::new();
    for (addr, value) in [(0x0000u16, 0xbeefu16), (0x00ff, 0x1234), (0x7fff, 0x00ff), (0xfffe, 0xffff)] {
        cpu.mem_write_u16(addr, value);
        assert_eq!(cpu.mem_read_u16(addr), value);
        assert_eq!(cpu.mem_read(addr), (value & 0xff) as u8);
        assert_eq!(cpu.mem_read(addr + 1), (value >> 8) as u8);
    }
}

#[test]
fn word_at_top_of_memory_wraps() {
    let mut mem = Memory::new();
    mem.write_word(0xffff, 0xabcd);
    assert_eq!(mem.read_byte(0xffff), 0xcd);
    assert_eq!(mem.read_byte(0x0000), 0xab);
    assert_eq!(mem.read_word(0xffff), 0xabcd);
}

#[test]
fn decode_table_entries() {
    assert_eq!(
        decode(0xa9),
        Some(Opcode { mnemonic: Mnemonic::Lda, mode: AddressingMode::Immediate })
    );
    assert_eq!(
        decode(0x1e),
        Some(Opcode { mnemonic: Mnemonic::Asl, mode: AddressingMode::AbsoluteX })
    );
    assert_eq!(
        decode(0x00),
        Some(Opcode { mnemonic: Mnemonic::Brk, mode: AddressingMode::NoneAddressing })
    );
    assert_eq!(decode(0xff), None);
    let defined = (0u16..=255).filter(|b| decode(*b as u8).is_some()).count();
    assert_eq!(defined, 28);
}

#[test]
fn asl_absolute_x_uses_x() {
    let mut cpu = CPU::new();
    cpu.mem_write(0x8502, 0x21);
    cpu.run_program(vec![0xa9, 0x02, 0xaa, 0x1e, 0x00, 0x85, 0x00]).unwrap();
    assert_eq!(cpu.mem_read(0x8502), 0x42);
}
