use nes_cpu::cpu::CPU;
use nes_cpu::flags::{CpuFlags, UpdateFlag};
use nes_cpu::opcodes::{decode_opcode, AddressingMode, Mnemonic};

fn run_program(program: Vec<u8>) -> CPU {
    let mut cpu = CPU::new();
    cpu.load_and_run(program);
    cpu
}

#[test]
fn new_cpu_is_cleared() {
    let cpu = CPU::new();
    assert_eq!(cpu.register_a, 0);
    assert_eq!(cpu.register_x, 0);
    assert_eq!(cpu.register_y, 0);
    assert_eq!(cpu.status, 0);
    assert_eq!(cpu.program_counter, 0);
    assert_eq!(cpu.stack_pointer, 0xfd);
    assert_eq!(cpu.mem_read(0x0000), 0);
    assert_eq!(cpu.mem_read(0xFFFE), 0);
}

#[test]
fn mem_write_then_read() {
    let mut cpu = CPU::new();
    cpu.mem_write(0x1234, 0xAB);
    cpu.mem_write(0xFFFE, 0x01);
    assert_eq!(cpu.mem_read(0x1234), 0xAB);
    assert_eq!(cpu.mem_read(0x1235), 0x00);
    assert_eq!(cpu.mem_read(0xFFFE), 0x01);
}

#[test]
fn mem_write_u16_is_little_endian() {
    let mut cpu = CPU::new();
    cpu.mem_write_u16(0x1234, 0xABCD);
    assert_eq!(cpu.mem_read(0x1234), 0xCD);
    assert_eq!(cpu.mem_read(0x1235), 0xAB);
    assert_eq!(cpu.mem_read_u16(0x1234), 0xABCD);
    assert_eq!(cpu.mem_read_u16(0xFFFD), 0x0000);
}

#[test]
fn set_clear_and_contain_flag() {
    let mut cpu = CPU::new();
    cpu.set_flag(CpuFlags::CARRY);
    cpu.set_flag(CpuFlags::NEGATIVE);
    assert!(cpu.contain_flag(CpuFlags::CARRY));
    assert!(cpu.contain_flag(CpuFlags::NEGATIVE));
    assert!(!cpu.contain_flag(CpuFlags::ZERO));
    assert_eq!(cpu.status, 0b1000_0001);
    cpu.clear_flag(CpuFlags::CARRY);
    assert!(!cpu.contain_flag(CpuFlags::CARRY));
    assert!(cpu.contain_flag(CpuFlags::NEGATIVE));
    assert_eq!(cpu.status, 0b1000_0000);
}

#[test]
fn load_places_program_and_reset_vector() {
    let mut cpu = CPU::new();
    cpu.register_a = 7;
    cpu.mem_write(0x8003, 0x44);
    cpu.load(vec![1, 2, 3]);
    assert_eq!(cpu.mem_read(0x8000), 1);
    assert_eq!(cpu.mem_read(0x8001), 2);
    assert_eq!(cpu.mem_read(0x8002), 3);
    assert_eq!(cpu.mem_read(0x8003), 0x44);
    assert_eq!(cpu.mem_read_u16(0xFFFC), 0x8000);
    assert_eq!(cpu.register_a, 7);
    assert_eq!(cpu.program_counter, 0);
}

#[test]
fn load_longest_program() {
    let mut cpu = CPU::new();
    cpu.load(vec![0xea; 0x7FFF]);
    assert_eq!(cpu.mem_read(0x8000), 0xea);
    assert_eq!(cpu.mem_read(0xFFFB), 0xea);
    assert_eq!(cpu.mem_read_u16(0xFFFC), 0x8000);
    assert_eq!(cpu.mem_read(0xFFFE), 0xea);
}

#[test]
fn reset_clears_registers_and_reads_vector() {
    let mut cpu = CPU::new();
    cpu.register_a = 1;
    cpu.register_x = 2;
    cpu.register_y = 3;
    cpu.status = 0xff;
    cpu.stack_pointer = 0x10;
    cpu.mem_write(0x0200, 0x99);
    cpu.mem_write_u16(0xFFFC, 0x1234);
    cpu.reset();
    assert_eq!(cpu.register_a, 0);
    assert_eq!(cpu.register_x, 0);
    assert_eq!(cpu.register_y, 0);
    assert_eq!(cpu.status, 0);
    assert_eq!(cpu.stack_pointer, 0xfd);
    assert_eq!(cpu.program_counter, 0x1234);
    assert_eq!(cpu.mem_read(0x0200), 0x99);
}

#[test]
fn step_executes_one_instruction() {
    let mut cpu = CPU::new();
    cpu.load(vec![0xa9, 0x05, 0x00]);
    cpu.reset();
    assert_eq!(cpu.program_counter, 0x8000);
    assert!(!cpu.step());
    assert_eq!(cpu.register_a, 0x05);
    assert_eq!(cpu.program_counter, 0x8002);
    assert!(cpu.step());
    assert_eq!(cpu.program_counter, 0x8003);
}

#[test]
fn brk_halts_at_once() {
    let cpu = run_program(vec![0x00]);
    assert_eq!(cpu.program_counter, 0x8001);
    assert_eq!(cpu.register_a, 0);
    assert_eq!(cpu.status, 0);
    assert_eq!(cpu.stack_pointer, 0xfd);
}

#[test]
fn run_from_program_counter() {
    let mut cpu = CPU::new();
    cpu.mem_write(0x0600, 0xa2);
    cpu.mem_write(0x0601, 0x09);
    cpu.mem_write(0x0602, 0x00);
    cpu.program_counter = 0x0600;
    cpu.run();
    assert_eq!(cpu.register_x, 0x09);
    assert_eq!(cpu.program_counter, 0x0603);
}

#[test]
fn adc_sets_overflow_on_signed_overflow() {
    // 0x50 + 0x50 = 0xA0: 80 + 80 leaves the signed range
    let cpu = run_program(vec![0xa9, 0x50, 0x69, 0x50, 0x00]);
    assert_eq!(cpu.register_a, 0xA0);
    assert_eq!(cpu.status, 0b1100_0000);
}

#[test]
fn adc_adds_carry_in_and_carries_out() {
    // SEC; LDA #$FF; ADC #$01: 0xFF + 0x01 + 1 = 0x101
    let cpu = run_program(vec![0x38, 0xa9, 0xff, 0x69, 0x01, 0x00]);
    assert_eq!(cpu.register_a, 0x01);
    assert_eq!(cpu.status, 0b0000_0001);
}

#[test]
fn adc_from_zero_page() {
    let mut cpu = CPU::new();
    cpu.mem_write(0x40, 0x22);
    cpu.load_and_run(vec![0xa9, 0x11, 0x65, 0x40, 0x00]);
    assert_eq!(cpu.register_a, 0x33);
    assert_eq!(cpu.status, 0);
}

#[test]
fn sbc_borrows() {
    // SEC; LDA #$50; SBC #$F0: 0x50 - 0xF0 = -0xA0, a borrow
    let cpu = run_program(vec![0x38, 0xa9, 0x50, 0xe9, 0xf0, 0x00]);
    assert_eq!(cpu.register_a, 0x60);
    assert_eq!(cpu.status, 0);
}

#[test]
fn sbc_subtracts_clear_carry_as_borrow() {
    // LDA #$05; SBC #$03 with the carry clear: 5 - 3 - 1
    let cpu = run_program(vec![0xa9, 0x05, 0xe9, 0x03, 0x00]);
    assert_eq!(cpu.register_a, 0x01);
    assert_eq!(cpu.status, 0b0000_0001);
}

#[test]
fn sbc_sets_overflow_on_signed_overflow() {
    // SEC; LDA #$50; SBC #$B0: 80 - (-80) = 160
    let cpu = run_program(vec![0x38, 0xa9, 0x50, 0xe9, 0xb0, 0x00]);
    assert_eq!(cpu.register_a, 0xA0);
    assert_eq!(cpu.status, 0b1100_0000);
}

#[test]
fn and_eor_ora() {
    let cpu = run_program(vec![0xa9, 0b1100_1100, 0x29, 0b1010_1010, 0x00]);
    assert_eq!(cpu.register_a, 0b1000_1000);
    assert_eq!(cpu.status, 0b1000_0000);
    let cpu = run_program(vec![0xa9, 0b1100_1100, 0x49, 0b1100_1100, 0x00]);
    assert_eq!(cpu.register_a, 0);
    assert_eq!(cpu.status, 0b0000_0010);
    let cpu = run_program(vec![0xa9, 0b0000_1100, 0x09, 0b0011_0000, 0x00]);
    assert_eq!(cpu.register_a, 0b0011_1100);
    assert_eq!(cpu.status, 0);
}

#[test]
fn asl_and_lsr_accumulator() {
    let cpu = run_program(vec![0xa9, 0x81, 0x0a, 0x00]);
    assert_eq!(cpu.register_a, 0x02);
    assert_eq!(cpu.status, 0b0000_0001);
    let cpu = run_program(vec![0xa9, 0x03, 0x4a, 0x00]);
    assert_eq!(cpu.register_a, 0x01);
    assert_eq!(cpu.status, 0b0000_0001);
}

#[test]
fn asl_and_lsr_memory() {
    let mut cpu = CPU::new();
    cpu.mem_write(0x10, 0x40);
    cpu.load_and_run(vec![0x06, 0x10, 0x00]);
    assert_eq!(cpu.mem_read(0x10), 0x80);
    assert_eq!(cpu.status, 0b1000_0000);
    let mut cpu = CPU::new();
    cpu.mem_write(0x1234, 0x01);
    cpu.load_and_run(vec![0x4e, 0x34, 0x12, 0x00]);
    assert_eq!(cpu.mem_read(0x1234), 0x00);
    assert_eq!(cpu.status, 0b0000_0011);
}

#[test]
fn rotate_left_then_right_restores() {
    // SEC; LDA #$81; ROL A; ROR A
    let mut cpu = CPU::new();
    cpu.load(vec![0x38, 0xa9, 0x81, 0x2a, 0x6a, 0x00]);
    cpu.reset();
    cpu.step();
    cpu.step();
    cpu.step();
    assert_eq!(cpu.register_a, 0x03);
    assert_eq!(cpu.status & CpuFlags::CARRY, CpuFlags::CARRY);
    cpu.step();
    assert_eq!(cpu.register_a, 0x81);
    assert_eq!(cpu.status, 0b1000_0001);
}

#[test]
fn rotate_memory() {
    let mut cpu = CPU::new();
    cpu.mem_write(0x20, 0b0100_0001);
    // ROL $20; ROR $20; ROR $20 with the carry clear
    cpu.load_and_run(vec![0x26, 0x20, 0x66, 0x20, 0x66, 0x20, 0x00]);
    assert_eq!(cpu.mem_read(0x20), 0b0010_0000);
    assert_eq!(cpu.status, 0b0000_0001);
}

#[test]
fn inc_and_dec_memory() {
    let mut cpu = CPU::new();
    cpu.mem_write(0x20, 0xff);
    cpu.load_and_run(vec![0xe6, 0x20, 0x00]);
    assert_eq!(cpu.mem_read(0x20), 0x00);
    assert_eq!(cpu.status, 0b0000_0010);
    let mut cpu = CPU::new();
    cpu.mem_write(0x20, 0xff);
    cpu.load_and_run(vec![0xe6, 0x20, 0xc6, 0x20, 0x00]);
    assert_eq!(cpu.mem_read(0x20), 0xff);
    assert_eq!(cpu.status, 0b1000_0000);
}

#[test]
fn increment_then_decrement_registers() {
    let mut cpu = CPU::new();
    cpu.register_x = 0x7f;
    cpu.register_y = 0x00;
    // INX; DEX; DEY; INY
    cpu.load_and_run(vec![0xe8, 0xca, 0x88, 0xc8, 0x00]);
    assert_eq!(cpu.register_x, 0x7f);
    assert_eq!(cpu.register_y, 0x00);
    assert_eq!(cpu.status, 0b0000_0010);
}

#[test]
fn dex_wraps_below_zero() {
    let cpu = run_program(vec![0xca, 0x00]);
    assert_eq!(cpu.register_x, 0xff);
    assert_eq!(cpu.status, 0b1000_0000);
}

#[test]
fn pha_then_pla_restores_accumulator() {
    // LDA #$42; PHA; LDA #$00; PLA
    let cpu = run_program(vec![0xa9, 0x42, 0x48, 0xa9, 0x00, 0x68, 0x00]);
    assert_eq!(cpu.register_a, 0x42);
    assert_eq!(cpu.stack_pointer, 0xfd);
    assert_eq!(cpu.mem_read(0x01fd), 0x42);
    assert_eq!(cpu.status, 0);
}

#[test]
fn php_then_plp_restores_status_with_break_bits() {
    // SEC; SED; PHP; CLC; CLD; PLP
    let cpu = run_program(vec![0x38, 0xf8, 0x08, 0x18, 0xd8, 0x28, 0x00]);
    assert_eq!(cpu.mem_read(0x01fd), 0b0010_1001);
    assert_eq!(cpu.status, 0b0011_1001);
    assert_eq!(cpu.stack_pointer, 0xfd);
}

#[test]
fn stack_pointer_wraps_in_stack_page() {
    let mut cpu = CPU::new();
    cpu.register_x = 0x00;
    // TXS; LDA #$77; PHA
    cpu.load_and_run(vec![0x9a, 0xa9, 0x77, 0x48, 0x00]);
    assert_eq!(cpu.mem_read(0x0100), 0x77);
    assert_eq!(cpu.stack_pointer, 0xff);
}

#[test]
fn jsr_then_rts_returns_after_call() {
    // 8000: JSR $8007; 8003: LDX #$01; 8005: BRK; 8007: LDA #$33; 8009: RTS
    let cpu = run_program(vec![0x20, 0x07, 0x80, 0xa2, 0x01, 0x00, 0x00, 0xa9, 0x33, 0x60]);
    assert_eq!(cpu.register_a, 0x33);
    assert_eq!(cpu.register_x, 0x01);
    assert_eq!(cpu.stack_pointer, 0xfd);
    assert_eq!(cpu.program_counter, 0x8006);
    assert_eq!(cpu.mem_read_u16(0x01fc), 0x8002);
}

#[test]
fn rti_pulls_status_and_program_counter() {
    let mut cpu = CPU::new();
    cpu.stack_pointer = 0xfa;
    cpu.mem_write(0x01fb, 0b1101_0011);
    cpu.mem_write_u16(0x01fc, 0x0300);
    cpu.mem_write(0x0300, 0x00);
    cpu.load_and_run(vec![0x40]);
    assert_eq!(cpu.status, 0b1110_0011);
    assert_eq!(cpu.program_counter, 0x0301);
    assert_eq!(cpu.stack_pointer, 0xfd);
}

#[test]
fn jmp_absolute() {
    // JMP $8005; LDA #$01; LDX #$02; BRK
    let cpu = run_program(vec![0x4c, 0x05, 0x80, 0xa9, 0x01, 0xa2, 0x02, 0x00]);
    assert_eq!(cpu.register_a, 0x00);
    assert_eq!(cpu.register_x, 0x02);
}

#[test]
fn jmp_indirect_wraps_within_page() {
    let mut cpu = CPU::new();
    cpu.mem_write(0x30ff, 0x05);
    cpu.mem_write(0x3000, 0x80);
    cpu.mem_write(0x3100, 0x90);
    // JMP ($30FF); LDA #$01; LDA #$07; BRK
    cpu.load_and_run(vec![0x6c, 0xff, 0x30, 0xa9, 0x01, 0xa9, 0x07, 0x00]);
    assert_eq!(cpu.register_a, 0x07);
    assert_eq!(cpu.program_counter, 0x8008);
}

#[test]
fn jmp_indirect_reads_pointer() {
    let mut cpu = CPU::new();
    cpu.mem_write_u16(0x0120, 0x8005);
    // JMP ($0120); LDA #$01; LDA #$07; BRK
    cpu.load_and_run(vec![0x6c, 0x20, 0x01, 0xa9, 0x01, 0xa9, 0x07, 0x00]);
    assert_eq!(cpu.register_a, 0x07);
}

#[test]
fn bne_loops_back() {
    // LDX #$03; DEX; BNE -3; BRK
    let cpu = run_program(vec![0xa2, 0x03, 0xca, 0xd0, 0xfd, 0x00]);
    assert_eq!(cpu.register_x, 0x00);
    assert_eq!(cpu.status, 0b0000_0010);
    assert_eq!(cpu.program_counter, 0x8006);
}

#[test]
fn branch_forward_skips() {
    // SEC; BCS +2; LDX #$05; BRK
    let cpu = run_program(vec![0x38, 0xb0, 0x02, 0xa2, 0x05, 0x00]);
    assert_eq!(cpu.register_x, 0x00);
    // CLC; BCS +2; LDX #$05; BRK
    let cpu = run_program(vec![0x18, 0xb0, 0x02, 0xa2, 0x05, 0x00]);
    assert_eq!(cpu.register_x, 0x05);
    // CLC; BCC +2; LDX #$05; BRK
    let cpu = run_program(vec![0x18, 0x90, 0x02, 0xa2, 0x05, 0x00]);
    assert_eq!(cpu.register_x, 0x00);
}

#[test]
fn branches_on_negative_and_overflow() {
    // LDA #$80; BMI +2; LDX #$05; BRK
    let cpu = run_program(vec![0xa9, 0x80, 0x30, 0x02, 0xa2, 0x05, 0x00]);
    assert_eq!(cpu.register_x, 0x00);
    // LDA #$80; BPL +2; LDX #$05; BRK
    let cpu = run_program(vec![0xa9, 0x80, 0x10, 0x02, 0xa2, 0x05, 0x00]);
    assert_eq!(cpu.register_x, 0x05);
    // LDA #$50; ADC #$50; BVS +2; LDX #$05; BRK
    let cpu = run_program(vec![0xa9, 0x50, 0x69, 0x50, 0x70, 0x02, 0xa2, 0x05, 0x00]);
    assert_eq!(cpu.register_x, 0x00);
    // CLV; BVC +2; LDX #$05; BRK
    let cpu = run_program(vec![0xb8, 0x50, 0x02, 0xa2, 0x05, 0x00]);
    assert_eq!(cpu.register_x, 0x00);
}

#[test]
fn beq_branches_on_zero_flag() {
    // LDA #$00 (zero set); BEQ +1; INX; INX; BRK
    let cpu = run_program(vec![0xa9, 0x00, 0xf0, 0x01, 0xe8, 0xe8, 0x00]);
    assert_eq!(cpu.register_x, 0x01);
    // LDA #$80 (zero clear, negative set); BEQ +2; LDX #$05; BRK
    let cpu = run_program(vec![0xa9, 0x80, 0xf0, 0x02, 0xa2, 0x05, 0x00]);
    assert_eq!(cpu.register_x, 0x05);
    // LDA #$01; BNE +2; LDX #$05; BRK
    let cpu = run_program(vec![0xa9, 0x01, 0xd0, 0x02, 0xa2, 0x05, 0x00]);
    assert_eq!(cpu.register_x, 0x00);
}

#[test]
fn branch_to_itself_falls_through() {
    // LDX #$01; BNE -1; LDA #$09; BRK: the target equals the program counter
    // after the fetch, so the operand byte is skipped as for an untaken branch
    let cpu = run_program(vec![0xa2, 0x01, 0xd0, 0xff, 0xa9, 0x09, 0x00]);
    assert_eq!(cpu.register_a, 0x09);
}

#[test]
fn compare_sets_carry_zero_negative() {
    // LDA #$10; CMP #$10
    let cpu = run_program(vec![0xa9, 0x10, 0xc9, 0x10, 0x00]);
    assert_eq!(cpu.status, 0b0000_0011);
    // LDA #$10; CMP #$20
    let cpu = run_program(vec![0xa9, 0x10, 0xc9, 0x20, 0x00]);
    assert_eq!(cpu.status, 0b1000_0000);
    // LDX #$30; CPX #$20
    let cpu = run_program(vec![0xa2, 0x30, 0xe0, 0x20, 0x00]);
    assert_eq!(cpu.status, 0b0000_0001);
    // LDY #$05; CPY #$05
    let cpu = run_program(vec![0xa0, 0x05, 0xc0, 0x05, 0x00]);
    assert_eq!(cpu.status, 0b0000_0011);
}

#[test]
fn bit_sets_zero_negative_overflow() {
    let mut cpu = CPU::new();
    cpu.mem_write(0x10, 0xC0);
    // LDA #$01; BIT $10
    cpu.load_and_run(vec![0xa9, 0x01, 0x24, 0x10, 0x00]);
    assert_eq!(cpu.status, 0b1100_0010);
    assert_eq!(cpu.register_a, 0x01);
}

#[test]
fn bit_keeps_negative_and_overflow_set() {
    let mut cpu = CPU::new();
    cpu.mem_write(0x1011, 0x01);
    // LDA #$81; BIT $1011
    cpu.load_and_run(vec![0xa9, 0x81, 0x2c, 0x11, 0x10, 0x00]);
    assert_eq!(cpu.status, 0b1000_0000);
}

#[test]
fn flag_instructions() {
    // SEC; SED; SEI
    let cpu = run_program(vec![0x38, 0xf8, 0x78, 0x00]);
    assert_eq!(cpu.status, 0b0000_1101);
    // SEC; SED; SEI; CLC; CLD; CLI
    let cpu = run_program(vec![0x38, 0xf8, 0x78, 0x18, 0xd8, 0x58, 0x00]);
    assert_eq!(cpu.status, 0);
    // LDA #$50; ADC #$50; CLV
    let cpu = run_program(vec![0xa9, 0x50, 0x69, 0x50, 0xb8, 0x00]);
    assert_eq!(cpu.status, 0b1000_0000);
}

#[test]
fn register_transfers() {
    // LDA #$80; TAY; LDA #$00; TYA; TAX
    let cpu = run_program(vec![0xa9, 0x80, 0xa8, 0xa9, 0x00, 0x98, 0xaa, 0x00]);
    assert_eq!(cpu.register_a, 0x80);
    assert_eq!(cpu.register_x, 0x80);
    assert_eq!(cpu.register_y, 0x80);
    assert_eq!(cpu.status, 0b1000_0000);
    // LDX #$40; TXS; LDX #$00; TSX; TXA
    let cpu = run_program(vec![0xa2, 0x40, 0x9a, 0xa2, 0x00, 0xba, 0x8a, 0x00]);
    assert_eq!(cpu.stack_pointer, 0x40);
    assert_eq!(cpu.register_x, 0x40);
    assert_eq!(cpu.register_a, 0x40);
    assert_eq!(cpu.status, 0);
}

#[test]
fn stores_write_registers() {
    // LDA #$11; LDX #$22; LDY #$33; STA $10; STX $0211; STY $12,X
    let cpu = run_program(vec![
        0xa9, 0x11, 0xa2, 0x22, 0xa0, 0x33, 0x85, 0x10, 0x8e, 0x11, 0x02, 0x94, 0x12, 0x00,
    ]);
    assert_eq!(cpu.mem_read(0x10), 0x11);
    assert_eq!(cpu.mem_read(0x0211), 0x22);
    assert_eq!(cpu.mem_read(0x34), 0x33);
}

#[test]
fn store_indirect_y() {
    let mut cpu = CPU::new();
    cpu.mem_write_u16(0x40, 0x0300);
    // LDA #$66; LDY #$05; STA ($40),Y
    cpu.load_and_run(vec![0xa9, 0x66, 0xa0, 0x05, 0x91, 0x40, 0x00]);
    assert_eq!(cpu.mem_read(0x0305), 0x66);
}

#[test]
fn zero_page_x_wraps_within_zero_page() {
    let mut cpu = CPU::new();
    cpu.mem_write(0x0000, 0x77);
    cpu.mem_write(0x0100, 0x11);
    // LDX #$01; LDA $FF,X
    cpu.load_and_run(vec![0xa2, 0x01, 0xb5, 0xff, 0x00]);
    assert_eq!(cpu.register_a, 0x77);
}

#[test]
fn zero_page_y_for_ldx() {
    let mut cpu = CPU::new();
    cpu.mem_write(0x0012, 0x5c);
    // LDY #$02; LDX $10,Y
    cpu.load_and_run(vec![0xa0, 0x02, 0xb6, 0x10, 0x00]);
    assert_eq!(cpu.register_x, 0x5c);
}

#[test]
fn indirect_x_pointer_wraps_within_zero_page() {
    let mut cpu = CPU::new();
    cpu.mem_write(0x00ff, 0x34);
    cpu.mem_write(0x0000, 0x12);
    cpu.mem_write(0x1234, 0x99);
    // LDA ($FF,X) with X = 0
    cpu.load_and_run(vec![0xa1, 0xff, 0x00]);
    assert_eq!(cpu.register_a, 0x99);
}

#[test]
fn absolute_indexed() {
    let mut cpu = CPU::new();
    cpu.mem_write(0x1002, 0x66);
    cpu.mem_write(0x0001, 0x67);
    // LDX #$02; LDA $1000,X; LDY #$02; LDX $FFFF,Y
    cpu.load_and_run(vec![0xa2, 0x02, 0xbd, 0x00, 0x10, 0xa0, 0x02, 0xbe, 0xff, 0xff, 0x00]);
    assert_eq!(cpu.register_a, 0x66);
    assert_eq!(cpu.register_x, 0x67);
}

#[test]
fn nop_changes_nothing_but_the_program_counter() {
    let cpu = run_program(vec![0xea, 0xea, 0x00]);
    assert_eq!(cpu.program_counter, 0x8003);
    assert_eq!(cpu.status, 0);
    assert_eq!(cpu.register_a, 0);
}

#[test]
fn opcode_table_is_well_formed() {
    let mut entries = 0;
    for code in 0..=255u8 {
        if let Some(op) = decode_opcode(code) {
            entries += 1;
            assert_eq!(op.code, code);
            let operand_bytes = match op.mode {
                AddressingMode::Immediate
                | AddressingMode::ZeroPage
                | AddressingMode::ZeroPage_X
                | AddressingMode::ZeroPage_Y
                | AddressingMode::Indirect_X
                | AddressingMode::Indirect_Y => 1,
                AddressingMode::Absolute | AddressingMode::Absolute_X | AddressingMode::Absolute_Y => 2,
                AddressingMode::NoneAddressing => op.len - 1,
            };
            assert_eq!(op.len, 1 + operand_bytes);
            assert!(op.len >= 1 && op.len <= 3);
        }
    }
    assert_eq!(entries, 151);
}

#[test]
fn opcode_table_entries() {
    let op = decode_opcode(0xa9).unwrap();
    assert_eq!(op.mnemonic, Mnemonic::Lda);
    assert_eq!(op.mode, AddressingMode::Immediate);
    assert_eq!(op.len, 2);
    let op = decode_opcode(0x6c).unwrap();
    assert_eq!(op.mnemonic, Mnemonic::JmpIndirect);
    assert_eq!(op.len, 3);
    let op = decode_opcode(0x96).unwrap();
    assert_eq!(op.mnemonic, Mnemonic::Stx);
    assert_eq!(op.mode, AddressingMode::ZeroPage_Y);
    assert!(decode_opcode(0x02).is_none());
    assert!(decode_opcode(0xff).is_none());
}

#[test]
fn try_step_executes_like_step() {
    let mut cpu = CPU::new();
    cpu.load(vec![0xa9, 0x05, 0x00]);
    cpu.reset();
    assert_eq!(cpu.try_step(), Some(false));
    assert_eq!(cpu.register_a, 0x05);
    assert_eq!(cpu.program_counter, 0x8002);
    assert_eq!(cpu.try_step(), Some(true));
    assert_eq!(cpu.program_counter, 0x8003);
}

#[test]
fn try_step_reports_faults_and_keeps_state() {
    let mut cpu = CPU::new();
    cpu.register_a = 3;
    // an opcode that is not in the table
    cpu.mem_write(0x0200, 0x02);
    cpu.program_counter = 0x0200;
    assert_eq!(cpu.try_step(), None);
    assert_eq!(cpu.program_counter, 0x0200);
    assert_eq!(cpu.register_a, 3);
    // the program counter past the end of memory
    cpu.program_counter = 0xFFFF;
    assert_eq!(cpu.try_step(), None);
    // LDA $FFFF reads outside memory
    cpu.mem_write(0x0300, 0xad);
    cpu.mem_write(0x0301, 0xff);
    cpu.mem_write(0x0302, 0xff);
    cpu.program_counter = 0x0300;
    assert_eq!(cpu.try_step(), None);
    assert_eq!(cpu.register_a, 3);
    // an untaken branch at 0xFFFE would move the program counter past 0xFFFF
    cpu.mem_write(0xFFFE, 0xf0);
    cpu.program_counter = 0xFFFE;
    assert_eq!(cpu.try_step(), None);
    assert_eq!(cpu.program_counter, 0xFFFE);
    // RTS returning to 0xFFFF + 1
    cpu.mem_write(0x0400, 0x60);
    cpu.stack_pointer = 0xfb;
    cpu.mem_write_u16(0x01fc, 0xFFFF);
    cpu.program_counter = 0x0400;
    assert_eq!(cpu.try_step(), None);
    assert_eq!(cpu.stack_pointer, 0xfb);
    assert_eq!(cpu.program_counter, 0x0400);
}
