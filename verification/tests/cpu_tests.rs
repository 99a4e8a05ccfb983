use nes_cpu::cpu::CPU;

#[test]
fn test_0xa9_load_data() {
    let mut cpu = CPU::new();
    cpu.load_and_run(vec![0xa9, 0x05, 0x00]);
    assert_eq!(cpu.register_a, 0x05);
    assert!(cpu.status & 0b0000_0010 == 0b00);
    assert!(cpu.status & 0b1000_0000 == 0);
}

#[test]
fn test_0xa9_zero_flag() {
    let mut cpu = CPU::new();
    cpu.load_and_run(vec![0xa9, 0x00, 0x00]);
    assert!(cpu.status & 0b0000_0010 == 0b10);
}

#[test]
fn test_0xaa_tax_move_a_to_x() {
    let mut cpu = CPU::new();
    cpu.register_a = 10;

    cpu.load_and_run(vec![0xaa, 0x00]);

    assert_eq!(cpu.register_x, 10)
}

#[test]
fn test_5_ops_working_together() {
    let mut cpu = CPU::new();

    cpu.load_and_run(vec![0xa9, 0xc0, 0xaa, 0xe8, 0x00]);

    assert_eq!(cpu.register_x, 0xc1)
}

#[test]
fn test_inx_overflow() {
    let mut cpu = CPU::new();
    cpu.register_x = 0xff;

    cpu.load_and_run(vec![0xe8, 0xe8, 0x00]);

    assert_eq!(cpu.register_x, 1)
}

#[test]
fn test_lda_from_memory() {
    let mut cpu = CPU::new();
    cpu.mem_write(0x10, 0x55);

    cpu.load_and_run(vec![0xa5, 0x10, 0x00]);

    assert_eq!(cpu.register_a, 0x55);
}

#[test]
fn test_lda_from_memory_indirect_x() {
    let mut cpu = CPU::new();
    cpu.mem_write_u16(0x18, 0xFF05);
    cpu.mem_write(0xFF05, 0x5A);
    cpu.register_x = 0x08;
    cpu.load_and_run(vec![0xa1, 0x10, 0x00]);
    assert_eq!(cpu.register_a, 0x5A);
}

#[test]
fn test_lda_from_memory_indirect_y() {
    let mut cpu = CPU::new();
    cpu.mem_write_u16(0x10, 0xFF06);
    cpu.mem_write(0xFF09, 0x5B);
    cpu.register_y = 0x03;
    cpu.load_and_run(vec![0xb1, 0x10, 0x00]);
    assert_eq!(cpu.register_a, 0x5B);
}
