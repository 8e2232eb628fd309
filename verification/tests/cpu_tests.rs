use mos6502::cpu::CPU;

#[test]
fn test_0xa9_lda_immediate_load_data() {
    let mut cpu = CPU::new();
    cpu.load_and_run(&vec![0xA9, 0x05, 0x00], 0x8000).unwrap();
    assert!(cpu.acc_reg == 0x05);

    // Check if negative flag is set, which it shouldn't
    assert!(cpu.status & 0b1000_0000 == 0);

    // Check if result zero flag is set, which it shouldn't
    assert!(cpu.status & 0b0000_0010 == 0)
}

#[test]
fn test_0xa_zero_flag() {
    let mut cpu = CPU::new();
    cpu.load_and_run(&vec![0xA9, 0x00, 0x00], 0x8000).unwrap();
    // Check if result zero flag is set, which it should
    assert!(cpu.status & 0b0000_0010 != 0)
}

#[test]
fn test_0xa_negative_flag() {
    let mut cpu = CPU::new();
    cpu.load_and_run(&vec![0xA9, 0xFF, 0x00], 0x8000).unwrap();
    // Check if result zero flag is set, which it should
    assert!(cpu.status & 0b1000_0000 != 0)
}

#[test]
fn test_0xaa_tax_moves_a_to_x() {
    let mut cpu = CPU::new();
    cpu.load(&vec![0xAA, 0x00], 0x8000).unwrap();
    cpu.reset();

    cpu.acc_reg = 0x15;
    cpu.run();

    assert!(cpu.reg_x == 0x15);
    assert!((cpu.status & 0b0000_0010) == 0);
    assert!((cpu.status & 0b1000_0000) == 0);
}

#[test]
fn test_0xaa_tax_moves_sets_zero_flag() {
    let mut cpu = CPU::new();
    cpu.load(&vec![0xAA, 0x00], 0x8000).unwrap();
    cpu.reset();

    cpu.acc_reg = 0x00;
    cpu.run();

    assert!((cpu.status & 0b0000_0010) != 0)
}

#[test]
fn test_0xaa_tax_moves_sets_negative_flag() {
    let mut cpu = CPU::new();
    cpu.load(&vec![0xAA, 0x00], 0x8000).unwrap();
    cpu.reset();

    cpu.acc_reg = 0b1000_0000;
    cpu.run();

    assert!((cpu.status & 0b1000_0000) != 0)
}

#[test]
fn text_0xe8_inc_reg_x() {
    let mut cpu = CPU::new();
    cpu.load(&vec![0xe8, 0x00], 0x8000).unwrap();
    cpu.reset();

    cpu.reg_x = 20;
    cpu.run();

    assert!(cpu.reg_x == 21);
}

#[test]
fn test_0xe8_inx_overflow() {
    let mut cpu = CPU::new();
    cpu.load_and_run(&vec![0xe8, 0xe8, 0x00], 0x8000).unwrap();
    cpu.reset();

    cpu.reg_x = 0xff;
    cpu.run();

    assert_eq!(1, cpu.reg_x)
}

#[test]
fn test_update_negative_flag() {
    let mut cpu = CPU::new();
    let val = 0b1000_0000;
    cpu.update_negative_zero_flags(val);

    assert!((cpu.status & 0b1000_0000) != 0);
}

#[test]
fn test_update_zero_flag() {
    let mut cpu = CPU::new();
    let val = 0b0000_0000;
    cpu.update_negative_zero_flags(val);

    assert!((cpu.status & 0b0000_0010) != 0);
}

#[test]
fn test_5_ops_working_together() {
    let mut cpu = CPU::new();
    cpu.load_and_run(&vec![0xa9, 0xc0, 0xaa, 0xe8, 0x00], 0x8000).unwrap();

    assert_eq!(cpu.reg_x, 0xc1)
}

#[test]
fn test_adc_overflow() {
    let mut cpu = CPU::new();

    cpu.load(&vec![0x69, 80, 0x33], 0x8000).unwrap();

    cpu.acc_reg = 80;
    cpu.pc = cpu.mem_read_u16(0xfffc);
    cpu.run();

    assert!((0b0100_0000 & cpu.status) != 0)
}

#[test]
fn test_adc_not_overflow() {
    let mut cpu = CPU::new();

    cpu.load(&vec![0x69, 10, 0x33], 0x8000).unwrap();

    cpu.acc_reg = 80;
    cpu.pc = cpu.mem_read_u16(0xfffc);
    cpu.run();

    assert!((0b0100_0000 & cpu.status) == 0)
}

#[test]
fn test_adc_not_underflow() {
    let mut cpu = CPU::new();

    cpu.load(&vec![0x69, 0xd0 /* - 10*/, 0x33], 0x8000).unwrap();

    cpu.acc_reg = 0xd0; // -48
    cpu.pc = cpu.mem_read_u16(0xfffc);
    cpu.run();

    assert!((0b0100_0000 & cpu.status) == 0)
}

#[test]
fn test_adc_underflow() {
    let mut cpu = CPU::new();

    cpu.load(&vec![0x69, 0x90 /*-112*/, 0x33], 0x8000).unwrap();

    cpu.acc_reg = 0xd0; // -48
    cpu.pc = cpu.mem_read_u16(0xfffc);
    cpu.run();

    assert!((0b0100_0000 & cpu.status) != 0)
}

#[test]
fn test_adc_overflow_flag_negative_positive_numbers() {
    let mut cpu = CPU::new();

    cpu.load(&vec![0x69, 0xa0 /*10*/, 0x33], 0x8000).unwrap();

    cpu.acc_reg = 0xd0; // -48
    cpu.pc = cpu.mem_read_u16(0xfffc);
    cpu.run();

    assert!((0b0100_0000 & cpu.status) != 0)
}

#[test]
fn test_adc_carry_set_80_208_acc() {
    let mut cpu = CPU::new();

    cpu.load(&vec![0x69, 80, 0x33], 0x8000).unwrap();

    cpu.acc_reg = 208;
    cpu.pc = cpu.mem_read_u16(0xfffc);
    cpu.run();

    assert!((0b0000_0001 & cpu.status) != 0)
}

#[test]
fn test_adc_carry_set_208_80_acc() {
    let mut cpu = CPU::new();

    cpu.load(&vec![0x69, 208, 0x33], 0x8000).unwrap();

    cpu.acc_reg = 80;
    cpu.pc = cpu.mem_read_u16(0xfffc);
    cpu.run();

    assert!((0b0000_0001 & cpu.status) != 0)
}

#[test]
fn test_adc_carry_set_208_144_acc() {
    let mut cpu = CPU::new();

    cpu.load(&vec![0x69, 208, 0x33], 0x8000).unwrap();

    cpu.acc_reg = 144;
    cpu.pc = cpu.mem_read_u16(0xfffc);
    cpu.run();

    assert!((0b0000_0001 & cpu.status) != 0)
}

#[test]
fn test_adc_carry_set_208_208() {
    let mut cpu = CPU::new();

    cpu.load(&vec![0x69, 208, 0x33], 0x8000).unwrap();

    cpu.acc_reg = 208;
    cpu.pc = cpu.mem_read_u16(0xfffc);
    cpu.run();

    assert!((0b0000_0001 & cpu.status) != 0)
}

#[test]
fn test_adc_carry_doesnt_set_numbers() {
    let mut cpu = CPU::new();

    cpu.load(&vec![0x69, 40, 0x33], 0x8000).unwrap();

    cpu.acc_reg = 208;
    cpu.pc = cpu.mem_read_u16(0xfffc);
    cpu.run();

    assert!((0b0000_0001 & cpu.status) == 0)
}
