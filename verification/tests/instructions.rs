use mos6502::cpu::CPU;
use mos6502::model::HaltReason;

#[test]
fn sbc_subtracts_with_borrow_clear() {
    // LDA #10, SEC, SBC #5: A = 5 with carry still set (no borrow).
    let mut cpu = CPU::new();
    cpu.load_and_run(&vec![0xA9, 0x0A, 0x38, 0xE9, 0x05, 0x00], 0x8000).unwrap();
    assert_eq!(cpu.acc_reg, 5);
    assert_ne!(cpu.status & 0x01, 0);
}

#[test]
fn sbc_borrows_when_operand_larger() {
    // LDA #5, SEC, SBC #10: A = 0xFB with carry clear (borrow).
    let mut cpu = CPU::new();
    cpu.load_and_run(&vec![0xA9, 0x05, 0x38, 0xE9, 0x0A, 0x00], 0x8000).unwrap();
    assert_eq!(cpu.acc_reg, 0xFB);
    assert_eq!(cpu.status & 0x01, 0);
}

#[test]
fn cmp_equal_sets_zero_and_carry() {
    let mut cpu = CPU::new();
    cpu.load_and_run(&vec![0xA9, 0x05, 0xC9, 0x05, 0x00], 0x8000).unwrap();
    assert_ne!(cpu.status & 0x02, 0);
    assert_ne!(cpu.status & 0x01, 0);
    assert_eq!(cpu.acc_reg, 0x05);
}

#[test]
fn cpx_less_clears_carry() {
    // LDX #3, CPX #5: X < operand leaves carry clear, N from 0xFE.
    let mut cpu = CPU::new();
    cpu.load_and_run(&vec![0xA2, 0x03, 0xE0, 0x05, 0x00], 0x8000).unwrap();
    assert_eq!(cpu.status & 0x01, 0);
    assert_ne!(cpu.status & 0x80, 0);
}

#[test]
fn logical_ops_on_accumulator() {
    // LDA #$F0, AND #$3C, ORA #$01, EOR #$FF.
    let mut cpu = CPU::new();
    cpu.load_and_run(
        &vec![0xA9, 0xF0, 0x29, 0x3C, 0x09, 0x01, 0x49, 0xFF, 0x00],
        0x8000,
    )
    .unwrap();
    assert_eq!(cpu.acc_reg, !0x31u8);
}

#[test]
fn asl_accumulator_sets_carry_from_bit7() {
    let mut cpu = CPU::new();
    cpu.load_and_run(&vec![0xA9, 0x81, 0x0A, 0x00], 0x8000).unwrap();
    assert_eq!(cpu.acc_reg, 0x02);
    assert_ne!(cpu.status & 0x01, 0);
}

#[test]
fn lsr_accumulator_sets_carry_from_bit0() {
    let mut cpu = CPU::new();
    cpu.load_and_run(&vec![0xA9, 0x03, 0x4A, 0x00], 0x8000).unwrap();
    assert_eq!(cpu.acc_reg, 0x01);
    assert_ne!(cpu.status & 0x01, 0);
}

#[test]
fn rol_ror_move_carry_through() {
    // SEC, LDA #$40, ROL A: carry rotates into bit 0, A = 0x81.
    let mut cpu = CPU::new();
    cpu.load_and_run(&vec![0x38, 0xA9, 0x40, 0x2A, 0x00], 0x8000).unwrap();
    assert_eq!(cpu.acc_reg, 0x81);
    assert_eq!(cpu.status & 0x01, 0);

    // SEC, LDA #$02, ROR A: carry rotates into bit 7, bit 0 into carry.
    let mut cpu = CPU::new();
    cpu.load_and_run(&vec![0x38, 0xA9, 0x02, 0x6A, 0x00], 0x8000).unwrap();
    assert_eq!(cpu.acc_reg, 0x81);
    assert_eq!(cpu.status & 0x01, 0);
}

#[test]
fn asl_on_memory_writes_back() {
    let mut cpu = CPU::new();
    cpu.load(&vec![0x06, 0x10, 0x00], 0x8000).unwrap();
    cpu.reset();
    cpu.mem_write(0x10, 0xC0);
    cpu.run();
    assert_eq!(cpu.mem_read(0x10), 0x80);
    assert_ne!(cpu.status & 0x01, 0);
    assert_ne!(cpu.status & 0x80, 0);
}

#[test]
fn inc_memory_wraps_and_sets_zero() {
    let mut cpu = CPU::new();
    cpu.load(&vec![0xE6, 0x10, 0x00], 0x8000).unwrap();
    cpu.reset();
    cpu.mem_write(0x10, 0xFF);
    cpu.run();
    assert_eq!(cpu.mem_read(0x10), 0x00);
    assert_ne!(cpu.status & 0x02, 0);
}

#[test]
fn dec_and_dex_dey() {
    // LDX #1, LDY #0, DEX, DEY: X = 0 (Z set along the way), Y wraps to 0xFF.
    let mut cpu = CPU::new();
    cpu.load_and_run(&vec![0xA2, 0x01, 0xA0, 0x00, 0xCA, 0x88, 0x00], 0x8000).unwrap();
    assert_eq!(cpu.reg_x, 0x00);
    assert_eq!(cpu.reg_y, 0xFF);
    assert_ne!(cpu.status & 0x80, 0);
}

#[test]
fn bit_test_sets_z_n_v_from_memory() {
    let mut cpu = CPU::new();
    cpu.load(&vec![0xA9, 0x0F, 0x24, 0x10, 0x00], 0x8000).unwrap();
    cpu.reset();
    cpu.mem_write(0x10, 0xC0);
    cpu.run();
    assert_ne!(cpu.status & 0x02, 0);
    assert_ne!(cpu.status & 0x80, 0);
    assert_ne!(cpu.status & 0x40, 0);
    assert_eq!(cpu.acc_reg, 0x0F);
}

#[test]
fn sta_stx_sty_write_memory() {
    let mut cpu = CPU::new();
    cpu.load_and_run(
        &vec![
            0xA9, 0x41, 0x8D, 0x00, 0x02, // STA $0200
            0xA2, 0x42, 0x8E, 0x01, 0x02, // STX $0201
            0xA0, 0x43, 0x8C, 0x02, 0x02, // STY $0202
            0x00,
        ],
        0x8000,
    )
    .unwrap();
    assert_eq!(cpu.mem_read(0x0200), 0x41);
    assert_eq!(cpu.mem_read(0x0201), 0x42);
    assert_eq!(cpu.mem_read(0x0202), 0x43);
}

#[test]
fn transfers_between_registers() {
    // LDA #7, TAY, TXS via LDX, TSX round trip.
    let mut cpu = CPU::new();
    cpu.load_and_run(&vec![0xA9, 0x07, 0xA8, 0x98, 0x00], 0x8000).unwrap();
    assert_eq!(cpu.reg_y, 0x07);
    assert_eq!(cpu.acc_reg, 0x07);

    let mut cpu = CPU::new();
    cpu.load_and_run(&vec![0xA2, 0x55, 0x9A, 0xA2, 0x00, 0xBA, 0x00], 0x8000).unwrap();
    assert_eq!(cpu.sp, 0x55);
    assert_eq!(cpu.reg_x, 0x55);
}

#[test]
fn indirect_x_addressing_wraps_pointer() {
    // LDX #1, LDA ($0F,X): the pointer pair sits at 0x10/0x11.
    let mut cpu = CPU::new();
    cpu.load(&vec![0xA2, 0x01, 0xA1, 0x0F, 0x00], 0x8000).unwrap();
    cpu.reset();
    cpu.mem_write(0x10, 0x00);
    cpu.mem_write(0x11, 0x02);
    cpu.mem_write(0x0200, 0x99);
    cpu.run();
    assert_eq!(cpu.acc_reg, 0x99);
}

#[test]
fn indirect_y_addressing_adds_y_after_deref() {
    // LDY #1, LDA ($10),Y: pointer 0x0200 plus Y reads 0x0201.
    let mut cpu = CPU::new();
    cpu.load(&vec![0xA0, 0x01, 0xB1, 0x10, 0x00], 0x8000).unwrap();
    cpu.reset();
    cpu.mem_write(0x10, 0x00);
    cpu.mem_write(0x11, 0x02);
    cpu.mem_write(0x0201, 0x55);
    cpu.run();
    assert_eq!(cpu.acc_reg, 0x55);
}

#[test]
fn backward_branch_loops_until_zero() {
    // LDX #3; DEX; BNE -3: loops until X reaches zero.
    let mut cpu = CPU::new();
    cpu.load_and_run(&vec![0xA2, 0x03, 0xCA, 0xD0, 0xFD, 0x00], 0x8000).unwrap();
    assert_eq!(cpu.reg_x, 0);
    assert_ne!(cpu.status & 0x02, 0);
}

#[test]
fn untaken_branch_falls_through() {
    // LDA #1 clears Z, BEQ is not taken.
    let mut cpu = CPU::new();
    let out = cpu.load_and_run(&vec![0xA9, 0x01, 0xF0, 0x02, 0x00], 0x8000).unwrap();
    assert_eq!(cpu.pc, 0x8004);
    assert_eq!(out.cycles, 2 + 2 + 7);
}

#[test]
fn brk_with_vector_dispatches_and_rti_returns() {
    // BRK at 0x8000 goes through the IRQ vector to a handler that bumps X
    // and returns with RTI to 0x8002, where an illegal byte ends the run.
    let mut cpu = CPU::new();
    cpu.load(&vec![0x00, 0xEA, 0x02], 0x8000).unwrap();
    cpu.reset();
    cpu.mem_write_u16(0xFFFE, 0x9000);
    cpu.mem_write(0x9000, 0xE8); // INX
    cpu.mem_write(0x9001, 0x40); // RTI
    let out = cpu.run();
    assert_eq!(cpu.reg_x, 1);
    assert_eq!(out.reason, HaltReason::IllegalOpcode(0x02, 0x8002));
    assert_eq!(cpu.pc, 0x8002);
    // RTI restored the pre-BRK status: bit 5 on, B clear in the stored byte.
    assert_ne!(cpu.status & 0x20, 0);
    assert_eq!(cpu.status & 0x10, 0);
}

#[test]
fn jmp_absolute_moves_pc() {
    let mut cpu = CPU::new();
    cpu.load(&vec![0x4C, 0x05, 0x80, 0xEA, 0xEA, 0x00], 0x8000).unwrap();
    cpu.reset();
    let out = cpu.run();
    assert_eq!(out.reason, HaltReason::Brk);
    assert_eq!(cpu.pc, 0x8005);
    // JMP absolute (3) plus the halting BRK (7).
    assert_eq!(out.cycles, 10);
}

#[test]
fn sei_sed_clv_flag_ops() {
    // CLI, SED, then CLD and SEI: D ends clear, I ends set.
    let mut cpu = CPU::new();
    cpu.load_and_run(&vec![0x58, 0xF8, 0xD8, 0x78, 0x00], 0x8000).unwrap();
    assert_eq!(cpu.status & 0x08, 0);
    assert_ne!(cpu.status & 0x04, 0);
}
