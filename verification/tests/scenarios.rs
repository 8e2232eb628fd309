use mos6502::cpu::CPU;
use mos6502::model::HaltReason;

#[test]
fn lda_immediate_halts_at_brk() {
    let mut cpu = CPU::new();
    let out = cpu.load_and_run(&vec![0xA9, 0x05, 0x00], 0x8000).unwrap();
    assert_eq!(cpu.acc_reg, 0x05);
    assert_eq!(cpu.status & 0b0000_0010, 0);
    assert_eq!(cpu.status & 0b1000_0000, 0);
    assert_eq!(out.reason, HaltReason::Brk);
}

#[test]
fn five_op_chain() {
    let mut cpu = CPU::new();
    cpu.load_and_run(&vec![0xA9, 0xC0, 0xAA, 0xE8, 0x00], 0x8000).unwrap();
    assert_eq!(cpu.acc_reg, 0xC0);
    assert_eq!(cpu.reg_x, 0xC1);
    assert_ne!(cpu.status & 0b1000_0000, 0);
}

#[test]
fn inx_overflow_wraps_to_zero() {
    let mut cpu = CPU::new();
    cpu.load(&vec![0xE8, 0x00], 0x8000).unwrap();
    cpu.reset();
    cpu.reg_x = 0xFF;
    cpu.run();
    assert_eq!(cpu.reg_x, 0x00);
    assert_ne!(cpu.status & 0b0000_0010, 0);
    assert_eq!(cpu.status & 0b1000_0000, 0);
}

#[test]
fn adc_carry_out() {
    // 0xD0 + 0x50 = 0x120: the sum carries out and wraps to 0x20. Both
    // operand signs differ, so the signed-overflow formula of the ADC
    // semantics leaves V clear.
    let mut cpu = CPU::new();
    cpu.load(&vec![0x69, 0x50, 0x00], 0x8000).unwrap();
    cpu.reset();
    cpu.acc_reg = 0xD0;
    cpu.status &= !0x01;
    cpu.run();
    assert_eq!(cpu.acc_reg, 0x20);
    assert_ne!(cpu.status & 0x01, 0);
    assert_eq!(cpu.status & 0x40, 0);
}

#[test]
fn adc_no_overflow() {
    let mut cpu = CPU::new();
    cpu.load(&vec![0x69, 10, 0x00], 0x8000).unwrap();
    cpu.reset();
    cpu.acc_reg = 80;
    cpu.status &= !0x01;
    cpu.run();
    assert_eq!(cpu.acc_reg, 90);
    assert_eq!(cpu.status & 0x01, 0);
    assert_eq!(cpu.status & 0x40, 0);
}

#[test]
fn jsr_rts_round_trip() {
    // JSR $8006 at 0x8000, BRK at 0x8003, bare RTS at 0x8006: the run halts
    // on the BRK after the JSR with the stack pointer restored.
    let mut cpu = CPU::new();
    let out = cpu
        .load_and_run(&vec![0x20, 0x06, 0x80, 0x00, 0x00, 0x00, 0x60], 0x8000)
        .unwrap();
    assert_eq!(out.reason, HaltReason::Brk);
    assert_eq!(cpu.pc, 0x8003);
    assert_eq!(cpu.sp, 0xFD);
}

#[test]
fn zero_page_x_wraps_within_page_zero() {
    // LDA $FF,X with X = 1 reads 0x0000, never 0x0100.
    let mut cpu = CPU::new();
    cpu.load(&vec![0xB5, 0xFF, 0x00], 0x8000).unwrap();
    cpu.reset();
    cpu.reg_x = 1;
    cpu.mem_write(0x0000, 0x42);
    cpu.mem_write(0x0100, 0x99);
    cpu.run();
    assert_eq!(cpu.acc_reg, 0x42);
}

#[test]
fn jmp_indirect_page_wrap_bug() {
    // JMP ($02FF): the low target byte comes from 0x02FF and the high byte
    // from 0x0200, not from 0x0300.
    let mut cpu = CPU::new();
    cpu.load(&vec![0x6C, 0xFF, 0x02], 0x8000).unwrap();
    cpu.reset();
    cpu.mem_write(0x02FF, 0x05);
    cpu.mem_write(0x0200, 0x80);
    cpu.mem_write(0x0300, 0x99);
    cpu.mem_write(0x8005, 0x00);
    let out = cpu.run();
    assert_eq!(out.reason, HaltReason::Brk);
    assert_eq!(cpu.pc, 0x8005);
}

#[test]
fn pc_advances_by_instruction_size() {
    // One step of a two-byte non-control instruction moves PC by two.
    let mut cpu = CPU::new();
    cpu.load(&vec![0xA9, 0x05, 0x00], 0x8000).unwrap();
    cpu.reset();
    let before = cpu.pc;
    let st = cpu.step();
    assert_eq!(st.halt, None);
    assert_eq!(cpu.pc, before + 2);
}

#[test]
fn pha_pla_round_trip() {
    // LDA #$77, PHA, LDA #$00, PLA: the accumulator and SP come back.
    let mut cpu = CPU::new();
    cpu.load_and_run(&vec![0xA9, 0x77, 0x48, 0xA9, 0x00, 0x68, 0x00], 0x8000).unwrap();
    assert_eq!(cpu.acc_reg, 0x77);
    assert_eq!(cpu.sp, 0xFD);
}

#[test]
fn php_plp_round_trip() {
    // SEC, PHP, CLC, PLP: the carry set before the push is back after the
    // pull, and bit 5 stays on.
    let mut cpu = CPU::new();
    cpu.load_and_run(&vec![0x38, 0x08, 0x18, 0x28, 0x00], 0x8000).unwrap();
    assert_ne!(cpu.status & 0x01, 0);
    assert_ne!(cpu.status & 0x20, 0);
    assert_eq!(cpu.sp, 0xFD);
}

#[test]
fn stack_pointer_wraps_without_error() {
    // PHA with SP = 0 writes 0x0100 and wraps SP to 0xFF; PLA brings both
    // back.
    let mut cpu = CPU::new();
    cpu.load(&vec![0x48, 0x68, 0x00], 0x8000).unwrap();
    cpu.reset();
    cpu.sp = 0x00;
    cpu.acc_reg = 0x5A;
    cpu.run();
    assert_eq!(cpu.acc_reg, 0x5A);
    assert_eq!(cpu.sp, 0x00);
    assert_eq!(cpu.mem_read(0x0100), 0x5A);
}

#[test]
fn taken_branch_crossing_page_costs_two_extra_cycles() {
    // LDA #1 (2 cycles), BNE +0x20 from 0x80F2 lands in page 0x81:
    // 2 + 1 + 1 cycles, then the halting BRK's 7.
    let mut cpu = CPU::new();
    cpu.load(&vec![0xA9, 0x01, 0xD0, 0x20], 0x80F0).unwrap();
    cpu.reset();
    cpu.mem_write(0x8114, 0x00);
    let out = cpu.run();
    assert_eq!(out.reason, HaltReason::Brk);
    assert_eq!(cpu.pc, 0x8114);
    assert_eq!(out.cycles, 2 + 4 + 7);
}

#[test]
fn status_bit5_stays_set() {
    // After reset established bit 5, a chain of flag-heavy instructions
    // leaves it set.
    let mut cpu = CPU::new();
    cpu.load_and_run(
        &vec![0xA9, 0x80, 0x69, 0x80, 0xC9, 0x10, 0x0A, 0xE8, 0x00],
        0x8000,
    )
    .unwrap();
    assert_ne!(cpu.status & 0x20, 0);
}
