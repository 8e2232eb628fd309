use mos6502::cpu::{EmuError, CPU};
use mos6502::model::HaltReason;
use mos6502::opcode::{create_ops_info, lookup_opcode, AddressingMode, Mnemonic};

#[test]
fn load_rejects_out_of_bounds_program() {
    let mut cpu = CPU::new();
    let r = cpu.load(&vec![0xA9, 0x05, 0x00], 0xFFFE);
    assert_eq!(r, Err(EmuError::OutOfBoundsProgramLoad));
    // Nothing was written.
    assert_eq!(cpu.mem_read(0xFFFE), 0);
    assert_eq!(cpu.mem_read_u16(0xFFFC), 0);
}

#[test]
fn load_accepts_program_ending_at_top() {
    let mut cpu = CPU::new();
    let r = cpu.load(&vec![0xAA, 0xBB], 0xFFFE);
    assert_eq!(r, Ok(()));
    assert_eq!(cpu.mem_read(0xFFFE), 0xAA);
    assert_eq!(cpu.mem_read(0xFFFF), 0xBB);
}

#[test]
fn load_and_run_rejects_empty_program() {
    let mut cpu = CPU::new();
    let r = cpu.load_and_run(&vec![], 0x8000);
    assert_eq!(r, Err(EmuError::InvalidConfiguration));
}

#[test]
fn load_writes_reset_vector() {
    let mut cpu = CPU::new();
    cpu.load(&vec![0xEA, 0x00], 0x1234).unwrap();
    assert_eq!(cpu.mem_read_u16(0xFFFC), 0x1234);
    assert_eq!(cpu.mem_read(0x1234), 0xEA);
}

#[test]
fn reset_initializes_registers() {
    let mut cpu = CPU::new();
    cpu.load(&vec![0x00], 0x4000).unwrap();
    cpu.acc_reg = 9;
    cpu.reg_x = 9;
    cpu.reg_y = 9;
    cpu.reset();
    assert_eq!(cpu.acc_reg, 0);
    assert_eq!(cpu.reg_x, 0);
    assert_eq!(cpu.reg_y, 0);
    assert_eq!(cpu.sp, 0xFD);
    assert_eq!(cpu.status, 0b0010_0100);
    assert_eq!(cpu.pc, 0x4000);
}

#[test]
fn illegal_opcode_halts_with_pc_preserved() {
    let mut cpu = CPU::new();
    let out = cpu.load_and_run(&vec![0x02], 0x8000).unwrap();
    assert_eq!(out.reason, HaltReason::IllegalOpcode(0x02, 0x8000));
    assert_eq!(cpu.pc, 0x8000);
}

#[test]
fn stop_request_halts_before_executing() {
    let mut cpu = CPU::new();
    cpu.load(&vec![0xE8, 0x00], 0x8000).unwrap();
    cpu.reset();
    cpu.stop();
    let out = cpu.run();
    assert_eq!(out.reason, HaltReason::Stopped);
    assert_eq!(out.cycles, 0);
    assert_eq!(cpu.reg_x, 0);
    // The request was consumed: the next run executes normally.
    let out2 = cpu.run();
    assert_eq!(out2.reason, HaltReason::Brk);
    assert_eq!(cpu.reg_x, 1);
}

#[test]
fn step_reports_cycles_and_advances() {
    let mut cpu = CPU::new();
    cpu.load(&vec![0xA9, 0x05, 0x00], 0x8000).unwrap();
    cpu.reset();
    let st = cpu.step();
    assert_eq!(st.cycles, 2);
    assert_eq!(st.halt, None);
    assert_eq!(cpu.acc_reg, 0x05);
    let st2 = cpu.step();
    assert_eq!(st2.halt, Some(HaltReason::Brk));
    assert_eq!(st2.cycles, 7);
    assert_eq!(cpu.pc, 0x8002);
}

#[test]
fn run_counts_cycles_with_page_cross_penalty() {
    // LDA $80FF,X with X = 1 crosses into page 0x81: 4 + 1 cycles, then the
    // halting BRK is charged its base 7.
    let mut cpu = CPU::new();
    cpu.load(&vec![0xBD, 0xFF, 0x80, 0x00], 0x8000).unwrap();
    cpu.reset();
    cpu.reg_x = 1;
    let out = cpu.run();
    assert_eq!(out.cycles, 5 + 7);
}

#[test]
fn run_counts_taken_branch_penalty() {
    // LDA #1 (2 cycles), BNE +1 taken without a page cross (2 + 1), BRK (7).
    let mut cpu = CPU::new();
    cpu.load(&vec![0xA9, 0x01, 0xD0, 0x01, 0x00, 0x00], 0x8000).unwrap();
    cpu.reset();
    let out = cpu.run();
    assert_eq!(cpu.pc, 0x8005);
    assert_eq!(out.cycles, 2 + 3 + 7);
}

#[test]
fn memory_bus_byte_and_word_access() {
    let mut cpu = CPU::new();
    cpu.mem_write(0x0200, 0x12);
    assert_eq!(cpu.mem_read(0x0200), 0x12);
    cpu.mem_write_u16(0x0300, 0xBEEF);
    assert_eq!(cpu.mem_read(0x0300), 0xEF);
    assert_eq!(cpu.mem_read(0x0301), 0xBE);
    assert_eq!(cpu.mem_read_u16(0x0300), 0xBEEF);
}

#[test]
fn word_access_wraps_at_top_of_memory() {
    let mut cpu = CPU::new();
    cpu.mem_write_u16(0xFFFF, 0x1234);
    assert_eq!(cpu.mem_read(0xFFFF), 0x34);
    assert_eq!(cpu.mem_read(0x0000), 0x12);
    assert_eq!(cpu.mem_read_u16(0xFFFF), 0x1234);
}

#[test]
fn opcode_table_has_all_legal_opcodes_once() {
    let table = create_ops_info();
    assert_eq!(table.len(), 256);
    let legal = table.iter().filter(|e| e.is_some()).count();
    assert_eq!(legal, 151);
    for (i, entry) in table.iter().enumerate() {
        if let Some(op) = entry {
            assert_eq!(op.opcode as usize, i);
        }
    }
    let lda = table[0xA9].unwrap();
    assert_eq!(lda.instruction, Mnemonic::LDA);
    assert_eq!(lda.addressing_mode, AddressingMode::Immediate);
    assert_eq!(lda.size, 2);
    assert_eq!(lda.cycle_count, 2);
    assert!(table[0x02].is_none());
    assert_eq!(lookup_opcode(0x6C).unwrap().addressing_mode, AddressingMode::Indirect);
    assert_eq!(lookup_opcode(0x20).unwrap().instruction, Mnemonic::JSR);
}

#[test]
fn adc_method_adds_with_carry() {
    let mut cpu = CPU::new();
    cpu.load(&vec![0x69, 0x10], 0x8000).unwrap();
    cpu.reset();
    cpu.acc_reg = 0x20;
    cpu.status |= 0x01;
    cpu.pc = 0x8001; // at the operand byte, as the executor would leave it
    cpu.adc(&AddressingMode::Immediate);
    assert_eq!(cpu.acc_reg, 0x31);
    assert_eq!(cpu.status & 0x01, 0);
}

#[test]
fn inx_method_wraps_and_sets_flags() {
    let mut cpu = CPU::new();
    cpu.reg_x = 0xFF;
    cpu.inx();
    assert_eq!(cpu.reg_x, 0);
    assert_ne!(cpu.status & 0x02, 0);
}

#[test]
fn tax_method_copies_accumulator() {
    let mut cpu = CPU::new();
    cpu.acc_reg = 0x80;
    cpu.tax();
    assert_eq!(cpu.reg_x, 0x80);
    assert_ne!(cpu.status & 0x80, 0);
}

#[test]
fn lda_method_sets_flags() {
    let mut cpu = CPU::new();
    cpu.lda(0x00);
    assert_eq!(cpu.acc_reg, 0);
    assert_ne!(cpu.status & 0x02, 0);
}
