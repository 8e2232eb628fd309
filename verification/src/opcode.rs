use vstd::prelude::*;

verus! {

/// The thirteen official addressing modes of the 6502.
#[derive(Clone, Copy, Debug, PartialEq, Eq, Structural)]
pub enum AddressingMode {
    Implicit,
    Accumulator,
    Immediate,
    ZeroPage,
    ZeroPageX,
    ZeroPageY,
    Relative,
    Absolute,
    AbsoluteX,
    AbsoluteY,
    Indirect,
    IndirectX,
    IndirectY,
}

/// The 56 documented instruction mnemonics.
#[derive(Clone, Copy, Debug, PartialEq, Eq, Structural)]
#[allow(clippy::upper_case_acronyms)]
pub enum Mnemonic {
    ADC,
    AND,
    ASL,
    BCC,
    BCS,
    BEQ,
    BIT,
    BMI,
    BNE,
    BPL,
    BRK,
    BVC,
    BVS,
    CLC,
    CLD,
    CLI,
    CLV,
    CMP,
    CPX,
    CPY,
    DEC,
    DEX,
    DEY,
    EOR,
    INC,
    INX,
    INY,
    JMP,
    JSR,
    LDA,
    LDX,
    LDY,
    LSR,
    NOP,
    ORA,
    PHA,
    PHP,
    PLA,
    PLP,
    ROL,
    ROR,
    RTI,
    RTS,
    SBC,
    SEC,
    SED,
    SEI,
    STA,
    STX,
    STY,
    TAX,
    TAY,
    TSX,
    TXA,
    TXS,
    TYA,
}

/// One row of the opcode table: an immutable descriptor of a legal opcode.
#[derive(Clone, Copy, Debug, PartialEq, Eq, Structural)]
pub struct OpCode {
    pub opcode: u8,
    pub instruction: Mnemonic,
    pub addressing_mode: AddressingMode,
    pub cycle_count: u8,
    pub size: u8,
}

/// The descriptor record, for use inside specifications.
pub open spec fn op_rec(
    opcode: u8,
    instruction: Mnemonic,
    cycle_count: u8,
    size: u8,
    addressing_mode: AddressingMode,
) -> OpCode {
    OpCode { opcode, instruction, addressing_mode, cycle_count, size }
}

impl OpCode {
    pub fn new(
        opcode: u8,
        instruction: Mnemonic,
        cycle_count: u8,
        size: u8,
        addressing_mode: AddressingMode,
    ) -> (r: OpCode)
        ensures
            r == op_rec(opcode, instruction, cycle_count, size, addressing_mode),
    {
        OpCode { opcode, instruction, cycle_count, size, addressing_mode }
    }
}

/// The opcode table as a specification: the descriptor of every one of the
/// 151 legal opcodes, `None` for every illegal byte. Base cycle counts do not
/// include page-crossing or branch penalties, which the executor adds.
pub open spec fn opcode_info(b: u8) -> Option<OpCode> {
    match b {
        0x00 => Some(op_rec(0x00, Mnemonic::BRK, 7, 1, AddressingMode::Implicit)),
        0x01 => Some(op_rec(0x01, Mnemonic::ORA, 6, 2, AddressingMode::IndirectX)),
        0x05 => Some(op_rec(0x05, Mnemonic::ORA, 3, 2, AddressingMode::ZeroPage)),
        0x06 => Some(op_rec(0x06, Mnemonic::ASL, 5, 2, AddressingMode::ZeroPage)),
        0x08 => Some(op_rec(0x08, Mnemonic::PHP, 3, 1, AddressingMode::Implicit)),
        0x09 => Some(op_rec(0x09, Mnemonic::ORA, 2, 2, AddressingMode::Immediate)),
        0x0A => Some(op_rec(0x0A, Mnemonic::ASL, 2, 1, AddressingMode::Accumulator)),
        0x0D => Some(op_rec(0x0D, Mnemonic::ORA, 4, 3, AddressingMode::Absolute)),
        0x0E => Some(op_rec(0x0E, Mnemonic::ASL, 6, 3, AddressingMode::Absolute)),
        0x10 => Some(op_rec(0x10, Mnemonic::BPL, 2, 2, AddressingMode::Relative)),
        0x11 => Some(op_rec(0x11, Mnemonic::ORA, 5, 2, AddressingMode::IndirectY)),
        0x15 => Some(op_rec(0x15, Mnemonic::ORA, 4, 2, AddressingMode::ZeroPageX)),
        0x16 => Some(op_rec(0x16, Mnemonic::ASL, 6, 2, AddressingMode::ZeroPageX)),
        0x18 => Some(op_rec(0x18, Mnemonic::CLC, 2, 1, AddressingMode::Implicit)),
        0x19 => Some(op_rec(0x19, Mnemonic::ORA, 4, 3, AddressingMode::AbsoluteY)),
        0x1D => Some(op_rec(0x1D, Mnemonic::ORA, 4, 3, AddressingMode::AbsoluteX)),
        0x1E => Some(op_rec(0x1E, Mnemonic::ASL, 7, 3, AddressingMode::AbsoluteX)),
        0x20 => Some(op_rec(0x20, Mnemonic::JSR, 6, 3, AddressingMode::Absolute)),
        0x21 => Some(op_rec(0x21, Mnemonic::AND, 6, 2, AddressingMode::IndirectX)),
        0x24 => Some(op_rec(0x24, Mnemonic::BIT, 3, 2, AddressingMode::ZeroPage)),
        0x25 => Some(op_rec(0x25, Mnemonic::AND, 3, 2, AddressingMode::ZeroPage)),
        0x26 => Some(op_rec(0x26, Mnemonic::ROL, 5, 2, AddressingMode::ZeroPage)),
        0x28 => Some(op_rec(0x28, Mnemonic::PLP, 4, 1, AddressingMode::Implicit)),
        0x29 => Some(op_rec(0x29, Mnemonic::AND, 2, 2, AddressingMode::Immediate)),
        0x2A => Some(op_rec(0x2A, Mnemonic::ROL, 2, 1, AddressingMode::Accumulator)),
        0x2C => Some(op_rec(0x2C, Mnemonic::BIT, 4, 3, AddressingMode::Absolute)),
        0x2D => Some(op_rec(0x2D, Mnemonic::AND, 4, 3, AddressingMode::Absolute)),
        0x2E => Some(op_rec(0x2E, Mnemonic::ROL, 6, 3, AddressingMode::Absolute)),
        0x30 => Some(op_rec(0x30, Mnemonic::BMI, 2, 2, AddressingMode::Relative)),
        0x31 => Some(op_rec(0x31, Mnemonic::AND, 5, 2, AddressingMode::IndirectY)),
        0x35 => Some(op_rec(0x35, Mnemonic::AND, 4, 2, AddressingMode::ZeroPageX)),
        0x36 => Some(op_rec(0x36, Mnemonic::ROL, 6, 2, AddressingMode::ZeroPageX)),
        0x38 => Some(op_rec(0x38, Mnemonic::SEC, 2, 1, AddressingMode::Implicit)),
        0x39 => Some(op_rec(0x39, Mnemonic::AND, 4, 3, AddressingMode::AbsoluteY)),
        0x3D => Some(op_rec(0x3D, Mnemonic::AND, 4, 3, AddressingMode::AbsoluteX)),
        0x3E => Some(op_rec(0x3E, Mnemonic::ROL, 7, 3, AddressingMode::AbsoluteX)),
        0x40 => Some(op_rec(0x40, Mnemonic::RTI, 6, 1, AddressingMode::Implicit)),
        0x41 => Some(op_rec(0x41, Mnemonic::EOR, 6, 2, AddressingMode::IndirectX)),
        0x45 => Some(op_rec(0x45, Mnemonic::EOR, 3, 2, AddressingMode::ZeroPage)),
        0x46 => Some(op_rec(0x46, Mnemonic::LSR, 5, 2, AddressingMode::ZeroPage)),
        0x48 => Some(op_rec(0x48, Mnemonic::PHA, 3, 1, AddressingMode::Implicit)),
        0x49 => Some(op_rec(0x49, Mnemonic::EOR, 2, 2, AddressingMode::Immediate)),
        0x4A => Some(op_rec(0x4A, Mnemonic::LSR, 2, 1, AddressingMode::Accumulator)),
        0x4C => Some(op_rec(0x4C, Mnemonic::JMP, 3, 3, AddressingMode::Absolute)),
        0x4D => Some(op_rec(0x4D, Mnemonic::EOR, 4, 3, AddressingMode::Absolute)),
        0x4E => Some(op_rec(0x4E, Mnemonic::LSR, 6, 3, AddressingMode::Absolute)),
        0x50 => Some(op_rec(0x50, Mnemonic::BVC, 2, 2, AddressingMode::Relative)),
        0x51 => Some(op_rec(0x51, Mnemonic::EOR, 5, 2, AddressingMode::IndirectY)),
        0x55 => Some(op_rec(0x55, Mnemonic::EOR, 4, 2, AddressingMode::ZeroPageX)),
        0x56 => Some(op_rec(0x56, Mnemonic::LSR, 6, 2, AddressingMode::ZeroPageX)),
        0x58 => Some(op_rec(0x58, Mnemonic::CLI, 2, 1, AddressingMode::Implicit)),
        0x59 => Some(op_rec(0x59, Mnemonic::EOR, 4, 3, AddressingMode::AbsoluteY)),
        0x5D => Some(op_rec(0x5D, Mnemonic::EOR, 4, 3, AddressingMode::AbsoluteX)),
        0x5E => Some(op_rec(0x5E, Mnemonic::LSR, 7, 3, AddressingMode::AbsoluteX)),
        0x60 => Some(op_rec(0x60, Mnemonic::RTS, 6, 1, AddressingMode::Implicit)),
        0x61 => Some(op_rec(0x61, Mnemonic::ADC, 6, 2, AddressingMode::IndirectX)),
        0x65 => Some(op_rec(0x65, Mnemonic::ADC, 3, 2, AddressingMode::ZeroPage)),
        0x66 => Some(op_rec(0x66, Mnemonic::ROR, 5, 2, AddressingMode::ZeroPage)),
        0x68 => Some(op_rec(0x68, Mnemonic::PLA, 4, 1, AddressingMode::Implicit)),
        0x69 => Some(op_rec(0x69, Mnemonic::ADC, 2, 2, AddressingMode::Immediate)),
        0x6A => Some(op_rec(0x6A, Mnemonic::ROR, 2, 1, AddressingMode::Accumulator)),
        0x6C => Some(op_rec(0x6C, Mnemonic::JMP, 5, 3, AddressingMode::Indirect)),
        0x6D => Some(op_rec(0x6D, Mnemonic::ADC, 4, 3, AddressingMode::Absolute)),
        0x6E => Some(op_rec(0x6E, Mnemonic::ROR, 6, 3, AddressingMode::Absolute)),
        0x70 => Some(op_rec(0x70, Mnemonic::BVS, 2, 2, AddressingMode::Relative)),
        0x71 => Some(op_rec(0x71, Mnemonic::ADC, 5, 2, AddressingMode::IndirectY)),
        0x75 => Some(op_rec(0x75, Mnemonic::ADC, 4, 2, AddressingMode::ZeroPageX)),
        0x76 => Some(op_rec(0x76, Mnemonic::ROR, 6, 2, AddressingMode::ZeroPageX)),
        0x78 => Some(op_rec(0x78, Mnemonic::SEI, 2, 1, AddressingMode::Implicit)),
        0x79 => Some(op_rec(0x79, Mnemonic::ADC, 4, 3, AddressingMode::AbsoluteY)),
        0x7D => Some(op_rec(0x7D, Mnemonic::ADC, 4, 3, AddressingMode::AbsoluteX)),
        0x7E => Some(op_rec(0x7E, Mnemonic::ROR, 7, 3, AddressingMode::AbsoluteX)),
        0x81 => Some(op_rec(0x81, Mnemonic::STA, 6, 2, AddressingMode::IndirectX)),
        0x84 => Some(op_rec(0x84, Mnemonic::STY, 3, 2, AddressingMode::ZeroPage)),
        0x85 => Some(op_rec(0x85, Mnemonic::STA, 3, 2, AddressingMode::ZeroPage)),
        0x86 => Some(op_rec(0x86, Mnemonic::STX, 3, 2, AddressingMode::ZeroPage)),
        0x88 => Some(op_rec(0x88, Mnemonic::DEY, 2, 1, AddressingMode::Implicit)),
        0x8A => Some(op_rec(0x8A, Mnemonic::TXA, 2, 1, AddressingMode::Implicit)),
        0x8C => Some(op_rec(0x8C, Mnemonic::STY, 4, 3, AddressingMode::Absolute)),
        0x8D => Some(op_rec(0x8D, Mnemonic::STA, 4, 3, AddressingMode::Absolute)),
        0x8E => Some(op_rec(0x8E, Mnemonic::STX, 4, 3, AddressingMode::Absolute)),
        0x90 => Some(op_rec(0x90, Mnemonic::BCC, 2, 2, AddressingMode::Relative)),
        0x91 => Some(op_rec(0x91, Mnemonic::STA, 6, 2, AddressingMode::IndirectY)),
        0x94 => Some(op_rec(0x94, Mnemonic::STY, 4, 2, AddressingMode::ZeroPageX)),
        0x95 => Some(op_rec(0x95, Mnemonic::STA, 4, 2, AddressingMode::ZeroPageX)),
        0x96 => Some(op_rec(0x96, Mnemonic::STX, 4, 2, AddressingMode::ZeroPageY)),
        0x98 => Some(op_rec(0x98, Mnemonic::TYA, 2, 1, AddressingMode::Implicit)),
        0x99 => Some(op_rec(0x99, Mnemonic::STA, 5, 3, AddressingMode::AbsoluteY)),
        0x9A => Some(op_rec(0x9A, Mnemonic::TXS, 2, 1, AddressingMode::Implicit)),
        0x9D => Some(op_rec(0x9D, Mnemonic::STA, 5, 3, AddressingMode::AbsoluteX)),
        0xA0 => Some(op_rec(0xA0, Mnemonic::LDY, 2, 2, AddressingMode::Immediate)),
        0xA1 => Some(op_rec(0xA1, Mnemonic::LDA, 6, 2, AddressingMode::IndirectX)),
        0xA2 => Some(op_rec(0xA2, Mnemonic::LDX, 2, 2, AddressingMode::Immediate)),
        0xA4 => Some(op_rec(0xA4, Mnemonic::LDY, 3, 2, AddressingMode::ZeroPage)),
        0xA5 => Some(op_rec(0xA5, Mnemonic::LDA, 3, 2, AddressingMode::ZeroPage)),
        0xA6 => Some(op_rec(0xA6, Mnemonic::LDX, 3, 2, AddressingMode::ZeroPage)),
        0xA8 => Some(op_rec(0xA8, Mnemonic::TAY, 2, 1, AddressingMode::Implicit)),
        0xA9 => Some(op_rec(0xA9, Mnemonic::LDA, 2, 2, AddressingMode::Immediate)),
        0xAA => Some(op_rec(0xAA, Mnemonic::TAX, 2, 1, AddressingMode::Implicit)),
        0xAC => Some(op_rec(0xAC, Mnemonic::LDY, 4, 3, AddressingMode::Absolute)),
        0xAD => Some(op_rec(0xAD, Mnemonic::LDA, 4, 3, AddressingMode::Absolute)),
        0xAE => Some(op_rec(0xAE, Mnemonic::LDX, 4, 3, AddressingMode::Absolute)),
        0xB0 => Some(op_rec(0xB0, Mnemonic::BCS, 2, 2, AddressingMode::Relative)),
        0xB1 => Some(op_rec(0xB1, Mnemonic::LDA, 5, 2, AddressingMode::IndirectY)),
        0xB4 => Some(op_rec(0xB4, Mnemonic::LDY, 4, 2, AddressingMode::ZeroPageX)),
        0xB5 => Some(op_rec(0xB5, Mnemonic::LDA, 4, 2, AddressingMode::ZeroPageX)),
        0xB6 => Some(op_rec(0xB6, Mnemonic::LDX, 4, 2, AddressingMode::ZeroPageY)),
        0xB8 => Some(op_rec(0xB8, Mnemonic::CLV, 2, 1, AddressingMode::Implicit)),
        0xB9 => Some(op_rec(0xB9, Mnemonic::LDA, 4, 3, AddressingMode::AbsoluteY)),
        0xBA => Some(op_rec(0xBA, Mnemonic::TSX, 2, 1, AddressingMode::Implicit)),
        0xBC => Some(op_rec(0xBC, Mnemonic::LDY, 4, 3, AddressingMode::AbsoluteX)),
        0xBD => Some(op_rec(0xBD, Mnemonic::LDA, 4, 3, AddressingMode::AbsoluteX)),
        0xBE => Some(op_rec(0xBE, Mnemonic::LDX, 4, 3, AddressingMode::AbsoluteY)),
        0xC0 => Some(op_rec(0xC0, Mnemonic::CPY, 2, 2, AddressingMode::Immediate)),
        0xC1 => Some(op_rec(0xC1, Mnemonic::CMP, 6, 2, AddressingMode::IndirectX)),
        0xC4 => Some(op_rec(0xC4, Mnemonic::CPY, 3, 2, AddressingMode::ZeroPage)),
        0xC5 => Some(op_rec(0xC5, Mnemonic::CMP, 3, 2, AddressingMode::ZeroPage)),
        0xC6 => Some(op_rec(0xC6, Mnemonic::DEC, 5, 2, AddressingMode::ZeroPage)),
        0xC8 => Some(op_rec(0xC8, Mnemonic::INY, 2, 1, AddressingMode::Implicit)),
        0xC9 => Some(op_rec(0xC9, Mnemonic::CMP, 2, 2, AddressingMode::Immediate)),
        0xCA => Some(op_rec(0xCA, Mnemonic::DEX, 2, 1, AddressingMode::Implicit)),
        0xCC => Some(op_rec(0xCC, Mnemonic::CPY, 4, 3, AddressingMode::Absolute)),
        0xCD => Some(op_rec(0xCD, Mnemonic::CMP, 4, 3, AddressingMode::Absolute)),
        0xCE => Some(op_rec(0xCE, Mnemonic::DEC, 6, 3, AddressingMode::Absolute)),
        0xD0 => Some(op_rec(0xD0, Mnemonic::BNE, 2, 2, AddressingMode::Relative)),
        0xD1 => Some(op_rec(0xD1, Mnemonic::CMP, 5, 2, AddressingMode::IndirectY)),
        0xD5 => Some(op_rec(0xD5, Mnemonic::CMP, 4, 2, AddressingMode::ZeroPageX)),
        0xD6 => Some(op_rec(0xD6, Mnemonic::DEC, 6, 2, AddressingMode::ZeroPageX)),
        0xD8 => Some(op_rec(0xD8, Mnemonic::CLD, 2, 1, AddressingMode::Implicit)),
        0xD9 => Some(op_rec(0xD9, Mnemonic::CMP, 4, 3, AddressingMode::AbsoluteY)),
        0xDD => Some(op_rec(0xDD, Mnemonic::CMP, 4, 3, AddressingMode::AbsoluteX)),
        0xDE => Some(op_rec(0xDE, Mnemonic::DEC, 7, 3, AddressingMode::AbsoluteX)),
        0xE0 => Some(op_rec(0xE0, Mnemonic::CPX, 2, 2, AddressingMode::Immediate)),
        0xE1 => Some(op_rec(0xE1, Mnemonic::SBC, 6, 2, AddressingMode::IndirectX)),
        0xE4 => Some(op_rec(0xE4, Mnemonic::CPX, 3, 2, AddressingMode::ZeroPage)),
        0xE5 => Some(op_rec(0xE5, Mnemonic::SBC, 3, 2, AddressingMode::ZeroPage)),
        0xE6 => Some(op_rec(0xE6, Mnemonic::INC, 5, 2, AddressingMode::ZeroPage)),
        0xE8 => Some(op_rec(0xE8, Mnemonic::INX, 2, 1, AddressingMode::Implicit)),
        0xE9 => Some(op_rec(0xE9, Mnemonic::SBC, 2, 2, AddressingMode::Immediate)),
        0xEA => Some(op_rec(0xEA, Mnemonic::NOP, 2, 1, AddressingMode::Implicit)),
        0xEC => Some(op_rec(0xEC, Mnemonic::CPX, 4, 3, AddressingMode::Absolute)),
        0xED => Some(op_rec(0xED, Mnemonic::SBC, 4, 3, AddressingMode::Absolute)),
        0xEE => Some(op_rec(0xEE, Mnemonic::INC, 6, 3, AddressingMode::Absolute)),
        0xF0 => Some(op_rec(0xF0, Mnemonic::BEQ, 2, 2, AddressingMode::Relative)),
        0xF1 => Some(op_rec(0xF1, Mnemonic::SBC, 5, 2, AddressingMode::IndirectY)),
        0xF5 => Some(op_rec(0xF5, Mnemonic::SBC, 4, 2, AddressingMode::ZeroPageX)),
        0xF6 => Some(op_rec(0xF6, Mnemonic::INC, 6, 2, AddressingMode::ZeroPageX)),
        0xF8 => Some(op_rec(0xF8, Mnemonic::SED, 2, 1, AddressingMode::Implicit)),
        0xF9 => Some(op_rec(0xF9, Mnemonic::SBC, 4, 3, AddressingMode::AbsoluteY)),
        0xFD => Some(op_rec(0xFD, Mnemonic::SBC, 4, 3, AddressingMode::AbsoluteX)),
        0xFE => Some(op_rec(0xFE, Mnemonic::INC, 7, 3, AddressingMode::AbsoluteX)),
        _ => None,
    }
}

/// The executable opcode lookup, proven to agree with `opcode_info` on every
/// byte.
pub fn lookup_opcode(b: u8) -> (r: Option<OpCode>)
    ensures
        r == opcode_info(b),
{
    match b {
        0x00 => Some(OpCode::new(0x00, Mnemonic::BRK, 7, 1, AddressingMode::Implicit)),
        0x01 => Some(OpCode::new(0x01, Mnemonic::ORA, 6, 2, AddressingMode::IndirectX)),
        0x05 => Some(OpCode::new(0x05, Mnemonic::ORA, 3, 2, AddressingMode::ZeroPage)),
        0x06 => Some(OpCode::new(0x06, Mnemonic::ASL, 5, 2, AddressingMode::ZeroPage)),
        0x08 => Some(OpCode::new(0x08, Mnemonic::PHP, 3, 1, AddressingMode::Implicit)),
        0x09 => Some(OpCode::new(0x09, Mnemonic::ORA, 2, 2, AddressingMode::Immediate)),
        0x0A => Some(OpCode::new(0x0A, Mnemonic::ASL, 2, 1, AddressingMode::Accumulator)),
        0x0D => Some(OpCode::new(0x0D, Mnemonic::ORA, 4, 3, AddressingMode::Absolute)),
        0x0E => Some(OpCode::new(0x0E, Mnemonic::ASL, 6, 3, AddressingMode::Absolute)),
        0x10 => Some(OpCode::new(0x10, Mnemonic::BPL, 2, 2, AddressingMode::Relative)),
        0x11 => Some(OpCode::new(0x11, Mnemonic::ORA, 5, 2, AddressingMode::IndirectY)),
        0x15 => Some(OpCode::new(0x15, Mnemonic::ORA, 4, 2, AddressingMode::ZeroPageX)),
        0x16 => Some(OpCode::new(0x16, Mnemonic::ASL, 6, 2, AddressingMode::ZeroPageX)),
        0x18 => Some(OpCode::new(0x18, Mnemonic::CLC, 2, 1, AddressingMode::Implicit)),
        0x19 => Some(OpCode::new(0x19, Mnemonic::ORA, 4, 3, AddressingMode::AbsoluteY)),
        0x1D => Some(OpCode::new(0x1D, Mnemonic::ORA, 4, 3, AddressingMode::AbsoluteX)),
        0x1E => Some(OpCode::new(0x1E, Mnemonic::ASL, 7, 3, AddressingMode::AbsoluteX)),
        0x20 => Some(OpCode::new(0x20, Mnemonic::JSR, 6, 3, AddressingMode::Absolute)),
        0x21 => Some(OpCode::new(0x21, Mnemonic::AND, 6, 2, AddressingMode::IndirectX)),
        0x24 => Some(OpCode::new(0x24, Mnemonic::BIT, 3, 2, AddressingMode::ZeroPage)),
        0x25 => Some(OpCode::new(0x25, Mnemonic::AND, 3, 2, AddressingMode::ZeroPage)),
        0x26 => Some(OpCode::new(0x26, Mnemonic::ROL, 5, 2, AddressingMode::ZeroPage)),
        0x28 => Some(OpCode::new(0x28, Mnemonic::PLP, 4, 1, AddressingMode::Implicit)),
        0x29 => Some(OpCode::new(0x29, Mnemonic::AND, 2, 2, AddressingMode::Immediate)),
        0x2A => Some(OpCode::new(0x2A, Mnemonic::ROL, 2, 1, AddressingMode::Accumulator)),
        0x2C => Some(OpCode::new(0x2C, Mnemonic::BIT, 4, 3, AddressingMode::Absolute)),
        0x2D => Some(OpCode::new(0x2D, Mnemonic::AND, 4, 3, AddressingMode::Absolute)),
        0x2E => Some(OpCode::new(0x2E, Mnemonic::ROL, 6, 3, AddressingMode::Absolute)),
        0x30 => Some(OpCode::new(0x30, Mnemonic::BMI, 2, 2, AddressingMode::Relative)),
        0x31 => Some(OpCode::new(0x31, Mnemonic::AND, 5, 2, AddressingMode::IndirectY)),
        0x35 => Some(OpCode::new(0x35, Mnemonic::AND, 4, 2, AddressingMode::ZeroPageX)),
        0x36 => Some(OpCode::new(0x36, Mnemonic::ROL, 6, 2, AddressingMode::ZeroPageX)),
        0x38 => Some(OpCode::new(0x38, Mnemonic::SEC, 2, 1, AddressingMode::Implicit)),
        0x39 => Some(OpCode::new(0x39, Mnemonic::AND, 4, 3, AddressingMode::AbsoluteY)),
        0x3D => Some(OpCode::new(0x3D, Mnemonic::AND, 4, 3, AddressingMode::AbsoluteX)),
        0x3E => Some(OpCode::new(0x3E, Mnemonic::ROL, 7, 3, AddressingMode::AbsoluteX)),
        0x40 => Some(OpCode::new(0x40, Mnemonic::RTI, 6, 1, AddressingMode::Implicit)),
        0x41 => Some(OpCode::new(0x41, Mnemonic::EOR, 6, 2, AddressingMode::IndirectX)),
        0x45 => Some(OpCode::new(0x45, Mnemonic::EOR, 3, 2, AddressingMode::ZeroPage)),
        0x46 => Some(OpCode::new(0x46, Mnemonic::LSR, 5, 2, AddressingMode::ZeroPage)),
        0x48 => Some(OpCode::new(0x48, Mnemonic::PHA, 3, 1, AddressingMode::Implicit)),
        0x49 => Some(OpCode::new(0x49, Mnemonic::EOR, 2, 2, AddressingMode::Immediate)),
        0x4A => Some(OpCode::new(0x4A, Mnemonic::LSR, 2, 1, AddressingMode::Accumulator)),
        0x4C => Some(OpCode::new(0x4C, Mnemonic::JMP, 3, 3, AddressingMode::Absolute)),
        0x4D => Some(OpCode::new(0x4D, Mnemonic::EOR, 4, 3, AddressingMode::Absolute)),
        0x4E => Some(OpCode::new(0x4E, Mnemonic::LSR, 6, 3, AddressingMode::Absolute)),
        0x50 => Some(OpCode::new(0x50, Mnemonic::BVC, 2, 2, AddressingMode::Relative)),
        0x51 => Some(OpCode::new(0x51, Mnemonic::EOR, 5, 2, AddressingMode::IndirectY)),
        0x55 => Some(OpCode::new(0x55, Mnemonic::EOR, 4, 2, AddressingMode::ZeroPageX)),
        0x56 => Some(OpCode::new(0x56, Mnemonic::LSR, 6, 2, AddressingMode::ZeroPageX)),
        0x58 => Some(OpCode::new(0x58, Mnemonic::CLI, 2, 1, AddressingMode::Implicit)),
        0x59 => Some(OpCode::new(0x59, Mnemonic::EOR, 4, 3, AddressingMode::AbsoluteY)),
        0x5D => Some(OpCode::new(0x5D, Mnemonic::EOR, 4, 3, AddressingMode::AbsoluteX)),
        0x5E => Some(OpCode::new(0x5E, Mnemonic::LSR, 7, 3, AddressingMode::AbsoluteX)),
        0x60 => Some(OpCode::new(0x60, Mnemonic::RTS, 6, 1, AddressingMode::Implicit)),
        0x61 => Some(OpCode::new(0x61, Mnemonic::ADC, 6, 2, AddressingMode::IndirectX)),
        0x65 => Some(OpCode::new(0x65, Mnemonic::ADC, 3, 2, AddressingMode::ZeroPage)),
        0x66 => Some(OpCode::new(0x66, Mnemonic::ROR, 5, 2, AddressingMode::ZeroPage)),
        0x68 => Some(OpCode::new(0x68, Mnemonic::PLA, 4, 1, AddressingMode::Implicit)),
        0x69 => Some(OpCode::new(0x69, Mnemonic::ADC, 2, 2, AddressingMode::Immediate)),
        0x6A => Some(OpCode::new(0x6A, Mnemonic::ROR, 2, 1, AddressingMode::Accumulator)),
        0x6C => Some(OpCode::new(0x6C, Mnemonic::JMP, 5, 3, AddressingMode::Indirect)),
        0x6D => Some(OpCode::new(0x6D, Mnemonic::ADC, 4, 3, AddressingMode::Absolute)),
        0x6E => Some(OpCode::new(0x6E, Mnemonic::ROR, 6, 3, AddressingMode::Absolute)),
        0x70 => Some(OpCode::new(0x70, Mnemonic::BVS, 2, 2, AddressingMode::Relative)),
        0x71 => Some(OpCode::new(0x71, Mnemonic::ADC, 5, 2, AddressingMode::IndirectY)),
        0x75 => Some(OpCode::new(0x75, Mnemonic::ADC, 4, 2, AddressingMode::ZeroPageX)),
        0x76 => Some(OpCode::new(0x76, Mnemonic::ROR, 6, 2, AddressingMode::ZeroPageX)),
        0x78 => Some(OpCode::new(0x78, Mnemonic::SEI, 2, 1, AddressingMode::Implicit)),
        0x79 => Some(OpCode::new(0x79, Mnemonic::ADC, 4, 3, AddressingMode::AbsoluteY)),
        0x7D => Some(OpCode::new(0x7D, Mnemonic::ADC, 4, 3, AddressingMode::AbsoluteX)),
        0x7E => Some(OpCode::new(0x7E, Mnemonic::ROR, 7, 3, AddressingMode::AbsoluteX)),
        0x81 => Some(OpCode::new(0x81, Mnemonic::STA, 6, 2, AddressingMode::IndirectX)),
        0x84 => Some(OpCode::new(0x84, Mnemonic::STY, 3, 2, AddressingMode::ZeroPage)),
        0x85 => Some(OpCode::new(0x85, Mnemonic::STA, 3, 2, AddressingMode::ZeroPage)),
        0x86 => Some(OpCode::new(0x86, Mnemonic::STX, 3, 2, AddressingMode::ZeroPage)),
        0x88 => Some(OpCode::new(0x88, Mnemonic::DEY, 2, 1, AddressingMode::Implicit)),
        0x8A => Some(OpCode::new(0x8A, Mnemonic::TXA, 2, 1, AddressingMode::Implicit)),
        0x8C => Some(OpCode::new(0x8C, Mnemonic::STY, 4, 3, AddressingMode::Absolute)),
        0x8D => Some(OpCode::new(0x8D, Mnemonic::STA, 4, 3, AddressingMode::Absolute)),
        0x8E => Some(OpCode::new(0x8E, Mnemonic::STX, 4, 3, AddressingMode::Absolute)),
        0x90 => Some(OpCode::new(0x90, Mnemonic::BCC, 2, 2, AddressingMode::Relative)),
        0x91 => Some(OpCode::new(0x91, Mnemonic::STA, 6, 2, AddressingMode::IndirectY)),
        0x94 => Some(OpCode::new(0x94, Mnemonic::STY, 4, 2, AddressingMode::ZeroPageX)),
        0x95 => Some(OpCode::new(0x95, Mnemonic::STA, 4, 2, AddressingMode::ZeroPageX)),
        0x96 => Some(OpCode::new(0x96, Mnemonic::STX, 4, 2, AddressingMode::ZeroPageY)),
        0x98 => Some(OpCode::new(0x98, Mnemonic::TYA, 2, 1, AddressingMode::Implicit)),
        0x99 => Some(OpCode::new(0x99, Mnemonic::STA, 5, 3, AddressingMode::AbsoluteY)),
        0x9A => Some(OpCode::new(0x9A, Mnemonic::TXS, 2, 1, AddressingMode::Implicit)),
        0x9D => Some(OpCode::new(0x9D, Mnemonic::STA, 5, 3, AddressingMode::AbsoluteX)),
        0xA0 => Some(OpCode::new(0xA0, Mnemonic::LDY, 2, 2, AddressingMode::Immediate)),
        0xA1 => Some(OpCode::new(0xA1, Mnemonic::LDA, 6, 2, AddressingMode::IndirectX)),
        0xA2 => Some(OpCode::new(0xA2, Mnemonic::LDX, 2, 2, AddressingMode::Immediate)),
        0xA4 => Some(OpCode::new(0xA4, Mnemonic::LDY, 3, 2, AddressingMode::ZeroPage)),
        0xA5 => Some(OpCode::new(0xA5, Mnemonic::LDA, 3, 2, AddressingMode::ZeroPage)),
        0xA6 => Some(OpCode::new(0xA6, Mnemonic::LDX, 3, 2, AddressingMode::ZeroPage)),
        0xA8 => Some(OpCode::new(0xA8, Mnemonic::TAY, 2, 1, AddressingMode::Implicit)),
        0xA9 => Some(OpCode::new(0xA9, Mnemonic::LDA, 2, 2, AddressingMode::Immediate)),
        0xAA => Some(OpCode::new(0xAA, Mnemonic::TAX, 2, 1, AddressingMode::Implicit)),
        0xAC => Some(OpCode::new(0xAC, Mnemonic::LDY, 4, 3, AddressingMode::Absolute)),
        0xAD => Some(OpCode::new(0xAD, Mnemonic::LDA, 4, 3, AddressingMode::Absolute)),
        0xAE => Some(OpCode::new(0xAE, Mnemonic::LDX, 4, 3, AddressingMode::Absolute)),
        0xB0 => Some(OpCode::new(0xB0, Mnemonic::BCS, 2, 2, AddressingMode::Relative)),
        0xB1 => Some(OpCode::new(0xB1, Mnemonic::LDA, 5, 2, AddressingMode::IndirectY)),
        0xB4 => Some(OpCode::new(0xB4, Mnemonic::LDY, 4, 2, AddressingMode::ZeroPageX)),
        0xB5 => Some(OpCode::new(0xB5, Mnemonic::LDA, 4, 2, AddressingMode::ZeroPageX)),
        0xB6 => Some(OpCode::new(0xB6, Mnemonic::LDX, 4, 2, AddressingMode::ZeroPageY)),
        0xB8 => Some(OpCode::new(0xB8, Mnemonic::CLV, 2, 1, AddressingMode::Implicit)),
        0xB9 => Some(OpCode::new(0xB9, Mnemonic::LDA, 4, 3, AddressingMode::AbsoluteY)),
        0xBA => Some(OpCode::new(0xBA, Mnemonic::TSX, 2, 1, AddressingMode::Implicit)),
        0xBC => Some(OpCode::new(0xBC, Mnemonic::LDY, 4, 3, AddressingMode::AbsoluteX)),
        0xBD => Some(OpCode::new(0xBD, Mnemonic::LDA, 4, 3, AddressingMode::AbsoluteX)),
        0xBE => Some(OpCode::new(0xBE, Mnemonic::LDX, 4, 3, AddressingMode::AbsoluteY)),
        0xC0 => Some(OpCode::new(0xC0, Mnemonic::CPY, 2, 2, AddressingMode::Immediate)),
        0xC1 => Some(OpCode::new(0xC1, Mnemonic::CMP, 6, 2, AddressingMode::IndirectX)),
        0xC4 => Some(OpCode::new(0xC4, Mnemonic::CPY, 3, 2, AddressingMode::ZeroPage)),
        0xC5 => Some(OpCode::new(0xC5, Mnemonic::CMP, 3, 2, AddressingMode::ZeroPage)),
        0xC6 => Some(OpCode::new(0xC6, Mnemonic::DEC, 5, 2, AddressingMode::ZeroPage)),
        0xC8 => Some(OpCode::new(0xC8, Mnemonic::INY, 2, 1, AddressingMode::Implicit)),
        0xC9 => Some(OpCode::new(0xC9, Mnemonic::CMP, 2, 2, AddressingMode::Immediate)),
        0xCA => Some(OpCode::new(0xCA, Mnemonic::DEX, 2, 1, AddressingMode::Implicit)),
        0xCC => Some(OpCode::new(0xCC, Mnemonic::CPY, 4, 3, AddressingMode::Absolute)),
        0xCD => Some(OpCode::new(0xCD, Mnemonic::CMP, 4, 3, AddressingMode::Absolute)),
        0xCE => Some(OpCode::new(0xCE, Mnemonic::DEC, 6, 3, AddressingMode::Absolute)),
        0xD0 => Some(OpCode::new(0xD0, Mnemonic::BNE, 2, 2, AddressingMode::Relative)),
        0xD1 => Some(OpCode::new(0xD1, Mnemonic::CMP, 5, 2, AddressingMode::IndirectY)),
        0xD5 => Some(OpCode::new(0xD5, Mnemonic::CMP, 4, 2, AddressingMode::ZeroPageX)),
        0xD6 => Some(OpCode::new(0xD6, Mnemonic::DEC, 6, 2, AddressingMode::ZeroPageX)),
        0xD8 => Some(OpCode::new(0xD8, Mnemonic::CLD, 2, 1, AddressingMode::Implicit)),
        0xD9 => Some(OpCode::new(0xD9, Mnemonic::CMP, 4, 3, AddressingMode::AbsoluteY)),
        0xDD => Some(OpCode::new(0xDD, Mnemonic::CMP, 4, 3, AddressingMode::AbsoluteX)),
        0xDE => Some(OpCode::new(0xDE, Mnemonic::DEC, 7, 3, AddressingMode::AbsoluteX)),
        0xE0 => Some(OpCode::new(0xE0, Mnemonic::CPX, 2, 2, AddressingMode::Immediate)),
        0xE1 => Some(OpCode::new(0xE1, Mnemonic::SBC, 6, 2, AddressingMode::IndirectX)),
        0xE4 => Some(OpCode::new(0xE4, Mnemonic::CPX, 3, 2, AddressingMode::ZeroPage)),
        0xE5 => Some(OpCode::new(0xE5, Mnemonic::SBC, 3, 2, AddressingMode::ZeroPage)),
        0xE6 => Some(OpCode::new(0xE6, Mnemonic::INC, 5, 2, AddressingMode::ZeroPage)),
        0xE8 => Some(OpCode::new(0xE8, Mnemonic::INX, 2, 1, AddressingMode::Implicit)),
        0xE9 => Some(OpCode::new(0xE9, Mnemonic::SBC, 2, 2, AddressingMode::Immediate)),
        0xEA => Some(OpCode::new(0xEA, Mnemonic::NOP, 2, 1, AddressingMode::Implicit)),
        0xEC => Some(OpCode::new(0xEC, Mnemonic::CPX, 4, 3, AddressingMode::Absolute)),
        0xED => Some(OpCode::new(0xED, Mnemonic::SBC, 4, 3, AddressingMode::Absolute)),
        0xEE => Some(OpCode::new(0xEE, Mnemonic::INC, 6, 3, AddressingMode::Absolute)),
        0xF0 => Some(OpCode::new(0xF0, Mnemonic::BEQ, 2, 2, AddressingMode::Relative)),
        0xF1 => Some(OpCode::new(0xF1, Mnemonic::SBC, 5, 2, AddressingMode::IndirectY)),
        0xF5 => Some(OpCode::new(0xF5, Mnemonic::SBC, 4, 2, AddressingMode::ZeroPageX)),
        0xF6 => Some(OpCode::new(0xF6, Mnemonic::INC, 6, 2, AddressingMode::ZeroPageX)),
        0xF8 => Some(OpCode::new(0xF8, Mnemonic::SED, 2, 1, AddressingMode::Implicit)),
        0xF9 => Some(OpCode::new(0xF9, Mnemonic::SBC, 4, 3, AddressingMode::AbsoluteY)),
        0xFD => Some(OpCode::new(0xFD, Mnemonic::SBC, 4, 3, AddressingMode::AbsoluteX)),
        0xFE => Some(OpCode::new(0xFE, Mnemonic::INC, 7, 3, AddressingMode::AbsoluteX)),
        _ => None,
    }
}

/// The opcode table in the flat form hosts dispatch on: 256 slots keyed by
/// opcode byte, the illegal ones empty.
pub fn create_ops_info() -> (table: Vec<Option<OpCode>>)
    ensures
        table@.len() == 256,
        forall|i: int| 0 <= i < 256 ==> table@[i] == opcode_info(i as u8),
{
    let mut table: Vec<Option<OpCode>> = Vec::new();
    let mut b: usize = 0;
    while b < 256
        invariant
            b <= 256,
            table@.len() == b,
            forall|i: int| 0 <= i < b ==> table@[i] == opcode_info(i as u8),
        decreases 256 - b,
    {
        table.push(lookup_opcode(b as u8));
        b = b + 1;
    }
    table
}

} // verus!
