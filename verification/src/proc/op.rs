//! The instruction set: mnemonic, length, base cycle count and addressing
//! mode of every opcode, official and unofficial.
use vstd::prelude::*;

use super::addressing::AddressingMode;

verus! {

/// Instruction names; `JMPI` is JMP through a pointer.
#[derive(Clone, Copy, Debug, PartialEq, Eq, Structural)]
pub enum Mnemonic {
    ADC,
    AHX,
    ALR,
    ANC,
    AND,
    ARR,
    ASL,
    AXS,
    BCC,
    BCS,
    BEQ,
    BIT,
    BMI,
    BNE,
    BPL,
    BRK,
    BVC,
    BVS,
    CLC,
    CLD,
    CLI,
    CLV,
    CMP,
    CPX,
    CPY,
    DCP,
    DEC,
    DEX,
    DEY,
    EOR,
    INC,
    INX,
    INY,
    ISB,
    JMP,
    JMPI,
    JSR,
    LAS,
    LAX,
    LDA,
    LDX,
    LDY,
    LSR,
    LXA,
    NOP,
    ORA,
    PHA,
    PHP,
    PLA,
    PLP,
    RLA,
    ROL,
    ROR,
    RRA,
    RTI,
    RTS,
    SAX,
    SBC,
    SEC,
    SED,
    SEI,
    SHX,
    SHY,
    SLO,
    SRE,
    STA,
    STX,
    STY,
    TAS,
    TAX,
    TAY,
    TSX,
    TXA,
    TXS,
    TYA,
    XAA,
}

#[derive(Clone, Copy, Debug, PartialEq, Eq, Structural)]
pub struct OpCode {
    pub code: u8,
    pub mnemonic: Mnemonic,
    /// Instruction length in bytes, opcode included.
    pub pc_incr: u8,
    /// Base cycle count, without page-crossing or branch penalties.
    pub cycles: u8,
    pub mode: AddressingMode,
}

/// The table entry of `code`.
pub open spec fn opcode_spec(code: u8) -> OpCode {
    match code {
        0x00 => OpCode { code: 0x00, mnemonic: Mnemonic::BRK, pc_incr: 1, cycles: 7, mode: AddressingMode::NoneAddressing },
        0x01 => OpCode { code: 0x01, mnemonic: Mnemonic::ORA, pc_incr: 2, cycles: 6, mode: AddressingMode::IndirectX },
        0x02 => OpCode { code: 0x02, mnemonic: Mnemonic::NOP, pc_incr: 2, cycles: 2, mode: AddressingMode::Immediate },  // unofficial
        0x03 => OpCode { code: 0x03, mnemonic: Mnemonic::SLO, pc_incr: 2, cycles: 8, mode: AddressingMode::IndirectX },  // unofficial
        0x04 => OpCode { code: 0x04, mnemonic: Mnemonic::NOP, pc_incr: 2, cycles: 3, mode: AddressingMode::ZeroPage },  // unofficial
        0x05 => OpCode { code: 0x05, mnemonic: Mnemonic::ORA, pc_incr: 2, cycles: 3, mode: AddressingMode::ZeroPage },
        0x06 => OpCode { code: 0x06, mnemonic: Mnemonic::ASL, pc_incr: 2, cycles: 5, mode: AddressingMode::ZeroPage },
        0x07 => OpCode { code: 0x07, mnemonic: Mnemonic::SLO, pc_incr: 2, cycles: 5, mode: AddressingMode::ZeroPage },  // unofficial
        0x08 => OpCode { code: 0x08, mnemonic: Mnemonic::PHP, pc_incr: 1, cycles: 3, mode: AddressingMode::NoneAddressing },
        0x09 => OpCode { code: 0x09, mnemonic: Mnemonic::ORA, pc_incr: 2, cycles: 2, mode: AddressingMode::Immediate },
        0x0a => OpCode { code: 0x0a, mnemonic: Mnemonic::ASL, pc_incr: 1, cycles: 2, mode: AddressingMode::NoneAddressing },
        0x0b => OpCode { code: 0x0b, mnemonic: Mnemonic::ANC, pc_incr: 2, cycles: 2, mode: AddressingMode::Immediate },  // unofficial
        0x0c => OpCode { code: 0x0c, mnemonic: Mnemonic::NOP, pc_incr: 3, cycles: 4, mode: AddressingMode::Absolute },  // unofficial
        0x0d => OpCode { code: 0x0d, mnemonic: Mnemonic::ORA, pc_incr: 3, cycles: 4, mode: AddressingMode::Absolute },
        0x0e => OpCode { code: 0x0e, mnemonic: Mnemonic::ASL, pc_incr: 3, cycles: 6, mode: AddressingMode::Absolute },
        0x0f => OpCode { code: 0x0f, mnemonic: Mnemonic::SLO, pc_incr: 3, cycles: 6, mode: AddressingMode::Absolute },  // unofficial
        0x10 => OpCode { code: 0x10, mnemonic: Mnemonic::BPL, pc_incr: 2, cycles: 2, mode: AddressingMode::NoneAddressing },
        0x11 => OpCode { code: 0x11, mnemonic: Mnemonic::ORA, pc_incr: 2, cycles: 5, mode: AddressingMode::IndirectY },
        0x12 => OpCode { code: 0x12, mnemonic: Mnemonic::NOP, pc_incr: 2, cycles: 2, mode: AddressingMode::Immediate },  // unofficial
        0x13 => OpCode { code: 0x13, mnemonic: Mnemonic::SLO, pc_incr: 2, cycles: 8, mode: AddressingMode::IndirectY },  // unofficial
        0x14 => OpCode { code: 0x14, mnemonic: Mnemonic::NOP, pc_incr: 2, cycles: 4, mode: AddressingMode::ZeroPageX },  // unofficial
        0x15 => OpCode { code: 0x15, mnemonic: Mnemonic::ORA, pc_incr: 2, cycles: 4, mode: AddressingMode::ZeroPageX },
        0x16 => OpCode { code: 0x16, mnemonic: Mnemonic::ASL, pc_incr: 2, cycles: 6, mode: AddressingMode::ZeroPageX },
        0x17 => OpCode { code: 0x17, mnemonic: Mnemonic::SLO, pc_incr: 2, cycles: 6, mode: AddressingMode::ZeroPageX },  // unofficial
        0x18 => OpCode { code: 0x18, mnemonic: Mnemonic::CLC, pc_incr: 1, cycles: 2, mode: AddressingMode::NoneAddressing },
        0x19 => OpCode { code: 0x19, mnemonic: Mnemonic::ORA, pc_incr: 3, cycles: 4, mode: AddressingMode::AbsoluteY },
        0x1a => OpCode { code: 0x1a, mnemonic: Mnemonic::NOP, pc_incr: 1, cycles: 2, mode: AddressingMode::NoneAddressing },  // unofficial
        0x1b => OpCode { code: 0x1b, mnemonic: Mnemonic::SLO, pc_incr: 3, cycles: 7, mode: AddressingMode::AbsoluteY },  // unofficial
        0x1c => OpCode { code: 0x1c, mnemonic: Mnemonic::NOP, pc_incr: 3, cycles: 4, mode: AddressingMode::AbsoluteX },  // unofficial
        0x1d => OpCode { code: 0x1d, mnemonic: Mnemonic::ORA, pc_incr: 3, cycles: 4, mode: AddressingMode::AbsoluteX },
        0x1e => OpCode { code: 0x1e, mnemonic: Mnemonic::ASL, pc_incr: 3, cycles: 7, mode: AddressingMode::AbsoluteX },
        0x1f => OpCode { code: 0x1f, mnemonic: Mnemonic::SLO, pc_incr: 3, cycles: 7, mode: AddressingMode::AbsoluteX },  // unofficial
        0x20 => OpCode { code: 0x20, mnemonic: Mnemonic::JSR, pc_incr: 3, cycles: 6, mode: AddressingMode::NoneAddressing },
        0x21 => OpCode { code: 0x21, mnemonic: Mnemonic::AND, pc_incr: 2, cycles: 6, mode: AddressingMode::IndirectX },
        0x22 => OpCode { code: 0x22, mnemonic: Mnemonic::NOP, pc_incr: 2, cycles: 2, mode: AddressingMode::Immediate },  // unofficial
        0x23 => OpCode { code: 0x23, mnemonic: Mnemonic::RLA, pc_incr: 2, cycles: 8, mode: AddressingMode::IndirectX },  // unofficial
        0x24 => OpCode { code: 0x24, mnemonic: Mnemonic::BIT, pc_incr: 2, cycles: 3, mode: AddressingMode::ZeroPage },
        0x25 => OpCode { code: 0x25, mnemonic: Mnemonic::AND, pc_incr: 2, cycles: 3, mode: AddressingMode::ZeroPage },
        0x26 => OpCode { code: 0x26, mnemonic: Mnemonic::ROL, pc_incr: 2, cycles: 5, mode: AddressingMode::ZeroPage },
        0x27 => OpCode { code: 0x27, mnemonic: Mnemonic::RLA, pc_incr: 2, cycles: 5, mode: AddressingMode::ZeroPage },  // unofficial
        0x28 => OpCode { code: 0x28, mnemonic: Mnemonic::PLP, pc_incr: 1, cycles: 4, mode: AddressingMode::NoneAddressing },
        0x29 => OpCode { code: 0x29, mnemonic: Mnemonic::AND, pc_incr: 2, cycles: 2, mode: AddressingMode::Immediate },
        0x2a => OpCode { code: 0x2a, mnemonic: Mnemonic::ROL, pc_incr: 1, cycles: 2, mode: AddressingMode::NoneAddressing },
        0x2b => OpCode { code: 0x2b, mnemonic: Mnemonic::ANC, pc_incr: 2, cycles: 2, mode: AddressingMode::Immediate },  // unofficial
        0x2c => OpCode { code: 0x2c, mnemonic: Mnemonic::BIT, pc_incr: 3, cycles: 4, mode: AddressingMode::Absolute },
        0x2d => OpCode { code: 0x2d, mnemonic: Mnemonic::AND, pc_incr: 3, cycles: 4, mode: AddressingMode::Absolute },
        0x2e => OpCode { code: 0x2e, mnemonic: Mnemonic::ROL, pc_incr: 3, cycles: 6, mode: AddressingMode::Absolute },
        0x2f => OpCode { code: 0x2f, mnemonic: Mnemonic::RLA, pc_incr: 3, cycles: 6, mode: AddressingMode::Absolute },  // unofficial
        0x30 => OpCode { code: 0x30, mnemonic: Mnemonic::BMI, pc_incr: 2, cycles: 2, mode: AddressingMode::NoneAddressing },
        0x31 => OpCode { code: 0x31, mnemonic: Mnemonic::AND, pc_incr: 2, cycles: 5, mode: AddressingMode::IndirectY },
        0x32 => OpCode { code: 0x32, mnemonic: Mnemonic::NOP, pc_incr: 2, cycles: 2, mode: AddressingMode::Immediate },  // unofficial
        0x33 => OpCode { code: 0x33, mnemonic: Mnemonic::RLA, pc_incr: 2, cycles: 8, mode: AddressingMode::IndirectY },  // unofficial
        0x34 => OpCode { code: 0x34, mnemonic: Mnemonic::NOP, pc_incr: 2, cycles: 4, mode: AddressingMode::ZeroPageX },  // unofficial
        0x35 => OpCode { code: 0x35, mnemonic: Mnemonic::AND, pc_incr: 2, cycles: 4, mode: AddressingMode::ZeroPageX },
        0x36 => OpCode { code: 0x36, mnemonic: Mnemonic::ROL, pc_incr: 2, cycles: 6, mode: AddressingMode::ZeroPageX },
        0x37 => OpCode { code: 0x37, mnemonic: Mnemonic::RLA, pc_incr: 2, cycles: 6, mode: AddressingMode::ZeroPageX },  // unofficial
        0x38 => OpCode { code: 0x38, mnemonic: Mnemonic::SEC, pc_incr: 1, cycles: 2, mode: AddressingMode::NoneAddressing },
        0x39 => OpCode { code: 0x39, mnemonic: Mnemonic::AND, pc_incr: 3, cycles: 4, mode: AddressingMode::AbsoluteY },
        0x3a => OpCode { code: 0x3a, mnemonic: Mnemonic::NOP, pc_incr: 1, cycles: 2, mode: AddressingMode::NoneAddressing },  // unofficial
        0x3b => OpCode { code: 0x3b, mnemonic: Mnemonic::RLA, pc_incr: 3, cycles: 7, mode: AddressingMode::AbsoluteY },  // unofficial
        0x3c => OpCode { code: 0x3c, mnemonic: Mnemonic::NOP, pc_incr: 3, cycles: 4, mode: AddressingMode::AbsoluteX },  // unofficial
        0x3d => OpCode { code: 0x3d, mnemonic: Mnemonic::AND, pc_incr: 3, cycles: 4, mode: AddressingMode::AbsoluteX },
        0x3e => OpCode { code: 0x3e, mnemonic: Mnemonic::ROL, pc_incr: 3, cycles: 7, mode: AddressingMode::AbsoluteX },
        0x3f => OpCode { code: 0x3f, mnemonic: Mnemonic::RLA, pc_incr: 3, cycles: 7, mode: AddressingMode::AbsoluteX },  // unofficial
        0x40 => OpCode { code: 0x40, mnemonic: Mnemonic::RTI, pc_incr: 1, cycles: 6, mode: AddressingMode::NoneAddressing },
        0x41 => OpCode { code: 0x41, mnemonic: Mnemonic::EOR, pc_incr: 2, cycles: 6, mode: AddressingMode::IndirectX },
        0x42 => OpCode { code: 0x42, mnemonic: Mnemonic::NOP, pc_incr: 2, cycles: 2, mode: AddressingMode::Immediate },  // unofficial
        0x43 => OpCode { code: 0x43, mnemonic: Mnemonic::SRE, pc_incr: 2, cycles: 8, mode: AddressingMode::IndirectX },  // unofficial
        0x44 => OpCode { code: 0x44, mnemonic: Mnemonic::NOP, pc_incr: 2, cycles: 3, mode: AddressingMode::ZeroPage },  // unofficial
        0x45 => OpCode { code: 0x45, mnemonic: Mnemonic::EOR, pc_incr: 2, cycles: 3, mode: AddressingMode::ZeroPage },
        0x46 => OpCode { code: 0x46, mnemonic: Mnemonic::LSR, pc_incr: 2, cycles: 5, mode: AddressingMode::ZeroPage },
        0x47 => OpCode { code: 0x47, mnemonic: Mnemonic::SRE, pc_incr: 2, cycles: 5, mode: AddressingMode::ZeroPage },  // unofficial
        0x48 => OpCode { code: 0x48, mnemonic: Mnemonic::PHA, pc_incr: 1, cycles: 3, mode: AddressingMode::NoneAddressing },
        0x49 => OpCode { code: 0x49, mnemonic: Mnemonic::EOR, pc_incr: 2, cycles: 2, mode: AddressingMode::Immediate },
        0x4a => OpCode { code: 0x4a, mnemonic: Mnemonic::LSR, pc_incr: 1, cycles: 2, mode: AddressingMode::NoneAddressing },
        0x4b => OpCode { code: 0x4b, mnemonic: Mnemonic::ALR, pc_incr: 2, cycles: 2, mode: AddressingMode::Immediate },  // unofficial
        0x4c => OpCode { code: 0x4c, mnemonic: Mnemonic::JMP, pc_incr: 3, cycles: 3, mode: AddressingMode::NoneAddressing },
        0x4d => OpCode { code: 0x4d, mnemonic: Mnemonic::EOR, pc_incr: 3, cycles: 4, mode: AddressingMode::Absolute },
        0x4e => OpCode { code: 0x4e, mnemonic: Mnemonic::LSR, pc_incr: 3, cycles: 6, mode: AddressingMode::Absolute },
        0x4f => OpCode { code: 0x4f, mnemonic: Mnemonic::SRE, pc_incr: 3, cycles: 6, mode: AddressingMode::Absolute },  // unofficial
        0x50 => OpCode { code: 0x50, mnemonic: Mnemonic::BVC, pc_incr: 2, cycles: 2, mode: AddressingMode::NoneAddressing },
        0x51 => OpCode { code: 0x51, mnemonic: Mnemonic::EOR, pc_incr: 2, cycles: 5, mode: AddressingMode::IndirectY },
        0x52 => OpCode { code: 0x52, mnemonic: Mnemonic::NOP, pc_incr: 2, cycles: 2, mode: AddressingMode::Immediate },  // unofficial
        0x53 => OpCode { code: 0x53, mnemonic: Mnemonic::SRE, pc_incr: 2, cycles: 8, mode: AddressingMode::IndirectY },  // unofficial
        0x54 => OpCode { code: 0x54, mnemonic: Mnemonic::NOP, pc_incr: 2, cycles: 4, mode: AddressingMode::ZeroPageX },  // unofficial
        0x55 => OpCode { code: 0x55, mnemonic: Mnemonic::EOR, pc_incr: 2, cycles: 4, mode: AddressingMode::ZeroPageX },
        0x56 => OpCode { code: 0x56, mnemonic: Mnemonic::LSR, pc_incr: 2, cycles: 6, mode: AddressingMode::ZeroPageX },
        0x57 => OpCode { code: 0x57, mnemonic: Mnemonic::SRE, pc_incr: 2, cycles: 6, mode: AddressingMode::ZeroPageX },  // unofficial
        0x58 => OpCode { code: 0x58, mnemonic: Mnemonic::CLI, pc_incr: 1, cycles: 2, mode: AddressingMode::NoneAddressing },
        0x59 => OpCode { code: 0x59, mnemonic: Mnemonic::EOR, pc_incr: 3, cycles: 4, mode: AddressingMode::AbsoluteY },
        0x5a => OpCode { code: 0x5a, mnemonic: Mnemonic::NOP, pc_incr: 1, cycles: 2, mode: AddressingMode::NoneAddressing },  // unofficial
        0x5b => OpCode { code: 0x5b, mnemonic: Mnemonic::SRE, pc_incr: 3, cycles: 7, mode: AddressingMode::AbsoluteY },  // unofficial
        0x5c => OpCode { code: 0x5c, mnemonic: Mnemonic::NOP, pc_incr: 3, cycles: 4, mode: AddressingMode::AbsoluteX },  // unofficial
        0x5d => OpCode { code: 0x5d, mnemonic: Mnemonic::EOR, pc_incr: 3, cycles: 4, mode: AddressingMode::AbsoluteX },
        0x5e => OpCode { code: 0x5e, mnemonic: Mnemonic::LSR, pc_incr: 3, cycles: 7, mode: AddressingMode::AbsoluteX },
        0x5f => OpCode { code: 0x5f, mnemonic: Mnemonic::SRE, pc_incr: 3, cycles: 7, mode: AddressingMode::AbsoluteX },  // unofficial
        0x60 => OpCode { code: 0x60, mnemonic: Mnemonic::RTS, pc_incr: 1, cycles: 6, mode: AddressingMode::NoneAddressing },
        0x61 => OpCode { code: 0x61, mnemonic: Mnemonic::ADC, pc_incr: 2, cycles: 6, mode: AddressingMode::IndirectX },
        0x62 => OpCode { code: 0x62, mnemonic: Mnemonic::NOP, pc_incr: 2, cycles: 2, mode: AddressingMode::Immediate },  // unofficial
        0x63 => OpCode { code: 0x63, mnemonic: Mnemonic::RRA, pc_incr: 2, cycles: 8, mode: AddressingMode::IndirectX },  // unofficial
        0x64 => OpCode { code: 0x64, mnemonic: Mnemonic::NOP, pc_incr: 2, cycles: 3, mode: AddressingMode::ZeroPage },  // unofficial
        0x65 => OpCode { code: 0x65, mnemonic: Mnemonic::ADC, pc_incr: 2, cycles: 3, mode: AddressingMode::ZeroPage },
        0x66 => OpCode { code: 0x66, mnemonic: Mnemonic::ROR, pc_incr: 2, cycles: 5, mode: AddressingMode::ZeroPage },
        0x67 => OpCode { code: 0x67, mnemonic: Mnemonic::RRA, pc_incr: 2, cycles: 5, mode: AddressingMode::ZeroPage },  // unofficial
        0x68 => OpCode { code: 0x68, mnemonic: Mnemonic::PLA, pc_incr: 1, cycles: 4, mode: AddressingMode::NoneAddressing },
        0x69 => OpCode { code: 0x69, mnemonic: Mnemonic::ADC, pc_incr: 2, cycles: 2, mode: AddressingMode::Immediate },
        0x6a => OpCode { code: 0x6a, mnemonic: Mnemonic::ROR, pc_incr: 1, cycles: 2, mode: AddressingMode::NoneAddressing },
        0x6b => OpCode { code: 0x6b, mnemonic: Mnemonic::ARR, pc_incr: 2, cycles: 2, mode: AddressingMode::Immediate },  // unofficial
        0x6c => OpCode { code: 0x6c, mnemonic: Mnemonic::JMPI, pc_incr: 3, cycles: 5, mode: AddressingMode::NoneAddressing },
        0x6d => OpCode { code: 0x6d, mnemonic: Mnemonic::ADC, pc_incr: 3, cycles: 4, mode: AddressingMode::Absolute },
        0x6e => OpCode { code: 0x6e, mnemonic: Mnemonic::ROR, pc_incr: 3, cycles: 6, mode: AddressingMode::Absolute },
        0x6f => OpCode { code: 0x6f, mnemonic: Mnemonic::RRA, pc_incr: 3, cycles: 6, mode: AddressingMode::Absolute },  // unofficial
        0x70 => OpCode { code: 0x70, mnemonic: Mnemonic::BVS, pc_incr: 2, cycles: 2, mode: AddressingMode::NoneAddressing },
        0x71 => OpCode { code: 0x71, mnemonic: Mnemonic::ADC, pc_incr: 2, cycles: 5, mode: AddressingMode::IndirectY },
        0x72 => OpCode { code: 0x72, mnemonic: Mnemonic::NOP, pc_incr: 2, cycles: 2, mode: AddressingMode::Immediate },  // unofficial
        0x73 => OpCode { code: 0x73, mnemonic: Mnemonic::RRA, pc_incr: 2, cycles: 8, mode: AddressingMode::IndirectY },  // unofficial
        0x74 => OpCode { code: 0x74, mnemonic: Mnemonic::NOP, pc_incr: 2, cycles: 4, mode: AddressingMode::ZeroPageX },  // unofficial
        0x75 => OpCode { code: 0x75, mnemonic: Mnemonic::ADC, pc_incr: 2, cycles: 4, mode: AddressingMode::ZeroPageX },
        0x76 => OpCode { code: 0x76, mnemonic: Mnemonic::ROR, pc_incr: 2, cycles: 6, mode: AddressingMode::ZeroPageX },
        0x77 => OpCode { code: 0x77, mnemonic: Mnemonic::RRA, pc_incr: 2, cycles: 6, mode: AddressingMode::ZeroPageX },  // unofficial
        0x78 => OpCode { code: 0x78, mnemonic: Mnemonic::SEI, pc_incr: 1, cycles: 2, mode: AddressingMode::NoneAddressing },
        0x79 => OpCode { code: 0x79, mnemonic: Mnemonic::ADC, pc_incr: 3, cycles: 4, mode: AddressingMode::AbsoluteY },
        0x7a => OpCode { code: 0x7a, mnemonic: Mnemonic::NOP, pc_incr: 1, cycles: 2, mode: AddressingMode::NoneAddressing },  // unofficial
        0x7b => OpCode { code: 0x7b, mnemonic: Mnemonic::RRA, pc_incr: 3, cycles: 7, mode: AddressingMode::AbsoluteY },  // unofficial
        0x7c => OpCode { code: 0x7c, mnemonic: Mnemonic::NOP, pc_incr: 3, cycles: 4, mode: AddressingMode::AbsoluteX },  // unofficial
        0x7d => OpCode { code: 0x7d, mnemonic: Mnemonic::ADC, pc_incr: 3, cycles: 4, mode: AddressingMode::AbsoluteX },
        0x7e => OpCode { code: 0x7e, mnemonic: Mnemonic::ROR, pc_incr: 3, cycles: 7, mode: AddressingMode::AbsoluteX },
        0x7f => OpCode { code: 0x7f, mnemonic: Mnemonic::RRA, pc_incr: 3, cycles: 7, mode: AddressingMode::AbsoluteX },  // unofficial
        0x80 => OpCode { code: 0x80, mnemonic: Mnemonic::NOP, pc_incr: 2, cycles: 2, mode: AddressingMode::Immediate },  // unofficial
        0x81 => OpCode { code: 0x81, mnemonic: Mnemonic::STA, pc_incr: 2, cycles: 6, mode: AddressingMode::IndirectX },
        0x82 => OpCode { code: 0x82, mnemonic: Mnemonic::NOP, pc_incr: 2, cycles: 2, mode: AddressingMode::Immediate },  // unofficial
        0x83 => OpCode { code: 0x83, mnemonic: Mnemonic::SAX, pc_incr: 2, cycles: 6, mode: AddressingMode::IndirectX },  // unofficial
        0x84 => OpCode { code: 0x84, mnemonic: Mnemonic::STY, pc_incr: 2, cycles: 3, mode: AddressingMode::ZeroPage },
        0x85 => OpCode { code: 0x85, mnemonic: Mnemonic::STA, pc_incr: 2, cycles: 3, mode: AddressingMode::ZeroPage },
        0x86 => OpCode { code: 0x86, mnemonic: Mnemonic::STX, pc_incr: 2, cycles: 3, mode: AddressingMode::ZeroPage },
        0x87 => OpCode { code: 0x87, mnemonic: Mnemonic::SAX, pc_incr: 2, cycles: 3, mode: AddressingMode::ZeroPage },  // unofficial
        0x88 => OpCode { code: 0x88, mnemonic: Mnemonic::DEY, pc_incr: 1, cycles: 2, mode: AddressingMode::NoneAddressing },
        0x89 => OpCode { code: 0x89, mnemonic: Mnemonic::NOP, pc_incr: 2, cycles: 2, mode: AddressingMode::Immediate },  // unofficial
        0x8a => OpCode { code: 0x8a, mnemonic: Mnemonic::TXA, pc_incr: 1, cycles: 2, mode: AddressingMode::NoneAddressing },
        0x8b => OpCode { code: 0x8b, mnemonic: Mnemonic::XAA, pc_incr: 2, cycles: 3, mode: AddressingMode::Immediate },  // unofficial
        0x8c => OpCode { code: 0x8c, mnemonic: Mnemonic::STY, pc_incr: 3, cycles: 4, mode: AddressingMode::Absolute },
        0x8d => OpCode { code: 0x8d, mnemonic: Mnemonic::STA, pc_incr: 3, cycles: 4, mode: AddressingMode::Absolute },
        0x8e => OpCode { code: 0x8e, mnemonic: Mnemonic::STX, pc_incr: 3, cycles: 4, mode: AddressingMode::Absolute },
        0x8f => OpCode { code: 0x8f, mnemonic: Mnemonic::SAX, pc_incr: 3, cycles: 4, mode: AddressingMode::Absolute },  // unofficial
        0x90 => OpCode { code: 0x90, mnemonic: Mnemonic::BCC, pc_incr: 2, cycles: 2, mode: AddressingMode::NoneAddressing },
        0x91 => OpCode { code: 0x91, mnemonic: Mnemonic::STA, pc_incr: 2, cycles: 6, mode: AddressingMode::IndirectY },
        0x92 => OpCode { code: 0x92, mnemonic: Mnemonic::NOP, pc_incr: 2, cycles: 2, mode: AddressingMode::Immediate },  // unofficial
        0x93 => OpCode { code: 0x93, mnemonic: Mnemonic::AHX, pc_incr: 2, cycles: 8, mode: AddressingMode::IndirectY },  // unofficial
        0x94 => OpCode { code: 0x94, mnemonic: Mnemonic::STY, pc_incr: 2, cycles: 4, mode: AddressingMode::ZeroPageX },
        0x95 => OpCode { code: 0x95, mnemonic: Mnemonic::STA, pc_incr: 2, cycles: 4, mode: AddressingMode::ZeroPageX },
        0x96 => OpCode { code: 0x96, mnemonic: Mnemonic::STX, pc_incr: 2, cycles: 4, mode: AddressingMode::ZeroPageY },
        0x97 => OpCode { code: 0x97, mnemonic: Mnemonic::SAX, pc_incr: 2, cycles: 4, mode: AddressingMode::ZeroPageY },  // unofficial
        0x98 => OpCode { code: 0x98, mnemonic: Mnemonic::TYA, pc_incr: 1, cycles: 2, mode: AddressingMode::NoneAddressing },
        0x99 => OpCode { code: 0x99, mnemonic: Mnemonic::STA, pc_incr: 3, cycles: 5, mode: AddressingMode::AbsoluteY },
        0x9a => OpCode { code: 0x9a, mnemonic: Mnemonic::TXS, pc_incr: 1, cycles: 2, mode: AddressingMode::NoneAddressing },
        0x9b => OpCode { code: 0x9b, mnemonic: Mnemonic::TAS, pc_incr: 3, cycles: 2, mode: AddressingMode::AbsoluteY },  // unofficial
        0x9c => OpCode { code: 0x9c, mnemonic: Mnemonic::SHY, pc_incr: 3, cycles: 4, mode: AddressingMode::AbsoluteX },  // unofficial
        0x9d => OpCode { code: 0x9d, mnemonic: Mnemonic::STA, pc_incr: 3, cycles: 5, mode: AddressingMode::AbsoluteX },
        0x9e => OpCode { code: 0x9e, mnemonic: Mnemonic::SHX, pc_incr: 3, cycles: 4, mode: AddressingMode::AbsoluteY },  // unofficial
        0x9f => OpCode { code: 0x9f, mnemonic: Mnemonic::AHX, pc_incr: 3, cycles: 4, mode: AddressingMode::AbsoluteY },  // unofficial
        0xa0 => OpCode { code: 0xa0, mnemonic: Mnemonic::LDY, pc_incr: 2, cycles: 2, mode: AddressingMode::Immediate },
        0xa1 => OpCode { code: 0xa1, mnemonic: Mnemonic::LDA, pc_incr: 2, cycles: 6, mode: AddressingMode::IndirectX },
        0xa2 => OpCode { code: 0xa2, mnemonic: Mnemonic::LDX, pc_incr: 2, cycles: 2, mode: AddressingMode::Immediate },
        0xa3 => OpCode { code: 0xa3, mnemonic: Mnemonic::LAX, pc_incr: 2, cycles: 6, mode: AddressingMode::IndirectX },  // unofficial
        0xa4 => OpCode { code: 0xa4, mnemonic: Mnemonic::LDY, pc_incr: 2, cycles: 3, mode: AddressingMode::ZeroPage },
        0xa5 => OpCode { code: 0xa5, mnemonic: Mnemonic::LDA, pc_incr: 2, cycles: 3, mode: AddressingMode::ZeroPage },
        0xa6 => OpCode { code: 0xa6, mnemonic: Mnemonic::LDX, pc_incr: 2, cycles: 3, mode: AddressingMode::ZeroPage },
        0xa7 => OpCode { code: 0xa7, mnemonic: Mnemonic::LAX, pc_incr: 2, cycles: 3, mode: AddressingMode::ZeroPage },  // unofficial
        0xa8 => OpCode { code: 0xa8, mnemonic: Mnemonic::TAY, pc_incr: 1, cycles: 2, mode: AddressingMode::NoneAddressing },
        0xa9 => OpCode { code: 0xa9, mnemonic: Mnemonic::LDA, pc_incr: 2, cycles: 2, mode: AddressingMode::Immediate },
        0xaa => OpCode { code: 0xaa, mnemonic: Mnemonic::TAX, pc_incr: 1, cycles: 2, mode: AddressingMode::NoneAddressing },
        0xab => OpCode { code: 0xab, mnemonic: Mnemonic::LXA, pc_incr: 2, cycles: 3, mode: AddressingMode::Immediate },  // unofficial
        0xac => OpCode { code: 0xac, mnemonic: Mnemonic::LDY, pc_incr: 3, cycles: 4, mode: AddressingMode::Absolute },
        0xad => OpCode { code: 0xad, mnemonic: Mnemonic::LDA, pc_incr: 3, cycles: 4, mode: AddressingMode::Absolute },
        0xae => OpCode { code: 0xae, mnemonic: Mnemonic::LDX, pc_incr: 3, cycles: 4, mode: AddressingMode::Absolute },
        0xaf => OpCode { code: 0xaf, mnemonic: Mnemonic::LAX, pc_incr: 3, cycles: 4, mode: AddressingMode::Absolute },  // unofficial
        0xb0 => OpCode { code: 0xb0, mnemonic: Mnemonic::BCS, pc_incr: 2, cycles: 2, mode: AddressingMode::NoneAddressing },
        0xb1 => OpCode { code: 0xb1, mnemonic: Mnemonic::LDA, pc_incr: 2, cycles: 5, mode: AddressingMode::IndirectY },
        0xb2 => OpCode { code: 0xb2, mnemonic: Mnemonic::NOP, pc_incr: 2, cycles: 2, mode: AddressingMode::Immediate },  // unofficial
        0xb3 => OpCode { code: 0xb3, mnemonic: Mnemonic::LAX, pc_incr: 2, cycles: 5, mode: AddressingMode::IndirectY },  // unofficial
        0xb4 => OpCode { code: 0xb4, mnemonic: Mnemonic::LDY, pc_incr: 2, cycles: 4, mode: AddressingMode::ZeroPageX },
        0xb5 => OpCode { code: 0xb5, mnemonic: Mnemonic::LDA, pc_incr: 2, cycles: 4, mode: AddressingMode::ZeroPageX },
        0xb6 => OpCode { code: 0xb6, mnemonic: Mnemonic::LDX, pc_incr: 2, cycles: 4, mode: AddressingMode::ZeroPageY },
        0xb7 => OpCode { code: 0xb7, mnemonic: Mnemonic::LAX, pc_incr: 2, cycles: 4, mode: AddressingMode::ZeroPageY },  // unofficial
        0xb8 => OpCode { code: 0xb8, mnemonic: Mnemonic::CLV, pc_incr: 1, cycles: 2, mode: AddressingMode::NoneAddressing },
        0xb9 => OpCode { code: 0xb9, mnemonic: Mnemonic::LDA, pc_incr: 3, cycles: 4, mode: AddressingMode::AbsoluteY },
        0xba => OpCode { code: 0xba, mnemonic: Mnemonic::TSX, pc_incr: 1, cycles: 2, mode: AddressingMode::NoneAddressing },
        0xbb => OpCode { code: 0xbb, mnemonic: Mnemonic::LAS, pc_incr: 3, cycles: 2, mode: AddressingMode::AbsoluteY },  // unofficial
        0xbc => OpCode { code: 0xbc, mnemonic: Mnemonic::LDY, pc_incr: 3, cycles: 4, mode: AddressingMode::AbsoluteX },
        0xbd => OpCode { code: 0xbd, mnemonic: Mnemonic::LDA, pc_incr: 3, cycles: 4, mode: AddressingMode::AbsoluteX },
        0xbe => OpCode { code: 0xbe, mnemonic: Mnemonic::LDX, pc_incr: 3, cycles: 4, mode: AddressingMode::AbsoluteY },
        0xbf => OpCode { code: 0xbf, mnemonic: Mnemonic::LAX, pc_incr: 3, cycles: 4, mode: AddressingMode::AbsoluteY },  // unofficial
        0xc0 => OpCode { code: 0xc0, mnemonic: Mnemonic::CPY, pc_incr: 2, cycles: 2, mode: AddressingMode::Immediate },
        0xc1 => OpCode { code: 0xc1, mnemonic: Mnemonic::CMP, pc_incr: 2, cycles: 6, mode: AddressingMode::IndirectX },
        0xc2 => OpCode { code: 0xc2, mnemonic: Mnemonic::NOP, pc_incr: 2, cycles: 2, mode: AddressingMode::Immediate },  // unofficial
        0xc3 => OpCode { code: 0xc3, mnemonic: Mnemonic::DCP, pc_incr: 2, cycles: 8, mode: AddressingMode::IndirectX },  // unofficial
        0xc4 => OpCode { code: 0xc4, mnemonic: Mnemonic::CPY, pc_incr: 2, cycles: 3, mode: AddressingMode::ZeroPage },
        0xc5 => OpCode { code: 0xc5, mnemonic: Mnemonic::CMP, pc_incr: 2, cycles: 3, mode: AddressingMode::ZeroPage },
        0xc6 => OpCode { code: 0xc6, mnemonic: Mnemonic::DEC, pc_incr: 2, cycles: 5, mode: AddressingMode::ZeroPage },
        0xc7 => OpCode { code: 0xc7, mnemonic: Mnemonic::DCP, pc_incr: 2, cycles: 5, mode: AddressingMode::ZeroPage },  // unofficial
        0xc8 => OpCode { code: 0xc8, mnemonic: Mnemonic::INY, pc_incr: 1, cycles: 2, mode: AddressingMode::NoneAddressing },
        0xc9 => OpCode { code: 0xc9, mnemonic: Mnemonic::CMP, pc_incr: 2, cycles: 2, mode: AddressingMode::Immediate },
        0xca => OpCode { code: 0xca, mnemonic: Mnemonic::DEX, pc_incr: 1, cycles: 2, mode: AddressingMode::NoneAddressing },
        0xcb => OpCode { code: 0xcb, mnemonic: Mnemonic::AXS, pc_incr: 2, cycles: 2, mode: AddressingMode::Immediate },  // unofficial
        0xcc => OpCode { code: 0xcc, mnemonic: Mnemonic::CPY, pc_incr: 3, cycles: 4, mode: AddressingMode::Absolute },
        0xcd => OpCode { code: 0xcd, mnemonic: Mnemonic::CMP, pc_incr: 3, cycles: 4, mode: AddressingMode::Absolute },
        0xce => OpCode { code: 0xce, mnemonic: Mnemonic::DEC, pc_incr: 3, cycles: 6, mode: AddressingMode::Absolute },
        0xcf => OpCode { code: 0xcf, mnemonic: Mnemonic::DCP, pc_incr: 3, cycles: 6, mode: AddressingMode::Absolute },  // unofficial
        0xd0 => OpCode { code: 0xd0, mnemonic: Mnemonic::BNE, pc_incr: 2, cycles: 2, mode: AddressingMode::NoneAddressing },
        0xd1 => OpCode { code: 0xd1, mnemonic: Mnemonic::CMP, pc_incr: 2, cycles: 5, mode: AddressingMode::IndirectY },
        0xd2 => OpCode { code: 0xd2, mnemonic: Mnemonic::NOP, pc_incr: 2, cycles: 2, mode: AddressingMode::Immediate },  // unofficial
        0xd3 => OpCode { code: 0xd3, mnemonic: Mnemonic::DCP, pc_incr: 2, cycles: 8, mode: AddressingMode::IndirectY },  // unofficial
        0xd4 => OpCode { code: 0xd4, mnemonic: Mnemonic::NOP, pc_incr: 2, cycles: 4, mode: AddressingMode::ZeroPageX },  // unofficial
        0xd5 => OpCode { code: 0xd5, mnemonic: Mnemonic::CMP, pc_incr: 2, cycles: 4, mode: AddressingMode::ZeroPageX },
        0xd6 => OpCode { code: 0xd6, mnemonic: Mnemonic::DEC, pc_incr: 2, cycles: 6, mode: AddressingMode::ZeroPageX },
        0xd7 => OpCode { code: 0xd7, mnemonic: Mnemonic::DCP, pc_incr: 2, cycles: 6, mode: AddressingMode::ZeroPageX },  // unofficial
        0xd8 => OpCode { code: 0xd8, mnemonic: Mnemonic::CLD, pc_incr: 1, cycles: 2, mode: AddressingMode::NoneAddressing },
        0xd9 => OpCode { code: 0xd9, mnemonic: Mnemonic::CMP, pc_incr: 3, cycles: 4, mode: AddressingMode::AbsoluteY },
        0xda => OpCode { code: 0xda, mnemonic: Mnemonic::NOP, pc_incr: 1, cycles: 2, mode: AddressingMode::NoneAddressing },  // unofficial
        0xdb => OpCode { code: 0xdb, mnemonic: Mnemonic::DCP, pc_incr: 3, cycles: 7, mode: AddressingMode::AbsoluteY },  // unofficial
        0xdc => OpCode { code: 0xdc, mnemonic: Mnemonic::NOP, pc_incr: 3, cycles: 4, mode: AddressingMode::AbsoluteX },  // unofficial
        0xdd => OpCode { code: 0xdd, mnemonic: Mnemonic::CMP, pc_incr: 3, cycles: 4, mode: AddressingMode::AbsoluteX },
        0xde => OpCode { code: 0xde, mnemonic: Mnemonic::DEC, pc_incr: 3, cycles: 7, mode: AddressingMode::AbsoluteX },
        0xdf => OpCode { code: 0xdf, mnemonic: Mnemonic::DCP, pc_incr: 3, cycles: 7, mode: AddressingMode::AbsoluteX },  // unofficial
        0xe0 => OpCode { code: 0xe0, mnemonic: Mnemonic::CPX, pc_incr: 2, cycles: 2, mode: AddressingMode::Immediate },
        0xe1 => OpCode { code: 0xe1, mnemonic: Mnemonic::SBC, pc_incr: 2, cycles: 6, mode: AddressingMode::IndirectX },
        0xe2 => OpCode { code: 0xe2, mnemonic: Mnemonic::NOP, pc_incr: 2, cycles: 2, mode: AddressingMode::Immediate },  // unofficial
        0xe3 => OpCode { code: 0xe3, mnemonic: Mnemonic::ISB, pc_incr: 2, cycles: 8, mode: AddressingMode::IndirectX },  // unofficial
        0xe4 => OpCode { code: 0xe4, mnemonic: Mnemonic::CPX, pc_incr: 2, cycles: 3, mode: AddressingMode::ZeroPage },
        0xe5 => OpCode { code: 0xe5, mnemonic: Mnemonic::SBC, pc_incr: 2, cycles: 3, mode: AddressingMode::ZeroPage },
        0xe6 => OpCode { code: 0xe6, mnemonic: Mnemonic::INC, pc_incr: 2, cycles: 5, mode: AddressingMode::ZeroPage },
        0xe7 => OpCode { code: 0xe7, mnemonic: Mnemonic::ISB, pc_incr: 2, cycles: 5, mode: AddressingMode::ZeroPage },  // unofficial
        0xe8 => OpCode { code: 0xe8, mnemonic: Mnemonic::INX, pc_incr: 1, cycles: 2, mode: AddressingMode::NoneAddressing },
        0xe9 => OpCode { code: 0xe9, mnemonic: Mnemonic::SBC, pc_incr: 2, cycles: 2, mode: AddressingMode::Immediate },
        0xea => OpCode { code: 0xea, mnemonic: Mnemonic::NOP, pc_incr: 1, cycles: 2, mode: AddressingMode::NoneAddressing },
        0xeb => OpCode { code: 0xeb, mnemonic: Mnemonic::SBC, pc_incr: 2, cycles: 2, mode: AddressingMode::Immediate },  // unofficial
        0xec => OpCode { code: 0xec, mnemonic: Mnemonic::CPX, pc_incr: 3, cycles: 4, mode: AddressingMode::Absolute },
        0xed => OpCode { code: 0xed, mnemonic: Mnemonic::SBC, pc_incr: 3, cycles: 4, mode: AddressingMode::Absolute },
        0xee => OpCode { code: 0xee, mnemonic: Mnemonic::INC, pc_incr: 3, cycles: 6, mode: AddressingMode::Absolute },
        0xef => OpCode { code: 0xef, mnemonic: Mnemonic::ISB, pc_incr: 3, cycles: 6, mode: AddressingMode::Absolute },  // unofficial
        0xf0 => OpCode { code: 0xf0, mnemonic: Mnemonic::BEQ, pc_incr: 2, cycles: 2, mode: AddressingMode::NoneAddressing },
        0xf1 => OpCode { code: 0xf1, mnemonic: Mnemonic::SBC, pc_incr: 2, cycles: 5, mode: AddressingMode::IndirectY },
        0xf2 => OpCode { code: 0xf2, mnemonic: Mnemonic::NOP, pc_incr: 2, cycles: 2, mode: AddressingMode::Immediate },  // unofficial
        0xf3 => OpCode { code: 0xf3, mnemonic: Mnemonic::ISB, pc_incr: 2, cycles: 8, mode: AddressingMode::IndirectY },  // unofficial
        0xf4 => OpCode { code: 0xf4, mnemonic: Mnemonic::NOP, pc_incr: 2, cycles: 4, mode: AddressingMode::ZeroPageX },  // unofficial
        0xf5 => OpCode { code: 0xf5, mnemonic: Mnemonic::SBC, pc_incr: 2, cycles: 4, mode: AddressingMode::ZeroPageX },
        0xf6 => OpCode { code: 0xf6, mnemonic: Mnemonic::INC, pc_incr: 2, cycles: 6, mode: AddressingMode::ZeroPageX },
        0xf7 => OpCode { code: 0xf7, mnemonic: Mnemonic::ISB, pc_incr: 2, cycles: 6, mode: AddressingMode::ZeroPageX },  // unofficial
        0xf8 => OpCode { code: 0xf8, mnemonic: Mnemonic::SED, pc_incr: 1, cycles: 2, mode: AddressingMode::NoneAddressing },
        0xf9 => OpCode { code: 0xf9, mnemonic: Mnemonic::SBC, pc_incr: 3, cycles: 4, mode: AddressingMode::AbsoluteY },
        0xfa => OpCode { code: 0xfa, mnemonic: Mnemonic::NOP, pc_incr: 1, cycles: 2, mode: AddressingMode::NoneAddressing },  // unofficial
        0xfb => OpCode { code: 0xfb, mnemonic: Mnemonic::ISB, pc_incr: 3, cycles: 7, mode: AddressingMode::AbsoluteY },  // unofficial
        0xfc => OpCode { code: 0xfc, mnemonic: Mnemonic::NOP, pc_incr: 3, cycles: 4, mode: AddressingMode::AbsoluteX },  // unofficial
        0xfd => OpCode { code: 0xfd, mnemonic: Mnemonic::SBC, pc_incr: 3, cycles: 4, mode: AddressingMode::AbsoluteX },
        0xfe => OpCode { code: 0xfe, mnemonic: Mnemonic::INC, pc_incr: 3, cycles: 7, mode: AddressingMode::AbsoluteX },
        0xff => OpCode { code: 0xff, mnemonic: Mnemonic::ISB, pc_incr: 3, cycles: 7, mode: AddressingMode::AbsoluteX },  // unofficial
    }
}

/// Looks up `code` in the instruction table; every byte is an opcode.
pub fn lookup(code: u8) -> (r: OpCode)
    ensures
        r == opcode_spec(code),
{
    match code {
        0x00 => OpCode { code: 0x00, mnemonic: Mnemonic::BRK, pc_incr: 1, cycles: 7, mode: AddressingMode::NoneAddressing },
        0x01 => OpCode { code: 0x01, mnemonic: Mnemonic::ORA, pc_incr: 2, cycles: 6, mode: AddressingMode::IndirectX },
        0x02 => OpCode { code: 0x02, mnemonic: Mnemonic::NOP, pc_incr: 2, cycles: 2, mode: AddressingMode::Immediate },  // unofficial
        0x03 => OpCode { code: 0x03, mnemonic: Mnemonic::SLO, pc_incr: 2, cycles: 8, mode: AddressingMode::IndirectX },  // unofficial
        0x04 => OpCode { code: 0x04, mnemonic: Mnemonic::NOP, pc_incr: 2, cycles: 3, mode: AddressingMode::ZeroPage },  // unofficial
        0x05 => OpCode { code: 0x05, mnemonic: Mnemonic::ORA, pc_incr: 2, cycles: 3, mode: AddressingMode::ZeroPage },
        0x06 => OpCode { code: 0x06, mnemonic: Mnemonic::ASL, pc_incr: 2, cycles: 5, mode: AddressingMode::ZeroPage },
        0x07 => OpCode { code: 0x07, mnemonic: Mnemonic::SLO, pc_incr: 2, cycles: 5, mode: AddressingMode::ZeroPage },  // unofficial
        0x08 => OpCode { code: 0x08, mnemonic: Mnemonic::PHP, pc_incr: 1, cycles: 3, mode: AddressingMode::NoneAddressing },
        0x09 => OpCode { code: 0x09, mnemonic: Mnemonic::ORA, pc_incr: 2, cycles: 2, mode: AddressingMode::Immediate },
        0x0a => OpCode { code: 0x0a, mnemonic: Mnemonic::ASL, pc_incr: 1, cycles: 2, mode: AddressingMode::NoneAddressing },
        0x0b => OpCode { code: 0x0b, mnemonic: Mnemonic::ANC, pc_incr: 2, cycles: 2, mode: AddressingMode::Immediate },  // unofficial
        0x0c => OpCode { code: 0x0c, mnemonic: Mnemonic::NOP, pc_incr: 3, cycles: 4, mode: AddressingMode::Absolute },  // unofficial
        0x0d => OpCode { code: 0x0d, mnemonic: Mnemonic::ORA, pc_incr: 3, cycles: 4, mode: AddressingMode::Absolute },
        0x0e => OpCode { code: 0x0e, mnemonic: Mnemonic::ASL, pc_incr: 3, cycles: 6, mode: AddressingMode::Absolute },
        0x0f => OpCode { code: 0x0f, mnemonic: Mnemonic::SLO, pc_incr: 3, cycles: 6, mode: AddressingMode::Absolute },  // unofficial
        0x10 => OpCode { code: 0x10, mnemonic: Mnemonic::BPL, pc_incr: 2, cycles: 2, mode: AddressingMode::NoneAddressing },
        0x11 => OpCode { code: 0x11, mnemonic: Mnemonic::ORA, pc_incr: 2, cycles: 5, mode: AddressingMode::IndirectY },
        0x12 => OpCode { code: 0x12, mnemonic: Mnemonic::NOP, pc_incr: 2, cycles: 2, mode: AddressingMode::Immediate },  // unofficial
        0x13 => OpCode { code: 0x13, mnemonic: Mnemonic::SLO, pc_incr: 2, cycles: 8, mode: AddressingMode::IndirectY },  // unofficial
        0x14 => OpCode { code: 0x14, mnemonic: Mnemonic::NOP, pc_incr: 2, cycles: 4, mode: AddressingMode::ZeroPageX },  // unofficial
        0x15 => OpCode { code: 0x15, mnemonic: Mnemonic::ORA, pc_incr: 2, cycles: 4, mode: AddressingMode::ZeroPageX },
        0x16 => OpCode { code: 0x16, mnemonic: Mnemonic::ASL, pc_incr: 2, cycles: 6, mode: AddressingMode::ZeroPageX },
        0x17 => OpCode { code: 0x17, mnemonic: Mnemonic::SLO, pc_incr: 2, cycles: 6, mode: AddressingMode::ZeroPageX },  // unofficial
        0x18 => OpCode { code: 0x18, mnemonic: Mnemonic::CLC, pc_incr: 1, cycles: 2, mode: AddressingMode::NoneAddressing },
        0x19 => OpCode { code: 0x19, mnemonic: Mnemonic::ORA, pc_incr: 3, cycles: 4, mode: AddressingMode::AbsoluteY },
        0x1a => OpCode { code: 0x1a, mnemonic: Mnemonic::NOP, pc_incr: 1, cycles: 2, mode: AddressingMode::NoneAddressing },  // unofficial
        0x1b => OpCode { code: 0x1b, mnemonic: Mnemonic::SLO, pc_incr: 3, cycles: 7, mode: AddressingMode::AbsoluteY },  // unofficial
        0x1c => OpCode { code: 0x1c, mnemonic: Mnemonic::NOP, pc_incr: 3, cycles: 4, mode: AddressingMode::AbsoluteX },  // unofficial
        0x1d => OpCode { code: 0x1d, mnemonic: Mnemonic::ORA, pc_incr: 3, cycles: 4, mode: AddressingMode::AbsoluteX },
        0x1e => OpCode { code: 0x1e, mnemonic: Mnemonic::ASL, pc_incr: 3, cycles: 7, mode: AddressingMode::AbsoluteX },
        0x1f => OpCode { code: 0x1f, mnemonic: Mnemonic::SLO, pc_incr: 3, cycles: 7, mode: AddressingMode::AbsoluteX },  // unofficial
        0x20 => OpCode { code: 0x20, mnemonic: Mnemonic::JSR, pc_incr: 3, cycles: 6, mode: AddressingMode::NoneAddressing },
        0x21 => OpCode { code: 0x21, mnemonic: Mnemonic::AND, pc_incr: 2, cycles: 6, mode: AddressingMode::IndirectX },
        0x22 => OpCode { code: 0x22, mnemonic: Mnemonic::NOP, pc_incr: 2, cycles: 2, mode: AddressingMode::Immediate },  // unofficial
        0x23 => OpCode { code: 0x23, mnemonic: Mnemonic::RLA, pc_incr: 2, cycles: 8, mode: AddressingMode::IndirectX },  // unofficial
        0x24 => OpCode { code: 0x24, mnemonic: Mnemonic::BIT, pc_incr: 2, cycles: 3, mode: AddressingMode::ZeroPage },
        0x25 => OpCode { code: 0x25, mnemonic: Mnemonic::AND, pc_incr: 2, cycles: 3, mode: AddressingMode::ZeroPage },
        0x26 => OpCode { code: 0x26, mnemonic: Mnemonic::ROL, pc_incr: 2, cycles: 5, mode: AddressingMode::ZeroPage },
        0x27 => OpCode { code: 0x27, mnemonic: Mnemonic::RLA, pc_incr: 2, cycles: 5, mode: AddressingMode::ZeroPage },  // unofficial
        0x28 => OpCode { code: 0x28, mnemonic: Mnemonic::PLP, pc_incr: 1, cycles: 4, mode: AddressingMode::NoneAddressing },
        0x29 => OpCode { code: 0x29, mnemonic: Mnemonic::AND, pc_incr: 2, cycles: 2, mode: AddressingMode::Immediate },
        0x2a => OpCode { code: 0x2a, mnemonic: Mnemonic::ROL, pc_incr: 1, cycles: 2, mode: AddressingMode::NoneAddressing },
        0x2b => OpCode { code: 0x2b, mnemonic: Mnemonic::ANC, pc_incr: 2, cycles: 2, mode: AddressingMode::Immediate },  // unofficial
        0x2c => OpCode { code: 0x2c, mnemonic: Mnemonic::BIT, pc_incr: 3, cycles: 4, mode: AddressingMode::Absolute },
        0x2d => OpCode { code: 0x2d, mnemonic: Mnemonic::AND, pc_incr: 3, cycles: 4, mode: AddressingMode::Absolute },
        0x2e => OpCode { code: 0x2e, mnemonic: Mnemonic::ROL, pc_incr: 3, cycles: 6, mode: AddressingMode::Absolute },
        0x2f => OpCode { code: 0x2f, mnemonic: Mnemonic::RLA, pc_incr: 3, cycles: 6, mode: AddressingMode::Absolute },  // unofficial
        0x30 => OpCode { code: 0x30, mnemonic: Mnemonic::BMI, pc_incr: 2, cycles: 2, mode: AddressingMode::NoneAddressing },
        0x31 => OpCode { code: 0x31, mnemonic: Mnemonic::AND, pc_incr: 2, cycles: 5, mode: AddressingMode::IndirectY },
        0x32 => OpCode { code: 0x32, mnemonic: Mnemonic::NOP, pc_incr: 2, cycles: 2, mode: AddressingMode::Immediate },  // unofficial
        0x33 => OpCode { code: 0x33, mnemonic: Mnemonic::RLA, pc_incr: 2, cycles: 8, mode: AddressingMode::IndirectY },  // unofficial
        0x34 => OpCode { code: 0x34, mnemonic: Mnemonic::NOP, pc_incr: 2, cycles: 4, mode: AddressingMode::ZeroPageX },  // unofficial
        0x35 => OpCode { code: 0x35, mnemonic: Mnemonic::AND, pc_incr: 2, cycles: 4, mode: AddressingMode::ZeroPageX },
        0x36 => OpCode { code: 0x36, mnemonic: Mnemonic::ROL, pc_incr: 2, cycles: 6, mode: AddressingMode::ZeroPageX },
        0x37 => OpCode { code: 0x37, mnemonic: Mnemonic::RLA, pc_incr: 2, cycles: 6, mode: AddressingMode::ZeroPageX },  // unofficial
        0x38 => OpCode { code: 0x38, mnemonic: Mnemonic::SEC, pc_incr: 1, cycles: 2, mode: AddressingMode::NoneAddressing },
        0x39 => OpCode { code: 0x39, mnemonic: Mnemonic::AND, pc_incr: 3, cycles: 4, mode: AddressingMode::AbsoluteY },
        0x3a => OpCode { code: 0x3a, mnemonic: Mnemonic::NOP, pc_incr: 1, cycles: 2, mode: AddressingMode::NoneAddressing },  // unofficial
        0x3b => OpCode { code: 0x3b, mnemonic: Mnemonic::RLA, pc_incr: 3, cycles: 7, mode: AddressingMode::AbsoluteY },  // unofficial
        0x3c => OpCode { code: 0x3c, mnemonic: Mnemonic::NOP, pc_incr: 3, cycles: 4, mode: AddressingMode::AbsoluteX },  // unofficial
        0x3d => OpCode { code: 0x3d, mnemonic: Mnemonic::AND, pc_incr: 3, cycles: 4, mode: AddressingMode::AbsoluteX },
        0x3e => OpCode { code: 0x3e, mnemonic: Mnemonic::ROL, pc_incr: 3, cycles: 7, mode: AddressingMode::AbsoluteX },
        0x3f => OpCode { code: 0x3f, mnemonic: Mnemonic::RLA, pc_incr: 3, cycles: 7, mode: AddressingMode::AbsoluteX },  // unofficial
        0x40 => OpCode { code: 0x40, mnemonic: Mnemonic::RTI, pc_incr: 1, cycles: 6, mode: AddressingMode::NoneAddressing },
        0x41 => OpCode { code: 0x41, mnemonic: Mnemonic::EOR, pc_incr: 2, cycles: 6, mode: AddressingMode::IndirectX },
        0x42 => OpCode { code: 0x42, mnemonic: Mnemonic::NOP, pc_incr: 2, cycles: 2, mode: AddressingMode::Immediate },  // unofficial
        0x43 => OpCode { code: 0x43, mnemonic: Mnemonic::SRE, pc_incr: 2, cycles: 8, mode: AddressingMode::IndirectX },  // unofficial
        0x44 => OpCode { code: 0x44, mnemonic: Mnemonic::NOP, pc_incr: 2, cycles: 3, mode: AddressingMode::ZeroPage },  // unofficial
        0x45 => OpCode { code: 0x45, mnemonic: Mnemonic::EOR, pc_incr: 2, cycles: 3, mode: AddressingMode::ZeroPage },
        0x46 => OpCode { code: 0x46, mnemonic: Mnemonic::LSR, pc_incr: 2, cycles: 5, mode: AddressingMode::ZeroPage },
        0x47 => OpCode { code: 0x47, mnemonic: Mnemonic::SRE, pc_incr: 2, cycles: 5, mode: AddressingMode::ZeroPage },  // unofficial
        0x48 => OpCode { code: 0x48, mnemonic: Mnemonic::PHA, pc_incr: 1, cycles: 3, mode: AddressingMode::NoneAddressing },
        0x49 => OpCode { code: 0x49, mnemonic: Mnemonic::EOR, pc_incr: 2, cycles: 2, mode: AddressingMode::Immediate },
        0x4a => OpCode { code: 0x4a, mnemonic: Mnemonic::LSR, pc_incr: 1, cycles: 2, mode: AddressingMode::NoneAddressing },
        0x4b => OpCode { code: 0x4b, mnemonic: Mnemonic::ALR, pc_incr: 2, cycles: 2, mode: AddressingMode::Immediate },  // unofficial
        0x4c => OpCode { code: 0x4c, mnemonic: Mnemonic::JMP, pc_incr: 3, cycles: 3, mode: AddressingMode::NoneAddressing },
        0x4d => OpCode { code: 0x4d, mnemonic: Mnemonic::EOR, pc_incr: 3, cycles: 4, mode: AddressingMode::Absolute },
        0x4e => OpCode { code: 0x4e, mnemonic: Mnemonic::LSR, pc_incr: 3, cycles: 6, mode: AddressingMode::Absolute },
        0x4f => OpCode { code: 0x4f, mnemonic: Mnemonic::SRE, pc_incr: 3, cycles: 6, mode: AddressingMode::Absolute },  // unofficial
        0x50 => OpCode { code: 0x50, mnemonic: Mnemonic::BVC, pc_incr: 2, cycles: 2, mode: AddressingMode::NoneAddressing },
        0x51 => OpCode { code: 0x51, mnemonic: Mnemonic::EOR, pc_incr: 2, cycles: 5, mode: AddressingMode::IndirectY },
        0x52 => OpCode { code: 0x52, mnemonic: Mnemonic::NOP, pc_incr: 2, cycles: 2, mode: AddressingMode::Immediate },  // unofficial
        0x53 => OpCode { code: 0x53, mnemonic: Mnemonic::SRE, pc_incr: 2, cycles: 8, mode: AddressingMode::IndirectY },  // unofficial
        0x54 => OpCode { code: 0x54, mnemonic: Mnemonic::NOP, pc_incr: 2, cycles: 4, mode: AddressingMode::ZeroPageX },  // unofficial
        0x55 => OpCode { code: 0x55, mnemonic: Mnemonic::EOR, pc_incr: 2, cycles: 4, mode: AddressingMode::ZeroPageX },
        0x56 => OpCode { code: 0x56, mnemonic: Mnemonic::LSR, pc_incr: 2, cycles: 6, mode: AddressingMode::ZeroPageX },
        0x57 => OpCode { code: 0x57, mnemonic: Mnemonic::SRE, pc_incr: 2, cycles: 6, mode: AddressingMode::ZeroPageX },  // unofficial
        0x58 => OpCode { code: 0x58, mnemonic: Mnemonic::CLI, pc_incr: 1, cycles: 2, mode: AddressingMode::NoneAddressing },
        0x59 => OpCode { code: 0x59, mnemonic: Mnemonic::EOR, pc_incr: 3, cycles: 4, mode: AddressingMode::AbsoluteY },
        0x5a => OpCode { code: 0x5a, mnemonic: Mnemonic::NOP, pc_incr: 1, cycles: 2, mode: AddressingMode::NoneAddressing },  // unofficial
        0x5b => OpCode { code: 0x5b, mnemonic: Mnemonic::SRE, pc_incr: 3, cycles: 7, mode: AddressingMode::AbsoluteY },  // unofficial
        0x5c => OpCode { code: 0x5c, mnemonic: Mnemonic::NOP, pc_incr: 3, cycles: 4, mode: AddressingMode::AbsoluteX },  // unofficial
        0x5d => OpCode { code: 0x5d, mnemonic: Mnemonic::EOR, pc_incr: 3, cycles: 4, mode: AddressingMode::AbsoluteX },
        0x5e => OpCode { code: 0x5e, mnemonic: Mnemonic::LSR, pc_incr: 3, cycles: 7, mode: AddressingMode::AbsoluteX },
        0x5f => OpCode { code: 0x5f, mnemonic: Mnemonic::SRE, pc_incr: 3, cycles: 7, mode: AddressingMode::AbsoluteX },  // unofficial
        0x60 => OpCode { code: 0x60, mnemonic: Mnemonic::RTS, pc_incr: 1, cycles: 6, mode: AddressingMode::NoneAddressing },
        0x61 => OpCode { code: 0x61, mnemonic: Mnemonic::ADC, pc_incr: 2, cycles: 6, mode: AddressingMode::IndirectX },
        0x62 => OpCode { code: 0x62, mnemonic: Mnemonic::NOP, pc_incr: 2, cycles: 2, mode: AddressingMode::Immediate },  // unofficial
        0x63 => OpCode { code: 0x63, mnemonic: Mnemonic::RRA, pc_incr: 2, cycles: 8, mode: AddressingMode::IndirectX },  // unofficial
        0x64 => OpCode { code: 0x64, mnemonic: Mnemonic::NOP, pc_incr: 2, cycles: 3, mode: AddressingMode::ZeroPage },  // unofficial
        0x65 => OpCode { code: 0x65, mnemonic: Mnemonic::ADC, pc_incr: 2, cycles: 3, mode: AddressingMode::ZeroPage },
        0x66 => OpCode { code: 0x66, mnemonic: Mnemonic::ROR, pc_incr: 2, cycles: 5, mode: AddressingMode::ZeroPage },
        0x67 => OpCode { code: 0x67, mnemonic: Mnemonic::RRA, pc_incr: 2, cycles: 5, mode: AddressingMode::ZeroPage },  // unofficial
        0x68 => OpCode { code: 0x68, mnemonic: Mnemonic::PLA, pc_incr: 1, cycles: 4, mode: AddressingMode::NoneAddressing },
        0x69 => OpCode { code: 0x69, mnemonic: Mnemonic::ADC, pc_incr: 2, cycles: 2, mode: AddressingMode::Immediate },
        0x6a => OpCode { code: 0x6a, mnemonic: Mnemonic::ROR, pc_incr: 1, cycles: 2, mode: AddressingMode::NoneAddressing },
        0x6b => OpCode { code: 0x6b, mnemonic: Mnemonic::ARR, pc_incr: 2, cycles: 2, mode: AddressingMode::Immediate },  // unofficial
        0x6c => OpCode { code: 0x6c, mnemonic: Mnemonic::JMPI, pc_incr: 3, cycles: 5, mode: AddressingMode::NoneAddressing },
        0x6d => OpCode { code: 0x6d, mnemonic: Mnemonic::ADC, pc_incr: 3, cycles: 4, mode: AddressingMode::Absolute },
        0x6e => OpCode { code: 0x6e, mnemonic: Mnemonic::ROR, pc_incr: 3, cycles: 6, mode: AddressingMode::Absolute },
        0x6f => OpCode { code: 0x6f, mnemonic: Mnemonic::RRA, pc_incr: 3, cycles: 6, mode: AddressingMode::Absolute },  // unofficial
        0x70 => OpCode { code: 0x70, mnemonic: Mnemonic::BVS, pc_incr: 2, cycles: 2, mode: AddressingMode::NoneAddressing },
        0x71 => OpCode { code: 0x71, mnemonic: Mnemonic::ADC, pc_incr: 2, cycles: 5, mode: AddressingMode::IndirectY },
        0x72 => OpCode { code: 0x72, mnemonic: Mnemonic::NOP, pc_incr: 2, cycles: 2, mode: AddressingMode::Immediate },  // unofficial
        0x73 => OpCode { code: 0x73, mnemonic: Mnemonic::RRA, pc_incr: 2, cycles: 8, mode: AddressingMode::IndirectY },  // unofficial
        0x74 => OpCode { code: 0x74, mnemonic: Mnemonic::NOP, pc_incr: 2, cycles: 4, mode: AddressingMode::ZeroPageX },  // unofficial
        0x75 => OpCode { code: 0x75, mnemonic: Mnemonic::ADC, pc_incr: 2, cycles: 4, mode: AddressingMode::ZeroPageX },
        0x76 => OpCode { code: 0x76, mnemonic: Mnemonic::ROR, pc_incr: 2, cycles: 6, mode: AddressingMode::ZeroPageX },
        0x77 => OpCode { code: 0x77, mnemonic: Mnemonic::RRA, pc_incr: 2, cycles: 6, mode: AddressingMode::ZeroPageX },  // unofficial
        0x78 => OpCode { code: 0x78, mnemonic: Mnemonic::SEI, pc_incr: 1, cycles: 2, mode: AddressingMode::NoneAddressing },
        0x79 => OpCode { code: 0x79, mnemonic: Mnemonic::ADC, pc_incr: 3, cycles: 4, mode: AddressingMode::AbsoluteY },
        0x7a => OpCode { code: 0x7a, mnemonic: Mnemonic::NOP, pc_incr: 1, cycles: 2, mode: AddressingMode::NoneAddressing },  // unofficial
        0x7b => OpCode { code: 0x7b, mnemonic: Mnemonic::RRA, pc_incr: 3, cycles: 7, mode: AddressingMode::AbsoluteY },  // unofficial
        0x7c => OpCode { code: 0x7c, mnemonic: Mnemonic::NOP, pc_incr: 3, cycles: 4, mode: AddressingMode::AbsoluteX },  // unofficial
        0x7d => OpCode { code: 0x7d, mnemonic: Mnemonic::ADC, pc_incr: 3, cycles: 4, mode: AddressingMode::AbsoluteX },
        0x7e => OpCode { code: 0x7e, mnemonic: Mnemonic::ROR, pc_incr: 3, cycles: 7, mode: AddressingMode::AbsoluteX },
        0x7f => OpCode { code: 0x7f, mnemonic: Mnemonic::RRA, pc_incr: 3, cycles: 7, mode: AddressingMode::AbsoluteX },  // unofficial
        0x80 => OpCode { code: 0x80, mnemonic: Mnemonic::NOP, pc_incr: 2, cycles: 2, mode: AddressingMode::Immediate },  // unofficial
        0x81 => OpCode { code: 0x81, mnemonic: Mnemonic::STA, pc_incr: 2, cycles: 6, mode: AddressingMode::IndirectX },
        0x82 => OpCode { code: 0x82, mnemonic: Mnemonic::NOP, pc_incr: 2, cycles: 2, mode: AddressingMode::Immediate },  // unofficial
        0x83 => OpCode { code: 0x83, mnemonic: Mnemonic::SAX, pc_incr: 2, cycles: 6, mode: AddressingMode::IndirectX },  // unofficial
        0x84 => OpCode { code: 0x84, mnemonic: Mnemonic::STY, pc_incr: 2, cycles: 3, mode: AddressingMode::ZeroPage },
        0x85 => OpCode { code: 0x85, mnemonic: Mnemonic::STA, pc_incr: 2, cycles: 3, mode: AddressingMode::ZeroPage },
        0x86 => OpCode { code: 0x86, mnemonic: Mnemonic::STX, pc_incr: 2, cycles: 3, mode: AddressingMode::ZeroPage },
        0x87 => OpCode { code: 0x87, mnemonic: Mnemonic::SAX, pc_incr: 2, cycles: 3, mode: AddressingMode::ZeroPage },  // unofficial
        0x88 => OpCode { code: 0x88, mnemonic: Mnemonic::DEY, pc_incr: 1, cycles: 2, mode: AddressingMode::NoneAddressing },
        0x89 => OpCode { code: 0x89, mnemonic: Mnemonic::NOP, pc_incr: 2, cycles: 2, mode: AddressingMode::Immediate },  // unofficial
        0x8a => OpCode { code: 0x8a, mnemonic: Mnemonic::TXA, pc_incr: 1, cycles: 2, mode: AddressingMode::NoneAddressing },
        0x8b => OpCode { code: 0x8b, mnemonic: Mnemonic::XAA, pc_incr: 2, cycles: 3, mode: AddressingMode::Immediate },  // unofficial
        0x8c => OpCode { code: 0x8c, mnemonic: Mnemonic::STY, pc_incr: 3, cycles: 4, mode: AddressingMode::Absolute },
        0x8d => OpCode { code: 0x8d, mnemonic: Mnemonic::STA, pc_incr: 3, cycles: 4, mode: AddressingMode::Absolute },
        0x8e => OpCode { code: 0x8e, mnemonic: Mnemonic::STX, pc_incr: 3, cycles: 4, mode: AddressingMode::Absolute },
        0x8f => OpCode { code: 0x8f, mnemonic: Mnemonic::SAX, pc_incr: 3, cycles: 4, mode: AddressingMode::Absolute },  // unofficial
        0x90 => OpCode { code: 0x90, mnemonic: Mnemonic::BCC, pc_incr: 2, cycles: 2, mode: AddressingMode::NoneAddressing },
        0x91 => OpCode { code: 0x91, mnemonic: Mnemonic::STA, pc_incr: 2, cycles: 6, mode: AddressingMode::IndirectY },
        0x92 => OpCode { code: 0x92, mnemonic: Mnemonic::NOP, pc_incr: 2, cycles: 2, mode: AddressingMode::Immediate },  // unofficial
        0x93 => OpCode { code: 0x93, mnemonic: Mnemonic::AHX, pc_incr: 2, cycles: 8, mode: AddressingMode::IndirectY },  // unofficial
        0x94 => OpCode { code: 0x94, mnemonic: Mnemonic::STY, pc_incr: 2, cycles: 4, mode: AddressingMode::ZeroPageX },
        0x95 => OpCode { code: 0x95, mnemonic: Mnemonic::STA, pc_incr: 2, cycles: 4, mode: AddressingMode::ZeroPageX },
        0x96 => OpCode { code: 0x96, mnemonic: Mnemonic::STX, pc_incr: 2, cycles: 4, mode: AddressingMode::ZeroPageY },
        0x97 => OpCode { code: 0x97, mnemonic: Mnemonic::SAX, pc_incr: 2, cycles: 4, mode: AddressingMode::ZeroPageY },  // unofficial
        0x98 => OpCode { code: 0x98, mnemonic: Mnemonic::TYA, pc_incr: 1, cycles: 2, mode: AddressingMode::NoneAddressing },
        0x99 => OpCode { code: 0x99, mnemonic: Mnemonic::STA, pc_incr: 3, cycles: 5, mode: AddressingMode::AbsoluteY },
        0x9a => OpCode { code: 0x9a, mnemonic: Mnemonic::TXS, pc_incr: 1, cycles: 2, mode: AddressingMode::NoneAddressing },
        0x9b => OpCode { code: 0x9b, mnemonic: Mnemonic::TAS, pc_incr: 3, cycles: 2, mode: AddressingMode::AbsoluteY },  // unofficial
        0x9c => OpCode { code: 0x9c, mnemonic: Mnemonic::SHY, pc_incr: 3, cycles: 4, mode: AddressingMode::AbsoluteX },  // unofficial
        0x9d => OpCode { code: 0x9d, mnemonic: Mnemonic::STA, pc_incr: 3, cycles: 5, mode: AddressingMode::AbsoluteX },
        0x9e => OpCode { code: 0x9e, mnemonic: Mnemonic::SHX, pc_incr: 3, cycles: 4, mode: AddressingMode::AbsoluteY },  // unofficial
        0x9f => OpCode { code: 0x9f, mnemonic: Mnemonic::AHX, pc_incr: 3, cycles: 4, mode: AddressingMode::AbsoluteY },  // unofficial
        0xa0 => OpCode { code: 0xa0, mnemonic: Mnemonic::LDY, pc_incr: 2, cycles: 2, mode: AddressingMode::Immediate },
        0xa1 => OpCode { code: 0xa1, mnemonic: Mnemonic::LDA, pc_incr: 2, cycles: 6, mode: AddressingMode::IndirectX },
        0xa2 => OpCode { code: 0xa2, mnemonic: Mnemonic::LDX, pc_incr: 2, cycles: 2, mode: AddressingMode::Immediate },
        0xa3 => OpCode { code: 0xa3, mnemonic: Mnemonic::LAX, pc_incr: 2, cycles: 6, mode: AddressingMode::IndirectX },  // unofficial
        0xa4 => OpCode { code: 0xa4, mnemonic: Mnemonic::LDY, pc_incr: 2, cycles: 3, mode: AddressingMode::ZeroPage },
        0xa5 => OpCode { code: 0xa5, mnemonic: Mnemonic::LDA, pc_incr: 2, cycles: 3, mode: AddressingMode::ZeroPage },
        0xa6 => OpCode { code: 0xa6, mnemonic: Mnemonic::LDX, pc_incr: 2, cycles: 3, mode: AddressingMode::ZeroPage },
        0xa7 => OpCode { code: 0xa7, mnemonic: Mnemonic::LAX, pc_incr: 2, cycles: 3, mode: AddressingMode::ZeroPage },  // unofficial
        0xa8 => OpCode { code: 0xa8, mnemonic: Mnemonic::TAY, pc_incr: 1, cycles: 2, mode: AddressingMode::NoneAddressing },
        0xa9 => OpCode { code: 0xa9, mnemonic: Mnemonic::LDA, pc_incr: 2, cycles: 2, mode: AddressingMode::Immediate },
        0xaa => OpCode { code: 0xaa, mnemonic: Mnemonic::TAX, pc_incr: 1, cycles: 2, mode: AddressingMode::NoneAddressing },
        0xab => OpCode { code: 0xab, mnemonic: Mnemonic::LXA, pc_incr: 2, cycles: 3, mode: AddressingMode::Immediate },  // unofficial
        0xac => OpCode { code: 0xac, mnemonic: Mnemonic::LDY, pc_incr: 3, cycles: 4, mode: AddressingMode::Absolute },
        0xad => OpCode { code: 0xad, mnemonic: Mnemonic::LDA, pc_incr: 3, cycles: 4, mode: AddressingMode::Absolute },
        0xae => OpCode { code: 0xae, mnemonic: Mnemonic::LDX, pc_incr: 3, cycles: 4, mode: AddressingMode::Absolute },
        0xaf => OpCode { code: 0xaf, mnemonic: Mnemonic::LAX, pc_incr: 3, cycles: 4, mode: AddressingMode::Absolute },  // unofficial
        0xb0 => OpCode { code: 0xb0, mnemonic: Mnemonic::BCS, pc_incr: 2, cycles: 2, mode: AddressingMode::NoneAddressing },
        0xb1 => OpCode { code: 0xb1, mnemonic: Mnemonic::LDA, pc_incr: 2, cycles: 5, mode: AddressingMode::IndirectY },
        0xb2 => OpCode { code: 0xb2, mnemonic: Mnemonic::NOP, pc_incr: 2, cycles: 2, mode: AddressingMode::Immediate },  // unofficial
        0xb3 => OpCode { code: 0xb3, mnemonic: Mnemonic::LAX, pc_incr: 2, cycles: 5, mode: AddressingMode::IndirectY },  // unofficial
        0xb4 => OpCode { code: 0xb4, mnemonic: Mnemonic::LDY, pc_incr: 2, cycles: 4, mode: AddressingMode::ZeroPageX },
        0xb5 => OpCode { code: 0xb5, mnemonic: Mnemonic::LDA, pc_incr: 2, cycles: 4, mode: AddressingMode::ZeroPageX },
        0xb6 => OpCode { code: 0xb6, mnemonic: Mnemonic::LDX, pc_incr: 2, cycles: 4, mode: AddressingMode::ZeroPageY },
        0xb7 => OpCode { code: 0xb7, mnemonic: Mnemonic::LAX, pc_incr: 2, cycles: 4, mode: AddressingMode::ZeroPageY },  // unofficial
        0xb8 => OpCode { code: 0xb8, mnemonic: Mnemonic::CLV, pc_incr: 1, cycles: 2, mode: AddressingMode::NoneAddressing },
        0xb9 => OpCode { code: 0xb9, mnemonic: Mnemonic::LDA, pc_incr: 3, cycles: 4, mode: AddressingMode::AbsoluteY },
        0xba => OpCode { code: 0xba, mnemonic: Mnemonic::TSX, pc_incr: 1, cycles: 2, mode: AddressingMode::NoneAddressing },
        0xbb => OpCode { code: 0xbb, mnemonic: Mnemonic::LAS, pc_incr: 3, cycles: 2, mode: AddressingMode::AbsoluteY },  // unofficial
        0xbc => OpCode { code: 0xbc, mnemonic: Mnemonic::LDY, pc_incr: 3, cycles: 4, mode: AddressingMode::AbsoluteX },
        0xbd => OpCode { code: 0xbd, mnemonic: Mnemonic::LDA, pc_incr: 3, cycles: 4, mode: AddressingMode::AbsoluteX },
        0xbe => OpCode { code: 0xbe, mnemonic: Mnemonic::LDX, pc_incr: 3, cycles: 4, mode: AddressingMode::AbsoluteY },
        0xbf => OpCode { code: 0xbf, mnemonic: Mnemonic::LAX, pc_incr: 3, cycles: 4, mode: AddressingMode::AbsoluteY },  // unofficial
        0xc0 => OpCode { code: 0xc0, mnemonic: Mnemonic::CPY, pc_incr: 2, cycles: 2, mode: AddressingMode::Immediate },
        0xc1 => OpCode { code: 0xc1, mnemonic: Mnemonic::CMP, pc_incr: 2, cycles: 6, mode: AddressingMode::IndirectX },
        0xc2 => OpCode { code: 0xc2, mnemonic: Mnemonic::NOP, pc_incr: 2, cycles: 2, mode: AddressingMode::Immediate },  // unofficial
        0xc3 => OpCode { code: 0xc3, mnemonic: Mnemonic::DCP, pc_incr: 2, cycles: 8, mode: AddressingMode::IndirectX },  // unofficial
        0xc4 => OpCode { code: 0xc4, mnemonic: Mnemonic::CPY, pc_incr: 2, cycles: 3, mode: AddressingMode::ZeroPage },
        0xc5 => OpCode { code: 0xc5, mnemonic: Mnemonic::CMP, pc_incr: 2, cycles: 3, mode: AddressingMode::ZeroPage },
        0xc6 => OpCode { code: 0xc6, mnemonic: Mnemonic::DEC, pc_incr: 2, cycles: 5, mode: AddressingMode::ZeroPage },
        0xc7 => OpCode { code: 0xc7, mnemonic: Mnemonic::DCP, pc_incr: 2, cycles: 5, mode: AddressingMode::ZeroPage },  // unofficial
        0xc8 => OpCode { code: 0xc8, mnemonic: Mnemonic::INY, pc_incr: 1, cycles: 2, mode: AddressingMode::NoneAddressing },
        0xc9 => OpCode { code: 0xc9, mnemonic: Mnemonic::CMP, pc_incr: 2, cycles: 2, mode: AddressingMode::Immediate },
        0xca => OpCode { code: 0xca, mnemonic: Mnemonic::DEX, pc_incr: 1, cycles: 2, mode: AddressingMode::NoneAddressing },
        0xcb => OpCode { code: 0xcb, mnemonic: Mnemonic::AXS, pc_incr: 2, cycles: 2, mode: AddressingMode::Immediate },  // unofficial
        0xcc => OpCode { code: 0xcc, mnemonic: Mnemonic::CPY, pc_incr: 3, cycles: 4, mode: AddressingMode::Absolute },
        0xcd => OpCode { code: 0xcd, mnemonic: Mnemonic::CMP, pc_incr: 3, cycles: 4, mode: AddressingMode::Absolute },
        0xce => OpCode { code: 0xce, mnemonic: Mnemonic::DEC, pc_incr: 3, cycles: 6, mode: AddressingMode::Absolute },
        0xcf => OpCode { code: 0xcf, mnemonic: Mnemonic::DCP, pc_incr: 3, cycles: 6, mode: AddressingMode::Absolute },  // unofficial
        0xd0 => OpCode { code: 0xd0, mnemonic: Mnemonic::BNE, pc_incr: 2, cycles: 2, mode: AddressingMode::NoneAddressing },
        0xd1 => OpCode { code: 0xd1, mnemonic: Mnemonic::CMP, pc_incr: 2, cycles: 5, mode: AddressingMode::IndirectY },
        0xd2 => OpCode { code: 0xd2, mnemonic: Mnemonic::NOP, pc_incr: 2, cycles: 2, mode: AddressingMode::Immediate },  // unofficial
        0xd3 => OpCode { code: 0xd3, mnemonic: Mnemonic::DCP, pc_incr: 2, cycles: 8, mode: AddressingMode::IndirectY },  // unofficial
        0xd4 => OpCode { code: 0xd4, mnemonic: Mnemonic::NOP, pc_incr: 2, cycles: 4, mode: AddressingMode::ZeroPageX },  // unofficial
        0xd5 => OpCode { code: 0xd5, mnemonic: Mnemonic::CMP, pc_incr: 2, cycles: 4, mode: AddressingMode::ZeroPageX },
        0xd6 => OpCode { code: 0xd6, mnemonic: Mnemonic::DEC, pc_incr: 2, cycles: 6, mode: AddressingMode::ZeroPageX },
        0xd7 => OpCode { code: 0xd7, mnemonic: Mnemonic::DCP, pc_incr: 2, cycles: 6, mode: AddressingMode::ZeroPageX },  // unofficial
        0xd8 => OpCode { code: 0xd8, mnemonic: Mnemonic::CLD, pc_incr: 1, cycles: 2, mode: AddressingMode::NoneAddressing },
        0xd9 => OpCode { code: 0xd9, mnemonic: Mnemonic::CMP, pc_incr: 3, cycles: 4, mode: AddressingMode::AbsoluteY },
        0xda => OpCode { code: 0xda, mnemonic: Mnemonic::NOP, pc_incr: 1, cycles: 2, mode: AddressingMode::NoneAddressing },  // unofficial
        0xdb => OpCode { code: 0xdb, mnemonic: Mnemonic::DCP, pc_incr: 3, cycles: 7, mode: AddressingMode::AbsoluteY },  // unofficial
        0xdc => OpCode { code: 0xdc, mnemonic: Mnemonic::NOP, pc_incr: 3, cycles: 4, mode: AddressingMode::AbsoluteX },  // unofficial
        0xdd => OpCode { code: 0xdd, mnemonic: Mnemonic::CMP, pc_incr: 3, cycles: 4, mode: AddressingMode::AbsoluteX },
        0xde => OpCode { code: 0xde, mnemonic: Mnemonic::DEC, pc_incr: 3, cycles: 7, mode: AddressingMode::AbsoluteX },
        0xdf => OpCode { code: 0xdf, mnemonic: Mnemonic::DCP, pc_incr: 3, cycles: 7, mode: AddressingMode::AbsoluteX },  // unofficial
        0xe0 => OpCode { code: 0xe0, mnemonic: Mnemonic::CPX, pc_incr: 2, cycles: 2, mode: AddressingMode::Immediate },
        0xe1 => OpCode { code: 0xe1, mnemonic: Mnemonic::SBC, pc_incr: 2, cycles: 6, mode: AddressingMode::IndirectX },
        0xe2 => OpCode { code: 0xe2, mnemonic: Mnemonic::NOP, pc_incr: 2, cycles: 2, mode: AddressingMode::Immediate },  // unofficial
        0xe3 => OpCode { code: 0xe3, mnemonic: Mnemonic::ISB, pc_incr: 2, cycles: 8, mode: AddressingMode::IndirectX },  // unofficial
        0xe4 => OpCode { code: 0xe4, mnemonic: Mnemonic::CPX, pc_incr: 2, cycles: 3, mode: AddressingMode::ZeroPage },
        0xe5 => OpCode { code: 0xe5, mnemonic: Mnemonic::SBC, pc_incr: 2, cycles: 3, mode: AddressingMode::ZeroPage },
        0xe6 => OpCode { code: 0xe6, mnemonic: Mnemonic::INC, pc_incr: 2, cycles: 5, mode: AddressingMode::ZeroPage },
        0xe7 => OpCode { code: 0xe7, mnemonic: Mnemonic::ISB, pc_incr: 2, cycles: 5, mode: AddressingMode::ZeroPage },  // unofficial
        0xe8 => OpCode { code: 0xe8, mnemonic: Mnemonic::INX, pc_incr: 1, cycles: 2, mode: AddressingMode::NoneAddressing },
        0xe9 => OpCode { code: 0xe9, mnemonic: Mnemonic::SBC, pc_incr: 2, cycles: 2, mode: AddressingMode::Immediate },
        0xea => OpCode { code: 0xea, mnemonic: Mnemonic::NOP, pc_incr: 1, cycles: 2, mode: AddressingMode::NoneAddressing },
        0xeb => OpCode { code: 0xeb, mnemonic: Mnemonic::SBC, pc_incr: 2, cycles: 2, mode: AddressingMode::Immediate },  // unofficial
        0xec => OpCode { code: 0xec, mnemonic: Mnemonic::CPX, pc_incr: 3, cycles: 4, mode: AddressingMode::Absolute },
        0xed => OpCode { code: 0xed, mnemonic: Mnemonic::SBC, pc_incr: 3, cycles: 4, mode: AddressingMode::Absolute },
        0xee => OpCode { code: 0xee, mnemonic: Mnemonic::INC, pc_incr: 3, cycles: 6, mode: AddressingMode::Absolute },
        0xef => OpCode { code: 0xef, mnemonic: Mnemonic::ISB, pc_incr: 3, cycles: 6, mode: AddressingMode::Absolute },  // unofficial
        0xf0 => OpCode { code: 0xf0, mnemonic: Mnemonic::BEQ, pc_incr: 2, cycles: 2, mode: AddressingMode::NoneAddressing },
        0xf1 => OpCode { code: 0xf1, mnemonic: Mnemonic::SBC, pc_incr: 2, cycles: 5, mode: AddressingMode::IndirectY },
        0xf2 => OpCode { code: 0xf2, mnemonic: Mnemonic::NOP, pc_incr: 2, cycles: 2, mode: AddressingMode::Immediate },  // unofficial
        0xf3 => OpCode { code: 0xf3, mnemonic: Mnemonic::ISB, pc_incr: 2, cycles: 8, mode: AddressingMode::IndirectY },  // unofficial
        0xf4 => OpCode { code: 0xf4, mnemonic: Mnemonic::NOP, pc_incr: 2, cycles: 4, mode: AddressingMode::ZeroPageX },  // unofficial
        0xf5 => OpCode { code: 0xf5, mnemonic: Mnemonic::SBC, pc_incr: 2, cycles: 4, mode: AddressingMode::ZeroPageX },
        0xf6 => OpCode { code: 0xf6, mnemonic: Mnemonic::INC, pc_incr: 2, cycles: 6, mode: AddressingMode::ZeroPageX },
        0xf7 => OpCode { code: 0xf7, mnemonic: Mnemonic::ISB, pc_incr: 2, cycles: 6, mode: AddressingMode::ZeroPageX },  // unofficial
        0xf8 => OpCode { code: 0xf8, mnemonic: Mnemonic::SED, pc_incr: 1, cycles: 2, mode: AddressingMode::NoneAddressing },
        0xf9 => OpCode { code: 0xf9, mnemonic: Mnemonic::SBC, pc_incr: 3, cycles: 4, mode: AddressingMode::AbsoluteY },
        0xfa => OpCode { code: 0xfa, mnemonic: Mnemonic::NOP, pc_incr: 1, cycles: 2, mode: AddressingMode::NoneAddressing },  // unofficial
        0xfb => OpCode { code: 0xfb, mnemonic: Mnemonic::ISB, pc_incr: 3, cycles: 7, mode: AddressingMode::AbsoluteY },  // unofficial
        0xfc => OpCode { code: 0xfc, mnemonic: Mnemonic::NOP, pc_incr: 3, cycles: 4, mode: AddressingMode::AbsoluteX },  // unofficial
        0xfd => OpCode { code: 0xfd, mnemonic: Mnemonic::SBC, pc_incr: 3, cycles: 4, mode: AddressingMode::AbsoluteX },
        0xfe => OpCode { code: 0xfe, mnemonic: Mnemonic::INC, pc_incr: 3, cycles: 7, mode: AddressingMode::AbsoluteX },
        0xff => OpCode { code: 0xff, mnemonic: Mnemonic::ISB, pc_incr: 3, cycles: 7, mode: AddressingMode::AbsoluteX },  // unofficial
    }
}

/// The instructions that always take an operand through their mode.
pub open spec fn takes_operand(op: OpCode) -> bool {
    op.mnemonic == Mnemonic::ADC || op.mnemonic == Mnemonic::AHX || op.mnemonic == Mnemonic::ALR || op.mnemonic == Mnemonic::ANC || op.mnemonic == Mnemonic::AND || op.mnemonic == Mnemonic::ARR || op.mnemonic == Mnemonic::AXS || op.mnemonic == Mnemonic::BIT || op.mnemonic == Mnemonic::CMP || op.mnemonic == Mnemonic::CPX || op.mnemonic == Mnemonic::CPY || op.mnemonic == Mnemonic::DCP || op.mnemonic == Mnemonic::DEC || op.mnemonic == Mnemonic::EOR || op.mnemonic == Mnemonic::INC || op.mnemonic == Mnemonic::ISB || op.mnemonic == Mnemonic::LAS || op.mnemonic == Mnemonic::LAX || op.mnemonic == Mnemonic::LDA || op.mnemonic == Mnemonic::LDX || op.mnemonic == Mnemonic::LDY || op.mnemonic == Mnemonic::LXA || op.mnemonic == Mnemonic::ORA || op.mnemonic == Mnemonic::RLA || op.mnemonic == Mnemonic::RRA || op.mnemonic == Mnemonic::SAX || op.mnemonic == Mnemonic::SBC || op.mnemonic == Mnemonic::SHX || op.mnemonic == Mnemonic::SHY || op.mnemonic == Mnemonic::SLO || op.mnemonic == Mnemonic::SRE || op.mnemonic == Mnemonic::STA || op.mnemonic == Mnemonic::STX || op.mnemonic == Mnemonic::STY || op.mnemonic == Mnemonic::TAS || op.mnemonic == Mnemonic::XAA
}

/// Facts about the whole table: lengths are 1 to 3 bytes, the entry of a
/// code carries that code, and instructions that take an operand have an
/// operand mode.
pub proof fn lemma_table(code: u8)
    ensures
        1 <= opcode_spec(code).pc_incr <= 3,
        opcode_spec(code).code == code,
        takes_operand(opcode_spec(code)) ==> opcode_spec(code).mode != AddressingMode::NoneAddressing,
{
}

/// The conditional branches.
pub open spec fn is_branch(m: Mnemonic) -> bool {
    m == Mnemonic::BNE || m == Mnemonic::BVS || m == Mnemonic::BVC || m == Mnemonic::BPL || m
        == Mnemonic::BMI || m == Mnemonic::BEQ || m == Mnemonic::BCS || m == Mnemonic::BCC
}

/// Branches are two bytes long and take two cycles before penalties.
pub proof fn lemma_branch_entries(code: u8)
    ensures
        is_branch(opcode_spec(code).mnemonic) ==> opcode_spec(code).pc_incr == 2
            && opcode_spec(code).cycles == 2,
{
}

} // verus!
