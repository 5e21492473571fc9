//! Everything about addressing mode
use vstd::prelude::*;

verus! {

/// How an instruction finds its operand. No opcode occupies more than 3
/// bytes: an instruction is 1, 2 or 3 bytes long.
#[derive(Clone, Copy, Debug, PartialEq, Eq, Structural)]
pub enum AddressingMode {
    Immediate,
    ZeroPage,
    ZeroPageX,
    ZeroPageY,
    Absolute,
    AbsoluteX,
    AbsoluteY,
    IndirectX,
    IndirectY,
    NoneAddressing,
}

/// Modes whose operand sits in memory, reached from an address operand.
pub open spec fn is_memory_mode(mode: AddressingMode) -> bool {
    mode != AddressingMode::Immediate && mode != AddressingMode::NoneAddressing
}

/// Modes that name an operand at all.
pub open spec fn has_operand(mode: AddressingMode) -> bool {
    mode != AddressingMode::NoneAddressing
}

} // verus!
