use vstd::prelude::*;

verus! {

/// Whether every bit of `mask` is set in `bits`.
pub open spec fn has_bits(bits: u8, mask: u8) -> bool {
    bits & mask == mask
}

/// `bits` with every bit of `mask` set when `on`, cleared otherwise.
pub open spec fn with_bits(bits: u8, mask: u8, on: bool) -> u8 {
    if on {
        bits | mask
    } else {
        bits & !mask
    }
}

/// The processor status register (P), one bit per flag:
///
/// ```text
///  7 6 5 4 3 2 1 0
///  N V _ B D I Z C
///  | |   | | | | +--- Carry Flag
///  | |   | | | +----- Zero Flag
///  | |   | | +------- Interrupt Disable
///  | |   | +--------- Decimal Mode (not used on NES)
///  | |   +----------- Break Command
///  | +--------------- Overflow Flag
///  +----------------- Negative Flag
/// ```
#[derive(Clone, Copy, Debug, PartialEq, Eq, Structural)]
pub struct StatusFlags {
    pub bits: u8,
}

impl StatusFlags {
    pub const CARRY: u8 = 0b0000_0001;
    pub const ZERO: u8 = 0b0000_0010;
    pub const INTERRUPT_DISABLE: u8 = 0b0000_0100;
    pub const DECIMAL_MODE: u8 = 0b0000_1000;
    pub const BREAK: u8 = 0b0001_0000;
    pub const BREAK2: u8 = 0b0010_0000;
    pub const OVERFLOW: u8 = 0b0100_0000;
    pub const NEGATIV: u8 = 0b1000_0000;

    /// Every bit of a `u8` names a flag, so nothing is truncated.
    pub fn from_bits_truncate(bits: u8) -> (r: Self)
        ensures
            r.bits == bits,
    {
        StatusFlags { bits }
    }

    pub fn bits(&self) -> (r: u8)
        ensures
            r == self.bits,
    {
        self.bits
    }

    pub fn contains(&self, mask: u8) -> (r: bool)
        ensures
            r == has_bits(self.bits, mask),
    {
        self.bits & mask == mask
    }

    pub fn insert(&mut self, mask: u8)
        ensures
            final(self).bits == with_bits(old(self).bits, mask, true),
    {
        self.bits = self.bits | mask;
    }

    pub fn remove(&mut self, mask: u8)
        ensures
            final(self).bits == with_bits(old(self).bits, mask, false),
    {
        self.bits = self.bits & !mask;
    }

    pub fn set(&mut self, mask: u8, on: bool)
        ensures
            final(self).bits == with_bits(old(self).bits, mask, on),
    {
        if on {
            self.insert(mask);
        } else {
            self.remove(mask);
        }
    }
}

/// Setting a single flag makes it read as set, clearing it makes it read as
/// clear, and every other flag keeps its value.
pub proof fn lemma_with_bits_single(bits: u8, mask: u8, other: u8, on: bool)
    by (bit_vector)
    requires
        mask == 1 || mask == 2 || mask == 4 || mask == 8 || mask == 16 || mask == 32 || mask
            == 64 || mask == 128,
        other == 1 || other == 2 || other == 4 || other == 8 || other == 16 || other == 32
            || other == 64 || other == 128,
        other != mask,
    ensures
        has_bits(with_bits(bits, mask, on), mask) == on,
        has_bits(with_bits(bits, mask, on), other) == has_bits(bits, other),
{
}

} // verus!
