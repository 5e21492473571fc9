//! Gamepad buttons.
use vstd::prelude::*;

verus! {

/// A set of gamepad buttons, one bit each, in the order the controller
/// reports them (A first).
#[derive(Clone, Copy, Debug, PartialEq, Eq, Structural)]
pub struct JoypadButton {
    pub bits: u8,
}

impl JoypadButton {
    pub const BUTTON_A: u8 = 0b0000_0001;
    pub const BUTTON_B: u8 = 0b0000_0010;
    pub const SELECT: u8 = 0b0000_0100;
    pub const START: u8 = 0b0000_1000;
    pub const UP: u8 = 0b0001_0000;
    pub const DOWN: u8 = 0b0010_0000;
    pub const LEFT: u8 = 0b0100_0000;
    pub const RIGHT: u8 = 0b1000_0000;

    pub fn from_bits(bits: u8) -> (r: Self)
        ensures
            r.bits == bits,
    {
        JoypadButton { bits }
    }
}

} // verus!
