//! The PPU mask register (PPUMASK, 0x2001).
use vstd::prelude::*;

use crate::proc::flags::has_bits;

verus! {

/// ```text
/// 7  bit  0
/// ---- ----
/// BGRs bMmG
/// |||| ||||
/// |||| |||+- Greyscale (0: normal color, 1: greyscale)
/// |||| ||+-- 1: Show background in leftmost 8 pixels of screen, 0: Hide
/// |||| |+--- 1: Show sprites in leftmost 8 pixels of screen, 0: Hide
/// |||| +---- 1: Enable background rendering
/// |||+------ 1: Enable sprite rendering
/// ||+------- Emphasize red (green on PAL/Dendy)
/// |+-------- Emphasize green (red on PAL/Dendy)
/// +--------- Emphasize blue
/// ```
#[derive(Clone, Copy, Debug, PartialEq, Eq, Structural)]
pub struct MaskRegister {
    pub bits: u8,
}

#[derive(Clone, Copy, Debug, PartialEq, Eq, Structural)]
pub enum Color {
    Red,
    Green,
    Blue,
}

/// The emphasized colors, in the order red, green, blue.
pub open spec fn emphasized(red: bool, green: bool, blue: bool) -> Seq<Color> {
    (if red {
        seq![Color::Red]
    } else {
        Seq::empty()
    }) + (if green {
        seq![Color::Green]
    } else {
        Seq::empty()
    }) + (if blue {
        seq![Color::Blue]
    } else {
        Seq::empty()
    })
}

impl MaskRegister {
    pub const GREYSCALE: u8 = 0b0000_0001;
    pub const SHOW_BG_8_LEFTMOST_PX: u8 = 0b0000_0010;
    pub const SHOW_SPRT_8_LEFTMOST_PX: u8 = 0b0000_0100;
    pub const BG_RENDERING: u8 = 0b0000_1000;
    pub const SPRT_RENDERING: u8 = 0b0001_0000;
    pub const EMPH_RED: u8 = 0b0010_0000;
    pub const EMPH_GREEN: u8 = 0b0100_0000;
    pub const EMPH_BLUE: u8 = 0b1000_0000;

    pub open spec fn flag(self, mask: u8) -> bool {
        has_bits(self.bits, mask)
    }

    pub fn new() -> (r: Self)
        ensures
            r.bits == 0,
    {
        MaskRegister { bits: 0b00000000 }
    }

    pub fn contains(&self, mask: u8) -> (r: bool)
        ensures
            r == self.flag(mask),
    {
        self.bits & mask == mask
    }

    pub fn bits(&self) -> (r: u8)
        ensures
            r == self.bits,
    {
        self.bits
    }

    /// Greyscale; otherwise normal color.
    pub fn is_greyscale(&self) -> (r: bool)
        ensures
            r == self.flag(Self::GREYSCALE),
    {
        self.contains(MaskRegister::GREYSCALE)
    }

    pub fn leftmost_8px_bg(&self) -> (r: bool)
        ensures
            r == self.flag(Self::SHOW_BG_8_LEFTMOST_PX),
    {
        self.contains(MaskRegister::SHOW_BG_8_LEFTMOST_PX)
    }

    pub fn leftmost_8px_sprt(&self) -> (r: bool)
        ensures
            r == self.flag(Self::SHOW_SPRT_8_LEFTMOST_PX),
    {
        self.contains(MaskRegister::SHOW_SPRT_8_LEFTMOST_PX)
    }

    pub fn bg_rendering(&self) -> (r: bool)
        ensures
            r == self.flag(Self::BG_RENDERING),
    {
        self.contains(MaskRegister::BG_RENDERING)
    }

    pub fn sprt_rendering(&self) -> (r: bool)
        ensures
            r == self.flag(Self::SPRT_RENDERING),
    {
        self.contains(MaskRegister::SPRT_RENDERING)
    }

    /// The emphasized colors, red first, then green, then blue.
    pub fn emphasize(&self) -> (r: Vec<Color>)
        ensures
            r@ == emphasized(
                self.flag(Self::EMPH_RED),
                self.flag(Self::EMPH_GREEN),
                self.flag(Self::EMPH_BLUE),
            ),
    {
        let mut colors = vec![];

        if self.contains(MaskRegister::EMPH_RED) {
            colors.push(Color::Red);
        }
        if self.contains(MaskRegister::EMPH_GREEN) {
            colors.push(Color::Green);
        }
        if self.contains(MaskRegister::EMPH_BLUE) {
            colors.push(Color::Blue);
        }
        assert(colors@ =~= emphasized(
            self.flag(Self::EMPH_RED),
            self.flag(Self::EMPH_GREEN),
            self.flag(Self::EMPH_BLUE),
        ));
        colors
    }

    /// Replaces the whole register with `data`.
    pub fn update(&mut self, data: u8)
        ensures
            final(self).bits == data,
    {
        self.bits = data;
    }
}

} // verus!
