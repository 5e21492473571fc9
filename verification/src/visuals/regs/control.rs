//! The PPU control register (PPUCTRL, 0x2000).
use vstd::prelude::*;

use crate::proc::flags::has_bits;

verus! {

/// ```text
/// 7  bit  0
/// ---- ----
/// VPHB SINN
/// |||| ||||
/// |||| ||++- Base nametable address (0 = 0x2000, 1 = 0x2400, 2 = 0x2800, 3 = 0x2C00)
/// |||| |+--- VRAM address increment per CPU access of PPUDATA (0: add 1; 1: add 32)
/// |||| +---- Sprite pattern table address for 8x8 sprites (0: 0x0000; 1: 0x1000)
/// |||+------ Background pattern table address (0: 0x0000; 1: 0x1000)
/// ||+------- Sprite size (0: 8x8 pixels; 1: 8x16 pixels)
/// |+-------- PPU master/slave select
/// +--------- Generate an NMI at the start of vertical blanking
/// ```
#[derive(Clone, Copy, Debug, PartialEq, Eq, Structural)]
pub struct ControlRegister {
    pub bits: u8,
}

impl ControlRegister {
    pub const NAMETABLE_1: u8 = 0b0000_0001;
    pub const NAMETABLE_2: u8 = 0b0000_0010;
    pub const VRAM_ADDR_INCREMENT: u8 = 0b0000_0100;
    pub const SPRITE_PATTERN_ADDR: u8 = 0b0000_1000;
    pub const BG_PATTERN_ADDR: u8 = 0b0001_0000;
    pub const SPRITE_SIZE: u8 = 0b0010_0000;
    pub const PPU_MASTER_SLAVE_SELECT: u8 = 0b0100_0000;
    pub const GEN_NMI: u8 = 0b1000_0000;

    pub open spec fn flag(self, mask: u8) -> bool {
        has_bits(self.bits, mask)
    }

    pub fn new() -> (r: Self)
        ensures
            r.bits == 0,
    {
        ControlRegister { bits: 0b00000000 }
    }

    pub fn contains(&self, mask: u8) -> (r: bool)
        ensures
            r == self.flag(mask),
    {
        self.bits & mask == mask
    }

    pub fn bits(&self) -> (r: u8)
        ensures
            r == self.bits,
    {
        self.bits
    }

    /// How far PPUDATA accesses move the VRAM address: 1, or 32 (a row).
    pub fn vram_addr_increment(&self) -> (r: u8)
        ensures
            r == if self.flag(Self::VRAM_ADDR_INCREMENT) {
                32u8
            } else {
                1u8
            },
    {
        if !self.contains(ControlRegister::VRAM_ADDR_INCREMENT) {
            1
        } else {
            32
        }
    }

    /// Replaces the whole register with `data`.
    pub fn update(&mut self, data: u8)
        ensures
            final(self).bits == data,
    {
        self.bits = data;
    }

    /// 0x2000, 0x2400, 0x2800 or 0x2C00, by the two low bits.
    pub fn nametable_addr(&self) -> (r: u16)
        ensures
            r == 0x2000 + 0x400 * (self.bits % 4),
    {
        let bits = self.bits;
        assert(bits & 0b11 == bits % 4) by (bit_vector);
        match bits & 0b11 {
            0 => 0x2000,
            1 => 0x2400,
            2 => 0x2800,
            // the mask leaves 3 as the only other value
            _ => 0x2c00,
        }
    }

    pub fn sprite_pattern_addr(&self) -> (r: u16)
        ensures
            r == if self.flag(Self::SPRITE_PATTERN_ADDR) {
                0x1000u16
            } else {
                0u16
            },
    {
        if self.contains(ControlRegister::SPRITE_PATTERN_ADDR) {
            0x1000
        } else {
            0
        }
    }

    pub fn bg_pattern_addr(&self) -> (r: u16)
        ensures
            r == if self.flag(Self::BG_PATTERN_ADDR) {
                0x1000u16
            } else {
                0u16
            },
    {
        if self.contains(ControlRegister::BG_PATTERN_ADDR) {
            0x1000
        } else {
            0
        }
    }

    /// Sprite width and height in pixels.
    pub fn sprite_size(&self) -> (r: (u8, u8))
        ensures
            r == if self.flag(Self::SPRITE_SIZE) {
                (8u8, 16u8)
            } else {
                (8u8, 8u8)
            },
    {
        if self.contains(ControlRegister::SPRITE_SIZE) {
            (8, 16)
        } else {
            (8, 8)
        }
    }

    pub fn gen_nmi(&self) -> (r: bool)
        ensures
            r == self.flag(Self::GEN_NMI),
    {
        self.contains(ControlRegister::GEN_NMI)
    }

    pub fn master_slave_select(&self) -> (r: u8)
        ensures
            r == if self.flag(Self::PPU_MASTER_SLAVE_SELECT) {
                1u8
            } else {
                0u8
            },
    {
        if self.contains(ControlRegister::PPU_MASTER_SLAVE_SELECT) {
            1
        } else {
            0
        }
    }
}

} // verus!
