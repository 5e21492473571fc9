//! A 6502 CPU and NES cartridge loader with verified contracts.

pub mod joypad;
pub mod mem;
pub mod proc;
pub mod visuals;
