//! Address, control and data buses.
use vstd::prelude::*;

use super::{Mem, word, wrap16};
use crate::mem::rom::{Rom, PRG_PAGE_SIZE};

verus! {

pub const RAM: u16 = 0x0000;

pub const RAM_MIRRORING_END: u16 = 0x1FFF;

pub const PPU_REGISTERS: u16 = 0x2000;

pub const PPU_REGISTERS_MIRRORING_END: u16 = 0x3FFF;

pub const PRG_ROM: u16 = 0x8000;

pub const PRG_ROM_END: u16 = 0xFFFF;

/// Size of the CPU's internal RAM; it is mirrored over `0x0000..=0x1FFF`.
pub const RAM_SIZE: usize = 2048;

pub struct Bus {
    /// The CPU's 2 KiB of RAM; the bus has 11 address lines for it.
    pub vram: [u8; 2048],
    pub rom: Rom,
    /// CPU cycles counted so far (wrapping).
    pub cycles: usize,
    /// A non-maskable interrupt waiting to be served.
    pub nmi_interrupt: Option<u8>,
}

/// The PRG ROM byte seen at `addr` (in `0x8000..=0xFFFF`); a single 16 KiB
/// bank is mirrored into both halves of the window.
pub open spec fn prg_byte(prg: Seq<u8>, addr: u16) -> u8 {
    let offset = addr - 0x8000;
    if prg.len() == PRG_PAGE_SIZE && offset >= PRG_PAGE_SIZE {
        prg[offset - PRG_PAGE_SIZE]
    } else {
        prg[offset]
    }
}

/// The bus serves `addr`: the PPU registers, 0x2000..=0x3FFF, are not
/// emulated, and no read or write may reach them.
pub open spec fn mapped(addr: u16) -> bool {
    addr < PPU_REGISTERS || addr > PPU_REGISTERS_MIRRORING_END
}

/// The bus serves both bytes of the word at `addr` (the second one wrapping).
pub open spec fn word_mapped(addr: u16) -> bool {
    mapped(addr) && mapped(wrap16(addr + 1))
}

/// Whether the bus serves `addr`.
pub fn is_mapped(addr: u16) -> (r: bool)
    ensures
        r == mapped(addr),
{
    addr < PPU_REGISTERS || addr > PPU_REGISTERS_MIRRORING_END
}

/// Whether the bus serves both bytes of the word at `addr`.
pub fn word_is_mapped(addr: u16) -> (r: bool)
    ensures
        r == word_mapped(addr),
{
    proof {
        super::lemma_wrapping_add_u16(addr, 1);
    }
    is_mapped(addr) && is_mapped(addr.wrapping_add(1))
}

/// `c + n`, wrapping around at `usize::MAX + 1`.
pub open spec fn add_cycles(c: usize, n: u8) -> usize {
    if c + n > usize::MAX {
        (c + n - usize::MAX - 1) as usize
    } else {
        (c + n) as usize
    }
}

impl Bus {
    /// The PRG ROM is one mirrored bank or fills the whole window.
    pub open spec fn wf(&self) -> bool {
        self.rom.prg_rom@.len() == PRG_PAGE_SIZE || self.rom.prg_rom@.len() >= 0x8000
    }

    /// What a read of `addr` gives: RAM (mirrored every 2 KiB) or PRG ROM.
    /// The APU and gamepad ports and cartridge RAM (0x4000..=0x7FFF) are not
    /// connected, and a read there gives 0. The PPU registers
    /// (0x2000..=0x3FFF) are not `mapped`: `mem_read` refuses them, and the
    /// value given here for them is never read.
    pub open spec fn read_spec(&self, addr: u16) -> u8 {
        if addr <= RAM_MIRRORING_END {
            self.vram@[(addr as int) % (RAM_SIZE as int)]
        } else if addr >= PRG_ROM {
            prg_byte(self.rom.prg_rom@, addr)
        } else {
            0
        }
    }

    /// A write lands in RAM (mirrored every 2 KiB). PRG ROM is read-only, and
    /// nothing is connected to 0x4000..=0x7FFF (APU and gamepad ports,
    /// cartridge RAM): such writes are dropped. `mem_write` refuses the PPU
    /// registers (0x2000..=0x3FFF).
    pub open spec fn write_spec(self, addr: u16, data: u8) -> Bus {
        if addr <= RAM_MIRRORING_END {
            Bus { vram: vstd::array::spec_array_update(self.vram, (addr as int) % (RAM_SIZE as int), data), ..self }
        } else {
            self
        }
    }

    pub open spec fn tick_spec(self, cycles: u8) -> Bus {
        Bus { cycles: add_cycles(self.cycles, cycles), ..self }
    }

    pub fn new(rom: Rom) -> (r: Self)
        ensures
            r.vram@ == Seq::new(RAM_SIZE as nat, |i: int| 0u8),
            r.rom == rom,
            r.cycles == 0,
            r.nmi_interrupt.is_none(),
    {
        Bus { vram: [0;2048], rom, cycles: 0, nmi_interrupt: None }
    }

    /// Whether the PRG ROM can serve every address of its window.
    pub fn prg_window_filled(&self) -> (r: bool)
        ensures
            r == self.wf(),
    {
        self.rom.prg_rom.len() == PRG_PAGE_SIZE || self.rom.prg_rom.len() >= 0x8000
    }

    fn read_prg_rom(&self, addr: u16) -> (r: u8)
        requires
            self.wf(),
            addr >= PRG_ROM,
        ensures
            r == prg_byte(self.rom.prg_rom@, addr),
    {
        let mut addr = addr - PRG_ROM;
        if self.rom.prg_rom.len() == PRG_PAGE_SIZE && addr >= 0x4000 {
            // mirror the single bank
            addr = addr % 0x4000;
        }
        self.rom.prg_rom[addr as usize]
    }

    /// Counts `cycles` more CPU cycles.
    pub fn tick(&mut self, cycles: u8)
        ensures
            *final(self) == old(self).tick_spec(cycles),
    {
        self.cycles = self.cycles.wrapping_add(cycles as usize);
    }

    /// Takes the pending non-maskable interrupt, if any.
    pub fn poll_nmi_status(&mut self) -> (r: Option<u8>)
        ensures
            r == old(self).nmi_interrupt,
            *final(self) == (Bus { nmi_interrupt: None, ..*old(self) }),
    {
        self.nmi_interrupt.take()
    }
}

proof fn lemma_ram_mask(addr: u16)
    by (bit_vector)
    requires
        addr <= 0x1FFF,
    ensures
        addr & 0b111_1111_1111 == addr % 2048,
{
}

impl Mem for Bus {
    open spec fn mem_wf(&self) -> bool {
        self.wf()
    }

    open spec fn read_byte(&self, addr: u16) -> u8 {
        self.read_spec(addr)
    }

    open spec fn write_byte(self, addr: u16, data: u8) -> Bus {
        self.write_spec(addr, data)
    }

    fn mem_read(&mut self, addr: u16) -> (r: u8) {
        if addr <= RAM_MIRRORING_END {
            let mirror_down_addr = addr & 0b111_1111_1111;  // 11 bits only
            proof {
                lemma_ram_mask(addr);
            }
            self.vram[mirror_down_addr as usize]
        } else if addr >= PRG_ROM {
            self.read_prg_rom(addr)
        } else {
            // APU and gamepad ports, cartridge RAM: not connected
            0
        }
    }

    fn mem_write(&mut self, addr: u16, data: u8) {
        if addr <= RAM_MIRRORING_END {
            let mirror_down_addr = addr & 0b111_1111_1111;
            proof {
                lemma_ram_mask(addr);
            }
            self.vram[mirror_down_addr as usize] = data;
        } else {
            // PRG ROM is read-only; 0x4000..=0x7FFF is not connected
        }
    }
}

/// RAM is mirrored every 2 KiB over 0x0000..=0x1FFF.
pub proof fn lemma_ram_mirroring(bus: Bus, addr: u16)
    requires
        addr <= RAM_MIRRORING_END,
    ensures
        bus.read_spec(addr) == bus.read_spec((addr % 2048) as u16),
{
}

/// A read of a RAM address gives back what was just written there.
pub proof fn lemma_read_after_write(bus: Bus, addr: u16, data: u8)
    requires
        addr <= RAM_MIRRORING_END,
    ensures
        bus.write_spec(addr, data).read_spec(addr) == data,
{
    vstd::array::lemma_array_index(bus.vram, 0);
}

/// A write leaves every address that does not share its RAM cell as it was;
/// writes outside RAM change nothing.
pub proof fn lemma_write_keeps_others(bus: Bus, addr: u16, other: u16, data: u8)
    requires
        !(addr <= RAM_MIRRORING_END && other <= RAM_MIRRORING_END && addr % 2048 == other % 2048),
    ensures
        bus.write_spec(addr, data).read_spec(other) == bus.read_spec(other),
{
    vstd::array::lemma_array_index(bus.vram, 0);
}

/// Writes never touch the ROM, so a well-formed bus stays well-formed.
pub proof fn lemma_write_keeps_rom(bus: Bus, addr: u16, data: u8)
    ensures
        bus.write_spec(addr, data).rom == bus.rom,
        bus.tick_spec(data).rom == bus.rom,
{
}

/// `mem_write_u16` then `mem_read_u16` at a RAM address gives the word back.
pub proof fn lemma_word_round_trip(bus: Bus, pos: u16, data: u16)
    requires
        pos < RAM_MIRRORING_END,
    ensures
        ({
            let written = bus.write_byte(pos, (data % 256) as u8).write_byte(
                wrap16(pos + 1),
                (data / 256) as u8,
            );
            word(written.read_byte(pos), written.read_byte(wrap16(pos + 1))) == data
        }),
{
    let b1 = bus.write_spec(pos, (data % 256) as u8);
    lemma_read_after_write(bus, pos, (data % 256) as u8);
    lemma_write_keeps_others(b1, wrap16(pos + 1), pos, (data / 256) as u8);
    lemma_read_after_write(b1, wrap16(pos + 1), (data / 256) as u8);
}

/// A single 16 KiB PRG bank shows in both halves of 0x8000..=0xFFFF.
pub proof fn lemma_prg_bank_mirroring(bus: Bus, addr: u16)
    requires
        bus.rom.prg_rom@.len() == PRG_PAGE_SIZE,
        addr >= 0xC000,
    ensures
        bus.read_spec(addr) == bus.read_spec((addr - 0x4000) as u16),
{
}

} // verus!
