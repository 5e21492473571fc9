use nest::mem::rom::test::test_rom;
use nest::mem::rom::{Mirroring, Rom, PRG_PAGE_SIZE};
use nest::proc::bus::Bus;
use nest::proc::Mem;

#[test]
fn ram_is_mirrored_every_2k() {
    let mut bus = Bus::new(test_rom(vec![]));
    bus.mem_write(0x0001, 0xab);
    assert_eq!(bus.mem_read(0x0801), 0xab);
    assert_eq!(bus.mem_read(0x1801), 0xab);
    bus.mem_write(0x1fff, 0x11);
    assert_eq!(bus.mem_read(0x07ff), 0x11);
}

#[test]
fn writes_outside_ram_are_dropped() {
    let mut bus = Bus::new(test_rom(vec![0x42]));
    bus.mem_write(0x8000, 0x99);
    assert_eq!(bus.mem_read(0x8000), 0x42);
    bus.mem_write(0x2000, 0x99);
    assert_eq!(bus.mem_read(0x2000), 0);
    bus.mem_write(0x5000, 0x99);
    assert_eq!(bus.mem_read(0x5000), 0);
}

#[test]
fn single_prg_bank_is_mirrored() {
    let mut prg = vec![0u8; PRG_PAGE_SIZE];
    prg[0x10] = 0x5a;
    let rom = Rom { mirroring: Mirroring::Horizontal, mapper: 0, prg_rom: prg, chr_rom: vec![] };
    let mut bus = Bus::new(rom);
    assert_eq!(bus.mem_read(0x8010), 0x5a);
    assert_eq!(bus.mem_read(0xc010), 0x5a);
}

#[test]
fn words_are_little_endian() {
    let mut bus = Bus::new(test_rom(vec![]));
    bus.mem_write_u16(0x0010, 0x1234);
    assert_eq!(bus.mem_read(0x0010), 0x34);
    assert_eq!(bus.mem_read(0x0011), 0x12);
    assert_eq!(bus.mem_read_u16(0x0010), 0x1234);
}

#[test]
fn tick_counts_cycles_and_nmi_is_taken_once() {
    let mut bus = Bus::new(test_rom(vec![]));
    bus.tick(3);
    bus.tick(4);
    assert_eq!(bus.cycles, 7);
    bus.nmi_interrupt = Some(1);
    assert_eq!(bus.poll_nmi_status(), Some(1));
    assert_eq!(bus.poll_nmi_status(), None);
}

#[test]
fn new_bus_has_zeroed_ram() {
    let bus = Bus::new(test_rom(vec![]));
    assert!(bus.vram.iter().all(|&b| b == 0));
    assert_eq!(bus.cycles, 0);
}
