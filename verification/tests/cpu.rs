use nest::mem::rom::test::test_rom;
use nest::proc::bus::Bus;
use nest::proc::flags::StatusFlags;
use nest::proc::{CPU, STACK_RESET};

#[test]
fn test_0xa9_lda_immediate_load_data() {
    let bus = Bus::new(test_rom(vec![0xa9, 0x05, 0x00]));
    let mut cpu = CPU::new(bus);
    cpu.run();
    assert_eq!(cpu.register_a, 0x05);
    assert!(cpu.status.bits() & 0b0000_0010 == 0);
    assert!(cpu.status.bits() & 0b1000_0000 == 0);
}

#[test]
fn test_0xaa_tax() {
    let bus = Bus::new(test_rom(vec![0xa9, 0x05, 0xaa, 0x00]));
    let mut cpu = CPU::new(bus);
    cpu.run();
    assert_eq!(cpu.register_x, 0x05);
}

#[test]
fn test_0xa8_tay() {
    let bus = Bus::new(test_rom(vec![0xa9, 0x05, 0xa8, 0x00]));
    let mut cpu = CPU::new(bus);

    cpu.run();
    assert_eq!(cpu.register_y, 0x05);
}

#[test]
fn test_0x8a_txa() {
    let bus = Bus::new(test_rom(vec![0xa2, 0x05, 0x8a, 0x00]));
    let mut cpu = CPU::new(bus);
    cpu.run();
    assert_eq!(cpu.register_a, 0x05);
}

#[test]
fn test_0x98_tya() {
    let bus = Bus::new(test_rom(vec![0xa0, 0x05, 0x98, 0x00]));
    let mut cpu = CPU::new(bus);
    cpu.run();
    assert_eq!(cpu.register_a, 0x05);
}

#[test]
fn test_0xe8_inx() {
    let bus = Bus::new(test_rom(vec![0xa2, 0x05, 0xe8, 0x00]));
    let mut cpu = CPU::new(bus);
    cpu.run();
    assert_eq!(cpu.register_x, 0x06);
}

#[test]
fn test_0xc8_iny() {
    let bus = Bus::new(test_rom(vec![0xa0, 0x05, 0xc8, 0x00]));
    let mut cpu = CPU::new(bus);
    cpu.run();
    assert_eq!(cpu.register_y, 0x06);
}

#[test]
fn test_0xca_dex() {
    let bus = Bus::new(test_rom(vec![0xa2, 0x05, 0xca, 0x00]));
    let mut cpu = CPU::new(bus);
    cpu.run();
    assert_eq!(cpu.register_x, 0x04);
}

#[test]
fn test_0x88_dey() {
    let bus = Bus::new(test_rom(vec![0xa0, 0x05, 0x88, 0x00]));
    let mut cpu = CPU::new(bus);
    cpu.run();
    assert_eq!(cpu.register_y, 0x04);
}

#[test]
fn test_0x0a_asl_accumulator() {
    let bus = Bus::new(test_rom(vec![0xa9, 0x05, 0x0a, 0x00]));
    let mut cpu = CPU::new(bus);
    cpu.run();
    assert_eq!(cpu.register_a, 0x0a);
}

#[test]
fn test_0x4a_lsr_accumulator() {
    let bus = Bus::new(test_rom(vec![0xa9, 0x0a, 0x4a, 0x00]));
    let mut cpu = CPU::new(bus);
    cpu.run();
    assert_eq!(cpu.register_a, 0x05);
}

#[test]
fn test_0x2a_rol_accumulator() {
    let bus = Bus::new(test_rom(vec![0xa9, 0x80, 0x2a, 0x00]));
    let mut cpu = CPU::new(bus);
    cpu.run();
    assert_eq!(cpu.register_a, 0x00);
    assert!(cpu.status.contains(StatusFlags::CARRY));
}

#[test]
fn test_0x29_and_immediate() {
    let bus = Bus::new(
        test_rom(vec![0xa9, 0x0f, 0x29, 0x03, 0x00]));
    let mut cpu = CPU::new(bus);
    cpu.run();
    assert_eq!(cpu.register_a, 0x03);
}

#[test]
fn test_0x09_ora_immediate() {
    let bus = Bus::new(
        test_rom(vec![0xa9, 0x0f, 0x09, 0x30, 0x00]));
    let mut cpu = CPU::new(bus);

    cpu.run();
    assert_eq!(cpu.register_a, 0x3f);
}

#[test]
fn test_0x49_eor_immediate() {
    let bus = Bus::new(
        test_rom(vec![0xa9, 0x0f, 0x49, 0x03, 0x00]));
    let mut cpu = CPU::new(bus);
    cpu.run();
    assert_eq!(cpu.register_a, 0x0c);
}

#[test]
fn test_0x69_adc_immediate() {
    let bus = Bus::new(
        test_rom(vec![0xa9, 0x05, 0x69, 0x03, 0x00]));
    let mut cpu = CPU::new(bus);

    cpu.run();
    assert_eq!(cpu.register_a, 0x08);
}

#[test]
fn test_0xc9_cmp_immediate() {
    let bus = Bus::new(
        test_rom(vec![0xa9, 0x05, 0xc9, 0x05, 0x00]));
    let mut cpu = CPU::new(bus);
    cpu.run();
    assert!(cpu.status.contains(StatusFlags::CARRY));
    assert!(cpu.status.contains(StatusFlags::ZERO));
}

#[test]
fn test_0xe0_cpx_immediate() {
    let bus = Bus::new(
        test_rom(vec![0xa2, 0x05, 0xe0, 0x05, 0x00]));
    let mut cpu = CPU::new(bus);
    cpu.run();
    assert!(cpu.status.contains(StatusFlags::CARRY));
    assert!(cpu.status.contains(StatusFlags::ZERO));
}

#[test]
fn test_0xc0_cpy_immediate() {
    let bus = Bus::new(
        test_rom(vec![0xa0, 0x05, 0xc0, 0x05, 0x00]));
    let mut cpu = CPU::new(bus);
    cpu.run();
    assert!(cpu.status.contains(StatusFlags::CARRY));
    assert!(cpu.status.contains(StatusFlags::ZERO));
}

#[test]
fn test_0x18_clc() {
    let bus = Bus::new(test_rom(vec![0x38, 0x18, 0x00]));
    let mut cpu = CPU::new(bus);
    cpu.run();
    assert!(!cpu.status.contains(StatusFlags::CARRY));
}

#[test]
fn test_0x38_sec() {
    let bus = Bus::new(test_rom(vec![0x38, 0x00]));
    let mut cpu = CPU::new(bus);
    cpu.run();
    assert!(cpu.status.contains(StatusFlags::CARRY));
}

#[test]
fn test_0xd8_cld() {
    let bus = Bus::new(test_rom(vec![0xf8, 0xd8, 0x00]));
    let mut cpu = CPU::new(bus);
    cpu.run();
    assert!(!cpu.status.contains(StatusFlags::DECIMAL_MODE));
}

#[test]
fn test_0xf8_sed() {
    let bus = Bus::new(test_rom(vec![0xf8, 0x00]));

    let mut cpu = CPU::new(bus);
    cpu.run();
    assert!(cpu.status.contains(StatusFlags::DECIMAL_MODE));
}

#[test]
fn test_0x58_cli() {
    let bus = Bus::new(test_rom(vec![0x58, 0x00]));
    let mut cpu = CPU::new(bus);
    cpu.run();
    assert!(!cpu.status.contains(StatusFlags::INTERRUPT_DISABLE));
}

#[test]
fn test_0x78_sei() {
    let bus = Bus::new(test_rom(vec![0x78, 0x00]));
    let mut cpu = CPU::new(bus);
    cpu.run();
    assert!(cpu.status.contains(StatusFlags::INTERRUPT_DISABLE));
}

#[test]
fn test_0xb8_clv() {
    let bus = Bus::new(test_rom(vec![0xb8, 0x00]));
    let mut cpu = CPU::new(bus);
    cpu.run();
    assert!(!cpu.status.contains(StatusFlags::OVERFLOW));
}

#[test]
fn test_0xea_nop() {
    let bus = Bus::new(test_rom(vec![0xa9, 0x05, 0xea, 0x00]));
    let mut cpu = CPU::new(bus);

    cpu.run();
    assert_eq!(cpu.register_a, 0x05);
}

#[test]
fn test_0x48_pha_0x68_pla() {
    let bus = Bus::new(
        test_rom(vec![0xa9, 0x05, 0x48, 0xa9, 0x00, 0x68, 0x00]));
    let mut cpu = CPU::new(bus);
    cpu.run();
    assert_eq!(cpu.register_a, 0x05);
}

#[test]
fn test_0x08_php_0x28_plp() {
    let bus = Bus::new(
        test_rom(vec![0x38, 0x08, 0x18, 0x28, 0x00]));
    let mut cpu = CPU::new(bus);
    cpu.run();
    assert!(cpu.status.contains(StatusFlags::CARRY));
}

#[test]
fn test_0xba_tsx() {
    let bus = Bus::new(test_rom(vec![0xba, 0x00]));
    let mut cpu = CPU::new(bus);
    cpu.run();
    assert_eq!(cpu.register_x, STACK_RESET);
}

#[test]
fn test_0x9a_txs() {
    let bus = Bus::new(test_rom(vec![0xa2, 0x42, 0x9a, 0x00]));
    let mut cpu = CPU::new(bus);
    cpu.run();
    assert_eq!(cpu.sp, 0x42);
}

#[test]
fn test_0x4c_jmp_absolute() {
    let bus = Bus::new(
        test_rom(vec![0x4c, 0x04, 0x80, 0x00, 0xa9, 0x05, 0x00]));
    let mut cpu = CPU::new(bus);
    cpu.run();
    assert_eq!(cpu.register_a, 0x05);
}

#[test]
fn test_0xd0_bne() {
    let bus = Bus::new(
        test_rom(vec![0xa9, 0x05, 0xd0, 0x02, 0x00, 0xa9, 0x00, 0x00]));
    let mut cpu = CPU::new(bus);
    cpu.run();
    assert_eq!(cpu.register_a, 0x05);
}

#[test]
fn test_0x10_bpl() {
    let bus = Bus::new(
        test_rom(vec![0xa9, 0x05, 0x10, 0x02, 0x00, 0xa9, 0x00, 0x00]));
    let mut cpu = CPU::new(bus);
    cpu.run();
    assert_eq!(cpu.register_a, 0x05);
}
