use nest::mem::rom::test::test_rom;
use nest::mem::rom::{is_readable, Mirroring, Rom, CHR_PAGE_SIZE, PRG_PAGE_SIZE};

struct TestRom {
    header: Vec<u8>,
    trainer: Option<Vec<u8>>,
    pgp_rom: Vec<u8>,
    chr_rom: Vec<u8>,
}

fn create_rom(rom: TestRom) -> Vec<u8> {
    let mut result = Vec::with_capacity(
        rom.header.len()
            + rom.trainer.as_ref().map_or(0, |t| t.len())
            + rom.pgp_rom.len()
            + rom.chr_rom.len(),
    );

    result.extend(&rom.header);
    if let Some(t) = rom.trainer {
        result.extend(t);
    }
    result.extend(&rom.pgp_rom);
    result.extend(&rom.chr_rom);

    result
}

#[test]
fn test() {
    let test_rom = create_rom(TestRom {
        header: vec![
            0x4E, 0x45, 0x53, 0x1A, 0x02, 0x01, 0x31, 00, 00, 00, 00, 00, 00, 00, 00, 00,
        ],
        trainer: None,
        pgp_rom: vec![1; 2 * PRG_PAGE_SIZE],
        chr_rom: vec![2; 1 * CHR_PAGE_SIZE],
    });

    let rom: Rom = Rom::new(&test_rom).unwrap();

    assert_eq!(rom.chr_rom, vec!(2; 1 * CHR_PAGE_SIZE));
    assert_eq!(rom.prg_rom, vec!(1; 2 * PRG_PAGE_SIZE));
    assert_eq!(rom.mapper, 3);
    assert_eq!(rom.mirroring, Mirroring::Vertical);
}

#[test]
fn test_with_trainer() {
    let test_rom = create_rom(TestRom {
        header: vec![
            0x4E,
            0x45,
            0x53,
            0x1A,
            0x02,
            0x01,
            0x31 | 0b100,
            00,
            00,
            00,
            00,
            00,
            00,
            00,
            00,
            00,
        ],
        trainer: Some(vec![0; 512]),
        pgp_rom: vec![1; 2 * PRG_PAGE_SIZE],
        chr_rom: vec![2; 1 * CHR_PAGE_SIZE],
    });

    let rom: Rom = Rom::new(&test_rom).unwrap();

    assert_eq!(rom.chr_rom, vec!(2; 1 * CHR_PAGE_SIZE));
    assert_eq!(rom.prg_rom, vec!(1; 2 * PRG_PAGE_SIZE));
    assert_eq!(rom.mapper, 3);
    assert_eq!(rom.mirroring, Mirroring::Vertical);
}

#[test]
fn test_nes2_is_not_supported() {
    let test_rom = create_rom(TestRom {
        header: vec![
            0x4E, 0x45, 0x53, 0x1A, 0x01, 0x01, 0x31, 0x8, 00, 00, 00, 00, 00, 00, 00, 00,
        ],
        trainer: None,
        pgp_rom: vec![1; 1 * PRG_PAGE_SIZE],
        chr_rom: vec![2; 1 * CHR_PAGE_SIZE],
    });
    let rom = Rom::new(&test_rom);
    match rom {
        Result::Ok(_) => assert!(false, "should not load rom"),
        Result::Err(str) => assert_eq!(str, "iNES 2.0 is not supported"),
    }
}

#[test]
fn missing_tag_is_refused() {
    let image = vec![0x4E, 0x45, 0x53, 0x00, 0, 0, 0, 0];
    match Rom::new(&image) {
        Ok(_) => panic!("should not load rom"),
        Err(e) => assert_eq!(e, "File does not contain the iNES file descriptor"),
    }
}

#[test]
fn invalid_version_is_refused() {
    // bits 2-3 of byte 7 are 0b01
    let image = vec![0x4E, 0x45, 0x53, 0x1A, 1, 1, 0, 0b0100];
    match Rom::new(&image) {
        Ok(_) => panic!("should not load rom"),
        Err(e) => assert_eq!(e, "Invalid iNES version"),
    }
}

#[test]
fn header_fields_are_decoded() {
    // mapper 0x52: high nibble from byte 7, low nibble from byte 6;
    // byte 6 bit 0 clear: horizontal mirroring
    let image = create_rom(TestRom {
        header: vec![0x4E, 0x45, 0x53, 0x1A, 1, 2, 0x20, 0x50, 0, 0, 0, 0, 0, 0, 0, 0],
        trainer: None,
        pgp_rom: vec![7; PRG_PAGE_SIZE],
        chr_rom: (0..2 * CHR_PAGE_SIZE).map(|i| (i % 251) as u8).collect(),
    });
    let rom = Rom::new(&image).unwrap();
    assert_eq!(rom.mapper, 0x52);
    assert_eq!(rom.mirroring, Mirroring::Horizontal);
    assert_eq!(rom.prg_rom, vec![7; PRG_PAGE_SIZE]);
    assert_eq!(rom.chr_rom.len(), 2 * CHR_PAGE_SIZE);
    assert_eq!(rom.chr_rom[300], (300 % 251) as u8);
}

#[test]
fn trainer_is_skipped() {
    let image = create_rom(TestRom {
        header: vec![0x4E, 0x45, 0x53, 0x1A, 1, 0, 0b100, 0, 0, 0, 0, 0, 0, 0, 0, 0],
        trainer: Some(vec![9; 512]),
        pgp_rom: vec![3; PRG_PAGE_SIZE],
        chr_rom: vec![],
    });
    let rom = Rom::new(&image).unwrap();
    assert_eq!(rom.prg_rom, vec![3; PRG_PAGE_SIZE]);
    assert!(rom.chr_rom.is_empty());
}

#[test]
fn test_rom_pads_the_program() {
    let rom = test_rom(vec![0xa9, 0x05, 0x00]);
    assert_eq!(rom.prg_rom.len(), 2 * PRG_PAGE_SIZE);
    assert_eq!(&rom.prg_rom[0..3], &[0xa9, 0x05, 0x00]);
    assert!(rom.prg_rom[3..].iter().all(|&b| b == 0));
    assert_eq!(rom.chr_rom, vec![2; CHR_PAGE_SIZE]);
    assert_eq!(rom.mapper, 3);
    assert_eq!(rom.mirroring, Mirroring::Vertical);
}

#[test]
fn readability_check() {
    assert!(!is_readable(&vec![0x4E, 0x45]));
    // no tag: readable (it is refused)
    assert!(is_readable(&vec![0, 0, 0, 0]));
    // tag but header cut short
    assert!(!is_readable(&vec![0x4E, 0x45, 0x53, 0x1A, 1]));
    // supported header but banks missing
    assert!(!is_readable(&vec![0x4E, 0x45, 0x53, 0x1A, 1, 0, 0, 0, 0, 0, 0, 0, 0, 0, 0, 0]));
    // NES 2.0 header: refused before the banks are read
    assert!(is_readable(&vec![0x4E, 0x45, 0x53, 0x1A, 1, 0, 0, 0x08]));
    let mut full = vec![0x4E, 0x45, 0x53, 0x1A, 1, 0, 0, 0, 0, 0, 0, 0, 0, 0, 0, 0];
    full.resize(16 + PRG_PAGE_SIZE, 0);
    assert!(is_readable(&full));
}
