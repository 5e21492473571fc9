//! Cartridge images built in memory, for running small programs.
use vstd::prelude::*;

use super::{Mirroring, Rom, CHR_PAGE_SIZE, PRG_PAGE_SIZE, image_of, is_readable_image, is_supported_image};

verus! {

struct TestRom {
    header: Vec<u8>,
    trainer: Option<Vec<u8>>,
    pgp_rom: Vec<u8>,
    chr_rom: Vec<u8>,
}

/// The header that `test_rom` writes: two PRG pages, one CHR page, mapper 3,
/// vertical mirroring, no trainer, iNES 1.0.
pub open spec fn test_header() -> Seq<u8> {
    seq![0x4Eu8, 0x45, 0x53, 0x1A, 0x02, 0x01, 0x31, 0, 0, 0, 0, 0, 0, 0, 0, 0]
}

/// The program, cut or padded with zeros to two PRG pages.
pub open spec fn padded_program(program: Seq<u8>) -> Seq<u8> {
    if program.len() >= 2 * PRG_PAGE_SIZE {
        program.subrange(0, 2 * PRG_PAGE_SIZE)
    } else {
        program + Seq::new((2 * PRG_PAGE_SIZE - program.len()) as nat, |i: int| 0u8)
    }
}

fn create_rom(rom: TestRom) -> (r: Vec<u8>)
    requires
        rom.header@.len() + match rom.trainer {
            Some(t) => t@.len(),
            None => 0,
        } + rom.pgp_rom@.len() + rom.chr_rom@.len() <= usize::MAX,
    ensures
        r@ == image_of(
            rom.header@,
            match rom.trainer {
                Some(t) => Some(t@),
                None => None,
            },
            rom.pgp_rom@,
            rom.chr_rom@,
        ),
{
    let trainer_len = match &rom.trainer {
        Some(t) => t.len(),
        None => 0,
    };
    let mut result = Vec::with_capacity(
        rom.header.len() + trainer_len + rom.pgp_rom.len() + rom.chr_rom.len(),
    );

    result.extend_from_slice(rom.header.as_slice());
    if let Some(t) = &rom.trainer {
        result.extend_from_slice(t.as_slice());
    }
    result.extend_from_slice(rom.pgp_rom.as_slice());
    result.extend_from_slice(rom.chr_rom.as_slice());
    proof {
        match rom.trainer {
            Some(t) => {},
            None => {
                assert(rom.header@ + Seq::<u8>::empty() == rom.header@);
            },
        }
    }
    result
}

/// A cartridge whose PRG ROM holds `program` (cut or padded with zeros to two
/// pages) and whose CHR ROM is one page of `2`s.
pub fn test_rom(program: Vec<u8>) -> (r: Rom)
    ensures
        r.prg_rom@ == padded_program(program@),
        r.chr_rom@ == Seq::new(CHR_PAGE_SIZE as nat, |i: int| 2u8),
        r.mapper == 3,
        r.mirroring == Mirroring::Vertical,
{
    let mut pgp_rom_contents = program;
    pgp_rom_contents.resize(2 * PRG_PAGE_SIZE, 0);
    let ghost prg = pgp_rom_contents@;
    assert(prg == padded_program(program@));

    let header = vec![0x4E, 0x45, 0x53, 0x1A, 0x02, 0x01, 0x31, 00, 00, 00, 00, 00, 00, 00, 00, 00];
    let chr = vec![2; 1 * CHR_PAGE_SIZE];
    assert(header@ == test_header());
    let test_rom = create_rom(
        TestRom { header, trainer: None, pgp_rom: pgp_rom_contents, chr_rom: chr },
    );
    let ghost raw = test_rom@;
    assert(raw.len() == 16 + 2 * PRG_PAGE_SIZE + CHR_PAGE_SIZE);
    assert(raw[6] == 0x31 && raw[7] == 0);
    assert(is_supported_image(raw));
    assert(is_readable_image(raw));
    let rom = Rom::new(&test_rom).unwrap();
    assert(rom.prg_rom@ =~= prg);
    rom
}

} // verus!
