//! iNES cartridge images.
use vstd::prelude::*;

pub mod test;

verus! {

pub const PRG_PAGE_SIZE: usize = 16384;

pub const CHR_PAGE_SIZE: usize = 8192;

/// Size of the iNES header.
pub const HEADER_SIZE: usize = 16;

/// Size of the optional trainer block that follows the header.
pub const TRAINER_SIZE: usize = 512;

#[derive(Debug, PartialEq, Eq, Structural)]
pub enum Mirroring {
    Vertical,
    Horizontal,
    FourScreen,
}

pub struct Rom {
    pub mirroring: Mirroring,
    /// Mapper number; with 0, the CHR and PRG ROMs are reachable directly and independently.
    pub mapper: u8,
    pub prg_rom: Vec<u8>,
    pub chr_rom: Vec<u8>,
}

/// The image starts with the bytes `N`, `E`, `S`, `0x1a`.
pub open spec fn has_nes_tag(raw: Seq<u8>) -> bool {
    &&& raw[0] == 0x4e
    &&& raw[1] == 0x45
    &&& raw[2] == 0x53
    &&& raw[3] == 0x1a
}

/// Bits 2 and 3 of header byte 7: 0 for iNES 1.0, 2 for NES 2.0.
pub open spec fn ines_version_bits(raw: Seq<u8>) -> int {
    ((raw[7] / 4) % 4) as int
}

/// High nibble from byte 7, low nibble from the high nibble of byte 6.
pub open spec fn mapper_of(raw: Seq<u8>) -> int {
    (raw[7] / 16) * 16 + raw[6] / 16
}

pub open spec fn mirroring_of(raw: Seq<u8>) -> Mirroring {
    if (raw[7] / 8) % 2 == 1 {
        Mirroring::FourScreen
    } else if raw[6] % 2 == 1 {
        Mirroring::Vertical
    } else {
        Mirroring::Horizontal
    }
}

pub open spec fn has_trainer(raw: Seq<u8>) -> bool {
    (raw[6] / 4) % 2 == 1
}

pub open spec fn prg_size_of(raw: Seq<u8>) -> int {
    raw[4] * PRG_PAGE_SIZE
}

pub open spec fn chr_size_of(raw: Seq<u8>) -> int {
    raw[5] * CHR_PAGE_SIZE
}

pub open spec fn prg_start_of(raw: Seq<u8>) -> int {
    HEADER_SIZE + if has_trainer(raw) {
        TRAINER_SIZE as int
    } else {
        0
    }
}

pub open spec fn chr_start_of(raw: Seq<u8>) -> int {
    prg_start_of(raw) + prg_size_of(raw)
}

/// The header announces an iNES 1.0 image.
pub open spec fn is_supported_image(raw: Seq<u8>) -> bool {
    has_nes_tag(raw) && ines_version_bits(raw) == 0
}

/// The bytes that `Rom::new` reads are there: the tag, then the header once
/// the tag matches, then the ROM banks once the header is supported.
pub open spec fn is_readable_image(raw: Seq<u8>) -> bool {
    &&& raw.len() >= 4
    &&& has_nes_tag(raw) ==> raw.len() >= 8
    &&& is_supported_image(raw) ==> raw.len() >= chr_start_of(raw) + chr_size_of(raw)
}

/// What a supported image holds.
pub open spec fn rom_matches_image(rom: Rom, raw: Seq<u8>) -> bool {
    &&& rom.mirroring == mirroring_of(raw)
    &&& rom.mapper == mapper_of(raw)
    &&& rom.prg_rom@ == raw.subrange(prg_start_of(raw), chr_start_of(raw))
    &&& rom.chr_rom@ == raw.subrange(chr_start_of(raw), chr_start_of(raw) + chr_size_of(raw))
}

/// The header, the trainer (if any) and the two banks, back to back.
pub open spec fn image_of(header: Seq<u8>, trainer: Option<Seq<u8>>, prg: Seq<u8>, chr: Seq<u8>) -> Seq<
    u8,
> {
    header + match trainer {
        Some(t) => t,
        None => Seq::empty(),
    } + prg + chr
}

/// A header announcing the banks' sizes and the trainer, for an iNES 1.0
/// image.
pub open spec fn header_fits(header: Seq<u8>, trainer: Option<Seq<u8>>, prg: Seq<u8>, chr: Seq<u8>) -> bool {
    &&& header.len() == HEADER_SIZE
    &&& has_nes_tag(header)
    &&& ines_version_bits(header) == 0
    &&& has_trainer(header) == (trainer is Some)
    &&& (trainer matches Some(t) ==> t.len() == TRAINER_SIZE)
    &&& prg.len() == prg_size_of(header)
    &&& chr.len() == chr_size_of(header)
}

/// Parsing an image made of a fitting header, the trainer and the two banks
/// gives the banks back, with the header's mapper and mirroring: the image
/// can be read, is supported, and what `Rom::new` returns holds exactly them.
pub proof fn lemma_parse_image(header: Seq<u8>, trainer: Option<Seq<u8>>, prg: Seq<u8>, chr: Seq<u8>, rom: Rom)
    requires
        header_fits(header, trainer, prg, chr),
    ensures
        is_readable_image(image_of(header, trainer, prg, chr)),
        is_supported_image(image_of(header, trainer, prg, chr)),
        rom_matches_image(rom, image_of(header, trainer, prg, chr)) ==> {
            &&& rom.prg_rom@ == prg
            &&& rom.chr_rom@ == chr
            &&& rom.mapper == mapper_of(header)
            &&& rom.mirroring == mirroring_of(header)
        },
{
    let t = match trainer {
        Some(t) => t,
        None => Seq::empty(),
    };
    let raw = image_of(header, trainer, prg, chr);
    assert(raw == header + t + prg + chr);
    assert(raw.subrange(0, 16) =~= header);
    assert(forall|i: int| 0 <= i < 16 ==> raw[i] == header[i]);
    assert(prg_start_of(raw) == 16 + t.len());
    assert(raw.subrange(prg_start_of(raw), chr_start_of(raw)) =~= prg);
    assert(raw.subrange(chr_start_of(raw), chr_start_of(raw) + chr_size_of(raw)) =~= chr);
}

/// What `Rom::new` gives for a supported image, read off the raw header:
/// bit 3 of byte 7 selects four-screen mirroring; otherwise bit 0 of byte 6
/// selects vertical mirroring, and horizontal when it is clear. The mapper's
/// low nibble is the high nibble of byte 6, its high nibble that of byte 7.
pub proof fn lemma_rom_header_fields(rom: Rom, raw: Seq<u8>)
    requires
        is_supported_image(raw),
        raw.len() >= HEADER_SIZE,
        rom_matches_image(rom, raw),
    ensures
        raw[7] & 0b1000 != 0 ==> rom.mirroring == Mirroring::FourScreen,
        raw[7] & 0b1000 == 0 ==> (rom.mirroring == Mirroring::Vertical) == (raw[6] & 0b1 == 1),
        raw[7] & 0b1000 == 0 ==> (rom.mirroring == Mirroring::Horizontal) == (raw[6] & 0b1 == 0),
        rom.mapper == (raw[7] & 0xF0) | (raw[6] >> 4),
{
    let b6 = raw[6];
    let b7 = raw[7];
    assert((b7 & 0b1000 != 0) == ((b7 / 8) % 2 == 1)) by (bit_vector);
    assert((b6 & 0b1 == 1) == (b6 % 2 == 1)) by (bit_vector);
    assert((b6 & 0b1 == 0) == (b6 % 2 == 0)) by (bit_vector);
    assert((b7 & 0xF0) | (b6 >> 4) == (b7 / 16) * 16 + b6 / 16) by (bit_vector);
}

/// The banks that `Rom::new` gives for a supported image: the PRG ROM is the
/// `raw[4]` 16 KiB pages after the 16-byte header and, when bit 2 of byte 6
/// is set, the 512-byte trainer; the CHR ROM is the `raw[5]` 8 KiB pages
/// right after it.
pub proof fn lemma_rom_banks(rom: Rom, raw: Seq<u8>)
    requires
        is_supported_image(raw),
        raw.len() >= HEADER_SIZE,
        rom_matches_image(rom, raw),
    ensures
        ({
            let start: int = 16 + if raw[6] & 0b100 != 0 { 512int } else { 0int };
            let prg_end = start + raw[4] * 16384;
            &&& rom.prg_rom@ == raw.subrange(start, prg_end)
            &&& rom.chr_rom@ == raw.subrange(prg_end, prg_end + raw[5] * 8192)
        }),
{
    let b6 = raw[6];
    assert((b6 & 0b100 != 0) == ((b6 / 4) % 2 == 1)) by (bit_vector);
}

/// The header tests of `Rom::new`, on the raw bytes: the tag is `NES` and
/// 0x1A, the version is bits 2 and 3 of byte 7, and an image is supported
/// exactly when it has the tag and those bits are 0 (iNES 1.0).
pub proof fn lemma_header_tests(raw: Seq<u8>)
    requires
        raw.len() >= 8,
    ensures
        has_nes_tag(raw) == (raw[0] == 0x4e && raw[1] == 0x45 && raw[2] == 0x53 && raw[3] == 0x1a),
        ines_version_bits(raw) == (raw[7] >> 2) & 0b11,
        is_supported_image(raw) == (has_nes_tag(raw) && (raw[7] >> 2) & 0b11 == 0),
{
    let b7 = raw[7];
    assert((b7 >> 2) & 0b11 == (b7 / 4) % 4) by (bit_vector);
}

proof fn lemma_header_bits(b6: u8, b7: u8)
    by (bit_vector)
    ensures
        (b7 & 0b1111_0000) | (b6 >> 4) == (b7 / 16) * 16 + b6 / 16,
        (b7 >> 2) & 0b11 == (b7 / 4) % 4,
        (b7 & 0b1000 != 0) == ((b7 / 8) % 2 == 1),
        (b6 & 0b1 != 0) == (b6 % 2 == 1),
        (b6 & 0b100 != 0) == ((b6 / 4) % 2 == 1),
{
}

/// A copy of `raw[start..end]`.
fn copy_range(raw: &Vec<u8>, start: usize, end: usize) -> (r: Vec<u8>)
    requires
        start <= end <= raw@.len(),
    ensures
        r@ == raw@.subrange(start as int, end as int),
{
    let mut out: Vec<u8> = Vec::with_capacity(end - start);
    let mut i = start;
    while i < end
        invariant
            start <= i <= end <= raw@.len(),
            out@ == raw@.subrange(start as int, i as int),
        decreases end - i,
    {
        out.push(raw[i]);
        i = i + 1;
    }
    out
}

/// Whether `Rom::new` can read `raw`: the bytes it looks at are all there.
pub fn is_readable(raw: &Vec<u8>) -> (r: bool)
    ensures
        r == is_readable_image(raw@),
{
    if raw.len() < 4 {
        return false;
    }
    if !(raw[0] == 0x4e && raw[1] == 0x45 && raw[2] == 0x53 && raw[3] == 0x1a) {
        return true;
    }
    if raw.len() < 8 {
        return false;
    }
    proof {
        lemma_header_bits(raw@[6], raw@[7]);
    }
    if (raw[7] >> 2) & 0b11 != 0 {
        return true;
    }
    let trainer = raw[6] & 0b100 != 0;
    let end = HEADER_SIZE + (if trainer {
        TRAINER_SIZE
    } else {
        0
    }) + raw[4] as usize * PRG_PAGE_SIZE + raw[5] as usize * CHR_PAGE_SIZE;
    raw.len() >= end
}

impl Rom {
    /// Parses an iNES image. It fails when the tag is missing, when the
    /// version bits name no known version, and on NES 2.0 images.
    pub fn new(raw: &Vec<u8>) -> (r: Result<Rom, String>)
        requires
            is_readable_image(raw@),
        ensures
            !has_nes_tag(raw@) ==> (r matches Err(e) && e@
                == "File does not contain the iNES file descriptor"@),
            has_nes_tag(raw@) && ines_version_bits(raw@) != 0 && ines_version_bits(raw@) != 2
                ==> (r matches Err(e) && e@ == "Invalid iNES version"@),
            has_nes_tag(raw@) && ines_version_bits(raw@) == 2 ==> (r matches Err(e) && e@
                == "iNES 2.0 is not supported"@),
            is_supported_image(raw@) ==> (r matches Ok(rom) && rom_matches_image(rom, raw@)),
    {
        if !(raw[0] == 0x4e && raw[1] == 0x45 && raw[2] == 0x53 && raw[3] == 0x1a) {
            return Err("File does not contain the iNES file descriptor".to_string());
        }
        proof {
            lemma_header_bits(raw@[6], raw@[7]);
        }
        let mapper = (raw[7] & 0b1111_0000) | (raw[6] >> 4);

        let mut ines_ver = (raw[7] >> 2) & 0b11;
        ines_ver = if ines_ver == 0b10 {
            2
        } else if ines_ver == 0b00 {
            1
        } else {
            return Err("Invalid iNES version".to_string());
        };

        if ines_ver == 2 {
            return Err("iNES 2.0 is not supported".to_string());
        }

        let four_screen = raw[7] & 0b1000 != 0;
        let vertical_mirroring = raw[6] & 0b1 != 0;
        let mirroring = match (four_screen, vertical_mirroring) {
            (true, _) => Mirroring::FourScreen,
            (false, false) => Mirroring::Horizontal,
            (false, true) => Mirroring::Vertical,
        };

        let prg_size = raw[4] as usize * PRG_PAGE_SIZE;
        let chr_size = raw[5] as usize * CHR_PAGE_SIZE;

        let trainer = raw[6] & 0b100 != 0;

        let prg_start = HEADER_SIZE + if trainer {
            TRAINER_SIZE
        } else {
            0
        };
        let chr_start = prg_start + prg_size;

        Ok(
            Rom {
                mirroring,
                mapper,
                prg_rom: copy_range(raw, prg_start, chr_start),
                chr_rom: copy_range(raw, chr_start, chr_start + chr_size),
            },
        )
    }
}

} // verus!
