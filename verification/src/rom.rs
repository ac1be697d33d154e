use crate::ppu::NametableMirroring;
use vstd::prelude::*;

verus! {

/// Bit-level facts about the header flags.
proof fn lemma_rom_bits(a: u8, b: u8)
    ensures
        (a & 0xf0) | (b >> 4) == (a / 16) * 16 + b / 16,
        (b & 0x4 != 0) == ((b / 4) % 2 == 1),
{
    assert(((a & 0xf0) | (b >> 4) == (a / 16) * 16 + b / 16) && ((b & 0x4 != 0) == ((b / 4) % 2
        == 1))) by (bit_vector);
}

/// The iNES header's length.
pub const HEADER_SIZE: usize = 16;

/// The length of the optional trainer that follows the header.
pub const TRAINER_SIZE: usize = 512;

/// Why a cartridge image could not be read.
#[derive(Debug, Clone, Copy, PartialEq, Eq, Structural)]
pub enum RomError {
    /// Shorter than the header.
    TooShort,
    /// The header does not start with "NES" and 0x1a.
    NotINes,
    /// Shorter than the trainer, program and character data that the header announces.
    Truncated,
}

/// The image starts with the iNES signature "NES" 0x1a.
pub open spec fn ines_signature(data: Seq<u8>) -> bool {
    data.len() >= 4 && data[0] == 0x4e && data[1] == 0x45 && data[2] == 0x53 && data[3] == 0x1a
}

/// Bit 2 of header byte 6 announces a 512-byte trainer.
pub open spec fn trainer_len(byte_6_flags: u8) -> int {
    if (byte_6_flags / 4) % 2 == 1 {
        TRAINER_SIZE as int
    } else {
        0
    }
}

/// Where the program data starts: after the header and the trainer, if any.
pub open spec fn prg_start(header: Seq<u8>) -> int {
    HEADER_SIZE + trainer_len(header[6])
}

/// Where the character data starts: byte 4 counts 16kB program banks.
pub open spec fn chr_start(header: Seq<u8>) -> int {
    prg_start(header) + header[4] * 16384
}

/// Where the image ends: byte 5 counts 8kB character banks.
pub open spec fn image_end(header: Seq<u8>) -> int {
    chr_start(header) + header[5] * 8192
}

/// The contents of a cartridge image: program and character data and the header flags.
pub struct Rom {
    pub prg_data: Vec<u8>,
    pub chr_data: Vec<u8>,
    pub byte_6_flags: u8,
    pub byte_7_flags: u8,
    pub _trainer: Vec<u8>,
    pub _prg_ram: Vec<u8>,
    pub _tv_system: u8,
}

/// The nametable arrangement that header byte 6 selects: bit 3 asks for four screens,
/// otherwise bit 0 chooses vertical (1) or horizontal (0) mirroring.
pub open spec fn header_mirroring(byte_6_flags: u8) -> NametableMirroring {
    if byte_6_flags & 0x8 != 0 {
        NametableMirroring::FourScreen
    } else if byte_6_flags & 0x1 != 0 {
        NametableMirroring::Vertical
    } else {
        NametableMirroring::Horizontal
    }
}

impl Rom {
    pub fn nametable_mirroring(&self) -> (r: NametableMirroring)
        ensures
            r == header_mirroring(self.byte_6_flags),
    {
        if self.byte_6_flags & 0x8 != 0 {
            NametableMirroring::FourScreen
        } else if self.byte_6_flags & 0x1 != 0 {
            NametableMirroring::Vertical
        } else {
            NametableMirroring::Horizontal
        }
    }

    /// The mapper number: its low nibble is the high nibble of byte 6, its high nibble the
    /// high nibble of byte 7.
    pub fn mapper_number(&self) -> (r: u8)
        ensures
            r == (self.byte_7_flags / 16) * 16 + self.byte_6_flags / 16,
    {
        proof { lemma_rom_bits(self.byte_7_flags, self.byte_6_flags); }
        (self.byte_7_flags & 0xf0) | (self.byte_6_flags >> 4)
    }
    /// Reads an iNES image: the 16-byte header, an optional trainer, then the program and
    /// character data whose sizes the header gives. Bytes after them are ignored.
    pub fn parse(data: &[u8]) -> (r: Result<Rom, RomError>)
        ensures
            r == Err::<Rom, RomError>(RomError::TooShort) <==> data@.len() < HEADER_SIZE,
            r == Err::<Rom, RomError>(RomError::NotINes) <==> data@.len() >= HEADER_SIZE
                && !ines_signature(data@),
            r == Err::<Rom, RomError>(RomError::Truncated) <==> data@.len() >= HEADER_SIZE
                && ines_signature(data@) && data@.len() < image_end(data@),
            r is Ok <==> data@.len() >= HEADER_SIZE && ines_signature(data@) && data@.len()
                >= image_end(data@),
            r matches Ok(rom) ==> {
                &&& rom.byte_6_flags == data@[6]
                &&& rom.byte_7_flags == data@[7]
                &&& rom._tv_system == data@[9]
                &&& rom._trainer@ == data@.subrange(HEADER_SIZE as int, prg_start(data@))
                &&& rom.prg_data@ == data@.subrange(prg_start(data@), chr_start(data@))
                &&& rom.chr_data@ == data@.subrange(chr_start(data@), image_end(data@))
                &&& rom._prg_ram@ == Seq::<u8>::empty()
            },
    {
        if data.len() < HEADER_SIZE {
            return Err(RomError::TooShort);
        }
        if !(data[0] == 0x4e && data[1] == 0x45 && data[2] == 0x53 && data[3] == 0x1a) {
            return Err(RomError::NotINes);
        }
        let flags6 = data[6];
        proof { lemma_rom_bits(0, flags6); }
        let trainer: usize = if flags6 & 0x4 != 0 {
            TRAINER_SIZE
        } else {
            0
        };
        let prg_begin: usize = HEADER_SIZE + trainer;
        let chr_begin: usize = prg_begin + (data[4] as usize) * 16384;
        let end: usize = chr_begin + (data[5] as usize) * 8192;
        if data.len() < end {
            return Err(RomError::Truncated);
        }
        Ok(Rom {
            prg_data: copy_range(data, prg_begin, chr_begin),
            chr_data: copy_range(data, chr_begin, end),
            byte_6_flags: flags6,
            byte_7_flags: data[7],
            _trainer: copy_range(data, HEADER_SIZE, prg_begin),
            _prg_ram: Vec::new(),
            _tv_system: data[9],
        })
    }
}

/// The bytes of `data` from `start` up to `end`.
fn copy_range(data: &[u8], start: usize, end: usize) -> (r: Vec<u8>)
    requires
        start <= end <= data@.len(),
    ensures
        r@ == data@.subrange(start as int, end as int),
{
    let mut r: Vec<u8> = Vec::new();
    let mut i: usize = start;
    while i < end
        invariant
            start <= i <= end <= data@.len(),
            r@ == data@.subrange(start as int, i as int),
        decreases end - i,
    {
        r.push(data[i]);
        i = i + 1;
    }
    r
}

} // verus!
