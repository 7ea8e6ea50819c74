//! The iNES cartridge image format.
use vstd::prelude::*;
use crate::bitmisc::{U8BitTest, lemma_u8_bits};
use crate::error::{LoadError, unexpected_eof};

verus! {

#[derive(PartialEq, Eq, Structural, Clone, Copy, Debug)]
pub enum NesVersion {
    V1,
    V2,
}

#[derive(PartialEq, Eq, Structural, Clone, Copy, Debug)]
pub enum MirrorMode {
    H,
    V,
}

/// A parsed cartridge image.
pub struct Rom {
    pub prg_rom: Vec<u8>,
    pub prg_banks: usize,
    pub chr_rom: Vec<u8>,
    pub chr_banks: usize,
    pub trainner: Vec<u8>,
    pub mirroring: MirrorMode,
    pub four_screen_mode: bool,
    pub has_battery: bool,
    pub nes_version: NesVersion,
    pub mapper_id: u16,
}

/// Size of one PRG ROM bank.
pub const PRG_BANK_SIZE: usize = 0x4000;

/// Size of one CHR ROM bank.
pub const CHR_BANK_SIZE: usize = 0x2000;

/// Size of the optional trainer block.
pub const TRAINER_SIZE: usize = 0x200;

/// The first four bytes of an image are "NES" and 0x1A.
pub open spec fn has_nes_magic(d: Seq<u8>) -> bool {
    &&& d.len() >= 4
    &&& d[0] == 0x4E
    &&& d[1] == 0x45
    &&& d[2] == 0x53
    &&& d[3] == 0x1A
}

/// Length of the trainer block announced by the header.
pub open spec fn trainer_len(d: Seq<u8>) -> int {
    if d[6] / 4 % 2 == 1 { 0x200 } else { 0 }
}

/// Offset of the PRG ROM in the image.
pub open spec fn prg_offset(d: Seq<u8>) -> int {
    16 + trainer_len(d)
}

/// Offset of the CHR ROM in the image.
pub open spec fn chr_offset(d: Seq<u8>) -> int {
    prg_offset(d) + d[4] * 0x4000
}

/// The number of bytes that the header announces, header included.
pub open spec fn image_len(d: Seq<u8>) -> int {
    chr_offset(d) + d[5] * 0x2000
}

/// The mapper number: low nibble from the high half of byte 6, high nibble from the
/// high half of byte 7.
pub open spec fn header_mapper_id(d: Seq<u8>) -> int {
    (d[7] / 16) * 16 + d[6] / 16
}

/// The cartridge described by a complete, well-formed image.
pub open spec fn rom_matches(rom: Rom, d: Seq<u8>) -> bool {
    &&& rom.prg_banks == d[4]
    &&& rom.chr_banks == d[5]
    &&& rom.trainner@ == d.subrange(16, prg_offset(d))
    &&& rom.prg_rom@ == d.subrange(prg_offset(d), chr_offset(d))
    &&& rom.chr_rom@ == d.subrange(chr_offset(d), image_len(d))
    &&& rom.mirroring == (if d[6] % 2 == 1 { MirrorMode::V } else { MirrorMode::H })
    &&& rom.has_battery == (d[6] / 2 % 2 == 1)
    &&& rom.four_screen_mode == (d[6] / 8 % 2 == 1)
    &&& rom.nes_version == NesVersion::V1
    &&& rom.mapper_id == header_mapper_id(d)
}

/// Copies `len` bytes of `data` from `start` on.
fn copy_bytes(data: &[u8], start: usize, len: usize) -> (v: Vec<u8>)
    requires
        start + len <= data@.len(),
    ensures
        v@ == data@.subrange(start as int, start + len),
{
    let mut v: Vec<u8> = Vec::new();
    let mut i: usize = 0;
    let n: usize = data.len();
    while i < len
        invariant
            i <= len,
            n == data@.len(),
            start + len <= data@.len(),
            v@ == data@.subrange(start as int, start + i),
        decreases len - i,
    {
        v.push(data[start + i]);
        i = i + 1;
        assert(v@ =~= data@.subrange(start as int, start + i));
    }
    v
}

impl Rom {
    /// Parses an iNES image. An image shorter than its header announces is
    /// refused as an I/O error (an unexpected end of input), and one
    /// without the "NES\x1A" magic as `NotNesRom`.
    pub fn parse(data: &[u8]) -> (res: Result<Rom, LoadError>)
        ensures
            data@.len() < 16 ==> res matches Err(LoadError::IoError(_)),
            data@.len() >= 16 && !has_nes_magic(data@) ==> res matches Err(LoadError::NotNesRom),
            data@.len() >= 16 && has_nes_magic(data@) && data@.len() < image_len(data@)
                ==> res matches Err(LoadError::IoError(_)),
            data@.len() >= 16 && has_nes_magic(data@) && data@.len() >= image_len(data@)
                ==> (res matches Ok(rom) && rom_matches(rom, data@)),
    {
        if data.len() < 16 {
            return Err(LoadError::IoError(unexpected_eof()));
        }
        if data[0] != 0x4E || data[1] != 0x45 || data[2] != 0x53 || data[3] != 0x1A {
            return Err(LoadError::NotNesRom);
        }
        let prg_banks = data[4] as usize;
        let chr_banks = data[5] as usize;
        let h6: u8 = data[6];
        let h7: u8 = data[7];
        proof {
            lemma_u8_bits(h6);
            lemma_u8_bits(h7);
            lemma_u8_bits(h6 >> 4u8);
            lemma_u8_bits(h7 >> 4u8);
        }
        let mirroring = if h6.is_b0_set() { MirrorMode::V } else { MirrorMode::H };
        let has_battery = h6.is_b1_set();
        let has_trainner = h6.is_b2_set();
        let four_screen_mode = h6.is_b3_set();

        let mapper_id_lo: u8 = (h6 >> 4) & 0b1111;
        let mapper_id_hi: u8 = (h7 >> 4) & 0b1111;
        assert(mapper_id_lo == h6 / 16);
        assert(mapper_id_hi == h7 / 16);
        let hi_shifted: u8 = mapper_id_hi << 4;
        assert(hi_shifted == mapper_id_hi * 16) by (bit_vector)
            requires
                mapper_id_hi < 16,
                hi_shifted == mapper_id_hi << 4,
        ;
        let combined: u8 = hi_shifted | mapper_id_lo;
        assert(combined == hi_shifted + mapper_id_lo) by (bit_vector)
            requires
                hi_shifted % 16 == 0,
                mapper_id_lo < 16,
                combined == hi_shifted | mapper_id_lo,
        ;
        let mapper_id = combined as u16;
        // The 2.0 marker test `(h7 >> 2) | 0b11 == 0b10` never holds: the low two bits of
        // the left side are always set.
        let v2_marker: u8 = (h7 >> 2) | 0b11;
        assert(v2_marker != 0b10) by (bit_vector)
            requires
                v2_marker == (h7 >> 2) | 0b11,
        ;
        let nes_version = if v2_marker == 0b10 { NesVersion::V2 } else { NesVersion::V1 };

        let trainer_size: usize = if has_trainner { TRAINER_SIZE } else { 0 };
        let prg_size: usize = prg_banks * PRG_BANK_SIZE;
        let chr_size: usize = chr_banks * CHR_BANK_SIZE;
        if data.len() - 16 < trainer_size {
            return Err(LoadError::IoError(unexpected_eof()));
        }
        let trainner = copy_bytes(data, 16, trainer_size);
        let prg_start: usize = 16 + trainer_size;
        if data.len() - prg_start < prg_size {
            return Err(LoadError::IoError(unexpected_eof()));
        }
        let prg_rom = copy_bytes(data, prg_start, prg_size);
        let chr_start: usize = prg_start + prg_size;
        if data.len() - chr_start < chr_size {
            return Err(LoadError::IoError(unexpected_eof()));
        }
        let chr_rom = copy_bytes(data, chr_start, chr_size);
        Ok(Rom {
            prg_rom,
            chr_rom,
            trainner,
            mirroring,
            four_screen_mode,
            has_battery,
            nes_version,
            mapper_id,
            prg_banks,
            chr_banks,
        })
    }
}

} // verus!
