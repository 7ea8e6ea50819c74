//! Cartridges: the shared bank switching core, the supported mappers, and the
//! dispatch over them.
use vstd::prelude::*;
use crate::cartridge::mapper::Mapper;
use crate::error::LoadError;
use crate::mapper::mapper000::Mappper000;
use crate::rom::{Rom, rom_matches, has_nes_magic, image_len, header_mapper_id};

pub mod mapper;
pub mod mapper_001;
pub mod mapper_002;
pub mod mapper_004;

verus! {

/// A loaded cartridge.
pub enum Cartridge {
    Nrom(Mappper000),
    Mmc1(mapper_001::State),
    UxRom(mapper_002::State),
    Mmc3(mapper_004::State),
}

/// Whether the mapper that the image names accepts its PRG ROM size (a mapper cannot
/// be built for other sizes). Unsupported mapper numbers are refused
/// with an error, not a panic, so they pass.
pub open spec fn header_supported(d: Seq<u8>) -> bool {
    let id = header_mapper_id(d);
    let banks = d[4];
    if id == 0 {
        banks <= 2
    } else if id == 1 || id == 4 {
        banks != 0 && banks != 128
    } else if id == 2 {
        banks != 0
    } else {
        true
    }
}

/// Whether `data` either fails to parse or parses into an image whose mapper accepts it.
pub open spec fn image_supported(d: Seq<u8>) -> bool {
    d.len() >= 16 && has_nes_magic(d) && d.len() >= image_len(d) ==> header_supported(d)
}

/// Tells whether `image_supported` holds.
pub fn is_image_supported(data: &[u8]) -> (r: bool)
    ensures
        r == image_supported(data@),
{
    if data.len() < 16 || data[0] != 0x4E || data[1] != 0x45 || data[2] != 0x53 || data[3] != 0x1A {
        return true;
    }
    let trainer: usize = if (data[6] / 4) % 2 == 1 { 0x200 } else { 0 };
    let needed: usize = 16 + trainer + (data[4] as usize) * 0x4000 + (data[5] as usize) * 0x2000;
    if data.len() < needed {
        return true;
    }
    let id: u16 = ((data[7] / 16) as u16) * 16 + (data[6] / 16) as u16;
    let banks = data[4];
    if id == 0 {
        banks <= 2
    } else if id == 1 || id == 4 {
        banks != 0 && banks != 128
    } else if id == 2 {
        banks != 0
    } else {
        true
    }
}

/// The cartridge holds the image `d`: for NROM the parsed ROM itself, with PRG ROM
/// mirrored when there is one bank and RAM cleared; for the other mappers PRG ROM is the
/// image's PRG bytes, and CHR memory its CHR bytes when it has any.
pub open spec fn cartridge_holds(c: Cartridge, d: Seq<u8>) -> bool {
    let prg = d.subrange(crate::rom::prg_offset(d), crate::rom::chr_offset(d));
    let chr = d.subrange(crate::rom::chr_offset(d), image_len(d));
    match c {
        Cartridge::Nrom(m) => {
            &&& rom_matches(m.rom, d)
            &&& m.mirror_prg == (d[4] == 1)
            &&& forall|i: int| 0 <= i < 0x2000 ==> m.prg_ram@[i] == 0
            &&& forall|i: int| 0 <= i < 0x800 ==> m.vram@[i] == 0
        },
        Cartridge::Mmc1(m) => m.inner@.prg_rom == prg && (chr.len() != 0 ==> m.inner@.chr_mem == chr),
        Cartridge::UxRom(m) => m.inner@.prg_rom == prg && (chr.len() != 0 ==> m.inner@.chr_mem == chr),
        Cartridge::Mmc3(m) => m.inner@.prg_rom == prg && (chr.len() != 0 ==> m.inner@.chr_mem == chr),
    }
}

/// Parses an iNES image and builds its cartridge. Mappers 0, 1, 2 and 4 are supported;
/// other mapper numbers are refused with `UnsupportedMapper`.
pub fn parse_stream(data: &[u8]) -> (r: Result<Cartridge, LoadError>)
    requires
        image_supported(data@),
    ensures
        data@.len() < 16 ==> r matches Err(LoadError::IoError(_)),
        data@.len() >= 16 && !has_nes_magic(data@) ==> r matches Err(LoadError::NotNesRom),
        data@.len() >= 16 && has_nes_magic(data@) && data@.len() < image_len(data@)
            ==> r matches Err(LoadError::IoError(_)),
        data@.len() >= 16 && has_nes_magic(data@) && data@.len() >= image_len(data@) ==> {
            let id = header_mapper_id(data@);
            &&& (id == 0 ==> r matches Ok(Cartridge::Nrom(_)))
            &&& (id == 1 ==> r matches Ok(Cartridge::Mmc1(_)))
            &&& (id == 2 ==> r matches Ok(Cartridge::UxRom(_)))
            &&& (id == 4 ==> r matches Ok(Cartridge::Mmc3(_)))
            &&& (id != 0 && id != 1 && id != 2 && id != 4 ==> (r matches Err(LoadError::UnsupportedMapper(m)) && m == id))
        },
        r matches Ok(c) ==> c.wf() && cartridge_holds(c, data@),
{
    let rom = match crate::rom::Rom::parse(data) {
        Ok(rom) => rom,
        Err(e) => {
            return Err(e);
        },
    };
    proof {
        assert(rom.prg_rom@.len() == data@[4] * 0x4000);
        assert(data@[4] * 0x4000 / 0x4000 == data@[4]);
        assert(data@[4] * 0x4000 / 0x2000 == data@[4] * 2);
        if data@[4] != 0 && data@[4] != 128 {
            crate::bitmisc::lemma_double_byte(data@[4]);
        }
    }
    if rom.mapper_id == 0 {
        Ok(Cartridge::Nrom(Mappper000::new(rom)))
    } else if rom.mapper_id == 1 {
        Ok(Cartridge::Mmc1(mapper_001::State::new(&rom)))
    } else if rom.mapper_id == 2 {
        Ok(Cartridge::UxRom(mapper_002::State::new(&rom)))
    } else if rom.mapper_id == 4 {
        Ok(Cartridge::Mmc3(mapper_004::State::new(&rom)))
    } else {
        let id = rom.mapper_id;
        Err(LoadError::UnsupportedMapper(id))
    }
}

impl Cartridge {
    /// What a CPU write of `value` to `addr` leaves: the same kind of cartridge, changed
    /// as its mapper's write says (memory below $8000, bank and mirroring registers, and
    /// for MMC3 the interrupt registers, from $8000 up).
    pub open spec fn cpu_write_done(self, addr: u16, value: u8, after: Cartridge) -> bool {
        match (self, after) {
            (Cartridge::Nrom(a), Cartridge::Nrom(b)) => a.poke_done(addr, value, b),
            (Cartridge::Mmc1(a), Cartridge::Mmc1(b)) => a.poke_done(addr, value, b),
            (Cartridge::UxRom(a), Cartridge::UxRom(b)) => a.poke_done(addr, value, b),
            (Cartridge::Mmc3(a), Cartridge::Mmc3(b)) => a.poke_done(addr, value, b),
            _ => false,
        }
    }

    /// Tests the invariant of the cartridge's mapper.
    pub fn is_wf(&self) -> (r: bool)
        ensures
            r == self.wf(),
    {
        match self {
            Cartridge::Nrom(m) => m.is_state_wf(),
            Cartridge::Mmc1(m) => m.is_state_wf(),
            Cartridge::UxRom(m) => m.is_state_wf(),
            Cartridge::Mmc3(m) => m.is_state_wf(),
        }
    }
}

impl Mapper for Cartridge {
    open spec fn wf(&self) -> bool {
        match self {
            Cartridge::Nrom(m) => m.wf(),
            Cartridge::Mmc1(m) => m.wf(),
            Cartridge::UxRom(m) => m.wf(),
            Cartridge::Mmc3(m) => m.wf(),
        }
    }

    open spec fn cpu_readable(&self, addr: u16) -> bool {
        match self {
            Cartridge::Nrom(m) => m.cpu_readable(addr),
            Cartridge::Mmc1(m) => m.cpu_readable(addr),
            Cartridge::UxRom(m) => m.cpu_readable(addr),
            Cartridge::Mmc3(m) => m.cpu_readable(addr),
        }
    }

    open spec fn cpu_writable(&self, addr: u16) -> bool {
        match self {
            Cartridge::Nrom(m) => m.cpu_writable(addr),
            Cartridge::Mmc1(m) => m.cpu_writable(addr),
            Cartridge::UxRom(m) => m.cpu_writable(addr),
            Cartridge::Mmc3(m) => m.cpu_writable(addr),
        }
    }

    open spec fn ppu_readable(&self, addr: u16) -> bool {
        match self {
            Cartridge::Nrom(m) => m.ppu_readable(addr),
            Cartridge::Mmc1(m) => m.ppu_readable(addr),
            Cartridge::UxRom(m) => m.ppu_readable(addr),
            Cartridge::Mmc3(m) => m.ppu_readable(addr),
        }
    }

    open spec fn ppu_writable(&self, addr: u16) -> bool {
        match self {
            Cartridge::Nrom(m) => m.ppu_writable(addr),
            Cartridge::Mmc1(m) => m.ppu_writable(addr),
            Cartridge::UxRom(m) => m.ppu_writable(addr),
            Cartridge::Mmc3(m) => m.ppu_writable(addr),
        }
    }

    open spec fn cpu_value(&self, addr: u16) -> u8 {
        match self {
            Cartridge::Nrom(m) => m.cpu_value(addr),
            Cartridge::Mmc1(m) => m.cpu_value(addr),
            Cartridge::UxRom(m) => m.cpu_value(addr),
            Cartridge::Mmc3(m) => m.cpu_value(addr),
        }
    }

    open spec fn ppu_value(&self, addr: u16) -> u8 {
        match self {
            Cartridge::Nrom(m) => m.ppu_value(addr),
            Cartridge::Mmc1(m) => m.ppu_value(addr),
            Cartridge::UxRom(m) => m.ppu_value(addr),
            Cartridge::Mmc3(m) => m.ppu_value(addr),
        }
    }

    open spec fn cpu_stores(&self, addr: u16) -> bool {
        match self {
            Cartridge::Nrom(m) => m.cpu_stores(addr),
            Cartridge::Mmc1(m) => m.cpu_stores(addr),
            Cartridge::UxRom(m) => m.cpu_stores(addr),
            Cartridge::Mmc3(m) => m.cpu_stores(addr),
        }
    }

    open spec fn ppu_stores(&self, addr: u16) -> bool {
        match self {
            Cartridge::Nrom(m) => m.ppu_stores(addr),
            Cartridge::Mmc1(m) => m.ppu_stores(addr),
            Cartridge::UxRom(m) => m.ppu_stores(addr),
            Cartridge::Mmc3(m) => m.ppu_stores(addr),
        }
    }

    fn can_peek(&self, addr: u16) -> (r: bool) {
        match self {
            Cartridge::Nrom(m) => m.can_peek(addr),
            Cartridge::Mmc1(m) => m.can_peek(addr),
            Cartridge::UxRom(m) => m.can_peek(addr),
            Cartridge::Mmc3(m) => m.can_peek(addr),
        }
    }

    fn can_poke(&self, addr: u16) -> (r: bool) {
        match self {
            Cartridge::Nrom(m) => m.can_poke(addr),
            Cartridge::Mmc1(m) => m.can_poke(addr),
            Cartridge::UxRom(m) => m.can_poke(addr),
            Cartridge::Mmc3(m) => m.can_poke(addr),
        }
    }

    fn can_vpeek(&self, addr: u16) -> (r: bool) {
        match self {
            Cartridge::Nrom(m) => m.can_vpeek(addr),
            Cartridge::Mmc1(m) => m.can_vpeek(addr),
            Cartridge::UxRom(m) => m.can_vpeek(addr),
            Cartridge::Mmc3(m) => m.can_vpeek(addr),
        }
    }

    fn can_vpoke(&self, addr: u16) -> (r: bool) {
        match self {
            Cartridge::Nrom(m) => m.can_vpoke(addr),
            Cartridge::Mmc1(m) => m.can_vpoke(addr),
            Cartridge::UxRom(m) => m.can_vpoke(addr),
            Cartridge::Mmc3(m) => m.can_vpoke(addr),
        }
    }

    fn peek(&mut self, addr: u16) -> (r: u8) {
        match self {
            Cartridge::Nrom(m) => m.peek(addr),
            Cartridge::Mmc1(m) => m.peek(addr),
            Cartridge::UxRom(m) => m.peek(addr),
            Cartridge::Mmc3(m) => m.peek(addr),
        }
    }

    fn poke(&mut self, addr: u16, val: u8)
        ensures
            old(self).cpu_write_done(addr, val, *final(self)),
    {
        match self {
            Cartridge::Nrom(m) => m.poke(addr, val),
            Cartridge::Mmc1(m) => m.poke(addr, val),
            Cartridge::UxRom(m) => m.poke(addr, val),
            Cartridge::Mmc3(m) => m.poke(addr, val),
        }
    }

    fn vpeek(&mut self, addr: u16) -> (r: u8) {
        match self {
            Cartridge::Nrom(m) => m.vpeek(addr),
            Cartridge::Mmc1(m) => m.vpeek(addr),
            Cartridge::UxRom(m) => m.vpeek(addr),
            Cartridge::Mmc3(m) => m.vpeek(addr),
        }
    }

    fn vpoke(&mut self, addr: u16, val: u8) {
        match self {
            Cartridge::Nrom(m) => m.vpoke(addr, val),
            Cartridge::Mmc1(m) => m.vpoke(addr, val),
            Cartridge::UxRom(m) => m.vpoke(addr, val),
            Cartridge::Mmc3(m) => m.vpoke(addr, val),
        }
    }

    /// Only the MMC3 counts scanlines and raises interrupts.
    fn irq(&mut self) -> (r: bool)
        ensures
            match *old(self) {
                Cartridge::Mmc3(m0) => *final(self) matches Cartridge::Mmc3(m1) && {
                    &&& m1 == (mapper_004::State {
                        irq_counter: if m0.irq_counter == 0 { m0.irq_latch } else { (m0.irq_counter - 1) as u8 },
                        ..m0
                    })
                    &&& r == (m0.irq_counter == 0 && m0.irq_enable)
                },
                _ => *final(self) == *old(self) && !r,
            },
    {
        match self {
            Cartridge::Nrom(m) => m.irq(),
            Cartridge::Mmc1(m) => m.irq(),
            Cartridge::UxRom(m) => m.irq(),
            Cartridge::Mmc3(m) => m.irq(),
        }
    }
}

} // verus!
