//! The loader that builds a cartridge for the mapper number a ROM names.
use vstd::prelude::*;
use crate::cartridge::Cartridge;
use crate::cartridge::mapper::Mapper;
use crate::error::LoadError;
use crate::rom::Rom;

pub mod mapper000;

verus! {

/// Builds the cartridge for a parsed image. Only mapper 0 is supported here; other
/// mapper numbers are refused.
pub fn create_mapper(rom: Rom) -> (r: Result<Cartridge, LoadError>)
    requires
        rom.mapper_id == 0 ==> rom.prg_banks <= 2,
    ensures
        rom.mapper_id == 0 <==> r is Ok,
        rom.mapper_id != 0 ==> (r matches Err(LoadError::UnsupportedMapper(id)) && id == rom.mapper_id),
        r matches Ok(c) ==> c.wf() && c is Nrom,
        r matches Ok(Cartridge::Nrom(m)) ==> m.rom == rom && m.mirror_prg == (rom.prg_banks == 1)
            && (forall|i: int| 0 <= i < 0x2000 ==> m.prg_ram@[i] == 0)
            && (forall|i: int| 0 <= i < 0x800 ==> m.vram@[i] == 0),
{
    if rom.mapper_id == 0 {
        Ok(Cartridge::Nrom(mapper000::Mappper000::new(rom)))
    } else {
        let id = rom.mapper_id;
        Err(LoadError::UnsupportedMapper(id))
    }
}

} // verus!
