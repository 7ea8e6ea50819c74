//! Mapper 0 (NROM): 16K or 32K of PRG ROM (16K is mirrored), 8K of PRG RAM, 8K of
//! CHR, and two nametables mirrored as the header says.
use vstd::prelude::*;
use crate::cartridge::mapper::Mapper;
use crate::rom::{MirrorMode, Rom};
use crate::bitmisc::lemma_u16_masks;

verus! {

pub struct Mappper000 {
    pub rom: Rom,
    pub mirror_prg: bool,
    pub prg_ram: Vec<u8>,
    pub vram: Vec<u8>,
}

/// The index into the two nametables of a PPU address in $2000-$2FFF: horizontal
/// mirroring folds $2400 onto $2000 and $2C00 onto $2800; vertical mirroring folds
/// $2800 onto $2000.
pub open spec fn nametable_index(mirroring: MirrorMode, addr: u16) -> int {
    if mirroring == MirrorMode::H {
        let t = addr & 0xBFF;
        if t > 0x7FF { ((t & 0x7FF) + 0x400) as int } else { t as int }
    } else {
        (addr & 0x7FF) as int
    }
}

impl Mappper000 {
    pub open spec fn state_wf(&self) -> bool {
        self.prg_ram@.len() == 0x2000 && self.vram@.len() == 0x800
    }

    /// What a CPU write of `val` to `addr` leaves: below $8000 the byte stored in PRG
    /// RAM, from $8000 up in PRG ROM; the rest as it was.
    pub open spec fn poke_done(&self, addr: u16, val: u8, after: Self) -> bool {
        &&& after.vram == self.vram
        &&& after.mirror_prg == self.mirror_prg
        &&& addr < 0x8000 ==> after.prg_ram@ == self.prg_ram@.update((addr % 0x2000) as int, val) && after.rom == self.rom
        &&& addr >= 0x8000 ==> {
            &&& after.rom.prg_rom@ == self.rom.prg_rom@.update(self.prg_index(addr), val)
            &&& after.rom.chr_rom == self.rom.chr_rom
            &&& after.rom.mirroring == self.rom.mirroring
            &&& after.prg_ram == self.prg_ram
        }
    }

    /// Tests the invariant.
    pub fn is_state_wf(&self) -> (r: bool)
        ensures
            r == self.state_wf(),
    {
        self.prg_ram.len() == 0x2000 && self.vram.len() == 0x800
    }

    /// The PRG ROM index of a CPU address at $8000 and up.
    pub open spec fn prg_index(&self, addr: u16) -> int {
        if self.mirror_prg { addr as int % 0x4000 } else { addr as int % 0x8000 }
    }

    pub fn new(rom: Rom) -> (m: Self)
        requires
            rom.prg_banks <= 2,
        ensures
            m.state_wf(),
            m.mirror_prg == (rom.prg_banks == 1),
            m.rom == rom,
            forall|i: int| 0 <= i < 0x2000 ==> m.prg_ram@[i] == 0,
            forall|i: int| 0 <= i < 0x800 ==> m.vram@[i] == 0,
    {
        let mirror_rom = rom.prg_banks == 1;
        Mappper000 { rom, mirror_prg: mirror_rom, prg_ram: vec![0u8; 0x2000], vram: vec![0u8; 0x800] }
    }

    pub fn peek_sram(&mut self, addr: u16) -> (r: u8)
        requires
            old(self).state_wf(),
        ensures
            r == old(self).prg_ram@[(addr % 0x2000) as int],
            *final(self) == *old(self),
    {
        proof { lemma_u16_masks(addr); }
        self.prg_ram[(addr & 0x1FFF) as usize]
    }

    pub fn poke_sram(&mut self, addr: u16, val: u8)
        requires
            old(self).state_wf(),
        ensures
            old(self).state_wf() ==> final(self).state_wf(),
            final(self).prg_ram@ == old(self).prg_ram@.update((addr % 0x2000) as int, val),
            final(self).vram == old(self).vram,
            final(self).rom == old(self).rom,
            final(self).mirror_prg == old(self).mirror_prg,
    {
        proof { lemma_u16_masks(addr); }
        self.prg_ram.set((addr & 0x1FFF) as usize, val);
    }

    fn prg_index_of(&self, addr: u16) -> (r: usize)
        ensures
            r == self.prg_index(addr),
    {
        proof { lemma_u16_masks(addr); }
        let addr = if self.mirror_prg { addr & 0xBFFF } else { addr };
        (addr & 0x7FFF) as usize
    }

    pub fn peek_prg_rom(&mut self, addr: u16) -> (r: u8)
        requires
            old(self).prg_index(addr) < old(self).rom.prg_rom@.len(),
        ensures
            r == old(self).rom.prg_rom@[old(self).prg_index(addr)],
            *final(self) == *old(self),
    {
        let i = self.prg_index_of(addr);
        self.rom.prg_rom[i]
    }

    pub fn poke_prg_rom(&mut self, addr: u16, val: u8)
        requires
            old(self).prg_index(addr) < old(self).rom.prg_rom@.len(),
        ensures
            old(self).state_wf() ==> final(self).state_wf(),
            final(self).rom.prg_rom@ == old(self).rom.prg_rom@.update(old(self).prg_index(addr), val),
            final(self).rom.chr_rom == old(self).rom.chr_rom,
            final(self).rom.mirroring == old(self).rom.mirroring,
            final(self).prg_ram == old(self).prg_ram,
            final(self).vram == old(self).vram,
            final(self).mirror_prg == old(self).mirror_prg,
    {
        let i = self.prg_index_of(addr);
        self.rom.prg_rom.set(i, val);
    }

    fn nametable_index_of(&self, addr: u16) -> (r: usize)
        ensures
            r == nametable_index(self.rom.mirroring, addr),
            r < 0x800,
    {
        proof { lemma_u16_masks(addr); }
        let index = if self.rom.mirroring == MirrorMode::H {
            let t = addr & 0xBFF;
            if t > 0x7FF {
                (t & 0x7FF) + 0x400
            } else {
                t
            }
        } else {
            addr & 0x7FF
        };
        index as usize
    }

    pub fn vpeek_nametable(&mut self, addr: u16) -> (r: u8)
        requires
            old(self).state_wf(),
        ensures
            r == old(self).vram@[nametable_index(old(self).rom.mirroring, addr)],
            *final(self) == *old(self),
    {
        let index = self.nametable_index_of(addr);
        self.vram[index]
    }

    pub fn vpoke_nametable(&mut self, addr: u16, val: u8)
        requires
            old(self).state_wf(),
        ensures
            old(self).state_wf() ==> final(self).state_wf(),
            final(self).vram@ == old(self).vram@.update(nametable_index(old(self).rom.mirroring, addr), val),
            0 <= nametable_index(old(self).rom.mirroring, addr) < 0x800,
            final(self).prg_ram == old(self).prg_ram,
            final(self).rom == old(self).rom,
            final(self).mirror_prg == old(self).mirror_prg,
    {
        let index = self.nametable_index_of(addr);
        self.vram.set(index, val);
    }

    pub fn vpeek_pattern(&mut self, addr: u16) -> (r: u8)
        requires
            (addr % 0x2000) < old(self).rom.chr_rom@.len(),
        ensures
            r == old(self).rom.chr_rom@[(addr % 0x2000) as int],
            *final(self) == *old(self),
    {
        proof { lemma_u16_masks(addr); }
        self.rom.chr_rom[(addr & 0x1FFF) as usize]
    }

    pub fn vpoke_pattern(&mut self, addr: u16, val: u8)
        requires
            (addr % 0x2000) < old(self).rom.chr_rom@.len(),
        ensures
            old(self).state_wf() ==> final(self).state_wf(),
            final(self).rom.chr_rom@ == old(self).rom.chr_rom@.update((addr % 0x2000) as int, val),
            final(self).rom.prg_rom == old(self).rom.prg_rom,
            final(self).rom.mirroring == old(self).rom.mirroring,
            final(self).prg_ram == old(self).prg_ram,
            final(self).vram == old(self).vram,
            final(self).mirror_prg == old(self).mirror_prg,
    {
        proof { lemma_u16_masks(addr); }
        self.rom.chr_rom.set((addr & 0x1FFF) as usize, val);
    }
}

impl Mapper for Mappper000 {
    open spec fn wf(&self) -> bool {
        self.state_wf()
    }

    /// $6000-$7FFF is PRG RAM; $8000 and up is PRG ROM, which must hold the byte.
    open spec fn cpu_readable(&self, addr: u16) -> bool {
        addr >= 0x6000 && (addr < 0x8000 || self.prg_index(addr) < self.rom.prg_rom@.len())
    }

    open spec fn cpu_writable(&self, addr: u16) -> bool {
        self.cpu_readable(addr)
    }

    /// $0000-$1FFF is CHR, which must hold the byte; $2000-$2FFF the nametables.
    open spec fn ppu_readable(&self, addr: u16) -> bool {
        addr < 0x3000 && (addr >= 0x2000 || addr % 0x2000 < self.rom.chr_rom@.len())
    }

    open spec fn ppu_writable(&self, addr: u16) -> bool {
        self.ppu_readable(addr)
    }

    open spec fn cpu_value(&self, addr: u16) -> u8 {
        if addr < 0x8000 { self.prg_ram@[(addr % 0x2000) as int] } else { self.rom.prg_rom@[self.prg_index(addr)] }
    }

    open spec fn ppu_value(&self, addr: u16) -> u8 {
        if addr < 0x2000 {
            self.rom.chr_rom@[(addr % 0x2000) as int]
        } else {
            self.vram@[nametable_index(self.rom.mirroring, addr)]
        }
    }

    /// Every write that is served is kept, PRG and CHR ROM included.
    open spec fn cpu_stores(&self, addr: u16) -> bool {
        self.cpu_writable(addr)
    }

    open spec fn ppu_stores(&self, addr: u16) -> bool {
        self.ppu_writable(addr)
    }

    fn can_peek(&self, addr: u16) -> (r: bool) {
        addr >= 0x6000 && (addr < 0x8000 || self.prg_index_of(addr) < self.rom.prg_rom.len())
    }

    fn can_poke(&self, addr: u16) -> (r: bool) {
        self.can_peek(addr)
    }

    fn can_vpeek(&self, addr: u16) -> (r: bool) {
        addr < 0x3000 && (addr >= 0x2000 || ((addr % 0x2000) as usize) < self.rom.chr_rom.len())
    }

    fn can_vpoke(&self, addr: u16) -> (r: bool) {
        self.can_vpeek(addr)
    }

    fn peek(&mut self, addr: u16) -> (r: u8) {
        if addr < 0x8000 {
            self.peek_sram(addr)
        } else {
            self.peek_prg_rom(addr)
        }
    }

    fn poke(&mut self, addr: u16, val: u8)
        ensures
            addr < 0x8000 ==> final(self).prg_ram@ == old(self).prg_ram@.update((addr % 0x2000) as int, val),
            addr >= 0x8000 ==> final(self).rom.prg_rom@ == old(self).rom.prg_rom@.update(old(self).prg_index(addr), val),
            old(self).poke_done(addr, val, *final(self)),
    {
        if addr < 0x8000 {
            self.poke_sram(addr, val)
        } else {
            self.poke_prg_rom(addr, val)
        }
    }

    fn vpeek(&mut self, addr: u16) -> (r: u8) {
        if addr < 0x2000 {
            self.vpeek_pattern(addr)
        } else {
            self.vpeek_nametable(addr)
        }
    }

    fn vpoke(&mut self, addr: u16, val: u8)
        ensures
            addr < 0x2000 ==> final(self).rom.chr_rom@ == old(self).rom.chr_rom@.update((addr % 0x2000) as int, val),
            addr >= 0x2000 ==> final(self).vram@ == old(self).vram@.update(nametable_index(old(self).rom.mirroring, addr), val),
    {
        if addr < 0x2000 {
            self.vpoke_pattern(addr, val)
        } else {
            self.vpoke_nametable(addr, val)
        }
    }

    /// This cartridge raises no interrupt.
    fn irq(&mut self) -> (r: bool)
        ensures
            !r,
            *final(self) == *old(self),
    {
        false
    }
}

/// The mask 0x7FF keeps the low eleven bits.
proof fn lemma_mask_7ff(v: u16)
    ensures
        v & 0x7FF == v % 0x800,
{
    assert(v & 0x7FF == v % 0x800) by (bit_vector);
}

/// The mask 0xBFF keeps the low ten bits and bit 11.
proof fn lemma_mask_bff(v: u16)
    ensures
        v & 0xBFF == v % 0x400 + (v / 0x800) % 2 * 0x800,
{
    assert(v & 0xBFF == v % 0x400 + (v / 0x800) % 2 * 0x800) by (bit_vector);
}

/// Where the four nametables of an NROM cartridge land in its 2K of nametable memory,
/// for an offset `k` inside a 1K table: with vertical mirroring $2000 and $2800 share
/// the first 1K and $2400 and $2C00 the second; with horizontal mirroring (header bit 0
/// clear) $2000 and $2400 share the first 1K and $2800 and $2C00 the second.
pub proof fn lemma_nametable_index(k: u16)
    requires
        k < 0x400,
    ensures
        nametable_index(MirrorMode::V, (0x2000 + k) as u16) == k,
        nametable_index(MirrorMode::V, (0x2800 + k) as u16) == k,
        nametable_index(MirrorMode::V, (0x2400 + k) as u16) == 0x400 + k,
        nametable_index(MirrorMode::V, (0x2C00 + k) as u16) == 0x400 + k,
        nametable_index(MirrorMode::H, (0x2000 + k) as u16) == k,
        nametable_index(MirrorMode::H, (0x2400 + k) as u16) == k,
        nametable_index(MirrorMode::H, (0x2800 + k) as u16) == 0x400 + k,
        nametable_index(MirrorMode::H, (0x2C00 + k) as u16) == 0x400 + k,
{
    let a0 = (0x2000 + k) as u16;
    let a1 = (0x2400 + k) as u16;
    let a2 = (0x2800 + k) as u16;
    let a3 = (0x2C00 + k) as u16;
    lemma_mask_7ff(a0);
    lemma_mask_7ff(a1);
    lemma_mask_7ff(a2);
    lemma_mask_7ff(a3);
    lemma_mask_bff(a0);
    lemma_mask_bff(a1);
    lemma_mask_bff(a2);
    lemma_mask_bff(a3);
    assert(a0 % 0x400 == k && a1 % 0x400 == k && a2 % 0x400 == k && a3 % 0x400 == k);
    assert(a0 / 0x800 == 4 && a1 / 0x800 == 4 && a2 / 0x800 == 5 && a3 / 0x800 == 5);
    let t2 = a2 & 0xBFF;
    let t3 = a3 & 0xBFF;
    assert(t2 == 0x800 + k && t3 == 0x800 + k);
    lemma_mask_7ff(t2);
    lemma_mask_7ff(t3);
}

} // verus!
