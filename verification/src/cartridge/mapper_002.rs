//! Mapper 2 (UxROM): a switchable 16K PRG ROM bank at $8000 and the last bank fixed
//! at $C000.
use vstd::prelude::*;
use crate::cartridge::mapper::{BaseMapper, BankType, BankWindow, MapTableItem, Mapper, MemAttr, lemma_aligned_window, lemma_cpu_mapped_read};
use crate::rom::{Rom, MirrorMode};

verus! {

pub struct State {
    pub inner: BaseMapper,
}

/// The PRG ROM sizes the mapper accepts: at least one 16K bank, and a number of 16K
/// banks that is not a multiple of 256 (the bank count is taken as a byte).
pub open spec fn prg_size_ok(len: int) -> bool {
    (len / 0x4000) as u8 != 0
}

impl State {
    pub open spec fn state_wf(&self) -> bool {
        &&& self.inner@.wf()
        &&& prg_size_ok(self.inner@.prg_rom.len() as int)
    }

    /// What a CPU write of `value` to `addr` leaves: below $8000 the byte in the window
    /// there; from $8000 up the 16K PRG bank at $8000 switched to bank `value % 8`.
    pub open spec fn poke_done(&self, addr: u16, value: u8, after: Self) -> bool {
        &&& addr < 0x8000 ==> after.inner@ == self.inner@.cpu_written(addr, value)
        &&& addr >= 0x8000 ==> after.inner@ == self.inner@.cpu_mapped(0x8000, BankType::PRG_ROM, value % 8,
            BankWindow::Size16k, MemAttr::ReadOnly)
    }

    /// Tests the invariant.
    pub fn is_state_wf(&self) -> (r: bool)
        ensures
            r == self.state_wf(),
    {
        let len = self.inner.prg_rom.len();
        self.inner.is_wf() && (len / 0x4000) as u8 != 0
    }

    /// The mapping after start-up: CHR bank 0 at $0000, PRG bank 0 at $8000 and the
    /// last PRG bank at $C000, nametables arranged as the header says.
    pub fn new(rom: &Rom) -> (s: Self)
        requires
            prg_size_ok(rom.prg_rom@.len() as int),
        ensures
            s.state_wf(),
            s.inner@.prg_rom == rom.prg_rom@,
            rom.chr_rom@.len() != 0 ==> s.inner@.chr_mem == rom.chr_rom@,
            s.inner@.prg_ram.len() == 0,
            s.inner@.cpu_map[1] == (MapTableItem { offset: 0, attribute: MemAttr::ReadOnly, bank_type: Some(BankType::PRG_ROM) }),
            s.inner@.cpu_map[3].offset == 0x4000 * (((rom.prg_rom@.len() / 0x4000) - 1) as u8 as int % (rom.prg_rom@.len() / 0x4000) as u8 as int),
            s.inner@.cpu_map[0].bank_type is None,
    {
        let mut inner = BaseMapper::new();
        inner.initialize(&rom.prg_rom, &rom.chr_rom, 0, 0x2000);
        proof {
            lemma_aligned_window(0x0000, BankWindow::Size8k);
            lemma_aligned_window(0x8000, BankWindow::Size16k);
            lemma_aligned_window(0xC000, BankWindow::Size16k);
        }
        inner.map_ppu_address(0x0000, BankType::CHR_MEM, 0, BankWindow::Size8k);
        let last_bank = inner.bank_num(BankType::PRG_ROM, BankWindow::Size16k) - 1;
        inner.map_cpu_address(0x8000, BankType::PRG_ROM, 0, BankWindow::Size16k);
        inner.map_cpu_address(0xC000, BankType::PRG_ROM, last_bank as u8, BankWindow::Size16k);
        match rom.mirroring {
            MirrorMode::V => {
                inner.initialize_and_map_nametable_vertical();
            },
            MirrorMode::H => {
                inner.initialize_and_map_nametable_horizontal();
            },
        };
        State { inner }
    }
}

impl Mapper for State {
    open spec fn wf(&self) -> bool {
        self.state_wf()
    }

    open spec fn cpu_readable(&self, addr: u16) -> bool {
        self.inner@.cpu_readable(addr)
    }

    /// Writes to $6000-$7FFF go to the window there; writes to $8000-$FFFF select a bank.
    open spec fn cpu_writable(&self, addr: u16) -> bool {
        addr >= 0x8000 || self.inner@.cpu_writable(addr)
    }

    open spec fn ppu_readable(&self, addr: u16) -> bool {
        self.inner@.ppu_readable(addr)
    }

    open spec fn ppu_writable(&self, addr: u16) -> bool {
        self.inner@.ppu_writable(addr)
    }

    open spec fn cpu_value(&self, addr: u16) -> u8 {
        self.inner@.cpu_value(addr)
    }

    open spec fn ppu_value(&self, addr: u16) -> u8 {
        self.inner@.ppu_value(addr)
    }

    /// Writes below $8000 reach memory; above, they set the mapper's registers.
    open spec fn cpu_stores(&self, addr: u16) -> bool {
        addr < 0x8000 && self.inner@.cpu_stores(addr)
    }

    open spec fn ppu_stores(&self, addr: u16) -> bool {
        self.inner@.ppu_stores(addr)
    }

    fn can_peek(&self, addr: u16) -> (r: bool) {
        self.inner.can_peek_cpu(addr)
    }

    fn can_poke(&self, addr: u16) -> (r: bool) {
        addr >= 0x8000 || self.inner.can_poke_cpu(addr)
    }

    fn can_vpeek(&self, addr: u16) -> (r: bool) {
        self.inner.can_peek_ppu(addr)
    }

    fn can_vpoke(&self, addr: u16) -> (r: bool) {
        self.inner.can_poke_ppu(addr)
    }

    fn peek(&mut self, addr: u16) -> (r: u8) {
        self.inner.peek_cpu_memory(addr)
    }

    /// A write to $8000-$FFFF maps PRG bank `value & 7` (reduced modulo the bank
    /// count) at $8000.
    fn poke(&mut self, addr: u16, value: u8)
        ensures
            addr < 0x8000 ==> final(self).inner@ == old(self).inner@.cpu_written(addr, value),
            addr >= 0x8000 ==> final(self).inner@ == old(self).inner@.cpu_mapped(
                0x8000,
                BankType::PRG_ROM,
                value % 8,
                BankWindow::Size16k,
                MemAttr::ReadOnly,
            ),
            old(self).poke_done(addr, value, *final(self)),
    {
        if addr < 0x8000 {
            self.inner.poke_cpu_memory(addr, value)
        } else {
            let selector = value & 0b0000_0111;
            proof {
                crate::bitmisc::lemma_u8_bits(value);
                lemma_aligned_window(0x8000, BankWindow::Size16k);
            }
            self.inner.map_cpu_address(0x8000, BankType::PRG_ROM, selector, BankWindow::Size16k);
        }
    }

    fn vpeek(&mut self, addr: u16) -> (r: u8) {
        self.inner.peek_ppu_memory(addr)
    }

    fn vpoke(&mut self, addr: u16, value: u8)
        ensures
            final(self).inner@ == old(self).inner@.ppu_written(addr, value),
    {
        self.inner.poke_ppu_memory(addr, value)
    }

    /// This cartridge raises no interrupt.
    fn irq(&mut self) -> (r: bool)
        ensures
            !r,
            *final(self) == *old(self),
    {
        false
    }
}

/// A write from $8000 up selects the 16K PRG bank at $8000-$BFFF: bank `value % 8`,
/// reduced by the number of 16K banks. CPU reads there give that bank's bytes; the rest
/// of CPU space, the fixed last bank at $C000 included, maps as before.
pub proof fn lemma_bank_select(s: State, addr: u16, value: u8, after: State, a: u16)
    requires
        s.state_wf(),
        addr >= 0x8000,
        s.poke_done(addr, value, after),
        a >= 0x6000,
    ensures
        ({
            let nb = (s.inner@.prg_rom.len() / 0x4000) as u8 as int;
            let bank = (value % 8) as int % nb;
            &&& 0x8000 <= a < 0xC000 ==> after.inner@.cpu_value(a) == s.inner@.prg_rom[0x4000 * bank + (a - 0x8000)]
            &&& !(0x8000 <= a < 0xC000) ==> after.inner@.cpu_item(a) == s.inner@.cpu_item(a)
        }),
{
    let v = s.inner@;
    let w = BankWindow::Size16k;
    let p = BankType::PRG_ROM;
    lemma_aligned_window(0x8000, w);
    assert(v.cpu_map_ok(0x8000, p, w));
    if 0x8000 <= a < 0xC000 {
        lemma_cpu_mapped_read(v, 0x8000, p, value % 8, w, MemAttr::ReadOnly, a);
    }
}

} // verus!
