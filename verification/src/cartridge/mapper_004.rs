//! Mapper 4 (MMC3): eight bank registers selected through $8000, CHR in 2K and 1K
//! banks, PRG in 8K banks, switchable mirroring and a scanline counter.
use vstd::prelude::*;
use crate::cartridge::mapper::{BaseMapper, BankType, BankWindow, MapperView, Mapper, MemAttr, lemma_aligned_window, lemma_cpu_mapped_read, lemma_ppu_mapped_read, lemma_nametable_banks};
use crate::rom::{Rom, MirrorMode};
use crate::bitmisc::lemma_u8_bits;

verus! {

pub struct State {
    pub inner: BaseMapper,
    pub bank_register: u8,
    pub prg_rom_bank_mode: bool,
    pub chr_a12_inversion: bool,
    pub second_last_prg_rom_bank: usize,
    pub irq_enable: bool,
    pub irq_counter: u8,
    pub irq_latch: u8,
    pub four_screen: bool,
}

/// The PRG ROM sizes the mapper accepts: the count of 8K banks, taken as a byte, is
/// not zero.
pub open spec fn prg_size_ok(len: int) -> bool {
    (len / 0x2000) as u8 != 0
}

/// The tables after a write of `value` to the bank data register while bank register
/// `reg` is selected.
pub open spec fn bank_data_written(v: MapperView, reg: u8, a12: bool, prg_mode: bool, second_last: u8, value: u8) -> MapperView {
    let c = v.default_attr(BankType::CHR_MEM);
    let q = BankType::CHR_MEM;
    let p = BankType::PRG_ROM;
    let ro = v.default_attr(p);
    let w2 = BankWindow::Size2k;
    let w1 = BankWindow::Size1k;
    let w8 = BankWindow::Size8k;
    if reg == 0 {
        v.ppu_mapped(if a12 { 0x1000 } else { 0x0000 }, q, value >> 1u8, w2, c)
    } else if reg == 1 {
        v.ppu_mapped(if a12 { 0x1800 } else { 0x0800 }, q, value >> 1u8, w2, c)
    } else if reg == 2 {
        v.ppu_mapped(if a12 { 0x0000 } else { 0x1000 }, q, value, w1, c)
    } else if reg == 3 {
        v.ppu_mapped(if a12 { 0x0400 } else { 0x1400 }, q, value, w1, c)
    } else if reg == 4 {
        v.ppu_mapped(if a12 { 0x0800 } else { 0x1800 }, q, value, w1, c)
    } else if reg == 5 {
        v.ppu_mapped(if a12 { 0x0C00 } else { 0x1C00 }, q, value, w1, c)
    } else if reg == 6 {
        if !prg_mode {
            v.cpu_mapped(0x8000, p, value & 0b0011_1111, w8, ro).cpu_mapped(0xC000, p, second_last, w8, ro)
        } else {
            v.cpu_mapped(0xC000, p, value & 0b0011_1111, w8, ro).cpu_mapped(0x8000, p, second_last, w8, ro)
        }
    } else {
        v.cpu_mapped(0xA000, p, value & 0b0011_1111, w8, ro)
    }
}

impl State {
    pub open spec fn state_wf(&self) -> bool {
        &&& self.inner@.wf()
        &&& prg_size_ok(self.inner@.prg_rom.len() as int)
        &&& self.bank_register < 8
    }

    /// The registers beside the tables: bank register, PRG mode, CHR inversion,
    /// second-last PRG bank, IRQ enable, counter and latch, four-screen flag.
    pub open spec fn regs(&self) -> (u8, bool, bool, usize, bool, u8, u8, bool) {
        (self.bank_register, self.prg_rom_bank_mode, self.chr_a12_inversion, self.second_last_prg_rom_bank,
            self.irq_enable, self.irq_counter, self.irq_latch, self.four_screen)
    }

    /// What a CPU write of `value` to `addr` leaves. Below $8000: the byte in the window
    /// there. $8000-$9FFF even: bank register, PRG mode and CHR inversion; odd: the bank
    /// data. $A000-$BFFF even: the nametable arrangement; odd: nothing. $C000-$DFFF even:
    /// the IRQ latch; odd: the IRQ counter cleared. $E000 up: IRQs disabled (even) or
    /// enabled (odd). Everything else stays.
    pub open spec fn poke_done(&self, addr: u16, value: u8, after: Self) -> bool {
        let (b, pm, ci, sl, ie, ic, il, fs) = self.regs();
        if addr < 0x8000 {
            after.inner@ == self.inner@.cpu_written(addr, value) && after.regs() == self.regs()
        } else if addr <= 0x9FFF {
            if addr % 2 == 0 {
                after.inner@ == self.inner@
                    && after.regs() == (value % 8, value / 64 % 2 == 1, value >= 128, sl, ie, ic, il, fs)
            } else {
                after.inner@ == bank_data_written(self.inner@, b, ci, pm, sl as u8, value) && after.regs() == self.regs()
            }
        } else if addr <= 0xBFFF {
            after.regs() == self.regs() && after.inner@ == if addr % 2 == 1 {
                self.inner@
            } else if fs {
                self.inner@.nametable_arranged(0x2000, 0, 1, 2, 3)
            } else if value % 2 == 0 {
                self.inner@.nametable_arranged(0x800, 0, 1, 0, 1)
            } else {
                self.inner@.nametable_arranged(0x800, 0, 0, 1, 1)
            }
        } else if addr <= 0xDFFF {
            after.inner@ == self.inner@ && after.regs() == if addr % 2 == 0 {
                (b, pm, ci, sl, ie, ic, value, fs)
            } else {
                (b, pm, ci, sl, ie, 0u8, il, fs)
            }
        } else {
            after.inner@ == self.inner@ && after.regs() == (b, pm, ci, sl, addr % 2 == 1, ic, il, fs)
        }
    }

    /// Tests the invariant.
    pub fn is_state_wf(&self) -> (r: bool)
        ensures
            r == self.state_wf(),
    {
        let len = self.inner.prg_rom.len();
        self.inner.is_wf() && (len / 0x2000) as u8 != 0 && self.bank_register < 8
    }

    /// Start-up: 8K PRG RAM at $6000, 8K of CHR at $0000, PRG banks 0, 0, second-last and
    /// last at $8000, $A000, $C000, $E000, and the nametables as the header says.
    pub fn new(rom: &Rom) -> (s: Self)
        requires
            prg_size_ok(rom.prg_rom@.len() as int),
        ensures
            s.state_wf(),
            s.inner@.prg_rom == rom.prg_rom@,
            rom.chr_rom@.len() != 0 ==> s.inner@.chr_mem == rom.chr_rom@,
            s.inner@.prg_ram.len() == 0x2000,
            s.bank_register == 0,
            !s.prg_rom_bank_mode,
            !s.chr_a12_inversion,
            s.second_last_prg_rom_bank == (if rom.prg_rom@.len() / 0x2000 > 2 { rom.prg_rom@.len() / 0x2000 - 2 } else { 0 }),
            !s.irq_enable,
            s.irq_counter == 0,
            s.irq_latch == 0,
            s.four_screen == rom.four_screen_mode,
    {
        let mut inner = BaseMapper::new();
        inner.initialize(&rom.prg_rom, &rom.chr_rom, 0x2000, 0x2000);
        proof {
            lemma_aligned_window(0x6000, BankWindow::Size8k);
            lemma_aligned_window(0x0000, BankWindow::Size8k);
            lemma_aligned_window(0x8000, BankWindow::Size8k);
            lemma_aligned_window(0xA000, BankWindow::Size8k);
            lemma_aligned_window(0xC000, BankWindow::Size8k);
            lemma_aligned_window(0xE000, BankWindow::Size8k);
        }
        inner.map_cpu_address(0x6000, BankType::PRG_RAM, 0, BankWindow::Size8k);
        inner.map_ppu_address(0x0000, BankType::CHR_MEM, 0, BankWindow::Size8k);
        let second_last_prg_rom_bank = if inner.bank_num(BankType::PRG_ROM, BankWindow::Size8k) > 2 {
            inner.bank_num(BankType::PRG_ROM, BankWindow::Size8k) - 2
        } else {
            0
        };
        let last_bank = inner.bank_num(BankType::PRG_ROM, BankWindow::Size8k) - 1;
        inner.map_cpu_address(0x8000, BankType::PRG_ROM, 0, BankWindow::Size8k);
        inner.map_cpu_address(0xA000, BankType::PRG_ROM, 0, BankWindow::Size8k);
        inner.map_cpu_address(0xC000, BankType::PRG_ROM, second_last_prg_rom_bank as u8, BankWindow::Size8k);
        inner.map_cpu_address(0xE000, BankType::PRG_ROM, last_bank as u8, BankWindow::Size8k);
        if rom.four_screen_mode {
            inner.initialize_and_map_nametable_fourscreen();
        } else {
            match rom.mirroring {
                MirrorMode::V => {
                    inner.initialize_and_map_nametable_vertical();
                },
                MirrorMode::H => {
                    inner.initialize_and_map_nametable_horizontal();
                },
            }
        }
        State {
            inner,
            bank_register: 0,
            prg_rom_bank_mode: false,
            chr_a12_inversion: false,
            second_last_prg_rom_bank,
            irq_enable: false,
            irq_counter: 0,
            irq_latch: 0,
            four_screen: rom.four_screen_mode,
        }
    }

    fn write_bank_data(&mut self, value: u8)
        requires
            old(self).state_wf(),
        ensures
            final(self).state_wf(),
            final(self).inner@ == bank_data_written(
                old(self).inner@,
                old(self).bank_register,
                old(self).chr_a12_inversion,
                old(self).prg_rom_bank_mode,
                old(self).second_last_prg_rom_bank as u8,
                value,
            ),
            final(self).bank_register == old(self).bank_register,
            final(self).prg_rom_bank_mode == old(self).prg_rom_bank_mode,
            final(self).chr_a12_inversion == old(self).chr_a12_inversion,
            final(self).second_last_prg_rom_bank == old(self).second_last_prg_rom_bank,
            final(self).irq_enable == old(self).irq_enable,
            final(self).irq_counter == old(self).irq_counter,
            final(self).irq_latch == old(self).irq_latch,
            final(self).four_screen == old(self).four_screen,
    {
        proof {
            lemma_u8_bits(value);
            lemma_aligned_window(0x0000, BankWindow::Size2k);
            lemma_aligned_window(0x0800, BankWindow::Size2k);
            lemma_aligned_window(0x1000, BankWindow::Size2k);
            lemma_aligned_window(0x1800, BankWindow::Size2k);
            lemma_aligned_window(0x0000, BankWindow::Size1k);
            lemma_aligned_window(0x0400, BankWindow::Size1k);
            lemma_aligned_window(0x0800, BankWindow::Size1k);
            lemma_aligned_window(0x0C00, BankWindow::Size1k);
            lemma_aligned_window(0x1000, BankWindow::Size1k);
            lemma_aligned_window(0x1400, BankWindow::Size1k);
            lemma_aligned_window(0x1800, BankWindow::Size1k);
            lemma_aligned_window(0x1C00, BankWindow::Size1k);
            lemma_aligned_window(0x8000, BankWindow::Size8k);
            lemma_aligned_window(0xA000, BankWindow::Size8k);
            lemma_aligned_window(0xC000, BankWindow::Size8k);
        }
        let reg = self.bank_register;
        let a12 = self.chr_a12_inversion;
        let second_last = self.second_last_prg_rom_bank as u8;
        if reg == 0 {
            self.inner.map_ppu_address(if a12 { 0x1000 } else { 0x0000 }, BankType::CHR_MEM, value >> 1, BankWindow::Size2k)
        } else if reg == 1 {
            self.inner.map_ppu_address(if a12 { 0x1800 } else { 0x0800 }, BankType::CHR_MEM, value >> 1, BankWindow::Size2k)
        } else if reg == 2 {
            self.inner.map_ppu_address(if a12 { 0x0000 } else { 0x1000 }, BankType::CHR_MEM, value, BankWindow::Size1k)
        } else if reg == 3 {
            self.inner.map_ppu_address(if a12 { 0x0400 } else { 0x1400 }, BankType::CHR_MEM, value, BankWindow::Size1k)
        } else if reg == 4 {
            self.inner.map_ppu_address(if a12 { 0x0800 } else { 0x1800 }, BankType::CHR_MEM, value, BankWindow::Size1k)
        } else if reg == 5 {
            self.inner.map_ppu_address(if a12 { 0x0C00 } else { 0x1C00 }, BankType::CHR_MEM, value, BankWindow::Size1k)
        } else if reg == 6 {
            if !self.prg_rom_bank_mode {
                self.inner.map_cpu_address(0x8000, BankType::PRG_ROM, value & 0b0011_1111, BankWindow::Size8k);
                self.inner.map_cpu_address(0xC000, BankType::PRG_ROM, second_last, BankWindow::Size8k);
            } else {
                self.inner.map_cpu_address(0xC000, BankType::PRG_ROM, value & 0b0011_1111, BankWindow::Size8k);
                self.inner.map_cpu_address(0x8000, BankType::PRG_ROM, second_last, BankWindow::Size8k);
            }
        } else {
            self.inner.map_cpu_address(0xA000, BankType::PRG_ROM, value & 0b0011_1111, BankWindow::Size8k);
        }
    }
}

impl Mapper for State {
    open spec fn wf(&self) -> bool {
        self.state_wf()
    }

    open spec fn cpu_readable(&self, addr: u16) -> bool {
        self.inner@.cpu_readable(addr)
    }

    open spec fn cpu_writable(&self, addr: u16) -> bool {
        addr >= 0x8000 || self.inner@.cpu_writable(addr)
    }

    open spec fn ppu_readable(&self, addr: u16) -> bool {
        self.inner@.ppu_readable(addr)
    }

    open spec fn ppu_writable(&self, addr: u16) -> bool {
        self.inner@.ppu_writable(addr)
    }

    open spec fn cpu_value(&self, addr: u16) -> u8 {
        self.inner@.cpu_value(addr)
    }

    open spec fn ppu_value(&self, addr: u16) -> u8 {
        self.inner@.ppu_value(addr)
    }

    /// Writes below $8000 reach memory; above, they set the mapper's registers.
    open spec fn cpu_stores(&self, addr: u16) -> bool {
        addr < 0x8000 && self.inner@.cpu_stores(addr)
    }

    open spec fn ppu_stores(&self, addr: u16) -> bool {
        self.inner@.ppu_stores(addr)
    }

    fn can_peek(&self, addr: u16) -> (r: bool) {
        self.inner.can_peek_cpu(addr)
    }

    fn can_poke(&self, addr: u16) -> (r: bool) {
        addr >= 0x8000 || self.inner.can_poke_cpu(addr)
    }

    fn can_vpeek(&self, addr: u16) -> (r: bool) {
        self.inner.can_peek_ppu(addr)
    }

    fn can_vpoke(&self, addr: u16) -> (r: bool) {
        self.inner.can_poke_ppu(addr)
    }

    fn peek(&mut self, addr: u16) -> (r: u8) {
        self.inner.peek_cpu_memory(addr)
    }

    /// $8000 even: bank select; odd: bank data. $A000 even: mirroring (four-screen
    /// cartridges stay four-screen); odd (PRG RAM protect) is ignored. $C000 even: IRQ
    /// latch; odd: counter cleared. $E000 even: IRQ disabled; odd: enabled.
    fn poke(&mut self, addr: u16, value: u8)
        ensures
            addr < 0x8000 ==> final(self).inner@ == old(self).inner@.cpu_written(addr, value)
                && final(self).bank_register == old(self).bank_register,
            0x8000 <= addr <= 0x9FFF && addr % 2 == 0 ==> {
                &&& final(self).chr_a12_inversion == (value >= 128)
                &&& final(self).prg_rom_bank_mode == (value / 64 % 2 == 1)
                &&& final(self).bank_register == value % 8
                &&& final(self).inner@ == old(self).inner@
            },
            0x8000 <= addr <= 0x9FFF && addr % 2 == 1 ==> final(self).inner@ == bank_data_written(
                old(self).inner@,
                old(self).bank_register,
                old(self).chr_a12_inversion,
                old(self).prg_rom_bank_mode,
                old(self).second_last_prg_rom_bank as u8,
                value,
            ),
            0xA000 <= addr <= 0xBFFF && addr % 2 == 0 ==> final(self).inner@ == (if old(self).four_screen {
                old(self).inner@.nametable_arranged(0x2000, 0, 1, 2, 3)
            } else if value % 2 == 0 {
                old(self).inner@.nametable_arranged(0x800, 0, 1, 0, 1)
            } else {
                old(self).inner@.nametable_arranged(0x800, 0, 0, 1, 1)
            }),
            0xC000 <= addr <= 0xDFFF && addr % 2 == 0 ==> final(self).irq_latch == value,
            0xC000 <= addr <= 0xDFFF && addr % 2 == 1 ==> final(self).irq_counter == 0,
            0xE000 <= addr ==> final(self).irq_enable == (addr % 2 == 1),
            old(self).poke_done(addr, value, *final(self)),
    {
        if addr < 0x8000 {
            self.inner.poke_cpu_memory(addr, value)
        } else if addr <= 0x9FFF {
            if addr % 2 == 0 {
                proof {
                    lemma_u8_bits(value);
                }
                self.chr_a12_inversion = value & 0b1000_0000 != 0;
                self.prg_rom_bank_mode = value & 0b0100_0000 != 0;
                self.bank_register = value & 0b0000_0111;
            } else {
                self.write_bank_data(value);
            }
        } else if addr <= 0xBFFF {
            if addr % 2 == 0 {
                if self.four_screen {
                    self.inner.initialize_and_map_nametable_fourscreen();
                } else if value % 2 == 0 {
                    self.inner.initialize_and_map_nametable_vertical();
                } else {
                    self.inner.initialize_and_map_nametable_horizontal();
                }
            }
        } else if addr <= 0xDFFF {
            if addr % 2 == 0 {
                self.irq_latch = value;
            } else {
                self.irq_counter = 0;
            }
        } else {
            if addr % 2 == 0 {
                self.irq_enable = false;
            } else {
                self.irq_enable = true;
            }
        }
    }

    fn vpeek(&mut self, addr: u16) -> (r: u8) {
        self.inner.peek_ppu_memory(addr)
    }

    fn vpoke(&mut self, addr: u16, value: u8)
        ensures
            final(self).inner@ == old(self).inner@.ppu_written(addr, value),
    {
        self.inner.poke_ppu_memory(addr, value)
    }

    /// The scanline counter: at zero it reloads from the latch and reports an
    /// interrupt if enabled; otherwise it counts down.
    fn irq(&mut self) -> (r: bool)
        ensures
            old(self).irq_counter == 0 ==> final(self).irq_counter == old(self).irq_latch && r == old(self).irq_enable,
            old(self).irq_counter != 0 ==> final(self).irq_counter == old(self).irq_counter - 1 && !r,
            final(self).inner@ == old(self).inner@,
            final(self).irq_latch == old(self).irq_latch,
            final(self).irq_enable == old(self).irq_enable,
            *final(self) == (State { irq_counter: final(self).irq_counter, ..*old(self) }),
    {
        if self.irq_counter == 0 {
            self.irq_counter = self.irq_latch;
            self.irq_enable
        } else {
            self.irq_counter = self.irq_counter - 1;
            false
        }
    }
}

/// With bank register 7 selected, a bank data write ($8001, odd addresses in
/// $8000-$9FFF) puts 8K PRG bank `value % 64` (reduced by the number of 8K banks) at
/// $A000-$BFFF: CPU reads there give that bank's bytes, and the rest of CPU space maps
/// as before.
pub proof fn lemma_r7_selects_a000(s: State, addr: u16, value: u8, after: State, a: u16)
    requires
        s.state_wf(),
        s.bank_register == 7,
        0x8000 <= addr <= 0x9FFF,
        addr % 2 == 1,
        s.poke_done(addr, value, after),
        a >= 0x6000,
    ensures
        ({
            let nb = (s.inner@.prg_rom.len() / 0x2000) as u8 as int;
            let bank = (value % 64) as int % nb;
            &&& 0xA000 <= a < 0xC000 ==> after.inner@.cpu_item(a).bank_type == Some(BankType::PRG_ROM)
                && after.inner@.cpu_value(a) == s.inner@.prg_rom[0x2000 * bank + (a - 0xA000)]
            &&& !(0xA000 <= a < 0xC000) ==> after.inner@.cpu_item(a) == s.inner@.cpu_item(a)
        }),
{
    let v = s.inner@;
    let w8 = BankWindow::Size8k;
    let p = BankType::PRG_ROM;
    let sel = value & 0b0011_1111;
    assert(value & 0b0011_1111 == value % 64) by (bit_vector);
    assert(v.cpu_map_ok(0xA000, p, w8));
    lemma_aligned_window(0xA000, w8);
    if 0xA000 <= a < 0xC000 {
        lemma_cpu_mapped_read(v, 0xA000, p, sel, w8, v.default_attr(p), a);
    }
}

/// A mirroring write ($A000, even addresses in $A000-$BFFF) on a cartridge that is not
/// four-screen: an even value gives vertical mirroring ($2000 and $2800 share the first
/// 1K bank, $2400 and $2C00 the second), an odd value horizontal mirroring ($2000 and
/// $2400 share the first bank, $2800 and $2C00 the second). The registers stay.
pub proof fn lemma_mirroring_write(s: State, addr: u16, value: u8, after: State, k: u16)
    requires
        s.state_wf(),
        !s.four_screen,
        0xA000 <= addr <= 0xBFFF,
        addr % 2 == 0,
        s.poke_done(addr, value, after),
        k < 0x400,
        s.inner@.chr_mem.len() == 0 || s.inner@.chr_mem.len() >= 0x800,
    ensures
        ({
            let n = after.inner@;
            let off = |a: int| n.ppu_item(a as u16).offset;
            &&& after.regs() == s.regs()
            &&& n.ppu_item((0x2000 + k) as u16).bank_type == Some(BankType::NAMETABLE)
            &&& n.ppu_item((0x2C00 + k) as u16).bank_type == Some(BankType::NAMETABLE)
            &&& value % 2 == 0 ==> off(0x2000 + k) == 0 && off(0x2400 + k) == 0x400 && off(0x2800 + k) == 0
                && off(0x2C00 + k) == 0x400
            &&& value % 2 == 1 ==> off(0x2000 + k) == 0 && off(0x2400 + k) == 0 && off(0x2800 + k) == 0x400
                && off(0x2C00 + k) == 0x400
        }),
{
    if value % 2 == 0 {
        lemma_nametable_banks(s.inner@, 0, 1, 0, 1, k);
    } else {
        lemma_nametable_banks(s.inner@, 0, 0, 1, 1, k);
    }
}

/// With bank register 6 selected, a bank data write puts 8K PRG bank `value % 64`
/// (reduced by the number of 8K banks) at $8000 and the second-last bank at $C000 in PRG
/// mode 0, and the other way round in PRG mode 1; $A000 and $E000 map as before.
pub proof fn lemma_r6_selects_prg(s: State, addr: u16, value: u8, after: State, a: u16)
    requires
        s.state_wf(),
        s.bank_register == 6,
        0x8000 <= addr <= 0x9FFF,
        addr % 2 == 1,
        s.poke_done(addr, value, after),
        s.second_last_prg_rom_bank < 256,
        a >= 0x6000,
    ensures
        ({
            let nb = (s.inner@.prg_rom.len() / 0x2000) as u8 as int;
            let bank = (value % 64) as int % nb;
            let second = s.second_last_prg_rom_bank as int % nb;
            let (sel_at, last_at) = if !s.prg_rom_bank_mode { (0x8000int, 0xC000int) } else { (0xC000int, 0x8000int) };
            &&& sel_at <= a < sel_at + 0x2000 ==> after.inner@.cpu_value(a) == s.inner@.prg_rom[0x2000 * bank + (a - sel_at)]
            &&& last_at <= a < last_at + 0x2000 ==> after.inner@.cpu_value(a) == s.inner@.prg_rom[0x2000 * second + (a - last_at)]
            &&& (a < 0x8000 || (0xA000 <= a < 0xC000) || a >= 0xE000) ==> after.inner@.cpu_item(a) == s.inner@.cpu_item(a)
        }),
{
    let v = s.inner@;
    let w8 = BankWindow::Size8k;
    let p = BankType::PRG_ROM;
    let ro = v.default_attr(p);
    let sl = s.second_last_prg_rom_bank as u8;
    assert(value & 0b0011_1111 == value % 64) by (bit_vector);
    let sel = value & 0b0011_1111;
    lemma_aligned_window(0x8000, w8);
    lemma_aligned_window(0xC000, w8);
    if !s.prg_rom_bank_mode {
        let v1 = v.cpu_mapped(0x8000, p, sel, w8, ro);
        assert(v1.cpu_map_ok(0xC000, p, w8));
        if 0x8000 <= a < 0xA000 {
            lemma_cpu_mapped_read(v, 0x8000, p, sel, w8, ro, a);
        }
        if 0xC000 <= a < 0xE000 {
            lemma_cpu_mapped_read(v1, 0xC000, p, sl, w8, ro, a);
        }
    } else {
        let v1 = v.cpu_mapped(0xC000, p, sel, w8, ro);
        assert(v1.cpu_map_ok(0x8000, p, w8));
        if 0xC000 <= a < 0xE000 {
            lemma_cpu_mapped_read(v, 0xC000, p, sel, w8, ro, a);
        }
        if 0x8000 <= a < 0xA000 {
            lemma_cpu_mapped_read(v1, 0x8000, p, sl, w8, ro, a);
        }
    }
}

/// The CHR window that bank register `reg` (0-5) selects: registers 0 and 1 are 2K
/// windows at $0000 and $0800, registers 2-5 1K windows at $1000-$1C00; CHR inversion
/// swaps the halves $0000-$0FFF and $1000-$1FFF.
pub open spec fn chr_window(reg: u8, a12: bool) -> (int, int) {
    if reg == 0 {
        (if a12 { 0x1000int } else { 0x0000int }, 0x800int)
    } else if reg == 1 {
        (if a12 { 0x1800int } else { 0x0800int }, 0x800int)
    } else if reg == 2 {
        (if a12 { 0x0000int } else { 0x1000int }, 0x400int)
    } else if reg == 3 {
        (if a12 { 0x0400int } else { 0x1400int }, 0x400int)
    } else if reg == 4 {
        (if a12 { 0x0800int } else { 0x1800int }, 0x400int)
    } else {
        (if a12 { 0x0C00int } else { 0x1C00int }, 0x400int)
    }
}

/// A PPU window mapped at `b` leaves the table outside it as it was.
proof fn lemma_ppu_mapped_elsewhere(v: MapperView, b: u16, q: BankType, sel: u8, w: BankWindow, c: MemAttr, a: u16)
    requires
        b % 0x400 == 0,
        b < 0x2000,
        w.spec_size() <= 0x800,
        !(b <= a < b + w.spec_size()),
        a < 0x3000,
    ensures
        v.ppu_mapped(b, q, sel, w, c).ppu_item(a) == v.ppu_item(a),
{
    lemma_aligned_window(b, w);
    assert(MapperView::ppu_base(b, w) == b / 0x400);
}

/// With bank register 0-5 selected, a bank data write maps its CHR window onto the bank
/// `value` names (for the 2K registers `value / 2`, in 2K units), reduced by the number
/// of banks of the window's size: PPU reads in the window give that bank's bytes, and
/// the rest of the PPU table is as it was.
#[verifier::spinoff_prover]
#[verifier::rlimit(60)]
pub proof fn lemma_chr_registers(s: State, addr: u16, value: u8, after: State, a: u16)
    requires
        s.state_wf(),
        s.bank_register < 6,
        0x8000 <= addr <= 0x9FFF,
        addr % 2 == 1,
        s.poke_done(addr, value, after),
        a < 0x3000,
    ensures
        ({
            let (base, size) = chr_window(s.bank_register, s.chr_a12_inversion);
            let sel = if s.bank_register < 2 { (value / 2) as int } else { value as int };
            let round = s.inner@.chr_mem.len() as int / size;
            let bank = if round == 0 { sel } else { sel % round };
            &&& base <= a < base + size ==> after.inner@.ppu_value(a) == s.inner@.chr_mem[size * bank + (a - base)]
            &&& !(base <= a < base + size) ==> after.inner@.ppu_item(a) == s.inner@.ppu_item(a)
        }),
{
    let v = s.inner@;
    let r = s.bank_register;
    let a12 = s.chr_a12_inversion;
    let q = BankType::CHR_MEM;
    let c = v.default_attr(q);
    assert(value >> 1u8 == value / 2) by (bit_vector);
    let (base, size) = chr_window(r, a12);
    let w = if r < 2 { BankWindow::Size2k } else { BankWindow::Size1k };
    let sel: u8 = if r < 2 { value >> 1u8 } else { value };
    let b = base as u16;
    assert(b as int == base);
    assert(b % 64 == 0);
    lemma_aligned_window(b, w);
    let n = v.ppu_mapped(b, q, sel, w, c);
    assert(after.inner@ == n);
    let round = v.chr_mem.len() as int / size;
    let selv = if r < 2 { (value / 2) as int } else { value as int };
    assert(sel as int == selv);
    assert(w.spec_size() as int == size);
    if round != 0 {
        assert(0 <= selv % round <= selv) by (nonlinear_arith)
            requires
                round > 0,
                0 <= selv,
        ;
    }
    assert(v.ppu_selector(sel, w) as int == if round == 0 { selv } else { selv % round });
    assert(c != MemAttr::WriteOnly);
    if base <= a < base + size {
        lemma_ppu_mapped_read(v, b, q, sel, w, c, a);
        assert(n.ppu_value(a) == v.mem(q)[w.spec_size() * v.ppu_selector(sel, w) + (a - b)]);
    } else {
        lemma_ppu_mapped_elsewhere(v, b, q, sel, w, c, a);
    }
}

} // verus!
