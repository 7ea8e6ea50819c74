//! Mapper 1 (MMC1): a serial shift register loaded one bit per write selects the
//! nametable arrangement, PRG banking mode and CHR banking mode, and the banks.
use vstd::prelude::*;
use crate::cartridge::mapper::{BaseMapper, BankType, BankWindow, MapperView, Mapper, MemAttr, lemma_aligned_window, lemma_nametable_banks, lemma_cpu_mapped_read, lemma_ppu_mapped_read};
use crate::rom::{Rom, MirrorMode};
use crate::bitmisc::lemma_u8_bits;

verus! {

#[derive(Clone, Copy, Debug, PartialEq, Eq, Structural)]
pub enum PrgRomBankSwitchMode {
    Switch32k,
    FixFirstBank,
    FixLastBank,
}

#[derive(Clone, Copy, Debug, PartialEq, Eq, Structural)]
pub enum ChrRomBankSwitchMode {
    Switch8k,
    Switch4k,
}

pub struct State {
    pub inner: BaseMapper,
    pub shifter: u8,
    pub prg_rom_bank_mode: PrgRomBankSwitchMode,
    pub chr_rom_bank_mode: ChrRomBankSwitchMode,
    pub prg_rom_16k_selector: u8,
    pub chr_4k_lower_selector: u8,
    pub chr_4k_upper_selector: u8,
}

/// The PRG ROM sizes the mapper accepts: the counts of 16K and of 8K banks, taken as
/// bytes, are not zero.
pub open spec fn prg_size_ok(len: int) -> bool {
    (len / 0x4000) as u8 != 0 && (len / 0x2000) as u8 != 0
}

/// The windows that the banking registers select: PRG ROM at $8000 and $C000 (16K
/// each), CHR at $0000 and $1000 (4K each).
pub open spec fn banked(
    v: MapperView,
    prg_mode: PrgRomBankSwitchMode,
    chr_mode: ChrRomBankSwitchMode,
    prg_sel: u8,
    chr_lo: u8,
    chr_hi: u8,
) -> MapperView {
    let ro = v.default_attr(BankType::PRG_ROM);
    let p = BankType::PRG_ROM;
    let w = BankWindow::Size16k;
    let v1 = match prg_mode {
        PrgRomBankSwitchMode::Switch32k => v.cpu_mapped(0x8000, p, prg_sel, w, ro).cpu_mapped(
            0xC000,
            p,
            (prg_sel + 1) as u8,
            w,
            ro,
        ),
        PrgRomBankSwitchMode::FixFirstBank => v.cpu_mapped(0x8000, p, 0, w, ro).cpu_mapped(0xC000, p, prg_sel, w, ro),
        PrgRomBankSwitchMode::FixLastBank => v.cpu_mapped(0x8000, p, prg_sel, w, ro).cpu_mapped(
            0xC000,
            p,
            (v.bank_count(p, w) - 1) as u8,
            w,
            ro,
        ),
    };
    let c = v1.default_attr(BankType::CHR_MEM);
    let q = BankType::CHR_MEM;
    let w4 = BankWindow::Size4k;
    match chr_mode {
        ChrRomBankSwitchMode::Switch8k => v1.ppu_mapped(0x0000, q, chr_lo, w4, c).ppu_mapped(0x1000, q, (chr_lo + 1) as u8, w4, c),
        ChrRomBankSwitchMode::Switch4k => v1.ppu_mapped(0x0000, q, chr_lo, w4, c).ppu_mapped(0x1000, q, chr_hi, w4, c),
    }
}

/// The nametable arrangement selected by the low two bits of the control value.
pub open spec fn arranged(v: MapperView, r: u8) -> MapperView {
    if r & 0b11 == 0 {
        v.nametable_arranged(0x800, 0, 0, 0, 0)
    } else if r & 0b11 == 1 {
        v.nametable_arranged(0x800, 1, 1, 1, 1)
    } else if r & 0b11 == 2 {
        v.nametable_arranged(0x800, 0, 1, 0, 1)
    } else {
        v.nametable_arranged(0x800, 0, 0, 1, 1)
    }
}

pub open spec fn prg_mode_of(r: u8) -> PrgRomBankSwitchMode {
    if (r >> 2u8) & 0b11 == 0 || (r >> 2u8) & 0b11 == 1 {
        PrgRomBankSwitchMode::Switch32k
    } else if (r >> 2u8) & 0b11 == 2 {
        PrgRomBankSwitchMode::FixFirstBank
    } else {
        PrgRomBankSwitchMode::FixLastBank
    }
}

pub open spec fn chr_mode_of(r: u8) -> ChrRomBankSwitchMode {
    if (r >> 4u8) & 0b1 == 0 { ChrRomBankSwitchMode::Switch8k } else { ChrRomBankSwitchMode::Switch4k }
}

/// The register file of the mapper (everything but the memories and the tables).
pub struct Registers {
    pub shifter: u8,
    pub prg_mode: PrgRomBankSwitchMode,
    pub chr_mode: ChrRomBankSwitchMode,
    pub prg_sel: u8,
    pub chr_lo: u8,
    pub chr_hi: u8,
}

/// The registers after a write of `value` to `addr` in $8000-$FFFF. Each write shifts bit
/// 0 of the value into a 5-bit shift register (a marker bit at 4 shows when it is full);
/// the fifth write commits the register selected by the address. A write with bit 7 set
/// and the register not full resets it and fixes the last PRG bank.
pub open spec fn registers_written(r: Registers, addr: u16, value: u8) -> Registers {
    let full = r.shifter & 1 != 0;
    let reset = value & 0b1000_0000 != 0;
    let s1 = (r.shifter | ((value & 1) << 5u8)) >> 1u8;
    if full {
        let c = Registers { shifter: 0b0001_0000, ..r };
        if addr <= 0x9FFF {
            Registers { prg_mode: prg_mode_of(s1), chr_mode: chr_mode_of(s1), ..c }
        } else if addr <= 0xBFFF {
            Registers {
                chr_lo: if r.chr_mode == ChrRomBankSwitchMode::Switch8k { s1 & 0b11110 } else { s1 & 0b11111 },
                ..c
            }
        } else if addr <= 0xDFFF {
            Registers { chr_hi: if r.chr_mode == ChrRomBankSwitchMode::Switch8k { r.chr_hi } else { s1 & 0b11111 }, ..c }
        } else {
            Registers {
                prg_sel: if r.prg_mode == PrgRomBankSwitchMode::Switch32k { s1 & 0b1110 } else { s1 & 0b1111 },
                ..c
            }
        }
    } else if reset {
        Registers { shifter: 0b0001_0000, prg_mode: PrgRomBankSwitchMode::FixLastBank, ..r }
    } else {
        Registers { shifter: s1, ..r }
    }
}

impl State {
    pub open spec fn regs(&self) -> Registers {
        Registers {
            shifter: self.shifter,
            prg_mode: self.prg_rom_bank_mode,
            chr_mode: self.chr_rom_bank_mode,
            prg_sel: self.prg_rom_16k_selector,
            chr_lo: self.chr_4k_lower_selector,
            chr_hi: self.chr_4k_upper_selector,
        }
    }

    pub open spec fn state_wf(&self) -> bool {
        &&& self.inner@.wf()
        &&& prg_size_ok(self.inner@.prg_rom.len() as int)
        &&& self.prg_rom_16k_selector <= 15
        &&& self.chr_4k_lower_selector <= 31
        &&& self.chr_4k_upper_selector <= 31
    }

    /// What a CPU write of `value` to `addr` leaves: below $8000 the byte in the window
    /// there; from $8000 up the serial register and, on the fifth write, the bank
    /// registers and the tables they select.
    pub open spec fn poke_done(&self, addr: u16, value: u8, after: Self) -> bool {
        &&& addr < 0x8000 ==> after.inner@ == self.inner@.cpu_written(addr, value) && after.regs() == self.regs()
        &&& addr >= 0x8000 ==> after.regs() == registers_written(self.regs(), addr, value)
            && after.inner@ == self.tables_written(addr, value)
    }

    /// Tests the invariant.
    pub fn is_state_wf(&self) -> (r: bool)
        ensures
            r == self.state_wf(),
    {
        let len = self.inner.prg_rom.len();
        self.inner.is_wf() && (len / 0x4000) as u8 != 0 && (len / 0x2000) as u8 != 0 && self.prg_rom_16k_selector <= 15 && self.chr_4k_lower_selector <= 31 && self.chr_4k_upper_selector <= 31
    }

    /// The tables after a write of `value` to `addr` in $8000-$FFFF: a committed control
    /// write arranges the nametables and re-banks, and every write re-banks.
    pub open spec fn tables_written(&self, addr: u16, value: u8) -> MapperView {
        let r = self.regs();
        let n = registers_written(r, addr, value);
        let full = r.shifter & 1 != 0;
        let s1 = (r.shifter | ((value & 1) << 5u8)) >> 1u8;
        let v = if full && addr <= 0x9FFF {
            banked(arranged(self.inner@, s1), n.prg_mode, n.chr_mode, n.prg_sel, n.chr_lo, n.chr_hi)
        } else {
            self.inner@
        };
        banked(v, n.prg_mode, n.chr_mode, n.prg_sel, n.chr_lo, n.chr_hi)
    }

    /// Start-up: 32K PRG RAM at $6000, 128K CHR RAM unless the image has CHR ROM, the
    /// first PRG bank at $8000, the last at $C000, and the nametables as the header says;
    /// the shift register empty, the last PRG bank fixed, CHR in 4K banks 0 and 1.
    pub fn new(rom: &Rom) -> (s: Self)
        requires
            prg_size_ok(rom.prg_rom@.len() as int),
        ensures
            s.state_wf(),
            s.inner@.prg_rom == rom.prg_rom@,
            rom.chr_rom@.len() != 0 ==> s.inner@.chr_mem == rom.chr_rom@,
            s.inner@.prg_ram.len() == 0x8000,
            s.shifter == 0b0001_0000,
            s.prg_rom_bank_mode == PrgRomBankSwitchMode::FixLastBank,
            s.chr_rom_bank_mode == ChrRomBankSwitchMode::Switch4k,
            s.prg_rom_16k_selector == 0,
            s.chr_4k_lower_selector == 0,
            s.chr_4k_upper_selector == 1,
    {
        let mut inner = BaseMapper::new();
        inner.initialize(&rom.prg_rom, &rom.chr_rom, 0x8000, 0x20000);
        proof {
            lemma_aligned_window(0x6000, BankWindow::Size8k);
            lemma_aligned_window(0x0000, BankWindow::Size8k);
            lemma_aligned_window(0x8000, BankWindow::Size16k);
            lemma_aligned_window(0xC000, BankWindow::Size16k);
        }
        inner.map_cpu_address(0x6000, BankType::PRG_RAM, 0, BankWindow::Size8k);
        inner.map_ppu_address(0x0000, BankType::CHR_MEM, 0, BankWindow::Size8k);
        let last_bank = inner.bank_num(BankType::PRG_ROM, BankWindow::Size16k) - 1;
        inner.map_cpu_address(0x8000, BankType::PRG_ROM, 0, BankWindow::Size16k);
        inner.map_cpu_address(0xC000, BankType::PRG_ROM, last_bank as u8, BankWindow::Size16k);
        match rom.mirroring {
            MirrorMode::V => {
                inner.initialize_and_map_nametable_vertical();
            },
            MirrorMode::H => {
                inner.initialize_and_map_nametable_horizontal();
            },
        };
        State {
            inner,
            shifter: 0b0001_0000u8,
            prg_rom_bank_mode: PrgRomBankSwitchMode::FixLastBank,
            chr_rom_bank_mode: ChrRomBankSwitchMode::Switch4k,
            prg_rom_16k_selector: 0,
            chr_4k_lower_selector: 0,
            chr_4k_upper_selector: 1,
        }
    }

    fn update_map_state(&mut self)
        requires
            old(self).state_wf(),
        ensures
            final(self).state_wf(),
            final(self).regs() == old(self).regs(),
            final(self).inner@ == banked(
                old(self).inner@,
                old(self).prg_rom_bank_mode,
                old(self).chr_rom_bank_mode,
                old(self).prg_rom_16k_selector,
                old(self).chr_4k_lower_selector,
                old(self).chr_4k_upper_selector,
            ),
    {
        proof {
            lemma_aligned_window(0x8000, BankWindow::Size16k);
            lemma_aligned_window(0xC000, BankWindow::Size16k);
            lemma_aligned_window(0x0000, BankWindow::Size4k);
            lemma_aligned_window(0x1000, BankWindow::Size4k);
        }
        match self.prg_rom_bank_mode {
            PrgRomBankSwitchMode::Switch32k => {
                self.inner.map_cpu_address(0x8000, BankType::PRG_ROM, self.prg_rom_16k_selector + 0, BankWindow::Size16k);
                self.inner.map_cpu_address(0xC000, BankType::PRG_ROM, self.prg_rom_16k_selector + 1, BankWindow::Size16k);
            },
            PrgRomBankSwitchMode::FixFirstBank => {
                self.inner.map_cpu_address(0x8000, BankType::PRG_ROM, 0, BankWindow::Size16k);
                self.inner.map_cpu_address(0xC000, BankType::PRG_ROM, self.prg_rom_16k_selector, BankWindow::Size16k)
            },
            PrgRomBankSwitchMode::FixLastBank => {
                let last_bank = self.inner.bank_num(BankType::PRG_ROM, BankWindow::Size16k) - 1;
                self.inner.map_cpu_address(0x8000, BankType::PRG_ROM, self.prg_rom_16k_selector, BankWindow::Size16k);
                self.inner.map_cpu_address(0xC000, BankType::PRG_ROM, last_bank as u8, BankWindow::Size16k);
            },
        }
        match self.chr_rom_bank_mode {
            ChrRomBankSwitchMode::Switch8k => {
                self.inner.map_ppu_address(0x0000, BankType::CHR_MEM, self.chr_4k_lower_selector + 0, BankWindow::Size4k);
                self.inner.map_ppu_address(0x1000, BankType::CHR_MEM, self.chr_4k_lower_selector + 1, BankWindow::Size4k);
            },
            ChrRomBankSwitchMode::Switch4k => {
                self.inner.map_ppu_address(0x0000, BankType::CHR_MEM, self.chr_4k_lower_selector, BankWindow::Size4k);
                self.inner.map_ppu_address(0x1000, BankType::CHR_MEM, self.chr_4k_upper_selector, BankWindow::Size4k);
            },
        }
    }

    fn arrange_nametables(&mut self, value: u8)
        requires
            old(self).state_wf(),
        ensures
            final(self).state_wf(),
            final(self).regs() == old(self).regs(),
            final(self).inner@ == arranged(old(self).inner@, value),
    {
        let sel = value & 0b11;
        if sel == 0 {
            self.inner.initialize_and_map_nametable_onescreen_lower_bank();
        } else if sel == 1 {
            self.inner.initialize_and_map_nametable_onescreen_upper_bank();
        } else if sel == 2 {
            self.inner.initialize_and_map_nametable_vertical();
        } else {
            self.inner.initialize_and_map_nametable_horizontal();
        }
    }
}

impl Mapper for State {
    open spec fn wf(&self) -> bool {
        self.state_wf()
    }

    open spec fn cpu_readable(&self, addr: u16) -> bool {
        self.inner@.cpu_readable(addr)
    }

    open spec fn cpu_writable(&self, addr: u16) -> bool {
        addr >= 0x8000 || self.inner@.cpu_writable(addr)
    }

    open spec fn ppu_readable(&self, addr: u16) -> bool {
        self.inner@.ppu_readable(addr)
    }

    open spec fn ppu_writable(&self, addr: u16) -> bool {
        self.inner@.ppu_writable(addr)
    }

    open spec fn cpu_value(&self, addr: u16) -> u8 {
        self.inner@.cpu_value(addr)
    }

    open spec fn ppu_value(&self, addr: u16) -> u8 {
        self.inner@.ppu_value(addr)
    }

    /// Writes below $8000 reach memory; above, they set the mapper's registers.
    open spec fn cpu_stores(&self, addr: u16) -> bool {
        addr < 0x8000 && self.inner@.cpu_stores(addr)
    }

    open spec fn ppu_stores(&self, addr: u16) -> bool {
        self.inner@.ppu_stores(addr)
    }

    fn can_peek(&self, addr: u16) -> (r: bool) {
        self.inner.can_peek_cpu(addr)
    }

    fn can_poke(&self, addr: u16) -> (r: bool) {
        addr >= 0x8000 || self.inner.can_poke_cpu(addr)
    }

    fn can_vpeek(&self, addr: u16) -> (r: bool) {
        self.inner.can_peek_ppu(addr)
    }

    fn can_vpoke(&self, addr: u16) -> (r: bool) {
        self.inner.can_poke_ppu(addr)
    }

    fn peek(&mut self, addr: u16) -> (r: u8) {
        self.inner.peek_cpu_memory(addr)
    }

    fn poke(&mut self, addr: u16, value: u8)
        ensures
            addr < 0x8000 ==> final(self).inner@ == old(self).inner@.cpu_written(addr, value)
                && final(self).regs() == old(self).regs(),
            addr >= 0x8000 ==> final(self).regs() == registers_written(old(self).regs(), addr, value)
                && final(self).inner@ == old(self).tables_written(addr, value),
            old(self).poke_done(addr, value, *final(self)),
    {
        if addr < 0x8000 {
            self.inner.poke_cpu_memory(addr, value);
            return;
        }
        proof {
            lemma_u8_bits(value);
        }
        let shifter_full = self.shifter & 1 != 0;
        let reset = value & 0b1000_0000 != 0;
        self.shifter = (self.shifter | ((value & 1) << 5)) >> 1;
        if shifter_full {
            let value = self.shifter;
            proof {
                lemma_u8_bits(value);
                lemma_u8_bits(value >> 2u8);
                lemma_u8_bits(value >> 4u8);
            }
            if addr <= 0x9FFF {
                self.arrange_nametables(value);
                let prg = (value >> 2) & 0b11;
                self.prg_rom_bank_mode = if prg == 0 || prg == 1 {
                    PrgRomBankSwitchMode::Switch32k
                } else if prg == 2 {
                    PrgRomBankSwitchMode::FixFirstBank
                } else {
                    PrgRomBankSwitchMode::FixLastBank
                };
                self.chr_rom_bank_mode = if (value >> 4) & 0b1 == 0 {
                    ChrRomBankSwitchMode::Switch8k
                } else {
                    ChrRomBankSwitchMode::Switch4k
                };
                self.update_map_state();
            } else if addr <= 0xBFFF {
                match self.chr_rom_bank_mode {
                    ChrRomBankSwitchMode::Switch8k => self.chr_4k_lower_selector = value & 0b11110,
                    ChrRomBankSwitchMode::Switch4k => self.chr_4k_lower_selector = value & 0b11111,
                }
            } else if addr <= 0xDFFF {
                match self.chr_rom_bank_mode {
                    ChrRomBankSwitchMode::Switch8k => {},
                    ChrRomBankSwitchMode::Switch4k => self.chr_4k_upper_selector = value & 0b11111,
                }
            } else {
                match self.prg_rom_bank_mode {
                    PrgRomBankSwitchMode::Switch32k => {
                        self.prg_rom_16k_selector = value & 0b1110;
                    },
                    PrgRomBankSwitchMode::FixFirstBank => {
                        self.prg_rom_16k_selector = value & 0b1111;
                    },
                    PrgRomBankSwitchMode::FixLastBank => {
                        self.prg_rom_16k_selector = value & 0b1111;
                    },
                }
            }
            self.shifter = 0b0001_0000;
        } else if reset {
            self.shifter = 0b0001_0000;
            self.prg_rom_bank_mode = PrgRomBankSwitchMode::FixLastBank;
        }
        self.update_map_state();
    }

    fn vpeek(&mut self, addr: u16) -> (r: u8) {
        self.inner.peek_ppu_memory(addr)
    }

    fn vpoke(&mut self, addr: u16, value: u8)
        ensures
            final(self).inner@ == old(self).inner@.ppu_written(addr, value),
            final(self).regs() == old(self).regs(),
    {
        self.inner.poke_ppu_memory(addr, value)
    }

    /// This cartridge raises no interrupt.
    fn irq(&mut self) -> (r: bool)
        ensures
            !r,
            *final(self) == *old(self),
    {
        false
    }
}

/// Five writes load the shift register: after four writes without bit 7 the register is
/// full (its marker bit has reached bit 0) and holds bit 0 of each value written, the
/// first one lowest, so that the fifth commits them with its own bit 0 on top.
pub proof fn lemma_shift_register_fills(r: Registers, addr: u16, v0: u8, v1: u8, v2: u8, v3: u8)
    requires
        r.shifter == 0b0001_0000,
        v0 < 128,
        v1 < 128,
        v2 < 128,
        v3 < 128,
    ensures
        registers_written(
            registers_written(registers_written(registers_written(r, addr, v0), addr, v1), addr, v2),
            addr,
            v3,
        ).shifter & 1 != 0,
        registers_written(
            registers_written(registers_written(registers_written(r, addr, v0), addr, v1), addr, v2),
            addr,
            v3,
        ).shifter == 1 + 2 * (v0 % 2) + 4 * (v1 % 2) + 8 * (v2 % 2) + 16 * (v3 % 2),
{
    let s0 = r.shifter;
    let a = v0 & 1;
    let b = v1 & 1;
    let c = v2 & 1;
    let d = v3 & 1;
    lemma_u8_bits(v0);
    lemma_u8_bits(v1);
    lemma_u8_bits(v2);
    lemma_u8_bits(v3);
    assert(v0 & 1 == v0 % 2 && v1 & 1 == v1 % 2 && v2 & 1 == v2 % 2 && v3 & 1 == v3 % 2) by (bit_vector);
    assert((((((((s0 | (a << 5u8)) >> 1u8) | (b << 5u8)) >> 1u8) | (c << 5u8)) >> 1u8) | (d << 5u8))
        >> 1u8 & 1 != 0 && ((s0 | (a << 5u8)) >> 1u8) & 1 == 0 && ((((s0 | (a << 5u8)) >> 1u8) | (
    b << 5u8)) >> 1u8) & 1 == 0 && ((((((s0 | (a << 5u8)) >> 1u8) | (b << 5u8)) >> 1u8) | (c
        << 5u8)) >> 1u8) & 1 == 0 && (((((((s0 | (a << 5u8)) >> 1u8) | (b << 5u8)) >> 1u8) | (c << 5u8)) >> 1u8)
        | (d << 5u8)) >> 1u8 == 1 + 2 * a + 4 * b + 8 * c + 16 * d && s0 & 1 == 0) by (bit_vector)
        requires
            s0 == 0b0001_0000u8,
            a <= 1,
            b <= 1,
            c <= 1,
            d <= 1,
    ;
    let r1 = registers_written(r, addr, v0);
    let r2 = registers_written(r1, addr, v1);
    let r3 = registers_written(r2, addr, v2);
    assert(r1.shifter == (s0 | (a << 5u8)) >> 1u8);
    assert(r2.shifter == (r1.shifter | (b << 5u8)) >> 1u8);
    assert(r3.shifter == (r2.shifter | (c << 5u8)) >> 1u8);
    assert(registers_written(r3, addr, v3).shifter == (r3.shifter | (d << 5u8)) >> 1u8);
}

/// The mirroring that an MMC1 control value selects, by its low two bits: 0 and 1 put
/// all four nametables on the first or the second 1K bank; 2 is vertical mirroring
/// ($2000 and $2800 share the first bank, $2400 and $2C00 the second); 3 is horizontal
/// mirroring ($2000 and $2400 share the first bank, $2800 and $2C00 the second).
pub proof fn lemma_control_mirroring(v: MapperView, r: u8, k: u16)
    requires
        v.tables_wf(),
        k < 0x400,
        v.chr_mem.len() == 0 || v.chr_mem.len() >= 0x800,
    ensures
        ({
            let n = arranged(v, r);
            let off = |a: int| n.ppu_item(a as u16).offset;
            &&& n.ppu_item((0x2000 + k) as u16).bank_type == Some(BankType::NAMETABLE)
            &&& n.ppu_item((0x2400 + k) as u16).bank_type == Some(BankType::NAMETABLE)
            &&& n.ppu_item((0x2800 + k) as u16).bank_type == Some(BankType::NAMETABLE)
            &&& n.ppu_item((0x2C00 + k) as u16).bank_type == Some(BankType::NAMETABLE)
            &&& r % 4 == 0 ==> off(0x2000 + k) == 0 && off(0x2400 + k) == 0 && off(0x2800 + k) == 0 && off(0x2C00 + k) == 0
            &&& r % 4 == 1 ==> off(0x2000 + k) == 0x400 && off(0x2400 + k) == 0x400 && off(0x2800 + k) == 0x400
                && off(0x2C00 + k) == 0x400
            &&& r % 4 == 2 ==> off(0x2000 + k) == 0 && off(0x2400 + k) == 0x400 && off(0x2800 + k) == 0 && off(0x2C00 + k) == 0x400
            &&& r % 4 == 3 ==> off(0x2000 + k) == 0 && off(0x2400 + k) == 0 && off(0x2800 + k) == 0x400 && off(0x2C00 + k) == 0x400
        }),
{
    assert(r & 0b11 == r % 4) by (bit_vector);
    lemma_nametable_banks(v, 0, 0, 0, 0, k);
    lemma_nametable_banks(v, 1, 1, 1, 1, k);
    lemma_nametable_banks(v, 0, 1, 0, 1, k);
    lemma_nametable_banks(v, 0, 0, 1, 1, k);
}

/// Banking moves only the PRG windows and the CHR windows below $2000.
proof fn lemma_banked_keeps_nametables(
    v: MapperView,
    prg_mode: PrgRomBankSwitchMode,
    chr_mode: ChrRomBankSwitchMode,
    prg_sel: u8,
    chr_lo: u8,
    chr_hi: u8,
)
    requires
        v.tables_wf(),
    ensures
        ({
            let b = banked(v, prg_mode, chr_mode, prg_sel, chr_lo, chr_hi);
            &&& b.tables_wf()
            &&& b.chr_mem == v.chr_mem
            &&& forall|j: int| 8 <= j < 12 ==> #[trigger] b.ppu_map[j] == v.ppu_map[j]
        }),
{
    lemma_aligned_window(0x0000, BankWindow::Size4k);
    lemma_aligned_window(0x1000, BankWindow::Size4k);
    assert(MapperView::ppu_base(0x0000, BankWindow::Size4k) == 0);
    assert(MapperView::ppu_base(0x1000, BankWindow::Size4k) == 4);
}

/// A control write that completes the serial register (its marker bit has reached bit 0)
/// commits the five-bit value `c` made of the four bits shifted in and bit 0 of the value
/// written, and sets the mirroring by `c`'s low two bits: 0 and 1 one screen (first or
/// second bank), 2 vertical, 3 horizontal.
pub proof fn lemma_control_write_mirroring(s: State, addr: u16, value: u8, k: u16)
    requires
        s.state_wf(),
        s.shifter & 1 != 0,
        s.shifter < 32,
        0x8000 <= addr <= 0x9FFF,
        k < 0x400,
        s.inner@.chr_mem.len() == 0 || s.inner@.chr_mem.len() >= 0x800,
    ensures
        ({
            let c = (s.shifter / 2) as int + 16 * (value % 2) as int;
            let n = s.tables_written(addr, value);
            let off = |a: int| n.ppu_item(a as u16).offset;
            &&& c % 4 == 0 ==> off(0x2000 + k) == 0 && off(0x2400 + k) == 0 && off(0x2800 + k) == 0 && off(0x2C00 + k) == 0
            &&& c % 4 == 1 ==> off(0x2000 + k) == 0x400 && off(0x2400 + k) == 0x400 && off(0x2800 + k) == 0x400
                && off(0x2C00 + k) == 0x400
            &&& c % 4 == 2 ==> off(0x2000 + k) == 0 && off(0x2400 + k) == 0x400 && off(0x2800 + k) == 0 && off(0x2C00 + k) == 0x400
            &&& c % 4 == 3 ==> off(0x2000 + k) == 0 && off(0x2400 + k) == 0 && off(0x2800 + k) == 0x400 && off(0x2C00 + k) == 0x400
        }),
{
    let r = s.regs();
    let n1 = registers_written(r, addr, value);
    let sh = r.shifter;
    let s1 = (sh | ((value & 1) << 5u8)) >> 1u8;
    assert(sh < 32 ==> (sh | ((value & 1) << 5u8)) >> 1u8 == sh / 2 + 16 * (value % 2)) by (bit_vector);
    let a = arranged(s.inner@, s1);
    lemma_control_mirroring(s.inner@, s1, k);
    assert(a.tables_wf());
    assert(a.chr_mem == s.inner@.chr_mem);
    lemma_banked_keeps_nametables(a, n1.prg_mode, n1.chr_mode, n1.prg_sel, n1.chr_lo, n1.chr_hi);
    let b1 = banked(a, n1.prg_mode, n1.chr_mode, n1.prg_sel, n1.chr_lo, n1.chr_hi);
    lemma_banked_keeps_nametables(b1, n1.prg_mode, n1.chr_mode, n1.prg_sel, n1.chr_lo, n1.chr_hi);
    let b2 = banked(b1, n1.prg_mode, n1.chr_mode, n1.prg_sel, n1.chr_lo, n1.chr_hi);
    assert(b2 == s.tables_written(addr, value));
    assert(((0x2000 + k) as u16) / 0x400 == 8);
    assert(((0x2400 + k) as u16) / 0x400 == 9);
    assert(((0x2800 + k) as u16) / 0x400 == 10);
    assert(((0x2C00 + k) as u16) / 0x400 == 11);
    assert(b2.ppu_map[8] == a.ppu_map[8]);
    assert(b2.ppu_map[9] == a.ppu_map[9]);
    assert(b2.ppu_map[10] == a.ppu_map[10]);
    assert(b2.ppu_map[11] == a.ppu_map[11]);
}

/// A control write that completes the serial register commits the five-bit value `c`:
/// bits 2-3 pick the PRG mode (0 and 1: 32K; 2: first bank fixed at $8000; 3: last bank
/// fixed at $C000), bit 4 the CHR mode (0: 8K; 1: two 4K banks). The register empties
/// and the bank selectors stay.
pub proof fn lemma_control_write_modes(r: Registers, addr: u16, value: u8)
    requires
        r.shifter & 1 != 0,
        r.shifter < 32,
        0x8000 <= addr <= 0x9FFF,
    ensures
        ({
            let c = (r.shifter / 2) as int + 16 * (value % 2) as int;
            let n = registers_written(r, addr, value);
            &&& n.shifter == 0b0001_0000
            &&& (c / 4) % 4 <= 1 ==> n.prg_mode == PrgRomBankSwitchMode::Switch32k
            &&& (c / 4) % 4 == 2 ==> n.prg_mode == PrgRomBankSwitchMode::FixFirstBank
            &&& (c / 4) % 4 == 3 ==> n.prg_mode == PrgRomBankSwitchMode::FixLastBank
            &&& (c / 16) % 2 == 0 ==> n.chr_mode == ChrRomBankSwitchMode::Switch8k
            &&& (c / 16) % 2 == 1 ==> n.chr_mode == ChrRomBankSwitchMode::Switch4k
            &&& n.prg_sel == r.prg_sel && n.chr_lo == r.chr_lo && n.chr_hi == r.chr_hi
        }),
{
    let sh = r.shifter;
    assert(sh < 32 ==> (sh | ((value & 1) << 5u8)) >> 1u8 == sh / 2 + 16 * (value % 2)) by (bit_vector);
    let s1 = (sh | ((value & 1) << 5u8)) >> 1u8;
    assert((s1 >> 2u8) & 0b11 == (s1 / 4) % 4 && (s1 >> 4u8) & 0b1 == (s1 / 16) % 2) by (bit_vector);
}

/// The banks MMC1 maps. PRG, in 16K banks reduced by their number: in 32K mode the
/// selected bank at $8000 and the next one at $C000; with the first bank fixed, bank 0
/// at $8000 and the selected one at $C000; with the last fixed, the selected one at
/// $8000 and the last at $C000. CHR, in 4K banks: in 8K mode the low selector's bank
/// and the next at $0000 and $1000; in 4K mode the low and the high selectors' banks.
pub proof fn lemma_banked_reads(
    v: MapperView,
    prg_mode: PrgRomBankSwitchMode,
    chr_mode: ChrRomBankSwitchMode,
    prg_sel: u8,
    chr_lo: u8,
    chr_hi: u8,
    a: u16,
)
    requires
        v.tables_wf(),
        (v.prg_rom.len() / 0x4000) as u8 != 0,
        v.prg_rom.len() / 0x4000 < 256,
        prg_sel <= 15,
        chr_lo <= 31,
    ensures
        ({
            let b = banked(v, prg_mode, chr_mode, prg_sel, chr_lo, chr_hi);
            let nb = v.prg_rom.len() as int / 0x4000;
            let (p1, p2) = match prg_mode {
                PrgRomBankSwitchMode::Switch32k => (prg_sel as int, prg_sel as int + 1),
                PrgRomBankSwitchMode::FixFirstBank => (0int, prg_sel as int),
                PrgRomBankSwitchMode::FixLastBank => (prg_sel as int, nb - 1),
            };
            let (c1, c2) = match chr_mode {
                ChrRomBankSwitchMode::Switch8k => (chr_lo as int, chr_lo as int + 1),
                ChrRomBankSwitchMode::Switch4k => (chr_lo as int, chr_hi as int),
            };
            let round = v.chr_mem.len() as int / 0x1000;
            let chr_bank = |c: int| if round == 0 { c } else { c % round };
            &&& 0x8000 <= a < 0xC000 ==> b.cpu_value(a) == v.prg_rom[0x4000 * (p1 % nb) + (a - 0x8000)]
            &&& 0xC000 <= a ==> b.cpu_value(a) == v.prg_rom[0x4000 * (p2 % nb) + (a - 0xC000)]
            &&& a < 0x1000 ==> b.ppu_value(a) == v.chr_mem[0x1000 * chr_bank(c1) + a]
            &&& 0x1000 <= a < 0x2000 ==> b.ppu_value(a) == v.chr_mem[0x1000 * chr_bank(c2) + (a - 0x1000)]
            &&& 0x2000 <= a < 0x3000 ==> b.ppu_item(a) == v.ppu_item(a)
        }),
{
    let ro = v.default_attr(BankType::PRG_ROM);
    let p = BankType::PRG_ROM;
    let w = BankWindow::Size16k;
    lemma_aligned_window(0x8000, w);
    lemma_aligned_window(0xC000, w);
    lemma_aligned_window(0x0000, BankWindow::Size4k);
    lemma_aligned_window(0x1000, BankWindow::Size4k);
    let nb = v.prg_rom.len() as int / 0x4000;
    let (s1, s2): (u8, u8) = match prg_mode {
        PrgRomBankSwitchMode::Switch32k => (prg_sel, (prg_sel + 1) as u8),
        PrgRomBankSwitchMode::FixFirstBank => (0u8, prg_sel),
        PrgRomBankSwitchMode::FixLastBank => (prg_sel, (v.bank_count(p, w) - 1) as u8),
    };
    let v1 = v.cpu_mapped(0x8000, p, s1, w, ro);
    assert(v1.cpu_map_ok(0xC000, p, w));
    if 0x8000 <= a < 0xC000 {
        lemma_cpu_mapped_read(v, 0x8000, p, s1, w, ro, a);
    }
    if 0xC000 <= a {
        lemma_cpu_mapped_read(v1, 0xC000, p, s2, w, ro, a);
    }
    let v2 = v1.cpu_mapped(0xC000, p, s2, w, ro);
    let c = v2.default_attr(BankType::CHR_MEM);
    let q = BankType::CHR_MEM;
    let w4 = BankWindow::Size4k;
    let (t1, t2): (u8, u8) = match chr_mode {
        ChrRomBankSwitchMode::Switch8k => (chr_lo, (chr_lo + 1) as u8),
        ChrRomBankSwitchMode::Switch4k => (chr_lo, chr_hi),
    };
    let v3 = v2.ppu_mapped(0x0000, q, t1, w4, c);
    if a < 0x1000 {
        lemma_ppu_mapped_read(v2, 0x0000, q, t1, w4, c, a);
    }
    if 0x1000 <= a < 0x2000 {
        lemma_ppu_mapped_read(v3, 0x1000, q, t2, w4, c, a);
    }
    let round = v.chr_mem.len() as int / 0x1000;
    if round != 0 {
        assert(0 <= t1 as int % round <= t1 as int && 0 <= t2 as int % round <= t2 as int) by (nonlinear_arith)
            requires
                round > 0,
        ;
    }
    let v4 = v3.ppu_mapped(0x1000, q, t2, w4, c);
    assert(banked(v, prg_mode, chr_mode, prg_sel, chr_lo, chr_hi) == v4);
    assert(v4.cpu_map == v2.cpu_map && v4.prg_rom == v.prg_rom && v4.chr_mem == v.chr_mem);
    assert(MapperView::ppu_base(0x1000, w4) == 4);
    assert(MapperView::ppu_base(0x0000, w4) == 0);
    assert(MapperView::cpu_base(0x8000, w) == 1);
    assert(MapperView::cpu_base(0xC000, w) == 3);
    if 0x8000 <= a < 0xC000 {
        assert(v2.cpu_item(a) == v1.cpu_item(a));
        assert(v4.cpu_value(a) == v1.cpu_value(a));
    }
    if 0xC000 <= a {
        assert(v4.cpu_value(a) == v2.cpu_value(a));
    }
    if a < 0x1000 {
        assert(v4.ppu_item(a) == v3.ppu_item(a));
        assert(v4.ppu_value(a) == v3.ppu_value(a));
    }
    if 0x2000 <= a < 0x3000 {
        assert(v4.ppu_item(a) == v.ppu_item(a));
    }
    let p2: int = match prg_mode {
        PrgRomBankSwitchMode::Switch32k => prg_sel as int + 1,
        PrgRomBankSwitchMode::FixFirstBank => prg_sel as int,
        PrgRomBankSwitchMode::FixLastBank => nb - 1,
    };
    assert(s2 as int == p2);
    assert(v.cpu_selector(s2, w) as int == p2 % nb);
    let c2: int = match chr_mode {
        ChrRomBankSwitchMode::Switch8k => chr_lo as int + 1,
        ChrRomBankSwitchMode::Switch4k => chr_hi as int,
    };
    assert(t2 as int == c2);
    assert(v3.ppu_selector(t2, w4) as int == if round == 0 { c2 } else { c2 % round });
}

} // verus!
