//! Bank switching shared by the cartridge mappers: two tables that map windows of the
//! CPU ($6000-$FFFF, 8K granules) and PPU ($0000-$2FFF, 1K granules) address spaces
//! onto offsets in PRG ROM, PRG RAM, CHR memory or nametable RAM.
use vstd::prelude::*;

verus! {

pub const CPU_ADDRESS_SPACE_MAPPED_BEGIN: u16 = 0x6000;
pub const CPU_ADDRESS_SPACE_MAPPED_END: u16 = 0xFFFF;
pub const PPU_ADDRESS_SPACE_MAPPED_BEGIN: u16 = 0x0000;
pub const PPU_ADDRESS_SPACE_MAPPED_END: u16 = 0x2FFF;
pub const CPU_MINIMUM_MAP_SIZE: usize = 0x2000;
pub const PPU_MINIMUM_MAP_SIZE: usize = 0x0400;
/// `(CPU_ADDRESS_SPACE_MAPPED_END - CPU_ADDRESS_SPACE_MAPPED_BEGIN) / CPU_MINIMUM_MAP_SIZE + 1`
pub const CPU_MAP_TABLE_SIZE: usize = 5;
/// `(PPU_ADDRESS_SPACE_MAPPED_END - PPU_ADDRESS_SPACE_MAPPED_BEGIN) / PPU_MINIMUM_MAP_SIZE + 1`
pub const PPU_MAP_TABLE_SIZE: usize = 12;

#[derive(Clone, Copy, Debug, PartialEq, Eq, Structural)]
pub enum MemAttr {
    ReadOnly,
    WriteOnly,
    ReadWrite,
}

#[derive(Clone, Copy, Debug, PartialEq, Eq, Structural)]
pub enum BankType {
    PRG_ROM,
    PRG_RAM,
    CHR_MEM,
    NAMETABLE,
}

/// The size of a switchable window.
#[derive(Clone, Copy, Debug, PartialEq, Eq, Structural)]
pub enum BankWindow {
    Size32k,
    Size16k,
    Size8k,
    Size4k,
    Size2k,
    Size1k,
}

/// The bit-reversal of a 16-bit word: bit `i` goes to bit `15 - i`.
pub open spec fn reverse16(x: u16) -> u16 {
    ((x & 0x0001) << 15u16) | ((x & 0x0002) << 13u16) | ((x & 0x0004) << 11u16)
        | ((x & 0x0008) << 9u16) | ((x & 0x0010) << 7u16) | ((x & 0x0020) << 5u16)
        | ((x & 0x0040) << 3u16) | ((x & 0x0080) << 1u16) | ((x & 0x0100) >> 1u16)
        | ((x & 0x0200) >> 3u16) | ((x & 0x0400) >> 5u16) | ((x & 0x0800) >> 7u16)
        | ((x & 0x1000) >> 9u16) | ((x & 0x2000) >> 11u16) | ((x & 0x4000) >> 13u16)
        | ((x & 0x8000) >> 15u16)
}

/// `u16::reverse_bits`: the documentation states that it reverses the order of the
/// bits, the least significant becoming the most significant.
#[verifier::external_body]
fn u16_reverse_bits(x: u16) -> (r: u16)
    ensures
        r == reverse16(x),
{
    x.reverse_bits()
}

/// The mask that the mapping functions apply to the start address: the bit-reversal of
/// the window size minus one. Its top ten bits are set, so it only clears bits below 6.
pub open spec fn window_address_mask(w: BankWindow) -> u16 {
    reverse16((w.spec_size() - 1) as u16)
}

proof fn lemma_window_masks()
    ensures
        reverse16(0x7FFF) == 0xFFFE,
        reverse16(0x3FFF) == 0xFFFC,
        reverse16(0x1FFF) == 0xFFF8,
        reverse16(0x0FFF) == 0xFFF0,
        reverse16(0x07FF) == 0xFFE0,
        reverse16(0x03FF) == 0xFFC0,
{
    assert(reverse16(0x7FFF) == 0xFFFE && reverse16(0x3FFF) == 0xFFFC && reverse16(0x1FFF)
        == 0xFFF8 && reverse16(0x0FFF) == 0xFFF0 && reverse16(0x07FF) == 0xFFE0 && reverse16(
        0x03FF,
    ) == 0xFFC0) by (bit_vector);
}

/// Masking with a word whose bits 6 and up are all set keeps everything from bit 6 up.
proof fn lemma_mask_keeps_high_bits(addr: u16, m: u16)
    requires
        m & 0xFFC0 == 0xFFC0,
    ensures
        (addr & m) / 64 == addr / 64,
{
    assert((addr & m) / 64 == addr / 64) by (bit_vector)
        requires
            m & 0xFFC0 == 0xFFC0,
    ;
}

/// Every window mask has bits 6 and up set.
pub proof fn lemma_window_mask_top(w: BankWindow)
    ensures
        window_address_mask(w) & 0xFFC0 == 0xFFC0,
{
    lemma_window_masks();
    assert(0xFFFEu16 & 0xFFC0 == 0xFFC0 && 0xFFFCu16 & 0xFFC0 == 0xFFC0 && 0xFFF8u16 & 0xFFC0
        == 0xFFC0 && 0xFFF0u16 & 0xFFC0 == 0xFFC0 && 0xFFE0u16 & 0xFFC0 == 0xFFC0 && 0xFFC0u16
        & 0xFFC0 == 0xFFC0) by (bit_vector);
}

/// An address that is a multiple of 64 is left alone by every window mask.
pub proof fn lemma_aligned_window(addr: u16, w: BankWindow)
    requires
        addr % 64 == 0,
    ensures
        addr & window_address_mask(w) == addr,
{
    lemma_window_mask_top(w);
    let m = window_address_mask(w);
    assert(addr & m == addr) by (bit_vector)
        requires
            addr % 64 == 0,
            m & 0xFFC0 == 0xFFC0,
    ;
}

impl BankWindow {
    pub open spec fn spec_size(self) -> usize {
        match self {
            BankWindow::Size32k => 0x8000,
            BankWindow::Size16k => 0x4000,
            BankWindow::Size8k => 0x2000,
            BankWindow::Size4k => 0x1000,
            BankWindow::Size2k => 0x0800,
            BankWindow::Size1k => 0x0400,
        }
    }

    /// The size of the window in bytes.
    pub fn size(self) -> (r: usize)
        ensures
            r == self.spec_size(),
    {
        match self {
            BankWindow::Size32k => 0x8000,
            BankWindow::Size16k => 0x4000,
            BankWindow::Size8k => 0x2000,
            BankWindow::Size4k => 0x1000,
            BankWindow::Size2k => 0x0800,
            BankWindow::Size1k => 0x0400,
        }
    }

    fn address_mask(self) -> (r: u16)
        ensures
            r == window_address_mask(self),
            r & 0xFFC0 == 0xFFC0,
    {
        proof {
            lemma_window_mask_top(self);
        }
        u16_reverse_bits((self.size() - 1) as u16)
    }
}

/// One entry of a map table.
#[derive(Clone, Copy, Debug, PartialEq, Eq, Structural)]
pub struct MapTableItem {
    pub offset: usize,
    pub attribute: MemAttr,
    pub bank_type: Option<BankType>,
}

impl MapTableItem {
    pub open spec fn unmapped() -> Self {
        MapTableItem { offset: 0, attribute: MemAttr::ReadOnly, bank_type: None }
    }

    pub fn default() -> (r: Self)
        ensures
            r == Self::unmapped(),
    {
        MapTableItem { offset: 0, attribute: MemAttr::ReadOnly, bank_type: None }
    }
}

/// The memories and the map tables of a cartridge, as mathematical values.
#[verifier::ext_equal]
pub struct MapperView {
    pub cpu_map: Seq<MapTableItem>,
    pub ppu_map: Seq<MapTableItem>,
    pub is_chr_rom_provided: bool,
    pub prg_rom: Seq<u8>,
    pub prg_ram: Seq<u8>,
    pub chr_mem: Seq<u8>,
    pub nametable: Seq<u8>,
}

impl MapperView {
    pub open spec fn mem(self, t: BankType) -> Seq<u8> {
        match t {
            BankType::PRG_ROM => self.prg_rom,
            BankType::PRG_RAM => self.prg_ram,
            BankType::CHR_MEM => self.chr_mem,
            BankType::NAMETABLE => self.nametable,
        }
    }

    pub open spec fn with_mem(self, t: BankType, m: Seq<u8>) -> Self {
        match t {
            BankType::PRG_ROM => MapperView { prg_rom: m, ..self },
            BankType::PRG_RAM => MapperView { prg_ram: m, ..self },
            BankType::CHR_MEM => MapperView { chr_mem: m, ..self },
            BankType::NAMETABLE => MapperView { nametable: m, ..self },
        }
    }

    pub open spec fn default_attr(self, t: BankType) -> MemAttr {
        match t {
            BankType::PRG_ROM => MemAttr::ReadOnly,
            BankType::PRG_RAM => MemAttr::ReadWrite,
            BankType::CHR_MEM => if self.is_chr_rom_provided { MemAttr::ReadOnly } else { MemAttr::ReadWrite },
            BankType::NAMETABLE => MemAttr::ReadWrite,
        }
    }

    pub open spec fn bank_count(self, t: BankType, w: BankWindow) -> int {
        self.mem(t).len() as int / w.spec_size() as int
    }

    pub open spec fn tables_wf(self) -> bool {
        self.cpu_map.len() == CPU_MAP_TABLE_SIZE && self.ppu_map.len() == PPU_MAP_TABLE_SIZE
    }

    /// Every window offset is below 16M, as any offset that mapping computes is.
    pub open spec fn wf(self) -> bool {
        &&& self.tables_wf()
        &&& forall|j: int| 0 <= j < CPU_MAP_TABLE_SIZE ==> #[trigger] self.cpu_map[j].offset < 0x100_0000
        &&& forall|j: int| 0 <= j < PPU_MAP_TABLE_SIZE ==> #[trigger] self.ppu_map[j].offset < 0x100_0000
    }

    // ---- reads and writes ----

    /// A read or write of a mapped byte: a read of a write-only window gives 0 and a
    /// write to a read-only window is dropped; otherwise the byte must lie inside the
    /// memory that the window maps; an access outside it cannot be served.
    pub open spec fn item_readable(self, item: MapTableItem, offset: int) -> bool {
        match item.bank_type {
            Some(t) => item.attribute == MemAttr::WriteOnly || offset < self.mem(t).len(),
            None => false,
        }
    }

    pub open spec fn item_writable(self, item: MapTableItem, offset: int) -> bool {
        match item.bank_type {
            Some(t) => item.attribute == MemAttr::ReadOnly || offset < self.mem(t).len(),
            None => false,
        }
    }

    pub open spec fn item_value(self, item: MapTableItem, offset: int) -> u8 {
        if item.attribute == MemAttr::WriteOnly { 0 } else { self.mem(item.bank_type.unwrap())[offset] }
    }

    pub open spec fn item_written(self, item: MapTableItem, offset: int, value: u8) -> Self {
        if item.attribute == MemAttr::ReadOnly {
            self
        } else {
            let t = item.bank_type.unwrap();
            self.with_mem(t, self.mem(t).update(offset, value))
        }
    }

    pub open spec fn cpu_item(self, addr: u16) -> MapTableItem {
        self.cpu_map[(addr - 0x6000) / 0x2000]
    }

    pub open spec fn cpu_offset(self, addr: u16) -> int {
        addr % 0x2000 + self.cpu_item(addr).offset
    }

    pub open spec fn cpu_readable(self, addr: u16) -> bool {
        addr >= 0x6000 && self.item_readable(self.cpu_item(addr), self.cpu_offset(addr))
    }

    pub open spec fn cpu_writable(self, addr: u16) -> bool {
        addr >= 0x6000 && self.item_writable(self.cpu_item(addr), self.cpu_offset(addr))
    }

    pub open spec fn cpu_value(self, addr: u16) -> u8 {
        self.item_value(self.cpu_item(addr), self.cpu_offset(addr))
    }

    pub open spec fn cpu_written(self, addr: u16, value: u8) -> Self {
        self.item_written(self.cpu_item(addr), self.cpu_offset(addr), value)
    }

    pub open spec fn ppu_item(self, addr: u16) -> MapTableItem {
        self.ppu_map[(addr / 0x400) as int]
    }

    pub open spec fn ppu_offset(self, addr: u16) -> int {
        addr % 0x400 + self.ppu_item(addr).offset
    }

    pub open spec fn ppu_readable(self, addr: u16) -> bool {
        addr < 0x3000 && self.item_readable(self.ppu_item(addr), self.ppu_offset(addr))
    }

    pub open spec fn ppu_writable(self, addr: u16) -> bool {
        addr < 0x3000 && self.item_writable(self.ppu_item(addr), self.ppu_offset(addr))
    }

    pub open spec fn ppu_value(self, addr: u16) -> u8 {
        self.item_value(self.ppu_item(addr), self.ppu_offset(addr))
    }

    pub open spec fn ppu_written(self, addr: u16, value: u8) -> Self {
        self.item_written(self.ppu_item(addr), self.ppu_offset(addr), value)
    }

    /// A CPU write of `addr` that lands in read-write memory, and so is kept.
    pub open spec fn cpu_stores(self, addr: u16) -> bool {
        self.cpu_writable(addr) && self.cpu_item(addr).attribute == MemAttr::ReadWrite
    }

    /// A PPU write of `addr` that lands in read-write memory, and so is kept.
    pub open spec fn ppu_stores(self, addr: u16) -> bool {
        self.ppu_writable(addr) && self.ppu_item(addr).attribute == MemAttr::ReadWrite
    }

    // ---- mapping ----

    /// The selector that CPU mapping uses: reduced modulo the number of PRG ROM banks of
    /// the window's size, taken as a byte (whatever memory is mapped).
    pub open spec fn cpu_selector(self, sel: u8, w: BankWindow) -> u8 {
        sel % ((self.prg_rom.len() as int / w.spec_size() as int) as u8)
    }

    /// The selector that PPU mapping uses: reduced modulo the number of CHR banks of the
    /// window's size, unless there are none.
    pub open spec fn ppu_selector(self, sel: u8, w: BankWindow) -> u8 {
        let round = self.chr_mem.len() as int / w.spec_size() as int;
        if round == 0 { sel } else { (sel as int % round) as u8 }
    }

    pub open spec fn cpu_base(addr: u16, w: BankWindow) -> int {
        ((addr & window_address_mask(w)) - 0x6000) / 0x2000
    }

    pub open spec fn ppu_base(addr: u16, w: BankWindow) -> int {
        ((addr & window_address_mask(w)) / 0x400) as int
    }

    /// The CPU table after mapping `w` bytes from `addr` onto bank `sel` of `t`.
    pub open spec fn cpu_mapped(self, addr: u16, t: BankType, sel: u8, w: BankWindow, attr: MemAttr) -> Self {
        let base = Self::cpu_base(addr, w);
        let count = w.spec_size() / 0x2000;
        let offset = w.spec_size() * self.cpu_selector(sel, w);
        MapperView {
            cpu_map: Seq::new(
                CPU_MAP_TABLE_SIZE as nat,
                |j: int|
                    if base <= j < base + count {
                        MapTableItem { offset: (offset + (j - base) * 0x2000) as usize, bank_type: Some(t), attribute: attr }
                    } else {
                        self.cpu_map[j]
                    },
            ),
            ..self
        }
    }

    pub open spec fn cpu_unmapped(self, addr: u16, w: BankWindow) -> Self {
        let base = Self::cpu_base(addr, w);
        let count = w.spec_size() / 0x2000;
        MapperView {
            cpu_map: Seq::new(
                CPU_MAP_TABLE_SIZE as nat,
                |j: int| if base <= j < base + count { MapTableItem::unmapped() } else { self.cpu_map[j] },
            ),
            ..self
        }
    }

    pub open spec fn ppu_mapped(self, addr: u16, t: BankType, sel: u8, w: BankWindow, attr: MemAttr) -> Self {
        let base = Self::ppu_base(addr, w);
        let count = w.spec_size() / 0x400;
        let offset = w.spec_size() * self.ppu_selector(sel, w);
        MapperView {
            ppu_map: Seq::new(
                PPU_MAP_TABLE_SIZE as nat,
                |j: int|
                    if base <= j < base + count {
                        MapTableItem { offset: (offset + (j - base) * 0x400) as usize, bank_type: Some(t), attribute: attr }
                    } else {
                        self.ppu_map[j]
                    },
            ),
            ..self
        }
    }

    pub open spec fn ppu_unmapped(self, addr: u16, w: BankWindow) -> Self {
        let base = Self::ppu_base(addr, w);
        let count = w.spec_size() / 0x400;
        MapperView {
            ppu_map: Seq::new(
                PPU_MAP_TABLE_SIZE as nat,
                |j: int| if base <= j < base + count { MapTableItem::unmapped() } else { self.ppu_map[j] },
            ),
            ..self
        }
    }

    /// Whether mapping `w` bytes from `addr` fits the CPU table, with a non-zero modulus.
    pub open spec fn cpu_map_ok(self, addr: u16, t: BankType, w: BankWindow) -> bool {
        &&& addr >= 0x6000
        &&& (t == BankType::PRG_ROM || t == BankType::PRG_RAM)
        &&& (self.prg_rom.len() as int / w.spec_size() as int) as u8 != 0
        &&& Self::cpu_base(addr, w) + w.spec_size() / 0x2000 <= CPU_MAP_TABLE_SIZE
    }

    pub open spec fn ppu_map_ok(self, addr: u16, t: BankType, w: BankWindow) -> bool {
        &&& (t == BankType::CHR_MEM || t == BankType::NAMETABLE)
        &&& Self::ppu_base(addr, w) + w.spec_size() / 0x400 <= PPU_MAP_TABLE_SIZE
    }

    /// The nametable RAM resized to `len` bytes (new bytes are zero) and its four 1K
    /// windows at $2000, $2400, $2800, $2C00 mapped onto the given banks.
    pub open spec fn nametable_arranged(self, len: int, b0: u8, b1: u8, b2: u8, b3: u8) -> Self {
        let v = MapperView {
            nametable: if len <= self.nametable.len() {
                self.nametable.subrange(0, len)
            } else {
                self.nametable + Seq::new((len - self.nametable.len()) as nat, |i: int| 0u8)
            },
            ..self
        };
        let a = MemAttr::ReadWrite;
        v.ppu_mapped(0x2000, BankType::NAMETABLE, b0, BankWindow::Size1k, a)
            .ppu_mapped(0x2400, BankType::NAMETABLE, b1, BankWindow::Size1k, a)
            .ppu_mapped(0x2800, BankType::NAMETABLE, b2, BankWindow::Size1k, a)
            .ppu_mapped(0x2C00, BankType::NAMETABLE, b3, BankWindow::Size1k, a)
    }
}


/// The bank switching state of a cartridge.
pub struct BaseMapper {
    pub cpu_map_table: [MapTableItem; 5],
    pub ppu_map_table: [MapTableItem; 12],
    pub is_chr_rom_provided: bool,
    pub prg_rom: Vec<u8>,
    pub prg_ram: Vec<u8>,
    pub chr_mem: Vec<u8>,
    pub nametable: Vec<u8>,
}

impl View for BaseMapper {
    type V = MapperView;

    open spec fn view(&self) -> MapperView {
        MapperView {
            cpu_map: self.cpu_map_table@,
            ppu_map: self.ppu_map_table@,
            is_chr_rom_provided: self.is_chr_rom_provided,
            prg_rom: self.prg_rom@,
            prg_ram: self.prg_ram@,
            chr_mem: self.chr_mem@,
            nametable: self.nametable@,
        }
    }
}

impl BaseMapper {
    /// Tests the invariant of the tables: every window offset is below 16M.
    pub fn is_wf(&self) -> (r: bool)
        ensures
            r == self@.wf(),
    {
        let mut i: usize = 0;
        while i < 5
            invariant
                i <= 5,
                forall|j: int| 0 <= j < i ==> #[trigger] self@.cpu_map[j].offset < 0x100_0000,
            decreases 5 - i,
        {
            if self.cpu_map_table[i].offset >= 0x100_0000 {
                return false;
            }
            i = i + 1;
        }
        let mut k: usize = 0;
        while k < 12
            invariant
                k <= 12,
                forall|j: int| 0 <= j < 5 ==> #[trigger] self@.cpu_map[j].offset < 0x100_0000,
                forall|j: int| 0 <= j < k ==> #[trigger] self@.ppu_map[j].offset < 0x100_0000,
            decreases 12 - k,
        {
            if self.ppu_map_table[k].offset >= 0x100_0000 {
                return false;
            }
            k = k + 1;
        }
        true
    }

    pub fn cpu_map_table_idx(addr: u16) -> (r: usize)
        requires
            addr >= CPU_ADDRESS_SPACE_MAPPED_BEGIN,
        ensures
            r == (addr - 0x6000) / 0x2000,
            r < CPU_MAP_TABLE_SIZE,
    {
        (addr - CPU_ADDRESS_SPACE_MAPPED_BEGIN) as usize / CPU_MINIMUM_MAP_SIZE
    }

    pub fn ppu_map_table_idx(addr: u16) -> (r: usize)
        ensures
            r == addr / 0x400,
    {
        (addr - PPU_ADDRESS_SPACE_MAPPED_BEGIN) as usize / PPU_MINIMUM_MAP_SIZE
    }

    pub fn default_mem_attr(&self, bank_type: BankType) -> (r: MemAttr)
        ensures
            r == self@.default_attr(bank_type),
    {
        match bank_type {
            BankType::PRG_ROM => MemAttr::ReadOnly,
            BankType::PRG_RAM => MemAttr::ReadWrite,
            BankType::CHR_MEM => {
                if self.is_chr_rom_provided {
                    MemAttr::ReadOnly
                } else {
                    MemAttr::ReadWrite
                }
            },
            BankType::NAMETABLE => MemAttr::ReadWrite,
        }
    }

    pub fn new() -> (m: Self)
        ensures
            m@.wf(),
            m@.tables_wf(),
            forall|j: int| 0 <= j < CPU_MAP_TABLE_SIZE ==> m@.cpu_map[j] == MapTableItem::unmapped(),
            forall|j: int| 0 <= j < PPU_MAP_TABLE_SIZE ==> m@.ppu_map[j] == MapTableItem::unmapped(),
            !m.is_chr_rom_provided,
            m@.prg_rom.len() == 0,
            m@.prg_ram.len() == 0,
            m@.chr_mem.len() == 0,
            m@.nametable.len() == 0,
    {
        BaseMapper {
            cpu_map_table: [MapTableItem::default(); CPU_MAP_TABLE_SIZE],
            ppu_map_table: [MapTableItem::default(); PPU_MAP_TABLE_SIZE],
            is_chr_rom_provided: false,
            prg_rom: Vec::new(),
            prg_ram: Vec::new(),
            chr_mem: Vec::new(),
            nametable: Vec::new(),
        }
    }

    /// Takes a copy of the PRG ROM, sizes the PRG RAM, and takes the CHR ROM or, when
    /// the cartridge has none, sizes the CHR RAM.
    pub fn initialize(&mut self, prg_rom: &Vec<u8>, chr_rom: &Vec<u8>, prg_ram_capacity: usize, chr_capacity: usize)
        requires
            old(self)@.wf(),
        ensures
            final(self)@.wf(),
            final(self)@.prg_rom == prg_rom@,
            prg_ram_capacity <= old(self)@.prg_ram.len() ==> final(self)@.prg_ram == old(self)@.prg_ram.subrange(0, prg_ram_capacity as int),
            prg_ram_capacity > old(self)@.prg_ram.len() ==> final(self)@.prg_ram == old(self)@.prg_ram + Seq::new((prg_ram_capacity - old(self)@.prg_ram.len()) as nat, |i: int| 0u8),
            chr_rom@.len() != 0 ==> final(self)@.chr_mem == chr_rom@,
            chr_rom@.len() == 0 && chr_capacity <= old(self)@.chr_mem.len() ==> final(self)@.chr_mem == old(self)@.chr_mem.subrange(0, chr_capacity as int),
            chr_rom@.len() == 0 && chr_capacity > old(self)@.chr_mem.len() ==> final(self)@.chr_mem == old(self)@.chr_mem + Seq::new((chr_capacity - old(self)@.chr_mem.len()) as nat, |i: int| 0u8),
            final(self)@.cpu_map == old(self)@.cpu_map,
            final(self)@.ppu_map == old(self)@.ppu_map,
            final(self)@.nametable == old(self)@.nametable,
            final(self).is_chr_rom_provided == old(self).is_chr_rom_provided,
    {
        self.prg_rom = prg_rom.clone();
        assert(self.prg_rom@ =~= prg_rom@);
        let ghost old_ram = self.prg_ram@;
        self.prg_ram.resize(prg_ram_capacity, 0);
        proof {
            if prg_ram_capacity > old_ram.len() {
                assert(self.prg_ram@ =~= old_ram + Seq::new((prg_ram_capacity - old_ram.len()) as nat, |i: int| 0u8));
            }
        }
        if chr_rom.len() == 0 {
            let ghost old_chr = self.chr_mem@;
            self.chr_mem.resize(chr_capacity, 0);
            proof {
                if chr_capacity > old_chr.len() {
                    assert(self.chr_mem@ =~= old_chr + Seq::new((chr_capacity - old_chr.len()) as nat, |i: int| 0u8));
                }
            }
        } else {
            self.chr_mem = chr_rom.clone();
            assert(self.chr_mem@ =~= chr_rom@);
        }
    }

    pub fn map_cpu_address(&mut self, addr: u16, bank_type: BankType, bank_selector: u8, bank_window: BankWindow)
        requires
            old(self)@.wf(),
            old(self)@.cpu_map_ok(addr, bank_type, bank_window),
        ensures
            final(self)@.wf(),
            final(self)@ == old(self)@.cpu_mapped(addr, bank_type, bank_selector, bank_window, old(self)@.default_attr(bank_type)),
    {
        let attr = self.default_mem_attr(bank_type);
        self.map_cpu_address_with_attr(addr, bank_type, bank_selector, bank_window, attr)
    }

    pub fn map_ppu_address(&mut self, addr: u16, bank_type: BankType, bank_selector: u8, bank_window: BankWindow)
        requires
            old(self)@.wf(),
            old(self)@.ppu_map_ok(addr, bank_type, bank_window),
        ensures
            final(self)@.wf(),
            final(self)@ == old(self)@.ppu_mapped(addr, bank_type, bank_selector, bank_window, old(self)@.default_attr(bank_type)),
    {
        let attr = self.default_mem_attr(bank_type);
        self.map_ppu_address_with_attr(addr, bank_type, bank_selector, bank_window, attr)
    }

    /// Maps the window of `bank_window` bytes that holds `addr` onto bank
    /// `bank_selector` of PRG ROM or PRG RAM.
    pub fn map_cpu_address_with_attr(
        &mut self,
        addr: u16,
        bank_type: BankType,
        bank_selector: u8,
        bank_window: BankWindow,
        mem_attr: MemAttr,
    )
        requires
            old(self)@.wf(),
            old(self)@.cpu_map_ok(addr, bank_type, bank_window),
        ensures
            final(self)@.wf(),
            final(self)@ == old(self)@.cpu_mapped(addr, bank_type, bank_selector, bank_window, mem_attr),
    {
        let banks = (self.prg_rom.len() / bank_window.size()) as u8;
        let sel = bank_selector % banks;
        let mask = bank_window.address_mask();
        let masked = addr & mask;
        proof {
            lemma_mask_keeps_high_bits(addr, mask);
        }
        let window = bank_window.size();
        assert(window <= 0x8000);
        let offset = window * sel as usize;
        assert(offset <= 0x8000 * 255) by (nonlinear_arith)
            requires
                window <= 0x8000,
                sel < 256,
                offset == window * sel,
        ;
        let idx_base = Self::cpu_map_table_idx(masked);
        let count = window / CPU_MINIMUM_MAP_SIZE;
        let ghost old_map = self.cpu_map_table@;
        let mut i: usize = 0;
        while i < count
            invariant
                i <= count,
                count == window / 0x2000,
                window == bank_window.spec_size(),
                idx_base + count <= CPU_MAP_TABLE_SIZE,
                offset == window * sel,
                sel < 256,
                self.cpu_map_table@.len() == CPU_MAP_TABLE_SIZE,
                self@ == (MapperView { cpu_map: self@.cpu_map, ..old(self)@ }),
                forall|j: int| 0 <= j < CPU_MAP_TABLE_SIZE ==> #[trigger] old_map[j].offset < 0x100_0000,
                forall|j: int| 0 <= j < CPU_MAP_TABLE_SIZE ==> #[trigger] self.cpu_map_table@[j]
                    == if idx_base <= j < idx_base + i {
                        MapTableItem { offset: (offset + (j - idx_base) * 0x2000) as usize, bank_type: Some(bank_type), attribute: mem_attr }
                    } else {
                        old_map[j]
                    },
            decreases count - i,
        {
            let idx = idx_base + i;
            self.cpu_map_table[idx] = MapTableItem {
                offset: offset + i * CPU_MINIMUM_MAP_SIZE,
                bank_type: Some(bank_type),
                attribute: mem_attr,
            };
            i = i + 1;
        }
        assert(self@.cpu_map =~= old(self)@.cpu_mapped(addr, bank_type, bank_selector, bank_window, mem_attr).cpu_map);
        assert(self@ =~= old(self)@.cpu_mapped(addr, bank_type, bank_selector, bank_window, mem_attr));
    }

    pub fn unmap_cpu_address(&mut self, addr: u16, bank_window: BankWindow)
        requires
            old(self)@.wf(),
            addr >= 0x6000,
            MapperView::cpu_base(addr, bank_window) + bank_window.spec_size() / 0x2000 <= CPU_MAP_TABLE_SIZE,
        ensures
            final(self)@.wf(),
            final(self)@ == old(self)@.cpu_unmapped(addr, bank_window),
    {
        let mask = bank_window.address_mask();
        let masked = addr & mask;
        proof {
            lemma_mask_keeps_high_bits(addr, mask);
        }
        let window = bank_window.size();
        let idx_base = Self::cpu_map_table_idx(masked);
        let count = window / CPU_MINIMUM_MAP_SIZE;
        let ghost old_map = self.cpu_map_table@;
        let mut i: usize = 0;
        while i < count
            invariant
                i <= count,
                count == window / 0x2000,
                window == bank_window.spec_size(),
                idx_base + count <= CPU_MAP_TABLE_SIZE,
                self.cpu_map_table@.len() == CPU_MAP_TABLE_SIZE,
                self@ == (MapperView { cpu_map: self@.cpu_map, ..old(self)@ }),
                forall|j: int| 0 <= j < CPU_MAP_TABLE_SIZE ==> #[trigger] old_map[j].offset < 0x100_0000,
                forall|j: int| 0 <= j < CPU_MAP_TABLE_SIZE ==> #[trigger] self.cpu_map_table@[j]
                    == if idx_base <= j < idx_base + i { MapTableItem::unmapped() } else { old_map[j] },
            decreases count - i,
        {
            let idx = idx_base + i;
            self.cpu_map_table[idx] = MapTableItem { offset: 0, bank_type: None, attribute: MemAttr::ReadOnly };
            i = i + 1;
        }
        assert(self@.cpu_map =~= old(self)@.cpu_unmapped(addr, bank_window).cpu_map);
        assert(self@ =~= old(self)@.cpu_unmapped(addr, bank_window));
    }

    /// Maps the window of `bank_window` bytes that holds `addr` onto bank
    /// `bank_selector` of CHR memory or nametable RAM.
    pub fn map_ppu_address_with_attr(
        &mut self,
        addr: u16,
        bank_type: BankType,
        bank_selector: u8,
        bank_window: BankWindow,
        mem_attr: MemAttr,
    )
        requires
            old(self)@.wf(),
            old(self)@.ppu_map_ok(addr, bank_type, bank_window),
        ensures
            final(self)@.wf(),
            final(self)@ == old(self)@.ppu_mapped(addr, bank_type, bank_selector, bank_window, mem_attr),
    {
        let round = self.chr_mem.len() / bank_window.size();
        let sel = if round == 0 {
            bank_selector
        } else {
            (bank_selector as usize % round) as u8
        };
        let mask = bank_window.address_mask();
        let masked = addr & mask;
        proof {
            lemma_mask_keeps_high_bits(addr, mask);
        }
        let window = bank_window.size();
        assert(window <= 0x8000);
        let offset = window * sel as usize;
        assert(offset <= 0x8000 * 255) by (nonlinear_arith)
            requires
                window <= 0x8000,
                sel < 256,
                offset == window * sel,
        ;
        let idx_base = Self::ppu_map_table_idx(masked);
        let count = window / PPU_MINIMUM_MAP_SIZE;
        let ghost old_map = self.ppu_map_table@;
        let mut i: usize = 0;
        while i < count
            invariant
                i <= count,
                count == window / 0x400,
                window == bank_window.spec_size(),
                idx_base + count <= PPU_MAP_TABLE_SIZE,
                offset == window * sel,
                sel < 256,
                self.ppu_map_table@.len() == PPU_MAP_TABLE_SIZE,
                self@ == (MapperView { ppu_map: self@.ppu_map, ..old(self)@ }),
                forall|j: int| 0 <= j < PPU_MAP_TABLE_SIZE ==> #[trigger] old_map[j].offset < 0x100_0000,
                forall|j: int| 0 <= j < PPU_MAP_TABLE_SIZE ==> #[trigger] self.ppu_map_table@[j]
                    == if idx_base <= j < idx_base + i {
                        MapTableItem { offset: (offset + (j - idx_base) * 0x400) as usize, bank_type: Some(bank_type), attribute: mem_attr }
                    } else {
                        old_map[j]
                    },
            decreases count - i,
        {
            let idx = idx_base + i;
            self.ppu_map_table[idx] = MapTableItem {
                offset: offset + i * PPU_MINIMUM_MAP_SIZE,
                bank_type: Some(bank_type),
                attribute: mem_attr,
            };
            i = i + 1;
        }
        assert(self@.ppu_map =~= old(self)@.ppu_mapped(addr, bank_type, bank_selector, bank_window, mem_attr).ppu_map);
        assert(self@ =~= old(self)@.ppu_mapped(addr, bank_type, bank_selector, bank_window, mem_attr));
    }

    pub fn unmap_ppu_address(&mut self, addr: u16, bank_window: BankWindow)
        requires
            old(self)@.wf(),
            MapperView::ppu_base(addr, bank_window) + bank_window.spec_size() / 0x400 <= PPU_MAP_TABLE_SIZE,
        ensures
            final(self)@.wf(),
            final(self)@ == old(self)@.ppu_unmapped(addr, bank_window),
    {
        let mask = bank_window.address_mask();
        let masked = addr & mask;
        proof {
            lemma_mask_keeps_high_bits(addr, mask);
        }
        let window = bank_window.size();
        let idx_base = Self::ppu_map_table_idx(masked);
        let count = window / PPU_MINIMUM_MAP_SIZE;
        let ghost old_map = self.ppu_map_table@;
        let mut i: usize = 0;
        while i < count
            invariant
                i <= count,
                count == window / 0x400,
                window == bank_window.spec_size(),
                idx_base + count <= PPU_MAP_TABLE_SIZE,
                self.ppu_map_table@.len() == PPU_MAP_TABLE_SIZE,
                self@ == (MapperView { ppu_map: self@.ppu_map, ..old(self)@ }),
                forall|j: int| 0 <= j < PPU_MAP_TABLE_SIZE ==> #[trigger] old_map[j].offset < 0x100_0000,
                forall|j: int| 0 <= j < PPU_MAP_TABLE_SIZE ==> #[trigger] self.ppu_map_table@[j]
                    == if idx_base <= j < idx_base + i { MapTableItem::unmapped() } else { old_map[j] },
            decreases count - i,
        {
            let idx = idx_base + i;
            self.ppu_map_table[idx] = MapTableItem { offset: 0, bank_type: None, attribute: MemAttr::ReadOnly };
            i = i + 1;
        }
        assert(self@.ppu_map =~= old(self)@.ppu_unmapped(addr, bank_window).ppu_map);
        assert(self@ =~= old(self)@.ppu_unmapped(addr, bank_window));
    }

    /// Whether a CPU read of `addr` is served without a panic.
    pub fn can_peek_cpu(&self, addr: u16) -> (r: bool)
        requires
            self@.wf(),
        ensures
            r == self@.cpu_readable(addr),
    {
        if addr < 0x6000 {
            return false;
        }
        let item = self.cpu_map_table[Self::cpu_map_table_idx(addr)];
        let offset = (addr as usize % CPU_MINIMUM_MAP_SIZE) + item.offset;
        self.item_in_bounds(item, offset, MemAttr::WriteOnly)
    }

    /// Whether a CPU write of `addr` is served without a panic.
    pub fn can_poke_cpu(&self, addr: u16) -> (r: bool)
        requires
            self@.wf(),
        ensures
            r == self@.cpu_writable(addr),
    {
        if addr < 0x6000 {
            return false;
        }
        let item = self.cpu_map_table[Self::cpu_map_table_idx(addr)];
        let offset = (addr as usize % CPU_MINIMUM_MAP_SIZE) + item.offset;
        self.item_in_bounds(item, offset, MemAttr::ReadOnly)
    }

    /// Whether a PPU read of `addr` is served without a panic.
    pub fn can_peek_ppu(&self, addr: u16) -> (r: bool)
        requires
            self@.wf(),
        ensures
            r == self@.ppu_readable(addr),
    {
        if addr >= 0x3000 {
            return false;
        }
        let item = self.ppu_map_table[Self::ppu_map_table_idx(addr)];
        let offset = (addr as usize % PPU_MINIMUM_MAP_SIZE) + item.offset;
        self.item_in_bounds(item, offset, MemAttr::WriteOnly)
    }

    /// Whether a PPU write of `addr` is served without a panic.
    pub fn can_poke_ppu(&self, addr: u16) -> (r: bool)
        requires
            self@.wf(),
        ensures
            r == self@.ppu_writable(addr),
    {
        if addr >= 0x3000 {
            return false;
        }
        let item = self.ppu_map_table[Self::ppu_map_table_idx(addr)];
        let offset = (addr as usize % PPU_MINIMUM_MAP_SIZE) + item.offset;
        self.item_in_bounds(item, offset, MemAttr::ReadOnly)
    }

    fn item_in_bounds(&self, item: MapTableItem, offset: usize, exempt: MemAttr) -> (r: bool)
        requires
            exempt == MemAttr::WriteOnly || exempt == MemAttr::ReadOnly,
        ensures
            exempt == MemAttr::WriteOnly ==> r == self@.item_readable(item, offset as int),
            exempt == MemAttr::ReadOnly ==> r == self@.item_writable(item, offset as int),
    {
        match item.bank_type {
            Some(t) => item.attribute == exempt || offset < self.mem_len(t),
            None => false,
        }
    }

    fn mem_len(&self, t: BankType) -> (r: usize)
        ensures
            r == self@.mem(t).len(),
    {
        match t {
            BankType::PRG_ROM => self.prg_rom.len(),
            BankType::PRG_RAM => self.prg_ram.len(),
            BankType::CHR_MEM => self.chr_mem.len(),
            BankType::NAMETABLE => self.nametable.len(),
        }
    }

    pub fn peek_cpu_memory(&self, addr: u16) -> (r: u8)
        requires
            self@.wf(),
            self@.cpu_readable(addr),
        ensures
            r == self@.cpu_value(addr),
    {
        let item = self.cpu_map_table[Self::cpu_map_table_idx(addr)];
        let offset = (addr as usize % CPU_MINIMUM_MAP_SIZE) + item.offset;
        match item.bank_type {
            Some(bank_type) => self.internal_peek(bank_type, item.attribute, offset),
            None => 0,
        }
    }

    pub fn poke_cpu_memory(&mut self, addr: u16, value: u8)
        requires
            old(self)@.wf(),
            old(self)@.cpu_writable(addr),
        ensures
            final(self)@.wf(),
            final(self)@ == old(self)@.cpu_written(addr, value),
    {
        let item = self.cpu_map_table[Self::cpu_map_table_idx(addr)];
        let offset = (addr as usize % CPU_MINIMUM_MAP_SIZE) + item.offset;
        match item.bank_type {
            Some(bank_type) => self.internal_poke(bank_type, item.attribute, offset, value),
            None => {},
        }
    }

    pub fn peek_ppu_memory(&self, addr: u16) -> (r: u8)
        requires
            self@.wf(),
            self@.ppu_readable(addr),
        ensures
            r == self@.ppu_value(addr),
    {
        let item = self.ppu_map_table[Self::ppu_map_table_idx(addr)];
        let offset = (addr as usize % PPU_MINIMUM_MAP_SIZE) + item.offset;
        match item.bank_type {
            Some(bank_type) => self.internal_peek(bank_type, item.attribute, offset),
            None => 0,
        }
    }

    pub fn poke_ppu_memory(&mut self, addr: u16, value: u8)
        requires
            old(self)@.wf(),
            old(self)@.ppu_writable(addr),
        ensures
            final(self)@.wf(),
            final(self)@ == old(self)@.ppu_written(addr, value),
    {
        let item = self.ppu_map_table[Self::ppu_map_table_idx(addr)];
        let offset = (addr as usize % PPU_MINIMUM_MAP_SIZE) + item.offset;
        match item.bank_type {
            Some(bank_type) => self.internal_poke(bank_type, item.attribute, offset, value),
            None => {},
        }
    }

    fn resize_nametable(&mut self, len: usize)
        requires
            old(self)@.wf(),
        ensures
            final(self)@.wf(),
            final(self)@ == (MapperView {
                nametable: if len <= old(self)@.nametable.len() {
                    old(self)@.nametable.subrange(0, len as int)
                } else {
                    old(self)@.nametable + Seq::new((len - old(self)@.nametable.len()) as nat, |i: int| 0u8)
                },
                ..old(self)@
            }),
    {
        let ghost old_nt = self.nametable@;
        self.nametable.resize(len, 0);
        proof {
            if len > old_nt.len() {
                assert(self.nametable@ =~= old_nt + Seq::new((len - old_nt.len()) as nat, |i: int| 0u8));
            }
        }
    }

    fn arrange_nametable(&mut self, len: usize, b0: u8, b1: u8, b2: u8, b3: u8)
        requires
            old(self)@.wf(),
        ensures
            final(self)@.wf(),
            final(self)@ == old(self)@.nametable_arranged(len as int, b0, b1, b2, b3),
    {
        proof {
            lemma_aligned_window(0x2000, BankWindow::Size1k);
            lemma_aligned_window(0x2400, BankWindow::Size1k);
            lemma_aligned_window(0x2800, BankWindow::Size1k);
            lemma_aligned_window(0x2C00, BankWindow::Size1k);
        }
        self.resize_nametable(len);
        self.map_ppu_address(0x2000, BankType::NAMETABLE, b0, BankWindow::Size1k);
        self.map_ppu_address(0x2400, BankType::NAMETABLE, b1, BankWindow::Size1k);
        self.map_ppu_address(0x2800, BankType::NAMETABLE, b2, BankWindow::Size1k);
        self.map_ppu_address(0x2C00, BankType::NAMETABLE, b3, BankWindow::Size1k);
    }

    pub fn initialize_and_map_nametable_vertical(&mut self)
        requires
            old(self)@.wf(),
        ensures
            final(self)@.wf(),
            final(self)@ == old(self)@.nametable_arranged(0x800, 0, 1, 0, 1),
    {
        self.arrange_nametable(0x800, 0, 1, 0, 1);
    }

    pub fn initialize_and_map_nametable_horizontal(&mut self)
        requires
            old(self)@.wf(),
        ensures
            final(self)@.wf(),
            final(self)@ == old(self)@.nametable_arranged(0x800, 0, 0, 1, 1),
    {
        self.arrange_nametable(0x800, 0, 0, 1, 1);
    }

    pub fn initialize_and_map_nametable_fourscreen(&mut self)
        requires
            old(self)@.wf(),
        ensures
            final(self)@.wf(),
            final(self)@ == old(self)@.nametable_arranged(0x2000, 0, 1, 2, 3),
    {
        self.arrange_nametable(0x2000, 0, 1, 2, 3);
    }

    pub fn initialize_and_map_nametable_onescreen_lower_bank(&mut self)
        requires
            old(self)@.wf(),
        ensures
            final(self)@.wf(),
            final(self)@ == old(self)@.nametable_arranged(0x800, 0, 0, 0, 0),
    {
        self.arrange_nametable(0x800, 0, 0, 0, 0);
    }

    pub fn initialize_and_map_nametable_onescreen_upper_bank(&mut self)
        requires
            old(self)@.wf(),
        ensures
            final(self)@.wf(),
            final(self)@ == old(self)@.nametable_arranged(0x800, 1, 1, 1, 1),
    {
        self.arrange_nametable(0x800, 1, 1, 1, 1);
    }

    pub fn bank_num(&self, bank_type: BankType, bank_window: BankWindow) -> (r: usize)
        ensures
            r == self@.bank_count(bank_type, bank_window),
    {
        self.mem_len(bank_type) / bank_window.size()
    }

    fn internal_peek(&self, bank_type: BankType, attribute: MemAttr, offset: usize) -> (r: u8)
        requires
            attribute == MemAttr::WriteOnly || offset < self@.mem(bank_type).len(),
        ensures
            r == (if attribute == MemAttr::WriteOnly { 0 } else { self@.mem(bank_type)[offset as int] }),
    {
        if attribute == MemAttr::WriteOnly {
            return 0;
        }
        match bank_type {
            BankType::PRG_ROM => self.prg_rom[offset],
            BankType::PRG_RAM => self.prg_ram[offset],
            BankType::CHR_MEM => self.chr_mem[offset],
            BankType::NAMETABLE => self.nametable[offset],
        }
    }

    fn internal_poke(&mut self, bank_type: BankType, attribute: MemAttr, offset: usize, value: u8)
        requires
            old(self)@.wf(),
            attribute == MemAttr::ReadOnly || offset < old(self)@.mem(bank_type).len(),
        ensures
            final(self)@.wf(),
            final(self)@ == (if attribute == MemAttr::ReadOnly {
                old(self)@
            } else {
                old(self)@.with_mem(bank_type, old(self)@.mem(bank_type).update(offset as int, value))
            }),
    {
        if attribute == MemAttr::ReadOnly {
            return;
        }
        match bank_type {
            BankType::PRG_ROM => self.prg_rom.set(offset, value),
            BankType::PRG_RAM => self.prg_ram.set(offset, value),
            BankType::CHR_MEM => self.chr_mem.set(offset, value),
            BankType::NAMETABLE => self.nametable.set(offset, value),
        }
    }
}

/// A byte written through a read-write CPU window reads back unchanged.
pub proof fn lemma_cpu_write_then_read(m: MapperView, addr: u16, value: u8)
    requires
        m.cpu_stores(addr),
    ensures
        m.cpu_written(addr, value).cpu_value(addr) == value,
        m.cpu_written(addr, value).cpu_readable(addr),
{
}

/// A byte written through a read-write PPU window reads back unchanged.
pub proof fn lemma_ppu_write_then_read(m: MapperView, addr: u16, value: u8)
    requires
        m.ppu_stores(addr),
    ensures
        m.ppu_written(addr, value).ppu_value(addr) == value,
        m.ppu_written(addr, value).ppu_readable(addr),
{
}

/// After mapping a CPU window of `w` bytes at `addr` (aligned to `w`) onto bank `sel`
/// of `t`, an address `a` in the window reads the byte of that bank at `a - addr`; the
/// rest of the CPU table is as it was.
pub proof fn lemma_cpu_mapped_read(m: MapperView, addr: u16, t: BankType, sel: u8, w: BankWindow, attr: MemAttr, a: u16)
    requires
        m.tables_wf(),
        m.cpu_map_ok(addr, t, w),
        w.spec_size() >= 0x2000,
        addr as int % (w.spec_size() as int) == 0,
        addr <= a < addr + w.spec_size(),
    ensures
        ({
            let m1 = m.cpu_mapped(addr, t, sel, w, attr);
            let bank = w.spec_size() * m.cpu_selector(sel, w);
            &&& m1.cpu_item(a).bank_type == Some(t)
            &&& m1.cpu_item(a).attribute == attr
            &&& m1.cpu_offset(a) == bank + (a - addr)
            &&& attr != MemAttr::WriteOnly ==> m1.cpu_value(a) == m.mem(t)[bank + (a - addr)]
        }),
{
    let z = w.spec_size() as int;
    if z == 0x4000 {
        assert(addr as int % 0x2000 == 0) by (nonlinear_arith)
            requires
                addr as int % 0x4000 == 0,
        ;
    } else if z == 0x8000 {
        assert(addr as int % 0x2000 == 0) by (nonlinear_arith)
            requires
                addr as int % 0x8000 == 0,
        ;
    }
    assert(addr % 0x2000 == 0);
    assert(addr % 64 == 0);
    lemma_aligned_window(addr, w);
    let base = (addr - 0x6000) / 0x2000;
    let j = (a - 0x6000) / 0x2000;
    assert(base <= j < base + z / 0x2000);
    assert(a - addr == (j - base) * 0x2000 + a % 0x2000);
}

/// After mapping a PPU window of `w` bytes at `addr` (aligned to `w`) onto bank `sel`
/// of `t`, an address `a` in the window reads the byte of that bank at `a - addr`.
pub proof fn lemma_ppu_mapped_read(m: MapperView, addr: u16, t: BankType, sel: u8, w: BankWindow, attr: MemAttr, a: u16)
    requires
        m.tables_wf(),
        m.ppu_map_ok(addr, t, w),
        w.spec_size() <= 0x2000,
        addr as int % (w.spec_size() as int) == 0,
        addr <= a < addr + w.spec_size(),
    ensures
        ({
            let m1 = m.ppu_mapped(addr, t, sel, w, attr);
            let bank = w.spec_size() * m.ppu_selector(sel, w);
            &&& m1.ppu_item(a).bank_type == Some(t)
            &&& m1.ppu_item(a).attribute == attr
            &&& m1.ppu_offset(a) == bank + (a - addr)
            &&& attr != MemAttr::WriteOnly ==> m1.ppu_value(a) == m.mem(t)[bank + (a - addr)]
        }),
{
    let z = w.spec_size() as int;
    if z == 0x800 {
        assert(addr as int % 0x400 == 0) by (nonlinear_arith)
            requires
                addr as int % 0x800 == 0,
        ;
    } else if z == 0x1000 {
        assert(addr as int % 0x400 == 0) by (nonlinear_arith)
            requires
                addr as int % 0x1000 == 0,
        ;
    } else if z == 0x2000 {
        assert(addr as int % 0x400 == 0) by (nonlinear_arith)
            requires
                addr as int % 0x2000 == 0,
        ;
    }
    assert(addr % 0x400 == 0);
    assert(addr % 64 == 0);
    lemma_aligned_window(addr, w);
    let base = addr / 0x400;
    let j = a / 0x400;
    assert(base <= j < base + z / 0x400);
    assert(a - addr == (j - base) * 0x400 + a % 0x400);
}

/// A CPU write through a read-only window changes nothing; any write leaves the bytes
/// of every address backed by other memory as they were.
pub proof fn lemma_cpu_write_elsewhere(m: MapperView, a: u16, value: u8, b: u16)
    requires
        m.cpu_writable(a),
        m.cpu_readable(b),
    ensures
        m.cpu_item(a).attribute == MemAttr::ReadOnly ==> m.cpu_written(a, value) == m,
        !(m.cpu_item(b).bank_type == m.cpu_item(a).bank_type && m.cpu_offset(b) == m.cpu_offset(a))
            ==> m.cpu_written(a, value).cpu_value(b) == m.cpu_value(b),
{
    let w = m.cpu_written(a, value);
    assert(w.cpu_map == m.cpu_map);
}

/// A write kept by the cartridge at `a` is seen by a read of any address `b` that the
/// PPU table sends to the same window at the same place, as nametable mirrors are.
pub proof fn lemma_ppu_alias_write_read(m: MapperView, a: u16, b: u16, value: u8)
    requires
        m.ppu_stores(a),
        b < 0x3000,
        m.ppu_item(b) == m.ppu_item(a),
        b % 0x400 == a % 0x400,
    ensures
        m.ppu_written(a, value).ppu_readable(b),
        m.ppu_written(a, value).ppu_value(b) == value,
{
}

/// Vertical mirroring: the nametables at $2000 and $2800 are the same memory, and so
/// are those at $2400 and $2C00. Horizontal mirroring pairs $2000 with $2400 and $2800
/// The four nametable windows after an arrangement with 2K of nametable memory onto
/// banks 0 and 1 (CHR memory empty or at least 2K, as the bank selector is reduced by
/// its size): the window at $2000 + $400 * j is the 1K bank `bj`, read-write; the table
/// below $2000 is as it was.
pub proof fn lemma_nametable_banks(m: MapperView, b0: u8, b1: u8, b2: u8, b3: u8, k: u16)
    requires
        m.tables_wf(),
        k < 0x400,
        b0 <= 1 && b1 <= 1 && b2 <= 1 && b3 <= 1,
        m.chr_mem.len() == 0 || m.chr_mem.len() >= 0x800,
    ensures
        ({
            let n = m.nametable_arranged(0x800, b0, b1, b2, b3);
            let item = |b: u8| MapTableItem { offset: (0x400 * b) as usize, bank_type: Some(BankType::NAMETABLE),
                attribute: MemAttr::ReadWrite };
            &&& n.ppu_item((0x2000 + k) as u16) == item(b0)
            &&& n.ppu_item((0x2400 + k) as u16) == item(b1)
            &&& n.ppu_item((0x2800 + k) as u16) == item(b2)
            &&& n.ppu_item((0x2C00 + k) as u16) == item(b3)
            &&& forall|j: int| 0 <= j < 8 ==> n.ppu_map[j] == m.ppu_map[j]
        }),
{
    lemma_aligned_window(0x2000, BankWindow::Size1k);
    lemma_aligned_window(0x2400, BankWindow::Size1k);
    lemma_aligned_window(0x2800, BankWindow::Size1k);
    lemma_aligned_window(0x2C00, BankWindow::Size1k);
    let v = MapperView {
        nametable: if 0x800 <= m.nametable.len() {
            m.nametable.subrange(0, 0x800)
        } else {
            m.nametable + Seq::new((0x800 - m.nametable.len()) as nat, |i: int| 0u8)
        },
        ..m
    };
    assert(v.nametable.len() == 0x800);
    let a = MemAttr::ReadWrite;
    let t = BankType::NAMETABLE;
    let w = BankWindow::Size1k;
    let v1 = v.ppu_mapped(0x2000, t, b0, w, a);
    let v2 = v1.ppu_mapped(0x2400, t, b1, w, a);
    let v3 = v2.ppu_mapped(0x2800, t, b2, w, a);
    let v4 = v3.ppu_mapped(0x2C00, t, b3, w, a);
    let round = m.chr_mem.len() as int / 0x400;
    if round != 0 {
        assert(round >= 2);
        assert(0int % round == 0 && 1int % round == 1) by (nonlinear_arith)
            requires
                round >= 2,
        ;
        assert(b0 as int % round == b0 as int);
        assert(b1 as int % round == b1 as int);
        assert(b2 as int % round == b2 as int);
        assert(b3 as int % round == b3 as int);
    }
    assert(v.ppu_selector(b0, w) == b0);
    assert(v1.ppu_selector(b1, w) == b1);
    assert(v2.ppu_selector(b2, w) == b2);
    assert(v3.ppu_selector(b3, w) == b3);
    assert(MapperView::ppu_base(0x2000, w) == 8);
    assert(MapperView::ppu_base(0x2400, w) == 9);
    assert(MapperView::ppu_base(0x2800, w) == 10);
    assert(MapperView::ppu_base(0x2C00, w) == 11);
    assert(((0x2000 + k) as u16) / 0x400 == 8);
    assert(((0x2400 + k) as u16) / 0x400 == 9);
    assert(((0x2800 + k) as u16) / 0x400 == 10);
    assert(((0x2C00 + k) as u16) / 0x400 == 11);
    assert(v4 == m.nametable_arranged(0x800, b0, b1, b2, b3));
}

/// with $2C00. One-screen arrangements make all four the same.
pub proof fn lemma_nametable_mirroring(m: MapperView, k: u16)
    requires
        m.tables_wf(),
        k < 0x400,
    ensures
        m.nametable_arranged(0x800, 0, 1, 0, 1).ppu_item((0x2000 + k) as u16)
            == m.nametable_arranged(0x800, 0, 1, 0, 1).ppu_item((0x2800 + k) as u16),
        m.nametable_arranged(0x800, 0, 1, 0, 1).ppu_item((0x2400 + k) as u16)
            == m.nametable_arranged(0x800, 0, 1, 0, 1).ppu_item((0x2C00 + k) as u16),
        m.nametable_arranged(0x800, 0, 0, 1, 1).ppu_item((0x2000 + k) as u16)
            == m.nametable_arranged(0x800, 0, 0, 1, 1).ppu_item((0x2400 + k) as u16),
        m.nametable_arranged(0x800, 0, 0, 1, 1).ppu_item((0x2800 + k) as u16)
            == m.nametable_arranged(0x800, 0, 0, 1, 1).ppu_item((0x2C00 + k) as u16),
        m.nametable_arranged(0x800, 0, 0, 0, 0).ppu_item((0x2000 + k) as u16)
            == m.nametable_arranged(0x800, 0, 0, 0, 0).ppu_item((0x2C00 + k) as u16),
{
    lemma_aligned_window(0x2000, BankWindow::Size1k);
    lemma_aligned_window(0x2400, BankWindow::Size1k);
    lemma_aligned_window(0x2800, BankWindow::Size1k);
    lemma_aligned_window(0x2C00, BankWindow::Size1k);
}

/// Writes through the nametables read back through their mirrors: with vertical
/// mirroring a byte written at $2000+k (or $2400+k) is read at $2800+k (or $2C00+k);
/// with horizontal mirroring a byte written at $2000+k (or $2800+k) is read at $2400+k
/// (or $2C00+k); with one screen at all four.
pub proof fn lemma_nametable_mirror_write(m: MapperView, k: u16, v: u8)
    requires
        m.tables_wf(),
        k < 0x400,
    ensures
        ({
            let n = m.nametable_arranged(0x800, 0, 1, 0, 1);
            &&& n.ppu_stores((0x2000 + k) as u16) ==> n.ppu_written((0x2000 + k) as u16, v).ppu_value((0x2800 + k) as u16) == v
            &&& n.ppu_stores((0x2400 + k) as u16) ==> n.ppu_written((0x2400 + k) as u16, v).ppu_value((0x2C00 + k) as u16) == v
        }),
        ({
            let n = m.nametable_arranged(0x800, 0, 0, 1, 1);
            &&& n.ppu_stores((0x2000 + k) as u16) ==> n.ppu_written((0x2000 + k) as u16, v).ppu_value((0x2400 + k) as u16) == v
            &&& n.ppu_stores((0x2800 + k) as u16) ==> n.ppu_written((0x2800 + k) as u16, v).ppu_value((0x2C00 + k) as u16) == v
        }),
        ({
            let n = m.nametable_arranged(0x800, 0, 0, 0, 0);
            &&& n.ppu_stores((0x2000 + k) as u16) ==> n.ppu_written((0x2000 + k) as u16, v).ppu_value((0x2C00 + k) as u16) == v
        }),
{
    lemma_nametable_mirroring(m, k);
    let a0 = (0x2000 + k) as u16;
    let a1 = (0x2400 + k) as u16;
    let a2 = (0x2800 + k) as u16;
    let a3 = (0x2C00 + k) as u16;
    let nv = m.nametable_arranged(0x800, 0, 1, 0, 1);
    let nh = m.nametable_arranged(0x800, 0, 0, 1, 1);
    let n1 = m.nametable_arranged(0x800, 0, 0, 0, 0);
    if nv.ppu_stores(a0) { lemma_ppu_alias_write_read(nv, a0, a2, v); }
    if nv.ppu_stores(a1) { lemma_ppu_alias_write_read(nv, a1, a3, v); }
    if nh.ppu_stores(a0) { lemma_ppu_alias_write_read(nh, a0, a1, v); }
    if nh.ppu_stores(a2) { lemma_ppu_alias_write_read(nh, a2, a3, v); }
    if n1.ppu_stores(a0) { lemma_ppu_alias_write_read(n1, a0, a3, v); }
}

/// What the machine asks of a cartridge. A read never changes the cartridge.
pub trait Mapper: Sized {
    spec fn wf(&self) -> bool;

    /// A CPU read of `addr` ($6000-$FFFF) is served without a panic.
    spec fn cpu_readable(&self, addr: u16) -> bool;

    /// A CPU write of `addr` ($6000-$FFFF) is served without a panic.
    spec fn cpu_writable(&self, addr: u16) -> bool;

    /// A PPU read of `addr` ($0000-$2FFF) is served without a panic.
    spec fn ppu_readable(&self, addr: u16) -> bool;

    /// A PPU write of `addr` ($0000-$2FFF) is served without a panic.
    spec fn ppu_writable(&self, addr: u16) -> bool;

    /// The byte that a CPU read of `addr` gives.
    spec fn cpu_value(&self, addr: u16) -> u8;

    /// The byte that a PPU read of `addr` gives.
    spec fn ppu_value(&self, addr: u16) -> u8;

    /// A CPU write of `addr` is kept in memory, so that a read of `addr` gives it back.
    spec fn cpu_stores(&self, addr: u16) -> bool;

    /// A PPU write of `addr` is kept in memory, so that a read of `addr` gives it back.
    spec fn ppu_stores(&self, addr: u16) -> bool;

    fn can_peek(&self, addr: u16) -> (r: bool)
        requires
            self.wf(),
        ensures
            r == self.cpu_readable(addr),
    ;

    fn can_poke(&self, addr: u16) -> (r: bool)
        requires
            self.wf(),
        ensures
            r == self.cpu_writable(addr),
    ;

    fn can_vpeek(&self, addr: u16) -> (r: bool)
        requires
            self.wf(),
        ensures
            r == self.ppu_readable(addr),
    ;

    fn can_vpoke(&self, addr: u16) -> (r: bool)
        requires
            self.wf(),
        ensures
            r == self.ppu_writable(addr),
    ;

    /// The expansion area ($4020-$5FFF) reads as 0.
    fn peek_expansion_rom(&mut self, addr: u16) -> (r: u8)
        ensures
            r == 0,
            *final(self) == *old(self),
    {
        0
    }

    /// Writes to the expansion area are dropped.
    fn poke_expansion_rom(&mut self, addr: u16, val: u8)
        ensures
            *final(self) == *old(self),
    {
    }

    fn peek(&mut self, addr: u16) -> (r: u8)
        requires
            old(self).wf(),
            old(self).cpu_readable(addr),
        ensures
            r == old(self).cpu_value(addr),
            *final(self) == *old(self),
    ;

    fn poke(&mut self, addr: u16, val: u8)
        requires
            old(self).wf(),
            old(self).cpu_writable(addr),
        ensures
            final(self).wf(),
            old(self).cpu_stores(addr) ==> final(self).cpu_readable(addr) && final(self).cpu_value(addr) == val,
    ;

    fn vpeek(&mut self, addr: u16) -> (r: u8)
        requires
            old(self).wf(),
            old(self).ppu_readable(addr),
        ensures
            r == old(self).ppu_value(addr),
            *final(self) == *old(self),
    ;

    fn vpoke(&mut self, addr: u16, val: u8)
        requires
            old(self).wf(),
            old(self).ppu_writable(addr),
        ensures
            final(self).wf(),
            old(self).ppu_stores(addr) ==> final(self).ppu_readable(addr) && final(self).ppu_value(addr) == val,
    ;

    /// Clocked once per scanline by the machine; reports a pending interrupt.
    fn irq(&mut self) -> (r: bool)
        requires
            old(self).wf(),
        ensures
            final(self).wf(),
    {
        false
    }

    fn irq_acknowledge(&mut self) -> (r: bool)
        ensures
            *final(self) == *old(self),
            !r,
    {
        false
    }
}

} // verus!
