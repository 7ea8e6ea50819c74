//! The machine: the CPU bus, the PPU bus, the clocking of the chips once per CPU cycle,
//! the controllers and the loading of cartridges.
use vstd::prelude::*;
use crate::apu;
use crate::cartridge::mapper::Mapper;
use crate::cartridge::{image_supported, parse_stream, Cartridge};
use crate::cpu;
use crate::dma;
use crate::error::LoadError;
use crate::ppu;
use crate::ppu::dot_index;

verus! {

/// A bus access: a read, or a write of a byte.
#[derive(Clone, Copy, PartialEq, Eq, Structural, Debug)]
pub enum AccessMode {
    Read,
    Write(u8),
}

/// The cartridge address that a PPU address below $3F00 reaches: $3000-$3EFF mirrors
/// $2000-$2EFF.
pub open spec fn vram_address(addr: u16) -> u16 {
    if addr > 0x2FFF { (addr - 0x1000) as u16 } else { addr }
}

/// What a PPU read of `addr` gives, or `None` where the cartridge cannot serve it.
pub open spec fn vram_read<M: Mapper>(m: M, addr: u16) -> Option<u8> {
    let a = vram_address(addr);
    if m.ppu_readable(a) { Some(m.ppu_value(a)) } else { None }
}

/// Whether the cartridge can take a PPU write of `addr`.
pub open spec fn vram_writable<M: Mapper>(m: M, addr: u16) -> bool {
    m.ppu_writable(vram_address(addr))
}

/// Whether the cartridge keeps a PPU write of `addr`, so that a read gives it back.
pub open spec fn vram_stores<M: Mapper>(m: M, addr: u16) -> bool {
    m.ppu_stores(vram_address(addr))
}

/// The cartridge has an address below $3F00 that a PPU read or write cannot reach.
pub open spec fn vram_broken<M: Mapper>(m: M) -> bool {
    exists|a: u16| a < 0x3F00 && !(#[trigger] vram_reachable(m, a))
}

/// A PPU read and a PPU write of `addr` both reach the cartridge.
pub open spec fn vram_reachable<M: Mapper>(m: M, addr: u16) -> bool {
    vram_read(m, addr).is_some() && vram_writable(m, addr)
}

/// An access of the PPU bus below $3F00, served by the cartridge. `None` stands for an
/// access that the cartridge cannot serve; the cartridge is then left as it was.
pub fn vaccess<M: Mapper>(mapper: &mut M, addr: u16, mode: AccessMode) -> (r: Option<u8>)
    requires
        old(mapper).wf(),
        addr < 0x3F00,
    ensures
        final(mapper).wf(),
        mode == AccessMode::Read ==> r == vram_read(*old(mapper), addr) && *final(mapper) == *old(mapper),
        mode matches AccessMode::Write(v) ==> {
            &&& vram_writable(*old(mapper), addr) ==> r == Some(v)
            &&& vram_writable(*old(mapper), addr) && vram_stores(*old(mapper), addr) ==> vram_read(*final(mapper), addr) == Some(v)
            &&& !vram_writable(*old(mapper), addr) ==> r.is_none() && *final(mapper) == *old(mapper)
        },
{
    let addr: u16 = if addr > 0x2FFF { addr - 0x1000 } else { addr };
    match mode {
        AccessMode::Read => {
            if mapper.can_vpeek(addr) {
                Some(mapper.vpeek(addr))
            } else {
                None
            }
        },
        AccessMode::Write(value) => {
            if mapper.can_vpoke(addr) {
                mapper.vpoke(addr, value);
                Some(value)
            } else {
                None
            }
        },
    }
}

/// A pending sprite DMA as the machine reports it.
#[derive(Clone, Copy, PartialEq, Eq, Structural, Debug)]
pub enum DmaState {
    NoDma,
    OmaDma(u8),
}

pub const BUTTON_RIGHT: u8 = 0b0000_0001;
pub const BUTTON_LEFT: u8 = 0b0000_0010;
pub const BUTTON_DOWN: u8 = 0b0000_0100;
pub const BUTTON_UP: u8 = 0b0000_1000;
pub const BUTTON_START: u8 = 0b0001_0000;
pub const BUTTON_SELECT: u8 = 0b0010_0000;
pub const BUTTON_B: u8 = 0b0100_0000;
pub const BUTTON_A: u8 = 0b1000_0000;

/// The buttons of a standard controller, one bit each: right, left, down, up, start,
/// select, B and A from bit 0 up. The controller reports them from A down to right.
#[derive(Clone, Copy, PartialEq, Eq, Structural, Debug)]
pub struct StandardInput {
    pub bits: u8,
}

impl StandardInput {
    pub fn empty() -> (s: Self)
        ensures
            s.bits == 0,
    {
        StandardInput { bits: 0 }
    }

    /// Presses (`value`) or releases the buttons of `other`.
    pub fn set(&mut self, other: StandardInput, value: bool)
        ensures
            final(self).bits == if value { old(self).bits | other.bits } else { old(self).bits & !other.bits },
    {
        if value {
            self.bits = self.bits | other.bits;
        } else {
            self.bits = self.bits & !other.bits;
        }
    }
}

/// Why the machine stopped.
#[derive(Clone, Copy, PartialEq, Eq, Structural, Debug)]
pub enum Fault {
    /// The CPU met an instruction it cannot carry out.
    Cpu(cpu::CpuFault),
    /// A CPU read of cartridge space that the cartridge does not serve.
    CartridgeRead(u16),
    /// A CPU write of cartridge space that the cartridge does not serve.
    CartridgeWrite(u16),
    /// A sample fetch or a channel enable that would overrun the sample address.
    SampleOverrun,
    /// The frame sequencer counter reached its limit.
    FrameCounter,
    /// The PPU addressed cartridge memory that the cartridge does not have.
    Vram,
    /// A DMA transfer that did not end within its cycle budget.
    DmaStall,
}

/// The chips and memory of the console.
pub struct NesState {
    pub dma: dma::State,
    pub apu: apu::State,
    pub ppu: ppu::State,
    pub mos6502: cpu::State,
    pub ram: Vec<u8>,
    pub cpu_cycle: usize,
    pub frame_generated: bool,
    pub input_1_offset: usize,
    pub input_2_offset: usize,
    pub input_1_mask: StandardInput,
    pub input_2_mask: StandardInput,
    pub input_strobe: bool,
    /// The channel levels of every CPU cycle since the buffer was last cleared.
    pub levels: Vec<apu::ChannelLevels>,
    /// The first fault met, if any.
    pub fault: Option<Fault>,
}

impl NesState {
    /// Tests the invariant.
    pub fn is_wf(&self) -> (r: bool)
        ensures
            r == self.wf(),
    {
        let dma_ok = match self.dma.ppu_dma_request {
            Some(a) => a % 256 == 0,
            None => true,
        };
        self.ppu.is_wf() && self.apu.is_wf() && self.ram.len() == 0x800 && self.input_1_offset < 8
            && self.input_2_offset < 8 && dma_ok
    }

    pub open spec fn wf(self) -> bool {
        &&& self.ppu.wf()
        &&& self.apu.wf()
        &&& self.ram@.len() == 0x800
        &&& self.input_1_offset < 8
        &&& self.input_2_offset < 8
        &&& (self.dma.ppu_dma_request matches Some(a) ==> a % 256 == 0)
    }

    /// The console at power-up with the palette `palette`: PPU, APU, DMA unit and CPU
    /// in their starting states, RAM cleared, no cycles run, no buttons, no fault.
    pub open spec fn powered_up(self, palette: Seq<u8>) -> bool {
        &&& self.wf()
        &&& self.cpu_cycle == 0
        &&& !self.frame_generated
        &&& self.fault.is_none()
        &&& self.ram@ == Seq::new(0x800, |i: int| 0u8)
        &&& self.levels@.len() == 0
        &&& self.input_1_mask.bits == 0 && self.input_2_mask.bits == 0
        &&& self.input_1_offset == 0 && self.input_2_offset == 0 && !self.input_strobe
        &&& self.mos6502.regs == cpu::Registers::new_spec() && !self.mos6502.nmi && !self.mos6502.irq
        &&& self.dma == (dma::State { ppu_dma_request: None, dmc_dma_request: None, dmc_dma_halt_cycle: 2 })
        &&& self.ppu.palette.colors() == ppu::palette_from_bytes(palette)
        &&& self.ppu.n_scanline == 261 && self.ppu.n_dot == 0
        &&& self.ppu.pctrl.0 == 0 && self.ppu.pmask.0 == 0 && self.ppu.pstatus.0 == 0
        &&& self.ppu.oamaddr == 0 && self.ppu.oamdata@ == Seq::new(256, |i: int| 0u8)
        &&& self.ppu.palette_ram@ == Seq::new(32, |i: int| 0u8)
        &&& self.ppu.current_addr.0 == 0 && self.ppu.temporary_addr.0 == 0 && !self.ppu.write_toggle
        &&& self.ppu.fine_x == 0 && !self.ppu.is_odd_frame && !self.ppu.vram_fault
        &&& self.ppu.frame_buffer@ == Seq::new(ppu::SCREEN_SIZE as nat, |i: int| ppu::RgbColor { r: 0, g: 0, b: 0 })
        &&& self.apu.frame.0 == 0 && self.apu.frame_counter_timer == 0 && !self.apu.timer_reset_flag
        &&& self.apu.timer_reset_countdown == 0 && !self.apu.frame_interrupt_flag
        &&& self.apu.dmc.output == 0 && self.apu.noise.feedback_register == 1
    }

    pub fn new(palette: &[u8]) -> (s: Self)
        requires
            palette@.len() == 192,
        ensures
            s.powered_up(palette@),
            s.wf(),
            s.cpu_cycle == 0,
            !s.frame_generated,
            s.fault.is_none(),
            !s.ppu.vram_fault,
            s.ram@ == Seq::new(0x800, |i: int| 0u8),
            s.levels@.len() == 0,
            s.input_1_mask.bits == 0,
            s.input_2_mask.bits == 0,
            s.mos6502.regs == cpu::Registers::new_spec(),
    {
        let mut ram: Vec<u8> = Vec::new();
        let mut i: usize = 0;
        while i < 0x800
            invariant
                i <= 0x800,
                ram@.len() == i,
                forall|j: int| 0 <= j < i ==> ram@[j] == 0u8,
            decreases 0x800 - i,
        {
            ram.push(0);
            i = i + 1;
        }
        assert(ram@ == Seq::new(0x800, |i: int| 0u8));
        NesState {
            dma: dma::State::new(),
            apu: apu::State::new(),
            ppu: ppu::State::new(palette),
            mos6502: cpu::State::new(),
            ram,
            cpu_cycle: 0,
            frame_generated: false,
            input_1_offset: 0,
            input_2_offset: 0,
            input_1_mask: StandardInput::empty(),
            input_2_mask: StandardInput::empty(),
            input_strobe: false,
            levels: Vec::new(),
            fault: None,
        }
    }
}

/// The console with its cartridge slot.
pub struct Emulator {
    pub mapper: Option<Cartridge>,
    pub nes: NesState,
    /// The 64 colours (192 bytes) that palette indices select.
    pub palette: Vec<u8>,
    /// The bus accesses the CPU has made since the machine was put together.
    pub cpu_bus_log: Ghost<Seq<cpu::BusEvent>>,
    /// A bound that ties the CPU's bus accesses to the dots left before the frame ends.
    pub frame_mark: Ghost<int>,
    /// The frames the PPU has completed (each time it passed dot (241, 1)).
    pub frames_completed: Ghost<int>,
    /// The count of completed frames when the current frame began to be awaited.
    pub frame_base: Ghost<int>,
    /// The sample fetches made for the delta modulation channel: address and byte.
    pub dmc_fetches: Ghost<Seq<(u16, u8)>>,
    /// The machine as it stood when the first fault was recorded: cartridge, APU, DMA
    /// unit and the CPU's bus accesses.
    pub fault_snapshot: Ghost<Option<FaultSnapshot>>,
    /// Whether the recorded fault is known to have its cause in the snapshot.
    pub faults_checked: Ghost<bool>,
    /// The cartridge as it stood when the PPU first met video memory it could not reach.
    pub vram_snapshot: Ghost<Option<Cartridge>>,
}

/// The parts of the machine that show why a fault was recorded.
pub struct FaultSnapshot {
    pub mapper: Option<Cartridge>,
    pub apu: apu::State,
    pub dma: dma::State,
    pub log: Seq<cpu::BusEvent>,
}

/// The parts of the machine that show why a fault is recorded now.
pub open spec fn snapshot_of(e: Emulator) -> FaultSnapshot {
    FaultSnapshot { mapper: e.mapper, apu: e.nes.apu, dma: e.nes.dma, log: e.cpu_bus_log@ }
}

/// The cause of each fault, in the machine as it stood when it was recorded: an
/// instruction that halts or that the core leaves out (its opcode fetch is in the bus
/// record), a cartridge access the cartridge cannot serve, a sample fetch or channel
/// enable that overruns the sample address, the frame counter at its limit, a DMA
/// still pending after its cycle budget.
pub open spec fn fault_cause(sn: FaultSnapshot, f: Fault) -> bool {
    match f {
        Fault::Cpu(e) => exists|k: int| 0 <= k < sn.log.len() && ({
            let op = cpu::byte_of(#[trigger] sn.log[k]);
            let (i, m) = cpu::decoded(op);
            &&& sn.log[k] is Read
            &&& !cpu::executable(i, m)
            &&& cpu::fault_of(i) == e
            &&& e != cpu::CpuFault::InvalidMode
        }),
        Fault::CartridgeRead(a) => a >= 0x6000 && !sn.mapper.unwrap().cpu_readable(a),
        Fault::CartridgeWrite(a) => a >= 0x6000 && !sn.mapper.unwrap().cpu_writable(a),
        Fault::SampleOverrun => sn.apu.dmc.transfer_overflows() || sn.apu.dmc.enable_overflows(true),
        Fault::FrameCounter => sn.apu.frame_counter_timer == usize::MAX,
        Fault::DmaStall => sn.dma.pending(),
        Fault::Vram => false,
    }
}

/// A PPU fault has its cause: the cartridge, when it was met, had an address below $3F00
/// that a PPU read or write could not reach.
pub open spec fn vram_ok(e: Emulator) -> bool {
    e.nes.ppu.vram_fault ==> (e.vram_snapshot@ matches Some(c) && vram_broken(c))
}

/// The recorded fault, if any, has its cause in the snapshot taken when it was recorded.
pub open spec fn fault_ok(e: Emulator) -> bool {
    e.nes.fault matches Some(f) ==> (e.fault_snapshot@ matches Some(sn) && fault_cause(sn, f))
}

/// The bit that a controller read reports after `offset` earlier reads: the buttons go
/// out from A (bit 7) down to right (bit 0).
pub open spec fn controller_bit(mask: u8, offset: usize) -> u8 {
    if (mask << offset as u8) & 0x80 == 0 { 0 } else { 1 }
}

impl Emulator {
    /// The machine can run: a cartridge is in, and the chips keep their invariants.
    pub open spec fn ready(self) -> bool {
        &&& self.mapper.is_some()
        &&& self.mapper.unwrap().wf()
        &&& self.nes.wf()
        &&& self.palette@.len() == 192
    }

    /// Tests whether the machine is ready to run: a well-formed cartridge is loaded, the
    /// console state is well-formed, and the palette has 192 bytes.
    pub fn is_ready(&self) -> (r: bool)
        ensures
            r == self.ready(),
    {
        let cart_ok = match &self.mapper {
            Some(c) => c.is_wf(),
            None => false,
        };
        cart_ok && self.nes.is_wf() && self.palette.len() == 192
    }

    /// Whether the machine has met a fault.
    pub open spec fn faulted(self) -> bool {
        self.nes.fault.is_some() || self.nes.ppu.vram_fault
    }

    pub fn new(palette: &[u8]) -> (e: Self)
        requires
            palette@.len() == 192,
        ensures
            e.mapper.is_none(),
            e.nes.wf(),
            e.palette@ == palette@,
            !e.faulted(),
    {
        let mut bytes: Vec<u8> = Vec::new();
        let mut i: usize = 0;
        while i < palette.len()
            invariant
                i <= palette@.len(),
                bytes@ == palette@.subrange(0, i as int),
            decreases palette@.len() - i,
        {
            bytes.push(palette[i]);
            i = i + 1;
        }
        assert(bytes@ == palette@);
        Emulator { mapper: None, nes: NesState::new(palette), palette: bytes, cpu_bus_log: Ghost(Seq::empty()), frame_mark: Ghost(0),
            frames_completed: Ghost(0), frame_base: Ghost(0), dmc_fetches: Ghost(Seq::empty()), fault_snapshot: Ghost(None),
            faults_checked: Ghost(true), vram_snapshot: Ghost(None) }
    }

    /// Loads an iNES image: on success the cartridge is in and the console is in its
    /// power-up state; on failure nothing changes.
    pub fn load_rom_from_bytes(&mut self, data: &[u8]) -> (r: Result<(), LoadError>)
        requires
            image_supported(data@),
            old(self).palette@.len() == 192,
        ensures
            r.is_ok() ==> final(self).ready() && !final(self).faulted() && final(self).nes.cpu_cycle == 0
                && final(self).nes.powered_up(final(self).palette@),
            r.is_err() ==> final(self).mapper == old(self).mapper && final(self).nes == old(self).nes,
            final(self).palette == old(self).palette,
            (r is Ok) == (parse_stream_ok(data@)),
            r.is_ok() ==> {
                let id = crate::rom::header_mapper_id(data@);
                &&& (id == 0 ==> final(self).mapper matches Some(Cartridge::Nrom(_)))
                &&& (id == 1 ==> final(self).mapper matches Some(Cartridge::Mmc1(_)))
                &&& (id == 2 ==> final(self).mapper matches Some(Cartridge::UxRom(_)))
                &&& (id == 4 ==> final(self).mapper matches Some(Cartridge::Mmc3(_)))
                &&& crate::cartridge::cartridge_holds(final(self).mapper.unwrap(), data@)
            },
            r matches Err(LoadError::UnsupportedMapper(id)) ==> id == crate::rom::header_mapper_id(data@),
            data@.len() >= 16 && !crate::rom::has_nes_magic(data@) ==> r matches Err(LoadError::NotNesRom),
    {
        match parse_stream(data) {
            Ok(mapper) => {
                self.nes = NesState::new(self.palette.as_slice());
                self.mapper = Some(mapper);
                Ok(())
            },
            Err(e) => Err(e),
        }
    }

    /// The number of CPU cycles since power-up (wrapping).
    pub fn get_cycle(&self) -> (r: usize)
        ensures
            r == self.nes.cpu_cycle,
    {
        self.nes.cpu_cycle
    }

    pub fn get_framebuffer(&self) -> (r: &Vec<ppu::RgbColor>)
        ensures
            r@ == self.nes.ppu.frame_buffer@,
    {
        self.nes.ppu.get_framebuffer()
    }

    /// The colours of the 32 palette memory entries.
    pub fn dbg_list_palette_ram(&self) -> (r: [ppu::RgbColor; 32])
        requires
            self.nes.wf(),
        ensures
            forall|i: int| 0 <= i < 32 ==> r@[i] == self.nes.ppu.palette.colors()[self.nes.ppu.palette_ram[i] as int],
    {
        let mut result = [ppu::RgbColor::default(); 32];
        let mut i: usize = 0;
        while i < 32
            invariant
                i <= 32,
                self.nes.wf(),
                forall|j: int| 0 <= j < i ==> result@[j] == self.nes.ppu.palette.colors()[self.nes.ppu.palette_ram[j] as int],
            decreases 32 - i,
        {
            let rgb = self.nes.ppu.palette.get_rgb(self.nes.ppu.palette_ram[i] as usize);
            result[i] = rgb;
            i = i + 1;
        }
        result
    }

    /// Presses or releases buttons of controller 1.
    pub fn set_input_1(&mut self, input_1: StandardInput, value: bool)
        ensures
            final(self).nes.input_1_mask.bits == if value { old(self).nes.input_1_mask.bits | input_1.bits }
                else { old(self).nes.input_1_mask.bits & !input_1.bits },
            final(self).nes == (NesState { input_1_mask: final(self).nes.input_1_mask, ..old(self).nes }),
            final(self).mapper == old(self).mapper,
            final(self).palette == old(self).palette,
    {
        self.nes.input_1_mask.set(input_1, value);
    }

    /// The channel levels recorded since the last clear, one per CPU cycle.
    pub fn get_levels(&self) -> (r: &Vec<apu::ChannelLevels>)
        ensures
            r@ == self.nes.levels@,
    {
        &self.nes.levels
    }

    pub fn clear_sample(&mut self)
        ensures
            final(self).nes.levels@.len() == 0,
            final(self).nes == (NesState { levels: final(self).nes.levels, ..old(self).nes }),
            final(self).mapper == old(self).mapper,
            final(self).palette == old(self).palette,
    {
        self.nes.levels = Vec::new();
    }

    fn clear_input_mask(&mut self)
        ensures
            final(self).nes == (NesState {
                input_1_mask: StandardInput { bits: 0 },
                input_2_mask: StandardInput { bits: 0 },
                ..old(self).nes
            }),
            final(self).mapper == old(self).mapper,
            final(self).palette == old(self).palette,
            *final(self) == (Emulator { nes: final(self).nes, ..*old(self) }),
    {
        self.nes.input_1_mask = StandardInput::empty();
        self.nes.input_2_mask = StandardInput::empty();
    }

    /// Records the first fault, with a snapshot of the machine that shows its cause.
    fn record_fault(&mut self, f: Fault)
        requires
            fault_cause(snapshot_of(*old(self)), f),
        ensures
            fault_ok(*old(self)) ==> fault_ok(*final(self)),
            final(self).faults_checked == old(self).faults_checked,
            final(self).vram_snapshot == old(self).vram_snapshot,
            final(self).nes.fault.is_some(),
            old(self).nes.fault.is_some() ==> final(self).nes.fault == old(self).nes.fault,
            old(self).nes.fault.is_none() ==> final(self).nes.fault == Some(f),
            final(self).nes == (NesState { fault: final(self).nes.fault, ..old(self).nes }),
            final(self).mapper == old(self).mapper,
            final(self).palette == old(self).palette,
            final(self).cpu_bus_log == old(self).cpu_bus_log,
            final(self).frame_mark == old(self).frame_mark,
            final(self).frame_base == old(self).frame_base,
            final(self).frames_completed == old(self).frames_completed,
            final(self).dmc_fetches == old(self).dmc_fetches,
    {
        if self.nes.fault.is_none() {
            self.fault_snapshot = Ghost(Some(snapshot_of(*self)));
            self.nes.fault = Some(f);
        }
    }
}

/// The APU after a write of `v` to its register at `addr` ($4000-$4013, $4015, $4017)
/// on an odd or even cycle.
pub open spec fn apu_register_written(a: apu::State, addr: u16, v: u8, odd: bool) -> apu::State {
    if addr <= 0x4003 {
        apu::State { pulse1: a.pulse1.register_written(addr, v), ..a }
    } else if addr <= 0x4007 {
        apu::State { pulse2: a.pulse2.register_written(addr, v), ..a }
    } else if addr <= 0x400B {
        apu::State { triangle: a.triangle.register_written(addr, v), ..a }
    } else if addr <= 0x400F {
        apu::State { noise: a.noise.register_written(addr, v), ..a }
    } else if addr <= 0x4013 {
        apu::State { dmc: a.dmc.register_written(addr, v), ..a }
    } else if addr == 0x4015 {
        a.status_written(v)
    } else {
        a.frame_written(v, odd)
    }
}

/// The PPU after a CPU write of `v` to register `reg` (0-6; register 2 ignores writes),
/// where a write to OAMDATA leaves object memory as `oamdata`.
pub open spec fn ppu_register_written(p: ppu::State, reg: u16, v: u8, oamdata: Vec<u8>) -> ppu::State {
    if reg == 0 {
        p.ppuctrl_written(v)
    } else if reg == 1 {
        ppu::State { pmask: ppu::PMask(v), ..p }
    } else if reg == 3 {
        ppu::State { oamaddr: v as usize, ..p }
    } else if reg == 4 {
        p.oamdata_written(oamdata)
    } else if reg == 5 {
        p.ppuscroll_written(v)
    } else if reg == 6 {
        p.ppuaddr_written(v)
    } else {
        p
    }
}

/// Whether an image parses into a supported cartridge.
pub open spec fn parse_stream_ok(d: Seq<u8>) -> bool {
    &&& d.len() >= 16
    &&& crate::rom::has_nes_magic(d)
    &&& d.len() >= crate::rom::image_len(d)
    &&& {
        let id = crate::rom::header_mapper_id(d);
        id == 0 || id == 1 || id == 2 || id == 4
    }
}

/// What every bus cycle keeps: the machine stays ready, the CPU registers and the
/// palette stay, and a fault once met stays.
/// The delta modulation channel neither fetches nor has bytes left to fetch.
pub open spec fn dmc_idle(e: Emulator) -> bool {
    e.nes.apu.dmc.sample_remaining_bytes == 0 && e.nes.dma.dmc_dma_request.is_none()
}

/// The CPU cycle counter after one more cycle (wrapping).
pub open spec fn next_cycle(c: usize) -> usize {
    if c == usize::MAX { 0 } else { (c + 1) as usize }
}

/// Enough of the cycle budget is left to finish a sprite DMA without sample fetches:
/// each byte takes a read on an odd cycle and a write on an even one.
pub open spec fn dma_budget_ok(pending: bool, k: int, cached: bool, odd: bool, budget: int) -> bool {
    let phi = 2 * (256 - k) - (if cached { 1int } else { 0int })
        + (if (cached && odd) || (!cached && !odd) { 1int } else { 0int });
    &&& pending ==> budget >= phi + 1
    &&& !pending ==> budget >= 1
}

/// No DMA stall is recorded between the two.
pub open spec fn no_stall(before: Emulator, after: Emulator) -> bool {
    after.nes.fault == Some(Fault::DmaStall) ==> before.nes.fault == Some(Fault::DmaStall)
}

/// The dots left before the PPU completes the frame.
pub open spec fn frame_dist(e: Emulator) -> int {
    ppu::frame_distance(e.nes.ppu.n_scanline as int, e.nes.ppu.n_dot as int)
}

/// The machine does not move away from the end of the frame: a completed frame stays
/// noted, and otherwise the PPU is no farther from it.
pub open spec fn no_regress(before: Emulator, after: Emulator) -> bool {
    &&& before.nes.frame_generated ==> after.nes.frame_generated
    &&& !after.nes.frame_generated ==> frame_dist(after) <= frame_dist(before)
}

/// Completed frames are counted: the count never falls, and it rises when a frame is
/// noted that was not before.
pub open spec fn frames_noted(before: Emulator, after: Emulator) -> bool {
    &&& after.frames_completed@ >= before.frames_completed@
    &&& (after.nes.frame_generated && !before.nes.frame_generated ==> after.frames_completed@ > before.frames_completed@)
}

/// A noted frame was completed since the frame began to be awaited.
pub open spec fn frame_counted(e: Emulator) -> bool {
    &&& e.frames_completed@ >= e.frame_base@
    &&& (e.nes.frame_generated ==> e.frames_completed@ > e.frame_base@)
}

/// Until a frame is completed, each CPU bus access has cost three dots of the distance
/// to its end.
pub open spec fn progress_ok(e: Emulator) -> bool {
    !e.nes.frame_generated ==> frame_dist(e) + 3 * e.cpu_bus_log@.len() <= e.frame_mark@
}

pub open spec fn cycle_ok(before: Emulator, after: Emulator) -> bool {
    &&& after.ready()
    &&& after.cpu_bus_log == before.cpu_bus_log
    &&& after.frame_mark == before.frame_mark
    &&& after.frame_base == before.frame_base
    &&& after.faults_checked == before.faults_checked
    &&& frames_noted(before, after)
    &&& (fault_ok(before) ==> fault_ok(after))
    &&& (vram_ok(before) ==> vram_ok(after))
    &&& after.nes.mos6502.regs == before.nes.mos6502.regs
    &&& after.palette == before.palette
    &&& (before.faulted() ==> after.faulted())
}

impl Emulator {
    /// One PPU dot: its interrupt raises the NMI line, and a completed frame is noted.
    #[verifier::spinoff_prover]
    fn ppu_dot(&mut self)
        requires
            old(self).ready(),
        ensures
            cycle_ok(*old(self), *final(self)),
            final(self).nes.cpu_cycle == old(self).nes.cpu_cycle,
            final(self).nes.apu == old(self).nes.apu,
            final(self).nes.dma == old(self).nes.dma,
            old(self).nes.frame_generated ==> final(self).nes.frame_generated,
            (final(self).nes.ppu.n_scanline as int, final(self).nes.ppu.n_dot as int) == old(self).nes.ppu.next_position(),
            (old(self).nes.ppu.n_scanline == 241 && old(self).nes.ppu.n_dot == 1) ==> final(self).nes.frame_generated,
            keeps_memory(*old(self), *final(self)),
            !final(self).nes.frame_generated ==> frame_dist(*final(self)) + 1 <= frame_dist(*old(self)),
            no_stall(*old(self), *final(self)),
    {
        proof { ppu::lemma_frame_distance_step(self.nes.ppu); }
        match &mut self.mapper {
            Some(cart) => {
                let ghost was = self.nes.ppu.vram_fault;
                let ghost c0 = *cart;
                let ev = self.nes.ppu.tick(cart);
                self.vram_snapshot = Ghost(if !was && self.nes.ppu.vram_fault { Some(c0) } else { self.vram_snapshot@ });
                if ev.nmi {
                    self.nes.mos6502.nmi = true;
                }
                if ev.frame {
                    self.nes.frame_generated = true;
                    self.frames_completed = Ghost(self.frames_completed@ + 1);
                }
            },
            None => {},
        }
    }

    /// One APU cycle: the APU drives the IRQ line, may ask for a sample fetch, and its
    /// channel levels are recorded.
    #[verifier::spinoff_prover]
    fn apu_cycle(&mut self)
        requires
            old(self).ready(),
        ensures
            cycle_ok(*old(self), *final(self)),
            final(self).nes.cpu_cycle == old(self).nes.cpu_cycle,
            old(self).nes.frame_generated ==> final(self).nes.frame_generated,
            final(self).nes.ppu == old(self).nes.ppu,
            keeps_memory(*old(self), *final(self)),
            old(self).nes.apu.frame_counter_timer == usize::MAX ==> final(self).nes.fault.is_some()
                && final(self).nes == (NesState { fault: final(self).nes.fault, ..old(self).nes }),
            old(self).nes.apu.frame_counter_timer < usize::MAX ==> ({
                let odd = old(self).nes.cpu_cycle % 2 == 1;
                let a0 = old(self).nes.apu;
                let a1 = a0.channels_ticked(odd).sequencer_stepped();
                &&& final(self).nes.apu == a1
                &&& final(self).nes.mos6502 == (cpu::State { irq: a1.irq_line(), ..old(self).nes.mos6502 })
                &&& final(self).nes.levels@ == old(self).nes.levels@.push(a0.channels_ticked(odd).current_levels())
                &&& final(self).nes.dma == match a0.dma_request_after(odd) {
                    Some(addr) => dma::State { dmc_dma_request: Some(addr), ..old(self).nes.dma },
                    None => old(self).nes.dma,
                }
                &&& final(self).nes.fault == old(self).nes.fault
            }),
            dmc_idle(*old(self)) ==> dmc_idle(*final(self)),
            no_stall(*old(self), *final(self)),
    {
        if self.nes.apu.frame_counter_timer == usize::MAX {
            self.record_fault(Fault::FrameCounter);
        } else {
            let odd = self.nes.cpu_cycle % 2 == 1;
            proof {
                if self.nes.apu.dmc.sample_remaining_bytes == 0 {
                    apu::lemma_dmc_idle_stays(self.nes.apu, odd);
                }
            }
            let t = self.nes.apu.on_cpu_tick(odd);
            match t.dma_request {
                Some(addr) => self.nes.dma.activate_dmc_dma(addr),
                None => {},
            }
            self.nes.mos6502.irq = t.irq;
            self.nes.levels.push(t.levels);
        }
    }

    /// One CPU cycle of the other chips: three PPU dots, one APU cycle, one DMA cycle.
    /// A vertical blank interrupt of the PPU raises the NMI line, a completed frame is
    /// noted, and the APU drives the IRQ line and may ask for a sample fetch.
    #[verifier::spinoff_prover]
    #[verifier::rlimit(40)]
    fn on_cpu_cycle(&mut self)
        requires
            old(self).ready(),
        ensures
            cycle_ok(*old(self), *final(self)),
            final(self).nes.cpu_cycle == if old(self).nes.cpu_cycle == usize::MAX { 0 } else { (old(self).nes.cpu_cycle + 1) as usize },
            old(self).nes.frame_generated ==> final(self).nes.frame_generated,
            ({
                let p0 = old(self).nes.ppu;
                let i0 = dot_index(p0.n_scanline as int, p0.n_dot as int);
                let i3 = dot_index(final(self).nes.ppu.n_scanline as int, final(self).nes.ppu.n_dot as int);
                i3 == (i0 + 3) % 89342 || i3 == (i0 + 4) % 89342
            }),
            keeps_memory(*old(self), *final(self)),
            !final(self).nes.frame_generated ==> frame_dist(*final(self)) + 3 <= frame_dist(*old(self)),
            dmc_idle(*old(self)) ==> dmc_idle(*final(self)),
            no_stall(*old(self), *final(self)),
            old(self).nes.dma.dmc_dma_request.is_some() ==> final(self).nes.dma.dmc_dma_request.is_some(),
    {
        proof {
            ppu::lemma_dots_advance(self.nes.ppu);
        }
        self.nes.cpu_cycle = self.nes.cpu_cycle.wrapping_add(1);
        let ghost p0 = self.nes.ppu;
        self.ppu_dot();
        let ghost p1 = self.nes.ppu;
        proof { ppu::lemma_dots_advance(p1); }
        self.ppu_dot();
        let ghost p2 = self.nes.ppu;
        proof { ppu::lemma_dots_advance(p2); }
        self.ppu_dot();
        self.apu_cycle();
        self.nes.dma.on_cpu_tick();
    }
}

/// What reads and the passing of cycles leave alone: internal RAM, object memory and
/// its address, a pending sprite DMA, and the cartridge.
pub open spec fn keeps_memory(before: Emulator, after: Emulator) -> bool {
    &&& after.nes.ram == before.nes.ram
    &&& after.nes.ppu.oamdata == before.nes.ppu.oamdata
    &&& after.nes.ppu.oamaddr == before.nes.ppu.oamaddr
    &&& after.nes.dma.ppu_dma_request == before.nes.dma.ppu_dma_request
    &&& after.mapper == before.mapper
    &&& after.dmc_fetches == before.dmc_fetches
}

/// The first `n` bytes of the page at `base` stand in object memory from `oamaddr` on
/// (wrapping).
pub open spec fn oam_copied(e: Emulator, oamaddr: int, base: int, n: int) -> bool {
    forall|i: int| 0 <= i < n ==> e.nes.ppu.oamdata@[(oamaddr + i) % 256] == #[trigger] page_byte(e, base + i)
}

/// The byte a read of `a` gives from internal RAM ($0000-$1FFF) or from the cartridge.
pub open spec fn page_byte(e: Emulator, a: int) -> u8 {
    if a < 0x2000 { e.nes.ram@[a % 0x800] } else { e.mapper.unwrap().cpu_value(a as u16) }
}

/// The sample fetches recorded after the first `n` are each the byte that a read of
/// their address gives, where that address is internal RAM or readable cartridge space.
pub open spec fn fetches_read(e: Emulator, before: Emulator, n: int) -> bool {
    forall|j: int| n <= j < e.dmc_fetches@.len() ==> ({
        let (a, v) = #[trigger] e.dmc_fetches@[j];
        (a < 0x2000 || (a >= 0x6000 && before.mapper.unwrap().cpu_readable(a))) ==> v == page_byte(before, a as int)
    })
}

/// A page that a sprite DMA reads without side effects: one of internal RAM, or one of
/// the cartridge whose 256 bytes can all be read.
pub open spec fn dma_source_ok(e: Emulator, base: int) -> bool {
    ||| 0 <= base < 0x2000
    ||| (0x6000 <= base && base + 256 <= 0x10000
        && forall|i: int| 0 <= i < 256 ==> #[trigger] e.mapper.unwrap().cpu_readable((base + i) as u16))
}

proof fn lemma_oam_copied_extend(e0: Emulator, e1: Emulator, oamaddr: int, base: int, k: int, v: u8)
    requires
        oam_copied(e0, oamaddr, base, k),
        0 <= k < 256,
        0 <= oamaddr,
        e0.nes.ppu.oamdata@.len() == 256,
        e1.nes.ppu.oamdata@ == e0.nes.ppu.oamdata@.update((k + oamaddr) % 256, v),
        e1.nes.ram == e0.nes.ram,
        e1.mapper == e0.mapper,
        v == page_byte(e0, base + k),
    ensures
        oam_copied(e1, oamaddr, base, k + 1),
{
    assert forall|i: int| 0 <= i < k + 1 implies e1.nes.ppu.oamdata@[(oamaddr + i) % 256]
        == #[trigger] page_byte(e1, base + i) by {
        assert(page_byte(e0, base + i) == page_byte(e1, base + i));
        if i < k {
            assert((oamaddr + i) % 256 != (k + oamaddr) % 256);
        }
    }
}

proof fn lemma_oam_copied_kept(e0: Emulator, e1: Emulator, oamaddr: int, base: int, k: int)
    requires
        e1.nes.ppu.oamdata == e0.nes.ppu.oamdata,
        e1.nes.ram == e0.nes.ram,
        e1.mapper == e0.mapper,
    ensures
        oam_copied(e0, oamaddr, base, k) ==> oam_copied(e1, oamaddr, base, k),
{
    if oam_copied(e0, oamaddr, base, k) {
        assert forall|i: int| 0 <= i < k implies e1.nes.ppu.oamdata@[(oamaddr + i) % 256]
            == #[trigger] page_byte(e1, base + i) by {
            assert(page_byte(e0, base + i) == page_byte(e1, base + i));
        }
    }
}

/// The part of the machine that a register access leaves alone.
pub open spec fn access_ok(before: Emulator, after: Emulator) -> bool {
    &&& cycle_ok(before, after)
    &&& no_stall(before, after)
    &&& after.nes.ppu.n_dot == before.nes.ppu.n_dot
    &&& after.nes.ppu.n_scanline == before.nes.ppu.n_scanline
    &&& after.nes.cpu_cycle == before.nes.cpu_cycle
    &&& after.nes.frame_generated == before.nes.frame_generated
}

impl Emulator {
    /// Internal RAM ($0000-$1FFF): 2 KiB, mirrored four times.
    fn ram_access(&mut self, addr: u16, mode: AccessMode) -> (r: u8)
        requires
            old(self).ready(),
            addr < 0x2000,
        ensures
            access_ok(*old(self), *final(self)),
            mode == AccessMode::Read ==> r == old(self).nes.ram@[addr as int % 0x800] && *final(self) == *old(self),
            mode matches AccessMode::Write(v) ==> r == v && final(self).nes.ram@ == old(self).nes.ram@.update(addr as int % 0x800, v)
                && final(self).nes == (NesState { ram: final(self).nes.ram, ..old(self).nes })
                && final(self).mapper == old(self).mapper,
    {
        let index: usize = (addr % 0x800) as usize;
        match mode {
            AccessMode::Read => self.nes.ram[index],
            AccessMode::Write(value) => {
                self.nes.ram.set(index, value);
                value
            },
        }
    }

    /// The PPU registers ($2000-$3FFF, eight registers mirrored).
    #[verifier::spinoff_prover]
    fn ppu_register_access(&mut self, addr: u16, mode: AccessMode) -> (r: u8)
        requires
            old(self).ready(),
            0x2000 <= addr < 0x4000,
        ensures
            access_ok(*old(self), *final(self)),
            final(self).nes.apu == old(self).nes.apu,
            final(self).nes.ram == old(self).nes.ram,
            mode matches AccessMode::Write(v) ==> r == if addr % 8 == 2 { 0 } else { v },
            mode matches AccessMode::Write(v) ==> (addr % 8 != 7 ==> final(self).nes.ppu
                == ppu_register_written(old(self).nes.ppu, addr % 8, v, final(self).nes.ppu.oamdata)),
            mode matches AccessMode::Write(v) ==> (addr % 8 == 4 ==> final(self).nes.ppu.oamdata@
                == old(self).nes.ppu.oamdata@.update(old(self).nes.ppu.oamaddr as int, v)),
            addr % 8 == 2 && mode == AccessMode::Read ==> r == old(self).nes.ppu.pstatus.0,
            addr % 8 == 4 && mode == AccessMode::Read ==> r == old(self).nes.ppu.oamdata@[old(self).nes.ppu.oamaddr as int],
            addr % 8 == 7 && mode == AccessMode::Read ==> r == old(self).nes.ppu.ppudata_value(old(self).mapper.unwrap())
                && final(self).nes.ppu == old(self).nes.ppu.ppudata_read(old(self).mapper.unwrap()),
            (addr % 8 == 0 || addr % 8 == 1 || addr % 8 == 3 || addr % 8 == 5 || addr % 8 == 6) && mode == AccessMode::Read
                ==> r == 0 && *final(self) == *old(self),
            mode == AccessMode::Read ==> keeps_memory(*old(self), *final(self)),
            mode == AccessMode::Read ==> final(self).nes.dma == old(self).nes.dma && final(self).nes.apu.dmc == old(self).nes.apu.dmc,
            addr % 8 == 7 ==> (mode matches AccessMode::Write(v) ==> old(self).nes.ppu.ppudata_stored(old(self).mapper.unwrap(), v, final(self).nes.ppu, final(self).mapper.unwrap())),
    {
        match mode {
            AccessMode::Read => self.ppu_register_read(addr % 8),
            AccessMode::Write(value) => {
                self.ppu_register_write(addr % 8, value);
                if addr % 8 == 2 { 0 } else { value }
            },
        }
    }

    #[verifier::spinoff_prover]
    #[verifier::rlimit(80)]
    fn ppu_register_read(&mut self, reg: u16) -> (r: u8)
        requires
            old(self).ready(),
            reg < 8,
        ensures
            access_ok(*old(self), *final(self)),
            final(self).nes.apu == old(self).nes.apu,
            final(self).nes.ram == old(self).nes.ram,
            reg == 2 ==> r == old(self).nes.ppu.pstatus.0,
            reg == 4 ==> r == old(self).nes.ppu.oamdata@[old(self).nes.ppu.oamaddr as int],
            (reg == 0 || reg == 1 || reg == 3 || reg == 5 || reg == 6) ==> r == 0 && *final(self) == *old(self),
            reg == 7 ==> r == old(self).nes.ppu.ppudata_value(old(self).mapper.unwrap())
                && final(self).nes.ppu == old(self).nes.ppu.ppudata_read(old(self).mapper.unwrap())
                && final(self).mapper == old(self).mapper,
            keeps_memory(*old(self), *final(self)),
            final(self).nes.dma == old(self).nes.dma,
    {
        if reg == 2 {
            self.nes.ppu.read_ppustatus()
        } else if reg == 4 {
            self.nes.ppu.read_oamdata()
        } else if reg == 7 {
            match &mut self.mapper {
                Some(cart) => {
                    let ghost was = self.nes.ppu.vram_fault;
                    let ghost c0 = *cart;
                    let v = self.nes.ppu.read_ppudata(cart);
                    self.vram_snapshot = Ghost(if !was && self.nes.ppu.vram_fault { Some(c0) } else { self.vram_snapshot@ });
                    v
                },
                None => 0,
            }
        } else {
            0
        }
    }

    #[verifier::spinoff_prover]
    #[verifier::rlimit(50)]
    fn ppu_register_write(&mut self, reg: u16, value: u8)
        requires
            old(self).ready(),
            reg < 8,
        ensures
            access_ok(*old(self), *final(self)),
            final(self).nes.apu == old(self).nes.apu,
            final(self).nes.ram == old(self).nes.ram,
            reg != 7 ==> final(self).nes.ppu == ppu_register_written(old(self).nes.ppu, reg, value, final(self).nes.ppu.oamdata),
            reg == 4 ==> final(self).nes.ppu.oamdata@ == old(self).nes.ppu.oamdata@.update(old(self).nes.ppu.oamaddr as int, value),
            reg == 7 ==> old(self).nes.ppu.ppudata_stored(old(self).mapper.unwrap(), value, final(self).nes.ppu, final(self).mapper.unwrap()),
    {
        if reg == 0 {
            self.ppu_ctrl_write(value);
        } else if reg == 1 {
            self.ppu_mask_write(value);
        } else if reg == 3 {
            self.ppu_oamaddr_write(value);
        } else if reg == 4 || reg == 5 || reg == 6 {
            self.ppu_register_write_upper(reg, value);
        } else if reg == 7 {
            self.ppudata_write(value);
        }
    }

    #[verifier::spinoff_prover]
    fn ppu_ctrl_write(&mut self, value: u8)
        requires
            old(self).ready(),
        ensures
            access_ok(*old(self), *final(self)),
            final(self).nes.apu == old(self).nes.apu,
            final(self).nes.ram == old(self).nes.ram,
            final(self).nes.ppu == old(self).nes.ppu.ppuctrl_written(value),
    {
        self.nes.ppu.write_ppuctrl(value);
    }

    #[verifier::spinoff_prover]
    fn ppu_mask_write(&mut self, value: u8)
        requires
            old(self).ready(),
        ensures
            access_ok(*old(self), *final(self)),
            final(self).nes.apu == old(self).nes.apu,
            final(self).nes.ram == old(self).nes.ram,
            final(self).nes.ppu == (ppu::State { pmask: ppu::PMask(value), ..old(self).nes.ppu }),
    {
        self.nes.ppu.write_ppumask(value);
    }

    #[verifier::spinoff_prover]
    fn ppu_oamaddr_write(&mut self, value: u8)
        requires
            old(self).ready(),
        ensures
            access_ok(*old(self), *final(self)),
            final(self).nes.apu == old(self).nes.apu,
            final(self).nes.ram == old(self).nes.ram,
            final(self).nes.ppu == (ppu::State { oamaddr: value as usize, ..old(self).nes.ppu }),
    {
        self.nes.ppu.write_oamaddr(value);
    }

    #[verifier::spinoff_prover]
    fn ppu_oamdata_write(&mut self, value: u8)
        requires
            old(self).ready(),
        ensures
            access_ok(*old(self), *final(self)),
            final(self).nes.apu == old(self).nes.apu,
            final(self).nes.ram == old(self).nes.ram,
            final(self).nes.ppu == old(self).nes.ppu.oamdata_written(final(self).nes.ppu.oamdata),
            final(self).nes.ppu.oamdata@ == old(self).nes.ppu.oamdata@.update(old(self).nes.ppu.oamaddr as int, value),
    {
        self.nes.ppu.write_oamdata(value);
    }

    #[verifier::spinoff_prover]
    fn ppu_scroll_write(&mut self, value: u8)
        requires
            old(self).ready(),
        ensures
            access_ok(*old(self), *final(self)),
            final(self).nes.apu == old(self).nes.apu,
            final(self).nes.ram == old(self).nes.ram,
            final(self).nes.ppu == old(self).nes.ppu.ppuscroll_written(value),
    {
        self.nes.ppu.write_ppuscroll(value);
    }

    #[verifier::spinoff_prover]
    fn ppu_addr_write(&mut self, value: u8)
        requires
            old(self).ready(),
        ensures
            access_ok(*old(self), *final(self)),
            final(self).nes.apu == old(self).nes.apu,
            final(self).nes.ram == old(self).nes.ram,
            final(self).nes.ppu == old(self).nes.ppu.ppuaddr_written(value),
    {
        self.nes.ppu.write_ppuaddr(value);
    }

    #[verifier::spinoff_prover]
    fn ppu_register_write_upper(&mut self, reg: u16, value: u8)
        requires
            old(self).ready(),
            4 <= reg <= 6,
        ensures
            access_ok(*old(self), *final(self)),
            final(self).nes.apu == old(self).nes.apu,
            final(self).nes.ram == old(self).nes.ram,
            final(self).nes.ppu == ppu_register_written(old(self).nes.ppu, reg, value, final(self).nes.ppu.oamdata),
            reg == 4 ==> final(self).nes.ppu.oamdata@ == old(self).nes.ppu.oamdata@.update(old(self).nes.ppu.oamaddr as int, value),
    {
        if reg == 4 {
            self.ppu_oamdata_write(value);
        } else if reg == 5 {
            self.ppu_scroll_write(value);
        } else {
            self.ppu_addr_write(value);
        }
    }

    #[verifier::spinoff_prover]
    fn ppudata_write(&mut self, value: u8)
        requires
            old(self).ready(),
        ensures
            access_ok(*old(self), *final(self)),
            final(self).nes.apu == old(self).nes.apu,
            final(self).nes.ram == old(self).nes.ram,
            final(self).nes == (NesState { ppu: final(self).nes.ppu, ..old(self).nes }),
            final(self).mapper.is_some(),
            old(self).nes.ppu.ppudata_stored(old(self).mapper.unwrap(), value, final(self).nes.ppu,
                final(self).mapper.unwrap()),
    {
        match &mut self.mapper {
            Some(cart) => {
                let ghost p0 = self.nes.ppu.palette_ram;
                let ghost was = self.nes.ppu.vram_fault;
                let ghost c0 = *cart;
                self.nes.ppu.write_ppudata(cart, value);
                self.vram_snapshot = Ghost(if !was && self.nes.ppu.vram_fault { Some(c0) } else { self.vram_snapshot@ });
                proof {
                    let addr = (old(self).nes.ppu.current_addr.0 % 0x4000) as u16;
                    if addr >= 0x3F00 {
                        ppu::lemma_palette_write_then_read(p0, addr as int % 32, value);
                    }
                }
            },
            None => {},
        }
    }
}

impl Emulator {
    /// The APU and DMA registers ($4000-$4015, $4017 writes).
    #[verifier::spinoff_prover]
    fn apu_register_access(&mut self, addr: u16, mode: AccessMode) -> (r: u8)
        requires
            old(self).ready(),
            0x4000 <= addr <= 0x4017,
            addr != 0x4016,
        ensures
            access_ok(*old(self), *final(self)),
            final(self).nes.ram == old(self).nes.ram,
            final(self).nes.ppu == old(self).nes.ppu,
            mode matches AccessMode::Write(v) ==> r == v,
            addr == 0x4014 ==> (mode matches AccessMode::Write(v) ==> final(self).nes.dma == (dma::State {
                ppu_dma_request: Some((v as u16 * 256) as u16),
                ..old(self).nes.dma
            })),
            addr == 0x4015 && mode == AccessMode::Read ==> r == old(self).nes.apu.status_value(),
            addr != 0x4015 && addr != 0x4017 && mode == AccessMode::Read ==> r == 0 && *final(self) == *old(self),
            mode matches AccessMode::Write(v) ==> (addr != 0x4014
                && !(addr == 0x4015 && old(self).nes.apu.dmc.enable_overflows(v / 16 % 2 == 1))
                ==> final(self).nes.apu == apu_register_written(old(self).nes.apu, addr, v, old(self).nes.cpu_cycle % 2 == 1)),
            mode == AccessMode::Read ==> keeps_memory(*old(self), *final(self)),
            mode == AccessMode::Read ==> final(self).nes.dma == old(self).nes.dma && final(self).nes.apu.dmc == old(self).nes.apu.dmc,
            addr == 0x4017 && mode == AccessMode::Read ==> (old(self).nes.input_strobe ==> r == 0)
                && (!old(self).nes.input_strobe ==> r == controller_bit(old(self).nes.input_2_mask.bits, old(self).nes.input_2_offset)
                    && final(self).nes.input_2_offset == (old(self).nes.input_2_offset + 1) % 8),
            addr == 0x4017 && mode == AccessMode::Read ==> *final(self) == (Emulator { nes: NesState { input_2_offset: final(self).nes.input_2_offset, ..old(self).nes }, ..*old(self) }),
    {
        match mode {
            AccessMode::Read => {
                if addr == 0x4015 {
                    let (value, irq) = self.nes.apu.read_state_register();
                    self.nes.mos6502.irq = irq;
                    value
                } else if addr == 0x4017 {
                    self.controller_read(2)
                } else {
                    0
                }
            },
            AccessMode::Write(value) => {
                self.apu_register_write(addr, value);
                value
            },
        }
    }

    /// A write of an APU or DMA register ($4000-$4015, $4017).
    #[verifier::spinoff_prover]
    #[verifier::rlimit(80)]
    fn apu_register_write(&mut self, addr: u16, value: u8)
        requires
            old(self).ready(),
            0x4000 <= addr <= 0x4017,
            addr != 0x4016,
        ensures
            access_ok(*old(self), *final(self)),
            final(self).nes.ram == old(self).nes.ram,
            final(self).nes.ppu == old(self).nes.ppu,
            addr == 0x4014 ==> final(self).nes.dma == (dma::State {
                ppu_dma_request: Some((value as u16 * 256) as u16),
                ..old(self).nes.dma
            }),
            addr != 0x4014 && !(addr == 0x4015 && old(self).nes.apu.dmc.enable_overflows(value / 16 % 2 == 1))
                ==> final(self).nes.apu == apu_register_written(old(self).nes.apu, addr, value, old(self).nes.cpu_cycle % 2 == 1),
    {
        if addr <= 0x4003 {
            self.nes.apu.set_pulse1(addr, value);
        } else if addr <= 0x4007 {
            self.nes.apu.set_pulse2(addr, value);
        } else if addr <= 0x400B {
            self.nes.apu.set_triangle(addr, value);
        } else if addr <= 0x400F {
            self.nes.apu.set_noise(addr, value);
        } else if addr <= 0x4013 {
            self.nes.apu.set_dmc(addr, value);
        } else if addr == 0x4014 {
            self.nes.dma.activate_ppu_dma(value);
        } else if addr == 0x4015 {
            proof { crate::bitmisc::lemma_u8_bits(value); }
            if self.nes.apu.dmc.would_overflow_on_enable(value & 0b0001_0000 != 0) {
                self.record_fault(Fault::SampleOverrun);
            } else {
                let irq = self.nes.apu.write_state_register(value);
                self.nes.mos6502.irq = irq;
            }
        } else {
            let odd = self.nes.cpu_cycle % 2 == 1;
            match self.nes.apu.set_frame(value, odd) {
                Some(irq) => {
                    self.nes.mos6502.irq = irq;
                },
                None => {},
            }
        }
    }

    /// A read of a controller port ($4016 for `port` 1, $4017 for 2): while the strobe
    /// is low, the next button bit (A first), and the port moves on to the next button.
    fn controller_read(&mut self, port: u8) -> (r: u8)
        requires
            old(self).ready(),
        ensures
            access_ok(*old(self), *final(self)),
            final(self).nes.ram == old(self).nes.ram,
            final(self).nes.ppu == old(self).nes.ppu,
            final(self).nes.apu == old(self).nes.apu,
            final(self).nes.dma == old(self).nes.dma,
            final(self).mapper == old(self).mapper,
            old(self).nes.input_strobe ==> r == 0 && *final(self) == *old(self),
            !old(self).nes.input_strobe && port == 1 ==> r == controller_bit(old(self).nes.input_1_mask.bits, old(self).nes.input_1_offset)
                && final(self).nes.input_1_offset == (old(self).nes.input_1_offset + 1) % 8,
            !old(self).nes.input_strobe && port != 1 ==> r == controller_bit(old(self).nes.input_2_mask.bits, old(self).nes.input_2_offset)
                && final(self).nes.input_2_offset == (old(self).nes.input_2_offset + 1) % 8,
            port == 1 ==> *final(self) == (Emulator { nes: NesState { input_1_offset: final(self).nes.input_1_offset, ..old(self).nes }, ..*old(self) }),
            port != 1 ==> *final(self) == (Emulator { nes: NesState { input_2_offset: final(self).nes.input_2_offset, ..old(self).nes }, ..*old(self) }),
    {
        if self.nes.input_strobe {
            return 0;
        }
        if port == 1 {
            let offset = self.nes.input_1_offset;
            let d0: u8 = if (self.nes.input_1_mask.bits << offset as u8) & 0b1000_0000 == 0 { 0 } else { 1 };
            self.nes.input_1_offset = (offset + 1) % 8;
            d0
        } else {
            let offset = self.nes.input_2_offset;
            let d0: u8 = if (self.nes.input_2_mask.bits << offset as u8) & 0b1000_0000 == 0 { 0 } else { 1 };
            self.nes.input_2_offset = (offset + 1) % 8;
            d0
        }
    }

    /// A write of $4016: bit 0 is the strobe; while it is high both ports go back to A.
    fn controller_write(&mut self, value: u8)
        requires
            old(self).ready(),
        ensures
            access_ok(*old(self), *final(self)),
            final(self).nes.input_strobe == (value % 2 == 1),
            value % 2 == 1 ==> final(self).nes.input_1_offset == 0 && final(self).nes.input_2_offset == 0,
            value % 2 == 0 ==> final(self).nes.input_1_offset == old(self).nes.input_1_offset
                && final(self).nes.input_2_offset == old(self).nes.input_2_offset,
            final(self).nes.ram == old(self).nes.ram,
            final(self).nes.ppu == old(self).nes.ppu,
            final(self).nes.apu == old(self).nes.apu,
            *final(self) == (Emulator { nes: NesState { input_strobe: final(self).nes.input_strobe,
                input_1_offset: final(self).nes.input_1_offset, input_2_offset: final(self).nes.input_2_offset, ..old(self).nes },
                ..*old(self) }),
    {
        proof { crate::bitmisc::lemma_u8_bits(value); }
        self.nes.input_strobe = value & 1 == 1;
        if self.nes.input_strobe {
            self.nes.input_1_offset = 0;
            self.nes.input_2_offset = 0;
        }
    }

    /// Cartridge space ($4020-$FFFF): the expansion area reads 0 and ignores writes;
    /// above $6000 the mapper serves the access, and an access it cannot serve is a fault.
    #[verifier::spinoff_prover]
    fn cartridge_access(&mut self, addr: u16, mode: AccessMode) -> (r: u8)
        requires
            old(self).ready(),
            addr >= 0x4020,
        ensures
            access_ok(*old(self), *final(self)),
            final(self).nes.ram == old(self).nes.ram,
            final(self).nes.ppu == old(self).nes.ppu,
            final(self).nes.apu == old(self).nes.apu,
            mode matches AccessMode::Write(v) ==> r == v,
            addr < 0x6000 && mode == AccessMode::Read ==> r == 0,
            addr >= 0x6000 && mode == AccessMode::Read ==> {
                let m = old(self).mapper.unwrap();
                &&& m.cpu_readable(addr) ==> r == m.cpu_value(addr) && *final(self) == *old(self)
                &&& !m.cpu_readable(addr) ==> r == 0 && final(self).nes.fault.is_some()
            },
            addr >= 0x6000 ==> (mode matches AccessMode::Write(v) ==>
                (!old(self).mapper.unwrap().cpu_writable(addr) ==> final(self).nes.fault.is_some())),
            addr >= 0x6000 ==> (mode matches AccessMode::Write(v) ==> ({
                let (m0, m1) = (old(self).mapper.unwrap(), final(self).mapper.unwrap());
                m0.cpu_writable(addr) && m0.cpu_stores(addr) ==> m1.cpu_readable(addr) && m1.cpu_value(addr) == v
            })),
            mode == AccessMode::Read ==> keeps_memory(*old(self), *final(self)),
            mode == AccessMode::Read ==> final(self).nes.dma == old(self).nes.dma && final(self).nes.apu.dmc == old(self).nes.apu.dmc,
            addr >= 0x6000 ==> (mode matches AccessMode::Write(v) ==> (old(self).mapper.unwrap().cpu_writable(addr)
                ==> final(self).mapper is Some && old(self).mapper.unwrap().cpu_write_done(addr, v, final(self).mapper.unwrap()))),
    {
        let mut failed = false;
        let r = match &mut self.mapper {
            Some(mapper) => {
                if addr < 0x6000 {
                    match mode {
                        AccessMode::Read => mapper.peek_expansion_rom(addr),
                        AccessMode::Write(value) => {
                            mapper.poke_expansion_rom(addr, value);
                            value
                        },
                    }
                } else {
                    match mode {
                        AccessMode::Read => {
                            if mapper.can_peek(addr) {
                                mapper.peek(addr)
                            } else {
                                failed = true;
                                0
                            }
                        },
                        AccessMode::Write(value) => {
                            if mapper.can_poke(addr) {
                                mapper.poke(addr, value);
                            } else {
                                failed = true;
                            }
                            value
                        },
                    }
                }
            },
            None => 0,
        };
        if failed {
            match mode {
                AccessMode::Read => self.record_fault(Fault::CartridgeRead(addr)),
                AccessMode::Write(_) => self.record_fault(Fault::CartridgeWrite(addr)),
            }
        }
        r
    }

    /// The CPU bus: RAM, the PPU and APU registers, the controllers and the cartridge.
    #[verifier::spinoff_prover]
    #[verifier::rlimit(100)]
    pub fn access(&mut self, addr: u16, mode: AccessMode) -> (r: u8)
        requires
            old(self).ready(),
        ensures
            access_ok(*old(self), *final(self)),
            mode matches AccessMode::Write(v) ==> r == if (0x2000 <= addr < 0x4000 && addr % 8 == 2) || (0x4018 <= addr < 0x4020) {
                0
            } else {
                v
            },
            0x4018 <= addr < 0x4020 ==> r == 0 && *final(self) == *old(self),
            addr < 0x2000 && mode == AccessMode::Read ==> r == old(self).nes.ram@[addr as int % 0x800] && *final(self) == *old(self),
            addr < 0x2000 ==> (mode matches AccessMode::Write(v) ==>
                final(self).nes.ram@ == old(self).nes.ram@.update(addr as int % 0x800, v)
                && final(self).mapper == old(self).mapper),
            addr >= 0x2000 ==> final(self).nes.ram == old(self).nes.ram,
            0x2000 <= addr < 0x4000 && addr % 8 == 2 && mode == AccessMode::Read ==> r == old(self).nes.ppu.pstatus.0,
            0x2000 <= addr < 0x4000 && addr % 8 == 4 && mode == AccessMode::Read
                ==> r == old(self).nes.ppu.oamdata@[old(self).nes.ppu.oamaddr as int],
            0x2000 <= addr < 0x4000 && addr % 8 == 7 && mode == AccessMode::Read
                ==> r == old(self).nes.ppu.ppudata_value(old(self).mapper.unwrap())
                && final(self).nes.ppu == old(self).nes.ppu.ppudata_read(old(self).mapper.unwrap()),
            0x2000 <= addr < 0x4000 && addr % 8 != 7 ==> (mode matches AccessMode::Write(v) ==> final(self).nes.ppu
                == ppu_register_written(old(self).nes.ppu, addr % 8, v, final(self).nes.ppu.oamdata)),
            0x2000 <= addr < 0x4000 && addr % 8 == 4 ==> (mode matches AccessMode::Write(v) ==> final(self).nes.ppu.oamdata@
                == old(self).nes.ppu.oamdata@.update(old(self).nes.ppu.oamaddr as int, v)),
            addr == 0x4015 && mode == AccessMode::Read ==> r == old(self).nes.apu.status_value(),
            0x4000 <= addr <= 0x4017 && addr != 0x4014 && addr != 0x4016 ==> (mode matches AccessMode::Write(v) ==>
                (!(addr == 0x4015 && old(self).nes.apu.dmc.enable_overflows(v / 16 % 2 == 1))
                ==> final(self).nes.apu == apu_register_written(old(self).nes.apu, addr, v, old(self).nes.cpu_cycle % 2 == 1))),
            addr == 0x4014 ==> (mode matches AccessMode::Write(v) ==> final(self).nes.dma.ppu_dma_request == Some((v as u16 * 256) as u16)),
            addr == 0x4016 && mode == AccessMode::Read && !old(self).nes.input_strobe
                ==> r == controller_bit(old(self).nes.input_1_mask.bits, old(self).nes.input_1_offset),
            0x4018 <= addr < 0x6000 && mode == AccessMode::Read ==> r == 0,
            addr >= 0x6000 && mode == AccessMode::Read && old(self).mapper.unwrap().cpu_readable(addr)
                ==> r == old(self).mapper.unwrap().cpu_value(addr) && *final(self) == *old(self),
            addr >= 0x6000 && mode == AccessMode::Read && !old(self).mapper.unwrap().cpu_readable(addr)
                ==> r == 0 && final(self).nes.fault.is_some(),
            addr >= 0x6000 ==> (mode matches AccessMode::Write(v) ==> ({
                let (m0, m1) = (old(self).mapper.unwrap(), final(self).mapper.unwrap());
                &&& !m0.cpu_writable(addr) ==> final(self).nes.fault.is_some()
                &&& m0.cpu_writable(addr) && m0.cpu_stores(addr) ==> m1.cpu_readable(addr) && m1.cpu_value(addr) == v
            })),
            mode == AccessMode::Read ==> keeps_memory(*old(self), *final(self)),
            mode == AccessMode::Read ==> final(self).nes.dma == old(self).nes.dma && final(self).nes.apu.dmc == old(self).nes.apu.dmc,
            0x2000 <= addr < 0x4000 && addr % 8 == 7 ==> (mode matches AccessMode::Write(v) ==> old(self).nes.ppu.ppudata_stored(old(self).mapper.unwrap(), v, final(self).nes.ppu, final(self).mapper.unwrap())),
            addr == 0x4016 && mode == AccessMode::Read ==> (old(self).nes.input_strobe ==> r == 0)
                && (!old(self).nes.input_strobe ==> final(self).nes.input_1_offset == (old(self).nes.input_1_offset + 1) % 8),
            addr == 0x4017 && mode == AccessMode::Read ==> (old(self).nes.input_strobe ==> r == 0)
                && (!old(self).nes.input_strobe ==> r == controller_bit(old(self).nes.input_2_mask.bits, old(self).nes.input_2_offset)
                    && final(self).nes.input_2_offset == (old(self).nes.input_2_offset + 1) % 8),
            addr == 0x4016 ==> (mode matches AccessMode::Write(v) ==> final(self).nes.input_strobe == (v % 2 == 1)
                && (v % 2 == 1 ==> final(self).nes.input_1_offset == 0 && final(self).nes.input_2_offset == 0)
                && (v % 2 == 0 ==> final(self).nes.input_1_offset == old(self).nes.input_1_offset
                    && final(self).nes.input_2_offset == old(self).nes.input_2_offset)),
            addr == 0x4016 && mode == AccessMode::Read ==> *final(self) == (Emulator { nes: NesState { input_1_offset: final(self).nes.input_1_offset, ..old(self).nes }, ..*old(self) }),
            addr == 0x4017 && mode == AccessMode::Read ==> *final(self) == (Emulator { nes: NesState { input_2_offset: final(self).nes.input_2_offset, ..old(self).nes }, ..*old(self) }),
            addr >= 0x6000 ==> (mode matches AccessMode::Write(v) ==> (old(self).mapper.unwrap().cpu_writable(addr)
                ==> final(self).mapper is Some && old(self).mapper.unwrap().cpu_write_done(addr, v, final(self).mapper.unwrap()))),
            addr == 0x4016 ==> (mode matches AccessMode::Write(v) ==> *final(self) == (Emulator { nes: NesState { input_strobe: final(self).nes.input_strobe,
                input_1_offset: final(self).nes.input_1_offset, input_2_offset: final(self).nes.input_2_offset, ..old(self).nes },
                ..*old(self) })),
    {
        if addr < 0x2000 {
            self.ram_access(addr, mode)
        } else if addr < 0x4000 {
            self.ppu_register_access(addr, mode)
        } else if addr == 0x4016 {
            match mode {
                AccessMode::Read => self.controller_read(1),
                AccessMode::Write(value) => {
                    self.controller_write(value);
                    value
                },
            }
        } else if addr <= 0x4017 {
            self.apu_register_access(addr, mode)
        } else if addr < 0x4020 {
            0
        } else {
            self.cartridge_access(addr, mode)
        }
    }
}

impl Emulator {
    /// A bus read made by the DMA unit: one cycle, then the read.
    fn peek_memory(&mut self, addr: u16) -> (r: u8)
        requires
            old(self).ready(),
        ensures
            cycle_ok(*old(self), *final(self)),
            old(self).nes.frame_generated ==> final(self).nes.frame_generated,
            keeps_memory(*old(self), *final(self)),
            addr < 0x2000 ==> r == old(self).nes.ram@[addr as int % 0x800],
            no_regress(*old(self), *final(self)),
            dmc_idle(*old(self)) ==> dmc_idle(*final(self)),
            final(self).nes.cpu_cycle == next_cycle(old(self).nes.cpu_cycle),
            no_stall(*old(self), *final(self)),
            addr >= 0x6000 && old(self).mapper.unwrap().cpu_readable(addr) ==> r == old(self).mapper.unwrap().cpu_value(addr),
            old(self).nes.dma.dmc_dma_request.is_some() ==> final(self).nes.dma.dmc_dma_request.is_some(),
    {
        self.on_cpu_cycle();
        self.access(addr, AccessMode::Read)
    }

    fn is_odd_cpu_cycle(&self) -> (r: bool)
        ensures
            r == (self.nes.cpu_cycle % 2 == 1),
    {
        self.nes.cpu_cycle % 2 == 1
    }

    /// A sample byte fetched for the delta modulation channel.
    fn on_dmc_dma_transfer(&mut self, value: u8)
        requires
            old(self).ready(),
        ensures
            cycle_ok(*old(self), *final(self)),
            final(self).nes.dma == old(self).nes.dma,
            final(self).nes.frame_generated == old(self).nes.frame_generated,
            keeps_memory(*old(self), *final(self)),
            old(self).nes.apu.dmc.transfer_overflows() ==> final(self).nes.fault.is_some()
                && final(self).nes == (NesState { fault: final(self).nes.fault, ..old(self).nes }),
            !old(self).nes.apu.dmc.transfer_overflows() ==> final(self).nes == (NesState {
                apu: apu::State { dmc: old(self).nes.apu.dmc.dma_transferred(value), ..old(self).nes.apu },
                ..old(self).nes
            }),
            final(self).mapper == old(self).mapper,
            no_regress(*old(self), *final(self)),
    {
        if self.nes.apu.dmc.would_overflow_on_transfer() {
            self.record_fault(Fault::SampleOverrun);
        } else {
            self.nes.apu.on_dma_finish(value);
        }
    }

    /// A sprite DMA byte stored into object memory at OAMADDR plus `offset` (wrapping),
    /// after one cycle.
    fn on_ppu_dma_transfer(&mut self, value: u8, offset: usize)
        requires
            old(self).ready(),
            offset < 256,
        ensures
            cycle_ok(*old(self), *final(self)),
            old(self).nes.frame_generated ==> final(self).nes.frame_generated,
            final(self).nes.ram == old(self).nes.ram,
            final(self).mapper == old(self).mapper,
            final(self).nes.ppu.oamaddr == old(self).nes.ppu.oamaddr,
            final(self).nes.dma.ppu_dma_request == old(self).nes.dma.ppu_dma_request,
            final(self).nes.ppu.oamdata@ == old(self).nes.ppu.oamdata@.update(
                (offset + old(self).nes.ppu.oamaddr) % 256, value),
            no_regress(*old(self), *final(self)),
            dmc_idle(*old(self)) ==> dmc_idle(*final(self)),
            final(self).nes.cpu_cycle == next_cycle(old(self).nes.cpu_cycle),
            no_stall(*old(self), *final(self)),
            final(self).dmc_fetches == old(self).dmc_fetches,
            old(self).nes.dma.dmc_dma_request.is_some() ==> final(self).nes.dma.dmc_dma_request.is_some(),
    {
        self.on_cpu_cycle();
        let index = (offset + self.nes.ppu.oamaddr) % 256;
        self.nes.ppu.oamdata.set(index, value);
    }

    /// A sample fetch for the delta modulation channel: one cycle, the read of `addr`,
    /// the byte handed to the channel and recorded, and the request cleared.
    #[verifier::spinoff_prover]
    fn dmc_fetch(&mut self, addr: u16)
        requires
            old(self).ready(),
        ensures
            cycle_ok(*old(self), *final(self)),
            no_regress(*old(self), *final(self)),
            final(self).nes.ram == old(self).nes.ram,
            final(self).mapper == old(self).mapper,
            final(self).nes.ppu.oamaddr == old(self).nes.ppu.oamaddr,
            final(self).nes.ppu.oamdata == old(self).nes.ppu.oamdata,
            final(self).nes.dma.ppu_dma_request == old(self).nes.dma.ppu_dma_request,
            final(self).nes.dma.dmc_dma_request.is_none(),
            final(self).nes.cpu_cycle == next_cycle(old(self).nes.cpu_cycle),
            ({
                let (a, v) = final(self).dmc_fetches@.last();
                &&& final(self).dmc_fetches@ == old(self).dmc_fetches@.push((addr, v))
                &&& (addr < 0x2000 || (addr >= 0x6000 && old(self).mapper.unwrap().cpu_readable(addr)))
                    ==> v == page_byte(*old(self), addr as int)
            }),
    {
        let value = self.peek_memory(addr);
        self.on_dmc_dma_transfer(value);
        self.nes.dma.dmc_dma_request = None;
        self.dmc_fetches = Ghost(self.dmc_fetches@.push((addr, value)));
    }

    /// Runs the pending DMA transfers before a CPU read of `cpu_peek_addr`, stalling the
    /// CPU: the sample fetch on an odd cycle once its halt cycles are over, the 256
    /// sprite bytes as read (odd cycle) and write (even cycle) pairs, and a repeat of the
    /// CPU read on every other cycle. The loop is bounded by 4096 cycles (a transfer takes
    /// about 520); past that the machine reports a fault, which cannot happen while the
    /// sample channel has nothing to fetch. A sprite DMA from a page of internal RAM or a
    /// readable cartridge page leaves the page's 256 bytes in object memory from OAMADDR
    /// on (wrapping). Each sample fetch hands the channel the byte read at its address and
    /// is recorded in `dmc_fetches`.
    #[verifier::spinoff_prover]
    #[verifier::rlimit(100)]
    pub fn dma_hijack(&mut self, cpu_peek_addr: u16)
        requires
            old(self).ready(),
        ensures
            cycle_ok(*old(self), *final(self)),
            old(self).nes.frame_generated ==> final(self).nes.frame_generated,
            !old(self).nes.dma.pending() ==> *final(self) == (Emulator {
                nes: NesState { dma: dma::State { dmc_dma_halt_cycle: 2, ..old(self).nes.dma }, ..old(self).nes },
                ..*old(self)
            }),
            !final(self).faulted() ==> !final(self).nes.dma.pending(),
            final(self).nes.ram == old(self).nes.ram,
            final(self).mapper == old(self).mapper,
            final(self).nes.ppu.oamaddr == old(self).nes.ppu.oamaddr,
            old(self).nes.dma.ppu_dma_request.is_some() && dma_source_ok(*old(self), old(self).nes.dma.ppu_dma_request.unwrap() as int)
                && (!final(self).faulted() || dmc_idle(*old(self))) ==> oam_copied(*final(self), old(self).nes.ppu.oamaddr as int,
                old(self).nes.dma.ppu_dma_request.unwrap() as int, 256),
            no_regress(*old(self), *final(self)),
            dmc_idle(*old(self)) ==> dmc_idle(*final(self)) && final(self).nes.dma.ppu_dma_request.is_none()
                && (final(self).nes.fault == Some(Fault::DmaStall) ==> old(self).nes.fault == Some(Fault::DmaStall)),
            old(self).dmc_fetches@.len() <= final(self).dmc_fetches@.len(),
            final(self).dmc_fetches@.subrange(0, old(self).dmc_fetches@.len() as int) == old(self).dmc_fetches@,
            fetches_read(*final(self), *old(self), old(self).dmc_fetches@.len() as int),
            old(self).nes.dma.dmc_dma_request.is_some() && !final(self).faulted()
                ==> final(self).dmc_fetches@.len() > old(self).dmc_fetches@.len(),
    {
        proof {
            assert(self.dmc_fetches@.subrange(0, old(self).dmc_fetches@.len() as int) =~= old(self).dmc_fetches@);
        }
        self.nes.dma.dmc_dma_halt_cycle = 2;
        if self.nes.dma.dmc_dma_request.is_some() || self.nes.dma.ppu_dma_request.is_some() {
            self.peek_memory(cpu_peek_addr);
            let mut ppu_dma_data_cache: Option<u8> = None;
            let mut ppu_dma_data_offset: usize = 0;
            let mut budget: usize = 4096;
            let ghost idle = dmc_idle(*old(self));
            proof {
                assert(self.dmc_fetches@.subrange(0, old(self).dmc_fetches@.len() as int) =~= old(self).dmc_fetches@);
            }
            loop
                invariant_except_break
                    idle ==> dma_budget_ok(self.nes.dma.ppu_dma_request.is_some(), ppu_dma_data_offset as int,
                        ppu_dma_data_cache.is_some(), self.nes.cpu_cycle % 2 == 1, budget as int),
                invariant
                    idle == dmc_idle(*old(self)),
                    old(self).dmc_fetches@.len() <= self.dmc_fetches@.len(),
                    self.dmc_fetches@.subrange(0, old(self).dmc_fetches@.len() as int) == old(self).dmc_fetches@,
                    fetches_read(*self, *old(self), old(self).dmc_fetches@.len() as int),
                    old(self).nes.dma.dmc_dma_request.is_some() && self.nes.dma.dmc_dma_request.is_none()
                        ==> self.dmc_fetches@.len() > old(self).dmc_fetches@.len(),
                    idle ==> dmc_idle(*self) && no_stall(*old(self), *self),
                    idle && self.nes.dma.ppu_dma_request.is_none() ==> ppu_dma_data_cache.is_none(),
                    cycle_ok(*old(self), *self),
                    old(self).nes.frame_generated ==> self.nes.frame_generated,
                    ppu_dma_data_offset < 256,
                    budget <= 4096,
                    self.nes.ram == old(self).nes.ram,
                    self.mapper == old(self).mapper,
                    no_regress(*old(self), *self),
                    self.nes.ppu.oamaddr == old(self).nes.ppu.oamaddr,
                    old(self).nes.dma.ppu_dma_request.is_some() && dma_source_ok(*old(self), old(self).nes.dma.ppu_dma_request.unwrap() as int) ==> {
                        let oa = old(self).nes.ppu.oamaddr as int;
                        let base = old(self).nes.dma.ppu_dma_request.unwrap();
                        ||| self.nes.dma.ppu_dma_request == Some(base)
                            && oam_copied(*self, oa, base as int, ppu_dma_data_offset as int)
                            && (ppu_dma_data_cache matches Some(v)
                                ==> v == page_byte(*self, base + ppu_dma_data_offset))
                        ||| self.nes.dma.ppu_dma_request.is_none() && oam_copied(*self, oa, base as int, 256)
                    },
                    old(self).nes.dma.ppu_dma_request.is_none() ==> self.nes.dma.ppu_dma_request.is_none(),
                ensures
                    !self.faulted() ==> !self.nes.dma.pending(),
                    dmc_idle(*old(self)) ==> dmc_idle(*self) && self.nes.dma.ppu_dma_request.is_none()
                        && no_stall(*old(self), *self),
                    old(self).nes.dma.ppu_dma_request.is_some() && dma_source_ok(*old(self), old(self).nes.dma.ppu_dma_request.unwrap() as int)
                        && (!self.faulted() || dmc_idle(*old(self))) ==> oam_copied(*self, old(self).nes.ppu.oamaddr as int,
                        old(self).nes.dma.ppu_dma_request.unwrap() as int, 256),
                decreases budget,
            {
                if self.nes.dma.dmc_dma_request.is_none() && self.nes.dma.ppu_dma_request.is_none() {
                    break;
                }
                if budget == 0 {
                    let ghost before = *self;
                    self.record_fault(Fault::DmaStall);
                    proof {
                        let oa = old(self).nes.ppu.oamaddr as int;
                        let base = old(self).nes.dma.ppu_dma_request.unwrap() as int;
                        lemma_oam_copied_kept(before, *self, oa, base, ppu_dma_data_offset as int);
                        lemma_oam_copied_kept(before, *self, oa, base, 256);
                    }
                    break;
                }
                budget = budget - 1;
                let dmc_data_transfer_ready = self.nes.dma.dmc_dma_halt_cycle == 0;
                let odd = self.is_odd_cpu_cycle();
                let dmc_request = self.nes.dma.dmc_dma_request;
                let ppu_request = self.nes.dma.ppu_dma_request;
                let ghost e0 = *self;
                let ghost oa = old(self).nes.ppu.oamaddr as int;
                let ghost base = old(self).nes.dma.ppu_dma_request.unwrap() as int;
                if odd && dmc_request.is_some() && dmc_data_transfer_ready {
                    let addr = dmc_request.unwrap();
                    let ghost f0 = self.dmc_fetches@;
                    self.dmc_fetch(addr);
                    proof {
                        assert(self.dmc_fetches@.subrange(0, old(self).dmc_fetches@.len() as int)
                            =~= f0.subrange(0, old(self).dmc_fetches@.len() as int));
                        assert forall|j: int| old(self).dmc_fetches@.len() <= j < self.dmc_fetches@.len() implies ({
                            let (a, v) = #[trigger] self.dmc_fetches@[j];
                            (a < 0x2000 || (a >= 0x6000 && old(self).mapper.unwrap().cpu_readable(a))) ==> v == page_byte(*old(self), a as int)
                        }) by {
                            if j < f0.len() {
                                assert(self.dmc_fetches@[j] == f0[j]);
                            }
                        }
                    }
                    proof {
                        lemma_oam_copied_kept(e0, *self, oa, base, ppu_dma_data_offset as int);
                        lemma_oam_copied_kept(e0, *self, oa, base, 256);
                    }
                } else if odd && dmc_request.is_none() && ppu_request.is_some() && ppu_dma_data_cache.is_none() {
                    let addr = ppu_request.unwrap() + ppu_dma_data_offset as u16;
                    proof {
                        if old(self).nes.dma.ppu_dma_request.is_some() && dma_source_ok(*old(self), base) && base >= 0x2000 {
                            let i = ppu_dma_data_offset as int;
                            assert(old(self).mapper.unwrap().cpu_readable((base + i) as u16));
                        }
                    }
                    let v = self.peek_memory(addr);
                    ppu_dma_data_cache = Some(v);
                    proof {
                        lemma_oam_copied_kept(e0, *self, oa, base, ppu_dma_data_offset as int);
                        if old(self).nes.dma.ppu_dma_request.is_some() && dma_source_ok(*old(self), base) {
                            assert(v == page_byte(e0, base + ppu_dma_data_offset));
                            assert(page_byte(e0, base + ppu_dma_data_offset) == page_byte(*self, base + ppu_dma_data_offset));
                        }
                    }
                } else if !odd && ppu_request.is_some() && ppu_dma_data_cache.is_some() {
                    let value = ppu_dma_data_cache.unwrap();
                    self.on_ppu_dma_transfer(value, ppu_dma_data_offset);
                    proof {
                        if old(self).nes.dma.ppu_dma_request.is_some() && dma_source_ok(*old(self), base) {
                            lemma_oam_copied_extend(e0, *self, oa, base, ppu_dma_data_offset as int, value);
                        }
                    }
                    ppu_dma_data_cache = None;
                    let ghost e1 = *self;
                    let ghost k1 = ppu_dma_data_offset + 1;
                    if ppu_dma_data_offset + 1 >= 256 {
                        self.nes.dma.ppu_dma_request = None;
                        ppu_dma_data_offset = 0;
                    } else {
                        ppu_dma_data_offset = ppu_dma_data_offset + 1;
                    }
                    proof {
                        lemma_oam_copied_kept(e1, *self, oa, base, k1);
                        lemma_oam_copied_kept(e1, *self, oa, base, ppu_dma_data_offset as int);
                    }
                } else if dmc_request.is_none() && ppu_request.is_none() {
                    break;
                } else {
                    self.peek_memory(cpu_peek_addr);
                    proof {
                        lemma_oam_copied_kept(e0, *self, oa, base, ppu_dma_data_offset as int);
                        lemma_oam_copied_kept(e0, *self, oa, base, 256);
                    }
                }
            }
        }
    }
}

impl cpu::Context for Emulator {
    open spec fn bus_ready(&self) -> bool {
        self.ready() && progress_ok(*self) && frame_counted(*self)
            && (self.faults_checked@ ==> fault_ok(*self) && vram_ok(*self))
    }

    open spec fn ledger(&self) -> (int, int, bool) {
        (self.frame_mark@, self.frame_base@, self.faults_checked@)
    }

    open spec fn cpu(&self) -> cpu::State {
        self.nes.mos6502
    }

    open spec fn bus_log(&self) -> Seq<cpu::BusEvent> {
        self.cpu_bus_log@
    }

    /// A CPU read leaves internal RAM and the cartridge as they were; from RAM it gives
    /// the byte there, and from a cartridge address that can be read, the cartridge's byte.
    open spec fn read_done(&self, after: Self, addr: u16, value: u8) -> bool {
        &&& after.nes.ram == self.nes.ram
        &&& after.mapper == self.mapper
        &&& addr < 0x2000 ==> value == self.nes.ram@[addr as int % 0x800]
        &&& addr >= 0x6000 && self.mapper.unwrap().cpu_readable(addr) ==> value == self.mapper.unwrap().cpu_value(addr)
    }

    /// A CPU write takes one cycle. Below $2000 it stores the byte in internal RAM;
    /// elsewhere RAM is left alone. A write to $4014 asks for a sprite DMA from that page,
    /// and a write that the cartridge keeps reads back as the byte written.
    open spec fn write_done(&self, after: Self, addr: u16, value: u8) -> bool {
        let (m0, m1) = (self.mapper.unwrap(), after.mapper.unwrap());
        &&& after.nes.cpu_cycle == if self.nes.cpu_cycle == usize::MAX { 0 } else { (self.nes.cpu_cycle + 1) as usize }
        &&& addr < 0x2000 ==> after.nes.ram@ == self.nes.ram@.update(addr as int % 0x800, value)
            && after.mapper == self.mapper
        &&& addr >= 0x2000 ==> after.nes.ram == self.nes.ram
        &&& addr == 0x4014 ==> after.nes.dma.ppu_dma_request == Some((value as u16 * 256) as u16)
        &&& addr >= 0x6000 && m0.cpu_writable(addr) && m0.cpu_stores(addr)
            ==> m1.cpu_readable(addr) && m1.cpu_value(addr) == value
    }

    /// A CPU read: pending DMA runs first, then one cycle passes and the bus is read.
    fn peek(&mut self, addr: u16) -> (r: u8) {
        self.dma_hijack(addr);
        self.on_cpu_cycle();
        let r = self.access(addr, AccessMode::Read);
        self.cpu_bus_log = Ghost(self.cpu_bus_log@.push(cpu::BusEvent::Read(addr, r)));
        r
    }

    /// A CPU write: one cycle passes and the bus is written.
    #[verifier::spinoff_prover]
    #[verifier::rlimit(40)]
    fn poke(&mut self, addr: u16, val: u8) {
        self.on_cpu_cycle();
        self.access(addr, AccessMode::Write(val));
        self.cpu_bus_log = Ghost(self.cpu_bus_log@.push(cpu::BusEvent::Write(addr, val)));
    }

    fn state(&self) -> (r: &cpu::State) {
        &self.nes.mos6502
    }

    fn set_regs(&mut self, regs: cpu::Registers) {
        self.nes.mos6502.regs = regs;
    }

    fn set_nmi(&mut self, value: bool) {
        self.nes.mos6502.nmi = value;
    }

    fn set_irq(&mut self, value: bool) {
        self.nes.mos6502.irq = value;
    }
}

impl Emulator {
    /// Runs the machine until the PPU completes a frame (passes dot (241, 1), counted in
    /// `frames_completed`), then releases all buttons.
    /// Stops with the fault that the machine meets; each fault comes with its cause
    /// (`fault_ok`, `vram_ok`): an instruction that halts or that the core leaves out, a
    /// cartridge access the cartridge cannot serve, a sample overrun, the frame counter at
    /// its limit, a DMA still pending after its budget, or video memory the PPU cannot
    /// reach. Without one of these the run succeeds. The loop is bounded by a million CPU
    /// steps, a bound it never reaches: every step makes a bus access, every access
    /// takes a cycle of three PPU dots, and a frame is 89342 dots.
    pub fn run_for_one_frame(&mut self) -> (r: Result<(), Fault>)
        requires
            old(self).ready(),
        ensures
            final(self).ready(),
            r.is_ok() ==> !final(self).faulted() && !final(self).nes.frame_generated
                && final(self).nes.input_1_mask.bits == 0 && final(self).nes.input_2_mask.bits == 0,
            r == match final(self).nes.fault {
                Some(f) => Err(f),
                None => if final(self).nes.ppu.vram_fault { Err(Fault::Vram) } else { Ok(()) },
            },
            old(self).faulted() ==> *final(self) == *old(self),
            !final(self).faulted() ==> r.is_ok(),
            !old(self).faulted() ==> fault_ok(*final(self)) && vram_ok(*final(self)),
            r.is_ok() && !old(self).nes.frame_generated ==> final(self).frames_completed@ > old(self).frames_completed@,
            final(self).frames_completed@ >= old(self).frames_completed@,
            cpu::log_extends(*old(self), *final(self)),
            r.is_ok() && !old(self).nes.frame_generated ==> final(self).cpu_bus_log@.len() > old(self).cpu_bus_log@.len(),
    {
        proof { cpu::lemma_log_extends_trans(*self, *self, *self); }
        match self.nes.fault {
            Some(f) => return Err(f),
            None => {},
        }
        if self.nes.ppu.vram_fault {
            return Err(Fault::Vram);
        }
        if self.nes.frame_generated {
            self.nes.frame_generated = false;
            self.clear_input_mask();
            return Ok(());
        }
        proof { ppu::lemma_frame_distance_step(self.nes.ppu); }
        let ghost d0 = frame_dist(*self);
        let ghost l0 = self.cpu_bus_log@.len() as int;
        self.frame_mark = Ghost(d0 + 3 * l0);
        self.frame_base = Ghost(self.frames_completed@);
        self.faults_checked = Ghost(true);
        proof { cpu::lemma_log_extends_trans(*old(self), *self, *self); }
        let mut budget: usize = 1_000_000;
        while !self.nes.frame_generated
            invariant
                self.ready(),
                progress_ok(*self),
                frame_counted(*self),
                self.frame_base@ == old(self).frames_completed@,
                self.faults_checked@,
                fault_ok(*self),
                vram_ok(*self),
                self.nes.frame_generated ==> self.cpu_bus_log@.len() > l0,
                cpu::log_extends(*old(self), *self),
                self.frame_mark@ == d0 + 3 * l0,
                0 <= d0 < 89342,
                !self.nes.frame_generated ==> self.cpu_bus_log@.len() >= l0 + (1_000_000 - budget),
                budget <= 1_000_000,
            ensures
                self.nes.frame_generated || self.nes.fault.is_some() || self.nes.ppu.vram_fault || budget == 0,
            decreases budget,
        {
            if self.nes.fault.is_some() || self.nes.ppu.vram_fault || budget == 0 {
                break;
            }
            budget = budget - 1;
            let ghost before = *self;
            let res = cpu::step(self);
            proof {
                let t = cpu::new_events(before, *self);
                assert(t.len() >= 1);
                cpu::lemma_log_extends_trans(*old(self), before, *self);
            }
            match res {
                Ok(_) => {},
                Err(e) => {
                    self.record_fault(Fault::Cpu(e));
                },
            }
        }
        match self.nes.fault {
            Some(f) => return Err(f),
            None => {},
        }
        if self.nes.ppu.vram_fault {
            return Err(Fault::Vram);
        }
        assert(self.nes.frame_generated);
        self.nes.frame_generated = false;
        self.clear_input_mask();
        Ok(())
    }

    /// Resets the CPU: the stack pointer goes to $FD and PC to the reset vector.
    pub fn reset(&mut self)
        requires
            old(self).ready(),
        ensures
            final(self).ready(),
            cpu::log_extends(*old(self), *final(self)),
            ({
                let t = cpu::new_events(*old(self), *final(self));
                &&& t == seq![cpu::rd(t, 0, cpu::INT_RESET_ADDRESS), cpu::rd(t, 1, (cpu::INT_RESET_ADDRESS + 1) as u16)]
                &&& final(self).nes.mos6502.regs == cpu::reset_regs(old(self).nes.mos6502.regs, cpu::word_at(t, 0, 1))
            }),
    {
        self.frame_mark = Ghost(frame_dist(*self) + 3 * self.cpu_bus_log@.len());
        self.frame_base = Ghost(if self.nes.frame_generated { self.frames_completed@ - 1 } else { self.frames_completed@ });
        self.faults_checked = Ghost(false);
        cpu::reset(self);
    }
}

/// A controller reports its buttons one per read, from A (bit 7) down to right (bit 0).
pub proof fn lemma_controller_order(mask: u8, offset: usize)
    requires
        offset < 8,
    ensures
        controller_bit(mask, offset) == (mask >> (7 - offset) as u8) & 1,
{
    let o = offset as u8;
    assert(o < 8 ==> (if (mask << o) & 0x80 == 0 { 0u8 } else { 1u8 }) == (mask >> (7 - o) as u8) & 1) by (bit_vector);
}

/// Internal RAM is 2 KiB seen four times over $0000-$1FFF: a CPU write followed by a
/// read of any of the four mirrors of the same byte gives the byte written, and reads
/// of other bytes are unchanged.
pub proof fn lemma_ram_write_then_read(ram: Seq<u8>, w: u16, r: u16, v: u8)
    requires
        ram.len() == 0x800,
        w < 0x2000,
        r < 0x2000,
    ensures
        w % 0x800 == r % 0x800 ==> ram.update(w as int % 0x800, v)[r as int % 0x800] == v,
        w % 0x800 != r % 0x800 ==> ram.update(w as int % 0x800, v)[r as int % 0x800] == ram[r as int % 0x800],
        ram.update(w as int % 0x800, v).len() == 0x800,
{
}

} // verus!
