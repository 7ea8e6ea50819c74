//! The 6502 core of the NES (2A03, without decimal mode): registers, the decoding of
//! the 256 opcodes, the arithmetic and logic of each instruction, the addressing modes
//! with their bus cycles, and interrupts.
use vstd::prelude::*;

verus! {

pub const FLAG_C: u8 = 0b0000_0001;
pub const FLAG_Z: u8 = 0b0000_0010;
pub const FLAG_I: u8 = 0b0000_0100;
pub const FLAG_D: u8 = 0b0000_1000;
pub const FLAG_B: u8 = 0b0001_0000;
pub const FLAG_U: u8 = 0b0010_0000;
pub const FLAG_V: u8 = 0b0100_0000;
pub const FLAG_N: u8 = 0b1000_0000;

pub const INT_NMI_ADDRESS: u16 = 0xFFFA;
pub const INT_IRQ_BRK_ADDRESS: u16 = 0xFFFE;
pub const INT_RESET_ADDRESS: u16 = 0xFFFC;

/// The status register: carry, zero, interrupt disable, decimal, break, unused,
/// overflow and negative, from bit 0 up.
#[derive(Clone, Copy, PartialEq, Eq, Structural, Debug)]
pub struct Flags {
    pub bits: u8,
}

impl Flags {
    /// Whether all the bits of `mask` are set.
    pub open spec fn has(self, mask: u8) -> bool {
        self.bits & mask == mask
    }

    /// The flags with the bits of `mask` set or cleared.
    pub open spec fn with(self, mask: u8, value: bool) -> Flags {
        Flags { bits: if value { self.bits | mask } else { self.bits & !mask } }
    }

    pub fn contains(&self, mask: u8) -> (r: bool)
        ensures
            r == self.has(mask),
    {
        self.bits & mask == mask
    }

    pub fn set(&mut self, mask: u8, value: bool)
        ensures
            *final(self) == old(self).with(mask, value),
    {
        if value {
            self.bits = self.bits | mask;
        } else {
            self.bits = self.bits & !mask;
        }
    }
}

/// The registers: accumulator, index registers, stack pointer, program counter and status.
#[derive(Clone, Copy, PartialEq, Eq, Structural, Debug)]
pub struct Registers {
    pub A: u8,
    pub X: u8,
    pub Y: u8,
    pub SP: u8,
    pub PC: u16,
    pub P: Flags,
}

/// The registers with the program counter moved on by `n` bytes (wrapping).
pub open spec fn pc_plus(r: Registers, n: int) -> Registers {
    Registers { PC: ((r.PC + n) % 65536) as u16, ..r }
}

impl Registers {
    /// The registers at power-up: the stack pointer at $FD, interrupts disabled.
    pub fn new() -> (r: Self)
        ensures
            r == (Registers { A: 0, X: 0, Y: 0, SP: 0xFD, PC: 0, P: Flags { bits: 0b0010_0100 } }),
    {
        Registers { A: 0, X: 0, Y: 0, SP: 0xFD, PC: 0, P: Flags { bits: 0b0010_0100 } }
    }

    /// The negative and zero flags set from `x`.
    pub open spec fn nz(self, x: u8) -> Registers {
        Registers { P: self.P.with(FLAG_N, x & 0x80 != 0).with(FLAG_Z, x == 0), ..self }
    }

    pub fn set_nz(&mut self, x: u8) -> (r: u8)
        ensures
            *final(self) == old(self).nz(x),
            r == x,
    {
        self.P.set(FLAG_N, x & 0x80 != 0);
        self.P.set(FLAG_Z, x == 0);
        x
    }

    /// The carry and overflow flags of the sum `r` of `x` and `y` (and the carry in).
    pub open spec fn cv(self, x: u8, y: u8, r: u16) -> Registers {
        Registers {
            P: self.P.with(FLAG_C, r > 0xff).with(FLAG_V, (x ^ y) & 0x80 == 0 && (x as u16 ^ r) & 0x80 == 0x80),
            ..self
        }
    }

    pub fn set_cv(&mut self, x: u8, y: u8, r: u16)
        ensures
            *final(self) == old(self).cv(x, y, r),
    {
        self.P.set(FLAG_C, r > 0xff);
        self.P.set(FLAG_V, (x ^ y) & 0x80 == 0 && (x as u16 ^ r) & 0x80 == 0x80);
    }

    /// The carry flag as 0 or 1.
    pub open spec fn carry(self) -> u8 {
        if self.P.has(FLAG_C) { 1 } else { 0 }
    }

    pub fn get_c_as_u8(&self) -> (r: u8)
        ensures
            r == self.carry(),
    {
        if self.P.contains(FLAG_C) { 1 } else { 0 }
    }

    /// Addition with carry of `val` to the accumulator, setting N, Z, C and V.
    pub open spec fn added(self, val: u8) -> Registers {
        let sum = (self.A + val + self.carry()) as u16;
        let res = (sum % 256) as u8;
        Registers { A: res, ..self.cv(self.A, val, sum).nz(res) }
    }

    pub fn add_with_carry(&mut self, val: u8)
        ensures
            *final(self) == old(self).added(val),
    {
        let sum: u16 = (self.A as u16) + (val as u16) + (self.get_c_as_u8() as u16);
        let a = self.A;
        self.set_cv(a, val, sum);
        let res: u8 = (sum % 256) as u8;
        self.A = self.set_nz(res);
    }
}

/// The CPU: registers and the two interrupt lines.
#[derive(Clone, Copy, PartialEq, Eq, Structural, Debug)]
pub struct State {
    pub regs: Registers,
    pub nmi: bool,
    pub irq: bool,
}

impl State {
    pub fn new() -> (s: Self)
        ensures
            s.regs == Registers::new_spec(),
            !s.nmi,
            !s.irq,
    {
        State { regs: Registers::new(), nmi: false, irq: false }
    }
}

impl Registers {
    pub open spec fn new_spec() -> Registers {
        Registers { A: 0, X: 0, Y: 0, SP: 0xFD, PC: 0, P: Flags { bits: 0b0010_0100 } }
    }
}

/// A bus access as the CPU makes it: a read of an address and the byte it gave, or a
/// write of a byte to an address.
#[derive(Clone, Copy, PartialEq, Eq, Structural, Debug)]
pub enum BusEvent {
    Read(u16, u8),
    Write(u16, u8),
}

/// The machine around the CPU: its bus, where every access takes one cycle, and the
/// place that holds the CPU state. The bus may raise the interrupt lines; it never
/// changes the registers.
pub trait Context: Sized {
    /// The machine is in a state in which it can run.
    spec fn bus_ready(&self) -> bool;

    /// The CPU state that the machine holds.
    spec fn cpu(&self) -> State;

    /// The bus accesses that the CPU has made, oldest first.
    spec fn bus_log(&self) -> Seq<BusEvent>;

    /// Ghost quantities of the machine's own that the CPU's work leaves as they are.
    spec fn ledger(&self) -> (int, int, bool);

    /// `after` is the machine after a CPU read of `addr` from this one that gave `value`.
    spec fn read_done(&self, after: Self, addr: u16, value: u8) -> bool;

    /// `after` is the machine after a CPU write of `value` to `addr` from this one.
    spec fn write_done(&self, after: Self, addr: u16, value: u8) -> bool;

    fn peek(&mut self, addr: u16) -> (r: u8)
        requires
            old(self).bus_ready(),
        ensures
            final(self).bus_ready(),
            final(self).cpu().regs == old(self).cpu().regs,
            old(self).read_done(*final(self), addr, r),
            final(self).bus_log() == old(self).bus_log().push(BusEvent::Read(addr, r)),
            final(self).ledger() == old(self).ledger(),
    ;

    fn poke(&mut self, addr: u16, val: u8)
        requires
            old(self).bus_ready(),
        ensures
            final(self).bus_ready(),
            final(self).cpu().regs == old(self).cpu().regs,
            old(self).write_done(*final(self), addr, val),
            final(self).bus_log() == old(self).bus_log().push(BusEvent::Write(addr, val)),
            final(self).ledger() == old(self).ledger(),
    ;

    fn state(&self) -> (r: &State)
        ensures
            *r == self.cpu(),
    ;

    fn set_regs(&mut self, regs: Registers)
        requires
            old(self).bus_ready(),
        ensures
            final(self).bus_ready(),
            final(self).cpu() == (State { regs, ..old(self).cpu() }),
            final(self).bus_log() == old(self).bus_log(),
            final(self).ledger() == old(self).ledger(),
    ;

    fn set_nmi(&mut self, value: bool)
        requires
            old(self).bus_ready(),
        ensures
            final(self).bus_ready(),
            final(self).cpu() == (State { nmi: value, ..old(self).cpu() }),
            final(self).bus_log() == old(self).bus_log(),
            final(self).ledger() == old(self).ledger(),
    ;

    fn set_irq(&mut self, value: bool)
        requires
            old(self).bus_ready(),
        ensures
            final(self).bus_ready(),
            final(self).cpu() == (State { irq: value, ..old(self).cpu() }),
            final(self).bus_log() == old(self).bus_log(),
            final(self).ledger() == old(self).ledger(),
    ;
}

#[derive(Clone, Copy, PartialEq, Eq, Structural, Debug)]
pub enum AddressingMode {
    IMM,
    ACC,
    ABS,
    ABX,
    ABY,
    ZPG,
    ZPX,
    ZPY,
    IZX,
    IZY,
    IMP,
    IND,
    REL,
}

#[derive(Clone, Copy, PartialEq, Eq, Structural, Debug)]
pub enum Instruction {
    NOP, LDA, LDX, LDY, CMP, CPX, CPY, ADC, SBC, BIT, AND, EOR, ORA, ASL, LSR,
    ROL, ROR, INC, DEC, STA, STX, STY, BCC, BCS, BNE, BEQ, BPL, BMI, BVC, BVS,
    INX, INY, DEX, DEY, TXA, TYA, TAX, TAY, TXS, TSX, CLC, CLI, CLV, CLD, SEC,
    SEI, SED, JMP, PLP, PLA, PHP, PHA, RTI, RTS, BRK, JSR, KIL, ISC, DCP, AXS,
    LAS, LAX, AHX, SAX, XAA, SHX, RRA, TAS, SHY, ARR, SRE, ALR, RLA, ANC, SLO,
}

/// The bus work of an instruction: reading an operand, reading and writing one back,
/// writing a register, a branch on a flag, a change of registers alone, or one of the
/// control instructions.
#[derive(Clone, Copy, PartialEq, Eq, Structural, Debug)]
pub enum Operation {
    Read,
    ReadModifyWrite,
    Write,
    BranchOn(Flags, bool),
    SetRegister,
    PLP,
    PLA,
    PHP,
    PHA,
    RTI,
    RTS,
    BRK,
    JSR,
    JMP,
    Unimplemented,
    Kill,
}

/// Why the CPU stopped.
#[derive(Clone, Copy, PartialEq, Eq, Structural, Debug)]
pub enum CpuFault {
    /// A KIL opcode was executed.
    Kill,
    /// An unofficial opcode that this core does not implement.
    Unimplemented,
    /// An operation that the addressing mode does not take.
    InvalidMode,
}

/// The instruction and addressing mode of each opcode.
pub open spec fn decoded(opcode: u8) -> (Instruction, AddressingMode) {
    match opcode {
        0x00 => (Instruction::BRK, AddressingMode::IMP),
        0x01 => (Instruction::ORA, AddressingMode::IZX),
        0x02 => (Instruction::KIL, AddressingMode::IMP),
        0x03 => (Instruction::SLO, AddressingMode::IZX),
        0x04 => (Instruction::NOP, AddressingMode::ZPG),
        0x05 => (Instruction::ORA, AddressingMode::ZPG),
        0x06 => (Instruction::ASL, AddressingMode::ZPG),
        0x07 => (Instruction::SLO, AddressingMode::ZPG),
        0x08 => (Instruction::PHP, AddressingMode::IMP),
        0x09 => (Instruction::ORA, AddressingMode::IMM),
        0x0A => (Instruction::ASL, AddressingMode::ACC),
        0x0B => (Instruction::ANC, AddressingMode::IMM),
        0x0C => (Instruction::NOP, AddressingMode::ABS),
        0x0D => (Instruction::ORA, AddressingMode::ABS),
        0x0E => (Instruction::ASL, AddressingMode::ABS),
        0x0F => (Instruction::SLO, AddressingMode::ABS),
        0x10 => (Instruction::BPL, AddressingMode::REL),
        0x11 => (Instruction::ORA, AddressingMode::IZY),
        0x12 => (Instruction::KIL, AddressingMode::IMP),
        0x13 => (Instruction::SLO, AddressingMode::IZY),
        0x14 => (Instruction::NOP, AddressingMode::ZPX),
        0x15 => (Instruction::ORA, AddressingMode::ZPX),
        0x16 => (Instruction::ASL, AddressingMode::ZPX),
        0x17 => (Instruction::SLO, AddressingMode::ZPX),
        0x18 => (Instruction::CLC, AddressingMode::IMP),
        0x19 => (Instruction::ORA, AddressingMode::ABY),
        0x1A => (Instruction::NOP, AddressingMode::IMP),
        0x1B => (Instruction::SLO, AddressingMode::ABY),
        0x1C => (Instruction::NOP, AddressingMode::ABX),
        0x1D => (Instruction::ORA, AddressingMode::ABX),
        0x1E => (Instruction::ASL, AddressingMode::ABX),
        0x1F => (Instruction::SLO, AddressingMode::ABX),
        0x20 => (Instruction::JSR, AddressingMode::ABS),
        0x21 => (Instruction::AND, AddressingMode::IZX),
        0x22 => (Instruction::KIL, AddressingMode::IMP),
        0x23 => (Instruction::RLA, AddressingMode::IZX),
        0x24 => (Instruction::BIT, AddressingMode::ZPG),
        0x25 => (Instruction::AND, AddressingMode::ZPG),
        0x26 => (Instruction::ROL, AddressingMode::ZPG),
        0x27 => (Instruction::RLA, AddressingMode::ZPG),
        0x28 => (Instruction::PLP, AddressingMode::IMP),
        0x29 => (Instruction::AND, AddressingMode::IMM),
        0x2A => (Instruction::ROL, AddressingMode::ACC),
        0x2B => (Instruction::ANC, AddressingMode::IMM),
        0x2C => (Instruction::BIT, AddressingMode::ABS),
        0x2D => (Instruction::AND, AddressingMode::ABS),
        0x2E => (Instruction::ROL, AddressingMode::ABS),
        0x2F => (Instruction::RLA, AddressingMode::ABS),
        0x30 => (Instruction::BMI, AddressingMode::REL),
        0x31 => (Instruction::AND, AddressingMode::IZY),
        0x32 => (Instruction::KIL, AddressingMode::IMP),
        0x33 => (Instruction::RLA, AddressingMode::IZY),
        0x34 => (Instruction::NOP, AddressingMode::ZPX),
        0x35 => (Instruction::AND, AddressingMode::ZPX),
        0x36 => (Instruction::ROL, AddressingMode::ZPX),
        0x37 => (Instruction::RLA, AddressingMode::ZPX),
        0x38 => (Instruction::SEC, AddressingMode::IMP),
        0x39 => (Instruction::AND, AddressingMode::ABY),
        0x3A => (Instruction::NOP, AddressingMode::IMP),
        0x3B => (Instruction::RLA, AddressingMode::ABY),
        0x3C => (Instruction::NOP, AddressingMode::ABX),
        0x3D => (Instruction::AND, AddressingMode::ABX),
        0x3E => (Instruction::ROL, AddressingMode::ABX),
        0x3F => (Instruction::RLA, AddressingMode::ABX),
        0x40 => (Instruction::RTI, AddressingMode::IMP),
        0x41 => (Instruction::EOR, AddressingMode::IZX),
        0x42 => (Instruction::KIL, AddressingMode::IMP),
        0x43 => (Instruction::SRE, AddressingMode::IZX),
        0x44 => (Instruction::NOP, AddressingMode::ZPG),
        0x45 => (Instruction::EOR, AddressingMode::ZPG),
        0x46 => (Instruction::LSR, AddressingMode::ZPG),
        0x47 => (Instruction::SRE, AddressingMode::ZPG),
        0x48 => (Instruction::PHA, AddressingMode::IMP),
        0x49 => (Instruction::EOR, AddressingMode::IMM),
        0x4A => (Instruction::LSR, AddressingMode::ACC),
        0x4B => (Instruction::ALR, AddressingMode::IMM),
        0x4C => (Instruction::JMP, AddressingMode::ABS),
        0x4D => (Instruction::EOR, AddressingMode::ABS),
        0x4E => (Instruction::LSR, AddressingMode::ABS),
        0x4F => (Instruction::SRE, AddressingMode::ABS),
        0x50 => (Instruction::BVC, AddressingMode::REL),
        0x51 => (Instruction::EOR, AddressingMode::IZY),
        0x52 => (Instruction::KIL, AddressingMode::IMP),
        0x53 => (Instruction::SRE, AddressingMode::IZY),
        0x54 => (Instruction::NOP, AddressingMode::ZPX),
        0x55 => (Instruction::EOR, AddressingMode::ZPX),
        0x56 => (Instruction::LSR, AddressingMode::ZPX),
        0x57 => (Instruction::SRE, AddressingMode::ZPX),
        0x58 => (Instruction::CLI, AddressingMode::IMP),
        0x59 => (Instruction::EOR, AddressingMode::ABY),
        0x5A => (Instruction::NOP, AddressingMode::IMP),
        0x5B => (Instruction::SRE, AddressingMode::ABY),
        0x5C => (Instruction::NOP, AddressingMode::ABX),
        0x5D => (Instruction::EOR, AddressingMode::ABX),
        0x5E => (Instruction::LSR, AddressingMode::ABX),
        0x5F => (Instruction::SRE, AddressingMode::ABX),
        0x60 => (Instruction::RTS, AddressingMode::IMP),
        0x61 => (Instruction::ADC, AddressingMode::IZX),
        0x62 => (Instruction::KIL, AddressingMode::IMP),
        0x63 => (Instruction::RRA, AddressingMode::IZX),
        0x64 => (Instruction::NOP, AddressingMode::ZPG),
        0x65 => (Instruction::ADC, AddressingMode::ZPG),
        0x66 => (Instruction::ROR, AddressingMode::ZPG),
        0x67 => (Instruction::RRA, AddressingMode::ZPG),
        0x68 => (Instruction::PLA, AddressingMode::IMP),
        0x69 => (Instruction::ADC, AddressingMode::IMM),
        0x6A => (Instruction::ROR, AddressingMode::ACC),
        0x6B => (Instruction::ARR, AddressingMode::IMM),
        0x6C => (Instruction::JMP, AddressingMode::IND),
        0x6D => (Instruction::ADC, AddressingMode::ABS),
        0x6E => (Instruction::ROR, AddressingMode::ABS),
        0x6F => (Instruction::RRA, AddressingMode::ABS),
        0x70 => (Instruction::BVS, AddressingMode::REL),
        0x71 => (Instruction::ADC, AddressingMode::IZY),
        0x72 => (Instruction::KIL, AddressingMode::IMP),
        0x73 => (Instruction::RRA, AddressingMode::IZY),
        0x74 => (Instruction::NOP, AddressingMode::ZPX),
        0x75 => (Instruction::ADC, AddressingMode::ZPX),
        0x76 => (Instruction::ROR, AddressingMode::ZPX),
        0x77 => (Instruction::RRA, AddressingMode::ZPX),
        0x78 => (Instruction::SEI, AddressingMode::IMP),
        0x79 => (Instruction::ADC, AddressingMode::ABY),
        0x7A => (Instruction::NOP, AddressingMode::IMP),
        0x7B => (Instruction::RRA, AddressingMode::ABY),
        0x7C => (Instruction::NOP, AddressingMode::ABX),
        0x7D => (Instruction::ADC, AddressingMode::ABX),
        0x7E => (Instruction::ROR, AddressingMode::ABX),
        0x7F => (Instruction::RRA, AddressingMode::ABX),
        0x80 => (Instruction::NOP, AddressingMode::IMM),
        0x81 => (Instruction::STA, AddressingMode::IZX),
        0x82 => (Instruction::NOP, AddressingMode::IMM),
        0x83 => (Instruction::SAX, AddressingMode::IZX),
        0x84 => (Instruction::STY, AddressingMode::ZPG),
        0x85 => (Instruction::STA, AddressingMode::ZPG),
        0x86 => (Instruction::STX, AddressingMode::ZPG),
        0x87 => (Instruction::SAX, AddressingMode::ZPG),
        0x88 => (Instruction::DEY, AddressingMode::IMP),
        0x89 => (Instruction::NOP, AddressingMode::IMM),
        0x8A => (Instruction::TXA, AddressingMode::IMP),
        0x8B => (Instruction::XAA, AddressingMode::IMM),
        0x8C => (Instruction::STY, AddressingMode::ABS),
        0x8D => (Instruction::STA, AddressingMode::ABS),
        0x8E => (Instruction::STX, AddressingMode::ABS),
        0x8F => (Instruction::SAX, AddressingMode::ABS),
        0x90 => (Instruction::BCC, AddressingMode::REL),
        0x91 => (Instruction::STA, AddressingMode::IZY),
        0x92 => (Instruction::KIL, AddressingMode::IMP),
        0x93 => (Instruction::AHX, AddressingMode::IZY),
        0x94 => (Instruction::STY, AddressingMode::ZPX),
        0x95 => (Instruction::STA, AddressingMode::ZPX),
        0x96 => (Instruction::STX, AddressingMode::ZPY),
        0x97 => (Instruction::SAX, AddressingMode::ZPY),
        0x98 => (Instruction::TYA, AddressingMode::IMP),
        0x99 => (Instruction::STA, AddressingMode::ABY),
        0x9A => (Instruction::TXS, AddressingMode::IMP),
        0x9B => (Instruction::TAS, AddressingMode::ABY),
        0x9C => (Instruction::SHY, AddressingMode::ABX),
        0x9D => (Instruction::STA, AddressingMode::ABX),
        0x9E => (Instruction::SHX, AddressingMode::ABY),
        0x9F => (Instruction::AHX, AddressingMode::ABY),
        0xA0 => (Instruction::LDY, AddressingMode::IMM),
        0xA1 => (Instruction::LDA, AddressingMode::IZX),
        0xA2 => (Instruction::LDX, AddressingMode::IMM),
        0xA3 => (Instruction::LAX, AddressingMode::IZX),
        0xA4 => (Instruction::LDY, AddressingMode::ZPG),
        0xA5 => (Instruction::LDA, AddressingMode::ZPG),
        0xA6 => (Instruction::LDX, AddressingMode::ZPG),
        0xA7 => (Instruction::LAX, AddressingMode::ZPG),
        0xA8 => (Instruction::TAY, AddressingMode::IMP),
        0xA9 => (Instruction::LDA, AddressingMode::IMM),
        0xAA => (Instruction::TAX, AddressingMode::IMP),
        0xAB => (Instruction::LAX, AddressingMode::IMM),
        0xAC => (Instruction::LDY, AddressingMode::ABS),
        0xAD => (Instruction::LDA, AddressingMode::ABS),
        0xAE => (Instruction::LDX, AddressingMode::ABS),
        0xAF => (Instruction::LAX, AddressingMode::ABS),
        0xB0 => (Instruction::BCS, AddressingMode::REL),
        0xB1 => (Instruction::LDA, AddressingMode::IZY),
        0xB2 => (Instruction::KIL, AddressingMode::IMP),
        0xB3 => (Instruction::LAX, AddressingMode::IZY),
        0xB4 => (Instruction::LDY, AddressingMode::ZPX),
        0xB5 => (Instruction::LDA, AddressingMode::ZPX),
        0xB6 => (Instruction::LDX, AddressingMode::ZPY),
        0xB7 => (Instruction::LAX, AddressingMode::ZPY),
        0xB8 => (Instruction::CLV, AddressingMode::IMP),
        0xB9 => (Instruction::LDA, AddressingMode::ABY),
        0xBA => (Instruction::TSX, AddressingMode::IMP),
        0xBB => (Instruction::LAS, AddressingMode::ABY),
        0xBC => (Instruction::LDY, AddressingMode::ABX),
        0xBD => (Instruction::LDA, AddressingMode::ABX),
        0xBE => (Instruction::LDX, AddressingMode::ABY),
        0xBF => (Instruction::LAX, AddressingMode::ABY),
        0xC0 => (Instruction::CPY, AddressingMode::IMM),
        0xC1 => (Instruction::CMP, AddressingMode::IZX),
        0xC2 => (Instruction::NOP, AddressingMode::IMM),
        0xC3 => (Instruction::DCP, AddressingMode::IZX),
        0xC4 => (Instruction::CPY, AddressingMode::ZPG),
        0xC5 => (Instruction::CMP, AddressingMode::ZPG),
        0xC6 => (Instruction::DEC, AddressingMode::ZPG),
        0xC7 => (Instruction::DCP, AddressingMode::ZPG),
        0xC8 => (Instruction::INY, AddressingMode::IMP),
        0xC9 => (Instruction::CMP, AddressingMode::IMM),
        0xCA => (Instruction::DEX, AddressingMode::IMP),
        0xCB => (Instruction::AXS, AddressingMode::IMM),
        0xCC => (Instruction::CPY, AddressingMode::ABS),
        0xCD => (Instruction::CMP, AddressingMode::ABS),
        0xCE => (Instruction::DEC, AddressingMode::ABS),
        0xCF => (Instruction::DCP, AddressingMode::ABS),
        0xD0 => (Instruction::BNE, AddressingMode::REL),
        0xD1 => (Instruction::CMP, AddressingMode::IZY),
        0xD2 => (Instruction::KIL, AddressingMode::IMP),
        0xD3 => (Instruction::DCP, AddressingMode::IZY),
        0xD4 => (Instruction::NOP, AddressingMode::ZPX),
        0xD5 => (Instruction::CMP, AddressingMode::ZPX),
        0xD6 => (Instruction::DEC, AddressingMode::ZPX),
        0xD7 => (Instruction::DCP, AddressingMode::ZPX),
        0xD8 => (Instruction::CLD, AddressingMode::IMP),
        0xD9 => (Instruction::CMP, AddressingMode::ABY),
        0xDA => (Instruction::NOP, AddressingMode::IMP),
        0xDB => (Instruction::DCP, AddressingMode::ABY),
        0xDC => (Instruction::NOP, AddressingMode::ABX),
        0xDD => (Instruction::CMP, AddressingMode::ABX),
        0xDE => (Instruction::DEC, AddressingMode::ABX),
        0xDF => (Instruction::DCP, AddressingMode::ABX),
        0xE0 => (Instruction::CPX, AddressingMode::IMM),
        0xE1 => (Instruction::SBC, AddressingMode::IZX),
        0xE2 => (Instruction::NOP, AddressingMode::IMM),
        0xE3 => (Instruction::ISC, AddressingMode::IZX),
        0xE4 => (Instruction::CPX, AddressingMode::ZPG),
        0xE5 => (Instruction::SBC, AddressingMode::ZPG),
        0xE6 => (Instruction::INC, AddressingMode::ZPG),
        0xE7 => (Instruction::ISC, AddressingMode::ZPG),
        0xE8 => (Instruction::INX, AddressingMode::IMP),
        0xE9 => (Instruction::SBC, AddressingMode::IMM),
        0xEA => (Instruction::NOP, AddressingMode::IMP),
        0xEB => (Instruction::SBC, AddressingMode::IMM),
        0xEC => (Instruction::CPX, AddressingMode::ABS),
        0xED => (Instruction::SBC, AddressingMode::ABS),
        0xEE => (Instruction::INC, AddressingMode::ABS),
        0xEF => (Instruction::ISC, AddressingMode::ABS),
        0xF0 => (Instruction::BEQ, AddressingMode::REL),
        0xF1 => (Instruction::SBC, AddressingMode::IZY),
        0xF2 => (Instruction::KIL, AddressingMode::IMP),
        0xF3 => (Instruction::ISC, AddressingMode::IZY),
        0xF4 => (Instruction::NOP, AddressingMode::ZPX),
        0xF5 => (Instruction::SBC, AddressingMode::ZPX),
        0xF6 => (Instruction::INC, AddressingMode::ZPX),
        0xF7 => (Instruction::ISC, AddressingMode::ZPX),
        0xF8 => (Instruction::SED, AddressingMode::IMP),
        0xF9 => (Instruction::SBC, AddressingMode::ABY),
        0xFA => (Instruction::NOP, AddressingMode::IMP),
        0xFB => (Instruction::ISC, AddressingMode::ABY),
        0xFC => (Instruction::NOP, AddressingMode::ABX),
        0xFD => (Instruction::SBC, AddressingMode::ABX),
        0xFE => (Instruction::INC, AddressingMode::ABX),
        _ => (Instruction::ISC, AddressingMode::ABX),
    }
}

/// Decodes an opcode.
pub fn decode(opcode: u8) -> (r: (Instruction, AddressingMode))
    ensures
        r == decoded(opcode),
{
    match opcode {
        0x00 => (Instruction::BRK, AddressingMode::IMP),
        0x01 => (Instruction::ORA, AddressingMode::IZX),
        0x02 => (Instruction::KIL, AddressingMode::IMP),
        0x03 => (Instruction::SLO, AddressingMode::IZX),
        0x04 => (Instruction::NOP, AddressingMode::ZPG),
        0x05 => (Instruction::ORA, AddressingMode::ZPG),
        0x06 => (Instruction::ASL, AddressingMode::ZPG),
        0x07 => (Instruction::SLO, AddressingMode::ZPG),
        0x08 => (Instruction::PHP, AddressingMode::IMP),
        0x09 => (Instruction::ORA, AddressingMode::IMM),
        0x0A => (Instruction::ASL, AddressingMode::ACC),
        0x0B => (Instruction::ANC, AddressingMode::IMM),
        0x0C => (Instruction::NOP, AddressingMode::ABS),
        0x0D => (Instruction::ORA, AddressingMode::ABS),
        0x0E => (Instruction::ASL, AddressingMode::ABS),
        0x0F => (Instruction::SLO, AddressingMode::ABS),
        0x10 => (Instruction::BPL, AddressingMode::REL),
        0x11 => (Instruction::ORA, AddressingMode::IZY),
        0x12 => (Instruction::KIL, AddressingMode::IMP),
        0x13 => (Instruction::SLO, AddressingMode::IZY),
        0x14 => (Instruction::NOP, AddressingMode::ZPX),
        0x15 => (Instruction::ORA, AddressingMode::ZPX),
        0x16 => (Instruction::ASL, AddressingMode::ZPX),
        0x17 => (Instruction::SLO, AddressingMode::ZPX),
        0x18 => (Instruction::CLC, AddressingMode::IMP),
        0x19 => (Instruction::ORA, AddressingMode::ABY),
        0x1A => (Instruction::NOP, AddressingMode::IMP),
        0x1B => (Instruction::SLO, AddressingMode::ABY),
        0x1C => (Instruction::NOP, AddressingMode::ABX),
        0x1D => (Instruction::ORA, AddressingMode::ABX),
        0x1E => (Instruction::ASL, AddressingMode::ABX),
        0x1F => (Instruction::SLO, AddressingMode::ABX),
        0x20 => (Instruction::JSR, AddressingMode::ABS),
        0x21 => (Instruction::AND, AddressingMode::IZX),
        0x22 => (Instruction::KIL, AddressingMode::IMP),
        0x23 => (Instruction::RLA, AddressingMode::IZX),
        0x24 => (Instruction::BIT, AddressingMode::ZPG),
        0x25 => (Instruction::AND, AddressingMode::ZPG),
        0x26 => (Instruction::ROL, AddressingMode::ZPG),
        0x27 => (Instruction::RLA, AddressingMode::ZPG),
        0x28 => (Instruction::PLP, AddressingMode::IMP),
        0x29 => (Instruction::AND, AddressingMode::IMM),
        0x2A => (Instruction::ROL, AddressingMode::ACC),
        0x2B => (Instruction::ANC, AddressingMode::IMM),
        0x2C => (Instruction::BIT, AddressingMode::ABS),
        0x2D => (Instruction::AND, AddressingMode::ABS),
        0x2E => (Instruction::ROL, AddressingMode::ABS),
        0x2F => (Instruction::RLA, AddressingMode::ABS),
        0x30 => (Instruction::BMI, AddressingMode::REL),
        0x31 => (Instruction::AND, AddressingMode::IZY),
        0x32 => (Instruction::KIL, AddressingMode::IMP),
        0x33 => (Instruction::RLA, AddressingMode::IZY),
        0x34 => (Instruction::NOP, AddressingMode::ZPX),
        0x35 => (Instruction::AND, AddressingMode::ZPX),
        0x36 => (Instruction::ROL, AddressingMode::ZPX),
        0x37 => (Instruction::RLA, AddressingMode::ZPX),
        0x38 => (Instruction::SEC, AddressingMode::IMP),
        0x39 => (Instruction::AND, AddressingMode::ABY),
        0x3A => (Instruction::NOP, AddressingMode::IMP),
        0x3B => (Instruction::RLA, AddressingMode::ABY),
        0x3C => (Instruction::NOP, AddressingMode::ABX),
        0x3D => (Instruction::AND, AddressingMode::ABX),
        0x3E => (Instruction::ROL, AddressingMode::ABX),
        0x3F => (Instruction::RLA, AddressingMode::ABX),
        0x40 => (Instruction::RTI, AddressingMode::IMP),
        0x41 => (Instruction::EOR, AddressingMode::IZX),
        0x42 => (Instruction::KIL, AddressingMode::IMP),
        0x43 => (Instruction::SRE, AddressingMode::IZX),
        0x44 => (Instruction::NOP, AddressingMode::ZPG),
        0x45 => (Instruction::EOR, AddressingMode::ZPG),
        0x46 => (Instruction::LSR, AddressingMode::ZPG),
        0x47 => (Instruction::SRE, AddressingMode::ZPG),
        0x48 => (Instruction::PHA, AddressingMode::IMP),
        0x49 => (Instruction::EOR, AddressingMode::IMM),
        0x4A => (Instruction::LSR, AddressingMode::ACC),
        0x4B => (Instruction::ALR, AddressingMode::IMM),
        0x4C => (Instruction::JMP, AddressingMode::ABS),
        0x4D => (Instruction::EOR, AddressingMode::ABS),
        0x4E => (Instruction::LSR, AddressingMode::ABS),
        0x4F => (Instruction::SRE, AddressingMode::ABS),
        0x50 => (Instruction::BVC, AddressingMode::REL),
        0x51 => (Instruction::EOR, AddressingMode::IZY),
        0x52 => (Instruction::KIL, AddressingMode::IMP),
        0x53 => (Instruction::SRE, AddressingMode::IZY),
        0x54 => (Instruction::NOP, AddressingMode::ZPX),
        0x55 => (Instruction::EOR, AddressingMode::ZPX),
        0x56 => (Instruction::LSR, AddressingMode::ZPX),
        0x57 => (Instruction::SRE, AddressingMode::ZPX),
        0x58 => (Instruction::CLI, AddressingMode::IMP),
        0x59 => (Instruction::EOR, AddressingMode::ABY),
        0x5A => (Instruction::NOP, AddressingMode::IMP),
        0x5B => (Instruction::SRE, AddressingMode::ABY),
        0x5C => (Instruction::NOP, AddressingMode::ABX),
        0x5D => (Instruction::EOR, AddressingMode::ABX),
        0x5E => (Instruction::LSR, AddressingMode::ABX),
        0x5F => (Instruction::SRE, AddressingMode::ABX),
        0x60 => (Instruction::RTS, AddressingMode::IMP),
        0x61 => (Instruction::ADC, AddressingMode::IZX),
        0x62 => (Instruction::KIL, AddressingMode::IMP),
        0x63 => (Instruction::RRA, AddressingMode::IZX),
        0x64 => (Instruction::NOP, AddressingMode::ZPG),
        0x65 => (Instruction::ADC, AddressingMode::ZPG),
        0x66 => (Instruction::ROR, AddressingMode::ZPG),
        0x67 => (Instruction::RRA, AddressingMode::ZPG),
        0x68 => (Instruction::PLA, AddressingMode::IMP),
        0x69 => (Instruction::ADC, AddressingMode::IMM),
        0x6A => (Instruction::ROR, AddressingMode::ACC),
        0x6B => (Instruction::ARR, AddressingMode::IMM),
        0x6C => (Instruction::JMP, AddressingMode::IND),
        0x6D => (Instruction::ADC, AddressingMode::ABS),
        0x6E => (Instruction::ROR, AddressingMode::ABS),
        0x6F => (Instruction::RRA, AddressingMode::ABS),
        0x70 => (Instruction::BVS, AddressingMode::REL),
        0x71 => (Instruction::ADC, AddressingMode::IZY),
        0x72 => (Instruction::KIL, AddressingMode::IMP),
        0x73 => (Instruction::RRA, AddressingMode::IZY),
        0x74 => (Instruction::NOP, AddressingMode::ZPX),
        0x75 => (Instruction::ADC, AddressingMode::ZPX),
        0x76 => (Instruction::ROR, AddressingMode::ZPX),
        0x77 => (Instruction::RRA, AddressingMode::ZPX),
        0x78 => (Instruction::SEI, AddressingMode::IMP),
        0x79 => (Instruction::ADC, AddressingMode::ABY),
        0x7A => (Instruction::NOP, AddressingMode::IMP),
        0x7B => (Instruction::RRA, AddressingMode::ABY),
        0x7C => (Instruction::NOP, AddressingMode::ABX),
        0x7D => (Instruction::ADC, AddressingMode::ABX),
        0x7E => (Instruction::ROR, AddressingMode::ABX),
        0x7F => (Instruction::RRA, AddressingMode::ABX),
        0x80 => (Instruction::NOP, AddressingMode::IMM),
        0x81 => (Instruction::STA, AddressingMode::IZX),
        0x82 => (Instruction::NOP, AddressingMode::IMM),
        0x83 => (Instruction::SAX, AddressingMode::IZX),
        0x84 => (Instruction::STY, AddressingMode::ZPG),
        0x85 => (Instruction::STA, AddressingMode::ZPG),
        0x86 => (Instruction::STX, AddressingMode::ZPG),
        0x87 => (Instruction::SAX, AddressingMode::ZPG),
        0x88 => (Instruction::DEY, AddressingMode::IMP),
        0x89 => (Instruction::NOP, AddressingMode::IMM),
        0x8A => (Instruction::TXA, AddressingMode::IMP),
        0x8B => (Instruction::XAA, AddressingMode::IMM),
        0x8C => (Instruction::STY, AddressingMode::ABS),
        0x8D => (Instruction::STA, AddressingMode::ABS),
        0x8E => (Instruction::STX, AddressingMode::ABS),
        0x8F => (Instruction::SAX, AddressingMode::ABS),
        0x90 => (Instruction::BCC, AddressingMode::REL),
        0x91 => (Instruction::STA, AddressingMode::IZY),
        0x92 => (Instruction::KIL, AddressingMode::IMP),
        0x93 => (Instruction::AHX, AddressingMode::IZY),
        0x94 => (Instruction::STY, AddressingMode::ZPX),
        0x95 => (Instruction::STA, AddressingMode::ZPX),
        0x96 => (Instruction::STX, AddressingMode::ZPY),
        0x97 => (Instruction::SAX, AddressingMode::ZPY),
        0x98 => (Instruction::TYA, AddressingMode::IMP),
        0x99 => (Instruction::STA, AddressingMode::ABY),
        0x9A => (Instruction::TXS, AddressingMode::IMP),
        0x9B => (Instruction::TAS, AddressingMode::ABY),
        0x9C => (Instruction::SHY, AddressingMode::ABX),
        0x9D => (Instruction::STA, AddressingMode::ABX),
        0x9E => (Instruction::SHX, AddressingMode::ABY),
        0x9F => (Instruction::AHX, AddressingMode::ABY),
        0xA0 => (Instruction::LDY, AddressingMode::IMM),
        0xA1 => (Instruction::LDA, AddressingMode::IZX),
        0xA2 => (Instruction::LDX, AddressingMode::IMM),
        0xA3 => (Instruction::LAX, AddressingMode::IZX),
        0xA4 => (Instruction::LDY, AddressingMode::ZPG),
        0xA5 => (Instruction::LDA, AddressingMode::ZPG),
        0xA6 => (Instruction::LDX, AddressingMode::ZPG),
        0xA7 => (Instruction::LAX, AddressingMode::ZPG),
        0xA8 => (Instruction::TAY, AddressingMode::IMP),
        0xA9 => (Instruction::LDA, AddressingMode::IMM),
        0xAA => (Instruction::TAX, AddressingMode::IMP),
        0xAB => (Instruction::LAX, AddressingMode::IMM),
        0xAC => (Instruction::LDY, AddressingMode::ABS),
        0xAD => (Instruction::LDA, AddressingMode::ABS),
        0xAE => (Instruction::LDX, AddressingMode::ABS),
        0xAF => (Instruction::LAX, AddressingMode::ABS),
        0xB0 => (Instruction::BCS, AddressingMode::REL),
        0xB1 => (Instruction::LDA, AddressingMode::IZY),
        0xB2 => (Instruction::KIL, AddressingMode::IMP),
        0xB3 => (Instruction::LAX, AddressingMode::IZY),
        0xB4 => (Instruction::LDY, AddressingMode::ZPX),
        0xB5 => (Instruction::LDA, AddressingMode::ZPX),
        0xB6 => (Instruction::LDX, AddressingMode::ZPY),
        0xB7 => (Instruction::LAX, AddressingMode::ZPY),
        0xB8 => (Instruction::CLV, AddressingMode::IMP),
        0xB9 => (Instruction::LDA, AddressingMode::ABY),
        0xBA => (Instruction::TSX, AddressingMode::IMP),
        0xBB => (Instruction::LAS, AddressingMode::ABY),
        0xBC => (Instruction::LDY, AddressingMode::ABX),
        0xBD => (Instruction::LDA, AddressingMode::ABX),
        0xBE => (Instruction::LDX, AddressingMode::ABY),
        0xBF => (Instruction::LAX, AddressingMode::ABY),
        0xC0 => (Instruction::CPY, AddressingMode::IMM),
        0xC1 => (Instruction::CMP, AddressingMode::IZX),
        0xC2 => (Instruction::NOP, AddressingMode::IMM),
        0xC3 => (Instruction::DCP, AddressingMode::IZX),
        0xC4 => (Instruction::CPY, AddressingMode::ZPG),
        0xC5 => (Instruction::CMP, AddressingMode::ZPG),
        0xC6 => (Instruction::DEC, AddressingMode::ZPG),
        0xC7 => (Instruction::DCP, AddressingMode::ZPG),
        0xC8 => (Instruction::INY, AddressingMode::IMP),
        0xC9 => (Instruction::CMP, AddressingMode::IMM),
        0xCA => (Instruction::DEX, AddressingMode::IMP),
        0xCB => (Instruction::AXS, AddressingMode::IMM),
        0xCC => (Instruction::CPY, AddressingMode::ABS),
        0xCD => (Instruction::CMP, AddressingMode::ABS),
        0xCE => (Instruction::DEC, AddressingMode::ABS),
        0xCF => (Instruction::DCP, AddressingMode::ABS),
        0xD0 => (Instruction::BNE, AddressingMode::REL),
        0xD1 => (Instruction::CMP, AddressingMode::IZY),
        0xD2 => (Instruction::KIL, AddressingMode::IMP),
        0xD3 => (Instruction::DCP, AddressingMode::IZY),
        0xD4 => (Instruction::NOP, AddressingMode::ZPX),
        0xD5 => (Instruction::CMP, AddressingMode::ZPX),
        0xD6 => (Instruction::DEC, AddressingMode::ZPX),
        0xD7 => (Instruction::DCP, AddressingMode::ZPX),
        0xD8 => (Instruction::CLD, AddressingMode::IMP),
        0xD9 => (Instruction::CMP, AddressingMode::ABY),
        0xDA => (Instruction::NOP, AddressingMode::IMP),
        0xDB => (Instruction::DCP, AddressingMode::ABY),
        0xDC => (Instruction::NOP, AddressingMode::ABX),
        0xDD => (Instruction::CMP, AddressingMode::ABX),
        0xDE => (Instruction::DEC, AddressingMode::ABX),
        0xDF => (Instruction::DCP, AddressingMode::ABX),
        0xE0 => (Instruction::CPX, AddressingMode::IMM),
        0xE1 => (Instruction::SBC, AddressingMode::IZX),
        0xE2 => (Instruction::NOP, AddressingMode::IMM),
        0xE3 => (Instruction::ISC, AddressingMode::IZX),
        0xE4 => (Instruction::CPX, AddressingMode::ZPG),
        0xE5 => (Instruction::SBC, AddressingMode::ZPG),
        0xE6 => (Instruction::INC, AddressingMode::ZPG),
        0xE7 => (Instruction::ISC, AddressingMode::ZPG),
        0xE8 => (Instruction::INX, AddressingMode::IMP),
        0xE9 => (Instruction::SBC, AddressingMode::IMM),
        0xEA => (Instruction::NOP, AddressingMode::IMP),
        0xEB => (Instruction::SBC, AddressingMode::IMM),
        0xEC => (Instruction::CPX, AddressingMode::ABS),
        0xED => (Instruction::SBC, AddressingMode::ABS),
        0xEE => (Instruction::INC, AddressingMode::ABS),
        0xEF => (Instruction::ISC, AddressingMode::ABS),
        0xF0 => (Instruction::BEQ, AddressingMode::REL),
        0xF1 => (Instruction::SBC, AddressingMode::IZY),
        0xF2 => (Instruction::KIL, AddressingMode::IMP),
        0xF3 => (Instruction::ISC, AddressingMode::IZY),
        0xF4 => (Instruction::NOP, AddressingMode::ZPX),
        0xF5 => (Instruction::SBC, AddressingMode::ZPX),
        0xF6 => (Instruction::INC, AddressingMode::ZPX),
        0xF7 => (Instruction::ISC, AddressingMode::ZPX),
        0xF8 => (Instruction::SED, AddressingMode::IMP),
        0xF9 => (Instruction::SBC, AddressingMode::ABY),
        0xFA => (Instruction::NOP, AddressingMode::IMP),
        0xFB => (Instruction::ISC, AddressingMode::ABY),
        0xFC => (Instruction::NOP, AddressingMode::ABX),
        0xFD => (Instruction::SBC, AddressingMode::ABX),
        0xFE => (Instruction::INC, AddressingMode::ABX),
        _ => (Instruction::ISC, AddressingMode::ABX),
    }
}
/// What kind of bus work each instruction does.
pub open spec fn operation_of(i: Instruction) -> Operation {
    match i {
        Instruction::NOP => Operation::Read,
        Instruction::LDA => Operation::Read,
        Instruction::LDX => Operation::Read,
        Instruction::LDY => Operation::Read,
        Instruction::CMP => Operation::Read,
        Instruction::CPX => Operation::Read,
        Instruction::CPY => Operation::Read,
        Instruction::ADC => Operation::Read,
        Instruction::SBC => Operation::Read,
        Instruction::BIT => Operation::Read,
        Instruction::AND => Operation::Read,
        Instruction::EOR => Operation::Read,
        Instruction::ORA => Operation::Read,
        Instruction::ASL => Operation::ReadModifyWrite,
        Instruction::LSR => Operation::ReadModifyWrite,
        Instruction::ROL => Operation::ReadModifyWrite,
        Instruction::ROR => Operation::ReadModifyWrite,
        Instruction::INC => Operation::ReadModifyWrite,
        Instruction::DEC => Operation::ReadModifyWrite,
        Instruction::STA => Operation::Write,
        Instruction::STX => Operation::Write,
        Instruction::STY => Operation::Write,
        Instruction::BCC => Operation::BranchOn(Flags { bits: FLAG_C }, false),
        Instruction::BCS => Operation::BranchOn(Flags { bits: FLAG_C }, true),
        Instruction::BNE => Operation::BranchOn(Flags { bits: FLAG_Z }, false),
        Instruction::BEQ => Operation::BranchOn(Flags { bits: FLAG_Z }, true),
        Instruction::BPL => Operation::BranchOn(Flags { bits: FLAG_N }, false),
        Instruction::BMI => Operation::BranchOn(Flags { bits: FLAG_N }, true),
        Instruction::BVC => Operation::BranchOn(Flags { bits: FLAG_V }, false),
        Instruction::BVS => Operation::BranchOn(Flags { bits: FLAG_V }, true),
        Instruction::INX => Operation::SetRegister,
        Instruction::INY => Operation::SetRegister,
        Instruction::DEX => Operation::SetRegister,
        Instruction::DEY => Operation::SetRegister,
        Instruction::TXA => Operation::SetRegister,
        Instruction::TYA => Operation::SetRegister,
        Instruction::TAX => Operation::SetRegister,
        Instruction::TAY => Operation::SetRegister,
        Instruction::TXS => Operation::SetRegister,
        Instruction::TSX => Operation::SetRegister,
        Instruction::CLC => Operation::SetRegister,
        Instruction::CLI => Operation::SetRegister,
        Instruction::CLV => Operation::SetRegister,
        Instruction::CLD => Operation::SetRegister,
        Instruction::SEC => Operation::SetRegister,
        Instruction::SEI => Operation::SetRegister,
        Instruction::SED => Operation::SetRegister,
        Instruction::JMP => Operation::JMP,
        Instruction::PLP => Operation::PLP,
        Instruction::PLA => Operation::PLA,
        Instruction::PHP => Operation::PHP,
        Instruction::PHA => Operation::PHA,
        Instruction::RTI => Operation::RTI,
        Instruction::RTS => Operation::RTS,
        Instruction::BRK => Operation::BRK,
        Instruction::JSR => Operation::JSR,
        Instruction::KIL => Operation::Kill,
        Instruction::ISC => Operation::Unimplemented,
        Instruction::DCP => Operation::Unimplemented,
        Instruction::AXS => Operation::Unimplemented,
        Instruction::LAS => Operation::Unimplemented,
        Instruction::LAX => Operation::Unimplemented,
        Instruction::AHX => Operation::Unimplemented,
        Instruction::SAX => Operation::Unimplemented,
        Instruction::XAA => Operation::Unimplemented,
        Instruction::SHX => Operation::Unimplemented,
        Instruction::RRA => Operation::Unimplemented,
        Instruction::TAS => Operation::Unimplemented,
        Instruction::SHY => Operation::Unimplemented,
        Instruction::ARR => Operation::Unimplemented,
        Instruction::SRE => Operation::Unimplemented,
        Instruction::ALR => Operation::Unimplemented,
        Instruction::RLA => Operation::Unimplemented,
        Instruction::ANC => Operation::Unimplemented,
        Instruction::SLO => Operation::Unimplemented,
    }
}

impl Instruction {
    pub fn get_operation(&self) -> (op: Operation)
        ensures
            op == operation_of(*self),
    {
        match self {
        Instruction::NOP => Operation::Read,
        Instruction::LDA => Operation::Read,
        Instruction::LDX => Operation::Read,
        Instruction::LDY => Operation::Read,
        Instruction::CMP => Operation::Read,
        Instruction::CPX => Operation::Read,
        Instruction::CPY => Operation::Read,
        Instruction::ADC => Operation::Read,
        Instruction::SBC => Operation::Read,
        Instruction::BIT => Operation::Read,
        Instruction::AND => Operation::Read,
        Instruction::EOR => Operation::Read,
        Instruction::ORA => Operation::Read,
        Instruction::ASL => Operation::ReadModifyWrite,
        Instruction::LSR => Operation::ReadModifyWrite,
        Instruction::ROL => Operation::ReadModifyWrite,
        Instruction::ROR => Operation::ReadModifyWrite,
        Instruction::INC => Operation::ReadModifyWrite,
        Instruction::DEC => Operation::ReadModifyWrite,
        Instruction::STA => Operation::Write,
        Instruction::STX => Operation::Write,
        Instruction::STY => Operation::Write,
        Instruction::BCC => Operation::BranchOn(Flags { bits: FLAG_C }, false),
        Instruction::BCS => Operation::BranchOn(Flags { bits: FLAG_C }, true),
        Instruction::BNE => Operation::BranchOn(Flags { bits: FLAG_Z }, false),
        Instruction::BEQ => Operation::BranchOn(Flags { bits: FLAG_Z }, true),
        Instruction::BPL => Operation::BranchOn(Flags { bits: FLAG_N }, false),
        Instruction::BMI => Operation::BranchOn(Flags { bits: FLAG_N }, true),
        Instruction::BVC => Operation::BranchOn(Flags { bits: FLAG_V }, false),
        Instruction::BVS => Operation::BranchOn(Flags { bits: FLAG_V }, true),
        Instruction::INX => Operation::SetRegister,
        Instruction::INY => Operation::SetRegister,
        Instruction::DEX => Operation::SetRegister,
        Instruction::DEY => Operation::SetRegister,
        Instruction::TXA => Operation::SetRegister,
        Instruction::TYA => Operation::SetRegister,
        Instruction::TAX => Operation::SetRegister,
        Instruction::TAY => Operation::SetRegister,
        Instruction::TXS => Operation::SetRegister,
        Instruction::TSX => Operation::SetRegister,
        Instruction::CLC => Operation::SetRegister,
        Instruction::CLI => Operation::SetRegister,
        Instruction::CLV => Operation::SetRegister,
        Instruction::CLD => Operation::SetRegister,
        Instruction::SEC => Operation::SetRegister,
        Instruction::SEI => Operation::SetRegister,
        Instruction::SED => Operation::SetRegister,
        Instruction::JMP => Operation::JMP,
        Instruction::PLP => Operation::PLP,
        Instruction::PLA => Operation::PLA,
        Instruction::PHP => Operation::PHP,
        Instruction::PHA => Operation::PHA,
        Instruction::RTI => Operation::RTI,
        Instruction::RTS => Operation::RTS,
        Instruction::BRK => Operation::BRK,
        Instruction::JSR => Operation::JSR,
        Instruction::KIL => Operation::Kill,
        Instruction::ISC => Operation::Unimplemented,
        Instruction::DCP => Operation::Unimplemented,
        Instruction::AXS => Operation::Unimplemented,
        Instruction::LAS => Operation::Unimplemented,
        Instruction::LAX => Operation::Unimplemented,
        Instruction::AHX => Operation::Unimplemented,
        Instruction::SAX => Operation::Unimplemented,
        Instruction::XAA => Operation::Unimplemented,
        Instruction::SHX => Operation::Unimplemented,
        Instruction::RRA => Operation::Unimplemented,
        Instruction::TAS => Operation::Unimplemented,
        Instruction::SHY => Operation::Unimplemented,
        Instruction::ARR => Operation::Unimplemented,
        Instruction::SRE => Operation::Unimplemented,
        Instruction::ALR => Operation::Unimplemented,
        Instruction::RLA => Operation::Unimplemented,
        Instruction::ANC => Operation::Unimplemented,
        Instruction::SLO => Operation::Unimplemented,
        }
    }
}

/// A comparison of a register with a value: N and Z from the difference, C when the
/// register is not below the value.
pub open spec fn compared(r: Registers, reg: u8, val: u8) -> Registers {
    let diff = if reg >= val { (reg - val) as u8 } else { (reg + 256 - val) as u8 };
    Registers { P: r.nz(diff).P.with(FLAG_C, reg >= val), ..r }
}

/// The registers after an instruction that reads the operand `val`.
pub open spec fn read_op(i: Instruction, r: Registers, val: u8) -> Registers {
    match i {
        Instruction::LDA => Registers { A: val, ..r }.nz(val),
        Instruction::LDX => Registers { X: val, ..r }.nz(val),
        Instruction::LDY => Registers { Y: val, ..r }.nz(val),
        Instruction::CMP => compared(r, r.A, val),
        Instruction::CPX => compared(r, r.X, val),
        Instruction::CPY => compared(r, r.Y, val),
        Instruction::ADC => r.added(val),
        Instruction::SBC => r.added(val ^ 0xff),
        Instruction::BIT => Registers {
            P: r.P.with(FLAG_Z, val & r.A == 0).with(FLAG_N, val & 0x80 != 0).with(FLAG_V, val & 0x40 != 0),
            ..r
        },
        Instruction::AND => Registers { A: r.A & val, ..r }.nz(r.A & val),
        Instruction::EOR => Registers { A: r.A ^ val, ..r }.nz(r.A ^ val),
        Instruction::ORA => Registers { A: r.A | val, ..r }.nz(r.A | val),
        _ => r,
    }
}

/// The registers and the value written back after a read-modify-write instruction on `val`.
pub open spec fn rmw_op(i: Instruction, r: Registers, val: u8) -> (Registers, u8) {
    match i {
        Instruction::ASL => (Registers { P: r.P.with(FLAG_C, val & 0x80 != 0), ..r }.nz(val << 1u8), val << 1u8),
        Instruction::LSR => (Registers { P: r.P.with(FLAG_C, val & 0x01 != 0), ..r }.nz(val >> 1u8), val >> 1u8),
        Instruction::ROL => {
            let res = (val << 1u8) | r.carry();
            (Registers { P: r.P.with(FLAG_C, val & 0x80 != 0), ..r }.nz(res), res)
        },
        Instruction::ROR => {
            let res = (val >> 1u8) | (r.carry() << 7u8);
            (Registers { P: r.P.with(FLAG_C, val & 0x01 != 0), ..r }.nz(res), res)
        },
        Instruction::INC => {
            let res = if val == 255 { 0u8 } else { (val + 1) as u8 };
            (r.nz(res), res)
        },
        Instruction::DEC => {
            let res = if val == 0 { 255u8 } else { (val - 1) as u8 };
            (r.nz(res), res)
        },
        _ => (r, val),
    }
}

/// The value that a store instruction writes.
pub open spec fn write_op(i: Instruction, r: Registers) -> u8 {
    match i {
        Instruction::STX => r.X,
        Instruction::STY => r.Y,
        _ => r.A,
    }
}

/// The registers after an instruction that works on registers alone.
pub open spec fn set_op(i: Instruction, r: Registers) -> Registers {
    match i {
        Instruction::INX => {
            let x = if r.X == 255 { 0u8 } else { (r.X + 1) as u8 };
            Registers { X: x, ..r.nz(x) }
        },
        Instruction::INY => {
            let y = if r.Y == 255 { 0u8 } else { (r.Y + 1) as u8 };
            Registers { Y: y, ..r.nz(y) }
        },
        Instruction::DEX => {
            let x = if r.X == 0 { 255u8 } else { (r.X - 1) as u8 };
            Registers { X: x, ..r.nz(x) }
        },
        Instruction::DEY => {
            let y = if r.Y == 0 { 255u8 } else { (r.Y - 1) as u8 };
            Registers { Y: y, ..r.nz(y) }
        },
        Instruction::TXA => Registers { A: r.X, ..r.nz(r.X) },
        Instruction::TYA => Registers { A: r.Y, ..r.nz(r.Y) },
        Instruction::TAX => Registers { X: r.A, ..r.nz(r.A) },
        Instruction::TAY => Registers { Y: r.A, ..r.nz(r.A) },
        Instruction::TXS => Registers { SP: r.X, ..r },
        Instruction::TSX => Registers { X: r.SP, ..r.nz(r.SP) },
        Instruction::CLC => Registers { P: r.P.with(FLAG_C, false), ..r },
        Instruction::CLI => Registers { P: r.P.with(FLAG_I, false), ..r },
        Instruction::CLV => Registers { P: r.P.with(FLAG_V, false), ..r },
        Instruction::CLD => Registers { P: r.P.with(FLAG_D, false), ..r },
        Instruction::SEC => Registers { P: r.P.with(FLAG_C, true), ..r },
        Instruction::SEI => Registers { P: r.P.with(FLAG_I, true), ..r },
        Instruction::SED => Registers { P: r.P.with(FLAG_D, true), ..r },
        _ => r,
    }
}

impl Registers {
    fn compare(&mut self, reg: u8, val: u8)
        ensures
            *final(self) == compared(*old(self), reg, val),
    {
        let diff = reg.wrapping_sub(val);
        self.set_nz(diff);
        self.P.set(FLAG_C, reg >= val);
    }

    /// Carries out an instruction that reads the operand `val`.
    pub fn execute_read(&mut self, i: Instruction, val: u8)
        ensures
            *final(self) == read_op(i, *old(self), val),
    {
        match i {
            Instruction::LDA => {
                self.A = val;
                self.set_nz(val);
            },
            Instruction::LDX => {
                self.X = val;
                self.set_nz(val);
            },
            Instruction::LDY => {
                self.Y = val;
                self.set_nz(val);
            },
            Instruction::CMP => {
                let a = self.A;
                self.compare(a, val);
            },
            Instruction::CPX => {
                let x = self.X;
                self.compare(x, val);
            },
            Instruction::CPY => {
                let y = self.Y;
                self.compare(y, val);
            },
            Instruction::ADC => self.add_with_carry(val),
            Instruction::SBC => self.add_with_carry(val ^ 0xff),
            Instruction::BIT => {
                let a = self.A;
                self.P.set(FLAG_Z, (val & a) == 0);
                self.P.set(FLAG_N, val & 0x80 != 0);
                self.P.set(FLAG_V, val & 0x40 != 0);
            },
            Instruction::AND => {
                self.A = self.A & val;
                let a = self.A;
                self.set_nz(a);
            },
            Instruction::EOR => {
                self.A = self.A ^ val;
                let a = self.A;
                self.set_nz(a);
            },
            Instruction::ORA => {
                self.A = self.A | val;
                let a = self.A;
                self.set_nz(a);
            },
            _ => {},
        }
    }

    /// Carries out a read-modify-write instruction on `val`; returns the value to write back.
    pub fn execute_rmw(&mut self, i: Instruction, val: u8) -> (res: u8)
        ensures
            (*final(self), res) == rmw_op(i, *old(self), val),
    {
        match i {
            Instruction::ASL => {
                self.P.set(FLAG_C, val & 0x80 != 0);
                self.set_nz(val << 1)
            },
            Instruction::LSR => {
                self.P.set(FLAG_C, val & 0x01 != 0);
                self.set_nz(val >> 1)
            },
            Instruction::ROL => {
                let c = self.get_c_as_u8();
                self.P.set(FLAG_C, val & 0x80 != 0);
                self.set_nz((val << 1) | c)
            },
            Instruction::ROR => {
                let c = self.get_c_as_u8();
                self.P.set(FLAG_C, val & 0x01 != 0);
                self.set_nz((val >> 1) | (c << 7))
            },
            Instruction::INC => self.set_nz(val.wrapping_add(1)),
            Instruction::DEC => self.set_nz(val.wrapping_sub(1)),
            _ => val,
        }
    }

    /// The value a store instruction writes.
    pub fn execute_write(&self, i: Instruction) -> (v: u8)
        ensures
            v == write_op(i, *self),
    {
        match i {
            Instruction::STX => self.X,
            Instruction::STY => self.Y,
            _ => self.A,
        }
    }

    /// Carries out an instruction that works on registers alone.
    pub fn execute_set(&mut self, i: Instruction)
        ensures
            *final(self) == set_op(i, *old(self)),
    {
        match i {
            Instruction::INX => {
                let x = self.X.wrapping_add(1);
                self.X = self.set_nz(x);
            },
            Instruction::INY => {
                let y = self.Y.wrapping_add(1);
                self.Y = self.set_nz(y);
            },
            Instruction::DEX => {
                let x = self.X.wrapping_sub(1);
                self.X = self.set_nz(x);
            },
            Instruction::DEY => {
                let y = self.Y.wrapping_sub(1);
                self.Y = self.set_nz(y);
            },
            Instruction::TXA => {
                let x = self.X;
                self.A = self.set_nz(x);
            },
            Instruction::TYA => {
                let y = self.Y;
                self.A = self.set_nz(y);
            },
            Instruction::TAX => {
                let a = self.A;
                self.X = self.set_nz(a);
            },
            Instruction::TAY => {
                let a = self.A;
                self.Y = self.set_nz(a);
            },
            Instruction::TXS => {
                self.SP = self.X;
            },
            Instruction::TSX => {
                let sp = self.SP;
                self.X = self.set_nz(sp);
            },
            Instruction::CLC => self.P.set(FLAG_C, false),
            Instruction::CLI => self.P.set(FLAG_I, false),
            Instruction::CLV => self.P.set(FLAG_V, false),
            Instruction::CLD => self.P.set(FLAG_D, false),
            Instruction::SEC => self.P.set(FLAG_C, true),
            Instruction::SEI => self.P.set(FLAG_I, true),
            Instruction::SED => self.P.set(FLAG_D, true),
            _ => {},
        }
    }
}

/// The number of operand bytes that follow an opcode in each addressing mode.
pub open spec fn operand_len(m: AddressingMode) -> int {
    match m {
        AddressingMode::ACC | AddressingMode::IMP => 0,
        AddressingMode::ABS | AddressingMode::ABX | AddressingMode::ABY | AddressingMode::IND => 2,
        _ => 1,
    }
}

/// Whether an addressing mode carries out an operation (the decode table only pairs
/// them this way).
pub open spec fn mode_takes(m: AddressingMode, op: Operation) -> bool {
    match m {
        AddressingMode::IMM => op == Operation::Read,
        AddressingMode::ACC => op == Operation::ReadModifyWrite,
        AddressingMode::ABS => op == Operation::Read || op == Operation::ReadModifyWrite || op == Operation::Write
            || op == Operation::JMP || op == Operation::JSR,
        AddressingMode::IMP => op == Operation::Read || op == Operation::SetRegister || op == Operation::PLP
            || op == Operation::PLA || op == Operation::PHP || op == Operation::PHA || op == Operation::RTI
            || op == Operation::RTS || op == Operation::BRK,
        AddressingMode::IND => op == Operation::JMP,
        AddressingMode::REL => op is BranchOn,
        _ => op == Operation::Read || op == Operation::ReadModifyWrite || op == Operation::Write,
    }
}

/// Whether the CPU can carry out the instruction in the mode.
pub open spec fn executable(i: Instruction, m: AddressingMode) -> bool {
    mode_takes(m, operation_of(i))
}

/// The fault of an instruction that cannot be carried out.
pub open spec fn fault_of(i: Instruction) -> CpuFault {
    match operation_of(i) {
        Operation::Kill => CpuFault::Kill,
        Operation::Unimplemented => CpuFault::Unimplemented,
        _ => CpuFault::InvalidMode,
    }
}

/// The stack pointer after `n` pushes (wrapping).
pub open spec fn sp_down(sp: u8, n: int) -> u8 {
    ((sp + 256 - n) % 256) as u8
}

/// The stack pointer after `n` pulls (wrapping).
pub open spec fn sp_up(sp: u8, n: int) -> u8 {
    ((sp + n) % 256) as u8
}

/// The target of a branch taken from `pc` with the signed offset `operand`.
pub open spec fn branch_target(pc: u16, operand: u8) -> u16 {
    ((pc + operand + if operand >= 128 { 0xFF00int } else { 0int }) % 65536) as u16
}

/// How the registers change when the instruction `i` is carried out in mode `m`,
/// given the bytes the bus returns: `v` for the operand or the value pulled, `w` for
/// a new program counter.
pub open spec fn executed_with(i: Instruction, m: AddressingMode, r: Registers, after: Registers, v: u8, w: u16) -> bool {
    let n = operand_len(m);
    let q = pc_plus(r, n);
    match operation_of(i) {
        Operation::Read => if m == AddressingMode::IMP { after == r } else { after == read_op(i, q, v) },
        Operation::ReadModifyWrite => if m == AddressingMode::ACC {
            after == (Registers { A: rmw_op(i, r, r.A).1, ..rmw_op(i, r, r.A).0 })
        } else {
            after == rmw_op(i, q, v).0
        },
        Operation::Write => after == q,
        Operation::SetRegister => after == set_op(i, r),
        Operation::BranchOn(f, set) => after == if q.P.has(f.bits) == set {
            Registers { PC: branch_target(q.PC, v), ..q }
        } else {
            q
        },
        Operation::JMP => after == (Registers { PC: w, ..r }),
        Operation::JSR => after == (Registers { PC: w, SP: sp_down(r.SP, 2), ..r }),
        Operation::PHP | Operation::PHA => after == (Registers { SP: sp_down(r.SP, 1), ..r }),
        Operation::PLP => after == (Registers { SP: sp_up(r.SP, 1), P: Flags { bits: v }, ..r }),
        Operation::PLA => after == (Registers { SP: sp_up(r.SP, 1), A: v, ..r }).nz(v),
        Operation::RTI => after == (Registers { SP: sp_up(r.SP, 3), P: Flags { bits: v }, PC: w, ..r }),
        Operation::RTS => after == (Registers { SP: sp_up(r.SP, 2), PC: w, ..r }),
        Operation::BRK => after == (Registers {
            SP: sp_down(r.SP, 3),
            P: r.P.with(FLAG_B, true).with(FLAG_I, true),
            PC: w,
            ..r
        }),
        _ => true,
    }
}

/// The address of a bus access.
pub open spec fn event_addr(e: BusEvent) -> u16 {
    match e {
        BusEvent::Read(a, _) => a,
        BusEvent::Write(a, _) => a,
    }
}

/// An address plus `n`, wrapping at 64K.
pub open spec fn wrap16(a: int) -> u16 {
    (a % 0x10000) as u16
}

/// A read of `a` that gave the byte the trace `t` holds at `k`.
pub open spec fn rd(t: Seq<BusEvent>, k: int, a: u16) -> BusEvent {
    BusEvent::Read(a, byte_of(t[k]))
}

/// The word made of the bytes of the trace at `lo` and `hi`.
pub open spec fn word_at(t: Seq<BusEvent>, lo: int, hi: int) -> u16 {
    (byte_of(t[lo]) + 256 * byte_of(t[hi])) as u16
}

/// The operand accesses of the read, read-modify-write and write instructions once
/// their effective address `a` is known: `k` is the index of the next access, and the
/// operand is the byte read at `a`.
pub open spec fn data_events(i: Instruction, r: Registers, t: Seq<BusEvent>, k: int, a: u16, m: AddressingMode) -> Seq<BusEvent> {
    let q = pc_plus(r, operand_len(m));
    match operation_of(i) {
        Operation::Read => seq![rd(t, k, a)],
        Operation::ReadModifyWrite => {
            let res = rmw_op(i, q, byte_of(t[k])).1;
            seq![rd(t, k, a), BusEvent::Write(a, res), BusEvent::Write(a, res)]
        },
        _ => seq![BusEvent::Write(a, write_op(i, q))],
    }
}

/// The bus accesses that the instruction `i` makes in mode `m` after its opcode fetch,
/// from the registers `r` (PC at the byte after the opcode), as the trace `t` of what
/// the bus gave; with the operand byte and the new program counter they carry.
/// Immediate: the operand byte is fetched.
pub open spec fn imm_effect(i: Instruction, m: AddressingMode, r: Registers, t: Seq<BusEvent>) -> (Seq<BusEvent>, u8, u16) {
    let pc = r.PC;
    let pc1 = wrap16(pc + 1);
    let op = operation_of(i);
    (seq![rd(t, 0, pc)], byte_of(t[0]), 0)
}

/// Accumulator: one dummy read at PC.
pub open spec fn acc_effect(i: Instruction, m: AddressingMode, r: Registers, t: Seq<BusEvent>) -> (Seq<BusEvent>, u8, u16) {
    let pc = r.PC;
    let pc1 = wrap16(pc + 1);
    let op = operation_of(i);
    (seq![rd(t, 0, pc)], 0, 0)
}

/// Zero page: the address byte, then the operand accesses.
pub open spec fn zpg_effect(i: Instruction, m: AddressingMode, r: Registers, t: Seq<BusEvent>) -> (Seq<BusEvent>, u8, u16) {
    let pc = r.PC;
    let pc1 = wrap16(pc + 1);
    let op = operation_of(i);
    let a = byte_of(t[0]) as u16;
    (seq![rd(t, 0, pc)] + data_events(i, r, t, 1, a, m), byte_of(t[1]), 0)
}

/// Zero page indexed (X or Y): the base byte, a dummy read of it, then the operand accesses at the wrapped address.
pub open spec fn zpx_effect(i: Instruction, m: AddressingMode, r: Registers, t: Seq<BusEvent>) -> (Seq<BusEvent>, u8, u16) {
    let pc = r.PC;
    let pc1 = wrap16(pc + 1);
    let op = operation_of(i);
    let base = byte_of(t[0]) as u16;
    let idx = if m == AddressingMode::ZPX { r.X } else { r.Y };
    let a = ((base + idx) % 256) as u16;
    (seq![rd(t, 0, pc), rd(t, 1, base)] + data_events(i, r, t, 2, a, m), byte_of(t[2]), 0)
}

/// Absolute: the two address bytes, then the operand accesses; JMP takes the address as its target; JSR reads the low byte, makes a dummy stack read, pushes the return address and reads the high byte.
pub open spec fn abs_effect(i: Instruction, m: AddressingMode, r: Registers, t: Seq<BusEvent>) -> (Seq<BusEvent>, u8, u16) {
    let pc = r.PC;
    let pc1 = wrap16(pc + 1);
    let op = operation_of(i);
    if op == Operation::JSR {
        let ret = pc1;
        (seq![rd(t, 0, pc), rd(t, 1, stack_at(r.SP, 0)), BusEvent::Write(stack_at(r.SP, 0), (ret / 256) as u8),
            BusEvent::Write(stack_at(r.SP, 1), (ret % 256) as u8), rd(t, 4, pc1)], 0, word_at(t, 0, 4))
    } else if op == Operation::JMP {
        (seq![rd(t, 0, pc), rd(t, 1, pc1)], 0, word_at(t, 0, 1))
    } else {
        (seq![rd(t, 0, pc), rd(t, 1, pc1)] + data_events(i, r, t, 2, word_at(t, 0, 1), m), byte_of(t[2]), 0)
    }
}

/// Absolute indexed (X or Y): the two address bytes, the indexed read (a fix-up read of the unwrapped page for reads that cross one), or the read-modify-write and write accesses.
pub open spec fn abx_effect(i: Instruction, m: AddressingMode, r: Registers, t: Seq<BusEvent>) -> (Seq<BusEvent>, u8, u16) {
    let pc = r.PC;
    let pc1 = wrap16(pc + 1);
    let op = operation_of(i);
    let base = word_at(t, 0, 1);
    let idx = if m == AddressingMode::ABX { r.X } else { r.Y };
    let a = wrap16(base + idx);
    let head = seq![rd(t, 0, pc), rd(t, 1, pc1)];
    let tail = if op == Operation::Read {
        if a / 256 != base / 256 {
            seq![rd(t, 2, a), rd(t, 3, ((base / 256) * 256 + a % 256) as u16)]
        } else {
            seq![rd(t, 2, a)]
        }
    } else if op == Operation::ReadModifyWrite {
        let res = rmw_op(i, pc_plus(r, 2), byte_of(t[2])).1;
        seq![rd(t, 2, a), rd(t, 3, a), BusEvent::Write(a, res), BusEvent::Write(a, res)]
    } else {
        seq![rd(t, 2, a)] + data_events(i, r, t, 3, a, m)
    };
    (head + tail, byte_of(t[2]), 0)
}

/// Indexed indirect: the pointer byte, a dummy read, the two address bytes from the zero page, then the operand accesses.
pub open spec fn izx_effect(i: Instruction, m: AddressingMode, r: Registers, t: Seq<BusEvent>) -> (Seq<BusEvent>, u8, u16) {
    let pc = r.PC;
    let pc1 = wrap16(pc + 1);
    let op = operation_of(i);
    let p = byte_of(t[0]);
    let p1 = ((p + r.X) % 256) as u16;
    let p2 = ((p + r.X + 1) % 256) as u16;
    (seq![rd(t, 0, pc), rd(t, 1, p as u16), rd(t, 2, p1), rd(t, 3, p2)] + data_events(i, r, t, 4, word_at(t, 2, 3), m),
        byte_of(t[4]), 0)
}

/// Indirect indexed: the pointer byte, the two base bytes from the zero page, then the indexed accesses.
pub open spec fn izy_effect(i: Instruction, m: AddressingMode, r: Registers, t: Seq<BusEvent>) -> (Seq<BusEvent>, u8, u16) {
    let pc = r.PC;
    let pc1 = wrap16(pc + 1);
    let op = operation_of(i);
    let p = byte_of(t[0]);
    let base = word_at(t, 1, 2);
    let a = wrap16(base + r.Y);
    let head = seq![rd(t, 0, pc), rd(t, 1, p as u16), rd(t, 2, ((p + 1) % 256) as u16)];
    if op == Operation::Read {
        if a / 256 != base / 256 {
            (head + seq![rd(t, 3, ((base / 256) * 256 + a % 256) as u16), rd(t, 4, a)], byte_of(t[4]), 0)
        } else {
            (head + seq![rd(t, 3, a)], byte_of(t[3]), 0)
        }
    } else {
        (head + seq![rd(t, 3, a)] + data_events(i, r, t, 4, a, m), byte_of(t[4]), 0)
    }
}

/// Implied: a dummy read at PC, then the stack accesses of pulls, pushes, returns and BRK.
pub open spec fn imp_effect(i: Instruction, m: AddressingMode, r: Registers, t: Seq<BusEvent>) -> (Seq<BusEvent>, u8, u16) {
    let pc = r.PC;
    let pc1 = wrap16(pc + 1);
    let op = operation_of(i);
    let head = seq![rd(t, 0, pc)];
    if op == Operation::PLP || op == Operation::PLA {
        (head + seq![rd(t, 1, stack_at(r.SP, 0)), rd(t, 2, stack_at(r.SP, -1))], byte_of(t[2]), 0)
    } else if op == Operation::PHP {
        (head + seq![BusEvent::Write(stack_at(r.SP, 0), r.P.bits)], 0, 0)
    } else if op == Operation::PHA {
        (head + seq![BusEvent::Write(stack_at(r.SP, 0), r.A)], 0, 0)
    } else if op == Operation::RTI {
        (head + seq![rd(t, 1, stack_at(r.SP, 0)), rd(t, 2, stack_at(r.SP, -1)), rd(t, 3, stack_at(r.SP, -2)),
            rd(t, 4, stack_at(r.SP, -3))], byte_of(t[2]), word_at(t, 3, 4))
    } else if op == Operation::RTS {
        let ret = word_at(t, 2, 3);
        (head + seq![rd(t, 1, stack_at(r.SP, 0)), rd(t, 2, stack_at(r.SP, -1)), rd(t, 3, stack_at(r.SP, -2)),
            rd(t, 4, ret)], 0, wrap16(ret + 1))
    } else if op == Operation::BRK {
        let ret = pc1;
        let vec = event_addr(t[4]);
        (head + seq![BusEvent::Write(stack_at(r.SP, 0), (ret / 256) as u8),
            BusEvent::Write(stack_at(r.SP, 1), (ret % 256) as u8),
            BusEvent::Write(stack_at(r.SP, 2), r.P.with(FLAG_B, true).bits), rd(t, 4, vec), rd(t, 5, wrap16(vec + 1))],
            0, word_at(t, 4, 5))
    } else {
        (head, 0, 0)
    }
}

/// Indirect JMP: the two pointer bytes, then the target from the pointer without carrying into the next page.
pub open spec fn ind_effect(i: Instruction, m: AddressingMode, r: Registers, t: Seq<BusEvent>) -> (Seq<BusEvent>, u8, u16) {
    let pc = r.PC;
    let pc1 = wrap16(pc + 1);
    let op = operation_of(i);
    let p = word_at(t, 0, 1);
    (seq![rd(t, 0, pc), rd(t, 1, pc1), rd(t, 2, p), rd(t, 3, ((p / 256) * 256 + wrap16(p + 1) % 256) as u16)],
        0, word_at(t, 2, 3))
}

/// Relative branches: the offset byte; a taken branch adds a dummy read, and another when it crosses a page.
pub open spec fn rel_effect(i: Instruction, m: AddressingMode, r: Registers, t: Seq<BusEvent>) -> (Seq<BusEvent>, u8, u16) {
    let pc = r.PC;
    let pc1 = wrap16(pc + 1);
    let op = operation_of(i);
    let head = seq![rd(t, 0, pc)];
    let taken = match op {
        Operation::BranchOn(f, set) => r.P.has(f.bits) == set,
        _ => false,
    };
    let target = branch_target(pc1, byte_of(t[0]));
    if !taken {
        (head, byte_of(t[0]), 0)
    } else if target / 256 == pc1 / 256 {
        (head + seq![rd(t, 1, pc1)], byte_of(t[0]), 0)
    } else {
        (head + seq![rd(t, 1, pc1), rd(t, 2, ((pc1 / 256) * 256 + target % 256) as u16)], byte_of(t[0]), 0)
    }
}

#[verifier::opaque]
pub open spec fn mode_effect(i: Instruction, m: AddressingMode, r: Registers, t: Seq<BusEvent>) -> (Seq<BusEvent>, u8, u16) {
    match m {
        AddressingMode::IMM => imm_effect(i, m, r, t),
        AddressingMode::ACC => acc_effect(i, m, r, t),
        AddressingMode::ZPG => zpg_effect(i, m, r, t),
        AddressingMode::ZPX | AddressingMode::ZPY => zpx_effect(i, m, r, t),
        AddressingMode::ABS => abs_effect(i, m, r, t),
        AddressingMode::ABX | AddressingMode::ABY => abx_effect(i, m, r, t),
        AddressingMode::IZX => izx_effect(i, m, r, t),
        AddressingMode::IZY => izy_effect(i, m, r, t),
        AddressingMode::IMP => imp_effect(i, m, r, t),
        AddressingMode::IND => ind_effect(i, m, r, t),
        AddressingMode::REL => rel_effect(i, m, r, t),
    }
}

/// The instruction ran as its mode says: the bus accesses are those of `mode_effect`
/// (for BRK, through the NMI or the IRQ vector), and the registers changed as the
/// instruction does with the operand and program counter that those accesses carried.
pub open spec fn executed_on(i: Instruction, m: AddressingMode, r: Registers, t: Seq<BusEvent>, after: Registers) -> bool {
    let e = mode_effect(i, m, r, t);
    &&& t == e.0
    &&& (m == AddressingMode::IMP && operation_of(i) == Operation::BRK
        ==> event_addr(t[4]) == INT_NMI_ADDRESS || event_addr(t[4]) == INT_IRQ_BRK_ADDRESS)
    &&& executed_with(i, m, r, after, e.1, e.2)
}

/// The accesses made since `before`, when `after`'s record extends `before`'s.
pub open spec fn new_events<C: Context>(before: C, after: C) -> Seq<BusEvent> {
    after.bus_log().subrange(before.bus_log().len() as int, after.bus_log().len() as int)
}

/// `after`'s record of bus accesses extends `before`'s.
pub open spec fn log_extends<C: Context>(before: C, after: C) -> bool {
    &&& before.bus_log().len() <= after.bus_log().len()
    &&& after.bus_log().subrange(0, before.bus_log().len() as int) == before.bus_log()
}

/// The byte that a bus access carried.
pub open spec fn byte_of(e: BusEvent) -> u8 {
    match e {
        BusEvent::Read(_, v) => v,
        BusEvent::Write(_, v) => v,
    }
}

/// The stack address `k` pushes below the stack pointer `sp` (negative `k`: pulls above).
pub open spec fn stack_at(sp: u8, k: int) -> u16 {
    (0x100 + (sp + 256 - k) % 256) as u16
}

/// One bus step: the machine stays ready and the registers stay as they are.
pub open spec fn bus_step<C: Context>(before: C, after: C) -> bool {
    after.bus_ready() && after.cpu().regs == before.cpu().regs && after.ledger() == before.ledger()
}

pub fn regs<C: Context>(cpu: &C) -> (r: Registers)
    ensures
        r == cpu.cpu().regs,
{
    cpu.state().regs
}

pub fn load<C: Context>(cpu: &mut C, addr: u16) -> (r: u8)
    requires
        old(cpu).bus_ready(),
    ensures
        bus_step(*old(cpu), *final(cpu)),
        old(cpu).read_done(*final(cpu), addr, r),
        final(cpu).bus_log() == old(cpu).bus_log().push(BusEvent::Read(addr, r)),
{
    cpu.peek(addr)
}

pub fn store<C: Context>(cpu: &mut C, addr: u16, val: u8)
    requires
        old(cpu).bus_ready(),
    ensures
        bus_step(*old(cpu), *final(cpu)),
        old(cpu).write_done(*final(cpu), addr, val),
        final(cpu).bus_log() == old(cpu).bus_log().push(BusEvent::Write(addr, val)),
{
    cpu.poke(addr, val)
}

pub fn dummy_load<C: Context>(cpu: &mut C, addr: u16)
    requires
        old(cpu).bus_ready(),
    ensures
        bus_step(*old(cpu), *final(cpu)),
        exists|v: u8| #[trigger] old(cpu).read_done(*final(cpu), addr, v),
        final(cpu).bus_log() == old(cpu).bus_log().push(BusEvent::Read(addr, byte_of(final(cpu).bus_log().last()))),
{
    let v = load(cpu, addr);
    assert(old(cpu).read_done(*cpu, addr, v));
}

pub fn dummy_store<C: Context>(cpu: &mut C, addr: u16, value: u8)
    requires
        old(cpu).bus_ready(),
    ensures
        bus_step(*old(cpu), *final(cpu)),
        old(cpu).write_done(*final(cpu), addr, value),
        final(cpu).bus_log() == old(cpu).bus_log().push(BusEvent::Write(addr, value)),
{
    store(cpu, addr, value);
}

/// Reads a little-endian word at `addr` and `addr + 1` (wrapping).
pub fn load16<C: Context>(cpu: &mut C, addr: u16) -> (r: u16)
    requires
        old(cpu).bus_ready(),
    ensures
        bus_step(*old(cpu), *final(cpu)),
        exists|mid: C, lo: u8, hi: u8| #[trigger] old(cpu).read_done(mid, addr, lo)
            && #[trigger] mid.read_done(*final(cpu), ((addr + 1) % 0x10000) as u16, hi)
            && r == lo + 256 * hi,
        ({
            let n = old(cpu).bus_log().len() as int;
            let log = final(cpu).bus_log();
            &&& log == old(cpu).bus_log().push(BusEvent::Read(addr, byte_of(log[n])))
                .push(BusEvent::Read(((addr + 1) % 0x10000) as u16, byte_of(log[n + 1])))
            &&& r == byte_of(log[n]) + 256 * byte_of(log[n + 1])
        }),
{
    let ghost c0 = *cpu;
    let lo: u8 = load(cpu, addr);
    let ghost c1 = *cpu;
    let hi: u8 = load(cpu, addr.wrapping_add(1));
    let low = lo as u16;
    let high = hi as u16;
    assert(c0.read_done(c1, addr, lo) && c1.read_done(*cpu, ((addr + 1) % 0x10000) as u16, hi));
    low + high * 256
}

/// Sets the registers, keeping the interrupt lines.
fn put_regs<C: Context>(cpu: &mut C, r: Registers)
    requires
        old(cpu).bus_ready(),
    ensures
        final(cpu).bus_ready(),
        final(cpu).cpu() == (State { regs: r, ..old(cpu).cpu() }),
        final(cpu).bus_log() == old(cpu).bus_log(),
        final(cpu).ledger() == old(cpu).ledger(),
{
    cpu.set_regs(r);
}

pub fn fetch_and_inc_pc<C: Context>(cpu: &mut C) -> (r: u8)
    requires
        old(cpu).bus_ready(),
    ensures
        final(cpu).bus_ready(),
        final(cpu).cpu().regs == pc_plus(old(cpu).cpu().regs, 1),
        final(cpu).bus_log() == old(cpu).bus_log().push(BusEvent::Read(old(cpu).cpu().regs.PC, r)),
        final(cpu).ledger() == old(cpu).ledger(),
{
    let mut rg = regs(cpu);
    let addr = rg.PC;
    rg.PC = rg.PC.wrapping_add(1);
    put_regs(cpu, rg);
    load(cpu, addr)
}

pub fn fetch16_and_inc_pc<C: Context>(cpu: &mut C) -> (r: u16)
    requires
        old(cpu).bus_ready(),
    ensures
        final(cpu).bus_ready(),
        final(cpu).cpu().regs == pc_plus(old(cpu).cpu().regs, 2),
        ({
            let n = old(cpu).bus_log().len() as int;
            let log = final(cpu).bus_log();
            let pc = old(cpu).cpu().regs.PC;
            &&& log == old(cpu).bus_log().push(BusEvent::Read(pc, byte_of(log[n])))
                .push(BusEvent::Read(((pc + 1) % 0x10000) as u16, byte_of(log[n + 1])))
            &&& r == byte_of(log[n]) + 256 * byte_of(log[n + 1])
        }),
        final(cpu).ledger() == old(cpu).ledger(),
{
    let mut rg = regs(cpu);
    let addr = rg.PC;
    rg.PC = rg.PC.wrapping_add(2);
    put_regs(cpu, rg);
    load16(cpu, addr)
}

/// The address of the top of the stack: page 1.
pub fn stack_address<C: Context>(cpu: &C) -> (r: u16)
    ensures
        r == cpu.cpu().regs.SP + 0x100,
{
    regs(cpu).SP as u16 + 0x100
}

pub fn push<C: Context>(cpu: &mut C, val: u8)
    requires
        old(cpu).bus_ready(),
    ensures
        final(cpu).bus_ready(),
        final(cpu).cpu().regs == (Registers { SP: sp_down(old(cpu).cpu().regs.SP, 1), ..old(cpu).cpu().regs }),
        final(cpu).bus_log() == old(cpu).bus_log().push(BusEvent::Write(stack_at(old(cpu).cpu().regs.SP, 0), val)),
        final(cpu).ledger() == old(cpu).ledger(),
{
    let addr = stack_address(cpu);
    store(cpu, addr, val);
    let mut rg = regs(cpu);
    rg.SP = rg.SP.wrapping_sub(1);
    put_regs(cpu, rg);
}

pub fn pull<C: Context>(cpu: &mut C) -> (r: u8)
    requires
        old(cpu).bus_ready(),
    ensures
        final(cpu).bus_ready(),
        final(cpu).cpu().regs == (Registers { SP: sp_up(old(cpu).cpu().regs.SP, 1), ..old(cpu).cpu().regs }),
        final(cpu).bus_log() == old(cpu).bus_log().push(BusEvent::Read(stack_at(old(cpu).cpu().regs.SP, -1), r)),
        final(cpu).ledger() == old(cpu).ledger(),
{
    let mut rg = regs(cpu);
    rg.SP = rg.SP.wrapping_add(1);
    put_regs(cpu, rg);
    let addr = stack_address(cpu);
    load(cpu, addr)
}

/// Whether adding `offset` to `addr` crosses into another page.
pub fn is_cross_page(addr: u16, offset: u8) -> (r: bool)
    ensures
        r == ((addr + offset) % 65536 / 256 != addr / 256),
{
    addr.wrapping_add(offset as u16) / 256 != addr / 256
}

pub fn on_same_page(addr1: u16, addr2: u16) -> (r: bool)
    ensures
        r == (addr1 / 256 == addr2 / 256),
{
    addr1 / 256 == addr2 / 256
}

/// The CPU registers that a machine holds.
pub open spec fn regs_spec<C: Context>(cpu: C) -> Registers {
    cpu.cpu().regs
}

/// What an addressing mode function promises: the machine stays ready; the
/// instruction fails exactly when the mode cannot carry it out, with its fault; and
/// otherwise the registers change as the instruction does.
pub open spec fn mode_done<C: Context>(i: Instruction, m: AddressingMode, before: C, after: C, r: Result<(), CpuFault>) -> bool {
    &&& after.bus_ready()
    &&& r.is_ok() == executable(i, m)
    &&& (r matches Err(e) ==> e == fault_of(i))
    &&& log_extends(before, after)
    &&& after.ledger() == before.ledger()
    &&& (r.is_ok() ==> executed_on(i, m, before.cpu().regs, new_events(before, after), after.cpu().regs))
}

/// Extending a record is reflexive and transitive.
pub proof fn lemma_log_extends_trans<C: Context>(a: C, b: C, c: C)
    ensures
        log_extends(a, a),
        log_extends(a, b) && log_extends(b, c) ==> log_extends(a, c),
{
    assert(a.bus_log().subrange(0, a.bus_log().len() as int) =~= a.bus_log());
    if log_extends(a, b) && log_extends(b, c) {
        assert(c.bus_log().subrange(0, a.bus_log().len() as int)
            =~= c.bus_log().subrange(0, b.bus_log().len() as int).subrange(0, a.bus_log().len() as int));
    }
}

/// The record after the accesses `es`.
proof fn lemma_events<C: Context>(before: C, after: C, es: Seq<BusEvent>)
    requires
        after.bus_log() =~= before.bus_log() + es,
    ensures
        new_events(before, after) == es,
        log_extends(before, after),
{
    assert(new_events(before, after) =~= es);
    assert(after.bus_log().subrange(0, before.bus_log().len() as int) =~= before.bus_log());
}

/// The accesses `t` are those that the mode makes.
proof fn lemma_trace(i: Instruction, m: AddressingMode, r: Registers, t: Seq<BusEvent>)
    requires
        mode_effect(i, m, r, t).0 =~= t,
    ensures
        mode_effect(i, m, r, t).0 == t,
{
}

/// Immediate: the operand is the byte after the opcode.
#[verifier::spinoff_prover]
fn imm_inner<C: Context>(cpu: &mut C, instruction: Instruction) -> (r: Result<(), CpuFault>)
    requires
        old(cpu).bus_ready(),
    ensures
        mode_done(instruction, AddressingMode::IMM, *old(cpu), *final(cpu), r),
{
    reveal(mode_effect);
    let ghost r0 = old(cpu).cpu().regs;
    let val = fetch_and_inc_pc(cpu);
    let ghost es = seq![BusEvent::Read(r0.PC, val)];
    proof { lemma_events(*old(cpu), *cpu, es); }
    match instruction.get_operation() {
        Operation::Read => {
            let mut rg = regs(cpu);
            rg.execute_read(instruction, val);
            put_regs(cpu, rg);
            proof { lemma_events(*old(cpu), *cpu, es); }
            assert(executed_with(instruction, AddressingMode::IMM, r0, rg, val, 0));
            proof { lemma_trace(instruction, AddressingMode::IMM, r0, new_events(*old(cpu), *cpu)); }
            Ok(())
        },
        Operation::Unimplemented => Err(CpuFault::Unimplemented),
        Operation::Kill => Err(CpuFault::Kill),
        _ => Err(CpuFault::InvalidMode),
    }
}

/// Accumulator: the operand is A.
#[verifier::spinoff_prover]
fn acc_inner<C: Context>(cpu: &mut C, instruction: Instruction) -> (r: Result<(), CpuFault>)
    requires
        old(cpu).bus_ready(),
    ensures
        mode_done(instruction, AddressingMode::ACC, *old(cpu), *final(cpu), r),
{
    reveal(mode_effect);
    let ghost r0 = old(cpu).cpu().regs;
    let pc = regs(cpu).PC;
    dummy_load(cpu, pc);
    let ghost es = seq![BusEvent::Read(r0.PC, byte_of(cpu.bus_log().last()))];
    proof { lemma_events(*old(cpu), *cpu, es); }
    match instruction.get_operation() {
        Operation::ReadModifyWrite => {
            let mut rg = regs(cpu);
            let val = rg.A;
            let res = rg.execute_rmw(instruction, val);
            rg.A = res;
            put_regs(cpu, rg);
            proof { lemma_events(*old(cpu), *cpu, es); }
            assert(executed_with(instruction, AddressingMode::ACC, r0, rg, 0, 0));
            proof { lemma_trace(instruction, AddressingMode::ACC, r0, new_events(*old(cpu), *cpu)); }
            Ok(())
        },
        Operation::Unimplemented => Err(CpuFault::Unimplemented),
        Operation::Kill => Err(CpuFault::Kill),
        _ => Err(CpuFault::InvalidMode),
    }
}

/// Absolute: a 16-bit address follows the opcode; also JMP and JSR.
#[verifier::spinoff_prover]
fn abs_inner<C: Context>(cpu: &mut C, instruction: Instruction) -> (r: Result<(), CpuFault>)
    requires
        old(cpu).bus_ready(),
    ensures
        mode_done(instruction, AddressingMode::ABS, *old(cpu), *final(cpu), r),
{
    reveal(mode_effect);
    let ghost r0 = old(cpu).cpu().regs;
    let ghost pc1 = wrap16(r0.PC + 1);
    let low = fetch_and_inc_pc(cpu);
    proof { lemma_events(*old(cpu), *cpu, seq![BusEvent::Read(r0.PC, low)]); }
    match instruction.get_operation() {
        Operation::Read => {
            let hi = fetch_and_inc_pc(cpu);
            let addr = (hi as u16) * 256 + low as u16;
            let val = load(cpu, addr);
            let mut rg = regs(cpu);
            rg.execute_read(instruction, val);
            put_regs(cpu, rg);
            proof {
                lemma_events(*old(cpu), *cpu, seq![BusEvent::Read(r0.PC, low), BusEvent::Read(pc1, hi),
                    BusEvent::Read(addr, val)]);
            }
            assert(executed_with(instruction, AddressingMode::ABS, r0, rg, val, 0));
            proof { lemma_trace(instruction, AddressingMode::ABS, r0, new_events(*old(cpu), *cpu)); }
            Ok(())
        },
        Operation::ReadModifyWrite => {
            let hi = fetch_and_inc_pc(cpu);
            let addr = (hi as u16) * 256 + low as u16;
            let val = load(cpu, addr);
            let mut rg = regs(cpu);
            let res = rg.execute_rmw(instruction, val);
            put_regs(cpu, rg);
            assert(executed_with(instruction, AddressingMode::ABS, r0, rg, val, 0));
            dummy_store(cpu, addr, res);
            store(cpu, addr, res);
            proof {
                lemma_events(*old(cpu), *cpu, seq![BusEvent::Read(r0.PC, low), BusEvent::Read(pc1, hi),
                    BusEvent::Read(addr, val), BusEvent::Write(addr, res), BusEvent::Write(addr, res)]);
            }
            proof { lemma_trace(instruction, AddressingMode::ABS, r0, new_events(*old(cpu), *cpu)); }
            Ok(())
        },
        Operation::Write => {
            let hi = fetch_and_inc_pc(cpu);
            let addr = (hi as u16) * 256 + low as u16;
            let res = regs(cpu).execute_write(instruction);
            store(cpu, addr, res);
            proof {
                lemma_events(*old(cpu), *cpu, seq![BusEvent::Read(r0.PC, low), BusEvent::Read(pc1, hi),
                    BusEvent::Write(addr, res)]);
            }
            assert(executed_with(instruction, AddressingMode::ABS, r0, regs_spec(*cpu), 0, 0));
            proof { lemma_trace(instruction, AddressingMode::ABS, r0, new_events(*old(cpu), *cpu)); }
            Ok(())
        },
        Operation::JMP => {
            let hi = fetch_and_inc_pc(cpu);
            let addr = (hi as u16) * 256 + low as u16;
            let mut rg = regs(cpu);
            rg.PC = addr;
            put_regs(cpu, rg);
            proof {
                lemma_events(*old(cpu), *cpu, seq![BusEvent::Read(r0.PC, low), BusEvent::Read(pc1, hi)]);
            }
            assert(executed_with(instruction, AddressingMode::ABS, r0, rg, 0, addr));
            proof { lemma_trace(instruction, AddressingMode::ABS, r0, new_events(*old(cpu), *cpu)); }
            Ok(())
        },
        Operation::JSR => {
            let pc = regs(cpu).PC;
            let pch: u8 = (pc / 256) as u8;
            let pcl: u8 = (pc % 256) as u8;
            let sa = stack_address(cpu);
            dummy_load(cpu, sa);
            let ghost d = byte_of(cpu.bus_log().last());
            push(cpu, pch);
            push(cpu, pcl);
            let high = load(cpu, pc);
            let mut rg = regs(cpu);
            let target: u16 = low as u16 + (high as u16) * 256;
            rg.PC = target;
            put_regs(cpu, rg);
            proof {
                lemma_events(*old(cpu), *cpu, seq![BusEvent::Read(r0.PC, low), BusEvent::Read(stack_at(r0.SP, 0), d),
                    BusEvent::Write(stack_at(r0.SP, 0), pch), BusEvent::Write(stack_at(r0.SP, 1), pcl),
                    BusEvent::Read(pc1, high)]);
            }
            assert(executed_with(instruction, AddressingMode::ABS, r0, rg, 0, target));
            proof { lemma_trace(instruction, AddressingMode::ABS, r0, new_events(*old(cpu), *cpu)); }
            Ok(())
        },
        Operation::Unimplemented => Err(CpuFault::Unimplemented),
        Operation::Kill => Err(CpuFault::Kill),
        _ => Err(CpuFault::InvalidMode),
    }
}

/// Absolute indexed reads.
#[verifier::spinoff_prover]
#[verifier::rlimit(100)]
fn abs_indexed_read<C: Context>(cpu: &mut C, instruction: Instruction, m: AddressingMode) -> (r: Result<(), CpuFault>)
    requires
        old(cpu).bus_ready(),
        m == AddressingMode::ABX || m == AddressingMode::ABY,
        operation_of(instruction) == Operation::Read,
    ensures
        mode_done(instruction, m, *old(cpu), *final(cpu), r),
{
    reveal(mode_effect);
    let ghost r0 = old(cpu).cpu().regs;
    let ghost n0 = old(cpu).bus_log().len() as int;
    let ghost pc1 = wrap16(r0.PC + 1);
    let base = fetch16_and_inc_pc(cpu);
    let ghost b0 = byte_of(cpu.bus_log()[n0]);
    let ghost b1 = byte_of(cpu.bus_log()[n0 + 1]);
    let ghost head = seq![BusEvent::Read(r0.PC, b0), BusEvent::Read(pc1, b1)];
    proof { lemma_events(*old(cpu), *cpu, head); }
    let offset = if m == AddressingMode::ABX { regs(cpu).X } else { regs(cpu).Y };
    let addr = base.wrapping_add(offset as u16);
    proof {
        assert(base == word_at(head, 0, 1));
        assert(addr == wrap16(base + offset));
    }
    match instruction.get_operation() {
        Operation::Read => {
            let val = load(cpu, addr);
            let ghost es = head.push(BusEvent::Read(addr, val));
            if is_cross_page(base, offset) {
                dummy_load(cpu, (base / 256) * 256 + addr % 256);
                proof {
                    lemma_events(*old(cpu), *cpu,
                        es.push(BusEvent::Read(((base / 256) * 256 + addr % 256) as u16, byte_of(cpu.bus_log().last()))));
                }
            } else {
                proof { lemma_events(*old(cpu), *cpu, es); }
            }
            let ghost c1 = *cpu;
            let mut rg = regs(cpu);
            rg.execute_read(instruction, val);
            put_regs(cpu, rg);
            proof { lemma_events(*old(cpu), *cpu, new_events(*old(cpu), c1)); }
            assert(executed_with(instruction, m, r0, rg, val, 0));
            proof { lemma_trace(instruction, m, r0, new_events(*old(cpu), *cpu)); }
            Ok(())
        },
        _ => Err(CpuFault::InvalidMode),
    }
}

/// Absolute indexed read-modify-writes.
#[verifier::spinoff_prover]
#[verifier::rlimit(100)]
fn abs_indexed_rmw<C: Context>(cpu: &mut C, instruction: Instruction, m: AddressingMode) -> (r: Result<(), CpuFault>)
    requires
        old(cpu).bus_ready(),
        m == AddressingMode::ABX || m == AddressingMode::ABY,
        operation_of(instruction) == Operation::ReadModifyWrite,
    ensures
        mode_done(instruction, m, *old(cpu), *final(cpu), r),
{
    reveal(mode_effect);
    let ghost r0 = old(cpu).cpu().regs;
    let ghost n0 = old(cpu).bus_log().len() as int;
    let ghost pc1 = wrap16(r0.PC + 1);
    let base = fetch16_and_inc_pc(cpu);
    let ghost b0 = byte_of(cpu.bus_log()[n0]);
    let ghost b1 = byte_of(cpu.bus_log()[n0 + 1]);
    let ghost head = seq![BusEvent::Read(r0.PC, b0), BusEvent::Read(pc1, b1)];
    proof { lemma_events(*old(cpu), *cpu, head); }
    let offset = if m == AddressingMode::ABX { regs(cpu).X } else { regs(cpu).Y };
    let addr = base.wrapping_add(offset as u16);
    proof {
        assert(base == word_at(head, 0, 1));
        assert(addr == wrap16(base + offset));
    }
    match instruction.get_operation() {
        Operation::ReadModifyWrite => {
            let val = load(cpu, addr);
            dummy_load(cpu, addr);
            let ghost d = byte_of(cpu.bus_log().last());
            let mut rg = regs(cpu);
            let res = rg.execute_rmw(instruction, val);
            put_regs(cpu, rg);
            assert(executed_with(instruction, m, r0, rg, val, 0));
            dummy_store(cpu, addr, res);
            store(cpu, addr, res);
            proof {
                lemma_events(*old(cpu), *cpu, head + seq![BusEvent::Read(addr, val), BusEvent::Read(addr, d),
                    BusEvent::Write(addr, res), BusEvent::Write(addr, res)]);
            }
            proof { lemma_trace(instruction, m, r0, new_events(*old(cpu), *cpu)); }
            Ok(())
        },
        _ => Err(CpuFault::InvalidMode),
    }
}

/// Absolute indexed writes.
#[verifier::spinoff_prover]
#[verifier::rlimit(100)]
fn abs_indexed_write<C: Context>(cpu: &mut C, instruction: Instruction, m: AddressingMode) -> (r: Result<(), CpuFault>)
    requires
        old(cpu).bus_ready(),
        m == AddressingMode::ABX || m == AddressingMode::ABY,
        operation_of(instruction) == Operation::Write,
    ensures
        mode_done(instruction, m, *old(cpu), *final(cpu), r),
{
    reveal(mode_effect);
    let ghost r0 = old(cpu).cpu().regs;
    let ghost n0 = old(cpu).bus_log().len() as int;
    let ghost pc1 = wrap16(r0.PC + 1);
    let base = fetch16_and_inc_pc(cpu);
    let ghost b0 = byte_of(cpu.bus_log()[n0]);
    let ghost b1 = byte_of(cpu.bus_log()[n0 + 1]);
    let ghost head = seq![BusEvent::Read(r0.PC, b0), BusEvent::Read(pc1, b1)];
    proof { lemma_events(*old(cpu), *cpu, head); }
    let offset = if m == AddressingMode::ABX { regs(cpu).X } else { regs(cpu).Y };
    let addr = base.wrapping_add(offset as u16);
    proof {
        assert(base == word_at(head, 0, 1));
        assert(addr == wrap16(base + offset));
    }
    match instruction.get_operation() {
        Operation::Write => {
            dummy_load(cpu, addr);
            let ghost d = byte_of(cpu.bus_log().last());
            let res = regs(cpu).execute_write(instruction);
            store(cpu, addr, res);
            proof {
                lemma_events(*old(cpu), *cpu, head + seq![BusEvent::Read(addr, d), BusEvent::Write(addr, res)]);
            }
            assert(executed_with(instruction, m, r0, regs_spec(*cpu), 0, 0));
            proof { lemma_trace(instruction, m, r0, new_events(*old(cpu), *cpu)); }
            Ok(())
        },
        _ => Err(CpuFault::InvalidMode),
    }
}

/// Absolute indexed by X or Y: the index register is `offset`.
fn abs_indexed<C: Context>(cpu: &mut C, instruction: Instruction, m: AddressingMode) -> (r: Result<(), CpuFault>)
    requires
        old(cpu).bus_ready(),
        m == AddressingMode::ABX || m == AddressingMode::ABY,
    ensures
        mode_done(instruction, m, *old(cpu), *final(cpu), r),
{
    match instruction.get_operation() {
        Operation::Read => abs_indexed_read(cpu, instruction, m),
        Operation::ReadModifyWrite => abs_indexed_rmw(cpu, instruction, m),
        Operation::Write => abs_indexed_write(cpu, instruction, m),
        _ => {
            reveal(mode_effect);
            let ghost r0 = old(cpu).cpu().regs;
            let ghost n0 = old(cpu).bus_log().len() as int;
            let base = fetch16_and_inc_pc(cpu);
            proof {
                lemma_events(*old(cpu), *cpu, seq![BusEvent::Read(r0.PC, byte_of(cpu.bus_log()[n0])),
                    BusEvent::Read(wrap16(r0.PC + 1), byte_of(cpu.bus_log()[n0 + 1]))]);
            }
            match instruction.get_operation() {
                Operation::Unimplemented => Err(CpuFault::Unimplemented),
                Operation::Kill => Err(CpuFault::Kill),
                _ => Err(CpuFault::InvalidMode),
            }
        },
    }
}

/// Absolute indexed by X.
fn abx_inner<C: Context>(cpu: &mut C, instruction: Instruction) -> (r: Result<(), CpuFault>)
    requires
        old(cpu).bus_ready(),
    ensures
        mode_done(instruction, AddressingMode::ABX, *old(cpu), *final(cpu), r),
{
    abs_indexed(cpu, instruction, AddressingMode::ABX)
}

/// Absolute indexed by Y.
fn aby_inner<C: Context>(cpu: &mut C, instruction: Instruction) -> (r: Result<(), CpuFault>)
    requires
        old(cpu).bus_ready(),
    ensures
        mode_done(instruction, AddressingMode::ABY, *old(cpu), *final(cpu), r),
{
    abs_indexed(cpu, instruction, AddressingMode::ABY)
}

/// Zero page: a one-byte address.
#[verifier::spinoff_prover]
fn zpg_inner<C: Context>(cpu: &mut C, instruction: Instruction) -> (r: Result<(), CpuFault>)
    requires
        old(cpu).bus_ready(),
    ensures
        mode_done(instruction, AddressingMode::ZPG, *old(cpu), *final(cpu), r),
{
    reveal(mode_effect);
    let ghost r0 = old(cpu).cpu().regs;
    let a0 = fetch_and_inc_pc(cpu);
    let addr = a0 as u16;
    let ghost head = seq![BusEvent::Read(r0.PC, a0)];
    proof { lemma_events(*old(cpu), *cpu, head); }
    match instruction.get_operation() {
        Operation::Read => {
            let val = load(cpu, addr);
            let mut rg = regs(cpu);
            rg.execute_read(instruction, val);
            put_regs(cpu, rg);
            proof { lemma_events(*old(cpu), *cpu, head.push(BusEvent::Read(addr, val))); }
            assert(executed_with(instruction, AddressingMode::ZPG, r0, rg, val, 0));
            proof { lemma_trace(instruction, AddressingMode::ZPG, r0, new_events(*old(cpu), *cpu)); }
            Ok(())
        },
        Operation::ReadModifyWrite => {
            let val = load(cpu, addr);
            let mut rg = regs(cpu);
            let res = rg.execute_rmw(instruction, val);
            put_regs(cpu, rg);
            assert(executed_with(instruction, AddressingMode::ZPG, r0, rg, val, 0));
            dummy_store(cpu, addr, res);
            store(cpu, addr, res);
            proof {
                lemma_events(*old(cpu), *cpu, head + seq![BusEvent::Read(addr, val), BusEvent::Write(addr, res),
                    BusEvent::Write(addr, res)]);
            }
            proof { lemma_trace(instruction, AddressingMode::ZPG, r0, new_events(*old(cpu), *cpu)); }
            Ok(())
        },
        Operation::Write => {
            let res = regs(cpu).execute_write(instruction);
            store(cpu, addr, res);
            proof { lemma_events(*old(cpu), *cpu, head.push(BusEvent::Write(addr, res))); }
            assert(executed_with(instruction, AddressingMode::ZPG, r0, regs_spec(*cpu), 0, 0));
            proof { lemma_trace(instruction, AddressingMode::ZPG, r0, new_events(*old(cpu), *cpu)); }
            Ok(())
        },
        Operation::Unimplemented => Err(CpuFault::Unimplemented),
        Operation::Kill => Err(CpuFault::Kill),
        _ => Err(CpuFault::InvalidMode),
    }
}

/// Zero page indexed by X or Y, wrapping within the zero page.
#[verifier::spinoff_prover]
fn zp_indexed<C: Context>(cpu: &mut C, instruction: Instruction, m: AddressingMode) -> (r: Result<(), CpuFault>)
    requires
        old(cpu).bus_ready(),
        m == AddressingMode::ZPX || m == AddressingMode::ZPY,
    ensures
        mode_done(instruction, m, *old(cpu), *final(cpu), r),
{
    reveal(mode_effect);
    let ghost r0 = old(cpu).cpu().regs;
    let b = fetch_and_inc_pc(cpu);
    let base = b as u16;
    let offset = if m == AddressingMode::ZPX { regs(cpu).X } else { regs(cpu).Y };
    let addr: u16 = (base + offset as u16) % 256;
    dummy_load(cpu, base);
    let ghost head = seq![BusEvent::Read(r0.PC, b), BusEvent::Read(base, byte_of(cpu.bus_log().last()))];
    proof { lemma_events(*old(cpu), *cpu, head); }
    match instruction.get_operation() {
        Operation::Read => {
            let val = load(cpu, addr);
            let mut rg = regs(cpu);
            rg.execute_read(instruction, val);
            put_regs(cpu, rg);
            proof {
                let es = head.push(BusEvent::Read(addr, val));
                lemma_events(*old(cpu), *cpu, es);
                let t = new_events(*old(cpu), *cpu);
                assert(t == es);
                assert(byte_of(t[0]) == b);
                assert(byte_of(t[2]) == val);
                assert(zpx_effect(instruction, m, r0, t).0 =~= t);
                assert(mode_effect(instruction, m, r0, t).0 =~= t);
            }
            assert(executed_with(instruction, m, r0, rg, val, 0));
            proof { lemma_trace(instruction, m, r0, new_events(*old(cpu), *cpu)); }
            Ok(())
        },
        Operation::ReadModifyWrite => {
            let val = load(cpu, addr);
            let mut rg = regs(cpu);
            let res = rg.execute_rmw(instruction, val);
            put_regs(cpu, rg);
            assert(executed_with(instruction, m, r0, rg, val, 0));
            dummy_store(cpu, addr, res);
            store(cpu, addr, res);
            proof {
                lemma_events(*old(cpu), *cpu, head + seq![BusEvent::Read(addr, val), BusEvent::Write(addr, res),
                    BusEvent::Write(addr, res)]);
            }
            proof { lemma_trace(instruction, m, r0, new_events(*old(cpu), *cpu)); }
            Ok(())
        },
        Operation::Write => {
            let res = regs(cpu).execute_write(instruction);
            store(cpu, addr, res);
            proof { lemma_events(*old(cpu), *cpu, head.push(BusEvent::Write(addr, res))); }
            assert(executed_with(instruction, m, r0, regs_spec(*cpu), 0, 0));
            proof { lemma_trace(instruction, m, r0, new_events(*old(cpu), *cpu)); }
            Ok(())
        },
        Operation::Unimplemented => Err(CpuFault::Unimplemented),
        Operation::Kill => Err(CpuFault::Kill),
        _ => Err(CpuFault::InvalidMode),
    }
}

/// Zero page indexed by X, wrapping within the zero page.
fn zpx_inner<C: Context>(cpu: &mut C, instruction: Instruction) -> (r: Result<(), CpuFault>)
    requires
        old(cpu).bus_ready(),
    ensures
        mode_done(instruction, AddressingMode::ZPX, *old(cpu), *final(cpu), r),
{
    zp_indexed(cpu, instruction, AddressingMode::ZPX)
}

/// Zero page indexed by Y, wrapping within the zero page.
fn zpy_inner<C: Context>(cpu: &mut C, instruction: Instruction) -> (r: Result<(), CpuFault>)
    requires
        old(cpu).bus_ready(),
    ensures
        mode_done(instruction, AddressingMode::ZPY, *old(cpu), *final(cpu), r),
{
    zp_indexed(cpu, instruction, AddressingMode::ZPY)
}

/// Indexed indirect: the address is read from the zero page at the operand plus X.
#[verifier::spinoff_prover]
#[verifier::rlimit(80)]
fn izx_inner<C: Context>(cpu: &mut C, instruction: Instruction) -> (r: Result<(), CpuFault>)
    requires
        old(cpu).bus_ready(),
    ensures
        mode_done(instruction, AddressingMode::IZX, *old(cpu), *final(cpu), r),
{
    reveal(mode_effect);
    let ghost r0 = old(cpu).cpu().regs;
    let pointer = fetch_and_inc_pc(cpu);
    dummy_load(cpu, pointer as u16);
    let ghost d = byte_of(cpu.bus_log().last());
    let pointer2 = pointer.wrapping_add(regs(cpu).X);
    let lo = load(cpu, pointer2 as u16);
    let hi = load(cpu, pointer2.wrapping_add(1) as u16);
    let low = lo as u16;
    let high = hi as u16;
    let addr: u16 = low + high * 256;
    let ghost head = seq![BusEvent::Read(r0.PC, pointer), BusEvent::Read(pointer as u16, d),
        BusEvent::Read(pointer2 as u16, lo), BusEvent::Read(pointer2.wrapping_add(1) as u16, hi)];
    proof {
        lemma_events(*old(cpu), *cpu, head);
        assert(pointer2 as u16 == ((pointer + r0.X) % 256) as u16);
        assert(pointer2.wrapping_add(1) as u16 == ((pointer + r0.X + 1) % 256) as u16);
        assert(addr == word_at(head, 2, 3));
    }
    match instruction.get_operation() {
        Operation::Read => {
            let val = load(cpu, addr);
            let mut rg = regs(cpu);
            rg.execute_read(instruction, val);
            put_regs(cpu, rg);
            proof { lemma_events(*old(cpu), *cpu, head.push(BusEvent::Read(addr, val))); }
            assert(executed_with(instruction, AddressingMode::IZX, r0, rg, val, 0));
            proof { lemma_trace(instruction, AddressingMode::IZX, r0, new_events(*old(cpu), *cpu)); }
            Ok(())
        },
        Operation::ReadModifyWrite => {
            let val = load(cpu, addr);
            let mut rg = regs(cpu);
            let res = rg.execute_rmw(instruction, val);
            put_regs(cpu, rg);
            assert(executed_with(instruction, AddressingMode::IZX, r0, rg, val, 0));
            dummy_store(cpu, addr, res);
            store(cpu, addr, res);
            proof {
                lemma_events(*old(cpu), *cpu, head + seq![BusEvent::Read(addr, val), BusEvent::Write(addr, res),
                    BusEvent::Write(addr, res)]);
            }
            proof { lemma_trace(instruction, AddressingMode::IZX, r0, new_events(*old(cpu), *cpu)); }
            Ok(())
        },
        Operation::Write => {
            let res = regs(cpu).execute_write(instruction);
            store(cpu, addr, res);
            proof { lemma_events(*old(cpu), *cpu, head.push(BusEvent::Write(addr, res))); }
            assert(executed_with(instruction, AddressingMode::IZX, r0, regs_spec(*cpu), 0, 0));
            proof { lemma_trace(instruction, AddressingMode::IZX, r0, new_events(*old(cpu), *cpu)); }
            Ok(())
        },
        Operation::Unimplemented => Err(CpuFault::Unimplemented),
        Operation::Kill => Err(CpuFault::Kill),
        _ => Err(CpuFault::InvalidMode),
    }
}

/// Indirect indexed: the address is read from the zero page at the operand, plus Y.
#[verifier::spinoff_prover]
#[verifier::rlimit(80)]
fn izy_inner<C: Context>(cpu: &mut C, instruction: Instruction) -> (r: Result<(), CpuFault>)
    requires
        old(cpu).bus_ready(),
    ensures
        mode_done(instruction, AddressingMode::IZY, *old(cpu), *final(cpu), r),
{
    reveal(mode_effect);
    let ghost r0 = old(cpu).cpu().regs;
    let pointer = fetch_and_inc_pc(cpu);
    let lo = load(cpu, pointer as u16);
    let hi = load(cpu, pointer.wrapping_add(1) as u16);
    let low = lo as u16;
    let high = hi as u16;
    let base: u16 = low + high * 256;
    let offset = regs(cpu).Y;
    let addr = base.wrapping_add(offset as u16);
    let ghost head = seq![BusEvent::Read(r0.PC, pointer), BusEvent::Read(pointer as u16, lo),
        BusEvent::Read(pointer.wrapping_add(1) as u16, hi)];
    proof {
        lemma_events(*old(cpu), *cpu, head);
        assert(pointer.wrapping_add(1) as u16 == ((pointer + 1) % 256) as u16);
        assert(base == word_at(head, 1, 2));
        assert(addr == wrap16(base + r0.Y));
    }
    match instruction.get_operation() {
        Operation::Read => {
            if is_cross_page(base, offset) {
                dummy_load(cpu, (base / 256) * 256 + addr % 256);
                proof {
                    lemma_events(*old(cpu), *cpu, head.push(BusEvent::Read(((base / 256) * 256 + addr % 256) as u16,
                        byte_of(cpu.bus_log().last()))));
                }
            }
            let ghost hd = new_events(*old(cpu), *cpu);
            let val = load(cpu, addr);
            let mut rg = regs(cpu);
            rg.execute_read(instruction, val);
            put_regs(cpu, rg);
            proof { lemma_events(*old(cpu), *cpu, hd.push(BusEvent::Read(addr, val))); }
            assert(executed_with(instruction, AddressingMode::IZY, r0, rg, val, 0));
            proof { lemma_trace(instruction, AddressingMode::IZY, r0, new_events(*old(cpu), *cpu)); }
            Ok(())
        },
        Operation::ReadModifyWrite => {
            dummy_load(cpu, addr);
            let ghost d = byte_of(cpu.bus_log().last());
            let val = load(cpu, addr);
            let mut rg = regs(cpu);
            let res = rg.execute_rmw(instruction, val);
            put_regs(cpu, rg);
            assert(executed_with(instruction, AddressingMode::IZY, r0, rg, val, 0));
            dummy_store(cpu, addr, res);
            store(cpu, addr, res);
            proof {
                lemma_events(*old(cpu), *cpu, head + seq![BusEvent::Read(addr, d), BusEvent::Read(addr, val),
                    BusEvent::Write(addr, res), BusEvent::Write(addr, res)]);
            }
            proof { lemma_trace(instruction, AddressingMode::IZY, r0, new_events(*old(cpu), *cpu)); }
            Ok(())
        },
        Operation::Write => {
            dummy_load(cpu, addr);
            let ghost d = byte_of(cpu.bus_log().last());
            let res = regs(cpu).execute_write(instruction);
            store(cpu, addr, res);
            proof {
                lemma_events(*old(cpu), *cpu, head + seq![BusEvent::Read(addr, d), BusEvent::Write(addr, res)]);
            }
            assert(executed_with(instruction, AddressingMode::IZY, r0, regs_spec(*cpu), 0, 0));
            proof { lemma_trace(instruction, AddressingMode::IZY, r0, new_events(*old(cpu), *cpu)); }
            Ok(())
        },
        Operation::Unimplemented => Err(CpuFault::Unimplemented),
        Operation::Kill => Err(CpuFault::Kill),
        _ => Err(CpuFault::InvalidMode),
    }
}

/// Implied instructions on registers, and the pushes.
#[verifier::spinoff_prover]
#[verifier::rlimit(60)]
fn imp_register<C: Context>(cpu: &mut C, instruction: Instruction) -> (r: Result<(), CpuFault>)
    requires
        old(cpu).bus_ready(),
        operation_of(instruction) == Operation::Read || operation_of(instruction) == Operation::SetRegister || operation_of(instruction) == Operation::PHP || operation_of(instruction) == Operation::PHA,
    ensures
        mode_done(instruction, AddressingMode::IMP, *old(cpu), *final(cpu), r),
{
    reveal(mode_effect);
    let ghost r0 = old(cpu).cpu().regs;
    let pc = regs(cpu).PC;
    dummy_load(cpu, pc);
    let ghost head = seq![BusEvent::Read(r0.PC, byte_of(cpu.bus_log().last()))];
    proof { lemma_events(*old(cpu), *cpu, head); }
    match instruction.get_operation() {
        Operation::Read => {
            assert(executed_with(instruction, AddressingMode::IMP, r0, regs_spec(*cpu), 0, 0));
            proof { lemma_trace(instruction, AddressingMode::IMP, r0, new_events(*old(cpu), *cpu)); }
            Ok(())
        },
        Operation::SetRegister => {
            let mut rg = regs(cpu);
            rg.execute_set(instruction);
            put_regs(cpu, rg);
            proof { lemma_events(*old(cpu), *cpu, head); }
            assert(executed_with(instruction, AddressingMode::IMP, r0, rg, 0, 0));
            proof { lemma_trace(instruction, AddressingMode::IMP, r0, new_events(*old(cpu), *cpu)); }
            Ok(())
        },
        Operation::PHP => {
            let p = regs(cpu).P.bits;
            push(cpu, p);
            proof { lemma_events(*old(cpu), *cpu, head.push(BusEvent::Write(stack_at(r0.SP, 0), p))); }
            assert(executed_with(instruction, AddressingMode::IMP, r0, regs_spec(*cpu), 0, 0));
            proof { lemma_trace(instruction, AddressingMode::IMP, r0, new_events(*old(cpu), *cpu)); }
            Ok(())
        },
        Operation::PHA => {
            let a = regs(cpu).A;
            push(cpu, a);
            proof { lemma_events(*old(cpu), *cpu, head.push(BusEvent::Write(stack_at(r0.SP, 0), a))); }
            assert(executed_with(instruction, AddressingMode::IMP, r0, regs_spec(*cpu), 0, 0));
            proof { lemma_trace(instruction, AddressingMode::IMP, r0, new_events(*old(cpu), *cpu)); }
            Ok(())
        },
        _ => Err(CpuFault::InvalidMode),
    }
}

/// The pulls.
#[verifier::spinoff_prover]
#[verifier::rlimit(60)]
fn imp_pull<C: Context>(cpu: &mut C, instruction: Instruction) -> (r: Result<(), CpuFault>)
    requires
        old(cpu).bus_ready(),
        operation_of(instruction) == Operation::PLP || operation_of(instruction) == Operation::PLA,
    ensures
        mode_done(instruction, AddressingMode::IMP, *old(cpu), *final(cpu), r),
{
    reveal(mode_effect);
    let ghost r0 = old(cpu).cpu().regs;
    let pc = regs(cpu).PC;
    dummy_load(cpu, pc);
    let ghost head = seq![BusEvent::Read(r0.PC, byte_of(cpu.bus_log().last()))];
    proof { lemma_events(*old(cpu), *cpu, head); }
    match instruction.get_operation() {
        Operation::PLP => {
            let sa = stack_address(cpu);
            dummy_load(cpu, sa);
            let ghost d = byte_of(cpu.bus_log().last());
            let new_p = pull(cpu);
            let mut rg = regs(cpu);
            rg.P = Flags { bits: new_p };
            put_regs(cpu, rg);
            proof {
                lemma_events(*old(cpu), *cpu, head + seq![BusEvent::Read(stack_at(r0.SP, 0), d),
                    BusEvent::Read(stack_at(r0.SP, -1), new_p)]);
            }
            assert(executed_with(instruction, AddressingMode::IMP, r0, rg, new_p, 0));
            proof { lemma_trace(instruction, AddressingMode::IMP, r0, new_events(*old(cpu), *cpu)); }
            Ok(())
        },
        Operation::PLA => {
            let sa = stack_address(cpu);
            dummy_load(cpu, sa);
            let ghost d = byte_of(cpu.bus_log().last());
            let new_a = pull(cpu);
            let mut rg = regs(cpu);
            rg.A = rg.set_nz(new_a);
            put_regs(cpu, rg);
            proof {
                lemma_events(*old(cpu), *cpu, head + seq![BusEvent::Read(stack_at(r0.SP, 0), d),
                    BusEvent::Read(stack_at(r0.SP, -1), new_a)]);
            }
            assert(executed_with(instruction, AddressingMode::IMP, r0, rg, new_a, 0));
            proof { lemma_trace(instruction, AddressingMode::IMP, r0, new_events(*old(cpu), *cpu)); }
            Ok(())
        },
        _ => Err(CpuFault::InvalidMode),
    }
}

/// The returns from an interrupt and from a subroutine.
#[verifier::spinoff_prover]
#[verifier::rlimit(60)]
fn imp_return<C: Context>(cpu: &mut C, instruction: Instruction) -> (r: Result<(), CpuFault>)
    requires
        old(cpu).bus_ready(),
        operation_of(instruction) == Operation::RTI || operation_of(instruction) == Operation::RTS,
    ensures
        mode_done(instruction, AddressingMode::IMP, *old(cpu), *final(cpu), r),
{
    reveal(mode_effect);
    let ghost r0 = old(cpu).cpu().regs;
    let pc = regs(cpu).PC;
    dummy_load(cpu, pc);
    let ghost head = seq![BusEvent::Read(r0.PC, byte_of(cpu.bus_log().last()))];
    proof { lemma_events(*old(cpu), *cpu, head); }
    match instruction.get_operation() {
        Operation::RTI => {
            let sa = stack_address(cpu);
            dummy_load(cpu, sa);
            let ghost d = byte_of(cpu.bus_log().last());
            let new_p = pull(cpu);
            let mut rg = regs(cpu);
            rg.P = Flags { bits: new_p };
            put_regs(cpu, rg);
            let lo = pull(cpu);
            let hi = pull(cpu);
            let pcl = lo as u16;
            let pch = hi as u16;
            let mut rg = regs(cpu);
            rg.PC = pcl + pch * 256;
            put_regs(cpu, rg);
            proof {
                lemma_events(*old(cpu), *cpu, head + seq![BusEvent::Read(stack_at(r0.SP, 0), d),
                    BusEvent::Read(stack_at(r0.SP, -1), new_p), BusEvent::Read(stack_at(r0.SP, -2), lo),
                    BusEvent::Read(stack_at(r0.SP, -3), hi)]);
            }
            assert(executed_with(instruction, AddressingMode::IMP, r0, rg, new_p, rg.PC));
            proof { lemma_trace(instruction, AddressingMode::IMP, r0, new_events(*old(cpu), *cpu)); }
            Ok(())
        },
        Operation::RTS => {
            let sa = stack_address(cpu);
            dummy_load(cpu, sa);
            let ghost d = byte_of(cpu.bus_log().last());
            let lo = pull(cpu);
            let hi = pull(cpu);
            let pcl = lo as u16;
            let pch = hi as u16;
            let mut rg = regs(cpu);
            rg.PC = pcl + pch * 256;
            put_regs(cpu, rg);
            let e = fetch_and_inc_pc(cpu);
            proof {
                lemma_events(*old(cpu), *cpu, head + seq![BusEvent::Read(stack_at(r0.SP, 0), d),
                    BusEvent::Read(stack_at(r0.SP, -1), lo), BusEvent::Read(stack_at(r0.SP, -2), hi),
                    BusEvent::Read((pcl + pch * 256) as u16, e)]);
            }
            assert(executed_with(instruction, AddressingMode::IMP, r0, regs_spec(*cpu), 0, regs_spec(*cpu).PC));
            proof { lemma_trace(instruction, AddressingMode::IMP, r0, new_events(*old(cpu), *cpu)); }
            Ok(())
        },
        _ => Err(CpuFault::InvalidMode),
    }
}

/// BRK: the software interrupt.
#[verifier::spinoff_prover]
#[verifier::rlimit(60)]
fn imp_brk<C: Context>(cpu: &mut C, instruction: Instruction) -> (r: Result<(), CpuFault>)
    requires
        old(cpu).bus_ready(),
        operation_of(instruction) == Operation::BRK,
    ensures
        mode_done(instruction, AddressingMode::IMP, *old(cpu), *final(cpu), r),
{
    reveal(mode_effect);
    let ghost r0 = old(cpu).cpu().regs;
    let pc = regs(cpu).PC;
    dummy_load(cpu, pc);
    let ghost head = seq![BusEvent::Read(r0.PC, byte_of(cpu.bus_log().last()))];
    proof { lemma_events(*old(cpu), *cpu, head); }
    match instruction.get_operation() {
        Operation::BRK => {
            let pc = regs(cpu).PC.wrapping_add(1);
            let pch: u8 = (pc / 256) as u8;
            let pcl: u8 = (pc % 256) as u8;
            push(cpu, pch);
            push(cpu, pcl);
            let interrupt_addr = if cpu.state().nmi { INT_NMI_ADDRESS } else { INT_IRQ_BRK_ADDRESS };
            let mut rg = regs(cpu);
            rg.P.set(FLAG_B, true);
            put_regs(cpu, rg);
            let p = regs(cpu).P.bits;
            push(cpu, p);
            let mut rg = regs(cpu);
            rg.P.set(FLAG_I, true);
            put_regs(cpu, rg);
            let ghost n1 = cpu.bus_log().len() as int;
            let target = load16(cpu, interrupt_addr);
            let mut rg = regs(cpu);
            rg.PC = target;
            put_regs(cpu, rg);
            proof {
                lemma_events(*old(cpu), *cpu, head + seq![BusEvent::Write(stack_at(r0.SP, 0), pch),
                    BusEvent::Write(stack_at(r0.SP, 1), pcl), BusEvent::Write(stack_at(r0.SP, 2), p),
                    BusEvent::Read(interrupt_addr, byte_of(cpu.bus_log()[n1])),
                    BusEvent::Read(wrap16(interrupt_addr + 1), byte_of(cpu.bus_log()[n1 + 1]))]);
            }
            assert(executed_with(instruction, AddressingMode::IMP, r0, rg, 0, target));
            proof { lemma_trace(instruction, AddressingMode::IMP, r0, new_events(*old(cpu), *cpu)); }
            Ok(())
        },
        _ => Err(CpuFault::InvalidMode),
    }
}

/// Implied: no operand; register instructions, stack instructions, returns and BRK.
#[verifier::spinoff_prover]
fn imp_inner<C: Context>(cpu: &mut C, instruction: Instruction) -> (r: Result<(), CpuFault>)
    requires
        old(cpu).bus_ready(),
    ensures
        mode_done(instruction, AddressingMode::IMP, *old(cpu), *final(cpu), r),
{
    reveal(mode_effect);
    match instruction.get_operation() {
        Operation::Read | Operation::SetRegister | Operation::PHP | Operation::PHA => imp_register(cpu, instruction),
        Operation::PLP | Operation::PLA => imp_pull(cpu, instruction),
        Operation::RTI | Operation::RTS => imp_return(cpu, instruction),
        Operation::BRK => imp_brk(cpu, instruction),
        _ => {
            let ghost r0 = old(cpu).cpu().regs;
            let pc = regs(cpu).PC;
            dummy_load(cpu, pc);
            proof { lemma_events(*old(cpu), *cpu, seq![BusEvent::Read(r0.PC, byte_of(cpu.bus_log().last()))]); }
            match instruction.get_operation() {
                Operation::Unimplemented => Err(CpuFault::Unimplemented),
                Operation::Kill => Err(CpuFault::Kill),
                _ => Err(CpuFault::InvalidMode),
            }
        },
    }
}

/// Indirect (JMP only): the target is read from the address that follows the opcode;
/// its high byte comes from the same page (the 6502 does not carry into the page).
#[verifier::spinoff_prover]
fn ind_inner<C: Context>(cpu: &mut C, instruction: Instruction) -> (r: Result<(), CpuFault>)
    requires
        old(cpu).bus_ready(),
    ensures
        mode_done(instruction, AddressingMode::IND, *old(cpu), *final(cpu), r),
{
    reveal(mode_effect);
    let ghost r0 = old(cpu).cpu().regs;
    let ghost n0 = old(cpu).bus_log().len() as int;
    let pointer = fetch16_and_inc_pc(cpu);
    let ghost b0 = byte_of(cpu.bus_log()[n0]);
    let ghost b1 = byte_of(cpu.bus_log()[n0 + 1]);
    let lo = load(cpu, pointer);
    let hi_addr = (pointer / 256) * 256 + pointer.wrapping_add(1) % 256;
    let hi = load(cpu, hi_addr);
    let low = lo as u16;
    let high = hi as u16;
    let addr: u16 = low + high * 256;
    proof {
        lemma_events(*old(cpu), *cpu, seq![BusEvent::Read(r0.PC, b0), BusEvent::Read(wrap16(r0.PC + 1), b1),
            BusEvent::Read(pointer, lo), BusEvent::Read(hi_addr, hi)]);
    }
    match instruction.get_operation() {
        Operation::JMP => {
            let mut rg = regs(cpu);
            rg.PC = addr;
            put_regs(cpu, rg);
            proof {
                lemma_events(*old(cpu), *cpu, seq![BusEvent::Read(r0.PC, b0), BusEvent::Read(wrap16(r0.PC + 1), b1),
                    BusEvent::Read(pointer, lo), BusEvent::Read(hi_addr, hi)]);
            }
            assert(executed_with(instruction, AddressingMode::IND, r0, rg, 0, addr));
            proof { lemma_trace(instruction, AddressingMode::IND, r0, new_events(*old(cpu), *cpu)); }
            Ok(())
        },
        Operation::Unimplemented => Err(CpuFault::Unimplemented),
        Operation::Kill => Err(CpuFault::Kill),
        _ => Err(CpuFault::InvalidMode),
    }
}

/// Relative (branches): a signed offset from the address of the next instruction.
#[verifier::spinoff_prover]
fn rel_inner<C: Context>(cpu: &mut C, instruction: Instruction) -> (r: Result<(), CpuFault>)
    requires
        old(cpu).bus_ready(),
    ensures
        mode_done(instruction, AddressingMode::REL, *old(cpu), *final(cpu), r),
{
    reveal(mode_effect);
    let ghost r0 = old(cpu).cpu().regs;
    let operand = fetch_and_inc_pc(cpu);
    let ghost head = seq![BusEvent::Read(r0.PC, operand)];
    proof { lemma_events(*old(cpu), *cpu, head); }
    match instruction.get_operation() {
        Operation::BranchOn(flag, is_set) => {
            if regs(cpu).P.contains(flag.bits) == is_set {
                let old_pc = regs(cpu).PC;
                let offset: u16 = if operand >= 128 { operand as u16 + 0xFF00 } else { operand as u16 };
                let new_pc = old_pc.wrapping_add(offset);
                dummy_load(cpu, old_pc);
                let ghost d = byte_of(cpu.bus_log().last());
                let mut rg = regs(cpu);
                rg.PC = new_pc;
                put_regs(cpu, rg);
                if !on_same_page(old_pc, new_pc) {
                    let fix = (old_pc / 256) * 256 + new_pc % 256;
                    dummy_load(cpu, fix);
                    proof {
                        lemma_events(*old(cpu), *cpu, head + seq![BusEvent::Read(old_pc, d),
                            BusEvent::Read(fix, byte_of(cpu.bus_log().last()))]);
                    }
                } else {
                    proof { lemma_events(*old(cpu), *cpu, head.push(BusEvent::Read(old_pc, d))); }
                }
            }
            assert(executed_with(instruction, AddressingMode::REL, r0, regs_spec(*cpu), operand, 0));
            proof { lemma_trace(instruction, AddressingMode::REL, r0, new_events(*old(cpu), *cpu)); }
            Ok(())
        },
        Operation::Unimplemented => Err(CpuFault::Unimplemented),
        Operation::Kill => Err(CpuFault::Kill),
        _ => Err(CpuFault::InvalidMode),
    }
}

impl AddressingMode {
    /// Carries out an instruction in this addressing mode.
    pub fn execute_instruction<C: Context>(&self, cpu: &mut C, instruction: Instruction) -> (r: Result<(), CpuFault>)
        requires
            old(cpu).bus_ready(),
        ensures
            mode_done(instruction, *self, *old(cpu), *final(cpu), r),
    {
        match self {
            AddressingMode::IMM => imm_inner(cpu, instruction),
            AddressingMode::ACC => acc_inner(cpu, instruction),
            AddressingMode::ABS => abs_inner(cpu, instruction),
            AddressingMode::ABX => abx_inner(cpu, instruction),
            AddressingMode::ABY => aby_inner(cpu, instruction),
            AddressingMode::ZPG => zpg_inner(cpu, instruction),
            AddressingMode::ZPX => zpx_inner(cpu, instruction),
            AddressingMode::ZPY => zpy_inner(cpu, instruction),
            AddressingMode::IZX => izx_inner(cpu, instruction),
            AddressingMode::IZY => izy_inner(cpu, instruction),
            AddressingMode::IMP => imp_inner(cpu, instruction),
            AddressingMode::IND => ind_inner(cpu, instruction),
            AddressingMode::REL => rel_inner(cpu, instruction),
        }
    }
}

/// Fetches the opcode at PC and carries out its instruction.
pub fn execute_one_instruction<C: Context>(cpu: &mut C) -> (r: Result<(), CpuFault>)
    requires
        old(cpu).bus_ready(),
    ensures
        final(cpu).bus_ready(),
        log_extends(*old(cpu), *final(cpu)),
        instruction_done(old(cpu).cpu().regs, new_events(*old(cpu), *final(cpu)), final(cpu).cpu().regs, r),
        r != Err::<(), CpuFault>(CpuFault::InvalidMode),
        final(cpu).ledger() == old(cpu).ledger(),
{
    let ghost r0 = old(cpu).cpu().regs;
    let opcode: u8 = fetch_and_inc_pc(cpu);
    proof { lemma_events(*old(cpu), *cpu, seq![BusEvent::Read(r0.PC, opcode)]); }
    let ghost c1 = *cpu;
    let (instruction, mode) = decode(opcode);
    proof { lemma_decode_table_consistent(opcode); }
    let r = mode.execute_instruction(cpu, instruction);
    proof {
        let t1 = new_events(c1, *cpu);
        lemma_events(*old(cpu), *cpu, seq![BusEvent::Read(r0.PC, opcode)] + t1);
        assert(new_events(*old(cpu), *cpu).drop_first() =~= t1);
    }
    r
}

/// What carrying out one instruction does, from the registers `before` with the bus
/// accesses `t`: the first access fetches the opcode at PC; the instruction it decodes
/// to fails exactly when the core cannot carry it out, and otherwise makes the accesses
/// of its mode and changes the registers as it does.
pub open spec fn instruction_done(before: Registers, t: Seq<BusEvent>, after: Registers, r: Result<(), CpuFault>) -> bool {
    let opcode = byte_of(t[0]);
    let (i, m) = decoded(opcode);
    &&& t.len() >= 1
    &&& t[0] == BusEvent::Read(before.PC, opcode)
    &&& r.is_ok() == executable(i, m)
    &&& (r matches Err(e) ==> e == fault_of(i))
    &&& (r.is_ok() ==> executed_on(i, m, pc_plus(before, 1), t.drop_first(), after))
}

/// The registers after the interrupt sequence: PC and the flags (B clear) pushed,
/// interrupts disabled, PC loaded from the vector `w`.
pub open spec fn interrupted(r: Registers, w: u16) -> Registers {
    Registers { SP: sp_down(r.SP, 3), P: r.P.with(FLAG_B, false).with(FLAG_I, true), PC: w, ..r }
}

/// The bus accesses of the interrupt sequence from the registers `r`, through the NMI
/// vector or the IRQ one, as the trace `t` of what the bus gave: two reads at PC, PC
/// (high, then low) and the flags with B clear pushed, then the vector's two bytes.
pub open spec fn interrupt_events(r: Registers, nmi: bool, t: Seq<BusEvent>) -> Seq<BusEvent> {
    let vec = if nmi { INT_NMI_ADDRESS } else { INT_IRQ_BRK_ADDRESS };
    seq![rd(t, 0, r.PC), rd(t, 1, r.PC), BusEvent::Write(stack_at(r.SP, 0), (r.PC / 256) as u8),
        BusEvent::Write(stack_at(r.SP, 1), (r.PC % 256) as u8), BusEvent::Write(stack_at(r.SP, 2), r.P.with(FLAG_B, false).bits),
        rd(t, 5, vec), rd(t, 6, (vec + 1) as u16)]
}

/// Takes a hardware interrupt: pushes PC and the flags and jumps through the NMI vector
/// ($FFFA) when the NMI line is raised, otherwise through the IRQ vector ($FFFE).
pub fn hardware_interrupt<C: Context>(cpu: &mut C)
    requires
        old(cpu).bus_ready(),
    ensures
        final(cpu).bus_ready(),
        log_extends(*old(cpu), *final(cpu)),
        ({
            let t = new_events(*old(cpu), *final(cpu));
            &&& t == interrupt_events(old(cpu).cpu().regs, old(cpu).cpu().nmi, t)
            &&& final(cpu).cpu().regs == interrupted(old(cpu).cpu().regs, word_at(t, 5, 6))
        }),
        final(cpu).ledger() == old(cpu).ledger(),
{
    let ghost r0 = old(cpu).cpu().regs;
    let interrupt_addr = if cpu.state().nmi { INT_NMI_ADDRESS } else { INT_IRQ_BRK_ADDRESS };
    let pc = regs(cpu).PC;
    dummy_load(cpu, pc);
    let ghost d0 = byte_of(cpu.bus_log().last());
    dummy_load(cpu, pc);
    let ghost d1 = byte_of(cpu.bus_log().last());
    let pch: u8 = (pc / 256) as u8;
    let pcl: u8 = (pc % 256) as u8;
    push(cpu, pch);
    push(cpu, pcl);
    let mut rg = regs(cpu);
    rg.P.set(FLAG_B, false);
    put_regs(cpu, rg);
    let p = regs(cpu).P.bits;
    push(cpu, p);
    let mut rg = regs(cpu);
    rg.P.set(FLAG_I, true);
    put_regs(cpu, rg);
    let ghost n1 = cpu.bus_log().len() as int;
    let target = load16(cpu, interrupt_addr);
    let mut rg = regs(cpu);
    rg.PC = target;
    put_regs(cpu, rg);
    proof {
        let es = seq![BusEvent::Read(pc, d0), BusEvent::Read(pc, d1), BusEvent::Write(stack_at(r0.SP, 0), pch),
            BusEvent::Write(stack_at(r0.SP, 1), pcl), BusEvent::Write(stack_at(r0.SP, 2), p),
            BusEvent::Read(interrupt_addr, byte_of(cpu.bus_log()[n1])),
            BusEvent::Read(wrap16(interrupt_addr + 1), byte_of(cpu.bus_log()[n1 + 1]))];
        lemma_events(*old(cpu), *cpu, es);
        assert(interrupt_events(r0, old(cpu).cpu().nmi, es) =~= es);
    }
    assert(rg == interrupted(r0, target));
}

/// The registers after a reset that read `w` from the reset vector.
pub open spec fn reset_regs(r: Registers, w: u16) -> Registers {
    Registers { SP: 0xFD, PC: w, ..r }
}

/// Reset: the stack pointer goes to $FD and PC is loaded from the reset vector ($FFFC).
pub fn reset<C: Context>(cpu: &mut C)
    requires
        old(cpu).bus_ready(),
    ensures
        final(cpu).bus_ready(),
        log_extends(*old(cpu), *final(cpu)),
        ({
            let t = new_events(*old(cpu), *final(cpu));
            &&& t == seq![rd(t, 0, INT_RESET_ADDRESS), rd(t, 1, (INT_RESET_ADDRESS + 1) as u16)]
            &&& final(cpu).cpu().regs == reset_regs(old(cpu).cpu().regs, word_at(t, 0, 1))
        }),
        final(cpu).ledger() == old(cpu).ledger(),
{
    let mut rg = regs(cpu);
    rg.SP = 0xFD;
    put_regs(cpu, rg);
    let ghost n1 = cpu.bus_log().len() as int;
    let target = load16(cpu, INT_RESET_ADDRESS);
    let mut rg = regs(cpu);
    rg.PC = target;
    put_regs(cpu, rg);
    proof {
        let es = seq![BusEvent::Read(INT_RESET_ADDRESS, byte_of(cpu.bus_log()[n1])),
            BusEvent::Read(wrap16(INT_RESET_ADDRESS + 1), byte_of(cpu.bus_log()[n1 + 1]))];
        lemma_events(*old(cpu), *cpu, es);
        assert(seq![rd(es, 0, INT_RESET_ADDRESS), rd(es, 1, (INT_RESET_ADDRESS + 1) as u16)] =~= es);
    }
    assert(rg == reset_regs(old(cpu).cpu().regs, target));
}

/// What one step did: an interrupt taken, or an instruction carried out.
#[derive(Clone, Copy, PartialEq, Eq, Structural, Debug)]
pub enum StepKind {
    Nmi,
    Irq,
    Instruction,
}

/// Which of the three a step does: a pending NMI first; an IRQ unless the interrupt
/// disable flag is set; otherwise the next instruction.
pub open spec fn step_kind(s: State) -> StepKind {
    if s.nmi {
        StepKind::Nmi
    } else if s.irq && !s.regs.P.has(FLAG_I) {
        StepKind::Irq
    } else {
        StepKind::Instruction
    }
}

/// The outcome of a step without what kind of step it was.
pub open spec fn without_kind(r: Result<StepKind, CpuFault>) -> Result<(), CpuFault> {
    match r {
        Ok(_) => Ok(()),
        Err(e) => Err(e),
    }
}

/// One step of the CPU: takes a pending interrupt or carries out one instruction.
/// An interrupt that is taken has its line cleared.
pub fn step<C: Context>(cpu: &mut C) -> (r: Result<StepKind, CpuFault>)
    requires
        old(cpu).bus_ready(),
    ensures
        final(cpu).bus_ready(),
        r matches Ok(k) ==> k == step_kind(old(cpu).cpu()),
        r != Err::<StepKind, CpuFault>(CpuFault::InvalidMode),
        step_kind(old(cpu).cpu()) != StepKind::Instruction ==> r == Ok::<StepKind, CpuFault>(step_kind(old(cpu).cpu())),
        log_extends(*old(cpu), *final(cpu)),
        step_kind(old(cpu).cpu()) == StepKind::Nmi ==> !final(cpu).cpu().nmi,
        step_kind(old(cpu).cpu()) == StepKind::Irq ==> !final(cpu).cpu().irq,
        step_kind(old(cpu).cpu()) != StepKind::Instruction ==> ({
            let t = new_events(*old(cpu), *final(cpu));
            &&& t == interrupt_events(old(cpu).cpu().regs, old(cpu).cpu().nmi, t)
            &&& final(cpu).cpu().regs == interrupted(old(cpu).cpu().regs, word_at(t, 5, 6))
        }),
        step_kind(old(cpu).cpu()) == StepKind::Instruction ==> instruction_done(old(cpu).cpu().regs,
            new_events(*old(cpu), *final(cpu)), final(cpu).cpu().regs, without_kind(r)),
        final(cpu).ledger() == old(cpu).ledger(),
{
    if cpu.state().nmi {
        hardware_interrupt(cpu);
        cpu.set_nmi(false);
        Ok(StepKind::Nmi)
    } else if cpu.state().irq && !regs(cpu).P.contains(FLAG_I) {
        hardware_interrupt(cpu);
        cpu.set_irq(false);
        Ok(StepKind::Irq)
    } else {
        let ghost r0 = cpu.cpu().regs;
        let res = execute_one_instruction(cpu);
        let out = match res {
            Ok(()) => Ok(StepKind::Instruction),
            Err(e) => Err(e),
        };
        out
    }
}

/// Whether `m` is one of the eight flag masks.
pub open spec fn is_flag(m: u8) -> bool {
    m == FLAG_C || m == FLAG_Z || m == FLAG_I || m == FLAG_D || m == FLAG_B || m == FLAG_U || m == FLAG_V || m == FLAG_N
}

/// Setting or clearing a flag changes that flag and no other.
pub proof fn lemma_flag_with(f: Flags, mask: u8, value: bool, other: u8)
    requires
        is_flag(mask),
        is_flag(other),
    ensures
        f.with(mask, value).has(mask) == value,
        other != mask ==> f.with(mask, value).has(other) == f.has(other),
{
    let b = f.bits;
    assert(
        (value ==> (b | mask) & mask == mask)
        && (!value ==> ((b & !mask) & mask == mask) == false)
        && (other != mask ==> (((b | mask) & other == other) == (b & other == other)))
        && (other != mask ==> (((b & !mask) & other == other) == (b & other == other)))
    ) by (bit_vector)
        requires
            mask == 1u8 || mask == 2u8 || mask == 4u8 || mask == 8u8 || mask == 16u8 || mask == 32u8 || mask == 64u8 || mask == 128u8,
            other == 1u8 || other == 2u8 || other == 4u8 || other == 8u8 || other == 16u8 || other == 32u8 || other == 64u8 || other == 128u8;
}

/// The interrupt sequence: two reads at PC; PC's high byte pushed at $0100+SP, its low
/// byte below it, then the flags with B clear; the vector read from $FFFA/$FFFB for an
/// NMI and from $FFFE/$FFFF for an IRQ. Afterwards PC is the vector, SP is three lower,
/// the flags have B clear and I set, and A, X and Y stay.
pub proof fn lemma_interrupt_sequence(r: Registers, nmi: bool, t: Seq<BusEvent>)
    requires
        t == interrupt_events(r, nmi, t),
    ensures
        t.len() == 7,
        t[0] == BusEvent::Read(r.PC, byte_of(t[0])),
        t[1] == BusEvent::Read(r.PC, byte_of(t[1])),
        t[2] == BusEvent::Write((0x100 + r.SP) as u16, (r.PC / 256) as u8),
        t[3] == BusEvent::Write((0x100 + (r.SP + 255) % 256) as u16, (r.PC % 256) as u8),
        t[4] == BusEvent::Write((0x100 + (r.SP + 254) % 256) as u16, r.P.bits & 0xEF),
        t[5] == BusEvent::Read(if nmi { 0xFFFAu16 } else { 0xFFFEu16 }, byte_of(t[5])),
        t[6] == BusEvent::Read(if nmi { 0xFFFBu16 } else { 0xFFFFu16 }, byte_of(t[6])),
        ({
            let after = interrupted(r, word_at(t, 5, 6));
            &&& after.PC as int == byte_of(t[5]) + 256 * byte_of(t[6])
            &&& after.SP as int == (r.SP + 253) % 256
            &&& after.P.bits == (r.P.bits & 0xEF) | 0x04
            &&& after.A == r.A && after.X == r.X && after.Y == r.Y
        }),
{
    let b = r.P.bits;
    assert(b & !0x10u8 == b & 0xEF && (b & !0x10u8) | 0x04u8 == (b & 0xEF) | 0x04) by (bit_vector);
    assert(byte_of(t[5]) + 256 * byte_of(t[6]) < 0x10000);
}

/// ROR rotates right through the carry: the result is the operand halved with the old
/// carry as its top bit; the carry takes the operand's bit 0, N the old carry, Z a zero
/// result; the other registers and flags stay.
pub proof fn lemma_ror_through_carry(r: Registers, val: u8)
    ensures
        ({
            let (r1, res) = rmw_op(Instruction::ROR, r, val);
            let c: int = if r.P.has(FLAG_C) { 1 } else { 0 };
            &&& res as int == val as int / 2 + 128 * c
            &&& r1.P.has(FLAG_C) == (val % 2 == 1)
            &&& r1.P.has(FLAG_N) == r.P.has(FLAG_C)
            &&& r1.P.has(FLAG_Z) == (res == 0)
            &&& r1.A == r.A && r1.X == r.X && r1.Y == r.Y && r1.SP == r.SP && r1.PC == r.PC
            &&& r1.P.has(FLAG_V) == r.P.has(FLAG_V) && r1.P.has(FLAG_I) == r.P.has(FLAG_I)
            &&& r1.P.has(FLAG_D) == r.P.has(FLAG_D)
        }),
{
    let c = r.carry();
    let res = (val >> 1u8) | (c << 7u8);
    assert(c <= 1 ==> (val >> 1u8) | (c << 7u8) == val / 2 + 128 * c
        && ((val & 0x01 != 0) == (val % 2 == 1))
        && ((((val >> 1u8) | (c << 7u8)) & 0x80 != 0) == (c == 1))) by (bit_vector);
    let p1 = r.P.with(FLAG_C, val & 0x01 != 0);
    let p2 = p1.with(FLAG_N, res & 0x80 != 0);
    lemma_flag_with(r.P, FLAG_C, val & 0x01 != 0, FLAG_C);
    lemma_flag_with(r.P, FLAG_C, val & 0x01 != 0, FLAG_V);
    lemma_flag_with(r.P, FLAG_C, val & 0x01 != 0, FLAG_I);
    lemma_flag_with(r.P, FLAG_C, val & 0x01 != 0, FLAG_D);
    lemma_flag_with(p1, FLAG_N, res & 0x80 != 0, FLAG_C);
    lemma_flag_with(p1, FLAG_N, res & 0x80 != 0, FLAG_N);
    lemma_flag_with(p1, FLAG_N, res & 0x80 != 0, FLAG_V);
    lemma_flag_with(p1, FLAG_N, res & 0x80 != 0, FLAG_I);
    lemma_flag_with(p1, FLAG_N, res & 0x80 != 0, FLAG_D);
    lemma_flag_with(p2, FLAG_Z, res == 0, FLAG_C);
    lemma_flag_with(p2, FLAG_Z, res == 0, FLAG_N);
    lemma_flag_with(p2, FLAG_Z, res == 0, FLAG_Z);
    lemma_flag_with(p2, FLAG_Z, res == 0, FLAG_V);
    lemma_flag_with(p2, FLAG_Z, res == 0, FLAG_I);
    lemma_flag_with(p2, FLAG_Z, res == 0, FLAG_D);
}

/// ROL rotates left through the carry: the result is twice the operand modulo 256 with
/// the old carry as bit 0; the carry takes the operand's bit 7.
pub proof fn lemma_rol_through_carry(r: Registers, val: u8)
    ensures
        ({
            let (r1, res) = rmw_op(Instruction::ROL, r, val);
            let c: int = if r.P.has(FLAG_C) { 1 } else { 0 };
            &&& res as int == (val as int * 2) % 256 + c
            &&& r1.P.has(FLAG_C) == (val >= 128)
            &&& r1.P.has(FLAG_N) == (res >= 128)
            &&& r1.P.has(FLAG_Z) == (res == 0)
            &&& r1.A == r.A && r1.X == r.X && r1.Y == r.Y && r1.SP == r.SP && r1.PC == r.PC
        }),
{
    let c = r.carry();
    let res = (val << 1u8) | c;
    assert(c <= 1 ==> (val << 1u8) | c == (val * 2) % 256 + c
        && ((val & 0x80 != 0) == (val >= 128))) by (bit_vector);
    assert((res & 0x80 != 0) == (res >= 128)) by (bit_vector);
    let p1 = r.P.with(FLAG_C, val & 0x80 != 0);
    let p2 = p1.with(FLAG_N, res & 0x80 != 0);
    lemma_flag_with(r.P, FLAG_C, val & 0x80 != 0, FLAG_C);
    lemma_flag_with(p1, FLAG_N, res & 0x80 != 0, FLAG_C);
    lemma_flag_with(p1, FLAG_N, res & 0x80 != 0, FLAG_N);
    lemma_flag_with(p2, FLAG_Z, res == 0, FLAG_C);
    lemma_flag_with(p2, FLAG_Z, res == 0, FLAG_N);
    lemma_flag_with(p2, FLAG_Z, res == 0, FLAG_Z);
}

/// N and Z after a result `x`: N is its top bit, Z tells zero; the other flags stay.
proof fn lemma_nz_flags(r: Registers, x: u8)
    ensures
        r.nz(x).P.has(FLAG_N) == (x >= 128),
        r.nz(x).P.has(FLAG_Z) == (x == 0),
        r.nz(x).P.has(FLAG_C) == r.P.has(FLAG_C),
        r.nz(x).P.has(FLAG_V) == r.P.has(FLAG_V),
        r.nz(x).P.has(FLAG_I) == r.P.has(FLAG_I),
        r.nz(x).P.has(FLAG_D) == r.P.has(FLAG_D),
        r.nz(x).A == r.A && r.nz(x).X == r.X && r.nz(x).Y == r.Y && r.nz(x).SP == r.SP && r.nz(x).PC == r.PC,
{
    assert((x & 0x80 != 0) == (x >= 128)) by (bit_vector);
    let p1 = r.P.with(FLAG_N, x & 0x80 != 0);
    lemma_flag_with(r.P, FLAG_N, x & 0x80 != 0, FLAG_N);
    lemma_flag_with(r.P, FLAG_N, x & 0x80 != 0, FLAG_C);
    lemma_flag_with(r.P, FLAG_N, x & 0x80 != 0, FLAG_V);
    lemma_flag_with(r.P, FLAG_N, x & 0x80 != 0, FLAG_I);
    lemma_flag_with(r.P, FLAG_N, x & 0x80 != 0, FLAG_D);
    lemma_flag_with(p1, FLAG_Z, x == 0, FLAG_N);
    lemma_flag_with(p1, FLAG_Z, x == 0, FLAG_Z);
    lemma_flag_with(p1, FLAG_Z, x == 0, FLAG_C);
    lemma_flag_with(p1, FLAG_Z, x == 0, FLAG_V);
    lemma_flag_with(p1, FLAG_Z, x == 0, FLAG_I);
    lemma_flag_with(p1, FLAG_Z, x == 0, FLAG_D);
}

/// The shifts and steps of memory: ASL doubles modulo 256 with the old bit 7 to the
/// carry; LSR halves with the old bit 0 to the carry; INC and DEC add and subtract one
/// modulo 256 and keep the carry. N and Z follow the result; the registers stay.
pub proof fn lemma_shift_and_step_ops(r: Registers, val: u8)
    ensures
        ({
            let (r1, res) = rmw_op(Instruction::ASL, r, val);
            &&& res as int == (val as int * 2) % 256 && r1.P.has(FLAG_C) == (val >= 128)
            &&& r1.P.has(FLAG_N) == (res >= 128) && r1.P.has(FLAG_Z) == (res == 0) && r1.A == r.A
        }),
        ({
            let (r1, res) = rmw_op(Instruction::LSR, r, val);
            &&& res as int == val as int / 2 && r1.P.has(FLAG_C) == (val % 2 == 1)
            &&& !r1.P.has(FLAG_N) && r1.P.has(FLAG_Z) == (res == 0) && r1.A == r.A
        }),
        ({
            let (r1, res) = rmw_op(Instruction::INC, r, val);
            &&& res as int == (val as int + 1) % 256 && r1.P.has(FLAG_C) == r.P.has(FLAG_C)
            &&& r1.P.has(FLAG_N) == (res >= 128) && r1.P.has(FLAG_Z) == (res == 0) && r1.A == r.A
        }),
        ({
            let (r1, res) = rmw_op(Instruction::DEC, r, val);
            &&& res as int == (val as int + 255) % 256 && r1.P.has(FLAG_C) == r.P.has(FLAG_C)
            &&& r1.P.has(FLAG_N) == (res >= 128) && r1.P.has(FLAG_Z) == (res == 0) && r1.A == r.A
        }),
{
    assert((val << 1u8) == (val * 2) % 256 && (val >> 1u8) == val / 2 && ((val & 0x80 != 0) == (val >= 128))
        && ((val & 0x01 != 0) == (val % 2 == 1))) by (bit_vector);
    let ra = Registers { P: r.P.with(FLAG_C, val & 0x80 != 0), ..r };
    let rl = Registers { P: r.P.with(FLAG_C, val & 0x01 != 0), ..r };
    lemma_flag_with(r.P, FLAG_C, val & 0x80 != 0, FLAG_C);
    lemma_flag_with(r.P, FLAG_C, val & 0x01 != 0, FLAG_C);
    lemma_nz_flags(ra, val << 1u8);
    lemma_nz_flags(rl, val >> 1u8);
    lemma_nz_flags(r, if val == 255 { 0u8 } else { (val + 1) as u8 });
    lemma_nz_flags(r, if val == 0 { 255u8 } else { (val - 1) as u8 });
}

/// The index steps and transfers: INX, INY, DEX, DEY add or subtract one modulo 256;
/// TAX, TAY, TXA, TYA, TSX copy and set N and Z by the value; TXS copies X to SP and
/// keeps the flags; the flag instructions set or clear their flag alone.
pub proof fn lemma_register_ops(r: Registers)
    ensures
        set_op(Instruction::INX, r).X as int == (r.X as int + 1) % 256,
        set_op(Instruction::INY, r).Y as int == (r.Y as int + 1) % 256,
        set_op(Instruction::DEX, r).X as int == (r.X as int + 255) % 256,
        set_op(Instruction::DEY, r).Y as int == (r.Y as int + 255) % 256,
        set_op(Instruction::INX, r).P.has(FLAG_Z) == (set_op(Instruction::INX, r).X == 0),
        set_op(Instruction::DEX, r).P.has(FLAG_N) == (set_op(Instruction::DEX, r).X >= 128),
        set_op(Instruction::TAX, r).X == r.A && set_op(Instruction::TAX, r).A == r.A,
        set_op(Instruction::TAY, r).Y == r.A,
        set_op(Instruction::TXA, r).A == r.X,
        set_op(Instruction::TYA, r).A == r.Y,
        set_op(Instruction::TSX, r).X == r.SP,
        set_op(Instruction::TXS, r).SP == r.X && set_op(Instruction::TXS, r).P == r.P,
        set_op(Instruction::TAX, r).P.has(FLAG_Z) == (r.A == 0) && set_op(Instruction::TAX, r).P.has(FLAG_N) == (r.A >= 128),
        set_op(Instruction::SEC, r).P.has(FLAG_C) && !set_op(Instruction::CLC, r).P.has(FLAG_C),
        set_op(Instruction::SEI, r).P.has(FLAG_I) && !set_op(Instruction::CLI, r).P.has(FLAG_I),
        set_op(Instruction::SED, r).P.has(FLAG_D) && !set_op(Instruction::CLD, r).P.has(FLAG_D),
        !set_op(Instruction::CLV, r).P.has(FLAG_V),
        set_op(Instruction::SEC, r).P.has(FLAG_Z) == r.P.has(FLAG_Z),
{
    let x1 = if r.X == 255 { 0u8 } else { (r.X + 1) as u8 };
    let x2 = if r.X == 0 { 255u8 } else { (r.X - 1) as u8 };
    lemma_nz_flags(r, x1);
    lemma_nz_flags(r, x2);
    lemma_nz_flags(r, r.A);
    lemma_flag_with(r.P, FLAG_C, true, FLAG_C);
    lemma_flag_with(r.P, FLAG_C, true, FLAG_Z);
    lemma_flag_with(r.P, FLAG_C, false, FLAG_C);
    lemma_flag_with(r.P, FLAG_I, true, FLAG_I);
    lemma_flag_with(r.P, FLAG_I, false, FLAG_I);
    lemma_flag_with(r.P, FLAG_D, true, FLAG_D);
    lemma_flag_with(r.P, FLAG_D, false, FLAG_D);
    lemma_flag_with(r.P, FLAG_V, false, FLAG_V);
}

/// The logic instructions act bit by bit: bit k of the result of AND, ORA, EOR is the
/// conjunction, disjunction, difference of bit k of A and of the operand; LDA loads the
/// operand; BIT sets Z when A and the operand share no bit, N and V from the operand's
/// bits 7 and 6, and keeps A.
pub proof fn lemma_logic_ops(r: Registers, val: u8, k: u8)
    requires
        k < 8,
    ensures
        ((read_op(Instruction::AND, r, val).A >> k) % 2 == 1) == ((r.A >> k) % 2 == 1 && (val >> k) % 2 == 1),
        ((read_op(Instruction::ORA, r, val).A >> k) % 2 == 1) == ((r.A >> k) % 2 == 1 || (val >> k) % 2 == 1),
        ((read_op(Instruction::EOR, r, val).A >> k) % 2 == 1) == ((r.A >> k) % 2 != (val >> k) % 2),
        read_op(Instruction::LDA, r, val).A == val,
        read_op(Instruction::LDA, r, val).P.has(FLAG_Z) == (val == 0),
        read_op(Instruction::BIT, r, val).A == r.A,
        read_op(Instruction::BIT, r, val).P.has(FLAG_N) == (val >= 128),
        read_op(Instruction::BIT, r, val).P.has(FLAG_V) == ((val / 64) % 2 == 1),
        read_op(Instruction::BIT, r, val).P.has(FLAG_Z) == (val & r.A == 0),
{
    let a = r.A;
    assert(k < 8 ==> ((((a & val) >> k) % 2 == 1) == ((a >> k) % 2 == 1 && (val >> k) % 2 == 1))
        && ((((a | val) >> k) % 2 == 1) == ((a >> k) % 2 == 1 || (val >> k) % 2 == 1))
        && ((((a ^ val) >> k) % 2 == 1) == ((a >> k) % 2 != (val >> k) % 2))) by (bit_vector);
    assert(((val & 0x80 != 0) == (val >= 128)) && ((val & 0x40 != 0) == ((val / 64) % 2 == 1))) by (bit_vector);
    lemma_nz_flags(Registers { A: val, ..r }, val);
    let p1 = r.P.with(FLAG_Z, val & r.A == 0);
    let p2 = p1.with(FLAG_N, val & 0x80 != 0);
    lemma_flag_with(p1, FLAG_N, val & 0x80 != 0, FLAG_N);
    lemma_flag_with(p1, FLAG_N, val & 0x80 != 0, FLAG_Z);
    lemma_flag_with(r.P, FLAG_Z, val & r.A == 0, FLAG_Z);
    lemma_flag_with(p2, FLAG_V, val & 0x40 != 0, FLAG_V);
    lemma_flag_with(p2, FLAG_V, val & 0x40 != 0, FLAG_N);
    lemma_flag_with(p2, FLAG_V, val & 0x40 != 0, FLAG_Z);
}

/// ADC adds the operand and the carry into the accumulator modulo 256 and sets the
/// carry exactly when the sum passes 255; Z tells a zero result, N its top bit.
pub proof fn lemma_adc_sum_and_carry(r: Registers, val: u8)
    ensures
        read_op(Instruction::ADC, r, val).A == (r.A + val + r.carry()) % 256,
        read_op(Instruction::ADC, r, val).P.has(FLAG_C) == (r.A + val + r.carry() > 255),
        read_op(Instruction::ADC, r, val).P.has(FLAG_Z) == ((r.A + val + r.carry()) % 256 == 0),
        read_op(Instruction::ADC, r, val).X == r.X,
        read_op(Instruction::ADC, r, val).Y == r.Y,
        read_op(Instruction::ADC, r, val).SP == r.SP,
        read_op(Instruction::ADC, r, val).PC == r.PC,
{
    let sum = (r.A + val + r.carry()) as u16;
    let res = (sum % 256) as u8;
    let p1 = r.P.with(FLAG_C, sum > 0xff);
    let p2 = p1.with(FLAG_V, (r.A ^ val) & 0x80 == 0 && (r.A as u16 ^ sum) & 0x80 == 0x80);
    let p3 = p2.with(FLAG_N, res & 0x80 != 0);
    lemma_flag_with(r.P, FLAG_C, sum > 0xff, FLAG_C);
    lemma_flag_with(p1, FLAG_V, (r.A ^ val) & 0x80 == 0 && (r.A as u16 ^ sum) & 0x80 == 0x80, FLAG_C);
    lemma_flag_with(p2, FLAG_N, res & 0x80 != 0, FLAG_C);
    lemma_flag_with(p3, FLAG_Z, res == 0, FLAG_C);
    lemma_flag_with(p3, FLAG_Z, res == 0, FLAG_Z);
}

/// SBC subtracts the operand and the borrow (the inverted carry) from the
/// accumulator modulo 256; the carry is left set exactly when no borrow was needed.
pub proof fn lemma_sbc_difference(r: Registers, val: u8)
    ensures
        read_op(Instruction::SBC, r, val).A == (r.A + 256 - val - 1 + r.carry()) % 256,
        read_op(Instruction::SBC, r, val).P.has(FLAG_C) == (r.A + r.carry() > val),
{
    assert(val ^ 0xff == 255 - val) by (bit_vector);
    lemma_adc_sum_and_carry(r, val ^ 0xff);
}

/// ADC sets the overflow flag exactly when two operands of one sign give a result of
/// the other sign.
pub proof fn lemma_adc_overflow(r: Registers, val: u8)
    ensures
        read_op(Instruction::ADC, r, val).P.has(FLAG_V) == ((r.A >= 128) == (val >= 128)
            && ((r.A + val + r.carry()) % 256 >= 128) != (r.A >= 128)),
{
    let a = r.A;
    let c = r.carry();
    let sum = (a + val + c) as u16;
    let res = (sum % 256) as u8;
    let p1 = r.P.with(FLAG_C, sum > 0xff);
    let v = (a ^ val) & 0x80 == 0 && (a as u16 ^ sum) & 0x80 == 0x80;
    let p2 = p1.with(FLAG_V, v);
    let p3 = p2.with(FLAG_N, res & 0x80 != 0);
    lemma_flag_with(p1, FLAG_V, v, FLAG_V);
    lemma_flag_with(p2, FLAG_N, res & 0x80 != 0, FLAG_V);
    lemma_flag_with(p3, FLAG_Z, res == 0, FLAG_V);
    assert(((a ^ val) & 0x80 == 0 && (a as u16 ^ sum) & 0x80 == 0x80)
        == ((a >= 128) == (val >= 128) && (sum % 256 >= 128) != (a >= 128)))
        by (bit_vector)
        requires
            sum == a + val + c,
            c <= 1;
}

/// A comparison sets the carry when the register is not below the operand and the zero
/// flag when the two are equal.
pub proof fn lemma_compare_flags(r: Registers, reg: u8, val: u8)
    ensures
        compared(r, reg, val).P.has(FLAG_C) == (reg >= val),
        compared(r, reg, val).P.has(FLAG_Z) == (reg == val),
        compared(r, reg, val).A == r.A,
{
    let diff = if reg >= val { (reg - val) as u8 } else { (reg + 256 - val) as u8 };
    let p1 = r.P.with(FLAG_N, diff & 0x80 != 0);
    let p2 = p1.with(FLAG_Z, diff == 0);
    lemma_flag_with(p2, FLAG_C, reg >= val, FLAG_C);
    lemma_flag_with(p2, FLAG_C, reg >= val, FLAG_Z);
    lemma_flag_with(p1, FLAG_Z, diff == 0, FLAG_Z);
}

/// A push followed by a pull leaves the stack pointer where it was, for every
/// stack pointer (the stack wraps within page 1).
pub proof fn lemma_push_pull_balance(sp: u8)
    ensures
        sp_up(sp_down(sp, 1), 1) == sp,
        sp_down(sp_up(sp, 1), 1) == sp,
        sp_up(sp_down(sp, 3), 3) == sp,
        sp_up(sp_down(sp, 2), 2) == sp,
{
}

/// A subroutine call and its return: JSR (from the registers `r` after its opcode fetch)
/// pushes the address of its last byte; an RTS made with the stack pointer JSR left,
/// which pulls back the two bytes JSR pushed, resumes after the three-byte JSR with the
/// stack pointer restored.
#[verifier::spinoff_prover]
#[verifier::rlimit(100)]
pub proof fn lemma_jsr_then_rts(r: Registers, t1: Seq<BusEvent>, r1: Registers, q: Registers, t2: Seq<BusEvent>,
    r2: Registers)
    requires
        executed_on(Instruction::JSR, AddressingMode::ABS, r, t1, r1),
        q.SP == r1.SP,
        executed_on(Instruction::RTS, AddressingMode::IMP, q, t2, r2),
        byte_of(t2[2]) == byte_of(t1[3]),
        byte_of(t2[3]) == byte_of(t1[2]),
    ensures
        r2.PC == wrap16(r.PC + 2),
        r2.SP == r.SP,
{
    let pc1 = wrap16(r.PC + 1);
    lemma_mode_effect_abs(Instruction::JSR, r, t1);
    lemma_mode_effect_imp(Instruction::RTS, q, t2);
    assert(operation_of(Instruction::JSR) == Operation::JSR);
    assert(operation_of(Instruction::RTS) == Operation::RTS);
    let e1 = abs_effect(Instruction::JSR, AddressingMode::ABS, r, t1);
    assert(t1[2] == e1.0[2]);
    assert(t1[3] == e1.0[3]);
    assert(byte_of(t1[2]) == (pc1 / 256) as u8);
    assert(byte_of(t1[3]) == (pc1 % 256) as u8);
    assert(word_at(t2, 2, 3) == pc1);
}

proof fn lemma_mode_effect_abs(i: Instruction, r: Registers, t: Seq<BusEvent>)
    ensures
        mode_effect(i, AddressingMode::ABS, r, t) == abs_effect(i, AddressingMode::ABS, r, t),
{
    reveal(mode_effect);
}

proof fn lemma_mode_effect_imp(i: Instruction, r: Registers, t: Seq<BusEvent>)
    ensures
        mode_effect(i, AddressingMode::IMP, r, t) == imp_effect(i, AddressingMode::IMP, r, t),
{
    reveal(mode_effect);
}

/// A branch that is taken lands within -128 to +127 bytes of the next instruction.
pub proof fn lemma_branch_reach(pc: u16, operand: u8)
    ensures
        operand < 128 ==> branch_target(pc, operand) == (pc + operand) % 65536,
        operand >= 128 ==> branch_target(pc, operand) == (pc + 65536 - (256 - operand)) % 65536,
{
}

/// The decode table pairs every instruction with a mode that can carry it out: an
/// opcode fails only for KIL and the unofficial instructions this core leaves out.
pub proof fn lemma_decode_table_consistent(opcode: u8)
    ensures
        executable(decoded(opcode).0, decoded(opcode).1) == !(operation_of(decoded(opcode).0) == Operation::Unimplemented
            || operation_of(decoded(opcode).0) == Operation::Kill),
{
}

} // verus!
