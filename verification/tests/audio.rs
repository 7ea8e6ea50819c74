use nes::apu::{self, NoiseChannel, PulseChannel};
use nes::cpu;
use nes::emulator::{AccessMode, Emulator};

fn palette_bytes() -> Vec<u8> {
    (0..192u32).map(|i| i as u8).collect()
}

#[test]
fn status_read_acknowledges_frame_interrupt() {
    let mut s = apu::State::new();
    s.frame_interrupt_flag = true;
    let (first, irq) = s.read_state_register();
    assert_eq!(first & 0x40, 0x40);
    assert!(!irq);
    let (second, _) = s.read_state_register();
    assert_eq!(second & 0x40, 0);
}

#[test]
fn frame_interrupt_comes_after_a_sequence() {
    let mut s = apu::State::new();
    let mut raised_at = None;
    for cycle in 0..30000usize {
        let t = s.on_cpu_tick(cycle % 2 == 1);
        if t.irq && raised_at.is_none() {
            raised_at = Some(cycle);
        }
    }
    // The 4-step sequence raises its interrupt at counter 29828.
    assert_eq!(raised_at, Some(29828));
}

#[test]
fn inhibited_sequencer_raises_no_interrupt() {
    let mut s = apu::State::new();
    s.set_frame(0x40, false);
    for cycle in 0..40000usize {
        assert!(!s.on_cpu_tick(cycle % 2 == 1).irq);
    }
}

#[test]
fn writing_zero_to_status_silences_every_channel() {
    let mut s = apu::State::new();
    assert!(!s.write_state_register(0x0F));
    for addr in [0x4000u16, 0x4001, 0x4002, 0x4003] {
        s.set_pulse1(addr, 0xFF);
    }
    s.write_state_register(0);
    let (status, _) = s.read_state_register();
    assert_eq!(status & 0x1F, 0);
    let levels = s.levels();
    assert_eq!((levels.pulse1, levels.pulse2, levels.noise, levels.dmc), (0, 0, 0, 0));
}

#[test]
fn disabled_pulse_is_silent() {
    let mut c = PulseChannel::new(true);
    c.set_register(0x4000, 0xBF);
    c.set_register(0x4002, 0xFF);
    c.set_enabled(true);
    c.set_register(0x4003, 0x08);
    c.set_enabled(false);
    for _ in 0..100 {
        c.tick();
        assert_eq!(c.output(), 0);
    }
}

#[test]
fn noise_shift_register_never_locks() {
    let mut c = NoiseChannel::new();
    c.set_register(0x400E, 0x80); // short mode, fastest period
    c.set_register(0x400E, 0x00);
    for _ in 0..100000 {
        c.tick();
        assert!(c.feedback_register != 0 && c.feedback_register < 0x8000);
    }
}

#[test]
fn every_decoded_opcode_is_carried_out_or_refused_by_name() {
    // No opcode of the table reaches an addressing mode that cannot carry it out.
    let mut img = vec![0x4E, 0x45, 0x53, 0x1A, 1, 1, 0, 0, 0, 0, 0, 0, 0, 0, 0, 0];
    let mut prg = vec![0xEAu8; 0x4000];
    prg[0x3FFC] = 0x00;
    prg[0x3FFD] = 0x80;
    img.extend(prg);
    img.extend(vec![0u8; 0x2000]);
    let pal = palette_bytes();
    for opcode in 0..=255u8 {
        let mut emu = Emulator::new(&pal);
        emu.load_rom_from_bytes(&img).unwrap();
        emu.reset();
        // Put the opcode in RAM and jump there.
        emu.access(0x0300, AccessMode::Write(opcode));
        emu.nes.mos6502.regs.PC = 0x0300;
        let (i, _) = cpu::decode(opcode);
        let r = cpu::step(&mut emu);
        assert_ne!(r, Err(cpu::CpuFault::InvalidMode), "opcode {:02X}", opcode);
        if i == cpu::Instruction::KIL {
            assert_eq!(r, Err(cpu::CpuFault::Kill));
        }
    }
}

#[test]
fn interrupt_pushes_three_bytes() {
    let mut img = vec![0x4E, 0x45, 0x53, 0x1A, 1, 1, 0, 0, 0, 0, 0, 0, 0, 0, 0, 0];
    let mut prg = vec![0xEAu8; 0x4000];
    prg[0x3FFA] = 0x34;
    prg[0x3FFB] = 0x92;
    prg[0x3FFC] = 0x00;
    prg[0x3FFD] = 0x80;
    img.extend(prg);
    img.extend(vec![0u8; 0x2000]);
    let pal = palette_bytes();
    let mut emu = Emulator::new(&pal);
    emu.load_rom_from_bytes(&img).unwrap();
    emu.reset();
    emu.nes.mos6502.nmi = true;
    assert_eq!(cpu::step(&mut emu), Ok(cpu::StepKind::Nmi));
    assert!(!emu.nes.mos6502.nmi);
    assert_eq!(emu.nes.mos6502.regs.PC, 0x9234);
    assert_eq!(emu.nes.mos6502.regs.SP, 0xFA);
    assert!(emu.nes.mos6502.regs.P.contains(cpu::FLAG_I));
    // The return address and the flags (B clear) are on the stack.
    assert_eq!(emu.access(0x01FD, AccessMode::Read), 0x80);
    assert_eq!(emu.access(0x01FC, AccessMode::Read), 0x00);
    assert_eq!(emu.access(0x01FB, AccessMode::Read) & cpu::FLAG_B, 0);
}
