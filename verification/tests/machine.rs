use nes::cartridge::mapper::Mapper;
use nes::cartridge::{is_image_supported, parse_stream, Cartridge};
use nes::cpu::CpuFault;
use nes::emulator::{AccessMode, Emulator, Fault, StandardInput, BUTTON_A, BUTTON_START};
use nes::error::LoadError;
use nes::mapper::create_mapper;
use nes::ppu::{PCtrl, PStatus, PpuAddr, RgbColor, SCREEN_SIZE};
use nes::rom::Rom;

/// 64 distinct colours: entry i is (i, 2i, 3i).
fn palette_bytes() -> Vec<u8> {
    let mut p = Vec::new();
    for i in 0..64u32 {
        p.push(i as u8);
        p.push((2 * i) as u8);
        p.push((3 * i) as u8);
    }
    p
}

fn header(prg_banks: u8, chr_banks: u8, mapper: u8) -> Vec<u8> {
    vec![0x4E, 0x45, 0x53, 0x1A, prg_banks, chr_banks, (mapper & 0x0F) << 4, mapper & 0xF0, 0, 0, 0, 0, 0, 0, 0, 0]
}

/// An NROM image with one PRG bank holding `program` at $8000 (the rest NOPs), the
/// reset vector at $8000 and the interrupt vectors at an RTI, and `chr` at the start of
/// the CHR bank.
fn nrom_image(program: &[u8], chr: &[u8], chr_banks: u8) -> Vec<u8> {
    let mut img = header(1, chr_banks, 0);
    let mut prg = vec![0xEAu8; 0x4000];
    prg[..program.len()].copy_from_slice(program);
    prg[0x3FF0] = 0x40; // RTI at $BFF0 / $FFF0
    prg[0x3FFA] = 0xF0;
    prg[0x3FFB] = 0xFF;
    prg[0x3FFC] = 0x00;
    prg[0x3FFD] = 0x80;
    prg[0x3FFE] = 0xF0;
    prg[0x3FFF] = 0xFF;
    img.extend(prg);
    if chr_banks > 0 {
        let mut c = vec![0u8; 0x2000 * chr_banks as usize];
        c[..chr.len()].copy_from_slice(chr);
        img.extend(c);
    }
    img
}

fn machine(program: &[u8]) -> Emulator {
    let pal = palette_bytes();
    let mut emu = Emulator::new(&pal);
    let img = nrom_image(program, &[], 1);
    assert!(is_image_supported(&img));
    emu.load_rom_from_bytes(&img).unwrap();
    emu.reset();
    emu
}

fn ram(emu: &mut Emulator, addr: u16) -> u8 {
    emu.access(addr, AccessMode::Read)
}

#[test]
fn load_and_store_run_one_frame() {
    // LDA #$42; STA $0200; JMP $8005
    let mut emu = machine(&[0xA9, 0x42, 0x8D, 0x00, 0x02, 0x4C, 0x05, 0x80]);
    assert_eq!(emu.run_for_one_frame(), Ok(()));
    assert_eq!(ram(&mut emu, 0x0200), 0x42);
    // RAM is mirrored every 2 KiB.
    assert_eq!(ram(&mut emu, 0x0A00), 0x42);
    assert_eq!(ram(&mut emu, 0x1A00), 0x42);
    assert!(emu.get_cycle() > 0);
}

#[test]
fn adc_sets_overflow_and_negative() {
    // CLC; LDA #$7F; ADC #$01; STA $0200; PHP; PLA; STA $0201; JMP self
    let mut emu = machine(&[0x18, 0xA9, 0x7F, 0x69, 0x01, 0x8D, 0x00, 0x02, 0x08, 0x68, 0x8D, 0x01, 0x02, 0x4C, 0x0D, 0x80]);
    emu.run_for_one_frame().unwrap();
    assert_eq!(ram(&mut emu, 0x0200), 0x80);
    // I and U from power-up, V and N set, C and Z clear.
    assert_eq!(ram(&mut emu, 0x0201), 0xE4);
}

#[test]
fn adc_carry_out() {
    // SEC; LDA #$FF; ADC #$01; STA $0200; PHP; PLA; STA $0201; JMP self
    let mut emu = machine(&[0x38, 0xA9, 0xFF, 0x69, 0x01, 0x8D, 0x00, 0x02, 0x08, 0x68, 0x8D, 0x01, 0x02, 0x4C, 0x0D, 0x80]);
    emu.run_for_one_frame().unwrap();
    // 0xFF + 1 + carry = 0x101: A = 1, carry set, not zero, not negative, no overflow.
    assert_eq!(ram(&mut emu, 0x0200), 0x01);
    assert_eq!(ram(&mut emu, 0x0201), 0x25);
}

#[test]
fn sbc_borrows() {
    // SEC; LDA #$50; SBC #$F0; STA $0200; PHP; PLA; STA $0201; JMP self
    let mut emu = machine(&[0x38, 0xA9, 0x50, 0xE9, 0xF0, 0x8D, 0x00, 0x02, 0x08, 0x68, 0x8D, 0x01, 0x02, 0x4C, 0x0D, 0x80]);
    emu.run_for_one_frame().unwrap();
    assert_eq!(ram(&mut emu, 0x0200), 0x60);
    assert_eq!(ram(&mut emu, 0x0201), 0x24);
}

#[test]
fn compare_equal_sets_zero_and_carry() {
    // LDA #$10; CMP #$10; PHP; PLA; STA $0200; JMP self
    let mut emu = machine(&[0xA9, 0x10, 0xC9, 0x10, 0x08, 0x68, 0x8D, 0x00, 0x02, 0x4C, 0x09, 0x80]);
    emu.run_for_one_frame().unwrap();
    assert_eq!(ram(&mut emu, 0x0200), 0x27);
}

#[test]
fn branch_loop_counts_down() {
    // LDX #$05; DEX; BNE -3; STX $0200; LDA #$77; STA $0201; JMP self
    let mut emu = machine(&[0xA2, 0x05, 0xCA, 0xD0, 0xFD, 0x8E, 0x00, 0x02, 0xA9, 0x77, 0x8D, 0x01, 0x02, 0x4C, 0x0D, 0x80]);
    emu.run_for_one_frame().unwrap();
    assert_eq!(ram(&mut emu, 0x0200), 0x00);
    assert_eq!(ram(&mut emu, 0x0201), 0x77);
}

#[test]
fn jsr_and_rts_return() {
    // $8000: JSR $8010; STA $0200; JMP $8006 ... $8010: LDA #$33; RTS
    let mut program = vec![0x20, 0x10, 0x80, 0x8D, 0x00, 0x02, 0x4C, 0x06, 0x80];
    program.resize(0x10, 0xEA);
    program.extend([0xA9, 0x33, 0x60]);
    let mut emu = machine(&program);
    emu.run_for_one_frame().unwrap();
    assert_eq!(ram(&mut emu, 0x0200), 0x33);
    // The stack pointer is back where it started ($FD).
    assert_eq!(emu.nes.mos6502.regs.SP, 0xFD);
}

#[test]
fn push_pull_restore_stack_pointer() {
    // LDA #$12; PHA; LDA #$00; PLA; STA $0200; JMP self
    let mut emu = machine(&[0xA9, 0x12, 0x48, 0xA9, 0x00, 0x68, 0x8D, 0x00, 0x02, 0x4C, 0x09, 0x80]);
    emu.run_for_one_frame().unwrap();
    assert_eq!(ram(&mut emu, 0x0200), 0x12);
    assert_eq!(emu.nes.mos6502.regs.SP, 0xFD);
}

#[test]
fn kil_opcode_stops_the_machine() {
    let mut emu = machine(&[0x02]);
    assert_eq!(emu.run_for_one_frame(), Err(Fault::Cpu(CpuFault::Kill)));
}

#[test]
fn unofficial_opcode_is_unimplemented() {
    // SLO ($00,X)
    let mut emu = machine(&[0x03, 0x00]);
    assert_eq!(emu.run_for_one_frame(), Err(Fault::Cpu(CpuFault::Unimplemented)));
}

#[test]
fn fault_is_reported_again() {
    let mut emu = machine(&[0x02]);
    assert!(emu.run_for_one_frame().is_err());
    assert!(emu.run_for_one_frame().is_err());
}

#[test]
fn reset_reads_the_reset_vector() {
    let emu = machine(&[0xEA]);
    assert_eq!(emu.nes.mos6502.regs.PC, 0x8000);
    assert_eq!(emu.nes.mos6502.regs.SP, 0xFD);
}

#[test]
fn missing_pattern_memory_is_a_vram_fault() {
    let pal = palette_bytes();
    let mut emu = Emulator::new(&pal);
    let img = nrom_image(&[0x4C, 0x00, 0x80], &[], 0);
    emu.load_rom_from_bytes(&img).unwrap();
    emu.reset();
    assert_eq!(emu.run_for_one_frame(), Err(Fault::Vram));
}

#[test]
fn sprite_dma_copies_a_page() {
    // LDX #0; loop: TXA; STA $0300,X; INX; BNE loop; LDA #$03; STA $4014; JMP self
    let mut emu = machine(&[0xA2, 0x00, 0x8A, 0x9D, 0x00, 0x03, 0xE8, 0xD0, 0xF9, 0xA9, 0x03, 0x8D, 0x14, 0x40, 0x4C, 0x0E, 0x80]);
    emu.run_for_one_frame().unwrap();
    for i in 0..256usize {
        assert_eq!(emu.nes.ppu.oamdata[i], i as u8);
    }
}

#[test]
fn controller_reports_buttons_from_a() {
    let mut emu = machine(&[0x4C, 0x00, 0x80]);
    emu.set_input_1(StandardInput { bits: BUTTON_A | BUTTON_START }, true);
    emu.access(0x4016, AccessMode::Write(1));
    emu.access(0x4016, AccessMode::Write(0));
    let bits: Vec<u8> = (0..8).map(|_| emu.access(0x4016, AccessMode::Read)).collect();
    // A, B, Select, Start, Up, Down, Left, Right
    assert_eq!(bits, vec![1, 0, 0, 1, 0, 0, 0, 0]);
    // While the strobe is high every read reports 0 and the sequence restarts.
    emu.access(0x4016, AccessMode::Write(1));
    assert_eq!(emu.access(0x4016, AccessMode::Read), 0);
}

#[test]
fn buttons_are_released_after_a_frame() {
    let mut emu = machine(&[0x4C, 0x00, 0x80]);
    emu.set_input_1(StandardInput { bits: BUTTON_A }, true);
    assert_eq!(emu.nes.input_1_mask.bits, BUTTON_A);
    emu.set_input_1(StandardInput { bits: BUTTON_A }, false);
    assert_eq!(emu.nes.input_1_mask.bits, 0);
    emu.set_input_1(StandardInput { bits: BUTTON_START }, true);
    emu.run_for_one_frame().unwrap();
    assert_eq!(emu.nes.input_1_mask.bits, 0);
}

#[test]
fn palette_write_is_mirrored_and_cut_to_six_bits() {
    let mut emu = machine(&[0x4C, 0x00, 0x80]);
    // PPUADDR $3F00, PPUDATA $45
    emu.access(0x2006, AccessMode::Write(0x3F));
    emu.access(0x2006, AccessMode::Write(0x00));
    emu.access(0x2007, AccessMode::Write(0x45));
    assert_eq!(emu.nes.ppu.palette_ram[0], 0x05);
    assert_eq!(emu.nes.ppu.palette_ram[16], 0x05);
    // Reading $3F10 gives the value at once.
    emu.access(0x2006, AccessMode::Write(0x3F));
    emu.access(0x2006, AccessMode::Write(0x10));
    assert_eq!(emu.access(0x2007, AccessMode::Read), 0x05);
    // A non-backdrop entry is not mirrored.
    emu.access(0x2006, AccessMode::Write(0x3F));
    emu.access(0x2006, AccessMode::Write(0x01));
    emu.access(0x2007, AccessMode::Write(0x3E));
    assert_eq!(emu.nes.ppu.palette_ram[1], 0x3E);
    assert_eq!(emu.nes.ppu.palette_ram[17], 0x00);
    let colors = emu.dbg_list_palette_ram();
    assert_eq!(colors[1], RgbColor::new(0x3E, 0x7C, 0xBA));
}

#[test]
fn ppudata_read_is_buffered_below_palette() {
    let mut emu = machine(&[0x4C, 0x00, 0x80]);
    emu.access(0x2006, AccessMode::Write(0x20));
    emu.access(0x2006, AccessMode::Write(0x00));
    emu.access(0x2007, AccessMode::Write(0xAB));
    emu.access(0x2007, AccessMode::Write(0xCD));
    emu.access(0x2006, AccessMode::Write(0x20));
    emu.access(0x2006, AccessMode::Write(0x00));
    // The first read returns the old buffer; each later read the previous byte.
    emu.access(0x2007, AccessMode::Read);
    assert_eq!(emu.access(0x2007, AccessMode::Read), 0xAB);
    assert_eq!(emu.access(0x2007, AccessMode::Read), 0xCD);
}

#[test]
fn status_read_clears_vblank() {
    let mut emu = machine(&[0x4C, 0x00, 0x80]);
    emu.nes.ppu.pstatus = PStatus::new(0xC0);
    assert_eq!(emu.access(0x2002, AccessMode::Read), 0xC0);
    assert_eq!(emu.access(0x2002, AccessMode::Read), 0x40);
    // Unreadable registers read 0.
    assert_eq!(emu.access(0x2000, AccessMode::Read), 0);
}

#[test]
fn apu_status_reports_enabled_channel() {
    let mut emu = machine(&[0x4C, 0x00, 0x80]);
    emu.access(0x4015, AccessMode::Write(0x01));
    emu.access(0x4003, AccessMode::Write(0x08));
    assert_eq!(emu.access(0x4015, AccessMode::Read) & 0x01, 0x01);
    emu.access(0x4015, AccessMode::Write(0x00));
    assert_eq!(emu.access(0x4015, AccessMode::Read) & 0x01, 0x00);
    // Write-only registers and the test range read 0.
    assert_eq!(emu.access(0x4000, AccessMode::Read), 0);
    assert_eq!(emu.access(0x4018, AccessMode::Read), 0);
    assert_eq!(emu.access(0x5000, AccessMode::Read), 0);
}

#[test]
fn levels_are_recorded_per_cycle() {
    let mut emu = machine(&[0x4C, 0x00, 0x80]);
    emu.run_for_one_frame().unwrap();
    assert!(emu.get_levels().len() > 0);
    emu.clear_sample();
    assert_eq!(emu.get_levels().len(), 0);
}

#[test]
fn frames_come_every_29780_cycles() {
    let mut emu = machine(&[0x4C, 0x00, 0x80]);
    emu.run_for_one_frame().unwrap();
    let first = emu.get_cycle();
    emu.run_for_one_frame().unwrap();
    let second = emu.get_cycle();
    emu.run_for_one_frame().unwrap();
    let third = emu.get_cycle();
    // 341 x 262 dots, three dots per cycle, give 29780 2/3 cycles a frame; a JMP takes 3.
    let d1 = second - first;
    let d2 = third - second;
    assert!((29770..=29790).contains(&d1), "{}", d1);
    assert!((29770..=29790).contains(&d2), "{}", d2);
}

#[test]
fn nmi_is_taken_in_vertical_blank() {
    // LDA #$40; STA $4017 (no frame IRQ); LDA #$80; STA $2000; JMP self.
    // NMI handler at $8010: INC $0200; RTI.
    let mut program = vec![0xA9, 0x40, 0x8D, 0x17, 0x40, 0xA9, 0x80, 0x8D, 0x00, 0x20, 0x4C, 0x0A, 0x80];
    program.resize(0x10, 0xEA);
    program.extend([0xEE, 0x00, 0x02, 0x40]);
    let pal = palette_bytes();
    let mut emu = Emulator::new(&pal);
    let mut img = nrom_image(&program, &[], 1);
    // NMI vector ($FFFA) -> $8010
    img[16 + 0x3FFA] = 0x10;
    img[16 + 0x3FFB] = 0x80;
    emu.load_rom_from_bytes(&img).unwrap();
    emu.reset();
    for _ in 0..4 {
        emu.run_for_one_frame().unwrap();
    }
    let count = ram(&mut emu, 0x0200);
    assert!(count >= 3 && count <= 4, "{}", count);
}

fn frame_irq_program(program: Vec<u8>) -> Emulator {
    // IRQ handler at $8010: INC $0200; LDA $4015 (acknowledge); RTI.
    let mut program = program;
    program.resize(0x10, 0xEA);
    program.extend([0xEE, 0x00, 0x02, 0xAD, 0x15, 0x40, 0x40]);
    let pal = palette_bytes();
    let mut emu = Emulator::new(&pal);
    let mut img = nrom_image(&program, &[], 1);
    img[16 + 0x3FFE] = 0x10;
    img[16 + 0x3FFF] = 0x80;
    emu.load_rom_from_bytes(&img).unwrap();
    emu.reset();
    for _ in 0..3 {
        emu.run_for_one_frame().unwrap();
    }
    emu
}

#[test]
fn frame_irq_is_taken_once_interrupts_are_enabled() {
    // CLI; JMP self ($8001). The frame sequencer raises its interrupt after one frame.
    let mut emu = frame_irq_program(vec![0x58, 0x4C, 0x01, 0x80]);
    assert!(ram(&mut emu, 0x0200) >= 1);
}

#[test]
fn frame_irq_is_ignored_while_interrupts_are_disabled() {
    // SEI; JMP self ($8001): the interrupt disable flag masks the IRQ.
    let mut emu = frame_irq_program(vec![0x78, 0x4C, 0x01, 0x80]);
    assert_eq!(ram(&mut emu, 0x0200), 0);
}

#[test]
fn cartridge_ram_keeps_a_write() {
    let mut emu = machine(&[0x4C, 0x00, 0x80]);
    emu.access(0x6123, AccessMode::Write(0x77));
    assert_eq!(emu.access(0x6123, AccessMode::Read), 0x77);
    assert!(emu.nes.fault.is_none());
}

#[test]
fn a_loaded_machine_is_ready() {
    let pal = palette_bytes();
    let emu = Emulator::new(&pal);
    assert!(!emu.is_ready());
    let emu = machine(&[0x4C, 0x00, 0x80]);
    assert!(emu.is_ready());
}

#[test]
fn controller_reads_follow_the_buttons_in_order() {
    let mut emu = machine(&[0x4C, 0x00, 0x80]);
    emu.nes.input_1_mask = StandardInput { bits: 0b1010_0101 };
    emu.access(0x4016, AccessMode::Write(1));
    emu.access(0x4016, AccessMode::Write(0));
    let bits: Vec<u8> = (0..8).map(|_| emu.access(0x4016, AccessMode::Read)).collect();
    assert_eq!(bits, vec![1, 0, 1, 0, 0, 1, 0, 1]);
    assert_eq!(emu.nes.input_1_mask.bits, 0b1010_0101);
}
