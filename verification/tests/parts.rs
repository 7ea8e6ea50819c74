use nes::cartridge::mapper::Mapper;
use nes::cartridge::{is_image_supported, parse_stream, Cartridge};
use nes::emulator::{AccessMode, Emulator};
use nes::error::LoadError;
use nes::mapper::create_mapper;
use nes::ppu::{self, PCtrl, PMask, PStatus, Palette, PpuAddr, RgbColor, SCREEN_SIZE};
use nes::rom::{MirrorMode, Rom};

fn palette_bytes() -> Vec<u8> {
    let mut p = Vec::new();
    for i in 0..64u32 {
        p.push(i as u8);
        p.push((2 * i) as u8);
        p.push((3 * i) as u8);
    }
    p
}

fn header(prg_banks: u8, chr_banks: u8, mapper: u8, flags6_low: u8) -> Vec<u8> {
    vec![0x4E, 0x45, 0x53, 0x1A, prg_banks, chr_banks, ((mapper & 0x0F) << 4) | flags6_low, mapper & 0xF0, 0, 0, 0, 0, 0, 0, 0, 0]
}

fn image(prg_banks: u8, chr_banks: u8, mapper: u8) -> Vec<u8> {
    let mut img = header(prg_banks, chr_banks, mapper, 0);
    for bank in 0..prg_banks {
        let mut prg = vec![bank; 0x4000];
        prg[0x3FFC] = 0x00;
        prg[0x3FFD] = 0x80;
        img.extend(prg);
    }
    img.extend(vec![0u8; 0x2000 * chr_banks as usize]);
    img
}

#[test]
fn parse_rejects_short_input() {
    match Rom::parse(&[0x4E, 0x45, 0x53]) {
        Err(LoadError::IoError(e)) => assert_eq!(e.kind(), std::io::ErrorKind::UnexpectedEof),
        _ => panic!("expected an I/O error"),
    }
}

#[test]
fn parse_rejects_bad_magic() {
    let mut img = image(1, 1, 0);
    img[3] = 0x1B;
    assert!(matches!(Rom::parse(&img), Err(LoadError::NotNesRom)));
}

#[test]
fn parse_rejects_truncated_image() {
    let img = image(1, 1, 0);
    match Rom::parse(&img[..img.len() - 1]) {
        Err(LoadError::IoError(e)) => assert_eq!(e.kind(), std::io::ErrorKind::UnexpectedEof),
        _ => panic!("expected an I/O error"),
    }
}

#[test]
fn parse_reads_header_fields() {
    let mut img = image(2, 1, 0x12);
    img[6] |= 0x01; // vertical mirroring
    let rom = Rom::parse(&img).unwrap();
    assert_eq!(rom.prg_banks, 2);
    assert_eq!(rom.chr_banks, 1);
    assert_eq!(rom.prg_rom.len(), 0x8000);
    assert_eq!(rom.chr_rom.len(), 0x2000);
    assert_eq!(rom.mapper_id, 0x12);
    assert_eq!(rom.mirroring, MirrorMode::V);
    assert_eq!(rom.prg_rom[0x4000], 1);
}

#[test]
fn parse_skips_trainer() {
    let mut img = header(1, 0, 0, 0x04);
    img.extend(vec![0xAAu8; 0x200]);
    img.extend(vec![0x11u8; 0x4000]);
    let rom = Rom::parse(&img).unwrap();
    assert_eq!(rom.trainner.len(), 0x200);
    assert_eq!(rom.prg_rom[0], 0x11);
}

#[test]
fn create_mapper_takes_only_nrom() {
    let rom = Rom::parse(&image(1, 1, 0)).unwrap();
    assert!(matches!(create_mapper(rom), Ok(Cartridge::Nrom(_))));
    let rom = Rom::parse(&image(1, 1, 1)).unwrap();
    assert!(matches!(create_mapper(rom), Err(LoadError::UnsupportedMapper(1))));
}

#[test]
fn parse_stream_picks_the_mapper() {
    assert!(matches!(parse_stream(&image(1, 1, 0)), Ok(Cartridge::Nrom(_))));
    assert!(matches!(parse_stream(&image(4, 1, 1)), Ok(Cartridge::Mmc1(_))));
    assert!(matches!(parse_stream(&image(4, 0, 2)), Ok(Cartridge::UxRom(_))));
    assert!(matches!(parse_stream(&image(4, 1, 4)), Ok(Cartridge::Mmc3(_))));
    assert!(matches!(parse_stream(&image(1, 1, 3)), Err(LoadError::UnsupportedMapper(3))));
}

#[test]
fn unsupported_images_are_told_apart() {
    assert!(is_image_supported(&image(2, 1, 0)));
    assert!(!is_image_supported(&image(3, 1, 0)));
    assert!(is_image_supported(&[1, 2, 3]));
}

#[test]
fn loading_an_unsupported_mapper_fails() {
    let pal = palette_bytes();
    let mut emu = Emulator::new(&pal);
    assert!(matches!(emu.load_rom_from_bytes(&image(1, 1, 3)), Err(LoadError::UnsupportedMapper(3))));
    assert!(emu.mapper.is_none());
}

#[test]
fn nrom_mirrors_a_single_bank() {
    let mut cart = parse_stream(&image(1, 1, 0)).unwrap();
    assert_eq!(cart.peek(0x8000), 0);
    assert_eq!(cart.peek(0xC000), 0);
    assert_eq!(cart.peek(0xFFFD), 0x80);
    // Work RAM at $6000 keeps what is written.
    cart.poke(0x6000, 0x5A);
    assert_eq!(cart.peek(0x6000), 0x5A);
    // Pattern memory and nametables.
    cart.vpoke(0x2005, 0x77);
    assert_eq!(cart.vpeek(0x2005), 0x77);
}

#[test]
fn mmc1_switches_the_low_bank() {
    let mut cart = parse_stream(&image(4, 1, 1)).unwrap();
    assert_eq!(cart.peek(0x8000), 0);
    assert_eq!(cart.peek(0xC000), 3);
    // Five serial writes of 2 (least significant bit first) to the PRG bank register.
    for bit in [0u8, 1, 0, 0, 0] {
        cart.poke(0xE000, bit);
    }
    assert_eq!(cart.peek(0x8000), 2);
    assert_eq!(cart.peek(0xBFFF), 2);
    assert_eq!(cart.peek(0xC000), 3);
}

#[test]
fn mmc1_reset_bit_restarts_the_shift() {
    let mut cart = parse_stream(&image(4, 1, 1)).unwrap();
    cart.poke(0xE000, 1);
    cart.poke(0xE000, 0x80);
    for bit in [1u8, 0, 0, 0, 0] {
        cart.poke(0xE000, bit);
    }
    assert_eq!(cart.peek(0x8000), 1);
}

#[test]
fn uxrom_switches_the_low_bank() {
    let mut cart = parse_stream(&image(4, 0, 2)).unwrap();
    assert_eq!(cart.peek(0xC000), 3);
    cart.poke(0x8000, 2);
    assert_eq!(cart.peek(0x8000), 2);
    assert_eq!(cart.peek(0xC000), 3);
}

#[test]
fn mmc3_selects_banks() {
    let mut cart = parse_stream(&image(4, 1, 4)).unwrap();
    // The last 8 KiB bank is fixed at $E000.
    assert_eq!(cart.peek(0xE000), 3);
    // R6 (8 KiB at $8000) = 4 (the first half of 16 KiB bank 2).
    cart.poke(0x8000, 6);
    cart.poke(0x8001, 4);
    assert_eq!(cart.peek(0x8000), 2);
}

#[test]
fn ppu_address_parts() {
    let a = PpuAddr(0b0_101_10_10101_01010);
    assert_eq!(a.get_corase_x(), 0b01010);
    assert_eq!(a.get_corase_y(), 0b10101);
    assert_eq!(a.get_nn(), 0b10);
    assert_eq!(a.get_fine_y(), 0b101);
    assert_eq!(a.get_tile_address(), 0x2000 | (a.0 & 0x0FFF));
    assert_eq!(a.get_attribute_address(), 0x23C0 | (0b10 << 10) | ((0b10101 / 4) << 3) | (0b01010 / 4));
    assert_eq!(PpuAddr::max_corase_x(), 31);
    assert_eq!(PpuAddr::max_corase_y_of_nametable(), 29);
}

#[test]
fn control_register_fields() {
    let c = PCtrl::new(0b1011_1110);
    assert_eq!(c.get_nn(), 2);
    assert_eq!(c.base_nametable_address(), 0x2800);
    assert_eq!(c.vram_addr_increment(), 32);
    assert_eq!(c.pattern_table_addr_for_8x8_sprites(), 0x1000);
    assert_eq!(c.bg_pattern_table_addr(), 0x1000);
    assert_eq!(c.sprite_length(), 16);
    assert!(c.is_two_tile_sprite());
    assert!(c.nmi_output());
    let c = PCtrl::new(0);
    assert_eq!(c.vram_addr_increment(), 1);
    assert_eq!(c.sprite_length(), 8);
    assert!(!c.nmi_output());
}

#[test]
fn mask_and_status_bits() {
    let m = PMask::new(0b1010_1001);
    assert!(m.greyscale_mode());
    assert!(m.show_background());
    assert!(!m.show_sprites());
    assert!(m.emphasize_red());
    assert!(!m.emphasize_green());
    assert!(m.emphasize_blue());
    assert_eq!(m.emphasize_bits(), 0b101);
    let mut s = PStatus::new(0);
    s.set_sprite_overflow(true);
    s.set_sprite_0_hit(true);
    s.set_vblank_occured(true);
    assert_eq!(s.0, 0xE0);
    s.set_sprite_0_hit(false);
    assert_eq!(s.0, 0xA0);
    assert!(s.vblank_occured() && s.sprite_overflow() && !s.sprite_0_hit());
}

#[test]
fn palette_from_bytes() {
    let p = Palette::new(&palette_bytes());
    assert_eq!(p.get_rgb(0), RgbColor::new(0, 0, 0));
    assert_eq!(p.get_rgb(21), RgbColor::new(21, 42, 63));
}

fn ppu_and_cartridge() -> (ppu::State, Cartridge) {
    let pal = palette_bytes();
    let mut img = header(1, 1, 0, 0);
    img.extend(vec![0u8; 0x4000]);
    img.extend(vec![0u8; 0x2000]);
    (ppu::State::new(&pal), parse_stream(&img).unwrap())
}

#[test]
fn a_frame_is_262_lines_of_341_dots() {
    let (mut p, mut cart) = ppu_and_cartridge();
    let mut frames = 0;
    for _ in 0..(262 * 341) {
        if p.tick(&mut cart).frame {
            frames += 1;
            assert_eq!(p.n_scanline, 241);
            assert_eq!(p.n_dot, 2);
        }
    }
    assert_eq!(frames, 1);
    assert_eq!(p.n_scanline, 261);
    assert_eq!(p.n_dot, 0);
    assert!(!p.vram_fault);
}

#[test]
fn vblank_flag_spans_the_blank_lines() {
    let (mut p, mut cart) = ppu_and_cartridge();
    while !(p.n_scanline == 241 && p.n_dot == 2) {
        p.tick(&mut cart);
    }
    assert!(p.pstatus.vblank_occured());
    while !(p.n_scanline == 261 && p.n_dot == 2) {
        p.tick(&mut cart);
    }
    assert!(!p.pstatus.vblank_occured());
}

#[test]
fn nmi_follows_vblank_when_enabled() {
    let (mut p, mut cart) = ppu_and_cartridge();
    p.write_ppuctrl(0x80);
    let mut nmis = 0;
    for _ in 0..(2 * 262 * 341) {
        if p.tick(&mut cart).nmi {
            nmis += 1;
        }
    }
    assert_eq!(nmis, 2);
}

#[test]
fn disabled_rendering_draws_the_backdrop() {
    let (mut p, mut cart) = ppu_and_cartridge();
    p.palette_ram[0] = 20;
    for _ in 0..(262 * 341) {
        p.tick(&mut cart);
    }
    let frame = p.get_framebuffer();
    assert_eq!(frame.len(), SCREEN_SIZE);
    assert!(frame.iter().all(|c| *c == RgbColor::new(20, 40, 60)));
}

#[test]
fn pre_render_line_reloads_the_scroll_position() {
    let (mut p, mut cart) = ppu_and_cartridge();
    p.write_ppumask(0x08);
    p.temporary_addr = PpuAddr(0x3ABC);
    p.current_addr = PpuAddr(0);
    while !(p.n_scanline == 261 && p.n_dot == 305) {
        p.tick(&mut cart);
    }
    assert_eq!(p.current_addr.0, 0x3ABC);
    while !(p.n_scanline == 261 && p.n_dot == 337) {
        p.tick(&mut cart);
    }
    // Two more tiles fetched for the next line: coarse X 28 -> 30.
    assert_eq!(p.current_addr.0, 0x3ABE);
}

#[test]
fn disabled_rendering_keeps_the_scroll_position() {
    let (mut p, mut cart) = ppu_and_cartridge();
    p.temporary_addr = PpuAddr(0x3ABC);
    p.current_addr = PpuAddr(0x0123);
    for _ in 0..(262 * 341) {
        p.tick(&mut cart);
    }
    assert_eq!(p.current_addr.0, 0x0123);
}

#[test]
fn red_emphasis_brightens_red_and_dims_the_rest() {
    let (mut p, mut cart) = ppu_and_cartridge();
    p.palette_ram[0] = 20;
    p.write_ppumask(0x20);
    for _ in 0..(262 * 341) {
        p.tick(&mut cart);
    }
    assert_eq!(p.get_framebuffer()[1000], RgbColor::new(22, 36, 54));
}

#[test]
fn brightening_saturates() {
    let (mut p, mut cart) = ppu_and_cartridge();
    // Entry 63 is (63, 126, 189); blue emphasis: 189 * 1.1 = 207, the others * 0.9.
    p.palette_ram[0] = 63;
    p.write_ppumask(0x80);
    for _ in 0..(262 * 341) {
        p.tick(&mut cart);
    }
    assert_eq!(p.get_framebuffer()[0], RgbColor::new(56, 113, 207));
}

#[test]
fn scroll_and_address_writes_share_the_toggle() {
    let (mut p, _cart) = ppu_and_cartridge();
    p.write_ppuscroll(0b1010_1101);
    assert_eq!(p.fine_x, 0b101);
    assert_eq!(p.temporary_addr.get_corase_x(), 0b10101);
    p.write_ppuscroll(0b0110_1011);
    assert_eq!(p.temporary_addr.get_fine_y(), 0b011);
    assert_eq!(p.temporary_addr.get_corase_y(), 0b01101);
    assert!(!p.write_toggle);
    p.write_ppuaddr(0x7F);
    p.write_ppuaddr(0x12);
    assert_eq!(p.current_addr.0, 0x3F12);
    p.write_ppuaddr(0x21);
    p.read_ppustatus();
    assert!(!p.write_toggle);
}

#[test]
fn oam_data_writes_advance_the_address() {
    let (mut p, _cart) = ppu_and_cartridge();
    p.write_oamaddr(0xFF);
    p.write_oamdata(0x12);
    assert_eq!(p.oamaddr, 0);
    assert_eq!(p.oamdata[0xFF], 0x12);
    assert_eq!(p.read_oamdata(), 0);
}

/// A frame with one 8x8 sprite whose top row has only its leftmost pixel set.
fn sprite_frame(attribute: u8) -> Vec<RgbColor> {
    let pal = palette_bytes();
    let mut img = header(1, 1, 0, 0);
    let mut prg = vec![0xEAu8; 0x4000];
    // LDA #$14; STA $2001 (sprites on, also at the left edge); JMP $8005
    prg[..8].copy_from_slice(&[0xA9, 0x14, 0x8D, 0x01, 0x20, 0x4C, 0x05, 0x80]);
    prg[0x3FFC] = 0x00;
    prg[0x3FFD] = 0x80;
    img.extend(prg);
    let mut chr = vec![0u8; 0x2000];
    chr[16] = 0x80; // tile 1, row 0, low plane
    img.extend(chr);
    let mut emu = Emulator::new(&pal);
    emu.load_rom_from_bytes(&img).unwrap();
    emu.reset();
    // Sprite 0: Y 10, tile 1, the given attribute, X 20; the other sprites off screen.
    for i in 0..256 {
        emu.nes.ppu.oamdata[i] = 0xFF;
    }
    emu.nes.ppu.oamdata[0] = 10;
    emu.nes.ppu.oamdata[1] = 1;
    emu.nes.ppu.oamdata[2] = attribute;
    emu.nes.ppu.oamdata[3] = 20;
    emu.nes.ppu.palette_ram[17] = 30;
    for _ in 0..3 {
        emu.run_for_one_frame().unwrap();
    }
    emu.get_framebuffer().clone()
}

#[test]
fn sprite_pixel_lands_at_its_x() {
    let frame = sprite_frame(0x00);
    let lit: Vec<usize> = (0..SCREEN_SIZE).filter(|&i| frame[i] == RgbColor::new(30, 60, 90)).collect();
    assert_eq!(lit, vec![11 * 256 + 20]);
}

#[test]
fn horizontal_flip_mirrors_the_sprite_row() {
    let frame = sprite_frame(0x40);
    let lit: Vec<usize> = (0..SCREEN_SIZE).filter(|&i| frame[i] == RgbColor::new(30, 60, 90)).collect();
    assert_eq!(lit, vec![11 * 256 + 27]);
}

#[test]
fn read_access_of_ram_does_not_clock() {
    let pal = palette_bytes();
    let mut emu = Emulator::new(&pal);
    emu.load_rom_from_bytes(&image(1, 1, 0)).unwrap();
    let before = emu.get_cycle();
    emu.access(0x0000, AccessMode::Write(9));
    assert_eq!(emu.access(0x0800, AccessMode::Read), 9);
    assert_eq!(emu.get_cycle(), before);
}

#[test]
fn cpu_bus_writes_switch_cartridge_banks() {
    let pal = palette_bytes();
    let mut emu = Emulator::new(&pal);
    emu.load_rom_from_bytes(&image(4, 0, 2)).unwrap();
    assert_eq!(emu.access(0x8000, AccessMode::Read), 0);
    emu.access(0x8000, AccessMode::Write(2));
    assert_eq!(emu.access(0x8000, AccessMode::Read), 2);
    assert_eq!(emu.access(0xC000, AccessMode::Read), 3);
    assert!(emu.nes.fault.is_none());
}
