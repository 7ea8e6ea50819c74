//! The picture processing unit: registers, scrolling, sprite evaluation and the
//! dot-by-dot rendering of 262 scanlines of 341 dots into a 256x240 frame.
use vstd::prelude::*;
use crate::bitmisc::{lemma_u8_bits, U16Address, U8BitTest};
use crate::cartridge::mapper::Mapper;
use crate::emulator::{vaccess, vram_broken, vram_reachable, vram_read, vram_stores, vram_writable, AccessMode};

verus! {

pub const SCREEN_SIZE: usize = 61440;

/// One pixel of the frame.
#[derive(Clone, Copy, PartialEq, Eq, Structural, Debug)]
pub struct RgbColor {
    pub r: u8,
    pub g: u8,
    pub b: u8,
}

impl RgbColor {
    pub fn new(r: u8, g: u8, b: u8) -> (c: Self)
        ensures
            c == (RgbColor { r, g, b }),
    {
        RgbColor { r, g, b }
    }

    /// Black.
    pub fn default() -> (c: Self)
        ensures
            c == (RgbColor { r: 0, g: 0, b: 0 }),
    {
        RgbColor::new(0, 0, 0)
    }
}

/// The 64 colours that a palette index selects.
pub struct Palette(pub Vec<RgbColor>);

/// The colours that 192 palette bytes describe, three bytes (red, green, blue) each.
pub open spec fn palette_from_bytes(d: Seq<u8>) -> Seq<RgbColor> {
    Seq::new(64, |i: int| RgbColor { r: d[3 * i], g: d[3 * i + 1], b: d[3 * i + 2] })
}

impl Palette {
    pub open spec fn colors(&self) -> Seq<RgbColor> {
        self.0@
    }

    /// Builds the palette from 64 red-green-blue triples.
    pub fn new(data: &[u8]) -> (p: Self)
        requires
            data@.len() == 192,
        ensures
            p.colors() == palette_from_bytes(data@),
    {
        let mut colors: Vec<RgbColor> = Vec::new();
        let mut index: usize = 0;
        while index < 64
            invariant
                data@.len() == 192,
                index <= 64,
                colors@.len() == index,
                forall|i: int| 0 <= i < index ==> colors@[i] == palette_from_bytes(data@)[i],
            decreases 64 - index,
        {
            colors.push(RgbColor::new(data[3 * index], data[3 * index + 1], data[3 * index + 2]));
            index = index + 1;
        }
        assert(colors@ == palette_from_bytes(data@));
        Palette(colors)
    }

    pub fn get_rgb(&self, index: usize) -> (c: RgbColor)
        requires
            index < self.colors().len(),
        ensures
            c == self.colors()[index as int],
    {
        self.0[index]
    }
}

/// A VRAM address in the loopy layout: `yyy NN YYYYY XXXXX`, fine Y scroll,
/// nametable, coarse Y and coarse X.
#[derive(Clone, Copy)]
pub struct PpuAddr(pub u16);

/// The address whose parts are the given ones.
pub open spec fn addr_of(top: int, fine_y: int, nn: int, coarse_y: int, coarse_x: int) -> int {
    top * 32768 + fine_y * 4096 + nn * 1024 + coarse_y * 32 + coarse_x
}

/// A nametable number with its low bit (horizontal neighbour) flipped.
pub open spec fn flip_h(nn: int) -> int {
    if nn % 2 == 1 { nn - 1 } else { nn + 1 }
}

/// A nametable number with its high bit (vertical neighbour) flipped.
pub open spec fn flip_v(nn: int) -> int {
    if nn >= 2 { nn - 2 } else { nn + 2 }
}

proof fn lemma_addr_parts(v: u16)
    ensures
        v == addr_of((v / 32768) as int, (v / 4096 % 8) as int, (v / 1024 % 4) as int, (v / 32 % 32) as int, (v % 32) as int),
        v / 32768 <= 1,
{
    assert(v == (v / 32768) * 32768 + (v / 4096 % 8) * 4096 + (v / 1024 % 4) * 1024 + (v / 32 % 32) * 32 + v % 32)
        by (bit_vector);
}

proof fn lemma_addr_of_parts(top: int, fy: int, nn: int, cy: int, cx: int)
    requires
        0 <= top <= 1,
        0 <= fy < 8,
        0 <= nn < 4,
        0 <= cy < 32,
        0 <= cx < 32,
    ensures
        ({
            let v = addr_of(top, fy, nn, cy, cx);
            &&& 0 <= v < 65536
            &&& v % 32 == cx
            &&& v / 32 % 32 == cy
            &&& v / 1024 % 4 == nn
            &&& v / 4096 % 8 == fy
            &&& v / 32768 == top
        }),
{
    let (t, f, n, y, x) = (top as u16, fy as u16, nn as u16, cy as u16, cx as u16);
    assert(t <= 1 && f < 8 && n < 4 && y < 32 && x < 32 ==> {
        let v = t * 32768 + f * 4096 + n * 1024 + y * 32 + x;
        &&& v < 65536
        &&& v % 32 == x
        &&& v / 32 % 32 == y
        &&& v / 1024 % 4 == n
        &&& v / 4096 % 8 == f
        &&& v / 32768 == t
    }) by (bit_vector);
}

impl PpuAddr {
    pub open spec fn coarse_x(self) -> int {
        (self.0 % 32) as int
    }

    pub open spec fn coarse_y(self) -> int {
        (self.0 / 32 % 32) as int
    }

    pub open spec fn nametable(self) -> int {
        (self.0 / 1024 % 4) as int
    }

    pub open spec fn fine_y(self) -> int {
        (self.0 / 4096 % 8) as int
    }

    pub open spec fn top(self) -> int {
        (self.0 / 32768) as int
    }

    pub fn new() -> (a: Self)
        ensures
            a.0 == 0,
    {
        PpuAddr(0)
    }

    pub fn max_corase_x() -> (r: u16)
        ensures
            r == 31,
    {
        0b11111
    }

    pub fn max_corase_y() -> (r: u16)
        ensures
            r == 31,
    {
        0b11111
    }

    /// The last tile row of a nametable; rows 30 and 31 hold its attributes.
    pub fn max_corase_y_of_nametable() -> (r: u16)
        ensures
            r == 29,
    {
        29
    }

    pub fn max_fine_y() -> (r: u16)
        ensures
            r == 7,
    {
        0b111
    }

    pub fn get_corase_x(&self) -> (r: u16)
        ensures
            r == self.coarse_x(),
    {
        self.0 % 32
    }

    pub fn get_corase_y(&self) -> (r: u16)
        ensures
            r == self.coarse_y(),
    {
        self.0 / 32 % 32
    }

    pub fn get_fine_y(&self) -> (r: u16)
        ensures
            r == self.fine_y(),
    {
        self.0 / 4096 % 8
    }

    pub fn get_nn(&self) -> (r: u16)
        ensures
            r == self.nametable(),
    {
        self.0 / 1024 % 4
    }

    /// The nametable byte that the address points into: $2000 plus its low 12 bits.
    pub fn get_tile_address(&self) -> (r: u16)
        ensures
            r == 0x2000 + self.0 % 4096,
    {
        0x2000 + self.0 % 4096
    }

    /// The attribute byte that covers the tile the address points at.
    pub fn get_attribute_address(&self) -> (r: u16)
        ensures
            r == 0x23C0 + self.nametable() * 1024 + (self.coarse_y() / 4) * 8 + self.coarse_x() / 4,
    {
        0x23C0 + self.get_nn() * 1024 + (self.get_corase_y() / 4) * 8 + self.get_corase_x() / 4
    }

    fn mirror_nametable_horizontally(&mut self)
        ensures
            final(self).0 == addr_of(old(self).top(), old(self).fine_y(), flip_h(old(self).nametable()),
                old(self).coarse_y(), old(self).coarse_x()),
    {
        proof { lemma_addr_parts(self.0); }
        if self.0 / 1024 % 2 == 1 {
            self.0 = self.0 - 1024;
        } else {
            self.0 = self.0 + 1024;
        }
    }

    fn mirror_nametable_vertically(&mut self)
        ensures
            final(self).0 == addr_of(old(self).top(), old(self).fine_y(), flip_v(old(self).nametable()),
                old(self).coarse_y(), old(self).coarse_x()),
    {
        proof { lemma_addr_parts(self.0); }
        if self.0 / 2048 % 2 == 1 {
            self.0 = self.0 - 2048;
        } else {
            self.0 = self.0 + 2048;
        }
    }

    fn set_corase_x(&mut self, value: u16)
        ensures
            final(self).0 == addr_of(old(self).top(), old(self).fine_y(), old(self).nametable(),
                old(self).coarse_y(), (value % 32) as int),
    {
        proof { lemma_addr_parts(self.0); }
        self.0 = self.0 - self.0 % 32 + value % 32;
    }

    fn set_corase_y(&mut self, value: u16)
        ensures
            final(self).0 == addr_of(old(self).top(), old(self).fine_y(), old(self).nametable(),
                (value % 32) as int, old(self).coarse_x()),
    {
        proof { lemma_addr_parts(self.0); }
        self.0 = self.0 - (self.0 / 32 % 32) * 32 + (value % 32) * 32;
    }

    fn set_fine_y(&mut self, value: u16)
        ensures
            final(self).0 == addr_of(old(self).top(), (value % 8) as int, old(self).nametable(),
                old(self).coarse_y(), old(self).coarse_x()),
    {
        proof { lemma_addr_parts(self.0); }
        self.0 = self.0 - (self.0 / 4096 % 8) * 4096 + (value % 8) * 4096;
    }

    fn set_nn(&mut self, value: u16)
        ensures
            final(self).0 == addr_of(old(self).top(), old(self).fine_y(), (value % 4) as int,
                old(self).coarse_y(), old(self).coarse_x()),
    {
        proof { lemma_addr_parts(self.0); }
        self.0 = self.0 - (self.0 / 1024 % 4) * 1024 + (value % 4) * 1024;
    }

    fn set_low_byte(&mut self, value: u8)
        ensures
            final(self).0 == (old(self).0 / 256) * 256 + value,
    {
        self.0 = (self.0 / 256) * 256 + value as u16;
    }

    /// Bits 14 and 15 are cleared: the register is 15 bits wide and a write sets bits 8-13.
    fn set_high_byte(&mut self, value: u8)
        ensures
            final(self).0 == (value % 64) * 256 + old(self).0 % 256,
    {
        self.0 = ((value % 64) as u16) * 256 + self.0 % 256;
    }

    fn increase_corase_x(&mut self)
        ensures
            old(self).coarse_x() == 31 ==> final(self).0 == addr_of(old(self).top(), old(self).fine_y(),
                flip_h(old(self).nametable()), old(self).coarse_y(), 0),
            old(self).coarse_x() != 31 ==> final(self).0 == addr_of(old(self).top(), old(self).fine_y(),
                old(self).nametable(), old(self).coarse_y(), old(self).coarse_x() + 1),
    {
        let coarse_x = self.get_corase_x();
        if coarse_x == PpuAddr::max_corase_x() {
            self.set_corase_x(0);
            proof { lemma_addr_of_parts(old(self).top(), old(self).fine_y(), old(self).nametable(), old(self).coarse_y(), 0); }
            self.mirror_nametable_horizontally();
        } else {
            self.set_corase_x(coarse_x + 1);
        }
    }

    fn increase_fine_y(&mut self)
        ensures
            final(self).0 == addr_of(old(self).top(),
                if old(self).fine_y() < 7 { old(self).fine_y() + 1 } else { 0 },
                if old(self).fine_y() == 7 && old(self).coarse_y() == 29 { flip_v(old(self).nametable()) }
                else { old(self).nametable() },
                if old(self).fine_y() < 7 { old(self).coarse_y() }
                else if old(self).coarse_y() == 29 || old(self).coarse_y() == 31 { 0 }
                else { old(self).coarse_y() + 1 },
                old(self).coarse_x()),
    {
        let fine_y = self.get_fine_y();
        if fine_y != PpuAddr::max_fine_y() {
            self.set_fine_y(fine_y + 1);
        } else {
            self.set_fine_y(0);
            proof { lemma_addr_of_parts(old(self).top(), 0, old(self).nametable(), old(self).coarse_y(), old(self).coarse_x()); }
            let mut coarse_y = self.get_corase_y();
            if coarse_y == PpuAddr::max_corase_y_of_nametable() {
                coarse_y = 0;
                self.mirror_nametable_vertically();
                proof { lemma_addr_of_parts(old(self).top(), 0, flip_v(old(self).nametable()), old(self).coarse_y(), old(self).coarse_x()); }
            } else if coarse_y == PpuAddr::max_corase_y() {
                coarse_y = 0;
            } else {
                coarse_y = coarse_y + 1;
            }
            self.set_corase_y(coarse_y);
        }
    }

    /// Takes coarse X and the horizontal nametable bit from `vaddr` (the bits of $041F).
    fn copy_horizontal_postion_bits(&mut self, vaddr: Self)
        ensures
            final(self).0 == addr_of(old(self).top(), old(self).fine_y(),
                (old(self).nametable() / 2) * 2 + vaddr.nametable() % 2, old(self).coarse_y(), vaddr.coarse_x()),
    {
        let nn: u16 = (self.get_nn() / 2) * 2 + vaddr.get_nn() % 2;
        proof { lemma_addr_of_parts(self.top(), self.fine_y(), nn as int, self.coarse_y(), vaddr.coarse_x()); }
        self.0 = (self.0 / 32768) * 32768 + self.get_fine_y() * 4096 + nn * 1024 + self.get_corase_y() * 32
            + vaddr.get_corase_x();
    }

    /// Takes fine Y, coarse Y and the vertical nametable bit from `vaddr` (the bits of $7BE0).
    fn copy_vertical_postion_bits(&mut self, vaddr: Self)
        ensures
            final(self).0 == addr_of(old(self).top(), vaddr.fine_y(),
                (vaddr.nametable() / 2) * 2 + old(self).nametable() % 2, vaddr.coarse_y(), old(self).coarse_x()),
    {
        let nn: u16 = (vaddr.get_nn() / 2) * 2 + self.get_nn() % 2;
        proof { lemma_addr_of_parts(self.top(), vaddr.fine_y(), nn as int, vaddr.coarse_y(), self.coarse_x()); }
        self.0 = (self.0 / 32768) * 32768 + vaddr.get_fine_y() * 4096 + nn * 1024 + vaddr.get_corase_y() * 32
            + self.get_corase_x();
    }
}

/// PPUCTRL ($2000).
pub struct PCtrl(pub u8);

impl PCtrl {
    pub fn new(v: u8) -> (c: Self)
        ensures
            c.0 == v,
    {
        PCtrl(v)
    }

    /// The base nametable number (bits 0-1).
    pub fn get_nn(&self) -> (r: u16)
        ensures
            r == self.0 % 4,
    {
        (self.0 % 4) as u16
    }

    pub fn base_nametable_address(&self) -> (r: u16)
        ensures
            r == 0x2000 + (self.0 % 4) * 0x400,
    {
        0x2000 + ((self.0 % 4) as u16) * 0x400
    }

    /// How far the VRAM address moves after a PPUDATA access: 1, or 32 when bit 2 is set.
    pub fn vram_addr_increment(&self) -> (r: usize)
        ensures
            r == if self.0 / 4 % 2 == 1 { 32int } else { 1int },
    {
        proof { lemma_u8_bits(self.0); }
        if self.0 & 0b0000_0100 == 0 { 0x1 } else { 0x20 }
    }

    pub fn pattern_table_addr_for_8x8_sprites(&self) -> (r: u16)
        ensures
            r == if self.0 / 8 % 2 == 1 { 0x1000int } else { 0int },
    {
        proof { lemma_u8_bits(self.0); }
        if self.0 & 0b0000_1000 == 0 { 0x0000 } else { 0x1000 }
    }

    pub fn bg_pattern_table_addr(&self) -> (r: u16)
        ensures
            r == if self.0 / 16 % 2 == 1 { 0x1000int } else { 0int },
    {
        proof { lemma_u8_bits(self.0); }
        if self.0 & 0b0001_0000 == 0 { 0x0000 } else { 0x1000 }
    }

    /// Sprite height in pixels: 8, or 16 when bit 5 is set.
    pub fn sprite_length(&self) -> (r: usize)
        ensures
            r == if self.0 / 32 % 2 == 1 { 16int } else { 8int },
    {
        proof { lemma_u8_bits(self.0); }
        if self.0 & 0b0010_0000 == 0 { 8 } else { 16 }
    }

    /// Whether a vertical blank raises a non-maskable interrupt (bit 7).
    pub fn nmi_output(&self) -> (r: bool)
        ensures
            r == (self.0 >= 128),
    {
        proof { lemma_u8_bits(self.0); }
        self.0 & 0b1000_0000 != 0
    }

    pub fn is_two_tile_sprite(&self) -> (r: bool)
        ensures
            r == (self.0 / 32 % 2 == 1),
    {
        proof { lemma_u8_bits(self.0); }
        self.0 & 0b0010_0000 != 0
    }
}

/// PPUMASK ($2001).
pub struct PMask(pub u8);

impl PMask {
    pub fn new(v: u8) -> (m: Self)
        ensures
            m.0 == v,
    {
        PMask(v)
    }

    pub fn greyscale_mode(&self) -> (r: bool)
        ensures
            r == (self.0 % 2 == 1),
    {
        proof { lemma_u8_bits(self.0); }
        self.0 & 0b0000_0001 != 0
    }

    pub fn show_background_in_leftmost_8_pixels(&self) -> (r: bool)
        ensures
            r == (self.0 / 2 % 2 == 1),
    {
        proof { lemma_u8_bits(self.0); }
        self.0 & 0b0000_0010 != 0
    }

    pub fn show_sprite_in_leftmost_8_pixels(&self) -> (r: bool)
        ensures
            r == (self.0 / 4 % 2 == 1),
    {
        proof { lemma_u8_bits(self.0); }
        self.0 & 0b0000_0100 != 0
    }

    pub fn show_background(&self) -> (r: bool)
        ensures
            r == (self.0 / 8 % 2 == 1),
    {
        proof { lemma_u8_bits(self.0); }
        self.0 & 0b0000_1000 != 0
    }

    pub fn show_sprites(&self) -> (r: bool)
        ensures
            r == (self.0 / 16 % 2 == 1),
    {
        proof { lemma_u8_bits(self.0); }
        self.0 & 0b0001_0000 != 0
    }

    pub fn emphasize_red(&self) -> (r: bool)
        ensures
            r == (self.0 / 32 % 2 == 1),
    {
        proof { lemma_u8_bits(self.0); }
        self.0 & 0b0010_0000 != 0
    }

    pub fn emphasize_green(&self) -> (r: bool)
        ensures
            r == (self.0 / 64 % 2 == 1),
    {
        proof { lemma_u8_bits(self.0); }
        self.0 & 0b0100_0000 != 0
    }

    pub fn emphasize_blue(&self) -> (r: bool)
        ensures
            r == (self.0 >= 128),
    {
        proof { lemma_u8_bits(self.0); }
        self.0 & 0b1000_0000 != 0
    }

    /// Bits 5-7.
    pub fn emphasize_bits(&self) -> (r: u8)
        ensures
            r == self.0 / 32,
    {
        proof { lemma_u8_bits(self.0); }
        self.0 >> 5
    }
}

/// PPUSTATUS ($2002).
pub struct PStatus(pub u8);

/// A byte with bit `k` (5, 6 or 7) set to `value`.
pub open spec fn with_bit(v: u8, weight: int, value: bool) -> u8 {
    let set = v as int / weight % 2 == 1;
    if value && !set {
        (v + weight) as u8
    } else if !value && set {
        (v - weight) as u8
    } else {
        v
    }
}

impl PStatus {
    pub fn new(v: u8) -> (s: Self)
        ensures
            s.0 == v,
    {
        PStatus(v)
    }

    pub fn sprite_overflow(&self) -> (r: bool)
        ensures
            r == (self.0 / 32 % 2 == 1),
    {
        proof { lemma_u8_bits(self.0); }
        self.0 & 0b0010_0000 != 0
    }

    pub fn set_sprite_overflow(&mut self, value: bool)
        ensures
            final(self).0 == with_bit(old(self).0, 32, value),
    {
        proof { lemma_u8_bits(self.0); }
        if value {
            self.0 = self.0 | 0b0010_0000;
        } else {
            self.0 = self.0 & 0b1101_1111u8;
        }
    }

    pub fn sprite_0_hit(&self) -> (r: bool)
        ensures
            r == (self.0 / 64 % 2 == 1),
    {
        proof { lemma_u8_bits(self.0); }
        self.0 & 0b0100_0000 != 0
    }

    pub fn set_sprite_0_hit(&mut self, value: bool)
        ensures
            final(self).0 == with_bit(old(self).0, 64, value),
    {
        proof { lemma_u8_bits(self.0); }
        if value {
            self.0 = self.0 | 0b0100_0000;
        } else {
            self.0 = self.0 & 0b1011_1111u8;
        }
    }

    pub fn vblank_occured(&self) -> (r: bool)
        ensures
            r == (self.0 >= 128),
    {
        proof { lemma_u8_bits(self.0); }
        self.0 & 0b1000_0000 != 0
    }

    pub fn set_vblank_occured(&mut self, value: bool)
        ensures
            final(self).0 == with_bit(old(self).0, 128, value),
    {
        proof { lemma_u8_bits(self.0); }
        if value {
            self.0 = self.0 | 0b1000_0000;
        } else {
            self.0 = self.0 & 0b0111_1111u8;
        }
    }
}

#[derive(Clone, Copy, PartialEq, Eq, Structural, Debug)]
pub enum SpriteEvaluationState {
    Idle,
    Copy,
    Search,
}

/// A sprite loaded for the current scanline: its shift registers and the dots left
/// until it starts to shift out (255: an empty slot).
#[derive(Clone, Copy)]
pub struct Sprite {
    pub x_pos: u8,
    pub y_pos: u8,
    pub hi_tile_shift: u8,
    pub lo_tile_shift: u8,
    pub attribute: u8,
    pub countdown: usize,
}

impl Sprite {
    pub fn new() -> (s: Self)
        ensures
            s == (Sprite { x_pos: 0xff, y_pos: 0xff, hi_tile_shift: 0, lo_tile_shift: 0, attribute: 0, countdown: 0xff }),
    {
        Sprite { x_pos: 0xff, y_pos: 0xff, hi_tile_shift: 0, lo_tile_shift: 0, attribute: 0, countdown: 0xff }
    }

    /// One dot of a sprite slot: while its countdown runs the pattern waits; at zero
    /// the pattern shifts out one pixel per dot (255 marks an unused slot).
    pub open spec fn shifted(self) -> Sprite {
        if self.countdown == 0 {
            Sprite { hi_tile_shift: self.hi_tile_shift << 1u8, lo_tile_shift: self.lo_tile_shift << 1u8, ..self }
        } else if self.countdown != 255 {
            Sprite { countdown: (self.countdown - 1) as usize, ..self }
        } else {
            self
        }
    }

    fn set_pos(&mut self, x: u8, y: u8)
        ensures
            *final(self) == (Sprite { x_pos: x, y_pos: y, countdown: x as usize, ..*old(self) }),
    {
        self.x_pos = x;
        self.y_pos = y;
        self.countdown = x as usize;
    }

    fn set_hi_tile_shift(&mut self, hi: u8)
        ensures
            *final(self) == (Sprite { hi_tile_shift: hi, ..*old(self) }),
    {
        self.hi_tile_shift = hi;
    }

    fn set_lo_tile_shift(&mut self, lo: u8)
        ensures
            *final(self) == (Sprite { lo_tile_shift: lo, ..*old(self) }),
    {
        self.lo_tile_shift = lo;
    }

    /// The sprite palette that the attribute selects: 4 to 7.
    pub fn color_set_index(&self) -> (r: u8)
        ensures
            r == self.attribute % 4 + 4,
    {
        proof { lemma_u8_bits(self.attribute); }
        (self.attribute & 0b11) + 4
    }

    pub fn behind_background(&self) -> (r: bool)
        ensures
            r == (self.attribute / 32 % 2 == 1),
    {
        self.attribute.is_b5_set()
    }
}

/// The PPU's registers, latches, object memory, palette memory and frame.
pub struct State {
    pub frame_buffer: Vec<RgbColor>,
    pub frame_buffer_cursor: usize,
    pub palette: Palette,
    pub n_dot: usize,
    pub n_scanline: usize,
    pub is_odd_frame: bool,
    pub pctrl: PCtrl,
    pub pmask: PMask,
    pub pstatus: PStatus,
    pub oamaddr: usize,
    pub oamdata: Vec<u8>,
    pub primary_oam_cursor: usize,
    pub primary_oam_latch: u8,
    pub secondary_oam: [u8; 32],
    pub secondary_oam_cursor: usize,
    pub sprite_nums_on_next_scanline: usize,
    pub sprite_evaluation_state: SpriteEvaluationState,
    pub sprite_list: [Sprite; 8],
    pub sprite_list_cursor: usize,
    pub sprite_0_on_next_scanline: bool,
    pub sprite_0_on_current_scanline: bool,
    pub sprite_y_latch: u8,
    pub sprite_tile_addr_latch: u8,
    pub sprite_attribute_latch: u8,
    pub palette_ram: [u8; 32],
    pub current_addr: PpuAddr,
    pub temporary_addr: PpuAddr,
    pub write_toggle: bool,
    pub fine_x: u8,
    pub address_latch: u16,
    pub tile_index_latch: u16,
    pub tile_lo_latch: u8,
    pub tile_hi_latch: u8,
    pub attribute_latch: u8,
    pub ppudata_latch: u8,
    pub background_shift_lo: u16,
    pub background_shift_hi: u16,
    pub attribute_shift_lo: u16,
    pub attribute_shift_hi: u16,
    pub nmi_already_triggered: bool,
    pub nmi_ready_to_trigger: bool,
    pub skip_one_tick: bool,
    pub vblank_suppress_flag: bool,
    /// Set once the PPU has addressed cartridge memory that the cartridge does not have.
    pub vram_fault: bool,
}

/// What one dot of the PPU reports to the machine.
#[derive(Clone, Copy, PartialEq, Eq, Structural, Debug)]
pub struct PpuTick {
    /// A non-maskable interrupt is raised.
    pub nmi: bool,
    /// A frame is complete (the first dot of the vertical blank).
    pub frame: bool,
}

/// A channel value a tenth brighter (rounded down), at most 255.
pub open spec fn brighter(x: u8) -> u8 {
    if x * 11 / 10 > 255 { 255 } else { (x * 11 / 10) as u8 }
}

/// A channel value a tenth dimmer (rounded down).
pub open spec fn dimmer(x: u8) -> u8 {
    (x * 9 / 10) as u8
}

/// A colour after the emphasis bits 5-7 of PPUMASK: each set bit brightens its own
/// channel by a tenth and dims the two others by a tenth, in the order red, green, blue.
pub open spec fn emphasized(c: RgbColor, mask: u8) -> RgbColor {
    let c1 = if mask / 32 % 2 == 1 { RgbColor { r: brighter(c.r), g: dimmer(c.g), b: dimmer(c.b) } } else { c };
    let c2 = if mask / 64 % 2 == 1 { RgbColor { r: dimmer(c1.r), g: brighter(c1.g), b: dimmer(c1.b) } } else { c1 };
    if mask >= 128 { RgbColor { r: dimmer(c2.r), g: dimmer(c2.g), b: brighter(c2.b) } } else { c2 }
}

fn brighten(x: u8) -> (r: u8)
    ensures
        r == brighter(x),
{
    let y: u16 = (x as u16) * 11 / 10;
    if y > 255 { 255 } else { y as u8 }
}

fn dim(x: u8) -> (r: u8)
    ensures
        r == dimmer(x),
{
    ((x as u16) * 9 / 10) as u8
}

/// Applies the emphasis bits of PPUMASK to a colour.
fn emphasize(c: RgbColor, mask: u8) -> (r: RgbColor)
    ensures
        r == emphasized(c, mask),
{
    proof { lemma_u8_bits(mask); }
    let mut rgb = c;
    if mask & 0b0010_0000 != 0 {
        rgb = RgbColor { r: brighten(rgb.r), g: dim(rgb.g), b: dim(rgb.b) };
    }
    if mask & 0b0100_0000 != 0 {
        rgb = RgbColor { r: dim(rgb.r), g: brighten(rgb.g), b: dim(rgb.b) };
    }
    if mask & 0b1000_0000 != 0 {
        rgb = RgbColor { r: dim(rgb.r), g: dim(rgb.g), b: brighten(rgb.b) };
    }
    rgb
}

/// The sprite pixel of the sprites from slot `k` on: the first sprite that has started
/// (countdown 0) and shows an opaque pixel gives its palette, colour, priority and
/// whether it sits in slot 0.
pub open spec fn sprite_pixel_from(list: [Sprite; 8], k: int) -> (u8, u8, bool, bool)
    decreases 8 - k,
{
    if k >= 8 || k < 0 {
        (0, 0, false, false)
    } else {
        let sp = list[k];
        let lo = sp.lo_tile_shift / 128;
        let hi = sp.hi_tile_shift / 128;
        if sp.countdown == 0 && (lo != 0 || hi != 0) {
            ((sp.attribute % 4 + 4) as u8, (lo + hi * 2) as u8, sp.attribute / 32 % 2 == 1, k == 0)
        } else {
            sprite_pixel_from(list, k + 1)
        }
    }
}

impl State {
    /// The sprite pixel of this dot (palette, colour, behind background, from slot 0);
    /// none where sprites are off or clipped at the left edge.
    pub open spec fn sprite_pixel(self) -> (u8, u8, bool, bool) {
        if self.pmask.0 / 16 % 2 == 1 && (self.pmask.0 / 4 % 2 == 1 || self.n_dot > 8) {
            sprite_pixel_from(self.sprite_list, 0)
        } else {
            (0, 0, false, false)
        }
    }

    /// The background pixel of this dot (palette, colour): bit 15 - fine X of the shift
    /// registers; none where the background is off or clipped at the left edge.
    pub open spec fn background_pixel(self) -> (u8, u8) {
        if self.pmask.0 / 8 % 2 == 1 && (self.pmask.0 / 2 % 2 == 1 || self.n_dot > 8) {
            let shift = ((7 - self.fine_x) + 8) as u16;
            let lo = (self.background_shift_lo >> shift) % 2;
            let hi = (self.background_shift_hi >> shift) % 2;
            let clo = (self.attribute_shift_lo >> shift) % 2;
            let chi = (self.attribute_shift_hi >> shift) % 2;
            ((clo + chi * 2) as u8, (lo + hi * 2) as u8)
        } else {
            (0, 0)
        }
    }

    /// The palette memory entry of this dot's pixel: the backdrop where both pixels are
    /// transparent, the opaque one where one is, and by the sprite's priority bit where
    /// both are.
    pub open spec fn pixel_palette_entry(self) -> int {
        let (sp_set, sp_color, sp_behind, _) = self.sprite_pixel();
        let (bg_set, bg_color) = self.background_pixel();
        if bg_color == 0 && sp_color == 0 {
            0
        } else if bg_color == 0 {
            sp_set * 4 + sp_color
        } else if sp_color == 0 {
            bg_set * 4 + bg_color
        } else if !sp_behind {
            sp_set * 4 + sp_color
        } else {
            bg_set * 4 + bg_color
        }
    }

    /// Whether this dot sets the sprite 0 hit flag: an opaque pixel of sprite 0 over an
    /// opaque background pixel, on a line where sprite 0 is present, away from dot 256.
    pub open spec fn sprite_0_hits(self) -> bool {
        self.sprite_0_on_current_scanline && self.sprite_pixel().1 != 0 && self.background_pixel().1 != 0
            && self.sprite_pixel().3 && self.n_dot != 256
    }

    /// The colour this dot puts into the frame.
    pub open spec fn pixel_color(self) -> RgbColor {
        emphasized(self.palette.colors()[self.palette_ram[self.pixel_palette_entry()] as int], self.pmask.0)
    }

    /// The colour the tick puts into the frame (the skipped dot draws as dot 1).
    pub open spec fn drawn_pixel(self) -> RgbColor {
        if self.n_scanline == 0 && self.n_dot == 0 && self.skip_one_tick {
            State { n_dot: 1, ..self }.pixel_color()
        } else {
            self.pixel_color()
        }
    }
}

/// With rendering off every pixel drawn is the backdrop colour.
pub proof fn lemma_disabled_rendering_draws_backdrop(s: State)
    requires
        !s.rendering(),
    ensures
        s.drawn_pixel() == s.backdrop(),
{
}

/// Where both pixels are opaque, a sprite in front shows its own colour and a sprite
/// behind the background shows the background's.
pub proof fn lemma_sprite_priority(s: State)
    requires
        s.sprite_pixel().1 != 0,
        s.background_pixel().1 != 0,
    ensures
        !s.sprite_pixel().2 ==> s.pixel_palette_entry() == s.sprite_pixel().0 * 4 + s.sprite_pixel().1,
        s.sprite_pixel().2 ==> s.pixel_palette_entry() == s.background_pixel().0 * 4 + s.background_pixel().1,
{
}

impl State {
    /// Whether background or sprite rendering is enabled.
    pub open spec fn rendering(self) -> bool {
        self.pmask.0 / 8 % 2 == 1 || self.pmask.0 / 16 % 2 == 1
    }

    /// The frame cursor at a position: the pixel the next drawn dot goes to.
    pub open spec fn fb_ok_at(self, s: int, d: int) -> bool {
        let c = self.frame_buffer_cursor;
        if s < 240 {
            c == s * 256 + (if d == 0 { 0 } else if d <= 257 { d - 1 } else { 256 })
        } else if s == 240 || (s == 241 && d <= 1) {
            c == SCREEN_SIZE
        } else {
            c == 0
        }
    }

    /// The sprite evaluation cursors: in the Search state the secondary cursor stands at
    /// the next free slot, in the Copy state inside the slot being copied.
    pub open spec fn eval_ok(self) -> bool {
        let sc = self.secondary_oam_cursor as int;
        let n = self.sprite_nums_on_next_scanline as int;
        &&& self.sprite_evaluation_state == SpriteEvaluationState::Search ==> sc == 4 * n
        &&& self.sprite_evaluation_state == SpriteEvaluationState::Copy ==> n < 8 && 4 * n < sc < 4 * n + 4
    }

    /// The object memory cursors at a position.
    pub open spec fn oam_ok_at(self, s: int, d: int) -> bool {
        let sc = self.secondary_oam_cursor as int;
        let rendering_line = s < 240 || s == 261;
        &&& sc <= 32
        &&& self.sprite_list_cursor <= 8
        &&& self.sprite_nums_on_next_scanline <= 8
        &&& self.primary_oam_cursor <= 259
        &&& (self.sprite_evaluation_state != SpriteEvaluationState::Idle ==> self.primary_oam_cursor <= 256)
        &&& (1 <= d <= 65 ==> sc == if s < 240 { (d - 1) % 32 } else { 0 })
        &&& (d >= 1 && 240 <= s <= 260 ==> sc == 0)
        &&& (66 <= d <= 257 && rendering_line ==> self.eval_ok())
        &&& (258 <= d <= 320 && rendering_line ==> {
            &&& sc == 4 * ((d - 257) / 8) + (if (d - 257) % 8 < 3 { (d - 257) % 8 } else { 3 })
            &&& self.sprite_list_cursor == (d - 257) / 8
        })
    }

    /// The fields that no dot changes.
    pub open spec fn shape_ok(self) -> bool {
        &&& self.frame_buffer@.len() == SCREEN_SIZE
        &&& self.palette.colors().len() == 64
        &&& self.oamdata@.len() == 256
        &&& self.oamaddr < 256
        &&& forall|i: int| 0 <= i < 32 ==> self.palette_ram[i] < 64
        &&& self.fine_x < 8
    }

    /// Tests the invariant.
    pub fn is_wf(&self) -> (r: bool)
        ensures
            r == self.wf(),
    {
        if self.frame_buffer.len() != SCREEN_SIZE || self.palette.0.len() != 64 || self.oamdata.len() != 256
            || self.oamaddr >= 256 || self.fine_x >= 8 {
            return false;
        }
        let mut i: usize = 0;
        while i < 32
            invariant
                i <= 32,
                forall|j: int| 0 <= j < i ==> self.palette_ram[j] < 64,
            decreases 32 - i,
        {
            if self.palette_ram[i] >= 64 {
                return false;
            }
            i = i + 1;
        }
        if self.n_dot > 340 || self.n_scanline > 261 || self.tile_index_latch >= 256 {
            return false;
        }
        let s = self.n_scanline;
        let d = self.n_dot;
        let c = self.frame_buffer_cursor;
        let fb_ok = if s < 240 {
            c == s * 256 + (if d == 0 { 0 } else if d <= 257 { d - 1 } else { 256 })
        } else if s == 240 || (s == 241 && d <= 1) {
            c == SCREEN_SIZE
        } else {
            c == 0
        };
        if !fb_ok {
            return false;
        }
        let sc = self.secondary_oam_cursor;
        let n = self.sprite_nums_on_next_scanline;
        if sc > 32 || self.sprite_list_cursor > 8 || n > 8 || self.primary_oam_cursor > 259 {
            return false;
        }
        let idle = match self.sprite_evaluation_state {
            SpriteEvaluationState::Idle => true,
            _ => false,
        };
        if !idle && self.primary_oam_cursor > 256 {
            return false;
        }
        let eval_ok = match self.sprite_evaluation_state {
            SpriteEvaluationState::Search => sc == 4 * n,
            SpriteEvaluationState::Copy => n < 8 && 4 * n < sc && sc < 4 * n + 4,
            SpriteEvaluationState::Idle => true,
        };
        let rendering_line = s < 240 || s == 261;
        if 1 <= d && d <= 65 && sc != (if s < 240 { (d - 1) % 32 } else { 0 }) {
            return false;
        }
        if d >= 1 && 240 <= s && s <= 260 && sc != 0 {
            return false;
        }
        if 66 <= d && d <= 257 && rendering_line && !eval_ok {
            return false;
        }
        if 258 <= d && d <= 320 && rendering_line {
            let j = (d - 257) % 8;
            if sc != 4 * ((d - 257) / 8) + (if j < 3 { j } else { 3 }) || self.sprite_list_cursor != (d - 257) / 8 {
                return false;
            }
        }
        true
    }

    pub open spec fn wf(self) -> bool {
        &&& self.shape_ok()
        &&& self.n_dot <= 340
        &&& self.n_scanline <= 261
        &&& self.tile_index_latch < 256
        &&& self.fb_ok_at(self.n_scanline as int, self.n_dot as int)
        &&& self.oam_ok_at(self.n_scanline as int, self.n_dot as int)
    }

    /// The byte a PPU read of `addr` gives: the cartridge below $3F00 (0 where it has
    /// nothing), palette memory above.
    pub open spec fn load_value<M: Mapper>(self, m: M, addr: u16) -> u8 {
        if addr < 0x3F00 {
            match vram_read(m, addr) {
                Some(v) => v,
                None => 0,
            }
        } else {
            self.palette_ram[addr as int % 32]
        }
    }

    /// Whether a PPU read of `addr` reaches cartridge memory that is not there.
    pub open spec fn load_faults<M: Mapper>(m: M, addr: u16) -> bool {
        addr < 0x3F00 && vram_read(m, addr).is_none()
    }

    /// The state after a read of `addr`.
    pub open spec fn loaded<M: Mapper>(self, m: M, addr: u16) -> Self {
        State { vram_fault: self.vram_fault || Self::load_faults(m, addr), ..self }
    }

    /// Palette memory after a write of `value` at palette index `i`: the value is cut to
    /// six bits, and the backdrop entries (multiples of 4) are mirrored between the
    /// background and sprite halves.
    pub open spec fn palette_written(p: [u8; 32], i: int, value: u8) -> Seq<u8> {
        let v = value % 64;
        let once = p@.update(i, v);
        if i % 4 == 0 {
            once.update(if i >= 16 { i - 16 } else { i + 16 }, v)
        } else {
            once
        }
    }

    pub fn new(palette_bytes: &[u8]) -> (s: Self)
        requires
            palette_bytes@.len() == 192,
        ensures
            s.wf(),
            s.palette.colors() == palette_from_bytes(palette_bytes@),
            s.n_scanline == 261,
            s.n_dot == 0,
            s.pctrl.0 == 0,
            s.pmask.0 == 0,
            s.pstatus.0 == 0,
            s.oamaddr == 0,
            s.oamdata@ == Seq::new(256, |i: int| 0u8),
            s.palette_ram@ == Seq::new(32, |i: int| 0u8),
            s.current_addr.0 == 0,
            s.temporary_addr.0 == 0,
            !s.write_toggle,
            s.fine_x == 0,
            !s.is_odd_frame,
            !s.vram_fault,
            s.frame_buffer@ == Seq::new(SCREEN_SIZE as nat, |i: int| RgbColor { r: 0, g: 0, b: 0 }),
    {
        let mut frame_buffer: Vec<RgbColor> = Vec::new();
        let mut i: usize = 0;
        while i < SCREEN_SIZE
            invariant
                i <= SCREEN_SIZE,
                frame_buffer@.len() == i,
                forall|j: int| 0 <= j < i ==> frame_buffer@[j] == (RgbColor { r: 0, g: 0, b: 0 }),
            decreases SCREEN_SIZE - i,
        {
            frame_buffer.push(RgbColor::default());
            i = i + 1;
        }
        let mut oamdata: Vec<u8> = Vec::new();
        let mut i: usize = 0;
        while i < 256
            invariant
                i <= 256,
                oamdata@.len() == i,
                forall|j: int| 0 <= j < i ==> oamdata@[j] == 0u8,
            decreases 256 - i,
        {
            oamdata.push(0);
            i = i + 1;
        }
        let s = State {
            frame_buffer,
            frame_buffer_cursor: 0,
            palette: Palette::new(palette_bytes),
            n_dot: 0,
            n_scanline: 261,
            is_odd_frame: false,
            pctrl: PCtrl::new(0),
            pmask: PMask::new(0),
            pstatus: PStatus::new(0),
            oamaddr: 0,
            oamdata,
            primary_oam_cursor: 0,
            primary_oam_latch: 0,
            secondary_oam: [0u8; 32],
            secondary_oam_cursor: 0,
            sprite_nums_on_next_scanline: 0,
            sprite_evaluation_state: SpriteEvaluationState::Idle,
            sprite_list: [Sprite::new(); 8],
            sprite_list_cursor: 0,
            sprite_0_on_next_scanline: false,
            sprite_0_on_current_scanline: false,
            sprite_y_latch: 0,
            sprite_tile_addr_latch: 0,
            sprite_attribute_latch: 0,
            palette_ram: [0u8; 32],
            current_addr: PpuAddr::new(),
            temporary_addr: PpuAddr::new(),
            write_toggle: false,
            fine_x: 0,
            address_latch: 0,
            tile_index_latch: 0,
            tile_lo_latch: 0,
            tile_hi_latch: 0,
            attribute_latch: 0,
            ppudata_latch: 0,
            background_shift_lo: 0,
            background_shift_hi: 0,
            attribute_shift_lo: 0,
            attribute_shift_hi: 0,
            nmi_already_triggered: false,
            nmi_ready_to_trigger: false,
            skip_one_tick: false,
            vblank_suppress_flag: false,
            vram_fault: false,
        };
        assert(s.oamdata@ == Seq::new(256, |i: int| 0u8));
        assert(s.frame_buffer@ == Seq::new(SCREEN_SIZE as nat, |i: int| RgbColor { r: 0, g: 0, b: 0 }));
        assert(s.palette_ram@ == Seq::new(32, |i: int| 0u8));
        s
    }

    /// Reads the PPU bus.
    fn load<M: Mapper>(&mut self, cart: &mut M, address: u16) -> (r: u8)
        requires
            old(cart).wf(),
        ensures
            *final(cart) == *old(cart),
            r == old(self).load_value(*old(cart), address),
            *final(self) == old(self).loaded(*old(cart), address),
            final(self).vram_fault ==> old(self).vram_fault || vram_broken(*old(cart)),
    {
        if address < 0x3f00 {
            let ghost m0 = *cart;
            match vaccess(cart, address, AccessMode::Read) {
                Some(v) => v,
                None => {
                    assert(!vram_reachable(m0, address));
                    self.vram_fault = true;
                    0
                },
            }
        } else {
            let index: usize = (address % 32) as usize;
            self.palette_ram[index]
        }
    }

    /// Writes the PPU bus: the cartridge below $3F00, palette memory above.
    fn store<M: Mapper>(&mut self, cart: &mut M, address: u16, value: u8)
        requires
            old(cart).wf(),
        ensures
            final(cart).wf(),
            address < 0x3F00 ==> {
                &&& *final(self) == (State { vram_fault: old(self).vram_fault || !vram_writable(*old(cart), address), ..*old(self) })
                &&& !vram_writable(*old(cart), address) ==> *final(cart) == *old(cart)
                &&& vram_writable(*old(cart), address) && vram_stores(*old(cart), address)
                    ==> vram_read(*final(cart), address) == Some(value)
            },
            address >= 0x3F00 ==> {
                &&& *final(cart) == *old(cart)
                &&& final(self).palette_ram@ == Self::palette_written(old(self).palette_ram, address as int % 32, value)
                &&& *final(self) == (State { palette_ram: final(self).palette_ram, ..*old(self) })
            },
            final(self).vram_fault ==> old(self).vram_fault || vram_broken(*old(cart)),
    {
        if address < 0x3f00 {
            let ghost m0 = *cart;
            match vaccess(cart, address, AccessMode::Write(value)) {
                Some(_) => {},
                None => {
                    assert(!vram_reachable(m0, address));
                    self.vram_fault = true;
                },
            }
        } else {
            let mut index: usize = (address % 32) as usize;
            let v: u8 = value % 64;
            self.palette_ram[index] = v;
            if index % 4 == 0 {
                if index >= 16 {
                    index = index - 16;
                } else {
                    index = index + 16;
                }
            }
            self.palette_ram[index] = v;
            assert(self.palette_ram@ == Self::palette_written(old(self).palette_ram, address as int % 32, value));
        }
    }
}

impl State {
    /// The frame: 256x240 pixels, row by row.
    pub fn get_framebuffer(&self) -> (r: &Vec<RgbColor>)
        ensures
            r@ == self.frame_buffer@,
    {
        &self.frame_buffer
    }

    /// The state after a PPUCTRL write.
    pub open spec fn ppuctrl_written(self, value: u8) -> Self {
        State {
            pctrl: PCtrl(value),
            temporary_addr: PpuAddr(addr_of(self.temporary_addr.top(), self.temporary_addr.fine_y(),
                (value % 4) as int, self.temporary_addr.coarse_y(), self.temporary_addr.coarse_x()) as u16),
            ..self
        }
    }

    /// PPUCTRL ($2000) write: the control bits, and the nametable bits of the
    /// temporary address.
    pub fn write_ppuctrl(&mut self, value: u8)
        ensures
            *final(self) == old(self).ppuctrl_written(value),
    {
        self.pctrl.0 = value;
        let nn = self.pctrl.get_nn();
        self.temporary_addr.set_nn(nn);
    }

    /// PPUMASK ($2001) write.
    pub fn write_ppumask(&mut self, value: u8)
        ensures
            *final(self) == (State { pmask: PMask(value), ..*old(self) }),
    {
        self.pmask.0 = value;
    }

    /// PPUSTATUS ($2002) read: returns the status and clears the vertical blank flag,
    /// the pending interrupt and the write toggle; a vertical blank that would start on
    /// this dot is suppressed.
    pub fn read_ppustatus(&mut self) -> (r: u8)
        ensures
            r == old(self).pstatus.0,
            *final(self) == (State {
                vblank_suppress_flag: true,
                pstatus: PStatus(with_bit(old(self).pstatus.0, 128, false)),
                nmi_ready_to_trigger: false,
                write_toggle: false,
                ..*old(self)
            }),
    {
        self.vblank_suppress_flag = true;
        let value = self.pstatus.0;
        self.pstatus.set_vblank_occured(false);
        self.nmi_ready_to_trigger = false;
        self.write_toggle = false;
        value
    }

    /// OAMADDR ($2003) write.
    pub fn write_oamaddr(&mut self, value: u8)
        ensures
            *final(self) == (State { oamaddr: value as usize, ..*old(self) }),
    {
        self.oamaddr = value as usize;
    }

    /// OAMDATA ($2004) read: the byte at OAMADDR.
    pub fn read_oamdata(&self) -> (r: u8)
        requires
            self.shape_ok(),
        ensures
            r == self.oamdata@[self.oamaddr as int],
    {
        self.oamdata[self.oamaddr]
    }

    /// The state after an OAMDATA write that left object memory as `oamdata`.
    pub open spec fn oamdata_written(self, oamdata: Vec<u8>) -> Self {
        State { oamdata, oamaddr: ((self.oamaddr + 1) % 256) as usize, ..self }
    }

    /// OAMDATA ($2004) write: stores the byte at OAMADDR and moves OAMADDR on,
    /// wrapping at 256.
    pub fn write_oamdata(&mut self, value: u8)
        requires
            old(self).shape_ok(),
        ensures
            final(self).oamdata@ == old(self).oamdata@.update(old(self).oamaddr as int, value),
            *final(self) == old(self).oamdata_written(final(self).oamdata),
    {
        let index = self.oamaddr;
        if !(self.n_scanline < 240 && self.n_scanline == 261) {
            self.oamdata.set(index, value);
        }
        self.oamaddr = (index + 1) % 256;
    }

    /// The state after a PPUSCROLL write.
    pub open spec fn ppuscroll_written(self, value: u8) -> Self {
        if !self.write_toggle {
            State {
                fine_x: value % 8,
                temporary_addr: PpuAddr(addr_of(0, self.temporary_addr.fine_y(), self.temporary_addr.nametable(),
                    self.temporary_addr.coarse_y(), (value / 8) as int) as u16),
                write_toggle: true,
                ..self
            }
        } else {
            State {
                temporary_addr: PpuAddr(addr_of(0, (value % 8) as int, self.temporary_addr.nametable(),
                    (value / 8) as int, self.temporary_addr.coarse_x()) as u16),
                write_toggle: false,
                ..self
            }
        }
    }

    /// PPUSCROLL ($2005) write: first the X scroll (coarse and fine), then the Y scroll.
    pub fn write_ppuscroll(&mut self, value: u8)
        ensures
            *final(self) == old(self).ppuscroll_written(value),
    {
        let t = self.temporary_addr;
        proof { lemma_addr_parts(t.0); }
        if !self.write_toggle {
            self.fine_x = value % 8;
            proof { lemma_addr_of_parts(0, t.fine_y(), t.nametable(), t.coarse_y(), (value / 8) as int); }
            self.temporary_addr.0 = t.get_fine_y() * 4096 + t.get_nn() * 1024 + t.get_corase_y() * 32 + (value / 8) as u16;
            self.write_toggle = true;
        } else {
            proof { lemma_addr_of_parts(0, (value % 8) as int, t.nametable(), (value / 8) as int, t.coarse_x()); }
            self.temporary_addr.0 = ((value % 8) as u16) * 4096 + t.get_nn() * 1024 + ((value / 8) as u16) * 32 + t.get_corase_x();
            self.write_toggle = false;
        }
    }

    /// The state after a PPUADDR write.
    pub open spec fn ppuaddr_written(self, value: u8) -> Self {
        if !self.write_toggle {
            State {
                temporary_addr: PpuAddr(((value % 64) * 256 + self.temporary_addr.0 % 256) as u16),
                write_toggle: true,
                ..self
            }
        } else {
            State {
                temporary_addr: PpuAddr(((self.temporary_addr.0 / 256) * 256 + value) as u16),
                current_addr: PpuAddr(((self.temporary_addr.0 / 256) * 256 + value) as u16),
                write_toggle: false,
                ..self
            }
        }
    }

    /// PPUADDR ($2006) write: first the high six bits, then the low byte, which also
    /// moves the temporary address into the current one.
    pub fn write_ppuaddr(&mut self, value: u8)
        ensures
            *final(self) == old(self).ppuaddr_written(value),
    {
        if !self.write_toggle {
            self.temporary_addr.set_high_byte(value);
            self.write_toggle = true;
        } else {
            self.temporary_addr.set_low_byte(value);
            self.current_addr.0 = self.temporary_addr.0;
            self.write_toggle = false;
        }
    }

    /// The current address after a PPUDATA access.
    pub open spec fn advanced_addr(self) -> u16 {
        ((self.current_addr.0 + if self.pctrl.0 / 4 % 2 == 1 { 32int } else { 1int }) % 0x8000) as u16
    }

    fn increase_current_address(&mut self)
        ensures
            *final(self) == (State { current_addr: PpuAddr(old(self).advanced_addr()), ..*old(self) }),
    {
        let inc = self.pctrl.vram_addr_increment();
        let value: usize = (self.current_addr.0 as usize + inc) % 0x8000;
        self.current_addr.0 = value as u16;
    }

    /// What a PPUDATA read returns: below $3F00 the buffered byte of the previous read;
    /// from palette memory the byte itself, cut to bits 4-5 in greyscale mode.
    pub open spec fn ppudata_value<M: Mapper>(self, m: M) -> u8 {
        let addr = (self.current_addr.0 % 0x4000) as u16;
        if addr < 0x3F00 {
            self.ppudata_latch
        } else {
            let v = self.load_value(m, addr);
            if self.pmask.0 % 2 == 1 { ((v / 16 % 4) * 16) as u8 } else { v }
        }
    }

    /// The state after a PPUDATA read: the read buffer takes the byte at the address
    /// (below $3F00) or the nametable byte under the palette entry, and the address moves on.
    pub open spec fn ppudata_read<M: Mapper>(self, m: M) -> Self {
        let addr = (self.current_addr.0 % 0x4000) as u16;
        if addr < 0x3F00 {
            State {
                ppudata_latch: self.load_value(m, addr),
                current_addr: PpuAddr(self.advanced_addr()),
                ..self.loaded(m, addr)
            }
        } else {
            let under = (addr - 0x1000) as u16;
            State {
                ppudata_latch: self.load_value(m, under),
                current_addr: PpuAddr(self.advanced_addr()),
                ..self.loaded(m, under)
            }
        }
    }

    /// PPUDATA ($2007) read.
    pub fn read_ppudata<M: Mapper>(&mut self, cart: &mut M) -> (r: u8)
        requires
            old(cart).wf(),
        ensures
            *final(cart) == *old(cart),
            r == old(self).ppudata_value(*old(cart)),
            *final(self) == old(self).ppudata_read(*old(cart)),
            final(self).vram_fault ==> old(self).vram_fault || vram_broken(*old(cart)),
    {
        let addr: u16 = self.current_addr.0 % 0x4000;
        let mut value = self.load(cart, addr);
        self.increase_current_address();
        if addr < 0x3f00 {
            let old_latch = self.ppudata_latch;
            self.ppudata_latch = value;
            old_latch
        } else {
            self.ppudata_latch = self.load(cart, addr - 0x1000);
            if self.pmask.greyscale_mode() {
                proof { lemma_u8_bits(value); }
                value = value & 0b11_0000;
            }
            value
        }
    }

    /// A PPUDATA write of `value`, from this state and cartridge `m` to `f` and `fm`:
    /// below $3F00 the cartridge takes the byte (a write it cannot serve is a fault and
    /// leaves it as it was); above, palette memory does. The address moves on.
    pub open spec fn ppudata_stored<M: Mapper>(self, m: M, value: u8, f: Self, fm: M) -> bool {
        let addr = (self.current_addr.0 % 0x4000) as u16;
        &&& addr < 0x3F00 ==> {
            &&& f == (State {
                vram_fault: self.vram_fault || !vram_writable(m, addr),
                current_addr: PpuAddr(self.advanced_addr()),
                ..self
            })
            &&& !vram_writable(m, addr) ==> fm == m
            &&& vram_writable(m, addr) && vram_stores(m, addr) ==> vram_read(fm, addr) == Some(value)
        }
        &&& addr >= 0x3F00 ==> {
            &&& fm == m
            &&& f.palette_ram@ == Self::palette_written(self.palette_ram, addr as int % 32, value)
            &&& f == (State { palette_ram: f.palette_ram, current_addr: PpuAddr(self.advanced_addr()), ..self })
        }
    }

    /// PPUDATA ($2007) write: stores the byte at the current address, which moves on.
    pub fn write_ppudata<M: Mapper>(&mut self, cart: &mut M, value: u8)
        requires
            old(cart).wf(),
        ensures
            final(cart).wf(),
            old(self).ppudata_stored(*old(cart), value, *final(self), *final(cart)),
            final(self).vram_fault ==> old(self).vram_fault || vram_broken(*old(cart)),
    {
        let addr: u16 = self.current_addr.0 % 0x4000;
        self.store(cart, addr, value);
        self.increase_current_address();
    }
}

impl State {
    /// The fields that the rendering of one dot never changes.
    pub open spec fn registers_same(self, other: Self) -> bool {
        &&& self.palette == other.palette
        &&& self.pctrl == other.pctrl
        &&& self.pmask == other.pmask
        &&& self.oamaddr == other.oamaddr
        &&& self.oamdata == other.oamdata
        &&& self.palette_ram == other.palette_ram
        &&& self.temporary_addr == other.temporary_addr
        &&& self.write_toggle == other.write_toggle
        &&& self.fine_x == other.fine_x
        &&& self.ppudata_latch == other.ppudata_latch
    }

    /// The vertical blank flag (bit 7 of PPUSTATUS).
    pub open spec fn vblank(self) -> bool {
        self.pstatus.0 >= 128
    }

    /// Whether the latched Y coordinate puts the sprite on the scanline being evaluated
    /// (a Y of 255 never does).
    pub open spec fn sprite_hit(self) -> bool {
        let top = self.primary_oam_latch as int;
        let len = if self.pctrl.0 / 32 % 2 == 1 { 16int } else { 8int };
        top <= self.n_scanline < top + len && top != 255
    }

    /// The status after a sprite hit with eight sprites already found: the overflow flag
    /// is set while rendering is enabled.
    pub open spec fn overflow_flagged(self) -> PStatus {
        if self.rendering() { PStatus(with_bit(self.pstatus.0, 32, true)) } else { self.pstatus }
    }

    /// One search step of sprite evaluation, from `self` to `f`: the latched Y goes to the
    /// free slot of secondary object memory (while fewer than eight sprites are found);
    /// on a hit the copy of the sprite starts, or with eight found the overflow flag is
    /// set and evaluation stops; on a miss the cursor skips the sprite's other three
    /// bytes, and evaluation stops at the end of object memory.
    #[verifier::opaque]
    pub open spec fn searched(self, f: Self) -> bool {
        let o = self;
        let n = self.sprite_nums_on_next_scanline;
        &&& f.secondary_oam@ == if n < 8 {
                o.secondary_oam@.update(o.secondary_oam_cursor as int, o.primary_oam_latch)
            } else {
                o.secondary_oam@
            }
        &&& if o.sprite_hit() {
            &&& f.primary_oam_cursor == o.primary_oam_cursor
            &&& f.sprite_0_on_next_scanline == if o.primary_oam_cursor == 1 {
                o.secondary_oam_cursor == 0
            } else {
                o.sprite_0_on_next_scanline
            }
            &&& f.sprite_evaluation_state == if n >= 8 { SpriteEvaluationState::Idle } else { SpriteEvaluationState::Copy }
            &&& f.secondary_oam_cursor == if n >= 8 { o.secondary_oam_cursor as int } else { o.secondary_oam_cursor + 1 }
            &&& f.pstatus == if n >= 8 { o.overflow_flagged() } else { o.pstatus }
        } else {
            &&& f.primary_oam_cursor == o.primary_oam_cursor + 3
            &&& f.sprite_0_on_next_scanline == o.sprite_0_on_next_scanline
            &&& f.sprite_evaluation_state == if o.primary_oam_cursor + 3 >= 256 { SpriteEvaluationState::Idle }
                else { SpriteEvaluationState::Search }
            &&& f.secondary_oam_cursor == o.secondary_oam_cursor
            &&& f.pstatus == o.pstatus
        }
    }

    /// One copy step of sprite evaluation: the latched byte goes to secondary object
    /// memory; after the fourth byte of the sprite the search goes on.
    #[verifier::opaque]
    pub open spec fn copied(self, f: Self) -> bool {
        let o = self;
        &&& f.secondary_oam@ == o.secondary_oam@.update(o.secondary_oam_cursor as int, o.primary_oam_latch)
        &&& f.secondary_oam_cursor == o.secondary_oam_cursor + 1
        &&& (o.secondary_oam_cursor + 1) % 4 == 0 ==> f.sprite_nums_on_next_scanline == o.sprite_nums_on_next_scanline + 1
            && f.sprite_evaluation_state == SpriteEvaluationState::Search
        &&& (o.secondary_oam_cursor + 1) % 4 != 0 ==> f.sprite_nums_on_next_scanline == o.sprite_nums_on_next_scanline
            && f.sprite_evaluation_state == SpriteEvaluationState::Copy
    }

    fn shift_sprite_registers(&mut self)
        ensures
            *final(self) == (State { sprite_list: final(self).sprite_list, ..*old(self) }),
            forall|k: int| 0 <= k < 8 ==> final(self).sprite_list[k] == #[trigger] old(self).sprite_list[k].shifted(),
    {
        let mut i: usize = 0;
        while i < 8
            invariant
                i <= 8,
                *self == (State { sprite_list: self.sprite_list, ..*old(self) }),
                forall|k: int| 0 <= k < i ==> self.sprite_list[k] == #[trigger] old(self).sprite_list[k].shifted(),
                forall|k: int| i <= k < 8 ==> self.sprite_list[k] == old(self).sprite_list[k],
            decreases 8 - i,
        {
            let mut sprite = self.sprite_list[i];
            if sprite.countdown == 0 {
                sprite.hi_tile_shift = sprite.hi_tile_shift << 1;
                sprite.lo_tile_shift = sprite.lo_tile_shift << 1;
            } else if sprite.countdown != 255 {
                sprite.countdown = sprite.countdown - 1;
            }
            self.sprite_list[i] = sprite;
            i = i + 1;
        }
    }

    fn shift_background_registers(&mut self)
        ensures
            *final(self) == (State {
                background_shift_lo: old(self).background_shift_lo << 1u16,
                background_shift_hi: old(self).background_shift_hi << 1u16,
                attribute_shift_lo: old(self).attribute_shift_lo << 1u16,
                attribute_shift_hi: old(self).attribute_shift_hi << 1u16,
                ..*old(self)
            }),
    {
        self.background_shift_lo = self.background_shift_lo << 1;
        self.background_shift_hi = self.background_shift_hi << 1;
        self.attribute_shift_lo = self.attribute_shift_lo << 1;
        self.attribute_shift_hi = self.attribute_shift_hi << 1;
    }

    /// Fills secondary object memory with $FF, one byte per dot (not on the pre-render line).
    fn tick_clear_secondary_oam(&mut self)
        requires
            old(self).n_scanline != 261 ==> old(self).secondary_oam_cursor < 32,
        ensures
            old(self).n_scanline == 261 ==> *final(self) == *old(self),
            old(self).n_scanline != 261 ==> *final(self) == (State {
                secondary_oam: final(self).secondary_oam,
                secondary_oam_cursor: ((old(self).secondary_oam_cursor + 1) % 32) as usize,
                ..*old(self)
            }),
    {
        if self.n_scanline == 261 {
            return;
        }
        let index = self.secondary_oam_cursor;
        self.secondary_oam[index] = 0xff;
        self.secondary_oam_cursor = (index + 1) % 32;
    }

    /// One dot of sprite evaluation: odd dots read object memory, even dots test the
    /// sprite against the next scanline and copy it into secondary object memory.
    #[verifier::rlimit(40)]
    fn tick_sprite_evaluation(&mut self)
        requires
            old(self).shape_ok(),
            old(self).eval_ok(),
            old(self).secondary_oam_cursor <= 32,
            old(self).sprite_nums_on_next_scanline <= 8,
            old(self).primary_oam_cursor <= 259,
            old(self).sprite_evaluation_state != SpriteEvaluationState::Idle ==> old(self).primary_oam_cursor <= 256,
        ensures
            final(self).eval_ok(),
            final(self).secondary_oam_cursor <= 32,
            final(self).sprite_nums_on_next_scanline <= 8,
            final(self).primary_oam_cursor <= 259,
            final(self).sprite_evaluation_state != SpriteEvaluationState::Idle ==> final(self).primary_oam_cursor <= 256,
            final(self).vblank() == old(self).vblank(),
            *final(self) == (State {
                primary_oam_latch: final(self).primary_oam_latch,
                primary_oam_cursor: final(self).primary_oam_cursor,
                secondary_oam: final(self).secondary_oam,
                secondary_oam_cursor: final(self).secondary_oam_cursor,
                sprite_nums_on_next_scanline: final(self).sprite_nums_on_next_scanline,
                sprite_evaluation_state: final(self).sprite_evaluation_state,
                sprite_0_on_next_scanline: final(self).sprite_0_on_next_scanline,
                pstatus: final(self).pstatus,
                ..*old(self)
            }),
            old(self).n_dot % 2 == 1 && old(self).primary_oam_cursor < 256 ==> *final(self) == (State {
                primary_oam_latch: old(self).oamdata@[old(self).primary_oam_cursor as int],
                primary_oam_cursor: (old(self).primary_oam_cursor + 1) as usize,
                ..*old(self)
            }),
            !(old(self).n_dot % 2 == 1 && old(self).primary_oam_cursor < 256) ==> match old(self).sprite_evaluation_state {
                SpriteEvaluationState::Search => old(self).searched(*final(self)),
                SpriteEvaluationState::Copy => old(self).copied(*final(self)),
                SpriteEvaluationState::Idle => *final(self) == *old(self),
            },
    {
        if self.n_dot % 2 == 1 && self.primary_oam_cursor < 256 {
            let index = self.primary_oam_cursor;
            self.primary_oam_latch = self.oamdata[index];
            self.primary_oam_cursor = index + 1;
            return;
        }
        match self.sprite_evaluation_state {
            SpriteEvaluationState::Search => self.evaluate_search(),
            SpriteEvaluationState::Copy => self.evaluate_copy(),
            SpriteEvaluationState::Idle => {},
        }
    }

    /// Tests the latched Y coordinate against the next scanline: a hit starts a copy into
    /// the next free slot, or, with eight sprites found, sets the overflow flag.
    fn evaluate_search(&mut self)
        requires
            old(self).sprite_evaluation_state == SpriteEvaluationState::Search,
            old(self).secondary_oam_cursor == 4 * old(self).sprite_nums_on_next_scanline,
            old(self).sprite_nums_on_next_scanline <= 8,
            old(self).primary_oam_cursor <= 256,
        ensures
            final(self).eval_ok(),
            final(self).secondary_oam_cursor <= 32,
            final(self).sprite_nums_on_next_scanline <= 8,
            final(self).primary_oam_cursor <= 259,
            final(self).sprite_evaluation_state != SpriteEvaluationState::Idle ==> final(self).primary_oam_cursor <= 256,
            final(self).vblank() == old(self).vblank(),
            *final(self) == (State {
                primary_oam_cursor: final(self).primary_oam_cursor,
                secondary_oam: final(self).secondary_oam,
                secondary_oam_cursor: final(self).secondary_oam_cursor,
                sprite_evaluation_state: final(self).sprite_evaluation_state,
                sprite_0_on_next_scanline: final(self).sprite_0_on_next_scanline,
                pstatus: final(self).pstatus,
                ..*old(self)
            }),
            old(self).searched(*final(self)),
    {
        reveal(State::searched);
        let value = self.primary_oam_latch;
        let index = self.secondary_oam_cursor;
        let sprite_top: usize = value as usize;
        let sprite_bottom: usize = sprite_top + self.pctrl.sprite_length();
        let scanline_y = self.n_scanline;
        let scanline_hit_sprite = sprite_top <= scanline_y && scanline_y < sprite_bottom && sprite_top != 255;
        if scanline_hit_sprite {
            self.search_hit();
        } else {
            self.primary_oam_cursor = self.primary_oam_cursor + 3;
            if self.primary_oam_cursor >= 256 {
                self.sprite_evaluation_state = SpriteEvaluationState::Idle;
            }
        }
        if self.sprite_nums_on_next_scanline < 8 {
            self.secondary_oam[index] = value;
        }
    }

    /// The latched sprite is on the next scanline: it is copied if a slot is free;
    /// with eight sprites found the overflow flag is set (while rendering) instead.
    fn search_hit(&mut self)
        requires
            old(self).sprite_evaluation_state == SpriteEvaluationState::Search,
            old(self).secondary_oam_cursor == 4 * old(self).sprite_nums_on_next_scanline,
            old(self).sprite_nums_on_next_scanline <= 8,
        ensures
            final(self).sprite_nums_on_next_scanline == old(self).sprite_nums_on_next_scanline,
            final(self).primary_oam_cursor == old(self).primary_oam_cursor,
            old(self).sprite_nums_on_next_scanline >= 8 ==> final(self).sprite_evaluation_state == SpriteEvaluationState::Idle
                && final(self).secondary_oam_cursor == old(self).secondary_oam_cursor,
            old(self).sprite_nums_on_next_scanline < 8 ==> final(self).sprite_evaluation_state == SpriteEvaluationState::Copy
                && final(self).secondary_oam_cursor == old(self).secondary_oam_cursor + 1,
            final(self).vblank() == old(self).vblank(),
            *final(self) == (State {
                secondary_oam_cursor: final(self).secondary_oam_cursor,
                sprite_evaluation_state: final(self).sprite_evaluation_state,
                sprite_0_on_next_scanline: final(self).sprite_0_on_next_scanline,
                pstatus: final(self).pstatus,
                ..*old(self)
            }),
            final(self).sprite_0_on_next_scanline == if old(self).primary_oam_cursor == 1 {
                old(self).secondary_oam_cursor == 0
            } else {
                old(self).sprite_0_on_next_scanline
            },
            final(self).pstatus == if old(self).sprite_nums_on_next_scanline >= 8 { old(self).overflow_flagged() }
                else { old(self).pstatus },
    {
        if self.primary_oam_cursor == 1 {
            self.sprite_0_on_next_scanline = self.secondary_oam_cursor == 0;
        }
        if self.sprite_nums_on_next_scanline >= 8 {
            if self.pmask.show_background() || self.pmask.show_sprites() {
                proof { lemma_with_bit_keeps_vblank(self.pstatus.0); }
                self.pstatus.set_sprite_overflow(true);
            }
            self.sprite_evaluation_state = SpriteEvaluationState::Idle;
        } else {
            self.secondary_oam_cursor = self.secondary_oam_cursor + 1;
            self.sprite_evaluation_state = SpriteEvaluationState::Copy;
        }
    }

    /// Copies one more byte of a sprite that was hit into secondary object memory.
    fn evaluate_copy(&mut self)
        requires
            old(self).sprite_evaluation_state == SpriteEvaluationState::Copy,
            old(self).eval_ok(),
            old(self).primary_oam_cursor <= 256,
        ensures
            final(self).eval_ok(),
            final(self).secondary_oam_cursor <= 32,
            final(self).sprite_nums_on_next_scanline <= 8,
            final(self).sprite_evaluation_state != SpriteEvaluationState::Idle,
            *final(self) == (State {
                secondary_oam: final(self).secondary_oam,
                secondary_oam_cursor: final(self).secondary_oam_cursor,
                sprite_nums_on_next_scanline: final(self).sprite_nums_on_next_scanline,
                sprite_evaluation_state: final(self).sprite_evaluation_state,
                ..*old(self)
            }),
            old(self).copied(*final(self)),
    {
        reveal(State::copied);
        let value = self.primary_oam_latch;
        let index = self.secondary_oam_cursor;
        self.secondary_oam[index] = value;
        self.secondary_oam_cursor = index + 1;
        if (index + 1) % 4 == 0 {
            self.sprite_nums_on_next_scanline = self.sprite_nums_on_next_scanline + 1;
            self.sprite_evaluation_state = SpriteEvaluationState::Search;
        }
    }

    fn sp_latch_y(&mut self)
        requires
            old(self).secondary_oam_cursor < 32,
        ensures
            *final(self) == (State {
                sprite_y_latch: old(self).secondary_oam[old(self).secondary_oam_cursor as int],
                secondary_oam_cursor: (old(self).secondary_oam_cursor + 1) as usize,
                ..*old(self)
            }),
    {
        let value = self.secondary_oam[self.secondary_oam_cursor];
        self.sprite_y_latch = value;
        self.secondary_oam_cursor = self.secondary_oam_cursor + 1;
    }

    fn sp_latch_tile_addr(&mut self)
        requires
            old(self).secondary_oam_cursor < 32,
        ensures
            *final(self) == (State {
                sprite_tile_addr_latch: old(self).secondary_oam[old(self).secondary_oam_cursor as int],
                secondary_oam_cursor: (old(self).secondary_oam_cursor + 1) as usize,
                ..*old(self)
            }),
    {
        let value = self.secondary_oam[self.secondary_oam_cursor];
        self.sprite_tile_addr_latch = value;
        self.secondary_oam_cursor = self.secondary_oam_cursor + 1;
    }

    fn sp_latch_attribute(&mut self)
        requires
            old(self).secondary_oam_cursor < 32,
            old(self).sprite_list_cursor < 8,
        ensures
            *final(self) == (State {
                sprite_attribute_latch: old(self).secondary_oam[old(self).secondary_oam_cursor as int],
                secondary_oam_cursor: (old(self).secondary_oam_cursor + 1) as usize,
                sprite_list: final(self).sprite_list,
                ..*old(self)
            }),
            ({
                let k = old(self).sprite_list_cursor as int;
                final(self).sprite_list@ == old(self).sprite_list@.update(k, Sprite {
                    attribute: old(self).secondary_oam[old(self).secondary_oam_cursor as int],
                    ..old(self).sprite_list@[k]
                })
            }),
    {
        let value = self.secondary_oam[self.secondary_oam_cursor];
        self.sprite_attribute_latch = value;
        self.secondary_oam_cursor = self.secondary_oam_cursor + 1;
        let sprite_index = self.sprite_list_cursor;
        let mut sprite = self.sprite_list[sprite_index];
        sprite.attribute = value;
        self.sprite_list[sprite_index] = sprite;
    }

    fn sp_set_position(&mut self)
        requires
            old(self).secondary_oam_cursor < 32,
            old(self).sprite_list_cursor < 8,
        ensures
            *final(self) == (State { sprite_list: final(self).sprite_list, ..*old(self) }),
            ({
                let k = old(self).sprite_list_cursor as int;
                let x = old(self).secondary_oam[old(self).secondary_oam_cursor as int];
                final(self).sprite_list@ == old(self).sprite_list@.update(k, Sprite {
                    x_pos: x,
                    y_pos: old(self).sprite_y_latch,
                    countdown: x as usize,
                    ..old(self).sprite_list@[k]
                })
            }),
    {
        let x = self.secondary_oam[self.secondary_oam_cursor];
        let y = self.sprite_y_latch;
        let sprite_index = self.sprite_list_cursor;
        let mut sprite = self.sprite_list[sprite_index];
        sprite.set_pos(x, y);
        self.sprite_list[sprite_index] = sprite;
    }

    /// The pattern address of the low plane of the latched sprite's row on this
    /// scanline. 8x16 sprites take their pattern table from bit 0 of the tile number and
    /// stack the even tile over the odd one; a vertical flip (attribute bit 7) reverses
    /// the rows, and for 8x16 sprites swaps the two tiles.
    #[verifier::opaque]
    pub open spec fn sprite_row_addr(self) -> int {
        let flip = self.sprite_attribute_latch >= 128;
        let tile = self.sprite_tile_addr_latch as int;
        if self.pctrl.0 / 32 % 2 == 1 {
            let table = if tile % 2 == 0 { 0int } else { 0x1000int };
            let top = tile - tile % 2;
            let sy = (self.n_scanline + 256 - self.sprite_y_latch) % 16;
            let upper = (sy < 8) != flip;
            let ty0 = if sy < 8 { sy } else { sy - 8 };
            let ty = if flip { 7 - ty0 } else { ty0 };
            table + (if upper { top } else { top + 1 }) * 16 + ty
        } else {
            let ty0 = (self.n_scanline + 256 - self.sprite_y_latch) % 8;
            let ty = if flip { 7 - ty0 } else { ty0 };
            (if self.pctrl.0 / 8 % 2 == 1 { 0x1000int } else { 0int }) + tile * 16 + ty
        }
    }

    /// A sprite pattern byte read from `a`, mirrored when the sprite is flipped
    /// horizontally (attribute bit 6).
    pub open spec fn sprite_pattern<M: Mapper>(self, m: M, a: u16) -> u8 {
        let v = self.load_value(m, a);
        if self.sprite_attribute_latch / 64 % 2 == 1 { reverse8(v) } else { v }
    }

    /// The pattern address of the low plane of the sprite row on this scanline.
    fn sprite_tile_lo_addr(&self) -> (r: u16)
        requires
            self.n_scanline <= 261,
        ensures
            r <= 0x1FF7,
            r == self.sprite_row_addr(),
    {
        reveal(State::sprite_row_addr);
        let flip_vertically = self.sprite_attribute_latch.is_b7_set();
        let tile = self.sprite_tile_addr_latch;
        if self.pctrl.is_two_tile_sprite() {
            let pattern_table_addr: u16 = if tile % 2 == 0 { 0x0000 } else { 0x1000 };
            let top_sprite_index: u8 = tile - tile % 2;
            let bottom_sprite_index: u8 = top_sprite_index + 1;
            let sprite_y: usize = (self.n_scanline + 256 - self.sprite_y_latch as usize) % 16;
            let mut is_upper_tile = sprite_y < 8;
            let tile_y: usize = if sprite_y < 8 { sprite_y } else { sprite_y - 8 };
            let tile_y: usize = if flip_vertically {
                is_upper_tile = !is_upper_tile;
                7 - tile_y
            } else {
                tile_y
            };
            let index: u8 = if is_upper_tile { top_sprite_index } else { bottom_sprite_index };
            pattern_table_addr + (index as u16) * 16 + tile_y as u16
        } else {
            let tile_y: usize = (self.n_scanline + 256 - self.sprite_y_latch as usize) % 8;
            let tile_y: usize = if flip_vertically { 7 - tile_y } else { tile_y };
            self.pctrl.pattern_table_addr_for_8x8_sprites() + (tile as u16) * 16 + tile_y as u16
        }
    }

    fn sprite_tile_hi_addr(&self) -> (r: u16)
        requires
            self.n_scanline <= 261,
        ensures
            r <= 0x1FFF,
            r == self.sprite_row_addr() + 8,
    {
        self.sprite_tile_lo_addr() + 8
    }

    fn sp_fetch_tile_lo_addr(&mut self)
        requires
            old(self).n_scanline <= 261,
        ensures
            *final(self) == (State { address_latch: final(self).address_latch, ..*old(self) }),
            final(self).address_latch == (old(self).address_latch / 256) * 256 + old(self).sprite_row_addr() % 256,
    {
        let lo = self.sprite_tile_lo_addr().fetch_lo();
        self.address_latch.set_lo(lo);
    }

    /// Reads a pattern byte for the sprite, mirrored when the sprite is flipped horizontally.
    fn sp_load_pattern<M: Mapper>(&mut self, cart: &mut M, hi: u8) -> (r: u8)
        requires
            old(cart).wf(),
        ensures
            *final(cart) == *old(cart),
            *final(self) == (State {
                address_latch: final(self).address_latch,
                vram_fault: final(self).vram_fault,
                ..*old(self)
            }),
            old(self).vram_fault ==> final(self).vram_fault,
            final(self).address_latch == hi * 256 + old(self).address_latch % 256,
            final(self).vram_fault == old(self).loaded(*old(cart), final(self).address_latch).vram_fault,
            r == old(self).sprite_pattern(*old(cart), final(self).address_latch),
            final(self).vram_fault ==> old(self).vram_fault || vram_broken(*old(cart)),
    {
        self.address_latch.set_hi(hi);
        let value = self.load(cart, self.address_latch);
        if self.sprite_attribute_latch.is_b6_set() {
            u8_reverse_bits(value)
        } else {
            value
        }
    }

    fn sp_set_lo_shift<M: Mapper>(&mut self, cart: &mut M)
        requires
            old(cart).wf(),
            old(self).n_scanline <= 261,
            old(self).sprite_list_cursor < 8,
        ensures
            *final(cart) == *old(cart),
            *final(self) == (State {
                address_latch: final(self).address_latch,
                vram_fault: final(self).vram_fault,
                sprite_list: final(self).sprite_list,
                ..*old(self)
            }),
            old(self).vram_fault ==> final(self).vram_fault,
            ({
                let a = ((old(self).sprite_row_addr() / 256) * 256 + old(self).address_latch % 256) as u16;
                let k = old(self).sprite_list_cursor as int;
                &&& final(self).address_latch == a
                &&& final(self).vram_fault == old(self).loaded(*old(cart), a).vram_fault
                &&& final(self).sprite_list@ == old(self).sprite_list@.update(k,
                    Sprite { lo_tile_shift: old(self).sprite_pattern(*old(cart), a), ..old(self).sprite_list@[k] })
            }),
            final(self).vram_fault ==> old(self).vram_fault || vram_broken(*old(cart)),
    {
        let hi = self.sprite_tile_lo_addr().fetch_hi();
        let value = self.sp_load_pattern(cart, hi);
        let sprite_index = self.sprite_list_cursor;
        let mut sprite = self.sprite_list[sprite_index];
        sprite.set_lo_tile_shift(value);
        self.sprite_list[sprite_index] = sprite;
    }

    fn sp_fetch_tile_hi_addr(&mut self)
        requires
            old(self).n_scanline <= 261,
        ensures
            *final(self) == (State { address_latch: final(self).address_latch, ..*old(self) }),
            final(self).address_latch == (old(self).address_latch / 256) * 256 + (old(self).sprite_row_addr() + 8) % 256,
    {
        let lo = self.sprite_tile_hi_addr().fetch_lo();
        self.address_latch.set_lo(lo);
    }

    fn sp_set_hi_shift<M: Mapper>(&mut self, cart: &mut M)
        requires
            old(cart).wf(),
            old(self).n_scanline <= 261,
            old(self).sprite_list_cursor < 8,
            old(self).secondary_oam_cursor < 32,
        ensures
            *final(cart) == *old(cart),
            *final(self) == (State {
                address_latch: final(self).address_latch,
                vram_fault: final(self).vram_fault,
                sprite_list: final(self).sprite_list,
                sprite_list_cursor: (old(self).sprite_list_cursor + 1) as usize,
                secondary_oam_cursor: (old(self).secondary_oam_cursor + 1) as usize,
                ..*old(self)
            }),
            old(self).vram_fault ==> final(self).vram_fault,
            ({
                let a = (((old(self).sprite_row_addr() + 8) / 256) * 256 + old(self).address_latch % 256) as u16;
                let k = old(self).sprite_list_cursor as int;
                &&& final(self).address_latch == a
                &&& final(self).vram_fault == old(self).loaded(*old(cart), a).vram_fault
                &&& final(self).sprite_list@ == old(self).sprite_list@.update(k,
                    Sprite { hi_tile_shift: old(self).sprite_pattern(*old(cart), a), ..old(self).sprite_list@[k] })
            }),
            final(self).vram_fault ==> old(self).vram_fault || vram_broken(*old(cart)),
    {
        let hi = self.sprite_tile_hi_addr().fetch_hi();
        let value = self.sp_load_pattern(cart, hi);
        let sprite_index = self.sprite_list_cursor;
        let mut sprite = self.sprite_list[sprite_index];
        sprite.set_hi_tile_shift(value);
        self.sprite_list[sprite_index] = sprite;
        self.sprite_list_cursor = sprite_index + 1;
        self.secondary_oam_cursor = self.secondary_oam_cursor + 1;
    }
}

/// Setting bit 5 or 6 leaves bit 7 alone.
proof fn lemma_with_bit_keeps_vblank(v: u8)
    ensures
        (with_bit(v, 32, true) >= 128) == (v >= 128),
        (with_bit(v, 64, true) >= 128) == (v >= 128),
{
    lemma_u8_bits(v);
}

/// The byte with its bits in reverse order.
pub open spec fn reverse8(x: u8) -> u8 {
    ((x & 0x01) << 7u8) | ((x & 0x02) << 5u8) | ((x & 0x04) << 3u8) | ((x & 0x08) << 1u8)
        | ((x & 0x10) >> 1u8) | ((x & 0x20) >> 3u8) | ((x & 0x40) >> 5u8) | ((x & 0x80) >> 7u8)
}

/// `u8::reverse_bits` from std: reverses the order of the bits.
#[verifier::external_body]
fn u8_reverse_bits(x: u8) -> (r: u8)
    ensures
        r == reverse8(x),
{
    x.reverse_bits()
}

impl PpuAddr {
    /// The address after coarse X moves one tile right (into the next nametable after 31).
    pub open spec fn x_incremented(self) -> PpuAddr {
        if self.coarse_x() == 31 {
            PpuAddr(addr_of(self.top(), self.fine_y(), flip_h(self.nametable()), self.coarse_y(), 0) as u16)
        } else {
            PpuAddr(addr_of(self.top(), self.fine_y(), self.nametable(), self.coarse_y(), self.coarse_x() + 1) as u16)
        }
    }

    /// The address after fine Y moves one row down: into the next tile row after 7, into
    /// the nametable below after row 29, and back to row 0 (same nametable) after 31.
    pub open spec fn y_incremented(self) -> PpuAddr {
        PpuAddr(addr_of(self.top(),
            if self.fine_y() < 7 { self.fine_y() + 1 } else { 0 },
            if self.fine_y() == 7 && self.coarse_y() == 29 { flip_v(self.nametable()) } else { self.nametable() },
            if self.fine_y() < 7 { self.coarse_y() }
            else if self.coarse_y() == 29 || self.coarse_y() == 31 { 0 }
            else { self.coarse_y() + 1 },
            self.coarse_x()) as u16)
    }

    /// The address with the horizontal position (coarse X, horizontal nametable bit) of `t`.
    pub open spec fn h_copied(self, t: PpuAddr) -> PpuAddr {
        PpuAddr(addr_of(self.top(), self.fine_y(), (self.nametable() / 2) * 2 + t.nametable() % 2, self.coarse_y(),
            t.coarse_x()) as u16)
    }

    /// The address with the vertical position (fine Y, coarse Y, vertical nametable bit) of `t`.
    pub open spec fn v_copied(self, t: PpuAddr) -> PpuAddr {
        PpuAddr(addr_of(self.top(), t.fine_y(), (t.nametable() / 2) * 2 + self.nametable() % 2, t.coarse_y(),
            self.coarse_x()) as u16)
    }
}

/// The two palette bits of an attribute byte that cover the tile at coarse position
/// (`cx`, `cy`): the byte holds four 2x2-tile quadrants.
pub open spec fn attribute_bits(b: u8, cx: int, cy: int) -> u8 {
    let b1 = if cy / 2 % 2 == 1 { b / 16 } else { b };
    let b2 = if cx / 2 % 2 == 1 { b1 / 4 } else { b1 };
    b2 % 4
}

impl State {
    /// The nametable address of the current tile latched.
    pub open spec fn tile_addr_latched(self) -> Self {
        State { address_latch: (0x2000 + self.current_addr.0 % 4096) as u16, ..self }
    }

    /// The tile number read from the latched address.
    pub open spec fn tile_index_latched<M: Mapper>(self, m: M) -> Self {
        State { tile_index_latch: self.load_value(m, self.address_latch) as u16, ..self.loaded(m, self.address_latch) }
    }

    /// The attribute address of the current tile latched.
    pub open spec fn attribute_addr_latched(self) -> Self {
        let a = self.current_addr;
        State { address_latch: (0x23C0 + a.nametable() * 1024 + (a.coarse_y() / 4) * 8 + a.coarse_x() / 4) as u16, ..self }
    }

    /// The palette bits of the current tile read from the latched attribute address.
    pub open spec fn attribute_latched<M: Mapper>(self, m: M) -> Self {
        State {
            attribute_latch: attribute_bits(self.load_value(m, self.address_latch), self.current_addr.coarse_x(),
                self.current_addr.coarse_y()),
            ..self.loaded(m, self.address_latch)
        }
    }

    /// The address of the low pattern plane of the current tile row (plus 8 for the high plane).
    pub open spec fn pattern_addr(self, plane: int) -> u16 {
        ((if self.pctrl.0 / 16 % 2 == 1 { 0x1000int } else { 0int }) + self.tile_index_latch * 16
            + self.current_addr.fine_y() + plane) as u16
    }

    pub open spec fn pattern_addr_latched(self, plane: int) -> Self {
        State { address_latch: self.pattern_addr(plane), ..self }
    }

    pub open spec fn tile_lo_latched<M: Mapper>(self, m: M) -> Self {
        State { tile_lo_latch: self.load_value(m, self.address_latch), ..self.loaded(m, self.address_latch) }
    }

    pub open spec fn tile_hi_latched<M: Mapper>(self, m: M) -> Self {
        State { tile_hi_latch: self.load_value(m, self.address_latch), ..self.loaded(m, self.address_latch) }
    }

    /// The scroll increments and copies, which only happen while rendering is enabled.
    pub open spec fn h_scrolled(self) -> Self {
        if self.rendering() { State { current_addr: self.current_addr.x_incremented(), ..self } } else { self }
    }

    pub open spec fn v_scrolled(self) -> Self {
        if self.rendering() { State { current_addr: self.current_addr.y_incremented(), ..self } } else { self }
    }

    pub open spec fn h_updated(self) -> Self {
        if self.rendering() { State { current_addr: self.current_addr.h_copied(self.temporary_addr), ..self } } else { self }
    }

    /// The latched tile loaded into the low bytes of the background shift registers.
    pub open spec fn reloaded(self) -> Self {
        State {
            background_shift_lo: ((self.background_shift_lo / 256) * 256 + self.tile_lo_latch) as u16,
            background_shift_hi: ((self.background_shift_hi / 256) * 256 + self.tile_hi_latch) as u16,
            attribute_shift_lo: ((self.attribute_shift_lo / 256) * 256
                + if self.attribute_latch % 2 == 1 { 0xffint } else { 0int }) as u16,
            attribute_shift_hi: ((self.attribute_shift_hi / 256) * 256
                + if self.attribute_latch / 2 % 2 == 1 { 0xffint } else { 0int }) as u16,
            ..self
        }
    }

    /// The fetch step of dot `d % 8` inside a tile: nametable address, tile number,
    /// attribute address, attribute bits, low pattern address, low pattern byte, high
    /// pattern address, then the high pattern byte with the coarse X step and the reload
    /// of the shift registers.
    pub open spec fn tile_phase_fetched<M: Mapper>(self, m: M) -> Self {
        let phase = self.n_dot % 8;
        if phase == 1 {
            self.tile_addr_latched()
        } else if phase == 2 {
            self.tile_index_latched(m)
        } else if phase == 3 {
            self.attribute_addr_latched()
        } else if phase == 4 {
            self.attribute_latched(m)
        } else if phase == 5 {
            self.pattern_addr_latched(0)
        } else if phase == 6 {
            self.tile_lo_latched(m)
        } else if phase == 7 {
            self.pattern_addr_latched(8)
        } else {
            self.tile_hi_latched(m).h_scrolled().reloaded()
        }
    }

    /// The fetch of this dot before the vertical copy: tiles on dots 1-256 and 321-336,
    /// dot 256 also steps fine Y, dots 337-340 fetch two unused tile numbers.
    #[verifier::opaque]
    pub open spec fn tile_fetched<M: Mapper>(self, m: M) -> Self {
        let d = self.n_dot;
        if d == 1 || d == 321 || d == 337 || d == 339 {
            self.tile_addr_latched()
        } else if d == 338 || d == 340 {
            self.tile_index_latched(m)
        } else if (2 <= d <= 255) || (322 <= d <= 336) {
            self.tile_phase_fetched(m)
        } else if d == 256 {
            self.tile_hi_latched(m).reloaded().h_scrolled().v_scrolled()
        } else {
            self
        }
    }

    /// Where the scroll position (the current VRAM address) stands after the work of a
    /// dot on a rendering line, with rendering enabled: coarse X steps on every eighth dot
    /// of a tile fetch, fine Y steps on dot 256, dot 257 copies the horizontal position
    /// from the temporary address, and dots 280-304 of the pre-render line copy the
    /// vertical one. With rendering disabled it stays.
    pub open spec fn scroll_after_dot(self) -> PpuAddr {
        let (s, d) = (self.n_scanline as int, self.n_dot as int);
        let a = self.current_addr;
        let t = self.temporary_addr;
        if !self.rendering() {
            a
        } else {
            let a1 = if d == 257 { a.h_copied(t) } else { self.scroll_after_tile() };
            if s == 261 && 280 <= d <= 304 { a1.v_copied(t) } else { a1 }
        }
    }

    /// The coarse X and fine Y steps of the tile fetches of this dot, with rendering enabled.
    pub open spec fn scroll_after_tile(self) -> PpuAddr {
        let d = self.n_dot as int;
        let a = self.current_addr;
        if ((2 <= d <= 255) || (322 <= d <= 336)) && d % 8 == 0 {
            a.x_incremented()
        } else if d == 256 {
            a.x_incremented().y_incremented()
        } else {
            a
        }
    }

    proof fn lemma_tile_fetched_vram<M: Mapper>(self, m: M)
        ensures
            self.tile_fetched(m).vram_fault ==> self.vram_fault || vram_broken(m),
    {
        reveal(State::tile_fetched);
        let t = self.tile_fetched(m);
        if t.vram_fault && !self.vram_fault {
            let a = self.address_latch;
            assert(!vram_reachable(m, a));
        }
    }

    proof fn lemma_tile_fetched_addr<M: Mapper>(self, m: M)
        ensures
            self.tile_fetched(m).current_addr == if self.rendering() && !(257 <= self.n_dot <= 320) {
                self.scroll_after_tile()
            } else {
                self.current_addr
            },
    {
        reveal(State::tile_fetched);
    }

    /// What a background fetch leaves alone.
    pub open spec fn bg_frame(self, other: Self) -> bool {
        &&& self.timing_same(other)
        &&& self.tile_index_latch < 256
        &&& self.secondary_oam_cursor == other.secondary_oam_cursor
        &&& self.sprite_list_cursor == other.sprite_list_cursor
        &&& self.sprite_nums_on_next_scanline == other.sprite_nums_on_next_scanline
        &&& self.primary_oam_cursor == other.primary_oam_cursor
        &&& self.sprite_evaluation_state == other.sprite_evaluation_state
        &&& self.pstatus == other.pstatus
        &&& self.sprite_list == other.sprite_list
    }

    proof fn lemma_tile_phase_frame<M: Mapper>(self, m: M)
        requires
            self.tile_index_latch < 256,
        ensures
            self.tile_phase_fetched(m).bg_frame(self),
    {
    }

    proof fn lemma_tile_fetched_frame<M: Mapper>(self, m: M)
        requires
            self.tile_index_latch < 256,
        ensures
            self.tile_fetched(m).bg_frame(self),
    {
        reveal(State::tile_fetched);
        self.lemma_tile_phase_frame(m);
    }

    fn bg_latch_tile_index_addr(&mut self)
        ensures
            *final(self) == old(self).tile_addr_latched(),
    {
        self.address_latch = self.current_addr.get_tile_address();
    }

    fn bg_latch_tile_index<M: Mapper>(&mut self, cart: &mut M)
        requires
            old(cart).wf(),
        ensures
            *final(cart) == *old(cart),
            final(self).tile_index_latch < 256,
            *final(self) == old(self).tile_index_latched(*old(cart)),
            final(self).vram_fault ==> old(self).vram_fault || vram_broken(*old(cart)),
    {
        self.tile_index_latch = self.load(cart, self.address_latch) as u16;
    }

    fn bg_latch_attribute_addr(&mut self)
        ensures
            *final(self) == old(self).attribute_addr_latched(),
    {
        self.address_latch = self.current_addr.get_attribute_address();
    }

    /// Latches the two palette bits of the attribute byte that belong to the current tile.
    fn bg_latch_attribute<M: Mapper>(&mut self, cart: &mut M)
        requires
            old(cart).wf(),
        ensures
            *final(cart) == *old(cart),
            *final(self) == old(self).attribute_latched(*old(cart)),
            final(self).vram_fault ==> old(self).vram_fault || vram_broken(*old(cart)),
    {
        let mut value = self.load(cart, self.address_latch);
        if self.current_addr.get_corase_y() / 2 % 2 == 1 {
            value = value / 16;
        }
        if self.current_addr.get_corase_x() / 2 % 2 == 1 {
            value = value / 4;
        }
        self.attribute_latch = value % 4;
    }

    fn bg_latch_tile_lo_addr(&mut self)
        requires
            old(self).tile_index_latch < 256,
        ensures
            *final(self) == old(self).pattern_addr_latched(0),
    {
        self.address_latch = self.pctrl.bg_pattern_table_addr() + self.tile_index_latch * 16 + self.current_addr.get_fine_y();
    }

    fn bg_latch_tile_lo<M: Mapper>(&mut self, cart: &mut M)
        requires
            old(cart).wf(),
        ensures
            *final(cart) == *old(cart),
            *final(self) == old(self).tile_lo_latched(*old(cart)),
            final(self).vram_fault ==> old(self).vram_fault || vram_broken(*old(cart)),
    {
        self.tile_lo_latch = self.load(cart, self.address_latch);
    }

    fn bg_latch_tile_hi_addr(&mut self)
        requires
            old(self).tile_index_latch < 256,
        ensures
            *final(self) == old(self).pattern_addr_latched(8),
    {
        self.address_latch = self.pctrl.bg_pattern_table_addr() + self.tile_index_latch * 16 + self.current_addr.get_fine_y() + 8;
    }

    fn bg_latch_tile_hi<M: Mapper>(&mut self, cart: &mut M)
        requires
            old(cart).wf(),
        ensures
            *final(cart) == *old(cart),
            *final(self) == old(self).tile_hi_latched(*old(cart)),
            final(self).vram_fault ==> old(self).vram_fault || vram_broken(*old(cart)),
    {
        self.tile_hi_latch = self.load(cart, self.address_latch);
    }

    fn is_rendering(&self) -> (r: bool)
        ensures
            r == self.rendering(),
    {
        self.pmask.show_background() || self.pmask.show_sprites()
    }

    fn h_scroll(&mut self)
        ensures
            *final(self) == old(self).h_scrolled(),
    {
        if self.is_rendering() {
            self.current_addr.increase_corase_x();
        }
    }

    fn v_scroll(&mut self)
        ensures
            *final(self) == old(self).v_scrolled(),
    {
        if self.is_rendering() {
            self.current_addr.increase_fine_y();
        }
    }

    fn h_update(&mut self)
        ensures
            *final(self) == old(self).h_updated(),
    {
        if self.is_rendering() {
            let t = self.temporary_addr;
            self.current_addr.copy_horizontal_postion_bits(t);
        }
    }

    fn v_update(&mut self)
        ensures
            *final(self) == (State {
                current_addr: if old(self).rendering() {
                    old(self).current_addr.v_copied(old(self).temporary_addr)
                } else {
                    old(self).current_addr
                },
                ..*old(self)
            }),
    {
        if self.is_rendering() {
            let t = self.temporary_addr;
            self.current_addr.copy_vertical_postion_bits(t);
        }
    }

    /// Loads the latched tile into the low bytes of the background shift registers.
    fn reload_background_registers(&mut self)
        ensures
            *final(self) == old(self).reloaded(),
    {
        let attr = self.attribute_latch;
        self.background_shift_lo = (self.background_shift_lo / 256) * 256 + self.tile_lo_latch as u16;
        self.background_shift_hi = (self.background_shift_hi / 256) * 256 + self.tile_hi_latch as u16;
        self.attribute_shift_lo = (self.attribute_shift_lo / 256) * 256 + if attr % 2 == 1 { 0xff } else { 0 };
        self.attribute_shift_hi = (self.attribute_shift_hi / 256) * 256 + if attr / 2 % 2 == 1 { 0xff } else { 0 };
    }

    /// The interrupt logic of one dot: with the vertical blank flag and the interrupt
    /// enable both set, the first dot arms the interrupt and the next one raises it, once
    /// per vertical blank.
    pub open spec fn nmi_step(self) -> (Self, bool) {
        if self.vblank() && self.pctrl.0 >= 128 {
            if !self.nmi_already_triggered {
                if self.nmi_ready_to_trigger {
                    (State { nmi_ready_to_trigger: false, nmi_already_triggered: true, ..self }, true)
                } else {
                    (State { nmi_ready_to_trigger: true, ..self }, false)
                }
            } else {
                (self, false)
            }
        } else {
            (State { nmi_already_triggered: false, ..self }, false)
        }
    }

    fn try_to_trigger_nmi(&mut self) -> (fired: bool)
        ensures
            (*final(self), fired) == old(self).nmi_step(),
            *final(self) == (State {
                nmi_ready_to_trigger: final(self).nmi_ready_to_trigger,
                nmi_already_triggered: final(self).nmi_already_triggered,
                ..*old(self)
            }),
    {
        if self.pstatus.vblank_occured() && self.pctrl.nmi_output() {
            if !self.nmi_already_triggered {
                if self.nmi_ready_to_trigger {
                    self.nmi_ready_to_trigger = false;
                    self.nmi_already_triggered = true;
                    return true;
                } else {
                    self.nmi_ready_to_trigger = true;
                }
            }
        } else {
            self.nmi_already_triggered = false;
        }
        false
    }

    /// The sprite pixel of this dot: palette (4-7), colour (0 for none), whether it is
    /// behind the background, and whether it comes from the first sprite slot.
    fn pixel_sprite(&self) -> (r: (u8, u8, bool, bool))
        ensures
            r == self.sprite_pixel(),
            4 <= r.0 <= 7 || (r.0 == 0 && r.1 == 0),
            r.1 <= 3,
            !self.rendering() ==> r.1 == 0,
    {
        if self.pmask.show_sprites() && (self.pmask.show_sprite_in_leftmost_8_pixels() || self.n_dot > 8) {
            let mut nth: usize = 0;
            while nth < 8
                invariant
                    nth <= 8,
                    self.rendering(),
                    self.sprite_pixel() == sprite_pixel_from(self.sprite_list, nth as int),
                decreases 8 - nth,
            {
                let sprite = self.sprite_list[nth];
                if sprite.countdown == 0 {
                    let pattern_lo: u8 = sprite.lo_tile_shift / 128;
                    let pattern_hi: u8 = sprite.hi_tile_shift / 128;
                    if pattern_lo != 0 || pattern_hi != 0 {
                        let color_index: u8 = pattern_lo + pattern_hi * 2;
                        return (sprite.color_set_index(), color_index, sprite.behind_background(), nth == 0);
                    }
                }
                nth = nth + 1;
            }
        }
        (0, 0, false, false)
    }

    /// The background pixel of this dot: palette (0-3) and colour (0 for none), taken at
    /// the fine X position of the shift registers.
    fn pixel_background(&self) -> (r: (u8, u8))
        requires
            self.fine_x < 8,
        ensures
            r == self.background_pixel(),
            r.0 <= 3,
            r.1 <= 3,
            !self.rendering() ==> r.1 == 0,
    {
        if self.pmask.show_background() && (self.pmask.show_background_in_leftmost_8_pixels() || self.n_dot > 8) {
            let shift: u16 = (7 - self.fine_x as u16) + 8;
            let pattern_lo: u16 = (self.background_shift_lo >> shift) % 2;
            let pattern_hi: u16 = (self.background_shift_hi >> shift) % 2;
            let color_set_index_lo: u16 = (self.attribute_shift_lo >> shift) % 2;
            let color_set_index_hi: u16 = (self.attribute_shift_hi >> shift) % 2;
            let color_index: u16 = pattern_lo + pattern_hi * 2;
            let color_set_index: u16 = color_set_index_lo + color_set_index_hi * 2;
            (color_set_index as u8, color_index as u8)
        } else {
            (0, 0)
        }
    }

    /// The colour of the backdrop (palette entry 0) under the current emphasis.
    pub open spec fn backdrop(self) -> RgbColor {
        emphasized(self.palette.colors()[self.palette_ram[0] as int], self.pmask.0)
    }

    /// The palette memory index of this dot's pixel: the sprite pixel or the background
    /// pixel by transparency and priority, the backdrop where both are transparent. Sets
    /// the sprite 0 hit flag where an opaque sprite 0 pixel meets an opaque background pixel.
    fn pixel_palette_index(&mut self) -> (r: u16)
        requires
            old(self).fine_x < 8,
        ensures
            r < 32,
            r == old(self).pixel_palette_entry(),
            !old(self).rendering() ==> r == 0,
            final(self).vblank() == old(self).vblank(),
            final(self).pstatus.0 == if old(self).sprite_0_hits() { with_bit(old(self).pstatus.0, 64, true) } else { old(self).pstatus.0 },
            *final(self) == (State { pstatus: final(self).pstatus, ..*old(self) }),
    {
        let (sp_color_set_index, sp_color_index, sp_behind_background, is_sprite_0) = self.pixel_sprite();
        let (bg_color_set_index, bg_color_index) = self.pixel_background();
        if self.sprite_0_on_current_scanline && sp_color_index != 0 && bg_color_index != 0 && is_sprite_0 && self.n_dot != 256 {
            proof { lemma_with_bit_keeps_vblank(self.pstatus.0); }
            self.pstatus.set_sprite_0_hit(true);
        }
        if bg_color_index == 0 && sp_color_index == 0 {
            0
        } else if bg_color_index == 0 {
            (sp_color_set_index as u16) * 4 + sp_color_index as u16
        } else if sp_color_index == 0 {
            (bg_color_set_index as u16) * 4 + bg_color_index as u16
        } else if !sp_behind_background {
            (sp_color_set_index as u16) * 4 + sp_color_index as u16
        } else {
            (bg_color_set_index as u16) * 4 + bg_color_index as u16
        }
    }

    /// Draws the pixel of this dot at the frame cursor and moves the cursor on.
    #[verifier::spinoff_prover]
    fn draw_pixel<M: Mapper>(&mut self, cart: &mut M)
        requires
            old(cart).wf(),
            old(self).shape_ok(),
            old(self).frame_buffer_cursor < SCREEN_SIZE,
        ensures
            *final(cart) == *old(cart),
            final(self).frame_buffer@.len() == old(self).frame_buffer@.len(),
            forall|i: int| 0 <= i < SCREEN_SIZE && i != old(self).frame_buffer_cursor
                ==> final(self).frame_buffer@[i] == old(self).frame_buffer@[i],
            final(self).frame_buffer@[old(self).frame_buffer_cursor as int] == old(self).pixel_color(),
            final(self).vblank() == old(self).vblank(),
            *final(self) == (State {
                frame_buffer: final(self).frame_buffer,
                frame_buffer_cursor: (old(self).frame_buffer_cursor + 1) as usize,
                pstatus: final(self).pstatus,
                ..*old(self)
            }),
            final(self).vram_fault ==> old(self).vram_fault || vram_broken(*old(cart)),
    {
        let palette_ram_index = self.pixel_palette_index();
        let palette_index = self.load(cart, 0x3F00 + palette_ram_index) as usize;
        let rgb = emphasize(self.palette.get_rgb(palette_index), self.pmask.0);
        let index = self.frame_buffer_cursor;
        self.frame_buffer.set(index, rgb);
        self.frame_buffer_cursor = index + 1;
    }
}

impl State {
    /// The fields that fetching and evaluation leave alone.
    pub open spec fn timing_same(self, other: Self) -> bool {
        &&& self.registers_same(other)
        &&& self.frame_buffer == other.frame_buffer
        &&& self.frame_buffer_cursor == other.frame_buffer_cursor
        &&& self.n_dot == other.n_dot
        &&& self.n_scanline == other.n_scanline
        &&& self.is_odd_frame == other.is_odd_frame
        &&& self.nmi_already_triggered == other.nmi_already_triggered
        &&& self.nmi_ready_to_trigger == other.nmi_ready_to_trigger
        &&& self.skip_one_tick == other.skip_one_tick
        &&& self.vblank_suppress_flag == other.vblank_suppress_flag
        &&& self.sprite_0_on_current_scanline == other.sprite_0_on_current_scanline
        &&& self.vblank() == other.vblank()
        &&& (other.vram_fault ==> self.vram_fault)
    }

    /// The background shift registers and latches of the two states agree.
    pub open spec fn bg_same(self, o: Self) -> bool {
        &&& self.bg_kept(o)
        &&& self.address_latch == o.address_latch
    }

    /// The background shift registers and tile latches of the two states agree.
    pub open spec fn bg_kept(self, o: Self) -> bool {
        &&& self.background_shift_lo == o.background_shift_lo
        &&& self.background_shift_hi == o.background_shift_hi
        &&& self.attribute_shift_lo == o.attribute_shift_lo
        &&& self.attribute_shift_hi == o.attribute_shift_hi
        &&& self.tile_index_latch == o.tile_index_latch
        &&& self.tile_lo_latch == o.tile_lo_latch
        &&& self.tile_hi_latch == o.tile_hi_latch
        &&& self.attribute_latch == o.attribute_latch
    }

    /// The background shift registers moved on by one pixel, on the dots that shift them
    /// (1-256 and 321-336).
    pub open spec fn bg_shifted(self) -> Self {
        let d = self.n_dot;
        if (1 <= d <= 256) || (321 <= d <= 336) {
            State {
                background_shift_lo: self.background_shift_lo << 1u16,
                background_shift_hi: self.background_shift_hi << 1u16,
                attribute_shift_lo: self.attribute_shift_lo << 1u16,
                attribute_shift_hi: self.attribute_shift_hi << 1u16,
                ..self
            }
        } else {
            self
        }
    }

    /// The background fetch depends only on the background registers, the scroll
    /// address, the control and mask registers, the position and palette memory.
    #[verifier::spinoff_prover]
    #[verifier::rlimit(60)]
    proof fn lemma_tile_phase_same<M: Mapper>(a: Self, b: Self, m: M)
        requires
            a.bg_same(b),
            a.current_addr == b.current_addr,
            a.pctrl == b.pctrl,
            a.pmask == b.pmask,
            a.n_dot == b.n_dot,
            a.palette_ram == b.palette_ram,
        ensures
            a.tile_phase_fetched(m).bg_same(b.tile_phase_fetched(m)),
            a.tile_phase_fetched(m).current_addr == b.tile_phase_fetched(m).current_addr,
    {
        let p = a.n_dot % 8;
        if p == 0 {
            let (a1, b1) = (a.tile_hi_latched(m), b.tile_hi_latched(m));
            assert(a1.bg_same(b1) && a1.current_addr == b1.current_addr);
            let (a2, b2) = (a1.h_scrolled(), b1.h_scrolled());
            assert(a2.bg_same(b2) && a2.current_addr == b2.current_addr);
            assert(a2.reloaded().bg_same(b2.reloaded()));
        } else if p == 4 {
            assert(a.attribute_latched(m).bg_same(b.attribute_latched(m)));
        }
    }

    #[verifier::spinoff_prover]
    proof fn lemma_tile_fetched_same<M: Mapper>(a: Self, b: Self, m: M)
        requires
            a.bg_same(b),
            a.current_addr == b.current_addr,
            a.pctrl == b.pctrl,
            a.pmask == b.pmask,
            a.n_dot == b.n_dot,
            a.n_scanline == b.n_scanline,
            a.palette_ram == b.palette_ram,
        ensures
            a.tile_fetched(m).bg_same(b.tile_fetched(m)),
    {
        reveal(State::tile_fetched);
        State::lemma_tile_phase_same(a, b, m);
    }

    /// Shifting and sprite evaluation for a dot of a rendering line.
    #[verifier::spinoff_prover]
    #[verifier::rlimit(100)]
    fn shift_and_evaluate(&mut self)
        requires
            old(self).shape_ok(),
            old(self).n_scanline < 240 || old(self).n_scanline == 261,
            1 <= old(self).n_dot <= 340,
            old(self).oam_ok_at(old(self).n_scanline as int, old(self).n_dot as int),
        ensures
            final(self).timing_same(*old(self)),
            final(self).tile_index_latch == old(self).tile_index_latch,
            final(self).sprite_list_cursor == old(self).sprite_list_cursor,
            final(self).current_addr == old(self).current_addr,
            ({
                let (s, d) = (old(self).n_scanline as int, old(self).n_dot as int);
                let sc = final(self).secondary_oam_cursor as int;
                &&& sc <= 32
                &&& final(self).sprite_nums_on_next_scanline <= 8
                &&& final(self).primary_oam_cursor <= 259
                &&& (final(self).sprite_evaluation_state != SpriteEvaluationState::Idle ==> final(self).primary_oam_cursor <= 256)
                &&& (1 <= d <= 64 ==> sc == if s < 240 { d % 32 } else { 0 })
                &&& (65 <= d <= 256 ==> final(self).eval_ok())
                &&& (d >= 257 ==> sc == old(self).secondary_oam_cursor)
                &&& (!(65 <= d <= 256) ==> final(self).pstatus == old(self).pstatus)
            }),
            old(self).n_dot <= 256 ==> forall|k: int| 0 <= k < 8
                ==> final(self).sprite_list[k] == #[trigger] old(self).sprite_list[k].shifted(),
            old(self).n_dot > 256 ==> final(self).sprite_list == old(self).sprite_list,
            257 <= old(self).n_dot <= 320 ==> *final(self) == *old(self),
            final(self).bg_same(old(self).bg_shifted()),
            final(self).vram_fault == old(self).vram_fault,
    {
        let n_dot = self.n_dot;
        if n_dot <= 64 {
            self.shift_sprite_registers();
            self.shift_background_registers();
            self.tick_clear_secondary_oam();
        } else if n_dot == 65 {
            self.shift_sprite_registers();
            self.shift_background_registers();
            self.sprite_evaluation_state = SpriteEvaluationState::Search;
            self.secondary_oam_cursor = 0;
            self.primary_oam_cursor = self.oamaddr;
            self.sprite_nums_on_next_scanline = 0;
            self.tick_sprite_evaluation();
        } else if n_dot <= 256 {
            self.shift_sprite_registers();
            self.shift_background_registers();
            self.tick_sprite_evaluation();
        } else if 321 <= n_dot && n_dot <= 336 {
            self.shift_background_registers();
        }
    }

    fn fetch_tile_phase<M: Mapper>(&mut self, cart: &mut M)
        requires
            old(cart).wf(),
            old(self).tile_index_latch < 256,
        ensures
            *final(cart) == *old(cart),
            *final(self) == old(self).tile_phase_fetched(*old(cart)),
            final(self).vram_fault ==> old(self).vram_fault || vram_broken(*old(cart)),
    {
        let phase = self.n_dot % 8;
        if phase == 1 {
            self.bg_latch_tile_index_addr();
        } else if phase == 2 {
            self.bg_latch_tile_index(cart);
        } else if phase == 3 {
            self.bg_latch_attribute_addr();
        } else if phase == 4 {
            self.bg_latch_attribute(cart);
        } else if phase == 5 {
            self.bg_latch_tile_lo_addr();
        } else if phase == 6 {
            self.bg_latch_tile_lo(cart);
        } else if phase == 7 {
            self.bg_latch_tile_hi_addr();
        } else {
            self.bg_latch_tile_hi(cart);
            self.h_scroll();
            self.reload_background_registers();
        }
    }

    /// Background fetches for a dot: nametable, attribute and pattern bytes in turn, with
    /// the scroll increments.
    fn fetch_background<M: Mapper>(&mut self, cart: &mut M)
        requires
            old(cart).wf(),
            old(self).tile_index_latch < 256,
        ensures
            *final(cart) == *old(cart),
            *final(self) == old(self).tile_fetched(*old(cart)),
            final(self).bg_frame(*old(self)),
            final(self).vram_fault ==> old(self).vram_fault || vram_broken(*old(cart)),
    {
        proof {
            self.lemma_tile_fetched_frame(*cart);
            reveal(State::tile_fetched);
        }
        let n_dot = self.n_dot;
        if n_dot == 1 || n_dot == 321 || n_dot == 337 || n_dot == 339 {
            self.bg_latch_tile_index_addr();
        } else if n_dot == 338 || n_dot == 340 {
            self.bg_latch_tile_index(cart);
        } else if (2 <= n_dot && n_dot <= 255) || (322 <= n_dot && n_dot <= 336) {
            self.fetch_tile_phase(cart);
        } else if n_dot == 256 {
            self.bg_latch_tile_hi(cart);
            self.reload_background_registers();
            self.h_scroll();
            self.v_scroll();
        }
    }

    /// The sprite fetch of a dot in 257-320, as it shows in the latches and the sprite
    /// slots (from `self` to `f`). Each of the eight slots takes eight dots: Y, tile
    /// number, attribute, X (which starts the slot's countdown), then the low and the
    /// high pattern byte of the sprite's row, each after its address. Dot 257 starts
    /// over at the first slot and the first byte of secondary object memory.
    #[verifier::opaque]
    pub open spec fn sprite_fetched<M: Mapper>(self, m: M, f: Self) -> bool {
        let d = self.n_dot as int;
        let phase = d % 8;
        let sc = if d == 257 { 0 } else { self.secondary_oam_cursor as int };
        let k = if d == 257 { 0 } else { self.sprite_list_cursor as int };
        let b = self.secondary_oam[sc];
        let slot = self.sprite_list@[k];
        if phase == 1 {
            f.sprite_y_latch == b && f.sprite_list == self.sprite_list
        } else if phase == 2 {
            f.sprite_tile_addr_latch == b && f.sprite_list == self.sprite_list
        } else if phase == 3 {
            &&& f.sprite_attribute_latch == b
            &&& f.sprite_list@ == self.sprite_list@.update(k, Sprite { attribute: b, ..slot })
        } else if phase == 4 {
            f.sprite_list@ == self.sprite_list@.update(k,
                Sprite { x_pos: b, y_pos: self.sprite_y_latch, countdown: b as usize, ..slot })
        } else if phase == 6 {
            let a = ((self.sprite_row_addr() / 256) * 256 + self.address_latch % 256) as u16;
            f.sprite_list@ == self.sprite_list@.update(k, Sprite { lo_tile_shift: self.sprite_pattern(m, a), ..slot })
        } else if phase == 0 {
            let a = (((self.sprite_row_addr() + 8) / 256) * 256 + self.address_latch % 256) as u16;
            f.sprite_list@ == self.sprite_list@.update(k, Sprite { hi_tile_shift: self.sprite_pattern(m, a), ..slot })
        } else {
            f.sprite_list == self.sprite_list
        }
    }

    proof fn lemma_sprite_fetched_same<M: Mapper>(o1: Self, o2: Self, m: M, f1: Self, f2: Self)
        requires
            o1.sprite_fetched(m, f1),
            o2.n_dot == o1.n_dot,
            o2.n_scanline == o1.n_scanline,
            o2.secondary_oam == o1.secondary_oam,
            o2.secondary_oam_cursor == o1.secondary_oam_cursor,
            o2.sprite_list_cursor == o1.sprite_list_cursor,
            o2.sprite_list == o1.sprite_list,
            o2.sprite_y_latch == o1.sprite_y_latch,
            o2.sprite_tile_addr_latch == o1.sprite_tile_addr_latch,
            o2.sprite_attribute_latch == o1.sprite_attribute_latch,
            o2.address_latch == o1.address_latch,
            o2.pctrl == o1.pctrl,
            o2.palette_ram == o1.palette_ram,
            f2.sprite_list == f1.sprite_list,
            f2.sprite_y_latch == f1.sprite_y_latch,
            f2.sprite_tile_addr_latch == f1.sprite_tile_addr_latch,
            f2.sprite_attribute_latch == f1.sprite_attribute_latch,
        ensures
            o2.sprite_fetched(m, f2),
    {
        reveal(State::sprite_fetched);
        reveal(State::sprite_row_addr);
    }

    /// Where the sprite fetch cursors stand before dot `d` (258-320) is processed.
    pub open spec fn sprite_fetch_ok(self, d: int) -> bool {
        let j = (d - 257) % 8;
        &&& self.secondary_oam_cursor == 4 * ((d - 257) / 8) + (if j < 3 { j } else { 3 })
        &&& self.sprite_list_cursor == (d - 257) / 8
    }

    /// The sprite fetch of a dot in 258-320, by its place in the slot's eight dots.
    #[verifier::spinoff_prover]
    #[verifier::rlimit(60)]
    fn fetch_sprite_phase<M: Mapper>(&mut self, cart: &mut M)
        requires
            old(cart).wf(),
            old(self).n_scanline <= 261,
            258 <= old(self).n_dot <= 320,
            old(self).secondary_oam_cursor < 32,
            old(self).sprite_list_cursor < 8,
        ensures
            *final(cart) == *old(cart),
            *final(self) == (State {
                sprite_list: final(self).sprite_list,
                sprite_y_latch: final(self).sprite_y_latch,
                sprite_tile_addr_latch: final(self).sprite_tile_addr_latch,
                sprite_attribute_latch: final(self).sprite_attribute_latch,
                address_latch: final(self).address_latch,
                vram_fault: final(self).vram_fault,
                secondary_oam_cursor: final(self).secondary_oam_cursor,
                sprite_list_cursor: final(self).sprite_list_cursor,
                ..*old(self)
            }),
            old(self).vram_fault ==> final(self).vram_fault,
            ({
                let p = old(self).n_dot % 8;
                &&& final(self).secondary_oam_cursor == old(self).secondary_oam_cursor
                    + if p == 1 || p == 2 || p == 3 || p == 0 { 1int } else { 0int }
                &&& final(self).sprite_list_cursor == old(self).sprite_list_cursor + if p == 0 { 1int } else { 0int }
            }),
            old(self).sprite_fetched(*old(cart), *final(self)),
            final(self).bg_kept(*old(self)),
            final(self).vram_fault ==> old(self).vram_fault || vram_broken(*old(cart)),
    {
        reveal(State::sprite_fetched);
        let phase = self.n_dot % 8;
        if phase == 1 {
            self.sp_latch_y();
        } else if phase == 2 {
            self.sp_latch_tile_addr();
        } else if phase == 3 {
            self.sp_latch_attribute();
        } else if phase == 4 {
            self.sp_set_position();
        } else if phase == 5 {
            self.sp_fetch_tile_lo_addr();
        } else if phase == 6 {
            self.sp_set_lo_shift(cart);
        } else if phase == 7 {
            self.sp_fetch_tile_hi_addr();
        } else {
            self.sp_set_hi_shift(cart);
        }
    }

    /// Sprite fetches for dots 257-320: for each of the eight sprites found, its Y, tile,
    /// attribute and X, then its two pattern bytes.
    #[verifier::spinoff_prover]
    fn fetch_sprites<M: Mapper>(&mut self, cart: &mut M)
        requires
            old(cart).wf(),
            old(self).n_scanline <= 261,
            257 <= old(self).n_dot <= 320,
            old(self).n_dot >= 258 ==> old(self).sprite_fetch_ok(old(self).n_dot as int),
        ensures
            *final(cart) == *old(cart),
            final(self).timing_same(*old(self)),
            final(self).tile_index_latch == old(self).tile_index_latch,
            final(self).sprite_nums_on_next_scanline == old(self).sprite_nums_on_next_scanline,
            final(self).primary_oam_cursor == old(self).primary_oam_cursor,
            final(self).sprite_evaluation_state == old(self).sprite_evaluation_state,
            old(self).n_dot < 320 ==> final(self).sprite_fetch_ok(old(self).n_dot + 1),
            old(self).n_dot == 320 ==> final(self).secondary_oam_cursor == 32 && final(self).sprite_list_cursor == 8,
            final(self).pstatus == old(self).pstatus,
            final(self).current_addr == if old(self).n_dot == 257 { old(self).h_updated().current_addr }
                else { old(self).current_addr },
            old(self).sprite_fetched(*old(cart), *final(self)),
            final(self).bg_kept(*old(self)),
            final(self).vram_fault ==> old(self).vram_fault || vram_broken(*old(cart)),
    {
        let n_dot = self.n_dot;
        if n_dot == 257 {
            self.h_update();
            self.secondary_oam_cursor = 0;
            self.sprite_list_cursor = 0;
            self.sp_latch_y();
            proof {
                reveal(State::sprite_fetched);
            }
        } else {
            proof {
                lemma_sprite_fetch_step(n_dot as int, self.secondary_oam_cursor as int, self.sprite_list_cursor as int);
            }
            self.fetch_sprite_phase(cart);
        }
    }

    /// The fetches of one dot of a rendering line: sprites on dots 257-320, background
    /// tiles elsewhere, and the vertical scroll copy on dots 280-304 of the pre-render line.
    #[verifier::spinoff_prover]
    fn fetch_dot<M: Mapper>(&mut self, cart: &mut M)
        requires
            old(cart).wf(),
            old(self).tile_index_latch < 256,
            old(self).n_scanline <= 261,
            1 <= old(self).n_dot <= 340,
            258 <= old(self).n_dot <= 320 ==> old(self).sprite_fetch_ok(old(self).n_dot as int),
        ensures
            *final(cart) == *old(cart),
            final(self).timing_same(*old(self)),
            final(self).tile_index_latch < 256,
            final(self).current_addr == old(self).scroll_after_dot(),
            final(self).pstatus == old(self).pstatus,
            final(self).sprite_nums_on_next_scanline == old(self).sprite_nums_on_next_scanline,
            final(self).primary_oam_cursor == old(self).primary_oam_cursor,
            final(self).sprite_evaluation_state == old(self).sprite_evaluation_state,
            !(257 <= old(self).n_dot <= 320) ==> final(self).secondary_oam_cursor == old(self).secondary_oam_cursor
                && final(self).sprite_list_cursor == old(self).sprite_list_cursor
                && final(self).sprite_list == old(self).sprite_list,
            257 <= old(self).n_dot < 320 ==> final(self).sprite_fetch_ok(old(self).n_dot + 1),
            old(self).n_dot == 320 ==> final(self).secondary_oam_cursor == 32 && final(self).sprite_list_cursor == 8,
            257 <= old(self).n_dot <= 320 ==> old(self).sprite_fetched(*old(cart), *final(self)),
            !(257 <= old(self).n_dot <= 320) ==> final(self).bg_same(old(self).tile_fetched(*old(cart))),
            257 <= old(self).n_dot <= 320 ==> final(self).bg_kept(*old(self)),
            final(self).vram_fault ==> old(self).vram_fault || vram_broken(*old(cart)),
    {
        proof {
            self.lemma_tile_fetched_addr(*cart);
        }
        let ghost o = *self;
        let ghost m = *cart;
        let n_dot = self.n_dot;
        if 257 <= n_dot && n_dot <= 320 {
            self.fetch_sprites(cart);
        } else {
            self.fetch_background(cart);
        }
        let ghost mid = *self;
        if self.n_scanline == 261 && 280 <= n_dot && n_dot <= 304 {
            self.v_update();
        }
        proof {
            if 257 <= n_dot && n_dot <= 320 {
                State::lemma_sprite_fetched_same(o, o, m, mid, *self);
            }
        }
    }

    /// The fetches and sprite work of one dot of a rendering line.
    #[verifier::spinoff_prover]
    fn prepare_render_data<M: Mapper>(&mut self, cart: &mut M)
        requires
            old(cart).wf(),
            old(self).shape_ok(),
            old(self).tile_index_latch < 256,
            old(self).n_scanline < 240 || old(self).n_scanline == 261,
            1 <= old(self).n_dot <= 340,
            old(self).oam_ok_at(old(self).n_scanline as int, old(self).n_dot as int),
        ensures
            *final(cart) == *old(cart),
            final(self).timing_same(*old(self)),
            final(self).tile_index_latch < 256,
            final(self).oam_ok_at(old(self).n_scanline as int, old(self).n_dot + 1),
            !(65 <= old(self).n_dot <= 256) ==> final(self).pstatus == old(self).pstatus,
            final(self).current_addr == old(self).scroll_after_dot(),
            old(self).n_dot <= 256 ==> forall|k: int| 0 <= k < 8
                ==> final(self).sprite_list[k] == #[trigger] old(self).sprite_list[k].shifted(),
            old(self).n_dot > 320 ==> final(self).sprite_list == old(self).sprite_list,
            257 <= old(self).n_dot <= 320 ==> old(self).sprite_fetched(*old(cart), *final(self)),
            !(257 <= old(self).n_dot <= 320) ==> final(self).bg_same(old(self).bg_shifted().tile_fetched(*old(cart))),
            257 <= old(self).n_dot <= 320 ==> final(self).bg_kept(*old(self)),
            final(self).vram_fault ==> old(self).vram_fault || vram_broken(*old(cart)),
    {
        self.shift_and_evaluate();
        let ghost mid = *self;
        proof { State::lemma_tile_fetched_same(mid, old(self).bg_shifted(), *cart); }
        self.fetch_dot(cart);
    }
}

impl State {
    /// The position (scanline, dot) after this one. The dot after (261, 340) is (0, 0);
    /// on odd frames with the background shown, dot (0, 0) is skipped.
    pub open spec fn next_position(self) -> (int, int) {
        let (s, d) = (self.n_scanline as int, self.n_dot as int);
        if s == 261 && d == 340 {
            (0, 0)
        } else if d == 340 {
            (s + 1, 0)
        } else if s == 0 && d == 0 && self.skip_one_tick {
            (0, 2)
        } else {
            (s, d + 1)
        }
    }

    /// Whether this dot shifts the sprite slots (the dots that draw).
    pub open spec fn shifts_sprites(self) -> bool {
        self.draws() || (self.n_scanline == 261 && 1 <= self.n_dot <= 256)
    }

    /// Whether this dot leaves the sprite slots alone: dots outside the rendering lines,
    /// dot 0 (unless skipped), and the dots after the sprite fetches.
    pub open spec fn keeps_sprites(self) -> bool {
        let (s, d) = (self.n_scanline as int, self.n_dot as int);
        ||| 240 <= s <= 260
        ||| d > 320
        ||| (d == 0 && !(s == 0 && self.skip_one_tick))
    }

    /// Whether this dot makes a background fetch: dots 1-256 and 321-340 of the rendering
    /// lines.
    pub open spec fn draws_background_fetch(self) -> bool {
        (self.n_scanline < 240 || self.n_scanline == 261) && 1 <= self.n_dot <= 340 && !(257 <= self.n_dot <= 320)
    }

    /// Whether this dot fetches sprite data: dots 257-320 of the rendering lines.
    pub open spec fn fetches_sprites(self) -> bool {
        (self.n_scanline < 240 || self.n_scanline == 261) && 257 <= self.n_dot <= 320
    }

    /// Whether this dot puts a pixel into the frame.
    pub open spec fn draws(self) -> bool {
        let (s, d) = (self.n_scanline as int, self.n_dot as int);
        (s < 240 && 1 <= d <= 256) || (s == 0 && d == 0 && self.skip_one_tick)
    }

    /// The work of one dot, before the position moves on. At (0, 0) of an odd frame with
    /// the background shown, the dot is skipped and dot 1 is done in its place.
    #[verifier::spinoff_prover]
    #[verifier::rlimit(60)]
    fn render_dot<M: Mapper>(&mut self, cart: &mut M) -> (frame: bool)
        requires
            old(cart).wf(),
            old(self).wf(),
        ensures
            *final(cart) == *old(cart),
            frame == (old(self).n_scanline == 241 && old(self).n_dot == 1),
            final(self).shape_ok(),
            final(self).registers_same(*old(self)),
            final(self).tile_index_latch < 256,
            final(self).n_scanline == old(self).n_scanline,
            final(self).n_dot == if old(self).n_scanline == 0 && old(self).n_dot == 0 && old(self).skip_one_tick { 1 }
                else { old(self).n_dot },
            final(self).fb_ok_at(final(self).n_scanline as int, final(self).n_dot + 1),
            final(self).oam_ok_at(final(self).n_scanline as int, final(self).n_dot + 1),
            final(self).is_odd_frame == (old(self).is_odd_frame != (old(self).n_scanline == 260 && old(self).n_dot == 340)),
            final(self).skip_one_tick == (old(self).skip_one_tick && !(old(self).n_scanline == 0 && old(self).n_dot == 0)),
            old(self).n_scanline == 241 && old(self).n_dot == 1 && !old(self).vblank_suppress_flag ==> final(self).vblank(),
            old(self).n_scanline == 261 && old(self).n_dot == 1 ==> final(self).pstatus.0 < 32,
            !(old(self).n_scanline == 241 && old(self).n_dot == 1 && !old(self).vblank_suppress_flag)
                && !(old(self).n_scanline == 261 && old(self).n_dot == 1) ==> final(self).vblank() == old(self).vblank(),
            old(self).vram_fault ==> final(self).vram_fault,
            final(self).frame_buffer@.len() == SCREEN_SIZE,
            forall|i: int| 0 <= i < SCREEN_SIZE && !(old(self).draws() && i == old(self).frame_buffer_cursor)
                ==> final(self).frame_buffer@[i] == old(self).frame_buffer@[i],
            old(self).draws() ==> final(self).frame_buffer@[old(self).frame_buffer_cursor as int] == old(self).drawn_pixel(),
            final(self).nmi_already_triggered == if old(self).n_scanline == 261 && old(self).n_dot == 1 { false }
                else { old(self).nmi_already_triggered },
            final(self).nmi_ready_to_trigger == old(self).nmi_ready_to_trigger,
            final(self).vblank_suppress_flag == old(self).vblank_suppress_flag,
            final(self).current_addr == if old(self).n_scanline < 240 || old(self).n_scanline == 261 {
                old(self).scroll_after_dot()
            } else {
                old(self).current_addr
            },
            old(self).shifts_sprites() ==> forall|k: int| 0 <= k < 8
                ==> final(self).sprite_list[k] == #[trigger] old(self).sprite_list[k].shifted(),
            old(self).keeps_sprites() ==> final(self).sprite_list == old(self).sprite_list,
            old(self).fetches_sprites() ==> old(self).sprite_fetched(*old(cart), *final(self)),
            old(self).draws_background_fetch() ==> final(self).bg_same(old(self).bg_shifted().tile_fetched(*old(cart))),
            old(self).fetches_sprites() ==> final(self).bg_kept(*old(self)),
            240 <= old(self).n_scanline <= 260 ==> final(self).bg_same(*old(self)),
            final(self).vram_fault ==> old(self).vram_fault || vram_broken(*old(cart)),
    {
        let s = self.n_scanline;
        let d = self.n_dot;
        if d == 0 {
            self.sprite_0_on_current_scanline = self.sprite_0_on_next_scanline;
            self.sprite_0_on_next_scanline = false;
            self.secondary_oam_cursor = 0;
            if s == 0 && self.skip_one_tick {
                self.n_dot = 1;
                self.skip_one_tick = false;
                self.draw_pixel(cart);
                assert(self.sprite_list == old(self).sprite_list);
                self.prepare_render_data(cart);
            }
            false
        } else if s <= 239 && d <= 256 {
            self.draw_pixel(cart);
            assert(self.sprite_list == old(self).sprite_list);
            proof { State::lemma_tile_fetched_same(self.bg_shifted(), old(self).bg_shifted(), *cart); }
            self.prepare_render_data(cart);
            false
        } else if s <= 239 {
            self.prepare_render_data(cart);
            false
        } else if s == 241 && d == 1 {
            self.frame_buffer_cursor = 0;
            if !self.vblank_suppress_flag {
                self.pstatus.set_vblank_occured(true);
            }
            true
        } else if s == 260 && d == 340 {
            self.is_odd_frame = !self.is_odd_frame;
            false
        } else if s == 261 && d == 1 {
            proof { lemma_u8_bits(self.pstatus.0); }
            self.pstatus.set_vblank_occured(false);
            self.pstatus.set_sprite_overflow(false);
            self.pstatus.set_sprite_0_hit(false);
            self.nmi_already_triggered = false;
            proof { State::lemma_tile_fetched_same(self.bg_shifted(), old(self).bg_shifted(), *cart); }
            self.prepare_render_data(cart);
            false
        } else if s == 261 {
            self.prepare_render_data(cart);
            false
        } else {
            false
        }
    }

    /// Advances the PPU by one dot. Returns whether a non-maskable interrupt is raised
    /// and whether a frame was completed.
    #[verifier::spinoff_prover]
    #[verifier::rlimit(60)]
    pub fn tick<M: Mapper>(&mut self, cart: &mut M) -> (ev: PpuTick)
        requires
            old(cart).wf(),
            old(self).wf(),
        ensures
            *final(cart) == *old(cart),
            final(self).wf(),
            (final(self).n_scanline as int, final(self).n_dot as int) == old(self).next_position(),
            ev.nmi == old(self).nmi_step().1,
            ev.frame == (old(self).n_scanline == 241 && old(self).n_dot == 1),
            final(self).registers_same(*old(self)),
            final(self).is_odd_frame == (old(self).is_odd_frame != (old(self).n_scanline == 260 && old(self).n_dot == 340)),
            final(self).skip_one_tick == ((old(self).skip_one_tick && !(old(self).n_scanline == 0 && old(self).n_dot == 0))
                || (old(self).n_scanline == 261 && old(self).n_dot == 340 && old(self).is_odd_frame
                    && old(self).pmask.0 / 8 % 2 == 1)),
            !final(self).vblank_suppress_flag,
            old(self).n_scanline == 241 && old(self).n_dot == 1 && !old(self).vblank_suppress_flag ==> final(self).vblank(),
            old(self).n_scanline == 261 && old(self).n_dot == 1 ==> final(self).pstatus.0 < 32,
            !(old(self).n_scanline == 241 && old(self).n_dot == 1 && !old(self).vblank_suppress_flag)
                && !(old(self).n_scanline == 261 && old(self).n_dot == 1) ==> final(self).vblank() == old(self).vblank(),
            old(self).vram_fault ==> final(self).vram_fault,
            forall|i: int| 0 <= i < SCREEN_SIZE && !(old(self).draws() && i == old(self).frame_buffer_cursor)
                ==> final(self).frame_buffer@[i] == old(self).frame_buffer@[i],
            old(self).draws() ==> final(self).frame_buffer@[old(self).frame_buffer_cursor as int] == old(self).drawn_pixel(),
            final(self).current_addr == if old(self).n_scanline < 240 || old(self).n_scanline == 261 {
                old(self).scroll_after_dot()
            } else {
                old(self).current_addr
            },
            old(self).shifts_sprites() ==> forall|k: int| 0 <= k < 8
                ==> final(self).sprite_list[k] == #[trigger] old(self).sprite_list[k].shifted(),
            old(self).keeps_sprites() ==> final(self).sprite_list == old(self).sprite_list,
            old(self).fetches_sprites() ==> old(self).sprite_fetched(*old(cart), *final(self)),
            old(self).draws_background_fetch() ==> final(self).bg_same(old(self).bg_shifted().tile_fetched(*old(cart))),
            old(self).fetches_sprites() ==> final(self).bg_kept(*old(self)),
            240 <= old(self).n_scanline <= 260 ==> final(self).bg_same(*old(self)),
            final(self).vram_fault ==> old(self).vram_fault || vram_broken(*old(cart)),
    {
        let fired = self.try_to_trigger_nmi();
        let ghost armed = *self;
        let frame = self.render_dot(cart);
        let ghost rendered = *self;
        self.advance_position();
        proof {
            if old(self).fetches_sprites() {
                State::lemma_sprite_fetched_same(armed, *old(self), *cart, rendered, *self);
            }
            State::lemma_tile_fetched_same(armed.bg_shifted(), old(self).bg_shifted(), *cart);
        }
        PpuTick { nmi: fired, frame }
    }

    /// Moves to the next dot: the end of a line goes to dot 0 of the next, and the end of
    /// the pre-render line to (0, 0), arming the skipped dot on odd frames.
    #[verifier::spinoff_prover]
    #[verifier::rlimit(60)]
    fn advance_position(&mut self)
        requires
            old(self).shape_ok(),
            old(self).tile_index_latch < 256,
            old(self).n_dot <= 340,
            old(self).n_scanline <= 261,
            old(self).fb_ok_at(old(self).n_scanline as int, old(self).n_dot + 1),
            old(self).oam_ok_at(old(self).n_scanline as int, old(self).n_dot + 1),
        ensures
            final(self).wf(),
            *final(self) == (State {
                n_scanline: final(self).n_scanline,
                n_dot: final(self).n_dot,
                skip_one_tick: final(self).skip_one_tick,
                vblank_suppress_flag: false,
                ..*old(self)
            }),
            old(self).n_scanline == 261 && old(self).n_dot == 340 ==> {
                &&& final(self).n_scanline == 0 && final(self).n_dot == 0
                &&& final(self).skip_one_tick == (old(self).skip_one_tick
                    || (old(self).is_odd_frame && old(self).pmask.0 / 8 % 2 == 1))
            },
            old(self).n_scanline != 261 && old(self).n_dot == 340 ==> {
                &&& final(self).n_scanline == old(self).n_scanline + 1 && final(self).n_dot == 0
                &&& final(self).skip_one_tick == old(self).skip_one_tick
            },
            old(self).n_dot != 340 ==> {
                &&& final(self).n_scanline == old(self).n_scanline && final(self).n_dot == old(self).n_dot + 1
                &&& final(self).skip_one_tick == old(self).skip_one_tick
            },
    {
        if self.n_scanline == 261 && self.n_dot == 340 {
            self.n_scanline = 0;
            self.n_dot = 0;
            if self.is_odd_frame && self.pmask.show_background() {
                self.skip_one_tick = true;
            }
        } else if self.n_dot == 340 {
            self.n_scanline = self.n_scanline + 1;
            self.n_dot = 0;
        } else {
            self.n_dot = self.n_dot + 1;
        }
        self.vblank_suppress_flag = false;
    }
}

/// Two PPUADDR writes, starting with the write toggle clear, point the current VRAM
/// address at the high byte (cut to six bits) and the low byte written, and leave the
/// toggle clear again.
pub proof fn lemma_ppuaddr_two_writes(s: State, hi: u8, lo: u8)
    requires
        !s.write_toggle,
    ensures
        s.ppuaddr_written(hi).ppuaddr_written(lo).current_addr.0 == (hi % 64) * 256 + lo,
        !s.ppuaddr_written(hi).ppuaddr_written(lo).write_toggle,
{
}

/// PPUDATA reads of video memory come one read late: after two PPUADDR writes point at
/// a byte below $3F00, the first read gives the old buffer and the second gives the byte
/// (where that second read is not itself of palette memory).
pub proof fn lemma_vram_read_is_delayed<M: Mapper>(s: State, m: M, hi: u8, lo: u8, v: u8)
    requires
        !s.write_toggle,
        (hi % 64) * 256 + lo < 0x3F00,
        vram_read(m, ((hi % 64) * 256 + lo) as u16) == Some(v),
        s.ppuaddr_written(hi).ppuaddr_written(lo).advanced_addr() % 0x4000 < 0x3F00,
    ensures
        s.ppuaddr_written(hi).ppuaddr_written(lo).ppudata_read(m).ppudata_value(m) == v,
{
    lemma_ppuaddr_two_writes(s, hi, lo);
}

/// A palette write is read back cut to six bits, and a write to a backdrop entry
/// (index a multiple of 4) shows in the entry 16 away as well; other entries keep their
/// value.
pub proof fn lemma_palette_write_then_read(p: [u8; 32], i: int, value: u8)
    requires
        0 <= i < 32,
    ensures
        State::palette_written(p, i, value)[i] == value % 64,
        i % 4 == 0 ==> State::palette_written(p, i, value)[if i >= 16 { i - 16 } else { i + 16 }] == value % 64,
        forall|j: int| 0 <= j < 32 && j != i && !(i % 4 == 0 && (j == i - 16 || j == i + 16))
            ==> State::palette_written(p, i, value)[j] == p[j],
        State::palette_written(p, i, value).len() == 32,
{
}

/// Reading PPUSTATUS clears the vertical blank flag, so a second read reports it clear;
/// the other status bits read the same twice.
pub proof fn lemma_status_read_clears_vblank(v: u8)
    ensures
        with_bit(v, 128, false) < 128,
        with_bit(v, 128, false) % 128 == v % 128,
{
}

/// An interrupt is raised at most once per vertical blank: after it is raised, the next
/// dot raises none while the flag and the enable stay set.
pub proof fn lemma_nmi_once(s: State)
    requires
        s.nmi_step().1,
    ensures
        !s.nmi_step().0.nmi_step().1,
{
}

/// The place of a dot in the frame, counted from dot 0 of the pre-render line (261).
pub open spec fn dot_index(s: int, d: int) -> int {
    ((s + 1) % 262) * 341 + d
}

/// The PPU walks the 262 x 341 = 89342 dots of a frame one by one and starts over; the
/// one exception is dot (0, 0), skipped on odd frames with the background shown.
pub proof fn lemma_dots_advance(st: State)
    requires
        st.wf(),
    ensures
        0 <= dot_index(st.n_scanline as int, st.n_dot as int) < 89342,
        ({
            let (s, d) = st.next_position();
            let i = dot_index(st.n_scanline as int, st.n_dot as int);
            &&& 0 <= s <= 261 && 0 <= d <= 340
            &&& st.n_scanline == 0 && st.n_dot == 0 && st.skip_one_tick ==> dot_index(s, d) == i + 2
            &&& !(st.n_scanline == 0 && st.n_dot == 0 && st.skip_one_tick) ==> dot_index(s, d) == (i + 1) % 89342
        }),
{
}

/// How many dots the PPU at (`s`, `d`) has to go before it reaches dot (241, 1), where
/// a frame is completed (0 when it stands there).
pub open spec fn frame_distance(s: int, d: int) -> int {
    (dot_index(241, 1) - dot_index(s, d) + 89342) % 89342
}

/// Each dot brings the PPU at least one dot nearer to the end of the frame, unless it
/// is the dot that completes the frame.
pub proof fn lemma_frame_distance_step(st: State)
    requires
        st.wf(),
    ensures
        0 <= frame_distance(st.n_scanline as int, st.n_dot as int) < 89342,
        !(st.n_scanline == 241 && st.n_dot == 1) ==> ({
            let (s, d) = st.next_position();
            frame_distance(s, d) + 1 <= frame_distance(st.n_scanline as int, st.n_dot as int)
        }),
{
    lemma_dots_advance(st);
}

/// With rendering enabled, dot 257 of a rendering line reloads the horizontal scroll
/// position (coarse X and the horizontal nametable bit) from the temporary address and
/// keeps the vertical one; dots 280-304 of the pre-render line reload the vertical
/// position (fine Y, coarse Y and the vertical nametable bit) and keep the horizontal one.
#[verifier::spinoff_prover]
pub proof fn lemma_scroll_reload(st: State)
    requires
        st.rendering(),
        st.n_scanline < 240 || st.n_scanline == 261,
    ensures
        st.n_dot == 257 ==> {
            let a = st.scroll_after_dot();
            &&& a.coarse_x() == st.temporary_addr.coarse_x()
            &&& a.nametable() % 2 == st.temporary_addr.nametable() % 2
            &&& a.nametable() / 2 == st.current_addr.nametable() / 2
            &&& a.coarse_y() == st.current_addr.coarse_y()
            &&& a.fine_y() == st.current_addr.fine_y()
        },
        st.n_scanline == 261 && 280 <= st.n_dot <= 304 ==> {
            let a = st.scroll_after_dot();
            &&& a.coarse_x() == st.current_addr.coarse_x()
            &&& a.nametable() % 2 == st.current_addr.nametable() % 2
            &&& a.nametable() / 2 == st.temporary_addr.nametable() / 2
            &&& a.coarse_y() == st.temporary_addr.coarse_y()
            &&& a.fine_y() == st.temporary_addr.fine_y()
        },
{
    let c = st.current_addr;
    let t = st.temporary_addr;
    lemma_addr_parts(c.0);
    lemma_addr_parts(t.0);
    if st.n_dot == 257 {
        let nn = (c.nametable() / 2) * 2 + t.nametable() % 2;
        lemma_addr_of_parts(c.top(), c.fine_y(), nn, c.coarse_y(), t.coarse_x());
    }
    if st.n_scanline == 261 && 280 <= st.n_dot <= 304 {
        let nn = (t.nametable() / 2) * 2 + c.nametable() % 2;
        lemma_addr_of_parts(c.top(), t.fine_y(), nn, t.coarse_y(), c.coarse_x());
    }
}

/// How the sprite fetch cursors move on dot `d` (258-320): the secondary cursor steps on
/// the Y, tile, attribute and high pattern dots, the slot cursor after the high pattern.
proof fn lemma_sprite_fetch_step(d: int, sc: int, k: int)
    requires
        258 <= d <= 320,
        sc == 4 * ((d - 257) / 8) + (if (d - 257) % 8 < 3 { (d - 257) % 8 } else { 3 }),
        k == (d - 257) / 8,
    ensures
        sc < 32,
        k < 8,
        ({
            let p = d % 8;
            let sc1 = sc + if p == 1 || p == 2 || p == 3 || p == 0 { 1int } else { 0int };
            let k1 = k + if p == 0 { 1int } else { 0int };
            &&& d < 320 ==> sc1 == 4 * ((d + 1 - 257) / 8) + (if (d + 1 - 257) % 8 < 3 { (d + 1 - 257) % 8 } else { 3 })
                && k1 == (d + 1 - 257) / 8
            &&& d == 320 ==> sc1 == 32 && k1 == 8
        }),
{
}

/// The background pixel of a dot is read at the fine-X tap, bit 15 - fine X, of the
/// shift registers: bit 0 of the palette number from the low attribute register, bit 1
/// from the high one; bit 0 of the colour from the low pattern register, bit 1 from the
/// high one. Where the background shows and no opaque sprite pixel covers it, an opaque
/// background pixel takes palette RAM entry 4 * palette + colour.
pub proof fn lemma_background_palette(st: State)
    requires
        st.fine_x < 8,
    ensures
        ({
            let shift = (15 - st.fine_x) as u16;
            let (p, c) = st.background_pixel();
            let shown = st.pmask.0 / 8 % 2 == 1 && (st.pmask.0 / 2 % 2 == 1 || st.n_dot > 8);
            &&& shown ==> {
                &&& p % 2 == (st.attribute_shift_lo >> shift) % 2
                &&& p / 2 == (st.attribute_shift_hi >> shift) % 2
                &&& c % 2 == (st.background_shift_lo >> shift) % 2
                &&& c / 2 == (st.background_shift_hi >> shift) % 2
            }
            &&& !shown ==> p == 0 && c == 0
            &&& shown && c != 0 && st.sprite_pixel().1 == 0 ==> st.pixel_palette_entry() == 4 * p + c
        }),
{
    assert(((7 - st.fine_x) + 8) as u16 == (15 - st.fine_x) as u16);
}

/// Whether the sprite in a slot shows an opaque pixel at this dot: its countdown has run
/// out and bit 7 of one of its pattern shift registers is set.
pub open spec fn slot_shows(sp: Sprite) -> bool {
    sp.countdown == 0 && (sp.lo_tile_shift >= 128 || sp.hi_tile_shift >= 128)
}

/// The sprite pixel comes from the first slot that shows one: its palette is 4 plus
/// the attribute's low two bits, bit 0 of its colour is bit 7 of the low pattern shift
/// register and bit 1 that of the high one, it is behind the background when attribute
/// bit 5 is set, and it is sprite 0's pixel when that slot is slot 0. With no slot
/// showing one, the pixel is transparent.
pub proof fn lemma_sprite_pixel_first(list: [Sprite; 8], j: int, k: int)
    requires
        0 <= k <= j < 8,
        slot_shows(list[j]),
        forall|i: int| k <= i < j ==> !slot_shows(#[trigger] list[i]),
    ensures
        ({
            let (p, c, behind, zero) = sprite_pixel_from(list, k);
            let sp = list[j];
            &&& p == 4 + sp.attribute % 4
            &&& c % 2 == (if sp.lo_tile_shift >= 128 { 1u8 } else { 0u8 })
            &&& c / 2 == (if sp.hi_tile_shift >= 128 { 1u8 } else { 0u8 })
            &&& c != 0
            &&& behind == ((sp.attribute / 32) % 2 == 1)
            &&& zero == (j == 0)
        }),
    decreases j - k,
{
    if k < j {
        assert(!slot_shows(list[k]));
        lemma_sprite_pixel_first(list, j, k + 1);
    }
}

/// With no slot showing an opaque pixel from `k` on, the sprite pixel is transparent.
pub proof fn lemma_sprite_pixel_none(list: [Sprite; 8], k: int)
    requires
        0 <= k <= 8,
        forall|i: int| k <= i < 8 ==> !slot_shows(#[trigger] list[i]),
    ensures
        sprite_pixel_from(list, k).1 == 0,
    decreases 8 - k,
{
    if k < 8 {
        assert(!slot_shows(list[k]));
        lemma_sprite_pixel_none(list, k + 1);
    }
}

/// An attribute byte covers 4x4 tiles in four 2x2 quadrants, two bits each from bit 0
/// up: top left, top right, bottom left, bottom right. The tile at coarse position
/// (`cx`, `cy`) takes the two bits of its quadrant.
pub proof fn lemma_attribute_quadrant(b: u8, cx: int, cy: int)
    requires
        0 <= cx,
        0 <= cy,
    ensures
        ({
            let q = 2 * ((cy / 2) % 2) + (cx / 2) % 2;
            &&& q == 0 ==> attribute_bits(b, cx, cy) == b & 3
            &&& q == 1 ==> attribute_bits(b, cx, cy) == (b >> 2u8) & 3
            &&& q == 2 ==> attribute_bits(b, cx, cy) == (b >> 4u8) & 3
            &&& q == 3 ==> attribute_bits(b, cx, cy) == (b >> 6u8) & 3
        }),
{
    assert(b % 4 == b & 3 && (b / 4) % 4 == (b >> 2u8) & 3 && (b / 16) % 4 == (b >> 4u8) & 3
        && (b / 16 / 4) % 4 == (b >> 6u8) & 3) by (bit_vector);
}

/// Two PPUSCROLL writes, starting with the write toggle clear, set the scroll: the
/// first value's low three bits are fine X and its top five the coarse X of the
/// temporary address, the second value's low three bits fine Y and its top five coarse
/// Y; the nametable bits stay and the toggle is clear again.
pub proof fn lemma_ppuscroll_two_writes(s: State, x: u8, y: u8)
    requires
        !s.write_toggle,
    ensures
        ({
            let t = s.ppuscroll_written(x).ppuscroll_written(y);
            &&& t.fine_x == x % 8
            &&& t.temporary_addr.coarse_x() == x / 8
            &&& t.temporary_addr.fine_y() == y % 8
            &&& t.temporary_addr.coarse_y() == y / 8
            &&& t.temporary_addr.nametable() == s.temporary_addr.nametable()
            &&& !t.write_toggle
        }),
{
    let a0 = s.temporary_addr;
    lemma_addr_parts(a0.0);
    lemma_addr_of_parts(0, a0.fine_y(), a0.nametable(), a0.coarse_y(), (x / 8) as int);
    let s1 = s.ppuscroll_written(x);
    let a1 = s1.temporary_addr;
    lemma_addr_of_parts(0, (y % 8) as int, a1.nametable(), (y / 8) as int, a1.coarse_x());
}

/// A PPUCTRL write puts its low two bits in the nametable bits of the temporary address
/// and keeps the rest of it.
pub proof fn lemma_ppuctrl_nametable(s: State, value: u8)
    ensures
        ({
            let t = s.ppuctrl_written(value).temporary_addr;
            &&& t.nametable() == value % 4
            &&& t.coarse_x() == s.temporary_addr.coarse_x()
            &&& t.coarse_y() == s.temporary_addr.coarse_y()
            &&& t.fine_y() == s.temporary_addr.fine_y()
        }),
{
    let a0 = s.temporary_addr;
    lemma_addr_parts(a0.0);
    lemma_addr_of_parts(a0.top(), a0.fine_y(), (value % 4) as int, a0.coarse_y(), a0.coarse_x());
}

} // verus!
