//! Byte and word helpers shared by the CPU, PPU and cartridge code.
use vstd::prelude::*;

verus! {

/// How masks and shifts act on the bits of a byte.
pub proof fn lemma_u8_bits(v: u8)
    ensures
        (v & 0b1000_0000 != 0) == (v >= 128),
        (v & 0b0100_0000 != 0) == (v / 64 % 2 == 1),
        (v & 0b0010_0000 != 0) == (v / 32 % 2 == 1),
        (v & 0b0001_0000 != 0) == (v / 16 % 2 == 1),
        (v & 0b0000_1000 != 0) == (v / 8 % 2 == 1),
        (v & 0b0000_0100 != 0) == (v / 4 % 2 == 1),
        (v & 0b0000_0010 != 0) == (v / 2 % 2 == 1),
        (v & 0b0000_0001 != 0) == (v % 2 == 1),
        v >> 1u8 == v / 2,
        v >> 2u8 == v / 4,
        v >> 3u8 == v / 8,
        v >> 4u8 == v / 16,
        v >> 5u8 == v / 32,
        v >> 6u8 == v / 64,
        v >> 7u8 == v / 128,
        v & 0b1 == v % 2,
        v & 0b11 == v % 4,
        v & 0b111 == v % 8,
        v & 0b1111 == v % 16,
        v & 0b1_1111 == v % 32,
        v & 0b11_1111 == v % 64,
        v & 0b111_1111 == v % 128,
        v & 0b0111_0000 == (v / 16 % 8) * 16,
        v & 0b1111_1000 == (v / 8) * 8,
        v & 0b1100_0000 == (v / 64) * 64,
        v & 0b0011_1000 == (v / 8 % 8) * 8,
        v & 0b1_1110 == (v % 32 / 2) * 2,
        v & 0b1110 == (v % 16 / 2) * 2,
        v & 0b0011_1111 == v % 64,
        (v | 0b0010_0000) == if v / 32 % 2 == 1 { v as int } else { v + 32 },
        (v | 0b0100_0000) == if v / 64 % 2 == 1 { v as int } else { v + 64 },
        (v | 0b1000_0000) == if v >= 128 { v as int } else { v + 128 },
        (v & 0b1101_1111u8) == if v / 32 % 2 == 1 { v - 32 } else { v as int },
        (v & 0b1011_1111u8) == if v / 64 % 2 == 1 { v - 64 } else { v as int },
        (v & 0b0111_1111u8) == if v >= 128 { v - 128 } else { v as int },
        v & 0b11_0000 == (v / 16 % 4) * 16,
{
    assert(
        (v & 0b1000_0000 != 0) == (v >= 128)
        && (v & 0b0100_0000 != 0) == (v / 64 % 2 == 1)
        && (v & 0b0010_0000 != 0) == (v / 32 % 2 == 1)
        && (v & 0b0001_0000 != 0) == (v / 16 % 2 == 1)
        && (v & 0b0000_1000 != 0) == (v / 8 % 2 == 1)
        && (v & 0b0000_0100 != 0) == (v / 4 % 2 == 1)
        && (v & 0b0000_0010 != 0) == (v / 2 % 2 == 1)
        && (v & 0b0000_0001 != 0) == (v % 2 == 1)
        && v >> 1u8 == v / 2 && v >> 2u8 == v / 4 && v >> 3u8 == v / 8 && v >> 4u8 == v / 16
        && v >> 5u8 == v / 32 && v >> 6u8 == v / 64 && v >> 7u8 == v / 128
        && v & 0b1 == v % 2 && v & 0b11 == v % 4 && v & 0b111 == v % 8 && v & 0b1111 == v % 16
        && v & 0b1_1111 == v % 32 && v & 0b11_1111 == v % 64 && v & 0b111_1111 == v % 128
        && v & 0b0111_0000 == (v / 16 % 8) * 16
        && v & 0b1111_1000 == (v / 8) * 8
        && v & 0b1100_0000 == (v / 64) * 64
        && v & 0b0011_1000 == (v / 8 % 8) * 8
        && v & 0b1_1110 == (v % 32 / 2) * 2
        && v & 0b1110 == (v % 16 / 2) * 2
        && v & 0b0011_1111 == v % 64
        && (v | 0b0010_0000) == if v / 32 % 2 == 1 { v as int } else { v + 32 }
        && (v | 0b0100_0000) == if v / 64 % 2 == 1 { v as int } else { v + 64 }
        && (v | 0b1000_0000) == if v >= 128 { v as int } else { v + 128 }
        && (v & 0b1101_1111u8) == if v / 32 % 2 == 1 { v - 32 } else { v as int }
        && (v & 0b1011_1111u8) == if v / 64 % 2 == 1 { v - 64 } else { v as int }
        && (v & 0b0111_1111u8) == if v >= 128 { v - 128 } else { v as int }
        && v & 0b11_0000 == (v / 16 % 4) * 16
    ) by (bit_vector);
}

/// How the two bytes of a word are taken apart and put together.
pub proof fn lemma_u16_bytes(v: u16, b: u8)
    ensures
        (v as u8) == v % 256,
        ((v >> 8u16) as u8) == v / 256,
        v >> 8u16 == v / 256,
        v & 0xff == v % 256,
        v & 0xff00 == (v / 256) * 256,
        (v & 0b1111_1111_0000_0000) | (b as u16) == (v / 256) * 256 + b,
        (v & 0b0000_0000_1111_1111) | ((b as u16) << 8u16) == b * 256 + v % 256,
        ((b as u16) << 8u16) == b * 256,
{
    assert(
        (v as u8) == v % 256
        && ((v >> 8u16) as u8) == v / 256
        && v >> 8u16 == v / 256
        && v & 0xff == v % 256
        && v & 0xff00 == (v / 256) * 256
        && (v & 0b1111_1111_0000_0000) | (b as u16) == (v / 256) * 256 + b
        && (v & 0b0000_0000_1111_1111) | ((b as u16) << 8u16) == b * 256 + v % 256
        && ((b as u16) << 8u16) == b * 256
    ) by (bit_vector);
}

/// Access to the two bytes of a 16-bit address.
pub trait U16Address {
    fn fetch_lo(&self) -> u8;

    fn fetch_hi(&self) -> u8;

    fn set_lo(&mut self, value: u8);

    fn set_hi(&mut self, value: u8);
}

impl U16Address for u16 {
    fn fetch_lo(&self) -> (r: u8)
        ensures
            r == *self % 256,
    {
        let v: u16 = *self;
        proof { lemma_u16_bytes(v, 0); }
        v as u8
    }

    fn fetch_hi(&self) -> (r: u8)
        ensures
            r == *self / 256,
    {
        let v: u16 = *self;
        proof { lemma_u16_bytes(v, 0); }
        (v >> 8) as u8
    }

    fn set_lo(&mut self, value: u8)
        ensures
            *final(self) == (*old(self) / 256) * 256 + value,
    {
        let v: u16 = *self;
        proof { lemma_u16_bytes(v, value); }
        *self = (v & 0b1111_1111_0000_0000) | value as u16;
    }

    fn set_hi(&mut self, value: u8)
        ensures
            *final(self) == value * 256 + *old(self) % 256,
    {
        let v: u16 = *self;
        proof { lemma_u16_bytes(v, value); }
        *self = (v & 0b0000_0000_1111_1111) | ((value as u16) << 8);
    }
}

/// Tests of single bits of a byte.
pub trait U8BitTest {
    fn is_b7_set(&self) -> bool;

    fn is_b6_set(&self) -> bool;

    fn is_b5_set(&self) -> bool;

    fn is_b4_set(&self) -> bool;

    fn is_b3_set(&self) -> bool;

    fn is_b2_set(&self) -> bool;

    fn is_b1_set(&self) -> bool;

    fn is_b0_set(&self) -> bool;
}

impl U8BitTest for u8 {
    fn is_b7_set(&self) -> (r: bool)
        ensures
            r == (*self >= 128),
    {
        let v: u8 = *self;
        proof { lemma_u8_bits(v); }
        v & 0b1000_0000 != 0
    }

    fn is_b6_set(&self) -> (r: bool)
        ensures
            r == (*self / 64 % 2 == 1),
    {
        let v: u8 = *self;
        proof { lemma_u8_bits(v); }
        v & 0b0100_0000 != 0
    }

    fn is_b5_set(&self) -> (r: bool)
        ensures
            r == (*self / 32 % 2 == 1),
    {
        let v: u8 = *self;
        proof { lemma_u8_bits(v); }
        v & 0b0010_0000 != 0
    }

    fn is_b4_set(&self) -> (r: bool)
        ensures
            r == (*self / 16 % 2 == 1),
    {
        let v: u8 = *self;
        proof { lemma_u8_bits(v); }
        v & 0b0001_0000 != 0
    }

    fn is_b3_set(&self) -> (r: bool)
        ensures
            r == (*self / 8 % 2 == 1),
    {
        let v: u8 = *self;
        proof { lemma_u8_bits(v); }
        v & 0b0000_1000 != 0
    }

    fn is_b2_set(&self) -> (r: bool)
        ensures
            r == (*self / 4 % 2 == 1),
    {
        let v: u8 = *self;
        proof { lemma_u8_bits(v); }
        v & 0b0000_0100 != 0
    }

    fn is_b1_set(&self) -> (r: bool)
        ensures
            r == (*self / 2 % 2 == 1),
    {
        let v: u8 = *self;
        proof { lemma_u8_bits(v); }
        v & 0b0000_0010 != 0
    }

    fn is_b0_set(&self) -> (r: bool)
        ensures
            r == (*self % 2 == 1),
    {
        let v: u8 = *self;
        proof { lemma_u8_bits(v); }
        v & 0b0000_0001 != 0
    }
}

/// A word made of a high and a low byte.
pub proof fn lemma_u16_compose(hi: u16, lo: u16)
    requires
        hi < 256,
        lo < 256,
    ensures
        (hi << 8u16) | lo == hi * 256 + lo,
{
    assert((hi << 8u16) | lo == hi * 256 + lo) by (bit_vector)
        requires
            hi < 256,
            lo < 256,
    ;
}

/// Low-bit masks on a word, and the horizontal nametable fold.
pub proof fn lemma_u16_masks(v: u16)
    ensures
        v & 0x7FFF == v % 0x8000,
        v & 0x3FFF == v % 0x4000,
        v & 0x1FFF == v % 0x2000,
        v & 0x0FFF == v % 0x1000,
        v & 0x07FF == v % 0x800,
        v & 0x03FF == v % 0x400,
        v & 0x00FF == v % 0x100,
        v & 0x001F == v % 0x20,
        v & 0x0007 == v % 8,
        v & 0x0003 == v % 4,
        v & 0x0001 == v % 2,
        (v & 0xBFFF) & 0x7FFF == v % 0x4000,
        v & 0x0BFF <= 0x0BFF,
        (v & 0x0BFF) > 0x07FF ==> (v & 0x0BFF) & 0x07FF == (v & 0x0BFF) - 0x800,
{
    assert(
        v & 0x7FFF == v % 0x8000 && v & 0x3FFF == v % 0x4000 && v & 0x1FFF == v % 0x2000
        && v & 0x0FFF == v % 0x1000 && v & 0x07FF == v % 0x800 && v & 0x03FF == v % 0x400
        && v & 0x00FF == v % 0x100 && v & 0x001F == v % 0x20 && v & 0x0007 == v % 8
        && v & 0x0003 == v % 4 && v & 0x0001 == v % 2
        && (v & 0xBFFF) & 0x7FFF == v % 0x4000
        && v & 0x0BFF <= 0x0BFF
        && ((v & 0x0BFF) > 0x07FF ==> (v & 0x0BFF) & 0x07FF == (v & 0x0BFF) - 0x800)
    ) by (bit_vector);
}

/// Twice a byte, taken as a byte, is zero only for 0 and 128.
pub proof fn lemma_double_byte(b: u8)
    requires
        b != 0,
        b != 128,
    ensures
        ((b as int) * 2) as u8 != 0,
        (b as int) as u8 != 0,
{
    let w: u16 = ((b as u16) * 2) as u16;
    assert((w as u8) != 0) by (bit_vector)
        requires
            w == (b as u16) * 2,
            b != 0,
            b != 128,
    ;
}

} // verus!
