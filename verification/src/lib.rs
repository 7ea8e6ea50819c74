//! A cycle-stepped NES emulator core: 6502 CPU, picture processing unit,
//! audio processing unit, DMA controller, cartridge mappers and iNES parsing.
#![allow(unused_imports)]
#![allow(non_snake_case)]
#![allow(non_camel_case_types)]

pub mod bitmisc;
pub mod error;
pub mod rom;
pub mod apu;
pub mod cartridge;
pub mod mapper;
pub mod ppu;
pub mod emulator;
pub mod dma;
pub mod cpu;
