# nes

A cycle-stepped NES emulator core whose logic is verified with Verus, and a small
desktop front end around it.

- `src/` — the verified library: iNES parsing (`rom`, `cartridge::parse_stream`), the
  bank-switching core and mappers 0, 1, 2 and 4 (`cartridge`, `mapper`), the 6502 CPU
  (`cpu`), the picture processing unit (`ppu`), the audio processing unit (`apu`),
  the DMA unit (`dma`) and the machine that clocks them and maps the CPU bus
  (`emulator`).
- `tests/` — tests of the library on small hand-made cartridge images.
- `app/` — the SDL2 window, keyboard input, audio mixing and resampling (floating
  point), and save states (serde and bincode).

The machine records the output level of each sound channel on every CPU cycle; the
front end turns those levels into 44.1 kHz samples. The palette (64 RGB triples) is
given to `Emulator::new`; the front end reads it from a file.
