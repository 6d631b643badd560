# GadgetNES

A small NES emulator whose core is written and proved in Verus.

- `src/` is the verified library:
  - `rom`, `cart`, `cpu`, `interconnect`, `ppu`, `nes`, `debugger`: the
    console that the program runs — iNES parsing, mapper 0, a 6502
    interpreter stated against a model of the machine, PPU timing, and the
    debugger's command language and commands.
  - `nes::*`, `ines`: a second console model with its own memory map, PPU
    registers and a 6502 with cycle counting and undocumented opcodes.
  - `mapper`, `mem`, `mem_map`, `ppu::mem_map`, `ppu::ppu`, `apu`, `sdl`,
    `screen`: mappers with nametable VRAM, flat memories, address maps, a
    register-level PPU and the parts of the SDL front ends that decide
    something.
- `app/` holds `main`: argument handling, reading the ROM file, the SDL
  window and event loop, and the debugger's prompt.
- `tests/` runs the library on concrete programs and values.
