//! A verified model of the NES hardware: the iNES ROM format, the cartridge
//! mapper, the 6502 CPU interpreter, the PPU timing state machine and the
//! debugger's command language.
pub mod rom;
pub mod ines;
pub mod mapper;
pub mod mem;
pub mod mem_map;
pub mod cart;
pub mod nes;
pub mod ppu;
pub mod interconnect;
pub mod cpu;
pub mod debugger;
pub mod apu;
pub mod sdl;
pub mod screen;
