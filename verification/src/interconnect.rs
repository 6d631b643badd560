//! The bus between the CPU and every other part of the console: the PPU and
//! the cartridge.
use vstd::prelude::*;
use crate::cart::{CartView, Cartridge};
use crate::ppu::Ppu;

verus! {

pub struct Interconnect {
    pub ppu: Ppu,
    pub cart: Cartridge,
}

impl Interconnect {
    /// The addresses at which the bus answers: the cartridge space from
    /// $4020 on, where the cartridge itself answers.
    pub open spec fn readable(&self, addr: u16) -> bool {
        addr >= 0x4020 && self.cart@.prg_readable(addr)
    }

    pub fn new(cart: Cartridge) -> (r: Self)
        ensures
            r.cart@ == cart@,
            r.ppu.wf(),
            r.ppu.cycles == 0,
    {
        Interconnect { ppu: Ppu::new(), cart: cart }
    }

    /// Resets the PPU.
    pub fn reset(&mut self)
        ensures
            final(self).cart == old(self).cart,
            final(self).ppu.registers.ppuctrl == 0,
            final(self).ppu.registers.ppumask == 0,
            final(self).ppu.registers.ppuscroll == 0,
            final(self).ppu.registers.ppudata == 0,
            final(self).ppu.cycles == old(self).ppu.cycles,
            final(self).ppu.current_scanline == old(self).ppu.current_scanline,
    {
        self.ppu.reset();
    }

    /// Reads a byte from the cartridge space. The PPU registers, their
    /// mirrors and the APU registers are not implemented, and the test
    /// registers at $4018..$401F are disabled, so those addresses are not
    /// readable.
    pub fn read_byte(&self, addr: u16) -> (r: u8)
        requires
            self.cart@.wf(),
            self.readable(addr),
        ensures
            r == self.cart@.prg_peek(addr),
    {
        self.cart.prg_read(addr)
    }

    /// Writes a byte to the cartridge space; the other regions are not
    /// writable, as for `read_byte`.
    pub fn write_byte(&mut self, addr: u16, val: u8)
        requires
            old(self).cart@.wf(),
            old(self).readable(addr),
        ensures
            final(self).cart@ == old(self).cart@.prg_poke(addr, val),
            final(self).ppu == old(self).ppu,
    {
        self.cart.prg_write(addr, val);
    }
}

} // verus!
