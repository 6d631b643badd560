//! The whole console: the CPU and the bus that connects it to the PPU and
//! the cartridge.
pub mod cpu;
pub mod ppu;
pub mod memory;
pub mod io;
pub mod apu;

use vstd::prelude::*;
use crate::cart::Cartridge;
use crate::cpu::{Cpu, machine, machine_is};
use crate::interconnect::Interconnect;

verus! {

pub const KILOBYTE: usize = 1024;

/// The console. Fields are public for the debugger.
pub struct Nes {
    pub cpu: Cpu,
    pub interconnect: Interconnect,
}

impl Nes {
    /// The parts are well formed: the CPU RAM has its size, the cartridge
    /// its PRG-RAM, and the PPU a valid scanline.
    pub open spec fn wf(&self) -> bool {
        &&& self.cpu.wf()
        &&& self.interconnect.cart@.wf()
        &&& self.interconnect.ppu.wf()
    }

    pub fn new(cart: Cartridge) -> (r: Self)
        requires
            cart@.wf(),
        ensures
            r.wf(),
            r.interconnect.cart@ == cart@,
            r.cpu@ == Cpu::new_spec(),
            r.interconnect.ppu.cycles == 0,
    {
        Nes { cpu: Cpu::new(), interconnect: Interconnect::new(cart) }
    }

    /// Resets the CPU and the PPU.
    pub fn reset(&mut self)
        requires
            old(self).wf(),
        ensures
            final(self).wf(),
            final(self).cpu@.registers.pc == 0xC000,
            final(self).cpu@.registers.s == 0xFD,
            final(self).cpu@.registers.p == 0x24,
            final(self).cpu@.registers.a == old(self).cpu@.registers.a,
            final(self).cpu@.registers.x == old(self).cpu@.registers.x,
            final(self).cpu@.registers.y == old(self).cpu@.registers.y,
            final(self).cpu@.ram == old(self).cpu@.ram,
            final(self).interconnect.cart == old(self).interconnect.cart,
            final(self).interconnect.ppu.registers.ppuctrl == 0,
            final(self).interconnect.ppu.registers.ppumask == 0,
            final(self).interconnect.ppu.registers.ppuscroll == 0,
            final(self).interconnect.ppu.registers.ppudata == 0,
            final(self).interconnect.ppu.cycles == old(self).interconnect.ppu.cycles,
            final(self).interconnect.ppu.current_scanline == old(self).interconnect.ppu.current_scanline,
    {
        self.cpu.reset(&mut self.interconnect);
        self.interconnect.reset();
    }

    /// Whether the CPU can read `addr` (for the debugger's memory view).
    pub fn can_read(&self, addr: u16) -> (r: bool)
        ensures
            r == machine(&self.cpu, &self.interconnect).readable(addr),
    {
        addr < 0x2000 || (addr >= 0x4020 && self.interconnect.cart.prg_readable(addr))
    }

    /// Whether `step` can run the next instruction.
    pub fn can_step(&self) -> (r: bool)
        requires
            self.wf(),
        ensures
            r == machine(&self.cpu, &self.interconnect).step_ok(),
    {
        self.cpu.can_step(&self.interconnect)
    }

    /// Runs one instruction, then lets the PPU catch up; returns the opcode.
    pub fn step(&mut self) -> (opcode: u8)
        requires
            old(self).wf(),
            machine(&old(self).cpu, &old(self).interconnect).step_ok(),
        ensures
            final(self).wf(),
            opcode == machine(&old(self).cpu, &old(self).interconnect).opcode(),
            machine(&final(self).cpu, &final(self).interconnect) == machine(
                &old(self).cpu,
                &old(self).interconnect,
            ).step(),
            final(self).cpu@.cycles == old(self).cpu@.cycles,
            old(self).interconnect.ppu.cycles >= 341 ==> {
                &&& final(self).interconnect.ppu.cycles == 3
                &&& final(self).interconnect.ppu.current_scanline
                    == old(self).interconnect.ppu.current_scanline.next_spec()
            },
            old(self).interconnect.ppu.cycles < 341 ==> {
                &&& final(self).interconnect.ppu.cycles == old(self).interconnect.ppu.cycles + 3
                &&& final(self).interconnect.ppu.current_scanline
                    == old(self).interconnect.ppu.current_scanline
            },
    {
        let opcode = self.cpu.step(&mut self.interconnect);
        let cycles = self.cpu.cycles();
        self.interconnect.ppu.step(&mut self.interconnect.cart, (cycles % 256) as u8);
        opcode
    }
}

} // verus!
