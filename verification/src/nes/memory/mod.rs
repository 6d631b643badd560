//! The memories of the NES behind the CPU's bus: its RAM, the PPU's
//! registers, the I/O registers and the cartridge's PRG-ROM.
pub mod constants;
pub mod mapper;

use vstd::prelude::*;
use crate::ines::InesRom;
use crate::nes::io::Io;
use crate::nes::ppu::{Ppu, Scanline, ppu_reg};
use self::constants::{ZERO_PAGE_END, ZERO_PAGE_SIZE, STACK_BEG, STACK_END, STACK_SIZE, RAM_BEG, RAM_END, RAM_SIZE};
use self::mapper::{Mapper, Mapper0, choose_mapper};

verus! {

/// What the CPU's bus holds, as contracts see it: the 2 KiB of RAM, the PPU
/// and the cartridge's mapper.
pub struct MemView {
    pub ram: Seq<u8>,
    pub ppu: Ppu,
    pub prg: Mapper0,
}

/// The memories the CPU reaches. Fields are public so that contracts can
/// speak of them.
pub struct Memory {
    pub ppu: Ppu,
    pub io: Io,
    pub ram: Ram,
    pub prg: Mapper0,
}

impl View for Memory {
    type V = MemView;

    open spec fn view(&self) -> MemView {
        MemView { ram: self.ram@, ppu: self.ppu, prg: self.prg }
    }
}

impl Memory {
    pub open spec fn wf(&self) -> bool {
        self.ram.wf() && self.ram@.len() == 0x800 && self.ppu.wf()
    }

    /// Zeroed RAM, a fresh PPU and the ROM's cartridge. The PPU and the CPU
    /// each get the ROM's mapper.
    pub fn new(rom: &InesRom) -> (r: Memory)
        requires
            rom.mapper_number == 0,
        ensures
            r.wf(),
            r@.ram == Seq::new(0x800, |i: int| 0u8),
            r@.prg.prg() == rom.prg_rom@,
            r@.prg.chr() == rom.chr@,
            r.ppu.status() == 0,
            r.ppu.cycle_count() == 0,
            r.ppu.line() == Scanline::Visible(0),
    {
        let mirroring = rom.mirroring();
        Memory {
            ppu: Ppu::new(choose_mapper(rom), mirroring),
            io: Io::new(),
            ram: Ram::new(),
            prg: choose_mapper(rom),
        }
    }

    pub fn read_ppu_byte(&mut self, addr: u16) -> (r: u8)
        requires
            ppu_reg(addr),
        ensures
            r == old(self).ppu.read_value(addr),
            final(self)@ == (MemView { ppu: old(self).ppu.read_effect(addr), ..old(self)@ }),
            old(self).wf() ==> final(self).wf(),
    {
        self.ppu.read_byte(addr)
    }

    /// Writes to the PPU registers are ignored.
    pub fn write_ppu_byte(&mut self, addr: u16, val: u8)
        ensures
            *final(self) == *old(self),
    {
        self.ppu.write_byte(addr, val);
    }

    /// Reads of the I/O registers give 0 and change nothing.
    pub fn read_io_byte(&mut self, addr: u16) -> (r: u8)
        ensures
            r == 0,
            *final(self) == *old(self),
    {
        self.io.read_byte(addr)
    }

    /// Writes to the I/O registers are ignored.
    pub fn write_io_byte(&mut self, addr: u16, val: u8)
        ensures
            *final(self) == *old(self),
    {
        self.io.write_byte(addr, val);
    }

    /// Reads a byte from RAM.
    pub fn read_ram_byte(&mut self, addr: u16) -> (r: u8)
        requires
            old(self).wf(),
            addr <= RAM_END,
        ensures
            r == old(self)@.ram[addr as int],
            *final(self) == *old(self),
    {
        self.ram.read_byte(addr)
    }

    /// Writes a byte to RAM.
    pub fn write_ram_byte(&mut self, addr: u16, val: u8)
        requires
            old(self).wf(),
            addr <= RAM_END,
        ensures
            final(self).wf(),
            final(self)@ == (MemView { ram: old(self)@.ram.update(addr as int, val), ..old(self)@ }),
    {
        self.ram.write_byte(addr, val);
    }

    /// Reads a byte from PRG-ROM as the mapper places it.
    pub fn read_rom_byte(&self, addr: u16) -> (r: u8)
        requires
            self.prg.rom_readable(addr),
        ensures
            r == self.prg.rom_byte(addr),
    {
        self.prg.read_rom_byte(addr)
    }
}

/// The CPU's 2 KiB of RAM, kept as zero page, stack page and the rest.
pub struct Ram {
    zero_page: Vec<u8>,
    stack: Vec<u8>,
    ram: Vec<u8>,
}

impl View for Ram {
    type V = Seq<u8>;

    closed spec fn view(&self) -> Seq<u8> {
        self.zero_page@ + self.stack@ + self.ram@
    }
}

impl Ram {
    pub closed spec fn wf(&self) -> bool {
        &&& self.zero_page@.len() == ZERO_PAGE_SIZE
        &&& self.stack@.len() == STACK_SIZE
        &&& self.ram@.len() == RAM_SIZE
    }

    /// Zeroed RAM.
    pub fn new() -> (r: Ram)
        ensures
            r.wf(),
            r@ == Seq::new(0x800, |i: int| 0u8),
            r@.len() == 0x800,
    {
        let r = Ram {
            zero_page: vec![0u8; ZERO_PAGE_SIZE],
            stack: vec![0u8; STACK_SIZE],
            ram: vec![0u8; RAM_SIZE],
        };
        assert(r@ =~= Seq::new(0x800, |i: int| 0u8));
        r
    }

    /// Reads a byte from RAM.
    pub fn read_byte(&mut self, addr: u16) -> (r: u8)
        requires
            old(self).wf(),
            addr <= RAM_END,
        ensures
            r == old(self)@[addr as int],
            *final(self) == *old(self),
            final(self)@.len() == 0x800,
    {
        if addr <= ZERO_PAGE_END {
            self.zero_page[addr as usize]
        } else if addr <= STACK_END {
            let rel_addr = (addr - STACK_BEG) as usize;
            self.stack[rel_addr]
        } else {
            let rel_addr = (addr - RAM_BEG) as usize;
            self.ram[rel_addr]
        }
    }

    /// Writes a byte to RAM.
    pub fn write_byte(&mut self, addr: u16, val: u8)
        requires
            old(self).wf(),
            addr <= RAM_END,
        ensures
            final(self).wf(),
            final(self)@ == old(self)@.update(addr as int, val),
            final(self)@.len() == 0x800,
    {
        if addr <= ZERO_PAGE_END {
            self.zero_page.set(addr as usize, val);
        } else if addr <= STACK_END {
            let rel_addr = (addr - STACK_BEG) as usize;
            self.stack.set(rel_addr, val);
        } else {
            let rel_addr = (addr - RAM_BEG) as usize;
            self.ram.set(rel_addr, val);
        }
        assert(self@ =~= old(self)@.update(addr as int, val));
    }
}

} // verus!
