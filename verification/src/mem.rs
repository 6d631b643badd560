//! A flat model of the NES memories: CPU RAM, PRG-RAM, PRG-ROM and CHR.
use vstd::prelude::*;

verus! {

pub const RAM_SIZE: usize = 0x800;
pub const PRG_RAM_SIZE: usize = 0x2000;
/// CHR memory gets a fixed size, not one read from the cartridge.
pub const CHR_MEM_SIZE: usize = 0x8000;

pub struct Memory {
    cpu_ram: Vec<u8>,

    prg_ram: Vec<u8>,

    prg_rom: Vec<u8>,

    chr_mem: Vec<u8>,
}

impl Default for Memory {
    /// Every memory empty.
    fn default() -> (r: Memory)
        ensures
            r.cpu_ram().len() == 0,
            r.prg_ram().len() == 0,
            r.prg_rom().len() == 0,
            r.chr_mem().len() == 0,
    {
        Memory { cpu_ram: Vec::new(), prg_ram: Vec::new(), prg_rom: Vec::new(), chr_mem: Vec::new() }
    }
}

impl Memory {
    pub closed spec fn cpu_ram(&self) -> Seq<u8> {
        self.cpu_ram@
    }

    pub closed spec fn prg_ram(&self) -> Seq<u8> {
        self.prg_ram@
    }

    pub closed spec fn prg_rom(&self) -> Seq<u8> {
        self.prg_rom@
    }

    pub closed spec fn chr_mem(&self) -> Seq<u8> {
        self.chr_mem@
    }

    /// Zeroes the RAMs and CHR, and takes `cart_rom` as PRG-ROM.
    pub fn load_cartridge(&mut self, cart_rom: Vec<u8>)
        ensures
            final(self).cpu_ram() == Seq::new(RAM_SIZE as nat, |i: int| 0u8),
            final(self).prg_ram() == Seq::new(PRG_RAM_SIZE as nat, |i: int| 0u8),
            final(self).prg_rom() == cart_rom@,
            final(self).chr_mem() == Seq::new(CHR_MEM_SIZE as nat, |i: int| 0u8),
    {
        self.cpu_ram = vec![0u8; RAM_SIZE];
        self.prg_ram = vec![0u8; PRG_RAM_SIZE];
        self.prg_rom = cart_rom;
        self.chr_mem = vec![0u8; CHR_MEM_SIZE];
        assert(self.cpu_ram@ =~= Seq::new(RAM_SIZE as nat, |i: int| 0u8));
        assert(self.prg_ram@ =~= Seq::new(PRG_RAM_SIZE as nat, |i: int| 0u8));
        assert(self.chr_mem@ =~= Seq::new(CHR_MEM_SIZE as nat, |i: int| 0u8));
    }

    /// The PRG-ROM byte at `addr`, as an instruction byte.
    pub fn read_instr(&self, addr: u16) -> (r: u8)
        requires
            addr < self.prg_rom().len(),
        ensures
            r == self.prg_rom()[addr as int],
    {
        self.prg_rom[addr as usize]
    }

    pub fn read_ram(&self, addr: u16) -> (r: u8)
        requires
            addr < self.cpu_ram().len(),
        ensures
            r == self.cpu_ram()[addr as int],
    {
        self.cpu_ram[addr as usize]
    }

    /// The PRG-ROM byte at `addr`, for the rest of an instruction.
    pub fn rom_byte(&self, addr: u16) -> (r: u8)
        requires
            addr < self.prg_rom().len(),
        ensures
            r == self.prg_rom()[addr as int],
    {
        self.prg_rom[addr as usize]
    }

    /// The little-endian PRG-ROM word at `addr`.
    pub fn rom_word(&self, addr: u16) -> (r: u16)
        requires
            addr < 0xFFFF,
            addr + 1 < self.prg_rom().len(),
        ensures
            r == self.prg_rom()[addr as int] + 256 * self.prg_rom()[addr + 1],
    {
        (self.prg_rom[(addr + 1) as usize] as u16) * 256 + self.prg_rom[addr as usize] as u16
    }
}

} // verus!
