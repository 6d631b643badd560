//! Cartridge mappers: how the cartridge answers reads of PRG-ROM and CHR.
use vstd::prelude::*;
use crate::ines::InesRom;

verus! {

/// What it means for a mapper to read a byte of PRG-ROM or of CHR.
pub trait Mapper {
    spec fn rom_readable(&self, addr: u16) -> bool;

    spec fn rom_byte(&self, addr: u16) -> u8;

    spec fn chr_readable(&self, addr: u16) -> bool;

    spec fn chr_byte(&self, addr: u16) -> u8;

    fn read_rom_byte(&self, addr: u16) -> (r: u8)
        requires
            self.rom_readable(addr),
        ensures
            r == self.rom_byte(addr);

    fn read_chr_byte(&self, addr: u16) -> (r: u8)
        requires
            self.chr_readable(addr),
        ensures
            r == self.chr_byte(addr);
}

/// Picks the mapper that the ROM's header names. Only mapper 0 exists.
pub fn choose_mapper(rom: &InesRom) -> (r: Mapper0)
    requires
        rom.mapper_number == 0,
    ensures
        r.prg() == rom.prg_rom@,
        r.chr() == rom.chr@,
{
    Mapper0::new(rom)
}

/// Mapper 0: PRG-ROM at $8000 (32 KiB) or at $C000 (16 KiB), CHR read
/// directly.
pub struct Mapper0 {
    prg_rom: Vec<u8>,
    chr_rom: Vec<u8>,
}

impl Mapper0 {
    pub closed spec fn prg(&self) -> Seq<u8> {
        self.prg_rom@
    }

    pub closed spec fn chr(&self) -> Seq<u8> {
        self.chr_rom@
    }

    /// Where PRG-ROM starts in the CPU's address space.
    pub open spec fn rom_base(&self) -> int {
        if self.prg().len() == 0x8000 { 0x8000 } else { 0xC000 }
    }

    /// Copies the ROM's PRG-ROM and CHR.
    pub fn new(rom: &InesRom) -> (r: Mapper0)
        ensures
            r.prg() == rom.prg_rom@,
            r.chr() == rom.chr@,
    {
        let prg_rom = rom.prg_rom.clone();
        let chr_rom = rom.chr.clone();
        assert(prg_rom@ =~= rom.prg_rom@);
        assert(chr_rom@ =~= rom.chr@);
        Mapper0 { prg_rom: prg_rom, chr_rom: chr_rom }
    }
}

impl Mapper for Mapper0 {
    open spec fn rom_readable(&self, addr: u16) -> bool {
        self.rom_base() <= addr < self.rom_base() + self.prg().len()
    }

    open spec fn rom_byte(&self, addr: u16) -> u8 {
        self.prg()[addr - self.rom_base()]
    }

    open spec fn chr_readable(&self, addr: u16) -> bool {
        addr < self.chr().len()
    }

    open spec fn chr_byte(&self, addr: u16) -> u8 {
        self.chr()[addr as int]
    }

    /// A 32 KiB ROM fills $8000-$FFFF; a smaller one starts at $C000.
    fn read_rom_byte(&self, addr: u16) -> (r: u8) {
        if self.prg_rom.len() == 0x8000 {
            self.prg_rom[addr as usize - 0x8000]
        } else {
            self.prg_rom[addr as usize - 0xC000]
        }
    }

    fn read_chr_byte(&self, addr: u16) -> (r: u8) {
        self.chr_rom[addr as usize]
    }
}

/// Where mapper 0 puts PRG-ROM: a 32 KiB ROM fills $8000-$FFFF and a 16 KiB
/// one fills $C000-$FFFF, so that either way the last bytes of the ROM,
/// which hold the interrupt vectors, end at $FFFF.
pub proof fn law_prg_placement(mp: Mapper0, i: int)
    ensures
        mp.prg().len() == 0x8000 && 0 <= i < 0x8000 ==> mp.rom_readable((0x8000 + i) as u16) && mp.rom_byte(
            (0x8000 + i) as u16,
        ) == mp.prg()[i],
        mp.prg().len() == 0x4000 && 0 <= i < 0x4000 ==> mp.rom_readable((0xC000 + i) as u16) && mp.rom_byte(
            (0xC000 + i) as u16,
        ) == mp.prg()[i],
        mp.prg().len() == 0x4000 && 0x8000 <= i < 0xC000 ==> !mp.rom_readable(i as u16),
        mp.prg().len() == 0x4000 || mp.prg().len() == 0x8000 ==> mp.rom_byte(0xFFFF) == mp.prg()[mp.prg().len()
            - 1],
{
}

} // verus!
