//! Cartridge mappers with nametable VRAM of their own: a mapper answers
//! the CPU's PRG reads and writes and the PPU's pattern, nametable and
//! palette reads.
use vstd::prelude::*;

verus! {

pub const VRAM_SIZE: usize = 0x800;

/// Nametable mirroring as a cartridge header gives it.
#[derive(Debug, Clone, Copy, PartialEq, Eq, Structural)]
pub enum Mirroring {
    Horizontal,
    Vertical,
    FourWay,
}

/// The header fields a mapper is made from.
#[derive(Debug, Clone, Copy)]
pub struct RomHeader {
    pub mapper_number: u8,
    /// In 16 KiB banks.
    pub prg_rom_size: u8,
    /// In 8 KiB banks.
    pub prg_ram_size: u8,
    /// In 8 KiB banks.
    pub chr_mem_size: u8,
    pub mirroring: Mirroring,
}

/// The reads and writes a mapper answers.
pub trait Mapper {
    spec fn rom_readable(&self, addr: u16) -> bool;

    spec fn rom_byte(&self, addr: u16) -> u8;

    spec fn ram_view(&self) -> Seq<u8>;

    spec fn pattern_readable(&self, addr: u16) -> bool;

    spec fn pattern_byte(&self, addr: u16) -> u8;

    spec fn nametable_readable(&self, addr: u16) -> bool;

    spec fn nametable_byte(&self, addr: u16) -> u8;

    spec fn palette_readable(&self, addr: u16) -> bool;

    spec fn palette_byte(&self, addr: u16) -> u8;

    /// All but PRG-RAM is the same in `self` and `other`.
    spec fn same_but_ram(&self, other: &Self) -> bool;

    /// `self` holds PRG-ROM and CHR taken from the file `rom`, and is
    /// otherwise `before`.
    spec fn loaded_from(&self, before: &Self, rom: Seq<u8>) -> bool;

    // CPU Helpers
    fn prg_rom_read(&self, addr: u16) -> (r: u8)
        requires
            self.rom_readable(addr),
        ensures
            r == self.rom_byte(addr);

    fn prg_ram_read(&self, addr: u16) -> (r: u8)
        requires
            addr < self.ram_view().len(),
        ensures
            r == self.ram_view()[addr as int];

    fn prg_ram_write(&mut self, addr: u16, val: u8)
        requires
            addr < old(self).ram_view().len(),
        ensures
            final(self).ram_view() == old(self).ram_view().update(addr as int, val),
            final(self).same_but_ram(old(self)),
    ;

    // PPU Helpers
    fn get_pattern_table_byte(&self, addr: u16) -> (r: u8)
        requires
            self.pattern_readable(addr),
        ensures
            r == self.pattern_byte(addr);

    fn get_nametable_byte(&self, addr: u16) -> (r: u8)
        requires
            self.nametable_readable(addr),
        ensures
            r == self.nametable_byte(addr);

    fn get_palette_byte(&self, addr: u16) -> (r: u8)
        requires
            self.palette_readable(addr),
        ensures
            r == self.palette_byte(addr);

    // Initialization
    fn load_rom(&mut self, rom: Vec<u8>)
        requires
            rom@.len() >= 24592,
        ensures
            final(self).loaded_from(old(self), rom@);
}

/// Picks the mapper that the header names. Only mapper 0 exists.
pub fn choose_mapper(rom_header: &RomHeader) -> (r: Mapper0)
    requires
        rom_header.mapper_number == 0,
    ensures
        r.made_from(*rom_header),
{
    Mapper0::new(rom_header)
}

/// The offset in VRAM of nametable address `addr`. Vertical mirroring
/// makes $2000 = $2800 and $2400 = $2C00; horizontal mirroring makes $2000 =
/// $2400 and $2800 = $2C00.
pub open spec fn nametable_index(mirroring: Mirroring, addr: u16) -> int {
    match mirroring {
        Mirroring::Vertical => if addr <= 0x27ff { addr - 0x2000 } else { addr - 0x2800 },
        _ => if addr <= 0x23ff {
            addr - 0x2000
        } else if addr <= 0x2bff {
            addr - 0x2400
        } else {
            addr - 0x2800
        },
    }
}

/// Mapper 0: PRG-ROM, PRG-RAM, CHR memory and the 2 KiB of nametable VRAM,
/// with the mirroring the header gives.
pub struct Mapper0 {
    prg_ram: Vec<u8>,
    prg_rom: Vec<u8>,
    chr_mem: Vec<u8>,
    vram: Vec<u8>,
    mirroring: Mirroring,
}

impl Mapper0 {
    pub closed spec fn prg_ram(&self) -> Seq<u8> {
        self.prg_ram@
    }

    pub closed spec fn prg_rom(&self) -> Seq<u8> {
        self.prg_rom@
    }

    pub closed spec fn chr_mem(&self) -> Seq<u8> {
        self.chr_mem@
    }

    pub closed spec fn vram(&self) -> Seq<u8> {
        self.vram@
    }

    pub closed spec fn mirroring(&self) -> Mirroring {
        self.mirroring
    }

    /// Zeroed memories of the sizes the header gives, and VRAM.
    pub open spec fn made_from(&self, h: RomHeader) -> bool {
        &&& self.prg_ram() == Seq::new(h.prg_ram_size as nat * 8192, |i: int| 0u8)
        &&& self.prg_rom() == Seq::new(h.prg_rom_size as nat * 16384, |i: int| 0u8)
        &&& self.chr_mem() == Seq::new(h.chr_mem_size as nat * 8192, |i: int| 0u8)
        &&& self.vram() == Seq::new(VRAM_SIZE as nat, |i: int| 0u8)
        &&& self.mirroring() == h.mirroring
    }

    pub fn new(rom_header: &RomHeader) -> (r: Mapper0)
        ensures
            r.made_from(*rom_header),
    {
        let prg_ram_size = rom_header.prg_ram_size as usize * 8192;
        let prg_rom_size = rom_header.prg_rom_size as usize * 16384;
        let chr_mem_size = rom_header.chr_mem_size as usize * 8192;
        let r = Mapper0 {
            prg_ram: vec![0u8; prg_ram_size],
            prg_rom: vec![0u8; prg_rom_size],
            chr_mem: vec![0u8; chr_mem_size],
            vram: vec![0u8; VRAM_SIZE],
            mirroring: rom_header.mirroring,
        };
        assert(r.prg_ram@ =~= Seq::new(rom_header.prg_ram_size as nat * 8192, |i: int| 0u8));
        assert(r.prg_rom@ =~= Seq::new(rom_header.prg_rom_size as nat * 16384, |i: int| 0u8));
        assert(r.chr_mem@ =~= Seq::new(rom_header.chr_mem_size as nat * 8192, |i: int| 0u8));
        assert(r.vram@ =~= Seq::new(VRAM_SIZE as nat, |i: int| 0u8));
        r
    }

    /// The index into PRG-ROM of `addr`: the low 15 bits for a ROM larger
    /// than 16392 bytes, the low 14 bits otherwise.
    pub open spec fn rom_index(&self, addr: u16) -> int {
        if self.prg_rom().len() > 16392 { (addr & 0x7fff) as int } else { (addr & 0x3fff) as int }
    }
}

impl Mapper for Mapper0 {
    open spec fn rom_readable(&self, addr: u16) -> bool {
        addr >= 0x8000 && self.rom_index(addr) < self.prg_rom().len()
    }

    open spec fn rom_byte(&self, addr: u16) -> u8 {
        self.prg_rom()[self.rom_index(addr)]
    }

    open spec fn ram_view(&self) -> Seq<u8> {
        self.prg_ram()
    }

    open spec fn pattern_readable(&self, addr: u16) -> bool {
        addr <= 0x2000 && addr < self.chr_mem().len()
    }

    open spec fn pattern_byte(&self, addr: u16) -> u8 {
        self.chr_mem()[addr as int]
    }

    open spec fn nametable_readable(&self, addr: u16) -> bool {
        &&& 0x2000 <= addr <= 0x2fff
        &&& self.mirroring() != Mirroring::FourWay
        &&& nametable_index(self.mirroring(), addr) < self.vram().len()
    }

    open spec fn nametable_byte(&self, addr: u16) -> u8 {
        self.vram()[nametable_index(self.mirroring(), addr)]
    }

    open spec fn palette_readable(&self, addr: u16) -> bool {
        0x3f00 <= addr <= 0x3f1f && addr < self.chr_mem().len()
    }

    open spec fn palette_byte(&self, addr: u16) -> u8 {
        self.chr_mem()[addr as int]
    }

    open spec fn same_but_ram(&self, other: &Self) -> bool {
        &&& self.prg_rom() == other.prg_rom()
        &&& self.chr_mem() == other.chr_mem()
        &&& self.vram() == other.vram()
        &&& self.mirroring() == other.mirroring()
    }

    open spec fn loaded_from(&self, before: &Self, rom: Seq<u8>) -> bool {
        &&& self.prg_rom() == rom.subrange(16, 16400)
        &&& self.chr_mem() == rom.subrange(16400, 24592)
        &&& self.prg_ram() == before.prg_ram()
        &&& self.vram() == before.vram()
        &&& self.mirroring() == before.mirroring()
    }

    /// Reads below $8000 belong to RAM.
    fn prg_rom_read(&self, addr: u16) -> (r: u8) {
        if self.prg_rom.len() > 16392 {
            self.prg_rom[(addr & 0x7fff) as usize]
        } else {
            self.prg_rom[(addr & 0x3fff) as usize]
        }
    }

    fn prg_ram_read(&self, addr: u16) -> (r: u8) {
        self.prg_ram[addr as usize]
    }

    fn prg_ram_write(&mut self, addr: u16, val: u8) {
        self.prg_ram.set(addr as usize, val);
    }

    /// Pattern tables end at $2000.
    fn get_pattern_table_byte(&self, addr: u16) -> (r: u8) {
        self.chr_mem[addr as usize]
    }

    fn get_nametable_byte(&self, addr: u16) -> (r: u8) {
        match self.mirroring {
            Mirroring::Vertical => {
                if addr <= 0x23ff {
                    // 0x2000 = 0x2800 and 0x2400 = 0x2c00
                    self.vram[(addr - 0x2000) as usize]
                } else if addr <= 0x27ff {
                    self.vram[(addr - 0x2000) as usize]
                } else if addr <= 0x2bff {
                    self.vram[(addr - 0x2000 - 0x0800) as usize]
                } else {
                    self.vram[(addr - 0x2000 - 0x0800) as usize]
                }
            },
            _ => {
                if addr <= 0x23ff {
                    // 0x2000 = 0x2400 and 0x2800 = 0x2c00
                    self.vram[(addr - 0x2000) as usize]
                } else if addr <= 0x27ff {
                    self.vram[(addr - 0x2000 - 0x0400) as usize]
                } else if addr <= 0x2bff {
                    self.vram[(addr - 0x2000 - 0x0400) as usize]
                } else {
                    self.vram[(addr - 0x2000 - 0x0800) as usize]
                }
            },
        }
    }

    /// Palette RAM is $3F00-$3F1F, read from CHR memory.
    fn get_palette_byte(&self, addr: u16) -> (r: u8) {
        self.chr_mem[addr as usize]
    }

    fn load_rom(&mut self, rom: Vec<u8>) {
        self.prg_rom = slice_to_vec(&rom, 16, 16400);
        self.chr_mem = slice_to_vec(&rom, 16400, 24592);  // 8kB
    }
}

fn slice_to_vec(rom: &Vec<u8>, start: usize, end: usize) -> (r: Vec<u8>)
    requires
        start <= end <= rom@.len(),
    ensures
        r@ == rom@.subrange(start as int, end as int),
{
    crate::rom::copy_range(rom.as_slice(), start, end - start)
}

/// Every nametable address of a two-screen mirroring lands in the 2 KiB of
/// VRAM. Under vertical mirroring $2000-$27FF and $2800-$2FFF show the same
/// bytes; under horizontal mirroring $2000-$23FF and $2400-$27FF do, and so
/// do $2800-$2BFF and $2C00-$2FFF.
pub proof fn law_nametable_mirroring(m: Mapper0, addr: u16)
    requires
        m.vram().len() == VRAM_SIZE,
    ensures
        m.mirroring() != Mirroring::FourWay && 0x2000 <= addr <= 0x2fff ==> m.nametable_readable(addr),
        m.mirroring() == Mirroring::Vertical && 0x2000 <= addr <= 0x27ff ==> {
            &&& m.nametable_readable((addr + 0x800) as u16)
            &&& m.nametable_byte(addr) == m.nametable_byte((addr + 0x800) as u16)
        },
        m.mirroring() == Mirroring::Horizontal && (0x2000 <= addr <= 0x23ff || 0x2800 <= addr <= 0x2bff)
            ==> {
            &&& m.nametable_readable((addr + 0x400) as u16)
            &&& m.nametable_byte(addr) == m.nametable_byte((addr + 0x400) as u16)
        },
{
}

proof fn lemma_low_bits()
    by (bit_vector)
    ensures
        forall|a: u16| 0x8000 <= a < 0xC000 ==> #[trigger] (a & 0x3fff) == ((a + 0x4000) as u16 & 0x3fff) && a & 0x3fff < 0x4000,
{
}

/// A PRG-ROM of 16 KiB or less is read through the low 14 address bits, so
/// $C000-$FFFF mirrors $8000-$BFFF.
pub proof fn law_prg_mirror(m: Mapper0, addr: u16)
    requires
        m.prg_rom().len() == 16384,
        0x8000 <= addr < 0xC000,
    ensures
        m.rom_readable(addr),
        m.rom_readable((addr + 0x4000) as u16),
        m.rom_byte(addr) == m.rom_byte((addr + 0x4000) as u16),
{
    lemma_low_bits();
    assert((addr & 0x3fff) == ((addr + 0x4000) as u16 & 0x3fff));
    assert(((addr + 0x4000) as u16 & 0x3fff) < 0x4000);
}

} // verus!
