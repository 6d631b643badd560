//! The cartridge: PRG-ROM, PRG-RAM and CHR-ROM behind mapper 0.
use vstd::prelude::*;
use crate::nes::KILOBYTE;
use crate::rom::Rom;

verus! {

/// What a cartridge holds.
#[verifier::ext_equal]
pub struct CartView {
    pub prg_rom: Seq<u8>,
    pub prg_ram: Seq<u8>,
    pub chr_rom: Seq<u8>,
}

/// Whether `addr` falls in the PRG-RAM window $6000..$7FFE. The window's
/// upper test is strict, so $7FFF lies outside it.
pub open spec fn in_prg_ram(addr: u16) -> bool {
    0x6000 <= addr && addr < 0x7FFF
}

/// The CHR index that `addr` selects: the address minus $2000, wrapping
/// around 16 bits.
pub open spec fn chr_index(addr: u16) -> int {
    (addr as int + 0xE000) % 0x10000
}

impl CartView {
    pub open spec fn wf(self) -> bool {
        self.prg_ram.len() == 8192
    }

    /// The CPU addresses at which the cartridge answers a PRG read or write.
    pub open spec fn prg_readable(self, addr: u16) -> bool {
        ||| in_prg_ram(addr)
        ||| (addr >= 0x8000 && addr - 0x8000 < self.prg_rom.len())
    }

    /// The byte a PRG read at `addr` returns.
    pub open spec fn prg_peek(self, addr: u16) -> u8 {
        if in_prg_ram(addr) {
            self.prg_ram[addr - 0x6000]
        } else {
            self.prg_rom[addr - 0x8000]
        }
    }

    /// The cartridge after a PRG write of `val` at `addr`.
    pub open spec fn prg_poke(self, addr: u16, val: u8) -> CartView {
        if in_prg_ram(addr) {
            CartView { prg_ram: self.prg_ram.update(addr - 0x6000, val), ..self }
        } else {
            CartView { prg_rom: self.prg_rom.update(addr - 0x8000, val), ..self }
        }
    }

    /// The addresses at which a CHR read or write succeeds.
    pub open spec fn chr_readable(self, addr: u16) -> bool {
        addr < 0x2000 && chr_index(addr) < self.chr_rom.len()
    }
}

/// Mapper 0 (NROM): no bank switching.
pub struct Mapper000 {
    prg_rom: Vec<u8>,
    prg_ram: Vec<u8>,
    chr_rom: Vec<u8>,
}

impl View for Mapper000 {
    type V = CartView;

    closed spec fn view(&self) -> CartView {
        CartView { prg_rom: self.prg_rom@, prg_ram: self.prg_ram@, chr_rom: self.chr_rom@ }
    }
}

/// The PRG-ROM image mapper 0 exposes for a ROM's PRG banks: a single 16 KiB
/// bank (or less) is stored twice, so that $C000 mirrors $8000.
pub open spec fn mapped_prg(prg: Seq<u8>) -> Seq<u8> {
    if prg.len() <= 16384 {
        prg + prg
    } else {
        prg
    }
}

/// Appends all of `src` to `dst`.
fn extend_from(dst: &mut Vec<u8>, src: &Vec<u8>)
    ensures
        final(dst)@ == old(dst)@ + src@,
{
    let mut i: usize = 0;
    let ghost start = dst@;
    while i < src.len()
        invariant
            i <= src.len(),
            dst@ == start + src@.subrange(0, i as int),
        decreases src.len() - i,
    {
        dst.push(src[i]);
        i = i + 1;
    }
    assert(src@.subrange(0, src.len() as int) =~= src@);
}

impl Mapper000 {
    pub fn new(rom: Rom) -> (r: Self)
        ensures
            r@.prg_rom == mapped_prg(rom.prg_rom@),
            r@.prg_ram == Seq::new(8192, |i: int| 0u8),
            r@.chr_rom == rom.chr_rom@,
    {
        let prg_ram: Vec<u8> = vec![0u8; 8 * KILOBYTE];
        let mut temp: Vec<u8> = Vec::new();
        if rom.prg_rom.len() <= 16 * KILOBYTE {
            // Duplicate instead of dealing with mirroring arithmetic
            extend_from(&mut temp, &rom.prg_rom);
            extend_from(&mut temp, &rom.prg_rom);
        } else {
            extend_from(&mut temp, &rom.prg_rom);
        }
        assert(temp@ =~= mapped_prg(rom.prg_rom@));
        let r = Mapper000 { prg_rom: temp, prg_ram: prg_ram, chr_rom: rom.chr_rom };
        assert(r@.prg_ram =~= Seq::new(8192, |i: int| 0u8));
        r
    }

    fn prg_readable(&self, addr: u16) -> (r: bool)
        ensures
            r == self@.prg_readable(addr),
    {
        (addr >= 0x6000 && addr < 0x7FFF) || (addr >= 0x8000 && ((addr - 0x8000) as usize) < self.prg_rom.len())
    }

    fn prg_read(&self, addr: u16) -> (r: u8)
        requires
            self@.wf(),
            self@.prg_readable(addr),
        ensures
            r == self@.prg_peek(addr),
    {
        if addr >= 0x6000 && addr < 0x7FFF {
            self.prg_ram[(addr - 0x6000) as usize]
        } else {
            self.prg_rom[(addr - 0x8000) as usize]
        }
    }

    fn prg_write(&mut self, addr: u16, val: u8)
        requires
            old(self)@.wf(),
            old(self)@.prg_readable(addr),
        ensures
            final(self)@ == old(self)@.prg_poke(addr, val),
    {
        if addr >= 0x6000 && addr < 0x7FFF {
            self.prg_ram.set((addr - 0x6000) as usize, val);
        } else {
            self.prg_rom.set((addr - 0x8000) as usize, val);
        }
    }

    fn chr_read(&self, addr: u16) -> (r: u8)
        requires
            self@.chr_readable(addr),
        ensures
            r == self@.chr_rom[chr_index(addr)],
    {
        self.chr_rom[addr.wrapping_sub(0x2000) as usize]
    }

    fn chr_write(&mut self, addr: u16, val: u8)
        requires
            old(self)@.chr_readable(addr),
        ensures
            final(self)@ == (CartView { chr_rom: old(self)@.chr_rom.update(chr_index(addr), val), ..old(self)@ }),
    {
        self.chr_rom.set(addr.wrapping_sub(0x2000) as usize, val);
    }
}

/// A game cartridge.
pub struct Cartridge {
    mapper: Mapper000,
}

impl View for Cartridge {
    type V = CartView;

    closed spec fn view(&self) -> CartView {
        self.mapper@
    }
}

impl Cartridge {
    /// Builds the cartridge for a ROM. Only mapper 0 is implemented.
    pub fn new(rom: Rom) -> (r: Self)
        requires
            rom.header.mapper_no == 0,
        ensures
            r@.wf(),
            r@.prg_rom == mapped_prg(rom.prg_rom@),
            r@.prg_ram == Seq::new(8192, |i: int| 0u8),
            r@.chr_rom == rom.chr_rom@,
    {
        let m = Mapper000::new(rom);
        Cartridge { mapper: m }
    }

    /// Whether a PRG read or write at `addr` succeeds.
    pub fn prg_readable(&self, addr: u16) -> (r: bool)
        ensures
            r == self@.prg_readable(addr),
    {
        self.mapper.prg_readable(addr)
    }

    /// Reads PRG memory: PRG-RAM at $6000..$7FFE, PRG-ROM from $8000.
    pub fn prg_read(&self, addr: u16) -> (r: u8)
        requires
            self@.wf(),
            self@.prg_readable(addr),
        ensures
            r == self@.prg_peek(addr),
    {
        self.mapper.prg_read(addr)
    }

    /// Writes PRG memory: PRG-RAM at $6000..$7FFE, PRG-ROM from $8000.
    pub fn prg_write(&mut self, addr: u16, val: u8)
        requires
            old(self)@.wf(),
            old(self)@.prg_readable(addr),
        ensures
            final(self)@ == old(self)@.prg_poke(addr, val),
    {
        self.mapper.prg_write(addr, val);
    }

    /// Reads CHR memory at `addr` minus $2000 (wrapping).
    pub fn chr_read(&self, addr: u16) -> (r: u8)
        requires
            self@.chr_readable(addr),
        ensures
            r == self@.chr_rom[chr_index(addr)],
    {
        self.mapper.chr_read(addr)
    }

    /// Writes CHR memory at `addr` minus $2000 (wrapping).
    pub fn chr_write(&mut self, addr: u16, val: u8)
        requires
            old(self)@.chr_readable(addr),
        ensures
            final(self)@ == (CartView { chr_rom: old(self)@.chr_rom.update(chr_index(addr), val), ..old(self)@ }),
    {
        self.mapper.chr_write(addr, val);
    }
}


/// A PRG write is read back at the same address, and leaves every other
/// address as it was.
pub proof fn law_prg_write_read(cv: CartView, addr: u16, other: u16, val: u8)
    requires
        cv.wf(),
        cv.prg_readable(addr),
        cv.prg_readable(other),
    ensures
        cv.prg_poke(addr, val).prg_readable(other),
        cv.prg_poke(addr, val).prg_peek(addr) == val,
        other != addr ==> cv.prg_poke(addr, val).prg_peek(other) == cv.prg_peek(other),
{
}

/// With a single 16 KiB bank, $C000-$FFFF mirrors $8000-$BFFF.
pub proof fn law_prg_mirror(prg: Seq<u8>, cv: CartView, addr: u16)
    requires
        prg.len() == 16384,
        cv.prg_rom == mapped_prg(prg),
        0x8000 <= addr < 0xC000,
    ensures
        cv.prg_readable(addr),
        cv.prg_readable((addr + 0x4000) as u16),
        cv.prg_peek(addr) == cv.prg_peek((addr + 0x4000) as u16),
{
}


/// Mapper 0 shows PRG-ROM from $8000 on, byte for byte: byte `i` of the
/// ROM's PRG banks is read at $8000 + `i`. A ROM of 16 KiB or less is shown
/// again right after itself; a larger one is shown once, as it is.
pub proof fn law_prg_layout(prg: Seq<u8>, cv: CartView, i: int)
    requires
        cv.prg_rom == mapped_prg(prg),
        0 <= i < prg.len(),
        i < 0x8000,
    ensures
        cv.prg_readable((0x8000 + i) as u16),
        cv.prg_peek((0x8000 + i) as u16) == prg[i],
        prg.len() <= 16384 ==> {
            &&& cv.prg_readable((0x8000 + prg.len() + i) as u16)
            &&& cv.prg_peek((0x8000 + prg.len() + i) as u16) == prg[i]
        },
        prg.len() > 16384 ==> cv.prg_rom.len() == prg.len(),
{
}

} // verus!
