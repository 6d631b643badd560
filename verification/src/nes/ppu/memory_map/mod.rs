//! The PPU's own memory: pattern tables from the cartridge's CHR, 2 KiB of
//! nametable VRAM seen through the cartridge's mirroring, and palette RAM.
pub mod constants;

use vstd::prelude::*;
use crate::nes::memory::mapper::{Mapper, Mapper0};
use crate::nes::ppu::Mirroring;
use self::constants::{PAT_TABLE_1_END, NAMETABLE_0_BEG, NAMETABLE_0_END, NAMETABLE_1_END, NAMETABLE_2_END, NAMETABLE_3_END, NAMETABLE_MIRRORS_BEG, NAMETABLE_MIRRORS_END, PALETTE_RAM_BEG, PALETTE_RAM_END, PALETTE_MIRRORS_BEG};

verus! {

/// The VRAM offset of nametable address `addr` ($2000-$2FFF). Horizontal
/// mirroring folds $2800 onto $2000; vertical mirroring folds $2400 onto
/// $2000 and $2C00 onto $2800.
pub open spec fn vram_index(mirroring: Mirroring, addr: u16) -> int {
    match mirroring {
        Mirroring::Horizontal => if addr <= 0x27FF { addr - 0x2000 } else { addr - 0x2800 },
        _ => if addr <= 0x23FF {
            addr - 0x2000
        } else if addr <= 0x2BFF {
            addr - 0x2400
        } else {
            addr - 0x2800
        },
    }
}

pub open spec fn is_nametable(addr: u16) -> bool {
    NAMETABLE_0_BEG <= addr <= NAMETABLE_3_END
}

pub open spec fn is_nametable_mirror(addr: u16) -> bool {
    NAMETABLE_MIRRORS_BEG <= addr <= NAMETABLE_MIRRORS_END
}

pub struct MemoryMap {
    /// 2 KiB of VRAM, where the nametables live.
    vram: Vec<u8>,
    /// Palette RAM.
    palette: Vec<u8>,
    /// 256 bytes of object memory for sprite data.
    oam: Vec<u8>,
    /// CHR memory, from the cartridge.
    chr: Mapper0,
    mirroring: Mirroring,
}

impl MemoryMap {
    pub closed spec fn wf(&self) -> bool {
        &&& self.vram@.len() == 0x800
        &&& self.palette@.len() == 0x20
        &&& self.oam@.len() == 0x100
    }

    pub closed spec fn vram(&self) -> Seq<u8> {
        self.vram@
    }

    pub closed spec fn palette(&self) -> Seq<u8> {
        self.palette@
    }

    pub closed spec fn chr_mapper(&self) -> Mapper0 {
        self.chr
    }

    pub closed spec fn mirroring(&self) -> Mirroring {
        self.mirroring
    }

    /// A read of `addr` is defined: a CHR byte that exists, a nametable or
    /// its mirror under two-screen mirroring, or palette RAM and its mirrors.
    pub open spec fn readable(&self, addr: u16) -> bool {
        ||| addr <= PAT_TABLE_1_END && self.chr_mapper().chr_readable(addr)
        ||| (is_nametable(addr) || is_nametable_mirror(addr)) && self.mirroring() != Mirroring::FourWay
        ||| PALETTE_RAM_BEG <= addr
    }

    /// What a read of `addr` gives.
    pub open spec fn peek(&self, addr: u16) -> u8 {
        if addr <= PAT_TABLE_1_END {
            self.chr_mapper().chr_byte(addr)
        } else if is_nametable(addr) {
            self.vram()[vram_index(self.mirroring(), addr)]
        } else if is_nametable_mirror(addr) {
            self.vram()[vram_index(self.mirroring(), (addr - 0x1000) as u16)]
        } else if addr <= PALETTE_RAM_END {
            self.palette()[addr - PALETTE_RAM_BEG]
        } else {
            0
        }
    }

    /// A write of `addr` is defined: anywhere but palette RAM, and in the
    /// nametables only under two-screen mirroring.
    pub open spec fn writable(&self, addr: u16) -> bool {
        ||| addr <= PAT_TABLE_1_END
        ||| (is_nametable(addr) || is_nametable_mirror(addr)) && self.mirroring() != Mirroring::FourWay
        ||| PALETTE_MIRRORS_BEG <= addr
    }

    /// The VRAM offset a write of `addr` lands on, if any.
    pub open spec fn vram_target(&self, addr: u16) -> int {
        if is_nametable(addr) {
            vram_index(self.mirroring(), addr)
        } else {
            vram_index(self.mirroring(), (addr - 0x1000) as u16)
        }
    }

    pub fn new(mapper: Mapper0, mirroring: Mirroring) -> (r: MemoryMap)
        ensures
            r.wf(),
            r.vram() == Seq::new(0x800, |i: int| 0xFFu8),
            r.palette() == Seq::new(0x20, |i: int| 0u8),
            r.chr_mapper() == mapper,
            r.mirroring() == mirroring,
    {
        let r = MemoryMap {
            vram: vec![0xFFu8; 0x800],
            palette: vec![0u8; 0x20],
            oam: vec![0u8; 0x100],
            chr: mapper,
            mirroring: mirroring,
        };
        assert(r.vram@ =~= Seq::new(0x800, |i: int| 0xFFu8));
        assert(r.palette@ =~= Seq::new(0x20, |i: int| 0u8));
        r
    }

    /// Folds a nametable address onto VRAM according to the mirroring.
    fn vram_addr(&self, addr: u16) -> (r: u16)
        requires
            is_nametable(addr),
            self.mirroring() != Mirroring::FourWay,
        ensures
            r == vram_index(self.mirroring(), addr),
            r < 0x800,
    {
        match self.mirroring {
            // 0x2000 = 0x2800 and 0x2400 = 0x2C00
            Mirroring::Horizontal => {
                if addr <= 0x27FF {
                    addr - 0x2000
                } else {
                    addr - 0x2000 - 0x0800
                }
            },
            // 0x2000 = 0x2400 and 0x2800 = 0x2C00
            _ => {
                if addr <= NAMETABLE_0_END {
                    addr - 0x2000
                } else if addr <= NAMETABLE_1_END {
                    addr - 0x2000 - 0x400
                } else if addr <= NAMETABLE_2_END {
                    addr - 0x2000 - 0x400
                } else {
                    addr - 0x2000 - 0x800
                }
            },
        }
    }

    pub fn read_byte(&self, addr: u16) -> (r: u8)
        requires
            self.wf(),
            self.readable(addr),
        ensures
            r == self.peek(addr),
    {
        if addr <= PAT_TABLE_1_END {
            // Both pattern tables come from CHR
            self.chr.read_chr_byte(addr)
        } else if addr <= NAMETABLE_3_END {
            self.vram[self.vram_addr(addr) as usize]
        } else if addr <= NAMETABLE_MIRRORS_END {
            self.vram[self.vram_addr(addr - 0x1000) as usize]
        } else if addr <= PALETTE_RAM_END {
            self.palette[(addr - PALETTE_RAM_BEG) as usize]
        } else {
            0
        }
    }

    /// Writes to CHR and to the palette mirrors are ignored; nametable
    /// writes land in VRAM.
    pub fn write_byte(&mut self, addr: u16, val: u8)
        requires
            old(self).wf(),
            old(self).writable(addr),
        ensures
            final(self).wf(),
            final(self).chr_mapper() == old(self).chr_mapper(),
            final(self).mirroring() == old(self).mirroring(),
            final(self).palette() == old(self).palette(),
            (is_nametable(addr) || is_nametable_mirror(addr)) ==> final(self).vram() == old(self).vram().update(
                old(self).vram_target(addr),
                val,
            ),
            !(is_nametable(addr) || is_nametable_mirror(addr)) ==> final(self).vram() == old(self).vram(),
    {
        if addr <= PAT_TABLE_1_END {
        } else if addr <= NAMETABLE_3_END {
            let a = self.vram_addr(addr) as usize;
            self.vram.set(a, val);
        } else if addr <= NAMETABLE_MIRRORS_END {
            let a = self.vram_addr(addr - 0x1000) as usize;
            self.vram.set(a, val);
        } else {
        }
    }
}

/// Under two-screen mirroring each nametable byte has a twin a fixed
/// distance away: $2000 = $2800 and $2400 = $2C00 horizontally, $2000 =
/// $2400 and $2800 = $2C00 vertically; and $3000-$3EFF mirrors
/// $2000-$2EFF.
pub proof fn law_nametable_mirroring(m: MemoryMap, addr: u16)
    requires
        m.wf(),
        m.mirroring() != Mirroring::FourWay,
    ensures
        is_nametable(addr) ==> 0 <= vram_index(m.mirroring(), addr) < 0x800,
        m.mirroring() == Mirroring::Horizontal && 0x2000 <= addr <= 0x27FF ==> m.peek(addr) == m.peek(
            (addr + 0x800) as u16,
        ),
        m.mirroring() == Mirroring::Vertical && (0x2000 <= addr <= 0x23FF || 0x2800 <= addr <= 0x2BFF)
            ==> m.peek(addr) == m.peek((addr + 0x400) as u16),
        is_nametable_mirror(addr) ==> m.peek(addr) == m.peek((addr - 0x1000) as u16),
{
}


/// Folding a nametable address onto VRAM: every index lies below $800;
/// horizontal mirroring gives $2000-$27FF and $2800-$2FFF the same bytes,
/// and vertical mirroring pairs $2000 with $2400 and $2800 with $2C00.
pub proof fn law_vram_index(mirroring: Mirroring, addr: u16)
    requires
        mirroring != Mirroring::FourWay,
    ensures
        is_nametable(addr) ==> 0 <= vram_index(mirroring, addr) < 0x800,
        mirroring == Mirroring::Horizontal && 0x2000 <= addr <= 0x27FF ==> {
            &&& vram_index(mirroring, addr) == addr - 0x2000
            &&& vram_index(mirroring, (addr + 0x800) as u16) == addr - 0x2000
        },
        mirroring == Mirroring::Vertical && (0x2000 <= addr <= 0x23FF || 0x2800 <= addr <= 0x2BFF)
            ==> vram_index(mirroring, addr) == vram_index(mirroring, (addr + 0x400) as u16),
{
}

} // verus!
