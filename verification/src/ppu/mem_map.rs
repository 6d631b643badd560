//! Where a PPU address lands: a pattern table, a nametable or the palette.
//! $4000 and up mirror $0000-$3FFF.
use vstd::prelude::*;

verus! {

pub const PATTERN_TABLES_BEG: u16 = 0x0000;
pub const PATTERN_TABLES_END: u16 = 0x1fff;

pub const NAMETABLES_BEG: u16 = 0x2000;
pub const NAMETABLES_END: u16 = 0x2fff;

pub const NAMETABLE_MIRRORS_BEG: u16 = 0x3000;
pub const NAMETABLE_MIRRORS_END: u16 = 0x3eff;

pub const PALETTE_RAM_BEG: u16 = 0x3f00;
pub const PALETTE_RAM_END: u16 = 0x3f1F;
pub const PALETTE_MIRROR_BEG: u16 = 0x3f20;
pub const PALETTE_MIRROR_END: u16 = 0x3fff;

pub const VRAM_MIRROR_BEG: u16 = 0x4000;
pub const VRAM_MIRROR_END: u16 = 0xffff;

#[derive(Debug, Clone, Copy, PartialEq, Eq, Structural)]
pub enum PhysAddr {
    PatternTable(u16),
    NameTable(u16),
    InternalPalette(u16),
}

/// The addresses below $4000 that are mapped: the nametable mirrors and the
/// palette mirrors are not.
pub open spec fn mapped(addr: u16) -> bool {
    addr <= NAMETABLES_END || (PALETTE_RAM_BEG <= addr <= PALETTE_RAM_END)
}

/// The region of an address below $4000.
pub open spec fn region_of(addr: u16) -> PhysAddr {
    if addr <= PATTERN_TABLES_END {
        PhysAddr::PatternTable(addr)
    } else if addr <= NAMETABLES_END {
        PhysAddr::NameTable(addr)
    } else {
        PhysAddr::InternalPalette(addr)
    }
}

/// Tags `addr` with its region, folding $4000 and up onto $0000-$3FFF.
/// Nametable mirrors and palette mirrors are not mapped.
pub fn map_virt_addr(addr: u16) -> (r: PhysAddr)
    requires
        mapped((addr % 0x4000) as u16),
    ensures
        r == region_of((addr % 0x4000) as u16),
    decreases addr,
{
    if addr <= PATTERN_TABLES_END {
        PhysAddr::PatternTable(addr)
    } else if addr <= NAMETABLES_END {
        PhysAddr::NameTable(addr)
    } else if PALETTE_RAM_BEG <= addr && addr <= PALETTE_RAM_END {
        PhysAddr::InternalPalette(addr)
    } else {
        map_virt_addr(addr - 0x4000)
    }
}

} // verus!
