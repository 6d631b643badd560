//! Where a CPU address lands: RAM, one of its three mirrors, the PPU
//! registers or their mirrors, the APU registers, or the cartridge.
use vstd::prelude::*;

verus! {

pub const CPU_RAM_BEG: u16 = 0x0000;
pub const CPU_RAM_END: u16 = 0x07ff;

pub const RAM_MIRROR_ONE_BEG: u16 = 0x0800;
pub const RAM_MIRROR_ONE_END: u16 = 0x0fff;
pub const RAM_MIRROR_TWO_BEG: u16 = 0x1000;
pub const RAM_MIRROR_TWO_END: u16 = 0x17ff;
pub const RAM_MIRROR_THREE_BEG: u16 = 0x1800;
pub const RAM_MIRROR_THREE_END: u16 = 0x1fff;

pub const PPU_REGS_BEG: u16 = 0x2000;
pub const PPU_REGS_END: u16 = 0x2007;

pub const PPU_MIRRORS_BEG: u16 = 0x2008;
pub const PPU_MIRRORS_END: u16 = 0x3fff;

pub const APU_REGS_BEG: u16 = 0x4000;
pub const APU_REGS_END: u16 = 0x401f;

pub const CART_SPACE_BEG: u16 = 0x4020;
pub const CART_SPACE_END: u16 = 0xffff;

/// A CPU address with the region it lies in.
#[derive(Debug, Clone, Copy, PartialEq, Eq, Structural)]
pub enum PhysAddr {
    CpuRam(u16),
    RamMirrorOne(u16),
    RamMirrorTwo(u16),
    RamMirrorThree(u16),
    PpuRegs(u16),
    PpuMirrors(u16),
    ApuRegs(u16),
    CartSpace(u16),
}

/// The region of `addr`. The regions cover the whole address space.
pub open spec fn region_of(addr: u16) -> PhysAddr {
    if addr <= CPU_RAM_END {
        PhysAddr::CpuRam(addr)
    } else if addr <= RAM_MIRROR_ONE_END {
        PhysAddr::RamMirrorOne(addr)
    } else if addr <= RAM_MIRROR_TWO_END {
        PhysAddr::RamMirrorTwo(addr)
    } else if addr <= RAM_MIRROR_THREE_END {
        PhysAddr::RamMirrorThree(addr)
    } else if addr <= PPU_REGS_END {
        PhysAddr::PpuRegs(addr)
    } else if addr <= PPU_MIRRORS_END {
        PhysAddr::PpuMirrors(addr)
    } else if addr <= APU_REGS_END {
        PhysAddr::ApuRegs(addr)
    } else {
        PhysAddr::CartSpace(addr)
    }
}

/// Tags `addr` with its region.
pub fn map_virt_addr(addr: u16) -> (r: PhysAddr)
    ensures
        r == region_of(addr),
{
    if addr <= CPU_RAM_END {
        PhysAddr::CpuRam(addr)
    } else if addr <= RAM_MIRROR_ONE_END {
        PhysAddr::RamMirrorOne(addr)
    } else if addr <= RAM_MIRROR_TWO_END {
        PhysAddr::RamMirrorTwo(addr)
    } else if addr <= RAM_MIRROR_THREE_END {
        PhysAddr::RamMirrorThree(addr)
    } else if addr <= PPU_REGS_END {
        PhysAddr::PpuRegs(addr)
    } else if addr <= PPU_MIRRORS_END {
        PhysAddr::PpuMirrors(addr)
    } else if addr <= APU_REGS_END {
        PhysAddr::ApuRegs(addr)
    } else {
        PhysAddr::CartSpace(addr)
    }
}

/// Every address keeps its value through the tag, and each region is an
/// interval: the RAM and its mirrors are 2 KiB each and tile $0000-$1FFF.
pub proof fn law_regions(addr: u16)
    ensures
        match region_of(addr) {
            PhysAddr::CpuRam(a) | PhysAddr::RamMirrorOne(a) | PhysAddr::RamMirrorTwo(a)
            | PhysAddr::RamMirrorThree(a) | PhysAddr::PpuRegs(a) | PhysAddr::PpuMirrors(a)
            | PhysAddr::ApuRegs(a) | PhysAddr::CartSpace(a) => a == addr,
        },
        addr < 0x2000 ==> region_of(addr) == match addr / 0x800 {
            0 => PhysAddr::CpuRam(addr),
            1 => PhysAddr::RamMirrorOne(addr),
            2 => PhysAddr::RamMirrorTwo(addr),
            _ => PhysAddr::RamMirrorThree(addr),
        },
{
}

} // verus!
