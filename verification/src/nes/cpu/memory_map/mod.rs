//! How the CPU's addresses reach the memories: RAM and its mirrors, the PPU
//! registers and their mirrors, the I/O registers and the cartridge.
pub mod constants;

use vstd::prelude::*;
use crate::nes::memory::{Memory, MemView};
use crate::nes::memory::mapper::Mapper;
use self::constants::{CPU_RAM_END, RAM_MIRRORS_END, PPU_REGS_END, PPU_MIRRORS_END, IO_REGS_END, CART_SPACE_BEG};

verus! {

/// The PPU register that `addr` ($2000-$3FFF) reaches: $2000-$2007 repeat
/// every 8 bytes.
pub open spec fn ppu_target(addr: u16) -> u16 {
    if addr <= PPU_REGS_END { addr } else { (addr % 8 + 0x2000) as u16 }
}

/// A byte read of `addr` is defined: anywhere but $4018-$401F and cartridge
/// addresses that the mapper does not fill.
pub open spec fn readable(m: MemView, addr: u16) -> bool {
    addr <= IO_REGS_END || (addr >= CART_SPACE_BEG && m.prg.rom_readable(addr))
}

/// What a byte read of `addr` gives.
pub open spec fn peek(m: MemView, addr: u16) -> u8 {
    if addr <= RAM_MIRRORS_END {
        m.ram[addr as int % 0x800]
    } else if addr <= PPU_MIRRORS_END {
        m.ppu.read_value(ppu_target(addr))
    } else if addr <= IO_REGS_END {
        0
    } else {
        m.prg.rom_byte(addr)
    }
}

/// The memories after a byte read of `addr`: only a read of PPUSTATUS
/// changes anything.
pub open spec fn after_read(m: MemView, addr: u16) -> MemView {
    if RAM_MIRRORS_END < addr <= PPU_MIRRORS_END {
        MemView { ppu: m.ppu.read_effect(ppu_target(addr)), ..m }
    } else {
        m
    }
}

/// A byte write of `addr` is defined: anywhere below the cartridge space
/// and its gap.
pub open spec fn writable(addr: u16) -> bool {
    addr <= IO_REGS_END
}

/// The memories after a byte write: RAM and its mirrors take the byte, the
/// registers ignore it.
pub open spec fn poke(m: MemView, addr: u16, val: u8) -> MemView {
    if addr <= RAM_MIRRORS_END {
        MemView { ram: m.ram.update(addr as int % 0x800, val), ..m }
    } else {
        m
    }
}

/// A word read of `addr` is defined: both bytes in RAM without leaving the
/// 2 KiB it mirrors, or both in the cartridge.
pub open spec fn word_readable(m: MemView, addr: u16) -> bool {
    ||| addr <= RAM_MIRRORS_END && addr % 0x800 < 0x7FF
    ||| addr >= CART_SPACE_BEG && addr < 0xFFFF && m.prg.rom_readable(addr) && m.prg.rom_readable(
        (addr + 1) as u16,
    )
}

/// The little-endian word at `addr`.
pub open spec fn peek_word(m: MemView, addr: u16) -> u16 {
    if addr <= RAM_MIRRORS_END {
        (m.ram[addr as int % 0x800] + 256 * m.ram[addr % 0x800 + 1]) as u16
    } else {
        (m.prg.rom_byte(addr) + 256 * m.prg.rom_byte((addr + 1) as u16)) as u16
    }
}

/// Reads a little-endian word. PPU and I/O registers cannot be read as words.
pub fn read_word(mem: &mut Memory, addr: u16) -> (r: u16)
    requires
        old(mem).wf(),
        word_readable(old(mem)@, addr),
    ensures
        r == peek_word(old(mem)@, addr),
        *final(mem) == *old(mem),
{
    let (lo, hi) = if addr <= CPU_RAM_END {
        (mem.read_ram_byte(addr), mem.read_ram_byte(addr + 1))
    } else if addr <= RAM_MIRRORS_END {
        (mem.read_ram_byte(addr % 0x0800), mem.read_ram_byte((addr % 0x0800) + 1))
    } else {
        (mem.read_rom_byte(addr), mem.read_rom_byte(addr + 1))
    };
    lo as u16 + (hi as u16) * 256
}

/// Reads a byte from the specified address.
pub fn read_byte(mem: &mut Memory, addr: u16) -> (r: u8)
    requires
        old(mem).wf(),
        readable(old(mem)@, addr),
    ensures
        r == peek(old(mem)@, addr),
        final(mem)@ == after_read(old(mem)@, addr),
        final(mem).wf(),
{
    if addr <= CPU_RAM_END {
        mem.read_ram_byte(addr)
    } else if addr <= RAM_MIRRORS_END {
        mem.read_ram_byte(addr % 0x0800)
    } else if addr <= PPU_REGS_END {
        mem.read_ppu_byte(addr)
    } else if addr <= PPU_MIRRORS_END {
        mem.read_ppu_byte((addr % 8) + 0x2000)
    } else if addr <= IO_REGS_END {
        mem.read_io_byte(addr)
    } else {
        mem.read_rom_byte(addr)
    }
}

/// Writes a byte to the specified address.
pub fn write_byte(mem: &mut Memory, addr: u16, val: u8)
    requires
        old(mem).wf(),
        writable(addr),
    ensures
        final(mem)@ == poke(old(mem)@, addr, val),
        final(mem).wf(),
{
    if addr <= CPU_RAM_END {
        mem.write_ram_byte(addr, val);
    } else if addr <= RAM_MIRRORS_END {
        mem.write_ram_byte(addr % 0x0800, val);
    } else if addr <= PPU_REGS_END {
        mem.write_ppu_byte(addr, val);
    } else if addr <= PPU_MIRRORS_END {
        mem.write_ppu_byte(addr % 8, val);
    } else {
        mem.write_io_byte(addr, val);
    }
}

/// RAM is mirrored: $0000-$07FF repeats up to $1FFF, for reads and writes.
pub proof fn law_ram_mirrors(m: MemView, addr: u16, val: u8)
    requires
        m.ram.len() == 0x800,
        addr <= RAM_MIRRORS_END,
    ensures
        readable(m, addr),
        peek(m, addr) == peek(m, (addr % 0x800) as u16),
        poke(m, addr, val) == poke(m, (addr % 0x800) as u16, val),
        after_read(m, addr) == m,
{
}

/// A byte written to RAM or a mirror is read back from every mirror of it,
/// and the other RAM bytes keep their values.
pub proof fn law_read_after_write(m: MemView, addr: u16, other: u16, val: u8)
    requires
        m.ram.len() == 0x800,
        addr <= RAM_MIRRORS_END,
        other <= RAM_MIRRORS_END,
    ensures
        addr % 0x800 == other % 0x800 ==> peek(poke(m, addr, val), other) == val,
        addr % 0x800 != other % 0x800 ==> peek(poke(m, addr, val), other) == peek(m, other),
{
}

} // verus!
