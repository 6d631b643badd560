//! The picture processing unit: its registers and its scanline timing.
pub mod mem_map;
pub mod ppu;

use vstd::prelude::*;
use crate::cart::Cartridge;
use crate::nes::KILOBYTE;

verus! {

/// The last visible scanline (240 in total, counted from 0).
pub const LAST_VISIBLE: u8 = 239;

/// The last vertical-blank scanline.
pub const LAST_VBLANK: u8 = 20;

/// The scanline the PPU is drawing.
#[derive(Debug, Clone, Copy, PartialEq, Eq, Structural)]
pub enum Scanline {
    PreRender,
    Visible(u8),
    PostRender,
    VBlank(u8),
}

impl Scanline {
    /// Lines within their ranges: visible lines up to 239, blanking lines up to 20.
    pub open spec fn valid(self) -> bool {
        match self {
            Scanline::Visible(l) => l <= LAST_VISIBLE,
            Scanline::VBlank(l) => l <= LAST_VBLANK,
            _ => true,
        }
    }

    /// The scanline that follows. A blanking line other than the last is
    /// followed by the visible line with the next number.
    pub open spec fn next_spec(self) -> Scanline {
        match self {
            Scanline::PreRender => Scanline::Visible(0),
            Scanline::Visible(l) => if l == LAST_VISIBLE {
                Scanline::PostRender
            } else {
                Scanline::Visible((l + 1) as u8)
            },
            Scanline::PostRender => Scanline::VBlank(0),
            Scanline::VBlank(l) => if l == LAST_VBLANK {
                Scanline::PreRender
            } else {
                Scanline::Visible((l + 1) as u8)
            },
        }
    }

    pub fn next(&self) -> (r: Scanline)
        requires
            self.valid(),
        ensures
            r == self.next_spec(),
            r.valid(),
    {
        match *self {
            Scanline::PreRender => Scanline::Visible(0),
            Scanline::Visible(line) => if line == LAST_VISIBLE {
                Scanline::PostRender
            } else {
                Scanline::Visible(line + 1)
            },
            Scanline::PostRender => Scanline::VBlank(0),
            Scanline::VBlank(line) => if line == LAST_VBLANK {
                Scanline::PreRender
            } else {
                Scanline::Visible(line + 1)
            },
        }
    }
}

/// PPUCTRL bits.
pub const PPUCTRL_NAMETABLE: u8 = 0b00000011;
pub const PPUCTRL_VRAM_ADDR_INCREMENT: u8 = 0b00000100;
pub const PPUCTRL_SPRITE_TABLE: u8 = 0b00001000;
pub const PPUCTRL_BG_TABLE: u8 = 0b00010000;
pub const PPUCTRL_SPRITE_SIZE: u8 = 0b00100000;
pub const PPUCTRL_PPU_MASTER: u8 = 0b01000000;
pub const PPUCTRL_NMI: u8 = 0b10000000;

/// PPUSTATUS bits.
pub const PPUSTATUS_SPRITE_OVRFLW: u8 = 0b00100000;
pub const PPUSTATUS_SPRITE_0_HIT: u8 = 0b01000000;
pub const PPUSTATUS_VBLANK: u8 = 0b10000000;

/// The registers the CPU sees at $2000..$2007 and $4014.
pub struct PpuRegisters {
    pub ppuctrl: u8,
    pub ppumask: u8,
    pub ppustatus: u8,
    pub oamaddr: u8,
    pub ppuscroll: u8,
    pub ppuaddr: u8,
    pub ppudata: u8,
    pub oamdma: u8,
}

/// The scroll position within the nametable.
pub struct Position {
    pub coarse_x: u8,
    pub coarse_y: u8,
}

/// One scanline lasts 341 PPU cycles.
pub const CYCLES_PER_SCANLINE: usize = 341;

pub struct Ppu {
    pub registers: PpuRegisters,
    pub cycles: usize,
    pub current_scanline: Scanline,
    pub pixel_shift_register: Vec<u8>,
    pub ram: Vec<u8>,
    pub oam: Vec<u8>,
    pub position: Position,
}

impl Ppu {
    /// The scanline is valid and the cycle count stays within one scanline
    /// plus one step.
    pub open spec fn wf(&self) -> bool {
        &&& self.current_scanline.valid()
        &&& self.cycles <= CYCLES_PER_SCANLINE + 2
    }

    pub fn new() -> (r: Self)
        ensures
            r.wf(),
            r.cycles == 0,
            r.current_scanline == Scanline::Visible(0),
            r.registers.ppuctrl == 0,
            r.registers.ppumask == 0,
            r.registers.ppustatus == 0,
            r.registers.ppuscroll == 0,
            r.registers.ppudata == 0,
            r.position.coarse_x == 0,
            r.position.coarse_y == 0,
    {
        Ppu {
            registers: PpuRegisters {
                ppuctrl: 0,
                ppumask: 0,
                ppustatus: 0,
                oamaddr: 0,
                ppuscroll: 0,
                ppuaddr: 0,
                ppudata: 0,
                oamdma: 0,
            },
            cycles: 0,
            current_scanline: Scanline::Visible(0),
            pixel_shift_register: vec![0u8; 2],
            ram: vec![0u8; 2 * KILOBYTE],
            oam: vec![0u8; 256],
            position: Position { coarse_x: 0, coarse_y: 0 },
        }
    }

    /// Clears PPUCTRL, PPUMASK, PPUSCROLL and PPUDATA; nothing else changes.
    pub fn reset(&mut self)
        ensures
            final(self).registers.ppuctrl == 0,
            final(self).registers.ppumask == 0,
            final(self).registers.ppuscroll == 0,
            final(self).registers.ppudata == 0,
            final(self).registers.ppustatus == old(self).registers.ppustatus,
            final(self).registers.oamaddr == old(self).registers.oamaddr,
            final(self).registers.ppuaddr == old(self).registers.ppuaddr,
            final(self).registers.oamdma == old(self).registers.oamdma,
            final(self).cycles == old(self).cycles,
            final(self).current_scanline == old(self).current_scanline,
    {
        self.registers.ppuctrl = 0;
        self.registers.ppumask = 0;
        self.registers.ppuscroll = 0;
        self.registers.ppudata = 0;
    }

    /// Advances the PPU by three cycles: once a scanline's 341 cycles have
    /// elapsed the counter restarts and the next scanline begins.
    pub fn step(&mut self, cart: &mut Cartridge, cpu_cycles: u8)
        requires
            old(self).wf(),
        ensures
            final(self).wf(),
            *final(cart) == *old(cart),
            old(self).cycles >= CYCLES_PER_SCANLINE ==> {
                &&& final(self).cycles == 3
                &&& final(self).current_scanline == old(self).current_scanline.next_spec()
            },
            old(self).cycles < CYCLES_PER_SCANLINE ==> {
                &&& final(self).cycles == old(self).cycles + 3
                &&& final(self).current_scanline == old(self).current_scanline
            },
            final(self).registers == old(self).registers,
    {
        match self.current_scanline {
            Scanline::PreRender => self.prerender(),
            Scanline::Visible(line) => self.visible(line),
            Scanline::PostRender => self.postrender(),
            Scanline::VBlank(line) => self.vblank(line),
        }
        self.cycles = self.cycles + 3;
    }

    /// Ends the scanline once its cycles have elapsed.
    fn end_of_line(&mut self)
        requires
            old(self).wf(),
        ensures
            final(self).current_scanline.valid(),
            final(self).registers == old(self).registers,
            old(self).cycles >= CYCLES_PER_SCANLINE ==> {
                &&& final(self).cycles == 0
                &&& final(self).current_scanline == old(self).current_scanline.next_spec()
            },
            old(self).cycles < CYCLES_PER_SCANLINE ==> {
                &&& final(self).cycles == old(self).cycles
                &&& final(self).current_scanline == old(self).current_scanline
            },
    {
        if self.cycles >= CYCLES_PER_SCANLINE {
            self.cycles = 0;
            self.current_scanline = self.current_scanline.next();
        }
    }

    fn prerender(&mut self)
        requires
            old(self).wf(),
        ensures
            final(self).current_scanline.valid(),
            final(self).registers == old(self).registers,
            old(self).cycles >= CYCLES_PER_SCANLINE ==> {
                &&& final(self).cycles == 0
                &&& final(self).current_scanline == old(self).current_scanline.next_spec()
            },
            old(self).cycles < CYCLES_PER_SCANLINE ==> {
                &&& final(self).cycles == old(self).cycles
                &&& final(self).current_scanline == old(self).current_scanline
            },
    {
        self.end_of_line();
    }

    fn visible(&mut self, line: u8)
        requires
            old(self).wf(),
        ensures
            final(self).current_scanline.valid(),
            final(self).registers == old(self).registers,
            old(self).cycles >= CYCLES_PER_SCANLINE ==> {
                &&& final(self).cycles == 0
                &&& final(self).current_scanline == old(self).current_scanline.next_spec()
            },
            old(self).cycles < CYCLES_PER_SCANLINE ==> {
                &&& final(self).cycles == old(self).cycles
                &&& final(self).current_scanline == old(self).current_scanline
            },
    {
        self.end_of_line();
    }

    fn postrender(&mut self)
        requires
            old(self).wf(),
        ensures
            final(self).current_scanline.valid(),
            final(self).registers == old(self).registers,
            old(self).cycles >= CYCLES_PER_SCANLINE ==> {
                &&& final(self).cycles == 0
                &&& final(self).current_scanline == old(self).current_scanline.next_spec()
            },
            old(self).cycles < CYCLES_PER_SCANLINE ==> {
                &&& final(self).cycles == old(self).cycles
                &&& final(self).current_scanline == old(self).current_scanline
            },
    {
        self.end_of_line();
    }

    fn vblank(&mut self, line: u8)
        requires
            old(self).wf(),
        ensures
            final(self).current_scanline.valid(),
            final(self).registers == old(self).registers,
            old(self).cycles >= CYCLES_PER_SCANLINE ==> {
                &&& final(self).cycles == 0
                &&& final(self).current_scanline == old(self).current_scanline.next_spec()
            },
            old(self).cycles < CYCLES_PER_SCANLINE ==> {
                &&& final(self).cycles == old(self).cycles
                &&& final(self).current_scanline == old(self).current_scanline
            },
    {
        self.end_of_line();
    }
}


/// The position of a line in a frame's drawing order: pre-render first,
/// then the visible lines, post-render and the blanking lines.
pub open spec fn frame_position(s: Scanline) -> int {
    match s {
        Scanline::PreRender => 0,
        Scanline::Visible(l) => 1 + l,
        Scanline::PostRender => 241,
        Scanline::VBlank(l) => 242 + l,
    }
}

/// From pre-render through the visible lines and post-render into the first
/// blanking line, each line is followed by the one right after it in the
/// frame: the line after the last visible line is post-render, vertical
/// blank is entered only from post-render, and the last blanking line is
/// followed by pre-render. Any other blanking line `l` is followed by the
/// visible line `l + 1`.
pub proof fn law_line_order(s: Scanline)
    requires
        s.valid(),
    ensures
        s.next_spec().valid(),
        !(s is VBlank) ==> frame_position(s.next_spec()) == frame_position(s) + 1,
        s.next_spec() is VBlank ==> s == Scanline::PostRender,
        s.next_spec() == Scanline::PostRender ==> s == Scanline::Visible(LAST_VISIBLE),
        s == Scanline::VBlank(LAST_VBLANK) ==> s.next_spec() == Scanline::PreRender,
        s is VBlank && s->VBlank_0 < LAST_VBLANK ==> s.next_spec() == Scanline::Visible((s->VBlank_0 + 1) as u8),
{
}

} // verus!
