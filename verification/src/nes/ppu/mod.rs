//! The Picture Processing Unit of the `nes` console: its registers as the CPU
//! sees them and its scanline timing.
pub mod memory_map;

use vstd::prelude::*;
use crate::nes::memory::mapper::Mapper0;
use self::memory_map::MemoryMap;

verus! {

pub const CPU_CYCLES_PER_SCANLINE: u32 = 114;
pub const LAST_VISIBLE_SCANLINE: u8 = 239;
pub const BYTES_PER_SCANLINE: usize = 32;
/// Last line of vertical blank, for timing.
pub const LAST_VBLANK_LINE: u8 = 19;
/// Width times height times three colour bytes.
pub const SCREEN_SIZE: usize = 184320;

#[derive(Debug, Clone, Copy, PartialEq, Eq, Structural)]
pub enum Write {
    One,
    Two,
}

#[derive(Debug)]
pub struct PpuCtrl(pub u8);

#[derive(Debug)]
pub struct PpuMask(pub u8);

/// PPUSTATUS ($2002).
#[derive(Debug)]
pub struct PpuStatus(pub u8);

impl PpuStatus {
    /// The state after power on and warm up: vertical blank and sprite
    /// overflow set.
    pub fn reset(&mut self)
        ensures
            final(self).0 == 0b1010_0000,
    {
        *self = PpuStatus(0b1010_0000)
    }

    /// Reading the register returns it and turns bit 7 off.
    pub fn read(&mut self) -> (r: u8)
        ensures
            r == old(self).0,
            final(self).0 == old(self).0 & 0x7F,
    {
        let byte = self.0;
        *self = PpuStatus(byte & 0x7F);
        byte
    }
}

#[derive(Debug)]
pub struct OamAddr(pub u8);

#[derive(Debug)]
pub struct OamData(pub u8);

impl OamData {
    /// OAM reads are not emulated: they give 0.
    pub fn read(&self) -> (r: u8)
        ensures
            r == 0,
    {
        0
    }
}

#[derive(Debug)]
pub struct PpuScroll(pub u8);

#[derive(Debug)]
pub struct PpuAddr(pub u8);

#[derive(Debug)]
pub struct PpuData(pub u8);

impl PpuData {
    /// VRAM reads through $2007 are not emulated: they give 0.
    pub fn read(&self) -> (r: u8)
        ensures
            r == 0,
    {
        0
    }
}

#[derive(Debug)]
pub struct OamDma(pub u8);

/// Nametable mirroring.
#[derive(Debug, Clone, Copy, PartialEq, Eq, Structural)]
pub enum Mirroring {
    Horizontal,
    Vertical,
    FourWay,
}

/// The scanline the PPU is on: pre-render, 240 visible lines, post-render
/// and 20 lines of vertical blank.
#[derive(Debug, Clone, Copy, PartialEq, Eq, Structural)]
pub enum Scanline {
    PreRender,
    Visible(u8),
    PostRender,
    VBlank(u8),
}

impl Scanline {
    pub open spec fn valid(self) -> bool {
        match self {
            Scanline::Visible(l) => l <= LAST_VISIBLE_SCANLINE,
            Scanline::VBlank(l) => l <= LAST_VBLANK_LINE,
            _ => true,
        }
    }

    /// The position of the line in the frame, from 0 (pre-render) to 261.
    pub open spec fn index(self) -> int {
        match self {
            Scanline::PreRender => 0,
            Scanline::Visible(l) => 1 + l,
            Scanline::PostRender => 241,
            Scanline::VBlank(l) => 242 + l,
        }
    }

    pub open spec fn next_spec(self) -> Scanline {
        match self {
            Scanline::PreRender => Scanline::Visible(0),
            Scanline::Visible(l) => if l == LAST_VISIBLE_SCANLINE {
                Scanline::PostRender
            } else {
                Scanline::Visible((l + 1) as u8)
            },
            Scanline::PostRender => Scanline::VBlank(0),
            Scanline::VBlank(l) => if l == LAST_VBLANK_LINE {
                Scanline::PreRender
            } else {
                Scanline::VBlank((l + 1) as u8)
            },
        }
    }

    /// Lines that take up CPU time in `Ppu::step`: the vertical blank lines
    /// after the first.
    pub open spec fn advances(self) -> bool {
        self matches Scanline::VBlank(l) && l != 0
    }

    /// How many lines until one that takes up CPU time.
    pub open spec fn dist(self) -> int {
        if self.index() >= 243 { 0 } else { 243 - self.index() }
    }

    /// The next scanline, wrapping from the last vertical blank line to
    /// pre-render.
    pub fn next(&self) -> (r: Scanline)
        requires
            self.valid(),
        ensures
            r == self.next_spec(),
            r.valid(),
    {
        match *self {
            Scanline::PreRender => Scanline::Visible(0),
            Scanline::Visible(line) => if line == LAST_VISIBLE_SCANLINE {
                Scanline::PostRender
            } else {
                Scanline::Visible(line + 1)
            },
            Scanline::PostRender => Scanline::VBlank(0),
            Scanline::VBlank(line) => if line == LAST_VBLANK_LINE {
                Scanline::PreRender
            } else {
                Scanline::VBlank(line + 1)
            },
        }
    }
}

/// `n` applications of `next`.
pub open spec fn next_n(s: Scanline, n: nat) -> Scanline
    decreases n,
{
    if n == 0 { s } else { next_n(s, (n - 1) as nat).next_spec() }
}

/// Where the scanline walk of `Ppu::step` stops: lines are taken one by one
/// while the cycle count is below `target`, and each line that `advances`
/// adds one scanline's worth of CPU cycles. The flag tells whether the
/// first vertical blank line, which raises the NMI, was taken.
pub open spec fn settle(cycle: int, line: Scanline, target: int) -> (int, Scanline, bool)
    decreases (if cycle < target { target - cycle } else { 0 }) * 300 + line.dist(),
    when line.valid()
{
    if cycle < target {
        let cycle2 = if line.advances() { cycle + 114 } else { cycle };
        let (c, l, nmi) = settle(cycle2, line.next_spec(), target);
        (c, l, nmi || line == Scanline::VBlank(0))
    } else {
        (cycle, line, false)
    }
}

/// The PPU's registers, its scanline timing and its memory map. The frame
/// buffer is kept; drawing it is left to the caller.
pub struct Ppu {
    ppu_ctrl: PpuCtrl,
    ppu_mask: PpuMask,
    ppu_status: PpuStatus,
    oam_addr: OamAddr,
    oam_data: OamData,
    ppu_scroll: PpuScroll,
    ppu_addr: PpuAddr,
    ppu_data: PpuData,
    oam_dma: OamDma,

    current_v_addr: u16,
    temp_v_addr: u16,
    x_scroll_fine: u8,
    write: Write,

    cycle: u32,
    scanline: Scanline,
    frame: Vec<u8>,

    memory_map: MemoryMap,
}

/// The registers the CPU can read: $2000-$2007 and OAMDMA ($4014).
pub open spec fn ppu_reg(addr: u16) -> bool {
    (0x2000 <= addr <= 0x2007) || addr == 0x4014
}

impl Ppu {
    pub closed spec fn wf(&self) -> bool {
        self.scanline.valid() && self.memory_map.wf()
    }

    pub closed spec fn status(&self) -> u8 {
        self.ppu_status.0
    }

    pub closed spec fn cycle_count(&self) -> u32 {
        self.cycle
    }

    pub closed spec fn line(&self) -> Scanline {
        self.scanline
    }

    /// The PPU with only its cycle count and scanline replaced.
    pub closed spec fn with_timing(self, cycle: u32, line: Scanline) -> Ppu {
        Ppu { cycle: cycle, scanline: line, ..self }
    }

    /// Replacing the cycle count and the scanline sets just those: PPUSTATUS
    /// stays, and a valid line keeps the PPU well formed.
    pub proof fn lemma_with_timing(self, cycle: u32, line: Scanline)
        ensures
            self.with_timing(cycle, line).cycle_count() == cycle,
            self.with_timing(cycle, line).line() == line,
            self.with_timing(cycle, line).status() == self.status(),
            self.wf() && line.valid() ==> self.with_timing(cycle, line).wf(),
            self.with_timing(self.cycle_count(), self.line()) == self,
    {
    }

    /// What a read of register `addr` returns: PPUSTATUS for $2002, 0 for
    /// the others.
    pub open spec fn read_value(&self, addr: u16) -> u8 {
        if addr == 0x2002 { self.status() } else { 0 }
    }

    /// The PPU after a read of register `addr`: reading PPUSTATUS clears its
    /// bit 7.
    pub closed spec fn read_effect(self, addr: u16) -> Ppu {
        if addr == 0x2002 {
            Ppu { ppu_status: PpuStatus(self.ppu_status.0 & 0x7F), ..self }
        } else {
            self
        }
    }

    /// Everything but PPUSTATUS is equal.
    pub closed spec fn same_but_status(self, other: Ppu) -> bool {
        Ppu { ppu_status: PpuStatus(0), ..self } == Ppu { ppu_status: PpuStatus(0), ..other }
    }

    /// A powered-on PPU on visible line 0 with all registers clear.
    pub fn new(mapper: Mapper0, mirroring: Mirroring) -> (r: Ppu)
        ensures
            r.wf(),
            r.status() == 0,
            r.cycle_count() == 0,
            r.line() == Scanline::Visible(0),
    {
        Ppu {
            ppu_ctrl: PpuCtrl(0),
            ppu_mask: PpuMask(0),
            ppu_status: PpuStatus(0),
            oam_addr: OamAddr(0),
            oam_data: OamData(0),
            ppu_scroll: PpuScroll(0),
            ppu_addr: PpuAddr(0),
            ppu_data: PpuData(0),
            oam_dma: OamDma(0),

            current_v_addr: 0,
            temp_v_addr: 0,
            x_scroll_fine: 0,
            write: Write::One,

            cycle: 0,
            scanline: Scanline::Visible(0),
            frame: vec![0u8; SCREEN_SIZE],

            memory_map: MemoryMap::new(mapper, mirroring),
        }
    }

    /// Moves the PPU forward a scanline at a time until its cycle count
    /// reaches `cpu_cycle`, and reports whether it entered vertical blank on
    /// the way: the first vertical blank line raises the NMI, and then the
    /// cycle count starts again from 0. Only the vertical blank lines after
    /// the first take up time here; nothing else of the PPU changes.
    pub fn step(&mut self, cpu_cycle: u32) -> (nmi: bool)
        requires
            old(self).wf(),
            cpu_cycle <= u32::MAX - 114,
        ensures
            final(self).wf(),
            ({
                let (c, l, entered) = settle(old(self).cycle_count() as int, old(self).line(), cpu_cycle as int);
                &&& nmi == entered
                &&& *final(self) == old(self).with_timing(if entered { 0 } else { c as u32 }, l)
            }),
            old(self).cycle_count() >= cpu_cycle ==> !nmi && *final(self) == *old(self),
            nmi ==> final(self).cycle_count() == 0,
            !nmi ==> final(self).cycle_count() >= cpu_cycle,
            final(self).status() == old(self).status(),
            final(self).line() == settle(old(self).cycle_count() as int, old(self).line(), cpu_cycle as int).1,
    {
        let mut nmi = false;
        while self.cycle < cpu_cycle
            invariant
                self.wf(),
                cpu_cycle <= u32::MAX - 114,
                *self == old(self).with_timing(self.cycle, self.scanline),
                ({
                    let (c, l, entered) = settle(self.cycle as int, self.scanline, cpu_cycle as int);
                    let (c0, l0, entered0) = settle(old(self).cycle as int, old(self).scanline, cpu_cycle as int);
                    c == c0 && l == l0 && (nmi || entered) == entered0
                }),
            decreases (if self.cycle < cpu_cycle { cpu_cycle - self.cycle } else { 0 }) * 300
                + self.scanline.dist(),
        {
            match self.scanline {
                Scanline::PreRender => {
                    self.prerender();
                },
                Scanline::Visible(line) => {
                    self.render_scanline(line);
                },
                Scanline::PostRender => {
                    self.postrender();
                },
                Scanline::VBlank(0) => {
                    nmi = self.vblank();
                },
                Scanline::VBlank(_) => {
                    self.cycle += CPU_CYCLES_PER_SCANLINE;
                },
            };
            self.scanline = self.scanline.next();
        }
        if nmi {
            self.cycle = 0;
        }
        proof {
            law_settle_reaches(old(self).cycle as int, old(self).scanline, cpu_cycle as int);
        }
        nmi
    }

    fn prerender(&mut self)
        ensures
            *final(self) == *old(self),
    {
    }

    fn render_scanline(&mut self, line: u8)
        ensures
            *final(self) == *old(self),
    {
    }

    fn postrender(&mut self)
        ensures
            *final(self) == *old(self),
    {
    }

    /// Entering vertical blank raises the NMI.
    fn vblank(&mut self) -> (r: bool)
        ensures
            *final(self) == *old(self),
            r,
    {
        true
    }

    /// Sets the vertical blank and sprite overflow bits of PPUSTATUS, the
    /// usual state after power on and warm up.
    pub fn power_on_reset(&mut self)
        ensures
            final(self).status() == 0b1010_0000,
            final(self).cycle_count() == old(self).cycle_count(),
            final(self).line() == old(self).line(),
            old(self).wf() ==> final(self).wf(),
    {
        self.ppu_status.reset();
    }

    /// A read of register `addr` by the CPU.
    pub fn read_byte(&mut self, addr: u16) -> (r: u8)
        requires
            ppu_reg(addr),
        ensures
            r == old(self).read_value(addr),
            *final(self) == old(self).read_effect(addr),
            final(self).same_but_status(*old(self)),
            final(self).status() == (if addr == 0x2002 { old(self).status() & 0x7F } else { old(self).status() }),
            old(self).wf() ==> final(self).wf(),
    {
        match addr {
            0x2000 => 0,
            0x2001 => 0,
            0x2002 => self.ppu_status.read(),
            0x2003 => 0,
            0x2004 => self.oam_data.read(),
            0x2005 => 0,
            0x2006 => 0,
            0x2007 => self.ppu_data.read(),
            _ => 0,
        }
    }

    /// Writes to the registers are not emulated: they change nothing.
    pub fn write_byte(&mut self, addr: u16, val: u8)
        ensures
            *final(self) == *old(self),
    {
    }
}

proof fn lemma_next_index(s: Scanline)
    requires
        s.valid(),
    ensures
        s.next_spec().valid(),
        s.next_spec().index() == if s.index() == 261 { 0 } else { s.index() + 1 },
        0 <= s.index() < 262,
{
}

proof fn lemma_next_n_index(s: Scanline, k: nat)
    requires
        s.valid(),
        k <= 262,
    ensures
        next_n(s, k).valid(),
        next_n(s, k).index() == if s.index() + k < 262 { s.index() + k } else { s.index() + k - 262 },
    decreases k,
{
    if k > 0 {
        lemma_next_n_index(s, (k - 1) as nat);
        lemma_next_index(next_n(s, (k - 1) as nat));
    }
}

/// A frame has 262 scanlines: from any line, 262 steps of `next` come back
/// to it.
pub proof fn law_frame_period(s: Scanline)
    requires
        s.valid(),
    ensures
        next_n(s, 262) == s,
{
    lemma_next_n_index(s, 262);
    let t = next_n(s, 262);
    assert(t.index() == s.index());
}

/// `Ppu::step` stops on a valid line with its cycle count at the target or
/// past it by less than one scanline, or where it started if it was already
/// there.
pub proof fn law_settle_reaches(cycle: int, line: Scanline, target: int)
    requires
        line.valid(),
        cycle >= 0,
    ensures
        settle(cycle, line, target).1.valid(),
        cycle >= target ==> settle(cycle, line, target) == (cycle, line, false),
        cycle < target ==> target <= settle(cycle, line, target).0 < target + 114,
    decreases (if cycle < target { target - cycle } else { 0 }) * 300 + line.dist(),
{
    if cycle < target {
        let cycle2 = if line.advances() { cycle + 114 } else { cycle };
        law_settle_reaches(cycle2, line.next_spec(), target);
    }
}

/// Walking into vertical blank raises the NMI: from the post-render line,
/// catching up with any later cycle count takes the first vertical blank
/// line.
pub proof fn law_vblank_raises_nmi(cycle: int, target: int)
    requires
        0 <= cycle < target,
    ensures
        settle(cycle, Scanline::PostRender, target).2,
{
    assert(settle(cycle, Scanline::VBlank(0), target).2);
}

} // verus!
