//! A PPU with nine byte registers, a frame buffer and a scanline walk
//! counted in CPU cycles.
use vstd::prelude::*;
use crate::interconnect::Interconnect;

verus! {

pub const SCREEN_WIDTH: usize = 256;
pub const SCREEN_HEIGHT: usize = 240;
pub const CPU_CYCLES_PER_SCANLINE: u64 = 114;
pub const LAST_VISIBLE_SCANLINE: u8 = 239;
pub const VBLANK_SCANLINES: u64 = 20;

pub const VBLANK_FLAG: u8 = 0x80;

/// The 64 NES colours as red, green and blue bytes.
pub const PALETTE: [u8; 192] = [
    124, 124, 124, 0, 0, 252, 0, 0, 188, 68, 40, 188,
    148, 0, 132, 168, 0, 32, 168, 16, 0, 136, 20, 0,
    80, 48, 0, 0, 120, 0, 0, 104, 0, 0, 88, 0,
    0, 64, 88, 0, 0, 0, 0, 0, 0, 0, 0, 0,
    188, 188, 188, 0, 120, 248, 0, 88, 248, 104, 68, 252,
    216, 0, 204, 228, 0, 88, 248, 56, 0, 228, 92, 16,
    172, 124, 0, 0, 184, 0, 0, 168, 0, 0, 168, 68,
    0, 136, 136, 0, 0, 0, 0, 0, 0, 0, 0, 0,
    248, 248, 248, 60, 188, 252, 104, 136, 252, 152, 120, 248,
    248, 120, 248, 248, 88, 152, 248, 120, 88, 252, 160, 68,
    248, 184, 0, 184, 248, 24, 88, 216, 84, 88, 248, 152,
    0, 232, 216, 120, 120, 120, 0, 0, 0, 0, 0, 0,
    252, 252, 252, 164, 228, 252, 184, 184, 248, 216, 184, 248,
    248, 184, 248, 248, 164, 192, 240, 208, 176, 252, 224, 168,
    248, 216, 120, 216, 248, 120, 184, 248, 184, 184, 248, 216,
    0, 252, 252, 248, 216, 248, 0, 0, 0, 0, 0, 0,
];

#[derive(Debug, Clone, Copy, PartialEq, Eq, Structural)]
pub struct RGB {
    pub red: u8,
    pub green: u8,
    pub blue: u8,
}

/// The scanline the PPU is on. Vertical blank is handled as one step.
#[derive(Debug, Clone, Copy, PartialEq, Eq, Structural)]
pub enum Scanline {
    PreRender,
    Visible(u8),
    PostRender,
    VBlank,
}

impl Scanline {
    pub open spec fn valid(self) -> bool {
        self matches Scanline::Visible(l) ==> l <= LAST_VISIBLE_SCANLINE
    }

    /// How many visible lines have been drawn in the frame before this one.
    pub open spec fn lines_before(self) -> int {
        match self {
            Scanline::PreRender => 0,
            Scanline::Visible(l) => l as int,
            _ => 240,
        }
    }
}

/// The state a step of the scanline walk changes.
#[derive(Debug, Clone, Copy, PartialEq, Eq, Structural)]
pub struct LineState {
    pub cycles: u64,
    pub scanline: Scanline,
    pub ppustatus: u8,
    pub y_scroll: u16,
}

/// One scanline of the walk, and whether it was vertical blank. Each line
/// takes one scanline of CPU cycles in its handler and one more after it;
/// vertical blank takes twenty in its handler.
pub open spec fn next_line(s: LineState) -> (LineState, bool) {
    match s.scanline {
        Scanline::PreRender => (
            LineState {
                cycles: (s.cycles + 228) as u64,
                scanline: Scanline::Visible(0),
                ppustatus: s.ppustatus & !VBLANK_FLAG,
                ..s
            },
            false,
        ),
        Scanline::Visible(line) => (
            LineState {
                cycles: (s.cycles + 228) as u64,
                scanline: if line == LAST_VISIBLE_SCANLINE {
                    Scanline::PostRender
                } else {
                    Scanline::Visible((line + 1) as u8)
                },
                y_scroll: (s.y_scroll + 1) as u16,
                ..s
            },
            false,
        ),
        Scanline::PostRender => (
            LineState { cycles: (s.cycles + 228) as u64, scanline: Scanline::VBlank, ..s },
            false,
        ),
        Scanline::VBlank => (
            LineState {
                cycles: (s.cycles + 2394) as u64,
                scanline: Scanline::PreRender,
                ppustatus: s.ppustatus | VBLANK_FLAG,
                y_scroll: 0,
            },
            true,
        ),
    }
}

/// The walk of `Ppu::step`: lines are taken while the cycle count is below
/// `target`; the result tells whether the last line taken was vertical
/// blank (`vblank` if none was taken).
pub open spec fn walk(s: LineState, target: u64, vblank: bool) -> (LineState, bool)
    decreases (if s.cycles < target { target - s.cycles } else { 0 }),
{
    if s.cycles < target && s.cycles <= u64::MAX - 2394 {
        let (s1, vb) = next_line(s);
        walk(s1, target, vb)
    } else {
        (s, vblank)
    }
}

/// Background pattern and attribute bytes for the next eight pixels.
pub struct BgPixelBuffer {
    pub pattern_low: u8,
    pub pattern_high: u8,
    pub attribute: u8,
}

pub struct Ppu {
    ppuctrl: u8,
    ppumask: u8,
    ppustatus: u8,
    oamaddr: u8,
    oamdata: u8,
    ppuscroll: u8,
    ppuaddr: u8,
    ppudata: u8,
    oamdma: u8,

    cycles: u64,
    scanline: Scanline,
    pub frame: Vec<u8>,

    x_scroll: u16,
    y_scroll: u16,
    nametable: u16,
}

impl Ppu {
    pub closed spec fn state(&self) -> LineState {
        LineState { cycles: self.cycles, scanline: self.scanline, ppustatus: self.ppustatus, y_scroll: self.y_scroll }
    }

    /// The PPU with the state that the scanline walk changes replaced.
    pub closed spec fn with_state(self, s: LineState) -> Ppu {
        Ppu { cycles: s.cycles, scanline: s.scanline, ppustatus: s.ppustatus, y_scroll: s.y_scroll, ..self }
    }

    pub closed spec fn frame_view(&self) -> Seq<u8> {
        self.frame@
    }

    pub closed spec fn ctrl(&self) -> u8 {
        self.ppuctrl
    }

    pub closed spec fn mask(&self) -> u8 {
        self.ppumask
    }

    pub closed spec fn oam_dma(&self) -> u8 {
        self.oamdma
    }

    /// The registers other than PPUCTRL, PPUMASK and OAMDMA.
    pub closed spec fn other_regs(&self) -> (u8, u8, u8, u8, u8, u8) {
        (self.oamaddr, self.oamdata, self.ppuscroll, self.ppuaddr, self.ppudata, self.nametable as u8)
    }

    /// The scanline is valid, the vertical scroll counts the visible lines
    /// drawn so far, and no line is half drawn.
    pub closed spec fn wf(&self) -> bool {
        &&& self.scanline.valid()
        &&& self.y_scroll <= self.scanline.lines_before()
        &&& self.x_scroll == 0
    }

    /// All registers clear, on the pre-render line, with a black frame.
    pub fn new() -> (r: Ppu)
        ensures
            r.wf(),
            r.state() == (LineState { cycles: 0, scanline: Scanline::PreRender, ppustatus: 0, y_scroll: 0 }),
            r.ctrl() == 0,
            r.mask() == 0,
            r.oam_dma() == 0,
            r.frame_view().len() == SCREEN_WIDTH * SCREEN_HEIGHT * 3,
    {
        Ppu {
            ppuctrl: 0,
            ppumask: 0,
            ppustatus: 0,
            oamaddr: 0,
            oamdata: 0,
            ppuscroll: 0,
            ppuaddr: 0,
            ppudata: 0,
            oamdma: 0,

            cycles: 0,
            scanline: Scanline::PreRender,
            frame: vec![0u8; SCREEN_WIDTH * SCREEN_HEIGHT * 3],

            x_scroll: 0,
            y_scroll: 0,
            nametable: 0x2000,
        }
    }

    /// Reads a register. $4014 is OAMDMA; otherwise only bit 0 of the
    /// address selects, so every other address reads PPUCTRL or PPUMASK.
    pub fn read_reg(&self, addr: u16) -> (r: u8)
        ensures
            r == (if addr == 0x4014 {
                self.oam_dma()
            } else if addr & 1 == 0 {
                self.ctrl()
            } else {
                self.mask()
            }),
    {
        if addr == 0x4014 {
            self.oamdma
        } else {
            match addr & 1 {
                0x0 => self.ppuctrl,
                _ => self.ppumask,
            }
        }
    }

    /// Writes a register, selected as `read_reg` selects it.
    pub fn write_to_reg(&mut self, addr: u16, val: u8)
        ensures
            final(self).state() == old(self).state(),
            final(self).other_regs() == old(self).other_regs(),
            final(self).frame_view() == old(self).frame_view(),
            old(self).wf() ==> final(self).wf(),
            addr == 0x4014 ==> final(self).oam_dma() == val && final(self).ctrl() == old(self).ctrl()
                && final(self).mask() == old(self).mask(),
            addr != 0x4014 && addr & 1 == 0 ==> final(self).ctrl() == val && final(self).mask() == old(
                self,
            ).mask() && final(self).oam_dma() == old(self).oam_dma(),
            addr != 0x4014 && addr & 1 != 0 ==> final(self).mask() == val && final(self).ctrl() == old(
                self,
            ).ctrl() && final(self).oam_dma() == old(self).oam_dma(),
    {
        if addr == 0x4014 {
            self.oamdma = val;
        } else {
            match addr & 1 {
                0x0 => self.ppuctrl = val,
                _ => self.ppumask = val,
            }
        }
    }

    /// Sets PPUSTATUS to its state after power up: vertical blank and
    /// sprite overflow.
    pub fn power_up(&mut self)
        ensures
            final(self).state() == (LineState { ppustatus: 0b10100000, ..old(self).state() }),
            *final(self) == old(self).with_state(final(self).state()),
            final(self).ctrl() == old(self).ctrl(),
            final(self).mask() == old(self).mask(),
            final(self).oam_dma() == old(self).oam_dma(),
            final(self).other_regs() == old(self).other_regs(),
            final(self).frame_view() == old(self).frame_view(),
            old(self).wf() ==> final(self).wf(),
    {
        self.ppustatus = 0b10100000;
    }

    /// Walks scanlines until the PPU's cycle count reaches the CPU's, and
    /// tells whether the last line walked was vertical blank.
    pub fn step(&mut self, interconnect: &mut Interconnect, current_cpu_cycle: &u64) -> (vblank: bool)
        requires
            old(self).wf(),
            *current_cpu_cycle <= u64::MAX - 2394,
        ensures
            final(self).wf(),
            (final(self).state(), vblank) == walk(old(self).state(), *current_cpu_cycle, false),
            *final(self) == old(self).with_state(final(self).state()),
            final(self).ctrl() == old(self).ctrl(),
            final(self).mask() == old(self).mask(),
            final(self).oam_dma() == old(self).oam_dma(),
            final(self).other_regs() == old(self).other_regs(),
            final(self).frame_view() == old(self).frame_view(),
    {
        let mut vblank = false;
        while self.cycles < *current_cpu_cycle
            invariant
                self.wf(),
                *current_cpu_cycle <= u64::MAX - 2394,
                walk(self.state(), *current_cpu_cycle, vblank) == walk(old(self).state(), *current_cpu_cycle, false),
                *self == old(self).with_state(self.state()),
            decreases (if self.cycles < *current_cpu_cycle { *current_cpu_cycle - self.cycles } else { 0 }),
        {
            match self.scanline {
                Scanline::PreRender => {
                    self.prerender();
                    vblank = false;
                },
                Scanline::Visible(line) => {
                    self.render_scanline(interconnect, line);
                    vblank = false;
                },
                Scanline::PostRender => {
                    self.postrender();
                    vblank = false;
                },
                Scanline::VBlank => {
                    let mut nmi = false;
                    self.vblank(&mut nmi);
                    vblank = true;
                },
            }
            self.cycles += CPU_CYCLES_PER_SCANLINE;  // It's easier to just deal in cpu cycles.
        }
        vblank
    }

    fn prerender(&mut self)
        requires
            old(self).scanline == Scanline::PreRender,
            old(self).cycles <= u64::MAX - 114,
        ensures
            *final(self) == (Ppu {
                ppustatus: old(self).ppustatus & !VBLANK_FLAG,
                scanline: Scanline::Visible(0),
                cycles: (old(self).cycles + 114) as u64,
                ..*old(self)
            }),
    {
        self.set_vblank(false);
        self.scanline = Scanline::Visible(0);
        self.cycles += CPU_CYCLES_PER_SCANLINE;
    }

    fn render_scanline(&mut self, interconnect: &mut Interconnect, line: u8)
        requires
            old(self).wf(),
            old(self).scanline == Scanline::Visible(line),
            old(self).cycles <= u64::MAX - 114,
        ensures
            *final(self) == (Ppu {
                cycles: (old(self).cycles + 114) as u64,
                y_scroll: (old(self).y_scroll + 1) as u16,
                scanline: if line == LAST_VISIBLE_SCANLINE {
                    Scanline::PostRender
                } else {
                    Scanline::Visible((line + 1) as u8)
                },
                ..*old(self)
            }),
    {
        let mut x: usize = 0;
        while x < SCREEN_WIDTH
            invariant
                x <= SCREEN_WIDTH,
                self.x_scroll == x,
                *self == (Ppu { x_scroll: x as u16, ..*old(self) }),
            decreases SCREEN_WIDTH - x,
        {
            // Buffering eight pixels at a time, as the hardware does.
            if x % 8 == 0 {
                let _bg_pixel_buffer = self.refresh_buffer(interconnect);
            }
            self.x_scroll += 1;
            x = x + 1;
        }

        self.cycles += CPU_CYCLES_PER_SCANLINE;
        self.y_scroll += 1;
        self.x_scroll = 0;
        if self.scanline == Scanline::Visible(LAST_VISIBLE_SCANLINE) {
            self.scanline = Scanline::PostRender;
        } else {
            self.scanline = Scanline::Visible(line + 1);
        }
    }

    fn postrender(&mut self)
        requires
            old(self).cycles <= u64::MAX - 114,
        ensures
            *final(self) == (Ppu {
                scanline: Scanline::VBlank,
                cycles: (old(self).cycles + 114) as u64,
                ..*old(self)
            }),
    {
        self.scanline = Scanline::VBlank;
        self.cycles += CPU_CYCLES_PER_SCANLINE;
    }

    fn vblank(&mut self, vblank_nmi: &mut bool)
        requires
            old(self).cycles <= u64::MAX - 2280,
        ensures
            *final(self) == (Ppu {
                ppustatus: old(self).ppustatus | VBLANK_FLAG,
                cycles: (old(self).cycles + 2280) as u64,
                scanline: Scanline::PreRender,
                x_scroll: 0,
                y_scroll: 0,
                ..*old(self)
            }),
            *final(vblank_nmi) == (old(self).ppuctrl & 0x80 != 0),
    {
        self.set_vblank(true);
        self.cycles += CPU_CYCLES_PER_SCANLINE * VBLANK_SCANLINES;
        self.scanline = Scanline::PreRender;
        self.x_scroll = 0;
        self.y_scroll = 0;
        *vblank_nmi = self.throw_nmi();
    }

    fn set_vblank(&mut self, status: bool)
        ensures
            *final(self) == (Ppu {
                ppustatus: if status { old(self).ppustatus | VBLANK_FLAG } else { old(self).ppustatus & !VBLANK_FLAG },
                ..*old(self)
            }),
    {
        match status {
            true => {
                self.ppustatus |= VBLANK_FLAG;
            },
            false => {
                self.ppustatus &= !VBLANK_FLAG;
            },
        }
    }

    /// An NMI is raised when bit 7 of PPUCTRL is set.
    fn throw_nmi(&self) -> (r: bool)
        ensures
            r == (self.ppuctrl & 0x80 != 0),
    {
        if (self.ppuctrl & 0x80) != 0 {
            true
        } else {
            false
        }
    }

    /// The colour of palette entry `palette_index`, read from the table
    /// with its first and third bytes swapped.
    pub fn get_color(&self, palette_index: u8) -> (r: RGB)
        requires
            palette_index < 64,
        ensures
            r.red == PALETTE@[palette_index * 3 + 2],
            r.green == PALETTE@[palette_index * 3 + 1],
            r.blue == PALETTE@[palette_index * 3 + 0],
    {
        RGB {
            red: PALETTE[palette_index as usize * 3 + 2],
            green: PALETTE[palette_index as usize * 3 + 1],
            blue: PALETTE[palette_index as usize * 3 + 0],
        }
    }

    /// Fetching is not emulated yet: the buffer comes back empty.
    fn refresh_buffer(&mut self, interconnect: &Interconnect) -> (r: BgPixelBuffer)
        ensures
            *final(self) == *old(self),
            r.pattern_low == 0 && r.pattern_high == 0 && r.attribute == 0,
    {
        BgPixelBuffer { pattern_low: 0, pattern_high: 0, attribute: 0 }
    }
}

/// The walk ends with the PPU caught up: its cycle count at the CPU's or
/// past it by less than one vertical blank.
pub proof fn law_walk_reaches(s: LineState, target: u64, vblank: bool)
    requires
        target <= u64::MAX - 2394,
    ensures
        s.cycles >= target ==> walk(s, target, vblank) == (s, vblank),
        s.cycles < target ==> target <= walk(s, target, vblank).0.cycles < target + 2394,
    decreases (if s.cycles < target { target - s.cycles } else { 0 }),
{
    if s.cycles < target {
        law_walk_reaches(next_line(s).0, target, next_line(s).1);
    }
}


/// The walk takes the lines of a frame in order: post-render comes only
/// after the last visible line, vertical blank only after post-render, and
/// pre-render only after vertical blank; only vertical blank reports itself,
/// and it sets PPUSTATUS bit 7. Each line moves the clock on by 228 CPU
/// cycles, vertical blank by 2394.
pub proof fn law_line_order(s: LineState)
    requires
        s.scanline.valid(),
        s.cycles <= u64::MAX - 2394,
    ensures
        s.scanline != Scanline::VBlank ==> next_line(s).0.cycles == s.cycles + 228,
        s.scanline == Scanline::VBlank ==> next_line(s).0.cycles == s.cycles + 2394,
        next_line(s).0.scanline.valid(),
        next_line(s).1 <==> s.scanline == Scanline::VBlank,
        next_line(s).0.scanline == Scanline::PostRender ==> s.scanline == Scanline::Visible(LAST_VISIBLE_SCANLINE),
        next_line(s).0.scanline == Scanline::VBlank ==> s.scanline == Scanline::PostRender,
        next_line(s).0.scanline == Scanline::PreRender ==> s.scanline == Scanline::VBlank,
        s.scanline == Scanline::VBlank ==> next_line(s).0.ppustatus & VBLANK_FLAG != 0,
{
    assert(forall|p: u8| #[trigger] (p | VBLANK_FLAG) & VBLANK_FLAG != 0) by (bit_vector);
}

} // verus!
