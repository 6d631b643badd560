//! What the first SDL front end decides without SDL: its inputs and its
//! window sizes.
pub mod sdl;

use vstd::prelude::*;

verus! {

pub const DEFAULT_SCREEN_WIDTH: u32 = 256;
pub const DEFAULT_SCREEN_HEIGHT: u32 = 240;

/// What the event loop tells the emulator.
#[derive(Debug, Clone, Copy, PartialEq, Eq, Structural)]
pub enum Input {
    Continue,
    Quit,
}

/// The window sizes on offer.
#[derive(Debug, Clone, Copy, PartialEq, Eq, Structural)]
pub enum ScreenSize {
    Default,
    Medium,
    Large,
}

impl ScreenSize {
    /// The window's width and height: the NES picture at one, two or four
    /// times its size.
    pub fn dimensions(self) -> (r: (u32, u32))
        ensures
            r == (match self {
                ScreenSize::Default => (256u32, 240u32),
                ScreenSize::Medium => (512u32, 480u32),
                ScreenSize::Large => (1024u32, 960u32),
            }),
    {
        match self {
            ScreenSize::Default => (256, 240),
            ScreenSize::Medium => (512, 480),
            ScreenSize::Large => (1024, 960),
        }
    }
}

} // verus!
