//! What the second SDL front end decides without SDL: its inputs and how
//! far it scales the picture.
use vstd::prelude::*;

verus! {

pub const SCREEN_WIDTH: u32 = 256;
pub const SCREEN_HEIGHT: u32 = 240;
/// In pixels times 3 for RGB.
pub const SCREEN_SIZE: u32 = 184320;

#[derive(Debug, Clone, Copy, PartialEq, Eq, Structural)]
pub enum Input {
    Continue,
    Quit,
}

#[derive(Debug, Clone, Copy, PartialEq, Eq, Structural)]
pub enum ScreenSize {
    Default,
    Medium,
    Large,
}

impl ScreenSize {
    /// How many times the picture is scaled.
    pub fn factor(self) -> (r: u32)
        ensures
            r == self.factor_spec(),
    {
        match self {
            ScreenSize::Default => 1,
            ScreenSize::Medium => 2,
            ScreenSize::Large => 3,
        }
    }

    /// The window's width and height at this scale.
    pub fn window_size(self) -> (r: (u32, u32))
        ensures
            r.0 == SCREEN_WIDTH * self.factor_spec(),
            r.1 == SCREEN_HEIGHT * self.factor_spec(),
    {
        (SCREEN_WIDTH * self.factor(), SCREEN_HEIGHT * self.factor())
    }

    pub open spec fn factor_spec(self) -> u32 {
        match self {
            ScreenSize::Default => 1u32,
            ScreenSize::Medium => 2u32,
            ScreenSize::Large => 3u32,
        }
    }
}

} // verus!
