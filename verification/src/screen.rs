//! The size of the NES picture.
use vstd::prelude::*;

verus! {

pub const NES_WIDTH: u32 = 256;
pub const NES_HEIGHT: u32 = 240;
/// Red, green and blue bytes for every pixel.
pub const SCREEN_SIZE: usize = 184320;

} // verus!
