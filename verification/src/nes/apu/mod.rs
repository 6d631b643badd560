//! The Audio Processing Unit. Its registers are not emulated yet.
use vstd::prelude::*;

verus! {

pub struct Apu {
}

impl Apu {
    pub fn new() -> (r: Apu) {
        Apu {  }
    }

    /// Reads of the APU registers give 0.
    pub fn read_byte(&self, addr: u16) -> (r: u8)
        ensures
            r == 0,
    {
        0
    }

    /// Writes to the APU registers are ignored.
    pub fn write_byte(&mut self, addr: u16, val: u8) {
    }
}

} // verus!
