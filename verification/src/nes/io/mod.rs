//! The I/O registers ($4000-$4017). They are not emulated yet.
use vstd::prelude::*;

verus! {

pub struct Io {
}

impl Io {
    pub fn new() -> (r: Io) {
        Io {  }
    }

    /// Reads of the I/O registers give 0.
    pub fn read_byte(&mut self, addr: u16) -> (r: u8)
        ensures
            r == 0,
            *final(self) == *old(self),
    {
        0
    }

    /// Writes to the I/O registers are ignored.
    pub fn write_byte(&mut self, addr: u16, val: u8)
        ensures
            *final(self) == *old(self),
    {
    }
}

} // verus!
