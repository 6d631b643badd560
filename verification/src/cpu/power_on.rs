//! The 6502's registers at power on.
use vstd::prelude::*;

verus! {

#[derive(Debug)]
pub struct Cpu {
    a: u8,  // Accumulator

    x: u8,  // x-Index
    y: u8,  // y-index

    pc: u16,  // Program counter

    s: u8,  // Stack pointer

    p: u8,  // Status register
}

impl Cpu {
    /// The registers as (A, X, Y, PC, S, P).
    pub closed spec fn regs(&self) -> (u8, u8, u8, u16, u8, u8) {
        (self.a, self.x, self.y, self.pc, self.s, self.p)
    }

    /// Zeroed registers, the stack pointer at $FD and the status at $34.
    pub fn new() -> (r: Cpu)
        ensures
            r.regs() == (0u8, 0u8, 0u8, 0u16, 0xfdu8, 0x34u8),
    {
        Cpu {
            a: 0,

            x: 0,
            y: 0,

            pc: 0x0000,

            s: 0xfd,

            p: 0x34,
        }
    }

    pub fn a(&self) -> (r: u8)
        ensures
            r == self.regs().0,
    {
        self.a
    }

    pub fn pc(&self) -> (r: u16)
        ensures
            r == self.regs().3,
    {
        self.pc
    }

    pub fn s(&self) -> (r: u8)
        ensures
            r == self.regs().4,
    {
        self.s
    }

    pub fn p(&self) -> (r: u8)
        ensures
            r == self.regs().5,
    {
        self.p
    }
}

} // verus!
