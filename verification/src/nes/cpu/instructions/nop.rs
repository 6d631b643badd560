//! The NOP instruction.
#![allow(non_snake_case)]

use vstd::prelude::*;
use crate::nes::cpu::Cpu;

verus! {

impl Cpu {
    /// No OPeration.
    pub fn NOP(&self) {
    }
}

} // verus!
