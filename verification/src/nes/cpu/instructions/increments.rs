//! Instructions that increment or decrement memory.
#![allow(non_snake_case)]

use vstd::prelude::*;
use crate::nes::cpu::wrap8;
use crate::nes::cpu::{Cpu, zn, fetch_ok, fetch, store_ok, store, lemma_store_ok_any_p};
use crate::nes::memory::{Memory, MemView};
use super::AddressingMode;

verus! {

pub open spec fn rmw_ok(c: Cpu, m: MemView, mode: AddressingMode) -> bool {
    let (v, c1, m1) = fetch(c, m, mode);
    fetch_ok(c, m, mode) && store_ok(c1, m1, mode)
}

/// The operand plus `delta` (wrapping) is written back, with Zero and
/// Negative from it.
pub open spec fn step_mem_spec(c: Cpu, m: MemView, mode: AddressingMode, delta: int) -> (Cpu, MemView) {
    let (v, c1, m1) = fetch(c, m, mode);
    let r = wrap8(v + delta);
    store(c1.with_p(zn(c1.p, r)), m1, mode, r)
}

/// Instructions to increment / decrement memory values.
impl Cpu {
    /// DECrement memory.
    pub fn DEC(&mut self, mem: &mut Memory, addr_mode: AddressingMode)
        requires
            old(mem).wf(),
            rmw_ok(*old(self), old(mem)@, addr_mode),
        ensures
            final(mem).wf(),
            (*final(self), final(mem)@) == step_mem_spec(*old(self), old(mem)@, addr_mode, -1),
    {
        let val = self.fetch_byte(mem, addr_mode);
        let result = val.wrapping_sub(1);

        let ghost c1 = *self;
        self.set_zn_flags(result);
        proof {
            lemma_store_ok_any_p(c1, mem@, addr_mode, self.p);
        }
        self.set_byte(mem, addr_mode, result);
    }

    /// INCrement memory.
    pub fn INC(&mut self, mem: &mut Memory, addr_mode: AddressingMode)
        requires
            old(mem).wf(),
            rmw_ok(*old(self), old(mem)@, addr_mode),
        ensures
            final(mem).wf(),
            (*final(self), final(mem)@) == step_mem_spec(*old(self), old(mem)@, addr_mode, 1),
    {
        let val = self.fetch_byte(mem, addr_mode);
        let result = val.wrapping_add(1);

        let ghost c1 = *self;
        self.set_zn_flags(result);
        proof {
            lemma_store_ok_any_p(c1, mem@, addr_mode, self.p);
        }
        self.set_byte(mem, addr_mode, val.wrapping_add(1));
    }
}

} // verus!
