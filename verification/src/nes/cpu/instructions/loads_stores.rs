//! Instructions that load from or store to memory.
#![allow(non_snake_case)]

use vstd::prelude::*;
use crate::nes::cpu::{Cpu, zn, fetch_ok, fetch, store_ok, store};
use crate::nes::memory::{Memory, MemView};
use super::AddressingMode;

verus! {

pub open spec fn lda_spec(c: Cpu, m: MemView, mode: AddressingMode) -> (Cpu, MemView) {
    let (v, c1, m1) = fetch(c, m, mode);
    (Cpu { a: v, p: zn(c1.p, v), ..c1 }, m1)
}

pub open spec fn ldx_spec(c: Cpu, m: MemView, mode: AddressingMode) -> (Cpu, MemView) {
    let (v, c1, m1) = fetch(c, m, mode);
    (Cpu { x: v, p: zn(c1.p, v), ..c1 }, m1)
}

pub open spec fn ldy_spec(c: Cpu, m: MemView, mode: AddressingMode) -> (Cpu, MemView) {
    let (v, c1, m1) = fetch(c, m, mode);
    (Cpu { y: v, p: zn(c1.p, v), ..c1 }, m1)
}

/// Load and store instructions.
impl Cpu {
    /// LoaD Accumulator.
    pub fn LDA(&mut self, mem: &mut Memory, addr_mode: AddressingMode)
        requires
            old(mem).wf(),
            fetch_ok(*old(self), old(mem)@, addr_mode),
        ensures
            final(mem).wf(),
            (*final(self), final(mem)@) == lda_spec(*old(self), old(mem)@, addr_mode),
    {
        let val = self.fetch_byte(mem, addr_mode);
        self.a = val;
        self.set_zn_flags(val);
    }

    /// LoaD X register.
    pub fn LDX(&mut self, mem: &mut Memory, addr_mode: AddressingMode)
        requires
            old(mem).wf(),
            fetch_ok(*old(self), old(mem)@, addr_mode),
        ensures
            final(mem).wf(),
            (*final(self), final(mem)@) == ldx_spec(*old(self), old(mem)@, addr_mode),
    {
        let val = self.fetch_byte(mem, addr_mode);
        self.x = val;
        self.set_zn_flags(val);
    }

    /// LoaD Y register.
    pub fn LDY(&mut self, mem: &mut Memory, addr_mode: AddressingMode)
        requires
            old(mem).wf(),
            fetch_ok(*old(self), old(mem)@, addr_mode),
        ensures
            final(mem).wf(),
            (*final(self), final(mem)@) == ldy_spec(*old(self), old(mem)@, addr_mode),
    {
        let val = self.fetch_byte(mem, addr_mode);
        self.y = val;
        self.set_zn_flags(val);
    }

    /// STore Accumulator.
    pub fn STA(&mut self, mem: &mut Memory, addr_mode: AddressingMode)
        requires
            old(mem).wf(),
            store_ok(*old(self), old(mem)@, addr_mode),
        ensures
            final(mem).wf(),
            (*final(self), final(mem)@) == store(*old(self), old(mem)@, addr_mode, old(self).a),
    {
        let val = self.a;
        self.set_byte(mem, addr_mode, val);
    }

    /// STore X register.
    pub fn STX(&mut self, mem: &mut Memory, addr_mode: AddressingMode)
        requires
            old(mem).wf(),
            store_ok(*old(self), old(mem)@, addr_mode),
        ensures
            final(mem).wf(),
            (*final(self), final(mem)@) == store(*old(self), old(mem)@, addr_mode, old(self).x),
    {
        let val = self.x;
        self.set_byte(mem, addr_mode, val);
    }

    /// STore Y register.
    pub fn STY(&mut self, mem: &mut Memory, addr_mode: AddressingMode)
        requires
            old(mem).wf(),
            store_ok(*old(self), old(mem)@, addr_mode),
        ensures
            final(mem).wf(),
            (*final(self), final(mem)@) == store(*old(self), old(mem)@, addr_mode, old(self).y),
    {
        let val = self.y;
        self.set_byte(mem, addr_mode, val);
    }
}

} // verus!
