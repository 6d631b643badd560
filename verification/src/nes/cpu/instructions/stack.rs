//! Instructions that use the stack.
#![allow(non_snake_case)]

use vstd::prelude::*;
use crate::nes::cpu::{Cpu, StatusFlag, with_bit, push, pop};
use crate::nes::memory::{Memory, MemView};

verus! {

/// PLA: the pulled byte goes to the accumulator, with Zero and Negative
/// from it.
pub open spec fn pla_spec(c: Cpu, m: MemView) -> Cpu {
    let (v, c1) = pop(c, m);
    Cpu { a: v, p: with_bit(with_bit(c1.p, 0x02, v == 0), 0x80, v & 0x80 != 0), ..c1 }
}

/// PLP: the pulled byte becomes the status, without bit 4 and with bit 5.
pub open spec fn plp_spec(c: Cpu, m: MemView) -> Cpu {
    let (v, c1) = pop(c, m);
    c1.with_p((v & 0b1110_1111) | 0x20)
}

/// Stack related instructions.
impl Cpu {
    /// PusH Processor status, with bit 4 set.
    pub fn PHP(&mut self, mem: &mut Memory)
        requires
            old(mem).wf(),
        ensures
            final(mem).wf(),
            (*final(self), final(mem)@) == push(*old(self), old(mem)@, old(self).p | 0x10),
    {
        let val = self.p | 0x10;  // By spec. Bit 4 is always set in this op
        self.push_stack(mem, val);
    }

    /// PuLl Processor status.
    pub fn PLP(&mut self, mem: &mut Memory)
        requires
            old(mem).wf(),
        ensures
            *final(mem) == *old(mem),
            *final(self) == plp_spec(*old(self), old(mem)@),
    {
        self.p = self.pop_stack(mem) & 0b1110_1111;  // Bit 4 is ignored
        self.p = self.p | 0x20;  // Bit 5 must always be 1
    }

    /// PusH Accumulator.
    pub fn PHA(&mut self, mem: &mut Memory)
        requires
            old(mem).wf(),
        ensures
            final(mem).wf(),
            (*final(self), final(mem)@) == push(*old(self), old(mem)@, old(self).a),
    {
        let val = self.a;
        self.push_stack(mem, val);
    }

    /// PuLl Accumulator.
    pub fn PLA(&mut self, mem: &mut Memory)
        requires
            old(mem).wf(),
        ensures
            *final(mem) == *old(mem),
            *final(self) == pla_spec(*old(self), old(mem)@),
    {
        self.a = self.pop_stack(mem);

        let a = self.a;
        self.set_flag(StatusFlag::Zero, a == 0);
        self.set_flag(StatusFlag::Negative, a & 0x80 != 0);
    }

    /// Transfer X register to Stack pointer.
    pub fn TXS(&mut self)
        ensures
            *final(self) == (Cpu { sp: old(self).x, ..*old(self) }),
    {
        self.sp = self.x;
    }

    /// Transfer Stack pointer to X register.
    pub fn TSX(&mut self)
        ensures
            *final(self) == (Cpu {
                x: old(self).sp,
                p: with_bit(with_bit(old(self).p, 0x02, old(self).sp == 0), 0x80, old(self).sp & 0x80 != 0),
                ..*old(self)
            }),
    {
        self.x = self.sp;

        let x = self.x;
        self.set_flag(StatusFlag::Zero, x == 0);
        self.set_flag(StatusFlag::Negative, x & 0x80 != 0);
    }
}

} // verus!
