//! Register increments, decrements and transfers.
#![allow(non_snake_case)]

use vstd::prelude::*;
use crate::nes::cpu::wrap8;
use crate::nes::cpu::{Cpu, zn};

verus! {

/// Increment / decrement and transfer instructions for registers.
impl Cpu {
    /// DEcrement X register.
    pub fn DEX(&mut self)
        ensures
            *final(self) == (Cpu { x: wrap8(old(self).x - 1), p: zn(old(self).p, wrap8(old(self).x - 1)), ..*old(self) }),
    {
        self.x = self.x.wrapping_sub(1);
        let x = self.x;
        self.set_zn_flags(x);
    }

    /// DEcrement Y register.
    pub fn DEY(&mut self)
        ensures
            *final(self) == (Cpu { y: wrap8(old(self).y - 1), p: zn(old(self).p, wrap8(old(self).y - 1)), ..*old(self) }),
    {
        self.y = self.y.wrapping_sub(1);
        let y = self.y;
        self.set_zn_flags(y);
    }

    /// INcrement X register.
    pub fn INX(&mut self)
        ensures
            *final(self) == (Cpu { x: wrap8(old(self).x + 1), p: zn(old(self).p, wrap8(old(self).x + 1)), ..*old(self) }),
    {
        self.x = self.x.wrapping_add(1);
        let x = self.x;
        self.set_zn_flags(x);
    }

    /// INcrement Y register.
    pub fn INY(&mut self)
        ensures
            *final(self) == (Cpu { y: wrap8(old(self).y + 1), p: zn(old(self).p, wrap8(old(self).y + 1)), ..*old(self) }),
    {
        self.y = self.y.wrapping_add(1);
        let y = self.y;
        self.set_zn_flags(y);
    }

    /// Transfer Accumulator to X register.
    pub fn TAX(&mut self)
        ensures
            *final(self) == (Cpu { x: old(self).a, p: zn(old(self).p, old(self).a), ..*old(self) }),
    {
        self.x = self.a;
        let x = self.x;
        self.set_zn_flags(x);
    }

    /// Transfer X register to Accumulator.
    pub fn TXA(&mut self)
        ensures
            *final(self) == (Cpu { a: old(self).x, p: zn(old(self).p, old(self).x), ..*old(self) }),
    {
        self.a = self.x;
        let a = self.a;
        self.set_zn_flags(a);
    }

    /// Transfer Accumulator to Y register.
    pub fn TAY(&mut self)
        ensures
            *final(self) == (Cpu { y: old(self).a, p: zn(old(self).p, old(self).a), ..*old(self) }),
    {
        self.y = self.a;
        let y = self.y;
        self.set_zn_flags(y);
    }

    /// Transfer Y register to Accumulator.
    pub fn TYA(&mut self)
        ensures
            *final(self) == (Cpu { a: old(self).y, p: zn(old(self).p, old(self).y), ..*old(self) }),
    {
        self.a = self.y;
        let a = self.a;
        self.set_zn_flags(a);
    }
}

} // verus!
