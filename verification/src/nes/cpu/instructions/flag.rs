//! Set and clear flag instructions.
#![allow(non_snake_case)]

use vstd::prelude::*;
use crate::nes::cpu::{Cpu, StatusFlag};

verus! {

/// Flag instructions.
impl Cpu {
    /// CLear Carry.
    pub fn CLC(&mut self)
        ensures
            *final(self) == old(self).with_p(old(self).p & !0x01u8),
    {
        self.set_flag(StatusFlag::Carry, false);
    }

    /// SEt Carry.
    pub fn SEC(&mut self)
        ensures
            *final(self) == old(self).with_p(old(self).p | 0x01),
    {
        self.set_flag(StatusFlag::Carry, true);
    }

    /// CLear Interrupt disable.
    pub fn CLI(&mut self)
        ensures
            *final(self) == old(self).with_p(old(self).p & !0x04u8),
    {
        self.set_flag(StatusFlag::IntDisable, false);
    }

    /// SEt Interrupt disable.
    pub fn SEI(&mut self)
        ensures
            *final(self) == old(self).with_p(old(self).p | 0x04),
    {
        self.set_flag(StatusFlag::IntDisable, true);
    }

    /// CLear oVerflow.
    pub fn CLV(&mut self)
        ensures
            *final(self) == old(self).with_p(old(self).p & !0x40u8),
    {
        self.set_flag(StatusFlag::Overflow, false);
    }

    /// CLear Decimal.
    pub fn CLD(&mut self)
        ensures
            *final(self) == old(self).with_p(old(self).p & !0x08u8),
    {
        self.set_flag(StatusFlag::Decimal, false);
    }

    /// SEt Decimal.
    pub fn SED(&mut self)
        ensures
            *final(self) == old(self).with_p(old(self).p | 0x08),
    {
        self.set_flag(StatusFlag::Decimal, true);
    }
}

} // verus!
