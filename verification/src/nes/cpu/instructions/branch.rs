//! Branch instructions.
#![allow(non_snake_case)]

use vstd::prelude::*;
use crate::nes::cpu::wrap16;
use crate::nes::cpu::{Cpu, StatusFlag};
use crate::nes::cpu::memory_map::{read_byte, readable, peek, after_read};
use crate::nes::memory::{Memory, MemView};

verus! {

/// The offset byte read as a signed number.
pub open spec fn signed(off: u8) -> int {
    if off < 128 { off as int } else { off - 256 }
}

pub open spec fn branch_ok(c: Cpu, m: MemView) -> bool {
    readable(m, c.pc1())
}

/// A branch on `flag` being `set`: to the instruction after it plus the
/// signed offset when taken, to the instruction after it otherwise.
pub open spec fn branch_spec(c: Cpu, m: MemView, flag: StatusFlag, set: bool) -> (Cpu, MemView) {
    let off = peek(m, c.pc1());
    let taken = (c.p & flag.bit() != 0) == set;
    let pc = if taken { wrap16(c.pc + 2 + signed(off)) } else { wrap16(c.pc + 2) };
    (Cpu { pc: pc, ..c }, after_read(m, c.pc1()))
}

/// Branch instructions.
impl Cpu {
    fn branch(&mut self, mem: &mut Memory, flag: StatusFlag, branch_if_set: bool)
        requires
            old(mem).wf(),
            branch_ok(*old(self), old(mem)@),
        ensures
            final(mem).wf(),
            (*final(self), final(mem)@) == branch_spec(*old(self), old(mem)@, flag, branch_if_set),
    {
        let offset = read_byte(mem, self.pc.wrapping_add(1));
        // The offset is signed: extend its sign to 16 bits.
        let extended: u16 = if offset < 0x80 { offset as u16 } else { offset as u16 + 0xFF00 };
        let branch_target = self.pc.wrapping_add(2).wrapping_add(extended);
        let branch = self.check_flag(flag, branch_if_set);
        match branch {
            true => {
                self.pc = branch_target;
            },
            false => {
                self.pc = self.pc.wrapping_add(2);
            },
        }
    }

    /// Branch on PLus.
    pub fn BPL(&mut self, mem: &mut Memory)
        requires
            old(mem).wf(),
            branch_ok(*old(self), old(mem)@),
        ensures
            final(mem).wf(),
            (*final(self), final(mem)@) == branch_spec(*old(self), old(mem)@, StatusFlag::Negative, false),
    {
        self.branch(mem, StatusFlag::Negative, false);
    }

    /// Branch on MInus.
    pub fn BMI(&mut self, mem: &mut Memory)
        requires
            old(mem).wf(),
            branch_ok(*old(self), old(mem)@),
        ensures
            final(mem).wf(),
            (*final(self), final(mem)@) == branch_spec(*old(self), old(mem)@, StatusFlag::Negative, true),
    {
        self.branch(mem, StatusFlag::Negative, true);
    }

    /// Branch on oVerflow Clear.
    pub fn BVC(&mut self, mem: &mut Memory)
        requires
            old(mem).wf(),
            branch_ok(*old(self), old(mem)@),
        ensures
            final(mem).wf(),
            (*final(self), final(mem)@) == branch_spec(*old(self), old(mem)@, StatusFlag::Overflow, false),
    {
        self.branch(mem, StatusFlag::Overflow, false);
    }

    /// Branch on oVerflow Set.
    pub fn BVS(&mut self, mem: &mut Memory)
        requires
            old(mem).wf(),
            branch_ok(*old(self), old(mem)@),
        ensures
            final(mem).wf(),
            (*final(self), final(mem)@) == branch_spec(*old(self), old(mem)@, StatusFlag::Overflow, true),
    {
        self.branch(mem, StatusFlag::Overflow, true);
    }

    /// Branch on Carry Clear.
    pub fn BCC(&mut self, mem: &mut Memory)
        requires
            old(mem).wf(),
            branch_ok(*old(self), old(mem)@),
        ensures
            final(mem).wf(),
            (*final(self), final(mem)@) == branch_spec(*old(self), old(mem)@, StatusFlag::Carry, false),
    {
        self.branch(mem, StatusFlag::Carry, false);
    }

    /// Branch on Carry Set.
    pub fn BCS(&mut self, mem: &mut Memory)
        requires
            old(mem).wf(),
            branch_ok(*old(self), old(mem)@),
        ensures
            final(mem).wf(),
            (*final(self), final(mem)@) == branch_spec(*old(self), old(mem)@, StatusFlag::Carry, true),
    {
        self.branch(mem, StatusFlag::Carry, true);
    }

    /// Branch on Not Equal.
    pub fn BNE(&mut self, mem: &mut Memory)
        requires
            old(mem).wf(),
            branch_ok(*old(self), old(mem)@),
        ensures
            final(mem).wf(),
            (*final(self), final(mem)@) == branch_spec(*old(self), old(mem)@, StatusFlag::Zero, false),
    {
        self.branch(mem, StatusFlag::Zero, false);
    }

    /// Branch on EQual.
    pub fn BEQ(&mut self, mem: &mut Memory)
        requires
            old(mem).wf(),
            branch_ok(*old(self), old(mem)@),
        ensures
            final(mem).wf(),
            (*final(self), final(mem)@) == branch_spec(*old(self), old(mem)@, StatusFlag::Zero, true),
    {
        self.branch(mem, StatusFlag::Zero, true);
    }
}

} // verus!
