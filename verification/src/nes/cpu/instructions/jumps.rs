//! Jump, call and return instructions.
#![allow(non_snake_case)]

use vstd::prelude::*;
use crate::nes::cpu::wrap16;
use crate::nes::cpu::{Cpu, Interrupt, push, pop, interrupt_ok, interrupt_spec};
use crate::nes::cpu::memory_map::{read_byte, read_word, readable, peek, after_read, word_readable, peek_word};
use crate::nes::memory::{Memory, MemView};
use super::AddressingMode;

verus! {

pub open spec fn jsr_ok(c: Cpu, m: MemView) -> bool {
    word_readable(m, c.pc1())
}

/// JSR pushes the address of its own last byte, high byte first, and jumps
/// to its operand.
pub open spec fn jsr_spec(c: Cpu, m: MemView) -> (Cpu, MemView) {
    let target = peek_word(m, c.pc1());
    let ret = wrap16(c.pc + 2);
    let (c1, m1) = push(c, m, ((ret & 0xFF00) >> 8) as u8);
    let (c2, m2) = push(c1, m1, (ret & 0xFF) as u8);
    (Cpu { pc: target, ..c2 }, m2)
}

/// The pointer of an indirect JMP whose low byte is $FF reads its high byte
/// from the start of the same page.
pub open spec fn high_pointer(addr: u16) -> u16 {
    if addr & 0xFF == 0xFF { addr & 0xFF00 } else { wrap16(addr + 1) }
}

pub open spec fn jmp_ok(c: Cpu, m: MemView, mode: AddressingMode) -> bool {
    &&& word_readable(m, c.pc1())
    &&& mode == AddressingMode::Absolute || mode == AddressingMode::Indirect
    &&& mode == AddressingMode::Indirect ==> {
        let addr = peek_word(m, c.pc1());
        readable(m, addr) && readable(after_read(m, addr), high_pointer(addr))
    }
}

pub open spec fn jmp_spec(c: Cpu, m: MemView, mode: AddressingMode) -> (Cpu, MemView) {
    let addr = peek_word(m, c.pc1());
    if mode == AddressingMode::Absolute {
        (Cpu { pc: addr, ..c }, m)
    } else {
        let m1 = after_read(m, addr);
        let target = (peek(m, addr) + 256 * peek(m1, high_pointer(addr))) as u16;
        (Cpu { pc: target, ..c }, after_read(m1, high_pointer(addr)))
    }
}

/// RTI pulls the status (with bit 5 set), then the return address.
pub open spec fn rti_spec(c: Cpu, m: MemView) -> Cpu {
    let (p, c1) = pop(c, m);
    let (lo, c2) = pop(c1, m);
    let (hi, c3) = pop(c2, m);
    Cpu { p: p | 0x20, pc: (hi as u16) << 8 | (lo as u16), ..c3 }
}

/// RTS pulls the return address and goes to the byte after it.
pub open spec fn rts_spec(c: Cpu, m: MemView) -> Cpu {
    let (lo, c1) = pop(c, m);
    let (hi, c2) = pop(c1, m);
    Cpu { pc: wrap16(((hi as u16) << 8 | (lo as u16)) + 1), ..c2 }
}

/// Jump and return instructions.
impl Cpu {
    /// BReaK.
    pub fn BRK(&mut self, mem: &mut Memory)
        requires
            old(mem).wf(),
            interrupt_ok(*old(self), old(mem)@, Interrupt::BRK),
        ensures
            final(mem).wf(),
            (*final(self), final(mem)@) == interrupt_spec(*old(self), old(mem)@, Interrupt::BRK),
    {
        self.interrupt(mem, Interrupt::BRK);
    }

    /// Jump to SubRoutine.
    pub fn JSR(&mut self, mem: &mut Memory)
        requires
            old(mem).wf(),
            jsr_ok(*old(self), old(mem)@),
        ensures
            final(mem).wf(),
            (*final(self), final(mem)@) == jsr_spec(*old(self), old(mem)@),
    {
        let jump_target = read_word(mem, self.pc.wrapping_add(1));
        let ret = self.pc.wrapping_add(2);
        let addr_low = (ret & 0b1111_1111) as u8;
        let addr_high = ((ret & 0b1111_1111_0000_0000) >> 8) as u8;

        self.push_stack(mem, addr_high);
        self.push_stack(mem, addr_low);

        self.pc = jump_target;
    }

    /// JuMP to address. An indirect jump through a pointer at the end of a
    /// page takes its high byte from the start of that page: JMP ($30FF)
    /// reads $30FF and $3000.
    pub fn JMP(&mut self, mem: &mut Memory, addr_mode: AddressingMode)
        requires
            old(mem).wf(),
            jmp_ok(*old(self), old(mem)@, addr_mode),
        ensures
            final(mem).wf(),
            (*final(self), final(mem)@) == jmp_spec(*old(self), old(mem)@, addr_mode),
    {
        let jump_target = match addr_mode {
            AddressingMode::Absolute => {
                let val = read_word(mem, self.pc.wrapping_add(1));
                val
            },
            _ => {
                // Indirect
                let addr = read_word(mem, self.pc.wrapping_add(1));
                let val = {
                    if addr & 0xFF == 0xFF {
                        let low = read_byte(mem, addr);
                        // keep upper byte and make low byte 0
                        let high = read_byte(mem, addr & 0xFF00);
                        low as u16 + (high as u16) * 256
                    } else {
                        let low = read_byte(mem, addr);
                        let high = read_byte(mem, addr.wrapping_add(1));
                        low as u16 + (high as u16) * 256
                    }
                };
                val
            },
        };
        self.pc = jump_target;
    }

    /// ReTurn from Interrupt.
    pub fn RTI(&mut self, mem: &mut Memory)
        requires
            old(mem).wf(),
        ensures
            *final(mem) == *old(mem),
            *final(self) == rti_spec(*old(self), old(mem)@),
    {
        self.p = self.pop_stack(mem);
        self.p = self.p | 0x20;  // Bit 5 always on

        let addr_low = self.pop_stack(mem);
        let addr_high = self.pop_stack(mem);
        let ret_addr = (addr_high as u16) << 8 | (addr_low as u16);

        self.pc = ret_addr;
    }

    /// ReTurn from Subroutine.
    pub fn RTS(&mut self, mem: &mut Memory)
        requires
            old(mem).wf(),
        ensures
            *final(mem) == *old(mem),
            *final(self) == rts_spec(*old(self), old(mem)@),
    {
        let addr_low = self.pop_stack(mem);
        let addr_high = self.pop_stack(mem);

        let ret_addr = (addr_high as u16) << 8 | (addr_low as u16);

        self.pc = ret_addr.wrapping_add(1);
    }
}

} // verus!
