//! Arithmetic, logic, compare and shift instructions.
#![allow(non_snake_case)]

use vstd::prelude::*;
use crate::nes::cpu::{Cpu, StatusFlag, with_bit, zn, fetch_ok, fetch, store_ok, store, lemma_store_ok_any_p};
use crate::nes::memory::{Memory, MemView};
use super::AddressingMode;

verus! {

/// The status after BIT: Zero from `a & v`, Overflow and Negative from bits
/// 6 and 7 of `v`.
pub open spec fn bit_flags(p: u8, a: u8, v: u8) -> u8 {
    with_bit(with_bit(with_bit(p, 0x02, v & a == 0), 0x40, v & 0x40 != 0), 0x80, v & 0x80 != 0)
}

pub open spec fn bit_spec(c: Cpu, m: MemView, mode: AddressingMode) -> (Cpu, MemView) {
    let (v, c1, m1) = fetch(c, m, mode);
    (c1.with_p(bit_flags(c1.p, c1.a, v)), m1)
}

/// The accumulator set to `r`, with Zero and Negative from it.
pub open spec fn set_a(c: Cpu, r: u8) -> Cpu {
    Cpu { a: r, p: zn(c.p, r), ..c }
}

pub open spec fn ora_spec(c: Cpu, m: MemView, mode: AddressingMode) -> (Cpu, MemView) {
    let (v, c1, m1) = fetch(c, m, mode);
    (set_a(c1, c1.a | v), m1)
}

pub open spec fn and_spec(c: Cpu, m: MemView, mode: AddressingMode) -> (Cpu, MemView) {
    let (v, c1, m1) = fetch(c, m, mode);
    (set_a(c1, c1.a & v), m1)
}

pub open spec fn eor_spec(c: Cpu, m: MemView, mode: AddressingMode) -> (Cpu, MemView) {
    let (v, c1, m1) = fetch(c, m, mode);
    (set_a(c1, c1.a ^ v), m1)
}

/// Adds `val` and the carry to the accumulator: Carry when the sum passes
/// $FF, Overflow when both inputs have one sign and the sum the other.
pub open spec fn add_carry(c: Cpu, val: u16) -> Cpu {
    let a = c.a as u16;
    let sum = (val + a + (c.p & 0x01) as u16) as u16;
    let set_carry = sum > 0xFF;
    let set_overflow = (!(a ^ val) & (a ^ sum) & 0x80) != 0;
    let r = ((val as u8 + c.a + (c.p & 0x01)) % 256) as u8;
    Cpu { a: r, p: with_bit(with_bit(zn(c.p, r), 0x01, set_carry), 0x40, set_overflow), ..c }
}

pub open spec fn adc_spec(c: Cpu, m: MemView, mode: AddressingMode) -> (Cpu, MemView) {
    let (v, c1, m1) = fetch(c, m, mode);
    (add_carry(c1, v as u16), m1)
}

/// SBC adds the complement of the operand.
pub open spec fn sbc_spec(c: Cpu, m: MemView, mode: AddressingMode) -> (Cpu, MemView) {
    let (v, c1, m1) = fetch(c, m, mode);
    (add_carry(c1, (!v) as u16), m1)
}

/// The status after comparing register value `r` with `v`.
pub open spec fn compare_flags(p: u8, r: u8, v: u8) -> u8 {
    with_bit(with_bit(with_bit(p, 0x01, r >= v), 0x02, r == v), 0x80, ((r - v) % 256) as u8 & 0x80 != 0)
}

pub open spec fn cmp_spec(c: Cpu, m: MemView, mode: AddressingMode) -> (Cpu, MemView) {
    let (v, c1, m1) = fetch(c, m, mode);
    (c1.with_p(compare_flags(c1.p, c1.a, v)), m1)
}

pub open spec fn cpx_spec(c: Cpu, m: MemView, mode: AddressingMode) -> (Cpu, MemView) {
    let (v, c1, m1) = fetch(c, m, mode);
    (c1.with_p(compare_flags(c1.p, c1.x, v)), m1)
}

pub open spec fn cpy_spec(c: Cpu, m: MemView, mode: AddressingMode) -> (Cpu, MemView) {
    let (v, c1, m1) = fetch(c, m, mode);
    (c1.with_p(compare_flags(c1.p, c1.y, v)), m1)
}

/// A read-modify-write can run: the operand can be read, and written back
/// through the same mode.
pub open spec fn shift_ok(c: Cpu, m: MemView, mode: AddressingMode) -> bool {
    let (v, c1, m1) = fetch(c, m, mode);
    fetch_ok(c, m, mode) && store_ok(c1, m1, mode)
}

/// The shifted byte and the carry out of an ASL, LSR, ROL or ROR of `v`,
/// with `carry` the carry in.
pub open spec fn shifted(inst: u8, v: u8, carry: bool) -> (u8, bool) {
    if inst == 0 {
        (v << 1u8, v & 0x80 != 0)
    } else if inst == 1 {
        (v >> 1u8, v & 0x01 != 0)
    } else if inst == 2 {
        (if carry { (v << 1u8) | 0x01 } else { (v << 1u8) & !0x01u8 }, v & 0x80 != 0)
    } else {
        (if carry { (v >> 1u8) | 0x80 } else { (v >> 1u8) & !0x80u8 }, v & 0x01 != 0)
    }
}

/// ASL (0), LSR (1), ROL (2) or ROR (3) through `mode`.
pub open spec fn shift_spec(inst: u8, c: Cpu, m: MemView, mode: AddressingMode) -> (Cpu, MemView) {
    let (v, c1, m1) = fetch(c, m, mode);
    let (r, carry) = shifted(inst, v, c1.p & 0x01 != 0);
    let p = with_bit(with_bit(with_bit(c1.p, 0x01, carry), 0x02, r == 0), 0x80, r & 0x80 != 0);
    store(c1.with_p(p), m1, mode, r)
}

impl Cpu {
    /// BIt Test.
    pub fn BIT(&mut self, mem: &mut Memory, addr_mode: AddressingMode)
        requires
            old(mem).wf(),
            fetch_ok(*old(self), old(mem)@, addr_mode),
        ensures
            final(mem).wf(),
            (*final(self), final(mem)@) == bit_spec(*old(self), old(mem)@, addr_mode),
    {
        let val = self.fetch_byte(mem, addr_mode);
        let result = val & self.a;

        self.set_flag(StatusFlag::Zero, result == 0);
        self.set_flag(StatusFlag::Overflow, val & 0x40 != 0);
        self.set_flag(StatusFlag::Negative, val & 0x80 != 0);
    }

    /// OR with Accumulator.
    pub fn ORA(&mut self, mem: &mut Memory, addr_mode: AddressingMode)
        requires
            old(mem).wf(),
            fetch_ok(*old(self), old(mem)@, addr_mode),
        ensures
            final(mem).wf(),
            (*final(self), final(mem)@) == ora_spec(*old(self), old(mem)@, addr_mode),
    {
        let val = self.fetch_byte(mem, addr_mode);
        self.a = self.a | val;
        let a = self.a;
        self.set_zn_flags(a);
    }

    /// AND with accumulator.
    pub fn AND(&mut self, mem: &mut Memory, addr_mode: AddressingMode)
        requires
            old(mem).wf(),
            fetch_ok(*old(self), old(mem)@, addr_mode),
        ensures
            final(mem).wf(),
            (*final(self), final(mem)@) == and_spec(*old(self), old(mem)@, addr_mode),
    {
        let val = self.fetch_byte(mem, addr_mode);
        self.a = self.a & val;
        let a = self.a;
        self.set_zn_flags(a);
    }

    /// Exclusive OR with accumulator.
    pub fn EOR(&mut self, mem: &mut Memory, addr_mode: AddressingMode)
        requires
            old(mem).wf(),
            fetch_ok(*old(self), old(mem)@, addr_mode),
        ensures
            final(mem).wf(),
            (*final(self), final(mem)@) == eor_spec(*old(self), old(mem)@, addr_mode),
    {
        let val = self.fetch_byte(mem, addr_mode);
        self.a = self.a ^ val;
        let a = self.a;
        self.set_zn_flags(a);
    }

    fn add_with_carry(&mut self, val: u16)
        requires
            val <= 0xFF,
        ensures
            *final(self) == add_carry(*old(self), val),
    {
        let a = self.a as u16;
        let sum = val + a + (self.p & 0b1) as u16;
        let set_carry = sum > 0xFF;
        let set_overflow = (!(a ^ val) & (a ^ sum) & 0x80) != 0;

        let sum = (val as u8).wrapping_add(self.a).wrapping_add(self.p & 0b1);

        self.a = sum;
        let a = self.a;
        self.set_zn_flags(a);
        self.set_flag(StatusFlag::Carry, set_carry);
        self.set_flag(StatusFlag::Overflow, set_overflow);
    }

    /// ADd with Carry.
    pub fn ADC(&mut self, mem: &mut Memory, addr_mode: AddressingMode)
        requires
            old(mem).wf(),
            fetch_ok(*old(self), old(mem)@, addr_mode),
        ensures
            final(mem).wf(),
            (*final(self), final(mem)@) == adc_spec(*old(self), old(mem)@, addr_mode),
    {
        let val = self.fetch_byte(mem, addr_mode) as u16;
        self.add_with_carry(val);
    }

    /// SuBtract with Carry: adds the complement of the operand.
    pub fn SBC(&mut self, mem: &mut Memory, addr_mode: AddressingMode)
        requires
            old(mem).wf(),
            fetch_ok(*old(self), old(mem)@, addr_mode),
        ensures
            final(mem).wf(),
            (*final(self), final(mem)@) == sbc_spec(*old(self), old(mem)@, addr_mode),
    {
        let val = !(self.fetch_byte(mem, addr_mode)) as u16;
        self.add_with_carry(val);
    }

    fn compare(&mut self, r: u8, val: u8)
        ensures
            *final(self) == old(self).with_p(compare_flags(old(self).p, r, val)),
    {
        self.set_flag(StatusFlag::Carry, r >= val);
        self.set_flag(StatusFlag::Zero, r == val);

        let val = r.wrapping_sub(val);
        self.set_flag(StatusFlag::Negative, val & 0x80 != 0);
    }

    /// CoMPare accumulator.
    pub fn CMP(&mut self, mem: &mut Memory, addr_mode: AddressingMode)
        requires
            old(mem).wf(),
            fetch_ok(*old(self), old(mem)@, addr_mode),
        ensures
            final(mem).wf(),
            (*final(self), final(mem)@) == cmp_spec(*old(self), old(mem)@, addr_mode),
    {
        let val = self.fetch_byte(mem, addr_mode);
        let a = self.a;
        self.compare(a, val);
    }

    /// ComPare Y register.
    pub fn CPY(&mut self, mem: &mut Memory, addr_mode: AddressingMode)
        requires
            old(mem).wf(),
            fetch_ok(*old(self), old(mem)@, addr_mode),
        ensures
            final(mem).wf(),
            (*final(self), final(mem)@) == cpy_spec(*old(self), old(mem)@, addr_mode),
    {
        let val = self.fetch_byte(mem, addr_mode);
        let y = self.y;
        self.compare(y, val);
    }

    /// ComPare X register.
    pub fn CPX(&mut self, mem: &mut Memory, addr_mode: AddressingMode)
        requires
            old(mem).wf(),
            fetch_ok(*old(self), old(mem)@, addr_mode),
        ensures
            final(mem).wf(),
            (*final(self), final(mem)@) == cpx_spec(*old(self), old(mem)@, addr_mode),
    {
        let val = self.fetch_byte(mem, addr_mode);
        let x = self.x;
        self.compare(x, val);
    }

    /// Sets Carry, Zero and Negative after a shift and writes the result
    /// back.
    fn finish_shift(&mut self, mem: &mut Memory, addr_mode: AddressingMode, val: u8, carry: bool)
        requires
            old(mem).wf(),
            store_ok(*old(self), old(mem)@, addr_mode),
        ensures
            final(mem).wf(),
            (*final(self), final(mem)@) == store(
                old(self).with_p(
                    with_bit(with_bit(with_bit(old(self).p, 0x01, carry), 0x02, val == 0), 0x80, val & 0x80 != 0),
                ),
                old(mem)@,
                addr_mode,
                val,
            ),
    {
        let ghost c0 = *self;
        self.set_flag(StatusFlag::Carry, carry);
        self.set_flag(StatusFlag::Zero, val == 0);
        self.set_flag(StatusFlag::Negative, val & 0x80 != 0);
        proof {
            lemma_store_ok_any_p(c0, mem@, addr_mode, self.p);
        }
        self.set_byte(mem, addr_mode, val);
    }

    /// Arithmetic Shift Left.
    pub fn ASL(&mut self, mem: &mut Memory, addr_mode: AddressingMode)
        requires
            old(mem).wf(),
            shift_ok(*old(self), old(mem)@, addr_mode),
        ensures
            final(mem).wf(),
            (*final(self), final(mem)@) == shift_spec(0, *old(self), old(mem)@, addr_mode),
    {
        let val = self.fetch_byte(mem, addr_mode);
        // Carry set to bit 7
        let carry = val & 0x80 != 0;
        let val = val << 1u8;
        self.finish_shift(mem, addr_mode, val, carry);
    }

    /// Logical Shift Right.
    pub fn LSR(&mut self, mem: &mut Memory, addr_mode: AddressingMode)
        requires
            old(mem).wf(),
            shift_ok(*old(self), old(mem)@, addr_mode),
        ensures
            final(mem).wf(),
            (*final(self), final(mem)@) == shift_spec(1, *old(self), old(mem)@, addr_mode),
    {
        let val = self.fetch_byte(mem, addr_mode);
        // Carry set to bit 0
        let carry = val & 0x01 != 0;
        let val = val >> 1u8;
        self.finish_shift(mem, addr_mode, val, carry);
    }

    /// ROtate Left.
    pub fn ROL(&mut self, mem: &mut Memory, addr_mode: AddressingMode)
        requires
            old(mem).wf(),
            shift_ok(*old(self), old(mem)@, addr_mode),
        ensures
            final(mem).wf(),
            (*final(self), final(mem)@) == shift_spec(2, *old(self), old(mem)@, addr_mode),
    {
        let val = self.fetch_byte(mem, addr_mode);
        let old_carry = self.check_flag(StatusFlag::Carry, true);
        let carry = val & 0x80 != 0;
        let mut val = val << 1u8;
        if old_carry {
            val = val | 0x01;
        } else {
            val = val & !0x01u8;
        }
        self.finish_shift(mem, addr_mode, val, carry);
    }

    /// ROtate Right.
    pub fn ROR(&mut self, mem: &mut Memory, addr_mode: AddressingMode)
        requires
            old(mem).wf(),
            shift_ok(*old(self), old(mem)@, addr_mode),
        ensures
            final(mem).wf(),
            (*final(self), final(mem)@) == shift_spec(3, *old(self), old(mem)@, addr_mode),
    {
        let val = self.fetch_byte(mem, addr_mode);
        let old_carry = self.check_flag(StatusFlag::Carry, true);
        let carry = val & 0x01 != 0;
        let mut val = val >> 1u8;
        if old_carry {
            val = val | 0x80;
        } else {
            val = val & !0x80u8;
        }
        self.finish_shift(mem, addr_mode, val, carry);
    }
}

} // verus!
