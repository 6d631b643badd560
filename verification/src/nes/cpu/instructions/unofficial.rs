//! Undocumented instructions.
#![allow(non_snake_case)]

use vstd::prelude::*;
use crate::nes::cpu::wrap8;
use crate::nes::cpu::{Cpu, StatusFlag, with_bit, zn, fetch_ok, fetch, store_ok, store, addr_ok, addr_of};
use crate::nes::memory::{Memory, MemView};
use super::AddressingMode;
use super::alu::{shift_ok, shift_spec, ora_spec, and_spec, eor_spec, adc_spec, sbc_spec};
use super::increments::rmw_ok;

verus! {

pub open spec fn lax_spec(c: Cpu, m: MemView, mode: AddressingMode) -> (Cpu, MemView) {
    let (v, c1, m1) = fetch(c, m, mode);
    (Cpu { a: v, x: v, p: zn(c1.p, v), ..c1 }, m1)
}

/// DCP: the operand is decremented and written back, then Zero and Negative
/// compare the accumulator with it.
pub open spec fn dcp_spec(c: Cpu, m: MemView, mode: AddressingMode) -> (Cpu, MemView) {
    let (v, c1, m1) = fetch(c, m, mode);
    let r = wrap8(v - 1);
    let (c2, m2) = store(c1, m1, mode, r);
    (c2.with_p(with_bit(with_bit(c2.p, 0x02, c2.a == r), 0x80, wrap8(c2.a - r) & 0x80 != 0)), m2)
}

/// ISC: the operand is incremented and written back, then SBC runs on it.
pub open spec fn isc_ok(c: Cpu, m: MemView, mode: AddressingMode) -> bool {
    let (v, c1, m1) = fetch(c, m, mode);
    let (c2, m2) = store(c1, m1, mode, wrap8(v + 1));
    rmw_ok(c, m, mode) && fetch_ok(c2, m2, mode)
}

pub open spec fn isc_spec(c: Cpu, m: MemView, mode: AddressingMode) -> (Cpu, MemView) {
    let (v, c1, m1) = fetch(c, m, mode);
    let (c2, m2) = store(c1, m1, mode, wrap8(v + 1));
    sbc_spec(c2, m2, mode)
}

/// A shift (ASL 0, LSR 1, ROL 2, ROR 3) followed by a read of the same
/// operand.
pub open spec fn combo_ok(inst: u8, c: Cpu, m: MemView, mode: AddressingMode) -> bool {
    let (c1, m1) = shift_spec(inst, c, m, mode);
    shift_ok(c, m, mode) && fetch_ok(c1, m1, mode)
}

pub open spec fn anc_spec(c: Cpu, m: MemView, mode: AddressingMode) -> (Cpu, MemView) {
    let (c1, m1) = and_spec(c, m, mode);
    (c1.with_p(with_bit(c1.p, 0x01, c1.a & 0x80 != 0)), m1)
}

/// ARR: the accumulator ANDed with the operand and shifted left; Carry from
/// bit 6 of the result. The overflow mask is `1 << 6 >> 6`, that is bit 0,
/// on both sides of the exclusive or, so Overflow is always cleared.
pub open spec fn arr_spec(c: Cpu, m: MemView, mode: AddressingMode) -> (Cpu, MemView) {
    let (v, c1, m1) = fetch(c, m, mode);
    let a = (c1.a & v) << 1u8;
    let p = with_bit(with_bit(zn(c1.p, a), 0x01, a & 0x40 != 0), 0x40, (a & 0x01) ^ (a & 0x01) != 0);
    (Cpu { a: a, p: p, ..c1 }, m1)
}

pub open spec fn axs_spec(c: Cpu, m: MemView, mode: AddressingMode) -> (Cpu, MemView) {
    let (v, c1, m1) = fetch(c, m, mode);
    let r = wrap8((c1.a & c1.x) - v);
    (c1.with_p(with_bit(zn(c1.p, r), 0x01, (c1.a & c1.x) < v)), m1)
}

/// The byte that XAS, SYA and SXA store: the register ANDed with one more
/// than bits 8 and up of `addr & $F0`, which are always 0.
pub open spec fn high_and(reg: u8, addr: u16) -> u8 {
    reg & wrap8((((addr & 0xF0) >> 8) as u8) + 1)
}

/// XAS, SYA and SXA: the address is taken once for the value and again for
/// the store.
pub open spec fn addr_store_ok(c: Cpu, m: MemView, mode: AddressingMode) -> bool {
    let (addr, c1, m1) = addr_of(c, m, mode);
    addr_ok(c, m, mode) && store_ok(c1, m1, mode)
}

pub open spec fn xas_spec(c: Cpu, m: MemView, mode: AddressingMode) -> (Cpu, MemView) {
    let c0 = Cpu { sp: c.x & c.a, ..c };
    let (addr, c1, m1) = addr_of(c0, m, mode);
    store(c1, m1, mode, high_and(c0.sp, addr))
}

pub open spec fn sya_spec(c: Cpu, m: MemView, mode: AddressingMode) -> (Cpu, MemView) {
    let (addr, c1, m1) = addr_of(c, m, mode);
    store(c1, m1, mode, high_and(c.y, addr))
}

pub open spec fn sxa_spec(c: Cpu, m: MemView, mode: AddressingMode) -> (Cpu, MemView) {
    let (addr, c1, m1) = addr_of(c, m, mode);
    store(c1, m1, mode, high_and(c.x, addr))
}

pub open spec fn atx_spec(c: Cpu, m: MemView, mode: AddressingMode) -> (Cpu, MemView) {
    let (v, c1, m1) = fetch(c, m, mode);
    let a = c1.a & v;
    (Cpu { a: a, x: a, p: zn(c1.p, a), ..c1 }, m1)
}

pub open spec fn lar_spec(c: Cpu, m: MemView, mode: AddressingMode) -> (Cpu, MemView) {
    let (v, c1, m1) = fetch(c, m, mode);
    let s = c1.sp & v;
    (Cpu { sp: s, x: s, a: s, p: zn(c1.p, s), ..c1 }, m1)
}

/// Unofficial instructions.
impl Cpu {
    pub fn NOP_u(&self) {
    }

    pub fn LAX_u(&mut self, mem: &mut Memory, addr_mode: AddressingMode)
        requires
            old(mem).wf(),
            fetch_ok(*old(self), old(mem)@, addr_mode),
        ensures
            final(mem).wf(),
            (*final(self), final(mem)@) == lax_spec(*old(self), old(mem)@, addr_mode),
    {
        let val = self.fetch_byte(mem, addr_mode);
        self.a = val;
        self.x = val;

        // Since both are the same, only have to use one to check flags
        let a = self.a;
        self.set_zn_flags(a);
    }

    pub fn SAX_u(&mut self, mem: &mut Memory, addr_mode: AddressingMode)
        requires
            old(mem).wf(),
            store_ok(*old(self), old(mem)@, addr_mode),
        ensures
            final(mem).wf(),
            (*final(self), final(mem)@) == store(*old(self), old(mem)@, addr_mode, old(self).a & old(self).x),
    {
        let val = self.a & self.x;
        self.set_byte(mem, addr_mode, val);
    }

    pub fn DCP_u(&mut self, mem: &mut Memory, addr_mode: AddressingMode)
        requires
            old(mem).wf(),
            rmw_ok(*old(self), old(mem)@, addr_mode),
        ensures
            final(mem).wf(),
            (*final(self), final(mem)@) == dcp_spec(*old(self), old(mem)@, addr_mode),
    {
        // Equivalent to DEC value then CMP value
        // Flags are weird which is why DEC isn't called directly
        let val = self.fetch_byte(mem, addr_mode);
        let result = val.wrapping_sub(1);
        self.set_byte(mem, addr_mode, result);

        let a = self.a;
        self.set_flag(StatusFlag::Zero, a == result);
        let val = a.wrapping_sub(result);
        self.set_flag(StatusFlag::Negative, val & 0x80 != 0);
    }

    pub fn ISC_u(&mut self, mem: &mut Memory, addr_mode: AddressingMode)
        requires
            old(mem).wf(),
            isc_ok(*old(self), old(mem)@, addr_mode),
        ensures
            final(mem).wf(),
            (*final(self), final(mem)@) == isc_spec(*old(self), old(mem)@, addr_mode),
    {
        // Equivalent to INC value then SBC value
        // Flags are weird which is why INC isn't called directly
        let val = self.fetch_byte(mem, addr_mode);
        let result = val.wrapping_add(1);
        self.set_byte(mem, addr_mode, result);

        self.SBC(mem, addr_mode);
    }

    pub fn SLO_u(&mut self, mem: &mut Memory, addr_mode: AddressingMode)
        requires
            old(mem).wf(),
            combo_ok(0, *old(self), old(mem)@, addr_mode),
        ensures
            final(mem).wf(),
            (*final(self), final(mem)@) == ({
                let (c1, m1) = shift_spec(0, *old(self), old(mem)@, addr_mode);
                ora_spec(c1, m1, addr_mode)
            }),
    {
        // Equivalent to ASL value, then ORA value
        self.ASL(mem, addr_mode);
        self.ORA(mem, addr_mode);
    }

    pub fn RLA_u(&mut self, mem: &mut Memory, addr_mode: AddressingMode)
        requires
            old(mem).wf(),
            combo_ok(2, *old(self), old(mem)@, addr_mode),
        ensures
            final(mem).wf(),
            (*final(self), final(mem)@) == ({
                let (c1, m1) = shift_spec(2, *old(self), old(mem)@, addr_mode);
                and_spec(c1, m1, addr_mode)
            }),
    {
        // Equivalent to ROL value then AND value
        self.ROL(mem, addr_mode);
        self.AND(mem, addr_mode);
    }

    pub fn SRE_u(&mut self, mem: &mut Memory, addr_mode: AddressingMode)
        requires
            old(mem).wf(),
            combo_ok(1, *old(self), old(mem)@, addr_mode),
        ensures
            final(mem).wf(),
            (*final(self), final(mem)@) == ({
                let (c1, m1) = shift_spec(1, *old(self), old(mem)@, addr_mode);
                eor_spec(c1, m1, addr_mode)
            }),
    {
        self.LSR(mem, addr_mode);
        self.EOR(mem, addr_mode);
    }

    pub fn RRA_u(&mut self, mem: &mut Memory, addr_mode: AddressingMode)
        requires
            old(mem).wf(),
            combo_ok(3, *old(self), old(mem)@, addr_mode),
        ensures
            final(mem).wf(),
            (*final(self), final(mem)@) == ({
                let (c1, m1) = shift_spec(3, *old(self), old(mem)@, addr_mode);
                adc_spec(c1, m1, addr_mode)
            }),
    {
        self.ROR(mem, addr_mode);
        self.ADC(mem, addr_mode);
    }

    /// ALR: AND, then LSR in Implied mode. `fetch_byte` has no address for
    /// Implied mode, so the shift can never run: no state meets the
    /// precondition.
    pub fn ALR_u(&mut self, mem: &mut Memory, addr_mode: AddressingMode)
        requires
            old(mem).wf(),
            fetch_ok(*old(self), old(mem)@, addr_mode),
            shift_ok(
                and_spec(*old(self), old(mem)@, addr_mode).0,
                and_spec(*old(self), old(mem)@, addr_mode).1,
                AddressingMode::Implied,
            ),
        ensures
            final(mem).wf(),
            (*final(self), final(mem)@) == ({
                let (c1, m1) = and_spec(*old(self), old(mem)@, addr_mode);
                shift_spec(1, c1, m1, AddressingMode::Implied)
            }),
    {
        self.AND(mem, addr_mode);
        self.LSR(mem, AddressingMode::Implied);
    }

    pub fn ANC_u(&mut self, mem: &mut Memory, addr_mode: AddressingMode)
        requires
            old(mem).wf(),
            fetch_ok(*old(self), old(mem)@, addr_mode),
        ensures
            final(mem).wf(),
            (*final(self), final(mem)@) == anc_spec(*old(self), old(mem)@, addr_mode),
    {
        self.AND(mem, addr_mode);
        let n = self.a & 0x80 != 0;
        self.set_flag(StatusFlag::Carry, n);
    }

    pub fn ARR_u(&mut self, mem: &mut Memory, addr_mode: AddressingMode)
        requires
            old(mem).wf(),
            fetch_ok(*old(self), old(mem)@, addr_mode),
        ensures
            final(mem).wf(),
            (*final(self), final(mem)@) == arr_spec(*old(self), old(mem)@, addr_mode),
    {
        let val = self.fetch_byte(mem, addr_mode);
        self.a = self.a & val;
        self.a = self.a << 1u8;
        let a = self.a;
        self.set_zn_flags(a);
        self.set_flag(StatusFlag::Carry, a & 0x40 != 0);
        self.set_flag(StatusFlag::Overflow, (a & 0x01) ^ (a & 0x01) != 0);
    }

    pub fn AXS_u(&mut self, mem: &mut Memory, addr_mode: AddressingMode)
        requires
            old(mem).wf(),
            fetch_ok(*old(self), old(mem)@, addr_mode),
        ensures
            final(mem).wf(),
            (*final(self), final(mem)@) == axs_spec(*old(self), old(mem)@, addr_mode),
    {
        let val = self.fetch_byte(mem, addr_mode);
        let a = self.a;
        let x = self.x;
        let result = (a & x).wrapping_sub(val);
        self.set_zn_flags(result);
        self.set_flag(StatusFlag::Carry, (a & x) < val);
    }

    pub fn AXA_u(&mut self, mem: &mut Memory, addr_mode: AddressingMode)
        requires
            old(mem).wf(),
            store_ok(*old(self), old(mem)@, addr_mode),
        ensures
            final(mem).wf(),
            (*final(self), final(mem)@) == store(*old(self), old(mem)@, addr_mode, (old(self).x & old(self).a) & 7),
    {
        let a = self.a;
        let x = self.x;
        let val = (x & a) & 7;
        self.set_byte(mem, addr_mode, val);
    }

    pub fn XAS_u(&mut self, mem: &mut Memory, addr_mode: AddressingMode)
        requires
            old(mem).wf(),
            addr_store_ok(Cpu { sp: old(self).x & old(self).a, ..*old(self) }, old(mem)@, addr_mode),
        ensures
            final(mem).wf(),
            (*final(self), final(mem)@) == xas_spec(*old(self), old(mem)@, addr_mode),
    {
        let a = self.a;
        let x = self.x;
        self.sp = x & a;
        let sp = self.sp;
        let addr = (((self.get_addr(mem, addr_mode)) & 0xF0) >> 8) as u8;
        let result = sp & (addr.wrapping_add(1));
        self.set_byte(mem, addr_mode, result);
    }

    pub fn SYA_u(&mut self, mem: &mut Memory, addr_mode: AddressingMode)
        requires
            old(mem).wf(),
            addr_store_ok(*old(self), old(mem)@, addr_mode),
        ensures
            final(mem).wf(),
            (*final(self), final(mem)@) == sya_spec(*old(self), old(mem)@, addr_mode),
    {
        let y = self.y;
        let addr = (((self.get_addr(mem, addr_mode)) & 0xF0) >> 8) as u8;
        let result = y & (addr.wrapping_add(1));
        self.set_byte(mem, addr_mode, result);
    }

    pub fn SXA_u(&mut self, mem: &mut Memory, addr_mode: AddressingMode)
        requires
            old(mem).wf(),
            addr_store_ok(*old(self), old(mem)@, addr_mode),
        ensures
            final(mem).wf(),
            (*final(self), final(mem)@) == sxa_spec(*old(self), old(mem)@, addr_mode),
    {
        let x = self.x;
        let addr = (((self.get_addr(mem, addr_mode)) & 0xF0) >> 8) as u8;
        let result = x & (addr.wrapping_add(1));
        self.set_byte(mem, addr_mode, result);
    }

    pub fn ATX_u(&mut self, mem: &mut Memory, addr_mode: AddressingMode)
        requires
            old(mem).wf(),
            fetch_ok(*old(self), old(mem)@, addr_mode),
        ensures
            final(mem).wf(),
            (*final(self), final(mem)@) == atx_spec(*old(self), old(mem)@, addr_mode),
    {
        let byte = self.fetch_byte(mem, addr_mode);
        self.a = self.a & byte;
        self.x = self.a;
        let x = self.x;
        self.set_zn_flags(x);
    }

    pub fn LAR_u(&mut self, mem: &mut Memory, addr_mode: AddressingMode)
        requires
            old(mem).wf(),
            fetch_ok(*old(self), old(mem)@, addr_mode),
        ensures
            final(mem).wf(),
            (*final(self), final(mem)@) == lar_spec(*old(self), old(mem)@, addr_mode),
    {
        let val = self.fetch_byte(mem, addr_mode);
        self.sp = self.sp & val;
        self.x = self.sp;
        self.a = self.sp;
        let a = self.a;
        self.set_zn_flags(a);
    }
}

} // verus!
