//! Properties of the machine the interpreter runs on, over the spec
//! functions its contracts use.
use vstd::prelude::*;
use crate::nes::cpu::instructions::{AddressingMode, Instruction, opcode_table};
use crate::nes::cpu::laws::{operand_len, moves_pc};
use super::machine::{MachineState, Operand, flag, set_flag, with_zn, wrap8, wrap16, CARRY, ZERO, INTERRUPT, DECIMAL, OVERFLOW, NEGATIVE, STACK_COPY, ALWAYS_SET};

verus! {

/// The internal RAM is mirrored: the addresses $0800, $1000 and $1800 above
/// a RAM address read the same byte.
pub proof fn law_ram_mirrors(m: MachineState, addr: u16, k: u16)
    requires
        addr < 0x800,
        1 <= k <= 3,
    ensures
        m.peek((addr + 0x800 * k) as u16) == m.peek(addr),
{
    assert((addr + 0x800 * k) % 0x800 == addr as int % 0x800) by (nonlinear_arith)
        requires
            addr < 0x800,
            1 <= k <= 3,
    ;
}

/// A read after a write at the same address returns what was written.
pub proof fn law_read_after_write(m: MachineState, addr: u16, val: u8)
    requires
        m.wf(),
        m.readable(addr),
    ensures
        m.poke(addr, val).peek(addr) == val,
{
}

/// A write leaves every byte that it does not alias unchanged: RAM addresses
/// alias when they agree modulo $800, cartridge addresses when they are equal.
pub proof fn law_write_frame(m: MachineState, addr: u16, other: u16, val: u8)
    requires
        m.wf(),
        m.readable(addr),
        m.readable(other),
        addr < 0x2000 && other < 0x2000 ==> addr % 0x800 != other % 0x800,
        !(addr < 0x2000 && other < 0x2000) ==> addr != other,
        addr < 0x2000 <==> other < 0x2000,
    ensures
        m.poke(addr, val).peek(other) == m.peek(other),
{
}

/// Pushing the accumulator and pulling it back restores both the accumulator
/// and the stack pointer.
pub proof fn law_pha_pla(m: MachineState)
    requires
        m.wf(),
        m.regs.s > 0,
    ensures
        m.apply(Instruction::PHA, Operand::Accumulator).apply(Instruction::PLA, Operand::Accumulator).regs.a
            == m.regs.a,
        m.apply(Instruction::PHA, Operand::Accumulator).apply(Instruction::PLA, Operand::Accumulator).regs.s
            == m.regs.s,
{
}

/// Pushing the status and pulling it back restores every flag but bit 4,
/// which is cleared, and bit 5, which is set.
pub proof fn law_php_plp(m: MachineState)
    requires
        m.wf(),
        m.regs.s > 0,
    ensures
        m.apply(Instruction::PHP, Operand::Accumulator).apply(Instruction::PLP, Operand::Accumulator).regs.p
            == (m.regs.p & 0b1110_1111) | ALWAYS_SET,
        m.apply(Instruction::PHP, Operand::Accumulator).apply(Instruction::PLP, Operand::Accumulator).regs.s
            == m.regs.s,
{
    let p = m.regs.p;
    assert(((p | STACK_COPY) & 0b1110_1111u8) == (p & 0b1110_1111u8)) by (bit_vector);
}

/// SEC sets the carry and CLC clears it.
pub proof fn law_sec_clc(m: MachineState)
    ensures
        flag(m.apply(Instruction::SEC, Operand::Accumulator).regs.p, CARRY),
        !flag(m.apply(Instruction::CLC, Operand::Accumulator).regs.p, CARRY),
{
    let p = m.regs.p;
    assert((p | CARRY) & CARRY != 0) by (bit_vector);
    assert((p & !CARRY) & CARRY == 0) by (bit_vector);
}

/// INX and DEX undo each other, as do INY and DEY.
pub proof fn law_inc_dec_registers(m: MachineState)
    ensures
        m.apply(Instruction::INX, Operand::Accumulator).apply(Instruction::DEX, Operand::Accumulator).regs.x
            == m.regs.x,
        m.apply(Instruction::DEX, Operand::Accumulator).apply(Instruction::INX, Operand::Accumulator).regs.x
            == m.regs.x,
        m.apply(Instruction::INY, Operand::Accumulator).apply(Instruction::DEY, Operand::Accumulator).regs.y
            == m.regs.y,
{
}

/// ADC computes the sum: the new accumulator plus 256 times the new carry is
/// A + M + C.
pub proof fn law_adc_sum(m: MachineState, v: u8)
    ensures
        m.adc(v).regs.a + (if flag(m.adc(v).regs.p, CARRY) { 256int } else { 0 })
            == m.regs.a + v + (if flag(m.regs.p, CARRY) { 1int } else { 0 }),
{
    let sum = m.regs.a + v + (if flag(m.regs.p, CARRY) { 1int } else { 0 });
    let p = m.regs.p;
    let p1 = super::machine::set_flag(p, ZERO, wrap8(sum) == 0);
    let p2 = super::machine::set_flag(p1, super::machine::OVERFLOW,
        (m.regs.a >= 128) == (v >= 128) && (wrap8(sum) >= 128) != (m.regs.a >= 128));
    let p3 = super::machine::set_flag(p2, CARRY, sum > 255);
    let p4 = super::machine::set_flag(p3, NEGATIVE, wrap8(sum) >= 128);
    assert(p3 & CARRY != 0 <==> sum > 255) by {
        if sum > 255 {
            assert((p2 | CARRY) & CARRY != 0) by (bit_vector);
        } else {
            assert((p2 & !CARRY) & CARRY == 0) by (bit_vector);
        }
    }
    assert(p4 & CARRY == p3 & CARRY) by {
        if wrap8(sum) >= 128 {
            assert((p3 | NEGATIVE) & CARRY == p3 & CARRY) by (bit_vector);
        } else {
            assert((p3 & !NEGATIVE) & CARRY == p3 & CARRY) by (bit_vector);
        }
    }
}

/// The compare instructions set Carry exactly when the register is at
/// least the operand and Zero exactly when they are equal.
pub proof fn law_compare_flags(m: MachineState, lhs: u8, v: u8)
    ensures
        flag(m.compare(lhs, v).regs.p, CARRY) == (lhs >= v),
        flag(m.compare(lhs, v).regs.p, ZERO) == (lhs == v),
{
    let p = m.regs.p;
    let c = lhs >= v;
    let z = lhs == v;
    let n = wrap8(lhs - v) >= 128;
    let p1 = super::machine::set_flag(p, CARRY, c);
    let p2 = super::machine::set_flag(p1, ZERO, z);
    let p3 = super::machine::set_flag(p2, NEGATIVE, n);
    assert(p1 & CARRY != 0 <==> c) by {
        if c { assert((p | CARRY) & CARRY != 0) by (bit_vector); } else { assert((p & !CARRY) & CARRY == 0) by (bit_vector); }
    }
    assert(p2 & ZERO != 0 <==> z) by {
        if z { assert((p1 | ZERO) & ZERO != 0) by (bit_vector); } else { assert((p1 & !ZERO) & ZERO == 0) by (bit_vector); }
    }
    assert(p2 & CARRY == p1 & CARRY) by {
        if z { assert((p1 | ZERO) & CARRY == p1 & CARRY) by (bit_vector); } else { assert((p1 & !ZERO) & CARRY == p1 & CARRY) by (bit_vector); }
    }
    assert(p3 & CARRY == p2 & CARRY && p3 & ZERO == p2 & ZERO) by {
        if n {
            assert((p2 | NEGATIVE) & CARRY == p2 & CARRY) by (bit_vector);
            assert((p2 | NEGATIVE) & ZERO == p2 & ZERO) by (bit_vector);
        } else {
            assert((p2 & !NEGATIVE) & CARRY == p2 & CARRY) by (bit_vector);
            assert((p2 & !NEGATIVE) & ZERO == p2 & ZERO) by (bit_vector);
        }
    }
}

/// A subroutine call followed by a return resumes right after the three-byte
/// JSR, with the stack pointer restored.
pub proof fn law_jsr_rts(m: MachineState)
    requires
        m.wf(),
        m.step_ok(),
        m.opcode() == 0x20,
        m.step().step_ok(),
        m.step().opcode() == 0x60,
    ensures
        m.step().step().regs.pc == m.regs.pc + 3,
        m.step().step().regs.s == m.regs.s,
{
    let m1 = m.with_pc((m.regs.pc + 1) as u16);
    let (o, pc2) = m1.operand(AddressingMode::Absolute);
    let m2 = m1.with_pc(pc2);
    let ret = (pc2 - 1) as u16;
    assert(ret == m.regs.pc + 2);
    assert(ret / 256 < 256 && ret % 256 < 256);
    let m3 = m.step();
    assert(m3 == m2.push_word(ret).with_pc(m1.word((m.regs.pc + 1) as u16)));
    assert(m3.ram[0x100 + m.regs.s] == ret / 256);
    assert(m3.ram[0x100 + m.regs.s - 1] == ret % 256);
    assert(m3.regs.s == m.regs.s - 2);
}

/// A branch that is not taken leaves pc after its offset byte; a taken one
/// adds the signed offset to that pc, modulo 2^16.
pub proof fn law_branch_target(m: MachineState, off: u8)
    ensures
        !flag(m.regs.p, CARRY) ==> m.branch(Operand::Value(off), CARRY, true).regs.pc == m.regs.pc,
        flag(m.regs.p, CARRY) ==> m.branch(Operand::Value(off), CARRY, true).regs.pc
            == wrap16(m.regs.pc + (if off < 128 { off as int } else { off - 256 }) + 65536),
{
}


/// SBC of an immediate byte subtracts: the new accumulator is A - M - (1 - C)
/// modulo 256, and the carry is set exactly when that difference does not go
/// below zero.
pub proof fn law_sbc_difference(m: MachineState, v: u8)
    ensures
        ({
            let c: int = if flag(m.regs.p, CARRY) { 1 } else { 0 };
            let d = m.regs.a - v - (1 - c);
            let r = m.apply(Instruction::SBC, Operand::Value(v));
            &&& r.regs.a == (if d >= 0 { d } else { d + 256 })
            &&& flag(r.regs.p, CARRY) == (d >= 0)
        }),
{
    law_adc_sum(m, !v);
    assert(!v == 255 - v) by (bit_vector);
}


/// Bit `i` (0 is the lowest) of `x`.
pub open spec fn bit(x: u8, i: u8) -> bool {
    (x >> i) & 1 == 1
}

/// What the logic operations do to each bit, and when their result is zero
/// or negative.
pub proof fn lemma_byte_logic()
    by (bit_vector)
    ensures
        forall|a: u8, v: u8, i: u8| i < 8 ==> #[trigger] bit(a | v, i) == (bit(a, i) || bit(v, i)),
        forall|a: u8, v: u8, i: u8| i < 8 ==> #[trigger] bit(a & v, i) == (bit(a, i) && bit(v, i)),
        forall|a: u8, v: u8, i: u8| i < 8 ==> #[trigger] bit(a ^ v, i) == (bit(a, i) != bit(v, i)),
        forall|a: u8, v: u8| #![trigger a | v] ((a | v) == 0) == (a == 0 && v == 0),
        forall|a: u8, v: u8| #![trigger a ^ v] ((a ^ v) == 0) == (a == v),
        forall|x: u8| #![trigger bit(x, 7)] bit(x, 7) == (x >= 128),
        forall|p: u8, r: u8| #![trigger with_zn(p, r)] flag(with_zn(p, r), ZERO) == (r == 0) && flag(
            with_zn(p, r),
            NEGATIVE,
        ) == (r >= 128),
{
}

/// ORA, AND and EOR combine the accumulator with the operand bit by bit: a
/// bit of the new accumulator is set when it is set in either (ORA), in
/// both (AND), or in exactly one of them (EOR). Zero is set when the result
/// is 0, so after ORA exactly when both were 0 and after EOR exactly when
/// they were equal; Negative is bit 7 of the result.
pub proof fn law_logic_ops(m: MachineState, o: Operand)
    ensures
        ({
            let a = m.regs.a;
            let v = m.load(o);
            let ora = m.apply(Instruction::ORA, o).regs;
            let and = m.apply(Instruction::AND, o).regs;
            let eor = m.apply(Instruction::EOR, o).regs;
            &&& forall|i: u8| i < 8 ==> bit(ora.a, i) == (bit(a, i) || bit(v, i))
            &&& forall|i: u8| i < 8 ==> bit(and.a, i) == (bit(a, i) && bit(v, i))
            &&& forall|i: u8| i < 8 ==> bit(eor.a, i) == (bit(a, i) != bit(v, i))
            &&& flag(ora.p, ZERO) == (a == 0 && v == 0)
            &&& flag(eor.p, ZERO) == (a == v)
            &&& flag(and.p, ZERO) == (and.a == 0)
            &&& flag(ora.p, NEGATIVE) == bit(ora.a, 7)
            &&& flag(and.p, NEGATIVE) == bit(and.a, 7)
            &&& flag(eor.p, NEGATIVE) == bit(eor.a, 7)
        }),
{
    lemma_byte_logic();
    let a = m.regs.a;
    let v = m.load(o);
    let p = m.regs.p;
    assert(flag(with_zn(p, a | v), ZERO) == (a | v == 0));
    assert(flag(with_zn(p, a ^ v), ZERO) == (a ^ v == 0));
    assert(flag(with_zn(p, a & v), ZERO) == (a & v == 0));
    assert(bit(a | v, 7) == (a | v >= 128));
    assert(bit(a & v, 7) == (a & v >= 128));
    assert(bit(a ^ v, 7) == (a ^ v >= 128));
}


/// Setting or clearing the bits of `mask` makes them read back as set or
/// cleared and leaves every bit outside `mask` as it was.
pub proof fn lemma_set_flag()
    by (bit_vector)
    ensures
        forall|p: u8, m: u8, b: bool| m != 0 ==> #[trigger] flag(set_flag(p, m, b), m) == b,
        forall|p: u8, m: u8, n: u8, b: bool| #![trigger flag(set_flag(p, m, b), n)]
            m & n == 0 ==> flag(set_flag(p, m, b), n) == flag(p, n),
        forall|p: u8, m: u8, b: bool| #![trigger set_flag(p, m, b)] set_flag(p, m, b) & !m == p & !m,
        forall|p: u8, r: u8| #![trigger with_zn(p, r)] flag(with_zn(p, r), CARRY) == flag(p, CARRY)
            && flag(with_zn(p, r), OVERFLOW) == flag(p, OVERFLOW),
        OVERFLOW & ZERO == 0 && NEGATIVE & ZERO == 0 && NEGATIVE & OVERFLOW == 0,
        CARRY & OVERFLOW == 0 && CARRY & ZERO == 0 && OVERFLOW & CARRY == 0 && NEGATIVE & CARRY == 0,
{
}

/// Where the bits of a byte go when it is shifted one place, and what the
/// carry in and out are.
pub proof fn lemma_shift_bits(v: u8, c: bool)
    by (bit_vector)
    ensures
        forall|i: u8| #![trigger bit(v, i)] i < 7 ==> bit(wrap8(2 * v), (i + 1) as u8) == bit(v, i),
        forall|i: u8| #![trigger bit(v, i)] 0 < i < 8 ==> bit(v / 2, (i - 1) as u8) == bit(v, i),
        forall|i: u8| #![trigger bit(v, i)] i < 7 ==> bit(
            (wrap8(2 * v) + if c { 1int } else { 0 }) as u8,
            (i + 1) as u8,
        ) == bit(v, i),
        forall|i: u8| #![trigger bit(v, i)] 0 < i < 8 ==> bit(
            (v / 2 + if c { 128int } else { 0 }) as u8,
            (i - 1) as u8,
        ) == bit(v, i),
        !bit(wrap8(2 * v), 0),
        !bit(v / 2, 7),
        bit((wrap8(2 * v) + if c { 1int } else { 0 }) as u8, 0) == c,
        bit((v / 2 + if c { 128int } else { 0 }) as u8, 7) == c,
        bit(v, 7) == (v >= 128),
        bit(v, 0) == (v % 2 == 1),
{
}

/// ASL and ROL move every bit of the operand one place up, LSR and ROR one
/// place down. The bit that falls out becomes the carry; the bit that comes
/// in is 0 for the shifts and the old carry for the rotates. Zero and
/// Negative describe the byte written back.
#[verifier::rlimit(30)]
pub proof fn law_shifts(m: MachineState, o: Operand)
    requires
        m.wf(),
        m.store_ok(o),
    ensures
        ({
            let v = m.load(o);
            let c = flag(m.regs.p, CARRY);
            let asl = m.apply(Instruction::ASL, o);
            let lsr = m.apply(Instruction::LSR, o);
            let rol = m.apply(Instruction::ROL, o);
            let ror = m.apply(Instruction::ROR, o);
            &&& forall|i: u8| i < 7 ==> bit(asl.load(o), (i + 1) as u8) == bit(v, i)
            &&& !bit(asl.load(o), 0) && flag(asl.regs.p, CARRY) == bit(v, 7)
            &&& forall|i: u8| i < 7 ==> bit(rol.load(o), (i + 1) as u8) == bit(v, i)
            &&& bit(rol.load(o), 0) == c && flag(rol.regs.p, CARRY) == bit(v, 7)
            &&& forall|i: u8| 0 < i < 8 ==> bit(lsr.load(o), (i - 1) as u8) == bit(v, i)
            &&& !bit(lsr.load(o), 7) && flag(lsr.regs.p, CARRY) == bit(v, 0)
            &&& forall|i: u8| 0 < i < 8 ==> bit(ror.load(o), (i - 1) as u8) == bit(v, i)
            &&& bit(ror.load(o), 7) == c && flag(ror.regs.p, CARRY) == bit(v, 0)
            &&& flag(asl.regs.p, ZERO) == (asl.load(o) == 0) && flag(asl.regs.p, NEGATIVE) == bit(asl.load(o), 7)
            &&& flag(lsr.regs.p, ZERO) == (lsr.load(o) == 0) && flag(lsr.regs.p, NEGATIVE) == bit(lsr.load(o), 7)
            &&& flag(rol.regs.p, ZERO) == (rol.load(o) == 0) && flag(rol.regs.p, NEGATIVE) == bit(rol.load(o), 7)
            &&& flag(ror.regs.p, ZERO) == (ror.load(o) == 0) && flag(ror.regs.p, NEGATIVE) == bit(ror.load(o), 7)
        }),
{
    let v = m.load(o);
    let c = flag(m.regs.p, CARRY);
    lemma_shift_bits(v, c);
    lemma_set_flag();
    lemma_byte_logic();
    let ra = wrap8(2 * v);
    let rl = v / 2;
    let rr = (wrap8(2 * v) + if c { 1int } else { 0 }) as u8;
    let rrr = (v / 2 + if c { 128int } else { 0 }) as u8;
    assert(m.apply(Instruction::ASL, o).load(o) == ra);
    assert(m.apply(Instruction::LSR, o).load(o) == rl);
    assert(m.apply(Instruction::ROL, o).load(o) == rr);
    assert(m.apply(Instruction::ROR, o).load(o) == rrr);
    let p = m.regs.p;
    assert(flag(with_zn(set_flag(p, CARRY, v >= 128), ra), CARRY) == (v >= 128));
    assert(flag(with_zn(set_flag(p, CARRY, v >= 128), rr), CARRY) == (v >= 128));
    assert(flag(with_zn(set_flag(p, CARRY, v % 2 == 1), rl), CARRY) == (v % 2 == 1));
    assert(flag(with_zn(set_flag(p, CARRY, v % 2 == 1), rrr), CARRY) == (v % 2 == 1));
    assert(flag(with_zn(set_flag(p, CARRY, v >= 128), ra), ZERO) == (ra == 0));
    assert(flag(with_zn(set_flag(p, CARRY, v >= 128), rr), ZERO) == (rr == 0));
    assert(flag(with_zn(set_flag(p, CARRY, v % 2 == 1), rl), ZERO) == (rl == 0));
    assert(flag(with_zn(set_flag(p, CARRY, v % 2 == 1), rrr), ZERO) == (rrr == 0));
}

/// Byte facts about one byte `a` and a carry `c`: rotating left then right
/// (or right then left) gives `a` back with the carry that went in, a byte
/// is zero exactly when none of its eight bits is set, and bit 6 is the
/// $40 bit.
pub proof fn lemma_rotate_bits(a: u8, c: bool)
    by (bit_vector)
    ensures
        (((((wrap8(2 * a) + if c { 1int } else { 0 }) as u8) / 2 + if a >= 128 { 128int } else { 0 }) as u8) == a),
        ((wrap8(2 * ((a / 2 + if c { 128int } else { 0 }) as u8)) + if a % 2 == 1 { 1int } else { 0 }) as u8) == a,
        (((wrap8(2 * a) + if c { 1int } else { 0 }) as u8) % 2 == 1) == c,
        (((a / 2 + if c { 128int } else { 0 }) as u8) >= 128) == c,
        (a == 0) == (!bit(a, 0) && !bit(a, 1) && !bit(a, 2) && !bit(a, 3) && !bit(a, 4) && !bit(a, 5)
            && !bit(a, 6) && !bit(a, 7)),
        (a & 0x40 != 0) == bit(a, 6),
{
}

/// ROR undoes ROL on the accumulator, and ROL undoes ROR: the accumulator
/// and the carry come back as they were.
pub proof fn law_rotate_round_trip(m: MachineState)
    ensures
        ({
            let acc = Operand::Accumulator;
            let there_back = m.apply(Instruction::ROL, acc).apply(Instruction::ROR, acc);
            let back_there = m.apply(Instruction::ROR, acc).apply(Instruction::ROL, acc);
            &&& there_back.regs.a == m.regs.a
            &&& flag(there_back.regs.p, CARRY) == flag(m.regs.p, CARRY)
            &&& back_there.regs.a == m.regs.a
            &&& flag(back_there.regs.p, CARRY) == flag(m.regs.p, CARRY)
        }),
{
    lemma_set_flag();
    lemma_rotate_bits(m.regs.a, flag(m.regs.p, CARRY));
}

/// INC adds one to a byte of memory and DEC takes one away, wrapping
/// between $FF and $00; each undoes the other. Zero is set exactly when the
/// new byte is 0.
pub proof fn law_inc_dec_memory(m: MachineState, addr: u16)
    requires
        m.wf(),
        m.readable(addr),
    ensures
        ({
            let o = Operand::Address(addr);
            let v = m.peek(addr);
            let inc = m.apply(Instruction::INC, o);
            let dec = m.apply(Instruction::DEC, o);
            &&& inc.peek(addr) == (if v == 255 { 0 } else { v + 1 })
            &&& dec.peek(addr) == (if v == 0 { 255 } else { v - 1 })
            &&& inc.apply(Instruction::DEC, o).peek(addr) == v
            &&& dec.apply(Instruction::INC, o).peek(addr) == v
            &&& flag(inc.regs.p, ZERO) == (v == 255)
            &&& flag(dec.regs.p, ZERO) == (v == 1)
            &&& inc.regs.a == m.regs.a && inc.regs.x == m.regs.x && inc.regs.y == m.regs.y
        }),
{
    lemma_byte_logic();
    let v = m.peek(addr);
    let o = Operand::Address(addr);
    assert(m.apply(Instruction::INC, o).peek(addr) == wrap8(v + 1));
    assert(m.apply(Instruction::DEC, o).peek(addr) == wrap8(v + 255));
    assert(m.apply(Instruction::INC, o).wf());
    assert(m.apply(Instruction::DEC, o).wf());
}

/// The loads copy the operand into their register, the transfers copy one
/// register into another, and the stores write a register to memory, where
/// a load through the same address finds it again. Zero and Negative
/// describe the byte copied (but for TXS, which leaves the status alone).
pub proof fn law_loads_stores(m: MachineState, o: Operand, addr: u16)
    requires
        m.wf(),
        m.readable(addr),
    ensures
        ({
            let v = m.load(o);
            let r = m.regs;
            let st = Operand::Address(addr);
            &&& m.apply(Instruction::LDA, o).regs == (super::machine::Registers { a: v, p: with_zn(r.p, v), ..r })
            &&& m.apply(Instruction::LDX, o).regs == (super::machine::Registers { x: v, p: with_zn(r.p, v), ..r })
            &&& m.apply(Instruction::LDY, o).regs == (super::machine::Registers { y: v, p: with_zn(r.p, v), ..r })
            &&& m.apply(Instruction::STA, st).apply(Instruction::LDA, st).regs.a == r.a
            &&& m.apply(Instruction::STX, st).apply(Instruction::LDX, st).regs.x == r.x
            &&& m.apply(Instruction::STY, st).apply(Instruction::LDY, st).regs.y == r.y
            &&& m.apply(Instruction::STA, st).regs == r
            &&& m.apply(Instruction::TAX, o).regs.x == r.a && m.apply(Instruction::TAY, o).regs.y == r.a
            &&& m.apply(Instruction::TXA, o).regs.a == r.x && m.apply(Instruction::TYA, o).regs.a == r.y
            &&& m.apply(Instruction::TSX, o).regs.x == r.s
            &&& m.apply(Instruction::TXS, o).regs == (super::machine::Registers { s: r.x, ..r })
            &&& flag(m.apply(Instruction::LDA, o).regs.p, ZERO) == (v == 0)
            &&& flag(m.apply(Instruction::LDA, o).regs.p, NEGATIVE) == bit(v, 7)
            &&& flag(m.apply(Instruction::TAX, o).regs.p, ZERO) == (r.a == 0)
        }),
{
    lemma_byte_logic();
}

/// BIT leaves the accumulator alone; Zero is set exactly when the
/// accumulator and the operand have no set bit in common, and Overflow and
/// Negative copy bits 6 and 7 of the operand.
pub proof fn law_bit_test(m: MachineState, o: Operand)
    ensures
        ({
            let v = m.load(o);
            let a = m.regs.a;
            let r = m.apply(Instruction::BIT, o).regs;
            &&& r.a == a && r.x == m.regs.x && r.y == m.regs.y
            &&& flag(r.p, ZERO) == (forall|i: u8| i < 8 ==> !(bit(a, i) && bit(v, i)))
            &&& flag(r.p, OVERFLOW) == bit(v, 6)
            &&& flag(r.p, NEGATIVE) == bit(v, 7)
        }),
{
    lemma_set_flag();
    lemma_byte_logic();
    let v = m.load(o);
    let a = m.regs.a;
    lemma_rotate_bits(a & v, false);
    assert(bit(a & v, 0) == (bit(a, 0) && bit(v, 0)));
    assert(bit(a & v, 1) == (bit(a, 1) && bit(v, 1)));
    assert(bit(a & v, 2) == (bit(a, 2) && bit(v, 2)));
    assert(bit(a & v, 3) == (bit(a, 3) && bit(v, 3)));
    assert(bit(a & v, 4) == (bit(a, 4) && bit(v, 4)));
    assert(bit(a & v, 5) == (bit(a, 5) && bit(v, 5)));
    assert(bit(a & v, 6) == (bit(a, 6) && bit(v, 6)));
    assert(bit(a & v, 7) == (bit(a, 7) && bit(v, 7)));
    lemma_rotate_bits(v, false);
    let p = m.regs.p;
    let p1 = set_flag(p, ZERO, a & v == 0);
    let p2 = set_flag(p1, OVERFLOW, v & 0x40 != 0);
    let p3 = set_flag(p2, NEGATIVE, v >= 128);
    assert(flag(p1, ZERO) == (a & v == 0));
    assert(flag(p2, ZERO) == (a & v == 0));
    assert(flag(p3, ZERO) == (a & v == 0));
    assert(flag(p3, OVERFLOW) == bit(v, 6));
    assert(flag(p3, NEGATIVE) == bit(v, 7));
    assert((a & v == 0) == (forall|i: u8| i < 8 ==> !(bit(a, i) && bit(v, i))));
}

/// Each flag instruction sets or clears its own flag (SEC, SEI and SED set
/// Carry, Interrupt and Decimal; CLC, CLD and CLV clear Carry, Decimal and
/// Overflow) and leaves every other bit of the status as it was.
pub proof fn law_flag_ops(m: MachineState)
    ensures
        ({
            let p = m.regs.p;
            let acc = Operand::Accumulator;
            &&& flag(m.apply(Instruction::SEC, acc).regs.p, CARRY)
            &&& flag(m.apply(Instruction::SEI, acc).regs.p, INTERRUPT)
            &&& flag(m.apply(Instruction::SED, acc).regs.p, DECIMAL)
            &&& !flag(m.apply(Instruction::CLC, acc).regs.p, CARRY)
            &&& !flag(m.apply(Instruction::CLD, acc).regs.p, DECIMAL)
            &&& !flag(m.apply(Instruction::CLV, acc).regs.p, OVERFLOW)
            &&& m.apply(Instruction::SEC, acc).regs.p & !CARRY == p & !CARRY
            &&& m.apply(Instruction::SEI, acc).regs.p & !INTERRUPT == p & !INTERRUPT
            &&& m.apply(Instruction::SED, acc).regs.p & !DECIMAL == p & !DECIMAL
            &&& m.apply(Instruction::CLC, acc).regs.p & !CARRY == p & !CARRY
            &&& m.apply(Instruction::CLD, acc).regs.p & !DECIMAL == p & !DECIMAL
            &&& m.apply(Instruction::CLV, acc).regs.p & !OVERFLOW == p & !OVERFLOW
        }),
{
    lemma_set_flag();
}

/// Each conditional branch is taken exactly when its flag is as the
/// instruction names it: BPL and BMI on Negative clear and set, BVC and
/// BVS on Overflow, BCC and BCS on Carry, BNE and BEQ on Zero. A taken
/// branch adds the signed offset to pc; one not taken leaves pc alone.
pub proof fn law_branch_conditions(m: MachineState, off: u8)
    ensures
        ({
            let p = m.regs.p;
            let o = Operand::Value(off);
            let target = wrap16(m.regs.pc + (if off < 128 { off as int } else { off - 256 }) + 65536);
            let pc = m.regs.pc;
            &&& m.apply(Instruction::BPL, o).regs.pc == (if !flag(p, NEGATIVE) { target } else { pc })
            &&& m.apply(Instruction::BMI, o).regs.pc == (if flag(p, NEGATIVE) { target } else { pc })
            &&& m.apply(Instruction::BVC, o).regs.pc == (if !flag(p, OVERFLOW) { target } else { pc })
            &&& m.apply(Instruction::BVS, o).regs.pc == (if flag(p, OVERFLOW) { target } else { pc })
            &&& m.apply(Instruction::BCC, o).regs.pc == (if !flag(p, CARRY) { target } else { pc })
            &&& m.apply(Instruction::BCS, o).regs.pc == (if flag(p, CARRY) { target } else { pc })
            &&& m.apply(Instruction::BNE, o).regs.pc == (if !flag(p, ZERO) { target } else { pc })
            &&& m.apply(Instruction::BEQ, o).regs.pc == (if flag(p, ZERO) { target } else { pc })
        }),
{
}

/// What each direct addressing mode names, from the bytes after the opcode:
/// the zero-page indexed modes stay in the zero page, wrapping the index
/// around it, and the absolute indexed modes wrap around the 64 KiB.
pub proof fn law_addressing(m: MachineState)
    ensures
        ({
            let pc = m.regs.pc;
            let b = m.peek(pc);
            let w = m.word(pc);
            let x = m.regs.x;
            let y = m.regs.y;
            &&& m.operand(AddressingMode::ZeroPage).0 == Operand::Address(b as u16)
            &&& m.operand(AddressingMode::ZeroPageIndexedX).0 == Operand::Address(((b + x) % 256) as u16)
            &&& m.operand(AddressingMode::ZeroPageIndexedY).0 == Operand::Address(((b + y) % 256) as u16)
            &&& m.operand(AddressingMode::Absolute).0 == Operand::Address(w)
            &&& m.operand(AddressingMode::AbsoluteIndexedX).0 == Operand::Address(((w + x) % 65536) as u16)
            &&& m.operand(AddressingMode::AbsoluteIndexedY).0 == Operand::Address(((w + y) % 65536) as u16)
            &&& m.operand(AddressingMode::Immediate).0 == Operand::Value(b)
            &&& m.operand(AddressingMode::Accumulator).0 == Operand::Accumulator
        }),
{
}

/// The pointer that (zp,X) and (zp),Y read from the zero page at `z`: its
/// high byte comes from the next zero-page byte, wrapping from $FF to $00.
pub open spec fn zp_word(m: MachineState, z: int) -> int {
    m.peek((z % 256) as u16) + 256 * m.peek(((z + 1) % 256) as u16)
}

/// The pointer that (zp,X) reads is taken at the operand plus X, wrapping
/// around the zero page.
#[verifier::rlimit(40)]
pub proof fn law_indexed_indirect(m: MachineState)
    ensures
        m.operand(AddressingMode::IndexedIndirect).0 == Operand::Address(
            zp_word(m, m.peek(m.regs.pc) + m.regs.x) as u16,
        ),
{
    let b = m.peek(m.regs.pc);
    let x = m.regs.x;
    let i = wrap8(b + x);
    assert(i == (b + x) % 256);
    assert(i as u16 == ((b + x) % 256) as u16);
    assert(i != 0xFF ==> (i as u16 + 1) as u16 == ((b + x + 1) % 256) as u16);
    assert(i == 0xFF ==> ((b + x + 1) % 256) as u16 == 0);
}

/// (zp),Y adds Y to the pointer at the operand, wrapping around the 64 KiB.
#[verifier::rlimit(40)]
pub proof fn law_indirect_indexed(m: MachineState)
    ensures
        m.operand(AddressingMode::IndirectIndexed).0 == Operand::Address(
            ((zp_word(m, m.peek(m.regs.pc) as int) + m.regs.y) % 65536) as u16,
        ),
{
    let b = m.peek(m.regs.pc);
    assert(b as u16 == (b as int % 256) as u16);
    assert(b != 0xFF ==> (b as u16 + 1) as u16 == ((b + 1) % 256) as u16);
    assert(b == 0xFF ==> ((b + 1) % 256) as u16 == 0);
}

/// An indirect JMP through $xxFF takes the high byte of its target from
/// $xx00, not from the next page.
pub proof fn law_indirect_jump(m: MachineState)
    ensures
        ({
            let w = m.word(m.regs.pc);
            let page_next = if w % 256 == 255 { w - 255 } else { w + 1 };
            m.operand(AddressingMode::Indirect).0 == Operand::Address(
                (m.peek(w) + 256 * m.peek(page_next as u16)) as u16,
            )
        }),
{
}

/// Resolving an operand moves the program counter past the operand bytes.
pub proof fn law_operand_length(m: MachineState, mode: AddressingMode)
    ensures
        m.operand(mode).1 == (m.regs.pc + operand_len(mode)) as u16,
{
}

/// A step over an instruction that is neither a jump, a return nor a
/// branch leaves the program counter just past the opcode and its operand
/// bytes.
#[verifier::rlimit(40)]
pub proof fn law_instruction_length(m: MachineState)
    requires
        opcode_table(m.opcode()) is Some,
        !moves_pc(opcode_table(m.opcode()).unwrap().0),
    ensures
        m.step().regs.pc == ((m.regs.pc + 1) as u16 + operand_len(opcode_table(m.opcode()).unwrap().1)) as u16,
{
    let m1 = m.with_pc((m.regs.pc + 1) as u16);
    law_operand_length(m1, opcode_table(m.opcode()).unwrap().1);
}

/// A byte read as a two's complement number.
pub open spec fn signed(x: u8) -> int {
    if x < 128 { x as int } else { x - 256 }
}

/// ADC sets Overflow exactly when the sum of A, M and C, read as signed
/// numbers, falls outside -128..=127; Zero when the new accumulator is 0;
/// Negative from its bit 7.
pub proof fn law_adc_flags(m: MachineState, v: u8)
    ensures
        ({
            let c: int = if flag(m.regs.p, CARRY) { 1 } else { 0 };
            let s = signed(m.regs.a) + signed(v) + c;
            let r = m.adc(v).regs;
            &&& flag(r.p, OVERFLOW) == !(-128 <= s <= 127)
            &&& flag(r.p, ZERO) == (r.a == 0)
            &&& flag(r.p, NEGATIVE) == bit(r.a, 7)
        }),
{
    lemma_set_flag();
    lemma_byte_logic();
}

} // verus!
