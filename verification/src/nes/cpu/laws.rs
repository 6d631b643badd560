//! What the `nes` console's CPU keeps across instructions: RTS undoes
//! JSR, pulls undo pushes, and a flag reads back as it was set.
use vstd::prelude::*;
use crate::nes::cpu::{Cpu, StatusFlag, Interrupt, with_bit, zn, push, addr_of, fetch, store, step_spec, interrupt_spec, decoded};
use crate::nes::cpu::instructions::alu::{ora_spec, and_spec, eor_spec, shifted, add_carry};
use crate::cpu::laws::{bit, lemma_byte_logic, lemma_shift_bits};
use crate::nes::cpu::instructions::branch::signed;
use crate::nes::cpu::memory_map::{peek, peek_word, after_read};
use crate::nes::cpu::{wrap8, wrap16};
use crate::nes::cpu::instructions::jumps::{jsr_spec, rts_spec};
use crate::nes::cpu::instructions::stack::{pla_spec, plp_spec};
use crate::nes::memory::MemView;
use crate::nes::cpu::instructions::{AddressingMode, Instruction, exec_ok, exec_spec, full_opcode_table, opcode_table};

verus! {

/// Byte facts the laws rest on: a word split into its high and low bytes
/// joins back into itself, and a bit that was set or cleared reads back so.
proof fn lemma_bits()
    by (bit_vector)
    ensures
        forall|w: u16| #[trigger] ((((((w & 0xFF00) >> 8) as u8) as u16) << 8) | (((w & 0xFF) as u8) as u16)) == w,
        forall|p: u8, m: u8| #[trigger] ((p | m) & m) == m,
        forall|p: u8, m: u8| #[trigger] ((p & !m) & m) == 0,
        forall|p: u8| #[trigger] (((p | 0x10) & 0b1110_1111) | 0x20) == ((p & 0b1110_1111) | 0x20),
        forall|p: u8, r: u8| #![trigger zn(p, r)] (zn(p, r) & 0x02 != 0) == (r == 0) && (zn(p, r) & 0x80 != 0)
            == (r & 0x80 != 0),
{
}

/// A flag reads back as it was set: `check_flag(f, true)` after
/// `set_flag(f, b)` gives `b`.
pub proof fn law_set_then_check(p: u8, flag: StatusFlag, set: bool)
    ensures
        (with_bit(p, flag.bit(), set) & flag.bit() != 0) == set,
{
    lemma_bits();
    assert(((p | flag.bit()) & flag.bit()) == flag.bit());
    assert(((p & !flag.bit()) & flag.bit()) == 0);
}

/// RTS undoes JSR: control comes back to the instruction after the JSR
/// (three bytes on) with the stack pointer where it was, and the other
/// registers, the status and the cycle count untouched.
pub proof fn law_jsr_rts(c: Cpu, m: MemView)
    requires
        m.ram.len() == 0x800,
    ensures
        ({
            let (c1, m1) = jsr_spec(c, m);
            let c2 = rts_spec(c1, m1);
            &&& c2.pc == wrap16(c.pc + 3)
            &&& c2.sp == c.sp
            &&& c2.a == c.a && c2.x == c.x && c2.y == c.y && c2.p == c.p
            &&& c2.cycle == c.cycle
        }),
{
    lemma_bits();
    let ret = wrap16(c.pc + 2);
    assert(((((((ret & 0xFF00) >> 8) as u8) as u16) << 8) | (((ret & 0xFF) as u8) as u16)) == ret);
}

/// PLA undoes PHA: the accumulator and the stack pointer come back.
pub proof fn law_pha_pla(c: Cpu, m: MemView)
    requires
        m.ram.len() == 0x800,
    ensures
        ({
            let (c1, m1) = push(c, m, c.a);
            let c2 = pla_spec(c1, m1);
            c2.a == c.a && c2.sp == c.sp
        }),
{
}

/// PLP undoes PHP, but for bit 4, which comes back clear, and bit 5, which
/// comes back set.
pub proof fn law_php_plp(c: Cpu, m: MemView)
    requires
        m.ram.len() == 0x800,
    ensures
        ({
            let (c1, m1) = push(c, m, c.p | 0x10);
            let c2 = plp_spec(c1, m1);
            c2.p == (c.p & 0b1110_1111) | 0x20 && c2.sp == c.sp
        }),
{
    lemma_bits();
    assert((((c.p | 0x10) & 0b1110_1111) | 0x20) == ((c.p & 0b1110_1111) | 0x20));
}


/// Reading an operand or storing one leaves the cartridge as it was.
proof fn lemma_cartridge_untouched()
    ensures
        forall|c: Cpu, m: MemView, mode: AddressingMode| #[trigger] addr_of(c, m, mode).2.prg == m.prg,
        forall|c: Cpu, m: MemView, mode: AddressingMode| #[trigger] fetch(c, m, mode).2.prg == m.prg,
        forall|c: Cpu, m: MemView, mode: AddressingMode, v: u8| #[trigger] store(c, m, mode, v).1.prg == m.prg,
{
    reveal(addr_of);
    reveal(fetch);
    reveal(store);
}

/// The cartridge is read-only: no instruction changes what the mapper
/// holds.
#[verifier::rlimit(100)]
pub proof fn law_rom_is_read_only(c: Cpu, m: MemView)
    ensures
        step_spec(c, m).1.prg == m.prg,
{
    lemma_cartridge_untouched();
}


/// The undocumented SBC ($EB) is SBC: it decodes like the documented
/// immediate SBC ($E9) and, in any mode, runs on the same states with the
/// same effect.
pub proof fn law_unofficial_sbc(c: Cpu, m: MemView, mode: AddressingMode)
    ensures
        full_opcode_table(0xEB) == Some((Instruction::SBC_u, AddressingMode::Immediate)),
        full_opcode_table(0xE9) == Some((Instruction::SBC, AddressingMode::Immediate)),
        exec_ok(c, m, Instruction::SBC_u, mode) == exec_ok(c, m, Instruction::SBC, mode),
        exec_spec(c, m, Instruction::SBC_u, mode) == exec_spec(c, m, Instruction::SBC, mode),
{
}


/// Reading an operand leaves the registers as they were.
proof fn lemma_fetch_keeps_registers(c: Cpu, m: MemView, mode: AddressingMode)
    ensures
        fetch(c, m, mode).1.a == c.a,
        fetch(c, m, mode).1.x == c.x,
        fetch(c, m, mode).1.y == c.y,
        fetch(c, m, mode).1.p == c.p,
{
    reveal(fetch);
    reveal(addr_of);
}

/// ORA, AND and EOR combine the accumulator with the operand that the
/// addressing mode reads, bit by bit: a bit of the new accumulator is set
/// when it is set in either (ORA), in both (AND), or in exactly one of them
/// (EOR). Zero is set when the result is 0, so after ORA exactly when both
/// were 0 and after EOR exactly when they were equal.
pub proof fn law_logic_ops(c: Cpu, m: MemView, mode: AddressingMode)
    ensures
        ({
            let v = fetch(c, m, mode).0;
            let ora = ora_spec(c, m, mode).0;
            let and = and_spec(c, m, mode).0;
            let eor = eor_spec(c, m, mode).0;
            &&& forall|i: u8| i < 8 ==> bit(ora.a, i) == (bit(c.a, i) || bit(v, i))
            &&& forall|i: u8| i < 8 ==> bit(and.a, i) == (bit(c.a, i) && bit(v, i))
            &&& forall|i: u8| i < 8 ==> bit(eor.a, i) == (bit(c.a, i) != bit(v, i))
            &&& (ora.p & 0x02 != 0) == (c.a == 0 && v == 0)
            &&& (eor.p & 0x02 != 0) == (c.a == v)
            &&& (and.p & 0x02 != 0) == (and.a == 0)
            &&& (eor.p & 0x80 != 0) == (eor.a & 0x80 != 0)
        }),
{
    lemma_bits();
    lemma_byte_logic();
    lemma_fetch_keeps_registers(c, m, mode);
    let v = fetch(c, m, mode).0;
    let p = fetch(c, m, mode).1.p;
    assert((zn(p, c.a | v) & 0x02 != 0) == (c.a | v == 0));
    assert((zn(p, c.a ^ v) & 0x02 != 0) == (c.a ^ v == 0));
    assert((zn(p, c.a & v) & 0x02 != 0) == (c.a & v == 0));
    assert((zn(p, c.a ^ v) & 0x80 != 0) == ((c.a ^ v) & 0x80 != 0));
}


/// Setting or clearing the bits of a mask makes them read back so and
/// leaves the other bits alone; the status masks used here share no bit.
proof fn lemma_with_bit()
    by (bit_vector)
    ensures
        forall|p: u8, m: u8, b: bool| #![trigger with_bit(p, m, b)] m != 0 ==> (with_bit(p, m, b) & m != 0) == b,
        forall|p: u8, m: u8, n: u8, b: bool| #![trigger with_bit(p, m, b) & n] m & n == 0 ==> with_bit(p, m, b) & n
            == p & n,
        forall|p: u8, m: u8| #![trigger (p & !m) & !m] (p & !m) & !m == p & !m,
        forall|p: u8, m: u8| #![trigger (p | m) & !m] (p | m) & !m == p & !m,
        forall|x: u8| #![trigger bit(x, 7)] (x & 0x80 != 0) == bit(x, 7),
        forall|x: u8| #![trigger bit(x, 6)] (x & 0x40 != 0) == bit(x, 6),
        0x01u8 & 0x02u8 == 0 && 0x01u8 & 0x40u8 == 0 && 0x01u8 & 0x80u8 == 0,
        0x02u8 & 0x01u8 == 0 && 0x02u8 & 0x40u8 == 0 && 0x02u8 & 0x80u8 == 0,
        0x40u8 & 0x01u8 == 0 && 0x40u8 & 0x02u8 == 0 && 0x40u8 & 0x80u8 == 0,
        0x80u8 & 0x01u8 == 0 && 0x80u8 & 0x02u8 == 0 && 0x80u8 & 0x40u8 == 0,
        forall|v: u8| #![trigger !v] (!v) as int == 255 - v,
        forall|w: u16| #![trigger w & 0xFF00] (((w & 0xFF00) >> 8) as u8) as int == w / 256,
        forall|w: u16| #![trigger w & 0xFF] ((w & 0xFF) as u8) as int == w % 256,
        forall|p: u8| #![trigger p | 0x10] (p | 0x10) & !0x10u8 == p & !0x10u8,
{
}

/// The shifts written with `<<`, `>>` and masks are the shifts by
/// doubling and halving: ASL, LSR, ROL and ROR of `v` with carry in `c`.
proof fn lemma_shift_forms(v: u8, c: bool)
    by (bit_vector)
    ensures
        (v << 1u8) == crate::cpu::machine::wrap8(2 * v),
        (v >> 1u8) == v / 2,
        (if c { (v << 1u8) | 0x01 } else { (v << 1u8) & !0x01u8 }) == (crate::cpu::machine::wrap8(2 * v)
            + if c { 1int } else { 0 }) as u8,
        (if c { (v >> 1u8) | 0x80 } else { (v >> 1u8) & !0x80u8 }) == (v / 2 + if c { 128int } else { 0 }) as u8,
        (v & 0x80 != 0) == bit(v, 7),
        (v & 0x01 != 0) == bit(v, 0),
{
}

/// On the accumulator, ASL and ROL move every bit one place up and LSR and
/// ROR one place down. The bit that falls out becomes the carry; the bit
/// that comes in is 0 for the shifts and the old carry for the rotates.
/// Zero and Negative describe the new accumulator.
#[verifier::rlimit(40)]
pub proof fn law_shifts(c: Cpu, m: MemView)
    ensures
        ({
            let v = c.a;
            let cin = c.p & 0x01 != 0;
            let acc = AddressingMode::Accumulator;
            let asl = exec_spec(c, m, Instruction::ASL, acc).0;
            let lsr = exec_spec(c, m, Instruction::LSR, acc).0;
            let rol = exec_spec(c, m, Instruction::ROL, acc).0;
            let ror = exec_spec(c, m, Instruction::ROR, acc).0;
            &&& forall|i: u8| i < 7 ==> bit(asl.a, (i + 1) as u8) == bit(v, i)
            &&& !bit(asl.a, 0) && (asl.p & 0x01 != 0) == bit(v, 7)
            &&& forall|i: u8| i < 7 ==> bit(rol.a, (i + 1) as u8) == bit(v, i)
            &&& bit(rol.a, 0) == cin && (rol.p & 0x01 != 0) == bit(v, 7)
            &&& forall|i: u8| 0 < i < 8 ==> bit(lsr.a, (i - 1) as u8) == bit(v, i)
            &&& !bit(lsr.a, 7) && (lsr.p & 0x01 != 0) == bit(v, 0)
            &&& forall|i: u8| 0 < i < 8 ==> bit(ror.a, (i - 1) as u8) == bit(v, i)
            &&& bit(ror.a, 7) == cin && (ror.p & 0x01 != 0) == bit(v, 0)
            &&& (asl.p & 0x02 != 0) == (asl.a == 0) && (asl.p & 0x80 != 0) == bit(asl.a, 7)
            &&& (lsr.p & 0x02 != 0) == (lsr.a == 0) && (lsr.p & 0x80 != 0) == bit(lsr.a, 7)
            &&& (rol.p & 0x02 != 0) == (rol.a == 0) && (rol.p & 0x80 != 0) == bit(rol.a, 7)
            &&& (ror.p & 0x02 != 0) == (ror.a == 0) && (ror.p & 0x80 != 0) == bit(ror.a, 7)
        }),
{
    reveal(fetch);
    reveal(store);
    let v = c.a;
    let cin = c.p & 0x01 != 0;
    lemma_shift_forms(v, cin);
    lemma_shift_bits(v, cin);
    lemma_with_bit();
}

/// ADC adds: the new accumulator plus 256 times the new carry is A + M + C,
/// and Overflow is set exactly when A and M have one sign and the result
/// the other. SBC subtracts: the new accumulator is A - M - (1 - C) modulo
/// 256, with the carry set exactly when that difference does not go below
/// zero.
#[verifier::rlimit(40)]
pub proof fn law_add_subtract(c: Cpu, m: MemView, mode: AddressingMode)
    ensures
        ({
            let v = fetch(c, m, mode).0;
            let cin: int = if c.p & 0x01 != 0 { 1 } else { 0 };
            let adc = exec_spec(c, m, Instruction::ADC, mode).0;
            let sbc = exec_spec(c, m, Instruction::SBC, mode).0;
            let d = c.a - v - (1 - cin);
            &&& adc.a + (if adc.p & 0x01 != 0 { 256int } else { 0 }) == c.a + v + cin
            &&& (adc.p & 0x40 != 0) == ((c.a >= 128) == (v >= 128) && (adc.a >= 128) != (c.a >= 128))
            &&& (adc.p & 0x02 != 0) == (adc.a == 0)
            &&& sbc.a == (if d >= 0 { d } else { d + 256 })
            &&& (sbc.p & 0x01 != 0) == (d >= 0)
        }),
{
    lemma_fetch_keeps_registers(c, m, mode);
    lemma_with_bit();
    lemma_bits();
    let v = fetch(c, m, mode).0;
    let c1 = fetch(c, m, mode).1;
    lemma_add_carry(c1.a, v, c1.p);
    lemma_add_carry(c1.a, !v, c1.p);
    assert((!v) as int == 255 - v);
}

/// What `add_carry` computes from the accumulator `a`, the operand `w` and
/// the status `p`.
proof fn lemma_add_carry(a: u8, w: u8, p: u8)
    by (bit_vector)
    ensures
        ({
            let val = w as u16;
            let a16 = a as u16;
            let sum = (val + a16 + (p & 0x01) as u16) as u16;
            let r = ((val as u8 + a + (p & 0x01)) % 256) as u8;
            &&& r + (if sum > 0xFF { 256int } else { 0 }) == a + w + (if p & 0x01 != 0 { 1int } else { 0 })
            &&& ((!(a16 ^ val) & (a16 ^ sum) & 0x80) != 0) == ((a >= 128) == (w >= 128) && (r >= 128) != (
            a >= 128))
        }),
{
}

/// CMP, CPX and CPY compare their register with the operand: Carry is set
/// exactly when the register is at least the operand, Zero exactly when
/// they are equal, and Negative is bit 7 of their difference modulo 256.
/// No register changes.
#[verifier::rlimit(40)]
pub proof fn law_compare(c: Cpu, m: MemView, mode: AddressingMode)
    ensures
        ({
            let v = fetch(c, m, mode).0;
            let on_a = exec_spec(c, m, Instruction::CMP, mode).0;
            let on_x = exec_spec(c, m, Instruction::CPX, mode).0;
            let on_y = exec_spec(c, m, Instruction::CPY, mode).0;
            &&& (on_a.p & 0x01 != 0) == (c.a >= v) && (on_a.p & 0x02 != 0) == (c.a == v)
            &&& (on_x.p & 0x01 != 0) == (c.x >= v) && (on_x.p & 0x02 != 0) == (c.x == v)
            &&& (on_y.p & 0x01 != 0) == (c.y >= v) && (on_y.p & 0x02 != 0) == (c.y == v)
            &&& (on_a.p & 0x80 != 0) == bit(((c.a - v + 256) % 256) as u8, 7)
            &&& on_a.a == c.a && on_x.x == c.x && on_y.y == c.y
        }),
{
    lemma_fetch_keeps_registers(c, m, mode);
    lemma_with_bit();
    reveal(fetch);
    let v = fetch(c, m, mode).0;
    assert(((c.a - v) % 256) == ((c.a - v + 256) % 256));
}

/// Each conditional branch is taken exactly when its flag is as the
/// instruction names it: BPL and BMI on Negative ($80) clear and set, BVC
/// and BVS on Overflow ($40), BCC and BCS on Carry ($01), BNE and BEQ on
/// Zero ($02). A taken branch lands the signed offset past the two-byte
/// instruction; one not taken goes on to the next instruction.
pub proof fn law_branch_conditions(c: Cpu, m: MemView)
    ensures
        ({
            let p = c.p;
            let next = wrap16(c.pc + 2);
            let target = wrap16(c.pc + 2 + signed(peek(m, c.pc1())));
            let go = |set: bool| if set { target } else { next };
            let mode = AddressingMode::Relative;
            &&& exec_spec(c, m, Instruction::BPL, mode).0.pc == go(p & 0x80 == 0)
            &&& exec_spec(c, m, Instruction::BMI, mode).0.pc == go(p & 0x80 != 0)
            &&& exec_spec(c, m, Instruction::BVC, mode).0.pc == go(p & 0x40 == 0)
            &&& exec_spec(c, m, Instruction::BVS, mode).0.pc == go(p & 0x40 != 0)
            &&& exec_spec(c, m, Instruction::BCC, mode).0.pc == go(p & 0x01 == 0)
            &&& exec_spec(c, m, Instruction::BCS, mode).0.pc == go(p & 0x01 != 0)
            &&& exec_spec(c, m, Instruction::BNE, mode).0.pc == go(p & 0x02 == 0)
            &&& exec_spec(c, m, Instruction::BEQ, mode).0.pc == go(p & 0x02 != 0)
        }),
{
}

/// The register instructions: INX and INY add one and DEX and DEY take one
/// away, wrapping between $FF and $00, each undoing the other; the
/// transfers copy one register into another; the flag instructions set or
/// clear their own bit of the status (Carry $01, Interrupt $04, Decimal
/// $08, Overflow $40) and leave the others alone.
pub proof fn law_register_ops(c: Cpu, m: MemView)
    ensures
        ({
            let i = AddressingMode::Implied;
            let run = |inst: Instruction| exec_spec(c, m, inst, i).0;
            &&& run(Instruction::INX).x == (if c.x == 255 { 0 } else { c.x + 1 })
            &&& run(Instruction::INY).y == (if c.y == 255 { 0 } else { c.y + 1 })
            &&& run(Instruction::DEX).x == (if c.x == 0 { 255 } else { c.x - 1 })
            &&& run(Instruction::DEY).y == (if c.y == 0 { 255 } else { c.y - 1 })
            &&& exec_spec(run(Instruction::INX), m, Instruction::DEX, i).0.x == c.x
            &&& exec_spec(run(Instruction::DEY), m, Instruction::INY, i).0.y == c.y
            &&& run(Instruction::TAX).x == c.a && run(Instruction::TAY).y == c.a
            &&& run(Instruction::TXA).a == c.x && run(Instruction::TYA).a == c.y
            &&& run(Instruction::TSX).x == c.sp && run(Instruction::TXS).sp == c.x
            &&& run(Instruction::TXS).p == c.p
            &&& (run(Instruction::TAX).p & 0x02 != 0) == (c.a == 0)
            &&& (run(Instruction::TSX).p & 0x02 != 0) == (c.sp == 0)
            &&& run(Instruction::SEC).p & 0x01 != 0 && run(Instruction::CLC).p & 0x01 == 0
            &&& run(Instruction::SEI).p & 0x04 != 0 && run(Instruction::CLI).p & 0x04 == 0
            &&& run(Instruction::SED).p & 0x08 != 0 && run(Instruction::CLD).p & 0x08 == 0
            &&& run(Instruction::CLV).p & 0x40 == 0
            &&& run(Instruction::SEC).p & !0x01u8 == c.p & !0x01u8
            &&& run(Instruction::CLC).p & !0x01u8 == c.p & !0x01u8
            &&& run(Instruction::SEI).p & !0x04u8 == c.p & !0x04u8
            &&& run(Instruction::CLI).p & !0x04u8 == c.p & !0x04u8
            &&& run(Instruction::SED).p & !0x08u8 == c.p & !0x08u8
            &&& run(Instruction::CLD).p & !0x08u8 == c.p & !0x08u8
            &&& run(Instruction::CLV).p & !0x40u8 == c.p & !0x40u8
        }),
{
    lemma_bits();
    lemma_with_bit();
    assert(((c.p | 0x01) & 0x01) == 0x01 && ((c.p | 0x04) & 0x04) == 0x04 && ((c.p | 0x08) & 0x08) == 0x08);
    assert(((c.p & !0x01u8) & 0x01) == 0 && ((c.p & !0x04u8) & 0x04) == 0);
    assert(((c.p & !0x08u8) & 0x08) == 0 && ((c.p & !0x40u8) & 0x40) == 0);
}

/// LDA, LDX and LDY copy the operand into their register, with Zero and
/// Negative describing it, and leave the other registers alone.
pub proof fn law_loads(c: Cpu, m: MemView, mode: AddressingMode)
    ensures
        ({
            let v = fetch(c, m, mode).0;
            let lda = exec_spec(c, m, Instruction::LDA, mode).0;
            let ldx = exec_spec(c, m, Instruction::LDX, mode).0;
            let ldy = exec_spec(c, m, Instruction::LDY, mode).0;
            &&& lda.a == v && ldx.x == v && ldy.y == v
            &&& lda.x == c.x && lda.y == c.y && ldx.a == c.a && ldy.a == c.a
            &&& (lda.p & 0x02 != 0) == (v == 0) && (lda.p & 0x80 != 0) == bit(v, 7)
            &&& (ldx.p & 0x02 != 0) == (v == 0) && (ldy.p & 0x02 != 0) == (v == 0)
        }),
{
    lemma_fetch_keeps_registers(c, m, mode);
    lemma_with_bit();
    reveal(fetch);
}

/// INC writes back the operand plus one and DEC the operand minus one,
/// wrapping between $FF and $00, with Zero and Negative describing the byte
/// written.
pub proof fn law_inc_dec(c: Cpu, m: MemView, mode: AddressingMode)
    ensures
        ({
            let (v, c1, m1) = fetch(c, m, mode);
            let up = ((v + 1) % 256) as u8;
            let down = ((v + 255) % 256) as u8;
            &&& exec_spec(c, m, Instruction::INC, mode) == store(c1.with_p(zn(c1.p, up)), m1, mode, up)
            &&& exec_spec(c, m, Instruction::DEC, mode) == store(c1.with_p(zn(c1.p, down)), m1, mode, down)
        }),
{
}

/// The instruction of a documented opcode `aaabbb01`, chosen by `aaa`.
pub open spec fn alu_group(aaa: u8) -> Instruction {
    if aaa == 0 {
        Instruction::ORA
    } else if aaa == 1 {
        Instruction::AND
    } else if aaa == 2 {
        Instruction::EOR
    } else if aaa == 3 {
        Instruction::ADC
    } else if aaa == 4 {
        Instruction::STA
    } else if aaa == 5 {
        Instruction::LDA
    } else if aaa == 6 {
        Instruction::CMP
    } else {
        Instruction::SBC
    }
}

/// The addressing mode of a documented opcode `aaabbb01`, chosen by `bbb`.
pub open spec fn alu_mode(bbb: u8) -> AddressingMode {
    if bbb == 0 {
        AddressingMode::IndexedIndirect
    } else if bbb == 1 {
        AddressingMode::ZeroPage
    } else if bbb == 2 {
        AddressingMode::Immediate
    } else if bbb == 3 {
        AddressingMode::Absolute
    } else if bbb == 4 {
        AddressingMode::IndirectIndexed
    } else if bbb == 5 {
        AddressingMode::ZeroPageIndexedX
    } else if bbb == 6 {
        AddressingMode::AbsoluteIndexedY
    } else {
        AddressingMode::AbsoluteIndexedX
    }
}

/// The branch of opcode `xxy10000`: `xx` names the flag (Negative,
/// Overflow, Carry, Zero) and `y` whether it must be set.
pub open spec fn branch_group(xx: u8, y: bool) -> Instruction {
    if xx == 0 {
        if y { Instruction::BMI } else { Instruction::BPL }
    } else if xx == 1 {
        if y { Instruction::BVS } else { Instruction::BVC }
    } else if xx == 2 {
        if y { Instruction::BCS } else { Instruction::BCC }
    } else {
        if y { Instruction::BEQ } else { Instruction::BNE }
    }
}

/// The 6502's opcode matrix: an opcode `aaabbb01` is ORA, AND, EOR, ADC,
/// STA, LDA, CMP or SBC by `aaa`, in the addressing mode that `bbb` names
/// (but for $89, which would be STA immediate), and an opcode `xxy10000`
/// is a relative branch on the flag that `xx` names, taken when it equals
/// `y`. The decoder of either CPU agrees.
#[verifier::rlimit(100)]
pub proof fn law_opcode_matrix(op: u8)
    ensures
        op % 4 == 1 && op != 0x89 ==> opcode_table(op) == Some((alu_group(op / 32), alu_mode((op / 4) % 8))),
        op % 32 == 16 ==> opcode_table(op) == Some((branch_group(op / 64, (op / 32) % 2 == 1), AddressingMode::Relative)),
        opcode_table(op) is Some ==> full_opcode_table(op) == opcode_table(op),
{
}

/// The read-modify-write instruction of opcode `aaabbb10`, chosen by `aaa`
/// (4 and 5, STX and LDX, are the other column of that group).
pub open spec fn rmw_group(aaa: u8) -> Instruction {
    if aaa == 0 {
        Instruction::ASL
    } else if aaa == 1 {
        Instruction::ROL
    } else if aaa == 2 {
        Instruction::LSR
    } else if aaa == 3 {
        Instruction::ROR
    } else if aaa == 6 {
        Instruction::DEC
    } else {
        Instruction::INC
    }
}

/// The addressing mode that `bbb` names in the groups `aaabbb10` and
/// `aaabbb00`: immediate, zero page, absolute, zero page indexed and
/// absolute indexed, indexed by Y when `by_y` holds and by X otherwise.
pub open spec fn index_mode(bbb: u8, by_y: bool) -> AddressingMode {
    if bbb == 0 {
        AddressingMode::Immediate
    } else if bbb == 1 {
        AddressingMode::ZeroPage
    } else if bbb == 3 {
        AddressingMode::Absolute
    } else if bbb == 5 {
        if by_y { AddressingMode::ZeroPageIndexedY } else { AddressingMode::ZeroPageIndexedX }
    } else {
        if by_y { AddressingMode::AbsoluteIndexedY } else { AddressingMode::AbsoluteIndexedX }
    }
}

/// The one-byte instruction of opcode `hhhh1000`, chosen by `hhhh`.
pub open spec fn single_byte_group(h: u8) -> Instruction {
    if h == 0 { Instruction::PHP }
    else if h == 1 { Instruction::CLC }
    else if h == 2 { Instruction::PLP }
    else if h == 3 { Instruction::SEC }
    else if h == 4 { Instruction::PHA }
    else if h == 5 { Instruction::CLI }
    else if h == 6 { Instruction::PLA }
    else if h == 7 { Instruction::SEI }
    else if h == 8 { Instruction::DEY }
    else if h == 9 { Instruction::TYA }
    else if h == 10 { Instruction::TAY }
    else if h == 11 { Instruction::CLV }
    else if h == 12 { Instruction::INY }
    else if h == 13 { Instruction::CLD }
    else if h == 14 { Instruction::INX }
    else { Instruction::SED }
}

/// The rest of the documented opcode matrix. In `aaabbb10`, `aaa` picks
/// ASL, ROL, LSR, ROR, STX, LDX, DEC or INC, `bbb` = 2 is the accumulator
/// form of the four shifts, and X's loads and stores index by Y. In
/// `aaabbb00`, `aaa` picks BIT, STY, LDY, CPY or CPX. An opcode `hhhh1000`
/// is a one-byte instruction chosen by `hhhh`.
#[verifier::rlimit(100)]
pub proof fn law_opcode_matrix_rest(op: u8)
    ensures
        ({
            let aaa = op / 32;
            let bbb = (op / 4) % 8;
            &&& op % 4 == 2 && aaa != 4 && aaa != 5 && bbb % 2 == 1
                ==> opcode_table(op) == Some((rmw_group(aaa), index_mode(bbb, false)))
            &&& op % 32 == 10 && aaa < 4 ==> opcode_table(op) == Some((rmw_group(aaa), AddressingMode::Accumulator))
            &&& op % 4 == 2 && aaa == 5 && (bbb % 2 == 1 || bbb == 0)
                ==> opcode_table(op) == Some((Instruction::LDX, index_mode(bbb, true)))
            &&& op % 4 == 2 && aaa == 4 && (bbb == 1 || bbb == 3 || bbb == 5)
                ==> opcode_table(op) == Some((Instruction::STX, index_mode(bbb, true)))
            &&& op % 4 == 0 && aaa == 5 && (bbb % 2 == 1 || bbb == 0)
                ==> opcode_table(op) == Some((Instruction::LDY, index_mode(bbb, false)))
            &&& op % 4 == 0 && aaa == 4 && (bbb == 1 || bbb == 3 || bbb == 5)
                ==> opcode_table(op) == Some((Instruction::STY, index_mode(bbb, false)))
            &&& op % 4 == 0 && aaa == 6 && (bbb == 0 || bbb == 1 || bbb == 3)
                ==> opcode_table(op) == Some((Instruction::CPY, index_mode(bbb, false)))
            &&& op % 4 == 0 && aaa == 7 && (bbb == 0 || bbb == 1 || bbb == 3)
                ==> opcode_table(op) == Some((Instruction::CPX, index_mode(bbb, false)))
            &&& op % 4 == 0 && aaa == 1 && (bbb == 1 || bbb == 3)
                ==> opcode_table(op) == Some((Instruction::BIT, index_mode(bbb, false)))
            &&& op % 16 == 8 ==> full_opcode_table(op) == Some((single_byte_group(op / 16), AddressingMode::Implied))
        }),
{
}

/// An interrupt: BRK and IRQ are ignored while the Interrupt flag ($04) is
/// set, NMI never. A taken one pushes the status (with Break, $10, set for
/// BRK and clear otherwise), then the high and the low byte of the program
/// counter, leaves Break clear, and jumps through $FFFA (NMI) or $FFFE.
#[verifier::rlimit(40)]
pub proof fn law_interrupt(c: Cpu, m: MemView, i: Interrupt)
    requires
        m.ram.len() == 0x800,
    ensures
        i != Interrupt::NMI && c.p & 0x04 != 0 ==> interrupt_spec(c, m, i) == (c, m),
        i == Interrupt::NMI || c.p & 0x04 == 0 ==> ({
            let (c1, m1) = interrupt_spec(c, m, i);
            &&& c1.pc == peek_word(m, if i == Interrupt::NMI { 0xFFFAu16 } else { 0xFFFEu16 })
            &&& c1.sp == (c.sp + 253) % 256
            &&& m1.ram[0x100 + c.sp] == (if i == Interrupt::BRK { c.p | 0x10 } else { c.p & !0x10u8 })
            &&& m1.ram[0x100 + (c.sp + 255) % 256] == c.pc / 256
            &&& m1.ram[0x100 + (c.sp + 254) % 256] == c.pc % 256
            &&& c1.p == c.p & !0x10u8
            &&& c1.a == c.a && c1.x == c.x && c1.y == c.y
        }),
{
    lemma_with_bit();
}

/// What each memory addressing mode names, from the operand bytes after the
/// opcode: the zero-page modes stay in the zero page, wrapping the index
/// around it, and so do the pointers of the indirect modes; the absolute
/// indexed modes wrap around the 64 KiB.
#[verifier::rlimit(40)]
pub proof fn law_addressing(c: Cpu, m: MemView)
    ensures
        ({
            let b = peek(m, c.pc1());
            let m1 = after_read(m, c.pc1());
            let w = peek_word(m, c.pc1());
            let ptr = |z: int| peek(m1, (z % 256) as u16) + 256 * peek(m1, ((z + 1) % 256) as u16);
            &&& addr_of(c, m, AddressingMode::ZeroPage).0 == b
            &&& addr_of(c, m, AddressingMode::ZeroPageIndexedX).0 == (b + c.x) % 256
            &&& addr_of(c, m, AddressingMode::ZeroPageIndexedY).0 == (b + c.y) % 256
            &&& addr_of(c, m, AddressingMode::Absolute).0 == w
            &&& addr_of(c, m, AddressingMode::AbsoluteIndexedX).0 == (w + c.x) % 65536
            &&& addr_of(c, m, AddressingMode::AbsoluteIndexedY).0 == (w + c.y) % 65536
            &&& addr_of(c, m, AddressingMode::IndexedIndirect).0 == ptr(b + c.x)
            &&& addr_of(c, m, AddressingMode::IndirectIndexed).0 == (ptr(b as int) + c.y) % 65536
        }),
{
    reveal(addr_of);
    let b = peek(m, c.pc1());
    let m1 = after_read(m, c.pc1());
    let idx = wrap8(b + c.x);
    assert(wrap8(idx + 1) == (b + c.x + 1) % 256);
    assert(wrap8(b + 1) == (b + 1) % 256);
}

/// How many operand bytes follow an opcode in `mode`.
pub open spec fn operand_len(mode: AddressingMode) -> int {
    match mode {
        AddressingMode::Immediate | AddressingMode::ZeroPage | AddressingMode::ZeroPageIndexedX
        | AddressingMode::ZeroPageIndexedY | AddressingMode::IndexedIndirect
        | AddressingMode::IndirectIndexed | AddressingMode::Relative => 1,
        AddressingMode::Absolute | AddressingMode::AbsoluteIndexedX | AddressingMode::AbsoluteIndexedY
        | AddressingMode::Indirect => 2,
        _ => 0,
    }
}

/// The instructions that put the program counter somewhere themselves.
pub open spec fn moves_pc(inst: Instruction) -> bool {
    match inst {
        Instruction::JMP | Instruction::JSR | Instruction::RTS | Instruction::RTI | Instruction::BRK
        | Instruction::BPL | Instruction::BMI | Instruction::BVC | Instruction::BVS | Instruction::BCC
        | Instruction::BCS | Instruction::BNE | Instruction::BEQ => true,
        _ => false,
    }
}

/// Reading or writing an operand leaves the program counter where it is.
proof fn lemma_operands_keep_pc()
    ensures
        forall|c: Cpu, m: MemView, mode: AddressingMode| #[trigger] fetch(c, m, mode).1.pc == c.pc,
        forall|c: Cpu, m: MemView, mode: AddressingMode, v: u8| #[trigger] store(c, m, mode, v).0.pc == c.pc,
        forall|c: Cpu, m: MemView, mode: AddressingMode| #[trigger] addr_of(c, m, mode).1.pc == c.pc,
{
    reveal(fetch);
    reveal(store);
    reveal(addr_of);
}

/// Every instruction but the jumps, returns, BRK and the branches leaves
/// the program counter alone while it runs; a step over one of them, with
/// a known opcode at the program counter, then moves on past the opcode and
/// its operand bytes to the next instruction.
#[verifier::rlimit(100)]
pub proof fn law_instruction_length(c: Cpu, m: MemView)
    requires
        full_opcode_table(peek(m, c.pc)) is Some,
    ensures
        ({
            let (inst, mode) = decoded(c, m);
            !moves_pc(inst) ==> step_spec(c, m).0.pc == wrap16(c.pc + 1 + operand_len(mode))
        }),
{
    let (inst, mode) = decoded(c, m);
    if !moves_pc(inst) {
        let (c1, m1) = crate::nes::cpu::before_exec(c, m);
        lemma_exec_keeps_pc(c1, m1, inst, mode);
        lemma_control_modes(peek(m, c.pc));
        assert(crate::nes::cpu::bump(mode) == 1 + operand_len(mode));
    }
}

/// Only jumps and branches are decoded with the relative or the indirect
/// mode.
#[verifier::rlimit(100)]
proof fn lemma_control_modes(op: u8)
    ensures
        full_opcode_table(op) is Some && (full_opcode_table(op).unwrap().1 == AddressingMode::Relative
            || full_opcode_table(op).unwrap().1 == AddressingMode::Indirect) ==> moves_pc(
            full_opcode_table(op).unwrap().0,
        ),
{
}

/// What `law_instruction_length` rests on: the instruction itself does not
/// move the program counter.
#[verifier::rlimit(100)]
proof fn lemma_exec_keeps_pc(c: Cpu, m: MemView, inst: Instruction, mode: AddressingMode)
    requires
        !moves_pc(inst),
    ensures
        exec_spec(c, m, inst, mode).0.pc == c.pc,
{
    lemma_operands_keep_pc();
}

} // verus!
