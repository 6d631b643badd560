//! Instruction decode and dispatch for the 6502: opcodes, mnemonics and
//! addressing modes. The instructions are split into files by what they do.
pub mod alu;
pub mod branch;
pub mod flag;
pub mod increments;
pub mod jumps;
pub mod loads_stores;
pub mod nop;
pub mod registers;
pub mod stack;
pub mod unofficial;

use vstd::prelude::*;
use crate::nes::cpu::wrap8;
use crate::nes::cpu::{Cpu, Interrupt, StatusFlag, with_bit, zn, fetch_ok, store_ok, store, push, interrupt_ok, interrupt_spec};
use crate::nes::memory::{Memory, MemView};
use self::alu::{bit_spec, ora_spec, and_spec, eor_spec, adc_spec, sbc_spec, cmp_spec, cpx_spec, cpy_spec, shift_ok, shift_spec};
use self::branch::{branch_ok, branch_spec};
use self::increments::{rmw_ok, step_mem_spec};
use self::jumps::{jsr_ok, jsr_spec, jmp_ok, jmp_spec, rti_spec, rts_spec};
use self::loads_stores::{lda_spec, ldx_spec, ldy_spec};
use self::stack::{pla_spec, plp_spec};
use self::unofficial::{lax_spec, dcp_spec, isc_ok, isc_spec, combo_ok, anc_spec, arr_spec, axs_spec, addr_store_ok, xas_spec, sya_spec, sxa_spec, atx_spec, lar_spec};

verus! {

/// All addressing modes used by the 6502 processor
#[derive(Debug, Clone, Copy, PartialEq, Eq, Structural)]
pub enum AddressingMode {
    ZeroPageIndexedX,
    ZeroPageIndexedY,
    AbsoluteIndexedX,
    AbsoluteIndexedY,
    IndexedIndirect,
    IndirectIndexed,
    Implied,
    Accumulator,
    Immediate,
    ZeroPage,
    Absolute,
    Relative,
    Indirect,
}

/// All 6502 instructions; the undocumented ones end in `_u`.
#[derive(Debug, PartialEq, Eq, Copy, Clone, Structural)]
#[allow(non_camel_case_types)]
pub enum Instruction {
    BRK, PHP, PLP, PHA, PLA, TXS, TSX, BPL,
    BMI, BVC, BVS, BCC, BCS, BNE, BEQ, CLC,
    SEC, CLI, SEI, CLV, CLD, SED, DEY, DEX,
    INX, INY, TAX, TXA, TAY, TYA, CPY, CPX,
    LDA, LDX, LDY, STA, STX, STY, JSR, JMP,
    RTI, RTS, BIT, ORA, AND, EOR, ADC, CMP,
    SBC, ASL, LSR, ROL, ROR, DEC, INC, NOP,

    // Below are unofficial opcodes denoted by an appended _u
    NOP_u, LAX_u, SAX_u, SBC_u, DCP_u, ISC_u,
    SLO_u, RLA_u, SRE_u, RRA_u, ALR_u, ANC_u,
    ARR_u, AXS_u, AXA_u, XAS_u, SYA_u, SXA_u,
    ATX_u, LAR_u,
}

/// The opcodes the interpreter in `crate::cpu` executes: every documented
/// 6502 opcode except BRK ($00) and CLI ($58).
pub open spec fn opcode_table(op: u8) -> Option<(Instruction, AddressingMode)> {
    match op {
        0x01 => Some((Instruction::ORA, AddressingMode::IndexedIndirect)),
        0x05 => Some((Instruction::ORA, AddressingMode::ZeroPage)),
        0x06 => Some((Instruction::ASL, AddressingMode::ZeroPage)),
        0x08 => Some((Instruction::PHP, AddressingMode::Implied)),
        0x09 => Some((Instruction::ORA, AddressingMode::Immediate)),
        0x0A => Some((Instruction::ASL, AddressingMode::Accumulator)),
        0x0D => Some((Instruction::ORA, AddressingMode::Absolute)),
        0x0E => Some((Instruction::ASL, AddressingMode::Absolute)),
        0x10 => Some((Instruction::BPL, AddressingMode::Relative)),
        0x11 => Some((Instruction::ORA, AddressingMode::IndirectIndexed)),
        0x15 => Some((Instruction::ORA, AddressingMode::ZeroPageIndexedX)),
        0x16 => Some((Instruction::ASL, AddressingMode::ZeroPageIndexedX)),
        0x18 => Some((Instruction::CLC, AddressingMode::Implied)),
        0x19 => Some((Instruction::ORA, AddressingMode::AbsoluteIndexedY)),
        0x1D => Some((Instruction::ORA, AddressingMode::AbsoluteIndexedX)),
        0x1E => Some((Instruction::ASL, AddressingMode::AbsoluteIndexedX)),
        0x20 => Some((Instruction::JSR, AddressingMode::Absolute)),
        0x21 => Some((Instruction::AND, AddressingMode::IndexedIndirect)),
        0x24 => Some((Instruction::BIT, AddressingMode::ZeroPage)),
        0x25 => Some((Instruction::AND, AddressingMode::ZeroPage)),
        0x26 => Some((Instruction::ROL, AddressingMode::ZeroPage)),
        0x28 => Some((Instruction::PLP, AddressingMode::Implied)),
        0x29 => Some((Instruction::AND, AddressingMode::Immediate)),
        0x2A => Some((Instruction::ROL, AddressingMode::Accumulator)),
        0x2C => Some((Instruction::BIT, AddressingMode::Absolute)),
        0x2D => Some((Instruction::AND, AddressingMode::Absolute)),
        0x2E => Some((Instruction::ROL, AddressingMode::Absolute)),
        0x30 => Some((Instruction::BMI, AddressingMode::Relative)),
        0x31 => Some((Instruction::AND, AddressingMode::IndirectIndexed)),
        0x35 => Some((Instruction::AND, AddressingMode::ZeroPageIndexedX)),
        0x36 => Some((Instruction::ROL, AddressingMode::ZeroPageIndexedX)),
        0x38 => Some((Instruction::SEC, AddressingMode::Implied)),
        0x39 => Some((Instruction::AND, AddressingMode::AbsoluteIndexedY)),
        0x3D => Some((Instruction::AND, AddressingMode::AbsoluteIndexedX)),
        0x3E => Some((Instruction::ROL, AddressingMode::AbsoluteIndexedX)),
        0x40 => Some((Instruction::RTI, AddressingMode::Implied)),
        0x41 => Some((Instruction::EOR, AddressingMode::IndexedIndirect)),
        0x45 => Some((Instruction::EOR, AddressingMode::ZeroPage)),
        0x46 => Some((Instruction::LSR, AddressingMode::ZeroPage)),
        0x48 => Some((Instruction::PHA, AddressingMode::Implied)),
        0x49 => Some((Instruction::EOR, AddressingMode::Immediate)),
        0x4A => Some((Instruction::LSR, AddressingMode::Accumulator)),
        0x4C => Some((Instruction::JMP, AddressingMode::Absolute)),
        0x4D => Some((Instruction::EOR, AddressingMode::Absolute)),
        0x4E => Some((Instruction::LSR, AddressingMode::Absolute)),
        0x50 => Some((Instruction::BVC, AddressingMode::Relative)),
        0x51 => Some((Instruction::EOR, AddressingMode::IndirectIndexed)),
        0x55 => Some((Instruction::EOR, AddressingMode::ZeroPageIndexedX)),
        0x56 => Some((Instruction::LSR, AddressingMode::ZeroPageIndexedX)),
        0x59 => Some((Instruction::EOR, AddressingMode::AbsoluteIndexedY)),
        0x5D => Some((Instruction::EOR, AddressingMode::AbsoluteIndexedX)),
        0x5E => Some((Instruction::LSR, AddressingMode::AbsoluteIndexedX)),
        0x60 => Some((Instruction::RTS, AddressingMode::Implied)),
        0x61 => Some((Instruction::ADC, AddressingMode::IndexedIndirect)),
        0x65 => Some((Instruction::ADC, AddressingMode::ZeroPage)),
        0x66 => Some((Instruction::ROR, AddressingMode::ZeroPage)),
        0x68 => Some((Instruction::PLA, AddressingMode::Implied)),
        0x69 => Some((Instruction::ADC, AddressingMode::Immediate)),
        0x6A => Some((Instruction::ROR, AddressingMode::Accumulator)),
        0x6C => Some((Instruction::JMP, AddressingMode::Indirect)),
        0x6D => Some((Instruction::ADC, AddressingMode::Absolute)),
        0x6E => Some((Instruction::ROR, AddressingMode::Absolute)),
        0x70 => Some((Instruction::BVS, AddressingMode::Relative)),
        0x71 => Some((Instruction::ADC, AddressingMode::IndirectIndexed)),
        0x75 => Some((Instruction::ADC, AddressingMode::ZeroPageIndexedX)),
        0x76 => Some((Instruction::ROR, AddressingMode::ZeroPageIndexedX)),
        0x78 => Some((Instruction::SEI, AddressingMode::Implied)),
        0x79 => Some((Instruction::ADC, AddressingMode::AbsoluteIndexedY)),
        0x7D => Some((Instruction::ADC, AddressingMode::AbsoluteIndexedX)),
        0x7E => Some((Instruction::ROR, AddressingMode::AbsoluteIndexedX)),
        0x81 => Some((Instruction::STA, AddressingMode::IndexedIndirect)),
        0x84 => Some((Instruction::STY, AddressingMode::ZeroPage)),
        0x85 => Some((Instruction::STA, AddressingMode::ZeroPage)),
        0x86 => Some((Instruction::STX, AddressingMode::ZeroPage)),
        0x88 => Some((Instruction::DEY, AddressingMode::Implied)),
        0x8A => Some((Instruction::TXA, AddressingMode::Implied)),
        0x8C => Some((Instruction::STY, AddressingMode::Absolute)),
        0x8D => Some((Instruction::STA, AddressingMode::Absolute)),
        0x8E => Some((Instruction::STX, AddressingMode::Absolute)),
        0x90 => Some((Instruction::BCC, AddressingMode::Relative)),
        0x91 => Some((Instruction::STA, AddressingMode::IndirectIndexed)),
        0x94 => Some((Instruction::STY, AddressingMode::ZeroPageIndexedX)),
        0x95 => Some((Instruction::STA, AddressingMode::ZeroPageIndexedX)),
        0x96 => Some((Instruction::STX, AddressingMode::ZeroPageIndexedY)),
        0x98 => Some((Instruction::TYA, AddressingMode::Implied)),
        0x99 => Some((Instruction::STA, AddressingMode::AbsoluteIndexedY)),
        0x9A => Some((Instruction::TXS, AddressingMode::Implied)),
        0x9D => Some((Instruction::STA, AddressingMode::AbsoluteIndexedX)),
        0xA0 => Some((Instruction::LDY, AddressingMode::Immediate)),
        0xA1 => Some((Instruction::LDA, AddressingMode::IndexedIndirect)),
        0xA2 => Some((Instruction::LDX, AddressingMode::Immediate)),
        0xA4 => Some((Instruction::LDY, AddressingMode::ZeroPage)),
        0xA5 => Some((Instruction::LDA, AddressingMode::ZeroPage)),
        0xA6 => Some((Instruction::LDX, AddressingMode::ZeroPage)),
        0xA8 => Some((Instruction::TAY, AddressingMode::Implied)),
        0xA9 => Some((Instruction::LDA, AddressingMode::Immediate)),
        0xAA => Some((Instruction::TAX, AddressingMode::Implied)),
        0xAC => Some((Instruction::LDY, AddressingMode::Absolute)),
        0xAD => Some((Instruction::LDA, AddressingMode::Absolute)),
        0xAE => Some((Instruction::LDX, AddressingMode::Absolute)),
        0xB0 => Some((Instruction::BCS, AddressingMode::Relative)),
        0xB1 => Some((Instruction::LDA, AddressingMode::IndirectIndexed)),
        0xB4 => Some((Instruction::LDY, AddressingMode::ZeroPageIndexedX)),
        0xB5 => Some((Instruction::LDA, AddressingMode::ZeroPageIndexedX)),
        0xB6 => Some((Instruction::LDX, AddressingMode::ZeroPageIndexedY)),
        0xB8 => Some((Instruction::CLV, AddressingMode::Implied)),
        0xB9 => Some((Instruction::LDA, AddressingMode::AbsoluteIndexedY)),
        0xBA => Some((Instruction::TSX, AddressingMode::Implied)),
        0xBC => Some((Instruction::LDY, AddressingMode::AbsoluteIndexedX)),
        0xBD => Some((Instruction::LDA, AddressingMode::AbsoluteIndexedX)),
        0xBE => Some((Instruction::LDX, AddressingMode::AbsoluteIndexedY)),
        0xC0 => Some((Instruction::CPY, AddressingMode::Immediate)),
        0xC1 => Some((Instruction::CMP, AddressingMode::IndexedIndirect)),
        0xC4 => Some((Instruction::CPY, AddressingMode::ZeroPage)),
        0xC5 => Some((Instruction::CMP, AddressingMode::ZeroPage)),
        0xC6 => Some((Instruction::DEC, AddressingMode::ZeroPage)),
        0xC8 => Some((Instruction::INY, AddressingMode::Implied)),
        0xC9 => Some((Instruction::CMP, AddressingMode::Immediate)),
        0xCA => Some((Instruction::DEX, AddressingMode::Implied)),
        0xCC => Some((Instruction::CPY, AddressingMode::Absolute)),
        0xCD => Some((Instruction::CMP, AddressingMode::Absolute)),
        0xCE => Some((Instruction::DEC, AddressingMode::Absolute)),
        0xD0 => Some((Instruction::BNE, AddressingMode::Relative)),
        0xD1 => Some((Instruction::CMP, AddressingMode::IndirectIndexed)),
        0xD5 => Some((Instruction::CMP, AddressingMode::ZeroPageIndexedX)),
        0xD6 => Some((Instruction::DEC, AddressingMode::ZeroPageIndexedX)),
        0xD8 => Some((Instruction::CLD, AddressingMode::Implied)),
        0xD9 => Some((Instruction::CMP, AddressingMode::AbsoluteIndexedY)),
        0xDD => Some((Instruction::CMP, AddressingMode::AbsoluteIndexedX)),
        0xDE => Some((Instruction::DEC, AddressingMode::AbsoluteIndexedX)),
        0xE0 => Some((Instruction::CPX, AddressingMode::Immediate)),
        0xE1 => Some((Instruction::SBC, AddressingMode::IndexedIndirect)),
        0xE4 => Some((Instruction::CPX, AddressingMode::ZeroPage)),
        0xE5 => Some((Instruction::SBC, AddressingMode::ZeroPage)),
        0xE6 => Some((Instruction::INC, AddressingMode::ZeroPage)),
        0xE8 => Some((Instruction::INX, AddressingMode::Implied)),
        0xE9 => Some((Instruction::SBC, AddressingMode::Immediate)),
        0xEA => Some((Instruction::NOP, AddressingMode::Implied)),
        0xEC => Some((Instruction::CPX, AddressingMode::Absolute)),
        0xED => Some((Instruction::SBC, AddressingMode::Absolute)),
        0xEE => Some((Instruction::INC, AddressingMode::Absolute)),
        0xF0 => Some((Instruction::BEQ, AddressingMode::Relative)),
        0xF1 => Some((Instruction::SBC, AddressingMode::IndirectIndexed)),
        0xF5 => Some((Instruction::SBC, AddressingMode::ZeroPageIndexedX)),
        0xF6 => Some((Instruction::INC, AddressingMode::ZeroPageIndexedX)),
        0xF8 => Some((Instruction::SED, AddressingMode::Implied)),
        0xF9 => Some((Instruction::SBC, AddressingMode::AbsoluteIndexedY)),
        0xFD => Some((Instruction::SBC, AddressingMode::AbsoluteIndexedX)),
        0xFE => Some((Instruction::INC, AddressingMode::AbsoluteIndexedX)),
        _ => None,
    }
}

/// The opcodes `decode` recognises: those of `opcode_table`, BRK, CLI and
/// the undocumented opcodes. The KIL opcodes and XAA ($8B) are not recognised.
pub open spec fn full_opcode_table(op: u8) -> Option<(Instruction, AddressingMode)> {
    match op {
        0x00 => Some((Instruction::BRK, AddressingMode::Implied)),
        0x03 => Some((Instruction::SLO_u, AddressingMode::IndexedIndirect)),
        0x04 => Some((Instruction::NOP_u, AddressingMode::ZeroPage)),
        0x07 => Some((Instruction::SLO_u, AddressingMode::ZeroPage)),
        0x0B => Some((Instruction::ANC_u, AddressingMode::Immediate)),
        0x0C => Some((Instruction::NOP_u, AddressingMode::Absolute)),
        0x0F => Some((Instruction::SLO_u, AddressingMode::Absolute)),
        0x13 => Some((Instruction::SLO_u, AddressingMode::IndirectIndexed)),
        0x14 => Some((Instruction::NOP_u, AddressingMode::ZeroPageIndexedX)),
        0x17 => Some((Instruction::SLO_u, AddressingMode::ZeroPageIndexedX)),
        0x1A => Some((Instruction::NOP_u, AddressingMode::Implied)),
        0x1B => Some((Instruction::SLO_u, AddressingMode::AbsoluteIndexedY)),
        0x1C => Some((Instruction::NOP_u, AddressingMode::AbsoluteIndexedX)),
        0x1F => Some((Instruction::SLO_u, AddressingMode::AbsoluteIndexedX)),
        0x23 => Some((Instruction::RLA_u, AddressingMode::IndexedIndirect)),
        0x27 => Some((Instruction::RLA_u, AddressingMode::ZeroPage)),
        0x2B => Some((Instruction::ANC_u, AddressingMode::Immediate)),
        0x2F => Some((Instruction::RLA_u, AddressingMode::Absolute)),
        0x33 => Some((Instruction::RLA_u, AddressingMode::IndirectIndexed)),
        0x34 => Some((Instruction::NOP_u, AddressingMode::ZeroPageIndexedX)),
        0x37 => Some((Instruction::RLA_u, AddressingMode::ZeroPageIndexedX)),
        0x3A => Some((Instruction::NOP_u, AddressingMode::Implied)),
        0x3B => Some((Instruction::RLA_u, AddressingMode::AbsoluteIndexedY)),
        0x3C => Some((Instruction::NOP_u, AddressingMode::AbsoluteIndexedX)),
        0x3F => Some((Instruction::RLA_u, AddressingMode::AbsoluteIndexedX)),
        0x43 => Some((Instruction::SRE_u, AddressingMode::IndexedIndirect)),
        0x44 => Some((Instruction::NOP_u, AddressingMode::ZeroPage)),
        0x47 => Some((Instruction::SRE_u, AddressingMode::ZeroPage)),
        0x4B => Some((Instruction::ALR_u, AddressingMode::Immediate)),
        0x4F => Some((Instruction::SRE_u, AddressingMode::Absolute)),
        0x53 => Some((Instruction::SRE_u, AddressingMode::IndirectIndexed)),
        0x54 => Some((Instruction::NOP_u, AddressingMode::ZeroPageIndexedX)),
        0x57 => Some((Instruction::SRE_u, AddressingMode::ZeroPageIndexedX)),
        0x58 => Some((Instruction::CLI, AddressingMode::Implied)),
        0x5A => Some((Instruction::NOP_u, AddressingMode::Implied)),
        0x5B => Some((Instruction::SRE_u, AddressingMode::AbsoluteIndexedY)),
        0x5C => Some((Instruction::NOP_u, AddressingMode::AbsoluteIndexedX)),
        0x5F => Some((Instruction::SRE_u, AddressingMode::AbsoluteIndexedX)),
        0x63 => Some((Instruction::RRA_u, AddressingMode::IndexedIndirect)),
        0x64 => Some((Instruction::NOP_u, AddressingMode::ZeroPage)),
        0x67 => Some((Instruction::RRA_u, AddressingMode::ZeroPage)),
        0x6B => Some((Instruction::ARR_u, AddressingMode::Immediate)),
        0x6F => Some((Instruction::RRA_u, AddressingMode::Absolute)),
        0x73 => Some((Instruction::RRA_u, AddressingMode::IndirectIndexed)),
        0x74 => Some((Instruction::NOP_u, AddressingMode::ZeroPageIndexedX)),
        0x77 => Some((Instruction::RRA_u, AddressingMode::ZeroPageIndexedX)),
        0x7A => Some((Instruction::NOP_u, AddressingMode::Implied)),
        0x7B => Some((Instruction::RRA_u, AddressingMode::AbsoluteIndexedY)),
        0x7C => Some((Instruction::NOP_u, AddressingMode::AbsoluteIndexedX)),
        0x7F => Some((Instruction::RRA_u, AddressingMode::AbsoluteIndexedX)),
        0x80 => Some((Instruction::NOP_u, AddressingMode::Immediate)),
        0x82 => Some((Instruction::NOP_u, AddressingMode::Immediate)),
        0x83 => Some((Instruction::SAX_u, AddressingMode::IndexedIndirect)),
        0x87 => Some((Instruction::SAX_u, AddressingMode::ZeroPage)),
        0x89 => Some((Instruction::NOP_u, AddressingMode::Immediate)),
        0x8F => Some((Instruction::SAX_u, AddressingMode::Absolute)),
        0x93 => Some((Instruction::AXA_u, AddressingMode::AbsoluteIndexedY)),
        0x97 => Some((Instruction::SAX_u, AddressingMode::ZeroPageIndexedY)),
        0x9B => Some((Instruction::XAS_u, AddressingMode::AbsoluteIndexedY)),
        0x9C => Some((Instruction::SYA_u, AddressingMode::AbsoluteIndexedX)),
        0x9E => Some((Instruction::SXA_u, AddressingMode::AbsoluteIndexedY)),
        0x9F => Some((Instruction::AXA_u, AddressingMode::IndirectIndexed)),
        0xA3 => Some((Instruction::LAX_u, AddressingMode::IndexedIndirect)),
        0xA7 => Some((Instruction::LAX_u, AddressingMode::ZeroPage)),
        0xAB => Some((Instruction::ATX_u, AddressingMode::Immediate)),
        0xAF => Some((Instruction::LAX_u, AddressingMode::Absolute)),
        0xB3 => Some((Instruction::LAX_u, AddressingMode::IndirectIndexed)),
        0xB7 => Some((Instruction::LAX_u, AddressingMode::ZeroPageIndexedY)),
        0xBB => Some((Instruction::LAR_u, AddressingMode::AbsoluteIndexedY)),
        0xBF => Some((Instruction::LAX_u, AddressingMode::AbsoluteIndexedY)),
        0xC2 => Some((Instruction::NOP_u, AddressingMode::Immediate)),
        0xC3 => Some((Instruction::DCP_u, AddressingMode::IndexedIndirect)),
        0xC7 => Some((Instruction::DCP_u, AddressingMode::ZeroPage)),
        0xCB => Some((Instruction::AXS_u, AddressingMode::Immediate)),
        0xCF => Some((Instruction::DCP_u, AddressingMode::Absolute)),
        0xD3 => Some((Instruction::DCP_u, AddressingMode::IndirectIndexed)),
        0xD4 => Some((Instruction::NOP_u, AddressingMode::ZeroPageIndexedX)),
        0xD7 => Some((Instruction::DCP_u, AddressingMode::ZeroPageIndexedX)),
        0xDA => Some((Instruction::NOP_u, AddressingMode::Implied)),
        0xDB => Some((Instruction::DCP_u, AddressingMode::AbsoluteIndexedY)),
        0xDC => Some((Instruction::NOP_u, AddressingMode::AbsoluteIndexedX)),
        0xDF => Some((Instruction::DCP_u, AddressingMode::AbsoluteIndexedX)),
        0xE2 => Some((Instruction::NOP_u, AddressingMode::Immediate)),
        0xE3 => Some((Instruction::ISC_u, AddressingMode::IndexedIndirect)),
        0xE7 => Some((Instruction::ISC_u, AddressingMode::ZeroPage)),
        0xEB => Some((Instruction::SBC_u, AddressingMode::Immediate)),
        0xEF => Some((Instruction::ISC_u, AddressingMode::Absolute)),
        0xF3 => Some((Instruction::ISC_u, AddressingMode::IndirectIndexed)),
        0xF4 => Some((Instruction::NOP_u, AddressingMode::ZeroPageIndexedX)),
        0xF7 => Some((Instruction::ISC_u, AddressingMode::ZeroPageIndexedX)),
        0xFA => Some((Instruction::NOP_u, AddressingMode::Implied)),
        0xFB => Some((Instruction::ISC_u, AddressingMode::AbsoluteIndexedY)),
        0xFC => Some((Instruction::NOP_u, AddressingMode::AbsoluteIndexedX)),
        0xFF => Some((Instruction::ISC_u, AddressingMode::AbsoluteIndexedX)),
        _ => opcode_table(op),
    }
}

/// Looks an opcode up in `opcode_table`.
pub fn decode_opcode(op: u8) -> (r: Option<(Instruction, AddressingMode)>)
    ensures
        r == opcode_table(op),
{
    match op {
        0x01 => Some((Instruction::ORA, AddressingMode::IndexedIndirect)),
        0x05 => Some((Instruction::ORA, AddressingMode::ZeroPage)),
        0x06 => Some((Instruction::ASL, AddressingMode::ZeroPage)),
        0x08 => Some((Instruction::PHP, AddressingMode::Implied)),
        0x09 => Some((Instruction::ORA, AddressingMode::Immediate)),
        0x0A => Some((Instruction::ASL, AddressingMode::Accumulator)),
        0x0D => Some((Instruction::ORA, AddressingMode::Absolute)),
        0x0E => Some((Instruction::ASL, AddressingMode::Absolute)),
        0x10 => Some((Instruction::BPL, AddressingMode::Relative)),
        0x11 => Some((Instruction::ORA, AddressingMode::IndirectIndexed)),
        0x15 => Some((Instruction::ORA, AddressingMode::ZeroPageIndexedX)),
        0x16 => Some((Instruction::ASL, AddressingMode::ZeroPageIndexedX)),
        0x18 => Some((Instruction::CLC, AddressingMode::Implied)),
        0x19 => Some((Instruction::ORA, AddressingMode::AbsoluteIndexedY)),
        0x1D => Some((Instruction::ORA, AddressingMode::AbsoluteIndexedX)),
        0x1E => Some((Instruction::ASL, AddressingMode::AbsoluteIndexedX)),
        0x20 => Some((Instruction::JSR, AddressingMode::Absolute)),
        0x21 => Some((Instruction::AND, AddressingMode::IndexedIndirect)),
        0x24 => Some((Instruction::BIT, AddressingMode::ZeroPage)),
        0x25 => Some((Instruction::AND, AddressingMode::ZeroPage)),
        0x26 => Some((Instruction::ROL, AddressingMode::ZeroPage)),
        0x28 => Some((Instruction::PLP, AddressingMode::Implied)),
        0x29 => Some((Instruction::AND, AddressingMode::Immediate)),
        0x2A => Some((Instruction::ROL, AddressingMode::Accumulator)),
        0x2C => Some((Instruction::BIT, AddressingMode::Absolute)),
        0x2D => Some((Instruction::AND, AddressingMode::Absolute)),
        0x2E => Some((Instruction::ROL, AddressingMode::Absolute)),
        0x30 => Some((Instruction::BMI, AddressingMode::Relative)),
        0x31 => Some((Instruction::AND, AddressingMode::IndirectIndexed)),
        0x35 => Some((Instruction::AND, AddressingMode::ZeroPageIndexedX)),
        0x36 => Some((Instruction::ROL, AddressingMode::ZeroPageIndexedX)),
        0x38 => Some((Instruction::SEC, AddressingMode::Implied)),
        0x39 => Some((Instruction::AND, AddressingMode::AbsoluteIndexedY)),
        0x3D => Some((Instruction::AND, AddressingMode::AbsoluteIndexedX)),
        0x3E => Some((Instruction::ROL, AddressingMode::AbsoluteIndexedX)),
        0x40 => Some((Instruction::RTI, AddressingMode::Implied)),
        0x41 => Some((Instruction::EOR, AddressingMode::IndexedIndirect)),
        0x45 => Some((Instruction::EOR, AddressingMode::ZeroPage)),
        0x46 => Some((Instruction::LSR, AddressingMode::ZeroPage)),
        0x48 => Some((Instruction::PHA, AddressingMode::Implied)),
        0x49 => Some((Instruction::EOR, AddressingMode::Immediate)),
        0x4A => Some((Instruction::LSR, AddressingMode::Accumulator)),
        0x4C => Some((Instruction::JMP, AddressingMode::Absolute)),
        0x4D => Some((Instruction::EOR, AddressingMode::Absolute)),
        0x4E => Some((Instruction::LSR, AddressingMode::Absolute)),
        0x50 => Some((Instruction::BVC, AddressingMode::Relative)),
        0x51 => Some((Instruction::EOR, AddressingMode::IndirectIndexed)),
        0x55 => Some((Instruction::EOR, AddressingMode::ZeroPageIndexedX)),
        0x56 => Some((Instruction::LSR, AddressingMode::ZeroPageIndexedX)),
        0x59 => Some((Instruction::EOR, AddressingMode::AbsoluteIndexedY)),
        0x5D => Some((Instruction::EOR, AddressingMode::AbsoluteIndexedX)),
        0x5E => Some((Instruction::LSR, AddressingMode::AbsoluteIndexedX)),
        0x60 => Some((Instruction::RTS, AddressingMode::Implied)),
        0x61 => Some((Instruction::ADC, AddressingMode::IndexedIndirect)),
        0x65 => Some((Instruction::ADC, AddressingMode::ZeroPage)),
        0x66 => Some((Instruction::ROR, AddressingMode::ZeroPage)),
        0x68 => Some((Instruction::PLA, AddressingMode::Implied)),
        0x69 => Some((Instruction::ADC, AddressingMode::Immediate)),
        0x6A => Some((Instruction::ROR, AddressingMode::Accumulator)),
        0x6C => Some((Instruction::JMP, AddressingMode::Indirect)),
        0x6D => Some((Instruction::ADC, AddressingMode::Absolute)),
        0x6E => Some((Instruction::ROR, AddressingMode::Absolute)),
        0x70 => Some((Instruction::BVS, AddressingMode::Relative)),
        0x71 => Some((Instruction::ADC, AddressingMode::IndirectIndexed)),
        0x75 => Some((Instruction::ADC, AddressingMode::ZeroPageIndexedX)),
        0x76 => Some((Instruction::ROR, AddressingMode::ZeroPageIndexedX)),
        0x78 => Some((Instruction::SEI, AddressingMode::Implied)),
        0x79 => Some((Instruction::ADC, AddressingMode::AbsoluteIndexedY)),
        0x7D => Some((Instruction::ADC, AddressingMode::AbsoluteIndexedX)),
        0x7E => Some((Instruction::ROR, AddressingMode::AbsoluteIndexedX)),
        0x81 => Some((Instruction::STA, AddressingMode::IndexedIndirect)),
        0x84 => Some((Instruction::STY, AddressingMode::ZeroPage)),
        0x85 => Some((Instruction::STA, AddressingMode::ZeroPage)),
        0x86 => Some((Instruction::STX, AddressingMode::ZeroPage)),
        0x88 => Some((Instruction::DEY, AddressingMode::Implied)),
        0x8A => Some((Instruction::TXA, AddressingMode::Implied)),
        0x8C => Some((Instruction::STY, AddressingMode::Absolute)),
        0x8D => Some((Instruction::STA, AddressingMode::Absolute)),
        0x8E => Some((Instruction::STX, AddressingMode::Absolute)),
        0x90 => Some((Instruction::BCC, AddressingMode::Relative)),
        0x91 => Some((Instruction::STA, AddressingMode::IndirectIndexed)),
        0x94 => Some((Instruction::STY, AddressingMode::ZeroPageIndexedX)),
        0x95 => Some((Instruction::STA, AddressingMode::ZeroPageIndexedX)),
        0x96 => Some((Instruction::STX, AddressingMode::ZeroPageIndexedY)),
        0x98 => Some((Instruction::TYA, AddressingMode::Implied)),
        0x99 => Some((Instruction::STA, AddressingMode::AbsoluteIndexedY)),
        0x9A => Some((Instruction::TXS, AddressingMode::Implied)),
        0x9D => Some((Instruction::STA, AddressingMode::AbsoluteIndexedX)),
        0xA0 => Some((Instruction::LDY, AddressingMode::Immediate)),
        0xA1 => Some((Instruction::LDA, AddressingMode::IndexedIndirect)),
        0xA2 => Some((Instruction::LDX, AddressingMode::Immediate)),
        0xA4 => Some((Instruction::LDY, AddressingMode::ZeroPage)),
        0xA5 => Some((Instruction::LDA, AddressingMode::ZeroPage)),
        0xA6 => Some((Instruction::LDX, AddressingMode::ZeroPage)),
        0xA8 => Some((Instruction::TAY, AddressingMode::Implied)),
        0xA9 => Some((Instruction::LDA, AddressingMode::Immediate)),
        0xAA => Some((Instruction::TAX, AddressingMode::Implied)),
        0xAC => Some((Instruction::LDY, AddressingMode::Absolute)),
        0xAD => Some((Instruction::LDA, AddressingMode::Absolute)),
        0xAE => Some((Instruction::LDX, AddressingMode::Absolute)),
        0xB0 => Some((Instruction::BCS, AddressingMode::Relative)),
        0xB1 => Some((Instruction::LDA, AddressingMode::IndirectIndexed)),
        0xB4 => Some((Instruction::LDY, AddressingMode::ZeroPageIndexedX)),
        0xB5 => Some((Instruction::LDA, AddressingMode::ZeroPageIndexedX)),
        0xB6 => Some((Instruction::LDX, AddressingMode::ZeroPageIndexedY)),
        0xB8 => Some((Instruction::CLV, AddressingMode::Implied)),
        0xB9 => Some((Instruction::LDA, AddressingMode::AbsoluteIndexedY)),
        0xBA => Some((Instruction::TSX, AddressingMode::Implied)),
        0xBC => Some((Instruction::LDY, AddressingMode::AbsoluteIndexedX)),
        0xBD => Some((Instruction::LDA, AddressingMode::AbsoluteIndexedX)),
        0xBE => Some((Instruction::LDX, AddressingMode::AbsoluteIndexedY)),
        0xC0 => Some((Instruction::CPY, AddressingMode::Immediate)),
        0xC1 => Some((Instruction::CMP, AddressingMode::IndexedIndirect)),
        0xC4 => Some((Instruction::CPY, AddressingMode::ZeroPage)),
        0xC5 => Some((Instruction::CMP, AddressingMode::ZeroPage)),
        0xC6 => Some((Instruction::DEC, AddressingMode::ZeroPage)),
        0xC8 => Some((Instruction::INY, AddressingMode::Implied)),
        0xC9 => Some((Instruction::CMP, AddressingMode::Immediate)),
        0xCA => Some((Instruction::DEX, AddressingMode::Implied)),
        0xCC => Some((Instruction::CPY, AddressingMode::Absolute)),
        0xCD => Some((Instruction::CMP, AddressingMode::Absolute)),
        0xCE => Some((Instruction::DEC, AddressingMode::Absolute)),
        0xD0 => Some((Instruction::BNE, AddressingMode::Relative)),
        0xD1 => Some((Instruction::CMP, AddressingMode::IndirectIndexed)),
        0xD5 => Some((Instruction::CMP, AddressingMode::ZeroPageIndexedX)),
        0xD6 => Some((Instruction::DEC, AddressingMode::ZeroPageIndexedX)),
        0xD8 => Some((Instruction::CLD, AddressingMode::Implied)),
        0xD9 => Some((Instruction::CMP, AddressingMode::AbsoluteIndexedY)),
        0xDD => Some((Instruction::CMP, AddressingMode::AbsoluteIndexedX)),
        0xDE => Some((Instruction::DEC, AddressingMode::AbsoluteIndexedX)),
        0xE0 => Some((Instruction::CPX, AddressingMode::Immediate)),
        0xE1 => Some((Instruction::SBC, AddressingMode::IndexedIndirect)),
        0xE4 => Some((Instruction::CPX, AddressingMode::ZeroPage)),
        0xE5 => Some((Instruction::SBC, AddressingMode::ZeroPage)),
        0xE6 => Some((Instruction::INC, AddressingMode::ZeroPage)),
        0xE8 => Some((Instruction::INX, AddressingMode::Implied)),
        0xE9 => Some((Instruction::SBC, AddressingMode::Immediate)),
        0xEA => Some((Instruction::NOP, AddressingMode::Implied)),
        0xEC => Some((Instruction::CPX, AddressingMode::Absolute)),
        0xED => Some((Instruction::SBC, AddressingMode::Absolute)),
        0xEE => Some((Instruction::INC, AddressingMode::Absolute)),
        0xF0 => Some((Instruction::BEQ, AddressingMode::Relative)),
        0xF1 => Some((Instruction::SBC, AddressingMode::IndirectIndexed)),
        0xF5 => Some((Instruction::SBC, AddressingMode::ZeroPageIndexedX)),
        0xF6 => Some((Instruction::INC, AddressingMode::ZeroPageIndexedX)),
        0xF8 => Some((Instruction::SED, AddressingMode::Implied)),
        0xF9 => Some((Instruction::SBC, AddressingMode::AbsoluteIndexedY)),
        0xFD => Some((Instruction::SBC, AddressingMode::AbsoluteIndexedX)),
        0xFE => Some((Instruction::INC, AddressingMode::AbsoluteIndexedX)),
        _ => None,
    }
}


/// Takes an opcode fetched by the CPU and returns the instruction and
/// addressing mode. NOP ($EA) takes two more cycles here. The KIL opcodes
/// and XAA ($8B) are not recognised.
pub fn decode(cpu: &mut Cpu, op_code: u8) -> (r: (Instruction, AddressingMode))
    requires
        full_opcode_table(op_code) is Some,
        op_code == 0xEA ==> old(cpu).cycle + 2 <= u32::MAX,
    ensures
        r == full_opcode_table(op_code).unwrap(),
        *final(cpu) == (if op_code == 0xEA { old(cpu).after_cycles(2) } else { *old(cpu) }),
{
    match op_code {
        0x00 => (Instruction::BRK, AddressingMode::Implied),
        0x01 => (Instruction::ORA, AddressingMode::IndexedIndirect),
        0x03 => (Instruction::SLO_u, AddressingMode::IndexedIndirect),
        0x04 => (Instruction::NOP_u, AddressingMode::ZeroPage),
        0x05 => (Instruction::ORA, AddressingMode::ZeroPage),
        0x06 => (Instruction::ASL, AddressingMode::ZeroPage),
        0x07 => (Instruction::SLO_u, AddressingMode::ZeroPage),
        0x08 => (Instruction::PHP, AddressingMode::Implied),
        0x09 => (Instruction::ORA, AddressingMode::Immediate),
        0x0A => (Instruction::ASL, AddressingMode::Accumulator),
        0x0B => (Instruction::ANC_u, AddressingMode::Immediate),
        0x0C => (Instruction::NOP_u, AddressingMode::Absolute),
        0x0D => (Instruction::ORA, AddressingMode::Absolute),
        0x0E => (Instruction::ASL, AddressingMode::Absolute),
        0x0F => (Instruction::SLO_u, AddressingMode::Absolute),
        0x10 => (Instruction::BPL, AddressingMode::Relative),
        0x11 => (Instruction::ORA, AddressingMode::IndirectIndexed),
        0x13 => (Instruction::SLO_u, AddressingMode::IndirectIndexed),
        0x14 => (Instruction::NOP_u, AddressingMode::ZeroPageIndexedX),
        0x15 => (Instruction::ORA, AddressingMode::ZeroPageIndexedX),
        0x16 => (Instruction::ASL, AddressingMode::ZeroPageIndexedX),
        0x17 => (Instruction::SLO_u, AddressingMode::ZeroPageIndexedX),
        0x18 => (Instruction::CLC, AddressingMode::Implied),
        0x19 => (Instruction::ORA, AddressingMode::AbsoluteIndexedY),
        0x1A => (Instruction::NOP_u, AddressingMode::Implied),
        0x1B => (Instruction::SLO_u, AddressingMode::AbsoluteIndexedY),
        0x1C => (Instruction::NOP_u, AddressingMode::AbsoluteIndexedX),
        0x1D => (Instruction::ORA, AddressingMode::AbsoluteIndexedX),
        0x1E => (Instruction::ASL, AddressingMode::AbsoluteIndexedX),
        0x1F => (Instruction::SLO_u, AddressingMode::AbsoluteIndexedX),
        0x20 => (Instruction::JSR, AddressingMode::Absolute),
        0x21 => (Instruction::AND, AddressingMode::IndexedIndirect),
        0x23 => (Instruction::RLA_u, AddressingMode::IndexedIndirect),
        0x24 => (Instruction::BIT, AddressingMode::ZeroPage),
        0x25 => (Instruction::AND, AddressingMode::ZeroPage),
        0x26 => (Instruction::ROL, AddressingMode::ZeroPage),
        0x27 => (Instruction::RLA_u, AddressingMode::ZeroPage),
        0x28 => (Instruction::PLP, AddressingMode::Implied),
        0x29 => (Instruction::AND, AddressingMode::Immediate),
        0x2A => (Instruction::ROL, AddressingMode::Accumulator),
        0x2B => (Instruction::ANC_u, AddressingMode::Immediate),
        0x2C => (Instruction::BIT, AddressingMode::Absolute),
        0x2D => (Instruction::AND, AddressingMode::Absolute),
        0x2E => (Instruction::ROL, AddressingMode::Absolute),
        0x2F => (Instruction::RLA_u, AddressingMode::Absolute),
        0x30 => (Instruction::BMI, AddressingMode::Relative),
        0x31 => (Instruction::AND, AddressingMode::IndirectIndexed),
        0x33 => (Instruction::RLA_u, AddressingMode::IndirectIndexed),
        0x34 => (Instruction::NOP_u, AddressingMode::ZeroPageIndexedX),
        0x35 => (Instruction::AND, AddressingMode::ZeroPageIndexedX),
        0x36 => (Instruction::ROL, AddressingMode::ZeroPageIndexedX),
        0x37 => (Instruction::RLA_u, AddressingMode::ZeroPageIndexedX),
        0x38 => (Instruction::SEC, AddressingMode::Implied),
        0x39 => (Instruction::AND, AddressingMode::AbsoluteIndexedY),
        0x3A => (Instruction::NOP_u, AddressingMode::Implied),
        0x3B => (Instruction::RLA_u, AddressingMode::AbsoluteIndexedY),
        0x3C => (Instruction::NOP_u, AddressingMode::AbsoluteIndexedX),
        0x3D => (Instruction::AND, AddressingMode::AbsoluteIndexedX),
        0x3E => (Instruction::ROL, AddressingMode::AbsoluteIndexedX),
        0x3F => (Instruction::RLA_u, AddressingMode::AbsoluteIndexedX),
        0x40 => (Instruction::RTI, AddressingMode::Implied),
        0x41 => (Instruction::EOR, AddressingMode::IndexedIndirect),
        0x43 => (Instruction::SRE_u, AddressingMode::IndexedIndirect),
        0x44 => (Instruction::NOP_u, AddressingMode::ZeroPage),
        0x45 => (Instruction::EOR, AddressingMode::ZeroPage),
        0x46 => (Instruction::LSR, AddressingMode::ZeroPage),
        0x47 => (Instruction::SRE_u, AddressingMode::ZeroPage),
        0x48 => (Instruction::PHA, AddressingMode::Implied),
        0x49 => (Instruction::EOR, AddressingMode::Immediate),
        0x4A => (Instruction::LSR, AddressingMode::Accumulator),
        0x4B => (Instruction::ALR_u, AddressingMode::Immediate),
        0x4C => (Instruction::JMP, AddressingMode::Absolute),
        0x4D => (Instruction::EOR, AddressingMode::Absolute),
        0x4E => (Instruction::LSR, AddressingMode::Absolute),
        0x4F => (Instruction::SRE_u, AddressingMode::Absolute),
        0x50 => (Instruction::BVC, AddressingMode::Relative),
        0x51 => (Instruction::EOR, AddressingMode::IndirectIndexed),
        0x53 => (Instruction::SRE_u, AddressingMode::IndirectIndexed),
        0x54 => (Instruction::NOP_u, AddressingMode::ZeroPageIndexedX),
        0x55 => (Instruction::EOR, AddressingMode::ZeroPageIndexedX),
        0x56 => (Instruction::LSR, AddressingMode::ZeroPageIndexedX),
        0x57 => (Instruction::SRE_u, AddressingMode::ZeroPageIndexedX),
        0x58 => (Instruction::CLI, AddressingMode::Implied),
        0x59 => (Instruction::EOR, AddressingMode::AbsoluteIndexedY),
        0x5A => (Instruction::NOP_u, AddressingMode::Implied),
        0x5B => (Instruction::SRE_u, AddressingMode::AbsoluteIndexedY),
        0x5C => (Instruction::NOP_u, AddressingMode::AbsoluteIndexedX),
        0x5D => (Instruction::EOR, AddressingMode::AbsoluteIndexedX),
        0x5E => (Instruction::LSR, AddressingMode::AbsoluteIndexedX),
        0x5F => (Instruction::SRE_u, AddressingMode::AbsoluteIndexedX),
        0x60 => (Instruction::RTS, AddressingMode::Implied),
        0x61 => (Instruction::ADC, AddressingMode::IndexedIndirect),
        0x63 => (Instruction::RRA_u, AddressingMode::IndexedIndirect),
        0x64 => (Instruction::NOP_u, AddressingMode::ZeroPage),
        0x65 => (Instruction::ADC, AddressingMode::ZeroPage),
        0x66 => (Instruction::ROR, AddressingMode::ZeroPage),
        0x67 => (Instruction::RRA_u, AddressingMode::ZeroPage),
        0x68 => (Instruction::PLA, AddressingMode::Implied),
        0x69 => (Instruction::ADC, AddressingMode::Immediate),
        0x6A => (Instruction::ROR, AddressingMode::Accumulator),
        0x6B => (Instruction::ARR_u, AddressingMode::Immediate),
        0x6C => (Instruction::JMP, AddressingMode::Indirect),
        0x6D => (Instruction::ADC, AddressingMode::Absolute),
        0x6E => (Instruction::ROR, AddressingMode::Absolute),
        0x6F => (Instruction::RRA_u, AddressingMode::Absolute),
        0x70 => (Instruction::BVS, AddressingMode::Relative),
        0x71 => (Instruction::ADC, AddressingMode::IndirectIndexed),
        0x73 => (Instruction::RRA_u, AddressingMode::IndirectIndexed),
        0x74 => (Instruction::NOP_u, AddressingMode::ZeroPageIndexedX),
        0x75 => (Instruction::ADC, AddressingMode::ZeroPageIndexedX),
        0x76 => (Instruction::ROR, AddressingMode::ZeroPageIndexedX),
        0x77 => (Instruction::RRA_u, AddressingMode::ZeroPageIndexedX),
        0x78 => (Instruction::SEI, AddressingMode::Implied),
        0x79 => (Instruction::ADC, AddressingMode::AbsoluteIndexedY),
        0x7A => (Instruction::NOP_u, AddressingMode::Implied),
        0x7B => (Instruction::RRA_u, AddressingMode::AbsoluteIndexedY),
        0x7C => (Instruction::NOP_u, AddressingMode::AbsoluteIndexedX),
        0x7D => (Instruction::ADC, AddressingMode::AbsoluteIndexedX),
        0x7E => (Instruction::ROR, AddressingMode::AbsoluteIndexedX),
        0x7F => (Instruction::RRA_u, AddressingMode::AbsoluteIndexedX),
        0x80 => (Instruction::NOP_u, AddressingMode::Immediate),
        0x81 => (Instruction::STA, AddressingMode::IndexedIndirect),
        0x82 => (Instruction::NOP_u, AddressingMode::Immediate),
        0x83 => (Instruction::SAX_u, AddressingMode::IndexedIndirect),
        0x84 => (Instruction::STY, AddressingMode::ZeroPage),
        0x85 => (Instruction::STA, AddressingMode::ZeroPage),
        0x86 => (Instruction::STX, AddressingMode::ZeroPage),
        0x87 => (Instruction::SAX_u, AddressingMode::ZeroPage),
        0x88 => (Instruction::DEY, AddressingMode::Implied),
        0x89 => (Instruction::NOP_u, AddressingMode::Immediate),
        0x8A => (Instruction::TXA, AddressingMode::Implied),
        0x8C => (Instruction::STY, AddressingMode::Absolute),
        0x8D => (Instruction::STA, AddressingMode::Absolute),
        0x8E => (Instruction::STX, AddressingMode::Absolute),
        0x8F => (Instruction::SAX_u, AddressingMode::Absolute),
        0x90 => (Instruction::BCC, AddressingMode::Relative),
        0x91 => (Instruction::STA, AddressingMode::IndirectIndexed),
        0x93 => (Instruction::AXA_u, AddressingMode::AbsoluteIndexedY),
        0x94 => (Instruction::STY, AddressingMode::ZeroPageIndexedX),
        0x95 => (Instruction::STA, AddressingMode::ZeroPageIndexedX),
        0x96 => (Instruction::STX, AddressingMode::ZeroPageIndexedY),
        0x97 => (Instruction::SAX_u, AddressingMode::ZeroPageIndexedY),
        0x98 => (Instruction::TYA, AddressingMode::Implied),
        0x99 => (Instruction::STA, AddressingMode::AbsoluteIndexedY),
        0x9A => (Instruction::TXS, AddressingMode::Implied),
        0x9B => (Instruction::XAS_u, AddressingMode::AbsoluteIndexedY),
        0x9C => (Instruction::SYA_u, AddressingMode::AbsoluteIndexedX),
        0x9D => (Instruction::STA, AddressingMode::AbsoluteIndexedX),
        0x9E => (Instruction::SXA_u, AddressingMode::AbsoluteIndexedY),
        0x9F => (Instruction::AXA_u, AddressingMode::IndirectIndexed),
        0xA0 => (Instruction::LDY, AddressingMode::Immediate),
        0xA1 => (Instruction::LDA, AddressingMode::IndexedIndirect),
        0xA2 => (Instruction::LDX, AddressingMode::Immediate),
        0xA3 => (Instruction::LAX_u, AddressingMode::IndexedIndirect),
        0xA4 => (Instruction::LDY, AddressingMode::ZeroPage),
        0xA5 => (Instruction::LDA, AddressingMode::ZeroPage),
        0xA6 => (Instruction::LDX, AddressingMode::ZeroPage),
        0xA7 => (Instruction::LAX_u, AddressingMode::ZeroPage),
        0xA8 => (Instruction::TAY, AddressingMode::Implied),
        0xA9 => (Instruction::LDA, AddressingMode::Immediate),
        0xAA => (Instruction::TAX, AddressingMode::Implied),
        0xAB => (Instruction::ATX_u, AddressingMode::Immediate),
        0xAC => (Instruction::LDY, AddressingMode::Absolute),
        0xAD => (Instruction::LDA, AddressingMode::Absolute),
        0xAE => (Instruction::LDX, AddressingMode::Absolute),
        0xAF => (Instruction::LAX_u, AddressingMode::Absolute),
        0xB0 => (Instruction::BCS, AddressingMode::Relative),
        0xB1 => (Instruction::LDA, AddressingMode::IndirectIndexed),
        0xB3 => (Instruction::LAX_u, AddressingMode::IndirectIndexed),
        0xB4 => (Instruction::LDY, AddressingMode::ZeroPageIndexedX),
        0xB5 => (Instruction::LDA, AddressingMode::ZeroPageIndexedX),
        0xB6 => (Instruction::LDX, AddressingMode::ZeroPageIndexedY),
        0xB7 => (Instruction::LAX_u, AddressingMode::ZeroPageIndexedY),
        0xB8 => (Instruction::CLV, AddressingMode::Implied),
        0xB9 => (Instruction::LDA, AddressingMode::AbsoluteIndexedY),
        0xBA => (Instruction::TSX, AddressingMode::Implied),
        0xBB => (Instruction::LAR_u, AddressingMode::AbsoluteIndexedY),
        0xBC => (Instruction::LDY, AddressingMode::AbsoluteIndexedX),
        0xBD => (Instruction::LDA, AddressingMode::AbsoluteIndexedX),
        0xBE => (Instruction::LDX, AddressingMode::AbsoluteIndexedY),
        0xBF => (Instruction::LAX_u, AddressingMode::AbsoluteIndexedY),
        0xC0 => (Instruction::CPY, AddressingMode::Immediate),
        0xC1 => (Instruction::CMP, AddressingMode::IndexedIndirect),
        0xC2 => (Instruction::NOP_u, AddressingMode::Immediate),
        0xC3 => (Instruction::DCP_u, AddressingMode::IndexedIndirect),
        0xC4 => (Instruction::CPY, AddressingMode::ZeroPage),
        0xC5 => (Instruction::CMP, AddressingMode::ZeroPage),
        0xC6 => (Instruction::DEC, AddressingMode::ZeroPage),
        0xC7 => (Instruction::DCP_u, AddressingMode::ZeroPage),
        0xC8 => (Instruction::INY, AddressingMode::Implied),
        0xC9 => (Instruction::CMP, AddressingMode::Immediate),
        0xCA => (Instruction::DEX, AddressingMode::Implied),
        0xCB => (Instruction::AXS_u, AddressingMode::Immediate),
        0xCC => (Instruction::CPY, AddressingMode::Absolute),
        0xCD => (Instruction::CMP, AddressingMode::Absolute),
        0xCE => (Instruction::DEC, AddressingMode::Absolute),
        0xCF => (Instruction::DCP_u, AddressingMode::Absolute),
        0xD0 => (Instruction::BNE, AddressingMode::Relative),
        0xD1 => (Instruction::CMP, AddressingMode::IndirectIndexed),
        0xD3 => (Instruction::DCP_u, AddressingMode::IndirectIndexed),
        0xD4 => (Instruction::NOP_u, AddressingMode::ZeroPageIndexedX),
        0xD5 => (Instruction::CMP, AddressingMode::ZeroPageIndexedX),
        0xD6 => (Instruction::DEC, AddressingMode::ZeroPageIndexedX),
        0xD7 => (Instruction::DCP_u, AddressingMode::ZeroPageIndexedX),
        0xD8 => (Instruction::CLD, AddressingMode::Implied),
        0xD9 => (Instruction::CMP, AddressingMode::AbsoluteIndexedY),
        0xDA => (Instruction::NOP_u, AddressingMode::Implied),
        0xDB => (Instruction::DCP_u, AddressingMode::AbsoluteIndexedY),
        0xDC => (Instruction::NOP_u, AddressingMode::AbsoluteIndexedX),
        0xDD => (Instruction::CMP, AddressingMode::AbsoluteIndexedX),
        0xDE => (Instruction::DEC, AddressingMode::AbsoluteIndexedX),
        0xDF => (Instruction::DCP_u, AddressingMode::AbsoluteIndexedX),
        0xE0 => (Instruction::CPX, AddressingMode::Immediate),
        0xE1 => (Instruction::SBC, AddressingMode::IndexedIndirect),
        0xE2 => (Instruction::NOP_u, AddressingMode::Immediate),
        0xE3 => (Instruction::ISC_u, AddressingMode::IndexedIndirect),
        0xE4 => (Instruction::CPX, AddressingMode::ZeroPage),
        0xE5 => (Instruction::SBC, AddressingMode::ZeroPage),
        0xE6 => (Instruction::INC, AddressingMode::ZeroPage),
        0xE7 => (Instruction::ISC_u, AddressingMode::ZeroPage),
        0xE8 => (Instruction::INX, AddressingMode::Implied),
        0xE9 => (Instruction::SBC, AddressingMode::Immediate),
        0xEA => {
            cpu.cycle += 2;
            (Instruction::NOP, AddressingMode::Implied)
        },
        0xEB => (Instruction::SBC_u, AddressingMode::Immediate),
        0xEC => (Instruction::CPX, AddressingMode::Absolute),
        0xED => (Instruction::SBC, AddressingMode::Absolute),
        0xEE => (Instruction::INC, AddressingMode::Absolute),
        0xEF => (Instruction::ISC_u, AddressingMode::Absolute),
        0xF0 => (Instruction::BEQ, AddressingMode::Relative),
        0xF1 => (Instruction::SBC, AddressingMode::IndirectIndexed),
        0xF3 => (Instruction::ISC_u, AddressingMode::IndirectIndexed),
        0xF4 => (Instruction::NOP_u, AddressingMode::ZeroPageIndexedX),
        0xF5 => (Instruction::SBC, AddressingMode::ZeroPageIndexedX),
        0xF6 => (Instruction::INC, AddressingMode::ZeroPageIndexedX),
        0xF7 => (Instruction::ISC_u, AddressingMode::ZeroPageIndexedX),
        0xF8 => (Instruction::SED, AddressingMode::Implied),
        0xF9 => (Instruction::SBC, AddressingMode::AbsoluteIndexedY),
        0xFA => (Instruction::NOP_u, AddressingMode::Implied),
        0xFB => (Instruction::ISC_u, AddressingMode::AbsoluteIndexedY),
        0xFC => (Instruction::NOP_u, AddressingMode::AbsoluteIndexedX),
        0xFD => (Instruction::SBC, AddressingMode::AbsoluteIndexedX),
        0xFE => (Instruction::INC, AddressingMode::AbsoluteIndexedX),
        0xFF => (Instruction::ISC_u, AddressingMode::AbsoluteIndexedX),
        _ => (Instruction::NOP, AddressingMode::Implied),
    }
}

/// What each instruction needs to run in `mode`.
pub open spec fn exec_ok(c: Cpu, m: MemView, inst: Instruction, mode: AddressingMode) -> bool {
    match inst {
        Instruction::BRK => interrupt_ok(c, m, Interrupt::BRK),
        Instruction::BPL | Instruction::BMI | Instruction::BVC | Instruction::BVS | Instruction::BCC
        | Instruction::BCS | Instruction::BNE | Instruction::BEQ => branch_ok(c, m),
        Instruction::CPY | Instruction::CPX | Instruction::LDA | Instruction::LDX | Instruction::LDY
        | Instruction::BIT | Instruction::ORA | Instruction::AND | Instruction::EOR | Instruction::ADC
        | Instruction::CMP | Instruction::SBC | Instruction::SBC_u | Instruction::LAX_u
        | Instruction::ANC_u | Instruction::ARR_u | Instruction::AXS_u | Instruction::ATX_u
        | Instruction::LAR_u => fetch_ok(c, m, mode),
        Instruction::STA | Instruction::STX | Instruction::STY | Instruction::SAX_u | Instruction::AXA_u =>
            store_ok(c, m, mode),
        Instruction::JSR => jsr_ok(c, m),
        Instruction::JMP => jmp_ok(c, m, mode),
        Instruction::ASL | Instruction::LSR | Instruction::ROL | Instruction::ROR => shift_ok(c, m, mode),
        Instruction::DEC | Instruction::INC | Instruction::DCP_u => rmw_ok(c, m, mode),
        Instruction::ISC_u => isc_ok(c, m, mode),
        Instruction::SLO_u => combo_ok(0, c, m, mode),
        Instruction::RLA_u => combo_ok(2, c, m, mode),
        Instruction::SRE_u => combo_ok(1, c, m, mode),
        Instruction::RRA_u => combo_ok(3, c, m, mode),
        Instruction::ALR_u => fetch_ok(c, m, mode) && shift_ok(
            and_spec(c, m, mode).0,
            and_spec(c, m, mode).1,
            AddressingMode::Implied,
        ),
        Instruction::XAS_u => addr_store_ok(Cpu { sp: c.x & c.a, ..c }, m, mode),
        Instruction::SYA_u | Instruction::SXA_u => addr_store_ok(c, m, mode),
        _ => true,
    }
}

/// The CPU and memories after `inst` runs in `mode`.
pub open spec fn exec_spec(c: Cpu, m: MemView, inst: Instruction, mode: AddressingMode) -> (Cpu, MemView) {
    match inst {
        Instruction::BRK => interrupt_spec(c, m, Interrupt::BRK),
        Instruction::PHP => push(c, m, c.p | 0x10),
        Instruction::PLP => (plp_spec(c, m), m),
        Instruction::PHA => push(c, m, c.a),
        Instruction::PLA => (pla_spec(c, m), m),
        Instruction::TXS => (Cpu { sp: c.x, ..c }, m),
        Instruction::TSX => (Cpu { x: c.sp, p: with_bit(with_bit(c.p, 0x02, c.sp == 0), 0x80, c.sp & 0x80 != 0), ..c }, m),
        Instruction::BPL => branch_spec(c, m, StatusFlag::Negative, false),
        Instruction::BMI => branch_spec(c, m, StatusFlag::Negative, true),
        Instruction::BVC => branch_spec(c, m, StatusFlag::Overflow, false),
        Instruction::BVS => branch_spec(c, m, StatusFlag::Overflow, true),
        Instruction::BCC => branch_spec(c, m, StatusFlag::Carry, false),
        Instruction::BCS => branch_spec(c, m, StatusFlag::Carry, true),
        Instruction::BNE => branch_spec(c, m, StatusFlag::Zero, false),
        Instruction::BEQ => branch_spec(c, m, StatusFlag::Zero, true),
        Instruction::CLC => (c.with_p(c.p & !0x01u8), m),
        Instruction::SEC => (c.with_p(c.p | 0x01), m),
        Instruction::CLI => (c.with_p(c.p & !0x04u8), m),
        Instruction::SEI => (c.with_p(c.p | 0x04), m),
        Instruction::CLV => (c.with_p(c.p & !0x40u8), m),
        Instruction::CLD => (c.with_p(c.p & !0x08u8), m),
        Instruction::SED => (c.with_p(c.p | 0x08), m),
        Instruction::DEY => (Cpu { y: wrap8(c.y - 1), p: zn(c.p, wrap8(c.y - 1)), ..c }, m),
        Instruction::DEX => (Cpu { x: wrap8(c.x - 1), p: zn(c.p, wrap8(c.x - 1)), ..c }, m),
        Instruction::INX => (Cpu { x: wrap8(c.x + 1), p: zn(c.p, wrap8(c.x + 1)), ..c }, m),
        Instruction::INY => (Cpu { y: wrap8(c.y + 1), p: zn(c.p, wrap8(c.y + 1)), ..c }, m),
        Instruction::TAX => (Cpu { x: c.a, p: zn(c.p, c.a), ..c }, m),
        Instruction::TXA => (Cpu { a: c.x, p: zn(c.p, c.x), ..c }, m),
        Instruction::TAY => (Cpu { y: c.a, p: zn(c.p, c.a), ..c }, m),
        Instruction::TYA => (Cpu { a: c.y, p: zn(c.p, c.y), ..c }, m),
        Instruction::CPY => cpy_spec(c, m, mode),
        Instruction::CPX => cpx_spec(c, m, mode),
        Instruction::LDA => lda_spec(c, m, mode),
        Instruction::LDX => ldx_spec(c, m, mode),
        Instruction::LDY => ldy_spec(c, m, mode),
        Instruction::STA => store(c, m, mode, c.a),
        Instruction::STX => store(c, m, mode, c.x),
        Instruction::STY => store(c, m, mode, c.y),
        Instruction::JSR => jsr_spec(c, m),
        Instruction::JMP => jmp_spec(c, m, mode),
        Instruction::RTI => (rti_spec(c, m), m),
        Instruction::RTS => (rts_spec(c, m), m),
        Instruction::BIT => bit_spec(c, m, mode),
        Instruction::ORA => ora_spec(c, m, mode),
        Instruction::AND => and_spec(c, m, mode),
        Instruction::EOR => eor_spec(c, m, mode),
        Instruction::ADC => adc_spec(c, m, mode),
        Instruction::CMP => cmp_spec(c, m, mode),
        Instruction::SBC | Instruction::SBC_u => sbc_spec(c, m, mode),
        Instruction::ASL => shift_spec(0, c, m, mode),
        Instruction::LSR => shift_spec(1, c, m, mode),
        Instruction::ROL => shift_spec(2, c, m, mode),
        Instruction::ROR => shift_spec(3, c, m, mode),
        Instruction::DEC => step_mem_spec(c, m, mode, -1),
        Instruction::INC => step_mem_spec(c, m, mode, 1),
        Instruction::NOP | Instruction::NOP_u => (c, m),
        Instruction::LAX_u => lax_spec(c, m, mode),
        Instruction::SAX_u => store(c, m, mode, c.a & c.x),
        Instruction::DCP_u => dcp_spec(c, m, mode),
        Instruction::ISC_u => isc_spec(c, m, mode),
        Instruction::SLO_u => { let (c1, m1) = shift_spec(0, c, m, mode); ora_spec(c1, m1, mode) },
        Instruction::RLA_u => { let (c1, m1) = shift_spec(2, c, m, mode); and_spec(c1, m1, mode) },
        Instruction::SRE_u => { let (c1, m1) = shift_spec(1, c, m, mode); eor_spec(c1, m1, mode) },
        Instruction::RRA_u => { let (c1, m1) = shift_spec(3, c, m, mode); adc_spec(c1, m1, mode) },
        Instruction::ALR_u => {
            let (c1, m1) = and_spec(c, m, mode);
            shift_spec(1, c1, m1, AddressingMode::Implied)
        },
        Instruction::ANC_u => anc_spec(c, m, mode),
        Instruction::ARR_u => arr_spec(c, m, mode),
        Instruction::AXS_u => axs_spec(c, m, mode),
        Instruction::AXA_u => store(c, m, mode, (c.x & c.a) & 7),
        Instruction::XAS_u => xas_spec(c, m, mode),
        Instruction::SYA_u => sya_spec(c, m, mode),
        Instruction::SXA_u => sxa_spec(c, m, mode),
        Instruction::ATX_u => atx_spec(c, m, mode),
        Instruction::LAR_u => lar_spec(c, m, mode),
    }
}

/// Executes the instruction by calling the CPU's method for it.
pub fn execute(cpu: &mut Cpu, mem: &mut Memory, instr: (Instruction, AddressingMode))
    requires
        old(mem).wf(),
        exec_ok(*old(cpu), old(mem)@, instr.0, instr.1),
    ensures
        final(mem).wf(),
        (*final(cpu), final(mem)@) == exec_spec(*old(cpu), old(mem)@, instr.0, instr.1),
{
    let (inst, mode) = instr;
    match inst {
        Instruction::BRK | Instruction::PHP | Instruction::PLP | Instruction::PHA | Instruction::PLA | Instruction::TXS | Instruction::TSX | Instruction::BPL | Instruction::BMI | Instruction::BVC | Instruction::BVS | Instruction::BCC | Instruction::BCS | Instruction::BNE | Instruction::BEQ | Instruction::CLC | Instruction::SEC | Instruction::CLI | Instruction::SEI | Instruction::CLV | Instruction::CLD | Instruction::SED | Instruction::DEY | Instruction::DEX | Instruction::INX | Instruction::INY | Instruction::TAX | Instruction::TXA | Instruction::TAY | Instruction::TYA | Instruction::JSR | Instruction::JMP | Instruction::RTI | Instruction::RTS | Instruction::NOP => execute_control(cpu, mem, inst, mode),
        Instruction::NOP_u | Instruction::SBC_u | Instruction::LAX_u | Instruction::SAX_u | Instruction::DCP_u | Instruction::ISC_u | Instruction::SLO_u | Instruction::RLA_u | Instruction::SRE_u | Instruction::RRA_u | Instruction::ALR_u | Instruction::ANC_u | Instruction::ARR_u | Instruction::AXS_u | Instruction::AXA_u | Instruction::XAS_u | Instruction::SYA_u | Instruction::SXA_u | Instruction::ATX_u | Instruction::LAR_u => execute_unofficial(cpu, mem, inst, mode),
        _ => execute_operand(cpu, mem, inst, mode),
    }
}

/// Stack, branch, flag, register, jump and return instructions.
fn execute_control(cpu: &mut Cpu, mem: &mut Memory, inst: Instruction, mode: AddressingMode)
    requires
        old(mem).wf(),
        exec_ok(*old(cpu), old(mem)@, inst, mode),
        inst == Instruction::BRK || inst == Instruction::PHP || inst == Instruction::PLP || inst == Instruction::PHA || inst == Instruction::PLA || inst == Instruction::TXS || inst == Instruction::TSX || inst == Instruction::BPL || inst == Instruction::BMI || inst == Instruction::BVC || inst == Instruction::BVS || inst == Instruction::BCC || inst == Instruction::BCS || inst == Instruction::BNE || inst == Instruction::BEQ || inst == Instruction::CLC || inst == Instruction::SEC || inst == Instruction::CLI || inst == Instruction::SEI || inst == Instruction::CLV || inst == Instruction::CLD || inst == Instruction::SED || inst == Instruction::DEY || inst == Instruction::DEX || inst == Instruction::INX || inst == Instruction::INY || inst == Instruction::TAX || inst == Instruction::TXA || inst == Instruction::TAY || inst == Instruction::TYA || inst == Instruction::JSR || inst == Instruction::JMP || inst == Instruction::RTI || inst == Instruction::RTS || inst == Instruction::NOP,
    ensures
        final(mem).wf(),
        (*final(cpu), final(mem)@) == exec_spec(*old(cpu), old(mem)@, inst, mode),
{
    match inst {
        Instruction::BRK => { cpu.BRK(mem); },
        Instruction::PHP => { cpu.PHP(mem); },
        Instruction::PLP => { cpu.PLP(mem); },
        Instruction::PHA => { cpu.PHA(mem); },
        Instruction::PLA => { cpu.PLA(mem); },
        Instruction::TXS => { cpu.TXS(); },
        Instruction::TSX => { cpu.TSX(); },
        Instruction::BPL => { cpu.BPL(mem); },
        Instruction::BMI => { cpu.BMI(mem); },
        Instruction::BVC => { cpu.BVC(mem); },
        Instruction::BVS => { cpu.BVS(mem); },
        Instruction::BCC => { cpu.BCC(mem); },
        Instruction::BCS => { cpu.BCS(mem); },
        Instruction::BNE => { cpu.BNE(mem); },
        Instruction::BEQ => { cpu.BEQ(mem); },
        Instruction::CLC => { cpu.CLC(); },
        Instruction::SEC => { cpu.SEC(); },
        Instruction::CLI => { cpu.CLI(); },
        Instruction::SEI => { cpu.SEI(); },
        Instruction::CLV => { cpu.CLV(); },
        Instruction::CLD => { cpu.CLD(); },
        Instruction::SED => { cpu.SED(); },
        Instruction::DEY => { cpu.DEY(); },
        Instruction::DEX => { cpu.DEX(); },
        Instruction::INX => { cpu.INX(); },
        Instruction::INY => { cpu.INY(); },
        Instruction::TAX => { cpu.TAX(); },
        Instruction::TXA => { cpu.TXA(); },
        Instruction::TAY => { cpu.TAY(); },
        Instruction::TYA => { cpu.TYA(); },
        Instruction::JSR => { cpu.JSR(mem); },
        Instruction::JMP => { cpu.JMP(mem, mode); },
        Instruction::RTI => { cpu.RTI(mem); },
        Instruction::RTS => { cpu.RTS(mem); },
        Instruction::NOP => { cpu.NOP(); },
        _ => {},
    }
}

/// The documented instructions that read or write an operand.
fn execute_operand(cpu: &mut Cpu, mem: &mut Memory, inst: Instruction, mode: AddressingMode)
    requires
        old(mem).wf(),
        exec_ok(*old(cpu), old(mem)@, inst, mode),
        inst == Instruction::CPY || inst == Instruction::CPX || inst == Instruction::LDA || inst == Instruction::LDX || inst == Instruction::LDY || inst == Instruction::STA || inst == Instruction::STX || inst == Instruction::STY || inst == Instruction::BIT || inst == Instruction::ORA || inst == Instruction::AND || inst == Instruction::EOR || inst == Instruction::ADC || inst == Instruction::CMP || inst == Instruction::SBC || inst == Instruction::ASL || inst == Instruction::LSR || inst == Instruction::ROL || inst == Instruction::ROR || inst == Instruction::DEC || inst == Instruction::INC,
    ensures
        final(mem).wf(),
        (*final(cpu), final(mem)@) == exec_spec(*old(cpu), old(mem)@, inst, mode),
{
    match inst {
        Instruction::CPY => { cpu.CPY(mem, mode); },
        Instruction::CPX => { cpu.CPX(mem, mode); },
        Instruction::LDA => { cpu.LDA(mem, mode); },
        Instruction::LDX => { cpu.LDX(mem, mode); },
        Instruction::LDY => { cpu.LDY(mem, mode); },
        Instruction::STA => { cpu.STA(mem, mode); },
        Instruction::STX => { cpu.STX(mem, mode); },
        Instruction::STY => { cpu.STY(mem, mode); },
        Instruction::BIT => { cpu.BIT(mem, mode); },
        Instruction::ORA => { cpu.ORA(mem, mode); },
        Instruction::AND => { cpu.AND(mem, mode); },
        Instruction::EOR => { cpu.EOR(mem, mode); },
        Instruction::ADC => { cpu.ADC(mem, mode); },
        Instruction::CMP => { cpu.CMP(mem, mode); },
        Instruction::SBC => { cpu.SBC(mem, mode); },
        Instruction::ASL => { cpu.ASL(mem, mode); },
        Instruction::LSR => { cpu.LSR(mem, mode); },
        Instruction::ROL => { cpu.ROL(mem, mode); },
        Instruction::ROR => { cpu.ROR(mem, mode); },
        Instruction::DEC => { cpu.DEC(mem, mode); },
        Instruction::INC => { cpu.INC(mem, mode); },
        _ => {},
    }
}

/// The undocumented instructions.
fn execute_unofficial(cpu: &mut Cpu, mem: &mut Memory, inst: Instruction, mode: AddressingMode)
    requires
        old(mem).wf(),
        exec_ok(*old(cpu), old(mem)@, inst, mode),
        inst == Instruction::NOP_u || inst == Instruction::SBC_u || inst == Instruction::LAX_u || inst == Instruction::SAX_u || inst == Instruction::DCP_u || inst == Instruction::ISC_u || inst == Instruction::SLO_u || inst == Instruction::RLA_u || inst == Instruction::SRE_u || inst == Instruction::RRA_u || inst == Instruction::ALR_u || inst == Instruction::ANC_u || inst == Instruction::ARR_u || inst == Instruction::AXS_u || inst == Instruction::AXA_u || inst == Instruction::XAS_u || inst == Instruction::SYA_u || inst == Instruction::SXA_u || inst == Instruction::ATX_u || inst == Instruction::LAR_u,
    ensures
        final(mem).wf(),
        (*final(cpu), final(mem)@) == exec_spec(*old(cpu), old(mem)@, inst, mode),
{
    match inst {
        Instruction::NOP_u => { cpu.NOP_u(); },
        Instruction::SBC_u => { cpu.SBC(mem, mode); },
        Instruction::LAX_u => { cpu.LAX_u(mem, mode); },
        Instruction::SAX_u => { cpu.SAX_u(mem, mode); },
        Instruction::DCP_u => { cpu.DCP_u(mem, mode); },
        Instruction::ISC_u => { cpu.ISC_u(mem, mode); },
        Instruction::SLO_u => { cpu.SLO_u(mem, mode); },
        Instruction::RLA_u => { cpu.RLA_u(mem, mode); },
        Instruction::SRE_u => { cpu.SRE_u(mem, mode); },
        Instruction::RRA_u => { cpu.RRA_u(mem, mode); },
        Instruction::ALR_u => { cpu.ALR_u(mem, mode); },
        Instruction::ANC_u => { cpu.ANC_u(mem, mode); },
        Instruction::ARR_u => { cpu.ARR_u(mem, mode); },
        Instruction::AXS_u => { cpu.AXS_u(mem, mode); },
        Instruction::AXA_u => { cpu.AXA_u(mem, mode); },
        Instruction::XAS_u => { cpu.XAS_u(mem, mode); },
        Instruction::SYA_u => { cpu.SYA_u(mem, mode); },
        Instruction::SXA_u => { cpu.SXA_u(mem, mode); },
        Instruction::ATX_u => { cpu.ATX_u(mem, mode); },
        Instruction::LAR_u => { cpu.LAR_u(mem, mode); },
        _ => {},
    }
}

} // verus!
