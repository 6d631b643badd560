//! The abstract machine the interpreter in `crate::cpu` runs on: registers,
//! the 2 KiB of internal RAM and the cartridge, and what each instruction
//! does to them.
use vstd::prelude::*;
use crate::cart::CartView;
use crate::nes::cpu::instructions::{AddressingMode, Instruction, opcode_table};

verus! {

/// Status register bits.
pub const CARRY: u8 = 0b00000001;
pub const ZERO: u8 = 0b00000010;
pub const INTERRUPT: u8 = 0b00000100;
pub const DECIMAL: u8 = 0b00001000;
pub const STACK_COPY: u8 = 0b00010000;
pub const ALWAYS_SET: u8 = 0b00100000;
pub const OVERFLOW: u8 = 0b01000000;
pub const NEGATIVE: u8 = 0b10000000;

/// Register names match what's listed on NESDevWiki.
#[derive(Debug, Clone, Copy, PartialEq, Eq, Structural)]
pub struct Registers {
    pub a: u8,
    pub x: u8,
    pub y: u8,
    /// Stack pointer.
    pub s: u8,
    /// Status register.
    pub p: u8,
    pub pc: u16,
}

/// What the interpreter reads and writes.
#[verifier::ext_equal]
pub struct MachineState {
    pub regs: Registers,
    pub ram: Seq<u8>,
    pub cart: CartView,
}

/// An operand as the addressing mode resolves it.
#[derive(Debug, Clone, Copy, PartialEq, Eq, Structural)]
pub enum Operand {
    /// The accumulator.
    Accumulator,
    /// A byte of the instruction stream (immediate value or branch offset).
    Value(u8),
    /// A byte of memory.
    Address(u16),
}

pub open spec fn wrap8(x: int) -> u8 {
    (x % 256) as u8
}

pub open spec fn wrap16(x: int) -> u16 {
    (x % 65536) as u16
}

/// `p` with the bits of `mask` set when `b` holds and cleared otherwise.
pub open spec fn set_flag(p: u8, mask: u8, b: bool) -> u8 {
    if b {
        p | mask
    } else {
        p & !mask
    }
}

/// Whether the bits of `mask` are set in `p`.
pub open spec fn flag(p: u8, mask: u8) -> bool {
    p & mask != 0
}

/// `p` with Zero and Negative describing `v`.
pub open spec fn with_zn(p: u8, v: u8) -> u8 {
    set_flag(set_flag(p, ZERO, v == 0), NEGATIVE, v >= 128)
}

impl MachineState {
    pub open spec fn wf(self) -> bool {
        &&& self.ram.len() == 0x800
        &&& self.cart.wf()
    }

    /// Addresses below $2000 reach the internal RAM and its mirrors; the bus
    /// answers the rest.
    pub open spec fn readable(self, addr: u16) -> bool {
        addr < 0x2000 || (addr >= 0x4020 && self.cart.prg_readable(addr))
    }

    pub open spec fn peek(self, addr: u16) -> u8 {
        if addr < 0x2000 {
            self.ram[addr as int % 0x800]
        } else {
            self.cart.prg_peek(addr)
        }
    }

    pub open spec fn poke(self, addr: u16, val: u8) -> MachineState {
        if addr < 0x2000 {
            MachineState { ram: self.ram.update(addr as int % 0x800, val), ..self }
        } else {
            MachineState { cart: self.cart.prg_poke(addr, val), ..self }
        }
    }

    /// The little-endian word at `addr`.
    pub open spec fn word(self, addr: u16) -> u16 {
        (self.peek(addr) + 256 * self.peek((addr + 1) as u16)) as u16
    }

    pub open spec fn word_ok(self, addr: u16) -> bool {
        addr < 0xFFFF && self.readable(addr) && self.readable((addr + 1) as u16)
    }

    pub open spec fn with_regs(self, regs: Registers) -> MachineState {
        MachineState { regs: regs, ..self }
    }

    pub open spec fn with_pc(self, pc: u16) -> MachineState {
        self.with_regs(Registers { pc: pc, ..self.regs })
    }

    pub open spec fn with_p(self, p: u8) -> MachineState {
        self.with_regs(Registers { p: p, ..self.regs })
    }

    /// The pointer stored in the zero page at `index`; the pointer at $FF
    /// takes its high byte from $00.
    pub open spec fn zp_pointer(self, index: u8) -> u16 {
        if index == 0xFF {
            (256 * self.peek(0) + self.peek(0xFF)) as u16
        } else {
            self.word(index as u16)
        }
    }

    /// Where an indirect jump through `addr` lands: the high byte is read
    /// from the same page, so a pointer at $xxFF wraps to $xx00.
    pub open spec fn indirect_target(self, addr: u16) -> u16 {
        if addr % 256 == 255 {
            (self.peek(addr) + 256 * self.peek((addr + 1 - 256) as u16)) as u16
        } else {
            self.word(addr)
        }
    }

    pub open spec fn indirect_ok(self, addr: u16) -> bool {
        &&& addr != 0xFFFF
        &&& self.readable(addr)
        &&& if addr % 256 == 255 {
            self.readable((addr + 1 - 256) as u16)
        } else {
            self.readable((addr + 1) as u16)
        }
    }

    // The stack lives on page 1 and grows downward.
    pub open spec fn push(self, val: u8) -> MachineState {
        MachineState {
            ram: self.ram.update(0x100 + self.regs.s, val),
            regs: Registers { s: (self.regs.s - 1) as u8, ..self.regs },
            ..self
        }
    }

    pub open spec fn pop(self) -> (MachineState, u8) {
        let s = (self.regs.s + 1) as u8;
        (self.with_regs(Registers { s: s, ..self.regs }), self.ram[0x100 + s])
    }

    pub open spec fn push_word(self, val: u16) -> MachineState {
        self.push((val / 256) as u8).push((val % 256) as u8)
    }

    pub open spec fn pop_word(self) -> (MachineState, u16) {
        let (m1, lo) = self.pop();
        let (m2, hi) = m1.pop();
        (m2, (lo + 256 * hi) as u16)
    }

    /// Resolves the operand of `mode` from the instruction stream at pc;
    /// returns it with the pc that follows it.
    pub open spec fn operand(self, mode: AddressingMode) -> (Operand, u16) {
        let pc = self.regs.pc;
        let b = self.peek(pc);
        match mode {
            AddressingMode::Immediate | AddressingMode::Relative => (Operand::Value(b), (pc + 1) as u16),
            AddressingMode::ZeroPage => (Operand::Address(b as u16), (pc + 1) as u16),
            AddressingMode::ZeroPageIndexedX => (Operand::Address(wrap8(b + self.regs.x) as u16), (pc + 1) as u16),
            AddressingMode::ZeroPageIndexedY => (Operand::Address(wrap8(b + self.regs.y) as u16), (pc + 1) as u16),
            AddressingMode::Absolute => (Operand::Address(self.word(pc)), (pc + 2) as u16),
            AddressingMode::AbsoluteIndexedX => (Operand::Address(wrap16(self.word(pc) + self.regs.x)), (pc + 2) as u16),
            AddressingMode::AbsoluteIndexedY => (Operand::Address(wrap16(self.word(pc) + self.regs.y)), (pc + 2) as u16),
            AddressingMode::IndexedIndirect => (Operand::Address(self.zp_pointer(wrap8(b + self.regs.x))), (pc + 1) as u16),
            AddressingMode::IndirectIndexed => (Operand::Address(wrap16(self.zp_pointer(b) + self.regs.y)), (pc + 1) as u16),
            AddressingMode::Indirect => (Operand::Address(self.indirect_target(self.word(pc))), (pc + 2) as u16),
            _ => (Operand::Accumulator, pc),
        }
    }

    /// The operand bytes can be read without running pc off the end of
    /// the address space.
    pub open spec fn operand_ok(self, mode: AddressingMode) -> bool {
        let pc = self.regs.pc;
        match mode {
            AddressingMode::Immediate | AddressingMode::Relative | AddressingMode::ZeroPage
            | AddressingMode::ZeroPageIndexedX | AddressingMode::ZeroPageIndexedY
            | AddressingMode::IndexedIndirect | AddressingMode::IndirectIndexed => {
                pc < 0xFFFF && self.readable(pc)
            },
            AddressingMode::Absolute | AddressingMode::AbsoluteIndexedX
            | AddressingMode::AbsoluteIndexedY => {
                pc < 0xFFFE && self.readable(pc) && self.readable((pc + 1) as u16)
            },
            AddressingMode::Indirect => {
                pc < 0xFFFE && self.readable(pc) && self.readable((pc + 1) as u16)
                    && self.indirect_ok(self.word(pc))
            },
            _ => true,
        }
    }

    pub open spec fn load(self, o: Operand) -> u8 {
        match o {
            Operand::Accumulator => self.regs.a,
            Operand::Value(v) => v,
            Operand::Address(addr) => self.peek(addr),
        }
    }

    pub open spec fn load_ok(self, o: Operand) -> bool {
        match o {
            Operand::Address(addr) => self.readable(addr),
            _ => true,
        }
    }

    pub open spec fn store(self, o: Operand, v: u8) -> MachineState {
        match o {
            Operand::Accumulator => self.with_regs(Registers { a: v, ..self.regs }),
            Operand::Value(_) => self,
            Operand::Address(addr) => self.poke(addr, v),
        }
    }

    /// An immediate operand cannot be stored to.
    pub open spec fn store_ok(self, o: Operand) -> bool {
        match o {
            Operand::Accumulator => true,
            Operand::Value(_) => false,
            Operand::Address(addr) => self.readable(addr),
        }
    }

    /// A relative branch: taken when the flag equals `set`.
    pub open spec fn branch(self, o: Operand, mask: u8, set: bool) -> MachineState {
        let arg = self.load(o);
        let offset: int = if arg < 128 { arg as int } else { arg + 0xFF00 };
        if flag(self.regs.p, mask) == set {
            self.with_pc(wrap16(self.regs.pc + offset))
        } else {
            self
        }
    }

    /// Add with carry: A + M + C.
    pub open spec fn adc(self, v: u8) -> MachineState {
        let a = self.regs.a;
        let c: int = if flag(self.regs.p, CARRY) { 1 } else { 0 };
        let sum = a + v + c;
        let result = wrap8(sum);
        let p1 = set_flag(self.regs.p, ZERO, result == 0);
        let p2 = set_flag(p1, OVERFLOW, (a >= 128) == (v >= 128) && (result >= 128) != (a >= 128));
        let p3 = set_flag(p2, CARRY, sum > 255);
        let p4 = set_flag(p3, NEGATIVE, result >= 128);
        self.with_regs(Registers { a: result, p: p4, ..self.regs })
    }

    /// Carry when `lhs >= v`, Zero when equal, Negative from bit 7 of `lhs - v`.
    pub open spec fn compare(self, lhs: u8, v: u8) -> MachineState {
        let p1 = set_flag(self.regs.p, CARRY, lhs >= v);
        let p2 = set_flag(p1, ZERO, lhs == v);
        self.with_p(set_flag(p2, NEGATIVE, wrap8(lhs - v) >= 128))
    }

    /// A shift or rotate of the operand: the carry comes out as `carry`,
    /// the operand becomes `r`.
    pub open spec fn shifted(self, o: Operand, carry: bool, r: u8) -> MachineState {
        let p1 = set_flag(self.regs.p, CARRY, carry);
        self.store(o, r).with_p(with_zn(p1, r))
    }

    /// What `inst` does with operand `o`, pc already past the instruction.
    pub open spec fn apply(self, inst: Instruction, o: Operand) -> MachineState {
        let r = self.regs;
        let v = self.load(o);
        match inst {
            Instruction::BPL => self.branch(o, NEGATIVE, false),
            Instruction::BMI => self.branch(o, NEGATIVE, true),
            Instruction::BVC => self.branch(o, OVERFLOW, false),
            Instruction::BVS => self.branch(o, OVERFLOW, true),
            Instruction::BCC => self.branch(o, CARRY, false),
            Instruction::BCS => self.branch(o, CARRY, true),
            Instruction::BNE => self.branch(o, ZERO, false),
            Instruction::BEQ => self.branch(o, ZERO, true),
            Instruction::ADC => self.adc(v),
            // SBC adds the complement of the operand: A - M - (1 - C).
            Instruction::SBC => self.adc(!v),
            Instruction::AND => self.with_regs(Registers { a: r.a & v, p: with_zn(r.p, r.a & v), ..r }),
            Instruction::ORA => self.with_regs(Registers { a: r.a | v, p: with_zn(r.p, r.a | v), ..r }),
            Instruction::EOR => self.with_regs(Registers { a: r.a ^ v, p: with_zn(r.p, r.a ^ v), ..r }),
            Instruction::ASL => self.shifted(o, v >= 128, wrap8(2 * v)),
            Instruction::LSR => self.shifted(o, v % 2 == 1, v / 2),
            Instruction::ROL => self.shifted(o, v >= 128, (wrap8(2 * v) + if flag(r.p, CARRY) { 1int } else { 0 }) as u8),
            Instruction::ROR => self.shifted(o, v % 2 == 1, (v / 2 + if flag(r.p, CARRY) { 128int } else { 0 }) as u8),
            Instruction::BIT => {
                let p1 = set_flag(r.p, ZERO, r.a & v == 0);
                let p2 = set_flag(p1, OVERFLOW, v & 0x40 != 0);
                self.with_p(set_flag(p2, NEGATIVE, v >= 128))
            },
            Instruction::CMP => self.compare(r.a, v),
            Instruction::CPX => self.compare(r.x, v),
            Instruction::CPY => self.compare(r.y, v),
            Instruction::INC => self.with_p(with_zn(r.p, wrap8(v + 1))).store(o, wrap8(v + 1)),
            Instruction::DEC => self.with_p(with_zn(r.p, wrap8(v + 255))).store(o, wrap8(v + 255)),
            Instruction::INX => self.with_regs(Registers { x: wrap8(r.x + 1), p: with_zn(r.p, wrap8(r.x + 1)), ..r }),
            Instruction::INY => self.with_regs(Registers { y: wrap8(r.y + 1), p: with_zn(r.p, wrap8(r.y + 1)), ..r }),
            Instruction::DEX => self.with_regs(Registers { x: wrap8(r.x + 255), p: with_zn(r.p, wrap8(r.x + 255)), ..r }),
            Instruction::DEY => self.with_regs(Registers { y: wrap8(r.y + 255), p: with_zn(r.p, wrap8(r.y + 255)), ..r }),
            Instruction::LDA => self.with_regs(Registers { a: v, p: with_zn(r.p, v), ..r }),
            Instruction::LDX => self.with_regs(Registers { x: v, p: with_zn(r.p, v), ..r }),
            Instruction::LDY => self.with_regs(Registers { y: v, p: with_zn(r.p, v), ..r }),
            Instruction::STA => self.store(o, r.a),
            Instruction::STX => self.store(o, r.x),
            Instruction::STY => self.store(o, r.y),
            Instruction::SEC => self.with_p(set_flag(r.p, CARRY, true)),
            Instruction::SEI => self.with_p(set_flag(r.p, INTERRUPT, true)),
            Instruction::SED => self.with_p(set_flag(r.p, DECIMAL, true)),
            Instruction::CLC => self.with_p(set_flag(r.p, CARRY, false)),
            Instruction::CLD => self.with_p(set_flag(r.p, DECIMAL, false)),
            Instruction::CLV => self.with_p(set_flag(r.p, OVERFLOW, false)),
            // The copy of P on the stack has bit 4 set.
            Instruction::PHP => self.push(r.p | STACK_COPY),
            // Bit 4 of the pulled byte is dropped and bit 5 is set.
            Instruction::PLP => {
                let (m1, b) = self.pop();
                m1.with_p((b & 0b1110_1111) | ALWAYS_SET)
            },
            Instruction::PHA => self.push(r.a),
            Instruction::PLA => {
                let (m1, b) = self.pop();
                m1.with_regs(Registers { a: b, p: with_zn(m1.regs.p, b), ..m1.regs })
            },
            Instruction::TAX => self.with_regs(Registers { x: r.a, p: with_zn(r.p, r.a), ..r }),
            Instruction::TAY => self.with_regs(Registers { y: r.a, p: with_zn(r.p, r.a), ..r }),
            Instruction::TSX => self.with_regs(Registers { x: r.s, p: with_zn(r.p, r.s), ..r }),
            Instruction::TXA => self.with_regs(Registers { a: r.x, p: with_zn(r.p, r.x), ..r }),
            Instruction::TXS => self.with_regs(Registers { s: r.x, ..r }),
            Instruction::TYA => self.with_regs(Registers { a: r.y, p: with_zn(r.p, r.y), ..r }),
            Instruction::JMP => match o {
                Operand::Address(t) => self.with_pc(t),
                _ => self,
            },
            // The return address pushed is the last byte of the JSR.
            Instruction::JSR => match o {
                Operand::Address(t) => self.push_word((r.pc - 1) as u16).with_pc(t),
                _ => self,
            },
            Instruction::RTI => {
                let (m1, b) = self.pop();
                let (m2, w) = m1.pop_word();
                m2.with_regs(Registers { p: b | ALWAYS_SET, pc: w, ..m2.regs })
            },
            Instruction::RTS => {
                let (m1, w) = self.pop_word();
                m1.with_pc((w + 1) as u16)
            },
            _ => self,
        }
    }

    /// `inst` runs without panicking: its memory operands are readable, it
    /// does not store to an immediate, and the stack pointer and pc do not
    /// overflow.
    pub open spec fn apply_ok(self, inst: Instruction, o: Operand) -> bool {
        let r = self.regs;
        match inst {
            Instruction::BPL | Instruction::BMI | Instruction::BVC | Instruction::BVS
            | Instruction::BCC | Instruction::BCS | Instruction::BNE | Instruction::BEQ
            | Instruction::ADC | Instruction::SBC | Instruction::AND | Instruction::ORA
            | Instruction::EOR | Instruction::BIT | Instruction::CMP | Instruction::CPX
            | Instruction::CPY | Instruction::LDA | Instruction::LDX | Instruction::LDY => self.load_ok(o),
            Instruction::ASL | Instruction::LSR | Instruction::ROL | Instruction::ROR
            | Instruction::INC | Instruction::DEC => self.load_ok(o) && self.store_ok(o),
            Instruction::STA | Instruction::STX | Instruction::STY => self.store_ok(o),
            Instruction::PHP | Instruction::PHA => r.s > 0,
            Instruction::PLP | Instruction::PLA => r.s < 255,
            Instruction::JSR => r.s >= 2 && r.pc >= 1,
            Instruction::RTI => r.s <= 252,
            Instruction::RTS => r.s <= 253 && self.pop_word().1 < 0xFFFF,
            _ => true,
        }
    }

    /// Executing `inst` in `mode` with pc just past the opcode.
    pub open spec fn run(self, inst: Instruction, mode: AddressingMode) -> MachineState {
        let (o, pc) = self.operand(mode);
        self.with_pc(pc).apply(inst, o)
    }

    pub open spec fn run_ok(self, inst: Instruction, mode: AddressingMode) -> bool {
        &&& self.operand_ok(mode)
        &&& {
            let (o, pc) = self.operand(mode);
            self.with_pc(pc).apply_ok(inst, o)
        }
    }

    /// The opcode at pc.
    pub open spec fn opcode(self) -> u8 {
        self.peek(self.regs.pc)
    }

    /// One instruction: fetch the opcode, decode it, resolve its operand and
    /// execute it.
    pub open spec fn step(self) -> MachineState {
        let m1 = self.with_pc((self.regs.pc + 1) as u16);
        match opcode_table(self.opcode()) {
            Some((inst, mode)) => m1.run(inst, mode),
            None => m1,
        }
    }

    /// The machine after `n` instructions.
    pub open spec fn run_n(self, n: nat) -> MachineState
        decreases n,
    {
        if n == 0 {
            self
        } else {
            self.run_n((n - 1) as nat).step()
        }
    }

    /// Each of the first `n` instructions runs.
    pub open spec fn runs_ok(self, n: nat) -> bool {
        forall|k: nat| k < n ==> #[trigger] self.run_n(k).step_ok()
    }

    /// The instruction at pc is one the interpreter knows and runs without
    /// panicking.
    pub open spec fn step_ok(self) -> bool {
        &&& self.regs.pc < 0xFFFF
        &&& self.readable(self.regs.pc)
        &&& match opcode_table(self.opcode()) {
            Some((inst, mode)) => self.with_pc((self.regs.pc + 1) as u16).run_ok(inst, mode),
            None => false,
        }
    }
}

} // verus!
