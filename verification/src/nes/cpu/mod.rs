//! The 6502 of the `nes` console: registers, stack, flags, addressing modes,
//! interrupts and the fetch-decode-execute step. Branch results and page
//! crossings are left out of the cycle count.
pub mod instructions;
pub mod memory_map;
pub mod laws;

use vstd::prelude::*;
use crate::nes::memory::{Memory, MemView};
use self::instructions::{AddressingMode, Instruction, decode, execute, exec_ok, exec_spec, full_opcode_table};
use self::memory_map::{readable, peek, after_read, writable, poke, word_readable, peek_word, read_byte, write_byte, read_word};

verus! {

pub const NMI_VECTOR: u16 = 0xFFFA;
pub const RESET_VECTOR: u16 = 0xFFFC;
pub const BRK_IRQ_VECTOR: u16 = 0xFFFE;

/// The 6502's registers and cycle count. The registers are public so that
/// contracts can speak of them.
pub struct Cpu {
    pub pc: u16,
    pub sp: u8,
    pub p: u8,
    pub x: u8,
    pub y: u8,
    pub a: u8,

    pub cycle: u32,
}

#[derive(Debug, Clone, Copy, PartialEq, Eq, Structural)]
pub enum Interrupt {
    BRK,
    IRQ,
    NMI,
}

/// Each of the flags in the status register.
#[derive(Debug, Clone, Copy, PartialEq, Eq, Structural)]
pub enum StatusFlag {
    Carry,
    Zero,
    IntDisable,
    Decimal,
    /// Not a real flag: set in the copy pushed by BRK and PHP.
    Break,
    Overflow,
    Negative,
}

impl StatusFlag {
    pub open spec fn bit(self) -> u8 {
        match self {
            StatusFlag::Carry => 0x01,
            StatusFlag::Zero => 0x02,
            StatusFlag::IntDisable => 0x04,
            StatusFlag::Decimal => 0x08,
            StatusFlag::Break => 0x10,
            StatusFlag::Overflow => 0x40,
            StatusFlag::Negative => 0x80,
        }
    }

    /// The flag's bit in the status register.
    pub fn mask(self) -> (r: u8)
        ensures
            r == self.bit(),
    {
        match self {
            StatusFlag::Carry => 0b0000_0001,
            StatusFlag::Zero => 0b0000_0010,
            StatusFlag::IntDisable => 0b0000_0100,
            StatusFlag::Decimal => 0b0000_1000,
            StatusFlag::Break => 0b0001_0000,
            StatusFlag::Overflow => 0b0100_0000,
            StatusFlag::Negative => 0b1000_0000,
        }
    }
}

/// `x` wrapped into a byte, for `x` within a byte of the byte range.
pub open spec fn wrap8(x: int) -> u8 {
    if x >= 0x100 {
        (x - 0x100) as u8
    } else if x < 0 {
        (x + 0x100) as u8
    } else {
        x as u8
    }
}

/// `x` wrapped into 16 bits, for `x` within 16 bits of the 16-bit range.
pub open spec fn wrap16(x: int) -> u16 {
    if x >= 0x10000 {
        (x - 0x10000) as u16
    } else if x < 0 {
        (x + 0x10000) as u16
    } else {
        x as u16
    }
}

/// `p` with the bits of `mask` set when `set` holds, cleared otherwise.
pub open spec fn with_bit(p: u8, mask: u8, set: bool) -> u8 {
    if set { p | mask } else { p & !mask }
}

/// `p` with Zero and Negative describing `v`.
pub open spec fn zn(p: u8, v: u8) -> u8 {
    with_bit(with_bit(p, 0x02, v == 0), 0x80, v & 0x80 != 0)
}

impl Cpu {
    /// The CPU after `n` more cycles.
    pub open spec fn after_cycles(self, n: int) -> Cpu {
        Cpu { cycle: (self.cycle + n) as u32, ..self }
    }

    /// The address of the byte after the opcode.
    pub open spec fn pc1(self) -> u16 {
        wrap16(self.pc + 1)
    }

    pub open spec fn with_p(self, p: u8) -> Cpu {
        Cpu { p: p, ..self }
    }
}

/// Pushing `v`: it goes to $0100 plus the stack pointer, which then moves
/// down (wrapping within the page).
pub open spec fn push(c: Cpu, m: MemView, v: u8) -> (Cpu, MemView) {
    (Cpu { sp: wrap8(c.sp - 1), ..c }, MemView { ram: m.ram.update(c.sp + 0x100, v), ..m })
}

/// Popping: the stack pointer moves up, then the byte there is read.
pub open spec fn pop(c: Cpu, m: MemView) -> (u8, Cpu) {
    let sp = wrap8(c.sp + 1);
    (m.ram[sp + 0x100], Cpu { sp: sp, ..c })
}

/// `get_addr` is defined for `mode`: a memory mode whose operand bytes can
/// be read, with room in the cycle count.
#[verifier::opaque]
pub open spec fn addr_ok(c: Cpu, m: MemView, mode: AddressingMode) -> bool {
    &&& c.cycle + 6 <= u32::MAX
    &&& match mode {
        AddressingMode::ZeroPage | AddressingMode::ZeroPageIndexedX | AddressingMode::ZeroPageIndexedY
        | AddressingMode::IndexedIndirect | AddressingMode::IndirectIndexed => readable(m, c.pc1()),
        AddressingMode::Absolute | AddressingMode::AbsoluteIndexedX | AddressingMode::AbsoluteIndexedY =>
            word_readable(m, c.pc1()),
        _ => false,
    }
}

/// The address that a memory mode names, the CPU after the cycles it takes
/// (one more when an indexed base ends a page), and the memories after the
/// operand reads.
#[verifier::opaque]
pub open spec fn addr_of(c: Cpu, m: MemView, mode: AddressingMode) -> (u16, Cpu, MemView) {
    let pc1 = c.pc1();
    let m1 = after_read(m, pc1);
    match mode {
        AddressingMode::ZeroPage => (peek(m, pc1) as u16, c.after_cycles(2), m1),
        AddressingMode::Absolute => (peek_word(m, pc1), c.after_cycles(3), m),
        AddressingMode::IndexedIndirect => {
            let index = wrap8(peek(m, pc1) + c.x);
            (
                (peek(m1, index as u16) + 256 * peek(m1, wrap8(index + 1) as u16)) as u16,
                c.after_cycles(5),
                m1,
            )
        },
        AddressingMode::IndirectIndexed => {
            let operand = peek(m, pc1);
            let base = peek(m1, operand as u16) + 256 * peek(m1, wrap8(operand + 1) as u16);
            let extra = if base % 256 == 255 { 1int } else { 0 };
            (wrap16(base + c.y), c.after_cycles(5 + extra), m1)
        },
        AddressingMode::ZeroPageIndexedX => (wrap8(peek(m, pc1) + c.x) as u16, c.after_cycles(3), m1),
        AddressingMode::ZeroPageIndexedY => (wrap8(peek(m, pc1) + c.y) as u16, c.after_cycles(3), m1),
        AddressingMode::AbsoluteIndexedX => {
            let base = peek_word(m, pc1);
            let extra = if base % 256 == 255 { 1int } else { 0 };
            (wrap16(base + c.x), c.after_cycles(3 + extra), m)
        },
        AddressingMode::AbsoluteIndexedY => {
            let base = peek_word(m, pc1);
            let extra = if base % 256 == 255 { 1int } else { 0 };
            (wrap16(base + c.y), c.after_cycles(3 + extra), m)
        },
        _ => (0, c, m),
    }
}

/// `fetch_byte` is defined for `mode`.
#[verifier::opaque]
pub open spec fn fetch_ok(c: Cpu, m: MemView, mode: AddressingMode) -> bool {
    match mode {
        AddressingMode::Accumulator => true,
        AddressingMode::Immediate => readable(m, c.pc1()),
        _ => addr_ok(c, m, mode) && readable(addr_of(c, m, mode).2, addr_of(c, m, mode).0),
    }
}

/// The byte that `fetch_byte` gives for `mode`, with the CPU and the
/// memories after it.
#[verifier::opaque]
pub open spec fn fetch(c: Cpu, m: MemView, mode: AddressingMode) -> (u8, Cpu, MemView) {
    match mode {
        AddressingMode::Accumulator => (c.a, c, m),
        AddressingMode::Immediate => (peek(m, c.pc1()), c, after_read(m, c.pc1())),
        _ => {
            let (addr, c1, m1) = addr_of(c, m, mode);
            (peek(m1, addr), c1, after_read(m1, addr))
        },
    }
}

/// The status register plays no part in naming an address.
pub proof fn lemma_store_ok_any_p(c: Cpu, m: MemView, mode: AddressingMode, p: u8)
    ensures
        store_ok(c.with_p(p), m, mode) == store_ok(c, m, mode),
{
    reveal(store_ok);
    reveal(addr_ok);
    reveal(addr_of);
}

/// `set_byte` is defined for `mode`.
#[verifier::opaque]
pub open spec fn store_ok(c: Cpu, m: MemView, mode: AddressingMode) -> bool {
    match mode {
        AddressingMode::Accumulator => true,
        AddressingMode::Immediate => false,
        _ => addr_ok(c, m, mode) && writable(addr_of(c, m, mode).0),
    }
}

/// The CPU and the memories after `set_byte` stores `v` through `mode`.
#[verifier::opaque]
pub open spec fn store(c: Cpu, m: MemView, mode: AddressingMode, v: u8) -> (Cpu, MemView) {
    match mode {
        AddressingMode::Accumulator => (Cpu { a: v, ..c }, m),
        _ => {
            let (addr, c1, m1) = addr_of(c, m, mode);
            (c1, poke(m1, addr, v))
        },
    }
}

/// How far `bump_pc` moves the program counter after an instruction in
/// `mode`.
pub open spec fn bump(mode: AddressingMode) -> int {
    match mode {
        AddressingMode::Accumulator | AddressingMode::Implied => 1,
        AddressingMode::Immediate | AddressingMode::IndexedIndirect | AddressingMode::IndirectIndexed
        | AddressingMode::ZeroPage | AddressingMode::ZeroPageIndexedX | AddressingMode::ZeroPageIndexedY => 2,
        AddressingMode::Absolute | AddressingMode::AbsoluteIndexedX | AddressingMode::AbsoluteIndexedY => 3,
        _ => 0,
    }
}

/// The vector that an interrupt jumps through.
pub open spec fn vector_of(i: Interrupt) -> u16 {
    if i == Interrupt::NMI { NMI_VECTOR } else { BRK_IRQ_VECTOR }
}

/// An interrupt is taken: NMI always, BRK and IRQ when interrupts are
/// enabled.
pub open spec fn taken(c: Cpu, i: Interrupt) -> bool {
    i == Interrupt::NMI || c.p & 0x04 == 0
}

pub open spec fn interrupt_ok(c: Cpu, m: MemView, i: Interrupt) -> bool {
    taken(c, i) ==> word_readable(m, vector_of(i))
}

/// An interrupt that is taken pushes the status (with Break set for BRK),
/// leaves Break clear, pushes the program counter high byte first and jumps
/// through the vector.
pub open spec fn interrupt_spec(c: Cpu, m: MemView, i: Interrupt) -> (Cpu, MemView) {
    if !taken(c, i) {
        (c, m)
    } else {
        let pushed = if i == Interrupt::BRK { c.p | 0x10 } else { c.p & !0x10 };
        let (c1, m1) = push(c.with_p(pushed), m, pushed);
        let p2 = if i == Interrupt::BRK { pushed & !0x10 } else { pushed };
        let (c2, m2) = push(c1.with_p(p2), m1, ((c.pc & 0xFF00) >> 8) as u8);
        let (c3, m3) = push(c2, m2, (c.pc & 0xFF) as u8);
        (Cpu { pc: peek_word(m3, vector_of(i)), ..c3 }, m3)
    }
}

/// The instruction at the program counter, once the opcode is read.
pub open spec fn decoded(c: Cpu, m: MemView) -> (Instruction, AddressingMode) {
    full_opcode_table(peek(m, c.pc)).unwrap()
}

/// The CPU and memories just before the instruction runs: the opcode read
/// takes a cycle, NOP two more, and the modes that need no address one
/// more.
pub open spec fn before_exec(c: Cpu, m: MemView) -> (Cpu, MemView) {
    let op = peek(m, c.pc);
    let mode = decoded(c, m).1;
    let nop = if op == 0xEA { 2int } else { 0 };
    let short = if mode == AddressingMode::Accumulator || mode == AddressingMode::Implied || mode
        == AddressingMode::Immediate || mode == AddressingMode::Relative { 1int } else { 0 };
    (c.after_cycles(1 + nop + short), after_read(m, c.pc))
}

/// Instructions that leave the program counter where they put it.
pub open spec fn sets_pc(inst: Instruction) -> bool {
    inst == Instruction::JMP || inst == Instruction::JSR || inst == Instruction::RTS || inst
        == Instruction::RTI
}

/// One step is defined: the opcode can be read and is known, and the
/// instruction's own reads and writes are defined.
pub open spec fn step_ok(c: Cpu, m: MemView) -> bool {
    &&& readable(m, c.pc)
    &&& c.cycle + 4 <= u32::MAX
    &&& full_opcode_table(peek(m, c.pc)) is Some
    &&& exec_ok(before_exec(c, m).0, before_exec(c, m).1, decoded(c, m).0, decoded(c, m).1)
}

/// The CPU and memories after one step.
pub open spec fn step_spec(c: Cpu, m: MemView) -> (Cpu, MemView) {
    let (inst, mode) = decoded(c, m);
    let (c1, m1) = before_exec(c, m);
    let (c2, m2) = exec_spec(c1, m1, inst, mode);
    if sets_pc(inst) {
        (c2, m2)
    } else {
        (Cpu { pc: wrap16(c2.pc + bump(mode)), ..c2 }, m2)
    }
}

impl Cpu {
    /// Pushes `val` to the stack.
    pub fn push_stack(&mut self, mem: &mut Memory, val: u8)
        requires
            old(mem).wf(),
        ensures
            final(mem).wf(),
            (*final(self), final(mem)@) == push(*old(self), old(mem)@, val),
    {
        mem.write_ram_byte((self.sp as u16) + 0x100, val);
        self.sp = self.sp.wrapping_sub(1);
    }

    /// Pops a value from the stack.
    pub fn pop_stack(&mut self, mem: &mut Memory) -> (r: u8)
        requires
            old(mem).wf(),
        ensures
            *final(mem) == *old(mem),
            (r, *final(self)) == pop(*old(self), old(mem)@),
    {
        self.sp = self.sp.wrapping_add(1);
        mem.read_ram_byte((self.sp as u16) + 0x100)
    }

    /// Sets `flag` to `set`.
    pub fn set_flag(&mut self, flag: StatusFlag, set: bool)
        ensures
            *final(self) == old(self).with_p(with_bit(old(self).p, flag.bit(), set)),
    {
        match set {
            true => self.p = self.p | flag.mask(),
            false => self.p = self.p & !flag.mask(),
        }
    }

    /// Sets Zero and Negative from `val`. Other flags are set per
    /// instruction.
    pub fn set_zn_flags(&mut self, val: u8)
        ensures
            *final(self) == old(self).with_p(zn(old(self).p, val)),
    {
        self.set_flag(StatusFlag::Zero, val == 0);
        self.set_flag(StatusFlag::Negative, val & 0x80 != 0);
    }

    /// Whether `flag` is set (when `is_set`) or clear (otherwise).
    pub fn check_flag(&self, flag: StatusFlag, is_set: bool) -> (r: bool)
        ensures
            r == ((self.p & flag.bit() != 0) == is_set),
    {
        match is_set {
            true => self.p & flag.mask() != 0,
            false => self.p & flag.mask() == 0,
        }
    }

    /// Loads the program counter from the reset vector and sets the stack
    /// pointer and status to their power-on values.
    pub fn power_on_reset(&mut self, mem: &mut Memory)
        requires
            old(mem).wf(),
            word_readable(old(mem)@, RESET_VECTOR),
        ensures
            *final(mem) == *old(mem),
            *final(self) == (Cpu {
                pc: peek_word(old(mem)@, RESET_VECTOR),
                sp: 0xFD,
                p: 0x34,
                ..*old(self)
            }),
    {
        self.pc = read_word(mem, RESET_VECTOR);
        self.sp = 0xFD;
        self.p = 0x34;
    }

    /// Raises `interrupt`. BRK and IRQ are ignored while interrupts are
    /// disabled.
    pub fn interrupt(&mut self, mem: &mut Memory, interrupt: Interrupt)
        requires
            old(mem).wf(),
            interrupt_ok(*old(self), old(mem)@, interrupt),
        ensures
            final(mem).wf(),
            (*final(self), final(mem)@) == interrupt_spec(*old(self), old(mem)@, interrupt),
    {
        let ghost c0 = *self;
        let vector = match interrupt {
            Interrupt::BRK => {
                // Check if IntDisable flag is set
                if self.check_flag(StatusFlag::IntDisable, true) {
                    return;
                }
                self.set_flag(StatusFlag::Break, true);
                let flags = self.p;
                self.push_stack(mem, flags);
                self.set_flag(StatusFlag::Break, false);
                BRK_IRQ_VECTOR
            },
            Interrupt::IRQ => {
                // Check if IntDisable flag is set
                if self.check_flag(StatusFlag::IntDisable, true) {
                    return;
                }
                self.set_flag(StatusFlag::Break, false);
                let flags = self.p;
                self.push_stack(mem, flags);
                BRK_IRQ_VECTOR
            },
            Interrupt::NMI => {
                self.set_flag(StatusFlag::Break, false);
                let flags = self.p;
                self.push_stack(mem, flags);
                NMI_VECTOR
            },
        };
        let addr_low = (self.pc & 0b1111_1111) as u8;
        let addr_high = ((self.pc & 0b1111_1111_0000_0000) >> 8) as u8;
        self.push_stack(mem, addr_high);
        self.push_stack(mem, addr_low);
        proof {
            assert(word_readable(mem@, vector));
        }
        self.pc = read_word(mem, vector);
    }

    /// One instruction: fetch the opcode, decode it, execute it, and move
    /// the program counter past it unless the instruction set it.
    pub fn step(&mut self, mem: &mut Memory)
        requires
            old(mem).wf(),
            step_ok(*old(self), old(mem)@),
        ensures
            final(mem).wf(),
            (*final(self), final(mem)@) == step_spec(*old(self), old(mem)@),
    {
        let op_code = read_byte(mem, self.pc);
        self.cycle();
        let (inst, addr_mode) = decode(self, op_code);

        // Ops take >= 2 cycles
        if addr_mode == AddressingMode::Accumulator || addr_mode == AddressingMode::Implied
            || addr_mode == AddressingMode::Immediate || addr_mode == AddressingMode::Relative {
            self.cycle();
        }
        execute(self, mem, (inst, addr_mode));

        if inst != Instruction::JMP && inst != Instruction::JSR && inst != Instruction::RTS && inst
            != Instruction::RTI {
            self.bump_pc(addr_mode);  // Increment pc depending on addressing mode
        }
    }

    fn cycle(&mut self)
        requires
            old(self).cycle < u32::MAX,
        ensures
            *final(self) == old(self).after_cycles(1),
    {
        self.cycle += 1;
    }

    fn cycles(&mut self, n: u32)
        requires
            old(self).cycle + n <= u32::MAX,
        ensures
            *final(self) == old(self).after_cycles(n as int),
    {
        let mut i: u32 = 0;
        while i < n
            invariant
                i <= n,
                old(self).cycle + n <= u32::MAX,
                *self == old(self).after_cycles(i as int),
            decreases n - i,
        {
            self.cycle();
            i = i + 1;
        }
    }

    /// Moves the program counter past an instruction in `addr_mode`.
    fn bump_pc(&mut self, addr_mode: AddressingMode)
        ensures
            *final(self) == (Cpu { pc: wrap16(old(self).pc + bump(addr_mode)), ..*old(self) }),
    {
        let n: u16 = match addr_mode {
            AddressingMode::Accumulator => 1,
            AddressingMode::Implied => 1,

            AddressingMode::Immediate => 2,
            AddressingMode::IndexedIndirect => 2,
            AddressingMode::IndirectIndexed => 2,
            AddressingMode::ZeroPage => 2,
            AddressingMode::ZeroPageIndexedX => 2,
            AddressingMode::ZeroPageIndexedY => 2,

            AddressingMode::Absolute => 3,
            AddressingMode::AbsoluteIndexedX => 3,
            AddressingMode::AbsoluteIndexedY => 3,
            _ => 0,
        };
        self.pc = self.pc.wrapping_add(n);
    }

    /// The operand of an instruction in `addr_mode`: the accumulator, the
    /// immediate byte, or the byte at the address the mode names.
    pub fn fetch_byte(&mut self, mem: &mut Memory, addr_mode: AddressingMode) -> (r: u8)
        requires
            old(mem).wf(),
            fetch_ok(*old(self), old(mem)@, addr_mode),
        ensures
            final(mem).wf(),
            (r, *final(self), final(mem)@) == fetch(*old(self), old(mem)@, addr_mode),
    {
        proof {
            reveal(fetch);
            reveal(fetch_ok);
        }
        match addr_mode {
            AddressingMode::Accumulator => self.a,
            AddressingMode::Immediate => read_byte(mem, self.pc.wrapping_add(1)),
            _ => {
                let addr = self.get_addr(mem, addr_mode);
                read_byte(mem, addr)
            },
        }
    }

    /// Stores `val` through `addr_mode`: in the accumulator or at the
    /// address the mode names. Immediate mode cannot be written.
    pub fn set_byte(&mut self, mem: &mut Memory, addr_mode: AddressingMode, val: u8)
        requires
            old(mem).wf(),
            store_ok(*old(self), old(mem)@, addr_mode),
        ensures
            final(mem).wf(),
            (*final(self), final(mem)@) == store(*old(self), old(mem)@, addr_mode, val),
    {
        proof {
            reveal(store);
            reveal(store_ok);
        }
        match addr_mode {
            AddressingMode::Accumulator => self.a = val,
            _ => {
                let addr = self.get_addr(mem, addr_mode);
                write_byte(mem, addr, val);
            },
        }
    }

    /// The address that `addr_mode` names, reading the operand bytes after
    /// the opcode. Implied, Relative, Indirect, Accumulator and Immediate
    /// modes name no address.
    pub fn get_addr(&mut self, mem: &mut Memory, addr_mode: AddressingMode) -> (r: u16)
        requires
            old(mem).wf(),
            addr_ok(*old(self), old(mem)@, addr_mode),
        ensures
            final(mem).wf(),
            (r, *final(self), final(mem)@) == addr_of(*old(self), old(mem)@, addr_mode),
    {
        proof {
            reveal(addr_ok);
        }
        match addr_mode {
            AddressingMode::ZeroPage | AddressingMode::ZeroPageIndexedX | AddressingMode::ZeroPageIndexedY => {
                self.zero_page_addr(mem, addr_mode)
            },
            AddressingMode::IndexedIndirect => self.indexed_indirect_addr(mem),
            AddressingMode::IndirectIndexed => self.indirect_indexed_addr(mem),
            _ => self.absolute_addr(mem, addr_mode),
        }
    }

    fn zero_page_addr(&mut self, mem: &mut Memory, addr_mode: AddressingMode) -> (r: u16)
        requires
            old(mem).wf(),
            addr_ok(*old(self), old(mem)@, addr_mode),
            addr_mode == AddressingMode::ZeroPage || addr_mode == AddressingMode::ZeroPageIndexedX
                || addr_mode == AddressingMode::ZeroPageIndexedY,
        ensures
            final(mem).wf(),
            (r, *final(self), final(mem)@) == addr_of(*old(self), old(mem)@, addr_mode),
    {
        proof {
            reveal(addr_of);
            reveal(addr_ok);
        }
        let pc1 = self.pc.wrapping_add(1);
        match addr_mode {
            AddressingMode::ZeroPage => {
                self.cycles(2);
                read_byte(mem, pc1) as u16
            },
            AddressingMode::ZeroPageIndexedX => {
                self.cycles(3);
                let addr = read_byte(mem, pc1);
                addr.wrapping_add(self.x) as u16
            },
            _ => {
                self.cycles(3);
                let addr = read_byte(mem, pc1);
                addr.wrapping_add(self.y) as u16
            },
        }
    }

    fn absolute_addr(&mut self, mem: &mut Memory, addr_mode: AddressingMode) -> (r: u16)
        requires
            old(mem).wf(),
            addr_ok(*old(self), old(mem)@, addr_mode),
            addr_mode == AddressingMode::Absolute || addr_mode == AddressingMode::AbsoluteIndexedX
                || addr_mode == AddressingMode::AbsoluteIndexedY,
        ensures
            final(mem).wf(),
            (r, *final(self), final(mem)@) == addr_of(*old(self), old(mem)@, addr_mode),
    {
        proof {
            reveal(addr_of);
            reveal(addr_ok);
        }
        let pc1 = self.pc.wrapping_add(1);
        self.cycles(3);
        let addr = read_word(mem, pc1);
        match addr_mode {
            AddressingMode::Absolute => addr,
            _ => {
                // Add one cycle if page boundary is crossed
                if addr % 256 == 0xFF {
                    self.cycle();
                }
                if addr_mode == AddressingMode::AbsoluteIndexedX {
                    addr.wrapping_add(self.x as u16)
                } else {
                    addr.wrapping_add(self.y as u16)
                }
            },
        }
    }

    fn indexed_indirect_addr(&mut self, mem: &mut Memory) -> (r: u16)
        requires
            old(mem).wf(),
            addr_ok(*old(self), old(mem)@, AddressingMode::IndexedIndirect),
        ensures
            final(mem).wf(),
            (r, *final(self), final(mem)@) == addr_of(*old(self), old(mem)@, AddressingMode::IndexedIndirect),
    {
        proof {
            reveal(addr_of);
            reveal(addr_ok);
        }
        let operand = read_byte(mem, self.pc.wrapping_add(1));
        let index = operand.wrapping_add(self.x);
        // Deals with zero-page wrapping
        self.cycles(5);
        let low = read_byte(mem, index as u16);
        let high = read_byte(mem, index.wrapping_add(1) as u16);
        low as u16 + (high as u16) * 256
    }

    fn indirect_indexed_addr(&mut self, mem: &mut Memory) -> (r: u16)
        requires
            old(mem).wf(),
            addr_ok(*old(self), old(mem)@, AddressingMode::IndirectIndexed),
        ensures
            final(mem).wf(),
            (r, *final(self), final(mem)@) == addr_of(*old(self), old(mem)@, AddressingMode::IndirectIndexed),
    {
        proof {
            reveal(addr_of);
            reveal(addr_ok);
        }
        let operand = read_byte(mem, self.pc.wrapping_add(1));
        // Deals with zero-page wrapping
        self.cycles(5);
        let low = read_byte(mem, operand as u16);
        let high = read_byte(mem, operand.wrapping_add(1) as u16);
        let addr = low as u16 + (high as u16) * 256;
        // Add one cycle if page boundary is crossed
        if addr % 256 == 0xFF {
            self.cycle();
        }
        addr.wrapping_add(self.y as u16)
    }
}

} // verus!
