//! The 6502 interpreter: fetch, decode and execute one instruction at a time
//! against the internal RAM and the bus.
pub mod apu;
pub mod cpu;
pub mod laws;
pub mod machine;
pub mod power_on;

use vstd::prelude::*;
use crate::cart::CartView;
use crate::interconnect::Interconnect;
use crate::nes::cpu::instructions::{AddressingMode, Instruction, decode_opcode, opcode_table};
use self::machine::{MachineState, Operand, Registers, set_flag, flag, with_zn, wrap8, wrap16, CARRY, ZERO, INTERRUPT, DECIMAL, STACK_COPY, ALWAYS_SET, OVERFLOW, NEGATIVE};

verus! {

/// Where the reset vector would be read from.
pub const RESET_VECTOR: u16 = 0xFFFC;

pub struct Cpu {
    registers: Registers,
    cycles: usize,
    ram: Vec<u8>,
}

pub struct CpuView {
    pub registers: Registers,
    pub cycles: usize,
    pub ram: Seq<u8>,
}

impl View for Cpu {
    type V = CpuView;

    closed spec fn view(&self) -> CpuView {
        CpuView { registers: self.registers, cycles: self.cycles, ram: self.ram@ }
    }
}

/// The state the interpreter works on: the CPU's registers and RAM and the
/// cartridge behind the bus.
pub open spec fn machine(cpu: &Cpu, ic: &Interconnect) -> MachineState {
    MachineState { regs: cpu@.registers, ram: cpu@.ram, cart: ic.cart@ }
}

/// The new CPU and bus are the machine `m2`, with the cycle counter and the
/// PPU untouched.
pub open spec fn machine_is(old_cpu: &Cpu, old_ic: &Interconnect, new_cpu: &Cpu, new_ic: &Interconnect, m2: MachineState) -> bool {
    &&& new_cpu.wf()
    &&& new_ic.cart@.wf()
    &&& machine(new_cpu, new_ic) == m2
    &&& new_cpu@.cycles == old_cpu@.cycles
    &&& new_ic.ppu == old_ic.ppu
}

/// A cartridge with nothing in it, for instructions that never touch memory
/// outside the CPU.
pub open spec fn no_cart() -> CartView {
    CartView { prg_rom: Seq::empty(), prg_ram: Seq::empty(), chr_rom: Seq::empty() }
}

/// The CPU as a machine without a cartridge.
pub open spec fn cpu_machine(cpu: &Cpu) -> MachineState {
    MachineState { regs: cpu@.registers, ram: cpu@.ram, cart: no_cart() }
}

/// `new` is `old` after an instruction that uses only registers and the stack.
pub open spec fn cpu_effect(old: &Cpu, new: &Cpu, m2: MachineState) -> bool {
    &&& new.wf()
    &&& new@.registers == m2.regs
    &&& new@.ram == m2.ram
    &&& new@.cycles == old@.cycles
}

/// Whether bit 7 of `v` is set.
fn negative(v: u8) -> (r: bool)
    ensures
        r == (v >= 128),
{
    assert((v & (1u8 << 7u8) != 0) == (v >= 128)) by (bit_vector);
    v & (1u8 << 7u8) != 0
}

impl Cpu {
    pub open spec fn wf(&self) -> bool {
        self@.ram.len() == 0x800
    }

    /// The CPU at power on: registers and RAM all zero.
    pub open spec fn new_spec() -> CpuView {
        CpuView {
            registers: Registers { a: 0, x: 0, y: 0, s: 0, p: 0, pc: 0 },
            cycles: 0,
            ram: Seq::new(0x800, |i: int| 0u8),
        }
    }

    pub fn new() -> (r: Self)
        ensures
            r.wf(),
            r@ == Cpu::new_spec(),
    {
        let r = Cpu {
            registers: Registers { a: 0, x: 0, y: 0, s: 0, p: 0, pc: 0 },
            cycles: 0,
            ram: vec![0u8; 2048],
        };
        assert(r@.ram =~= Seq::new(0x800, |i: int| 0u8));
        r
    }

    /// Puts the CPU at the start of the test ROM ($C000) with the stack
    /// pointer at $FD and P = $24.
    pub fn reset(&mut self, interconnect: &mut Interconnect)
        ensures
            final(self)@.registers == (Registers { pc: 0xC000, s: 0xFD, p: 0x24, ..old(self)@.registers }),
            final(self)@.ram == old(self)@.ram,
            final(self)@.cycles == old(self)@.cycles,
            *final(interconnect) == *old(interconnect),
    {
        self.registers.pc = 0xC000;
        self.registers.s = 0xFD;
        self.registers.p = 0x24;
    }

    pub fn pc(&self) -> (r: u16)
        ensures
            r == self@.registers.pc,
    {
        self.registers.pc
    }

    pub fn cycles(&self) -> (r: usize)
        ensures
            r == self@.cycles,
    {
        self.cycles
    }

    /// A copy of the registers.
    pub fn registers(&self) -> (r: Registers)
        ensures
            r == self@.registers,
    {
        self.registers
    }

    /// Reads a byte: the internal RAM (mirrored every 2 KiB) below $2000,
    /// the bus above.
    pub fn fetch_byte(&mut self, interconnect: &mut Interconnect, addr: u16) -> (r: u8)
        requires
            old(self).wf(),
            old(interconnect).cart@.wf(),
            machine(old(self), old(interconnect)).readable(addr),
        ensures
            r == machine(old(self), old(interconnect)).peek(addr),
            *final(self) == *old(self),
            *final(interconnect) == *old(interconnect),
    {
        if addr < 0x0800 {
            self.ram[addr as usize]
        } else if addr < 0x2000 {
            self.ram[(addr % 0x0800) as usize]
        } else {
            interconnect.read_byte(addr)
        }
    }

    fn fetch_word(&mut self, interconnect: &mut Interconnect, addr: u16) -> (r: u16)
        requires
            old(self).wf(),
            old(interconnect).cart@.wf(),
            machine(old(self), old(interconnect)).word_ok(addr),
        ensures
            r == machine(old(self), old(interconnect)).word(addr),
            *final(self) == *old(self),
            *final(interconnect) == *old(interconnect),
    {
        // The 6502 is little endian (LSB first)
        let hi = self.fetch_byte(interconnect, addr + 1);
        let lo = self.fetch_byte(interconnect, addr);
        assert(((hi as u16) << 8u16) | (lo as u16) == lo + 256 * hi) by (bit_vector);
        ((hi as u16) << 8u16) | (lo as u16)
    }

    fn store(&mut self, interconnect: &mut Interconnect, addr: u16, val: u8)
        requires
            old(self).wf(),
            old(interconnect).cart@.wf(),
            machine(old(self), old(interconnect)).readable(addr),
        ensures
            final(self).wf(),
            final(interconnect).cart@.wf(),
            machine(final(self), final(interconnect)) == machine(old(self), old(interconnect)).poke(addr, val),
            final(self)@.cycles == old(self)@.cycles,
            final(interconnect).ppu == old(interconnect).ppu,
    {
        if addr < 0x0800 {
            self.ram.set(addr as usize, val);
        } else if addr < 0x2000 {
            self.ram.set((addr % 0x0800) as usize, val);
        } else {
            interconnect.write_byte(addr, val);
        }
        assert(machine(final(self), final(interconnect)) =~= machine(old(self), old(interconnect)).poke(addr, val));
    }

    fn load_next_byte_bump_pc(&mut self, interconnect: &mut Interconnect) -> (r: u8)
        requires
            old(self).wf(),
            old(interconnect).cart@.wf(),
            old(self)@.registers.pc < 0xFFFF,
            machine(old(self), old(interconnect)).readable(old(self)@.registers.pc),
        ensures
            final(self).wf(),
            r == machine(old(self), old(interconnect)).peek(old(self)@.registers.pc),
            machine(final(self), final(interconnect)) == machine(old(self), old(interconnect)).with_pc(
                (old(self)@.registers.pc + 1) as u16),
            final(self)@.cycles == old(self)@.cycles,
            *final(interconnect) == *old(interconnect),
    {
        let pc = self.registers.pc;
        self.registers.pc = self.registers.pc + 1;
        let r = self.fetch_byte(interconnect, pc);
        assert(machine(final(self), final(interconnect)) =~= machine(old(self), old(interconnect)).with_pc(
            (old(self)@.registers.pc + 1) as u16));
        r
    }

    fn load_next_word_bump_pc(&mut self, interconnect: &mut Interconnect) -> (r: u16)
        requires
            old(self).wf(),
            old(interconnect).cart@.wf(),
            old(self)@.registers.pc < 0xFFFE,
            machine(old(self), old(interconnect)).word_ok(old(self)@.registers.pc),
        ensures
            final(self).wf(),
            r == machine(old(self), old(interconnect)).word(old(self)@.registers.pc),
            machine(final(self), final(interconnect)) == machine(old(self), old(interconnect)).with_pc(
                (old(self)@.registers.pc + 2) as u16),
            final(self)@.cycles == old(self)@.cycles,
            *final(interconnect) == *old(interconnect),
    {
        let lo = self.load_next_byte_bump_pc(interconnect);
        let hi = self.load_next_byte_bump_pc(interconnect);
        assert((lo as u16) | ((hi as u16) << 8u16) == lo + 256 * hi) by (bit_vector);
        assert(machine(final(self), final(interconnect)) =~= machine(old(self), old(interconnect)).with_pc(
            (old(self)@.registers.pc + 2) as u16));
        (lo as u16) | ((hi as u16) << 8u16)
    }

    /// The pointer stored in the zero page at `index`.
    fn zero_page_addr(&mut self, interconnect: &mut Interconnect, index: u8) -> (r: u16)
        requires
            old(self).wf(),
            old(interconnect).cart@.wf(),
        ensures
            r == machine(old(self), old(interconnect)).zp_pointer(index),
            *final(self) == *old(self),
            *final(interconnect) == *old(interconnect),
    {
        if index == 0xFF {
            let hi = self.fetch_byte(interconnect, 0x0000);
            let lo = self.fetch_byte(interconnect, index as u16);
            assert(((hi as u16) << 8u16) | (lo as u16) == lo + 256 * hi) by (bit_vector);
            ((hi as u16) << 8u16) | (lo as u16)
        } else {
            self.fetch_word(interconnect, index as u16)
        }
    }

    fn stack_push_byte(&mut self, val: u8)
        requires
            old(self).wf(),
            old(self)@.registers.s > 0,
        ensures
            final(self).wf(),
            final(self)@.ram == old(self)@.ram.update(0x100 + old(self)@.registers.s, val),
            final(self)@.registers == (Registers { s: (old(self)@.registers.s - 1) as u8, ..old(self)@.registers }),
            final(self)@.cycles == old(self)@.cycles,
    {
        self.ram.set((self.registers.s as usize) + 0x100, val);
        self.registers.s = self.registers.s - 1;
    }

    fn stack_push_word(&mut self, val: u16)
        requires
            old(self).wf(),
            old(self)@.registers.s >= 2,
        ensures
            final(self).wf(),
            final(self)@.ram == old(self)@.ram.update(0x100 + old(self)@.registers.s, (val / 256) as u8)
                .update(0x100 + old(self)@.registers.s - 1, (val % 256) as u8),
            final(self)@.registers == (Registers { s: (old(self)@.registers.s - 2) as u8, ..old(self)@.registers }),
            final(self)@.cycles == old(self)@.cycles,
    {
        let high_byte = ((val >> 8u16) & 0xFFu16) as u8;
        let low_byte = (val & 0xFFu16) as u8;
        assert(high_byte == val / 256 && low_byte == val % 256) by (bit_vector)
            requires
                high_byte == ((val >> 8u16) & 0xFFu16) as u8,
                low_byte == (val & 0xFFu16) as u8,
        ;
        self.stack_push_byte(high_byte);
        self.stack_push_byte(low_byte);
    }

    fn stack_pop_byte(&mut self) -> (r: u8)
        requires
            old(self).wf(),
            old(self)@.registers.s < 255,
        ensures
            final(self).wf(),
            final(self)@.registers == (Registers { s: (old(self)@.registers.s + 1) as u8, ..old(self)@.registers }),
            r == old(self)@.ram[0x100 + old(self)@.registers.s + 1],
            final(self)@.ram == old(self)@.ram,
            final(self)@.cycles == old(self)@.cycles,
    {
        self.registers.s = self.registers.s + 1;
        self.ram[(self.registers.s as usize) + 0x100]
    }

    fn stack_pop_word(&mut self) -> (r: u16)
        requires
            old(self).wf(),
            old(self)@.registers.s < 254,
        ensures
            final(self).wf(),
            final(self)@.registers == (Registers { s: (old(self)@.registers.s + 2) as u8, ..old(self)@.registers }),
            r == old(self)@.ram[0x100 + old(self)@.registers.s + 1] + 256 * old(self)@.ram[0x100 + old(self)@.registers.s + 2],
            final(self)@.ram == old(self)@.ram,
            final(self)@.cycles == old(self)@.cycles,
    {
        let low_byte = self.stack_pop_byte();
        let high_byte = self.stack_pop_byte();
        assert(((high_byte as u16) << 8u16) | (low_byte as u16) == low_byte + 256 * high_byte) by (bit_vector);
        ((high_byte as u16) << 8u16) | (low_byte as u16)
    }

    /// Adds three cycles for each CPU cycle (the PPU runs three times as fast).
    fn add_cycles(&mut self, num_cycles: usize)
        requires
            old(self)@.cycles + 3 * num_cycles <= usize::MAX,
        ensures
            final(self)@.cycles == old(self)@.cycles + 3 * num_cycles,
            final(self)@.registers == old(self)@.registers,
            final(self)@.ram == old(self)@.ram,
    {
        self.cycles = self.cycles + 3 * num_cycles;
    }

    fn set_flag(&mut self, mask: u8, b: bool)
        ensures
            final(self)@.registers == (Registers { p: set_flag(old(self)@.registers.p, mask, b), ..old(self)@.registers }),
            final(self)@.ram == old(self)@.ram,
            final(self)@.cycles == old(self)@.cycles,
            final(self).wf() == old(self).wf(),
    {
        if b {
            self.registers.p = self.registers.p | mask;
        } else {
            self.registers.p = self.registers.p & !mask;
        }
    }
}


/// Operand resolution and the instructions.
impl Cpu {
    /// Operands of one byte: immediate, relative and zero page.
    #[verifier::rlimit(50)]
    fn init_byte_operand(&mut self, interconnect: &mut Interconnect, mode: AddressingMode) -> (r: Operand)
        requires
            old(self).wf(),
            old(interconnect).cart@.wf(),
            mode == AddressingMode::Immediate || mode == AddressingMode::Relative || mode == AddressingMode::ZeroPage || mode == AddressingMode::ZeroPageIndexedX || mode == AddressingMode::ZeroPageIndexedY,
            machine(old(self), old(interconnect)).operand_ok(mode),
        ensures
            r == machine(old(self), old(interconnect)).operand(mode).0,
            machine_is(old(self), old(interconnect), final(self), final(interconnect),
                machine(old(self), old(interconnect)).with_pc(machine(old(self), old(interconnect)).operand(mode).1)),
    {
        let ghost m = machine(old(self), old(interconnect));
        let arg = self.load_next_byte_bump_pc(interconnect);
        let r = match mode {
            AddressingMode::ZeroPage => Operand::Address(arg as u16),
            AddressingMode::ZeroPageIndexedX => Operand::Address(arg.wrapping_add(self.registers.x) as u16),
            AddressingMode::ZeroPageIndexedY => Operand::Address(arg.wrapping_add(self.registers.y) as u16),
            _ => Operand::Value(arg),
        };
        assert(machine(final(self), final(interconnect)) =~= m.with_pc(m.operand(mode).1));
        r
    }

    /// Operands of two bytes: absolute, possibly indexed.
    #[verifier::rlimit(50)]
    fn init_word_operand(&mut self, interconnect: &mut Interconnect, mode: AddressingMode) -> (r: Operand)
        requires
            old(self).wf(),
            old(interconnect).cart@.wf(),
            mode == AddressingMode::Absolute || mode == AddressingMode::AbsoluteIndexedX || mode == AddressingMode::AbsoluteIndexedY,
            machine(old(self), old(interconnect)).operand_ok(mode),
        ensures
            r == machine(old(self), old(interconnect)).operand(mode).0,
            machine_is(old(self), old(interconnect), final(self), final(interconnect),
                machine(old(self), old(interconnect)).with_pc(machine(old(self), old(interconnect)).operand(mode).1)),
    {
        let ghost m = machine(old(self), old(interconnect));
        let arg = self.load_next_word_bump_pc(interconnect);
        let r = match mode {
            AddressingMode::AbsoluteIndexedX => Operand::Address(arg.wrapping_add(self.registers.x as u16)),
            AddressingMode::AbsoluteIndexedY => Operand::Address(arg.wrapping_add(self.registers.y as u16)),
            _ => Operand::Address(arg),
        };
        assert(machine(final(self), final(interconnect)) =~= m.with_pc(m.operand(mode).1));
        r
    }

    /// Operands reached through a pointer in the zero page.
    #[verifier::rlimit(50)]
    fn init_pointer_operand(&mut self, interconnect: &mut Interconnect, mode: AddressingMode) -> (r: Operand)
        requires
            old(self).wf(),
            old(interconnect).cart@.wf(),
            mode == AddressingMode::IndexedIndirect || mode == AddressingMode::IndirectIndexed,
            machine(old(self), old(interconnect)).operand_ok(mode),
        ensures
            r == machine(old(self), old(interconnect)).operand(mode).0,
            machine_is(old(self), old(interconnect), final(self), final(interconnect),
                machine(old(self), old(interconnect)).with_pc(machine(old(self), old(interconnect)).operand(mode).1)),
    {
        let ghost m = machine(old(self), old(interconnect));
        let r = if mode == AddressingMode::IndexedIndirect {
            let index = self.load_next_byte_bump_pc(interconnect).wrapping_add(self.registers.x);
            Operand::Address(self.zero_page_addr(interconnect, index))
        } else {
            let index = self.load_next_byte_bump_pc(interconnect);
            Operand::Address(self.zero_page_addr(interconnect, index).wrapping_add(self.registers.y as u16))
        };
        assert(machine(final(self), final(interconnect)) =~= m.with_pc(m.operand(mode).1));
        r
    }

    /// Reads the operand bytes of `mode` and resolves them; pc moves past them.
    fn init_operand(&mut self, interconnect: &mut Interconnect, mode: AddressingMode) -> (r: Operand)
        requires
            old(self).wf(),
            old(interconnect).cart@.wf(),
            mode != AddressingMode::Indirect,
            machine(old(self), old(interconnect)).operand_ok(mode),
        ensures
            r == machine(old(self), old(interconnect)).operand(mode).0,
            machine_is(old(self), old(interconnect), final(self), final(interconnect),
                machine(old(self), old(interconnect)).with_pc(machine(old(self), old(interconnect)).operand(mode).1)),
    {
        match mode {
            AddressingMode::Immediate | AddressingMode::Relative | AddressingMode::ZeroPage
            | AddressingMode::ZeroPageIndexedX | AddressingMode::ZeroPageIndexedY => {
                self.init_byte_operand(interconnect, mode)
            },
            AddressingMode::Absolute | AddressingMode::AbsoluteIndexedX | AddressingMode::AbsoluteIndexedY => {
                self.init_word_operand(interconnect, mode)
            },
            AddressingMode::IndexedIndirect | AddressingMode::IndirectIndexed => {
                self.init_pointer_operand(interconnect, mode)
            },
            _ => {
                assert(machine(old(self), old(interconnect)) =~= machine(old(self), old(interconnect)).with_pc(
                    machine(old(self), old(interconnect)).operand(mode).1));
                Operand::Accumulator
            },
        }
    }

    /// Reads an operand.
    fn load(&mut self, interconnect: &mut Interconnect, am: Operand) -> (r: u8)
        requires
            old(self).wf(),
            old(interconnect).cart@.wf(),
            machine(old(self), old(interconnect)).load_ok(am),
        ensures
            r == machine(old(self), old(interconnect)).load(am),
            *final(self) == *old(self),
            *final(interconnect) == *old(interconnect),
    {
        match am {
            Operand::Accumulator => self.registers.a,
            Operand::Value(v) => v,
            Operand::Address(addr) => self.fetch_byte(interconnect, addr),
        }
    }

    /// Writes an operand.
    fn store_operand(&mut self, interconnect: &mut Interconnect, am: Operand, val: u8)
        requires
            old(self).wf(),
            old(interconnect).cart@.wf(),
            machine(old(self), old(interconnect)).store_ok(am),
        ensures
            machine_is(old(self), old(interconnect), final(self), final(interconnect),
                machine(old(self), old(interconnect)).store(am, val)),
    {
        match am {
            Operand::Accumulator => {
                self.registers.a = val;
                assert(machine(final(self), final(interconnect)) =~= machine(old(self), old(interconnect)).store(am, val));
            },
            Operand::Address(addr) => {
                self.store(interconnect, addr, val);
            },
            Operand::Value(_) => {},
        }
    }

    fn set_zn(&mut self, val: u8)
        ensures
            final(self)@.registers == (Registers { p: with_zn(old(self)@.registers.p, val), ..old(self)@.registers }),
            final(self)@.ram == old(self)@.ram,
            final(self)@.cycles == old(self)@.cycles,
            final(self).wf() == old(self).wf(),
    {
        self.set_flag(ZERO, val == 0);
        let n = negative(val);
        self.set_flag(NEGATIVE, n);
    }

    // Branches
    fn branch(&mut self, am: Operand, mask: u8, set: bool)
        requires
            old(self).wf(),
            am is Value,
        ensures
            final(self)@.ram == old(self)@.ram,
            final(self)@.cycles == old(self)@.cycles,
            final(self).wf(),
            final(self)@.registers == cpu_machine(old(self)).branch(am, mask, set).regs,
    {
        if let Operand::Value(arg) = am {
            let ext: u16 = (arg as i8) as u16;
            assert(ext as int == (if arg < 128 { arg as int } else { arg as int + 0xFF00 })) by (bit_vector)
                requires
                    ext == (arg as i8) as u16,
            ;
            let offset_addr = self.registers.pc.wrapping_add(ext);
            if set == (self.registers.p & mask != 0) {
                self.registers.pc = offset_addr;
            }
        }
    }

    fn bcs(&mut self, am: Operand)
        requires old(self).wf(), am is Value,
        ensures cpu_effect(old(self), final(self), cpu_machine(old(self)).apply(Instruction::BCS, am)),
    { self.branch(am, CARRY, true); }

    fn bcc(&mut self, am: Operand)
        requires old(self).wf(), am is Value,
        ensures cpu_effect(old(self), final(self), cpu_machine(old(self)).apply(Instruction::BCC, am)),
    { self.branch(am, CARRY, false); }

    fn beq(&mut self, am: Operand)
        requires old(self).wf(), am is Value,
        ensures cpu_effect(old(self), final(self), cpu_machine(old(self)).apply(Instruction::BEQ, am)),
    { self.branch(am, ZERO, true); }

    fn bne(&mut self, am: Operand)
        requires old(self).wf(), am is Value,
        ensures cpu_effect(old(self), final(self), cpu_machine(old(self)).apply(Instruction::BNE, am)),
    { self.branch(am, ZERO, false); }

    fn bvs(&mut self, am: Operand)
        requires old(self).wf(), am is Value,
        ensures cpu_effect(old(self), final(self), cpu_machine(old(self)).apply(Instruction::BVS, am)),
    { self.branch(am, OVERFLOW, true); }

    fn bvc(&mut self, am: Operand)
        requires old(self).wf(), am is Value,
        ensures cpu_effect(old(self), final(self), cpu_machine(old(self)).apply(Instruction::BVC, am)),
    { self.branch(am, OVERFLOW, false); }

    fn bpl(&mut self, am: Operand)
        requires old(self).wf(), am is Value,
        ensures cpu_effect(old(self), final(self), cpu_machine(old(self)).apply(Instruction::BPL, am)),
    { self.branch(am, NEGATIVE, false); }

    fn bmi(&mut self, am: Operand)
        requires old(self).wf(), am is Value,
        ensures cpu_effect(old(self), final(self), cpu_machine(old(self)).apply(Instruction::BMI, am)),
    { self.branch(am, NEGATIVE, true); }

    // Flag sets
    fn sec(&mut self)
        requires old(self).wf(),
        ensures cpu_effect(old(self), final(self), cpu_machine(old(self)).apply(Instruction::SEC, Operand::Accumulator)),
    { self.set_flag(CARRY, true); }

    fn sei(&mut self)
        requires old(self).wf(),
        ensures cpu_effect(old(self), final(self), cpu_machine(old(self)).apply(Instruction::SEI, Operand::Accumulator)),
    { self.set_flag(INTERRUPT, true); }

    fn sed(&mut self)
        requires old(self).wf(),
        ensures cpu_effect(old(self), final(self), cpu_machine(old(self)).apply(Instruction::SED, Operand::Accumulator)),
    { self.set_flag(DECIMAL, true); }

    // Flag clears
    fn clc(&mut self)
        requires old(self).wf(),
        ensures cpu_effect(old(self), final(self), cpu_machine(old(self)).apply(Instruction::CLC, Operand::Accumulator)),
    { self.set_flag(CARRY, false); }

    fn cld(&mut self)
        requires old(self).wf(),
        ensures cpu_effect(old(self), final(self), cpu_machine(old(self)).apply(Instruction::CLD, Operand::Accumulator)),
    { self.set_flag(DECIMAL, false); }

    fn clv(&mut self)
        requires old(self).wf(),
        ensures cpu_effect(old(self), final(self), cpu_machine(old(self)).apply(Instruction::CLV, Operand::Accumulator)),
    { self.set_flag(OVERFLOW, false); }

    // Stack
    fn php(&mut self)
        requires old(self).wf(), old(self)@.registers.s > 0,
        ensures cpu_effect(old(self), final(self), cpu_machine(old(self)).apply(Instruction::PHP, Operand::Accumulator)),
    {
        let p = self.registers.p | STACK_COPY;
        self.stack_push_byte(p);
    }

    fn pla(&mut self)
        requires old(self).wf(), old(self)@.registers.s < 255,
        ensures cpu_effect(old(self), final(self), cpu_machine(old(self)).apply(Instruction::PLA, Operand::Accumulator)),
    {
        self.registers.a = self.stack_pop_byte();
        let a = self.registers.a;
        self.set_zn(a);
    }

    fn pha(&mut self)
        requires old(self).wf(), old(self)@.registers.s > 0,
        ensures cpu_effect(old(self), final(self), cpu_machine(old(self)).apply(Instruction::PHA, Operand::Accumulator)),
    {
        let a = self.registers.a;
        self.stack_push_byte(a);
    }

    fn plp(&mut self)
        requires old(self).wf(), old(self)@.registers.s < 255,
        ensures cpu_effect(old(self), final(self), cpu_machine(old(self)).apply(Instruction::PLP, Operand::Accumulator)),
    {
        let p = self.stack_pop_byte();
        // PLP ignores bit 4
        self.registers.p = p & 0b1110_1111;
        self.set_flag(ALWAYS_SET, true);
    }
}


/// ALU, memory and jump instructions.
impl Cpu {
    fn adc(&mut self, interconnect: &mut Interconnect, am: Operand)
        requires
            old(self).wf(),
            old(interconnect).cart@.wf(),
            machine(old(self), old(interconnect)).apply_ok(Instruction::ADC, am),
        ensures
            machine_is(old(self), old(interconnect), final(self), final(interconnect),
                machine(old(self), old(interconnect)).apply(Instruction::ADC, am)),
    {
        let ghost m = machine(old(self), old(interconnect));
        let a = self.registers.a;
        let m_val = self.load(interconnect, am);
        let c: u8 = if self.registers.p & CARRY != 0 { 1 } else { 0 };
        let result = a.wrapping_add(m_val).wrapping_add(c);
        assert(result == wrap8(a + m_val + c));
        self.registers.a = result;
        self.set_flag(ZERO, result == 0);
        let v = (!(a ^ m_val) & (a ^ result) & 0x80u8) != 0;
        assert(v == ((a >= 128) == (m_val >= 128) && (result >= 128) != (a >= 128))) by (bit_vector)
            requires
                v == ((!(a ^ m_val) & (a ^ result) & 0x80u8) != 0),
        ;
        self.set_flag(OVERFLOW, v);
        self.set_flag(CARRY, (a as u16 + m_val as u16 + c as u16) > (result as u16));
        let n = negative(result);
        self.set_flag(NEGATIVE, n);
        assert(machine(final(self), final(interconnect)) =~= m.apply(Instruction::ADC, am));
    }

    /// Subtract with carry: adds the complement of the operand, so that A
    /// becomes A - M - (1 - C) and the carry means no borrow.
    fn sbc(&mut self, interconnect: &mut Interconnect, am: Operand)
        requires
            old(self).wf(),
            old(interconnect).cart@.wf(),
            machine(old(self), old(interconnect)).apply_ok(Instruction::SBC, am),
        ensures
            machine_is(old(self), old(interconnect), final(self), final(interconnect),
                machine(old(self), old(interconnect)).apply(Instruction::SBC, am)),
    {
        let ghost m = machine(old(self), old(interconnect));
        let a = self.registers.a;
        let m_val = !self.load(interconnect, am);
        let c: u8 = if self.registers.p & CARRY != 0 { 1 } else { 0 };
        let result = a.wrapping_add(m_val).wrapping_add(c);
        assert(result == wrap8(a + m_val + c));
        self.registers.a = result;
        self.set_flag(ZERO, result == 0);
        let v = (!(a ^ m_val) & (a ^ result) & 0x80u8) != 0;
        assert(v == ((a >= 128) == (m_val >= 128) && (result >= 128) != (a >= 128))) by (bit_vector)
            requires
                v == ((!(a ^ m_val) & (a ^ result) & 0x80u8) != 0),
        ;
        self.set_flag(OVERFLOW, v);
        self.set_flag(CARRY, (a as u16 + m_val as u16 + c as u16) > (result as u16));
        let n = negative(result);
        self.set_flag(NEGATIVE, n);
        assert(machine(final(self), final(interconnect)) =~= m.apply(Instruction::SBC, am));
    }

    fn asl(&mut self, interconnect: &mut Interconnect, am: Operand)
        requires
            old(self).wf(),
            old(interconnect).cart@.wf(),
            machine(old(self), old(interconnect)).apply_ok(Instruction::ASL, am),
        ensures
            machine_is(old(self), old(interconnect), final(self), final(interconnect),
                machine(old(self), old(interconnect)).apply(Instruction::ASL, am)),
    {
        let ghost m = machine(old(self), old(interconnect));
        let arg = self.load(interconnect, am);
        // set based on original value
        let c = negative(arg);
        self.set_flag(CARRY, c);
        let r = arg << 1u8;
        assert(r == wrap8(2 * arg)) by (bit_vector)
            requires
                r == arg << 1u8,
        ;
        self.store_operand(interconnect, am, r);
        self.set_zn(r);
        assert(machine(final(self), final(interconnect)) =~= m.apply(Instruction::ASL, am));
    }

    fn lsr(&mut self, interconnect: &mut Interconnect, am: Operand)
        requires
            old(self).wf(),
            old(interconnect).cart@.wf(),
            machine(old(self), old(interconnect)).apply_ok(Instruction::LSR, am),
        ensures
            machine_is(old(self), old(interconnect), final(self), final(interconnect),
                machine(old(self), old(interconnect)).apply(Instruction::LSR, am)),
    {
        let ghost m = machine(old(self), old(interconnect));
        let arg = self.load(interconnect, am);
        // set based on original value
        let c = arg & 1u8 != 0;
        assert(c == (arg % 2 == 1)) by (bit_vector)
            requires
                c == (arg & 1u8 != 0),
        ;
        self.set_flag(CARRY, c);
        let r = arg >> 1u8;
        assert(r == arg / 2) by (bit_vector)
            requires
                r == arg >> 1u8,
        ;
        self.store_operand(interconnect, am, r);
        self.set_zn(r);
        assert(machine(final(self), final(interconnect)) =~= m.apply(Instruction::LSR, am));
    }

    fn rol(&mut self, interconnect: &mut Interconnect, am: Operand)
        requires
            old(self).wf(),
            old(interconnect).cart@.wf(),
            machine(old(self), old(interconnect)).apply_ok(Instruction::ROL, am),
        ensures
            machine_is(old(self), old(interconnect), final(self), final(interconnect),
                machine(old(self), old(interconnect)).apply(Instruction::ROL, am)),
    {
        let ghost m = machine(old(self), old(interconnect));
        let arg = self.load(interconnect, am);
        let old_carry: u8 = if self.registers.p & CARRY != 0 { 1 } else { 0 };
        let c = negative(arg);
        self.set_flag(CARRY, c);
        let r = (arg << 1u8) | old_carry;
        assert(r == wrap8(2 * arg) + old_carry) by (bit_vector)
            requires
                r == (arg << 1u8) | old_carry,
                old_carry <= 1,
        ;
        self.store_operand(interconnect, am, r);
        self.set_zn(r);
        assert(machine(final(self), final(interconnect)) =~= m.apply(Instruction::ROL, am));
    }

    fn ror(&mut self, interconnect: &mut Interconnect, am: Operand)
        requires
            old(self).wf(),
            old(interconnect).cart@.wf(),
            machine(old(self), old(interconnect)).apply_ok(Instruction::ROR, am),
        ensures
            machine_is(old(self), old(interconnect), final(self), final(interconnect),
                machine(old(self), old(interconnect)).apply(Instruction::ROR, am)),
    {
        let ghost m = machine(old(self), old(interconnect));
        let arg = self.load(interconnect, am);
        let old_carry: u8 = if self.registers.p & CARRY != 0 { 0x80u8 } else { 0 };
        let c = arg & 1u8 != 0;
        assert(c == (arg % 2 == 1)) by (bit_vector)
            requires
                c == (arg & 1u8 != 0),
        ;
        self.set_flag(CARRY, c);
        let r = (arg >> 1u8) | old_carry;
        assert(r == arg / 2 + old_carry) by (bit_vector)
            requires
                r == (arg >> 1u8) | old_carry,
                old_carry == 0 || old_carry == 128,
        ;
        self.store_operand(interconnect, am, r);
        self.set_zn(r);
        assert(machine(final(self), final(interconnect)) =~= m.apply(Instruction::ROR, am));
    }

    fn and(&mut self, interconnect: &mut Interconnect, am: Operand)
        requires
            old(self).wf(),
            old(interconnect).cart@.wf(),
            machine(old(self), old(interconnect)).apply_ok(Instruction::AND, am),
        ensures
            machine_is(old(self), old(interconnect), final(self), final(interconnect),
                machine(old(self), old(interconnect)).apply(Instruction::AND, am)),
    {
        let ghost m = machine(old(self), old(interconnect));
        let a = self.registers.a & self.load(interconnect, am);
        self.registers.a = a;
        self.set_zn(a);
        assert(machine(final(self), final(interconnect)) =~= m.apply(Instruction::AND, am));
    }

    fn ora(&mut self, interconnect: &mut Interconnect, am: Operand)
        requires
            old(self).wf(),
            old(interconnect).cart@.wf(),
            machine(old(self), old(interconnect)).apply_ok(Instruction::ORA, am),
        ensures
            machine_is(old(self), old(interconnect), final(self), final(interconnect),
                machine(old(self), old(interconnect)).apply(Instruction::ORA, am)),
    {
        let ghost m = machine(old(self), old(interconnect));
        let a = self.registers.a;
        let v = self.load(interconnect, am);
        self.registers.a = a | v;
        self.set_zn(a | v);
        assert(machine(final(self), final(interconnect)) =~= m.apply(Instruction::ORA, am));
    }

    fn eor(&mut self, interconnect: &mut Interconnect, am: Operand)
        requires
            old(self).wf(),
            old(interconnect).cart@.wf(),
            machine(old(self), old(interconnect)).apply_ok(Instruction::EOR, am),
        ensures
            machine_is(old(self), old(interconnect), final(self), final(interconnect),
                machine(old(self), old(interconnect)).apply(Instruction::EOR, am)),
    {
        let ghost m = machine(old(self), old(interconnect));
        let a = self.registers.a;
        let v = self.load(interconnect, am);
        self.registers.a = a ^ v;
        self.set_zn(a ^ v);
        assert(machine(final(self), final(interconnect)) =~= m.apply(Instruction::EOR, am));
    }

    fn bit(&mut self, interconnect: &mut Interconnect, am: Operand)
        requires
            old(self).wf(),
            old(interconnect).cart@.wf(),
            machine(old(self), old(interconnect)).apply_ok(Instruction::BIT, am),
        ensures
            machine_is(old(self), old(interconnect), final(self), final(interconnect),
                machine(old(self), old(interconnect)).apply(Instruction::BIT, am)),
    {
        let ghost m = machine(old(self), old(interconnect));
        let a = self.registers.a;
        let v = self.load(interconnect, am);
        self.set_flag(ZERO, a & v == 0);
        self.set_flag(OVERFLOW, v & 0x40u8 != 0);
        let n = negative(v);
        self.set_flag(NEGATIVE, n);
        assert(machine(final(self), final(interconnect)) =~= m.apply(Instruction::BIT, am));
    }

    fn compare(&mut self, lhs: u8, rhs: u8)
        ensures
            final(self)@.registers == cpu_machine(old(self)).compare(lhs, rhs).regs,
            final(self)@.ram == old(self)@.ram,
            final(self)@.cycles == old(self)@.cycles,
            final(self).wf() == old(self).wf(),
    {
        self.set_flag(CARRY, lhs >= rhs);
        self.set_flag(ZERO, lhs == rhs);
        let d = lhs.wrapping_sub(rhs);
        assert(d == wrap8(lhs - rhs));
        let n = negative(d);
        self.set_flag(NEGATIVE, n);
    }

    fn cmp(&mut self, interconnect: &mut Interconnect, am: Operand)
        requires
            old(self).wf(),
            old(interconnect).cart@.wf(),
            machine(old(self), old(interconnect)).apply_ok(Instruction::CMP, am),
        ensures
            machine_is(old(self), old(interconnect), final(self), final(interconnect),
                machine(old(self), old(interconnect)).apply(Instruction::CMP, am)),
    {
        let ghost m = machine(old(self), old(interconnect));
        let a = self.registers.a;
        let v = self.load(interconnect, am);
        self.compare(a, v);
        assert(machine(final(self), final(interconnect)) =~= m.apply(Instruction::CMP, am));
    }

    fn cpx(&mut self, interconnect: &mut Interconnect, am: Operand)
        requires
            old(self).wf(),
            old(interconnect).cart@.wf(),
            machine(old(self), old(interconnect)).apply_ok(Instruction::CPX, am),
        ensures
            machine_is(old(self), old(interconnect), final(self), final(interconnect),
                machine(old(self), old(interconnect)).apply(Instruction::CPX, am)),
    {
        let ghost m = machine(old(self), old(interconnect));
        let x = self.registers.x;
        let v = self.load(interconnect, am);
        self.compare(x, v);
        assert(machine(final(self), final(interconnect)) =~= m.apply(Instruction::CPX, am));
    }

    fn cpy(&mut self, interconnect: &mut Interconnect, am: Operand)
        requires
            old(self).wf(),
            old(interconnect).cart@.wf(),
            machine(old(self), old(interconnect)).apply_ok(Instruction::CPY, am),
        ensures
            machine_is(old(self), old(interconnect), final(self), final(interconnect),
                machine(old(self), old(interconnect)).apply(Instruction::CPY, am)),
    {
        let ghost m = machine(old(self), old(interconnect));
        let y = self.registers.y;
        let v = self.load(interconnect, am);
        self.compare(y, v);
        assert(machine(final(self), final(interconnect)) =~= m.apply(Instruction::CPY, am));
    }

    // Increments and decrements
    fn inc(&mut self, interconnect: &mut Interconnect, am: Operand)
        requires
            old(self).wf(),
            old(interconnect).cart@.wf(),
            machine(old(self), old(interconnect)).apply_ok(Instruction::INC, am),
        ensures
            machine_is(old(self), old(interconnect), final(self), final(interconnect),
                machine(old(self), old(interconnect)).apply(Instruction::INC, am)),
    {
        let ghost m = machine(old(self), old(interconnect));
        let v = self.load(interconnect, am);
        let val = v.wrapping_add(1);
        self.set_zn(val);
        self.store_operand(interconnect, am, val);
        assert(machine(final(self), final(interconnect)) =~= m.apply(Instruction::INC, am));
    }

    fn dec(&mut self, interconnect: &mut Interconnect, am: Operand)
        requires
            old(self).wf(),
            old(interconnect).cart@.wf(),
            machine(old(self), old(interconnect)).apply_ok(Instruction::DEC, am),
        ensures
            machine_is(old(self), old(interconnect), final(self), final(interconnect),
                machine(old(self), old(interconnect)).apply(Instruction::DEC, am)),
    {
        let ghost m = machine(old(self), old(interconnect));
        let v = self.load(interconnect, am);
        let val = v.wrapping_sub(1);
        assert(val == wrap8(v + 255));
        self.set_zn(val);
        self.store_operand(interconnect, am, val);
        assert(machine(final(self), final(interconnect)) =~= m.apply(Instruction::DEC, am));
    }

    fn inx(&mut self)
        requires old(self).wf(),
        ensures cpu_effect(old(self), final(self), cpu_machine(old(self)).apply(Instruction::INX, Operand::Accumulator)),
    {
        let x = self.registers.x.wrapping_add(1);
        self.registers.x = x;
        self.set_zn(x);
    }

    fn iny(&mut self)
        requires old(self).wf(),
        ensures cpu_effect(old(self), final(self), cpu_machine(old(self)).apply(Instruction::INY, Operand::Accumulator)),
    {
        let y = self.registers.y.wrapping_add(1);
        self.registers.y = y;
        self.set_zn(y);
    }

    fn dex(&mut self)
        requires old(self).wf(),
        ensures cpu_effect(old(self), final(self), cpu_machine(old(self)).apply(Instruction::DEX, Operand::Accumulator)),
    {
        self.registers.x = self.registers.x.wrapping_sub(1);
        let x = self.registers.x;
        assert(x == wrap8(old(self)@.registers.x + 255));
        self.set_zn(x);
    }

    fn dey(&mut self)
        requires old(self).wf(),
        ensures cpu_effect(old(self), final(self), cpu_machine(old(self)).apply(Instruction::DEY, Operand::Accumulator)),
    {
        self.registers.y = self.registers.y.wrapping_sub(1);
        let y = self.registers.y;
        assert(y == wrap8(old(self)@.registers.y + 255));
        self.set_zn(y);
    }

    // Transfers
    fn tax(&mut self)
        requires old(self).wf(),
        ensures cpu_effect(old(self), final(self), cpu_machine(old(self)).apply(Instruction::TAX, Operand::Accumulator)),
    {
        self.registers.x = self.registers.a;
        let x = self.registers.x;
        self.set_zn(x);
    }

    fn tay(&mut self)
        requires old(self).wf(),
        ensures cpu_effect(old(self), final(self), cpu_machine(old(self)).apply(Instruction::TAY, Operand::Accumulator)),
    {
        self.registers.y = self.registers.a;
        let y = self.registers.y;
        self.set_zn(y);
    }

    fn tsx(&mut self)
        requires old(self).wf(),
        ensures cpu_effect(old(self), final(self), cpu_machine(old(self)).apply(Instruction::TSX, Operand::Accumulator)),
    {
        self.registers.x = self.registers.s;
        let x = self.registers.x;
        self.set_zn(x);
    }

    fn txa(&mut self)
        requires old(self).wf(),
        ensures cpu_effect(old(self), final(self), cpu_machine(old(self)).apply(Instruction::TXA, Operand::Accumulator)),
    {
        self.registers.a = self.registers.x;
        let a = self.registers.a;
        self.set_zn(a);
    }

    fn txs(&mut self)
        requires old(self).wf(),
        ensures cpu_effect(old(self), final(self), cpu_machine(old(self)).apply(Instruction::TXS, Operand::Accumulator)),
    {
        self.registers.s = self.registers.x;
    }

    fn tya(&mut self)
        requires old(self).wf(),
        ensures cpu_effect(old(self), final(self), cpu_machine(old(self)).apply(Instruction::TYA, Operand::Accumulator)),
    {
        self.registers.a = self.registers.y;
        let a = self.registers.a;
        self.set_zn(a);
    }

    // Loads
    fn lda(&mut self, interconnect: &mut Interconnect, am: Operand)
        requires
            old(self).wf(),
            old(interconnect).cart@.wf(),
            machine(old(self), old(interconnect)).apply_ok(Instruction::LDA, am),
        ensures
            machine_is(old(self), old(interconnect), final(self), final(interconnect),
                machine(old(self), old(interconnect)).apply(Instruction::LDA, am)),
    {
        let ghost m = machine(old(self), old(interconnect));
        self.registers.a = self.load(interconnect, am);
        let a = self.registers.a;
        self.set_zn(a);
        assert(machine(final(self), final(interconnect)) =~= m.apply(Instruction::LDA, am));
    }

    fn ldx(&mut self, interconnect: &mut Interconnect, am: Operand)
        requires
            old(self).wf(),
            old(interconnect).cart@.wf(),
            machine(old(self), old(interconnect)).apply_ok(Instruction::LDX, am),
        ensures
            machine_is(old(self), old(interconnect), final(self), final(interconnect),
                machine(old(self), old(interconnect)).apply(Instruction::LDX, am)),
    {
        let ghost m = machine(old(self), old(interconnect));
        self.registers.x = self.load(interconnect, am);
        let x = self.registers.x;
        self.set_zn(x);
        assert(machine(final(self), final(interconnect)) =~= m.apply(Instruction::LDX, am));
    }

    fn ldy(&mut self, interconnect: &mut Interconnect, am: Operand)
        requires
            old(self).wf(),
            old(interconnect).cart@.wf(),
            machine(old(self), old(interconnect)).apply_ok(Instruction::LDY, am),
        ensures
            machine_is(old(self), old(interconnect), final(self), final(interconnect),
                machine(old(self), old(interconnect)).apply(Instruction::LDY, am)),
    {
        let ghost m = machine(old(self), old(interconnect));
        self.registers.y = self.load(interconnect, am);
        let y = self.registers.y;
        self.set_zn(y);
        assert(machine(final(self), final(interconnect)) =~= m.apply(Instruction::LDY, am));
    }

    // Stores
    fn sta(&mut self, interconnect: &mut Interconnect, am: Operand)
        requires
            old(self).wf(),
            old(interconnect).cart@.wf(),
            machine(old(self), old(interconnect)).apply_ok(Instruction::STA, am),
        ensures
            machine_is(old(self), old(interconnect), final(self), final(interconnect),
                machine(old(self), old(interconnect)).apply(Instruction::STA, am)),
    {
        let a = self.registers.a;
        self.store_operand(interconnect, am, a);
    }

    fn stx(&mut self, interconnect: &mut Interconnect, am: Operand)
        requires
            old(self).wf(),
            old(interconnect).cart@.wf(),
            machine(old(self), old(interconnect)).apply_ok(Instruction::STX, am),
        ensures
            machine_is(old(self), old(interconnect), final(self), final(interconnect),
                machine(old(self), old(interconnect)).apply(Instruction::STX, am)),
    {
        let x = self.registers.x;
        self.store_operand(interconnect, am, x);
    }

    fn sty(&mut self, interconnect: &mut Interconnect, am: Operand)
        requires
            old(self).wf(),
            old(interconnect).cart@.wf(),
            machine(old(self), old(interconnect)).apply_ok(Instruction::STY, am),
        ensures
            machine_is(old(self), old(interconnect), final(self), final(interconnect),
                machine(old(self), old(interconnect)).apply(Instruction::STY, am)),
    {
        let y = self.registers.y;
        self.store_operand(interconnect, am, y);
    }

    fn nop(&mut self)
        ensures
            *final(self) == *old(self),
    {
    }
}


/// Whether an addressing mode suits an instruction as the opcode table
/// pairs them.
pub open spec fn pair_ok(inst: Instruction, mode: AddressingMode) -> bool {
    match inst {
        Instruction::BPL | Instruction::BMI | Instruction::BVC | Instruction::BVS | Instruction::BCC
        | Instruction::BCS | Instruction::BNE | Instruction::BEQ => mode == AddressingMode::Relative,
        Instruction::JMP => mode == AddressingMode::Absolute || mode == AddressingMode::Indirect,
        Instruction::JSR => mode == AddressingMode::Absolute,
        _ => mode != AddressingMode::Indirect && (implied_inst(inst) ==> mode == AddressingMode::Implied),
    }
}

/// Instructions that use only the registers and the stack: all but the
/// branches, the jumps and those that read or write an operand.
pub open spec fn implied_inst(inst: Instruction) -> bool {
    match inst {
        Instruction::BPL | Instruction::BMI | Instruction::BVC | Instruction::BVS | Instruction::BCC
        | Instruction::BCS | Instruction::BNE | Instruction::BEQ | Instruction::JMP | Instruction::JSR
        | Instruction::ADC | Instruction::SBC | Instruction::AND | Instruction::ORA | Instruction::EOR
        | Instruction::ASL | Instruction::LSR | Instruction::ROL | Instruction::ROR | Instruction::BIT
        | Instruction::CMP | Instruction::CPX | Instruction::CPY | Instruction::INC | Instruction::DEC
        | Instruction::LDA | Instruction::LDX | Instruction::LDY | Instruction::STA | Instruction::STX
        | Instruction::STY => false,
        _ => true,
    }
}

/// Every entry of the opcode table pairs an instruction with a suitable mode.
pub proof fn lemma_table_pairs(op: u8)
    ensures
        opcode_table(op) matches Some((inst, mode)) ==> pair_ok(inst, mode),
{
}

/// Jumps, returns and the interpreter loop.
impl Cpu {
    fn jmp_absolute(&mut self, interconnect: &mut Interconnect)
        requires
            old(self).wf(),
            old(interconnect).cart@.wf(),
            machine(old(self), old(interconnect)).run_ok(Instruction::JMP, AddressingMode::Absolute),
        ensures
            machine_is(old(self), old(interconnect), final(self), final(interconnect),
                machine(old(self), old(interconnect)).run(Instruction::JMP, AddressingMode::Absolute)),
    {
        let ghost m = machine(old(self), old(interconnect));
        let addr = self.load_next_word_bump_pc(interconnect);
        self.registers.pc = addr;
        assert(machine(final(self), final(interconnect)) =~= m.run(Instruction::JMP, AddressingMode::Absolute));
    }

    fn jmp_indirect(&mut self, interconnect: &mut Interconnect)
        requires
            old(self).wf(),
            old(interconnect).cart@.wf(),
            machine(old(self), old(interconnect)).run_ok(Instruction::JMP, AddressingMode::Indirect),
        ensures
            machine_is(old(self), old(interconnect), final(self), final(interconnect),
                machine(old(self), old(interconnect)).run(Instruction::JMP, AddressingMode::Indirect)),
    {
        let ghost m = machine(old(self), old(interconnect));
        let addr = self.load_next_word_bump_pc(interconnect);
        // Handle page boundary
        let low_page = addr & 0xFFu16;
        assert(low_page == addr % 256) by (bit_vector)
            requires
                low_page == addr & 0xFFu16,
        ;
        let final_addr = if low_page == 0xFF {
            let hi = self.fetch_byte(interconnect, addr + 1 - 0x100);
            let lo = self.fetch_byte(interconnect, addr);
            assert(((hi as u16) << 8u16) | (lo as u16) == lo + 256 * hi) by (bit_vector);
            ((hi as u16) << 8u16) | (lo as u16)
        } else {
            self.fetch_word(interconnect, addr)
        };
        self.registers.pc = final_addr;
        assert(machine(final(self), final(interconnect)) =~= m.run(Instruction::JMP, AddressingMode::Indirect));
    }

    fn jsr(&mut self, interconnect: &mut Interconnect)
        requires
            old(self).wf(),
            old(interconnect).cart@.wf(),
            machine(old(self), old(interconnect)).run_ok(Instruction::JSR, AddressingMode::Absolute),
        ensures
            machine_is(old(self), old(interconnect), final(self), final(interconnect),
                machine(old(self), old(interconnect)).run(Instruction::JSR, AddressingMode::Absolute)),
    {
        let ghost m = machine(old(self), old(interconnect));
        let target = self.load_next_word_bump_pc(interconnect);
        let addr = self.registers.pc - 1;
        self.stack_push_word(addr);
        self.registers.pc = target;
        assert(machine(final(self), final(interconnect)) =~= m.run(Instruction::JSR, AddressingMode::Absolute));
    }

    fn rts(&mut self)
        requires
            old(self).wf(),
            cpu_machine(old(self)).apply_ok(Instruction::RTS, Operand::Accumulator),
        ensures
            cpu_effect(old(self), final(self), cpu_machine(old(self)).apply(Instruction::RTS, Operand::Accumulator)),
    {
        self.registers.pc = self.stack_pop_word() + 1;
    }

    fn rti(&mut self)
        requires
            old(self).wf(),
            cpu_machine(old(self)).apply_ok(Instruction::RTI, Operand::Accumulator),
        ensures
            cpu_effect(old(self), final(self), cpu_machine(old(self)).apply(Instruction::RTI, Operand::Accumulator)),
    {
        let p = self.stack_pop_byte();
        let pc = self.stack_pop_word();
        self.registers.p = p;
        self.set_flag(ALWAYS_SET, true);
        self.registers.pc = pc;
    }

    /// Executes a decoded instruction; pc is just past its opcode.
    #[verifier::rlimit(100)]
    fn execute(&mut self, interconnect: &mut Interconnect, inst: Instruction, mode: AddressingMode)
        requires
            old(self).wf(),
            old(interconnect).cart@.wf(),
            pair_ok(inst, mode),
            machine(old(self), old(interconnect)).run_ok(inst, mode),
        ensures
            machine_is(old(self), old(interconnect), final(self), final(interconnect),
                machine(old(self), old(interconnect)).run(inst, mode)),
    {
        let ghost m = machine(old(self), old(interconnect));
        match inst {
            Instruction::JMP => {
                if mode == AddressingMode::Absolute {
                    self.jmp_absolute(interconnect);
                } else {
                    self.jmp_indirect(interconnect);
                }
            },
            Instruction::JSR => self.jsr(interconnect),
            Instruction::BPL | Instruction::BMI | Instruction::BVC | Instruction::BVS | Instruction::BCC
            | Instruction::BCS | Instruction::BNE | Instruction::BEQ => {
                let am = self.init_operand(interconnect, mode);
                match inst {
                    Instruction::BPL => self.bpl(am),
                    Instruction::BMI => self.bmi(am),
                    Instruction::BVC => self.bvc(am),
                    Instruction::BVS => self.bvs(am),
                    Instruction::BCC => self.bcc(am),
                    Instruction::BCS => self.bcs(am),
                    Instruction::BNE => self.bne(am),
                    _ => self.beq(am),
                }
                assert(machine(final(self), final(interconnect)) =~= m.run(inst, mode));
            },
            Instruction::ADC | Instruction::SBC | Instruction::AND | Instruction::ORA | Instruction::EOR
            | Instruction::ASL | Instruction::LSR | Instruction::ROL | Instruction::ROR | Instruction::BIT
            | Instruction::CMP | Instruction::CPX | Instruction::CPY | Instruction::INC | Instruction::DEC
            | Instruction::LDA | Instruction::LDX | Instruction::LDY | Instruction::STA | Instruction::STX
            | Instruction::STY => {
                let am = self.init_operand(interconnect, mode);
                self.execute_with_operand(interconnect, inst, am);
            },
            _ => {
                let am = self.init_operand(interconnect, mode);
                self.execute_implied(inst, Ghost(interconnect.cart@));
                assert(machine(final(self), final(interconnect)) =~= m.run(inst, mode));
            },
        }
    }

    /// Executes an instruction that reads or writes its operand.
    #[verifier::rlimit(100)]
    fn execute_with_operand(&mut self, interconnect: &mut Interconnect, inst: Instruction, am: Operand)
        requires
            old(self).wf(),
            old(interconnect).cart@.wf(),
            machine(old(self), old(interconnect)).apply_ok(inst, am),
        ensures
            inst == Instruction::ADC || inst == Instruction::SBC || inst == Instruction::AND
                || inst == Instruction::ORA || inst == Instruction::EOR || inst == Instruction::ASL
                || inst == Instruction::LSR || inst == Instruction::ROL || inst == Instruction::ROR
                || inst == Instruction::BIT || inst == Instruction::CMP || inst == Instruction::CPX
                || inst == Instruction::CPY || inst == Instruction::INC || inst == Instruction::DEC
                || inst == Instruction::LDA || inst == Instruction::LDX || inst == Instruction::LDY
                || inst == Instruction::STA || inst == Instruction::STX || inst == Instruction::STY
            ==> machine_is(old(self), old(interconnect), final(self), final(interconnect),
                machine(old(self), old(interconnect)).apply(inst, am)),
    {
        match inst {
            Instruction::ADC => self.adc(interconnect, am),
            Instruction::SBC => self.sbc(interconnect, am),
            Instruction::AND => self.and(interconnect, am),
            Instruction::ORA => self.ora(interconnect, am),
            Instruction::EOR => self.eor(interconnect, am),
            Instruction::ASL => self.asl(interconnect, am),
            Instruction::LSR => self.lsr(interconnect, am),
            Instruction::ROL => self.rol(interconnect, am),
            Instruction::ROR => self.ror(interconnect, am),
            Instruction::BIT => self.bit(interconnect, am),
            Instruction::CMP => self.cmp(interconnect, am),
            Instruction::CPX => self.cpx(interconnect, am),
            Instruction::CPY => self.cpy(interconnect, am),
            Instruction::INC => self.inc(interconnect, am),
            Instruction::DEC => self.dec(interconnect, am),
            Instruction::LDA => self.lda(interconnect, am),
            Instruction::LDX => self.ldx(interconnect, am),
            Instruction::LDY => self.ldy(interconnect, am),
            Instruction::STA => self.sta(interconnect, am),
            Instruction::STX => self.stx(interconnect, am),
            Instruction::STY => self.sty(interconnect, am),
            _ => {},
        }
    }

    /// Executes an instruction that uses only the registers and the stack.
    #[verifier::rlimit(100)]
    fn execute_implied(&mut self, inst: Instruction, Ghost(cart): Ghost<CartView>)
        requires
            old(self).wf(),
            implied_inst(inst),
            (MachineState { regs: old(self)@.registers, ram: old(self)@.ram, cart: cart }).apply_ok(
                inst, Operand::Accumulator),
        ensures
            cpu_effect(old(self), final(self),
                (MachineState { regs: old(self)@.registers, ram: old(self)@.ram, cart: cart }).apply(
                    inst, Operand::Accumulator)),
            (MachineState { regs: old(self)@.registers, ram: old(self)@.ram, cart: cart }).apply(
                inst, Operand::Accumulator).cart == cart,
    {
        match inst {
            Instruction::SEC => self.sec(),
            Instruction::SEI => self.sei(),
            Instruction::SED => self.sed(),
            Instruction::CLC => self.clc(),
            Instruction::CLD => self.cld(),
            Instruction::CLV => self.clv(),
            Instruction::PHP => self.php(),
            Instruction::PLP => self.plp(),
            Instruction::PHA => self.pha(),
            Instruction::PLA => self.pla(),
            Instruction::INX => self.inx(),
            Instruction::INY => self.iny(),
            Instruction::DEX => self.dex(),
            Instruction::DEY => self.dey(),
            Instruction::TAX => self.tax(),
            Instruction::TAY => self.tay(),
            Instruction::TSX => self.tsx(),
            Instruction::TXA => self.txa(),
            Instruction::TXS => self.txs(),
            Instruction::TYA => self.tya(),
            Instruction::RTI => self.rti(),
            Instruction::RTS => self.rts(),
            _ => self.nop(),
        }
    }

    /// Executes one instruction and returns its opcode.
    pub fn step(&mut self, interconnect: &mut Interconnect) -> (opcode: u8)
        requires
            old(self).wf(),
            old(interconnect).cart@.wf(),
            machine(old(self), old(interconnect)).step_ok(),
        ensures
            opcode == machine(old(self), old(interconnect)).opcode(),
            machine_is(old(self), old(interconnect), final(self), final(interconnect),
                machine(old(self), old(interconnect)).step()),
    {
        let opcode = self.load_next_byte_bump_pc(interconnect);
        match decode_opcode(opcode) {
            Some((inst, mode)) => {
                proof {
                    lemma_table_pairs(opcode);
                }
                self.execute(interconnect, inst, mode);
            },
            None => {},
        }
        opcode
    }
}


/// Deciding, without changing anything, whether the next instruction runs.
impl Cpu {
    fn is_readable(&self, interconnect: &Interconnect, addr: u16) -> (r: bool)
        ensures
            r == machine(self, interconnect).readable(addr),
    {
        addr < 0x2000 || (addr >= 0x4020 && interconnect.cart.prg_readable(addr))
    }

    fn read(&self, interconnect: &Interconnect, addr: u16) -> (r: u8)
        requires
            self.wf(),
            interconnect.cart@.wf(),
            machine(self, interconnect).readable(addr),
        ensures
            r == machine(self, interconnect).peek(addr),
    {
        if addr < 0x2000 {
            self.ram[(addr % 0x0800) as usize]
        } else {
            interconnect.read_byte(addr)
        }
    }

    fn read_word_checked(&self, interconnect: &Interconnect, addr: u16) -> (r: Option<u16>)
        requires
            self.wf(),
            interconnect.cart@.wf(),
        ensures
            r is Some <==> machine(self, interconnect).word_ok(addr),
            r matches Some(w) ==> w == machine(self, interconnect).word(addr),
    {
        if addr < 0xFFFF && self.is_readable(interconnect, addr) && self.is_readable(interconnect, addr + 1) {
            let lo = self.read(interconnect, addr);
            let hi = self.read(interconnect, addr + 1);
            Some(lo as u16 + 256 * hi as u16)
        } else {
            None
        }
    }

    fn zp_pointer(&self, interconnect: &Interconnect, index: u8) -> (r: u16)
        requires
            self.wf(),
            interconnect.cart@.wf(),
        ensures
            r == machine(self, interconnect).zp_pointer(index),
    {
        if index == 0xFF {
            256 * self.read(interconnect, 0) as u16 + self.read(interconnect, 0xFF) as u16
        } else {
            self.read(interconnect, index as u16) as u16 + 256 * self.read(interconnect, index as u16 + 1) as u16
        }
    }

    /// One-byte operands (see `operand_checked`).
    #[verifier::rlimit(50)]
    fn byte_operand_checked(&self, interconnect: &Interconnect, mode: AddressingMode, pc: u16) -> (r: Option<(Operand, u16)>)
        requires
            self.wf(),
            interconnect.cart@.wf(),
            mode == AddressingMode::Immediate || mode == AddressingMode::Relative || mode == AddressingMode::ZeroPage
                || mode == AddressingMode::ZeroPageIndexedX || mode == AddressingMode::ZeroPageIndexedY
                || mode == AddressingMode::IndexedIndirect || mode == AddressingMode::IndirectIndexed,
        ensures
            r is Some <==> machine(self, interconnect).with_pc(pc).operand_ok(mode),
            r matches Some(x) ==> x == machine(self, interconnect).with_pc(pc).operand(mode),
    {
        if pc == 0xFFFF || !self.is_readable(interconnect, pc) {
            return None;
        }
        let b = self.read(interconnect, pc);
        let o = match mode {
            AddressingMode::ZeroPage => Operand::Address(b as u16),
            AddressingMode::ZeroPageIndexedX => Operand::Address(b.wrapping_add(self.registers.x) as u16),
            AddressingMode::ZeroPageIndexedY => Operand::Address(b.wrapping_add(self.registers.y) as u16),
            AddressingMode::IndexedIndirect => Operand::Address(
                self.zp_pointer(interconnect, b.wrapping_add(self.registers.x)),
            ),
            AddressingMode::IndirectIndexed => Operand::Address(
                self.zp_pointer(interconnect, b).wrapping_add(self.registers.y as u16),
            ),
            _ => Operand::Value(b),
        };
        Some((o, pc + 1))
    }

    /// Two-byte operands (see `operand_checked`).
    #[verifier::rlimit(50)]
    fn word_operand_checked(&self, interconnect: &Interconnect, mode: AddressingMode, pc: u16) -> (r: Option<(Operand, u16)>)
        requires
            self.wf(),
            interconnect.cart@.wf(),
            mode == AddressingMode::Absolute || mode == AddressingMode::AbsoluteIndexedX
                || mode == AddressingMode::AbsoluteIndexedY || mode == AddressingMode::Indirect,
        ensures
            r is Some <==> machine(self, interconnect).with_pc(pc).operand_ok(mode),
            r matches Some(x) ==> x == machine(self, interconnect).with_pc(pc).operand(mode),
    {
        if pc >= 0xFFFE {
            return None;
        }
        match self.read_word_checked(interconnect, pc) {
            None => None,
            Some(w) => match mode {
                AddressingMode::AbsoluteIndexedX => Some((Operand::Address(w.wrapping_add(self.registers.x as u16)), pc + 2)),
                AddressingMode::AbsoluteIndexedY => Some((Operand::Address(w.wrapping_add(self.registers.y as u16)), pc + 2)),
                AddressingMode::Indirect => {
                    if w == 0xFFFF || !self.is_readable(interconnect, w) {
                        return None;
                    }
                    let low_page = w % 256 == 255;
                    let hi_addr = if low_page { w + 1 - 256 } else { w + 1 };
                    if !self.is_readable(interconnect, hi_addr) {
                        return None;
                    }
                    let lo = self.read(interconnect, w);
                    let hi = self.read(interconnect, hi_addr);
                    Some((Operand::Address(lo as u16 + 256 * hi as u16), pc + 2))
                },
                _ => Some((Operand::Address(w), pc + 2)),
            },
        }
    }

    /// The operand of `mode` for an instruction whose operand bytes start at
    /// `pc`, with the pc after them, when they can be read.
    fn operand_checked(&self, interconnect: &Interconnect, mode: AddressingMode, pc: u16) -> (r: Option<(Operand, u16)>)
        requires
            self.wf(),
            interconnect.cart@.wf(),
        ensures
            r is Some <==> machine(self, interconnect).with_pc(pc).operand_ok(mode),
            r matches Some(x) ==> x == machine(self, interconnect).with_pc(pc).operand(mode),
    {
        match mode {
            AddressingMode::Immediate | AddressingMode::Relative | AddressingMode::ZeroPage
            | AddressingMode::ZeroPageIndexedX | AddressingMode::ZeroPageIndexedY
            | AddressingMode::IndexedIndirect | AddressingMode::IndirectIndexed => {
                self.byte_operand_checked(interconnect, mode, pc)
            },
            AddressingMode::Absolute | AddressingMode::AbsoluteIndexedX | AddressingMode::AbsoluteIndexedY
            | AddressingMode::Indirect => self.word_operand_checked(interconnect, mode, pc),
            _ => Some((Operand::Accumulator, pc)),
        }
    }

    /// Whether `inst` with operand `o` runs, pc being `pc`.
    #[verifier::rlimit(50)]
    fn apply_checked(&self, interconnect: &Interconnect, inst: Instruction, o: Operand, pc: u16) -> (r: bool)
        requires
            self.wf(),
            interconnect.cart@.wf(),
        ensures
            r == machine(self, interconnect).with_pc(pc).apply_ok(inst, o),
    {
        let s = self.registers.s;
        let load_ok = match o {
            Operand::Address(addr) => self.is_readable(interconnect, addr),
            _ => true,
        };
        let store_ok = match o {
            Operand::Accumulator => true,
            Operand::Value(_) => false,
            Operand::Address(addr) => self.is_readable(interconnect, addr),
        };
        match inst {
            Instruction::BPL | Instruction::BMI | Instruction::BVC | Instruction::BVS
            | Instruction::BCC | Instruction::BCS | Instruction::BNE | Instruction::BEQ
            | Instruction::ADC | Instruction::SBC | Instruction::AND | Instruction::ORA
            | Instruction::EOR | Instruction::BIT | Instruction::CMP | Instruction::CPX
            | Instruction::CPY | Instruction::LDA | Instruction::LDX | Instruction::LDY => load_ok,
            Instruction::ASL | Instruction::LSR | Instruction::ROL | Instruction::ROR
            | Instruction::INC | Instruction::DEC => load_ok && store_ok,
            Instruction::STA | Instruction::STX | Instruction::STY => store_ok,
            Instruction::PHP | Instruction::PHA => s > 0,
            Instruction::PLP | Instruction::PLA => s < 255,
            Instruction::JSR => s >= 2 && pc >= 1,
            Instruction::RTI => s <= 252,
            Instruction::RTS => {
                if s > 253 {
                    false
                } else {
                    let lo = self.ram[s as usize + 0x101];
                    let hi = self.ram[s as usize + 0x102];
                    lo as u16 + 256 * (hi as u16) < 0xFFFF
                }
            },
            _ => true,
        }
    }

    /// Whether the instruction at pc is one `step` runs: its opcode is known
    /// and none of its reads, writes or register updates would fail.
    pub fn can_step(&self, interconnect: &Interconnect) -> (r: bool)
        requires
            self.wf(),
            interconnect.cart@.wf(),
        ensures
            r == machine(self, interconnect).step_ok(),
    {
        let pc = self.registers.pc;
        if pc == 0xFFFF || !self.is_readable(interconnect, pc) {
            return false;
        }
        let op = self.read(interconnect, pc);
        match decode_opcode(op) {
            None => false,
            Some((inst, mode)) => match self.operand_checked(interconnect, mode, pc + 1) {
                None => false,
                Some((o, pc2)) => {
                    proof {
                        let m = machine(self, interconnect);
                        assert(m.with_pc((pc + 1) as u16).with_pc(pc2) == m.with_pc(pc2));
                    }
                    self.apply_checked(interconnect, inst, o, pc2)
                },
            },
        }
    }
}

} // verus!
