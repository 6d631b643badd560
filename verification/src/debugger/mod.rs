//! The interactive debugger: its command language, the opcode labels it
//! prints, and what each command does to the console.
pub mod parser;

use vstd::prelude::*;
use std::collections::HashMap;
use crate::cpu::machine::{MachineState, Registers};
use crate::cpu::machine;
use crate::nes::Nes;
use crate::nes::cpu::instructions::{Instruction, opcode_table};

verus! {

broadcast use vstd::std_specs::hash::group_hash_axioms;

pub struct Debugger {
    pub nes: Nes,
    pub breakpoints: HashMap<usize, usize>,
}

/// Why a range of memory cannot be shown.
#[derive(Debug, Clone, Copy, PartialEq, Eq, Structural)]
pub enum RangeError {
    /// One of the bounds lies above $FFFF.
    InvalidAddress,
    /// The low bound lies above the high one.
    LowAboveHigh,
}

impl Debugger {
    pub open spec fn wf(&self) -> bool {
        self.nes.wf()
    }

    /// The state of the console's machine.
    pub open spec fn machine(&self) -> MachineState {
        machine(&self.nes.cpu, &self.nes.interconnect)
    }

    /// Takes the console, resets it and starts with no breakpoints.
    pub fn init(nes: Nes) -> (r: Self)
        requires
            nes.wf(),
        ensures
            r.wf(),
            r.breakpoints@ == Map::<usize, usize>::empty(),
            r.machine().regs == (Registers { pc: 0xC000, s: 0xFD, p: 0x24, ..machine(&nes.cpu, &nes.interconnect).regs }),
            r.machine().ram == machine(&nes.cpu, &nes.interconnect).ram,
            r.machine().cart == machine(&nes.cpu, &nes.interconnect).cart,
    {
        let mut debugger = Debugger { nes: nes, breakpoints: HashMap::new() };
        debugger.reset();
        debugger
    }

    /// Resets the console.
    pub fn reset(&mut self)
        requires
            old(self).wf(),
        ensures
            final(self).wf(),
            final(self).breakpoints@ == old(self).breakpoints@,
            final(self).machine().regs == (Registers { pc: 0xC000, s: 0xFD, p: 0x24, ..old(self).machine().regs }),
            final(self).machine().ram == old(self).machine().ram,
            final(self).machine().cart == old(self).machine().cart,
    {
        self.nes.reset();
    }

    /// The registers of the CPU.
    pub fn registers(&self) -> (r: Registers)
        ensures
            r == self.machine().regs,
    {
        self.nes.cpu.registers()
    }

    /// The CPU's cycle count.
    pub fn cycles(&self) -> (r: usize)
        ensures
            r == self.nes.cpu@.cycles,
    {
        self.nes.cpu.cycles()
    }

    /// Steps the console up to `num_steps` times and returns, for each step,
    /// its opcode and the registers after it. It stops early before an
    /// instruction that cannot run.
    pub fn step(&mut self, num_steps: usize) -> (trace: Vec<(u8, Registers)>)
        requires
            old(self).wf(),
        ensures
            final(self).wf(),
            final(self).breakpoints@ == old(self).breakpoints@,
            trace.len() <= num_steps,
            old(self).machine().runs_ok(trace.len() as nat),
            final(self).machine() == old(self).machine().run_n(trace.len() as nat),
            trace.len() < num_steps ==> !final(self).machine().step_ok(),
            forall|k: int| 0 <= k < trace.len() ==> {
                &&& (#[trigger] trace@[k]).0 == old(self).machine().run_n(k as nat).opcode()
                &&& trace@[k].1 == old(self).machine().run_n((k + 1) as nat).regs
            },
    {
        let ghost m0 = old(self).machine();
        let mut trace: Vec<(u8, Registers)> = Vec::new();
        let mut i: usize = 0;
        while i < num_steps && self.nes.can_step()
            invariant
                self.wf(),
                self.breakpoints@ == old(self).breakpoints@,
                i == trace.len(),
                i <= num_steps,
                m0 == old(self).machine(),
                m0.runs_ok(i as nat),
                self.machine() == m0.run_n(i as nat),
                forall|k: int| 0 <= k < trace.len() ==> {
                    &&& (#[trigger] trace@[k]).0 == m0.run_n(k as nat).opcode()
                    &&& trace@[k].1 == m0.run_n((k + 1) as nat).regs
                },
            decreases num_steps - i,
        {
            let opcode = self.nes.step();
            let regs = self.nes.cpu.registers();
            proof {
                assert(m0.run_n((i + 1) as nat) == m0.run_n(i as nat).step());
                assert forall|k: nat| k < i + 1 implies #[trigger] m0.run_n(k).step_ok() by {
                    if k < i {
                        assert(m0.run_n(k).step_ok());
                    }
                }
            }
            trace.push((opcode, regs));
            i = i + 1;
        }
        trace
    }

    /// Whether the CPU can read `addr`.
    pub fn can_read(&self, addr: u16) -> (r: bool)
        requires
            self.wf(),
        ensures
            r == self.machine().readable(addr),
    {
        self.nes.can_read(addr)
    }

    /// Records a breakpoint at `addr` under the number `key`, then moves
    /// `key` on to the next number.
    pub fn set_breakpoint(&mut self, key: &mut usize, addr: usize)
        requires
            *old(key) < usize::MAX,
        ensures
            final(self).breakpoints@ == old(self).breakpoints@.insert(*old(key), addr),
            *final(key) == *old(key) + 1,
            final(self).nes == old(self).nes,
    {
        self.breakpoints.insert(*key, addr);
        *key = *key + 1;
    }

    /// Removes the breakpoint numbered `key`.
    pub fn clear_bp(&mut self, key: &usize)
        ensures
            final(self).breakpoints@ == old(self).breakpoints@.remove(*key),
            final(self).nes == old(self).nes,
    {
        self.breakpoints.remove(key);
    }

    /// The byte at `addr`, or `None` when `addr` lies above $FFFF.
    pub fn print(&mut self, addr: usize) -> (r: Option<u8>)
        requires
            old(self).wf(),
            addr <= 0xFFFF ==> old(self).machine().readable(addr as u16),
        ensures
            *final(self) == *old(self),
            addr <= 0xFFFF ==> r == Some(old(self).machine().peek(addr as u16)),
            addr > 0xFFFF ==> r is None,
    {
        if addr <= 0xFFFF {
            Some(self.nes.cpu.fetch_byte(&mut self.nes.interconnect, addr as u16))
        } else {
            None
        }
    }

    /// The bytes at `low_addr` up to (not including) `high_addr`.
    pub fn print_range(&mut self, low_addr: usize, high_addr: usize) -> (r: Result<Vec<u8>, RangeError>)
        requires
            old(self).wf(),
            low_addr <= high_addr <= 0xFFFF ==> forall|a: int|
                low_addr <= a < high_addr ==> #[trigger] old(self).machine().readable(a as u16),
        ensures
            *final(self) == *old(self),
            (low_addr > 0xFFFF || high_addr > 0xFFFF) <==> r == Err::<Vec<u8>, RangeError>(RangeError::InvalidAddress),
            (low_addr <= 0xFFFF && high_addr <= 0xFFFF && low_addr > high_addr) <==> r == Err::<Vec<u8>, RangeError>(
                RangeError::LowAboveHigh),
            r matches Ok(bytes) ==> {
                &&& bytes.len() == high_addr - low_addr
                &&& forall|k: int| 0 <= k < bytes.len() ==> #[trigger] bytes@[k] == old(self).machine().peek(
                    (low_addr + k) as u16)
            },
    {
        if low_addr > 0xFFFF || high_addr > 0xFFFF {
            Err(RangeError::InvalidAddress)
        } else if low_addr > high_addr {
            Err(RangeError::LowAboveHigh)
        } else {
            let mut bytes: Vec<u8> = Vec::new();
            let mut addr = low_addr;
            while addr < high_addr
                invariant
                    low_addr <= addr <= high_addr <= 0xFFFF,
                    *self == *old(self),
                    self.wf(),
                    bytes.len() == addr - low_addr,
                    forall|a: int| low_addr <= a < high_addr ==> #[trigger] self.machine().readable(a as u16),
                    forall|k: int| 0 <= k < bytes.len() ==> #[trigger] bytes@[k] == self.machine().peek(
                        (low_addr + k) as u16),
                decreases high_addr - addr,
            {
                assert(self.machine().readable(addr as u16));
                let b = self.nes.cpu.fetch_byte(&mut self.nes.interconnect, addr as u16);
                bytes.push(b);
                addr = addr + 1;
            }
            Ok(bytes)
        }
    }
}

/// The label the debugger prints for an opcode, padded to 20 characters.
pub open spec fn opcode_label(op: u8) -> Seq<char> {
    match op {
        0x01 => "ORA (d,x)           "@,
        0x05 => "ORA d               "@,
        0x06 => "ASL d               "@,
        0x08 => "PHP                 "@,
        0x09 => "ORA #v              "@,
        0x0A => "ASL A               "@,
        0x0D => "ORA a               "@,
        0x0E => "ASL a               "@,
        0x10 => "BPL (label)         "@,
        0x11 => "ORA (d),y           "@,
        0x15 => "ORA d,x             "@,
        0x16 => "ASL d,x             "@,
        0x18 => "CLC                 "@,
        0x19 => "ORA a,y             "@,
        0x1D => "ORA a,x             "@,
        0x1E => "ASL a,x             "@,
        0x20 => "JSR                 "@,
        0x21 => "AND (d,x)           "@,
        0x24 => "BIT d               "@,
        0x25 => "AND d               "@,
        0x26 => "ROL d               "@,
        0x28 => "PLP                 "@,
        0x29 => "AND #v              "@,
        0x2A => "ROL A               "@,
        0x2C => "BIT a               "@,
        0x2D => "AND a               "@,
        0x2E => "ROL a               "@,
        0x30 => "BMI (label)         "@,
        0x31 => "AND (d),y           "@,
        0x35 => "AND d,x             "@,
        0x36 => "ROL d,x             "@,
        0x38 => "SEC                 "@,
        0x39 => "AND a,y             "@,
        0x3D => "AND a,x             "@,
        0x3E => "ROL a,x             "@,
        0x40 => "RTI                 "@,
        0x41 => "EOR (d,x)           "@,
        0x45 => "EOR d               "@,
        0x46 => "LSR d               "@,
        0x48 => "PHA                 "@,
        0x49 => "EOR #v              "@,
        0x4A => "LSR A               "@,
        0x4C => "JMP a               "@,
        0x4D => "EOR a               "@,
        0x4E => "LSR a               "@,
        0x50 => "BVC (label)         "@,
        0x51 => "EOR (d),y           "@,
        0x55 => "EOR d,x             "@,
        0x56 => "LSR d,x             "@,
        0x59 => "EOR a,y             "@,
        0x5D => "EOR a,x             "@,
        0x5E => "LSR a,x             "@,
        0x60 => "RTS                 "@,
        0x61 => "ADC (d,x)           "@,
        0x65 => "ADC d               "@,
        0x66 => "ROR d               "@,
        0x68 => "PLA                 "@,
        0x69 => "ADC #v              "@,
        0x6A => "ROR A               "@,
        0x6C => "JMP (a)             "@,
        0x6D => "ADC a               "@,
        0x6E => "ROR a               "@,
        0x70 => "BVS (label)         "@,
        0x71 => "ADC (d),y           "@,
        0x75 => "ADC d,x             "@,
        0x76 => "ROR d,x             "@,
        0x78 => "SEI                 "@,
        0x79 => "ADC a,y             "@,
        0x7D => "ADC a,x             "@,
        0x7E => "ROR a,x             "@,
        0x81 => "STA (d,x)           "@,
        0x84 => "STY d               "@,
        0x85 => "STA d               "@,
        0x86 => "STX d               "@,
        0x88 => "DEY                 "@,
        0x8A => "TXA                 "@,
        0x8C => "STY a               "@,
        0x8D => "STA a               "@,
        0x8E => "STX a               "@,
        0x90 => "BCC (label)         "@,
        0x91 => "STA (d),y           "@,
        0x94 => "STY d,x             "@,
        0x95 => "STA d,x             "@,
        0x96 => "STX d,y             "@,
        0x98 => "TYA                 "@,
        0x99 => "STA a,y             "@,
        0x9A => "TXS                 "@,
        0x9D => "kTA a,x             "@,
        0xA0 => "LDY #v              "@,
        0xA1 => "LDA (d,x)           "@,
        0xA2 => "LDX #v              "@,
        0xA4 => "LDY d               "@,
        0xA5 => "LDA d               "@,
        0xA6 => "LDX d               "@,
        0xA8 => "TAY                 "@,
        0xA9 => "LDA #v              "@,
        0xAA => "TAX                 "@,
        0xAC => "LDY a               "@,
        0xAD => "LDA a               "@,
        0xAE => "LDX a               "@,
        0xB0 => "BCS (label)         "@,
        0xB1 => "LDA (d),y           "@,
        0xB4 => "LDY d,x             "@,
        0xB5 => "LDA d,x             "@,
        0xB6 => "LDX d,y             "@,
        0xB8 => "CLV                 "@,
        0xB9 => "LDA a,y             "@,
        0xBA => "TSX                 "@,
        0xBC => "LDY a,x             "@,
        0xBD => "LDA a,x             "@,
        0xBE => "LDX a,y             "@,
        0xC0 => "CPY #v              "@,
        0xC1 => "CMP (d,x)           "@,
        0xC4 => "CPY d               "@,
        0xC5 => "CMP d               "@,
        0xC6 => "DEC d               "@,
        0xC8 => "INY                 "@,
        0xC9 => "CMP #v              "@,
        0xCA => "DEX                 "@,
        0xCC => "CPY a               "@,
        0xCD => "CMP a               "@,
        0xCE => "DEC a               "@,
        0xD0 => "BNE (label)         "@,
        0xD1 => "CMP (d),y           "@,
        0xD5 => "CMP d,x             "@,
        0xD6 => "DEC d,x             "@,
        0xD8 => "CLD                 "@,
        0xD9 => "CMP a,y             "@,
        0xDD => "CMP a,x             "@,
        0xDE => "DEC a,x             "@,
        0xE0 => "CPX #v              "@,
        0xE1 => "SBC (d,x)           "@,
        0xE4 => "CPX d               "@,
        0xE5 => "SBC d               "@,
        0xE6 => "INC d               "@,
        0xE8 => "INX                 "@,
        0xE9 => "SBC #v              "@,
        0xEA => "NOP                 "@,
        0xEC => "CPX a               "@,
        0xED => "SBC a               "@,
        0xEE => "INC a               "@,
        0xF0 => "BEQ (label)         "@,
        0xF1 => "SBC (d),y           "@,
        0xF5 => "SBC d,x             "@,
        0xF6 => "INC d,x             "@,
        0xF8 => "SED                 "@,
        0xF9 => "SBC a,y             "@,
        0xFD => "SBC a,x             "@,
        0xFE => "INC a,x             "@,
        _ => Seq::empty(),
    }
}

/// The label of an opcode, padded to 20 characters.
pub fn opcode_to_name(opcode: u8) -> (r: String)
    requires
        opcode_table(opcode) is Some,
    ensures
        r@ == opcode_label(opcode),
{
    match opcode {
        0x01 => "ORA (d,x)           ".to_owned(),
        0x05 => "ORA d               ".to_owned(),
        0x06 => "ASL d               ".to_owned(),
        0x08 => "PHP                 ".to_owned(),
        0x09 => "ORA #v              ".to_owned(),
        0x0A => "ASL A               ".to_owned(),
        0x0D => "ORA a               ".to_owned(),
        0x0E => "ASL a               ".to_owned(),
        0x10 => "BPL (label)         ".to_owned(),
        0x11 => "ORA (d),y           ".to_owned(),
        0x15 => "ORA d,x             ".to_owned(),
        0x16 => "ASL d,x             ".to_owned(),
        0x18 => "CLC                 ".to_owned(),
        0x19 => "ORA a,y             ".to_owned(),
        0x1D => "ORA a,x             ".to_owned(),
        0x1E => "ASL a,x             ".to_owned(),
        0x20 => "JSR                 ".to_owned(),
        0x21 => "AND (d,x)           ".to_owned(),
        0x24 => "BIT d               ".to_owned(),
        0x25 => "AND d               ".to_owned(),
        0x26 => "ROL d               ".to_owned(),
        0x28 => "PLP                 ".to_owned(),
        0x29 => "AND #v              ".to_owned(),
        0x2A => "ROL A               ".to_owned(),
        0x2C => "BIT a               ".to_owned(),
        0x2D => "AND a               ".to_owned(),
        0x2E => "ROL a               ".to_owned(),
        0x30 => "BMI (label)         ".to_owned(),
        0x31 => "AND (d),y           ".to_owned(),
        0x35 => "AND d,x             ".to_owned(),
        0x36 => "ROL d,x             ".to_owned(),
        0x38 => "SEC                 ".to_owned(),
        0x39 => "AND a,y             ".to_owned(),
        0x3D => "AND a,x             ".to_owned(),
        0x3E => "ROL a,x             ".to_owned(),
        0x40 => "RTI                 ".to_owned(),
        0x41 => "EOR (d,x)           ".to_owned(),
        0x45 => "EOR d               ".to_owned(),
        0x46 => "LSR d               ".to_owned(),
        0x48 => "PHA                 ".to_owned(),
        0x49 => "EOR #v              ".to_owned(),
        0x4A => "LSR A               ".to_owned(),
        0x4C => "JMP a               ".to_owned(),
        0x4D => "EOR a               ".to_owned(),
        0x4E => "LSR a               ".to_owned(),
        0x50 => "BVC (label)         ".to_owned(),
        0x51 => "EOR (d),y           ".to_owned(),
        0x55 => "EOR d,x             ".to_owned(),
        0x56 => "LSR d,x             ".to_owned(),
        0x59 => "EOR a,y             ".to_owned(),
        0x5D => "EOR a,x             ".to_owned(),
        0x5E => "LSR a,x             ".to_owned(),
        0x60 => "RTS                 ".to_owned(),
        0x61 => "ADC (d,x)           ".to_owned(),
        0x65 => "ADC d               ".to_owned(),
        0x66 => "ROR d               ".to_owned(),
        0x68 => "PLA                 ".to_owned(),
        0x69 => "ADC #v              ".to_owned(),
        0x6A => "ROR A               ".to_owned(),
        0x6C => "JMP (a)             ".to_owned(),
        0x6D => "ADC a               ".to_owned(),
        0x6E => "ROR a               ".to_owned(),
        0x70 => "BVS (label)         ".to_owned(),
        0x71 => "ADC (d),y           ".to_owned(),
        0x75 => "ADC d,x             ".to_owned(),
        0x76 => "ROR d,x             ".to_owned(),
        0x78 => "SEI                 ".to_owned(),
        0x79 => "ADC a,y             ".to_owned(),
        0x7D => "ADC a,x             ".to_owned(),
        0x7E => "ROR a,x             ".to_owned(),
        0x81 => "STA (d,x)           ".to_owned(),
        0x84 => "STY d               ".to_owned(),
        0x85 => "STA d               ".to_owned(),
        0x86 => "STX d               ".to_owned(),
        0x88 => "DEY                 ".to_owned(),
        0x8A => "TXA                 ".to_owned(),
        0x8C => "STY a               ".to_owned(),
        0x8D => "STA a               ".to_owned(),
        0x8E => "STX a               ".to_owned(),
        0x90 => "BCC (label)         ".to_owned(),
        0x91 => "STA (d),y           ".to_owned(),
        0x94 => "STY d,x             ".to_owned(),
        0x95 => "STA d,x             ".to_owned(),
        0x96 => "STX d,y             ".to_owned(),
        0x98 => "TYA                 ".to_owned(),
        0x99 => "STA a,y             ".to_owned(),
        0x9A => "TXS                 ".to_owned(),
        0x9D => "kTA a,x             ".to_owned(),
        0xA0 => "LDY #v              ".to_owned(),
        0xA1 => "LDA (d,x)           ".to_owned(),
        0xA2 => "LDX #v              ".to_owned(),
        0xA4 => "LDY d               ".to_owned(),
        0xA5 => "LDA d               ".to_owned(),
        0xA6 => "LDX d               ".to_owned(),
        0xA8 => "TAY                 ".to_owned(),
        0xA9 => "LDA #v              ".to_owned(),
        0xAA => "TAX                 ".to_owned(),
        0xAC => "LDY a               ".to_owned(),
        0xAD => "LDA a               ".to_owned(),
        0xAE => "LDX a               ".to_owned(),
        0xB0 => "BCS (label)         ".to_owned(),
        0xB1 => "LDA (d),y           ".to_owned(),
        0xB4 => "LDY d,x             ".to_owned(),
        0xB5 => "LDA d,x             ".to_owned(),
        0xB6 => "LDX d,y             ".to_owned(),
        0xB8 => "CLV                 ".to_owned(),
        0xB9 => "LDA a,y             ".to_owned(),
        0xBA => "TSX                 ".to_owned(),
        0xBC => "LDY a,x             ".to_owned(),
        0xBD => "LDA a,x             ".to_owned(),
        0xBE => "LDX a,y             ".to_owned(),
        0xC0 => "CPY #v              ".to_owned(),
        0xC1 => "CMP (d,x)           ".to_owned(),
        0xC4 => "CPY d               ".to_owned(),
        0xC5 => "CMP d               ".to_owned(),
        0xC6 => "DEC d               ".to_owned(),
        0xC8 => "INY                 ".to_owned(),
        0xC9 => "CMP #v              ".to_owned(),
        0xCA => "DEX                 ".to_owned(),
        0xCC => "CPY a               ".to_owned(),
        0xCD => "CMP a               ".to_owned(),
        0xCE => "DEC a               ".to_owned(),
        0xD0 => "BNE (label)         ".to_owned(),
        0xD1 => "CMP (d),y           ".to_owned(),
        0xD5 => "CMP d,x             ".to_owned(),
        0xD6 => "DEC d,x             ".to_owned(),
        0xD8 => "CLD                 ".to_owned(),
        0xD9 => "CMP a,y             ".to_owned(),
        0xDD => "CMP a,x             ".to_owned(),
        0xDE => "DEC a,x             ".to_owned(),
        0xE0 => "CPX #v              ".to_owned(),
        0xE1 => "SBC (d,x)           ".to_owned(),
        0xE4 => "CPX d               ".to_owned(),
        0xE5 => "SBC d               ".to_owned(),
        0xE6 => "INC d               ".to_owned(),
        0xE8 => "INX                 ".to_owned(),
        0xE9 => "SBC #v              ".to_owned(),
        0xEA => "NOP                 ".to_owned(),
        0xEC => "CPX a               ".to_owned(),
        0xED => "SBC a               ".to_owned(),
        0xEE => "INC a               ".to_owned(),
        0xF0 => "BEQ (label)         ".to_owned(),
        0xF1 => "SBC (d),y           ".to_owned(),
        0xF5 => "SBC d,x             ".to_owned(),
        0xF6 => "INC d,x             ".to_owned(),
        0xF8 => "SED                 ".to_owned(),
        0xF9 => "SBC a,y             ".to_owned(),
        0xFD => "SBC a,x             ".to_owned(),
        0xFE => "INC a,x             ".to_owned(),
        _ => String::new(),
    }
}


/// The three-letter mnemonic of a documented instruction.
pub open spec fn mnemonic(i: Instruction) -> Seq<char> {
    match i {
        Instruction::BRK => seq!['B', 'R', 'K'],
        Instruction::PHP => seq!['P', 'H', 'P'],
        Instruction::PLP => seq!['P', 'L', 'P'],
        Instruction::PHA => seq!['P', 'H', 'A'],
        Instruction::PLA => seq!['P', 'L', 'A'],
        Instruction::TXS => seq!['T', 'X', 'S'],
        Instruction::TSX => seq!['T', 'S', 'X'],
        Instruction::BPL => seq!['B', 'P', 'L'],
        Instruction::BMI => seq!['B', 'M', 'I'],
        Instruction::BVC => seq!['B', 'V', 'C'],
        Instruction::BVS => seq!['B', 'V', 'S'],
        Instruction::BCC => seq!['B', 'C', 'C'],
        Instruction::BCS => seq!['B', 'C', 'S'],
        Instruction::BNE => seq!['B', 'N', 'E'],
        Instruction::BEQ => seq!['B', 'E', 'Q'],
        Instruction::CLC => seq!['C', 'L', 'C'],
        Instruction::SEC => seq!['S', 'E', 'C'],
        Instruction::CLI => seq!['C', 'L', 'I'],
        Instruction::SEI => seq!['S', 'E', 'I'],
        Instruction::CLV => seq!['C', 'L', 'V'],
        Instruction::CLD => seq!['C', 'L', 'D'],
        Instruction::SED => seq!['S', 'E', 'D'],
        Instruction::DEY => seq!['D', 'E', 'Y'],
        Instruction::DEX => seq!['D', 'E', 'X'],
        Instruction::INX => seq!['I', 'N', 'X'],
        Instruction::INY => seq!['I', 'N', 'Y'],
        Instruction::TAX => seq!['T', 'A', 'X'],
        Instruction::TXA => seq!['T', 'X', 'A'],
        Instruction::TAY => seq!['T', 'A', 'Y'],
        Instruction::TYA => seq!['T', 'Y', 'A'],
        Instruction::CPY => seq!['C', 'P', 'Y'],
        Instruction::CPX => seq!['C', 'P', 'X'],
        Instruction::LDA => seq!['L', 'D', 'A'],
        Instruction::LDX => seq!['L', 'D', 'X'],
        Instruction::LDY => seq!['L', 'D', 'Y'],
        Instruction::STA => seq!['S', 'T', 'A'],
        Instruction::STX => seq!['S', 'T', 'X'],
        Instruction::STY => seq!['S', 'T', 'Y'],
        Instruction::JSR => seq!['J', 'S', 'R'],
        Instruction::JMP => seq!['J', 'M', 'P'],
        Instruction::RTI => seq!['R', 'T', 'I'],
        Instruction::RTS => seq!['R', 'T', 'S'],
        Instruction::BIT => seq!['B', 'I', 'T'],
        Instruction::ORA => seq!['O', 'R', 'A'],
        Instruction::AND => seq!['A', 'N', 'D'],
        Instruction::EOR => seq!['E', 'O', 'R'],
        Instruction::ADC => seq!['A', 'D', 'C'],
        Instruction::CMP => seq!['C', 'M', 'P'],
        Instruction::SBC => seq!['S', 'B', 'C'],
        Instruction::ASL => seq!['A', 'S', 'L'],
        Instruction::LSR => seq!['L', 'S', 'R'],
        Instruction::ROL => seq!['R', 'O', 'L'],
        Instruction::ROR => seq!['R', 'O', 'R'],
        Instruction::DEC => seq!['D', 'E', 'C'],
        Instruction::INC => seq!['I', 'N', 'C'],
        Instruction::NOP => seq!['N', 'O', 'P'],
        _ => Seq::empty(),
    }
}

/// Every label the debugger prints is 20 characters long and opens with the
/// mnemonic of the instruction that the opcode decodes to. ($9D, which
/// decodes to STA, is labelled "kTA a,x".)
#[verifier::rlimit(100)]
pub proof fn law_label_names_instruction(op: u8)
    requires
        opcode_table(op) is Some,
        op != 0x9D,
    ensures
        opcode_label(op).len() == 20,
        opcode_label(op).subrange(0, 3) == mnemonic(opcode_table(op).unwrap().0),
{
    match op {
        0x01 => {
            reveal_strlit("ORA (d,x)           ");
        },
        0x05 => {
            reveal_strlit("ORA d               ");
        },
        0x06 => {
            reveal_strlit("ASL d               ");
        },
        0x08 => {
            reveal_strlit("PHP                 ");
        },
        0x09 => {
            reveal_strlit("ORA #v              ");
        },
        0x0A => {
            reveal_strlit("ASL A               ");
        },
        0x0D => {
            reveal_strlit("ORA a               ");
        },
        0x0E => {
            reveal_strlit("ASL a               ");
        },
        0x10 => {
            reveal_strlit("BPL (label)         ");
        },
        0x11 => {
            reveal_strlit("ORA (d),y           ");
        },
        0x15 => {
            reveal_strlit("ORA d,x             ");
        },
        0x16 => {
            reveal_strlit("ASL d,x             ");
        },
        0x18 => {
            reveal_strlit("CLC                 ");
        },
        0x19 => {
            reveal_strlit("ORA a,y             ");
        },
        0x1D => {
            reveal_strlit("ORA a,x             ");
        },
        0x1E => {
            reveal_strlit("ASL a,x             ");
        },
        0x20 => {
            reveal_strlit("JSR                 ");
        },
        0x21 => {
            reveal_strlit("AND (d,x)           ");
        },
        0x24 => {
            reveal_strlit("BIT d               ");
        },
        0x25 => {
            reveal_strlit("AND d               ");
        },
        0x26 => {
            reveal_strlit("ROL d               ");
        },
        0x28 => {
            reveal_strlit("PLP                 ");
        },
        0x29 => {
            reveal_strlit("AND #v              ");
        },
        0x2A => {
            reveal_strlit("ROL A               ");
        },
        0x2C => {
            reveal_strlit("BIT a               ");
        },
        0x2D => {
            reveal_strlit("AND a               ");
        },
        0x2E => {
            reveal_strlit("ROL a               ");
        },
        0x30 => {
            reveal_strlit("BMI (label)         ");
        },
        0x31 => {
            reveal_strlit("AND (d),y           ");
        },
        0x35 => {
            reveal_strlit("AND d,x             ");
        },
        0x36 => {
            reveal_strlit("ROL d,x             ");
        },
        0x38 => {
            reveal_strlit("SEC                 ");
        },
        0x39 => {
            reveal_strlit("AND a,y             ");
        },
        0x3D => {
            reveal_strlit("AND a,x             ");
        },
        0x3E => {
            reveal_strlit("ROL a,x             ");
        },
        0x40 => {
            reveal_strlit("RTI                 ");
        },
        0x41 => {
            reveal_strlit("EOR (d,x)           ");
        },
        0x45 => {
            reveal_strlit("EOR d               ");
        },
        0x46 => {
            reveal_strlit("LSR d               ");
        },
        0x48 => {
            reveal_strlit("PHA                 ");
        },
        0x49 => {
            reveal_strlit("EOR #v              ");
        },
        0x4A => {
            reveal_strlit("LSR A               ");
        },
        0x4C => {
            reveal_strlit("JMP a               ");
        },
        0x4D => {
            reveal_strlit("EOR a               ");
        },
        0x4E => {
            reveal_strlit("LSR a               ");
        },
        0x50 => {
            reveal_strlit("BVC (label)         ");
        },
        0x51 => {
            reveal_strlit("EOR (d),y           ");
        },
        0x55 => {
            reveal_strlit("EOR d,x             ");
        },
        0x56 => {
            reveal_strlit("LSR d,x             ");
        },
        0x59 => {
            reveal_strlit("EOR a,y             ");
        },
        0x5D => {
            reveal_strlit("EOR a,x             ");
        },
        0x5E => {
            reveal_strlit("LSR a,x             ");
        },
        0x60 => {
            reveal_strlit("RTS                 ");
        },
        0x61 => {
            reveal_strlit("ADC (d,x)           ");
        },
        0x65 => {
            reveal_strlit("ADC d               ");
        },
        0x66 => {
            reveal_strlit("ROR d               ");
        },
        0x68 => {
            reveal_strlit("PLA                 ");
        },
        0x69 => {
            reveal_strlit("ADC #v              ");
        },
        0x6A => {
            reveal_strlit("ROR A               ");
        },
        0x6C => {
            reveal_strlit("JMP (a)             ");
        },
        0x6D => {
            reveal_strlit("ADC a               ");
        },
        0x6E => {
            reveal_strlit("ROR a               ");
        },
        0x70 => {
            reveal_strlit("BVS (label)         ");
        },
        0x71 => {
            reveal_strlit("ADC (d),y           ");
        },
        0x75 => {
            reveal_strlit("ADC d,x             ");
        },
        0x76 => {
            reveal_strlit("ROR d,x             ");
        },
        0x78 => {
            reveal_strlit("SEI                 ");
        },
        0x79 => {
            reveal_strlit("ADC a,y             ");
        },
        0x7D => {
            reveal_strlit("ADC a,x             ");
        },
        0x7E => {
            reveal_strlit("ROR a,x             ");
        },
        0x81 => {
            reveal_strlit("STA (d,x)           ");
        },
        0x84 => {
            reveal_strlit("STY d               ");
        },
        0x85 => {
            reveal_strlit("STA d               ");
        },
        0x86 => {
            reveal_strlit("STX d               ");
        },
        0x88 => {
            reveal_strlit("DEY                 ");
        },
        0x8A => {
            reveal_strlit("TXA                 ");
        },
        0x8C => {
            reveal_strlit("STY a               ");
        },
        0x8D => {
            reveal_strlit("STA a               ");
        },
        0x8E => {
            reveal_strlit("STX a               ");
        },
        0x90 => {
            reveal_strlit("BCC (label)         ");
        },
        0x91 => {
            reveal_strlit("STA (d),y           ");
        },
        0x94 => {
            reveal_strlit("STY d,x             ");
        },
        0x95 => {
            reveal_strlit("STA d,x             ");
        },
        0x96 => {
            reveal_strlit("STX d,y             ");
        },
        0x98 => {
            reveal_strlit("TYA                 ");
        },
        0x99 => {
            reveal_strlit("STA a,y             ");
        },
        0x9A => {
            reveal_strlit("TXS                 ");
        },
        0xA0 => {
            reveal_strlit("LDY #v              ");
        },
        0xA1 => {
            reveal_strlit("LDA (d,x)           ");
        },
        0xA2 => {
            reveal_strlit("LDX #v              ");
        },
        0xA4 => {
            reveal_strlit("LDY d               ");
        },
        0xA5 => {
            reveal_strlit("LDA d               ");
        },
        0xA6 => {
            reveal_strlit("LDX d               ");
        },
        0xA8 => {
            reveal_strlit("TAY                 ");
        },
        0xA9 => {
            reveal_strlit("LDA #v              ");
        },
        0xAA => {
            reveal_strlit("TAX                 ");
        },
        0xAC => {
            reveal_strlit("LDY a               ");
        },
        0xAD => {
            reveal_strlit("LDA a               ");
        },
        0xAE => {
            reveal_strlit("LDX a               ");
        },
        0xB0 => {
            reveal_strlit("BCS (label)         ");
        },
        0xB1 => {
            reveal_strlit("LDA (d),y           ");
        },
        0xB4 => {
            reveal_strlit("LDY d,x             ");
        },
        0xB5 => {
            reveal_strlit("LDA d,x             ");
        },
        0xB6 => {
            reveal_strlit("LDX d,y             ");
        },
        0xB8 => {
            reveal_strlit("CLV                 ");
        },
        0xB9 => {
            reveal_strlit("LDA a,y             ");
        },
        0xBA => {
            reveal_strlit("TSX                 ");
        },
        0xBC => {
            reveal_strlit("LDY a,x             ");
        },
        0xBD => {
            reveal_strlit("LDA a,x             ");
        },
        0xBE => {
            reveal_strlit("LDX a,y             ");
        },
        0xC0 => {
            reveal_strlit("CPY #v              ");
        },
        0xC1 => {
            reveal_strlit("CMP (d,x)           ");
        },
        0xC4 => {
            reveal_strlit("CPY d               ");
        },
        0xC5 => {
            reveal_strlit("CMP d               ");
        },
        0xC6 => {
            reveal_strlit("DEC d               ");
        },
        0xC8 => {
            reveal_strlit("INY                 ");
        },
        0xC9 => {
            reveal_strlit("CMP #v              ");
        },
        0xCA => {
            reveal_strlit("DEX                 ");
        },
        0xCC => {
            reveal_strlit("CPY a               ");
        },
        0xCD => {
            reveal_strlit("CMP a               ");
        },
        0xCE => {
            reveal_strlit("DEC a               ");
        },
        0xD0 => {
            reveal_strlit("BNE (label)         ");
        },
        0xD1 => {
            reveal_strlit("CMP (d),y           ");
        },
        0xD5 => {
            reveal_strlit("CMP d,x             ");
        },
        0xD6 => {
            reveal_strlit("DEC d,x             ");
        },
        0xD8 => {
            reveal_strlit("CLD                 ");
        },
        0xD9 => {
            reveal_strlit("CMP a,y             ");
        },
        0xDD => {
            reveal_strlit("CMP a,x             ");
        },
        0xDE => {
            reveal_strlit("DEC a,x             ");
        },
        0xE0 => {
            reveal_strlit("CPX #v              ");
        },
        0xE1 => {
            reveal_strlit("SBC (d,x)           ");
        },
        0xE4 => {
            reveal_strlit("CPX d               ");
        },
        0xE5 => {
            reveal_strlit("SBC d               ");
        },
        0xE6 => {
            reveal_strlit("INC d               ");
        },
        0xE8 => {
            reveal_strlit("INX                 ");
        },
        0xE9 => {
            reveal_strlit("SBC #v              ");
        },
        0xEA => {
            reveal_strlit("NOP                 ");
        },
        0xEC => {
            reveal_strlit("CPX a               ");
        },
        0xED => {
            reveal_strlit("SBC a               ");
        },
        0xEE => {
            reveal_strlit("INC a               ");
        },
        0xF0 => {
            reveal_strlit("BEQ (label)         ");
        },
        0xF1 => {
            reveal_strlit("SBC (d),y           ");
        },
        0xF5 => {
            reveal_strlit("SBC d,x             ");
        },
        0xF6 => {
            reveal_strlit("INC d,x             ");
        },
        0xF8 => {
            reveal_strlit("SED                 ");
        },
        0xF9 => {
            reveal_strlit("SBC a,y             ");
        },
        0xFD => {
            reveal_strlit("SBC a,x             ");
        },
        0xFE => {
            reveal_strlit("INC a,x             ");
        },
        _ => {},
    }
    assert(opcode_label(op).subrange(0, 3) =~= mnemonic(opcode_table(op).unwrap().0));
}

} // verus!
