use gadget_nes::ines::InesRom;
use gadget_nes::nes::cpu::instructions::{decode, AddressingMode, Instruction};
use gadget_nes::nes::cpu::memory_map::{read_byte, read_word, write_byte};
use gadget_nes::nes::cpu::{Cpu, Interrupt, StatusFlag};
use gadget_nes::nes::memory::Memory;

/// A 16 KiB mapper-0 ROM: `program` at $C000, and the vectors at the end.
fn rom_with(program: &[u8], nmi: u16, reset: u16, irq: u16) -> InesRom {
    let mut buf = vec![0x4E, 0x45, 0x53, 0x1A, 1, 1, 0, 0, 0, 0, 0, 0, 0, 0, 0, 0];
    let mut prg = vec![0xEAu8; 16384];
    prg[..program.len()].copy_from_slice(program);
    prg[0x3FFA] = nmi as u8;
    prg[0x3FFB] = (nmi >> 8) as u8;
    prg[0x3FFC] = reset as u8;
    prg[0x3FFD] = (reset >> 8) as u8;
    prg[0x3FFE] = irq as u8;
    prg[0x3FFF] = (irq >> 8) as u8;
    buf.extend_from_slice(&prg);
    buf.extend_from_slice(&vec![0u8; 8192]);
    InesRom::from_bytes(&buf)
}

fn machine(program: &[u8]) -> (Cpu, Memory) {
    let rom = rom_with(program, 0xC100, 0xC000, 0xC200);
    let mem = Memory::new(&rom);
    let cpu = Cpu { pc: 0xC000, sp: 0xFD, p: 0x24, x: 0, y: 0, a: 0, cycle: 0 };
    (cpu, mem)
}

#[test]
fn power_on_reset_reads_the_vector() {
    let (mut cpu, mut mem) = machine(&[]);
    cpu.pc = 0;
    cpu.power_on_reset(&mut mem);
    assert_eq!(cpu.pc, 0xC000);
    assert_eq!(cpu.sp, 0xFD);
    assert_eq!(cpu.p, 0x34);
}

#[test]
fn immediate_load_takes_two_cycles() {
    let (mut cpu, mut mem) = machine(&[0xA9, 0x80]);
    cpu.step(&mut mem);
    assert_eq!(cpu.a, 0x80);
    assert_eq!(cpu.pc, 0xC002);
    assert_eq!(cpu.cycle, 2);
    // Negative set, Zero clear
    assert_eq!(cpu.p & 0x82, 0x80);
}

#[test]
fn nop_takes_four_cycles() {
    let (mut cpu, mut mem) = machine(&[0xEA]);
    cpu.step(&mut mem);
    assert_eq!(cpu.pc, 0xC001);
    assert_eq!(cpu.cycle, 4);
}

#[test]
fn store_then_load_absolute() {
    // LDA #$37; STA $0234; LDX $0A34 (a mirror)
    let (mut cpu, mut mem) = machine(&[0xA9, 0x37, 0x8D, 0x34, 0x02, 0xAE, 0x34, 0x0A]);
    cpu.step(&mut mem);
    cpu.step(&mut mem);
    assert_eq!(cpu.cycle, 2 + 4);
    assert_eq!(read_byte(&mut mem, 0x0234), 0x37);
    cpu.step(&mut mem);
    assert_eq!(cpu.x, 0x37);
    assert_eq!(cpu.pc, 0xC008);
}

#[test]
fn reading_ppustatus_clears_bit_seven() {
    // LDA $2002; LDX $2002
    let (mut cpu, mut mem) = machine(&[0xAD, 0x02, 0x20, 0xAE, 0x02, 0x20]);
    mem.ppu.power_on_reset();
    cpu.step(&mut mem);
    assert_eq!(cpu.a, 0xA0);
    cpu.step(&mut mem);
    assert_eq!(cpu.x, 0x20);
}

#[test]
fn ppu_registers_repeat_every_eight_bytes() {
    let (_, mut mem) = machine(&[]);
    mem.ppu.power_on_reset();
    assert_eq!(read_byte(&mut mem, 0x3FFA), 0xA0);
    assert_eq!(read_byte(&mut mem, 0x2002), 0x20);
    assert_eq!(read_byte(&mut mem, 0x2000), 0);
}

#[test]
fn io_reads_zero_and_writes_are_ignored() {
    let (_, mut mem) = machine(&[]);
    write_byte(&mut mem, 0x4016, 0xFF);
    assert_eq!(read_byte(&mut mem, 0x4016), 0);
}

#[test]
fn words_read_little_endian() {
    let (_, mut mem) = machine(&[0x34, 0x12]);
    assert_eq!(read_word(&mut mem, 0xC000), 0x1234);
    write_byte(&mut mem, 0x0010, 0xCD);
    write_byte(&mut mem, 0x0011, 0xAB);
    assert_eq!(read_word(&mut mem, 0x0810), 0xABCD);
}

#[test]
fn jsr_then_rts() {
    let mut program = vec![0xEA; 0x21];
    program[0] = 0x20;
    program[1] = 0x20;
    program[2] = 0xC0;
    program[0x20] = 0x60;
    let (mut cpu, mut mem) = machine(&program);
    cpu.step(&mut mem);
    assert_eq!(cpu.pc, 0xC020);
    assert_eq!(cpu.sp, 0xFB);
    cpu.step(&mut mem);
    assert_eq!(cpu.pc, 0xC003);
    assert_eq!(cpu.sp, 0xFD);
}

#[test]
fn pha_pla_and_php_plp() {
    // LDA #$05; PHA; LDA #$00; PLA; PHP; PLP
    let (mut cpu, mut mem) = machine(&[0xA9, 0x05, 0x48, 0xA9, 0x00, 0x68, 0x08, 0x28]);
    for _ in 0..4 {
        cpu.step(&mut mem);
    }
    assert_eq!(cpu.a, 0x05);
    assert_eq!(cpu.sp, 0xFD);
    let p = cpu.p;
    cpu.step(&mut mem);
    cpu.step(&mut mem);
    assert_eq!(cpu.p, (p & 0xEF) | 0x20);
    assert_eq!(cpu.sp, 0xFD);
}

#[test]
fn adc_and_sbc() {
    // CLC; LDA #$7F; ADC #$01 ; SEC; SBC #$10
    let (mut cpu, mut mem) = machine(&[0x18, 0xA9, 0x7F, 0x69, 0x01, 0x38, 0xE9, 0x10]);
    for _ in 0..3 {
        cpu.step(&mut mem);
    }
    assert_eq!(cpu.a, 0x80);
    assert_eq!(cpu.p & 0xC3, 0xC0);
    cpu.step(&mut mem);
    cpu.step(&mut mem);
    assert_eq!(cpu.a, 0x70);
    // Carry set (no borrow), overflow set (negative minus positive gave positive)
    assert_eq!(cpu.p & 0x41, 0x41);
}

#[test]
fn shifts_and_rotates_in_memory() {
    // LDA #$81; STA $10; ASL $10; ROL $10; LDA $10
    let (mut cpu, mut mem) = machine(&[0xA9, 0x81, 0x85, 0x10, 0x06, 0x10, 0x26, 0x10, 0xA5, 0x10]);
    for _ in 0..3 {
        cpu.step(&mut mem);
    }
    assert_eq!(read_byte(&mut mem, 0x10), 0x02);
    assert_eq!(cpu.p & 0x01, 0x01);
    cpu.step(&mut mem);
    assert_eq!(read_byte(&mut mem, 0x10), 0x05);
    cpu.step(&mut mem);
    assert_eq!(cpu.a, 0x05);
}

#[test]
fn indexed_indirect_and_indirect_indexed() {
    // LDA #$00; STA $20; LDA #$02; STA $21  (pointer $0200 at $20)
    // LDA #$99; STA $0203; LDY #$03; LDA ($20),Y ; LDX #$02; STA ($1E,X)
    let program = [
        0xA9, 0x00, 0x85, 0x20, 0xA9, 0x02, 0x85, 0x21, 0xA9, 0x99, 0x8D, 0x03, 0x02, 0xA0, 0x03,
        0xA9, 0x00, 0xB1, 0x20, 0xA2, 0x02, 0x81, 0x1E,
    ];
    let (mut cpu, mut mem) = machine(&program);
    for _ in 0..9 {
        cpu.step(&mut mem);
    }
    assert_eq!(cpu.a, 0x99);
    cpu.step(&mut mem);
    cpu.step(&mut mem);
    assert_eq!(read_byte(&mut mem, 0x0200), 0x99);
}

#[test]
fn branches() {
    // LDX #$02; DEX; BNE -3; NOP
    let (mut cpu, mut mem) = machine(&[0xA2, 0x02, 0xCA, 0xD0, 0xFD, 0xEA]);
    cpu.step(&mut mem);
    cpu.step(&mut mem);
    cpu.step(&mut mem);
    assert_eq!(cpu.pc, 0xC002);
    cpu.step(&mut mem);
    cpu.step(&mut mem);
    assert_eq!(cpu.pc, 0xC005);
}

#[test]
fn indirect_jump_wraps_within_the_page() {
    // The pointer at $02FF takes its high byte from $0200.
    let (mut cpu, mut mem) = machine(&[0x6C, 0xFF, 0x02]);
    write_byte(&mut mem, 0x02FF, 0x34);
    write_byte(&mut mem, 0x0200, 0x12);
    write_byte(&mut mem, 0x0300, 0x56);
    cpu.step(&mut mem);
    assert_eq!(cpu.pc, 0x1234);
}

#[test]
fn brk_jumps_one_past_the_vector() {
    let (mut cpu, mut mem) = machine(&[0x00]);
    cpu.p = 0x20;
    cpu.step(&mut mem);
    // The vector is $C200, and the step then moves past the implied opcode.
    assert_eq!(cpu.pc, 0xC201);
    assert_eq!(cpu.sp, 0xFA);
    assert_eq!(cpu.p, 0x20);
    // The status was pushed first, with Break set.
    assert_eq!(read_byte(&mut mem, 0x01FD), 0x30);
}

#[test]
fn brk_is_ignored_with_interrupts_disabled() {
    let (mut cpu, mut mem) = machine(&[0x00]);
    cpu.p = 0x24;
    cpu.interrupt(&mut mem, Interrupt::BRK);
    assert_eq!(cpu.pc, 0xC000);
    assert_eq!(cpu.sp, 0xFD);
}

#[test]
fn nmi_then_rti_pulls_in_the_other_order() {
    // The interrupt pushes the status, then the program counter; RTI pulls
    // the status first, so it does not come back to where it was.
    let (mut cpu, mut mem) = machine(&[]);
    cpu.pc = 0xC123;
    cpu.p = 0x24;
    cpu.interrupt(&mut mem, Interrupt::NMI);
    assert_eq!(cpu.pc, 0xC100);
    cpu.RTI(&mut mem);
    assert_eq!(cpu.sp, 0xFD);
    assert_eq!(cpu.p, 0x23);
    assert_eq!(cpu.pc, 0x24C1);
}

#[test]
fn flags_read_back_as_set() {
    let (mut cpu, _) = machine(&[]);
    cpu.set_flag(StatusFlag::Overflow, true);
    assert!(cpu.check_flag(StatusFlag::Overflow, true));
    cpu.set_flag(StatusFlag::Overflow, false);
    assert!(cpu.check_flag(StatusFlag::Overflow, false));
    cpu.SEC();
    assert_eq!(cpu.p & 1, 1);
    cpu.CLC();
    assert_eq!(cpu.p & 1, 0);
    cpu.SED();
    cpu.SEI();
    assert_eq!(cpu.p & 0x0C, 0x0C);
    cpu.CLD();
    cpu.CLI();
    cpu.CLV();
    assert_eq!(cpu.p & 0x4C, 0);
}

#[test]
fn register_instructions() {
    let (mut cpu, _) = machine(&[]);
    cpu.DEX();
    assert_eq!(cpu.x, 0xFF);
    assert_eq!(cpu.p & 0x80, 0x80);
    cpu.INX();
    assert_eq!(cpu.x, 0);
    assert_eq!(cpu.p & 0x02, 0x02);
    cpu.INY();
    cpu.TYA();
    assert_eq!(cpu.a, 1);
    cpu.TAX();
    cpu.DEY();
    cpu.TAY();
    assert_eq!((cpu.x, cpu.y), (1, 1));
    cpu.TXA();
    cpu.TSX();
    assert_eq!(cpu.x, 0xFD);
    cpu.TXS();
    assert_eq!(cpu.sp, 0xFD);
    cpu.NOP();
    cpu.NOP_u();
}

#[test]
fn undocumented_instructions() {
    // LDA #$FF; ATX #$F0 ; AXS #$10 ; SAX $30
    let (mut cpu, mut mem) = machine(&[0xA9, 0xFF, 0xAB, 0xF0, 0xCB, 0x10, 0x87, 0x30]);
    cpu.step(&mut mem);
    cpu.step(&mut mem);
    assert_eq!((cpu.a, cpu.x), (0xF0, 0xF0));
    // AXS sets the flags from (A & X) - operand but keeps X.
    cpu.step(&mut mem);
    assert_eq!(cpu.x, 0xF0);
    assert_eq!(cpu.p & 0x83, 0x80);
    cpu.step(&mut mem);
    assert_eq!(read_byte(&mut mem, 0x30), 0xF0);
}

#[test]
fn decode_recognises_opcodes() {
    let (mut cpu, _) = machine(&[]);
    assert_eq!(decode(&mut cpu, 0xA9), (Instruction::LDA, AddressingMode::Immediate));
    assert_eq!(cpu.cycle, 0);
    assert_eq!(decode(&mut cpu, 0xEA), (Instruction::NOP, AddressingMode::Implied));
    assert_eq!(cpu.cycle, 2);
    assert_eq!(decode(&mut cpu, 0xEB), (Instruction::SBC_u, AddressingMode::Immediate));
}
