use gadget_nes::cart::Cartridge;
use gadget_nes::cpu::machine::Registers;
use gadget_nes::debugger::Debugger;
use gadget_nes::debugger::RangeError;
use gadget_nes::debugger::opcode_to_name;
use gadget_nes::nes::Nes;
use gadget_nes::rom::{parse_rom, Header, FlagsSix, FlagsSev, calc_prg_offset};

/// An iNES file with one 16 KiB PRG bank holding `program` at its start
/// ($C000 once mapped) and one 8 KiB CHR bank.
fn ines_file(program: &[u8]) -> Vec<u8> {
    let mut buf = vec![0x4E, 0x45, 0x53, 0x1A, 1, 1, 0, 0, 0, 0, 0, 0, 0, 0, 0, 0];
    let mut prg = vec![0u8; 16384];
    prg[..program.len()].copy_from_slice(program);
    buf.extend_from_slice(&prg);
    let chr: Vec<u8> = (0..8192).map(|i| (i % 251) as u8).collect();
    buf.extend_from_slice(&chr);
    buf
}

fn console(program: &[u8]) -> Nes {
    let rom = parse_rom(&ines_file(program)).unwrap();
    let mut nes = Nes::new(Cartridge::new(rom));
    nes.reset();
    nes
}

#[test]
fn header_decodes_sizes_and_mapper() {
    let h = Header::new(vec![0x4E, 0x45, 0x53, 0x1A, 2, 1, 0x10, 0x40, 0, 0, 0, 0, 0, 0, 0, 0]).unwrap();
    assert_eq!(h.prg_size(), 32768);
    assert_eq!(h.chr_size(), 8192);
    assert_eq!(h.ram_size(), 8192);
    assert_eq!(h.mapper_no(), 0x41);
    assert_eq!(calc_prg_offset(&h), 16);
}

#[test]
fn header_ram_banks() {
    let h = Header::new(vec![0x4E, 0x45, 0x53, 0x1A, 1, 0, 0, 0, 3]).unwrap();
    assert_eq!(h.ram_size(), 3 * 8192);
    assert_eq!(h.chr_size(), 0);
}

#[test]
fn header_rejects_bad_magic() {
    let e = Header::new(vec![0x4E, 0x45, 0x53, 0x00, 1, 1, 0, 0, 0]).unwrap_err();
    assert_eq!(e, "File is not a valid iNES ROM");
}

#[test]
fn flag_bytes() {
    assert_eq!(FlagsSix(0xA0).mapper_no_lower_nibble(), 0x0A);
    assert_eq!(FlagsSev(0xB0).mapper_no_upper_nibble(), 0xB0);
    assert!(FlagsSix(0x02).contains_batt_backed_ram());
    assert!(!FlagsSix(0xFD).contains_batt_backed_ram());
    assert!(FlagsSix(0x04).trainer_present());
    assert!(!FlagsSix(0xFB).trainer_present());
    assert!(FlagsSix(0x08).ignore_mirroring());
    assert!(!FlagsSix(0xF7).ignore_mirroring());
    assert!(FlagsSev(0x01).vs_unisystem());
    assert!(!FlagsSev(0x02).vs_unisystem());
    assert!(FlagsSev(0x02).playchoice_ten());
    assert!(!FlagsSev(0xFD).playchoice_ten());
    assert!(FlagsSev(0x08).ines_two_fmt());
    assert!(!FlagsSev(0x0C).ines_two_fmt());
    assert!(!FlagsSev(0x04).ines_two_fmt());
}

#[test]
fn parse_rom_splits_banks() {
    let file = ines_file(&[0xA9, 0x42]);
    let rom = parse_rom(&file).unwrap();
    assert_eq!(rom.mapper_number, 0);
    assert_eq!(rom.prg_rom.len(), 16384);
    assert_eq!(&rom.prg_rom[0..2], &[0xA9, 0x42]);
    assert_eq!(rom.chr_rom.len(), 8192);
    assert_eq!(rom.chr_rom[300], (300 % 251) as u8);
}

#[test]
fn parse_rom_skips_the_trainer() {
    let mut file = vec![0x4E, 0x45, 0x53, 0x1A, 1, 0, 0x04, 0, 0, 0, 0, 0, 0, 0, 0, 0];
    file.extend_from_slice(&[0xEE; 512]);
    let prg: Vec<u8> = (0..16384).map(|i| (i % 7) as u8).collect();
    file.extend_from_slice(&prg);
    let rom = parse_rom(&file).unwrap();
    assert_eq!(calc_prg_offset(&rom.header), 528);
    assert_eq!(rom.prg_rom, prg);
    assert!(rom.chr_rom.is_empty());
}

#[test]
fn parse_rom_rejects_bad_magic() {
    let mut file = ines_file(&[]);
    file[0] = b'X';
    assert_eq!(parse_rom(&file).unwrap_err(), "File is not a valid iNES ROM");
}

#[test]
fn cartridge_mirrors_sixteen_kib() {
    let rom = parse_rom(&ines_file(&[0x11, 0x22])).unwrap();
    let cart = Cartridge::new(rom);
    assert_eq!(cart.prg_read(0x8000), 0x11);
    assert_eq!(cart.prg_read(0xC000), 0x11);
    assert_eq!(cart.prg_read(0xC001), 0x22);
    assert!(cart.prg_readable(0xFFFF));
    assert!(!cart.prg_readable(0x5000));
    assert!(!cart.prg_readable(0x7FFF));
}

#[test]
fn cartridge_prg_ram_write_read() {
    let rom = parse_rom(&ines_file(&[])).unwrap();
    let mut cart = Cartridge::new(rom);
    assert_eq!(cart.prg_read(0x6000), 0);
    cart.prg_write(0x6123, 0x5A);
    assert_eq!(cart.prg_read(0x6123), 0x5A);
    assert_eq!(cart.prg_read(0x6124), 0);
}

#[test]
fn reset_state() {
    let nes = console(&[]);
    let r = nes.cpu.registers();
    assert_eq!(r.pc, 0xC000);
    assert_eq!(r.s, 0xFD);
    assert_eq!(r.p, 0x24);
}

#[test]
fn load_store_program() {
    // LDA #$42; STA $0200; LDX $0200; INX
    let mut nes = console(&[0xA9, 0x42, 0x8D, 0x00, 0x02, 0xAE, 0x00, 0x02, 0xE8]);
    assert_eq!(nes.step(), 0xA9);
    assert_eq!(nes.cpu.registers().a, 0x42);
    assert_eq!(nes.step(), 0x8D);
    assert_eq!(nes.step(), 0xAE);
    assert_eq!(nes.cpu.registers().x, 0x42);
    assert_eq!(nes.step(), 0xE8);
    let r = nes.cpu.registers();
    assert_eq!(r.x, 0x43);
    assert_eq!(r.pc, 0xC009);
}

#[test]
fn ram_is_mirrored_through_the_cpu() {
    // LDA #$99; STA $0805; LDY $0005
    let mut nes = console(&[0xA9, 0x99, 0x8D, 0x05, 0x08, 0xAC, 0x05, 0x00]);
    nes.step();
    nes.step();
    nes.step();
    assert_eq!(nes.cpu.registers().y, 0x99);
}

#[test]
fn jsr_then_rts_returns_after_the_call() {
    // $C000: JSR $C010 ; $C003: NOP ; $C010: RTS
    let mut program = vec![0xEA; 0x11];
    program[0] = 0x20;
    program[1] = 0x10;
    program[2] = 0xC0;
    program[0x10] = 0x60;
    let mut nes = console(&program);
    nes.step();
    assert_eq!(nes.cpu.registers().pc, 0xC010);
    assert_eq!(nes.cpu.registers().s, 0xFB);
    nes.step();
    assert_eq!(nes.cpu.registers().pc, 0xC003);
    assert_eq!(nes.cpu.registers().s, 0xFD);
}

#[test]
fn pha_pla_restores_accumulator() {
    // LDA #$80; PHA; LDA #$00; PLA
    let mut nes = console(&[0xA9, 0x80, 0x48, 0xA9, 0x00, 0x68]);
    for _ in 0..4 {
        nes.step();
    }
    let r = nes.cpu.registers();
    assert_eq!(r.a, 0x80);
    assert_eq!(r.s, 0xFD);
    // Negative set, Zero clear
    assert_eq!(r.p & 0x82, 0x80);
}

#[test]
fn adc_sets_carry_and_overflow() {
    // CLC; LDA #$7F; ADC #$01
    let mut nes = console(&[0x18, 0xA9, 0x7F, 0x69, 0x01]);
    for _ in 0..3 {
        nes.step();
    }
    let r = nes.cpu.registers();
    assert_eq!(r.a, 0x80);
    assert_eq!(r.p & 0x41, 0x40);
}

#[test]
fn sbc_subtracts() {
    // SEC; LDA #$50; SBC #$10 ; CLC; SBC #$50
    let mut nes = console(&[0x38, 0xA9, 0x50, 0xE9, 0x10, 0x18, 0xE9, 0x50]);
    for _ in 0..3 {
        nes.step();
    }
    let r = nes.cpu.registers();
    assert_eq!(r.a, 0x40);
    assert_eq!(r.p & 0x01, 0x01);
    nes.step();
    nes.step();
    // 0x40 - 0x50 - 1 borrows: 0xEF, carry clear, negative set.
    let r = nes.cpu.registers();
    assert_eq!(r.a, 0xEF);
    assert_eq!(r.p & 0x83, 0x80);
}

#[test]
fn compare_sets_flags() {
    // LDA #$10; CMP #$10
    let mut nes = console(&[0xA9, 0x10, 0xC9, 0x10]);
    nes.step();
    nes.step();
    assert_eq!(nes.cpu.registers().p & 0x83, 0x03);
}

#[test]
fn branch_taken_backwards() {
    // LDX #$02; DEX; BNE -3 ; then NOP
    let mut nes = console(&[0xA2, 0x02, 0xCA, 0xD0, 0xFD, 0xEA]);
    nes.step();
    nes.step();
    nes.step();
    assert_eq!(nes.cpu.registers().pc, 0xC002);
    nes.step();
    nes.step();
    assert_eq!(nes.cpu.registers().pc, 0xC005);
    assert_eq!(nes.cpu.registers().x, 0);
}

#[test]
fn can_step_refuses_unknown_opcode() {
    // $02 is not an opcode this interpreter runs.
    let nes = console(&[0x02]);
    assert!(!nes.can_step());
    let nes = console(&[0xEA]);
    assert!(nes.can_step());
}

#[test]
fn debugger_steps_and_traces() {
    let nes = console(&[0xA9, 0x01, 0xAA, 0x02]);
    let mut dbg = Debugger::init(nes);
    let trace = dbg.step(5);
    // Stops before the unknown opcode $02.
    assert_eq!(trace.len(), 2);
    assert_eq!(trace[0].0, 0xA9);
    assert_eq!(trace[0].1.a, 1);
    assert_eq!(trace[1].0, 0xAA);
    assert_eq!(trace[1].1, Registers { x: 1, pc: 0xC003, ..trace[1].1 });
}

#[test]
fn debugger_breakpoints() {
    let mut dbg = Debugger::init(console(&[]));
    let mut key = 1;
    dbg.set_breakpoint(&mut key, 0xC000);
    dbg.set_breakpoint(&mut key, 0xC010);
    assert_eq!(key, 3);
    assert_eq!(dbg.breakpoints.get(&1), Some(&0xC000));
    dbg.clear_bp(&1);
    assert_eq!(dbg.breakpoints.len(), 1);
    assert_eq!(dbg.breakpoints.get(&2), Some(&0xC010));
}

#[test]
fn debugger_print() {
    let mut dbg = Debugger::init(console(&[0xAB, 0xCD]));
    assert_eq!(dbg.print(0xC001), Some(0xCD));
    assert_eq!(dbg.print(0x10000), None);
}

#[test]
fn debugger_print_range() {
    let mut dbg = Debugger::init(console(&[1, 2, 3, 4]));
    assert_eq!(dbg.print_range(0xC001, 0xC003), Ok(vec![2, 3]));
    assert_eq!(dbg.print_range(0xC003, 0xC003), Ok(vec![]));
    assert_eq!(dbg.print_range(0x10000, 0xC000), Err(RangeError::InvalidAddress));
    assert_eq!(dbg.print_range(0xC003, 0xC001), Err(RangeError::LowAboveHigh));
}

#[test]
fn opcode_names_are_padded() {
    assert_eq!(opcode_to_name(0xA9), "LDA #v              ");
    assert_eq!(opcode_to_name(0x6C), "JMP (a)             ");
    assert_eq!(opcode_to_name(0xA9).len(), 20);
}
