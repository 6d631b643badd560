use gadget_nes::cpu::power_on;
use gadget_nes::ines::InesRom;
use gadget_nes::interconnect::Interconnect;
use gadget_nes::cart::Cartridge;
use gadget_nes::mapper::{choose_mapper, Mapper, Mapper0, Mirroring as CartMirroring, RomHeader};
use gadget_nes::mem::Memory as FlatMemory;
use gadget_nes::mem_map::{map_virt_addr, PhysAddr};
use gadget_nes::nes::memory::mapper::{Mapper as _, Mapper0 as PrgMapper};
use gadget_nes::nes::memory::Ram;
use gadget_nes::nes::ppu::memory_map::MemoryMap;
use gadget_nes::nes::ppu::{Mirroring, Ppu as NesPpu, PpuStatus, Scanline};
use gadget_nes::ppu::mem_map;
use gadget_nes::ppu::ppu::Ppu as RegisterPpu;
use gadget_nes::rom::parse_rom;
use gadget_nes::sdl;

fn ines(prg_banks: u8, chr_banks: u8, six: u8, sev: u8) -> Vec<u8> {
    let mut buf = vec![0x4E, 0x45, 0x53, 0x1A, prg_banks, chr_banks, six, sev, 0, 0, 0, 0, 0, 0, 0, 0];
    if six & 4 != 0 {
        buf.extend_from_slice(&[0xEE; 512]);
    }
    let prg: Vec<u8> = (0..prg_banks as usize * 16384).map(|i| (i % 253) as u8).collect();
    buf.extend_from_slice(&prg);
    let chr: Vec<u8> = (0..chr_banks as usize * 8192).map(|i| (i % 241) as u8).collect();
    buf.extend_from_slice(&chr);
    buf
}

#[test]
fn ines_reads_banks() {
    let rom = InesRom::from_bytes(&ines(1, 1, 0, 0));
    assert_eq!(rom.mapper_number, 0);
    assert_eq!(rom.prg_rom.len(), 16384);
    assert_eq!(rom.prg_rom[300], (300 % 253) as u8);
    assert_eq!(rom.chr.len(), 8192);
    assert_eq!(rom.chr[300], (300 % 241) as u8);
    assert_eq!(rom.header.magic_no, [0x4E, 0x45, 0x53, 0x1A]);
    assert!(!rom.header.contains_trainer());
}

#[test]
fn ines_skips_the_trainer() {
    let rom = InesRom::from_bytes(&ines(1, 1, 4, 0));
    assert!(rom.header.contains_trainer());
    assert_eq!(rom.prg_rom[0], 0);
    assert_eq!(rom.prg_rom[1], 1);
}

#[test]
fn ines_without_chr_has_one_byte() {
    let rom = InesRom::from_bytes(&ines(1, 0, 0, 0));
    assert_eq!(rom.chr, vec![0]);
}

#[test]
fn ines_mapper_number_from_upper_nibbles() {
    let rom = InesRom::from_bytes(&ines(1, 1, 0x20, 0x13));
    assert_eq!(rom.mapper_number, 0x12);
    assert_eq!(rom.header.mapper_no(), 0x12);
    let rom = InesRom::from_bytes(&ines(1, 1, 0x10, 0x00));
    assert_eq!(rom.mapper_number, 0x01);
}

#[test]
fn ines_mirroring() {
    assert_eq!(InesRom::from_bytes(&ines(1, 1, 0x08, 0)).mirroring(), Mirroring::FourWay);
    assert_eq!(InesRom::from_bytes(&ines(1, 1, 0x01, 0)).mirroring(), Mirroring::Horizontal);
    assert_eq!(InesRom::from_bytes(&ines(1, 1, 0x00, 0)).mirroring(), Mirroring::Vertical);
}

#[test]
fn prg_mapper_places_small_rom_at_c000() {
    let rom = InesRom::from_bytes(&ines(1, 1, 0, 0));
    let m = PrgMapper::new(&rom);
    assert_eq!(m.read_rom_byte(0xC000), 0);
    assert_eq!(m.read_rom_byte(0xC005), 5);
    assert_eq!(m.read_chr_byte(0x0007), 7);
    let rom = InesRom::from_bytes(&ines(2, 1, 0, 0));
    let m = PrgMapper::new(&rom);
    assert_eq!(m.read_rom_byte(0x8000), 0);
    assert_eq!(m.read_rom_byte(0xC000), (0x4000 % 253) as u8);
}

#[test]
fn ram_is_zeroed_and_holds_writes() {
    let mut ram = Ram::new();
    assert_eq!(ram.read_byte(0x07FF), 0);
    ram.write_byte(0x00FF, 1);
    ram.write_byte(0x0100, 2);
    ram.write_byte(0x07FF, 3);
    assert_eq!((ram.read_byte(0x00FF), ram.read_byte(0x0100), ram.read_byte(0x07FF)), (1, 2, 3));
}

#[test]
fn ppu_status_read_clears_vblank() {
    let mut s = PpuStatus(0xE5);
    assert_eq!(s.read(), 0xE5);
    assert_eq!(s.read(), 0x65);
    s.reset();
    assert_eq!(s.0, 0xA0);
}

#[test]
fn scanline_walk() {
    assert_eq!(Scanline::PreRender.next(), Scanline::Visible(0));
    assert_eq!(Scanline::Visible(239).next(), Scanline::PostRender);
    assert_eq!(Scanline::PostRender.next(), Scanline::VBlank(0));
    assert_eq!(Scanline::VBlank(19).next(), Scanline::PreRender);
    let mut s = Scanline::Visible(17);
    for _ in 0..262 {
        s = s.next();
    }
    assert_eq!(s, Scanline::Visible(17));
}

#[test]
fn nes_ppu_registers() {
    let rom = InesRom::from_bytes(&ines(1, 1, 0, 0));
    let mut ppu = NesPpu::new(PrgMapper::new(&rom), Mirroring::Vertical);
    assert_eq!(ppu.read_byte(0x2002), 0);
    ppu.power_on_reset();
    ppu.write_byte(0x2000, 0xFF);
    assert_eq!(ppu.read_byte(0x2000), 0);
    assert_eq!(ppu.read_byte(0x2002), 0xA0);
    assert_eq!(ppu.read_byte(0x2002), 0x20);
    // From visible line 0 the walk passes the first vertical blank line,
    // which raises the NMI; the cycle count then starts again from 0.
    assert!(ppu.step(1000));
    // Now on a later vertical blank line: catching up to 50 takes one line.
    assert!(!ppu.step(50));
    assert_eq!(ppu.read_byte(0x2002), 0x20);
}

#[test]
fn nametable_mirroring() {
    let rom = InesRom::from_bytes(&ines(1, 1, 0, 0));
    let mut m = MemoryMap::new(PrgMapper::new(&rom), Mirroring::Vertical);
    assert_eq!(m.read_byte(0x2000), 0xFF);
    m.write_byte(0x2005, 0x11);
    assert_eq!(m.read_byte(0x2405), 0x11);
    assert_eq!(m.read_byte(0x3005), 0x11);
    assert_eq!(m.read_byte(0x2805), 0xFF);
    m.write_byte(0x2C10, 0x22);
    assert_eq!(m.read_byte(0x2810), 0x22);
    assert_eq!(m.read_byte(0x0009), 9);
    assert_eq!(m.read_byte(0x3F00), 0);
    assert_eq!(m.read_byte(0x3F40), 0);
    let mut h = MemoryMap::new(PrgMapper::new(&rom), Mirroring::Horizontal);
    h.write_byte(0x2005, 0x33);
    assert_eq!(h.read_byte(0x2805), 0x33);
    assert_eq!(h.read_byte(0x2405), 0xFF);
}

#[test]
fn cartridge_mapper_nametables() {
    let header = RomHeader { mapper_number: 0, prg_rom_size: 1, prg_ram_size: 1, chr_mem_size: 1, mirroring: CartMirroring::Vertical };
    let mut m = choose_mapper(&header);
    assert_eq!(m.get_nametable_byte(0x2000), 0);
    assert_eq!(m.get_nametable_byte(0x2FFF), 0);
    m.prg_ram_write(0x10, 0x44);
    assert_eq!(m.prg_ram_read(0x10), 0x44);
    assert_eq!(m.get_pattern_table_byte(0x1FFF), 0);
}

#[test]
fn cartridge_mapper_horizontal_nametables() {
    let header = RomHeader { mapper_number: 0, prg_rom_size: 1, prg_ram_size: 0, chr_mem_size: 1, mirroring: CartMirroring::Horizontal };
    let m = choose_mapper(&header);
    // $2800 mirrors $2C00, and both lie in VRAM.
    assert_eq!(m.get_nametable_byte(0x2800), m.get_nametable_byte(0x2C00));
    assert_eq!(m.get_nametable_byte(0x2FFF), 0);
}

#[test]
fn cartridge_mapper_loads_rom() {
    let header = RomHeader { mapper_number: 0, prg_rom_size: 1, prg_ram_size: 0, chr_mem_size: 1, mirroring: CartMirroring::Horizontal };
    let mut m = Mapper0::new(&header);
    let file: Vec<u8> = (0..24592u32).map(|i| (i % 199) as u8).collect();
    m.load_rom(file);
    // A 16 KiB ROM is read through the low 14 address bits.
    assert_eq!(m.prg_rom_read(0x8000), 16);
    assert_eq!(m.prg_rom_read(0xC000), 16);
    assert_eq!(m.prg_rom_read(0xFFFF), ((16 + 0x3FFF) % 199) as u8);
    assert_eq!(m.get_pattern_table_byte(0x0001), ((16400 + 1) % 199) as u8);
    assert_eq!(m.get_nametable_byte(0x2401), m.get_nametable_byte(0x2001));
}

#[test]
fn flat_memory() {
    let mut mem = FlatMemory::default();
    mem.load_cartridge(vec![0x34, 0x12, 0x99]);
    assert_eq!(mem.read_instr(2), 0x99);
    assert_eq!(mem.rom_byte(0), 0x34);
    assert_eq!(mem.rom_word(0), 0x1234);
    assert_eq!(mem.read_ram(0x7FF), 0);
}

#[test]
fn cpu_address_regions() {
    assert_eq!(map_virt_addr(0x0000), PhysAddr::CpuRam(0x0000));
    assert_eq!(map_virt_addr(0x0800), PhysAddr::RamMirrorOne(0x0800));
    assert_eq!(map_virt_addr(0x17FF), PhysAddr::RamMirrorTwo(0x17FF));
    assert_eq!(map_virt_addr(0x1800), PhysAddr::RamMirrorThree(0x1800));
    assert_eq!(map_virt_addr(0x2007), PhysAddr::PpuRegs(0x2007));
    assert_eq!(map_virt_addr(0x2008), PhysAddr::PpuMirrors(0x2008));
    assert_eq!(map_virt_addr(0x401F), PhysAddr::ApuRegs(0x401F));
    assert_eq!(map_virt_addr(0x4020), PhysAddr::CartSpace(0x4020));
}

#[test]
fn ppu_address_regions() {
    assert_eq!(mem_map::map_virt_addr(0x1000), mem_map::PhysAddr::PatternTable(0x1000));
    assert_eq!(mem_map::map_virt_addr(0x6400), mem_map::PhysAddr::NameTable(0x2400));
    assert_eq!(mem_map::map_virt_addr(0xFF00), mem_map::PhysAddr::InternalPalette(0x3F00));
}

#[test]
fn register_ppu() {
    let mut ppu = RegisterPpu::new();
    ppu.write_to_reg(0x2000, 0x80);
    ppu.write_to_reg(0x2003, 0x1E);
    ppu.write_to_reg(0x4014, 0x02);
    // Only bit 0 of the address selects a register.
    assert_eq!(ppu.read_reg(0x2000), 0x80);
    assert_eq!(ppu.read_reg(0x2002), 0x80);
    assert_eq!(ppu.read_reg(0x2001), 0x1E);
    assert_eq!(ppu.read_reg(0x4014), 0x02);
    ppu.power_up();
}

#[test]
fn register_ppu_reports_vblank() {
    let rom = parse_rom(&ines(1, 1, 0, 0)).unwrap();
    let mut ic = Interconnect::new(Cartridge::new(rom));
    let mut ppu = RegisterPpu::new();
    // Pre-render, 240 visible lines and post-render take 242 * 228 cycles;
    // vertical blank ends past 57000.
    assert!(!ppu.step(&mut ic, &1000));
    assert!(ppu.step(&mut ic, &57000));
    assert!(!ppu.step(&mut ic, &60000));
}

#[test]
fn power_on_registers() {
    let cpu = power_on::Cpu::new();
    assert_eq!((cpu.a(), cpu.pc(), cpu.s(), cpu.p()), (0, 0, 0xFD, 0x34));
}

#[test]
fn screen_sizes() {
    assert_eq!(sdl::ScreenSize::Medium.dimensions(), (512, 480));
    assert_eq!(sdl::ScreenSize::Large.dimensions(), (1024, 960));
    assert_eq!(sdl::sdl::ScreenSize::Large.factor(), 3);
    assert_eq!(sdl::sdl::ScreenSize::Medium.window_size(), (512, 480));
}

#[test]
fn palette_colours() {
    let ppu = RegisterPpu::new();
    let c = ppu.get_color(1);
    // Entry 1 is (0, 0, 252), read back to front.
    assert_eq!((c.red, c.green, c.blue), (252, 0, 0));
    let c = ppu.get_color(0x30);
    assert_eq!((c.red, c.green, c.blue), (252, 252, 252));
}
