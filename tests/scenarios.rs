use rustiboa::cartridge::{Cartridge, CartridgeError};
use rustiboa::cpu::{Cpu, CpuError};
use rustiboa::gameboy::GameBoy;
use rustiboa::interrupts::handle_interrupts;
use rustiboa::mmu::Mmu;

/// A 32 KiB image with `code` placed at 0x0100.
fn rom_with(code: &[u8]) -> Vec<u8> {
    let mut rom = vec![0u8; 0x8000];
    rom[0x100..0x100 + code.len()].copy_from_slice(code);
    rom
}

#[test]
fn xor_a_then_jump_back() {
    let mut mmu = Mmu::new(rom_with(&[0xAF, 0xC3, 0x00, 0x01]));
    let mut cpu = Cpu::new();
    assert_eq!(cpu.tick(&mut mmu), Ok(1));
    assert_eq!(cpu.registers.a, 0x00);
    assert_eq!(cpu.registers.f, 0x80);
    assert_eq!(cpu.registers.pc, 0x0101);
    assert_eq!(cpu.tick(&mut mmu), Ok(4));
    assert_eq!(cpu.registers.pc, 0x0100);
}

#[test]
fn load_through_hl_with_increment() {
    // LD HL,$C000; LD (HL),$42; LD A,(HL+); LD B,(HL)
    let mut mmu = Mmu::new(rom_with(&[0x21, 0x00, 0xC0, 0x36, 0x42, 0x2A, 0x46]));
    let mut cpu = Cpu::new();
    for _ in 0..4 {
        assert!(cpu.tick(&mut mmu).is_ok());
    }
    assert_eq!(cpu.registers.a, 0x42);
    assert_eq!(cpu.registers.hl(), 0xC001);
    assert_eq!(cpu.registers.b, 0x00);
}

#[test]
fn boot_state_registers() {
    let gb = GameBoy::new(rom_with(&[]));
    let r = &gb.cpu.registers;
    assert_eq!((r.a, r.f, r.b, r.c, r.d, r.e, r.h, r.l), (0x01, 0xB0, 0x00, 0x13, 0x00, 0xD8, 0x01, 0x4D));
    assert_eq!(r.sp, 0xFFFE);
    assert_eq!(r.pc, 0x0100);
    assert_eq!(r.af(), 0x01B0);
    assert_eq!(r.bc(), 0x0013);
    assert_eq!(r.de(), 0x00D8);
    assert_eq!(r.hl(), 0x014D);
}

#[test]
fn call_and_return_round_trip() {
    let mut rom = rom_with(&[0xCD, 0x00, 0x02]);
    rom[0x200] = 0xC9;
    let mut mmu = Mmu::new(rom);
    let mut cpu = Cpu::new();
    assert_eq!(cpu.tick(&mut mmu), Ok(6));
    assert_eq!(cpu.registers.pc, 0x0200);
    assert_eq!(cpu.registers.sp, 0xFFFC);
    assert_eq!(mmu.read_word(0xFFFC), 0x0103);
    assert_eq!(cpu.tick(&mut mmu), Ok(4));
    assert_eq!(cpu.registers.pc, 0x0103);
    assert_eq!(cpu.registers.sp, 0xFFFE);
}

#[test]
fn vblank_interrupt_handshake() {
    // JR -2: spin in place.
    let mut gb = GameBoy::new(rom_with(&[0x18, 0xFE]));
    gb.mmu.write_byte(0xFFFF, 0x01);
    gb.cpu.ime = true;
    let mut steps = 0;
    loop {
        steps += 1;
        assert!(steps < 100_000);
        if gb.step() == Ok(true) {
            break;
        }
    }
    assert_eq!(gb.mmu.read_byte(0xFF0F) & 0x01, 0x01);
    let sp = gb.cpu.registers.sp;
    let pc = gb.cpu.registers.pc;
    assert_eq!(handle_interrupts(&mut gb.cpu, &mut gb.mmu), 5);
    assert_eq!(gb.mmu.read_byte(0xFF0F) & 0x01, 0x00);
    assert!(!gb.cpu.ime);
    assert_eq!(gb.cpu.registers.pc, 0x0040);
    assert_eq!(gb.cpu.registers.sp, sp.wrapping_sub(2));
    assert_eq!(gb.mmu.read_word(gb.cpu.registers.sp), pc);
}

#[test]
fn vblank_serviced_by_next_step() {
    let mut gb = GameBoy::new(rom_with(&[0x18, 0xFE]));
    gb.mmu.write_byte(0xFFFF, 0x01);
    gb.cpu.ime = true;
    while gb.step() != Ok(true) {}
    let sp = gb.cpu.registers.sp;
    assert!(gb.step().is_ok());
    assert_eq!(gb.mmu.read_byte(0xFF0F) & 0x01, 0x00);
    assert!(!gb.cpu.ime);
    assert_eq!(gb.cpu.registers.sp, sp.wrapping_sub(2));
    // The handler at 0x0040 is a NOP in this image.
    assert_eq!(gb.cpu.registers.pc, 0x0041);
}

#[test]
fn mbc1_bank_switch() {
    let mut rom = vec![0u8; 0x10000];
    rom[0x8000] = 0xA7;
    rom[0x4000] = 0x11;
    let mut mmu = Mmu::new(rom);
    assert_eq!(mmu.read_byte(0x4000), 0x11);
    mmu.write_byte(0x2000, 0x02);
    assert_eq!(mmu.read_byte(0x4000), 0xA7);
    mmu.write_byte(0x2000, 0x00);
    assert_eq!(mmu.read_byte(0x4000), 0x11);
}

#[test]
fn illegal_opcode_is_an_error() {
    for op in [0xD3u8, 0xDB, 0xDD, 0xE3, 0xE4, 0xEB, 0xEC, 0xED, 0xF4, 0xFC, 0xFD] {
        let mut mmu = Mmu::new(rom_with(&[op]));
        let mut cpu = Cpu::new();
        assert_eq!(cpu.tick(&mut mmu), Err(CpuError::IllegalOpcode(op)));
    }
}

#[test]
fn step_reports_illegal_opcode() {
    let mut gb = GameBoy::new(rom_with(&[0xFD]));
    assert_eq!(gb.step(), Err(CpuError::IllegalOpcode(0xFD)));
}

#[test]
fn halted_cpu_idles() {
    let mut mmu = Mmu::new(rom_with(&[0x76, 0x3C]));
    let mut cpu = Cpu::new();
    assert_eq!(cpu.tick(&mut mmu), Ok(1));
    assert!(cpu.halted);
    assert_eq!(cpu.tick(&mut mmu), Ok(1));
    assert_eq!(cpu.registers.pc, 0x0101);
}

#[test]
fn halt_ends_on_pending_interrupt_without_ime() {
    let mut mmu = Mmu::new(rom_with(&[]));
    let mut cpu = Cpu::new();
    cpu.halted = true;
    mmu.write_byte(0xFFFF, 0x04);
    mmu.write_byte(0xFF0F, 0x04);
    assert_eq!(handle_interrupts(&mut cpu, &mut mmu), 0);
    assert!(!cpu.halted);
    assert_eq!(cpu.registers.pc, 0x0100);
}

#[test]
fn interrupt_priority_and_vectors() {
    let mut mmu = Mmu::new(rom_with(&[]));
    let mut cpu = Cpu::new();
    cpu.ime = true;
    mmu.write_byte(0xFFFF, 0x1F);
    mmu.write_byte(0xFF0F, 0x14);
    assert_eq!(handle_interrupts(&mut cpu, &mut mmu), 5);
    assert_eq!(cpu.registers.pc, 0x0050);
    assert_eq!(mmu.read_byte(0xFF0F), 0x10);
    cpu.ime = true;
    assert_eq!(handle_interrupts(&mut cpu, &mut mmu), 5);
    assert_eq!(cpu.registers.pc, 0x0060);
    assert_eq!(mmu.read_byte(0xFF0F), 0x00);
    cpu.ime = true;
    assert_eq!(handle_interrupts(&mut cpu, &mut mmu), 0);
}

#[test]
fn cartridge_header() {
    let mut rom = vec![0u8; 0x8000];
    rom[0x134..0x13A].copy_from_slice(b"TETRIS");
    rom[0x147] = 0x01;
    rom[0x148] = 0x01;
    rom[0x149] = 0x03;
    let cart = Cartridge::from_rom(rom).unwrap();
    assert_eq!(cart.title, "TETRIS");
    assert_eq!(cart.cartridge_type, 0x01);
    assert_eq!(cart.cartridge_type_name(), "MBC1");
    assert_eq!(cart.rom_size, 65536);
    assert_eq!(cart.ram_size, 32 * 1024);
    assert_eq!(cart.rom.len(), 0x8000);
}

#[test]
fn cartridge_full_title_and_unknown_type() {
    let mut rom = vec![0u8; 0x150];
    rom[0x134..0x144].copy_from_slice(b"ABCDEFGHIJKLMNOP");
    rom[0x147] = 0x42;
    rom[0x149] = 0x07;
    let cart = Cartridge::from_rom(rom).unwrap();
    assert_eq!(cart.title, "ABCDEFGHIJKLMNOP");
    assert_eq!(cart.cartridge_type_name(), "UNKNOWN");
    assert_eq!(cart.rom_size, 32 * 1024);
    assert_eq!(cart.ram_size, 0);
}

#[test]
fn cartridge_ram_sizes() {
    let sizes = [0usize, 2048, 8192, 32768, 131072, 65536, 0];
    for (code, size) in sizes.iter().enumerate() {
        let mut rom = vec![0u8; 0x150];
        rom[0x149] = code as u8;
        assert_eq!(Cartridge::from_rom(rom).unwrap().ram_size, *size);
    }
}

#[test]
fn cartridge_too_small() {
    assert_eq!(Cartridge::from_rom(vec![0u8; 0x14F]).err(), Some(CartridgeError::TooSmall));
    assert!(Cartridge::from_rom(vec![0u8; 0x150]).is_ok());
}

#[test]
fn cartridge_title_all_nul_is_empty() {
    let cart = Cartridge::from_rom(vec![0u8; 0x150]).unwrap();
    assert_eq!(cart.title, "");
    assert_eq!(cart.cartridge_type_name(), "ROM ONLY");
}
