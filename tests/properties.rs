use rustiboa::cpu::instructions::{
    adc_a_r, add_a_r, add_a_u8, add_hl_bc, add_sp_i8, cp_a_r, daa, dec_b, execute_cb, inc_b,
    jr_i8, ld_hl_sp_i8, pop_af, push_bc, sbc_a_r, sub_a_r,
};
use rustiboa::cpu::{Cpu, Registers};
use rustiboa::input::{Button, Input};
use rustiboa::mmu::Mmu;
use rustiboa::ppu::Ppu;
use rustiboa::timer::Timer;

const REG_B: u8 = 1;

fn blank_mmu() -> Mmu {
    Mmu::new(vec![0u8; 0x8000])
}

#[test]
fn af_writes_clear_low_nibble_of_f() {
    let mut r = Registers::new();
    for v in [0x12FFu16, 0x000F, 0xABCD, 0xFFFF] {
        r.set_af(v);
        assert_eq!(r.f & 0x0F, 0);
        assert_eq!(r.a, (v >> 8) as u8);
        assert_eq!(r.f, (v & 0xF0) as u8);
    }
}

#[test]
fn pop_af_clears_low_nibble_of_f() {
    let mut mmu = blank_mmu();
    let mut cpu = Cpu::new();
    cpu.registers.sp = 0xC000;
    mmu.write_word(0xC000, 0x12FF);
    assert_eq!(pop_af(&mut cpu, &mmu), 3);
    assert_eq!(cpu.registers.a, 0x12);
    assert_eq!(cpu.registers.f, 0xF0);
    assert_eq!(cpu.registers.sp, 0xC002);
}

#[test]
fn flag_setters_and_getters() {
    let mut r = Registers::new();
    r.f = 0;
    r.set_flag_z(true);
    r.set_flag_c(true);
    assert!(r.flag_z() && r.flag_c() && !r.flag_n() && !r.flag_h());
    assert_eq!(r.f, 0x90);
    r.set_flag_z(false);
    r.set_flag_n(true);
    r.set_flag_h(true);
    assert_eq!(r.f, 0x70);
}

#[test]
fn echo_region_mirrors_wram() {
    let mut mmu = blank_mmu();
    for k in [0u16, 1, 0x0FFF, 0x1DFF] {
        mmu.write_byte(0xC000 + k, (k % 251) as u8 + 1);
    }
    for a in (0xE000u16..=0xFDFF).step_by(7) {
        assert_eq!(mmu.read_byte(a), mmu.read_byte(a - 0x2000));
    }
    assert_eq!(mmu.read_byte(0xFDFF), mmu.read_byte(0xDDFF));
}

#[test]
fn echo_writes_reach_wram() {
    let mut mmu = blank_mmu();
    mmu.write_byte(0xE000 + 0x123, 0x5A);
    assert_eq!(mmu.read_byte(0xC000 + 0x123), 0x5A);
    mmu.write_byte(0xFDFF, 0x77);
    assert_eq!(mmu.read_byte(0xDDFF), 0x77);
}

#[test]
fn unusable_region_reads_ff() {
    let mut mmu = blank_mmu();
    for a in 0xFEA0u16..=0xFEFF {
        mmu.write_byte(a, 0x12);
        assert_eq!(mmu.read_byte(a), 0xFF);
    }
}

#[test]
fn div_write_resets() {
    let mut mmu = blank_mmu();
    mmu.increment_div();
    mmu.increment_div();
    assert_eq!(mmu.read_byte(0xFF04), 2);
    mmu.write_byte(0xFF04, 0x99);
    assert_eq!(mmu.read_byte(0xFF04), 0);
}

#[test]
fn serial_output_and_control() {
    let mut mmu = blank_mmu();
    mmu.write_byte(0xFF01, b'O');
    mmu.write_byte(0xFF01, 0x0A);
    mmu.write_byte(0xFF01, b'k');
    assert_eq!(mmu.serial_output, b"Ok".to_vec());
    mmu.write_byte(0xFF02, 0x81);
    assert_eq!(mmu.read_byte(0xFF02), 0x01);
}

#[test]
fn post_boot_io_defaults() {
    let mmu = blank_mmu();
    assert_eq!(mmu.read_byte(0xFF40), 0x91);
    assert_eq!(mmu.read_byte(0xFF41), 0x81);
    assert_eq!(mmu.read_byte(0xFF47), 0xFC);
    assert_eq!(mmu.read_byte(0xC000), 0x00);
}

#[test]
fn external_ram_gating() {
    let mut mmu = blank_mmu();
    mmu.write_byte(0xA000, 0x33);
    assert_eq!(mmu.read_byte(0xA000), 0xFF);
    mmu.write_byte(0x0000, 0x0A);
    mmu.write_byte(0xA000, 0x33);
    assert_eq!(mmu.read_byte(0xA000), 0x33);
    mmu.write_byte(0x0000, 0x00);
    assert_eq!(mmu.read_byte(0xA000), 0xFF);
}

#[test]
fn rom_reads_past_end_are_ff() {
    let mut mmu = blank_mmu();
    mmu.write_byte(0x2000, 0x05);
    assert_eq!(mmu.read_byte(0x4000), 0xFF);
}

#[test]
fn doctor_mode_ly() {
    let mut mmu = blank_mmu();
    mmu.doctor_mode = true;
    assert_eq!(mmu.read_byte(0xFF44), 0x90);
}

fn add_then_daa(a: u8, b: u8, carry: bool) -> (u8, bool) {
    let mut cpu = Cpu::new();
    cpu.registers.a = a;
    cpu.registers.b = b;
    cpu.registers.set_flag_c(carry);
    if carry {
        adc_a_r(&mut cpu, REG_B);
    } else {
        add_a_r(&mut cpu, REG_B);
    }
    assert_eq!(daa(&mut cpu), 1);
    (cpu.registers.a, cpu.registers.flag_c())
}

#[test]
fn daa_after_bcd_addition() {
    assert_eq!(add_then_daa(0x45, 0x38, false), (0x83, false));
    assert_eq!(add_then_daa(0x99, 0x01, false), (0x00, true));
    assert_eq!(add_then_daa(0x99, 0x99, false), (0x98, true));
    assert_eq!(add_then_daa(0x09, 0x09, true), (0x19, false));
    for a in 0..100u32 {
        for b in 0..100u32 {
            let bcd = |n: u32| ((n / 10) * 16 + n % 10) as u8;
            let (r, c) = add_then_daa(bcd(a), bcd(b), false);
            assert_eq!(r, bcd((a + b) % 100));
            assert_eq!(c, a + b >= 100);
        }
    }
}

#[test]
fn daa_after_subtraction() {
    let mut cpu = Cpu::new();
    cpu.registers.a = 0x42;
    cpu.registers.b = 0x15;
    sub_a_r(&mut cpu, REG_B);
    daa(&mut cpu);
    assert_eq!(cpu.registers.a, 0x27);
}

#[test]
fn cp_flags_match_sub_flags() {
    for a in 0..=255u8 {
        for b in 0..=255u8 {
            let mut c1 = Cpu::new();
            c1.registers.a = a;
            c1.registers.b = b;
            let mut c2 = Cpu::new();
            c2.registers.a = a;
            c2.registers.b = b;
            cp_a_r(&mut c1, REG_B);
            sub_a_r(&mut c2, REG_B);
            assert_eq!(c1.registers.f, c2.registers.f);
            assert_eq!(c1.registers.a, a);
        }
    }
}

#[test]
fn add_and_sub_flags() {
    let mut cpu = Cpu::new();
    cpu.registers.a = 0x0F;
    cpu.registers.b = 0x01;
    add_a_r(&mut cpu, REG_B);
    assert_eq!((cpu.registers.a, cpu.registers.f), (0x10, 0x20));
    cpu.registers.a = 0xFF;
    add_a_r(&mut cpu, REG_B);
    assert_eq!((cpu.registers.a, cpu.registers.f), (0x00, 0xB0));
    cpu.registers.a = 0x10;
    sub_a_r(&mut cpu, REG_B);
    assert_eq!((cpu.registers.a, cpu.registers.f), (0x0F, 0x60));
    cpu.registers.a = 0x00;
    cpu.registers.f = 0x10;
    sbc_a_r(&mut cpu, REG_B);
    assert_eq!((cpu.registers.a, cpu.registers.f), (0xFE, 0x70));
}

#[test]
fn inc_dec_keep_carry() {
    let mut cpu = Cpu::new();
    cpu.registers.f = 0x10;
    cpu.registers.b = 0xFF;
    assert_eq!(inc_b(&mut cpu), 1);
    assert_eq!((cpu.registers.b, cpu.registers.f), (0x00, 0xB0));
    assert_eq!(dec_b(&mut cpu), 1);
    assert_eq!((cpu.registers.b, cpu.registers.f), (0xFF, 0x70));
}

#[test]
fn add_hl_flags() {
    let mut cpu = Cpu::new();
    cpu.registers.f = 0x80;
    cpu.registers.set_hl(0x0FFF);
    cpu.registers.set_bc(0x0001);
    assert_eq!(add_hl_bc(&mut cpu), 2);
    assert_eq!(cpu.registers.hl(), 0x1000);
    assert_eq!(cpu.registers.f, 0xA0);
    cpu.registers.set_hl(0xFFFF);
    add_hl_bc(&mut cpu);
    assert_eq!(cpu.registers.hl(), 0x0000);
    assert_eq!(cpu.registers.f, 0xB0);
}

#[test]
fn sp_offset_arithmetic() {
    let mut rom = vec![0u8; 0x8000];
    rom[0x100] = 0xFF; // -1
    rom[0x101] = 0x08;
    let mmu = Mmu::new(rom);
    let mut cpu = Cpu::new();
    cpu.registers.sp = 0x1000;
    assert_eq!(add_sp_i8(&mut cpu, &mmu), 4);
    assert_eq!(cpu.registers.sp, 0x0FFF);
    assert_eq!(cpu.registers.f, 0x00);
    assert_eq!(ld_hl_sp_i8(&mut cpu, &mmu), 3);
    assert_eq!(cpu.registers.hl(), 0x1007);
    assert_eq!(cpu.registers.f, 0x30);
    assert_eq!(cpu.registers.pc, 0x0102);
}

#[test]
fn relative_jump_backwards() {
    let mut rom = vec![0u8; 0x8000];
    rom[0x100] = 0xFC; // -4
    let mmu = Mmu::new(rom);
    let mut cpu = Cpu::new();
    assert_eq!(jr_i8(&mut cpu, &mmu), 3);
    assert_eq!(cpu.registers.pc, 0x00FD);
}

#[test]
fn push_writes_little_endian() {
    let mut mmu = blank_mmu();
    let mut cpu = Cpu::new();
    cpu.registers.set_bc(0xBEEF);
    assert_eq!(push_bc(&mut cpu, &mut mmu), 4);
    assert_eq!(cpu.registers.sp, 0xFFFC);
    assert_eq!(mmu.read_byte(0xFFFC), 0xEF);
    assert_eq!(mmu.read_byte(0xFFFD), 0xBE);
}

#[test]
fn immediate_add_advances_pc() {
    let mut rom = vec![0u8; 0x8000];
    rom[0x100] = 0x05;
    let mmu = Mmu::new(rom);
    let mut cpu = Cpu::new();
    cpu.registers.a = 0x03;
    assert_eq!(add_a_u8(&mut cpu, &mmu), 2);
    assert_eq!(cpu.registers.a, 0x08);
    assert_eq!(cpu.registers.pc, 0x0101);
}

fn run_cb(op: u8, setup: impl Fn(&mut Cpu, &mut Mmu)) -> (Cpu, Mmu, u8) {
    let mut rom = vec![0u8; 0x8000];
    rom[0x100] = op;
    let mut mmu = Mmu::new(rom);
    let mut cpu = Cpu::new();
    setup(&mut cpu, &mut mmu);
    let cycles = execute_cb(&mut cpu, &mut mmu);
    (cpu, mmu, cycles)
}

#[test]
fn cb_swap_bit_res_set() {
    let (cpu, _, n) = run_cb(0x37, |c, _| c.registers.a = 0xF1); // SWAP A
    assert_eq!((cpu.registers.a, cpu.registers.f, n), (0x1F, 0x00, 2));
    let (cpu, _, n) = run_cb(0x7C, |c, _| c.registers.h = 0x7F); // BIT 7,H
    assert_eq!((cpu.registers.f & 0xE0, n), (0xA0, 2));
    let (_, mut mmu, n) = run_cb(0x86, |c, m| {
        c.registers.set_hl(0xC000);
        m.write_byte(0xC000, 0xFF);
    }); // RES 0,(HL)
    assert_eq!((mmu.read_byte(0xC000), n), (0xFE, 4));
    let (_, mmu2, n) = run_cb(0xFE, |c, _| c.registers.set_hl(0xC000)); // SET 7,(HL)
    assert_eq!((mmu2.read_byte(0xC000), n), (0x80, 4));
    mmu.write_byte(0xC000, 0);
    let (cpu, _, n) = run_cb(0x46, |c, m| {
        c.registers.set_hl(0xC000);
        m.write_byte(0xC000, 0x01);
    }); // BIT 0,(HL)
    assert_eq!((cpu.registers.f & 0x80, n), (0x00, 3));
}

#[test]
fn cb_rotates_and_shifts() {
    let (cpu, _, _) = run_cb(0x00, |c, _| c.registers.b = 0x85); // RLC B
    assert_eq!((cpu.registers.b, cpu.registers.f), (0x0B, 0x10));
    let (cpu, _, _) = run_cb(0x28, |c, _| c.registers.b = 0x81); // SRA B
    assert_eq!((cpu.registers.b, cpu.registers.f), (0xC0, 0x10));
    let (cpu, _, _) = run_cb(0x3F, |c, _| c.registers.a = 0x01); // SRL A
    assert_eq!((cpu.registers.a, cpu.registers.f), (0x00, 0x90));
}

#[test]
fn one_frame_per_70224_dots() {
    let mut mmu = blank_mmu();
    let mut ppu = Ppu::new();
    let mut frames = 0;
    for dot in 1..=70224u32 {
        if ppu.tick(&mut mmu) {
            frames += 1;
            assert_eq!(dot, 144 * 456);
            assert_eq!(ppu.ly(), 144);
            assert_eq!(ppu.mode(), 1);
            assert_eq!(mmu.read_byte(0xFF0F) & 0x01, 0x01);
        }
    }
    assert_eq!(frames, 1);
    assert_eq!(ppu.ly(), 0);
    assert_eq!(ppu.mode(), 2);
}

#[test]
fn ppu_modes_within_a_line() {
    let mut mmu = blank_mmu();
    let mut ppu = Ppu::new();
    assert_eq!(ppu.mode(), 2);
    for _ in 0..80 {
        ppu.tick(&mut mmu);
    }
    assert_eq!(ppu.mode(), 3);
    assert_eq!(mmu.read_byte(0xFF41), 0x83);
    for _ in 80..247 {
        ppu.tick(&mut mmu);
    }
    assert_eq!(ppu.mode(), 0);
    assert_eq!(mmu.read_byte(0xFF41), 0x80);
    for _ in 247..456 {
        ppu.tick(&mut mmu);
    }
    assert_eq!(ppu.mode(), 2);
    assert_eq!(mmu.read_byte(0xFF41), 0x82);
    assert_eq!(ppu.ly(), 1);
    assert_eq!(mmu.read_byte(0xFF44), 1);
}

#[test]
fn lcd_off_freezes_ppu() {
    let mut mmu = blank_mmu();
    let mut ppu = Ppu::new();
    for _ in 0..1000 {
        ppu.tick(&mut mmu);
    }
    mmu.write_byte(0xFF40, 0x11);
    let (ly, mode, fb) = (ppu.ly(), ppu.mode(), ppu.framebuffer.clone());
    for _ in 0..100_000 {
        assert!(!ppu.tick(&mut mmu));
    }
    assert_eq!((ppu.ly(), ppu.mode()), (ly, mode));
    assert_eq!(ppu.framebuffer, fb);
}

#[test]
fn background_pixels_through_palette() {
    let mut mmu = blank_mmu();
    // Tile 0, row 0: low plane 0xF0, high plane 0xCC.
    mmu.write_byte(0x8000, 0xF0);
    mmu.write_byte(0x8001, 0xCC);
    mmu.write_byte(0xFF47, 0xE4);
    let mut ppu = Ppu::new();
    for _ in 0..456 {
        ppu.tick(&mut mmu);
    }
    assert_eq!(&ppu.framebuffer[0..8], &[3, 3, 1, 1, 2, 2, 0, 0]);
    assert_eq!(&ppu.framebuffer[8..16], &[3, 3, 1, 1, 2, 2, 0, 0]);
}

#[test]
fn oam_dma_copies_160_bytes() {
    let mut mmu = blank_mmu();
    for i in 0..160u16 {
        mmu.write_byte(0xC100 + i, (i as u8).wrapping_mul(3).wrapping_add(1));
    }
    mmu.write_byte(0xFF46, 0xC1);
    for _ in 0..160 {
        mmu.tick_dma();
    }
    for i in 0..160u16 {
        assert_eq!(mmu.read_byte(0xFE00 + i), mmu.read_byte(0xC100 + i));
    }
    mmu.write_byte(0xC100, 0xEE);
    mmu.tick_dma();
    assert_ne!(mmu.read_byte(0xFE00), 0xEE);
}

#[test]
fn timer_at_262144_hz() {
    let mut mmu = blank_mmu();
    let mut timer = Timer::new();
    mmu.write_byte(0xFF07, 0x05);
    mmu.write_byte(0xFF06, 0xF0);
    mmu.write_byte(0xFF05, 0xF0);
    for k in 1..=(4 * 15) {
        timer.tick(1, &mut mmu);
        assert_eq!(mmu.read_byte(0xFF05), 0xF0 + (k / 4) as u8);
    }
    assert_eq!(mmu.read_byte(0xFF0F) & 0x04, 0);
    for _ in 0..4 {
        timer.tick(1, &mut mmu);
    }
    assert_eq!(mmu.read_byte(0xFF05), 0xF0);
    assert_eq!(mmu.read_byte(0xFF0F) & 0x04, 0x04);
}

#[test]
fn timer_div_and_disabled_tima() {
    let mut mmu = blank_mmu();
    let mut timer = Timer::new();
    for _ in 0..16 {
        timer.tick(8, &mut mmu);
    }
    assert_eq!(mmu.read_byte(0xFF04), 2);
    assert_eq!(mmu.read_byte(0xFF05), 0);
    mmu.write_byte(0xFF07, 0x04);
    timer.tick(255, &mut mmu);
    timer.tick(1, &mut mmu);
    assert_eq!(mmu.read_byte(0xFF05), 1);
    assert_eq!(mmu.read_byte(0xFF04), 6);
}

#[test]
fn joypad_byte_is_active_low() {
    let mut input = Input::new();
    assert_eq!(input.read_joypad(), 0xFF);
    input.key_down(Button::A);
    assert_eq!(input.read_joypad(), 0xEF);
    input.key_down(Button::Right);
    assert_eq!(input.read_joypad(), 0xEE);
    input.key_up(Button::A);
    assert_eq!(input.read_joypad(), 0xFE);
    input.key_down(Button::Select);
    assert_eq!(input.read_joypad(), 0x7E);
}
