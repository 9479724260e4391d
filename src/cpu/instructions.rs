//! The instructions of the main and CB-prefixed opcode tables. Each takes the
//! processor and the memory, does its work and returns the M-cycles it took.

use vstd::prelude::*;
use crate::cpu::alu::{
    advanced, alu_add, alu_add_hl, alu_and, alu_cp, alu_daa, alu_or, alu_sub, alu_xor, cb_effect,
    cb_reg_value, dec_flags, inc_flags, reg_value, shift_carry, shift_result, signed, sp_offset_flags,
    with_cb_reg, with_reg, REG_A, REG_B, REG_C, REG_D, REG_E, REG_H, REG_L,
};
use crate::cpu::registers::{flags, hi_byte, lo_byte, Registers};
use crate::cpu::{Cpu, CpuError};
use crate::mmu::{add16, add8, Mmu};

verus! {

/// Builds the flag byte from the four flags.
fn pack_flags(z: bool, n: bool, h: bool, c: bool) -> (r: u8)
    ensures
        r == flags(z, n, h, c),
{
    (if z { 0x80u8 } else { 0u8 }) | (if n { 0x40u8 } else { 0u8 })
        | (if h { 0x20u8 } else { 0u8 }) | (if c { 0x10u8 } else { 0u8 })
}

/// Reads the byte at PC and moves PC past it.
fn read_u8(cpu: &mut Cpu, mmu: &Mmu) -> (r: u8)
    requires
        mmu.wf(),
    ensures
        r == mmu@.read(old(cpu).registers.pc),
        *final(cpu) == old(cpu).with_regs(advanced(old(cpu).registers, 1)),
{
    let value = mmu.read_byte(cpu.registers.pc);
    cpu.registers.pc = cpu.registers.pc.wrapping_add(1);
    value
}

/// Reads the little-endian word at PC and moves PC past it.
fn read_u16(cpu: &mut Cpu, mmu: &Mmu) -> (r: u16)
    requires
        mmu.wf(),
    ensures
        r == mmu@.read_word(old(cpu).registers.pc),
        *final(cpu) == old(cpu).with_regs(advanced(old(cpu).registers, 2)),
{
    let value = mmu.read_word(cpu.registers.pc);
    cpu.registers.pc = cpu.registers.pc.wrapping_add(2);
    value
}

/// A byte read as a two's-complement number.
fn to_signed(b: u8) -> (r: i8)
    ensures
        r as int == signed(b),
{
    proof {
        assert((b as i8) as int == if b < 128 { b as int } else { b as int - 256 }) by (bit_vector);
    }
    #[verifier::truncate] (b as i8)
}

/// `base` moved by a signed offset, wrapping.
fn add_offset(base: u16, offset: i8) -> (r: u16)
    ensures
        r == add16(base, offset as int),
{
    proof {
        assert((offset as u16) as int == if offset < 0 {
            offset as int + 0x10000
        } else {
            offset as int
        }) by (bit_vector);
    }
    base.wrapping_add(#[verifier::truncate] (offset as u16))
}

/// Reads the signed byte at PC and moves PC past it.
fn read_i8(cpu: &mut Cpu, mmu: &Mmu) -> (r: i8)
    requires
        mmu.wf(),
    ensures
        r as int == signed(mmu@.read(old(cpu).registers.pc)),
        *final(cpu) == old(cpu).with_regs(advanced(old(cpu).registers, 1)),
{
    let b = read_u8(cpu, mmu);
    to_signed(b)
}

/// Reads a register by its main-table code.
fn get_reg(cpu: &Cpu, reg: u8) -> (r: u8)
    ensures
        r == reg_value(cpu.registers, reg),
{
    if reg == REG_A {
        cpu.registers.a
    } else if reg == REG_B {
        cpu.registers.b
    } else if reg == REG_C {
        cpu.registers.c
    } else if reg == REG_D {
        cpu.registers.d
    } else if reg == REG_E {
        cpu.registers.e
    } else if reg == REG_H {
        cpu.registers.h
    } else if reg == REG_L {
        cpu.registers.l
    } else {
        0
    }
}

/// Writes a register by its main-table code.
fn set_reg(cpu: &mut Cpu, reg: u8, value: u8)
    ensures
        *final(cpu) == old(cpu).with_regs(with_reg(old(cpu).registers, reg, value)),
{
    if reg == REG_A {
        cpu.registers.a = value;
    } else if reg == REG_B {
        cpu.registers.b = value;
    } else if reg == REG_C {
        cpu.registers.c = value;
    } else if reg == REG_D {
        cpu.registers.d = value;
    } else if reg == REG_E {
        cpu.registers.e = value;
    } else if reg == REG_H {
        cpu.registers.h = value;
    } else if reg == REG_L {
        cpu.registers.l = value;
    }
}

/// Reads a register by its CB-table code (6, the (HL) operand, reads as 0).
fn get_reg_cb(cpu: &Cpu, reg: u8) -> (r: u8)
    ensures
        r == cb_reg_value(cpu.registers, reg),
{
    if reg == 0 {
        cpu.registers.b
    } else if reg == 1 {
        cpu.registers.c
    } else if reg == 2 {
        cpu.registers.d
    } else if reg == 3 {
        cpu.registers.e
    } else if reg == 4 {
        cpu.registers.h
    } else if reg == 5 {
        cpu.registers.l
    } else if reg == 7 {
        cpu.registers.a
    } else {
        0
    }
}

/// Writes a register by its CB-table code.
fn set_reg_cb(cpu: &mut Cpu, reg: u8, value: u8)
    ensures
        *final(cpu) == old(cpu).with_regs(with_cb_reg(old(cpu).registers, reg, value)),
{
    if reg == 0 {
        cpu.registers.b = value;
    } else if reg == 1 {
        cpu.registers.c = value;
    } else if reg == 2 {
        cpu.registers.d = value;
    } else if reg == 3 {
        cpu.registers.e = value;
    } else if reg == 4 {
        cpu.registers.h = value;
    } else if reg == 5 {
        cpu.registers.l = value;
    } else if reg == 7 {
        cpu.registers.a = value;
    }
}

/// Pushes a word: SP moves down by two and the word is written there.
fn push_u16(cpu: &mut Cpu, mmu: &mut Mmu, value: u16)
    requires
        old(mmu).wf(),
    ensures
        *final(cpu) == old(cpu).with_regs(
            (Registers { sp: add16(old(cpu).registers.sp, -2), ..old(cpu).registers }),
        ),
        final(mmu)@ == old(mmu)@.write_word(add16(old(cpu).registers.sp, -2), value),
        final(mmu).wf(),
{
    cpu.registers.sp = cpu.registers.sp.wrapping_sub(2);
    mmu.write_word(cpu.registers.sp, value);
}

/// Pops the word at SP; SP moves up by two.
fn pop_u16(cpu: &mut Cpu, mmu: &Mmu) -> (r: u16)
    requires
        mmu.wf(),
    ensures
        r == mmu@.read_word(old(cpu).registers.sp),
        *final(cpu) == old(cpu).with_regs(
            (Registers { sp: add16(old(cpu).registers.sp, 2), ..old(cpu).registers }),
        ),
{
    let value = mmu.read_word(cpu.registers.sp);
    cpu.registers.sp = cpu.registers.sp.wrapping_add(2);
    value
}

// Control

/// NOP.
pub fn nop(_cpu: &Cpu) -> (r: u8)
    ensures
        r == 1,
{
    1
}

/// STOP: skips the byte that follows.
pub fn stop(cpu: &mut Cpu) -> (r: u8)
    ensures
        *final(cpu) == old(cpu).with_regs(advanced(old(cpu).registers, 1)),
        r == 1,
{
    cpu.registers.pc = cpu.registers.pc.wrapping_add(1);
    1
}

/// HALT: waits for an interrupt.
pub fn halt(cpu: &mut Cpu) -> (r: u8)
    ensures
        *final(cpu) == (Cpu { halted: true, ..*old(cpu) }),
        r == 1,
{
    cpu.halted = true;
    1
}

/// DI: clears IME.
pub fn di(cpu: &mut Cpu) -> (r: u8)
    ensures
        *final(cpu) == (Cpu { ime: false, ..*old(cpu) }),
        r == 1,
{
    cpu.ime = false;
    1
}

/// EI: sets IME at once.
pub fn ei(cpu: &mut Cpu) -> (r: u8)
    ensures
        *final(cpu) == (Cpu { ime: true, ..*old(cpu) }),
        r == 1,
{
    cpu.ime = true;
    1
}

/// An opcode with no instruction: always the error naming it.
pub fn illegal_opcode(opcode: u8) -> (r: Result<u8, CpuError>)
    ensures
        r == Err::<u8, CpuError>(CpuError::IllegalOpcode(opcode)),
{
    Err(CpuError::IllegalOpcode(opcode))
}

// 8-bit loads

/// LD r,r': copies one register into another (main-table codes).
pub fn ld_r_r(cpu: &mut Cpu, dest: u8, src: u8) -> (r: u8)
    ensures
        *final(cpu) == old(cpu).with_regs(
            with_reg(old(cpu).registers, dest, reg_value(old(cpu).registers, src)),
        ),
        r == 1,
{
    let value = get_reg(cpu, src);
    set_reg(cpu, dest, value);
    1
}

/// LD B,u8.
pub fn ld_b_u8(cpu: &mut Cpu, mmu: &Mmu) -> (r: u8)
    requires
        mmu.wf(),
    ensures
        *final(cpu) == old(cpu).with_regs(
            (Registers { b: mmu@.read(old(cpu).registers.pc), ..advanced(old(cpu).registers, 1) }),
        ),
        r == 2,
{
    cpu.registers.b = read_u8(cpu, mmu);
    2
}

/// LD C,u8.
pub fn ld_c_u8(cpu: &mut Cpu, mmu: &Mmu) -> (r: u8)
    requires
        mmu.wf(),
    ensures
        *final(cpu) == old(cpu).with_regs(
            (Registers { c: mmu@.read(old(cpu).registers.pc), ..advanced(old(cpu).registers, 1) }),
        ),
        r == 2,
{
    cpu.registers.c = read_u8(cpu, mmu);
    2
}

/// LD D,u8.
pub fn ld_d_u8(cpu: &mut Cpu, mmu: &Mmu) -> (r: u8)
    requires
        mmu.wf(),
    ensures
        *final(cpu) == old(cpu).with_regs(
            (Registers { d: mmu@.read(old(cpu).registers.pc), ..advanced(old(cpu).registers, 1) }),
        ),
        r == 2,
{
    cpu.registers.d = read_u8(cpu, mmu);
    2
}

/// LD E,u8.
pub fn ld_e_u8(cpu: &mut Cpu, mmu: &Mmu) -> (r: u8)
    requires
        mmu.wf(),
    ensures
        *final(cpu) == old(cpu).with_regs(
            (Registers { e: mmu@.read(old(cpu).registers.pc), ..advanced(old(cpu).registers, 1) }),
        ),
        r == 2,
{
    cpu.registers.e = read_u8(cpu, mmu);
    2
}

/// LD H,u8.
pub fn ld_h_u8(cpu: &mut Cpu, mmu: &Mmu) -> (r: u8)
    requires
        mmu.wf(),
    ensures
        *final(cpu) == old(cpu).with_regs(
            (Registers { h: mmu@.read(old(cpu).registers.pc), ..advanced(old(cpu).registers, 1) }),
        ),
        r == 2,
{
    cpu.registers.h = read_u8(cpu, mmu);
    2
}

/// LD L,u8.
pub fn ld_l_u8(cpu: &mut Cpu, mmu: &Mmu) -> (r: u8)
    requires
        mmu.wf(),
    ensures
        *final(cpu) == old(cpu).with_regs(
            (Registers { l: mmu@.read(old(cpu).registers.pc), ..advanced(old(cpu).registers, 1) }),
        ),
        r == 2,
{
    cpu.registers.l = read_u8(cpu, mmu);
    2
}

/// LD A,u8.
pub fn ld_a_u8(cpu: &mut Cpu, mmu: &Mmu) -> (r: u8)
    requires
        mmu.wf(),
    ensures
        *final(cpu) == old(cpu).with_regs(
            (Registers { a: mmu@.read(old(cpu).registers.pc), ..advanced(old(cpu).registers, 1) }),
        ),
        r == 2,
{
    cpu.registers.a = read_u8(cpu, mmu);
    2
}

/// LD B,(HL).
pub fn ld_b_hl(cpu: &mut Cpu, mmu: &Mmu) -> (r: u8)
    requires
        mmu.wf(),
    ensures
        *final(cpu) == old(cpu).with_regs(
            (Registers { b: mmu@.read(old(cpu).registers.hl()), ..old(cpu).registers }),
        ),
        r == 2,
{
    cpu.registers.b = mmu.read_byte(cpu.registers.hl());
    2
}

/// LD C,(HL).
pub fn ld_c_hl(cpu: &mut Cpu, mmu: &Mmu) -> (r: u8)
    requires
        mmu.wf(),
    ensures
        *final(cpu) == old(cpu).with_regs(
            (Registers { c: mmu@.read(old(cpu).registers.hl()), ..old(cpu).registers }),
        ),
        r == 2,
{
    cpu.registers.c = mmu.read_byte(cpu.registers.hl());
    2
}

/// LD D,(HL).
pub fn ld_d_hl(cpu: &mut Cpu, mmu: &Mmu) -> (r: u8)
    requires
        mmu.wf(),
    ensures
        *final(cpu) == old(cpu).with_regs(
            (Registers { d: mmu@.read(old(cpu).registers.hl()), ..old(cpu).registers }),
        ),
        r == 2,
{
    cpu.registers.d = mmu.read_byte(cpu.registers.hl());
    2
}

/// LD E,(HL).
pub fn ld_e_hl(cpu: &mut Cpu, mmu: &Mmu) -> (r: u8)
    requires
        mmu.wf(),
    ensures
        *final(cpu) == old(cpu).with_regs(
            (Registers { e: mmu@.read(old(cpu).registers.hl()), ..old(cpu).registers }),
        ),
        r == 2,
{
    cpu.registers.e = mmu.read_byte(cpu.registers.hl());
    2
}

/// LD H,(HL).
pub fn ld_h_hl(cpu: &mut Cpu, mmu: &Mmu) -> (r: u8)
    requires
        mmu.wf(),
    ensures
        *final(cpu) == old(cpu).with_regs(
            (Registers { h: mmu@.read(old(cpu).registers.hl()), ..old(cpu).registers }),
        ),
        r == 2,
{
    cpu.registers.h = mmu.read_byte(cpu.registers.hl());
    2
}

/// LD L,(HL).
pub fn ld_l_hl(cpu: &mut Cpu, mmu: &Mmu) -> (r: u8)
    requires
        mmu.wf(),
    ensures
        *final(cpu) == old(cpu).with_regs(
            (Registers { l: mmu@.read(old(cpu).registers.hl()), ..old(cpu).registers }),
        ),
        r == 2,
{
    cpu.registers.l = mmu.read_byte(cpu.registers.hl());
    2
}

/// LD A,(HL).
pub fn ld_a_hl(cpu: &mut Cpu, mmu: &Mmu) -> (r: u8)
    requires
        mmu.wf(),
    ensures
        *final(cpu) == old(cpu).with_regs(
            (Registers { a: mmu@.read(old(cpu).registers.hl()), ..old(cpu).registers }),
        ),
        r == 2,
{
    cpu.registers.a = mmu.read_byte(cpu.registers.hl());
    2
}

/// LD (HL),B.
pub fn ld_hl_b(cpu: &Cpu, mmu: &mut Mmu) -> (r: u8)
    requires
        old(mmu).wf(),
    ensures
        final(mmu)@ == old(mmu)@.write(cpu.registers.hl(), cpu.registers.b),
        final(mmu).wf(),
        r == 2,
{
    mmu.write_byte(cpu.registers.hl(), cpu.registers.b);
    2
}

/// LD (HL),C.
pub fn ld_hl_c(cpu: &Cpu, mmu: &mut Mmu) -> (r: u8)
    requires
        old(mmu).wf(),
    ensures
        final(mmu)@ == old(mmu)@.write(cpu.registers.hl(), cpu.registers.c),
        final(mmu).wf(),
        r == 2,
{
    mmu.write_byte(cpu.registers.hl(), cpu.registers.c);
    2
}

/// LD (HL),D.
pub fn ld_hl_d(cpu: &Cpu, mmu: &mut Mmu) -> (r: u8)
    requires
        old(mmu).wf(),
    ensures
        final(mmu)@ == old(mmu)@.write(cpu.registers.hl(), cpu.registers.d),
        final(mmu).wf(),
        r == 2,
{
    mmu.write_byte(cpu.registers.hl(), cpu.registers.d);
    2
}

/// LD (HL),E.
pub fn ld_hl_e(cpu: &Cpu, mmu: &mut Mmu) -> (r: u8)
    requires
        old(mmu).wf(),
    ensures
        final(mmu)@ == old(mmu)@.write(cpu.registers.hl(), cpu.registers.e),
        final(mmu).wf(),
        r == 2,
{
    mmu.write_byte(cpu.registers.hl(), cpu.registers.e);
    2
}

/// LD (HL),H.
pub fn ld_hl_h(cpu: &Cpu, mmu: &mut Mmu) -> (r: u8)
    requires
        old(mmu).wf(),
    ensures
        final(mmu)@ == old(mmu)@.write(cpu.registers.hl(), cpu.registers.h),
        final(mmu).wf(),
        r == 2,
{
    mmu.write_byte(cpu.registers.hl(), cpu.registers.h);
    2
}

/// LD (HL),L.
pub fn ld_hl_l(cpu: &Cpu, mmu: &mut Mmu) -> (r: u8)
    requires
        old(mmu).wf(),
    ensures
        final(mmu)@ == old(mmu)@.write(cpu.registers.hl(), cpu.registers.l),
        final(mmu).wf(),
        r == 2,
{
    mmu.write_byte(cpu.registers.hl(), cpu.registers.l);
    2
}

/// LD (HL),A.
pub fn ld_hl_a(cpu: &Cpu, mmu: &mut Mmu) -> (r: u8)
    requires
        old(mmu).wf(),
    ensures
        final(mmu)@ == old(mmu)@.write(cpu.registers.hl(), cpu.registers.a),
        final(mmu).wf(),
        r == 2,
{
    mmu.write_byte(cpu.registers.hl(), cpu.registers.a);
    2
}

/// LD (HL),u8.
pub fn ld_hl_u8(cpu: &mut Cpu, mmu: &mut Mmu) -> (r: u8)
    requires
        old(mmu).wf(),
    ensures
        *final(cpu) == old(cpu).with_regs(advanced(old(cpu).registers, 1)),
        final(mmu)@ == old(mmu)@.write(
            old(cpu).registers.hl(),
            old(mmu)@.read(old(cpu).registers.pc),
        ),
        final(mmu).wf(),
        r == 3,
{
    let value = read_u8(cpu, mmu);
    mmu.write_byte(cpu.registers.hl(), value);
    3
}

/// LD A,(BC).
pub fn ld_a_bc(cpu: &mut Cpu, mmu: &Mmu) -> (r: u8)
    requires
        mmu.wf(),
    ensures
        *final(cpu) == old(cpu).with_regs(
            (Registers { a: mmu@.read(old(cpu).registers.bc()), ..old(cpu).registers }),
        ),
        r == 2,
{
    cpu.registers.a = mmu.read_byte(cpu.registers.bc());
    2
}

/// LD A,(DE).
pub fn ld_a_de(cpu: &mut Cpu, mmu: &Mmu) -> (r: u8)
    requires
        mmu.wf(),
    ensures
        *final(cpu) == old(cpu).with_regs(
            (Registers { a: mmu@.read(old(cpu).registers.de()), ..old(cpu).registers }),
        ),
        r == 2,
{
    cpu.registers.a = mmu.read_byte(cpu.registers.de());
    2
}

/// LD (BC),A.
pub fn ld_bc_a(cpu: &Cpu, mmu: &mut Mmu) -> (r: u8)
    requires
        old(mmu).wf(),
    ensures
        final(mmu)@ == old(mmu)@.write(cpu.registers.bc(), cpu.registers.a),
        final(mmu).wf(),
        r == 2,
{
    mmu.write_byte(cpu.registers.bc(), cpu.registers.a);
    2
}

/// LD (DE),A.
pub fn ld_de_a(cpu: &Cpu, mmu: &mut Mmu) -> (r: u8)
    requires
        old(mmu).wf(),
    ensures
        final(mmu)@ == old(mmu)@.write(cpu.registers.de(), cpu.registers.a),
        final(mmu).wf(),
        r == 2,
{
    mmu.write_byte(cpu.registers.de(), cpu.registers.a);
    2
}

/// LD A,(HL+): loads A from (HL), then moves HL by one.
pub fn ld_a_hli(cpu: &mut Cpu, mmu: &Mmu) -> (r: u8)
    requires
        mmu.wf(),
    ensures
        *final(cpu) == old(cpu).with_regs(
            (Registers {
                a: mmu@.read(old(cpu).registers.hl()),
                h: hi_byte(add16(old(cpu).registers.hl(), 1)),
                l: lo_byte(add16(old(cpu).registers.hl(), 1)),
                ..old(cpu).registers
            }),
        ),
        r == 2,
{
    let hl = cpu.registers.hl();
    cpu.registers.a = mmu.read_byte(hl);
    cpu.registers.set_hl(hl.wrapping_add(1));
    2
}

/// LD (HL+),A: stores A at (HL), then moves HL by one.
pub fn ld_hli_a(cpu: &mut Cpu, mmu: &mut Mmu) -> (r: u8)
    requires
        old(mmu).wf(),
    ensures
        *final(cpu) == old(cpu).with_regs(
            (Registers {
                h: hi_byte(add16(old(cpu).registers.hl(), 1)),
                l: lo_byte(add16(old(cpu).registers.hl(), 1)),
                ..old(cpu).registers
            }),
        ),
        final(mmu)@ == old(mmu)@.write(old(cpu).registers.hl(), old(cpu).registers.a),
        final(mmu).wf(),
        r == 2,
{
    let hl = cpu.registers.hl();
    mmu.write_byte(hl, cpu.registers.a);
    cpu.registers.set_hl(hl.wrapping_add(1));
    2
}

/// LD A,(HL-): loads A from (HL), then moves HL by one.
pub fn ld_a_hld(cpu: &mut Cpu, mmu: &Mmu) -> (r: u8)
    requires
        mmu.wf(),
    ensures
        *final(cpu) == old(cpu).with_regs(
            (Registers {
                a: mmu@.read(old(cpu).registers.hl()),
                h: hi_byte(add16(old(cpu).registers.hl(), -1)),
                l: lo_byte(add16(old(cpu).registers.hl(), -1)),
                ..old(cpu).registers
            }),
        ),
        r == 2,
{
    let hl = cpu.registers.hl();
    cpu.registers.a = mmu.read_byte(hl);
    cpu.registers.set_hl(hl.wrapping_sub(1));
    2
}

/// LD (HL-),A: stores A at (HL), then moves HL by one.
pub fn ld_hld_a(cpu: &mut Cpu, mmu: &mut Mmu) -> (r: u8)
    requires
        old(mmu).wf(),
    ensures
        *final(cpu) == old(cpu).with_regs(
            (Registers {
                h: hi_byte(add16(old(cpu).registers.hl(), -1)),
                l: lo_byte(add16(old(cpu).registers.hl(), -1)),
                ..old(cpu).registers
            }),
        ),
        final(mmu)@ == old(mmu)@.write(old(cpu).registers.hl(), old(cpu).registers.a),
        final(mmu).wf(),
        r == 2,
{
    let hl = cpu.registers.hl();
    mmu.write_byte(hl, cpu.registers.a);
    cpu.registers.set_hl(hl.wrapping_sub(1));
    2
}

/// LD A,(u16).
pub fn ld_a_u16(cpu: &mut Cpu, mmu: &mut Mmu) -> (r: u8)
    requires
        old(mmu).wf(),
    ensures
        *final(cpu) == old(cpu).with_regs(
            (Registers {
                a: old(mmu)@.read(old(mmu)@.read_word(old(cpu).registers.pc)),
                ..advanced(old(cpu).registers, 2)
            }),
        ),
        final(mmu)@ == old(mmu)@,
        final(mmu).wf(),
        r == 4,
{
    let address = read_u16(cpu, mmu);
    cpu.registers.a = mmu.read_byte(address);
    4
}

/// LD (u16),A.
pub fn ld_u16_a(cpu: &mut Cpu, mmu: &mut Mmu) -> (r: u8)
    requires
        old(mmu).wf(),
    ensures
        *final(cpu) == old(cpu).with_regs(advanced(old(cpu).registers, 2)),
        final(mmu)@ == old(mmu)@.write(
            old(mmu)@.read_word(old(cpu).registers.pc),
            old(cpu).registers.a,
        ),
        final(mmu).wf(),
        r == 4,
{
    let address = read_u16(cpu, mmu);
    mmu.write_byte(address, cpu.registers.a);
    4
}

/// LDH (u8),A: stores A at 0xFF00 plus the immediate.
pub fn ldh_u8_a(cpu: &mut Cpu, mmu: &mut Mmu) -> (r: u8)
    requires
        old(mmu).wf(),
    ensures
        *final(cpu) == old(cpu).with_regs(advanced(old(cpu).registers, 1)),
        final(mmu)@ == old(mmu)@.write(
            (0xFF00 + old(mmu)@.read(old(cpu).registers.pc)) as u16,
            old(cpu).registers.a,
        ),
        final(mmu).wf(),
        r == 3,
{
    let offset = read_u8(cpu, mmu);
    mmu.write_byte(0xFF00 + offset as u16, cpu.registers.a);
    3
}

/// LDH A,(u8): loads A from 0xFF00 plus the immediate.
pub fn ldh_a_u8(cpu: &mut Cpu, mmu: &mut Mmu) -> (r: u8)
    requires
        old(mmu).wf(),
    ensures
        *final(cpu) == old(cpu).with_regs(
            (Registers {
                a: old(mmu)@.read((0xFF00 + old(mmu)@.read(old(cpu).registers.pc)) as u16),
                ..advanced(old(cpu).registers, 1)
            }),
        ),
        final(mmu)@ == old(mmu)@,
        final(mmu).wf(),
        r == 3,
{
    let offset = read_u8(cpu, mmu);
    cpu.registers.a = mmu.read_byte(0xFF00 + offset as u16);
    3
}

/// LDH (C),A: stores A at 0xFF00 plus C.
pub fn ldh_c_a(cpu: &Cpu, mmu: &mut Mmu) -> (r: u8)
    requires
        old(mmu).wf(),
    ensures
        final(mmu)@ == old(mmu)@.write((0xFF00 + cpu.registers.c) as u16, cpu.registers.a),
        final(mmu).wf(),
        r == 2,
{
    mmu.write_byte(0xFF00 + cpu.registers.c as u16, cpu.registers.a);
    2
}

/// LDH A,(C): loads A from 0xFF00 plus C.
pub fn ldh_a_c(cpu: &mut Cpu, mmu: &Mmu) -> (r: u8)
    requires
        mmu.wf(),
    ensures
        *final(cpu) == old(cpu).with_regs(
            (Registers {
                a: mmu@.read((0xFF00 + old(cpu).registers.c) as u16),
                ..old(cpu).registers
            }),
        ),
        r == 2,
{
    cpu.registers.a = mmu.read_byte(0xFF00 + cpu.registers.c as u16);
    2
}

// 16-bit loads

/// LD BC,u16.
pub fn ld_bc_u16(cpu: &mut Cpu, mmu: &Mmu) -> (r: u8)
    requires
        mmu.wf(),
    ensures
        *final(cpu) == old(cpu).with_regs(
            (Registers {
                b: hi_byte(mmu@.read_word(old(cpu).registers.pc)),
                c: lo_byte(mmu@.read_word(old(cpu).registers.pc)),
                ..advanced(old(cpu).registers, 2)
            }),
        ),
        r == 3,
{
    let value = read_u16(cpu, mmu);
    cpu.registers.set_bc(value);
    3
}

/// LD DE,u16.
pub fn ld_de_u16(cpu: &mut Cpu, mmu: &Mmu) -> (r: u8)
    requires
        mmu.wf(),
    ensures
        *final(cpu) == old(cpu).with_regs(
            (Registers {
                d: hi_byte(mmu@.read_word(old(cpu).registers.pc)),
                e: lo_byte(mmu@.read_word(old(cpu).registers.pc)),
                ..advanced(old(cpu).registers, 2)
            }),
        ),
        r == 3,
{
    let value = read_u16(cpu, mmu);
    cpu.registers.set_de(value);
    3
}

/// LD HL,u16.
pub fn ld_hl_u16(cpu: &mut Cpu, mmu: &Mmu) -> (r: u8)
    requires
        mmu.wf(),
    ensures
        *final(cpu) == old(cpu).with_regs(
            (Registers {
                h: hi_byte(mmu@.read_word(old(cpu).registers.pc)),
                l: lo_byte(mmu@.read_word(old(cpu).registers.pc)),
                ..advanced(old(cpu).registers, 2)
            }),
        ),
        r == 3,
{
    let value = read_u16(cpu, mmu);
    cpu.registers.set_hl(value);
    3
}

/// LD SP,u16.
pub fn ld_sp_u16(cpu: &mut Cpu, mmu: &Mmu) -> (r: u8)
    requires
        mmu.wf(),
    ensures
        *final(cpu) == old(cpu).with_regs(
            (Registers {
                sp: mmu@.read_word(old(cpu).registers.pc),
                ..advanced(old(cpu).registers, 2)
            }),
        ),
        r == 3,
{
    cpu.registers.sp = read_u16(cpu, mmu);
    3
}

/// LD (u16),SP: stores SP little-endian at the immediate address.
pub fn ld_u16_sp(cpu: &mut Cpu, mmu: &mut Mmu) -> (r: u8)
    requires
        old(mmu).wf(),
    ensures
        *final(cpu) == old(cpu).with_regs(advanced(old(cpu).registers, 2)),
        final(mmu)@ == old(mmu)@.write_word(
            old(mmu)@.read_word(old(cpu).registers.pc),
            old(cpu).registers.sp,
        ),
        final(mmu).wf(),
        r == 5,
{
    let address = read_u16(cpu, mmu);
    mmu.write_word(address, cpu.registers.sp);
    5
}

/// LD SP,HL.
pub fn ld_sp_hl(cpu: &mut Cpu) -> (r: u8)
    ensures
        *final(cpu) == old(cpu).with_regs(
            (Registers { sp: old(cpu).registers.hl(), ..old(cpu).registers }),
        ),
        r == 2,
{
    cpu.registers.sp = cpu.registers.hl();
    2
}

/// LD HL,SP+i8: flags from the carries out of bits 3 and 7 of SP's low byte.
pub fn ld_hl_sp_i8(cpu: &mut Cpu, mmu: &Mmu) -> (r: u8)
    requires
        mmu.wf(),
    ensures
        *final(cpu) == old(cpu).with_regs(
            (Registers {
                h: hi_byte(add16(old(cpu).registers.sp, signed(mmu@.read(old(cpu).registers.pc)))),
                l: lo_byte(add16(old(cpu).registers.sp, signed(mmu@.read(old(cpu).registers.pc)))),
                f: sp_offset_flags(old(cpu).registers.sp, mmu@.read(old(cpu).registers.pc)),
                ..advanced(old(cpu).registers, 1)
            }),
        ),
        r == 3,
{
    let offset = read_u8(cpu, mmu);
    let sp = cpu.registers.sp;
    let result = add_offset(sp, to_signed(offset));
    cpu.registers.f = offset_flags(sp, offset);
    cpu.registers.set_hl(result);
    3
}

// 8-bit increment and decrement

/// INC of a value: sets Z, N and H; C is kept.
fn inc_u8(cpu: &mut Cpu, value: u8) -> (r: u8)
    ensures
        r == add8(value, 1),
        *final(cpu) == old(cpu).with_regs(
            (Registers { f: inc_flags(old(cpu).registers, value), ..old(cpu).registers }),
        ),
{
    let result = value.wrapping_add(1);
    cpu.registers.f = pack_flags(
        result == 0,
        false,
        (value & 0x0F) == 0x0F,
        cpu.registers.flag_c(),
    );
    result
}

/// DEC of a value: sets Z, N and H; C is kept.
fn dec_u8(cpu: &mut Cpu, value: u8) -> (r: u8)
    ensures
        r == add8(value, -1),
        *final(cpu) == old(cpu).with_regs(
            (Registers { f: dec_flags(old(cpu).registers, value), ..old(cpu).registers }),
        ),
{
    let result = value.wrapping_sub(1);
    cpu.registers.f = pack_flags(result == 0, true, (value & 0x0F) == 0, cpu.registers.flag_c());
    result
}

/// INC B.
pub fn inc_b(cpu: &mut Cpu) -> (r: u8)
    ensures
        *final(cpu) == old(cpu).with_regs(
            (Registers {
                b: add8(old(cpu).registers.b, 1),
                f: inc_flags(old(cpu).registers, old(cpu).registers.b),
                ..old(cpu).registers
            }),
        ),
        r == 1,
{
    let value = cpu.registers.b;
    cpu.registers.b = inc_u8(cpu, value);
    1
}

/// INC C.
pub fn inc_c(cpu: &mut Cpu) -> (r: u8)
    ensures
        *final(cpu) == old(cpu).with_regs(
            (Registers {
                c: add8(old(cpu).registers.c, 1),
                f: inc_flags(old(cpu).registers, old(cpu).registers.c),
                ..old(cpu).registers
            }),
        ),
        r == 1,
{
    let value = cpu.registers.c;
    cpu.registers.c = inc_u8(cpu, value);
    1
}

/// INC D.
pub fn inc_d(cpu: &mut Cpu) -> (r: u8)
    ensures
        *final(cpu) == old(cpu).with_regs(
            (Registers {
                d: add8(old(cpu).registers.d, 1),
                f: inc_flags(old(cpu).registers, old(cpu).registers.d),
                ..old(cpu).registers
            }),
        ),
        r == 1,
{
    let value = cpu.registers.d;
    cpu.registers.d = inc_u8(cpu, value);
    1
}

/// INC E.
pub fn inc_e(cpu: &mut Cpu) -> (r: u8)
    ensures
        *final(cpu) == old(cpu).with_regs(
            (Registers {
                e: add8(old(cpu).registers.e, 1),
                f: inc_flags(old(cpu).registers, old(cpu).registers.e),
                ..old(cpu).registers
            }),
        ),
        r == 1,
{
    let value = cpu.registers.e;
    cpu.registers.e = inc_u8(cpu, value);
    1
}

/// INC H.
pub fn inc_h(cpu: &mut Cpu) -> (r: u8)
    ensures
        *final(cpu) == old(cpu).with_regs(
            (Registers {
                h: add8(old(cpu).registers.h, 1),
                f: inc_flags(old(cpu).registers, old(cpu).registers.h),
                ..old(cpu).registers
            }),
        ),
        r == 1,
{
    let value = cpu.registers.h;
    cpu.registers.h = inc_u8(cpu, value);
    1
}

/// INC L.
pub fn inc_l(cpu: &mut Cpu) -> (r: u8)
    ensures
        *final(cpu) == old(cpu).with_regs(
            (Registers {
                l: add8(old(cpu).registers.l, 1),
                f: inc_flags(old(cpu).registers, old(cpu).registers.l),
                ..old(cpu).registers
            }),
        ),
        r == 1,
{
    let value = cpu.registers.l;
    cpu.registers.l = inc_u8(cpu, value);
    1
}

/// INC A.
pub fn inc_a(cpu: &mut Cpu) -> (r: u8)
    ensures
        *final(cpu) == old(cpu).with_regs(
            (Registers {
                a: add8(old(cpu).registers.a, 1),
                f: inc_flags(old(cpu).registers, old(cpu).registers.a),
                ..old(cpu).registers
            }),
        ),
        r == 1,
{
    let value = cpu.registers.a;
    cpu.registers.a = inc_u8(cpu, value);
    1
}

/// INC (HL).
pub fn inc_hl_mem(cpu: &mut Cpu, mmu: &mut Mmu) -> (r: u8)
    requires
        old(mmu).wf(),
    ensures
        *final(cpu) == old(cpu).with_regs(
            (Registers {
                f: inc_flags(old(cpu).registers, old(mmu)@.read(old(cpu).registers.hl())),
                ..old(cpu).registers
            }),
        ),
        final(mmu)@ == old(mmu)@.write(
            old(cpu).registers.hl(),
            add8(old(mmu)@.read(old(cpu).registers.hl()), 1),
        ),
        final(mmu).wf(),
        r == 3,
{
    let address = cpu.registers.hl();
    let value = mmu.read_byte(address);
    let result = inc_u8(cpu, value);
    mmu.write_byte(address, result);
    3
}

/// DEC B.
pub fn dec_b(cpu: &mut Cpu) -> (r: u8)
    ensures
        *final(cpu) == old(cpu).with_regs(
            (Registers {
                b: add8(old(cpu).registers.b, -1),
                f: dec_flags(old(cpu).registers, old(cpu).registers.b),
                ..old(cpu).registers
            }),
        ),
        r == 1,
{
    let value = cpu.registers.b;
    cpu.registers.b = dec_u8(cpu, value);
    1
}

/// DEC C.
pub fn dec_c(cpu: &mut Cpu) -> (r: u8)
    ensures
        *final(cpu) == old(cpu).with_regs(
            (Registers {
                c: add8(old(cpu).registers.c, -1),
                f: dec_flags(old(cpu).registers, old(cpu).registers.c),
                ..old(cpu).registers
            }),
        ),
        r == 1,
{
    let value = cpu.registers.c;
    cpu.registers.c = dec_u8(cpu, value);
    1
}

/// DEC D.
pub fn dec_d(cpu: &mut Cpu) -> (r: u8)
    ensures
        *final(cpu) == old(cpu).with_regs(
            (Registers {
                d: add8(old(cpu).registers.d, -1),
                f: dec_flags(old(cpu).registers, old(cpu).registers.d),
                ..old(cpu).registers
            }),
        ),
        r == 1,
{
    let value = cpu.registers.d;
    cpu.registers.d = dec_u8(cpu, value);
    1
}

/// DEC E.
pub fn dec_e(cpu: &mut Cpu) -> (r: u8)
    ensures
        *final(cpu) == old(cpu).with_regs(
            (Registers {
                e: add8(old(cpu).registers.e, -1),
                f: dec_flags(old(cpu).registers, old(cpu).registers.e),
                ..old(cpu).registers
            }),
        ),
        r == 1,
{
    let value = cpu.registers.e;
    cpu.registers.e = dec_u8(cpu, value);
    1
}

/// DEC H.
pub fn dec_h(cpu: &mut Cpu) -> (r: u8)
    ensures
        *final(cpu) == old(cpu).with_regs(
            (Registers {
                h: add8(old(cpu).registers.h, -1),
                f: dec_flags(old(cpu).registers, old(cpu).registers.h),
                ..old(cpu).registers
            }),
        ),
        r == 1,
{
    let value = cpu.registers.h;
    cpu.registers.h = dec_u8(cpu, value);
    1
}

/// DEC L.
pub fn dec_l(cpu: &mut Cpu) -> (r: u8)
    ensures
        *final(cpu) == old(cpu).with_regs(
            (Registers {
                l: add8(old(cpu).registers.l, -1),
                f: dec_flags(old(cpu).registers, old(cpu).registers.l),
                ..old(cpu).registers
            }),
        ),
        r == 1,
{
    let value = cpu.registers.l;
    cpu.registers.l = dec_u8(cpu, value);
    1
}

/// DEC A.
pub fn dec_a(cpu: &mut Cpu) -> (r: u8)
    ensures
        *final(cpu) == old(cpu).with_regs(
            (Registers {
                a: add8(old(cpu).registers.a, -1),
                f: dec_flags(old(cpu).registers, old(cpu).registers.a),
                ..old(cpu).registers
            }),
        ),
        r == 1,
{
    let value = cpu.registers.a;
    cpu.registers.a = dec_u8(cpu, value);
    1
}

/// DEC (HL).
pub fn dec_hl_mem(cpu: &mut Cpu, mmu: &mut Mmu) -> (r: u8)
    requires
        old(mmu).wf(),
    ensures
        *final(cpu) == old(cpu).with_regs(
            (Registers {
                f: dec_flags(old(cpu).registers, old(mmu)@.read(old(cpu).registers.hl())),
                ..old(cpu).registers
            }),
        ),
        final(mmu)@ == old(mmu)@.write(
            old(cpu).registers.hl(),
            add8(old(mmu)@.read(old(cpu).registers.hl()), -1),
        ),
        final(mmu).wf(),
        r == 3,
{
    let address = cpu.registers.hl();
    let value = mmu.read_byte(address);
    let result = dec_u8(cpu, value);
    mmu.write_byte(address, result);
    3
}

// 8-bit arithmetic and logic on A

/// ADD A,v.
fn add_a(cpu: &mut Cpu, value: u8)
    ensures
        *final(cpu) == old(cpu).with_regs(alu_add(old(cpu).registers, value, false)),
{
    let a = cpu.registers.a;
    let result = a.wrapping_add(value);
    cpu.registers.f = pack_flags(
        result == 0,
        false,
        (a & 0x0F) as u16 + (value & 0x0F) as u16 > 0x0F,
        a as u16 + value as u16 > 0xFF,
    );
    cpu.registers.a = result;
}

/// ADD A,r (main-table register code).
pub fn add_a_r(cpu: &mut Cpu, reg: u8) -> (r: u8)
    ensures
        *final(cpu) == old(cpu).with_regs(
            alu_add(old(cpu).registers, reg_value(old(cpu).registers, reg), false),
        ),
        r == 1,
{
    let value = get_reg(cpu, reg);
    add_a(cpu, value);
    1
}

/// ADD A,(HL).
pub fn add_a_hl(cpu: &mut Cpu, mmu: &Mmu) -> (r: u8)
    requires
        mmu.wf(),
    ensures
        *final(cpu) == old(cpu).with_regs(
            alu_add(old(cpu).registers, mmu@.read(old(cpu).registers.hl()), false),
        ),
        r == 2,
{
    let value = mmu.read_byte(cpu.registers.hl());
    add_a(cpu, value);
    2
}

/// ADD A,u8.
pub fn add_a_u8(cpu: &mut Cpu, mmu: &Mmu) -> (r: u8)
    requires
        mmu.wf(),
    ensures
        *final(cpu) == old(cpu).with_regs(
            alu_add(advanced(old(cpu).registers, 1), mmu@.read(old(cpu).registers.pc), false),
        ),
        r == 2,
{
    let value = read_u8(cpu, mmu);
    add_a(cpu, value);
    2
}

/// ADC A,v.
fn adc_a(cpu: &mut Cpu, value: u8)
    ensures
        *final(cpu) == old(cpu).with_regs(
            alu_add(old(cpu).registers, value, old(cpu).registers.spec_flag_c()),
        ),
{
    let a = cpu.registers.a;
    let carry: u8 = if cpu.registers.flag_c() { 1 } else { 0 };
    let result = a.wrapping_add(value).wrapping_add(carry);
    cpu.registers.f = pack_flags(
        result == 0,
        false,
        (a & 0x0F) as u16 + (value & 0x0F) as u16 + carry as u16 > 0x0F,
        a as u16 + value as u16 + carry as u16 > 0xFF,
    );
    cpu.registers.a = result;
}

/// ADC A,r (main-table register code).
pub fn adc_a_r(cpu: &mut Cpu, reg: u8) -> (r: u8)
    ensures
        *final(cpu) == old(cpu).with_regs(
            alu_add(
                old(cpu).registers,
                reg_value(old(cpu).registers, reg),
                old(cpu).registers.spec_flag_c(),
            ),
        ),
        r == 1,
{
    let value = get_reg(cpu, reg);
    adc_a(cpu, value);
    1
}

/// ADC A,(HL).
pub fn adc_a_hl(cpu: &mut Cpu, mmu: &Mmu) -> (r: u8)
    requires
        mmu.wf(),
    ensures
        *final(cpu) == old(cpu).with_regs(
            alu_add(
                old(cpu).registers,
                mmu@.read(old(cpu).registers.hl()),
                old(cpu).registers.spec_flag_c(),
            ),
        ),
        r == 2,
{
    let value = mmu.read_byte(cpu.registers.hl());
    adc_a(cpu, value);
    2
}

/// ADC A,u8.
pub fn adc_a_u8(cpu: &mut Cpu, mmu: &Mmu) -> (r: u8)
    requires
        mmu.wf(),
    ensures
        *final(cpu) == old(cpu).with_regs(
            alu_add(
                advanced(old(cpu).registers, 1),
                mmu@.read(old(cpu).registers.pc),
                old(cpu).registers.spec_flag_c(),
            ),
        ),
        r == 2,
{
    let value = read_u8(cpu, mmu);
    adc_a(cpu, value);
    2
}

/// SUB A,v.
fn sub_a(cpu: &mut Cpu, value: u8)
    ensures
        *final(cpu) == old(cpu).with_regs(alu_sub(old(cpu).registers, value, false)),
{
    let a = cpu.registers.a;
    let result = a.wrapping_sub(value);
    cpu.registers.f = pack_flags(result == 0, true, (a & 0x0F) < (value & 0x0F), a < value);
    cpu.registers.a = result;
}

/// SUB A,r (main-table register code).
pub fn sub_a_r(cpu: &mut Cpu, reg: u8) -> (r: u8)
    ensures
        *final(cpu) == old(cpu).with_regs(
            alu_sub(old(cpu).registers, reg_value(old(cpu).registers, reg), false),
        ),
        r == 1,
{
    let value = get_reg(cpu, reg);
    sub_a(cpu, value);
    1
}

/// SUB A,(HL).
pub fn sub_a_hl(cpu: &mut Cpu, mmu: &Mmu) -> (r: u8)
    requires
        mmu.wf(),
    ensures
        *final(cpu) == old(cpu).with_regs(
            alu_sub(old(cpu).registers, mmu@.read(old(cpu).registers.hl()), false),
        ),
        r == 2,
{
    let value = mmu.read_byte(cpu.registers.hl());
    sub_a(cpu, value);
    2
}

/// SUB A,u8.
pub fn sub_a_u8(cpu: &mut Cpu, mmu: &Mmu) -> (r: u8)
    requires
        mmu.wf(),
    ensures
        *final(cpu) == old(cpu).with_regs(
            alu_sub(advanced(old(cpu).registers, 1), mmu@.read(old(cpu).registers.pc), false),
        ),
        r == 2,
{
    let value = read_u8(cpu, mmu);
    sub_a(cpu, value);
    2
}

/// SBC A,v.
fn sbc_a(cpu: &mut Cpu, value: u8)
    ensures
        *final(cpu) == old(cpu).with_regs(
            alu_sub(old(cpu).registers, value, old(cpu).registers.spec_flag_c()),
        ),
{
    let a = cpu.registers.a;
    let carry: u8 = if cpu.registers.flag_c() { 1 } else { 0 };
    let result = a.wrapping_sub(value).wrapping_sub(carry);
    cpu.registers.f = pack_flags(
        result == 0,
        true,
        ((a & 0x0F) as u16) < (value & 0x0F) as u16 + carry as u16,
        (a as u16) < value as u16 + carry as u16,
    );
    cpu.registers.a = result;
}

/// SBC A,r (main-table register code).
pub fn sbc_a_r(cpu: &mut Cpu, reg: u8) -> (r: u8)
    ensures
        *final(cpu) == old(cpu).with_regs(
            alu_sub(
                old(cpu).registers,
                reg_value(old(cpu).registers, reg),
                old(cpu).registers.spec_flag_c(),
            ),
        ),
        r == 1,
{
    let value = get_reg(cpu, reg);
    sbc_a(cpu, value);
    1
}

/// SBC A,(HL).
pub fn sbc_a_hl(cpu: &mut Cpu, mmu: &Mmu) -> (r: u8)
    requires
        mmu.wf(),
    ensures
        *final(cpu) == old(cpu).with_regs(
            alu_sub(
                old(cpu).registers,
                mmu@.read(old(cpu).registers.hl()),
                old(cpu).registers.spec_flag_c(),
            ),
        ),
        r == 2,
{
    let value = mmu.read_byte(cpu.registers.hl());
    sbc_a(cpu, value);
    2
}

/// SBC A,u8.
pub fn sbc_a_u8(cpu: &mut Cpu, mmu: &Mmu) -> (r: u8)
    requires
        mmu.wf(),
    ensures
        *final(cpu) == old(cpu).with_regs(
            alu_sub(
                advanced(old(cpu).registers, 1),
                mmu@.read(old(cpu).registers.pc),
                old(cpu).registers.spec_flag_c(),
            ),
        ),
        r == 2,
{
    let value = read_u8(cpu, mmu);
    sbc_a(cpu, value);
    2
}

/// AND A,v.
fn and_a(cpu: &mut Cpu, value: u8)
    ensures
        *final(cpu) == old(cpu).with_regs(alu_and(old(cpu).registers, value)),
{
    cpu.registers.a = cpu.registers.a & value;
    cpu.registers.f = pack_flags(cpu.registers.a == 0, false, true, false);
}

/// AND A,r (main-table register code).
pub fn and_a_r(cpu: &mut Cpu, reg: u8) -> (r: u8)
    ensures
        *final(cpu) == old(cpu).with_regs(
            alu_and(old(cpu).registers, reg_value(old(cpu).registers, reg)),
        ),
        r == 1,
{
    let value = get_reg(cpu, reg);
    and_a(cpu, value);
    1
}

/// AND A,(HL).
pub fn and_a_hl(cpu: &mut Cpu, mmu: &Mmu) -> (r: u8)
    requires
        mmu.wf(),
    ensures
        *final(cpu) == old(cpu).with_regs(
            alu_and(old(cpu).registers, mmu@.read(old(cpu).registers.hl())),
        ),
        r == 2,
{
    let value = mmu.read_byte(cpu.registers.hl());
    and_a(cpu, value);
    2
}

/// AND A,u8.
pub fn and_a_u8(cpu: &mut Cpu, mmu: &Mmu) -> (r: u8)
    requires
        mmu.wf(),
    ensures
        *final(cpu) == old(cpu).with_regs(
            alu_and(advanced(old(cpu).registers, 1), mmu@.read(old(cpu).registers.pc)),
        ),
        r == 2,
{
    let value = read_u8(cpu, mmu);
    and_a(cpu, value);
    2
}

/// XOR A,v.
fn xor_a(cpu: &mut Cpu, value: u8)
    ensures
        *final(cpu) == old(cpu).with_regs(alu_xor(old(cpu).registers, value)),
{
    cpu.registers.a = cpu.registers.a ^ value;
    cpu.registers.f = pack_flags(cpu.registers.a == 0, false, false, false);
}

/// XOR A,r (main-table register code).
pub fn xor_a_r(cpu: &mut Cpu, reg: u8) -> (r: u8)
    ensures
        *final(cpu) == old(cpu).with_regs(
            alu_xor(old(cpu).registers, reg_value(old(cpu).registers, reg)),
        ),
        r == 1,
{
    let value = get_reg(cpu, reg);
    xor_a(cpu, value);
    1
}

/// XOR A,(HL).
pub fn xor_a_hl(cpu: &mut Cpu, mmu: &Mmu) -> (r: u8)
    requires
        mmu.wf(),
    ensures
        *final(cpu) == old(cpu).with_regs(
            alu_xor(old(cpu).registers, mmu@.read(old(cpu).registers.hl())),
        ),
        r == 2,
{
    let value = mmu.read_byte(cpu.registers.hl());
    xor_a(cpu, value);
    2
}

/// XOR A,u8.
pub fn xor_a_u8(cpu: &mut Cpu, mmu: &Mmu) -> (r: u8)
    requires
        mmu.wf(),
    ensures
        *final(cpu) == old(cpu).with_regs(
            alu_xor(advanced(old(cpu).registers, 1), mmu@.read(old(cpu).registers.pc)),
        ),
        r == 2,
{
    let value = read_u8(cpu, mmu);
    xor_a(cpu, value);
    2
}

/// OR A,v.
fn or_a(cpu: &mut Cpu, value: u8)
    ensures
        *final(cpu) == old(cpu).with_regs(alu_or(old(cpu).registers, value)),
{
    cpu.registers.a = cpu.registers.a | value;
    cpu.registers.f = pack_flags(cpu.registers.a == 0, false, false, false);
}

/// OR A,r (main-table register code).
pub fn or_a_r(cpu: &mut Cpu, reg: u8) -> (r: u8)
    ensures
        *final(cpu) == old(cpu).with_regs(
            alu_or(old(cpu).registers, reg_value(old(cpu).registers, reg)),
        ),
        r == 1,
{
    let value = get_reg(cpu, reg);
    or_a(cpu, value);
    1
}

/// OR A,(HL).
pub fn or_a_hl(cpu: &mut Cpu, mmu: &Mmu) -> (r: u8)
    requires
        mmu.wf(),
    ensures
        *final(cpu) == old(cpu).with_regs(
            alu_or(old(cpu).registers, mmu@.read(old(cpu).registers.hl())),
        ),
        r == 2,
{
    let value = mmu.read_byte(cpu.registers.hl());
    or_a(cpu, value);
    2
}

/// OR A,u8.
pub fn or_a_u8(cpu: &mut Cpu, mmu: &Mmu) -> (r: u8)
    requires
        mmu.wf(),
    ensures
        *final(cpu) == old(cpu).with_regs(
            alu_or(advanced(old(cpu).registers, 1), mmu@.read(old(cpu).registers.pc)),
        ),
        r == 2,
{
    let value = read_u8(cpu, mmu);
    or_a(cpu, value);
    2
}

/// CP A,v.
fn cp_a(cpu: &mut Cpu, value: u8)
    ensures
        *final(cpu) == old(cpu).with_regs(alu_cp(old(cpu).registers, value)),
{
    let a = cpu.registers.a;
    cpu.registers.f = pack_flags(a == value, true, (a & 0x0F) < (value & 0x0F), a < value);
}

/// CP A,r (main-table register code).
pub fn cp_a_r(cpu: &mut Cpu, reg: u8) -> (r: u8)
    ensures
        *final(cpu) == old(cpu).with_regs(
            alu_cp(old(cpu).registers, reg_value(old(cpu).registers, reg)),
        ),
        r == 1,
{
    let value = get_reg(cpu, reg);
    cp_a(cpu, value);
    1
}

/// CP A,(HL).
pub fn cp_a_hl(cpu: &mut Cpu, mmu: &Mmu) -> (r: u8)
    requires
        mmu.wf(),
    ensures
        *final(cpu) == old(cpu).with_regs(
            alu_cp(old(cpu).registers, mmu@.read(old(cpu).registers.hl())),
        ),
        r == 2,
{
    let value = mmu.read_byte(cpu.registers.hl());
    cp_a(cpu, value);
    2
}

/// CP A,u8.
pub fn cp_a_u8(cpu: &mut Cpu, mmu: &Mmu) -> (r: u8)
    requires
        mmu.wf(),
    ensures
        *final(cpu) == old(cpu).with_regs(
            alu_cp(advanced(old(cpu).registers, 1), mmu@.read(old(cpu).registers.pc)),
        ),
        r == 2,
{
    let value = read_u8(cpu, mmu);
    cp_a(cpu, value);
    2
}

// 16-bit arithmetic

/// INC BC.
pub fn inc_bc(cpu: &mut Cpu) -> (r: u8)
    ensures
        *final(cpu) == old(cpu).with_regs(
            (Registers {
                b: hi_byte(add16(old(cpu).registers.bc(), 1)),
                c: lo_byte(add16(old(cpu).registers.bc(), 1)),
                ..old(cpu).registers
            }),
        ),
        r == 2,
{
    let value = cpu.registers.bc().wrapping_add(1);
    cpu.registers.set_bc(value);
    2
}

/// INC DE.
pub fn inc_de(cpu: &mut Cpu) -> (r: u8)
    ensures
        *final(cpu) == old(cpu).with_regs(
            (Registers {
                d: hi_byte(add16(old(cpu).registers.de(), 1)),
                e: lo_byte(add16(old(cpu).registers.de(), 1)),
                ..old(cpu).registers
            }),
        ),
        r == 2,
{
    let value = cpu.registers.de().wrapping_add(1);
    cpu.registers.set_de(value);
    2
}

/// INC HL.
pub fn inc_hl(cpu: &mut Cpu) -> (r: u8)
    ensures
        *final(cpu) == old(cpu).with_regs(
            (Registers {
                h: hi_byte(add16(old(cpu).registers.hl(), 1)),
                l: lo_byte(add16(old(cpu).registers.hl(), 1)),
                ..old(cpu).registers
            }),
        ),
        r == 2,
{
    let value = cpu.registers.hl().wrapping_add(1);
    cpu.registers.set_hl(value);
    2
}

/// INC SP.
pub fn inc_sp(cpu: &mut Cpu) -> (r: u8)
    ensures
        *final(cpu) == old(cpu).with_regs(
            (Registers { sp: add16(old(cpu).registers.sp, 1), ..old(cpu).registers }),
        ),
        r == 2,
{
    cpu.registers.sp = cpu.registers.sp.wrapping_add(1);
    2
}

/// DEC BC.
pub fn dec_bc(cpu: &mut Cpu) -> (r: u8)
    ensures
        *final(cpu) == old(cpu).with_regs(
            (Registers {
                b: hi_byte(add16(old(cpu).registers.bc(), -1)),
                c: lo_byte(add16(old(cpu).registers.bc(), -1)),
                ..old(cpu).registers
            }),
        ),
        r == 2,
{
    let value = cpu.registers.bc().wrapping_sub(1);
    cpu.registers.set_bc(value);
    2
}

/// DEC DE.
pub fn dec_de(cpu: &mut Cpu) -> (r: u8)
    ensures
        *final(cpu) == old(cpu).with_regs(
            (Registers {
                d: hi_byte(add16(old(cpu).registers.de(), -1)),
                e: lo_byte(add16(old(cpu).registers.de(), -1)),
                ..old(cpu).registers
            }),
        ),
        r == 2,
{
    let value = cpu.registers.de().wrapping_sub(1);
    cpu.registers.set_de(value);
    2
}

/// DEC HL.
pub fn dec_hl(cpu: &mut Cpu) -> (r: u8)
    ensures
        *final(cpu) == old(cpu).with_regs(
            (Registers {
                h: hi_byte(add16(old(cpu).registers.hl(), -1)),
                l: lo_byte(add16(old(cpu).registers.hl(), -1)),
                ..old(cpu).registers
            }),
        ),
        r == 2,
{
    let value = cpu.registers.hl().wrapping_sub(1);
    cpu.registers.set_hl(value);
    2
}

/// DEC SP.
pub fn dec_sp(cpu: &mut Cpu) -> (r: u8)
    ensures
        *final(cpu) == old(cpu).with_regs(
            (Registers { sp: add16(old(cpu).registers.sp, -1), ..old(cpu).registers }),
        ),
        r == 2,
{
    cpu.registers.sp = cpu.registers.sp.wrapping_sub(1);
    2
}

/// ADD HL,v: Z is kept.
fn add_hl(cpu: &mut Cpu, value: u16)
    ensures
        *final(cpu) == old(cpu).with_regs(alu_add_hl(old(cpu).registers, value)),
{
    let hl = cpu.registers.hl();
    let result = hl.wrapping_add(value);
    cpu.registers.f = pack_flags(
        cpu.registers.flag_z(),
        false,
        (hl & 0x0FFF) as u32 + (value & 0x0FFF) as u32 > 0x0FFF,
        hl as u32 + value as u32 > 0xFFFF,
    );
    cpu.registers.set_hl(result);
}

/// ADD HL,BC.
pub fn add_hl_bc(cpu: &mut Cpu) -> (r: u8)
    ensures
        *final(cpu) == old(cpu).with_regs(alu_add_hl(old(cpu).registers, old(cpu).registers.bc())),
        r == 2,
{
    let value = cpu.registers.bc();
    add_hl(cpu, value);
    2
}

/// ADD HL,DE.
pub fn add_hl_de(cpu: &mut Cpu) -> (r: u8)
    ensures
        *final(cpu) == old(cpu).with_regs(alu_add_hl(old(cpu).registers, old(cpu).registers.de())),
        r == 2,
{
    let value = cpu.registers.de();
    add_hl(cpu, value);
    2
}

/// ADD HL,HL.
pub fn add_hl_hl(cpu: &mut Cpu) -> (r: u8)
    ensures
        *final(cpu) == old(cpu).with_regs(alu_add_hl(old(cpu).registers, old(cpu).registers.hl())),
        r == 2,
{
    let value = cpu.registers.hl();
    add_hl(cpu, value);
    2
}

/// ADD HL,SP.
pub fn add_hl_sp(cpu: &mut Cpu) -> (r: u8)
    ensures
        *final(cpu) == old(cpu).with_regs(alu_add_hl(old(cpu).registers, old(cpu).registers.sp)),
        r == 2,
{
    let value = cpu.registers.sp;
    add_hl(cpu, value);
    2
}

/// The flags of an 8-bit offset added to SP.
fn offset_flags(sp: u16, offset: u8) -> (r: u8)
    ensures
        r == sp_offset_flags(sp, offset),
{
    let low = (sp % 256) as u8;
    pack_flags(
        false,
        false,
        (low & 0x0F) as u16 + (offset & 0x0F) as u16 > 0x0F,
        low as u16 + offset as u16 > 0xFF,
    )
}

/// ADD SP,i8: flags from the carries out of bits 3 and 7 of SP's low byte.
pub fn add_sp_i8(cpu: &mut Cpu, mmu: &Mmu) -> (r: u8)
    requires
        mmu.wf(),
    ensures
        *final(cpu) == old(cpu).with_regs(
            (Registers {
                sp: add16(old(cpu).registers.sp, signed(mmu@.read(old(cpu).registers.pc))),
                f: sp_offset_flags(old(cpu).registers.sp, mmu@.read(old(cpu).registers.pc)),
                ..advanced(old(cpu).registers, 1)
            }),
        ),
        r == 4,
{
    let offset = read_u8(cpu, mmu);
    let sp = cpu.registers.sp;
    cpu.registers.f = offset_flags(sp, offset);
    cpu.registers.sp = add_offset(sp, to_signed(offset));
    4
}

// Rotates of A and flag operations

/// RLCA: rotates A left; bit 7 goes to C and bit 0.
pub fn rlca(cpu: &mut Cpu) -> (r: u8)
    ensures
        *final(cpu) == old(cpu).with_regs(
            (Registers {
                a: shift_result(0, old(cpu).registers.a, old(cpu).registers.spec_flag_c()),
                f: flags(false, false, false, shift_carry(0, old(cpu).registers.a)),
                ..old(cpu).registers
            }),
        ),
        r == 1,
{
    let a = cpu.registers.a;
    let result = shift(0, a, cpu.registers.flag_c());
    cpu.registers.a = result;
    cpu.registers.f = pack_flags(false, false, false, shift_out(0, a));
    1
}

/// RRCA: rotates A right; bit 0 goes to C and bit 7.
pub fn rrca(cpu: &mut Cpu) -> (r: u8)
    ensures
        *final(cpu) == old(cpu).with_regs(
            (Registers {
                a: shift_result(1, old(cpu).registers.a, old(cpu).registers.spec_flag_c()),
                f: flags(false, false, false, shift_carry(1, old(cpu).registers.a)),
                ..old(cpu).registers
            }),
        ),
        r == 1,
{
    let a = cpu.registers.a;
    let result = shift(1, a, cpu.registers.flag_c());
    cpu.registers.a = result;
    cpu.registers.f = pack_flags(false, false, false, shift_out(1, a));
    1
}

/// RLA: rotates A left through C.
pub fn rla(cpu: &mut Cpu) -> (r: u8)
    ensures
        *final(cpu) == old(cpu).with_regs(
            (Registers {
                a: shift_result(2, old(cpu).registers.a, old(cpu).registers.spec_flag_c()),
                f: flags(false, false, false, shift_carry(2, old(cpu).registers.a)),
                ..old(cpu).registers
            }),
        ),
        r == 1,
{
    let a = cpu.registers.a;
    let result = shift(2, a, cpu.registers.flag_c());
    cpu.registers.a = result;
    cpu.registers.f = pack_flags(false, false, false, shift_out(2, a));
    1
}

/// RRA: rotates A right through C.
pub fn rra(cpu: &mut Cpu) -> (r: u8)
    ensures
        *final(cpu) == old(cpu).with_regs(
            (Registers {
                a: shift_result(3, old(cpu).registers.a, old(cpu).registers.spec_flag_c()),
                f: flags(false, false, false, shift_carry(3, old(cpu).registers.a)),
                ..old(cpu).registers
            }),
        ),
        r == 1,
{
    let a = cpu.registers.a;
    let result = shift(3, a, cpu.registers.flag_c());
    cpu.registers.a = result;
    cpu.registers.f = pack_flags(false, false, false, shift_out(3, a));
    1
}

/// DAA: adjusts A after a BCD addition (N clear) or subtraction (N set).
/// C is set or kept, never cleared; H is cleared.
#[verifier::rlimit(40)]
pub fn daa(cpu: &mut Cpu) -> (r: u8)
    ensures
        *final(cpu) == old(cpu).with_regs(alu_daa(old(cpu).registers)),
        r == 1,
{
    let mut a = cpu.registers.a;
    let mut carry = cpu.registers.flag_c();
    let subtract = cpu.registers.flag_n();
    if !subtract {
        if carry || a > 0x99 {
            a = a.wrapping_add(0x60);
            carry = true;
        }
        if cpu.registers.flag_h() || (a & 0x0F) > 0x09 {
            a = a.wrapping_add(0x06);
        }
    } else {
        if carry {
            a = a.wrapping_sub(0x60);
        }
        if cpu.registers.flag_h() {
            a = a.wrapping_sub(0x06);
        }
    }
    cpu.registers.f = pack_flags(a == 0, subtract, false, carry);
    cpu.registers.a = a;
    1
}

/// CPL: complements A; sets N and H.
pub fn cpl(cpu: &mut Cpu) -> (r: u8)
    ensures
        *final(cpu) == old(cpu).with_regs(
            (Registers {
                a: !old(cpu).registers.a,
                f: flags(
                    old(cpu).registers.spec_flag_z(),
                    true,
                    true,
                    old(cpu).registers.spec_flag_c(),
                ),
                ..old(cpu).registers
            }),
        ),
        r == 1,
{
    cpu.registers.a = !cpu.registers.a;
    cpu.registers.f = pack_flags(cpu.registers.flag_z(), true, true, cpu.registers.flag_c());
    1
}

/// SCF: sets C; clears N and H.
pub fn scf(cpu: &mut Cpu) -> (r: u8)
    ensures
        *final(cpu) == old(cpu).with_regs(
            (Registers {
                f: flags(old(cpu).registers.spec_flag_z(), false, false, true),
                ..old(cpu).registers
            }),
        ),
        r == 1,
{
    cpu.registers.f = pack_flags(cpu.registers.flag_z(), false, false, true);
    1
}

/// CCF: complements C; clears N and H.
pub fn ccf(cpu: &mut Cpu) -> (r: u8)
    ensures
        *final(cpu) == old(cpu).with_regs(
            (Registers {
                f: flags(
                    old(cpu).registers.spec_flag_z(),
                    false,
                    false,
                    !old(cpu).registers.spec_flag_c(),
                ),
                ..old(cpu).registers
            }),
        ),
        r == 1,
{
    cpu.registers.f = pack_flags(cpu.registers.flag_z(), false, false, !cpu.registers.flag_c());
    1
}

// Jumps, calls and returns

/// JP u16.
pub fn jp_u16(cpu: &mut Cpu, mmu: &Mmu) -> (r: u8)
    requires
        mmu.wf(),
    ensures
        *final(cpu) == old(cpu).with_regs(
            (Registers { pc: mmu@.read_word(old(cpu).registers.pc), ..old(cpu).registers }),
        ),
        r == 4,
{
    cpu.registers.pc = read_u16(cpu, mmu);
    4
}

/// JP NZ,u16: the operand is read whether or not the jump is taken.
pub fn jp_nz_u16(cpu: &mut Cpu, mmu: &Mmu) -> (r: u8)
    requires
        mmu.wf(),
    ensures
        if !old(cpu).registers.spec_flag_z() {
            *final(cpu) == old(cpu).with_regs(
                (Registers { pc: mmu@.read_word(old(cpu).registers.pc), ..old(cpu).registers }),
            )
            && r == 4
        } else {
            *final(cpu) == old(cpu).with_regs(advanced(old(cpu).registers, 2)) && r == 3
        },
{
    let address = read_u16(cpu, mmu);
    if !cpu.registers.flag_z() {
        cpu.registers.pc = address;
        4
    } else {
        3
    }
}

/// JP Z,u16: the operand is read whether or not the jump is taken.
pub fn jp_z_u16(cpu: &mut Cpu, mmu: &Mmu) -> (r: u8)
    requires
        mmu.wf(),
    ensures
        if old(cpu).registers.spec_flag_z() {
            *final(cpu) == old(cpu).with_regs(
                (Registers { pc: mmu@.read_word(old(cpu).registers.pc), ..old(cpu).registers }),
            )
            && r == 4
        } else {
            *final(cpu) == old(cpu).with_regs(advanced(old(cpu).registers, 2)) && r == 3
        },
{
    let address = read_u16(cpu, mmu);
    if cpu.registers.flag_z() {
        cpu.registers.pc = address;
        4
    } else {
        3
    }
}

/// JP NC,u16: the operand is read whether or not the jump is taken.
pub fn jp_nc_u16(cpu: &mut Cpu, mmu: &Mmu) -> (r: u8)
    requires
        mmu.wf(),
    ensures
        if !old(cpu).registers.spec_flag_c() {
            *final(cpu) == old(cpu).with_regs(
                (Registers { pc: mmu@.read_word(old(cpu).registers.pc), ..old(cpu).registers }),
            )
            && r == 4
        } else {
            *final(cpu) == old(cpu).with_regs(advanced(old(cpu).registers, 2)) && r == 3
        },
{
    let address = read_u16(cpu, mmu);
    if !cpu.registers.flag_c() {
        cpu.registers.pc = address;
        4
    } else {
        3
    }
}

/// JP C,u16: the operand is read whether or not the jump is taken.
pub fn jp_c_u16(cpu: &mut Cpu, mmu: &Mmu) -> (r: u8)
    requires
        mmu.wf(),
    ensures
        if old(cpu).registers.spec_flag_c() {
            *final(cpu) == old(cpu).with_regs(
                (Registers { pc: mmu@.read_word(old(cpu).registers.pc), ..old(cpu).registers }),
            )
            && r == 4
        } else {
            *final(cpu) == old(cpu).with_regs(advanced(old(cpu).registers, 2)) && r == 3
        },
{
    let address = read_u16(cpu, mmu);
    if cpu.registers.flag_c() {
        cpu.registers.pc = address;
        4
    } else {
        3
    }
}

/// JP HL.
pub fn jp_hl(cpu: &mut Cpu) -> (r: u8)
    ensures
        *final(cpu) == old(cpu).with_regs(
            (Registers { pc: old(cpu).registers.hl(), ..old(cpu).registers }),
        ),
        r == 1,
{
    cpu.registers.pc = cpu.registers.hl();
    1
}

/// JR i8: jumps relative to the address after the operand.
pub fn jr_i8(cpu: &mut Cpu, mmu: &Mmu) -> (r: u8)
    requires
        mmu.wf(),
    ensures
        *final(cpu) == old(cpu).with_regs(
            (Registers {
                pc: add16(add16(old(cpu).registers.pc, 1), signed(mmu@.read(old(cpu).registers.pc))),
                ..old(cpu).registers
            }),
        ),
        r == 3,
{
    let offset = read_i8(cpu, mmu);
    cpu.registers.pc = add_offset(cpu.registers.pc, offset);
    3
}

/// JR NZ,i8.
pub fn jr_nz_i8(cpu: &mut Cpu, mmu: &Mmu) -> (r: u8)
    requires
        mmu.wf(),
    ensures
        if !old(cpu).registers.spec_flag_z() {
            *final(cpu) == old(cpu).with_regs(
                (Registers {
                    pc: add16(
                        add16(old(cpu).registers.pc, 1),
                        signed(mmu@.read(old(cpu).registers.pc)),
                    ),
                    ..old(cpu).registers
                }),
            )
            && r == 3
        } else {
            *final(cpu) == old(cpu).with_regs(advanced(old(cpu).registers, 1)) && r == 2
        },
{
    let offset = read_i8(cpu, mmu);
    if !cpu.registers.flag_z() {
        cpu.registers.pc = add_offset(cpu.registers.pc, offset);
        3
    } else {
        2
    }
}

/// JR Z,i8.
pub fn jr_z_i8(cpu: &mut Cpu, mmu: &Mmu) -> (r: u8)
    requires
        mmu.wf(),
    ensures
        if old(cpu).registers.spec_flag_z() {
            *final(cpu) == old(cpu).with_regs(
                (Registers {
                    pc: add16(
                        add16(old(cpu).registers.pc, 1),
                        signed(mmu@.read(old(cpu).registers.pc)),
                    ),
                    ..old(cpu).registers
                }),
            )
            && r == 3
        } else {
            *final(cpu) == old(cpu).with_regs(advanced(old(cpu).registers, 1)) && r == 2
        },
{
    let offset = read_i8(cpu, mmu);
    if cpu.registers.flag_z() {
        cpu.registers.pc = add_offset(cpu.registers.pc, offset);
        3
    } else {
        2
    }
}

/// JR NC,i8.
pub fn jr_nc_i8(cpu: &mut Cpu, mmu: &Mmu) -> (r: u8)
    requires
        mmu.wf(),
    ensures
        if !old(cpu).registers.spec_flag_c() {
            *final(cpu) == old(cpu).with_regs(
                (Registers {
                    pc: add16(
                        add16(old(cpu).registers.pc, 1),
                        signed(mmu@.read(old(cpu).registers.pc)),
                    ),
                    ..old(cpu).registers
                }),
            )
            && r == 3
        } else {
            *final(cpu) == old(cpu).with_regs(advanced(old(cpu).registers, 1)) && r == 2
        },
{
    let offset = read_i8(cpu, mmu);
    if !cpu.registers.flag_c() {
        cpu.registers.pc = add_offset(cpu.registers.pc, offset);
        3
    } else {
        2
    }
}

/// JR C,i8.
pub fn jr_c_i8(cpu: &mut Cpu, mmu: &Mmu) -> (r: u8)
    requires
        mmu.wf(),
    ensures
        if old(cpu).registers.spec_flag_c() {
            *final(cpu) == old(cpu).with_regs(
                (Registers {
                    pc: add16(
                        add16(old(cpu).registers.pc, 1),
                        signed(mmu@.read(old(cpu).registers.pc)),
                    ),
                    ..old(cpu).registers
                }),
            )
            && r == 3
        } else {
            *final(cpu) == old(cpu).with_regs(advanced(old(cpu).registers, 1)) && r == 2
        },
{
    let offset = read_i8(cpu, mmu);
    if cpu.registers.flag_c() {
        cpu.registers.pc = add_offset(cpu.registers.pc, offset);
        3
    } else {
        2
    }
}

/// CALL u16: pushes the address after the operand and jumps.
pub fn call_u16(cpu: &mut Cpu, mmu: &mut Mmu) -> (r: u8)
    requires
        old(mmu).wf(),
    ensures
        *final(cpu) == old(cpu).with_regs(
            (Registers {
                pc: old(mmu)@.read_word(old(cpu).registers.pc),
                sp: add16(old(cpu).registers.sp, -2),
                ..old(cpu).registers
            }),
        )
        && final(mmu)@ == old(mmu)@.write_word(
            add16(old(cpu).registers.sp, -2),
            add16(old(cpu).registers.pc, 2),
        ),
        final(mmu).wf(),
        r == 6,
{
    let address = read_u16(cpu, mmu);
    let ret = cpu.registers.pc;
    push_u16(cpu, mmu, ret);
    cpu.registers.pc = address;
    6
}

/// CALL NZ,u16.
pub fn call_nz_u16(cpu: &mut Cpu, mmu: &mut Mmu) -> (r: u8)
    requires
        old(mmu).wf(),
    ensures
        if !old(cpu).registers.spec_flag_z() {
            *final(cpu) == old(cpu).with_regs(
                (Registers {
                    pc: old(mmu)@.read_word(old(cpu).registers.pc),
                    sp: add16(old(cpu).registers.sp, -2),
                    ..old(cpu).registers
                }),
            )
            && final(mmu)@ == old(mmu)@.write_word(
                add16(old(cpu).registers.sp, -2),
                add16(old(cpu).registers.pc, 2),
            )
            && r == 6
        } else {
            *final(cpu) == old(cpu).with_regs(advanced(old(cpu).registers, 2))
            && final(mmu)@ == old(mmu)@
            && r == 3
        },
        final(mmu).wf(),
{
    let address = read_u16(cpu, mmu);
    if !cpu.registers.flag_z() {
        let ret = cpu.registers.pc;
        push_u16(cpu, mmu, ret);
        cpu.registers.pc = address;
        6
    } else {
        3
    }
}

/// CALL Z,u16.
pub fn call_z_u16(cpu: &mut Cpu, mmu: &mut Mmu) -> (r: u8)
    requires
        old(mmu).wf(),
    ensures
        if old(cpu).registers.spec_flag_z() {
            *final(cpu) == old(cpu).with_regs(
                (Registers {
                    pc: old(mmu)@.read_word(old(cpu).registers.pc),
                    sp: add16(old(cpu).registers.sp, -2),
                    ..old(cpu).registers
                }),
            )
            && final(mmu)@ == old(mmu)@.write_word(
                add16(old(cpu).registers.sp, -2),
                add16(old(cpu).registers.pc, 2),
            )
            && r == 6
        } else {
            *final(cpu) == old(cpu).with_regs(advanced(old(cpu).registers, 2))
            && final(mmu)@ == old(mmu)@
            && r == 3
        },
        final(mmu).wf(),
{
    let address = read_u16(cpu, mmu);
    if cpu.registers.flag_z() {
        let ret = cpu.registers.pc;
        push_u16(cpu, mmu, ret);
        cpu.registers.pc = address;
        6
    } else {
        3
    }
}

/// CALL NC,u16.
pub fn call_nc_u16(cpu: &mut Cpu, mmu: &mut Mmu) -> (r: u8)
    requires
        old(mmu).wf(),
    ensures
        if !old(cpu).registers.spec_flag_c() {
            *final(cpu) == old(cpu).with_regs(
                (Registers {
                    pc: old(mmu)@.read_word(old(cpu).registers.pc),
                    sp: add16(old(cpu).registers.sp, -2),
                    ..old(cpu).registers
                }),
            )
            && final(mmu)@ == old(mmu)@.write_word(
                add16(old(cpu).registers.sp, -2),
                add16(old(cpu).registers.pc, 2),
            )
            && r == 6
        } else {
            *final(cpu) == old(cpu).with_regs(advanced(old(cpu).registers, 2))
            && final(mmu)@ == old(mmu)@
            && r == 3
        },
        final(mmu).wf(),
{
    let address = read_u16(cpu, mmu);
    if !cpu.registers.flag_c() {
        let ret = cpu.registers.pc;
        push_u16(cpu, mmu, ret);
        cpu.registers.pc = address;
        6
    } else {
        3
    }
}

/// CALL C,u16.
pub fn call_c_u16(cpu: &mut Cpu, mmu: &mut Mmu) -> (r: u8)
    requires
        old(mmu).wf(),
    ensures
        if old(cpu).registers.spec_flag_c() {
            *final(cpu) == old(cpu).with_regs(
                (Registers {
                    pc: old(mmu)@.read_word(old(cpu).registers.pc),
                    sp: add16(old(cpu).registers.sp, -2),
                    ..old(cpu).registers
                }),
            )
            && final(mmu)@ == old(mmu)@.write_word(
                add16(old(cpu).registers.sp, -2),
                add16(old(cpu).registers.pc, 2),
            )
            && r == 6
        } else {
            *final(cpu) == old(cpu).with_regs(advanced(old(cpu).registers, 2))
            && final(mmu)@ == old(mmu)@
            && r == 3
        },
        final(mmu).wf(),
{
    let address = read_u16(cpu, mmu);
    if cpu.registers.flag_c() {
        let ret = cpu.registers.pc;
        push_u16(cpu, mmu, ret);
        cpu.registers.pc = address;
        6
    } else {
        3
    }
}

/// RET: pops PC.
pub fn ret(cpu: &mut Cpu, mmu: &Mmu) -> (r: u8)
    requires
        mmu.wf(),
    ensures
        *final(cpu) == old(cpu).with_regs(
            (Registers {
                pc: mmu@.read_word(old(cpu).registers.sp),
                sp: add16(old(cpu).registers.sp, 2),
                ..old(cpu).registers
            }),
        ),
        r == 4,
{
    cpu.registers.pc = pop_u16(cpu, mmu);
    4
}

/// RET NZ.
pub fn ret_nz(cpu: &mut Cpu, mmu: &Mmu) -> (r: u8)
    requires
        mmu.wf(),
    ensures
        if !old(cpu).registers.spec_flag_z() {
            *final(cpu) == old(cpu).with_regs(
                (Registers {
                    pc: mmu@.read_word(old(cpu).registers.sp),
                    sp: add16(old(cpu).registers.sp, 2),
                    ..old(cpu).registers
                }),
            )
            && r == 5
        } else {
            *final(cpu) == *old(cpu) && r == 2
        },
{
    if !cpu.registers.flag_z() {
        cpu.registers.pc = pop_u16(cpu, mmu);
        5
    } else {
        2
    }
}

/// RET Z.
pub fn ret_z(cpu: &mut Cpu, mmu: &Mmu) -> (r: u8)
    requires
        mmu.wf(),
    ensures
        if old(cpu).registers.spec_flag_z() {
            *final(cpu) == old(cpu).with_regs(
                (Registers {
                    pc: mmu@.read_word(old(cpu).registers.sp),
                    sp: add16(old(cpu).registers.sp, 2),
                    ..old(cpu).registers
                }),
            )
            && r == 5
        } else {
            *final(cpu) == *old(cpu) && r == 2
        },
{
    if cpu.registers.flag_z() {
        cpu.registers.pc = pop_u16(cpu, mmu);
        5
    } else {
        2
    }
}

/// RET NC.
pub fn ret_nc(cpu: &mut Cpu, mmu: &Mmu) -> (r: u8)
    requires
        mmu.wf(),
    ensures
        if !old(cpu).registers.spec_flag_c() {
            *final(cpu) == old(cpu).with_regs(
                (Registers {
                    pc: mmu@.read_word(old(cpu).registers.sp),
                    sp: add16(old(cpu).registers.sp, 2),
                    ..old(cpu).registers
                }),
            )
            && r == 5
        } else {
            *final(cpu) == *old(cpu) && r == 2
        },
{
    if !cpu.registers.flag_c() {
        cpu.registers.pc = pop_u16(cpu, mmu);
        5
    } else {
        2
    }
}

/// RET C.
pub fn ret_c(cpu: &mut Cpu, mmu: &Mmu) -> (r: u8)
    requires
        mmu.wf(),
    ensures
        if old(cpu).registers.spec_flag_c() {
            *final(cpu) == old(cpu).with_regs(
                (Registers {
                    pc: mmu@.read_word(old(cpu).registers.sp),
                    sp: add16(old(cpu).registers.sp, 2),
                    ..old(cpu).registers
                }),
            )
            && r == 5
        } else {
            *final(cpu) == *old(cpu) && r == 2
        },
{
    if cpu.registers.flag_c() {
        cpu.registers.pc = pop_u16(cpu, mmu);
        5
    } else {
        2
    }
}

/// RETI: pops PC and sets IME.
pub fn reti(cpu: &mut Cpu, mmu: &Mmu) -> (r: u8)
    requires
        mmu.wf(),
    ensures
        *final(cpu) == (Cpu {
            ime: true,
            registers: (Registers {
                pc: mmu@.read_word(old(cpu).registers.sp),
                sp: add16(old(cpu).registers.sp, 2),
                ..old(cpu).registers
            }),
            ..*old(cpu)
        }),
        r == 4,
{
    cpu.registers.pc = pop_u16(cpu, mmu);
    cpu.ime = true;
    4
}

/// Pushes PC and jumps to a fixed address.
fn rst(cpu: &mut Cpu, mmu: &mut Mmu, address: u8)
    requires
        old(mmu).wf(),
    ensures
        *final(cpu) == old(cpu).with_regs(
            (Registers {
                pc: address as u16,
                sp: add16(old(cpu).registers.sp, -2),
                ..old(cpu).registers
            }),
        ),
        final(mmu)@ == old(mmu)@.write_word(
            add16(old(cpu).registers.sp, -2),
            old(cpu).registers.pc,
        ),
        final(mmu).wf(),
{
    let pc = cpu.registers.pc;
    push_u16(cpu, mmu, pc);
    cpu.registers.pc = address as u16;
}

/// RST 0x00.
pub fn rst_00(cpu: &mut Cpu, mmu: &mut Mmu) -> (r: u8)
    requires
        old(mmu).wf(),
    ensures
        *final(cpu) == old(cpu).with_regs(
            (Registers { pc: 0x00, sp: add16(old(cpu).registers.sp, -2), ..old(cpu).registers }),
        ),
        final(mmu)@ == old(mmu)@.write_word(
            add16(old(cpu).registers.sp, -2),
            old(cpu).registers.pc,
        ),
        final(mmu).wf(),
        r == 4,
{
    rst(cpu, mmu, 0x00);
    4
}

/// RST 0x08.
pub fn rst_08(cpu: &mut Cpu, mmu: &mut Mmu) -> (r: u8)
    requires
        old(mmu).wf(),
    ensures
        *final(cpu) == old(cpu).with_regs(
            (Registers { pc: 0x08, sp: add16(old(cpu).registers.sp, -2), ..old(cpu).registers }),
        ),
        final(mmu)@ == old(mmu)@.write_word(
            add16(old(cpu).registers.sp, -2),
            old(cpu).registers.pc,
        ),
        final(mmu).wf(),
        r == 4,
{
    rst(cpu, mmu, 0x08);
    4
}

/// RST 0x10.
pub fn rst_10(cpu: &mut Cpu, mmu: &mut Mmu) -> (r: u8)
    requires
        old(mmu).wf(),
    ensures
        *final(cpu) == old(cpu).with_regs(
            (Registers { pc: 0x10, sp: add16(old(cpu).registers.sp, -2), ..old(cpu).registers }),
        ),
        final(mmu)@ == old(mmu)@.write_word(
            add16(old(cpu).registers.sp, -2),
            old(cpu).registers.pc,
        ),
        final(mmu).wf(),
        r == 4,
{
    rst(cpu, mmu, 0x10);
    4
}

/// RST 0x18.
pub fn rst_18(cpu: &mut Cpu, mmu: &mut Mmu) -> (r: u8)
    requires
        old(mmu).wf(),
    ensures
        *final(cpu) == old(cpu).with_regs(
            (Registers { pc: 0x18, sp: add16(old(cpu).registers.sp, -2), ..old(cpu).registers }),
        ),
        final(mmu)@ == old(mmu)@.write_word(
            add16(old(cpu).registers.sp, -2),
            old(cpu).registers.pc,
        ),
        final(mmu).wf(),
        r == 4,
{
    rst(cpu, mmu, 0x18);
    4
}

/// RST 0x20.
pub fn rst_20(cpu: &mut Cpu, mmu: &mut Mmu) -> (r: u8)
    requires
        old(mmu).wf(),
    ensures
        *final(cpu) == old(cpu).with_regs(
            (Registers { pc: 0x20, sp: add16(old(cpu).registers.sp, -2), ..old(cpu).registers }),
        ),
        final(mmu)@ == old(mmu)@.write_word(
            add16(old(cpu).registers.sp, -2),
            old(cpu).registers.pc,
        ),
        final(mmu).wf(),
        r == 4,
{
    rst(cpu, mmu, 0x20);
    4
}

/// RST 0x28.
pub fn rst_28(cpu: &mut Cpu, mmu: &mut Mmu) -> (r: u8)
    requires
        old(mmu).wf(),
    ensures
        *final(cpu) == old(cpu).with_regs(
            (Registers { pc: 0x28, sp: add16(old(cpu).registers.sp, -2), ..old(cpu).registers }),
        ),
        final(mmu)@ == old(mmu)@.write_word(
            add16(old(cpu).registers.sp, -2),
            old(cpu).registers.pc,
        ),
        final(mmu).wf(),
        r == 4,
{
    rst(cpu, mmu, 0x28);
    4
}

/// RST 0x30.
pub fn rst_30(cpu: &mut Cpu, mmu: &mut Mmu) -> (r: u8)
    requires
        old(mmu).wf(),
    ensures
        *final(cpu) == old(cpu).with_regs(
            (Registers { pc: 0x30, sp: add16(old(cpu).registers.sp, -2), ..old(cpu).registers }),
        ),
        final(mmu)@ == old(mmu)@.write_word(
            add16(old(cpu).registers.sp, -2),
            old(cpu).registers.pc,
        ),
        final(mmu).wf(),
        r == 4,
{
    rst(cpu, mmu, 0x30);
    4
}

/// RST 0x38.
pub fn rst_38(cpu: &mut Cpu, mmu: &mut Mmu) -> (r: u8)
    requires
        old(mmu).wf(),
    ensures
        *final(cpu) == old(cpu).with_regs(
            (Registers { pc: 0x38, sp: add16(old(cpu).registers.sp, -2), ..old(cpu).registers }),
        ),
        final(mmu)@ == old(mmu)@.write_word(
            add16(old(cpu).registers.sp, -2),
            old(cpu).registers.pc,
        ),
        final(mmu).wf(),
        r == 4,
{
    rst(cpu, mmu, 0x38);
    4
}

// Stack

/// PUSH BC.
pub fn push_bc(cpu: &mut Cpu, mmu: &mut Mmu) -> (r: u8)
    requires
        old(mmu).wf(),
    ensures
        *final(cpu) == old(cpu).with_regs(
            (Registers { sp: add16(old(cpu).registers.sp, -2), ..old(cpu).registers }),
        ),
        final(mmu)@ == old(mmu)@.write_word(
            add16(old(cpu).registers.sp, -2),
            old(cpu).registers.bc(),
        ),
        final(mmu).wf(),
        r == 4,
{
    let value = cpu.registers.bc();
    push_u16(cpu, mmu, value);
    4
}

/// PUSH DE.
pub fn push_de(cpu: &mut Cpu, mmu: &mut Mmu) -> (r: u8)
    requires
        old(mmu).wf(),
    ensures
        *final(cpu) == old(cpu).with_regs(
            (Registers { sp: add16(old(cpu).registers.sp, -2), ..old(cpu).registers }),
        ),
        final(mmu)@ == old(mmu)@.write_word(
            add16(old(cpu).registers.sp, -2),
            old(cpu).registers.de(),
        ),
        final(mmu).wf(),
        r == 4,
{
    let value = cpu.registers.de();
    push_u16(cpu, mmu, value);
    4
}

/// PUSH HL.
pub fn push_hl(cpu: &mut Cpu, mmu: &mut Mmu) -> (r: u8)
    requires
        old(mmu).wf(),
    ensures
        *final(cpu) == old(cpu).with_regs(
            (Registers { sp: add16(old(cpu).registers.sp, -2), ..old(cpu).registers }),
        ),
        final(mmu)@ == old(mmu)@.write_word(
            add16(old(cpu).registers.sp, -2),
            old(cpu).registers.hl(),
        ),
        final(mmu).wf(),
        r == 4,
{
    let value = cpu.registers.hl();
    push_u16(cpu, mmu, value);
    4
}

/// PUSH AF.
pub fn push_af(cpu: &mut Cpu, mmu: &mut Mmu) -> (r: u8)
    requires
        old(mmu).wf(),
    ensures
        *final(cpu) == old(cpu).with_regs(
            (Registers { sp: add16(old(cpu).registers.sp, -2), ..old(cpu).registers }),
        ),
        final(mmu)@ == old(mmu)@.write_word(
            add16(old(cpu).registers.sp, -2),
            old(cpu).registers.af(),
        ),
        final(mmu).wf(),
        r == 4,
{
    let value = cpu.registers.af();
    push_u16(cpu, mmu, value);
    4
}

/// POP BC.
pub fn pop_bc(cpu: &mut Cpu, mmu: &Mmu) -> (r: u8)
    requires
        mmu.wf(),
    ensures
        *final(cpu) == old(cpu).with_regs(
            (Registers {
                b: hi_byte(mmu@.read_word(old(cpu).registers.sp)),
                c: lo_byte(mmu@.read_word(old(cpu).registers.sp)),
                sp: add16(old(cpu).registers.sp, 2),
                ..old(cpu).registers
            }),
        ),
        r == 3,
{
    let value = pop_u16(cpu, mmu);
    cpu.registers.set_bc(value);
    3
}

/// POP DE.
pub fn pop_de(cpu: &mut Cpu, mmu: &Mmu) -> (r: u8)
    requires
        mmu.wf(),
    ensures
        *final(cpu) == old(cpu).with_regs(
            (Registers {
                d: hi_byte(mmu@.read_word(old(cpu).registers.sp)),
                e: lo_byte(mmu@.read_word(old(cpu).registers.sp)),
                sp: add16(old(cpu).registers.sp, 2),
                ..old(cpu).registers
            }),
        ),
        r == 3,
{
    let value = pop_u16(cpu, mmu);
    cpu.registers.set_de(value);
    3
}

/// POP HL.
pub fn pop_hl(cpu: &mut Cpu, mmu: &Mmu) -> (r: u8)
    requires
        mmu.wf(),
    ensures
        *final(cpu) == old(cpu).with_regs(
            (Registers {
                h: hi_byte(mmu@.read_word(old(cpu).registers.sp)),
                l: lo_byte(mmu@.read_word(old(cpu).registers.sp)),
                sp: add16(old(cpu).registers.sp, 2),
                ..old(cpu).registers
            }),
        ),
        r == 3,
{
    let value = pop_u16(cpu, mmu);
    cpu.registers.set_hl(value);
    3
}

/// POP AF. The low nibble of F is cleared.
pub fn pop_af(cpu: &mut Cpu, mmu: &Mmu) -> (r: u8)
    requires
        mmu.wf(),
    ensures
        *final(cpu) == old(cpu).with_regs(
            (Registers {
                a: hi_byte(mmu@.read_word(old(cpu).registers.sp)),
                f: (lo_byte(mmu@.read_word(old(cpu).registers.sp)) / 16 * 16) as u8,
                sp: add16(old(cpu).registers.sp, 2),
                ..old(cpu).registers
            }),
        ),
        r == 3,
{
    let value = pop_u16(cpu, mmu);
    cpu.registers.set_af(value);
    3
}

/// The result of rotate/shift operation `op` on a value.
fn shift(op: u8, value: u8, carry: bool) -> (r: u8)
    ensures
        r == shift_result(op, value, carry),
{
    if op == 0 {
        (value << 1u8) | (value >> 7u8)
    } else if op == 1 {
        (value >> 1u8) | (value << 7u8)
    } else if op == 2 {
        (value << 1u8) | (if carry { 1u8 } else { 0u8 })
    } else if op == 3 {
        (value >> 1u8) | (if carry { 0x80u8 } else { 0u8 })
    } else if op == 4 {
        value << 1u8
    } else if op == 5 {
        (value >> 1u8) | (value & 0x80)
    } else if op == 6 {
        (value << 4u8) | (value >> 4u8)
    } else {
        value >> 1u8
    }
}

/// The carry that rotate/shift operation `op` leaves.
fn shift_out(op: u8, value: u8) -> (r: bool)
    ensures
        r == shift_carry(op, value),
{
    if op == 0 || op == 2 || op == 4 {
        value & 0x80 != 0
    } else if op == 6 {
        false
    } else {
        value & 0x01 != 0
    }
}

// CB-prefixed instructions

/// Rotate/shift `op` of a CB-table operand (RLC, RRC, RL, RR, SLA, SRA, SWAP, SRL).
fn execute_cb_rot_shift(cpu: &mut Cpu, mmu: &mut Mmu, op: u8, reg: u8) -> (r: u8)
    requires
        old(mmu).wf(),
        op < 8,
        reg < 8,
    ensures
        cb_effect(
            old(cpu).registers,
            old(mmu)@,
            0,
            op,
            reg,
        ) == (final(cpu).registers, final(mmu)@, r),
        final(cpu).ime == old(cpu).ime && final(cpu).halted == old(cpu).halted,
        final(cpu).last_m_cycles == old(cpu).last_m_cycles,
        final(mmu).wf(),
{
    let value = if reg == 6 {
        mmu.read_byte(cpu.registers.hl())
    } else {
        get_reg_cb(cpu, reg)
    };
    let result = shift(op, value, cpu.registers.flag_c());
    cpu.registers.f = pack_flags(result == 0, false, false, shift_out(op, value));
    if reg == 6 {
        mmu.write_byte(cpu.registers.hl(), result);
        4
    } else {
        set_reg_cb(cpu, reg, result);
        2
    }
}

/// BIT b: Z is set when bit `bit` of the operand is clear; N cleared, H set, C kept.
fn execute_cb_bit(cpu: &mut Cpu, mmu: &Mmu, bit: u8, reg: u8) -> (r: u8)
    requires
        mmu.wf(),
        bit < 8,
        reg < 8,
    ensures
        cb_effect(old(cpu).registers, mmu@, 1, bit, reg) == (final(cpu).registers, mmu@, r),
        final(cpu).ime == old(cpu).ime && final(cpu).halted == old(cpu).halted,
        final(cpu).last_m_cycles == old(cpu).last_m_cycles,
{
    let value = if reg == 6 {
        mmu.read_byte(cpu.registers.hl())
    } else {
        get_reg_cb(cpu, reg)
    };
    let result = value & (1u8 << bit);
    cpu.registers.f = pack_flags(result == 0, false, true, cpu.registers.flag_c());
    if reg == 6 {
        3
    } else {
        2
    }
}

/// RES b: clears bit `bit` of the operand.
fn execute_cb_res(cpu: &mut Cpu, mmu: &mut Mmu, bit: u8, reg: u8) -> (r: u8)
    requires
        old(mmu).wf(),
        bit < 8,
        reg < 8,
    ensures
        cb_effect(
            old(cpu).registers,
            old(mmu)@,
            2,
            bit,
            reg,
        ) == (final(cpu).registers, final(mmu)@, r),
        final(cpu).ime == old(cpu).ime && final(cpu).halted == old(cpu).halted,
        final(cpu).last_m_cycles == old(cpu).last_m_cycles,
        final(mmu).wf(),
{
    if reg == 6 {
        let address = cpu.registers.hl();
        let value = mmu.read_byte(address);
        mmu.write_byte(address, value & !(1u8 << bit));
        4
    } else {
        let value = get_reg_cb(cpu, reg);
        set_reg_cb(cpu, reg, value & !(1u8 << bit));
        2
    }
}

/// SET b: sets bit `bit` of the operand.
fn execute_cb_set(cpu: &mut Cpu, mmu: &mut Mmu, bit: u8, reg: u8) -> (r: u8)
    requires
        old(mmu).wf(),
        bit < 8,
        reg < 8,
    ensures
        cb_effect(
            old(cpu).registers,
            old(mmu)@,
            3,
            bit,
            reg,
        ) == (final(cpu).registers, final(mmu)@, r),
        final(cpu).ime == old(cpu).ime && final(cpu).halted == old(cpu).halted,
        final(cpu).last_m_cycles == old(cpu).last_m_cycles,
        final(mmu).wf(),
{
    if reg == 6 {
        let address = cpu.registers.hl();
        let value = mmu.read_byte(address);
        mmu.write_byte(address, value | (1u8 << bit));
        4
    } else {
        let value = get_reg_cb(cpu, reg);
        set_reg_cb(cpu, reg, value | (1u8 << bit));
        2
    }
}

/// Executes the CB-prefixed instruction whose second byte is at PC: bits 7-6
/// of that byte pick the class, bits 5-3 the bit or operation, bits 2-0 the operand.
pub fn execute_cb(cpu: &mut Cpu, mmu: &mut Mmu) -> (r: u8)
    requires
        old(mmu).wf(),
    ensures
        ({
            let opcode = old(mmu)@.read(old(cpu).registers.pc);
            cb_effect(
                advanced(old(cpu).registers, 1),
                old(mmu)@,
                opcode / 64,
                opcode / 8 % 8,
                opcode % 8,
            )
        }) == (final(cpu).registers, final(mmu)@, r),
        final(cpu).ime == old(cpu).ime && final(cpu).halted == old(cpu).halted,
        final(cpu).last_m_cycles == old(cpu).last_m_cycles,
        final(mmu).wf(),
{
    let opcode = read_u8(cpu, mmu);
    let op = opcode / 64;
    let bit = opcode / 8 % 8;
    let reg = opcode % 8;
    if op == 0 {
        execute_cb_rot_shift(cpu, mmu, bit, reg)
    } else if op == 1 {
        execute_cb_bit(cpu, mmu, bit, reg)
    } else if op == 2 {
        execute_cb_res(cpu, mmu, bit, reg)
    } else {
        execute_cb_set(cpu, mmu, bit, reg)
    }
}

} // verus!
