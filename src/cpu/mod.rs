//! The Sharp LR35902 processor: register file and instruction interpreter.

pub mod alu;
pub mod instructions;
pub mod registers;

pub use registers::Registers;

use vstd::prelude::*;
use crate::cpu::alu::{
    advanced, alu_add, alu_add_hl, alu_and, alu_cp, alu_daa, alu_or, alu_sub, alu_xor, cb_effect,
    dec_flags, inc_flags, reg_value, shift_carry, shift_result, signed, sp_offset_flags, with_reg,
    REG_A, REG_B, REG_C, REG_D, REG_E, REG_H, REG_L,
};
use crate::cpu::instructions::{
    adc_a_hl, adc_a_r, adc_a_u8, add_a_hl, add_a_r, add_a_u8, add_hl_bc, add_hl_de, add_hl_hl,
    add_hl_sp, add_sp_i8, and_a_hl, and_a_r, and_a_u8, call_c_u16, call_nc_u16, call_nz_u16,
    call_u16, call_z_u16, ccf, cp_a_hl, cp_a_r, cp_a_u8, cpl, daa, dec_a, dec_b, dec_bc, dec_c,
    dec_d, dec_de, dec_e, dec_h, dec_hl, dec_hl_mem, dec_l, dec_sp, di, ei, execute_cb, halt,
    illegal_opcode, inc_a, inc_b, inc_bc, inc_c, inc_d, inc_de, inc_e, inc_h, inc_hl, inc_hl_mem,
    inc_l, inc_sp, jp_c_u16, jp_hl, jp_nc_u16, jp_nz_u16, jp_u16, jp_z_u16, jr_c_i8, jr_i8,
    jr_nc_i8, jr_nz_i8, jr_z_i8, ld_a_bc, ld_a_de, ld_a_hl, ld_a_hld, ld_a_hli, ld_a_u16, ld_a_u8,
    ld_b_hl, ld_b_u8, ld_bc_a, ld_bc_u16, ld_c_hl, ld_c_u8, ld_d_hl, ld_d_u8, ld_de_a, ld_de_u16,
    ld_e_hl, ld_e_u8, ld_h_hl, ld_h_u8, ld_hl_a, ld_hl_b, ld_hl_c, ld_hl_d, ld_hl_e, ld_hl_h,
    ld_hl_l, ld_hl_sp_i8, ld_hl_u16, ld_hl_u8, ld_hld_a, ld_hli_a, ld_l_hl, ld_l_u8, ld_r_r,
    ld_sp_hl, ld_sp_u16, ld_u16_a, ld_u16_sp, ldh_a_c, ldh_a_u8, ldh_c_a, ldh_u8_a, nop, or_a_hl,
    or_a_r, or_a_u8, pop_af, pop_bc, pop_de, pop_hl, push_af, push_bc, push_de, push_hl, ret,
    ret_c, ret_nc, ret_nz, ret_z, reti, rla, rlca, rra, rrca, rst_00, rst_08, rst_10, rst_18,
    rst_20, rst_28, rst_30, rst_38, sbc_a_hl, sbc_a_r, sbc_a_u8, scf, stop, sub_a_hl, sub_a_r,
    sub_a_u8, xor_a_hl, xor_a_r, xor_a_u8,
};
use crate::cpu::registers::{flags, hi_byte, lo_byte};
use crate::mmu::{add16, add8, MemModel, Mmu};

verus! {

/// Why an instruction could not be executed.
#[derive(Clone, Copy, Debug, PartialEq, Eq, Structural)]
pub enum CpuError {
    /// The opcode has no instruction; decoding cannot go on.
    IllegalOpcode(u8),
}

/// What the instruction with main-table opcode `opcode` does: from processor
/// `c` and memory `m` it leads to `c2` and `m2` and takes `n` M-cycles.
/// Illegal opcodes relate nothing.
#[verifier::opaque]
pub open spec fn executes(c: Cpu, m: MemModel, opcode: u8, c2: Cpu, m2: MemModel, n: u8) -> bool {
    if opcode == 0x00 {
        n == 1 && m2 == m && c2 == c
    } else if opcode == 0x01 {
        c2 == c.with_regs(
            (Registers {
                b: hi_byte(m.read_word(c.registers.pc)),
                c: lo_byte(m.read_word(c.registers.pc)),
                ..advanced(c.registers, 2)
            }),
        )
        && n == 3
        && m2 == m
    } else if opcode == 0x02 {
        m2 == m.write(c.registers.bc(), c.registers.a) && n == 2 && c2 == c
    } else if opcode == 0x03 {
        c2 == c.with_regs(
            (Registers {
                b: hi_byte(add16(c.registers.bc(), 1)),
                c: lo_byte(add16(c.registers.bc(), 1)),
                ..c.registers
            }),
        )
        && n == 2
        && m2 == m
    } else if opcode == 0x04 {
        c2 == c.with_regs(
            (Registers {
                b: add8(c.registers.b, 1),
                f: inc_flags(c.registers, c.registers.b),
                ..c.registers
            }),
        )
        && n == 1
        && m2 == m
    } else if opcode == 0x05 {
        c2 == c.with_regs(
            (Registers {
                b: add8(c.registers.b, -1),
                f: dec_flags(c.registers, c.registers.b),
                ..c.registers
            }),
        )
        && n == 1
        && m2 == m
    } else if opcode == 0x06 {
        c2 == c.with_regs((Registers { b: m.read(c.registers.pc), ..advanced(c.registers, 1) }))
        && n == 2
        && m2 == m
    } else if opcode == 0x07 {
        c2 == c.with_regs(
            (Registers {
                a: shift_result(0, c.registers.a, c.registers.spec_flag_c()),
                f: flags(false, false, false, shift_carry(0, c.registers.a)),
                ..c.registers
            }),
        )
        && n == 1
        && m2 == m
    } else if opcode == 0x08 {
        c2 == c.with_regs(advanced(c.registers, 2))
        && m2 == m.write_word(m.read_word(c.registers.pc), c.registers.sp)
        && n == 5
    } else if opcode == 0x09 {
        c2 == c.with_regs(alu_add_hl(c.registers, c.registers.bc())) && n == 2 && m2 == m
    } else if opcode == 0x0A {
        c2 == c.with_regs((Registers { a: m.read(c.registers.bc()), ..c.registers }))
        && n == 2
        && m2 == m
    } else if opcode == 0x0B {
        c2 == c.with_regs(
            (Registers {
                b: hi_byte(add16(c.registers.bc(), -1)),
                c: lo_byte(add16(c.registers.bc(), -1)),
                ..c.registers
            }),
        )
        && n == 2
        && m2 == m
    } else if opcode == 0x0C {
        c2 == c.with_regs(
            (Registers {
                c: add8(c.registers.c, 1),
                f: inc_flags(c.registers, c.registers.c),
                ..c.registers
            }),
        )
        && n == 1
        && m2 == m
    } else if opcode == 0x0D {
        c2 == c.with_regs(
            (Registers {
                c: add8(c.registers.c, -1),
                f: dec_flags(c.registers, c.registers.c),
                ..c.registers
            }),
        )
        && n == 1
        && m2 == m
    } else if opcode == 0x0E {
        c2 == c.with_regs((Registers { c: m.read(c.registers.pc), ..advanced(c.registers, 1) }))
        && n == 2
        && m2 == m
    } else if opcode == 0x0F {
        c2 == c.with_regs(
            (Registers {
                a: shift_result(1, c.registers.a, c.registers.spec_flag_c()),
                f: flags(false, false, false, shift_carry(1, c.registers.a)),
                ..c.registers
            }),
        )
        && n == 1
        && m2 == m
    } else if opcode == 0x10 {
        c2 == c.with_regs(advanced(c.registers, 1)) && n == 1 && m2 == m
    } else if opcode == 0x11 {
        c2 == c.with_regs(
            (Registers {
                d: hi_byte(m.read_word(c.registers.pc)),
                e: lo_byte(m.read_word(c.registers.pc)),
                ..advanced(c.registers, 2)
            }),
        )
        && n == 3
        && m2 == m
    } else if opcode == 0x12 {
        m2 == m.write(c.registers.de(), c.registers.a) && n == 2 && c2 == c
    } else if opcode == 0x13 {
        c2 == c.with_regs(
            (Registers {
                d: hi_byte(add16(c.registers.de(), 1)),
                e: lo_byte(add16(c.registers.de(), 1)),
                ..c.registers
            }),
        )
        && n == 2
        && m2 == m
    } else if opcode == 0x14 {
        c2 == c.with_regs(
            (Registers {
                d: add8(c.registers.d, 1),
                f: inc_flags(c.registers, c.registers.d),
                ..c.registers
            }),
        )
        && n == 1
        && m2 == m
    } else if opcode == 0x15 {
        c2 == c.with_regs(
            (Registers {
                d: add8(c.registers.d, -1),
                f: dec_flags(c.registers, c.registers.d),
                ..c.registers
            }),
        )
        && n == 1
        && m2 == m
    } else if opcode == 0x16 {
        c2 == c.with_regs((Registers { d: m.read(c.registers.pc), ..advanced(c.registers, 1) }))
        && n == 2
        && m2 == m
    } else if opcode == 0x17 {
        c2 == c.with_regs(
            (Registers {
                a: shift_result(2, c.registers.a, c.registers.spec_flag_c()),
                f: flags(false, false, false, shift_carry(2, c.registers.a)),
                ..c.registers
            }),
        )
        && n == 1
        && m2 == m
    } else if opcode == 0x18 {
        c2 == c.with_regs(
            (Registers {
                pc: add16(add16(c.registers.pc, 1), signed(m.read(c.registers.pc))),
                ..c.registers
            }),
        )
        && n == 3
        && m2 == m
    } else if opcode == 0x19 {
        c2 == c.with_regs(alu_add_hl(c.registers, c.registers.de())) && n == 2 && m2 == m
    } else if opcode == 0x1A {
        c2 == c.with_regs((Registers { a: m.read(c.registers.de()), ..c.registers }))
        && n == 2
        && m2 == m
    } else if opcode == 0x1B {
        c2 == c.with_regs(
            (Registers {
                d: hi_byte(add16(c.registers.de(), -1)),
                e: lo_byte(add16(c.registers.de(), -1)),
                ..c.registers
            }),
        )
        && n == 2
        && m2 == m
    } else if opcode == 0x1C {
        c2 == c.with_regs(
            (Registers {
                e: add8(c.registers.e, 1),
                f: inc_flags(c.registers, c.registers.e),
                ..c.registers
            }),
        )
        && n == 1
        && m2 == m
    } else if opcode == 0x1D {
        c2 == c.with_regs(
            (Registers {
                e: add8(c.registers.e, -1),
                f: dec_flags(c.registers, c.registers.e),
                ..c.registers
            }),
        )
        && n == 1
        && m2 == m
    } else if opcode == 0x1E {
        c2 == c.with_regs((Registers { e: m.read(c.registers.pc), ..advanced(c.registers, 1) }))
        && n == 2
        && m2 == m
    } else if opcode == 0x1F {
        c2 == c.with_regs(
            (Registers {
                a: shift_result(3, c.registers.a, c.registers.spec_flag_c()),
                f: flags(false, false, false, shift_carry(3, c.registers.a)),
                ..c.registers
            }),
        )
        && n == 1
        && m2 == m
    } else if opcode == 0x20 {
        (if !c.registers.spec_flag_z() {
            c2 == c.with_regs(
                (Registers {
                    pc: add16(add16(c.registers.pc, 1), signed(m.read(c.registers.pc))),
                    ..c.registers
                }),
            )
            && n == 3
        } else {
            c2 == c.with_regs(advanced(c.registers, 1)) && n == 2
        })
        && m2 == m
    } else if opcode == 0x21 {
        c2 == c.with_regs(
            (Registers {
                h: hi_byte(m.read_word(c.registers.pc)),
                l: lo_byte(m.read_word(c.registers.pc)),
                ..advanced(c.registers, 2)
            }),
        )
        && n == 3
        && m2 == m
    } else if opcode == 0x22 {
        c2 == c.with_regs(
            (Registers {
                h: hi_byte(add16(c.registers.hl(), 1)),
                l: lo_byte(add16(c.registers.hl(), 1)),
                ..c.registers
            }),
        )
        && m2 == m.write(c.registers.hl(), c.registers.a)
        && n == 2
    } else if opcode == 0x23 {
        c2 == c.with_regs(
            (Registers {
                h: hi_byte(add16(c.registers.hl(), 1)),
                l: lo_byte(add16(c.registers.hl(), 1)),
                ..c.registers
            }),
        )
        && n == 2
        && m2 == m
    } else if opcode == 0x24 {
        c2 == c.with_regs(
            (Registers {
                h: add8(c.registers.h, 1),
                f: inc_flags(c.registers, c.registers.h),
                ..c.registers
            }),
        )
        && n == 1
        && m2 == m
    } else if opcode == 0x25 {
        c2 == c.with_regs(
            (Registers {
                h: add8(c.registers.h, -1),
                f: dec_flags(c.registers, c.registers.h),
                ..c.registers
            }),
        )
        && n == 1
        && m2 == m
    } else if opcode == 0x26 {
        c2 == c.with_regs((Registers { h: m.read(c.registers.pc), ..advanced(c.registers, 1) }))
        && n == 2
        && m2 == m
    } else if opcode == 0x27 {
        c2 == c.with_regs(alu_daa(c.registers)) && n == 1 && m2 == m
    } else if opcode == 0x28 {
        (if c.registers.spec_flag_z() {
            c2 == c.with_regs(
                (Registers {
                    pc: add16(add16(c.registers.pc, 1), signed(m.read(c.registers.pc))),
                    ..c.registers
                }),
            )
            && n == 3
        } else {
            c2 == c.with_regs(advanced(c.registers, 1)) && n == 2
        })
        && m2 == m
    } else if opcode == 0x29 {
        c2 == c.with_regs(alu_add_hl(c.registers, c.registers.hl())) && n == 2 && m2 == m
    } else if opcode == 0x2A {
        c2 == c.with_regs(
            (Registers {
                a: m.read(c.registers.hl()),
                h: hi_byte(add16(c.registers.hl(), 1)),
                l: lo_byte(add16(c.registers.hl(), 1)),
                ..c.registers
            }),
        )
        && n == 2
        && m2 == m
    } else if opcode == 0x2B {
        c2 == c.with_regs(
            (Registers {
                h: hi_byte(add16(c.registers.hl(), -1)),
                l: lo_byte(add16(c.registers.hl(), -1)),
                ..c.registers
            }),
        )
        && n == 2
        && m2 == m
    } else if opcode == 0x2C {
        c2 == c.with_regs(
            (Registers {
                l: add8(c.registers.l, 1),
                f: inc_flags(c.registers, c.registers.l),
                ..c.registers
            }),
        )
        && n == 1
        && m2 == m
    } else if opcode == 0x2D {
        c2 == c.with_regs(
            (Registers {
                l: add8(c.registers.l, -1),
                f: dec_flags(c.registers, c.registers.l),
                ..c.registers
            }),
        )
        && n == 1
        && m2 == m
    } else if opcode == 0x2E {
        c2 == c.with_regs((Registers { l: m.read(c.registers.pc), ..advanced(c.registers, 1) }))
        && n == 2
        && m2 == m
    } else if opcode == 0x2F {
        c2 == c.with_regs(
            (Registers {
                a: !c.registers.a,
                f: flags(c.registers.spec_flag_z(), true, true, c.registers.spec_flag_c()),
                ..c.registers
            }),
        )
        && n == 1
        && m2 == m
    } else if opcode == 0x30 {
        (if !c.registers.spec_flag_c() {
            c2 == c.with_regs(
                (Registers {
                    pc: add16(add16(c.registers.pc, 1), signed(m.read(c.registers.pc))),
                    ..c.registers
                }),
            )
            && n == 3
        } else {
            c2 == c.with_regs(advanced(c.registers, 1)) && n == 2
        })
        && m2 == m
    } else if opcode == 0x31 {
        c2 == c.with_regs((Registers { sp: m.read_word(c.registers.pc), ..advanced(c.registers, 2) }))
        && n == 3
        && m2 == m
    } else if opcode == 0x32 {
        c2 == c.with_regs(
            (Registers {
                h: hi_byte(add16(c.registers.hl(), -1)),
                l: lo_byte(add16(c.registers.hl(), -1)),
                ..c.registers
            }),
        )
        && m2 == m.write(c.registers.hl(), c.registers.a)
        && n == 2
    } else if opcode == 0x33 {
        c2 == c.with_regs((Registers { sp: add16(c.registers.sp, 1), ..c.registers }))
        && n == 2
        && m2 == m
    } else if opcode == 0x34 {
        c2 == c.with_regs((Registers { f: inc_flags(c.registers, m.read(c.registers.hl())), ..c.registers }))
        && m2 == m.write(c.registers.hl(), add8(m.read(c.registers.hl()), 1))
        && n == 3
    } else if opcode == 0x35 {
        c2 == c.with_regs((Registers { f: dec_flags(c.registers, m.read(c.registers.hl())), ..c.registers }))
        && m2 == m.write(c.registers.hl(), add8(m.read(c.registers.hl()), -1))
        && n == 3
    } else if opcode == 0x36 {
        c2 == c.with_regs(advanced(c.registers, 1))
        && m2 == m.write(c.registers.hl(), m.read(c.registers.pc))
        && n == 3
    } else if opcode == 0x37 {
        c2 == c.with_regs(
            (Registers { f: flags(c.registers.spec_flag_z(), false, false, true), ..c.registers }),
        )
        && n == 1
        && m2 == m
    } else if opcode == 0x38 {
        (if c.registers.spec_flag_c() {
            c2 == c.with_regs(
                (Registers {
                    pc: add16(add16(c.registers.pc, 1), signed(m.read(c.registers.pc))),
                    ..c.registers
                }),
            )
            && n == 3
        } else {
            c2 == c.with_regs(advanced(c.registers, 1)) && n == 2
        })
        && m2 == m
    } else if opcode == 0x39 {
        c2 == c.with_regs(alu_add_hl(c.registers, c.registers.sp)) && n == 2 && m2 == m
    } else if opcode == 0x3A {
        c2 == c.with_regs(
            (Registers {
                a: m.read(c.registers.hl()),
                h: hi_byte(add16(c.registers.hl(), -1)),
                l: lo_byte(add16(c.registers.hl(), -1)),
                ..c.registers
            }),
        )
        && n == 2
        && m2 == m
    } else if opcode == 0x3B {
        c2 == c.with_regs((Registers { sp: add16(c.registers.sp, -1), ..c.registers }))
        && n == 2
        && m2 == m
    } else if opcode == 0x3C {
        c2 == c.with_regs(
            (Registers {
                a: add8(c.registers.a, 1),
                f: inc_flags(c.registers, c.registers.a),
                ..c.registers
            }),
        )
        && n == 1
        && m2 == m
    } else if opcode == 0x3D {
        c2 == c.with_regs(
            (Registers {
                a: add8(c.registers.a, -1),
                f: dec_flags(c.registers, c.registers.a),
                ..c.registers
            }),
        )
        && n == 1
        && m2 == m
    } else if opcode == 0x3E {
        c2 == c.with_regs((Registers { a: m.read(c.registers.pc), ..advanced(c.registers, 1) }))
        && n == 2
        && m2 == m
    } else if opcode == 0x3F {
        c2 == c.with_regs(
            (Registers {
                f: flags(c.registers.spec_flag_z(), false, false, !c.registers.spec_flag_c()),
                ..c.registers
            }),
        )
        && n == 1
        && m2 == m
    } else if opcode == 0x40 {
        c2 == c.with_regs(with_reg(c.registers, REG_B, reg_value(c.registers, REG_B)))
        && n == 1
        && m2 == m
    } else if opcode == 0x41 {
        c2 == c.with_regs(with_reg(c.registers, REG_B, reg_value(c.registers, REG_C)))
        && n == 1
        && m2 == m
    } else if opcode == 0x42 {
        c2 == c.with_regs(with_reg(c.registers, REG_B, reg_value(c.registers, REG_D)))
        && n == 1
        && m2 == m
    } else if opcode == 0x43 {
        c2 == c.with_regs(with_reg(c.registers, REG_B, reg_value(c.registers, REG_E)))
        && n == 1
        && m2 == m
    } else if opcode == 0x44 {
        c2 == c.with_regs(with_reg(c.registers, REG_B, reg_value(c.registers, REG_H)))
        && n == 1
        && m2 == m
    } else if opcode == 0x45 {
        c2 == c.with_regs(with_reg(c.registers, REG_B, reg_value(c.registers, REG_L)))
        && n == 1
        && m2 == m
    } else if opcode == 0x46 {
        c2 == c.with_regs((Registers { b: m.read(c.registers.hl()), ..c.registers }))
        && n == 2
        && m2 == m
    } else if opcode == 0x47 {
        c2 == c.with_regs(with_reg(c.registers, REG_B, reg_value(c.registers, REG_A)))
        && n == 1
        && m2 == m
    } else if opcode == 0x48 {
        c2 == c.with_regs(with_reg(c.registers, REG_C, reg_value(c.registers, REG_B)))
        && n == 1
        && m2 == m
    } else if opcode == 0x49 {
        c2 == c.with_regs(with_reg(c.registers, REG_C, reg_value(c.registers, REG_C)))
        && n == 1
        && m2 == m
    } else if opcode == 0x4A {
        c2 == c.with_regs(with_reg(c.registers, REG_C, reg_value(c.registers, REG_D)))
        && n == 1
        && m2 == m
    } else if opcode == 0x4B {
        c2 == c.with_regs(with_reg(c.registers, REG_C, reg_value(c.registers, REG_E)))
        && n == 1
        && m2 == m
    } else if opcode == 0x4C {
        c2 == c.with_regs(with_reg(c.registers, REG_C, reg_value(c.registers, REG_H)))
        && n == 1
        && m2 == m
    } else if opcode == 0x4D {
        c2 == c.with_regs(with_reg(c.registers, REG_C, reg_value(c.registers, REG_L)))
        && n == 1
        && m2 == m
    } else if opcode == 0x4E {
        c2 == c.with_regs((Registers { c: m.read(c.registers.hl()), ..c.registers }))
        && n == 2
        && m2 == m
    } else if opcode == 0x4F {
        c2 == c.with_regs(with_reg(c.registers, REG_C, reg_value(c.registers, REG_A)))
        && n == 1
        && m2 == m
    } else if opcode == 0x50 {
        c2 == c.with_regs(with_reg(c.registers, REG_D, reg_value(c.registers, REG_B)))
        && n == 1
        && m2 == m
    } else if opcode == 0x51 {
        c2 == c.with_regs(with_reg(c.registers, REG_D, reg_value(c.registers, REG_C)))
        && n == 1
        && m2 == m
    } else if opcode == 0x52 {
        c2 == c.with_regs(with_reg(c.registers, REG_D, reg_value(c.registers, REG_D)))
        && n == 1
        && m2 == m
    } else if opcode == 0x53 {
        c2 == c.with_regs(with_reg(c.registers, REG_D, reg_value(c.registers, REG_E)))
        && n == 1
        && m2 == m
    } else if opcode == 0x54 {
        c2 == c.with_regs(with_reg(c.registers, REG_D, reg_value(c.registers, REG_H)))
        && n == 1
        && m2 == m
    } else if opcode == 0x55 {
        c2 == c.with_regs(with_reg(c.registers, REG_D, reg_value(c.registers, REG_L)))
        && n == 1
        && m2 == m
    } else if opcode == 0x56 {
        c2 == c.with_regs((Registers { d: m.read(c.registers.hl()), ..c.registers }))
        && n == 2
        && m2 == m
    } else if opcode == 0x57 {
        c2 == c.with_regs(with_reg(c.registers, REG_D, reg_value(c.registers, REG_A)))
        && n == 1
        && m2 == m
    } else if opcode == 0x58 {
        c2 == c.with_regs(with_reg(c.registers, REG_E, reg_value(c.registers, REG_B)))
        && n == 1
        && m2 == m
    } else if opcode == 0x59 {
        c2 == c.with_regs(with_reg(c.registers, REG_E, reg_value(c.registers, REG_C)))
        && n == 1
        && m2 == m
    } else if opcode == 0x5A {
        c2 == c.with_regs(with_reg(c.registers, REG_E, reg_value(c.registers, REG_D)))
        && n == 1
        && m2 == m
    } else if opcode == 0x5B {
        c2 == c.with_regs(with_reg(c.registers, REG_E, reg_value(c.registers, REG_E)))
        && n == 1
        && m2 == m
    } else if opcode == 0x5C {
        c2 == c.with_regs(with_reg(c.registers, REG_E, reg_value(c.registers, REG_H)))
        && n == 1
        && m2 == m
    } else if opcode == 0x5D {
        c2 == c.with_regs(with_reg(c.registers, REG_E, reg_value(c.registers, REG_L)))
        && n == 1
        && m2 == m
    } else if opcode == 0x5E {
        c2 == c.with_regs((Registers { e: m.read(c.registers.hl()), ..c.registers }))
        && n == 2
        && m2 == m
    } else if opcode == 0x5F {
        c2 == c.with_regs(with_reg(c.registers, REG_E, reg_value(c.registers, REG_A)))
        && n == 1
        && m2 == m
    } else if opcode == 0x60 {
        c2 == c.with_regs(with_reg(c.registers, REG_H, reg_value(c.registers, REG_B)))
        && n == 1
        && m2 == m
    } else if opcode == 0x61 {
        c2 == c.with_regs(with_reg(c.registers, REG_H, reg_value(c.registers, REG_C)))
        && n == 1
        && m2 == m
    } else if opcode == 0x62 {
        c2 == c.with_regs(with_reg(c.registers, REG_H, reg_value(c.registers, REG_D)))
        && n == 1
        && m2 == m
    } else if opcode == 0x63 {
        c2 == c.with_regs(with_reg(c.registers, REG_H, reg_value(c.registers, REG_E)))
        && n == 1
        && m2 == m
    } else if opcode == 0x64 {
        c2 == c.with_regs(with_reg(c.registers, REG_H, reg_value(c.registers, REG_H)))
        && n == 1
        && m2 == m
    } else if opcode == 0x65 {
        c2 == c.with_regs(with_reg(c.registers, REG_H, reg_value(c.registers, REG_L)))
        && n == 1
        && m2 == m
    } else if opcode == 0x66 {
        c2 == c.with_regs((Registers { h: m.read(c.registers.hl()), ..c.registers }))
        && n == 2
        && m2 == m
    } else if opcode == 0x67 {
        c2 == c.with_regs(with_reg(c.registers, REG_H, reg_value(c.registers, REG_A)))
        && n == 1
        && m2 == m
    } else if opcode == 0x68 {
        c2 == c.with_regs(with_reg(c.registers, REG_L, reg_value(c.registers, REG_B)))
        && n == 1
        && m2 == m
    } else if opcode == 0x69 {
        c2 == c.with_regs(with_reg(c.registers, REG_L, reg_value(c.registers, REG_C)))
        && n == 1
        && m2 == m
    } else if opcode == 0x6A {
        c2 == c.with_regs(with_reg(c.registers, REG_L, reg_value(c.registers, REG_D)))
        && n == 1
        && m2 == m
    } else if opcode == 0x6B {
        c2 == c.with_regs(with_reg(c.registers, REG_L, reg_value(c.registers, REG_E)))
        && n == 1
        && m2 == m
    } else if opcode == 0x6C {
        c2 == c.with_regs(with_reg(c.registers, REG_L, reg_value(c.registers, REG_H)))
        && n == 1
        && m2 == m
    } else if opcode == 0x6D {
        c2 == c.with_regs(with_reg(c.registers, REG_L, reg_value(c.registers, REG_L)))
        && n == 1
        && m2 == m
    } else if opcode == 0x6E {
        c2 == c.with_regs((Registers { l: m.read(c.registers.hl()), ..c.registers }))
        && n == 2
        && m2 == m
    } else if opcode == 0x6F {
        c2 == c.with_regs(with_reg(c.registers, REG_L, reg_value(c.registers, REG_A)))
        && n == 1
        && m2 == m
    } else if opcode == 0x70 {
        m2 == m.write(c.registers.hl(), c.registers.b) && n == 2 && c2 == c
    } else if opcode == 0x71 {
        m2 == m.write(c.registers.hl(), c.registers.c) && n == 2 && c2 == c
    } else if opcode == 0x72 {
        m2 == m.write(c.registers.hl(), c.registers.d) && n == 2 && c2 == c
    } else if opcode == 0x73 {
        m2 == m.write(c.registers.hl(), c.registers.e) && n == 2 && c2 == c
    } else if opcode == 0x74 {
        m2 == m.write(c.registers.hl(), c.registers.h) && n == 2 && c2 == c
    } else if opcode == 0x75 {
        m2 == m.write(c.registers.hl(), c.registers.l) && n == 2 && c2 == c
    } else if opcode == 0x76 {
        c2 == (Cpu { halted: true, ..c }) && n == 1 && m2 == m
    } else if opcode == 0x77 {
        m2 == m.write(c.registers.hl(), c.registers.a) && n == 2 && c2 == c
    } else if opcode == 0x78 {
        c2 == c.with_regs(with_reg(c.registers, REG_A, reg_value(c.registers, REG_B)))
        && n == 1
        && m2 == m
    } else if opcode == 0x79 {
        c2 == c.with_regs(with_reg(c.registers, REG_A, reg_value(c.registers, REG_C)))
        && n == 1
        && m2 == m
    } else if opcode == 0x7A {
        c2 == c.with_regs(with_reg(c.registers, REG_A, reg_value(c.registers, REG_D)))
        && n == 1
        && m2 == m
    } else if opcode == 0x7B {
        c2 == c.with_regs(with_reg(c.registers, REG_A, reg_value(c.registers, REG_E)))
        && n == 1
        && m2 == m
    } else if opcode == 0x7C {
        c2 == c.with_regs(with_reg(c.registers, REG_A, reg_value(c.registers, REG_H)))
        && n == 1
        && m2 == m
    } else if opcode == 0x7D {
        c2 == c.with_regs(with_reg(c.registers, REG_A, reg_value(c.registers, REG_L)))
        && n == 1
        && m2 == m
    } else if opcode == 0x7E {
        c2 == c.with_regs((Registers { a: m.read(c.registers.hl()), ..c.registers }))
        && n == 2
        && m2 == m
    } else if opcode == 0x7F {
        c2 == c.with_regs(with_reg(c.registers, REG_A, reg_value(c.registers, REG_A)))
        && n == 1
        && m2 == m
    } else if opcode == 0x80 {
        c2 == c.with_regs(alu_add(c.registers, reg_value(c.registers, REG_B), false))
        && n == 1
        && m2 == m
    } else if opcode == 0x81 {
        c2 == c.with_regs(alu_add(c.registers, reg_value(c.registers, REG_C), false))
        && n == 1
        && m2 == m
    } else if opcode == 0x82 {
        c2 == c.with_regs(alu_add(c.registers, reg_value(c.registers, REG_D), false))
        && n == 1
        && m2 == m
    } else if opcode == 0x83 {
        c2 == c.with_regs(alu_add(c.registers, reg_value(c.registers, REG_E), false))
        && n == 1
        && m2 == m
    } else if opcode == 0x84 {
        c2 == c.with_regs(alu_add(c.registers, reg_value(c.registers, REG_H), false))
        && n == 1
        && m2 == m
    } else if opcode == 0x85 {
        c2 == c.with_regs(alu_add(c.registers, reg_value(c.registers, REG_L), false))
        && n == 1
        && m2 == m
    } else if opcode == 0x86 {
        c2 == c.with_regs(alu_add(c.registers, m.read(c.registers.hl()), false))
        && n == 2
        && m2 == m
    } else if opcode == 0x87 {
        c2 == c.with_regs(alu_add(c.registers, reg_value(c.registers, REG_A), false))
        && n == 1
        && m2 == m
    } else if opcode == 0x88 {
        c2 == c.with_regs(alu_add(c.registers, reg_value(c.registers, REG_B), c.registers.spec_flag_c()))
        && n == 1
        && m2 == m
    } else if opcode == 0x89 {
        c2 == c.with_regs(alu_add(c.registers, reg_value(c.registers, REG_C), c.registers.spec_flag_c()))
        && n == 1
        && m2 == m
    } else if opcode == 0x8A {
        c2 == c.with_regs(alu_add(c.registers, reg_value(c.registers, REG_D), c.registers.spec_flag_c()))
        && n == 1
        && m2 == m
    } else if opcode == 0x8B {
        c2 == c.with_regs(alu_add(c.registers, reg_value(c.registers, REG_E), c.registers.spec_flag_c()))
        && n == 1
        && m2 == m
    } else if opcode == 0x8C {
        c2 == c.with_regs(alu_add(c.registers, reg_value(c.registers, REG_H), c.registers.spec_flag_c()))
        && n == 1
        && m2 == m
    } else if opcode == 0x8D {
        c2 == c.with_regs(alu_add(c.registers, reg_value(c.registers, REG_L), c.registers.spec_flag_c()))
        && n == 1
        && m2 == m
    } else if opcode == 0x8E {
        c2 == c.with_regs(alu_add(c.registers, m.read(c.registers.hl()), c.registers.spec_flag_c()))
        && n == 2
        && m2 == m
    } else if opcode == 0x8F {
        c2 == c.with_regs(alu_add(c.registers, reg_value(c.registers, REG_A), c.registers.spec_flag_c()))
        && n == 1
        && m2 == m
    } else if opcode == 0x90 {
        c2 == c.with_regs(alu_sub(c.registers, reg_value(c.registers, REG_B), false))
        && n == 1
        && m2 == m
    } else if opcode == 0x91 {
        c2 == c.with_regs(alu_sub(c.registers, reg_value(c.registers, REG_C), false))
        && n == 1
        && m2 == m
    } else if opcode == 0x92 {
        c2 == c.with_regs(alu_sub(c.registers, reg_value(c.registers, REG_D), false))
        && n == 1
        && m2 == m
    } else if opcode == 0x93 {
        c2 == c.with_regs(alu_sub(c.registers, reg_value(c.registers, REG_E), false))
        && n == 1
        && m2 == m
    } else if opcode == 0x94 {
        c2 == c.with_regs(alu_sub(c.registers, reg_value(c.registers, REG_H), false))
        && n == 1
        && m2 == m
    } else if opcode == 0x95 {
        c2 == c.with_regs(alu_sub(c.registers, reg_value(c.registers, REG_L), false))
        && n == 1
        && m2 == m
    } else if opcode == 0x96 {
        c2 == c.with_regs(alu_sub(c.registers, m.read(c.registers.hl()), false))
        && n == 2
        && m2 == m
    } else if opcode == 0x97 {
        c2 == c.with_regs(alu_sub(c.registers, reg_value(c.registers, REG_A), false))
        && n == 1
        && m2 == m
    } else if opcode == 0x98 {
        c2 == c.with_regs(alu_sub(c.registers, reg_value(c.registers, REG_B), c.registers.spec_flag_c()))
        && n == 1
        && m2 == m
    } else if opcode == 0x99 {
        c2 == c.with_regs(alu_sub(c.registers, reg_value(c.registers, REG_C), c.registers.spec_flag_c()))
        && n == 1
        && m2 == m
    } else if opcode == 0x9A {
        c2 == c.with_regs(alu_sub(c.registers, reg_value(c.registers, REG_D), c.registers.spec_flag_c()))
        && n == 1
        && m2 == m
    } else if opcode == 0x9B {
        c2 == c.with_regs(alu_sub(c.registers, reg_value(c.registers, REG_E), c.registers.spec_flag_c()))
        && n == 1
        && m2 == m
    } else if opcode == 0x9C {
        c2 == c.with_regs(alu_sub(c.registers, reg_value(c.registers, REG_H), c.registers.spec_flag_c()))
        && n == 1
        && m2 == m
    } else if opcode == 0x9D {
        c2 == c.with_regs(alu_sub(c.registers, reg_value(c.registers, REG_L), c.registers.spec_flag_c()))
        && n == 1
        && m2 == m
    } else if opcode == 0x9E {
        c2 == c.with_regs(alu_sub(c.registers, m.read(c.registers.hl()), c.registers.spec_flag_c()))
        && n == 2
        && m2 == m
    } else if opcode == 0x9F {
        c2 == c.with_regs(alu_sub(c.registers, reg_value(c.registers, REG_A), c.registers.spec_flag_c()))
        && n == 1
        && m2 == m
    } else if opcode == 0xA0 {
        c2 == c.with_regs(alu_and(c.registers, reg_value(c.registers, REG_B)))
        && n == 1
        && m2 == m
    } else if opcode == 0xA1 {
        c2 == c.with_regs(alu_and(c.registers, reg_value(c.registers, REG_C)))
        && n == 1
        && m2 == m
    } else if opcode == 0xA2 {
        c2 == c.with_regs(alu_and(c.registers, reg_value(c.registers, REG_D)))
        && n == 1
        && m2 == m
    } else if opcode == 0xA3 {
        c2 == c.with_regs(alu_and(c.registers, reg_value(c.registers, REG_E)))
        && n == 1
        && m2 == m
    } else if opcode == 0xA4 {
        c2 == c.with_regs(alu_and(c.registers, reg_value(c.registers, REG_H)))
        && n == 1
        && m2 == m
    } else if opcode == 0xA5 {
        c2 == c.with_regs(alu_and(c.registers, reg_value(c.registers, REG_L)))
        && n == 1
        && m2 == m
    } else if opcode == 0xA6 {
        c2 == c.with_regs(alu_and(c.registers, m.read(c.registers.hl()))) && n == 2 && m2 == m
    } else if opcode == 0xA7 {
        c2 == c.with_regs(alu_and(c.registers, reg_value(c.registers, REG_A)))
        && n == 1
        && m2 == m
    } else if opcode == 0xA8 {
        c2 == c.with_regs(alu_xor(c.registers, reg_value(c.registers, REG_B)))
        && n == 1
        && m2 == m
    } else if opcode == 0xA9 {
        c2 == c.with_regs(alu_xor(c.registers, reg_value(c.registers, REG_C)))
        && n == 1
        && m2 == m
    } else if opcode == 0xAA {
        c2 == c.with_regs(alu_xor(c.registers, reg_value(c.registers, REG_D)))
        && n == 1
        && m2 == m
    } else if opcode == 0xAB {
        c2 == c.with_regs(alu_xor(c.registers, reg_value(c.registers, REG_E)))
        && n == 1
        && m2 == m
    } else if opcode == 0xAC {
        c2 == c.with_regs(alu_xor(c.registers, reg_value(c.registers, REG_H)))
        && n == 1
        && m2 == m
    } else if opcode == 0xAD {
        c2 == c.with_regs(alu_xor(c.registers, reg_value(c.registers, REG_L)))
        && n == 1
        && m2 == m
    } else if opcode == 0xAE {
        c2 == c.with_regs(alu_xor(c.registers, m.read(c.registers.hl()))) && n == 2 && m2 == m
    } else if opcode == 0xAF {
        c2 == c.with_regs(alu_xor(c.registers, reg_value(c.registers, REG_A)))
        && n == 1
        && m2 == m
    } else if opcode == 0xB0 {
        c2 == c.with_regs(alu_or(c.registers, reg_value(c.registers, REG_B))) && n == 1 && m2 == m
    } else if opcode == 0xB1 {
        c2 == c.with_regs(alu_or(c.registers, reg_value(c.registers, REG_C))) && n == 1 && m2 == m
    } else if opcode == 0xB2 {
        c2 == c.with_regs(alu_or(c.registers, reg_value(c.registers, REG_D))) && n == 1 && m2 == m
    } else if opcode == 0xB3 {
        c2 == c.with_regs(alu_or(c.registers, reg_value(c.registers, REG_E))) && n == 1 && m2 == m
    } else if opcode == 0xB4 {
        c2 == c.with_regs(alu_or(c.registers, reg_value(c.registers, REG_H))) && n == 1 && m2 == m
    } else if opcode == 0xB5 {
        c2 == c.with_regs(alu_or(c.registers, reg_value(c.registers, REG_L))) && n == 1 && m2 == m
    } else if opcode == 0xB6 {
        c2 == c.with_regs(alu_or(c.registers, m.read(c.registers.hl()))) && n == 2 && m2 == m
    } else if opcode == 0xB7 {
        c2 == c.with_regs(alu_or(c.registers, reg_value(c.registers, REG_A))) && n == 1 && m2 == m
    } else if opcode == 0xB8 {
        c2 == c.with_regs(alu_cp(c.registers, reg_value(c.registers, REG_B))) && n == 1 && m2 == m
    } else if opcode == 0xB9 {
        c2 == c.with_regs(alu_cp(c.registers, reg_value(c.registers, REG_C))) && n == 1 && m2 == m
    } else if opcode == 0xBA {
        c2 == c.with_regs(alu_cp(c.registers, reg_value(c.registers, REG_D))) && n == 1 && m2 == m
    } else if opcode == 0xBB {
        c2 == c.with_regs(alu_cp(c.registers, reg_value(c.registers, REG_E))) && n == 1 && m2 == m
    } else if opcode == 0xBC {
        c2 == c.with_regs(alu_cp(c.registers, reg_value(c.registers, REG_H))) && n == 1 && m2 == m
    } else if opcode == 0xBD {
        c2 == c.with_regs(alu_cp(c.registers, reg_value(c.registers, REG_L))) && n == 1 && m2 == m
    } else if opcode == 0xBE {
        c2 == c.with_regs(alu_cp(c.registers, m.read(c.registers.hl()))) && n == 2 && m2 == m
    } else if opcode == 0xBF {
        c2 == c.with_regs(alu_cp(c.registers, reg_value(c.registers, REG_A))) && n == 1 && m2 == m
    } else if opcode == 0xC0 {
        (if !c.registers.spec_flag_z() {
            c2 == c.with_regs(
                (Registers {
                    pc: m.read_word(c.registers.sp),
                    sp: add16(c.registers.sp, 2),
                    ..c.registers
                }),
            )
            && n == 5
        } else {
            c2 == c && n == 2
        })
        && m2 == m
    } else if opcode == 0xC1 {
        c2 == c.with_regs(
            (Registers {
                b: hi_byte(m.read_word(c.registers.sp)),
                c: lo_byte(m.read_word(c.registers.sp)),
                sp: add16(c.registers.sp, 2),
                ..c.registers
            }),
        )
        && n == 3
        && m2 == m
    } else if opcode == 0xC2 {
        (if !c.registers.spec_flag_z() {
            c2 == c.with_regs((Registers { pc: m.read_word(c.registers.pc), ..c.registers }))
            && n == 4
        } else {
            c2 == c.with_regs(advanced(c.registers, 2)) && n == 3
        })
        && m2 == m
    } else if opcode == 0xC3 {
        c2 == c.with_regs((Registers { pc: m.read_word(c.registers.pc), ..c.registers }))
        && n == 4
        && m2 == m
    } else if opcode == 0xC4 {
        (if !c.registers.spec_flag_z() {
            c2 == c.with_regs(
                (Registers {
                    pc: m.read_word(c.registers.pc),
                    sp: add16(c.registers.sp, -2),
                    ..c.registers
                }),
            )
            && m2 == m.write_word(add16(c.registers.sp, -2), add16(c.registers.pc, 2))
            && n == 6
        } else {
            c2 == c.with_regs(advanced(c.registers, 2)) && m2 == m && n == 3
        })
    } else if opcode == 0xC5 {
        c2 == c.with_regs((Registers { sp: add16(c.registers.sp, -2), ..c.registers }))
        && m2 == m.write_word(add16(c.registers.sp, -2), c.registers.bc())
        && n == 4
    } else if opcode == 0xC6 {
        c2 == c.with_regs(alu_add(advanced(c.registers, 1), m.read(c.registers.pc), false))
        && n == 2
        && m2 == m
    } else if opcode == 0xC7 {
        c2 == c.with_regs((Registers { pc: 0x00, sp: add16(c.registers.sp, -2), ..c.registers }))
        && m2 == m.write_word(add16(c.registers.sp, -2), c.registers.pc)
        && n == 4
    } else if opcode == 0xC8 {
        (if c.registers.spec_flag_z() {
            c2 == c.with_regs(
                (Registers {
                    pc: m.read_word(c.registers.sp),
                    sp: add16(c.registers.sp, 2),
                    ..c.registers
                }),
            )
            && n == 5
        } else {
            c2 == c && n == 2
        })
        && m2 == m
    } else if opcode == 0xC9 {
        c2 == c.with_regs(
            (Registers {
                pc: m.read_word(c.registers.sp),
                sp: add16(c.registers.sp, 2),
                ..c.registers
            }),
        )
        && n == 4
        && m2 == m
    } else if opcode == 0xCA {
        (if c.registers.spec_flag_z() {
            c2 == c.with_regs((Registers { pc: m.read_word(c.registers.pc), ..c.registers }))
            && n == 4
        } else {
            c2 == c.with_regs(advanced(c.registers, 2)) && n == 3
        })
        && m2 == m
    } else if opcode == 0xCB {
        ({
            let opcode = m.read(c.registers.pc);
            cb_effect(
                advanced(c.registers, 1),
                m,
                opcode / 64,
                opcode / 8 % 8,
                opcode % 8,
            )
        }) == (c2.registers, m2, n)
        && c2.ime == c.ime
        && c2.halted == c.halted
        && c2.last_m_cycles == c.last_m_cycles
    } else if opcode == 0xCC {
        (if c.registers.spec_flag_z() {
            c2 == c.with_regs(
                (Registers {
                    pc: m.read_word(c.registers.pc),
                    sp: add16(c.registers.sp, -2),
                    ..c.registers
                }),
            )
            && m2 == m.write_word(add16(c.registers.sp, -2), add16(c.registers.pc, 2))
            && n == 6
        } else {
            c2 == c.with_regs(advanced(c.registers, 2)) && m2 == m && n == 3
        })
    } else if opcode == 0xCD {
        c2 == c.with_regs(
            (Registers {
                pc: m.read_word(c.registers.pc),
                sp: add16(c.registers.sp, -2),
                ..c.registers
            }),
        )
        && m2 == m.write_word(add16(c.registers.sp, -2), add16(c.registers.pc, 2))
        && n == 6
    } else if opcode == 0xCE {
        c2 == c.with_regs(
            alu_add(advanced(c.registers, 1), m.read(c.registers.pc), c.registers.spec_flag_c()),
        )
        && n == 2
        && m2 == m
    } else if opcode == 0xCF {
        c2 == c.with_regs((Registers { pc: 0x08, sp: add16(c.registers.sp, -2), ..c.registers }))
        && m2 == m.write_word(add16(c.registers.sp, -2), c.registers.pc)
        && n == 4
    } else if opcode == 0xD0 {
        (if !c.registers.spec_flag_c() {
            c2 == c.with_regs(
                (Registers {
                    pc: m.read_word(c.registers.sp),
                    sp: add16(c.registers.sp, 2),
                    ..c.registers
                }),
            )
            && n == 5
        } else {
            c2 == c && n == 2
        })
        && m2 == m
    } else if opcode == 0xD1 {
        c2 == c.with_regs(
            (Registers {
                d: hi_byte(m.read_word(c.registers.sp)),
                e: lo_byte(m.read_word(c.registers.sp)),
                sp: add16(c.registers.sp, 2),
                ..c.registers
            }),
        )
        && n == 3
        && m2 == m
    } else if opcode == 0xD2 {
        (if !c.registers.spec_flag_c() {
            c2 == c.with_regs((Registers { pc: m.read_word(c.registers.pc), ..c.registers }))
            && n == 4
        } else {
            c2 == c.with_regs(advanced(c.registers, 2)) && n == 3
        })
        && m2 == m
    } else if opcode == 0xD4 {
        (if !c.registers.spec_flag_c() {
            c2 == c.with_regs(
                (Registers {
                    pc: m.read_word(c.registers.pc),
                    sp: add16(c.registers.sp, -2),
                    ..c.registers
                }),
            )
            && m2 == m.write_word(add16(c.registers.sp, -2), add16(c.registers.pc, 2))
            && n == 6
        } else {
            c2 == c.with_regs(advanced(c.registers, 2)) && m2 == m && n == 3
        })
    } else if opcode == 0xD5 {
        c2 == c.with_regs((Registers { sp: add16(c.registers.sp, -2), ..c.registers }))
        && m2 == m.write_word(add16(c.registers.sp, -2), c.registers.de())
        && n == 4
    } else if opcode == 0xD6 {
        c2 == c.with_regs(alu_sub(advanced(c.registers, 1), m.read(c.registers.pc), false))
        && n == 2
        && m2 == m
    } else if opcode == 0xD7 {
        c2 == c.with_regs((Registers { pc: 0x10, sp: add16(c.registers.sp, -2), ..c.registers }))
        && m2 == m.write_word(add16(c.registers.sp, -2), c.registers.pc)
        && n == 4
    } else if opcode == 0xD8 {
        (if c.registers.spec_flag_c() {
            c2 == c.with_regs(
                (Registers {
                    pc: m.read_word(c.registers.sp),
                    sp: add16(c.registers.sp, 2),
                    ..c.registers
                }),
            )
            && n == 5
        } else {
            c2 == c && n == 2
        })
        && m2 == m
    } else if opcode == 0xD9 {
        c2 == (Cpu {
            ime: true,
            registers: (Registers {
                pc: m.read_word(c.registers.sp),
                sp: add16(c.registers.sp, 2),
                ..c.registers
            }),
            ..c
        })
        && n == 4
        && m2 == m
    } else if opcode == 0xDA {
        (if c.registers.spec_flag_c() {
            c2 == c.with_regs((Registers { pc: m.read_word(c.registers.pc), ..c.registers }))
            && n == 4
        } else {
            c2 == c.with_regs(advanced(c.registers, 2)) && n == 3
        })
        && m2 == m
    } else if opcode == 0xDC {
        (if c.registers.spec_flag_c() {
            c2 == c.with_regs(
                (Registers {
                    pc: m.read_word(c.registers.pc),
                    sp: add16(c.registers.sp, -2),
                    ..c.registers
                }),
            )
            && m2 == m.write_word(add16(c.registers.sp, -2), add16(c.registers.pc, 2))
            && n == 6
        } else {
            c2 == c.with_regs(advanced(c.registers, 2)) && m2 == m && n == 3
        })
    } else if opcode == 0xDE {
        c2 == c.with_regs(
            alu_sub(advanced(c.registers, 1), m.read(c.registers.pc), c.registers.spec_flag_c()),
        )
        && n == 2
        && m2 == m
    } else if opcode == 0xDF {
        c2 == c.with_regs((Registers { pc: 0x18, sp: add16(c.registers.sp, -2), ..c.registers }))
        && m2 == m.write_word(add16(c.registers.sp, -2), c.registers.pc)
        && n == 4
    } else if opcode == 0xE0 {
        c2 == c.with_regs(advanced(c.registers, 1))
        && m2 == m.write((0xFF00 + m.read(c.registers.pc)) as u16, c.registers.a)
        && n == 3
    } else if opcode == 0xE1 {
        c2 == c.with_regs(
            (Registers {
                h: hi_byte(m.read_word(c.registers.sp)),
                l: lo_byte(m.read_word(c.registers.sp)),
                sp: add16(c.registers.sp, 2),
                ..c.registers
            }),
        )
        && n == 3
        && m2 == m
    } else if opcode == 0xE2 {
        m2 == m.write((0xFF00 + c.registers.c) as u16, c.registers.a) && n == 2 && c2 == c
    } else if opcode == 0xE5 {
        c2 == c.with_regs((Registers { sp: add16(c.registers.sp, -2), ..c.registers }))
        && m2 == m.write_word(add16(c.registers.sp, -2), c.registers.hl())
        && n == 4
    } else if opcode == 0xE6 {
        c2 == c.with_regs(alu_and(advanced(c.registers, 1), m.read(c.registers.pc)))
        && n == 2
        && m2 == m
    } else if opcode == 0xE7 {
        c2 == c.with_regs((Registers { pc: 0x20, sp: add16(c.registers.sp, -2), ..c.registers }))
        && m2 == m.write_word(add16(c.registers.sp, -2), c.registers.pc)
        && n == 4
    } else if opcode == 0xE8 {
        c2 == c.with_regs(
            (Registers {
                sp: add16(c.registers.sp, signed(m.read(c.registers.pc))),
                f: sp_offset_flags(c.registers.sp, m.read(c.registers.pc)),
                ..advanced(c.registers, 1)
            }),
        )
        && n == 4
        && m2 == m
    } else if opcode == 0xE9 {
        c2 == c.with_regs((Registers { pc: c.registers.hl(), ..c.registers }))
        && n == 1
        && m2 == m
    } else if opcode == 0xEA {
        c2 == c.with_regs(advanced(c.registers, 2))
        && m2 == m.write(m.read_word(c.registers.pc), c.registers.a)
        && n == 4
    } else if opcode == 0xEE {
        c2 == c.with_regs(alu_xor(advanced(c.registers, 1), m.read(c.registers.pc)))
        && n == 2
        && m2 == m
    } else if opcode == 0xEF {
        c2 == c.with_regs((Registers { pc: 0x28, sp: add16(c.registers.sp, -2), ..c.registers }))
        && m2 == m.write_word(add16(c.registers.sp, -2), c.registers.pc)
        && n == 4
    } else if opcode == 0xF0 {
        c2 == c.with_regs(
            (Registers {
                a: m.read((0xFF00 + m.read(c.registers.pc)) as u16),
                ..advanced(c.registers, 1)
            }),
        )
        && m2 == m
        && n == 3
    } else if opcode == 0xF1 {
        c2 == c.with_regs(
            (Registers {
                a: hi_byte(m.read_word(c.registers.sp)),
                f: (lo_byte(m.read_word(c.registers.sp)) / 16 * 16) as u8,
                sp: add16(c.registers.sp, 2),
                ..c.registers
            }),
        )
        && n == 3
        && m2 == m
    } else if opcode == 0xF2 {
        c2 == c.with_regs((Registers { a: m.read((0xFF00 + c.registers.c) as u16), ..c.registers }))
        && n == 2
        && m2 == m
    } else if opcode == 0xF3 {
        c2 == (Cpu { ime: false, ..c }) && n == 1 && m2 == m
    } else if opcode == 0xF5 {
        c2 == c.with_regs((Registers { sp: add16(c.registers.sp, -2), ..c.registers }))
        && m2 == m.write_word(add16(c.registers.sp, -2), c.registers.af())
        && n == 4
    } else if opcode == 0xF6 {
        c2 == c.with_regs(alu_or(advanced(c.registers, 1), m.read(c.registers.pc)))
        && n == 2
        && m2 == m
    } else if opcode == 0xF7 {
        c2 == c.with_regs((Registers { pc: 0x30, sp: add16(c.registers.sp, -2), ..c.registers }))
        && m2 == m.write_word(add16(c.registers.sp, -2), c.registers.pc)
        && n == 4
    } else if opcode == 0xF8 {
        c2 == c.with_regs(
            (Registers {
                h: hi_byte(add16(c.registers.sp, signed(m.read(c.registers.pc)))),
                l: lo_byte(add16(c.registers.sp, signed(m.read(c.registers.pc)))),
                f: sp_offset_flags(c.registers.sp, m.read(c.registers.pc)),
                ..advanced(c.registers, 1)
            }),
        )
        && n == 3
        && m2 == m
    } else if opcode == 0xF9 {
        c2 == c.with_regs((Registers { sp: c.registers.hl(), ..c.registers }))
        && n == 2
        && m2 == m
    } else if opcode == 0xFA {
        c2 == c.with_regs((Registers { a: m.read(m.read_word(c.registers.pc)), ..advanced(c.registers, 2) }))
        && m2 == m
        && n == 4
    } else if opcode == 0xFB {
        c2 == (Cpu { ime: true, ..c }) && n == 1 && m2 == m
    } else if opcode == 0xFE {
        c2 == c.with_regs(alu_cp(advanced(c.registers, 1), m.read(c.registers.pc)))
        && n == 2
        && m2 == m
    } else if opcode == 0xFF {
        c2 == c.with_regs((Registers { pc: 0x38, sp: add16(c.registers.sp, -2), ..c.registers }))
        && m2 == m.write_word(add16(c.registers.sp, -2), c.registers.pc)
        && n == 4
    } else {
        false
    }
}

/// The opcodes that have no instruction.
pub open spec fn is_illegal(opcode: u8) -> bool {
    opcode == 0xD3 || opcode == 0xDB || opcode == 0xDD || opcode == 0xE3 || opcode == 0xE4 || opcode == 0xEB || opcode == 0xEC || opcode == 0xED || opcode == 0xF4 || opcode == 0xFC || opcode == 0xFD
}

/// The processor: registers, the interrupt master enable and the halt state.
pub struct Cpu {
    pub registers: Registers,
    /// Interrupt master enable (IME).
    pub ime: bool,
    /// Set by HALT; cleared when an enabled interrupt is pending.
    pub halted: bool,
    /// M-cycles the last instruction took.
    pub last_m_cycles: u8,
}

impl Cpu {
    /// The same processor with other registers.
    pub open spec fn with_regs(self, r: Registers) -> Cpu {
        Cpu { registers: r, ..self }
    }

    /// What `tick` does: from `c` and `m` to `c2` and `m2` with result `r`.
    pub open spec fn tick_effect(
        c: Cpu,
        m: MemModel,
        c2: Cpu,
        m2: MemModel,
        r: Result<u8, CpuError>,
    ) -> bool {
        if c.halted {
            r == Ok::<u8, CpuError>(1) && c2 == c && m2 == m
        } else {
            let opcode = m.read(c.registers.pc);
            let c1 = c.with_regs(advanced(c.registers, 1));
            &&& (r is Err <==> is_illegal(opcode))
            &&& match r {
                Ok(n) => executes(c1, m, opcode, Cpu { last_m_cycles: c1.last_m_cycles, ..c2 }, m2, n)
                    && c2.last_m_cycles == n,
                Err(e) => is_illegal(opcode) && e == CpuError::IllegalOpcode(opcode) && c2 == c1
                    && m2 == m,
            }
        }
    }

    /// A processor in the post-boot state.
    pub fn new() -> (r: Self)
        ensures
            r.registers == Registers::boot_state(),
            !r.ime,
            !r.halted,
            r.last_m_cycles == 0,
    {
        Cpu { registers: Registers::new(), ime: false, halted: false, last_m_cycles: 0 }
    }

    /// Executes one instruction: when halted, idles for one M-cycle; otherwise
    /// fetches the opcode at PC, moves PC past it and executes it. Returns the
    /// M-cycles taken, or the error for an illegal opcode.
    pub fn tick(&mut self, mmu: &mut Mmu) -> (r: Result<u8, CpuError>)
        requires
            old(mmu).wf(),
        ensures
            final(mmu).wf(),
            Cpu::tick_effect(*old(self), old(mmu)@, *final(self), final(mmu)@, r),
            r matches Ok(n) ==> 1 <= n <= 6,
    {
        if self.halted {
            return Ok(1);
        }
        let opcode = mmu.read_byte(self.registers.pc);
        self.registers.pc = self.registers.pc.wrapping_add(1);
        let result = self.execute(opcode, mmu);
        if let Ok(cycles) = result {
            self.last_m_cycles = cycles;
        }
        result
    }

    /// Executes the instruction with main-table opcode `opcode`.
    #[verifier::rlimit(100)]
    fn execute(&mut self, opcode: u8, mmu: &mut Mmu) -> (r: Result<u8, CpuError>)
        requires
            old(mmu).wf(),
        ensures
            final(mmu).wf(),
            final(self).last_m_cycles == old(self).last_m_cycles,
            is_illegal(opcode) <==> r is Err,
            r matches Ok(n) ==> 1 <= n <= 6,
            match r {
                Ok(n) => executes(*old(self), old(mmu)@, opcode, *final(self), final(mmu)@, n),
                Err(e) => e == CpuError::IllegalOpcode(opcode) && *final(self) == *old(self)
                    && final(mmu)@ == old(mmu)@,
            },
    {
        proof {
            reveal(executes);
        }
        match opcode {
            0x00 => Ok(nop(self)),
            0x01 => Ok(ld_bc_u16(self, mmu)),
            0x02 => Ok(ld_bc_a(self, mmu)),
            0x03 => Ok(inc_bc(self)),
            0x04 => Ok(inc_b(self)),
            0x05 => Ok(dec_b(self)),
            0x06 => Ok(ld_b_u8(self, mmu)),
            0x07 => Ok(rlca(self)),
            0x08 => Ok(ld_u16_sp(self, mmu)),
            0x09 => Ok(add_hl_bc(self)),
            0x0A => Ok(ld_a_bc(self, mmu)),
            0x0B => Ok(dec_bc(self)),
            0x0C => Ok(inc_c(self)),
            0x0D => Ok(dec_c(self)),
            0x0E => Ok(ld_c_u8(self, mmu)),
            0x0F => Ok(rrca(self)),
            0x10 => Ok(stop(self)),
            0x11 => Ok(ld_de_u16(self, mmu)),
            0x12 => Ok(ld_de_a(self, mmu)),
            0x13 => Ok(inc_de(self)),
            0x14 => Ok(inc_d(self)),
            0x15 => Ok(dec_d(self)),
            0x16 => Ok(ld_d_u8(self, mmu)),
            0x17 => Ok(rla(self)),
            0x18 => Ok(jr_i8(self, mmu)),
            0x19 => Ok(add_hl_de(self)),
            0x1A => Ok(ld_a_de(self, mmu)),
            0x1B => Ok(dec_de(self)),
            0x1C => Ok(inc_e(self)),
            0x1D => Ok(dec_e(self)),
            0x1E => Ok(ld_e_u8(self, mmu)),
            0x1F => Ok(rra(self)),
            0x20 => Ok(jr_nz_i8(self, mmu)),
            0x21 => Ok(ld_hl_u16(self, mmu)),
            0x22 => Ok(ld_hli_a(self, mmu)),
            0x23 => Ok(inc_hl(self)),
            0x24 => Ok(inc_h(self)),
            0x25 => Ok(dec_h(self)),
            0x26 => Ok(ld_h_u8(self, mmu)),
            0x27 => Ok(daa(self)),
            0x28 => Ok(jr_z_i8(self, mmu)),
            0x29 => Ok(add_hl_hl(self)),
            0x2A => Ok(ld_a_hli(self, mmu)),
            0x2B => Ok(dec_hl(self)),
            0x2C => Ok(inc_l(self)),
            0x2D => Ok(dec_l(self)),
            0x2E => Ok(ld_l_u8(self, mmu)),
            0x2F => Ok(cpl(self)),
            0x30 => Ok(jr_nc_i8(self, mmu)),
            0x31 => Ok(ld_sp_u16(self, mmu)),
            0x32 => Ok(ld_hld_a(self, mmu)),
            0x33 => Ok(inc_sp(self)),
            0x34 => Ok(inc_hl_mem(self, mmu)),
            0x35 => Ok(dec_hl_mem(self, mmu)),
            0x36 => Ok(ld_hl_u8(self, mmu)),
            0x37 => Ok(scf(self)),
            0x38 => Ok(jr_c_i8(self, mmu)),
            0x39 => Ok(add_hl_sp(self)),
            0x3A => Ok(ld_a_hld(self, mmu)),
            0x3B => Ok(dec_sp(self)),
            0x3C => Ok(inc_a(self)),
            0x3D => Ok(dec_a(self)),
            0x3E => Ok(ld_a_u8(self, mmu)),
            0x3F => Ok(ccf(self)),
            0x40 => Ok(ld_r_r(self, REG_B, REG_B)),
            0x41 => Ok(ld_r_r(self, REG_B, REG_C)),
            0x42 => Ok(ld_r_r(self, REG_B, REG_D)),
            0x43 => Ok(ld_r_r(self, REG_B, REG_E)),
            0x44 => Ok(ld_r_r(self, REG_B, REG_H)),
            0x45 => Ok(ld_r_r(self, REG_B, REG_L)),
            0x46 => Ok(ld_b_hl(self, mmu)),
            0x47 => Ok(ld_r_r(self, REG_B, REG_A)),
            0x48 => Ok(ld_r_r(self, REG_C, REG_B)),
            0x49 => Ok(ld_r_r(self, REG_C, REG_C)),
            0x4A => Ok(ld_r_r(self, REG_C, REG_D)),
            0x4B => Ok(ld_r_r(self, REG_C, REG_E)),
            0x4C => Ok(ld_r_r(self, REG_C, REG_H)),
            0x4D => Ok(ld_r_r(self, REG_C, REG_L)),
            0x4E => Ok(ld_c_hl(self, mmu)),
            0x4F => Ok(ld_r_r(self, REG_C, REG_A)),
            0x50 => Ok(ld_r_r(self, REG_D, REG_B)),
            0x51 => Ok(ld_r_r(self, REG_D, REG_C)),
            0x52 => Ok(ld_r_r(self, REG_D, REG_D)),
            0x53 => Ok(ld_r_r(self, REG_D, REG_E)),
            0x54 => Ok(ld_r_r(self, REG_D, REG_H)),
            0x55 => Ok(ld_r_r(self, REG_D, REG_L)),
            0x56 => Ok(ld_d_hl(self, mmu)),
            0x57 => Ok(ld_r_r(self, REG_D, REG_A)),
            0x58 => Ok(ld_r_r(self, REG_E, REG_B)),
            0x59 => Ok(ld_r_r(self, REG_E, REG_C)),
            0x5A => Ok(ld_r_r(self, REG_E, REG_D)),
            0x5B => Ok(ld_r_r(self, REG_E, REG_E)),
            0x5C => Ok(ld_r_r(self, REG_E, REG_H)),
            0x5D => Ok(ld_r_r(self, REG_E, REG_L)),
            0x5E => Ok(ld_e_hl(self, mmu)),
            0x5F => Ok(ld_r_r(self, REG_E, REG_A)),
            0x60 => Ok(ld_r_r(self, REG_H, REG_B)),
            0x61 => Ok(ld_r_r(self, REG_H, REG_C)),
            0x62 => Ok(ld_r_r(self, REG_H, REG_D)),
            0x63 => Ok(ld_r_r(self, REG_H, REG_E)),
            0x64 => Ok(ld_r_r(self, REG_H, REG_H)),
            0x65 => Ok(ld_r_r(self, REG_H, REG_L)),
            0x66 => Ok(ld_h_hl(self, mmu)),
            0x67 => Ok(ld_r_r(self, REG_H, REG_A)),
            0x68 => Ok(ld_r_r(self, REG_L, REG_B)),
            0x69 => Ok(ld_r_r(self, REG_L, REG_C)),
            0x6A => Ok(ld_r_r(self, REG_L, REG_D)),
            0x6B => Ok(ld_r_r(self, REG_L, REG_E)),
            0x6C => Ok(ld_r_r(self, REG_L, REG_H)),
            0x6D => Ok(ld_r_r(self, REG_L, REG_L)),
            0x6E => Ok(ld_l_hl(self, mmu)),
            0x6F => Ok(ld_r_r(self, REG_L, REG_A)),
            0x70 => Ok(ld_hl_b(self, mmu)),
            0x71 => Ok(ld_hl_c(self, mmu)),
            0x72 => Ok(ld_hl_d(self, mmu)),
            0x73 => Ok(ld_hl_e(self, mmu)),
            0x74 => Ok(ld_hl_h(self, mmu)),
            0x75 => Ok(ld_hl_l(self, mmu)),
            0x76 => Ok(halt(self)),
            0x77 => Ok(ld_hl_a(self, mmu)),
            0x78 => Ok(ld_r_r(self, REG_A, REG_B)),
            0x79 => Ok(ld_r_r(self, REG_A, REG_C)),
            0x7A => Ok(ld_r_r(self, REG_A, REG_D)),
            0x7B => Ok(ld_r_r(self, REG_A, REG_E)),
            0x7C => Ok(ld_r_r(self, REG_A, REG_H)),
            0x7D => Ok(ld_r_r(self, REG_A, REG_L)),
            0x7E => Ok(ld_a_hl(self, mmu)),
            0x7F => Ok(ld_r_r(self, REG_A, REG_A)),
            0x80 => Ok(add_a_r(self, REG_B)),
            0x81 => Ok(add_a_r(self, REG_C)),
            0x82 => Ok(add_a_r(self, REG_D)),
            0x83 => Ok(add_a_r(self, REG_E)),
            0x84 => Ok(add_a_r(self, REG_H)),
            0x85 => Ok(add_a_r(self, REG_L)),
            0x86 => Ok(add_a_hl(self, mmu)),
            0x87 => Ok(add_a_r(self, REG_A)),
            0x88 => Ok(adc_a_r(self, REG_B)),
            0x89 => Ok(adc_a_r(self, REG_C)),
            0x8A => Ok(adc_a_r(self, REG_D)),
            0x8B => Ok(adc_a_r(self, REG_E)),
            0x8C => Ok(adc_a_r(self, REG_H)),
            0x8D => Ok(adc_a_r(self, REG_L)),
            0x8E => Ok(adc_a_hl(self, mmu)),
            0x8F => Ok(adc_a_r(self, REG_A)),
            0x90 => Ok(sub_a_r(self, REG_B)),
            0x91 => Ok(sub_a_r(self, REG_C)),
            0x92 => Ok(sub_a_r(self, REG_D)),
            0x93 => Ok(sub_a_r(self, REG_E)),
            0x94 => Ok(sub_a_r(self, REG_H)),
            0x95 => Ok(sub_a_r(self, REG_L)),
            0x96 => Ok(sub_a_hl(self, mmu)),
            0x97 => Ok(sub_a_r(self, REG_A)),
            0x98 => Ok(sbc_a_r(self, REG_B)),
            0x99 => Ok(sbc_a_r(self, REG_C)),
            0x9A => Ok(sbc_a_r(self, REG_D)),
            0x9B => Ok(sbc_a_r(self, REG_E)),
            0x9C => Ok(sbc_a_r(self, REG_H)),
            0x9D => Ok(sbc_a_r(self, REG_L)),
            0x9E => Ok(sbc_a_hl(self, mmu)),
            0x9F => Ok(sbc_a_r(self, REG_A)),
            0xA0 => Ok(and_a_r(self, REG_B)),
            0xA1 => Ok(and_a_r(self, REG_C)),
            0xA2 => Ok(and_a_r(self, REG_D)),
            0xA3 => Ok(and_a_r(self, REG_E)),
            0xA4 => Ok(and_a_r(self, REG_H)),
            0xA5 => Ok(and_a_r(self, REG_L)),
            0xA6 => Ok(and_a_hl(self, mmu)),
            0xA7 => Ok(and_a_r(self, REG_A)),
            0xA8 => Ok(xor_a_r(self, REG_B)),
            0xA9 => Ok(xor_a_r(self, REG_C)),
            0xAA => Ok(xor_a_r(self, REG_D)),
            0xAB => Ok(xor_a_r(self, REG_E)),
            0xAC => Ok(xor_a_r(self, REG_H)),
            0xAD => Ok(xor_a_r(self, REG_L)),
            0xAE => Ok(xor_a_hl(self, mmu)),
            0xAF => Ok(xor_a_r(self, REG_A)),
            0xB0 => Ok(or_a_r(self, REG_B)),
            0xB1 => Ok(or_a_r(self, REG_C)),
            0xB2 => Ok(or_a_r(self, REG_D)),
            0xB3 => Ok(or_a_r(self, REG_E)),
            0xB4 => Ok(or_a_r(self, REG_H)),
            0xB5 => Ok(or_a_r(self, REG_L)),
            0xB6 => Ok(or_a_hl(self, mmu)),
            0xB7 => Ok(or_a_r(self, REG_A)),
            0xB8 => Ok(cp_a_r(self, REG_B)),
            0xB9 => Ok(cp_a_r(self, REG_C)),
            0xBA => Ok(cp_a_r(self, REG_D)),
            0xBB => Ok(cp_a_r(self, REG_E)),
            0xBC => Ok(cp_a_r(self, REG_H)),
            0xBD => Ok(cp_a_r(self, REG_L)),
            0xBE => Ok(cp_a_hl(self, mmu)),
            0xBF => Ok(cp_a_r(self, REG_A)),
            0xC0 => Ok(ret_nz(self, mmu)),
            0xC1 => Ok(pop_bc(self, mmu)),
            0xC2 => Ok(jp_nz_u16(self, mmu)),
            0xC3 => Ok(jp_u16(self, mmu)),
            0xC4 => Ok(call_nz_u16(self, mmu)),
            0xC5 => Ok(push_bc(self, mmu)),
            0xC6 => Ok(add_a_u8(self, mmu)),
            0xC7 => Ok(rst_00(self, mmu)),
            0xC8 => Ok(ret_z(self, mmu)),
            0xC9 => Ok(ret(self, mmu)),
            0xCA => Ok(jp_z_u16(self, mmu)),
            0xCB => Ok(execute_cb(self, mmu)),
            0xCC => Ok(call_z_u16(self, mmu)),
            0xCD => Ok(call_u16(self, mmu)),
            0xCE => Ok(adc_a_u8(self, mmu)),
            0xCF => Ok(rst_08(self, mmu)),
            0xD0 => Ok(ret_nc(self, mmu)),
            0xD1 => Ok(pop_de(self, mmu)),
            0xD2 => Ok(jp_nc_u16(self, mmu)),
            0xD3 => illegal_opcode(opcode),
            0xD4 => Ok(call_nc_u16(self, mmu)),
            0xD5 => Ok(push_de(self, mmu)),
            0xD6 => Ok(sub_a_u8(self, mmu)),
            0xD7 => Ok(rst_10(self, mmu)),
            0xD8 => Ok(ret_c(self, mmu)),
            0xD9 => Ok(reti(self, mmu)),
            0xDA => Ok(jp_c_u16(self, mmu)),
            0xDB => illegal_opcode(opcode),
            0xDC => Ok(call_c_u16(self, mmu)),
            0xDD => illegal_opcode(opcode),
            0xDE => Ok(sbc_a_u8(self, mmu)),
            0xDF => Ok(rst_18(self, mmu)),
            0xE0 => Ok(ldh_u8_a(self, mmu)),
            0xE1 => Ok(pop_hl(self, mmu)),
            0xE2 => Ok(ldh_c_a(self, mmu)),
            0xE3 => illegal_opcode(opcode),
            0xE4 => illegal_opcode(opcode),
            0xE5 => Ok(push_hl(self, mmu)),
            0xE6 => Ok(and_a_u8(self, mmu)),
            0xE7 => Ok(rst_20(self, mmu)),
            0xE8 => Ok(add_sp_i8(self, mmu)),
            0xE9 => Ok(jp_hl(self)),
            0xEA => Ok(ld_u16_a(self, mmu)),
            0xEB => illegal_opcode(opcode),
            0xEC => illegal_opcode(opcode),
            0xED => illegal_opcode(opcode),
            0xEE => Ok(xor_a_u8(self, mmu)),
            0xEF => Ok(rst_28(self, mmu)),
            0xF0 => Ok(ldh_a_u8(self, mmu)),
            0xF1 => Ok(pop_af(self, mmu)),
            0xF2 => Ok(ldh_a_c(self, mmu)),
            0xF3 => Ok(di(self)),
            0xF4 => illegal_opcode(opcode),
            0xF5 => Ok(push_af(self, mmu)),
            0xF6 => Ok(or_a_u8(self, mmu)),
            0xF7 => Ok(rst_30(self, mmu)),
            0xF8 => Ok(ld_hl_sp_i8(self, mmu)),
            0xF9 => Ok(ld_sp_hl(self)),
            0xFA => Ok(ld_a_u16(self, mmu)),
            0xFB => Ok(ei(self)),
            0xFC => illegal_opcode(opcode),
            0xFD => illegal_opcode(opcode),
            0xFE => Ok(cp_a_u8(self, mmu)),
            0xFF => Ok(rst_38(self, mmu)),
        }
    }
}

} // verus!
