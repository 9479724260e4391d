//! What each arithmetic, logic, rotate and shift operation does to the
//! registers, stated over values.

use vstd::prelude::*;
use crate::cpu::registers::{flags, lemma_flags, Registers};
use crate::mmu::{add16, add8, MemModel};

verus! {

/// Register codes of the main opcode table's register operands.
pub const REG_A: u8 = 0;
pub const REG_B: u8 = 1;
pub const REG_C: u8 = 2;
pub const REG_D: u8 = 3;
pub const REG_E: u8 = 4;
pub const REG_H: u8 = 5;
pub const REG_L: u8 = 6;

/// The register a main-table code names; other codes read as 0.
pub open spec fn reg_value(r: Registers, id: u8) -> u8 {
    if id == REG_A {
        r.a
    } else if id == REG_B {
        r.b
    } else if id == REG_C {
        r.c
    } else if id == REG_D {
        r.d
    } else if id == REG_E {
        r.e
    } else if id == REG_H {
        r.h
    } else if id == REG_L {
        r.l
    } else {
        0
    }
}

/// The registers with the one a main-table code names set to `v`; other codes change nothing.
pub open spec fn with_reg(r: Registers, id: u8, v: u8) -> Registers {
    if id == REG_A {
        Registers { a: v, ..r }
    } else if id == REG_B {
        Registers { b: v, ..r }
    } else if id == REG_C {
        Registers { c: v, ..r }
    } else if id == REG_D {
        Registers { d: v, ..r }
    } else if id == REG_E {
        Registers { e: v, ..r }
    } else if id == REG_H {
        Registers { h: v, ..r }
    } else if id == REG_L {
        Registers { l: v, ..r }
    } else {
        r
    }
}

/// The register a CB-table code names (0=B, 1=C, 2=D, 3=E, 4=H, 5=L, 7=A);
/// code 6 is (HL) and reads as 0 here.
pub open spec fn cb_reg_value(r: Registers, id: u8) -> u8 {
    if id == 0 {
        r.b
    } else if id == 1 {
        r.c
    } else if id == 2 {
        r.d
    } else if id == 3 {
        r.e
    } else if id == 4 {
        r.h
    } else if id == 5 {
        r.l
    } else if id == 7 {
        r.a
    } else {
        0
    }
}

/// The registers with the one a CB-table code names set to `v`.
pub open spec fn with_cb_reg(r: Registers, id: u8, v: u8) -> Registers {
    if id == 0 {
        Registers { b: v, ..r }
    } else if id == 1 {
        Registers { c: v, ..r }
    } else if id == 2 {
        Registers { d: v, ..r }
    } else if id == 3 {
        Registers { e: v, ..r }
    } else if id == 4 {
        Registers { h: v, ..r }
    } else if id == 5 {
        Registers { l: v, ..r }
    } else if id == 7 {
        Registers { a: v, ..r }
    } else {
        r
    }
}

/// The registers with PC moved on by `n` (wrapping).
pub open spec fn advanced(r: Registers, n: int) -> Registers {
    Registers { pc: add16(r.pc, n), ..r }
}

/// A byte read as a two's-complement offset.
pub open spec fn signed(b: u8) -> int {
    if b < 128 {
        b as int
    } else {
        b as int - 256
    }
}

/// ADD A,v (and ADC A,v with `cin` the incoming carry).
pub open spec fn alu_add(r: Registers, v: u8, cin: bool) -> Registers {
    let c: int = if cin { 1 } else { 0 };
    let res = add8(r.a, v as int + c);
    Registers {
        a: res,
        f: flags(
            res == 0,
            false,
            (r.a & 0x0F) as int + (v & 0x0F) as int + c > 0x0F,
            r.a as int + v as int + c > 0xFF,
        ),
        ..r
    }
}

/// SUB A,v (and SBC A,v with `cin` the incoming carry).
pub open spec fn alu_sub(r: Registers, v: u8, cin: bool) -> Registers {
    let c: int = if cin { 1 } else { 0 };
    let res = add8(r.a, -(v as int + c));
    Registers {
        a: res,
        f: flags(
            res == 0,
            true,
            ((r.a & 0x0F) as int) < (v & 0x0F) as int + c,
            (r.a as int) < v as int + c,
        ),
        ..r
    }
}

/// CP A,v: the flags of SUB A,v with A kept.
pub open spec fn alu_cp(r: Registers, v: u8) -> Registers {
    Registers {
        f: flags(r.a == v, true, (r.a & 0x0F) < (v & 0x0F), r.a < v),
        ..r
    }
}

pub open spec fn alu_and(r: Registers, v: u8) -> Registers {
    Registers { a: r.a & v, f: flags(r.a & v == 0, false, true, false), ..r }
}

pub open spec fn alu_xor(r: Registers, v: u8) -> Registers {
    Registers { a: r.a ^ v, f: flags(r.a ^ v == 0, false, false, false), ..r }
}

pub open spec fn alu_or(r: Registers, v: u8) -> Registers {
    Registers { a: r.a | v, f: flags(r.a | v == 0, false, false, false), ..r }
}

/// INC of `v`: the result, and the flags with C kept from `r`.
pub open spec fn inc_flags(r: Registers, v: u8) -> u8 {
    flags(add8(v, 1) == 0, false, v & 0x0F == 0x0F, r.spec_flag_c())
}

/// DEC of `v`: the flags with C kept from `r`.
pub open spec fn dec_flags(r: Registers, v: u8) -> u8 {
    flags(add8(v, -1) == 0, true, v & 0x0F == 0, r.spec_flag_c())
}

/// ADD HL,v; Z is kept.
pub open spec fn alu_add_hl(r: Registers, v: u16) -> Registers {
    let hl = r.spec_hl();
    let res = add16(hl, v as int);
    Registers {
        h: (res as int / 256) as u8,
        l: (res as int % 256) as u8,
        f: flags(
            r.spec_flag_z(),
            false,
            (hl & 0x0FFF) as int + (v & 0x0FFF) as int > 0x0FFF,
            hl as int + v as int > 0xFFFF,
        ),
        ..r
    }
}

/// The flags of ADD SP,i8 and LD HL,SP+i8: carries out of bits 3 and 7 of the low byte.
pub open spec fn sp_offset_flags(sp: u16, off: u8) -> u8 {
    let lo = (sp as int % 256) as u8;
    flags(false, false, (lo & 0x0F) as int + (off & 0x0F) as int > 0x0F, lo as int + off as int > 0xFF)
}

/// Result of rotate/shift operation `op` (0 RLC, 1 RRC, 2 RL, 3 RR, 4 SLA,
/// 5 SRA, 6 SWAP, 7 SRL) on `v` with incoming carry `cin`.
pub open spec fn shift_result(op: u8, v: u8, cin: bool) -> u8 {
    if op == 0 {
        (v << 1u8) | (v >> 7u8)
    } else if op == 1 {
        (v >> 1u8) | (v << 7u8)
    } else if op == 2 {
        (v << 1u8) | (if cin { 1u8 } else { 0u8 })
    } else if op == 3 {
        (v >> 1u8) | (if cin { 0x80u8 } else { 0u8 })
    } else if op == 4 {
        v << 1u8
    } else if op == 5 {
        (v >> 1u8) | (v & 0x80)
    } else if op == 6 {
        (v << 4u8) | (v >> 4u8)
    } else {
        v >> 1u8
    }
}

/// The carry that rotate/shift operation `op` leaves.
pub open spec fn shift_carry(op: u8, v: u8) -> bool {
    if op == 0 || op == 2 || op == 4 {
        v & 0x80 != 0
    } else if op == 6 {
        false
    } else {
        v & 0x01 != 0
    }
}

/// DAA: decimal adjustment of A after a BCD addition or subtraction.
pub open spec fn alu_daa(r: Registers) -> Registers {
    let a0 = r.a;
    let c0 = r.spec_flag_c();
    let a1 = if !r.spec_flag_n() && (c0 || a0 > 0x99) {
        add8(a0, 0x60)
    } else if r.spec_flag_n() && c0 {
        add8(a0, -0x60)
    } else {
        a0
    };
    let c1 = c0 || (!r.spec_flag_n() && a0 > 0x99);
    let a2 = if !r.spec_flag_n() && (r.spec_flag_h() || a1 & 0x0F > 0x09) {
        add8(a1, 0x06)
    } else if r.spec_flag_n() && r.spec_flag_h() {
        add8(a1, -0x06)
    } else {
        a1
    };
    Registers { a: a2, f: flags(a2 == 0, r.spec_flag_n(), false, c1), ..r }
}

/// A byte holds two BCD digits.
pub open spec fn is_bcd(v: u8) -> bool {
    v / 16 <= 9 && v % 16 <= 9
}

/// The number two BCD digits stand for.
pub open spec fn bcd_value(v: u8) -> int {
    (v / 16) as int * 10 + (v % 16) as int
}

/// The BCD byte of a number below 100.
pub open spec fn to_bcd(n: int) -> u8 {
    (n / 10 * 16 + n % 10) as u8
}

/// CP A,v sets the flags exactly as SUB A,v does, and leaves A alone.
pub proof fn lemma_cp_is_sub_flags(r: Registers, v: u8)
    ensures
        alu_cp(r, v).f == alu_sub(r, v, false).f,
        alu_cp(r, v).a == r.a,
{
    assert((add8(r.a, -(v as int)) == 0) == (r.a == v));
}

/// DAA after ADD or ADC of two BCD bytes gives the BCD of their decimal sum
/// modulo 100, with C set exactly when the sum reaches 100.
#[verifier::rlimit(100)]
pub proof fn lemma_daa_after_add(r: Registers, b: u8, cin: bool)
    requires
        is_bcd(r.a),
        is_bcd(b),
    ensures
        ({
            let sum = bcd_value(r.a) + bcd_value(b) + if cin { 1int } else { 0int };
            let adj = alu_daa(alu_add(r, b, cin));
            adj.a == to_bcd(sum % 100) && adj.spec_flag_c() == (sum >= 100)
        }),
{
    let a = r.a;
    let c: int = if cin { 1 } else { 0 };
    let s = alu_add(r, b, cin);
    let a1 = s.a;
    let h = (a & 0x0F) as int + (b & 0x0F) as int + c > 0x0F;
    let cy = a as int + b as int + c > 0xFF;
    lemma_flags(a1 == 0, false, h, cy);
    let c1 = cy || a1 > 0x99;
    let a2: u8 = if c1 { add8(a1, 0x60) } else { a1 };
    assert(a & 0x0F == a % 16) by (bit_vector);
    assert(b & 0x0F == b % 16) by (bit_vector);
    assert(a2 & 0x0F == a2 % 16) by (bit_vector);
    let al = a % 16;
    let bl = b % 16;
    let hh = a / 16 + b / 16;
    let low = al + bl + c;
    let sum = 10 * hh + low;
    assert(a as int == 16 * (a / 16) + al && b as int == 16 * (b / 16) + bl);
    assert(a as int + b as int + c == 16 * hh + low);
    assert(bcd_value(a) + bcd_value(b) + c == sum);
    let a3: int;
    if low <= 9 {
        if hh <= 9 {
            assert(a1 == 16 * hh + low);
            a3 = 16 * hh + low;
            assert(sum % 100 == sum && sum / 10 == hh && sum % 10 == low);
        } else {
            assert(a1 == (16 * hh + low) % 256);
            assert(a2 == 16 * (hh - 10) + low);
            a3 = 16 * (hh - 10) + low;
            assert(sum % 100 == 10 * (hh - 10) + low);
            assert((sum % 100) / 10 == hh - 10 && (sum % 100) % 10 == low);
        }
    } else if low <= 15 {
        if hh <= 8 {
            assert(a1 == 16 * hh + low);
            assert(a2 == a1);
            a3 = 16 * (hh + 1) + low - 10;
            assert(sum % 100 == sum && sum / 10 == hh + 1 && sum % 10 == low - 10);
        } else if hh == 9 {
            assert(a1 == 16 * hh + low);
            assert(a2 == 240 + low);
            a3 = low - 10;
            assert(sum % 100 == low - 10);
        } else {
            assert(a1 == (16 * hh + low) % 256);
            assert(a2 == 16 * (hh - 10) + low);
            a3 = 16 * (hh - 9) + low - 10;
            assert(sum % 100 == 10 * (hh - 9) + low - 10);
            assert((sum % 100) / 10 == hh - 9 && (sum % 100) % 10 == low - 10);
        }
    } else {
        if hh <= 8 {
            assert(a1 == 16 * (hh + 1) + low - 16);
            assert(a2 == a1);
            a3 = 16 * (hh + 1) + low - 10;
            assert(sum % 100 == sum && sum / 10 == hh + 1 && sum % 10 == low - 10);
        } else {
            assert(a1 == (16 * (hh + 1) + low - 16) % 256);
            assert(a2 == 16 * (hh - 9) + low - 16);
            a3 = 16 * (hh - 9) + low - 10;
            assert(sum % 100 == 10 * (hh - 9) + low - 10);
            assert((sum % 100) / 10 == hh - 9 && (sum % 100) % 10 == low - 10);
        }
    }
    assert(alu_daa(s).a == a3);
    assert(to_bcd(sum % 100) == a3);
    let d = alu_daa(s);
    lemma_flags(d.a == 0, false, false, c1);
}

/// The operand a CB-table register code names: a register, or (HL) for code 6.
pub open spec fn cb_operand(r: Registers, m: MemModel, reg: u8) -> u8 {
    if reg == 6 {
        m.read(r.spec_hl())
    } else {
        cb_reg_value(r, reg)
    }
}

/// The operand written back: to a register, or to (HL) for code 6.
pub open spec fn cb_store(r: Registers, m: MemModel, reg: u8, v: u8) -> (Registers, MemModel) {
    if reg == 6 {
        (r, m.write(r.spec_hl(), v))
    } else {
        (with_cb_reg(r, reg, v), m)
    }
}

/// A CB-table instruction of class `class` (0 rotate/shift, 1 BIT, 2 RES, 3 SET)
/// with bit or operation `bit` on operand code `reg`: the registers, the memory
/// and the M-cycles after it.
pub open spec fn cb_effect(r: Registers, m: MemModel, class: u8, bit: u8, reg: u8) -> (
    Registers,
    MemModel,
    u8,
) {
    let v = cb_operand(r, m, reg);
    let cycles: u8 = if reg == 6 { 4 } else { 2 };
    if class == 0 {
        let res = shift_result(bit, v, r.spec_flag_c());
        let r1 = Registers { f: flags(res == 0, false, false, shift_carry(bit, v)), ..r };
        let (r2, m2) = cb_store(r1, m, reg, res);
        (r2, m2, cycles)
    } else if class == 1 {
        (
            Registers { f: flags(v & (1u8 << bit) == 0, false, true, r.spec_flag_c()), ..r },
            m,
            if reg == 6 { 3 } else { 2 },
        )
    } else if class == 2 {
        let (r2, m2) = cb_store(r, m, reg, v & !(1u8 << bit));
        (r2, m2, cycles)
    } else {
        let (r2, m2) = cb_store(r, m, reg, v | (1u8 << bit));
        (r2, m2, cycles)
    }
}

} // verus!
