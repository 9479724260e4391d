//! The register file: eight 8-bit registers, their 16-bit pairs, PC and SP.

use vstd::prelude::*;

verus! {

/// Zero flag bit of F.
pub const FLAG_ZERO: u8 = 0x80;

/// Subtract flag bit of F.
pub const FLAG_SUBTRACT: u8 = 0x40;

/// Half-carry flag bit of F.
pub const FLAG_HALF_CARRY: u8 = 0x20;

/// Carry flag bit of F.
pub const FLAG_CARRY: u8 = 0x10;

/// The big-endian 16-bit value of a register pair.
pub open spec fn pair(hi: u8, lo: u8) -> u16 {
    (hi as int * 256 + lo as int) as u16
}

/// High byte of a 16-bit value.
pub open spec fn hi_byte(v: u16) -> u8 {
    (v as int / 256) as u8
}

/// Low byte of a 16-bit value.
pub open spec fn lo_byte(v: u16) -> u8 {
    (v as int % 256) as u8
}

/// The flag byte with the four given flags and a zero low nibble.
pub open spec fn flags(z: bool, n: bool, h: bool, c: bool) -> u8 {
    (if z { 0x80u8 } else { 0u8 }) | (if n { 0x40u8 } else { 0u8 }) | (if h { 0x20u8 } else {
        0u8
    }) | (if c { 0x10u8 } else { 0u8 })
}

/// A flag byte built by `flags` reads back its four flags and has a zero low nibble.
pub proof fn lemma_flags(z: bool, n: bool, h: bool, c: bool)
    ensures
        (flags(z, n, h, c) & FLAG_ZERO != 0) == z,
        (flags(z, n, h, c) & FLAG_SUBTRACT != 0) == n,
        (flags(z, n, h, c) & FLAG_HALF_CARRY != 0) == h,
        (flags(z, n, h, c) & FLAG_CARRY != 0) == c,
        flags(z, n, h, c) & 0x0F == 0,
{
    let f = flags(z, n, h, c);
    assert(f == (if z { 0x80u8 } else { 0u8 }) | (if n { 0x40u8 } else { 0u8 }) | (if h {
        0x20u8
    } else {
        0u8
    }) | (if c { 0x10u8 } else { 0u8 }));
    assert((f & 0x80 != 0 <==> z) && (f & 0x40 != 0 <==> n) && (f & 0x20 != 0 <==> h) && (f
        & 0x10 != 0 <==> c) && (f & 0x0F == 0)) by (bit_vector)
        requires
            f == (if z { 0x80u8 } else { 0u8 }) | (if n { 0x40u8 } else { 0u8 }) | (if h {
                0x20u8
            } else {
                0u8
            }) | (if c { 0x10u8 } else { 0u8 }),
    ;
}

/// Shifting and masking a 16-bit value gives its high and low bytes, and
/// joining two bytes by shift and or gives their pair.
pub proof fn lemma_bytes(v: u16, hi: u8, lo: u8)
    ensures
        (v >> 8) as u8 == hi_byte(v),
        (v & 0xFF) as u8 == lo_byte(v),
        (v & 0xF0) as u8 == lo_byte(v) / 16 * 16,
        ((hi as u16) << 8 | lo as u16) == pair(hi, lo),
{
    assert((v >> 8) == v / 256 && (v & 0xFF) == v % 256 && (v & 0xF0) == v % 256 / 16 * 16
        && ((hi as u16) << 8 | lo as u16) == hi as u16 * 256 + lo as u16) by (bit_vector);
}

/// The CPU registers. F holds the flags Z, N, H, C in its upper nibble.
pub struct Registers {
    /// Accumulator.
    pub a: u8,
    /// Flags: bit 7 Z, bit 6 N, bit 5 H, bit 4 C; bits 0-3 are zero.
    pub f: u8,
    pub b: u8,
    pub c: u8,
    pub d: u8,
    pub e: u8,
    pub h: u8,
    pub l: u8,
    /// Program counter.
    pub pc: u16,
    /// Stack pointer.
    pub sp: u16,
}

impl Registers {
    /// The register state the boot ROM leaves behind.
    pub open spec fn boot_state() -> Registers {
        Registers {
            a: 0x01,
            f: 0xB0,
            b: 0x00,
            c: 0x13,
            d: 0x00,
            e: 0xD8,
            h: 0x01,
            l: 0x4D,
            pc: 0x0100,
            sp: 0xFFFE,
        }
    }

    pub open spec fn spec_af(&self) -> u16 {
        pair(self.a, self.f)
    }

    pub open spec fn spec_bc(&self) -> u16 {
        pair(self.b, self.c)
    }

    pub open spec fn spec_de(&self) -> u16 {
        pair(self.d, self.e)
    }

    pub open spec fn spec_hl(&self) -> u16 {
        pair(self.h, self.l)
    }

    pub open spec fn spec_flag_z(&self) -> bool {
        self.f & FLAG_ZERO != 0
    }

    pub open spec fn spec_flag_n(&self) -> bool {
        self.f & FLAG_SUBTRACT != 0
    }

    pub open spec fn spec_flag_h(&self) -> bool {
        self.f & FLAG_HALF_CARRY != 0
    }

    pub open spec fn spec_flag_c(&self) -> bool {
        self.f & FLAG_CARRY != 0
    }

    /// Registers in the post-boot state.
    pub fn new() -> (r: Self)
        ensures
            r == Registers::boot_state(),
    {
        Registers {
            a: 0x01,
            f: 0xB0,
            b: 0x00,
            c: 0x13,
            d: 0x00,
            e: 0xD8,
            h: 0x01,
            l: 0x4D,
            pc: 0x0100,
            sp: 0xFFFE,
        }
    }

    /// AF: A in the high byte, F in the low byte.
    #[verifier::when_used_as_spec(spec_af)]
    pub fn af(&self) -> (r: u16)
        ensures
            r == self.spec_af(),
    {
        proof {
            lemma_bytes(0, self.a, self.f);
        }
        (self.a as u16) << 8 | (self.f as u16)
    }

    /// Sets AF; the low nibble of F is always cleared.
    pub fn set_af(&mut self, value: u16)
        ensures
            *final(self) == (Registers {
                a: hi_byte(value),
                f: (lo_byte(value) / 16 * 16) as u8,
                ..*old(self)
            }),
            final(self).f & 0x0F == 0,
    {
        proof {
            lemma_bytes(value, 0, 0);
            let lo = lo_byte(value);
            assert((lo / 16 * 16) as u8 & 0x0F == 0) by (bit_vector);
        }
        self.a = (value >> 8) as u8;
        self.f = (value & 0xF0) as u8;
    }

    /// BC: B in the high byte, C in the low byte.
    #[verifier::when_used_as_spec(spec_bc)]
    pub fn bc(&self) -> (r: u16)
        ensures
            r == self.spec_bc(),
    {
        proof {
            lemma_bytes(0, self.b, self.c);
        }
        (self.b as u16) << 8 | (self.c as u16)
    }

    pub fn set_bc(&mut self, value: u16)
        ensures
            *final(self) == (Registers { b: hi_byte(value), c: lo_byte(value), ..*old(self) }),
    {
        proof {
            lemma_bytes(value, 0, 0);
        }
        self.b = (value >> 8) as u8;
        self.c = (value & 0xFF) as u8;
    }

    /// DE: D in the high byte, E in the low byte.
    #[verifier::when_used_as_spec(spec_de)]
    pub fn de(&self) -> (r: u16)
        ensures
            r == self.spec_de(),
    {
        proof {
            lemma_bytes(0, self.d, self.e);
        }
        (self.d as u16) << 8 | (self.e as u16)
    }

    pub fn set_de(&mut self, value: u16)
        ensures
            *final(self) == (Registers { d: hi_byte(value), e: lo_byte(value), ..*old(self) }),
    {
        proof {
            lemma_bytes(value, 0, 0);
        }
        self.d = (value >> 8) as u8;
        self.e = (value & 0xFF) as u8;
    }

    /// HL: H in the high byte, L in the low byte.
    #[verifier::when_used_as_spec(spec_hl)]
    pub fn hl(&self) -> (r: u16)
        ensures
            r == self.spec_hl(),
    {
        proof {
            lemma_bytes(0, self.h, self.l);
        }
        (self.h as u16) << 8 | (self.l as u16)
    }

    pub fn set_hl(&mut self, value: u16)
        ensures
            *final(self) == (Registers { h: hi_byte(value), l: lo_byte(value), ..*old(self) }),
    {
        proof {
            lemma_bytes(value, 0, 0);
        }
        self.h = (value >> 8) as u8;
        self.l = (value & 0xFF) as u8;
    }

    #[verifier::when_used_as_spec(spec_flag_z)]
    pub fn flag_z(&self) -> (r: bool)
        ensures
            r == self.spec_flag_z(),
    {
        self.f & FLAG_ZERO != 0
    }

    pub fn set_flag_z(&mut self, value: bool)
        ensures
            *final(self) == (Registers {
                f: if value { old(self).f | FLAG_ZERO } else { old(self).f & !FLAG_ZERO },
                ..*old(self)
            }),
    {
        if value {
            self.f = self.f | FLAG_ZERO;
        } else {
            self.f = self.f & !FLAG_ZERO;
        }
    }

    #[verifier::when_used_as_spec(spec_flag_n)]
    pub fn flag_n(&self) -> (r: bool)
        ensures
            r == self.spec_flag_n(),
    {
        self.f & FLAG_SUBTRACT != 0
    }

    pub fn set_flag_n(&mut self, value: bool)
        ensures
            *final(self) == (Registers {
                f: if value { old(self).f | FLAG_SUBTRACT } else { old(self).f & !FLAG_SUBTRACT },
                ..*old(self)
            }),
    {
        if value {
            self.f = self.f | FLAG_SUBTRACT;
        } else {
            self.f = self.f & !FLAG_SUBTRACT;
        }
    }

    #[verifier::when_used_as_spec(spec_flag_h)]
    pub fn flag_h(&self) -> (r: bool)
        ensures
            r == self.spec_flag_h(),
    {
        self.f & FLAG_HALF_CARRY != 0
    }

    pub fn set_flag_h(&mut self, value: bool)
        ensures
            *final(self) == (Registers {
                f: if value {
                    old(self).f | FLAG_HALF_CARRY
                } else {
                    old(self).f & !FLAG_HALF_CARRY
                },
                ..*old(self)
            }),
    {
        if value {
            self.f = self.f | FLAG_HALF_CARRY;
        } else {
            self.f = self.f & !FLAG_HALF_CARRY;
        }
    }

    #[verifier::when_used_as_spec(spec_flag_c)]
    pub fn flag_c(&self) -> (r: bool)
        ensures
            r == self.spec_flag_c(),
    {
        self.f & FLAG_CARRY != 0
    }

    pub fn set_flag_c(&mut self, value: bool)
        ensures
            *final(self) == (Registers {
                f: if value { old(self).f | FLAG_CARRY } else { old(self).f & !FLAG_CARRY },
                ..*old(self)
            }),
    {
        if value {
            self.f = self.f | FLAG_CARRY;
        } else {
            self.f = self.f & !FLAG_CARRY;
        }
    }
}

impl Default for Registers {
    fn default() -> (r: Self)
        ensures
            r == Registers::boot_state(),
    {
        Registers::new()
    }
}

} // verus!
