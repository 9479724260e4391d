//! The interrupt controller: requests set bits of IF; between instructions the
//! highest-priority enabled request is serviced.

use vstd::prelude::*;
use crate::cpu::registers::Registers;
use crate::cpu::Cpu;
use crate::mmu::{add16, MemModel, Mmu};

verus! {

/// Bit 0 of IE/IF: VBlank.
pub const INT_VBLANK: u8 = 0x01;

/// Bit 1 of IE/IF: LCD STAT.
pub const INT_LCD_STAT: u8 = 0x02;

/// Bit 2 of IE/IF: timer.
pub const INT_TIMER: u8 = 0x04;

/// Bit 3 of IE/IF: serial.
pub const INT_SERIAL: u8 = 0x08;

/// Bit 4 of IE/IF: joypad.
pub const INT_JOYPAD: u8 = 0x10;

/// M-cycles taken by servicing an interrupt (20 clock cycles).
pub const INTERRUPT_M_CYCLES: u8 = 5;

/// The interrupts that are both enabled (IE) and requested (IF).
pub open spec fn pending(m: MemModel) -> u8 {
    m.read(0xFFFF) & m.read(0xFF0F) & 0x1F
}

/// The bit of the highest-priority interrupt in a nonzero set (lowest bit first).
pub open spec fn priority_bit(t: u8) -> u8 {
    if t & INT_VBLANK != 0 {
        INT_VBLANK
    } else if t & INT_LCD_STAT != 0 {
        INT_LCD_STAT
    } else if t & INT_TIMER != 0 {
        INT_TIMER
    } else if t & INT_SERIAL != 0 {
        INT_SERIAL
    } else {
        INT_JOYPAD
    }
}

/// The handler address of an interrupt bit.
pub open spec fn vector(bit: u8) -> u16 {
    if bit == INT_VBLANK {
        0x40
    } else if bit == INT_LCD_STAT {
        0x48
    } else if bit == INT_TIMER {
        0x50
    } else if bit == INT_SERIAL {
        0x58
    } else {
        0x60
    }
}

/// What the interrupt controller does between instructions: the processor,
/// the memory and the M-cycles taken afterwards.
pub open spec fn service(c: Cpu, m: MemModel) -> (Cpu, MemModel, u8) {
    let t = pending(m);
    let c0 = Cpu { halted: c.halted && t == 0, ..c };
    if !c.ime || t == 0 {
        (c0, m, 0)
    } else {
        let bit = priority_bit(t);
        let m1 = m.write(0xFF0F, m.read(0xFF0F) & !bit);
        let sp = add16(c.registers.sp, -2);
        (
            Cpu {
                ime: false,
                registers: Registers { sp, pc: vector(bit), ..c.registers },
                ..c0
            },
            m1.write_word(sp, c.registers.pc),
            INTERRUPT_M_CYCLES,
        )
    }
}

/// Between instructions: a pending interrupt ends HALT whatever IME is; with
/// IME set, the highest-priority one is serviced: its IF bit is cleared, IME is
/// cleared, PC is pushed and PC jumps to its vector. Returns the M-cycles
/// taken: 5 when an interrupt was serviced, else 0.
pub fn handle_interrupts(cpu: &mut Cpu, mmu: &mut Mmu) -> (r: u8)
    requires
        old(mmu).wf(),
    ensures
        final(mmu).wf(),
        (*final(cpu), final(mmu)@, r) == service(*old(cpu), old(mmu)@),
{
    let ie = mmu.read_byte(0xFFFF);
    let if_reg = mmu.read_byte(0xFF0F);
    let triggered = ie & if_reg & 0x1F;
    if cpu.halted && triggered != 0 {
        cpu.halted = false;
    }
    if !cpu.ime || triggered == 0 {
        return 0;
    }
    cpu.ime = false;
    let (bit, handler) = if triggered & INT_VBLANK != 0 {
        (INT_VBLANK, 0x40u16)
    } else if triggered & INT_LCD_STAT != 0 {
        (INT_LCD_STAT, 0x48u16)
    } else if triggered & INT_TIMER != 0 {
        (INT_TIMER, 0x50u16)
    } else if triggered & INT_SERIAL != 0 {
        (INT_SERIAL, 0x58u16)
    } else {
        (INT_JOYPAD, 0x60u16)
    };
    mmu.write_byte(0xFF0F, if_reg & !bit);
    cpu.registers.sp = cpu.registers.sp.wrapping_sub(2);
    mmu.write_word(cpu.registers.sp, cpu.registers.pc);
    cpu.registers.pc = handler;
    INTERRUPT_M_CYCLES
}

/// Requests an interrupt: ORs its bit into IF.
pub fn request_interrupt(mmu: &mut Mmu, interrupt: u8)
    requires
        old(mmu).wf(),
    ensures
        final(mmu).wf(),
        final(mmu)@ == old(mmu)@.write(0xFF0F, old(mmu)@.read(0xFF0F) | interrupt),
{
    let if_reg = mmu.read_byte(0xFF0F);
    mmu.write_byte(0xFF0F, if_reg | interrupt);
}

} // verus!
