//! Core of an emulator for the first Game Boy model (DMG): the LR35902 CPU
//! interpreter, the memory map with MBC1 banking and OAM DMA, the scanline
//! PPU, the timer and the interrupt controller.

pub mod cartridge;
pub mod cpu;
pub mod gameboy;
pub mod input;
pub mod interrupts;
pub mod mmu;
pub mod ppu;
pub mod timer;
