//! The whole machine and its outer step: interrupts, one instruction, then the
//! timer, OAM DMA and the PPU advanced by the cycles that took.

use vstd::prelude::*;
use crate::cpu::{Cpu, CpuError};
use crate::cpu::registers::Registers;
use crate::interrupts::{handle_interrupts, service};
use crate::mmu::{MemModel, Mmu};
use crate::ppu::{Ppu, PpuModel};
use crate::timer::Timer;

verus! {

/// The processor, the memory, the PPU and the timer of one console.
pub struct GameBoy {
    pub cpu: Cpu,
    pub mmu: Mmu,
    pub ppu: Ppu,
    pub timer: Timer,
}

impl GameBoy {
    pub open spec fn wf(&self) -> bool {
        self.mmu.wf() && self.ppu.wf() && self.timer.wf()
    }

    /// A console with a cartridge image inserted, in the post-boot state.
    pub fn new(rom: Vec<u8>) -> (r: Self)
        ensures
            r.wf(),
            r.cpu.registers == Registers::boot_state(),
            !r.cpu.ime && !r.cpu.halted,
            r.mmu@ == MemModel::power_on(rom@),
            r.ppu@ == PpuModel::power_on(),
            r.timer.div_cycles() == 0 && r.timer.tima_cycles() == 0,
    {
        GameBoy { cpu: Cpu::new(), mmu: Mmu::new(rom), ppu: Ppu::new(), timer: Timer::new() }
    }

    /// One outer step: the interrupt controller runs, the processor executes
    /// one instruction, and the timer, OAM DMA (one byte per M-cycle) and the
    /// PPU (four dots per M-cycle) advance by the M-cycles both took. Returns
    /// whether the PPU completed a frame, or the processor's error, in which
    /// case nothing after the processor ran.
    pub fn step(&mut self) -> (r: Result<bool, CpuError>)
        requires
            old(self).wf(),
        ensures
            final(self).wf(),
            ({
                let (c0, m0, k) = service(old(self).cpu, old(self).mmu@);
                &&& (r is Err) <==> (!c0.halted && crate::cpu::is_illegal(
                    m0.read(c0.registers.pc),
                ))
                &&& r matches Err(e) ==> Cpu::tick_effect(
                    c0,
                    m0,
                    final(self).cpu,
                    final(self).mmu@,
                    Err(e),
                ) && final(self).ppu@ == old(self).ppu@ && final(self).timer == old(self).timer
                &&& r matches Ok(frame) ==> exists|n: u8, m1: MemModel, m2: MemModel|
                    #![trigger Timer::tick_effect(old(self).timer, m1, (k + n) as u8, final(self).timer, m2)]
                    {
                        let total = (k + n) as u8;
                        let run = old(self).ppu@.run(m2.dma_steps(total as nat), 4 * total as nat);
                        &&& Cpu::tick_effect(c0, m0, final(self).cpu, m1, Ok(n))
                        &&& Timer::tick_effect(old(self).timer, m1, total, final(self).timer, m2)
                        &&& final(self).ppu@ == run.0 && final(self).mmu@ == run.1
                        &&& frame == (run.2 > 0)
                    }
            }),
    {
        let int_cycles = handle_interrupts(&mut self.cpu, &mut self.mmu);
        let ghost c0 = self.cpu;
        let ghost m0 = self.mmu@;
        let cycles = match self.cpu.tick(&mut self.mmu) {
            Ok(n) => n,
            Err(e) => {
                return Err(e);
            },
        };
        let ghost m1 = self.mmu@;
        let ghost c1 = self.cpu;
        let total = int_cycles + cycles;
        self.timer.tick(total, &mut self.mmu);
        let ghost m2 = self.mmu@;
        let ghost t1 = self.timer;
        let mut i: u8 = 0;
        while i < total
            invariant
                self.mmu.wf(),
                i <= total,
                self.cpu == c1 && self.timer == t1 && self.ppu.wf() && self.ppu@ == old(self).ppu@,
                self.mmu@ == m2.dma_steps(i as nat),
            decreases total - i,
        {
            self.mmu.tick_dma();
            i = i + 1;
        }
        let ghost p0 = self.ppu@;
        let ghost m3 = self.mmu@;
        let dots: u16 = total as u16 * 4;
        let mut j: u16 = 0;
        let mut frame = false;
        while j < dots
            invariant
                self.mmu.wf(),
                self.ppu.wf(),
                j <= dots,
                self.cpu == c1 && self.timer == t1,
                ({
                    let run = p0.run(m3, j as nat);
                    self.ppu@ == run.0 && self.mmu@ == run.1 && frame == (run.2 > 0)
                }),
            decreases dots - j,
        {
            proof {
                lemma_run_last(p0, m3, j as nat);
            }
            let ready = self.ppu.tick(&mut self.mmu);
            frame = frame || ready;
            j = j + 1;
        }
        assert(Cpu::tick_effect(c0, m0, self.cpu, m1, Ok(cycles)));
        assert(Timer::tick_effect(old(self).timer, m1, total, self.timer, m2));
        assert(int_cycles == service(old(self).cpu, old(self).mmu@).2);
        assert(m3 == m2.dma_steps(total as nat));
        assert(p0 == old(self).ppu@);
        assert({
            let run = old(self).ppu@.run(m2.dma_steps(total as nat), 4 * total as nat);
            &&& Cpu::tick_effect(c0, m0, self.cpu, m1, Ok(cycles))
            &&& Timer::tick_effect(old(self).timer, m1, total, self.timer, m2)
            &&& self.ppu@ == run.0 && self.mmu@ == run.1
            &&& frame == (run.2 > 0)
        });
        Ok(frame)
    }
}

/// Running one dot more is running the dots so far, then one tick.
proof fn lemma_run_last(p: PpuModel, m: MemModel, n: nat)
    ensures
        ({
            let a = p.run(m, n);
            let t = a.0.tick(a.1);
            p.run(m, n + 1) == (t.0, t.1, a.2 + if t.2 { 1nat } else { 0nat })
        }),
    decreases n,
{
    let t0 = p.tick(m);
    if n == 0 {
        assert(t0.0.run(t0.1, 0) == (t0.0, t0.1, 0nat));
    } else {
        lemma_run_last(t0.0, t0.1, (n - 1) as nat);
        assert(p.run(m, n + 1) == {
            let rest = t0.0.run(t0.1, n);
            (rest.0, rest.1, rest.2 + if t0.2 { 1nat } else { 0nat })
        });
    }
}

} // verus!
