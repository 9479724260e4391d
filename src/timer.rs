//! The timer: DIV counts every 64 M-cycles; TIMA counts at the rate TAC selects
//! and, on overflow, is reloaded from TMA and raises the timer interrupt.

use vstd::prelude::*;
use crate::interrupts::{request_interrupt, INT_TIMER};
use crate::mmu::{lemma_write_wf, MemModel, Mmu};

verus! {

/// M-cycles per DIV step.
pub const DIV_PERIOD: u16 = 64;

/// M-cycles per TIMA step for the rate in TAC bits 1-0.
pub open spec fn tima_period(tac: u8) -> u16 {
    let s = tac & 0x03;
    if s == 0 {
        256
    } else if s == 1 {
        4
    } else if s == 2 {
        16
    } else {
        64
    }
}

/// One TIMA step: increment, or on overflow reload from TMA and request the timer interrupt.
pub open spec fn tima_step(m: MemModel) -> MemModel {
    let tima = m.read(0xFF05);
    if tima == 0xFF {
        let m1 = m.write(0xFF05, m.read(0xFF06));
        m1.write(0xFF0F, m1.read(0xFF0F) | INT_TIMER)
    } else {
        m.write(0xFF05, (tima + 1) as u8)
    }
}

/// TIMA steps while `t` M-cycles cover a whole period `p`: the memory after
/// them and the M-cycles left over.
pub open spec fn tima_run(m: MemModel, t: int, p: int) -> (MemModel, int)
    decreases t,
{
    if p > 0 && t >= p {
        tima_run(tima_step(m), t - p, p)
    } else {
        (m, t)
    }
}

/// DIV steps while `d` M-cycles cover a whole DIV period: the memory after
/// them and the M-cycles left over.
pub open spec fn div_run(m: MemModel, d: int) -> (MemModel, int)
    decreases d,
{
    if d >= 64 {
        div_run(m.div_incremented(), d - 64)
    } else {
        (m, d)
    }
}

/// `j` TIMA periods of 4 M-cycles from TIMA = v, with v + j <= 0x100: TIMA
/// counts up to v + j, and at 0x100 it is reloaded from TMA with the timer
/// interrupt requested.
proof fn lemma_tima_periods(m: MemModel, j: nat)
    requires
        m.wf(),
        m.read(0xFF05) as int + j <= 256,
    ensures
        ({
            let (m2, t) = tima_run(m, 4 * j as int, 4);
            &&& m2.wf() && t == 0
            &&& m2.read(0xFF06) == m.read(0xFF06)
            &&& m.read(0xFF05) as int + j < 256 ==> m2.read(0xFF05) == m.read(0xFF05) as int + j
            &&& m.read(0xFF05) as int + j == 256 ==> m2.read(0xFF05) == m.read(0xFF06) && m2.read(
                0xFF0F,
            ) & INT_TIMER != 0
        }),
    decreases j,
{
    if j > 0 {
        let tima = m.read(0xFF05);
        let m1 = tima_step(m);
        if tima == 0xFF {
            let ma = m.write(0xFF05, m.read(0xFF06));
            lemma_write_wf(m, 0xFF05, m.read(0xFF06));
            lemma_write_wf(ma, 0xFF0F, ma.read(0xFF0F) | INT_TIMER);
            let x = ma.read(0xFF0F);
            assert((x | 4) & 4 != 0) by (bit_vector);
            assert(tima_run(m, 4 * j as int, 4) == tima_run(m1, 4 * j as int - 4, 4));
        } else {
            lemma_write_wf(m, 0xFF05, (tima + 1) as u8);
            lemma_tima_periods(m1, (j - 1) as nat);
            assert(tima_run(m, 4 * j as int, 4) == tima_run(m1, 4 * (j - 1), 4));
        }
    }
}

/// With TAC = 0x05 (enabled, 4 M-cycles per step): fewer than 4 M-cycles step
/// nothing, 4 M-cycles step TIMA once, and from TIMA = TMA, 4 * (0x100 - TMA)
/// M-cycles bring TIMA back to TMA with IF bit 2 set.
pub proof fn lemma_tima_at_262144_hz(m: MemModel, t: int)
    requires
        m.wf(),
        0 <= t < 4,
        m.read(0xFF05) == m.read(0xFF06),
    ensures
        tima_period(0x05) == 4,
        tima_run(m, t, 4) == (m, t),
        tima_run(m, 4, 4) == (tima_step(m), 0int),
        ({
            let (m2, r) = tima_run(m, 4 * (256 - m.read(0xFF06)), 4);
            &&& r == 0
            &&& m2.read(0xFF05) == m.read(0xFF06)
            &&& m2.read(0xFF0F) & INT_TIMER != 0
        }),
{
    assert(0x05u8 & 0x03 == 1) by (bit_vector);
    assert(tima_run(tima_step(m), 0, 4) == (tima_step(m), 0int));
    lemma_tima_periods(m, (256 - m.read(0xFF06)) as nat);
}

/// The timer's sub-counters: M-cycles towards the next DIV and TIMA steps.
pub struct Timer {
    div_counter: u16,
    tima_counter: u16,
}

impl Timer {
    /// M-cycles counted towards the next DIV step.
    pub closed spec fn div_cycles(&self) -> u16 {
        self.div_counter
    }

    /// M-cycles counted towards the next TIMA step.
    pub closed spec fn tima_cycles(&self) -> u16 {
        self.tima_counter
    }

    pub open spec fn wf(&self) -> bool {
        self.div_cycles() < 64 && self.tima_cycles() < 256
    }

    /// What `tick` does to the timer and memory for `cycles` M-cycles.
    pub open spec fn tick_effect(t: Timer, m: MemModel, cycles: u8, t2: Timer, m2: MemModel) -> bool {
        let (m1, d) = div_run(m, t.div_cycles() + cycles);
        let tac = m1.read(0xFF07);
        &&& t2.div_cycles() == d
        &&& if tac & 0x04 == 0 {
            m2 == m1 && t2.tima_cycles() == 0
        } else {
            let (m3, r) = tima_run(m1, t.tima_cycles() + cycles, tima_period(tac) as int);
            m2 == m3 && t2.tima_cycles() == r
        }
    }

    /// A timer with both counters at zero.
    pub fn new() -> (r: Self)
        ensures
            r.wf(),
            r.div_cycles() == 0,
            r.tima_cycles() == 0,
    {
        Timer { div_counter: 0, tima_counter: 0 }
    }

    /// Advances the timer by `cycles` M-cycles. DIV steps once per 64 M-cycles.
    /// When TAC bit 2 is set TIMA steps once per period; when it is clear the
    /// TIMA counter is reset.
    pub fn tick(&mut self, cycles: u8, mmu: &mut Mmu)
        requires
            old(self).wf(),
            old(mmu).wf(),
        ensures
            final(self).wf(),
            final(mmu).wf(),
            Timer::tick_effect(*old(self), old(mmu)@, cycles, *final(self), final(mmu)@),
    {
        self.div_counter = self.div_counter + cycles as u16;
        while self.div_counter >= DIV_PERIOD
            invariant
                mmu.wf(),
                self.div_counter < 64 + 256,
                self.tima_counter == old(self).tima_counter,
                div_run(mmu@, self.div_counter as int) == div_run(
                    old(mmu)@,
                    old(self).div_cycles() + cycles,
                ),
            decreases self.div_counter,
        {
            self.div_counter = self.div_counter - DIV_PERIOD;
            mmu.increment_div();
        }
        assert(div_run(mmu@, self.div_counter as int) == (mmu@, self.div_counter as int));
        let tac = mmu.read_byte(0xFF07);
        if tac & 0x04 == 0 {
            self.tima_counter = 0;
            return;
        }
        let s = tac & 0x03;
        let period: u16 = if s == 0 {
            256
        } else if s == 1 {
            4
        } else if s == 2 {
            16
        } else {
            64
        };
        let ghost m1 = mmu@;
        self.tima_counter = self.tima_counter + cycles as u16;
        while self.tima_counter >= period
            invariant
                mmu.wf(),
                period == tima_period(tac),
                period > 0,
                self.tima_counter < 256 + 256,
                self.div_counter < 64,
                self.div_counter == div_run(old(mmu)@, old(self).div_cycles() + cycles).1,
                tima_run(mmu@, self.tima_counter as int, period as int) == tima_run(
                    m1,
                    old(self).tima_cycles() + cycles,
                    period as int,
                ),
            decreases self.tima_counter,
        {
            self.tima_counter = self.tima_counter - period;
            let tima = mmu.read_byte(0xFF05);
            if tima == 0xFF {
                let tma = mmu.read_byte(0xFF06);
                mmu.write_byte(0xFF05, tma);
                request_interrupt(mmu, INT_TIMER);
            } else {
                mmu.write_byte(0xFF05, tima + 1);
            }
        }
        assert(tima_run(mmu@, self.tima_counter as int, period as int) == (
            mmu@,
            self.tima_counter as int,
        ));
    }
}

impl Default for Timer {
    fn default() -> (r: Self)
        ensures
            r.wf(),
            r.div_cycles() == 0,
            r.tima_cycles() == 0,
    {
        Timer::new()
    }
}

} // verus!
