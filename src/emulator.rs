use vstd::prelude::*;
use crate::cpu::Cpu;
use crate::hardware::Hardware;

verus! {

/// T-cycles in one video frame.
pub const CYCLES_PER_FRAME: usize = 70224;

/// The tick count after `n` more ticks, wrapping.
pub open spec fn ticks_after(start: usize, n: nat) -> usize {
    ((start + n) % (usize::MAX as int + 1)) as usize
}

/// Counting ticks with wraparound: zero ticks keep the count, one tick
/// wraps at the top, and ticks add up.
pub proof fn lemma_ticks(start: usize, n: nat)
    ensures
        ticks_after(start, 0) == start,
        ticks_after(start, 1) == if start == usize::MAX { 0 } else { (start + 1) as usize },
        ticks_after(ticks_after(start, n), 1) == ticks_after(start, n + 1),
{
    let m = usize::MAX as int + 1;
    vstd::arithmetic::div_mod::lemma_small_mod(start as nat, m as nat);
    vstd::arithmetic::div_mod::lemma_small_mod(1, m as nat);
    if start < usize::MAX {
        vstd::arithmetic::div_mod::lemma_small_mod((start + 1) as nat, m as nat);
    } else {
        vstd::arithmetic::div_mod::lemma_mod_self_0(m);
    }
    vstd::arithmetic::div_mod::lemma_add_mod_noop(start + n, 1, m);
}

/// One tick in its stages: the clock advances; on T3 the timer steps and then
/// the CPU, on other phases the CPU and then the timer; then the PPU, the APU
/// and DMA.
pub open spec fn tick_chain(
    old: &Emulator,
    h1: Hardware,
    h2: Hardware,
    c: Cpu,
    h3: Hardware,
    h4: Hardware,
    h5: Hardware,
    new: &Emulator,
) -> bool {
    &&& h1.clock_stepped_from(&old.hardware)
    &&& if h1.sys_clock.0 % 4 == 3 {
        h2.timer_stepped_from(&h1) && c.step_effect(&old.cpu, &h3, &h2)
    } else {
        c.step_effect(&old.cpu, &h2, &h1) && h3.timer_stepped_from(&h2)
    }
    &&& h4.ppu_stepped_from(&h3)
    &&& h5.apu_stepped_from(&h4)
    &&& new.hardware.dma_stepped_from(&h5)
    &&& new.cpu == c
}

/// `trace` is a run of `n` ticks, each state one `step_tick` after the one before.
pub open spec fn is_run(trace: Seq<Emulator>, n: nat) -> bool {
    &&& trace.len() == n + 1
    &&& forall|i: int| 0 <= i < n ==> #[trigger] ticked_at(trace, i)
}

/// State `i + 1` of a trace follows state `i` by one tick.
pub open spec fn ticked_at(trace: Seq<Emulator>, i: int) -> bool {
    trace[i + 1].tick_from(&trace[i])
}

/// The console: CPU and hardware, stepped together.
#[derive(Debug)]
pub struct Emulator {
    pub cpu: Cpu,
    pub hardware: Hardware,
}

impl Emulator {
    /// `self` follows `old` by one tick.
    pub open spec fn tick_from(&self, old: &Emulator) -> bool {
        exists|h1: Hardware, h2: Hardware, c: Cpu, h3: Hardware, h4: Hardware, h5: Hardware|
            #[trigger] tick_chain(old, h1, h2, c, h3, h4, h5, self)
    }

    /// `self` follows `old` by one frame: a run of 70 224 ticks.
    pub open spec fn frame_from(&self, old: &Emulator) -> bool {
        exists|trace: Seq<Emulator>| #[trigger] is_run(trace, 70224) && trace[0] == *old && trace.last() == *self
    }

    /// Puts a CPU and hardware together.
    pub fn new(cpu: Cpu, hardware: Hardware) -> (r: Self)
        ensures
            r.cpu == cpu,
            r.hardware == hardware,
    {
        Emulator { cpu, hardware }
    }

    /// Advances one T-cycle: the clock first, then CPU, timer, PPU, APU and
    /// DMA; on T3 the timer steps before the CPU.
    pub fn step_tick(&mut self)
        requires
            old(self).hardware.wf(),
        ensures
            final(self).hardware.wf(),
            final(self).hardware.sys_clock.0 == ticks_after(old(self).hardware.sys_clock.0, 1),
            final(self).tick_from(&*old(self)),
    {
        proof {
            lemma_ticks(self.hardware.sys_clock.0, 0);
        }
        let ghost e0 = *self;
        self.hardware.step_sys_clock();
        let ghost h1 = self.hardware;
        let ghost h2;
        if self.hardware.sys_clock.0 % 4 == 3 {
            self.hardware.step_timer();
            proof { h2 = self.hardware; }
            self.cpu.step(&mut self.hardware);
        } else {
            self.cpu.step(&mut self.hardware);
            proof { h2 = self.hardware; }
            self.hardware.step_timer();
        }
        let ghost c = self.cpu;
        let ghost h3 = self.hardware;
        self.hardware.step_ppu();
        let ghost h4 = self.hardware;
        self.hardware.step_apu();
        let ghost h5 = self.hardware;
        self.hardware.step_dma_transfer();
        assert(tick_chain(&e0, h1, h2, c, h3, h4, h5, self));
    }

    /// Runs one video frame: 17 556 M-cycles of four T-cycles each, 70 224 T-cycles.
    pub fn step(&mut self)
        requires
            old(self).hardware.wf(),
        ensures
            final(self).hardware.wf(),
            final(self).hardware.sys_clock.0 == ticks_after(old(self).hardware.sys_clock.0, 70224),
            final(self).frame_from(&*old(self)),
    {
        let ghost start = self.hardware.sys_clock.0;
        let ghost mut trace: Seq<Emulator> = seq![*self];
        proof {
            lemma_ticks(start, 0);
        }
        let mut i: usize = 0;
        while i < CYCLES_PER_FRAME
            invariant
                i <= CYCLES_PER_FRAME,
                self.hardware.wf(),
                self.hardware.sys_clock.0 == ticks_after(start, i as nat),
                is_run(trace, i as nat),
                trace[0] == *old(self),
                trace.last() == *self,
            decreases CYCLES_PER_FRAME - i,
        {
            proof {
                lemma_ticks(start, i as nat);
            }
            let ghost before = *self;
            self.step_tick();
            proof {
                let prev = trace;
                trace = trace.push(*self);
                assert forall|k: int| 0 <= k < i + 1 implies #[trigger] ticked_at(trace, k) by {
                    if k < i {
                        assert(ticked_at(prev, k));
                        assert(trace[k] == prev[k]);
                        assert(trace[k + 1] == prev[k + 1]);
                    } else {
                        assert(trace[k] == before);
                    }
                }
            }
            i = i + 1;
        }
        assert(is_run(trace, 70224));
    }
}

} // verus!
