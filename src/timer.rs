use vstd::prelude::*;
use crate::clock::{SystemClock, TCycle, phase_of};
use crate::interrupts::{Interrupt, Interrupts};

verus! {

/// The number of T-cycles between a TIMA overflow and its reload.
pub const TIMER_INTERRUPT_DELAY: u8 = 4;

/// The number of T-cycles after a reload during which TIMA is being reloaded.
pub const TIMER_TIMA_RELOAD_CYCLES: u8 = 4;

/// Where the timer stands with respect to an overflow of TIMA.
#[derive(Debug, Clone, Copy, PartialEq, Eq, Structural)]
pub enum TimerInterrupt {
    /// No overflow is in flight.
    Idle,
    /// TIMA overflowed `ticks` T-cycles ago; reload and interrupt come after four.
    Overflowed { ticks: u8 },
    /// TIMA was reloaded `ticks` T-cycles ago; the window lasts four.
    Reloading { ticks: u8 },
}

/// The bit of the internal counter that TAC's clock select watches.
pub open spec fn tac_mask(tac: u8) -> u16 {
    if tac & 0x3 == 0 {
        0x80
    } else if tac & 0x3 == 1 {
        0x02
    } else if tac & 0x3 == 2 {
        0x08
    } else {
        0x20
    }
}

/// Timer enable bit AND the selected counter bit.
pub open spec fn and_result(counter: u16, tac: u8) -> bool {
    tac & 0x04 == 0x04 && counter & tac_mask(tac) == tac_mask(tac)
}

/// A 1 to 0 transition.
pub open spec fn falling_edge(prev: bool, curr: bool) -> bool {
    prev && !curr
}

/// The divider register, timer counter, modulo and control.
#[derive(Debug, Clone, Copy)]
pub struct Timer {
    /// The timer counter register.
    pub tima: u8,
    /// The timer modulo.
    pub tma: u8,
    /// The timer control; only its low three bits are kept.
    pub tac: u8,
    /// The internal 16-bit counter behind DIV.
    pub counter: u16,
    /// The overflow and reload state.
    pub timer_interrupt: TimerInterrupt,
}

impl Timer {
    /// Tick counts stay below four and TAC holds three bits.
    pub open spec fn wf(&self) -> bool {
        &&& self.tac < 8
        &&& match self.timer_interrupt {
            TimerInterrupt::Idle => true,
            TimerInterrupt::Overflowed { ticks } => ticks < 4,
            TimerInterrupt::Reloading { ticks } => ticks < 4,
        }
    }

    /// What a read of DIV, TIMA, TMA or TAC returns.
    pub open spec fn register_read(&self, address: u16) -> u8 {
        if address == 0xFF04 {
            (self.counter >> 6) as u8
        } else if address == 0xFF05 {
            self.tima
        } else if address == 0xFF06 {
            self.tma
        } else {
            self.tac
        }
    }

    /// TIMA after one increment; a wrap to zero starts the overflow delay.
    pub open spec fn incremented(self) -> Timer {
        let v = ((self.tima + 1) % 256) as u8;
        Timer {
            tima: v,
            timer_interrupt: if v == 0 {
                TimerInterrupt::Overflowed { ticks: 0 }
            } else {
                self.timer_interrupt
            },
            ..self
        }
    }

    /// The overflow and reload delays advanced by one T-cycle, and whether
    /// the timer interrupt is requested on it.
    pub open spec fn delays_advanced(self) -> (Timer, bool) {
        match self.timer_interrupt {
            TimerInterrupt::Overflowed { ticks } => if ticks + 1 == 4 {
                (
                    Timer {
                        tima: self.tma,
                        timer_interrupt: TimerInterrupt::Reloading { ticks: 0 },
                        ..self
                    },
                    true,
                )
            } else {
                (
                    Timer {
                        timer_interrupt: TimerInterrupt::Overflowed { ticks: (ticks + 1) as u8 },
                        ..self
                    },
                    false,
                )
            },
            TimerInterrupt::Reloading { ticks } => if ticks + 1 == 4 {
                (Timer { timer_interrupt: TimerInterrupt::Idle, ..self }, false)
            } else {
                (
                    Timer {
                        timer_interrupt: TimerInterrupt::Reloading { ticks: (ticks + 1) as u8 },
                        ..self
                    },
                    false,
                )
            },
            TimerInterrupt::Idle => (self, false),
        }
    }

    /// The counter advanced by one M-cycle, with TIMA incremented exactly on a
    /// falling edge of the AND result.
    pub open spec fn clocked(self) -> Timer {
        let c = ((self.counter + 1) % 0x10000) as u16;
        let t = Timer { counter: c, ..self };
        if falling_edge(and_result(self.counter, self.tac), and_result(c, self.tac)) {
            t.incremented()
        } else {
            t
        }
    }

    /// The timer after one T-cycle of the given phase, and whether it requests
    /// the timer interrupt.
    pub open spec fn stepped(self, phase: TCycle) -> (Timer, bool) {
        let (t, fired) = self.delays_advanced();
        if phase == TCycle::T4 {
            (t.clocked(), fired)
        } else {
            (t, fired)
        }
    }

    /// The timer after a write to one of its four registers.
    pub open spec fn written(self, address: u16, value: u8) -> Timer {
        if address == 0xFF04 {
            let t = Timer { counter: 0, ..self };
            if falling_edge(and_result(self.counter, self.tac), and_result(0, self.tac)) {
                t.incremented()
            } else {
                t
            }
        } else if address == 0xFF05 {
            match self.timer_interrupt {
                TimerInterrupt::Reloading { .. } => self,
                TimerInterrupt::Overflowed { .. } => Timer {
                    tima: value,
                    timer_interrupt: TimerInterrupt::Idle,
                    ..self
                },
                TimerInterrupt::Idle => Timer { tima: value, ..self },
            }
        } else if address == 0xFF06 {
            match self.timer_interrupt {
                TimerInterrupt::Reloading { .. } => Timer { tma: value, tima: value, ..self },
                _ => Timer { tma: value, ..self },
            }
        } else {
            let t = Timer { tac: value & 0x07, ..self };
            if falling_edge(and_result(self.counter, self.tac), and_result(self.counter, value)) {
                t.incremented()
            } else {
                t
            }
        }
    }

    /// Creates the timer in its power-on state.
    pub fn new() -> (r: Self)
        ensures
            r.wf(),
            r.tima == 0,
            r.tma == 0,
            r.tac == 0,
            r.counter == 0xABCC,
            r.timer_interrupt == TimerInterrupt::Idle,
    {
        Timer { tima: 0, tma: 0, tac: 0, counter: 0xABCC, timer_interrupt: TimerInterrupt::Idle }
    }

    /// Steps the timer by a T-cycle; the counter is clocked on T4 only.
    pub fn step(&mut self, interrupts: &mut Interrupts, sys_clock: &SystemClock)
        requires
            old(self).wf(),
            old(interrupts).wf(),
        ensures
            final(self).wf(),
            *final(self) == old(self).stepped(phase_of(sys_clock.0 as nat)).0,
            final(interrupts).wf(),
            final(interrupts).enabled == old(interrupts).enabled,
            final(interrupts).requested == if old(self).stepped(
                phase_of(sys_clock.0 as nat),
            ).1 {
                old(interrupts).requested | Interrupt::Timer.mask()
            } else {
                old(interrupts).requested
            },
    {
        match self.timer_interrupt {
            TimerInterrupt::Overflowed { ticks } => {
                if ticks + 1 == TIMER_INTERRUPT_DELAY {
                    self.tima = self.tma;
                    interrupts.request_interrupt(Interrupt::Timer);
                    self.timer_interrupt = TimerInterrupt::Reloading { ticks: 0 };
                } else {
                    self.timer_interrupt = TimerInterrupt::Overflowed { ticks: ticks + 1 };
                }
            },
            TimerInterrupt::Reloading { ticks } => {
                if ticks + 1 == TIMER_TIMA_RELOAD_CYCLES {
                    self.timer_interrupt = TimerInterrupt::Idle;
                } else {
                    self.timer_interrupt = TimerInterrupt::Reloading { ticks: ticks + 1 };
                }
            },
            TimerInterrupt::Idle => {},
        }
        if sys_clock.t_cycle() == TCycle::T4 {
            let prev_and_result = counter_and_result(self.counter, self.tac);
            self.counter = self.counter.wrapping_add(1);
            let curr_and_result = counter_and_result(self.counter, self.tac);
            if prev_and_result && !curr_and_result {
                self.increment_tima();
            }
        }
    }

    /// Reads DIV, TIMA, TMA or TAC.
    pub fn read_register(&self, address: u16) -> (r: u8)
        requires
            0xFF04 <= address <= 0xFF07,
        ensures
            r == self.register_read(address),
    {
        if address == 0xFF04 {
            self.div_value()
        } else if address == 0xFF05 {
            self.tima
        } else if address == 0xFF06 {
            self.tma
        } else {
            self.tac
        }
    }

    /// Writes DIV (resetting the counter), TIMA, TMA or TAC.
    pub fn write_register(&mut self, address: u16, value: u8)
        requires
            old(self).wf(),
            0xFF04 <= address <= 0xFF07,
        ensures
            final(self).wf(),
            *final(self) == old(self).written(address, value),
    {
        if address == 0xFF04 {
            let prev_and_result = counter_and_result(self.counter, self.tac);
            let curr_and_result = counter_and_result(0, self.tac);
            self.counter = 0;
            if prev_and_result && !curr_and_result {
                self.increment_tima();
            }
        } else if address == 0xFF05 {
            match self.timer_interrupt {
                TimerInterrupt::Reloading { .. } => {},
                TimerInterrupt::Overflowed { .. } => {
                    self.tima = value;
                    self.timer_interrupt = TimerInterrupt::Idle;
                },
                TimerInterrupt::Idle => {
                    self.tima = value;
                },
            }
        } else if address == 0xFF06 {
            self.tma = value;
            if let TimerInterrupt::Reloading { .. } = self.timer_interrupt {
                self.tima = value;
            }
        } else {
            let prev_and_result = counter_and_result(self.counter, self.tac);
            let curr_and_result = counter_and_result(self.counter, value);
            self.tac = value & 0x07;
            assert(value & 0x07 < 8) by (bit_vector);
            if prev_and_result && !curr_and_result {
                self.increment_tima();
            }
        }
    }

    /// Increments TIMA, starting the overflow delay when it wraps.
    pub fn increment_tima(&mut self)
        requires
            old(self).wf(),
        ensures
            final(self).wf(),
            *final(self) == old(self).incremented(),
    {
        self.tima = self.tima.wrapping_add(1);
        if self.tima == 0 {
            self.timer_interrupt = TimerInterrupt::Overflowed { ticks: 0 };
        }
    }

    /// Returns DIV: bits 6 to 13 of the internal counter.
    pub fn div_value(&self) -> (r: u8)
        ensures
            r == (self.counter >> 6) as u8,
    {
        (self.counter >> 6) as u8
    }
}

/// Returns the AND of the timer enable bit and the selected counter bit.
pub fn counter_and_result(counter: u16, tac: u8) -> (r: bool)
    ensures
        r == and_result(counter, tac),
{
    let mask = tac_bit_mask(tac);
    tac & 0x04 == 0x04 && counter & mask == mask
}

/// Returns the counter bit that TAC's clock select watches.
pub fn tac_bit_mask(tac: u8) -> (r: u16)
    ensures
        r == tac_mask(tac),
{
    let sel = tac & 0x3;
    if sel == 0 {
        0x80
    } else if sel == 1 {
        0x02
    } else if sel == 2 {
        0x08
    } else {
        0x20
    }
}

/// Outside an overflow delay, one T-cycle changes TIMA only on T4, and there it
/// increments TIMA (by one, wrapping) exactly when the AND of the enable bit and
/// the selected counter bit falls from 1 to 0.
pub proof fn lemma_tima_counts_falling_edges(t: Timer, phase: TCycle)
    requires
        t.wf(),
        !(t.timer_interrupt is Overflowed),
    ensures
        ({
            let n = t.stepped(phase).0;
            let edge = phase == TCycle::T4 && falling_edge(
                and_result(t.counter, t.tac),
                and_result(n.counter, t.tac),
            );
            &&& n.tac == t.tac
            &&& edge ==> n.tima == (t.tima + 1) % 256
            &&& !edge ==> n.tima == t.tima
        }),
{
}

/// A write to DIV clears the whole internal counter and increments TIMA at
/// most once: exactly when clearing makes the AND result fall.
pub proof fn lemma_div_write_resets_counter(t: Timer, value: u8)
    requires
        t.wf(),
    ensures
        ({
            let n = t.written(0xFF04, value);
            let edge = falling_edge(and_result(t.counter, t.tac), and_result(0, t.tac));
            &&& n.counter == 0
            &&& edge ==> n.tima == (t.tima + 1) % 256
            &&& !edge ==> n.tima == t.tima
        }),
{
}

/// The reload window: a TIMA write while TIMA is being reloaded is ignored and a
/// TMA write then also sets TIMA; a TIMA write in the cycle of the overflow
/// cancels both the reload and the interrupt. The window lasts four T-cycles
/// (a TIMA increment inside it may start a new overflow of its own).
pub proof fn lemma_reload_window(t: Timer, value: u8, phase: TCycle)
    requires
        t.wf(),
    ensures
        t.timer_interrupt is Reloading ==> t.written(0xFF05, value) == t,
        t.timer_interrupt is Reloading ==> t.written(0xFF06, value).tima == value,
        t.timer_interrupt is Overflowed ==> ({
            let n = t.written(0xFF05, value);
            &&& n.tima == value
            &&& n.timer_interrupt == TimerInterrupt::Idle
            &&& !n.stepped(phase).1
        }),
        t.timer_interrupt == (TimerInterrupt::Reloading { ticks: 3 })
            ==> t.delays_advanced().0.timer_interrupt == TimerInterrupt::Idle,
        t.timer_interrupt is Reloading && t.timer_interrupt->Reloading_ticks < 3
            ==> t.delays_advanced().0.timer_interrupt == (TimerInterrupt::Reloading {
            ticks: (t.timer_interrupt->Reloading_ticks + 1) as u8,
        }),
{
}

} // verus!
