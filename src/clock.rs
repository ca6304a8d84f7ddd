use vstd::prelude::*;

verus! {

/// One of the four T-cycles of an M-cycle.
#[derive(Debug, Clone, Copy, PartialEq, Eq, Structural)]
pub enum TCycle {
    T1,
    T2,
    T3,
    T4,
}

/// The phase of a tick count: a count divisible by four ends an M-cycle.
pub open spec fn phase_of(ticks: nat) -> TCycle {
    if ticks % 4 == 1 {
        TCycle::T1
    } else if ticks % 4 == 2 {
        TCycle::T2
    } else if ticks % 4 == 3 {
        TCycle::T3
    } else {
        TCycle::T4
    }
}

/// The rolling T-cycle counter of the whole system.
#[derive(Debug, Clone, Copy)]
pub struct SystemClock(pub usize);

impl SystemClock {
    /// Creates a clock at tick zero, the end of an M-cycle.
    pub fn new() -> (r: Self)
        ensures
            r.0 == 0,
    {
        SystemClock(0)
    }

    /// Returns the current T-cycle.
    pub fn t_cycle(&self) -> (r: TCycle)
        ensures
            r == phase_of(self.0 as nat),
    {
        let m: usize = self.0 % 4;
        if m == 0 {
            TCycle::T4
        } else if m == 1 {
            TCycle::T1
        } else if m == 2 {
            TCycle::T2
        } else {
            TCycle::T3
        }
    }

    /// Advances the clock by one T-cycle, wrapping at the top of the counter.
    pub fn increment_clock(&mut self)
        ensures
            final(self).0 == if old(self).0 == usize::MAX {
                0
            } else {
                (old(self).0 + 1) as usize
            },
    {
        if self.0 == usize::MAX {
            self.0 = 0;
        } else {
            self.0 = self.0 + 1;
        }
    }
}

} // verus!
