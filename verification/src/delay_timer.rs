use vstd::prelude::*;

verus! {

/// Length in microseconds of one tick of the 60 Hz timer clock.
pub const TICK_MICROS: u64 = 16667;

/// Number of whole timer ticks that fall in `elapsed_micros` microseconds.
pub fn ticks_due(elapsed_micros: u64) -> (n: u64)
    ensures
        n == elapsed_micros / TICK_MICROS,
        n * TICK_MICROS <= elapsed_micros < (n + 1) * TICK_MICROS,
{
    elapsed_micros / TICK_MICROS
}

/// A countdown register that a 60 Hz clock decrements until it reaches zero.
pub struct DelayTimer {
    pub time: u8,
}

impl View for DelayTimer {
    type V = u8;

    open spec fn view(&self) -> u8 {
        self.time
    }
}

/// The timer value one clock tick after `t`: one less, but never below zero.
pub open spec fn ticked(t: u8) -> u8 {
    if t > 0 {
        (t - 1) as u8
    } else {
        0
    }
}

impl DelayTimer {
    /// A timer at zero.
    pub fn new() -> (t: Self)
        ensures
            t@ == 0,
    {
        Self { time: 0 }
    }

    /// One tick of the 60 Hz clock: counts down by one unless already at zero.
    pub fn tick(&mut self)
        ensures
            final(self)@ == ticked(old(self)@),
    {
        if self.time > 0 {
            self.time = self.time - 1;
        }
    }

    /// Loads the timer with `val`.
    pub fn set(&mut self, val: u8)
        ensures
            final(self)@ == val,
    {
        self.time = val;
    }

    /// The current value of the timer.
    pub fn get(&self) -> (v: u8)
        ensures
            v == self@,
    {
        self.time
    }
}

} // verus!
