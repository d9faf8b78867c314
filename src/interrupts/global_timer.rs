//! The monotonic tick counter advanced by the timer interrupt, and the
//! elapsed time derived from it and the configured interrupt frequency.
use vstd::prelude::*;
use vstd::arithmetic::div_mod::lemma_div_denominator;

verus! {

/// Ticks counted since boot (or the last reset), and the timer interrupt
/// frequency in interrupts per second (0 until it is configured).
pub struct Timer {
    ticks: u128,
    frequency: u64,
}

impl Timer {
    pub closed spec fn ticks(&self) -> nat {
        self.ticks as nat
    }

    pub closed spec fn frequency(&self) -> nat {
        self.frequency as nat
    }

    /// A counter at zero, with no frequency configured yet.
    pub fn new() -> (r: Timer)
        ensures
            r.ticks() == 0,
            r.frequency() == 0,
    {
        Timer { ticks: 0, frequency: 0 }
    }

    /// Counts one timer interrupt.
    pub fn update(&mut self)
        requires
            old(self).ticks() < u128::MAX,
        ensures
            final(self).ticks() == old(self).ticks() + 1,
            final(self).frequency() == old(self).frequency(),
    {
        self.ticks = self.ticks + 1;
    }

    /// Sets the counter back to zero.
    pub fn reset(&mut self)
        ensures
            final(self).ticks() == 0,
            final(self).frequency() == old(self).frequency(),
    {
        self.ticks = 0;
    }

    pub fn current_tick(&self) -> (r: u128)
        ensures
            r == self.ticks(),
    {
        self.ticks
    }

    /// Records the configured timer interrupt frequency.
    pub fn set_tick_rate(&mut self, rate: u64)
        ensures
            final(self).frequency() == rate,
            final(self).ticks() == old(self).ticks(),
    {
        self.frequency = rate;
    }

    pub fn get_frequency(&self) -> (r: u64)
        ensures
            r == self.frequency(),
    {
        self.frequency
    }

    /// Elapsed time `ticks / frequency` in seconds, as whole seconds and the
    /// ticks left over; `None` while no frequency is configured.
    pub fn elapsed_seconds(&self) -> (r: Option<(u128, u128)>)
        ensures
            self.frequency() == 0 ==> r is None,
            self.frequency() > 0 ==> r == Some(
                (
                    (self.ticks() / self.frequency()) as u128,
                    (self.ticks() % self.frequency()) as u128,
                ),
            ),
    {
        if self.frequency == 0 {
            None
        } else {
            let f = self.frequency as u128;
            Some((self.ticks / f, self.ticks % f))
        }
    }

    /// Elapsed time in minutes, `ticks / (60 * frequency)`, as whole minutes
    /// and the ticks left over; `None` while no frequency is configured.
    pub fn elapsed_minutes(&self) -> (r: Option<(u128, u128)>)
        ensures
            self.frequency() == 0 ==> r is None,
            self.frequency() > 0 ==> r == Some(
                (
                    (self.ticks() / (60 * self.frequency())) as u128,
                    (self.ticks() % (60 * self.frequency())) as u128,
                ),
            ),
    {
        if self.frequency == 0 {
            None
        } else {
            let f = 60 * (self.frequency as u128);
            Some((self.ticks / f, self.ticks % f))
        }
    }
}

/// Elapsed whole minutes are elapsed whole seconds divided by 60.
pub proof fn lemma_minutes_from_seconds(t: &Timer)
    requires
        t.frequency() > 0,
    ensures
        t.ticks() / (60 * t.frequency()) == (t.ticks() / t.frequency()) / 60,
{
    lemma_div_denominator(t.ticks() as int, t.frequency() as int, 60);
    assert(t.frequency() * 60 == 60 * t.frequency());
}

} // verus!
