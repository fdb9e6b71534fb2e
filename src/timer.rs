//! Countdown and repeating timers driven by elapsed microseconds.
use vstd::prelude::*;

verus! {

/// A one-shot countdown: it runs from its full duration down to zero and then
/// stays finished until it is reset.
#[derive(Clone, Copy, Debug, PartialEq, Eq)]
pub struct Countdown {
    pub duration_us: u64,
    pub remaining_us: u64,
}

impl Countdown {
    /// A countdown that starts full.
    pub fn new(duration_us: u64) -> (r: Countdown)
        ensures
            r.duration_us == duration_us,
            r.remaining_us == duration_us,
    {
        Countdown { duration_us, remaining_us: duration_us }
    }

    /// A countdown that starts already finished.
    pub fn expired(duration_us: u64) -> (r: Countdown)
        ensures
            r.duration_us == duration_us,
            r.remaining_us == 0,
    {
        Countdown { duration_us, remaining_us: 0 }
    }

    /// The countdown after `dt_us` more microseconds.
    pub open spec fn ticked(self, dt_us: int) -> Countdown {
        Countdown {
            duration_us: self.duration_us,
            remaining_us: if self.remaining_us >= dt_us {
                (self.remaining_us - dt_us) as u64
            } else {
                0
            },
        }
    }

    /// The countdown started again from its full duration.
    pub open spec fn restarted(self) -> Countdown {
        Countdown { duration_us: self.duration_us, remaining_us: self.duration_us }
    }

    /// The countdown ended at once.
    pub open spec fn ended(self) -> Countdown {
        Countdown { duration_us: self.duration_us, remaining_us: 0 }
    }

    pub open spec fn is_finished(self) -> bool {
        self.remaining_us == 0
    }

    pub fn finished(&self) -> (r: bool)
        ensures
            r == self.is_finished(),
    {
        self.remaining_us == 0
    }

    /// Runs the countdown down by `dt_us`, never below zero.
    pub fn tick(&mut self, dt_us: u32)
        ensures
            *final(self) == old(self).ticked(dt_us as int),
    {
        self.remaining_us = self.remaining_us.saturating_sub(dt_us as u64);
    }

    /// Restarts the countdown from its full duration.
    pub fn reset(&mut self)
        ensures
            *final(self) == old(self).restarted(),
    {
        self.remaining_us = self.duration_us;
    }

    /// Ends the countdown at once.
    pub fn expire(&mut self)
        ensures
            *final(self) == old(self).ended(),
    {
        self.remaining_us = 0;
    }
}

/// A repeating timer: each time the elapsed time reaches the period it wraps
/// around and reports that it has just finished.
#[derive(Clone, Copy, Debug, PartialEq, Eq)]
pub struct AnimationTimer {
    pub period_us: u64,
    pub elapsed_us: u64,
}

impl AnimationTimer {
    pub open spec fn new_spec(period_us: u64) -> AnimationTimer {
        AnimationTimer { period_us, elapsed_us: 0 }
    }

    pub fn new(period_us: u64) -> (r: AnimationTimer)
        ensures
            r == AnimationTimer::new_spec(period_us),
    {
        AnimationTimer { period_us, elapsed_us: 0 }
    }

    /// The elapsed time after `dt_us` more, saturating at `u64::MAX`.
    pub open spec fn advanced(self, dt_us: int) -> int {
        if self.elapsed_us + dt_us > u64::MAX { u64::MAX as int } else { self.elapsed_us + dt_us }
    }

    /// Whether a period ends within the next `dt_us` microseconds.
    pub open spec fn finishes(self, dt_us: int) -> bool {
        self.advanced(dt_us) >= self.period_us
    }

    /// The timer after `dt_us` more microseconds, wrapped into its period.
    pub open spec fn ticked(self, dt_us: int) -> AnimationTimer {
        AnimationTimer {
            period_us: self.period_us,
            elapsed_us: if self.period_us == 0 {
                0
            } else {
                (self.advanced(dt_us) % (self.period_us as int)) as u64
            },
        }
    }

    /// Advances the timer; returns whether a period ended during this tick.
    /// A zero period ends on every tick.
    pub fn tick(&mut self, dt_us: u32) -> (just_finished: bool)
        ensures
            *final(self) == old(self).ticked(dt_us as int),
            just_finished == old(self).finishes(dt_us as int),
    {
        let total = self.elapsed_us.saturating_add(dt_us as u64);
        if self.period_us == 0 {
            self.elapsed_us = 0;
            true
        } else {
            self.elapsed_us = total % self.period_us;
            total >= self.period_us
        }
    }
}

} // verus!
