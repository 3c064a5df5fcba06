use vstd::prelude::*;

verus! {

/// A countdown that starts over each time it runs out. Times are in
/// nanoseconds.
#[derive(Clone, Copy, Debug, PartialEq, Eq, Structural)]
pub struct RepeatingTimer {
    /// Length of one cycle.
    pub duration: u64,
    /// Time spent in the current cycle.
    pub elapsed: u64,
    /// Whether the last tick completed at least one cycle.
    pub just_finished: bool,
}

impl RepeatingTimer {
    pub open spec fn wf(self) -> bool {
        if self.duration == 0 {
            self.elapsed == 0
        } else {
            self.elapsed < self.duration
        }
    }

    /// The timer after `dt` more nanoseconds: a cycle is completed when the
    /// time in the current cycle reaches the duration, and what is left over
    /// carries into the next cycle. A zero-length timer completes on every tick.
    pub open spec fn tick_spec(self, dt: u64) -> RepeatingTimer {
        let total = self.elapsed + dt;
        if self.duration == 0 {
            RepeatingTimer { duration: 0, elapsed: 0, just_finished: true }
        } else {
            RepeatingTimer {
                duration: self.duration,
                elapsed: (total % (self.duration as int)) as u64,
                just_finished: total >= self.duration,
            }
        }
    }

    /// A fresh timer of `duration` nanoseconds.
    pub fn new(duration: u64) -> (r: RepeatingTimer)
        ensures
            r.wf(),
            r == (RepeatingTimer { duration, elapsed: 0, just_finished: false }),
    {
        RepeatingTimer { duration, elapsed: 0, just_finished: false }
    }

    /// Advances the timer by `dt` nanoseconds.
    pub fn tick(&mut self, dt: u64)
        requires
            old(self).wf(),
        ensures
            final(self).wf(),
            *final(self) == old(self).tick_spec(dt),
    {
        if self.duration == 0 {
            self.elapsed = 0;
            self.just_finished = true;
        } else {
            let total: u128 = self.elapsed as u128 + dt as u128;
            let rest: u128 = total % (self.duration as u128);
            self.elapsed = rest as u64;
            self.just_finished = total >= self.duration as u128;
        }
    }
}

} // verus!
