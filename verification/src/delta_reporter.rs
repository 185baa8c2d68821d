//! The time between one turn of the loop and the next.

use vstd::prelude::*;

verus! {

/// Remembers when the loop last turned. Time is a count of nanoseconds on a
/// clock that the caller reads; only differences matter.
pub struct DeltaReporter {
    old_time: u64,
}

impl View for DeltaReporter {
    type V = nat;

    /// The instant of the last report, or of the making.
    closed spec fn view(&self) -> nat {
        self.old_time as nat
    }
}

/// The time from `earlier` to `later`, and nothing where the clock has not
/// moved forward.
pub open spec fn elapsed_between(earlier: nat, later: nat) -> nat {
    if later >= earlier {
        (later - earlier) as nat
    } else {
        0
    }
}

impl DeltaReporter {
    /// A reporter that starts counting at `now`.
    pub fn new(now: u64) -> (reporter: Self)
        ensures
            reporter@ == now,
    {
        DeltaReporter { old_time: now }
    }

    /// The nanoseconds since the last report, and `now` becomes the instant
    /// to count from.
    pub fn report(&mut self, now: u64) -> (delta: u64)
        ensures
            delta == elapsed_between(old(self)@, now as nat),
            final(self)@ == now,
    {
        let delta = if now >= self.old_time {
            now - self.old_time
        } else {
            0
        };
        self.old_time = now;
        delta
    }
}

} // verus!
