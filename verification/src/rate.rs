//! How often the loop is meant to turn.

use vstd::prelude::*;

verus! {

/// The nanoseconds in a second.
pub const NANOS_PER_SECOND: u64 = 1_000_000_000;

/// The highest rate there is: one turn per nanosecond.
pub const MAX_RATE: u32 = 1_000_000_000;

/// The frame rate that a client starts with.
pub const DEFAULT_FRAMES_PER_SECOND: u32 = 60;

/// The tick rate that a server starts with.
pub const DEFAULT_TICKS_PER_SECOND: u32 = 20;

/// Whether `per_second` turns a second is a rate that the loop can be paced
/// to: at least one, and no more than one per nanosecond.
pub open spec fn is_rate(per_second: int) -> bool {
    1 <= per_second <= MAX_RATE
}

/// A target rate in turns per second: frames for a client, ticks for a server.
/// There is no rate of zero, so every rate has a period.
#[derive(Debug, Clone, Copy, PartialEq, Eq)]
pub struct Rate {
    per_second: u32,
}

impl View for Rate {
    type V = nat;

    closed spec fn view(&self) -> nat {
        self.per_second as nat
    }
}

impl Rate {
    #[verifier::type_invariant]
    spec fn in_range(self) -> bool {
        is_rate(self.per_second as int)
    }

    /// The rate of `per_second` turns a second, if that is a rate.
    pub fn new(per_second: u32) -> (rate: Option<Self>)
        ensures
            rate is Some == is_rate(per_second as int),
            rate matches Some(made) ==> made@ == per_second,
    {
        if 1 <= per_second && per_second <= MAX_RATE {
            Some(Rate { per_second })
        } else {
            None
        }
    }

    /// The frame rate that a client starts with.
    pub fn default_frames() -> (rate: Self)
        ensures
            rate@ == DEFAULT_FRAMES_PER_SECOND,
    {
        Rate { per_second: DEFAULT_FRAMES_PER_SECOND }
    }

    /// The tick rate that a server starts with.
    pub fn default_ticks() -> (rate: Self)
        ensures
            rate@ == DEFAULT_TICKS_PER_SECOND,
    {
        Rate { per_second: DEFAULT_TICKS_PER_SECOND }
    }

    /// Turns per second.
    pub fn per_second(&self) -> (per_second: u32)
        ensures
            per_second == self@,
            is_rate(per_second as int),
    {
        proof {
            use_type_invariant(self);
        }
        self.per_second
    }

    /// The time that one turn is given, in whole nanoseconds, rounded down.
    /// It is never zero.
    pub fn period_nanos(&self) -> (period: u64)
        ensures
            period == NANOS_PER_SECOND as nat / self@,
            period >= 1,
    {
        proof {
            use_type_invariant(self);
        }
        let period = NANOS_PER_SECOND / (self.per_second as u64);
        assert(period >= 1) by (nonlinear_arith)
            requires
                1 <= self.per_second <= 1_000_000_000,
                period == 1_000_000_000u64 / (self.per_second as u64),
        ;
        period
    }
}

} // verus!
