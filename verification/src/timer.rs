//! A countdown used to gate the fixed wind-up and cast delays of turn
//! resolution, counted in whole milliseconds.

use vstd::prelude::*;

verus! {

#[derive(Clone, Copy, Debug, PartialEq, Eq, Structural)]
pub struct Timer {
    pub remaining_ms: u64,
}

impl Timer {
    pub fn new(duration_ms: u64) -> (t: Timer)
        ensures
            t.remaining_ms == duration_ms,
    {
        Timer { remaining_ms: duration_ms }
    }

    /// Count `dt_ms` milliseconds down, stopping at zero.
    pub fn tick(&mut self, dt_ms: u64)
        ensures
            final(self).remaining_ms == if dt_ms <= old(self).remaining_ms {
                old(self).remaining_ms - dt_ms
            } else {
                0
            },
    {
        if dt_ms <= self.remaining_ms {
            self.remaining_ms = self.remaining_ms - dt_ms;
        } else {
            self.remaining_ms = 0;
        }
    }

    pub fn done(&self) -> (r: bool)
        ensures
            r == (self.remaining_ms == 0),
    {
        self.remaining_ms == 0
    }
}

} // verus!
