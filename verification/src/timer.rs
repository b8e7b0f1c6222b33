//! Time that runs out.

use vstd::prelude::*;

verus! {

/// A timer that runs once: it counts the time that is left, in nanoseconds,
/// down to zero and stays there.
#[derive(Clone, Copy, Debug, PartialEq, Eq, Structural)]
pub struct Timer {
    pub remaining: u64,
}

impl Timer {
    pub open spec fn spec_finished(&self) -> bool {
        self.remaining == 0
    }

    /// The timer after `delta` more nanoseconds.
    pub open spec fn spec_ticked(self, delta: u64) -> Timer {
        Timer {
            remaining: if delta >= self.remaining {
                0
            } else {
                (self.remaining - delta) as u64
            },
        }
    }

    pub fn from_nanos(duration: u64) -> (timer: Timer)
        ensures
            timer.remaining == duration,
    {
        Timer { remaining: duration }
    }

    pub fn tick(&mut self, delta: u64)
        ensures
            *final(self) == old(self).spec_ticked(delta),
    {
        if delta >= self.remaining {
            self.remaining = 0;
        } else {
            self.remaining = self.remaining - delta;
        }
    }

    pub fn finished(&self) -> (finished: bool)
        ensures
            finished == self.spec_finished(),
    {
        self.remaining == 0
    }
}

/// Time only runs down: a timer that has finished stays finished, and two
/// ticks do what one tick of their sum does.
pub proof fn lemma_ticks_add_up(timer: Timer, first: u64, second: u64)
    requires
        first + second <= u64::MAX,
    ensures
        timer.spec_ticked(first).spec_ticked(second) == timer.spec_ticked((first + second) as u64),
        timer.spec_finished() ==> timer.spec_ticked(first).spec_finished(),
        timer.spec_ticked(first).remaining <= timer.remaining,
{
}

} // verus!
