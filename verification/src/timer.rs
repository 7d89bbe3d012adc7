//! The minimal timer: a duration, the time left and a flag that says the time
//! has run out. It does what the full [`Timer`](crate::Timer) does, without
//! the setters and without the one-call `just_finished` signal.

use crate::duration::{checked_sub, from_millis, is_zero, minus_or_zero, nanos};
use std::time::Duration;
use vstd::prelude::*;

verus! {

/// What a minimal [`Timer`] holds, with both time spans in nanoseconds.
pub struct Countdown {
    /// The full length the timer counts down from.
    pub duration: nat,
    /// The time left before the timer is ready.
    pub time_left: nat,
    /// Whether the time has run out.
    pub ready: bool,
}

impl Countdown {
    /// A timer that has just been made: nothing has elapsed yet.
    pub open spec fn fresh(duration: nat) -> Countdown {
        Countdown { duration, time_left: duration, ready: false }
    }

    /// The state after an update by `delta`. A ready timer stays as it is. A
    /// running one counts down, stopping at zero, and is ready exactly if it
    /// got there: if `delta` is at least what was left.
    pub open spec fn update(self, delta: nat) -> Countdown {
        if self.ready {
            self
        } else {
            Countdown {
                time_left: minus_or_zero(self.time_left, delta),
                ready: delta >= self.time_left,
                ..self
            }
        }
    }

    /// The state after a reset: the whole duration is left again.
    pub open spec fn reset(self) -> Countdown {
        Countdown { time_left: self.duration, ready: false, ..self }
    }
}

/// A simple timer that is externally driven. [`update`](Timer::update) must be
/// called with the delta time.
pub struct Timer {
    pub duration: Duration,
    pub time_left: Duration,
    pub ready: bool,
}

impl View for Timer {
    type V = Countdown;

    open spec fn view(&self) -> Countdown {
        Countdown {
            duration: nanos(self.duration),
            time_left: nanos(self.time_left),
            ready: self.ready,
        }
    }
}

impl Timer {
    /// Create a timer that runs for `ms` milliseconds.
    pub fn from_millis(ms: u64) -> (timer: Timer)
        ensures
            timer@ == Countdown::fresh((ms * 1_000_000) as nat),
            timer.time_left == timer.duration,
    {
        let duration = from_millis(ms);
        Timer { duration, time_left: duration, ready: false }
    }

    /// Start over: the whole duration is left again and the timer is not
    /// ready.
    pub fn reset(&mut self)
        ensures
            final(self)@ == old(self)@.reset(),
            final(self).duration == old(self).duration,
            final(self).time_left == old(self).duration,
    {
        self.ready = false;
        self.time_left = self.duration;
    }

    /// Advance the timer by `delta`. Once the timer is ready, further updates
    /// change nothing.
    pub fn update(&mut self, delta: Duration)
        ensures
            final(self)@ == old(self)@.update(nanos(delta)),
            final(self).duration == old(self).duration,
            old(self).ready ==> *final(self) == *old(self),
    {
        if self.ready {
            return ;
        }
        match checked_sub(self.time_left, delta) {
            Some(time_left) => {
                self.time_left = time_left;
                if is_zero(time_left) {
                    self.ready = true;
                }
            },
            None => {
                self.time_left = from_millis(0);
                self.ready = true;
            },
        }
    }
}

} // verus!
