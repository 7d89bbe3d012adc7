//! The mathematical model of a timer: its four values, with time spans as
//! natural numbers of nanoseconds, and each operation as a function from the
//! state before to the state after.

use crate::duration::{clamp, minus_or_zero};
use vstd::prelude::*;

verus! {

/// The sum of `deltas`: the time that the advances hand in together.
pub open spec fn total(deltas: Seq<nat>) -> nat
    decreases deltas.len(),
{
    if deltas.len() == 0 {
        0
    } else {
        total(deltas.drop_last()) + deltas.last()
    }
}

/// What a timer holds, with both time spans in nanoseconds.
pub struct TimerState {
    /// The full length the timer counts down from.
    pub duration: nat,
    /// The time left before the timer reaches zero.
    pub remaining: nat,
    /// Whether the timer has reached zero and has not been moved away since.
    pub finished: bool,
    /// Whether the last operation is the one that brought the timer to zero.
    pub just_finished: bool,
}

impl TimerState {
    /// A timer that has just been made: nothing has elapsed, no flag is set.
    pub open spec fn fresh(duration: nat) -> TimerState {
        TimerState { duration, remaining: duration, finished: false, just_finished: false }
    }

    /// What every operation but a change of `duration` keeps: the time left
    /// does not exceed the duration, a finished timer has no time left, and
    /// only a finished timer has just finished.
    pub open spec fn wf(self) -> bool {
        &&& self.remaining <= self.duration
        &&& self.finished ==> self.remaining == 0
        &&& self.just_finished ==> self.finished
    }

    /// The time that has gone by: `duration - remaining`, and nothing where
    /// the duration was set below the time left.
    pub open spec fn elapsed(self) -> nat {
        minus_or_zero(self.duration, self.remaining)
    }

    /// The state after an advance by `delta`. A finished timer only forgets
    /// that it has just finished. A running one counts down, stopping at
    /// zero, and is finished, and has just finished, exactly if it got there.
    pub open spec fn tick(self, delta: nat) -> TimerState {
        if self.finished {
            TimerState { just_finished: false, ..self }
        } else {
            let left: nat = minus_or_zero(self.remaining, delta);
            TimerState { remaining: left, finished: left == 0, just_finished: left == 0, ..self }
        }
    }

    /// The state after the time left is set to `remaining`, held within the
    /// duration. The timer is finished, and has just finished, exactly if the
    /// new value is zero and the old one was not.
    pub open spec fn set_remaining(self, remaining: nat) -> TimerState {
        let hit_zero: bool = remaining == 0 && self.remaining != 0;
        TimerState {
            remaining: clamp(remaining, 0, self.duration),
            finished: hit_zero,
            just_finished: hit_zero,
            ..self
        }
    }

    /// The state after a reset: the time left is the whole duration again.
    pub open spec fn reset(self) -> TimerState {
        self.set_remaining(self.duration)
    }

    /// The state after the elapsed time is set to `elapsed`: what is left is
    /// the rest of the duration, and nothing where `elapsed` exceeds it.
    pub open spec fn set_elapsed(self, elapsed: nat) -> TimerState {
        self.set_remaining(minus_or_zero(self.duration, elapsed))
    }

    /// The state after one advance for each of `deltas`, in their order.
    pub open spec fn tick_all(self, deltas: Seq<nat>) -> TimerState
        decreases deltas.len(),
    {
        if deltas.len() == 0 {
            self
        } else {
            self.tick_all(deltas.drop_last()).tick(deltas.last())
        }
    }

    /// The state after the duration is replaced. Nothing else changes, so the
    /// time left may now exceed the duration.
    pub open spec fn set_duration(self, duration: nat) -> TimerState {
        TimerState { duration, ..self }
    }
}

} // verus!
