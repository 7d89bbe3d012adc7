//! A countdown timer that is driven from outside.
//!
//! A [`Timer`] never reads a clock. Its owner measures how much time has gone
//! by and hands that in with [`Timer::tick`]; the timer counts down from its
//! duration and reports when it reaches zero.

use std::time::Duration;
use vstd::prelude::*;

pub mod duration;
pub mod laws;
pub mod state;
pub mod timer;

use crate::duration::{clamp_between, is_zero, nanos, saturating_sub, zero};
pub use crate::state::TimerState;

verus! {

/// A simple timer that is externally driven. [`tick`](Timer::tick) must be
/// called with a delta time for the timer to advance.
#[derive(Debug, Eq, PartialEq)]
pub struct Timer {
    duration: Duration,
    remaining: Duration,
    finished: bool,
    just_finished: bool,
}

impl View for Timer {
    type V = TimerState;

    closed spec fn view(&self) -> TimerState {
        TimerState {
            duration: nanos(self.duration),
            remaining: nanos(self.remaining),
            finished: self.finished,
            just_finished: self.just_finished,
        }
    }
}

impl Clone for Timer {
    fn clone(&self) -> (copy: Timer)
        ensures
            copy == *self,
    {
        Timer {
            duration: self.duration,
            remaining: self.remaining,
            finished: self.finished,
            just_finished: self.just_finished,
        }
    }
}

impl Timer {
    /// Create a new timer with the given duration.
    pub fn new(duration: Duration) -> (timer: Timer)
        ensures
            timer@ == TimerState::fresh(nanos(duration)),
            timer@.wf(),
    {
        Timer { duration, remaining: duration, finished: false, just_finished: false }
    }

    /// Advance the timer by a specific duration. This _must_ be called for the
    /// timer to be useful.
    pub fn tick(&mut self, delta: Duration)
        ensures
            final(self)@ == old(self)@.tick(nanos(delta)),
            old(self)@.wf() ==> final(self)@.wf(),
    {
        self.just_finished = false;
        if self.finished {
            return ;
        }
        self.remaining = saturating_sub(self.remaining, delta);
        if is_zero(self.remaining) {
            self.just_finished = true;
            self.finished = true;
        }
    }

    /// Sets the time currently remaining on the timer. Sets/unsets that the
    /// timer has finished as appropriate.
    pub fn set_remaining(&mut self, remaining: Duration)
        ensures
            final(self)@ == old(self)@.set_remaining(nanos(remaining)),
            final(self)@.wf(),
    {
        if is_zero(remaining) && !is_zero(self.remaining) {
            self.just_finished = true;
            self.finished = true;
        } else {
            self.just_finished = false;
            self.finished = false;
        }
        self.remaining = clamp_between(remaining, zero(), self.duration);
    }

    /// Reset the timer to the starting duration. Resets `finished` and
    /// `just_finished` as well.
    pub fn reset(&mut self)
        ensures
            final(self)@ == old(self)@.reset(),
            final(self)@.wf(),
    {
        self.set_remaining(self.duration);
    }

    /// Sets the time currently elapsed on the timer. Sets/unsets that the
    /// timer has finished as appropriate.
    pub fn set_elapsed(&mut self, elapsed: Duration)
        ensures
            final(self)@ == old(self)@.set_elapsed(nanos(elapsed)),
            final(self)@.wf(),
    {
        self.set_remaining(saturating_sub(self.duration, elapsed));
    }

    /// Sets the starting duration of the timer, but does not change the
    /// remaining time on the timer. See [`reset`](Timer::reset) to reset the
    /// remaining time to the starting duration.
    pub fn set_duration(&mut self, duration: Duration)
        ensures
            final(self)@ == old(self)@.set_duration(nanos(duration)),
            old(self)@.wf() && old(self)@.remaining <= nanos(duration) ==> final(self)@.wf(),
    {
        self.duration = duration;
    }

    /// Returns the time that has elapsed on the timer: the duration less the
    /// time left, and nothing where
    /// [`set_duration`](Timer::set_duration) has shortened the timer below the
    /// time left.
    pub fn elapsed(&self) -> (elapsed: Duration)
        ensures
            nanos(elapsed) == self@.elapsed(),
    {
        saturating_sub(self.duration, self.remaining)
    }

    /// Returns the full duration of the timer when newly started. See also
    /// [`remaining`](Timer::remaining) and [`elapsed`](Timer::elapsed).
    pub fn duration(&self) -> (duration: Duration)
        ensures
            nanos(duration) == self@.duration,
    {
        self.duration
    }

    /// Returns the time currently remaining on the timer.
    pub fn remaining(&self) -> (remaining: Duration)
        ensures
            nanos(remaining) == self@.remaining,
    {
        self.remaining
    }

    /// Whether the timer is at zero.
    pub fn finished(&self) -> (finished: bool)
        ensures
            finished == self@.finished,
    {
        self.finished
    }

    /// Whether the timer hit zero since the last call to
    /// [`tick`](Timer::tick).
    pub fn just_finished(&self) -> (just_finished: bool)
        ensures
            just_finished == self@.just_finished,
    {
        self.just_finished
    }
}

impl Default for Timer {
    /// A timer of no length, with nothing left and no flag set.
    fn default() -> (timer: Timer)
        ensures
            timer@ == TimerState::fresh(0),
    {
        Timer { duration: zero(), remaining: zero(), finished: false, just_finished: false }
    }
}

} // verus!
