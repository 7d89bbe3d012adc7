//! What holds of the timers whatever they are fed, proved over the states
//! that the timers' contracts speak of.

use crate::duration::{clamp, minus_or_zero};
use crate::state::{total, TimerState};
use crate::timer::Countdown;
use vstd::prelude::*;

verus! {

/// A new timer has its whole duration left, has nothing elapsed and is not
/// finished, whatever its duration.
pub proof fn law_new_timer(duration: nat)
    ensures
        TimerState::fresh(duration).remaining == duration,
        TimerState::fresh(duration).elapsed() == 0,
        !TimerState::fresh(duration).finished,
        !TimerState::fresh(duration).just_finished,
{
}

/// Feed a new timer the first `k` of `deltas`, one by one. It then has left
/// what the duration exceeds their sum by, it is finished exactly if their
/// sum has reached the duration, and it has just finished exactly if the
/// `k`-th advance is the first to get the sum there.
pub proof fn law_finishes_once(duration: nat, deltas: Seq<nat>, k: int)
    requires
        1 <= k <= deltas.len(),
    ensures
        ({
            let after = TimerState::fresh(duration).tick_all(deltas.take(k));
            let now = total(deltas.take(k));
            let before = total(deltas.take(k - 1));
            &&& after.duration == duration
            &&& after.remaining == minus_or_zero(duration, now)
            &&& after.finished == (now >= duration)
            &&& after.just_finished == (now >= duration && (k == 1 || before < duration))
        }),
    decreases k,
{
    let start = TimerState::fresh(duration);
    assert(deltas.take(k).drop_last() == deltas.take(k - 1));
    if k == 1 {
        assert(start.tick_all(deltas.take(0)) == start);
        assert(total(deltas.take(0)) == 0);
    } else {
        law_finishes_once(duration, deltas, k - 1);
    }
}

/// Once a timer is finished, advancing it any number of times, at least once,
/// leaves the time left as it is, at zero for a timer in order, keeps it
/// finished and never says again that it has just finished.
pub proof fn law_finished_stays(state: TimerState, deltas: Seq<nat>)
    requires
        state.finished,
        deltas.len() > 0,
    ensures
        state.tick_all(deltas) == (TimerState { just_finished: false, ..state }),
        state.wf() ==> state.tick_all(deltas).remaining == 0,
    decreases deltas.len(),
{
    if deltas.len() == 1 {
        assert(state.tick_all(deltas.drop_last()) == state);
    } else {
        law_finished_stays(state, deltas.drop_last());
    }
}

/// A reset gives the whole duration back, and with a duration that is not
/// zero the timer is no longer finished.
pub proof fn law_reset_restarts(state: TimerState)
    ensures
        state.reset().duration == state.duration,
        state.reset().remaining == state.duration,
        state.duration != 0 ==> !state.reset().finished && !state.reset().just_finished,
{
}

/// After the elapsed time is set, the elapsed time is what was asked for, and
/// the whole duration where more was asked for.
pub proof fn law_set_elapsed(state: TimerState, elapsed: nat)
    ensures
        state.set_elapsed(elapsed).elapsed() == if elapsed <= state.duration {
            elapsed
        } else {
            state.duration
        },
{
}

/// The elapsed time and the time left of a timer in order make up its
/// duration. Where the duration was set below the time left, nothing has
/// elapsed.
pub proof fn law_elapsed(state: TimerState)
    ensures
        state.remaining <= state.duration ==> state.elapsed() + state.remaining == state.duration,
        state.remaining > state.duration ==> state.elapsed() == 0,
        state.elapsed() <= state.duration,
{
}

/// After the time left is set, the time left is what was asked for, held
/// between zero and the duration.
pub proof fn law_set_remaining(state: TimerState, remaining: nat)
    ensures
        state.set_remaining(remaining).remaining == clamp(remaining, 0, state.duration),
        state.set_remaining(remaining).remaining <= state.duration,
{
}

/// A new timer is in order, an advance keeps a timer in order, and setting
/// the time left, setting the elapsed time and a reset put any timer in
/// order. A new duration keeps a timer in order if it is not below the time
/// left.
pub proof fn law_stays_in_order(state: TimerState, span: nat)
    ensures
        TimerState::fresh(span).wf(),
        state.wf() ==> state.tick(span).wf(),
        state.set_remaining(span).wf(),
        state.set_elapsed(span).wf(),
        state.reset().wf(),
        state.wf() && state.remaining <= span ==> state.set_duration(span).wf(),
{
}

/// After an advance of a timer in order, the timer is finished exactly if no
/// time is left.
pub proof fn law_tick_settles(state: TimerState, delta: nat)
    requires
        state.wf(),
    ensures
        state.tick(delta).finished <==> state.tick(delta).remaining == 0,
{
}

/// The part of a timer's state that the minimal timer has too.
pub open spec fn countdown_of(state: TimerState) -> Countdown {
    Countdown { duration: state.duration, time_left: state.remaining, ready: state.finished }
}

/// The minimal timer does what the full timer does: made alike they agree,
/// fed alike they stay in agreement, and for timers in order a reset keeps
/// them in agreement.
pub proof fn law_minimal_timer_agrees(state: TimerState, span: nat)
    ensures
        countdown_of(TimerState::fresh(span)) == Countdown::fresh(span),
        countdown_of(state.tick(span)) == countdown_of(state).update(span),
        state.wf() ==> countdown_of(state.reset()) == countdown_of(state).reset(),
{
}

} // verus!
