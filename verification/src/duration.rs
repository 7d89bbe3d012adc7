//! `std::time::Duration` as seen by the proofs: a count of nanoseconds.
//!
//! Verus knows the type but nothing of its methods. This module names the
//! length of a duration and gives each method the timers call a contract over
//! that length. These contracts are believed, not proved.

use std::time::Duration;
use vstd::prelude::*;

verus! {

/// The length of `d` in nanoseconds: what `Duration::as_nanos` returns.
pub uninterp spec fn nanos(d: Duration) -> nat;

/// `a - b`, or zero where `b` is the larger.
pub open spec fn minus_or_zero(a: nat, b: nat) -> nat {
    if a >= b {
        (a - b) as nat
    } else {
        0
    }
}

/// `x` brought into the range from `lo` to `hi`.
pub open spec fn clamp(x: nat, lo: nat, hi: nat) -> nat {
    if x < lo {
        lo
    } else if x > hi {
        hi
    } else {
        x
    }
}

/// `Duration::ZERO`, the duration of no length.
#[verifier::external_body]
pub(crate) fn zero() -> (z: Duration)
    ensures
        nanos(z) == 0,
{
    Duration::ZERO
}

/// `Duration::from_millis`: the duration of `ms` milliseconds, each of them a
/// million nanoseconds.
#[verifier::external_body]
pub(crate) fn from_millis(ms: u64) -> (d: Duration)
    ensures
        nanos(d) == ms * 1_000_000,
{
    Duration::from_millis(ms)
}

/// `Duration::is_zero`: whether `d` spans no time.
#[verifier::external_body]
pub(crate) fn is_zero(d: Duration) -> (r: bool)
    ensures
        r == (nanos(d) == 0),
{
    d.is_zero()
}

/// `Duration::saturating_sub`: the difference of the two lengths, and zero
/// where that difference would be negative.
#[verifier::external_body]
pub(crate) fn saturating_sub(a: Duration, b: Duration) -> (r: Duration)
    ensures
        nanos(r) == minus_or_zero(nanos(a), nanos(b)),
{
    a.saturating_sub(b)
}

/// `Duration::checked_sub`: the difference of the two lengths, and `None`
/// where that difference would be negative.
#[verifier::external_body]
pub(crate) fn checked_sub(a: Duration, b: Duration) -> (r: Option<Duration>)
    ensures
        match r {
            Some(d) => nanos(a) >= nanos(b) && nanos(d) == nanos(a) - nanos(b),
            None => nanos(a) < nanos(b),
        },
{
    a.checked_sub(b)
}

/// `Ord::clamp` on durations, which are ordered by length: `lo` where `d` is
/// shorter than `lo`, `hi` where it is longer than `hi`, else `d` itself. It
/// panics where `lo` is longer than `hi`, so callers must show that it is not.
#[verifier::external_body]
pub(crate) fn clamp_between(d: Duration, lo: Duration, hi: Duration) -> (r: Duration)
    requires
        nanos(lo) <= nanos(hi),
    ensures
        r == if nanos(d) < nanos(lo) {
            lo
        } else if nanos(d) > nanos(hi) {
            hi
        } else {
            d
        },
{
    d.clamp(lo, hi)
}

} // verus!
