//! Countdown timers. The timers themselves are the engine's; this module states
//! what the library relies on when it drives them.

use vstd::prelude::*;
use bevy::time::Timer;
use bevy::time::TimerMode;
use std::time::Duration;

verus! {

/// The engine's timer, carried through the library as an opaque value.
#[verifier::external_type_specification]
#[verifier::external_body]
pub struct ExTimer(Timer);

/// What `Timer::elapsed` reports of a timer, in nanoseconds.
pub uninterp spec fn timer_elapsed(t: Timer) -> nat;

/// What `Timer::duration` reports of a timer, in nanoseconds.
pub uninterp spec fn timer_duration(t: Timer) -> nat;

/// What `Timer::finished` reports of a timer.
pub uninterp spec fn timer_finished(t: Timer) -> bool;

/// Whether `Timer::mode` reports a timer as repeating.
pub uninterp spec fn timer_repeating(t: Timer) -> bool;

/// What `Timer::paused` reports of a timer.
pub uninterp spec fn timer_paused(t: Timer) -> bool;

/// The observable state of a timer. Times are nanoseconds.
pub struct TimerView {
    pub elapsed: nat,
    pub duration: nat,
    pub repeating: bool,
    pub finished: bool,
    pub paused: bool,
}

/// Everything the library can tell about a timer.
pub open spec fn timer_view(t: Timer) -> TimerView {
    TimerView {
        elapsed: timer_elapsed(t),
        duration: timer_duration(t),
        repeating: timer_repeating(t),
        finished: timer_finished(t),
        paused: timer_paused(t),
    }
}

/// A timer whose times can be counted in 64 bits of nanoseconds, as every timer is
/// that this library made and drove.
pub open spec fn timer_in_range(t: Timer) -> bool {
    timer_elapsed(t) <= u64::MAX && timer_duration(t) <= u64::MAX
}

/// A timer's state after `delta` more nanoseconds. A paused timer does not move,
/// and a one-shot timer that has finished stays as it is. Otherwise the time is
/// added: a one-shot timer stops at its duration, a repeating one wraps around it.
pub open spec fn ticked(v: TimerView, delta: nat) -> TimerView {
    if v.paused {
        TimerView { finished: v.finished && !v.repeating, ..v }
    } else if !v.repeating && v.finished {
        v
    } else {
        let total = v.elapsed + delta;
        if total < v.duration {
            TimerView { elapsed: total, finished: false, ..v }
        } else if !v.repeating {
            TimerView { elapsed: v.duration, finished: true, ..v }
        } else if v.duration == 0 {
            TimerView { elapsed: 0, finished: true, ..v }
        } else {
            TimerView { elapsed: total % v.duration, finished: true, ..v }
        }
    }
}

/// The state of a timer that was just made for `duration` nanoseconds.
pub open spec fn fresh(duration: nat, repeating: bool) -> TimerView {
    TimerView { elapsed: 0, duration, repeating, finished: false, paused: false }
}

/// The part of its duration, in millionths, that a timer still has to run.
pub open spec fn fraction_left(v: TimerView) -> int {
    if v.duration == 0 || v.elapsed >= v.duration {
        0
    } else {
        ((v.duration - v.elapsed) * 1_000_000) / (v.duration as int)
    }
}

/// The part that is left is between nothing and all.
pub proof fn lemma_fraction_range(v: TimerView)
    ensures
        0 <= fraction_left(v) <= 1_000_000,
{
    if !(v.duration == 0 || v.elapsed >= v.duration) {
        let left = v.duration - v.elapsed;
        let whole = v.duration as int;
        assert(0 <= (left * 1_000_000) / whole <= 1_000_000) by (nonlinear_arith)
            requires
                0 < left <= whole,
        ;
    }
}

/// A timer's state after it was started again.
pub open spec fn restarted(v: TimerView) -> TimerView {
    TimerView { elapsed: 0, finished: false, ..v }
}

/// Ticking keeps a timer's times within 64 bits of nanoseconds.
pub proof fn lemma_ticked_in_range(v: TimerView, delta: nat)
    requires
        v.elapsed <= u64::MAX,
        v.duration <= u64::MAX,
    ensures
        ticked(v, delta).elapsed <= u64::MAX,
        ticked(v, delta).duration == v.duration,
{
    let total = v.elapsed + delta;
    if v.duration > 0 {
        assert(total % v.duration < v.duration) by (nonlinear_arith)
            requires
                v.duration > 0,
                total >= 0,
        ;
    }
}

/// Calls `Timer::new` for a timer that runs once, with a duration of `nanos`
/// nanoseconds. The new timer has nothing elapsed and is not finished, not paused
/// and not repeating.
#[verifier::external_body]
pub(crate) fn timer_new(nanos: u64) -> (t: Timer)
    ensures
        timer_elapsed(t) == 0,
        timer_duration(t) == nanos,
        !timer_repeating(t),
        !timer_finished(t),
        !timer_paused(t),
{
    Timer::new(Duration::from_nanos(nanos), TimerMode::Once)
}

/// Calls `Timer::set_mode` to make a timer repeat. On a timer that has not
/// finished nothing else changes.
#[verifier::external_body]
pub(crate) fn timer_repeat(t: &mut Timer)
    requires
        !timer_finished(*old(t)),
    ensures
        timer_view(*final(t)) == (TimerView { repeating: true, ..timer_view(*old(t)) }),
{
    t.set_mode(TimerMode::Repeating);
}

/// Calls `Timer::tick` with `nanos` nanoseconds. The timer's state afterwards is
/// `ticked` of its state before.
#[verifier::external_body]
pub(crate) fn timer_tick(t: &mut Timer, nanos: u64)
    requires
        timer_in_range(*old(t)),
    ensures
        timer_view(*final(t)) == ticked(timer_view(*old(t)), nanos as nat),
{
    t.tick(Duration::from_nanos(nanos));
}

/// Calls `Timer::finished`.
#[verifier::external_body]
pub(crate) fn timer_is_finished(t: &Timer) -> (done: bool)
    ensures
        done == timer_finished(*t),
{
    t.finished()
}

/// Calls `Timer::reset`: nothing is elapsed and the timer is not finished; its
/// duration, its mode and whether it is paused stay.
#[verifier::external_body]
pub(crate) fn timer_reset(t: &mut Timer)
    ensures
        timer_view(*final(t)) == restarted(timer_view(*old(t))),
{
    t.reset();
}

/// Calls `Timer::set_duration` with `nanos` nanoseconds: only the duration changes.
#[verifier::external_body]
pub(crate) fn timer_set_duration(t: &mut Timer, nanos: u64)
    ensures
        timer_view(*final(t)) == (TimerView { duration: nanos as nat, ..timer_view(*old(t)) }),
{
    t.set_duration(Duration::from_nanos(nanos));
}

/// Calls `Timer::elapsed` and gives the time in nanoseconds.
#[verifier::external_body]
pub(crate) fn timer_elapsed_nanos(t: &Timer) -> (nanos: u128)
    ensures
        nanos == timer_elapsed(*t),
{
    t.elapsed().as_nanos()
}

/// Calls `Timer::duration` and gives the time in nanoseconds.
#[verifier::external_body]
pub(crate) fn timer_duration_nanos(t: &Timer) -> (nanos: u128)
    ensures
        nanos == timer_duration(*t),
{
    t.duration().as_nanos()
}


/// Tells whether a timer's times can be counted in 64 bits of nanoseconds.
pub fn timer_fits(t: &Timer) -> (fits: bool)
    ensures
        fits == timer_in_range(*t),
{
    timer_elapsed_nanos(t) <= u64::MAX as u128 && timer_duration_nanos(t) <= u64::MAX as u128
}

} // verus!
