//! What the library assumes of `bevy::time::Timer` and `std::time::Duration`, and the
//! saturating advance that every countdown of the library goes through.
//!
//! A timer is opaque to the verifier. Its state is read through [`timer_model`], and
//! each method of `Timer` that the library calls is given a contract over that model.
//! None of these contracts is proved here: they restate what the timer's source does.

use bevy::time::Timer;
use bevy::time::TimerMode;
use std::time::Duration;
use vstd::prelude::*;

verus! {

#[verifier::external_type_specification]
#[verifier::external_body]
pub struct ExTimer(Timer);

#[verifier::external_type_specification]
pub struct ExTimerMode(TimerMode);

pub const NANOS_PER_SEC: u128 = 1_000_000_000;

pub const NANOS_PER_MILLI: u128 = 1_000_000;

/// The longest duration: `u64::MAX` seconds and 999,999,999 nanoseconds.
pub const MAX_DURATION_NANOS: u128 = 18_446_744_073_709_551_615_999_999_999;

/// The length of a duration in nanoseconds.
pub uninterp spec fn nanos(d: Duration) -> nat;

/// The state of a timer, with times in nanoseconds.
pub struct TimerModel {
    pub elapsed: nat,
    pub duration: nat,
    pub mode: TimerMode,
    pub paused: bool,
    pub finished: bool,
    pub times_finished_this_tick: nat,
}

/// The state of a timer.
pub uninterp spec fn timer_model(t: Timer) -> TimerModel;

/// The sum of the frame times `deltas`.
pub open spec fn total(deltas: Seq<nat>) -> nat
    decreases deltas.len(),
{
    if deltas.len() == 0 {
        0
    } else {
        deltas[0] + total(deltas.skip(1))
    }
}

impl TimerModel {
    /// A timer as `Timer::new` makes it.
    pub open spec fn fresh(duration: nat, mode: TimerMode) -> TimerModel {
        TimerModel {
            elapsed: 0,
            duration,
            mode,
            paused: false,
            finished: false,
            times_finished_this_tick: 0,
        }
    }

    /// What holds of every timer: no time passes the longest duration, and the
    /// count of a tick fits 32 bits.
    pub open spec fn wf(self) -> bool {
        &&& self.elapsed <= MAX_DURATION_NANOS
        &&& self.duration <= MAX_DURATION_NANOS
        &&& self.times_finished_this_tick <= u32::MAX
    }

    pub open spec fn just_finished(self) -> bool {
        self.times_finished_this_tick > 0
    }

    /// A timer that ignores the time handed to `tick`: a paused one, and a
    /// non-repeating one that has finished.
    pub open spec fn holds_still(self) -> bool {
        self.paused || (self.mode != TimerMode::Repeating && self.finished)
    }

    /// The timer after `Timer::reset`.
    pub open spec fn reset(self) -> TimerModel {
        TimerModel { elapsed: 0, finished: false, times_finished_this_tick: 0, ..self }
    }

    /// The timer after `Timer::set_duration`.
    pub open spec fn with_duration(self, duration: nat) -> TimerModel {
        TimerModel { duration, ..self }
    }

    /// The timer after `Timer::tick` with `delta` nanoseconds.
    pub open spec fn tick(self, delta: nat) -> TimerModel {
        let total = self.elapsed + delta;
        if self.paused {
            TimerModel {
                times_finished_this_tick: 0,
                finished: self.mode != TimerMode::Repeating && self.finished,
                ..self
            }
        } else if self.mode != TimerMode::Repeating && self.finished {
            TimerModel { times_finished_this_tick: 0, ..self }
        } else if total < self.duration {
            TimerModel { elapsed: total, finished: false, times_finished_this_tick: 0, ..self }
        } else if self.mode != TimerMode::Repeating {
            TimerModel {
                elapsed: self.duration,
                finished: true,
                times_finished_this_tick: 1,
                ..self
            }
        } else if self.duration == 0 {
            TimerModel {
                elapsed: 0,
                finished: true,
                times_finished_this_tick: u32::MAX as nat,
                ..self
            }
        } else {
            TimerModel {
                elapsed: (total % self.duration) % 0x1_0000_0000_0000_0000,
                finished: true,
                times_finished_this_tick: (total / self.duration) % 0x1_0000_0000,
                ..self
            }
        }
    }

    /// The time that `advance` lets through: all of `delta`, or what is left
    /// before the elapsed time would pass the longest duration.
    pub open spec fn admitted(self, delta: nat) -> nat {
        if self.elapsed + delta <= MAX_DURATION_NANOS {
            delta
        } else {
            (MAX_DURATION_NANOS - self.elapsed) as nat
        }
    }

    /// The timer after [`advance`] with `delta` nanoseconds.
    pub open spec fn advance(self, delta: nat) -> TimerModel {
        self.tick(self.admitted(delta))
    }
}

/// `Duration::as_nanos`: the whole length in nanoseconds, which names the duration's
/// length; it never exceeds that of `Duration::MAX`.
pub assume_specification[ Duration::as_nanos ](d: &Duration) -> (r: u128)
    ensures
        r == nanos(*d),
        r <= MAX_DURATION_NANOS,
;

/// `Duration::new`: whole seconds and a fraction below one second add up.
pub assume_specification[ Duration::new ](secs: u64, subsec_nanos: u32) -> (r: Duration)
    requires
        subsec_nanos < NANOS_PER_SEC,
    ensures
        nanos(r) == secs * NANOS_PER_SEC + subsec_nanos,
;

/// `Duration::from_millis`: a millisecond is a million nanoseconds.
pub assume_specification[ Duration::from_millis ](millis: u64) -> (r: Duration)
    ensures
        nanos(r) == millis * NANOS_PER_MILLI,
;

/// `Timer::new`: nothing elapsed, running, not finished.
pub assume_specification[ Timer::new ](duration: Duration, mode: TimerMode) -> (r: Timer)
    ensures
        timer_model(r) == TimerModel::fresh(nanos(duration), mode),
;

/// `Timer::finished` reads the flag that the last tick or reset left.
pub assume_specification[ Timer::finished ](timer: &Timer) -> (r: bool)
    ensures
        r == timer_model(*timer).finished,
;

/// `Timer::just_finished`: whether the last tick completed the timer at least once.
pub assume_specification[ Timer::just_finished ](timer: &Timer) -> (r: bool)
    ensures
        r == timer_model(*timer).just_finished(),
;

/// `Timer::elapsed`: the time ticked since the start or the last wrap.
pub assume_specification[ Timer::elapsed ](timer: &Timer) -> (r: Duration)
    ensures
        nanos(r) == timer_model(*timer).elapsed,
;

/// `Timer::duration`: the time after which the timer finishes.
pub assume_specification[ Timer::duration ](timer: &Timer) -> (r: Duration)
    ensures
        nanos(r) == timer_model(*timer).duration,
;

/// `Timer::set_duration` replaces the duration and touches nothing else.
pub assume_specification[ Timer::set_duration ](timer: &mut Timer, duration: Duration)
    ensures
        timer_model(*final(timer)) == timer_model(*old(timer)).with_duration(nanos(duration)),
;

/// `Timer::reset`: elapsed time back to zero, not finished; duration, mode and
/// pause stay.
pub assume_specification[ Timer::reset ](timer: &mut Timer)
    ensures
        timer_model(*final(timer)) == timer_model(*old(timer)).reset(),
;

/// `Timer::tick`. A paused timer and a finished non-repeating one only clear the
/// count of the last tick. Otherwise the elapsed time grows by `delta`; the addition
/// panics past `Duration::MAX`, which `requires` leaves out. A non-repeating timer
/// that reaches its duration stops there, finished once. A repeating one counts the
/// whole periods (cut to 32 bits) and keeps the remainder (cut to 64 bits); with a
/// zero duration it counts `u32::MAX` and keeps nothing.
pub assume_specification[ Timer::tick ](timer: &mut Timer, delta: Duration) -> (r: &Timer)
    requires
        !timer_model(*old(timer)).holds_still() ==> timer_model(*old(timer)).elapsed + nanos(
            delta,
        ) <= MAX_DURATION_NANOS,
    ensures
        timer_model(*final(timer)) == timer_model(*old(timer)).tick(nanos(delta)),
;

/// Ticks `timer` by `delta`, or by as much of it as fits before the elapsed time
/// would pass the longest duration: the timer saturates where a plain tick would
/// overflow.
pub fn advance(timer: &mut Timer, delta: Duration)
    ensures
        timer_model(*final(timer)) == timer_model(*old(timer)).advance(nanos(delta)),
{
    let elapsed: u128 = timer.elapsed().as_nanos();
    let room: u128 = MAX_DURATION_NANOS - elapsed;
    if delta.as_nanos() <= room {
        timer.tick(delta);
    } else {
        let secs: u128 = room / NANOS_PER_SEC;
        let subsec: u128 = room % NANOS_PER_SEC;
        let step = Duration::new(secs as u64, subsec as u32);
        timer.tick(step);
    }
}

} // verus!
