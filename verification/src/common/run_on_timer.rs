//! The periodic trigger: logic that runs each time a repeating countdown completes.

use crate::timer::advance;
use crate::timer::nanos;
use crate::timer::timer_model;
use crate::timer::total;
use crate::timer::TimerModel;
use bevy::time::Timer;
use bevy::time::TimerMode;
use std::time::Duration;
use vstd::arithmetic::div_mod::lemma_basic_div;
use vstd::arithmetic::div_mod::lemma_fundamental_div_mod;
use vstd::arithmetic::div_mod::lemma_hoist_over_denominator;
use vstd::arithmetic::div_mod::lemma_small_mod;
use vstd::prelude::*;

verus! {

pub struct RunOnTimer {
    pub timer: Timer,
}

impl RunOnTimer {
    #[inline]
    pub fn new(timer: Timer) -> (run_on_timer: Self)
        ensures
            timer_model(run_on_timer.timer) == timer_model(timer),
    {
        Self { timer }
    }
}

/// One frame of a trigger. The logic fires where the previous tick completed the
/// countdown; only then does the countdown advance by this frame's `delta`. Looking
/// before advancing is what makes the first period count.
pub fn tick_run_on_timer(run_on_timer: &mut RunOnTimer, delta: Duration) -> (fires: bool)
    ensures
        fires == timer_model(old(run_on_timer).timer).just_finished(),
        timer_model(final(run_on_timer).timer) == timer_model(old(run_on_timer).timer).advance(
            nanos(delta),
        ),
{
    let fires = run_on_timer.timer.just_finished();
    advance(&mut run_on_timer.timer, delta);
    fires
}

/// The countdown of a trigger after the frames `deltas`, first to last.
pub open spec fn after_frames(timer: TimerModel, deltas: Seq<nat>) -> TimerModel
    decreases deltas.len(),
{
    if deltas.len() == 0 {
        timer
    } else {
        after_frames(timer.advance(deltas[0]), deltas.skip(1))
    }
}

/// In how many of the frames `deltas` the trigger fires.
pub open spec fn fire_count(timer: TimerModel, deltas: Seq<nat>) -> nat
    decreases deltas.len(),
{
    if deltas.len() == 0 {
        0
    } else {
        owed(timer) + fire_count(timer.advance(deltas[0]), deltas.skip(1))
    }
}

/// The firing that a countdown owes to the next frame: one if its last tick
/// completed it, none otherwise.
pub open spec fn owed(timer: TimerModel) -> nat {
    if timer.just_finished() {
        1
    } else {
        0
    }
}

/// Over frames no longer than the period, a repeating trigger fires once for each
/// whole period of elapsed time, no more and no fewer. The firing for a period comes
/// on the frame after the one that completed it, so what has fired and what is still
/// owed together make the number of whole periods, and the countdown holds the
/// remainder.
///
/// The period is positive and at most `u64::MAX` nanoseconds: what a repeating timer
/// keeps of its elapsed time is cut to 64 bits.
pub proof fn lemma_fires_once_per_period(timer: TimerModel, deltas: Seq<nat>)
    requires
        timer.mode == TimerMode::Repeating,
        !timer.paused,
        0 < timer.duration <= u64::MAX,
        timer.elapsed < timer.duration,
        forall|i: int| 0 <= i < deltas.len() ==> deltas[i] <= timer.duration,
    ensures
        fire_count(timer, deltas) + owed(after_frames(timer, deltas)) == owed(timer) + (
        timer.elapsed + total(deltas)) / timer.duration,
        after_frames(timer, deltas).elapsed == (timer.elapsed + total(deltas)) % timer.duration,
    decreases deltas.len(),
{
    let period = timer.duration as int;
    if deltas.len() == 0 {
        lemma_basic_div(timer.elapsed as int, period);
        lemma_small_mod(timer.elapsed, timer.duration);
    } else {
        let reached = (timer.elapsed + deltas[0]) as int;
        let next = timer.advance(deltas[0]);
        let rest = deltas.skip(1);
        assert(timer.admitted(deltas[0]) == deltas[0]);
        lemma_fundamental_div_mod(reached, period);
        if reached < period {
            lemma_basic_div(reached, period);
            lemma_small_mod(reached as nat, timer.duration);
        } else {
            assert(reached / period == 1 && reached % period == reached - period) by {
                lemma_basic_div(reached - period, period);
                lemma_small_mod((reached - period) as nat, timer.duration);
                lemma_hoist_over_denominator(reached - period, 1, timer.duration);
                vstd::arithmetic::div_mod::lemma_mod_multiples_vanish(1, reached - period, period);
            }
        }
        assert(next.elapsed == reached % period);
        assert(owed(next) == reached / period);
        assert forall|i: int| 0 <= i < rest.len() implies rest[i] <= next.duration by {
            assert(rest[i] == deltas[i + 1]);
        }
        lemma_fires_once_per_period(next, rest);
        let carried = (next.elapsed + total(rest)) as int;
        assert(timer.elapsed + total(deltas) == period * (reached / period) + carried);
        lemma_hoist_over_denominator(carried, reached / period, timer.duration);
        vstd::arithmetic::div_mod::lemma_mod_multiples_vanish(reached / period, carried, period);
        assert((reached / period) * period == period * (reached / period)) by (nonlinear_arith);
    }
}

/// A trigger made with a fresh repeating countdown of `period`, run over frames no
/// longer than the period, has fired, or owes to the next frame, one firing for each
/// whole period of the time elapsed so far.
pub proof fn lemma_fresh_trigger_fires_once_per_period(period: nat, deltas: Seq<nat>)
    requires
        0 < period <= u64::MAX,
        forall|i: int| 0 <= i < deltas.len() ==> deltas[i] <= period,
    ensures
        ({
            let timer = TimerModel::fresh(period, TimerMode::Repeating);
            fire_count(timer, deltas) + owed(after_frames(timer, deltas)) == total(deltas) / period
        }),
{
    lemma_fires_once_per_period(TimerModel::fresh(period, TimerMode::Repeating), deltas);
}

/// With one more frame, what was owed has fired: the firings over `deltas` and a
/// further frame are those over `deltas` and the one that the countdown owed after
/// them.
pub proof fn lemma_next_frame_fires_what_is_owed(timer: TimerModel, deltas: Seq<nat>, next: nat)
    ensures
        fire_count(timer, deltas.push(next)) == fire_count(timer, deltas) + owed(
            after_frames(timer, deltas),
        ),
    decreases deltas.len(),
{
    let longer = deltas.push(next);
    assert(fire_count(timer, longer) == owed(timer) + fire_count(
        timer.advance(longer[0]),
        longer.skip(1),
    ));
    if deltas.len() == 0 {
        assert(fire_count(timer.advance(longer[0]), longer.skip(1)) == 0);
    } else {
        assert(longer[0] == deltas[0]);
        assert(longer.skip(1) =~= deltas.skip(1).push(next));
        lemma_next_frame_fires_what_is_owed(timer.advance(deltas[0]), deltas.skip(1), next);
    }
}

/// No period is skipped and none is counted twice. After any frames no longer than
/// the period, a fresh repeating trigger has fired at most once for each whole
/// period of the time elapsed, and by the end of the next frame, whatever its
/// length, it has fired exactly once for each of them.
///
/// The period is at most `u64::MAX` nanoseconds: past that the timer cuts what it
/// keeps of its elapsed time, and periods are lost.
pub proof fn lemma_period_fires_by_next_frame(period: nat, deltas: Seq<nat>, next: nat)
    requires
        0 < period <= u64::MAX,
        forall|i: int| 0 <= i < deltas.len() ==> deltas[i] <= period,
    ensures
        ({
            let timer = TimerModel::fresh(period, TimerMode::Repeating);
            &&& fire_count(timer, deltas) <= total(deltas) / period
            &&& fire_count(timer, deltas.push(next)) == total(deltas) / period
        }),
{
    let timer = TimerModel::fresh(period, TimerMode::Repeating);
    lemma_fires_once_per_period(timer, deltas);
    lemma_next_frame_fires_what_is_owed(timer, deltas, next);
}

} // verus!
