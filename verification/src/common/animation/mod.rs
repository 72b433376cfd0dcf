//! The two-phase animation: a countdown that reports its progress on every active
//! frame and its completion once.
//!
//! An animation is one entity's state. A frame runs three steps over it, in this
//! order: [`tick_system_animation`] decides whether the tick logic runs and with
//! which progress, [`tick_animation`] advances the countdown, and
//! [`animation_finished`] decides whether the finish logic runs. [`Animation::frame`]
//! is the three together.

use crate::dynamic_initialization::ScheduleToAddSystems;
use crate::timer::advance;
use crate::timer::nanos;
use crate::timer::timer_model;
use crate::timer::total;
use crate::timer::MAX_DURATION_NANOS;
use crate::timer::TimerModel;
use bevy::time::Timer;
use bevy::time::TimerMode;
use std::time::Duration;
use vstd::prelude::*;

pub mod disable;

verus! {

/// How far a countdown has come: `elapsed` of `duration`, both in nanoseconds.
/// A zero duration reads as complete.
#[derive(Clone, Copy, Debug, PartialEq, Eq, Structural)]
pub struct Progress {
    pub elapsed: u128,
    pub duration: u128,
}

/// What one frame asks of an animation's two pieces of logic.
#[derive(Clone, Copy, Debug, PartialEq, Eq, Structural)]
pub struct FrameEvents {
    /// The input of the tick logic, where it runs this frame.
    pub tick: Option<Progress>,
    /// Whether the finish logic runs this frame.
    pub finished: bool,
}

/// The three steps that a frame runs over every animation.
#[derive(Clone, Copy, Debug, PartialEq, Eq, Structural)]
pub enum AnimationSystem {
    /// [`tick_system_animation`] and the tick logic.
    TickLogic,
    /// [`tick_animation`].
    Countdown,
    /// [`animation_finished`] and the finish logic.
    FinishLogic,
}

pub struct Animation {
    disabled: bool,
    timer: Timer,
}

/// An animation as contracts see it.
pub struct AnimationModel {
    pub disabled: bool,
    pub timer: TimerModel,
}

impl AnimationModel {
    pub open spec fn disable(self) -> AnimationModel {
        AnimationModel { disabled: true, ..self }
    }

    pub open spec fn enable(self) -> AnimationModel {
        AnimationModel { disabled: false, timer: self.timer.reset() }
    }

    /// The state after the countdown step of a frame of `delta` nanoseconds.
    pub open spec fn advance(self, delta: nat) -> AnimationModel {
        if self.disabled {
            self
        } else {
            AnimationModel { timer: self.timer.advance(delta), ..self }
        }
    }

    /// Whether the tick logic runs on this state.
    pub open spec fn ticks(self) -> bool {
        !self.disabled
    }

    /// Whether the finish logic runs on this state.
    pub open spec fn finishes(self) -> bool {
        !self.disabled && self.timer.just_finished()
    }

    /// The state after the frames `deltas`, first to last, with nobody enabling or
    /// disabling in between.
    pub open spec fn after_frames(self, deltas: Seq<nat>) -> AnimationModel
        decreases deltas.len(),
    {
        if deltas.len() == 0 {
            self
        } else {
            self.advance(deltas[0]).after_frames(deltas.skip(1))
        }
    }

    /// In how many of the frames `deltas` the tick logic runs.
    pub open spec fn tick_count(self, deltas: Seq<nat>) -> nat
        decreases deltas.len(),
    {
        if deltas.len() == 0 {
            0
        } else {
            (if self.ticks() {
                1nat
            } else {
                0nat
            }) + self.advance(deltas[0]).tick_count(deltas.skip(1))
        }
    }

    /// In how many of the frames `deltas` the finish logic runs.
    pub open spec fn finish_count(self, deltas: Seq<nat>) -> nat
        decreases deltas.len(),
    {
        if deltas.len() == 0 {
            0
        } else {
            (if self.advance(deltas[0]).finishes() {
                1nat
            } else {
                0nat
            }) + self.advance(deltas[0]).finish_count(deltas.skip(1))
        }
    }
}

/// A disabled animation is frozen: over any frames its state stays what it was,
/// elapsed time included, and neither the tick logic nor the finish logic runs.
pub proof fn lemma_disabled_is_frozen(animation: AnimationModel, deltas: Seq<nat>)
    requires
        animation.disabled,
    ensures
        animation.after_frames(deltas) == animation,
        animation.tick_count(deltas) == 0,
        animation.finish_count(deltas) == 0,
    decreases deltas.len(),
{
    if deltas.len() > 0 {
        lemma_disabled_is_frozen(animation, deltas.skip(1));
    }
}

/// Disabling freezes the ramp where it is: over any frames after `disable` the
/// elapsed time stays what it was when the animation was disabled, and neither the
/// tick logic nor the finish logic runs.
pub proof fn lemma_disable_freezes(animation: AnimationModel, deltas: Seq<nat>)
    ensures
        animation.disable().after_frames(deltas) == animation.disable(),
        animation.disable().after_frames(deltas).timer.elapsed == animation.timer.elapsed,
        animation.disable().tick_count(deltas) == 0,
        animation.disable().finish_count(deltas) == 0,
{
    lemma_disabled_is_frozen(animation.disable(), deltas);
}

/// Enabling restarts the ramp: whatever the animation was, disabled mid-way or not,
/// its elapsed time is zero afterwards, the next frame's tick logic runs on that
/// zero, and the finish logic does not run until a later tick completes the
/// countdown.
pub proof fn lemma_enable_restarts(animation: AnimationModel)
    ensures
        animation.disable().enable() == animation.enable(),
        animation.enable().ticks(),
        animation.enable().timer.elapsed == 0,
        animation.enable().timer.duration == animation.timer.duration,
        !animation.enable().finishes(),
{
}

/// A fresh enabled animation that has been advanced by less than its duration has
/// elapsed exactly that much: half the duration gives a progress of one half.
pub proof fn lemma_progress_follows_time(duration: nat, mode: TimerMode, delta: nat)
    requires
        delta < duration <= MAX_DURATION_NANOS,
    ensures
        ({
            let animation = AnimationModel {
                disabled: false,
                timer: TimerModel::fresh(duration, mode),
            };
            &&& animation.advance(delta).ticks()
            &&& animation.advance(delta).timer.elapsed == delta
            &&& animation.advance(delta).timer.duration == duration
            &&& !animation.advance(delta).finishes()
            &&& 2 * delta == duration ==> 2 * animation.advance(delta).timer.elapsed
                == animation.advance(delta).timer.duration
        }),
{
}

/// The progress of a non-repeating animation never passes one: if the elapsed time
/// is within the duration, it stays within it over any frames, however long.
pub proof fn lemma_progress_stays_within_one(animation: AnimationModel, deltas: Seq<nat>)
    requires
        animation.timer.wf(),
        animation.timer.mode != TimerMode::Repeating,
        animation.timer.elapsed <= animation.timer.duration,
    ensures
        animation.after_frames(deltas).timer.elapsed <= animation.timer.duration,
        animation.after_frames(deltas).timer.duration == animation.timer.duration,
    decreases deltas.len(),
{
    if deltas.len() > 0 {
        lemma_progress_stays_within_one(animation.advance(deltas[0]), deltas.skip(1));
    }
}

/// Once a non-repeating countdown has finished, the finish logic stays silent over
/// any further frames.
pub proof fn lemma_finished_stays_silent(animation: AnimationModel, deltas: Seq<nat>)
    requires
        animation.timer.mode != TimerMode::Repeating,
        animation.timer.finished,
    ensures
        animation.finish_count(deltas) == 0,
    decreases deltas.len(),
{
    if deltas.len() > 0 {
        lemma_finished_stays_silent(animation.advance(deltas[0]), deltas.skip(1));
    }
}

/// The finish logic of an enabled, running, non-repeating animation runs in exactly
/// one frame, the one whose tick brings the elapsed time to the duration, and in no
/// frame if the frames together fall short of it. A single frame that covers the
/// duration many times over still counts once.
pub proof fn lemma_finishes_exactly_once(animation: AnimationModel, deltas: Seq<nat>)
    requires
        animation.timer.wf(),
        !animation.disabled,
        !animation.timer.paused,
        !animation.timer.finished,
        animation.timer.mode != TimerMode::Repeating,
    ensures
        animation.finish_count(deltas) == (if deltas.len() > 0 && animation.timer.elapsed + total(
            deltas,
        ) >= animation.timer.duration {
            1nat
        } else {
            0nat
        }),
    decreases deltas.len(),
{
    if deltas.len() > 0 {
        let next = animation.advance(deltas[0]);
        let rest = deltas.skip(1);
        if next.timer.finished {
            lemma_finished_stays_silent(next, rest);
        } else {
            lemma_finishes_exactly_once(next, rest);
            if rest.len() == 0 {
                assert(total(rest) == 0);
            }
        }
    }
}

/// Whatever state a non-repeating animation is in, its finish logic runs in at most
/// one of any run of frames.
pub proof fn lemma_finishes_at_most_once(animation: AnimationModel, deltas: Seq<nat>)
    requires
        animation.timer.wf(),
        animation.timer.mode != TimerMode::Repeating,
    ensures
        animation.finish_count(deltas) <= 1,
    decreases deltas.len(),
{
    if animation.disabled {
        lemma_disabled_is_frozen(animation, deltas);
    } else if animation.timer.finished {
        lemma_finished_stays_silent(animation, deltas);
    } else if animation.timer.paused {
        if deltas.len() > 0 {
            lemma_finishes_at_most_once(animation.advance(deltas[0]), deltas.skip(1));
        }
    } else {
        lemma_finishes_exactly_once(animation, deltas);
    }
}

impl View for Animation {
    type V = AnimationModel;

    closed spec fn view(&self) -> AnimationModel {
        AnimationModel { disabled: self.disabled, timer: timer_model(self.timer) }
    }
}

impl Animation {
    /// An enabled animation over `timer`.
    pub fn new(timer: Timer) -> (animation: Self)
        ensures
            animation@ == (AnimationModel { disabled: false, timer: timer_model(timer) }),
    {
        Self { disabled: false, timer }
    }

    /// An animation over `timer` that stays still until it is enabled.
    pub fn new_disabled(timer: Timer) -> (animation: Self)
        ensures
            animation@ == (AnimationModel { disabled: true, timer: timer_model(timer) }),
    {
        Self { disabled: true, timer }
    }

    /// Freezes the countdown and silences both pieces of logic.
    #[inline]
    pub fn disable(&mut self)
        ensures
            final(self)@ == old(self)@.disable(),
    {
        self.disabled = true;
    }

    /// Restarts the countdown from zero and lets the logic run again.
    #[inline]
    pub fn enable(&mut self)
        ensures
            final(self)@ == old(self)@.enable(),
    {
        self.disabled = false;
        self.timer.reset();
    }

    /// The schedule that animations run in, and their steps in the order in which
    /// each frame chains them.
    pub fn systems() -> (systems: (ScheduleToAddSystems, [AnimationSystem; 3]))
        ensures
            systems.0 == ScheduleToAddSystems::Update,
            systems.1@ == seq![
                AnimationSystem::TickLogic,
                AnimationSystem::Countdown,
                AnimationSystem::FinishLogic,
            ],
    {
        (
            ScheduleToAddSystems::Update,
            [AnimationSystem::TickLogic, AnimationSystem::Countdown, AnimationSystem::FinishLogic],
        )
    }

    pub fn is_disabled(&self) -> (disabled: bool)
        ensures
            disabled == self@.disabled,
    {
        self.disabled
    }

    /// The countdown, for those who need it in another unit than nanoseconds.
    pub fn timer(&self) -> (timer: &Timer)
        ensures
            timer_model(*timer) == self@.timer,
    {
        &self.timer
    }

    /// One whole frame of `delta`: the tick decision on the state as the frame
    /// finds it, the countdown, then the finish decision on the state it leaves.
    pub fn frame(&mut self, delta: Duration) -> (events: FrameEvents)
        ensures
            final(self)@ == old(self)@.advance(nanos(delta)),
            events.tick is Some <==> old(self)@.ticks(),
            events.tick matches Some(progress) ==> progress.elapsed == old(self)@.timer.elapsed
                && progress.duration == old(self)@.timer.duration,
            events.finished == final(self)@.finishes(),
    {
        let tick = tick_system_animation(self);
        tick_animation(self, delta);
        let finished = animation_finished(self);
        FrameEvents { tick, finished }
    }
}

/// The countdown step: an enabled animation advances by `delta`, saturating; a
/// disabled one keeps its state.
pub fn tick_animation(animation: &mut Animation, delta: Duration)
    ensures
        final(animation)@ == old(animation)@.advance(nanos(delta)),
{
    if !animation.disabled {
        advance(&mut animation.timer, delta);
    }
}

/// The tick decision: an enabled animation runs its tick logic with the current
/// progress; a disabled one does not run it.
pub fn tick_system_animation(animation: &Animation) -> (input: Option<Progress>)
    ensures
        input is Some <==> animation@.ticks(),
        input matches Some(progress) ==> progress.elapsed == animation@.timer.elapsed
            && progress.duration == animation@.timer.duration,
{
    if !animation.disabled {
        Some(
            Progress {
                elapsed: animation.timer.elapsed().as_nanos(),
                duration: animation.timer.duration().as_nanos(),
            },
        )
    } else {
        None
    }
}

/// The finish decision: the finish logic runs where the last tick completed the
/// countdown of an enabled animation. It looks once, however many times the
/// countdown completed within that tick.
pub fn animation_finished(animation: &Animation) -> (fires: bool)
    ensures
        fires == animation@.finishes(),
{
    !animation.disabled && animation.timer.just_finished()
}

} // verus!
