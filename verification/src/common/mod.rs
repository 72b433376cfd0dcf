//! Components shared by every actor: animations, periodic triggers and colliders.

use crate::common::animation::Animation;
use crate::common::animation::AnimationModel;
use crate::timer::nanos;
use crate::timer::TimerModel;
use bevy::time::Timer;
use bevy::time::TimerMode;
use std::time::Duration;
use vstd::prelude::*;

pub mod animation;
pub mod colliders;
pub mod run_on_timer;

verus! {

/// The animation of an entity that fades for `lifetime` and is then taken away: it
/// runs from the start, once.
#[inline]
pub fn fade_away(lifetime: Duration) -> (animation: Animation)
    ensures
        animation@ == (AnimationModel {
            disabled: false,
            timer: TimerModel::fresh(nanos(lifetime), TimerMode::Once),
        }),
{
    Animation::new(Timer::new(lifetime, TimerMode::Once))
}

} // verus!
