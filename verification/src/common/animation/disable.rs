//! Finish logic that puts its own animation to rest.

use crate::common::animation::Animation;
use vstd::prelude::*;

verus! {

/// The finish logic of an animation that is to run once and then wait, disabled,
/// until it is enabled again.
pub struct Disable;

impl Disable {
    /// Disables `animation`, which has just finished.
    pub fn run(animation: &mut Animation)
        ensures
            final(animation)@ == old(animation)@.disable(),
    {
        animation.disable();
    }
}

} // verus!
