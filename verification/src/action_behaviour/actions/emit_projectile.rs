//! Spawning projectiles on request.

use vstd::prelude::*;

verus! {

/// The projectiles that an entity has asked for and that are not spawned yet, oldest
/// first.
pub struct EmitProjectile<T> {
    should_emit: Vec<T>,
}

impl<T> View for EmitProjectile<T> {
    type V = Seq<T>;

    closed spec fn view(&self) -> Seq<T> {
        self.should_emit@
    }
}

impl<T> Default for EmitProjectile<T> {
    fn default() -> (action: Self)
        ensures
            action@.len() == 0,
    {
        EmitProjectile { should_emit: Vec::new() }
    }
}

impl<T> EmitProjectile<T> {
    /// Asks for `projectile` to be spawned in the next fixed step.
    pub fn emit(&mut self, projectile: T)
        ensures
            final(self)@ == old(self)@.push(projectile),
    {
        self.should_emit.push(projectile);
    }
}

/// Hands out the projectiles that `action` asked for, in the order of asking, and
/// leaves it with none: each is spawned once.
pub fn apply_emit_projectile<T>(action: &mut EmitProjectile<T>) -> (spawn: Vec<T>)
    ensures
        spawn@ == old(action)@,
        final(action)@.len() == 0,
{
    let mut spawn: Vec<T> = Vec::new();
    spawn.append(&mut action.should_emit);
    spawn
}

} // verus!
