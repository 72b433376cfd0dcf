//! Behaviours decide, actions do. Within a fixed simulation step every behaviour has
//! set its intent before any action reads it.

use crate::GameState;
use vstd::prelude::*;

pub mod actions;
pub mod behaviours;

verus! {

/// A component that computes intent. Its systems run in the [`BehaviourSet`].
pub trait Behaviour<S> {
    fn systems() -> S;
}

/// A component that applies intent to the world. Its systems run in the
/// [`ActionSet`].
pub trait Action<S> {
    fn systems() -> S;
}

/// The label of the systems that compute intent.
#[derive(Debug, Clone, Copy, PartialEq, Eq, Hash)]
pub struct BehaviourSet;

/// The label of the systems that apply intent.
#[derive(Debug, Clone, Copy, PartialEq, Eq, Hash)]
pub struct ActionSet;

/// The systems of a fixed simulation step, by set, each set in the order of
/// registration.
pub struct ActionBehaviourSchedule<S> {
    pub behaviours: Vec<S>,
    pub actions: Vec<S>,
}

pub trait ActionBehaviourApp<S>: Sized {
    fn register_behaviour<B: Behaviour<S>>(&mut self) -> &mut Self;

    fn register_action<A: Action<S>>(&mut self) -> &mut Self;
}

impl<S> ActionBehaviourSchedule<S> {
    pub fn new() -> (schedule: Self)
        ensures
            schedule.behaviours@.len() == 0,
            schedule.actions@.len() == 0,
    {
        ActionBehaviourSchedule { behaviours: Vec::new(), actions: Vec::new() }
    }

    /// Puts `systems` last in the behaviour set.
    pub fn add_behaviour(&mut self, systems: S)
        ensures
            final(self).behaviours@ == old(self).behaviours@.push(systems),
            final(self).actions@ == old(self).actions@,
    {
        self.behaviours.push(systems);
    }

    /// Puts `systems` last in the action set.
    pub fn add_action(&mut self, systems: S)
        ensures
            final(self).actions@ == old(self).actions@.push(systems),
            final(self).behaviours@ == old(self).behaviours@,
    {
        self.actions.push(systems);
    }

    /// The systems in the order in which one fixed step runs them: while the game is
    /// being played, all behaviours, then all actions; on any other screen, none.
    pub fn into_fixed_step(self, state: GameState) -> (order: Vec<S>)
        ensures
            order@ == fixed_step_order(self.behaviours@, self.actions@, state),
    {
        let ActionBehaviourSchedule { behaviours, actions } = self;
        match state {
            GameState::Playing => {
                let mut order = behaviours;
                let mut actions = actions;
                order.append(&mut actions);
                order
            },
            GameState::Menu => Vec::new(),
        }
    }
}

impl<S> ActionBehaviourApp<S> for ActionBehaviourSchedule<S> {
    /// Puts what `B::systems` returns last in the behaviour set.
    #[inline]
    fn register_behaviour<B: Behaviour<S>>(&mut self) -> (app: &mut Self)
        ensures
            exists|systems: S|
                call_ensures(B::systems, (), systems) && app.behaviours@ == old(
                    self,
                ).behaviours@.push(systems),
            app.actions@ == old(self).actions@,
            *final(self) == *final(app),
    {
        self.add_behaviour(B::systems());
        self
    }

    /// Puts what `A::systems` returns last in the action set.
    #[inline]
    fn register_action<A: Action<S>>(&mut self) -> (app: &mut Self)
        ensures
            exists|systems: S|
                call_ensures(A::systems, (), systems) && app.actions@ == old(self).actions@.push(
                    systems,
                ),
            app.behaviours@ == old(self).behaviours@,
            *final(self) == *final(app),
    {
        self.add_action(A::systems());
        self
    }
}

/// The order of a fixed step over the given sets.
pub open spec fn fixed_step_order<S>(behaviours: Seq<S>, actions: Seq<S>, state: GameState) -> Seq<
    S,
> {
    if state == GameState::Playing {
        behaviours + actions
    } else {
        Seq::empty()
    }
}

/// The world after `systems` have run on it one after the other, where `run` says
/// what a system makes of a world.
pub open spec fn run_all<S, W>(systems: Seq<S>, run: spec_fn(S, W) -> W, world: W) -> W
    decreases systems.len(),
{
    if systems.len() == 0 {
        world
    } else {
        run_all(systems.skip(1), run, run(systems[0], world))
    }
}

/// Running two runs of systems back to back is running the second on what the first
/// leaves.
pub proof fn lemma_run_all_splits<S, W>(
    first: Seq<S>,
    second: Seq<S>,
    run: spec_fn(S, W) -> W,
    world: W,
)
    ensures
        run_all(first + second, run, world) == run_all(second, run, run_all(first, run, world)),
    decreases first.len(),
{
    if first.len() == 0 {
        assert(first + second =~= second);
    } else {
        assert((first + second).skip(1) =~= first.skip(1) + second);
        lemma_run_all_splits(first.skip(1), second, run, run(first[0], world));
    }
}

/// In a fixed step no behaviour runs after an action: every behaviour stands before
/// every action in the order, whatever the order within each set.
pub proof fn lemma_behaviours_before_actions<S>(behaviours: Seq<S>, actions: Seq<S>)
    ensures
        ({
            let order = fixed_step_order(behaviours, actions, GameState::Playing);
            &&& order.len() == behaviours.len() + actions.len()
            &&& forall|i: int| 0 <= i < behaviours.len() ==> order[i] == behaviours[i]
            &&& forall|j: int|
                0 <= j < actions.len() ==> order[behaviours.len() + j] == actions[j]
        }),
{
}

/// An action sees the intent of its own step. Where every behaviour of the step
/// sets the intent to `x`, and every action leaves the intent alone and writes
/// `f` of the intent it finds as the effect, the effect after one step of the game
/// is `f(x)`, whatever intent the step began with.
pub proof fn lemma_action_applies_fresh_intent<S, W, I, E>(
    behaviours: Seq<S>,
    actions: Seq<S>,
    run: spec_fn(S, W) -> W,
    intent: spec_fn(W) -> I,
    effect: spec_fn(W) -> E,
    f: spec_fn(I) -> E,
    x: I,
    world: W,
)
    requires
        behaviours.len() > 0,
        actions.len() > 0,
        forall|i: int, w: W|
            0 <= i < behaviours.len() ==> intent(#[trigger] run(behaviours[i], w)) == x,
        forall|j: int, w: W|
            0 <= j < actions.len() ==> intent(#[trigger] run(actions[j], w)) == intent(w)
                && effect(run(actions[j], w)) == f(intent(w)),
    ensures
        effect(
            run_all(fixed_step_order(behaviours, actions, GameState::Playing), run, world),
        ) == f(x),
{
    lemma_run_all_splits(behaviours, actions, run, world);
    let decided = run_all(behaviours, run, world);
    lemma_behaviours_decide(behaviours, run, intent, x, world);
    lemma_actions_apply(actions, run, intent, effect, f, decided);
}

/// After a run of behaviours that each set the intent to `x`, the intent is `x`.
proof fn lemma_behaviours_decide<S, W, I>(
    behaviours: Seq<S>,
    run: spec_fn(S, W) -> W,
    intent: spec_fn(W) -> I,
    x: I,
    world: W,
)
    requires
        behaviours.len() > 0,
        forall|i: int, w: W|
            0 <= i < behaviours.len() ==> intent(#[trigger] run(behaviours[i], w)) == x,
    ensures
        intent(run_all(behaviours, run, world)) == x,
    decreases behaviours.len(),
{
    let rest = behaviours.skip(1);
    let next = run(behaviours[0], world);
    if rest.len() == 0 {
        assert(run_all(rest, run, next) == next);
    } else {
        assert forall|i: int, w: W| 0 <= i < rest.len() implies intent(
            #[trigger] run(rest[i], w),
        ) == x by {
            assert(rest[i] == behaviours[i + 1]);
        }
        lemma_behaviours_decide(rest, run, intent, x, next);
    }
}

/// After a run of actions that each keep the intent and write `f` of it as the
/// effect, the effect is `f` of the intent that the run began with.
proof fn lemma_actions_apply<S, W, I, E>(
    actions: Seq<S>,
    run: spec_fn(S, W) -> W,
    intent: spec_fn(W) -> I,
    effect: spec_fn(W) -> E,
    f: spec_fn(I) -> E,
    world: W,
)
    requires
        actions.len() > 0,
        forall|j: int, w: W|
            0 <= j < actions.len() ==> intent(#[trigger] run(actions[j], w)) == intent(w)
                && effect(run(actions[j], w)) == f(intent(w)),
    ensures
        effect(run_all(actions, run, world)) == f(intent(world)),
        intent(run_all(actions, run, world)) == intent(world),
    decreases actions.len(),
{
    let rest = actions.skip(1);
    let next = run(actions[0], world);
    if rest.len() == 0 {
        assert(run_all(rest, run, next) == next);
    } else {
        assert forall|j: int, w: W| 0 <= j < rest.len() implies intent(
            #[trigger] run(rest[j], w),
        ) == intent(w) && effect(run(rest[j], w)) == f(intent(w)) by {
            assert(rest[j] == actions[j + 1]);
        }
        lemma_actions_apply(rest, run, intent, effect, f, next);
    }
}

} // verus!
