//! Once-only registration of systems for types that are first seen at run time.
//!
//! A generic component cannot list its instantiations ahead of time. Instead, the
//! first time an instantiation is attached to an entity, its identity is claimed in
//! the [`DynamicInitializationRegistry`], its systems are described once and queued
//! in [`PendingSystems`], and at the end of the frame the queues are spliced into the
//! schedules. The systems therefore run from the next frame on.

use bevy::utils::hashbrown::hash_set::Entry;
use bevy::utils::hashbrown::HashSet;
use bevy::utils::NoOpHash;
use std::any::TypeId;
use vstd::prelude::*;

verus! {

#[verifier::external_type_specification]
#[verifier::external_body]
pub struct ExTypeId(TypeId);

/// Used to store which types were dynamically initialized.
///
/// It holds a `hashbrown` set of type identities, which the verifier does not look
/// into: contracts speak of what it holds through [`registered`].
#[verifier::external_body]
pub struct DynamicInitializationRegistry {
    registry: HashSet<TypeId, NoOpHash>,
}

/// The identities that a registry holds.
pub uninterp spec fn registered(registry: DynamicInitializationRegistry) -> Set<TypeId>;

/// The schedule that a type's systems are to join.
#[derive(Clone, Copy, Debug, PartialEq, Eq, Structural)]
pub enum ScheduleToAddSystems {
    Update,
    FixedUpdate,
}

/// Systems waiting to join the schedule of every visual frame.
pub struct AddSystemsToUpdate<S>(pub S);

/// Systems waiting to join the schedule of every fixed simulation step.
pub struct AddSystemsToFixedUpdate<S>(pub S);

/// The two queues of described systems, in the order in which they were sent.
pub struct PendingSystems<S> {
    pub to_update: Vec<AddSystemsToUpdate<S>>,
    pub to_fixed_update: Vec<AddSystemsToFixedUpdate<S>>,
}

/// The queues as contracts see them.
pub struct PendingModel<S> {
    pub to_update: Seq<S>,
    pub to_fixed_update: Seq<S>,
}

impl<S> PendingModel<S> {
    /// The queues after `description` has been sent.
    pub open spec fn send(self, description: (ScheduleToAddSystems, S)) -> PendingModel<S> {
        match description.0 {
            ScheduleToAddSystems::Update => PendingModel {
                to_update: self.to_update.push(description.1),
                ..self
            },
            ScheduleToAddSystems::FixedUpdate => PendingModel {
                to_fixed_update: self.to_fixed_update.push(description.1),
                ..self
            },
        }
    }
}

impl<S> View for PendingSystems<S> {
    type V = PendingModel<S>;

    open spec fn view(&self) -> PendingModel<S> {
        PendingModel {
            to_update: self.to_update@.map_values(|e: AddSystemsToUpdate<S>| e.0),
            to_fixed_update: self.to_fixed_update@.map_values(|e: AddSystemsToFixedUpdate<S>| e.0),
        }
    }
}

impl<S> PendingSystems<S> {
    pub fn new() -> (pending: Self)
        ensures
            pending@.to_update.len() == 0,
            pending@.to_fixed_update.len() == 0,
    {
        PendingSystems { to_update: Vec::new(), to_fixed_update: Vec::new() }
    }

    /// Queues `description` for the schedule that it names.
    pub fn send(&mut self, description: (ScheduleToAddSystems, S))
        ensures
            final(self)@ == old(self)@.send(description),
    {
        let (schedule, systems) = description;
        match schedule {
            ScheduleToAddSystems::Update => {
                self.to_update.push(AddSystemsToUpdate(systems));
                assert(self@.to_update =~= old(self)@.to_update.push(systems));
            },
            ScheduleToAddSystems::FixedUpdate => {
                self.to_fixed_update.push(AddSystemsToFixedUpdate(systems));
                assert(self@.to_fixed_update =~= old(self)@.to_fixed_update.push(systems));
            },
        }
    }
}

/// A type that is set up the first time one of its values is attached to an entity.
///
/// Usually this is a generic component that cannot know ahead of time which of its
/// instantiations the game uses.
pub trait DynamicallyInitialized<S> {
    /// What the set-up of the type makes of the queues: whether it may turn
    /// `before` into `after`. A type that says nothing may do anything with them.
    open spec fn sets_up(before: PendingModel<S>, after: PendingModel<S>) -> bool {
        true
    }

    fn initialize(pending: &mut PendingSystems<S>)
        ensures
            Self::sets_up(old(pending)@, final(pending)@),
    ;
}

/// A type whose set-up is to add systems to a schedule.
pub trait DynamicallyInitializedSystems<S> {
    fn systems() -> (ScheduleToAddSystems, S);
}

impl<S, T: DynamicallyInitializedSystems<S>> DynamicallyInitialized<S> for T {
    /// The set-up sends what `systems` returns, and nothing else: the description
    /// joins the queue of the schedule that it names, and the other queue stays.
    open spec fn sets_up(before: PendingModel<S>, after: PendingModel<S>) -> bool {
        exists|description: (ScheduleToAddSystems, S)|
            call_ensures(T::systems, (), description) && after == before.send(description)
    }

    /// Describes the systems of the type and queues them for their schedule.
    fn initialize(pending: &mut PendingSystems<S>)
        ensures
            exists|description: (ScheduleToAddSystems, S)|
                call_ensures(T::systems, (), description) && final(pending)@ == old(
                    pending,
                )@.send(description),
    {
        let description = T::systems();
        pending.send(description);
    }
}

/// `TypeId::of`: the identity of the type `T`. Nothing is said of its value.
pub assume_specification<T: ?Sized + 'static>[ TypeId::of::<T> ]() -> (id: TypeId)
;

/// `TypeId::of`, which depends on the type alone: what it returns for `T` is what
/// every call for `T` returns.
#[verifier::external_body]
fn type_id_of<T: 'static>() -> (id: TypeId)
    ensures
        call_ensures(TypeId::of::<T>, (), id),
        forall|other: TypeId| call_ensures(TypeId::of::<T>, (), other) ==> other == id,
{
    TypeId::of::<T>()
}

impl Default for DynamicInitializationRegistry {
    fn default() -> (registry: Self)
        ensures
            registered(registry) == Set::<TypeId>::empty(),
    {
        DynamicInitializationRegistry::new()
    }
}

impl DynamicInitializationRegistry {
    /// `HashSet::default`: a set that holds nothing.
    #[verifier::external_body]
    fn empty() -> (registry: Self)
        ensures
            registered(registry) == Set::<TypeId>::empty(),
    {
        DynamicInitializationRegistry { registry: HashSet::default() }
    }

    /// A registry in which no type is initialized yet.
    pub fn new() -> (registry: Self)
        ensures
            registered(registry) == Set::<TypeId>::empty(),
    {
        DynamicInitializationRegistry::empty()
    }

    /// `HashSet::entry` and, on a vacant entry, `VacantEntry::insert`: one lookup that
    /// tells whether `id` was absent and leaves it present.
    #[verifier::external_body]
    fn claim(&mut self, id: TypeId) -> (vacant: bool)
        ensures
            vacant == !registered(*old(self)).contains(id),
            registered(*final(self)) == registered(*old(self)).insert(id),
    {
        match self.registry.entry(id) {
            Entry::Occupied(_) => false,
            Entry::Vacant(vacant) => {
                vacant.insert();
                true
            },
        }
    }

    /// Makes sure that the type `T` is initialized: the first call for a type sets
    /// it up, every later call for that type changes nothing.
    pub fn initialize<T: DynamicallyInitialized<S> + 'static, S>(
        &mut self,
        pending: &mut PendingSystems<S>,
    ) -> (initialized: bool)
        ensures
            exists|id: TypeId|
                {
                    &&& call_ensures(TypeId::of::<T>, (), id)
                    &&& forall|other: TypeId|
                        call_ensures(TypeId::of::<T>, (), other) ==> other == id
                    &&& initialized == !registered(*old(self)).contains(id)
                    &&& registered(*final(self)) == registered(*old(self)).insert(id)
                },
            initialized ==> T::sets_up(old(pending)@, final(pending)@),
            !initialized ==> final(pending)@ == old(pending)@,
    {
        self.initialize_as::<T, S>(type_id_of::<T>(), pending)
    }

    /// Makes sure that the type `T`, known to the registry as `id`, is initialized.
    /// The first call for an identity claims it and runs the set-up of `T` on the
    /// queues; every later call for that identity changes nothing and does not run
    /// the set-up.
    pub fn initialize_as<T: DynamicallyInitialized<S>, S>(
        &mut self,
        id: TypeId,
        pending: &mut PendingSystems<S>,
    ) -> (initialized: bool)
        ensures
            initialized == !registered(*old(self)).contains(id),
            registered(*final(self)) == registered(*old(self)).insert(id),
            initialized ==> T::sets_up(old(pending)@, final(pending)@),
            !initialized ==> final(pending)@ == old(pending)@,
    {
        if self.claim(id) {
            T::initialize(pending);
            true
        } else {
            false
        }
    }

    /// Makes sure that the type `id` is initialized. The first call for a type
    /// claims it, runs `describe` and queues what it returns; every later call for
    /// that type changes nothing and does not run `describe`.
    pub fn initialize_with<S, F: FnOnce() -> (ScheduleToAddSystems, S)>(
        &mut self,
        id: TypeId,
        describe: F,
        pending: &mut PendingSystems<S>,
    ) -> (described: bool)
        requires
            describe.requires(()),
        ensures
            described == !registered(*old(self)).contains(id),
            registered(*final(self)) == registered(*old(self)).insert(id),
            !described ==> final(pending)@ == old(pending)@,
            described ==> exists|description: (ScheduleToAddSystems, S)|
                describe.ensures((), description) && final(pending)@ == old(pending)@.send(
                    description,
                ),
    {
        if self.claim(id) {
            let description = describe();
            pending.send(description);
            true
        } else {
            false
        }
    }
}

/// Moves the systems queued for every visual frame to the end of `schedule`, in the
/// order in which they were sent, and leaves that queue empty. With nothing queued
/// it changes nothing.
pub fn add_dynamic_systems_to_update<S>(to_add: &mut PendingSystems<S>, schedule: &mut Vec<S>)
    ensures
        final(schedule)@ == old(schedule)@ + old(to_add)@.to_update,
        final(to_add)@.to_update.len() == 0,
        final(to_add)@.to_fixed_update == old(to_add)@.to_fixed_update,
{
    let mut queue: Vec<AddSystemsToUpdate<S>> = Vec::new();
    std::mem::swap(&mut queue, &mut to_add.to_update);
    let ghost sent = queue@;
    for event in it: queue
        invariant
            it.seq() == sent,
            schedule@ == old(schedule)@ + sent.take(it.index() as int).map_values(
                |e: AddSystemsToUpdate<S>| e.0,
            ),
    {
        let AddSystemsToUpdate(systems) = event;
        schedule.push(systems);
    }
}

/// Moves the systems queued for every fixed simulation step to the end of
/// `schedule`, in the order in which they were sent, and leaves that queue empty.
/// With nothing queued it changes nothing.
pub fn add_dynamic_systems_to_fixed_update<S>(
    to_add: &mut PendingSystems<S>,
    schedule: &mut Vec<S>,
)
    ensures
        final(schedule)@ == old(schedule)@ + old(to_add)@.to_fixed_update,
        final(to_add)@.to_fixed_update.len() == 0,
        final(to_add)@.to_update == old(to_add)@.to_update,
{
    let mut queue: Vec<AddSystemsToFixedUpdate<S>> = Vec::new();
    std::mem::swap(&mut queue, &mut to_add.to_fixed_update);
    let ghost sent = queue@;
    for event in it: queue
        invariant
            it.seq() == sent,
            schedule@ == old(schedule)@ + sent.take(it.index() as int).map_values(
                |e: AddSystemsToFixedUpdate<S>| e.0,
            ),
    {
        let AddSystemsToFixedUpdate(systems) = event;
        schedule.push(systems);
    }
}

/// How many times the description step of the type `id` runs while the types
/// `attached` are initialized one after the other, starting from `registry`.
pub open spec fn descriptions(registry: Set<TypeId>, attached: Seq<TypeId>, id: TypeId) -> nat
    decreases attached.len(),
{
    if attached.len() == 0 {
        0
    } else {
        (if attached[0] == id && !registry.contains(id) {
            1nat
        } else {
            0nat
        }) + descriptions(registry.insert(attached[0]), attached.skip(1), id)
    }
}

/// However many times a type is attached, and whatever is attached in between, its
/// description step runs exactly once, at its first attachment; it never runs for a
/// type that the registry already held, nor for one that is not attached.
pub proof fn lemma_described_exactly_once(
    registry: Set<TypeId>,
    attached: Seq<TypeId>,
    id: TypeId,
)
    ensures
        descriptions(registry, attached, id) == (if !registry.contains(id) && attached.contains(
            id,
        ) {
            1nat
        } else {
            0nat
        }),
    decreases attached.len(),
{
    if attached.len() > 0 {
        let rest = attached.skip(1);
        lemma_described_exactly_once(registry.insert(attached[0]), rest, id);
        if attached.contains(id) && attached[0] != id {
            let i = choose|i: int| 0 <= i < attached.len() && attached[i] == id;
            assert(rest[i - 1] == id);
        }
        if rest.contains(id) {
            let j = choose|j: int| 0 <= j < rest.len() && rest[j] == id;
            assert(attached[j + 1] == id);
        }
    }
}

} // verus!
