use entity_systems::dynamic_initialization::{
    add_dynamic_systems_to_fixed_update, add_dynamic_systems_to_update, DynamicallyInitialized,
    DynamicallyInitializedSystems, DynamicInitializationRegistry, PendingSystems,
    ScheduleToAddSystems,
};
use std::any::TypeId;
use std::marker::PhantomData;

struct FadeOut;
struct Destroy;
struct Marker;
struct Ramp<Tick, Finished, M = ()>(PhantomData<(Tick, Finished, M)>);

fn queued(pending: &PendingSystems<&'static str>) -> (Vec<&'static str>, Vec<&'static str>) {
    (
        pending.to_update.iter().map(|event| event.0).collect(),
        pending.to_fixed_update.iter().map(|event| event.0).collect(),
    )
}

#[test]
fn the_first_attachment_describes_the_systems() {
    let mut registry = DynamicInitializationRegistry::new();
    let mut pending = PendingSystems::new();
    let described = registry.initialize_with(
        TypeId::of::<Ramp<FadeOut, Destroy>>(),
        || (ScheduleToAddSystems::Update, "ramp"),
        &mut pending,
    );
    assert!(described);
    assert_eq!(queued(&pending), (vec!["ramp"], vec![]));
}

#[test]
fn many_attachments_describe_once() {
    let mut registry = DynamicInitializationRegistry::new();
    let mut pending = PendingSystems::new();
    let mut runs = 0;
    let mut described = 0;
    for _ in 0..100 {
        if registry.initialize_with(
            TypeId::of::<Ramp<FadeOut, Destroy>>(),
            || {
                runs += 1;
                (ScheduleToAddSystems::Update, "ramp")
            },
            &mut pending,
        ) {
            described += 1;
        }
    }
    assert_eq!(runs, 1);
    assert_eq!(described, 1);
    assert_eq!(queued(&pending), (vec!["ramp"], vec![]));
}

#[test]
fn the_marker_is_part_of_the_identity() {
    let mut registry = DynamicInitializationRegistry::new();
    let mut pending = PendingSystems::new();
    assert!(registry.initialize_with(
        TypeId::of::<Ramp<FadeOut, Destroy>>(),
        || (ScheduleToAddSystems::Update, "plain"),
        &mut pending,
    ));
    assert!(registry.initialize_with(
        TypeId::of::<Ramp<FadeOut, Destroy, Marker>>(),
        || (ScheduleToAddSystems::Update, "marked"),
        &mut pending,
    ));
    assert!(!registry.initialize_with(
        TypeId::of::<Ramp<FadeOut, Destroy, ()>>(),
        || (ScheduleToAddSystems::Update, "plain again"),
        &mut pending,
    ));
    assert_eq!(queued(&pending), (vec!["plain", "marked"], vec![]));
}

#[test]
fn descriptions_are_queued_by_schedule_in_order() {
    let mut pending = PendingSystems::new();
    pending.send((ScheduleToAddSystems::Update, "a"));
    pending.send((ScheduleToAddSystems::FixedUpdate, "b"));
    pending.send((ScheduleToAddSystems::Update, "c"));
    pending.send((ScheduleToAddSystems::FixedUpdate, "d"));
    assert_eq!(queued(&pending), (vec!["a", "c"], vec!["b", "d"]));
}

#[test]
fn the_editor_appends_and_clears() {
    let mut pending = PendingSystems::new();
    pending.send((ScheduleToAddSystems::Update, "a"));
    pending.send((ScheduleToAddSystems::FixedUpdate, "b"));
    pending.send((ScheduleToAddSystems::Update, "c"));
    let mut update = vec!["installed"];
    let mut fixed_update = Vec::new();
    add_dynamic_systems_to_fixed_update(&mut pending, &mut fixed_update);
    assert_eq!(fixed_update, vec!["b"]);
    assert_eq!(queued(&pending), (vec!["a", "c"], vec![]));
    add_dynamic_systems_to_update(&mut pending, &mut update);
    assert_eq!(update, vec!["installed", "a", "c"]);
    assert_eq!(queued(&pending), (vec![], vec![]));
}

#[test]
fn the_editor_does_nothing_on_empty_queues() {
    let mut pending: PendingSystems<&'static str> = PendingSystems::new();
    let mut update = vec!["installed"];
    let mut fixed_update = vec!["stepped"];
    add_dynamic_systems_to_update(&mut pending, &mut update);
    add_dynamic_systems_to_fixed_update(&mut pending, &mut fixed_update);
    assert_eq!(update, vec!["installed"]);
    assert_eq!(fixed_update, vec!["stepped"]);
    assert_eq!(queued(&pending), (vec![], vec![]));
}

#[test]
fn systems_registered_in_a_frame_run_from_the_next_frame_on() {
    let mut registry = DynamicInitializationRegistry::new();
    let mut pending = PendingSystems::new();
    let mut update: Vec<&'static str> = Vec::new();
    let mut fixed_update: Vec<&'static str> = Vec::new();
    let id = TypeId::of::<Ramp<FadeOut, Destroy>>();

    // frame 1: the component is attached, twice; the systems of the frame are
    // those installed before it
    let running_in_frame_1 = update.clone();
    registry.initialize_with(id, || (ScheduleToAddSystems::Update, "ramp"), &mut pending);
    registry.initialize_with(id, || (ScheduleToAddSystems::Update, "ramp"), &mut pending);
    assert!(running_in_frame_1.is_empty());
    assert!(update.is_empty());
    // end of frame 1
    add_dynamic_systems_to_fixed_update(&mut pending, &mut fixed_update);
    add_dynamic_systems_to_update(&mut pending, &mut update);

    // frames 2 to 5: the systems run, and attaching again adds nothing
    for _ in 2..=5 {
        assert_eq!(update, vec!["ramp"]);
        assert!(fixed_update.is_empty());
        registry.initialize_with(id, || (ScheduleToAddSystems::Update, "ramp"), &mut pending);
        add_dynamic_systems_to_fixed_update(&mut pending, &mut fixed_update);
        add_dynamic_systems_to_update(&mut pending, &mut update);
    }
    assert_eq!(update, vec!["ramp"]);
}

impl<Tick: 'static, Finished: 'static> DynamicallyInitializedSystems<&'static str>
    for Ramp<Tick, Finished, ()>
{
    fn systems() -> (ScheduleToAddSystems, &'static str) {
        (ScheduleToAddSystems::Update, "plain ramp")
    }
}

impl<Tick: 'static, Finished: 'static> DynamicallyInitializedSystems<&'static str>
    for Ramp<Tick, Finished, Marker>
{
    fn systems() -> (ScheduleToAddSystems, &'static str) {
        (ScheduleToAddSystems::Update, "marked ramp")
    }
}

struct Stepper;

impl DynamicallyInitializedSystems<&'static str> for Stepper {
    fn systems() -> (ScheduleToAddSystems, &'static str) {
        (ScheduleToAddSystems::FixedUpdate, "stepper")
    }
}

struct Custom;

impl DynamicallyInitialized<u32> for Custom {
    fn initialize(pending: &mut PendingSystems<u32>) {
        pending.send((ScheduleToAddSystems::Update, 1));
        pending.send((ScheduleToAddSystems::FixedUpdate, 2));
    }
}

#[test]
fn a_type_that_describes_systems_is_initialized_by_queueing_them() {
    let mut pending = PendingSystems::new();
    <Stepper as DynamicallyInitialized<&'static str>>::initialize(&mut pending);
    assert_eq!(queued(&pending), (vec![], vec!["stepper"]));
}

#[test]
fn each_instantiation_is_initialized_once() {
    let mut registry = DynamicInitializationRegistry::new();
    let mut pending = PendingSystems::new();
    let mut initialized = 0;
    for _ in 0..50 {
        if registry.initialize::<Ramp<FadeOut, Destroy>, &'static str>(&mut pending) {
            initialized += 1;
        }
        if registry.initialize::<Stepper, &'static str>(&mut pending) {
            initialized += 1;
        }
        if registry.initialize::<Ramp<FadeOut, Destroy, Marker>, &'static str>(&mut pending) {
            initialized += 1;
        }
    }
    assert_eq!(initialized, 3);
    assert_eq!(queued(&pending), (vec!["plain ramp", "marked ramp"], vec!["stepper"]));
}

#[test]
fn the_generic_and_the_explicit_entry_share_the_registry() {
    let mut registry = DynamicInitializationRegistry::new();
    let mut pending = PendingSystems::new();
    assert!(registry.initialize::<Stepper, &'static str>(&mut pending));
    assert!(!registry.initialize_with(
        TypeId::of::<Stepper>(),
        || (ScheduleToAddSystems::Update, "again"),
        &mut pending,
    ));
    assert_eq!(queued(&pending), (vec![], vec!["stepper"]));
}

#[test]
fn a_custom_set_up_runs_once() {
    let mut registry = DynamicInitializationRegistry::new();
    let mut pending = PendingSystems::new();
    assert!(registry.initialize::<Custom, u32>(&mut pending));
    assert!(!registry.initialize::<Custom, u32>(&mut pending));
    assert_eq!(pending.to_update.len(), 1);
    assert_eq!(pending.to_update[0].0, 1);
    assert_eq!(pending.to_fixed_update.len(), 1);
    assert_eq!(pending.to_fixed_update[0].0, 2);
}

#[test]
fn the_default_registry_holds_nothing() {
    let mut registry = DynamicInitializationRegistry::default();
    let mut pending = PendingSystems::new();
    assert!(registry.initialize::<Stepper, &'static str>(&mut pending));
}

struct Framed;

impl DynamicallyInitializedSystems<&'static str> for Framed {
    fn systems() -> (ScheduleToAddSystems, &'static str) {
        (ScheduleToAddSystems::Update, "framed")
    }
}

#[test]
fn a_description_joins_the_queue_of_its_own_schedule_only() {
    let mut pending = PendingSystems::new();
    pending.send((ScheduleToAddSystems::Update, "before"));
    pending.send((ScheduleToAddSystems::FixedUpdate, "before"));
    <Framed as DynamicallyInitialized<&'static str>>::initialize(&mut pending);
    assert_eq!(queued(&pending), (vec!["before", "framed"], vec!["before"]));
    <Stepper as DynamicallyInitialized<&'static str>>::initialize(&mut pending);
    assert_eq!(queued(&pending), (vec!["before", "framed"], vec!["before", "stepper"]));
}

#[test]
fn an_identity_is_set_up_once_whatever_type_stands_for_it() {
    let mut registry = DynamicInitializationRegistry::new();
    let mut pending = PendingSystems::new();
    let id = TypeId::of::<Framed>();
    assert!(registry.initialize_as::<Framed, &'static str>(id, &mut pending));
    assert!(!registry.initialize_as::<Framed, &'static str>(id, &mut pending));
    assert!(!registry.initialize_as::<Stepper, &'static str>(id, &mut pending));
    assert!(!registry.initialize::<Framed, &'static str>(&mut pending));
    assert_eq!(queued(&pending), (vec!["framed"], vec![]));
    assert!(registry.initialize_as::<Stepper, &'static str>(TypeId::of::<Stepper>(), &mut pending));
    assert_eq!(queued(&pending), (vec!["framed"], vec!["stepper"]));
}

#[test]
fn many_attachments_of_one_type_leave_one_description_pending() {
    let mut registry = DynamicInitializationRegistry::new();
    let mut pending = PendingSystems::new();
    let mut initialized = 0;
    for _ in 0..64 {
        if registry.initialize::<Framed, &'static str>(&mut pending) {
            initialized += 1;
        }
    }
    assert_eq!(initialized, 1);
    assert_eq!(queued(&pending), (vec!["framed"], vec![]));
}
