use rl_extract::frame::{ActorCreation, ActorUpdate, Attribute, Frame, Position, Scalar};
use rl_extract::processor::{collect_samples, process_creation, process_frame, process_update};
use rl_extract::registry::ActorRegistry;
use rl_extract::role::Role;
use rl_extract::sample::{Sample, SampleCollector};

fn scalar(value: f32) -> Scalar {
    Scalar::from_bits(value.to_bits())
}

fn position(x: f32, y: f32, z: f32) -> Position {
    Position { x: scalar(x), y: scalar(y), z: scalar(z) }
}

fn rigid_body(x: f32, y: f32, z: f32) -> Attribute {
    Attribute::RigidBody(position(x, y, z))
}

fn creation(actor: u32, object_name: &str) -> ActorCreation {
    ActorCreation { actor, object_name: object_name.to_string() }
}

fn update(actor: u32, attributes: Vec<Attribute>) -> ActorUpdate {
    ActorUpdate { actor, attributes }
}

fn frame(time: f32, creations: Vec<ActorCreation>, updates: Vec<ActorUpdate>) -> Frame {
    Frame { time: scalar(time), creations, updates }
}

fn sample(time: f32, role: Role, actor: u32, x: f32, y: f32, z: f32) -> Sample {
    Sample { time: scalar(time), role, actor, position: position(x, y, z) }
}

#[test]
fn one_ball_update_yields_one_ball_sample() {
    let frames = vec![frame(
        0.0,
        vec![creation(7, "Archetypes.Ball.Ball_Default")],
        vec![update(7, vec![rigid_body(1.0, 2.0, 3.0)])],
    )];
    let samples = collect_samples(&frames);
    assert_eq!(samples, vec![sample(0.0, Role::Ball, 7, 1.0, 2.0, 3.0)]);
    assert_eq!(samples[0].role.tag(), "ball");
    assert_eq!(samples[0].actor, 7);
    assert_eq!(f32::from_bits(samples[0].time.to_bits()), 0.0);
    assert_eq!(f32::from_bits(samples[0].position.x.to_bits()), 1.0);
    assert_eq!(f32::from_bits(samples[0].position.y.to_bits()), 2.0);
    assert_eq!(f32::from_bits(samples[0].position.z.to_bits()), 3.0);
}

#[test]
fn empty_stream_yields_nothing() {
    let samples = collect_samples(&[]);
    assert_eq!(samples, Vec::<Sample>::new());
    assert_eq!(samples.len(), 0);
}

#[test]
fn two_rigid_bodies_in_one_update_yield_two_samples() {
    let frames = vec![
        frame(1.0, vec![creation(3, "Archetypes.Car.Car_Default")], vec![]),
        frame(
            2.5,
            vec![],
            vec![update(3, vec![rigid_body(1.0, 2.0, 3.0), rigid_body(4.0, 5.0, 6.0)])],
        ),
    ];
    let samples = collect_samples(&frames);
    assert_eq!(
        samples,
        vec![
            sample(2.5, Role::Car, 3, 1.0, 2.0, 3.0),
            sample(2.5, Role::Car, 3, 4.0, 5.0, 6.0),
        ]
    );
    assert_eq!(samples[0].role.tag(), "car");
    assert_eq!(samples[1].role.tag(), "car");
}

#[test]
fn equal_rigid_bodies_yield_equal_samples() {
    let frames = vec![
        frame(1.0, vec![creation(3, "Archetypes.Car.Car_Default")], vec![]),
        frame(
            2.5,
            vec![],
            vec![update(3, vec![rigid_body(1.0, 2.0, 3.0), rigid_body(1.0, 2.0, 3.0)])],
        ),
    ];
    let samples = collect_samples(&frames);
    assert_eq!(samples.len(), 2);
    assert_eq!(samples[0], samples[1]);
    assert_eq!(samples[0], sample(2.5, Role::Car, 3, 1.0, 2.0, 3.0));
}

#[test]
fn creations_count_before_updates_of_the_same_frame() {
    let mut registry = ActorRegistry::new();
    let mut collector = SampleCollector::new();
    let f = frame(
        4.0,
        vec![creation(1, "TAGame.Car_TA"), creation(7, "TAGame.Ball_TA")],
        vec![update(7, vec![rigid_body(0.5, 0.25, 93.0)])],
    );
    process_frame(&mut registry, &mut collector, &f);
    assert_eq!(registry.lookup(7), Some(Role::Ball));
    assert_eq!(registry.lookup(1), Some(Role::Car));
    assert_eq!(collector.finalize(), vec![sample(4.0, Role::Ball, 7, 0.5, 0.25, 93.0)]);
}

#[test]
fn later_creation_in_a_frame_overrides_an_earlier_one() {
    let mut registry = ActorRegistry::new();
    let mut collector = SampleCollector::new();
    let f = frame(
        4.0,
        vec![creation(7, "TAGame.Ball_TA"), creation(7, "TAGame.Car_TA")],
        vec![update(7, vec![rigid_body(1.0, 1.0, 1.0)])],
    );
    process_frame(&mut registry, &mut collector, &f);
    assert_eq!(registry.lookup(7), Some(Role::Car));
    assert_eq!(collector.finalize(), vec![sample(4.0, Role::Car, 7, 1.0, 1.0, 1.0)]);
}

#[test]
fn update_of_unknown_actor_yields_nothing() {
    let mut registry = ActorRegistry::new();
    registry.register(1, Role::Car);
    let mut collector = SampleCollector::new();
    process_update(
        &registry,
        &mut collector,
        scalar(1.0),
        &update(2, vec![rigid_body(1.0, 2.0, 3.0), Attribute::Other]),
    );
    assert_eq!(collector.finalize(), Vec::<Sample>::new());
    let frames = vec![frame(1.0, vec![], vec![update(9, vec![rigid_body(1.0, 2.0, 3.0)])])];
    assert_eq!(collect_samples(&frames), Vec::<Sample>::new());
}

#[test]
fn update_before_creation_frame_yields_nothing() {
    let frames = vec![
        frame(1.0, vec![], vec![update(7, vec![rigid_body(1.0, 2.0, 3.0)])]),
        frame(2.0, vec![creation(7, "TAGame.Ball_TA")], vec![]),
        frame(3.0, vec![], vec![update(7, vec![rigid_body(4.0, 5.0, 6.0)])]),
    ];
    assert_eq!(collect_samples(&frames), vec![sample(3.0, Role::Ball, 7, 4.0, 5.0, 6.0)]);
}

#[test]
fn repeated_frame_yields_one_sample_each_time() {
    let f = frame(
        7.5,
        vec![creation(5, "Archetypes.Car.Car_Default"), creation(6, "TAGame.PRI_TA")],
        vec![
            update(6, vec![rigid_body(9.0, 9.0, 9.0)]),
            update(5, vec![Attribute::Other, rigid_body(1.0, 2.0, 3.0), Attribute::Other]),
        ],
    );
    for n in [0usize, 1, 2, 5, 17] {
        let frames = vec![f.clone(); n];
        let samples = collect_samples(&frames);
        assert_eq!(samples.len(), n);
        for s in &samples {
            assert_eq!(*s, sample(7.5, Role::Car, 5, 1.0, 2.0, 3.0));
            assert_eq!(s.time, scalar(7.5));
        }
    }
}

#[test]
fn unclassified_creation_leaves_registry_alone() {
    let mut registry = ActorRegistry::new();
    registry.register(2, Role::Car);
    process_creation(&mut registry, &creation(8, "TAGame.GameEvent_Soccar_TA"));
    assert_eq!(registry.lookup(8), None);
    assert_eq!(registry.lookup(2), Some(Role::Car));
    process_creation(&mut registry, &creation(2, "TAGame.GameEvent_Soccar_TA"));
    assert_eq!(registry.lookup(2), Some(Role::Car));

    let frames = vec![
        frame(1.0, vec![creation(8, "TAGame.GameEvent_Soccar_TA")], vec![]),
        frame(2.0, vec![], vec![update(8, vec![rigid_body(1.0, 2.0, 3.0)])]),
    ];
    assert_eq!(collect_samples(&frames), Vec::<Sample>::new());
}

#[test]
fn reused_id_takes_the_new_role() {
    let mut registry = ActorRegistry::new();
    process_creation(&mut registry, &creation(4, "Archetypes.Ball.Ball_Default"));
    assert_eq!(registry.lookup(4), Some(Role::Ball));
    process_creation(&mut registry, &creation(4, "Archetypes.Car.Car_Default"));
    assert_eq!(registry.lookup(4), Some(Role::Car));

    let frames = vec![
        frame(1.0, vec![creation(4, "Archetypes.Ball.Ball_Default")], vec![]),
        frame(2.0, vec![], vec![update(4, vec![rigid_body(1.0, 0.0, 0.0)])]),
        frame(3.0, vec![creation(4, "Archetypes.Car.Car_Default")], vec![]),
        frame(4.0, vec![], vec![update(4, vec![rigid_body(2.0, 0.0, 0.0)])]),
    ];
    assert_eq!(
        collect_samples(&frames),
        vec![sample(2.0, Role::Ball, 4, 1.0, 0.0, 0.0), sample(4.0, Role::Car, 4, 2.0, 0.0, 0.0)]
    );
}

#[test]
fn role_survives_without_a_new_creation() {
    let frames = vec![
        frame(1.0, vec![creation(4, "Archetypes.Ball.Ball_Default")], vec![]),
        frame(2.0, vec![creation(4, "TAGame.PRI_TA")], vec![]),
        frame(3.0, vec![], vec![update(4, vec![rigid_body(2.0, 0.0, 0.0)])]),
    ];
    assert_eq!(collect_samples(&frames), vec![sample(3.0, Role::Ball, 4, 2.0, 0.0, 0.0)]);
}

#[test]
fn other_attributes_are_ignored() {
    let frames = vec![frame(
        1.0,
        vec![creation(1, "TAGame.Car_TA")],
        vec![
            update(1, vec![]),
            update(1, vec![Attribute::Other]),
            update(1, vec![Attribute::Other, Attribute::Other]),
        ],
    )];
    assert_eq!(collect_samples(&frames), Vec::<Sample>::new());
}

#[test]
fn samples_come_in_frame_then_update_then_attribute_order() {
    let frames = vec![
        frame(
            1.0,
            vec![creation(1, "TAGame.Car_TA"), creation(2, "TAGame.Ball_TA")],
            vec![
                update(2, vec![rigid_body(1.0, 0.0, 0.0), Attribute::Other, rigid_body(2.0, 0.0, 0.0)]),
                update(1, vec![rigid_body(3.0, 0.0, 0.0)]),
                update(2, vec![rigid_body(4.0, 0.0, 0.0)]),
            ],
        ),
        frame(0.5, vec![], vec![update(1, vec![rigid_body(5.0, 0.0, 0.0)])]),
    ];
    assert_eq!(
        collect_samples(&frames),
        vec![
            sample(1.0, Role::Ball, 2, 1.0, 0.0, 0.0),
            sample(1.0, Role::Ball, 2, 2.0, 0.0, 0.0),
            sample(1.0, Role::Car, 1, 3.0, 0.0, 0.0),
            sample(1.0, Role::Ball, 2, 4.0, 0.0, 0.0),
            sample(0.5, Role::Car, 1, 5.0, 0.0, 0.0),
        ]
    );
}

#[test]
fn process_update_appends_behind_earlier_samples() {
    let mut registry = ActorRegistry::new();
    registry.register(1, Role::Car);
    let mut collector = SampleCollector::new();
    collector.append(sample(0.0, Role::Ball, 9, 0.0, 0.0, 0.0));
    process_update(&registry, &mut collector, scalar(1.5), &update(1, vec![rigid_body(1.0, 2.0, 3.0)]));
    assert_eq!(
        collector.finalize(),
        vec![sample(0.0, Role::Ball, 9, 0.0, 0.0, 0.0), sample(1.5, Role::Car, 1, 1.0, 2.0, 3.0)]
    );
}
