use dreamfield::config::POSITION_SCALE;
use dreamfield::world::{
    CameraComponent, ComponentSet, Entity, EntityId, FpsCamera, Model, PitchYaw, Position,
    QuerySingleError, Time, Velocity, World,
};

fn camera_entity() -> Entity {
    Entity::new()
        .with_position(Position::from_units(0, 3, 10))
        .with_pitch_yaw(PitchYaw { pitch: -100_000, yaw: 0 })
        .with_camera(CameraComponent { camera: FpsCamera::new() })
}

fn model_entity(name: &str) -> Entity {
    Entity::new()
        .with_position(Position::from_units(0, 0, 0))
        .with_velocity(Velocity { x: 0, y: 500, z: 0 })
        .with_model(Model { name: name.to_string() })
}

#[test]
fn a_new_world_is_empty() {
    let world = World::new();
    assert_eq!(world.len(), 0);
    assert_eq!(world.time(), Time { time: 0, time_delta: 0 });
    assert_eq!(world.get(EntityId(0)), None);
    assert_eq!(world.query(ComponentSet::none()), Vec::<EntityId>::new());
}

#[test]
fn the_default_time_is_zero() {
    assert_eq!(Time::default(), Time { time: 0, time_delta: 0 });
}

#[test]
fn whole_units_scale_to_position_counts() {
    assert_eq!(
        Position::from_units(1, -2, 3),
        Position { x: POSITION_SCALE, y: -2 * POSITION_SCALE, z: 3 * POSITION_SCALE }
    );
    assert_eq!(
        Position::from_units(i32::MAX, i32::MIN, 0),
        Position {
            x: i32::MAX as i64 * POSITION_SCALE,
            y: i32::MIN as i64 * POSITION_SCALE,
            z: 0
        }
    );
}

#[test]
fn spawning_names_entities_in_order() {
    let mut world = World::new();
    let a = world.spawn(camera_entity());
    let b = world.spawn(model_entity("orb"));
    assert_eq!(a, EntityId(0));
    assert_eq!(b, EntityId(1));
    assert_eq!(world.len(), 2);
    assert_eq!(world.get(a), Some(&camera_entity()));
    assert_eq!(world.get(b), Some(&model_entity("orb")));
    assert_eq!(world.get(EntityId(2)), None);
}

#[test]
fn an_entity_carries_what_it_was_built_with() {
    let e = camera_entity();
    assert!(e.carries(ComponentSet::camera_rig()));
    assert!(e.carries(ComponentSet::camera()));
    assert!(e.carries(ComponentSet::none()));
    assert!(!e.carries(ComponentSet::moving()));
    assert!(!e.carries(ComponentSet::drawable()));
    let m = model_entity("orb");
    assert!(m.carries(ComponentSet::moving()));
    assert!(m.carries(ComponentSet::drawable()));
    assert!(!m.carries(ComponentSet::camera()));
    assert!(Entity::new().carries(ComponentSet::none()));
    assert!(!Entity::new().carries(ComponentSet::camera()));
}

#[test]
fn a_later_component_replaces_an_earlier_one() {
    let e = Entity::new()
        .with_velocity(Velocity { x: 1, y: 2, z: 3 })
        .with_velocity(Velocity { x: 4, y: 5, z: 6 });
    assert_eq!(e.velocity, Some(Velocity { x: 4, y: 5, z: 6 }));
    assert_eq!(e.position, None);
}

#[test]
fn a_query_finds_every_match_once_in_order() {
    let mut world = World::new();
    world.spawn(model_entity("a"));
    world.spawn(camera_entity());
    world.spawn(Entity::new());
    world.spawn(model_entity("b"));
    world.spawn(Entity::new().with_position(Position::from_units(1, 1, 1)));
    assert_eq!(world.query(ComponentSet::drawable()), vec![EntityId(0), EntityId(3)]);
    assert_eq!(world.query(ComponentSet::moving()), vec![EntityId(0), EntityId(3)]);
    assert_eq!(world.query(ComponentSet::camera_rig()), vec![EntityId(1)]);
    assert_eq!(
        world.query(ComponentSet { position: true, ..ComponentSet::none() }),
        vec![EntityId(0), EntityId(1), EntityId(3), EntityId(4)]
    );
    assert_eq!(
        world.query(ComponentSet::none()),
        vec![EntityId(0), EntityId(1), EntityId(2), EntityId(3), EntityId(4)]
    );
    assert_eq!(
        world.query(ComponentSet { velocity: true, camera: true, ..ComponentSet::none() }),
        Vec::<EntityId>::new()
    );
}

#[test]
fn the_single_camera_is_found() {
    let mut world = World::new();
    world.spawn(model_entity("a"));
    let camera = world.spawn(camera_entity());
    assert_eq!(world.get_single(ComponentSet::camera_rig()), Ok(camera));
    assert_eq!(world.get_single(ComponentSet::camera()), Ok(camera));
}

#[test]
fn a_single_query_fails_without_a_match() {
    let mut world = World::new();
    assert_eq!(
        world.get_single(ComponentSet::camera_rig()),
        Err(QuerySingleError::NoEntities)
    );
    world.spawn(model_entity("a"));
    // a camera without an orientation does not carry the full camera set
    world.spawn(
        Entity::new()
            .with_position(Position::from_units(0, 0, 0))
            .with_camera(CameraComponent { camera: FpsCamera::new() }),
    );
    assert_eq!(
        world.get_single(ComponentSet::camera_rig()),
        Err(QuerySingleError::NoEntities)
    );
}

#[test]
fn a_single_query_fails_with_two_matches() {
    let mut world = World::new();
    world.spawn(camera_entity());
    world.spawn(model_entity("a"));
    world.spawn(camera_entity());
    assert_eq!(
        world.get_single(ComponentSet::camera_rig()),
        Err(QuerySingleError::MultipleEntities)
    );
    world.spawn(camera_entity());
    assert_eq!(
        world.get_single(ComponentSet::camera_rig()),
        Err(QuerySingleError::MultipleEntities)
    );
}

#[test]
fn setters_replace_a_component_that_is_there() {
    let mut world = World::new();
    let id = world.spawn(camera_entity().with_velocity(Velocity { x: 0, y: 0, z: 0 }));
    assert!(world.set_position(id, Position { x: 1, y: 2, z: 3 }));
    assert!(world.set_velocity(id, Velocity { x: 4, y: 5, z: 6 }));
    assert!(world.set_pitch_yaw(id, PitchYaw { pitch: 7, yaw: 8 }));
    let camera = CameraComponent {
        camera: FpsCamera { pos: Position { x: 9, y: 9, z: 9 }, pitch: 1, yaw: 2 },
    };
    assert!(world.set_camera(id, camera));
    let e = world.get(id).unwrap();
    assert_eq!(e.position, Some(Position { x: 1, y: 2, z: 3 }));
    assert_eq!(e.velocity, Some(Velocity { x: 4, y: 5, z: 6 }));
    assert_eq!(e.pitch_yaw, Some(PitchYaw { pitch: 7, yaw: 8 }));
    assert_eq!(e.camera, Some(camera));
    assert_eq!(e.model, None);
}

#[test]
fn setters_leave_alone_what_is_not_there() {
    let mut world = World::new();
    let id = world.spawn(model_entity("a"));
    let before = world.get(id).unwrap().clone();
    assert!(!world.set_pitch_yaw(id, PitchYaw { pitch: 7, yaw: 8 }));
    assert!(!world.set_camera(id, CameraComponent { camera: FpsCamera::new() }));
    assert!(!world.set_position(EntityId(5), Position { x: 1, y: 2, z: 3 }));
    assert!(!world.set_velocity(EntityId(1), Velocity { x: 1, y: 2, z: 3 }));
    assert_eq!(world.get(id), Some(&before));
    assert_eq!(world.len(), 1);
}

#[test]
fn the_time_resource_is_replaced_whole() {
    let mut world = World::new();
    world.spawn(model_entity("a"));
    world.set_time(Time { time: 300_000, time_delta: 100_000 });
    assert_eq!(world.time(), Time { time: 300_000, time_delta: 100_000 });
    assert_eq!(world.get(EntityId(0)), Some(&model_entity("a")));
}

#[test]
fn the_camera_setters_keep_what_they_do_not_set() {
    let mut camera = FpsCamera::new();
    assert_eq!(camera, FpsCamera { pos: Position { x: 0, y: 0, z: 0 }, pitch: 0, yaw: 0 });
    camera.set_pitch_yaw(-5, 6);
    camera.set_pos(Position { x: 1, y: 2, z: 3 });
    assert_eq!(camera, FpsCamera { pos: Position { x: 1, y: 2, z: 3 }, pitch: -5, yaw: 6 });
    camera.set_pitch_yaw(0, 1);
    assert_eq!(camera.pos, Position { x: 1, y: 2, z: 3 });
}
