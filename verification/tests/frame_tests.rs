use dreamfield::config::{
    DIRECTION_SCALE, FIXED_UPDATE_TIME, POSITION_SCALE, TIME_UNITS_PER_SECOND,
};
use dreamfield::frame::{demo_world, frame};
use dreamfield::render::{RenderCommand, RenderParams};
use dreamfield::systems::{CameraInput, Direction};
use dreamfield::timestep::FixedTimestep;
use dreamfield::uniform::Uniform;
use dreamfield::world::{
    CameraComponent, ComponentSet, Entity, EntityId, FpsCamera, Model, PitchYaw, Position,
    QuerySingleError, Time, Velocity, World,
};

fn still() -> CameraInput {
    CameraInput {
        mouse_dx: 0,
        mouse_dy: 0,
        forward_held: false,
        forward: Direction { x: 0, y: 0, z: -DIRECTION_SCALE },
    }
}

fn camera_entity() -> Entity {
    Entity::new()
        .with_position(Position::from_units(0, 3, 10))
        .with_pitch_yaw(PitchYaw { pitch: -100_000, yaw: 0 })
        .with_camera(CameraComponent { camera: FpsCamera::new() })
}

fn model_entity(velocity: Velocity) -> Entity {
    Entity::new()
        .with_position(Position::from_units(0, 0, 0))
        .with_velocity(velocity)
        .with_model(Model { name: "resources/models/demo_scene.glb".to_string() })
}

fn draws(plan: &[RenderCommand]) -> Vec<(String, Position)> {
    let mut found = Vec::new();
    for command in plan {
        if let RenderCommand::DrawModel { name, transform } = command {
            found.push((name.clone(), *transform));
        }
    }
    found
}

#[test]
fn the_demo_world_is_the_camera_the_scene_and_four_orbs() {
    let (world, camera) = demo_world();
    assert_eq!(camera, EntityId(0));
    assert_eq!(world.len(), 6);
    assert_eq!(world.time(), Time { time: 0, time_delta: 0 });
    assert_eq!(world.get(camera), Some(&camera_entity()));
    assert_eq!(world.get(EntityId(1)), Some(&model_entity(Velocity { x: 0, y: 0, z: 0 })));
    let places = [
        Position::from_units(0, 0, 0),
        Position::from_units(0, 0, 20),
        Position::from_units(-10, 0, 10),
        Position::from_units(10, 0, 10),
    ];
    for (k, place) in places.iter().enumerate() {
        let orb = Entity::new()
            .with_position(*place)
            .with_velocity(Velocity { x: 0, y: 500, z: 0 })
            .with_model(Model { name: "resources/models/fire_orb.glb".to_string() });
        assert_eq!(world.get(EntityId(k + 2)), Some(&orb));
    }
    assert_eq!(world.get_single(ComponentSet::camera_rig()), Ok(camera));
    assert_eq!(world.get_single(ComponentSet::camera()), Ok(camera));
    assert_eq!(world.query(ComponentSet::drawable()).len(), 5);
}

#[test]
fn thirty_ticks_leave_a_resting_model_and_the_camera_in_place() {
    let mut world = World::new();
    let camera = world.spawn(camera_entity());
    let model = world.spawn(model_entity(Velocity { x: 0, y: 0, z: 0 }));
    let mut timestep = FixedTimestep::new(0, FIXED_UPDATE_TIME);
    let mut params = RenderParams::new();
    let mut plan = Vec::new();
    for k in 1..=30u64 {
        plan = frame(&mut world, &mut timestep, &mut params, still(), k * FIXED_UPDATE_TIME)
            .unwrap();
    }
    assert_eq!(timestep.steps(), 30);
    assert_eq!(timestep.sim_time(), TIME_UNITS_PER_SECOND);
    assert_eq!(world.get(model), Some(&model_entity(Velocity { x: 0, y: 0, z: 0 })));
    let eye = FpsCamera { pos: Position::from_units(0, 3, 10), pitch: -100_000, yaw: 0 };
    assert_eq!(world.get(camera).unwrap().camera, Some(CameraComponent { camera: eye }));
    assert_eq!(world.get(camera).unwrap().position, Some(Position::from_units(0, 3, 10)));
    assert_eq!(
        world.get(camera).unwrap().pitch_yaw,
        Some(PitchYaw { pitch: -100_000, yaw: 0 })
    );
    assert_eq!(params.ubo_global.params.mat_view, eye);
    assert_eq!(eye.pos.y as f64 / POSITION_SCALE as f64, 3.0);
    assert_eq!(eye.pos.z as f64 / POSITION_SCALE as f64, 10.0);
    assert_eq!(eye.pitch as f64 / 1_000_000.0, -0.1);
    assert_eq!(
        draws(&plan),
        vec![("resources/models/demo_scene.glb".to_string(), Position::from_units(0, 0, 0))]
    );
}

#[test]
fn the_first_frame_with_a_tick_shows_the_camera_view() {
    let mut world = World::new();
    world.spawn(camera_entity());
    let mut timestep = FixedTimestep::new(0, FIXED_UPDATE_TIME);
    let mut params = RenderParams::new();
    let plan =
        frame(&mut world, &mut timestep, &mut params, still(), FIXED_UPDATE_TIME).unwrap();
    let eye = FpsCamera { pos: Position::from_units(0, 3, 10), pitch: -100_000, yaw: 0 };
    assert!(plan.contains(&RenderCommand::Upload(Uniform::MatView(eye))));
    assert!(plan.contains(&RenderCommand::Upload(Uniform::SimTime(0))));
}

#[test]
fn two_seconds_raise_an_orb_by_one_unit() {
    let (mut world, _) = demo_world();
    let mut timestep = FixedTimestep::new(0, FIXED_UPDATE_TIME);
    let mut params = RenderParams::new();
    // sixty ticks, unevenly spread over frames
    let readings = [1u64, 99_999, 100_000, 250_000, 1_000_000, 1_000_001, 4_500_000, 6_000_000];
    let mut ticks_seen = Vec::new();
    for now in readings {
        let before = timestep.steps();
        frame(&mut world, &mut timestep, &mut params, still(), now).unwrap();
        ticks_seen.push(timestep.steps() - before);
    }
    assert_eq!(ticks_seen, vec![0, 0, 1, 1, 8, 0, 35, 15]);
    assert_eq!(timestep.steps(), 60);
    assert_eq!(timestep.sim_time(), 2 * TIME_UNITS_PER_SECOND);
    assert_eq!(timestep.accumulator(), 0);
    for k in 2..6usize {
        let y = world.get(EntityId(k)).unwrap().position.unwrap().y;
        assert_eq!(y, POSITION_SCALE);
        assert!((y as f64 / POSITION_SCALE as f64 - 1.0).abs() < 1e-4);
    }
    assert_eq!(world.get(EntityId(1)).unwrap().position, Some(Position::from_units(0, 0, 0)));
    assert_eq!(world.time(), Time { time: 5_900_000, time_delta: FIXED_UPDATE_TIME });
    assert_eq!(params.ubo_global.params.sim_time, 5_900_000);
}

#[test]
fn a_frame_without_a_tick_still_renders_the_latest_state() {
    let (mut world, camera) = demo_world();
    let mut timestep = FixedTimestep::new(500, FIXED_UPDATE_TIME);
    let mut params = RenderParams::new();
    let plan = frame(&mut world, &mut timestep, &mut params, still(), 600).unwrap();
    assert_eq!(timestep.steps(), 0);
    assert_eq!(timestep.accumulator(), 100);
    assert_eq!(world.time(), Time { time: 0, time_delta: 0 });
    assert_eq!(draws(&plan).len(), 5);
    // no tick has synced the camera yet
    assert_eq!(
        world.get(camera).unwrap().camera,
        Some(CameraComponent { camera: FpsCamera::new() })
    );
    assert_eq!(params.ubo_global.params.mat_view, FpsCamera::new());
}

#[test]
fn input_steers_the_camera_before_the_ticks() {
    let (mut world, camera) = demo_world();
    let mut timestep = FixedTimestep::new(0, FIXED_UPDATE_TIME);
    let mut params = RenderParams::new();
    let input = CameraInput {
        mouse_dx: 10_000,
        mouse_dy: 20_000,
        forward_held: true,
        forward: Direction { x: 0, y: 0, z: -DIRECTION_SCALE },
    };
    frame(&mut world, &mut timestep, &mut params, input, FIXED_UPDATE_TIME).unwrap();
    let place = Position {
        x: 0,
        y: 3 * POSITION_SCALE,
        z: 10 * POSITION_SCALE - POSITION_SCALE / 10,
    };
    let e = world.get(camera).unwrap();
    assert_eq!(e.position, Some(place));
    assert_eq!(e.pitch_yaw, Some(PitchYaw { pitch: -120_000, yaw: -10_000 }));
    assert_eq!(
        e.camera,
        Some(CameraComponent {
            camera: FpsCamera { pos: place, pitch: -120_000, yaw: -10_000 }
        })
    );
    assert_eq!(params.ubo_global.params.mat_view, e.camera.unwrap().camera);
}

#[test]
fn a_frame_without_a_camera_fails_and_changes_nothing() {
    let mut world = World::new();
    let model = world.spawn(model_entity(Velocity { x: 0, y: 500, z: 0 }));
    let mut timestep = FixedTimestep::new(0, FIXED_UPDATE_TIME);
    let mut params = RenderParams::new();
    let before = params.clone();
    assert_eq!(
        frame(&mut world, &mut timestep, &mut params, still(), 10 * FIXED_UPDATE_TIME),
        Err(QuerySingleError::NoEntities)
    );
    assert_eq!(world.get(model), Some(&model_entity(Velocity { x: 0, y: 500, z: 0 })));
    assert_eq!(world.time(), Time { time: 0, time_delta: 0 });
    assert_eq!(timestep.steps(), 0);
    assert_eq!(timestep.current_time(), 0);
    assert_eq!(params, before);
}

#[test]
fn a_frame_with_two_cameras_fails_and_changes_nothing() {
    let mut world = World::new();
    world.spawn(camera_entity());
    world.spawn(camera_entity());
    let mut timestep = FixedTimestep::new(0, FIXED_UPDATE_TIME);
    let mut params = RenderParams::new();
    let input = CameraInput { mouse_dx: 5, forward_held: true, ..still() };
    assert_eq!(
        frame(&mut world, &mut timestep, &mut params, input, 3 * FIXED_UPDATE_TIME),
        Err(QuerySingleError::MultipleEntities)
    );
    assert_eq!(world.get(EntityId(0)), Some(&camera_entity()));
    assert_eq!(world.get(EntityId(1)), Some(&camera_entity()));
    assert_eq!(timestep.accumulator(), 0);
}

#[test]
fn a_frame_with_a_second_bare_camera_fails_and_changes_nothing() {
    let mut world = World::new();
    world.spawn(camera_entity());
    world.spawn(Entity::new().with_camera(CameraComponent { camera: FpsCamera::new() }));
    let orb = world.spawn(model_entity(Velocity { x: 0, y: 500, z: 0 }));
    let mut timestep = FixedTimestep::new(0, FIXED_UPDATE_TIME);
    let mut params = RenderParams::new();
    assert_eq!(
        frame(&mut world, &mut timestep, &mut params, still(), 3 * FIXED_UPDATE_TIME),
        Err(QuerySingleError::MultipleEntities)
    );
    assert_eq!(world.get(orb), Some(&model_entity(Velocity { x: 0, y: 500, z: 0 })));
    assert_eq!(timestep.steps(), 0);
    assert_eq!(params, RenderParams::new());
}
