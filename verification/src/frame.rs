//! The application driver: the scene that the viewer starts with, and one
//! frame of the loop, from camera input over the simulation steps that fell
//! due to the plan of the render pass.

use vstd::prelude::*;
use crate::render::pass_error;
use crate::render::planned;
use crate::render::render;
use crate::render::view_camera;
use crate::render::RenderCommand;
use crate::render::RenderParams;
use crate::systems::camera_input;
use crate::systems::camera_steered;
use crate::systems::lemma_steered_keeps_components;
use crate::systems::lemma_ticked_keeps_components;
use crate::systems::tick;
use crate::systems::ticked_n;
use crate::systems::CameraInput;
use crate::timestep::FixedTimestep;
use crate::world::single;
use crate::world::CameraComponent;
use crate::world::ComponentSet;
use crate::world::Entity;
use crate::world::EntityId;
use crate::world::FpsCamera;
use crate::world::Model;
use crate::world::PitchYaw;
use crate::world::Position;
use crate::world::QuerySingleError;
use crate::world::Time;
use crate::world::Velocity;
use crate::world::World;

verus! {

/// Whether `clock` is the time resource after `due` steps of `dt` that
/// began at simulation time `sim_time`: it holds the start of the last step
/// and the length of a step, or is what it was `before` if no step ran.
pub open spec fn clock_after(clock: Time, before: Time, sim_time: int, dt: int, due: int) -> bool {
    if due <= 0 {
        clock == before
    } else {
        clock.time == sim_time + (due - 1) * dt && clock.time_delta == dt
    }
}

/// One frame of the loop. The camera is steered by `input`; the clock
/// reading `now` is taken and the update routines run once for each
/// simulation step that fell due, each with the time resource at the start
/// of that step; then one render pass is planned over the world as the
/// steps left it.
///
/// The frame fails where a render pass would, before anything has
/// changed: unless exactly one entity carries the full camera set and no
/// other entity carries a camera.
pub fn frame(
    world: &mut World,
    timestep: &mut FixedTimestep,
    render_params: &mut RenderParams,
    input: CameraInput,
    now: u64,
) -> (pass: Result<Vec<RenderCommand>, QuerySingleError>)
    requires
        old(timestep)@.valid(),
    ensures
        final(timestep)@.valid(),
        final(world).entities().len() == old(world).entities().len(),
        match pass_error(old(world).entities()) {
            Some(e) => {
                &&& pass == Err::<Vec<RenderCommand>, QuerySingleError>(e)
                &&& final(world).entities() == old(world).entities()
                &&& final(world).clock() == old(world).clock()
                &&& final(timestep)@ == old(timestep)@
                &&& *final(render_params) == *old(render_params)
            },
            None => {
                let due = old(timestep)@.due(now as int);
                let dt = old(timestep)@.fixed_dt;
                let plan = planned(
                    *old(render_params),
                    final(world).clock(),
                    view_camera(final(world).entities()),
                    final(world).entities(),
                );
                &&& final(timestep)@ == old(timestep)@.advanced(now as int)
                &&& final(world).entities() == ticked_n(
                    camera_steered(old(world).entities(), input),
                    dt,
                    due as nat,
                )
                &&& clock_after(
                    final(world).clock(),
                    old(world).clock(),
                    old(timestep)@.sim_time,
                    dt,
                    due,
                )
                &&& pass is Ok
                &&& pass->Ok_0@ == plan.commands
                &&& *final(render_params) == (RenderParams {
                    ubo_global: plan.buffer,
                    ..*old(render_params)
                })
            },
        },
{
    let ghost before = world.entities();
    let rig = ComponentSet::camera_rig();
    let lone = ComponentSet::camera();
    proof {
        world.lemma_bounded();
    }
    match world.get_single(rig) {
        Ok(_) => {},
        Err(e) => {
            return Err(e);
        },
    }
    match world.get_single(lone) {
        Ok(_) => {},
        Err(e) => {
            return Err(e);
        },
    }
    // Update camera
    match camera_input(world, input) {
        Ok(_) => {},
        Err(e) => {
            return Err(e);
        },
    }
    let ghost steered = world.entities();
    proof {
        lemma_steered_keeps_components(before, input, rig);
        lemma_steered_keeps_components(before, input, lone);
    }

    // Fixed timestep
    let ghost started = timestep@;
    let dt: u64 = timestep.fixed_dt();
    let mut sim_time: u64 = timestep.sim_time();
    let due: u64 = timestep.advance(now);

    let mut k: u64 = 0;
    while k < due
        invariant
            k <= due,
            rig == ComponentSet::camera_rig(),
            lone == ComponentSet::camera(),
            dt == started.fixed_dt,
            dt > 0,
            sim_time == started.sim_time + k * dt,
            started.sim_time + due * dt <= u64::MAX,
            world.entities() == ticked_n(steered, dt as int, k as nat),
            world.entities().len() == steered.len(),
            steered.len() <= usize::MAX,
            clock_after(
                world.clock(),
                old(world).clock(),
                started.sim_time,
                dt as int,
                k as int,
            ),
            single(world.entities(), rig) == single(steered, rig),
            single(world.entities(), lone) == single(steered, lone),
            single(steered, rig) is Ok,
            steered.len() == old(world).entities().len(),
        decreases due - k,
    {
        proof {
            lemma_ticked_keeps_components(world.entities(), dt as int, rig);
            lemma_ticked_keeps_components(world.entities(), dt as int, lone);
            assert((k + 1) * dt == k * dt + dt) by (nonlinear_arith);
            assert((k + 1) * dt <= due * dt) by (nonlinear_arith)
                requires
                    k + 1 <= due,
                    dt > 0,
            ;
        }
        // Update time and run updates
        match tick(world, Time { time: sim_time, time_delta: dt }) {
            Ok(_) => {},
            Err(e) => {
                return Err(e);
            },
        }
        // Consume accumulated time
        sim_time = sim_time + dt;
        k += 1;
    }

    // Render
    render(render_params, world.time(), world)
}

/// Where the entity at place `i` of the demo world stands.
pub open spec fn demo_position(i: int) -> Position {
    if i == 3 {
        Position::from_units(0, 0, 20)
    } else if i == 4 {
        Position::from_units(-10i32, 0, 10)
    } else if i == 5 {
        Position::from_units(10, 0, 10)
    } else {
        Position::from_units(0, 0, 0)
    }
}

/// The model name of the entity at place `i` of the demo world.
pub open spec fn demo_model(i: int) -> Seq<char> {
    if i == 1 {
        "resources/models/demo_scene.glb"@
    } else {
        "resources/models/fire_orb.glb"@
    }
}

/// The world that the viewer starts with: the camera at three units up
/// and ten back, pitched a tenth of a radian down; the demo scene at the
/// origin, at rest; and four fire orbs that rise at half a unit per
/// second. Returns the world and the camera entity.
pub fn demo_world() -> (made: (World, EntityId))
    ensures
        made.1 == EntityId(0),
        made.0.clock() == (Time { time: 0, time_delta: 0 }),
        made.0.entities().len() == 6,
        made.0.entities()[0].position == Some(Position::from_units(0, 3, 10)),
        made.0.entities()[0].velocity is None,
        made.0.entities()[0].pitch_yaw == Some(PitchYaw { pitch: -100_000i64, yaw: 0 }),
        made.0.entities()[0].model is None,
        made.0.entities()[0].camera == Some(
            CameraComponent {
                camera: FpsCamera { pos: Position { x: 0, y: 0, z: 0 }, pitch: 0, yaw: 0 },
            },
        ),
        forall|i: int|
            1 <= i < 6 ==> {
                let e = #[trigger] made.0.entities()[i];
                &&& e.position == Some(demo_position(i))
                &&& e.velocity == Some(
                    Velocity { x: 0, y: if i == 1 { 0i64 } else { 500i64 }, z: 0 },
                )
                &&& e.pitch_yaw is None
                &&& e.camera is None
                &&& e.model is Some
                &&& e.model->0.name@ == demo_model(i)
            },
        pass_error(made.0.entities()) is None,
{
    // Create world
    let mut world = World::new();

    // Spawn camera entity
    let camera_id = world.spawn(
        Entity::new().with_position(Position::from_units(0, 3, 10)).with_pitch_yaw(
            PitchYaw { pitch: -100_000i64, yaw: 0 },
        ).with_camera(CameraComponent { camera: FpsCamera::new() }),
    );

    // Spawn world entity
    world.spawn(
        Entity::new().with_position(Position::from_units(0, 0, 0)).with_velocity(
            Velocity { x: 0, y: 0, z: 0 },
        ).with_model(Model { name: "resources/models/demo_scene.glb".to_owned() }),
    );

    // Spawn ball entities
    world.spawn(
        Entity::new().with_position(Position::from_units(0, 0, 0)).with_velocity(
            Velocity { x: 0, y: 500, z: 0 },
        ).with_model(Model { name: "resources/models/fire_orb.glb".to_owned() }),
    );

    world.spawn(
        Entity::new().with_position(Position::from_units(0, 0, 20)).with_velocity(
            Velocity { x: 0, y: 500, z: 0 },
        ).with_model(Model { name: "resources/models/fire_orb.glb".to_owned() }),
    );

    world.spawn(
        Entity::new().with_position(Position::from_units(-10, 0, 10)).with_velocity(
            Velocity { x: 0, y: 500, z: 0 },
        ).with_model(Model { name: "resources/models/fire_orb.glb".to_owned() }),
    );

    world.spawn(
        Entity::new().with_position(Position::from_units(10, 0, 10)).with_velocity(
            Velocity { x: 0, y: 500, z: 0 },
        ).with_model(Model { name: "resources/models/fire_orb.glb".to_owned() }),
    );
    proof {
        reveal_with_fuel(crate::world::matching, 8);
    }
    (world, camera_id)
}

} // verus!
