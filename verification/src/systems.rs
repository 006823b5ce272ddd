//! The update routines: movement and camera-follow, which run once per
//! simulation step, and the steering of the camera from input, which runs
//! once per frame.

use vstd::prelude::*;
use crate::config::CAM_FLY_SPEED;
use crate::config::CAM_LOOK_SPEED;
use crate::fixed::advance;
use crate::fixed::advanced;
use crate::fixed::clamp;
use crate::fixed::lemma_advanced_n;
use crate::fixed::mul_add;
use crate::world::frontier;
use crate::world::lemma_between_matches;
use crate::world::lemma_matching;
use crate::world::matching;
use crate::world::lemma_matching_same;
use crate::world::single;
use crate::world::CameraComponent;
use crate::world::ComponentSet;
use crate::world::Entity;
use crate::world::FpsCamera;
use crate::world::PitchYaw;
use crate::world::Position;
use crate::world::QuerySingleError;
use crate::world::Time;
use crate::world::Velocity;
use crate::world::World;

verus! {

/// Where `position` stands after moving at `velocity` for `dt`.
pub open spec fn moved_position(position: Position, velocity: Velocity, dt: int) -> Position {
    Position {
        x: advanced(position.x as int, velocity.x as int, dt) as i64,
        y: advanced(position.y as int, velocity.y as int, dt) as i64,
        z: advanced(position.z as int, velocity.z as int, dt) as i64,
    }
}

/// An entity after one step of movement: one with a position and a velocity
/// has moved, any other is as it was.
pub open spec fn moved(entity: Entity, dt: int) -> Entity {
    match (entity.position, entity.velocity) {
        (Some(position), Some(velocity)) => Entity {
            position: Some(moved_position(position, velocity, dt)),
            ..entity
        },
        _ => entity,
    }
}

/// All entities after one step of movement.
pub open spec fn moved_all(entities: Seq<Entity>, dt: int) -> Seq<Entity> {
    Seq::new(entities.len(), |i: int| moved(entities[i], dt))
}

/// An entity whose camera has taken up the entity's position and
/// orientation; one that lacks any of the three is as it was.
pub open spec fn synced(entity: Entity) -> Entity {
    match (entity.position, entity.pitch_yaw, entity.camera) {
        (Some(position), Some(pitch_yaw), Some(_)) => Entity {
            camera: Some(
                CameraComponent {
                    camera: FpsCamera {
                        pos: position,
                        pitch: pitch_yaw.pitch,
                        yaw: pitch_yaw.yaw,
                    },
                },
            ),
            ..entity
        },
        _ => entity,
    }
}

/// All entities after the camera routine: the single camera entity is
/// synced; where there is not exactly one, nothing changes.
pub open spec fn camera_synced(entities: Seq<Entity>) -> Seq<Entity> {
    match single(entities, ComponentSet::camera_rig()) {
        Ok(id) => entities.update(id.0 as int, synced(entities[id.0 as int])),
        Err(_) => entities,
    }
}

/// All entities after one simulation step: movement, then camera.
pub open spec fn ticked(entities: Seq<Entity>, dt: int) -> Seq<Entity> {
    camera_synced(moved_all(entities, dt))
}

/// All entities after `n` simulation steps of `dt` each.
pub open spec fn ticked_n(entities: Seq<Entity>, dt: int, n: nat) -> Seq<Entity>
    decreases n,
{
    if n == 0 {
        entities
    } else {
        ticked(ticked_n(entities, dt, (n - 1) as nat), dt)
    }
}

/// A direction, as a unit vector in direction counts.
#[derive(Clone, Copy, Debug, PartialEq, Eq, Structural)]
pub struct Direction {
    pub x: i64,
    pub y: i64,
    pub z: i64,
}

/// What per-frame input asks of the camera.
#[derive(Clone, Copy, Debug, PartialEq, Eq, Structural)]
pub struct CameraInput {
    /// How far the cursor moved to the right since the last frame, in cursor
    /// counts.
    pub mouse_dx: i64,
    /// How far the cursor moved down since the last frame, in cursor counts.
    pub mouse_dy: i64,
    /// Whether the forward key is held.
    pub forward_held: bool,
    /// The camera's forward vector.
    pub forward: Direction,
}

/// The orientation after the cursor moved by `mouse_dx` and `mouse_dy`: both
/// axes inverted, scaled by the look speed.
pub open spec fn turned(pitch_yaw: PitchYaw, mouse_dx: int, mouse_dy: int) -> PitchYaw {
    PitchYaw {
        pitch: clamp(pitch_yaw.pitch - mouse_dy * CAM_LOOK_SPEED) as i64,
        yaw: clamp(pitch_yaw.yaw - mouse_dx * CAM_LOOK_SPEED) as i64,
    }
}

/// The position after one frame of flying along `forward`.
pub open spec fn flown(position: Position, forward: Direction) -> Position {
    Position {
        x: clamp(position.x + forward.x * CAM_FLY_SPEED) as i64,
        y: clamp(position.y + forward.y * CAM_FLY_SPEED) as i64,
        z: clamp(position.z + forward.z * CAM_FLY_SPEED) as i64,
    }
}

/// The camera entity after one frame of input: turned by the cursor, and
/// flown forward where the key is held. Its camera component is untouched
/// until the camera routine next runs.
pub open spec fn steered(entity: Entity, input: CameraInput) -> Entity {
    match (entity.position, entity.pitch_yaw) {
        (Some(position), Some(pitch_yaw)) => Entity {
            position: Some(
                if input.forward_held {
                    flown(position, input.forward)
                } else {
                    position
                },
            ),
            pitch_yaw: Some(turned(pitch_yaw, input.mouse_dx as int, input.mouse_dy as int)),
            ..entity
        },
        _ => entity,
    }
}

/// All entities after one frame of camera input: the single camera entity
/// is steered; where there is not exactly one, nothing changes.
pub open spec fn camera_steered(entities: Seq<Entity>, input: CameraInput) -> Seq<Entity> {
    match single(entities, ComponentSet::camera_rig()) {
        Ok(id) => entities.update(id.0 as int, steered(entities[id.0 as int], input)),
        Err(_) => entities,
    }
}

/// Movement system: every entity with a position and a velocity moves by
/// its velocity times the delta of the time resource.
pub fn movement(world: &mut World)
    ensures
        final(world).entities() == moved_all(
            old(world).entities(),
            old(world).clock().time_delta as int,
        ),
        final(world).clock() == old(world).clock(),
{
    let ghost before = world.entities();
    let dt: u64 = world.time().time_delta;
    let found = world.query(ComponentSet::moving());
    proof {
        world.lemma_bounded();
        lemma_matching(before, ComponentSet::moving());
        lemma_between_matches(before, ComponentSet::moving(), 0);
    }
    let mut k: usize = 0;
    while k < found.len()
        invariant
            k <= found.len(),
            found@ == matching(before, ComponentSet::moving()),
            before.len() <= usize::MAX,
            world.entities().len() == before.len(),
            world.clock() == old(world).clock(),
            dt == old(world).clock().time_delta,
            forall|j: int|
                0 <= j < frontier(found@, k as int, before.len()) ==> world.entities()[j] == moved(
                    before[j],
                    dt as int,
                ),
            forall|j: int|
                frontier(found@, k as int, before.len()) <= j < before.len()
                    ==> world.entities()[j] == before[j],
        decreases found.len() - k,
    {
        let id = found[k];
        proof {
            lemma_matching(before, ComponentSet::moving());
            lemma_between_matches(before, ComponentSet::moving(), k + 1);
        }
        let mut target: Option<Position> = None;
        match world.get(id) {
            Some(entity) => {
                match (entity.position, entity.velocity) {
                    (Some(position), Some(velocity)) => {
                        target = Some(
                            Position {
                                x: advance(position.x, velocity.x, dt),
                                y: advance(position.y, velocity.y, dt),
                                z: advance(position.z, velocity.z, dt),
                            },
                        );
                    },
                    _ => {},
                }
            },
            None => {},
        }
        match target {
            Some(position) => {
                world.set_position(id, position);
            },
            None => {},
        }
        k += 1;
    }
    assert(world.entities() =~= moved_all(before, dt as int));
}

/// Camera system: the camera of the single camera entity takes up the
/// entity's position and orientation. Fails, and changes nothing, unless
/// exactly one entity carries a position, an orientation and a camera.
pub fn camera(world: &mut World) -> (done: Result<(), QuerySingleError>)
    ensures
        match single(old(world).entities(), ComponentSet::camera_rig()) {
            Ok(_) => done is Ok,
            Err(e) => done == Err::<(), QuerySingleError>(e),
        },
        final(world).entities() == camera_synced(old(world).entities()),
        final(world).clock() == old(world).clock(),
{
    proof {
        world.lemma_bounded();
        lemma_matching(world.entities(), ComponentSet::camera_rig());
    }
    match world.get_single(ComponentSet::camera_rig()) {
        Ok(id) => {
            let mut snapshot: Option<FpsCamera> = None;
            match world.get(id) {
                Some(entity) => {
                    match (entity.position, entity.pitch_yaw, entity.camera) {
                        (Some(position), Some(pitch_yaw), Some(component)) => {
                            let mut camera = component.camera;
                            camera.set_pos(position);
                            camera.set_pitch_yaw(pitch_yaw.pitch, pitch_yaw.yaw);
                            snapshot = Some(camera);
                        },
                        _ => {},
                    }
                },
                None => {},
            }
            match snapshot {
                Some(camera) => {
                    world.set_camera(id, CameraComponent { camera });
                },
                None => {},
            }
            Ok(())
        },
        Err(e) => Err(e),
    }
}

/// Steers the single camera entity from one frame of input: the cursor
/// turns it, and while the forward key is held it flies along `forward`.
/// Fails, and changes nothing, unless exactly one entity carries a
/// position, an orientation and a camera.
pub fn camera_input(world: &mut World, input: CameraInput) -> (done: Result<
    (),
    QuerySingleError,
>)
    ensures
        match single(old(world).entities(), ComponentSet::camera_rig()) {
            Ok(_) => done is Ok,
            Err(e) => done == Err::<(), QuerySingleError>(e),
        },
        final(world).entities() == camera_steered(old(world).entities(), input),
        final(world).clock() == old(world).clock(),
{
    proof {
        world.lemma_bounded();
        lemma_matching(world.entities(), ComponentSet::camera_rig());
    }
    let ghost before = world.entities();
    match world.get_single(ComponentSet::camera_rig()) {
        Ok(id) => {
            let mut target: Option<(Position, PitchYaw)> = None;
            match world.get(id) {
                Some(entity) => {
                    match (entity.position, entity.pitch_yaw) {
                        (Some(position), Some(pitch_yaw)) => {
                            let turn: i64 = 0 - CAM_LOOK_SPEED;
                            let orientation = PitchYaw {
                                pitch: mul_add(pitch_yaw.pitch, input.mouse_dy, turn),
                                yaw: mul_add(pitch_yaw.yaw, input.mouse_dx, turn),
                            };
                            let place = if input.forward_held {
                                Position {
                                    x: mul_add(position.x, input.forward.x, CAM_FLY_SPEED),
                                    y: mul_add(position.y, input.forward.y, CAM_FLY_SPEED),
                                    z: mul_add(position.z, input.forward.z, CAM_FLY_SPEED),
                                }
                            } else {
                                position
                            };
                            target = Some((place, orientation));
                        },
                        _ => {},
                    }
                },
                None => {},
            }
            match target {
                Some((place, orientation)) => {
                    world.set_position(id, place);
                    world.set_pitch_yaw(id, orientation);
                },
                None => {},
            }
            assert(world.entities() =~= camera_steered(before, input));
            Ok(())
        },
        Err(e) => Err(e),
    }
}

/// One simulation step: the time resource is set to `time`, then movement
/// and camera run. Fails unless there is exactly one camera entity;
/// movement has run all the same.
pub fn tick(world: &mut World, time: Time) -> (done: Result<(), QuerySingleError>)
    ensures
        match single(old(world).entities(), ComponentSet::camera_rig()) {
            Ok(_) => done is Ok,
            Err(e) => done == Err::<(), QuerySingleError>(e),
        },
        final(world).entities() == ticked(old(world).entities(), time.time_delta as int),
        final(world).clock() == time,
{
    proof {
        world.lemma_bounded();
        lemma_matching_same(
            world.entities(),
            moved_all(world.entities(), time.time_delta as int),
            ComponentSet::camera_rig(),
        );
    }
    world.set_time(time);
    movement(world);
    camera(world)
}

/// A simulation step changes no entity's set of components, so every query
/// finds after it what it found before.
pub proof fn lemma_ticked_keeps_components(entities: Seq<Entity>, dt: int, set: ComponentSet)
    requires
        entities.len() <= usize::MAX,
    ensures
        ticked(entities, dt).len() == entities.len(),
        matching(ticked(entities, dt), set) == matching(
            entities,
            set,
        ),
        single(ticked(entities, dt), set) == single(entities, set),
{
    let moved = moved_all(entities, dt);
    lemma_matching_same(entities, moved, set);
    lemma_matching(moved, ComponentSet::camera_rig());
    lemma_matching_same(moved, camera_synced(moved), set);
}

/// Steering changes no entity's set of components.
pub proof fn lemma_steered_keeps_components(
    entities: Seq<Entity>,
    input: CameraInput,
    set: ComponentSet,
)
    requires
        entities.len() <= usize::MAX,
    ensures
        camera_steered(entities, input).len() == entities.len(),
        matching(camera_steered(entities, input), set) == matching(
            entities,
            set,
        ),
        single(camera_steered(entities, input), set) == single(entities, set),
{
    lemma_matching(entities, ComponentSet::camera_rig());
    lemma_matching_same(entities, camera_steered(entities, input), set);
}

/// Movement and camera can run in either order, and so side by side,
/// where no entity with the full camera set has a velocity: movement then
/// writes no position that the camera routine reads.
pub proof fn lemma_updates_commute(entities: Seq<Entity>, dt: int)
    requires
        entities.len() <= usize::MAX,
        forall|i: int|
            0 <= i < entities.len() && (#[trigger] entities[i]).has_all(
                ComponentSet::camera_rig(),
            ) ==> entities[i].velocity is None,
    ensures
        camera_synced(moved_all(entities, dt)) == moved_all(camera_synced(entities), dt),
{
    let rig = ComponentSet::camera_rig();
    let moved = moved_all(entities, dt);
    lemma_matching_same(entities, moved, rig);
    lemma_matching(entities, rig);
    lemma_matching(moved, rig);
    assert(camera_synced(moved) =~= moved_all(camera_synced(entities), dt));
}

/// One simulation step keeps the number of entities and every component
/// but positions and cameras, and moves each position as movement does.
pub proof fn lemma_ticked(entities: Seq<Entity>, dt: int, i: int)
    requires
        0 <= i < entities.len() <= usize::MAX,
    ensures
        ticked(entities, dt).len() == entities.len(),
        ticked(entities, dt)[i].position == moved(entities[i], dt).position,
        ticked(entities, dt)[i].velocity == entities[i].velocity,
        ticked(entities, dt)[i].pitch_yaw == entities[i].pitch_yaw,
        ticked(entities, dt)[i].model == entities[i].model,
{
    lemma_matching(moved_all(entities, dt), ComponentSet::camera_rig());
}

/// After `n` simulation steps of `dt` each, an entity with a position and a
/// velocity stands at its first position plus its velocity times `n * dt`,
/// in each coordinate and saturated; its velocity is what it was. An entity
/// that lacks either stands where it stood. How the steps were spread over
/// frames does not enter.
pub proof fn lemma_position_after_ticks(entities: Seq<Entity>, dt: int, n: nat, i: int)
    requires
        0 <= i < entities.len() <= usize::MAX,
    ensures
        ticked_n(entities, dt, n).len() == entities.len(),
        ticked_n(entities, dt, n)[i].velocity == entities[i].velocity,
        ticked_n(entities, dt, n)[i].position == match (
            entities[i].position,
            entities[i].velocity,
        ) {
            (Some(position), Some(velocity)) => Some(moved_position(position, velocity, n * dt)),
            _ => entities[i].position,
        },
    decreases n,
{
    if n == 0 {
        match (entities[i].position, entities[i].velocity) {
            (Some(position), Some(velocity)) => {
                lemma_advanced_n(position.x as int, velocity.x as int, dt, 0);
                lemma_advanced_n(position.y as int, velocity.y as int, dt, 0);
                lemma_advanced_n(position.z as int, velocity.z as int, dt, 0);
            },
            _ => {},
        }
    } else {
        let m = (n - 1) as nat;
        let before = ticked_n(entities, dt, m);
        lemma_position_after_ticks(entities, dt, m, i);
        lemma_ticked(before, dt, i);
        match (entities[i].position, entities[i].velocity) {
            (Some(position), Some(velocity)) => {
                lemma_advanced_n(position.x as int, velocity.x as int, dt, m);
                lemma_advanced_n(position.y as int, velocity.y as int, dt, m);
                lemma_advanced_n(position.z as int, velocity.z as int, dt, m);
                lemma_advanced_n(position.x as int, velocity.x as int, dt, n);
                lemma_advanced_n(position.y as int, velocity.y as int, dt, n);
                lemma_advanced_n(position.z as int, velocity.z as int, dt, n);
            },
            _ => {},
        }
    }
}

} // verus!
