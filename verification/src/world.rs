//! The entity-component world: entities, their components, and queries by the
//! components an entity carries.

use vstd::prelude::*;
use crate::config::POSITION_SCALE;

verus! {

/// Position component, in position counts.
#[derive(Clone, Copy, Debug, PartialEq, Eq, Structural)]
pub struct Position {
    pub x: i64,
    pub y: i64,
    pub z: i64,
}

/// Velocity component, in velocity counts.
#[derive(Clone, Copy, Debug, PartialEq, Eq, Structural)]
pub struct Velocity {
    pub x: i64,
    pub y: i64,
    pub z: i64,
}

/// PitchYaw component, in angle counts.
#[derive(Clone, Copy, Debug, PartialEq, Eq, Structural)]
pub struct PitchYaw {
    pub pitch: i64,
    pub yaw: i64,
}

/// Model component: the name of the asset that draws the entity.
#[derive(Clone, Debug, PartialEq, Eq)]
pub struct Model {
    pub name: String,
}

/// A first-person camera: where it stands and where it looks. The forward
/// vector and the view matrix follow from these three values.
#[derive(Clone, Copy, Debug, PartialEq, Eq, Structural)]
pub struct FpsCamera {
    pub pos: Position,
    pub pitch: i64,
    pub yaw: i64,
}

/// Camera component.
#[derive(Clone, Copy, Debug, PartialEq, Eq, Structural)]
pub struct CameraComponent {
    pub camera: FpsCamera,
}

/// Time resource: the simulation time and the delta of the step that runs.
#[derive(Clone, Copy, Debug, PartialEq, Eq, Structural)]
pub struct Time {
    pub time: u64,
    pub time_delta: u64,
}

/// What an entity carries: at most one component of each kind.
#[derive(Clone, Debug, PartialEq, Eq)]
pub struct Entity {
    pub position: Option<Position>,
    pub velocity: Option<Velocity>,
    pub pitch_yaw: Option<PitchYaw>,
    pub model: Option<Model>,
    pub camera: Option<CameraComponent>,
}

/// A set of component kinds, as a query asks for them.
#[derive(Clone, Copy, Debug, PartialEq, Eq, Structural)]
pub struct ComponentSet {
    pub position: bool,
    pub velocity: bool,
    pub pitch_yaw: bool,
    pub model: bool,
    pub camera: bool,
}

/// Names an entity of a world: its place in the order of spawning.
#[derive(Clone, Copy, Debug, PartialEq, Eq, Structural)]
pub struct EntityId(pub usize);

/// Why a query for exactly one entity failed.
#[derive(Clone, Copy, Debug, PartialEq, Eq, Structural)]
pub enum QuerySingleError {
    /// No entity carries all the components asked for.
    NoEntities,
    /// More than one entity carries all the components asked for.
    MultipleEntities,
}

/// The entities and the process-wide time resource.
pub struct World {
    entities: Vec<Entity>,
    time: Time,
}

impl Position {
    /// The position at `x`, `y`, `z` whole world units.
    pub open spec fn spec_from_units(x: i32, y: i32, z: i32) -> Position {
        Position {
            x: (x * POSITION_SCALE) as i64,
            y: (y * POSITION_SCALE) as i64,
            z: (z * POSITION_SCALE) as i64,
        }
    }

    /// The position at `x`, `y`, `z` whole world units.
    #[verifier::when_used_as_spec(spec_from_units)]
    pub fn from_units(x: i32, y: i32, z: i32) -> (position: Position)
        ensures
            position == Self::spec_from_units(x, y, z),
    {
        Position {
            x: (x as i64) * POSITION_SCALE,
            y: (y as i64) * POSITION_SCALE,
            z: (z as i64) * POSITION_SCALE,
        }
    }
}

impl FpsCamera {
    /// A camera at the origin that looks along yaw zero, level.
    pub fn new() -> (camera: FpsCamera)
        ensures
            camera == (FpsCamera { pos: Position { x: 0, y: 0, z: 0 }, pitch: 0, yaw: 0 }),
    {
        FpsCamera { pos: Position { x: 0, y: 0, z: 0 }, pitch: 0, yaw: 0 }
    }

    /// Moves the camera to `pos`.
    pub fn set_pos(&mut self, pos: Position)
        ensures
            *final(self) == (FpsCamera { pos, ..*old(self) }),
    {
        self.pos = pos;
    }

    /// Turns the camera to `pitch` and `yaw`.
    pub fn set_pitch_yaw(&mut self, pitch: i64, yaw: i64)
        ensures
            *final(self) == (FpsCamera { pitch, yaw, ..*old(self) }),
    {
        self.pitch = pitch;
        self.yaw = yaw;
    }
}

impl Default for Time {
    fn default() -> (time: Time)
        ensures
            time == (Time { time: 0, time_delta: 0 }),
    {
        Time { time: 0, time_delta: 0 }
    }
}

impl Entity {
    /// An entity that carries nothing.
    pub fn new() -> (entity: Entity)
        ensures
            entity == (Entity {
                position: None,
                velocity: None,
                pitch_yaw: None,
                model: None,
                camera: None,
            }),
    {
        Entity { position: None, velocity: None, pitch_yaw: None, model: None, camera: None }
    }

    /// The entity with `position` attached in place of any earlier one.
    pub fn with_position(self, position: Position) -> (entity: Entity)
        ensures
            entity == (Entity { position: Some(position), ..self }),
    {
        Entity { position: Some(position), ..self }
    }

    /// The entity with `velocity` attached in place of any earlier one.
    pub fn with_velocity(self, velocity: Velocity) -> (entity: Entity)
        ensures
            entity == (Entity { velocity: Some(velocity), ..self }),
    {
        Entity { velocity: Some(velocity), ..self }
    }

    /// The entity with `pitch_yaw` attached in place of any earlier one.
    pub fn with_pitch_yaw(self, pitch_yaw: PitchYaw) -> (entity: Entity)
        ensures
            entity == (Entity { pitch_yaw: Some(pitch_yaw), ..self }),
    {
        Entity { pitch_yaw: Some(pitch_yaw), ..self }
    }

    /// The entity with `model` attached in place of any earlier one.
    pub fn with_model(self, model: Model) -> (entity: Entity)
        ensures
            entity == (Entity { model: Some(model), ..self }),
    {
        Entity { model: Some(model), ..self }
    }

    /// The entity with `camera` attached in place of any earlier one.
    pub fn with_camera(self, camera: CameraComponent) -> (entity: Entity)
        ensures
            entity == (Entity { camera: Some(camera), ..self }),
    {
        Entity { camera: Some(camera), ..self }
    }

    /// Whether the entity carries every component kind in `set`.
    pub open spec fn has_all(self, set: ComponentSet) -> bool {
        &&& set.position ==> self.position is Some
        &&& set.velocity ==> self.velocity is Some
        &&& set.pitch_yaw ==> self.pitch_yaw is Some
        &&& set.model ==> self.model is Some
        &&& set.camera ==> self.camera is Some
    }

    /// Whether the entity carries every component kind in `set`.
    pub fn carries(&self, set: ComponentSet) -> (all: bool)
        ensures
            all == self.has_all(set),
    {
        (!set.position || self.position.is_some())
            && (!set.velocity || self.velocity.is_some())
            && (!set.pitch_yaw || self.pitch_yaw.is_some())
            && (!set.model || self.model.is_some())
            && (!set.camera || self.camera.is_some())
    }
}

impl ComponentSet {
    /// The set of no component kinds: every entity matches it.
    pub open spec fn spec_none() -> ComponentSet {
        ComponentSet {
            position: false,
            velocity: false,
            pitch_yaw: false,
            model: false,
            camera: false,
        }
    }

    /// What the movement routine asks for: a position and a velocity.
    pub open spec fn spec_moving() -> ComponentSet {
        ComponentSet { position: true, velocity: true, ..Self::spec_none() }
    }

    /// The full camera set: a position, an orientation and a camera.
    pub open spec fn spec_camera_rig() -> ComponentSet {
        ComponentSet { position: true, pitch_yaw: true, camera: true, ..Self::spec_none() }
    }

    /// A camera, with or without the rest of the camera set: a render pass
    /// asks that only one entity carries one.
    pub open spec fn spec_camera() -> ComponentSet {
        ComponentSet { camera: true, ..Self::spec_none() }
    }

    /// What the render pass draws: entities with a position and a model.
    pub open spec fn spec_drawable() -> ComponentSet {
        ComponentSet { position: true, model: true, ..Self::spec_none() }
    }

    /// The set of no component kinds: every entity matches it.
    #[verifier::when_used_as_spec(spec_none)]
    pub fn none() -> (set: ComponentSet)
        ensures
            set == Self::spec_none(),
    {
        ComponentSet {
            position: false,
            velocity: false,
            pitch_yaw: false,
            model: false,
            camera: false,
        }
    }

    /// What the movement routine asks for: a position and a velocity.
    #[verifier::when_used_as_spec(spec_moving)]
    pub fn moving() -> (set: ComponentSet)
        ensures
            set == Self::spec_moving(),
    {
        ComponentSet { position: true, velocity: true, ..Self::none() }
    }

    /// The full camera set: a position, an orientation and a camera.
    #[verifier::when_used_as_spec(spec_camera_rig)]
    pub fn camera_rig() -> (set: ComponentSet)
        ensures
            set == Self::spec_camera_rig(),
    {
        ComponentSet { position: true, pitch_yaw: true, camera: true, ..Self::none() }
    }

    /// A camera, with or without the rest of the camera set: a render pass
    /// asks that only one entity carries one.
    #[verifier::when_used_as_spec(spec_camera)]
    pub fn camera() -> (set: ComponentSet)
        ensures
            set == Self::spec_camera(),
    {
        ComponentSet { camera: true, ..Self::none() }
    }

    /// What the render pass draws: entities with a position and a model.
    #[verifier::when_used_as_spec(spec_drawable)]
    pub fn drawable() -> (set: ComponentSet)
        ensures
            set == Self::spec_drawable(),
    {
        ComponentSet { position: true, model: true, ..Self::none() }
    }
}

/// The entities of `entities` that carry all of `set`, in the order of
/// spawning: each one once, none left out.
pub open spec fn matching(entities: Seq<Entity>, set: ComponentSet) -> Seq<EntityId>
    decreases entities.len(),
{
    if entities.len() == 0 {
        Seq::empty()
    } else {
        let before = matching(entities.drop_last(), set);
        if entities.last().has_all(set) {
            before.push(EntityId((entities.len() - 1) as usize))
        } else {
            before
        }
    }
}

/// The one entity of `entities` that carries all of `set`, where there is
/// exactly one.
pub open spec fn single(entities: Seq<Entity>, set: ComponentSet) -> Result<
    EntityId,
    QuerySingleError,
> {
    let found = matching(entities, set);
    if found.len() == 1 {
        Ok(found[0])
    } else if found.len() == 0 {
        Err(QuerySingleError::NoEntities)
    } else {
        Err(QuerySingleError::MultipleEntities)
    }
}

/// What [`matching`] holds: only entities that exist and carry the set, in
/// strictly increasing order, and every such entity.
pub proof fn lemma_matching(entities: Seq<Entity>, set: ComponentSet)
    requires
        entities.len() <= usize::MAX,
    ensures
        forall|k: int|
            0 <= k < matching(entities, set).len() ==> {
                &&& (#[trigger] matching(entities, set)[k]).0 < entities.len()
                &&& entities[matching(entities, set)[k].0 as int].has_all(set)
            },
        forall|k: int, l: int|
            0 <= k < l < matching(entities, set).len() ==> (#[trigger] matching(
                entities,
                set,
            )[k]).0 < (#[trigger] matching(entities, set)[l]).0,
        forall|i: int|
            0 <= i < entities.len() && (#[trigger] entities[i]).has_all(set) ==> matching(
                entities,
                set,
            ).contains(EntityId(i as usize)),
        matching(entities, set).len() <= entities.len(),
    decreases entities.len(),
{
    if entities.len() > 0 {
        let shorter = entities.drop_last();
        let before = matching(shorter, set);
        lemma_matching(shorter, set);
        let all = matching(entities, set);
        let last = EntityId((entities.len() - 1) as usize);
        assert forall|i: int| 0 <= i < entities.len() && (#[trigger] entities[i]).has_all(
            set,
        ) implies all.contains(EntityId(i as usize)) by {
            if i < shorter.len() {
                assert(shorter[i].has_all(set));
                let k = choose|k: int| 0 <= k < before.len() && before[k] == EntityId(i as usize);
                assert(all[k] == EntityId(i as usize));
            } else {
                assert(all[all.len() - 1] == last);
            }
        }
    }
}

/// The place of the `k`-th entity that a query found, or the number of
/// entities `len` once `k` is past the last one found: every entity before
/// that place is either among the first `k` found or does not match.
pub open spec fn frontier(found: Seq<EntityId>, k: int, len: nat) -> int {
    if 0 <= k < found.len() {
        found[k].0 as int
    } else {
        len as int
    }
}

/// Walking through what a query found passes over every entity: between
/// one entity found and the next, before the first and after the last, no
/// entity matches.
pub proof fn lemma_between_matches(entities: Seq<Entity>, set: ComponentSet, k: int)
    requires
        entities.len() <= usize::MAX,
        0 <= k <= matching(entities, set).len(),
    ensures
        0 <= frontier(matching(entities, set), k, entities.len()) <= entities.len(),
        k > 0 ==> frontier(matching(entities, set), k - 1, entities.len()) < frontier(
            matching(entities, set),
            k,
            entities.len(),
        ),
        forall|i: int|
            (if k == 0 {
                0
            } else {
                frontier(matching(entities, set), k - 1, entities.len()) + 1
            }) <= i < frontier(matching(entities, set), k, entities.len()) ==> !(
            #[trigger] entities[i]).has_all(set),
{
    lemma_matching(entities, set);
    let found = matching(entities, set);
    let from = if k == 0 {
        0
    } else {
        frontier(found, k - 1, entities.len()) + 1
    };
    let to = frontier(found, k, entities.len());
    assert forall|i: int| from <= i < to implies !(#[trigger] entities[i]).has_all(set) by {
        if entities[i].has_all(set) {
            let m = choose|m: int| 0 <= m < found.len() && found[m] == EntityId(i as usize);
            if m >= k {
                if m > k {
                    assert(found[k].0 < found[m].0);
                }
            } else {
                if m < k - 1 {
                    assert(found[m].0 < found[k - 1].0);
                }
            }
        }
    }
}

/// A query for a single entity succeeds exactly where one entity and no
/// other carries the set: it fails for want of an entity where none does,
/// and for too many where two do. It never picks one of several.
pub proof fn lemma_single(entities: Seq<Entity>, set: ComponentSet)
    requires
        entities.len() <= usize::MAX,
    ensures
        match single(entities, set) {
            Ok(id) => {
                &&& id.0 < entities.len()
                &&& entities[id.0 as int].has_all(set)
                &&& forall|i: int|
                    0 <= i < entities.len() && (#[trigger] entities[i]).has_all(set) ==> i == id.0
            },
            Err(QuerySingleError::NoEntities) => forall|i: int|
                0 <= i < entities.len() ==> !(#[trigger] entities[i]).has_all(set),
            Err(QuerySingleError::MultipleEntities) => exists|i: int, j: int|
                0 <= i < j < entities.len() && (#[trigger] entities[i]).has_all(set) && (
                #[trigger] entities[j]).has_all(set),
        },
{
    lemma_matching(entities, set);
    let found = matching(entities, set);
    if found.len() == 1 {
        assert forall|i: int|
            0 <= i < entities.len() && (#[trigger] entities[i]).has_all(set) implies i
            == found[0].0 by {
            let k = choose|k: int| 0 <= k < found.len() && found[k] == EntityId(i as usize);
            assert(k == 0);
        }
    } else if found.len() == 0 {
        assert forall|i: int| 0 <= i < entities.len() implies !(#[trigger] entities[i]).has_all(
            set,
        ) by {
            if entities[i].has_all(set) {
                assert(found.contains(EntityId(i as usize)));
            }
        }
    } else {
        let i = found[0].0 as int;
        let j = found[1].0 as int;
        assert(0 <= i < j < entities.len() && entities[i].has_all(set) && entities[j].has_all(
            set,
        ));
    }
}

/// A query looks at nothing but which components each entity carries: two
/// lists of entities that agree on that, place by place, give the same
/// answer.
pub proof fn lemma_matching_same(a: Seq<Entity>, b: Seq<Entity>, set: ComponentSet)
    requires
        a.len() == b.len(),
        forall|i: int| 0 <= i < a.len() ==> a[i].has_all(set) == b[i].has_all(set),
    ensures
        matching(a, set) == matching(b, set),
        single(a, set) == single(b, set),
    decreases a.len(),
{
    if a.len() > 0 {
        lemma_matching_same(a.drop_last(), b.drop_last(), set);
    }
}

impl World {
    /// The entities, in the order of spawning.
    pub closed spec fn entities(&self) -> Seq<Entity> {
        self.entities@
    }

    /// The time resource.
    pub closed spec fn clock(&self) -> Time {
        self.time
    }

    /// A world holds no more entities than can be named.
    pub proof fn lemma_bounded(&self)
        ensures
            self.entities().len() <= usize::MAX,
    {
        vstd::std_specs::vec::axiom_spec_len(&self.entities);
    }

    /// A world without entities, its time resource at zero.
    pub fn new() -> (world: World)
        ensures
            world.entities() == Seq::<Entity>::empty(),
            world.clock() == (Time { time: 0, time_delta: 0 }),
    {
        World { entities: Vec::new(), time: Time { time: 0, time_delta: 0 } }
    }

    /// The number of entities.
    pub fn len(&self) -> (n: usize)
        ensures
            n == self.entities().len(),
    {
        self.entities.len()
    }

    /// Adds `entity` to the world and names it.
    pub fn spawn(&mut self, entity: Entity) -> (id: EntityId)
        ensures
            id.0 == old(self).entities().len(),
            final(self).entities() == old(self).entities().push(entity),
            final(self).clock() == old(self).clock(),
    {
        let id = EntityId(self.entities.len());
        self.entities.push(entity);
        id
    }

    /// The entity that `id` names, if this world has it.
    pub fn get(&self, id: EntityId) -> (entity: Option<&Entity>)
        ensures
            match entity {
                Some(e) => id.0 < self.entities().len() && *e == self.entities()[id.0 as int],
                None => id.0 >= self.entities().len(),
            },
    {
        if id.0 < self.entities.len() {
            Some(&self.entities[id.0])
        } else {
            None
        }
    }

    /// The time resource.
    pub fn time(&self) -> (time: Time)
        ensures
            time == self.clock(),
    {
        self.time
    }

    /// Replaces the time resource.
    pub fn set_time(&mut self, time: Time)
        ensures
            final(self).clock() == time,
            final(self).entities() == old(self).entities(),
    {
        self.time = time;
    }

    /// Replaces the position of the entity `id`. An entity that is missing or
    /// carries no position is left alone, and the answer is `false`.
    pub fn set_position(&mut self, id: EntityId, position: Position) -> (done: bool)
        ensures
            done == (id.0 < old(self).entities().len() && old(self).entities()[id.0 as int].position
                is Some),
            done ==> final(self).entities() == old(self).entities().update(
                id.0 as int,
                (Entity { position: Some(position), ..old(self).entities()[id.0 as int] }),
            ),
            !done ==> final(self).entities() == old(self).entities(),
            final(self).clock() == old(self).clock(),
    {
        if id.0 < self.entities.len() && self.entities[id.0].position.is_some() {
            self.entities[id.0].position = Some(position);
            true
        } else {
            false
        }
    }

    /// Replaces the velocity of the entity `id`. An entity that is missing or
    /// carries no velocity is left alone, and the answer is `false`.
    pub fn set_velocity(&mut self, id: EntityId, velocity: Velocity) -> (done: bool)
        ensures
            done == (id.0 < old(self).entities().len() && old(self).entities()[id.0 as int].velocity
                is Some),
            done ==> final(self).entities() == old(self).entities().update(
                id.0 as int,
                (Entity { velocity: Some(velocity), ..old(self).entities()[id.0 as int] }),
            ),
            !done ==> final(self).entities() == old(self).entities(),
            final(self).clock() == old(self).clock(),
    {
        if id.0 < self.entities.len() && self.entities[id.0].velocity.is_some() {
            self.entities[id.0].velocity = Some(velocity);
            true
        } else {
            false
        }
    }

    /// Replaces the orientation of the entity `id`. An entity that is missing
    /// or carries no orientation is left alone, and the answer is `false`.
    pub fn set_pitch_yaw(&mut self, id: EntityId, pitch_yaw: PitchYaw) -> (done: bool)
        ensures
            done == (id.0 < old(self).entities().len() && old(
                self,
            ).entities()[id.0 as int].pitch_yaw is Some),
            done ==> final(self).entities() == old(self).entities().update(
                id.0 as int,
                (Entity { pitch_yaw: Some(pitch_yaw), ..old(self).entities()[id.0 as int] }),
            ),
            !done ==> final(self).entities() == old(self).entities(),
            final(self).clock() == old(self).clock(),
    {
        if id.0 < self.entities.len() && self.entities[id.0].pitch_yaw.is_some() {
            self.entities[id.0].pitch_yaw = Some(pitch_yaw);
            true
        } else {
            false
        }
    }

    /// Replaces the camera of the entity `id`. An entity that is missing or
    /// carries no camera is left alone, and the answer is `false`.
    pub fn set_camera(&mut self, id: EntityId, camera: CameraComponent) -> (done: bool)
        ensures
            done == (id.0 < old(self).entities().len() && old(self).entities()[id.0 as int].camera
                is Some),
            done ==> final(self).entities() == old(self).entities().update(
                id.0 as int,
                (Entity { camera: Some(camera), ..old(self).entities()[id.0 as int] }),
            ),
            !done ==> final(self).entities() == old(self).entities(),
            final(self).clock() == old(self).clock(),
    {
        if id.0 < self.entities.len() && self.entities[id.0].camera.is_some() {
            self.entities[id.0].camera = Some(camera);
            true
        } else {
            false
        }
    }

    /// The entities that carry all of `set`, in the order of spawning.
    pub fn query(&self, set: ComponentSet) -> (found: Vec<EntityId>)
        ensures
            found@ == matching(self.entities(), set),
    {
        let mut found: Vec<EntityId> = Vec::new();
        let mut i: usize = 0;
        while i < self.entities.len()
            invariant
                i <= self.entities.len(),
                found@ == matching(self.entities@.take(i as int), set),
            decreases self.entities.len() - i,
        {
            proof {
                let next = self.entities@.take(i + 1);
                assert(next.drop_last() == self.entities@.take(i as int));
                assert(next.last() == self.entities@[i as int]);
            }
            if self.entities[i].carries(set) {
                found.push(EntityId(i));
            }
            i += 1;
        }
        proof {
            assert(self.entities@.take(i as int) == self.entities@);
        }
        found
    }

    /// The one entity that carries all of `set`; an error where none or more
    /// than one does.
    pub fn get_single(&self, set: ComponentSet) -> (found: Result<EntityId, QuerySingleError>)
        ensures
            found == single(self.entities(), set),
    {
        let found = self.query(set);
        if found.len() == 1 {
            Ok(found[0])
        } else if found.len() == 0 {
            Err(QuerySingleError::NoEntities)
        } else {
            Err(QuerySingleError::MultipleEntities)
        }
    }
}

} // verus!
