//! The render pipeline: the state it keeps between frames and the plan of
//! one render pass, as the list of commands that the graphics backend is to
//! carry out in order.

use vstd::prelude::*;
use crate::config::CLIP_PLANES;
use crate::config::FIELD_OF_VIEW;
use crate::config::FOG_COLOR;
use crate::config::FOG_DIST;
use crate::config::RENDER_ASPECT;
use crate::config::RENDER_HEIGHT;
use crate::config::RENDER_WIDTH;
use crate::config::WINDOW_HEIGHT;
use crate::config::WINDOW_WIDTH;
use crate::config::WIREFRAME_MODE;
use crate::uniform::Changed;
use crate::uniform::Color;
use crate::uniform::FogRange;
use crate::uniform::GlobalParams;
use crate::uniform::Projection;
use crate::uniform::Ratio;
use crate::uniform::Resolution;
use crate::uniform::Uniform;
use crate::uniform::UniformBlockBinding;
use crate::uniform::UniformBuffer;
use crate::world::frontier;
use crate::world::lemma_between_matches;
use crate::world::lemma_matching;
use crate::world::matching;
use crate::world::single;
use crate::world::ComponentSet;
use crate::world::Entity;
use crate::world::FpsCamera;
use crate::world::Position;
use crate::world::QuerySingleError;
use crate::world::Time;
use crate::world::World;

verus! {

/// The two shader programs of the pipeline.
#[derive(Clone, Copy, Debug, PartialEq, Eq, Structural)]
pub enum ShaderProgram {
    /// Draws the scene into the offscreen target.
    Ps1,
    /// Copies the offscreen target to the window.
    Blit,
}

/// An offscreen render target of a fixed size in pixels.
#[derive(Clone, Copy, Debug, PartialEq, Eq, Structural)]
pub struct Framebuffer {
    pub width: i32,
    pub height: i32,
}

/// The type of the values of a vertex attribute.
#[derive(Clone, Copy, Debug, PartialEq, Eq, Structural)]
pub enum AttribType {
    Float,
}

/// One attribute of a vertex: its index, and how many values of which type
/// it takes.
#[derive(Clone, Copy, Debug, PartialEq, Eq, Structural)]
pub struct VertexAttrib {
    pub index: u32,
    pub size: i32,
    pub attrib_type: AttribType,
}

/// An indexed mesh: the vertex values row by row, the indices of its
/// triangles, and the layout of a row.
#[derive(Clone, Debug, PartialEq, Eq)]
pub struct Mesh {
    pub vertices: Vec<i32>,
    pub indices: Vec<i32>,
    pub attribs: Vec<VertexAttrib>,
}

/// How polygons are filled.
#[derive(Clone, Copy, Debug, PartialEq, Eq, Structural)]
pub enum PolygonMode {
    Line,
    Fill,
}

/// Where a texture is bound for sampling.
#[derive(Clone, Copy, Debug, PartialEq, Eq, Structural)]
pub enum TextureSlot {
    BaseColor,
}

/// What an indexed draw assembles.
#[derive(Clone, Copy, Debug, PartialEq, Eq, Structural)]
pub enum Primitive {
    Triangles,
}

/// One step of a render pass.
#[derive(Clone, Debug, PartialEq, Eq)]
pub enum RenderCommand {
    /// Send one field of the global uniform block to the GPU.
    Upload(Uniform),
    /// Make the offscreen target the draw target.
    BindFramebufferDraw,
    /// Set the clear color, each channel in thousandths.
    ClearColor { r: i32, g: i32, b: i32, a: i32 },
    /// Set the viewport.
    Viewport { x: i32, y: i32, width: u32, height: u32 },
    /// Clear the named buffers of the draw target.
    Clear { color: bool, depth: bool },
    EnableDepthTest,
    DisableDepthTest,
    /// Set the fill mode of front and back faces.
    SetPolygonMode(PolygonMode),
    /// Make a shader program current.
    UseProgram(ShaderProgram),
    /// Fetch the named model from the model cache, move it to `transform`
    /// and have it draw itself.
    DrawModel { name: String, transform: Position },
    /// Make the window the draw target again.
    UnbindFramebuffer,
    /// Bind the color attachment of the offscreen target as a texture.
    BindColorTexture(TextureSlot),
    /// Draw the full-screen rectangle, indexed.
    DrawIndexed { primitive: Primitive, count: i32 },
}

/// RenderParams resource: what the render pipeline keeps between frames.
#[derive(Clone, Debug, PartialEq, Eq)]
pub struct RenderParams {
    pub ubo_global: UniformBuffer,
    pub ps1_shader_program: ShaderProgram,
    pub blit_shader_program: ShaderProgram,
    pub framebuffer: Framebuffer,
    pub full_screen_rect: Mesh,
    /// The size of the window, in pixels.
    pub window_width: u32,
    pub window_height: u32,
}

/// The corners of the full-screen rectangle, each a row of position `x`,
/// `y`, `z` and texture coordinate `u`, `v`: top right, bottom right, bottom
/// left, top left.
pub open spec fn rect_vertices() -> Seq<i32> {
    seq![
        1i32, 1i32, 0i32, 1i32, 1i32,
        1i32, -1i32, 0i32, 1i32, 0i32,
        -1i32, -1i32, 0i32, 0i32, 0i32,
        -1i32, 1i32, 0i32, 0i32, 1i32,
    ]
}

/// The two triangles of the full-screen rectangle.
pub open spec fn rect_indices() -> Seq<i32> {
    seq![0i32, 1i32, 3i32, 1i32, 2i32, 3i32]
}

/// The row layout of the full-screen rectangle: three values of position,
/// two of texture coordinate.
pub open spec fn rect_attribs() -> Seq<VertexAttrib> {
    seq![
        VertexAttrib { index: 0, size: 3, attrib_type: AttribType::Float },
        VertexAttrib { index: 1, size: 2, attrib_type: AttribType::Float },
    ]
}

/// The uniform block as the pipeline starts with it, for a window of the
/// given size.
pub open spec fn initial_params(window_width: u32, window_height: u32) -> GlobalParams {
    GlobalParams {
        fog_color: Color { r: FOG_COLOR, g: FOG_COLOR, b: FOG_COLOR },
        fog_dist: FogRange { start: FOG_DIST.0, end: FOG_DIST.1 },
        target_aspect: Ratio { num: RENDER_ASPECT.0, den: RENDER_ASPECT.1 },
        render_res: Resolution { width: RENDER_WIDTH, height: RENDER_HEIGHT },
        window_aspect: Ratio { num: window_width, den: window_height },
        mat_proj: Projection {
            fov_degrees: FIELD_OF_VIEW,
            aspect: Ratio { num: RENDER_ASPECT.0, den: RENDER_ASPECT.1 },
            near: CLIP_PLANES.0,
            far: CLIP_PLANES.1,
        },
        sim_time: 0,
        mat_view: FpsCamera { pos: Position { x: 0, y: 0, z: 0 }, pitch: 0, yaw: 0 },
        mat_model: Position { x: 0, y: 0, z: 0 },
    }
}

/// The upload commands for `sent`, one for each field and in the same
/// order.
pub open spec fn uploads(sent: Seq<Uniform>) -> Seq<RenderCommand> {
    Seq::new(sent.len(), |k: int| RenderCommand::Upload(sent[k]))
}

/// How the offscreen pass is set up: the offscreen target becomes the draw
/// target, the viewport is the render resolution, color and depth are
/// cleared, depth testing is on, and the scene shader `program` is current.
pub open spec fn offscreen_setup(program: ShaderProgram) -> Seq<RenderCommand> {
    let start = seq![
        RenderCommand::BindFramebufferDraw,
        RenderCommand::ClearColor { r: 0, g: 0, b: 0, a: 1000 },
        RenderCommand::Viewport {
            x: 0,
            y: 0,
            width: RENDER_WIDTH as u32,
            height: RENDER_HEIGHT as u32,
        },
        RenderCommand::Clear { color: true, depth: true },
        RenderCommand::EnableDepthTest,
    ];
    let filled = if WIREFRAME_MODE {
        start.push(RenderCommand::SetPolygonMode(PolygonMode::Line))
    } else {
        start
    };
    filled.push(RenderCommand::UseProgram(program))
}

/// The commands of a scene draw and the uniform block it leaves.
pub struct Drawn {
    pub commands: Seq<RenderCommand>,
    pub buffer: UniformBuffer,
}

/// The scene draw: for every entity with a position and a model, in the
/// order of spawning, the model matrix is written, the changed fields are
/// uploaded, and the model is drawn at the position.
pub open spec fn scene(entities: Seq<Entity>, buffer: UniformBuffer) -> Drawn
    decreases entities.len(),
{
    if entities.len() == 0 {
        Drawn { commands: Seq::empty(), buffer }
    } else {
        let before = scene(entities.drop_last(), buffer);
        match (entities.last().position, entities.last().model) {
            (Some(position), Some(model)) => {
                let written = before.buffer.stored(Uniform::MatModel(position));
                Drawn {
                    commands: (before.commands + uploads(written.pending())).push(
                        RenderCommand::DrawModel { name: model.name, transform: position },
                    ),
                    buffer: written.uploaded(),
                }
            },
            _ => before,
        }
    }
}

/// The blit pass: depth testing off, the viewport the whole window, fill
/// mode restored, the window the draw target, the offscreen image bound as
/// a texture, the blit shader `program` current, and the full-screen
/// rectangle drawn with six indices.
pub open spec fn blit(window_width: u32, window_height: u32, program: ShaderProgram) -> Seq<
    RenderCommand,
> {
    seq![
        RenderCommand::DisableDepthTest,
        RenderCommand::Viewport { x: 0, y: 0, width: window_width, height: window_height },
        RenderCommand::SetPolygonMode(PolygonMode::Fill),
        RenderCommand::UnbindFramebuffer,
        RenderCommand::BindColorTexture(TextureSlot::BaseColor),
        RenderCommand::UseProgram(program),
        RenderCommand::DrawIndexed { primitive: Primitive::Triangles, count: 6 },
    ]
}

/// The uniform block after the global-state update of a pass: the
/// simulation time and the camera's view are written.
pub open spec fn global_update(
    buffer: UniformBuffer,
    time: Time,
    camera: FpsCamera,
) -> UniformBuffer {
    buffer.stored(Uniform::SimTime(time.time)).stored(Uniform::MatView(camera))
}

/// Why a render pass cannot run over `entities`, if it cannot. A pass needs
/// exactly one entity that carries the full camera set: a position, an
/// orientation and a camera. It also refuses a second camera that lacks
/// the rest of the set, rather than pick one of the two.
pub open spec fn pass_error(entities: Seq<Entity>) -> Option<QuerySingleError> {
    match single(entities, ComponentSet::camera_rig()) {
        Err(e) => Some(e),
        Ok(_) => match single(entities, ComponentSet::camera()) {
            Err(e) => Some(e),
            Ok(_) => None,
        },
    }
}

/// The camera through which a pass over `entities` looks: that of the
/// single entity with the full camera set.
pub open spec fn view_camera(entities: Seq<Entity>) -> FpsCamera {
    let id = single(entities, ComponentSet::camera_rig())->Ok_0;
    entities[id.0 as int].camera->0.camera
}

/// One render pass: the global-state update with its upload, the offscreen
/// setup, the scene draw and the blit.
pub open spec fn planned(
    params: RenderParams,
    time: Time,
    camera: FpsCamera,
    entities: Seq<Entity>,
) -> Drawn {
    let updated = global_update(params.ubo_global, time, camera);
    let drawn = scene(entities, updated.uploaded());
    Drawn {
        commands: uploads(updated.pending()) + offscreen_setup(params.ps1_shader_program)
            + drawn.commands + blit(
            params.window_width,
            params.window_height,
            params.blit_shader_program,
        ),
        buffer: drawn.buffer,
    }
}

impl RenderParams {
    /// The pipeline state for a window of the configured size: the uniform
    /// block holds the configured fog, aspects, render resolution and
    /// projection and is bound, nothing of it is uploaded yet, and the
    /// offscreen target has the render resolution.
    pub fn new() -> (params: RenderParams)
        ensures
            params.ubo_global.params == initial_params(WINDOW_WIDTH, WINDOW_HEIGHT),
            params.ubo_global.changed == Changed::all(),
            params.ubo_global.binding == Some(UniformBlockBinding::GlobalParams),
            params.ps1_shader_program == ShaderProgram::Ps1,
            params.blit_shader_program == ShaderProgram::Blit,
            params.framebuffer == (Framebuffer { width: RENDER_WIDTH, height: RENDER_HEIGHT }),
            params.full_screen_rect.vertices@ == rect_vertices(),
            params.full_screen_rect.indices@ == rect_indices(),
            params.full_screen_rect.attribs@ == rect_attribs(),
            params.window_width == WINDOW_WIDTH,
            params.window_height == WINDOW_HEIGHT,
    {
        // Create ubo_global
        let mut ubo_global = UniformBuffer::new();

        ubo_global.set(Uniform::FogColor(Color { r: FOG_COLOR, g: FOG_COLOR, b: FOG_COLOR }));
        ubo_global.set(Uniform::FogDist(FogRange { start: FOG_DIST.0, end: FOG_DIST.1 }));

        let target_aspect = Ratio { num: RENDER_ASPECT.0, den: RENDER_ASPECT.1 };
        ubo_global.set(Uniform::TargetAspect(target_aspect));
        ubo_global.set(
            Uniform::RenderRes(Resolution { width: RENDER_WIDTH, height: RENDER_HEIGHT }),
        );

        ubo_global.set(Uniform::WindowAspect(Ratio { num: WINDOW_WIDTH, den: WINDOW_HEIGHT }));

        ubo_global.set(
            Uniform::MatProj(
                Projection {
                    fov_degrees: FIELD_OF_VIEW,
                    aspect: target_aspect,
                    near: CLIP_PLANES.0,
                    far: CLIP_PLANES.1,
                },
            ),
        );

        ubo_global.bind(UniformBlockBinding::GlobalParams);

        // Create framebuffer
        let framebuffer = Framebuffer { width: RENDER_WIDTH, height: RENDER_HEIGHT };

        // Create full screen rect
        let full_screen_rect = Mesh {
            vertices: vec![
                1, 1, 0, 1, 1,  // top right
                1, -1, 0, 1, 0,  // bottom right
                -1, -1, 0, 0, 0,  // bottom left
                -1, 1, 0, 0, 1,  // top left
            ],
            indices: vec![0, 1, 3, 1, 2, 3],
            attribs: vec![
                VertexAttrib { index: 0, size: 3, attrib_type: AttribType::Float },
                VertexAttrib { index: 1, size: 2, attrib_type: AttribType::Float },
            ],
        };
        assert(full_screen_rect.vertices@ =~= rect_vertices());
        assert(full_screen_rect.indices@ =~= rect_indices());
        assert(full_screen_rect.attribs@ =~= rect_attribs());

        RenderParams {
            ubo_global,
            ps1_shader_program: ShaderProgram::Ps1,
            blit_shader_program: ShaderProgram::Blit,
            framebuffer,
            full_screen_rect,
            window_width: WINDOW_WIDTH,
            window_height: WINDOW_HEIGHT,
        }
    }

    /// Records a new size of the window. The blit pass targets it from the
    /// next pass on; the offscreen target keeps its size.
    pub fn set_window_size(&mut self, width: u32, height: u32)
        ensures
            final(self).window_width == width,
            final(self).window_height == height,
            final(self).ubo_global == old(self).ubo_global.stored(
                Uniform::WindowAspect(Ratio { num: width, den: height }),
            ),
            final(self).framebuffer == old(self).framebuffer,
            final(self).ps1_shader_program == old(self).ps1_shader_program,
            final(self).blit_shader_program == old(self).blit_shader_program,
            final(self).full_screen_rect == old(self).full_screen_rect,
    {
        self.window_width = width;
        self.window_height = height;
        self.ubo_global.set(Uniform::WindowAspect(Ratio { num: width, den: height }));
    }
}

fn push_uploads(commands: &mut Vec<RenderCommand>, sent: &Vec<Uniform>)
    ensures
        final(commands)@ == old(commands)@ + uploads(sent@),
{
    let mut k: usize = 0;
    while k < sent.len()
        invariant
            k <= sent.len(),
            commands@ == old(commands)@ + uploads(sent@.take(k as int)),
        decreases sent.len() - k,
    {
        commands.push(RenderCommand::Upload(sent[k]));
        k += 1;
        assert(commands@ =~= old(commands)@ + uploads(sent@.take(k as int)));
    }
    assert(sent@.take(k as int) =~= sent@);
}

fn push_offscreen_setup(commands: &mut Vec<RenderCommand>, program: ShaderProgram)
    ensures
        final(commands)@ == old(commands)@ + offscreen_setup(program),
{
    // Bind FBO
    commands.push(RenderCommand::BindFramebufferDraw);

    // Clear screen
    commands.push(RenderCommand::ClearColor { r: 0, g: 0, b: 0, a: 1000 });
    commands.push(
        RenderCommand::Viewport {
            x: 0,
            y: 0,
            width: RENDER_WIDTH as u32,
            height: RENDER_HEIGHT as u32,
        },
    );
    commands.push(RenderCommand::Clear { color: true, depth: true });
    commands.push(RenderCommand::EnableDepthTest);
    if WIREFRAME_MODE {
        commands.push(RenderCommand::SetPolygonMode(PolygonMode::Line));
    }
    commands.push(RenderCommand::UseProgram(program));
    assert(commands@ =~= old(commands)@ + offscreen_setup(program));
}

proof fn lemma_scene_skips(entities: Seq<Entity>, buffer: UniformBuffer, from: int, to: int)
    requires
        0 <= from <= to <= entities.len(),
        forall|i: int|
            from <= i < to ==> !(#[trigger] entities[i]).has_all(ComponentSet::drawable()),
    ensures
        scene(entities.take(to), buffer) == scene(entities.take(from), buffer),
    decreases to - from,
{
    if from < to {
        lemma_scene_skips(entities, buffer, from, to - 1);
        assert(entities.take(to).drop_last() =~= entities.take(to - 1));
        assert(entities.take(to).last() == entities[to - 1]);
    }
}

fn push_scene(commands: &mut Vec<RenderCommand>, buffer: &mut UniformBuffer, world: &World)
    ensures
        final(commands)@ == old(commands)@ + scene(world.entities(), *old(buffer)).commands,
        *final(buffer) == scene(world.entities(), *old(buffer)).buffer,
{
    let ghost entities = world.entities();
    let ghost drawable = ComponentSet::drawable();
    let found = world.query(ComponentSet::drawable());
    proof {
        world.lemma_bounded();
        lemma_matching(entities, drawable);
        lemma_between_matches(entities, drawable, 0);
        lemma_scene_skips(entities, *buffer, 0, frontier(found@, 0, entities.len()));
        assert(entities.take(0).len() == 0);
    }
    let mut k: usize = 0;
    while k < found.len()
        invariant
            k <= found.len(),
            entities == world.entities(),
            entities.len() <= usize::MAX,
            drawable == ComponentSet::drawable(),
            found@ == matching(entities, drawable),
            0 <= frontier(found@, k as int, entities.len()) <= entities.len(),
            commands@ == old(commands)@ + scene(
                entities.take(frontier(found@, k as int, entities.len())),
                *old(buffer),
            ).commands,
            *buffer == scene(
                entities.take(frontier(found@, k as int, entities.len())),
                *old(buffer),
            ).buffer,
        decreases found.len() - k,
    {
        let id = found[k];
        let ghost at = id.0 as int;
        proof {
            lemma_matching(entities, drawable);
            lemma_between_matches(entities, drawable, k + 1);
            let next = entities.take(at + 1);
            assert(next.drop_last() =~= entities.take(at));
            assert(next.last() == entities[at]);
            lemma_scene_skips(
                entities,
                *old(buffer),
                at + 1,
                frontier(found@, k + 1, entities.len()),
            );
        }
        match world.get(id) {
            Some(entity) => {
                match (entity.position, &entity.model) {
                    (Some(position), Some(model)) => {
                        buffer.set(Uniform::MatModel(position));
                        let sent = buffer.upload_changed();
                        push_uploads(commands, &sent);
                        commands.push(
                            RenderCommand::DrawModel {
                                name: model.name.clone(),
                                transform: position,
                            },
                        );
                        assert(commands@ =~= old(commands)@ + scene(
                            entities.take(at + 1),
                            *old(buffer),
                        ).commands);
                    },
                    _ => {},
                }
            },
            None => {},
        }
        k += 1;
    }
    assert(entities.take(entities.len() as int) =~= entities);
}

fn push_blit(
    commands: &mut Vec<RenderCommand>,
    window_width: u32,
    window_height: u32,
    program: ShaderProgram,
)
    ensures
        final(commands)@ == old(commands)@ + blit(window_width, window_height, program),
{
    commands.push(RenderCommand::DisableDepthTest);
    commands.push(
        RenderCommand::Viewport { x: 0, y: 0, width: window_width, height: window_height },
    );
    commands.push(RenderCommand::SetPolygonMode(PolygonMode::Fill));
    commands.push(RenderCommand::UnbindFramebuffer);
    commands.push(RenderCommand::BindColorTexture(TextureSlot::BaseColor));
    commands.push(RenderCommand::UseProgram(program));
    commands.push(RenderCommand::DrawIndexed { primitive: Primitive::Triangles, count: 6 });
    assert(commands@ =~= old(commands)@ + blit(window_width, window_height, program));
}

/// Render system: plans one render pass over `world` at simulation time
/// `time`. The view is that of the single camera entity. The pass fails
/// with the query's error, and changes nothing, unless exactly one entity
/// carries the full camera set and no other entity carries a camera. The
/// world is only read.
pub fn render(render_params: &mut RenderParams, time: Time, world: &World) -> (pass: Result<
    Vec<RenderCommand>,
    QuerySingleError,
>)
    ensures
        match pass_error(world.entities()) {
            None => {
                let plan = planned(
                    *old(render_params),
                    time,
                    view_camera(world.entities()),
                    world.entities(),
                );
                &&& pass is Ok
                &&& pass->Ok_0@ == plan.commands
                &&& *final(render_params) == (RenderParams {
                    ubo_global: plan.buffer,
                    ..*old(render_params)
                })
            },
            Some(e) => {
                &&& pass == Err::<Vec<RenderCommand>, QuerySingleError>(e)
                &&& *final(render_params) == *old(render_params)
            },
        },
{
    proof {
        world.lemma_bounded();
        lemma_matching(world.entities(), ComponentSet::camera_rig());
    }
    // Update matrices
    let id = match world.get_single(ComponentSet::camera_rig()) {
        Ok(id) => id,
        Err(e) => {
            return Err(e);
        },
    };
    match world.get_single(ComponentSet::camera()) {
        Ok(_) => {},
        Err(e) => {
            return Err(e);
        },
    }
    let camera = match world.get(id) {
        Some(entity) => match entity.camera {
            Some(component) => component.camera,
            None => FpsCamera::new(),
        },
        None => FpsCamera::new(),
    };

    // Update ubo_global
    render_params.ubo_global.set(Uniform::SimTime(time.time));
    render_params.ubo_global.set(Uniform::MatView(camera));
    let mut commands: Vec<RenderCommand> = Vec::new();
    let sent = render_params.ubo_global.upload_changed();
    push_uploads(&mut commands, &sent);

    push_offscreen_setup(&mut commands, render_params.ps1_shader_program);

    // Render objects
    push_scene(&mut commands, &mut render_params.ubo_global, world);

    // Blit to window
    push_blit(
        &mut commands,
        render_params.window_width,
        render_params.window_height,
        render_params.blit_shader_program,
    );
    Ok(commands)
}

proof fn lemma_scene_sets_no_viewport(entities: Seq<Entity>, buffer: UniformBuffer)
    ensures
        forall|k: int|
            0 <= k < scene(entities, buffer).commands.len() ==> !(#[trigger] scene(
                entities,
                buffer,
            ).commands[k] is Viewport),
    decreases entities.len(),
{
    if entities.len() > 0 {
        lemma_scene_sets_no_viewport(entities.drop_last(), buffer);
    }
}

/// Whatever the window's size, a pass sets the viewport twice and no more:
/// to the render resolution right after the offscreen target is bound, and
/// to the whole window in the blit, before the window becomes the draw
/// target again.
pub proof fn lemma_viewports(
    params: RenderParams,
    time: Time,
    camera: FpsCamera,
    entities: Seq<Entity>,
)
    ensures
        ({
            let plan = planned(params, time, camera, entities).commands;
            let bound = uploads(
                global_update(params.ubo_global, time, camera).pending(),
            ).len() as int;
            let restored = plan.len() - 6;
            &&& 0 <= bound < bound + 2 < restored < restored + 2 < plan.len()
            &&& plan[bound] == RenderCommand::BindFramebufferDraw
            &&& plan[bound + 2] == (RenderCommand::Viewport {
                x: 0,
                y: 0,
                width: RENDER_WIDTH as u32,
                height: RENDER_HEIGHT as u32,
            })
            &&& plan[restored] == (RenderCommand::Viewport {
                x: 0,
                y: 0,
                width: params.window_width,
                height: params.window_height,
            })
            &&& plan[restored + 2] == RenderCommand::UnbindFramebuffer
            &&& forall|k: int|
                0 <= k < plan.len() && (#[trigger] plan[k]) is Viewport ==> k == bound + 2 || k
                    == restored
        }),
{
    let updated = global_update(params.ubo_global, time, camera);
    let drawn = scene(entities, updated.uploaded());
    lemma_scene_sets_no_viewport(entities, updated.uploaded());
    let head = uploads(updated.pending());
    let setup = offscreen_setup(params.ps1_shader_program);
    let tail = blit(params.window_width, params.window_height, params.blit_shader_program);
    let plan = planned(params, time, camera, entities).commands;
    assert(plan == head + setup + drawn.commands + tail);
    let bound = head.len() as int;
    let restored = plan.len() - 6;
    assert forall|k: int| 0 <= k < plan.len() && (#[trigger] plan[k]) is Viewport implies k
        == bound + 2 || k == restored by {
        if k < head.len() {
            assert(plan[k] == head[k]);
        } else if k < head.len() + setup.len() {
            assert(plan[k] == setup[k - head.len()]);
        } else if k < head.len() + setup.len() + drawn.commands.len() {
            assert(plan[k] == drawn.commands[k - head.len() - setup.len()]);
        } else {
            assert(plan[k] == tail[k - head.len() - setup.len() - drawn.commands.len()]);
        }
    }
    assert(plan[bound] == setup[0]);
    assert(plan[bound + 2] == setup[2]);
    assert(plan[restored] == tail[1]);
    assert(plan[restored + 2] == tail[3]);
}

} // verus!
