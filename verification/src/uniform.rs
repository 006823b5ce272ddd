//! The global uniform block: the rendering parameters that every shader
//! sees, with a mark on each field that has changed since the last upload.

use vstd::prelude::*;
use crate::world::FpsCamera;
use crate::world::Position;

verus! {

/// A color, each channel in thousandths.
#[derive(Clone, Copy, Debug, PartialEq, Eq, Structural)]
pub struct Color {
    pub r: i32,
    pub g: i32,
    pub b: i32,
}

/// Where the fog starts and where it is complete, in thousandths of a world
/// unit.
#[derive(Clone, Copy, Debug, PartialEq, Eq, Structural)]
pub struct FogRange {
    pub start: i32,
    pub end: i32,
}

/// A ratio of two whole numbers.
#[derive(Clone, Copy, Debug, PartialEq, Eq, Structural)]
pub struct Ratio {
    pub num: u32,
    pub den: u32,
}

/// A resolution in pixels.
#[derive(Clone, Copy, Debug, PartialEq, Eq, Structural)]
pub struct Resolution {
    pub width: i32,
    pub height: i32,
}

/// A perspective projection: the projection matrix follows from these
/// values.
#[derive(Clone, Copy, Debug, PartialEq, Eq, Structural)]
pub struct Projection {
    /// The vertical field of view, in degrees.
    pub fov_degrees: i32,
    /// Width over height.
    pub aspect: Ratio,
    /// The near clipping plane, in thousandths of a world unit.
    pub near: i32,
    /// The far clipping plane, in thousandths of a world unit.
    pub far: i32,
}

/// Where a uniform block is bound.
#[derive(Clone, Copy, Debug, PartialEq, Eq, Structural)]
pub enum UniformBlockBinding {
    GlobalParams,
}

/// One field of the global uniform block with its value.
#[derive(Clone, Copy, Debug, PartialEq, Eq, Structural)]
pub enum Uniform {
    FogColor(Color),
    FogDist(FogRange),
    TargetAspect(Ratio),
    RenderRes(Resolution),
    WindowAspect(Ratio),
    /// The projection matrix, given by its parameters.
    MatProj(Projection),
    /// The simulation time, in time units.
    SimTime(u64),
    /// The view matrix, given by the camera it belongs to.
    MatView(FpsCamera),
    /// The model matrix, given by the position it moves a model to.
    MatModel(Position),
}

/// The values of the global uniform block.
#[derive(Clone, Copy, Debug, PartialEq, Eq, Structural)]
pub struct GlobalParams {
    pub fog_color: Color,
    pub fog_dist: FogRange,
    pub target_aspect: Ratio,
    pub render_res: Resolution,
    pub window_aspect: Ratio,
    pub mat_proj: Projection,
    pub sim_time: u64,
    pub mat_view: FpsCamera,
    pub mat_model: Position,
}

/// Which fields of the global uniform block have changed since the last
/// upload.
#[derive(Clone, Copy, Debug, PartialEq, Eq, Structural)]
pub struct Changed {
    pub fog_color: bool,
    pub fog_dist: bool,
    pub target_aspect: bool,
    pub render_res: bool,
    pub window_aspect: bool,
    pub mat_proj: bool,
    pub sim_time: bool,
    pub mat_view: bool,
    pub mat_model: bool,
}

/// The global uniform block on the CPU side.
#[derive(Clone, Copy, Debug, PartialEq, Eq, Structural)]
pub struct UniformBuffer {
    /// The current values.
    pub params: GlobalParams,
    /// The fields that the GPU does not have yet.
    pub changed: Changed,
    /// Where the block is bound, once it is.
    pub binding: Option<UniformBlockBinding>,
}

/// `list` with `uniform` at its end where `changed` holds, else `list`.
pub open spec fn with_changed(list: Seq<Uniform>, changed: bool, uniform: Uniform) -> Seq<
    Uniform,
> {
    if changed {
        list.push(uniform)
    } else {
        list
    }
}

impl Changed {
    /// Every field marked.
    pub open spec fn spec_all() -> Changed {
        Changed {
            fog_color: true,
            fog_dist: true,
            target_aspect: true,
            render_res: true,
            window_aspect: true,
            mat_proj: true,
            sim_time: true,
            mat_view: true,
            mat_model: true,
        }
    }

    /// No field marked.
    pub open spec fn spec_none() -> Changed {
        Changed {
            fog_color: false,
            fog_dist: false,
            target_aspect: false,
            render_res: false,
            window_aspect: false,
            mat_proj: false,
            sim_time: false,
            mat_view: false,
            mat_model: false,
        }
    }

    /// Every field marked.
    #[verifier::when_used_as_spec(spec_all)]
    pub fn all() -> (changed: Changed)
        ensures
            changed == Self::spec_all(),
    {
        Changed {
            fog_color: true,
            fog_dist: true,
            target_aspect: true,
            render_res: true,
            window_aspect: true,
            mat_proj: true,
            sim_time: true,
            mat_view: true,
            mat_model: true,
        }
    }

    /// No field marked.
    #[verifier::when_used_as_spec(spec_none)]
    pub fn none() -> (changed: Changed)
        ensures
            changed == Self::spec_none(),
    {
        Changed {
            fog_color: false,
            fog_dist: false,
            target_aspect: false,
            render_res: false,
            window_aspect: false,
            mat_proj: false,
            sim_time: false,
            mat_view: false,
            mat_model: false,
        }
    }
}

impl GlobalParams {
    /// The block with the field of `uniform` set to its value.
    pub open spec fn spec_with(self, uniform: Uniform) -> GlobalParams {
        match uniform {
            Uniform::FogColor(v) => GlobalParams { fog_color: v, ..self },
            Uniform::FogDist(v) => GlobalParams { fog_dist: v, ..self },
            Uniform::TargetAspect(v) => GlobalParams { target_aspect: v, ..self },
            Uniform::RenderRes(v) => GlobalParams { render_res: v, ..self },
            Uniform::WindowAspect(v) => GlobalParams { window_aspect: v, ..self },
            Uniform::MatProj(v) => GlobalParams { mat_proj: v, ..self },
            Uniform::SimTime(v) => GlobalParams { sim_time: v, ..self },
            Uniform::MatView(v) => GlobalParams { mat_view: v, ..self },
            Uniform::MatModel(v) => GlobalParams { mat_model: v, ..self },
        }
    }

    /// The block with the field of `uniform` set to its value.
    #[verifier::when_used_as_spec(spec_with)]
    pub fn with(self, uniform: Uniform) -> (params: GlobalParams)
        ensures
            params == self.spec_with(uniform),
    {
        match uniform {
            Uniform::FogColor(v) => GlobalParams { fog_color: v, ..self },
            Uniform::FogDist(v) => GlobalParams { fog_dist: v, ..self },
            Uniform::TargetAspect(v) => GlobalParams { target_aspect: v, ..self },
            Uniform::RenderRes(v) => GlobalParams { render_res: v, ..self },
            Uniform::WindowAspect(v) => GlobalParams { window_aspect: v, ..self },
            Uniform::MatProj(v) => GlobalParams { mat_proj: v, ..self },
            Uniform::SimTime(v) => GlobalParams { sim_time: v, ..self },
            Uniform::MatView(v) => GlobalParams { mat_view: v, ..self },
            Uniform::MatModel(v) => GlobalParams { mat_model: v, ..self },
        }
    }

    /// Whether the field of `uniform` holds its value.
    pub open spec fn holds(self, uniform: Uniform) -> bool {
        self.with(uniform) == self
    }
}

impl Changed {
    /// The marks with the field of `uniform` marked as well.
    pub open spec fn spec_with(self, uniform: Uniform) -> Changed {
        match uniform {
            Uniform::FogColor(_) => Changed { fog_color: true, ..self },
            Uniform::FogDist(_) => Changed { fog_dist: true, ..self },
            Uniform::TargetAspect(_) => Changed { target_aspect: true, ..self },
            Uniform::RenderRes(_) => Changed { render_res: true, ..self },
            Uniform::WindowAspect(_) => Changed { window_aspect: true, ..self },
            Uniform::MatProj(_) => Changed { mat_proj: true, ..self },
            Uniform::SimTime(_) => Changed { sim_time: true, ..self },
            Uniform::MatView(_) => Changed { mat_view: true, ..self },
            Uniform::MatModel(_) => Changed { mat_model: true, ..self },
        }
    }

    /// The marks with the field of `uniform` marked as well.
    #[verifier::when_used_as_spec(spec_with)]
    pub fn with(self, uniform: Uniform) -> (changed: Changed)
        ensures
            changed == self.spec_with(uniform),
    {
        match uniform {
            Uniform::FogColor(_) => Changed { fog_color: true, ..self },
            Uniform::FogDist(_) => Changed { fog_dist: true, ..self },
            Uniform::TargetAspect(_) => Changed { target_aspect: true, ..self },
            Uniform::RenderRes(_) => Changed { render_res: true, ..self },
            Uniform::WindowAspect(_) => Changed { window_aspect: true, ..self },
            Uniform::MatProj(_) => Changed { mat_proj: true, ..self },
            Uniform::SimTime(_) => Changed { sim_time: true, ..self },
            Uniform::MatView(_) => Changed { mat_view: true, ..self },
            Uniform::MatModel(_) => Changed { mat_model: true, ..self },
        }
    }
}

impl UniformBuffer {
    /// The buffer after `uniform` is written: the field has the value, and
    /// is marked if the value is not the one it had.
    pub open spec fn stored(self, uniform: Uniform) -> UniformBuffer {
        if self.params.holds(uniform) {
            self
        } else {
            UniformBuffer {
                params: self.params.with(uniform),
                changed: self.changed.with(uniform),
                ..self
            }
        }
    }

    /// The marked fields with their values, in the order of the block.
    pub open spec fn pending(self) -> Seq<Uniform> {
        let p = self.params;
        let c = self.changed;
        let list = Seq::<Uniform>::empty();
        let list = with_changed(list, c.fog_color, Uniform::FogColor(p.fog_color));
        let list = with_changed(list, c.fog_dist, Uniform::FogDist(p.fog_dist));
        let list = with_changed(list, c.target_aspect, Uniform::TargetAspect(p.target_aspect));
        let list = with_changed(list, c.render_res, Uniform::RenderRes(p.render_res));
        let list = with_changed(list, c.window_aspect, Uniform::WindowAspect(p.window_aspect));
        let list = with_changed(list, c.mat_proj, Uniform::MatProj(p.mat_proj));
        let list = with_changed(list, c.sim_time, Uniform::SimTime(p.sim_time));
        let list = with_changed(list, c.mat_view, Uniform::MatView(p.mat_view));
        with_changed(list, c.mat_model, Uniform::MatModel(p.mat_model))
    }

    /// The buffer after an upload: the same values, nothing marked.
    pub open spec fn uploaded(self) -> UniformBuffer {
        UniformBuffer { changed: Changed::none(), ..self }
    }

    /// A buffer of zeros that has never been uploaded: every field counts
    /// as changed, so that the first upload sends the whole block.
    pub fn new() -> (buffer: UniformBuffer)
        ensures
            buffer.changed == Changed::all(),
            buffer.binding is None,
            buffer.params == (GlobalParams {
                fog_color: Color { r: 0, g: 0, b: 0 },
                fog_dist: FogRange { start: 0, end: 0 },
                target_aspect: Ratio { num: 0, den: 1 },
                render_res: Resolution { width: 0, height: 0 },
                window_aspect: Ratio { num: 0, den: 1 },
                mat_proj: Projection {
                    fov_degrees: 0,
                    aspect: Ratio { num: 0, den: 1 },
                    near: 0,
                    far: 0,
                },
                sim_time: 0,
                mat_view: FpsCamera { pos: Position { x: 0, y: 0, z: 0 }, pitch: 0, yaw: 0 },
                mat_model: Position { x: 0, y: 0, z: 0 },
            }),
    {
        UniformBuffer {
            params: GlobalParams {
                fog_color: Color { r: 0, g: 0, b: 0 },
                fog_dist: FogRange { start: 0, end: 0 },
                target_aspect: Ratio { num: 0, den: 1 },
                render_res: Resolution { width: 0, height: 0 },
                window_aspect: Ratio { num: 0, den: 1 },
                mat_proj: Projection {
                    fov_degrees: 0,
                    aspect: Ratio { num: 0, den: 1 },
                    near: 0,
                    far: 0,
                },
                sim_time: 0,
                mat_view: FpsCamera::new(),
                mat_model: Position { x: 0, y: 0, z: 0 },
            },
            changed: Changed::all(),
            binding: None,
        }
    }

    /// Binds the block to `binding`.
    pub fn bind(&mut self, binding: UniformBlockBinding)
        ensures
            *final(self) == (UniformBuffer { binding: Some(binding), ..*old(self) }),
    {
        self.binding = Some(binding);
    }

    /// Writes one field. The field is marked as changed if the value
    /// differs from the one it had; a mark that is set stays set.
    pub fn set(&mut self, uniform: Uniform)
        ensures
            *final(self) == old(self).stored(uniform),
    {
        let written = self.params.with(uniform);
        if written != self.params {
            self.params = written;
            self.changed = self.changed.with(uniform);
        }
    }

    /// Hands out the fields that changed since the last upload, with their
    /// values and in the order of the block, and clears the marks.
    pub fn upload_changed(&mut self) -> (sent: Vec<Uniform>)
        ensures
            sent@ == old(self).pending(),
            *final(self) == old(self).uploaded(),
    {
        let p = self.params;
        let c = self.changed;
        let mut sent: Vec<Uniform> = Vec::new();
        if c.fog_color {
            sent.push(Uniform::FogColor(p.fog_color));
        }
        if c.fog_dist {
            sent.push(Uniform::FogDist(p.fog_dist));
        }
        if c.target_aspect {
            sent.push(Uniform::TargetAspect(p.target_aspect));
        }
        if c.render_res {
            sent.push(Uniform::RenderRes(p.render_res));
        }
        if c.window_aspect {
            sent.push(Uniform::WindowAspect(p.window_aspect));
        }
        if c.mat_proj {
            sent.push(Uniform::MatProj(p.mat_proj));
        }
        if c.sim_time {
            sent.push(Uniform::SimTime(p.sim_time));
        }
        if c.mat_view {
            sent.push(Uniform::MatView(p.mat_view));
        }
        if c.mat_model {
            sent.push(Uniform::MatModel(p.mat_model));
        }
        self.changed = Changed::none();
        sent
    }
}

/// Right after an upload nothing is pending, and a write of the value that
/// a field already has leaves nothing pending either.
pub proof fn lemma_nothing_pending(buffer: UniformBuffer, uniform: Uniform)
    ensures
        buffer.uploaded().pending() == Seq::<Uniform>::empty(),
        buffer.params.holds(uniform) ==> buffer.uploaded().stored(uniform).pending()
            == Seq::<Uniform>::empty(),
{
}

/// A write that changes a field of an uploaded buffer leaves exactly that
/// field pending, with the new value.
pub proof fn lemma_one_pending(buffer: UniformBuffer, uniform: Uniform)
    requires
        !buffer.params.holds(uniform),
    ensures
        buffer.uploaded().stored(uniform).pending() == seq![uniform],
{
    assert(buffer.uploaded().stored(uniform).pending() =~= seq![uniform]);
}

} // verus!
