//! Rendering: pipelines, the recorder of one frame's commands, and the
//! system that records a frame from the cameras and meshes of a world.
//!
//! Nothing here talks to the GPU. A frame is recorded as a list of passes, one
//! per camera, each a list of commands in the order in which they take effect;
//! the application carries them out on the device.
use crate::camera::Camera;
use crate::ecs::{component_in, storages, Component, Entity};
use crate::handle::Handle;
use crate::instance::Instance;
use crate::mesh::{RenderMesh, VertexBufferLayout};
use crate::surface::ViewRequest;
use crate::texture::{Extent3d, Texture, TextureDescriptor, TextureFormat};
use crate::transform::Transform3D;
use std::rc::Rc;
use std::sync::Arc;
use vstd::prelude::*;

pub mod shader;

verus! {

/// A colour of `wgpu`. The library stores and hands on colours and never
/// reads their channels.
#[verifier::external_type_specification]
#[verifier::external_body]
pub struct ExColor(wgpu::Color);

/// The uniforms that every pipeline receives before a draw: the projection of
/// the camera and the matrix that takes the world into the camera's view.
#[derive(Clone, Copy)]
pub struct BuiltinUniforms {
    pub projection_mtx: glam::Mat4,
    pub view_mtx: glam::Mat4,
}

/// A value that can be handed to a shader as a uniform: plain data that is
/// copied byte for byte.
pub trait ShaderUniform: Copy + Clone {
}

impl ShaderUniform for BuiltinUniforms {
}

/// The number of bytes of the buffer that holds the [`BuiltinUniforms`]: two
/// matrices of sixteen 32-bit numbers.
pub const BUILTIN_UNIFORMS_SIZE: u64 = 128;

/// Which side of a triangle is its front.
#[derive(Clone, Copy, Debug, PartialEq, Eq, Structural)]
pub enum FrontFace {
    Ccw,
    Cw,
}

/// A side of a triangle.
#[derive(Clone, Copy, Debug, PartialEq, Eq, Structural)]
pub enum Face {
    Front,
    Back,
}

/// The comparison that a fragment's depth has to pass.
#[derive(Clone, Copy, Debug, PartialEq, Eq, Structural)]
pub enum CompareFunction {
    Less,
    LessEqual,
    Greater,
    GreaterEqual,
    Always,
}

/// How a pipeline tests and writes depth.
#[derive(Clone, Copy, Debug, PartialEq, Eq, Structural)]
pub struct DepthStencilState {
    pub format: TextureFormat,
    pub depth_write_enabled: bool,
    pub depth_compare: CompareFunction,
}

/// How the corners of a draw are put together.
#[derive(Clone, Copy, Debug, PartialEq, Eq, Structural)]
pub enum PrimitiveTopology {
    PointList,
    LineList,
    TriangleList,
    TriangleStrip,
}

/// How a triangle is filled.
#[derive(Clone, Copy, Debug, PartialEq, Eq, Structural)]
pub enum PolygonMode {
    Fill,
    Line,
}

/// How what is drawn is combined with what the colour target held.
#[derive(Clone, Copy, Debug, PartialEq, Eq, Structural)]
pub enum BlendState {
    /// What is drawn takes the place of what was there.
    Replace,
    /// What is drawn is laid over what was there by its alpha.
    AlphaBlending,
}

/// What a pipeline is created with.
pub struct PipelineDescriptor {
    /// The function of the shader module that is run for every vertex.
    pub vertex_entry_point: String,
    /// The function of the shader module that is run for every fragment.
    pub fragment_entry_point: String,
    pub vertex_buffers: Vec<VertexBufferLayout>,
    /// The layouts of the bind groups: the builtin uniforms in group 0, the
    /// texture in group 1.
    pub bind_group_layouts: Vec<Handle>,
    /// The format of the colour target, as the surface is configured.
    pub color_format: usize,
    pub blend: Option<BlendState>,
    /// Whether all four channels of the colour target are written.
    pub write_all_channels: bool,
    pub topology: PrimitiveTopology,
    pub front_face: FrontFace,
    pub cull_mode: Option<Face>,
    pub polygon_mode: PolygonMode,
    pub unclipped_depth: bool,
    pub conservative: bool,
    pub depth_stencil: Option<DepthStencilState>,
    pub sample_count: u32,
    pub sample_mask: u64,
    pub alpha_to_coverage_enabled: bool,
}

/// What the buffer of the builtin uniforms of a pipeline is created with, and
/// how it is bound.
pub struct UniformBufferDescriptor {
    /// The bytes that the buffer holds when it is created.
    pub contents: Vec<u8>,
    /// The buffer can be bound as a uniform.
    pub uniform: bool,
    /// The buffer can be copied to.
    pub copy_dst: bool,
    /// The binding of the buffer in its bind group.
    pub binding: u32,
    /// The vertex stage reads the buffer.
    pub vertex_stage: bool,
    /// The fragment stage reads the buffer.
    pub fragment_stage: bool,
    pub has_dynamic_offset: bool,
    /// The bind group binds the buffer from its first byte to its last.
    pub entire_buffer: bool,
}

/// True if a descriptor is that of every pipeline of the library: lists of
/// triangles, filled, from the entry points `vs_main` and `fs_main`, with
/// counter-clockwise fronts of which the front faces are culled; what is
/// drawn replaces what was there in all channels; depth is written where it
/// is less; one sample, every sample enabled.
pub open spec fn is_builtin_pipeline(descriptor: PipelineDescriptor) -> bool {
    &&& descriptor.vertex_entry_point@ == "vs_main"@
    &&& descriptor.fragment_entry_point@ == "fs_main"@
    &&& descriptor.blend == Some(BlendState::Replace)
    &&& descriptor.write_all_channels
    &&& descriptor.topology == PrimitiveTopology::TriangleList
    &&& descriptor.front_face == FrontFace::Ccw
    &&& descriptor.cull_mode == Some(Face::Front)
    &&& descriptor.polygon_mode == PolygonMode::Fill
    &&& !descriptor.unclipped_depth
    &&& !descriptor.conservative
    &&& descriptor.depth_stencil == Some(
        DepthStencilState {
            format: TextureFormat::Depth32Float,
            depth_write_enabled: true,
            depth_compare: CompareFunction::Less,
        },
    )
    &&& descriptor.sample_count == 1
    &&& descriptor.sample_mask == u64::MAX
    &&& !descriptor.alpha_to_coverage_enabled
}

/// A compiled draw configuration with the buffer of its builtin uniforms and
/// the texture that it binds. It is built once and shared by the meshes that
/// are drawn with it.
pub struct RenderPipeline {
    pipeline: Handle,
    builtin_uniforms: Handle,
    builtin_uniform_bind_group: Handle,
    texture: Arc<Box<dyn Texture>>,
}

impl RenderPipeline {
    /// The pipeline on the device.
    pub closed spec fn pipeline(&self) -> Handle {
        self.pipeline
    }

    /// The buffer that holds the builtin uniforms.
    pub closed spec fn uniform_buffer(&self) -> Handle {
        self.builtin_uniforms
    }

    /// The bind group through which a shader reads the builtin uniforms.
    pub closed spec fn uniforms_bind_group(&self) -> Handle {
        self.builtin_uniform_bind_group
    }

    /// The texture that the pipeline binds.
    pub closed spec fn texture(&self) -> Arc<Box<dyn Texture>> {
        self.texture
    }

    /// What the buffer of the builtin uniforms is created with: as many zero
    /// bytes as the uniforms take, to be bound whole as a uniform at binding 0
    /// for the vertex and the fragment stage, and to be copied to.
    pub fn uniform_buffer_descriptor() -> (descriptor: UniformBufferDescriptor)
        ensures
            descriptor.contents@ == Seq::new(BUILTIN_UNIFORMS_SIZE as nat, |i: int| 0u8),
            descriptor.uniform,
            descriptor.copy_dst,
            descriptor.binding == 0,
            descriptor.vertex_stage,
            descriptor.fragment_stage,
            !descriptor.has_dynamic_offset,
            descriptor.entire_buffer,
    {
        let mut contents: Vec<u8> = Vec::new();
        let mut i: u64 = 0;
        while i < BUILTIN_UNIFORMS_SIZE
            invariant
                i <= BUILTIN_UNIFORMS_SIZE,
                contents@ == Seq::new(i as nat, |k: int| 0u8),
            decreases BUILTIN_UNIFORMS_SIZE - i,
        {
            contents.push(0);
            proof {
                assert(contents@ =~= Seq::new((i + 1) as nat, |k: int| 0u8));
            }
            i += 1;
        }
        UniformBufferDescriptor {
            contents,
            uniform: true,
            copy_dst: true,
            binding: 0,
            vertex_stage: true,
            fragment_stage: true,
            has_dynamic_offset: false,
            entire_buffer: true,
        }
    }

    /// What the pipeline for the given vertex buffers and texture is created
    /// with on an instance: the builtin pipeline over those buffers, with the
    /// builtin uniforms in bind group 0 and the texture in bind group 1, for
    /// the colour format of the instance's surface.
    pub fn descriptor(
        instance: &Instance,
        buffers: Vec<VertexBufferLayout>,
        uniforms_layout: Handle,
        texture: &Arc<Box<dyn Texture>>,
    ) -> (descriptor: PipelineDescriptor)
        ensures
            descriptor.vertex_buffers@ == buffers@,
            descriptor.bind_group_layouts@ == seq![uniforms_layout, texture.bind_group_layout()],
            descriptor.color_format == instance.config().format,
            is_builtin_pipeline(descriptor),
    {
        let mut bind_group_layouts: Vec<Handle> = Vec::new();
        bind_group_layouts.push(uniforms_layout);
        bind_group_layouts.push(texture.raw_bind_group_layout());
        proof {
            assert(bind_group_layouts@ =~= seq![uniforms_layout, texture.bind_group_layout()]);
        }
        PipelineDescriptor {
            vertex_entry_point: "vs_main".to_owned(),
            fragment_entry_point: "fs_main".to_owned(),
            vertex_buffers: buffers,
            bind_group_layouts,
            color_format: instance.raw_config().format,
            blend: Some(BlendState::Replace),
            write_all_channels: true,
            topology: PrimitiveTopology::TriangleList,
            front_face: FrontFace::Ccw,
            cull_mode: Some(Face::Front),
            polygon_mode: PolygonMode::Fill,
            unclipped_depth: false,
            conservative: false,
            depth_stencil: Some(
                DepthStencilState {
                    format: TextureFormat::Depth32Float,
                    depth_write_enabled: true,
                    depth_compare: CompareFunction::Less,
                },
            ),
            sample_count: 1,
            sample_mask: u64::MAX,
            alpha_to_coverage_enabled: false,
        }
    }

    /// What the pipeline for a mesh with one vertex buffer of the given layout
    /// is created with.
    pub fn descriptor_for_mesh(
        instance: &Instance,
        layout: VertexBufferLayout,
        uniforms_layout: Handle,
        texture: &Arc<Box<dyn Texture>>,
    ) -> (descriptor: PipelineDescriptor)
        ensures
            descriptor.vertex_buffers@ == seq![layout],
            descriptor.bind_group_layouts@ == seq![uniforms_layout, texture.bind_group_layout()],
            descriptor.color_format == instance.config().format,
            is_builtin_pipeline(descriptor),
    {
        let mut buffers: Vec<VertexBufferLayout> = Vec::new();
        buffers.push(layout);
        proof {
            assert(buffers@ =~= seq![layout]);
        }
        RenderPipeline::descriptor(instance, buffers, uniforms_layout, texture)
    }

    /// Creates the pipeline from the objects that were made for it on the device.
    pub fn from_raw(
        pipeline: Handle,
        builtin_uniform_bind_group: Handle,
        builtin_uniforms: Handle,
        texture: Arc<Box<dyn Texture>>,
    ) -> (created: Self)
        ensures
            created.pipeline() == pipeline,
            created.uniform_buffer() == builtin_uniforms,
            created.uniforms_bind_group() == builtin_uniform_bind_group,
            created.texture() == texture,
    {
        RenderPipeline { pipeline, builtin_uniforms, builtin_uniform_bind_group, texture }
    }

    /// The command that gives this pipeline new builtin uniforms. Every mesh
    /// that shares the pipeline is drawn with them from then on.
    pub fn set_builtin_uniforms(this: &Rc<RenderPipeline>, val: &BuiltinUniforms) -> (command:
        RenderCommand)
        ensures
            command == (RenderCommand::SetBuiltinUniforms { pipeline: *this, uniforms: *val }),
    {
        RenderCommand::SetBuiltinUniforms { pipeline: this.clone(), uniforms: *val }
    }

    /// The bind group through which a shader reads the builtin uniforms.
    pub fn get_uniforms_bind_group(&self) -> (group: Handle)
        ensures
            group == self.uniforms_bind_group(),
    {
        self.builtin_uniform_bind_group
    }

    /// The buffer that holds the builtin uniforms.
    pub fn get_uniform_buffer(&self) -> (buffer: Handle)
        ensures
            buffer == self.uniform_buffer(),
    {
        self.builtin_uniforms
    }

    /// The pipeline on the device.
    pub fn raw_pipeline(&self) -> (pipeline: Handle)
        ensures
            pipeline == self.pipeline(),
    {
        self.pipeline
    }

    /// The texture that the pipeline binds.
    pub fn get_texture(&self) -> (texture: &Arc<Box<dyn Texture>>)
        ensures
            *texture == self.texture(),
    {
        &self.texture
    }
}

/// One command of a render pass.
pub enum RenderCommand {
    /// Write the builtin uniforms of a pipeline. They stay in effect for every
    /// draw with that pipeline until they are written again.
    SetBuiltinUniforms { pipeline: Rc<RenderPipeline>, uniforms: BuiltinUniforms },
    /// Draw the triangles that `index_count` indices of the index buffer pick
    /// from the vertex buffer, with a pipeline and the bind groups that belong to it.
    DrawIndexed {
        pipeline: Rc<RenderPipeline>,
        vertex_buffer: Handle,
        index_buffer: Handle,
        index_count: u32,
    },
}

/// What a render pass starts with.
pub struct RenderPassDescriptor {
    /// The surface whose current frame the pass draws to.
    pub target: Handle,
    /// The colour that the target is cleared to before anything is drawn.
    pub clear_color: wgpu::Color,
    /// The view onto the depth texture, which is cleared to the far plane
    /// before anything is drawn; `None` for a pass without depth.
    pub depth_stencil: Option<Handle>,
}

/// A render pass: how it starts, and the commands recorded into it.
pub struct RenderPass {
    desc: RenderPassDescriptor,
    commands: Vec<RenderCommand>,
}

/// A render pass as a value: how it starts and its commands in order.
pub struct RenderPassView {
    pub target: Handle,
    pub clear_color: wgpu::Color,
    pub depth_stencil: Option<Handle>,
    pub commands: Seq<RenderCommand>,
}

impl View for RenderPass {
    type V = RenderPassView;

    closed spec fn view(&self) -> RenderPassView {
        RenderPassView {
            target: self.desc.target,
            clear_color: self.desc.clear_color,
            depth_stencil: self.desc.depth_stencil,
            commands: self.commands@,
        }
    }
}

/// The two commands that draw a mesh with the given uniforms: the uniforms are
/// written to the mesh's pipeline, then the mesh is drawn with all its indices.
pub open spec fn mesh_commands(mesh: RenderMesh, uniforms: BuiltinUniforms) -> Seq<RenderCommand> {
    seq![
        RenderCommand::SetBuiltinUniforms { pipeline: mesh.renderer(), uniforms },
        RenderCommand::DrawIndexed {
            pipeline: mesh.renderer(),
            vertex_buffer: mesh.vertex_buffer(),
            index_buffer: mesh.index_buffer(),
            index_count: mesh.index_count() as u32,
        },
    ]
}

impl RenderPass {
    /// The surface whose current frame the pass draws to.
    pub fn target(&self) -> (target: Handle)
        ensures
            target == self@.target,
    {
        self.desc.target
    }

    /// The colour that the target is cleared to.
    pub fn clear_color(&self) -> (color: wgpu::Color)
        ensures
            color == self@.clear_color,
    {
        self.desc.clear_color
    }

    /// The view onto the depth texture that the pass clears and tests against.
    pub fn depth_stencil(&self) -> (view: Option<Handle>)
        ensures
            view == self@.depth_stencil,
    {
        self.desc.depth_stencil
    }

    /// The commands recorded so far, in order.
    pub fn commands(&self) -> (commands: &Vec<RenderCommand>)
        ensures
            commands@ == self@.commands,
    {
        &self.commands
    }

    /// Records a command behind those already recorded.
    pub fn record(&mut self, command: RenderCommand)
        ensures
            final(self)@ == (RenderPassView {
                commands: old(self)@.commands.push(command),
                ..old(self)@
            }),
    {
        self.commands.push(command);
    }

    /// Records the drawing of a mesh with the given uniforms.
    pub fn draw_mesh(&mut self, mesh: &RenderMesh, uniforms: &BuiltinUniforms)
        ensures
            final(self)@ == (RenderPassView {
                commands: old(self)@.commands + mesh_commands(*mesh, *uniforms),
                ..old(self)@
            }),
    {
        let renderer = mesh.get_renderer();
        self.commands.push(RenderPipeline::set_builtin_uniforms(&renderer, uniforms));
        self.commands.push(
            RenderCommand::DrawIndexed {
                pipeline: renderer,
                vertex_buffer: mesh.get_vertex_buffer(),
                index_buffer: mesh.get_index_buffer(),
                index_count: #[verifier::truncate]
                (mesh.get_num_indices() as u32),
            },
        );
        proof {
            assert(self.commands@ =~= old(self)@.commands + mesh_commands(*mesh, *uniforms));
        }
    }
}

/// The passes of one frame, finished and ready for the device.
pub struct CommandBuffer {
    passes: Vec<RenderPass>,
}

/// The values of a list of passes, in the same order.
pub open spec fn pass_views(passes: Seq<RenderPass>) -> Seq<RenderPassView> {
    Seq::new(passes.len(), |i: int| passes[i]@)
}

impl View for CommandBuffer {
    type V = Seq<RenderPassView>;

    closed spec fn view(&self) -> Seq<RenderPassView> {
        pass_views(self.passes@)
    }
}

impl CommandBuffer {
    /// The passes, in the order in which they were recorded.
    pub fn passes(&self) -> (passes: &Vec<RenderPass>)
        ensures
            pass_views(passes@) == self@,
    {
        &self.passes
    }
}

/// The recorder of the commands of one frame. It is made for one frame, takes
/// any number of passes, and is used up when the frame is finished: nothing can
/// be recorded after that, and nothing is finished twice.
pub struct RenderContext {
    passes: Vec<RenderPass>,
}

impl View for RenderContext {
    type V = Seq<RenderPassView>;

    closed spec fn view(&self) -> Seq<RenderPassView> {
        pass_views(self.passes@)
    }
}

impl RenderContext {
    /// Creates the recorder of a frame, with no pass recorded.
    pub fn new() -> (context: Self)
        ensures
            context@ == Seq::<RenderPassView>::empty(),
    {
        let context = RenderContext { passes: Vec::new() };
        proof {
            assert(context@ =~= Seq::<RenderPassView>::empty());
        }
        context
    }

    /// Begins a pass as the descriptor says, behind the passes already there,
    /// and hands it out for recording. What is recorded into it is what the
    /// frame holds as its last pass.
    pub fn create_render_pass_raw(&mut self, desc: RenderPassDescriptor) -> (pass: &mut RenderPass)
        ensures
            pass@ == (RenderPassView {
                target: desc.target,
                clear_color: desc.clear_color,
                depth_stencil: desc.depth_stencil,
                commands: Seq::empty(),
            }),
            final(self)@ == old(self)@.push(final(pass)@),
    {
        let ghost before = self.passes@;
        self.passes.push(RenderPass { desc, commands: Vec::new() });
        let last = self.passes.len() - 1;
        let pass = &mut self.passes[last];
        proof {
            assert(pass_views(before.push(*final(pass))) =~= pass_views(before).push(
                final(pass)@,
            ));
        }
        pass
    }

    /// Begins a pass that starts by clearing the target to a colour and, where
    /// a depth view is given, the depth to the far plane.
    pub fn clear(
        &mut self,
        surf_view: Handle,
        depth_stencil_view: Option<Handle>,
        color: wgpu::Color,
    ) -> (pass: &mut RenderPass)
        ensures
            pass@ == (RenderPassView {
                target: surf_view,
                clear_color: color,
                depth_stencil: depth_stencil_view,
                commands: Seq::empty(),
            }),
            final(self)@ == old(self)@.push(final(pass)@),
    {
        self.create_render_pass_raw(
            RenderPassDescriptor {
                target: surf_view,
                clear_color: color,
                depth_stencil: depth_stencil_view,
            },
        )
    }

    /// Finishes recording: the passes become one command buffer.
    pub fn to_command_buffer(self) -> (buffer: CommandBuffer)
        ensures
            buffer@ == self@,
    {
        CommandBuffer { passes: self.passes }
    }

    /// Finishes recording and puts the frame's one command buffer behind those
    /// that wait for the device.
    pub fn submit(self, submissions: &mut Vec<CommandBuffer>)
        ensures
            final(submissions)@.len() == old(submissions)@.len() + 1,
            final(submissions)@.last()@ == self@,
            final(submissions)@.drop_last() == old(submissions)@,
    {
        let buffer = self.to_command_buffer();
        submissions.push(buffer);
        proof {
            assert(submissions@.drop_last() =~= old(submissions)@);
        }
    }
}

/// The commands that draw every mesh of a scene with the given uniforms, the
/// meshes in the order of their entities.
pub open spec fn draw_commands<U>(scene: Seq<Map<u64, U>>, uniforms: BuiltinUniforms) -> Seq<
    RenderCommand,
> where RenderMesh: Component<U>
    decreases scene.len(),
{
    if scene.len() == 0 {
        Seq::empty()
    } else {
        let earlier = draw_commands(scene.drop_last(), uniforms);
        match component_in::<U, RenderMesh>(scene.last()) {
            Some(mesh) => earlier + mesh_commands(mesh, uniforms),
            None => earlier,
        }
    }
}

/// The uniforms with which a camera at an entity draws, if the entity holds a
/// camera and a transform.
pub open spec fn camera_uniforms<U>(storage: Map<u64, U>) -> Option<
    (Handle, BuiltinUniforms),
> where Camera: Component<U>, Transform3D: Component<U> {
    match (component_in::<U, Camera>(storage), component_in::<U, Transform3D>(storage)) {
        (Some(camera), Some(transform)) => Some(
            (
                camera.target(),
                BuiltinUniforms {
                    projection_mtx: camera.projection(),
                    view_mtx: transform.model_matrix,
                },
            ),
        ),
        _ => None,
    }
}

/// The passes of a frame for the cameras among the first `count` entities of
/// a scene: one pass per camera, in the order of the entities, each clearing
/// colour and depth and then drawing every mesh of the whole scene.
pub open spec fn camera_passes<U>(
    scene: Seq<Map<u64, U>>,
    count: int,
    depth_view: Handle,
    clear_color: wgpu::Color,
) -> Seq<RenderPassView> where
    RenderMesh: Component<U>,
    Camera: Component<U>,
    Transform3D: Component<U>,

    decreases count,
{
    if count <= 0 {
        Seq::empty()
    } else {
        let earlier = camera_passes(scene, count - 1, depth_view, clear_color);
        match camera_uniforms(scene[count - 1]) {
            Some((target, uniforms)) => earlier.push(
                RenderPassView {
                    target,
                    clear_color,
                    depth_stencil: Some(depth_view),
                    commands: draw_commands(scene, uniforms),
                },
            ),
            None => earlier,
        }
    }
}

/// One step of carrying out a recorded frame on the device.
#[derive(Clone, Copy, Debug, PartialEq, Eq, Structural)]
pub enum FrameStep {
    /// Acquire the texture of the current frame from a surface and take a view
    /// onto it. This is the one step that can fail: the surface may give no
    /// texture.
    AcquireView(Handle),
    /// Take a view onto the texture of a surface that is outstanding already.
    UseView(Handle),
    /// Carry out the pass at this position of the frame, on the view onto the
    /// texture of its target.
    RunPass(usize),
    /// Submit the command buffer of the frame.
    Submit,
    /// Present the texture of the window surface, if one is outstanding.
    Present,
}

/// True if a pass before position `i` of a frame draws to `target`.
pub open spec fn drawn_to_before(passes: Seq<RenderPassView>, i: int, target: Handle) -> bool {
    exists|j: int| 0 <= j < i && (#[trigger] passes[j]).target == target
}

/// True if the pass at position `i` of a frame is the first to draw to its target.
pub open spec fn first_to_target(passes: Seq<RenderPassView>, i: int) -> bool {
    !drawn_to_before(passes, i, passes[i].target)
}

/// The step that gives the view onto the texture of a surface: the texture
/// that is held already is used, any other is acquired.
pub open spec fn view_step(target: Handle, held: Option<Handle>) -> FrameStep {
    if held == Some(target) {
        FrameStep::UseView(target)
    } else {
        FrameStep::AcquireView(target)
    }
}

/// The surface whose view a step gives, if it gives one.
pub open spec fn view_given(step: FrameStep) -> Option<Handle> {
    match step {
        FrameStep::AcquireView(target) => Some(target),
        FrameStep::UseView(target) => Some(target),
        _ => None,
    }
}

/// The steps for the first `count` passes of a frame, in order: each pass is
/// carried out, and the first pass that draws to a surface is carried out
/// behind the step that gives the view of that surface.
pub open spec fn pass_steps(passes: Seq<RenderPassView>, count: int, held: Option<Handle>) -> Seq<
    FrameStep,
>
    decreases count,
{
    if count <= 0 {
        Seq::empty()
    } else {
        let earlier = pass_steps(passes, count - 1, held);
        if first_to_target(passes, count - 1) {
            earlier.push(view_step(passes[count - 1].target, held)).push(
                FrameStep::RunPass((count - 1) as usize),
            )
        } else {
            earlier.push(FrameStep::RunPass((count - 1) as usize))
        }
    }
}

/// The steps that carry out a frame: its passes, then the one submission,
/// then the presentation.
pub open spec fn steps_of(passes: Seq<RenderPassView>, held: Option<Handle>) -> Seq<FrameStep> {
    pass_steps(passes, passes.len() as int, held).push(FrameStep::Submit).push(
        FrameStep::Present,
    )
}

/// How far the steps of a frame have been carried out: the steps, how many
/// of them are done, and whether the frame was abandoned.
pub struct FrameRun {
    steps: Vec<FrameStep>,
    done: usize,
    abandoned: bool,
}

/// The step that is due when `done` steps of a frame are done: the next one,
/// or none where all are done or the frame was abandoned.
pub open spec fn step_due(steps: Seq<FrameStep>, done: int, abandoned: bool) -> Option<FrameStep> {
    if abandoned || done < 0 || done >= steps.len() {
        None
    } else {
        Some(steps[done])
    }
}

impl FrameRun {
    /// The steps of the frame.
    pub closed spec fn steps(&self) -> Seq<FrameStep> {
        self.steps@
    }

    /// The number of steps that were carried out or tried.
    pub closed spec fn done(&self) -> int {
        self.done as int
    }

    /// Whether a step failed, so that the rest of the frame is left out.
    pub closed spec fn abandoned(&self) -> bool {
        self.abandoned
    }

    /// The step that is due.
    pub open spec fn due(&self) -> Option<FrameStep> {
        step_due(self.steps(), self.done(), self.abandoned())
    }

    /// Begins to carry out the steps of a frame: none is done.
    pub fn new(steps: Vec<FrameStep>) -> (run: Self)
        ensures
            run.steps() == steps@,
            run.done() == 0,
            !run.abandoned(),
    {
        FrameRun { steps, done: 0, abandoned: false }
    }

    /// The step to carry out next, or `None` where the frame is over: all its
    /// steps are done, or it was abandoned.
    pub fn next_step(&self) -> (step: Option<FrameStep>)
        ensures
            step == self.due(),
    {
        if self.abandoned || self.done >= self.steps.len() {
            None
        } else {
            Some(self.steps[self.done])
        }
    }

    /// Takes note of how the step that was due went. A step that succeeded
    /// makes the next one due. A step that failed abandons the frame: no step
    /// is due any more, so nothing of the frame is submitted or presented.
    /// Where no step was due, nothing changes.
    pub fn step_done(&mut self, succeeded: bool)
        ensures
            final(self).steps() == old(self).steps(),
            match old(self).due() {
                Some(_) => final(self).done() == old(self).done() + 1 && final(self).abandoned()
                    == !succeeded,
                None => final(self).done() == old(self).done() && final(self).abandoned() == old(
                    self,
                ).abandoned(),
            },
    {
        if !self.abandoned && self.done < self.steps.len() {
            self.done = self.done + 1;
            self.abandoned = !succeeded;
        }
    }

    /// Whether the frame was abandoned.
    pub fn is_abandoned(&self) -> (abandoned: bool)
        ensures
            abandoned == self.abandoned(),
    {
        self.abandoned
    }
}

/// A system that clears the target of every camera and draws every mesh for it.
/// It owns the instance that it draws with.
pub struct BasicRenderSystem {
    instance: Instance,
    depth_texture: Handle,
    depth_texture_view: Handle,
    clear_color: wgpu::Color,
}

impl BasicRenderSystem {
    /// The instance that the system draws with.
    pub closed spec fn instance(&self) -> Instance {
        self.instance
    }

    /// The view onto the depth texture.
    pub closed spec fn depth_view(&self) -> Handle {
        self.depth_texture_view
    }

    /// The depth texture.
    pub closed spec fn depth_texture(&self) -> Handle {
        self.depth_texture
    }

    /// The colour that every pass clears its target to.
    pub closed spec fn clear_color(&self) -> wgpu::Color {
        self.clear_color
    }

    /// What the depth texture for an instance is created with: as large as
    /// the surface is configured, and at least one pixel a side.
    pub fn depth_texture_descriptor(instance: &Instance) -> (descriptor: TextureDescriptor)
        ensures
            descriptor == (TextureDescriptor {
                size: Extent3d {
                    width: if instance.config().width == 0 {
                        1
                    } else {
                        instance.config().width
                    },
                    height: if instance.config().height == 0 {
                        1
                    } else {
                        instance.config().height
                    },
                    depth_or_array_layers: 1,
                },
                mip_level_count: 1,
                sample_count: 1,
                format: TextureFormat::Depth32Float,
                texture_binding: false,
                copy_dst: false,
                render_attachment: true,
            }),
    {
        let config = instance.raw_config();
        TextureDescriptor {
            size: Extent3d {
                width: if config.width == 0 {
                    1
                } else {
                    config.width
                },
                height: if config.height == 0 {
                    1
                } else {
                    config.height
                },
                depth_or_array_layers: 1,
            },
            mip_level_count: 1,
            sample_count: 1,
            format: TextureFormat::Depth32Float,
            texture_binding: false,
            copy_dst: false,
            render_attachment: true,
        }
    }

    /// Creates the system for an instance, with the depth texture that was
    /// made for it and the colour to clear to.
    pub fn new(
        instance: Instance,
        depth_texture: Handle,
        depth_texture_view: Handle,
        clear_color: wgpu::Color,
    ) -> (system: Self)
        ensures
            system.instance() == instance,
            system.depth_texture() == depth_texture,
            system.depth_view() == depth_texture_view,
            system.clear_color() == clear_color,
    {
        BasicRenderSystem { instance, depth_texture, depth_texture_view, clear_color }
    }

    /// The instance that the system draws with.
    pub fn get_instance(&self) -> (instance: &Instance)
        ensures
            *instance == self.instance(),
    {
        &self.instance
    }

    /// The instance that the system draws with, for writing. The depth
    /// texture and the clear colour are left as they were.
    pub fn get_instance_mut(&mut self) -> (instance: &mut Instance)
        ensures
            *instance == old(self).instance(),
            final(self).instance() == *final(instance),
            final(self).depth_texture() == old(self).depth_texture(),
            final(self).depth_view() == old(self).depth_view(),
            final(self).clear_color() == old(self).clear_color(),
    {
        &mut self.instance
    }

    /// The depth texture.
    pub fn get_depth_texture(&self) -> (texture: Handle)
        ensures
            texture == self.depth_texture(),
    {
        self.depth_texture
    }

    /// The surface whose texture the system holds already, if there is one:
    /// the window surface while its texture is outstanding.
    pub open spec fn held_surface(&self) -> Option<Handle> {
        if self.instance().surface().outstanding() is Some {
            Some(self.instance().surface().surface())
        } else {
            None
        }
    }

    /// Begins to carry out a recorded frame: its steps with none of them done.
    pub fn begin_frame(&self, frame: &CommandBuffer) -> (run: FrameRun)
        ensures
            run.steps() == steps_of(frame@, self.held_surface()),
            run.done() == 0,
            !run.abandoned(),
    {
        FrameRun::new(self.frame_steps(frame))
    }

    /// The steps that carry out a recorded frame, in order. The view of a
    /// surface is taken once, before the first pass that draws to it: its
    /// texture is acquired, or used as it is where the window surface has its
    /// texture outstanding. The frame is submitted once, behind all passes,
    /// and presented behind that.
    pub fn frame_steps(&self, frame: &CommandBuffer) -> (steps: Vec<FrameStep>)
        ensures
            steps@ == steps_of(frame@, self.held_surface()),
    {
        let surface = self.instance.window_surface();
        let held: Option<Handle> = match surface.get_view() {
            ViewRequest::Outstanding(_) => Some(surface.raw_surface()),
            ViewRequest::Acquire => None,
        };
        let passes = frame.passes();
        let mut steps: Vec<FrameStep> = Vec::new();
        let mut i: usize = 0;
        while i < passes.len()
            invariant
                i <= passes@.len(),
                pass_views(passes@) == frame@,
                held == self.held_surface(),
                steps@ == pass_steps(frame@, i as int, held),
            decreases passes@.len() - i,
        {
            let target = passes[i].target();
            let mut seen = false;
            let mut j: usize = 0;
            while j < i
                invariant
                    j <= i < passes@.len(),
                    pass_views(passes@) == frame@,
                    target == frame@[i as int].target,
                    seen == drawn_to_before(frame@, j as int, target),
                decreases i - j,
            {
                if passes[j].target() == target {
                    seen = true;
                }
                proof {
                    assert(frame@[j as int].target == passes@[j as int]@.target);
                    if drawn_to_before(frame@, j + 1, target) && !seen {
                        let k = choose|k: int| 0 <= k < j + 1 && (#[trigger] frame@[k]).target == target;
                        assert(k < j);
                    }
                }
                j += 1;
            }
            let held_already = match held {
                Some(h) => h == target,
                None => false,
            };
            if !seen {
                if held_already {
                    steps.push(FrameStep::UseView(target));
                } else {
                    steps.push(FrameStep::AcquireView(target));
                }
            }
            steps.push(FrameStep::RunPass(i));
            i += 1;
        }
        steps.push(FrameStep::Submit);
        steps.push(FrameStep::Present);
        steps
    }

    /// Records one frame: a pass for every entity that holds a camera and a
    /// transform, in the order of the entities, which clears the camera's
    /// target and the depth and draws every mesh with the camera's projection
    /// and the transform's matrix. Entities without what is asked for are
    /// passed over.
    #[verifier::loop_isolation(false)]
    pub fn update<U>(&self, entities: &Vec<Entity<U>>) -> (frame: CommandBuffer) where
        RenderMesh: Component<U>,
        Camera: Component<U>,
        Transform3D: Component<U>,

        ensures
            frame@ == camera_passes(
                storages(entities@),
                entities@.len() as int,
                self.depth_view(),
                self.clear_color(),
            ),
    {
        let ghost scene = storages(entities@);
        let mut render_ctx = RenderContext::new();
        let mut c: usize = 0;
        while c < entities.len()
            invariant
                c <= entities@.len(),
                render_ctx@ == camera_passes(
                    scene,
                    c as int,
                    self.depth_view(),
                    self.clear_color(),
                ),
            decreases entities@.len() - c,
        {
            let camera = entities[c].get_component::<Camera>();
            let transform = entities[c].get_component::<Transform3D>();
            match (camera, transform) {
                (Some(cam), Some(trn)) => {
                    let uniforms = BuiltinUniforms {
                        projection_mtx: *cam.get_projection_matrix(),
                        view_mtx: trn.model_matrix,
                    };
                    let render_pass = render_ctx.clear(
                        cam.get_render_target(),
                        Some(self.depth_texture_view),
                        self.clear_color,
                    );
                    let ghost started = render_pass@;
                    let mut m: usize = 0;
                    while m < entities.len()
                        invariant
                            m <= entities@.len(),
                            render_pass@ == (RenderPassView {
                                commands: draw_commands(scene.take(m as int), uniforms),
                                ..started
                            }),
                        decreases entities@.len() - m,
                    {
                        proof {
                            assert(scene.take(m + 1).drop_last() =~= scene.take(m as int));
                        }
                        match entities[m].get_component::<RenderMesh>() {
                            Some(mesh) => {
                                render_pass.draw_mesh(mesh, &uniforms);
                            },
                            None => {},
                        }
                        m += 1;
                    }
                    proof {
                        assert(scene.take(m as int) =~= scene);
                    }
                },
                _ => {},
            }
            c += 1;
        }
        render_ctx.to_command_buffer()
    }
}

/// True if a command writes the builtin uniforms of a pipeline.
pub open spec fn writes_to(command: RenderCommand, pipeline: Rc<RenderPipeline>) -> bool {
    match command {
        RenderCommand::SetBuiltinUniforms { pipeline: written, .. } => written == pipeline,
        _ => false,
    }
}

/// True if a command draws with a pipeline.
pub open spec fn draws_with(command: RenderCommand, pipeline: Rc<RenderPipeline>) -> bool {
    match command {
        RenderCommand::DrawIndexed { pipeline: used, .. } => used == pipeline,
        _ => false,
    }
}

/// The builtin uniforms that a pipeline holds when the command at position
/// `at` of a list takes effect: those of the last write to the pipeline before
/// that position, or `None` if the list has not written to it by then.
pub open spec fn uniforms_in_effect(
    commands: Seq<RenderCommand>,
    at: int,
    pipeline: Rc<RenderPipeline>,
) -> Option<BuiltinUniforms>
    decreases at,
{
    if at <= 0 || at > commands.len() {
        None
    } else {
        match commands[at - 1] {
            RenderCommand::SetBuiltinUniforms { pipeline: written, uniforms } => if written
                == pipeline {
                Some(uniforms)
            } else {
                uniforms_in_effect(commands, at - 1, pipeline)
            },
            _ => uniforms_in_effect(commands, at - 1, pipeline),
        }
    }
}

/// A pipeline is shared, and so are its uniforms: after a write to a pipeline,
/// every draw with that pipeline sees what was written, whichever mesh it
/// draws and whichever mesh the write was made for, until the pipeline is
/// written to again. The last write before a draw is the one that counts.
pub proof fn draw_sees_last_write(
    commands: Seq<RenderCommand>,
    write: int,
    draw: int,
    pipeline: Rc<RenderPipeline>,
    uniforms: BuiltinUniforms,
)
    requires
        0 <= write < draw <= commands.len(),
        commands[write] == (RenderCommand::SetBuiltinUniforms { pipeline, uniforms }),
        forall|k: int| write < k < draw ==> !writes_to(#[trigger] commands[k], pipeline),
    ensures
        uniforms_in_effect(commands, draw, pipeline) == Some(uniforms),
    decreases draw - write,
{
    if draw - 1 > write {
        assert(!writes_to(commands[draw - 1], pipeline));
        draw_sees_last_write(commands, write, draw - 1, pipeline, uniforms);
    }
}

/// Two draws with the same pipeline between which the pipeline is not written
/// to see the same uniforms, whether they draw the same mesh or not.
pub proof fn draws_between_writes_agree(
    commands: Seq<RenderCommand>,
    first: int,
    second: int,
    pipeline: Rc<RenderPipeline>,
)
    requires
        0 <= first <= second <= commands.len(),
        forall|k: int| first <= k < second ==> !writes_to(#[trigger] commands[k], pipeline),
    ensures
        uniforms_in_effect(commands, second, pipeline) == uniforms_in_effect(
            commands,
            first,
            pipeline,
        ),
    decreases second - first,
{
    if second > first {
        assert(!writes_to(commands[second - 1], pipeline));
        draws_between_writes_agree(commands, first, second - 1, pipeline);
    }
}

/// What a position says of the commands before it stays true when commands are
/// put behind the list.
pub proof fn later_commands_change_nothing(
    commands: Seq<RenderCommand>,
    more: Seq<RenderCommand>,
    at: int,
    pipeline: Rc<RenderPipeline>,
)
    requires
        0 <= at <= commands.len(),
    ensures
        uniforms_in_effect(commands + more, at, pipeline) == uniforms_in_effect(
            commands,
            at,
            pipeline,
        ),
    decreases at,
{
    if at > 0 {
        assert((commands + more)[at - 1] == commands[at - 1]);
        later_commands_change_nothing(commands, more, at - 1, pipeline);
    }
}

/// In the commands of a pass every draw sees the uniforms of the pass's camera
/// in the pipeline that it draws with.
pub proof fn every_draw_sees_the_camera<U>(
    scene: Seq<Map<u64, U>>,
    uniforms: BuiltinUniforms,
    at: int,
    pipeline: Rc<RenderPipeline>,
) where RenderMesh: Component<U>
    requires
        0 <= at < draw_commands(scene, uniforms).len(),
        draws_with(draw_commands(scene, uniforms)[at], pipeline),
    ensures
        uniforms_in_effect(draw_commands(scene, uniforms), at, pipeline) == Some(uniforms),
    decreases scene.len(),
{
    let commands = draw_commands(scene, uniforms);
    let earlier = draw_commands(scene.drop_last(), uniforms);
    match component_in::<U, RenderMesh>(scene.last()) {
        Some(mesh) => {
            let pair = mesh_commands(mesh, uniforms);
            assert(commands == earlier + pair);
            if at < earlier.len() {
                assert(commands[at] == earlier[at]);
                every_draw_sees_the_camera(scene.drop_last(), uniforms, at, pipeline);
                later_commands_change_nothing(earlier, pair, at, pipeline);
            } else {
                assert(commands[earlier.len() as int] == pair[0]);
                assert(commands[earlier.len() as int + 1] == pair[1]);
                assert(at == earlier.len() + 1);
                assert(pipeline == mesh.renderer());
            }
        },
        None => {
            every_draw_sees_the_camera(scene.drop_last(), uniforms, at, pipeline);
        },
    }
}

/// True if the step at position `k` of the steps for the first `count` passes
/// is in its place: it carries out one of those passes, or it gives the view
/// of a surface directly before the pass that is the first to draw to it.
pub open spec fn step_is_in_place(
    passes: Seq<RenderPassView>,
    count: int,
    held: Option<Handle>,
    steps: Seq<FrameStep>,
    k: int,
) -> bool {
    &&& steps[k] is RunPass ==> steps[k]->RunPass_0 < count
    &&& !(steps[k] is Submit) && !(steps[k] is Present)
    &&& view_given(steps[k]) is Some ==> exists|i: int|
        0 <= i < count && first_to_target(passes, i) && steps[k] == view_step(
            (#[trigger] passes[i]).target,
            held,
        ) && k + 1 < steps.len() && steps[k + 1] == FrameStep::RunPass(i as usize)
}

/// What the steps for the passes of a frame hold: every step gives a view or
/// carries out a pass; a view is given directly before the pass that is the
/// first to draw to its surface, and nowhere else; and the passes come in
/// their order, none left out.
pub proof fn pass_steps_are_views_and_passes(
    passes: Seq<RenderPassView>,
    count: int,
    held: Option<Handle>,
)
    requires
        0 <= count <= passes.len(),
    ensures
        forall|k: int|
            0 <= k < pass_steps(passes, count, held).len() ==> step_is_in_place(
                passes,
                count,
                held,
                pass_steps(passes, count, held),
                k,
            ),
    decreases count,
{
    if count > 0 {
        pass_steps_are_views_and_passes(passes, count - 1, held);
        let earlier = pass_steps(passes, count - 1, held);
        let all = pass_steps(passes, count, held);
        assert forall|k: int| 0 <= k < all.len() implies step_is_in_place(
            passes,
            count,
            held,
            all,
            k,
        ) by {
            if k < earlier.len() {
                assert(all[k] == earlier[k]);
                assert(step_is_in_place(passes, count - 1, held, earlier, k));
                if view_given(earlier[k]) is Some {
                    let i = choose|i: int|
                        0 <= i < count - 1 && first_to_target(passes, i) && earlier[k]
                            == view_step((#[trigger] passes[i]).target, held) && k + 1
                            < earlier.len() && earlier[k + 1] == FrameStep::RunPass(i as usize);
                    assert(all[k + 1] == earlier[k + 1]);
                    assert(all[k] == view_step(passes[i].target, held));
                }
            } else if first_to_target(passes, count - 1) && k == earlier.len() {
                assert(all[k] == view_step(passes[count - 1].target, held));
                assert(all[k + 1] == FrameStep::RunPass((count - 1) as usize));
            }
        }
    }
}

/// The view of a surface is taken at most once in a frame, however many passes
/// draw to the surface; and a texture is acquired only from a surface whose
/// texture is not held already.
pub proof fn one_view_per_surface(
    passes: Seq<RenderPassView>,
    held: Option<Handle>,
    first: int,
    second: int,
    target: Handle,
)
    requires
        passes.len() <= usize::MAX,
        0 <= first < steps_of(passes, held).len(),
        0 <= second < steps_of(passes, held).len(),
        view_given(steps_of(passes, held)[first]) == Some(target),
        view_given(steps_of(passes, held)[second]) == Some(target),
    ensures
        first == second,
        steps_of(passes, held)[first] == view_step(target, held),
        steps_of(passes, held)[first] is AcquireView ==> held != Some(target),
{
    let count = passes.len() as int;
    let inner = pass_steps(passes, count, held);
    let steps = steps_of(passes, held);
    pass_steps_are_views_and_passes(passes, count, held);
    assert(first < inner.len() && second < inner.len());
    assert(steps[first] == inner[first] && steps[second] == inner[second]);
    assert(step_is_in_place(passes, count, held, inner, first));
    assert(step_is_in_place(passes, count, held, inner, second));
    let i = choose|i: int|
        0 <= i < count && first_to_target(passes, i) && inner[first] == view_step(
            (#[trigger] passes[i]).target,
            held,
        ) && first + 1 < inner.len() && inner[first + 1] == FrameStep::RunPass(i as usize);
    let j = choose|j: int|
        0 <= j < count && first_to_target(passes, j) && inner[second] == view_step(
            (#[trigger] passes[j]).target,
            held,
        ) && second + 1 < inner.len() && inner[second + 1] == FrameStep::RunPass(j as usize);
    assert(passes[i].target == target);
    assert(passes[j].target == target);
    if i < j {
        assert(drawn_to_before(passes, j, passes[j].target));
    } else if j < i {
        assert(drawn_to_before(passes, i, passes[i].target));
    }
    assert(i == j);
    positions_of_passes_rise(passes, count, held, first + 1, second + 1);
}

/// The passes come in their order: of two steps that carry out passes, the
/// one with the smaller position comes first, and no pass is carried out twice.
pub proof fn positions_of_passes_rise(
    passes: Seq<RenderPassView>,
    count: int,
    held: Option<Handle>,
    a: int,
    b: int,
)
    requires
        0 <= count <= passes.len() <= usize::MAX,
        0 <= a < pass_steps(passes, count, held).len(),
        0 <= b < pass_steps(passes, count, held).len(),
        pass_steps(passes, count, held)[a] is RunPass,
        pass_steps(passes, count, held)[b] is RunPass,
    ensures
        a < b <==> pass_steps(passes, count, held)[a]->RunPass_0 < pass_steps(
            passes,
            count,
            held,
        )[b]->RunPass_0,
        a == b <==> pass_steps(passes, count, held)[a]->RunPass_0 == pass_steps(
            passes,
            count,
            held,
        )[b]->RunPass_0,
    decreases count,
{
    if count > 0 {
        let earlier = pass_steps(passes, count - 1, held);
        let all = pass_steps(passes, count, held);
        pass_steps_are_views_and_passes(passes, count - 1, held);
        let last = all.len() - 1;
        assert(all[last] == FrameStep::RunPass((count - 1) as usize));
        if a < earlier.len() && b < earlier.len() {
            assert(all[a] == earlier[a] && all[b] == earlier[b]);
            positions_of_passes_rise(passes, count - 1, held, a, b);
        } else if a < earlier.len() {
            assert(all[a] == earlier[a]);
            assert(step_is_in_place(passes, count - 1, held, earlier, a));
            assert(b == last);
        } else if b < earlier.len() {
            assert(all[b] == earlier[b]);
            assert(step_is_in_place(passes, count - 1, held, earlier, b));
            assert(a == last);
        } else {
            assert(a == last && b == last);
        }
    }
}

/// A frame is submitted exactly once, behind every pass, and presented
/// behind the submission, as the last step of all.
pub proof fn frame_is_submitted_once(passes: Seq<RenderPassView>, held: Option<Handle>, k: int)
    requires
        0 <= k < steps_of(passes, held).len(),
    ensures
        steps_of(passes, held)[k] == FrameStep::Submit <==> k == steps_of(passes, held).len() - 2,
        steps_of(passes, held)[k] == FrameStep::Present <==> k == steps_of(passes, held).len() - 1,
{
    let count = passes.len() as int;
    let inner = pass_steps(passes, count, held);
    pass_steps_are_views_and_passes(passes, count, held);
    if k < inner.len() {
        assert(steps_of(passes, held)[k] == inner[k]);
        assert(step_is_in_place(passes, count, held, inner, k));
    }
}

/// What is due after the steps of a frame were tried one after the other with
/// the given outcomes, from `done` steps done: each outcome is that of the
/// step that was due; outcomes for which no step was due count for nothing.
pub open spec fn due_after(
    steps: Seq<FrameStep>,
    done: int,
    abandoned: bool,
    outcomes: Seq<bool>,
) -> (int, bool)
    decreases outcomes.len(),
{
    if outcomes.len() == 0 {
        (done, abandoned)
    } else if step_due(steps, done, abandoned) is Some {
        due_after(steps, done + 1, !outcomes[0], outcomes.skip(1))
    } else {
        due_after(steps, done, abandoned, outcomes.skip(1))
    }
}

/// A frame whose surface gives no texture is abandoned: once a step has
/// failed, no step is due whatever comes after, so every step behind the
/// failed one is left out, the submission and the presentation among them.
pub proof fn failed_step_abandons_the_frame(
    steps: Seq<FrameStep>,
    done: int,
    outcomes: Seq<bool>,
)
    requires
        0 <= done < steps.len(),
    ensures
        due_after(steps, done, false, seq![false] + outcomes) == (done + 1, true),
        step_due(steps, done + 1, true) is None,
    decreases outcomes.len(),
{
    let all = seq![false] + outcomes;
    assert(all.skip(1) =~= outcomes);
    assert(all[0] == false);
    abandoned_frame_stays_abandoned(steps, done + 1, outcomes);
}

/// In an abandoned frame nothing is due and nothing changes any more.
pub proof fn abandoned_frame_stays_abandoned(steps: Seq<FrameStep>, done: int, outcomes: Seq<bool>)
    ensures
        due_after(steps, done, true, outcomes) == (done, true),
    decreases outcomes.len(),
{
    if outcomes.len() > 0 {
        abandoned_frame_stays_abandoned(steps, done, outcomes.skip(1));
    }
}

/// Where every step succeeds, every step of the frame comes due in its
/// order, and after the last one none is due.
pub proof fn successful_frame_takes_every_step(steps: Seq<FrameStep>, done: int, tried: int)
    requires
        0 <= done,
        0 <= tried,
        done + tried <= steps.len(),
    ensures
        due_after(steps, done, false, Seq::new(tried as nat, |i: int| true)) == (
            done + tried,
            false,
        ),
        step_due(steps, done + tried, false) == if done + tried < steps.len() {
            Some(steps[done + tried])
        } else {
            None::<FrameStep>
        },
    decreases tried,
{
    let outcomes = Seq::new(tried as nat, |i: int| true);
    if tried > 0 {
        assert(outcomes.skip(1) =~= Seq::new((tried - 1) as nat, |i: int| true));
        successful_frame_takes_every_step(steps, done + 1, tried - 1);
    }
}

} // verus!
