//! The renderable scene: the demo triangle, its transform state, and the
//! graphics pipeline that draws it.
//!
//! The per-frame state is the accumulated model rotation about the Y axis.
//! It is kept in micro-degrees, an exact integer, so the accumulation is
//! precisely linear in elapsed time: advancing by `a` then by `b`
//! microseconds lands on the same rotation as advancing by `a + b` at once.
//! The floating-point matrix built from the rotation is opaque to the
//! library; it arrives as a ready 64-byte uniform block.

use vstd::prelude::*;

use crate::backend::{create_buffer_init, create_pipeline_layout, create_render_pipeline,
    create_shader_module, pass_draw_indexed, pass_set_bind_group, pass_set_index_buffer_u32,
    pass_set_pipeline, pass_set_vertex_buffer, scene_color_target, scene_depth_state,
    scene_multisample_state, scene_primitive_state, to_wgpu_attribute, BufferRole};
use crate::uniform::{spliced, UniformBinding, UniformBuffer};
use crate::vertex::{demo_indices, demo_vertices, encode_indices, encode_vertices, Vertex};

verus! {

/// The shader program of the scene: one uniform block at group 0 binding 0
/// holding the 4x4 transform, vertex inputs at locations 0 (position) and 1
/// (color), the vertex stage transforming position by the matrix and
/// passing color through, the fragment stage emitting the interpolated
/// color. The binding index, input locations and block layout here must
/// match the CPU-side layouts byte for byte.
pub fn shader_source() -> &'static str {
    "
struct Uniform {
    mvp: mat4x4f,
};

@group(0) @binding(0)
var<uniform> ubo: Uniform;

struct VertexInput {
    @location(0) position: vec4f,
    @location(1) color: vec4f,
};
struct VertexOutput {
    @builtin(position) position: vec4f,
    @location(0) color: vec4f,
};

@vertex
fn vertex_main(vert: VertexInput) -> VertexOutput {
    var out: VertexOutput;
    out.color = vert.color;
    out.position = ubo.mvp * vert.position;
    return out;
};

@fragment
fn fragment_main(in: VertexOutput) -> @location(0) vec4f {
    return vec4f(in.color);
}
"
}

/// Rotation rate of the model: thirty degrees per second, which is exactly
/// thirty micro-degrees per microsecond.
pub const ROTATION_UDEG_PER_US: u64 = 30;

/// The accumulated rotation after advancing `rot` by `delta_us`
/// microseconds of elapsed time.
pub open spec fn rotation_after(rot: int, delta_us: int) -> int {
    rot + ROTATION_UDEG_PER_US * delta_us
}

/// Advancing by no elapsed time leaves the rotation unchanged.
pub proof fn lemma_rotation_zero_delta(rot: int)
    ensures
        rotation_after(rot, 0) == rot,
{
}

/// The accumulated rotation is linear in total elapsed time: advancing by
/// `a` then by `b` microseconds is the same as advancing by `a + b` once.
pub proof fn lemma_rotation_linear(rot: int, a: int, b: int)
    ensures
        rotation_after(rotation_after(rot, a), b) == rotation_after(rot, a + b),
{
}

/// The rotation reached from `rot` after `delta_us` microseconds, as a
/// value.
pub fn rotation_step(rot: u64, delta_us: u64) -> (r: u64)
    requires
        rotation_after(rot as int, delta_us as int) <= u64::MAX,
    ensures
        r == rotation_after(rot as int, delta_us as int),
{
    rot + ROTATION_UDEG_PER_US * delta_us
}

/// What every per-frame change leaves alone: the write-once geometry
/// buffers, the pipeline, the uniform binding's GPU handles, and the index
/// count. Only the rotation and the uniform contents move between frames.
pub open spec fn scene_statics_unchanged(pre: Scene, post: Scene) -> bool {
    &&& post.vertex_buffer == pre.vertex_buffer
    &&& post.index_buffer == pre.index_buffer
    &&& post.pipeline == pre.pipeline
    &&& post.uniform.buffer == pre.uniform.buffer
    &&& post.uniform.bind_group == pre.uniform.bind_group
    &&& post.uniform.bind_group_layout == pre.uniform.bind_group_layout
    &&& post.index_count == pre.index_count
}

/// The scene: the accumulated model rotation, the write-once geometry
/// buffers, the uniform binding the matrix lives in, and the pipeline.
pub struct Scene {
    /// Accumulated model rotation about the Y axis, in micro-degrees.
    pub rotation_udeg: u64,
    pub vertex_buffer: wgpu::Buffer,
    pub index_buffer: wgpu::Buffer,
    pub uniform: UniformBinding,
    pub pipeline: wgpu::RenderPipeline,
    /// Number of indices the draw call covers.
    pub index_count: u32,
}

impl Scene {
    /// A scene is well formed when its uniform mirror spans the block.
    pub open spec fn wf(self) -> bool {
        self.uniform.wf()
    }

    /// Uploads the demo triangle's vertex and index data to write-once
    /// buffers, creates the uniform binding, builds the pipeline, and
    /// starts the model untransformed (zero rotation, zeroed block).
    pub fn new(device: &wgpu::Device, surface_format: &wgpu::TextureFormat) -> (s: Scene)
        ensures
            s.wf(),
            s.rotation_udeg == 0,
            s.uniform.contents@ == crate::uniform::zero_block(),
            s.index_count == 3,
    {
        let vertices = demo_vertices();
        let vertex_data = encode_vertices(&vertices);
        let vertex_buffer = create_buffer_init(device, &vertex_data, BufferRole::Vertex);
        let indices = demo_indices();
        let index_data = encode_indices(&indices);
        let index_buffer = create_buffer_init(device, &index_data, BufferRole::Index);
        let index_count: u32 = 3;
        let uniform = UniformBinding::new(device);
        let pipeline = Self::create_pipeline(device, surface_format, &uniform);
        Scene { rotation_udeg: 0, vertex_buffer, index_buffer, uniform, pipeline, index_count }
    }

    /// Builds the graphics pipeline: the shader program, the layout over
    /// the uniform binding, the vertex layout from `Vertex`, and the fixed
    /// primitive, depth, multisample and blend state.
    fn create_pipeline(
        device: &wgpu::Device,
        surface_format: &wgpu::TextureFormat,
        uniform: &UniformBinding,
    ) -> wgpu::RenderPipeline {
        let module = create_shader_module(device, shader_source());
        let layout = create_pipeline_layout(device, &uniform.bind_group_layout);
        let attribute_specs = Vertex::vertex_attributes();
        let layout_spec = Vertex::description(&attribute_specs);
        let mut attributes: Vec<wgpu::VertexAttribute> = Vec::new();
        let mut k: usize = 0;
        while k < attribute_specs.len()
            decreases attribute_specs.len() - k,
        {
            attributes.push(to_wgpu_attribute(&attribute_specs[k]));
            k = k + 1;
        }
        let primitive = scene_primitive_state();
        let depth = scene_depth_state(&crate::backend::depth_format());
        let multisample = scene_multisample_state();
        let target = scene_color_target(surface_format);
        create_render_pipeline(
            device,
            &layout,
            &module,
            &attributes,
            layout_spec.array_stride,
            "vertex_main",
            "fragment_main",
            &primitive,
            &depth,
            &multisample,
            &target,
        )
    }

    /// Records the scene's draw into an open render pass: bind the
    /// pipeline, the uniform group at slot 0, the vertex buffer at slot 0
    /// and the 32-bit index buffer, then one indexed draw covering all
    /// indices, one instance. Records commands only; no scene state
    /// changes.
    pub fn render(&self, pass: &mut wgpu::RenderPass<'static>) {
        pass_set_pipeline(pass, &self.pipeline);
        pass_set_bind_group(pass, 0, &self.uniform.bind_group);
        pass_set_vertex_buffer(pass, 0, &self.vertex_buffer);
        pass_set_index_buffer_u32(pass, &self.index_buffer);
        pass_draw_indexed(pass, self.index_count);
    }

    /// Advances the model rotation by the elapsed time and queues the given
    /// ready-built transform block into the uniform binding at offset 0.
    /// This is the only place per-frame scene state changes, and it touches
    /// nothing written once at creation: the geometry buffers, the pipeline
    /// and the uniform binding's handles stay as they are.
    pub fn update(&mut self, queue: &wgpu::Queue, delta_time_us: u64, block: &UniformBuffer)
        requires
            old(self).wf(),
            block.wf(),
            rotation_after(old(self).rotation_udeg as int, delta_time_us as int) <= u64::MAX,
        ensures
            final(self).wf(),
            final(self).rotation_udeg == rotation_after(old(self).rotation_udeg as int, delta_time_us as int),
            final(self).uniform.contents@ == block.data@,
            scene_statics_unchanged(*old(self), *final(self)),
    {
        self.rotation_udeg = rotation_step(self.rotation_udeg, delta_time_us);
        self.uniform.update_buffer(queue, 0, block);
        proof {
            crate::uniform::lemma_uniform_round_trip(old(self).uniform.contents@, block.data@);
        }
    }
}

} // verus!
