//! Trusted bindings to the graphics backend.
//!
//! Everything the library asks of `wgpu` and `egui-wgpu` goes through this
//! module: the type declarations that let backend handles sit in verified
//! structs, and one thin wrapper per backend call. A wrapper's body only
//! makes its call and converts arguments; its contract is what the rest of
//! the crate relies on.

use vstd::prelude::*;

verus! {

#[verifier::external_type_specification]
#[verifier::external_body]
pub struct ExDevice(wgpu::Device);

#[verifier::external_type_specification]
#[verifier::external_body]
pub struct ExQueue(wgpu::Queue);

#[verifier::external_type_specification]
#[verifier::external_body]
pub struct ExSurface<'a>(wgpu::Surface<'a>);

#[verifier::external_type_specification]
#[verifier::external_body]
pub struct ExTextureFormat(wgpu::TextureFormat);

#[verifier::external_type_specification]
#[verifier::external_body]
pub struct ExPresentMode(wgpu::PresentMode);

#[verifier::external_type_specification]
#[verifier::external_body]
pub struct ExCompositeAlphaMode(wgpu::CompositeAlphaMode);

#[verifier::external_type_specification]
#[verifier::external_body]
pub struct ExTexture(wgpu::Texture);

#[verifier::external_type_specification]
#[verifier::external_body]
pub struct ExTextureView(wgpu::TextureView);

#[verifier::external_type_specification]
#[verifier::external_body]
pub struct ExBuffer(wgpu::Buffer);

#[verifier::external_type_specification]
#[verifier::external_body]
pub struct ExBindGroup(wgpu::BindGroup);

#[verifier::external_type_specification]
#[verifier::external_body]
pub struct ExBindGroupLayout(wgpu::BindGroupLayout);

#[verifier::external_type_specification]
#[verifier::external_body]
pub struct ExPipelineLayout(wgpu::PipelineLayout);

#[verifier::external_type_specification]
#[verifier::external_body]
pub struct ExShaderModule(wgpu::ShaderModule);

#[verifier::external_type_specification]
#[verifier::external_body]
pub struct ExRenderPipeline(wgpu::RenderPipeline);

#[verifier::external_type_specification]
#[verifier::external_body]
pub struct ExCommandEncoder(wgpu::CommandEncoder);

#[verifier::external_type_specification]
#[verifier::external_body]
pub struct ExCommandBuffer(wgpu::CommandBuffer);

#[verifier::external_type_specification]
#[verifier::external_body]
pub struct ExRenderPass<'a>(wgpu::RenderPass<'a>);

#[verifier::external_type_specification]
#[verifier::external_body]
pub struct ExSurfaceTexture(wgpu::SurfaceTexture);

#[verifier::external_type_specification]
#[verifier::external_body]
pub struct ExVertexAttribute(wgpu::VertexAttribute);

#[verifier::external_type_specification]
#[verifier::external_body]
pub struct ExPrimitiveState(wgpu::PrimitiveState);

#[verifier::external_type_specification]
#[verifier::external_body]
pub struct ExDepthStencilState(wgpu::DepthStencilState);

#[verifier::external_type_specification]
#[verifier::external_body]
pub struct ExMultisampleState(wgpu::MultisampleState);

#[verifier::external_type_specification]
#[verifier::external_body]
pub struct ExColorTargetState(wgpu::ColorTargetState);

#[verifier::external_type_specification]
#[verifier::external_body]
pub struct ExRenderPassColorAttachment<'a>(wgpu::RenderPassColorAttachment<'a>);

#[verifier::external_type_specification]
#[verifier::external_body]
pub struct ExRenderPassDepthStencilAttachment<'a>(wgpu::RenderPassDepthStencilAttachment<'a>);

#[verifier::external_type_specification]
#[verifier::external_body]
pub struct ExEguiRenderer(egui_wgpu::Renderer);

#[verifier::external_type_specification]
#[verifier::external_body]
pub struct ExScreenDescriptor(egui_wgpu::ScreenDescriptor);

#[verifier::external_type_specification]
#[verifier::external_body]
pub struct ExImageDelta(egui::epaint::ImageDelta);

#[verifier::external_type_specification]
#[verifier::external_body]
pub struct ExClippedPrimitive(egui::epaint::ClippedPrimitive);

/// What a GPU buffer is for; decides the usage flags it is created with.
#[derive(Clone, Copy, PartialEq, Eq, Structural)]
pub enum BufferRole {
    /// Write-once vertex data.
    Vertex,
    /// Write-once index data.
    Index,
    /// A uniform block the CPU overwrites in place.
    Uniform,
}

/// A GUI-managed texture identifier, mirroring the two namespaces of
/// `egui`'s texture ids as plain integers.
#[derive(Clone, Copy, PartialEq, Eq, Structural, Debug)]
pub enum TexId {
    Managed(u64),
    User(u64),
}

/// Why the presentable frame texture could not be acquired, mirroring the
/// backend's surface error cases one for one.
#[derive(Clone, Copy, PartialEq, Eq, Structural, Debug)]
pub enum AcquireError {
    Timeout,
    Outdated,
    Lost,
    OutOfMemory,
    Other,
}

/// Relies on `wgpu::util::DeviceExt::create_buffer_init`: allocates a GPU
/// buffer of the contents' size, filled with the given bytes, with usage
/// flags for the given role (vertex data, index data, or a uniform block
/// that the CPU may overwrite).
#[verifier::external_body]
pub(crate) fn create_buffer_init(device: &wgpu::Device, contents: &Vec<u8>, role: BufferRole) -> wgpu::Buffer {
    let (label, usage) = match role {
        BufferRole::Vertex => ("Vertex Buffer", wgpu::BufferUsages::VERTEX),
        BufferRole::Index => ("index Buffer", wgpu::BufferUsages::INDEX),
        BufferRole::Uniform => ("Uniform Buffer", wgpu::BufferUsages::UNIFORM | wgpu::BufferUsages::COPY_DST),
    };
    wgpu::util::DeviceExt::create_buffer_init(device, &wgpu::util::BufferInitDescriptor {
        label: Some(label),
        contents: contents.as_slice(),
        usage,
    })
}

/// Relies on `wgpu::Device::create_bind_group_layout`: declares a single
/// uniform-buffer slot at the given binding index, visible to the vertex
/// stage only.
#[verifier::external_body]
pub(crate) fn create_uniform_bind_group_layout(device: &wgpu::Device, binding: u32) -> wgpu::BindGroupLayout {
    device.create_bind_group_layout(&wgpu::BindGroupLayoutDescriptor {
        entries: &[wgpu::BindGroupLayoutEntry {
            binding,
            visibility: wgpu::ShaderStages::VERTEX,
            ty: wgpu::BindingType::Buffer {
                ty: wgpu::BufferBindingType::Uniform,
                has_dynamic_offset: false,
                min_binding_size: None,
            },
            count: None,
        }],
        label: Some("uniform_bind_group_layout"),
    })
}

/// Relies on `wgpu::Device::create_bind_group`: realizes the given layout
/// against the whole of the given buffer at the given binding index.
#[verifier::external_body]
pub(crate) fn create_uniform_bind_group(
    device: &wgpu::Device,
    layout: &wgpu::BindGroupLayout,
    binding: u32,
    buffer: &wgpu::Buffer,
) -> wgpu::BindGroup {
    device.create_bind_group(&wgpu::BindGroupDescriptor {
        layout,
        entries: &[wgpu::BindGroupEntry {
            binding,
            resource: buffer.as_entire_binding(),
        }],
        label: Some("uniform_bind_group"),
    })
}

/// The fixed depth format shared by the depth buffer and the pipeline that
/// tests against it: 32-bit float single-channel depth.
#[verifier::external_body]
pub fn depth_format() -> wgpu::TextureFormat {
    wgpu::TextureFormat::Depth32Float
}

/// Relies on `wgpu::Device::create_shader_module`: compiles the given WGSL
/// source into a shader module.
#[verifier::external_body]
pub(crate) fn create_shader_module(device: &wgpu::Device, source: &str) -> wgpu::ShaderModule {
    device.create_shader_module(wgpu::ShaderModuleDescriptor {
        label: None,
        source: wgpu::ShaderSource::Wgsl(std::borrow::Cow::Borrowed(source)),
    })
}

/// Relies on `wgpu::Device::create_pipeline_layout`: a layout over exactly
/// the one given bind group layout, with no push constants.
#[verifier::external_body]
pub(crate) fn create_pipeline_layout(device: &wgpu::Device, bgl: &wgpu::BindGroupLayout) -> wgpu::PipelineLayout {
    device.create_pipeline_layout(&wgpu::PipelineLayoutDescriptor {
        label: None,
        bind_group_layouts: &[bgl],
        push_constant_ranges: &[],
    })
}

/// Converts one attribute of the vertex layout to the backend's form. Every
/// attribute of this layout is a four-component vector of 32-bit floats.
#[verifier::external_body]
pub(crate) fn to_wgpu_attribute(a: &crate::vertex::VertexAttributeSpec) -> wgpu::VertexAttribute {
    wgpu::VertexAttribute {
        format: wgpu::VertexFormat::Float32x4,
        offset: a.offset,
        shader_location: a.shader_location,
    }
}

/// The fixed-function primitive state of the scene pipeline: triangle-strip
/// topology with 32-bit strip indices, clockwise front faces, no culling,
/// filled polygons.
#[verifier::external_body]
pub(crate) fn scene_primitive_state() -> wgpu::PrimitiveState {
    wgpu::PrimitiveState {
        topology: wgpu::PrimitiveTopology::TriangleStrip,
        strip_index_format: Some(wgpu::IndexFormat::Uint32),
        front_face: wgpu::FrontFace::Cw,
        cull_mode: None,
        polygon_mode: wgpu::PolygonMode::Fill,
        conservative: false,
        unclipped_depth: false,
    }
}

/// The depth state of the scene pipeline: depth testing against the given
/// format, writing fragments that compare less than the stored depth, with
/// default stencil and bias.
#[verifier::external_body]
pub(crate) fn scene_depth_state(format: &wgpu::TextureFormat) -> wgpu::DepthStencilState {
    wgpu::DepthStencilState {
        format: *format,
        depth_write_enabled: true,
        depth_compare: wgpu::CompareFunction::Less,
        stencil: wgpu::StencilState::default(),
        bias: wgpu::DepthBiasState::default(),
    }
}

/// The multisample state of the scene pipeline: a single sample, all
/// samples active, no alpha-to-coverage.
#[verifier::external_body]
pub(crate) fn scene_multisample_state() -> wgpu::MultisampleState {
    wgpu::MultisampleState {
        count: 1,
        mask: !0,
        alpha_to_coverage_enabled: false,
    }
}

/// The single color target of the scene pipeline: the given surface format
/// with alpha blending, writing all channels.
#[verifier::external_body]
pub(crate) fn scene_color_target(format: &wgpu::TextureFormat) -> wgpu::ColorTargetState {
    wgpu::ColorTargetState {
        format: *format,
        blend: Some(wgpu::BlendState::ALPHA_BLENDING),
        write_mask: wgpu::ColorWrites::ALL,
    }
}

/// Relies on `wgpu::Device::create_render_pipeline`: builds the graphics
/// pipeline from the given layout, shader module and entry points, one
/// vertex buffer of the given stride and attributes stepping per vertex,
/// and the given primitive, depth, multisample and color-target state.
/// The backend's validation rejects a stride that is not a multiple of
/// four bytes and panics, so the stride is required aligned.
#[verifier::external_body]
pub(crate) fn create_render_pipeline(
    device: &wgpu::Device,
    layout: &wgpu::PipelineLayout,
    module: &wgpu::ShaderModule,
    attributes: &Vec<wgpu::VertexAttribute>,
    array_stride: u64,
    vs_entry: &str,
    fs_entry: &str,
    primitive: &wgpu::PrimitiveState,
    depth: &wgpu::DepthStencilState,
    multisample: &wgpu::MultisampleState,
    target: &wgpu::ColorTargetState,
) -> wgpu::RenderPipeline
    requires
        array_stride % 4 == 0,
{
    let buffers = [wgpu::VertexBufferLayout {
        array_stride, step_mode: wgpu::VertexStepMode::Vertex, attributes: attributes.as_slice(),
    }];
    let vertex = wgpu::VertexState {
        module, entry_point: Some(vs_entry), buffers: &buffers, compilation_options: Default::default(),
    };
    let targets = [Some(target.clone())];
    let fragment = Some(wgpu::FragmentState {
        module, entry_point: Some(fs_entry), targets: &targets, compilation_options: Default::default(),
    });
    device.create_render_pipeline(&wgpu::RenderPipelineDescriptor {
        label: None, layout: Some(layout), vertex, primitive: *primitive, depth_stencil: Some(depth.clone()),
        multisample: *multisample, fragment, multiview: None, cache: None,
    })
}

/// Relies on `wgpu::RenderPass::set_pipeline`: records a switch to the
/// given pipeline for subsequent draws in the pass.
#[verifier::external_body]
pub(crate) fn pass_set_pipeline(pass: &mut wgpu::RenderPass<'static>, pipeline: &wgpu::RenderPipeline) {
    pass.set_pipeline(pipeline);
}

/// Relies on `wgpu::RenderPass::set_bind_group`: binds the given group at
/// the given group index, with no dynamic offsets.
#[verifier::external_body]
pub(crate) fn pass_set_bind_group(pass: &mut wgpu::RenderPass<'static>, index: u32, group: &wgpu::BindGroup) {
    pass.set_bind_group(index, group, &[]);
}

/// Relies on `wgpu::RenderPass::set_vertex_buffer`: binds the whole of the
/// given buffer as the vertex buffer at the given slot.
#[verifier::external_body]
pub(crate) fn pass_set_vertex_buffer(pass: &mut wgpu::RenderPass<'static>, slot: u32, buffer: &wgpu::Buffer) {
    pass.set_vertex_buffer(slot, buffer.slice(..));
}

/// Relies on `wgpu::RenderPass::set_index_buffer`: binds the whole of the
/// given buffer as a 32-bit index buffer.
#[verifier::external_body]
pub(crate) fn pass_set_index_buffer_u32(pass: &mut wgpu::RenderPass<'static>, buffer: &wgpu::Buffer) {
    pass.set_index_buffer(buffer.slice(..), wgpu::IndexFormat::Uint32);
}

/// Relies on `wgpu::RenderPass::draw_indexed`: records one draw of the
/// first `index_count` indices, one instance, no base vertex.
#[verifier::external_body]
pub(crate) fn pass_draw_indexed(pass: &mut wgpu::RenderPass<'static>, index_count: u32) {
    pass.draw_indexed(0..index_count, 0, 0..1);
}

/// Relies on `wgpu::Queue::write_buffer`: queues an overwrite of the
/// buffer's bytes at the given byte offset with the given data. The write
/// happens on the device timeline before the next submitted command buffer
/// runs; the data must lie within the buffer's bounds. The backend's
/// validation rejects an offset or length that is not a multiple of four
/// bytes and panics, so both are required aligned.
#[verifier::external_body]
pub(crate) fn queue_write_buffer(queue: &wgpu::Queue, buffer: &wgpu::Buffer, offset: u64, data: &Vec<u8>)
    requires
        offset % 4 == 0,
        data@.len() % 4 == 0,
{
    queue.write_buffer(buffer, offset, data.as_slice());
}

/// Copies a texture format handle; relies on `wgpu::TextureFormat` being a
/// plain copyable enum.
#[verifier::external_body]
pub(crate) fn copy_format(f: &wgpu::TextureFormat) -> (r: wgpu::TextureFormat)
    ensures
        r == *f,
{
    *f
}

/// Copies a presentation mode handle; relies on `wgpu::PresentMode` being a
/// plain copyable enum.
#[verifier::external_body]
pub(crate) fn copy_present_mode(f: &wgpu::PresentMode) -> (r: wgpu::PresentMode)
    ensures
        r == *f,
{
    *f
}

/// Copies an alpha-compositing mode handle; relies on
/// `wgpu::CompositeAlphaMode` being a plain copyable enum.
#[verifier::external_body]
pub(crate) fn copy_alpha_mode(f: &wgpu::CompositeAlphaMode) -> (r: wgpu::CompositeAlphaMode)
    ensures
        r == *f,
{
    *f
}

/// Relies on `wgpu::Surface::configure`: builds the surface configuration —
/// render-attachment usage, the given format, dimensions, presentation and
/// alpha-compositing modes, no extra view formats, the given maximum number
/// of frames in flight — and configures the surface with it against the
/// device. Configuring with a zero width or height panics, so both are
/// required positive. Rendering after a window resize without
/// reconfiguring is a caller bug.
#[verifier::external_body]
pub(crate) fn configure_surface(
    surface: &wgpu::Surface<'static>,
    device: &wgpu::Device,
    format: &wgpu::TextureFormat,
    present_mode: &wgpu::PresentMode,
    alpha_mode: &wgpu::CompositeAlphaMode,
    width: u32,
    height: u32,
    max_frame_latency: u32,
)
    requires
        width >= 1,
        height >= 1,
{
    surface.configure(device, &wgpu::SurfaceConfiguration {
        usage: wgpu::TextureUsages::RENDER_ATTACHMENT,
        format: *format,
        width,
        height,
        present_mode: *present_mode,
        alpha_mode: *alpha_mode,
        view_formats: vec![],
        desired_maximum_frame_latency: max_frame_latency,
    });
}

/// Relies on `wgpu::Device::create_texture`: allocates a 2D single-layer,
/// single-sample, single-mip texture of the given size and format, usable
/// as a render attachment and as a sampled texture. A zero dimension is
/// rejected by the backend's validation and panics, so both are required
/// positive.
#[verifier::external_body]
pub(crate) fn create_texture_2d(device: &wgpu::Device, width: u32, height: u32, format: &wgpu::TextureFormat) -> wgpu::Texture
    requires
        width >= 1,
        height >= 1,
{
    device.create_texture(&wgpu::TextureDescriptor {
        label: Some("Depth Texture"),
        size: wgpu::Extent3d { width, height, depth_or_array_layers: 1 },
        mip_level_count: 1,
        sample_count: 1,
        dimension: wgpu::TextureDimension::D2,
        format: *format,
        usage: wgpu::TextureUsages::RENDER_ATTACHMENT | wgpu::TextureUsages::TEXTURE_BINDING,
        view_formats: &[],
    })
}

/// Relies on `wgpu::Texture::create_view`: a full-extent view of the
/// texture in the given format (all mips, all layers, default dimension).
#[verifier::external_body]
pub(crate) fn texture_view(texture: &wgpu::Texture, format: &wgpu::TextureFormat) -> wgpu::TextureView {
    texture.create_view(&wgpu::TextureViewDescriptor {
        label: None,
        format: Some(*format),
        dimension: None,
        aspect: wgpu::TextureAspect::All,
        base_mip_level: 0,
        mip_level_count: None,
        base_array_layer: 0,
        array_layer_count: None,
        usage: None,
    })
}

/// Relies on `wgpu::Surface::get_current_texture`: acquires the next
/// presentable frame texture, or reports why the surface has none to give,
/// mapping each backend error case to its counterpart one for one.
#[verifier::external_body]
pub(crate) fn surface_get_current_texture(surface: &wgpu::Surface<'static>) -> Result<wgpu::SurfaceTexture, AcquireError> {
    match surface.get_current_texture() {
        Ok(t) => Ok(t),
        Err(wgpu::SurfaceError::Timeout) => Err(AcquireError::Timeout),
        Err(wgpu::SurfaceError::Outdated) => Err(AcquireError::Outdated),
        Err(wgpu::SurfaceError::Lost) => Err(AcquireError::Lost),
        Err(wgpu::SurfaceError::OutOfMemory) => Err(AcquireError::OutOfMemory),
        Err(wgpu::SurfaceError::Other) => Err(AcquireError::Other),
    }
}

/// Picks the texture of an acquired frame; relies on the `texture` field of
/// `wgpu::SurfaceTexture`.
#[verifier::external_body]
pub(crate) fn surface_texture_texture(st: &wgpu::SurfaceTexture) -> &wgpu::Texture {
    &st.texture
}

/// Relies on `wgpu::Device::create_command_encoder`: opens one
/// command-recording session.
#[verifier::external_body]
pub(crate) fn create_command_encoder(device: &wgpu::Device) -> wgpu::CommandEncoder {
    device.create_command_encoder(&wgpu::CommandEncoderDescriptor {
        label: Some("Render Encoder"),
    })
}

/// Builds a color attachment over the given view: clear on load to the
/// color whose channels have the given IEEE-754 double bit patterns, store
/// on end, no multisample resolve. Relies on the attachment struct's
/// fields; `bytemuck::cast` only reinterprets each bit pattern.
#[verifier::external_body]
pub(crate) fn color_attachment<'a>(view: &'a wgpu::TextureView, r_bits: u64, g_bits: u64, b_bits: u64, a_bits: u64) -> wgpu::RenderPassColorAttachment<'a> {
    wgpu::RenderPassColorAttachment {
        view,
        resolve_target: None,
        ops: wgpu::Operations {
            load: wgpu::LoadOp::Clear(wgpu::Color {
                r: bytemuck::cast(r_bits),
                g: bytemuck::cast(g_bits),
                b: bytemuck::cast(b_bits),
                a: bytemuck::cast(a_bits),
            }),
            store: wgpu::StoreOp::Store,
        },
    }
}

/// Builds a depth attachment over the given view: clear on load to the
/// depth whose IEEE-754 single bit pattern is given, store on end, no
/// stencil. Relies on the attachment struct's fields; `bytemuck::cast` only
/// reinterprets the bit pattern.
#[verifier::external_body]
pub(crate) fn depth_attachment<'a>(view: &'a wgpu::TextureView, clear_bits: u32) -> wgpu::RenderPassDepthStencilAttachment<'a> {
    wgpu::RenderPassDepthStencilAttachment {
        view,
        depth_ops: Some(wgpu::Operations {
            load: wgpu::LoadOp::Clear(bytemuck::cast(clear_bits)),
            store: wgpu::StoreOp::Store,
        }),
        stencil_ops: None,
    }
}

/// Relies on `wgpu::CommandEncoder::begin_render_pass`: opens one render
/// pass into the encoder over the given color and depth attachments. The
/// returned pass has its borrow of the encoder erased
/// (`RenderPass::forget_lifetime`), so ending the pass before finishing the
/// encoder becomes an ordering contract the callers keep.
#[verifier::external_body]
pub(crate) fn begin_render_pass(
    encoder: &mut wgpu::CommandEncoder,
    color: wgpu::RenderPassColorAttachment<'_>,
    depth: wgpu::RenderPassDepthStencilAttachment<'_>,
) -> wgpu::RenderPass<'static> {
    encoder.begin_render_pass(&wgpu::RenderPassDescriptor {
        label: Some("Render Pass"),
        color_attachments: &[Some(color)],
        depth_stencil_attachment: Some(depth),
        timestamp_writes: None,
        occlusion_query_set: None,
    }).forget_lifetime()
}

/// Ends a render pass by dropping it; recording into the parent encoder is
/// allowed again afterwards.
#[verifier::external_body]
pub(crate) fn end_render_pass(pass: wgpu::RenderPass<'static>) {
    drop(pass);
}

/// Relies on `wgpu::CommandEncoder::finish`: closes the recording session
/// into a submittable command buffer. Every pass opened on the encoder must
/// have ended first.
#[verifier::external_body]
pub(crate) fn encoder_finish(encoder: wgpu::CommandEncoder) -> wgpu::CommandBuffer {
    encoder.finish()
}

/// Relies on `wgpu::Queue::submit`: submits the one command buffer for
/// execution; commands run on the device timeline in recorded order.
#[verifier::external_body]
pub(crate) fn queue_submit_one(queue: &wgpu::Queue, buffer: wgpu::CommandBuffer) {
    queue.submit(std::iter::once(buffer));
}

/// Relies on `wgpu::SurfaceTexture::present`: schedules the acquired frame
/// for display after all submitted work touching it completes.
#[verifier::external_body]
pub(crate) fn surface_texture_present(st: wgpu::SurfaceTexture) {
    st.present();
}

/// Relies on `egui_wgpu::Renderer::new`: a GUI render backend that draws
/// into targets of the given color format alongside a depth attachment of
/// the given format, with the given sample count and dithering choice.
/// The pipelines it creates inherit the sample count, and this pipeline
/// runs single-sampled everywhere (an invalid count would fail the
/// backend's validation and panic), so exactly one sample is required.
#[verifier::external_body]
pub(crate) fn egui_renderer_new(
    device: &wgpu::Device,
    color_format: &wgpu::TextureFormat,
    depth: &wgpu::TextureFormat,
    msaa_samples: u32,
    dithering: bool,
) -> egui_wgpu::Renderer
    requires
        msaa_samples == 1,
{
    egui_wgpu::Renderer::new(device, *color_format, Some(*depth), msaa_samples, dithering)
}

/// Relies on `egui_wgpu::Renderer::update_texture`: uploads one added or
/// changed GUI texture into the backend's texture store under the given id
/// (converted to the backend's id, variant for variant).
#[verifier::external_body]
pub(crate) fn egui_update_texture(
    r: &mut egui_wgpu::Renderer,
    device: &wgpu::Device,
    queue: &wgpu::Queue,
    id: &TexId,
    delta: &egui::epaint::ImageDelta,
) {
    let tex_id = match id {
        TexId::Managed(x) => egui::TextureId::Managed(*x),
        TexId::User(x) => egui::TextureId::User(*x),
    };
    r.update_texture(device, queue, tex_id, delta);
}

/// Relies on `egui_wgpu::Renderer::free_texture`: frees the GUI texture
/// with the given id (converted variant for variant) from the backend's
/// texture store.
#[verifier::external_body]
pub(crate) fn egui_free_texture(r: &mut egui_wgpu::Renderer, id: &TexId) {
    let tex_id = match id {
        TexId::Managed(x) => egui::TextureId::Managed(*x),
        TexId::User(x) => egui::TextureId::User(*x),
    };
    r.free_texture(&tex_id);
}

/// Relies on `egui_wgpu::Renderer::update_buffers`: writes the vertex and
/// index data of the given draw primitives into GPU buffers through the
/// given encoder; returns command buffers gathered from user paint
/// callbacks (none for plain widget painting).
#[verifier::external_body]
pub(crate) fn egui_update_buffers(
    r: &mut egui_wgpu::Renderer,
    device: &wgpu::Device,
    queue: &wgpu::Queue,
    encoder: &mut wgpu::CommandEncoder,
    paint_jobs: &Vec<egui::epaint::ClippedPrimitive>,
    screen: &egui_wgpu::ScreenDescriptor,
) -> Vec<wgpu::CommandBuffer> {
    r.update_buffers(device, queue, encoder, paint_jobs.as_slice(), screen)
}

/// Relies on `egui_wgpu::Renderer::render`: records the GUI draw commands
/// for the given primitives into the open pass; whatever the pass drew
/// before stays beneath the GUI.
#[verifier::external_body]
pub(crate) fn egui_render(
    r: &egui_wgpu::Renderer,
    pass: &mut wgpu::RenderPass<'static>,
    paint_jobs: &Vec<egui::epaint::ClippedPrimitive>,
    screen: &egui_wgpu::ScreenDescriptor,
) {
    r.render(pass, paint_jobs.as_slice(), screen);
}

} // verus!
