//! The renderer: owner of the GPU context, the depth buffer, the GUI
//! backend and the scene, and the single authority for composing one frame.
//!
//! A frame is a fixed sequence of operations — scene update, GUI texture
//! synchronization, GUI buffer upload, frame acquisition, one render pass
//! holding the scene draw and then the GUI draw, submission, presentation.
//! [`frame_plan`] states that sequence; `render_frame` records each
//! operation it performs and is proved to record exactly the plan, so the
//! load-bearing ordering — the GUI drawn after the scene, inside the same
//! pass, before submission and presentation — is a theorem, not a habit.

use vstd::prelude::*;

use crate::backend::{begin_render_pass, color_attachment, create_command_encoder,
    depth_attachment, depth_format, egui_free_texture, egui_render, egui_renderer_new,
    egui_update_buffers, egui_update_texture, encoder_finish, end_render_pass, queue_submit_one,
    surface_get_current_texture, surface_texture_present, surface_texture_texture, texture_view,
    AcquireError, TexId};
use crate::gpu::{gpu_resize_transition, Gpu};
use crate::scene::{rotation_after, scene_statics_unchanged, Scene};
use crate::uniform::UniformBuffer;

verus! {

/// IEEE-754 double bit pattern of the background red channel (nineteen
/// hundredths).
pub const CLEAR_R_BITS: u64 = 0x3FC8_51EB_851E_B852;

/// IEEE-754 double bit pattern of the background green channel
/// (twenty-four hundredths).
pub const CLEAR_G_BITS: u64 = 0x3FCE_B851_EB85_1EB8;

/// IEEE-754 double bit pattern of the background blue channel (forty-two
/// hundredths).
pub const CLEAR_B_BITS: u64 = 0x3FDA_E147_AE14_7AE1;

/// IEEE-754 double bit pattern of the background alpha channel (one).
pub const CLEAR_A_BITS: u64 = 0x3FF0_0000_0000_0000;

/// IEEE-754 single bit pattern of the depth-clear value (one, the farthest
/// depth).
pub const DEPTH_CLEAR_BITS: u32 = 0x3F80_0000;

/// One operation a frame records, in the order `render_frame` performs
/// them.
#[derive(Clone, Copy, PartialEq, Eq, Structural, Debug)]
pub enum FrameOp {
    /// The scene's per-frame state change and uniform upload.
    SceneUpdate,
    /// One added or changed GUI texture uploaded into the GUI backend.
    SetTexture(TexId),
    /// One GUI texture freed from the GUI backend.
    FreeTexture(TexId),
    /// The GUI backend's vertex and index upload for this frame's
    /// primitives.
    UpdateGuiBuffers,
    /// The presentable frame texture acquired from the surface.
    AcquireFrame,
    /// The render pass opened over the frame and the depth buffer.
    BeginPass,
    /// The scene's draw recorded into the pass.
    SceneDraw,
    /// The GUI overlay's draw recorded into the pass, over the scene.
    GuiDraw,
    /// The render pass ended.
    EndPass,
    /// The command buffer finished and submitted to the queue.
    Submit,
    /// The acquired frame presented.
    Present,
}

/// The ids of a texture-delta's additions, in order.
pub open spec fn ids_of(pairs: Seq<(TexId, egui::epaint::ImageDelta)>) -> Seq<TexId> {
    pairs.map_values(|p: (TexId, egui::epaint::ImageDelta)| p.0)
}

/// The operations of the frame's synchronization stage: the scene update,
/// one texture upload per added id in order, one free per freed id in
/// order, then the GUI buffer upload.
pub open spec fn sync_ops(set: Seq<TexId>, free: Seq<TexId>) -> Seq<FrameOp> {
    seq![FrameOp::SceneUpdate]
        + set.map_values(|t: TexId| FrameOp::SetTexture(t))
        + free.map_values(|t: TexId| FrameOp::FreeTexture(t))
        + seq![FrameOp::UpdateGuiBuffers]
}

/// The operations of the frame's pass stage, after a successful
/// acquisition.
pub open spec fn pass_ops() -> Seq<FrameOp> {
    seq![FrameOp::AcquireFrame, FrameOp::BeginPass, FrameOp::SceneDraw, FrameOp::GuiDraw,
        FrameOp::EndPass, FrameOp::Submit, FrameOp::Present]
}

/// Everything one frame records, in order.
pub open spec fn frame_plan(set: Seq<TexId>, free: Seq<TexId>) -> Seq<FrameOp> {
    sync_ops(set, free) + pass_ops()
}

/// The plan of a frame, as a value: what `render_frame` records when the
/// frame texture can be acquired.
pub fn plan_frame(set: &Vec<TexId>, free: &Vec<TexId>) -> (r: Vec<FrameOp>)
    ensures
        r@ == frame_plan(set@, free@),
{
    let mut r: Vec<FrameOp> = Vec::new();
    r.push(FrameOp::SceneUpdate);
    let mut k: usize = 0;
    while k < set.len()
        invariant
            k <= set@.len(),
            r@.len() == 1 + k,
            r@[0] == FrameOp::SceneUpdate,
            forall|i: int| 0 <= i < k ==> r@[1 + i] == FrameOp::SetTexture(set@[i]),
        decreases set@.len() - k,
    {
        r.push(FrameOp::SetTexture(set[k]));
        k = k + 1;
    }
    let n_set: usize = set.len();
    k = 0;
    while k < free.len()
        invariant
            k <= free@.len(),
            n_set == set@.len(),
            r@.len() == 1 + n_set + k,
            r@[0] == FrameOp::SceneUpdate,
            forall|i: int| 0 <= i < n_set ==> r@[1 + i] == FrameOp::SetTexture(set@[i]),
            forall|i: int| 0 <= i < k ==> r@[1 + n_set + i] == FrameOp::FreeTexture(free@[i]),
        decreases free@.len() - k,
    {
        r.push(FrameOp::FreeTexture(free[k]));
        k = k + 1;
    }
    r.push(FrameOp::UpdateGuiBuffers);
    r.push(FrameOp::AcquireFrame);
    r.push(FrameOp::BeginPass);
    r.push(FrameOp::SceneDraw);
    r.push(FrameOp::GuiDraw);
    r.push(FrameOp::EndPass);
    r.push(FrameOp::Submit);
    r.push(FrameOp::Present);
    proof {
        assert(r@ =~= frame_plan(set@, free@));
    }
    r
}

/// In every frame plan the scene draw is recorded exactly once, the GUI
/// draw exactly once, and the scene draw comes strictly first — the GUI
/// composites on top of the scene within the same pass.
pub proof fn lemma_scene_draw_before_gui_draw(set: Seq<TexId>, free: Seq<TexId>)
    ensures
        ({
            let plan = frame_plan(set, free);
            let s = (1 + set.len() + free.len() + 1 + 2) as int;
            &&& 0 <= s < s + 1 < plan.len()
            &&& plan[s] == FrameOp::SceneDraw
            &&& plan[s + 1] == FrameOp::GuiDraw
            &&& forall|i: int| 0 <= i < plan.len() && plan[i] == FrameOp::SceneDraw ==> i == s
            &&& forall|i: int| 0 <= i < plan.len() && plan[i] == FrameOp::GuiDraw ==> i == s + 1
        }),
{
    let plan = frame_plan(set, free);
    let s = (1 + set.len() + free.len() + 1 + 2) as int;
    assert(plan[s] == FrameOp::SceneDraw);
    assert(plan[s + 1] == FrameOp::GuiDraw);
    assert forall|i: int| 0 <= i < plan.len() && plan[i] == FrameOp::SceneDraw implies i == s by {
        if 1 <= i < 1 + set.len() {
            assert(plan[i] == FrameOp::SetTexture(set[i - 1]));
        } else if 1 + set.len() <= i < 1 + set.len() + free.len() {
            assert(plan[i] == FrameOp::FreeTexture(free[i - 1 - set.len()]));
        }
    }
    assert forall|i: int| 0 <= i < plan.len() && plan[i] == FrameOp::GuiDraw implies i == s + 1 by {
        if 1 <= i < 1 + set.len() {
            assert(plan[i] == FrameOp::SetTexture(set[i - 1]));
        } else if 1 + set.len() <= i < 1 + set.len() + free.len() {
            assert(plan[i] == FrameOp::FreeTexture(free[i - 1 - set.len()]));
        }
    }
}

/// In every frame plan each texture upload is recorded strictly before the
/// render pass opens: the GUI backend holds every added texture by the
/// time the pass that samples them is recorded.
pub proof fn lemma_texture_sync_before_pass(set: Seq<TexId>, free: Seq<TexId>)
    ensures
        ({
            let plan = frame_plan(set, free);
            let b = (1 + set.len() + free.len() + 1 + 1) as int;
            &&& 0 <= b < plan.len()
            &&& plan[b] == FrameOp::BeginPass
            &&& forall|i: int| (0 <= i < plan.len() && ((#[trigger] plan[i]) matches FrameOp::SetTexture(t))) ==> i < b
            &&& forall|i: int| (0 <= i < plan.len() && ((#[trigger] plan[i]) matches FrameOp::FreeTexture(t))) ==> i < b
        }),
{
    let plan = frame_plan(set, free);
    let b = (1 + set.len() + free.len() + 1 + 1) as int;
    assert(plan[b] == FrameOp::BeginPass);
    assert forall|i: int| (0 <= i < plan.len() && ((#[trigger] plan[i]) matches FrameOp::SetTexture(t))) implies i < b by {
        if i >= b {
            assert(plan[i] == pass_ops()[i - (b - 1)]);
        }
    }
    assert forall|i: int| (0 <= i < plan.len() && ((#[trigger] plan[i]) matches FrameOp::FreeTexture(t))) implies i < b by {
        if i >= b {
            assert(plan[i] == pass_ops()[i - (b - 1)]);
        }
    }
}

/// What a renderer resize does: the context resizes and the depth buffer is
/// recreated at the same new size, while the scene is untouched.
pub open spec fn renderer_resize_transition(pre: FrameRenderer, post: FrameRenderer, width: u32, height: u32) -> bool {
    &&& gpu_resize_transition(pre.gpu, post.gpu, width, height)
    &&& post.depth_width == width
    &&& post.depth_height == height
    &&& post.scene == pre.scene
}

/// Resizing twice in a row with the same dimensions leaves the surface
/// configuration and the depth-texture dimensions exactly where the first
/// resize put them.
pub proof fn lemma_resize_idempotent(r0: FrameRenderer, r1: FrameRenderer, r2: FrameRenderer, width: u32, height: u32)
    requires
        renderer_resize_transition(r0, r1, width, height),
        renderer_resize_transition(r1, r2, width, height),
    ensures
        r2.gpu.width == r1.gpu.width,
        r2.gpu.height == r1.gpu.height,
        r2.gpu.surface_format == r1.gpu.surface_format,
        r2.gpu.present_mode == r1.gpu.present_mode,
        r2.gpu.alpha_mode == r1.gpu.alpha_mode,
        r2.depth_width == r1.depth_width,
        r2.depth_height == r1.depth_height,
        r2.scene == r1.scene,
{
}

/// The renderer: the GPU context, the current depth buffer view with its
/// tracked dimensions, the GUI backend, the scene, and the record of the
/// operations of the last frame.
pub struct FrameRenderer {
    pub gpu: Gpu,
    pub depth_texture_view: wgpu::TextureView,
    /// Width the depth texture was created at.
    pub depth_width: u32,
    /// Height the depth texture was created at.
    pub depth_height: u32,
    pub egui_renderer: egui_wgpu::Renderer,
    pub scene: Scene,
    /// The operations recorded by the most recent `render_frame` call, in
    /// order.
    pub frame_ops: Vec<FrameOp>,
}

impl FrameRenderer {
    /// The depth buffer always matches the surface dimensions, and the
    /// scene is well formed.
    pub open spec fn wf(self) -> bool {
        &&& self.scene.wf()
        &&& self.depth_width == self.gpu.width
        &&& self.depth_height == self.gpu.height
    }

    /// Builds the renderer over an assembled GPU context: a depth buffer at
    /// the context's current size, the GUI backend against the surface
    /// format and the shared depth format (one sample, no dithering), and
    /// the scene. The context must hold a real (positive) size, as the
    /// depth texture is created at it.
    pub fn new(gpu: Gpu) -> (r: FrameRenderer)
        requires
            gpu.width >= 1,
            gpu.height >= 1,
        ensures
            r.wf(),
            r.gpu == gpu,
            r.scene.rotation_udeg == 0,
            r.scene.uniform.contents@ == crate::uniform::zero_block(),
            r.frame_ops@ == Seq::<FrameOp>::empty(),
    {
        let depth_texture_view = gpu.create_depth_texture(gpu.width, gpu.height);
        let egui_renderer = egui_renderer_new(&gpu.device, &gpu.surface_format, &depth_format(), 1, false);
        let scene = Scene::new(&gpu.device, &gpu.surface_format);
        let depth_width = gpu.width;
        let depth_height = gpu.height;
        FrameRenderer {
            gpu,
            depth_texture_view,
            depth_width,
            depth_height,
            egui_renderer,
            scene,
            frame_ops: Vec::new(),
        }
    }

    /// Applies a window resize: reconfigures the surface at the new size
    /// and recreates the depth texture view to match. Must run before the
    /// next frame is rendered. A degenerate (zero) size can be neither
    /// configured nor given a depth texture; the caller keeps such sizes
    /// away (a minimized window renders nothing).
    pub fn resize(&mut self, width: u32, height: u32)
        requires
            old(self).wf(),
            width >= 1,
            height >= 1,
        ensures
            final(self).wf(),
            renderer_resize_transition(*old(self), *final(self), width, height),
    {
        self.gpu.resize(width, height);
        self.depth_texture_view = self.gpu.create_depth_texture(width, height);
        self.depth_width = width;
        self.depth_height = height;
    }

    /// Composes and presents one frame.
    ///
    /// The scene state advances by `delta_time_us` and the given ready
    /// transform block is queued into the uniform binding; every added GUI
    /// texture is uploaded and every freed one released; the GUI buffers
    /// are written through a fresh encoder; then the frame texture is
    /// acquired and one render pass clears to the background color and
    /// depth, draws the scene, draws the GUI over it, and the commands are
    /// submitted and the frame presented.
    ///
    /// Exactly the operations of [`frame_plan`] are recorded, in its order.
    /// When the surface has no frame to give, the error says why and the
    /// record stops after the synchronization stage: nothing was drawn,
    /// submitted or presented, but the scene state has still advanced.
    pub fn render_frame(
        &mut self,
        delta_time_us: u64,
        block: &UniformBuffer,
        screen: &egui_wgpu::ScreenDescriptor,
        paint_jobs: &Vec<egui::epaint::ClippedPrimitive>,
        textures_set: &Vec<(TexId, egui::epaint::ImageDelta)>,
        textures_free: &Vec<TexId>,
    ) -> (result: Result<(), AcquireError>)
        requires
            old(self).wf(),
            block.wf(),
            rotation_after(old(self).scene.rotation_udeg as int, delta_time_us as int) <= u64::MAX,
        ensures
            final(self).wf(),
            final(self).scene.rotation_udeg == rotation_after(old(self).scene.rotation_udeg as int, delta_time_us as int),
            final(self).scene.uniform.contents@ == block.data@,
            final(self).gpu == old(self).gpu,
            final(self).depth_width == old(self).depth_width,
            final(self).depth_height == old(self).depth_height,
            final(self).depth_texture_view == old(self).depth_texture_view,
            scene_statics_unchanged(old(self).scene, final(self).scene),
            result matches Ok(_) ==> final(self).frame_ops@ == frame_plan(ids_of(textures_set@), textures_free@),
            result matches Err(_) ==> final(self).frame_ops@ == sync_ops(ids_of(textures_set@), textures_free@),
    {
        self.frame_ops = Vec::new();
        self.scene.update(&self.gpu.queue, delta_time_us, block);
        self.frame_ops.push(FrameOp::SceneUpdate);
        let mut k: usize = 0;
        while k < textures_set.len()
            invariant
                k <= textures_set@.len(),
                self.frame_ops@.len() == 1 + k,
                self.frame_ops@[0] == FrameOp::SceneUpdate,
                forall|i: int| 0 <= i < k ==> self.frame_ops@[1 + i] == FrameOp::SetTexture(textures_set@[i].0),
                self.wf(),
                self.scene.rotation_udeg == rotation_after(old(self).scene.rotation_udeg as int, delta_time_us as int),
                self.scene.uniform.contents@ == block.data@,
                scene_statics_unchanged(old(self).scene, self.scene),
                self.gpu == old(self).gpu,
                self.depth_width == old(self).depth_width,
                self.depth_height == old(self).depth_height,
                self.depth_texture_view == old(self).depth_texture_view,
            decreases textures_set@.len() - k,
        {
            let pair = &textures_set[k];
            egui_update_texture(&mut self.egui_renderer, &self.gpu.device, &self.gpu.queue, &pair.0, &pair.1);
            self.frame_ops.push(FrameOp::SetTexture(pair.0));
            k = k + 1;
        }
        let n_set: usize = textures_set.len();
        k = 0;
        while k < textures_free.len()
            invariant
                k <= textures_free@.len(),
                n_set == textures_set@.len(),
                self.frame_ops@.len() == 1 + n_set + k,
                self.frame_ops@[0] == FrameOp::SceneUpdate,
                forall|i: int| 0 <= i < n_set ==> self.frame_ops@[1 + i] == FrameOp::SetTexture(textures_set@[i].0),
                forall|i: int| 0 <= i < k ==> self.frame_ops@[1 + n_set + i] == FrameOp::FreeTexture(textures_free@[i]),
                self.wf(),
                self.scene.rotation_udeg == rotation_after(old(self).scene.rotation_udeg as int, delta_time_us as int),
                self.scene.uniform.contents@ == block.data@,
                scene_statics_unchanged(old(self).scene, self.scene),
                self.gpu == old(self).gpu,
                self.depth_width == old(self).depth_width,
                self.depth_height == old(self).depth_height,
                self.depth_texture_view == old(self).depth_texture_view,
            decreases textures_free@.len() - k,
        {
            egui_free_texture(&mut self.egui_renderer, &textures_free[k]);
            self.frame_ops.push(FrameOp::FreeTexture(textures_free[k]));
            k = k + 1;
        }
        let mut encoder = create_command_encoder(&self.gpu.device);
        let _callback_buffers = egui_update_buffers(&mut self.egui_renderer, &self.gpu.device,
            &self.gpu.queue, &mut encoder, paint_jobs, screen);
        self.frame_ops.push(FrameOp::UpdateGuiBuffers);
        proof {
            assert(self.frame_ops@ =~= sync_ops(ids_of(textures_set@), textures_free@));
        }
        let surface_texture = match surface_get_current_texture(&self.gpu.surface) {
            Ok(t) => t,
            Err(e) => {
                return Err(e);
            },
        };
        self.frame_ops.push(FrameOp::AcquireFrame);
        let frame_view = texture_view(surface_texture_texture(&surface_texture), &self.gpu.surface_format);
        let color = color_attachment(&frame_view, CLEAR_R_BITS, CLEAR_G_BITS, CLEAR_B_BITS, CLEAR_A_BITS);
        let depth = depth_attachment(&self.depth_texture_view, DEPTH_CLEAR_BITS);
        let mut pass = begin_render_pass(&mut encoder, color, depth);
        self.frame_ops.push(FrameOp::BeginPass);
        self.scene.render(&mut pass);
        self.frame_ops.push(FrameOp::SceneDraw);
        egui_render(&self.egui_renderer, &mut pass, paint_jobs, screen);
        self.frame_ops.push(FrameOp::GuiDraw);
        end_render_pass(pass);
        self.frame_ops.push(FrameOp::EndPass);
        let command_buffer = encoder_finish(encoder);
        queue_submit_one(&self.gpu.queue, command_buffer);
        self.frame_ops.push(FrameOp::Submit);
        surface_texture_present(surface_texture);
        self.frame_ops.push(FrameOp::Present);
        proof {
            assert(self.frame_ops@ =~= frame_plan(ids_of(textures_set@), textures_free@));
        }
        Ok(())
    }
}

} // verus!
