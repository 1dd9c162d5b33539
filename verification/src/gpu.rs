//! The GPU context: device, queue, presentable surface, and the surface
//! configuration the library is the source of truth for.
//!
//! The negotiation that produces the handles — instance, surface, adapter,
//! device — is asynchronous, platform-bound work that happens outside the
//! library; the context is assembled here from its results. The verified
//! state is the configured surface size and the chosen format, presentation
//! and alpha modes; every reconfiguration goes through [`Gpu::resize`].

use vstd::prelude::*;

use crate::backend::{configure_surface, copy_alpha_mode, copy_format, copy_present_mode,
    create_texture_2d, depth_format, texture_view};

verus! {

/// How many frames the device may run ahead of presentation.
pub const DESIRED_MAX_FRAME_LATENCY: u32 = 2;

/// What makes `i` the index of the format to adopt: the first non-sRGB
/// format, or the first format of all when every one is sRGB.
pub open spec fn is_format_choice(srgb: Seq<bool>, i: int) -> bool {
    &&& 0 <= i < srgb.len()
    &&& (srgb[i] == false ==> forall|j: int| 0 <= j < i ==> srgb[j] == true)
    &&& (srgb[i] == true ==> i == 0 && forall|j: int| 0 <= j < srgb.len() ==> srgb[j] == true)
}

/// Index of the surface format to adopt, given, for each supported format,
/// whether it is an sRGB (color-managed) format.
///
/// The GUI overlay composites correctly only against a linear surface, so
/// the first non-sRGB format is preferred; if every format is sRGB, the
/// first reported format is used.
pub fn choose_format_index(srgb: &Vec<bool>) -> (i: usize)
    requires
        srgb.len() > 0,
    ensures
        is_format_choice(srgb@, i as int),
{
    let mut k: usize = 0;
    while k < srgb.len()
        invariant
            k <= srgb.len(),
            forall|j: int| 0 <= j < k ==> srgb@[j] == true,
        decreases srgb.len() - k,
    {
        if !srgb[k] {
            return k;
        }
        k = k + 1;
    }
    0
}

/// The aspect ratio of a surface of the given size, as an exact fraction:
/// the width over the height, with a denominator of one for a zero height
/// so the ratio is always defined.
pub fn aspect_ratio_parts(width: u32, height: u32) -> (r: (u32, u32))
    ensures
        r.0 == width,
        r.1 == (if height == 0 { 1u32 } else { height }),
        r.1 >= 1,
{
    let den = if height == 0 { 1 } else { height };
    (width, den)
}

/// The GPU context: the presentable surface bound to the window, the
/// logical device, the command queue, and the configuration the surface
/// was last given. `width` and `height` always equal the last-seen window
/// size; the surface is reconfigured before they change observably.
pub struct Gpu {
    pub surface: wgpu::Surface<'static>,
    pub device: wgpu::Device,
    pub queue: wgpu::Queue,
    pub surface_format: wgpu::TextureFormat,
    pub present_mode: wgpu::PresentMode,
    pub alpha_mode: wgpu::CompositeAlphaMode,
    pub width: u32,
    pub height: u32,
}

/// What a resize does to the context: the stored dimensions become the new
/// ones and everything chosen at creation stays as it was.
pub open spec fn gpu_resize_transition(pre: Gpu, post: Gpu, width: u32, height: u32) -> bool {
    &&& post.width == width
    &&& post.height == height
    &&& post.surface_format == pre.surface_format
    &&& post.present_mode == pre.present_mode
    &&& post.alpha_mode == pre.alpha_mode
}

impl Gpu {
    /// Assembles the context from the negotiated handles and the surface's
    /// reported capabilities: adopts the first non-sRGB format (else the
    /// first format), the first presentation mode and the first
    /// alpha-compositing mode, and configures the surface immediately at
    /// the given size.
    ///
    /// `srgb` gives, for each entry of `formats`, whether that format is
    /// sRGB, as the backend reports it.
    pub fn new(
        surface: wgpu::Surface<'static>,
        device: wgpu::Device,
        queue: wgpu::Queue,
        formats: Vec<wgpu::TextureFormat>,
        srgb: Vec<bool>,
        present_modes: Vec<wgpu::PresentMode>,
        alpha_modes: Vec<wgpu::CompositeAlphaMode>,
        width: u32,
        height: u32,
    ) -> (g: Gpu)
        requires
            formats@.len() > 0,
            srgb@.len() == formats@.len(),
            present_modes@.len() > 0,
            alpha_modes@.len() > 0,
            width >= 1,
            height >= 1,
        ensures
            g.width == width,
            g.height == height,
            exists|i: int| is_format_choice(srgb@, i) && g.surface_format == formats@[i],
            g.present_mode == present_modes@[0],
            g.alpha_mode == alpha_modes@[0],
    {
        let idx = choose_format_index(&srgb);
        let surface_format = copy_format(&formats[idx]);
        let present_mode = copy_present_mode(&present_modes[0]);
        let alpha_mode = copy_alpha_mode(&alpha_modes[0]);
        configure_surface(&surface, &device, &surface_format, &present_mode, &alpha_mode,
            width, height, DESIRED_MAX_FRAME_LATENCY);
        proof {
            assert(is_format_choice(srgb@, idx as int) && surface_format == formats@[idx as int]);
        }
        Gpu { surface, device, queue, surface_format, present_mode, alpha_mode, width, height }
    }

    /// The aspect ratio of the surface as an exact fraction: the width over
    /// the height, with a denominator of one for a degenerate (zero-height,
    /// minimized) surface so the ratio is always defined.
    pub fn aspect_ratio(&self) -> (r: (u32, u32))
        ensures
            r.0 == self.width,
            r.1 == (if self.height == 0 { 1u32 } else { self.height }),
            r.1 >= 1,
    {
        aspect_ratio_parts(self.width, self.height)
    }

    /// Adopts the new dimensions and reconfigures the surface with them at
    /// once, so the next acquired frame texture has the new size. A
    /// degenerate (zero) size cannot be configured; the caller keeps such
    /// sizes away (a minimized window renders nothing).
    pub fn resize(&mut self, width: u32, height: u32)
        requires
            width >= 1,
            height >= 1,
        ensures
            gpu_resize_transition(*old(self), *final(self), width, height),
    {
        self.width = width;
        self.height = height;
        configure_surface(&self.surface, &self.device, &self.surface_format, &self.present_mode,
            &self.alpha_mode, width, height, DESIRED_MAX_FRAME_LATENCY);
    }

    /// Allocates a fresh depth texture at the given size in the fixed
    /// 32-bit float depth format and returns its full-extent view. No
    /// caching: after every resize the caller asks again. A texture needs
    /// positive dimensions.
    pub fn create_depth_texture(&self, width: u32, height: u32) -> (v: wgpu::TextureView)
        requires
            width >= 1,
            height >= 1,
    {
        let texture = create_texture_2d(&self.device, width, height, &depth_format());
        texture_view(&texture, &depth_format())
    }
}

} // verus!
