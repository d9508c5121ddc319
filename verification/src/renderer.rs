//! The renderer: owns the presentation surface, the fixed full-screen-quad
//! pipeline, the per-frame texture cache and the shared dimensions uniform,
//! and issues at most one draw per render.
//!
//! The unverified shell constructs the device, surface, pipeline and
//! uniform buffer (a one-time blocking setup) and hands them in; from then
//! on every decision the renderer takes is verified here, and every device
//! call goes through the trusted wrappers of the gpu module.

use vstd::prelude::*;

use crate::dimensions::{apply_resize, DimensionsUniform, SurfaceExtent};
use crate::gpu::{
    acquire_frame,
    begin_clear_pass,
    configure_surface,
    create_encoder,
    create_frame_bind_group,
    create_frame_texture,
    create_shared_sampler,
    create_texture_view,
    finish_encoder,
    image_height,
    image_width,
    pass_draw_quad,
    pass_set_bind_group,
    pass_set_pipeline,
    present_frame,
    submit_commands,
    surface_texture_view,
    upload_frame_texture,
    FrameImage,
    SurfaceAcquireError,
};
use crate::selector::FrameSelector;

verus! {

/// Largest texture dimension the renderer will ask the device for: the
/// baseline limit every adapter supports.
pub const MAX_TEXTURE_DIMENSION: u32 = 8192;

/// Which drawable resource a render binds: none when the cache is empty,
/// else exactly the cached resource at the current index.
pub open spec fn spec_render_binding(cache_len: nat, current: usize) -> Option<usize> {
    if cache_len == 0 {
        None
    } else {
        Some(current)
    }
}

/// The whole draw decision of a render; the device work around it only
/// carries it out.
pub fn render_binding(cache_len: usize, current: usize) -> (r: Option<usize>)
    requires
        cache_len == 0 ==> current == 0,
        cache_len > 0 ==> current < cache_len,
    ensures
        r == spec_render_binding(cache_len as nat, current),
{
    if cache_len == 0 {
        None
    } else {
        Some(current)
    }
}

/// Law: with a nonempty cache the binding decision picks exactly the
/// current position, so renders at distinct in-range indices bind distinct
/// drawable resources.
pub proof fn lemma_render_binding_distinct(cache_len: nat, i: usize, j: usize)
    requires
        i < cache_len,
        j < cache_len,
        i != j,
    ensures
        spec_render_binding(cache_len, i) == Some(i),
        spec_render_binding(cache_len, j) == Some(j),
        spec_render_binding(cache_len, i) != spec_render_binding(cache_len, j),
{
}

/// The surface format choice: given, for each supported format in the
/// adapter's preference order, whether it is sRGB-capable, pick the first
/// sRGB-capable one, or fall back to the first format supported at all.
pub fn choose_format_index(srgb_capable: &Vec<bool>) -> (r: usize)
    requires
        srgb_capable.len() > 0,
    ensures
        r < srgb_capable.len(),
        (exists|i: int| 0 <= i < srgb_capable.len() && srgb_capable[i]) ==> srgb_capable[r as int]
            && (forall|j: int| 0 <= j < r ==> !srgb_capable[j]),
        !(exists|i: int| 0 <= i < srgb_capable.len() && srgb_capable[i]) ==> r == 0,
{
    let n = srgb_capable.len();
    let mut i: usize = 0;
    while i < n
        invariant
            n == srgb_capable.len(),
            i <= n,
            forall|j: int| 0 <= j < i ==> !srgb_capable[j],
        decreases n - i,
    {
        if srgb_capable[i] {
            return i;
        }
        i += 1;
    }
    0
}

/// The renderer. The cache holds one drawable resource per frame of the
/// loaded sequence, in order; the selector's count always matches the
/// cache; the configured surface extent is never degenerate.
pub struct Renderer {
    device: wgpu::Device,
    queue: wgpu::Queue,
    surface: wgpu::Surface<'static>,
    pipeline: wgpu::RenderPipeline,
    bind_group_layout: wgpu::BindGroupLayout,
    texture_bind_groups: Vec<wgpu::BindGroup>,
    selector: FrameSelector,
    extent: SurfaceExtent,
    format: wgpu::TextureFormat,
    dimensions_buffer: wgpu::Buffer,
    current_dimensions: DimensionsUniform,
}

impl Renderer {
    /// Number of drawable resources in the cache: one per loaded frame.
    pub closed spec fn spec_frame_count(self) -> nat {
        self.texture_bind_groups@.len()
    }

    /// Index of the frame the next render will bind.
    pub closed spec fn spec_current_index(self) -> usize {
        self.selector.spec_current()
    }

    /// The shared dimensions uniform, as the renderer last set it.
    pub closed spec fn spec_dimensions(self) -> DimensionsUniform {
        self.current_dimensions
    }

    /// The configured surface size.
    pub closed spec fn spec_extent(self) -> SurfaceExtent {
        self.extent
    }

    pub open spec fn wf(self) -> bool {
        &&& self.spec_current_index() < self.spec_frame_count() || (self.spec_frame_count() == 0
            && self.spec_current_index() == 0)
        &&& self.spec_selector_count() == self.spec_frame_count()
        &&& self.spec_extent().width > 0
        &&& self.spec_extent().height > 0
    }

    /// The frame count the selector was last rebuilt with; kept equal to
    /// the cache's length by every method.
    pub closed spec fn spec_selector_count(self) -> nat {
        self.selector.spec_count() as nat
    }

    /// Wraps the handed-in device objects into a renderer with an empty
    /// cache, configures the surface for the initial window size, and
    /// starts the uniform as that size for both pairs, before any sequence
    /// is loaded.
    pub fn new(
        device: wgpu::Device,
        queue: wgpu::Queue,
        surface: wgpu::Surface<'static>,
        pipeline: wgpu::RenderPipeline,
        bind_group_layout: wgpu::BindGroupLayout,
        dimensions_buffer: wgpu::Buffer,
        format: wgpu::TextureFormat,
        width: u32,
        height: u32,
    ) -> (r: Renderer)
        requires
            width > 0,
            height > 0,
        ensures
            r.wf(),
            r.spec_frame_count() == 0,
            r.spec_current_index() == 0,
            r.spec_extent() == (SurfaceExtent { width, height }),
            r.spec_dimensions() == (DimensionsUniform {
                surface_width: width,
                surface_height: height,
                frame_width: width,
                frame_height: height,
            }),
    {
        configure_surface(&surface, &device, &format, width, height);
        Renderer {
            device,
            queue,
            surface,
            pipeline,
            bind_group_layout,
            texture_bind_groups: Vec::new(),
            selector: FrameSelector::new(0),
            extent: SurfaceExtent { width, height },
            format,
            dimensions_buffer,
            current_dimensions: DimensionsUniform::initial(width, height),
        }
    }

    /// Reconfigure the surface for a new size. A request with either
    /// dimension zero is a no-op: the prior surface configuration and
    /// uniform values stay as they were. Otherwise the surface is
    /// reconfigured and the uniform's surface pair follows, its frame pair
    /// untouched. Returns whether anything changed, so the caller knows to
    /// push the uniform to the device.
    pub fn resize(&mut self, width: u32, height: u32) -> (changed: bool)
        requires
            old(self).wf(),
        ensures
            final(self).wf(),
            changed == (width > 0 && height > 0),
            final(self).spec_frame_count() == old(self).spec_frame_count(),
            final(self).spec_current_index() == old(self).spec_current_index(),
            changed ==> final(self).spec_extent() == (SurfaceExtent { width, height }),
            changed ==> final(self).spec_dimensions() == (DimensionsUniform {
                surface_width: width,
                surface_height: height,
                ..old(self).spec_dimensions()
            }),
            !changed ==> final(self).spec_extent() == old(self).spec_extent(),
            !changed ==> final(self).spec_dimensions() == old(self).spec_dimensions(),
    {
        let changed = apply_resize(&mut self.extent, &mut self.current_dimensions, width, height);
        if changed {
            configure_surface(
                &self.surface,
                &self.device,
                &self.format,
                self.extent.width,
                self.extent.height,
            );
        }
        changed
    }

    /// Upload every image of the sequence to device memory, one drawable
    /// resource per image, in order, replacing whatever was cached before,
    /// and reset the current index to the first frame. The uniform's frame
    /// pair takes the first image's size (all frames are assumed
    /// same-sized); its surface pair is untouched. An empty list changes
    /// nothing. Returns whether a sequence was loaded, so the caller knows
    /// to push the uniform to the device.
    pub fn preload_images(&mut self, images: &Vec<FrameImage>) -> (loaded: bool)
        requires
            old(self).wf(),
            forall|k: int|
                0 <= k < images@.len() ==> 0 < image_width(#[trigger] images@[k])
                    <= MAX_TEXTURE_DIMENSION && 0 < image_height(images@[k])
                    <= MAX_TEXTURE_DIMENSION,
        ensures
            final(self).wf(),
            loaded == (images@.len() > 0),
            !loaded ==> *final(self) == *old(self),
            loaded ==> final(self).spec_frame_count() == images@.len(),
            loaded ==> final(self).spec_current_index() == 0,
            loaded ==> final(self).spec_dimensions() == (DimensionsUniform {
                frame_width: image_width(images@[0]),
                frame_height: image_height(images@[0]),
                ..old(self).spec_dimensions()
            }),
            final(self).spec_extent() == old(self).spec_extent(),
    {
        if images.len() == 0 {
            return false;
        }
        self.texture_bind_groups = Vec::new();
        let first = images[0].dimensions();
        self.current_dimensions.set_frame_size(first.0, first.1);
        let sampler = create_shared_sampler(&self.device);
        let n = images.len();
        let mut i: usize = 0;
        while i < n
            invariant
                n == images@.len(),
                i <= n,
                forall|k: int|
                    0 <= k < images@.len() ==> 0 < image_width(#[trigger] images@[k])
                        <= MAX_TEXTURE_DIMENSION && 0 < image_height(images@[k])
                        <= MAX_TEXTURE_DIMENSION,
                self.texture_bind_groups@.len() == i,
                self.extent == old(self).extent,
                self.selector == old(self).selector,
                self.current_dimensions == (DimensionsUniform {
                    frame_width: image_width(images@[0]),
                    frame_height: image_height(images@[0]),
                    ..old(self).current_dimensions
                }),
            decreases n - i,
        {
            let dims = images[i].dimensions();
            let texture = create_frame_texture(&self.device, dims.0, dims.1);
            upload_frame_texture(
                &self.queue,
                &texture,
                &images[i],
                dims.0,
                dims.1,
                4 * dims.0,
            );
            let view = create_texture_view(&texture);
            let group = create_frame_bind_group(
                &self.device,
                &self.bind_group_layout,
                &view,
                &sampler,
                &self.dimensions_buffer,
            );
            self.texture_bind_groups.push(group);
            i += 1;
        }
        self.selector = FrameSelector::new(self.texture_bind_groups.len());
        true
    }

    /// Bind an arbitrary frame index for the next render, wrapped into
    /// range by modulo; a no-op while no sequence is loaded.
    pub fn set_current_texture_index(&mut self, index: usize)
        requires
            old(self).wf(),
        ensures
            final(self).wf(),
            final(self).spec_frame_count() == old(self).spec_frame_count(),
            final(self).spec_dimensions() == old(self).spec_dimensions(),
            final(self).spec_extent() == old(self).spec_extent(),
            old(self).spec_frame_count() > 0 ==> final(self).spec_current_index() == (index as int) % (old(self).spec_frame_count() as int),
            old(self).spec_frame_count() == 0 ==> *final(self) == *old(self),
    {
        self.selector.select(index);
    }

    /// Draw one frame: acquire the next presentable surface texture (a
    /// recoverable failure is returned for the caller to log and skip the
    /// frame), clear it to fully transparent, and — exactly when the cache
    /// is nonempty — bind the current frame's drawable resource and issue
    /// the single four-vertex quad draw; then submit and present. The
    /// renderer's state is untouched either way.
    pub fn render(&mut self) -> (r: Result<(), SurfaceAcquireError>)
        requires
            old(self).wf(),
        ensures
            *final(self) == *old(self),
            final(self).wf(),
    {
        let frame = match acquire_frame(&self.surface) {
            Ok(f) => f,
            Err(e) => {
                return Err(e);
            },
        };
        let view = surface_texture_view(&frame);
        let mut encoder = create_encoder(&self.device);
        let binding = render_binding(self.texture_bind_groups.len(), self.selector.current());
        match binding {
            Some(index) => {
                let group = &self.texture_bind_groups[index];
                let mut pass = begin_clear_pass(&mut encoder, &view);
                pass_set_pipeline(&mut pass, &self.pipeline);
                pass_set_bind_group(&mut pass, group);
                pass_draw_quad(&mut pass);
            },
            None => {},
        }
        let buffer = finish_encoder(encoder);
        submit_commands(&self.queue, buffer);
        present_frame(&self.queue, frame);
        Ok(())
    }

    pub fn current_index(&self) -> (r: usize)
        ensures
            r == self.spec_current_index(),
    {
        self.selector.current()
    }

    pub fn frame_count(&self) -> (r: usize)
        ensures
            r == self.spec_frame_count(),
    {
        self.texture_bind_groups.len()
    }

    /// The uniform's current value, for the caller to convert and push to
    /// device memory whenever a method reports a change.
    pub fn dimensions(&self) -> (r: DimensionsUniform)
        ensures
            r == self.spec_dimensions(),
    {
        self.current_dimensions
    }

    pub fn surface_extent(&self) -> (r: SurfaceExtent)
        ensures
            r == self.spec_extent(),
    {
        self.extent
    }
}

} // verus!
