//! The device boundary: declarations of the outside graphics and image
//! types, names for what an image holds, and the trusted wrappers through
//! which the renderer drives the device.
//!
//! Every item here is trusted: its contract states only what the outside
//! crate's source shows, and the verified renderer is proved against these
//! contracts alone.

use vstd::prelude::*;

verus! {

#[verifier::external_type_specification]
#[verifier::external_body]
pub struct ExDevice(wgpu::Device);

#[verifier::external_type_specification]
#[verifier::external_body]
pub struct ExQueue(wgpu::Queue);

#[verifier::external_type_specification]
#[verifier::external_body]
pub struct ExSurface<'window>(wgpu::Surface<'window>);

#[verifier::external_type_specification]
#[verifier::external_body]
pub struct ExRenderPipeline(wgpu::RenderPipeline);

#[verifier::external_type_specification]
#[verifier::external_body]
pub struct ExBindGroupLayout(wgpu::BindGroupLayout);

#[verifier::external_type_specification]
#[verifier::external_body]
pub struct ExBindGroup(wgpu::BindGroup);

#[verifier::external_type_specification]
#[verifier::external_body]
pub struct ExBuffer(wgpu::Buffer);

#[verifier::external_type_specification]
#[verifier::external_body]
pub struct ExSampler(wgpu::Sampler);

#[verifier::external_type_specification]
#[verifier::external_body]
pub struct ExTexture(wgpu::Texture);

#[verifier::external_type_specification]
#[verifier::external_body]
pub struct ExTextureView(wgpu::TextureView);

#[verifier::external_type_specification]
#[verifier::external_body]
pub struct ExCommandEncoder(wgpu::CommandEncoder);

#[verifier::external_type_specification]
#[verifier::external_body]
pub struct ExCommandBuffer(wgpu::CommandBuffer);

#[verifier::external_type_specification]
#[verifier::external_body]
pub struct ExSurfaceTexture(wgpu::SurfaceTexture);

#[verifier::external_type_specification]
#[verifier::external_body]
pub struct ExRenderPass<'encoder>(wgpu::RenderPass<'encoder>);

#[verifier::external_type_specification]
#[verifier::external_body]
pub struct ExTextureFormat(wgpu::TextureFormat);

/// An RGBA pixel grid held for upload to the device. It wraps the outside
/// image container, whose own generic declaration Verus refuses, so the
/// whole struct is opaque and its contents are reached only through the
/// names and wrappers below.
#[verifier::external_body]
pub struct FrameImage {
    inner: image::RgbaImage,
}

impl FrameImage {
    /// Relies on image's ImageBuffer::from_raw: builds an image of the
    /// given size over the given bytes, four per pixel row-major, and
    /// returns nothing exactly when the bytes cannot cover the pixels.
    #[verifier::external_body]
    pub fn from_raw_parts(width: u32, height: u32, bytes: Vec<u8>) -> (r: Option<FrameImage>)
        ensures
            r is Some <==> 4 * (width as nat) * (height as nat) <= bytes@.len(),
            r matches Some(f) ==> image_width(f) == width && image_height(f) == height
                && image_bytes(f) == bytes@,
    {
        image::RgbaImage::from_raw(width, height, bytes).map(|inner| FrameImage { inner })
    }

    /// Relies on image's ImageBuffer::dimensions, which returns the stored
    /// width and height, and on its construction-time check that the
    /// container holds at least width * height * 4 bytes.
    #[verifier::external_body]
    pub fn dimensions(&self) -> (r: (u32, u32))
        ensures
            r.0 == image_width(*self),
            r.1 == image_height(*self),
            image_bytes(*self).len() >= 4 * (r.0 as nat) * (r.1 as nat),
    {
        self.inner.dimensions()
    }
}

/// Width in pixels of an image: the bound its pixel container was built
/// with, fixed at construction.
pub uninterp spec fn image_width(img: FrameImage) -> u32;

/// Height in pixels of an image: the bound its pixel container was built
/// with, fixed at construction.
pub uninterp spec fn image_height(img: FrameImage) -> u32;

/// The raw contents of an image's pixel container: its bytes, row-major,
/// four per pixel.
pub uninterp spec fn image_bytes(img: FrameImage) -> Seq<u8>;

/// Width in pixels a device texture was allocated with.
pub uninterp spec fn texture_width(texture: wgpu::Texture) -> u32;

/// Height in pixels a device texture was allocated with.
pub uninterp spec fn texture_height(texture: wgpu::Texture) -> u32;

/// Relies on wgpu's Surface::configure: it (re)configures the surface for
/// the given size and format, with FIFO (vsync) presentation and
/// pre-multiplied-alpha compositing. Its documentation says it panics when
/// either dimension is zero, so those are required away. Its two other
/// documented panics concern the opaque handles, which a contract here
/// cannot name: the format must be one the surface supports (callers pass
/// one taken from the surface's own capability list), and no acquired
/// surface texture may still be alive (the renderer presents each frame
/// before it can reconfigure).
#[verifier::external_body]
pub(crate) fn configure_surface(
    surface: &wgpu::Surface<'static>,
    device: &wgpu::Device,
    format: &wgpu::TextureFormat,
    width: u32,
    height: u32,
)
    requires
        width > 0,
        height > 0,
{
    surface.configure(device, &wgpu::SurfaceConfiguration {
        usage: wgpu::TextureUsages::RENDER_ATTACHMENT,
        format: *format,
        color_space: wgpu::SurfaceColorSpace::Auto,
        width,
        height,
        present_mode: wgpu::PresentMode::Fifo,
        desired_maximum_frame_latency: 2,
        alpha_mode: wgpu::CompositeAlphaMode::PreMultiplied,
        view_formats: Vec::new(),
    })
}

/// Relies on wgpu's Device::create_sampler: returns a clamped-edge,
/// linear-filtering sampler shared by every drawable resource.
#[verifier::external_body]
pub(crate) fn create_shared_sampler(device: &wgpu::Device) -> (r: wgpu::Sampler)
{
    device.create_sampler(&wgpu::SamplerDescriptor {
        address_mode_u: wgpu::AddressMode::ClampToEdge,
        address_mode_v: wgpu::AddressMode::ClampToEdge,
        address_mode_w: wgpu::AddressMode::ClampToEdge,
        mag_filter: wgpu::FilterMode::Linear,
        min_filter: wgpu::FilterMode::Linear,
        mipmap_filter: wgpu::MipmapFilterMode::Linear,
        ..Default::default()
    })
}

/// Relies on wgpu's Device::create_texture: allocates a 2D RGBA color
/// texture of exactly the given pixel size. Zero or over-limit dimensions
/// raise a validation error, so the texture-dimension limit of wgpu's
/// default limits, 8192, is required here; this assumes the device was
/// requested with at least the default limits, as the shell does.
#[verifier::external_body]
pub(crate) fn create_frame_texture(device: &wgpu::Device, width: u32, height: u32) -> (r:
    wgpu::Texture)
    requires
        0 < width <= 8192,
        0 < height <= 8192,
    ensures
        texture_width(r) == width,
        texture_height(r) == height,
{
    device.create_texture(&wgpu::TextureDescriptor {
        label: Some("frame texture"),
        size: wgpu::Extent3d { width, height, depth_or_array_layers: 1 },
        mip_level_count: 1,
        sample_count: 1,
        dimension: wgpu::TextureDimension::D2,
        format: wgpu::TextureFormat::Rgba8UnormSrgb,
        usage: wgpu::TextureUsages::TEXTURE_BINDING | wgpu::TextureUsages::COPY_DST,
        view_formats: &[],
    })
}

/// Relies on wgpu's Queue::write_texture: schedules the image's raw bytes,
/// row-major with the given row stride, into the whole of a texture of the
/// same size. The size and stride requirements rule out its documented
/// data-too-short and region-overrun failures.
#[verifier::external_body]
pub(crate) fn upload_frame_texture(
    queue: &wgpu::Queue,
    texture: &wgpu::Texture,
    img: &FrameImage,
    width: u32,
    height: u32,
    bytes_per_row: u32,
)
    requires
        width == image_width(*img),
        height == image_height(*img),
        texture_width(*texture) == width,
        texture_height(*texture) == height,
        bytes_per_row == 4 * width,
{
    let info = wgpu::TexelCopyTextureInfo {
        texture,
        mip_level: 0,
        origin: wgpu::Origin3d::ZERO,
        aspect: wgpu::TextureAspect::All,
    };
    let layout = wgpu::TexelCopyBufferLayout {
        offset: 0,
        bytes_per_row: Some(bytes_per_row),
        rows_per_image: Some(height),
    };
    let size = wgpu::Extent3d { width, height, depth_or_array_layers: 1 };
    queue.write_texture(info, img.inner.as_raw(), layout, size)
}

/// Relies on wgpu's Texture::create_view with the default descriptor.
#[verifier::external_body]
pub(crate) fn create_texture_view(texture: &wgpu::Texture) -> (r: wgpu::TextureView)
{
    texture.create_view(&wgpu::TextureViewDescriptor::default())
}

/// Relies on wgpu's Device::create_bind_group: bundles a texture view, the
/// shared sampler and the shared dimensions uniform buffer into one
/// drawable resource, matching the pipeline's single bind group layout.
#[verifier::external_body]
pub(crate) fn create_frame_bind_group(
    device: &wgpu::Device,
    layout: &wgpu::BindGroupLayout,
    view: &wgpu::TextureView,
    sampler: &wgpu::Sampler,
    uniform: &wgpu::Buffer,
) -> (r: wgpu::BindGroup)
{
    device.create_bind_group(&wgpu::BindGroupDescriptor {
        label: None,
        layout,
        entries: &[
            wgpu::BindGroupEntry { binding: 0, resource: wgpu::BindingResource::TextureView(view) },
            wgpu::BindGroupEntry { binding: 1, resource: wgpu::BindingResource::Sampler(sampler) },
            wgpu::BindGroupEntry { binding: 2, resource: uniform.as_entire_binding() },
        ],
    })
}

/// Why the surface had no presentable texture to hand out this frame. Each
/// case is recoverable: the caller skips the frame and tries again later.
#[derive(Clone, Copy, Debug, PartialEq, Eq, Structural)]
pub enum SurfaceAcquireError {
    Timeout,
    Occluded,
    Outdated,
    Lost,
    Validation,
}

/// Relies on wgpu's Surface::get_current_texture: hands out the next
/// presentable texture, or reports why none is available; an acquire that
/// merely flags the swapchain as suboptimal still carries a usable texture.
/// Whether it succeeds depends on the platform, so nothing promises `Ok`.
/// The call panics on a surface that was never configured — a property of
/// the opaque handle that no requires here can name; the renderer
/// configures the surface at construction, before any render can reach
/// this call.
#[verifier::external_body]
pub(crate) fn acquire_frame(surface: &wgpu::Surface<'static>) -> (r: Result<
    wgpu::SurfaceTexture,
    SurfaceAcquireError,
>)
{
    match surface.get_current_texture() {
        wgpu::CurrentSurfaceTexture::Success(t) => Ok(t),
        wgpu::CurrentSurfaceTexture::Suboptimal(t) => Ok(t),
        wgpu::CurrentSurfaceTexture::Timeout => Err(SurfaceAcquireError::Timeout),
        wgpu::CurrentSurfaceTexture::Occluded => Err(SurfaceAcquireError::Occluded),
        wgpu::CurrentSurfaceTexture::Outdated => Err(SurfaceAcquireError::Outdated),
        wgpu::CurrentSurfaceTexture::Lost => Err(SurfaceAcquireError::Lost),
        wgpu::CurrentSurfaceTexture::Validation => Err(SurfaceAcquireError::Validation),
    }
}

/// Relies on wgpu's Texture::create_view, reading the acquired surface
/// texture's `texture` field.
#[verifier::external_body]
pub(crate) fn surface_texture_view(frame: &wgpu::SurfaceTexture) -> (r: wgpu::TextureView)
{
    frame.texture.create_view(&wgpu::TextureViewDescriptor::default())
}

/// Relies on wgpu's Device::create_command_encoder.
#[verifier::external_body]
pub(crate) fn create_encoder(device: &wgpu::Device) -> (r: wgpu::CommandEncoder)
{
    device.create_command_encoder(&wgpu::CommandEncoderDescriptor { label: None })
}

/// Relies on wgpu's CommandEncoder::begin_render_pass: starts a pass that
/// clears the target to fully transparent before any draw; the pass borrow
/// is released by RenderPass::forget_lifetime so the verified caller can
/// end it by dropping the pass before finishing the encoder.
#[verifier::external_body]
pub(crate) fn begin_clear_pass(
    encoder: &mut wgpu::CommandEncoder,
    view: &wgpu::TextureView,
) -> (r: wgpu::RenderPass<'static>)
{
    let ops = wgpu::Operations {
        load: wgpu::LoadOp::Clear(wgpu::Color::TRANSPARENT),
        store: wgpu::StoreOp::Store,
    };
    let attachment = wgpu::RenderPassColorAttachment {
        view, depth_slice: None, resolve_target: None, ops,
    };
    encoder.begin_render_pass(&wgpu::RenderPassDescriptor {
        label: None, color_attachments: &[Some(attachment)], depth_stencil_attachment: None,
        occlusion_query_set: None, timestamp_writes: None, multiview_mask: None,
    }).forget_lifetime()
}

/// Relies on wgpu's RenderPass::set_pipeline.
#[verifier::external_body]
pub(crate) fn pass_set_pipeline(pass: &mut wgpu::RenderPass<'static>, pipeline: &wgpu::RenderPipeline)
{
    pass.set_pipeline(pipeline)
}

/// Relies on wgpu's RenderPass::set_bind_group, at group index 0 with no
/// dynamic offsets.
#[verifier::external_body]
pub(crate) fn pass_set_bind_group(pass: &mut wgpu::RenderPass<'static>, group: &wgpu::BindGroup)
{
    pass.set_bind_group(0, group, &[])
}

/// Relies on wgpu's RenderPass::draw: records the single draw of a
/// four-vertex triangle-strip quad, one instance, no index buffer.
#[verifier::external_body]
pub(crate) fn pass_draw_quad(pass: &mut wgpu::RenderPass<'static>)
{
    pass.draw(0..4, 0..1)
}

/// Relies on wgpu's CommandEncoder::finish.
#[verifier::external_body]
pub(crate) fn finish_encoder(encoder: wgpu::CommandEncoder) -> (r: wgpu::CommandBuffer)
{
    encoder.finish()
}

/// Relies on wgpu's Queue::submit, with the one finished command buffer.
#[verifier::external_body]
pub(crate) fn submit_commands(queue: &wgpu::Queue, buffer: wgpu::CommandBuffer)
{
    let _ = queue.submit(core::iter::once(buffer));
}

/// Relies on wgpu's Queue::present: schedules the acquired surface texture
/// for display.
#[verifier::external_body]
pub(crate) fn present_frame(queue: &wgpu::Queue, frame: wgpu::SurfaceTexture)
{
    queue.present(frame)
}

} // verus!
