//! The shared dimensions uniform and the surface extent, with the resize
//! rule that updates them together.
//!
//! The uniform maps surface-space coordinates to texture-space coordinates;
//! the device copy holds these four values as floating point, converted by
//! the unverified shell at the device boundary. Here they are the source
//! pixel counts.

use vstd::prelude::*;

verus! {

/// The single shared uniform: surface size and frame (texture) size, in
/// pixels. One instance exists per renderer; every drawable resource reads
/// the same device copy.
#[derive(Clone, Copy, Debug, PartialEq, Eq, Structural)]
pub struct DimensionsUniform {
    pub surface_width: u32,
    pub surface_height: u32,
    pub frame_width: u32,
    pub frame_height: u32,
}

impl DimensionsUniform {
    /// Initial value: both pairs start as the window's size, before any
    /// sequence is loaded.
    pub fn initial(width: u32, height: u32) -> (r: DimensionsUniform)
        ensures
            r == (DimensionsUniform {
                surface_width: width,
                surface_height: height,
                frame_width: width,
                frame_height: height,
            }),
    {
        DimensionsUniform {
            surface_width: width,
            surface_height: height,
            frame_width: width,
            frame_height: height,
        }
    }

    /// Record a new surface size; the frame size is untouched.
    pub fn set_surface_size(&mut self, width: u32, height: u32)
        ensures
            *final(self) == (DimensionsUniform {
                surface_width: width,
                surface_height: height,
                ..*old(self)
            }),
    {
        self.surface_width = width;
        self.surface_height = height;
    }

    /// Record a new frame size; the surface size is untouched.
    pub fn set_frame_size(&mut self, width: u32, height: u32)
        ensures
            *final(self) == (DimensionsUniform {
                frame_width: width,
                frame_height: height,
                ..*old(self)
            }),
    {
        self.frame_width = width;
        self.frame_height = height;
    }
}

/// The configured size of the presentation surface, in pixels. Always
/// positive once configured: degenerate sizes never reach the surface.
#[derive(Clone, Copy, Debug, PartialEq, Eq, Structural)]
pub struct SurfaceExtent {
    pub width: u32,
    pub height: u32,
}

/// The resize rule: a request with either dimension zero (a minimized or
/// degenerate window) changes nothing; otherwise the surface extent takes
/// the new size and the uniform's surface pair follows, its frame pair kept.
/// Returns whether anything changed, so the caller knows to reconfigure the
/// surface and push the uniform to the device.
pub fn apply_resize(
    extent: &mut SurfaceExtent,
    dims: &mut DimensionsUniform,
    width: u32,
    height: u32,
) -> (changed: bool)
    ensures
        changed == (width > 0 && height > 0),
        changed ==> *final(extent) == (SurfaceExtent { width, height }),
        changed ==> *final(dims) == (DimensionsUniform {
            surface_width: width,
            surface_height: height,
            ..*old(dims)
        }),
        !changed ==> *final(extent) == *old(extent) && *final(dims) == *old(dims),
{
    if width == 0 || height == 0 {
        return false;
    }
    extent.width = width;
    extent.height = height;
    dims.set_surface_size(width, height);
    true
}

} // verus!
