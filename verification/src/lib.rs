//! Verified core of a looping image-overlay renderer.
//!
//! The library models and verifies the animation subsystem: frame selection,
//! frame-advance timing, the shared dimensions uniform, and the surface
//! configuration state, together with the GPU-facing renderer that binds one
//! drawable resource per frame and draws a full-screen quad.

pub mod animation;
pub mod dimensions;
pub mod gpu;
pub mod renderer;
pub mod selector;
pub mod timing;
