//! The decisions behind a Skia renderer that draws into a window through wgpu.
//!
//! [`surface::WGPUSurface`] keeps what a surface has to remember and decides
//! what is done next; the caller does it on the GPU. What each step and each call
//! amounts to is stated in [`step_laws`], and what a whole frame does in [`laws`].

pub mod backend;
pub mod config;
pub mod error;
pub mod laws;
pub mod overlay;
pub mod perf;
pub mod render;
pub mod step_laws;
pub mod surface;
