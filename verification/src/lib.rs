//! Bookkeeping core of a small 2D sprite renderer.
//!
//! The library keeps the plain-value state of the renderer: vertex buffer
//! layouts, byte ledgers of the GPU buffers, per-mesh instance tables,
//! time-based pose interpolation, scenes and the per-frame surface
//! decisions. Everything that touches the GPU, the window system or
//! floating-point math is done by the caller with the values computed here.

pub mod layout;
pub mod buffer;
pub mod pose;
pub mod material;
pub mod scene;
pub mod renderer;
pub mod utils;
pub mod texture;
