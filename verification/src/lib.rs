//! A software 3D rendering pipeline: vertex transformation, triangle
//! rasterization with per-pixel depth testing, and fragment shading, all
//! working on a CPU-owned pixel buffer.
//!
//! Geometry is carried in 16.16 fixed-point integers so that every stage is
//! exact integer arithmetic; the depth buffer's "nothing drawn yet" value
//! plays the role of a maximally far depth.

pub mod framebuffer;
pub mod fx;
pub mod geometry;
pub mod transform;
pub mod raster;
pub mod render;
mod rng;
pub mod shaders;
pub mod stars;

pub use framebuffer::Framebuffer;
