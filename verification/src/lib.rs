//! Helpers for rendering with a GPU: builders for render passes and samplers, a
//! reshaper that resamples one texture into another, a renderer for the mesh of a
//! drawing, and the texture primitive of a drawing.
//!
//! The library describes resources and records passes as plain values; it never
//! touches a device. Floats are held as their IEEE 754 bit patterns.

pub mod render_pass;
pub mod renderer;
pub mod reshaper;
pub mod sampler_builder;
pub mod spirv;
pub mod texture;
