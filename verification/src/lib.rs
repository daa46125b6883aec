//! A small deferred-lighting 2D renderer core.
//!
//! The library decides *what* the graphics device has to do and records it:
//! resources are named by handles, every device request is appended to the
//! [`wgpu_components::WgpuContext`] in call order, and draw calls are recorded
//! into per-pass command streams. A backend replays those records against a
//! real device; nothing in here touches one.

pub mod camera;
pub mod error;
pub mod font;
pub mod input;
pub mod layers;
pub mod ligth_pipeline;
pub mod math;
pub mod objects;
pub mod scene_manager;
pub mod scenes;
pub mod shaders;
pub mod surface;
pub mod texture_atlas;
pub mod wgpu_components;
