//! Core of a small real-time rendering engine: named GPU resources and their
//! tables, a scene of renderable objects, and the per-frame plan that
//! reconciles scene state with the resources. The graphics device is a
//! capability the core consumes through the `GpuBackend` trait; the calls into
//! the graphics library, the windowing shell and all floating-point math live
//! outside this crate.

pub mod config;
pub mod demo_scene;
pub mod error;
pub mod gpu;
pub mod ids;
pub mod input;
pub mod manager;
pub mod mesh;
pub mod primitives;
pub mod render_object;
pub mod renderer;
pub mod scene_manager;
pub mod shared;
pub mod surface;
pub mod transform;
