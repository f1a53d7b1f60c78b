//! Graphics backend abstraction and device-initialization pipeline.
//!
//! The library discovers a usable graphics device, establishes a rendering
//! context (Vulkan or OpenGL), creates a presentable surface and swapchain,
//! and exposes a uniform draw/present interface regardless of which backend
//! was selected.  All selection heuristics, ordering rules and
//! failure-propagation policies are stated as contracts and verified; the
//! native API calls themselves are performed by the surrounding application
//! layer, which feeds their results to the verified pipeline as plain values.

pub mod asset;
pub mod backend;
pub mod buffer;
pub mod config;
pub mod context;
pub mod decimal;
pub mod device;
pub mod library;
pub mod logger;
pub mod renderer;
pub mod surface;
pub mod swapchain;
pub mod version;
