//! Render-pipeline configuration and post-processing pass management.
//!
//! The library describes GPU state as plain values: immutable pipeline
//! descriptors assembled by builders, binding layouts and the binding sets
//! that must conform to them, an anti-aliasing post-process pass that keeps a
//! static and a volatile binding set, and a frame orchestrator that owns the
//! offscreen image. A host turns these descriptions into device objects.
pub mod types;
pub mod bindings;
pub mod builders;
pub mod pipeline;
pub mod fxaa;
pub mod frame;
