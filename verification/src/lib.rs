//! Core of a minimal real-time rendering engine: the frame-pacing state
//! machine, the declarative render-graph recorder, the shader-artifact
//! cache policy, and the swapchain configuration choosers.
//!
//! The engine's GPU and window work (device creation, command submission,
//! presentation, file access, compiler processes) happens outside this
//! library; the library holds the decisions those loops act on, stated and
//! proved over plain values.

pub mod frame_sync;
pub mod render_graph;
pub mod shader_cache;
pub mod swapchain;
