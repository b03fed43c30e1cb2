//! Render-pipeline core of a real-time city renderer.
//!
//! The crate covers the CPU side of a retained-mode GPU renderer: mesh
//! assembly with per-material index runs, grow-only GPU buffer pooling,
//! a pipeline cache keyed by small descriptor values, command-stream
//! generation for the opaque, depth and shadow passes, a dual-Kawase UI
//! blur schedule, and a rate-limited terrain streaming bridge.
//!
//! GPU resources (buffers, textures, bind groups, pipelines) appear here
//! as opaque integer handles; every draw or upload is recorded as a plain
//! command value. A thin unverified layer elsewhere replays those
//! commands against the real GPU API.
#![verifier::loop_isolation(false)]

pub mod blur;
pub mod draw;
pub mod gfx;
pub mod gui;
pub mod mesh;
pub mod matlist;
pub mod pbuffer;
pub mod pipeline;
pub mod terrain;
pub mod vertex;
