//! Frame orchestration core of a minimal real-time renderer.
//!
//! The library models and verifies the logic that drives a GPU device through
//! a present-to-screen loop: device and queue selection, presentation-surface
//! negotiation and resize handling, pipeline and bind-set construction rules,
//! the one-time build protocol for two-level acceleration structures, and the
//! per-frame acquire/record/submit/present state machine. The GPU itself, the
//! window system and the compiled shader modules are outside collaborators:
//! an unverified shell performs those actions exactly as this library directs
//! and feeds their outcomes back in as plain events.

pub mod accel;
pub mod binder;
pub mod device;
pub mod extent;
pub mod frame;
pub mod pipeline;
pub mod surface;
pub mod trace;
