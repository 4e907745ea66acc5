//! A pixel-oriented 2D engine core: a logical pixel framebuffer, sticky
//! press/held/release input state, a decal (cached GPU texture) lifecycle,
//! and the frame-loop state machine that orders event ingestion, per-frame
//! callback invocation, presentation and shutdown.
//!
//! The windowing and GPU libraries are collaborators at the edge: a host
//! drives the platform event loop, translates its events into [`engine::Event`]
//! values, and performs the [`engine::TickAction`] and GPU commands that the
//! verified core hands back.

pub mod engine;
pub mod input_state;
pub mod inputs;
pub mod keycodes;
pub mod keys;
pub mod screen;
