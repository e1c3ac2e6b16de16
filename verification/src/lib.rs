//! Cross-thread frame-delivery bridge for a video player.
//!
//! A decode pipeline (an external collaborator, driven by the surrounding
//! application) produces raw RGBA frames and lifecycle messages on its own
//! threads; a UI render cycle consumes them. This crate holds the verified
//! core of that bridge: the shared frame buffer, the bounded event channel
//! that carries lifecycle events to the consumer, the single-slot blocking
//! handoff buffer used by a pull-style renderer, and the pipeline lifecycle
//! state machine. The surrounding application supplies the locks, threads
//! and pipeline calls and drives these structures through their verified
//! operations.

pub mod channel;
pub mod frame;
pub mod handoff;
pub mod lifecycle;
pub mod streamer;
pub mod uri;
