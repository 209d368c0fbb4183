//! A cross-platform audio I/O abstraction: physical device discovery and
//! capability queries, logical device creation with format and sharing-mode
//! negotiation, a dual-mode (polling or callback) buffer-exchange protocol,
//! and realtime-priority sessions for the audio-producing thread.
//!
//! Backend-specific plumbing (the native audio stacks themselves) stays
//! outside this crate; the library models the data each backend hands over
//! and verifies every decision taken on it.

pub mod api;
pub mod handle;
pub mod registry;
pub mod wire;
pub mod device;
pub mod instance;
pub mod session;
