//! Core of a voice-channel playback assistant: query classification,
//! track metadata validation, the restartable fetch/decode source,
//! the per-session playback queue, playlist ingestion accounting, and
//! the now-playing progress renderer.
//!
//! Everything here is plain data and verified logic. The surrounding
//! binary owns the network, the chat gateway, and the external
//! processes; it hands this library plain values and carries out the
//! actions the library decides on.

pub mod commands;
pub mod errors;
pub mod events;
pub mod playlist;
pub mod query;
pub mod session;
pub mod source;
pub mod text;
pub mod track;
