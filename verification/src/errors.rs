//! The error taxonomy of the playback core.
//!
//! Per-track and per-playlist-item failures are caught at the item
//! boundary and counted; session-operation and permission failures
//! surface as short user-visible messages.

use vstd::prelude::*;

verus! {

/// Everything that can go wrong inside the playback core.
#[derive(Clone, Copy, Debug, PartialEq, Eq, Structural)]
pub enum PlaybackError {
    /// The query resolves to nothing on any applicable provider.
    NotFound,
    /// A resolved item lacks a required metadata field.
    MetadataError,
    /// An external fetch or transcode process could not start.
    PipelineSpawnError,
    /// The requesting user is not in the voice channel the session occupies.
    PermissionDenied,
    /// The operation targets a session that does not exist.
    SessionAbsent,
    /// The operation does not apply in the current state, e.g. a pause
    /// with nothing playing.
    InvalidState,
}

} // verus!
