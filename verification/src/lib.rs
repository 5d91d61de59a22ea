//! Playback and queue engine of a terminal music player.
//!
//! The library holds the state and the rules: the catalogue of tracks and
//! albums, the play queue with its cursor, the transport state with its
//! elapsed-time bookkeeping, and the panel state of the user interface.
//! Everything that touches a device, a file or the terminal is left to the
//! caller, which reports what happened as plain values: the reading of a
//! monotonic clock, whether the stream has drained, whether a file could be
//! decoded.

pub mod app;
pub mod layout;
pub mod load_album_and_track_lists;
pub mod player;
pub mod queue;
pub mod sorting;
pub mod text;
