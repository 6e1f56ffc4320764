//! Keeps a timed-lyrics display in step with a media player.
//!
//! The crate is organised around two pure cores: a reducer that folds a
//! stream of timestamped player events into the current player state, and a
//! timing cursor that maps a playback position onto a sorted list of timing
//! marks.  Around them stand the LRC timing model, the notification cache of
//! the query service, and the orchestration step that ties them together.
//! All I/O (message bus, file watching) lives outside this crate and hands
//! in plain values.

pub mod cursor;
pub mod engine;
pub mod events;
pub mod formatters;
pub mod lrc;
pub mod metadata;
pub mod player;
pub mod reducer;
pub mod server_data;
