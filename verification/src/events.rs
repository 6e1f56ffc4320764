//! Value types for the player state and the events that drive it.
//!
//! All times are in microseconds: positions are offsets from the start of
//! the track, instants are readings of the caller's monotonic clock.

use vstd::prelude::*;

use crate::lrc::Lyrics;

verus! {

/// Playback status reported by the player.
#[derive(Debug, PartialEq, Eq, Copy, Clone, Structural)]
pub enum PlaybackStatus {
    Playing,
    Paused,
    Stopped,
}

/// Track metadata; the source file path is all the synchronization logic reads.
#[derive(Clone, Debug)]
pub struct Metadata {
    pub file_path: String,
}

impl PartialEq for Metadata {
    fn eq(&self, other: &Metadata) -> (r: bool) {
        self.file_path == other.file_path
    }
}

impl vstd::std_specs::cmp::PartialEqSpecImpl for Metadata {
    open spec fn obeys_eq_spec() -> bool {
        true
    }

    open spec fn eq_spec(&self, other: &Metadata) -> bool {
        self.file_path@ == other.file_path@
    }
}

/// A playback position paired with the instant it was captured, so that the
/// current position can be extrapolated while the player keeps playing.
#[derive(Debug, PartialEq, Eq, Copy, Clone, Structural)]
pub struct PositionSnapshot {
    /// Position at the time of capture, in microseconds.
    pub position: u64,
    /// Monotonic instant of the capture, in microseconds.
    pub instant: u64,
}

/// Everything the engine knows about the player, replaced wholesale on every
/// reducer step.
#[derive(Clone, Debug)]
pub struct PlayerState {
    pub playback_status: PlaybackStatus,
    pub position_snapshot: PositionSnapshot,
    /// If the player is stopped, metadata is `None`.
    pub metadata: Option<Metadata>,
}

impl PartialEq for PlayerState {
    fn eq(&self, other: &PlayerState) -> (r: bool) {
        if self.playback_status != other.playback_status {
            return false;
        }
        if self.position_snapshot != other.position_snapshot {
            return false;
        }
        match (&self.metadata, &other.metadata) {
            (None, None) => true,
            (Some(m), Some(o)) => m == o,
            _ => false,
        }
    }
}

impl vstd::std_specs::cmp::PartialEqSpecImpl for PlayerState {
    open spec fn obeys_eq_spec() -> bool {
        true
    }

    open spec fn eq_spec(&self, other: &PlayerState) -> bool {
        &&& self.playback_status == other.playback_status
        &&& self.position_snapshot == other.position_snapshot
        &&& match (self.metadata, other.metadata) {
            (None, None) => true,
            (Some(m), Some(o)) => m.file_path@ == o.file_path@,
            _ => false,
        }
    }
}

impl PlayerState {
    /// Position at `now`: the stored position, extrapolated by the time that
    /// passed since the snapshot while the status is `Playing`.  The
    /// extrapolation saturates instead of wrapping at the ends of `u64`.
    pub open spec fn spec_current_position(&self, now: u64) -> u64 {
        if self.playback_status is Playing {
            let elapsed: int = if now >= self.position_snapshot.instant {
                now - self.position_snapshot.instant
            } else {
                0
            };
            if self.position_snapshot.position + elapsed <= u64::MAX {
                (self.position_snapshot.position + elapsed) as u64
            } else {
                u64::MAX
            }
        } else {
            self.position_snapshot.position
        }
    }

    pub fn current_position(&self, now: u64) -> (r: u64)
        ensures
            r == self.spec_current_position(now),
    {
        if self.playback_status == PlaybackStatus::Playing {
            let elapsed: u64 = if now >= self.position_snapshot.instant {
                now - self.position_snapshot.instant
            } else {
                0
            };
            if self.position_snapshot.position <= u64::MAX - elapsed {
                self.position_snapshot.position + elapsed
            } else {
                u64::MAX
            }
        } else {
            self.position_snapshot.position
        }
    }
}

/// A notification from the player, already reduced to plain values by the
/// bus listener.
#[derive(Debug)]
pub enum PlayerEvent {
    /// The player's bus name gained an owner; the field is that owner.
    PlayerStarted { player_owner_name: String },
    /// The player's bus name lost its owner.
    PlayerShutDown,
    PlaybackStatusChange(PlaybackStatus),
    /// The player jumped to `position` (microseconds).
    Seeked { position: u64 },
    MetadataChange(Option<Metadata>),
    /// A property this engine does not know; surfaced as a diagnostic only.
    Unknown { key: String, value: String },
}

/// A change of the loaded lyrics, produced by the file watcher.
#[derive(Debug)]
pub enum LyricsEvent {
    LyricsChanged { lyrics: Option<Lyrics>, file_path: Option<String> },
}

/// Either kind of event, merged only at the orchestration step.
#[derive(Debug)]
pub enum Event {
    PlayerEvent(PlayerEvent),
    LyricsEvent(LyricsEvent),
}

/// An event together with the monotonic instant (microseconds) at which
/// the producer observed it.
#[derive(Debug)]
pub struct TimedEventBase<T> {
    pub instant: u64,
    pub event: T,
}

pub type TimedEvent = TimedEventBase<Event>;

} // verus!
