//! The player state reducer: folds one timestamped player event into the
//! current player state.
//!
//! The reducer is a pure function.  The two events whose handling needs a
//! synchronous query to the player — pausing, which needs the authoritative
//! position, and a player start, which needs the full property set — take
//! the query's result as an argument; the caller performs the query and
//! hands in what came back, or `None` when it failed.

use vstd::prelude::*;

use crate::events::PlaybackStatus;
use crate::events::PlayerEvent;
use crate::events::PlayerState;
use crate::events::PositionSnapshot;

verus! {

/// Why a reducer step was rejected.
#[derive(Debug, PartialEq, Eq, Structural, Clone, Copy)]
pub enum ReduceError {
    /// A pause was applied while a state exists, but no authoritative
    /// position was resolved; guessing one would desynchronize the lyrics.
    MissingPosition,
}

/// The state after folding `event`, timestamped `instant`, into `prior`.
///
/// `paused_position` is the position resolved by a synchronous query for a
/// pause event; `queried_state` is the full state queried for a player
/// start.  Either is `None` when it was not queried or the query failed.
pub open spec fn spec_reduce(
    prior: Option<PlayerState>,
    instant: u64,
    event: PlayerEvent,
    paused_position: Option<PositionSnapshot>,
    queried_state: Option<PlayerState>,
) -> Result<Option<PlayerState>, ReduceError> {
    match event {
        PlayerEvent::Seeked { position } => Ok(
            match prior {
                Some(p) => Some(
                    PlayerState {
                        position_snapshot: PositionSnapshot { position, instant },
                        ..p
                    },
                ),
                None => None,
            },
        ),
        PlayerEvent::PlaybackStatusChange(PlaybackStatus::Playing) => Ok(
            match prior {
                Some(p) => Some(
                    PlayerState {
                        playback_status: PlaybackStatus::Playing,
                        position_snapshot: PositionSnapshot {
                            position: p.position_snapshot.position,
                            instant,
                        },
                        metadata: p.metadata,
                    },
                ),
                None => None,
            },
        ),
        PlayerEvent::PlaybackStatusChange(PlaybackStatus::Stopped) => Ok(
            Some(
                PlayerState {
                    playback_status: PlaybackStatus::Stopped,
                    position_snapshot: PositionSnapshot { position: 0, instant },
                    metadata: None,
                },
            ),
        ),
        PlayerEvent::PlaybackStatusChange(PlaybackStatus::Paused) => match prior {
            None => Ok(None),
            Some(p) => match paused_position {
                None => Err(ReduceError::MissingPosition),
                Some(snapshot) => Ok(
                    Some(
                        PlayerState {
                            playback_status: PlaybackStatus::Paused,
                            position_snapshot: snapshot,
                            metadata: p.metadata,
                        },
                    ),
                ),
            },
        },
        PlayerEvent::MetadataChange(m) => Ok(
            match prior {
                Some(p) => Some(PlayerState { metadata: m, ..p }),
                None => None,
            },
        ),
        PlayerEvent::PlayerShutDown => Ok(None),
        PlayerEvent::PlayerStarted { .. } => Ok(
            match queried_state {
                Some(s) => Some(s),
                None => prior,
            },
        ),
        PlayerEvent::Unknown { .. } => Ok(prior),
    }
}

/// Folds one player event into the prior state.  See [`spec_reduce`] for
/// the meaning of the two query-result arguments.
///
/// A stop always yields a stopped state at position zero with no metadata;
/// a pause with a state but no resolved position is rejected rather than
/// silently defaulted.
pub fn reduce(
    prior: Option<PlayerState>,
    instant: u64,
    event: PlayerEvent,
    paused_position: Option<PositionSnapshot>,
    queried_state: Option<PlayerState>,
) -> (r: Result<Option<PlayerState>, ReduceError>)
    ensures
        r == spec_reduce(prior, instant, event, paused_position, queried_state),
{
    match event {
        PlayerEvent::Seeked { position } => Ok(
            match prior {
                Some(p) => Some(
                    PlayerState {
                        playback_status: p.playback_status,
                        position_snapshot: PositionSnapshot { position, instant },
                        metadata: p.metadata,
                    },
                ),
                None => None,
            },
        ),
        PlayerEvent::PlaybackStatusChange(PlaybackStatus::Playing) => Ok(
            match prior {
                Some(p) => Some(
                    PlayerState {
                        playback_status: PlaybackStatus::Playing,
                        position_snapshot: PositionSnapshot {
                            position: p.position_snapshot.position,
                            instant,
                        },
                        metadata: p.metadata,
                    },
                ),
                None => None,
            },
        ),
        PlayerEvent::PlaybackStatusChange(PlaybackStatus::Stopped) => Ok(
            Some(
                PlayerState {
                    playback_status: PlaybackStatus::Stopped,
                    position_snapshot: PositionSnapshot { position: 0, instant },
                    metadata: None,
                },
            ),
        ),
        PlayerEvent::PlaybackStatusChange(PlaybackStatus::Paused) => match prior {
            None => Ok(None),
            Some(p) => match paused_position {
                None => Err(ReduceError::MissingPosition),
                Some(snapshot) => Ok(
                    Some(
                        PlayerState {
                            playback_status: PlaybackStatus::Paused,
                            position_snapshot: snapshot,
                            metadata: p.metadata,
                        },
                    ),
                ),
            },
        },
        PlayerEvent::MetadataChange(m) => Ok(
            match prior {
                Some(p) => Some(
                    PlayerState {
                        playback_status: p.playback_status,
                        position_snapshot: p.position_snapshot,
                        metadata: m,
                    },
                ),
                None => None,
            },
        ),
        PlayerEvent::PlayerShutDown => Ok(None),
        PlayerEvent::PlayerStarted { .. } => Ok(
            match queried_state {
                Some(s) => Some(s),
                None => prior,
            },
        ),
        PlayerEvent::Unknown { .. } => Ok(prior),
    }
}

/// Right after a seek, the current position is exactly the seeked
/// position: at the event's own instant there is nothing to extrapolate.
pub proof fn lemma_seeked_position_immediate(
    prior: Option<PlayerState>,
    instant: u64,
    position: u64,
)
    requires
        prior is Some,
    ensures
        spec_reduce(
            prior,
            instant,
            PlayerEvent::Seeked { position },
            None,
            None,
        ) matches Ok(s) && s matches Some(p) && p.spec_current_position(instant) == position,
{
}

/// While the status stays `Playing` and no event arrives, the current
/// position never decreases between two queries.
pub proof fn lemma_playing_position_monotonic(s: PlayerState, n1: u64, n2: u64)
    requires
        s.playback_status is Playing,
        n1 <= n2,
    ensures
        s.spec_current_position(n1) <= s.spec_current_position(n2),
{
}

} // verus!
