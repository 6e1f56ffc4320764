use lrcshow_rs::events::Metadata;
use lrcshow_rs::events::PlaybackStatus;
use lrcshow_rs::events::PlayerEvent;
use lrcshow_rs::events::PlayerState;
use lrcshow_rs::events::PositionSnapshot;
use lrcshow_rs::reducer::reduce;
use lrcshow_rs::reducer::ReduceError;

fn playing_state(position: u64, instant: u64) -> PlayerState {
    PlayerState {
        playback_status: PlaybackStatus::Playing,
        position_snapshot: PositionSnapshot { position, instant },
        metadata: Some(Metadata {
            file_path: "/music/song.mp3".to_string(),
        }),
    }
}

#[test]
fn seek_position_is_exact_at_event_instant() {
    let prior = Some(playing_state(1_000_000, 0));
    let r = reduce(
        prior,
        777_000,
        PlayerEvent::Seeked {
            position: 5_000_000,
        },
        None,
        None,
    )
    .unwrap()
    .unwrap();
    assert_eq!(r.current_position(777_000), 5_000_000);
    assert_eq!(r.playback_status, PlaybackStatus::Playing);
}

#[test]
fn seek_without_state_stays_unknown() {
    let r = reduce(
        None,
        0,
        PlayerEvent::Seeked { position: 1 },
        None,
        None,
    )
    .unwrap();
    assert!(r.is_none());
}

#[test]
fn playing_extrapolates_and_is_monotonic() {
    let s = playing_state(1_000_000, 500_000);
    let p1 = s.current_position(1_500_000);
    let p2 = s.current_position(2_500_000);
    assert_eq!(p1, 2_000_000);
    assert_eq!(p2, 3_000_000);
    assert!(p1 <= p2);
}

#[test]
fn paused_does_not_extrapolate() {
    let s = PlayerState {
        playback_status: PlaybackStatus::Paused,
        position_snapshot: PositionSnapshot {
            position: 1_000_000,
            instant: 0,
        },
        metadata: None,
    };
    assert_eq!(s.current_position(9_000_000), 1_000_000);
}

#[test]
fn stop_resets_position_and_clears_metadata() {
    let prior = Some(playing_state(123_456, 0));
    let r = reduce(
        prior,
        42,
        PlayerEvent::PlaybackStatusChange(PlaybackStatus::Stopped),
        None,
        None,
    )
    .unwrap()
    .unwrap();
    assert_eq!(r.playback_status, PlaybackStatus::Stopped);
    assert_eq!(r.position_snapshot.position, 0);
    assert_eq!(r.position_snapshot.instant, 42);
    assert!(r.metadata.is_none());
}

#[test]
fn stop_without_prior_state_still_yields_stopped_state() {
    let r = reduce(
        None,
        7,
        PlayerEvent::PlaybackStatusChange(PlaybackStatus::Stopped),
        None,
        None,
    )
    .unwrap()
    .unwrap();
    assert_eq!(r.playback_status, PlaybackStatus::Stopped);
    assert_eq!(r.position_snapshot.position, 0);
    assert!(r.metadata.is_none());
}

#[test]
fn pause_without_resolved_position_is_rejected() {
    let prior = Some(playing_state(1_000_000, 0));
    let r = reduce(
        prior,
        10,
        PlayerEvent::PlaybackStatusChange(PlaybackStatus::Paused),
        None,
        None,
    );
    assert_eq!(r, Err(ReduceError::MissingPosition));
}

#[test]
fn pause_with_resolved_position_applies_it() {
    let prior = Some(playing_state(1_000_000, 0));
    let r = reduce(
        prior,
        10,
        PlayerEvent::PlaybackStatusChange(PlaybackStatus::Paused),
        Some(PositionSnapshot {
            position: 2_222_222,
            instant: 11,
        }),
        None,
    )
    .unwrap()
    .unwrap();
    assert_eq!(r.playback_status, PlaybackStatus::Paused);
    assert_eq!(r.position_snapshot.position, 2_222_222);
    assert!(r.metadata.is_some());
}

#[test]
fn resume_rebases_capture_instant_and_keeps_position() {
    let prior = Some(PlayerState {
        playback_status: PlaybackStatus::Paused,
        position_snapshot: PositionSnapshot {
            position: 3_000_000,
            instant: 5,
        },
        metadata: None,
    });
    let r = reduce(
        prior,
        1_000_000,
        PlayerEvent::PlaybackStatusChange(PlaybackStatus::Playing),
        None,
        None,
    )
    .unwrap()
    .unwrap();
    assert_eq!(r.playback_status, PlaybackStatus::Playing);
    assert_eq!(r.position_snapshot.position, 3_000_000);
    assert_eq!(r.position_snapshot.instant, 1_000_000);
    assert_eq!(r.current_position(1_000_000), 3_000_000);
}

#[test]
fn metadata_change_touches_only_metadata() {
    let prior = Some(playing_state(1_000_000, 0));
    let new_md = Metadata {
        file_path: "/other/track.ogg".to_string(),
    };
    let r = reduce(
        prior,
        10,
        PlayerEvent::MetadataChange(Some(new_md.clone())),
        None,
        None,
    )
    .unwrap()
    .unwrap();
    assert_eq!(r.playback_status, PlaybackStatus::Playing);
    assert_eq!(r.position_snapshot.position, 1_000_000);
    assert_eq!(r.metadata, Some(new_md));
}

#[test]
fn player_started_takes_queried_state() {
    let queried = playing_state(41_337_000, 3);
    let r = reduce(
        None,
        3,
        PlayerEvent::PlayerStarted {
            player_owner_name: ":1.154".to_string(),
        },
        None,
        Some(queried.clone()),
    )
    .unwrap();
    assert_eq!(r, Some(queried));
}

#[test]
fn player_started_with_failed_query_keeps_prior() {
    let prior = Some(playing_state(1, 2));
    let r = reduce(
        prior.clone(),
        3,
        PlayerEvent::PlayerStarted {
            player_owner_name: ":1.154".to_string(),
        },
        None,
        None,
    )
    .unwrap();
    assert_eq!(r, prior);
}

#[test]
fn shutdown_forgets_the_player() {
    let prior = Some(playing_state(1, 2));
    let r = reduce(prior, 3, PlayerEvent::PlayerShutDown, None, None).unwrap();
    assert!(r.is_none());
}

#[test]
fn unknown_property_changes_nothing() {
    let prior = Some(playing_state(1, 2));
    let r = reduce(
        prior.clone(),
        3,
        PlayerEvent::Unknown {
            key: "Rate".to_string(),
            value: "1.0".to_string(),
        },
        None,
        None,
    )
    .unwrap();
    assert_eq!(r, prior);
}
