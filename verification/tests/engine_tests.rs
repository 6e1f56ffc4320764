use lrcshow_rs::engine::Engine;
use lrcshow_rs::events::Metadata;
use lrcshow_rs::events::PlaybackStatus;
use lrcshow_rs::events::PlayerEvent;
use lrcshow_rs::events::PlayerState;
use lrcshow_rs::events::PositionSnapshot;
use lrcshow_rs::lrc::Lyrics;
use lrcshow_rs::lrc::LyricsTiming;
use lrcshow_rs::reducer::ReduceError;

const TICK: u64 = 16_000;

fn mark(time_us: u64, line: i32) -> LyricsTiming {
    LyricsTiming {
        time: time_us,
        line_index: line,
        line_char_from_index: 0,
        line_char_to_index: 0,
    }
}

fn three_marks() -> Lyrics {
    Lyrics {
        lines: vec!["a".to_string(), "b".to_string(), "c".to_string()],
        timings: vec![mark(0, 0), mark(1_000_000, 1), mark(2_000_000, 2)],
    }
}

fn playing_state(position: u64, instant: u64) -> PlayerState {
    PlayerState {
        playback_status: PlaybackStatus::Playing,
        position_snapshot: PositionSnapshot { position, instant },
        metadata: Some(Metadata {
            file_path: "/music/song.mp3".to_string(),
        }),
    }
}

#[test]
fn fresh_engine_reports_nothing() {
    let mut e = Engine::new(TICK, None);
    assert!(!e.has_player_state());
    assert_eq!(e.after_events(0), None);
    assert_eq!(e.on_tick(0), None);
}

#[test]
fn lyrics_event_publishes_lines() {
    let mut e = Engine::new(TICK, None);
    let lines = e.handle_lyrics_event(Some(three_marks()));
    assert_eq!(
        lines,
        Some(vec!["a".to_string(), "b".to_string(), "c".to_string()])
    );
    assert_eq!(e.handle_lyrics_event(None), None);
}

#[test]
fn batch_resync_and_quiet_tick_advance() {
    let mut e = Engine::new(TICK, None);
    let started = PlayerEvent::PlayerStarted {
        player_owner_name: ":1.4".to_string(),
    };
    let w = e
        .handle_player_event(0, started, None, Some(playing_state(1_500_000, 0)))
        .unwrap();
    assert_eq!(w, Some(Some("/music/song.lrc".to_string())));
    e.handle_lyrics_event(Some(three_marks()));
    // the batch ends: resync against the extrapolated position
    assert_eq!(e.after_events(0), Some(mark(1_000_000, 1)));
    // playback advances quietly up to just inside the tolerance window
    assert_eq!(e.on_tick(490_000), None);
    assert_eq!(e.on_tick(493_000), Some(mark(2_000_000, 2)));
    assert_eq!(e.on_tick(600_000), None);
}

#[test]
fn pause_without_position_is_rejected_and_state_kept() {
    let mut e = Engine::new(TICK, None);
    let started = PlayerEvent::PlayerStarted {
        player_owner_name: ":1.4".to_string(),
    };
    e.handle_player_event(0, started, None, Some(playing_state(0, 0)))
        .unwrap();
    let r = e.handle_player_event(
        5,
        PlayerEvent::PlaybackStatusChange(PlaybackStatus::Paused),
        None,
        None,
    );
    assert_eq!(r, Err(ReduceError::MissingPosition));
    assert!(e.has_player_state());
}

#[test]
fn metadata_change_requests_watch_move() {
    let mut e = Engine::new(TICK, None);
    let md = Metadata {
        file_path: "/tunes/next.ogg".to_string(),
    };
    let w = e
        .handle_player_event(0, PlayerEvent::MetadataChange(Some(md)), None, None)
        .unwrap();
    assert_eq!(w, Some(Some("/tunes/next.lrc".to_string())));
    let w2 = e
        .handle_player_event(1, PlayerEvent::MetadataChange(None), None, None)
        .unwrap();
    assert_eq!(w2, Some(None));
}

#[test]
fn fixed_lyrics_path_pins_the_watch() {
    let mut e = Engine::new(TICK, Some("/fixed/path.lrc".to_string()));
    let md = Metadata {
        file_path: "/tunes/next.ogg".to_string(),
    };
    let w = e
        .handle_player_event(0, PlayerEvent::MetadataChange(Some(md)), None, None)
        .unwrap();
    assert_eq!(w, None);
}

#[test]
fn shutdown_clears_watch_and_state() {
    let mut e = Engine::new(TICK, None);
    e.handle_player_event(
        0,
        PlayerEvent::PlayerStarted {
            player_owner_name: ":1.4".to_string(),
        },
        None,
        Some(playing_state(0, 0)),
    )
    .unwrap();
    let w = e
        .handle_player_event(1, PlayerEvent::PlayerShutDown, None, None)
        .unwrap();
    assert_eq!(w, Some(None));
    assert!(!e.has_player_state());
    assert_eq!(e.after_events(2), None);
}

#[test]
fn stopped_player_does_not_advance() {
    let mut e = Engine::new(TICK, None);
    e.handle_player_event(
        0,
        PlayerEvent::PlayerStarted {
            player_owner_name: ":1.4".to_string(),
        },
        None,
        Some(playing_state(1_500_000, 0)),
    )
    .unwrap();
    e.handle_lyrics_event(Some(three_marks()));
    e.after_events(0);
    e.handle_player_event(
        1,
        PlayerEvent::PlaybackStatusChange(PlaybackStatus::Stopped),
        None,
        None,
    )
    .unwrap();
    assert_eq!(e.on_tick(10_000_000), None);
}
