use lrcshow_rs::events::PlaybackStatus;
use lrcshow_rs::events::PlayerEvent;
use lrcshow_rs::player::classify_name_owner_change;
use lrcshow_rs::player::parse_playback_status;
use lrcshow_rs::player::parse_player_position;

#[test]
fn playback_status_strings() {
    assert_eq!(parse_playback_status("Playing"), Ok(PlaybackStatus::Playing));
    assert_eq!(parse_playback_status("Paused"), Ok(PlaybackStatus::Paused));
    assert_eq!(parse_playback_status("Stopped"), Ok(PlaybackStatus::Stopped));
    assert!(parse_playback_status("Buffering").is_err());
    assert!(parse_playback_status("").is_err());
}

#[test]
fn position_must_not_be_negative() {
    assert_eq!(parse_player_position(41_337_000), Ok(41_337_000));
    assert_eq!(parse_player_position(0), Ok(0));
    assert!(parse_player_position(-1).is_err());
}

#[test]
fn owner_change_of_other_names_is_ignored() {
    let r = classify_name_owner_change(
        "org.mpris.MediaPlayer2.other".to_string(),
        &"".to_string(),
        &":1.5".to_string(),
        &"org.mpris.MediaPlayer2.player".to_string(),
    );
    assert!(r.is_none());
}

#[test]
fn empty_old_owner_means_shutdown() {
    let r = classify_name_owner_change(
        "org.mpris.MediaPlayer2.player".to_string(),
        &"".to_string(),
        &":1.5".to_string(),
        &"org.mpris.MediaPlayer2.player".to_string(),
    );
    assert!(matches!(r, Some(PlayerEvent::PlayerShutDown)));
}

#[test]
fn empty_new_owner_means_started() {
    let r = classify_name_owner_change(
        "org.mpris.MediaPlayer2.player".to_string(),
        &":1.4".to_string(),
        &"".to_string(),
        &"org.mpris.MediaPlayer2.player".to_string(),
    );
    match r {
        Some(PlayerEvent::PlayerStarted { player_owner_name }) => {
            assert_eq!(player_owner_name, "org.mpris.MediaPlayer2.player");
        }
        other => panic!("unexpected classification: {:?}", other),
    }
}
