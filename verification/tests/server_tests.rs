use lrcshow_rs::lrc::LyricsTiming;
use lrcshow_rs::server_data::ServerData;

fn mark(time_us: u64) -> LyricsTiming {
    LyricsTiming {
        time: time_us,
        line_index: 2,
        line_char_from_index: 3,
        line_char_to_index: 7,
    }
}

#[test]
fn repeated_segment_announcement_is_suppressed() {
    let mut sd = ServerData::new();
    assert!(sd.on_active_lyrics_segment_changed(Some(mark(1_000_000))));
    assert!(!sd.on_active_lyrics_segment_changed(Some(mark(1_000_000))));
    assert!(sd.on_active_lyrics_segment_changed(Some(mark(2_000_000))));
    assert!(sd.on_active_lyrics_segment_changed(None));
    assert!(!sd.on_active_lyrics_segment_changed(None));
}

#[test]
fn initial_absent_segment_is_not_announced() {
    let mut sd = ServerData::new();
    assert!(!sd.on_active_lyrics_segment_changed(None));
}

#[test]
fn lyrics_queries_reflect_published_lines() {
    let mut sd = ServerData::new();
    assert!(sd.get_current_lyrics().is_empty());
    let lines = vec!["one".to_string(), "two".to_string()];
    sd.on_lyrics_changed(Some(lines.clone()));
    assert_eq!(sd.get_current_lyrics(), lines);
    sd.on_lyrics_changed(None);
    assert!(sd.get_current_lyrics().is_empty());
}

#[test]
fn position_query_reports_active_mark_or_sentinel() {
    let mut sd = ServerData::new();
    assert_eq!(sd.get_current_lyrics_position(), (-1, -1, -1));
    sd.on_active_lyrics_segment_changed(Some(mark(1_000_000)));
    assert_eq!(sd.get_current_lyrics_position(), (2, 3, 7));
    sd.on_active_lyrics_segment_changed(None);
    assert_eq!(sd.get_current_lyrics_position(), (-1, -1, -1));
}
