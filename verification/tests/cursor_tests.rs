use lrcshow_rs::cursor::LrcTimedTextState;
use lrcshow_rs::lrc::Lyrics;
use lrcshow_rs::lrc::LyricsTiming;

const TICK: u64 = 16_000;

fn mark(time_us: u64, line: i32) -> LyricsTiming {
    LyricsTiming {
        time: time_us,
        line_index: line,
        line_char_from_index: 0,
        line_char_to_index: 0,
    }
}

fn three_marks() -> Lyrics {
    Lyrics {
        lines: vec!["a".to_string(), "b".to_string(), "c".to_string()],
        timings: vec![mark(0, 0), mark(1_000_000, 1), mark(2_000_000, 2)],
    }
}

#[test]
fn resync_lands_between_marks() {
    let l = three_marks();
    let c = LrcTimedTextState::new(&l, 1_500_000);
    assert_eq!(c.current(&l), Some(mark(1_000_000, 1)));
    assert_eq!(c.next(&l), Some(mark(2_000_000, 2)));
}

#[test]
fn advance_respects_half_tick_tolerance() {
    let l = three_marks();
    let mut c = LrcTimedTextState::new(&l, 1_500_000);
    assert_eq!(c.on_position_advanced(&l, 1_990_000, TICK), None);
    assert_eq!(
        c.on_position_advanced(&l, 1_993_000, TICK),
        Some(mark(2_000_000, 2))
    );
    assert_eq!(c.current(&l), Some(mark(2_000_000, 2)));
    assert_eq!(c.next(&l), None);
}

#[test]
fn resync_before_first_mark() {
    let l = Lyrics {
        lines: vec!["a".to_string()],
        timings: vec![mark(5_000_000, 0)],
    };
    let c = LrcTimedTextState::new(&l, 1_000_000);
    assert_eq!(c.current(&l), None);
    assert_eq!(c.next(&l), Some(mark(5_000_000, 0)));
}

#[test]
fn empty_marks_have_no_current_or_next() {
    let l = Lyrics {
        lines: Vec::new(),
        timings: Vec::new(),
    };
    for pos in [0u64, 1, 1_000_000, u64::MAX] {
        let mut c = LrcTimedTextState::new(&l, pos);
        assert_eq!(c.current(&l), None);
        assert_eq!(c.next(&l), None);
        assert_eq!(c.on_position_advanced(&l, pos, TICK), None);
    }
}

#[test]
fn resync_then_advance_is_idempotent_outside_tolerance() {
    let l = three_marks();
    let mut c = LrcTimedTextState::new(&l, 1_500_000);
    assert_eq!(c.on_position_advanced(&l, 1_500_000, TICK), None);
    assert_eq!(c.current(&l), Some(mark(1_000_000, 1)));
}

#[test]
fn reload_with_identical_prefix_keeps_cursor() {
    let old = Lyrics {
        lines: vec!["a".to_string(), "b".to_string()],
        timings: vec![mark(0, 0), mark(1_000_000, 1)],
    };
    let new = three_marks();
    let pos = 500_000;
    let c_old = LrcTimedTextState::new(&old, pos);
    let c_new = LrcTimedTextState::new(&new, pos);
    assert_eq!(c_old.current(&old), c_new.current(&new));
    assert_eq!(c_old.next(&old), c_new.next(&new));
}
