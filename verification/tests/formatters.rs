use lrcshow_rs::formatters::format_duration;

#[test]
fn test_regular() {
    assert_eq!(format_duration(62550), "01:02.55");
}

#[test]
fn test_zero_duration() {
    assert_eq!(format_duration(0), "00:00.00");
}

#[test]
fn test_more_than_an_hour() {
    assert_eq!(format_duration(3720910), "62:00.91");
}

#[test]
fn test_round_up() {
    assert_eq!(format_duration(96), "00:00.10");
}

#[test]
fn test_round_down() {
    assert_eq!(format_duration(164), "00:00.16");
}

#[test]
fn test_minutes_wider_than_two_digits() {
    assert_eq!(format_duration(6_000_000), "100:00.00");
}

#[test]
fn test_rounds_up_to_next_minute() {
    assert_eq!(format_duration(90_000), "02:30.00");
}
