use playback_core::parse_timestamp;
use playback_core::parse_u64;
use playback_core::seek_target;
use playback_core::split_minutes;
use playback_core::to_seconds;
use playback_core::trim_spaces;
use playback_core::SeekType;

#[test]
fn parse_bare_seconds() {
    assert_eq!(parse_timestamp("90"), Some(SeekType::Absolute(90)));
    assert_eq!(parse_timestamp("0"), Some(SeekType::Absolute(0)));
    assert_eq!(parse_timestamp("007"), Some(SeekType::Absolute(7)));
}

#[test]
fn parse_clock_form() {
    assert_eq!(parse_timestamp("1:30"), Some(SeekType::Absolute(90)));
    assert_eq!(parse_timestamp("0:05"), Some(SeekType::Absolute(5)));
    assert_eq!(parse_timestamp("10:00"), Some(SeekType::Absolute(600)));
}

#[test]
fn parse_relative_forms() {
    assert_eq!(parse_timestamp("+10"), Some(SeekType::Relative(10)));
    assert_eq!(parse_timestamp("-10"), Some(SeekType::Relative(-10)));
    assert_eq!(parse_timestamp("+1:30"), Some(SeekType::Relative(90)));
    assert_eq!(parse_timestamp("-2:05"), Some(SeekType::Relative(-125)));
}

#[test]
fn parse_trims_whitespace() {
    assert_eq!(parse_timestamp("  2:05  "), Some(SeekType::Absolute(125)));
    assert_eq!(parse_timestamp("\t+5\n"), Some(SeekType::Relative(5)));
    assert_eq!(trim_spaces("  a b \t"), "a b");
}

#[test]
fn parse_rejects_invalid_forms() {
    assert_eq!(parse_timestamp(""), None);
    assert_eq!(parse_timestamp("   "), None);
    assert_eq!(parse_timestamp("+"), None);
    assert_eq!(parse_timestamp("-"), None);
    assert_eq!(parse_timestamp("abc"), None);
    assert_eq!(parse_timestamp("xx:34"), None);
    assert_eq!(parse_timestamp("1:xx"), None);
    assert_eq!(parse_timestamp("1:75"), None);
    assert_eq!(parse_timestamp("1:2:3"), None);
    assert_eq!(parse_timestamp("1:-2"), None);
    assert_eq!(parse_timestamp("--5"), None);
}

#[test]
fn parse_relative_magnitude_must_fit_signed() {
    assert_eq!(
        parse_timestamp("9223372036854775807"),
        Some(SeekType::Absolute(9223372036854775807))
    );
    assert_eq!(parse_timestamp("+9223372036854775807"), Some(SeekType::Relative(9223372036854775807)));
    assert_eq!(parse_timestamp("+9223372036854775808"), None);
    assert_eq!(parse_timestamp("-9223372036854775808"), None);
}

#[test]
fn parse_u64_exact() {
    assert_eq!(parse_u64("42"), Some(42));
    assert_eq!(parse_u64(""), None);
    assert_eq!(parse_u64("4a2"), None);
    assert_eq!(parse_u64("18446744073709551615"), Some(u64::MAX));
    assert_eq!(parse_u64("18446744073709551616"), None);
}

#[test]
fn to_seconds_combines_minutes() {
    assert_eq!(to_seconds(Some(2), Some(5)), Some(125));
    assert_eq!(to_seconds(None, Some(75)), Some(75));
    assert_eq!(to_seconds(Some(1), Some(75)), None);
    assert_eq!(to_seconds(Some(1), None), None);
    assert_eq!(to_seconds(None, None), None);
    assert_eq!(to_seconds(Some(u64::MAX), Some(0)), None);
}

#[test]
fn scenario_negative_seek_rejected() {
    // relative -10 at position 5s: outside the track, no player call owed
    assert_eq!(seek_target(SeekType::Relative(-10), 5, Some(300)), None);
}

#[test]
fn seek_target_bounds() {
    assert_eq!(seek_target(SeekType::Relative(-3), 5, Some(300)), Some(2));
    assert_eq!(seek_target(SeekType::Relative(7), 5, Some(13)), Some(12));
    assert_eq!(seek_target(SeekType::Relative(8), 5, Some(13)), None);
    assert_eq!(seek_target(SeekType::Absolute(9), 0, Some(10)), Some(9));
    assert_eq!(seek_target(SeekType::Absolute(10), 0, Some(10)), None);
    assert_eq!(seek_target(SeekType::Absolute(1000), 0, None), Some(1000));
    assert_eq!(seek_target(SeekType::Relative(-5), 5, Some(10)), Some(0));
}

#[test]
fn split_minutes_exact() {
    assert_eq!(split_minutes(125), (2, 5));
    assert_eq!(split_minutes(0), (0, 0));
    assert_eq!(split_minutes(60), (1, 0));
    assert_eq!(split_minutes(59), (0, 59));
}
