use dawn_telemetry::etime::parse_etime;

#[test]
fn parses_minutes_and_seconds() {
    assert_eq!(parse_etime("05:30"), Some(330));
    assert_eq!(parse_etime("0:00"), Some(0));
    assert_eq!(parse_etime("99:99"), Some(99 * 60 + 99));
}

#[test]
fn parses_hours_minutes_seconds() {
    assert_eq!(parse_etime("1:02:03"), Some(3723));
    assert_eq!(parse_etime("00:00:00"), Some(0));
}

#[test]
fn parses_days_prefix() {
    assert_eq!(parse_etime("2-03:04:05"), Some(2 * 86400 + 3 * 3600 + 4 * 60 + 5));
    assert_eq!(parse_etime("10-00:00:01"), Some(10 * 86400 + 1));
}

#[test]
fn malformed_day_or_hour_counts_as_zero() {
    // An unparsable day part falls back to zero days.
    assert_eq!(parse_etime("x-1:02:03"), Some(3600 + 2 * 60 + 3));
    // An unparsable hour part falls back to zero hours.
    assert_eq!(parse_etime("2-y:02:03"), Some(2 * 86400 + 2 * 60 + 3));
    // Two dashes make the whole first part unparsable: zero days and hours.
    assert_eq!(parse_etime("1-2-3:04:05"), Some(4 * 60 + 5));
    // A plain bad hour part counts as zero as well.
    assert_eq!(parse_etime("hh:02:03"), Some(123));
}

#[test]
fn rejects_wrong_shapes() {
    assert_eq!(parse_etime(""), None);
    assert_eq!(parse_etime("42"), None);
    assert_eq!(parse_etime("1:2:3:4"), None);
    assert_eq!(parse_etime("ab:cd"), None);
    assert_eq!(parse_etime("1:x"), None);
    assert_eq!(parse_etime("x:1"), None);
    assert_eq!(parse_etime("1:"), None);
    assert_eq!(parse_etime(":1"), None);
}

#[test]
fn accepts_leading_plus_like_a_decimal_parser() {
    assert_eq!(parse_etime("+5:10"), Some(310));
    assert_eq!(parse_etime("-5:10"), None);
}

#[test]
fn oversized_totals_yield_nothing() {
    assert_eq!(parse_etime("18446744073709551615:00"), None);
    assert_eq!(parse_etime("18446744073709551616:00"), None);
    assert_eq!(parse_etime("307445734561825860:00"), Some(18446744073709551600));
}
