use judge_core::limits::{parse_memory_limit, parse_time_limit};

#[test]
fn time_limits_in_milliseconds() {
    assert_eq!(parse_time_limit("1000"), Some(1000));
    assert_eq!(parse_time_limit("1000ms"), Some(1000));
    assert_eq!(parse_time_limit("1000 ms"), Some(1000));
    assert_eq!(parse_time_limit("1000MS"), Some(1000));
    assert_eq!(parse_time_limit("  2500 ms  "), Some(2500));
}

#[test]
fn time_limits_in_seconds_scale_by_a_thousand() {
    assert_eq!(parse_time_limit("1s"), Some(1000));
    assert_eq!(parse_time_limit("2 s"), Some(2000));
    assert_eq!(parse_time_limit("10S"), Some(10000));
}

#[test]
fn bad_time_limits_parse_to_nothing() {
    assert_eq!(parse_time_limit(""), None);
    assert_eq!(parse_time_limit("fast"), None);
    assert_eq!(parse_time_limit("s"), None);
    assert_eq!(parse_time_limit("ms"), None);
    assert_eq!(parse_time_limit("-5"), None);
    assert_eq!(parse_time_limit("12.5s"), None);
    // Four million seconds do not fit a millisecond count.
    assert_eq!(parse_time_limit("4294968s"), None);
    assert_eq!(parse_time_limit("99999999999999999999"), None);
}

#[test]
fn memory_limits_in_megabytes() {
    assert_eq!(parse_memory_limit("512"), Some(512));
    assert_eq!(parse_memory_limit("512MB"), Some(512));
    assert_eq!(parse_memory_limit("512 MB"), Some(512));
    assert_eq!(parse_memory_limit("512mb"), Some(512));
    assert_eq!(parse_memory_limit(" 256 mB "), Some(256));
}

#[test]
fn bad_memory_limits_parse_to_nothing() {
    assert_eq!(parse_memory_limit(""), None);
    assert_eq!(parse_memory_limit("MB"), None);
    assert_eq!(parse_memory_limit("lots"), None);
    assert_eq!(parse_memory_limit("-1"), None);
}
