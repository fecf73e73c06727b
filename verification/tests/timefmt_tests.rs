use workwatch::timefmt::compact_format;
use workwatch::timefmt::dec_string;
use workwatch::timefmt::pad2_string;
use workwatch::timefmt::verbose_format;

#[test]
fn seconds_tier() {
    assert_eq!(compact_format(5), "05");
    assert_eq!(verbose_format(5), "5 Seconds");
}

#[test]
fn minutes_tier() {
    assert_eq!(compact_format(125), "02:05");
    assert_eq!(verbose_format(125), "2 Minutes, 5 Seconds");
}

#[test]
fn hours_tier() {
    assert_eq!(compact_format(3725), "01:02:05");
    assert_eq!(verbose_format(3725), "1 Hours, 2 Minutes, 5 Seconds");
}

#[test]
fn days_tier() {
    assert_eq!(compact_format(90065), "1:01:01:05");
    assert_eq!(verbose_format(90065), "1 Days, 1 Hours, 1 Minutes, 5 Seconds");
}

#[test]
fn zero_elapsed_falls_back_to_seconds() {
    assert_eq!(compact_format(0), "00");
    assert_eq!(verbose_format(0), "0 Seconds");
}

#[test]
fn exact_unit_boundaries() {
    assert_eq!(compact_format(60), "01:00");
    assert_eq!(compact_format(3600), "01:00:00");
    assert_eq!(compact_format(86400), "1:00:00:00");
    assert_eq!(verbose_format(60), "1 Minutes, 0 Seconds");
    assert_eq!(verbose_format(86400), "1 Days, 0 Hours, 0 Minutes, 0 Seconds");
}

#[test]
fn wide_day_field_is_unpadded() {
    // 12 days, 3 hours, 4 minutes, 5 seconds
    let t = 12 * 86400 + 3 * 3600 + 4 * 60 + 5;
    assert_eq!(compact_format(t), "12:03:04:05");
    assert_eq!(verbose_format(t), "12 Days, 3 Hours, 4 Minutes, 5 Seconds");
}

#[test]
fn decimal_helpers() {
    assert_eq!(dec_string(0), "0");
    assert_eq!(dec_string(409), "409");
    assert_eq!(pad2_string(7), "07");
    assert_eq!(pad2_string(42), "42");
    assert_eq!(pad2_string(123), "123");
}
