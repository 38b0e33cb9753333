//! Persisted record format: round trips, default-to-zero fallbacks, and
//! tolerance for surrounding whitespace.

use suzui_rs::trip_record::{format_trip_record, parse_trip_record};

#[test]
fn format_is_three_comma_separated_decimals() {
    assert_eq!(format_trip_record(1, 2, 3), b"1,2,3".to_vec());
    assert_eq!(format_trip_record(0, 0, 0), b"0,0,0".to_vec());
    assert_eq!(
        format_trip_record(1_234_567_890, 42, 0),
        b"1234567890,42,0".to_vec()
    );
}

#[test]
fn round_trip_recovers_the_triple() {
    let cases: Vec<(u128, u128, u128)> = vec![
        (0, 0, 0),
        (1, 2, 3),
        (100_000, 15_564_800_000, 15_564_800_000),
        (123_456_789_012_345_678_901_234_567_890, 9, 10),
        (u128::MAX, u128::MAX, u128::MAX),
    ];
    for (d, f, t) in cases {
        let bytes = format_trip_record(d, f, t);
        assert_eq!(parse_trip_record(&bytes), (d, f, t));
    }
}

#[test]
fn missing_record_reads_as_zeroes() {
    assert_eq!(parse_trip_record(b""), (0, 0, 0));
    assert_eq!(parse_trip_record(b"   \n"), (0, 0, 0));
}

#[test]
fn corrupt_record_reads_as_zeroes() {
    assert_eq!(parse_trip_record(b"garbage"), (0, 0, 0));
    assert_eq!(parse_trip_record(b",,"), (0, 0, 0));
    // A field that is not a plain decimal number falls back alone.
    assert_eq!(parse_trip_record(b"12.5,3,4"), (0, 3, 4));
    assert_eq!(parse_trip_record(b"1,-2,3"), (1, 0, 3));
    // A value too large for the counter type falls back too.
    assert_eq!(
        parse_trip_record(b"9999999999999999999999999999999999999999,5,6"),
        (0, 5, 6)
    );
}

#[test]
fn short_record_fills_missing_fields_with_zeroes() {
    assert_eq!(parse_trip_record(b"7"), (7, 0, 0));
    assert_eq!(parse_trip_record(b"7,8"), (7, 8, 0));
    assert_eq!(parse_trip_record(b"7,8,"), (7, 8, 0));
}

#[test]
fn extra_fields_are_ignored() {
    assert_eq!(parse_trip_record(b"7,8,9,10,11"), (7, 8, 9));
}

#[test]
fn surrounding_whitespace_is_trimmed() {
    assert_eq!(parse_trip_record(b" 7,8,9\n"), (7, 8, 9));
    assert_eq!(parse_trip_record(b"\t7,8,9\r\n"), (7, 8, 9));
    // Whitespace inside a field is not tolerated; that field reads zero.
    assert_eq!(parse_trip_record(b"7, 8,9"), (7, 0, 9));
}
