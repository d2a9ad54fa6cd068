use fi_grafana::date::{from_datetime_to_epoch_time_millis, parse_datetime_to_epoch_time_millis};
use fi_grafana::error::GrafanaCliError;

#[test]
fn epoch_origin_maps_to_zero() {
    assert_eq!(from_datetime_to_epoch_time_millis("1970-01-01 00:00").unwrap(), 0);
}

#[test]
fn exact_value_after_leap_day() {
    // 2024 is a leap year: 2024-03-01 00:00 UTC is 1709251200 seconds.
    assert_eq!(
        from_datetime_to_epoch_time_millis("2024-03-01 12:30").unwrap(),
        1_709_296_200_000
    );
}

#[test]
fn exact_value_on_leap_day_of_a_century_leap_year() {
    // 2000 is divisible by 400, so February has 29 days.
    assert_eq!(
        from_datetime_to_epoch_time_millis("2000-02-29 23:59").unwrap(),
        951_868_740_000
    );
}

#[test]
fn pre_epoch_datetimes_are_negative() {
    assert_eq!(
        from_datetime_to_epoch_time_millis("1969-12-31 23:59").unwrap(),
        -60_000
    );
}

#[test]
fn earliest_four_digit_year() {
    // 0001-01-01 00:00 UTC is -62135596800 seconds.
    assert_eq!(
        from_datetime_to_epoch_time_millis("0001-01-01 00:00").unwrap(),
        -62_135_596_800_000
    );
}

#[test]
fn century_non_leap_year_rejects_february_29() {
    // 1900 is divisible by 100 but not by 400.
    assert!(from_datetime_to_epoch_time_millis("1900-02-29 00:00").is_err());
}

#[test]
fn ordinary_non_leap_year_rejects_february_29() {
    assert!(from_datetime_to_epoch_time_millis("2023-02-29 10:00").is_err());
}

#[test]
fn out_of_range_fields_are_rejected() {
    assert!(from_datetime_to_epoch_time_millis("2024-13-01 00:00").is_err());
    assert!(from_datetime_to_epoch_time_millis("2024-00-10 00:00").is_err());
    assert!(from_datetime_to_epoch_time_millis("2024-04-31 00:00").is_err());
    assert!(from_datetime_to_epoch_time_millis("2024-01-00 00:00").is_err());
    assert!(from_datetime_to_epoch_time_millis("2024-01-01 24:00").is_err());
    assert!(from_datetime_to_epoch_time_millis("2024-01-01 23:60").is_err());
}

#[test]
fn shape_violations_are_rejected() {
    assert!(from_datetime_to_epoch_time_millis("").is_err());
    assert!(from_datetime_to_epoch_time_millis("2024-1-1 00:00").is_err());
    assert!(from_datetime_to_epoch_time_millis("2024-01-01T00:00").is_err());
    assert!(from_datetime_to_epoch_time_millis("2024/01/01 00:00").is_err());
    assert!(from_datetime_to_epoch_time_millis("abcd-ef-gh ij:kl").is_err());
    assert!(from_datetime_to_epoch_time_millis("2024-01-01 00:00:00").is_err());
}

#[test]
fn rejection_reports_the_malformed_input() {
    match from_datetime_to_epoch_time_millis("not a datetime!!") {
        Err(GrafanaCliError::CanNotParseDateTimeToEpochTimeMillis(d)) => {
            assert_eq!(d, "not a datetime!!");
        }
        _ => panic!("expected the datetime parse error"),
    }
}

#[test]
fn optional_parse_round_trip() {
    // A valid canonical datetime converts to its epoch milliseconds; a
    // malformed one is rejected, never silently defaulted.
    assert_eq!(
        parse_datetime_to_epoch_time_millis(&Some(String::from("2024-03-01 12:30"))),
        Some(1_709_296_200_000)
    );
    assert_eq!(
        parse_datetime_to_epoch_time_millis(&Some(String::from("2024-03-01 12:3x"))),
        None
    );
    assert_eq!(parse_datetime_to_epoch_time_millis(&None), None);
}
