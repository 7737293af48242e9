use winderoo_firmware::time::{
    epoch_with_offset, offset_hours_string, offset_seconds, parse_offset_hours, time_of_day_from_epoch, TimeError,
    TimeOfDay,
};

#[test]
fn parse_valid_time() {
    let time = TimeOfDay::parse_hh_mm("09:05").expect("valid time");
    assert_eq!(time.hour, 9);
    assert_eq!(time.minute, 5);
    assert_eq!(time.to_hh_mm(), "09:05");
}

#[test]
fn reject_invalid_time() {
    assert!(TimeOfDay::parse_hh_mm("24:00").is_err());
    assert!(TimeOfDay::parse_hh_mm("10:60").is_err());
    assert!(TimeOfDay::parse_hh_mm("10").is_err());
    assert!(TimeOfDay::parse_hh_mm("10:00:00").is_err());
}

#[test]
fn total_minutes() {
    let time = TimeOfDay::new(2, 30).unwrap();
    assert_eq!(time.total_minutes(), 150);
}

#[test]
fn epoch_to_time_of_day_with_offset() {
    // 01:30 UTC, offset +2 h => 03:30
    let time = time_of_day_from_epoch(90 * 60, 7200, false);
    assert_eq!(time, TimeOfDay::new(3, 30).unwrap());
}

#[test]
fn epoch_to_time_of_day_with_dst() {
    // 23:30 UTC, offset -5 h with DST => 19:30
    let epoch = 23 * 3600 + 30 * 60;
    let time = time_of_day_from_epoch(epoch, -18_000, true);
    assert_eq!(time, TimeOfDay::new(19, 30).unwrap());
}

#[test]
fn epoch_with_offset_shifts_seconds() {
    // 01:00 UTC, offset +2 h => local epoch corresponds to 03:00 UTC.
    let epoch = 3600;
    assert_eq!(epoch_with_offset(epoch, 7200, false), 10_800);
}

#[test]
fn epoch_with_offset_preserves_zero() {
    assert_eq!(epoch_with_offset(0, 18_000, true), 0);
}

#[test]
fn time_new_rejects_each_field() {
    assert_eq!(TimeOfDay::new(24, 0), Err(TimeError::InvalidHour(24)));
    assert_eq!(TimeOfDay::new(23, 60), Err(TimeError::InvalidMinute(60)));
    assert_eq!(TimeOfDay::new(23, 59), Ok(TimeOfDay { hour: 23, minute: 59 }));
}

#[test]
fn parse_hh_mm_reports_format_errors() {
    assert_eq!(TimeOfDay::parse_hh_mm("9"), Err(TimeError::InvalidFormat("9".to_string())));
    assert_eq!(TimeOfDay::parse_hh_mm("ab:cd"), Err(TimeError::InvalidFormat("ab:cd".to_string())));
    assert_eq!(TimeOfDay::parse_hh_mm("24:00"), Err(TimeError::InvalidHour(24)));
    assert_eq!(TimeOfDay::parse_hh_mm("7:5"), Ok(TimeOfDay { hour: 7, minute: 5 }));
}

#[test]
fn hh_mm_round_trip_on_values() {
    for (h, m) in [(0u8, 0u8), (9, 5), (23, 59), (12, 30)] {
        let t = TimeOfDay::new(h, m).unwrap();
        assert_eq!(TimeOfDay::parse_hh_mm(&t.to_hh_mm()), Ok(t));
    }
}

#[test]
fn offset_seconds_adds_an_hour_for_dst() {
    assert_eq!(offset_seconds(7200, false), 7200);
    assert_eq!(offset_seconds(7200, true), 10_800);
    assert_eq!(offset_seconds(-18_000, true), -14_400);
}

#[test]
fn negative_local_epoch_is_clamped() {
    assert_eq!(epoch_with_offset(100, -3600, false), 0);
    assert_eq!(epoch_with_offset(3600, -3600, false), 0);
    assert_eq!(epoch_with_offset(3601, -3600, false), 1);
}

#[test]
fn time_of_day_wraps_across_midnight() {
    // 00:30 UTC at -1 h is 23:30 the day before.
    assert_eq!(time_of_day_from_epoch(30 * 60, -3600, false), TimeOfDay::new(23, 30).unwrap());
}

#[test]
fn offset_hours_text_round_trip() {
    assert_eq!(parse_offset_hours("2"), Some(7200));
    assert_eq!(parse_offset_hours("-5.5"), Some(-19_800));
    assert_eq!(parse_offset_hours("5.75"), Some(20_700));
    assert_eq!(parse_offset_hours("abc"), None);
    assert_eq!(offset_hours_string(7200), "2");
    assert_eq!(offset_hours_string(-19_800), "-5.5");
    assert_eq!(offset_hours_string(0), "0");
}

#[test]
fn offset_options_round_trip() {
    // Every UTC offset the Home Assistant select offers is published as itself.
    let options = [
        "-12", "-11", "-10", "-9.5", "-9", "-8", "-7", "-6", "-5", "-4.5", "-4", "-3.5", "-3", "-2", "-1", "0", "1",
        "2", "3", "3.5", "4", "4.5", "5", "5.5", "5.75", "6", "6.5", "7", "8", "8.75", "9", "9.5", "10", "10.5", "11",
        "11.5", "12", "12.75", "13", "14",
    ];
    for option in options {
        let secs = parse_offset_hours(option).expect("offset");
        assert_eq!(secs % 9, 0);
        assert_eq!(offset_hours_string(secs), option);
    }
}

#[test]
fn offset_hours_accept_exponent_notation() {
    assert_eq!(parse_offset_hours("1e1"), Some(36_000));
    assert_eq!(parse_offset_hours("-9.5E0"), Some(-34_200));
    assert_eq!(parse_offset_hours("5e-1"), Some(1_800));
    assert_eq!(parse_offset_hours("0.0575e2"), Some(20_700));
    assert_eq!(parse_offset_hours("+1.5e+0"), Some(5_400));
    assert_eq!(parse_offset_hours("1e-999"), Some(0));
    assert_eq!(parse_offset_hours("0e999"), Some(0));
    assert_eq!(parse_offset_hours("1e999"), None);
    assert_eq!(parse_offset_hours("1e"), None);
    assert_eq!(parse_offset_hours("e1"), None);
    assert_eq!(parse_offset_hours("1e1.5"), None);
    assert_eq!(parse_offset_hours("inf"), None);
}
