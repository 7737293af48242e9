use winderoo_firmware::model::{Direction, MotorDirection, WinderStatus};
use winderoo_firmware::settings::{SettingsError, StoredSettings};
use winderoo_firmware::time::TimeError;

#[test]
fn default_settings_round_trip() {
    let stored = StoredSettings::default();
    let runtime = stored.to_runtime(true).expect("runtime state");
    let stored_again = StoredSettings::from_runtime(&runtime);
    assert_eq!(stored.status, stored_again.status);
    assert_eq!(stored.rotations_per_day, stored_again.rotations_per_day);
    assert_eq!(stored.direction, stored_again.direction);
}

#[test]
fn parse_timer_enabled_flag() {
    let mut stored = StoredSettings::default();
    stored.timer_enabled = "1".to_string();
    let runtime = stored.to_runtime(false).expect("runtime state");
    assert!(runtime.timer.enabled);
}

#[test]
fn default_settings_values() {
    let runtime = StoredSettings::default().to_runtime(true).expect("runtime state");
    assert_eq!(runtime.status, WinderStatus::Stopped);
    assert_eq!(runtime.rotations_per_day, 220);
    assert_eq!(runtime.direction, Direction::Both);
    assert_eq!(runtime.motor_direction, MotorDirection::CounterClockwise);
    assert_eq!(runtime.custom_wind_duration_secs, 180);
    assert_eq!(runtime.custom_wind_pause_secs, 15);
    assert!(runtime.winder_enabled);
    assert!(runtime.screen.equipped);
}

#[test]
fn invalid_number_is_reported() {
    let mut stored = StoredSettings::default();
    stored.rotations_per_day = "abc".to_string();
    assert!(matches!(stored.to_runtime(true), Err(SettingsError::InvalidNumber { .. })));
}

#[test]
fn invalid_direction_is_reported() {
    let mut stored = StoredSettings::default();
    stored.direction = "LEFT".to_string();
    assert_eq!(stored.to_runtime(true).err(), Some(SettingsError::InvalidDirection("LEFT".to_string())));
}

#[test]
fn invalid_flag_is_reported() {
    let mut stored = StoredSettings::default();
    stored.timer_enabled = "yes".to_string();
    assert_eq!(stored.to_runtime(true).err(), Some(SettingsError::InvalidFlag("yes".to_string())));
}

#[test]
fn invalid_hour_is_reported() {
    let mut stored = StoredSettings::default();
    stored.hour = "25".to_string();
    assert_eq!(stored.to_runtime(true).err(), Some(SettingsError::Time(TimeError::InvalidHour(25))));
}

#[test]
fn invalid_schedule_time_is_reported() {
    let mut stored = StoredSettings::default();
    stored.screen_schedule_start_time = "7".to_string();
    assert_eq!(
        stored.to_runtime(true).err(),
        Some(SettingsError::Time(TimeError::InvalidFormat("7".to_string())))
    );
}

#[test]
fn runtime_round_trip_keeps_every_field() {
    let mut stored = StoredSettings::default();
    stored.status = "Winding".to_string();
    stored.rotations_per_day = "300".to_string();
    stored.hour = "07".to_string();
    stored.minutes = "45".to_string();
    stored.timer_enabled = "1".to_string();
    stored.direction = "CW".to_string();
    stored.gmt_offset_secs = -3600;
    stored.dst = true;
    stored.screen_schedule_enabled = true;
    stored.screen_schedule_start_time = "22:00".to_string();
    stored.screen_schedule_end_time = "06:30".to_string();
    stored.screen_sleep = true;
    let runtime = stored.to_runtime(false).expect("runtime state");
    let again = StoredSettings::from_runtime(&runtime);
    assert_eq!(again, stored);
}
