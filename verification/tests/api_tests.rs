use winderoo_firmware::api::{bit_string, flag_of_number, ApiError, PowerPayload, ResetResponse, UpdatePayload};
use winderoo_firmware::model::{UpdateAction, UpdateRequest};

fn payload() -> UpdatePayload {
    // The decoded form of the frontend's update JSON.
    UpdatePayload {
        rotation_direction: "BOTH".to_string(),
        rotations_per_day: "220".to_string(),
        action: "START".to_string(),
        hour: "09".to_string(),
        minutes: "30".to_string(),
        timer_enabled: "1".to_string(),
        screen_sleep: false,
        screen_schedule_enabled: None,
        screen_schedule_start_time: None,
        screen_schedule_end_time: None,
        custom_wind_duration: "180".to_string(),
        custom_wind_pause_duration: "15".to_string(),
        rotation_duration_secs: "8".to_string(),
        rtc_gmt_offset_secs: 0,
        rtc_dst: false,
    }
}

#[test]
fn update_payload_parses_strings() {
    let request = UpdateRequest::try_from(payload()).expect("request");
    assert_eq!(request.rotations_per_day, 220);
    assert_eq!(request.action, UpdateAction::Start);
    assert!(request.timer_enabled);
}

#[test]
fn power_payload_parses_numeric() {
    // `{ "winderEnabled": 1 }`: a numeric flag.
    let payload = PowerPayload { winder_enabled: flag_of_number(1) };
    assert!(payload.winder_enabled);
}

#[test]
fn numeric_flags() {
    assert!(!flag_of_number(0));
    assert!(flag_of_number(-3));
    assert_eq!(bit_string(true), "1");
    assert_eq!(bit_string(false), "0");
}

#[test]
fn update_errors_name_the_field() {
    let mut p = payload();
    p.rotation_direction = "UP".to_string();
    assert_eq!(UpdateRequest::try_from(p), Err(ApiError::InvalidDirection("UP".to_string())));

    let mut p = payload();
    p.action = "GO".to_string();
    assert_eq!(UpdateRequest::try_from(p), Err(ApiError::InvalidAction("GO".to_string())));

    let mut p = payload();
    p.timer_enabled = "maybe".to_string();
    assert_eq!(UpdateRequest::try_from(p), Err(ApiError::InvalidFlag("maybe".to_string())));

    let mut p = payload();
    p.screen_schedule_start_time = Some("25:00".to_string());
    assert_eq!(UpdateRequest::try_from(p), Err(ApiError::InvalidTime("25:00".to_string())));

    let mut p = payload();
    p.rotations_per_day = "70000".to_string();
    assert!(matches!(UpdateRequest::try_from(p), Err(ApiError::InvalidNumber { .. })));
}

#[test]
fn update_action_parse() {
    assert_eq!(UpdateAction::parse("START"), Ok(UpdateAction::Start));
    assert_eq!(UpdateAction::parse("STOP"), Ok(UpdateAction::Stop));
    assert_eq!(UpdateAction::parse("start"), Err(ApiError::InvalidAction("start".to_string())));
}

#[test]
fn api_error_messages() {
    assert_eq!(ApiError::InvalidDirection("UP".to_string()).to_string(), "invalid direction: UP");
    assert_eq!(ApiError::InvalidFlag("x".to_string()).to_string(), "invalid boolean flag: x");
}

#[test]
fn reset_response_says_resetting() {
    assert_eq!(ResetResponse::new().status, "Resetting");
}
