use winderoo_firmware::embassy::tasks::{DispatchAction, EventQueue};
use winderoo_firmware::embassy::captive_portal::{dns_reply, DnsReply};
use winderoo_firmware::api::{PowerPayload, UpdatePayload};
use winderoo_firmware::controller::ControllerEvent;
use winderoo_firmware::embassy::http::{
    cors_preflight, handle_power, handle_reset, handle_status, handle_timer, handle_update, handle_wifi,
    parse_bool_any, ApiResponse, TimerBody, TimerValue,
};
use winderoo_firmware::embassy::sntp::{build_request_packet, parse_response_packet, SntpError, NTP_UNIX_DELTA};
use winderoo_firmware::embassy::state::{StatusCache, SystemSignals, WifiStatus};
use winderoo_firmware::embassy::tasks::{provisioning_success_events, RuntimeCommand, WifiLedIndicator};
use winderoo_firmware::embassy::time::{RtcClock, SoftwareRtc};
use winderoo_firmware::embassy::wifi::WifiCommand;
use winderoo_firmware::hardware::LedPattern;
use winderoo_firmware::model::{
    CycleProgress, Direction, MotorDirection, RoutineState, RtcConfig, RuntimeState, ScreenSchedule, ScreenState,
    SettingsSnapshot, StatusSnapshot, TimerConfig, WinderStatus,
};
use winderoo_firmware::time::TimeOfDay;

fn sample_state() -> RuntimeState {
    RuntimeState {
        status: WinderStatus::Stopped,
        rotations_per_day: 220,
        direction: Direction::Both,
        motor_direction: MotorDirection::Clockwise,
        timer: TimerConfig { enabled: false, start_time: TimeOfDay::new(0, 0).unwrap() },
        winder_enabled: true,
        custom_wind_duration_secs: 180,
        custom_wind_pause_secs: 15,
        rotation_duration_secs: 8,
        rtc: RtcConfig { gmt_offset_secs: 0, dst: false },
        screen: ScreenState {
            equipped: false,
            sleep: false,
            schedule: ScreenSchedule {
                enabled: false,
                start: TimeOfDay::new(0, 0).unwrap(),
                end: TimeOfDay::new(0, 0).unwrap(),
            },
        },
        routine: RoutineState::idle(),
        cycle_progress: CycleProgress::zero(),
    }
}

#[test]
fn build_request_packet_sets_mode() {
    let packet = build_request_packet();
    assert_eq!(packet.len(), 48);
    assert_eq!(packet[0], 0x23);
}

#[test]
fn parse_response_packet_extracts_unix_epoch() {
    let mut packet = [0u8; 48];
    let unix_epoch = 42u64;
    let ntp_seconds = unix_epoch + NTP_UNIX_DELTA;
    packet[40..44].copy_from_slice(&(ntp_seconds as u32).to_be_bytes());
    let parsed = parse_response_packet(&packet).expect("parse");
    assert_eq!(parsed, unix_epoch);
}

#[test]
fn parse_response_packet_rejects_short_payload() {
    let packet = [0u8; 10];
    assert_eq!(parse_response_packet(&packet), Err(SntpError::InvalidResponse));
}

#[test]
fn parse_response_packet_rejects_pre_1970_time() {
    let mut packet = [0u8; 48];
    packet[40..44].copy_from_slice(&((NTP_UNIX_DELTA - 1) as u32).to_be_bytes());
    assert_eq!(parse_response_packet(&packet), Err(SntpError::InvalidResponse));
    packet[40..44].copy_from_slice(&(NTP_UNIX_DELTA as u32).to_be_bytes());
    assert_eq!(parse_response_packet(&packet), Ok(0));
}

#[test]
fn request_packet_is_zero_after_mode_byte() {
    let packet = build_request_packet();
    assert!(packet[1..].iter().all(|b| *b == 0));
}

#[test]
fn status_cache_updates() {
    let snapshot = StatusSnapshot::from_state(&sample_state(), 0, -55, "test");
    let cache = StatusCache::new(snapshot.clone());
    assert_eq!(cache.snapshot(), snapshot);
}

#[test]
fn status_cache_replaces_snapshot() {
    let first = StatusSnapshot::from_state(&sample_state(), 0, -55, "test");
    let second = StatusSnapshot::from_state(&sample_state(), 99, -60, "test");
    let mut cache = StatusCache::new(first);
    cache.update(second.clone());
    assert_eq!(cache.snapshot(), second);
}

#[test]
fn system_signals_track_requests() {
    let mut signals = SystemSignals::new();
    let snapshot = SettingsSnapshot {
        status: WinderStatus::Stopped,
        rotations_per_day: 220,
        timer_enabled: false,
        timer_hour: 0,
        timer_minutes: 0,
        direction: Direction::Both,
        custom_wind_duration_secs: 180,
        custom_wind_pause_secs: 15,
        rotation_duration_secs: 8,
        gmt_offset_secs: 0,
        dst: false,
        screen_schedule_enabled: false,
        screen_schedule_start: TimeOfDay::new(0, 0).unwrap(),
        screen_schedule_end: TimeOfDay::new(0, 0).unwrap(),
        screen_sleep: false,
    };
    signals.request_persist(snapshot.clone());
    assert_eq!(signals.take_persist(), Some(snapshot));
    signals.request_sync();
    assert!(signals.take_sync());
    signals.request_restart();
    assert!(signals.take_restart());
}

#[test]
fn signals_are_taken_once() {
    let mut signals = SystemSignals::new();
    assert_eq!(signals.take_persist(), None);
    signals.request_sync();
    assert!(signals.take_sync());
    assert!(!signals.take_sync());
    assert!(!signals.take_restart());
}

#[test]
fn wifi_status_defaults_and_updates() {
    let mut status = WifiStatus::new();
    assert!(!status.is_connected());
    assert_eq!(status.rssi_db(), -100);
    status.set_connected(true);
    status.set_rssi_db(-47);
    assert!(status.is_connected());
    assert_eq!(status.rssi_db(), -47);
}

#[test]
fn provisioning_success_bundle_matches_expected_shape() {
    let events = provisioning_success_events();
    let mut expected = Vec::new();
    expected.push(ControllerEvent::DisplayNotification(String::from("Connected to WiFi")));
    expected.push(ControllerEvent::Led(LedPattern::SlowBlink));
    expected.push(ControllerEvent::RestartDevice);
    assert_eq!(events, expected);
}

#[test]
fn wifi_led_follows_connection_changes() {
    let mut led = WifiLedIndicator::new(false);
    assert_eq!(led.refresh(false), Some(LedPattern::On));
    assert_eq!(led.refresh(false), None);
    assert_eq!(led.refresh(true), Some(LedPattern::Off));
    assert_eq!(led.refresh(true), None);
}

#[test]
fn software_rtc_updates_epoch() {
    let mut rtc = SoftwareRtc::new(100);
    assert_eq!(rtc.now_epoch(), 100);
    rtc.advance(20);
    assert_eq!(rtc.now_epoch(), 120);
}

#[test]
fn software_rtc_saturates_and_sets() {
    let mut rtc = SoftwareRtc::new(u64::MAX - 1);
    rtc.advance(10);
    assert_eq!(rtc.now_epoch(), u64::MAX);
    rtc.set_epoch(23 * 3600 + 30 * 60);
    assert_eq!(rtc.now_time_of_day(), TimeOfDay::new(23, 30).unwrap());
}

fn update_payload() -> UpdatePayload {
    UpdatePayload {
        rotation_direction: "BOTH".to_string(),
        rotations_per_day: "220".to_string(),
        action: "STOP".to_string(),
        hour: "00".to_string(),
        minutes: "00".to_string(),
        timer_enabled: "0".to_string(),
        screen_sleep: false,
        screen_schedule_enabled: None,
        screen_schedule_start_time: None,
        screen_schedule_end_time: None,
        custom_wind_duration: "180".to_string(),
        custom_wind_pause_duration: "15".to_string(),
        rotation_duration_secs: "8".to_string(),
        rtc_gmt_offset_secs: 0,
        rtc_dst: false,
    }
}

#[test]
fn timer_query_sends_command() {
    let (command, response) = handle_timer(Some("1"), TimerBody::Empty);
    assert_eq!(response.status, 204);
    assert_eq!(command, Some(RuntimeCommand::ApplyTimer(true)));
}

#[test]
fn wifi_disabled_returns_503() {
    // Body `{"ssid":"ssid","password":"pass"}`, with provisioning disabled.
    let (command, response) = handle_wifi(false, Some(("ssid".to_string(), "pass".to_string())));
    assert_eq!(response.status, 503);
    assert!(command.is_none());
}

#[test]
fn power_payload_sends_command() {
    // Body `{"winderEnabled":true}`.
    let (command, response) = handle_power(Some(PowerPayload { winder_enabled: true }));
    assert_eq!(response.status, 204);
    assert_eq!(command, Some(RuntimeCommand::ApplyPower(true)));
}

#[test]
fn update_payload_sends_command() {
    let (command, response) = handle_update(Some(update_payload()));
    assert_eq!(response.status, 204);
    assert!(matches!(command, Some(RuntimeCommand::ApplyUpdate(_))));
}

#[test]
fn timer_body_parses_boolean_values() {
    // Body `{"timerEnabled":true}` and no query.
    let (command, response) = handle_timer(None, TimerBody::Value(TimerValue::Bool(true)));
    assert_eq!(response.status, 204);
    assert_eq!(command, Some(RuntimeCommand::ApplyTimer(true)));
}

#[test]
fn timer_errors_and_value_kinds() {
    let (c, r) = handle_timer(None, TimerBody::Empty);
    assert!(c.is_none());
    assert_eq!((r.status, r.body.as_str()), (400, "Missing timer payload"));
    let (c, r) = handle_timer(None, TimerBody::Invalid);
    assert!(c.is_none());
    assert_eq!((r.status, r.body.as_str()), (400, "Invalid timer payload"));
    let (c, _) = handle_timer(None, TimerBody::Value(TimerValue::Number(Some(0))));
    assert_eq!(c, Some(RuntimeCommand::ApplyTimer(false)));
    let (c, _) = handle_timer(None, TimerBody::Value(TimerValue::Number(Some(2))));
    assert_eq!(c, Some(RuntimeCommand::ApplyTimer(true)));
    let (c, _) = handle_timer(None, TimerBody::Value(TimerValue::Number(None)));
    assert_eq!(c, Some(RuntimeCommand::ApplyTimer(false)));
    let (c, _) = handle_timer(None, TimerBody::Value(TimerValue::Text("TRUE".to_string())));
    assert_eq!(c, Some(RuntimeCommand::ApplyTimer(true)));
    let (c, _) = handle_timer(None, TimerBody::Value(TimerValue::Other));
    assert_eq!(c, Some(RuntimeCommand::ApplyTimer(false)));
    let (c, _) = handle_timer(Some("no"), TimerBody::Value(TimerValue::Bool(true)));
    assert_eq!(c, Some(RuntimeCommand::ApplyTimer(false)));
}

#[test]
fn invalid_payloads_are_rejected() {
    let (c, r) = handle_power(None);
    assert!(c.is_none());
    assert_eq!((r.status, r.body.as_str()), (400, "Invalid power payload"));
    let mut p = update_payload();
    p.action = "JUMP".to_string();
    let (c, r) = handle_update(Some(p));
    assert!(c.is_none());
    assert_eq!((r.status, r.body.as_str()), (400, "Invalid update payload"));
    let (c, r) = handle_wifi(true, None);
    assert!(c.is_none());
    assert_eq!((r.status, r.body.as_str()), (400, "Invalid wifi payload"));
}

#[test]
fn wifi_payload_becomes_credentials() {
    let (c, r) = handle_wifi(true, Some(("Home".to_string(), "pw".to_string())));
    assert_eq!(r.status, 204);
    match c {
        Some(WifiCommand::SetCredentials(creds)) => {
            assert_eq!(creds.ssid, "Home");
            assert_eq!(creds.password, "pw");
        },
        _ => panic!("expected credentials"),
    }
}

#[test]
fn status_and_reset_responses() {
    let r = handle_status(Some("{\"apiVersion\":\"4.0.1\"}".to_string()));
    assert_eq!((r.status, r.content_type), (200, "application/json"));
    let r = handle_status(None);
    assert_eq!((r.status, r.body.as_str()), (500, "Failed to serialize status"));
    let (c, r) = handle_reset(Some("{\"status\":\"Resetting\"}".to_string()));
    assert_eq!(c, RuntimeCommand::Reset);
    assert_eq!(r.status, 200);
    let r: ApiResponse = cors_preflight();
    assert_eq!((r.status, r.body.as_str()), (200, "Ok"));
}

#[test]
fn bool_texts() {
    assert!(parse_bool_any("1"));
    assert!(parse_bool_any("True"));
    assert!(!parse_bool_any("yes"));
    assert!(!parse_bool_any("0"));
}

#[test]
fn dns_policy() {
    assert_eq!(dns_reply(true, Some((1, 1))), DnsReply::PortalAddress);
    assert_eq!(dns_reply(true, Some((28, 1))), DnsReply::Empty);
    assert_eq!(dns_reply(true, Some((1, 3))), DnsReply::Empty);
    assert_eq!(dns_reply(true, None), DnsReply::Ignore);
    assert_eq!(dns_reply(false, Some((1, 1))), DnsReply::Ignore);
}

#[test]
fn event_queue_steps_through_events_and_pauses() {
    let mut queue = EventQueue::new(vec![
        ControllerEvent::MotorStop,
        ControllerEvent::PauseSeconds(5),
        ControllerEvent::DisplayDynamic,
    ]);
    assert!(matches!(queue.next_action(), DispatchAction::Handle(ControllerEvent::MotorStop)));
    assert!(matches!(queue.next_action(), DispatchAction::Pause(5)));
    assert!(matches!(queue.next_action(), DispatchAction::Handle(ControllerEvent::DisplayDynamic)));
    assert!(matches!(queue.next_action(), DispatchAction::Done));
    assert!(matches!(queue.next_action(), DispatchAction::Done));
}

#[test]
fn event_queue_interrupt_replaces_the_rest() {
    let mut queue = EventQueue::new(vec![
        ControllerEvent::PauseSeconds(5),
        ControllerEvent::MotorStop,
        ControllerEvent::DisplayDynamic,
    ]);
    assert!(matches!(queue.next_action(), DispatchAction::Pause(5)));
    queue.interrupt(vec![ControllerEvent::SyncTime]);
    assert!(matches!(queue.next_action(), DispatchAction::Handle(ControllerEvent::SyncTime)));
    assert!(matches!(queue.next_action(), DispatchAction::Done));
}
