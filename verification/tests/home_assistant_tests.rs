use winderoo_firmware::home_assistant::ha_command_fits;
use winderoo_firmware::controller::{Controller, ControllerEvent};
use winderoo_firmware::hardware::XorShift32;
use winderoo_firmware::home_assistant::{build_update, config_messages, state_messages, HaCommand};
use winderoo_firmware::model::{Direction, UpdateAction};
use winderoo_firmware::settings::StoredSettings;

#[test]
fn parse_command_variants() {
    let cmd = HaCommand::parse("winderoo/dev/power/set", b"ON").unwrap();
    assert_eq!(cmd, HaCommand::Power(true));

    let cmd = HaCommand::parse("winderoo/dev/direction/set", b"CCW").unwrap();
    assert_eq!(cmd, HaCommand::Direction(Direction::CounterClockwise));

    let cmd = HaCommand::parse("winderoo/dev/rpd/set", b"240").unwrap();
    assert_eq!(cmd, HaCommand::Rpd(240));
}

#[test]
fn config_includes_version() {
    let messages = config_messages("dev", "4.0.1");
    assert!(messages.iter().any(|(topic, payload)| {
        topic == "homeassistant/switch/dev_power/config" && payload.contains("\"sw_version\":\"4.0.1\"")
    }));
}

#[test]
fn state_rtc_epoch_is_shifted() {
    let mut state = StoredSettings::default().to_runtime(true).expect("runtime");
    state.rtc.gmt_offset_secs = 7200;
    state.rtc.dst = false;
    let messages = state_messages("dev", &state, -42, 3600);
    let rtc = messages
        .iter()
        .find(|(topic, _)| topic == "winderoo/dev/rtc_epoch")
        .map(|(_, payload)| payload.as_str())
        .expect("rtc_epoch");
    assert_eq!(rtc, "10800");
}

#[test]
fn apply_power_emits_persist() {
    let state = StoredSettings::default().to_runtime(true).expect("runtime");
    let mut controller = Controller::new(state, XorShift32::new(1));
    let events = HaCommand::Power(false).apply(&mut controller, 1000);
    assert!(!controller.state.winder_enabled);
    assert!(events.iter().any(|e| matches!(e, ControllerEvent::PersistSettings(_))));
}

#[test]
fn unknown_topics_and_payloads_are_ignored() {
    assert_eq!(HaCommand::parse("winderoo/other/power/set", b"ON"), Some(HaCommand::Power(true)));
    assert_eq!(HaCommand::parse("winderoo/dev/unknown/set", b"ON"), None);
    assert_eq!(HaCommand::parse("winderoo/dev/rpd/set", b"abc"), None);
    assert_eq!(HaCommand::parse("winderoo/dev/direction/set", b"LEFT"), None);
    assert_eq!(HaCommand::parse("elsewhere/dev/power/set", b" on "), Some(HaCommand::Power(true)));
    assert_eq!(HaCommand::parse("winderoo/dev/power/set", &[0xff, 0xfe]), None);
}

#[test]
fn parse_bool_payloads() {
    assert_eq!(HaCommand::parse("winderoo/dev/power/set", b"OFF"), Some(HaCommand::Power(false)));
    assert_eq!(HaCommand::parse("winderoo/dev/timer/set", b"ON"), Some(HaCommand::Timer(true)));
}

#[test]
fn topics_cover_every_command() {
    let topics = HaCommand::topics("dev");
    assert!(topics.iter().any(|t| t == "winderoo/dev/power/set"));
    assert!(topics.iter().any(|t| t == "winderoo/dev/rpd/set"));
    assert!(topics.iter().all(|t| t.starts_with("winderoo/dev/") && t.ends_with("/set")));
}

#[test]
fn state_messages_report_power() {
    let state = StoredSettings::default().to_runtime(true).expect("runtime");
    let messages = state_messages("dev", &state, -42, 3600);
    let power = messages.iter().find(|(topic, _)| topic == "winderoo/dev/power").map(|(_, p)| p.as_str());
    assert_eq!(power, Some("ON"));
}

#[test]
fn build_update_keeps_current_settings() {
    let state = StoredSettings::default().to_runtime(true).expect("runtime");
    let controller = Controller::new(state, XorShift32::new(1));
    let update = build_update(&controller, UpdateAction::Start);
    assert_eq!(update.rotations_per_day, 220);
    assert_eq!(update.direction, Direction::Both);
    assert_eq!(update.action, UpdateAction::Start);
}

#[test]
fn rpd_command_updates_rotations() {
    let state = StoredSettings::default().to_runtime(true).expect("runtime");
    let mut controller = Controller::new(state, XorShift32::new(1));
    HaCommand::Rpd(300).apply(&mut controller, 1000);
    assert_eq!(controller.state.rotations_per_day, 300);
}

#[test]
fn command_fit_checks() {
    let mut state = StoredSettings::default().to_runtime(true).expect("runtime");
    assert!(!ha_command_fits(HaCommand::Start, &state, u64::MAX));
    assert!(ha_command_fits(HaCommand::Start, &state, 1000));
    assert!(ha_command_fits(HaCommand::Rpd(300), &state, u64::MAX));
    state.routine.running = true;
    assert!(!ha_command_fits(HaCommand::Rpd(300), &state, u64::MAX));
    assert!(ha_command_fits(HaCommand::Power(true), &state, u64::MAX));
}

#[test]
fn discovery_topics_are_distinct_and_match_commands_and_states() {
    let messages = config_messages("dev", "4.0.1");
    assert_eq!(messages.len(), 22);
    let mut topics: Vec<&String> = messages.iter().map(|(t, _)| t).collect();
    topics.sort();
    topics.dedup();
    assert_eq!(topics.len(), 22);
    for (topic, payload) in &messages {
        assert!(topic.starts_with("homeassistant/") && topic.ends_with("/config"));
        assert!(payload.ends_with("\"sw_version\":\"4.0.1\"}}"));
    }
    let mut commands: Vec<String> = messages
        .iter()
        .filter_map(|(_, p)| p.split("\"command_topic\":\"").nth(1).map(|r| r.split('"').next().unwrap().to_string()))
        .collect();
    commands.sort();
    let mut subscribed = HaCommand::topics("dev");
    subscribed.sort();
    assert_eq!(commands, subscribed);

    let state = StoredSettings::default().to_runtime(true).expect("runtime");
    let mut states: Vec<String> = messages
        .iter()
        .filter_map(|(_, p)| p.split("\"state_topic\":\"").nth(1).map(|r| r.split('"').next().unwrap().to_string()))
        .collect();
    states.sort();
    let mut published: Vec<String> = state_messages("dev", &state, -42, 0).into_iter().map(|(t, _)| t).collect();
    published.sort();
    assert_eq!(states, published);
}

#[test]
fn direction_selector_options_follow_the_index() {
    let messages = config_messages("dev", "4.0.1");
    let (_, payload) = messages.iter().find(|(t, _)| t == "homeassistant/select/dev_direction/config").unwrap();
    assert!(payload.contains("\"options\":[\"CCW\",\"BOTH\",\"CW\"]"));
    let options = ["CCW", "BOTH", "CW"];
    for d in [Direction::CounterClockwise, Direction::Both, Direction::Clockwise] {
        assert_eq!(options[d.home_assistant_index() as usize], d.as_api_str());
    }
}

#[test]
fn apply_is_empty_only_for_start_while_running() {
    let mut state = StoredSettings::default().to_runtime(true).expect("runtime");
    state.routine.running = true;
    state.routine.estimated_finish_epoch = 5000;
    let mut controller = Controller::new(state, XorShift32::new(1));
    assert!(HaCommand::Start.apply(&mut controller, 1000).is_empty());

    let before = controller.state.timer.start_time;
    let events = HaCommand::Hour(30).apply(&mut controller, 1000);
    assert_eq!(controller.state.timer.start_time, before);
    let expected = StoredSettings::from_runtime(&controller.state);
    assert!(matches!(events.last(), Some(ControllerEvent::PersistSettings(s)) if *s == expected));

    let before = controller.state.screen.schedule.end;
    let events = HaCommand::ScreenScheduleEndMinute(75).apply(&mut controller, 1000);
    assert_eq!(controller.state.screen.schedule.end, before);
    assert!(matches!(events.last(), Some(ControllerEvent::PersistSettings(_))));
}
