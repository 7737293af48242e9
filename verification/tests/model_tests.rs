use winderoo_firmware::model::{Direction, MotorDirection, ScreenSchedule, WinderStatus};
use winderoo_firmware::time::TimeOfDay;

#[test]
fn direction_round_trip() {
    assert_eq!(Direction::from_api("CW"), Some(Direction::Clockwise));
    assert_eq!(Direction::from_api("CCW"), Some(Direction::CounterClockwise));
    assert_eq!(Direction::from_api("BOTH"), Some(Direction::Both));
    assert_eq!(Direction::Clockwise.as_api_str(), "CW");
}

#[test]
fn screen_schedule_same_day() {
    let schedule = ScreenSchedule {
        enabled: true,
        start: TimeOfDay::new(9, 0).unwrap(),
        end: TimeOfDay::new(17, 0).unwrap(),
    };
    assert!(schedule.should_be_awake(TimeOfDay::new(9, 0).unwrap()));
    assert!(schedule.should_be_awake(TimeOfDay::new(12, 0).unwrap()));
    assert!(!schedule.should_be_awake(TimeOfDay::new(18, 0).unwrap()));
}

#[test]
fn screen_schedule_overnight() {
    let schedule = ScreenSchedule {
        enabled: true,
        start: TimeOfDay::new(22, 0).unwrap(),
        end: TimeOfDay::new(6, 0).unwrap(),
    };
    assert!(schedule.should_be_awake(TimeOfDay::new(23, 30).unwrap()));
    assert!(schedule.should_be_awake(TimeOfDay::new(5, 30).unwrap()));
    assert!(!schedule.should_be_awake(TimeOfDay::new(12, 0).unwrap()));
}

#[test]
fn disabled_schedule_keeps_screen_awake() {
    let schedule = ScreenSchedule {
        enabled: false,
        start: TimeOfDay::new(9, 0).unwrap(),
        end: TimeOfDay::new(17, 0).unwrap(),
    };
    assert!(schedule.should_be_awake(TimeOfDay::new(3, 0).unwrap()));
}

#[test]
fn schedule_end_is_inclusive() {
    let schedule = ScreenSchedule {
        enabled: true,
        start: TimeOfDay::new(9, 0).unwrap(),
        end: TimeOfDay::new(17, 0).unwrap(),
    };
    assert!(schedule.should_be_awake(TimeOfDay::new(17, 0).unwrap()));
    assert!(!schedule.should_be_awake(TimeOfDay::new(17, 1).unwrap()));
}

#[test]
fn unknown_direction_is_rejected() {
    assert_eq!(Direction::from_api("cw"), None);
    assert_eq!(Direction::from_api(""), None);
    assert_eq!(Direction::CounterClockwise.as_api_str(), "CCW");
    assert_eq!(Direction::Both.as_api_str(), "BOTH");
}

#[test]
fn home_assistant_indices() {
    assert_eq!(Direction::CounterClockwise.home_assistant_index(), 0);
    assert_eq!(Direction::Both.home_assistant_index(), 1);
    assert_eq!(Direction::Clockwise.home_assistant_index(), 2);
}

#[test]
fn motor_direction_toggles() {
    assert_eq!(MotorDirection::Clockwise.toggle(), MotorDirection::CounterClockwise);
    assert_eq!(MotorDirection::CounterClockwise.toggle(), MotorDirection::Clockwise);
}

#[test]
fn status_text_round_trip() {
    assert_eq!(WinderStatus::from_str("Winding"), WinderStatus::Winding);
    assert_eq!(WinderStatus::from_str("Stopped").as_str(), "Stopped");
    assert_eq!(WinderStatus::from_str("Paused").as_str(), "Paused");
}
