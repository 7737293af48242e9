use winderoo_firmware::controller::{resume_fits, tick_fits, update_fits};
use winderoo_firmware::controller::{calculate_winding_duration_secs, Controller, ControllerEvent};
use winderoo_firmware::hardware::{LedPattern, RandomSource, XorShift32};
use winderoo_firmware::model::{
    CycleProgress, Direction, MotorDirection, RoutineState, RtcConfig, RuntimeState, ScreenSchedule, ScreenState,
    TimerConfig, UpdateAction, UpdateRequest, WinderStatus,
};
use winderoo_firmware::time::TimeOfDay;

fn base_state() -> RuntimeState {
    RuntimeState {
        status: WinderStatus::Stopped,
        rotations_per_day: 220,
        direction: Direction::Both,
        motor_direction: MotorDirection::CounterClockwise,
        timer: TimerConfig { enabled: false, start_time: TimeOfDay::new(0, 0).unwrap() },
        winder_enabled: true,
        custom_wind_duration_secs: 180,
        custom_wind_pause_secs: 15,
        rotation_duration_secs: 8,
        rtc: RtcConfig { gmt_offset_secs: 0, dst: false },
        screen: ScreenState {
            equipped: true,
            sleep: false,
            schedule: ScreenSchedule {
                enabled: false,
                start: TimeOfDay::new(0, 0).unwrap(),
                end: TimeOfDay::new(0, 0).unwrap(),
            },
        },
        routine: RoutineState::idle(),
        cycle_progress: CycleProgress::zero(),
    }
}

#[derive(Debug, Clone)]
struct ConstRng(u8);

impl RandomSource for ConstRng {
    fn next_value(&self) -> u8 {
        self.0
    }
    fn next_u8(&mut self) -> u8 {
        self.0
    }
}

fn base_update() -> UpdateRequest {
    UpdateRequest {
        direction: Direction::Clockwise,
        rotations_per_day: 300,
        action: UpdateAction::Stop,
        hour: 1,
        minutes: 0,
        timer_enabled: false,
        screen_sleep: false,
        screen_schedule_enabled: None,
        screen_schedule_start: None,
        screen_schedule_end: None,
        custom_wind_duration_secs: 180,
        custom_wind_pause_secs: 15,
        rotation_duration_secs: 8,
        rtc_gmt_offset_secs: 0,
        rtc_dst: false,
    }
}

#[test]
fn winding_duration_matches_cxx_formula() {
    let state = base_state();
    let duration = calculate_winding_duration_secs(&state);
    assert_eq!(duration, 1895);
}

#[test]
fn timer_tick_starts_winding() {
    let mut state = base_state();
    state.timer.enabled = true;
    state.timer.start_time = TimeOfDay::new(9, 30).unwrap();
    let mut controller = Controller::new(state, XorShift32::new(1));
    let events = controller.tick(1000, TimeOfDay::new(9, 30).unwrap());
    assert!(controller.state.routine.running);
    assert!(events.iter().any(|e| matches!(e, ControllerEvent::DisplayNotification(_))));
}

#[test]
fn apply_update_changes_direction_and_recalculates() {
    let mut controller = Controller::new(base_state(), XorShift32::new(1));
    let update = base_update();
    let events = controller.apply_update(update, 1000);
    assert_eq!(controller.state.direction, Direction::Clockwise);
    assert!(events.iter().any(|e| matches!(e, ControllerEvent::MotorStop)));
    assert_eq!(
        controller.state.routine.estimated_finish_epoch,
        1000 + calculate_winding_duration_secs(&controller.state)
    );
}

#[test]
fn cycle_progress_resets_after_finish() {
    let mut state = base_state();
    state.routine.running = true;
    state.routine.start_epoch = 100;
    state.routine.estimated_finish_epoch = 200;
    let mut controller = Controller::new(state, XorShift32::new(1));
    controller.tick(300, TimeOfDay::new(0, 0).unwrap());
    assert_eq!(controller.state.cycle_progress, CycleProgress::zero());
}

#[test]
fn cycle_pause_toggles_direction_in_both_mode() {
    let mut state = base_state();
    state.status = WinderStatus::Winding;
    state.routine.running = true;
    state.routine.start_epoch = 0;
    state.routine.previous_epoch = 0;
    state.routine.estimated_finish_epoch = 10_000;
    state.custom_wind_duration_secs = 10;
    state.custom_wind_pause_secs = 5;
    state.direction = Direction::Both;
    state.motor_direction = MotorDirection::Clockwise;

    // Force the random sampling gate to always fire (`r <= 25`).
    let mut controller = Controller::new(state, ConstRng(0));
    let events = controller.tick(20, TimeOfDay::new(0, 0).unwrap());

    assert_eq!(controller.state.motor_direction, MotorDirection::CounterClockwise);
    assert_eq!(controller.state.routine.previous_epoch, 25);
    assert!(events.iter().any(|e| matches!(e, ControllerEvent::MotorStop)));
    assert!(events.iter().any(|e| matches!(e, ControllerEvent::PauseSeconds(5))));
    assert!(events.iter().any(|e| matches!(e, ControllerEvent::MotorStart(MotorDirection::CounterClockwise))));
}

#[test]
fn cycle_pause_is_disabled_when_custom_wind_duration_is_zero() {
    let mut state = base_state();
    state.status = WinderStatus::Winding;
    state.routine.running = true;
    state.routine.start_epoch = 0;
    state.routine.previous_epoch = 0;
    state.routine.estimated_finish_epoch = 10_000;
    state.custom_wind_duration_secs = 0;
    state.custom_wind_pause_secs = 5;

    let mut controller = Controller::new(state, ConstRng(0));
    let events = controller.tick(20, TimeOfDay::new(0, 0).unwrap());

    assert!(!events.iter().any(|e| matches!(e, ControllerEvent::MotorStop)));
    assert!(!events.iter().any(|e| matches!(e, ControllerEvent::PauseSeconds(_))));
}

#[test]
fn duration_without_segments_is_turning_time() {
    let mut state = base_state();
    state.custom_wind_duration_secs = 0;
    assert_eq!(calculate_winding_duration_secs(&state), 220 * 8);
}

#[test]
fn power_off_stops_and_persists() {
    let mut state = base_state();
    state.status = WinderStatus::Winding;
    state.routine.running = true;
    let mut controller = Controller::new(state, XorShift32::new(7));
    let events = controller.apply_power(false);
    assert!(!controller.state.winder_enabled);
    assert!(!controller.state.routine.running);
    assert_eq!(controller.state.status, WinderStatus::Stopped);
    assert!(events.iter().any(|e| matches!(e, ControllerEvent::MotorStop)));
    assert!(events.iter().any(|e| matches!(e, ControllerEvent::PersistSettings(_))));
}

#[test]
fn disabled_winder_ignores_timer() {
    let mut state = base_state();
    state.winder_enabled = false;
    state.timer.enabled = true;
    state.timer.start_time = TimeOfDay::new(9, 30).unwrap();
    let mut controller = Controller::new(state, XorShift32::new(1));
    controller.tick(1000, TimeOfDay::new(9, 30).unwrap());
    assert!(!controller.state.routine.running);
}

#[test]
fn routine_progress_is_a_fraction_of_the_routine() {
    let mut state = base_state();
    state.status = WinderStatus::Winding;
    state.routine.running = true;
    state.routine.start_epoch = 0;
    state.routine.previous_epoch = 0;
    state.routine.estimated_finish_epoch = 1000;
    state.custom_wind_duration_secs = 0;
    let mut controller = Controller::new(state, ConstRng(255));
    controller.tick(250, TimeOfDay::new(0, 0).unwrap());
    assert_eq!(controller.state.cycle_progress, CycleProgress { done: 250, total: 1000 });
}

#[test]
fn reset_request_shows_reset_sequence() {
    let mut controller = Controller::new(base_state(), XorShift32::new(1));
    let events = controller.request_reset();
    assert!(events.iter().any(|e| matches!(e, ControllerEvent::Led(LedPattern::FastBlink))));
    assert!(events.iter().any(|e| matches!(e, ControllerEvent::RestartDevice)));
}

#[test]
fn timer_command_persists_setting() {
    let mut controller = Controller::new(base_state(), XorShift32::new(1));
    let events = controller.apply_timer_enabled(true);
    assert!(controller.state.timer.enabled);
    assert!(events.iter().any(|e| matches!(e, ControllerEvent::PersistSettings(_))));
}

#[test]
fn resume_restarts_a_saved_winding_status() {
    let mut state = base_state();
    state.status = WinderStatus::Winding;
    let mut controller = Controller::new(state, XorShift32::new(1));
    controller.resume_if_needed(5000);
    assert!(controller.state.routine.running);
    assert_eq!(controller.state.routine.start_epoch, 5000);
}

#[test]
fn fits_checks_follow_the_clock_limit() {
    let mut state = base_state();
    assert!(resume_fits(&state, u64::MAX));
    state.status = WinderStatus::Winding;
    assert!(!resume_fits(&state, u64::MAX));
    assert!(resume_fits(&state, 1000));
    state.timer.enabled = true;
    state.status = WinderStatus::Stopped;
    let t = TimeOfDay::new(0, 0).unwrap();
    assert!(!tick_fits(&state, u64::MAX, t));
    assert!(tick_fits(&state, u64::MAX, TimeOfDay::new(0, 1).unwrap()));
    let mut update = base_update();
    update.rotations_per_day = 220;
    assert!(update_fits(&base_state(), &update, u64::MAX));
    update.rotations_per_day = 221;
    assert!(!update_fits(&base_state(), &update, u64::MAX));
}

#[derive(Debug, Clone, Default)]
struct CountingRng {
    draws: u32,
}

impl RandomSource for CountingRng {
    fn next_value(&self) -> u8 {
        99
    }
    fn next_u8(&mut self) -> u8 {
        self.draws += 1;
        99
    }
}

fn pausing_state() -> RuntimeState {
    let mut state = base_state();
    state.status = WinderStatus::Winding;
    state.routine.running = true;
    state.routine.start_epoch = 0;
    state.routine.previous_epoch = 0;
    state.routine.estimated_finish_epoch = 10_000;
    state.custom_wind_duration_secs = 10;
    state.custom_wind_pause_secs = 5;
    state.direction = Direction::Both;
    state.motor_direction = MotorDirection::Clockwise;
    state
}

#[test]
fn tick_with_sample_pauses_only_for_low_samples() {
    let mut paused = Controller::new(pausing_state(), CountingRng::default());
    let events = paused.tick_with_sample(20, TimeOfDay::new(0, 0).unwrap(), 25);
    assert!(events.iter().any(|e| matches!(e, ControllerEvent::PauseSeconds(5))));
    assert_eq!(paused.state.motor_direction, MotorDirection::CounterClockwise);
    assert_eq!(paused.rng.draws, 0);

    // 126 % 100 == 26: no pause.
    let mut running = Controller::new(pausing_state(), CountingRng::default());
    let events = running.tick_with_sample(20, TimeOfDay::new(0, 0).unwrap(), 126);
    assert!(!events.iter().any(|e| matches!(e, ControllerEvent::PauseSeconds(_))));
    assert_eq!(running.state.motor_direction, MotorDirection::Clockwise);
}

#[test]
fn tick_draws_only_while_a_routine_runs() {
    let mut idle = Controller::new(base_state(), CountingRng::default());
    idle.tick(20, TimeOfDay::new(0, 0).unwrap());
    assert_eq!(idle.rng.draws, 0);

    let mut winding = Controller::new(pausing_state(), CountingRng::default());
    let events = winding.tick(20, TimeOfDay::new(0, 0).unwrap());
    assert_eq!(winding.rng.draws, 1);
    // 99 % 100 == 99: no pause.
    assert!(!events.iter().any(|e| matches!(e, ControllerEvent::PauseSeconds(_))));
}
