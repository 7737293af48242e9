//! Core domain types for the winder's runtime state.

use vstd::prelude::*;

use crate::text::{chars_of, str_eq, string_from_chars};
use crate::time::TimeOfDay;

verus! {

/// The user-visible winding direction modes.
#[derive(Debug, Clone, Copy, PartialEq, Eq, Structural)]
pub enum Direction {
    /// Clockwise only.
    Clockwise,
    /// Counter-clockwise only.
    CounterClockwise,
    /// Alternate between clockwise and counter-clockwise.
    Both,
}

/// The API text of a direction.
pub open spec fn direction_text(d: Direction) -> Seq<char> {
    match d {
        Direction::Clockwise => "CW"@,
        Direction::CounterClockwise => "CCW"@,
        Direction::Both => "BOTH"@,
    }
}

/// The direction named by an API text, if any.
pub open spec fn direction_of_text(s: Seq<char>) -> Option<Direction> {
    if s == "CW"@ {
        Some(Direction::Clockwise)
    } else if s == "CCW"@ {
        Some(Direction::CounterClockwise)
    } else if s == "BOTH"@ {
        Some(Direction::Both)
    } else {
        None
    }
}

/// The Home Assistant selector index of a direction (options `CCW`, `BOTH`, `CW`).
pub open spec fn direction_index(d: Direction) -> u8 {
    match d {
        Direction::CounterClockwise => 0,
        Direction::Both => 1,
        Direction::Clockwise => 2,
    }
}

impl Direction {
    /// Parse the API string into a [`Direction`].
    pub fn from_api(value: &str) -> (r: Option<Self>)
        ensures
            r == direction_of_text(value@),
    {
        if str_eq(value, "CW") {
            Some(Self::Clockwise)
        } else if str_eq(value, "CCW") {
            Some(Self::CounterClockwise)
        } else if str_eq(value, "BOTH") {
            Some(Self::Both)
        } else {
            None
        }
    }

    /// Render the direction as the API string.
    pub fn as_api_str(&self) -> (s: &'static str)
        ensures
            s@ == direction_text(*self),
    {
        match self {
            Self::Clockwise => "CW",
            Self::CounterClockwise => "CCW",
            Self::Both => "BOTH",
        }
    }

    /// Return the Home Assistant selector index.
    pub fn home_assistant_index(&self) -> (i: u8)
        ensures
            i == direction_index(*self),
    {
        match self {
            Self::CounterClockwise => 0,
            Self::Both => 1,
            Self::Clockwise => 2,
        }
    }
}

/// Every direction's API text names that direction again.
pub proof fn lemma_direction_round_trip(d: Direction)
    ensures
        direction_of_text(direction_text(d)) == Some(d),
{
    reveal_strlit("CW");
    reveal_strlit("CCW");
    reveal_strlit("BOTH");
    assert("CW"@.len() != "CCW"@.len());
    assert("CW"@.len() != "BOTH"@.len());
    assert("CCW"@.len() != "BOTH"@.len());
}

/// The instantaneous motor direction (not the user-facing mode).
#[derive(Debug, Clone, Copy, PartialEq, Eq, Structural)]
pub enum MotorDirection {
    /// Clockwise motor rotation.
    Clockwise,
    /// Counter-clockwise motor rotation.
    CounterClockwise,
}

/// The other motor direction.
pub open spec fn toggled(d: MotorDirection) -> MotorDirection {
    match d {
        MotorDirection::Clockwise => MotorDirection::CounterClockwise,
        MotorDirection::CounterClockwise => MotorDirection::Clockwise,
    }
}

impl MotorDirection {
    /// Toggle between clockwise and counter-clockwise.
    pub fn toggle(self) -> (r: Self)
        ensures
            r == toggled(self),
            r != self,
    {
        match self {
            Self::Clockwise => Self::CounterClockwise,
            Self::CounterClockwise => Self::Clockwise,
        }
    }
}

/// Winderoo's persisted status text.
#[derive(Debug, PartialEq, Eq)]
pub enum WinderStatus {
    /// The winding routine is running.
    Winding,
    /// The winding routine is stopped.
    Stopped,
    /// Any custom status that should be preserved as-is.
    Other(String),
}

/// Mathematical model of a [`WinderStatus`].
pub enum StatusModel {
    Winding,
    Stopped,
    Other(Seq<char>),
}

impl View for WinderStatus {
    type V = StatusModel;

    open spec fn view(&self) -> StatusModel {
        match self {
            WinderStatus::Winding => StatusModel::Winding,
            WinderStatus::Stopped => StatusModel::Stopped,
            WinderStatus::Other(s) => StatusModel::Other(s@),
        }
    }
}

impl Clone for WinderStatus {
    fn clone(&self) -> (r: Self)
        ensures
            r@ == self@,
    {
        match self {
            WinderStatus::Winding => WinderStatus::Winding,
            WinderStatus::Stopped => WinderStatus::Stopped,
            WinderStatus::Other(s) => WinderStatus::Other(s.clone()),
        }
    }
}

/// The status named by a text: `Winding`, `Stopped`, or anything else kept as is.
pub open spec fn status_of_text(s: Seq<char>) -> StatusModel {
    if s == "Winding"@ {
        StatusModel::Winding
    } else if s == "Stopped"@ {
        StatusModel::Stopped
    } else {
        StatusModel::Other(s)
    }
}

/// The UI text of a status.
pub open spec fn status_text(m: StatusModel) -> Seq<char> {
    match m {
        StatusModel::Winding => "Winding"@,
        StatusModel::Stopped => "Stopped"@,
        StatusModel::Other(s) => s,
    }
}

impl WinderStatus {
    /// Convert a status string into a [`WinderStatus`].
    pub fn from_str(value: &str) -> (r: Self)
        ensures
            r@ == status_of_text(value@),
    {
        if str_eq(value, "Winding") {
            Self::Winding
        } else if str_eq(value, "Stopped") {
            Self::Stopped
        } else {
            let v = chars_of(value);
            Self::Other(string_from_chars(v.as_slice()))
        }
    }

    /// Render the status as the UI-facing string.
    pub fn as_str(&self) -> (s: &str)
        ensures
            s@ == status_text(self@),
    {
        match self {
            Self::Winding => "Winding",
            Self::Stopped => "Stopped",
            Self::Other(value) => value.as_str(),
        }
    }
}

/// A status's text names that status again, unless a custom status spells
/// one of the two known ones.
pub proof fn lemma_status_round_trip(m: StatusModel)
    requires
        !(m matches StatusModel::Other(s) && (s == "Winding"@ || s == "Stopped"@)),
    ensures
        status_of_text(status_text(m)) == m,
{
    reveal_strlit("Winding");
    reveal_strlit("Stopped");
    assert("Winding"@[0] != "Stopped"@[0]);
}

/// Timer configuration for scheduled start.
#[derive(Debug, Clone, Copy, PartialEq, Eq, Structural)]
pub struct TimerConfig {
    /// Whether the timer is enabled.
    pub enabled: bool,
    /// The time of day to begin winding.
    pub start_time: TimeOfDay,
}

/// RTC configuration settings.
#[derive(Debug, Clone, Copy, PartialEq, Eq, Structural)]
pub struct RtcConfig {
    /// Offset from UTC in seconds (e.g. `-18000` for UTC-5).
    pub gmt_offset_secs: i32,
    /// Whether DST should be applied on top of the offset.
    pub dst: bool,
}

/// Screen schedule settings used to auto-sleep the display.
#[derive(Debug, Clone, Copy, PartialEq, Eq, Structural)]
pub struct ScreenSchedule {
    /// Whether schedule enforcement is active.
    pub enabled: bool,
    /// Start time for the screen to be on.
    pub start: TimeOfDay,
    /// End time for the screen to be on.
    pub end: TimeOfDay,
}

/// Whether the screen should be on at `now`: always when the schedule is
/// off; otherwise within `[start, end]`, a window that wraps past midnight
/// when it ends before it starts. Both ends are inclusive.
pub open spec fn awake_at(s: ScreenSchedule, now: TimeOfDay) -> bool {
    let c = now.minutes_of_day();
    let a = s.start.minutes_of_day();
    let b = s.end.minutes_of_day();
    if !s.enabled {
        true
    } else if a <= b {
        a <= c && c <= b
    } else {
        a <= c || c <= b
    }
}

impl ScreenSchedule {
    /// Determine whether the screen should be on at the given time.
    pub fn should_be_awake(&self, now: TimeOfDay) -> (r: bool)
        ensures
            r == awake_at(*self, now),
    {
        if !self.enabled {
            return true;
        }
        let current_minutes = now.total_minutes();
        let start_minutes = self.start.total_minutes();
        let end_minutes = self.end.total_minutes();

        if start_minutes <= end_minutes {
            current_minutes >= start_minutes && current_minutes <= end_minutes
        } else {
            current_minutes >= start_minutes || current_minutes <= end_minutes
        }
    }
}

/// Display state and scheduling configuration.
#[derive(Debug, Clone, Copy, PartialEq, Eq, Structural)]
pub struct ScreenState {
    /// Whether an OLED screen is physically present.
    pub equipped: bool,
    /// Whether the screen is currently sleeping.
    pub sleep: bool,
    /// The configured schedule for sleep/wake behavior.
    pub schedule: ScreenSchedule,
}

/// Timing details for the active winding routine.
#[derive(Debug, Clone, Copy, PartialEq, Eq, Structural)]
pub struct RoutineState {
    /// Whether a winding routine is active.
    pub running: bool,
    /// Epoch time when the routine started.
    pub start_epoch: u64,
    /// Epoch time marking the start of the current winding segment; a
    /// completed cycle pause moves it past the pause so rest windows are
    /// scheduled by winding time.
    pub previous_epoch: u64,
    /// Estimated epoch time when the routine should finish.
    pub estimated_finish_epoch: u64,
}

/// The idle routine: not running, all epochs zero.
pub open spec fn idle_routine() -> RoutineState {
    RoutineState { running: false, start_epoch: 0, previous_epoch: 0, estimated_finish_epoch: 0 }
}

impl RoutineState {
    /// Create an idle routine state.
    pub fn idle() -> (r: Self)
        ensures
            r == idle_routine(),
    {
        Self { running: false, start_epoch: 0, previous_epoch: 0, estimated_finish_epoch: 0 }
    }
}

/// Completion of the current winding cycle as the fraction `done / total`
/// (zero when `total` is zero).
#[derive(Debug, Clone, Copy, PartialEq, Eq, Structural)]
pub struct CycleProgress {
    /// Seconds of the routine that have elapsed, at most `total`.
    pub done: u64,
    /// Length of the routine in seconds.
    pub total: u64,
}

impl CycleProgress {
    /// Well-formed progress: `done` never exceeds `total`.
    pub open spec fn wf(self) -> bool {
        self.done <= self.total
    }

    /// The progress is zero.
    pub open spec fn is_zero(self) -> bool {
        self.done == 0
    }

    /// No progress at all.
    pub fn zero() -> (p: Self)
        ensures
            p == (CycleProgress { done: 0, total: 0 }),
    {
        CycleProgress { done: 0, total: 0 }
    }
}

/// The full mutable runtime state of the firmware.
#[derive(Debug, PartialEq, Eq)]
pub struct RuntimeState {
    /// Current status text.
    pub status: WinderStatus,
    /// Rotations per day.
    pub rotations_per_day: u16,
    /// The user-selected winding direction mode.
    pub direction: Direction,
    /// The current motor direction when actively winding.
    pub motor_direction: MotorDirection,
    /// Timer settings for automatic starts.
    pub timer: TimerConfig,
    /// Whether the winder is enabled (hard off toggle).
    pub winder_enabled: bool,
    /// Duration between rest periods (seconds).
    pub custom_wind_duration_secs: u32,
    /// Duration of each rest period (seconds).
    pub custom_wind_pause_secs: u32,
    /// Duration of a single rotation (seconds).
    pub rotation_duration_secs: u16,
    /// RTC configuration.
    pub rtc: RtcConfig,
    /// Screen configuration and state.
    pub screen: ScreenState,
    /// Routine timing details.
    pub routine: RoutineState,
    /// Completion of the current cycle.
    pub cycle_progress: CycleProgress,
}

/// Mathematical model of a [`RuntimeState`].
pub struct RuntimeModel {
    pub status: StatusModel,
    pub rotations_per_day: u16,
    pub direction: Direction,
    pub motor_direction: MotorDirection,
    pub timer: TimerConfig,
    pub winder_enabled: bool,
    pub custom_wind_duration_secs: u32,
    pub custom_wind_pause_secs: u32,
    pub rotation_duration_secs: u16,
    pub rtc: RtcConfig,
    pub screen: ScreenState,
    pub routine: RoutineState,
    pub cycle_progress: CycleProgress,
}

impl View for RuntimeState {
    type V = RuntimeModel;

    open spec fn view(&self) -> RuntimeModel {
        RuntimeModel {
            status: self.status@,
            rotations_per_day: self.rotations_per_day,
            direction: self.direction,
            motor_direction: self.motor_direction,
            timer: self.timer,
            winder_enabled: self.winder_enabled,
            custom_wind_duration_secs: self.custom_wind_duration_secs,
            custom_wind_pause_secs: self.custom_wind_pause_secs,
            rotation_duration_secs: self.rotation_duration_secs,
            rtc: self.rtc,
            screen: self.screen,
            routine: self.routine,
            cycle_progress: self.cycle_progress,
        }
    }
}

impl Clone for RuntimeState {
    fn clone(&self) -> (r: Self)
        ensures
            r@ == self@,
    {
        RuntimeState {
            status: self.status.clone(),
            rotations_per_day: self.rotations_per_day,
            direction: self.direction,
            motor_direction: self.motor_direction,
            timer: self.timer,
            winder_enabled: self.winder_enabled,
            custom_wind_duration_secs: self.custom_wind_duration_secs,
            custom_wind_pause_secs: self.custom_wind_pause_secs,
            rotation_duration_secs: self.rotation_duration_secs,
            rtc: self.rtc,
            screen: self.screen,
            routine: self.routine,
            cycle_progress: self.cycle_progress,
        }
    }
}

impl RuntimeState {
    /// Convenience helper for the UI-facing status string.
    pub fn status_str(&self) -> (s: &str)
        ensures
            s@ == status_text(self@.status),
    {
        self.status.as_str()
    }
}

/// A minimal snapshot of settings that should be persisted to storage.
#[derive(Debug, PartialEq, Eq)]
pub struct SettingsSnapshot {
    /// Current status string.
    pub status: WinderStatus,
    /// Rotations per day.
    pub rotations_per_day: u16,
    /// Timer enabled flag.
    pub timer_enabled: bool,
    /// Timer hour.
    pub timer_hour: u8,
    /// Timer minute.
    pub timer_minutes: u8,
    /// Winding direction.
    pub direction: Direction,
    /// Duration between rest periods (seconds).
    pub custom_wind_duration_secs: u32,
    /// Rest duration (seconds).
    pub custom_wind_pause_secs: u32,
    /// Duration for one rotation (seconds).
    pub rotation_duration_secs: u16,
    /// UTC offset in seconds.
    pub gmt_offset_secs: i32,
    /// DST flag.
    pub dst: bool,
    /// Screen schedule enabled flag.
    pub screen_schedule_enabled: bool,
    /// Screen schedule start time.
    pub screen_schedule_start: TimeOfDay,
    /// Screen schedule end time.
    pub screen_schedule_end: TimeOfDay,
    /// Whether the screen is sleeping.
    pub screen_sleep: bool,
}

/// Mathematical model of a [`SettingsSnapshot`].
pub struct SettingsSnapshotModel {
    pub status: StatusModel,
    pub rotations_per_day: u16,
    pub timer_enabled: bool,
    pub timer_hour: u8,
    pub timer_minutes: u8,
    pub direction: Direction,
    pub custom_wind_duration_secs: u32,
    pub custom_wind_pause_secs: u32,
    pub rotation_duration_secs: u16,
    pub gmt_offset_secs: i32,
    pub dst: bool,
    pub screen_schedule_enabled: bool,
    pub screen_schedule_start: TimeOfDay,
    pub screen_schedule_end: TimeOfDay,
    pub screen_sleep: bool,
}

impl View for SettingsSnapshot {
    type V = SettingsSnapshotModel;

    open spec fn view(&self) -> SettingsSnapshotModel {
        SettingsSnapshotModel {
            status: self.status@,
            rotations_per_day: self.rotations_per_day,
            timer_enabled: self.timer_enabled,
            timer_hour: self.timer_hour,
            timer_minutes: self.timer_minutes,
            direction: self.direction,
            custom_wind_duration_secs: self.custom_wind_duration_secs,
            custom_wind_pause_secs: self.custom_wind_pause_secs,
            rotation_duration_secs: self.rotation_duration_secs,
            gmt_offset_secs: self.gmt_offset_secs,
            dst: self.dst,
            screen_schedule_enabled: self.screen_schedule_enabled,
            screen_schedule_start: self.screen_schedule_start,
            screen_schedule_end: self.screen_schedule_end,
            screen_sleep: self.screen_sleep,
        }
    }
}

impl Clone for SettingsSnapshot {
    fn clone(&self) -> (r: Self)
        ensures
            r@ == self@,
    {
        SettingsSnapshot {
            status: self.status.clone(),
            rotations_per_day: self.rotations_per_day,
            timer_enabled: self.timer_enabled,
            timer_hour: self.timer_hour,
            timer_minutes: self.timer_minutes,
            direction: self.direction,
            custom_wind_duration_secs: self.custom_wind_duration_secs,
            custom_wind_pause_secs: self.custom_wind_pause_secs,
            rotation_duration_secs: self.rotation_duration_secs,
            gmt_offset_secs: self.gmt_offset_secs,
            dst: self.dst,
            screen_schedule_enabled: self.screen_schedule_enabled,
            screen_schedule_start: self.screen_schedule_start,
            screen_schedule_end: self.screen_schedule_end,
            screen_sleep: self.screen_sleep,
        }
    }
}

/// The persistence snapshot of a runtime state.
pub open spec fn settings_snapshot_of(s: RuntimeModel) -> SettingsSnapshotModel {
    SettingsSnapshotModel {
        status: s.status,
        rotations_per_day: s.rotations_per_day,
        timer_enabled: s.timer.enabled,
        timer_hour: s.timer.start_time.hour,
        timer_minutes: s.timer.start_time.minute,
        direction: s.direction,
        custom_wind_duration_secs: s.custom_wind_duration_secs,
        custom_wind_pause_secs: s.custom_wind_pause_secs,
        rotation_duration_secs: s.rotation_duration_secs,
        gmt_offset_secs: s.rtc.gmt_offset_secs,
        dst: s.rtc.dst,
        screen_schedule_enabled: s.screen.schedule.enabled,
        screen_schedule_start: s.screen.schedule.start,
        screen_schedule_end: s.screen.schedule.end,
        screen_sleep: s.screen.sleep,
    }
}

impl SettingsSnapshot {
    /// Build a persistence snapshot from the current runtime state.
    pub fn from_state(state: &RuntimeState) -> (r: Self)
        ensures
            r@ == settings_snapshot_of(state@),
    {
        Self {
            status: state.status.clone(),
            rotations_per_day: state.rotations_per_day,
            timer_enabled: state.timer.enabled,
            timer_hour: state.timer.start_time.hour,
            timer_minutes: state.timer.start_time.minute,
            direction: state.direction,
            custom_wind_duration_secs: state.custom_wind_duration_secs,
            custom_wind_pause_secs: state.custom_wind_pause_secs,
            rotation_duration_secs: state.rotation_duration_secs,
            gmt_offset_secs: state.rtc.gmt_offset_secs,
            dst: state.rtc.dst,
            screen_schedule_enabled: state.screen.schedule.enabled,
            screen_schedule_start: state.screen.schedule.start,
            screen_schedule_end: state.screen.schedule.end,
            screen_sleep: state.screen.sleep,
        }
    }
}

/// A typed snapshot of the status endpoint values before JSON formatting.
#[derive(Debug, PartialEq, Eq)]
pub struct StatusSnapshot {
    /// Current winding status.
    pub status: WinderStatus,
    /// Rotations per day.
    pub rotations_per_day: u16,
    /// Winding direction.
    pub direction: Direction,
    /// Timer hour.
    pub timer_hour: u8,
    /// Timer minutes.
    pub timer_minutes: u8,
    /// Epoch when winding started.
    pub start_time_epoch: u64,
    /// Current epoch time.
    pub current_time_epoch: u64,
    /// Estimated finish epoch.
    pub estimated_routine_finish_epoch: u64,
    /// Winder enabled flag.
    pub winder_enabled: bool,
    /// Timer enabled flag.
    pub timer_enabled: bool,
    /// WiFi RSSI (dB).
    pub rssi_db: i32,
    /// Whether the screen is asleep.
    pub screen_sleep: bool,
    /// Whether a screen is equipped.
    pub screen_equipped: bool,
    /// Custom wind duration.
    pub custom_wind_duration_secs: u32,
    /// Custom wind pause duration.
    pub custom_wind_pause_secs: u32,
    /// Rotation duration.
    pub rotation_duration_secs: u16,
    /// UTC offset in seconds.
    pub gmt_offset_secs: i32,
    /// Firmware version string.
    pub api_version: String,
    /// DST flag.
    pub dst: bool,
    /// Screen schedule enabled flag.
    pub screen_schedule_enabled: bool,
    /// Screen schedule start time.
    pub screen_schedule_start: TimeOfDay,
    /// Screen schedule end time.
    pub screen_schedule_end: TimeOfDay,
}

/// Mathematical model of a [`StatusSnapshot`].
pub struct StatusSnapshotModel {
    pub status: StatusModel,
    pub rotations_per_day: u16,
    pub direction: Direction,
    pub timer_hour: u8,
    pub timer_minutes: u8,
    pub start_time_epoch: u64,
    pub current_time_epoch: u64,
    pub estimated_routine_finish_epoch: u64,
    pub winder_enabled: bool,
    pub timer_enabled: bool,
    pub rssi_db: i32,
    pub screen_sleep: bool,
    pub screen_equipped: bool,
    pub custom_wind_duration_secs: u32,
    pub custom_wind_pause_secs: u32,
    pub rotation_duration_secs: u16,
    pub gmt_offset_secs: i32,
    pub api_version: Seq<char>,
    pub dst: bool,
    pub screen_schedule_enabled: bool,
    pub screen_schedule_start: TimeOfDay,
    pub screen_schedule_end: TimeOfDay,
}

impl View for StatusSnapshot {
    type V = StatusSnapshotModel;

    open spec fn view(&self) -> StatusSnapshotModel {
        StatusSnapshotModel {
            status: self.status@,
            rotations_per_day: self.rotations_per_day,
            direction: self.direction,
            timer_hour: self.timer_hour,
            timer_minutes: self.timer_minutes,
            start_time_epoch: self.start_time_epoch,
            current_time_epoch: self.current_time_epoch,
            estimated_routine_finish_epoch: self.estimated_routine_finish_epoch,
            winder_enabled: self.winder_enabled,
            timer_enabled: self.timer_enabled,
            rssi_db: self.rssi_db,
            screen_sleep: self.screen_sleep,
            screen_equipped: self.screen_equipped,
            custom_wind_duration_secs: self.custom_wind_duration_secs,
            custom_wind_pause_secs: self.custom_wind_pause_secs,
            rotation_duration_secs: self.rotation_duration_secs,
            gmt_offset_secs: self.gmt_offset_secs,
            api_version: self.api_version@,
            dst: self.dst,
            screen_schedule_enabled: self.screen_schedule_enabled,
            screen_schedule_start: self.screen_schedule_start,
            screen_schedule_end: self.screen_schedule_end,
        }
    }
}

impl Clone for StatusSnapshot {
    fn clone(&self) -> (r: Self)
        ensures
            r@ == self@,
    {
        StatusSnapshot {
            status: self.status.clone(),
            rotations_per_day: self.rotations_per_day,
            direction: self.direction,
            timer_hour: self.timer_hour,
            timer_minutes: self.timer_minutes,
            start_time_epoch: self.start_time_epoch,
            current_time_epoch: self.current_time_epoch,
            estimated_routine_finish_epoch: self.estimated_routine_finish_epoch,
            winder_enabled: self.winder_enabled,
            timer_enabled: self.timer_enabled,
            rssi_db: self.rssi_db,
            screen_sleep: self.screen_sleep,
            screen_equipped: self.screen_equipped,
            custom_wind_duration_secs: self.custom_wind_duration_secs,
            custom_wind_pause_secs: self.custom_wind_pause_secs,
            rotation_duration_secs: self.rotation_duration_secs,
            gmt_offset_secs: self.gmt_offset_secs,
            api_version: self.api_version.clone(),
            dst: self.dst,
            screen_schedule_enabled: self.screen_schedule_enabled,
            screen_schedule_start: self.screen_schedule_start,
            screen_schedule_end: self.screen_schedule_end,
        }
    }
}

/// The status snapshot of a runtime state at `current_epoch` with the given
/// RSSI and firmware version.
pub open spec fn status_snapshot_of(
    s: RuntimeModel,
    current_epoch: u64,
    rssi: i32,
    api_version: Seq<char>,
) -> StatusSnapshotModel {
    StatusSnapshotModel {
        status: s.status,
        rotations_per_day: s.rotations_per_day,
        direction: s.direction,
        timer_hour: s.timer.start_time.hour,
        timer_minutes: s.timer.start_time.minute,
        start_time_epoch: s.routine.start_epoch,
        current_time_epoch: current_epoch,
        estimated_routine_finish_epoch: s.routine.estimated_finish_epoch,
        winder_enabled: s.winder_enabled,
        timer_enabled: s.timer.enabled,
        rssi_db: rssi,
        screen_sleep: s.screen.sleep,
        screen_equipped: s.screen.equipped,
        custom_wind_duration_secs: s.custom_wind_duration_secs,
        custom_wind_pause_secs: s.custom_wind_pause_secs,
        rotation_duration_secs: s.rotation_duration_secs,
        gmt_offset_secs: s.rtc.gmt_offset_secs,
        api_version,
        dst: s.rtc.dst,
        screen_schedule_enabled: s.screen.schedule.enabled,
        screen_schedule_start: s.screen.schedule.start,
        screen_schedule_end: s.screen.schedule.end,
    }
}

impl StatusSnapshot {
    /// Build a status snapshot from runtime state and IO-provided values.
    pub fn from_state(state: &RuntimeState, current_epoch: u64, rssi: i32, api_version: &str) -> (r: Self)
        ensures
            r@ == status_snapshot_of(state@, current_epoch, rssi, api_version@),
    {
        let v = chars_of(api_version);
        Self {
            status: state.status.clone(),
            rotations_per_day: state.rotations_per_day,
            direction: state.direction,
            timer_hour: state.timer.start_time.hour,
            timer_minutes: state.timer.start_time.minute,
            start_time_epoch: state.routine.start_epoch,
            current_time_epoch: current_epoch,
            estimated_routine_finish_epoch: state.routine.estimated_finish_epoch,
            winder_enabled: state.winder_enabled,
            timer_enabled: state.timer.enabled,
            rssi_db: rssi,
            screen_sleep: state.screen.sleep,
            screen_equipped: state.screen.equipped,
            custom_wind_duration_secs: state.custom_wind_duration_secs,
            custom_wind_pause_secs: state.custom_wind_pause_secs,
            rotation_duration_secs: state.rotation_duration_secs,
            gmt_offset_secs: state.rtc.gmt_offset_secs,
            api_version: string_from_chars(v.as_slice()),
            dst: state.rtc.dst,
            screen_schedule_enabled: state.screen.schedule.enabled,
            screen_schedule_start: state.screen.schedule.start,
            screen_schedule_end: state.screen.schedule.end,
        }
    }
}

/// Parsed update action values from the API layer.
#[derive(Debug, Clone, Copy, PartialEq, Eq, Structural)]
pub enum UpdateAction {
    /// Start winding.
    Start,
    /// Stop winding.
    Stop,
}

/// Fully parsed update payload used by the controller.
#[derive(Debug, Clone, Copy, PartialEq, Eq, Structural)]
pub struct UpdateRequest {
    /// Parsed direction mode.
    pub direction: Direction,
    /// Rotations per day.
    pub rotations_per_day: u16,
    /// Start/stop action.
    pub action: UpdateAction,
    /// Timer hour.
    pub hour: u8,
    /// Timer minutes.
    pub minutes: u8,
    /// Timer enabled flag.
    pub timer_enabled: bool,
    /// Screen sleep state.
    pub screen_sleep: bool,
    /// Screen schedule enabled flag.
    pub screen_schedule_enabled: Option<bool>,
    /// Screen schedule start time.
    pub screen_schedule_start: Option<TimeOfDay>,
    /// Screen schedule end time.
    pub screen_schedule_end: Option<TimeOfDay>,
    /// Custom winding duration (seconds).
    pub custom_wind_duration_secs: u32,
    /// Custom pause duration (seconds).
    pub custom_wind_pause_secs: u32,
    /// Rotation duration (seconds).
    pub rotation_duration_secs: u16,
    /// UTC offset in seconds.
    pub rtc_gmt_offset_secs: i32,
    /// RTC DST flag.
    pub rtc_dst: bool,
}

} // verus!
