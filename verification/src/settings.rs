//! Persistent settings: the stored (text) form and its conversion to and
//! from the typed runtime state.

use vstd::prelude::*;

use crate::model::{
    direction_of_text, direction_text, settings_snapshot_of, status_of_text, status_text,
    CycleProgress, Direction, MotorDirection, RoutineState, RtcConfig, RuntimeModel,
    RuntimeState, ScreenSchedule, ScreenState, SettingsSnapshot, SettingsSnapshotModel,
    StatusModel, TimerConfig, WinderStatus,
};
use crate::text::{
    decimal_string, decimal_text, flag_of_text, owned, pad2_string, pad2_text, parse_flag,
    parse_unsigned, parse_unsigned_str,
};
use crate::time::{hh_mm_text, parse_hh_mm_result, time_new_result, TimeError, TimeErrorModel, TimeOfDay};

verus! {

/// Settings as stored on the device filesystem.
#[derive(Debug, PartialEq, Eq)]
pub struct StoredSettings {
    /// Saved status string ("Winding" or "Stopped").
    pub status: String,
    /// Saved rotations per day.
    pub rotations_per_day: String,
    /// Saved timer hour.
    pub hour: String,
    /// Saved timer minute.
    pub minutes: String,
    /// Saved timer enabled state ("0" or "1").
    pub timer_enabled: String,
    /// Saved winding direction.
    pub direction: String,
    /// Saved duration between rest periods (seconds).
    pub custom_wind_duration: String,
    /// Saved rest duration (seconds).
    pub custom_wind_pause_duration: String,
    /// Saved duration for a single rotation (seconds).
    pub rotation_duration_secs: u16,
    /// Saved UTC offset in seconds.
    pub gmt_offset_secs: i32,
    /// Saved DST toggle.
    pub dst: bool,
    /// Saved screen schedule enabled flag.
    pub screen_schedule_enabled: bool,
    /// Saved schedule start time.
    pub screen_schedule_start_time: String,
    /// Saved schedule end time.
    pub screen_schedule_end_time: String,
    /// Saved screen sleep flag.
    pub screen_sleep: bool,
}

/// Mathematical model of [`StoredSettings`].
pub struct StoredSettingsModel {
    pub status: Seq<char>,
    pub rotations_per_day: Seq<char>,
    pub hour: Seq<char>,
    pub minutes: Seq<char>,
    pub timer_enabled: Seq<char>,
    pub direction: Seq<char>,
    pub custom_wind_duration: Seq<char>,
    pub custom_wind_pause_duration: Seq<char>,
    pub rotation_duration_secs: u16,
    pub gmt_offset_secs: i32,
    pub dst: bool,
    pub screen_schedule_enabled: bool,
    pub screen_schedule_start_time: Seq<char>,
    pub screen_schedule_end_time: Seq<char>,
    pub screen_sleep: bool,
}

impl View for StoredSettings {
    type V = StoredSettingsModel;

    open spec fn view(&self) -> StoredSettingsModel {
        StoredSettingsModel {
            status: self.status@,
            rotations_per_day: self.rotations_per_day@,
            hour: self.hour@,
            minutes: self.minutes@,
            timer_enabled: self.timer_enabled@,
            direction: self.direction@,
            custom_wind_duration: self.custom_wind_duration@,
            custom_wind_pause_duration: self.custom_wind_pause_duration@,
            rotation_duration_secs: self.rotation_duration_secs,
            gmt_offset_secs: self.gmt_offset_secs,
            dst: self.dst,
            screen_schedule_enabled: self.screen_schedule_enabled,
            screen_schedule_start_time: self.screen_schedule_start_time@,
            screen_schedule_end_time: self.screen_schedule_end_time@,
            screen_sleep: self.screen_sleep,
        }
    }
}

impl Clone for StoredSettings {
    fn clone(&self) -> (r: Self)
        ensures
            r@ == self@,
    {
        StoredSettings {
            status: self.status.clone(),
            rotations_per_day: self.rotations_per_day.clone(),
            hour: self.hour.clone(),
            minutes: self.minutes.clone(),
            timer_enabled: self.timer_enabled.clone(),
            direction: self.direction.clone(),
            custom_wind_duration: self.custom_wind_duration.clone(),
            custom_wind_pause_duration: self.custom_wind_pause_duration.clone(),
            rotation_duration_secs: self.rotation_duration_secs,
            gmt_offset_secs: self.gmt_offset_secs,
            dst: self.dst,
            screen_schedule_enabled: self.screen_schedule_enabled,
            screen_schedule_start_time: self.screen_schedule_start_time.clone(),
            screen_schedule_end_time: self.screen_schedule_end_time.clone(),
            screen_sleep: self.screen_sleep,
        }
    }
}

/// The factory settings.
pub open spec fn default_stored() -> StoredSettingsModel {
    StoredSettingsModel {
        status: "Stopped"@,
        rotations_per_day: "220"@,
        hour: "00"@,
        minutes: "00"@,
        timer_enabled: "0"@,
        direction: "BOTH"@,
        custom_wind_duration: "180"@,
        custom_wind_pause_duration: "15"@,
        rotation_duration_secs: 8,
        gmt_offset_secs: 0,
        dst: false,
        screen_schedule_enabled: false,
        screen_schedule_start_time: "00:00"@,
        screen_schedule_end_time: "00:00"@,
        screen_sleep: false,
    }
}

impl Default for StoredSettings {
    fn default() -> (r: Self)
        ensures
            r@ == default_stored(),
    {
        Self {
            status: owned("Stopped"),
            rotations_per_day: owned("220"),
            hour: owned("00"),
            minutes: owned("00"),
            timer_enabled: owned("0"),
            direction: owned("BOTH"),
            custom_wind_duration: owned("180"),
            custom_wind_pause_duration: owned("15"),
            rotation_duration_secs: 8,
            gmt_offset_secs: 0,
            dst: false,
            screen_schedule_enabled: false,
            screen_schedule_start_time: owned("00:00"),
            screen_schedule_end_time: owned("00:00"),
            screen_sleep: false,
        }
    }
}

/// Errors that can occur when parsing stored settings into runtime state.
#[derive(Debug, PartialEq, Eq)]
pub enum SettingsError {
    /// A numeric field could not be parsed.
    InvalidNumber { field: &'static str, value: String },
    /// The direction value was not recognized.
    InvalidDirection(String),
    /// A boolean flag was malformed.
    InvalidFlag(String),
    /// A time value was invalid.
    InvalidTime(String),
    /// A time parsing error was raised.
    Time(TimeError),
}

/// Mathematical model of a [`SettingsError`].
pub enum SettingsErrorModel {
    InvalidNumber { field: Seq<char>, value: Seq<char> },
    InvalidDirection(Seq<char>),
    InvalidFlag(Seq<char>),
    InvalidTime(Seq<char>),
    Time(TimeErrorModel),
}

impl View for SettingsError {
    type V = SettingsErrorModel;

    open spec fn view(&self) -> SettingsErrorModel {
        match self {
            SettingsError::InvalidNumber { field, value } => SettingsErrorModel::InvalidNumber {
                field: field@,
                value: value@,
            },
            SettingsError::InvalidDirection(s) => SettingsErrorModel::InvalidDirection(s@),
            SettingsError::InvalidFlag(s) => SettingsErrorModel::InvalidFlag(s@),
            SettingsError::InvalidTime(s) => SettingsErrorModel::InvalidTime(s@),
            SettingsError::Time(e) => SettingsErrorModel::Time(e@),
        }
    }
}

/// The view of a settings result.
pub open spec fn settings_result_view<T>(r: Result<T, SettingsError>) -> Result<T, SettingsErrorModel> {
    match r {
        Ok(v) => Ok(v),
        Err(e) => Err(e@),
    }
}

/// The number a field's text holds, or the error that names the field.
pub open spec fn number_field(field: Seq<char>, text: Seq<char>, max: nat) -> Result<nat, SettingsErrorModel> {
    match parse_unsigned(text, max) {
        Some(n) => Ok(n),
        None => Err(SettingsErrorModel::InvalidNumber { field, value: text }),
    }
}

fn parse_u16(field: &'static str, value: &str) -> (r: Result<u16, SettingsError>)
    ensures
        match r {
            Ok(v) => number_field(field@, value@, 65535) == Ok::<nat, SettingsErrorModel>(v as nat),
            Err(e) => number_field(field@, value@, 65535) == Err::<nat, SettingsErrorModel>(e@),
        },
{
    match parse_unsigned_str(value, 65535) {
        Some(n) => Ok(n as u16),
        None => Err(SettingsError::InvalidNumber { field, value: owned(value) }),
    }
}

fn parse_u32(field: &'static str, value: &str) -> (r: Result<u32, SettingsError>)
    ensures
        match r {
            Ok(v) => number_field(field@, value@, 0xFFFF_FFFF) == Ok::<nat, SettingsErrorModel>(v as nat),
            Err(e) => number_field(field@, value@, 0xFFFF_FFFF) == Err::<nat, SettingsErrorModel>(e@),
        },
{
    match parse_unsigned_str(value, 0xFFFF_FFFF) {
        Some(n) => Ok(n),
        None => Err(SettingsError::InvalidNumber { field, value: owned(value) }),
    }
}

fn parse_u8(field: &'static str, value: &str) -> (r: Result<u8, SettingsError>)
    ensures
        match r {
            Ok(v) => number_field(field@, value@, 255) == Ok::<nat, SettingsErrorModel>(v as nat),
            Err(e) => number_field(field@, value@, 255) == Err::<nat, SettingsErrorModel>(e@),
        },
{
    match parse_unsigned_str(value, 255) {
        Some(n) => Ok(n as u8),
        None => Err(SettingsError::InvalidNumber { field, value: owned(value) }),
    }
}

fn parse_bool_flag(value: &str) -> (r: Result<bool, SettingsError>)
    ensures
        settings_result_view(r) == match flag_of_text(value@) {
            Some(b) => Ok(b),
            None => Err(SettingsErrorModel::InvalidFlag(value@)),
        },
{
    match parse_flag(value) {
        Some(b) => Ok(b),
        None => Err(SettingsError::InvalidFlag(owned(value))),
    }
}

/// The motor direction a stored direction mode starts with.
pub open spec fn initial_motor_direction(d: Direction) -> MotorDirection {
    match d {
        Direction::Clockwise => MotorDirection::Clockwise,
        Direction::CounterClockwise => MotorDirection::CounterClockwise,
        Direction::Both => MotorDirection::CounterClockwise,
    }
}

/// The runtime state that stored settings describe, or the first error met
/// when reading the fields in order: rotations, direction, timer flag, hour,
/// minute, timer time, wind duration, pause duration, schedule start, end.
/// A loaded state is enabled, idle and without progress.
pub open spec fn runtime_of_stored(st: StoredSettingsModel, screen_equipped: bool) -> Result<RuntimeModel, SettingsErrorModel> {
    match number_field("rotations_per_day"@, st.rotations_per_day, 65535) {
        Err(e) => Err(e),
        Ok(rpd) => match direction_of_text(st.direction) {
            None => Err(SettingsErrorModel::InvalidDirection(st.direction)),
            Some(direction) => match flag_of_text(st.timer_enabled) {
                None => Err(SettingsErrorModel::InvalidFlag(st.timer_enabled)),
                Some(timer_enabled) => match number_field("hour"@, st.hour, 255) {
                    Err(e) => Err(e),
                    Ok(hour) => match number_field("minutes"@, st.minutes, 255) {
                        Err(e) => Err(e),
                        Ok(minute) => match time_new_result(hour as u8, minute as u8) {
                            Err(e) => Err(SettingsErrorModel::Time(e)),
                            Ok(start_time) => match number_field("custom_wind_duration"@, st.custom_wind_duration, 0xFFFF_FFFF) {
                                Err(e) => Err(e),
                                Ok(cwd) => match number_field("custom_wind_pause_duration"@, st.custom_wind_pause_duration, 0xFFFF_FFFF) {
                                    Err(e) => Err(e),
                                    Ok(pause) => match parse_hh_mm_result(st.screen_schedule_start_time) {
                                        Err(e) => Err(SettingsErrorModel::Time(e)),
                                        Ok(start) => match parse_hh_mm_result(st.screen_schedule_end_time) {
                                            Err(e) => Err(SettingsErrorModel::Time(e)),
                                            Ok(end) => Ok(RuntimeModel {
                                                status: status_of_text(st.status),
                                                rotations_per_day: rpd as u16,
                                                direction,
                                                motor_direction: initial_motor_direction(direction),
                                                timer: TimerConfig { enabled: timer_enabled, start_time },
                                                winder_enabled: true,
                                                custom_wind_duration_secs: cwd as u32,
                                                custom_wind_pause_secs: pause as u32,
                                                rotation_duration_secs: st.rotation_duration_secs,
                                                rtc: RtcConfig { gmt_offset_secs: st.gmt_offset_secs, dst: st.dst },
                                                screen: ScreenState {
                                                    equipped: screen_equipped,
                                                    sleep: st.screen_sleep,
                                                    schedule: ScreenSchedule { enabled: st.screen_schedule_enabled, start, end },
                                                },
                                                routine: crate::model::idle_routine(),
                                                cycle_progress: CycleProgress { done: 0, total: 0 },
                                            }),
                                        },
                                    },
                                },
                            },
                        },
                    },
                },
            },
        },
    }
}

/// The stored form of a settings snapshot: numbers as decimal text, the
/// timer hour and minute zero-padded, the timer flag as `1`/`0`, schedule
/// times as `HH:MM`.
pub open spec fn stored_of_snapshot(s: SettingsSnapshotModel) -> StoredSettingsModel {
    StoredSettingsModel {
        status: status_text(s.status),
        rotations_per_day: decimal_text(s.rotations_per_day as nat),
        hour: pad2_text(s.timer_hour as nat),
        minutes: pad2_text(s.timer_minutes as nat),
        timer_enabled: if s.timer_enabled { "1"@ } else { "0"@ },
        direction: direction_text(s.direction),
        custom_wind_duration: decimal_text(s.custom_wind_duration_secs as nat),
        custom_wind_pause_duration: decimal_text(s.custom_wind_pause_secs as nat),
        rotation_duration_secs: s.rotation_duration_secs,
        gmt_offset_secs: s.gmt_offset_secs,
        dst: s.dst,
        screen_schedule_enabled: s.screen_schedule_enabled,
        screen_schedule_start_time: hh_mm_text(s.screen_schedule_start),
        screen_schedule_end_time: hh_mm_text(s.screen_schedule_end),
        screen_sleep: s.screen_sleep,
    }
}

/// The stored form of a runtime state.
pub open spec fn stored_of_runtime(s: RuntimeModel) -> StoredSettingsModel {
    stored_of_snapshot(settings_snapshot_of(s))
}

impl StoredSettings {
    /// Convert stored settings into a fully typed runtime state.
    pub fn to_runtime(&self, screen_equipped: bool) -> (r: Result<RuntimeState, SettingsError>)
        ensures
            match r {
                Ok(state) => runtime_of_stored(self@, screen_equipped) == Ok::<RuntimeModel, SettingsErrorModel>(state@),
                Err(e) => runtime_of_stored(self@, screen_equipped) == Err::<RuntimeModel, SettingsErrorModel>(e@),
            },
    {
        let status = WinderStatus::from_str(self.status.as_str());
        let rotations_per_day = match parse_u16("rotations_per_day", self.rotations_per_day.as_str()) {
            Ok(v) => v,
            Err(e) => return Err(e),
        };
        let direction = match Direction::from_api(self.direction.as_str()) {
            Some(d) => d,
            None => return Err(SettingsError::InvalidDirection(self.direction.clone())),
        };
        let motor_direction = match direction {
            Direction::Clockwise => MotorDirection::Clockwise,
            Direction::CounterClockwise => MotorDirection::CounterClockwise,
            Direction::Both => MotorDirection::CounterClockwise,
        };
        let timer_enabled = match parse_bool_flag(self.timer_enabled.as_str()) {
            Ok(v) => v,
            Err(e) => return Err(e),
        };
        let hour = match parse_u8("hour", self.hour.as_str()) {
            Ok(v) => v,
            Err(e) => return Err(e),
        };
        let minute = match parse_u8("minutes", self.minutes.as_str()) {
            Ok(v) => v,
            Err(e) => return Err(e),
        };
        let start_time = match TimeOfDay::new(hour, minute) {
            Ok(t) => t,
            Err(e) => return Err(SettingsError::Time(e)),
        };
        let timer = TimerConfig { enabled: timer_enabled, start_time };
        let custom_wind_duration_secs = match parse_u32("custom_wind_duration", self.custom_wind_duration.as_str()) {
            Ok(v) => v,
            Err(e) => return Err(e),
        };
        let custom_wind_pause_secs = match parse_u32("custom_wind_pause_duration", self.custom_wind_pause_duration.as_str()) {
            Ok(v) => v,
            Err(e) => return Err(e),
        };
        let rotation_duration_secs = self.rotation_duration_secs;
        let rtc = RtcConfig { gmt_offset_secs: self.gmt_offset_secs, dst: self.dst };
        let start = match TimeOfDay::parse_hh_mm(self.screen_schedule_start_time.as_str()) {
            Ok(t) => t,
            Err(e) => return Err(SettingsError::Time(e)),
        };
        let end = match TimeOfDay::parse_hh_mm(self.screen_schedule_end_time.as_str()) {
            Ok(t) => t,
            Err(e) => return Err(SettingsError::Time(e)),
        };
        let schedule = ScreenSchedule { enabled: self.screen_schedule_enabled, start, end };
        let screen = ScreenState { equipped: screen_equipped, sleep: self.screen_sleep, schedule };
        Ok(RuntimeState {
            status,
            rotations_per_day,
            direction,
            motor_direction,
            timer,
            winder_enabled: true,
            custom_wind_duration_secs,
            custom_wind_pause_secs,
            rotation_duration_secs,
            rtc,
            screen,
            routine: RoutineState::idle(),
            cycle_progress: CycleProgress::zero(),
        })
    }

    /// Create stored settings from a typed snapshot.
    pub fn from_snapshot(snapshot: &SettingsSnapshot) -> (r: Self)
        ensures
            r@ == stored_of_snapshot(snapshot@),
    {
        Self {
            status: owned(snapshot.status.as_str()),
            rotations_per_day: decimal_string(snapshot.rotations_per_day as u64),
            hour: pad2_string(snapshot.timer_hour),
            minutes: pad2_string(snapshot.timer_minutes),
            timer_enabled: if snapshot.timer_enabled { owned("1") } else { owned("0") },
            direction: owned(snapshot.direction.as_api_str()),
            custom_wind_duration: decimal_string(snapshot.custom_wind_duration_secs as u64),
            custom_wind_pause_duration: decimal_string(snapshot.custom_wind_pause_secs as u64),
            rotation_duration_secs: snapshot.rotation_duration_secs,
            gmt_offset_secs: snapshot.gmt_offset_secs,
            dst: snapshot.dst,
            screen_schedule_enabled: snapshot.screen_schedule_enabled,
            screen_schedule_start_time: snapshot.screen_schedule_start.to_hh_mm(),
            screen_schedule_end_time: snapshot.screen_schedule_end.to_hh_mm(),
            screen_sleep: snapshot.screen_sleep,
        }
    }

    /// Create stored settings from the current runtime state.
    pub fn from_runtime(state: &RuntimeState) -> (r: Self)
        ensures
            r@ == stored_of_runtime(state@),
    {
        Self::from_snapshot(&SettingsSnapshot::from_state(state))
    }
}

/// The flag texts `1` and `0` read back as `true` and `false`.
pub proof fn lemma_flag_texts()
    ensures
        flag_of_text("1"@) == Some(true),
        flag_of_text("0"@) == Some(false),
{
    reveal_strlit("1");
    reveal_strlit("0");
    reveal_strlit("true");
    reveal_strlit("True");
    reveal_strlit("TRUE");
    assert("0"@[0] != "1"@[0]);
    assert("0"@.len() != "true"@.len());
    assert("0"@.len() != "True"@.len());
    assert("0"@.len() != "TRUE"@.len());
}

/// Storing a runtime state and loading it back gives the same persisted
/// values: status, rotations, direction mode, timer, durations, RTC
/// settings, schedule and screen sleep. A custom status spelling one of
/// the two known ones is the exception, as are invalid times.
pub proof fn lemma_store_load_round_trip(s: RuntimeModel, screen_equipped: bool)
    requires
        s.timer.start_time.valid(),
        s.screen.schedule.start.valid(),
        s.screen.schedule.end.valid(),
        !(s.status matches StatusModel::Other(t) && (t == "Winding"@ || t == "Stopped"@)),
    ensures
        runtime_of_stored(stored_of_runtime(s), screen_equipped) is Ok,
        ({
            let r = runtime_of_stored(stored_of_runtime(s), screen_equipped)->Ok_0;
            &&& r.status == s.status
            &&& r.rotations_per_day == s.rotations_per_day
            &&& r.direction == s.direction
            &&& r.timer == s.timer
            &&& r.custom_wind_duration_secs == s.custom_wind_duration_secs
            &&& r.custom_wind_pause_secs == s.custom_wind_pause_secs
            &&& r.rotation_duration_secs == s.rotation_duration_secs
            &&& r.rtc == s.rtc
            &&& r.screen.schedule == s.screen.schedule
            &&& r.screen.sleep == s.screen.sleep
            &&& r.screen.equipped == screen_equipped
        }),
{
    let st = stored_of_runtime(s);
    crate::text::lemma_parse_decimal_text(s.rotations_per_day as nat, 65535);
    crate::text::lemma_parse_decimal_text(s.custom_wind_duration_secs as nat, 0xFFFF_FFFF);
    crate::text::lemma_parse_decimal_text(s.custom_wind_pause_secs as nat, 0xFFFF_FFFF);
    crate::text::lemma_parse_pad2_text(s.timer.start_time.hour as nat, 255);
    crate::text::lemma_parse_pad2_text(s.timer.start_time.minute as nat, 255);
    crate::model::lemma_direction_round_trip(s.direction);
    crate::model::lemma_status_round_trip(s.status);
    crate::time::lemma_hh_mm_round_trip(s.screen.schedule.start);
    crate::time::lemma_hh_mm_round_trip(s.screen.schedule.end);
    lemma_flag_texts();
}

/// The factory settings always load into a runtime state.
pub proof fn lemma_default_settings_load(screen_equipped: bool)
    ensures
        runtime_of_stored(default_stored(), screen_equipped) is Ok,
{
    let zero = TimeOfDay { hour: 0, minute: 0 };
    reveal_strlit("220");
    reveal_strlit("00");
    reveal_strlit("180");
    reveal_strlit("15");
    reveal_strlit("00:00");
    reveal_strlit("BOTH");
    assert(decimal_text(2) =~= seq!['2']);
    assert(decimal_text(22) =~= seq!['2', '2']);
    assert("220"@ =~= decimal_text(220));
    assert(decimal_text(1) =~= seq!['1']);
    assert(decimal_text(18) =~= seq!['1', '8']);
    assert("180"@ =~= decimal_text(180));
    assert("15"@ =~= decimal_text(15));
    assert("00"@ =~= pad2_text(0));
    assert("00:00"@ =~= hh_mm_text(zero));
    crate::text::lemma_parse_decimal_text(220, 65535);
    crate::text::lemma_parse_decimal_text(180, 0xFFFF_FFFF);
    crate::text::lemma_parse_decimal_text(15, 0xFFFF_FFFF);
    crate::text::lemma_parse_pad2_text(0, 255);
    crate::model::lemma_direction_round_trip(Direction::Both);
    crate::time::lemma_hh_mm_round_trip(zero);
    lemma_flag_texts();
}

} // verus!
