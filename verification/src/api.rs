//! API request/response models: parsing update payloads into typed
//! requests and rendering the status response.

use vstd::prelude::*;

use crate::model::{
    direction_of_text, direction_text, status_text, Direction, StatusSnapshot,
    StatusSnapshotModel, UpdateAction, UpdateRequest,
};
use crate::text::{
    decimal_string, decimal_text, flag_of_text, owned, pad2_string, pad2_text, parse_flag,
    parse_unsigned, parse_unsigned_str, push_str, str_eq,
};
use crate::time::{hh_mm_text, parse_hh_mm_result, TimeOfDay};

verus! {

/// Errors returned when parsing API payloads into typed requests.
#[derive(Debug, PartialEq, Eq)]
pub enum ApiError {
    /// A numeric field could not be parsed.
    InvalidNumber { field: &'static str, value: String },
    /// The direction value was not recognized.
    InvalidDirection(String),
    /// The action value was not recognized.
    InvalidAction(String),
    /// The hour/minute values were invalid.
    InvalidTime(String),
    /// A boolean flag was malformed.
    InvalidFlag(String),
}

/// Mathematical model of an [`ApiError`].
pub enum ApiErrorModel {
    InvalidNumber { field: Seq<char>, value: Seq<char> },
    InvalidDirection(Seq<char>),
    InvalidAction(Seq<char>),
    InvalidTime(Seq<char>),
    InvalidFlag(Seq<char>),
}

impl View for ApiError {
    type V = ApiErrorModel;

    open spec fn view(&self) -> ApiErrorModel {
        match self {
            ApiError::InvalidNumber { field, value } => ApiErrorModel::InvalidNumber { field: field@, value: value@ },
            ApiError::InvalidDirection(s) => ApiErrorModel::InvalidDirection(s@),
            ApiError::InvalidAction(s) => ApiErrorModel::InvalidAction(s@),
            ApiError::InvalidTime(s) => ApiErrorModel::InvalidTime(s@),
            ApiError::InvalidFlag(s) => ApiErrorModel::InvalidFlag(s@),
        }
    }
}

/// The message of an API error.
pub open spec fn api_error_text(e: ApiErrorModel) -> Seq<char> {
    match e {
        ApiErrorModel::InvalidNumber { field, value } => "invalid numeric value for "@ + field + ": "@ + value,
        ApiErrorModel::InvalidDirection(v) => "invalid direction: "@ + v,
        ApiErrorModel::InvalidAction(v) => "invalid action: "@ + v,
        ApiErrorModel::InvalidTime(v) => "invalid time: "@ + v,
        ApiErrorModel::InvalidFlag(v) => "invalid boolean flag: "@ + v,
    }
}

impl ApiError {
    /// The human-readable message of the error.
    pub fn to_string(&self) -> (s: String)
        ensures
            s@ == api_error_text(self@),
    {
        match self {
            ApiError::InvalidNumber { field, value } => {
                let mut s = owned("invalid numeric value for ");
                push_str(&mut s, field);
                push_str(&mut s, ": ");
                push_str(&mut s, value.as_str());
                s
            },
            ApiError::InvalidDirection(value) => {
                let mut s = owned("invalid direction: ");
                push_str(&mut s, value.as_str());
                s
            },
            ApiError::InvalidAction(value) => {
                let mut s = owned("invalid action: ");
                push_str(&mut s, value.as_str());
                s
            },
            ApiError::InvalidTime(value) => {
                let mut s = owned("invalid time: ");
                push_str(&mut s, value.as_str());
                s
            },
            ApiError::InvalidFlag(value) => {
                let mut s = owned("invalid boolean flag: ");
                push_str(&mut s, value.as_str());
                s
            },
        }
    }
}

/// The number a field's text holds, or the error that names the field.
pub open spec fn api_number(field: Seq<char>, text: Seq<char>, max: nat) -> Result<nat, ApiErrorModel> {
    match parse_unsigned(text, max) {
        Some(n) => Ok(n),
        None => Err(ApiErrorModel::InvalidNumber { field, value: text }),
    }
}

fn parse_u16(field: &'static str, value: &str) -> (r: Result<u16, ApiError>)
    ensures
        match r {
            Ok(v) => api_number(field@, value@, 65535) == Ok::<nat, ApiErrorModel>(v as nat),
            Err(e) => api_number(field@, value@, 65535) == Err::<nat, ApiErrorModel>(e@),
        },
{
    match parse_unsigned_str(value, 65535) {
        Some(n) => Ok(n as u16),
        None => Err(ApiError::InvalidNumber { field, value: owned(value) }),
    }
}

fn parse_u32(field: &'static str, value: &str) -> (r: Result<u32, ApiError>)
    ensures
        match r {
            Ok(v) => api_number(field@, value@, 0xFFFF_FFFF) == Ok::<nat, ApiErrorModel>(v as nat),
            Err(e) => api_number(field@, value@, 0xFFFF_FFFF) == Err::<nat, ApiErrorModel>(e@),
        },
{
    match parse_unsigned_str(value, 0xFFFF_FFFF) {
        Some(n) => Ok(n),
        None => Err(ApiError::InvalidNumber { field, value: owned(value) }),
    }
}

fn parse_u8(field: &'static str, value: &str) -> (r: Result<u8, ApiError>)
    ensures
        match r {
            Ok(v) => api_number(field@, value@, 255) == Ok::<nat, ApiErrorModel>(v as nat),
            Err(e) => api_number(field@, value@, 255) == Err::<nat, ApiErrorModel>(e@),
        },
{
    match parse_unsigned_str(value, 255) {
        Some(n) => Ok(n as u8),
        None => Err(ApiError::InvalidNumber { field, value: owned(value) }),
    }
}

/// The action named by a text: `START` or `STOP`.
pub open spec fn action_of_text(s: Seq<char>) -> Option<UpdateAction> {
    if s == "START"@ {
        Some(UpdateAction::Start)
    } else if s == "STOP"@ {
        Some(UpdateAction::Stop)
    } else {
        None
    }
}

impl UpdateAction {
    /// Parse a string into an [`UpdateAction`].
    pub fn parse(value: &str) -> (r: Result<Self, ApiError>)
        ensures
            match r {
                Ok(a) => action_of_text(value@) == Some(a),
                Err(e) => action_of_text(value@) is None && e@ == ApiErrorModel::InvalidAction(value@),
            },
    {
        if str_eq(value, "START") {
            Ok(Self::Start)
        } else if str_eq(value, "STOP") {
            Ok(Self::Stop)
        } else {
            Err(ApiError::InvalidAction(owned(value)))
        }
    }
}

/// Raw update payload as sent by the frontend API, with every number kept
/// as the text it arrived as.
#[derive(Debug, Clone, PartialEq, Eq)]
pub struct UpdatePayload {
    /// Direction setting.
    pub rotation_direction: String,
    /// Rotations per day.
    pub rotations_per_day: String,
    /// Start/stop action.
    pub action: String,
    /// Timer hour.
    pub hour: String,
    /// Timer minutes.
    pub minutes: String,
    /// Timer enabled flag.
    pub timer_enabled: String,
    /// Screen sleep flag.
    pub screen_sleep: bool,
    /// Screen schedule enabled flag.
    pub screen_schedule_enabled: Option<bool>,
    /// Screen schedule start time.
    pub screen_schedule_start_time: Option<String>,
    /// Screen schedule end time.
    pub screen_schedule_end_time: Option<String>,
    /// Custom winding duration (seconds).
    pub custom_wind_duration: String,
    /// Custom pause duration (seconds).
    pub custom_wind_pause_duration: String,
    /// Rotation duration (seconds).
    pub rotation_duration_secs: String,
    /// UTC offset in seconds.
    pub rtc_gmt_offset_secs: i32,
    /// RTC DST flag.
    pub rtc_dst: bool,
}

/// Mathematical model of an [`UpdatePayload`].
pub struct UpdatePayloadModel {
    pub rotation_direction: Seq<char>,
    pub rotations_per_day: Seq<char>,
    pub action: Seq<char>,
    pub hour: Seq<char>,
    pub minutes: Seq<char>,
    pub timer_enabled: Seq<char>,
    pub screen_sleep: bool,
    pub screen_schedule_enabled: Option<bool>,
    pub screen_schedule_start_time: Option<Seq<char>>,
    pub screen_schedule_end_time: Option<Seq<char>>,
    pub custom_wind_duration: Seq<char>,
    pub custom_wind_pause_duration: Seq<char>,
    pub rotation_duration_secs: Seq<char>,
    pub rtc_gmt_offset_secs: i32,
    pub rtc_dst: bool,
}

/// The view of an optional string.
pub open spec fn opt_text(o: Option<String>) -> Option<Seq<char>> {
    match o {
        Some(s) => Some(s@),
        None => None,
    }
}

impl View for UpdatePayload {
    type V = UpdatePayloadModel;

    open spec fn view(&self) -> UpdatePayloadModel {
        UpdatePayloadModel {
            rotation_direction: self.rotation_direction@,
            rotations_per_day: self.rotations_per_day@,
            action: self.action@,
            hour: self.hour@,
            minutes: self.minutes@,
            timer_enabled: self.timer_enabled@,
            screen_sleep: self.screen_sleep,
            screen_schedule_enabled: self.screen_schedule_enabled,
            screen_schedule_start_time: opt_text(self.screen_schedule_start_time),
            screen_schedule_end_time: opt_text(self.screen_schedule_end_time),
            custom_wind_duration: self.custom_wind_duration@,
            custom_wind_pause_duration: self.custom_wind_pause_duration@,
            rotation_duration_secs: self.rotation_duration_secs@,
            rtc_gmt_offset_secs: self.rtc_gmt_offset_secs,
            rtc_dst: self.rtc_dst,
        }
    }
}

/// An optional `HH:MM` field: absent stays absent, present must parse.
pub open spec fn optional_time(o: Option<Seq<char>>) -> Result<Option<TimeOfDay>, ApiErrorModel> {
    match o {
        None => Ok(None),
        Some(text) => match parse_hh_mm_result(text) {
            Ok(t) => Ok(Some(t)),
            Err(_) => Err(ApiErrorModel::InvalidTime(text)),
        },
    }
}

/// The typed request an update payload describes, or the first error met
/// when reading its fields in order: direction, rotations, action, hour,
/// minutes, timer flag, schedule start, schedule end, wind duration, pause
/// duration, rotation duration.
pub open spec fn update_request_of(p: UpdatePayloadModel) -> Result<UpdateRequest, ApiErrorModel> {
    match direction_of_text(p.rotation_direction) {
        None => Err(ApiErrorModel::InvalidDirection(p.rotation_direction)),
        Some(direction) => match api_number("tpd"@, p.rotations_per_day, 65535) {
            Err(e) => Err(e),
            Ok(rpd) => match action_of_text(p.action) {
                None => Err(ApiErrorModel::InvalidAction(p.action)),
                Some(action) => match api_number("hour"@, p.hour, 255) {
                    Err(e) => Err(e),
                    Ok(hour) => match api_number("minutes"@, p.minutes, 255) {
                        Err(e) => Err(e),
                        Ok(minutes) => match flag_of_text(p.timer_enabled) {
                            None => Err(ApiErrorModel::InvalidFlag(p.timer_enabled)),
                            Some(timer_enabled) => match optional_time(p.screen_schedule_start_time) {
                                Err(e) => Err(e),
                                Ok(start) => match optional_time(p.screen_schedule_end_time) {
                                    Err(e) => Err(e),
                                    Ok(end) => match api_number("customWindDuration"@, p.custom_wind_duration, 0xFFFF_FFFF) {
                                        Err(e) => Err(e),
                                        Ok(cwd) => match api_number("customWindPauseDuration"@, p.custom_wind_pause_duration, 0xFFFF_FFFF) {
                                            Err(e) => Err(e),
                                            Ok(pause) => match api_number("customDurationInSecondsToCompleteOneRevolution"@, p.rotation_duration_secs, 65535) {
                                                Err(e) => Err(e),
                                                Ok(rot) => Ok(UpdateRequest {
                                                    direction,
                                                    rotations_per_day: rpd as u16,
                                                    action,
                                                    hour: hour as u8,
                                                    minutes: minutes as u8,
                                                    timer_enabled,
                                                    screen_sleep: p.screen_sleep,
                                                    screen_schedule_enabled: p.screen_schedule_enabled,
                                                    screen_schedule_start: start,
                                                    screen_schedule_end: end,
                                                    custom_wind_duration_secs: cwd as u32,
                                                    custom_wind_pause_secs: pause as u32,
                                                    rotation_duration_secs: rot as u16,
                                                    rtc_gmt_offset_secs: p.rtc_gmt_offset_secs,
                                                    rtc_dst: p.rtc_dst,
                                                }),
                                            },
                                        },
                                    },
                                },
                            },
                        },
                    },
                },
            },
        },
    }
}

/// Every field of an accepted update comes from its own payload field: the
/// direction from the direction text, each number from its own number text
/// (rotations, hour, minutes, wind duration, pause duration, rotation
/// duration), the action and the timer flag from their texts, the schedule
/// times from their `HH:MM` texts, and the remaining fields as they are.
pub proof fn lemma_update_fields_from_payload(p: UpdatePayloadModel)
    ensures
        update_request_of(p) matches Ok(u) ==> {
            &&& direction_of_text(p.rotation_direction) == Some(u.direction)
            &&& parse_unsigned(p.rotations_per_day, 65535) == Some(u.rotations_per_day as nat)
            &&& action_of_text(p.action) == Some(u.action)
            &&& parse_unsigned(p.hour, 255) == Some(u.hour as nat)
            &&& parse_unsigned(p.minutes, 255) == Some(u.minutes as nat)
            &&& flag_of_text(p.timer_enabled) == Some(u.timer_enabled)
            &&& u.screen_sleep == p.screen_sleep
            &&& u.screen_schedule_enabled == p.screen_schedule_enabled
            &&& optional_time(p.screen_schedule_start_time) == Ok::<Option<TimeOfDay>, ApiErrorModel>(u.screen_schedule_start)
            &&& optional_time(p.screen_schedule_end_time) == Ok::<Option<TimeOfDay>, ApiErrorModel>(u.screen_schedule_end)
            &&& parse_unsigned(p.custom_wind_duration, 0xFFFF_FFFF) == Some(u.custom_wind_duration_secs as nat)
            &&& parse_unsigned(p.custom_wind_pause_duration, 0xFFFF_FFFF) == Some(u.custom_wind_pause_secs as nat)
            &&& parse_unsigned(p.rotation_duration_secs, 65535) == Some(u.rotation_duration_secs as nat)
            &&& u.rtc_gmt_offset_secs == p.rtc_gmt_offset_secs
            &&& u.rtc_dst == p.rtc_dst
        },
{
}

fn parse_optional_time(o: &Option<String>) -> (r: Result<Option<TimeOfDay>, ApiError>)
    ensures
        match r {
            Ok(t) => optional_time(opt_text(*o)) == Ok::<Option<TimeOfDay>, ApiErrorModel>(t),
            Err(e) => optional_time(opt_text(*o)) == Err::<Option<TimeOfDay>, ApiErrorModel>(e@),
        },
{
    match o {
        Some(text) => match TimeOfDay::parse_hh_mm(text.as_str()) {
            Ok(t) => Ok(Some(t)),
            Err(_) => Err(ApiError::InvalidTime(text.clone())),
        },
        None => Ok(None),
    }
}

impl UpdateRequest {
    /// Convert a raw update payload into a typed request.
    pub fn try_from(value: UpdatePayload) -> (r: Result<Self, ApiError>)
        ensures
            match r {
                Ok(u) => update_request_of(value@) == Ok::<UpdateRequest, ApiErrorModel>(u),
                Err(e) => update_request_of(value@) == Err::<UpdateRequest, ApiErrorModel>(e@),
            },
    {
        let direction = match Direction::from_api(value.rotation_direction.as_str()) {
            Some(d) => d,
            None => return Err(ApiError::InvalidDirection(value.rotation_direction.clone())),
        };
        let rotations_per_day = match parse_u16("tpd", value.rotations_per_day.as_str()) {
            Ok(v) => v,
            Err(e) => return Err(e),
        };
        let action = match UpdateAction::parse(value.action.as_str()) {
            Ok(a) => a,
            Err(e) => return Err(e),
        };
        let hour = match parse_u8("hour", value.hour.as_str()) {
            Ok(v) => v,
            Err(e) => return Err(e),
        };
        let minutes = match parse_u8("minutes", value.minutes.as_str()) {
            Ok(v) => v,
            Err(e) => return Err(e),
        };
        let timer_enabled = match parse_flag(value.timer_enabled.as_str()) {
            Some(b) => b,
            None => return Err(ApiError::InvalidFlag(value.timer_enabled.clone())),
        };
        let screen_schedule_start = match parse_optional_time(&value.screen_schedule_start_time) {
            Ok(t) => t,
            Err(e) => return Err(e),
        };
        let screen_schedule_end = match parse_optional_time(&value.screen_schedule_end_time) {
            Ok(t) => t,
            Err(e) => return Err(e),
        };
        let custom_wind_duration_secs = match parse_u32("customWindDuration", value.custom_wind_duration.as_str()) {
            Ok(v) => v,
            Err(e) => return Err(e),
        };
        let custom_wind_pause_secs = match parse_u32("customWindPauseDuration", value.custom_wind_pause_duration.as_str()) {
            Ok(v) => v,
            Err(e) => return Err(e),
        };
        let rotation_duration_secs = match parse_u16(
            "customDurationInSecondsToCompleteOneRevolution",
            value.rotation_duration_secs.as_str(),
        ) {
            Ok(v) => v,
            Err(e) => return Err(e),
        };
        Ok(Self {
            direction,
            rotations_per_day,
            action,
            hour,
            minutes,
            timer_enabled,
            screen_sleep: value.screen_sleep,
            screen_schedule_enabled: value.screen_schedule_enabled,
            screen_schedule_start,
            screen_schedule_end,
            custom_wind_duration_secs,
            custom_wind_pause_secs,
            rotation_duration_secs,
            rtc_gmt_offset_secs: value.rtc_gmt_offset_secs,
            rtc_dst: value.rtc_dst,
        })
    }
}

/// Raw power toggle payload.
#[derive(Debug, Clone, Copy, PartialEq, Eq)]
pub struct PowerPayload {
    /// Whether the winder should be enabled.
    pub winder_enabled: bool,
}

/// Response payload for `/api/status`.
#[derive(Debug, PartialEq, Eq)]
pub struct StatusResponse {
    /// Current winding status.
    pub status: String,
    /// Rotations per day.
    pub rotations_per_day: String,
    /// Winding direction.
    pub direction: String,
    /// Timer hour.
    pub hour: String,
    /// Timer minutes.
    pub minutes: String,
    /// Epoch when winding started.
    pub start_time_epoch: u64,
    /// Current epoch time.
    pub current_time_epoch: u64,
    /// Estimated finish epoch.
    pub estimated_routine_finish_epoch: u64,
    /// Winder enabled flag.
    pub winder_enabled: String,
    /// Timer enabled flag.
    pub timer_enabled: String,
    /// WiFi RSSI.
    pub db: i32,
    /// Whether the screen is asleep.
    pub screen_sleep: bool,
    /// Whether a screen is equipped.
    pub screen_equipped: bool,
    /// Custom wind duration.
    pub custom_wind_duration: String,
    /// Custom wind pause duration.
    pub custom_wind_pause_duration: String,
    /// Rotation duration.
    pub rotation_duration_secs: u16,
    /// UTC offset in seconds.
    pub gmt_offset_secs: i32,
    /// Firmware version.
    pub api_version: String,
    /// DST flag.
    pub dst: bool,
    /// Screen schedule enabled flag.
    pub screen_schedule_enabled: bool,
    /// Screen schedule start time.
    pub screen_schedule_start_time: String,
    /// Screen schedule end time.
    pub screen_schedule_end_time: String,
}

/// Mathematical model of a [`StatusResponse`].
pub struct StatusResponseModel {
    pub status: Seq<char>,
    pub rotations_per_day: Seq<char>,
    pub direction: Seq<char>,
    pub hour: Seq<char>,
    pub minutes: Seq<char>,
    pub start_time_epoch: u64,
    pub current_time_epoch: u64,
    pub estimated_routine_finish_epoch: u64,
    pub winder_enabled: Seq<char>,
    pub timer_enabled: Seq<char>,
    pub db: i32,
    pub screen_sleep: bool,
    pub screen_equipped: bool,
    pub custom_wind_duration: Seq<char>,
    pub custom_wind_pause_duration: Seq<char>,
    pub rotation_duration_secs: u16,
    pub gmt_offset_secs: i32,
    pub api_version: Seq<char>,
    pub dst: bool,
    pub screen_schedule_enabled: bool,
    pub screen_schedule_start_time: Seq<char>,
    pub screen_schedule_end_time: Seq<char>,
}

impl View for StatusResponse {
    type V = StatusResponseModel;

    open spec fn view(&self) -> StatusResponseModel {
        StatusResponseModel {
            status: self.status@,
            rotations_per_day: self.rotations_per_day@,
            direction: self.direction@,
            hour: self.hour@,
            minutes: self.minutes@,
            start_time_epoch: self.start_time_epoch,
            current_time_epoch: self.current_time_epoch,
            estimated_routine_finish_epoch: self.estimated_routine_finish_epoch,
            winder_enabled: self.winder_enabled@,
            timer_enabled: self.timer_enabled@,
            db: self.db,
            screen_sleep: self.screen_sleep,
            screen_equipped: self.screen_equipped,
            custom_wind_duration: self.custom_wind_duration@,
            custom_wind_pause_duration: self.custom_wind_pause_duration@,
            rotation_duration_secs: self.rotation_duration_secs,
            gmt_offset_secs: self.gmt_offset_secs,
            api_version: self.api_version@,
            dst: self.dst,
            screen_schedule_enabled: self.screen_schedule_enabled,
            screen_schedule_start_time: self.screen_schedule_start_time@,
            screen_schedule_end_time: self.screen_schedule_end_time@,
        }
    }
}

/// `1` for true, `0` for false.
pub open spec fn bit_text(b: bool) -> Seq<char> {
    if b {
        "1"@
    } else {
        "0"@
    }
}

/// The status response for a snapshot: numbers as decimal text, the timer
/// hour and minute zero-padded, flags as `1`/`0`, schedule times as `HH:MM`.
pub open spec fn status_response_of(s: StatusSnapshotModel) -> StatusResponseModel {
    StatusResponseModel {
        status: status_text(s.status),
        rotations_per_day: decimal_text(s.rotations_per_day as nat),
        direction: direction_text(s.direction),
        hour: pad2_text(s.timer_hour as nat),
        minutes: pad2_text(s.timer_minutes as nat),
        start_time_epoch: s.start_time_epoch,
        current_time_epoch: s.current_time_epoch,
        estimated_routine_finish_epoch: s.estimated_routine_finish_epoch,
        winder_enabled: bit_text(s.winder_enabled),
        timer_enabled: bit_text(s.timer_enabled),
        db: s.rssi_db,
        screen_sleep: s.screen_sleep,
        screen_equipped: s.screen_equipped,
        custom_wind_duration: decimal_text(s.custom_wind_duration_secs as nat),
        custom_wind_pause_duration: decimal_text(s.custom_wind_pause_secs as nat),
        rotation_duration_secs: s.rotation_duration_secs,
        gmt_offset_secs: s.gmt_offset_secs,
        api_version: s.api_version,
        dst: s.dst,
        screen_schedule_enabled: s.screen_schedule_enabled,
        screen_schedule_start_time: hh_mm_text(s.screen_schedule_start),
        screen_schedule_end_time: hh_mm_text(s.screen_schedule_end),
    }
}

/// The `1`/`0` text of a flag.
pub fn bit_string(b: bool) -> (s: String)
    ensures
        s@ == bit_text(b),
{
    if b {
        owned("1")
    } else {
        owned("0")
    }
}

/// A numeric JSON flag (such as `"winderEnabled": 1`): non-zero is `true`.
pub fn flag_of_number(value: i128) -> (b: bool)
    ensures
        b == (value != 0),
{
    value != 0
}

impl StatusResponse {
    /// Build a status response from a typed snapshot.
    pub fn from_snapshot(snapshot: &StatusSnapshot) -> (r: Self)
        ensures
            r@ == status_response_of(snapshot@),
    {
        Self {
            status: owned(snapshot.status.as_str()),
            rotations_per_day: decimal_string(snapshot.rotations_per_day as u64),
            direction: owned(snapshot.direction.as_api_str()),
            hour: pad2_string(snapshot.timer_hour),
            minutes: pad2_string(snapshot.timer_minutes),
            start_time_epoch: snapshot.start_time_epoch,
            current_time_epoch: snapshot.current_time_epoch,
            estimated_routine_finish_epoch: snapshot.estimated_routine_finish_epoch,
            winder_enabled: bit_string(snapshot.winder_enabled),
            timer_enabled: bit_string(snapshot.timer_enabled),
            db: snapshot.rssi_db,
            screen_sleep: snapshot.screen_sleep,
            screen_equipped: snapshot.screen_equipped,
            custom_wind_duration: decimal_string(snapshot.custom_wind_duration_secs as u64),
            custom_wind_pause_duration: decimal_string(snapshot.custom_wind_pause_secs as u64),
            rotation_duration_secs: snapshot.rotation_duration_secs,
            gmt_offset_secs: snapshot.gmt_offset_secs,
            api_version: snapshot.api_version.clone(),
            dst: snapshot.dst,
            screen_schedule_enabled: snapshot.screen_schedule_enabled,
            screen_schedule_start_time: snapshot.screen_schedule_start.to_hh_mm(),
            screen_schedule_end_time: snapshot.screen_schedule_end.to_hh_mm(),
        }
    }
}

/// Response payload for `/api/reset`.
#[derive(Debug, PartialEq, Eq)]
pub struct ResetResponse {
    /// Reset status message.
    pub status: String,
}

impl ResetResponse {
    /// Build the reset response.
    pub fn new() -> (r: Self)
        ensures
            r.status@ == "Resetting"@,
    {
        Self { status: owned("Resetting") }
    }
}

} // verus!
