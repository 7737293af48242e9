//! Home Assistant (MQTT) discovery and command protocol: topic names,
//! discovery payloads, state messages, and commands applied to the
//! controller.

use vstd::prelude::*;

use crate::controller::{
    apply_power_result, apply_timer_result, apply_update_result, motor_for_mode, persist_event,
    update_duration, winding_duration, Controller, ControllerEvent, EventModel,
    events_view, calculate_winding_duration_secs,
};
use crate::hardware::RandomSource;
use crate::model::{
    direction_index, direction_of_text, direction_text, status_text, Direction, MotorDirection, RuntimeModel,
    RuntimeState, UpdateAction, UpdateRequest,
};
use crate::settings::StoredSettings;
use crate::text::{
    chars_end_with, chars_of, decimal_string, decimal_text, owned, pad2_string, pad2_text,
    parse_unsigned, parse_unsigned_str, push_str, seq_ends_with, signed_string, signed_text,
    str_eq, string_from_chars, trim_chars, trim_text, utf8_text,
};
use crate::time::{
    epoch_with_offset, local_epoch, offset_hours_string, offset_hours_text, offset_secs_of_text,
    parse_offset_hours, time_new_result, TimeOfDay,
};

verus! {

/// A Home Assistant command received over MQTT.
#[derive(Debug, Clone, Copy, PartialEq, Eq, Structural)]
pub enum HaCommand {
    Power(bool),
    Timer(bool),
    /// OLED switch uses "ON" = screen awake.
    Oled(bool),
    Start,
    Stop,
    Direction(Direction),
    Rpd(u16),
    Hour(u8),
    Minute(u8),
    CustomWindDuration(u32),
    CustomWindPause(u32),
    RotationDuration(u16),
    /// UTC offset in seconds.
    RtcOffset(i32),
    RtcDst(bool),
    ScreenScheduleEnabled(bool),
    ScreenScheduleStartHour(u8),
    ScreenScheduleStartMinute(u8),
    ScreenScheduleEndHour(u8),
    ScreenScheduleEndMinute(u8),
}

/// The topic prefix of a device: `winderoo/<device id>`.
pub open spec fn base_topic(device_id: Seq<char>) -> Seq<char> {
    "winderoo/"@ + device_id
}

/// The command topic of a setting: `winderoo/<device id>/<key>/set`.
pub open spec fn command_topic(device_id: Seq<char>, key: Seq<char>) -> Seq<char> {
    base_topic(device_id) + "/"@ + key + "/set"@
}

/// The command topics to subscribe to, one for each command.
pub open spec fn topics_of(device_id: Seq<char>) -> Seq<Seq<char>> {
    seq![
        command_topic(device_id, "power"@),
        command_topic(device_id, "timer"@),
        command_topic(device_id, "oled"@),
        command_topic(device_id, "start"@),
        command_topic(device_id, "stop"@),
        command_topic(device_id, "direction"@),
        command_topic(device_id, "rpd"@),
        command_topic(device_id, "hour"@),
        command_topic(device_id, "minute"@),
        command_topic(device_id, "custom_wind_duration"@),
        command_topic(device_id, "custom_wind_pause"@),
        command_topic(device_id, "rotation_duration"@),
        command_topic(device_id, "rtc_offset"@),
        command_topic(device_id, "rtc_dst"@),
        command_topic(device_id, "screen_schedule_enabled"@),
        command_topic(device_id, "screen_schedule_start_hour"@),
        command_topic(device_id, "screen_schedule_start_minute"@),
        command_topic(device_id, "screen_schedule_end_hour"@),
        command_topic(device_id, "screen_schedule_end_minute"@),
    ]
}

/// The texts of a list of strings.
pub open spec fn texts_view(v: Seq<String>) -> Seq<Seq<char>> {
    v.map_values(|s: String| s@)
}

fn push_text(out: &mut Vec<String>, s: String)
    ensures
        texts_view(final(out)@) == texts_view(old(out)@).push(s@),
{
    let ghost sv = s@;
    out.push(s);
    assert(texts_view(out@) =~= texts_view(old(out)@).push(sv));
}

fn make_command_topic(device_id: &str, key: &str) -> (s: String)
    ensures
        s@ == command_topic(device_id@, key@),
{
    let mut s = owned("winderoo/");
    push_str(&mut s, device_id);
    push_str(&mut s, "/");
    push_str(&mut s, key);
    push_str(&mut s, "/set");
    assert(s@ =~= command_topic(device_id@, key@));
    s
}

/// Whether a payload switches something on: `1`, `true`, `True`, `TRUE`,
/// `on` or `ON`.
pub open spec fn on_text(s: Seq<char>) -> bool {
    s == "1"@ || s == "true"@ || s == "True"@ || s == "TRUE"@ || s == "on"@ || s == "ON"@
}

fn parse_bool(value: &str) -> (r: bool)
    ensures
        r == on_text(value@),
{
    str_eq(value, "1") || str_eq(value, "true") || str_eq(value, "True") || str_eq(value, "TRUE")
        || str_eq(value, "on") || str_eq(value, "ON")
}

/// The number in a payload, as a command.
pub open spec fn number_command(text: Seq<char>, max: nat, make: spec_fn(nat) -> HaCommand) -> Option<HaCommand> {
    match parse_unsigned(text, max) {
        Some(n) => Some(make(n)),
        None => None,
    }
}

/// The command that a topic and a (trimmed) payload text name: the first
/// command suffix that the topic ends with decides; a payload that does not
/// read as that command's value gives no command.
pub open spec fn command_of(topic: Seq<char>, p: Seq<char>) -> Option<HaCommand> {
    if seq_ends_with(topic, "/power/set"@) {
        Some(HaCommand::Power(on_text(p)))
    } else if seq_ends_with(topic, "/timer/set"@) {
        Some(HaCommand::Timer(on_text(p)))
    } else if seq_ends_with(topic, "/oled/set"@) {
        Some(HaCommand::Oled(on_text(p)))
    } else if seq_ends_with(topic, "/start/set"@) {
        Some(HaCommand::Start)
    } else if seq_ends_with(topic, "/stop/set"@) {
        Some(HaCommand::Stop)
    } else if seq_ends_with(topic, "/direction/set"@) {
        match direction_of_text(p) {
            Some(d) => Some(HaCommand::Direction(d)),
            None => None,
        }
    } else if seq_ends_with(topic, "/rpd/set"@) {
        number_command(p, 65535, |n: nat| HaCommand::Rpd(n as u16))
    } else if seq_ends_with(topic, "/hour/set"@) {
        number_command(p, 255, |n: nat| HaCommand::Hour(n as u8))
    } else if seq_ends_with(topic, "/minute/set"@) {
        number_command(p, 255, |n: nat| HaCommand::Minute(n as u8))
    } else if seq_ends_with(topic, "/custom_wind_duration/set"@) {
        number_command(p, 0xFFFF_FFFF, |n: nat| HaCommand::CustomWindDuration(n as u32))
    } else if seq_ends_with(topic, "/custom_wind_pause/set"@) {
        number_command(p, 0xFFFF_FFFF, |n: nat| HaCommand::CustomWindPause(n as u32))
    } else if seq_ends_with(topic, "/rotation_duration/set"@) {
        number_command(p, 65535, |n: nat| HaCommand::RotationDuration(n as u16))
    } else if seq_ends_with(topic, "/rtc_offset/set"@) {
        match offset_secs_of_text(p) {
            Some(o) => Some(HaCommand::RtcOffset(o)),
            None => None,
        }
    } else if seq_ends_with(topic, "/rtc_dst/set"@) {
        Some(HaCommand::RtcDst(on_text(p)))
    } else if seq_ends_with(topic, "/screen_schedule_enabled/set"@) {
        Some(HaCommand::ScreenScheduleEnabled(on_text(p)))
    } else if seq_ends_with(topic, "/screen_schedule_start_hour/set"@) {
        number_command(p, 255, |n: nat| HaCommand::ScreenScheduleStartHour(n as u8))
    } else if seq_ends_with(topic, "/screen_schedule_start_minute/set"@) {
        number_command(p, 255, |n: nat| HaCommand::ScreenScheduleStartMinute(n as u8))
    } else if seq_ends_with(topic, "/screen_schedule_end_hour/set"@) {
        number_command(p, 255, |n: nat| HaCommand::ScreenScheduleEndHour(n as u8))
    } else if seq_ends_with(topic, "/screen_schedule_end_minute/set"@) {
        number_command(p, 255, |n: nat| HaCommand::ScreenScheduleEndMinute(n as u8))
    } else {
        None
    }
}

/// The command an MQTT message carries: none unless the payload is UTF-8;
/// otherwise the command named by the topic and the trimmed payload text.
pub open spec fn message_command(topic: Seq<char>, payload: Seq<u8>) -> Option<HaCommand> {
    if vstd::utf8::valid_utf8(payload) {
        command_of(topic, trim_text(vstd::utf8::decode_utf8(payload)))
    } else {
        None
    }
}

/// A state that persists itself.
pub open spec fn persisted(t: RuntimeModel) -> (RuntimeModel, Seq<EventModel>) {
    (t, seq![persist_event(t)])
}

/// A running routine's finish re-estimated from `now`.
pub open spec fn refinished(t: RuntimeModel, now: u64) -> RuntimeModel {
    if t.routine.running {
        RuntimeModel {
            routine: crate::model::RoutineState {
                estimated_finish_epoch: (now + winding_duration(t)) as u64,
                ..t.routine
            },
            ..t
        }
    } else {
        t
    }
}

/// A time with a new hour, when that gives a valid time.
pub open spec fn with_hour(t: TimeOfDay, hour: u8) -> TimeOfDay {
    match time_new_result(hour, t.minute) {
        Ok(n) => n,
        Err(_) => t,
    }
}

/// A time with a new minute, when that gives a valid time.
pub open spec fn with_minute(t: TimeOfDay, minute: u8) -> TimeOfDay {
    match time_new_result(t.hour, minute) {
        Ok(n) => n,
        Err(_) => t,
    }
}

/// The full update that the REST API would send for the current state and
/// an action.
pub open spec fn build_update_of(s: RuntimeModel, action: UpdateAction) -> UpdateRequest {
    UpdateRequest {
        direction: s.direction,
        rotations_per_day: s.rotations_per_day,
        action,
        hour: s.timer.start_time.hour,
        minutes: s.timer.start_time.minute,
        timer_enabled: s.timer.enabled,
        screen_sleep: s.screen.sleep,
        screen_schedule_enabled: Some(s.screen.schedule.enabled),
        screen_schedule_start: Some(s.screen.schedule.start),
        screen_schedule_end: Some(s.screen.schedule.end),
        custom_wind_duration_secs: s.custom_wind_duration_secs,
        custom_wind_pause_secs: s.custom_wind_pause_secs,
        rotation_duration_secs: s.rotation_duration_secs,
        rtc_gmt_offset_secs: s.rtc.gmt_offset_secs,
        rtc_dst: s.rtc.dst,
    }
}

/// Applying a command at `now`. Power, timer, start and stop go through
/// the controller's own commands (start only when nothing runs); the other
/// commands set their field and persist, re-estimating a running routine's
/// finish when a duration input changes; the RTC commands also sync time.
pub open spec fn ha_apply_result(c: HaCommand, s: RuntimeModel, now: u64) -> (RuntimeModel, Seq<EventModel>) {
    match c {
        HaCommand::Power(e) => apply_power_result(s, e),
        HaCommand::Timer(e) => apply_timer_result(s, e),
        HaCommand::Oled(e) => persisted(RuntimeModel { screen: crate::model::ScreenState { sleep: !e, ..s.screen }, ..s }),
        HaCommand::Start => if !s.routine.running {
            apply_update_result(s, build_update_of(s, UpdateAction::Start), now)
        } else {
            (s, Seq::empty())
        },
        HaCommand::Stop => apply_update_result(s, build_update_of(s, UpdateAction::Stop), now),
        HaCommand::Direction(d) => persisted(RuntimeModel { direction: d, motor_direction: motor_for_mode(d, s.motor_direction), ..s }),
        HaCommand::Rpd(r) => persisted(refinished(RuntimeModel { rotations_per_day: r, ..s }, now)),
        HaCommand::Hour(h) => persisted(RuntimeModel {
            timer: crate::model::TimerConfig { start_time: with_hour(s.timer.start_time, h), ..s.timer },
            ..s
        }),
        HaCommand::Minute(m) => persisted(RuntimeModel {
            timer: crate::model::TimerConfig { start_time: with_minute(s.timer.start_time, m), ..s.timer },
            ..s
        }),
        HaCommand::CustomWindDuration(d) => persisted(refinished(RuntimeModel { custom_wind_duration_secs: d, ..s }, now)),
        HaCommand::CustomWindPause(d) => persisted(refinished(RuntimeModel { custom_wind_pause_secs: d, ..s }, now)),
        HaCommand::RotationDuration(d) => persisted(refinished(RuntimeModel { rotation_duration_secs: d, ..s }, now)),
        HaCommand::RtcOffset(o) => {
            let t = RuntimeModel { rtc: crate::model::RtcConfig { gmt_offset_secs: o, ..s.rtc }, ..s };
            (t, seq![EventModel::SyncTime, persist_event(t)])
        },
        HaCommand::RtcDst(b) => {
            let t = RuntimeModel { rtc: crate::model::RtcConfig { dst: b, ..s.rtc }, ..s };
            (t, seq![EventModel::SyncTime, persist_event(t)])
        },
        HaCommand::ScreenScheduleEnabled(b) => persisted(RuntimeModel {
            screen: crate::model::ScreenState {
                schedule: crate::model::ScreenSchedule { enabled: b, ..s.screen.schedule },
                ..s.screen
            },
            ..s
        }),
        HaCommand::ScreenScheduleStartHour(h) => persisted(RuntimeModel {
            screen: crate::model::ScreenState {
                schedule: crate::model::ScreenSchedule { start: with_hour(s.screen.schedule.start, h), ..s.screen.schedule },
                ..s.screen
            },
            ..s
        }),
        HaCommand::ScreenScheduleStartMinute(m) => persisted(RuntimeModel {
            screen: crate::model::ScreenState {
                schedule: crate::model::ScreenSchedule { start: with_minute(s.screen.schedule.start, m), ..s.screen.schedule },
                ..s.screen
            },
            ..s
        }),
        HaCommand::ScreenScheduleEndHour(h) => persisted(RuntimeModel {
            screen: crate::model::ScreenState {
                schedule: crate::model::ScreenSchedule { end: with_hour(s.screen.schedule.end, h), ..s.screen.schedule },
                ..s.screen
            },
            ..s
        }),
        HaCommand::ScreenScheduleEndMinute(m) => persisted(RuntimeModel {
            screen: crate::model::ScreenState {
                schedule: crate::model::ScreenSchedule { end: with_minute(s.screen.schedule.end, m), ..s.screen.schedule },
                ..s.screen
            },
            ..s
        }),
    }
}

/// Applying any command: only `Start` while a routine runs gives no events;
/// every other command's last event persists the state it leaves. An hour
/// above 23 or a minute above 59 leaves the time it targets (the timer's
/// start, the screen schedule's start or end) unchanged.
pub proof fn lemma_apply_persists_final_state(c: HaCommand, s: RuntimeModel, now: u64)
    ensures
        ({
            let (t, e) = ha_apply_result(c, s, now);
            &&& (e.len() == 0 <==> (c == HaCommand::Start && s.routine.running))
            &&& e.len() > 0 ==> e.last() == persist_event(t)
            &&& (c matches HaCommand::Hour(h) && h > 23) ==> t.timer.start_time == s.timer.start_time
            &&& (c matches HaCommand::Minute(m) && m > 59) ==> t.timer.start_time == s.timer.start_time
            &&& (c matches HaCommand::ScreenScheduleStartHour(h) && h > 23)
                ==> t.screen.schedule.start == s.screen.schedule.start
            &&& (c matches HaCommand::ScreenScheduleStartMinute(m) && m > 59)
                ==> t.screen.schedule.start == s.screen.schedule.start
            &&& (c matches HaCommand::ScreenScheduleEndHour(h) && h > 23)
                ==> t.screen.schedule.end == s.screen.schedule.end
            &&& (c matches HaCommand::ScreenScheduleEndMinute(m) && m > 59)
                ==> t.screen.schedule.end == s.screen.schedule.end
        }),
{
    match c {
        HaCommand::Power(e) => {
            crate::controller::lemma_commands_persist_final_state(s, e, build_update_of(s, UpdateAction::Stop), now);
        },
        HaCommand::Timer(e) => {
            crate::controller::lemma_commands_persist_final_state(s, e, build_update_of(s, UpdateAction::Stop), now);
        },
        HaCommand::Start => {
            crate::controller::lemma_commands_persist_final_state(s, true, build_update_of(s, UpdateAction::Start), now);
        },
        HaCommand::Stop => {
            crate::controller::lemma_commands_persist_final_state(s, true, build_update_of(s, UpdateAction::Stop), now);
        },
        _ => {},
    }
}

/// Switching the OLED: `ON` wakes the screen and `OFF` puts it to sleep;
/// nothing else in the state changes, and the new state persists.
pub proof fn lemma_oled_switch(on: bool, s: RuntimeModel, now: u64)
    ensures
        ({
            let (t, e) = ha_apply_result(HaCommand::Oled(on), s, now);
            &&& t.screen.sleep == !on
            &&& RuntimeModel { screen: crate::model::ScreenState { sleep: s.screen.sleep, ..t.screen }, ..t } == s
            &&& e == seq![persist_event(t)]
        }),
{
}

/// Whether a command's new finish estimate fits in an epoch: needed when it
/// starts a routine, or changes a duration input while one runs.
pub open spec fn ha_apply_fits(c: HaCommand, s: RuntimeModel, now: u64) -> bool {
    match c {
        HaCommand::Start => !s.routine.running ==> now + winding_duration(s) <= u64::MAX,
        HaCommand::Rpd(r) => s.routine.running ==> now + winding_duration(RuntimeModel { rotations_per_day: r, ..s }) <= u64::MAX,
        HaCommand::CustomWindDuration(d) => s.routine.running ==> now + winding_duration(RuntimeModel { custom_wind_duration_secs: d, ..s }) <= u64::MAX,
        HaCommand::CustomWindPause(d) => s.routine.running ==> now + winding_duration(RuntimeModel { custom_wind_pause_secs: d, ..s }) <= u64::MAX,
        HaCommand::RotationDuration(d) => s.routine.running ==> now + winding_duration(RuntimeModel { rotation_duration_secs: d, ..s }) <= u64::MAX,
        _ => true,
    }
}

/// Whether a command can be applied at `now_epoch`; see [`ha_apply_fits`].
pub fn ha_command_fits(cmd: HaCommand, state: &RuntimeState, now_epoch: u64) -> (b: bool)
    ensures
        b == ha_apply_fits(cmd, state@, now_epoch),
{
    let running = state.routine.running;
    let (rpd, rot, seg, pause) = (
        state.rotations_per_day,
        state.rotation_duration_secs,
        state.custom_wind_duration_secs,
        state.custom_wind_pause_secs,
    );
    let d = match cmd {
        HaCommand::Start => {
            if running {
                return true;
            }
            crate::controller::duration_secs(rpd, rot, seg, pause)
        },
        HaCommand::Rpd(r) => {
            if !running {
                return true;
            }
            crate::controller::duration_secs(r, rot, seg, pause)
        },
        HaCommand::CustomWindDuration(v) => {
            if !running {
                return true;
            }
            crate::controller::duration_secs(rpd, rot, v, pause)
        },
        HaCommand::CustomWindPause(v) => {
            if !running {
                return true;
            }
            crate::controller::duration_secs(rpd, rot, seg, v)
        },
        HaCommand::RotationDuration(v) => {
            if !running {
                return true;
            }
            crate::controller::duration_secs(rpd, v, seg, pause)
        },
        _ => {
            return true;
        },
    };
    now_epoch.checked_add(d).is_some()
}

fn persist_state(state: &RuntimeState) -> (events: Vec<ControllerEvent>)
    ensures
        events_view(events@) == seq![persist_event(state@)],
{
    let mut events = Vec::new();
    events.push(ControllerEvent::PersistSettings(StoredSettings::from_runtime(state)));
    assert(events_view(events@) =~= seq![persist_event(state@)]);
    events
}

fn refinish(state: &mut RuntimeState, now_epoch: u64)
    requires
        old(state).routine.running ==> now_epoch + winding_duration(old(state)@) <= u64::MAX,
    ensures
        final(state)@ == refinished(old(state)@, now_epoch),
{
    if state.routine.running {
        let duration = calculate_winding_duration_secs(state);
        state.routine.estimated_finish_epoch = now_epoch + duration;
    }
}

fn set_hour(t: TimeOfDay, hour: u8) -> (r: TimeOfDay)
    ensures
        r == with_hour(t, hour),
{
    match TimeOfDay::new(hour, t.minute) {
        Ok(n) => n,
        Err(_) => t,
    }
}

fn set_minute(t: TimeOfDay, minute: u8) -> (r: TimeOfDay)
    ensures
        r == with_minute(t, minute),
{
    match TimeOfDay::new(t.hour, minute) {
        Ok(n) => n,
        Err(_) => t,
    }
}

/// Whether a command sets a single field (all but power, timer, start and stop).
pub open spec fn sets_field(c: HaCommand) -> bool {
    !(c is Power || c is Timer || c is Start || c is Stop)
}

#[verifier::rlimit(40)]
fn apply_to_state(cmd: HaCommand, state: &mut RuntimeState, now_epoch: u64) -> (events: Vec<ControllerEvent>)
    requires
        sets_field(cmd),
        ha_apply_fits(cmd, old(state)@, now_epoch),
    ensures
        (final(state)@, events_view(events@)) == ha_apply_result(cmd, old(state)@, now_epoch),
{
    match cmd {
            HaCommand::Oled(enabled) => {
                state.screen.sleep = !enabled;
                persist_state(state)
            },
            HaCommand::Direction(direction) => {
                state.direction = direction;
                state.motor_direction = match direction {
                    Direction::Clockwise => MotorDirection::Clockwise,
                    Direction::CounterClockwise => MotorDirection::CounterClockwise,
                    Direction::Both => state.motor_direction,
                };
                persist_state(state)
            },
            HaCommand::Rpd(rpd) => {
                state.rotations_per_day = rpd;
                refinish(state, now_epoch);
                persist_state(state)
            },
            HaCommand::Hour(hour) => {
                state.timer.start_time = set_hour(state.timer.start_time, hour);
                persist_state(state)
            },
            HaCommand::Minute(minute) => {
                state.timer.start_time = set_minute(state.timer.start_time, minute);
                persist_state(state)
            },
            HaCommand::CustomWindDuration(duration) => {
                state.custom_wind_duration_secs = duration;
                refinish(state, now_epoch);
                persist_state(state)
            },
            HaCommand::CustomWindPause(duration) => {
                state.custom_wind_pause_secs = duration;
                refinish(state, now_epoch);
                persist_state(state)
            },
            HaCommand::RotationDuration(duration) => {
                state.rotation_duration_secs = duration;
                refinish(state, now_epoch);
                persist_state(state)
            },
            HaCommand::RtcOffset(offset) => {
                state.rtc.gmt_offset_secs = offset;
                let mut events = Vec::new();
                events.push(ControllerEvent::SyncTime);
                events.push(ControllerEvent::PersistSettings(StoredSettings::from_runtime(&state)));
                assert(events_view(events@) =~= ha_apply_result(cmd, old(state)@, now_epoch).1);
                events
            },
            HaCommand::RtcDst(dst) => {
                state.rtc.dst = dst;
                let mut events = Vec::new();
                events.push(ControllerEvent::SyncTime);
                events.push(ControllerEvent::PersistSettings(StoredSettings::from_runtime(&state)));
                assert(events_view(events@) =~= ha_apply_result(cmd, old(state)@, now_epoch).1);
                events
            },
            HaCommand::ScreenScheduleEnabled(enabled) => {
                state.screen.schedule.enabled = enabled;
                persist_state(state)
            },
            HaCommand::ScreenScheduleStartHour(hour) => {
                state.screen.schedule.start = set_hour(state.screen.schedule.start, hour);
                persist_state(state)
            },
            HaCommand::ScreenScheduleStartMinute(minute) => {
                state.screen.schedule.start = set_minute(state.screen.schedule.start, minute);
                persist_state(state)
            },
            HaCommand::ScreenScheduleEndHour(hour) => {
                state.screen.schedule.end = set_hour(state.screen.schedule.end, hour);
                persist_state(state)
            },
            HaCommand::ScreenScheduleEndMinute(minute) => {
                state.screen.schedule.end = set_minute(state.screen.schedule.end, minute);
                persist_state(state)
            },
            _ => {
                assert(false);
                Vec::new()
            },
    }
}

impl HaCommand {
    /// Topics that should be subscribed to for incoming commands.
    pub fn topics(device_id: &str) -> (r: Vec<String>)
        ensures
            texts_view(r@) == topics_of(device_id@),
    {
        let mut out: Vec<String> = Vec::new();
        push_text(&mut out, make_command_topic(device_id, "power"));
        push_text(&mut out, make_command_topic(device_id, "timer"));
        push_text(&mut out, make_command_topic(device_id, "oled"));
        push_text(&mut out, make_command_topic(device_id, "start"));
        push_text(&mut out, make_command_topic(device_id, "stop"));
        push_text(&mut out, make_command_topic(device_id, "direction"));
        push_text(&mut out, make_command_topic(device_id, "rpd"));
        push_text(&mut out, make_command_topic(device_id, "hour"));
        push_text(&mut out, make_command_topic(device_id, "minute"));
        push_text(&mut out, make_command_topic(device_id, "custom_wind_duration"));
        push_text(&mut out, make_command_topic(device_id, "custom_wind_pause"));
        push_text(&mut out, make_command_topic(device_id, "rotation_duration"));
        push_text(&mut out, make_command_topic(device_id, "rtc_offset"));
        push_text(&mut out, make_command_topic(device_id, "rtc_dst"));
        push_text(&mut out, make_command_topic(device_id, "screen_schedule_enabled"));
        push_text(&mut out, make_command_topic(device_id, "screen_schedule_start_hour"));
        push_text(&mut out, make_command_topic(device_id, "screen_schedule_start_minute"));
        push_text(&mut out, make_command_topic(device_id, "screen_schedule_end_hour"));
        push_text(&mut out, make_command_topic(device_id, "screen_schedule_end_minute"));
        assert(texts_view(out@) =~= topics_of(device_id@));
        out
    }

    /// Parse an MQTT topic + payload into a typed command.
    pub fn parse(topic: &str, payload: &[u8]) -> (r: Option<Self>)
        ensures
            r == message_command(topic@, payload@),
    {
        let text = match utf8_text(payload) {
            Some(t) => t,
            None => return None,
        };
        let tv = chars_of(text);
        let trimmed = trim_chars(tv.as_slice());
        let p = string_from_chars(trimmed.as_slice());
        let p = p.as_str();
        let t = chars_of(topic);
        let t = t.as_slice();
        if chars_end_with(t, "/power/set") {
            return Some(Self::Power(parse_bool(p)));
        }
        if chars_end_with(t, "/timer/set") {
            return Some(Self::Timer(parse_bool(p)));
        }
        if chars_end_with(t, "/oled/set") {
            return Some(Self::Oled(parse_bool(p)));
        }
        if chars_end_with(t, "/start/set") {
            return Some(Self::Start);
        }
        if chars_end_with(t, "/stop/set") {
            return Some(Self::Stop);
        }
        if chars_end_with(t, "/direction/set") {
            return match Direction::from_api(p) {
                Some(d) => Some(Self::Direction(d)),
                None => None,
            };
        }
        if chars_end_with(t, "/rpd/set") {
            return match parse_unsigned_str(p, 65535) {
                Some(n) => Some(Self::Rpd(n as u16)),
                None => None,
            };
        }
        if chars_end_with(t, "/hour/set") {
            return match parse_unsigned_str(p, 255) {
                Some(n) => Some(Self::Hour(n as u8)),
                None => None,
            };
        }
        if chars_end_with(t, "/minute/set") {
            return match parse_unsigned_str(p, 255) {
                Some(n) => Some(Self::Minute(n as u8)),
                None => None,
            };
        }
        if chars_end_with(t, "/custom_wind_duration/set") {
            return match parse_unsigned_str(p, 0xFFFF_FFFF) {
                Some(n) => Some(Self::CustomWindDuration(n)),
                None => None,
            };
        }
        if chars_end_with(t, "/custom_wind_pause/set") {
            return match parse_unsigned_str(p, 0xFFFF_FFFF) {
                Some(n) => Some(Self::CustomWindPause(n)),
                None => None,
            };
        }
        if chars_end_with(t, "/rotation_duration/set") {
            return match parse_unsigned_str(p, 65535) {
                Some(n) => Some(Self::RotationDuration(n as u16)),
                None => None,
            };
        }
        if chars_end_with(t, "/rtc_offset/set") {
            return match parse_offset_hours(p) {
                Some(o) => Some(Self::RtcOffset(o)),
                None => None,
            };
        }
        if chars_end_with(t, "/rtc_dst/set") {
            return Some(Self::RtcDst(parse_bool(p)));
        }
        if chars_end_with(t, "/screen_schedule_enabled/set") {
            return Some(Self::ScreenScheduleEnabled(parse_bool(p)));
        }
        if chars_end_with(t, "/screen_schedule_start_hour/set") {
            return match parse_unsigned_str(p, 255) {
                Some(n) => Some(Self::ScreenScheduleStartHour(n as u8)),
                None => None,
            };
        }
        if chars_end_with(t, "/screen_schedule_start_minute/set") {
            return match parse_unsigned_str(p, 255) {
                Some(n) => Some(Self::ScreenScheduleStartMinute(n as u8)),
                None => None,
            };
        }
        if chars_end_with(t, "/screen_schedule_end_hour/set") {
            return match parse_unsigned_str(p, 255) {
                Some(n) => Some(Self::ScreenScheduleEndHour(n as u8)),
                None => None,
            };
        }
        if chars_end_with(t, "/screen_schedule_end_minute/set") {
            return match parse_unsigned_str(p, 255) {
                Some(n) => Some(Self::ScreenScheduleEndMinute(n as u8)),
                None => None,
            };
        }
        None
    }

    /// Apply this command to the controller, returning firmware events to enact.
    pub fn apply<R: RandomSource>(self, controller: &mut Controller<R>, now_epoch: u64) -> (events: Vec<ControllerEvent>)
        requires
            ha_apply_fits(self, old(controller).state@, now_epoch),
        ensures
            (final(controller).state@, events_view(events@)) == ha_apply_result(self, old(controller).state@, now_epoch),
            final(controller).rng == old(controller).rng,
    {
        match self {
            HaCommand::Power(enabled) => controller.apply_power(enabled),
            HaCommand::Timer(enabled) => controller.apply_timer_enabled(enabled),
            HaCommand::Start => {
                if !controller.state.routine.running {
                    let update = build_update(controller, UpdateAction::Start);
                    controller.apply_update(update, now_epoch)
                } else {
                    let events = Vec::new();
                    assert(events_view(events@) =~= Seq::<EventModel>::empty());
                    events
                }
            },
            HaCommand::Stop => {
                let update = build_update(controller, UpdateAction::Stop);
                controller.apply_update(update, now_epoch)
            },
            _ => apply_to_state(self, &mut controller.state, now_epoch),
        }
    }
}

/// Build a full `UpdateRequest` equivalent to the REST API payload.
pub fn build_update<R: RandomSource>(controller: &Controller<R>, action: UpdateAction) -> (u: UpdateRequest)
    ensures
        u == build_update_of(controller.state@, action),
        update_duration(u) == winding_duration(controller.state@),
{
    UpdateRequest {
        direction: controller.state.direction,
        rotations_per_day: controller.state.rotations_per_day,
        action,
        hour: controller.state.timer.start_time.hour,
        minutes: controller.state.timer.start_time.minute,
        timer_enabled: controller.state.timer.enabled,
        screen_sleep: controller.state.screen.sleep,
        screen_schedule_enabled: Some(controller.state.screen.schedule.enabled),
        screen_schedule_start: Some(controller.state.screen.schedule.start),
        screen_schedule_end: Some(controller.state.screen.schedule.end),
        custom_wind_duration_secs: controller.state.custom_wind_duration_secs,
        custom_wind_pause_secs: controller.state.custom_wind_pause_secs,
        rotation_duration_secs: controller.state.rotation_duration_secs,
        rtc_gmt_offset_secs: controller.state.rtc.gmt_offset_secs,
        rtc_dst: controller.state.rtc.dst,
    }
}

/// The texts of a list of topic/payload pairs.
pub open spec fn pairs_view(v: Seq<(String, String)>) -> Seq<(Seq<char>, Seq<char>)> {
    v.map_values(|p: (String, String)| (p.0@, p.1@))
}

fn push_pair(out: &mut Vec<(String, String)>, p: (String, String))
    ensures
        pairs_view(final(out)@) == pairs_view(old(out)@).push((p.0@, p.1@)),
{
    let ghost pv = (p.0@, p.1@);
    out.push(p);
    assert(pairs_view(out@) =~= pairs_view(old(out)@).push(pv));
}

/// The Home Assistant device description shared by all discovery payloads.
pub open spec fn device_json(device_id: Seq<char>, api_version: Seq<char>) -> Seq<char> {
    "{\"identifiers\":[\""@ + device_id
        + "\"],\"name\":\"Winderoo\",\"model\":\"Winderoo\",\"manufacturer\":\"mwood77\",\"sw_version\":\""@
        + api_version + "\"}"@
}

/// A discovery topic: `homeassistant/<component>/<device id>_<object>/config`.
pub open spec fn config_topic(device_id: Seq<char>, component: Seq<char>, object: Seq<char>) -> Seq<char> {
    "homeassistant/"@ + component + "/"@ + device_id + "_"@ + object + "/config"@
}

/// A discovery payload: the name, the state topic and the command topic
/// where the entity has them, the entity's own fields, and the device.
pub open spec fn config_payload(
    base: Seq<char>,
    device: Seq<char>,
    name: Seq<char>,
    key: Seq<char>,
    has_state: bool,
    has_command: bool,
    extra: Seq<char>,
) -> Seq<char> {
    "{\"name\":\""@ + name + "\""@
        + (if has_state { ",\"state_topic\":\""@ + base + "/"@ + key + "\""@ } else { Seq::empty() })
        + (if has_command { ",\"command_topic\":\""@ + base + "/"@ + key + "/set\""@ } else { Seq::empty() })
        + extra + ",\"device\":"@ + device + "}"@
}

/// One discovery message.
pub open spec fn config_entry_of(
    device_id: Seq<char>,
    api_version: Seq<char>,
    component: Seq<char>,
    object: Seq<char>,
    name: Seq<char>,
    key: Seq<char>,
    has_state: bool,
    has_command: bool,
    extra: Seq<char>,
) -> (Seq<char>, Seq<char>) {
    (
        config_topic(device_id, component, object),
        config_payload(base_topic(device_id), device_json(device_id, api_version), name, key, has_state, has_command, extra),
    )
}

fn config_entry(
    device_id: &str,
    base: &str,
    device: &str,
    component: &str,
    object: &str,
    name: &str,
    key: &str,
    has_state: bool,
    has_command: bool,
    extra: &str,
) -> (r: (String, String))
    ensures
        r.0@ == config_topic(device_id@, component@, object@),
        r.1@ == config_payload(base@, device@, name@, key@, has_state, has_command, extra@),
{
    let mut topic = owned("homeassistant/");
    push_str(&mut topic, component);
    push_str(&mut topic, "/");
    push_str(&mut topic, device_id);
    push_str(&mut topic, "_");
    push_str(&mut topic, object);
    push_str(&mut topic, "/config");
    let mut payload = owned("{\"name\":\"");
    push_str(&mut payload, name);
    push_str(&mut payload, "\"");
    if has_state {
        push_str(&mut payload, ",\"state_topic\":\"");
        push_str(&mut payload, base);
        push_str(&mut payload, "/");
        push_str(&mut payload, key);
        push_str(&mut payload, "\"");
    }
    let ghost after_state = payload@;
    if has_command {
        push_str(&mut payload, ",\"command_topic\":\"");
        push_str(&mut payload, base);
        push_str(&mut payload, "/");
        push_str(&mut payload, key);
        push_str(&mut payload, "/set\"");
    }
    push_str(&mut payload, extra);
    push_str(&mut payload, ",\"device\":");
    push_str(&mut payload, device);
    push_str(&mut payload, "}");
    assert(topic@ =~= config_topic(device_id@, component@, object@));
    assert(payload@ =~= config_payload(base@, device@, name@, key@, has_state, has_command, extra@));
    (topic, payload)
}

/// The options of the direction selector, in selector order.
pub open spec fn direction_options() -> Seq<Seq<char>> {
    seq!["CCW"@, "BOTH"@, "CW"@]
}

/// The items of a JSON array of strings, comma-separated.
pub open spec fn json_string_items(items: Seq<Seq<char>>) -> Seq<char>
    decreases items.len(),
{
    if items.len() == 0 {
        Seq::empty()
    } else if items.len() == 1 {
        "\""@ + items[0] + "\""@
    } else {
        "\""@ + items[0] + "\","@ + json_string_items(items.drop_first())
    }
}

/// The entity fields of the direction selector: its options as a JSON
/// array, and its icon.
pub open spec fn direction_selector_fields() -> Seq<char> {
    ",\"options\":["@ + json_string_items(direction_options()) + "],\"icon\":\"mdi:arrow-left-right\""@
}

/// The direction selector of the discovery messages lists the options
/// `CCW`, `BOTH`, `CW`; each direction's selector index picks its own API
/// text from that list, and the index is one of 0, 1, 2, a different one
/// for each direction.
pub proof fn lemma_direction_selector(device_id: Seq<char>, api_version: Seq<char>, d: Direction, e: Direction)
    ensures
        config_messages_of(device_id, api_version)[6] == config_entry_of(
            device_id,
            api_version,
            "select"@,
            "direction"@,
            "Direction"@,
            "direction"@,
            true,
            true,
            direction_selector_fields(),
        ),
        direction_index(d) < direction_options().len(),
        direction_options()[direction_index(d) as int] == direction_text(d),
        direction_index(d) == direction_index(e) ==> d == e,
{
    reveal_strlit("CCW");
    reveal_strlit("BOTH");
    reveal_strlit("CW");
    reveal_strlit("\"");
    reveal_strlit("\",");
    reveal_strlit(",\"options\":[");
    reveal_strlit("],\"icon\":\"mdi:arrow-left-right\"");
    reveal_strlit(",\"options\":[\"CCW\",\"BOTH\",\"CW\"],\"icon\":\"mdi:arrow-left-right\"");
    let items = direction_options();
    let rest = items.drop_first();
    let last = rest.drop_first();
    assert(last =~= seq!["CW"@]);
    assert(rest =~= seq!["BOTH"@, "CW"@]);
    assert(json_string_items(last) == "\""@ + "CW"@ + "\""@);
    assert(json_string_items(rest) == "\""@ + "BOTH"@ + "\","@ + json_string_items(last));
    assert(json_string_items(items) == "\""@ + "CCW"@ + "\","@ + json_string_items(rest));
    assert(direction_selector_fields() =~= ",\"options\":[\"CCW\",\"BOTH\",\"CW\"],\"icon\":\"mdi:arrow-left-right\""@);
}

/// Home Assistant discovery config messages (topic, JSON payload).
pub open spec fn config_messages_of(device_id: Seq<char>, api_version: Seq<char>) -> Seq<(Seq<char>, Seq<char>)> {
    seq![
        config_entry_of(device_id, api_version, "switch"@, "power"@, "Power"@, "power"@, true, true, ",\"icon\":\"mdi:power\""@),
        config_entry_of(device_id, api_version, "switch"@, "timer"@, "Timer Enabled"@, "timer"@, true, true, ",\"icon\":\"mdi:timer\""@),
        config_entry_of(device_id, api_version, "switch"@, "oled"@, "OLED"@, "oled"@, true, true, ",\"icon\":\"mdi:overscan\""@),
        config_entry_of(device_id, api_version, "button"@, "start"@, "Start"@, "start"@, false, true, ""@),
        config_entry_of(device_id, api_version, "button"@, "stop"@, "Stop"@, "stop"@, false, true, ""@),
        config_entry_of(device_id, api_version, "number"@, "rpd"@, "Rotations Per Day"@, "rpd"@, true, true, ",\"min\":100,\"max\":960,\"step\":10,\"icon\":\"mdi:rotate-3d-variant\""@),
        config_entry_of(device_id, api_version, "select"@, "direction"@, "Direction"@, "direction"@, true, true, ",\"options\":[\"CCW\",\"BOTH\",\"CW\"],\"icon\":\"mdi:arrow-left-right\""@),
        config_entry_of(device_id, api_version, "select"@, "hour"@, "Hour"@, "hour"@, true, true, ",\"options\":[\"00\",\"01\",\"02\",\"03\",\"04\",\"05\",\"06\",\"07\",\"08\",\"09\",\"10\",\"11\",\"12\",\"13\",\"14\",\"15\",\"16\",\"17\",\"18\",\"19\",\"20\",\"21\",\"22\",\"23\"],\"icon\":\"mdi:timer-sand-full\""@),
        config_entry_of(device_id, api_version, "select"@, "minute"@, "Minutes"@, "minute"@, true, true, ",\"options\":[\"00\",\"10\",\"20\",\"30\",\"40\",\"50\"],\"icon\":\"mdi:timer-sand-empty\""@),
        config_entry_of(device_id, api_version, "sensor"@, "status"@, "Status"@, "status"@, true, false, ",\"icon\":\"mdi:information\""@),
        config_entry_of(device_id, api_version, "sensor"@, "rssi"@, "WiFi RSSI"@, "rssi"@, true, false, ",\"unit_of_measurement\":\"dBm\""@),
        config_entry_of(device_id, api_version, "number"@, "custom_wind_duration"@, "Time to Rotate"@, "custom_wind_duration"@, true, true, ",\"min\":100,\"max\":960,\"step\":10,\"icon\":\"mdi:play-circle-outline\""@),
        config_entry_of(device_id, api_version, "number"@, "custom_wind_pause"@, "Time to Pause"@, "custom_wind_pause"@, true, true, ",\"min\":10,\"max\":900,\"step\":5,\"icon\":\"mdi:pause-circle-outline\""@),
        config_entry_of(device_id, api_version, "number"@, "rotation_duration"@, "Rotation Duration"@, "rotation_duration"@, true, true, ",\"min\":1,\"max\":16,\"step\":1,\"icon\":\"mdi:arrow-u-down-right\""@),
        config_entry_of(device_id, api_version, "select"@, "rtc_offset"@, "UTC Offset"@, "rtc_offset"@, true, true, ",\"options\":[\"-12\",\"-11\",\"-10\",\"-9.5\",\"-9\",\"-8\",\"-7\",\"-6\",\"-5\",\"-4.5\",\"-4\",\"-3.5\",\"-3\",\"-2\",\"-1\",\"0\",\"1\",\"2\",\"3\",\"3.5\",\"4\",\"4.5\",\"5\",\"5.5\",\"5.75\",\"6\",\"6.5\",\"7\",\"8\",\"8.75\",\"9\",\"9.5\",\"10\",\"10.5\",\"11\",\"11.5\",\"12\",\"12.75\",\"13\",\"14\"],\"icon\":\"mdi:clock-time-eight-outline\""@),
        config_entry_of(device_id, api_version, "switch"@, "rtc_dst"@, "DST"@, "rtc_dst"@, true, true, ",\"icon\":\"mdi:clock-time-four-outline\""@),
        config_entry_of(device_id, api_version, "switch"@, "screen_schedule"@, "Screen Schedule Enabled"@, "screen_schedule_enabled"@, true, true, ",\"icon\":\"mdi:calendar-clock\""@),
        config_entry_of(device_id, api_version, "select"@, "screen_schedule_start_hour"@, "Screen Schedule Start Hour"@, "screen_schedule_start_hour"@, true, true, ",\"options\":[\"00\",\"01\",\"02\",\"03\",\"04\",\"05\",\"06\",\"07\",\"08\",\"09\",\"10\",\"11\",\"12\",\"13\",\"14\",\"15\",\"16\",\"17\",\"18\",\"19\",\"20\",\"21\",\"22\",\"23\"],\"icon\":\"mdi:clock-outline\""@),
        config_entry_of(device_id, api_version, "select"@, "screen_schedule_start_minute"@, "Screen Schedule Start Minute"@, "screen_schedule_start_minute"@, true, true, ",\"options\":[\"00\",\"10\",\"20\",\"30\",\"40\",\"50\"],\"icon\":\"mdi:clock-outline\""@),
        config_entry_of(device_id, api_version, "select"@, "screen_schedule_end_hour"@, "Screen Schedule End Hour"@, "screen_schedule_end_hour"@, true, true, ",\"options\":[\"00\",\"01\",\"02\",\"03\",\"04\",\"05\",\"06\",\"07\",\"08\",\"09\",\"10\",\"11\",\"12\",\"13\",\"14\",\"15\",\"16\",\"17\",\"18\",\"19\",\"20\",\"21\",\"22\",\"23\"],\"icon\":\"mdi:clock-outline\""@),
        config_entry_of(device_id, api_version, "select"@, "screen_schedule_end_minute"@, "Screen Schedule End Minute"@, "screen_schedule_end_minute"@, true, true, ",\"options\":[\"00\",\"10\",\"20\",\"30\",\"40\",\"50\"],\"icon\":\"mdi:clock-outline\""@),
        config_entry_of(device_id, api_version, "sensor"@, "rtc_epoch"@, "RTC Epoch Time"@, "rtc_epoch"@, true, false, ",\"icon\":\"mdi:clock-time-nine-outline\""@),
    ]
}

/// Home Assistant discovery config messages (topic, JSON payload).
#[verifier::rlimit(40)]
pub fn config_messages(device_id: &str, api_version: &str) -> (r: Vec<(String, String)>)
    ensures
        pairs_view(r@) == config_messages_of(device_id@, api_version@),
{
    let mut base = owned("winderoo/");
    push_str(&mut base, device_id);
    let mut device = owned("{\"identifiers\":[\"");
    push_str(&mut device, device_id);
    push_str(&mut device, "\"],\"name\":\"Winderoo\",\"model\":\"Winderoo\",\"manufacturer\":\"mwood77\",\"sw_version\":\"");
    push_str(&mut device, api_version);
    push_str(&mut device, "\"}");
    assert(base@ =~= base_topic(device_id@));
    assert(device@ =~= device_json(device_id@, api_version@));
    let mut out: Vec<(String, String)> = Vec::new();
    push_pair(&mut out, config_entry(device_id, base.as_str(), device.as_str(), "switch", "power", "Power", "power", true, true, ",\"icon\":\"mdi:power\""));
    push_pair(&mut out, config_entry(device_id, base.as_str(), device.as_str(), "switch", "timer", "Timer Enabled", "timer", true, true, ",\"icon\":\"mdi:timer\""));
    push_pair(&mut out, config_entry(device_id, base.as_str(), device.as_str(), "switch", "oled", "OLED", "oled", true, true, ",\"icon\":\"mdi:overscan\""));
    push_pair(&mut out, config_entry(device_id, base.as_str(), device.as_str(), "button", "start", "Start", "start", false, true, ""));
    push_pair(&mut out, config_entry(device_id, base.as_str(), device.as_str(), "button", "stop", "Stop", "stop", false, true, ""));
    push_pair(&mut out, config_entry(device_id, base.as_str(), device.as_str(), "number", "rpd", "Rotations Per Day", "rpd", true, true, ",\"min\":100,\"max\":960,\"step\":10,\"icon\":\"mdi:rotate-3d-variant\""));
    push_pair(&mut out, config_entry(device_id, base.as_str(), device.as_str(), "select", "direction", "Direction", "direction", true, true, ",\"options\":[\"CCW\",\"BOTH\",\"CW\"],\"icon\":\"mdi:arrow-left-right\""));
    push_pair(&mut out, config_entry(device_id, base.as_str(), device.as_str(), "select", "hour", "Hour", "hour", true, true, ",\"options\":[\"00\",\"01\",\"02\",\"03\",\"04\",\"05\",\"06\",\"07\",\"08\",\"09\",\"10\",\"11\",\"12\",\"13\",\"14\",\"15\",\"16\",\"17\",\"18\",\"19\",\"20\",\"21\",\"22\",\"23\"],\"icon\":\"mdi:timer-sand-full\""));
    push_pair(&mut out, config_entry(device_id, base.as_str(), device.as_str(), "select", "minute", "Minutes", "minute", true, true, ",\"options\":[\"00\",\"10\",\"20\",\"30\",\"40\",\"50\"],\"icon\":\"mdi:timer-sand-empty\""));
    push_pair(&mut out, config_entry(device_id, base.as_str(), device.as_str(), "sensor", "status", "Status", "status", true, false, ",\"icon\":\"mdi:information\""));
    push_pair(&mut out, config_entry(device_id, base.as_str(), device.as_str(), "sensor", "rssi", "WiFi RSSI", "rssi", true, false, ",\"unit_of_measurement\":\"dBm\""));
    push_pair(&mut out, config_entry(device_id, base.as_str(), device.as_str(), "number", "custom_wind_duration", "Time to Rotate", "custom_wind_duration", true, true, ",\"min\":100,\"max\":960,\"step\":10,\"icon\":\"mdi:play-circle-outline\""));
    push_pair(&mut out, config_entry(device_id, base.as_str(), device.as_str(), "number", "custom_wind_pause", "Time to Pause", "custom_wind_pause", true, true, ",\"min\":10,\"max\":900,\"step\":5,\"icon\":\"mdi:pause-circle-outline\""));
    push_pair(&mut out, config_entry(device_id, base.as_str(), device.as_str(), "number", "rotation_duration", "Rotation Duration", "rotation_duration", true, true, ",\"min\":1,\"max\":16,\"step\":1,\"icon\":\"mdi:arrow-u-down-right\""));
    push_pair(&mut out, config_entry(device_id, base.as_str(), device.as_str(), "select", "rtc_offset", "UTC Offset", "rtc_offset", true, true, ",\"options\":[\"-12\",\"-11\",\"-10\",\"-9.5\",\"-9\",\"-8\",\"-7\",\"-6\",\"-5\",\"-4.5\",\"-4\",\"-3.5\",\"-3\",\"-2\",\"-1\",\"0\",\"1\",\"2\",\"3\",\"3.5\",\"4\",\"4.5\",\"5\",\"5.5\",\"5.75\",\"6\",\"6.5\",\"7\",\"8\",\"8.75\",\"9\",\"9.5\",\"10\",\"10.5\",\"11\",\"11.5\",\"12\",\"12.75\",\"13\",\"14\"],\"icon\":\"mdi:clock-time-eight-outline\""));
    push_pair(&mut out, config_entry(device_id, base.as_str(), device.as_str(), "switch", "rtc_dst", "DST", "rtc_dst", true, true, ",\"icon\":\"mdi:clock-time-four-outline\""));
    push_pair(&mut out, config_entry(device_id, base.as_str(), device.as_str(), "switch", "screen_schedule", "Screen Schedule Enabled", "screen_schedule_enabled", true, true, ",\"icon\":\"mdi:calendar-clock\""));
    push_pair(&mut out, config_entry(device_id, base.as_str(), device.as_str(), "select", "screen_schedule_start_hour", "Screen Schedule Start Hour", "screen_schedule_start_hour", true, true, ",\"options\":[\"00\",\"01\",\"02\",\"03\",\"04\",\"05\",\"06\",\"07\",\"08\",\"09\",\"10\",\"11\",\"12\",\"13\",\"14\",\"15\",\"16\",\"17\",\"18\",\"19\",\"20\",\"21\",\"22\",\"23\"],\"icon\":\"mdi:clock-outline\""));
    push_pair(&mut out, config_entry(device_id, base.as_str(), device.as_str(), "select", "screen_schedule_start_minute", "Screen Schedule Start Minute", "screen_schedule_start_minute", true, true, ",\"options\":[\"00\",\"10\",\"20\",\"30\",\"40\",\"50\"],\"icon\":\"mdi:clock-outline\""));
    push_pair(&mut out, config_entry(device_id, base.as_str(), device.as_str(), "select", "screen_schedule_end_hour", "Screen Schedule End Hour", "screen_schedule_end_hour", true, true, ",\"options\":[\"00\",\"01\",\"02\",\"03\",\"04\",\"05\",\"06\",\"07\",\"08\",\"09\",\"10\",\"11\",\"12\",\"13\",\"14\",\"15\",\"16\",\"17\",\"18\",\"19\",\"20\",\"21\",\"22\",\"23\"],\"icon\":\"mdi:clock-outline\""));
    push_pair(&mut out, config_entry(device_id, base.as_str(), device.as_str(), "select", "screen_schedule_end_minute", "Screen Schedule End Minute", "screen_schedule_end_minute", true, true, ",\"options\":[\"00\",\"10\",\"20\",\"30\",\"40\",\"50\"],\"icon\":\"mdi:clock-outline\""));
    push_pair(&mut out, config_entry(device_id, base.as_str(), device.as_str(), "sensor", "rtc_epoch", "RTC Epoch Time", "rtc_epoch", true, false, ",\"icon\":\"mdi:clock-time-nine-outline\""));
    assert(pairs_view(out@) =~= config_messages_of(device_id@, api_version@));
    out
}

/// A discovery entity: its component, object id, display name, key, whether
/// it has a state topic and a command topic, and its own JSON fields.
pub type DiscoveryEntity = (Seq<char>, Seq<char>, Seq<char>, Seq<char>, bool, bool, Seq<char>);

/// The entities the discovery messages announce, in message order.
pub open spec fn discovery_entities() -> Seq<DiscoveryEntity> {
    seq![
        ("switch"@, "power"@, "Power"@, "power"@, true, true, ",\"icon\":\"mdi:power\""@),
        ("switch"@, "timer"@, "Timer Enabled"@, "timer"@, true, true, ",\"icon\":\"mdi:timer\""@),
        ("switch"@, "oled"@, "OLED"@, "oled"@, true, true, ",\"icon\":\"mdi:overscan\""@),
        ("button"@, "start"@, "Start"@, "start"@, false, true, ""@),
        ("button"@, "stop"@, "Stop"@, "stop"@, false, true, ""@),
        ("number"@, "rpd"@, "Rotations Per Day"@, "rpd"@, true, true, ",\"min\":100,\"max\":960,\"step\":10,\"icon\":\"mdi:rotate-3d-variant\""@),
        ("select"@, "direction"@, "Direction"@, "direction"@, true, true, ",\"options\":[\"CCW\",\"BOTH\",\"CW\"],\"icon\":\"mdi:arrow-left-right\""@),
        ("select"@, "hour"@, "Hour"@, "hour"@, true, true, ",\"options\":[\"00\",\"01\",\"02\",\"03\",\"04\",\"05\",\"06\",\"07\",\"08\",\"09\",\"10\",\"11\",\"12\",\"13\",\"14\",\"15\",\"16\",\"17\",\"18\",\"19\",\"20\",\"21\",\"22\",\"23\"],\"icon\":\"mdi:timer-sand-full\""@),
        ("select"@, "minute"@, "Minutes"@, "minute"@, true, true, ",\"options\":[\"00\",\"10\",\"20\",\"30\",\"40\",\"50\"],\"icon\":\"mdi:timer-sand-empty\""@),
        ("sensor"@, "status"@, "Status"@, "status"@, true, false, ",\"icon\":\"mdi:information\""@),
        ("sensor"@, "rssi"@, "WiFi RSSI"@, "rssi"@, true, false, ",\"unit_of_measurement\":\"dBm\""@),
        ("number"@, "custom_wind_duration"@, "Time to Rotate"@, "custom_wind_duration"@, true, true, ",\"min\":100,\"max\":960,\"step\":10,\"icon\":\"mdi:play-circle-outline\""@),
        ("number"@, "custom_wind_pause"@, "Time to Pause"@, "custom_wind_pause"@, true, true, ",\"min\":10,\"max\":900,\"step\":5,\"icon\":\"mdi:pause-circle-outline\""@),
        ("number"@, "rotation_duration"@, "Rotation Duration"@, "rotation_duration"@, true, true, ",\"min\":1,\"max\":16,\"step\":1,\"icon\":\"mdi:arrow-u-down-right\""@),
        ("select"@, "rtc_offset"@, "UTC Offset"@, "rtc_offset"@, true, true, ",\"options\":[\"-12\",\"-11\",\"-10\",\"-9.5\",\"-9\",\"-8\",\"-7\",\"-6\",\"-5\",\"-4.5\",\"-4\",\"-3.5\",\"-3\",\"-2\",\"-1\",\"0\",\"1\",\"2\",\"3\",\"3.5\",\"4\",\"4.5\",\"5\",\"5.5\",\"5.75\",\"6\",\"6.5\",\"7\",\"8\",\"8.75\",\"9\",\"9.5\",\"10\",\"10.5\",\"11\",\"11.5\",\"12\",\"12.75\",\"13\",\"14\"],\"icon\":\"mdi:clock-time-eight-outline\""@),
        ("switch"@, "rtc_dst"@, "DST"@, "rtc_dst"@, true, true, ",\"icon\":\"mdi:clock-time-four-outline\""@),
        ("switch"@, "screen_schedule"@, "Screen Schedule Enabled"@, "screen_schedule_enabled"@, true, true, ",\"icon\":\"mdi:calendar-clock\""@),
        ("select"@, "screen_schedule_start_hour"@, "Screen Schedule Start Hour"@, "screen_schedule_start_hour"@, true, true, ",\"options\":[\"00\",\"01\",\"02\",\"03\",\"04\",\"05\",\"06\",\"07\",\"08\",\"09\",\"10\",\"11\",\"12\",\"13\",\"14\",\"15\",\"16\",\"17\",\"18\",\"19\",\"20\",\"21\",\"22\",\"23\"],\"icon\":\"mdi:clock-outline\""@),
        ("select"@, "screen_schedule_start_minute"@, "Screen Schedule Start Minute"@, "screen_schedule_start_minute"@, true, true, ",\"options\":[\"00\",\"10\",\"20\",\"30\",\"40\",\"50\"],\"icon\":\"mdi:clock-outline\""@),
        ("select"@, "screen_schedule_end_hour"@, "Screen Schedule End Hour"@, "screen_schedule_end_hour"@, true, true, ",\"options\":[\"00\",\"01\",\"02\",\"03\",\"04\",\"05\",\"06\",\"07\",\"08\",\"09\",\"10\",\"11\",\"12\",\"13\",\"14\",\"15\",\"16\",\"17\",\"18\",\"19\",\"20\",\"21\",\"22\",\"23\"],\"icon\":\"mdi:clock-outline\""@),
        ("select"@, "screen_schedule_end_minute"@, "Screen Schedule End Minute"@, "screen_schedule_end_minute"@, true, true, ",\"options\":[\"00\",\"10\",\"20\",\"30\",\"40\",\"50\"],\"icon\":\"mdi:clock-outline\""@),
        ("sensor"@, "rtc_epoch"@, "RTC Epoch Time"@, "rtc_epoch"@, true, false, ",\"icon\":\"mdi:clock-time-nine-outline\""@),
    ]
}

/// The discovery message of an entity.
pub open spec fn entity_message(device_id: Seq<char>, api_version: Seq<char>, e: DiscoveryEntity) -> (Seq<char>, Seq<char>) {
    config_entry_of(device_id, api_version, e.0, e.1, e.2, e.3, e.4, e.5, e.6)
}

/// The command topics the discovery messages announce: `<base>/<key>/set`
/// for each entity with a command topic.
pub open spec fn discovery_command_topics(device_id: Seq<char>) -> Set<Seq<char>> {
    Set::new(|t: Seq<char>| exists|i: int| 0 <= i < discovery_entities().len() && (#[trigger] discovery_entities()[i]).5
        && t == command_topic(device_id, discovery_entities()[i].3))
}

/// The state topics the discovery messages announce: `<base>/<key>` for
/// each entity with a state topic.
pub open spec fn discovery_state_topics(device_id: Seq<char>) -> Set<Seq<char>> {
    Set::new(|t: Seq<char>| exists|i: int| 0 <= i < discovery_entities().len() && (#[trigger] discovery_entities()[i]).4
        && t == base_topic(device_id) + "/"@ + discovery_entities()[i].3)
}

/// The topics of a list of messages.
pub open spec fn message_topics(m: Seq<(Seq<char>, Seq<char>)>) -> Set<Seq<char>> {
    Set::new(|t: Seq<char>| exists|j: int| 0 <= j < m.len() && t == (#[trigger] m[j]).0)
}

proof fn lemma_discovery_objects_distinct()
    ensures
        forall|i: int, j: int| 0 <= i < j < 22 ==> (#[trigger] discovery_entities()[i]).1 != (#[trigger] discovery_entities()[j]).1,
        forall|i: int| 0 <= i < 22 ==> (#[trigger] discovery_entities()[i]).0.len() == 6,
{
    let e = discovery_entities();
    reveal_strlit("button");
    reveal_strlit("number");
    reveal_strlit("select");
    reveal_strlit("sensor");
    reveal_strlit("switch");
    reveal_strlit("custom_wind_duration");
    reveal_strlit("custom_wind_pause");
    reveal_strlit("direction");
    reveal_strlit("hour");
    reveal_strlit("minute");
    reveal_strlit("oled");
    reveal_strlit("power");
    reveal_strlit("rotation_duration");
    reveal_strlit("rpd");
    reveal_strlit("rssi");
    reveal_strlit("rtc_dst");
    reveal_strlit("rtc_epoch");
    reveal_strlit("rtc_offset");
    reveal_strlit("screen_schedule");
    reveal_strlit("screen_schedule_end_hour");
    reveal_strlit("screen_schedule_end_minute");
    reveal_strlit("screen_schedule_start_hour");
    reveal_strlit("screen_schedule_start_minute");
    reveal_strlit("start");
    reveal_strlit("status");
    reveal_strlit("stop");
    reveal_strlit("timer");
    assert(e[0].0.len() == 6);
    assert(e[1].0.len() == 6);
    assert(e[2].0.len() == 6);
    assert(e[3].0.len() == 6);
    assert(e[4].0.len() == 6);
    assert(e[5].0.len() == 6);
    assert(e[6].0.len() == 6);
    assert(e[7].0.len() == 6);
    assert(e[8].0.len() == 6);
    assert(e[9].0.len() == 6);
    assert(e[10].0.len() == 6);
    assert(e[11].0.len() == 6);
    assert(e[12].0.len() == 6);
    assert(e[13].0.len() == 6);
    assert(e[14].0.len() == 6);
    assert(e[15].0.len() == 6);
    assert(e[16].0.len() == 6);
    assert(e[17].0.len() == 6);
    assert(e[18].0.len() == 6);
    assert(e[19].0.len() == 6);
    assert(e[20].0.len() == 6);
    assert(e[21].0.len() == 6);
    assert(e[0].1[0] != e[1].1[0]);
    assert(e[0].1.len() != e[2].1.len());
    assert(e[0].1[0] != e[3].1[0]);
    assert(e[0].1.len() != e[4].1.len());
    assert(e[0].1.len() != e[5].1.len());
    assert(e[0].1.len() != e[6].1.len());
    assert(e[0].1.len() != e[7].1.len());
    assert(e[0].1.len() != e[8].1.len());
    assert(e[0].1.len() != e[9].1.len());
    assert(e[0].1.len() != e[10].1.len());
    assert(e[0].1.len() != e[11].1.len());
    assert(e[0].1.len() != e[12].1.len());
    assert(e[0].1.len() != e[13].1.len());
    assert(e[0].1.len() != e[14].1.len());
    assert(e[0].1.len() != e[15].1.len());
    assert(e[0].1.len() != e[16].1.len());
    assert(e[0].1.len() != e[17].1.len());
    assert(e[0].1.len() != e[18].1.len());
    assert(e[0].1.len() != e[19].1.len());
    assert(e[0].1.len() != e[20].1.len());
    assert(e[0].1.len() != e[21].1.len());
    assert(e[1].1.len() != e[2].1.len());
    assert(e[1].1[0] != e[3].1[0]);
    assert(e[1].1.len() != e[4].1.len());
    assert(e[1].1.len() != e[5].1.len());
    assert(e[1].1.len() != e[6].1.len());
    assert(e[1].1.len() != e[7].1.len());
    assert(e[1].1.len() != e[8].1.len());
    assert(e[1].1.len() != e[9].1.len());
    assert(e[1].1.len() != e[10].1.len());
    assert(e[1].1.len() != e[11].1.len());
    assert(e[1].1.len() != e[12].1.len());
    assert(e[1].1.len() != e[13].1.len());
    assert(e[1].1.len() != e[14].1.len());
    assert(e[1].1.len() != e[15].1.len());
    assert(e[1].1.len() != e[16].1.len());
    assert(e[1].1.len() != e[17].1.len());
    assert(e[1].1.len() != e[18].1.len());
    assert(e[1].1.len() != e[19].1.len());
    assert(e[1].1.len() != e[20].1.len());
    assert(e[1].1.len() != e[21].1.len());
    assert(e[2].1.len() != e[3].1.len());
    assert(e[2].1[0] != e[4].1[0]);
    assert(e[2].1.len() != e[5].1.len());
    assert(e[2].1.len() != e[6].1.len());
    assert(e[2].1[0] != e[7].1[0]);
    assert(e[2].1.len() != e[8].1.len());
    assert(e[2].1.len() != e[9].1.len());
    assert(e[2].1[0] != e[10].1[0]);
    assert(e[2].1.len() != e[11].1.len());
    assert(e[2].1.len() != e[12].1.len());
    assert(e[2].1.len() != e[13].1.len());
    assert(e[2].1.len() != e[14].1.len());
    assert(e[2].1.len() != e[15].1.len());
    assert(e[2].1.len() != e[16].1.len());
    assert(e[2].1.len() != e[17].1.len());
    assert(e[2].1.len() != e[18].1.len());
    assert(e[2].1.len() != e[19].1.len());
    assert(e[2].1.len() != e[20].1.len());
    assert(e[2].1.len() != e[21].1.len());
    assert(e[3].1.len() != e[4].1.len());
    assert(e[3].1.len() != e[5].1.len());
    assert(e[3].1.len() != e[6].1.len());
    assert(e[3].1.len() != e[7].1.len());
    assert(e[3].1.len() != e[8].1.len());
    assert(e[3].1.len() != e[9].1.len());
    assert(e[3].1.len() != e[10].1.len());
    assert(e[3].1.len() != e[11].1.len());
    assert(e[3].1.len() != e[12].1.len());
    assert(e[3].1.len() != e[13].1.len());
    assert(e[3].1.len() != e[14].1.len());
    assert(e[3].1.len() != e[15].1.len());
    assert(e[3].1.len() != e[16].1.len());
    assert(e[3].1.len() != e[17].1.len());
    assert(e[3].1.len() != e[18].1.len());
    assert(e[3].1.len() != e[19].1.len());
    assert(e[3].1.len() != e[20].1.len());
    assert(e[3].1.len() != e[21].1.len());
    assert(e[4].1.len() != e[5].1.len());
    assert(e[4].1.len() != e[6].1.len());
    assert(e[4].1[0] != e[7].1[0]);
    assert(e[4].1.len() != e[8].1.len());
    assert(e[4].1.len() != e[9].1.len());
    assert(e[4].1[0] != e[10].1[0]);
    assert(e[4].1.len() != e[11].1.len());
    assert(e[4].1.len() != e[12].1.len());
    assert(e[4].1.len() != e[13].1.len());
    assert(e[4].1.len() != e[14].1.len());
    assert(e[4].1.len() != e[15].1.len());
    assert(e[4].1.len() != e[16].1.len());
    assert(e[4].1.len() != e[17].1.len());
    assert(e[4].1.len() != e[18].1.len());
    assert(e[4].1.len() != e[19].1.len());
    assert(e[4].1.len() != e[20].1.len());
    assert(e[4].1.len() != e[21].1.len());
    assert(e[5].1.len() != e[6].1.len());
    assert(e[5].1.len() != e[7].1.len());
    assert(e[5].1.len() != e[8].1.len());
    assert(e[5].1.len() != e[9].1.len());
    assert(e[5].1.len() != e[10].1.len());
    assert(e[5].1.len() != e[11].1.len());
    assert(e[5].1.len() != e[12].1.len());
    assert(e[5].1.len() != e[13].1.len());
    assert(e[5].1.len() != e[14].1.len());
    assert(e[5].1.len() != e[15].1.len());
    assert(e[5].1.len() != e[16].1.len());
    assert(e[5].1.len() != e[17].1.len());
    assert(e[5].1.len() != e[18].1.len());
    assert(e[5].1.len() != e[19].1.len());
    assert(e[5].1.len() != e[20].1.len());
    assert(e[5].1.len() != e[21].1.len());
    assert(e[6].1.len() != e[7].1.len());
    assert(e[6].1.len() != e[8].1.len());
    assert(e[6].1.len() != e[9].1.len());
    assert(e[6].1.len() != e[10].1.len());
    assert(e[6].1.len() != e[11].1.len());
    assert(e[6].1.len() != e[12].1.len());
    assert(e[6].1.len() != e[13].1.len());
    assert(e[6].1.len() != e[14].1.len());
    assert(e[6].1.len() != e[15].1.len());
    assert(e[6].1.len() != e[16].1.len());
    assert(e[6].1.len() != e[17].1.len());
    assert(e[6].1.len() != e[18].1.len());
    assert(e[6].1.len() != e[19].1.len());
    assert(e[6].1.len() != e[20].1.len());
    assert(e[6].1[0] != e[21].1[0]);
    assert(e[7].1.len() != e[8].1.len());
    assert(e[7].1.len() != e[9].1.len());
    assert(e[7].1[0] != e[10].1[0]);
    assert(e[7].1.len() != e[11].1.len());
    assert(e[7].1.len() != e[12].1.len());
    assert(e[7].1.len() != e[13].1.len());
    assert(e[7].1.len() != e[14].1.len());
    assert(e[7].1.len() != e[15].1.len());
    assert(e[7].1.len() != e[16].1.len());
    assert(e[7].1.len() != e[17].1.len());
    assert(e[7].1.len() != e[18].1.len());
    assert(e[7].1.len() != e[19].1.len());
    assert(e[7].1.len() != e[20].1.len());
    assert(e[7].1.len() != e[21].1.len());
    assert(e[8].1[0] != e[9].1[0]);
    assert(e[8].1.len() != e[10].1.len());
    assert(e[8].1.len() != e[11].1.len());
    assert(e[8].1.len() != e[12].1.len());
    assert(e[8].1.len() != e[13].1.len());
    assert(e[8].1.len() != e[14].1.len());
    assert(e[8].1.len() != e[15].1.len());
    assert(e[8].1.len() != e[16].1.len());
    assert(e[8].1.len() != e[17].1.len());
    assert(e[8].1.len() != e[18].1.len());
    assert(e[8].1.len() != e[19].1.len());
    assert(e[8].1.len() != e[20].1.len());
    assert(e[8].1.len() != e[21].1.len());
    assert(e[9].1.len() != e[10].1.len());
    assert(e[9].1.len() != e[11].1.len());
    assert(e[9].1.len() != e[12].1.len());
    assert(e[9].1.len() != e[13].1.len());
    assert(e[9].1.len() != e[14].1.len());
    assert(e[9].1.len() != e[15].1.len());
    assert(e[9].1.len() != e[16].1.len());
    assert(e[9].1.len() != e[17].1.len());
    assert(e[9].1.len() != e[18].1.len());
    assert(e[9].1.len() != e[19].1.len());
    assert(e[9].1.len() != e[20].1.len());
    assert(e[9].1.len() != e[21].1.len());
    assert(e[10].1.len() != e[11].1.len());
    assert(e[10].1.len() != e[12].1.len());
    assert(e[10].1.len() != e[13].1.len());
    assert(e[10].1.len() != e[14].1.len());
    assert(e[10].1.len() != e[15].1.len());
    assert(e[10].1.len() != e[16].1.len());
    assert(e[10].1.len() != e[17].1.len());
    assert(e[10].1.len() != e[18].1.len());
    assert(e[10].1.len() != e[19].1.len());
    assert(e[10].1.len() != e[20].1.len());
    assert(e[10].1.len() != e[21].1.len());
    assert(e[11].1.len() != e[12].1.len());
    assert(e[11].1.len() != e[13].1.len());
    assert(e[11].1.len() != e[14].1.len());
    assert(e[11].1.len() != e[15].1.len());
    assert(e[11].1.len() != e[16].1.len());
    assert(e[11].1.len() != e[17].1.len());
    assert(e[11].1.len() != e[18].1.len());
    assert(e[11].1.len() != e[19].1.len());
    assert(e[11].1.len() != e[20].1.len());
    assert(e[11].1.len() != e[21].1.len());
    assert(e[12].1[0] != e[13].1[0]);
    assert(e[12].1.len() != e[14].1.len());
    assert(e[12].1.len() != e[15].1.len());
    assert(e[12].1.len() != e[16].1.len());
    assert(e[12].1.len() != e[17].1.len());
    assert(e[12].1.len() != e[18].1.len());
    assert(e[12].1.len() != e[19].1.len());
    assert(e[12].1.len() != e[20].1.len());
    assert(e[12].1.len() != e[21].1.len());
    assert(e[13].1.len() != e[14].1.len());
    assert(e[13].1.len() != e[15].1.len());
    assert(e[13].1.len() != e[16].1.len());
    assert(e[13].1.len() != e[17].1.len());
    assert(e[13].1.len() != e[18].1.len());
    assert(e[13].1.len() != e[19].1.len());
    assert(e[13].1.len() != e[20].1.len());
    assert(e[13].1.len() != e[21].1.len());
    assert(e[14].1.len() != e[15].1.len());
    assert(e[14].1.len() != e[16].1.len());
    assert(e[14].1.len() != e[17].1.len());
    assert(e[14].1.len() != e[18].1.len());
    assert(e[14].1.len() != e[19].1.len());
    assert(e[14].1.len() != e[20].1.len());
    assert(e[14].1.len() != e[21].1.len());
    assert(e[15].1.len() != e[16].1.len());
    assert(e[15].1.len() != e[17].1.len());
    assert(e[15].1.len() != e[18].1.len());
    assert(e[15].1.len() != e[19].1.len());
    assert(e[15].1.len() != e[20].1.len());
    assert(e[15].1.len() != e[21].1.len());
    assert(e[16].1.len() != e[17].1.len());
    assert(e[16].1.len() != e[18].1.len());
    assert(e[16].1.len() != e[19].1.len());
    assert(e[16].1.len() != e[20].1.len());
    assert(e[16].1.len() != e[21].1.len());
    assert(e[17].1.len() != e[18].1.len());
    assert(e[17].1.len() != e[19].1.len());
    assert(e[17].1[16] != e[20].1[16]);
    assert(e[17].1.len() != e[21].1.len());
    assert(e[18].1.len() != e[19].1.len());
    assert(e[18].1.len() != e[20].1.len());
    assert(e[18].1.len() != e[21].1.len());
    assert(e[19].1.len() != e[20].1.len());
    assert(e[19].1.len() != e[21].1.len());
    assert(e[20].1.len() != e[21].1.len());
}

proof fn lemma_config_topic_injective(device_id: Seq<char>, c1: Seq<char>, o1: Seq<char>, c2: Seq<char>, o2: Seq<char>)
    requires
        c1.len() == 6,
        c2.len() == 6,
        config_topic(device_id, c1, o1) == config_topic(device_id, c2, o2),
    ensures
        c1 == c2,
        o1 == o2,
{
    reveal_strlit("homeassistant/");
    reveal_strlit("/");
    reveal_strlit("_");
    reveal_strlit("/config");
    let t1 = config_topic(device_id, c1, o1);
    let t2 = config_topic(device_id, c2, o2);
    assert(t1.subrange(14, 20) =~= c1);
    assert(t2.subrange(14, 20) =~= c2);
    let start: int = 22 + device_id.len() as int;
    assert(t1.len() == start + o1.len() + 7);
    assert(t2.len() == start + o2.len() + 7);
    assert(o1.len() == o2.len());
    assert(t1.subrange(start, start + o1.len() as int) =~= o1);
    assert(t2.subrange(start, start + o2.len() as int) =~= o2);
}

/// The discovery topics are pairwise distinct.
pub proof fn lemma_discovery_topics_distinct(device_id: Seq<char>, api_version: Seq<char>)
    ensures
        forall|i: int, j: int| 0 <= i < j < 22 ==> (#[trigger] config_messages_of(device_id, api_version)[i]).0
            != (#[trigger] config_messages_of(device_id, api_version)[j]).0,
{
    lemma_discovery_entity_messages(device_id, api_version);
    lemma_discovery_objects_distinct();
    let m = config_messages_of(device_id, api_version);
    let e = discovery_entities();
    assert forall|i: int, j: int| 0 <= i < j < 22 implies (#[trigger] m[i]).0 != (#[trigger] m[j]).0 by {
        assert(m[i] == entity_message(device_id, api_version, e[i]));
        assert(m[j] == entity_message(device_id, api_version, e[j]));
        assert(e[i].1 != e[j].1);
        if m[i].0 == m[j].0 {
            lemma_config_topic_injective(device_id, e[i].0, e[i].1, e[j].0, e[j].1);
        }
    }
}

/// The discovery messages: there are 22, one for each entity, each with
/// the topic `homeassistant/<component>/<device id>_<object>/config` and a
/// payload that ends with the device, whose `sw_version` is the API version;
/// the command topics they announce are exactly the topics subscribed to
/// for commands, and the state topics they announce are exactly the topics
/// of the state messages.
proof fn lemma_discovery_entity_messages(device_id: Seq<char>, api_version: Seq<char>)
    ensures
        config_messages_of(device_id, api_version).len() == 22,
        discovery_entities().len() == 22,
        forall|i: int| 0 <= i < 22 ==> #[trigger] config_messages_of(device_id, api_version)[i] == entity_message(device_id, api_version, discovery_entities()[i]),
{
    let m = config_messages_of(device_id, api_version);
    let e = discovery_entities();
    assert(m[0] == entity_message(device_id, api_version, e[0]));
    assert(m[1] == entity_message(device_id, api_version, e[1]));
    assert(m[2] == entity_message(device_id, api_version, e[2]));
    assert(m[3] == entity_message(device_id, api_version, e[3]));
    assert(m[4] == entity_message(device_id, api_version, e[4]));
    assert(m[5] == entity_message(device_id, api_version, e[5]));
    assert(m[6] == entity_message(device_id, api_version, e[6]));
    assert(m[7] == entity_message(device_id, api_version, e[7]));
    assert(m[8] == entity_message(device_id, api_version, e[8]));
    assert(m[9] == entity_message(device_id, api_version, e[9]));
    assert(m[10] == entity_message(device_id, api_version, e[10]));
    assert(m[11] == entity_message(device_id, api_version, e[11]));
    assert(m[12] == entity_message(device_id, api_version, e[12]));
    assert(m[13] == entity_message(device_id, api_version, e[13]));
    assert(m[14] == entity_message(device_id, api_version, e[14]));
    assert(m[15] == entity_message(device_id, api_version, e[15]));
    assert(m[16] == entity_message(device_id, api_version, e[16]));
    assert(m[17] == entity_message(device_id, api_version, e[17]));
    assert(m[18] == entity_message(device_id, api_version, e[18]));
    assert(m[19] == entity_message(device_id, api_version, e[19]));
    assert(m[20] == entity_message(device_id, api_version, e[20]));
    assert(m[21] == entity_message(device_id, api_version, e[21]));
}

proof fn lemma_entity_payload_device(device_id: Seq<char>, api_version: Seq<char>, x: DiscoveryEntity)
    ensures
        entity_message(device_id, api_version, x).1.skip(
            entity_message(device_id, api_version, x).1.len() - device_json(device_id, api_version).len() - 1)
            == device_json(device_id, api_version) + "}"@,
{
    reveal_strlit("}");
    let p = entity_message(device_id, api_version, x).1;
    let d = device_json(device_id, api_version);
    let head = "{\"name\":\""@ + x.2 + "\""@
        + (if x.4 { ",\"state_topic\":\""@ + base_topic(device_id) + "/"@ + x.3 + "\""@ } else { Seq::empty() })
        + (if x.5 { ",\"command_topic\":\""@ + base_topic(device_id) + "/"@ + x.3 + "/set\""@ } else { Seq::empty() })
        + x.6 + ",\"device\":"@;
    assert(p =~= head + (d + "}"@));
    assert((head + (d + "}"@)).skip(head.len() as int) =~= d + "}"@);
}

proof fn lemma_discovery_payload_device(device_id: Seq<char>, api_version: Seq<char>)
    requires
        config_messages_of(device_id, api_version).len() == 22,
        forall|i: int| 0 <= i < 22 ==> #[trigger] config_messages_of(device_id, api_version)[i] == entity_message(device_id, api_version, discovery_entities()[i]),
    ensures
        forall|i: int| 0 <= i < 22 ==> (#[trigger] config_messages_of(device_id, api_version)[i]).1.skip(
            config_messages_of(device_id, api_version)[i].1.len() - device_json(device_id, api_version).len() - 1)
            == device_json(device_id, api_version) + "}"@,
{
    let m = config_messages_of(device_id, api_version);
    assert forall|i: int| 0 <= i < 22 implies (#[trigger] m[i]).1.skip(m[i].1.len() - device_json(device_id, api_version).len() - 1)
        == device_json(device_id, api_version) + "}"@ by {
        lemma_entity_payload_device(device_id, api_version, discovery_entities()[i]);
    }
}

proof fn lemma_device_sw_version(device_id: Seq<char>, api_version: Seq<char>)
    ensures
        device_json(device_id, api_version).skip(device_json(device_id, api_version).len() - api_version.len() - 16)
            == "\"sw_version\":\""@ + api_version + "\"}"@,
{
    reveal_strlit("\"],\"name\":\"Winderoo\",\"model\":\"Winderoo\",\"manufacturer\":\"mwood77\",\"sw_version\":\"");
    reveal_strlit("\"sw_version\":\"");
    reveal_strlit("\"}");
    let d = device_json(device_id, api_version);
    let mid = "\"],\"name\":\"Winderoo\",\"model\":\"Winderoo\",\"manufacturer\":\"mwood77\",\"sw_version\":\""@;
    assert(mid.skip(mid.len() - 14) =~= "\"sw_version\":\""@);
    let pre = "{\"identifiers\":[\""@ + device_id;
    assert(d =~= pre + mid + api_version + "\"}"@);
    assert(d.skip(d.len() - api_version.len() - 16) =~= mid.skip(mid.len() - 14) + api_version + "\"}"@);
}

proof fn lemma_discovery_command_topics(device_id: Seq<char>)
    ensures
        discovery_command_topics(device_id) == topics_of(device_id).to_set(),
{
    let e = discovery_entities();
    let t = topics_of(device_id);
    assert forall|x: Seq<char>| discovery_command_topics(device_id).contains(x) <==> t.to_set().contains(x) by {
        if discovery_command_topics(device_id).contains(x) {
            let i = choose|i: int| 0 <= i < e.len() && (#[trigger] e[i]).5 && x == command_topic(device_id, e[i].3);
            if i == 0 {
                assert(t[0] == x);
            } else if i == 1 {
                assert(t[1] == x);
            } else if i == 2 {
                assert(t[2] == x);
            } else if i == 3 {
                assert(t[3] == x);
            } else if i == 4 {
                assert(t[4] == x);
            } else if i == 5 {
                assert(t[6] == x);
            } else if i == 6 {
                assert(t[5] == x);
            } else if i == 7 {
                assert(t[7] == x);
            } else if i == 8 {
                assert(t[8] == x);
            } else if i == 11 {
                assert(t[9] == x);
            } else if i == 12 {
                assert(t[10] == x);
            } else if i == 13 {
                assert(t[11] == x);
            } else if i == 14 {
                assert(t[12] == x);
            } else if i == 15 {
                assert(t[13] == x);
            } else if i == 16 {
                assert(t[14] == x);
            } else if i == 17 {
                assert(t[15] == x);
            } else if i == 18 {
                assert(t[16] == x);
            } else if i == 19 {
                assert(t[17] == x);
            } else if i == 20 {
                assert(t[18] == x);
            }
        }
        if t.to_set().contains(x) {
            let j = choose|j: int| 0 <= j < t.len() && t[j] == x;
            if j == 0 {
                assert(e[0].5 && x == command_topic(device_id, e[0].3));
            } else if j == 1 {
                assert(e[1].5 && x == command_topic(device_id, e[1].3));
            } else if j == 2 {
                assert(e[2].5 && x == command_topic(device_id, e[2].3));
            } else if j == 3 {
                assert(e[3].5 && x == command_topic(device_id, e[3].3));
            } else if j == 4 {
                assert(e[4].5 && x == command_topic(device_id, e[4].3));
            } else if j == 5 {
                assert(e[6].5 && x == command_topic(device_id, e[6].3));
            } else if j == 6 {
                assert(e[5].5 && x == command_topic(device_id, e[5].3));
            } else if j == 7 {
                assert(e[7].5 && x == command_topic(device_id, e[7].3));
            } else if j == 8 {
                assert(e[8].5 && x == command_topic(device_id, e[8].3));
            } else if j == 9 {
                assert(e[11].5 && x == command_topic(device_id, e[11].3));
            } else if j == 10 {
                assert(e[12].5 && x == command_topic(device_id, e[12].3));
            } else if j == 11 {
                assert(e[13].5 && x == command_topic(device_id, e[13].3));
            } else if j == 12 {
                assert(e[14].5 && x == command_topic(device_id, e[14].3));
            } else if j == 13 {
                assert(e[15].5 && x == command_topic(device_id, e[15].3));
            } else if j == 14 {
                assert(e[16].5 && x == command_topic(device_id, e[16].3));
            } else if j == 15 {
                assert(e[17].5 && x == command_topic(device_id, e[17].3));
            } else if j == 16 {
                assert(e[18].5 && x == command_topic(device_id, e[18].3));
            } else if j == 17 {
                assert(e[19].5 && x == command_topic(device_id, e[19].3));
            } else if j == 18 {
                assert(e[20].5 && x == command_topic(device_id, e[20].3));
            }
        }
    }
    assert(discovery_command_topics(device_id) =~= t.to_set());
}

proof fn lemma_discovery_state_topics(device_id: Seq<char>, s: RuntimeModel, rssi: i32, now_epoch_utc: u64)
    ensures
        discovery_state_topics(device_id) == message_topics(state_messages_of(device_id, s, rssi, now_epoch_utc)),
{
    let e = discovery_entities();
    let sm = state_messages_of(device_id, s, rssi, now_epoch_utc);
    assert forall|x: Seq<char>| discovery_state_topics(device_id).contains(x) <==> message_topics(sm).contains(x) by {
        if discovery_state_topics(device_id).contains(x) {
            let i = choose|i: int| 0 <= i < e.len() && (#[trigger] e[i]).4 && x == base_topic(device_id) + "/"@ + e[i].3;
            if i == 0 {
                assert(sm[0].0 == x);
            } else if i == 1 {
                assert(sm[1].0 == x);
            } else if i == 2 {
                assert(sm[2].0 == x);
            } else if i == 5 {
                assert(sm[6].0 == x);
            } else if i == 6 {
                assert(sm[5].0 == x);
            } else if i == 7 {
                assert(sm[7].0 == x);
            } else if i == 8 {
                assert(sm[8].0 == x);
            } else if i == 9 {
                assert(sm[3].0 == x);
            } else if i == 10 {
                assert(sm[4].0 == x);
            } else if i == 11 {
                assert(sm[9].0 == x);
            } else if i == 12 {
                assert(sm[10].0 == x);
            } else if i == 13 {
                assert(sm[11].0 == x);
            } else if i == 14 {
                assert(sm[12].0 == x);
            } else if i == 15 {
                assert(sm[13].0 == x);
            } else if i == 16 {
                assert(sm[14].0 == x);
            } else if i == 17 {
                assert(sm[15].0 == x);
            } else if i == 18 {
                assert(sm[16].0 == x);
            } else if i == 19 {
                assert(sm[17].0 == x);
            } else if i == 20 {
                assert(sm[18].0 == x);
            } else if i == 21 {
                assert(sm[19].0 == x);
            }
        }
        if message_topics(sm).contains(x) {
            let j = choose|j: int| 0 <= j < sm.len() && x == (#[trigger] sm[j]).0;
            if j == 0 {
                assert(e[0].4 && x == base_topic(device_id) + "/"@ + e[0].3);
            } else if j == 1 {
                assert(e[1].4 && x == base_topic(device_id) + "/"@ + e[1].3);
            } else if j == 2 {
                assert(e[2].4 && x == base_topic(device_id) + "/"@ + e[2].3);
            } else if j == 3 {
                assert(e[9].4 && x == base_topic(device_id) + "/"@ + e[9].3);
            } else if j == 4 {
                assert(e[10].4 && x == base_topic(device_id) + "/"@ + e[10].3);
            } else if j == 5 {
                assert(e[6].4 && x == base_topic(device_id) + "/"@ + e[6].3);
            } else if j == 6 {
                assert(e[5].4 && x == base_topic(device_id) + "/"@ + e[5].3);
            } else if j == 7 {
                assert(e[7].4 && x == base_topic(device_id) + "/"@ + e[7].3);
            } else if j == 8 {
                assert(e[8].4 && x == base_topic(device_id) + "/"@ + e[8].3);
            } else if j == 9 {
                assert(e[11].4 && x == base_topic(device_id) + "/"@ + e[11].3);
            } else if j == 10 {
                assert(e[12].4 && x == base_topic(device_id) + "/"@ + e[12].3);
            } else if j == 11 {
                assert(e[13].4 && x == base_topic(device_id) + "/"@ + e[13].3);
            } else if j == 12 {
                assert(e[14].4 && x == base_topic(device_id) + "/"@ + e[14].3);
            } else if j == 13 {
                assert(e[15].4 && x == base_topic(device_id) + "/"@ + e[15].3);
            } else if j == 14 {
                assert(e[16].4 && x == base_topic(device_id) + "/"@ + e[16].3);
            } else if j == 15 {
                assert(e[17].4 && x == base_topic(device_id) + "/"@ + e[17].3);
            } else if j == 16 {
                assert(e[18].4 && x == base_topic(device_id) + "/"@ + e[18].3);
            } else if j == 17 {
                assert(e[19].4 && x == base_topic(device_id) + "/"@ + e[19].3);
            } else if j == 18 {
                assert(e[20].4 && x == base_topic(device_id) + "/"@ + e[20].3);
            } else if j == 19 {
                assert(e[21].4 && x == base_topic(device_id) + "/"@ + e[21].3);
            }
        }
    }
    assert(discovery_state_topics(device_id) =~= message_topics(sm));
}

pub proof fn lemma_discovery_messages(device_id: Seq<char>, api_version: Seq<char>, s: RuntimeModel, rssi: i32, now_epoch_utc: u64)
    ensures
        config_messages_of(device_id, api_version).len() == 22,
        discovery_entities().len() == 22,
        forall|i: int| 0 <= i < 22 ==> #[trigger] config_messages_of(device_id, api_version)[i] == entity_message(device_id, api_version, discovery_entities()[i]),
        forall|i: int| 0 <= i < 22 ==> (#[trigger] config_messages_of(device_id, api_version)[i]).0 == config_topic(device_id, discovery_entities()[i].0, discovery_entities()[i].1),
        forall|i: int| 0 <= i < 22 ==> (#[trigger] config_messages_of(device_id, api_version)[i]).1.skip(
            config_messages_of(device_id, api_version)[i].1.len() - device_json(device_id, api_version).len() - 1)
            == device_json(device_id, api_version) + "}"@,
        device_json(device_id, api_version).skip(device_json(device_id, api_version).len() - api_version.len() - 16)
            == "\"sw_version\":\""@ + api_version + "\"}"@,
        discovery_command_topics(device_id) == topics_of(device_id).to_set(),
        discovery_state_topics(device_id) == message_topics(state_messages_of(device_id, s, rssi, now_epoch_utc)),
{
    lemma_discovery_entity_messages(device_id, api_version);
    lemma_discovery_payload_device(device_id, api_version);
    lemma_device_sw_version(device_id, api_version);
    lemma_discovery_command_topics(device_id);
    lemma_discovery_state_topics(device_id, s, rssi, now_epoch_utc);
}

/// `ON` or `OFF`.
pub open spec fn on_off_text(b: bool) -> Seq<char> {
    if b {
        "ON"@
    } else {
        "OFF"@
    }
}

/// A state message: the topic `winderoo/<device id>/<key>` and its value.
pub open spec fn state_entry(device_id: Seq<char>, key: Seq<char>, value: Seq<char>) -> (Seq<char>, Seq<char>) {
    (base_topic(device_id) + "/"@ + key, value)
}

/// Home Assistant state messages (topic, payload) for a state, the RSSI and
/// the UTC epoch; the RTC epoch is the offset ("local") epoch.
pub open spec fn state_messages_of(device_id: Seq<char>, s: RuntimeModel, rssi: i32, now_epoch_utc: u64) -> Seq<(Seq<char>, Seq<char>)> {
    seq![
        state_entry(device_id, "power"@, on_off_text(s.winder_enabled)),
        state_entry(device_id, "timer"@, on_off_text(s.timer.enabled)),
        state_entry(device_id, "oled"@, on_off_text(!s.screen.sleep)),
        state_entry(device_id, "status"@, status_text(s.status)),
        state_entry(device_id, "rssi"@, signed_text(rssi as int)),
        state_entry(device_id, "direction"@, direction_text(s.direction)),
        state_entry(device_id, "rpd"@, decimal_text(s.rotations_per_day as nat)),
        state_entry(device_id, "hour"@, pad2_text(s.timer.start_time.hour as nat)),
        state_entry(device_id, "minute"@, pad2_text(s.timer.start_time.minute as nat)),
        state_entry(device_id, "custom_wind_duration"@, decimal_text(s.custom_wind_duration_secs as nat)),
        state_entry(device_id, "custom_wind_pause"@, decimal_text(s.custom_wind_pause_secs as nat)),
        state_entry(device_id, "rotation_duration"@, decimal_text(s.rotation_duration_secs as nat)),
        state_entry(device_id, "rtc_offset"@, offset_hours_text(s.rtc.gmt_offset_secs)),
        state_entry(device_id, "rtc_dst"@, on_off_text(s.rtc.dst)),
        state_entry(device_id, "screen_schedule_enabled"@, on_off_text(s.screen.schedule.enabled)),
        state_entry(device_id, "screen_schedule_start_hour"@, pad2_text(s.screen.schedule.start.hour as nat)),
        state_entry(device_id, "screen_schedule_start_minute"@, pad2_text(s.screen.schedule.start.minute as nat)),
        state_entry(device_id, "screen_schedule_end_hour"@, pad2_text(s.screen.schedule.end.hour as nat)),
        state_entry(device_id, "screen_schedule_end_minute"@, pad2_text(s.screen.schedule.end.minute as nat)),
        state_entry(device_id, "rtc_epoch"@, decimal_text(local_epoch(now_epoch_utc, s.rtc.gmt_offset_secs, s.rtc.dst) as nat)),
    ]
}

fn state_pair(base: &str, key: &str, value: String) -> (r: (String, String))
    ensures
        r.0@ == base@ + "/"@ + key@,
        r.1@ == value@,
{
    let mut topic = owned(base);
    push_str(&mut topic, "/");
    push_str(&mut topic, key);
    (topic, value)
}

fn on_off(b: bool) -> (s: String)
    ensures
        s@ == on_off_text(b),
{
    if b {
        owned("ON")
    } else {
        owned("OFF")
    }
}

/// Home Assistant state messages (topic, payload).
pub fn state_messages(device_id: &str, state: &RuntimeState, rssi: i32, now_epoch_utc: u64) -> (r: Vec<(String, String)>)
    ensures
        pairs_view(r@) == state_messages_of(device_id@, state@, rssi, now_epoch_utc),
{
    let mut base = owned("winderoo/");
    push_str(&mut base, device_id);
    let b = base.as_str();
    let rtc_epoch = epoch_with_offset(now_epoch_utc, state.rtc.gmt_offset_secs, state.rtc.dst);
    let mut out: Vec<(String, String)> = Vec::new();
    push_pair(&mut out, state_pair(b, "power", on_off(state.winder_enabled)));
    push_pair(&mut out, state_pair(b, "timer", on_off(state.timer.enabled)));
    push_pair(&mut out, state_pair(b, "oled", on_off(!state.screen.sleep)));
    push_pair(&mut out, state_pair(b, "status", owned(state.status_str())));
    push_pair(&mut out, state_pair(b, "rssi", signed_string(rssi as i64)));
    push_pair(&mut out, state_pair(b, "direction", owned(state.direction.as_api_str())));
    push_pair(&mut out, state_pair(b, "rpd", decimal_string(state.rotations_per_day as u64)));
    push_pair(&mut out, state_pair(b, "hour", pad2_string(state.timer.start_time.hour)));
    push_pair(&mut out, state_pair(b, "minute", pad2_string(state.timer.start_time.minute)));
    push_pair(&mut out, state_pair(b, "custom_wind_duration", decimal_string(state.custom_wind_duration_secs as u64)));
    push_pair(&mut out, state_pair(b, "custom_wind_pause", decimal_string(state.custom_wind_pause_secs as u64)));
    push_pair(&mut out, state_pair(b, "rotation_duration", decimal_string(state.rotation_duration_secs as u64)));
    push_pair(&mut out, state_pair(b, "rtc_offset", offset_hours_string(state.rtc.gmt_offset_secs)));
    push_pair(&mut out, state_pair(b, "rtc_dst", on_off(state.rtc.dst)));
    push_pair(&mut out, state_pair(b, "screen_schedule_enabled", on_off(state.screen.schedule.enabled)));
    push_pair(&mut out, state_pair(b, "screen_schedule_start_hour", pad2_string(state.screen.schedule.start.hour)));
    push_pair(&mut out, state_pair(b, "screen_schedule_start_minute", pad2_string(state.screen.schedule.start.minute)));
    push_pair(&mut out, state_pair(b, "screen_schedule_end_hour", pad2_string(state.screen.schedule.end.hour)));
    push_pair(&mut out, state_pair(b, "screen_schedule_end_minute", pad2_string(state.screen.schedule.end.minute)));
    push_pair(&mut out, state_pair(b, "rtc_epoch", decimal_string(rtc_epoch)));
    assert(pairs_view(out@) =~= state_messages_of(device_id@, state@, rssi, now_epoch_utc));
    out
}

} // verus!
