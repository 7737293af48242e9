//! The winding controller: owns the runtime state, applies commands and
//! clock ticks, and emits the hardware events that carry them out.

use vstd::prelude::*;

use crate::api::StatusResponse;
use crate::hardware::{LedPattern, RandomSource};
use crate::model::{
    awake_at, status_snapshot_of, status_text, toggled, CycleProgress, Direction,
    MotorDirection, RuntimeModel, RuntimeState, StatusModel, StatusSnapshot, UpdateAction,
    UpdateRequest, WinderStatus,
};
use crate::settings::{stored_of_runtime, StoredSettings, StoredSettingsModel};
use crate::text::owned;
use crate::time::{time_new_result, TimeOfDay};

verus! {

/// Actions emitted by the controller for the hardware integration layer.
#[derive(Debug, PartialEq, Eq)]
pub enum ControllerEvent {
    /// Start the motor in the given direction.
    MotorStart(MotorDirection),
    /// Stop the motor.
    MotorStop,
    /// Pause winding for the given number of seconds.
    PauseSeconds(u32),
    /// Clear the display buffer.
    DisplayClear,
    /// Draw the static UI chrome with a title.
    DisplayStatic { title: String },
    /// Draw the dynamic UI values.
    DisplayDynamic,
    /// Show a notification on the display.
    DisplayNotification(String),
    /// Trigger an LED pattern.
    Led(LedPattern),
    /// Persist settings to storage.
    PersistSettings(StoredSettings),
    /// Synchronize the RTC via NTP.
    SyncTime,
    /// Restart the device.
    RestartDevice,
}

/// Mathematical model of a [`ControllerEvent`].
pub enum EventModel {
    MotorStart(MotorDirection),
    MotorStop,
    PauseSeconds(u32),
    DisplayClear,
    DisplayStatic { title: Seq<char> },
    DisplayDynamic,
    DisplayNotification(Seq<char>),
    Led(LedPattern),
    PersistSettings(StoredSettingsModel),
    SyncTime,
    RestartDevice,
}

impl View for ControllerEvent {
    type V = EventModel;

    open spec fn view(&self) -> EventModel {
        match self {
            ControllerEvent::MotorStart(d) => EventModel::MotorStart(*d),
            ControllerEvent::MotorStop => EventModel::MotorStop,
            ControllerEvent::PauseSeconds(s) => EventModel::PauseSeconds(*s),
            ControllerEvent::DisplayClear => EventModel::DisplayClear,
            ControllerEvent::DisplayStatic { title } => EventModel::DisplayStatic { title: title@ },
            ControllerEvent::DisplayDynamic => EventModel::DisplayDynamic,
            ControllerEvent::DisplayNotification(m) => EventModel::DisplayNotification(m@),
            ControllerEvent::Led(p) => EventModel::Led(*p),
            ControllerEvent::PersistSettings(s) => EventModel::PersistSettings(s@),
            ControllerEvent::SyncTime => EventModel::SyncTime,
            ControllerEvent::RestartDevice => EventModel::RestartDevice,
        }
    }
}

/// The models of a sequence of events.
pub open spec fn events_view(v: Seq<ControllerEvent>) -> Seq<EventModel> {
    v.map_values(|e: ControllerEvent| e@)
}

pub(crate) fn push_event(events: &mut Vec<ControllerEvent>, e: ControllerEvent)
    ensures
        events_view(final(events)@) == events_view(old(events)@).push(e@),
{
    let ghost e_view = e@;
    events.push(e);
    assert(events_view(events@) =~= events_view(old(events)@).push(e_view));
}

fn append_events(events: &mut Vec<ControllerEvent>, more: Vec<ControllerEvent>)
    ensures
        events_view(final(events)@) == events_view(old(events)@) + events_view(more@),
{
    let mut more = more;
    let ghost m = more@;
    events.append(&mut more);
    assert(events_view(events@) =~= events_view(old(events)@) + events_view(m));
}

/// Total winding time in seconds: the turning time (rotations per day times
/// seconds per rotation) plus one pause for every full winding segment in it,
/// when segments are configured (a non-zero segment duration).
pub open spec fn duration_of(rotations_per_day: u16, rotation_secs: u16, segment_secs: u32, pause_secs: u32) -> nat {
    let turning = (rotations_per_day * rotation_secs) as nat;
    if segment_secs == 0 {
        turning
    } else {
        turning + (turning / (segment_secs as nat)) * (pause_secs as nat)
    }
}

/// The winding time of a runtime state.
pub open spec fn winding_duration(s: RuntimeModel) -> nat {
    duration_of(s.rotations_per_day, s.rotation_duration_secs, s.custom_wind_duration_secs, s.custom_wind_pause_secs)
}

/// Subtraction clamped at zero.
pub open spec fn sat_sub(a: u64, b: u64) -> u64 {
    if a >= b {
        (a - b) as u64
    } else {
        0
    }
}

/// Addition clamped at `u64::MAX`.
pub open spec fn sat_add(a: u64, b: u64) -> u64 {
    if a + b > u64::MAX {
        u64::MAX
    } else {
        (a + b) as u64
    }
}

/// Whether the display is present and awake.
pub open spec fn shows(s: RuntimeModel) -> bool {
    s.screen.equipped && !s.screen.sleep
}

/// The event that persists the settings of a state.
pub open spec fn persist_event(s: RuntimeModel) -> EventModel {
    EventModel::PersistSettings(stored_of_runtime(s))
}

/// A notification event.
pub open spec fn note(m: Seq<char>) -> EventModel {
    EventModel::DisplayNotification(m)
}

/// Events shown only when the display is present and awake.
pub open spec fn when_shown(s: RuntimeModel, e: Seq<EventModel>) -> Seq<EventModel> {
    if shows(s) {
        e
    } else {
        Seq::empty()
    }
}

/// A state whose routine has stopped: status `Stopped`, not running, no progress.
pub open spec fn stopped(s: RuntimeModel) -> RuntimeModel {
    RuntimeModel {
        status: StatusModel::Stopped,
        routine: crate::model::RoutineState { running: false, ..s.routine },
        cycle_progress: CycleProgress { done: 0, total: 0 },
        ..s
    }
}

/// Starting a routine at `now`: it runs from `now`, its segment starts at
/// `now`, it ends after the winding duration, the status is `Winding` and
/// progress restarts; a `Winding` notification is shown on an awake display.
pub open spec fn begin_winding_result(s: RuntimeModel, now: u64) -> (RuntimeModel, Seq<EventModel>) {
    let s1 = RuntimeModel {
        status: StatusModel::Winding,
        routine: crate::model::RoutineState {
            running: true,
            start_epoch: now,
            previous_epoch: now,
            estimated_finish_epoch: (now + winding_duration(s)) as u64,
        },
        cycle_progress: CycleProgress { done: 0, total: 0 },
        ..s
    };
    (s1, when_shown(s1, seq![note("Winding"@)]))
}

/// Stopping the routine: the motor stops and, on an awake display, the
/// message is shown.
pub open spec fn stop_winding_result(s: RuntimeModel, message: Seq<char>) -> (RuntimeModel, Seq<EventModel>) {
    let s1 = stopped(s);
    (s1, seq![EventModel::MotorStop] + when_shown(s1, seq![note(message)]))
}

/// Setting the timer flag, then persisting.
pub open spec fn apply_timer_result(s: RuntimeModel, enabled: bool) -> (RuntimeModel, Seq<EventModel>) {
    let s1 = RuntimeModel { timer: crate::model::TimerConfig { enabled, ..s.timer }, ..s };
    (s1, seq![persist_event(s1)])
}

/// Switching the winder on or off. Off stops the routine, the motor and the
/// display; on redraws an awake display. Either way the settings persist.
pub open spec fn apply_power_result(s: RuntimeModel, enabled: bool) -> (RuntimeModel, Seq<EventModel>) {
    let s1 = RuntimeModel { winder_enabled: enabled, ..s };
    if !enabled {
        let s2 = stopped(s1);
        (s2, seq![EventModel::MotorStop, EventModel::DisplayClear, persist_event(s2)])
    } else if shows(s1) {
        (s1, seq![
            EventModel::DisplayStatic { title: status_text(s1.status) },
            EventModel::DisplayDynamic,
            persist_event(s1),
        ])
    } else {
        (s1, seq![persist_event(s1)])
    }
}

/// The settings fields of an update copied into the state: timer time (kept
/// when the update's hour and minute are not a valid time), timer flag,
/// segment and pause durations, rotation time, RTC offset and DST, screen
/// sleep, and each schedule field that the update carries.
pub open spec fn with_update_fields(s: RuntimeModel, u: UpdateRequest) -> RuntimeModel {
    let start_time = match time_new_result(u.hour, u.minutes) {
        Ok(t) => t,
        Err(_) => s.timer.start_time,
    };
    let schedule = crate::model::ScreenSchedule {
        enabled: match u.screen_schedule_enabled {
            Some(e) => e,
            None => s.screen.schedule.enabled,
        },
        start: match u.screen_schedule_start {
            Some(t) => t,
            None => s.screen.schedule.start,
        },
        end: match u.screen_schedule_end {
            Some(t) => t,
            None => s.screen.schedule.end,
        },
    };
    RuntimeModel {
        timer: crate::model::TimerConfig { enabled: u.timer_enabled, start_time },
        custom_wind_duration_secs: u.custom_wind_duration_secs,
        custom_wind_pause_secs: u.custom_wind_pause_secs,
        rotation_duration_secs: u.rotation_duration_secs,
        rtc: crate::model::RtcConfig { gmt_offset_secs: u.rtc_gmt_offset_secs, dst: u.rtc_dst },
        screen: crate::model::ScreenState { sleep: u.screen_sleep, schedule, ..s.screen },
        ..s
    }
}

/// The motor direction after choosing a direction mode: single-direction
/// modes fix it, `Both` keeps the current one.
pub open spec fn motor_for_mode(d: Direction, current: MotorDirection) -> MotorDirection {
    match d {
        Direction::Clockwise => MotorDirection::Clockwise,
        Direction::CounterClockwise => MotorDirection::CounterClockwise,
        Direction::Both => current,
    }
}

/// The winding time an update asks for.
pub open spec fn update_duration(u: UpdateRequest) -> nat {
    duration_of(u.rotations_per_day, u.rotation_duration_secs, u.custom_wind_duration_secs, u.custom_wind_pause_secs)
}

/// Choosing a direction mode: a change stops the motor and sets the motor
/// direction for the new mode.
pub open spec fn direction_step(s: RuntimeModel, d: Direction) -> (RuntimeModel, Seq<EventModel>) {
    if d != s.direction {
        (RuntimeModel { direction: d, motor_direction: motor_for_mode(d, s.motor_direction), ..s },
         seq![EventModel::MotorStop])
    } else {
        (s, Seq::<EventModel>::empty())
    }
}

/// Choosing the rotations per day: a change re-estimates the finish as the
/// new winding time from `now`.
pub open spec fn rotations_step(s: RuntimeModel, rotations: u16, now: u64) -> RuntimeModel {
    if rotations != s.rotations_per_day {
        let t = RuntimeModel { rotations_per_day: rotations, ..s };
        RuntimeModel {
            routine: crate::model::RoutineState {
                estimated_finish_epoch: (now + winding_duration(t)) as u64,
                ..t.routine
            },
            ..t
        }
    } else {
        s
    }
}

/// The action of an update: `Start` begins a routine unless one runs,
/// `Stop` stops it.
pub open spec fn action_step(s: RuntimeModel, action: UpdateAction, now: u64) -> (RuntimeModel, Seq<EventModel>) {
    match action {
        UpdateAction::Start => if !s.routine.running {
            begin_winding_result(s, now)
        } else {
            (s, Seq::<EventModel>::empty())
        },
        UpdateAction::Stop => stop_winding_result(s, "Stopped"@),
    }
}

/// After an update an equipped display is cleared when asleep, else redrawn.
pub open spec fn redraw_events(s: RuntimeModel) -> Seq<EventModel> {
    if s.screen.equipped {
        if s.screen.sleep {
            seq![EventModel::DisplayClear]
        } else {
            seq![EventModel::DisplayStatic { title: status_text(s.status) }, EventModel::DisplayDynamic]
        }
    } else {
        Seq::<EventModel>::empty()
    }
}

/// Whether applying an update computes a new finish: it changes the
/// rotations, or it starts a routine while none runs.
pub open spec fn update_needs_duration(s: RuntimeModel, u: UpdateRequest) -> bool {
    u.rotations_per_day != s.rotations_per_day || (u.action == UpdateAction::Start && !s.routine.running)
}

/// Applying a full update at `now`: copy its settings; a changed direction
/// mode stops the motor and sets the motor direction; changed rotations
/// re-estimate the finish from `now`; `Start` begins a routine unless one
/// runs, `Stop` stops it; an equipped display is cleared when asleep or
/// redrawn; then a time sync and a persist of the final state.
pub open spec fn apply_update_result(s: RuntimeModel, u: UpdateRequest, now: u64) -> (RuntimeModel, Seq<EventModel>) {
    let s1 = with_update_fields(s, u);
    let (s2, e2) = direction_step(s1, u.direction);
    let s3 = rotations_step(s2, u.rotations_per_day, now);
    let (s4, e4) = action_step(s3, u.action, now);
    (s4, e2 + e4 + redraw_events(s4) + seq![EventModel::SyncTime, persist_event(s4)])
}

/// Whether the timer starts a routine at `time`: the timer is on, the time
/// is its start time, nothing runs and the winder is enabled.
pub open spec fn timer_fires(s: RuntimeModel, time: TimeOfDay) -> bool {
    s.timer.enabled && time == s.timer.start_time && !s.routine.running && s.winder_enabled
}

/// The timer part of a tick.
pub open spec fn tick_timer_result(s: RuntimeModel, now: u64, time: TimeOfDay) -> (RuntimeModel, Seq<EventModel>) {
    if timer_fires(s, time) {
        let (s1, e1) = begin_winding_result(s, now);
        (s1, e1 + when_shown(s1, seq![note("Winding Started"@)]))
    } else {
        (s, Seq::empty())
    }
}

/// Whether a tick with random sample `r` takes a cycle pause: the sample
/// falls in the sampled quarter (`r % 100 <= 25`), segments are configured,
/// and the current segment has run longer than a segment.
pub open spec fn pause_due(s: RuntimeModel, now: u64, r: u8) -> bool {
    r % 100 <= 25 && s.custom_wind_duration_secs > 0
        && sat_sub(now, s.routine.previous_epoch) > s.custom_wind_duration_secs
}

/// The winding part of a tick: before the finish the motor keeps running
/// (with a cycle pause when due, which in `Both` mode reverses the motor);
/// at or after the finish the routine stops and the settings persist.
pub open spec fn tick_run_result(s: RuntimeModel, now: u64, r: u8) -> (RuntimeModel, Seq<EventModel>) {
    if !s.routine.running {
        (s, Seq::empty())
    } else if now < s.routine.estimated_finish_epoch {
        let start = seq![EventModel::MotorStart(s.motor_direction)];
        if pause_due(s, now, r) {
            let m = if s.direction == Direction::Both { toggled(s.motor_direction) } else { s.motor_direction };
            let s2 = RuntimeModel {
                routine: crate::model::RoutineState {
                    previous_epoch: sat_add(now, s.custom_wind_pause_secs as u64),
                    ..s.routine
                },
                motor_direction: m,
                ..s
            };
            (s2, start + seq![
                EventModel::MotorStop,
                note("Cycle Pause"@),
                EventModel::PauseSeconds(s.custom_wind_pause_secs),
                note("Winding"@),
                EventModel::MotorStart(m),
            ])
        } else {
            (s, start)
        }
    } else {
        let s2 = stopped(s);
        (s2, seq![EventModel::MotorStop] + when_shown(s2, seq![note("Winding Complete"@)]) + seq![persist_event(s2)])
    }
}

/// The screen schedule part of a tick: an equipped display with an active
/// schedule wakes (clear and redraw) or sleeps (clear) when the schedule
/// says so.
pub open spec fn schedule_result(s: RuntimeModel, time: TimeOfDay) -> (RuntimeModel, Seq<EventModel>) {
    if !s.screen.equipped || !s.screen.schedule.enabled {
        (s, Seq::empty())
    } else {
        let awake = awake_at(s.screen.schedule, time);
        if awake && s.screen.sleep {
            let s1 = RuntimeModel { screen: crate::model::ScreenState { sleep: false, ..s.screen }, ..s };
            (s1, seq![
                EventModel::DisplayClear,
                EventModel::DisplayStatic { title: status_text(s1.status) },
                EventModel::DisplayDynamic,
            ])
        } else if !awake && !s.screen.sleep {
            let s1 = RuntimeModel { screen: crate::model::ScreenState { sleep: true, ..s.screen }, ..s };
            (s1, seq![EventModel::DisplayClear])
        } else {
            (s, Seq::empty())
        }
    }
}

/// The progress of a routine at `now`: the elapsed part of its length,
/// capped at the whole; zero when nothing runs or the length is zero.
pub open spec fn progress_at(s: RuntimeModel, now: u64) -> CycleProgress {
    let total = sat_sub(s.routine.estimated_finish_epoch, s.routine.start_epoch);
    if !s.routine.running || total == 0 {
        CycleProgress { done: 0, total: 0 }
    } else {
        let elapsed = sat_sub(now, s.routine.start_epoch);
        CycleProgress { done: if elapsed < total { elapsed } else { total }, total }
    }
}

/// One clock tick at `now` (local `time`) with random sample `r`: the timer
/// part, the winding part, the schedule part, the progress update, and a
/// redraw of an awake display.
pub open spec fn tick_result(s: RuntimeModel, now: u64, time: TimeOfDay, r: u8) -> (RuntimeModel, Seq<EventModel>) {
    let (s1, e1) = tick_timer_result(s, now, time);
    let (s2, e2) = tick_run_result(s1, now, r);
    let (s3, e3) = schedule_result(s2, time);
    let s4 = RuntimeModel { cycle_progress: progress_at(s3, now), ..s3 };
    (s4, e1 + e2 + e3 + when_shown(s4, seq![EventModel::DisplayDynamic]))
}

/// Whether a tick draws a byte from the random source: after its timer
/// part a routine runs that has not reached its finish.
pub open spec fn tick_draws(s: RuntimeModel, now: u64, time: TimeOfDay) -> bool {
    let s1 = tick_timer_result(s, now, time).0;
    s1.routine.running && now < s1.routine.estimated_finish_epoch
}

/// The events of a reset request: clear and notify on an equipped display,
/// fast-blink the LED, restart.
pub open spec fn reset_events(s: RuntimeModel) -> Seq<EventModel> {
    (if s.screen.equipped {
        seq![EventModel::DisplayClear, note("Resetting"@)]
    } else {
        Seq::empty()
    }) + seq![EventModel::Led(LedPattern::FastBlink), EventModel::RestartDevice]
}

/// Resuming after boot: a persisted `Winding` status on an enabled winder
/// begins a new routine.
pub open spec fn resume_result(s: RuntimeModel, now: u64) -> (RuntimeModel, Seq<EventModel>) {
    if s.status is Winding && s.winder_enabled {
        begin_winding_result(s, now)
    } else {
        (s, Seq::empty())
    }
}


/// Switching the winder off always ends the routine: not running, status
/// `Stopped`, progress zero, the motor stop first among the events.
pub proof fn lemma_power_off_stops(s: RuntimeModel)
    ensures
        ({
            let (t, e) = apply_power_result(s, false);
            &&& !t.winder_enabled
            &&& !t.routine.running
            &&& t.status is Stopped
            &&& t.cycle_progress.is_zero()
            &&& e[0] == EventModel::MotorStop
        }),
{
}

/// Every settings command ends by persisting exactly the state it leaves.
pub proof fn lemma_commands_persist_final_state(s: RuntimeModel, enabled: bool, u: UpdateRequest, now: u64)
    ensures
        apply_timer_result(s, enabled).1.last() == persist_event(apply_timer_result(s, enabled).0),
        apply_power_result(s, enabled).1.last() == persist_event(apply_power_result(s, enabled).0),
        apply_update_result(s, u, now).1.last() == persist_event(apply_update_result(s, u, now).0),
{
}

/// After any tick the cycle progress is well formed: the elapsed part
/// never exceeds the whole.
pub proof fn lemma_tick_progress_bounded(s: RuntimeModel, now: u64, time: TimeOfDay, r: u8)
    ensures
        tick_result(s, now, time, r).0.cycle_progress.wf(),
{
}

/// A tick changes no setting: the power switch, the timer, the direction
/// mode, the rotations, the segment lengths, the rotation duration, the
/// clock settings and the screen schedule stay as they were; and once no
/// routine runs the cycle progress is zero.
pub proof fn lemma_tick_keeps_settings(s: RuntimeModel, now: u64, time: TimeOfDay, r: u8)
    ensures
        ({
            let t = tick_result(s, now, time, r).0;
            &&& t.winder_enabled == s.winder_enabled
            &&& t.timer == s.timer
            &&& t.direction == s.direction
            &&& t.rotations_per_day == s.rotations_per_day
            &&& t.custom_wind_duration_secs == s.custom_wind_duration_secs
            &&& t.custom_wind_pause_secs == s.custom_wind_pause_secs
            &&& t.rotation_duration_secs == s.rotation_duration_secs
            &&& t.rtc == s.rtc
            &&& t.screen.schedule == s.screen.schedule
            &&& !t.routine.running ==> t.cycle_progress.is_zero() && t.cycle_progress.total == 0
        }),
{
}

/// A disabled winder that is not winding stays idle through a tick.
pub proof fn lemma_disabled_winder_stays_idle(s: RuntimeModel, now: u64, time: TimeOfDay, r: u8)
    requires
        !s.winder_enabled,
        !s.routine.running,
    ensures
        !tick_result(s, now, time, r).0.routine.running,
{
}

/// What any tick leaves of a state: a well-formed cycle progress (the
/// elapsed part within the whole), zero once no routine runs; a disabled
/// winder that was idle stays idle; and every setting unchanged.
pub proof fn lemma_tick_state(s: RuntimeModel, now: u64, time: TimeOfDay, r: u8)
    ensures
        ({
            let t = tick_result(s, now, time, r).0;
            &&& t.cycle_progress.wf()
            &&& !t.routine.running ==> t.cycle_progress.is_zero() && t.cycle_progress.total == 0
            &&& (!s.winder_enabled && !s.routine.running) ==> !t.routine.running
            &&& t.winder_enabled == s.winder_enabled
            &&& t.timer == s.timer
            &&& t.direction == s.direction
            &&& t.rotations_per_day == s.rotations_per_day
            &&& t.custom_wind_duration_secs == s.custom_wind_duration_secs
            &&& t.custom_wind_pause_secs == s.custom_wind_pause_secs
            &&& t.rotation_duration_secs == s.rotation_duration_secs
            &&& t.rtc == s.rtc
            &&& t.screen.schedule == s.screen.schedule
        }),
{
    lemma_tick_progress_bounded(s, now, time, r);
    lemma_tick_keeps_settings(s, now, time, r);
    if !s.winder_enabled && !s.routine.running {
        lemma_disabled_winder_stays_idle(s, now, time, r);
    }
}

/// Whether every motor start among `e` turns the motor in direction `d`.
pub open spec fn starts_only(e: Seq<EventModel>, d: MotorDirection) -> bool {
    forall|i: int| 0 <= i < e.len() ==> match #[trigger] e[i] {
        EventModel::MotorStart(x) => x == d,
        _ => true,
    }
}

proof fn lemma_starts_only_concat(a: Seq<EventModel>, b: Seq<EventModel>, d: MotorDirection)
    requires
        starts_only(a, d),
        starts_only(b, d),
    ensures
        starts_only(a + b, d),
{
    assert forall|i: int| 0 <= i < (a + b).len() implies match #[trigger] (a + b)[i] {
        EventModel::MotorStart(x) => x == d,
        _ => true,
    } by {
        if i < a.len() {
            assert((a + b)[i] == a[i]);
        } else {
            assert((a + b)[i] == b[i - a.len()]);
        }
    }
}

/// A tick of a running routine that has not reached its finish begins with
/// a motor start in the direction the motor turned before the tick; and in a
/// single-direction mode every motor start of any tick turns the motor that
/// same way.
pub proof fn lemma_tick_motor_starts(s: RuntimeModel, now: u64, time: TimeOfDay, r: u8)
    ensures
        s.routine.running && now < s.routine.estimated_finish_epoch ==> {
            &&& tick_result(s, now, time, r).1.len() > 0
            &&& tick_result(s, now, time, r).1[0] == EventModel::MotorStart(s.motor_direction)
        },
        s.direction != Direction::Both ==> starts_only(tick_result(s, now, time, r).1, s.motor_direction),
{
    let (s1, e1) = tick_timer_result(s, now, time);
    let (s2, e2) = tick_run_result(s1, now, r);
    let (s3, e3) = schedule_result(s2, time);
    let s4 = RuntimeModel { cycle_progress: progress_at(s3, now), ..s3 };
    let e4 = when_shown(s4, seq![EventModel::DisplayDynamic]);
    let d = s.motor_direction;
    assert(tick_result(s, now, time, r).1 == e1 + e2 + e3 + e4);
    if s.routine.running && now < s.routine.estimated_finish_epoch {
        assert(!timer_fires(s, time));
        assert(e1.len() == 0);
        assert(e2[0] == EventModel::MotorStart(d));
        assert((e1 + e2 + e3 + e4)[0] == e2[0]);
    }
    if s.direction != Direction::Both {
        assert(s1.motor_direction == d);
        assert(starts_only(e1, d)) by {
            assert forall|i: int| 0 <= i < e1.len() implies match #[trigger] e1[i] {
                EventModel::MotorStart(x) => x == d,
                _ => true,
            } by {
                if timer_fires(s, time) {
                    let (b1, be) = begin_winding_result(s, now);
                    let w = when_shown(b1, seq![note("Winding Started"@)]);
                    assert(e1 == be + w);
                    if i < be.len() {
                        assert(e1[i] == be[i]);
                    } else {
                        assert(e1[i] == w[i - be.len()]);
                    }
                }
            }
        }
        assert(starts_only(e2, d)) by {
            assert forall|i: int| 0 <= i < e2.len() implies match #[trigger] e2[i] {
                EventModel::MotorStart(x) => x == d,
                _ => true,
            } by {
                if s1.routine.running && now >= s1.routine.estimated_finish_epoch {
                    let t = stopped(s1);
                    let w = when_shown(t, seq![note("Winding Complete"@)]);
                    assert(e2 == seq![EventModel::MotorStop] + w + seq![persist_event(t)]);
                    if i == 0 {
                    } else if i < 1 + w.len() {
                        assert(e2[i] == w[i - 1]);
                    } else {
                        assert(e2[i] == persist_event(t));
                    }
                }
            }
        }
        assert(starts_only(e3, d));
        assert(starts_only(e4, d));
        lemma_starts_only_concat(e1, e2, d);
        lemma_starts_only_concat(e1 + e2, e3, d);
        lemma_starts_only_concat(e1 + e2 + e3, e4, d);
    }
}

/// Whether the motor direction agrees with a single-direction mode.
pub open spec fn motor_agrees(s: RuntimeModel) -> bool {
    &&& s.direction == Direction::Clockwise ==> s.motor_direction == MotorDirection::Clockwise
    &&& s.direction == Direction::CounterClockwise ==> s.motor_direction == MotorDirection::CounterClockwise
}

/// An update takes its direction mode; when it changes the mode to a
/// single direction, the motor turns that direction afterwards; and a motor
/// that agreed with the mode before the update agrees with it afterwards.
pub proof fn lemma_update_sets_motor_direction(s: RuntimeModel, u: UpdateRequest, now: u64)
    ensures
        apply_update_result(s, u, now).0.direction == u.direction,
        (u.direction != s.direction && u.direction == Direction::Clockwise)
            ==> apply_update_result(s, u, now).0.motor_direction == MotorDirection::Clockwise,
        (u.direction != s.direction && u.direction == Direction::CounterClockwise)
            ==> apply_update_result(s, u, now).0.motor_direction == MotorDirection::CounterClockwise,
        (u.direction != s.direction && u.direction == Direction::Both)
            ==> apply_update_result(s, u, now).0.motor_direction == s.motor_direction,
        motor_agrees(s) ==> motor_agrees(apply_update_result(s, u, now).0),
{
}

/// In a single-direction mode a tick never changes the motor direction; in
/// `Both` mode a cycle pause reverses it.
pub proof fn lemma_tick_motor_direction(s: RuntimeModel, now: u64, time: TimeOfDay, r: u8)
    ensures
        s.direction != Direction::Both ==> tick_result(s, now, time, r).0.motor_direction == s.motor_direction,
        (s.direction == Direction::Both && !timer_fires(s, time) && s.routine.running
            && now < s.routine.estimated_finish_epoch && pause_due(s, now, r))
            ==> tick_result(s, now, time, r).0.motor_direction == toggled(s.motor_direction),
{
}

/// A routine that has reached its estimated finish stops at the next tick,
/// and the stopped state is persisted.
pub proof fn lemma_tick_finishes_routine(s: RuntimeModel, now: u64, time: TimeOfDay, r: u8)
    requires
        s.routine.running,
        now >= s.routine.estimated_finish_epoch,
    ensures
        !tick_result(s, now, time, r).0.routine.running,
        tick_result(s, now, time, r).0.status is Stopped,
        tick_result(s, now, time, r).1.contains(persist_event(stopped(s))),
{
    let (s1, e1) = tick_timer_result(s, now, time);
    let (s2, e2) = tick_run_result(s1, now, r);
    let (s3, e3) = schedule_result(s2, time);
    let all = tick_result(s, now, time, r).1;
    let k = e1.len() + e2.len() - 1;
    assert(all[k] == e2.last());
}

/// Starting a routine sets its finish to the start plus the winding time.
pub proof fn lemma_begin_sets_finish(s: RuntimeModel, now: u64)
    requires
        now + winding_duration(s) <= u64::MAX,
    ensures
        begin_winding_result(s, now).0.routine.estimated_finish_epoch == now + winding_duration(s),
        begin_winding_result(s, now).0.routine.running,
        begin_winding_result(s, now).0.status is Winding,
{
}

/// Calculate the total winding duration in seconds for the current state.
pub fn calculate_winding_duration_secs(state: &RuntimeState) -> (r: u64)
    ensures
        r as nat == winding_duration(state@),
{
    duration_secs(
        state.rotations_per_day,
        state.rotation_duration_secs,
        state.custom_wind_duration_secs,
        state.custom_wind_pause_secs,
    )
}

pub(crate) fn duration_secs(rotations_per_day: u16, rotation_secs: u16, segment_secs: u32, pause_secs: u32) -> (r: u64)
    ensures
        r as nat == duration_of(rotations_per_day, rotation_secs, segment_secs, pause_secs),
{
    let rpd = rotations_per_day as u64;
    let rot = rotation_secs as u64;
    assert(rpd * rot <= 65535 * 65535) by (nonlinear_arith)
        requires
            rpd <= 65535,
            rot <= 65535,
    ;
    let total_seconds_turning = rpd * rot;
    if segment_secs == 0 {
        return total_seconds_turning;
    }
    let seg = segment_secs as u64;
    let pause = pause_secs as u64;
    let total_rest_periods = total_seconds_turning / seg;
    assert(total_rest_periods <= total_seconds_turning) by (nonlinear_arith)
        requires
            seg >= 1,
            total_rest_periods == total_seconds_turning / seg,
    ;
    assert(total_rest_periods * pause <= 65535 * 65535 * 0xFFFF_FFFF) by (nonlinear_arith)
        requires
            total_rest_periods <= 65535 * 65535,
            pause <= 0xFFFF_FFFF,
    ;
    let total_rest_duration = total_rest_periods * pause;
    total_seconds_turning + total_rest_duration
}

/// Whether a tick at `now_epoch` (local `now_time`) can run: a routine the
/// timer starts must finish before the clock's last second.
pub fn tick_fits(state: &RuntimeState, now_epoch: u64, now_time: TimeOfDay) -> (b: bool)
    ensures
        b == (timer_fires(state@, now_time) ==> now_epoch + winding_duration(state@) <= u64::MAX),
{
    let fires = state.timer.enabled && now_time == state.timer.start_time && !state.routine.running
        && state.winder_enabled;
    if !fires {
        return true;
    }
    now_epoch.checked_add(calculate_winding_duration_secs(state)).is_some()
}

/// Whether a resume at `now_epoch` can run: a routine it restarts must
/// finish before the clock's last second.
pub fn resume_fits(state: &RuntimeState, now_epoch: u64) -> (b: bool)
    ensures
        b == (state@.status is Winding && state@.winder_enabled ==> now_epoch + winding_duration(state@) <= u64::MAX),
{
    let winding = match state.status {
        WinderStatus::Winding => true,
        _ => false,
    };
    if !(winding && state.winder_enabled) {
        return true;
    }
    now_epoch.checked_add(calculate_winding_duration_secs(state)).is_some()
}

/// Whether an update can be applied at `now_epoch`: a routine it starts or
/// re-estimates must finish before the clock's last second.
pub fn update_fits(state: &RuntimeState, update: &UpdateRequest, now_epoch: u64) -> (b: bool)
    ensures
        b == (update_needs_duration(state@, *update) ==> now_epoch + update_duration(*update) <= u64::MAX),
{
    let needs = update.rotations_per_day != state.rotations_per_day || (update.action == UpdateAction::Start
        && !state.routine.running);
    if !needs {
        return true;
    }
    let d = duration_secs(
        update.rotations_per_day,
        update.rotation_duration_secs,
        update.custom_wind_duration_secs,
        update.custom_wind_pause_secs,
    );
    now_epoch.checked_add(d).is_some()
}

/// Controller that owns the runtime state and emits hardware events.
#[derive(Debug)]
pub struct Controller<R: RandomSource> {
    /// Mutable runtime state for the firmware.
    pub state: RuntimeState,
    /// The random source that spaces out cycle pauses.
    pub rng: R,
}

impl<R: RandomSource> Controller<R> {
    /// Create a new controller with the given state and RNG.
    pub fn new(state: RuntimeState, rng: R) -> (c: Self)
        ensures
            c.state@ == state@,
            c.rng == rng,
    {
        Self { state, rng }
    }

    /// The status snapshot for `/api/status`.
    pub fn status_snapshot(&self, current_epoch: u64, rssi: i32, api_version: &str) -> (r: StatusSnapshot)
        ensures
            r@ == status_snapshot_of(self.state@, current_epoch, rssi, api_version@),
    {
        StatusSnapshot::from_state(&self.state, current_epoch, rssi, api_version)
    }

    /// Build a status response suitable for `/api/status`.
    pub fn status_response(&self, current_epoch: u64, rssi: i32, api_version: &str) -> (r: StatusResponse)
        ensures
            r@ == crate::api::status_response_of(status_snapshot_of(self.state@, current_epoch, rssi, api_version@)),
    {
        StatusResponse::from_snapshot(&self.status_snapshot(current_epoch, rssi, api_version))
    }

    fn persist(&self) -> (e: ControllerEvent)
        ensures
            e@ == persist_event(self.state@),
    {
        ControllerEvent::PersistSettings(StoredSettings::from_runtime(&self.state))
    }

    fn status_title(&self) -> (e: ControllerEvent)
        ensures
            e@ == (EventModel::DisplayStatic { title: status_text(self.state@.status) }),
    {
        ControllerEvent::DisplayStatic { title: owned(self.state.status_str()) }
    }

    /// Apply a timer-enabled toggle (from `/api/timer`).
    pub fn apply_timer_enabled(&mut self, enabled: bool) -> (events: Vec<ControllerEvent>)
        ensures
            (final(self).state@, events_view(events@)) == apply_timer_result(old(self).state@, enabled),
            final(self).rng == old(self).rng,
    {
        self.state.timer.enabled = enabled;
        let mut events = Vec::new();
        push_event(&mut events, self.persist());
        assert(events_view(events@) =~= apply_timer_result(old(self).state@, enabled).1);
        events
    }

    /// Apply a power toggle (from `/api/power`).
    pub fn apply_power(&mut self, enabled: bool) -> (events: Vec<ControllerEvent>)
        ensures
            (final(self).state@, events_view(events@)) == apply_power_result(old(self).state@, enabled),
            final(self).rng == old(self).rng,
    {
        self.state.winder_enabled = enabled;
        let mut events = Vec::new();
        if !enabled {
            self.state.status = WinderStatus::Stopped;
            self.state.routine.running = false;
            self.state.cycle_progress = CycleProgress::zero();
            push_event(&mut events, ControllerEvent::MotorStop);
            push_event(&mut events, ControllerEvent::DisplayClear);
        } else if self.state.screen.equipped && !self.state.screen.sleep {
            push_event(&mut events, self.status_title());
            push_event(&mut events, ControllerEvent::DisplayDynamic);
        }
        push_event(&mut events, self.persist());
        assert(events_view(events@) =~= apply_power_result(old(self).state@, enabled).1);
        events
    }

    fn begin_winding(&mut self, now_epoch: u64) -> (events: Vec<ControllerEvent>)
        requires
            now_epoch + winding_duration(old(self).state@) <= u64::MAX,
        ensures
            (final(self).state@, events_view(events@)) == begin_winding_result(old(self).state@, now_epoch),
            final(self).rng == old(self).rng,
    {
        self.state.routine.start_epoch = now_epoch;
        self.state.routine.previous_epoch = now_epoch;
        self.state.routine.running = true;
        self.state.status = WinderStatus::Winding;
        self.state.cycle_progress = CycleProgress::zero();
        let duration = calculate_winding_duration_secs(&self.state);
        self.state.routine.estimated_finish_epoch = now_epoch + duration;
        let mut events = Vec::new();
        if self.state.screen.equipped && !self.state.screen.sleep {
            push_event(&mut events, ControllerEvent::DisplayNotification(owned("Winding")));
        }
        assert(events_view(events@) =~= begin_winding_result(old(self).state@, now_epoch).1);
        events
    }

    fn stop_winding(&mut self, message: &str) -> (events: Vec<ControllerEvent>)
        ensures
            (final(self).state@, events_view(events@)) == stop_winding_result(old(self).state@, message@),
            final(self).rng == old(self).rng,
    {
        let mut events = Vec::new();
        self.state.status = WinderStatus::Stopped;
        self.state.routine.running = false;
        self.state.cycle_progress = CycleProgress::zero();
        push_event(&mut events, ControllerEvent::MotorStop);
        if self.state.screen.equipped && !self.state.screen.sleep {
            push_event(&mut events, ControllerEvent::DisplayNotification(owned(message)));
        }
        assert(events_view(events@) =~= stop_winding_result(old(self).state@, message@).1);
        events
    }

    fn apply_update_fields(&mut self, update: &UpdateRequest)
        ensures
            final(self).state@ == with_update_fields(old(self).state@, *update),
            final(self).rng == old(self).rng,
    {
        self.state.timer.start_time = match TimeOfDay::new(update.hour, update.minutes) {
            Ok(t) => t,
            Err(_) => self.state.timer.start_time,
        };
        self.state.timer.enabled = update.timer_enabled;
        self.state.custom_wind_duration_secs = update.custom_wind_duration_secs;
        self.state.custom_wind_pause_secs = update.custom_wind_pause_secs;
        self.state.rotation_duration_secs = update.rotation_duration_secs;
        self.state.rtc.gmt_offset_secs = update.rtc_gmt_offset_secs;
        self.state.rtc.dst = update.rtc_dst;
        self.state.screen.sleep = update.screen_sleep;
        if let Some(enabled) = update.screen_schedule_enabled {
            self.state.screen.schedule.enabled = enabled;
        }
        if let Some(start) = update.screen_schedule_start {
            self.state.screen.schedule.start = start;
        }
        if let Some(end) = update.screen_schedule_end {
            self.state.screen.schedule.end = end;
        }
    }

    fn apply_direction(&mut self, direction: Direction) -> (events: Vec<ControllerEvent>)
        ensures
            (final(self).state@, events_view(events@)) == direction_step(old(self).state@, direction),
            final(self).rng == old(self).rng,
    {
        let mut events = Vec::new();
        if direction != self.state.direction {
            self.state.direction = direction;
            push_event(&mut events, ControllerEvent::MotorStop);
            match self.state.direction {
                Direction::Clockwise => self.state.motor_direction = MotorDirection::Clockwise,
                Direction::CounterClockwise => {
                    self.state.motor_direction = MotorDirection::CounterClockwise
                },
                Direction::Both => {},
            }
        }
        assert(events_view(events@) =~= direction_step(old(self).state@, direction).1);
        events
    }

    fn apply_rotations(&mut self, rotations: u16, now_epoch: u64)
        requires
            rotations != old(self).state.rotations_per_day ==> now_epoch + duration_of(rotations, old(self).state.rotation_duration_secs,
                old(self).state.custom_wind_duration_secs, old(self).state.custom_wind_pause_secs) <= u64::MAX,
        ensures
            final(self).state@ == rotations_step(old(self).state@, rotations, now_epoch),
            final(self).rng == old(self).rng,
    {
        if rotations != self.state.rotations_per_day {
            self.state.rotations_per_day = rotations;
            let duration = calculate_winding_duration_secs(&self.state);
            self.state.routine.estimated_finish_epoch = now_epoch + duration;
        }
    }

    fn apply_action(&mut self, action: UpdateAction, now_epoch: u64) -> (events: Vec<ControllerEvent>)
        requires
            (action == UpdateAction::Start && !old(self).state.routine.running) ==> now_epoch + winding_duration(old(self).state@) <= u64::MAX,
        ensures
            (final(self).state@, events_view(events@)) == action_step(old(self).state@, action, now_epoch),
            final(self).rng == old(self).rng,
    {
        match action {
            UpdateAction::Start => {
                if !self.state.routine.running {
                    self.begin_winding(now_epoch)
                } else {
                    let events = Vec::new();
                    assert(events_view(events@) =~= Seq::<EventModel>::empty());
                    events
                }
            },
            UpdateAction::Stop => self.stop_winding("Stopped"),
        }
    }

    fn redraw(&self) -> (events: Vec<ControllerEvent>)
        ensures
            events_view(events@) == redraw_events(self.state@),
    {
        let mut events = Vec::new();
        if self.state.screen.equipped {
            if self.state.screen.sleep {
                push_event(&mut events, ControllerEvent::DisplayClear);
            } else {
                push_event(&mut events, self.status_title());
                push_event(&mut events, ControllerEvent::DisplayDynamic);
            }
        }
        assert(events_view(events@) =~= redraw_events(self.state@));
        events
    }

    /// Apply a full update payload (from `/api/update`). When the update
    /// changes the rotations or starts a routine, the winding time it asks
    /// for must fit in an epoch from `now_epoch`.
    pub fn apply_update(&mut self, update: UpdateRequest, now_epoch: u64) -> (events: Vec<ControllerEvent>)
        requires
            update_needs_duration(old(self).state@, update) ==> now_epoch + update_duration(update) <= u64::MAX,
        ensures
            (final(self).state@, events_view(events@)) == apply_update_result(old(self).state@, update, now_epoch),
            final(self).rng == old(self).rng,
    {
        self.apply_update_fields(&update);
        let mut events = self.apply_direction(update.direction);
        self.apply_rotations(update.rotations_per_day, now_epoch);
        assert(update_needs_duration(old(self).state@, update) ==> winding_duration(self.state@) == update_duration(update));
        let more = self.apply_action(update.action, now_epoch);
        append_events(&mut events, more);
        let more = self.redraw();
        append_events(&mut events, more);
        push_event(&mut events, ControllerEvent::SyncTime);
        push_event(&mut events, self.persist());
        assert(events_view(events@) =~= apply_update_result(old(self).state@, update, now_epoch).1);
        events
    }

    fn tick_timer(&mut self, now_epoch: u64, now_time: TimeOfDay) -> (events: Vec<ControllerEvent>)
        requires
            timer_fires(old(self).state@, now_time) ==> now_epoch + winding_duration(old(self).state@) <= u64::MAX,
        ensures
            (final(self).state@, events_view(events@)) == tick_timer_result(old(self).state@, now_epoch, now_time),
            final(self).rng == old(self).rng,
    {
        let mut events = Vec::new();
        if self.state.timer.enabled && now_time == self.state.timer.start_time
            && !self.state.routine.running && self.state.winder_enabled
        {
            let more = self.begin_winding(now_epoch);
            append_events(&mut events, more);
            if self.state.screen.equipped && !self.state.screen.sleep {
                push_event(&mut events, ControllerEvent::DisplayNotification(owned("Winding Started")));
            }
        }
        assert(events_view(events@) =~= tick_timer_result(old(self).state@, now_epoch, now_time).1);
        events
    }

    fn cycle_pause(&mut self, now_epoch: u64, events: &mut Vec<ControllerEvent>)
        ensures
            final(self).state@ == (RuntimeModel {
                routine: crate::model::RoutineState {
                    previous_epoch: sat_add(now_epoch, old(self).state.custom_wind_pause_secs as u64),
                    ..old(self).state@.routine
                },
                motor_direction: if old(self).state.direction == Direction::Both {
                    toggled(old(self).state.motor_direction)
                } else {
                    old(self).state.motor_direction
                },
                ..old(self).state@
            }),
            events_view(final(events)@) == events_view(old(events)@) + seq![
                EventModel::MotorStop,
                note("Cycle Pause"@),
                EventModel::PauseSeconds(old(self).state.custom_wind_pause_secs),
                note("Winding"@),
                EventModel::MotorStart(final(self).state.motor_direction),
            ],
            final(self).rng == old(self).rng,
    {
        push_event(events, ControllerEvent::MotorStop);
        push_event(events, ControllerEvent::DisplayNotification(owned("Cycle Pause")));
        push_event(events, ControllerEvent::PauseSeconds(self.state.custom_wind_pause_secs));
        self.state.routine.previous_epoch = now_epoch.saturating_add(self.state.custom_wind_pause_secs as u64);
        if self.state.direction == Direction::Both {
            self.state.motor_direction = self.state.motor_direction.toggle();
        }
        push_event(events, ControllerEvent::DisplayNotification(owned("Winding")));
        push_event(events, ControllerEvent::MotorStart(self.state.motor_direction));
        assert(events_view(events@) =~= events_view(old(events)@) + seq![
            EventModel::MotorStop,
            note("Cycle Pause"@),
            EventModel::PauseSeconds(old(self).state.custom_wind_pause_secs),
            note("Winding"@),
            EventModel::MotorStart(self.state.motor_direction),
        ]);
    }

    fn tick_run(&mut self, now_epoch: u64, sample: u8) -> (events: Vec<ControllerEvent>)
        ensures
            (final(self).state@, events_view(events@)) == tick_run_result(old(self).state@, now_epoch, sample),
            final(self).rng == old(self).rng,
    {
        let mut events = Vec::new();
        if self.state.routine.running {
            if now_epoch < self.state.routine.estimated_finish_epoch {
                push_event(&mut events, ControllerEvent::MotorStart(self.state.motor_direction));
                let r = sample % 100;
                if r <= 25 && self.state.custom_wind_duration_secs > 0 {
                    let elapsed = now_epoch.saturating_sub(self.state.routine.previous_epoch);
                    if elapsed > self.state.custom_wind_duration_secs as u64 {
                        self.cycle_pause(now_epoch, &mut events);
                    }
                }
                assert(events_view(events@) =~= tick_run_result(old(self).state@, now_epoch, sample).1);
            } else {
                self.state.status = WinderStatus::Stopped;
                self.state.routine.running = false;
                self.state.cycle_progress = CycleProgress::zero();
                push_event(&mut events, ControllerEvent::MotorStop);
                if self.state.screen.equipped && !self.state.screen.sleep {
                    push_event(&mut events, ControllerEvent::DisplayNotification(owned("Winding Complete")));
                }
                push_event(&mut events, self.persist());
                assert(events_view(events@) =~= tick_run_result(old(self).state@, now_epoch, sample).1);
            }
        } else {
            assert(events_view(events@) =~= tick_run_result(old(self).state@, now_epoch, sample).1);
        }
        events
    }

    fn update_screen_schedule(&mut self, now_time: TimeOfDay, events: &mut Vec<ControllerEvent>)
        ensures
            final(self).state@ == schedule_result(old(self).state@, now_time).0,
            events_view(final(events)@) == events_view(old(events)@) + schedule_result(old(self).state@, now_time).1,
            final(self).rng == old(self).rng,
    {
        if !self.state.screen.equipped {
            assert(events_view(events@) =~= events_view(old(events)@) + Seq::<EventModel>::empty());
            return;
        }
        if !self.state.screen.schedule.enabled {
            assert(events_view(events@) =~= events_view(old(events)@) + Seq::<EventModel>::empty());
            return;
        }
        let should_be_awake = self.state.screen.schedule.should_be_awake(now_time);
        if should_be_awake && self.state.screen.sleep {
            self.state.screen.sleep = false;
            push_event(events, ControllerEvent::DisplayClear);
            push_event(events, self.status_title());
            push_event(events, ControllerEvent::DisplayDynamic);
        } else if !should_be_awake && !self.state.screen.sleep {
            self.state.screen.sleep = true;
            push_event(events, ControllerEvent::DisplayClear);
        }
        assert(events_view(events@) =~= events_view(old(events)@) + schedule_result(old(self).state@, now_time).1);
    }

    fn update_cycle_progress(&mut self, now_epoch: u64)
        ensures
            final(self).state@ == (RuntimeModel { cycle_progress: progress_at(old(self).state@, now_epoch), ..old(self).state@ }),
            final(self).rng == old(self).rng,
    {
        let total_duration = self.state.routine.estimated_finish_epoch.saturating_sub(self.state.routine.start_epoch);
        if !self.state.routine.running || total_duration == 0 {
            self.state.cycle_progress = CycleProgress::zero();
            return;
        }
        let elapsed = now_epoch.saturating_sub(self.state.routine.start_epoch);
        let done = if elapsed < total_duration { elapsed } else { total_duration };
        self.state.cycle_progress = CycleProgress { done, total: total_duration };
    }

    fn tick_rest(&mut self, now_epoch: u64, now_time: TimeOfDay, sample: u8, events: &mut Vec<ControllerEvent>)
        ensures
            ({
                let (s2, e2) = tick_run_result(old(self).state@, now_epoch, sample);
                let (s3, e3) = schedule_result(s2, now_time);
                let s4 = RuntimeModel { cycle_progress: progress_at(s3, now_epoch), ..s3 };
                &&& final(self).state@ == s4
                &&& events_view(final(events)@) == events_view(old(events)@) + e2 + e3 + when_shown(
                    s4,
                    seq![EventModel::DisplayDynamic],
                )
            }),
            final(self).rng == old(self).rng,
    {
        let more = self.tick_run(now_epoch, sample);
        let ghost s2 = self.state@;
        let ghost e2 = events_view(more@);
        append_events(events, more);
        self.update_screen_schedule(now_time, events);
        self.update_cycle_progress(now_epoch);
        if self.state.screen.equipped && !self.state.screen.sleep {
            push_event(events, ControllerEvent::DisplayDynamic);
        }
        proof {
            let (s3, e3) = schedule_result(s2, now_time);
            let s4 = RuntimeModel { cycle_progress: progress_at(s3, now_epoch), ..s3 };
            assert(events_view(events@) =~= events_view(old(events)@) + e2 + e3 + when_shown(
                s4,
                seq![EventModel::DisplayDynamic],
            ));
        }
    }

    /// One loop tick with `sample` as the random byte that spaces out the
    /// checks for a cycle pause (see [`tick_result`]); the random source is
    /// not used.
    pub fn tick_with_sample(&mut self, now_epoch: u64, now_time: TimeOfDay, sample: u8) -> (events: Vec<ControllerEvent>)
        requires
            timer_fires(old(self).state@, now_time) ==> now_epoch + winding_duration(old(self).state@) <= u64::MAX,
        ensures
            (final(self).state@, events_view(events@)) == tick_result(old(self).state@, now_epoch, now_time, sample),
            final(self).rng == old(self).rng,
    {
        let mut events = self.tick_timer(now_epoch, now_time);
        self.tick_rest(now_epoch, now_time, sample, &mut events);
        assert(events_view(events@) =~= tick_result(old(self).state@, now_epoch, now_time, sample).1);
        events
    }

    /// Handle the periodic loop tick. While a routine runs and has not
    /// reached its finish, one byte is drawn from the random source to space
    /// out the checks for a cycle pause; otherwise the source is not used.
    pub fn tick(&mut self, now_epoch: u64, now_time: TimeOfDay) -> (events: Vec<ControllerEvent>)
        requires
            timer_fires(old(self).state@, now_time) ==> now_epoch + winding_duration(old(self).state@) <= u64::MAX,
        ensures
            (final(self).state@, events_view(events@)) == tick_result(
                old(self).state@,
                now_epoch,
                now_time,
                old(self).rng.next_value(),
            ),
            !tick_draws(old(self).state@, now_epoch, now_time) ==> final(self).rng == old(self).rng,
    {
        let mut events = self.tick_timer(now_epoch, now_time);
        let ghost s1 = self.state@;
        let sample = if self.state.routine.running && now_epoch < self.state.routine.estimated_finish_epoch {
            self.rng.next_u8()
        } else {
            0
        };
        proof {
            let v = old(self).rng.next_value();
            assert(tick_run_result(s1, now_epoch, sample) == tick_run_result(s1, now_epoch, v));
        }
        self.tick_rest(now_epoch, now_time, sample, &mut events);
        assert(events_view(events@) =~= tick_result(old(self).state@, now_epoch, now_time, old(self).rng.next_value()).1);
        events
    }

    /// Resume winding if the persisted status indicates an active routine.
    pub fn resume_if_needed(&mut self, now_epoch: u64) -> (events: Vec<ControllerEvent>)
        requires
            old(self).state@.status is Winding && old(self).state@.winder_enabled ==> now_epoch + winding_duration(
                old(self).state@,
            ) <= u64::MAX,
        ensures
            (final(self).state@, events_view(events@)) == resume_result(old(self).state@, now_epoch),
            final(self).rng == old(self).rng,
    {
        if matches!(self.state.status, WinderStatus::Winding) && self.state.winder_enabled {
            return self.begin_winding(now_epoch);
        }
        let events = Vec::new();
        assert(events_view(events@) =~= Seq::<EventModel>::empty());
        events
    }

    /// Emit events for a reset request.
    pub fn request_reset(&mut self) -> (events: Vec<ControllerEvent>)
        ensures
            final(self).state@ == old(self).state@,
            events_view(events@) == reset_events(old(self).state@),
            final(self).rng == old(self).rng,
    {
        let mut events = Vec::new();
        if self.state.screen.equipped {
            push_event(&mut events, ControllerEvent::DisplayClear);
            push_event(&mut events, ControllerEvent::DisplayNotification(owned("Resetting")));
        }
        push_event(&mut events, ControllerEvent::Led(LedPattern::FastBlink));
        push_event(&mut events, ControllerEvent::RestartDevice);
        assert(events_view(events@) =~= reset_events(old(self).state@));
        events
    }
}

} // verus!
