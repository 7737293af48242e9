//! The runtime task's decisions: commands sent to the controller task,
//! the event bundle shown when provisioning succeeds, and the Wi-Fi LED.

use vstd::prelude::*;

use crate::controller::{
    update_fits, apply_power_result, apply_timer_result, apply_update_result, events_view, push_event, reset_events,
    update_duration, update_needs_duration, Controller, ControllerEvent, EventModel,
};
use crate::hardware::{LedPattern, RandomSource};
use crate::model::{RuntimeModel, RuntimeState, UpdateRequest};
use crate::text::owned;
use crate::time::TimeOfDay;

verus! {

/// Provides time information for the firmware loop.
pub trait TimeSource {
    /// Return the current epoch in seconds.
    fn now_epoch(&mut self) -> u64;

    /// Return the current time of day.
    fn now_time_of_day(&mut self) -> TimeOfDay;
}

/// Commands sent to the runtime controller task.
#[derive(Debug, Clone, Copy, PartialEq, Eq, Structural)]
pub enum RuntimeCommand {
    /// Apply a power toggle.
    ApplyPower(bool),
    /// Apply a timer enabled flag.
    ApplyTimer(bool),
    /// Apply a full update payload.
    ApplyUpdate(UpdateRequest),
    /// Wi-Fi provisioning succeeded (new credentials connected): show the
    /// success indication and reboot.
    ProvisioningSuccess,
    /// Trigger a device reset.
    Reset,
}

/// The events shown when Wi-Fi provisioning succeeds: a notification, the
/// slow blink, and a restart.
pub open spec fn provisioning_success_bundle() -> Seq<EventModel> {
    seq![
        EventModel::DisplayNotification("Connected to WiFi"@),
        EventModel::Led(LedPattern::SlowBlink),
        EventModel::RestartDevice,
    ]
}

/// Events emitted when Wi-Fi provisioning succeeds.
pub fn provisioning_success_events() -> (events: Vec<ControllerEvent>)
    ensures
        events_view(events@) == provisioning_success_bundle(),
{
    let mut events = Vec::new();
    push_event(&mut events, ControllerEvent::DisplayNotification(owned("Connected to WiFi")));
    push_event(&mut events, ControllerEvent::Led(LedPattern::SlowBlink));
    push_event(&mut events, ControllerEvent::RestartDevice);
    events
}

/// Whether a command can be applied at `now_epoch`: an update that starts a
/// routine must finish before the clock's last second.
pub open spec fn command_fits(state: RuntimeModel, command: RuntimeCommand, now_epoch: u64) -> bool {
    match command {
        RuntimeCommand::ApplyUpdate(update) => update_needs_duration(state, update)
            ==> now_epoch + update_duration(update) <= u64::MAX,
        _ => true,
    }
}

/// Whether a command can be applied at `now_epoch`; see [`command_fits`].
pub fn command_can_apply(state: &RuntimeState, command: RuntimeCommand, now_epoch: u64) -> (b: bool)
    ensures
        b == command_fits(state@, command, now_epoch),
{
    match command {
        RuntimeCommand::ApplyUpdate(update) => update_fits(state, &update, now_epoch),
        _ => true,
    }
}

/// What a command does to the controller's state, and the events it emits.
pub open spec fn command_result(state: RuntimeModel, command: RuntimeCommand, now_epoch: u64) -> (
    RuntimeModel,
    Seq<EventModel>,
) {
    match command {
        RuntimeCommand::ApplyPower(enabled) => apply_power_result(state, enabled),
        RuntimeCommand::ApplyTimer(enabled) => apply_timer_result(state, enabled),
        RuntimeCommand::ApplyUpdate(update) => apply_update_result(state, update, now_epoch),
        RuntimeCommand::ProvisioningSuccess => (state, provisioning_success_bundle()),
        RuntimeCommand::Reset => (state, reset_events(state)),
    }
}

/// Apply a runtime command to the controller and return the events to
/// dispatch.
pub fn apply_runtime_command<R: RandomSource>(
    controller: &mut Controller<R>,
    command: RuntimeCommand,
    now_epoch: u64,
) -> (events: Vec<ControllerEvent>)
    requires
        command_fits(old(controller).state@, command, now_epoch),
    ensures
        (final(controller).state@, events_view(events@)) == command_result(
            old(controller).state@,
            command,
            now_epoch,
        ),
{
    match command {
        RuntimeCommand::ApplyPower(enabled) => controller.apply_power(enabled),
        RuntimeCommand::ApplyTimer(enabled) => controller.apply_timer_enabled(enabled),
        RuntimeCommand::ApplyUpdate(update) => controller.apply_update(update, now_epoch),
        RuntimeCommand::ProvisioningSuccess => provisioning_success_events(),
        RuntimeCommand::Reset => controller.request_reset(),
    }
}

/// The status LED as a coarse Wi-Fi indicator: steady on while
/// disconnected, off once connected, changed only when the state changes.
#[derive(Debug)]
pub struct WifiLedIndicator {
    last_connected: bool,
}

/// The LED pattern for a connection state.
pub open spec fn wifi_led_pattern(connected: bool) -> LedPattern {
    if connected {
        LedPattern::Off
    } else {
        LedPattern::On
    }
}

impl WifiLedIndicator {
    /// The connection state the LED shows.
    pub closed spec fn shown(&self) -> bool {
        self.last_connected
    }

    /// An indicator that refreshes on its first update, whatever the state.
    pub fn new(connected_now: bool) -> (w: Self)
        ensures
            w.shown() == !connected_now,
    {
        WifiLedIndicator { last_connected: !connected_now }
    }

    /// Record the connection state; return the pattern to show when it
    /// changed.
    pub fn refresh(&mut self, connected: bool) -> (r: Option<LedPattern>)
        ensures
            final(self).shown() == connected,
            r == (if connected == old(self).shown() { None } else { Some(wifi_led_pattern(connected)) }),
    {
        if connected == self.last_connected {
            return None;
        }
        self.last_connected = connected;
        if connected {
            Some(LedPattern::Off)
        } else {
            Some(LedPattern::On)
        }
    }
}

/// What the controller task does next with the events a controller call
/// returned.
#[derive(Debug)]
pub enum DispatchAction {
    /// Hand the event to the event dispatcher.
    Handle(ControllerEvent),
    /// Wait this many seconds, during which a command may arrive.
    Pause(u32),
    /// Every event was dispatched.
    Done,
}

/// The events the controller task still has to dispatch, in order. A
/// command that arrives during a pause replaces them with its own events.
#[derive(Debug)]
pub struct EventQueue {
    events: Vec<ControllerEvent>,
}

impl EventQueue {
    /// The events still to dispatch, first one first.
    pub closed spec fn remaining(&self) -> Seq<ControllerEvent> {
        self.events@
    }

    /// A queue of the events of one controller call.
    pub fn new(events: Vec<ControllerEvent>) -> (q: Self)
        ensures
            q.remaining() == events@,
    {
        EventQueue { events }
    }

    /// Take the next step: `Done` when no event is left; otherwise the first
    /// event leaves the queue, as a pause of its length when it is a pause
    /// and as an event to handle otherwise.
    pub fn next_action(&mut self) -> (a: DispatchAction)
        ensures
            old(self).remaining().len() == 0 ==> a is Done && final(self).remaining() == old(self).remaining(),
            old(self).remaining().len() > 0 ==> {
                &&& final(self).remaining() == old(self).remaining().drop_first()
                &&& match old(self).remaining()[0] {
                    ControllerEvent::PauseSeconds(seconds) => a == DispatchAction::Pause(seconds),
                    event => a == DispatchAction::Handle(event),
                }
            },
    {
        if self.events.len() == 0 {
            return DispatchAction::Done;
        }
        let event = self.events.remove(0);
        assert(self.events@ =~= old(self).remaining().drop_first());
        match event {
            ControllerEvent::PauseSeconds(seconds) => DispatchAction::Pause(seconds),
            other => DispatchAction::Handle(other),
        }
    }

    /// A command arrived during a pause: its events replace the ones left.
    pub fn interrupt(&mut self, events: Vec<ControllerEvent>)
        ensures
            final(self).remaining() == events@,
    {
        self.events = events;
    }
}

} // verus!
