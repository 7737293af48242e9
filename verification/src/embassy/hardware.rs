//! Driver interfaces for the winder's IO, and the adapters that bridge
//! controller events to them.

use vstd::prelude::*;

use crate::controller::ControllerEvent;
use crate::hardware::LedPattern;
use crate::model::MotorDirection;
use crate::settings::StoredSettings;

verus! {

/// Motor driver implemented by concrete hardware drivers.
pub trait MotorControl {
    /// Whether the driver turns the motor in `direction`.
    spec fn runs(&self, direction: MotorDirection) -> bool;

    /// Whether the driver holds the motor stopped.
    spec fn is_stopped(&self) -> bool;

    /// Start the motor in the given direction.
    fn start(&mut self, direction: MotorDirection)
        ensures
            final(self).runs(direction),
    ;

    /// Stop the motor.
    fn stop(&mut self)
        ensures
            final(self).is_stopped(),
    ;
}

/// A blocking millisecond delay.
pub trait Delay {
    /// Whether the delay's last wait lasted `ms` milliseconds.
    spec fn has_waited(&self, ms: u32) -> bool;

    /// Wait for `ms` milliseconds.
    fn delay_ms(&mut self, ms: u32)
        ensures
            final(self).has_waited(ms),
    ;
}

/// LED driver for applying status patterns.
pub trait LedControl {
    /// Whether the LED has rendered `pattern` last.
    spec fn shows(&self, pattern: LedPattern) -> bool;

    /// Apply an LED pattern using the provided delay implementation.
    fn apply_pattern<D: Delay>(&mut self, pattern: LedPattern, delay: &mut D)
        ensures
            final(self).shows(pattern),
    ;
}

/// Display driver for status rendering.
pub trait DisplayControl {
    /// Whether the display is cleared.
    spec fn is_cleared(&self) -> bool;

    /// Whether the display shows the static chrome with `title`.
    spec fn shows_static(&self, title: Seq<char>) -> bool;

    /// Whether the display shows the dynamic values.
    spec fn shows_dynamic(&self) -> bool;

    /// Whether the display shows the notification `message`.
    spec fn shows_notification(&self, message: Seq<char>) -> bool;

    /// Clear the display.
    fn clear(&mut self)
        ensures
            final(self).is_cleared(),
    ;

    /// Draw the static UI chrome with a title.
    fn draw_static(&mut self, title: &str)
        ensures
            final(self).shows_static(title@),
    ;

    /// Draw the dynamic UI values.
    fn draw_dynamic(&mut self)
        ensures
            final(self).shows_dynamic(),
    ;

    /// Render a notification banner.
    fn notify(&mut self, message: &str)
        ensures
            final(self).shows_notification(message@),
    ;
}

/// System hooks for persistence, time sync, and resets.
pub trait SystemHooks {
    /// Whether `settings` were handed over for persistence last.
    spec fn has_persisted(&self, settings: StoredSettings) -> bool;

    /// Whether a time sync is requested.
    spec fn has_requested_sync(&self) -> bool;

    /// Whether a restart is requested.
    spec fn has_requested_restart(&self) -> bool;

    /// Persist the latest settings.
    fn persist_settings(&mut self, settings: &StoredSettings)
        ensures
            final(self).has_persisted(*settings),
    ;

    /// Trigger a time sync (NTP/RTC).
    fn sync_time(&mut self)
        ensures
            final(self).has_requested_sync(),
    ;

    /// Restart the device.
    fn restart(&mut self)
        ensures
            final(self).has_requested_restart(),
    ;
}

/// A no-op display implementation for builds without a screen: it has
/// nothing to show, so it counts as showing whatever was drawn.
#[derive(Debug, Default)]
pub struct NoopDisplay;

impl DisplayControl for NoopDisplay {
    open spec fn is_cleared(&self) -> bool {
        true
    }

    open spec fn shows_static(&self, title: Seq<char>) -> bool {
        true
    }

    open spec fn shows_dynamic(&self) -> bool {
        true
    }

    open spec fn shows_notification(&self, message: Seq<char>) -> bool {
        true
    }

    fn clear(&mut self) {
    }

    fn draw_static(&mut self, title: &str) {
    }

    fn draw_dynamic(&mut self) {
    }

    fn notify(&mut self, message: &str) {
    }
}

/// A no-op LED implementation for builds without a status LED: it counts as
/// showing every pattern.
#[derive(Debug, Default)]
pub struct NoopLed;

impl LedControl for NoopLed {
    open spec fn shows(&self, pattern: LedPattern) -> bool {
        true
    }

    fn apply_pattern<D: Delay>(&mut self, pattern: LedPattern, delay: &mut D) {
    }
}

/// A digital output line.
pub trait OutputPin {
    /// Whether the line is driven high.
    spec fn is_set_high(&self) -> bool;

    /// Drive the line high.
    fn set_high(&mut self)
        ensures
            final(self).is_set_high(),
    ;

    /// Drive the line low.
    fn set_low(&mut self)
        ensures
            !final(self).is_set_high(),
    ;
}

/// An output line that only records its level, for host-side tests.
#[derive(Debug, Clone, Copy, PartialEq, Eq, Structural)]
pub struct LevelPin {
    /// Whether the line is driven high.
    pub high: bool,
}

impl OutputPin for LevelPin {
    open spec fn is_set_high(&self) -> bool {
        self.high
    }

    fn set_high(&mut self) {
        self.high = true;
    }

    fn set_low(&mut self) {
        self.high = false;
    }
}

/// Motor driver for an H-bridge with two direction pins: A high and B low
/// turn clockwise, A low and B high counter-clockwise, both low stop.
#[derive(Debug)]
pub struct MotorDriver<PinA: OutputPin, PinB: OutputPin> {
    pin_a: PinA,
    pin_b: PinB,
}

/// The pin levels `(A, B)` that turn the motor in a direction.
pub open spec fn drive_levels(direction: MotorDirection) -> (bool, bool) {
    match direction {
        MotorDirection::Clockwise => (true, false),
        MotorDirection::CounterClockwise => (false, true),
    }
}

impl<PinA: OutputPin, PinB: OutputPin> MotorDriver<PinA, PinB> {
    /// The levels `(A, B)` the driver's pins are set to.
    pub closed spec fn levels(&self) -> (bool, bool) {
        (self.pin_a.is_set_high(), self.pin_b.is_set_high())
    }

    /// The driver's first pin.
    pub closed spec fn pin_a(&self) -> PinA {
        self.pin_a
    }

    /// The driver's second pin.
    pub closed spec fn pin_b(&self) -> PinB {
        self.pin_b
    }

    /// Create a new motor driver using the provided GPIO pins.
    pub fn new(pin_a: PinA, pin_b: PinB) -> (d: Self)
        ensures
            d.pin_a() == pin_a,
            d.pin_b() == pin_b,
    {
        MotorDriver { pin_a, pin_b }
    }

    fn drive_clockwise(&mut self)
        ensures
            final(self).levels() == drive_levels(MotorDirection::Clockwise),
    {
        self.pin_a.set_high();
        self.pin_b.set_low();
    }

    fn drive_counter_clockwise(&mut self)
        ensures
            final(self).levels() == drive_levels(MotorDirection::CounterClockwise),
    {
        self.pin_a.set_low();
        self.pin_b.set_high();
    }

    fn drive_stop(&mut self)
        ensures
            final(self).levels() == (false, false),
    {
        self.pin_a.set_low();
        self.pin_b.set_low();
    }
}

impl<PinA: OutputPin, PinB: OutputPin> MotorControl for MotorDriver<PinA, PinB> {
    open spec fn runs(&self, direction: MotorDirection) -> bool {
        self.levels() == drive_levels(direction)
    }

    open spec fn is_stopped(&self) -> bool {
        self.levels() == (false, false)
    }

    fn start(&mut self, direction: MotorDirection)
        ensures
            final(self).levels() == drive_levels(direction),
    {
        match direction {
            MotorDirection::Clockwise => self.drive_clockwise(),
            MotorDirection::CounterClockwise => self.drive_counter_clockwise(),
        }
    }

    fn stop(&mut self)
        ensures
            final(self).levels() == (false, false),
    {
        self.drive_stop();
    }
}

/// The milliseconds a pause of `seconds` lasts, saturating at `u32::MAX`.
pub open spec fn pause_millis_of(seconds: u32) -> u32 {
    if seconds * 1000 > u32::MAX {
        u32::MAX
    } else {
        (seconds * 1000) as u32
    }
}

/// The milliseconds a pause of `seconds` lasts, saturating at `u32::MAX`.
pub fn pause_millis(seconds: u32) -> (ms: u32)
    ensures
        ms == pause_millis_of(seconds),
{
    match seconds.checked_mul(1000) {
        Some(ms) => ms,
        None => u32::MAX,
    }
}

/// Dispatches controller events to hardware drivers.
#[derive(Debug)]
pub struct EventDispatcher<M: MotorControl, L: LedControl, D: DisplayControl, S: SystemHooks, T: Delay> {
    motor: M,
    led: L,
    display: D,
    system: S,
    delay: T,
}

impl<M: MotorControl, L: LedControl, D: DisplayControl, S: SystemHooks, T: Delay> EventDispatcher<M, L, D, S, T> {
    /// The motor driver.
    pub closed spec fn motor(&self) -> M {
        self.motor
    }

    /// The display driver.
    pub closed spec fn display(&self) -> D {
        self.display
    }

    /// The LED driver.
    pub closed spec fn led(&self) -> L {
        self.led
    }

    /// The system hooks.
    pub closed spec fn system(&self) -> S {
        self.system
    }

    /// The delay.
    pub closed spec fn delay(&self) -> T {
        self.delay
    }

    /// `self` equals `other` but for the drivers flagged as changed.
    pub open spec fn same_except(
        self,
        other: Self,
        motor: bool,
        led: bool,
        display: bool,
        system: bool,
        delay: bool,
    ) -> bool {
        &&& (!motor ==> self.motor() == other.motor())
        &&& (!led ==> self.led() == other.led())
        &&& (!display ==> self.display() == other.display())
        &&& (!system ==> self.system() == other.system())
        &&& (!delay ==> self.delay() == other.delay())
    }

    /// What handling `event` leaves: the driver the event is for has
    /// performed it, and the other drivers are untouched. A pause waits
    /// [`pause_millis_of`] on the delay; an LED pattern may use the delay.
    pub open spec fn handled(self, old: Self, event: ControllerEvent) -> bool {
        match event {
            ControllerEvent::MotorStart(direction) => self.motor().runs(direction)
                && self.same_except(old, true, false, false, false, false),
            ControllerEvent::MotorStop => self.motor().is_stopped()
                && self.same_except(old, true, false, false, false, false),
            ControllerEvent::PauseSeconds(seconds) => self.delay().has_waited(pause_millis_of(seconds))
                && self.same_except(old, false, false, false, false, true),
            ControllerEvent::DisplayClear => self.display().is_cleared()
                && self.same_except(old, false, false, true, false, false),
            ControllerEvent::DisplayStatic { title } => self.display().shows_static(title@)
                && self.same_except(old, false, false, true, false, false),
            ControllerEvent::DisplayDynamic => self.display().shows_dynamic()
                && self.same_except(old, false, false, true, false, false),
            ControllerEvent::DisplayNotification(message) => self.display().shows_notification(message@)
                && self.same_except(old, false, false, true, false, false),
            ControllerEvent::Led(pattern) => self.led().shows(pattern)
                && self.same_except(old, false, true, false, false, true),
            ControllerEvent::PersistSettings(settings) => self.system().has_persisted(settings)
                && self.same_except(old, false, false, false, true, false),
            ControllerEvent::SyncTime => self.system().has_requested_sync()
                && self.same_except(old, false, false, false, true, false),
            ControllerEvent::RestartDevice => self.system().has_requested_restart()
                && self.same_except(old, false, false, false, true, false),
        }
    }

    /// Create a new dispatcher with the provided hardware drivers.
    pub fn new(motor: M, led: L, display: D, system: S, delay: T) -> (d: Self)
        ensures
            d.motor() == motor,
            d.display() == display,
            d.led() == led,
            d.system() == system,
            d.delay() == delay,
    {
        EventDispatcher { motor, led, display, system, delay }
    }

    /// Handle a single controller event: each event goes to the driver that
    /// performs it, and a pause waits on the delay.
    pub fn handle_event(&mut self, event: ControllerEvent)
        ensures
            final(self).handled(*old(self), event),
    {
        match event {
            ControllerEvent::MotorStart(direction) => self.motor.start(direction),
            ControllerEvent::MotorStop => self.motor.stop(),
            ControllerEvent::PauseSeconds(seconds) => {
                let ms = pause_millis(seconds);
                self.delay.delay_ms(ms);
            },
            ControllerEvent::DisplayClear => self.display.clear(),
            ControllerEvent::DisplayStatic { title } => self.display.draw_static(title.as_str()),
            ControllerEvent::DisplayDynamic => self.display.draw_dynamic(),
            ControllerEvent::DisplayNotification(message) => self.display.notify(message.as_str()),
            ControllerEvent::Led(pattern) => self.led.apply_pattern(pattern, &mut self.delay),
            ControllerEvent::PersistSettings(settings) => self.system.persist_settings(&settings),
            ControllerEvent::SyncTime => self.system.sync_time(),
            ControllerEvent::RestartDevice => self.system.restart(),
        }
    }

    /// Access the underlying motor driver mutably.
    pub fn motor_mut(&mut self) -> (m: &mut M)
        ensures
            *m == old(self).motor(),
            final(self).motor() == *final(m),
    {
        &mut self.motor
    }

    /// Access the underlying display driver mutably.
    pub fn display_mut(&mut self) -> (d: &mut D)
        ensures
            *d == old(self).display(),
            final(self).display() == *final(d),
    {
        &mut self.display
    }
}

} // verus!
