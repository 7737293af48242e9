use std::cell::Cell;
use std::rc::Rc;
use winderoo_firmware::embassy::hardware::{
    pause_millis, Delay, EventDispatcher, LedControl, LevelPin, MotorControl, MotorDriver, NoopDisplay, NoopLed,
    OutputPin, SystemHooks,
};
use winderoo_firmware::controller::ControllerEvent;
use winderoo_firmware::model::MotorDirection;
use winderoo_firmware::settings::StoredSettings;

struct SharedPin(Rc<Cell<bool>>);

impl OutputPin for SharedPin {
    fn is_set_high(&self) -> bool {
        self.0.get()
    }
    fn set_high(&mut self) {
        self.0.set(true);
    }
    fn set_low(&mut self) {
        self.0.set(false);
    }
}

#[test]
fn motor_driver_sets_pin_levels() {
    let a = Rc::new(Cell::new(false));
    let b = Rc::new(Cell::new(true));
    let mut driver = MotorDriver::new(SharedPin(a.clone()), SharedPin(b.clone()));
    driver.start(MotorDirection::Clockwise);
    assert_eq!((a.get(), b.get()), (true, false));
    driver.start(MotorDirection::CounterClockwise);
    assert_eq!((a.get(), b.get()), (false, true));
    driver.stop();
    assert_eq!((a.get(), b.get()), (false, false));
}

#[test]
fn level_pins_record_levels() {
    let mut pin = LevelPin { high: false };
    pin.set_high();
    assert!(pin.high);
    pin.set_low();
    assert!(!pin.high);
}

#[test]
fn dispatcher_routes_events() {
    let driver = MotorDriver::new(LevelPin { high: false }, LevelPin { high: false });
    let mut dispatcher = EventDispatcher::new(driver, NoopLed, NoopDisplay, NoHooks::default(), CountingDelay::default());
    dispatcher.handle_event(ControllerEvent::MotorStart(MotorDirection::CounterClockwise));
    dispatcher.handle_event(ControllerEvent::PauseSeconds(3));
    dispatcher.handle_event(ControllerEvent::SyncTime);
    dispatcher.handle_event(ControllerEvent::PersistSettings(StoredSettings::default()));
    dispatcher.handle_event(ControllerEvent::MotorStop);
    let _ = dispatcher.motor_mut();
}

#[derive(Default)]
struct NoHooks {
    syncs: u32,
    restarts: u32,
    persisted: Option<StoredSettings>,
}

impl SystemHooks for NoHooks {
    fn has_persisted(&self, settings: StoredSettings) -> bool {
        self.persisted == Some(settings)
    }
    fn has_requested_sync(&self) -> bool {
        self.syncs > 0
    }
    fn has_requested_restart(&self) -> bool {
        self.restarts > 0
    }
    fn persist_settings(&mut self, settings: &StoredSettings) {
        self.persisted = Some(settings.clone());
    }
    fn sync_time(&mut self) {
        self.syncs += 1;
    }
    fn restart(&mut self) {
        self.restarts += 1;
    }
}

#[derive(Default)]
struct CountingDelay {
    total_ms: u64,
    last_ms: Option<u32>,
}

impl Delay for CountingDelay {
    fn has_waited(&self, ms: u32) -> bool {
        self.last_ms == Some(ms)
    }
    fn delay_ms(&mut self, ms: u32) {
        self.total_ms += ms as u64;
        self.last_ms = Some(ms);
    }
}

#[test]
fn pauses_are_in_milliseconds() {
    assert_eq!(pause_millis(3), 3000);
    assert_eq!(pause_millis(u32::MAX), u32::MAX);
}

#[test]
fn noop_led_accepts_patterns() {
    let mut led = NoopLed;
    let mut delay = CountingDelay::default();
    led.apply_pattern(winderoo_firmware::hardware::LedPattern::Pulse, &mut delay);
    assert_eq!(delay.total_ms, 0);
}
