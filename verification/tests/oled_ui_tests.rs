use winderoo_firmware::model::{CycleProgress, TimerConfig};
use winderoo_firmware::oled_ui::{progress_width, timer_status_text, wifi_bar_rect, wifi_bars_for_rssi};
use winderoo_firmware::time::TimeOfDay;

#[test]
fn wifi_bars_thresholds() {
    assert_eq!(wifi_bars_for_rssi(-40), 4);
    assert_eq!(wifi_bars_for_rssi(-55), 3);
    assert_eq!(wifi_bars_for_rssi(-65), 2);
    assert_eq!(wifi_bars_for_rssi(-80), 1);
}

#[test]
fn progress_width_clamps() {
    // No progress (the lowest fraction), half way, and past the end.
    assert_eq!(progress_width(CycleProgress { done: 0, total: 10 }, 128), 0);
    assert_eq!(progress_width(CycleProgress { done: 5, total: 10 }, 128), 64);
    assert_eq!(progress_width(CycleProgress { done: 20, total: 10 }, 128), 128);
}

#[test]
fn wifi_bar_boundaries() {
    assert_eq!(wifi_bars_for_rssi(-50), 3);
    assert_eq!(wifi_bars_for_rssi(-49), 4);
    assert_eq!(wifi_bars_for_rssi(-60), 2);
    assert_eq!(wifi_bars_for_rssi(-70), 1);
    assert_eq!(wifi_bars_for_rssi(i32::MIN), 1);
}

#[test]
fn empty_routine_draws_no_progress() {
    assert_eq!(progress_width(CycleProgress { done: 0, total: 0 }, 128), 0);
    assert_eq!(progress_width(CycleProgress { done: 1, total: 3 }, 128), 42);
}

#[test]
fn timer_line_shows_start_time() {
    let on = TimerConfig { enabled: true, start_time: TimeOfDay::new(7, 5).unwrap() };
    assert_eq!(timer_status_text(&on), Some("TIMER 07:05".to_string()));
    let off = TimerConfig { enabled: false, start_time: TimeOfDay::new(7, 5).unwrap() };
    assert_eq!(timer_status_text(&off), None);
}

#[test]
fn wifi_bars_grow_on_a_baseline() {
    assert_eq!(wifi_bar_rect(0), (14, 61, 2));
    assert_eq!(wifi_bar_rect(3), (26, 55, 8));
}
