//! Pure helper logic of the OLED status screen.

use vstd::prelude::*;

use crate::model::{CycleProgress, TimerConfig};
use crate::text::{owned, push_str};
use crate::time::hh_mm_text;

verus! {

/// Signal bars shown for an RSSI reading (dBm): four above -50, three above
/// -60, two above -70, otherwise one.
pub open spec fn bars_for_rssi(rssi: int) -> u8 {
    if rssi > -50 {
        4
    } else if rssi > -60 {
        3
    } else if rssi > -70 {
        2
    } else {
        1
    }
}

/// Map RSSI (dBm) to the number of bars the UI should display.
pub fn wifi_bars_for_rssi(rssi: i32) -> (bars: u8)
    ensures
        bars == bars_for_rssi(rssi as int),
        1 <= bars <= 4,
{
    if rssi > -50 {
        4
    } else if rssi > -60 {
        3
    } else if rssi > -70 {
        2
    } else {
        1
    }
}

/// The filled width of a progress bar `total_width` pixels wide: the
/// fraction `done / total`, clamped to at most one, times the width,
/// rounded down; an empty routine (`total == 0`) draws nothing.
pub open spec fn filled_width(progress: CycleProgress, total_width: u32) -> int {
    if progress.total == 0 {
        0
    } else {
        let done = if progress.done <= progress.total { progress.done as int } else { progress.total as int };
        done * total_width / (progress.total as int)
    }
}

/// Compute a progress bar width for a given fraction of a routine.
pub fn progress_width(progress: CycleProgress, total_width: u32) -> (w: u32)
    ensures
        w == filled_width(progress, total_width),
        w <= total_width,
{
    if progress.total == 0 {
        return 0;
    }
    let done: u64 = if progress.done <= progress.total { progress.done } else { progress.total };
    let total = progress.total;
    proof {
        assert(done * total_width <= total * total_width) by (nonlinear_arith)
            requires
                done <= total,
        ;
        assert((done * total_width) / (total as int) <= total_width) by (nonlinear_arith)
            requires
                done * total_width <= total * total_width,
                total > 0,
        ;
        assert(done * total_width < 0x1_0000_0000_0000_0000_0000_0000_0000_0000) by (nonlinear_arith)
            requires
                done < 0x1_0000_0000_0000_0000,
                total_width < 0x1_0000_0000,
        ;
    }
    let prod: u128 = (done as u128) * (total_width as u128);
    let q: u128 = prod / (total as u128);
    q as u32
}

/// The timer line of the status screen: `TIMER hh:mm` while the timer is
/// enabled, nothing otherwise.
pub open spec fn timer_status_of(timer: TimerConfig) -> Option<Seq<char>> {
    if timer.enabled {
        Some("TIMER "@ + hh_mm_text(timer.start_time))
    } else {
        None
    }
}

/// The timer line of the status screen.
pub fn timer_status_text(timer: &TimerConfig) -> (r: Option<String>)
    ensures
        match timer_status_of(*timer) {
            Some(t) => r matches Some(s) && s@ == t,
            None => r is None,
        },
{
    if !timer.enabled {
        return None;
    }
    let mut s = owned("TIMER ");
    let t = timer.start_time.to_hh_mm();
    push_str(&mut s, t.as_str());
    Some(s)
}

/// The signal bar `i` (from 0) of the Wi-Fi indicator: its left edge, its
/// top edge and its height, bars standing on a common baseline and growing
/// by two pixels each.
pub open spec fn wifi_bar_of(i: int) -> (int, int, int) {
    (14 + 4 * i, 55 + 8 - (2 + 2 * i), 2 + 2 * i)
}

/// The position `(x, y)` and height of signal bar `i` (0 to 3).
pub fn wifi_bar_rect(i: u8) -> (r: (i32, i32, u32))
    requires
        i < 4,
    ensures
        (r.0 as int, r.1 as int, r.2 as int) == wifi_bar_of(i as int),
{
    let k = i as i32;
    let height = 2 + k * 2;
    (14 + k * 4, 55 + (8 - height), height as u32)
}

} // verus!
