//! A real-time clock abstraction and a software clock.
//!
//! The clock holds a "local epoch": the system task stores the UTC epoch
//! shifted by the configured offset, so the time of day is read from it
//! without a further offset.

use vstd::prelude::*;

use crate::embassy::tasks::TimeSource;
use crate::time::{local_time_of_day, time_of_day_from_epoch, TimeOfDay};

verus! {

/// Abstraction over a real-time clock used by the firmware.
pub trait RtcClock {
    /// Whether a read of the clock may give `epoch`: a clock that runs on
    /// its own may read any epoch, a clock that only moves when it is told
    /// to reads exactly its current epoch.
    spec fn reads(&self, epoch: u64) -> bool;

    /// Read the current epoch in seconds.
    fn now_epoch(&self) -> (e: u64)
        ensures
            self.reads(e),
    ;

    /// Read the current local time-of-day: the time of day of an epoch the
    /// clock reads.
    fn now_time_of_day(&self) -> (t: TimeOfDay)
        ensures
            exists|e: u64| #[trigger] self.reads(e) && t == local_time_of_day(e, 0, false),
    {
        let e = self.now_epoch();
        let t = time_of_day_from_epoch(e, 0, false);
        assert(self.reads(e) && t == local_time_of_day(e, 0, false));
        t
    }

    /// Set the RTC epoch in seconds.
    fn set_epoch(&mut self, epoch: u64)
        ensures
            final(self).reads(epoch),
    ;
}

/// Simple in-memory RTC useful for host-side tests.
#[derive(Debug)]
pub struct SoftwareRtc {
    epoch: u64,
}

impl SoftwareRtc {
    /// The clock's current epoch.
    pub closed spec fn epoch(&self) -> u64 {
        self.epoch
    }

    /// Create a new software RTC starting at the provided epoch.
    pub fn new(initial_epoch: u64) -> (r: Self)
        ensures
            r.epoch() == initial_epoch,
    {
        SoftwareRtc { epoch: initial_epoch }
    }

    /// Advance the epoch by a number of seconds, saturating at `u64::MAX`.
    pub fn advance(&mut self, seconds: u64)
        ensures
            final(self).epoch() == (if old(self).epoch() + seconds > u64::MAX {
                u64::MAX
            } else {
                (old(self).epoch() + seconds) as u64
            }),
    {
        self.epoch = self.epoch.saturating_add(seconds);
    }
}

impl RtcClock for SoftwareRtc {
    open spec fn reads(&self, epoch: u64) -> bool {
        epoch == self.epoch()
    }

    fn now_epoch(&self) -> (e: u64)
        ensures
            e == self.epoch(),
    {
        self.epoch
    }

    fn now_time_of_day(&self) -> (t: TimeOfDay)
        ensures
            t == local_time_of_day(self.epoch(), 0, false),
    {
        let t = time_of_day_from_epoch(self.epoch, 0, false);
        assert(self.reads(self.epoch()));
        t
    }

    fn set_epoch(&mut self, epoch: u64)
        ensures
            final(self).epoch() == epoch,
    {
        self.epoch = epoch;
    }
}

/// Adapter that exposes an [`RtcClock`] as a [`TimeSource`].
#[derive(Debug)]
pub struct RtcTimeSource<R: RtcClock> {
    rtc: R,
}

impl<R: RtcClock> RtcTimeSource<R> {
    /// The wrapped clock.
    pub closed spec fn clock(&self) -> R {
        self.rtc
    }

    /// Wrap an RTC clock as a time source.
    pub fn new(rtc: R) -> (s: Self)
        ensures
            s.clock() == rtc,
    {
        RtcTimeSource { rtc }
    }

    /// Access the underlying RTC clock mutably.
    pub fn rtc_mut(&mut self) -> (r: &mut R)
        ensures
            *r == old(self).clock(),
            final(self).clock() == *final(r),
    {
        &mut self.rtc
    }
}

impl<R: RtcClock> TimeSource for RtcTimeSource<R> {
    fn now_epoch(&mut self) -> (e: u64)
        ensures
            final(self).clock() == old(self).clock(),
            old(self).clock().reads(e),
    {
        self.rtc.now_epoch()
    }

    fn now_time_of_day(&mut self) -> (t: TimeOfDay)
        ensures
            final(self).clock() == old(self).clock(),
            exists|e: u64| #[trigger] old(self).clock().reads(e) && t == local_time_of_day(e, 0, false),
    {
        let t = self.rtc.now_time_of_day();
        proof {
            let e = choose|e: u64| #[trigger] self.rtc.reads(e) && t == local_time_of_day(e, 0, false);
            assert(old(self).clock().reads(e));
        }
        t
    }
}

} // verus!
