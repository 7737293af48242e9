//! Runtime glue: a controller and an event dispatcher, with one `tick`
//! entry point for an async task or a main loop.

use vstd::prelude::*;

use crate::controller::{events_view, tick_result, timer_fires, winding_duration, Controller};
use crate::embassy::hardware::{Delay, DisplayControl, EventDispatcher, LedControl, MotorControl, SystemHooks};
use crate::hardware::RandomSource;
use crate::time::TimeOfDay;

verus! {

/// A controller whose events go straight to the hardware drivers.
#[derive(Debug)]
pub struct Runtime<R: RandomSource, M: MotorControl, L: LedControl, D: DisplayControl, S: SystemHooks, T: Delay> {
    controller: Controller<R>,
    dispatcher: EventDispatcher<M, L, D, S, T>,
}

impl<R: RandomSource, M: MotorControl, L: LedControl, D: DisplayControl, S: SystemHooks, T: Delay> Runtime<
    R,
    M,
    L,
    D,
    S,
    T,
> {
    /// The controller.
    pub closed spec fn controller(&self) -> Controller<R> {
        self.controller
    }

    /// The dispatcher.
    pub closed spec fn dispatcher(&self) -> EventDispatcher<M, L, D, S, T> {
        self.dispatcher
    }

    /// Create a new runtime wrapper from a controller and dispatcher.
    pub fn new(controller: Controller<R>, dispatcher: EventDispatcher<M, L, D, S, T>) -> (r: Self)
        ensures
            r.controller() == controller,
            r.dispatcher() == dispatcher,
    {
        Runtime { controller, dispatcher }
    }

    /// Run one controller tick and dispatch all of its events, in order.
    pub fn tick(&mut self, now_epoch: u64, now_time: TimeOfDay)
        requires
            timer_fires(old(self).controller().state@, now_time) ==> now_epoch + winding_duration(
                old(self).controller().state@,
            ) <= u64::MAX,
        ensures
            exists|r: u8| final(self).controller().state@ == (#[trigger] tick_result(
                old(self).controller().state@,
                now_epoch,
                now_time,
                r,
            )).0,
    {
        let ghost before = self.controller.state@;
        let events = self.controller.tick(now_epoch, now_time);
        let ghost after = self.controller;
        proof {
            let r = choose|r: u8| (after.state@, events_view(events@)) == #[trigger] tick_result(before, now_epoch, now_time, r);
            assert(after.state@ == tick_result(before, now_epoch, now_time, r).0);
        }
        for event in events
            invariant
                self.controller == after,
        {
            self.dispatcher.handle_event(event);
        }
    }

    /// Access the underlying controller mutably.
    pub fn controller_mut(&mut self) -> (c: &mut Controller<R>)
        ensures
            *c == old(self).controller(),
            final(self).controller() == *final(c),
            final(self).dispatcher() == old(self).dispatcher(),
    {
        &mut self.controller
    }

    /// Access the underlying dispatcher mutably.
    pub fn dispatcher_mut(&mut self) -> (d: &mut EventDispatcher<M, L, D, S, T>)
        ensures
            *d == old(self).dispatcher(),
            final(self).dispatcher() == *final(d),
            final(self).controller() == old(self).controller(),
    {
        &mut self.dispatcher
    }
}

} // verus!
