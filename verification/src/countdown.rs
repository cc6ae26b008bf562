//! The countdown: one clock that runs down to zero.

use vstd::prelude::*;
use crate::clock::{Clock, ClockStyle, Direction};
use crate::events::Event;

verus! {

/// A clock that runs down, with the events it answers.
#[derive(Clone, Copy, Debug, PartialEq, Eq)]
pub struct Countdown {
    pub clock: Clock,
}

impl Countdown {
    /// The clock runs down and a tick moves it.
    pub open spec fn wf(self) -> bool {
        self.clock.direction == Direction::CountsDown && self.clock.wf()
    }

    /// The countdown after `event`, and the event if it was not taken. A tick
    /// moves the clock and is taken; every other event is handed back.
    pub open spec fn updated(self, event: Event) -> (Countdown, Option<Event>) {
        match event {
            Event::Tick => (Countdown { clock: self.clock.ticked() }, None),
            _ => (self, Some(event)),
        }
    }

    /// A countdown around `clock`.
    pub fn new(clock: Clock) -> (c: Countdown)
        ensures
            c.clock == clock,
    {
        Countdown { clock }
    }

    /// Takes a tick, which moves the clock, and hands every other event back.
    pub fn update(&mut self, event: Event) -> (unhandled: Option<Event>)
        ensures
            (*final(self), unhandled) == old(self).updated(event),
    {
        match event {
            Event::Tick => {
                self.clock.tick();
                None
            },
            _ => Some(event),
        }
    }

    /// Sets how the clock is drawn.
    pub fn set_style(&mut self, style: ClockStyle)
        ensures
            final(self).clock == (Clock { style, ..old(self).clock }),
    {
        self.clock.set_style(style);
    }

    /// Sets whether the clock shows deciseconds.
    pub fn set_with_decis(&mut self, with_decis: bool)
        ensures
            final(self).clock == (Clock { with_decis, ..old(self).clock }),
    {
        self.clock.set_with_decis(with_decis);
    }
}

} // verus!
