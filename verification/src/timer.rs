//! The timer: one clock that counts up from zero.

use vstd::prelude::*;
use crate::clock::{Clock, ClockStyle, Direction};
use crate::events::Event;

verus! {

/// A clock that counts up, with the events it answers.
#[derive(Clone, Copy, Debug, PartialEq, Eq)]
pub struct Timer {
    pub clock: Clock,
}

impl Timer {
    /// The clock counts up from zero and a tick moves it.
    pub open spec fn wf(self) -> bool {
        &&& self.clock.direction == Direction::CountsUp
        &&& self.clock.initial_value@ == 0
        &&& self.clock.wf()
    }

    /// The timer after `event`, and the event if it was not taken. A tick
    /// moves the clock and is taken; every other event is handed back.
    pub open spec fn updated(self, event: Event) -> (Timer, Option<Event>) {
        match event {
            Event::Tick => (Timer { clock: self.clock.ticked() }, None),
            _ => (self, Some(event)),
        }
    }

    /// A timer around `clock`.
    pub fn new(clock: Clock) -> (t: Timer)
        ensures
            t.clock == clock,
    {
        Timer { clock }
    }

    /// Takes a tick, which moves the clock, and hands every other event back.
    pub fn update(&mut self, event: Event) -> (unhandled: Option<Event>)
        ensures
            (*final(self), unhandled) == old(self).updated(event),
    {
        match event {
            Event::Tick => {
                self.clock.tick();
                None
            },
            _ => Some(event),
        }
    }

    /// Sets how the clock is drawn.
    pub fn set_style(&mut self, style: ClockStyle)
        ensures
            final(self).clock == (Clock { style, ..old(self).clock }),
    {
        self.clock.set_style(style);
    }

    /// Sets whether the clock shows deciseconds.
    pub fn set_with_decis(&mut self, with_decis: bool)
        ensures
            final(self).clock == (Clock { with_decis, ..old(self).clock }),
    {
        self.clock.set_with_decis(with_decis);
    }
}

} // verus!
