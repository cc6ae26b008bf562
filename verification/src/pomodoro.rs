//! The pomodoro: a work clock and a pause clock that take turns.
//!
//! One of the two clocks is active, chosen by the phase. While the pomodoro
//! runs, a tick moves the active clock; when that leaves it at zero, the
//! phase flips and the clock of the new phase starts from its initial value.
//! The key `s` stops and starts the pomodoro. The key `Right` skips to the
//! other phase by hand: the clock that is left goes back to its initial
//! value, and the clock that is entered keeps the value it had.

use vstd::prelude::*;
use crate::clock::{Clock, ClockArgs, ClockStyle, Direction};
use crate::constants::TICK_VALUE_MS;
use crate::duration::Duration;
use crate::events::{Event, Key};

verus! {

/// The phase of a pomodoro.
#[derive(Clone, Copy, Debug, PartialEq, Eq, Structural)]
pub enum Mode {
    Work,
    Pause,
}

impl Mode {
    /// The other phase.
    pub open spec fn flipped(self) -> Mode {
        match self {
            Mode::Work => Mode::Pause,
            Mode::Pause => Mode::Work,
        }
    }
}

/// What a pomodoro is made from.
#[derive(Clone, Copy, Debug, PartialEq, Eq)]
pub struct PomodoroArgs {
    pub mode: Mode,
    pub initial_value_work: Duration,
    pub current_value_work: Duration,
    pub initial_value_pause: Duration,
    pub current_value_pause: Duration,
    pub style: ClockStyle,
    pub with_decis: bool,
}

/// Two clocks that run down in turn.
#[derive(Clone, Copy, Debug, PartialEq, Eq)]
pub struct Pomodoro {
    pub mode: Mode,
    pub running: bool,
    pub clock_work: Clock,
    pub clock_pause: Clock,
}

impl Pomodoro {
    /// Both clocks run down and a tick moves them.
    pub open spec fn wf(self) -> bool {
        &&& self.clock_work.direction == Direction::CountsDown
        &&& self.clock_pause.direction == Direction::CountsDown
        &&& self.clock_work.wf()
        &&& self.clock_pause.wf()
    }

    /// The clock of the current phase.
    pub open spec fn active_clock(self) -> Clock {
        match self.mode {
            Mode::Work => self.clock_work,
            Mode::Pause => self.clock_pause,
        }
    }

    /// The pomodoro that `args` describe: it runs, in the given phase.
    pub open spec fn spec_new(args: PomodoroArgs) -> Pomodoro {
        Pomodoro {
            mode: args.mode,
            running: true,
            clock_work: Clock {
                direction: Direction::CountsDown,
                initial_value: args.initial_value_work,
                current_value: args.current_value_work,
                tick_value: Duration { millis: 100 },
                style: args.style,
                with_decis: args.with_decis,
            },
            clock_pause: Clock {
                direction: Direction::CountsDown,
                initial_value: args.initial_value_pause,
                current_value: args.current_value_pause,
                tick_value: Duration { millis: 100 },
                style: args.style,
                with_decis: args.with_decis,
            },
        }
    }

    /// The pomodoro after a tick. A stopped pomodoro stays as it is. A
    /// running one moves its active clock; if that clock then stands at zero,
    /// the phase flips and the clock of the new phase starts afresh.
    pub open spec fn ticked(self) -> Pomodoro {
        if !self.running {
            self
        } else {
            match self.mode {
                Mode::Work => {
                    let work = self.clock_work.ticked();
                    if work.spec_is_expired() {
                        Pomodoro {
                            mode: Mode::Pause,
                            clock_work: work,
                            clock_pause: self.clock_pause.reset_spec(),
                            ..self
                        }
                    } else {
                        Pomodoro { clock_work: work, ..self }
                    }
                },
                Mode::Pause => {
                    let pause = self.clock_pause.ticked();
                    if pause.spec_is_expired() {
                        Pomodoro {
                            mode: Mode::Work,
                            clock_pause: pause,
                            clock_work: self.clock_work.reset_spec(),
                            ..self
                        }
                    } else {
                        Pomodoro { clock_pause: pause, ..self }
                    }
                },
            }
        }
    }

    /// The pomodoro after a skip by hand: the clock that is left goes back to
    /// its initial value, the other phase begins, and its clock keeps the
    /// value it had.
    pub open spec fn skipped(self) -> Pomodoro {
        match self.mode {
            Mode::Work => Pomodoro {
                mode: Mode::Pause,
                clock_work: self.clock_work.reset_spec(),
                ..self
            },
            Mode::Pause => Pomodoro {
                mode: Mode::Work,
                clock_pause: self.clock_pause.reset_spec(),
                ..self
            },
        }
    }

    /// The pomodoro after `event`, and the event if it was not taken. Taken
    /// are a tick, the key `s` (stop or start) and the key `Right` (skip to
    /// the other phase); every other event is handed back.
    pub open spec fn updated(self, event: Event) -> (Pomodoro, Option<Event>) {
        match event {
            Event::Tick => (self.ticked(), None),
            Event::Key(Key::Char('s')) => (Pomodoro { running: !self.running, ..self }, None),
            Event::Key(Key::Right) => (self.skipped(), None),
            _ => (self, Some(event)),
        }
    }

    /// Makes a running pomodoro in the given phase, its clocks as given.
    pub fn new(args: PomodoroArgs) -> (p: Pomodoro)
        ensures
            p == Self::spec_new(args),
            p.wf(),
    {
        Pomodoro {
            mode: args.mode,
            running: true,
            clock_work: Clock::new(
                Direction::CountsDown,
                ClockArgs {
                    initial_value: args.initial_value_work,
                    current_value: args.current_value_work,
                    tick_value: Duration::from_millis(TICK_VALUE_MS),
                    style: args.style,
                    with_decis: args.with_decis,
                },
            ),
            clock_pause: Clock::new(
                Direction::CountsDown,
                ClockArgs {
                    initial_value: args.initial_value_pause,
                    current_value: args.current_value_pause,
                    tick_value: Duration::from_millis(TICK_VALUE_MS),
                    style: args.style,
                    with_decis: args.with_decis,
                },
            ),
        }
    }

    /// The current phase.
    pub fn get_mode(&self) -> (m: &Mode)
        ensures
            *m == self.mode,
    {
        &self.mode
    }

    /// The clock of the work phase.
    pub fn get_clock_work(&self) -> (c: &Clock)
        ensures
            *c == self.clock_work,
    {
        &self.clock_work
    }

    /// The clock of the pause phase.
    pub fn get_clock_pause(&self) -> (c: &Clock)
        ensures
            *c == self.clock_pause,
    {
        &self.clock_pause
    }

    /// Whether ticks move the active clock.
    pub fn is_running(&self) -> (r: bool)
        ensures
            r == self.running,
    {
        self.running
    }

    /// Moves the active clock of a running pomodoro by one step and begins
    /// the other phase if the clock has run out.
    pub fn tick(&mut self)
        ensures
            *final(self) == old(self).ticked(),
    {
        if self.running {
            match self.mode {
                Mode::Work => {
                    self.clock_work.tick();
                    if self.clock_work.is_expired() {
                        self.mode = Mode::Pause;
                        self.clock_pause.reset();
                    }
                },
                Mode::Pause => {
                    self.clock_pause.tick();
                    if self.clock_pause.is_expired() {
                        self.mode = Mode::Work;
                        self.clock_work.reset();
                    }
                },
            }
        }
    }

    /// Skips to the other phase by hand.
    pub fn skip(&mut self)
        ensures
            *final(self) == old(self).skipped(),
    {
        match self.mode {
            Mode::Work => {
                self.clock_work.reset();
                self.mode = Mode::Pause;
            },
            Mode::Pause => {
                self.clock_pause.reset();
                self.mode = Mode::Work;
            },
        }
    }

    /// Takes a tick and the two keys of the pomodoro, and hands every other
    /// event back.
    pub fn update(&mut self, event: Event) -> (unhandled: Option<Event>)
        ensures
            (*final(self), unhandled) == old(self).updated(event),
    {
        match event {
            Event::Tick => {
                self.tick();
                None
            },
            Event::Key(Key::Char('s')) => {
                self.running = !self.running;
                None
            },
            Event::Key(Key::Right) => {
                self.skip();
                None
            },
            _ => Some(event),
        }
    }

    /// Sets how both clocks are drawn.
    pub fn set_style(&mut self, style: ClockStyle)
        ensures
            *final(self) == (Pomodoro {
                clock_work: Clock { style, ..old(self).clock_work },
                clock_pause: Clock { style, ..old(self).clock_pause },
                ..*old(self)
            }),
    {
        self.clock_work.set_style(style);
        self.clock_pause.set_style(style);
    }

    /// Sets whether both clocks show deciseconds.
    pub fn set_with_decis(&mut self, with_decis: bool)
        ensures
            *final(self) == (Pomodoro {
                clock_work: Clock { with_decis, ..old(self).clock_work },
                clock_pause: Clock { with_decis, ..old(self).clock_pause },
                ..*old(self)
            }),
    {
        self.clock_work.set_with_decis(with_decis);
        self.clock_pause.set_with_decis(with_decis);
    }
}

/// A running pomodoro whose active clock has at most one step left takes the
/// next tick, flips its phase, starts the clock of the new phase from its
/// initial value, and goes on running.
pub proof fn lemma_auto_transition(p: Pomodoro)
    requires
        p.wf(),
        p.running,
        p.active_clock().current_value@ <= p.active_clock().tick_value@,
    ensures
        p.updated(Event::Tick).1 is None,
        p.updated(Event::Tick).0.mode == p.mode.flipped(),
        p.updated(Event::Tick).0.running,
        p.updated(Event::Tick).0.active_clock().current_value == p.updated(
            Event::Tick,
        ).0.active_clock().initial_value,
        p.mode == Mode::Work ==> p.updated(Event::Tick).0.clock_pause.current_value
            == p.clock_pause.initial_value,
        p.mode == Mode::Pause ==> p.updated(Event::Tick).0.clock_work.current_value
            == p.clock_work.initial_value,
{
}

/// Whatever event a well-formed pomodoro is given, it stays well formed, and
/// a clock that stood within its initial value still does.
pub proof fn lemma_update_keeps_wf(p: Pomodoro, event: Event)
    requires
        p.wf(),
    ensures
        p.updated(event).0.wf(),
        p.clock_work.within_initial() && p.clock_pause.within_initial() ==> p.updated(
            event,
        ).0.clock_work.within_initial() && p.updated(event).0.clock_pause.within_initial(),
{
}

/// A stopped pomodoro lets ticks pass without moving either clock.
pub proof fn lemma_stopped_ignores_ticks(p: Pomodoro)
    requires
        !p.running,
    ensures
        p.updated(Event::Tick) == (p, None::<Event>),
{
}

} // verus!
