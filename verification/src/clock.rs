//! A tickable time value that either runs down to zero or counts up.

use vstd::prelude::*;
use crate::duration::Duration;

verus! {

/// How a clock is drawn. The styles form a cycle, walked by `next`.
#[derive(Clone, Copy, Debug, PartialEq, Eq, Structural)]
pub enum ClockStyle {
    Bold,
    Empty,
    Thick,
    Cross,
}

impl ClockStyle {
    /// The style that follows this one in the cycle.
    pub open spec fn spec_next(self) -> ClockStyle {
        match self {
            ClockStyle::Bold => ClockStyle::Empty,
            ClockStyle::Empty => ClockStyle::Thick,
            ClockStyle::Thick => ClockStyle::Cross,
            ClockStyle::Cross => ClockStyle::Bold,
        }
    }

    /// The style that follows this one; after the last comes the first.
    pub fn next(&self) -> (s: ClockStyle)
        ensures
            s == self.spec_next(),
    {
        match self {
            ClockStyle::Bold => ClockStyle::Empty,
            ClockStyle::Empty => ClockStyle::Thick,
            ClockStyle::Thick => ClockStyle::Cross,
            ClockStyle::Cross => ClockStyle::Bold,
        }
    }
}

impl Default for ClockStyle {
    fn default() -> (s: ClockStyle)
        ensures
            s == ClockStyle::Bold,
    {
        ClockStyle::Bold
    }
}

/// The direction in which a clock moves on each tick.
#[derive(Clone, Copy, Debug, PartialEq, Eq, Structural)]
pub enum Direction {
    /// Runs towards zero and stops there.
    CountsDown,
    /// Grows from zero.
    CountsUp,
}

/// What a clock is made from.
#[derive(Clone, Copy, Debug, PartialEq, Eq, Structural)]
pub struct ClockArgs {
    pub initial_value: Duration,
    pub current_value: Duration,
    pub tick_value: Duration,
    pub style: ClockStyle,
    pub with_decis: bool,
}

/// A time value that moves by a fixed step on each tick.
#[derive(Clone, Copy, Debug, PartialEq, Eq, Structural)]
pub struct Clock {
    pub direction: Direction,
    /// The value a reset returns to.
    pub initial_value: Duration,
    /// The live value.
    pub current_value: Duration,
    /// The step of one tick.
    pub tick_value: Duration,
    pub style: ClockStyle,
    pub with_decis: bool,
}

impl Clock {
    /// A clock is well formed when a tick moves it: its step is not zero.
    pub open spec fn wf(self) -> bool {
        self.tick_value@ > 0
    }

    /// A clock that counts down has not run past its reset target.
    pub open spec fn within_initial(self) -> bool {
        self.direction == Direction::CountsDown ==> self.current_value@ <= self.initial_value@
    }

    /// The clock after one tick: one step towards zero, or one step up.
    pub open spec fn ticked(self) -> Clock {
        Clock {
            current_value: match self.direction {
                Direction::CountsDown => self.current_value.spec_saturating_sub(self.tick_value),
                Direction::CountsUp => self.current_value.spec_saturating_add(self.tick_value),
            },
            ..self
        }
    }

    /// The clock after `n` ticks.
    pub open spec fn after_ticks(self, n: nat) -> Clock
        decreases n,
    {
        if n == 0 {
            self
        } else {
            self.after_ticks((n - 1) as nat).ticked()
        }
    }

    /// The clock after a reset: back at its initial value, which for a clock
    /// that counts up is zero.
    pub open spec fn reset_spec(self) -> Clock {
        Clock {
            current_value: match self.direction {
                Direction::CountsDown => self.initial_value,
                Direction::CountsUp => Duration { millis: 0 },
            },
            ..self
        }
    }

    /// Whether a clock that counts down has reached zero.
    pub open spec fn spec_is_expired(self) -> bool {
        self.direction == Direction::CountsDown && self.current_value@ == 0
    }

    /// Makes a clock of the given direction from its values, as they are.
    pub fn new(direction: Direction, args: ClockArgs) -> (c: Clock)
        ensures
            c == (Clock {
                direction,
                initial_value: args.initial_value,
                current_value: args.current_value,
                tick_value: args.tick_value,
                style: args.style,
                with_decis: args.with_decis,
            }),
    {
        Clock {
            direction,
            initial_value: args.initial_value,
            current_value: args.current_value,
            tick_value: args.tick_value,
            style: args.style,
            with_decis: args.with_decis,
        }
    }

    /// Moves the clock by one step. A clock that counts down stops at zero; a
    /// clock that counts up stops at the longest representable span.
    pub fn tick(&mut self)
        ensures
            *final(self) == old(self).ticked(),
    {
        match self.direction {
            Direction::CountsDown => {
                self.current_value = self.current_value.saturating_sub(self.tick_value);
            },
            Direction::CountsUp => {
                self.current_value = self.current_value.saturating_add(self.tick_value);
            },
        }
    }

    /// Puts the clock back to where it starts.
    pub fn reset(&mut self)
        ensures
            *final(self) == old(self).reset_spec(),
    {
        match self.direction {
            Direction::CountsDown => {
                self.current_value = self.initial_value;
            },
            Direction::CountsUp => {
                self.current_value = Duration::zero();
            },
        }
    }

    /// Sets how the clock is drawn. The time is left alone.
    pub fn set_style(&mut self, style: ClockStyle)
        ensures
            *final(self) == (Clock { style, ..*old(self) }),
    {
        self.style = style;
    }

    /// Sets whether deciseconds are shown. The time is left alone.
    pub fn set_with_decis(&mut self, with_decis: bool)
        ensures
            *final(self) == (Clock { with_decis, ..*old(self) }),
    {
        self.with_decis = with_decis;
    }

    /// Whether a clock that counts down has reached zero. A clock that counts
    /// up never expires.
    pub fn is_expired(&self) -> (b: bool)
        ensures
            b == self.spec_is_expired(),
    {
        match self.direction {
            Direction::CountsDown => self.current_value.is_zero(),
            Direction::CountsUp => false,
        }
    }
}

/// Ticking a clock changes nothing but its current value.
pub proof fn lemma_ticks_keep_settings(c: Clock, n: nat)
    ensures
        c.after_ticks(n) == (Clock { current_value: c.after_ticks(n).current_value, ..c }),
    decreases n,
{
    if n > 0 {
        lemma_ticks_keep_settings(c, (n - 1) as nat);
    }
}

/// A clock that counts down stands, after `n` ticks, `n` steps below where it
/// stood, or at zero where that would be less than zero: it is never negative
/// and never above its earlier value.
pub proof fn lemma_countdown_after_ticks(c: Clock, n: nat)
    requires
        c.direction == Direction::CountsDown,
    ensures
        c.after_ticks(n).current_value@ == if c.current_value@ >= n * c.tick_value@ {
            c.current_value@ - n * c.tick_value@
        } else {
            0
        },
        c.after_ticks(n).current_value@ <= c.current_value@,
        c.within_initial() ==> c.after_ticks(n).within_initial(),
    decreases n,
{
    lemma_ticks_keep_settings(c, n);
    if n > 0 {
        let m = (n - 1) as nat;
        lemma_countdown_after_ticks(c, m);
        lemma_ticks_keep_settings(c, m);
        assert(n * c.tick_value@ == m * c.tick_value@ + c.tick_value@) by (nonlinear_arith)
            requires
                n == m + 1,
        ;
    } else {
        assert(n * c.tick_value@ == 0) by (nonlinear_arith)
            requires
                n == 0,
        ;
    }
}

/// A well-formed clock that counts down reaches exactly zero once the ticks
/// cover its value, and stays at zero however many ticks follow.
pub proof fn lemma_countdown_expires_and_stays(c: Clock, n: nat, more: nat)
    requires
        c.wf(),
        c.direction == Direction::CountsDown,
        n * c.tick_value@ >= c.current_value@,
    ensures
        c.after_ticks(n).spec_is_expired(),
        c.after_ticks(n + more).spec_is_expired(),
        c.after_ticks(c.current_value@).spec_is_expired(),
{
    lemma_countdown_after_ticks(c, n);
    lemma_countdown_after_ticks(c, n + more);
    lemma_countdown_after_ticks(c, c.current_value@);
    lemma_ticks_keep_settings(c, n);
    lemma_ticks_keep_settings(c, n + more);
    lemma_ticks_keep_settings(c, c.current_value@);
    assert((n + more) * c.tick_value@ >= n * c.tick_value@) by (nonlinear_arith);
    assert(c.current_value@ * c.tick_value@ >= c.current_value@) by (nonlinear_arith)
        requires
            c.tick_value@ >= 1,
    ;
}

/// A clock that counts up stands, after `n` ticks, `n` steps above where it
/// stood, as long as that can be represented, and at the longest
/// representable span beyond that.
pub proof fn lemma_timer_after_ticks(c: Clock, n: nat)
    requires
        c.direction == Direction::CountsUp,
    ensures
        c.after_ticks(n).current_value@ == if c.current_value@ + n * c.tick_value@
            <= Duration::max_millis() {
            c.current_value@ + n * c.tick_value@
        } else {
            Duration::max_millis()
        },
        c.after_ticks(n).current_value@ >= c.current_value@,
    decreases n,
{
    lemma_ticks_keep_settings(c, n);
    if n > 0 {
        let m = (n - 1) as nat;
        lemma_timer_after_ticks(c, m);
        lemma_ticks_keep_settings(c, m);
        assert(n * c.tick_value@ == m * c.tick_value@ + c.tick_value@) by (nonlinear_arith)
            requires
                n == m + 1,
        ;
    } else {
        assert(n * c.tick_value@ == 0) by (nonlinear_arith)
            requires
                n == 0,
        ;
    }
}

/// A clock that counts up from zero shows, after `n` ticks, exactly `n` steps,
/// as long as that can be represented.
pub proof fn lemma_timer_growth(c: Clock, n: nat)
    requires
        c.direction == Direction::CountsUp,
        c.current_value@ == 0,
        n * c.tick_value@ <= Duration::max_millis(),
    ensures
        c.after_ticks(n).current_value@ == n * c.tick_value@,
{
    lemma_timer_after_ticks(c, n);
}

} // verus!
