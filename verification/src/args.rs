//! What the command line can set.

use vstd::prelude::*;
use crate::clock::ClockStyle;
use crate::duration::Duration;

verus! {

/// The clock that the application shows.
#[derive(Clone, Copy, Debug, PartialEq, Eq, Structural)]
pub enum Content {
    Countdown,
    Timer,
    Pomodoro,
}

/// The values of the command line. A value that was not given is `None`, a
/// switch that was not given is `false`.
#[derive(Clone, Copy, Debug, PartialEq, Eq)]
pub struct Args {
    /// The time the countdown starts from.
    pub countdown: Option<Duration>,
    /// The time the work phase starts from.
    pub work: Option<Duration>,
    /// The time the pause phase starts from.
    pub pause: Option<Duration>,
    /// Whether to show deciseconds.
    pub decis: bool,
    /// The clock to start with.
    pub mode: Option<Content>,
    /// The style to draw the time with.
    pub style: Option<ClockStyle>,
    /// Whether to open the menu.
    pub menu: bool,
    /// Whether to put the stored values aside.
    pub reset: bool,
}

impl Args {
    /// Whether the command line sets nothing at all.
    pub open spec fn is_empty(self) -> bool {
        &&& self.countdown is None
        &&& self.work is None
        &&& self.pause is None
        &&& !self.decis
        &&& self.mode is None
        &&& self.style is None
        &&& !self.menu
        &&& !self.reset
    }
}

impl Default for Args {
    /// The command line that sets nothing.
    fn default() -> (a: Args)
        ensures
            a.is_empty(),
    {
        Args {
            countdown: None,
            work: None,
            pause: None,
            decis: false,
            mode: None,
            style: None,
            menu: false,
            reset: false,
        }
    }
}

} // verus!
