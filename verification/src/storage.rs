//! The snapshot that carries the application's state between sessions.

use vstd::prelude::*;
use crate::args::Content;
use crate::clock::ClockStyle;
use crate::duration::Duration;
use crate::pomodoro::Mode;

verus! {

/// The state of the application as a flat record.
#[derive(Clone, Copy, Debug, PartialEq, Eq)]
pub struct AppStorage {
    pub content: Content,
    pub show_menu: bool,
    pub clock_style: ClockStyle,
    pub with_decis: bool,
    pub pomodoro_mode: Mode,
    pub inital_value_work: Duration,
    pub current_value_work: Duration,
    pub inital_value_pause: Duration,
    pub current_value_pause: Duration,
    pub inital_value_countdown: Duration,
    pub current_value_countdown: Duration,
    pub current_value_timer: Duration,
}

impl AppStorage {
    /// The snapshot of a first session: a countdown of ten minutes, a work
    /// phase of twenty-five and a pause of five, none of them begun.
    pub open spec fn initial() -> AppStorage {
        AppStorage {
            content: Content::Countdown,
            show_menu: false,
            clock_style: ClockStyle::Bold,
            with_decis: false,
            pomodoro_mode: Mode::Work,
            inital_value_work: Duration { millis: 1_500_000 },
            current_value_work: Duration { millis: 1_500_000 },
            inital_value_pause: Duration { millis: 300_000 },
            current_value_pause: Duration { millis: 300_000 },
            inital_value_countdown: Duration { millis: 600_000 },
            current_value_countdown: Duration { millis: 600_000 },
            current_value_timer: Duration { millis: 0 },
        }
    }
}

impl Default for AppStorage {
    /// The snapshot of a first session.
    fn default() -> (s: AppStorage)
        ensures
            s == AppStorage::initial(),
    {
        AppStorage {
            content: Content::Countdown,
            show_menu: false,
            clock_style: ClockStyle::Bold,
            with_decis: false,
            pomodoro_mode: Mode::Work,
            inital_value_work: Duration::from_secs(25 * 60),
            current_value_work: Duration::from_secs(25 * 60),
            inital_value_pause: Duration::from_secs(5 * 60),
            current_value_pause: Duration::from_secs(5 * 60),
            inital_value_countdown: Duration::from_secs(10 * 60),
            current_value_countdown: Duration::from_secs(10 * 60),
            current_value_timer: Duration::zero(),
        }
    }
}

} // verus!
