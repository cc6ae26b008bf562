//! The application: three clocks, of which one is shown and driven.
//!
//! Every event goes to the clock that is shown. What that clock hands back
//! the application deals with itself: a render or a resize asks for a redraw,
//! a key acts on the application as a whole, anything else is dropped.

use vstd::prelude::*;
use vstd::std_specs::convert::FromSpecImpl;
use crate::args::{Args, Content};
use crate::clock::{lemma_timer_growth, Clock, ClockArgs, ClockStyle, Direction};
use crate::constants::TICK_VALUE_MS;
use crate::countdown::Countdown;
use crate::duration::Duration;
use crate::events::{Event, Key};
use crate::pomodoro::{lemma_update_keeps_wf, Mode as PomodoroMode, Pomodoro, PomodoroArgs};
use crate::storage::AppStorage;
use crate::timer::Timer;

verus! {

/// Whether the application goes on.
#[derive(Clone, Copy, Debug, PartialEq, Eq, Structural)]
pub enum Mode {
    Running,
    Quit,
}

/// What the caller is to do after an event.
#[derive(Clone, Copy, Debug, PartialEq, Eq, Structural)]
pub enum Action {
    /// Nothing.
    Nothing,
    /// Draw the application anew.
    Redraw,
}

/// The state of the application.
#[derive(Clone, Copy, Debug, PartialEq, Eq)]
pub struct App {
    pub content: Content,
    pub mode: Mode,
    pub show_menu: bool,
    pub countdown: Countdown,
    pub timer: Timer,
    pub pomodoro: Pomodoro,
    pub clock_style: ClockStyle,
    pub with_decis: bool,
}

/// What an application is made from.
#[derive(Clone, Copy, Debug, PartialEq, Eq)]
pub struct AppArgs {
    pub style: ClockStyle,
    pub with_decis: bool,
    pub show_menu: bool,
    pub content: Content,
    pub pomodoro_mode: PomodoroMode,
    pub initial_value_work: Duration,
    pub current_value_work: Duration,
    pub initial_value_pause: Duration,
    pub current_value_pause: Duration,
    pub initial_value_countdown: Duration,
    pub current_value_countdown: Duration,
    pub current_value_timer: Duration,
}

/// The value of the command line where it gives one, the stored one where it
/// does not.
pub open spec fn given_or<T>(given: Option<T>, stored: T) -> T {
    match given {
        Some(v) => v,
        None => stored,
    }
}

/// The command line and the snapshot merged. What the command line gives
/// wins; deciseconds are shown, and the menu is open, if either asks for it;
/// the phase of the pomodoro and every current value come from the snapshot.
pub open spec fn merged(args: Args, stg: AppStorage) -> AppArgs {
    AppArgs {
        with_decis: args.decis || stg.with_decis,
        show_menu: args.menu || stg.show_menu,
        content: given_or(args.mode, stg.content),
        style: given_or(args.style, stg.clock_style),
        pomodoro_mode: stg.pomodoro_mode,
        initial_value_work: given_or(args.work, stg.inital_value_work),
        current_value_work: stg.current_value_work,
        initial_value_pause: given_or(args.pause, stg.inital_value_pause),
        current_value_pause: stg.current_value_pause,
        initial_value_countdown: given_or(args.countdown, stg.inital_value_countdown),
        current_value_countdown: stg.current_value_countdown,
        current_value_timer: stg.current_value_timer,
    }
}

/// Merges the command line and the snapshot. What the command line gives
/// wins; deciseconds are shown, and the menu is open, if either asks for it;
/// the phase of the pomodoro and every current value come from the snapshot.
impl From<(Args, AppStorage)> for AppArgs {
    fn from(pair: (Args, AppStorage)) -> (app_args: AppArgs) {
        let (args, stg) = pair;
        AppArgs {
            with_decis: args.decis || stg.with_decis,
            show_menu: args.menu || stg.show_menu,
            content: match args.mode {
                Some(content) => content,
                None => stg.content,
            },
            style: match args.style {
                Some(style) => style,
                None => stg.clock_style,
            },
            pomodoro_mode: stg.pomodoro_mode,
            initial_value_work: match args.work {
                Some(work) => work,
                None => stg.inital_value_work,
            },
            current_value_work: stg.current_value_work,
            initial_value_pause: match args.pause {
                Some(pause) => pause,
                None => stg.inital_value_pause,
            },
            current_value_pause: stg.current_value_pause,
            initial_value_countdown: match args.countdown {
                Some(countdown) => countdown,
                None => stg.inital_value_countdown,
            },
            current_value_countdown: stg.current_value_countdown,
            current_value_timer: stg.current_value_timer,
        }
    }
}

impl FromSpecImpl<(Args, AppStorage)> for AppArgs {
    open spec fn obeys_from_spec() -> bool {
        true
    }

    open spec fn from_spec(pair: (Args, AppStorage)) -> AppArgs {
        merged(pair.0, pair.1)
    }
}

impl App {
    /// The three clocks are of their kinds, and each is drawn as the
    /// application says.
    pub open spec fn wf(self) -> bool {
        &&& self.countdown.wf()
        &&& self.timer.wf()
        &&& self.pomodoro.wf()
        &&& self.settings_in_sync()
    }

    /// Every clock has the style and the decisecond switch of the
    /// application.
    pub open spec fn settings_in_sync(self) -> bool {
        &&& self.shows(self.countdown.clock)
        &&& self.shows(self.timer.clock)
        &&& self.shows(self.pomodoro.clock_work)
        &&& self.shows(self.pomodoro.clock_pause)
    }

    /// No clock that runs down stands above the value it is reset to.
    pub open spec fn clocks_within_initial(self) -> bool {
        &&& self.countdown.clock.within_initial()
        &&& self.pomodoro.clock_work.within_initial()
        &&& self.pomodoro.clock_pause.within_initial()
    }

    /// Whether `clock` is drawn as the application says.
    pub open spec fn shows(self, clock: Clock) -> bool {
        clock.style == self.clock_style && clock.with_decis == self.with_decis
    }

    /// The application that `args` describe: it runs, and its menu is open
    /// if they say so.
    pub open spec fn spec_new(args: AppArgs) -> App {
        App {
            mode: Mode::Running,
            content: args.content,
            show_menu: args.show_menu,
            clock_style: args.style,
            with_decis: args.with_decis,
            countdown: Countdown {
                clock: Clock {
                    direction: Direction::CountsDown,
                    initial_value: args.initial_value_countdown,
                    current_value: args.current_value_countdown,
                    tick_value: Duration { millis: 100 },
                    style: args.style,
                    with_decis: args.with_decis,
                },
            },
            timer: Timer {
                clock: Clock {
                    direction: Direction::CountsUp,
                    initial_value: Duration { millis: 0 },
                    current_value: args.current_value_timer,
                    tick_value: Duration { millis: 100 },
                    style: args.style,
                    with_decis: args.with_decis,
                },
            },
            pomodoro: Pomodoro::spec_new(
                PomodoroArgs {
                    mode: args.pomodoro_mode,
                    initial_value_work: args.initial_value_work,
                    current_value_work: args.current_value_work,
                    initial_value_pause: args.initial_value_pause,
                    current_value_pause: args.current_value_pause,
                    style: args.style,
                    with_decis: args.with_decis,
                },
            ),
        }
    }

    /// The application with all its clocks drawn in `style`.
    pub open spec fn with_style(self, style: ClockStyle) -> App {
        App {
            clock_style: style,
            countdown: Countdown { clock: Clock { style, ..self.countdown.clock } },
            timer: Timer { clock: Clock { style, ..self.timer.clock } },
            pomodoro: Pomodoro {
                clock_work: Clock { style, ..self.pomodoro.clock_work },
                clock_pause: Clock { style, ..self.pomodoro.clock_pause },
                ..self.pomodoro
            },
            ..self
        }
    }

    /// The application with the decisecond switch of all its clocks set.
    pub open spec fn with_decis_set(self, with_decis: bool) -> App {
        App {
            with_decis,
            countdown: Countdown { clock: Clock { with_decis, ..self.countdown.clock } },
            timer: Timer { clock: Clock { with_decis, ..self.timer.clock } },
            pomodoro: Pomodoro {
                clock_work: Clock { with_decis, ..self.pomodoro.clock_work },
                clock_pause: Clock { with_decis, ..self.pomodoro.clock_pause },
                ..self.pomodoro
            },
            ..self
        }
    }

    /// The application after a key that the shown clock did not take.
    ///
    /// `q` and `Esc` quit; `c`, `t` and `p` show the countdown, the timer and
    /// the pomodoro; `m` opens or closes the menu, `Up` opens and `Down`
    /// closes it; `,` moves all clocks to the next style; `.` switches the
    /// deciseconds of all clocks. Every other key changes nothing.
    pub open spec fn key_handled(self, key: Key) -> App {
        match key {
            Key::Char('q') | Key::Esc => App { mode: Mode::Quit, ..self },
            Key::Char('c') => App { content: Content::Countdown, ..self },
            Key::Char('t') => App { content: Content::Timer, ..self },
            Key::Char('p') => App { content: Content::Pomodoro, ..self },
            Key::Char('m') => App { show_menu: !self.show_menu, ..self },
            Key::Char(',') => self.with_style(self.clock_style.spec_next()),
            Key::Char('.') => self.with_decis_set(!self.with_decis),
            Key::Up => App { show_menu: true, ..self },
            Key::Down => App { show_menu: false, ..self },
            _ => self,
        }
    }

    /// The application after `event` has gone to the clock that is shown, and
    /// the event if that clock did not take it. The other two clocks are not
    /// touched.
    pub open spec fn routed(self, event: Event) -> (App, Option<Event>) {
        match self.content {
            Content::Countdown => (
                App { countdown: self.countdown.updated(event).0, ..self },
                self.countdown.updated(event).1,
            ),
            Content::Timer => (
                App { timer: self.timer.updated(event).0, ..self },
                self.timer.updated(event).1,
            ),
            Content::Pomodoro => (
                App { pomodoro: self.pomodoro.updated(event).0, ..self },
                self.pomodoro.updated(event).1,
            ),
        }
    }

    /// The application after `event`, and what the caller is to do then.
    pub open spec fn event_handled(self, event: Event) -> (App, Action) {
        let (app, unhandled) = self.routed(event);
        match unhandled {
            Some(Event::Render) | Some(Event::Resize) => (app, Action::Redraw),
            Some(Event::Key(key)) => (app.key_handled(key), Action::Nothing),
            _ => (app, Action::Nothing),
        }
    }

    /// The application after the events of `events` from `from` on, taken in
    /// order for as long as it runs, and the number of redraws asked for on
    /// the way.
    pub open spec fn events_handled(self, events: Seq<Event>, from: int) -> (App, nat)
        decreases events.len() - from,
    {
        if from < 0 || from >= events.len() || self.mode == Mode::Quit {
            (self, 0)
        } else {
            let (app, action) = self.event_handled(events[from]);
            let (last, redraws) = app.events_handled(events, from + 1);
            (
                last,
                if action == Action::Redraw {
                    redraws + 1
                } else {
                    redraws
                },
            )
        }
    }

    /// The application with its timer `n` ticks on and nothing else changed.
    pub open spec fn timer_ticked(self, n: nat) -> App {
        App { timer: Timer { clock: self.timer.clock.after_ticks(n) }, ..self }
    }

    /// The snapshot of the application.
    pub open spec fn spec_to_storage(self) -> AppStorage {
        AppStorage {
            content: self.content,
            show_menu: self.show_menu,
            clock_style: self.clock_style,
            with_decis: self.with_decis,
            pomodoro_mode: self.pomodoro.mode,
            inital_value_work: self.pomodoro.clock_work.initial_value,
            current_value_work: self.pomodoro.clock_work.current_value,
            inital_value_pause: self.pomodoro.clock_pause.initial_value,
            current_value_pause: self.pomodoro.clock_pause.current_value,
            inital_value_countdown: self.countdown.clock.initial_value,
            current_value_countdown: self.countdown.clock.current_value,
            current_value_timer: self.timer.clock.current_value,
        }
    }

    /// Makes a running application. The menu is open if `args` say so; the
    /// clocks take their values, their style and their decisecond switch from
    /// `args`; the timer counts up from zero.
    pub fn new(args: AppArgs) -> (app: App)
        ensures
            app == Self::spec_new(args),
            app.wf(),
            app.clocks_within_initial() <==> {
                &&& args.current_value_countdown@ <= args.initial_value_countdown@
                &&& args.current_value_work@ <= args.initial_value_work@
                &&& args.current_value_pause@ <= args.initial_value_pause@
            },
    {
        let AppArgs {
            style,
            initial_value_work,
            initial_value_pause,
            initial_value_countdown,
            current_value_work,
            current_value_pause,
            current_value_countdown,
            current_value_timer,
            content,
            with_decis,
            show_menu,
            pomodoro_mode,
        } = args;
        App {
            mode: Mode::Running,
            content,
            show_menu,
            clock_style: style,
            with_decis,
            countdown: Countdown::new(
                Clock::new(
                    Direction::CountsDown,
                    ClockArgs {
                        initial_value: initial_value_countdown,
                        current_value: current_value_countdown,
                        tick_value: Duration::from_millis(TICK_VALUE_MS),
                        style,
                        with_decis,
                    },
                ),
            ),
            timer: Timer::new(
                Clock::new(
                    Direction::CountsUp,
                    ClockArgs {
                        initial_value: Duration::zero(),
                        current_value: current_value_timer,
                        tick_value: Duration::from_millis(TICK_VALUE_MS),
                        style,
                        with_decis,
                    },
                ),
            ),
            pomodoro: Pomodoro::new(
                PomodoroArgs {
                    mode: pomodoro_mode,
                    initial_value_work,
                    current_value_work,
                    initial_value_pause,
                    current_value_pause,
                    style,
                    with_decis,
                },
            ),
        }
    }

    /// Whether the application has not been quit.
    pub fn is_running(&self) -> (r: bool)
        ensures
            r == (self.mode != Mode::Quit),
    {
        self.mode != Mode::Quit
    }

    /// The rows that the footer takes: two with the menu open, one without.
    pub fn footer_height(&self) -> (rows: u16)
        ensures
            rows == if self.show_menu {
                2u16
            } else {
                1u16
            },
    {
        if self.show_menu {
            2
        } else {
            1
        }
    }

    /// Sets the style of the application and of all three clocks.
    pub fn set_style(&mut self, style: ClockStyle)
        ensures
            *final(self) == old(self).with_style(style),
    {
        self.clock_style = style;
        self.timer.set_style(style);
        self.countdown.set_style(style);
        self.pomodoro.set_style(style);
    }

    /// Sets the decisecond switch of the application and of all three clocks.
    pub fn set_with_decis(&mut self, with_decis: bool)
        ensures
            *final(self) == old(self).with_decis_set(with_decis),
    {
        self.with_decis = with_decis;
        self.timer.set_with_decis(with_decis);
        self.countdown.set_with_decis(with_decis);
        self.pomodoro.set_with_decis(with_decis);
    }

    /// Acts on a key that the shown clock did not take.
    pub fn handle_key_event(&mut self, key: Key)
        ensures
            *final(self) == old(self).key_handled(key),
    {
        match key {
            Key::Char('q') | Key::Esc => {
                self.mode = Mode::Quit;
            },
            Key::Char('c') => {
                self.content = Content::Countdown;
            },
            Key::Char('t') => {
                self.content = Content::Timer;
            },
            Key::Char('p') => {
                self.content = Content::Pomodoro;
            },
            Key::Char('m') => {
                self.show_menu = !self.show_menu;
            },
            Key::Char(',') => {
                self.set_style(self.clock_style.next());
            },
            Key::Char('.') => {
                self.set_with_decis(!self.with_decis);
            },
            Key::Up => {
                self.show_menu = true;
            },
            Key::Down => {
                self.show_menu = false;
            },
            _ => {},
        }
    }

    /// Hands `event` to the clock that is shown, acts on it if that clock
    /// hands it back, and says whether the application is to be drawn anew.
    pub fn handle_event(&mut self, event: Event) -> (action: Action)
        ensures
            (*final(self), action) == old(self).event_handled(event),
    {
        let unhandled = match self.content {
            Content::Countdown => self.countdown.update(event),
            Content::Timer => self.timer.update(event),
            Content::Pomodoro => self.pomodoro.update(event),
        };
        match unhandled {
            Some(Event::Render) | Some(Event::Resize) => Action::Redraw,
            Some(Event::Key(key)) => {
                self.handle_key_event(key);
                Action::Nothing
            },
            _ => Action::Nothing,
        }
    }

    /// Handles the events of a stream that has ended, in order, and stops
    /// early once the application has been quit. Returns the application as
    /// it then stands and the number of redraws that were asked for.
    pub fn run(self, events: &Vec<Event>) -> (end: (App, usize))
        ensures
            end.0 == self.events_handled(events@, 0).0,
            end.1 == self.events_handled(events@, 0).1,
    {
        let mut app = self;
        let mut redraws: usize = 0;
        let mut i: usize = 0;
        while i < events.len() && app.is_running()
            invariant
                i <= events.len(),
                redraws <= i,
                self.events_handled(events@, 0).0 == app.events_handled(events@, i as int).0,
                self.events_handled(events@, 0).1 == redraws + app.events_handled(
                    events@,
                    i as int,
                ).1,
            decreases events.len() - i,
        {
            let action = app.handle_event(events[i]);
            if action == Action::Redraw {
                redraws += 1;
            }
            i += 1;
        }
        (app, redraws)
    }

    /// The snapshot of the application: what is shown, the menu, the style,
    /// the decisecond switch, the phase of the pomodoro and the values of the
    /// clocks.
    pub fn to_storage(&self) -> (stg: AppStorage)
        ensures
            stg == self.spec_to_storage(),
    {
        AppStorage {
            content: self.content,
            show_menu: self.show_menu,
            clock_style: self.clock_style,
            with_decis: self.with_decis,
            pomodoro_mode: *self.pomodoro.get_mode(),
            inital_value_work: self.pomodoro.get_clock_work().initial_value,
            current_value_work: self.pomodoro.get_clock_work().current_value,
            inital_value_pause: self.pomodoro.get_clock_pause().initial_value,
            current_value_pause: self.pomodoro.get_clock_pause().current_value,
            inital_value_countdown: self.countdown.clock.initial_value,
            current_value_countdown: self.countdown.clock.current_value,
            current_value_timer: self.timer.clock.current_value,
        }
    }
}

/// Whether two clocks show the same time: they differ at most in how they
/// are drawn.
pub open spec fn same_time(a: Clock, b: Clock) -> bool {
    &&& a.direction == b.direction
    &&& a.initial_value == b.initial_value
    &&& a.current_value == b.current_value
    &&& a.tick_value == b.tick_value
}

/// Where the command line gives a time to start from, the merged value is
/// that time, whatever the snapshot holds; where it gives none, the merged
/// value is the stored one. The style and the clock to show go the same way,
/// deciseconds are shown if either side asks for them, and so is the menu;
/// the phase and the current values are always the stored ones.
pub proof fn lemma_merge_precedence(args: Args, stg: AppStorage)
    ensures
        ({
            let merged = merged(args, stg);
            &&& args.work matches Some(x) ==> merged.initial_value_work == x
            &&& args.work is None ==> merged.initial_value_work == stg.inital_value_work
            &&& args.pause matches Some(x) ==> merged.initial_value_pause == x
            &&& args.pause is None ==> merged.initial_value_pause == stg.inital_value_pause
            &&& args.countdown matches Some(x) ==> merged.initial_value_countdown == x
            &&& args.countdown is None ==> merged.initial_value_countdown
                == stg.inital_value_countdown
            &&& args.mode matches Some(x) ==> merged.content == x
            &&& args.mode is None ==> merged.content == stg.content
            &&& args.style matches Some(x) ==> merged.style == x
            &&& args.style is None ==> merged.style == stg.clock_style
            &&& merged.with_decis == (args.decis || stg.with_decis)
            &&& merged.show_menu == (args.menu || stg.show_menu)
            &&& merged.pomodoro_mode == stg.pomodoro_mode
            &&& merged.current_value_work == stg.current_value_work
            &&& merged.current_value_pause == stg.current_value_pause
            &&& merged.current_value_countdown == stg.current_value_countdown
            &&& merged.current_value_timer == stg.current_value_timer
        }),
{
}

/// An application made from a snapshot and from a command line that sets
/// nothing gives that snapshot back, as long as no event has reached it.
pub proof fn lemma_storage_round_trip(args: Args, stg: AppStorage)
    requires
        args.is_empty(),
    ensures
        App::spec_new(merged(args, stg)).spec_to_storage() == stg,
{
}

/// A key that the application itself acts on leaves the time of every clock,
/// and the phase and the running of the pomodoro, as they were.
pub proof fn lemma_key_keeps_time(app: App, key: Key)
    ensures
        ({
            let after = app.key_handled(key);
            &&& same_time(after.countdown.clock, app.countdown.clock)
            &&& same_time(after.timer.clock, app.timer.clock)
            &&& same_time(after.pomodoro.clock_work, app.pomodoro.clock_work)
            &&& same_time(after.pomodoro.clock_pause, app.pomodoro.clock_pause)
            &&& after.pomodoro.mode == app.pomodoro.mode
            &&& after.pomodoro.running == app.pomodoro.running
        }),
{
}

/// The key `,` moves the application and all its clocks to the next style,
/// and the key `.` switches the deciseconds of the application and of all its
/// clocks, whichever clock is shown. Clocks that were drawn as the
/// application says still are, and none shows another time than before.
pub proof fn lemma_settings_broadcast(app: App, key: Key)
    requires
        key == Key::Char(',') || key == Key::Char('.'),
    ensures
        ({
            let after = app.event_handled(Event::Key(key)).0;
            &&& key == Key::Char(',') ==> {
                &&& after.clock_style == app.clock_style.spec_next()
                &&& after.with_decis == app.with_decis
                &&& after.countdown.clock.style == after.clock_style
                &&& after.timer.clock.style == after.clock_style
                &&& after.pomodoro.clock_work.style == after.clock_style
                &&& after.pomodoro.clock_pause.style == after.clock_style
            }
            &&& key == Key::Char('.') ==> {
                &&& after.with_decis == !app.with_decis
                &&& after.clock_style == app.clock_style
                &&& after.countdown.clock.with_decis == after.with_decis
                &&& after.timer.clock.with_decis == after.with_decis
                &&& after.pomodoro.clock_work.with_decis == after.with_decis
                &&& after.pomodoro.clock_pause.with_decis == after.with_decis
            }
            &&& app.settings_in_sync() ==> after.settings_in_sync()
            &&& same_time(after.countdown.clock, app.countdown.clock)
            &&& same_time(after.timer.clock, app.timer.clock)
            &&& same_time(after.pomodoro.clock_work, app.pomodoro.clock_work)
            &&& same_time(after.pomodoro.clock_pause, app.pomodoro.clock_pause)
            &&& after.pomodoro.mode == app.pomodoro.mode
            &&& after.pomodoro.running == app.pomodoro.running
            &&& after.content == app.content
            &&& after.mode == app.mode
            &&& after.show_menu == app.show_menu
        }),
{
}

/// An event reaches the clock that is shown and no other: the two clocks
/// that are not shown keep their time, and the pomodoro, where it is not
/// shown, its phase and whether it runs.
pub proof fn lemma_mode_exclusive_dispatch(app: App, event: Event)
    ensures
        ({
            let after = app.event_handled(event).0;
            &&& app.content != Content::Countdown ==> same_time(
                after.countdown.clock,
                app.countdown.clock,
            )
            &&& app.content != Content::Timer ==> same_time(after.timer.clock, app.timer.clock)
            &&& app.content != Content::Pomodoro ==> {
                &&& same_time(after.pomodoro.clock_work, app.pomodoro.clock_work)
                &&& same_time(after.pomodoro.clock_pause, app.pomodoro.clock_pause)
                &&& after.pomodoro.mode == app.pomodoro.mode
                &&& after.pomodoro.running == app.pomodoro.running
            }
        }),
{
    let (routed, unhandled) = app.routed(event);
    match unhandled {
        Some(Event::Key(key)) => {
            lemma_key_keeps_time(routed, key);
        },
        _ => {},
    }
}

/// A well-formed application stays well formed whatever event it is given,
/// and if none of its clocks that run down stood above the value it is reset
/// to, none does afterwards.
pub proof fn lemma_event_keeps_wf(app: App, event: Event)
    requires
        app.wf(),
    ensures
        app.event_handled(event).0.wf(),
        app.clocks_within_initial() ==> app.event_handled(event).0.clocks_within_initial(),
{
    let (routed, unhandled) = app.routed(event);
    lemma_update_keeps_wf(app.pomodoro, event);
    assert(routed.wf());
    assert(app.clocks_within_initial() ==> routed.clocks_within_initial());
    match unhandled {
        Some(Event::Key(key)) => {
            lemma_key_keeps_time(routed, key);
            lemma_key_keeps_wf(routed, key);
        },
        _ => {},
    }
}

/// A key that the application itself acts on leaves a well-formed
/// application well formed.
pub proof fn lemma_key_keeps_wf(app: App, key: Key)
    requires
        app.wf(),
    ensures
        app.key_handled(key).wf(),
{
}

/// The keys `q` and `Esc` quit the application whichever clock is shown, and
/// an application that has been quit takes no more events.
pub proof fn lemma_quit_is_final(app: App, key: Key, events: Seq<Event>, from: int)
    requires
        key == Key::Char('q') || key == Key::Esc,
    ensures
        app.event_handled(Event::Key(key)).0.mode == Mode::Quit,
        app.event_handled(Event::Key(key)).0.events_handled(events, from) == (
            app.event_handled(Event::Key(key)).0,
            0nat,
        ),
{
}

/// No event brings an application that has been quit back to running.
pub proof fn lemma_quit_stays(app: App, event: Event)
    requires
        app.mode == Mode::Quit,
    ensures
        app.event_handled(event).0.mode == Mode::Quit,
{
}

/// A running application that shows its timer takes `n` ticks in a row as
/// `n` steps of the timer: nothing else changes, no redraw is asked for, and
/// the events that follow are handled from there.
pub proof fn lemma_timer_ticks_handled(app: App, events: Seq<Event>, from: int, n: nat)
    requires
        app.content == Content::Timer,
        app.mode == Mode::Running,
        0 <= from,
        from + n <= events.len(),
        forall|i: int| from <= i < from + n ==> events[i] == Event::Tick,
    ensures
        app.events_handled(events, from) == app.timer_ticked(n).events_handled(
            events,
            from + n as int,
        ),
    decreases events.len() - from,
{
    if n > 0 {
        let m = (n - 1) as nat;
        let next = app.event_handled(events[from]).0;
        assert(events[from] == Event::Tick);
        assert(next == app.timer_ticked(1)) by {
            reveal_with_fuel(Clock::after_ticks, 2);
        }
        lemma_timer_ticks_handled(next, events, from + 1, m);
        lemma_tick_first(app.timer.clock, m);
        assert(next.timer_ticked(m) == app.timer_ticked(n));
    } else {
        assert(app.timer_ticked(0) == app);
    }
}

/// One tick and then `n` more are `n + 1` ticks.
pub proof fn lemma_tick_first(c: Clock, n: nat)
    ensures
        c.ticked().after_ticks(n) == c.after_ticks(n + 1),
        c.after_ticks(1) == c.ticked(),
    decreases n,
{
    reveal_with_fuel(Clock::after_ticks, 2);
    if n > 0 {
        lemma_tick_first(c, (n - 1) as nat);
    }
}

/// A running application that shows its timer, with the timer at zero, is
/// given `n` ticks, after which the stream ends or the key `q` comes. Its
/// timer then shows exactly `n` steps, and so does the snapshot. This holds
/// of every stream that fits the memory of the machine and of every step of
/// at most 64 bits: the timer cannot reach the longest representable span.
pub proof fn lemma_timer_counts_ticks(app: App, events: Seq<Event>, n: nat)
    requires
        app.content == Content::Timer,
        app.mode == Mode::Running,
        app.timer.clock.direction == Direction::CountsUp,
        app.timer.clock.current_value@ == 0,
        app.timer.clock.tick_value@ <= u64::MAX,
        n <= usize::MAX,
        n <= events.len(),
        forall|i: int| 0 <= i < n ==> events[i] == Event::Tick,
        n < events.len() ==> events[n as int] == Event::Key(Key::Char('q')),
    ensures
        ({
            let (end, redraws) = app.events_handled(events, 0);
            &&& end.timer.clock.current_value@ == n * app.timer.clock.tick_value@
            &&& end.spec_to_storage().current_value_timer@ == n * app.timer.clock.tick_value@
            &&& end.mode == if n < events.len() {
                Mode::Quit
            } else {
                Mode::Running
            }
            &&& redraws == 0
        }),
{
    let tick = app.timer.clock.tick_value@;
    assert(n * tick <= Duration::max_millis()) by (nonlinear_arith)
        requires
            n <= 0xffff_ffff_ffff_ffff,
            tick <= 0xffff_ffff_ffff_ffff,
            Duration::max_millis() == 0xffff_ffff_ffff_ffff_ffff_ffff_ffff_ffff,
    ;
    lemma_timer_growth(app.timer.clock, n);
    lemma_timer_ticks_handled(app, events, 0, n);
    let ticked = app.timer_ticked(n);
    if n < events.len() {
        let quit = ticked.event_handled(events[n as int]).0;
        assert(quit == App { mode: Mode::Quit, ..ticked });
        assert(quit.events_handled(events, n as int + 1) == (quit, 0nat));
    }
}

} // verus!
