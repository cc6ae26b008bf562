use timr::app::{Action, App, AppArgs, Mode};
use timr::args::{Args, Content};
use timr::clock::ClockStyle;
use timr::duration::Duration;
use timr::events::{Event, Key};
use timr::pomodoro::Mode as PomodoroMode;
use timr::storage::AppStorage;

fn storage() -> AppStorage {
    AppStorage {
        content: Content::Timer,
        show_menu: false,
        clock_style: ClockStyle::Thick,
        with_decis: true,
        pomodoro_mode: PomodoroMode::Pause,
        inital_value_work: Duration::from_secs(1500),
        current_value_work: Duration::from_secs(1200),
        inital_value_pause: Duration::from_secs(300),
        current_value_pause: Duration::from_secs(100),
        inital_value_countdown: Duration::from_secs(600),
        current_value_countdown: Duration::from_secs(42),
        current_value_timer: Duration::from_secs(7),
    }
}

fn app(content: Content) -> App {
    let mut stg = storage();
    stg.content = content;
    App::new(AppArgs::from((Args::default(), stg)))
}

#[test]
fn default_args_set_nothing() {
    let args = Args::default();
    assert_eq!(args.countdown, None);
    assert_eq!(args.work, None);
    assert_eq!(args.pause, None);
    assert_eq!(args.mode, None);
    assert_eq!(args.style, None);
    assert!(!args.decis && !args.menu && !args.reset);
}

#[test]
fn default_storage() {
    let stg = AppStorage::default();
    assert_eq!(stg.content, Content::Countdown);
    assert!(!stg.show_menu);
    assert_eq!(stg.clock_style, ClockStyle::Bold);
    assert!(!stg.with_decis);
    assert_eq!(stg.pomodoro_mode, PomodoroMode::Work);
    assert_eq!(stg.inital_value_work, Duration::from_secs(25 * 60));
    assert_eq!(stg.current_value_work, Duration::from_secs(25 * 60));
    assert_eq!(stg.inital_value_pause, Duration::from_secs(5 * 60));
    assert_eq!(stg.current_value_pause, Duration::from_secs(5 * 60));
    assert_eq!(stg.inital_value_countdown, Duration::from_secs(10 * 60));
    assert_eq!(stg.current_value_countdown, Duration::from_secs(10 * 60));
    assert_eq!(stg.current_value_timer, Duration::zero());
}

#[test]
fn merge_prefers_the_command_line() {
    let mut args = Args::default();
    args.work = Some(Duration::from_secs(11));
    args.pause = Some(Duration::from_secs(22));
    args.countdown = Some(Duration::from_secs(33));
    args.mode = Some(Content::Pomodoro);
    args.style = Some(ClockStyle::Cross);
    let merged = AppArgs::from((args, storage()));
    assert_eq!(merged.initial_value_work, Duration::from_secs(11));
    assert_eq!(merged.initial_value_pause, Duration::from_secs(22));
    assert_eq!(merged.initial_value_countdown, Duration::from_secs(33));
    assert_eq!(merged.content, Content::Pomodoro);
    assert_eq!(merged.style, ClockStyle::Cross);
    assert_eq!(merged.current_value_work, Duration::from_secs(1200));
    assert_eq!(merged.current_value_pause, Duration::from_secs(100));
    assert_eq!(merged.current_value_countdown, Duration::from_secs(42));
    assert_eq!(merged.current_value_timer, Duration::from_secs(7));
    assert_eq!(merged.pomodoro_mode, PomodoroMode::Pause);
}

#[test]
fn merge_falls_back_to_the_snapshot() {
    let merged = AppArgs::from((Args::default(), storage()));
    assert_eq!(merged.initial_value_work, Duration::from_secs(1500));
    assert_eq!(merged.initial_value_pause, Duration::from_secs(300));
    assert_eq!(merged.initial_value_countdown, Duration::from_secs(600));
    assert_eq!(merged.content, Content::Timer);
    assert_eq!(merged.style, ClockStyle::Thick);
    assert!(merged.with_decis);
}

#[test]
fn merge_shows_deciseconds_if_either_asks() {
    let mut stg = storage();
    stg.with_decis = false;
    let mut args = Args::default();
    assert!(!AppArgs::from((args, stg)).with_decis);
    args.decis = true;
    assert!(AppArgs::from((args, stg)).with_decis);
    stg.with_decis = true;
    assert!(AppArgs::from((args, stg)).with_decis);
}

#[test]
fn storage_round_trip() {
    let stg = storage();
    let app = App::new(AppArgs::from((Args::default(), stg)));
    assert_eq!(app.to_storage(), stg);
    let first = AppStorage::default();
    assert_eq!(App::new(AppArgs::from((Args::default(), first))).to_storage(), first);
}

#[test]
fn storage_round_trip_with_the_menu_open() {
    let mut stg = storage();
    stg.show_menu = true;
    let app = App::new(AppArgs::from((Args::default(), stg)));
    assert!(app.show_menu);
    assert_eq!(app.to_storage(), stg);
    let mut first = AppStorage::default();
    first.show_menu = true;
    assert_eq!(App::new(AppArgs::from((Args::default(), first))).to_storage(), first);
}

#[test]
fn new_app_runs_with_its_menu_as_stored() {
    let mut stg = storage();
    stg.show_menu = true;
    let app = App::new(AppArgs::from((Args::default(), stg)));
    assert!(app.is_running());
    assert_eq!(app.mode, Mode::Running);
    assert!(app.show_menu);
    assert_eq!(app.footer_height(), 2);
    assert_eq!(app.timer.clock.initial_value, Duration::zero());
    assert_eq!(app.timer.clock.current_value, Duration::from_secs(7));
    assert_eq!(app.countdown.clock.tick_value, Duration::from_millis(100));
    assert_eq!(app.pomodoro.clock_work.style, ClockStyle::Thick);
    assert!(app.countdown.clock.with_decis);
    stg.show_menu = false;
    assert!(!App::new(AppArgs::from((Args::default(), stg))).show_menu);
}

#[test]
fn merge_opens_the_menu_if_either_asks() {
    let mut stg = storage();
    let mut args = Args::default();
    assert!(!AppArgs::from((args, stg)).show_menu);
    args.menu = true;
    assert!(AppArgs::from((args, stg)).show_menu);
    assert!(App::new(AppArgs::from((args, stg))).show_menu);
    stg.show_menu = true;
    assert!(AppArgs::from((args, stg)).show_menu);
    args.menu = false;
    assert!(AppArgs::from((args, stg)).show_menu);
}

#[test]
fn timer_counts_the_ticks_of_a_run() {
    for n in [0usize, 1, 7, 250] {
        let mut stg = storage();
        stg.current_value_timer = Duration::zero();
        let mut events = vec![Event::Tick; n];
        events.push(Event::Key(Key::Char('q')));
        let (end, redraws) = App::new(AppArgs::from((Args::default(), stg))).run(&events);
        assert_eq!(end.mode, Mode::Quit);
        assert_eq!(redraws, 0);
        assert_eq!(end.timer.clock.current_value, Duration::from_millis(n as u64 * 100));
        assert_eq!(end.to_storage().current_value_timer, Duration::from_millis(n as u64 * 100));
        assert_eq!(end.to_storage().current_value_countdown, stg.current_value_countdown);
    }
}

#[test]
fn to_storage_follows_the_live_state() {
    let mut a = app(Content::Timer);
    assert_eq!(a.handle_event(Event::Tick), Action::Nothing);
    assert_eq!(a.handle_event(Event::Key(Key::Char('m'))), Action::Nothing);
    assert_eq!(a.handle_event(Event::Key(Key::Char('p'))), Action::Nothing);
    assert_eq!(a.handle_event(Event::Tick), Action::Nothing);
    let stg = a.to_storage();
    assert_eq!(stg.current_value_timer, Duration::from_millis(7100));
    assert_eq!(stg.current_value_pause, Duration::from_millis(99_900));
    assert_eq!(stg.current_value_work, Duration::from_secs(1200));
    assert_eq!(stg.current_value_countdown, Duration::from_secs(42));
    assert!(stg.show_menu);
    assert_eq!(stg.content, Content::Pomodoro);
    assert_eq!(stg.pomodoro_mode, PomodoroMode::Pause);
}

#[test]
fn style_key_reaches_every_clock() {
    for content in [Content::Countdown, Content::Timer, Content::Pomodoro] {
        let mut a = app(content);
        assert_eq!(a.handle_event(Event::Key(Key::Char(','))), Action::Nothing);
        assert_eq!(a.clock_style, ClockStyle::Cross);
        assert_eq!(a.countdown.clock.style, ClockStyle::Cross);
        assert_eq!(a.timer.clock.style, ClockStyle::Cross);
        assert_eq!(a.pomodoro.clock_work.style, ClockStyle::Cross);
        assert_eq!(a.pomodoro.clock_pause.style, ClockStyle::Cross);
        assert_eq!(a.content, content);
        a.handle_event(Event::Key(Key::Char(',')));
        assert_eq!(a.timer.clock.style, ClockStyle::Bold);
    }
}

#[test]
fn decis_key_reaches_every_clock() {
    for content in [Content::Countdown, Content::Timer, Content::Pomodoro] {
        let mut a = app(content);
        assert_eq!(a.handle_event(Event::Key(Key::Char('.'))), Action::Nothing);
        assert!(!a.with_decis);
        assert!(!a.countdown.clock.with_decis);
        assert!(!a.timer.clock.with_decis);
        assert!(!a.pomodoro.clock_work.with_decis);
        assert!(!a.pomodoro.clock_pause.with_decis);
        a.handle_event(Event::Key(Key::Char('.')));
        assert!(a.with_decis && a.countdown.clock.with_decis && a.pomodoro.clock_pause.with_decis);
    }
}

#[test]
fn events_reach_the_shown_clock_only() {
    let mut a = app(Content::Timer);
    let before = a;
    assert_eq!(a.handle_event(Event::Key(Key::Char('s'))), Action::Nothing);
    assert_eq!(a.handle_event(Event::Key(Key::Right)), Action::Nothing);
    assert_eq!(a, before);
    assert_eq!(a.handle_event(Event::Tick), Action::Nothing);
    assert_eq!(a.pomodoro, before.pomodoro);
    assert_eq!(a.countdown, before.countdown);
    assert_eq!(a.timer.clock.current_value, Duration::from_millis(7100));

    let mut b = app(Content::Pomodoro);
    assert_eq!(b.handle_event(Event::Key(Key::Char('s'))), Action::Nothing);
    assert!(!b.pomodoro.running);
    assert_eq!(b.handle_event(Event::Key(Key::Right)), Action::Nothing);
    assert_eq!(b.pomodoro.mode, PomodoroMode::Work);
    assert_eq!(b.timer, before.timer);
    assert_eq!(b.countdown, before.countdown);

    let mut c = app(Content::Countdown);
    assert_eq!(c.handle_event(Event::Tick), Action::Nothing);
    assert_eq!(c.countdown.clock.current_value, Duration::from_millis(41_900));
    assert_eq!(c.timer, before.timer);
    assert_eq!(c.pomodoro, before.pomodoro);
}

#[test]
fn keys_of_the_application() {
    let mut a = app(Content::Timer);
    a.handle_key_event(Key::Char('c'));
    assert_eq!(a.content, Content::Countdown);
    a.handle_key_event(Key::Char('p'));
    assert_eq!(a.content, Content::Pomodoro);
    a.handle_key_event(Key::Char('t'));
    assert_eq!(a.content, Content::Timer);
    a.handle_key_event(Key::Char('m'));
    assert!(a.show_menu);
    a.handle_key_event(Key::Char('m'));
    assert!(!a.show_menu);
    a.handle_key_event(Key::Up);
    assert!(a.show_menu);
    a.handle_key_event(Key::Up);
    assert!(a.show_menu);
    a.handle_key_event(Key::Down);
    assert!(!a.show_menu);
    let before = a;
    a.handle_key_event(Key::Char('x'));
    a.handle_key_event(Key::Left);
    a.handle_key_event(Key::Other);
    assert_eq!(a, before);
    assert!(a.is_running());
    a.handle_key_event(Key::Esc);
    assert!(!a.is_running());
    assert_eq!(a.mode, Mode::Quit);
}

#[test]
fn render_and_resize_ask_for_a_redraw() {
    for content in [Content::Countdown, Content::Timer, Content::Pomodoro] {
        let mut a = app(content);
        let before = a;
        assert_eq!(a.handle_event(Event::Render), Action::Redraw);
        assert_eq!(a.handle_event(Event::Resize), Action::Redraw);
        assert_eq!(a.handle_event(Event::Error), Action::Nothing);
        assert_eq!(a, before);
    }
}

#[test]
fn quit_scenario() {
    for content in [Content::Countdown, Content::Timer, Content::Pomodoro] {
        let (end, redraws) = app(content).run(&vec![Event::Key(Key::Char('q'))]);
        assert_eq!(end.mode, Mode::Quit);
        assert!(!end.is_running());
        assert_eq!(redraws, 0);
    }
}

#[test]
fn run_stops_at_quit() {
    let events = vec![
        Event::Render,
        Event::Tick,
        Event::Resize,
        Event::Key(Key::Char('q')),
        Event::Tick,
        Event::Render,
        Event::Key(Key::Char('c')),
    ];
    let (end, redraws) = app(Content::Timer).run(&events);
    assert_eq!(end.mode, Mode::Quit);
    assert_eq!(redraws, 2);
    assert_eq!(end.timer.clock.current_value, Duration::from_millis(7100));
    assert_eq!(end.content, Content::Timer);
}

#[test]
fn run_to_the_end_of_the_stream() {
    let events = vec![Event::Tick, Event::Render, Event::Tick];
    let (end, redraws) = app(Content::Countdown).run(&events);
    assert!(end.is_running());
    assert_eq!(redraws, 1);
    assert_eq!(end.countdown.clock.current_value, Duration::from_millis(41_800));
    let (same, none) = app(Content::Countdown).run(&Vec::new());
    assert_eq!(same, app(Content::Countdown));
    assert_eq!(none, 0);
}

#[test]
fn setters_of_the_application() {
    let mut a = app(Content::Timer);
    a.set_style(ClockStyle::Empty);
    a.set_with_decis(false);
    assert_eq!(a.clock_style, ClockStyle::Empty);
    assert_eq!(a.pomodoro.clock_work.style, ClockStyle::Empty);
    assert_eq!(a.countdown.clock.style, ClockStyle::Empty);
    assert!(!a.with_decis && !a.timer.clock.with_decis);
}

#[test]
fn footer_grows_with_the_menu() {
    let mut a = app(Content::Timer);
    assert_eq!(a.footer_height(), 1);
    a.handle_key_event(Key::Up);
    assert_eq!(a.footer_height(), 2);
}
