//! Time tracking for a terminal clock: a countdown, a timer and a pomodoro
//! with alternating work and pause phases, together with the application
//! state that routes events to the active one and the snapshot that carries
//! the state from one session to the next.

pub mod constants;
pub mod duration;
pub mod clock;
pub mod parser;
pub mod events;
pub mod countdown;
pub mod timer;
pub mod pomodoro;
pub mod args;
pub mod storage;
pub mod app;
