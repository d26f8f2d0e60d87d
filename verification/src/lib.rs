//! A Pomodoro timer: a state machine over work and break intervals, and the
//! decisions of the program around it.
//!
//! The timer never blocks, prints or touches storage. Every operation takes
//! the current instant as an argument and returns the side effects that the
//! caller has to carry out: opening or closing a record in the session log
//! and delivering a notification.
//!
//! - [`config`], [`clock`] and [`effects`] hold the values the timer works
//!   with: phases and interval lengths, instants, and side effects.
//! - [`model`] defines the timer as a mathematical state machine, [`laws`]
//!   proves what holds of it, and [`pomodoro`] is the timer itself.
//! - [`scheduler`] decides which operation an event calls for.
//! - [`notification`] and [`sound`] make up the alerts, [`ui`] decides what
//!   the dashboard shows, [`cli`] reads the options, and [`db`] and
//!   [`stats_chart`] prepare the statistics.

pub mod cli;
pub mod clock;
pub mod config;
pub mod db;
pub mod effects;
pub mod laws;
pub mod model;
pub mod notification;
pub mod pomodoro;
pub mod scheduler;
pub mod sound;
pub mod stats_chart;
pub mod ui;
