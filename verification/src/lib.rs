//! Rhythm: a focus / rest reminder.
//!
//! The verified core of the application: the focus/rest timer state machine,
//! the configuration rules, the rest-session history, the decisions taken by
//! the GUI and background loops, and the text shown to the user.

pub mod text;
pub mod clock;
pub mod timer_engine;
pub mod config;
pub mod session;
pub mod platform;
pub mod rhythm;
pub mod display;
pub mod timer_history;
