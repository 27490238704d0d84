//! Decisions behind the operating-system services: start at login, screen
//! lock detection and the rest overlay.

pub mod autostart;
pub mod lock_monitor;
pub mod overlay;
