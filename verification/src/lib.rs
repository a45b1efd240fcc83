//! Core of a desktop hardware watcher: it watches CPU, memory and heat
//! limits and plays an alarm sound when one of them is crossed.
//!
//! The library holds the decisions: which limits are watched, when a reading
//! crosses a limit, which notice is sent, how the alarm sound is shaped, and
//! how the application's run state changes from one command to the next.
//! Reading sensors, sleeping, spawning tasks and playing audio are left to
//! the application around it.

pub mod config;
pub mod effects;
pub mod notice;
pub mod sounds;
pub mod state;
pub mod watch;
