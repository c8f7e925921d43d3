//! Break and attention scheduling core of the Focust reminder application.

pub mod text;
pub mod time;
pub mod config;
pub mod models;
pub mod shared_state;
pub mod event;
pub mod break_scheduler;
pub mod attention_timer;
pub mod manager;
pub mod monitors;
pub mod error;
pub mod paths;
pub mod test_helpers;
pub mod laws;
pub mod logging;
pub mod scheduler_state;
