//! Configured task groups.
pub mod pong_settings;
pub mod settings;
