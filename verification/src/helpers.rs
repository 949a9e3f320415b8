//! Building blocks used when a run is set up.

pub mod ai_tools;
pub mod config;
pub mod create_system_message;
