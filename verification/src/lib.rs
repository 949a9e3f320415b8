//! The decision logic of an autonomous command-line agent.
//!
//! The agent asks a completion service for one shell command at a time,
//! has the command executed, records the outcome in its conversation and
//! repeats until the model signals completion, an error occurs or the
//! iteration limit is reached. This crate holds the rules of that cycle;
//! sending requests and spawning processes is left to the caller.

pub mod agent;
pub mod conversation;
pub mod error;
pub mod helpers;
pub mod models;
pub mod services;
