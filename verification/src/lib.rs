//! Decision logic and message rendering for a voice-channel music bot.
//!
//! The crate holds everything the bot computes: how a queue listing is paged and
//! rendered, how the queue is reordered and pruned, which reply a command owes its
//! caller, and how configuration strings map to presence settings. Talking to the
//! chat gateway and the voice driver is left to the binary built around it.

pub mod config;
pub mod decimal;
pub mod handler;
pub mod text;
pub mod timespan;
pub mod track;
pub mod reply;
pub mod utils;
pub mod commands;
