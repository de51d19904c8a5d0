//! The commands, by what they act on.

pub mod queue;
pub mod queueops;
pub mod trackops;
